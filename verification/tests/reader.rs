use xpath_reader::expression::XPathExpression;
use xpath_reader::{FromXml, Reader};

#[test]
fn xpath_str_reader() {
    let xml = r#"<?xml version="1.0" encoding="UTF-8"?>
                 <root><child name="Hello World"/></root>"#;
    let reader = Reader::from_str(xml, None).unwrap();
    assert_eq!(
        reader.read::<String, _>(".//child/@name").unwrap(),
        "Hello World".to_string()
    );
}

#[test]
fn string_from_xml() {
    let xml = r#"<?xml version="1.0"?>
                 <root><title>Hello World</title><empty/></root>"#;
    let reader = Reader::from_str(xml, None).unwrap();

    let title = reader.with_nodeset_eval(&XPathExpression::from("//title")).unwrap();
    assert_eq!(String::from_xml(&title).unwrap(), "Hello World");
    assert_eq!(
        Option::<String>::from_xml(&title).unwrap(),
        Some("Hello World".to_string())
    );

    let empty = reader.with_nodeset_eval(&XPathExpression::from("//empty")).unwrap();
    assert_eq!(String::from_xml(&empty).unwrap(), "");
    assert_eq!(Option::<String>::from_xml(&empty).unwrap(), None);

    let inexistent = reader.with_nodeset_eval(&XPathExpression::from("//inexistent")).unwrap();
    assert!(String::from_xml(&inexistent).is_err());
    assert_eq!(Option::<String>::from_xml(&inexistent).unwrap(), None);
}

#[test]
fn num_from_xml() {
    let xml = r#"<?xml version="1.0"?><root><float>-23.85</float><int>42</int></root>"#;
    let reader = Reader::from_str(xml, None).unwrap();

    let float = reader.with_nodeset_eval(&XPathExpression::from("//float")).unwrap();
    let int = reader.with_nodeset_eval(&XPathExpression::from("//int")).unwrap();

    // Floating point stays outside the library: read the text and
    // parse it here.
    let float_text = String::from_xml(&float).unwrap();
    let int_text = String::from_xml(&int).unwrap();
    assert_eq!(float_text.parse::<f32>().unwrap(), -23.85f32);
    assert_eq!(int_text.parse::<f32>().unwrap(), 42f32);
    assert_eq!(float_text.parse::<f64>().unwrap(), -23.85f64);
    assert_eq!(int_text.parse::<f64>().unwrap(), 42f64);

    assert_eq!(u8::from_xml(&int).unwrap(), 42u8);
    assert_eq!(u16::from_xml(&int).unwrap(), 42u16);
    assert_eq!(u32::from_xml(&int).unwrap(), 42u32);
    assert_eq!(u64::from_xml(&int).unwrap(), 42u64);

    assert_eq!(i8::from_xml(&int).unwrap(), 42i8);
    assert_eq!(i16::from_xml(&int).unwrap(), 42i16);
    assert_eq!(i32::from_xml(&int).unwrap(), 42i32);
    assert_eq!(i64::from_xml(&int).unwrap(), 42i64);
}

#[test]
fn num_absent() {
    let xml = r#"<?xml version="1.0"?><root><float>-23.85</float><int>42</int></root>"#;
    let reader = Reader::from_str(xml, None).unwrap();

    // Floating point stays outside the library: read the optional
    // text and parse it here.
    let opt1: Option<f32> = reader
        .read::<Option<String>, _>("//float")
        .unwrap()
        .map(|s| s.parse::<f32>().unwrap());
    let opt2: Option<f32> = reader
        .read::<Option<String>, _>("//ffloat")
        .unwrap()
        .map(|s| s.parse::<f32>().unwrap());

    assert_eq!(opt1, Some(-23.85f32));
    assert_eq!(opt2, None);
}

#[test]
fn bool_from_xml() {
    let xml = r#"<?xml version="1.0"?><root><t>true</t><f>false</f></root>"#;
    let reader = Reader::from_str(xml, None).unwrap();

    let t = reader.with_nodeset_eval(&XPathExpression::from("//t")).unwrap();
    let f = reader.with_nodeset_eval(&XPathExpression::from("//f")).unwrap();

    assert_eq!(bool::from_xml(&t).unwrap(), true);
    assert_eq!(bool::from_xml(&f).unwrap(), false);
}

#[test]
fn vec_existent() {
    let xml = r#"<?xml version="1.0"?><book><tags><tag name="cyberpunk"/><tag name="sci-fi"/></tags></book>"#;
    let reader = Reader::from_str(xml, None).unwrap();

    let tags: Vec<String> = reader.read("//book/tags/tag/@name").unwrap();
    assert_eq!(tags, vec!["cyberpunk".to_string(), "sci-fi".to_string()]);
}

#[test]
fn vec_non_existent() {
    let xml = r#"<?xml version="1.0"?><root><t>true</t><f>false</f></root>"#;
    let reader = Reader::from_str(xml, None).unwrap();

    let tags: Vec<String> = reader.read("//book/tags/tag/@name").unwrap();
    assert_eq!(tags, Vec::<String>::new());
}

#[test]
fn optional_ints_and_bools() {
    let xml = r#"<?xml version="1.0"?><root><int>42</int><t>true</t><empty/></root>"#;
    let reader = Reader::from_str(xml, None).unwrap();

    assert_eq!(reader.read::<Option<u32>, _>("//int").unwrap(), Some(42));
    assert_eq!(reader.read::<Option<u32>, _>("//missing").unwrap(), None);
    assert_eq!(reader.read::<Option<u32>, _>("//empty").unwrap(), None);
    assert_eq!(reader.read::<Option<bool>, _>("//t").unwrap(), Some(true));
    assert_eq!(reader.read::<Option<bool>, _>("//missing").unwrap(), None);
    assert_eq!(reader.read::<Option<bool>, _>("//empty").unwrap(), None);
}

#[test]
fn reader_from_nodeset_and_node() {
    let xml = r#"<?xml version="1.0"?><root><v>1</v><v>2</v><v>3</v></root>"#;
    let reader = Reader::from_str(xml, None).unwrap();
    let derived = reader.with_nodeset_eval(&XPathExpression::from("//v")).unwrap();

    let cell = derived.anchor_nodeset();
    let nodes = cell.borrow();
    assert_eq!(nodes.len(), 3);
    let copies: Vec<_> = nodes.iter().map(|n| n.duplicate()).collect();
    let again = Reader::from_nodeset(copies, Some(derived.context()));
    let all: Vec<u32> = Vec::<u32>::from_xml(&again).unwrap();
    assert_eq!(all, vec![1, 2, 3]);

    let first = derived.anchor_node().unwrap();
    assert_eq!(first.text(), "1");
    let single = Reader::from_node(first, None);
    assert_eq!(u32::from_xml(&single).unwrap(), 1);

    let none = Reader::from_nodeset(Vec::new(), None);
    assert!(none.anchor_node().is_none());
    assert_eq!(none.anchor_nodeset().borrow().len(), 0);
}

struct TagList(Vec<String>);

impl xpath_reader::FromXmlOptional for TagList {
    fn from_xml_optional<'d>(
        reader: &'d Reader<'d>,
    ) -> Result<Option<Self>, xpath_reader::Error> {
        let tags: Vec<String> = reader.read("tag/@name")?;
        if tags.is_empty() {
            Ok(None)
        } else {
            Ok(Some(TagList(tags)))
        }
    }
}

#[test]
fn user_defined_conversion() {
    let xml = r#"<?xml version="1.0"?><book><tags><tag name="cyberpunk"/><tag name="sci-fi"/></tags></book>"#;
    let reader = Reader::from_str(xml, None).unwrap();

    let tags: Option<TagList> = reader.read("//tags").unwrap();
    assert_eq!(tags.unwrap().0, vec!["cyberpunk".to_string(), "sci-fi".to_string()]);

    let plain: TagList = reader.read("//tags").unwrap();
    assert_eq!(plain.0.len(), 2);

    let xml = r#"<?xml version="1.0"?><book><tags></tags></book>"#;
    let reader = Reader::from_str(xml, None).unwrap();
    let tags: Option<TagList> = reader.read("//tags").unwrap();
    assert!(tags.is_none());
    let plain: Result<TagList, xpath_reader::Error> = reader.read("//tags");
    assert!(plain.is_err());
}
