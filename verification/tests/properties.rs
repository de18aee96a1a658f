use xpath_reader::expression::{self, XPathExpression};
use xpath_reader::{ErrorKind, Reader, ReaderContext};

#[test]
fn single_node_read_is_exact_text() {
    let xml = r#"<?xml version="1.0"?><root><a>alpha</a><b>beta</b></root>"#;
    let reader = Reader::from_str(xml, None).unwrap();
    assert_eq!(reader.read::<String, _>("//a").unwrap(), "alpha");
    assert_eq!(reader.read::<String, _>("//b").unwrap(), "beta");
}

#[test]
fn zero_nodes_absence_semantics() {
    let xml = r#"<?xml version="1.0"?><root><a>alpha</a></root>"#;
    let reader = Reader::from_str(xml, None).unwrap();

    assert_eq!(reader.read::<Option<String>, _>("//missing").unwrap(), None);
    assert_eq!(
        reader.read::<Vec<String>, _>("//missing").unwrap(),
        Vec::<String>::new()
    );
    let failed = reader.read::<String, _>("//missing");
    assert!(failed.is_err());
    assert_eq!(failed.unwrap_err().kind(), ErrorKind::Custom);
}

#[test]
fn empty_text_yields_none() {
    let xml = r#"<?xml version="1.0"?><root><empty/><blank></blank></root>"#;
    let reader = Reader::from_str(xml, None).unwrap();
    assert_eq!(reader.read::<Option<String>, _>("//empty").unwrap(), None);
    assert_eq!(reader.read::<Option<String>, _>("//blank").unwrap(), None);
}

#[test]
fn precompiled_expression_round_trip() {
    let xml = r#"<?xml version="1.0"?><root><a>alpha</a><b>beta</b></root>"#;
    let reader = Reader::from_str(xml, None).unwrap();

    let compiled = expression::parse("//b").unwrap();
    let ahead: String = reader.read(&compiled).unwrap();
    let direct: String = reader.read("//b").unwrap();
    assert_eq!(ahead, direct);

    let seq_ahead: Vec<String> = reader.read(&expression::parse("//*").unwrap()).unwrap();
    let seq_direct: Vec<String> = reader.read("//*").unwrap();
    assert_eq!(seq_ahead, seq_direct);
}

#[test]
fn compile_failure_is_compile_error() {
    let xml = r#"<?xml version="1.0"?><root/>"#;
    let reader = Reader::from_str(xml, None).unwrap();

    let empty = expression::parse("");
    assert!(empty.is_err());
    assert_eq!(empty.unwrap_err().kind(), ErrorKind::CompileQuery);

    let bad = reader.read::<String, _>("///");
    assert!(bad.is_err());
    assert_eq!(bad.unwrap_err().kind(), ErrorKind::CompileQuery);
}

#[test]
fn numeric_failure_carries_offending_text() {
    let xml = r#"<?xml version="1.0"?><root><float>-23.85</float></root>"#;
    let reader = Reader::from_str(xml, None).unwrap();

    let failed = reader.read::<u32, _>("//float").unwrap_err();
    assert_eq!(failed.kind(), ErrorKind::ConversionValue);
    assert_eq!(failed.value_text(), Some(&"-23.85".to_string()));

    let failed = reader.read::<Option<i64>, _>("//float").unwrap_err();
    assert_eq!(failed.kind(), ErrorKind::ConversionValue);
    assert_eq!(failed.value_text(), Some(&"-23.85".to_string()));
}

#[test]
fn sequence_comes_in_document_order() {
    let xml = r#"<?xml version="1.0"?><r><a>1</a><b><c>2</c><a>3</a></b><c>4</c><a>5</a></r>"#;
    let reader = Reader::from_str(xml, None).unwrap();

    let scattered: Vec<String> = reader.read("//a | //c").unwrap();
    assert_eq!(
        scattered,
        vec![
            "1".to_string(),
            "2".to_string(),
            "3".to_string(),
            "4".to_string(),
            "5".to_string()
        ]
    );

    let reversed: Vec<String> = reader.read("//c | //a").unwrap();
    assert_eq!(scattered, reversed);
}

#[test]
fn book_tags_scenario() {
    let xml = r#"<book><tags><tag name="cyberpunk"/><tag name="sci-fi"/></tags></book>"#;
    let reader = Reader::from_str(xml, None).unwrap();
    let tags: Vec<String> = reader.read("//book/tags/tag/@name").unwrap();
    assert_eq!(tags, vec!["cyberpunk".to_string(), "sci-fi".to_string()]);

    let xml = r#"<book><tags></tags></book>"#;
    let reader = Reader::from_str(xml, None).unwrap();
    let tags: Vec<String> = reader.read("//book/tags/tag/@name").unwrap();
    assert_eq!(tags, Vec::<String>::new());
}

#[test]
fn optional_float_scenario() {
    let xml = r#"<root><float>-23.85</float></root>"#;
    let reader = Reader::from_str(xml, None).unwrap();

    // Floating point stays outside the library: read the optional
    // text and parse it here.
    let present: Option<f64> = reader
        .read::<Option<String>, _>("//float")
        .unwrap()
        .map(|s| s.parse::<f64>().unwrap());
    assert_eq!(present, Some(-23.85));

    let absent: Option<f64> = reader
        .read::<Option<String>, _>("//missing")
        .unwrap()
        .map(|s| s.parse::<f64>().unwrap());
    assert_eq!(absent, None);
}

#[test]
fn derived_readers_share_context_instance() {
    let xml = r#"<?xml version="1.0"?><book xmlns="books"><tags><tag name="cyberpunk"/><tag name="sci-fi"/></tags></book>"#;

    let mut context = ReaderContext::new();
    context.set_namespace("b", "books");

    let reader = Reader::from_str(xml, Some(&context)).unwrap();
    assert!(std::ptr::eq(reader.context(), &context));

    let derived = reader
        .with_nodeset_eval(&XPathExpression::from("//b:tags"))
        .unwrap();
    assert!(std::ptr::eq(derived.context(), &context));

    // The namespace bound through the root context is consulted by
    // reads made from the derived reader too.
    let names: Vec<String> = derived.read("b:tag/@name").unwrap();
    assert_eq!(names, vec!["cyberpunk".to_string(), "sci-fi".to_string()]);
}

#[test]
fn variables_are_consulted() {
    let xml = r#"<?xml version="1.0"?><root><int>42</int><int>7</int></root>"#;
    let mut context = ReaderContext::new();
    context.set_variable("wanted", "42".to_string());

    let reader = Reader::from_str(xml, Some(&context)).unwrap();
    let picked: Vec<String> = reader.read("//int[. = $wanted]").unwrap();
    assert_eq!(picked, vec!["42".to_string()]);
}

#[test]
fn root_anchor_yields_document_text() {
    let xml = r#"<?xml version="1.0"?><root><a>He</a><b>llo</b></root>"#;
    let reader = Reader::from_str(xml, None).unwrap();

    // The root reader's anchor is the root node itself; its
    // string-value is the document's concatenated text content.
    let root = reader.anchor_node().unwrap();
    assert_eq!(root.text(), "Hello");
    assert_eq!(reader.anchor_nodeset().borrow().len(), 1);

    let direct: String = reader.read(".").unwrap();
    assert_eq!(direct, "Hello");
}
