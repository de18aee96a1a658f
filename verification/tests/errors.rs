use xpath_reader::{Error, ErrorKind, Reader, ReaderContext};

#[test]
fn malformed_document_is_parse_error() {
    let failed = Reader::from_str("<root", None);
    let kind = match failed {
        Err(e) => e.kind(),
        Ok(_) => panic!("malformed markup parsed"),
    };
    assert_eq!(kind, ErrorKind::ParseXml);
}

#[test]
fn scalar_result_is_evaluate_error() {
    let xml = r#"<?xml version="1.0"?><root><a>1</a></root>"#;
    let reader = Reader::from_str(xml, None).unwrap();

    // The expression evaluates to a number, not a node-set.
    let failed = reader.read::<String, _>("count(//a)");
    assert!(failed.is_err());
    assert_eq!(failed.unwrap_err().kind(), ErrorKind::EvaluateQuery);

    // A string result is refused the same way.
    let failed = reader.read::<String, _>("name(//a)");
    assert!(failed.is_err());
    assert_eq!(failed.unwrap_err().kind(), ErrorKind::EvaluateQuery);
}

#[test]
fn empty_anchor_is_evaluate_error() {
    let reader = Reader::from_nodeset(Vec::new(), None);
    let failed = reader.read::<String, _>("whatever");
    assert!(failed.is_err());
    assert_eq!(failed.unwrap_err().kind(), ErrorKind::EvaluateQuery);
}

#[test]
fn custom_error_constructors() {
    let e = Error::custom_msg("something odd".to_string());
    assert_eq!(e.kind(), ErrorKind::Custom);
    assert_eq!(e.message(), "something odd");
    assert_eq!(e.value_text(), None);

    let e = Error::custom_error("broken pipe".to_string());
    assert_eq!(e.kind(), ErrorKind::Custom);
    assert_eq!(e.message(), "broken pipe");

    let e = Error::custom_err_msg("broken pipe".to_string(), "while reading".to_string());
    assert_eq!(e.kind(), ErrorKind::Custom);
    assert_eq!(e.message(), "while reading");

    let e = Error::value_failure("no number".to_string());
    assert_eq!(e.kind(), ErrorKind::ConversionValue);
    assert_eq!(e.value_text(), Some(&"no number".to_string()));
}

#[test]
fn conversion_error_keeps_diagnostic_text() {
    let xml = r#"<?xml version="1.0"?><root><v>not a number</v></root>"#;
    let reader = Reader::from_str(xml, None).unwrap();

    let failed = reader.read::<i32, _>("//v").unwrap_err();
    assert_eq!(failed.kind(), ErrorKind::ConversionValue);
    assert_eq!(failed.message(), "not a number");
    assert_eq!(failed.value_text(), Some(&"not a number".to_string()));
}

#[test]
fn unbound_prefix_is_evaluate_error() {
    let xml = r#"<?xml version="1.0"?><root><a>1</a></root>"#;
    let reader = Reader::from_str(xml, None).unwrap();

    // The engine would not return on an unbound name-test prefix; the
    // reader refuses the expression with an evaluation error instead.
    let failed = reader.read::<String, _>("//x:y");
    assert!(failed.is_err());
    assert_eq!(failed.unwrap_err().kind(), ErrorKind::EvaluateQuery);

    let failed = reader.read::<Option<String>, _>("//ns:*");
    assert!(failed.is_err());
    assert_eq!(failed.unwrap_err().kind(), ErrorKind::EvaluateQuery);

    let failed = reader.read::<Vec<String>, _>("//@pre:name");
    assert!(failed.is_err());
    assert_eq!(failed.unwrap_err().kind(), ErrorKind::EvaluateQuery);
}

#[test]
fn colons_in_literals_and_axes_are_no_prefixes() {
    let xml = r#"<?xml version="1.0"?><root><a>x:y</a></root>"#;
    let reader = Reader::from_str(xml, None).unwrap();

    // A colon inside a quoted literal names no prefix.
    let matched: Vec<String> = reader.read("//a[. = 'x:y']").unwrap();
    assert_eq!(matched, vec!["x:y".to_string()]);
    let missed: Vec<String> = reader.read("//a[. = \"p:q\"]").unwrap();
    assert_eq!(missed, Vec::<String>::new());

    // An axis separator is not a prefix either.
    assert_eq!(reader.read::<String, _>("descendant::a").unwrap(), "x:y");
}

#[test]
fn operator_glued_prefixes_are_checked() {
    let xml = r#"<?xml version="1.0"?><root><a>1</a></root>"#;

    // The engine's tokenizer reads `1 divpre:a` as `1 div pre:a`, so
    // the name test's prefix is `pre`.  With only the glued run bound
    // the scan refuses the expression instead of letting the engine
    // resolve an unbound prefix.
    let mut context = ReaderContext::new();
    context.set_namespace("divpre", "urn:x");
    let reader = Reader::from_str(xml, Some(&context)).unwrap();
    let failed = reader.read::<String, _>("1 divpre:a");
    assert!(failed.is_err());
    assert_eq!(failed.unwrap_err().kind(), ErrorKind::EvaluateQuery);

    // With every candidate bound the expression reaches the engine,
    // which resolves the split prefix and reports the non-node-set
    // result in the ordinary way.
    let mut context = ReaderContext::new();
    context.set_namespace("divpre", "urn:x");
    context.set_namespace("pre", "urn:y");
    let reader = Reader::from_str(xml, Some(&context)).unwrap();
    let failed = reader.read::<String, _>("1 divpre:a");
    assert!(failed.is_err());
    assert_eq!(failed.unwrap_err().kind(), ErrorKind::EvaluateQuery);

    let failed = reader.read::<String, _>(". andpre:b");
    assert!(failed.is_err());
    assert_eq!(failed.unwrap_err().kind(), ErrorKind::EvaluateQuery);

    // The conservative check can refuse a read the engine could have
    // done: here no split happens, but the suffix after the operator
    // name is a candidate too and is unbound.
    let mut context = ReaderContext::new();
    context.set_namespace("divpre", "urn:x");
    let reader = Reader::from_str(xml, Some(&context)).unwrap();
    let refused = reader.read::<Vec<String>, _>("//divpre:a");
    assert!(refused.is_err());
    assert_eq!(refused.unwrap_err().kind(), ErrorKind::EvaluateQuery);
}
