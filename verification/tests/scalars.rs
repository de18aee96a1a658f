use xpath_reader::scalar::{
    text_to_bool, text_to_i16, text_to_i32, text_to_i64, text_to_i8, text_to_u16, text_to_u32,
    text_to_u64, text_to_u8,
};
use xpath_reader::Reader;

#[test]
fn unsigned_text_parsing() {
    assert_eq!(text_to_u64("0"), Some(0));
    assert_eq!(text_to_u64("42"), Some(42));
    assert_eq!(text_to_u64("+42"), Some(42));
    assert_eq!(text_to_u64("-0"), None);
    assert_eq!(text_to_u64("18446744073709551615"), Some(u64::MAX));
    assert_eq!(text_to_u64("18446744073709551616"), None);
    assert_eq!(text_to_u64("-1"), None);
    assert_eq!(text_to_u64(""), None);
    assert_eq!(text_to_u64("+"), None);
    assert_eq!(text_to_u64("-"), None);
    assert_eq!(text_to_u64(" 42"), None);
    assert_eq!(text_to_u64("42 "), None);
    assert_eq!(text_to_u64("4x2"), None);
    assert_eq!(text_to_u64("23.85"), None);

    assert_eq!(text_to_u8("255"), Some(255));
    assert_eq!(text_to_u8("256"), None);
    assert_eq!(text_to_u16("65535"), Some(65535));
    assert_eq!(text_to_u16("65536"), None);
    assert_eq!(text_to_u32("4294967295"), Some(u32::MAX));
    assert_eq!(text_to_u32("4294967296"), None);
}

#[test]
fn signed_text_parsing() {
    assert_eq!(text_to_i64("-42"), Some(-42));
    assert_eq!(text_to_i64("+42"), Some(42));
    assert_eq!(text_to_i64("9223372036854775807"), Some(i64::MAX));
    assert_eq!(text_to_i64("9223372036854775808"), None);
    assert_eq!(text_to_i64("-9223372036854775808"), Some(i64::MIN));
    assert_eq!(text_to_i64("-9223372036854775809"), None);
    assert_eq!(text_to_i64("99999999999999999999999999"), None);
    assert_eq!(text_to_i64("-99999999999999999999999999"), None);

    assert_eq!(text_to_i8("-128"), Some(i8::MIN));
    assert_eq!(text_to_i8("-129"), None);
    assert_eq!(text_to_i8("127"), Some(i8::MAX));
    assert_eq!(text_to_i8("128"), None);
    assert_eq!(text_to_i16("-32768"), Some(i16::MIN));
    assert_eq!(text_to_i16("32768"), None);
    assert_eq!(text_to_i32("-2147483648"), Some(i32::MIN));
    assert_eq!(text_to_i32("2147483648"), None);
}

#[test]
fn bool_text_parsing() {
    assert_eq!(text_to_bool("true"), Some(true));
    assert_eq!(text_to_bool("false"), Some(false));
    assert_eq!(text_to_bool("TRUE"), None);
    assert_eq!(text_to_bool("True"), None);
    assert_eq!(text_to_bool("1"), None);
    assert_eq!(text_to_bool(""), None);
    assert_eq!(text_to_bool(" true"), None);
}

#[test]
fn scalar_reads_through_documents() {
    let xml = r#"<?xml version="1.0"?><root><a v="+7"/><b v="-0"/><c v="128"/></root>"#;
    let reader = Reader::from_str(xml, None).unwrap();

    assert_eq!(reader.read::<i32, _>("//a/@v").unwrap(), 7);
    // A minus sign is refused by the unsigned types, even on zero.
    assert_eq!(reader.read::<i32, _>("//b/@v").unwrap(), 0);
    let minus_zero = reader.read::<u32, _>("//b/@v").unwrap_err();
    assert_eq!(minus_zero.kind(), xpath_reader::ErrorKind::ConversionValue);
    assert_eq!(minus_zero.value_text(), Some(&"-0".to_string()));
    assert!(reader.read::<i8, _>("//c/@v").is_err());
    assert_eq!(reader.read::<u8, _>("//c/@v").unwrap(), 128);
}
