use rpkl::context::Context;
use rpkl::utils::string_map::StringMap;
use rpkl::value::{integer_from_i64, integer_from_u64, DataSize, DataSizeUnit, DurationUnit, FloatValue, Integer, PklValue, ValueMap};
use rpkl::Error;

#[test]
fn value_map_read_after_write() {
    let mut m = ValueMap::new();
    assert!(m.is_empty());
    assert_eq!(m.insert("a".into(), PklValue::Null), None);
    assert_eq!(m.insert("b".into(), PklValue::Boolean(false)), None);
    assert_eq!(m.insert("a".into(), PklValue::Int(Integer::Pos(1))), Some(PklValue::Null));
    assert_eq!(m.len(), 2);
    assert_eq!(m.get("a"), Some(&PklValue::Int(Integer::Pos(1))));
    assert!(m.contains_key("b"));
    assert!(!m.contains_key("c"));
    assert_eq!(m.entries()[0].0, "a");
    assert_eq!(m.entries()[1].0, "b");
}

#[test]
fn string_map_keeps_first_position() {
    let mut m: StringMap<String> = StringMap::new();
    m.insert("x".into(), "1".into());
    m.insert("y".into(), "2".into());
    m.insert("x".into(), "3".into());
    assert_eq!(m.len(), 2);
    assert_eq!(m.entries()[0], ("x".to_string(), "3".to_string()));
    assert_eq!(m.get("y").map(|s| s.as_str()), Some("2"));
    assert_eq!(m.get("z"), None);
}

#[test]
fn value_accessors() {
    let v = PklValue::String("s".into());
    assert_eq!(v.as_str(), Some("s"));
    assert_eq!(v.as_bool(), None);
    assert_eq!(PklValue::Boolean(true).as_bool(), Some(&true));
    assert_eq!(PklValue::List(vec![]).as_array(), Some(&vec![]));
    assert!(PklValue::Null.as_map().is_none());
    assert_eq!(PklValue::Int(Integer::Neg(-1)).as_int(), Some(&Integer::Neg(-1)));
}

#[test]
fn unit_names() {
    assert_eq!(DataSizeUnit::from_name("kib"), Some(DataSizeUnit::Kibibytes));
    assert_eq!(DataSizeUnit::from_name("KB"), None);
    assert_eq!(DurationUnit::from_name("ms"), Some(DurationUnit::Milliseconds));
    assert_eq!(DurationUnit::from_name("weeks"), None);
    let d = DataSize::new(FloatValue::Unsigned(3), DataSizeUnit::Bytes);
    assert_eq!(d.unit, DataSizeUnit::Bytes);
}

#[test]
fn context_messages() {
    let none: Option<u8> = None;
    assert_eq!(none.context("missing"), Err(Error::Message("missing".into())));
    assert_eq!(Some(3u8).context("missing"), Ok(3));
    let r: Result<u8, Error> = Error::Eof.context("reading");
    assert_eq!(r, Err(Error::Message("reading: unexpected end of input".into())));
    assert_eq!(Error::PklServerError { pkl_error: "x".into() }.to_message(), "x");
}

#[test]
fn deserialized_integers() {
    assert_eq!(integer_from_i64(5), Ok(Integer::Pos(5)));
    assert_eq!(integer_from_i64(-5), Ok(Integer::Neg(-5)));
    assert_eq!(integer_from_i64(i64::MAX), Err(format!("i32 out of range: {}", i64::MAX)));
    assert_eq!(integer_from_i64(-3_000_000_000), Err("i32 out of range: -3000000000".to_string()));
    assert_eq!(integer_from_u64(7), Ok(Integer::Pos(7)));
    assert_eq!(integer_from_u64(u64::MAX), Err(format!("u64 out of range: {}", u64::MAX)));
}
