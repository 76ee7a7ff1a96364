use chrono::TimeZone;
use database::sql::{serialize_sql, Error, FloatLiteral, ToSql, Type, UtcDateTime, Value};

fn literal(value: &Value) -> Result<String, Error> {
    serialize_sql(value).to_sql()
}

fn float(text: &str) -> FloatLiteral {
    FloatLiteral::parse(text.to_string()).unwrap()
}

#[test]
fn booleans_render_as_bits() {
    assert_eq!(literal(&Value::Boolean(true)).unwrap(), "1");
    assert_eq!(literal(&Value::Boolean(false)).unwrap(), "0");
}

#[test]
fn strings_render_between_double_quotes() {
    assert_eq!(literal(&Value::String("abc".into())).unwrap(), "\"abc\"");
    assert_eq!(literal(&Value::String(String::new())).unwrap(), "\"\"");
    assert_eq!(literal(&Value::Clob("long text".into())).unwrap(), "\"long text\"");
}

#[test]
fn quotes_inside_strings_are_not_escaped() {
    assert_eq!(literal(&Value::String("a\"b".into())).unwrap(), "\"a\"b\"");
}

#[test]
fn date_times_render_in_utc() {
    let instant = UtcDateTime::from_timestamp(1704164645, 0).unwrap();
    assert_eq!(literal(&Value::DateTime(instant)).unwrap(), "2024-01-02 03:04:05");
}

#[test]
fn date_times_agree_with_chrono() {
    let dt = chrono::Utc.with_ymd_and_hms(2024, 1, 2, 3, 4, 5).unwrap();
    let instant = UtcDateTime::from_timestamp(dt.timestamp(), dt.timestamp_subsec_nanos()).unwrap();
    assert_eq!(instant.timestamp(), 1704164645);
    assert_eq!(instant.timestamp_subsec_nanos(), 0);
    assert_eq!(literal(&Value::DateTime(instant)).unwrap(), "2024-01-02 03:04:05");
}

#[test]
fn date_times_before_the_epoch_render() {
    let instant = UtcDateTime::from_timestamp(-1, 999_999_999).unwrap();
    assert_eq!(literal(&Value::DateTime(instant)).unwrap(), "1969-12-31 23:59:59");
    let epoch = UtcDateTime::from_timestamp(0, 0).unwrap();
    assert_eq!(literal(&Value::DateTime(epoch)).unwrap(), "1970-01-01 00:00:00");
}

#[test]
fn date_time_writes_append() {
    let mut out = String::from("at ");
    UtcDateTime::from_timestamp(86_400, 0).unwrap().write_sql(&mut out);
    assert_eq!(out, "at 1970-01-02 00:00:00");
}

#[test]
fn instants_out_of_range_do_not_exist() {
    assert_eq!(UtcDateTime::from_timestamp(i64::MAX, 0), None);
    assert_eq!(UtcDateTime::from_timestamp(i64::MIN, 0), None);
    assert_eq!(UtcDateTime::from_timestamp(0, 2_000_000_000), None);
    // A leap second only stands at the end of a minute.
    assert_eq!(UtcDateTime::from_timestamp(0, 1_500_000_000), None);
    assert!(UtcDateTime::from_timestamp(59, 1_500_000_000).is_some());
}

#[test]
fn blobs_cannot_be_rendered() {
    assert_eq!(literal(&Value::Blob(vec![1, 2, 3])), Err(Error::NotImplemented));
    assert_eq!(literal(&Value::Blob(Vec::new())), Err(Error::NotImplemented));
}

#[test]
fn a_failed_rendering_writes_nothing() {
    let mut out = String::from("kept");
    assert_eq!(Value::Blob(vec![0]).fmt_sql(&mut out), Err(Error::NotImplemented));
    assert_eq!(out, "kept");
}

#[test]
fn only_blobs_have_no_literal() {
    assert!(!Value::Blob(vec![1]).has_literal());
    assert!(Value::Clob("x".into()).has_literal());
    assert!(Value::Boolean(true).has_literal());
    assert!(Value::Int(0).has_literal());
}

#[test]
fn signed_integers_render_in_decimal() {
    assert_eq!(literal(&Value::BigInt(0)).unwrap(), "0");
    assert_eq!(literal(&Value::BigInt(-1)).unwrap(), "-1");
    assert_eq!(literal(&Value::BigInt(i64::MAX)).unwrap(), "9223372036854775807");
    assert_eq!(literal(&Value::BigInt(i64::MIN)).unwrap(), "-9223372036854775808");
    assert_eq!(literal(&Value::Int(i32::MIN)).unwrap(), "-2147483648");
    assert_eq!(literal(&Value::Int(42)).unwrap(), "42");
    assert_eq!(literal(&Value::SmallInt(-32768)).unwrap(), "-32768");
    assert_eq!(literal(&Value::TinyInt(-128)).unwrap(), "-128");
    assert_eq!(literal(&Value::TinyInt(127)).unwrap(), "127");
}

#[test]
fn unsigned_integers_render_in_decimal() {
    assert_eq!(literal(&Value::BigIntUnsigned(u64::MAX)).unwrap(), "18446744073709551615");
    assert_eq!(literal(&Value::BigIntUnsigned(10)).unwrap(), "10");
    assert_eq!(literal(&Value::IntUnsigned(u32::MAX)).unwrap(), "4294967295");
    assert_eq!(literal(&Value::SmallIntUnsigned(65535)).unwrap(), "65535");
    assert_eq!(literal(&Value::TinyIntUnsigned(0)).unwrap(), "0");
    assert_eq!(literal(&Value::TinyIntUnsigned(255)).unwrap(), "255");
}

#[test]
fn floats_render_as_their_text() {
    assert_eq!(literal(&Value::Float(float("1.5"))).unwrap(), "1.5");
    assert_eq!(literal(&Value::Double(float("-0.25"))).unwrap(), "-0.25");
    assert_eq!(literal(&Value::Double(float("3"))).unwrap(), "3");
}

#[test]
fn floats_render_as_the_standard_library_writes_them() {
    let single = FloatLiteral::parse(format!("{}", 0.1f32)).unwrap();
    assert_eq!(literal(&Value::Float(single)).unwrap(), "0.1");
    let double = FloatLiteral::parse(format!("{}", -1234.5f64)).unwrap();
    assert_eq!(literal(&Value::Double(double)).unwrap(), "-1234.5");
    assert!(FloatLiteral::parse(format!("{}", f32::MAX)).is_some());
    assert!(FloatLiteral::parse(format!("{}", f64::MIN_POSITIVE)).is_some());
    assert!(FloatLiteral::parse(format!("{}", f64::NAN)).is_some());
    assert!(FloatLiteral::parse(format!("{}", f64::INFINITY)).is_some());
    assert!(FloatLiteral::parse(format!("{}", f64::NEG_INFINITY)).is_some());
    assert!(FloatLiteral::parse(format!("{}", -0.0f64)).is_some());
}

#[test]
fn float_literals_are_checked() {
    for text in ["0", "7", "007", "1.0", "-1.0", "12.34", "-0", "NaN", "inf", "-inf"] {
        let parsed = FloatLiteral::parse(text.to_string());
        assert!(parsed.is_some(), "{}", text);
        assert_eq!(parsed.unwrap().as_str(), text);
    }
    for text in [
        "", "-", ".", "1.", ".5", "-.5", "1..2", "1.2.3", "--1", "+1", "1e5", "1 ", " 1", "nan",
        "Inf", "-NaN", "infinity", "1,5", "1.5; DROP TABLE x", "١", "1-", "-inf ", "1.-2",
    ] {
        assert_eq!(FloatLiteral::parse(text.to_string()), None, "{:?}", text);
    }
}

#[test]
fn float_literals_clone_to_equal_literals() {
    let a = float("2.5");
    let b = a.clone();
    assert_eq!(a, b);
    assert_eq!(b.as_str(), "2.5");
}

#[test]
fn values_report_their_type() {
    assert_eq!(Value::Boolean(true).ty(), Type::Boolean);
    assert_eq!(Value::BigInt(1).ty(), Type::BigInt);
    assert_eq!(Value::BigIntUnsigned(1).ty(), Type::BigIntUnsigned);
    assert_eq!(Value::Int(1).ty(), Type::Int);
    assert_eq!(Value::IntUnsigned(1).ty(), Type::IntUnsigned);
    assert_eq!(Value::SmallInt(1).ty(), Type::SmallInt);
    assert_eq!(Value::SmallIntUnsigned(1).ty(), Type::SmallIntUnsigned);
    assert_eq!(Value::TinyInt(1).ty(), Type::TinyInt);
    assert_eq!(Value::TinyIntUnsigned(1).ty(), Type::TinyIntUnsigned);
    assert_eq!(Value::Float(float("1")).ty(), Type::Float(32));
    assert_eq!(Value::Double(float("1")).ty(), Type::Float(64));
    assert_eq!(Value::DateTime(UtcDateTime::from_timestamp(0, 0).unwrap()).ty(), Type::DateTime);
}

#[test]
fn widths_follow_the_payload() {
    assert_eq!(Value::String("abc".into()).ty(), Type::Character(3));
    assert_eq!(Value::String(String::new()).ty(), Type::Character(0));
    assert_eq!(Value::Clob("abcd".into()).ty(), Type::Clob(4));
    assert_eq!(Value::Blob(vec![1, 2, 3, 4, 5]).ty(), Type::Blob(5));
    assert_eq!(Value::Blob(Vec::new()).ty(), Type::Blob(0));
}

#[test]
fn widths_of_texts_count_characters() {
    assert_eq!(Value::String("héllo".into()).ty(), Type::Character(5));
    assert_eq!(Value::Clob("日本語".into()).ty(), Type::Clob(3));
}

#[test]
fn widths_track_mutation() {
    let mut value = Value::String("ab".into());
    assert_eq!(value.ty(), Type::Character(2));
    if let Value::String(text) = &mut value {
        text.push_str("cde");
    }
    assert_eq!(value.ty(), Type::Character(5));
}

#[test]
fn values_clone_to_equal_values() {
    let values = vec![
        Value::Boolean(true),
        Value::BigInt(-5),
        Value::Float(float("1.5")),
        Value::String("abc".into()),
        Value::DateTime(UtcDateTime::from_timestamp(1, 2).unwrap()),
        Value::Blob(vec![1, 2]),
        Value::Clob("c".into()),
    ];
    for value in values {
        assert_eq!(value.clone(), value);
    }
}
