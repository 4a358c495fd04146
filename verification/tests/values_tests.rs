use rs_postgres::values::ValueType;

#[test]
fn null_renders_as_none() {
    assert_eq!(ValueType::Null.to_string(), "None");
}

#[test]
fn integers_render_in_decimal() {
    assert_eq!(ValueType::Int(0).to_string(), "0");
    assert_eq!(ValueType::Int(42).to_string(), "42");
    assert_eq!(ValueType::Int(-7).to_string(), "-7");
    assert_eq!(ValueType::Int(i32::MIN).to_string(), "-2147483648");
    assert_eq!(ValueType::BigInt(i64::MAX).to_string(), "9223372036854775807");
    assert_eq!(ValueType::BigInt(i64::MIN).to_string(), "-9223372036854775808");
}

#[test]
fn text_float_and_unknown_render_as_their_content() {
    assert_eq!(ValueType::Text("abc".to_string()).to_string(), "abc");
    assert_eq!(ValueType::Float("2.75".to_string()).to_string(), "2.75");
    assert_eq!(ValueType::Unknown("POINT".to_string()).to_string(), "POINT");
}

#[test]
fn booleans_render_lower_case() {
    assert_eq!(ValueType::Bool(true).to_string(), "true");
    assert_eq!(ValueType::Bool(false).to_string(), "false");
}

#[test]
fn short_byte_arrays_join_all_bytes() {
    assert_eq!(ValueType::Bytea(vec![]).to_string(), "");
    assert_eq!(ValueType::Bytea(vec![5]).to_string(), "5");
    assert_eq!(ValueType::Bytea(vec![1, 2, 3]).to_string(), "1, 2, 3");
    let twenty: Vec<u8> = (1..=20).collect();
    assert_eq!(
        ValueType::Bytea(twenty).to_string(),
        "1, 2, 3, 4, 5, 6, 7, 8, 9, 10, 11, 12, 13, 14, 15, 16, 17, 18, 19, 20"
    );
}

#[test]
fn long_byte_arrays_render_first_and_last_ten() {
    let twenty_one: Vec<u8> = (1..=21).collect();
    assert_eq!(
        ValueType::Bytea(twenty_one).to_string(),
        "1, 2, 3, 4, 5, 6, 7, 8, 9, 10, ..., 12, 13, 14, 15, 16, 17, 18, 19, 20, 21"
    );
}

#[test]
fn arrays_render_their_elements_joined() {
    let v = ValueType::Array(vec![
        ValueType::Text("x".to_string()),
        ValueType::Int(3),
        ValueType::Null,
    ]);
    assert_eq!(v.to_string(), "x, 3, None");
    assert_eq!(ValueType::Array(vec![]).to_string(), "");
}

#[test]
fn cloning_preserves_values() {
    let v = ValueType::Array(vec![
        ValueType::Bytea(vec![1, 2]),
        ValueType::Text("t".to_string()),
    ]);
    assert_eq!(v.clone(), v);
}
