use rs_postgres::columnar::{column_count, column_name, column_values};
use rs_postgres::decode::{assemble_result, classify, decode_value, RawCell, RawValue, TypeClass};
use rs_postgres::values::ValueType;

fn cell(column: &str, ty: &str, value: RawValue) -> RawCell {
    RawCell { column: column.to_string(), ty_name: ty.to_string(), value }
}

#[test]
fn classify_recognises_each_family() {
    assert_eq!(classify("INT2"), TypeClass::Int2);
    assert_eq!(classify("SMALLINT"), TypeClass::Int2);
    assert_eq!(classify("INT4"), TypeClass::Int4);
    assert_eq!(classify("INTEGER"), TypeClass::Int4);
    assert_eq!(classify("INT8"), TypeClass::Int8);
    assert_eq!(classify("BIGINT"), TypeClass::Int8);
    assert_eq!(classify("FLOAT4"), TypeClass::Float4);
    assert_eq!(classify("REAL"), TypeClass::Float4);
    assert_eq!(classify("FLOAT8"), TypeClass::Float8);
    assert_eq!(classify("DOUBLE PRECISION"), TypeClass::Float8);
    assert_eq!(classify("MONEY"), TypeClass::Money);
    assert_eq!(classify("CHAR"), TypeClass::Text);
    assert_eq!(classify("VARCHAR"), TypeClass::Text);
    assert_eq!(classify("TEXT"), TypeClass::Text);
    assert_eq!(classify("NAME"), TypeClass::Text);
    assert_eq!(classify("BPCHAR"), TypeClass::FixedChar);
    assert_eq!(classify("BOOL"), TypeClass::Bool);
    assert_eq!(classify("BOOLEAN"), TypeClass::Bool);
    assert_eq!(classify("BYTEA"), TypeClass::Bytea);
    assert_eq!(classify("TIMESTAMP"), TypeClass::Timestamp);
    assert_eq!(classify("TIMESTAMPTZ"), TypeClass::Timestamp);
    assert_eq!(classify("DATE"), TypeClass::Date);
    assert_eq!(classify("TIME"), TypeClass::Time);
    assert_eq!(classify("TIMETZ"), TypeClass::Time);
    assert_eq!(classify("INTERVAL"), TypeClass::Interval);
    assert_eq!(classify("JSON"), TypeClass::Json);
    assert_eq!(classify("JSONB"), TypeClass::Json);
    assert_eq!(classify("_INT4"), TypeClass::Array);
    assert_eq!(classify("TEXT[]"), TypeClass::Array);
    assert_eq!(classify("ACLITEM"), TypeClass::Acl);
    assert_eq!(classify("POINT"), TypeClass::Other);
    assert_eq!(classify(""), TypeClass::Other);
}

#[test]
fn int4_column_decodes_values_and_strings() {
    let rows = vec![
        vec![cell("v", "INT4", RawValue::Integer(1))],
        vec![cell("v", "INT4", RawValue::Integer(2))],
        vec![cell("v", "INT4", RawValue::Integer(3))],
    ];
    let result = assemble_result(&rows);
    assert_eq!(column_count(&result), 1);
    assert_eq!(column_name(&result, 0), "v");
    let col = column_values(&result, 0);
    assert_eq!(col, &vec![ValueType::Int(1), ValueType::Int(2), ValueType::Int(3)]);
    let strings: Vec<String> = col.iter().map(|v| v.to_string()).collect();
    assert_eq!(strings, vec!["1".to_string(), "2".to_string(), "3".to_string()]);
}

#[test]
fn utf8_bytes_decode_to_text() {
    let hello = vec![104u8, 101, 108, 108, 111];
    let v = decode_value("BYTEA", &RawValue::Bytes(hello));
    assert_eq!(v, ValueType::Text("hello".to_string()));
}

#[test]
fn invalid_utf8_bytes_stay_bytea_unchanged() {
    let bytes = vec![0xffu8, 0xfe, 104, 105];
    let v = decode_value("BYTEA", &RawValue::Bytes(bytes.clone()));
    assert_eq!(v, ValueType::Bytea(bytes));
}

#[test]
fn unknown_type_decodes_to_unknown_without_hurting_siblings() {
    let rows = vec![vec![
        cell("p", "POINT", RawValue::Missing),
        cell("n", "INT4", RawValue::Integer(7)),
    ]];
    let result = assemble_result(&rows);
    assert_eq!(column_count(&result), 2);
    assert_eq!(column_name(&result, 0), "p");
    assert_eq!(column_values(&result, 0), &vec![ValueType::Unknown("POINT".to_string())]);
    assert_eq!(column_name(&result, 1), "n");
    assert_eq!(column_values(&result, 1), &vec![ValueType::Int(7)]);
}

#[test]
fn smallint_widens_and_money_becomes_float() {
    assert_eq!(decode_value("SMALLINT", &RawValue::SmallInt(-5)), ValueType::Int(-5));
    assert_eq!(
        decode_value("MONEY", &RawValue::Real("12.34".to_string())),
        ValueType::Float("12.34".to_string())
    );
    assert_eq!(decode_value("MONEY", &RawValue::BigInt(1234)), ValueType::Null);
}

#[test]
fn fixed_width_text_is_right_trimmed() {
    let v = decode_value("BPCHAR", &RawValue::Text("abc   ".to_string()));
    assert_eq!(v, ValueType::Text("abc".to_string()));
    let keep_left = decode_value("BPCHAR", &RawValue::Text("  abc".to_string()));
    assert_eq!(keep_left, ValueType::Text("  abc".to_string()));
}

#[test]
fn interval_collapses_to_placeholder() {
    assert_eq!(
        decode_value("INTERVAL", &RawValue::Opaque),
        ValueType::Text("interval".to_string())
    );
    assert_eq!(decode_value("INTERVAL", &RawValue::Missing), ValueType::Null);
}

#[test]
fn acl_becomes_fixed_placeholder() {
    assert_eq!(
        decode_value("ACLITEM", &RawValue::Missing),
        ValueType::Text("[ACL permissions]".to_string())
    );
}

#[test]
fn array_decodes_element_wise_as_text() {
    let raw = RawValue::TextArray(vec!["x".to_string(), "y".to_string()]);
    let v = decode_value("_TEXT", &raw);
    assert_eq!(
        v,
        ValueType::Array(vec![
            ValueType::Text("x".to_string()),
            ValueType::Text("y".to_string())
        ])
    );
}

#[test]
fn failed_or_mismatched_reads_degrade_to_null() {
    assert_eq!(decode_value("INT4", &RawValue::Missing), ValueType::Null);
    assert_eq!(decode_value("INT4", &RawValue::Text("9".to_string())), ValueType::Null);
    assert_eq!(decode_value("BOOL", &RawValue::Missing), ValueType::Null);
    assert_eq!(decode_value("TEXT", &RawValue::Integer(1)), ValueType::Null);
}

#[test]
fn timestamp_and_json_pass_their_text_through() {
    assert_eq!(
        decode_value("TIMESTAMPTZ", &RawValue::Text("2024-01-02T03:04:05+00:00".to_string())),
        ValueType::Text("2024-01-02T03:04:05+00:00".to_string())
    );
    assert_eq!(
        decode_value("JSONB", &RawValue::Text("{\"a\":1}".to_string())),
        ValueType::Text("{\"a\":1}".to_string())
    );
    assert_eq!(
        decode_value("BOOL", &RawValue::Flag(true)),
        ValueType::Bool(true)
    );
    assert_eq!(
        decode_value("FLOAT8", &RawValue::Real("2.5".to_string())),
        ValueType::Float("2.5".to_string())
    );
}
