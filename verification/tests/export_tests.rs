use rs_postgres::decode::{assemble_result, RawCell, RawValue};
use rs_postgres::export::{export_header, export_records};

fn two_column_result() -> Vec<Vec<RawCell>> {
    let row = |n: i32, t: &str| {
        vec![
            RawCell {
                column: "a".to_string(),
                ty_name: "INT4".to_string(),
                value: RawValue::Integer(n),
            },
            RawCell {
                column: "b".to_string(),
                ty_name: "TEXT".to_string(),
                value: RawValue::Text(t.to_string()),
            },
        ]
    };
    vec![row(1, "x"), row(2, "y")]
}

#[test]
fn export_round_trip_shape() {
    let result = assemble_result(&two_column_result());
    let header = export_header(&result);
    assert_eq!(header, vec!["a".to_string(), "b".to_string()]);
    let records = export_records(&result);
    assert_eq!(
        records,
        vec![
            vec!["1".to_string(), "x".to_string()],
            vec!["2".to_string(), "y".to_string()],
        ]
    );
}

#[test]
fn export_of_empty_result_is_empty() {
    let result = assemble_result(&Vec::new());
    assert!(export_header(&result).is_empty());
    assert!(export_records(&result).is_empty());
}

#[test]
fn export_fills_missing_cells_with_empty_strings() {
    let mut rows = two_column_result();
    rows.push(vec![RawCell {
        column: "a".to_string(),
        ty_name: "INT4".to_string(),
        value: RawValue::Integer(3),
    }]);
    let result = assemble_result(&rows);
    let records = export_records(&result);
    assert_eq!(records.len(), 3);
    assert_eq!(records[2], vec!["3".to_string(), "".to_string()]);
}
