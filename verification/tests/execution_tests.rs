use rs_postgres::columnar::{column_count, column_name, column_values, new_result};
use rs_postgres::decode::{assemble_result, RawCell, RawValue};
use rs_postgres::execution::{complete_execution, set_page_index, SQLQueryExecutionStatusType};
use rs_postgres::values::ValueType;

fn int_rows(n: i32) -> Vec<Vec<RawCell>> {
    (0..n)
        .map(|i| {
            vec![RawCell {
                column: "n".to_string(),
                ty_name: "INT4".to_string(),
                value: RawValue::Integer(i),
            }]
        })
        .collect()
}

#[test]
fn one_int_row_end_to_end() {
    let rows = vec![vec![RawCell {
        column: "n".to_string(),
        ty_name: "INT4".to_string(),
        value: RawValue::Integer(1),
    }]];
    let result = assemble_result(&rows);
    let status = complete_execution(Ok(result), 3);
    match status {
        SQLQueryExecutionStatusType::Success(s) => {
            assert_eq!(column_count(&s.result), 1);
            assert_eq!(column_name(&s.result, 0), "n");
            assert_eq!(column_values(&s.result, 0), &vec![ValueType::Int(1)]);
            assert_eq!(s.rows_count, 1);
            assert_eq!(s.pages_count, 1);
            assert_eq!(s.page_index, 0);
            assert_eq!(s.execution_time, 3);
            assert_eq!(s.current_page.as_ref().unwrap(), &s.result);
        }
        _ => panic!("expected a success"),
    }
}

#[test]
fn empty_result_has_no_pages_and_keeps_the_empty_map() {
    let status = complete_execution(Ok(new_result()), 1);
    match status {
        SQLQueryExecutionStatusType::Success(s) => {
            assert_eq!(s.rows_count, 0);
            assert_eq!(s.pages_count, 0);
            assert_eq!(column_count(s.current_page.as_ref().unwrap()), 0);
        }
        _ => panic!("expected a success"),
    }
}

#[test]
fn driver_error_passes_through_unchanged() {
    let status = complete_execution(Err("connection refused".to_string()), 9);
    match status {
        SQLQueryExecutionStatusType::Error(e) => assert_eq!(e, "connection refused"),
        _ => panic!("expected an error"),
    }
}

#[test]
fn page_navigation_rewrites_only_the_page() {
    let result = assemble_result(&int_rows(251));
    let status = complete_execution(Ok(result), 0);
    match status {
        SQLQueryExecutionStatusType::Success(mut s) => {
            assert_eq!(s.pages_count, 2);
            assert_eq!(column_values(s.current_page.as_ref().unwrap(), 0).len(), 250);
            set_page_index(&mut s, 1);
            assert_eq!(s.page_index, 1);
            let page = s.current_page.as_ref().unwrap();
            assert_eq!(column_values(page, 0), &vec![ValueType::Int(250)]);
            // the full result is untouched
            assert_eq!(column_values(&s.result, 0).len(), 251);
            assert_eq!(s.rows_count, 251);
            set_page_index(&mut s, 0);
            assert_eq!(column_values(s.current_page.as_ref().unwrap(), 0).len(), 250);
        }
        _ => panic!("expected a success"),
    }
}
