use rs_postgres::columnar::{column_count, column_name, column_values};
use rs_postgres::decode::{assemble_result, RawCell, RawValue};
use rs_postgres::paging::{get_sql_query_slice, page_count, ROWS_PER_PAGE};
use rs_postgres::values::ValueType;

fn int_rows(n: i32) -> Vec<Vec<RawCell>> {
    (0..n)
        .map(|i| {
            vec![RawCell {
                column: "v".to_string(),
                ty_name: "INT4".to_string(),
                value: RawValue::Integer(i),
            }]
        })
        .collect()
}

#[test]
fn rows_per_page_is_250() {
    assert_eq!(ROWS_PER_PAGE, 250);
}

#[test]
fn page_count_formula() {
    assert_eq!(page_count(0), 0);
    assert_eq!(page_count(1), 1);
    assert_eq!(page_count(249), 1);
    assert_eq!(page_count(250), 1);
    assert_eq!(page_count(251), 2);
    assert_eq!(page_count(500), 2);
    assert_eq!(page_count(501), 3);
}

#[test]
fn slicing_twice_gives_identical_pages() {
    let result = assemble_result(&int_rows(251));
    let once = get_sql_query_slice(&result, 1);
    let twice = get_sql_query_slice(&result, 1);
    assert_eq!(once, twice);
    let first_once = get_sql_query_slice(&result, 0);
    let first_twice = get_sql_query_slice(&result, 0);
    assert_eq!(first_once, first_twice);
}

#[test]
fn two_hundred_fifty_rows_fill_one_page() {
    let result = assemble_result(&int_rows(250));
    assert_eq!(page_count(250), 1);
    let page = get_sql_query_slice(&result, 0);
    assert_eq!(column_values(&page, 0).len(), 250);
    assert_eq!(column_values(&page, 0)[0], ValueType::Int(0));
    assert_eq!(column_values(&page, 0)[249], ValueType::Int(249));
}

#[test]
fn two_hundred_fifty_one_rows_split_into_250_and_1() {
    let result = assemble_result(&int_rows(251));
    assert_eq!(page_count(251), 2);
    let first = get_sql_query_slice(&result, 0);
    assert_eq!(column_values(&first, 0).len(), 250);
    assert_eq!(column_values(&first, 0)[249], ValueType::Int(249));
    let second = get_sql_query_slice(&result, 1);
    assert_eq!(column_values(&second, 0).len(), 1);
    assert_eq!(column_values(&second, 0)[0], ValueType::Int(250));
}

#[test]
fn page_keeps_column_names_and_order() {
    let rows = vec![vec![
        RawCell {
            column: "a".to_string(),
            ty_name: "INT4".to_string(),
            value: RawValue::Integer(1),
        },
        RawCell {
            column: "b".to_string(),
            ty_name: "TEXT".to_string(),
            value: RawValue::Text("x".to_string()),
        },
    ]];
    let result = assemble_result(&rows);
    let page = get_sql_query_slice(&result, 0);
    assert_eq!(column_count(&page), 2);
    assert_eq!(column_name(&page, 0), "a");
    assert_eq!(column_name(&page, 1), "b");
}

#[test]
fn short_column_past_page_start_becomes_empty() {
    // The second column receives no cell in later rows, so it stays shorter
    // than the first; a page starting past its end must be empty for it.
    let mut rows = int_rows(251);
    rows[0].push(RawCell {
        column: "extra".to_string(),
        ty_name: "TEXT".to_string(),
        value: RawValue::Text("only once".to_string()),
    });
    let result = assemble_result(&rows);
    let second = get_sql_query_slice(&result, 1);
    assert_eq!(column_values(&second, 0).len(), 1);
    let extra = column_values(&second, 1);
    assert!(extra.is_empty());
}
