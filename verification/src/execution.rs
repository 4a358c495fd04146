//! The lifecycle of one dispatched query: `Running` until the background
//! task finishes, then exactly one terminal `Success` or `Error` state.
//! Page navigation afterwards only replaces the current page and its index
//! inside a `Success` payload; the full result is never touched again.
use crate::columnar::{clone_result, column_count, column_values, columns_of, distinct_cols};
use crate::paging::{
    get_sql_query_slice, page_count, page_count_spec, slice_spec, total_rows_of,
};
use crate::values::ValueType;
use indexmap::IndexMap;
use std::collections::hash_map::RandomState;
use vstd::prelude::*;

verus! {

/// The payload of a successfully finished execution: the full decoded
/// result, the page currently shown, and the counts that describe them.
pub struct SQLQueryExecutionSuccess {
    pub result: IndexMap<String, Vec<ValueType>, RandomState>,
    pub current_page: Option<IndexMap<String, Vec<ValueType>, RandomState>>,
    pub pages_count: u32,
    pub rows_count: u32,
    pub execution_time: u64,
    pub page_index: u32,
}

/// The state of one dispatched execution.
pub enum SQLQueryExecutionStatusType {
    Running,
    Success(SQLQueryExecutionSuccess),
    Error(String),
}

/// A well-formed success payload: its counts describe its result.
pub open spec fn success_wf(s: SQLQueryExecutionSuccess) -> bool {
    &&& distinct_cols(columns_of(s.result))
    &&& total_rows_of(columns_of(s.result)) <= u32::MAX
    &&& s.rows_count == total_rows_of(columns_of(s.result))
    &&& s.pages_count == page_count_spec(total_rows_of(columns_of(s.result)))
}

/// Builds the terminal state of an execution from the decoded result (or
/// the driver's error message) and the measured wall-clock time: an error
/// passes through unchanged; a success carries the full result, its row
/// and page counts, and page zero as the current page (the whole, possibly
/// empty, result when there are no pages).
pub fn complete_execution(
    result: Result<IndexMap<String, Vec<ValueType>, RandomState>, String>,
    execution_time: u64,
) -> (st: SQLQueryExecutionStatusType)
    requires
        result matches Ok(m) ==> distinct_cols(columns_of(m)) && total_rows_of(columns_of(m))
            <= u32::MAX,
    ensures
        result matches Ok(m) ==> (st matches SQLQueryExecutionStatusType::Success(s)
            && columns_of(s.result) == columns_of(m) && s.rows_count == total_rows_of(
            columns_of(m),
        ) && s.pages_count == page_count_spec(total_rows_of(columns_of(m))) && s.execution_time
            == execution_time && s.page_index == 0 && (s.current_page matches Some(p)
            && columns_of(p) == (if page_count_spec(total_rows_of(columns_of(m))) > 0 {
            slice_spec(columns_of(m), 0)
        } else {
            columns_of(m)
        })) && success_wf(s)),
        result matches Err(e) ==> st == SQLQueryExecutionStatusType::Error(e),
{
    match result {
        Ok(m) => {
            let cols = column_count(&m);
            let total: usize = if cols == 0 {
                0
            } else {
                column_values(&m, 0).len()
            };
            proof {
                assert(total == total_rows_of(columns_of(m)));
            }
            let pages = page_count(total);
            let current = if pages > 0 {
                get_sql_query_slice(&m, 0)
            } else {
                clone_result(&m)
            };
            SQLQueryExecutionStatusType::Success(
                SQLQueryExecutionSuccess {
                    result: m,
                    current_page: Some(current),
                    pages_count: pages,
                    rows_count: total as u32,
                    execution_time,
                    page_index: 0,
                },
            )
        },
        Err(e) => SQLQueryExecutionStatusType::Error(e),
    }
}

/// Serves a page-navigation request against an already terminal success:
/// recomputes the current page from the immutable full result and records
/// the new index. Nothing else of the payload changes.
pub fn set_page_index(success: &mut SQLQueryExecutionSuccess, page_index: u32)
    requires
        success_wf(*old(success)),
        page_index < old(success).pages_count,
    ensures
        final(success).result == old(success).result,
        final(success).page_index == page_index,
        final(success).current_page matches Some(p) && columns_of(p) == slice_spec(
            columns_of(old(success).result),
            page_index as nat,
        ),
        final(success).pages_count == old(success).pages_count,
        final(success).rows_count == old(success).rows_count,
        final(success).execution_time == old(success).execution_time,
        success_wf(*final(success)),
{
    let page = get_sql_query_slice(&success.result, page_index);
    success.current_page = Some(page);
    success.page_index = page_index;
}

} // verus!
