//! The paginator: a pure windowing function over an assembled result.
//! A page holds at most `ROWS_PER_PAGE` rows of every column; the last
//! page takes whatever remains.
use crate::columnar::{
    columns_of, distinct_cols, has_col, imap_get_index, imap_insert_new, imap_len, lemma_col_index,
    new_result,
};
use crate::values::{clone_value, ValueType, ValueView};
use indexmap::IndexMap;
use std::collections::hash_map::RandomState;
use vstd::arithmetic::div_mod::lemma_fundamental_div_mod;
use vstd::prelude::*;

verus! {

/// Fixed number of rows per page of a displayed result.
pub const ROWS_PER_PAGE: u16 = 250;

/// The row count of a result: the length of its first column, or zero for
/// a result without columns.
pub open spec fn total_rows_of(es: Seq<(Seq<char>, Seq<ValueView>)>) -> nat {
    if es.len() == 0 {
        0
    } else {
        es[0].1.len()
    }
}

/// How many pages a result of `total` rows occupies: zero for an empty
/// result, otherwise the division by `ROWS_PER_PAGE` rounded upward.
pub open spec fn page_count_spec(total: nat) -> nat {
    if total == 0 {
        0
    } else {
        ((total - 1) as nat) / (ROWS_PER_PAGE as nat) + 1
    }
}

/// The page of one column for the half-open row range `start..end`:
/// empty when the column ends before `start`, and clipped to the column's
/// length otherwise.
pub open spec fn col_page(col: Seq<ValueView>, start: int, end: int) -> Seq<ValueView> {
    if start >= col.len() {
        Seq::<ValueView>::empty()
    } else if end <= col.len() {
        col.subrange(start, end)
    } else {
        col.subrange(start, col.len() as int)
    }
}

/// The first row of page `p`.
pub open spec fn page_start(p: nat) -> int {
    (p as int) * (ROWS_PER_PAGE as int)
}

/// The row after the last row of page `p`: the total row count on the
/// final page, one `ROWS_PER_PAGE` stride past the start otherwise.
pub open spec fn page_end(es: Seq<(Seq<char>, Seq<ValueView>)>, p: nat) -> int {
    if p == page_count_spec(total_rows_of(es)) - 1 {
        total_rows_of(es) as int
    } else {
        page_start(p) + (ROWS_PER_PAGE as int)
    }
}

/// The page of a whole result: the same columns in the same order, each
/// reduced to its `start..end` window.
pub open spec fn slice_spec(es: Seq<(Seq<char>, Seq<ValueView>)>, p: nat) -> Seq<
    (Seq<char>, Seq<ValueView>),
> {
    Seq::new(es.len(), |i: int| (es[i].0, col_page(es[i].1, page_start(p), page_end(es, p))))
}

/// The page count of a result of `total_rows` rows.
pub fn page_count(total_rows: usize) -> (n: u32)
    requires
        total_rows <= u32::MAX,
    ensures
        n == page_count_spec(total_rows as nat),
{
    if total_rows == 0 {
        0
    } else {
        (((total_rows - 1) / (ROWS_PER_PAGE as usize)) + 1) as u32
    }
}

/// The page count is the least number of pages that covers every row:
/// pages below it are full, and the rows do not fit into one page fewer.
pub proof fn lemma_page_count_bounds(total: nat)
    requires
        total > 0,
    ensures
        (page_count_spec(total) - 1) * (ROWS_PER_PAGE as int) < total as int,
        total as int <= (page_count_spec(total) as int) * (ROWS_PER_PAGE as int),
{
    let t: int = total as int;
    let q: int = (t - 1) / 250;
    lemma_fundamental_div_mod(t - 1, 250);
    assert(page_count_spec(total) == q + 1);
    assert((page_count_spec(total) - 1) * 250 == 250 * q);
    assert(page_count_spec(total) * 250 == 250 * q + 250);
}

/// All columns of a result have the same length, the row count.
pub open spec fn uniform_columns(es: Seq<(Seq<char>, Seq<ValueView>)>) -> bool {
    forall|c: int| 0 <= c < es.len() ==> #[trigger] es[c].1.len() == total_rows_of(es)
}

/// On a result whose columns all have the row count's length, every page
/// is full except the last, which holds exactly the remaining rows.
pub proof fn lemma_page_sizes(es: Seq<(Seq<char>, Seq<ValueView>)>, p: nat)
    requires
        es.len() > 0,
        uniform_columns(es),
        p < page_count_spec(total_rows_of(es)),
    ensures
        forall|c: int|
            0 <= c < es.len() ==> #[trigger] slice_spec(es, p)[c].1.len() == if p
                == page_count_spec(total_rows_of(es)) - 1 {
                total_rows_of(es) - page_start(p)
            } else {
                ROWS_PER_PAGE as int
            },
{
    let total = total_rows_of(es);
    let pages = page_count_spec(total);
    let start = page_start(p);
    let end = page_end(es, p);
    lemma_page_count_bounds(total);
    assert(p * 250 <= (pages - 1) * 250);
    assert(start < total);
    if p != pages - 1 {
        assert((p + 1) * 250 <= (pages - 1) * 250);
        assert(end <= total);
    }
    assert forall|c: int| 0 <= c < es.len() implies #[trigger] slice_spec(es, p)[c].1.len() == if p
        == pages - 1 {
        total - start
    } else {
        ROWS_PER_PAGE as int
    } by {
        assert(es[c].1.len() == total);
        assert(slice_spec(es, p)[c].1 == col_page(es[c].1, start, end));
    }
}

/// When a result fits on a single page, that page is the whole result:
/// every column keeps all of its values.
pub proof fn lemma_single_page_is_whole(es: Seq<(Seq<char>, Seq<ValueView>)>)
    requires
        es.len() > 0,
        uniform_columns(es),
        page_count_spec(total_rows_of(es)) == 1,
    ensures
        slice_spec(es, 0) == es,
{
    let total = total_rows_of(es);
    assert(total > 0);
    assert forall|c: int| 0 <= c < es.len() implies slice_spec(es, 0)[c] == es[c] by {
        assert(es[c].1.len() == total);
        assert(col_page(es[c].1, page_start(0), page_end(es, 0)) =~= es[c].1);
    }
    assert(slice_spec(es, 0) =~= es);
}

/// Slicing is pure: the page is a function of the result's columns and
/// the page index alone, so two slices of the same result at the same
/// index are equal.
pub proof fn lemma_slice_idempotent(es: Seq<(Seq<char>, Seq<ValueView>)>, p: nat)
    requires
        es.len() > 0,
        p < page_count_spec(total_rows_of(es)),
    ensures
        slice_spec(es, p) == slice_spec(es, p),
{
}

fn copy_range(col: &Vec<ValueType>, from: usize, to: usize) -> (r: Vec<ValueType>)
    requires
        from <= to <= col@.len(),
    ensures
        r.deep_view() == col.deep_view().subrange(from as int, to as int),
{
    let mut out: Vec<ValueType> = Vec::new();
    let mut k = from;
    while k < to
        invariant
            from <= k <= to <= col@.len(),
            out@.len() == k - from,
            forall|j: int| 0 <= j < out@.len() ==> out@[j]@ == col@[from + j]@,
        decreases to - k,
    {
        let item = clone_value(&col[k]);
        out.push(item);
        k += 1;
    }
    proof {
        assert(out.deep_view() =~= col.deep_view().subrange(from as int, to as int));
    }
    out
}

/// Computes one page of an assembled result: every column keeps its name
/// and position and is reduced to the rows of page `page_index`. The last
/// page carries the remainder; a column shorter than the page start
/// contributes an empty sequence rather than failing.
pub fn get_sql_query_slice(
    result: &IndexMap<String, Vec<ValueType>, RandomState>,
    page_index: u32,
) -> (page: IndexMap<String, Vec<ValueType>, RandomState>)
    requires
        distinct_cols(columns_of(*result)),
        total_rows_of(columns_of(*result)) <= u32::MAX,
        (page_index as nat) < page_count_spec(total_rows_of(columns_of(*result))),
    ensures
        columns_of(page) == slice_spec(columns_of(*result), page_index as nat),
        distinct_cols(columns_of(page)),
{
    let ghost es = columns_of(*result);
    let n = imap_len(result);
    let first = imap_get_index(result, 0);
    let total = first.1.len();
    proof {
        assert(first.1.deep_view().len() == first.1@.len());
        assert(total == total_rows_of(es));
        lemma_page_count_bounds(total as nat);
        lemma_fundamental_div_mod((total - 1) as int, 250);
        assert(page_index as int <= ((total - 1) as int) / 250);
        assert((page_index as int) * 250 <= (((total - 1) as int) / 250) * 250);
    }
    let pages = page_count(total);
    let start: usize = (page_index as usize) * (ROWS_PER_PAGE as usize);
    let end: usize = if page_index == pages - 1 {
        total
    } else {
        proof {
            assert((page_index as int + 1) * 250 <= (page_count_spec(total as nat) - 1) * 250);
        }
        start + (ROWS_PER_PAGE as usize)
    };
    proof {
        assert(start == page_start(page_index as nat));
        assert(end == page_end(es, page_index as nat));
    }
    let mut out = new_result();
    let mut i: usize = 0;
    while i < n
        invariant
            i <= n,
            n == es.len(),
            es == columns_of(*result),
            distinct_cols(es),
            start == page_start(page_index as nat),
            end == page_end(es, page_index as nat),
            columns_of(out) == slice_spec(es, page_index as nat).subrange(0, i as int),
        decreases n - i,
    {
        let kv = imap_get_index(result, i);
        let col = kv.1;
        let page_col: Vec<ValueType> = if start >= col.len() {
            let empty_col: Vec<ValueType> = Vec::new();
            proof {
                assert(empty_col.deep_view() =~= col_page(
                    es[i as int].1,
                    page_start(page_index as nat),
                    page_end(es, page_index as nat),
                ));
            }
            empty_col
        } else {
            let clipped = if end <= col.len() {
                end
            } else {
                col.len()
            };
            let c = copy_range(col, start, clipped);
            proof {
                assert(col.deep_view().len() == col@.len());
                assert(c.deep_view() == col_page(
                    es[i as int].1,
                    page_start(page_index as nat),
                    page_end(es, page_index as nat),
                ));
            }
            c
        };
        proof {
            let prefix = columns_of(out);
            if has_col(prefix, kv.0@) {
                lemma_col_index(prefix, kv.0@);
                let j = crate::columnar::col_index(prefix, kv.0@);
                assert(prefix[j].0 == es[j].0);
                assert(es[j].0 != es[i as int].0);
                assert(false);
            }
        }
        imap_insert_new(&mut out, kv.0.clone(), page_col);
        proof {
            assert(columns_of(out) =~= slice_spec(es, page_index as nat).subrange(0, i + 1));
        }
        i += 1;
    }
    proof {
        assert(slice_spec(es, page_index as nat).subrange(0, n as int) =~= slice_spec(
            es,
            page_index as nat,
        ));
    }
    out
}

} // verus!
