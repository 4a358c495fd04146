//! Shapes a decoded result for tabular export: a header row of the column
//! names in insertion order, then one row per index holding the canonical
//! string form of each column's value there. Byte-level framing (field
//! separators, quoting, line endings) is the writer's business, not this
//! module's.
use crate::columnar::{column_count, column_name, column_values, columns_of};
use crate::paging::total_rows_of;
use crate::values::{rendered, ValueType, ValueView};
use indexmap::IndexMap;
use std::collections::hash_map::RandomState;
use vstd::prelude::*;

verus! {

/// The header of an exported result: its column names in order.
pub open spec fn header_spec(es: Seq<(Seq<char>, Seq<ValueView>)>) -> Seq<Seq<char>> {
    Seq::new(es.len(), |i: int| es[i].0)
}

/// Row `r` of an exported result: the rendering of each column's value at
/// `r`, in column order, and the empty string where a column is shorter.
pub open spec fn record_spec(es: Seq<(Seq<char>, Seq<ValueView>)>, r: int) -> Seq<Seq<char>> {
    Seq::new(
        es.len(),
        |c: int|
            if r < es[c].1.len() {
                rendered(es[c].1[r])
            } else {
                Seq::<char>::empty()
            },
    )
}

/// The header row for exporting a result.
pub fn export_header(result: &IndexMap<String, Vec<ValueType>, RandomState>) -> (h: Vec<String>)
    ensures
        h.deep_view() == header_spec(columns_of(*result)),
{
    let ghost es = columns_of(*result);
    let n = column_count(result);
    let mut h: Vec<String> = Vec::new();
    let mut i: usize = 0;
    while i < n
        invariant
            i <= n,
            n == es.len(),
            es == columns_of(*result),
            h@.len() == i,
            forall|j: int| 0 <= j < i ==> h@[j]@ == es[j].0,
        decreases n - i,
    {
        let name = column_name(result, i);
        h.push(name);
        i += 1;
    }
    proof {
        assert(h.deep_view() =~= header_spec(es));
    }
    h
}

/// The data rows for exporting a result, first row to last. The row count
/// is the length of the first column; a shorter column contributes empty
/// strings rather than failing.
pub fn export_records(result: &IndexMap<String, Vec<ValueType>, RandomState>) -> (rows: Vec<
    Vec<String>,
>)
    ensures
        rows.deep_view().len() == total_rows_of(columns_of(*result)),
        forall|r: int|
            0 <= r < total_rows_of(columns_of(*result)) ==> rows.deep_view()[r] == record_spec(
                columns_of(*result),
                r,
            ),
{
    let ghost es = columns_of(*result);
    let n = column_count(result);
    let total: usize = if n == 0 {
        0
    } else {
        column_values(result, 0).len()
    };
    proof {
        assert(total == total_rows_of(es));
    }
    let mut rows: Vec<Vec<String>> = Vec::new();
    let mut r: usize = 0;
    while r < total
        invariant
            r <= total,
            n == es.len(),
            es == columns_of(*result),
            total == total_rows_of(es),
            rows@.len() == r,
            forall|x: int| 0 <= x < r ==> rows@[x].deep_view() == record_spec(es, x),
        decreases total - r,
    {
        let mut record: Vec<String> = Vec::new();
        let mut c: usize = 0;
        while c < n
            invariant
                c <= n,
                r < total,
                n == es.len(),
                es == columns_of(*result),
                record@.len() == c,
                forall|y: int|
                    0 <= y < c ==> record@[y]@ == (if r < es[y].1.len() {
                        rendered(es[y].1[r as int])
                    } else {
                        Seq::<char>::empty()
                    }),
            decreases n - c,
        {
            let col = column_values(result, c);
            let cell: String = if r < col.len() {
                let s = col[r].to_string();
                proof {
                    assert(col.deep_view()[r as int] == col@[r as int]@);
                }
                s
            } else {
                proof {
                    assert(col.deep_view().len() == col@.len());
                }
                String::new()
            };
            record.push(cell);
            c += 1;
        }
        proof {
            assert(record.deep_view() =~= record_spec(es, r as int));
        }
        rows.push(record);
        r += 1;
    }
    proof {
        assert(rows.deep_view().len() == rows@.len());
        assert forall|x: int| 0 <= x < total implies rows.deep_view()[x] == record_spec(
            es,
            x,
        ) by {
            assert(rows.deep_view()[x] == rows@[x].deep_view());
        }
    }
    rows
}

} // verus!
