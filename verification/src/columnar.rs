//! The column-major query result: an insertion-ordered map from column
//! name to the column's decoded values, held in an `indexmap::IndexMap`.
//! The map itself is trusted through a small set of wrappers; everything
//! built on top of it is verified against the `columns_of` contents.
use crate::values::{clone_value, ValueType, ValueView};
use indexmap::IndexMap;
use std::collections::hash_map::RandomState;
use vstd::prelude::*;

verus! {

#[verifier::external_type_specification]
#[verifier::external_body]
#[verifier::reject_recursive_types(K)]
#[verifier::reject_recursive_types(V)]
#[verifier::reject_recursive_types(S)]
pub struct ExIndexMap<K, V, S>(IndexMap<K, V, S>);

/// What a result map holds: its columns in insertion order, each one a
/// name and the views of its cell values.
pub uninterp spec fn columns_of(m: IndexMap<String, Vec<ValueType>, RandomState>) -> Seq<
    (Seq<char>, Seq<ValueView>),
>;

/// The index of the column named `k`, or `-1` when no column has that name.
pub open spec fn col_index(es: Seq<(Seq<char>, Seq<ValueView>)>, k: Seq<char>) -> int
    decreases es.len(),
{
    if es.len() == 0 {
        -1
    } else if es[0].0 == k {
        0
    } else {
        let r = col_index(es.drop_first(), k);
        if r < 0 {
            -1
        } else {
            r + 1
        }
    }
}

/// Whether some column is named `k`.
pub open spec fn has_col(es: Seq<(Seq<char>, Seq<ValueView>)>, k: Seq<char>) -> bool {
    col_index(es, k) >= 0
}

/// Column names are pairwise distinct, as they are in any real map.
pub open spec fn distinct_cols(es: Seq<(Seq<char>, Seq<ValueView>)>) -> bool {
    forall|i: int, j: int| 0 <= i < j < es.len() ==> es[i].0 != es[j].0
}

/// `col_index` points at a column with the queried name exactly when one
/// exists.
pub proof fn lemma_col_index(es: Seq<(Seq<char>, Seq<ValueView>)>, k: Seq<char>)
    ensures
        has_col(es, k) ==> 0 <= col_index(es, k) < es.len() && es[col_index(es, k)].0 == k,
        !has_col(es, k) ==> forall|i: int| 0 <= i < es.len() ==> es[i].0 != k,
    decreases es.len(),
{
    if es.len() > 0 && es[0].0 != k {
        lemma_col_index(es.drop_first(), k);
        if !has_col(es, k) {
            assert forall|i: int| 0 <= i < es.len() implies es[i].0 != k by {
                if i > 0 {
                    assert(es.drop_first()[i - 1] == es[i]);
                }
            }
        } else {
            assert(es.drop_first()[col_index(es.drop_first(), k)] == es[col_index(es, k)]);
        }
    }
}

/// A value appended to the column named `k`: the existing column grows by
/// one value, or a fresh single-value column is appended at the end.
pub open spec fn upsert(
    es: Seq<(Seq<char>, Seq<ValueView>)>,
    k: Seq<char>,
    v: ValueView,
) -> Seq<(Seq<char>, Seq<ValueView>)> {
    if has_col(es, k) {
        let i = col_index(es, k);
        es.update(i, (k, es[i].1.push(v)))
    } else {
        es.push((k, seq![v]))
    }
}

/// `upsert` keeps column names pairwise distinct.
pub proof fn lemma_upsert_distinct(
    es: Seq<(Seq<char>, Seq<ValueView>)>,
    k: Seq<char>,
    v: ValueView,
)
    requires
        distinct_cols(es),
    ensures
        distinct_cols(upsert(es, k, v)),
{
    lemma_col_index(es, k);
    if has_col(es, k) {
        let i = col_index(es, k);
        assert forall|a: int, b: int| 0 <= a < b < upsert(es, k, v).len() implies upsert(
            es,
            k,
            v,
        )[a].0 != upsert(es, k, v)[b].0 by {
            assert(upsert(es, k, v)[a].0 == es[a].0);
            assert(upsert(es, k, v)[b].0 == es[b].0);
        }
    }
}

/// Relies on `indexmap::IndexMap::new`: creates an empty map.
#[verifier::external_body]
pub(crate) fn imap_new() -> (m: IndexMap<String, Vec<ValueType>, RandomState>)
    ensures
        columns_of(m) == Seq::<(Seq<char>, Seq<ValueView>)>::empty(),
{
    IndexMap::new()
}

/// Relies on `indexmap::IndexMap::len`: the number of key-value pairs.
#[verifier::external_body]
pub(crate) fn imap_len(m: &IndexMap<String, Vec<ValueType>, RandomState>) -> (n: usize)
    ensures
        n == columns_of(*m).len(),
{
    m.len()
}

/// Relies on `indexmap::IndexMap::get_index`: the key-value pair at a
/// position in insertion order; valid for every index below `len`.
#[verifier::external_body]
pub(crate) fn imap_get_index<'a>(m: &'a IndexMap<String, Vec<ValueType>, RandomState>, i: usize) -> (kv: (
    &'a String,
    &'a Vec<ValueType>,
))
    requires
        i < columns_of(*m).len(),
    ensures
        kv.0@ == columns_of(*m)[i as int].0,
        kv.1.deep_view() == columns_of(*m)[i as int].1,
{
    let (k, v) = m.get_index(i).unwrap();
    (k, v)
}

/// Relies on `indexmap::IndexMap::entry` with `Entry::or_default`: the
/// value is pushed onto the existing column, whose position is kept, or
/// onto a fresh empty column appended at the end of the order.
#[verifier::external_body]
pub(crate) fn imap_append(m: &mut IndexMap<String, Vec<ValueType>, RandomState>, key: String, value: ValueType)
    ensures
        columns_of(*final(m)) == upsert(columns_of(*old(m)), key@, value@),
{
    m.entry(key).or_default().push(value);
}

/// Relies on `indexmap::IndexMap::insert`: a key not yet in the map is
/// appended, with its value, at the end of the insertion order.
#[verifier::external_body]
pub(crate) fn imap_insert_new(
    m: &mut IndexMap<String, Vec<ValueType>, RandomState>,
    key: String,
    column: Vec<ValueType>,
)
    requires
        !has_col(columns_of(*old(m)), key@),
    ensures
        columns_of(*final(m)) == columns_of(*old(m)).push((key@, column.deep_view())),
{
    m.insert(key, column);
}

/// An empty result map.
pub fn new_result() -> (m: IndexMap<String, Vec<ValueType>, RandomState>)
    ensures
        columns_of(m) == Seq::<(Seq<char>, Seq<ValueView>)>::empty(),
        distinct_cols(columns_of(m)),
{
    imap_new()
}

/// The number of columns in a result.
pub fn column_count(result: &IndexMap<String, Vec<ValueType>, RandomState>) -> (n: usize)
    ensures
        n == columns_of(*result).len(),
{
    imap_len(result)
}

/// The name of the column at a position in insertion order.
pub fn column_name(result: &IndexMap<String, Vec<ValueType>, RandomState>, i: usize) -> (name:
    String)
    requires
        i < columns_of(*result).len(),
    ensures
        name@ == columns_of(*result)[i as int].0,
{
    let kv = imap_get_index(result, i);
    kv.0.clone()
}

/// The values of the column at a position in insertion order.
pub fn column_values<'a>(
    result: &'a IndexMap<String, Vec<ValueType>, RandomState>,
    i: usize,
) -> (col: &'a Vec<ValueType>)
    requires
        i < columns_of(*result).len(),
    ensures
        col.deep_view() == columns_of(*result)[i as int].1,
{
    let kv = imap_get_index(result, i);
    kv.1
}

/// Appends one decoded value to the named column, registering the column
/// on first sight.
pub fn append_value(
    result: &mut IndexMap<String, Vec<ValueType>, RandomState>,
    key: String,
    value: ValueType,
)
    ensures
        columns_of(*final(result)) == upsert(columns_of(*old(result)), key@, value@),
{
    imap_append(result, key, value);
}

fn clone_column(col: &Vec<ValueType>) -> (r: Vec<ValueType>)
    ensures
        r.deep_view() == col.deep_view(),
{
    let mut out: Vec<ValueType> = Vec::new();
    let mut i: usize = 0;
    while i < col.len()
        invariant
            i <= col@.len(),
            out@.len() == i,
            forall|j: int| 0 <= j < i ==> out@[j]@ == col@[j]@,
        decreases col@.len() - i,
    {
        let item = clone_value(&col[i]);
        out.push(item);
        i += 1;
    }
    proof {
        assert(out.deep_view() =~= col.deep_view());
    }
    out
}

/// An equal copy of a result map: same columns, same order, same values.
pub fn clone_result(result: &IndexMap<String, Vec<ValueType>, RandomState>) -> (r: IndexMap<
    String,
    Vec<ValueType>,
    RandomState,
>)
    requires
        distinct_cols(columns_of(*result)),
    ensures
        columns_of(r) == columns_of(*result),
{
    let ghost es = columns_of(*result);
    let n = imap_len(result);
    let mut out = imap_new();
    let mut i: usize = 0;
    while i < n
        invariant
            i <= n,
            n == es.len(),
            es == columns_of(*result),
            distinct_cols(es),
            columns_of(out) == es.subrange(0, i as int),
        decreases n - i,
    {
        let kv = imap_get_index(result, i);
        let col = clone_column(kv.1);
        proof {
            if has_col(columns_of(out), kv.0@) {
                lemma_col_index(columns_of(out), kv.0@);
                let j = col_index(columns_of(out), kv.0@);
                assert(es.subrange(0, i as int)[j] == es[j]);
                assert(false);
            }
        }
        imap_insert_new(&mut out, kv.0.clone(), col);
        proof {
            assert(columns_of(out) =~= es.subrange(0, i + 1));
        }
        i += 1;
    }
    proof {
        assert(es.subrange(0, n as int) =~= es);
    }
    out
}

} // verus!
