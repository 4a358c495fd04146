//! The type decoder: classifies a driver-reported column type name into a
//! closed set of decode strategies and turns the raw cell the driver handed
//! back into a `ValueType`. A failed or mismatched typed read degrades to
//! `Null`; it never aborts the surrounding row or result. The column-major
//! assembly of whole results lives here too.
use crate::columnar::{
    append_value, col_index, columns_of, distinct_cols, has_col, lemma_col_index,
    lemma_upsert_distinct, new_result, upsert,
};
use crate::text::{str_eq, trim_end_spec, trim_end_ws};
use crate::values::{copy_bytes, ValueType, ValueView};
use indexmap::IndexMap;
use std::collections::hash_map::RandomState;
use vstd::prelude::*;
use vstd::utf8::{decode_utf8, valid_utf8};

verus! {

/// The decode strategy chosen for a column, one per family of type names
/// the decoder recognises; `Other` is the mandatory default.
#[derive(Clone, Copy, Debug, PartialEq, Eq, Structural)]
pub enum TypeClass {
    Int2,
    Int4,
    Int8,
    Float4,
    Float8,
    Money,
    Text,
    FixedChar,
    Bool,
    Bytea,
    Timestamp,
    Date,
    Time,
    Interval,
    Json,
    Array,
    Acl,
    Other,
}

/// A type name denotes an array when it begins with the array marker `_`
/// or ends in the `[]` suffix.
pub open spec fn is_array_name(tn: Seq<char>) -> bool {
    (tn.len() > 0 && tn[0] == '_') || (tn.len() >= 2 && tn[tn.len() - 2] == '[' && tn[tn.len()
        - 1] == ']')
}

/// The decode strategy for a reported type name.
pub open spec fn class_of(tn: Seq<char>) -> TypeClass {
    if tn == "INT2"@ || tn == "SMALLINT"@ {
        TypeClass::Int2
    } else if tn == "INT4"@ || tn == "INTEGER"@ {
        TypeClass::Int4
    } else if tn == "INT8"@ || tn == "BIGINT"@ {
        TypeClass::Int8
    } else if tn == "FLOAT4"@ || tn == "REAL"@ {
        TypeClass::Float4
    } else if tn == "FLOAT8"@ || tn == "DOUBLE PRECISION"@ {
        TypeClass::Float8
    } else if tn == "MONEY"@ {
        TypeClass::Money
    } else if tn == "CHAR"@ || tn == "VARCHAR"@ || tn == "TEXT"@ || tn == "NAME"@ {
        TypeClass::Text
    } else if tn == "BPCHAR"@ {
        TypeClass::FixedChar
    } else if tn == "BOOL"@ || tn == "BOOLEAN"@ {
        TypeClass::Bool
    } else if tn == "BYTEA"@ {
        TypeClass::Bytea
    } else if tn == "TIMESTAMP"@ || tn == "TIMESTAMPTZ"@ {
        TypeClass::Timestamp
    } else if tn == "DATE"@ {
        TypeClass::Date
    } else if tn == "TIME"@ || tn == "TIMETZ"@ {
        TypeClass::Time
    } else if tn == "INTERVAL"@ {
        TypeClass::Interval
    } else if tn == "JSON"@ || tn == "JSONB"@ {
        TypeClass::Json
    } else if is_array_name(tn) {
        TypeClass::Array
    } else if tn == "ACLITEM"@ {
        TypeClass::Acl
    } else {
        TypeClass::Other
    }
}

/// Classifies a reported type name; every name falls into exactly one
/// class, unrecognised ones into `Other`.
pub fn classify(ty_name: &str) -> (c: TypeClass)
    ensures
        c == class_of(ty_name@),
{
    if str_eq(ty_name, "INT2") || str_eq(ty_name, "SMALLINT") {
        TypeClass::Int2
    } else if str_eq(ty_name, "INT4") || str_eq(ty_name, "INTEGER") {
        TypeClass::Int4
    } else if str_eq(ty_name, "INT8") || str_eq(ty_name, "BIGINT") {
        TypeClass::Int8
    } else if str_eq(ty_name, "FLOAT4") || str_eq(ty_name, "REAL") {
        TypeClass::Float4
    } else if str_eq(ty_name, "FLOAT8") || str_eq(ty_name, "DOUBLE PRECISION") {
        TypeClass::Float8
    } else if str_eq(ty_name, "MONEY") {
        TypeClass::Money
    } else if str_eq(ty_name, "CHAR") || str_eq(ty_name, "VARCHAR") || str_eq(
        ty_name,
        "TEXT",
    ) || str_eq(ty_name, "NAME") {
        TypeClass::Text
    } else if str_eq(ty_name, "BPCHAR") {
        TypeClass::FixedChar
    } else if str_eq(ty_name, "BOOL") || str_eq(ty_name, "BOOLEAN") {
        TypeClass::Bool
    } else if str_eq(ty_name, "BYTEA") {
        TypeClass::Bytea
    } else if str_eq(ty_name, "TIMESTAMP") || str_eq(ty_name, "TIMESTAMPTZ") {
        TypeClass::Timestamp
    } else if str_eq(ty_name, "DATE") {
        TypeClass::Date
    } else if str_eq(ty_name, "TIME") || str_eq(ty_name, "TIMETZ") {
        TypeClass::Time
    } else if str_eq(ty_name, "INTERVAL") {
        TypeClass::Interval
    } else if str_eq(ty_name, "JSON") || str_eq(ty_name, "JSONB") {
        TypeClass::Json
    } else if is_array_ty_name(ty_name) {
        TypeClass::Array
    } else if str_eq(ty_name, "ACLITEM") {
        TypeClass::Acl
    } else {
        TypeClass::Other
    }
}

fn is_array_ty_name(ty_name: &str) -> (r: bool)
    ensures
        r == is_array_name(ty_name@),
{
    let len = ty_name.unicode_len();
    if len > 0 && ty_name.get_char(0) == '_' {
        return true;
    }
    len >= 2 && ty_name.get_char(len - 2) == '[' && ty_name.get_char(len - 1) == ']'
}

/// The raw content of one cell as the driver's typed accessor reported it:
/// one variant per primitive family, `Missing` for a failed typed read,
/// and `Opaque` for a successful read whose content the engine does not
/// represent (intervals).
#[derive(Debug, PartialEq)]
pub enum RawValue {
    Missing,
    SmallInt(i16),
    Integer(i32),
    BigInt(i64),
    Real(String),
    Text(String),
    Flag(bool),
    Bytes(Vec<u8>),
    TextArray(Vec<String>),
    Opaque,
}

/// One cell as reported by the driver: the column's name, its type name,
/// and the raw content read by the matching typed accessor.
#[derive(Debug)]
pub struct RawCell {
    pub column: String,
    pub ty_name: String,
    pub value: RawValue,
}

/// The value a raw cell decodes to. Each class accepts exactly the raw
/// variant of its family; anything else, including a failed read, decodes
/// to `Null`. 16-bit integers widen to 32-bit; floating-point and monetary
/// cells carry the decimal rendering made at the driver boundary; fixed-width
/// text is right-trimmed; binary data becomes `Text` when it is valid UTF-8
/// and `Bytea` holding the unchanged bytes otherwise; date-time and JSON
/// values arrive as their canonical text; intervals collapse to a
/// placeholder; arrays decode element-wise as text; access-control entries
/// become a fixed placeholder; an unrecognised type name is preserved in
/// `Unknown`.
pub open spec fn decoded(tn: Seq<char>, raw: RawValue) -> ValueView {
    match class_of(tn) {
        TypeClass::Int2 => match raw {
            RawValue::SmallInt(x) => ValueView::Int(x as int),
            _ => ValueView::Null,
        },
        TypeClass::Int4 => match raw {
            RawValue::Integer(x) => ValueView::Int(x as int),
            _ => ValueView::Null,
        },
        TypeClass::Int8 => match raw {
            RawValue::BigInt(x) => ValueView::BigInt(x as int),
            _ => ValueView::Null,
        },
        TypeClass::Money => match raw {
            RawValue::Real(s) => ValueView::Float(s@),
            _ => ValueView::Null,
        },
        TypeClass::Float4 => match raw {
            RawValue::Real(s) => ValueView::Float(s@),
            _ => ValueView::Null,
        },
        TypeClass::Float8 => match raw {
            RawValue::Real(s) => ValueView::Float(s@),
            _ => ValueView::Null,
        },
        TypeClass::Text => match raw {
            RawValue::Text(s) => ValueView::Text(s@),
            _ => ValueView::Null,
        },
        TypeClass::FixedChar => match raw {
            RawValue::Text(s) => ValueView::Text(trim_end_spec(s@)),
            _ => ValueView::Null,
        },
        TypeClass::Bool => match raw {
            RawValue::Flag(b) => ValueView::Bool(b),
            _ => ValueView::Null,
        },
        TypeClass::Bytea => match raw {
            RawValue::Bytes(bs) => if valid_utf8(bs@) {
                ValueView::Text(decode_utf8(bs@))
            } else {
                ValueView::Bytea(bs@)
            },
            _ => ValueView::Null,
        },
        TypeClass::Timestamp => match raw {
            RawValue::Text(s) => ValueView::Text(s@),
            _ => ValueView::Null,
        },
        TypeClass::Date => match raw {
            RawValue::Text(s) => ValueView::Text(s@),
            _ => ValueView::Null,
        },
        TypeClass::Time => match raw {
            RawValue::Text(s) => ValueView::Text(s@),
            _ => ValueView::Null,
        },
        TypeClass::Interval => match raw {
            RawValue::Opaque => ValueView::Text("interval"@),
            _ => ValueView::Null,
        },
        TypeClass::Json => match raw {
            RawValue::Text(s) => ValueView::Text(s@),
            _ => ValueView::Null,
        },
        TypeClass::Array => match raw {
            RawValue::TextArray(ss) => ValueView::Array(
                Seq::new(ss@.len(), |i: int| ValueView::Text(ss@[i]@)),
            ),
            _ => ValueView::Null,
        },
        TypeClass::Acl => ValueView::Text("[ACL permissions]"@),
        TypeClass::Other => ValueView::Unknown(tn),
    }
}

/// Relies on `String::from_utf8`: returns `Ok` exactly when the bytes are
/// valid UTF-8, decoding them; the `Err` case hands back the original
/// bytes unchanged (through `FromUtf8Error::into_bytes`).
#[verifier::external_body]
fn bytes_to_string(bytes: Vec<u8>) -> (r: Result<String, Vec<u8>>)
    ensures
        match r {
            Ok(s) => valid_utf8(bytes@) && s@ == decode_utf8(bytes@),
            Err(b) => !valid_utf8(bytes@) && b@ == bytes@,
        },
{
    match String::from_utf8(bytes) {
        Ok(s) => Ok(s),
        Err(e) => Err(e.into_bytes()),
    }
}

/// Decodes one cell from its reported type name and raw content.
pub fn decode_value(ty_name: &str, raw: &RawValue) -> (v: ValueType)
    ensures
        v@ == decoded(ty_name@, *raw),
{
    let class = classify(ty_name);
    match class {
        TypeClass::Int2 => match raw {
            RawValue::SmallInt(x) => ValueType::Int(*x as i32),
            _ => ValueType::Null,
        },
        TypeClass::Int4 => match raw {
            RawValue::Integer(x) => ValueType::Int(*x),
            _ => ValueType::Null,
        },
        TypeClass::Int8 => match raw {
            RawValue::BigInt(x) => ValueType::BigInt(*x),
            _ => ValueType::Null,
        },
        TypeClass::Money => match raw {
            RawValue::Real(s) => ValueType::Float(s.clone()),
            _ => ValueType::Null,
        },
        TypeClass::Float4 => match raw {
            RawValue::Real(s) => ValueType::Float(s.clone()),
            _ => ValueType::Null,
        },
        TypeClass::Float8 => match raw {
            RawValue::Real(s) => ValueType::Float(s.clone()),
            _ => ValueType::Null,
        },
        TypeClass::Text => match raw {
            RawValue::Text(s) => ValueType::Text(s.clone()),
            _ => ValueType::Null,
        },
        TypeClass::FixedChar => match raw {
            RawValue::Text(s) => ValueType::Text(trim_end_ws(s.as_str())),
            _ => ValueType::Null,
        },
        TypeClass::Bool => match raw {
            RawValue::Flag(b) => ValueType::Bool(*b),
            _ => ValueType::Null,
        },
        TypeClass::Bytea => match raw {
            RawValue::Bytes(bs) => {
                let bytes = copy_bytes(bs);
                match bytes_to_string(bytes) {
                    Ok(s) => ValueType::Text(s),
                    Err(b) => ValueType::Bytea(b),
                }
            },
            _ => ValueType::Null,
        },
        TypeClass::Timestamp => match raw {
            RawValue::Text(s) => ValueType::Text(s.clone()),
            _ => ValueType::Null,
        },
        TypeClass::Date => match raw {
            RawValue::Text(s) => ValueType::Text(s.clone()),
            _ => ValueType::Null,
        },
        TypeClass::Time => match raw {
            RawValue::Text(s) => ValueType::Text(s.clone()),
            _ => ValueType::Null,
        },
        TypeClass::Interval => match raw {
            RawValue::Opaque => ValueType::Text("interval".to_owned()),
            _ => ValueType::Null,
        },
        TypeClass::Json => match raw {
            RawValue::Text(s) => ValueType::Text(s.clone()),
            _ => ValueType::Null,
        },
        TypeClass::Array => match raw {
            RawValue::TextArray(ss) => {
                let mut out: Vec<ValueType> = Vec::new();
                let mut i: usize = 0;
                while i < ss.len()
                    invariant
                        i <= ss@.len(),
                        out@.len() == i,
                        forall|j: int|
                            0 <= j < i ==> out@[j]@ == ValueView::Text(#[trigger] ss@[j]@),
                    decreases ss@.len() - i,
                {
                    out.push(ValueType::Text(ss[i].clone()));
                    i += 1;
                }
                proof {
                    crate::values::lemma_views_of(out@);
                    assert(crate::values::views_of(out@) =~= Seq::new(
                        ss@.len(),
                        |j: int| ValueView::Text(ss@[j]@),
                    ));
                }
                ValueType::Array(out)
            },
            _ => ValueType::Null,
        },
        TypeClass::Acl => ValueType::Text("[ACL permissions]".to_owned()),
        TypeClass::Other => ValueType::Unknown(ty_name.to_owned()),
    }
}

/// The result columns after decoding one more cell: the decoded value is
/// appended to the column named in the cell.
pub open spec fn assemble_cell(
    es: Seq<(Seq<char>, Seq<ValueView>)>,
    cell: RawCell,
) -> Seq<(Seq<char>, Seq<ValueView>)> {
    upsert(es, cell.column@, decoded(cell.ty_name@, cell.value))
}

/// The result columns after decoding the cells of one row, left to right.
pub open spec fn assemble_row_fold(
    es: Seq<(Seq<char>, Seq<ValueView>)>,
    cells: Seq<RawCell>,
) -> Seq<(Seq<char>, Seq<ValueView>)>
    decreases cells.len(),
{
    if cells.len() == 0 {
        es
    } else {
        assemble_row_fold(assemble_cell(es, cells[0]), cells.drop_first())
    }
}

/// The result columns after decoding a sequence of rows, first to last.
pub open spec fn assemble_rows(
    es: Seq<(Seq<char>, Seq<ValueView>)>,
    rows: Seq<Vec<RawCell>>,
) -> Seq<(Seq<char>, Seq<ValueView>)>
    decreases rows.len(),
{
    if rows.len() == 0 {
        es
    } else {
        assemble_rows(assemble_row_fold(es, rows[0]@), rows.drop_first())
    }
}

proof fn lemma_assemble_row_push(
    es: Seq<(Seq<char>, Seq<ValueView>)>,
    cells: Seq<RawCell>,
    c: RawCell,
)
    ensures
        assemble_row_fold(es, cells.push(c)) == assemble_cell(assemble_row_fold(es, cells), c),
    decreases cells.len(),
{
    if cells.len() == 0 {
        assert(cells.push(c)[0] == c);
        assert(cells.push(c).drop_first() =~= Seq::<RawCell>::empty());
        assert(assemble_row_fold(es, cells.push(c)) == assemble_row_fold(
            assemble_cell(es, c),
            Seq::<RawCell>::empty(),
        ));
        assert(assemble_row_fold(assemble_cell(es, c), Seq::<RawCell>::empty()) == assemble_cell(
            es,
            c,
        ));
        assert(assemble_row_fold(es, cells) == es);
    } else {
        assert(cells.push(c)[0] == cells[0]);
        assert(cells.push(c).drop_first() =~= cells.drop_first().push(c));
        assert(assemble_row_fold(es, cells.push(c)) == assemble_row_fold(
            assemble_cell(es, cells[0]),
            cells.drop_first().push(c),
        ));
        assert(assemble_row_fold(es, cells) == assemble_row_fold(
            assemble_cell(es, cells[0]),
            cells.drop_first(),
        ));
        lemma_assemble_row_push(assemble_cell(es, cells[0]), cells.drop_first(), c);
    }
}

proof fn lemma_assemble_rows_push(
    es: Seq<(Seq<char>, Seq<ValueView>)>,
    rows: Seq<Vec<RawCell>>,
    r: Vec<RawCell>,
)
    ensures
        assemble_rows(es, rows.push(r)) == assemble_row_fold(assemble_rows(es, rows), r@),
    decreases rows.len(),
{
    if rows.len() == 0 {
        assert(rows.push(r)[0] == r);
        assert(rows.push(r).drop_first() =~= Seq::<Vec<RawCell>>::empty());
        assert(assemble_rows(es, rows.push(r)) == assemble_rows(
            assemble_row_fold(es, r@),
            Seq::<Vec<RawCell>>::empty(),
        ));
        assert(assemble_rows(assemble_row_fold(es, r@), Seq::<Vec<RawCell>>::empty())
            == assemble_row_fold(es, r@));
        assert(assemble_rows(es, rows) == es);
    } else {
        assert(rows.push(r)[0] == rows[0]);
        assert(rows.push(r).drop_first() =~= rows.drop_first().push(r));
        assert(assemble_rows(es, rows.push(r)) == assemble_rows(
            assemble_row_fold(es, rows[0]@),
            rows.drop_first().push(r),
        ));
        assert(assemble_rows(es, rows) == assemble_rows(
            assemble_row_fold(es, rows[0]@),
            rows.drop_first(),
        ));
        lemma_assemble_rows_push(assemble_row_fold(es, rows[0]@), rows.drop_first(), r);
    }
}

/// The column names one row reports, in cell order.
pub open spec fn row_names(cells: Seq<RawCell>) -> Seq<Seq<char>> {
    Seq::new(cells.len(), |j: int| cells[j].column@)
}

/// A list of names without repetition.
pub open spec fn distinct_names(names: Seq<Seq<char>>) -> bool {
    forall|a: int, b: int| 0 <= a < b < names.len() ==> names[a] != names[b]
}

/// The shape of the columns while `filled` complete rows and the first `j`
/// cells of the next row have been assembled: during the first row the
/// first `j` columns exist with one value each; afterwards every column
/// exists, those up to `j` one value longer than the rest.
pub open spec fn col_shape(
    es: Seq<(Seq<char>, Seq<ValueView>)>,
    names: Seq<Seq<char>>,
    filled: int,
    j: int,
) -> bool {
    if filled == 0 {
        es.len() == j && (forall|c: int|
            0 <= c < j ==> #[trigger] es[c].0 == names[c] && es[c].1.len() == 1)
    } else {
        es.len() == names.len() && (forall|c: int|
            0 <= c < es.len() ==> #[trigger] es[c].0 == names[c] && es[c].1.len() == (
            if c < j {
                filled + 1
            } else {
                filled
            }))
    }
}

proof fn lemma_shape_upsert(
    es: Seq<(Seq<char>, Seq<ValueView>)>,
    names: Seq<Seq<char>>,
    filled: int,
    j: int,
    k: Seq<char>,
    v: ValueView,
)
    requires
        distinct_names(names),
        col_shape(es, names, filled, j),
        0 <= j < names.len(),
        k == names[j],
        filled >= 0,
    ensures
        col_shape(upsert(es, k, v), names, filled, j + 1),
{
    lemma_col_index(es, k);
    if filled == 0 {
        if has_col(es, k) {
            let i = col_index(es, k);
            assert(es[i].0 == names[i]);
            assert(names[i] == names[j]);
            assert(false);
        }
        let es2 = es.push((k, seq![v]));
        assert(upsert(es, k, v) == es2);
        assert forall|c: int| 0 <= c < j + 1 implies #[trigger] es2[c].0 == names[c]
            && es2[c].1.len() == 1 by {
            if c < j {
                assert(es2[c] == es[c]);
            } else {
                assert(es2[c] == (k, seq![v]));
            }
        }
    } else {
        if !has_col(es, k) {
            assert(es[j].0 != k);
            assert(false);
        }
        let i = col_index(es, k);
        assert(es[i].0 == k);
        assert(es[i].0 == names[i]);
        if i != j {
            assert(names[i] == names[j]);
            assert(false);
        }
        let es2 = es.update(j, (k, es[j].1.push(v)));
        assert(upsert(es, k, v) == es2);
        assert forall|c: int| 0 <= c < es2.len() implies #[trigger] es2[c].0 == names[c]
            && es2[c].1.len() == (if c < j + 1 {
            filled + 1
        } else {
            filled
        }) by {
            if c == j {
                assert(es2[j] == (k, es[j].1.push(v)));
                assert(es[j].1.len() == filled);
                assert(es2[j].1.len() == filled + 1);
            } else {
                assert(es2[c] == es[c]);
                assert(es[c].0 == names[c]);
                assert(es[c].1.len() == (if c < j {
                    filled + 1
                } else {
                    filled
                }));
            }
        }
    }
}

proof fn lemma_shape_row(
    es: Seq<(Seq<char>, Seq<ValueView>)>,
    names: Seq<Seq<char>>,
    filled: int,
    j: int,
    cells: Seq<RawCell>,
)
    requires
        distinct_names(names),
        col_shape(es, names, filled, j),
        0 <= j,
        filled >= 0,
        j + cells.len() == names.len(),
        forall|i: int| 0 <= i < cells.len() ==> #[trigger] cells[i].column@ == names[j + i],
    ensures
        col_shape(assemble_row_fold(es, cells), names, filled, names.len() as int),
    decreases cells.len(),
{
    if cells.len() == 0 {
        assert(j == names.len());
    } else {
        let head = cells[0];
        let es2 = assemble_cell(es, head);
        lemma_shape_upsert(es, names, filled, j, head.column@, decoded(head.ty_name@, head.value));
        let rest = cells.drop_first();
        assert forall|i: int| 0 <= i < rest.len() implies #[trigger] rest[i].column@ == names[j + 1
            + i] by {
            assert(rest[i] == cells[i + 1]);
        }
        lemma_shape_row(es2, names, filled, j + 1, rest);
    }
}

proof fn lemma_shape_next_row(
    es: Seq<(Seq<char>, Seq<ValueView>)>,
    names: Seq<Seq<char>>,
    filled: int,
)
    requires
        col_shape(es, names, filled, names.len() as int),
        filled >= 0,
    ensures
        col_shape(es, names, filled + 1, 0),
{
    assert forall|c: int| 0 <= c < es.len() implies #[trigger] es[c].0 == names[c]
        && es[c].1.len() == filled + 1 by {
        assert(es[c].0 == names[c]);
    }
}

proof fn lemma_shape_rows(
    es: Seq<(Seq<char>, Seq<ValueView>)>,
    names: Seq<Seq<char>>,
    filled: int,
    rows: Seq<Vec<RawCell>>,
)
    requires
        distinct_names(names),
        col_shape(es, names, filled, 0),
        filled >= 0,
        forall|r: int| 0 <= r < rows.len() ==> row_names(#[trigger] rows[r]@) == names,
    ensures
        col_shape(assemble_rows(es, rows), names, filled + rows.len(), 0),
    decreases rows.len(),
{
    if rows.len() > 0 {
        let cells = rows[0]@;
        assert(row_names(cells) == names);
        assert(cells.len() == names.len()) by {
            assert(row_names(cells).len() == cells.len());
        }
        assert forall|i: int| 0 <= i < cells.len() implies #[trigger] cells[i].column@
            == names[i] by {
            assert(row_names(cells)[i] == cells[i].column@);
        }
        lemma_shape_row(es, names, filled, 0, cells);
        let es2 = assemble_row_fold(es, cells);
        lemma_shape_next_row(es2, names, filled);
        let rest = rows.drop_first();
        assert forall|r: int| 0 <= r < rest.len() implies row_names(#[trigger] rest[r]@)
            == names by {
            assert(rest[r] == rows[r + 1]);
        }
        lemma_shape_rows(es2, names, filled + 1, rest);
    }
}

/// The result invariant: when every row reports the same pairwise-distinct
/// column names, assembly registers exactly those columns, in first-seen
/// order, and every column's sequence has the row count's length.
pub proof fn lemma_assemble_uniform(rows: Seq<Vec<RawCell>>, names: Seq<Seq<char>>)
    requires
        distinct_names(names),
        forall|r: int| 0 <= r < rows.len() ==> row_names(#[trigger] rows[r]@) == names,
        rows.len() > 0,
    ensures
        assemble_rows(Seq::<(Seq<char>, Seq<ValueView>)>::empty(), rows).len() == names.len(),
        forall|c: int|
            0 <= c < names.len() ==> #[trigger] assemble_rows(
                Seq::<(Seq<char>, Seq<ValueView>)>::empty(),
                rows,
            )[c].0 == names[c] && assemble_rows(
                Seq::<(Seq<char>, Seq<ValueView>)>::empty(),
                rows,
            )[c].1.len() == rows.len(),
{
    let empty_cols = Seq::<(Seq<char>, Seq<ValueView>)>::empty();
    assert(col_shape(empty_cols, names, 0, 0));
    lemma_shape_rows(empty_cols, names, 0, rows);
    let res = assemble_rows(empty_cols, rows);
    assert(col_shape(res, names, rows.len() as int, 0));
    assert forall|c: int| 0 <= c < names.len() implies #[trigger] res[c].0 == names[c]
        && res[c].1.len() == rows.len() by {
        assert(res[c].0 == names[c]);
    }
}

/// Decodes a whole result set: for each row in order and each cell within
/// it, the decoded value is appended to the cell's column, and a column is
/// registered the first time its name is seen.
pub fn assemble_result(rows: &Vec<Vec<RawCell>>) -> (m: IndexMap<
    String,
    Vec<ValueType>,
    RandomState,
>)
    ensures
        columns_of(m) == assemble_rows(Seq::<(Seq<char>, Seq<ValueView>)>::empty(), rows@),
        distinct_cols(columns_of(m)),
{
    let ghost empty_cols = Seq::<(Seq<char>, Seq<ValueView>)>::empty();
    let mut m = new_result();
    let mut i: usize = 0;
    while i < rows.len()
        invariant
            i <= rows@.len(),
            columns_of(m) == assemble_rows(empty_cols, rows@.subrange(0, i as int)),
            distinct_cols(columns_of(m)),
        decreases rows@.len() - i,
    {
        let row = &rows[i];
        let ghost before_row = columns_of(m);
        let mut j: usize = 0;
        while j < row.len()
            invariant
                j <= row@.len(),
                before_row == assemble_rows(empty_cols, rows@.subrange(0, i as int)),
                i < rows@.len(),
                *row == rows@[i as int],
                columns_of(m) == assemble_row_fold(
                    before_row,
                    row@.subrange(0, j as int),
                ),
                distinct_cols(columns_of(m)),
            decreases row@.len() - j,
        {
            let cell = &row[j];
            let value = decode_value(cell.ty_name.as_str(), &cell.value);
            proof {
                lemma_upsert_distinct(
                    columns_of(m),
                    cell.column@,
                    value@,
                );
            }
            append_value(&mut m, cell.column.clone(), value);
            proof {
                lemma_assemble_row_push(
                    before_row,
                    row@.subrange(0, j as int),
                    row@[j as int],
                );
                assert(row@.subrange(0, j + 1) =~= row@.subrange(0, j as int).push(
                    row@[j as int],
                ));
            }
            j += 1;
        }
        proof {
            assert(row@.subrange(0, row@.len() as int) =~= row@);
            lemma_assemble_rows_push(
                empty_cols,
                rows@.subrange(0, i as int),
                rows@[i as int],
            );
            assert(rows@.subrange(0, i + 1) =~= rows@.subrange(0, i as int).push(
                rows@[i as int],
            ));
        }
        i += 1;
    }
    proof {
        assert(rows@.subrange(0, rows@.len() as int) =~= rows@);
    }
    m
}

} // verus!
