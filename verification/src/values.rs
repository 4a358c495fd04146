//! The closed value model for decoded database cells, its mathematical
//! view, and the canonical human-readable rendering of each variant.
use crate::text::{dec_digits, dec_int, i32_to_string, i64_to_string, u64_to_string};
use vstd::prelude::*;

verus! {

/// One decoded cell. Every decode path terminates in exactly one of these
/// variants; a failed typed read degrades to `Null` rather than an error.
///
/// A floating-point cell is carried as its decimal rendering, produced at
/// the driver boundary: the engine itself never computes with the number,
/// it only displays and exports it.
#[derive(Debug, PartialEq)]
pub enum ValueType {
    Null,
    Text(String),
    Int(i32),
    BigInt(i64),
    Float(String),
    Bool(bool),
    Bytea(Vec<u8>),
    Array(Vec<ValueType>),
    Unknown(String),
}

/// The mathematical shape of a `ValueType`: the same variants over
/// sequences and unbounded integers.
pub enum ValueView {
    Null,
    Text(Seq<char>),
    Int(int),
    BigInt(int),
    Float(Seq<char>),
    Bool(bool),
    Bytea(Seq<u8>),
    Array(Seq<ValueView>),
    Unknown(Seq<char>),
}

/// The view of a single value.
pub open spec fn value_view(v: ValueType) -> ValueView
    decreases v,
{
    match v {
        ValueType::Null => ValueView::Null,
        ValueType::Text(s) => ValueView::Text(s@),
        ValueType::Int(i) => ValueView::Int(i as int),
        ValueType::BigInt(i) => ValueView::BigInt(i as int),
        ValueType::Float(s) => ValueView::Float(s@),
        ValueType::Bool(b) => ValueView::Bool(b),
        ValueType::Bytea(bs) => ValueView::Bytea(bs@),
        ValueType::Array(vs) => ValueView::Array(views_of(vs@)),
        ValueType::Unknown(u) => ValueView::Unknown(u@),
    }
}

/// The views of a sequence of values, element by element.
pub open spec fn views_of(s: Seq<ValueType>) -> Seq<ValueView>
    decreases s,
{
    if s.len() == 0 {
        Seq::<ValueView>::empty()
    } else {
        views_of(s.drop_last()).push(value_view(s.last()))
    }
}

/// `views_of` maps each element to its view and keeps the length.
pub proof fn lemma_views_of(s: Seq<ValueType>)
    ensures
        views_of(s).len() == s.len(),
        forall|i: int| 0 <= i < s.len() ==> views_of(s)[i] == value_view(s[i]),
    decreases s.len(),
{
    if s.len() > 0 {
        lemma_views_of(s.drop_last());
    }
}

impl View for ValueType {
    type V = ValueView;

    open spec fn view(&self) -> ValueView {
        value_view(*self)
    }
}

impl DeepView for ValueType {
    type V = ValueView;

    open spec fn deep_view(&self) -> ValueView {
        value_view(*self)
    }
}

/// An equal copy of a byte vector.
pub fn copy_bytes(bs: &Vec<u8>) -> (r: Vec<u8>)
    ensures
        r@ == bs@,
{
    let mut out: Vec<u8> = Vec::new();
    let mut i: usize = 0;
    while i < bs.len()
        invariant
            i <= bs@.len(),
            out@ == bs@.subrange(0, i as int),
        decreases bs@.len() - i,
    {
        out.push(bs[i]);
        proof {
            assert(out@ =~= bs@.subrange(0, i + 1));
        }
        i += 1;
    }
    proof {
        assert(out@ =~= bs@);
    }
    out
}

/// An equal copy of a value.
pub fn clone_value(v: &ValueType) -> (r: ValueType)
    ensures
        r@ == v@,
    decreases *v,
{
    match v {
        ValueType::Null => ValueType::Null,
        ValueType::Text(s) => ValueType::Text(s.clone()),
        ValueType::Int(i) => ValueType::Int(*i),
        ValueType::BigInt(i) => ValueType::BigInt(*i),
        ValueType::Float(s) => ValueType::Float(s.clone()),
        ValueType::Bool(b) => ValueType::Bool(*b),
        ValueType::Bytea(bs) => {
            let mut out: Vec<u8> = Vec::new();
            let mut i: usize = 0;
            while i < bs.len()
                invariant
                    i <= bs@.len(),
                    out@ == bs@.subrange(0, i as int),
                decreases bs@.len() - i,
            {
                out.push(bs[i]);
                proof {
                    assert(out@ =~= bs@.subrange(0, i + 1));
                }
                i += 1;
            }
            proof {
                assert(out@ =~= bs@);
            }
            ValueType::Bytea(out)
        },
        ValueType::Array(vs) => {
            let mut out: Vec<ValueType> = Vec::new();
            let mut i: usize = 0;
            while i < vs.len()
                invariant
                    *v == ValueType::Array(*vs),
                    i <= vs@.len(),
                    out@.len() == i,
                    forall|j: int| 0 <= j < i ==> out@[j]@ == vs@[j]@,
                decreases vs@.len() - i,
            {
                proof {
                    assert(decreases_to!(*v => v->Array_0));
                    assert(v->Array_0 == *vs);
                    assert(decreases_to!(*vs => vs@));
                    assert(decreases_to!(vs@ => vs@[i as int]));
                    assert(decreases_to!(*v => vs@[i as int]));
                }
                let item = clone_value(&vs[i]);
                out.push(item);
                i += 1;
            }
            proof {
                lemma_views_of(out@);
                lemma_views_of(vs@);
                assert(views_of(out@) =~= views_of(vs@));
            }
            ValueType::Array(out)
        },
        ValueType::Unknown(u) => ValueType::Unknown(u.clone()),
    }
}

impl Clone for ValueType {
    /// Cloning keeps the value's view.
    fn clone(&self) -> (r: Self)
        ensures
            r@ == self@,
    {
        clone_value(self)
    }
}

/// The decimal renderings of the bytes of `s`, joined by `", "`.
pub open spec fn byte_list(s: Seq<u8>) -> Seq<char>
    decreases s.len(),
{
    if s.len() == 0 {
        Seq::<char>::empty()
    } else if s.len() == 1 {
        dec_digits(s[0] as nat)
    } else {
        dec_digits(s[0] as nat) + ", "@ + byte_list(s.drop_first())
    }
}

/// The rendering of a byte-array value: all bytes joined by `", "`, or,
/// past twenty bytes, the first ten and the last ten with an ellipsis
/// marker in between, to bound the output for large blobs.
pub open spec fn bytea_text(b: Seq<u8>) -> Seq<char> {
    if b.len() > 20 {
        byte_list(b.subrange(0, 10)) + ", ..., "@ + byte_list(b.subrange(b.len() - 10, b.len() as int))
    } else {
        byte_list(b)
    }
}

/// The canonical human-readable rendering of a value, used for display
/// and export.
pub open spec fn rendered(v: ValueView) -> Seq<char>
    decreases v,
{
    match v {
        ValueView::Null => "None"@,
        ValueView::Text(s) => s,
        ValueView::Int(i) => dec_int(i),
        ValueView::BigInt(i) => dec_int(i),
        ValueView::Float(s) => s,
        ValueView::Bool(b) => if b {
            "true"@
        } else {
            "false"@
        },
        ValueView::Bytea(bs) => bytea_text(bs),
        ValueView::Array(vs) => rendered_list(vs),
        ValueView::Unknown(u) => u,
    }
}

/// The renderings of a sequence of values joined by `", "`.
pub open spec fn rendered_list(vs: Seq<ValueView>) -> Seq<char>
    decreases vs,
{
    if vs.len() == 0 {
        Seq::<char>::empty()
    } else if vs.len() == 1 {
        rendered(vs[0])
    } else {
        rendered(vs[0]) + ", "@ + rendered_list(vs.drop_first())
    }
}

fn join_bytes(items: &Vec<u8>, from: usize, to: usize) -> (r: String)
    requires
        from <= to <= items@.len(),
    ensures
        r@ == byte_list(items@.subrange(from as int, to as int)),
    decreases to - from,
{
    if from == to {
        String::new()
    } else if from + 1 == to {
        let s = u64_to_string(items[from] as u64);
        proof {
            assert(items@.subrange(from as int, to as int) =~= seq![items@[from as int]]);
        }
        s
    } else {
        let mut s = u64_to_string(items[from] as u64);
        s.append(", ");
        let rest = join_bytes(items, from + 1, to);
        s.append(rest.as_str());
        proof {
            let sub = items@.subrange(from as int, to as int);
            assert(sub[0] == items@[from as int]);
            assert(sub.drop_first() =~= items@.subrange(from + 1, to as int));
        }
        s
    }
}

fn join_values(items: &Vec<ValueType>, from: usize) -> (r: String)
    requires
        from <= items@.len(),
    ensures
        r@ == rendered_list(views_of(items@).skip(from as int)),
    decreases items@, items@.len() - from,
{
    proof {
        lemma_views_of(items@);
    }
    let len = items.len();
    if from == len {
        proof {
            assert(views_of(items@).skip(from as int) =~= Seq::<ValueView>::empty());
        }
        String::new()
    } else if from + 1 == len {
        let s = items[from].to_string();
        proof {
            let tail = views_of(items@).skip(from as int);
            assert(tail.len() == 1);
            assert(tail[0] == value_view(items@[from as int]));
        }
        s
    } else {
        let mut s = items[from].to_string();
        s.append(", ");
        let rest = join_values(items, from + 1);
        s.append(rest.as_str());
        proof {
            let tail = views_of(items@).skip(from as int);
            assert(tail[0] == value_view(items@[from as int]));
            assert(tail.drop_first() =~= views_of(items@).skip(from + 1));
        }
        s
    }
}

impl ValueType {
    /// The canonical string form of this value: `Null` renders as `"None"`,
    /// numbers and booleans in their decimal and lower-case forms, byte
    /// arrays as bounded byte lists, arrays as their elements joined by
    /// `", "`, and an unrecognised type as its reported type name.
    pub fn to_string(&self) -> (r: String)
        ensures
            r@ == rendered(self@),
        decreases *self,
    {
        match self {
            ValueType::Null => "None".to_owned(),
            ValueType::Text(s) => s.clone(),
            ValueType::Int(i) => i32_to_string(*i),
            ValueType::BigInt(i) => i64_to_string(*i),
            ValueType::Float(s) => s.clone(),
            ValueType::Bool(b) => {
                if *b {
                    "true".to_owned()
                } else {
                    "false".to_owned()
                }
            },
            ValueType::Bytea(items) => {
                if items.len() > 20 {
                    let mut s = join_bytes(items, 0, 10);
                    s.append(", ..., ");
                    let tail = join_bytes(items, items.len() - 10, items.len());
                    s.append(tail.as_str());
                    s
                } else {
                    let s = join_bytes(items, 0, items.len());
                    proof {
                        assert(items@.subrange(0, items@.len() as int) =~= items@);
                    }
                    s
                }
            },
            ValueType::Array(vs) => {
                let s = join_values(vs, 0);
                proof {
                    assert(views_of(vs@).skip(0) =~= views_of(vs@));
                }
                s
            },
            ValueType::Unknown(u) => u.clone(),
        }
    }
}

} // verus!
