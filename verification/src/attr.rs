//! Attributes: the key/value pairs that are handed to the backend.

use vstd::prelude::*;
use vstd::string::*;

verus! {

/// The value of an attribute.
///
/// Integers keep the signedness they had in the trace. Floating-point values
/// are carried as their IEEE-754 bit patterns, single precision in `F32` and
/// double precision in `F64`.
#[derive(Debug, PartialEq, Eq)]
pub enum AttrVal {
    String(String),
    Integer(i64),
    Unsigned(u64),
    Bool(bool),
    F32(u32),
    F64(u64),
    /// A point in time, in nanoseconds.
    Timestamp(u64),
}

/// What an [`AttrVal`] stands for.
pub ghost enum AttrValView {
    String(Seq<char>),
    Integer(i64),
    Unsigned(u64),
    Bool(bool),
    F32(u32),
    F64(u64),
    Timestamp(u64),
}

impl View for AttrVal {
    type V = AttrValView;

    open spec fn view(&self) -> AttrValView {
        match self {
            AttrVal::String(s) => AttrValView::String(s@),
            AttrVal::Integer(v) => AttrValView::Integer(*v),
            AttrVal::Unsigned(v) => AttrValView::Unsigned(*v),
            AttrVal::Bool(v) => AttrValView::Bool(*v),
            AttrVal::F32(v) => AttrValView::F32(*v),
            AttrVal::F64(v) => AttrValView::F64(*v),
            AttrVal::Timestamp(v) => AttrValView::Timestamp(*v),
        }
    }
}

impl DeepView for AttrVal {
    type V = AttrValView;

    open spec fn deep_view(&self) -> AttrValView {
        self@
    }
}

impl Clone for AttrVal {
    fn clone(&self) -> (copy: Self)
        ensures
            copy@ == self@,
    {
        match self {
            AttrVal::String(s) => AttrVal::String(s.clone()),
            AttrVal::Integer(v) => AttrVal::Integer(*v),
            AttrVal::Unsigned(v) => AttrVal::Unsigned(*v),
            AttrVal::Bool(v) => AttrVal::Bool(*v),
            AttrVal::F32(v) => AttrVal::F32(*v),
            AttrVal::F64(v) => AttrVal::F64(*v),
            AttrVal::Timestamp(v) => AttrVal::Timestamp(*v),
        }
    }
}

/// A dotted hierarchical key.
pub type AttrKey = String;

/// An attribute: a key and its value.
pub type Attr = (AttrKey, AttrVal);

/// What an [`Attr`] stands for.
pub type AttrView = (Seq<char>, AttrValView);

/// Appends a copy of each attribute of `attrs` to `out`, in their order.
pub fn extend_from(out: &mut Vec<Attr>, attrs: &Vec<Attr>)
    ensures
        final(out).deep_view() == old(out).deep_view() + attrs.deep_view(),
{
    let mut i: usize = 0;
    while i < attrs.len()
        invariant
            i <= attrs.len(),
            out.deep_view() == old(out).deep_view() + attrs.deep_view().take(i as int),
        decreases attrs.len() - i,
    {
        let ghost before = *out;
        let k = attrs[i].0.clone();
        let v = attrs[i].1.clone();
        out.push((k, v));
        proof {
            assert(out.deep_view() =~= before.deep_view().push((k@, v@)));
            assert(attrs.deep_view().take(i as int + 1) =~= attrs.deep_view().take(i as int).push(
                attrs.deep_view()[i as int],
            ));
        }
        i += 1;
    }
    assert(attrs.deep_view().take(attrs.len() as int) =~= attrs.deep_view());
}

/// A copy of the list.
pub fn clone_attrs(attrs: &Vec<Attr>) -> (copy: Vec<Attr>)
    ensures
        copy.deep_view() == attrs.deep_view(),
{
    let mut copy: Vec<Attr> = Vec::new();
    assert(copy.deep_view() =~= Seq::<AttrView>::empty());
    extend_from(&mut copy, attrs);
    assert(Seq::<AttrView>::empty() + attrs.deep_view() =~= attrs.deep_view());
    copy
}

} // verus!
