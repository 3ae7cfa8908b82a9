//! Helpers on optional vectors and their sequences.

use vstd::prelude::*;

verus! {

/// The sequence of an optional vector.
pub open spec fn opt_seq<T>(v: Option<Vec<T>>) -> Option<Seq<T>> {
    match v {
        Some(items) => Some(items@),
        None => None,
    }
}

/// The sequence of an optional slice.
pub open spec fn opt_slice_seq<T>(v: Option<&[T]>) -> Option<Seq<T>> {
    match v {
        Some(items) => Some(items@),
        None => None,
    }
}

/// The mathematical values of the items of a sequence.
pub open spec fn views<T: View>(items: Seq<T>) -> Seq<T::V> {
    Seq::new(items.len(), |i: int| items[i]@)
}

/// The mathematical values of the items of an optional vector.
pub open spec fn opt_views<T: View>(v: Option<Vec<T>>) -> Option<Seq<T::V>> {
    match v {
        Some(items) => Some(views(items@)),
        None => None,
    }
}

/// The mathematical values of the items of an optional slice.
pub open spec fn opt_slice_views<T: View>(v: Option<&[T]>) -> Option<Seq<T::V>> {
    match v {
        Some(items) => Some(views(items@)),
        None => None,
    }
}

/// The number of items, none where the sequence is absent.
pub open spec fn count<T>(v: Option<Seq<T>>) -> nat {
    match v {
        Some(items) => items.len(),
        None => 0,
    }
}

/// The sequence with `item` appended; an absent sequence becomes a sequence
/// of one.
pub open spec fn appended<T>(v: Option<Seq<T>>, item: T) -> Option<Seq<T>> {
    match v {
        Some(items) => Some(items.push(item)),
        None => Some(seq![item]),
    }
}

/// Appending an item appends its mathematical value.
pub proof fn lemma_views_push<T: View>(items: Seq<T>, item: T)
    ensures
        views(items.push(item)) == views(items).push(item@),
        views(seq![item]) == seq![item@],
{
    assert(views(items.push(item)) =~= views(items).push(item@));
    assert(views(seq![item]) =~= seq![item@]);
}

/// An owned copy of `items`.
pub fn copy_slice<T: Copy>(items: &[T]) -> (out: Vec<T>)
    ensures
        out@ == items@,
{
    let mut out: Vec<T> = Vec::new();
    let mut i: usize = 0;
    while i < items.len()
        invariant
            i <= items@.len(),
            out@ == items@.subrange(0, i as int),
        decreases items@.len() - i,
    {
        out.push(items[i]);
        assert(out@ =~= items@.subrange(0, i + 1));
        i += 1;
    }
    assert(items@.subrange(0, items@.len() as int) =~= items@);
    out
}

/// An owned copy of an optional slice.
pub fn copy_opt_slice<T: Copy>(items: Option<&[T]>) -> (out: Option<Vec<T>>)
    ensures
        opt_seq(out) == opt_slice_seq(items),
{
    match items {
        Some(v) => Some(copy_slice(v)),
        None => None,
    }
}

/// An optional vector as an optional slice.
pub fn as_opt_slice<T>(items: &Option<Vec<T>>) -> (out: Option<&[T]>)
    ensures
        opt_slice_seq(out) == opt_seq(*items),
{
    match items {
        Some(v) => Some(v.as_slice()),
        None => None,
    }
}

/// The number of items, none where the slice is absent.
pub fn opt_slice_len<T>(items: Option<&[T]>) -> (n: usize)
    ensures
        n == count(opt_slice_seq(items)),
{
    match items {
        Some(v) => v.len(),
        None => 0,
    }
}

/// The number of items, none where the vector is absent.
pub fn opt_len<T>(items: &Option<Vec<T>>) -> (n: usize)
    ensures
        n == count(opt_seq(*items)),
{
    match items {
        Some(v) => v.len(),
        None => 0,
    }
}

} // verus!
