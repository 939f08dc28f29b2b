//! Trusted boundary around `arrayvec::ArrayVec`, the fixed-capacity vector
//! that holds the ordered list of enabled channel pins.
//!
//! The contents of the vector are named by the uninterpreted function
//! [`pin_list`]; every wrapper below states what the called `ArrayVec` method
//! does to that sequence, as the crate's source shows it.

use vstd::prelude::*;
use arrayvec::ArrayVec;

verus! {

#[verifier::external_type_specification]
#[verifier::external_body]
#[verifier::reject_recursive_types(T)]
pub struct ExArrayVec<T, const CAP: usize>(ArrayVec<T, CAP>);

/// The pin identifiers the vector holds, first pushed first.
pub uninterp spec fn pin_list(v: ArrayVec<u8, 8>) -> Seq<u8>;

/// Relies on `ArrayVec::new`: a new vector is empty.
#[verifier::external_body]
pub fn pins_new() -> (v: ArrayVec<u8, 8>)
    ensures
        pin_list(v) == Seq::<u8>::empty(),
{
    ArrayVec::new()
}

/// Relies on `ArrayVec::len`: the number of initialized elements.
#[verifier::external_body]
pub fn pins_len(v: &ArrayVec<u8, 8>) -> (n: usize)
    ensures
        n == pin_list(*v).len(),
{
    v.len()
}

/// Relies on `ArrayVec::push`: appends at the end; panics when the vector is
/// full, which the precondition rules out (the capacity is 8).
#[verifier::external_body]
pub fn pins_push(v: &mut ArrayVec<u8, 8>, p: u8)
    requires
        pin_list(*old(v)).len() < 8,
    ensures
        pin_list(*final(v)) == pin_list(*old(v)).push(p),
{
    v.push(p)
}

/// Relies on `ArrayVec`'s `Deref` to a slice of the initialized elements;
/// indexing panics out of bounds, which the precondition rules out.
#[verifier::external_body]
pub fn pins_get(v: &ArrayVec<u8, 8>, i: usize) -> (p: u8)
    requires
        i < pin_list(*v).len(),
    ensures
        p == pin_list(*v)[i as int],
{
    v[i]
}

/// Relies on `ArrayVec::clear`: removes all elements.
#[verifier::external_body]
pub fn pins_clear(v: &mut ArrayVec<u8, 8>)
    ensures
        pin_list(*final(v)) == Seq::<u8>::empty(),
{
    v.clear()
}

} // verus!
