//! The two std types of the polling contract, as far as this library uses
//! them: a wake handle is cloned, kept and woken, and a poll result is built.

use std::task::Poll;
use std::task::Waker;
use vstd::prelude::*;

verus! {

/// `std::task::Waker`, carried through as an opaque value.
#[verifier::external_type_specification]
#[verifier::external_body]
pub struct ExWaker(Waker);

/// `std::task::Poll`, with its two variants `Ready` and `Pending`.
#[verifier::external_type_specification]
#[verifier::reject_recursive_types(T)]
pub struct ExPoll<T>(Poll<T>);

/// `Waker::clone`. Not proved: the copy stands for the wake handle it was made
/// from. std documents `clone` as returning a duplicate of the value, and for a
/// waker that waking the copy wakes the same task.
pub assume_specification[ <Waker as Clone>::clone ](waker: &Waker) -> (copy: Waker)
    ensures
        copy == *waker,
;

/// `Waker::wake`. Nothing is claimed of it: it returns nothing, and what the
/// woken task does is outside this library.
pub assume_specification[ Waker::wake ](waker: Waker);

} // verus!
