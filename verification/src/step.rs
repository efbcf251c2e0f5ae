//! Operations that alternate between asking the operating system for something and deciding what to
//! do about its answer.
//!
//! Such an operation is a value that says which call is due and that moves on when it is told the
//! reply. Whoever can make the calls drives it to its end.

use crate::error::Error;
use vstd::prelude::*;

verus! {

/// What an operation comes to after a reply.
#[derive(PartialEq, Eq, Structural, Debug)]
pub enum Step<S, T> {
    /// There is another call to make.
    Next(S),
    /// The operation is over.
    Done(Result<T, Error>),
}

/// The reply to a call that reports failure by its return value: that value, and the error number
/// that belongs to it in case it says that the call failed.
#[derive(Clone, Copy, PartialEq, Eq, Structural, Debug)]
pub struct Reply {
    pub value: i32,
    pub errno: i32,
}

} // verus!
