//! The outcome of a change of state that may fail and give the old state
//! back.
use vstd::prelude::*;

verus! {

/// A change of state that failed: the state it started from and why.
pub struct TransitionError<T, E> {
    pub state: T,
    pub error: E,
}

impl<T, E> TransitionError<T, E> {
    pub fn new(state: T, error: E) -> (r: Self)
        ensures
            r.state == state,
            r.error == error,
    {
        TransitionError { state, error }
    }

    /// The failure as the error of a result.
    pub fn err<O>(state: T, error: E) -> (r: Result<O, Self>)
        ensures
            r matches Err(e) && e.state == state && e.error == error,
    {
        Err(TransitionError { state, error })
    }
}

/// One of two states.
pub enum Either<A, B> {
    First(A),
    Second(B),
}

} // verus!
