//! Errors of the networking layer.

use vstd::prelude::*;
use vstd::std_specs::convert::FromSpecImpl;

verus! {

/// Why an input or output operation that can time out or close did not succeed.
#[derive(Debug)]
pub enum IoError<E> {
    /// The operation timed out.
    Timeout,
    /// The operation failed for another reason.
    Error(E),
    /// The other side closed, or the input ended, before it was expected.
    UnexpectedEof,
}

impl<E> From<E> for IoError<E> {
    fn from(error: E) -> (r: Self) {
        IoError::Error(error)
    }
}

impl<E> FromSpecImpl<E> for IoError<E> {
    open spec fn obeys_from_spec() -> bool {
        true
    }

    open spec fn from_spec(error: E) -> Self {
        IoError::Error(error)
    }
}

} // verus!
