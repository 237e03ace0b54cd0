//! Failures of the register-file companion.

use vstd::prelude::*;

verus! {

/// Every way a shield operation can fail: a fault of the underlying
/// transport, or a response that does not fit the register it came from.
#[derive(Debug, Clone, PartialEq)]
pub enum ShieldError<E> {
    Transport(E),
    InvalidResponse,
    OutOfRange,
}

impl<E> From<E> for ShieldError<E> {
    fn from(err: E) -> (r: Self) {
        ShieldError::Transport(err)
    }
}

impl<E> vstd::std_specs::convert::FromSpecImpl<E> for ShieldError<E> {
    open spec fn obeys_from_spec() -> bool {
        true
    }

    open spec fn from_spec(err: E) -> Self {
        ShieldError::Transport(err)
    }
}

} // verus!
