//! The conditions that the endpoint reports to its callers.

use vstd::prelude::*;

verus! {

/// Why an attempt to open a session produced none.
#[derive(Clone, Copy, Debug, PartialEq, Eq, Structural)]
pub enum OpenError {
    /// Another session is open.
    Busy,
    /// No memory could be had for the session's message.
    AllocationFailure,
}

/// Why a control request was not served.
#[derive(Clone, Copy, Debug, PartialEq, Eq, Structural)]
pub enum DispatchError {
    /// The opcode is not one that the endpoint recognizes.
    UnsupportedOperation,
    /// The transfer channel refused the write: the destination is too small
    /// or cannot be reached.
    TransferFault,
}

} // verus!
