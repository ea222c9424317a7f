//! The errors of the reply path: failing to deliver a return value, and
//! failing to receive one.

use vstd::prelude::*;
use vstd::string::StringExecFns;

verus! {

/// Returned when a method's return value could not be sent into the reply
/// channel, typically because the receiving side was dropped first.  The
/// undelivered value itself is not carried back.
#[derive(Debug, Clone, Copy, PartialEq, Eq, PartialOrd, Ord, Hash, Structural)]
pub struct FailedToSendReturnValue;

impl FailedToSendReturnValue {
    /// The message describing this failure.
    pub fn message(&self) -> (r: String)
        ensures
            r@ == "trait-enumizer: Failed to send return value back to caller"@,
    {
        String::from_str("trait-enumizer: Failed to send return value back to caller")
    }
}

/// Returned when a reply could not be received, because the sending side
/// was dropped before delivering a value.
#[derive(Debug, Clone, Copy, PartialEq, Eq, PartialOrd, Ord, Hash, Structural)]
pub struct RecvFailed;

impl RecvFailed {
    /// The message describing this failure.
    pub fn message(&self) -> (r: String)
        ensures
            r@ == "Reply channel closed before a value arrived"@,
    {
        String::from_str("Reply channel closed before a value arrived")
    }
}

} // verus!
