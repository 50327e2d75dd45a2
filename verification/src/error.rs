//! The failures a request can end in.

use vstd::prelude::*;
use crate::action_state::ActionFlag;

verus! {

/// Why a request was not carried out, or not to the end.
#[derive(Clone, Copy, Debug, PartialEq, Eq, Structural)]
pub enum CoreError {
    /// The resource, or the server it names, does not exist.
    NotFound,
    /// The user's permission on the resource is below what the operation
    /// requires.
    Unauthorized,
    /// Another operation is in flight on the resource; the flag says which.
    Busy(ActionFlag),
    /// The server cannot be reached, or is disabled.
    RemoteUnavailable,
    /// The agent was reached and reported a failure.
    RemoteFailure,
    /// The store did not accept a write.
    StoreFailure,
}

} // verus!
