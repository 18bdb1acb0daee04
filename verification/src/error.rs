//! What can go wrong.

use vstd::prelude::*;
use crate::host::{HostCall, HostError};
use crate::snapshot::Snapshot;

verus! {

/// An error of the controller.
#[derive(Clone, Copy, Debug, PartialEq, Eq)]
pub enum Error {
    /// The host refused `call`. The call is not made again.
    HostCallFailure { call: HostCall, cause: HostError },
    /// The guest left to the host for a reason that nothing handles. The
    /// snapshot holds the state of the virtual CPU at that exit.
    UnhandledExitReason { reason: u16, snapshot: Snapshot },
    /// A value is out of its range, or an operation was asked of a virtual
    /// CPU that is in no state for it. No call on the host is made for it.
    InvalidArgument,
}

} // verus!
