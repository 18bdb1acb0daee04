//! Controller of one hardware-virtualized CPU.
//!
//! The controller brings a virtual CPU into 64-bit long mode at a guest entry
//! point and then drives its run loop. It never touches the host itself: every
//! operation hands out the next call to make on the host virtualization
//! framework, and the caller hands back what the host answered.

pub mod arch;
pub mod capability;
pub mod error;
pub mod host;
pub mod report;
pub mod segment;
pub mod setup;
pub mod snapshot;
pub mod text;
pub mod trace;
pub mod vcpu;

pub use crate::capability::CapabilityCache;
pub use crate::error::Error;
pub use crate::host::{Capability, Field, HostCall, HostError, HostReply, Register, Segment};
pub use crate::segment::AccessRights;
pub use crate::snapshot::{SegmentState, Snapshot};
pub use crate::vcpu::{CpuState, EhyveCPU, ExitAction, Pending, Stage, Step};
