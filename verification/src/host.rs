//! The host virtualization framework as the controller sees it: the calls
//! that it asks for, and the names of what those calls read and write.

use vstd::prelude::*;

verus! {

/// A segment register of the guest.
#[derive(Clone, Copy, Debug, PartialEq, Eq)]
pub enum Segment {
    Cs,
    Ss,
    Ds,
    Es,
    Fs,
    Gs,
    Tr,
    Ldtr,
}

/// A field of the control structure that holds the guest's state.
#[derive(Clone, Copy, Debug, PartialEq, Eq)]
pub enum Field {
    /// The selector of a segment register.
    Selector(Segment),
    /// The limit of a segment.
    Limit(Segment),
    /// The access rights of a segment.
    AccessRights(Segment),
    /// The base address of a segment.
    Base(Segment),
    GdtrBase,
    GdtrLimit,
    IdtrBase,
    IdtrLimit,
    Cr0,
    Cr3,
    Cr4,
    Rip,
    Rflags,
    Efer,
    /// Why the guest last left to the host; read-only.
    ExitReason,
}

/// A register of the guest that the host reads by name.
#[derive(Clone, Copy, Debug, PartialEq, Eq)]
pub enum Register {
    Rip,
    Rflags,
    Rsp,
    Rbp,
    Rax,
    Rbx,
    Rcx,
    Rdx,
    Rsi,
    Rdi,
    R8,
    R9,
    R10,
    R11,
    R12,
    R13,
    R14,
    R15,
    Cr0,
    Cr2,
    Cr3,
    Cr4,
    /// The selector held in a segment register.
    Selector(Segment),
}

/// A family of control fields that the hardware constrains by one capability
/// mask. The controls of VM entry and of VM exit have a mask each.
#[derive(Clone, Copy, Debug, PartialEq, Eq)]
pub enum Capability {
    PinBased,
    ProcBased,
    ProcBased2,
    Entry,
    Exit,
}

/// One call on the host. The controller hands these out; its caller makes
/// the call and hands back the host's answer.
#[derive(Clone, Copy, Debug, PartialEq, Eq)]
pub enum HostCall {
    /// Read the capability mask of a family of control fields.
    ReadCapability { family: Capability },
    /// Let the guest use a model-specific register without a trap.
    EnableMsr { msr: u32, enable: bool },
    /// Set the guest-physical address of the local APIC.
    SetApicBase { address: u64 },
    /// Write a field of the control structure.
    WriteField { field: Field, value: u64 },
    /// Read a field of the control structure.
    ReadField { field: Field },
    /// Read a register of the guest.
    ReadRegister { register: Register },
    /// Run the guest until it next leaves to the host.
    Run,
    /// Release the hardware virtual CPU.
    Destroy,
}

/// Why the host refused a call.
#[derive(Clone, Copy, Debug, PartialEq, Eq)]
pub enum HostError {
    Error,
    Busy,
    BadArgument,
    NoResources,
    NoDevice,
    Unsupported,
}

/// What the host answered to a call: the value read, or the reason of the
/// refusal. The value of a call that reads nothing has no meaning.
pub type HostReply = Result<u64, HostError>;

/// The place of a segment register in the architecture's order of them.
pub open spec fn segment_index(segment: Segment) -> int {
    match segment {
        Segment::Es => 0,
        Segment::Cs => 1,
        Segment::Ss => 2,
        Segment::Ds => 3,
        Segment::Fs => 4,
        Segment::Gs => 5,
        Segment::Ldtr => 6,
        Segment::Tr => 7,
    }
}

/// The number by which the architecture knows a field.
pub open spec fn field_encoding(field: Field) -> int {
    match field {
        Field::Selector(segment) => 0x0800 + 2 * segment_index(segment),
        Field::Limit(segment) => 0x4800 + 2 * segment_index(segment),
        Field::AccessRights(segment) => 0x4814 + 2 * segment_index(segment),
        Field::Base(segment) => 0x6806 + 2 * segment_index(segment),
        Field::GdtrLimit => 0x4810,
        Field::IdtrLimit => 0x4812,
        Field::GdtrBase => 0x6816,
        Field::IdtrBase => 0x6818,
        Field::Cr0 => 0x6800,
        Field::Cr3 => 0x6802,
        Field::Cr4 => 0x6804,
        Field::Rip => 0x681e,
        Field::Rflags => 0x6820,
        Field::Efer => 0x2806,
        Field::ExitReason => 0x4402,
    }
}

impl Segment {
    /// The place of the segment register in the architecture's order.
    pub fn index(self) -> (index: u32)
        ensures
            index == segment_index(self),
    {
        match self {
            Segment::Es => 0,
            Segment::Cs => 1,
            Segment::Ss => 2,
            Segment::Ds => 3,
            Segment::Fs => 4,
            Segment::Gs => 5,
            Segment::Ldtr => 6,
            Segment::Tr => 7,
        }
    }
}

impl Field {
    /// The number by which the architecture knows the field.
    pub fn encoding(self) -> (code: u32)
        ensures
            code == field_encoding(self),
    {
        match self {
            Field::Selector(segment) => 0x0800 + 2 * segment.index(),
            Field::Limit(segment) => 0x4800 + 2 * segment.index(),
            Field::AccessRights(segment) => 0x4814 + 2 * segment.index(),
            Field::Base(segment) => 0x6806 + 2 * segment.index(),
            Field::GdtrLimit => 0x4810,
            Field::IdtrLimit => 0x4812,
            Field::GdtrBase => 0x6816,
            Field::IdtrBase => 0x6818,
            Field::Cr0 => 0x6800,
            Field::Cr3 => 0x6802,
            Field::Cr4 => 0x6804,
            Field::Rip => 0x681e,
            Field::Rflags => 0x6820,
            Field::Efer => 0x2806,
            Field::ExitReason => 0x4402,
        }
    }
}

/// No two fields share a number.
pub proof fn lemma_field_encoding_injective(a: Field, b: Field)
    requires
        field_encoding(a) == field_encoding(b),
    ensures
        a == b,
{
}

} // verus!
