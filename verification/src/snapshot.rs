//! The state dump of a virtual CPU: which registers and fields it reads, where
//! each value read is kept, and the text it is rendered to.
//!
//! A read that the host refuses leaves its value unavailable. The dump goes on
//! without it, and the text shows the word `unavailable` in its place.

use vstd::prelude::*;
use crate::host::{Field, HostCall, Register, Segment};

verus! {

/// What was read of one segment register.
#[derive(Clone, Copy, Debug, PartialEq, Eq)]
pub struct SegmentState {
    pub selector: Option<u64>,
    pub base: Option<u64>,
    pub limit: Option<u64>,
    pub rights: Option<u64>,
}

/// What was read of a virtual CPU; `None` where the host refused the read.
#[derive(Clone, Copy, Debug, PartialEq, Eq)]
pub struct Snapshot {
    /// The number of the virtual CPU.
    pub cpu: u32,
    pub rip: Option<u64>,
    pub rflags: Option<u64>,
    pub rsp: Option<u64>,
    pub rbp: Option<u64>,
    pub rax: Option<u64>,
    pub rbx: Option<u64>,
    pub rcx: Option<u64>,
    pub rdx: Option<u64>,
    pub rsi: Option<u64>,
    pub rdi: Option<u64>,
    pub r8: Option<u64>,
    pub r9: Option<u64>,
    pub r10: Option<u64>,
    pub r11: Option<u64>,
    pub r12: Option<u64>,
    pub r13: Option<u64>,
    pub r14: Option<u64>,
    pub r15: Option<u64>,
    pub cr0: Option<u64>,
    pub cr2: Option<u64>,
    pub cr3: Option<u64>,
    pub cr4: Option<u64>,
    pub cs: SegmentState,
    pub ss: SegmentState,
    pub ds: SegmentState,
    pub es: SegmentState,
    pub fs: SegmentState,
    pub gs: SegmentState,
    pub tr: SegmentState,
    pub ldtr: SegmentState,
    pub gdtr_base: Option<u64>,
    pub gdtr_limit: Option<u64>,
    pub idtr_base: Option<u64>,
    pub idtr_limit: Option<u64>,
    pub efer: Option<u64>,
}

/// The segment state in which nothing is available.
pub open spec fn empty_segment() -> SegmentState {
    SegmentState { selector: None, base: None, limit: None, rights: None }
}

/// The snapshot of virtual CPU `cpu` in which nothing is available.
pub open spec fn empty_snapshot(cpu: u32) -> Snapshot {
    Snapshot {
        cpu,
        rip: None,
        rflags: None,
        rsp: None,
        rbp: None,
        rax: None,
        rbx: None,
        rcx: None,
        rdx: None,
        rsi: None,
        rdi: None,
        r8: None,
        r9: None,
        r10: None,
        r11: None,
        r12: None,
        r13: None,
        r14: None,
        r15: None,
        cr0: None,
        cr2: None,
        cr3: None,
        cr4: None,
        cs: empty_segment(),
        ss: empty_segment(),
        ds: empty_segment(),
        es: empty_segment(),
        fs: empty_segment(),
        gs: empty_segment(),
        tr: empty_segment(),
        ldtr: empty_segment(),
        gdtr_base: None,
        gdtr_limit: None,
        idtr_base: None,
        idtr_limit: None,
        efer: None,
    }
}

/// The three reads of one segment's fields.
pub open spec fn segment_sources(segment: Segment) -> Seq<HostCall> {
    seq![
        HostCall::ReadField { field: Field::Limit(segment) },
        HostCall::ReadField { field: Field::Base(segment) },
        HostCall::ReadField { field: Field::AccessRights(segment) },
    ]
}

/// The reads of the general and control registers.
pub open spec fn register_sources() -> Seq<HostCall> {
    seq![
        HostCall::ReadRegister { register: Register::Rip },
        HostCall::ReadRegister { register: Register::Rflags },
        HostCall::ReadRegister { register: Register::Rsp },
        HostCall::ReadRegister { register: Register::Rbp },
        HostCall::ReadRegister { register: Register::Rax },
        HostCall::ReadRegister { register: Register::Rbx },
        HostCall::ReadRegister { register: Register::Rcx },
        HostCall::ReadRegister { register: Register::Rdx },
        HostCall::ReadRegister { register: Register::Rsi },
        HostCall::ReadRegister { register: Register::Rdi },
        HostCall::ReadRegister { register: Register::R8 },
        HostCall::ReadRegister { register: Register::R9 },
        HostCall::ReadRegister { register: Register::R10 },
        HostCall::ReadRegister { register: Register::R11 },
        HostCall::ReadRegister { register: Register::R12 },
        HostCall::ReadRegister { register: Register::R13 },
        HostCall::ReadRegister { register: Register::R14 },
        HostCall::ReadRegister { register: Register::R15 },
        HostCall::ReadRegister { register: Register::Cr0 },
        HostCall::ReadRegister { register: Register::Cr2 },
        HostCall::ReadRegister { register: Register::Cr3 },
        HostCall::ReadRegister { register: Register::Cr4 },
    ]
}

/// The reads of the eight segment selectors.
pub open spec fn selector_sources() -> Seq<HostCall> {
    seq![
        HostCall::ReadRegister { register: Register::Selector(Segment::Cs) },
        HostCall::ReadRegister { register: Register::Selector(Segment::Ds) },
        HostCall::ReadRegister { register: Register::Selector(Segment::Es) },
        HostCall::ReadRegister { register: Register::Selector(Segment::Ss) },
        HostCall::ReadRegister { register: Register::Selector(Segment::Fs) },
        HostCall::ReadRegister { register: Register::Selector(Segment::Gs) },
        HostCall::ReadRegister { register: Register::Selector(Segment::Tr) },
        HostCall::ReadRegister { register: Register::Selector(Segment::Ldtr) },
    ]
}

/// The reads of the descriptor-table registers and of EFER.
pub open spec fn table_sources() -> Seq<HostCall> {
    seq![
        HostCall::ReadField { field: Field::GdtrBase },
        HostCall::ReadField { field: Field::GdtrLimit },
        HostCall::ReadField { field: Field::IdtrBase },
        HostCall::ReadField { field: Field::IdtrLimit },
        HostCall::ReadField { field: Field::Efer },
    ]
}

/// Every read that a state dump makes, in the order in which it makes them.
pub open spec fn sources() -> Seq<HostCall> {
    register_sources() + selector_sources() + segment_sources(Segment::Cs) + segment_sources(
        Segment::Ss,
    ) + segment_sources(Segment::Ds) + segment_sources(Segment::Es) + segment_sources(Segment::Fs)
        + segment_sources(Segment::Gs) + segment_sources(Segment::Tr) + segment_sources(
        Segment::Ldtr,
    ) + table_sources()
}

/// The state of one segment register in a snapshot.
pub open spec fn segment_of(snapshot: Snapshot, segment: Segment) -> SegmentState {
    match segment {
        Segment::Cs => snapshot.cs,
        Segment::Ss => snapshot.ss,
        Segment::Ds => snapshot.ds,
        Segment::Es => snapshot.es,
        Segment::Fs => snapshot.fs,
        Segment::Gs => snapshot.gs,
        Segment::Tr => snapshot.tr,
        Segment::Ldtr => snapshot.ldtr,
    }
}

/// The snapshot with the state of one segment register replaced.
pub open spec fn with_segment(snapshot: Snapshot, segment: Segment, state: SegmentState)
    -> Snapshot {
    match segment {
        Segment::Cs => Snapshot { cs: state, ..snapshot },
        Segment::Ss => Snapshot { ss: state, ..snapshot },
        Segment::Ds => Snapshot { ds: state, ..snapshot },
        Segment::Es => Snapshot { es: state, ..snapshot },
        Segment::Fs => Snapshot { fs: state, ..snapshot },
        Segment::Gs => Snapshot { gs: state, ..snapshot },
        Segment::Tr => Snapshot { tr: state, ..snapshot },
        Segment::Ldtr => Snapshot { ldtr: state, ..snapshot },
    }
}

/// The snapshot after the read `call` gave `value`: the value stands where
/// the snapshot keeps what `call` reads. A call that reads nothing that the
/// snapshot keeps leaves it as it is.
pub open spec fn recorded(snapshot: Snapshot, call: HostCall, value: Option<u64>) -> Snapshot {
    match call {
        HostCall::ReadRegister { register } => match register {
            Register::Rip => Snapshot { rip: value, ..snapshot },
            Register::Rflags => Snapshot { rflags: value, ..snapshot },
            Register::Rsp => Snapshot { rsp: value, ..snapshot },
            Register::Rbp => Snapshot { rbp: value, ..snapshot },
            Register::Rax => Snapshot { rax: value, ..snapshot },
            Register::Rbx => Snapshot { rbx: value, ..snapshot },
            Register::Rcx => Snapshot { rcx: value, ..snapshot },
            Register::Rdx => Snapshot { rdx: value, ..snapshot },
            Register::Rsi => Snapshot { rsi: value, ..snapshot },
            Register::Rdi => Snapshot { rdi: value, ..snapshot },
            Register::R8 => Snapshot { r8: value, ..snapshot },
            Register::R9 => Snapshot { r9: value, ..snapshot },
            Register::R10 => Snapshot { r10: value, ..snapshot },
            Register::R11 => Snapshot { r11: value, ..snapshot },
            Register::R12 => Snapshot { r12: value, ..snapshot },
            Register::R13 => Snapshot { r13: value, ..snapshot },
            Register::R14 => Snapshot { r14: value, ..snapshot },
            Register::R15 => Snapshot { r15: value, ..snapshot },
            Register::Cr0 => Snapshot { cr0: value, ..snapshot },
            Register::Cr2 => Snapshot { cr2: value, ..snapshot },
            Register::Cr3 => Snapshot { cr3: value, ..snapshot },
            Register::Cr4 => Snapshot { cr4: value, ..snapshot },
            Register::Selector(segment) => with_segment(
                snapshot,
                segment,
                SegmentState { selector: value, ..segment_of(snapshot, segment) },
            ),
        },
        HostCall::ReadField { field } => match field {
            Field::Limit(segment) => with_segment(
                snapshot,
                segment,
                SegmentState { limit: value, ..segment_of(snapshot, segment) },
            ),
            Field::Base(segment) => with_segment(
                snapshot,
                segment,
                SegmentState { base: value, ..segment_of(snapshot, segment) },
            ),
            Field::AccessRights(segment) => with_segment(
                snapshot,
                segment,
                SegmentState { rights: value, ..segment_of(snapshot, segment) },
            ),
            Field::GdtrBase => Snapshot { gdtr_base: value, ..snapshot },
            Field::GdtrLimit => Snapshot { gdtr_limit: value, ..snapshot },
            Field::IdtrBase => Snapshot { idtr_base: value, ..snapshot },
            Field::IdtrLimit => Snapshot { idtr_limit: value, ..snapshot },
            Field::Efer => Snapshot { efer: value, ..snapshot },
            _ => snapshot,
        },
        _ => snapshot,
    }
}

/// What the snapshot keeps of the read `call`; `None` too for a call that
/// reads nothing that the snapshot keeps.
pub open spec fn value_of(snapshot: Snapshot, call: HostCall) -> Option<u64> {
    match call {
        HostCall::ReadRegister { register } => match register {
            Register::Rip => snapshot.rip,
            Register::Rflags => snapshot.rflags,
            Register::Rsp => snapshot.rsp,
            Register::Rbp => snapshot.rbp,
            Register::Rax => snapshot.rax,
            Register::Rbx => snapshot.rbx,
            Register::Rcx => snapshot.rcx,
            Register::Rdx => snapshot.rdx,
            Register::Rsi => snapshot.rsi,
            Register::Rdi => snapshot.rdi,
            Register::R8 => snapshot.r8,
            Register::R9 => snapshot.r9,
            Register::R10 => snapshot.r10,
            Register::R11 => snapshot.r11,
            Register::R12 => snapshot.r12,
            Register::R13 => snapshot.r13,
            Register::R14 => snapshot.r14,
            Register::R15 => snapshot.r15,
            Register::Cr0 => snapshot.cr0,
            Register::Cr2 => snapshot.cr2,
            Register::Cr3 => snapshot.cr3,
            Register::Cr4 => snapshot.cr4,
            Register::Selector(segment) => segment_of(snapshot, segment).selector,
        },
        HostCall::ReadField { field } => match field {
            Field::Limit(segment) => segment_of(snapshot, segment).limit,
            Field::Base(segment) => segment_of(snapshot, segment).base,
            Field::AccessRights(segment) => segment_of(snapshot, segment).rights,
            Field::GdtrBase => snapshot.gdtr_base,
            Field::GdtrLimit => snapshot.gdtr_limit,
            Field::IdtrBase => snapshot.idtr_base,
            Field::IdtrLimit => snapshot.idtr_limit,
            Field::Efer => snapshot.efer,
            _ => None,
        },
        _ => None,
    }
}

/// Whether the snapshot keeps what `call` reads.
pub open spec fn is_source(call: HostCall) -> bool {
    match call {
        HostCall::ReadRegister { register } => true,
        HostCall::ReadField { field } => match field {
            Field::Limit(_) | Field::Base(_) | Field::AccessRights(_) => true,
            Field::GdtrBase | Field::GdtrLimit | Field::IdtrBase | Field::IdtrLimit | Field::Efer => true,
            _ => false,
        },
        _ => false,
    }
}

/// Recording the value of a read keeps the number of the virtual CPU and
/// puts the value where the read's own value is kept. A call whose value the
/// snapshot does not keep changes nothing.
pub proof fn lemma_recorded(snapshot: Snapshot, call: HostCall, value: Option<u64>)
    ensures
        recorded(snapshot, call, value).cpu == snapshot.cpu,
        is_source(call) ==> value_of(recorded(snapshot, call, value), call) == value,
        !is_source(call) ==> recorded(snapshot, call, value) == snapshot,
{
}

/// Recording the value of a read leaves what is kept of every other read as
/// it was.
pub proof fn lemma_recorded_keeps_others(
    snapshot: Snapshot,
    call: HostCall,
    value: Option<u64>,
    other: HostCall,
)
    requires
        other != call,
    ensures
        value_of(recorded(snapshot, call, value), other) == value_of(snapshot, other),
{
    let after = recorded(snapshot, call, value);
    match call {
        HostCall::ReadRegister { register: Register::Selector(segment) } => {
            lemma_segment_replaced(snapshot, segment, after, other);
        },
        HostCall::ReadField { field: Field::Limit(segment) } => {
            lemma_segment_replaced(snapshot, segment, after, other);
        },
        HostCall::ReadField { field: Field::Base(segment) } => {
            lemma_segment_replaced(snapshot, segment, after, other);
        },
        HostCall::ReadField { field: Field::AccessRights(segment) } => {
            lemma_segment_replaced(snapshot, segment, after, other);
        },
        _ => {},
    }
}

/// The segment that a call reads of, if it reads of one.
spec fn segment_read(call: HostCall) -> Option<Segment> {
    match call {
        HostCall::ReadRegister { register: Register::Selector(segment) } => Some(segment),
        HostCall::ReadField { field: Field::Limit(segment) } => Some(segment),
        HostCall::ReadField { field: Field::Base(segment) } => Some(segment),
        HostCall::ReadField { field: Field::AccessRights(segment) } => Some(segment),
        _ => None,
    }
}

proof fn lemma_segment_replaced(
    snapshot: Snapshot,
    segment: Segment,
    after: Snapshot,
    other: HostCall,
)
    requires
        after == with_segment(snapshot, segment, segment_of(after, segment)),
    ensures
        segment_read(other) != Some(segment) ==> value_of(after, other) == value_of(
            snapshot,
            other,
        ),
        forall|s: Segment| s != segment ==> segment_of(after, s) == segment_of(snapshot, s),
{
}

/// A state dump makes 59 reads, each of something that the snapshot keeps,
/// and no two of the same thing.
pub proof fn lemma_sources()
    ensures
        sources().len() == SNAPSHOT_READS,
        forall|i: int| 0 <= i < sources().len() ==> is_source(#[trigger] sources()[i]),
        forall|i: int, j: int|
            0 <= i < j < sources().len() ==> #[trigger] sources()[i] != #[trigger] sources()[j],
{
    let all = sources();
    assert(all.len() == 59);
    assert forall|i: int| 0 <= i < all.len() implies is_source(#[trigger] all[i]) by {}
    assert forall|i: int, j: int| 0 <= i < j < all.len() implies #[trigger] all[i]
        != #[trigger] all[j] by {
        lemma_source_order(i);
        lemma_source_order(j);
    }
}

/// A state dump reads everything that the snapshot keeps.
pub proof fn lemma_sources_complete(call: HostCall)
    requires
        is_source(call),
    ensures
        sources().contains(call),
{
    let rank = source_rank(call);
    assert(0 <= rank < sources().len());
    assert(sources()[rank] == call);
}

/// A number that tells the sources apart and grows along their order.
spec fn source_rank(call: HostCall) -> int {
    match call {
        HostCall::ReadRegister { register } => match register {
            Register::Rip => 0,
            Register::Rflags => 1,
            Register::Rsp => 2,
            Register::Rbp => 3,
            Register::Rax => 4,
            Register::Rbx => 5,
            Register::Rcx => 6,
            Register::Rdx => 7,
            Register::Rsi => 8,
            Register::Rdi => 9,
            Register::R8 => 10,
            Register::R9 => 11,
            Register::R10 => 12,
            Register::R11 => 13,
            Register::R12 => 14,
            Register::R13 => 15,
            Register::R14 => 16,
            Register::R15 => 17,
            Register::Cr0 => 18,
            Register::Cr2 => 19,
            Register::Cr3 => 20,
            Register::Cr4 => 21,
            Register::Selector(segment) => 22 + selector_rank(segment),
        },
        HostCall::ReadField { field } => match field {
            Field::Limit(segment) => 30 + 3 * segment_rank(segment),
            Field::Base(segment) => 31 + 3 * segment_rank(segment),
            Field::AccessRights(segment) => 32 + 3 * segment_rank(segment),
            Field::GdtrBase => 54,
            Field::GdtrLimit => 55,
            Field::IdtrBase => 56,
            Field::IdtrLimit => 57,
            Field::Efer => 58,
            _ => -1,
        },
        _ => -1,
    }
}

spec fn selector_rank(segment: Segment) -> int {
    match segment {
        Segment::Cs => 0,
        Segment::Ds => 1,
        Segment::Es => 2,
        Segment::Ss => 3,
        Segment::Fs => 4,
        Segment::Gs => 5,
        Segment::Tr => 6,
        Segment::Ldtr => 7,
    }
}

spec fn segment_rank(segment: Segment) -> int {
    match segment {
        Segment::Cs => 0,
        Segment::Ss => 1,
        Segment::Ds => 2,
        Segment::Es => 3,
        Segment::Fs => 4,
        Segment::Gs => 5,
        Segment::Tr => 6,
        Segment::Ldtr => 7,
    }
}

proof fn lemma_source_order(i: int)
    requires
        0 <= i < sources().len(),
    ensures
        source_rank(sources()[i]) == i,
{
}

/// The number of reads that a state dump makes.
pub const SNAPSHOT_READS: usize = 59;

impl Snapshot {
    /// The snapshot of virtual CPU `cpu` in which nothing is available.
    pub fn empty(cpu: u32) -> (snapshot: Snapshot)
        ensures
            snapshot == empty_snapshot(cpu),
    {
        let none = SegmentState { selector: None, base: None, limit: None, rights: None };
        Snapshot {
            cpu,
            rip: None,
            rflags: None,
            rsp: None,
            rbp: None,
            rax: None,
            rbx: None,
            rcx: None,
            rdx: None,
            rsi: None,
            rdi: None,
            r8: None,
            r9: None,
            r10: None,
            r11: None,
            r12: None,
            r13: None,
            r14: None,
            r15: None,
            cr0: None,
            cr2: None,
            cr3: None,
            cr4: None,
            cs: none,
            ss: none,
            ds: none,
            es: none,
            fs: none,
            gs: none,
            tr: none,
            ldtr: none,
            gdtr_base: None,
            gdtr_limit: None,
            idtr_base: None,
            idtr_limit: None,
            efer: None,
        }
    }

    /// The state of one segment register.
    pub fn segment(&self, segment: Segment) -> (state: SegmentState)
        ensures
            state == segment_of(*self, segment),
    {
        match segment {
            Segment::Cs => self.cs,
            Segment::Ss => self.ss,
            Segment::Ds => self.ds,
            Segment::Es => self.es,
            Segment::Fs => self.fs,
            Segment::Gs => self.gs,
            Segment::Tr => self.tr,
            Segment::Ldtr => self.ldtr,
        }
    }

    /// The snapshot with the state of one segment register replaced.
    pub fn set_segment(self, segment: Segment, state: SegmentState) -> (snapshot: Snapshot)
        ensures
            snapshot == with_segment(self, segment, state),
    {
        match segment {
            Segment::Cs => Snapshot { cs: state, ..self },
            Segment::Ss => Snapshot { ss: state, ..self },
            Segment::Ds => Snapshot { ds: state, ..self },
            Segment::Es => Snapshot { es: state, ..self },
            Segment::Fs => Snapshot { fs: state, ..self },
            Segment::Gs => Snapshot { gs: state, ..self },
            Segment::Tr => Snapshot { tr: state, ..self },
            Segment::Ldtr => Snapshot { ldtr: state, ..self },
        }
    }

    /// The snapshot after the read `call` gave `value`.
    pub fn record(self, call: HostCall, value: Option<u64>) -> (snapshot: Snapshot)
        ensures
            snapshot == recorded(self, call, value),
    {
        match call {
            HostCall::ReadRegister { register } => match register {
                Register::Rip => Snapshot { rip: value, ..self },
                Register::Rflags => Snapshot { rflags: value, ..self },
                Register::Rsp => Snapshot { rsp: value, ..self },
                Register::Rbp => Snapshot { rbp: value, ..self },
                Register::Rax => Snapshot { rax: value, ..self },
                Register::Rbx => Snapshot { rbx: value, ..self },
                Register::Rcx => Snapshot { rcx: value, ..self },
                Register::Rdx => Snapshot { rdx: value, ..self },
                Register::Rsi => Snapshot { rsi: value, ..self },
                Register::Rdi => Snapshot { rdi: value, ..self },
                Register::R8 => Snapshot { r8: value, ..self },
                Register::R9 => Snapshot { r9: value, ..self },
                Register::R10 => Snapshot { r10: value, ..self },
                Register::R11 => Snapshot { r11: value, ..self },
                Register::R12 => Snapshot { r12: value, ..self },
                Register::R13 => Snapshot { r13: value, ..self },
                Register::R14 => Snapshot { r14: value, ..self },
                Register::R15 => Snapshot { r15: value, ..self },
                Register::Cr0 => Snapshot { cr0: value, ..self },
                Register::Cr2 => Snapshot { cr2: value, ..self },
                Register::Cr3 => Snapshot { cr3: value, ..self },
                Register::Cr4 => Snapshot { cr4: value, ..self },
                Register::Selector(segment) => {
                    let state = SegmentState { selector: value, ..self.segment(segment) };
                    self.set_segment(segment, state)
                },
            },
            HostCall::ReadField { field } => match field {
                Field::Limit(segment) => {
                    let state = SegmentState { limit: value, ..self.segment(segment) };
                    self.set_segment(segment, state)
                },
                Field::Base(segment) => {
                    let state = SegmentState { base: value, ..self.segment(segment) };
                    self.set_segment(segment, state)
                },
                Field::AccessRights(segment) => {
                    let state = SegmentState { rights: value, ..self.segment(segment) };
                    self.set_segment(segment, state)
                },
                Field::GdtrBase => Snapshot { gdtr_base: value, ..self },
                Field::GdtrLimit => Snapshot { gdtr_limit: value, ..self },
                Field::IdtrBase => Snapshot { idtr_base: value, ..self },
                Field::IdtrLimit => Snapshot { idtr_limit: value, ..self },
                Field::Efer => Snapshot { efer: value, ..self },
                _ => self,
            },
            _ => self,
        }
    }
}

fn push_segment_reads(reads: &mut Vec<HostCall>, segment: Segment)
    ensures
        final(reads)@ == old(reads)@ + segment_sources(segment),
{
    reads.push(HostCall::ReadField { field: Field::Limit(segment) });
    reads.push(HostCall::ReadField { field: Field::Base(segment) });
    reads.push(HostCall::ReadField { field: Field::AccessRights(segment) });
    assert(reads@ =~= old(reads)@ + segment_sources(segment));
}

/// Every read that a state dump makes, in the order in which it makes them.
pub fn snapshot_reads() -> (reads: Vec<HostCall>)
    ensures
        reads@ == sources(),
{
    let mut reads: Vec<HostCall> = Vec::new();
    reads.push(HostCall::ReadRegister { register: Register::Rip });
    reads.push(HostCall::ReadRegister { register: Register::Rflags });
    reads.push(HostCall::ReadRegister { register: Register::Rsp });
    reads.push(HostCall::ReadRegister { register: Register::Rbp });
    reads.push(HostCall::ReadRegister { register: Register::Rax });
    reads.push(HostCall::ReadRegister { register: Register::Rbx });
    reads.push(HostCall::ReadRegister { register: Register::Rcx });
    reads.push(HostCall::ReadRegister { register: Register::Rdx });
    reads.push(HostCall::ReadRegister { register: Register::Rsi });
    reads.push(HostCall::ReadRegister { register: Register::Rdi });
    reads.push(HostCall::ReadRegister { register: Register::R8 });
    reads.push(HostCall::ReadRegister { register: Register::R9 });
    reads.push(HostCall::ReadRegister { register: Register::R10 });
    reads.push(HostCall::ReadRegister { register: Register::R11 });
    reads.push(HostCall::ReadRegister { register: Register::R12 });
    reads.push(HostCall::ReadRegister { register: Register::R13 });
    reads.push(HostCall::ReadRegister { register: Register::R14 });
    reads.push(HostCall::ReadRegister { register: Register::R15 });
    reads.push(HostCall::ReadRegister { register: Register::Cr0 });
    reads.push(HostCall::ReadRegister { register: Register::Cr2 });
    reads.push(HostCall::ReadRegister { register: Register::Cr3 });
    reads.push(HostCall::ReadRegister { register: Register::Cr4 });
    assert(reads@ =~= register_sources());
    reads.push(HostCall::ReadRegister { register: Register::Selector(Segment::Cs) });
    reads.push(HostCall::ReadRegister { register: Register::Selector(Segment::Ds) });
    reads.push(HostCall::ReadRegister { register: Register::Selector(Segment::Es) });
    reads.push(HostCall::ReadRegister { register: Register::Selector(Segment::Ss) });
    reads.push(HostCall::ReadRegister { register: Register::Selector(Segment::Fs) });
    reads.push(HostCall::ReadRegister { register: Register::Selector(Segment::Gs) });
    reads.push(HostCall::ReadRegister { register: Register::Selector(Segment::Tr) });
    reads.push(HostCall::ReadRegister { register: Register::Selector(Segment::Ldtr) });
    assert(reads@ =~= register_sources() + selector_sources());
    push_segment_reads(&mut reads, Segment::Cs);
    push_segment_reads(&mut reads, Segment::Ss);
    push_segment_reads(&mut reads, Segment::Ds);
    push_segment_reads(&mut reads, Segment::Es);
    push_segment_reads(&mut reads, Segment::Fs);
    push_segment_reads(&mut reads, Segment::Gs);
    push_segment_reads(&mut reads, Segment::Tr);
    push_segment_reads(&mut reads, Segment::Ldtr);
    let ghost segments = reads@;
    reads.push(HostCall::ReadField { field: Field::GdtrBase });
    reads.push(HostCall::ReadField { field: Field::GdtrLimit });
    reads.push(HostCall::ReadField { field: Field::IdtrBase });
    reads.push(HostCall::ReadField { field: Field::IdtrLimit });
    reads.push(HostCall::ReadField { field: Field::Efer });
    assert(reads@ =~= segments + table_sources());
    reads
}

} // verus!
