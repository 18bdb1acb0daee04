//! The virtual CPU: its life from creation to release, one host call at a
//! time.
//!
//! An operation of the virtual CPU makes no call on the host. It answers with
//! a [`Step`]: the next call to make, or the end of the operation. The caller
//! makes the call and hands the host's answer to [`EhyveCPU::resume`], which
//! answers with the next step, until the operation has ended.

use vstd::prelude::*;
use crate::error::Error;
use crate::host::{Field, HostCall, HostReply};
use crate::setup::{init_calls, init_plan, INIT_CALLS};
use crate::snapshot::{empty_snapshot, recorded, snapshot_reads, sources, Snapshot, SNAPSHOT_READS};

verus! {

/// Where a virtual CPU stands in its life.
#[derive(Clone, Copy, Debug, PartialEq, Eq)]
pub enum Stage {
    /// Created, not yet initialized.
    Created,
    /// Initialized: the guest can run.
    Ready,
    /// Initialization or the run loop has failed. The virtual CPU can still
    /// be dumped and released, and nothing else.
    Failed,
    /// Released. Nothing can be asked of it any more.
    Destroyed,
}

/// The operation that is under way: the one whose last call the host has yet
/// to answer.
#[derive(Clone, Copy, Debug, PartialEq, Eq)]
pub enum Pending {
    /// No operation is under way.
    Nothing,
    /// Initialization for a guest that starts at `entry_point`. The first
    /// `issued` calls of the pipeline have been handed out.
    Init { entry_point: u64, issued: usize },
    /// The run loop: the guest is running.
    Run,
    /// The run loop: the guest has left, and the reason is being read.
    ExitReason,
    /// A state dump, of which `taken` reads have been answered. `fatal`
    /// holds the exit reason where the run loop dumps the state because
    /// nothing handles that reason.
    Dump { fatal: Option<u16>, taken: usize },
}

/// What to do about an exit of the guest.
#[derive(Clone, Copy, Debug, PartialEq, Eq)]
pub enum ExitAction {
    /// The exit has been dealt with: run the guest again.
    Resume,
    /// Nothing handles the exit: dump the state and end the run loop.
    Fatal,
}

/// What the caller of an operation has to do next.
#[derive(Clone, Copy, Debug, PartialEq, Eq)]
pub enum Step {
    /// Make this call and hand the host's answer to `resume`.
    Call(HostCall),
    /// Initialization has ended well.
    Done,
    /// The state dump that was asked for is complete.
    Dumped(Snapshot),
    /// The operation has ended with an error, or was refused.
    Failed(Error),
}

/// The state of a virtual CPU.
#[derive(Clone, Copy, Debug, PartialEq, Eq)]
pub struct CpuState {
    /// The number of the virtual CPU.
    pub id: u32,
    pub stage: Stage,
    pub pending: Pending,
    /// The state dump that is under way, or else the last that was made.
    pub snapshot: Snapshot,
}

/// A virtual CPU of the hypervisor.
#[derive(Debug)]
pub struct EhyveCPU {
    id: u32,
    stage: Stage,
    pending: Pending,
    snapshot: Snapshot,
    /// The calls of the operation under way.
    script: Vec<HostCall>,
}

/// The reason of an exit: the low 16 bits of the exit-reason field.
pub open spec fn exit_reason(value: u64) -> u16 {
    (value & 0xffff) as u16
}

/// What is done about an exit for `reason`. No reason is handled yet, so
/// every exit is fatal.
pub open spec fn dispatch(reason: u16) -> ExitAction {
    ExitAction::Fatal
}

/// The state of a virtual CPU that has just been created.
pub open spec fn created(id: u32) -> CpuState {
    CpuState { id, stage: Stage::Created, pending: Pending::Nothing, snapshot: empty_snapshot(id) }
}

/// The states that a virtual CPU can be in.
pub open spec fn valid(state: CpuState) -> bool {
    match state.pending {
        Pending::Nothing => true,
        Pending::Init { entry_point, issued } => state.stage == Stage::Created && 1 <= issued
            <= INIT_CALLS,
        Pending::Run => state.stage == Stage::Ready,
        Pending::ExitReason => state.stage == Stage::Ready,
        Pending::Dump { fatal, taken } => state.stage != Stage::Destroyed && taken < SNAPSHOT_READS
            && state.snapshot.cpu == state.id && (fatal is Some ==> state.stage == Stage::Ready),
    }
}

/// The state after the operation under way has ended and left the virtual
/// CPU at `stage`.
pub open spec fn settled(state: CpuState, stage: Stage) -> CpuState {
    CpuState { stage, pending: Pending::Nothing, ..state }
}

/// The error of a call that the host refused.
pub open spec fn refused(call: HostCall, reply: HostReply) -> Error {
    Error::HostCallFailure { call, cause: reply->Err_0 }
}

/// The value that a read gave, if it gave one.
pub open spec fn value_read(reply: HostReply) -> Option<u64> {
    match reply {
        Ok(value) => Some(value),
        Err(_) => None,
    }
}

/// The start of a state dump: the first read is handed out.
pub open spec fn dump_begun(state: CpuState, fatal: Option<u16>) -> (CpuState, Step) {
    (
        CpuState {
            pending: Pending::Dump { fatal, taken: 0 },
            snapshot: empty_snapshot(state.id),
            ..state
        },
        Step::Call(sources()[0]),
    )
}

/// Initialization is asked for a guest that starts at `entry_point`. It is
/// refused unless the virtual CPU has just been created.
pub open spec fn init_begun(state: CpuState, entry_point: u64) -> (CpuState, Step) {
    if state.stage == Stage::Created && state.pending is Nothing {
        (
            CpuState { pending: Pending::Init { entry_point, issued: 1 }, ..state },
            Step::Call(init_calls(entry_point)[0]),
        )
    } else {
        (state, Step::Failed(Error::InvalidArgument))
    }
}

/// The run loop is asked for. It is refused unless the virtual CPU is
/// initialized and idle.
pub open spec fn run_begun(state: CpuState) -> (CpuState, Step) {
    if state.stage == Stage::Ready && state.pending is Nothing {
        (CpuState { pending: Pending::Run, ..state }, Step::Call(HostCall::Run))
    } else {
        (state, Step::Failed(Error::InvalidArgument))
    }
}

/// A state dump is asked for. It is refused while another operation is under
/// way, and after the release.
pub open spec fn print_begun(state: CpuState) -> (CpuState, Step) {
    if state.stage != Stage::Destroyed && state.pending is Nothing {
        dump_begun(state, None)
    } else {
        (state, Step::Failed(Error::InvalidArgument))
    }
}

/// The release is asked for. The first time it hands out the call that
/// releases the hardware, whatever was under way; after that it does nothing.
pub open spec fn released(state: CpuState) -> (CpuState, Option<HostCall>) {
    if state.stage == Stage::Destroyed {
        (state, None)
    } else {
        (settled(state, Stage::Destroyed), Some(HostCall::Destroy))
    }
}

/// The host has answered the last call of the operation under way.
pub open spec fn resumed(state: CpuState, reply: HostReply) -> (CpuState, Step) {
    match state.pending {
        Pending::Nothing => (state, Step::Failed(Error::InvalidArgument)),
        Pending::Init { entry_point, issued } => {
            if reply is Err {
                (
                    settled(state, Stage::Failed),
                    Step::Failed(refused(init_calls(entry_point)[issued - 1], reply)),
                )
            } else if issued < INIT_CALLS {
                (
                    CpuState {
                        pending: Pending::Init { entry_point, issued: (issued + 1) as usize },
                        ..state
                    },
                    Step::Call(init_calls(entry_point)[issued as int]),
                )
            } else {
                (settled(state, Stage::Ready), Step::Done)
            }
        },
        Pending::Run => {
            if reply is Err {
                (settled(state, Stage::Failed), Step::Failed(refused(HostCall::Run, reply)))
            } else {
                (
                    CpuState { pending: Pending::ExitReason, ..state },
                    Step::Call(HostCall::ReadField { field: Field::ExitReason }),
                )
            }
        },
        Pending::ExitReason => {
            if reply is Err {
                (
                    settled(state, Stage::Failed),
                    Step::Failed(refused(HostCall::ReadField { field: Field::ExitReason }, reply)),
                )
            } else {
                let reason = exit_reason(reply->Ok_0);
                match dispatch(reason) {
                    ExitAction::Resume => (
                        CpuState { pending: Pending::Run, ..state },
                        Step::Call(HostCall::Run),
                    ),
                    ExitAction::Fatal => dump_begun(state, Some(reason)),
                }
            }
        },
        Pending::Dump { fatal, taken } => {
            let snapshot = recorded(state.snapshot, sources()[taken as int], value_read(reply));
            if taken + 1 < SNAPSHOT_READS {
                (
                    CpuState {
                        pending: Pending::Dump { fatal, taken: (taken + 1) as usize },
                        snapshot,
                        ..state
                    },
                    Step::Call(sources()[taken + 1]),
                )
            } else {
                match fatal {
                    Some(reason) => (
                        CpuState {
                            stage: Stage::Failed,
                            pending: Pending::Nothing,
                            snapshot,
                            ..state
                        },
                        Step::Failed(Error::UnhandledExitReason { reason, snapshot }),
                    ),
                    None => (
                        CpuState { pending: Pending::Nothing, snapshot, ..state },
                        Step::Dumped(snapshot),
                    ),
                }
            }
        },
    }
}

/// What is done about an exit for `reason`.
pub fn exit_action(reason: u16) -> (action: ExitAction)
    ensures
        action == dispatch(reason),
{
    ExitAction::Fatal
}

impl View for EhyveCPU {
    type V = CpuState;

    closed spec fn view(&self) -> CpuState {
        CpuState { id: self.id, stage: self.stage, pending: self.pending, snapshot: self.snapshot }
    }
}

impl EhyveCPU {
    #[verifier::type_invariant]
    spec fn well_formed(self) -> bool {
        &&& valid(self@)
        &&& self.pending matches Pending::Init { entry_point, .. } ==> self.script@ == init_calls(
            entry_point,
        )
        &&& self.pending is Dump ==> self.script@ == sources()
    }

    /// A virtual CPU of number `id`, created and not yet initialized.
    pub fn new(id: u32) -> (cpu: EhyveCPU)
        ensures
            cpu@ == created(id),
    {
        EhyveCPU {
            id,
            stage: Stage::Created,
            pending: Pending::Nothing,
            snapshot: Snapshot::empty(id),
            script: Vec::new(),
        }
    }

    /// The state of the virtual CPU.
    pub fn state(&self) -> (state: CpuState)
        ensures
            state == self@,
            valid(state),
    {
        proof {
            use_type_invariant(self);
        }
        CpuState { id: self.id, stage: self.stage, pending: self.pending, snapshot: self.snapshot }
    }

    /// The number of the virtual CPU.
    pub fn id(&self) -> (id: u32)
        ensures
            id == self@.id,
    {
        self.id
    }

    /// Ends the operation under way and leaves the virtual CPU at `stage`.
    fn settle(&mut self, stage: Stage)
        ensures
            final(self)@ == settled(old(self)@, stage),
    {
        *self = EhyveCPU {
            id: self.id,
            stage,
            pending: Pending::Nothing,
            snapshot: self.snapshot,
            script: Vec::new(),
        };
    }

    /// Starts a state dump.
    fn begin_dump(&mut self, fatal: Option<u16>) -> (step: Step)
        requires
            old(self)@.stage != Stage::Destroyed,
            fatal is Some ==> old(self)@.stage == Stage::Ready,
        ensures
            (final(self)@, step) == dump_begun(old(self)@, fatal),
    {
        let reads = snapshot_reads();
        proof {
            crate::snapshot::lemma_sources();
        }
        let first = reads[0];
        *self = EhyveCPU {
            id: self.id,
            stage: self.stage,
            pending: Pending::Dump { fatal, taken: 0 },
            snapshot: Snapshot::empty(self.id),
            script: reads,
        };
        Step::Call(first)
    }

    /// Starts the initialization for a guest that starts at `entry_point`,
    /// and hands out its first call. Every call of the pipeline is handed out
    /// in its order, each after the host has answered the one before; the
    /// first that the host refuses ends the initialization with that error.
    /// A virtual CPU that is not newly created refuses the initialization.
    pub fn init(&mut self, entry_point: u64) -> (step: Step)
        ensures
            (final(self)@, step) == init_begun(old(self)@, entry_point),
            valid(final(self)@),
    {
        proof {
            use_type_invariant(&*self);
        }
        match (self.stage, self.pending) {
            (Stage::Created, Pending::Nothing) => {
                let plan = init_plan(entry_point);
                let first = plan[0];
                *self = EhyveCPU {
                    id: self.id,
                    stage: self.stage,
                    pending: Pending::Init { entry_point, issued: 1 },
                    snapshot: self.snapshot,
                    script: plan,
                };
                Step::Call(first)
            },
            _ => Step::Failed(Error::InvalidArgument),
        }
    }

    /// Starts the run loop and hands out the call that runs the guest. After
    /// each exit the loop reads the reason; as nothing handles any reason
    /// yet, it then dumps the state and ends with the error of an unhandled
    /// exit. A virtual CPU that is not initialized, or is busy, refuses to
    /// run.
    pub fn run(&mut self) -> (step: Step)
        ensures
            (final(self)@, step) == run_begun(old(self)@),
            valid(final(self)@),
    {
        proof {
            use_type_invariant(&*self);
        }
        match (self.stage, self.pending) {
            (Stage::Ready, Pending::Nothing) => {
                self.pending = Pending::Run;
                Step::Call(HostCall::Run)
            },
            _ => Step::Failed(Error::InvalidArgument),
        }
    }

    /// Starts a state dump and hands out its first read. The dump ends with
    /// the snapshot; `Snapshot::render` gives its text.
    pub fn print_registers(&mut self) -> (step: Step)
        ensures
            (final(self)@, step) == print_begun(old(self)@),
            valid(final(self)@),
    {
        proof {
            use_type_invariant(&*self);
        }
        match self.pending {
            Pending::Nothing => match self.stage {
                Stage::Destroyed => Step::Failed(Error::InvalidArgument),
                _ => self.begin_dump(None),
            },
            _ => Step::Failed(Error::InvalidArgument),
        }
    }

    /// Releases the virtual CPU: hands out the call that releases the
    /// hardware, once. A virtual CPU that is already released hands out
    /// nothing and stays as it is.
    pub fn destroy(&mut self) -> (call: Option<HostCall>)
        ensures
            (final(self)@, call) == released(old(self)@),
            valid(final(self)@),
    {
        match self.stage {
            Stage::Destroyed => {
                proof {
                    use_type_invariant(&*self);
                }
                None
            },
            _ => {
                self.settle(Stage::Destroyed);
                Some(HostCall::Destroy)
            },
        }
    }

    /// Takes the host's answer to the call that was handed out last, and
    /// hands out the next step of the operation under way.
    pub fn resume(&mut self, reply: HostReply) -> (step: Step)
        ensures
            (final(self)@, step) == resumed(old(self)@, reply),
            valid(final(self)@),
    {
        proof {
            use_type_invariant(&*self);
            crate::snapshot::lemma_sources();
        }
        match self.pending {
            Pending::Nothing => Step::Failed(Error::InvalidArgument),
            Pending::Init { entry_point, issued } => match reply {
                Err(cause) => {
                    let call = self.script[issued - 1];
                    self.settle(Stage::Failed);
                    Step::Failed(Error::HostCallFailure { call, cause })
                },
                Ok(_) => {
                    if issued < INIT_CALLS {
                        let call = self.script[issued];
                        self.pending = Pending::Init { entry_point, issued: issued + 1 };
                        Step::Call(call)
                    } else {
                        self.settle(Stage::Ready);
                        Step::Done
                    }
                },
            },
            Pending::Run => match reply {
                Err(cause) => {
                    self.settle(Stage::Failed);
                    Step::Failed(Error::HostCallFailure { call: HostCall::Run, cause })
                },
                Ok(_) => {
                    self.pending = Pending::ExitReason;
                    Step::Call(HostCall::ReadField { field: Field::ExitReason })
                },
            },
            Pending::ExitReason => match reply {
                Err(cause) => {
                    self.settle(Stage::Failed);
                    Step::Failed(
                        Error::HostCallFailure {
                            call: HostCall::ReadField { field: Field::ExitReason },
                            cause,
                        },
                    )
                },
                Ok(value) => {
                    assert(value & 0xffff <= 0xffff) by (bit_vector);
                    let reason: u16 = (value & 0xffff) as u16;
                    match exit_action(reason) {
                        ExitAction::Resume => {
                            self.pending = Pending::Run;
                            Step::Call(HostCall::Run)
                        },
                        ExitAction::Fatal => self.begin_dump(Some(reason)),
                    }
                },
            },
            Pending::Dump { fatal, taken } => {
                let value: Option<u64> = match reply {
                    Ok(value) => Some(value),
                    Err(_) => None,
                };
                let snapshot = self.snapshot.record(self.script[taken], value);
                proof {
                    crate::snapshot::lemma_recorded(
                        self.snapshot,
                        self.script@[taken as int],
                        value,
                    );
                }
                if taken + 1 < SNAPSHOT_READS {
                    let call = self.script[taken + 1];
                    self.snapshot = snapshot;
                    self.pending = Pending::Dump { fatal, taken: taken + 1 };
                    Step::Call(call)
                } else {
                    match fatal {
                        Some(reason) => {
                            self.snapshot = snapshot;
                            self.settle(Stage::Failed);
                            Step::Failed(Error::UnhandledExitReason { reason, snapshot })
                        },
                        None => {
                            self.snapshot = snapshot;
                            self.settle(self.stage);
                            Step::Dumped(snapshot)
                        },
                    }
                }
            },
        }
    }
}

} // verus!
