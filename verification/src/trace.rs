//! What the virtual CPU does over a whole operation: the calls that it hands
//! out, one after another, when the host answers each of them.

use vstd::prelude::*;
use crate::error::Error;
use crate::host::{Field, HostCall, HostReply};
use crate::arch::{
    BOOT_PML4, CR0_ENABLE_PAGING, CR0_PROTECTED_MODE, CR4_ENABLE_PAE, EFER_LMA, EFER_LME,
    RFLAGS_RESERVED,
};
use crate::setup::{init_calls, lemma_init_enters_long_mode, value_written, INIT_CALLS};
use crate::snapshot::{
    empty_snapshot, lemma_recorded, lemma_recorded_keeps_others, lemma_sources, recorded, sources,
    value_of, Snapshot, SNAPSHOT_READS,
};
use crate::vcpu::{
    created, dump_begun, exit_reason, init_begun, print_begun, refused, released, resumed,
    run_begun, settled, valid, value_read, CpuState, Pending, Stage, Step,
};

verus! {

/// The course of an operation that stands at `step` in `state`, when the
/// host's answers are `replies`, one to each call in turn: the calls handed
/// out, the state at the end, and the last step. The course ends with the
/// first step that is no call, or with the call that no answer is left for.
pub open spec fn driven(state: CpuState, step: Step, replies: Seq<HostReply>) -> (
    Seq<HostCall>,
    CpuState,
    Step,
)
    decreases replies.len(),
{
    match step {
        Step::Call(call) => {
            if replies.len() == 0 {
                (seq![call], state, step)
            } else {
                let (next, then) = resumed(state, replies[0]);
                let rest = driven(next, then, replies.skip(1));
                (seq![call] + rest.0, rest.1, rest.2)
            }
        },
        _ => (Seq::empty(), state, step),
    }
}

/// The snapshot after the reads of a state dump from number `from` on have
/// been answered by `replies`, where `snapshot` holds what was read before.
pub open spec fn collected(snapshot: Snapshot, replies: Seq<HostReply>, from: int) -> Snapshot
    decreases SNAPSHOT_READS - from,
{
    if 0 <= from < SNAPSHOT_READS && replies.len() > 0 {
        collected(
            recorded(snapshot, sources()[from], value_read(replies[0])),
            replies.skip(1),
            from + 1,
        )
    } else {
        snapshot
    }
}

/// Every transition leads from a state that a virtual CPU can be in to
/// another such state.
pub proof fn lemma_valid_preserved(state: CpuState, entry_point: u64, reply: HostReply)
    requires
        valid(state),
    ensures
        valid(created(state.id)),
        valid(init_begun(state, entry_point).0),
        valid(run_begun(state).0),
        valid(print_begun(state).0),
        valid(released(state).0),
        valid(resumed(state, reply).0),
{
    lemma_sources();
    match state.pending {
        Pending::Dump { fatal, taken } => {
            lemma_recorded(state.snapshot, sources()[taken as int], value_read(reply));
        },
        _ => {},
    }
}

/// The number of a virtual CPU never changes.
pub proof fn lemma_id_is_fixed(state: CpuState, entry_point: u64, reply: HostReply)
    ensures
        created(state.id).id == state.id,
        init_begun(state, entry_point).0.id == state.id,
        run_begun(state).0.id == state.id,
        print_begun(state).0.id == state.id,
        released(state).0.id == state.id,
        resumed(state, reply).0.id == state.id,
{
}

/// A release that follows a release hands out no call and changes nothing:
/// the hardware is released once. A released virtual CPU refuses every
/// operation without a call on the host.
pub proof fn lemma_release_once(state: CpuState, entry_point: u64, reply: HostReply)
    requires
        valid(state),
    ensures
        released(state).0.stage == Stage::Destroyed,
        released(released(state).0) == (released(state).0, None::<HostCall>),
        init_begun(released(state).0, entry_point).1 == Step::Failed(Error::InvalidArgument),
        run_begun(released(state).0).1 == Step::Failed(Error::InvalidArgument),
        print_begun(released(state).0).1 == Step::Failed(Error::InvalidArgument),
        resumed(released(state).0, reply).1 == Step::Failed(Error::InvalidArgument),
{
}

/// A virtual CPU that has failed and is idle refuses to be initialized and
/// to run, and makes nothing of an answer: no call is handed out and the
/// state stays as it is.
pub proof fn lemma_failed_is_final(state: CpuState, entry_point: u64, reply: HostReply)
    requires
        state.stage == Stage::Failed,
        state.pending is Nothing,
    ensures
        init_begun(state, entry_point) == (state, Step::Failed(Error::InvalidArgument)),
        run_begun(state) == (state, Step::Failed(Error::InvalidArgument)),
        resumed(state, reply) == (state, Step::Failed(Error::InvalidArgument)),
{
}

/// The rest of an initialization, from the call that is awaited on: `good`
/// answers are well, and then either the pipeline is through or the next
/// answer is a refusal.
proof fn lemma_init_rest(state: CpuState, replies: Seq<HostReply>, good: int)
    requires
        valid(state),
        state.pending is Init,
        0 <= good <= replies.len(),
        forall|i: int| 0 <= i < good ==> (#[trigger] replies[i]) is Ok,
        good <= INIT_CALLS - state.pending->issued + 1,
        good < INIT_CALLS - state.pending->issued + 1 ==> good < replies.len() && replies[good] is Err,
    ensures
        ({
            let plan = init_calls(state.pending->entry_point);
            let issued = state.pending->issued as int;
            let course = driven(state, Step::Call(plan[issued - 1]), replies);
            if good == INIT_CALLS - issued + 1 {
                course == (
                    plan.subrange(issued - 1, INIT_CALLS as int),
                    settled(state, Stage::Ready),
                    Step::Done,
                )
            } else {
                course == (
                    plan.subrange(issued - 1, issued + good),
                    settled(state, Stage::Failed),
                    Step::Failed(refused(plan[issued - 1 + good], replies[good])),
                )
            }
        }),
    decreases good,
{
    let plan = init_calls(state.pending->entry_point);
    let entry_point = state.pending->entry_point;
    let issued = state.pending->issued as int;
    assert(plan.len() == INIT_CALLS);
    let (next, then) = resumed(state, replies[0]);
    let rest = driven(next, then, replies.skip(1));
    if good == 0 {
        assert(rest.0 =~= Seq::<HostCall>::empty());
        assert(seq![plan[issued - 1]] + rest.0 =~= plan.subrange(issued - 1, issued));
    } else {
        assert(replies[0] is Ok);
        if issued < INIT_CALLS {
            let shorter = replies.skip(1);
            assert forall|i: int| 0 <= i < good - 1 implies (#[trigger] shorter[i]) is Ok by {
                assert(shorter[i] == replies[i + 1]);
            }
            if good < INIT_CALLS - issued + 1 {
                assert(shorter[good - 1] == replies[good]);
            }
            lemma_init_rest(next, shorter, good - 1);
            if good == INIT_CALLS - issued + 1 {
                assert(seq![plan[issued - 1]] + plan.subrange(issued, INIT_CALLS as int)
                    =~= plan.subrange(issued - 1, INIT_CALLS as int));
            } else {
                assert(seq![plan[issued - 1]] + plan.subrange(issued, issued + good)
                    =~= plan.subrange(issued - 1, issued + good));
            }
        } else {
            assert(rest.0 =~= Seq::<HostCall>::empty());
            assert(seq![plan[issued - 1]] + rest.0 =~= plan.subrange(
                issued - 1,
                INIT_CALLS as int,
            ));
        }
    }
}

/// Where the host answers every call well, the initialization of a new
/// virtual CPU hands out the whole pipeline in its order and nothing else,
/// ends well, and leaves the virtual CPU ready.
pub proof fn lemma_init_succeeds(id: u32, entry_point: u64, replies: Seq<HostReply>)
    requires
        replies.len() >= INIT_CALLS,
        forall|i: int| 0 <= i < INIT_CALLS ==> (#[trigger] replies[i]) is Ok,
    ensures
        ({
            let (state, step) = init_begun(created(id), entry_point);
            driven(state, step, replies) == (
                init_calls(entry_point),
                settled(created(id), Stage::Ready),
                Step::Done,
            )
        }),
{
    let (state, step) = init_begun(created(id), entry_point);
    let plan = init_calls(entry_point);
    assert(plan.len() == INIT_CALLS);
    lemma_init_rest(state, replies, INIT_CALLS as int);
    assert(plan.subrange(0, INIT_CALLS as int) =~= plan);
}

/// After an initialization that has ended well, the host holds the guest at
/// its entry point with the flags of boot, and in long mode: of the calls
/// that were made, the last write to RIP is the entry point and that to
/// RFLAGS is 2; the last to CR0 has protected mode and paging set, that to
/// CR4 the physical address extension, that to EFER long mode enabled and
/// active; and CR3 points to the boot page tables.
pub proof fn lemma_init_leaves_long_mode(id: u32, entry_point: u64, replies: Seq<HostReply>)
    requires
        replies.len() >= INIT_CALLS,
        forall|i: int| 0 <= i < INIT_CALLS ==> (#[trigger] replies[i]) is Ok,
    ensures
        ({
            let (state, step) = init_begun(created(id), entry_point);
            let (calls, after, last) = driven(state, step, replies);
            &&& last == Step::Done
            &&& after.stage == Stage::Ready
            &&& value_written(calls, Field::Rip) == Some(entry_point)
            &&& value_written(calls, Field::Rflags) == Some(RFLAGS_RESERVED)
            &&& value_written(calls, Field::Cr0) matches Some(cr0) && cr0 & (CR0_PROTECTED_MODE
                | CR0_ENABLE_PAGING) == CR0_PROTECTED_MODE | CR0_ENABLE_PAGING
            &&& value_written(calls, Field::Cr4) matches Some(cr4) && cr4 & CR4_ENABLE_PAE
                == CR4_ENABLE_PAE
            &&& value_written(calls, Field::Efer) matches Some(efer) && efer & (EFER_LME | EFER_LMA)
                == EFER_LME | EFER_LMA
            &&& value_written(calls, Field::Cr3) == Some(BOOT_PML4)
        }),
{
    lemma_init_succeeds(id, entry_point, replies);
    lemma_init_enters_long_mode(entry_point);
    assert(0x20u64 & 0x20u64 == 0x20u64) by (bit_vector);
}

/// The guest runs only on a virtual CPU that is ready, and a virtual CPU
/// becomes ready in one way only: by the host's good answer to the last call
/// of the initialization pipeline.
pub proof fn lemma_run_needs_init(state: CpuState, entry_point: u64, reply: HostReply)
    requires
        valid(state),
    ensures
        run_begun(state).1 is Call ==> state.stage == Stage::Ready,
        resumed(state, reply).1 == Step::Call(HostCall::Run) ==> state.stage == Stage::Ready,
        init_begun(state, entry_point).0.stage == state.stage,
        run_begun(state).0.stage == state.stage,
        print_begun(state).0.stage == state.stage,
        released(state).0.stage == Stage::Ready ==> state.stage == Stage::Ready,
        resumed(state, reply).0.stage == Stage::Ready && state.stage != Stage::Ready ==> reply is Ok
            && state.pending == (Pending::Init {
            entry_point: state.pending->entry_point,
            issued: INIT_CALLS,
        }),
{
    lemma_sources();
    if state.pending is Init {
        lemma_no_run_in_pipeline(state.pending->entry_point, state.pending->issued as int);
    }
}

/// The pipeline holds no call that runs the guest.
proof fn lemma_no_run_in_pipeline(entry_point: u64, index: int)
    ensures
        0 <= index < INIT_CALLS ==> init_calls(entry_point)[index] != HostCall::Run,
{
}

/// Where the host refuses the call of number `failing` after it has answered
/// all before it well, the initialization hands out the pipeline up to that
/// call and no call after it, ends with the error of that call, and leaves
/// the virtual CPU failed, whatever answers would follow.
pub proof fn lemma_init_fails_fast(
    id: u32,
    entry_point: u64,
    replies: Seq<HostReply>,
    failing: int,
)
    requires
        0 <= failing < INIT_CALLS,
        failing < replies.len(),
        forall|i: int| 0 <= i < failing ==> (#[trigger] replies[i]) is Ok,
        replies[failing] is Err,
    ensures
        ({
            let (state, step) = init_begun(created(id), entry_point);
            driven(state, step, replies) == (
                init_calls(entry_point).take(failing + 1),
                settled(created(id), Stage::Failed),
                Step::Failed(refused(init_calls(entry_point)[failing], replies[failing])),
            )
        }),
{
    let (state, step) = init_begun(created(id), entry_point);
    let plan = init_calls(entry_point);
    assert(plan.len() == INIT_CALLS);
    lemma_init_rest(state, replies, failing);
    assert(plan.subrange(0, failing + 1) =~= plan.take(failing + 1));
}

/// The end of a state dump: the state and the step that the last read leads
/// to, when the dump has collected `snapshot`.
pub open spec fn dump_ended(state: CpuState, snapshot: Snapshot) -> (CpuState, Step) {
    match state.pending->fatal {
        Some(reason) => (
            CpuState { stage: Stage::Failed, pending: Pending::Nothing, snapshot, ..state },
            Step::Failed(Error::UnhandledExitReason { reason, snapshot }),
        ),
        None => (CpuState { pending: Pending::Nothing, snapshot, ..state }, Step::Dumped(snapshot)),
    }
}

/// The rest of a state dump, from the read that is awaited on.
proof fn lemma_dump_rest(state: CpuState, replies: Seq<HostReply>)
    requires
        valid(state),
        state.pending is Dump,
        replies.len() >= SNAPSHOT_READS - state.pending->taken,
    ensures
        ({
            let taken = state.pending->taken as int;
            let snapshot = collected(state.snapshot, replies, taken);
            driven(state, Step::Call(sources()[taken]), replies) == (
                sources().subrange(taken, SNAPSHOT_READS as int),
                dump_ended(state, snapshot).0,
                dump_ended(state, snapshot).1,
            )
        }),
    decreases SNAPSHOT_READS - state.pending->taken,
{
    lemma_sources();
    let taken = state.pending->taken as int;
    let (next, then) = resumed(state, replies[0]);
    let rest = driven(next, then, replies.skip(1));
    let after = recorded(state.snapshot, sources()[taken], value_read(replies[0]));
    lemma_recorded(state.snapshot, sources()[taken], value_read(replies[0]));
    if taken + 1 < SNAPSHOT_READS {
        lemma_dump_rest(next, replies.skip(1));
        assert(seq![sources()[taken]] + sources().subrange(taken + 1, SNAPSHOT_READS as int)
            =~= sources().subrange(taken, SNAPSHOT_READS as int));
    } else {
        assert(rest.0 =~= Seq::<HostCall>::empty());
        assert(seq![sources()[taken]] + rest.0 =~= sources().subrange(
            taken,
            SNAPSHOT_READS as int,
        ));
        assert(collected(after, replies.skip(1), taken + 1) == after);
    }
}

/// What a dump has collected of each read: the answers to the reads from
/// number `from` on, and before that what the snapshot held already.
proof fn lemma_collected_values(snapshot: Snapshot, replies: Seq<HostReply>, from: int, i: int)
    requires
        0 <= from <= SNAPSHOT_READS,
        replies.len() >= SNAPSHOT_READS - from,
        0 <= i < SNAPSHOT_READS,
    ensures
        collected(snapshot, replies, from).cpu == snapshot.cpu,
        i >= from ==> value_of(collected(snapshot, replies, from), sources()[i]) == value_read(
            replies[i - from],
        ),
        i < from ==> value_of(collected(snapshot, replies, from), sources()[i]) == value_of(
            snapshot,
            sources()[i],
        ),
    decreases SNAPSHOT_READS - from,
{
    lemma_sources();
    if from < SNAPSHOT_READS {
        let after = recorded(snapshot, sources()[from], value_read(replies[0]));
        lemma_recorded(snapshot, sources()[from], value_read(replies[0]));
        lemma_collected_values(after, replies.skip(1), from + 1, i);
        if i < from {
            lemma_recorded_keeps_others(
                snapshot,
                sources()[from],
                value_read(replies[0]),
                sources()[i],
            );
        } else if i > from {
            assert(replies.skip(1)[i - from - 1] == replies[i - from]);
        }
    }
}

/// A state dump that is asked of an idle virtual CPU hands out every read of
/// the dump in its order and nothing else, and ends with the snapshot, in
/// which each read's own place holds what the host answered to it:
/// unavailable where the host refused. The dump leaves the virtual CPU at
/// the stage at which it was.
pub proof fn lemma_dump_collects(state: CpuState, replies: Seq<HostReply>, i: int)
    requires
        valid(state),
        state.stage != Stage::Destroyed,
        state.pending is Nothing,
        replies.len() >= SNAPSHOT_READS,
        0 <= i < SNAPSHOT_READS,
    ensures
        ({
            let (begun, step) = print_begun(state);
            let snapshot = collected(empty_snapshot(state.id), replies, 0);
            &&& driven(begun, step, replies) == (
                sources(),
                CpuState { snapshot, ..state },
                Step::Dumped(snapshot),
            )
            &&& snapshot.cpu == state.id
            &&& value_of(snapshot, sources()[i]) == value_read(replies[i])
        }),
{
    lemma_sources();
    let (begun, step) = print_begun(state);
    lemma_dump_rest(begun, replies);
    lemma_collected_values(empty_snapshot(state.id), replies, 0, i);
    assert(sources().subrange(0, SNAPSHOT_READS as int) =~= sources());
}

/// The run loop of a ready virtual CPU, where the guest runs and leaves, and
/// the host gives `value` as the exit reason: the loop then reads the whole
/// state and ends with the error of an unhandled exit, which carries the low
/// 16 bits of `value` and the snapshot. The guest is not run again, and the
/// virtual CPU is left failed.
pub proof fn lemma_unhandled_exit(state: CpuState, value: u64, replies: Seq<HostReply>)
    requires
        valid(state),
        state.stage == Stage::Ready,
        state.pending is Nothing,
        replies.len() >= SNAPSHOT_READS + 2,
        replies[0] is Ok,
        replies[1] == Ok::<u64, crate::host::HostError>(value),
    ensures
        ({
            let (begun, step) = run_begun(state);
            let snapshot = collected(empty_snapshot(state.id), replies.skip(2), 0);
            driven(begun, step, replies) == (
                seq![HostCall::Run, HostCall::ReadField { field: Field::ExitReason }] + sources(),
                CpuState { stage: Stage::Failed, snapshot, ..state },
                Step::Failed(Error::UnhandledExitReason { reason: exit_reason(value), snapshot }),
            )
        }),
{
    lemma_sources();
    let (begun, step) = run_begun(state);
    let (reading, second) = resumed(begun, replies[0]);
    let (dumping, third) = resumed(reading, replies[1]);
    let tail = replies.skip(1).skip(1);
    assert(tail =~= replies.skip(2));
    assert(replies.skip(1)[0] == replies[1]);
    assert((dumping, third) == dump_begun(reading, Some(exit_reason(value))));
    lemma_dump_rest(dumping, tail);
    assert(sources().subrange(0, SNAPSHOT_READS as int) =~= sources());
    let rest = driven(dumping, third, tail);
    let middle = driven(reading, second, replies.skip(1));
    assert(middle.0 == seq![HostCall::ReadField { field: Field::ExitReason }] + rest.0);
    assert(seq![HostCall::Run] + middle.0 =~= seq![
        HostCall::Run,
        HostCall::ReadField { field: Field::ExitReason },
    ] + sources());
}

} // verus!
