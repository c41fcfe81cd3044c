//! What holds of every run, proved from the contracts of the engine.

use crate::engine::{consumed, Engine, Phase, Step};
use crate::error::ErrorKind;
use crate::session::{SessionState, UploadRef, UploadSession};
use vstd::prelude::*;

verus! {

impl Step {
    /// The concatenation that a step announces: the source key and the
    /// target it goes to.
    pub open spec fn announcement(self) -> Option<(Seq<char>, Seq<char>)> {
        match self {
            Step::Report { key, target } => Some((key@, target@)),
            Step::Create { key, target } => Some((key@, target@)),
            Step::Copy(c) => Some((c.source_key@, c.target_key@)),
            _ => None,
        }
    }

    /// Whether the step asks the store to create or change anything.
    pub open spec fn mutates(self) -> bool {
        match self {
            Step::Create { .. } => true,
            Step::Copy(_) => true,
            Step::Fatal { error, aborts } => aborts@.len() > 0,
            _ => false,
        }
    }
}

/// A key that resolves to itself is skipped and leaves the engine as it
/// was: it joins no session.
pub proof fn self_target_is_excluded(before: Engine, after: Engine, key: Seq<char>, step: Step)
    requires
        Engine::accepted(before, after, key, key, step),
    ensures
        step is Skip,
        after == before,
{
}

/// No session of a well-formed engine holds its own target among its
/// sources.
pub proof fn no_session_feeds_itself(engine: Engine, i: int, j: int)
    requires
        engine.wf(),
        0 <= i < engine.sessions@.len(),
        0 <= j < engine.sessions@[i].source_keys@.len(),
    ensures
        engine.sessions@[i].keys()[j] != engine.sessions@[i].target_key@,
{
    assert(engine.sessions@[i].wf());
    assert(engine.sessions@[i].source_keys@[j]@ != engine.sessions@[i].target_key@);
}

/// A copy into a known session carries the number that follows the count of
/// sources already there, and once the copy is recorded its source stands
/// at exactly that position, behind the unchanged earlier sources.
pub proof fn copy_number_is_next_position(
    before: Engine,
    asked: Engine,
    after: Engine,
    key: Seq<char>,
    target: Seq<char>,
    step: Step,
)
    requires
        before.wf(),
        before.phase is Discovering,
        Engine::accepted(before, asked, key, target, step),
        step is Copy,
        Engine::recorded(asked, after),
    ensures
        ({
            let i = asked.active as int;
            let number = step->Copy_0.part_number as int;
            let keys = after.sessions@[i].keys();
            &&& before.holds(i, target)
            &&& number == keys.len()
            &&& number == UploadSession::part_number(keys.len() - 1)
            &&& keys[number - 1] == key
            &&& keys.drop_last() == before.sessions@[i].keys()
        }),
{
    let i = asked.active as int;
    let keys = after.sessions@[i].keys();
    assert(keys.drop_last() =~= before.sessions@[i].keys());
}

/// The first copy into a session carries the number one: once the upload
/// is created and the copy recorded, the object that caused the session is
/// its only source, at the position of that number.
pub proof fn first_copy_is_number_one(
    before: Engine,
    asked: Engine,
    after: Engine,
    upload_id: Seq<char>,
)
    requires
        before.wf(),
        before.phase is AwaitingCreate,
        Engine::opened(before, asked, upload_id),
        Engine::recorded(asked, after),
    ensures
        after.sessions@[before.active as int].keys() == seq![before.pending_key@],
        UploadSession::part_number(0) == 1,
{
    assert(after.sessions@[before.active as int].keys() =~= seq![before.pending_key@]);
}

/// A matching object below the minimum size ends the run with a size error
/// that names its key; the step asks for no upload and no copy, and the
/// engine is left in the failed phase, from which none can be asked.
pub proof fn small_source_ends_the_run(before: Engine, after: Engine, key: Seq<char>, step: Step)
    requires
        before.wf(),
        !(before.phase is Finalizing),
        Engine::rejected(before, after, key, step),
    ensures
        step is Fatal,
        step->Fatal_error.kind == ErrorKind::SizeConstraint,
        step->Fatal_error.message@ == "Unable to concat files below 5MB: "@ + key,
        !(step is Create),
        !(step is Copy),
        after.phase is Failed,
        before.sessions@.len() == 0 ==> after.sessions@.len() == 0 && !step.mutates(),
{
}

/// In a dry run a key is skipped or reported, and the engine stays as it
/// was: nothing is asked of the store.
pub proof fn dry_run_asks_nothing(
    before: Engine,
    after: Engine,
    key: Seq<char>,
    target: Seq<char>,
    step: Step,
)
    requires
        before.wf(),
        before.dry_run,
        Engine::accepted(before, after, key, target, step),
    ensures
        !step.mutates(),
        after == before,
        after.sessions@.len() == 0,
{
}

/// In a dry run the end of discovery, and a failure, name no upload to
/// complete or abort, and no key is deleted.
pub proof fn dry_run_settles_nothing(before: Engine, after: Engine, refs: Seq<UploadRef>)
    requires
        before.wf(),
        before.dry_run,
        Engine::finishing(before, after, refs) || Engine::failed(before, after, refs),
    ensures
        refs.len() == 0,
        after.cleanup_plan() == Seq::<Seq<char>>::empty(),
{
    reveal_with_fuel(consumed, 1);
}

/// A dry run announces for a key what a live run announces for it.
pub proof fn dry_run_reports_as_live(
    dry: Engine,
    dry_after: Engine,
    live: Engine,
    live_after: Engine,
    key: Seq<char>,
    target: Seq<char>,
    dry_step: Step,
    live_step: Step,
)
    requires
        dry.wf(),
        live.wf(),
        dry.dry_run,
        !live.dry_run,
        Engine::accepted(dry, dry_after, key, target, dry_step),
        Engine::accepted(live, live_after, key, target, live_step),
    ensures
        dry_step.announcement() == live_step.announcement(),
{
}

/// Sessions of which none is completed give nothing to delete.
pub proof fn nothing_completed_nothing_consumed(sessions: Seq<UploadSession>, n: int)
    requires
        n <= sessions.len(),
        forall|i: int| 0 <= i < n ==> !((#[trigger] sessions[i]).state is Completed),
    ensures
        consumed(sessions, n) == Seq::<Seq<char>>::empty(),
    decreases n,
{
    if n > 0 {
        nothing_completed_nothing_consumed(sessions, n - 1);
    }
}

/// When discovery fails, every session that had been opened is aborted and
/// named among the aborts, no session is completed, and no key is deleted.
pub proof fn failure_aborts_every_open_session(before: Engine, after: Engine, aborts: Seq<UploadRef>)
    requires
        before.wf(),
        !(before.phase is Finalizing),
        Engine::failed(before, after, aborts),
    ensures
        forall|i: int|
            0 <= i < before.sessions@.len() && (#[trigger] before.sessions@[i]).state is Open ==> {
                &&& i < aborts.len()
                &&& aborts[i].session == i
                &&& aborts[i].target_key@ == before.sessions@[i].target_key@
                &&& after.sessions@[i].state is Aborted
            },
        forall|j: int|
            0 <= j < aborts.len() ==> (#[trigger] before.sessions@[j]).state is Open,
        forall|i: int|
            0 <= i < after.sessions@.len() ==> !((#[trigger] after.sessions@[i]).state is Completed),
        after.cleanup_plan() == Seq::<Seq<char>>::empty(),
{
    assert forall|i: int|
        0 <= i < before.sessions@.len() && (#[trigger] before.sessions@[i]).state is Open implies i
        < aborts.len() by {
        match before.phase {
            Phase::AwaitingCreate => {
                assert(before.sessions@[before.sessions@.len() - 1].state is Pending);
            },
            _ => {},
        }
    }
    nothing_completed_nothing_consumed(after.sessions@, after.sessions@.len() as int);
}

/// Whether every session of `before` is still there in `after`, for the
/// same target, in a state that does not rank below the one it had.
pub open spec fn advanced(before: Engine, after: Engine) -> bool {
    &&& before.sessions@.len() <= after.sessions@.len()
    &&& forall|i: int|
        0 <= i < before.sessions@.len() ==> {
            &&& (#[trigger] after.sessions@[i]).target_key@ == before.sessions@[i].target_key@
            &&& before.sessions@[i].state.rank() <= after.sessions@[i].state.rank()
            &&& before.sessions@[i].state.terminal() ==> after.sessions@[i].state
                == before.sessions@[i].state
        }
}

/// Taking a key removes no session and moves none backwards.
pub proof fn accepting_advances(
    before: Engine,
    after: Engine,
    key: Seq<char>,
    target: Seq<char>,
    step: Step,
)
    requires
        before.wf(),
        before.phase is Discovering,
        Engine::accepted(before, after, key, target, step),
    ensures
        advanced(before, after),
{
    if target != key && !before.dry_run && !before.has_target(target) {
        assert forall|i: int| 0 <= i < before.sessions@.len() implies (
        #[trigger] after.sessions@[i]) == before.sessions@[i] by {
            assert(after.sessions@.drop_last()[i] == after.sessions@[i]);
        }
    }
}

/// The answers of the store to a creation and to a copy move no session
/// backwards.
pub proof fn answers_advance(before: Engine, after: Engine, upload_id: Seq<char>)
    requires
        before.wf(),
        (before.phase is AwaitingCreate && Engine::opened(before, after, upload_id)) || (
        before.phase is AwaitingCopy && Engine::recorded(before, after)),
    ensures
        advanced(before, after),
{
}

/// Neither a failure of discovery nor its end moves a session backwards.
pub proof fn endings_advance(before: Engine, after: Engine, refs: Seq<UploadRef>)
    requires
        before.wf(),
        (!(before.phase is Finalizing) && Engine::failed(before, after, refs)) || (
        before.phase is Discovering && Engine::finishing(before, after, refs)),
    ensures
        advanced(before, after),
{
}

/// Settling a session puts it into a terminal state above the one it had
/// and leaves the others as they were.
pub proof fn settling_is_final(before: Engine, after: Engine, i: int, state: SessionState)
    requires
        before.wf(),
        before.phase is Finalizing,
        0 <= i < before.sessions@.len(),
        before.sessions@[i].state is Completing,
        state is Completed || state is Aborted,
        Engine::settled(before, after, i, state),
    ensures
        advanced(before, after),
        after.sessions@[i].state.terminal(),
        before.sessions@[i].state.rank() < after.sessions@[i].state.rank(),
        forall|k: int|
            0 <= k < before.sessions@.len() && k != i ==> after.sessions@[k].state
                == before.sessions@[k].state,
{
}

} // verus!
