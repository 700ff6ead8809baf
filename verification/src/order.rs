//! The order of the steps of a deployment, over every course that the
//! reports can give it.

use crate::deploy::{
    action_of, failure_of, fits, next, rank, result_of, started, ActionView, DeploymentView,
    EventView, Step,
};
use crate::error::{ErrorKind, HookPhase};
use crate::hook::HookResultView;
use crate::manifest::ArtifactView;
use vstd::prelude::*;

verus! {

/// The deployment after a series of reports, taken one after the other.
pub open spec fn run(state: DeploymentView, events: Seq<EventView>) -> DeploymentView
    decreases events.len(),
{
    if events.len() == 0 {
        state
    } else {
        next(run(state, events.drop_last()), events.last())
    }
}

/// Whether the step is due at some point of the series of reports: at the
/// start, or after one of them.
pub open spec fn visits(state: DeploymentView, events: Seq<EventView>, step: Step) -> bool {
    exists|k: int|
        0 <= k <= events.len() && run(state, #[trigger] events.subrange(0, k)).step == step
}

/// A report never takes a deployment back: the step that is due after it
/// comes no earlier in the order, and later where the report was about the
/// step that was due. The artifact and the attempt stay.
pub proof fn lemma_report_moves_on(state: DeploymentView, event: EventView)
    ensures
        rank(next(state, event).step) >= rank(state.step),
        fits(state.step, event) ==> rank(next(state, event).step) > rank(state.step),
        next(state, event).artifact == state.artifact,
        next(state, event).attempt == state.attempt,
{
}

/// A series of reports never takes a deployment back.
pub proof fn lemma_run_moves_on(state: DeploymentView, events: Seq<EventView>)
    ensures
        rank(run(state, events).step) >= rank(state.step),
        run(state, events).artifact == state.artifact,
        run(state, events).attempt == state.attempt,
    decreases events.len(),
{
    if events.len() > 0 {
        lemma_run_moves_on(state, events.drop_last());
        lemma_report_moves_on(run(state, events.drop_last()), events.last());
    }
}

/// Once nothing is left to do, no report changes the deployment.
pub proof fn lemma_done_stays(state: DeploymentView, events: Seq<EventView>)
    requires
        state.step == Step::Done,
    ensures
        run(state, events) == state,
    decreases events.len(),
{
    if events.len() > 0 {
        lemma_done_stays(state, events.drop_last());
    }
}

/// Reports taken in two series come to the same as in one.
pub proof fn lemma_run_in_two(state: DeploymentView, first: Seq<EventView>, second: Seq<EventView>)
    ensures
        run(state, first + second) == run(run(state, first), second),
    decreases second.len(),
{
    if second.len() == 0 {
        assert(first + second =~= first);
    } else {
        lemma_run_in_two(state, first, second.drop_last());
        assert((first + second).drop_last() =~= first + second.drop_last());
        assert((first + second).last() == second.last());
    }
}

/// The steps come in their order: of two points of a series of reports,
/// the later one has no earlier step due.
pub proof fn lemma_steps_in_order(state: DeploymentView, events: Seq<EventView>, i: int, j: int)
    requires
        0 <= i <= j <= events.len(),
    ensures
        rank(run(state, events.subrange(0, i)).step) <= rank(run(state, events.subrange(0, j)).step),
{
    let head = events.subrange(0, i);
    let more = events.subrange(i, j);
    assert(events.subrange(0, j) =~= head + more);
    lemma_run_in_two(state, head, more);
    lemma_run_moves_on(run(state, head), more);
}

/// A failure ends the deployment. Where a report tells that the step that
/// is due has failed, then whatever is reported after it: nothing more is
/// to be done, the result is no success and gives the failure's category,
/// and no step that comes later in the order is ever due.
pub proof fn lemma_failure_ends(
    start: DeploymentView,
    before: Seq<EventView>,
    event: EventView,
    after: Seq<EventView>,
    later: Step,
)
    requires
        fits(run(start, before).step, event),
        failure_of(run(start, before).step, event) is Some,
        rank(run(start, before).step) < rank(later) < rank(Step::Done),
    ensures
        run(start, before.push(event) + after).step == Step::Done,
        action_of(run(start, before.push(event) + after)) == ActionView::Finish,
        !result_of(run(start, before.push(event) + after)).success,
        result_of(run(start, before.push(event) + after)).failure == failure_of(
            run(start, before).step,
            event,
        ),
        !visits(start, before.push(event) + after, later),
{
    let reached = run(start, before);
    let ended = next(reached, event);
    let whole = before.push(event) + after;
    assert(before.push(event).drop_last() =~= before);
    assert(run(start, before.push(event)) == ended);
    lemma_run_in_two(start, before.push(event), after);
    lemma_done_stays(ended, after);
    assert forall|k: int| 0 <= k <= whole.len() implies run(
        start,
        #[trigger] whole.subrange(0, k),
    ).step != later by {
        if k <= before.len() {
            assert(whole.subrange(0, k) =~= before.subrange(0, k));
            assert(before.subrange(0, before.len() as int) =~= before);
            lemma_steps_in_order(start, before, k, before.len() as int);
        } else {
            let rest = after.subrange(0, k - before.len() - 1);
            assert(whole.subrange(0, k) =~= before.push(event) + rest);
            lemma_run_in_two(start, before.push(event), rest);
            lemma_done_stays(ended, rest);
        }
    }
}

/// Where the backup that an artifact asks for cannot be taken, the
/// deployment ends there: no hook is ever due, nor the install, and the
/// result is a failure of the category `BackupFailed`.
pub proof fn lemma_failed_backup_ends(
    root_path: Seq<char>,
    artifact: ArtifactView,
    attempt: nat,
    before: Seq<EventView>,
    reason: Seq<char>,
    after: Seq<EventView>,
)
    requires
        run(started(root_path, artifact, attempt), before).step == Step::Backup,
    ensures
        ({
            let start = started(root_path, artifact, attempt);
            let whole = before.push(EventView::BackupFailed(reason)) + after;
            &&& !visits(start, whole, Step::RunBefore)
            &&& !visits(start, whole, Step::Install)
            &&& !visits(start, whole, Step::RunAfter)
            &&& action_of(run(start, whole)) == ActionView::Finish
            &&& !result_of(run(start, whole)).success
            &&& result_of(run(start, whole)).failure == Some(ErrorKind::BackupFailed)
        }),
{
    let start = started(root_path, artifact, attempt);
    let event = EventView::BackupFailed(reason);
    lemma_failure_ends(start, before, event, after, Step::RunBefore);
    lemma_failure_ends(start, before, event, after, Step::Install);
    lemma_failure_ends(start, before, event, after, Step::RunAfter);
}

/// Where the hook before the install does not succeed, the deployment
/// ends there: the install is never due, nor the hook after it, and the
/// result is a failure of the category `HookFailed` in the phase before.
pub proof fn lemma_failed_hook_before_ends(
    root_path: Seq<char>,
    artifact: ArtifactView,
    attempt: nat,
    before: Seq<EventView>,
    result: HookResultView,
    after: Seq<EventView>,
)
    requires
        run(started(root_path, artifact, attempt), before).step == Step::RunBefore,
        !(result is Success),
    ensures
        ({
            let start = started(root_path, artifact, attempt);
            let whole = before.push(EventView::HookFinished(result)) + after;
            &&& !visits(start, whole, Step::Install)
            &&& !visits(start, whole, Step::RunAfter)
            &&& action_of(run(start, whole)) == ActionView::Finish
            &&& !result_of(run(start, whole)).success
            &&& result_of(run(start, whole)).failure == Some(
                ErrorKind::HookFailed { phase: HookPhase::Before },
            )
        }),
{
    let start = started(root_path, artifact, attempt);
    let event = EventView::HookFinished(result);
    lemma_failure_ends(start, before, event, after, Step::Install);
    lemma_failure_ends(start, before, event, after, Step::RunAfter);
}

/// A deployment that succeeds has installed the files: the install was
/// due at some point, and was reported to have gone well.
pub proof fn lemma_success_installs(
    root_path: Seq<char>,
    artifact: ArtifactView,
    attempt: nat,
    events: Seq<EventView>,
)
    requires
        result_of(run(started(root_path, artifact, attempt), events)).success,
    ensures
        visits(started(root_path, artifact, attempt), events, Step::Install),
{
    lemma_reaches_install(started(root_path, artifact, attempt), events);
}

/// A series of reports that takes a deployment from before the install to
/// past it has the install due at some point.
proof fn lemma_reaches_install(start: DeploymentView, events: Seq<EventView>)
    requires
        rank(start.step) <= rank(Step::Install),
        rank(run(start, events).step) > rank(Step::Install),
        run(start, events).failure is None,
        start.failure is None,
    ensures
        visits(start, events, Step::Install),
    decreases events.len(),
{
    if events.len() > 0 {
        let head = events.drop_last();
        let reached = run(start, head);
        // From before the install, one report leads at most to the install
        // or, by a failure, to the end.
        assert(rank(reached.step) >= rank(Step::Install));
        assert(events.subrange(0, events.len() - 1) =~= head);
        if reached.step == Step::Install {
            assert(run(start, events.subrange(0, events.len() - 1)).step == Step::Install);
        } else {
            lemma_failure_stays(start, head, events.last());
            lemma_reaches_install(start, head);
            let k = choose|k: int|
                0 <= k <= head.len() && run(start, #[trigger] head.subrange(0, k)).step
                    == Step::Install;
            assert(events.subrange(0, k) =~= head.subrange(0, k));
        }
    }
}

/// A report never takes a failure back.
proof fn lemma_failure_stays(start: DeploymentView, head: Seq<EventView>, event: EventView)
    ensures
        next(run(start, head), event).failure is None ==> run(start, head).failure is None,
{
}

} // verus!
