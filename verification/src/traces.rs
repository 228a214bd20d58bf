//! Whole runs: what an integration run does when it is handed a sequence of
//! reports, and what holds of every such run.

use crate::commands::CONFLICT_GUIDANCE;
use crate::integrate::{
    initial, next, pending, ActionModel, EventModel, Halt, MergeOutcome, Phase, RunModel,
    EXIT_FAILURE, EXIT_SUCCESS,
};
use vstd::prelude::*;

verus! {

/// The run that `run` becomes once the reports `events` came in, in order.
pub open spec fn run_through(run: RunModel, events: Seq<EventModel>) -> RunModel
    decreases events.len(),
{
    if events.len() == 0 {
        run
    } else {
        run_through(next(run, events.first()), events.drop_first())
    }
}

/// The operations that `run` asks for while the reports `events` come in:
/// the pending one, then one after each report.
pub open spec fn actions_through(run: RunModel, events: Seq<EventModel>) -> Seq<ActionModel>
    decreases events.len(),
{
    if events.len() == 0 {
        seq![pending(run)]
    } else {
        seq![pending(run)] + actions_through(next(run, events.first()), events.drop_first())
    }
}

/// How many of `actions` are merges of a branch.
pub open spec fn merge_attempts(actions: Seq<ActionModel>) -> nat
    decreases actions.len(),
{
    if actions.len() == 0 {
        0
    } else {
        merge_attempts(actions.drop_last()) + if actions.last() is MergeRemote {
            1nat
        } else {
            0nat
        }
    }
}

/// How many of `actions` are commits of a pending merge.
pub open spec fn commit_attempts(actions: Seq<ActionModel>) -> nat
    decreases actions.len(),
{
    if actions.len() == 0 {
        0
    } else {
        commit_attempts(actions.drop_last()) + if actions.last() is CommitPendingMerge {
            1nat
        } else {
            0nat
        }
    }
}

/// `count` reports of a command that succeeded.
pub open spec fn successes(count: nat) -> Seq<EventModel> {
    Seq::new(count, |i: int| EventModel::Finished(true))
}

/// The reports of a merge that left a commit to be made, which then succeeded.
pub open spec fn committed_merge() -> Seq<EventModel> {
    seq![EventModel::Finished(false), EventModel::Conflicts(false), EventModel::Finished(true)]
}

/// The reports of a merge that left paths in conflict.
pub open spec fn conflicted_merge() -> Seq<EventModel> {
    seq![EventModel::Finished(false), EventModel::Conflicts(true)]
}

/// The end of a run that was stopped by a conflict.
pub open spec fn conflict_exit() -> ActionModel {
    ActionModel::Exit { code: EXIT_FAILURE as int, notice: Some(CONFLICT_GUIDANCE@) }
}

/// The end of a run that integrated every branch.
pub open spec fn success_exit() -> ActionModel {
    ActionModel::Exit { code: EXIT_SUCCESS as int, notice: None }
}

/// A run that has just been created is well formed.
pub proof fn lemma_initial_well_formed(destination: Seq<char>)
    ensures
        initial(destination).well_formed(),
{
}

/// Whatever is reported, a well-formed run stays well formed, keeps its
/// destination, and never loses an outcome that it has recorded.
pub proof fn lemma_next_well_formed(run: RunModel, event: EventModel)
    requires
        run.well_formed(),
    ensures
        next(run, event).well_formed(),
        next(run, event).destination == run.destination,
        run.outcomes.is_prefix_of(next(run, event).outcomes),
{
    let after = next(run, event);
    if after.outcomes.len() > run.outcomes.len() {
        assert(after.outcomes.drop_last() =~= run.outcomes);
    }
}

/// Whatever is reported, in any number, a well-formed run stays well formed.
pub proof fn lemma_run_well_formed(run: RunModel, events: Seq<EventModel>)
    requires
        run.well_formed(),
    ensures
        run_through(run, events).well_formed(),
    decreases events.len(),
{
    if events.len() > 0 {
        lemma_next_well_formed(run, events.first());
        lemma_run_well_formed(next(run, events.first()), events.drop_first());
    }
}

/// A run that is done or halted stays as it is whatever is reported to it,
/// and asks for nothing but the same end of the process: no branch is
/// attempted any more.
pub proof fn lemma_finished_stays(run: RunModel, events: Seq<EventModel>)
    requires
        run.finished(),
    ensures
        run_through(run, events) == run,
        pending(run) is Exit,
        actions_through(run, events) == Seq::new(events.len() + 1, |i: int| pending(run)),
        merge_attempts(actions_through(run, events)) == 0,
        commit_attempts(actions_through(run, events)) == 0,
    decreases events.len(),
{
    let actions = actions_through(run, events);
    let same = Seq::new(events.len() + 1, |i: int| pending(run));
    if events.len() > 0 {
        lemma_finished_stays(run, events.drop_first());
        assert(next(run, events.first()) == run);
    }
    assert(actions =~= same);
    lemma_no_attempts(same);
}

/// Among operations that are neither merges nor commits, none is counted.
proof fn lemma_no_attempts(actions: Seq<ActionModel>)
    requires
        forall|i: int|
            0 <= i < actions.len() ==> !(actions[i] is MergeRemote) && !(actions[i]
                is CommitPendingMerge),
    ensures
        merge_attempts(actions) == 0,
        commit_attempts(actions) == 0,
    decreases actions.len(),
{
    if actions.len() > 0 {
        lemma_no_attempts(actions.drop_last());
    }
}

/// Counting over two sequences of operations in a row adds up.
proof fn lemma_attempts_add(first: Seq<ActionModel>, second: Seq<ActionModel>)
    ensures
        merge_attempts(first + second) == merge_attempts(first) + merge_attempts(second),
        commit_attempts(first + second) == commit_attempts(first) + commit_attempts(second),
    decreases second.len(),
{
    if second.len() == 0 {
        assert(first + second =~= first);
    } else {
        lemma_attempts_add(first, second.drop_last());
        assert((first + second).drop_last() =~= first + second.drop_last());
    }
}

/// Reports that come in two parts are taken one part after the other.
pub proof fn lemma_run_in_two_parts(
    run: RunModel,
    first: Seq<EventModel>,
    second: Seq<EventModel>,
)
    ensures
        run_through(run, first + second) == run_through(run_through(run, first), second),
        actions_through(run, first + second) == actions_through(run, first).drop_last()
            + actions_through(run_through(run, first), second),
        actions_through(run, first).last() == pending(run_through(run, first)),
    decreases first.len(),
{
    if first.len() == 0 {
        assert(first + second =~= second);
        assert(actions_through(run, first).drop_last() + actions_through(run, second)
            =~= actions_through(run, second));
    } else {
        let after = next(run, first.first());
        lemma_run_in_two_parts(after, first.drop_first(), second);
        lemma_actions_length(after, first.drop_first());
        assert((first + second).drop_first() =~= first.drop_first() + second);
        assert(actions_through(run, first + second) =~= actions_through(run, first).drop_last()
            + actions_through(run_through(run, first), second));
    }
}

/// A run asks for one operation more than it is handed reports.
pub proof fn lemma_actions_length(run: RunModel, events: Seq<EventModel>)
    ensures
        actions_through(run, events).len() == events.len() + 1,
    decreases events.len(),
{
    if events.len() > 0 {
        lemma_actions_length(next(run, events.first()), events.drop_first());
    }
}

/// The reports of a run in which the fetch and the reset succeed, `branches`
/// are listed, and `merges` reports on the merges follow.
pub open spec fn reports(branches: Seq<Seq<char>>, merges: Seq<EventModel>) -> Seq<EventModel> {
    seq![EventModel::Finished(true), EventModel::Finished(true), EventModel::Resolved(branches)]
        + merges
}

/// The operations with which every run begins that gets as far as the list
/// of branches.
pub open spec fn preparation(destination: Seq<char>) -> Seq<ActionModel> {
    seq![
        ActionModel::FetchAll,
        ActionModel::ResetDestination(destination),
        ActionModel::ResolveBranches,
    ]
}

/// The run that has fetched, reset `destination` and learned of `branches`.
pub open spec fn prepared(destination: Seq<char>, branches: Seq<Seq<char>>) -> RunModel {
    RunModel {
        branches,
        phase: if branches.len() > 0 {
            Phase::Merging
        } else {
            Phase::Done
        },
        ..initial(destination)
    }
}

/// A run whose fetch and reset succeed and which is told of `branches` has
/// asked for the fetch, the reset of its destination and the list, in this
/// order, and stands before the first branch.
pub proof fn lemma_preparation(
    destination: Seq<char>,
    branches: Seq<Seq<char>>,
    merges: Seq<EventModel>,
)
    ensures
        run_through(initial(destination), reports(branches, merges)) == run_through(
            prepared(destination, branches),
            merges,
        ),
        actions_through(initial(destination), reports(branches, merges)) == preparation(
            destination,
        ) + actions_through(prepared(destination, branches), merges),
        prepared(destination, branches).well_formed(),
{
    let start = initial(destination);
    let head = seq![
        EventModel::Finished(true),
        EventModel::Finished(true),
        EventModel::Resolved(branches),
    ];
    reveal_with_fuel(run_through, 4);
    reveal_with_fuel(actions_through, 4);
    assert(head.drop_first() =~= seq![EventModel::Finished(true), EventModel::Resolved(branches)]);
    assert(head.drop_first().drop_first() =~= seq![EventModel::Resolved(branches)]);
    assert(head.drop_first().drop_first().drop_first() =~= Seq::<EventModel>::empty());
    assert(run_through(start, head) =~= prepared(destination, branches));
    assert(actions_through(start, head) =~= preparation(destination) + seq![
        pending(prepared(destination, branches)),
    ]);
    lemma_run_in_two_parts(start, head, merges);
    assert(actions_through(start, head).drop_last() =~= preparation(destination));
}

/// With no branch to integrate, the run is done as soon as the destination
/// is ready: it asks for the fetch, the reset and the list, then ends with
/// success, and attempts no merge and no commit.
pub proof fn lemma_empty_run(destination: Seq<char>)
    ensures
        ({
            let events = reports(Seq::empty(), Seq::empty());
            let actions = actions_through(initial(destination), events);
            &&& run_through(initial(destination), events).phase == Phase::Done
            &&& run_through(initial(destination), events).outcomes.len() == 0
            &&& actions == preparation(destination) + seq![success_exit()]
            &&& merge_attempts(actions) == 0
            &&& commit_attempts(actions) == 0
        }),
{
    let events = reports(Seq::empty(), Seq::empty());
    let ready = prepared(destination, Seq::empty());
    lemma_preparation(destination, Seq::empty(), Seq::empty());
    lemma_finished_stays(ready, Seq::empty());
    lemma_no_attempts(preparation(destination));
    lemma_attempts_add(preparation(destination), actions_through(ready, Seq::empty()));
    assert(actions_through(ready, Seq::empty()) =~= seq![success_exit()]);
}

/// The merges of the branches of `run` from `from` on, in order.
pub open spec fn merges_from(branches: Seq<Seq<char>>, from: int) -> Seq<ActionModel> {
    Seq::new(
        (branches.len() - from) as nat,
        |i: int| ActionModel::MergeRemote(branches[from + i]),
    )
}

/// From any branch on, if every merge that is left completes by itself, the
/// run merges each of the branches that are left once, in order, commits
/// nothing, and is done.
pub proof fn lemma_clean_merges(run: RunModel)
    requires
        run.well_formed(),
        run.phase == Phase::Merging,
    ensures
        ({
            let left = (run.branches.len() - run.index) as nat;
            let end = run_through(run, successes(left));
            let actions = actions_through(run, successes(left));
            &&& end.phase == Phase::Done
            &&& end.index == run.branches.len()
            &&& end.branches == run.branches
            &&& end.outcomes == run.outcomes + Seq::new(left, |i: int| MergeOutcome::Clean)
            &&& actions == merges_from(run.branches, run.index) + seq![success_exit()]
            &&& merge_attempts(actions) == left
            &&& commit_attempts(actions) == 0
        }),
    decreases run.branches.len() - run.index,
{
    let left = (run.branches.len() - run.index) as nat;
    let events = successes(left);
    let after = next(run, events.first());
    let rest = successes((left - 1) as nat);
    let merge = seq![ActionModel::MergeRemote(run.branches[run.index])];
    assert(events.drop_first() =~= rest);
    assert(after == run.merged(MergeOutcome::Clean));
    lemma_next_well_formed(run, events.first());
    assert(merge_attempts(merge) == 1 && commit_attempts(merge) == 0) by {
        assert(merge.drop_last() =~= Seq::<ActionModel>::empty());
        reveal_with_fuel(merge_attempts, 2);
        reveal_with_fuel(commit_attempts, 2);
    }
    lemma_attempts_add(merge, actions_through(after, rest));
    if after.phase == Phase::Merging {
        lemma_clean_merges(after);
    } else {
        assert(rest =~= Seq::<EventModel>::empty());
        lemma_finished_stays(after, rest);
    }
    assert(run_through(run, events).outcomes =~= run.outcomes + Seq::new(
        left,
        |i: int| MergeOutcome::Clean,
    ));
    assert(actions_through(run, events) =~= merges_from(run.branches, run.index) + seq![
        success_exit(),
    ]);
}

/// Where each of `branches` merges by itself, the run asks for the fetch,
/// the reset and the list, then for the merge of each branch once and in
/// order, never for a commit, and ends with success.
pub proof fn lemma_clean_run(destination: Seq<char>, branches: Seq<Seq<char>>)
    ensures
        ({
            let events = reports(branches, successes(branches.len()));
            let end = run_through(initial(destination), events);
            let actions = actions_through(initial(destination), events);
            &&& end.phase == Phase::Done
            &&& end.outcomes == Seq::new(branches.len(), |i: int| MergeOutcome::Clean)
            &&& actions == preparation(destination) + merges_from(branches, 0) + seq![
                success_exit(),
            ]
            &&& merge_attempts(actions) == branches.len()
            &&& commit_attempts(actions) == 0
        }),
{
    let merges = successes(branches.len());
    let ready = prepared(destination, branches);
    lemma_preparation(destination, branches, merges);
    lemma_no_attempts(preparation(destination));
    lemma_attempts_add(preparation(destination), actions_through(ready, merges));
    if branches.len() > 0 {
        lemma_clean_merges(ready);
    } else {
        assert(merges =~= Seq::<EventModel>::empty());
        lemma_finished_stays(ready, merges);
    }
    assert(run_through(ready, merges).outcomes =~= Seq::new(
        branches.len(),
        |i: int| MergeOutcome::Clean,
    ));
    assert(actions_through(ready, merges) =~= merges_from(branches, 0) + seq![success_exit()]);
}

/// A merge that reports failure and leaves no conflict is committed exactly
/// once, recorded as an automatic merge, and the run goes on to the next
/// branch, or is done after the last.
pub proof fn lemma_pending_merge_committed_once(run: RunModel)
    requires
        run.well_formed(),
        run.phase == Phase::Merging,
    ensures
        ({
            let end = run_through(run, committed_merge());
            let actions = actions_through(run, committed_merge());
            &&& end == run.merged(MergeOutcome::CommittedAutoMerge)
            &&& end.index == run.index + 1
            &&& end.outcomes.last() == MergeOutcome::CommittedAutoMerge
            &&& actions == seq![
                ActionModel::MergeRemote(run.branches[run.index]),
                ActionModel::CheckConflicts,
                ActionModel::CommitPendingMerge,
                pending(end),
            ]
            &&& pending(end) == if run.index + 1 < run.branches.len() {
                ActionModel::MergeRemote(run.branches[run.index + 1])
            } else {
                success_exit()
            }
            &&& commit_attempts(actions) == 1
        }),
{
    let events = committed_merge();
    reveal_with_fuel(run_through, 4);
    reveal_with_fuel(actions_through, 4);
    assert(events.drop_first() =~= seq![
        EventModel::Conflicts(false),
        EventModel::Finished(true),
    ]);
    assert(events.drop_first().drop_first() =~= seq![EventModel::Finished(true)]);
    assert(events.drop_first().drop_first().drop_first() =~= Seq::<EventModel>::empty());
    let end = run.merged(MergeOutcome::CommittedAutoMerge);
    let actions = seq![
        ActionModel::MergeRemote(run.branches[run.index]),
        ActionModel::CheckConflicts,
        ActionModel::CommitPendingMerge,
        pending(end),
    ];
    assert(run_through(run, events) =~= end);
    assert(actions_through(run, events) =~= actions);
    assert(commit_attempts(actions) == 1) by {
        reveal_with_fuel(commit_attempts, 5);
        assert(actions.drop_last() =~= seq![
            ActionModel::MergeRemote(run.branches[run.index]),
            ActionModel::CheckConflicts,
            ActionModel::CommitPendingMerge,
        ]);
        assert(actions.drop_last().drop_last() =~= seq![
            ActionModel::MergeRemote(run.branches[run.index]),
            ActionModel::CheckConflicts,
        ]);
        assert(actions.drop_last().drop_last().drop_last() =~= seq![
            ActionModel::MergeRemote(run.branches[run.index]),
        ]);
        assert(actions.drop_last().drop_last().drop_last().drop_last() =~= Seq::<
            ActionModel,
        >::empty());
    }
}

/// A merge that leaves paths in conflict halts the run at that branch: the
/// conflict is recorded, the run ends with failure and the guidance for the
/// operator, and whatever is reported afterwards, no further branch is
/// attempted.
pub proof fn lemma_conflict_halts(run: RunModel, later: Seq<EventModel>)
    requires
        run.well_formed(),
        run.phase == Phase::Merging,
    ensures
        ({
            let halted = run_through(run, conflicted_merge());
            &&& halted.phase == Phase::Halted(Halt::Conflicted)
            &&& halted.index == run.index
            &&& halted.outcomes == run.outcomes.push(MergeOutcome::Conflicted)
            &&& actions_through(run, conflicted_merge()) == seq![
                ActionModel::MergeRemote(run.branches[run.index]),
                ActionModel::CheckConflicts,
                conflict_exit(),
            ]
            &&& run_through(run, conflicted_merge() + later) == halted
            &&& actions_through(run, conflicted_merge() + later) == seq![
                ActionModel::MergeRemote(run.branches[run.index]),
                ActionModel::CheckConflicts,
            ] + Seq::new(later.len() + 1, |i: int| conflict_exit())
            &&& merge_attempts(actions_through(run, conflicted_merge() + later)) == 1
        }),
{
    let events = conflicted_merge();
    reveal_with_fuel(run_through, 3);
    reveal_with_fuel(actions_through, 3);
    assert(events.drop_first() =~= seq![EventModel::Conflicts(true)]);
    assert(events.drop_first().drop_first() =~= Seq::<EventModel>::empty());
    let halted = RunModel {
        phase: Phase::Halted(Halt::Conflicted),
        outcomes: run.outcomes.push(MergeOutcome::Conflicted),
        ..run
    };
    let attempt = seq![
        ActionModel::MergeRemote(run.branches[run.index]),
        ActionModel::CheckConflicts,
    ];
    assert(run_through(run, events) =~= halted);
    assert(actions_through(run, events) =~= attempt + seq![conflict_exit()]);
    lemma_run_in_two_parts(run, events, later);
    lemma_finished_stays(halted, later);
    assert(actions_through(run, events).drop_last() =~= attempt);
    lemma_attempts_add(attempt, actions_through(halted, later));
    assert(merge_attempts(attempt) == 1) by {
        reveal_with_fuel(merge_attempts, 3);
        assert(attempt.drop_last() =~= seq![ActionModel::MergeRemote(run.branches[run.index])]);
        assert(attempt.drop_last().drop_last() =~= Seq::<ActionModel>::empty());
    }
}

} // verus!
