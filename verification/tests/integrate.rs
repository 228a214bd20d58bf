use git_integrate::commands::CONFLICT_GUIDANCE;
use git_integrate::integrate::{
    Action, Event, Halt, IntegrationRun, MergeOutcome, Phase, EXIT_ABORTED, EXIT_FAILURE,
    EXIT_SUCCESS,
};

fn names(list: &[&str]) -> Vec<String> {
    list.iter().map(|name| name.to_string()).collect()
}

fn merge(branch: &str) -> Action {
    Action::MergeRemote(branch.to_string())
}

fn exit(code: i32, notice: Option<&str>) -> Action {
    Action::Exit { code, notice: notice.map(|text| text.to_string()) }
}

/// Hands `events` to a new run for `destination`; returns the run at the end
/// and every operation it asked for, the first one included.
fn drive(destination: &str, events: Vec<Event>) -> (IntegrationRun, Vec<Action>) {
    let mut run = IntegrationRun::new(destination.to_string());
    let mut actions = vec![run.pending()];
    for event in events {
        let (after, action) = run.step(event);
        assert_eq!(action, after.pending());
        run = after;
        actions.push(action);
    }
    (run, actions)
}

/// The reports up to the list of branches, all of them good.
fn prepared(branches: &[&str]) -> Vec<Event> {
    vec![Event::Finished(true), Event::Finished(true), Event::Resolved(names(branches))]
}

fn count_merges(actions: &[Action]) -> usize {
    actions.iter().filter(|action| matches!(action, Action::MergeRemote(_))).count()
}

fn count_commits(actions: &[Action]) -> usize {
    actions.iter().filter(|action| matches!(action, Action::CommitPendingMerge)).count()
}

#[test]
fn exit_codes() {
    assert_eq!(EXIT_SUCCESS, 0);
    assert_eq!(EXIT_FAILURE, 1);
    assert_eq!(EXIT_ABORTED, 101);
}

#[test]
fn new_run_asks_for_the_fetch() {
    let run = IntegrationRun::new("release".to_string());
    assert_eq!(run.phase(), Phase::Start);
    assert_eq!(run.destination(), "release");
    assert_eq!(run.current_index(), 0);
    assert!(run.source_branches().is_empty());
    assert!(run.outcomes().is_empty());
    assert!(!run.is_finished());
    assert_eq!(run.pending(), Action::FetchAll);
}

#[test]
fn empty_branch_list_is_done_without_a_merge() {
    let (run, actions) = drive("release", prepared(&[]));
    assert_eq!(run.phase(), Phase::Done);
    assert!(run.is_finished());
    assert!(run.outcomes().is_empty());
    assert_eq!(
        actions,
        vec![
            Action::FetchAll,
            Action::ResetDestination("release".to_string()),
            Action::ResolveBranches,
            exit(0, None),
        ]
    );
    assert_eq!(count_merges(&actions), 0);
    assert_eq!(count_commits(&actions), 0);
}

#[test]
fn clean_merges_are_attempted_once_each_and_never_committed() {
    let mut events = prepared(&["a", "b", "c"]);
    events.extend(vec![Event::Finished(true), Event::Finished(true), Event::Finished(true)]);
    let (run, actions) = drive("release", events);
    assert_eq!(run.phase(), Phase::Done);
    assert_eq!(run.current_index(), 3);
    assert_eq!(
        run.outcomes(),
        &vec![MergeOutcome::Clean, MergeOutcome::Clean, MergeOutcome::Clean]
    );
    assert_eq!(
        actions,
        vec![
            Action::FetchAll,
            Action::ResetDestination("release".to_string()),
            Action::ResolveBranches,
            merge("a"),
            merge("b"),
            merge("c"),
            exit(0, None),
        ]
    );
    assert_eq!(count_merges(&actions), 3);
    assert_eq!(count_commits(&actions), 0);
}

#[test]
fn pending_merge_is_committed_once_and_the_run_goes_on() {
    let mut events = prepared(&["a", "b", "c"]);
    events.extend(vec![
        Event::Finished(true),
        Event::Finished(false),
        Event::Conflicts(false),
        Event::Finished(true),
    ]);
    let (run, actions) = drive("release", events);
    assert_eq!(run.phase(), Phase::Merging);
    assert_eq!(run.current_index(), 2);
    assert_eq!(run.outcomes(), &vec![MergeOutcome::Clean, MergeOutcome::CommittedAutoMerge]);
    assert_eq!(
        actions[3..],
        [merge("a"), merge("b"), Action::CheckConflicts, Action::CommitPendingMerge, merge("c")]
    );
    assert_eq!(count_commits(&actions), 1);
    let (run, action) = run.step(Event::Finished(true));
    assert_eq!(action, exit(0, None));
    assert_eq!(run.phase(), Phase::Done);
    assert_eq!(
        run.outcomes(),
        &vec![MergeOutcome::Clean, MergeOutcome::CommittedAutoMerge, MergeOutcome::Clean]
    );
}

#[test]
fn pending_merge_of_the_last_branch_ends_the_run() {
    let mut events = prepared(&["only"]);
    events.extend(vec![Event::Finished(false), Event::Conflicts(false), Event::Finished(true)]);
    let (run, actions) = drive("release", events);
    assert_eq!(run.phase(), Phase::Done);
    assert_eq!(run.outcomes(), &vec![MergeOutcome::CommittedAutoMerge]);
    assert_eq!(
        actions[3..],
        [merge("only"), Action::CheckConflicts, Action::CommitPendingMerge, exit(0, None)]
    );
}

#[test]
fn conflict_halts_the_run_and_later_branches_are_never_attempted() {
    let mut events = prepared(&["a", "b", "c", "d"]);
    events.extend(vec![Event::Finished(true), Event::Finished(false), Event::Conflicts(true)]);
    events.extend(vec![
        Event::Finished(true),
        Event::Conflicts(false),
        Event::Resolved(names(&["e"])),
        Event::QueryFailed,
    ]);
    let (run, actions) = drive("release", events);
    assert_eq!(run.phase(), Phase::Halted(Halt::Conflicted));
    assert!(run.is_finished());
    assert_eq!(run.current_index(), 1);
    assert_eq!(run.source_branches(), &names(&["a", "b", "c", "d"]));
    assert_eq!(run.outcomes(), &vec![MergeOutcome::Clean, MergeOutcome::Conflicted]);
    let halt = exit(1, Some(CONFLICT_GUIDANCE));
    assert_eq!(actions[3..6], [merge("a"), merge("b"), Action::CheckConflicts]);
    for action in &actions[6..] {
        assert_eq!(action, &halt);
    }
    assert_eq!(actions.len(), 11);
    assert_eq!(count_merges(&actions), 2);
    assert_eq!(count_commits(&actions), 0);
}

#[test]
fn milestone_with_a_clean_and_a_conflicting_branch() {
    let mut run = IntegrationRun::new("release".to_string());
    assert_eq!(run.pending(), Action::FetchAll);
    let action;
    (run, action) = run.step(Event::Finished(true));
    assert_eq!(run.phase(), Phase::Fetched);
    assert_eq!(action, Action::ResetDestination("release".to_string()));
    let action;
    (run, action) = run.step(Event::Finished(true));
    assert_eq!(run.phase(), Phase::DestinationReady);
    assert_eq!(action, Action::ResolveBranches);
    let action;
    (run, action) = run.step(Event::Resolved(names(&["feature/a", "feature/b"])));
    assert_eq!(run.phase(), Phase::Merging);
    assert_eq!(action, merge("feature/a"));
    let action;
    (run, action) = run.step(Event::Finished(true));
    assert_eq!(run.outcomes(), &vec![MergeOutcome::Clean]);
    assert_eq!(action, merge("feature/b"));
    let action;
    (run, action) = run.step(Event::Finished(false));
    assert_eq!(run.phase(), Phase::Classifying);
    assert_eq!(action, Action::CheckConflicts);
    let action;
    (run, action) = run.step(Event::Conflicts(true));
    assert_eq!(run.phase(), Phase::Halted(Halt::Conflicted));
    assert_eq!(run.outcomes(), &vec![MergeOutcome::Clean, MergeOutcome::Conflicted]);
    assert_eq!(action, Action::Exit { code: 1, notice: Some(CONFLICT_GUIDANCE.to_string()) });
}

#[test]
fn failed_fetch_stops_the_run() {
    let (run, actions) = drive("release", vec![Event::Finished(false)]);
    assert_eq!(run.phase(), Phase::Halted(Halt::FetchFailed));
    assert_eq!(actions, vec![Action::FetchAll, exit(1, None)]);
}

#[test]
fn failed_reset_stops_the_run() {
    let (run, actions) = drive("release", vec![Event::Finished(true), Event::Finished(false)]);
    assert_eq!(run.phase(), Phase::Halted(Halt::CheckoutFailed));
    assert_eq!(
        actions,
        vec![Action::FetchAll, Action::ResetDestination("release".to_string()), exit(1, None)]
    );
}

#[test]
fn failed_query_aborts_before_any_merge() {
    let events = vec![Event::Finished(true), Event::Finished(true), Event::QueryFailed];
    let (run, actions) = drive("release", events);
    assert_eq!(run.phase(), Phase::Halted(Halt::QueryFailed));
    assert_eq!(actions[3], exit(101, None));
    assert_eq!(count_merges(&actions), 0);
    assert!(run.source_branches().is_empty());
}

#[test]
fn failed_commit_stops_the_run_and_names_the_branch() {
    let mut events = prepared(&["a", "b"]);
    events.extend(vec![Event::Finished(false), Event::Conflicts(false), Event::Finished(false)]);
    let (run, actions) = drive("release", events);
    assert_eq!(run.phase(), Phase::Halted(Halt::CommitFailed));
    assert_eq!(run.current_index(), 0);
    assert!(run.outcomes().is_empty());
    assert_eq!(
        actions[3..],
        [
            merge("a"),
            Action::CheckConflicts,
            Action::CommitPendingMerge,
            exit(1, Some("Failure merging branch a")),
        ]
    );
    assert_eq!(count_merges(&actions), 1);
}

#[test]
fn report_that_answers_nothing_leaves_the_run_as_it_is() {
    let run = IntegrationRun::new("release".to_string());
    let (run, action) = run.step(Event::Conflicts(true));
    assert_eq!(run.phase(), Phase::Start);
    assert_eq!(action, Action::FetchAll);
    let (run, action) = run.step(Event::Resolved(names(&["a"])));
    assert_eq!(run.phase(), Phase::Start);
    assert!(run.source_branches().is_empty());
    assert_eq!(action, Action::FetchAll);
    let (run, _) = run.step(Event::Finished(true));
    let (run, _) = run.step(Event::Finished(true));
    let (run, action) = run.step(Event::Finished(true));
    assert_eq!(run.phase(), Phase::DestinationReady);
    assert_eq!(action, Action::ResolveBranches);
    let (run, _) = run.step(Event::Resolved(names(&["a"])));
    let (run, action) = run.step(Event::Conflicts(false));
    assert_eq!(run.phase(), Phase::Merging);
    assert_eq!(action, merge("a"));
    let (run, _) = run.step(Event::Finished(false));
    let (run, action) = run.step(Event::Finished(true));
    assert_eq!(run.phase(), Phase::Classifying);
    assert_eq!(action, Action::CheckConflicts);
    let (run, _) = run.step(Event::Conflicts(false));
    let (run, action) = run.step(Event::Conflicts(true));
    assert_eq!(run.phase(), Phase::Committing);
    assert_eq!(action, Action::CommitPendingMerge);
}

#[test]
fn done_run_stays_done() {
    let (run, _) = drive("release", prepared(&[]));
    let (run, action) = run.step(Event::Finished(false));
    assert_eq!(run.phase(), Phase::Done);
    assert_eq!(action, exit(0, None));
    let (run, action) = run.step(Event::Resolved(names(&["late"])));
    assert_eq!(run.phase(), Phase::Done);
    assert!(run.source_branches().is_empty());
    assert_eq!(action, exit(0, None));
}

#[test]
fn operations_map_to_git_commands() {
    assert_eq!(Action::FetchAll.command(), Some(names(&["fetch", "--all"])));
    assert_eq!(
        Action::ResetDestination("release".to_string()).command(),
        Some(names(&["checkout", "--no-track", "-B", "release", "origin/master"]))
    );
    assert_eq!(
        merge("feature/a").command(),
        Some(names(&[
            "merge",
            "--no-ff",
            "--no-edit",
            "--rerere-autoupdate",
            "--log",
            "origin/feature/a"
        ]))
    );
    assert_eq!(Action::CommitPendingMerge.command(), Some(names(&["commit", "--no-edit"])));
    assert_eq!(Action::ResolveBranches.command(), None);
    assert_eq!(Action::CheckConflicts.command(), None);
    assert_eq!(exit(0, None).command(), None);
}
