//! The integration run: fetch, reset the destination branch, ask for the
//! branches, then merge them one by one, stopping at the first conflict.
//!
//! The run does no work of its own. It names the next operation, takes the
//! report of how that operation went, and moves on. [`RunModel`], [`pending`]
//! and [`next`] state this as mathematics; [`IntegrationRun`] carries it out.

use crate::commands::{
    checkout_arguments, commit_arguments, commit_failure_notice, commit_failure_text,
    fetch_arguments, git_checkout, git_commit, git_fetch, git_merge, merge_arguments,
    CONFLICT_GUIDANCE,
};
use crate::texts;
use vstd::prelude::*;
use vstd::string::StringExecFns;

verus! {

/// Exit status of a run that integrated every branch.
pub const EXIT_SUCCESS: i32 = 0;

/// Exit status of a run that a failed command or a conflict has stopped.
pub const EXIT_FAILURE: i32 = 1;

/// Exit status of a run that was aborted because the branches could not be
/// asked for: the status of a process that ends in a panic.
pub const EXIT_ABORTED: i32 = 101;

/// How the merge of one branch ended.
#[derive(Clone, Copy, Debug, PartialEq, Eq, Structural)]
pub enum MergeOutcome {
    /// The merge command completed by itself.
    Clean,
    /// The merge command left a merge without conflicts, which was committed.
    CommittedAutoMerge,
    /// The merge command left paths in conflict.
    Conflicted,
}

/// Why a run stopped before its end.
#[derive(Clone, Copy, Debug, PartialEq, Eq, Structural)]
pub enum Halt {
    /// The remote could not be fetched.
    FetchFailed,
    /// The destination branch could not be reset.
    CheckoutFailed,
    /// The branches could not be asked for.
    QueryFailed,
    /// A merge left paths in conflict.
    Conflicted,
    /// A merge without conflicts could not be committed.
    CommitFailed,
}

/// Where a run stands. Each phase but the last two waits for the report on
/// one operation.
#[derive(Clone, Copy, Debug, PartialEq, Eq, Structural)]
pub enum Phase {
    /// Nothing was done yet; the fetch is due.
    Start,
    /// The remote was fetched; the reset of the destination branch is due.
    Fetched,
    /// The destination branch was reset; the list of branches is due.
    DestinationReady,
    /// The merge of the current branch is due.
    Merging,
    /// The merge of the current branch reported failure; the look at the
    /// working tree is due.
    Classifying,
    /// The working tree holds no conflict; the commit of the merge is due.
    Committing,
    /// Every branch was merged.
    Done,
    /// The run was stopped.
    Halted(Halt),
}

/// The report on an operation.
#[derive(Debug, PartialEq, Eq)]
pub enum Event {
    /// A git command ended; `true` where its exit status says success.
    Finished(bool),
    /// The working tree was looked at; `true` where it holds a conflict.
    Conflicts(bool),
    /// The branches to integrate, in the order in which they were listed.
    Resolved(Vec<String>),
    /// The branches could not be asked for.
    QueryFailed,
}

/// The operation that a run asks for.
#[derive(Debug, PartialEq, Eq)]
pub enum Action {
    /// Update every remote-tracking ref.
    FetchAll,
    /// Create the named branch, or reset it, at the remote's main branch.
    ResetDestination(String),
    /// Ask for the branches to integrate.
    ResolveBranches,
    /// Merge the named remote branch into the current branch.
    MergeRemote(String),
    /// Look whether the working tree holds a conflict.
    CheckConflicts,
    /// Commit the merge that is staged.
    CommitPendingMerge,
    /// End the process with `code`, after showing `notice` if there is one.
    Exit { code: i32, notice: Option<String> },
}

/// An [`Event`], with texts in place of strings.
pub enum EventModel {
    Finished(bool),
    Conflicts(bool),
    Resolved(Seq<Seq<char>>),
    QueryFailed,
}

/// An [`Action`], with texts in place of strings.
pub enum ActionModel {
    FetchAll,
    ResetDestination(Seq<char>),
    ResolveBranches,
    MergeRemote(Seq<char>),
    CheckConflicts,
    CommitPendingMerge,
    Exit { code: int, notice: Option<Seq<char>> },
}

/// A run: the destination branch, the branches to merge into it, the index
/// of the branch at hand, the phase, and how the merges so far have ended.
#[verifier::ext_equal]
pub struct RunModel {
    pub destination: Seq<char>,
    pub branches: Seq<Seq<char>>,
    pub index: int,
    pub phase: Phase,
    pub outcomes: Seq<MergeOutcome>,
}

impl View for Event {
    type V = EventModel;

    open spec fn view(&self) -> EventModel {
        match *self {
            Event::Finished(success) => EventModel::Finished(success),
            Event::Conflicts(present) => EventModel::Conflicts(present),
            Event::Resolved(branches) => EventModel::Resolved(texts(branches@)),
            Event::QueryFailed => EventModel::QueryFailed,
        }
    }
}

impl View for Action {
    type V = ActionModel;

    open spec fn view(&self) -> ActionModel {
        match *self {
            Action::FetchAll => ActionModel::FetchAll,
            Action::ResetDestination(branch) => ActionModel::ResetDestination(branch@),
            Action::ResolveBranches => ActionModel::ResolveBranches,
            Action::MergeRemote(branch) => ActionModel::MergeRemote(branch@),
            Action::CheckConflicts => ActionModel::CheckConflicts,
            Action::CommitPendingMerge => ActionModel::CommitPendingMerge,
            Action::Exit { code, notice } => ActionModel::Exit {
                code: code as int,
                notice: match notice {
                    Some(text) => Some(text@),
                    None => None,
                },
            },
        }
    }
}

/// No merge among `outcomes` ended in a conflict.
pub open spec fn all_merged(outcomes: Seq<MergeOutcome>) -> bool {
    forall|i: int| 0 <= i < outcomes.len() ==> outcomes[i] != MergeOutcome::Conflicted
}

impl RunModel {
    /// The fields of a run fit its phase: before the branches are known
    /// there are none; while branch `index` is being merged, exactly the
    /// branches before it have an outcome, none of them a conflict; a run
    /// that is done has merged them all; a run that halted on a conflict
    /// has recorded it for the branch at hand.
    pub open spec fn well_formed(self) -> bool {
        match self.phase {
            Phase::Start | Phase::Fetched | Phase::DestinationReady => {
                &&& self.branches.len() == 0
                &&& self.index == 0
                &&& self.outcomes.len() == 0
            },
            Phase::Halted(Halt::FetchFailed)
            | Phase::Halted(Halt::CheckoutFailed)
            | Phase::Halted(Halt::QueryFailed) => {
                &&& self.branches.len() == 0
                &&& self.index == 0
                &&& self.outcomes.len() == 0
            },
            Phase::Merging | Phase::Classifying | Phase::Committing => {
                &&& 0 <= self.index < self.branches.len()
                &&& self.outcomes.len() == self.index
                &&& all_merged(self.outcomes)
            },
            Phase::Halted(Halt::CommitFailed) => {
                &&& 0 <= self.index < self.branches.len()
                &&& self.outcomes.len() == self.index
                &&& all_merged(self.outcomes)
            },
            Phase::Halted(Halt::Conflicted) => {
                &&& 0 <= self.index < self.branches.len()
                &&& self.outcomes.len() == self.index + 1
                &&& self.outcomes.last() == MergeOutcome::Conflicted
                &&& all_merged(self.outcomes.drop_last())
            },
            Phase::Done => {
                &&& self.index == self.branches.len()
                &&& self.outcomes.len() == self.index
                &&& all_merged(self.outcomes)
            },
        }
    }

    /// The run asks for no further operation.
    pub open spec fn finished(self) -> bool {
        self.phase is Done || self.phase is Halted
    }

    /// The run in another phase.
    pub open spec fn at(self, phase: Phase) -> RunModel {
        RunModel { phase, ..self }
    }

    /// The run after the branch at hand was merged with `outcome`: on to the
    /// next branch, or done after the last.
    pub open spec fn merged(self, outcome: MergeOutcome) -> RunModel {
        RunModel {
            index: self.index + 1,
            phase: if self.index + 1 < self.branches.len() {
                Phase::Merging
            } else {
                Phase::Done
            },
            outcomes: self.outcomes.push(outcome),
            ..self
        }
    }
}

/// A run for `destination` on which nothing was done yet.
pub open spec fn initial(destination: Seq<char>) -> RunModel {
    RunModel {
        destination,
        branches: Seq::empty(),
        index: 0,
        phase: Phase::Start,
        outcomes: Seq::empty(),
    }
}

/// The exit status of a run that stopped for `halt`.
pub open spec fn halt_code(halt: Halt) -> int {
    match halt {
        Halt::QueryFailed => EXIT_ABORTED as int,
        _ => EXIT_FAILURE as int,
    }
}

/// The operation that `run` asks for.
pub open spec fn pending(run: RunModel) -> ActionModel {
    match run.phase {
        Phase::Start => ActionModel::FetchAll,
        Phase::Fetched => ActionModel::ResetDestination(run.destination),
        Phase::DestinationReady => ActionModel::ResolveBranches,
        Phase::Merging => ActionModel::MergeRemote(run.branches[run.index]),
        Phase::Classifying => ActionModel::CheckConflicts,
        Phase::Committing => ActionModel::CommitPendingMerge,
        Phase::Done => ActionModel::Exit { code: EXIT_SUCCESS as int, notice: None },
        Phase::Halted(halt) => ActionModel::Exit {
            code: halt_code(halt),
            notice: match halt {
                Halt::Conflicted => Some(CONFLICT_GUIDANCE@),
                Halt::CommitFailed => Some(commit_failure_text(run.branches[run.index])),
                _ => None,
            },
        },
    }
}

/// The run that follows `run` once `event` is reported. An event that does
/// not answer the pending operation leaves the run as it is.
pub open spec fn next(run: RunModel, event: EventModel) -> RunModel {
    match (run.phase, event) {
        (Phase::Start, EventModel::Finished(success)) => run.at(
            if success {
                Phase::Fetched
            } else {
                Phase::Halted(Halt::FetchFailed)
            },
        ),
        (Phase::Fetched, EventModel::Finished(success)) => run.at(
            if success {
                Phase::DestinationReady
            } else {
                Phase::Halted(Halt::CheckoutFailed)
            },
        ),
        (Phase::DestinationReady, EventModel::Resolved(branches)) => RunModel {
            branches,
            phase: if branches.len() > 0 {
                Phase::Merging
            } else {
                Phase::Done
            },
            ..run
        },
        (Phase::DestinationReady, EventModel::QueryFailed) => run.at(
            Phase::Halted(Halt::QueryFailed),
        ),
        (Phase::Merging, EventModel::Finished(success)) => if success {
            run.merged(MergeOutcome::Clean)
        } else {
            run.at(Phase::Classifying)
        },
        (Phase::Classifying, EventModel::Conflicts(present)) => if present {
            RunModel {
                phase: Phase::Halted(Halt::Conflicted),
                outcomes: run.outcomes.push(MergeOutcome::Conflicted),
                ..run
            }
        } else {
            run.at(Phase::Committing)
        },
        (Phase::Committing, EventModel::Finished(success)) => if success {
            run.merged(MergeOutcome::CommittedAutoMerge)
        } else {
            run.at(Phase::Halted(Halt::CommitFailed))
        },
        _ => run,
    }
}

/// The arguments of the git command that carries out `action`; `None` for an
/// operation that is no git command.
pub open spec fn command_of(action: ActionModel) -> Option<Seq<Seq<char>>> {
    match action {
        ActionModel::FetchAll => Some(fetch_arguments()),
        ActionModel::ResetDestination(branch) => Some(checkout_arguments(branch)),
        ActionModel::MergeRemote(branch) => Some(merge_arguments(branch)),
        ActionModel::CommitPendingMerge => Some(commit_arguments()),
        _ => None,
    }
}

impl Action {
    /// The arguments of the git command that carries out this operation.
    pub fn command(&self) -> (arguments: Option<Vec<String>>)
        ensures
            match arguments {
                Some(list) => command_of(self@) == Some(texts(list@)),
                None => command_of(self@).is_none(),
            },
    {
        match self {
            Action::FetchAll => Some(git_fetch()),
            Action::ResetDestination(branch) => Some(git_checkout(branch.as_str())),
            Action::MergeRemote(branch) => Some(git_merge(branch.as_str())),
            Action::CommitPendingMerge => Some(git_commit()),
            _ => None,
        }
    }
}

/// A run in progress.
pub struct IntegrationRun {
    destination: String,
    branches: Vec<String>,
    index: usize,
    phase: Phase,
    outcomes: Vec<MergeOutcome>,
}

impl View for IntegrationRun {
    type V = RunModel;

    closed spec fn view(&self) -> RunModel {
        RunModel {
            destination: self.destination@,
            branches: texts(self.branches@),
            index: self.index as int,
            phase: self.phase,
            outcomes: self.outcomes@,
        }
    }
}

impl IntegrationRun {
    #[verifier::type_invariant]
    spec fn valid(&self) -> bool {
        self@.well_formed()
    }

    /// A run for `destination` on which nothing was done yet.
    pub fn new(destination: String) -> (run: IntegrationRun)
        ensures
            run@ == initial(destination@),
    {
        let run = IntegrationRun {
            destination,
            branches: Vec::new(),
            index: 0,
            phase: Phase::Start,
            outcomes: Vec::new(),
        };
        assert(run@ =~= initial(destination@));
        run
    }

    /// The phase of the run.
    pub fn phase(&self) -> (phase: Phase)
        ensures
            phase == self@.phase,
    {
        self.phase
    }

    /// The branch that everything is merged into.
    pub fn destination(&self) -> (name: &str)
        ensures
            name@ == self@.destination,
    {
        self.destination.as_str()
    }

    /// The branches to merge, once they are known.
    pub fn source_branches(&self) -> (branches: &Vec<String>)
        ensures
            texts(branches@) == self@.branches,
    {
        &self.branches
    }

    /// Index of the branch at hand: the number of branches merged so far.
    pub fn current_index(&self) -> (index: usize)
        ensures
            index == self@.index,
    {
        self.index
    }

    /// How the merges so far have ended, one outcome for each branch.
    pub fn outcomes(&self) -> (outcomes: &Vec<MergeOutcome>)
        ensures
            outcomes@ == self@.outcomes,
    {
        &self.outcomes
    }

    /// Whether the run asks for no further operation.
    pub fn is_finished(&self) -> (finished: bool)
        ensures
            finished == self@.finished(),
    {
        match self.phase {
            Phase::Done => true,
            Phase::Halted(_) => true,
            _ => false,
        }
    }

    /// The operation that the run asks for.
    pub fn pending(&self) -> (action: Action)
        ensures
            self@.well_formed(),
            action@ == pending(self@),
    {
        proof {
            use_type_invariant(self);
        }
        match self.phase {
            Phase::Start => Action::FetchAll,
            Phase::Fetched => Action::ResetDestination(self.destination.clone()),
            Phase::DestinationReady => Action::ResolveBranches,
            Phase::Merging => Action::MergeRemote(self.branches[self.index].clone()),
            Phase::Classifying => Action::CheckConflicts,
            Phase::Committing => Action::CommitPendingMerge,
            Phase::Done => Action::Exit { code: EXIT_SUCCESS, notice: None },
            Phase::Halted(Halt::Conflicted) => Action::Exit {
                code: EXIT_FAILURE,
                notice: Some(String::from_str(CONFLICT_GUIDANCE)),
            },
            Phase::Halted(Halt::CommitFailed) => Action::Exit {
                code: EXIT_FAILURE,
                notice: Some(commit_failure_notice(self.branches[self.index].as_str())),
            },
            Phase::Halted(Halt::QueryFailed) => Action::Exit { code: EXIT_ABORTED, notice: None },
            Phase::Halted(_) => Action::Exit { code: EXIT_FAILURE, notice: None },
        }
    }

    /// The run after the branch at hand was merged with `outcome`.
    fn merged(self, outcome: MergeOutcome) -> (run: IntegrationRun)
        requires
            self@.phase is Merging || self@.phase is Committing,
            outcome != MergeOutcome::Conflicted,
        ensures
            run@ == self@.merged(outcome),
    {
        proof {
            use_type_invariant(&self);
        }
        assert(self.index < self.branches.len());
        let mut outcomes = self.outcomes;
        outcomes.push(outcome);
        let index = self.index + 1;
        let phase = if index < self.branches.len() {
            Phase::Merging
        } else {
            Phase::Done
        };
        IntegrationRun {
            destination: self.destination,
            branches: self.branches,
            index,
            phase,
            outcomes,
        }
    }

    /// The run in another phase that asks no more of its fields.
    fn at(self, phase: Phase) -> (run: IntegrationRun)
        requires
            self@.at(phase).well_formed(),
        ensures
            run@ == self@.at(phase),
    {
        IntegrationRun {
            destination: self.destination,
            branches: self.branches,
            index: self.index,
            phase,
            outcomes: self.outcomes,
        }
    }

    /// Takes the report on the pending operation and moves on: returns the
    /// run that follows, and the operation that it asks for.
    pub fn step(self, event: Event) -> (after: (IntegrationRun, Action))
        ensures
            self@.well_formed(),
            after.0@ == next(self@, event@),
            after.0@.well_formed(),
            after.1@ == pending(after.0@),
    {
        proof {
            use_type_invariant(&self);
        }
        let run = match (self.phase, event) {
            (Phase::Start, Event::Finished(success)) => {
                if success {
                    self.at(Phase::Fetched)
                } else {
                    self.at(Phase::Halted(Halt::FetchFailed))
                }
            },
            (Phase::Fetched, Event::Finished(success)) => {
                if success {
                    self.at(Phase::DestinationReady)
                } else {
                    self.at(Phase::Halted(Halt::CheckoutFailed))
                }
            },
            (Phase::DestinationReady, Event::Resolved(branches)) => {
                let phase = if branches.len() > 0 {
                    Phase::Merging
                } else {
                    Phase::Done
                };
                IntegrationRun {
                    destination: self.destination,
                    branches,
                    index: self.index,
                    phase,
                    outcomes: self.outcomes,
                }
            },
            (Phase::DestinationReady, Event::QueryFailed) => {
                self.at(Phase::Halted(Halt::QueryFailed))
            },
            (Phase::Merging, Event::Finished(success)) => {
                if success {
                    self.merged(MergeOutcome::Clean)
                } else {
                    self.at(Phase::Classifying)
                }
            },
            (Phase::Classifying, Event::Conflicts(present)) => {
                if present {
                    let mut outcomes = self.outcomes;
                    outcomes.push(MergeOutcome::Conflicted);
                    assert(outcomes@.drop_last() =~= self.outcomes@);
                    IntegrationRun {
                        destination: self.destination,
                        branches: self.branches,
                        index: self.index,
                        phase: Phase::Halted(Halt::Conflicted),
                        outcomes,
                    }
                } else {
                    self.at(Phase::Committing)
                }
            },
            (Phase::Committing, Event::Finished(success)) => {
                if success {
                    self.merged(MergeOutcome::CommittedAutoMerge)
                } else {
                    self.at(Phase::Halted(Halt::CommitFailed))
                }
            },
            _ => self,
        };
        let action = run.pending();
        (run, action)
    }
}

} // verus!
