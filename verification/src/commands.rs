//! The git invocations of a run, as argument lists, the texts shown to the
//! operator, and the reading of a working-tree status. Running a command is
//! left to the caller.

use crate::texts;
use vstd::prelude::*;
use vstd::string::StringExecFns;

verus! {

/// The program that every argument list of this module is meant for.
pub const GIT_PROGRAM: &'static str = "git";

/// The remote whose branches are integrated.
pub const REMOTE_PREFIX: &'static str = "origin/";

/// The remote branch that the destination branch is reset to.
pub const RESET_TARGET: &'static str = "origin/master";

/// What the operator is told when a merge stops on a conflict.
pub const CONFLICT_GUIDANCE: &'static str =
    "\nMerge conflict detected, either fix the conflict and \nuse `git commit --no-edit` commit this merge or use \n`git merge --abort` to quit this merge";

/// Start of the line that announces a merge.
pub const MERGING_PREFIX: &'static str = "\nMerging ";

/// Start of the line that reports a merge whose commit failed.
pub const COMMIT_FAILURE_PREFIX: &'static str = "Failure merging branch ";

/// Arguments that update every remote-tracking ref.
pub open spec fn fetch_arguments() -> Seq<Seq<char>> {
    seq!["fetch"@, "--all"@]
}

/// Arguments that create `branch`, or reset it, at the reset target, without
/// making it track that target.
pub open spec fn checkout_arguments(branch: Seq<char>) -> Seq<Seq<char>> {
    seq!["checkout"@, "--no-track"@, "-B"@, branch, RESET_TARGET@]
}

/// Arguments that merge the remote's `branch` into the current branch: always
/// with a merge commit, with the prepared message, reusing recorded
/// resolutions, and with a log of the merged commits.
pub open spec fn merge_arguments(branch: Seq<char>) -> Seq<Seq<char>> {
    seq![
        "merge"@,
        "--no-ff"@,
        "--no-edit"@,
        "--rerere-autoupdate"@,
        "--log"@,
        REMOTE_PREFIX@ + branch,
    ]
}

/// Arguments that commit a staged merge with the prepared message.
pub open spec fn commit_arguments() -> Seq<Seq<char>> {
    seq!["commit"@, "--no-edit"@]
}

/// The line that announces the merge of `branch`.
pub open spec fn merging_text(branch: Seq<char>) -> Seq<char> {
    MERGING_PREFIX@ + branch
}

/// The line that reports that the merge of `branch` could not be committed.
pub open spec fn commit_failure_text(branch: Seq<char>) -> Seq<char> {
    COMMIT_FAILURE_PREFIX@ + branch
}

/// The status bits of a path in conflict.
pub open spec fn conflicted_bits() -> u32 {
    0x8000
}

/// Some path of the working tree has exactly the status "conflicted".
pub open spec fn has_conflicts(statuses: Seq<u32>) -> bool {
    exists|i: int| 0 <= i < statuses.len() && statuses[i] == conflicted_bits()
}

/// The bits of `git2::Status::CONFLICTED`: bit 15 alone, which `libgit2`
/// defines as `GIT_STATUS_CONFLICTED`.
#[verifier::external_body]
fn conflicted_status() -> (bits: u32)
    ensures
        bits == conflicted_bits(),
{
    git2::Status::CONFLICTED.bits()
}

/// `fetch --all`.
pub fn git_fetch() -> (arguments: Vec<String>)
    ensures
        texts(arguments@) == fetch_arguments(),
{
    let mut arguments: Vec<String> = Vec::new();
    arguments.push(String::from_str("fetch"));
    arguments.push(String::from_str("--all"));
    assert(texts(arguments@) =~= fetch_arguments());
    arguments
}

/// `checkout --no-track -B <branch> origin/master`.
pub fn git_checkout(branch: &str) -> (arguments: Vec<String>)
    ensures
        texts(arguments@) == checkout_arguments(branch@),
{
    let mut arguments: Vec<String> = Vec::new();
    arguments.push(String::from_str("checkout"));
    arguments.push(String::from_str("--no-track"));
    arguments.push(String::from_str("-B"));
    arguments.push(String::from_str(branch));
    arguments.push(String::from_str(RESET_TARGET));
    assert(texts(arguments@) =~= checkout_arguments(branch@));
    arguments
}

/// `merge --no-ff --no-edit --rerere-autoupdate --log origin/<branch>`.
pub fn git_merge(branch: &str) -> (arguments: Vec<String>)
    ensures
        texts(arguments@) == merge_arguments(branch@),
{
    let mut arguments: Vec<String> = Vec::new();
    arguments.push(String::from_str("merge"));
    arguments.push(String::from_str("--no-ff"));
    arguments.push(String::from_str("--no-edit"));
    arguments.push(String::from_str("--rerere-autoupdate"));
    arguments.push(String::from_str("--log"));
    arguments.push(String::from_str(REMOTE_PREFIX).concat(branch));
    assert(texts(arguments@) =~= merge_arguments(branch@));
    arguments
}

/// `commit --no-edit`.
pub fn git_commit() -> (arguments: Vec<String>)
    ensures
        texts(arguments@) == commit_arguments(),
{
    let mut arguments: Vec<String> = Vec::new();
    arguments.push(String::from_str("commit"));
    arguments.push(String::from_str("--no-edit"));
    assert(texts(arguments@) =~= commit_arguments());
    arguments
}

/// The line to show before `branch` is merged.
pub fn merging_notice(branch: &str) -> (notice: String)
    ensures
        notice@ == merging_text(branch@),
{
    String::from_str(MERGING_PREFIX).concat(branch)
}

/// The line to show when the merge of `branch` could not be committed.
pub fn commit_failure_notice(branch: &str) -> (notice: String)
    ensures
        notice@ == commit_failure_text(branch@),
{
    String::from_str(COMMIT_FAILURE_PREFIX).concat(branch)
}

/// Whether the working tree holds a path in conflict, given the status bits
/// of its paths.
pub fn working_tree_has_conflicts(statuses: &Vec<u32>) -> (conflicted: bool)
    ensures
        conflicted == has_conflicts(statuses@),
{
    let wanted = conflicted_status();
    let mut i: usize = 0;
    while i < statuses.len()
        invariant
            i <= statuses.len(),
            wanted == conflicted_bits(),
            forall|j: int| 0 <= j < i ==> statuses[j] != conflicted_bits(),
        decreases statuses.len() - i,
    {
        if statuses[i] == wanted {
            return true;
        }
        i += 1;
    }
    false
}

} // verus!
