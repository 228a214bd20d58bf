//! Integration of the pull-request branches of a milestone into one
//! destination branch: which repository a remote names, which branches a
//! query answer lists, which git commands a run issues, and how a run moves
//! from one command to the next.

use vstd::prelude::*;

pub mod git_extras;
pub mod commands;
pub mod github;
pub mod integrate;
pub mod traces;

verus! {

/// The texts that a sequence of strings holds, in order.
pub open spec fn texts(strings: Seq<String>) -> Seq<Seq<char>> {
    strings.map_values(|s: String| s@)
}

} // verus!
