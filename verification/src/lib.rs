//! A branch-centric layer over a version-control system's worktree mechanism.
//!
//! Branches and worktree directories are kept in lockstep: creating, deleting,
//! renaming and copying a branch carries its worktree along, and a one-shot
//! converter turns a conventional repository into a bare-store-plus-worktrees
//! layout.  Everything here is pure: the functions map the textual state that
//! the version-control gateway reports (and plain facts about the filesystem)
//! to decisions — exact command vectors to issue, file contents to write, and
//! errors to raise.  Running the commands, touching the filesystem and parsing
//! arguments stay outside the library.

pub mod cli;
pub mod commands;
pub mod config;
pub mod error;
pub mod git;
pub mod output;
pub mod resolve;
pub mod strutil;
pub mod worktree;

use vstd::prelude::*;

verus! {

/// A `Result` seen through the views of both of its sides.
pub open spec fn result_view<T: View, E: View>(r: Result<T, E>) -> Result<T::V, E::V> {
    match r {
        Ok(t) => Ok(t@),
        Err(e) => Err(e@),
    }
}

} // verus!
