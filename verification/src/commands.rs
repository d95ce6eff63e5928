//! The command decisions.
//!
//! One module per branch-affecting command.  Each decision is a pure
//! function from the facts the caller gathered (does the branch exist,
//! which record owns it, is the target path occupied) to the plan to
//! execute: the gateway commands to issue, in order, the path to report,
//! or the error to raise.  The caller performs the plan and re-queries
//! before the next decision; snapshots are never mutated.

pub mod copy;
pub mod create;
pub mod delete;
pub mod edit_description;
pub mod init_repo;
pub mod rename;
pub mod show_path;
pub mod upstream;
