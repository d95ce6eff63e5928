//! Copy: duplicate the ref, then always a fresh worktree.
//!
//! The old branch and its worktree stay untouched; the new branch gets a
//! worktree of its own at its resolved path — never a reuse of the old
//! one.

use vstd::prelude::*;

use crate::config::WbConfig;
use crate::git::copy_branch;
use crate::resolve::branch_to_worktree_path;
use crate::worktree::{add_worktree, add_worktree_args};

verus! {

/// What a copy asks the caller to do, in order: duplicate the ref, add the
/// fresh worktree, report the path.
#[derive(Debug)]
pub struct CopyPlan {
    /// The gateway command duplicating the ref.
    pub copy_cmd: Vec<String>,
    /// The gateway command adding the new branch's own worktree.
    pub add_cmd: Vec<String>,
    /// Where the new worktree goes.
    pub path: String,
}

/// Decide a copy command: the ref duplication, then a fresh worktree for
/// the new name at its resolved path, whatever worktree the old name has.
pub fn run(old: &str, new: &str, force: bool, config: &WbConfig) -> (r: CopyPlan)
    ensures
        r.copy_cmd.deep_view() == seq!["branch"@, if force {
            "-C"@
        } else {
            "-c"@
        }, old@, new@],
        r.path@ == crate::commands::create::resolved_path(*config, new@),
        r.add_cmd.deep_view() == add_worktree_args(
            crate::commands::create::resolved_path(*config, new@),
            new@,
            false,
            None,
        ),
{
    let copy_cmd = copy_branch(old, new, force);
    let path = branch_to_worktree_path(config, new);
    let add_cmd = add_worktree(path.as_str(), new, false, None);
    CopyPlan { copy_cmd, add_cmd, path }
}

} // verus!
