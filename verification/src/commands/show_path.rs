//! Show the worktree path of a branch.
//!
//! An existing worktree wins; a branch without one reports the path it
//! would resolve to; an absent branch is an error.

use vstd::prelude::*;

use crate::config::WbConfig;
use crate::error::{ErrorModel, GbError};
use crate::resolve::branch_to_worktree_path;
use crate::result_view;
use crate::worktree::{WorktreeInfo, WorktreeModel};

verus! {

/// The path a show-path query reports.
pub open spec fn spec_show_path(
    name: Seq<char>,
    record: Option<WorktreeModel>,
    branch_exists: bool,
    config: WbConfig,
) -> Result<Seq<char>, ErrorModel> {
    match record {
        Some(w) => Ok(w.path),
        None => if branch_exists {
            Ok(crate::commands::create::resolved_path(config, name))
        } else {
            Err(ErrorModel::BranchNotFound(name))
        },
    }
}

/// Report where a branch's worktree is, or would be.
pub fn run(
    name: &str,
    record: Option<&WorktreeInfo>,
    branch_exists: bool,
    config: &WbConfig,
) -> (r: Result<String, GbError>)
    ensures
        result_view(r) == spec_show_path(
            name@,
            match record {
                Some(w) => Some(w@),
                None => None,
            },
            branch_exists,
            *config,
        ),
{
    match record {
        Some(w) => Ok(w.path.clone()),
        None => {
            if branch_exists {
                Ok(branch_to_worktree_path(config, name))
            } else {
                Err(GbError::BranchNotFound(String::from_str(name)))
            }
        },
    }
}

} // verus!
