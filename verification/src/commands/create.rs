//! Create: a branch and its worktree, in lockstep.
//!
//! When the branch already has a worktree the call is idempotent and simply
//! returns the existing path; when only the ref exists a worktree is added
//! for it; when nothing exists both are created together — unless the
//! resolved directory is already occupied.

use vstd::prelude::*;

use crate::config::WbConfig;
use crate::error::{ErrorModel, GbError};
use crate::resolve::{branch_to_worktree_path, encode_name};
use crate::result_view;
use crate::worktree::{add_worktree, add_worktree_args, WorktreeInfo, WorktreeModel};

verus! {

/// What a create decision asks the caller to do: report `path`, after
/// issuing the worktree command when there is one.
#[derive(Debug)]
pub struct CreatePlan {
    /// The worktree path the invocation ends up in.
    pub path: String,
    /// The gateway command to issue first, when the worktree (and possibly
    /// the branch) does not exist yet.
    pub add: Option<Vec<String>>,
}

/// The mathematical shadow of a `CreatePlan`.
pub struct CreatePlanModel {
    pub path: Seq<char>,
    pub add: Option<Seq<Seq<char>>>,
}

impl View for CreatePlan {
    type V = CreatePlanModel;

    open spec fn view(&self) -> CreatePlanModel {
        CreatePlanModel {
            path: self.path@,
            add: match self.add {
                Some(ref cmd) => Some(cmd.deep_view()),
                None => None,
            },
        }
    }
}

/// The worktree path the configuration resolves a branch name to.
pub open spec fn resolved_path(config: WbConfig, name: Seq<char>) -> Seq<char> {
    config.worktree_dir@ + "/"@ + encode_name(name, config.naming)
}

/// The create decision.  `branch_exists` answers the ref probe, `existing`
/// is the registry record owning the branch, and `path_occupied` tells
/// whether anything already sits at the resolved path (consulted only when
/// the branch is absent).
pub open spec fn spec_create(
    name: Seq<char>,
    start_point: Option<Seq<char>>,
    branch_exists: bool,
    existing: Option<WorktreeModel>,
    path_occupied: bool,
    config: WbConfig,
) -> Result<CreatePlanModel, ErrorModel> {
    if branch_exists {
        match existing {
            Some(w) => Ok(CreatePlanModel { path: w.path, add: None }),
            None => Ok(
                CreatePlanModel {
                    path: resolved_path(config, name),
                    add: Some(add_worktree_args(resolved_path(config, name), name, false, None)),
                },
            ),
        }
    } else if path_occupied {
        Err(ErrorModel::WorktreeAlreadyExists(resolved_path(config, name)))
    } else {
        Ok(
            CreatePlanModel {
                path: resolved_path(config, name),
                add: Some(add_worktree_args(resolved_path(config, name), name, true, start_point)),
            },
        )
    }
}

/// Decide a create command from the gathered facts.
pub fn run(
    name: &str,
    start_point: Option<&str>,
    branch_exists: bool,
    existing: Option<&WorktreeInfo>,
    path_occupied: bool,
    config: &WbConfig,
) -> (r: Result<CreatePlan, GbError>)
    ensures
        result_view(r) == spec_create(
            name@,
            match start_point {
                Some(sp) => Some(sp@),
                None => None,
            },
            branch_exists,
            match existing {
                Some(w) => Some(w@),
                None => None,
            },
            path_occupied,
            *config,
        ),
{
    if branch_exists {
        match existing {
            Some(w) => {
                let path = w.path.clone();
                return Ok(CreatePlan { path, add: None });
            },
            None => {
                let path = branch_to_worktree_path(config, name);
                let cmd = add_worktree(path.as_str(), name, false, None);
                return Ok(CreatePlan { path, add: Some(cmd) });
            },
        }
    }
    let path = branch_to_worktree_path(config, name);
    if path_occupied {
        return Err(GbError::WorktreeAlreadyExists(path));
    }
    let cmd = add_worktree(path.as_str(), name, true, start_point);
    Ok(CreatePlan { path, add: Some(cmd) })
}

/// Create is idempotent.  A first call for a never-before-seen branch (no
/// ref, no worktree, resolved path free) succeeds and settles on the
/// resolved path; once its plan has run, the branch exists and its record
/// sits at that very path, so a second call for the same name succeeds with
/// the same path and asks for nothing further.
pub proof fn lemma_create_idempotent(
    name: Seq<char>,
    start_point: Option<Seq<char>>,
    start_point_again: Option<Seq<char>>,
    record: WorktreeModel,
    path_occupied_again: bool,
    config: WbConfig,
)
    requires
        record.path == resolved_path(config, name),
    ensures
        ({
            let first = spec_create(name, start_point, false, None, false, config);
            let second = spec_create(
                name,
                start_point_again,
                true,
                Some(record),
                path_occupied_again,
                config,
            );
            &&& first is Ok
            &&& second is Ok
            &&& first->Ok_0.path == second->Ok_0.path
            &&& second->Ok_0.add is None
        }),
{
}

} // verus!
