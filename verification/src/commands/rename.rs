//! Rename: the ref first, then the directory.
//!
//! The caller issues the ref rename (`git::rename_branch`), re-queries the
//! registry for the new name, and hands the record here; the worktree
//! directory moves exactly when the path the new name resolves to differs
//! from where the directory stands.  A branch without a worktree renames
//! with no further effect.

use vstd::prelude::*;

use crate::config::WbConfig;
use crate::resolve::branch_to_worktree_path;
use crate::worktree::{move_worktree, WorktreeInfo, WorktreeModel};

verus! {

/// The target the worktree still has to move to, when it has to: the path
/// the new name resolves to, unless no record owns the name or the record
/// already stands there.
pub open spec fn spec_move_needed(
    new: Seq<char>,
    record: Option<WorktreeModel>,
    config: WbConfig,
) -> Option<Seq<char>> {
    match record {
        Some(w) => if w.path != crate::commands::create::resolved_path(config, new) {
            Some(crate::commands::create::resolved_path(config, new))
        } else {
            None
        },
        None => None,
    }
}

/// After the ref rename: the worktree move still owed, as the move command
/// and its target path — `None` when no worktree is associated with the
/// new name or its directory already stands at the resolved path.
pub fn move_step(new: &str, record: Option<&WorktreeInfo>, config: &WbConfig) -> (r: Option<
    (String, Vec<String>),
>)
    ensures
        ({
            let need = spec_move_needed(
                new@,
                match record {
                    Some(w) => Some(w@),
                    None => None,
                },
                *config,
            );
            match need {
                Some(target) => match record {
                    Some(w) => r matches Some((path, cmd)) && path@ == target && cmd.deep_view()
                        == seq!["worktree"@, "move"@, w@.path, target],
                    None => false,
                },
                None => r is None,
            }
        }),
{
    match record {
        Some(w) => {
            let new_path = branch_to_worktree_path(config, new);
            if !crate::strutil::str_eq(w.path.as_str(), new_path.as_str()) {
                let cmd = move_worktree(w.path.as_str(), new_path.as_str());
                Some((new_path, cmd))
            } else {
                None
            }
        },
        None => None,
    }
}

/// The worktree directory moves exactly when the resolved path differs
/// from where it stands: renaming a branch onto a name that resolves to
/// the same directory leaves the filesystem untouched.
pub proof fn lemma_move_iff_path_differs(new: Seq<char>, record: WorktreeModel, config: WbConfig)
    ensures
        ({
            let resolved = crate::commands::create::resolved_path(config, new);
            (record.path == resolved ==> spec_move_needed(new, Some(record), config) is None)
                && (record.path != resolved ==> spec_move_needed(new, Some(record), config)
                == Some(resolved))
        }),
{
}

} // verus!
