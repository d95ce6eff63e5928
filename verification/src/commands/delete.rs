//! Delete: a branch and its worktree, in lockstep.
//!
//! Names of a batch are processed independently, each against a fresh
//! registry snapshot, and one failure does not undo or stop prior
//! successes: the caller runs this decision once per name.  Deleting is
//! refused outright when the working directory stands inside the target's
//! own worktree — whatever the force flag says.  When a worktree exists it
//! is removed before the ref is deleted, because the gateway refuses to
//! delete a checked-out ref.

use vstd::prelude::*;

use crate::error::{ErrorModel, GbError};
use crate::git::delete_branch;
use crate::strutil::{concat2, push_str, push_string};
use crate::worktree::{remove_worktree, remove_worktree_args, WorktreeInfo, WorktreeModel};

verus! {

/// The commands deleting one branch, in issue order.
pub open spec fn spec_delete_commands(
    name: Seq<char>,
    force: bool,
    record: Option<WorktreeModel>,
) -> Seq<Seq<Seq<char>>> {
    let delete_cmd = seq!["branch"@, if force {
        "-D"@
    } else {
        "-d"@
    }, name];
    match record {
        Some(w) => seq![remove_worktree_args(w.path, force), delete_cmd],
        None => seq![delete_cmd],
    }
}

/// The delete decision for one name.  `cwd_owner` is the branch owning the
/// worktree the working directory stands in, when there is one; `record`
/// is the registry record owning the target branch.
pub open spec fn spec_delete(
    name: Seq<char>,
    force: bool,
    cwd_owner: Option<Seq<char>>,
    record: Option<WorktreeModel>,
) -> Result<Seq<Seq<Seq<char>>>, ErrorModel> {
    if cwd_owner == Some(name) {
        Err(ErrorModel::CurrentlyCheckedOut(name))
    } else {
        Ok(spec_delete_commands(name, force, record))
    }
}

/// Decide the deletion of one branch: the gateway commands to issue in
/// order, or the refusal.
pub fn run(
    name: &str,
    force: bool,
    cwd_owner: Option<&String>,
    record: Option<&WorktreeInfo>,
) -> (r: Result<Vec<Vec<String>>, GbError>)
    ensures
        ({
            let spec = spec_delete(
                name@,
                force,
                match cwd_owner {
                    Some(c) => Some(c@),
                    None => None,
                },
                match record {
                    Some(w) => Some(w@),
                    None => None,
                },
            );
            match r {
                Ok(cmds) => spec == Ok::<_, ErrorModel>(cmds.deep_view()),
                Err(e) => spec == Err::<Seq<Seq<Seq<char>>>, _>(e@),
            }
        }),
{
    if let Some(owner) = cwd_owner {
        if crate::strutil::str_eq(owner.as_str(), name) {
            return Err(GbError::CurrentlyCheckedOut(String::from_str(name)));
        }
    }
    let mut cmds: Vec<Vec<String>> = Vec::new();
    let ghost spec_cmds = spec_delete_commands(
        name@,
        force,
        match record {
            Some(w) => Some(w@),
            None => None,
        },
    );
    match record {
        Some(w) => {
            let remove_cmd = remove_worktree(w.path.as_str(), force);
            cmds.push(remove_cmd);
        },
        None => {},
    }
    let del_cmd = delete_branch(name, force);
    cmds.push(del_cmd);
    proof {
        assert(cmds.deep_view() =~~= spec_cmds);
    }
    Ok(cmds)
}

/// Deleting the branch whose worktree the caller stands in is refused, and
/// the force flag has no say in it.
pub proof fn lemma_delete_refuses_own_worktree(
    name: Seq<char>,
    force: bool,
    record: Option<WorktreeModel>,
)
    ensures
        spec_delete(name, force, Some(name), record) == Err::<Seq<Seq<Seq<char>>>, _>(
            ErrorModel::CurrentlyCheckedOut(name),
        ),
{
}

/// When a worktree exists its removal precedes the ref deletion: the
/// gateway refuses to delete a checked-out ref.
pub proof fn lemma_delete_order(name: Seq<char>, force: bool, record: WorktreeModel)
    ensures
        spec_delete_commands(name, force, Some(record)) == seq![
            remove_worktree_args(record.path, force),
            seq!["branch"@, if force {
                "-D"@
            } else {
                "-d"@
            }, name],
        ],
{
}

/// The gateway command printing the abbreviated hash of a branch's tip,
/// shown after a deletion.
pub fn short_hash(branch: &str) -> (r: Vec<String>)
    ensures
        r.deep_view() == seq!["rev-parse"@, "--short"@, "refs/heads/"@ + branch@],
{
    let mut r: Vec<String> = Vec::new();
    push_str(&mut r, "rev-parse");
    push_str(&mut r, "--short");
    let refname = concat2("refs/heads/", branch);
    push_string(&mut r, refname);
    proof {
        assert(r.deep_view() =~= seq!["rev-parse"@, "--short"@, "refs/heads/"@ + branch@]);
    }
    r
}

} // verus!
