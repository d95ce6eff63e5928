//! Formatting of the branch listing.
//!
//! The text mirrors the layout of the native branch command: a `* ` marker
//! on the current branch, a ` +` tag on branches that have a worktree, and
//! two verbosity steps adding the abbreviated commit, the subject and the
//! upstream.  Coloring is presentation, not content; a caller that wants
//! color wraps the same fields itself.

use vstd::prelude::*;

use crate::git::{BranchInfo, BranchModel};
use crate::worktree::{WorktreeInfo, WorktreeModel};

verus! {

/// The one line an operation emits on its primary stream when the caller's
/// working directory should change: the reserved prefix, then the path.
/// This prefix protocol is the sole coupling between the core and any
/// wrapping shell integration.
pub fn cd_directive(path: &str) -> (r: String)
    ensures
        r@ == "__wb_cd:"@ + path@,
{
    crate::strutil::concat2("__wb_cd:", path)
}

/// Some non-bare record of the registry belongs to this branch.
pub open spec fn spec_has_worktree(worktrees: Seq<WorktreeModel>, name: Seq<char>) -> bool {
    exists|i: int|
        0 <= i < worktrees.len() && (#[trigger] worktrees[i]).branch == Some(name)
            && !worktrees[i].is_bare
}

/// Does some non-bare record of the registry belong to this branch?
pub fn has_worktree(worktrees: &Vec<WorktreeInfo>, name: &str) -> (r: bool)
    ensures
        r == spec_has_worktree(worktrees.deep_view(), name@),
{
    let mut i: usize = 0;
    while i < worktrees.len()
        invariant
            i <= worktrees.len(),
            forall|j: int|
                0 <= j < i ==> !((#[trigger] worktrees.deep_view()[j]).branch == Some(name@)
                    && !worktrees.deep_view()[j].is_bare),
        decreases worktrees.len() - i,
    {
        let w = &worktrees[i];
        if !w.is_bare {
            match &w.branch {
                Some(b) => {
                    if crate::strutil::str_eq(b.as_str(), name) {
                        proof {
                            assert(worktrees.deep_view()[i as int].branch == Some(name@));
                        }
                        return true;
                    }
                },
                None => {},
            }
        }
        i += 1;
    }
    false
}

/// One line of the listing, uncolored.
pub open spec fn spec_branch_line(b: BranchModel, has_wt: bool, verbose: u8) -> Seq<char> {
    let prefix = if b.is_head {
        "* "@
    } else {
        "  "@
    };
    let ind = if has_wt && !b.is_head {
        " +"@
    } else {
        Seq::<char>::empty()
    };
    if verbose == 0 {
        prefix + b.name + ind
    } else {
        let track = if b.upstream_track.len() > 0 {
            " "@ + b.upstream_track
        } else {
            Seq::<char>::empty()
        };
        if verbose >= 2 {
            let upname = if b.upstream.len() > 0 {
                " ["@ + b.upstream + track + "]"@
            } else {
                Seq::<char>::empty()
            };
            prefix + b.name + ind + " "@ + b.objectname + " "@ + upname + " "@ + b.subject
        } else {
            prefix + b.name + ind + " "@ + b.objectname + " "@ + b.subject + track
        }
    }
}

/// Format one branch record, tagged against the worktree registry.
pub fn format_branch_line(b: &BranchInfo, worktrees: &Vec<WorktreeInfo>, verbose: u8) -> (r: String)
    ensures
        r@ == spec_branch_line(b@, spec_has_worktree(worktrees.deep_view(), b@.name), verbose),
{
    let has_wt = has_worktree(worktrees, b.name.as_str());
    let mut r = String::new();
    if b.is_head {
        r.append("* ");
    } else {
        r.append("  ");
    }
    r.append(b.name.as_str());
    if has_wt && !b.is_head {
        r.append(" +");
    }
    if verbose == 0 {
        proof {
            assert(r@ =~= spec_branch_line(
                b@,
                spec_has_worktree(worktrees.deep_view(), b@.name),
                verbose,
            ));
        }
        return r;
    }
    r.append(" ");
    r.append(b.objectname.as_str());
    r.append(" ");
    if verbose >= 2 {
        if b.upstream.as_str().unicode_len() > 0 {
            r.append(" [");
            r.append(b.upstream.as_str());
            if b.upstream_track.as_str().unicode_len() > 0 {
                r.append(" ");
                r.append(b.upstream_track.as_str());
            }
            r.append("]");
        }
        r.append(" ");
        r.append(b.subject.as_str());
    } else {
        r.append(b.subject.as_str());
        if b.upstream_track.as_str().unicode_len() > 0 {
            r.append(" ");
            r.append(b.upstream_track.as_str());
        }
    }
    proof {
        assert(r@ =~= spec_branch_line(
            b@,
            spec_has_worktree(worktrees.deep_view(), b@.name),
            verbose,
        ));
    }
    r
}

/// The whole listing: one line per branch, joined with `\n`.
pub open spec fn spec_branch_list(
    branches: Seq<BranchModel>,
    worktrees: Seq<WorktreeModel>,
    verbose: u8,
) -> Seq<char>
    decreases branches.len(),
{
    if branches.len() == 0 {
        Seq::empty()
    } else if branches.len() == 1 {
        spec_branch_line(branches[0], spec_has_worktree(worktrees, branches[0].name), verbose)
    } else {
        spec_branch_list(branches.drop_last(), worktrees, verbose) + "\n"@ + spec_branch_line(
            branches.last(),
            spec_has_worktree(worktrees, branches.last().name),
            verbose,
        )
    }
}

/// Format the branch listing, one line per record.
pub fn format_branch_list(branches: &Vec<BranchInfo>, worktrees: &Vec<WorktreeInfo>, verbose: u8)
    -> (r: String)
    ensures
        r@ == spec_branch_list(branches.deep_view(), worktrees.deep_view(), verbose),
{
    let mut r = String::new();
    let mut i: usize = 0;
    proof {
        assert(branches.deep_view().take(0) =~= Seq::<BranchModel>::empty());
    }
    while i < branches.len()
        invariant
            i <= branches.len(),
            r@ == spec_branch_list(
                branches.deep_view().take(i as int),
                worktrees.deep_view(),
                verbose,
            ),
        decreases branches.len() - i,
    {
        if i > 0 {
            r.append("\n");
        }
        let line = format_branch_line(&branches[i], worktrees, verbose);
        r.append(line.as_str());
        proof {
            let taken = branches.deep_view().take(i + 1);
            assert(taken.drop_last() =~= branches.deep_view().take(i as int));
            assert(taken.last() == branches.deep_view()[i as int]);
            assert(r@ =~= spec_branch_list(taken, worktrees.deep_view(), verbose));
        }
        i += 1;
    }
    proof {
        assert(branches.deep_view().take(i as int) =~= branches.deep_view());
    }
    r
}

} // verus!
