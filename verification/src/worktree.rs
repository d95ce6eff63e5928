//! The worktree registry.
//!
//! The gateway's machine-readable worktree listing is a line-oriented text:
//! a `worktree ` line opens a record and flushes the one before it, later
//! lines mutate the open record, unrecognized lines are ignored, and the end
//! of input flushes the last record.  This module parses that text into
//! structured records and answers the two queries the lifecycle manager
//! needs: which record owns a branch, and which record contains a path.
//! It also computes the exact argument vectors for the gateway's worktree
//! commands; issuing them is the caller's business.

use vstd::prelude::*;

use crate::strutil::{
    push_str, spec_lines, split_lines, starts_with, str_eq, str_strip_prefix,
};

verus! {

/// A parsed worktree record.
pub struct WorktreeInfo {
    /// Absolute path of the checkout.
    pub path: String,
    /// Commit the checkout's HEAD points at.
    pub head: String,
    /// Branch checked out there, if not detached and not bare.
    pub branch: Option<String>,
    /// The record of the bare store itself.
    pub is_bare: bool,
    /// HEAD is detached.
    pub is_detached: bool,
}

/// The mathematical shadow of a `WorktreeInfo`.
pub struct WorktreeModel {
    pub path: Seq<char>,
    pub head: Seq<char>,
    pub branch: Option<Seq<char>>,
    pub is_bare: bool,
    pub is_detached: bool,
}

impl View for WorktreeInfo {
    type V = WorktreeModel;

    open spec fn view(&self) -> WorktreeModel {
        WorktreeModel {
            path: self.path@,
            head: self.head@,
            branch: match self.branch {
                Some(b) => Some(b@),
                None => None,
            },
            is_bare: self.is_bare,
            is_detached: self.is_detached,
        }
    }
}

impl DeepView for WorktreeInfo {
    type V = WorktreeModel;

    open spec fn deep_view(&self) -> WorktreeModel {
        self.view()
    }
}

/// The record a `worktree <path>` line opens.
pub open spec fn fresh_record(path: Seq<char>) -> WorktreeModel {
    WorktreeModel { path, head: Seq::empty(), branch: None, is_bare: false, is_detached: false }
}

/// The branch name carried by a `branch <ref>` line: the ref with its
/// `refs/heads/` prefix stripped when present.
pub open spec fn spec_branch_of_ref(r: Seq<char>) -> Seq<char> {
    if starts_with(r, "refs/heads/"@) {
        r.skip("refs/heads/"@.len() as int)
    } else {
        r
    }
}

/// How one listing line transforms the open record.
pub open spec fn apply_line(cur: WorktreeModel, line: Seq<char>) -> WorktreeModel {
    if starts_with(line, "HEAD "@) {
        WorktreeModel { head: line.skip("HEAD "@.len() as int), ..cur }
    } else if starts_with(line, "branch "@) {
        WorktreeModel {
            branch: Some(spec_branch_of_ref(line.skip("branch "@.len() as int))),
            ..cur
        }
    } else if line == "bare"@ {
        WorktreeModel { is_bare: true, ..cur }
    } else if line == "detached"@ {
        WorktreeModel { is_detached: true, ..cur }
    } else {
        cur
    }
}

/// The records parsed from the remaining lines, given the record still open.
pub open spec fn parse_rec(lines: Seq<Seq<char>>, cur: Option<WorktreeModel>) -> Seq<WorktreeModel>
    decreases lines.len(),
{
    if lines.len() == 0 {
        match cur {
            Some(w) => seq![w],
            None => Seq::empty(),
        }
    } else {
        let line = lines[0];
        if starts_with(line, "worktree "@) {
            let opened = fresh_record(line.skip("worktree "@.len() as int));
            match cur {
                Some(w) => seq![w] + parse_rec(lines.drop_first(), Some(opened)),
                None => parse_rec(lines.drop_first(), Some(opened)),
            }
        } else {
            match cur {
                Some(w) => parse_rec(lines.drop_first(), Some(apply_line(w, line))),
                None => parse_rec(lines.drop_first(), None),
            }
        }
    }
}

/// The records described by a whole worktree listing.
pub open spec fn spec_worktrees(s: Seq<char>) -> Seq<WorktreeModel> {
    parse_rec(spec_lines(s), None)
}

/// Parse the gateway's porcelain worktree listing into structured records.
pub fn list_worktrees(output: &str) -> (r: Vec<WorktreeInfo>)
    ensures
        r.deep_view() == spec_worktrees(output@),
{
    let lines = split_lines(output);
    let mut r: Vec<WorktreeInfo> = Vec::new();
    let mut cur: Option<WorktreeInfo> = None;
    let mut i: usize = 0;
    proof {
        assert(lines.deep_view().skip(0) =~= lines.deep_view());
        assert(r.deep_view() + parse_rec(lines.deep_view(), cur.deep_view()) =~= parse_rec(
            lines.deep_view(),
            cur.deep_view(),
        ));
    }
    while i < lines.len()
        invariant
            i <= lines.len(),
            lines.deep_view() == spec_lines(output@),
            spec_worktrees(output@) == r.deep_view() + parse_rec(
                lines.deep_view().skip(i as int),
                cur.deep_view(),
            ),
        decreases lines.len() - i,
    {
        let ghost rest = lines.deep_view().skip(i as int);
        let ghost old_dv = r.deep_view();
        let ghost old_cur = cur.deep_view();
        proof {
            assert(rest[0] == lines.deep_view()[i as int]);
            assert(rest.drop_first() =~= lines.deep_view().skip(i + 1));
        }
        let line = &lines[i];
        if let Some(stripped) = str_strip_prefix(line.as_str(), "worktree ") {
            let opened = WorktreeInfo {
                path: String::from_str(stripped),
                head: String::new(),
                branch: None,
                is_bare: false,
                is_detached: false,
            };
            let prev = cur;
            cur = Some(opened);
            match prev {
                Some(w) => {
                    r.push(w);
                    proof {
                        assert(r.deep_view() =~= old_dv.push(old_cur->0));
                        assert(old_dv.push(old_cur->0) + parse_rec(
                            lines.deep_view().skip(i + 1),
                            cur.deep_view(),
                        ) =~= old_dv + (seq![old_cur->0] + parse_rec(
                            lines.deep_view().skip(i + 1),
                            cur.deep_view(),
                        )));
                    }
                },
                None => {},
            }
        } else if let Some(stripped) = str_strip_prefix(line.as_str(), "HEAD ") {
            cur = match cur {
                Some(w) => Some(
                    WorktreeInfo {
                        path: w.path,
                        head: String::from_str(stripped),
                        branch: w.branch,
                        is_bare: w.is_bare,
                        is_detached: w.is_detached,
                    },
                ),
                None => None,
            };
        } else if let Some(full_ref) = str_strip_prefix(line.as_str(), "branch ") {
            let name = match str_strip_prefix(full_ref, "refs/heads/") {
                Some(t) => t,
                None => full_ref,
            };
            cur = match cur {
                Some(w) => Some(
                    WorktreeInfo {
                        path: w.path,
                        head: w.head,
                        branch: Some(String::from_str(name)),
                        is_bare: w.is_bare,
                        is_detached: w.is_detached,
                    },
                ),
                None => None,
            };
        } else if str_eq(line.as_str(), "bare") {
            cur = match cur {
                Some(w) => Some(
                    WorktreeInfo {
                        path: w.path,
                        head: w.head,
                        branch: w.branch,
                        is_bare: true,
                        is_detached: w.is_detached,
                    },
                ),
                None => None,
            };
        } else if str_eq(line.as_str(), "detached") {
            cur = match cur {
                Some(w) => Some(
                    WorktreeInfo {
                        path: w.path,
                        head: w.head,
                        branch: w.branch,
                        is_bare: w.is_bare,
                        is_detached: true,
                    },
                ),
                None => None,
            };
        }
        i += 1;
    }
    proof {
        assert(lines.deep_view().skip(i as int).len() == 0);
    }
    let last = cur;
    match last {
        Some(w) => {
            let ghost old_dv = r.deep_view();
            r.push(w);
            proof {
                assert(r.deep_view() =~= old_dv.push(w@));
                assert(old_dv.push(w@) =~= old_dv + seq![w@]);
            }
        },
        None => {
            proof {
                assert(r.deep_view() + Seq::<WorktreeModel>::empty() =~= r.deep_view());
            }
        },
    }
    r
}

/// `q` lies inside the directory `wt`: it is `wt` itself or continues it
/// across a `/` boundary.  Both paths are expected canonicalized, absolute
/// and free of trailing separators.
pub open spec fn path_within(wt: Seq<char>, q: Seq<char>) -> bool {
    wt == q || (wt.len() < q.len() && q.take(wt.len() as int) == wt && q[wt.len() as int] == '/')
}

/// A record that can own a query path: a non-bare checkout whose directory
/// contains it.
pub open spec fn path_match(w: WorktreeModel, q: Seq<char>) -> bool {
    !w.is_bare && path_within(w.path, q)
}

/// Does the query path lie inside this record's directory?  Caller hands
/// both sides canonicalized.
fn path_contains(wt: &str, q: &str) -> (r: bool)
    ensures
        r == path_within(wt@, q@),
{
    if str_eq(wt, q) {
        return true;
    }
    let lw: usize = wt.unicode_len();
    let lq: usize = q.unicode_len();
    if lw < lq && crate::strutil::str_starts_with(q, wt) && q.get_char(lw) == '/' {
        proof {
            assert(q@.take(lw as int) == wt@);
        }
        true
    } else {
        false
    }
}

/// First record whose branch is `branch`; when out-of-band edits left the
/// listing with several, the first in listing order wins — a defined
/// tie-break, not an error.
pub fn find_worktree_for_branch<'a>(branch: &str, worktrees: &'a Vec<WorktreeInfo>) -> (r: Option<
    &'a WorktreeInfo,
>)
    ensures
        match r {
            Some(w) => exists|i: int|
                #![auto]
                0 <= i < worktrees@.len() && worktrees@[i] == *w && worktrees@[i]@.branch == Some(
                    branch@,
                ) && (forall|j: int| 0 <= j < i ==> (#[trigger] worktrees@[j]@.branch) != Some(
                    branch@,
                )),
            None => forall|i: int|
                0 <= i < worktrees@.len() ==> (#[trigger] worktrees@[i]@.branch) != Some(branch@),
        },
{
    let mut i: usize = 0;
    while i < worktrees.len()
        invariant
            i <= worktrees@.len(),
            forall|j: int| 0 <= j < i ==> (#[trigger] worktrees@[j]@.branch) != Some(branch@),
        decreases worktrees@.len() - i,
    {
        match &worktrees[i].branch {
            Some(b) => {
                if str_eq(b.as_str(), branch) {
                    return Some(&worktrees[i]);
                }
            },
            None => {},
        }
        i += 1;
    }
    None
}

/// The record containing the given (canonicalized) path: among non-bare
/// records whose directory contains it, the one with the longest path, the
/// first in listing order on a tie.  Resolves the "current branch" even from
/// a nested subdirectory.
pub fn find_worktree_for_path<'a>(path: &str, worktrees: &'a Vec<WorktreeInfo>) -> (r: Option<
    &'a WorktreeInfo,
>)
    ensures
        match r {
            Some(w) => exists|i: int|
                #![auto]
                0 <= i < worktrees@.len() && worktrees@[i] == *w && path_match(
                    worktrees@[i]@,
                    path@,
                ) && (forall|j: int|
                    0 <= j < worktrees@.len() && path_match(#[trigger] worktrees@[j]@, path@)
                        ==> worktrees@[j]@.path.len() <= worktrees@[i]@.path.len()) && (forall|
                    j: int,
                |
                    0 <= j < i && path_match(#[trigger] worktrees@[j]@, path@)
                        ==> worktrees@[j]@.path.len() < worktrees@[i]@.path.len()),
            None => forall|i: int|
                0 <= i < worktrees@.len() ==> !path_match(#[trigger] worktrees@[i]@, path@),
        },
{
    let mut best: Option<usize> = None;
    let mut i: usize = 0;
    while i < worktrees.len()
        invariant
            i <= worktrees@.len(),
            match best {
                Some(b) => 0 <= b < i && path_match(worktrees@[b as int]@, path@) && (forall|j: int|
                    0 <= j < i && path_match(#[trigger] worktrees@[j]@, path@)
                        ==> worktrees@[j]@.path.len() <= worktrees@[b as int]@.path.len()) && (
                forall|j: int|
                    0 <= j < b && path_match(#[trigger] worktrees@[j]@, path@)
                        ==> worktrees@[j]@.path.len() < worktrees@[b as int]@.path.len()),
                None => forall|j: int|
                    0 <= j < i ==> !path_match(#[trigger] worktrees@[j]@, path@),
            },
        decreases worktrees@.len() - i,
    {
        let w = &worktrees[i];
        if !w.is_bare && path_contains(w.path.as_str(), path) {
            let better: bool = match best {
                Some(b) => worktrees[b].path.as_str().unicode_len()
                    < w.path.as_str().unicode_len(),
                None => true,
            };
            if better {
                best = Some(i);
            }
        }
        i += 1;
    }
    match best {
        Some(b) => Some(&worktrees[b]),
        None => None,
    }
}

/// Arguments adding a worktree at `path` for `branch`, creating the branch
/// alongside when asked, from an optional start point.
pub open spec fn add_worktree_args(
    path: Seq<char>,
    branch: Seq<char>,
    create_branch: bool,
    start_point: Option<Seq<char>>,
) -> Seq<Seq<char>> {
    if create_branch {
        match start_point {
            Some(sp) => seq!["worktree"@, "add"@, "-b"@, branch, path, sp],
            None => seq!["worktree"@, "add"@, "-b"@, branch, path],
        }
    } else {
        seq!["worktree"@, "add"@, path, branch]
    }
}

/// The gateway command that adds a worktree for a branch.
pub fn add_worktree(path: &str, branch: &str, create_branch: bool, start_point: Option<&str>) -> (r:
    Vec<String>)
    ensures
        r.deep_view() == add_worktree_args(
            path@,
            branch@,
            create_branch,
            match start_point {
                Some(sp) => Some(sp@),
                None => None,
            },
        ),
{
    let mut r: Vec<String> = Vec::new();
    push_str(&mut r, "worktree");
    push_str(&mut r, "add");
    if create_branch {
        push_str(&mut r, "-b");
        push_str(&mut r, branch);
        push_str(&mut r, path);
        if let Some(sp) = start_point {
            push_str(&mut r, sp);
            proof {
                assert(r.deep_view() =~= seq!["worktree"@, "add"@, "-b"@, branch@, path@, sp@]);
            }
        } else {
            proof {
                assert(r.deep_view() =~= seq!["worktree"@, "add"@, "-b"@, branch@, path@]);
            }
        }
    } else {
        push_str(&mut r, path);
        push_str(&mut r, branch);
        proof {
            assert(r.deep_view() =~= seq!["worktree"@, "add"@, path@, branch@]);
        }
    }
    r
}

/// Arguments removing the worktree at `path`; force bypasses the gateway's
/// dirty-tree checks.
pub open spec fn remove_worktree_args(path: Seq<char>, force: bool) -> Seq<Seq<char>> {
    if force {
        seq!["worktree"@, "remove"@, "--force"@, path]
    } else {
        seq!["worktree"@, "remove"@, path]
    }
}

/// The gateway command that removes a worktree.
pub fn remove_worktree(path: &str, force: bool) -> (r: Vec<String>)
    ensures
        r.deep_view() == remove_worktree_args(path@, force),
{
    let mut r: Vec<String> = Vec::new();
    push_str(&mut r, "worktree");
    push_str(&mut r, "remove");
    if force {
        push_str(&mut r, "--force");
    }
    push_str(&mut r, path);
    proof {
        if force {
            assert(r.deep_view() =~= seq!["worktree"@, "remove"@, "--force"@, path@]);
        } else {
            assert(r.deep_view() =~= seq!["worktree"@, "remove"@, path@]);
        }
    }
    r
}

/// The gateway command that moves a worktree to a new path.
pub fn move_worktree(old_path: &str, new_path: &str) -> (r: Vec<String>)
    ensures
        r.deep_view() == seq!["worktree"@, "move"@, old_path@, new_path@],
{
    let mut r: Vec<String> = Vec::new();
    push_str(&mut r, "worktree");
    push_str(&mut r, "move");
    push_str(&mut r, old_path);
    push_str(&mut r, new_path);
    proof {
        assert(r.deep_view() =~= seq!["worktree"@, "move"@, old_path@, new_path@]);
    }
    r
}

/// The gateway command that prunes stale worktree registrations.
pub fn prune() -> (r: Vec<String>)
    ensures
        r.deep_view() == seq!["worktree"@, "prune"@],
{
    let mut r: Vec<String> = Vec::new();
    push_str(&mut r, "worktree");
    push_str(&mut r, "prune");
    proof {
        assert(r.deep_view() =~= seq!["worktree"@, "prune"@]);
    }
    r
}

} // verus!
