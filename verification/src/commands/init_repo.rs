//! The repository layout converter: two terminal, one-shot operations.
//!
//! `clone_plan` lays out a fresh clone as a bare store plus worktrees;
//! `convert_plan` turns the repository the caller stands in into that
//! layout in place.  Both only decide: every directory name, file content
//! and gateway command comes out of here exactly, and the caller performs
//! them in the given order.  Neither operation is re-runnable after partial
//! completion, and a second run on a converted repository is refused by
//! the guards.

use vstd::prelude::*;

use crate::error::{ErrorModel, GbError};
use crate::strutil::{
    after_last_slash, concat2, concat3, ends_with, lemma_after_last_slash_at, push_str,
    push_string, str_ends_with, str_eq,
};

verus! {

/// What an `init` invocation asks for: cloning a remote into the layout,
/// or converting the repository in place.
#[derive(Debug)]
pub enum InitRequest {
    Clone { url: String, directory: Option<String> },
    Convert,
}

/// Dispatch an `init` invocation.  Shell-integration targets are the
/// wrapping binary's business and must be filtered out before this call.
pub fn run(target: Option<&str>, directory: Option<&str>) -> (r: InitRequest)
    requires
        match target {
            Some(t) => t@ != "zsh"@ && t@ != "bash"@ && t@ != "fish"@,
            None => true,
        },
    ensures
        match target {
            Some(t) => r matches InitRequest::Clone { url, directory: d } && url@ == t@ && (match (
                d,
                directory,
            ) {
                (Some(a), Some(b)) => a@ == b@,
                (None, None) => true,
                _ => false,
            }),
            None => r is Convert,
        },
{
    match target {
        Some(t) => {
            let d = match directory {
                Some(x) => Some(String::from_str(x)),
                None => None,
            };
            InitRequest::Clone { url: String::from_str(t), directory: d }
        },
        None => InitRequest::Convert,
    }
}

/// The clone target directory: the explicit one, or the URL's last path
/// segment with a trailing `.git` stripped.
pub open spec fn spec_clone_dir(url: Seq<char>, directory: Option<Seq<char>>) -> Seq<char> {
    match directory {
        Some(d) => d,
        None => {
            let seg = url.skip(after_last_slash(url));
            if ends_with(seg, ".git"@) {
                seg.take(seg.len() - ".git"@.len())
            } else {
                seg
            }
        },
    }
}

/// Resolve the clone target directory.
pub fn clone_target_dir(url: &str, directory: Option<&str>) -> (r: String)
    ensures
        r@ == spec_clone_dir(
            url@,
            match directory {
                Some(d) => Some(d@),
                None => None,
            },
        ),
{
    if let Some(d) = directory {
        return String::from_str(d);
    }
    let len: usize = url.unicode_len();
    let mut a: usize = len;
    while a > 0 && url.get_char(a - 1) != '/'
        invariant
            a <= len,
            len == url@.len(),
            forall|j: int| a <= j < len ==> url@[j] != '/',
        decreases a,
    {
        a -= 1;
    }
    proof {
        lemma_after_last_slash_at(url@, a as int);
    }
    let seg = url.substring_char(a, len);
    proof {
        assert(seg@ =~= url@.skip(a as int));
    }
    if str_ends_with(seg, ".git") {
        let lseg: usize = seg.unicode_len();
        let glen: usize = ".git".unicode_len();
        let stem = seg.substring_char(0, lseg - glen);
        proof {
            assert(stem@ =~= seg@.take(seg@.len() - ".git"@.len()));
        }
        String::from_str(stem)
    } else {
        String::from_str(seg)
    }
}

/// What a clone into the layout asks the caller to do, in order: create
/// `dir`, issue `clone_cmd`, write `pointer_content` to `git_file`, issue
/// `rewire_cmd` and then `fetch_cmd` inside `bare_dir`, detect the default
/// branch, and finish with `clone_worktree_step`.
#[derive(Debug)]
pub struct ClonePlan {
    /// The fresh layout root.
    pub dir: String,
    /// The admin directory holding the bare store.
    pub bare_dir: String,
    /// The pointer file at the root.
    pub git_file: String,
    /// Its exact content.
    pub pointer_content: String,
    /// The gateway command cloning the remote as the bare store.
    pub clone_cmd: Vec<String>,
    /// The gateway command rewiring the default fetch mapping onto the
    /// remote-tracking namespace: a plain bare clone wires remote heads
    /// straight into `refs/heads/`, which would fuse local and remote
    /// branches.
    pub rewire_cmd: Vec<String>,
    /// The gateway command populating the remote-tracking refs.
    pub fetch_cmd: Vec<String>,
}

/// Decide a clone into the layout.  `dir_exists` tells whether anything
/// already sits at the resolved target directory; then the clone is
/// refused before any filesystem mutation.
pub fn clone_plan(url: &str, directory: Option<&str>, dir_exists: bool) -> (r: Result<
    ClonePlan,
    GbError,
>)
    ensures
        ({
            let dir = spec_clone_dir(
                url@,
                match directory {
                    Some(d) => Some(d@),
                    None => None,
                },
            );
            match r {
                Ok(p) => !dir_exists && p.dir@ == dir && p.bare_dir@ == dir + "/.bare"@
                    && p.git_file@ == dir + "/.git"@ && p.pointer_content@ == "gitdir: ./.bare\n"@
                    && p.clone_cmd.deep_view() == seq!["clone"@, "--bare"@, url@, dir + "/.bare"@]
                    && p.rewire_cmd.deep_view() == seq![
                    "config"@,
                    "remote.origin.fetch"@,
                    "+refs/heads/*:refs/remotes/origin/*"@,
                ] && p.fetch_cmd.deep_view() == seq!["fetch"@, "origin"@],
                Err(e) => dir_exists && e@ == ErrorModel::DestinationExists(dir),
            }
        }),
{
    let dir = clone_target_dir(url, directory);
    if dir_exists {
        return Err(GbError::DestinationExists(dir));
    }
    let bare_dir = concat2(dir.as_str(), "/.bare");
    let git_file = concat2(dir.as_str(), "/.git");
    let pointer_content = String::from_str("gitdir: ./.bare\n");
    let mut clone_cmd: Vec<String> = Vec::new();
    push_str(&mut clone_cmd, "clone");
    push_str(&mut clone_cmd, "--bare");
    push_str(&mut clone_cmd, url);
    push_string(&mut clone_cmd, bare_dir.clone());
    let mut rewire_cmd: Vec<String> = Vec::new();
    push_str(&mut rewire_cmd, "config");
    push_str(&mut rewire_cmd, "remote.origin.fetch");
    push_str(&mut rewire_cmd, "+refs/heads/*:refs/remotes/origin/*");
    let mut fetch_cmd: Vec<String> = Vec::new();
    push_str(&mut fetch_cmd, "fetch");
    push_str(&mut fetch_cmd, "origin");
    proof {
        assert(clone_cmd.deep_view() =~= seq!["clone"@, "--bare"@, url@, dir@ + "/.bare"@]);
        assert(rewire_cmd.deep_view() =~= seq![
            "config"@,
            "remote.origin.fetch"@,
            "+refs/heads/*:refs/remotes/origin/*"@,
        ]);
        assert(fetch_cmd.deep_view() =~= seq!["fetch"@, "origin"@]);
    }
    Ok(ClonePlan { dir, bare_dir, git_file, pointer_content, clone_cmd, rewire_cmd, fetch_cmd })
}

/// The default branch a clone checks out: the bare store's symbolic HEAD
/// when it reports one, `main` otherwise.
pub open spec fn spec_default_branch(head_ref: Option<Seq<char>>) -> Seq<char> {
    match head_ref {
        Some(h) => if h.len() > 0 {
            h
        } else {
            "main"@
        },
        None => "main"@,
    }
}

/// Pick the default branch from the symbolic-HEAD probe's outcome.
pub fn detect_default_branch(head_ref: Option<&str>) -> (r: String)
    ensures
        r@ == spec_default_branch(
            match head_ref {
                Some(h) => Some(h@),
                None => None,
            },
        ),
{
    match head_ref {
        Some(h) => {
            if h.unicode_len() > 0 {
                String::from_str(h)
            } else {
                String::from_str("main")
            }
        },
        None => String::from_str("main"),
    }
}

/// The final clone step: the worktree for the default branch, at
/// `<dir>/<branch>`, and the gateway command materializing it (issued
/// inside the bare store).
pub fn clone_worktree_step(dir: &str, branch: &str) -> (r: (String, Vec<String>))
    ensures
        r.0@ == dir@ + "/"@ + branch@,
        r.1.deep_view() == seq!["worktree"@, "add"@, dir@ + "/"@ + branch@, branch@],
{
    let path = concat3(dir, "/", branch);
    let mut cmd: Vec<String> = Vec::new();
    push_str(&mut cmd, "worktree");
    push_str(&mut cmd, "add");
    push_string(&mut cmd, path.clone());
    push_str(&mut cmd, branch);
    proof {
        assert(cmd.deep_view() =~= seq!["worktree"@, "add"@, dir@ + "/"@ + branch@, branch@]);
    }
    (path, cmd)
}

/// Whether the admin-directory probe shows a repository already in the
/// layout: the gateway resolves its admin directory to `.` (the bare store
/// itself) or to a path ending in `/.bare`.
pub open spec fn spec_already_converted(git_dir: Seq<char>) -> bool {
    git_dir == "."@ || ends_with(git_dir, "/.bare"@)
}

/// Does the admin-directory probe show an already-converted repository?
pub fn already_converted(git_dir: &str) -> (r: bool)
    ensures
        r == spec_already_converted(git_dir@),
{
    str_eq(git_dir, ".") || str_ends_with(git_dir, "/.bare")
}

/// The guard of an in-place conversion: what refuses it, if anything.
pub open spec fn spec_convert_guard(git_dir: Seq<char>, bare_exists: bool) -> Option<ErrorModel> {
    if spec_already_converted(git_dir) {
        Some(ErrorModel::AlreadyConverted)
    } else if bare_exists {
        Some(ErrorModel::AdminDirCollision)
    } else {
        None
    }
}

/// Should a top-level entry of the repository root survive conversion?
/// The admin directory, the pointer file and an entry carrying the
/// branch's own name (whose place the fresh worktree directory takes) stay
/// behind; everything else is the user's state and moves into the
/// worktree.
pub fn keep_entry(entry: &str, branch: &str) -> (r: bool)
    ensures
        r == (entry@ != ".bare"@ && entry@ != ".git"@ && entry@ != branch@),
{
    !str_eq(entry, ".bare") && !str_eq(entry, ".git") && !str_eq(entry, branch)
}

/// Should an entry of the freshly materialized checkout be discarded
/// before the snapshot moves in?  Everything but the worktree's own
/// pointer file: the checkout is a redundant second copy of the tree,
/// while the snapshot holds the user's actual state, uncommitted
/// modifications included.
pub fn discard_entry(entry: &str) -> (r: bool)
    ensures
        r == (entry@ != ".git"@),
{
    !str_eq(entry, ".git")
}

/// What an in-place conversion asks the caller to do, in order: snapshot
/// the root entries `keep_entry` keeps; rename `dot_git` to `bare_dir`;
/// write `pointer_content` to `dot_git`; issue `mark_bare_cmd`,
/// `detach_cmd` and `prune_cmd` inside `bare_dir`; issue `add_cmd` inside
/// `bare_dir` to materialize the worktree at `worktree_path`; discard the
/// checkout entries `discard_entry` names; and move the snapshot into the
/// worktree directory.
#[derive(Debug)]
pub struct ConvertPlan {
    /// The admin directory before conversion, the pointer file after.
    pub dot_git: String,
    /// The admin directory's new home.
    pub bare_dir: String,
    /// Exact content of the pointer file.
    pub pointer_content: String,
    /// The worktree directory for the current branch.
    pub worktree_path: String,
    /// Marks the relocated store bare.
    pub mark_bare_cmd: Vec<String>,
    /// Detaches the store's HEAD onto the current commit by hash, so that
    /// no branch stays checked out in the store itself — a checked-out
    /// branch would block its own worktree.
    pub detach_cmd: Vec<String>,
    /// Prunes stale worktree registrations of any earlier failed attempt.
    pub prune_cmd: Vec<String>,
    /// Materializes the fresh worktree, pointer file, common-directory
    /// linkage and per-worktree HEAD included.
    pub add_cmd: Vec<String>,
}

/// Decide an in-place conversion.  `repo_root` is the repository root,
/// `branch` the current branch, `head_hash` the current commit, `git_dir`
/// the admin-directory probe's answer, and `bare_exists` whether the admin
/// subdirectory name is already taken at the root.
pub fn convert_plan(
    repo_root: &str,
    branch: &str,
    head_hash: &str,
    git_dir: &str,
    bare_exists: bool,
) -> (r: Result<ConvertPlan, GbError>)
    ensures
        ({
            match r {
                Ok(p) => spec_convert_guard(git_dir@, bare_exists) is None && p.dot_git@
                    == repo_root@ + "/.git"@ && p.bare_dir@ == repo_root@ + "/.bare"@
                    && p.pointer_content@ == "gitdir: ./.bare\n"@ && p.worktree_path@ == repo_root@
                    + "/"@ + branch@ && p.mark_bare_cmd.deep_view() == seq![
                    "config"@,
                    "core.bare"@,
                    "true"@,
                ] && p.detach_cmd.deep_view() == seq![
                    "update-ref"@,
                    "--no-deref"@,
                    "HEAD"@,
                    head_hash@,
                ] && p.prune_cmd.deep_view() == seq!["worktree"@, "prune"@]
                    && p.add_cmd.deep_view() == seq![
                    "worktree"@,
                    "add"@,
                    repo_root@ + "/"@ + branch@,
                    branch@,
                ],
                Err(e) => spec_convert_guard(git_dir@, bare_exists) == Some(e@),
            }
        }),
{
    if already_converted(git_dir) {
        return Err(GbError::AlreadyConverted);
    }
    if bare_exists {
        return Err(GbError::AdminDirCollision);
    }
    let dot_git = concat2(repo_root, "/.git");
    let bare_dir = concat2(repo_root, "/.bare");
    let pointer_content = String::from_str("gitdir: ./.bare\n");
    let worktree_path = concat3(repo_root, "/", branch);
    let mut mark_bare_cmd: Vec<String> = Vec::new();
    push_str(&mut mark_bare_cmd, "config");
    push_str(&mut mark_bare_cmd, "core.bare");
    push_str(&mut mark_bare_cmd, "true");
    let mut detach_cmd: Vec<String> = Vec::new();
    push_str(&mut detach_cmd, "update-ref");
    push_str(&mut detach_cmd, "--no-deref");
    push_str(&mut detach_cmd, "HEAD");
    push_str(&mut detach_cmd, head_hash);
    let mut prune_cmd: Vec<String> = Vec::new();
    push_str(&mut prune_cmd, "worktree");
    push_str(&mut prune_cmd, "prune");
    let mut add_cmd: Vec<String> = Vec::new();
    push_str(&mut add_cmd, "worktree");
    push_str(&mut add_cmd, "add");
    push_string(&mut add_cmd, worktree_path.clone());
    push_str(&mut add_cmd, branch);
    proof {
        assert(mark_bare_cmd.deep_view() =~= seq!["config"@, "core.bare"@, "true"@]);
        assert(detach_cmd.deep_view() =~= seq![
            "update-ref"@,
            "--no-deref"@,
            "HEAD"@,
            head_hash@,
        ]);
        assert(prune_cmd.deep_view() =~= seq!["worktree"@, "prune"@]);
        assert(add_cmd.deep_view() =~= seq![
            "worktree"@,
            "add"@,
            repo_root@ + "/"@ + branch@,
            branch@,
        ]);
    }
    Ok(
        ConvertPlan {
            dot_git,
            bare_dir,
            pointer_content,
            worktree_path,
            mark_bare_cmd,
            detach_cmd,
            prune_cmd,
            add_cmd,
        },
    )
}

/// A second conversion is refused.  After a successful run the repository
/// is in the layout: probed from inside the fresh worktree the admin
/// directory resolves under `/.bare` (or to `.` from the store itself),
/// and at the root the admin subdirectory name is taken — so the guard
/// answers `AlreadyConverted` or `AdminDirCollision`, never nothing.
pub proof fn lemma_convert_rerun_fails(git_dir: Seq<char>, bare_exists: bool)
    requires
        spec_already_converted(git_dir) || bare_exists,
    ensures
        spec_convert_guard(git_dir, bare_exists) == Some(ErrorModel::AlreadyConverted)
            || spec_convert_guard(git_dir, bare_exists) == Some(ErrorModel::AdminDirCollision),
{
}

} // verus!
