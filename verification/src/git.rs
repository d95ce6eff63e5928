//! The gateway's branch vocabulary.
//!
//! The library never spawns the version-control tool itself; callers do.
//! This module computes the exact argument vectors for every branch-level
//! subcommand the system issues, parses the machine-readable branch listing
//! the gateway returns, and filters and annotates the parsed records.

use vstd::prelude::*;

use crate::strutil::{
    concat2, contains_str, find_str, push_str, push_string, spec_lines, spec_split_tabs,
    split_lines, split_tabs, str_trim, trim_spec,
};

verus! {

/// One branch of the listing, as `for-each-ref` reports it.
pub struct BranchInfo {
    /// Short ref name.
    pub name: String,
    /// Abbreviated commit id.
    pub objectname: String,
    /// Short name of the upstream ref, empty when unset.
    pub upstream: String,
    /// Divergence from the upstream, empty when unset.
    pub upstream_track: String,
    /// Subject line of the tip commit.
    pub subject: String,
    /// The ref HEAD points at.
    pub is_head: bool,
    /// A remote-tracking ref.
    pub is_remote: bool,
}

/// The mathematical shadow of a `BranchInfo`.
pub struct BranchModel {
    pub name: Seq<char>,
    pub objectname: Seq<char>,
    pub upstream: Seq<char>,
    pub upstream_track: Seq<char>,
    pub subject: Seq<char>,
    pub is_head: bool,
    pub is_remote: bool,
}

impl View for BranchInfo {
    type V = BranchModel;

    open spec fn view(&self) -> BranchModel {
        BranchModel {
            name: self.name@,
            objectname: self.objectname@,
            upstream: self.upstream@,
            upstream_track: self.upstream_track@,
            subject: self.subject@,
            is_head: self.is_head,
            is_remote: self.is_remote,
        }
    }
}

impl DeepView for BranchInfo {
    type V = BranchModel;

    open spec fn deep_view(&self) -> BranchModel {
        self.view()
    }
}

/// The record described by one listing line: six tab-separated fields
/// (further tabs stay inside the last), short of six the line is ignored.
/// The head marker field reads `*` on the current branch.
pub open spec fn parse_branch_line(line: Seq<char>) -> Option<BranchModel> {
    let parts = spec_split_tabs(line, 6);
    if parts.len() < 6 {
        None
    } else {
        Some(
            BranchModel {
                name: parts[0],
                objectname: parts[1],
                upstream: parts[2],
                upstream_track: parts[3],
                subject: parts[4],
                is_head: trim_spec(parts[5]) == "*"@,
                is_remote: false,
            },
        )
    }
}

/// The records described by a whole branch listing.
pub open spec fn spec_branches(s: Seq<char>) -> Seq<BranchModel> {
    spec_lines(s).filter_map(|l: Seq<char>| parse_branch_line(l))
}

/// Parse the gateway's branch listing into structured records.
pub fn parse_branches(output: &str) -> (r: Vec<BranchInfo>)
    ensures
        r.deep_view() == spec_branches(output@),
{
    broadcast use vstd::prelude::Seq::lemma_filter_map_take_succ;

    let ghost f = |l: Seq<char>| parse_branch_line(l);
    let lines = split_lines(output);
    let mut r: Vec<BranchInfo> = Vec::new();
    let mut i: usize = 0;
    proof {
        assert(lines.deep_view().take(0) =~= Seq::<Seq<char>>::empty());
        assert(Seq::<Seq<char>>::empty().filter_map(f) =~= Seq::<BranchModel>::empty());
        assert(r.deep_view() =~= Seq::<BranchModel>::empty());
    }
    while i < lines.len()
        invariant
            i <= lines.len(),
            lines.deep_view() == spec_lines(output@),
            f == (|l: Seq<char>| parse_branch_line(l)),
            r.deep_view() == lines.deep_view().take(i as int).filter_map(f),
        decreases lines.len() - i,
    {
        let line = &lines[i];
        let parts = split_tabs(line.as_str(), 6);
        proof {
            lines.deep_view().lemma_filter_map_take_succ(f, i as int);
        }
        if parts.len() >= 6 {
            let head_marker = str_trim(parts[5].as_str());
            let is_head = crate::strutil::str_eq(head_marker.as_str(), "*");
            let rec = BranchInfo {
                name: parts[0].clone(),
                objectname: parts[1].clone(),
                upstream: parts[2].clone(),
                upstream_track: parts[3].clone(),
                subject: parts[4].clone(),
                is_head,
                is_remote: false,
            };
            let ghost old_dv = r.deep_view();
            r.push(rec);
            proof {
                assert(parse_branch_line(line@) == Some(rec@));
                assert(r.deep_view() =~= old_dv.push(rec@));
                assert(old_dv.push(rec@) =~= old_dv + seq![rec@]);
                assert(r.deep_view() =~= lines.deep_view().take(i + 1).filter_map(f));
            }
        } else {
            proof {
                assert(parse_branch_line(line@) is None);
                assert(r.deep_view() =~= lines.deep_view().take(i + 1).filter_map(f));
            }
        }
        i += 1;
    }
    proof {
        assert(lines.deep_view().take(i as int) =~= lines.deep_view());
    }
    r
}

/// A record with its remote flag raised when its name stands in the remote
/// listing.
pub open spec fn marked_remote(m: BranchModel, remote_names: Seq<Seq<char>>) -> BranchModel {
    BranchModel { is_remote: m.is_remote || contains_str(remote_names, m.name), ..m }
}

/// Raise the remote flag on every record whose name the remote listing
/// holds.  `remote_names` is the plain `for-each-ref` name listing for
/// `refs/remotes/`, one name per line.
pub fn mark_remote(branches: Vec<BranchInfo>, remote_names: &Vec<String>) -> (r: Vec<BranchInfo>)
    ensures
        r.deep_view() == branches.deep_view().map_values(
            (|m: BranchModel| marked_remote(m, remote_names.deep_view())),
        ),
{
    let ghost f = |m: BranchModel| marked_remote(m, remote_names.deep_view());
    let mut r: Vec<BranchInfo> = Vec::new();
    let mut i: usize = 0;
    while i < branches.len()
        invariant
            i <= branches.len(),
            f == (|m: BranchModel| marked_remote(m, remote_names.deep_view())),
            r.deep_view() == branches.deep_view().take(i as int).map_values(f),
        decreases branches.len() - i,
    {
        let b = &branches[i];
        let hit = find_str(remote_names, b.name.as_str());
        let rec = BranchInfo {
            name: b.name.clone(),
            objectname: b.objectname.clone(),
            upstream: b.upstream.clone(),
            upstream_track: b.upstream_track.clone(),
            subject: b.subject.clone(),
            is_head: b.is_head,
            is_remote: b.is_remote || hit,
        };
        let ghost old_dv = r.deep_view();
        r.push(rec);
        proof {
            assert(rec@ == f(branches.deep_view()[i as int]));
            assert(r.deep_view() =~= old_dv.push(rec@));
            assert(r.deep_view() =~= branches.deep_view().take(i + 1).map_values(f));
        }
        i += 1;
    }
    proof {
        assert(branches.deep_view().take(i as int) =~= branches.deep_view());
    }
    r
}

/// A record with its head flag set exactly when its name is the current
/// branch.
pub open spec fn marked_current(m: BranchModel, current: Seq<char>) -> BranchModel {
    BranchModel { is_head: m.name == current, ..m }
}

/// Re-mark which record is current: the listing's own head marker follows
/// HEAD of the repository, but the branch the caller stands on is the one
/// whose worktree contains the working directory.
pub fn mark_current(branches: Vec<BranchInfo>, current: &str) -> (r: Vec<BranchInfo>)
    ensures
        r.deep_view() == branches.deep_view().map_values(
            (|m: BranchModel| marked_current(m, current@)),
        ),
{
    let ghost f = |m: BranchModel| marked_current(m, current@);
    let mut r: Vec<BranchInfo> = Vec::new();
    let mut i: usize = 0;
    while i < branches.len()
        invariant
            i <= branches.len(),
            f == (|m: BranchModel| marked_current(m, current@)),
            r.deep_view() == branches.deep_view().take(i as int).map_values(f),
        decreases branches.len() - i,
    {
        let b = &branches[i];
        let rec = BranchInfo {
            name: b.name.clone(),
            objectname: b.objectname.clone(),
            upstream: b.upstream.clone(),
            upstream_track: b.upstream_track.clone(),
            subject: b.subject.clone(),
            is_head: crate::strutil::str_eq(b.name.as_str(), current),
            is_remote: b.is_remote,
        };
        let ghost old_dv = r.deep_view();
        r.push(rec);
        proof {
            assert(rec@ == f(branches.deep_view()[i as int]));
            assert(r.deep_view() =~= old_dv.push(rec@));
            assert(r.deep_view() =~= branches.deep_view().take(i + 1).map_values(f));
        }
        i += 1;
    }
    proof {
        assert(branches.deep_view().take(i as int) =~= branches.deep_view());
    }
    r
}

/// Whether a glob pattern matches a name.  The matching language (with
/// `*`, `**`, `?`, classes and braces) is a pure function of the two
/// strings; its full definition lives in the outside matcher.
pub uninterp spec fn glob_matches(pattern: Seq<char>, name: Seq<char>) -> bool;

/// Relies on glob_match::glob_match: whether the glob pattern matches the
/// name, a deterministic function of the two strings alone.
#[verifier::external_body]
fn glob_match_str(pattern: &str, name: &str) -> (r: bool)
    ensures
        r == glob_matches(pattern@, name@),
{
    glob_match::glob_match(pattern, name)
}

/// Keep exactly the records whose name matches the glob pattern, in order.
pub fn filter_branches(branches: Vec<BranchInfo>, pattern: &str) -> (r: Vec<BranchInfo>)
    ensures
        r.deep_view() == branches.deep_view().filter(
            (|m: BranchModel| glob_matches(pattern@, m.name)),
        ),
{
    let ghost f = |m: BranchModel| glob_matches(pattern@, m.name);
    let mut r: Vec<BranchInfo> = Vec::new();
    let mut i: usize = 0;
    proof {
        reveal(Seq::filter);
        assert(branches.deep_view().take(0) =~= Seq::<BranchModel>::empty());
        assert(r.deep_view() =~= branches.deep_view().take(0).filter(f));
    }
    while i < branches.len()
        invariant
            i <= branches.len(),
            f == (|m: BranchModel| glob_matches(pattern@, m.name)),
            r.deep_view() == branches.deep_view().take(i as int).filter(f),
        decreases branches.len() - i,
    {
        let b = &branches[i];
        let keep = glob_match_str(pattern, b.name.as_str());
        proof {
            reveal(Seq::filter);
            assert(branches.deep_view().take(i + 1).drop_last() =~= branches.deep_view().take(
                i as int,
            ));
            assert(branches.deep_view().take(i + 1).last() == branches.deep_view()[i as int]);
        }
        if keep {
            let rec = BranchInfo {
                name: b.name.clone(),
                objectname: b.objectname.clone(),
                upstream: b.upstream.clone(),
                upstream_track: b.upstream_track.clone(),
                subject: b.subject.clone(),
                is_head: b.is_head,
                is_remote: b.is_remote,
            };
            let ghost old_dv = r.deep_view();
            r.push(rec);
            proof {
                assert(rec@ == branches.deep_view()[i as int]);
                assert(r.deep_view() =~= old_dv.push(rec@));
                assert(r.deep_view() =~= branches.deep_view().take(i + 1).filter(f));
            }
        } else {
            proof {
                assert(r.deep_view() =~= branches.deep_view().take(i + 1).filter(f));
            }
        }
        i += 1;
    }
    proof {
        assert(branches.deep_view().take(i as int) =~= branches.deep_view());
    }
    r
}

/// Which refs a listing covers.
#[derive(Debug, Clone, Copy, PartialEq, Eq, Structural)]
pub enum BranchScope {
    /// `refs/heads/` only.
    Local,
    /// `refs/remotes/` only.
    Remote,
    /// Both.
    All,
}

/// The selections a branch listing can be narrowed by.
#[derive(Debug)]
pub struct BranchFilter {
    pub scope: BranchScope,
    pub sort: Option<String>,
    pub merged: Option<String>,
    pub no_merged: Option<String>,
    pub contains: Option<String>,
    pub no_contains: Option<String>,
    pub pattern: Option<String>,
}

/// The optional `--<flag>=<value>` arguments of a listing, in the fixed
/// order sort, merged, no-merged, contains, no-contains.
pub open spec fn filter_flag_args(filter: BranchFilter) -> Seq<Seq<char>> {
    let s1: Seq<Seq<char>> = match filter.sort {
        Some(v) => seq!["--sort="@ + v@],
        None => Seq::empty(),
    };
    let s2: Seq<Seq<char>> = match filter.merged {
        Some(v) => seq!["--merged="@ + v@],
        None => Seq::empty(),
    };
    let s3: Seq<Seq<char>> = match filter.no_merged {
        Some(v) => seq!["--no-merged="@ + v@],
        None => Seq::empty(),
    };
    let s4: Seq<Seq<char>> = match filter.contains {
        Some(v) => seq!["--contains="@ + v@],
        None => Seq::empty(),
    };
    let s5: Seq<Seq<char>> = match filter.no_contains {
        Some(v) => seq!["--no-contains="@ + v@],
        None => Seq::empty(),
    };
    s1 + s2 + s3 + s4 + s5
}

/// The trailing ref-namespace arguments selecting the scope.
pub open spec fn scope_args(scope: BranchScope) -> Seq<Seq<char>> {
    match scope {
        BranchScope::Local => seq!["refs/heads/"@],
        BranchScope::Remote => seq!["refs/remotes/"@],
        BranchScope::All => seq!["refs/heads/"@, "refs/remotes/"@],
    }
}

/// The gateway command that produces the branch listing `parse_branches`
/// reads: `for-each-ref` with the six-field tab-separated format, the
/// optional narrowing flags, and the scope's ref namespaces.
pub fn branch_list_args(filter: &BranchFilter) -> (r: Vec<String>)
    ensures
        r.deep_view() == seq![
            "for-each-ref"@,
            "--format"@,
            "%(refname:short)\t%(objectname:short)\t%(upstream:short)\t%(upstream:track)\t%(subject)\t%(HEAD)"@,
        ] + filter_flag_args(*filter) + scope_args(filter.scope),
{
    let mut r: Vec<String> = Vec::new();
    push_str(&mut r, "for-each-ref");
    push_str(&mut r, "--format");
    push_str(
        &mut r,
        "%(refname:short)\t%(objectname:short)\t%(upstream:short)\t%(upstream:track)\t%(subject)\t%(HEAD)",
    );
    if let Some(v) = &filter.sort {
        let arg = concat2("--sort=", v.as_str());
        push_string(&mut r, arg);
    }
    if let Some(v) = &filter.merged {
        let arg = concat2("--merged=", v.as_str());
        push_string(&mut r, arg);
    }
    if let Some(v) = &filter.no_merged {
        let arg = concat2("--no-merged=", v.as_str());
        push_string(&mut r, arg);
    }
    if let Some(v) = &filter.contains {
        let arg = concat2("--contains=", v.as_str());
        push_string(&mut r, arg);
    }
    if let Some(v) = &filter.no_contains {
        let arg = concat2("--no-contains=", v.as_str());
        push_string(&mut r, arg);
    }
    match filter.scope {
        BranchScope::Local => push_str(&mut r, "refs/heads/"),
        BranchScope::Remote => push_str(&mut r, "refs/remotes/"),
        BranchScope::All => {
            push_str(&mut r, "refs/heads/");
            push_str(&mut r, "refs/remotes/");
        },
    }
    proof {
        assert(r.deep_view() =~= seq![
            "for-each-ref"@,
            "--format"@,
            "%(refname:short)\t%(objectname:short)\t%(upstream:short)\t%(upstream:track)\t%(subject)\t%(HEAD)"@,
        ] + filter_flag_args(*filter) + scope_args(filter.scope));
    }
    r
}

/// The gateway command listing the short names under `refs/remotes/`, one
/// per line, read by `mark_remote`.
pub fn remote_names_args() -> (r: Vec<String>)
    ensures
        r.deep_view() == seq!["for-each-ref"@, "--format"@, "%(refname:short)"@, "refs/remotes/"@],
{
    let mut r: Vec<String> = Vec::new();
    push_str(&mut r, "for-each-ref");
    push_str(&mut r, "--format");
    push_str(&mut r, "%(refname:short)");
    push_str(&mut r, "refs/remotes/");
    proof {
        assert(r.deep_view() =~= seq![
            "for-each-ref"@,
            "--format"@,
            "%(refname:short)"@,
            "refs/remotes/"@,
        ]);
    }
    r
}

/// List branches from the gateway's raw listings: parse `output`, mark the
/// remote records when the remote name listing was taken (scopes `Remote`
/// and `All`), and keep only the records matching the pattern when the
/// filter names one.
pub fn list_branches(filter: &BranchFilter, output: &str, remote_output: Option<&str>) -> (r: Vec<
    BranchInfo,
>)
    ensures
        ({
            let base = spec_branches(output@);
            let marked = match remote_output {
                Some(ro) => base.map_values(
                    (|m: BranchModel| marked_remote(m, spec_lines(ro@))),
                ),
                None => base,
            };
            r.deep_view() == match filter.pattern {
                Some(p) => marked.filter((|m: BranchModel| glob_matches(p@, m.name))),
                None => marked,
            }
        }),
{
    let mut branches = parse_branches(output);
    if let Some(ro) = remote_output {
        let remote_names = split_lines(ro);
        branches = mark_remote(branches, &remote_names);
    }
    match &filter.pattern {
        Some(p) => filter_branches(branches, p.as_str()),
        None => branches,
    }
}

/// The gateway command whose success answers whether a branch exists:
/// verifying the ref under `refs/heads/`.
pub fn branch_exists(name: &str) -> (r: Vec<String>)
    ensures
        r.deep_view() == seq!["rev-parse"@, "--verify"@, "refs/heads/"@ + name@],
{
    let mut r: Vec<String> = Vec::new();
    push_str(&mut r, "rev-parse");
    push_str(&mut r, "--verify");
    let refname = concat2("refs/heads/", name);
    push_string(&mut r, refname);
    proof {
        assert(r.deep_view() =~= seq!["rev-parse"@, "--verify"@, "refs/heads/"@ + name@]);
    }
    r
}

/// The gateway command creating a branch ref without a worktree.
pub fn create_branch(name: &str, start_point: Option<&str>) -> (r: Vec<String>)
    ensures
        r.deep_view() == match start_point {
            Some(sp) => seq!["branch"@, name@, sp@],
            None => seq!["branch"@, name@],
        },
{
    let mut r: Vec<String> = Vec::new();
    push_str(&mut r, "branch");
    push_str(&mut r, name);
    if let Some(sp) = start_point {
        push_str(&mut r, sp);
        proof {
            assert(r.deep_view() =~= seq!["branch"@, name@, sp@]);
        }
    } else {
        proof {
            assert(r.deep_view() =~= seq!["branch"@, name@]);
        }
    }
    r
}

/// The gateway command deleting a branch ref; force (`-D`) bypasses the
/// unmerged check.
pub fn delete_branch(name: &str, force: bool) -> (r: Vec<String>)
    ensures
        r.deep_view() == seq!["branch"@, if force {
            "-D"@
        } else {
            "-d"@
        }, name@],
{
    let mut r: Vec<String> = Vec::new();
    push_str(&mut r, "branch");
    if force {
        push_str(&mut r, "-D");
    } else {
        push_str(&mut r, "-d");
    }
    push_str(&mut r, name);
    proof {
        if force {
            assert(r.deep_view() =~= seq!["branch"@, "-D"@, name@]);
        } else {
            assert(r.deep_view() =~= seq!["branch"@, "-d"@, name@]);
        }
    }
    r
}

/// The gateway command renaming a branch ref; force (`-M`) overwrites an
/// existing target.
pub fn rename_branch(old: &str, new: &str, force: bool) -> (r: Vec<String>)
    ensures
        r.deep_view() == seq!["branch"@, if force {
            "-M"@
        } else {
            "-m"@
        }, old@, new@],
{
    let mut r: Vec<String> = Vec::new();
    push_str(&mut r, "branch");
    if force {
        push_str(&mut r, "-M");
    } else {
        push_str(&mut r, "-m");
    }
    push_str(&mut r, old);
    push_str(&mut r, new);
    proof {
        if force {
            assert(r.deep_view() =~= seq!["branch"@, "-M"@, old@, new@]);
        } else {
            assert(r.deep_view() =~= seq!["branch"@, "-m"@, old@, new@]);
        }
    }
    r
}

/// The gateway command copying a branch ref, the old ref untouched; force
/// (`-C`) overwrites an existing target.
pub fn copy_branch(old: &str, new: &str, force: bool) -> (r: Vec<String>)
    ensures
        r.deep_view() == seq!["branch"@, if force {
            "-C"@
        } else {
            "-c"@
        }, old@, new@],
{
    let mut r: Vec<String> = Vec::new();
    push_str(&mut r, "branch");
    if force {
        push_str(&mut r, "-C");
    } else {
        push_str(&mut r, "-c");
    }
    push_str(&mut r, old);
    push_str(&mut r, new);
    proof {
        if force {
            assert(r.deep_view() =~= seq!["branch"@, "-C"@, old@, new@]);
        } else {
            assert(r.deep_view() =~= seq!["branch"@, "-c"@, old@, new@]);
        }
    }
    r
}

/// The gateway command printing the branch HEAD points at.
pub fn current_branch() -> (r: Vec<String>)
    ensures
        r.deep_view() == seq!["symbolic-ref"@, "--short"@, "HEAD"@],
{
    let mut r: Vec<String> = Vec::new();
    push_str(&mut r, "symbolic-ref");
    push_str(&mut r, "--short");
    push_str(&mut r, "HEAD");
    proof {
        assert(r.deep_view() =~= seq!["symbolic-ref"@, "--short"@, "HEAD"@]);
    }
    r
}

/// The gateway command setting a branch's upstream.
pub fn set_upstream(branch: &str, upstream: &str) -> (r: Vec<String>)
    ensures
        r.deep_view() == seq!["branch"@, "--set-upstream-to"@, upstream@, branch@],
{
    let mut r: Vec<String> = Vec::new();
    push_str(&mut r, "branch");
    push_str(&mut r, "--set-upstream-to");
    push_str(&mut r, upstream);
    push_str(&mut r, branch);
    proof {
        assert(r.deep_view() =~= seq!["branch"@, "--set-upstream-to"@, upstream@, branch@]);
    }
    r
}

/// The gateway command unsetting a branch's upstream.
pub fn unset_upstream(branch: &str) -> (r: Vec<String>)
    ensures
        r.deep_view() == seq!["branch"@, "--unset-upstream"@, branch@],
{
    let mut r: Vec<String> = Vec::new();
    push_str(&mut r, "branch");
    push_str(&mut r, "--unset-upstream");
    push_str(&mut r, branch);
    proof {
        assert(r.deep_view() =~= seq!["branch"@, "--unset-upstream"@, branch@]);
    }
    r
}

/// The textual parent of a path: the part before the last `/`, with the
/// conventions of the platform's path type — a lone `/` is its own parent,
/// `/x` has parent `/`, a relative name has the empty parent, and the empty
/// path stays empty.
pub open spec fn spec_parent_dir(p: Seq<char>) -> Seq<char> {
    let a = crate::strutil::after_last_slash(p);
    if a == 0 {
        Seq::empty()
    } else if a == 1 {
        p.take(1)
    } else {
        p.take(a - 1)
    }
}

/// The root directory of the layout: the parent of the admin (common)
/// directory the gateway reported, the directory itself when it has no
/// parent.
pub fn find_root_dir(git_dir: &str) -> (r: String)
    ensures
        r@ == spec_parent_dir(git_dir@),
{
    let len: usize = git_dir.unicode_len();
    let mut a: usize = len;
    proof {
        crate::strutil::lemma_after_last_slash(git_dir@);
    }
    while a > 0 && git_dir.get_char(a - 1) != '/'
        invariant
            a <= len,
            len == git_dir@.len(),
            forall|j: int| a <= j < len ==> git_dir@[j] != '/',
        decreases a,
    {
        a -= 1;
    }
    proof {
        crate::strutil::lemma_after_last_slash_at(git_dir@, a as int);
    }
    if a == 0 {
        String::new()
    } else if a == 1 {
        let piece = git_dir.substring_char(0, 1);
        proof {
            assert(piece@ =~= git_dir@.take(1));
        }
        String::from_str(piece)
    } else {
        let piece = git_dir.substring_char(0, a - 1);
        proof {
            assert(piece@ =~= git_dir@.take(a - 1));
        }
        String::from_str(piece)
    }
}

} // verus!
