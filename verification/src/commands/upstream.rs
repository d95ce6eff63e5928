//! Upstream tracking: set or unset, on a named branch or the current one.
//!
//! Which branch is meant is a pure selection: the explicit name when
//! given, otherwise the branch owning the worktree the caller stands in.
//! When neither exists there is nothing to do and the caller reports it.

use vstd::prelude::*;

use crate::git;

verus! {

/// The branch an upstream operation targets.
pub open spec fn spec_target(
    branch: Option<Seq<char>>,
    cwd_branch: Option<Seq<char>>,
) -> Option<Seq<char>> {
    match branch {
        Some(b) => Some(b),
        None => cwd_branch,
    }
}

/// The gateway command setting `upstream` on the targeted branch, `None`
/// when no branch is targeted.
pub fn set(upstream: &str, branch: Option<&str>, cwd_branch: Option<&String>) -> (r: Option<
    Vec<String>,
>)
    ensures
        ({
            let target = spec_target(
                match branch {
                    Some(b) => Some(b@),
                    None => None,
                },
                match cwd_branch {
                    Some(c) => Some(c@),
                    None => None,
                },
            );
            match target {
                Some(t) => r matches Some(cmd) && cmd.deep_view() == seq![
                    "branch"@,
                    "--set-upstream-to"@,
                    upstream@,
                    t,
                ],
                None => r is None,
            }
        }),
{
    match branch {
        Some(b) => Some(git::set_upstream(b, upstream)),
        None => match cwd_branch {
            Some(c) => Some(git::set_upstream(c.as_str(), upstream)),
            None => None,
        },
    }
}

/// The gateway command unsetting the upstream of the targeted branch,
/// `None` when no branch is targeted.
pub fn unset(branch: Option<&str>, cwd_branch: Option<&String>) -> (r: Option<Vec<String>>)
    ensures
        ({
            let target = spec_target(
                match branch {
                    Some(b) => Some(b@),
                    None => None,
                },
                match cwd_branch {
                    Some(c) => Some(c@),
                    None => None,
                },
            );
            match target {
                Some(t) => r matches Some(cmd) && cmd.deep_view() == seq![
                    "branch"@,
                    "--unset-upstream"@,
                    t,
                ],
                None => r is None,
            }
        }),
{
    match branch {
        Some(b) => Some(git::unset_upstream(b)),
        None => match cwd_branch {
            Some(c) => Some(git::unset_upstream(c.as_str())),
            None => None,
        },
    }
}

} // verus!
