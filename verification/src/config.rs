//! Configuration: the worktree base directory and the naming convention.
//!
//! Both are value objects read fresh for every invocation.  The gateway
//! reads the two settings from the repository's persisted configuration;
//! this module only interprets what it found, with the documented defaults:
//! the base directory falls back to the repository root, the convention to
//! `Flat`, and the single failure is an unresolvable repository root.

use vstd::prelude::*;

use crate::error::GbError;

verus! {

/// The policy mapping branch names to worktree directory names.
#[derive(Debug, Clone, Copy, PartialEq, Eq, Structural)]
pub enum NamingConvention {
    /// Every `/` widens to `--` (`feature/auth` becomes `feature--auth`).
    Flat,
    /// `/` kept as-is, nesting directories (`feature/auth` stays `feature/auth`).
    Nested,
    /// Every `/` narrows to `-`; lossy, two names can share a directory.
    Prefixed,
}

/// The convention named by the persisted setting, `Flat` when the setting
/// is absent or unrecognized.
pub open spec fn spec_naming(val: Option<Seq<char>>) -> NamingConvention {
    match val {
        Some(v) => if v == "nested"@ {
            NamingConvention::Nested
        } else if v == "prefixed"@ {
            NamingConvention::Prefixed
        } else {
            NamingConvention::Flat
        },
        None => NamingConvention::Flat,
    }
}

/// The worktree base directory: the persisted setting when non-empty,
/// the repository root otherwise.
pub open spec fn spec_worktree_dir(root: Seq<char>, setting: Option<Seq<char>>) -> Seq<char> {
    match setting {
        Some(d) => if d.len() > 0 {
            d
        } else {
            root
        },
        None => root,
    }
}

#[derive(Debug)]
pub struct WbConfig {
    /// Base directory under which worktree directories are created.
    pub worktree_dir: String,
    /// Naming convention for worktree directory names.
    pub naming: NamingConvention,
}

impl WbConfig {
    /// Interpret the persisted settings.  `root` is the repository root when
    /// it could be resolved; `worktree_dir` and `naming` are the two settings
    /// when present.  Fails exactly when the root is unresolvable; missing or
    /// empty settings silently default.
    pub fn load(root: Option<String>, worktree_dir: Option<String>, naming: Option<String>) -> (r:
        Result<WbConfig, GbError>)
        ensures
            match r {
                Ok(c) => root is Some && c.worktree_dir@ == spec_worktree_dir(
                    root->0@,
                    match worktree_dir {
                        Some(d) => Some(d@),
                        None => None,
                    },
                ) && c.naming == spec_naming(
                    match naming {
                        Some(v) => Some(v@),
                        None => None,
                    },
                ),
                Err(e) => root is None && e matches GbError::NotARepository,
            },
    {
        let root = match root {
            Some(r) => r,
            None => {
                return Err(GbError::NotARepository);
            },
        };
        let dir = match worktree_dir {
            Some(d) => if d.as_str().unicode_len() > 0 {
                d
            } else {
                root
            },
            None => root,
        };
        let conv = match naming {
            Some(v) => {
                if crate::strutil::str_eq(v.as_str(), "nested") {
                    NamingConvention::Nested
                } else if crate::strutil::str_eq(v.as_str(), "prefixed") {
                    NamingConvention::Prefixed
                } else {
                    NamingConvention::Flat
                }
            },
            None => NamingConvention::Flat,
        };
        Ok(WbConfig { worktree_dir: dir, naming: conv })
    }
}

} // verus!
