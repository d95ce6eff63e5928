//! The command surface, as data.
//!
//! Parsing argument strings into this structure is the wrapping binary's
//! job; the library only decides, from the parsed flags, which of the
//! mutually exclusive actions an invocation means.  The decision follows a
//! fixed priority: a subcommand first, then delete, force-delete, rename,
//! force-rename, copy, force-copy, the upstream operations, the queries,
//! description editing, creation when positional arguments remain, and a
//! plain listing when nothing else applies.

use vstd::prelude::*;

verus! {

/// The parsed invocation.
#[derive(Debug)]
pub struct Cli {
    /// The `init` subcommand, when given.
    pub command: Option<InitCommand>,
    /// Branches to delete (safe).
    pub delete: Option<Vec<String>>,
    /// Branches to delete (force).
    pub force_delete: Option<Vec<String>>,
    /// Rename arguments: `[new]` or `[old, new]`.
    pub rename: Option<Vec<String>>,
    /// Force-rename arguments.
    pub force_rename: Option<Vec<String>>,
    /// Copy arguments: `[new]` or `[old, new]`.
    pub copy: Option<Vec<String>>,
    /// Force-copy arguments.
    pub force_copy: Option<Vec<String>>,
    /// List local and remote branches.
    pub all: bool,
    /// List remote-tracking branches.
    pub remotes: bool,
    /// Verbosity step: 0, 1 or more.
    pub verbose: u8,
    /// Listing restricted to a glob pattern.
    pub list_pattern: Option<Option<String>>,
    /// Upstream to set.
    pub set_upstream: Option<String>,
    /// Unset the upstream.
    pub unset_upstream: bool,
    /// Print the current branch.
    pub show_current: bool,
    /// Print the worktree path of a branch.
    pub show_path: Option<String>,
    /// Restrict the listing to branches merged into a commit.
    pub merged: Option<Option<String>>,
    /// Restrict the listing to branches not merged into a commit.
    pub no_merged: Option<Option<String>>,
    /// Restrict the listing to branches containing a commit.
    pub contains: Option<Option<String>>,
    /// Restrict the listing to branches not containing a commit.
    pub no_contains: Option<Option<String>>,
    /// Listing sort key.
    pub sort: Option<String>,
    /// Edit a branch description.
    pub edit_description: bool,
    /// Positional arguments: branch name and optional start point.
    pub args: Vec<String>,
}

/// The `init` subcommand: clone a repository, convert the current one, or
/// emit shell integration.
#[derive(Debug)]
pub enum InitCommand {
    Init {
        /// A URL to clone, a shell name, or nothing for in-place conversion.
        target: Option<String>,
        /// Directory to clone into.
        directory: Option<String>,
    },
}

/// Which action an invocation means.
#[derive(Debug, PartialEq, Eq, Structural)]
pub enum CliMode {
    Init,
    List,
    Create,
    Delete { force: bool },
    Rename { force: bool },
    Copy { force: bool },
    SetUpstream,
    UnsetUpstream,
    ShowCurrent,
    ShowPath,
    EditDescription,
}

/// The action meant by the parsed flags, by the fixed priority.
pub open spec fn spec_mode(c: Cli) -> CliMode {
    if c.command is Some {
        CliMode::Init
    } else if c.delete is Some {
        CliMode::Delete { force: false }
    } else if c.force_delete is Some {
        CliMode::Delete { force: true }
    } else if c.rename is Some {
        CliMode::Rename { force: false }
    } else if c.force_rename is Some {
        CliMode::Rename { force: true }
    } else if c.copy is Some {
        CliMode::Copy { force: false }
    } else if c.force_copy is Some {
        CliMode::Copy { force: true }
    } else if c.set_upstream is Some {
        CliMode::SetUpstream
    } else if c.unset_upstream {
        CliMode::UnsetUpstream
    } else if c.show_current {
        CliMode::ShowCurrent
    } else if c.show_path is Some {
        CliMode::ShowPath
    } else if c.edit_description {
        CliMode::EditDescription
    } else if c.args.len() > 0 {
        CliMode::Create
    } else {
        CliMode::List
    }
}

impl Cli {
    /// Determine which action mode the invocation is in.
    pub fn mode(&self) -> (r: CliMode)
        ensures
            r == spec_mode(*self),
    {
        if self.command.is_some() {
            return CliMode::Init;
        }
        if self.delete.is_some() {
            return CliMode::Delete { force: false };
        }
        if self.force_delete.is_some() {
            return CliMode::Delete { force: true };
        }
        if self.rename.is_some() {
            return CliMode::Rename { force: false };
        }
        if self.force_rename.is_some() {
            return CliMode::Rename { force: true };
        }
        if self.copy.is_some() {
            return CliMode::Copy { force: false };
        }
        if self.force_copy.is_some() {
            return CliMode::Copy { force: true };
        }
        if self.set_upstream.is_some() {
            return CliMode::SetUpstream;
        }
        if self.unset_upstream {
            return CliMode::UnsetUpstream;
        }
        if self.show_current {
            return CliMode::ShowCurrent;
        }
        if self.show_path.is_some() {
            return CliMode::ShowPath;
        }
        if self.edit_description {
            return CliMode::EditDescription;
        }
        if self.args.len() > 0 {
            return CliMode::Create;
        }
        CliMode::List
    }
}

} // verus!
