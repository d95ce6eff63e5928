//! The library's error taxonomy.
//!
//! Every failure a decision function can raise is one of these variants;
//! failures of the version-control gateway itself are passed through
//! verbatim as `ProcessFailure`.

use vstd::prelude::*;

use crate::strutil::concat3;

verus! {

#[derive(Debug)]
pub enum GbError {
    /// The repository root could not be resolved.
    NotARepository,
    /// The clone target directory already exists; holds its path.
    DestinationExists(String),
    /// The repository is already in the bare-store + worktrees layout.
    AlreadyConverted,
    /// An entry with the admin directory's name already sits at the root.
    AdminDirCollision,
    /// No branch of this name exists; holds the name.
    BranchNotFound(String),
    /// A branch of this name already exists; holds the name.
    BranchAlreadyExists(String),
    /// The resolved worktree path is already occupied; holds the path.
    WorktreeAlreadyExists(String),
    /// The caller stands inside the branch's own worktree; holds the name.
    CurrentlyCheckedOut(String),
    /// The gateway's own error text, verbatim.
    ProcessFailure(String),
}

/// The mathematical shadow of a `GbError`.
pub enum ErrorModel {
    NotARepository,
    DestinationExists(Seq<char>),
    AlreadyConverted,
    AdminDirCollision,
    BranchNotFound(Seq<char>),
    BranchAlreadyExists(Seq<char>),
    WorktreeAlreadyExists(Seq<char>),
    CurrentlyCheckedOut(Seq<char>),
    ProcessFailure(Seq<char>),
}

impl View for GbError {
    type V = ErrorModel;

    open spec fn view(&self) -> ErrorModel {
        match self {
            GbError::NotARepository => ErrorModel::NotARepository,
            GbError::DestinationExists(p) => ErrorModel::DestinationExists(p@),
            GbError::AlreadyConverted => ErrorModel::AlreadyConverted,
            GbError::AdminDirCollision => ErrorModel::AdminDirCollision,
            GbError::BranchNotFound(n) => ErrorModel::BranchNotFound(n@),
            GbError::BranchAlreadyExists(n) => ErrorModel::BranchAlreadyExists(n@),
            GbError::WorktreeAlreadyExists(p) => ErrorModel::WorktreeAlreadyExists(p@),
            GbError::CurrentlyCheckedOut(n) => ErrorModel::CurrentlyCheckedOut(n@),
            GbError::ProcessFailure(t) => ErrorModel::ProcessFailure(t@),
        }
    }
}

impl GbError {
    /// The diagnostic line shown to the user.
    pub fn message(&self) -> (r: String)
        ensures
            r@ == match self {
                GbError::NotARepository => "fatal: not a git repository (or any parent up to mount point /)"@,
                GbError::DestinationExists(p) => "fatal: destination path '"@ + p@
                    + "' already exists"@,
                GbError::AlreadyConverted => "This repository is already in wb's bare-repo layout"@,
                GbError::AdminDirCollision => "fatal: .bare directory already exists"@,
                GbError::BranchNotFound(n) => "fatal: branch '"@ + n@ + "' not found"@,
                GbError::BranchAlreadyExists(n) => "fatal: a branch named '"@ + n@
                    + "' already exists"@,
                GbError::WorktreeAlreadyExists(p) => "fatal: worktree path '"@ + p@
                    + "' already exists"@,
                GbError::CurrentlyCheckedOut(n) => "fatal: cannot delete branch '"@ + n@
                    + "' while you are in its worktree"@,
                GbError::ProcessFailure(t) => t@,
            },
    {
        match self {
            GbError::NotARepository => String::from_str(
                "fatal: not a git repository (or any parent up to mount point /)",
            ),
            GbError::DestinationExists(p) => concat3(
                "fatal: destination path '",
                p.as_str(),
                "' already exists",
            ),
            GbError::AlreadyConverted => String::from_str(
                "This repository is already in wb's bare-repo layout",
            ),
            GbError::AdminDirCollision => String::from_str("fatal: .bare directory already exists"),
            GbError::BranchNotFound(n) => concat3("fatal: branch '", n.as_str(), "' not found"),
            GbError::BranchAlreadyExists(n) => concat3(
                "fatal: a branch named '",
                n.as_str(),
                "' already exists",
            ),
            GbError::WorktreeAlreadyExists(p) => concat3(
                "fatal: worktree path '",
                p.as_str(),
                "' already exists",
            ),
            GbError::CurrentlyCheckedOut(n) => concat3(
                "fatal: cannot delete branch '",
                n.as_str(),
                "' while you are in its worktree",
            ),
            GbError::ProcessFailure(t) => t.clone(),
        }
    }
}

} // verus!
