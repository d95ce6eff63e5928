use wb::cli::{Cli, CliMode, InitCommand};
use wb::commands::{edit_description, show_path, upstream};
use wb::config::{NamingConvention, WbConfig};
use wb::error::GbError;
use wb::worktree::WorktreeInfo;

#[test]
fn config_defaults_to_root_and_flat() {
    let c = WbConfig::load(Some("/repo".to_string()), None, None).unwrap();
    assert_eq!(c.worktree_dir, "/repo");
    assert_eq!(c.naming, NamingConvention::Flat);
    let c = WbConfig::load(Some("/repo".to_string()), Some(String::new()), None).unwrap();
    assert_eq!(c.worktree_dir, "/repo");
}

#[test]
fn config_reads_settings() {
    let c = WbConfig::load(
        Some("/repo".to_string()),
        Some("/trees".to_string()),
        Some("nested".to_string()),
    )
    .unwrap();
    assert_eq!(c.worktree_dir, "/trees");
    assert_eq!(c.naming, NamingConvention::Nested);
    let c = WbConfig::load(Some("/repo".to_string()), None, Some("prefixed".to_string())).unwrap();
    assert_eq!(c.naming, NamingConvention::Prefixed);
    let c = WbConfig::load(Some("/repo".to_string()), None, Some("garbage".to_string())).unwrap();
    assert_eq!(c.naming, NamingConvention::Flat);
}

#[test]
fn config_without_root_is_not_a_repository() {
    let err = WbConfig::load(None, None, None).unwrap_err();
    assert!(matches!(err, GbError::NotARepository));
    assert_eq!(
        err.message(),
        "fatal: not a git repository (or any parent up to mount point /)"
    );
}

#[test]
fn error_messages() {
    assert_eq!(
        GbError::DestinationExists("repo".to_string()).message(),
        "fatal: destination path 'repo' already exists"
    );
    assert_eq!(
        GbError::AlreadyConverted.message(),
        "This repository is already in wb's bare-repo layout"
    );
    assert_eq!(
        GbError::AdminDirCollision.message(),
        "fatal: .bare directory already exists"
    );
    assert_eq!(
        GbError::BranchNotFound("dev".to_string()).message(),
        "fatal: branch 'dev' not found"
    );
    assert_eq!(
        GbError::BranchAlreadyExists("dev".to_string()).message(),
        "fatal: a branch named 'dev' already exists"
    );
    assert_eq!(
        GbError::WorktreeAlreadyExists("/r/dev".to_string()).message(),
        "fatal: worktree path '/r/dev' already exists"
    );
    assert_eq!(
        GbError::CurrentlyCheckedOut("dev".to_string()).message(),
        "fatal: cannot delete branch 'dev' while you are in its worktree"
    );
    assert_eq!(
        GbError::ProcessFailure("raw text".to_string()).message(),
        "raw text"
    );
}

fn empty_cli() -> Cli {
    Cli {
        command: None,
        delete: None,
        force_delete: None,
        rename: None,
        force_rename: None,
        copy: None,
        force_copy: None,
        all: false,
        remotes: false,
        verbose: 0,
        list_pattern: None,
        set_upstream: None,
        unset_upstream: false,
        show_current: false,
        show_path: None,
        merged: None,
        no_merged: None,
        contains: None,
        no_contains: None,
        sort: None,
        edit_description: false,
        args: Vec::new(),
    }
}

#[test]
fn mode_priority() {
    assert_eq!(empty_cli().mode(), CliMode::List);
    let mut c = empty_cli();
    c.args = vec!["dev".to_string()];
    assert_eq!(c.mode(), CliMode::Create);
    let mut c = empty_cli();
    c.delete = Some(vec!["dev".to_string()]);
    c.args = vec!["dev".to_string()];
    assert_eq!(c.mode(), CliMode::Delete { force: false });
    let mut c = empty_cli();
    c.force_rename = Some(vec!["a".to_string(), "b".to_string()]);
    assert_eq!(c.mode(), CliMode::Rename { force: true });
    let mut c = empty_cli();
    c.command = Some(InitCommand::Init {
        target: None,
        directory: None,
    });
    c.delete = Some(vec!["dev".to_string()]);
    assert_eq!(c.mode(), CliMode::Init);
    let mut c = empty_cli();
    c.show_current = true;
    assert_eq!(c.mode(), CliMode::ShowCurrent);
}

#[test]
fn show_path_prefers_existing_worktree() {
    let config = WbConfig {
        worktree_dir: "/r".to_string(),
        naming: NamingConvention::Flat,
    };
    let wt = WorktreeInfo {
        path: "/elsewhere/dev".to_string(),
        head: String::new(),
        branch: Some("dev".to_string()),
        is_bare: false,
        is_detached: false,
    };
    assert_eq!(
        show_path::run("dev", Some(&wt), true, &config).unwrap(),
        "/elsewhere/dev"
    );
    assert_eq!(show_path::run("dev", None, true, &config).unwrap(), "/r/dev");
    let err = show_path::run("dev", None, false, &config).unwrap_err();
    assert!(matches!(err, GbError::BranchNotFound(n) if n == "dev"));
}

#[test]
fn upstream_targets_explicit_or_current_branch() {
    let cwd = "main".to_string();
    assert_eq!(
        upstream::set("origin/dev", Some("dev"), Some(&cwd)).unwrap(),
        vec!["branch", "--set-upstream-to", "origin/dev", "dev"]
    );
    assert_eq!(
        upstream::set("origin/main", None, Some(&cwd)).unwrap(),
        vec!["branch", "--set-upstream-to", "origin/main", "main"]
    );
    assert!(upstream::set("origin/dev", None, None).is_none());
    assert_eq!(
        upstream::unset(None, Some(&cwd)).unwrap(),
        vec!["branch", "--unset-upstream", "main"]
    );
    assert!(upstream::unset(None, None).is_none());
}

#[test]
fn edit_description_delegates() {
    assert_eq!(edit_description::run(), vec!["branch", "--edit-description"]);
}
