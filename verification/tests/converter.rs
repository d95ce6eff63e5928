use wb::commands::init_repo::{
    already_converted, clone_plan, clone_target_dir, clone_worktree_step, convert_plan,
    detect_default_branch, discard_entry, keep_entry, run, InitRequest,
};
use wb::error::GbError;

#[test]
fn init_dispatch() {
    match run(Some("https://host/repo.git"), Some("here")) {
        InitRequest::Clone { url, directory } => {
            assert_eq!(url, "https://host/repo.git");
            assert_eq!(directory.as_deref(), Some("here"));
        }
        InitRequest::Convert => panic!("a URL means a clone"),
    }
    assert!(matches!(run(None, None), InitRequest::Convert));
}

#[test]
fn clone_dir_comes_from_url_or_flag() {
    assert_eq!(clone_target_dir("https://host/a/repo.git", None), "repo");
    assert_eq!(clone_target_dir("https://host/a/repo", None), "repo");
    assert_eq!(clone_target_dir("repo.git", None), "repo");
    assert_eq!(clone_target_dir("https://host/a/repo.git", Some("dir")), "dir");
}

#[test]
fn clone_into_existing_directory_is_refused() {
    // The guard fires before any step of the plan exists, so nothing can
    // have touched the filesystem.
    let err = clone_plan("https://host/repo.git", None, true).unwrap_err();
    match err {
        GbError::DestinationExists(p) => assert_eq!(p, "repo"),
        other => panic!("wrong error: {}", other.message()),
    }
}

#[test]
fn clone_plan_layout() {
    let plan = clone_plan("https://host/repo.git", None, false).unwrap();
    assert_eq!(plan.dir, "repo");
    assert_eq!(plan.bare_dir, "repo/.bare");
    assert_eq!(plan.git_file, "repo/.git");
    assert_eq!(plan.pointer_content, "gitdir: ./.bare\n");
    assert_eq!(
        plan.clone_cmd,
        vec!["clone", "--bare", "https://host/repo.git", "repo/.bare"]
    );
    assert_eq!(
        plan.rewire_cmd,
        vec![
            "config",
            "remote.origin.fetch",
            "+refs/heads/*:refs/remotes/origin/*"
        ]
    );
    assert_eq!(plan.fetch_cmd, vec!["fetch", "origin"]);
    let (path, add) = clone_worktree_step(&plan.dir, "main");
    assert_eq!(path, "repo/main");
    assert_eq!(add, vec!["worktree", "add", "repo/main", "main"]);
}

#[test]
fn default_branch_detection() {
    assert_eq!(detect_default_branch(Some("trunk")), "trunk");
    assert_eq!(detect_default_branch(Some("")), "main");
    assert_eq!(detect_default_branch(None), "main");
}

#[test]
fn converted_layout_is_recognized() {
    assert!(already_converted("."));
    assert!(already_converted("/repo/.bare"));
    assert!(!already_converted("/repo/.git"));
    assert!(!already_converted(".bare-not-really"));
}

#[test]
fn convert_refuses_second_run() {
    // Probed from inside a converted layout the admin directory resolves
    // under /.bare; probed at a root where .bare is taken the collision
    // guard fires.  Either way the second run fails.
    let err = convert_plan("/repo", "main", "abc123", "/repo/.bare", true).unwrap_err();
    assert!(matches!(err, GbError::AlreadyConverted));
    let err = convert_plan("/repo", "main", "abc123", "/repo/.git", true).unwrap_err();
    assert!(matches!(err, GbError::AdminDirCollision));
}

#[test]
fn convert_plan_layout() {
    let plan = convert_plan("/repo", "main", "abc123", "/repo/.git", false).unwrap();
    assert_eq!(plan.dot_git, "/repo/.git");
    assert_eq!(plan.bare_dir, "/repo/.bare");
    assert_eq!(plan.pointer_content, "gitdir: ./.bare\n");
    assert_eq!(plan.worktree_path, "/repo/main");
    assert_eq!(plan.mark_bare_cmd, vec!["config", "core.bare", "true"]);
    assert_eq!(
        plan.detach_cmd,
        vec!["update-ref", "--no-deref", "HEAD", "abc123"]
    );
    assert_eq!(plan.prune_cmd, vec!["worktree", "prune"]);
    assert_eq!(plan.add_cmd, vec!["worktree", "add", "/repo/main", "main"]);
}

#[test]
fn snapshot_keeps_user_entries_only() {
    // Tracked and untracked files survive; the admin directory, the
    // pointer file and the branch-named entry stay behind.
    assert!(keep_entry("file.txt", "main"));
    assert!(keep_entry("subdir", "main"));
    assert!(!keep_entry(".git", "main"));
    assert!(!keep_entry(".bare", "main"));
    assert!(!keep_entry("main", "main"));
}

#[test]
fn fresh_checkout_is_discarded_except_pointer() {
    assert!(discard_entry("file.txt"));
    assert!(discard_entry("subdir"));
    assert!(!discard_entry(".git"));
}
