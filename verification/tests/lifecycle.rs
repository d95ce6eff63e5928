use wb::commands::{copy, create, delete, rename};
use wb::config::{NamingConvention, WbConfig};
use wb::error::GbError;
use wb::worktree::WorktreeInfo;

fn flat_config(dir: &str) -> WbConfig {
    WbConfig {
        worktree_dir: dir.to_string(),
        naming: NamingConvention::Flat,
    }
}

fn record(path: &str, branch: Option<&str>) -> WorktreeInfo {
    WorktreeInfo {
        path: path.to_string(),
        head: String::new(),
        branch: branch.map(|b| b.to_string()),
        is_bare: false,
        is_detached: false,
    }
}

#[test]
fn create_twice_settles_on_the_same_path() {
    // A never-before-seen branch: no ref, no worktree, path free.
    let config = flat_config("/r");
    let first = create::run("dev", None, false, None, false, &config).expect("first call succeeds");
    assert_eq!(first.path, "/r/dev");
    let add = first.add.expect("first call adds branch and worktree");
    assert_eq!(add, vec!["worktree", "add", "-b", "dev", "/r/dev"]);
    // After the plan ran, the branch exists and owns the worktree at that
    // path; a second call succeeds with the same path and no error.
    let existing = record(&first.path, Some("dev"));
    let second =
        create::run("dev", None, true, Some(&existing), false, &config).expect("second call succeeds");
    assert_eq!(second.path, first.path);
    assert!(second.add.is_none());
}

#[test]
fn create_with_start_point_builds_full_command() {
    let config = flat_config("/r");
    let plan = create::run("feat/x", Some("origin/main"), false, None, false, &config).unwrap();
    assert_eq!(plan.path, "/r/feat--x");
    assert_eq!(
        plan.add.unwrap(),
        vec!["worktree", "add", "-b", "feat/x", "/r/feat--x", "origin/main"]
    );
}

#[test]
fn create_adds_worktree_for_bare_ref() {
    let config = flat_config("/r");
    let plan = create::run("dev", None, true, None, false, &config).unwrap();
    assert_eq!(plan.path, "/r/dev");
    assert_eq!(plan.add.unwrap(), vec!["worktree", "add", "/r/dev", "dev"]);
}

#[test]
fn create_refuses_occupied_path() {
    let config = flat_config("/r");
    let err = create::run("dev", None, false, None, true, &config).unwrap_err();
    match err {
        GbError::WorktreeAlreadyExists(p) => assert_eq!(p, "/r/dev"),
        other => panic!("wrong error: {}", other.message()),
    }
}

#[test]
fn delete_refuses_inside_own_worktree_whatever_force_says() {
    let wt = record("/r/dev", Some("dev"));
    let owner = "dev".to_string();
    for force in [false, true] {
        let err = delete::run("dev", force, Some(&owner), Some(&wt)).unwrap_err();
        match err {
            GbError::CurrentlyCheckedOut(n) => assert_eq!(n, "dev"),
            other => panic!("wrong error: {}", other.message()),
        }
    }
}

#[test]
fn delete_removes_worktree_before_ref() {
    let wt = record("/r/dev", Some("dev"));
    let cmds = delete::run("dev", false, None, Some(&wt)).unwrap();
    assert_eq!(cmds.len(), 2);
    assert_eq!(cmds[0], vec!["worktree", "remove", "/r/dev"]);
    assert_eq!(cmds[1], vec!["branch", "-d", "dev"]);
}

#[test]
fn delete_without_worktree_only_drops_ref() {
    let cmds = delete::run("dev", true, None, None).unwrap();
    assert_eq!(cmds, vec![vec!["branch", "-D", "dev"]]);
}

#[test]
fn delete_from_another_worktree_is_allowed() {
    let wt = record("/r/dev", Some("dev"));
    let owner = "main".to_string();
    assert!(delete::run("dev", false, Some(&owner), Some(&wt)).is_ok());
}

#[test]
fn rename_moves_directory_iff_path_differs() {
    // feature/x renamed to feature/y under Flat moves feature--x to
    // feature--y.
    let config = flat_config("/r");
    let wt = record("/r/feature--x", Some("feature/y"));
    let (path, cmd) = rename::move_step("feature/y", Some(&wt), &config).expect("paths differ");
    assert_eq!(path, "/r/feature--y");
    assert_eq!(cmd, vec!["worktree", "move", "/r/feature--x", "/r/feature--y"]);
    // A record already standing at the resolved path stays put.
    let settled = record("/r/feature--y", Some("feature/y"));
    assert!(rename::move_step("feature/y", Some(&settled), &config).is_none());
    // No worktree, no move: the ref rename is the entire effect.
    assert!(rename::move_step("feature/y", None, &config).is_none());
}

#[test]
fn copy_always_adds_a_fresh_worktree() {
    let config = flat_config("/r");
    let plan = copy::run("dev", "feat/z", false, &config);
    assert_eq!(plan.copy_cmd, vec!["branch", "-c", "dev", "feat/z"]);
    assert_eq!(plan.path, "/r/feat--z");
    assert_eq!(plan.add_cmd, vec!["worktree", "add", "/r/feat--z", "feat/z"]);
    let forced = copy::run("dev", "feat/z", true, &config);
    assert_eq!(forced.copy_cmd, vec!["branch", "-C", "dev", "feat/z"]);
}

#[test]
fn short_hash_probe() {
    assert_eq!(
        delete::short_hash("dev"),
        vec!["rev-parse", "--short", "refs/heads/dev"]
    );
}
