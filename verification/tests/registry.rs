use wb::worktree::{
    add_worktree, find_worktree_for_branch, find_worktree_for_path, list_worktrees, move_worktree,
    prune, remove_worktree, WorktreeInfo,
};

fn record(path: &str, branch: Option<&str>, bare: bool) -> WorktreeInfo {
    WorktreeInfo {
        path: path.to_string(),
        head: String::new(),
        branch: branch.map(|b| b.to_string()),
        is_bare: bare,
        is_detached: false,
    }
}

#[test]
fn parses_porcelain_listing() {
    let output = "worktree /repo/.bare\nbare\n\nworktree /repo/main\nHEAD 1234abcd\nbranch refs/heads/main\n\nworktree /repo/detached-one\nHEAD 99aa88bb\ndetached";
    let records = list_worktrees(output);
    assert_eq!(records.len(), 3);
    assert_eq!(records[0].path, "/repo/.bare");
    assert!(records[0].is_bare);
    assert_eq!(records[0].branch, None);
    assert_eq!(records[1].path, "/repo/main");
    assert_eq!(records[1].head, "1234abcd");
    assert_eq!(records[1].branch.as_deref(), Some("main"));
    assert!(!records[1].is_bare);
    assert!(!records[1].is_detached);
    assert_eq!(records[2].path, "/repo/detached-one");
    assert!(records[2].is_detached);
    assert_eq!(records[2].branch, None);
}

#[test]
fn parser_ignores_unknown_lines_and_empty_input() {
    assert_eq!(list_worktrees("").len(), 0);
    let records = list_worktrees("locked\nnonsense line\nworktree /w\nsomething else\nHEAD ff");
    assert_eq!(records.len(), 1);
    assert_eq!(records[0].path, "/w");
    assert_eq!(records[0].head, "ff");
}

#[test]
fn parser_keeps_branch_ref_without_heads_prefix() {
    let records = list_worktrees("worktree /w\nbranch refs/bisect/bad");
    assert_eq!(records[0].branch.as_deref(), Some("refs/bisect/bad"));
}

#[test]
fn finds_first_record_for_branch() {
    let ws = vec![
        record("/r/.bare", None, true),
        record("/r/one", Some("dev"), false),
        record("/r/two", Some("dev"), false),
    ];
    let found = find_worktree_for_branch("dev", &ws).expect("dev owns a worktree");
    assert_eq!(found.path, "/r/one");
    assert!(find_worktree_for_branch("missing", &ws).is_none());
}

#[test]
fn longest_path_match_wins() {
    // Worktrees at /r/a and /r/a/b: a query under both resolves to the
    // deeper one.
    let ws = vec![
        record("/r/a", Some("outer"), false),
        record("/r/a/b", Some("inner"), false),
    ];
    let found = find_worktree_for_path("/r/a/b/c", &ws).expect("inside both");
    assert_eq!(found.path, "/r/a/b");
    assert_eq!(found.branch.as_deref(), Some("inner"));
}

#[test]
fn path_match_respects_component_boundaries() {
    let ws = vec![record("/r/a", Some("a"), false)];
    assert!(find_worktree_for_path("/r/ab", &ws).is_none());
    assert!(find_worktree_for_path("/r/a", &ws).is_some());
    assert!(find_worktree_for_path("/r/a/x", &ws).is_some());
    assert!(find_worktree_for_path("/other", &ws).is_none());
}

#[test]
fn bare_records_never_own_a_path() {
    let ws = vec![record("/r/.bare", None, true)];
    assert!(find_worktree_for_path("/r/.bare/objects", &ws).is_none());
}

#[test]
fn worktree_command_vectors() {
    assert_eq!(
        add_worktree("/r/dev", "dev", false, None),
        vec!["worktree", "add", "/r/dev", "dev"]
    );
    assert_eq!(
        add_worktree("/r/dev", "dev", true, Some("origin/main")),
        vec!["worktree", "add", "-b", "dev", "/r/dev", "origin/main"]
    );
    assert_eq!(
        remove_worktree("/r/dev", false),
        vec!["worktree", "remove", "/r/dev"]
    );
    assert_eq!(
        remove_worktree("/r/dev", true),
        vec!["worktree", "remove", "--force", "/r/dev"]
    );
    assert_eq!(
        move_worktree("/r/old", "/r/new"),
        vec!["worktree", "move", "/r/old", "/r/new"]
    );
    assert_eq!(prune(), vec!["worktree", "prune"]);
}
