use wb::git::{
    branch_exists, branch_list_args, create_branch, current_branch, delete_branch, find_root_dir,
    copy_branch, filter_branches, list_branches, mark_current, parse_branches, remote_names_args,
    rename_branch, set_upstream, unset_upstream, BranchFilter, BranchScope,
};
use wb::output::{format_branch_line, format_branch_list};
use wb::worktree::WorktreeInfo;

fn plain_filter(scope: BranchScope) -> BranchFilter {
    BranchFilter {
        scope,
        sort: None,
        merged: None,
        no_merged: None,
        contains: None,
        no_contains: None,
        pattern: None,
    }
}

#[test]
fn parses_listing_lines() {
    let output = "main\t1234abc\torigin/main\t[ahead 1]\tfirst commit\t*\ndev\t9876fed\t\t\twork in progress\t \nbroken line without tabs";
    let records = parse_branches(output);
    assert_eq!(records.len(), 2);
    assert_eq!(records[0].name, "main");
    assert_eq!(records[0].objectname, "1234abc");
    assert_eq!(records[0].upstream, "origin/main");
    assert_eq!(records[0].upstream_track, "[ahead 1]");
    assert_eq!(records[0].subject, "first commit");
    assert!(records[0].is_head);
    assert!(!records[0].is_remote);
    assert_eq!(records[1].name, "dev");
    assert_eq!(records[1].upstream, "");
    assert!(!records[1].is_head);
}

#[test]
fn subject_keeps_extra_tabs_out_of_the_marker() {
    // A tab inside the subject shifts the remainder into the marker
    // field, which then no longer reads `*` on its own.
    let output = "dev\tabc\t\t\todd\tsubject\t*";
    let records = parse_branches(output);
    assert_eq!(records.len(), 1);
    assert_eq!(records[0].subject, "odd");
    assert!(!records[0].is_head);
}

#[test]
fn glob_pattern_narrows_the_listing() {
    let output = "feature/auth\ta\t\t\ts\t \nfeature/db\tb\t\t\ts\t \nmain\tc\t\t\ts\t*";
    let records = parse_branches(output);
    let kept = filter_branches(records, "feature/*");
    assert_eq!(kept.len(), 2);
    assert_eq!(kept[0].name, "feature/auth");
    assert_eq!(kept[1].name, "feature/db");
    let records = parse_branches(output);
    let none = filter_branches(records, "release/*");
    assert_eq!(none.len(), 0);
}

#[test]
fn remote_records_are_marked() {
    let filter = plain_filter(BranchScope::All);
    let output = "main\ta\t\t\ts\t*\norigin/main\tb\t\t\ts\t ";
    let records = list_branches(&filter, output, Some("origin/main\norigin/dev"));
    assert_eq!(records.len(), 2);
    assert!(!records[0].is_remote);
    assert!(records[1].is_remote);
}

#[test]
fn current_branch_remark_follows_cwd() {
    let records = parse_branches("main\ta\t\t\ts\t*\ndev\tb\t\t\ts\t ");
    let records = mark_current(records, "dev");
    assert!(!records[0].is_head);
    assert!(records[1].is_head);
}

#[test]
fn listing_command_vectors() {
    let format =
        "%(refname:short)\t%(objectname:short)\t%(upstream:short)\t%(upstream:track)\t%(subject)\t%(HEAD)";
    assert_eq!(
        branch_list_args(&plain_filter(BranchScope::Local)),
        vec!["for-each-ref", "--format", format, "refs/heads/"]
    );
    let mut filter = plain_filter(BranchScope::All);
    filter.sort = Some("committerdate".to_string());
    filter.merged = Some("HEAD".to_string());
    assert_eq!(
        branch_list_args(&filter),
        vec![
            "for-each-ref",
            "--format",
            format,
            "--sort=committerdate",
            "--merged=HEAD",
            "refs/heads/",
            "refs/remotes/"
        ]
    );
    assert_eq!(
        remote_names_args(),
        vec!["for-each-ref", "--format", "%(refname:short)", "refs/remotes/"]
    );
}

#[test]
fn branch_command_vectors() {
    assert_eq!(
        branch_exists("dev"),
        vec!["rev-parse", "--verify", "refs/heads/dev"]
    );
    assert_eq!(create_branch("dev", None), vec!["branch", "dev"]);
    assert_eq!(
        create_branch("dev", Some("origin/main")),
        vec!["branch", "dev", "origin/main"]
    );
    assert_eq!(delete_branch("dev", false), vec!["branch", "-d", "dev"]);
    assert_eq!(delete_branch("dev", true), vec!["branch", "-D", "dev"]);
    assert_eq!(rename_branch("a", "b", false), vec!["branch", "-m", "a", "b"]);
    assert_eq!(rename_branch("a", "b", true), vec!["branch", "-M", "a", "b"]);
    assert_eq!(copy_branch("a", "b", false), vec!["branch", "-c", "a", "b"]);
    assert_eq!(copy_branch("a", "b", true), vec!["branch", "-C", "a", "b"]);
    assert_eq!(current_branch(), vec!["symbolic-ref", "--short", "HEAD"]);
    assert_eq!(
        set_upstream("dev", "origin/dev"),
        vec!["branch", "--set-upstream-to", "origin/dev", "dev"]
    );
    assert_eq!(
        unset_upstream("dev"),
        vec!["branch", "--unset-upstream", "dev"]
    );
}

#[test]
fn root_is_parent_of_admin_directory() {
    assert_eq!(find_root_dir("/home/user/project/.bare"), "/home/user/project");
    assert_eq!(find_root_dir("/.bare"), "/");
    assert_eq!(find_root_dir(".bare"), "");
    assert_eq!(find_root_dir(""), "");
}

fn branch(name: &str, head: bool) -> wb::git::BranchInfo {
    wb::git::BranchInfo {
        name: name.to_string(),
        objectname: "abc1234".to_string(),
        upstream: String::new(),
        upstream_track: String::new(),
        subject: "subject".to_string(),
        is_head: head,
        is_remote: false,
    }
}

#[test]
fn formats_plain_listing() {
    let worktrees = vec![WorktreeInfo {
        path: "/r/dev".to_string(),
        head: String::new(),
        branch: Some("dev".to_string()),
        is_bare: false,
        is_detached: false,
    }];
    let branches = vec![branch("main", true), branch("dev", false)];
    let text = format_branch_list(&branches, &worktrees, 0);
    assert_eq!(text, "* main\n  dev +");
}

#[test]
fn cd_directive_carries_the_reserved_prefix() {
    assert_eq!(wb::output::cd_directive("/r/dev"), "__wb_cd:/r/dev");
}

#[test]
fn formats_verbose_line() {
    let no_worktrees: Vec<WorktreeInfo> = Vec::new();
    let mut b = branch("main", true);
    b.upstream = "origin/main".to_string();
    b.upstream_track = "[ahead 1]".to_string();
    assert_eq!(
        format_branch_line(&b, &no_worktrees, 1),
        "* main abc1234 subject [ahead 1]"
    );
    assert_eq!(
        format_branch_line(&b, &no_worktrees, 2),
        "* main abc1234  [origin/main [ahead 1]] subject"
    );
}
