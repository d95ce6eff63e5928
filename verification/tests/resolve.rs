use wb::config::{NamingConvention, WbConfig};
use wb::resolve::{branch_to_worktree_path, dir_name_to_branch, sanitize_branch_name};

#[test]
fn test_flat_sanitize() {
    assert_eq!(
        sanitize_branch_name("feature/auth", &NamingConvention::Flat),
        "feature--auth"
    );
    assert_eq!(sanitize_branch_name("main", &NamingConvention::Flat), "main");
    assert_eq!(
        sanitize_branch_name("feat/sub/deep", &NamingConvention::Flat),
        "feat--sub--deep"
    );
}

#[test]
fn test_nested_sanitize() {
    assert_eq!(
        sanitize_branch_name("feature/auth", &NamingConvention::Nested),
        "feature/auth"
    );
}

#[test]
fn test_reverse_flat() {
    assert_eq!(
        dir_name_to_branch("feature--auth", &NamingConvention::Flat),
        "feature/auth"
    );
}

#[test]
fn test_worktree_path() {
    let config = WbConfig {
        worktree_dir: "/home/user/project".to_string(),
        naming: NamingConvention::Flat,
    };
    assert_eq!(
        branch_to_worktree_path(&config, "feature/auth"),
        "/home/user/project/feature--auth"
    );
}

#[test]
fn flat_dir_name_has_no_separator() {
    for name in ["a/b", "x/y/z", "no-slash", "a/b/c/d/e"] {
        let dir = sanitize_branch_name(name, &NamingConvention::Flat);
        assert!(!dir.contains('/'), "{dir} should hold no separator");
    }
}

#[test]
fn flat_round_trip_on_clean_names() {
    for name in ["feature/auth", "main", "a/b/c", "x-y/z", "a/-b"] {
        let dir = sanitize_branch_name(name, &NamingConvention::Flat);
        assert_eq!(dir_name_to_branch(&dir, &NamingConvention::Flat), name);
    }
}

#[test]
fn flat_round_trip_fails_on_double_dash() {
    // The mapping is not injective on names already holding `--`:
    // `a--b` encodes to itself and decodes to `a/b`.
    let dir = sanitize_branch_name("a--b", &NamingConvention::Flat);
    assert_eq!(dir, "a--b");
    assert_eq!(dir_name_to_branch(&dir, &NamingConvention::Flat), "a/b");
}

#[test]
fn prefixed_sanitize_is_lossy() {
    assert_eq!(
        sanitize_branch_name("feature/auth", &NamingConvention::Prefixed),
        "feature-auth"
    );
    // Two distinct names share the directory; the reverse map is the identity.
    assert_eq!(
        sanitize_branch_name("feature-auth", &NamingConvention::Prefixed),
        "feature-auth"
    );
    assert_eq!(
        dir_name_to_branch("feature-auth", &NamingConvention::Prefixed),
        "feature-auth"
    );
}

#[test]
fn nested_path_keeps_separators() {
    let config = WbConfig {
        worktree_dir: "/r".to_string(),
        naming: NamingConvention::Nested,
    };
    assert_eq!(branch_to_worktree_path(&config, "feature/auth"), "/r/feature/auth");
}
