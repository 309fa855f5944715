//! Path filtering.

use rproxy::config::FilterConfig;
use rproxy::globs::GlobMatcher;
use rproxy::middleware::filter::FilterMiddleware;

fn build_globset(patterns: &[&str]) -> GlobMatcher {
    let patterns: Vec<String> = patterns.iter().map(|p| p.to_string()).collect();
    GlobMatcher::new(&patterns)
}

fn filter(enabled: bool, patterns: &[&str]) -> FilterMiddleware {
    FilterMiddleware::new(&FilterConfig {
        enabled,
        blocked_paths: patterns.iter().map(|p| p.to_string()).collect(),
    })
}

#[test]
fn test_combined_default_patterns() {
    let patterns = vec![
        "**/.env*",
        "**/.git*",
        "**/.svn*",
        "**/.hg*",
        "**/*.sql",
        "**/*.bak",
        "**/docker-compose*.yml",
    ];
    let globset = build_globset(&patterns);

    assert!(globset.is_match("/.env"));
    assert!(globset.is_match("/.git/config"));
    assert!(globset.is_match("/backup.sql"));
    assert!(globset.is_match("/docker-compose.yml"));

    assert!(!globset.is_match("/"));
    assert!(!globset.is_match("/api/users"));
    assert!(!globset.is_match("/static/app.js"));
    assert!(!globset.is_match("/_next/static/chunks/main.js"));
}

#[test]
fn test_empty_pattern_list() {
    let globset = build_globset(&[]);
    assert!(!globset.is_match("/anything"));
    assert!(!globset.is_match("/.env"));
}

#[test]
fn test_root_path_not_blocked() {
    let globset = build_globset(&["**/.env*", "**/.git*"]);
    assert!(!globset.is_match("/"));
}

#[test]
fn test_api_paths_not_blocked() {
    let globset = build_globset(&["**/.env*", "**/.git*", "**/*.sql"]);
    assert!(!globset.is_match("/api/v1/users"));
    assert!(!globset.is_match("/api/health"));
    assert!(!globset.is_match("/graphql"));
}

#[test]
fn test_static_assets_not_blocked() {
    let globset = build_globset(&["**/.env*", "**/.git*"]);
    assert!(!globset.is_match("/static/app.js"));
    assert!(!globset.is_match("/static/style.css"));
    assert!(!globset.is_match("/_next/static/chunks/main.js"));
    assert!(!globset.is_match("/images/logo.png"));
}

#[test]
fn test_case_sensitivity() {
    let globset = build_globset(&["**/.env*"]);
    assert!(globset.is_match("/.env"));
    assert!(!globset.is_match("/.ENV"));
}

#[test]
fn test_nested_paths() {
    let globset = build_globset(&["**/.env*"]);
    assert!(globset.is_match("/deeply/nested/path/.env"));
    assert!(globset.is_match("/a/b/c/d/e/.env.local"));
}

#[test]
fn invalid_patterns_are_left_out() {
    let globset = build_globset(&["**/[.env", "**/*.sql"]);
    assert!(globset.is_match("/dump.sql"));
    assert!(!globset.is_match("/[.env"));
}

#[test]
fn default_filter_blocks_sensitive_files_at_any_depth() {
    let f = filter(true, &["/.env*", "/.git*", "/.svn*", "/.hg*", "/*.sql", "/*.bak", "/docker-compose*.yml"]);
    assert!(f.is_blocked("/.env"));
    assert!(f.is_blocked("/api/.env.local"));
    assert!(f.is_blocked("/.git/HEAD"));
    assert!(f.is_blocked("/data/backup.sql"));
    assert!(f.is_blocked("/config.bak"));
    assert!(f.is_blocked("/docker-compose.prod.yml"));
    assert!(!f.is_blocked("/environment"));
    assert!(!f.is_blocked("/github"));
    assert!(!f.is_blocked("/docker-compose.yaml"));
    assert!(!f.is_blocked("/"));
}

#[test]
fn patterns_without_leading_slash_match_at_any_depth() {
    let f = filter(true, &["secret.txt"]);
    assert!(f.is_blocked("/secret.txt"));
    assert!(f.is_blocked("/a/b/secret.txt"));
    assert!(!f.is_blocked("/secret.txt.bak"));
}

#[test]
fn disabled_filter_blocks_nothing() {
    let f = filter(false, &["/.env*"]);
    assert!(!f.is_blocked("/.env"));
    let none = filter(true, &[]);
    assert!(!none.is_blocked("/.env"));
}
