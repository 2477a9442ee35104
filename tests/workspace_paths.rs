use llama_runtime::workspace::{normalize_rel, resolve};

#[test]
fn normalization_of_relative_paths() {
    assert_eq!(normalize_rel("a/./b/../c"), "a/c");
    assert_eq!(normalize_rel("/abs/x/"), "abs/x");
    assert_eq!(normalize_rel("a\\b//c"), "a/b/c");
    assert_eq!(normalize_rel("../../x"), "x");
    assert_eq!(normalize_rel(""), "");
    assert_eq!(normalize_rel("."), "");
    assert_eq!(normalize_rel("src/main.rs"), "src/main.rs");
}

#[test]
fn workspace_path_checks() {
    assert_eq!(resolve(false, "x"), Err("workspace_root must be absolute".to_string()));
    assert_eq!(resolve(true, "a/../b"), Err("path must not escape workspace".to_string()));
    assert_eq!(resolve(true, "a..b"), Err("path must not escape workspace".to_string()));
    assert_eq!(resolve(true, "./x/y"), Ok("x/y".to_string()));
    assert_eq!(resolve(true, ".devassistant/logs"), Ok(".devassistant/logs".to_string()));
}
