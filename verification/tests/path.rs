use altre::file::path::{
    common_parent, complete_expansion, expand_path, file_stem, has_extension, normalize_path, path_depth,
    relative_path, DefaultPathProcessor,
};
use std::path::PathBuf;

#[test]
fn test_normalize_path() {
    let normalized = DefaultPathProcessor::normalize_path("./a/../b/./c").unwrap();
    assert_eq!(normalized, PathBuf::from("b/c"));
}

#[test]
fn test_is_safe_path() {
    assert!(DefaultPathProcessor::is_safe_path("safe/path/file.txt"));
    assert!(!DefaultPathProcessor::is_safe_path("../unsafe/path"));
    assert!(!DefaultPathProcessor::is_safe_path("path/with\0null"));
}

#[test]
fn test_has_extension() {
    assert!(has_extension("file.txt", &["txt", "md"]));
    assert!(has_extension("file.TXT", &["txt", "md"]));
    assert!(!has_extension("file.pdf", &["txt", "md"]));
    assert!(!has_extension("file", &["txt", "md"]));
}

#[test]
fn test_file_stem() {
    assert_eq!(file_stem("file.txt"), Some("file".to_string()));
    assert_eq!(file_stem("path/to/file.txt"), Some("file".to_string()));
    assert_eq!(file_stem("file"), Some("file".to_string()));
}

#[test]
fn test_path_depth() {
    assert_eq!(path_depth("a/b/c"), 3);
    assert_eq!(path_depth("file.txt"), 1);
    assert_eq!(path_depth(""), 0);
}

#[test]
fn test_common_parent() {
    let paths = vec![
        PathBuf::from("/home/user/doc1.txt"),
        PathBuf::from("/home/user/doc2.txt"),
        PathBuf::from("/home/user/subdir/doc3.txt"),
    ];

    let common = common_parent(&paths).unwrap();
    assert_eq!(common, PathBuf::from("/home/user"));
}

#[test]
fn normalizing_above_the_first_component_fails() {
    assert!(normalize_path("a/../..").is_err());
    assert_eq!(normalize_path("/x/./y/..").unwrap(), PathBuf::from("/x"));
}

#[test]
fn home_expansion_rules() {
    assert_eq!(
        DefaultPathProcessor::expand_home("~/documents/file.txt", Some("/home/testuser")).unwrap(),
        PathBuf::from("/home/testuser/documents/file.txt")
    );
    assert_eq!(DefaultPathProcessor::expand_home("~", Some("/h")).unwrap(), PathBuf::from("/h"));
    assert!(DefaultPathProcessor::expand_home("~other/x", Some("/h")).is_err());
    assert!(DefaultPathProcessor::expand_home("~/x", None).is_err());
    assert_eq!(DefaultPathProcessor::expand_home("plain", None).unwrap(), PathBuf::from("plain"));
}

#[test]
fn absolute_and_relative_paths() {
    let cwd: Result<String, String> = Ok("/work".to_string());
    assert_eq!(DefaultPathProcessor::to_absolute("src/a.rs", &cwd).unwrap(), PathBuf::from("/work/src/a.rs"));
    assert_eq!(DefaultPathProcessor::to_absolute("/etc", &cwd).unwrap(), PathBuf::from("/etc"));
    let missing: Result<String, String> = Err("gone".to_string());
    assert!(DefaultPathProcessor::to_absolute("rel", &missing).is_err());
    assert_eq!(relative_path("/a/b/c", "/a/d", &cwd).unwrap(), PathBuf::from("../../d"));
    assert_eq!(relative_path("x", "x/y", &cwd).unwrap(), PathBuf::from("y"));
}

#[test]
fn expansion_finishes_from_variables_result() {
    let cwd: Result<String, String> = Ok("/work".to_string());
    assert_eq!(complete_expansion(Ok("a/./b/../c".to_string()), &cwd).unwrap(), PathBuf::from("/work/a/c"));
    assert!(complete_expansion(Err("error looking key 'X' up".to_string()), &cwd).is_err());
    assert_eq!(expand_path("~/p", Some("/home/t"), &cwd).unwrap(), PathBuf::from("/home/t/p"));
}

#[test]
fn common_parent_edges() {
    let none: Vec<PathBuf> = vec![];
    assert_eq!(common_parent(&none), None);
    let disjoint = vec![PathBuf::from("a/b"), PathBuf::from("c/d")];
    assert_eq!(common_parent(&disjoint), None);
    let one = vec![PathBuf::from("a/b")];
    assert_eq!(common_parent(&one), Some(PathBuf::from("a/b")));
}
