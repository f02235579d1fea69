use altre::minibuffer::completion::{CommandCompletion, CompletionEngine, PathCompletion};

#[test]
fn test_path_completion_creation() {
    let completion = PathCompletion::new();
    assert!(completion.expand_home);
    assert!(completion.expand_env);
    assert!(!completion.show_hidden);
}

#[test]
fn test_filter_entries() {
    let completion = PathCompletion::new();
    let entries = vec!["file1.txt".to_string(), "file2.txt".to_string(), "document.pdf".to_string()];

    let filtered = completion.filter_entries(&entries, "file");
    assert_eq!(filtered.len(), 2);
    assert!(filtered.contains(&"file1.txt".to_string()));
    assert!(filtered.contains(&"file2.txt".to_string()));

    let all = completion.filter_entries(&entries, "");
    assert_eq!(all.len(), 3);
}

#[test]
fn completion_test_command_completion() {
    let mut completion = CommandCompletion::new();
    assert!(completion.all_commands().contains(&"forward-char".to_string()));

    let filtered = completion.complete("for").unwrap();
    assert!(filtered.contains(&"forward-char".to_string()));

    completion.add_command("custom-command".to_string());
    assert!(completion.all_commands().contains(&"custom-command".to_string()));
}

#[test]
fn test_common_prefix() {
    let completion = PathCompletion::new();

    let candidates = vec!["prefix_file1.txt".to_string(), "prefix_file2.txt".to_string()];
    let prefix = completion.common_prefix(&candidates);
    assert_eq!(prefix, "prefix_file");

    let single = vec!["single.txt".to_string()];
    let single_prefix = completion.common_prefix(&single);
    assert_eq!(single_prefix, "single.txt");

    let empty: Vec<String> = vec![];
    let empty_prefix = completion.common_prefix(&empty);
    assert_eq!(empty_prefix, "");
}

#[test]
fn command_names_stay_sorted_without_repeats() {
    let mut completion = CommandCompletion::new();
    completion.add_command("abort".to_string());
    completion.add_command("quit".to_string());
    let all = completion.all_commands();
    assert_eq!(all.len(), 11);
    assert_eq!(all[0], "abort");
    let mut sorted = all.to_vec();
    sorted.sort();
    assert_eq!(sorted, all.to_vec());
}

#[test]
fn applying_completion_replaces_last_component() {
    let completion = PathCompletion::new();
    assert_eq!(completion.apply_completion("src/ma", "main.rs"), "src/main.rs");
    assert_eq!(completion.apply_completion("ma", "main.rs"), "main.rs");
    assert_eq!(completion.apply_completion("a/b/", "c"), "a/b/c");
    let commands = CommandCompletion::new();
    assert_eq!(commands.apply_completion("fo", "forward-char"), "forward-char");
}

#[test]
fn hidden_entries_follow_setting() {
    let hidden = PathCompletion::new();
    assert!(!hidden.shows_entry(".git"));
    assert!(hidden.shows_entry("src"));
    let shown = PathCompletion::new().with_hidden_files(true);
    assert!(shown.shows_entry(".git"));
}

#[test]
fn test_split_path() {
    let completion = PathCompletion::new();
    let cwd: Result<String, String> = Ok("/work".to_string());

    let (_dir, file) = completion.split_path("test/file", None, &cwd).unwrap();
    assert_eq!(file, "file");

    let (_dir, file) = completion.split_path("test/", None, &cwd).unwrap();
    assert_eq!(file, "");
}

#[test]
fn directory_listing_is_sorted_with_directories_marked() {
    let completion = PathCompletion::new();
    let listing = vec![
        ("zeta".to_string(), false),
        (".hidden".to_string(), false),
        ("alpha".to_string(), true),
        ("Beta".to_string(), false),
    ];
    assert_eq!(
        completion.directory_entries(&listing),
        vec!["Beta".to_string(), "alpha/".to_string(), "zeta".to_string()]
    );
    let shown = completion.with_hidden_files(true).directory_entries(&listing);
    assert_eq!(shown[0], ".hidden");
}
