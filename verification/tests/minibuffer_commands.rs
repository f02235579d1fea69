use altre::minibuffer::commands::{
    BufferOperationType, CommandContext, CommandProcessor, CommandResult, FileOperationType, SystemOperationType,
};
use std::path::PathBuf;

#[test]
fn test_command_processor_creation() {
    let processor = CommandProcessor::new();
    assert!(processor.command_exists("find-file"));
    assert!(processor.command_exists("save-buffer"));
    assert!(processor.command_exists("quit"));
}

#[test]
fn test_command_aliases() {
    let processor = CommandProcessor::new();
    assert!(processor.command_exists("ff"));
    assert!(processor.command_exists("sb"));
    assert!(processor.command_exists("q"));
}

#[test]
fn test_find_file_command() {
    let mut processor = CommandProcessor::new();
    let context = CommandContext::default();

    let result = processor.execute_command("find-file test.txt", &context).unwrap();
    match result {
        CommandResult::FileOperation(FileOperationType::Open { path }) => {
            assert_eq!(path, PathBuf::from("test.txt"));
        }
        _ => panic!("Expected FileOperation::Open"),
    }
}

#[test]
fn test_save_buffer_command() {
    let mut processor = CommandProcessor::new();
    let mut context = CommandContext::default();
    context.current_file = Some(PathBuf::from("test.txt"));

    let result = processor.execute_command("save-buffer", &context).unwrap();
    assert!(matches!(result, CommandResult::FileOperation(FileOperationType::Save)));
}

#[test]
fn test_quit_command() {
    let mut processor = CommandProcessor::new();
    let context = CommandContext::default();

    let result = processor.execute_command("quit", &context).unwrap();
    assert!(matches!(result, CommandResult::SystemOperation(SystemOperationType::Quit)));
}

#[test]
fn commands_test_command_completion() {
    let processor = CommandProcessor::new();

    let completions = processor.complete_command("find");
    assert!(completions.contains(&"find-file".to_string()));

    let completions = processor.complete_command("save");
    assert!(completions.len() >= 2);
}

#[test]
fn test_command_history() {
    let mut processor = CommandProcessor::new();
    let context = CommandContext::default();

    processor.execute_command("find-file test1.txt", &context).unwrap();
    processor.execute_command("find-file test2.txt", &context).unwrap();

    let history = processor.get_history();
    assert_eq!(history.len(), 2);
    assert_eq!(history[0], "find-file test1.txt");
    assert_eq!(history[1], "find-file test2.txt");
}

#[test]
fn test_unknown_command() {
    let mut processor = CommandProcessor::new();
    let context = CommandContext::default();

    let result = processor.execute_command("unknown-command", &context);
    assert!(result.is_err());
}

#[test]
fn test_command_execution_context() {
    let processor = CommandProcessor::new();
    let mut context = CommandContext::default();

    let save_cmd = processor.get_command_info("save-buffer").unwrap();
    assert!(!save_cmd.can_execute(&context));

    context.current_file = Some(PathBuf::from("test.txt"));
    assert!(save_cmd.can_execute(&context));
}

#[test]
fn test_executable_commands_filter() {
    let processor = CommandProcessor::new();
    let mut context = CommandContext::default();

    let executable_without_file = processor.executable_commands(&context);
    let find_file_available = executable_without_file.iter().any(|cmd| cmd.name == "find-file");
    assert!(find_file_available);

    let save_buffer_available = executable_without_file.iter().any(|cmd| cmd.name == "save-buffer");
    assert!(!save_buffer_available);

    context.current_file = Some(PathBuf::from("test.txt"));
    let executable_with_file = processor.executable_commands(&context);
    let save_buffer_available_with_file = executable_with_file.iter().any(|cmd| cmd.name == "save-buffer");
    assert!(save_buffer_available_with_file);
}

#[test]
fn completion_is_sorted_and_includes_aliases() {
    let processor = CommandProcessor::new();
    let completions = processor.complete_command("save");
    assert_eq!(
        completions,
        vec![
            "save-buffer".to_string(),
            "save-buffer-as".to_string(),
            "save-buffers-kill-terminal".to_string(),
            "save-some-buffers".to_string(),
        ]
    );
    assert_eq!(processor.complete_command("s"), {
        let mut v = vec![
            "save-buffer".to_string(),
            "save-buffer-as".to_string(),
            "save-buffers-kill-terminal".to_string(),
            "save-some-buffers".to_string(),
            "sb".to_string(),
            "split-window-below".to_string(),
            "split-window-right".to_string(),
            "switch-to-buffer".to_string(),
        ];
        v.sort();
        v
    });
}

#[test]
fn alias_runs_target_and_history_skips_repeats() {
    let mut processor = CommandProcessor::new();
    let context = CommandContext::default();
    let r = processor.execute_command("q", &context).unwrap();
    assert!(matches!(r, CommandResult::SystemOperation(SystemOperationType::Quit)));
    processor.execute_command("q", &context).unwrap();
    assert_eq!(processor.get_history(), &["q".to_string()]);
    processor.clear_history();
    assert!(processor.get_history().is_empty());
}

#[test]
fn command_outcomes_follow_context() {
    let mut processor = CommandProcessor::new();
    let mut context = CommandContext::default();
    match processor.execute_command("find-file", &context).unwrap() {
        CommandResult::Error(m) => assert_eq!(m, "No filename specified"),
        other => panic!("unexpected {:?}", other),
    }
    match processor.execute_command("kill-buffer", &context).unwrap() {
        CommandResult::Error(m) => assert_eq!(m, "Command 'kill-buffer' cannot be executed in current context"),
        other => panic!("unexpected {:?}", other),
    }
    context.current_buffer_id = Some(4);
    match processor.execute_command("kill-buffer", &context).unwrap() {
        CommandResult::BufferOperation(BufferOperationType::Delete { buffer_id }) => assert_eq!(buffer_id, 4),
        other => panic!("unexpected {:?}", other),
    }
    match processor.execute_command("next-line", &context).unwrap() {
        CommandResult::Success(m) => assert_eq!(m, "Executed: next-line"),
        other => panic!("unexpected {:?}", other),
    }
    match processor.execute_command("other-window", &context).unwrap() {
        CommandResult::Error(m) => assert_eq!(m, "Command not implemented: other-window"),
        other => panic!("unexpected {:?}", other),
    }
    assert!(matches!(processor.execute_command("   ", &context).unwrap(), CommandResult::Nothing));
}

#[test]
fn registering_replaces_and_aliases_resolve() {
    let mut processor = CommandProcessor::new();
    let count = processor.list_commands().len();
    processor.register_alias("ws".to_string(), "write-file".to_string());
    let info = processor.get_command_info("ws").unwrap();
    assert_eq!(info.name, "write-file");
    let mut def = processor.get_command_info("quit").unwrap().clone();
    def.description = "leave".to_string();
    processor.register_command(def);
    assert_eq!(processor.list_commands().len(), count);
    assert_eq!(processor.get_command_info("quit").unwrap().description, "leave");
}
