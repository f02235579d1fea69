use altre::minibuffer::system::{
    FileOperation, MinibufferOutcome, MinibufferSystem, MinibufferSystemBuilder, SystemEvent, SystemResponse,
    SystemState,
};
use altre::minibuffer::{MinibufferAction, MinibufferMode};
use altre::input::keybinding::{Key, KeyCode, KeyModifiers};

fn key(code: KeyCode) -> Key {
    Key { modifiers: KeyModifiers { ctrl: false, alt: false, shift: false }, code }
}

#[test]
fn test_minibuffer_system_creation() {
    let system = MinibufferSystem::new();
    assert_eq!(system.state(), SystemState::Inactive);
    assert!(!system.is_active());
}

#[test]
fn test_system_builder() {
    let system = MinibufferSystemBuilder::new()
        .auto_completion(false)
        .max_completions(25)
        .show_hidden_files(true)
        .build();

    assert!(!system.config().auto_completion);
    assert_eq!(system.config().max_completions, 25);
    assert!(system.config().show_hidden_files);
}

#[test]
fn test_find_file_action() {
    let mut system = MinibufferSystem::new();

    let response = system.handle_action(MinibufferAction::FindFile).unwrap();
    assert!(matches!(response, SystemResponse::Continue));
    assert_eq!(system.state(), SystemState::FindFile);
    assert!(system.is_active());
}

#[test]
fn test_execute_command_action() {
    let mut system = MinibufferSystem::new();

    let response = system.handle_action(MinibufferAction::ExecuteCommand).unwrap();
    assert!(matches!(response, SystemResponse::Continue));
    assert_eq!(system.state(), SystemState::ExecuteCommand);
}

#[test]
fn test_eval_expression_action() {
    let mut system = MinibufferSystem::new();

    let response = system.handle_action(MinibufferAction::EvalExpression).unwrap();
    assert!(matches!(response, SystemResponse::Continue));
    assert_eq!(system.state(), SystemState::ExecuteCommand);
    assert!(system.is_active());
}

#[test]
fn test_error_display() {
    let mut system = MinibufferSystem::new();

    let response = system.show_error("Test error").unwrap();
    assert!(matches!(response, SystemResponse::Continue));
    assert_eq!(system.state(), SystemState::ErrorDisplay);
}

#[test]
fn test_info_display() {
    let mut system = MinibufferSystem::new();

    let response = system.show_info("Test info").unwrap();
    assert!(matches!(response, SystemResponse::Continue));
    assert_eq!(system.state(), SystemState::InfoDisplay);
}

#[test]
fn test_command_execution() {
    let mut system = MinibufferSystem::new();

    let response = system.handle_execute_result("quit".to_string());
    assert!(matches!(response, SystemResponse::Quit));

    let response = system.handle_execute_result("find-file test.txt".to_string());
    assert!(matches!(response, SystemResponse::FileOperation(FileOperation::Open(_))));

    let response = system.handle_execute_result("save-buffer".to_string());
    assert!(matches!(response, SystemResponse::FileOperation(FileOperation::Save)));

    // the expression goes to the evaluator, whose result is then shown
    let response = system.handle_execute_result("eval-expression (+ 1 2)".to_string());
    assert!(matches!(response, SystemResponse::Continue));
    assert_eq!(system.evaluation_request(), Some("(+ 1 2)".to_string()));
    system.finish_evaluation(MinibufferOutcome { output: "=> 3".to_string(), messages: vec![], is_error: false });
    assert_eq!(system.state(), SystemState::InfoDisplay);
}

#[test]
fn test_deactivation() {
    let mut system = MinibufferSystem::new();

    system.start_find_file(None).unwrap();
    assert!(system.is_active());

    system.deactivate();
    assert!(!system.is_active());
    assert_eq!(system.state(), SystemState::Inactive);
}

#[test]
fn test_add_command() {
    let mut system = MinibufferSystem::new();
    let initial_count = system.available_commands().len();

    system.add_command("custom-command".to_string());
    assert_eq!(system.available_commands().len(), initial_count + 1);
    assert!(system.available_commands().contains(&"custom-command".to_string()));
}

#[test]
fn test_performance_stats() {
    let system = MinibufferSystem::new();
    let stats = system.performance_stats();

    assert_eq!(stats.completions_count, 0);
    assert_eq!(stats.history_size, 0);
    assert!(stats.uptime.as_nanos() > 0);
}

#[test]
fn execute_result_routes_each_command() {
    let mut system = MinibufferSystem::new();
    match system.handle_execute_result("find-file notes.md".to_string()) {
        SystemResponse::FileOperation(FileOperation::Open(p)) => assert_eq!(p, "notes.md"),
        other => panic!("unexpected {:?}", other),
    }
    match system.handle_execute_result("switch-to-buffer   scratch  ".to_string()) {
        SystemResponse::SwitchBuffer(n) => assert_eq!(n, "scratch"),
        other => panic!("unexpected {:?}", other),
    }
    match system.handle_execute_result("kill-buffer".to_string()) {
        SystemResponse::KillBuffer(n) => assert_eq!(n, ""),
        other => panic!("unexpected {:?}", other),
    }
    match system.handle_execute_result("write-file  out.txt ".to_string()) {
        SystemResponse::FileOperation(FileOperation::SaveAs(p)) => assert_eq!(p, "out.txt"),
        other => panic!("unexpected {:?}", other),
    }
    assert!(matches!(system.handle_execute_result("list-buffers".to_string()), SystemResponse::ListBuffers));
    match system.handle_execute_result("forward-word".to_string()) {
        SystemResponse::ExecuteCommand(c) => assert_eq!(c, "forward-word"),
        other => panic!("unexpected {:?}", other),
    }
}

#[test]
fn empty_file_name_shows_error() {
    let mut system = MinibufferSystem::new();
    let response = system.handle_execute_result("find-file ".to_string());
    assert!(matches!(response, SystemResponse::Continue));
    match &system.minibuffer_state().mode {
        MinibufferMode::ErrorDisplay { message, .. } => assert_eq!(message, "No file specified"),
        other => panic!("unexpected {:?}", other),
    }
    let response = system.handle_execute_result("write-file    ".to_string());
    assert!(matches!(response, SystemResponse::Continue));
    assert_eq!(system.state(), SystemState::ErrorDisplay);
}

#[test]
fn write_file_command_starts_prompt() {
    let mut system = MinibufferSystem::new();
    system.handle_execute_result("write-file".to_string());
    assert_eq!(system.current_prompt(), "Save file: ");
    assert!(system.is_active());
}

#[test]
fn typed_command_is_submitted_and_remembered() {
    let mut system = MinibufferSystem::new();
    system.start_execute_command().unwrap();
    for c in "quit".chars() {
        system.handle_event(SystemEvent::KeyInput(key(KeyCode::Char(c)))).unwrap();
    }
    assert_eq!(system.current_input(), "quit");
    let response = system.handle_event(SystemEvent::KeyInput(key(KeyCode::Enter))).unwrap();
    assert!(matches!(response, SystemResponse::Quit));
    assert!(!system.is_active());
    assert_eq!(system.performance_stats().history_size, 1);
}

#[test]
fn evaluation_messages_are_joined() {
    let mut system = MinibufferSystem::new();
    system.finish_evaluation(MinibufferOutcome {
        output: "=> 1".to_string(),
        messages: vec!["a".to_string(), "b".to_string()],
        is_error: false,
    });
    match &system.minibuffer_state().mode {
        MinibufferMode::InfoDisplay { message, .. } => assert_eq!(message, "=> 1 (a | b)"),
        other => panic!("unexpected {:?}", other),
    }
    system.finish_evaluation(MinibufferOutcome { output: "boom".to_string(), messages: vec![], is_error: true });
    assert_eq!(system.state(), SystemState::ErrorDisplay);
}

#[test]
fn query_replace_reads_pattern_then_replacement() {
    let mut system = MinibufferSystem::new();
    system
        .handle_event(SystemEvent::Action(MinibufferAction::QueryReplace { is_regex: false, initial: Some("foo".to_string()) }))
        .unwrap();
    assert!(matches!(system.minibuffer_state().mode, MinibufferMode::QueryReplacePattern { is_regex: false }));
    assert_eq!(system.current_prompt(), "Query replace: ");
    system.handle_event(SystemEvent::KeyInput(key(KeyCode::Enter))).unwrap();
    assert_eq!(system.current_prompt(), "Query replace foo with: ");
    for c in "bar".chars() {
        system.handle_event(SystemEvent::KeyInput(key(KeyCode::Char(c)))).unwrap();
    }
    match system.handle_event(SystemEvent::KeyInput(key(KeyCode::Enter))).unwrap() {
        SystemResponse::QueryReplace { pattern, replacement, is_regex } => {
            assert_eq!(pattern, "foo");
            assert_eq!(replacement, "bar");
            assert!(!is_regex);
        }
        other => panic!("unexpected {:?}", other),
    }
}
