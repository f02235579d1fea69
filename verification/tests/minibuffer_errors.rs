use altre::input::keybinding::{Key, KeyCode, KeyModifiers};
use altre::minibuffer::system::{MinibufferSystem, SystemEvent, SystemResponse};
use altre::minibuffer::{MinibufferError, MinibufferMode};

struct MinibufferTestHelper {
    system: MinibufferSystem,
}

impl MinibufferTestHelper {
    fn new() -> Self {
        MinibufferTestHelper { system: MinibufferSystem::new() }
    }

    fn system(&mut self) -> &mut MinibufferSystem {
        &mut self.system
    }

    fn mode(&self) -> MinibufferMode {
        self.system.minibuffer_state().mode.clone()
    }

    fn send_key(&mut self, key: Key) -> SystemResponse {
        self.system.handle_event(SystemEvent::KeyInput(key)).unwrap()
    }

    fn start_execute_command(&mut self) {
        self.system.start_execute_command().unwrap();
    }

    fn press_enter(&mut self) -> SystemResponse {
        self.send_key(Key { modifiers: KeyModifiers { ctrl: false, alt: false, shift: false }, code: KeyCode::Enter })
    }
}

fn key_char(c: char) -> Key {
    Key { modifiers: KeyModifiers { ctrl: false, alt: false, shift: false }, code: KeyCode::Char(c) }
}

#[test]
fn test_show_error_api_switches_to_error_mode() {
    let mut helper = MinibufferTestHelper::new();
    let response = helper.system().show_error("Permission denied").expect("error display should succeed");
    assert!(matches!(response, SystemResponse::Continue));

    match helper.mode() {
        MinibufferMode::ErrorDisplay { message, .. } => assert_eq!(message, "Permission denied"),
        other => panic!("expected error display mode, got {:?}", other),
    }
}

#[test]
fn test_error_message_clears_on_next_key_input() {
    let mut helper = MinibufferTestHelper::new();
    helper.system().show_error("failure").expect("display error");

    helper.send_key(key_char('a'));
    assert!(matches!(helper.mode(), MinibufferMode::Inactive));
}

#[test]
fn test_show_info_api_sets_info_mode() {
    let mut helper = MinibufferTestHelper::new();
    helper.system().show_info("Saved successfully").expect("show info");

    match helper.mode() {
        MinibufferMode::InfoDisplay { message, .. } => assert_eq!(message, "Saved successfully"),
        other => panic!("expected info display mode, got {:?}", other),
    }
}

#[test]
fn test_handle_event_show_error_sets_state() {
    let mut helper = MinibufferTestHelper::new();
    helper.system().handle_event(SystemEvent::ShowError("IO failed".into())).expect("handle event");

    match helper.mode() {
        MinibufferMode::ErrorDisplay { message, .. } => assert_eq!(message, "IO failed"),
        other => panic!("expected error display mode, got {:?}", other),
    }
}

#[test]
fn test_execute_command_without_input_shows_error() {
    let mut helper = MinibufferTestHelper::new();
    helper.start_execute_command();

    let response = helper.press_enter();
    assert!(matches!(response, SystemResponse::Continue));

    match helper.mode() {
        MinibufferMode::ErrorDisplay { message, .. } => {
            assert_eq!(message, "No command specified");
        }
        other => panic!("expected error display mode, got {:?}", other),
    }
}

#[test]
fn test_minibuffer_error_user_facing_messages() {
    let not_found = MinibufferError::FileNotFound("missing.txt".into());
    assert_eq!(not_found.user_message(), "ファイルが見つかりません: missing.txt");

    let permission = MinibufferError::PermissionDenied("/root".into());
    assert_eq!(permission.user_message(), "アクセス権限がありません: /root");

    let invalid = MinibufferError::InvalidPath("?".into());
    assert_eq!(invalid.user_message(), "無効なパスです: ?");
}
