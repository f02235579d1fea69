use altre::app::keys::{format_key_event, TermKey, TermKeyCode};
use altre::app::{App, AppRequest};
use altre::file::operations::FileBuffer;
use altre::input::commands::Command;
use altre::input::keybinding::{Action, DeleteDirection, Direction};
use altre::minibuffer::MinibufferMode;

fn plain(code: TermKeyCode) -> TermKey {
    TermKey { code, ctrl: false, alt: false, shift: false }
}

fn ctrl(c: char) -> TermKey {
    TermKey { code: TermKeyCode::Char(c), ctrl: true, alt: false, shift: false }
}

fn info_message(app: &App) -> Option<String> {
    match &app.minibuffer().minibuffer_state().mode {
        MinibufferMode::InfoDisplay { message, .. } => Some(message.clone()),
        _ => None,
    }
}

fn error_message(app: &App) -> Option<String> {
    match &app.minibuffer().minibuffer_state().mode {
        MinibufferMode::ErrorDisplay { message, .. } => Some(message.clone()),
        _ => None,
    }
}

fn type_text(app: &mut App, text: &str) {
    for c in text.chars() {
        app.handle_key_event(plain(TermKeyCode::Char(c))).unwrap();
    }
}

#[test]
fn kill_line_removes_text_without_messages() {
    let mut app = App::new().expect("app init");
    app.insert_str("hello\nworld").unwrap();
    app.move_cursor_to_start().unwrap();

    app.execute_command(Command::KillLine).unwrap();

    assert_eq!(app.editor().to_string(), "world");
    assert_eq!(app.viewport().top_line, 0);
    assert_eq!(app.viewport().scroll_x, 0);
}

#[test]
fn new_app_is_running_and_empty() {
    let app = App::new().unwrap();
    assert!(app.is_running());
    assert!(app.is_initialized());
    assert!(!app.has_buffer());
    assert_eq!(app.get_buffer_content(), "");
    assert_eq!(app.get_cursor_position().char_pos, 0);
    assert!(app.current_prefix().is_none());
}

#[test]
fn shutdown_stops_the_app() {
    let mut app = App::new().unwrap();
    app.shutdown();
    assert!(!app.is_running());
}

#[test]
fn typed_keys_insert_text() {
    let mut app = App::new().unwrap();
    type_text(&mut app, "abc");
    assert_eq!(app.get_buffer_content(), "abc");
    app.handle_key_event(plain(TermKeyCode::Enter)).unwrap();
    type_text(&mut app, "d");
    assert_eq!(app.get_buffer_content(), "abc\nd");
    app.handle_key_event(plain(TermKeyCode::Backspace)).unwrap();
    assert_eq!(app.get_buffer_content(), "abc\n");
}

#[test]
fn ctrl_c_quits() {
    let mut app = App::new().unwrap();
    app.handle_key_event(ctrl('c')).unwrap();
    assert!(!app.is_running());
}

#[test]
fn ctrl_x_ctrl_c_quits_and_shows_prefix() {
    let mut app = App::new().unwrap();
    app.handle_key_event(ctrl('x')).unwrap();
    assert_eq!(app.current_prefix().map(|s| s.as_str()), Some("C-x"));
    assert!(app.is_running());
    app.handle_key_event(ctrl('c')).unwrap();
    assert!(!app.is_running());
}

#[test]
fn escape_drops_a_pending_prefix() {
    let mut app = App::new().unwrap();
    app.handle_key_event(ctrl('x')).unwrap();
    app.handle_key_event(plain(TermKeyCode::Esc)).unwrap();
    assert!(app.current_prefix().is_none());
    type_text(&mut app, "f");
    assert_eq!(app.get_buffer_content(), "f");
}

#[test]
fn unbound_key_is_reported() {
    let mut app = App::new().unwrap();
    app.handle_key_event(plain(TermKeyCode::F(5))).unwrap();
    assert_eq!(info_message(&app).as_deref(), Some("未対応のキー: F5"));
}

#[test]
fn ctrl_s_starts_and_escape_ends_search() {
    let mut app = App::new().unwrap();
    app.insert_str("one two one").unwrap();
    app.move_cursor_to_start().unwrap();
    app.handle_key_event(ctrl('s')).unwrap();
    assert!(app.search().is_active());
    type_text(&mut app, "two");
    assert!(app.search().is_active());
    assert_eq!(app.get_buffer_content(), "one two one");
    app.handle_key_event(plain(TermKeyCode::Enter)).unwrap();
    assert!(!app.search().is_active());
    assert_eq!(app.get_buffer_content(), "one two one");
}

#[test]
fn ctrl_g_cancels_search() {
    let mut app = App::new().unwrap();
    app.insert_str("abc").unwrap();
    app.handle_key_event(ctrl('r')).unwrap();
    assert!(app.search().is_active());
    app.handle_key_event(ctrl('g')).unwrap();
    assert!(!app.search().is_active());
}

#[test]
fn find_file_prompt_starts_in_home_without_directory() {
    let mut app = App::new().unwrap();
    app.execute_command(Command::FindFile).unwrap();
    assert!(app.minibuffer().is_active());
    assert_eq!(app.minibuffer().current_prompt(), "Find file: ");
    assert_eq!(app.minibuffer().current_input(), "~/");
}

#[test]
fn find_file_prompt_starts_in_working_directory() {
    let mut app = App::new().unwrap();
    app.set_working_directory(Some("/tmp/work".to_string()));
    app.handle_key_event(ctrl('x')).unwrap();
    app.handle_key_event(ctrl('f')).unwrap();
    assert_eq!(app.minibuffer().current_input(), "/tmp/work/");
}

#[test]
fn find_file_submission_requests_opening() {
    let mut app = App::new().unwrap();
    app.set_working_directory(Some("/tmp/".to_string()));
    app.execute_command(Command::FindFile).unwrap();
    type_text(&mut app, "notes.txt");
    app.handle_key_event(plain(TermKeyCode::Enter)).unwrap();
    assert_eq!(app.take_request(), Some(AppRequest::OpenFile("/tmp/notes.txt".to_string())));
    assert_eq!(app.take_request(), None);
    assert!(!app.minibuffer().is_active());
}

#[test]
fn finish_open_shows_the_file() {
    let mut app = App::new().unwrap();
    app.insert_str("old").unwrap();
    let mut buffer = FileBuffer::new_empty("a.txt".to_string());
    buffer.content = "line one\nline two".to_string();
    app.finish_open(buffer, "/tmp/a.txt", false);
    assert_eq!(app.get_buffer_content(), "line one\nline two");
    assert_eq!(app.get_cursor_position().char_pos, 0);
    assert_eq!(info_message(&app).as_deref(), Some("ファイルを開きました: /tmp/a.txt"));
    assert_eq!(app.current_file().map(|b| b.name.as_str()), Some("a.txt"));
}

#[test]
fn finish_open_of_new_file_says_created() {
    let mut app = App::new().unwrap();
    let buffer = FileBuffer::new_empty("b.txt".to_string());
    app.finish_open(buffer, "/tmp/b.txt", true);
    assert_eq!(info_message(&app).as_deref(), Some("新規ファイルを作成しました: /tmp/b.txt"));
}

#[test]
fn execute_command_prompt_announces_command() {
    let mut app = App::new().unwrap();
    app.handle_key_event(TermKey { code: TermKeyCode::Char('x'), ctrl: false, alt: true, shift: false }).unwrap();
    assert_eq!(app.minibuffer().current_prompt(), "M-x ");
    type_text(&mut app, "hello");
    app.handle_key_event(plain(TermKeyCode::Enter)).unwrap();
    assert_eq!(info_message(&app).as_deref(), Some("コマンド実行: hello"));
    assert_eq!(app.get_buffer_content(), "");
}

#[test]
fn quit_through_command_prompt() {
    let mut app = App::new().unwrap();
    app.execute_command(Command::ExecuteCommand).unwrap();
    type_text(&mut app, "quit");
    app.handle_key_event(plain(TermKeyCode::Enter)).unwrap();
    assert!(!app.is_running());
}

#[test]
fn message_is_dismissed_by_next_key() {
    let mut app = App::new().unwrap();
    app.execute_command(Command::SetMark).unwrap();
    assert_eq!(info_message(&app).as_deref(), Some("マークを設定しました"));
    type_text(&mut app, "x");
    assert_eq!(info_message(&app), None);
    assert_eq!(app.get_buffer_content(), "x");
}

#[test]
fn unimplemented_commands_are_reported() {
    let mut app = App::new().unwrap();
    app.execute_command(Command::Undo).unwrap();
    assert_eq!(info_message(&app).as_deref(), Some("未実装のコマンド: Undo"));
    app.execute_command(Command::Unknown("say \"hi\"".to_string())).unwrap();
    assert_eq!(info_message(&app).as_deref(), Some("未実装のコマンド: Unknown(\"say \\\"hi\\\"\")"));
}

#[test]
fn command_debug_text_matches_debug_form() {
    for c in [Command::ForwardWord, Command::InsertChar('\n'), Command::Unknown("a\tb".to_string())] {
        assert_eq!(c.debug_text(), format!("{:?}", c));
    }
}

#[test]
fn actions_map_to_commands() {
    assert_eq!(Action::MoveCursor(Direction::Up).to_command(), Some(Command::PreviousLine));
    assert_eq!(Action::MoveCursor(Direction::Right).to_command(), Some(Command::ForwardChar));
    assert_eq!(Action::DeleteChar(DeleteDirection::Backward).to_command(), Some(Command::DeleteBackwardChar));
    assert_eq!(Action::InsertChar('q').to_command(), Some(Command::InsertChar('q')));
    assert_eq!(Action::FileOpen.to_command(), Some(Command::FindFile));
    assert_eq!(Action::FileSave.to_command(), Some(Command::SaveBuffer));
    assert_eq!(Action::Quit.to_command(), Some(Command::SaveBuffersKillTerminal));
}

#[test]
fn handle_action_runs_the_command() {
    let mut app = App::new().unwrap();
    app.handle_action(Action::InsertChar('z')).unwrap();
    app.handle_action(Action::InsertNewline).unwrap();
    assert_eq!(app.get_buffer_content(), "z\n");
    app.handle_action(Action::Quit).unwrap();
    assert!(!app.is_running());
}

#[test]
fn kill_then_yank_restores_text() {
    let mut app = App::new().unwrap();
    app.insert_str("first\nsecond\n").unwrap();
    app.move_cursor_to_start().unwrap();
    app.execute_command(Command::KillLine).unwrap();
    assert_eq!(app.get_buffer_content(), "second\n");
    app.execute_command(Command::Yank).unwrap();
    assert_eq!(app.get_buffer_content(), "first\nsecond\n");
}

#[test]
fn consecutive_kills_join_in_the_ring() {
    let mut app = App::new().unwrap();
    app.insert_str("a\nb\nc").unwrap();
    app.move_cursor_to_start().unwrap();
    app.execute_command(Command::KillLine).unwrap();
    app.execute_command(Command::KillLine).unwrap();
    assert_eq!(app.get_buffer_content(), "c");
    app.execute_command(Command::Yank).unwrap();
    assert_eq!(app.get_buffer_content(), "a\nb\nc");
}

#[test]
fn yank_with_empty_ring_says_so() {
    let mut app = App::new().unwrap();
    app.execute_command(Command::Yank).unwrap();
    assert_eq!(info_message(&app).as_deref(), Some("キルリングが空です"));
}

#[test]
fn yank_pop_without_yank_is_refused() {
    let mut app = App::new().unwrap();
    app.execute_command(Command::YankPop).unwrap();
    assert_eq!(info_message(&app).as_deref(), Some("直前のコマンドがヤンクではありません"));
}

#[test]
fn region_kill_and_copy() {
    let mut app = App::new().unwrap();
    app.insert_str("hello world").unwrap();
    app.move_cursor_to_start().unwrap();
    app.execute_command(Command::SetMark).unwrap();
    for _ in 0..5 {
        app.execute_command(Command::ForwardChar).unwrap();
    }
    assert_eq!(app.selection_range(), Some((0, 5)));
    app.execute_command(Command::CopyRegion).unwrap();
    assert_eq!(app.get_buffer_content(), "hello world");
    app.execute_command(Command::KillRegion).unwrap();
    assert_eq!(app.get_buffer_content(), " world");
    assert_eq!(app.selection_range(), None);
}

#[test]
fn kill_region_without_mark_is_reported() {
    let mut app = App::new().unwrap();
    app.insert_str("abc").unwrap();
    app.execute_command(Command::KillRegion).unwrap();
    assert_eq!(app.get_buffer_content(), "abc");
    assert_eq!(info_message(&app).as_deref(), Some("リージョンが選択されていません"));
}

#[test]
fn mark_buffer_selects_everything() {
    let mut app = App::new().unwrap();
    app.insert_str("abc\ndef").unwrap();
    app.execute_command(Command::MarkBuffer).unwrap();
    assert_eq!(app.selection_range(), Some((0, 7)));
    assert_eq!(app.get_cursor_position().char_pos, 7);
}

#[test]
fn exchange_point_and_mark_swaps() {
    let mut app = App::new().unwrap();
    app.insert_str("abcdef").unwrap();
    app.move_cursor_to_start().unwrap();
    app.execute_command(Command::SetMark).unwrap();
    app.execute_command(Command::MoveLineEnd).unwrap();
    app.execute_command(Command::ExchangePointAndMark).unwrap();
    assert_eq!(app.get_cursor_position().char_pos, 0);
    assert_eq!(app.selection_range(), Some((0, 6)));
}

#[test]
fn keyboard_quit_clears_the_mark() {
    let mut app = App::new().unwrap();
    app.insert_str("abc").unwrap();
    app.execute_command(Command::SetMark).unwrap();
    app.handle_key_event(ctrl('g')).unwrap();
    assert_eq!(app.selection_range(), None);
    assert_eq!(info_message(&app).as_deref(), Some("キャンセルしました"));
}

#[test]
fn save_without_buffer_asks_for_a_name() {
    let mut app = App::new().unwrap();
    app.execute_command(Command::SaveBuffer).unwrap();
    assert_eq!(app.minibuffer().current_prompt(), "Save file: ");
    assert_eq!(app.minibuffer().current_input(), "~/untitled");
}

#[test]
fn save_without_buffer_in_working_directory() {
    let mut app = App::new().unwrap();
    app.set_working_directory(Some("/home/me".to_string()));
    app.execute_command(Command::SaveBuffer).unwrap();
    assert_eq!(app.minibuffer().current_input(), "/home/me/untitled");
}

#[test]
fn save_as_submission_requests_saving() {
    let mut app = App::new().unwrap();
    app.insert_str("data").unwrap();
    app.execute_command(Command::SaveBuffer).unwrap();
    for _ in 0.."~/untitled".len() {
        app.handle_key_event(plain(TermKeyCode::Backspace)).unwrap();
    }
    type_text(&mut app, "/tmp/out.txt");
    app.handle_key_event(plain(TermKeyCode::Enter)).unwrap();
    assert_eq!(app.take_request(), Some(AppRequest::SaveFileAs("/tmp/out.txt".to_string())));
    assert_eq!(app.current_file().map(|b| b.content.as_str()), Some("data"));
    app.finish_save(Some(std::path::PathBuf::from("/tmp/out.txt")), "/tmp/out.txt");
    assert_eq!(info_message(&app).as_deref(), Some("保存しました: /tmp/out.txt"));
    assert!(!app.current_file().unwrap().is_modified());
}

#[test]
fn save_of_opened_file_requests_saving() {
    let mut app = App::new().unwrap();
    let mut buffer = FileBuffer::for_new_file(std::path::PathBuf::from("/tmp/c.txt"));
    buffer.content = String::new();
    app.finish_open(buffer, "/tmp/c.txt", true);
    app.execute_command(Command::SaveBuffer).unwrap();
    assert_eq!(info_message(&app).as_deref(), Some("変更なし"));
    assert_eq!(app.take_request(), None);
}

#[test]
fn finish_save_without_buffer_is_an_error() {
    let mut app = App::new().unwrap();
    app.finish_save(None, "/tmp/x");
    assert_eq!(error_message(&app).as_deref(), Some("Application error: 保存するバッファがありません"));
}

#[test]
fn failed_request_is_shown_as_error() {
    let mut app = App::new().unwrap();
    app.fail_request("ファイル操作エラー: denied".to_string());
    assert_eq!(error_message(&app).as_deref(), Some("Application error: ファイル操作エラー: denied"));
}

#[test]
fn open_file_reports_missing_file() {
    let mut app = App::new().unwrap();
    app.open_file("/nope.txt", false).unwrap();
    assert!(app.has_buffer());
    assert_eq!(error_message(&app).as_deref(), Some("Application error: ファイルが存在しません: /nope.txt"));
    app.open_file("/yes.txt", true).unwrap();
    assert_eq!(info_message(&app).as_deref(), Some("未実装: /yes.txt の読み込み"));
}

#[test]
fn eval_expression_prompt_starts() {
    let mut app = App::new().unwrap();
    app.execute_command(Command::EvalExpression).unwrap();
    assert_eq!(app.minibuffer().current_prompt(), "Eval: ");
    assert_eq!(app.minibuffer().current_input(), "");
}

#[test]
fn timer_keeps_the_message() {
    let mut app = App::new().unwrap();
    app.execute_command(Command::SetMark).unwrap();
    app.process_minibuffer_timer();
    assert_eq!(info_message(&app).as_deref(), Some("マークを設定しました"));
}

#[test]
fn movement_at_the_edge_is_reported() {
    let mut app = App::new().unwrap();
    app.execute_command(Command::BackwardChar).unwrap();
    assert_eq!(info_message(&app).as_deref(), Some("これ以上移動できません"));
}

#[test]
fn viewport_follows_the_cursor() {
    let mut app = App::new().unwrap();
    app.resize(20, 5);
    for _ in 0..10 {
        app.execute_command(Command::InsertNewline).unwrap();
    }
    assert_eq!(app.get_cursor_position().line, 10);
    assert_eq!(app.viewport().top_line, 5);
    app.execute_command(Command::MoveBufferStart).unwrap();
    assert_eq!(app.viewport().top_line, 0);
}

#[test]
fn recenter_cycles_through_three_places() {
    let mut app = App::new().unwrap();
    app.resize(20, 5);
    for _ in 0..20 {
        app.execute_command(Command::InsertNewline).unwrap();
    }
    for _ in 0..10 {
        app.execute_command(Command::PreviousLine).unwrap();
    }
    assert_eq!(app.get_cursor_position().line, 10);
    app.execute_command(Command::Recenter).unwrap();
    assert_eq!(app.viewport().top_line, 8);
    app.execute_command(Command::Recenter).unwrap();
    assert_eq!(app.viewport().top_line, 10);
    app.execute_command(Command::Recenter).unwrap();
    assert_eq!(app.viewport().top_line, 6);
}

#[test]
fn completion_request_follows_the_prompt() {
    let mut app = App::new().unwrap();
    assert_eq!(app.completion_request(), None);
    app.set_working_directory(Some("/tmp".to_string()));
    app.execute_command(Command::FindFile).unwrap();
    assert_eq!(app.completion_request(), Some("/tmp/".to_string()));
    app.supply_completions(vec!["/tmp/a".to_string(), "/tmp/b".to_string()]);
    assert_eq!(app.minibuffer().completions().len(), 2);
}

#[test]
fn key_events_are_described() {
    assert_eq!(format_key_event(&ctrl('x')), "C-x");
    assert_eq!(format_key_event(&plain(TermKeyCode::Enter)), "RET");
    assert_eq!(format_key_event(&plain(TermKeyCode::Left)), "左");
    assert_eq!(
        format_key_event(&TermKey { code: TermKeyCode::Char('f'), ctrl: true, alt: true, shift: false }),
        "C-M-f"
    );
    assert_eq!(format_key_event(&plain(TermKeyCode::Other)), "未知のキー");
}

#[test]
fn kill_word_backward_removes_the_word() {
    let mut app = App::new().unwrap();
    app.insert_str("alpha beta").unwrap();
    app.execute_command(Command::MoveLineEnd).unwrap();
    app.execute_command(Command::KillWordBackward).unwrap();
    assert_eq!(app.get_buffer_content(), "alpha ");
    app.execute_command(Command::Yank).unwrap();
    assert_eq!(app.get_buffer_content(), "alpha beta");
}

#[test]
fn insert_str_of_nothing_succeeds() {
    let mut app = App::new().unwrap();
    assert!(app.insert_str("").is_ok());
    assert!(app.insert_char('a').is_ok());
    assert_eq!(app.get_buffer_content(), "a");
}

#[test]
fn kill_type_kill_yank_restores_the_joined_line() {
    let mut app = App::new().unwrap();
    app.insert_str("a\nb\n").unwrap();
    app.move_cursor_to_start().unwrap();
    app.execute_command(Command::KillLine).unwrap();
    app.execute_command(Command::InsertChar('x')).unwrap();
    app.execute_command(Command::KillLine).unwrap();
    assert_eq!(app.editor().to_string(), "x");
    app.execute_command(Command::Yank).unwrap();
    assert_eq!(app.editor().to_string(), "xb\n");
}

#[test]
fn yank_pop_replaces_the_last_yank_with_the_previous_kill() {
    let mut app = App::new().unwrap();
    app.insert_str("one two").unwrap();
    app.move_cursor_to_start().unwrap();
    app.execute_command(Command::KillWordForward).unwrap();
    app.execute_command(Command::InsertChar('-')).unwrap();
    app.execute_command(Command::KillWordForward).unwrap();
    assert_eq!(app.editor().to_string(), "-");
    app.execute_command(Command::Yank).unwrap();
    assert_eq!(app.editor().to_string(), "- two");
    app.execute_command(Command::YankPop).unwrap();
    assert_eq!(app.editor().to_string(), "-one");
}

#[test]
fn search_keys_extend_and_shrink_the_query() {
    let mut app = App::new().unwrap();
    app.insert_str("abc abd").unwrap();
    app.move_cursor_to_start().unwrap();
    app.handle_key_event(ctrl('s')).unwrap();
    type_text(&mut app, "abd");
    app.handle_key_event(plain(TermKeyCode::Backspace)).unwrap();
    app.handle_key_event(plain(TermKeyCode::Enter)).unwrap();
    assert_eq!(app.editor().to_string(), "abc abd");
}

#[test]
fn motion_commands_move_the_cursor() {
    let mut app = App::new().unwrap();
    app.insert_str("ab\ncd").unwrap();
    app.move_cursor_to_start().unwrap();
    app.execute_command(Command::ForwardChar).unwrap();
    assert_eq!(app.get_cursor_position().char_pos, 1);
    app.execute_command(Command::NextLine).unwrap();
    assert_eq!(app.get_cursor_position().line, 1);
    app.execute_command(Command::MoveBufferEnd).unwrap();
    assert_eq!(app.get_cursor_position().char_pos, 5);
}

#[test]
fn cancelled_search_returns_the_cursor_and_enter_keeps_it() {
    let mut app = App::new().unwrap();
    app.insert_str("abc abd").unwrap();
    app.move_cursor_to_start().unwrap();
    app.handle_key_event(ctrl('s')).unwrap();
    type_text(&mut app, "abd");
    assert_ne!(app.get_cursor_position().char_pos, 0);
    app.handle_key_event(ctrl('g')).unwrap();
    assert_eq!(app.get_cursor_position().char_pos, 0);

    app.handle_key_event(ctrl('s')).unwrap();
    type_text(&mut app, "abd");
    let at = app.get_cursor_position().char_pos;
    app.handle_key_event(plain(TermKeyCode::Enter)).unwrap();
    assert_eq!(app.get_cursor_position().char_pos, at);
}

#[test]
fn page_down_moves_view_and_cursor_together() {
    let mut app = App::new().expect("app init");
    let lines: Vec<String> = (0..30).map(|i| format!("line{}", i)).collect();
    app.insert_str(&lines.join("\n")).unwrap();
    app.move_cursor_to_start().unwrap();
    app.resize(80, 10);
    app.execute_command(Command::ScrollPageDown).unwrap();
    assert_eq!(app.viewport().top_line, 9);
    assert_eq!(app.editor().cursor().line, 9);
    app.execute_command(Command::ScrollPageUp).unwrap();
    assert_eq!(app.viewport().top_line, 0);
    assert_eq!(app.editor().cursor().line, 0);
}
