use altre::input::commands::{Command, CommandContext, CommandProcessor, CommandResult, FileRequest};

#[test]
fn test_command_from_string() {
    let cmd = Command::from_string("forward-char");
    match cmd {
        Command::ForwardChar => {}
        _ => panic!("Expected ForwardChar"),
    }
    let unknown = Command::from_string("unknown-command");
    match unknown {
        Command::Unknown(name) => assert_eq!(name, "unknown-command"),
        _ => panic!("Expected Unknown"),
    }
    assert!(matches!(Command::from_string("scroll-up"), Command::ScrollPageDown));
    assert!(matches!(Command::from_string("scroll-down"), Command::ScrollPageUp));
    assert!(matches!(Command::from_string("recenter-top-bottom"), Command::Recenter));
    assert!(matches!(Command::from_string("scroll-left"), Command::ScrollLeft));
    assert!(matches!(Command::from_string("scroll-right"), Command::ScrollRight));
    assert!(matches!(Command::from_string("set-mark-command"), Command::SetMark));
    assert!(matches!(Command::from_string("kill-region"), Command::KillRegion));
    assert!(matches!(Command::from_string("copy-region-as-kill"), Command::CopyRegion));
    assert!(matches!(Command::from_string("exchange-point-and-mark"), Command::ExchangePointAndMark));
    assert!(matches!(Command::from_string("mark-whole-buffer"), Command::MarkBuffer));
}

#[test]
fn test_command_result() {
    let success = CommandResult::success();
    assert!(success.success);
    assert!(success.needs_refresh);
    assert!(!success.should_quit);
    let quit = CommandResult::quit();
    assert!(quit.success);
    assert!(quit.should_quit);
}

#[test]
fn test_command_processor() {
    let mut processor = CommandProcessor::new();
    let result = processor.execute(Command::ForwardChar);
    assert!(result.success);
    let result = processor.execute(Command::InsertChar('a'));
    assert!(result.success);
    assert_eq!(processor.editor().to_string(), "a");
    assert_eq!(processor.editor().to_string(), "a");
    let result = processor.execute(Command::MoveLineStart);
    assert!(result.success);
    let result = processor.execute(Command::Quit);
    assert!(result.should_quit);
    let result = processor.execute(Command::Unknown("test".to_string()));
    assert!(!result.success);
}

#[test]
fn test_kill_line_and_yank() {
    let mut processor = CommandProcessor::new();
    processor.sync_editor_content("hello\nworld");
    let result = processor.execute(Command::KillLine);
    assert!(result.success);
    assert_eq!(processor.editor().to_string(), "world");
    let result = processor.execute(Command::Yank);
    assert!(result.success);
    assert_eq!(processor.editor().to_string(), "hello\nworld");
}

#[test]
fn test_yank_pop_rotates_entries() {
    let mut processor = CommandProcessor::new();
    processor.sync_editor_content("alpha beta gamma");
    processor.execute(Command::KillWordForward);
    processor.execute(Command::KillWordForward);
    processor.execute(Command::MoveLineStart);
    let yank_res = processor.execute(Command::Yank);
    assert!(yank_res.success);
    let pop_res = processor.execute(Command::YankPop);
    assert!(pop_res.success);
    assert!(processor.editor().to_string().contains("beta"));
}

#[test]
fn test_command_messages_and_requests() {
    let mut processor = CommandProcessor::new();
    let r = processor.execute(Command::Yank);
    assert_eq!(r.message.as_deref(), Some("キルリングが空です"));
    let r = processor.execute(Command::YankPop);
    assert_eq!(r.message.as_deref(), Some("直前のコマンドがヤンクではありません"));
    let r = processor.execute(Command::SetMark);
    assert_eq!(r.message.as_deref(), Some("このコマンドはアプリ側で処理します"));
    let r = processor.execute(Command::Unknown("zz".to_string()));
    assert_eq!(r.message.as_deref(), Some("不明なコマンド: zz"));
    let r = processor.execute(Command::SaveBuffer);
    assert_eq!(r.message.as_deref(), Some("保存するバッファがありません"));
    let r = processor.execute(Command::FindFile);
    assert_eq!(r.file_request, Some(FileRequest::Open { path: "README.md".to_string() }));
    processor.sync_editor_content("x");
    let r = processor.execute(Command::SaveAllBuffers);
    assert_eq!(r.message.as_deref(), Some("保存すべき変更がありません"));
    assert_eq!(Command::KillLine.description(), "行末まで削除");
    let ctx = CommandContext::with_args(vec!["a".to_string()]);
    assert_eq!(ctx.args.len(), 1);
}
