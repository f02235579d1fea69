use altre::file::metadata::{EncodingProcessor, FileChangeTracker, LineEndingProcessor, LineEndingStyle};
use altre::file::operations::FileBuffer;

#[test]
fn metadata_test_line_ending_normalization() {
    assert_eq!(LineEndingProcessor::normalize_to_lf("hello\r\nworld\r\ntest"), "hello\nworld\ntest");
    assert_eq!(LineEndingProcessor::normalize_to_lf("hello\rworld\rtest"), "hello\nworld\ntest");
    assert_eq!(LineEndingProcessor::normalize_to_lf("hello\nworld\ntest"), "hello\nworld\ntest");
}

#[test]
fn test_line_ending_detection() {
    assert_eq!(LineEndingProcessor::detect_line_endings("hello\r\nworld"), LineEndingStyle::Crlf);
    assert_eq!(LineEndingProcessor::detect_line_endings("hello\nworld"), LineEndingStyle::Lf);
    assert_eq!(LineEndingProcessor::detect_line_endings("hello\rworld"), LineEndingStyle::Cr);
    assert_eq!(LineEndingProcessor::detect_line_endings("hello world"), LineEndingStyle::NoEnding);
}

#[test]
fn test_bom_removal() {
    let content_with_bom = "\u{FEFF}hello world";
    assert_eq!(EncodingProcessor::remove_bom(content_with_bom), "hello world");
    let content_without_bom = "hello world";
    assert_eq!(EncodingProcessor::remove_bom(content_without_bom), "hello world");
}

#[test]
fn test_change_tracker() {
    let mut tracker = FileChangeTracker::new("original content");
    assert!(!tracker.is_modified("original content"));
    assert!(tracker.is_modified("modified content"));
    tracker.mark_saved("modified content");
    assert!(!tracker.is_modified("modified content"));
}

#[test]
fn test_mixed_line_endings_and_decoding() {
    assert_eq!(LineEndingProcessor::detect_line_endings("a\nb\rc"), LineEndingStyle::Mixed);
    assert_eq!(LineEndingProcessor::ensure_lf_endings("a\r\r\nb"), "a\n\nb");
    let bytes: Vec<u8> = vec![0xEF, 0xBB, 0xBF, b'h', b'i'];
    assert_eq!(EncodingProcessor::process_file_content(&bytes).unwrap(), "hi");
    assert!(EncodingProcessor::process_file_content(&[0xff]).is_err());
}

#[test]
fn test_file_buffer_modified_and_path() {
    let mut buffer = FileBuffer::new_empty("scratch".to_string());
    assert!(!buffer.is_modified());
    buffer.content = "x".to_string();
    assert!(buffer.is_modified());
    buffer.mark_saved();
    assert!(!buffer.is_modified());
    buffer.set_path(std::path::PathBuf::from("/tmp/dir/notes.txt"));
    assert_eq!(buffer.name, "notes.txt");
}

#[test]
fn saved_bytes_are_the_utf8_encoding() {
    for text in ["", "abc", "aé€😀\n", "\u{7f}\u{80}\u{7ff}\u{800}\u{ffff}\u{10000}\u{10ffff}"] {
        assert_eq!(EncodingProcessor::prepare_save_content(text), text.as_bytes().to_vec());
    }
}

#[test]
fn saved_text_reads_back() {
    for text in ["", "plain", "日本語\nテキスト", "😀 \u{10ffff}"] {
        let bytes = EncodingProcessor::prepare_save_content(text);
        assert_eq!(EncodingProcessor::process_file_content(&bytes).unwrap(), text);
    }
    assert!(EncodingProcessor::process_file_content(&[0xff, 0xfe]).is_err());
}
