use codegenrs::CodeGenArgs;
use codegenrs::CodeGenError;
use codegenrs::SyncAction;

fn args(check: bool) -> CodeGenArgs {
    CodeGenArgs { output: String::from("generated.rs"), check }
}

#[test]
fn write_mode_requests_a_write() {
    let action = args(false).write_str("fn main() {}\n", None);
    assert!(matches!(action, SyncAction::Write));
    assert!(action.outcome().is_ok());
}

#[test]
fn write_mode_ignores_on_disk_text() {
    let action = args(false).write_str("short", Some("a much longer previous text"));
    assert!(matches!(action, SyncAction::Write));
    assert!(action.outcome().is_ok());
}

#[test]
fn check_of_identical_text_succeeds() {
    let content = "pub const X: u32 = 7;\n";
    let action = args(true).write_str(content, Some(content));
    assert!(matches!(action, SyncAction::ReportMatch));
    assert!(action.outcome().is_ok());
}

#[test]
fn check_of_differing_text_fails_with_mismatch() {
    let action = args(true).write_str("left\n", Some("right\n"));
    match &action {
        SyncAction::ReportMismatch(diff) => {
            assert!(diff.contains("left"));
            assert!(diff.contains("right"));
        }
        other => panic!("expected a mismatch, got {:?}", other),
    }
    assert_eq!(action.outcome(), Err(CodeGenError::Mismatch));
}

#[test]
fn check_without_a_readable_file_is_an_io_error() {
    let action = args(true).write_str("anything", None);
    assert!(matches!(action, SyncAction::FailRead));
    let outcome = action.outcome();
    assert_eq!(outcome, Err(CodeGenError::Io));
    assert_ne!(outcome, Err(CodeGenError::Mismatch));
}

#[test]
fn check_is_insensitive_to_crlf_line_endings() {
    let action = args(true).write_str("a\nb", Some("a\r\nb"));
    assert!(matches!(action, SyncAction::ReportMatch));
    assert!(action.outcome().is_ok());
}

#[test]
fn check_is_insensitive_to_lone_carriage_returns() {
    let action = args(true).write_str("a\nb", Some("a\rb"));
    assert!(matches!(action, SyncAction::ReportMatch));
}

#[test]
fn check_normalizes_both_sides() {
    let messy = "This is a string \n with \r some \n\r\n random newlines\r\r\n\n";
    let clean = "This is a string \n with \n some \n\n random newlines\n\n\n";
    let action = args(true).write_str(messy, Some(clean));
    assert!(matches!(action, SyncAction::ReportMatch));
    let action = args(true).write_str(clean, Some(messy));
    assert!(matches!(action, SyncAction::ReportMatch));
}

#[test]
fn check_does_not_normalize_other_whitespace() {
    let action = args(true).write_str("a \n", Some("a\n"));
    assert!(matches!(action, SyncAction::ReportMismatch(_)));
    assert_eq!(action.outcome(), Err(CodeGenError::Mismatch));
}

#[test]
fn check_of_empty_text_against_empty_file_succeeds() {
    let action = args(true).write_str("", Some(""));
    assert!(matches!(action, SyncAction::ReportMatch));
    assert!(action.outcome().is_ok());
}

#[test]
fn check_of_empty_text_against_nonempty_file_fails() {
    let action = args(true).write_str("", Some("stale\n"));
    assert!(matches!(action, SyncAction::ReportMismatch(_)));
}

#[test]
fn check_detects_a_shortened_text() {
    let action = args(true).write_str("a\n", Some("a\nb\nc\n"));
    assert!(matches!(action, SyncAction::ReportMismatch(_)));
}

#[test]
fn check_detects_a_purely_trailing_difference() {
    let action = args(true).write_str("abc", Some("abcdef"));
    assert!(matches!(action, SyncAction::ReportMismatch(_)));
}
