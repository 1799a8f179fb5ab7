use fv::fs::file_info::count_text_stats;
use fv::jobs::{outcome_message, progress_due, PROGRESS_TICK_MS};
use fv::state::ProgressMessage;

#[test]
fn text_stats_count_lines_and_their_bytes() {
    assert_eq!(count_text_stats(""), (0, 0));
    assert_eq!(count_text_stats("abc"), (1, 3));
    assert_eq!(count_text_stats("abc\n"), (1, 3));
    assert_eq!(count_text_stats("a\nbc\n\n"), (3, 3));
    assert_eq!(count_text_stats("a\r\nb\r"), (2, 3));
    assert_eq!(count_text_stats("é\n日本"), (2, 8));
}

#[test]
fn progress_is_sent_first_last_and_after_each_tick() {
    assert!(progress_due(0, None, 0));
    assert!(progress_due(10, Some(10), 0));
    assert!(!progress_due(5, Some(10), PROGRESS_TICK_MS - 1));
    assert!(progress_due(5, Some(10), PROGRESS_TICK_MS));
    assert!(!progress_due(5, None, 1));
}

#[test]
fn a_job_ends_with_complete_or_its_error() {
    assert!(matches!(outcome_message(Ok(())), ProgressMessage::Complete));
    match outcome_message(Err("disk full".to_string())) {
        ProgressMessage::Error(e) => assert_eq!(e, "disk full"),
        _ => panic!("expected Error"),
    }
}
