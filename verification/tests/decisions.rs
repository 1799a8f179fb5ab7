use fv::component::prompt::cursor_column;
use fv::fs::async_job::checkpoint::CollectStatus;
use fv::fs::async_job::plan::{move_step, remove_sources_after, MovePass, MoveStep, RenameOutcome};
use fv::fs::file_info::{content_kind_of, detect_content_kind, format_name, format_name_of, ContentKind};
use fv::fs::file_time::from_epoch_offset;

fn typed(mime: &str, ext: &str) -> Option<(String, String)> {
    Some((mime.to_string(), ext.to_string()))
}

#[test]
fn recognised_types_decide_the_content_kind() {
    assert_eq!(content_kind_of(&typed("image/png", "png"), b"\x89PNG"), ContentKind::Image);
    assert_eq!(content_kind_of(&typed("video/mp4", "mp4"), b""), ContentKind::Video);
    assert_eq!(content_kind_of(&typed("audio/mpeg", "mp3"), b""), ContentKind::Audio);
    assert_eq!(content_kind_of(&typed("application/zip", "zip"), b"PK\x03\x04\x00"), ContentKind::Binary);
    assert_eq!(content_kind_of(&None, b"hello\n"), ContentKind::Text);
    assert_eq!(content_kind_of(&None, b"a\x00b"), ContentKind::Binary);
}

#[test]
fn the_format_name_is_the_recognised_extension_or_the_file_extension() {
    assert_eq!(format_name_of(&typed("image/png", "png"), "/d/pic.dat"), "PNG");
    assert_eq!(format_name_of(&None, "/d/notes.md"), "MD");
    assert_eq!(format_name_of(&None, "/d/README"), "");
}

#[test]
fn png_bytes_are_recognised_by_their_signature() {
    let png = b"\x89PNG\r\n\x1a\n\x00\x00\x00\rIHDR\x00\x00\x00\x01\x00\x00\x00\x01\x08\x06\x00\x00\x00";
    assert_eq!(detect_content_kind(png), ContentKind::Image);
    assert_eq!(format_name(png, "/d/picture.bin"), "PNG");
}

#[test]
fn times_before_the_epoch_round_the_seconds_down() {
    let t = from_epoch_offset(true, 1, 500_000_000).unwrap();
    assert_eq!((t.secs, t.nanos), (-2, 500_000_000));
    let t = from_epoch_offset(true, 3, 0).unwrap();
    assert_eq!((t.secs, t.nanos), (-3, 0));
    let t = from_epoch_offset(false, 5, 7).unwrap();
    assert_eq!((t.secs, t.nanos), (5, 7));
    assert!(from_epoch_offset(false, u64::MAX, 0).is_none());
    assert!(from_epoch_offset(true, i64::MAX as u64, 1).is_none());
}

#[test]
fn a_rename_across_devices_is_left_for_copying() {
    let mut pass = MovePass::new();
    assert!(matches!(move_step(&mut pass, 2, false, None), MoveStep::Rename(0)));
    assert!(matches!(move_step(&mut pass, 2, false, Some(RenameOutcome::Moved)), MoveStep::Rename(1)));
    match move_step(&mut pass, 2, false, Some(RenameOutcome::CrossDevice)) {
        MoveStep::CopyThenRemove(ids) => assert_eq!(ids, vec![1]),
        other => panic!("expected CopyThenRemove, got {other:?}"),
    }
}

#[test]
fn a_move_stops_when_cancelled_and_fails_on_an_error() {
    let mut pass = MovePass::new();
    assert!(matches!(move_step(&mut pass, 2, true, None), MoveStep::Stop));
    let mut pass = MovePass::new();
    assert!(matches!(move_step(&mut pass, 1, false, None), MoveStep::Rename(0)));
    assert!(matches!(move_step(&mut pass, 1, false, Some(RenameOutcome::Moved)), MoveStep::Finished));
    let mut pass = MovePass::new();
    move_step(&mut pass, 3, false, None);
    match move_step(&mut pass, 3, false, Some(RenameOutcome::Failed("denied".to_string()))) {
        MoveStep::Fail(e) => assert_eq!(e, "denied"),
        other => panic!("expected Fail, got {other:?}"),
    }
}

#[test]
fn sources_are_removed_only_after_a_complete_copy() {
    assert!(remove_sources_after(true, CollectStatus::Completed));
    assert!(!remove_sources_after(true, CollectStatus::Cancelled));
    assert!(!remove_sources_after(false, CollectStatus::Completed));
}

#[test]
fn the_cursor_column_counts_wide_characters_twice() {
    assert_eq!(cursor_column("aあb", 2), 3);
    assert_eq!(cursor_column("aあb", 3), 4);
    assert_eq!(cursor_column("abc", 10), 3);
    assert_eq!(cursor_column("abc", 0), 0);
}
