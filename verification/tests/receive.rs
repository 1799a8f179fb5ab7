use std::sync::mpsc;

use fv::component::file_info::FileInfoComponent;
use fv::fs::file::VFile;
use fv::fs::file_info::FileInfo;
use fv::fs::file_info_task::FileInfoHandle;
use fv::jobs::Received;
use fv::state::filer::FilerState;
use fv::state::path_list::PathListState;

#[test]
fn a_listing_that_arrives_is_shown_and_a_failure_is_kept() {
    let mut state = FilerState::new();
    state.change_to("/d");
    state.take_listing(Received::Message(Ok(vec![VFile::new("/d/b".to_string(), None), VFile::new("/d/a".to_string(), None)])));
    let names: Vec<&str> = state.current_dir_files.iter().map(|f| f.path.as_str()).collect();
    assert_eq!(names, vec!["/d/a", "/d/b"]);
    state.take_listing(Received::Message(Err("denied".to_string())));
    assert_eq!(state.take_error().as_deref(), Some("denied"));
    state.take_listing(Received::Disconnected);
    assert_eq!(state.take_error().as_deref(), Some("Directory listing stopped unexpectedly"));
    assert_eq!(state.current_dir_files.len(), 2);
}

#[test]
fn file_info_shows_the_result_or_the_error() {
    let (_tx, rx) = mpsc::channel();
    let mut c = FileInfoComponent::new(FileInfoHandle { rx });
    c.take_result(Received::Empty);
    assert!(c.handle.is_some());
    let info = FileInfo { entries: vec![("Path".to_string(), "/x".to_string())] };
    c.take_result(Received::Message(Ok(info)));
    assert!(c.handle.is_none());
    assert_eq!(c.title, "File Info (1)");
    assert_eq!(c.text_output.lines, vec!["Path  /x"]);

    let (_tx, rx) = mpsc::channel();
    let mut c = FileInfoComponent::new(FileInfoHandle { rx });
    c.take_result(Received::Message(Err("gone".to_string())));
    assert_eq!(c.title, "File Info (error)");
    assert_eq!(c.text_output.lines, vec!["Error: gone"]);
}

#[test]
fn results_are_appended_and_the_first_is_selected() {
    let (_tx, rx) = mpsc::channel();
    let mut list = PathListState::new(Vec::new(), Some(rx));
    assert!(list.take_received(Received::Message("/a".to_string())));
    assert!(list.take_received(Received::Message("/b".to_string())));
    assert_eq!(list.paths, vec!["/a", "/b"]);
    assert_eq!(list.selected, Some(0));
    assert!(!list.take_received(Received::Empty));
    assert!(list.rx.is_some());
    assert!(!list.take_received(Received::Disconnected));
    assert!(list.rx.is_none());
}
