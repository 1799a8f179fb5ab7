use fv::fs::file::{FileKind, VFile, VFileMetadata};
use fv::state::filer::FilerState;
use fv::state::SortKey;

fn meta(kind: FileKind, size: u64) -> VFileMetadata {
    VFileMetadata {
        kind,
        size,
        mode: 0o644,
        uid: 0,
        gid: 0,
        nlink: 1,
        ino: 0,
        dev: 0,
        blksize: 4096,
        blocks: 0,
        modified: None,
        accessed: None,
        created: None,
    }
}

fn file(path: &str, size: u64) -> VFile {
    VFile::new(path.to_string(), Some(meta(FileKind::File, size)))
}

fn names(state: &FilerState) -> Vec<String> {
    state
        .current_dir_files
        .iter()
        .map(|f| f.path.rsplit('/').next().unwrap().to_string())
        .collect()
}

fn listed(files: Vec<VFile>) -> FilerState {
    let mut state = FilerState::new();
    state.change_to("/d");
    state.apply_listing(files);
    state
}

#[test]
fn listing_is_sorted_by_name_and_hides_dot_files() {
    let state = listed(vec![file("/d/b.txt", 1), file("/d/.hidden", 1), file("/d/a.txt", 1)]);
    assert_eq!(names(&state), vec!["a.txt", "b.txt"]);
    assert_eq!(state.selected, Some(0));
}

#[test]
fn dot_files_show_once_toggled() {
    let mut state = FilerState::new();
    state.change_to("/d");
    state.toggle_show_dot_file();
    state.apply_listing(vec![file("/d/b", 1), file("/d/.a", 1)]);
    assert_eq!(names(&state), vec![".a", "b"]);
}

#[test]
fn listing_is_sorted_by_size_when_asked() {
    let mut state = FilerState::new();
    state.change_to("/d");
    state.sort_key = SortKey::Size;
    state.apply_listing(vec![file("/d/big", 300), file("/d/small", 1), file("/d/mid", 20)]);
    assert_eq!(names(&state), vec!["small", "mid", "big"]);
}

#[test]
fn pending_name_is_selected_when_the_listing_arrives() {
    let mut state = FilerState::new();
    state.jump_to("/d/c", false).unwrap();
    assert_eq!(state.current_dir_path(), "/d");
    assert_eq!(state.take_load_request().as_deref(), Some("/d"));
    state.apply_listing(vec![file("/d/a", 1), file("/d/b", 1), file("/d/c", 1)]);
    assert_eq!(state.selected, Some(2));
    assert_eq!(state.pending_select_name, None);
}

#[test]
fn jump_to_a_file_without_parent_is_an_error() {
    let mut state = FilerState::new();
    assert_eq!(state.jump_to("/", false), Err("No parent directory: /".to_string()));
}

#[test]
fn parent_dir_selects_the_directory_left() {
    let mut state = FilerState::new();
    state.change_to("/top/sub");
    state.change_dir_in_parent_dir();
    assert_eq!(state.current_dir_path(), "/top");
    state.apply_listing(vec![file("/top/a", 1), file("/top/sub", 1)]);
    assert_eq!(state.selected, Some(1));
}

#[test]
fn cursor_moves_stop_at_the_ends() {
    let mut state = listed(vec![file("/d/a", 1), file("/d/b", 1), file("/d/c", 1)]);
    state.prev();
    assert_eq!(state.selected, Some(0));
    state.last();
    assert_eq!(state.selected, Some(2));
    state.next();
    assert_eq!(state.selected, Some(2));
    state.first();
    assert_eq!(state.selected, Some(0));
}

#[test]
fn toggling_a_check_twice_unchecks() {
    let mut state = listed(vec![file("/d/a", 1), file("/d/b", 1)]);
    state.toggle_checked_file();
    assert!(state.is_checked_path("/d/a"));
    state.toggle_checked_file();
    assert!(!state.is_checked_path("/d/a"));
    assert!(state.checked_paths.is_empty());
}

#[test]
fn search_goes_round_and_ignores_ascii_case() {
    let mut state = listed(vec![file("/d/alpha", 1), file("/d/Beta", 1), file("/d/gamma", 1)]);
    assert_eq!(names(&state), vec!["Beta", "alpha", "gamma"]);
    state.select(Some(2));
    state.select_matching_file("bet");
    assert_eq!(state.selected, Some(0));
    state.select_next_matching_file("A");
    assert_eq!(state.selected, Some(1));
    state.select_next_matching_file("a");
    assert_eq!(state.selected, Some(2));
    state.select_next_matching_file("a");
    assert_eq!(state.selected, Some(0));
    state.select_prev_matching_file("a");
    assert_eq!(state.selected, Some(2));
    state.select_matching_file("zzz");
    assert_eq!(state.selected, Some(2));
}

#[test]
fn refresh_keeps_the_selected_name() {
    let mut state = listed(vec![file("/d/a", 1), file("/d/b", 1)]);
    state.next();
    state.refresh_files();
    assert_eq!(state.pending_select_name.as_deref(), Some("b"));
    state.apply_listing(vec![file("/d/0", 1), file("/d/a", 1), file("/d/b", 1)]);
    assert_eq!(state.selected, Some(2));
}

#[test]
fn a_smaller_listing_keeps_the_cursor_inside() {
    let mut state = listed(vec![file("/d/a", 1), file("/d/b", 1), file("/d/c", 1)]);
    state.last();
    state.refresh_files();
    state.apply_listing(vec![file("/d/a", 1)]);
    assert_eq!(state.selected, Some(0));
}
