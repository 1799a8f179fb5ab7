use std::cell::RefCell;
use std::sync::mpsc;

use fv::cmd::command::{AppCommand, Command, FilerCommand};
use fv::cmd::modal::{modal_cancel, modal_confirm, open_delete_modal};
use fv::cmd::prompt::execute_prompt_action;
use fv::component::prompt::PromptEffect;
use fv::fs::file::VFile;
use fv::fs::file_info_task::FileInfoHandle;
use fv::state::app_state::{AppState, ModalState};
use fv::state::{ConfirmAction, Phase, PromptMode};
use fv::store::{BookmarkStore, RootStore};
use fv::component::grep::GrepComponent;
use fv::state::path_list::PathListState;
use fv::state::SidePanel;

fn state_with(names: &[&str]) -> AppState {
    let mut state = AppState::new();
    state.filer.change_to("/d");
    let files = names.iter().map(|n| VFile::new(format!("/d/{n}"), None)).collect();
    state.filer.apply_listing(files);
    state
}

fn modal_paths(state: &AppState) -> Vec<String> {
    match &state.modal {
        ModalState::DeleteConfirm { files } => files.iter().map(|f| f.path.clone()).collect(),
        ModalState::Closed => panic!("expected the dialog"),
    }
}

#[test]
fn delete_dialog_asks_about_the_selected_file_when_none_is_checked() {
    let mut state = state_with(&["a", "b"]);
    open_delete_modal(&mut state).unwrap();
    assert_eq!(modal_paths(&state), vec!["/d/a"]);
}

#[test]
fn delete_dialog_asks_about_the_checked_files() {
    let mut state = state_with(&["a", "b", "c"]);
    state.filer.toggle_checked_file();
    state.filer.next();
    state.filer.next();
    state.filer.toggle_checked_file();
    open_delete_modal(&mut state).unwrap();
    assert_eq!(modal_paths(&state), vec!["/d/a", "/d/c"]);
}

#[test]
fn confirming_deletes_every_file_and_keeps_the_first_error() {
    let mut state = state_with(&["a", "b", "c"]);
    for _ in 0..3 {
        state.filer.toggle_checked_file();
        state.filer.next();
    }
    open_delete_modal(&mut state).unwrap();
    let deleted = RefCell::new(Vec::new());
    let delete = |f: &VFile| {
        deleted.borrow_mut().push(f.path.clone());
        if f.path == "/d/a" {
            Ok(())
        } else {
            Err(format!("{}: busy", f.path))
        }
    };
    assert_eq!(modal_confirm(&mut state, &delete), Err("/d/b: busy".to_string()));
    assert_eq!(*deleted.borrow(), vec!["/d/a", "/d/b", "/d/c"]);
    assert!(matches!(state.modal, ModalState::Closed));
    assert_eq!(state.filer.take_load_request().as_deref(), Some("/d"));
}

#[test]
fn cancelling_closes_the_dialog() {
    let mut state = state_with(&["a"]);
    open_delete_modal(&mut state).unwrap();
    modal_cancel(&mut state).unwrap();
    assert!(matches!(state.modal, ModalState::Closed));
}

#[test]
fn a_confirmed_deletion_becomes_a_job_and_clears_the_checks() {
    let mut state = state_with(&["a"]);
    state.filer.toggle_checked_file();
    let input = PromptMode::Confirm {
        title: "Delete".to_string(),
        action: ConfirmAction::Delete { files: vec![VFile::new("/d/a".to_string(), None)] },
    };
    match execute_prompt_action(&mut state, input, &|_: &str| true) {
        Ok(PromptEffect::StartJob { prepare_dir: None, phase: Phase::Scanning, .. }) => {}
        _ => panic!("expected a job"),
    }
    assert!(state.filer.checked_paths.is_empty());
}

fn no_open(_: &str) -> Result<(), String> {
    Ok(())
}

fn no_save(_: &BookmarkStore) -> Result<(), String> {
    Ok(())
}

fn no_spawn(_: &VFile) -> FileInfoHandle {
    let (_tx, rx) = mpsc::channel();
    FileInfoHandle { rx }
}

#[test]
fn commands_dispatch_to_their_functions() {
    let mut state = state_with(&["a", "b"]);
    let mut store = RootStore::new();
    Command::Filer(FilerCommand::MoveCursorDown).exec(&mut state, &mut store, &no_open, &no_open, &no_spawn, &no_save).unwrap();
    assert_eq!(state.filer.selected, Some(1));
    Command::Filer(FilerCommand::AddBookmark).exec(&mut state, &mut store, &no_open, &no_open, &no_spawn, &no_save).unwrap();
    assert_eq!(store.bookmark.get_paths(), vec!["/d/b"]);
    Command::Filer(FilerCommand::ToggleDotFiles).exec(&mut state, &mut store, &no_open, &no_open, &no_spawn, &no_save).unwrap();
    assert!(state.filer.show_dot_file);
    Command::App(AppCommand::Quit).exec(&mut state, &mut store, &no_open, &no_open, &no_spawn, &no_save).unwrap();
    assert!(!state.running);
}

#[test]
fn enter_on_a_file_hands_it_to_open() {
    let mut state = state_with(&["a.txt"]);
    let mut store = RootStore::new();
    let opened = RefCell::new(Vec::new());
    let open = |p: &str| {
        opened.borrow_mut().push(p.to_string());
        Ok(())
    };
    Command::Filer(FilerCommand::EnterFile).exec(&mut state, &mut store, &open, &no_open, &no_spawn, &no_save).unwrap();
    assert_eq!(*opened.borrow(), vec!["/d/a.txt"]);
}

#[test]
fn grep_select_goes_to_the_selected_result() {
    let mut state = AppState::new();
    let panel = GrepComponent { state: PathListState::new(vec!["/w/src/lib.rs".to_string()], None) };
    state.side_panel = Some(SidePanel::Grep(panel));
    fv::cmd::grep::select(&mut state, &|_: &str| false).unwrap();
    assert!(state.side_panel.is_none());
    assert_eq!(state.filer.current_dir.path, "/w/src");
    assert_eq!(state.filer.pending_select_name.as_deref(), Some("lib.rs"));
}

#[test]
fn grep_select_into_a_directory_result() {
    let mut state = AppState::new();
    let panel = GrepComponent { state: PathListState::new(vec!["/w/src".to_string()], None) };
    state.side_panel = Some(SidePanel::Grep(panel));
    fv::cmd::grep::select(&mut state, &|_: &str| true).unwrap();
    assert_eq!(state.filer.current_dir.path, "/w/src");
}

#[test]
fn an_invalid_zip_name_is_refused_and_keeps_the_checks() {
    let mut state = AppState::new();
    state.filer.checked_paths = vec!["/w/a".to_string()];
    let dir = VFile::new("/w".to_string(), None);
    let input = PromptMode::Text {
        title: "Zip".to_string(),
        value: "../e.zip".to_string(),
        cursor: 0,
        action: Box::new(fv::state::TextAction::Zip { dir, files: vec![] }),
    };
    let err = execute_prompt_action(&mut state, input, &|_: &str| true).err();
    assert_eq!(err.as_deref(), Some("../e.zip: Invalid zip name"));
    assert_eq!(state.filer.checked_paths, vec!["/w/a".to_string()]);
}

#[test]
fn a_failed_bookmark_save_is_returned() {
    let mut state = state_with(&["a", "b"]);
    let mut store = RootStore::new();
    let failing = |_: &BookmarkStore| -> Result<(), String> { Err("disk full".to_string()) };
    let r = Command::Filer(FilerCommand::AddBookmark).exec(&mut state, &mut store, &no_open, &no_open, &no_spawn, &failing);
    assert_eq!(r, Err("disk full".to_string()));
}

#[test]
fn removing_a_bookmark_keeps_the_panel_when_saving_fails() {
    use_bookmark_panel(false);
    use_bookmark_panel(true);
}

fn use_bookmark_panel(save_ok: bool) {
    let mut state = AppState::new();
    let mut store = RootStore::new();
    store.bookmark.add("/w/a");
    let panel = fv::component::bookmark::BookmarkComponent { state: PathListState::new(vec!["/w/a".to_string()], None) };
    state.side_panel = Some(SidePanel::Bookmark(panel));
    let save = |_: &BookmarkStore| -> Result<(), String> { if save_ok { Ok(()) } else { Err("no".to_string()) } };
    let r = fv::cmd::bookmark::remove_bookmark(&mut state, &mut store, &save);
    let listed = match &state.side_panel {
        Some(SidePanel::Bookmark(b)) => b.state.paths.clone(),
        _ => panic!("the panel stays open"),
    };
    if save_ok {
        assert!(r.is_ok());
        assert!(listed.is_empty());
    } else {
        assert_eq!(r, Err("no".to_string()));
        assert_eq!(listed, vec!["/w/a".to_string()]);
    }
}

fn prompt_title(state: &AppState) -> String {
    match &state.prompt {
        PromptMode::File { title, .. } => title.clone(),
        _ => panic!("expected a file prompt"),
    }
}

#[test]
fn copy_and_move_open_their_own_prompts() {
    let mut state = state_with(&["a"]);
    let mut store = RootStore::new();
    Command::Filer(FilerCommand::PromptCopy).exec(&mut state, &mut store, &no_open, &no_open, &no_spawn, &no_save).unwrap();
    assert_eq!(prompt_title(&state), "Copy to a?");
    let mut state = state_with(&["a"]);
    Command::Filer(FilerCommand::PromptMove).exec(&mut state, &mut store, &no_open, &no_open, &no_spawn, &no_save).unwrap();
    assert_eq!(prompt_title(&state), "Move to a?");
}

#[test]
fn toggle_checked_file_marks_the_cursor_file() {
    let mut state = state_with(&["a", "b"]);
    let mut store = RootStore::new();
    Command::Filer(FilerCommand::ToggleCheckedFile).exec(&mut state, &mut store, &no_open, &no_open, &no_spawn, &no_save).unwrap();
    assert_eq!(state.filer.checked_paths, vec!["/d/a"]);
}
