use std::cell::RefCell;

use fv::cmd::input::{input_select_left, input_select_right, input_backspace, input_cancel, input_char, input_delete, input_mkdir, input_ok, input_rename, input_search, input_sort, FileOp};
use fv::fs::file::VFile;
use fv::state::app_state::{AppState, InputMode};
use fv::state::{FileAction, SelectAction, SortKey, TextAction};

fn state_with(names: &[&str]) -> AppState {
    let mut state = AppState::new();
    state.filer.change_to("/d");
    let files = names.iter().map(|n| VFile::new(format!("/d/{n}"), None)).collect();
    state.filer.apply_listing(files);
    state
}

fn value(state: &AppState) -> String {
    match &state.input {
        InputMode::Text { value, .. } | InputMode::File { value, .. } | InputMode::Search { value, .. } => value.clone(),
        _ => panic!("no typed value"),
    }
}

#[test]
fn typing_and_backspace_edit_the_value() {
    let mut state = state_with(&["a"]);
    input_mkdir(&mut state).unwrap();
    input_char(&mut state, 'x').unwrap();
    input_char(&mut state, 'y').unwrap();
    assert_eq!(value(&state), "xy");
    input_backspace(&mut state).unwrap();
    assert_eq!(value(&state), "x");
    input_backspace(&mut state).unwrap();
    input_backspace(&mut state).unwrap();
    assert_eq!(value(&state), "");
}

#[test]
fn searching_moves_to_the_first_match() {
    let mut state = state_with(&["apple", "banana", "cherry"]);
    input_search(&mut state).unwrap();
    input_char(&mut state, 'c').unwrap();
    assert_eq!(state.filer.selected, Some(2));
}

#[test]
fn rename_starts_from_the_file_name_and_selects_the_new_one() {
    let mut state = state_with(&["old.txt"]);
    input_rename(&mut state).unwrap();
    assert_eq!(value(&state), "old.txt");
    for _ in 0..7 {
        input_backspace(&mut state).unwrap();
    }
    for c in "new.txt".chars() {
        input_char(&mut state, c).unwrap();
    }
    let ran = RefCell::new(Vec::new());
    let run = |op: &FileOp| {
        ran.borrow_mut().push(format!("{op:?}"));
        Ok(())
    };
    input_ok(&mut state, &run).unwrap();
    assert_eq!(ran.borrow().len(), 1);
    assert!(matches!(state.input, InputMode::Closed));
    assert_eq!(state.filer.pending_select_name.as_deref(), Some("new.txt"));
}

#[test]
fn a_confirmed_deletion_runs_on_each_file_until_one_fails() {
    let mut state = state_with(&["a", "b", "c"]);
    for _ in 0..3 {
        state.filer.toggle_checked_file();
        state.filer.next();
    }
    input_delete(&mut state).unwrap();
    let seen = RefCell::new(Vec::new());
    let run = |op: &FileOp| match op {
        FileOp::Delete { file } => {
            seen.borrow_mut().push(file.path.clone());
            if file.path == "/d/b" {
                Err("busy".to_string())
            } else {
                Ok(())
            }
        }
        _ => Ok(()),
    };
    assert_eq!(input_ok(&mut state, &run), Err("busy".to_string()));
    assert_eq!(*seen.borrow(), vec!["/d/a", "/d/b"]);
    assert_eq!(state.filer.checked_paths.len(), 3);
}

#[test]
fn sorting_by_the_chosen_key_keeps_the_checks() {
    let mut state = state_with(&["a"]);
    state.filer.toggle_checked_file();
    input_sort(&mut state).unwrap();
    if let InputMode::Select { selected_index, .. } = &mut state.input {
        *selected_index = 1;
    }
    input_ok(&mut state, &|_: &FileOp| Ok(())).unwrap();
    assert_eq!(state.filer.sort_key, SortKey::Size);
    assert_eq!(state.filer.checked_paths.len(), 1);
}

#[test]
fn cancel_closes_the_input() {
    let mut state = state_with(&["a"]);
    input_search(&mut state).unwrap();
    input_cancel(&mut state).unwrap();
    assert!(matches!(state.input, InputMode::Closed));
}

#[test]
fn choice_moves_right_then_left_come_back() {
    let mut state = AppState::new();
    state.input = InputMode::Select {
        title: "Sort by".to_string(),
        options: vec!["a".to_string(), "b".to_string(), "c".to_string()],
        selected_index: 2,
        action: SelectAction::Sort,
    };
    input_select_right(&mut state).unwrap();
    match &state.input {
        InputMode::Select { selected_index, options, title, .. } => {
            assert_eq!(*selected_index, 0);
            assert_eq!(options.len(), 3);
            assert_eq!(title, "Sort by");
        }
        _ => panic!("still a choice"),
    }
    input_select_left(&mut state).unwrap();
    match &state.input {
        InputMode::Select { selected_index, .. } => assert_eq!(*selected_index, 2),
        _ => panic!("still a choice"),
    }
}

#[test]
fn backspace_after_a_typed_character_restores_the_value() {
    let mut state = AppState::new();
    input_search(&mut state).unwrap();
    input_char(&mut state, 'x').unwrap();
    input_char(&mut state, 'y').unwrap();
    input_backspace(&mut state).unwrap();
    match &state.input {
        InputMode::Search { value, title } => {
            assert_eq!(value, "x");
            assert_eq!(title, "Search");
        }
        _ => panic!("still a search"),
    }
}

#[test]
fn a_confirmed_jump_goes_to_the_typed_directory() {
    let mut state = state_with(&["a"]);
    state.input = InputMode::File {
        title: "Jump".to_string(),
        value: "/elsewhere".to_string(),
        candidates: vec![],
        candidate_index: None,
        action: FileAction::Jump,
    };
    let run = |_: &FileOp| -> Result<(), String> { panic!("a jump runs no operation") };
    input_ok(&mut state, &run).unwrap();
    assert_eq!(state.filer.current_dir.path, "/elsewhere");
    assert!(matches!(state.input, InputMode::Closed));
}

#[test]
fn a_confirmed_new_directory_is_handed_to_run() {
    let mut state = state_with(&["a"]);
    state.input = InputMode::Text {
        title: "Create directory in d".to_string(),
        value: "sub".to_string(),
        action: TextAction::Mkdir { dir: VFile::new("/d".to_string(), None) },
    };
    let seen = RefCell::new(Vec::new());
    let run = |op: &FileOp| {
        if let FileOp::CreateDir { dir, name } = op {
            seen.borrow_mut().push(format!("{}|{}", dir.path, name));
        }
        Err("read-only".to_string())
    };
    assert_eq!(input_ok(&mut state, &run), Err("read-only".to_string()));
    assert_eq!(*seen.borrow(), vec!["/d|sub"]);
}
