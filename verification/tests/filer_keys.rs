use fv::component::filer::FilerComponent;
use fv::component::Action;
use fv::fs::file::VFile;
use fv::fs::file_info_task::FileInfoHandle;
use fv::key::Key;
use fv::state::{PromptMode, TextAction};

fn no_listing(_: &str) -> Result<Vec<VFile>, String> {
    Ok(Vec::new())
}

fn no_spawn(_: &VFile) -> FileInfoHandle {
    let (_tx, rx) = std::sync::mpsc::channel();
    FileInfoHandle { rx }
}

fn filer_with(names: &[&str]) -> FilerComponent {
    let mut c = FilerComponent::new();
    c.change_to("/d");
    let files = names.iter().map(|n| VFile::new(format!("/d/{n}"), None)).collect();
    c.state.apply_listing(files);
    c
}

fn press(c: &mut FilerComponent, key: Key) -> Action {
    c.handle_event(key, &no_listing, &no_spawn).unwrap()
}

#[test]
fn history_help_and_file_manager_keys() {
    let mut c = filer_with(&["a"]);
    assert!(matches!(press(&mut c, Key::Char('<')), Action::NavigateBack));
    assert!(matches!(press(&mut c, Key::Char('>')), Action::NavigateForward));
    assert!(matches!(press(&mut c, Key::Char('?')), Action::ShowHelp));
    match press(&mut c, Key::Char('e')) {
        Action::OpenFile(p) => assert_eq!(p, "/d"),
        _ => panic!("expected OpenFile"),
    }
}

#[test]
fn yank_takes_the_checked_files_or_the_selected_one() {
    let mut c = filer_with(&["a", "b", "c"]);
    match press(&mut c, Key::Char('y')) {
        Action::Yank(ps) => assert_eq!(ps, vec!["/d/a"]),
        _ => panic!("expected Yank"),
    }
    press(&mut c, Key::Char(' '));
    press(&mut c, Key::Char(' '));
    match press(&mut c, Key::Char('y')) {
        Action::Yank(ps) => assert_eq!(ps, vec!["/d/a", "/d/b"]),
        _ => panic!("expected Yank"),
    }
    let mut empty = filer_with(&[]);
    assert!(matches!(press(&mut empty, Key::Char('y')), Action::Nothing));
}

#[test]
fn execute_and_unzip_open_text_prompts() {
    let mut c = filer_with(&["pack.zip"]);
    match press(&mut c, Key::Char('x')) {
        Action::SetPromptMode(m) => match *m {
            PromptMode::Text { title, value, action, .. } => {
                assert_eq!(title, "Execute");
                assert_eq!(value, "");
                assert!(matches!(*action, TextAction::Execute { .. }));
            }
            _ => panic!("expected a text prompt"),
        },
        _ => panic!("expected a prompt"),
    }
    match press(&mut c, Key::Char('u')) {
        Action::SetPromptMode(m) => match *m {
            PromptMode::Text { title, value, action, .. } => {
                assert_eq!(title, "Unzip to");
                assert_eq!(value, "pack");
                assert!(matches!(*action, TextAction::Unzip { .. }));
            }
            _ => panic!("expected a text prompt"),
        },
        _ => panic!("expected a prompt"),
    }
}

#[test]
fn unbound_keys_do_nothing() {
    let mut c = filer_with(&["a", "b"]);
    let before = c.state.selected;
    assert!(matches!(press(&mut c, Key::Char('z')), Action::Nothing));
    assert!(matches!(press(&mut c, Key::Tab), Action::Nothing));
    assert_eq!(c.state.selected, before);
}

#[test]
fn v_opens_a_preview_to_be_filled() {
    let mut c = filer_with(&["notes.txt"]);
    match press(&mut c, Key::Char('v')) {
        Action::ShowSidePanel(p) => match *p {
            fv::state::SidePanel::Preview(pc) => {
                assert_eq!(pc.title, "Preview - notes.txt");
                assert_eq!(pc.text_output.lines, vec!["Loading..."]);
            }
            _ => panic!("expected a preview"),
        },
        _ => panic!("expected a panel"),
    }
    let mut empty = filer_with(&[]);
    assert!(matches!(press(&mut empty, Key::Char('v')), Action::Nothing));
}

#[test]
fn space_toggles_the_check_mark_and_moves_down() {
    let mut c = filer_with(&["a", "b"]);
    press(&mut c, Key::Char(' '));
    assert_eq!(c.state.checked_paths, vec!["/d/a"]);
    assert_eq!(c.state.selected, Some(1));
    press(&mut c, Key::Up);
    press(&mut c, Key::Char(' '));
    assert!(c.state.checked_paths.is_empty());
}

#[test]
fn tilde_goes_home_and_capital_a_checks_or_clears_all() {
    let mut c = filer_with(&["a", "b"]);
    assert!(matches!(press(&mut c, Key::Char('~')), Action::NavigateHome));
    press(&mut c, Key::Char('A'));
    let mut checked = c.state.checked_paths.clone();
    checked.sort();
    assert_eq!(checked, vec!["/d/a", "/d/b"]);
    press(&mut c, Key::Char('A'));
    assert!(c.state.checked_paths.is_empty());
}

#[test]
fn l_asks_for_the_name_of_a_link_to_the_cursor_file() {
    let mut c = filer_with(&["a", "b"]);
    press(&mut c, Key::Down);
    match press(&mut c, Key::Char('l')) {
        Action::SetPromptMode(m) => match *m {
            PromptMode::Text { title, value, action, .. } => {
                assert_eq!(title, "Create symlink to /d/b");
                assert_eq!(value, "");
                match *action {
                    TextAction::Symlink { dir, target } => {
                        assert_eq!(dir.path, "/d");
                        assert_eq!(target.path, "/d/b");
                    }
                    _ => panic!("expected a link prompt"),
                }
            }
            _ => panic!("expected a text prompt"),
        },
        _ => panic!("expected a prompt"),
    }
}

#[test]
fn slash_opens_the_filter_prompt_and_the_filter_hides_other_files() {
    let mut c = filer_with(&["a.txt", "b.txt", "Abc"]);
    match press(&mut c, Key::Char('/')) {
        Action::SetPromptMode(m) => match *m {
            PromptMode::Text { title, value, cursor, action } => {
                assert_eq!(title, "Filter");
                assert_eq!(value, "");
                assert_eq!(cursor, 0);
                assert!(matches!(*action, TextAction::Filter));
            }
            _ => panic!("expected a text prompt"),
        },
        _ => panic!("expected a prompt"),
    }
    c.set_filter("B".to_string());
    assert!(c.state.load_request.is_some());
    let files = ["a.txt", "b.txt", "Abc"].iter().map(|n| VFile::new(format!("/d/{n}"), None)).collect();
    c.state.apply_listing(files);
    let names: Vec<String> = c.state.current_dir_files.iter().map(|f| f.path.clone()).collect();
    assert_eq!(names, vec!["/d/Abc", "/d/b.txt"]);
}
