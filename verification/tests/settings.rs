use fv::component::settings::{SettingsComponent, SettingsView};
use fv::component::Action;
use fv::key::Key;
use fv::state::StartupDirectory;

fn component() -> SettingsComponent {
    SettingsComponent::new(&StartupDirectory::CurrentDirectory, "/home/user")
}

#[test]
fn enter_in_menu_switches_to_editor() {
    let mut c = component();
    assert!(matches!(c.view, SettingsView::Menu));
    let action = c.handle_event(Key::Enter);
    assert!(matches!(action, Action::Nothing));
    assert!(matches!(c.view, SettingsView::StartupDirectory(_)));
}

#[test]
fn commit_after_change_saves_and_returns_to_menu() {
    let mut c = component();
    c.handle_event(Key::Enter);
    c.handle_event(Key::Down);
    let action = c.handle_event(Key::Enter);
    match action {
        Action::SaveSettings(dir) => {
            assert_eq!(*dir, StartupDirectory::HomeDirectory);
        }
        _ => panic!("expected SaveSettings"),
    }
    assert!(matches!(c.view, SettingsView::Menu));
    assert_eq!(c.startup_dir, StartupDirectory::HomeDirectory);
}

#[test]
fn commit_without_change_returns_to_menu_without_saving() {
    let mut c = component();
    c.handle_event(Key::Enter);
    let action = c.handle_event(Key::Enter);
    assert!(matches!(action, Action::Nothing));
    assert!(matches!(c.view, SettingsView::Menu));
}

#[test]
fn esc_in_editor_discards_and_returns_to_menu() {
    let mut c = component();
    c.handle_event(Key::Enter);
    c.handle_event(Key::Down);
    let action = c.handle_event(Key::Esc);
    assert!(matches!(action, Action::Nothing));
    assert!(matches!(c.view, SettingsView::Menu));
    assert_eq!(c.startup_dir, StartupDirectory::CurrentDirectory);
}

#[test]
fn esc_in_menu_closes_panel() {
    let mut c = component();
    let action = c.handle_event(Key::Esc);
    assert!(matches!(action, Action::CloseSidePanel));
}

#[test]
fn o_in_menu_closes_panel() {
    let mut c = component();
    let action = c.handle_event(Key::Char('o'));
    assert!(matches!(action, Action::CloseSidePanel));
}

#[test]
fn o_while_editing_specific_path_is_typed_not_close() {
    let mut c = component();
    c.handle_event(Key::Enter);
    for _ in 0..StartupDirectory::SPECIFIC_INDEX {
        c.handle_event(Key::Down);
    }
    let action = c.handle_event(Key::Char('o'));
    assert!(matches!(action, Action::Nothing));
    assert!(matches!(c.view, SettingsView::StartupDirectory(_)));
    if let SettingsView::StartupDirectory(editor) = &c.view {
        assert!(editor.path.ends_with('o'));
    }
}

#[test]
fn reentering_editor_shows_saved_value() {
    let mut c = component();
    c.handle_event(Key::Enter);
    c.handle_event(Key::Down);
    c.handle_event(Key::Enter);
    c.handle_event(Key::Enter);
    if let SettingsView::StartupDirectory(editor) = &c.view {
        assert_eq!(editor.selected_option, StartupDirectory::HomeDirectory.index());
    } else {
        panic!("expected editor view");
    }
}

#[test]
fn specific_directory_is_saved_with_the_typed_path() {
    let mut c = component();
    c.handle_event(Key::Enter);
    for _ in 0..StartupDirectory::SPECIFIC_INDEX {
        c.handle_event(Key::Down);
    }
    c.handle_event(Key::Char('x'));
    let action = c.handle_event(Key::Enter);
    match action {
        Action::SaveSettings(dir) => {
            assert_eq!(*dir, StartupDirectory::SpecificDirectory("/home/userx".to_string()));
        }
        _ => panic!("expected SaveSettings"),
    }
}

#[test]
fn settings_key_help_follows_the_view() {
    let mut s = SettingsComponent::new(&StartupDirectory::CurrentDirectory, "/home/user");
    assert_eq!(s.keymap(), "↑↓: Select  Enter: Edit  o/Esc: Close");
    s.handle_event(Key::Enter);
    assert_eq!(s.keymap(), "↑↓: Select  Enter: Save  Esc: Cancel");
    s.handle_event(Key::Down);
    s.handle_event(Key::Down);
    s.handle_event(Key::Down);
    assert_eq!(s.keymap(), "↑↓: Select  Type: Edit path  Enter: Save  Esc: Cancel");
}
