use fv::component::attribute::{AttributeComponent, PERMISSIONS_ROW};
use fv::component::Action;
use fv::fs::file::{FileKind, VFile, VFileMetadata};
use fv::key::Key;

fn metadata_with_mode(mode: u32) -> VFileMetadata {
    VFileMetadata {
        kind: FileKind::File,
        size: 1,
        mode: 0o100000 | mode,
        uid: 1000,
        gid: 100,
        nlink: 1,
        ino: 42,
        dev: 7,
        blksize: 4096,
        blocks: 8,
        modified: None,
        accessed: None,
        created: None,
    }
}

fn component_with_mode(mode: u32) -> AttributeComponent {
    let file = VFile::new("/tmp/dir/f.txt".to_string(), Some(metadata_with_mode(mode)));
    AttributeComponent::new(&file).unwrap()
}

fn select_permissions_row(c: &mut AttributeComponent) {
    let idx = c.entries.iter().position(|(l, _)| *l == "Permissions").unwrap();
    c.selected = Some(idx);
}

fn entry<'a>(c: &'a AttributeComponent, label: &str) -> &'a str {
    c.entries.iter().find(|(l, _)| *l == label).unwrap().1.as_str()
}

#[test]
fn e_on_permissions_row_enters_edit_mode() {
    let mut c = component_with_mode(0o644);
    select_permissions_row(&mut c);
    c.handle_event(Key::Char('e'));
    assert!(c.editor.is_some());
}

#[test]
fn e_on_other_row_does_not_enter_edit_mode() {
    let mut c = component_with_mode(0o644);
    c.selected = Some(0);
    c.handle_event(Key::Char('e'));
    assert!(c.editor.is_none());
}

#[test]
fn toggle_then_apply_returns_set_permissions_and_updates_display() {
    let mut c = component_with_mode(0o644);
    select_permissions_row(&mut c);
    c.handle_event(Key::Char('e'));
    c.handle_event(Key::Right);
    c.handle_event(Key::Right);
    c.handle_event(Key::Char(' '));
    let action = c.handle_event(Key::Enter);
    match action {
        Action::SetPermissions(path, mode) => {
            assert_eq!(mode, 0o744);
            assert_eq!(path, "/tmp/dir/f.txt");
        }
        _ => panic!("expected SetPermissions"),
    }
    assert!(c.editor.is_none());
    assert_eq!(entry(&c, "Mode"), "0744");
    assert_eq!(entry(&c, "Permissions"), "rwxr--r--");
}

#[test]
fn esc_discards_edit() {
    let mut c = component_with_mode(0o644);
    select_permissions_row(&mut c);
    c.handle_event(Key::Char('e'));
    c.handle_event(Key::Char(' '));
    let action = c.handle_event(Key::Esc);
    assert!(matches!(action, Action::Nothing));
    assert!(c.editor.is_none());
    assert_eq!(entry(&c, "Mode"), "0644");
}

#[test]
fn high_bits_setuid_are_preserved_when_toggling_rwx() {
    let mut c = component_with_mode(0o4755);
    select_permissions_row(&mut c);
    c.handle_event(Key::Char('e'));
    c.handle_event(Key::Right);
    c.handle_event(Key::Right);
    c.handle_event(Key::Char(' '));
    match c.handle_event(Key::Enter) {
        Action::SetPermissions(_, mode) => assert_eq!(mode, 0o4655),
        _ => panic!("expected SetPermissions"),
    }
}

#[test]
fn consecutive_edits_start_from_updated_mode() {
    let mut c = component_with_mode(0o644);
    select_permissions_row(&mut c);
    c.handle_event(Key::Char('e'));
    c.handle_event(Key::Right);
    c.handle_event(Key::Right);
    c.handle_event(Key::Char(' '));
    c.handle_event(Key::Enter);
    c.handle_event(Key::Char('e'));
    match c.handle_event(Key::Enter) {
        Action::SetPermissions(_, mode) => assert_eq!(mode, 0o744),
        _ => panic!("expected SetPermissions"),
    }
}

#[test]
fn down_moves_cursor_to_next_group_same_column() {
    let mut c = component_with_mode(0o644);
    select_permissions_row(&mut c);
    c.handle_event(Key::Char('e'));
    c.handle_event(Key::Down);
    c.handle_event(Key::Char(' '));
    match c.handle_event(Key::Enter) {
        Action::SetPermissions(_, mode) => assert_eq!(mode, 0o604),
        _ => panic!("expected SetPermissions"),
    }
}

#[test]
fn up_returns_to_previous_group_same_column() {
    let mut c = component_with_mode(0o644);
    select_permissions_row(&mut c);
    c.handle_event(Key::Char('e'));
    c.handle_event(Key::Down);
    c.handle_event(Key::Up);
    c.handle_event(Key::Char(' '));
    match c.handle_event(Key::Enter) {
        Action::SetPermissions(_, mode) => assert_eq!(mode, 0o244),
        _ => panic!("expected SetPermissions"),
    }
}

#[test]
fn up_at_top_group_is_noop() {
    let mut c = component_with_mode(0o644);
    select_permissions_row(&mut c);
    c.handle_event(Key::Char('e'));
    c.handle_event(Key::Up);
    c.handle_event(Key::Char(' '));
    match c.handle_event(Key::Enter) {
        Action::SetPermissions(_, mode) => assert_eq!(mode, 0o244),
        _ => panic!("expected SetPermissions"),
    }
}

#[test]
fn edit_hint_shown_only_on_permissions_row() {
    let mut c = component_with_mode(0o644);
    c.selected = Some(0);
    assert!(!c.keymap().contains("Edit permissions"));
    select_permissions_row(&mut c);
    assert!(c.keymap().contains("Edit permissions"));
}

#[test]
fn toggling_a_bit_twice_restores_the_draft() {
    let mut c = component_with_mode(0o640);
    c.selected = Some(PERMISSIONS_ROW);
    c.handle_event(Key::Char('e'));
    c.handle_event(Key::Char(' '));
    c.handle_event(Key::Char(' '));
    match c.handle_event(Key::Enter) {
        Action::SetPermissions(_, mode) => assert_eq!(mode, 0o640),
        _ => panic!("expected SetPermissions"),
    }
}

#[test]
fn table_shows_the_metadata() {
    let c = component_with_mode(0o755);
    assert_eq!(c.entries.len(), 14);
    assert_eq!(entry(&c, "File Type"), "File");
    assert_eq!(entry(&c, "Size"), "1 bytes");
    assert_eq!(entry(&c, "Permissions"), "rwxr-xr-x");
    assert_eq!(entry(&c, "Mode"), "0755");
    assert_eq!(entry(&c, "Owner (UID)"), "1000");
    assert_eq!(entry(&c, "Inode"), "42");
    assert_eq!(entry(&c, "Modified"), "-");
    assert_eq!(c.current_mode, 0o755);
}

#[test]
fn a_file_without_metadata_has_no_panel() {
    let file = VFile::new("/tmp/missing".to_string(), None);
    let err = AttributeComponent::new(&file).err().unwrap();
    assert_eq!(err, "/tmp/missing: No metadata");
}

#[test]
fn cursor_stops_at_the_last_row() {
    let mut c = component_with_mode(0o644);
    for _ in 0..20 {
        c.handle_event(Key::Down);
    }
    assert_eq!(c.selected, Some(13));
    assert!(matches!(c.handle_event(Key::Char('a')), Action::CloseSidePanel));
}
