//! The attribute panel: a file's metadata as a table, and an editor for its
//! nine rwx permission bits.
use vstd::prelude::*;
use crate::component::Action;
use crate::fs::file::{spec_kind_label, VFile, VFileMetadata};
use crate::fs::permissions::{mode_octal, rwx_bit, rwx_mask, spec_mode_octal, spec_rwx_string, VPermissions, PERM_MODE_MASK};
use crate::fs::size::spec_verbose_size;
use crate::key::Key;
use crate::state::table_cursor::{self, in_range, spec_next, spec_prev};
use crate::text::{decimal, decimal_string, owned};

verus! {

/// The rows of the table.
pub const ENTRY_COUNT: usize = 14;

/// The row of the rwx notation, the one whose bits can be edited.
pub const PERMISSIONS_ROW: usize = 2;

/// The row of the octal mode.
pub const MODE_ROW: usize = 3;

/// The editor's columns: user r, w, x, then group, then other.
pub const RWX_BIT_COUNT: usize = 9;

/// One group of rwx bits: Up and Down move by this much.
pub const RWX_GROUP_WIDTH: usize = 3;

/// The labels of the rows, in order.
pub open spec fn spec_labels() -> Seq<Seq<char>> {
    seq![
        "File Type"@, "Size"@, "Permissions"@, "Mode"@, "Owner (UID)"@, "Group (GID)"@, "Hard Links"@,
        "Inode"@, "Device ID"@, "Block Size"@, "Blocks"@, "Created"@, "Accessed"@, "Modified"@,
    ]
}

/// The values of the rows that do not depend on the time zone; the last
/// three rows are local times.
pub open spec fn spec_fixed_values(m: VFileMetadata) -> Seq<Seq<char>> {
    seq![
        spec_kind_label(m.kind),
        spec_verbose_size(m.size as nat),
        spec_rwx_string(m.mode),
        spec_mode_octal(m.mode),
        decimal(m.uid as nat),
        decimal(m.gid as nat),
        decimal(m.nlink as nat),
        decimal(m.ino as nat),
        decimal(m.dev as nat),
        decimal(m.blksize as nat),
        decimal(m.blocks as nat),
    ]
}

/// The draft of a permission edit and the bit the cursor is on.
#[derive(Debug, Clone, Copy, PartialEq, Eq, Structural)]
pub struct PermissionEditor {
    pub draft: u32,
    pub cursor: usize,
}

pub struct AttributeComponent {
    pub selected: Option<usize>,
    pub file: VFile,
    pub entries: Vec<(&'static str, String)>,
    pub editor: Option<PermissionEditor>,
    /// The mode the panel shows, updated when an edit is applied.
    pub current_mode: u32,
}

/// A time row: the local time, or `-` where the time is unknown.
fn time_text(t: Option<crate::fs::file_time::VFileTime>) -> (r: String)
    ensures
        t is None ==> r@ == "-"@,
{
    match t {
        Some(t) => t.to_local_string(),
        None => owned("-"),
    }
}

/// The rows of the table for `m`.
pub fn build_entries(m: &VFileMetadata) -> (r: Vec<(&'static str, String)>)
    ensures
        r@.len() == ENTRY_COUNT,
        forall|i: int| 0 <= i < ENTRY_COUNT ==> (#[trigger] r@[i]).0@ == spec_labels()[i],
        forall|i: int| 0 <= i < 11 ==> (#[trigger] r@[i]).1@ == spec_fixed_values(*m)[i],
        m.created is None ==> r@[11].1@ == "-"@,
        m.accessed is None ==> r@[12].1@ == "-"@,
        m.modified is None ==> r@[13].1@ == "-"@,
{
    let mut v: Vec<(&'static str, String)> = Vec::new();
    v.push(("File Type", owned(m.file_type())));
    v.push(("Size", m.formatted_size()));
    v.push(("Permissions", m.permissions().to_rwx_string()));
    v.push(("Mode", mode_octal(m.mode)));
    v.push(("Owner (UID)", decimal_string(m.uid as u64)));
    v.push(("Group (GID)", decimal_string(m.gid as u64)));
    v.push(("Hard Links", decimal_string(m.nlink)));
    v.push(("Inode", decimal_string(m.ino)));
    v.push(("Device ID", decimal_string(m.dev)));
    v.push(("Block Size", decimal_string(m.blksize)));
    v.push(("Blocks", decimal_string(m.blocks)));
    v.push(("Created", time_text(m.created)));
    v.push(("Accessed", time_text(m.accessed)));
    v.push(("Modified", time_text(m.modified)));
    v
}

/// Flipping the same bit twice gives back the draft.
pub proof fn lemma_toggle_twice(draft: u32, i: int)
    requires
        0 <= i < 9,
    ensures
        (draft ^ rwx_mask(i)) ^ rwx_mask(i) == draft,
{
    let m = rwx_mask(i);
    assert((draft ^ m) ^ m == draft) by (bit_vector);
}

/// Flipping an rwx bit leaves the setuid, setgid and sticky bits (and every
/// bit above them) as they were.
pub proof fn lemma_toggle_keeps_high_bits(draft: u32, i: int)
    requires
        0 <= i < 9,
    ensures
        (draft ^ rwx_mask(i)) & !0o777u32 == draft & !0o777u32,
{
    let m = rwx_mask(i);
    assert(m & !0o777u32 == 0) by (bit_vector)
        requires m == 0o400u32 || m == 0o200u32 || m == 0o100u32 || m == 0o040u32 || m == 0o020u32
            || m == 0o010u32 || m == 0o004u32 || m == 0o002u32 || m == 0o001u32;
    assert((draft ^ m) & !0o777u32 == draft & !0o777u32) by (bit_vector)
        requires m & !0o777u32 == 0;
}

/// The editor after a key: Left/Right move along the nine bits, Up/Down
/// move a whole group (same column), Space flips the bit under the cursor.
pub open spec fn spec_edit_step(e: PermissionEditor, key: Key) -> PermissionEditor {
    match key {
        Key::Left => PermissionEditor { cursor: if e.cursor > 0 { (e.cursor - 1) as usize } else { 0 }, ..e },
        Key::Right => PermissionEditor { cursor: if e.cursor + 1 < 9 { (e.cursor + 1) as usize } else { e.cursor }, ..e },
        Key::Up => PermissionEditor { cursor: if e.cursor >= 3 { (e.cursor - 3) as usize } else { e.cursor }, ..e },
        Key::Down => PermissionEditor { cursor: if e.cursor + 3 < 9 { (e.cursor + 3) as usize } else { e.cursor }, ..e },
        Key::Char(' ') => PermissionEditor { draft: e.draft ^ rwx_mask(e.cursor as int), ..e },
        _ => e,
    }
}

/// The keys of the permission editor: Left and Right move the cursor one
/// bit (staying on the first and the last), Up and Down one group of three
/// (staying put where that would leave the nine bits), and none of them
/// touches the draft; Space keeps the cursor and flips exactly one bit, the
/// one under the cursor (the user's read bit, 0o400, at the first position,
/// one bit lower at each next position); Right undoes Left away from the
/// first bit, and Space undoes Space.
pub proof fn lemma_edit_keys(e: PermissionEditor)
    requires
        e.cursor < 9,
    ensures
        spec_edit_step(e, Key::Left).draft == e.draft,
        e.cursor > 0 ==> spec_edit_step(e, Key::Left).cursor == e.cursor - 1,
        e.cursor == 0 ==> spec_edit_step(e, Key::Left).cursor == 0,
        spec_edit_step(e, Key::Right).draft == e.draft,
        e.cursor < 8 ==> spec_edit_step(e, Key::Right).cursor == e.cursor + 1,
        e.cursor == 8 ==> spec_edit_step(e, Key::Right).cursor == 8,
        spec_edit_step(e, Key::Up).draft == e.draft,
        spec_edit_step(e, Key::Up).cursor == (if e.cursor >= 3 { e.cursor - 3 } else { e.cursor as int }),
        spec_edit_step(e, Key::Down).draft == e.draft,
        spec_edit_step(e, Key::Down).cursor == (if e.cursor < 6 { e.cursor + 3 } else { e.cursor as int }),
        spec_edit_step(e, Key::Char(' ')).cursor == e.cursor,
        spec_edit_step(e, Key::Char(' ')).draft ^ e.draft == 0o400u32 >> (e.cursor as u32),
        e.cursor > 0 ==> spec_edit_step(spec_edit_step(e, Key::Left), Key::Right) == e,
        spec_edit_step(spec_edit_step(e, Key::Char(' ')), Key::Char(' ')) == e,
{
    let d = e.draft;
    let m = rwx_mask(e.cursor as int);
    assert((d ^ m) ^ d == m) by (bit_vector);
    assert((d ^ m) ^ m == d) by (bit_vector);
    let c: u32 = e.cursor as u32;
    if c == 0 {
        assert(0o400u32 >> 0u32 == 0o400u32) by (bit_vector);
    } else if c == 1 {
        assert(0o400u32 >> 1u32 == 0o200u32) by (bit_vector);
    } else if c == 2 {
        assert(0o400u32 >> 2u32 == 0o100u32) by (bit_vector);
    } else if c == 3 {
        assert(0o400u32 >> 3u32 == 0o040u32) by (bit_vector);
    } else if c == 4 {
        assert(0o400u32 >> 4u32 == 0o020u32) by (bit_vector);
    } else if c == 5 {
        assert(0o400u32 >> 5u32 == 0o010u32) by (bit_vector);
    } else if c == 6 {
        assert(0o400u32 >> 6u32 == 0o004u32) by (bit_vector);
    } else if c == 7 {
        assert(0o400u32 >> 7u32 == 0o002u32) by (bit_vector);
    } else {
        assert(0o400u32 >> 8u32 == 0o001u32) by (bit_vector);
    }
}

/// The label of row `i`.
fn label_at(i: usize) -> (r: &'static str)
    requires
        i < ENTRY_COUNT,
    ensures
        r@ == spec_labels()[i as int],
{
    match i {
        0 => "File Type",
        1 => "Size",
        2 => "Permissions",
        3 => "Mode",
        4 => "Owner (UID)",
        5 => "Group (GID)",
        6 => "Hard Links",
        7 => "Inode",
        8 => "Device ID",
        9 => "Block Size",
        10 => "Blocks",
        11 => "Created",
        12 => "Accessed",
        _ => "Modified",
    }
}

impl AttributeComponent {
    /// Checks the invariant (which every panel built by `new` keeps).
    pub fn is_sound(&self) -> (r: bool)
        ensures
            r == self.wf(),
    {
        if self.entries.len() != ENTRY_COUNT {
            return false;
        }
        let mut i: usize = 0;
        while i < ENTRY_COUNT
            invariant
                self.entries@.len() == ENTRY_COUNT,
                i <= ENTRY_COUNT,
                forall|j: int| 0 <= j < i ==> (#[trigger] self.entries@[j]).0@ == spec_labels()[j],
            decreases ENTRY_COUNT - i,
        {
            if !crate::text::str_eq(self.entries[i].0, label_at(i)) {
                return false;
            }
            i += 1;
        }
        let rwx = VPermissions::from_mode(self.current_mode).to_rwx_string();
        let octal = mode_octal(self.current_mode);
        if !crate::text::str_eq(self.entries[PERMISSIONS_ROW].1.as_str(), rwx.as_str())
            || !crate::text::str_eq(self.entries[MODE_ROW].1.as_str(), octal.as_str()) {
            return false;
        }
        let selected_ok = match self.selected {
            Some(k) => k < ENTRY_COUNT,
            None => true,
        };
        let editor_ok = match self.editor {
            Some(e) => e.cursor < RWX_BIT_COUNT,
            None => true,
        };
        selected_ok && editor_ok
    }

    /// The table has its fixed rows, the permission rows show the current
    /// mode, and the selection and the editor's cursor are in range.
    pub open spec fn wf(&self) -> bool {
        &&& self.entries@.len() == ENTRY_COUNT
        &&& forall|i: int| 0 <= i < ENTRY_COUNT ==> (#[trigger] self.entries@[i]).0@ == spec_labels()[i]
        &&& self.entries@[PERMISSIONS_ROW as int].1@ == spec_rwx_string(self.current_mode)
        &&& self.entries@[MODE_ROW as int].1@ == spec_mode_octal(self.current_mode)
        &&& in_range(self.selected, ENTRY_COUNT as nat)
        &&& (self.editor matches Some(e) ==> e.cursor < RWX_BIT_COUNT)
    }

    /// The panel for `file`, its first row selected; an error when the
    /// file's metadata could not be read.
    pub fn new(file: &VFile) -> (r: Result<AttributeComponent, String>)
        ensures
            file.metadata is None <==> r is Err,
            r matches Ok(c) ==> (c.wf() && c.file == *file && c.selected == Some(0usize) && c.editor is None
                && (file.metadata matches Some(m) && c.current_mode == m.mode & PERM_MODE_MASK
                && (forall|i: int| 0 <= i < 11 ==> (#[trigger] c.entries@[i]).1@ == spec_fixed_values(m)[i]))),
    {
        let m = match file.metadata() {
            Ok(m) => m,
            Err(e) => {
                return Err(e);
            },
        };
        let entries = build_entries(m);
        let mode = m.mode & PERM_MODE_MASK;
        proof {
            let full = m.mode;
            assert forall|i: int| 0 <= i < 9 implies (mode & rwx_mask(i) != 0) == (full & rwx_mask(i) != 0) by {
                let k = rwx_mask(i);
                assert((full & 0o7777u32) & k == full & k) by (bit_vector)
                    requires k == 0o400u32 || k == 0o200u32 || k == 0o100u32 || k == 0o040u32 || k == 0o020u32
                        || k == 0o010u32 || k == 0o004u32 || k == 0o002u32 || k == 0o001u32;
            }
            assert(spec_rwx_string(mode) =~= spec_rwx_string(full));
            assert((mode & 0o7777u32) == (full & 0o7777u32)) by (bit_vector)
                requires mode == full & 0o7777u32;
            assert(spec_mode_octal(mode) =~= spec_mode_octal(full));
        }
        Ok(AttributeComponent { selected: Some(0), file: file.duplicate(), entries, editor: None, current_mode: mode })
    }

    /// The selected row is the one whose bits can be edited.
    pub fn is_permissions_row_selected(&self) -> (r: bool)
        ensures
            r == (self.selected == Some(PERMISSIONS_ROW)),
    {
        match self.selected {
            Some(i) => i == PERMISSIONS_ROW,
            None => false,
        }
    }

    /// `e` on the permissions row opens the editor on the current mode,
    /// the cursor on user-read.
    pub fn try_start_permission_edit(&mut self)
        requires
            old(self).wf(),
        ensures
            final(self).wf(),
            final(self).selected == old(self).selected,
            final(self).entries == old(self).entries,
            final(self).current_mode == old(self).current_mode,
            final(self).file == old(self).file,
            old(self).selected == Some(PERMISSIONS_ROW) ==> final(self).editor == Some(
                PermissionEditor { draft: old(self).current_mode, cursor: 0 }),
            old(self).selected != Some(PERMISSIONS_ROW) ==> final(self).editor == old(self).editor,
    {
        if self.is_permissions_row_selected() {
            self.editor = Some(PermissionEditor { draft: self.current_mode, cursor: 0 });
        }
    }

    /// Shows `mode` on the permission rows.
    fn refresh_permission_entries(&mut self, mode: u32)
        requires
            old(self).wf(),
        ensures
            final(self).current_mode == mode,
            final(self).wf(),
            final(self).selected == old(self).selected,
            final(self).editor == old(self).editor,
            final(self).file == old(self).file,
            forall|i: int| 0 <= i < ENTRY_COUNT && i != PERMISSIONS_ROW && i != MODE_ROW
                ==> (#[trigger] final(self).entries@[i]) == old(self).entries@[i],
    {
        let rwx = VPermissions::from_mode(mode).to_rwx_string();
        let octal = mode_octal(mode);
        self.entries.set(PERMISSIONS_ROW, ("Permissions", rwx));
        self.entries.set(MODE_ROW, ("Mode", octal));
        self.current_mode = mode;
    }

    /// The keys of the permission editor (see `spec_edit_step`); Enter
    /// applies the draft, shows it and asks for it to be written to the
    /// file; Esc drops it.
    pub fn handle_edit_event(&mut self, key: Key) -> (a: Action)
        requires
            old(self).wf(),
            old(self).editor is Some,
        ensures
            final(self).wf(),
            final(self).selected == old(self).selected,
            final(self).file == old(self).file,
            key == Key::Enter ==> final(self).editor is None
                && final(self).current_mode == old(self).editor->0.draft
                && (a matches Action::SetPermissions(p, m) && p@ == old(self).file.path@ && m == old(self).editor->0.draft),
            key == Key::Esc ==> final(self).editor is None && a is Nothing
                && final(self).current_mode == old(self).current_mode && final(self).entries == old(self).entries,
            key != Key::Enter && key != Key::Esc ==> a is Nothing
                && final(self).editor == Some(spec_edit_step(old(self).editor->0, key))
                && final(self).current_mode == old(self).current_mode && final(self).entries == old(self).entries,
    {
        let e = match self.editor {
            Some(e) => e,
            None => {
                return Action::Nothing;
            },
        };
        match key {
            Key::Left => {
                self.editor = Some(PermissionEditor { cursor: if e.cursor > 0 { e.cursor - 1 } else { 0 }, ..e });
                Action::Nothing
            },
            Key::Right => {
                let cursor = if e.cursor + 1 < VPermissions::rwx_bit_count() { e.cursor + 1 } else { e.cursor };
                self.editor = Some(PermissionEditor { cursor, ..e });
                Action::Nothing
            },
            Key::Up => {
                let cursor = if e.cursor >= RWX_GROUP_WIDTH { e.cursor - RWX_GROUP_WIDTH } else { e.cursor };
                self.editor = Some(PermissionEditor { cursor, ..e });
                Action::Nothing
            },
            Key::Down => {
                let cursor = if e.cursor + RWX_GROUP_WIDTH < VPermissions::rwx_bit_count() {
                    e.cursor + RWX_GROUP_WIDTH
                } else {
                    e.cursor
                };
                self.editor = Some(PermissionEditor { cursor, ..e });
                Action::Nothing
            },
            Key::Char(' ') => {
                self.editor = Some(PermissionEditor { draft: e.draft ^ rwx_bit(e.cursor), ..e });
                Action::Nothing
            },
            Key::Enter => {
                self.editor = None;
                self.refresh_permission_entries(e.draft);
                Action::SetPermissions(owned(self.file.absolute_path()), e.draft)
            },
            Key::Esc => {
                self.editor = None;
                Action::Nothing
            },
            _ => Action::Nothing,
        }
    }

    /// What a key does to the panel and what it answers (see `handle_event`).
    pub open spec fn key_result(before: Self, key: Key, after: Self, a: Action) -> bool {
        &&& after.wf()
        &&& after.file == before.file
        &&& before.editor is None ==> after.current_mode == before.current_mode && after.entries == before.entries
        &&& before.editor is None && !(key == Key::Char('a') || key == Key::Esc || key == Key::Up || key == Key::Down
            || key == Key::Char('e')) ==> a is Nothing && after == before
        &&& before.editor is None && (key == Key::Char('a') || key == Key::Esc) ==> a is CloseSidePanel
            && after.selected == before.selected && after.editor is None
        &&& before.editor is None && key == Key::Up ==> a is Nothing
            && after.selected == spec_prev(before.selected, ENTRY_COUNT as nat) && after.editor is None
        &&& before.editor is None && key == Key::Down ==> a is Nothing
            && after.selected == spec_next(before.selected, ENTRY_COUNT as nat) && after.editor is None
        &&& before.editor is None && key == Key::Char('e') ==> a is Nothing && after.selected == before.selected
            && (before.selected == Some(PERMISSIONS_ROW) ==> after.editor == Some(
                PermissionEditor { draft: before.current_mode, cursor: 0 }))
            && (before.selected != Some(PERMISSIONS_ROW) ==> after.editor is None)
        &&& before.editor is Some && key == Key::Enter ==> after.editor is None
            && after.current_mode == before.editor->0.draft
            && (a matches Action::SetPermissions(p, m) && p@ == before.file.path@ && m == before.editor->0.draft)
        &&& before.editor is Some && key == Key::Esc ==> after.editor is None && a is Nothing
            && after.current_mode == before.current_mode
        &&& before.editor is Some && key != Key::Enter && key != Key::Esc ==> a is Nothing
            && after.editor == Some(spec_edit_step(before.editor->0, key))
            && after.current_mode == before.current_mode
    }

    /// The keys of the panel: the editor's while it is open; otherwise
    /// `a`/Esc closes, Up/Down move, `e` opens the editor on the permissions
    /// row.
    pub fn handle_event(&mut self, key: Key) -> (a: Action)
        requires
            old(self).wf(),
        ensures
            Self::key_result(*old(self), key, *final(self), a),
    {
        if self.editor.is_some() {
            return self.handle_edit_event(key);
        }
        match key {
            Key::Char('a') | Key::Esc => Action::CloseSidePanel,
            Key::Up => {
                self.selected = table_cursor::prev(self.selected, ENTRY_COUNT);
                Action::Nothing
            },
            Key::Down => {
                self.selected = table_cursor::next(self.selected, ENTRY_COUNT);
                Action::Nothing
            },
            Key::Char('e') => {
                self.try_start_permission_edit();
                Action::Nothing
            },
            _ => Action::Nothing,
        }
    }

    /// The key help of the panel's current state: the editor's keys while
    /// it is open, else those of the list (with `e` on the permissions row).
    pub open spec fn keymap_text(&self) -> Seq<char> {
        if self.editor is Some {
            "←→: r/w/x  ↑↓: u/g/o  Space: Toggle  Enter: Apply  Esc: Cancel"@
        } else if self.selected == Some(PERMISSIONS_ROW) {
            "↑↓: Move  e: Edit permissions  a/Esc: Close"@
        } else {
            "↑↓: Move  a/Esc: Close"@
        }
    }

    /// The key help of the panel's current state.
    pub fn keymap(&self) -> (r: &'static str)
        ensures
            r@ == self.keymap_text(),
    {
        if self.editor.is_some() {
            return "←→: r/w/x  ↑↓: u/g/o  Space: Toggle  Enter: Apply  Esc: Cancel";
        }
        if self.is_permissions_row_selected() {
            return "↑↓: Move  e: Edit permissions  a/Esc: Close";
        }
        "↑↓: Move  a/Esc: Close"
    }
}

} // verus!
