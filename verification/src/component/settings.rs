//! The settings panel: a menu of settings and an editor for the startup
//! directory.
use vstd::prelude::*;
use crate::component::Action;
use crate::key::Key;
use crate::state::{spec_same_startup, spec_startup_index, StartupDirectory};
use crate::text::owned;

verus! {

/// The number of settings in the menu.
pub const MENU_ITEM_COUNT: usize = 1;

/// A control character (Unicode general category Cc).
pub open spec fn is_control_char(c: char) -> bool {
    (c as int) < 0x20 || (0x7f <= (c as int) && (c as int) <= 0x9f)
}

fn is_control(c: char) -> (r: bool)
    ensures
        r == is_control_char(c),
{
    let u = c as u32;
    u < 0x20 || (0x7f <= u && u <= 0x9f)
}

/// The startup directory being chosen: the selected choice and the path
/// typed for a specific directory.
#[derive(Debug)]
pub struct StartupDirectoryEditor {
    pub selected_option: usize,
    pub path: String,
}

/// What a key did to the editor.
#[derive(Debug, Clone, Copy, PartialEq, Eq, Structural)]
pub enum EditorOutcome {
    Continue,
    Commit,
    Cancel,
}

impl StartupDirectoryEditor {
    /// The editor opened on `startup_dir`: its choice selected, its path
    /// (or the current directory) to edit.
    pub fn new(startup_dir: &StartupDirectory, current_dir: &str) -> (r: StartupDirectoryEditor)
        ensures
            r.selected_option == spec_startup_index(*startup_dir),
            match *startup_dir {
                StartupDirectory::SpecificDirectory(p) => r.path@ == p@,
                _ => r.path@ == current_dir@,
            },
    {
        let index = startup_dir.index();
        let path = match startup_dir {
            StartupDirectory::SpecificDirectory(p) => p.clone(),
            _ => owned(current_dir),
        };
        StartupDirectoryEditor { selected_option: index, path }
    }

    pub fn is_specific_selected(&self) -> (r: bool)
        ensures
            r == (self.selected_option == StartupDirectory::SPECIFIC_INDEX),
    {
        self.selected_option == StartupDirectory::SPECIFIC_INDEX
    }

    /// The setting the editor shows.
    pub fn to_startup_directory(&self) -> (r: StartupDirectory)
        ensures
            self.selected_option == 3 ==> (r matches StartupDirectory::SpecificDirectory(p) && p@ == self.path@),
            self.selected_option != 3 ==> r == crate::state::spec_startup_from_index(self.selected_option as nat, self.path@).0,
    {
        StartupDirectory::from_index(self.selected_option, self.path.as_str())
    }

    /// Enter commits, Esc cancels; Up/Down move through the four choices
    /// (without wrapping); on the specific-directory choice, printable
    /// characters are typed into the path and Backspace removes its last
    /// character.
    pub fn handle_event(&mut self, key: Key) -> (r: EditorOutcome)
        ensures
            key == Key::Enter ==> r == EditorOutcome::Commit && *final(self) == *old(self),
            key == Key::Esc ==> r == EditorOutcome::Cancel && *final(self) == *old(self),
            key != Key::Enter && key != Key::Esc ==> r == EditorOutcome::Continue,
            key == Key::Up ==> final(self).path == old(self).path && final(self).selected_option == (
                if old(self).selected_option > 0 { old(self).selected_option - 1 } else { 0 }),
            key == Key::Down ==> final(self).path == old(self).path && final(self).selected_option == (
                if old(self).selected_option + 1 < StartupDirectory::LABEL_COUNT { old(self).selected_option + 1 } else { old(self).selected_option as int }),
            key matches Key::Char(c) ==> final(self).selected_option == old(self).selected_option && final(self).path@ == (
                if old(self).selected_option == 3 && !is_control_char(c) { old(self).path@.push(c) } else { old(self).path@ }),
            key == Key::Backspace ==> final(self).selected_option == old(self).selected_option && final(self).path@ == (
                if old(self).selected_option == 3 && old(self).path@.len() > 0 { old(self).path@.drop_last() } else { old(self).path@ }),
            !(key == Key::Enter || key == Key::Esc || key == Key::Up || key == Key::Down || key is Char || key == Key::Backspace)
                ==> *final(self) == *old(self),
    {
        let specific = self.is_specific_selected();
        match key {
            Key::Enter => EditorOutcome::Commit,
            Key::Esc => EditorOutcome::Cancel,
            Key::Up => {
                if self.selected_option > 0 {
                    self.selected_option = self.selected_option - 1;
                }
                EditorOutcome::Continue
            },
            Key::Down => {
                if self.selected_option < StartupDirectory::LABEL_COUNT - 1 {
                    self.selected_option = self.selected_option + 1;
                }
                EditorOutcome::Continue
            },
            Key::Char(c) => {
                if specific && !is_control(c) {
                    crate::text::push_char(&mut self.path, c);
                }
                EditorOutcome::Continue
            },
            Key::Backspace => {
                if specific {
                    let mut v = crate::text::chars_of(self.path.as_str());
                    if v.len() > 0 {
                        v.pop();
                        assert(v@ =~= old(self).path@.drop_last());
                        self.path = crate::text::string_of(v.as_slice());
                    }
                }
                EditorOutcome::Continue
            },
            _ => EditorOutcome::Continue,
        }
    }
}

/// The view of the panel: the menu, or the editor of a setting.
#[derive(Debug)]
pub enum SettingsView {
    Menu,
    StartupDirectory(StartupDirectoryEditor),
}

pub struct SettingsComponent {
    pub view: SettingsView,
    pub menu_index: usize,
    pub startup_dir: StartupDirectory,
    pub current_dir: String,
}

impl SettingsComponent {
    /// The menu over the saved startup directory.
    pub fn new(startup_dir: &StartupDirectory, current_dir: &str) -> (r: SettingsComponent)
        ensures
            r.view is Menu,
            r.menu_index == 0,
            r.startup_dir == *startup_dir,
            r.current_dir@ == current_dir@,
    {
        SettingsComponent { view: SettingsView::Menu, menu_index: 0, startup_dir: startup_dir.duplicate(), current_dir: owned(current_dir) }
    }

    /// The key help of the panel's current view.
    pub open spec fn keymap_text(&self) -> Seq<char> {
        match self.view {
            SettingsView::Menu => "↑↓: Select  Enter: Edit  o/Esc: Close"@,
            SettingsView::StartupDirectory(editor) => if editor.selected_option == StartupDirectory::SPECIFIC_INDEX {
                "↑↓: Select  Type: Edit path  Enter: Save  Esc: Cancel"@
            } else {
                "↑↓: Select  Enter: Save  Esc: Cancel"@
            },
        }
    }

    pub fn keymap(&self) -> (r: &'static str)
        ensures
            r@ == self.keymap_text(),
    {
        match &self.view {
            SettingsView::Menu => "↑↓: Select  Enter: Edit  o/Esc: Close",
            SettingsView::StartupDirectory(editor) => {
                if editor.is_specific_selected() {
                    "↑↓: Select  Type: Edit path  Enter: Save  Esc: Cancel"
                } else {
                    "↑↓: Select  Enter: Save  Esc: Cancel"
                }
            },
        }
    }

    /// What a key does to the panel and what it answers (see `handle_event`).
    pub open spec fn key_result(before: Self, key: Key, after: Self, a: Action) -> bool {
        &&& after.current_dir == before.current_dir
        &&& before.view is Menu ==> match key {
            Key::Enter => a is Nothing && after.startup_dir == before.startup_dir && (after.view matches SettingsView::StartupDirectory(e)
                && e.selected_option == spec_startup_index(before.startup_dir)
                && match before.startup_dir {
                    StartupDirectory::SpecificDirectory(p) => e.path@ == p@,
                    _ => e.path@ == before.current_dir@,
                }),
            Key::Char('o') | Key::Esc => a is CloseSidePanel && after.view is Menu && after.startup_dir == before.startup_dir,
            _ => a is Nothing && after.view is Menu && after.startup_dir == before.startup_dir,
        }
        &&& before.view matches SettingsView::StartupDirectory(e) ==> match key {
            Key::Esc => a is Nothing && after.view is Menu && after.startup_dir == before.startup_dir,
            Key::Enter => after.view is Menu && (
                if e.selected_option == 3 {
                    if before.startup_dir matches StartupDirectory::SpecificDirectory(p) && p@ == e.path@ {
                        a is Nothing && after.startup_dir == before.startup_dir
                    } else {
                        (after.startup_dir matches StartupDirectory::SpecificDirectory(q) && q@ == e.path@)
                        && (a matches Action::SaveSettings(d) && *d == after.startup_dir)
                    }
                } else {
                    let new = crate::state::spec_startup_from_index(e.selected_option as nat, e.path@).0;
                    if spec_same_startup(new, before.startup_dir) {
                        a is Nothing && after.startup_dir == before.startup_dir
                    } else {
                        after.startup_dir == new && a == Action::SaveSettings(Box::new(new))
                    }
                }),
            _ => a is Nothing && after.view is StartupDirectory && after.startup_dir == before.startup_dir,
        }
    }

    /// In the menu: Up/Down move (within the one item), Enter opens the
    /// editor on the saved value, `o`/Esc closes. In the editor: Esc goes
    /// back to the menu; Enter goes back too and, when the choice differs
    /// from the saved one, saves it and asks for it to be stored.
    pub fn handle_event(&mut self, key: Key) -> (a: Action)
        ensures
            Self::key_result(*old(self), key, *final(self), a),
    {
        match &mut self.view {
            SettingsView::Menu => {
                match key {
                    Key::Up => {
                        if self.menu_index > 0 {
                            self.menu_index = self.menu_index - 1;
                        }
                        Action::Nothing
                    },
                    Key::Down => {
                        if self.menu_index < MENU_ITEM_COUNT - 1 {
                            self.menu_index = self.menu_index + 1;
                        }
                        Action::Nothing
                    },
                    Key::Enter => {
                        self.view = SettingsView::StartupDirectory(StartupDirectoryEditor::new(&self.startup_dir, self.current_dir.as_str()));
                        Action::Nothing
                    },
                    Key::Char('o') | Key::Esc => Action::CloseSidePanel,
                    _ => Action::Nothing,
                }
            },
            SettingsView::StartupDirectory(editor) => {
                match editor.handle_event(key) {
                    EditorOutcome::Continue => Action::Nothing,
                    EditorOutcome::Cancel => {
                        self.view = SettingsView::Menu;
                        Action::Nothing
                    },
                    EditorOutcome::Commit => {
                        let new = editor.to_startup_directory();
                        self.view = SettingsView::Menu;
                        if new.same_as(&self.startup_dir) {
                            Action::Nothing
                        } else {
                            self.startup_dir = new.duplicate();
                            Action::SaveSettings(Box::new(new))
                        }
                    },
                }
            },
        }
    }
}

} // verus!
