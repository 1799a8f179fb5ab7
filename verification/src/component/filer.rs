//! The file list panel: keys on the list, and the prompts and panels they
//! open for the selected or checked files.
use vstd::prelude::*;
use crate::component::attribute::AttributeComponent;
use crate::component::file_info::FileInfoComponent;
use crate::component::tree::TreeComponent;
use crate::component::Action;
use crate::fs::file::VFile;
use crate::fs::file_info_task::FileInfoHandle;
use crate::jobs::Received;
use crate::key::Key;
use crate::path::{spec_file_name, spec_file_stem, spec_join};
use crate::state::filer::{found_backward, found_forward, listed_paths, search_skip, FilerState};
use crate::state::table_cursor::{spec_clamp, spec_first, spec_last, spec_next, spec_prev};
use crate::state::{
    spec_sort_key_index, ConfirmAction, FileAction, FileActionCandidateType, PromptMode, SelectAction, SidePanel, SortKey,
    TextAction,
};
use crate::text::{decimal, owned, push_decimal, push_str, views};

verus! {

/// The files an action works on: the checked files in list order, or the
/// selected file when nothing is checked.
pub open spec fn action_targets(st: FilerState) -> Seq<VFile> {
    if st.checked_paths@.len() == 0 {
        match st.selected {
            Some(i) => seq![st.current_dir_files@[i as int]],
            None => Seq::empty(),
        }
    } else {
        st.current_dir_files@.filter(|f: VFile| views(st.checked_paths@).contains(f.path@))
    }
}

/// A prompt's title for an action on `files`: `Delete a.txt?` for one file
/// (`(unknown)` for a path without a name), `Delete 3 files?` for more.
pub open spec fn spec_action_title(name: Seq<char>, files: Seq<VFile>) -> Seq<char> {
    if files.len() == 1 {
        name + " "@ + match spec_file_name(files[0].path@) {
            Some(n) => n,
            None => "(unknown)"@,
        } + "?"@
    } else {
        name + " "@ + decimal(files.len()) + " files?"@
    }
}

/// `a` opens a path prompt titled after `label` on the action's files: the
/// value starts as the one file's path, or the current directory for more;
/// nothing happens without files.
pub open spec fn is_transfer_prompt(a: Action, st: FilerState, label: Seq<char>, is_move: bool) -> bool {
    let files = action_targets(st);
    if files.len() == 0 {
        a is Nothing
    } else {
        &&& a matches Action::SetPromptMode(m)
        &&& *m matches PromptMode::File { title, value, cursor, candidate_type, candidates, candidate_index, action }
        &&& title@ == spec_action_title(label, files)
        &&& value@ == (if files.len() == 1 { files[0].path@ } else { st.current_dir.path@ })
        &&& cursor == value@.len()
        &&& candidate_type == FileActionCandidateType::All
        &&& candidates@.len() == 0
        &&& candidate_index is None
        &&& if is_move { action matches FileAction::Move { files: fs } && fs@ == files } else { action matches FileAction::Copy { files: fs } && fs@ == files }
    }
}

/// `a` asks to confirm deleting the action's files.
pub open spec fn is_delete_prompt(a: Action, st: FilerState) -> bool {
    let files = action_targets(st);
    if files.len() == 0 {
        a is Nothing
    } else {
        &&& a matches Action::SetPromptMode(m)
        &&& *m matches PromptMode::Confirm { title, action: ConfirmAction::Delete { files: fs } }
        &&& title@ == spec_action_title("Delete"@, files)
        &&& fs@ == files
    }
}

/// `a` opens an empty text prompt creating a directory (or a file) in the
/// current directory, titled after its name; nothing happens at a
/// directory without a name.
pub open spec fn is_create_prompt(a: Action, st: FilerState, is_dir: bool) -> bool {
    match spec_file_name(st.current_dir.path@) {
        None => a is Nothing,
        Some(n) => {
            &&& a matches Action::SetPromptMode(m)
            &&& *m matches PromptMode::Text { title, value, cursor, action }
            &&& title@ == (if is_dir { "Create directory in "@ } else { "Create file in "@ }) + n
            &&& value@.len() == 0
            &&& cursor == 0
            &&& if is_dir { *action == TextAction::Mkdir { dir: st.current_dir } } else { *action == TextAction::Touch { dir: st.current_dir } }
        },
    }
}

/// `a` opens an empty text prompt asking for the name of a link, made in
/// the current directory, to the file under the cursor; nothing happens
/// without a cursor file.
pub open spec fn is_symlink_prompt(a: Action, st: FilerState) -> bool {
    match st.selected {
        None => a is Nothing,
        Some(i) => {
            &&& a matches Action::SetPromptMode(m)
            &&& *m matches PromptMode::Text { title, value, cursor, action }
            &&& title@ == "Create symlink to "@ + st.current_dir_files@[i as int].path@
            &&& value@.len() == 0
            &&& cursor == 0
            &&& *action == (TextAction::Symlink { dir: st.current_dir, target: st.current_dir_files@[i as int] })
        },
    }
}

/// `a` opens the filter prompt, holding the present filter with the
/// cursor at its end.
pub open spec fn is_filter_prompt(a: Action, st: FilerState) -> bool {
    &&& a matches Action::SetPromptMode(m)
    &&& *m matches PromptMode::Text { title, value, cursor, action }
    &&& title@ == "Filter"@
    &&& value@ == st.filter@
    &&& cursor == st.filter@.len()
    &&& *action == TextAction::Filter
}

/// The archive name a zip prompt suggests: the stem of the one selected
/// file (or `archive`) with `.zip`, or `files.zip` for checked files.
pub open spec fn zip_default_name(st: FilerState, files: Seq<VFile>) -> Seq<char> {
    if st.checked_paths@.len() == 0 {
        match spec_file_name(files[0].path@) {
            Some(n) => match spec_file_stem(n) {
                Some(s) => s + ".zip"@,
                None => "archive.zip"@,
            },
            None => "archive.zip"@,
        }
    } else {
        "files.zip"@
    }
}

/// `a` opens a text prompt to zip the action's files into the current
/// directory, the suggested name typed in.
pub open spec fn is_zip_prompt(a: Action, st: FilerState) -> bool {
    let files = action_targets(st);
    if files.len() == 0 {
        a is Nothing
    } else {
        let name = zip_default_name(st, files);
        let value = match spec_file_name(spec_join(st.current_dir.path@, name)) {
            Some(n) => n,
            None => name,
        };
        &&& a matches Action::SetPromptMode(m)
        &&& *m matches PromptMode::Text { title, value: v, cursor, action }
        &&& title@ == spec_action_title("Zip"@, files)
        &&& v@ == value
        &&& cursor == value.len()
        &&& *action matches TextAction::Zip { dir, files: fs }
        &&& dir == st.current_dir
        &&& fs@ == files
    }
}

/// `a` opens a text prompt to rename the selected file, its name typed in;
/// nothing without a selection or for a path without a name.
pub open spec fn is_rename_prompt(a: Action, st: FilerState) -> bool {
    match st.selected {
        None => a is Nothing,
        Some(i) => match spec_file_name(st.current_dir_files@[i as int].path@) {
            None => a is Nothing,
            Some(n) => {
                &&& a matches Action::SetPromptMode(m)
                &&& *m matches PromptMode::Text { title, value, cursor, action }
                &&& title@ == "Rename "@ + n
                &&& value@ == n
                &&& cursor == n.len()
                &&& *action == TextAction::Rename { file: st.current_dir_files@[i as int] }
            },
        },
    }
}

/// The labels of the sort keys, in order.
pub open spec fn sort_labels() -> Seq<Seq<char>> {
    seq!["Name"@, "Size"@, "Modified"@]
}

pub struct FilerComponent {
    pub state: FilerState,
    pub active: bool,
}

/// How a row of the file list is coloured.
#[derive(Debug, Clone, Copy, PartialEq, Eq, Structural)]
pub enum RowStyle {
    Directory,
    DotFile,
    Plain,
}

/// One row of the file list as text: check mark, name, bookmark mark,
/// permissions, size, modification time.
pub struct FileRow {
    pub checked: &'static str,
    pub name: String,
    pub bookmark: &'static str,
    pub permissions: String,
    pub size: String,
    pub modified: String,
    pub style: RowStyle,
}

/// The files shown as rows: those whose metadata could be read.
pub open spec fn listed(files: Seq<VFile>) -> Seq<VFile> {
    files.filter(|f: VFile| f.metadata is Some)
}

/// `row` shows `f` (the time column aside, which depends on the time zone).
pub open spec fn row_shows(row: FileRow, f: VFile, checked: Seq<Seq<char>>, bookmarks: Seq<Seq<char>>) -> bool {
    let m = f.metadata->0;
    let name = match spec_file_name(f.path@) {
        Some(n) => n,
        None => Seq::empty(),
    };
    &&& row.checked@ == (if checked.contains(f.path@) { "*"@ } else { " "@ })
    &&& row.name@ == name
    &&& row.bookmark@ == (if bookmarks.contains(f.path@) { "B"@ } else { " "@ })
    &&& row.permissions@ == crate::fs::permissions::spec_rwx_string(m.mode)
    &&& row.size@ == (if m.kind == crate::fs::file::FileKind::Directory { "<dir>"@ } else { crate::text::grouped_decimal(m.size as nat) })
    &&& row.style == (if m.kind == crate::fs::file::FileKind::Directory {
        RowStyle::Directory
    } else if name.len() > 0 && name[0] == '.' {
        RowStyle::DotFile
    } else {
        RowStyle::Plain
    })
    &&& m.modified is None ==> row.modified@ == "____-__-__ --:--:--"@
}

fn contains_str(v: &[String], s: &str) -> (r: bool)
    ensures
        r == views(v@).contains(s@),
{
    let mut i: usize = 0;
    while i < v.len()
        invariant
            i <= v@.len(),
            forall|j: int| 0 <= j < i ==> v@[j]@ != s@,
        decreases v@.len() - i,
    {
        if crate::text::str_eq(v[i].as_str(), s) {
            assert(views(v@)[i as int] == s@);
            return true;
        }
        i += 1;
    }
    assert forall|j: int| 0 <= j < views(v@).len() implies views(v@)[j] != s@ by {
        assert(views(v@)[j] == v@[j]@);
    }
    false
}

/// The row of a file whose metadata is known.
fn file_row(f: &VFile, checked: &[String], bookmarks: &[String]) -> (r: FileRow)
    requires
        f.metadata is Some,
    ensures
        row_shows(r, *f, views(checked@), views(bookmarks@)),
{
    let m = match &f.metadata {
        Some(m) => m,
        None => {
            return FileRow {
                checked: " ",
                name: String::new(),
                bookmark: " ",
                permissions: String::new(),
                size: String::new(),
                modified: String::new(),
                style: RowStyle::Plain,
            };
        },
    };
    let name = crate::sort::name_of_exec(f);
    let is_dir = m.is_dir();
    let nv = crate::text::chars_of(name.as_str());
    let style = if is_dir {
        RowStyle::Directory
    } else if nv.len() > 0 && nv[0] == '.' {
        RowStyle::DotFile
    } else {
        RowStyle::Plain
    };
    let size = if is_dir { owned("<dir>") } else { crate::fs::size::grouped(m.size) };
    let modified = match m.modified {
        Some(t) => t.to_local_string(),
        None => crate::fs::file_time::missing_time_text(),
    };
    proof {
        reveal_strlit("____-__-__ --:--:--");
        assert("____-__-__ --:--:--"@ =~= seq!['_', '_', '_', '_', '-', '_', '_', '-', '_', '_', ' ', '-', '-', ':', '-', '-', ':', '-', '-']);
    }
    FileRow {
        checked: if contains_str(checked, f.absolute_path()) { "*" } else { " " },
        name,
        bookmark: if contains_str(bookmarks, f.absolute_path()) { "B" } else { " " },
        permissions: m.permissions().to_rwx_string(),
        size,
        modified,
        style,
    }
}

/// Where a listing thread's result is handed over.
pub type ListingReceiver = std::sync::mpsc::Receiver<Result<Vec<VFile>, String>>;

/// What a key does to the file list and what it answers (see
/// `FilerComponent::handle_event`).
pub open spec fn filer_key_result(before: FilerComponent, key: Key, after: FilerComponent, r: Result<Action, String>) -> bool {
    &&& key == Key::Up ==> (r matches Ok(a) && a is Nothing
        && after.state.selected == spec_prev(before.state.selected, before.state.current_dir_files@.len()))
    &&& key == Key::Down ==> (r matches Ok(a) && a is Nothing
        && after.state.selected == spec_next(before.state.selected, before.state.current_dir_files@.len()))
    &&& key == Key::Left ==> (r matches Ok(a) && a is Nothing
        && after.state.selected == spec_first(before.state.current_dir_files@.len()))
    &&& key == Key::Right ==> (r matches Ok(a) && a is Nothing
        && after.state.selected == spec_last(before.state.current_dir_files@.len()))
    &&& key == Key::Char('q') ==> (r matches Ok(a) && a is Quit)
    &&& key == Key::Char('h') ==> (r matches Ok(a) && a is LaunchShell)
    &&& key == Key::Char('b') ==> (r matches Ok(a) && a is ShowBookmark)
    &&& key == Key::Char('o') ==> (r matches Ok(a) && a is ShowSettings)
    &&& key == Key::Char('c') ==> (r matches Ok(a) && is_transfer_prompt(a, before.state, "Copy to"@, false))
    &&& key == Key::Char('m') ==> (r matches Ok(a) && is_transfer_prompt(a, before.state, "Move to"@, true))
    &&& key == Key::Char('d') ==> (r matches Ok(a) && is_delete_prompt(a, before.state))
    &&& key == Key::Char('k') ==> (r matches Ok(a) && is_create_prompt(a, before.state, true))
    &&& key == Key::Char('n') ==> (r matches Ok(a) && is_create_prompt(a, before.state, false))
    &&& key == Key::Char('p') ==> (r matches Ok(a) && is_zip_prompt(a, before.state))
    &&& key == Key::Char('r') ==> (r matches Ok(a) && is_rename_prompt(a, before.state))
    &&& key == Key::Char(' ') ==> match before.state.selected {
        Some(i) => views(after.state.checked_paths@).to_set() == (
            if views(before.state.checked_paths@).contains(before.state.current_dir_files@[i as int].path@) {
                views(before.state.checked_paths@).to_set().remove(before.state.current_dir_files@[i as int].path@)
            } else {
                views(before.state.checked_paths@).to_set().insert(before.state.current_dir_files@[i as int].path@)
            }),
        None => after.state.checked_paths == before.state.checked_paths,
    }
    &&& key == Key::Char(' ') ==> (r matches Ok(a) && a is Nothing
        && after.state.current_dir_files == before.state.current_dir_files)
    &&& key == Key::Char('.') ==> (r matches Ok(a) && a is Nothing
        && after.state.show_dot_file == !before.state.show_dot_file)
    &&& key == Key::Char('+') ==> (r matches Ok(a) && match before.state.selected {
        Some(i) => a matches Action::AddBookmark(p) && p@ == before.state.current_dir_files@[i as int].path@,
        None => a is Nothing,
    })
    &&& key == Key::Char('-') ==> (r matches Ok(a) && match before.state.selected {
        Some(i) => a matches Action::RemoveBookmark(p) && p@ == before.state.current_dir_files@[i as int].path@,
        None => a is Nothing,
    })
    &&& key == Key::Char(' ') ==> after.state.selected == spec_next(before.state.selected, before.state.current_dir_files@.len())
    &&& key == Key::Enter ==> r is Ok && match before.state.selected {
        None => (r matches Ok(a) && a is Nothing) && after == before,
        Some(i) => {
            let f = before.state.current_dir_files@[i as int];
            if f.metadata matches Some(m) && m.kind == crate::fs::file::FileKind::Directory {
                (r matches Ok(a) && a is Nothing) && after.state.current_dir.path@ == f.path@
                    && (after.state.load_request matches Some(p) && p@ == f.path@)
            } else {
                (r matches Ok(a) && (a matches Action::OpenFile(p) && p@ == f.path@)) && after == before
            }
        },
    }
    &&& key == Key::Backspace ==> (r matches Ok(a) && a is Nothing) && match crate::path::spec_parent(before.state.current_dir.path@) {
        Some(p) => after.state.current_dir.path@ == p,
        None => after == before,
    }
    &&& key == Key::Char('s') ==> (r matches Ok(Action::SetPromptMode(m)) && (*m matches PromptMode::Select { title, selected_index, action, .. }
        && title@ == "Sort by"@ && selected_index == spec_sort_key_index(before.state.sort_key) && action == SelectAction::Sort))
    &&& key == Key::Char('f') ==> (r matches Ok(Action::SetPromptMode(m)) && (*m matches PromptMode::Search { title, value, cursor, original_index }
        && title@ == "Search"@ && value@.len() == 0 && cursor == 0 && original_index == before.state.selected))
    &&& key == Key::Char('g') ==> (r matches Ok(Action::SetPromptMode(m)) && (*m matches PromptMode::Text { title, value, cursor, action }
        && title@ == "Grep"@ && value@.len() == 0 && cursor == 0 && *action == TextAction::Grep))
    &&& key == Key::Char('j') ==> (r matches Ok(Action::SetPromptMode(m)) && (*m matches PromptMode::File { title, value, cursor, action, .. }
        && title@ == "Jump"@ && value@ == before.state.current_dir.path@ && cursor == value@.len() && action == FileAction::Jump))
    &&& key == Key::Char('a') ==> (before.state.selected is None ==> (r matches Ok(a) && a is Nothing))
        && (before.state.selected matches Some(i) ==> (before.state.current_dir_files@[i as int].metadata is None <==> r is Err))
    &&& key == Key::Char('i') ==> (before.state.selected is None ==> (r matches Ok(a) && a is Nothing))
        && (before.state.selected is Some ==> (r matches Ok(Action::ShowSidePanel(p)) && *p is FileInfo))
    &&& key == Key::Char('t') ==> (r matches Ok(Action::ShowSidePanel(p)) && (*p matches SidePanel::Tree(t)
        && t.state.show_dot_file == before.state.show_dot_file))
    &&& key == Key::Char('x') ==> (r matches Ok(Action::SetPromptMode(m)) && (*m matches PromptMode::Text { title, value, cursor, action }
        && title@ == "Execute"@ && value@.len() == 0 && cursor == 0 && *action == (TextAction::Execute { dir: before.state.current_dir })))
    &&& key == Key::Char('u') ==> r is Ok && match before.state.selected {
        Some(i) => match spec_file_stem(before.state.current_dir_files@[i as int].path@) {
            Some(stem) => r matches Ok(Action::SetPromptMode(m)) && (*m matches PromptMode::Text { title, value, cursor, action }
                && title@ == "Unzip to"@ && value@ == stem && cursor == stem.len()
                && *action == (TextAction::Unzip { file: before.state.current_dir_files@[i as int], dir: before.state.current_dir })),
            None => r matches Ok(a) && a is Nothing,
        },
        None => r matches Ok(a) && a is Nothing,
    }
    &&& key == Key::Char('y') ==> (action_targets(before.state).len() == 0 ==> (r matches Ok(a) && a is Nothing))
        && (action_targets(before.state).len() > 0 ==> (r matches Ok(Action::Yank(ps))
            && views(ps@) == action_targets(before.state).map_values(|f: VFile| f.path@)))
    &&& key == Key::Char('v') ==> r is Ok && match before.state.selected {
        Some(i) => match spec_file_name(before.state.current_dir_files@[i as int].path@) {
            Some(n) => r matches Ok(Action::ShowSidePanel(p)) && (*p matches SidePanel::Preview(c)
                && c.title@ == crate::component::preview::preview_title(n)),
            None => r matches Ok(a) && a is Nothing,
        },
        None => r matches Ok(a) && a is Nothing,
    }
    &&& key == Key::Char('<') ==> (r matches Ok(a) && a is NavigateBack)
    &&& key == Key::Char('>') ==> (r matches Ok(a) && a is NavigateForward)
    &&& key == Key::Char('?') ==> (r matches Ok(a) && a is ShowHelp)
    &&& key == Key::Char('e') ==> (r matches Ok(Action::OpenFile(p)) && p@ == before.state.current_dir.path@)
    &&& key == Key::Char('~') ==> (r matches Ok(a) && a is NavigateHome)
    &&& key == Key::Char('/') ==> (r matches Ok(a) && is_filter_prompt(a, before.state))
    &&& key == Key::Char('l') ==> (r matches Ok(a) && is_symlink_prompt(a, before.state))
    &&& key == Key::Char('A') ==> (r matches Ok(a) && a is Nothing)
        && (before.state.checked_paths@.len() == 0
            ==> views(after.state.checked_paths@).to_set() == listed_paths(before.state.current_dir_files@))
        && (before.state.checked_paths@.len() > 0 ==> after.state.checked_paths@.len() == 0)
        && after == (FilerComponent { state: before.state.with_checked_paths(after.state.checked_paths), ..before })
    &&& (key matches Key::Char(c) && (c == 'q' || c == 'h' || c == 'b' || c == 'o' || c == 'c' || c == 'm' || c == 'd' || c == 'k'
        || c == 'n' || c == 'p' || c == 'r' || c == 's' || c == 'f' || c == 'g' || c == 'j' || c == '+' || c == '-' || c == 'a'
        || c == 'i' || c == 't' || c == 'x' || c == 'u' || c == 'y' || c == '<' || c == '>' || c == '?' || c == 'e' || c == 'v'
        || c == '~' || c == 'l' || c == '/')) ==> after == before
    &&& !(key == Key::Up || key == Key::Down || key == Key::Left || key == Key::Right || key == Key::Enter || key == Key::Backspace
        || (key matches Key::Char(c) && (c == 'q' || c == 'h' || c == 'b' || c == 'o' || c == 'c' || c == 'm' || c == 'd' || c == 'k'
        || c == 'n' || c == 'p' || c == 'r' || c == 's' || c == 'f' || c == 'g' || c == 'j' || c == '+' || c == '-' || c == 'a'
        || c == 'i' || c == 't' || c == ' ' || c == '.' || c == 'x' || c == 'u' || c == 'y' || c == '<' || c == '>' || c == '?'
        || c == 'e' || c == 'v' || c == '~' || c == 'l' || c == 'A' || c == '/'))) ==> (r matches Ok(a) && a is Nothing) && after == before
}

impl FilerComponent {
    pub open spec fn wf(&self) -> bool {
        self.state.wf()
    }

    pub fn new() -> (r: FilerComponent)
        ensures
            r.wf(),
            r.active,
            r.state.current_dir_files@.len() == 0,
            r.state.load_request is None,
    {
        FilerComponent { state: FilerState::new(), active: true }
    }

    /// Starts in `startup_dir`, or in `current_dir` (the process's working
    /// directory) without one.
    pub fn init(&mut self, startup_dir: Option<String>, current_dir: &str)
        ensures
            final(self).wf(),
            final(self).active == old(self).active,
            final(self).state.current_dir.path@ == match startup_dir {
                Some(d) => d@,
                None => current_dir@,
            },
            final(self).state.load_request matches Some(p) && p@ == final(self).state.current_dir.path@,
            final(self).state.current_dir_files@.len() == 0,
    {
        match startup_dir {
            Some(d) => self.state.change_to(d.as_str()),
            None => self.state.change_to(current_dir),
        }
    }

    pub fn set_active(&mut self, active: bool)
        ensures
            final(self).active == active,
            final(self).state == old(self).state,
    {
        self.active = active;
    }

    pub fn current_dir_path(&self) -> (r: &str)
        ensures
            r@ == self.state.current_dir.path@,
    {
        self.state.current_dir_path()
    }

    /// See `FilerState::jump_to`.
    pub fn jump_to(&mut self, path: &str, is_dir: bool) -> (r: Result<(), String>)
        requires
            old(self).wf(),
        ensures
            final(self).wf(),
            final(self).active == old(self).active,
            is_dir ==> (r is Ok && final(self).state.current_dir.path@ == path@),
            !is_dir ==> (crate::path::spec_parent(path@) is None <==> r is Err),
            !is_dir ==> (crate::path::spec_parent(path@) matches Some(p) ==> final(self).state.current_dir.path@ == p),
            FilerState::jumped(old(self).state, path@, is_dir, final(self).state, r is Ok),
    {
        self.state.jump_to(path, is_dir)
    }

    pub fn change_to(&mut self, path: &str)
        ensures
            final(self).wf(),
            final(self).active == old(self).active,
            final(self).state.current_dir.path@ == path@,
            final(self).state.load_request matches Some(p) && p@ == path@,
            final(self).state.current_dir_files@.len() == 0,
            final(self).state.sort_key == old(self).state.sort_key,
            final(self).state.show_dot_file == old(self).state.show_dot_file,
    {
        self.state.change_to(path);
    }

    pub fn refresh_files(&mut self)
        requires
            old(self).wf(),
        ensures
            final(self).wf(),
            final(self).active == old(self).active,
            final(self).state.current_dir == old(self).state.current_dir,
            final(self).state.current_dir_files == old(self).state.current_dir_files,
            final(self).state.load_request matches Some(p) && p@ == old(self).state.current_dir.path@,
            final(self).state.sort_key == old(self).state.sort_key,
            final(self).state.show_dot_file == old(self).state.show_dot_file,
            final(self).state.checked_paths == old(self).state.checked_paths,
    {
        self.state.refresh_files();
    }

    pub fn is_loading(&self) -> (r: bool)
        ensures
            r == self.state.is_loading_spec(),
    {
        self.state.is_loading()
    }

    pub fn take_error(&mut self) -> (r: Option<String>)
        ensures
            r == old(self).state.error,
            final(self).state.error is None,
            final(self).state.current_dir_files == old(self).state.current_dir_files,
            final(self).state.selected == old(self).state.selected,
            final(self).state.checked_paths == old(self).state.checked_paths,
            final(self).active == old(self).active,
    {
        self.state.take_error()
    }

    /// The directory whose listing is to be started, handed over once.
    pub fn take_load_request(&mut self) -> (r: Option<String>)
        ensures
            r == old(self).state.load_request,
            final(self).state.load_request is None,
            final(self).state.current_dir_files == old(self).state.current_dir_files,
            final(self).state.selected == old(self).state.selected,
            final(self).state.checked_paths == old(self).state.checked_paths,
            final(self).state.current_dir == old(self).state.current_dir,
            final(self).active == old(self).active,
    {
        self.state.take_load_request()
    }

    /// Follows the listing started for the last request.
    pub fn start_loading(&mut self, rx: ListingReceiver)
        ensures
            final(self).state.loading == Some(rx),
            final(self).state.current_dir_files == old(self).state.current_dir_files,
            final(self).state.selected == old(self).state.selected,
            final(self).state.checked_paths == old(self).state.checked_paths,
            final(self).state.current_dir == old(self).state.current_dir,
            final(self).active == old(self).active,
    {
        self.state.start_loading(rx);
    }

    /// One tick of the file list: a listing on its way is taken in if it
    /// arrived (see `FilerState::listing_taken`); nothing else changes.
    pub open spec fn ticked(before: Self, after: Self) -> bool {
        &&& after.active == before.active
        &&& after.state.current_dir == before.state.current_dir
        &&& before.state.loading is None ==> after == before
        &&& before.state.loading is Some ==> exists|x: Received<Result<Vec<VFile>, String>>|
            FilerState::listing_taken(before.state, x, after.state)
    }

    /// Takes in a listing that has arrived.
    pub fn tick(&mut self)
        requires
            old(self).wf(),
        ensures
            final(self).wf(),
            Self::ticked(*old(self), *final(self)),
    {
        self.state.receive_files();
    }

    pub fn select_matching_file(&mut self, value: &str)
        requires
            old(self).wf(),
        ensures
            final(self).wf(),
            final(self).active == old(self).active,
            final(self).state.current_dir_files == old(self).state.current_dir_files,
            final(self).state.current_dir == old(self).state.current_dir,
            found_forward(old(self).state.current_dir_files@, value@, old(self).state.selected, 0, final(self).state.selected),
    {
        self.state.select_matching_file(value);
    }

    pub fn select_next_matching_file(&mut self, value: &str)
        requires
            old(self).wf(),
        ensures
            final(self).wf(),
            final(self).active == old(self).active,
            final(self).state.current_dir_files == old(self).state.current_dir_files,
            final(self).state.current_dir == old(self).state.current_dir,
            found_forward(old(self).state.current_dir_files@, value@, old(self).state.selected, search_skip(old(self).state.selected), final(self).state.selected),
    {
        self.state.select_next_matching_file(value);
    }

    pub fn select_prev_matching_file(&mut self, value: &str)
        requires
            old(self).wf(),
        ensures
            final(self).wf(),
            final(self).active == old(self).active,
            final(self).state.current_dir_files == old(self).state.current_dir_files,
            final(self).state.current_dir == old(self).state.current_dir,
            found_backward(old(self).state.current_dir_files@, value@, old(self).state.selected, final(self).state.selected),
    {
        self.state.select_prev_matching_file(value);
    }

    pub fn clear_checked_paths(&mut self)
        requires
            old(self).wf(),
        ensures
            final(self).wf(),
            final(self).active == old(self).active,
            final(self).state.checked_paths@.len() == 0,
            final(self).state.selected == old(self).state.selected,
            final(self).state.current_dir_files == old(self).state.current_dir_files,
            final(self).state.current_dir == old(self).state.current_dir,
            final(self).state.pending_select_name == old(self).state.pending_select_name,
            final(self).state.sort_key == old(self).state.sort_key,
            final(self).state.load_request == old(self).state.load_request,
            *final(self) == (FilerComponent { state: old(self).state.with_checked_paths(final(self).state.checked_paths), ..*old(self) }),
    {
        self.state.clear_checked_paths();
    }

    /// Lists only the files whose names contain `q` (every file when it
    /// is empty), and reads the directory again.
    pub fn set_filter(&mut self, q: String)
        requires
            old(self).wf(),
        ensures
            final(self).wf(),
            final(self).active == old(self).active,
            final(self).state.filter == q,
            final(self).state.load_request matches Some(p) && p@ == old(self).state.current_dir.path@,
            final(self).state.current_dir == old(self).state.current_dir,
            final(self).state.current_dir_files == old(self).state.current_dir_files,
            final(self).state.checked_paths == old(self).state.checked_paths,
    {
        self.state.set_filter(q);
    }

    /// A prompt for the text the list is filtered by, holding the present
    /// one with the cursor at its end.
    pub fn prompt_filter(&self) -> (a: Action)
        ensures
            is_filter_prompt(a, self.state),
    {
        let value = owned(self.state.filter.as_str());
        let cursor = crate::text::chars_of(value.as_str()).len();
        Action::SetPromptMode(Box::new(PromptMode::Text { title: owned("Filter"), value, cursor, action: Box::new(TextAction::Filter) }))
    }

    pub fn set_pending_select_name(&mut self, name: String)
        requires
            old(self).wf(),
        ensures
            final(self).wf(),
            final(self).active == old(self).active,
            final(self).state.pending_select_name == Some(name),
            final(self).state.current_dir == old(self).state.current_dir,
            final(self).state.current_dir_files == old(self).state.current_dir_files,
            final(self).state.selected == old(self).state.selected,
            final(self).state.load_request == old(self).state.load_request,
    {
        self.state.set_pending_select_name(name);
    }

    /// Sets the order the next listing is sorted in.
    pub fn set_sort_key(&mut self, key: SortKey)
        requires
            old(self).wf(),
        ensures
            final(self).wf(),
            final(self).active == old(self).active,
            final(self).state.sort_key == key,
            final(self).state.current_dir == old(self).state.current_dir,
            final(self).state.current_dir_files == old(self).state.current_dir_files,
            final(self).state.selected == old(self).state.selected,
            final(self).state.checked_paths == old(self).state.checked_paths,
            final(self).state.load_request == old(self).state.load_request,
    {
        self.state.sort_key = key;
    }

    /// Selects row `index` (kept inside the list).
    pub fn select_file_table(&mut self, index: Option<usize>)
        requires
            old(self).wf(),
        ensures
            final(self).wf(),
            final(self).active == old(self).active,
            final(self).state.selected == spec_clamp(index, old(self).state.current_dir_files@.len()),
            final(self).state.current_dir_files == old(self).state.current_dir_files,
            final(self).state.current_dir == old(self).state.current_dir,
    {
        self.state.select(index);
    }

    /// The files an action works on (see `action_targets`).
    pub fn collect_action_targets(&self) -> (r: Vec<VFile>)
        requires
            self.wf(),
        ensures
            r@ == action_targets(self.state),
    {
        if self.state.checked_paths.len() == 0 {
            return match self.state.selected_file() {
                Some(f) => {
                    let v = vec![f.duplicate()];
                    assert(v@ =~= action_targets(self.state));
                    v
                },
                None => {
                    assert(Seq::<VFile>::empty() =~= action_targets(self.state));
                    Vec::new()
                },
            };
        }
        let ghost pred = |f: VFile| views(self.state.checked_paths@).contains(f.path@);
        let files = &self.state.current_dir_files;
        let mut out: Vec<VFile> = Vec::new();
        let mut i: usize = 0;
        assert(files@.subrange(0, 0) =~= Seq::<VFile>::empty());
        proof {
            reveal(Seq::filter);
        }
        while i < files.len()
            invariant
                files == &self.state.current_dir_files,
                i <= files@.len(),
                pred == (|f: VFile| views(self.state.checked_paths@).contains(f.path@)),
                out@ == files@.subrange(0, i as int).filter(pred),
            decreases files@.len() - i,
        {
            let ghost s = files@.subrange(0, i as int);
            assert(files@.subrange(0, i + 1) =~= s.push(files@[i as int]));
            assert(s.push(files@[i as int]).drop_last() =~= s);
            proof {
                reveal(Seq::filter);
            }
            if self.state.is_checked(&files[i]) {
                out.push(files[i].duplicate());
            }
            i += 1;
        }
        assert(files@.subrange(0, files@.len() as int) =~= files@);
        out
    }

    /// A prompt's title for an action on `files` (see `spec_action_title`).
    pub fn action_title(action_name: &str, files: &[VFile]) -> (r: String)
        ensures
            r@ == spec_action_title(action_name@, files@),
    {
        let mut t = owned(action_name);
        push_str(&mut t, " ");
        if files.len() == 1 {
            match files[0].file_name() {
                Some(n) => push_str(&mut t, n.as_str()),
                None => push_str(&mut t, "(unknown)"),
            }
            push_str(&mut t, "?");
        } else {
            push_decimal(&mut t, files.len() as u64);
            push_str(&mut t, " files?");
        }
        t
    }

    fn prompt_transfer(&self, label: &str, is_move: bool) -> (a: Action)
        requires
            self.wf(),
        ensures
            is_transfer_prompt(a, self.state, label@, is_move),
    {
        let files = self.collect_action_targets();
        if files.len() == 0 {
            return Action::Nothing;
        }
        let title = FilerComponent::action_title(label, files.as_slice());
        let value = if files.len() == 1 { owned(files[0].absolute_path()) } else { owned(self.state.current_dir_path()) };
        let cursor = value.as_str().unicode_len();
        let action = if is_move { FileAction::Move { files } } else { FileAction::Copy { files } };
        Action::SetPromptMode(Box::new(PromptMode::File {
            title,
            value,
            cursor,
            candidate_type: FileActionCandidateType::All,
            candidates: Vec::new(),
            candidate_index: None,
            action,
        }))
    }

    pub fn prompt_copy(&self) -> (a: Action)
        requires
            self.wf(),
        ensures
            is_transfer_prompt(a, self.state, "Copy to"@, false),
    {
        self.prompt_transfer("Copy to", false)
    }

    pub fn prompt_move(&self) -> (a: Action)
        requires
            self.wf(),
        ensures
            is_transfer_prompt(a, self.state, "Move to"@, true),
    {
        self.prompt_transfer("Move to", true)
    }

    pub fn prompt_delete(&self) -> (a: Action)
        requires
            self.wf(),
        ensures
            is_delete_prompt(a, self.state),
    {
        let files = self.collect_action_targets();
        if files.len() == 0 {
            return Action::Nothing;
        }
        let title = FilerComponent::action_title("Delete", files.as_slice());
        Action::SetPromptMode(Box::new(PromptMode::Confirm { title, action: ConfirmAction::Delete { files } }))
    }

    fn prompt_create(&self, is_dir: bool) -> (a: Action)
        ensures
            is_create_prompt(a, self.state, is_dir),
    {
        let dir = self.state.current_dir.duplicate();
        match dir.file_name() {
            Some(name) => {
                let mut title = if is_dir { owned("Create directory in ") } else { owned("Create file in ") };
                push_str(&mut title, name.as_str());
                let action = if is_dir { TextAction::Mkdir { dir } } else { TextAction::Touch { dir } };
                Action::SetPromptMode(Box::new(PromptMode::Text { title, value: String::new(), cursor: 0, action: Box::new(action) }))
            },
            None => Action::Nothing,
        }
    }

    /// A prompt for the name of a link to the cursor file.
    pub fn prompt_symlink(&self) -> (a: Action)
        requires
            self.wf(),
        ensures
            is_symlink_prompt(a, self.state),
    {
        match self.state.selected {
            Some(i) => {
                let f = &self.state.current_dir_files[i];
                let mut title = owned("Create symlink to ");
                push_str(&mut title, f.absolute_path());
                let action = TextAction::Symlink { dir: self.state.current_dir.duplicate(), target: f.duplicate() };
                Action::SetPromptMode(Box::new(PromptMode::Text { title, value: String::new(), cursor: 0, action: Box::new(action) }))
            },
            None => Action::Nothing,
        }
    }

    pub fn prompt_mkdir(&self) -> (a: Action)
        ensures
            is_create_prompt(a, self.state, true),
    {
        self.prompt_create(true)
    }

    pub fn prompt_touch(&self) -> (a: Action)
        ensures
            is_create_prompt(a, self.state, false),
    {
        self.prompt_create(false)
    }

    pub fn prompt_zip(&self) -> (a: Action)
        requires
            self.wf(),
        ensures
            is_zip_prompt(a, self.state),
    {
        let files = self.collect_action_targets();
        if files.len() == 0 {
            return Action::Nothing;
        }
        let dir = self.state.current_dir.duplicate();
        let default_name = if self.state.checked_paths.len() == 0 {
            let stem = match files[0].file_name() {
                Some(n) => crate::path::file_stem(n.as_str()),
                None => None,
            };
            match stem {
                Some(s) => {
                    let mut n = s;
                    push_str(&mut n, ".zip");
                    n
                },
                None => owned("archive.zip"),
            }
        } else {
            owned("files.zip")
        };
        let default_path = crate::path::join(dir.absolute_path(), default_name.as_str());
        let value = match crate::path::file_name(default_path.as_str()) {
            Some(n) => n,
            None => default_name,
        };
        let title = FilerComponent::action_title("Zip", files.as_slice());
        let cursor = value.as_str().unicode_len();
        Action::SetPromptMode(Box::new(PromptMode::Text { title, value, cursor, action: Box::new(TextAction::Zip { dir, files }) }))
    }

    pub fn prompt_rename(&self) -> (a: Action)
        requires
            self.wf(),
        ensures
            is_rename_prompt(a, self.state),
    {
        let file = match self.state.selected_file() {
            Some(f) => f,
            None => {
                return Action::Nothing;
            },
        };
        let name = match file.file_name() {
            Some(n) => n,
            None => {
                return Action::Nothing;
            },
        };
        let mut title = owned("Rename ");
        push_str(&mut title, name.as_str());
        let cursor = name.as_str().unicode_len();
        Action::SetPromptMode(Box::new(PromptMode::Text {
            title,
            value: name,
            cursor,
            action: Box::new(TextAction::Rename { file: file.duplicate() }),
        }))
    }

    /// A choice of the sort keys, the current one selected.
    pub fn prompt_sort(&self) -> (a: Action)
        ensures
            a matches Action::SetPromptMode(m) && *m matches PromptMode::Select { title, options, selected_index, action }
                && title@ == "Sort by"@ && views(options@) == sort_labels()
                && selected_index == spec_sort_key_index(self.state.sort_key) && action == SelectAction::Sort,
    {
        let options = SortKey::labels();
        Action::SetPromptMode(Box::new(PromptMode::Select {
            title: owned("Sort by"),
            options,
            selected_index: self.state.sort_key.index(),
            action: SelectAction::Sort,
        }))
    }

    /// An empty search that remembers the selected row.
    pub fn prompt_search(&self) -> (a: Action)
        ensures
            a matches Action::SetPromptMode(m) && *m matches PromptMode::Search { title, value, cursor, original_index }
                && title@ == "Search"@ && value@.len() == 0 && cursor == 0 && original_index == self.state.selected,
    {
        Action::SetPromptMode(Box::new(PromptMode::Search {
            title: owned("Search"),
            value: String::new(),
            cursor: 0,
            original_index: self.state.selected,
        }))
    }

    pub fn prompt_grep(&self) -> (a: Action)
        ensures
            a matches Action::SetPromptMode(m) && *m matches PromptMode::Text { title, value, cursor, action }
                && title@ == "Grep"@ && value@.len() == 0 && cursor == 0 && *action == TextAction::Grep,
    {
        Action::SetPromptMode(Box::new(PromptMode::Text { title: owned("Grep"), value: String::new(), cursor: 0, action: Box::new(TextAction::Grep) }))
    }

    /// The preview panel of the selected file, to be filled from the disk
    /// (it says `Loading...` until then); nothing without a selected file
    /// with a name.
    pub fn show_preview(&self) -> (a: Action)
        requires
            self.wf(),
        ensures
            match self.state.selected {
                Some(i) => match spec_file_name(self.state.current_dir_files@[i as int].path@) {
                    Some(n) => a matches Action::ShowSidePanel(p) && (*p matches SidePanel::Preview(c)
                        && c.title@ == crate::component::preview::preview_title(n)
                        && c.text_output.lines@.len() == 1 && c.text_output.lines@[0]@ == "Loading..."@),
                    None => a is Nothing,
                },
                None => a is Nothing,
            },
    {
        let file = match self.state.selected_file() {
            Some(f) => f,
            None => {
                return Action::Nothing;
            },
        };
        match file.file_name() {
            Some(n) => {
                let c = crate::component::preview::PreviewComponent::with_message(n.as_str(), owned("Loading..."));
                Action::ShowSidePanel(Box::new(SidePanel::Preview(c)))
            },
            None => Action::Nothing,
        }
    }

    /// A prompt for a shell command to run in the current directory.
    pub fn prompt_execute(&self) -> (a: Action)
        ensures
            a matches Action::SetPromptMode(m) && *m matches PromptMode::Text { title, value, cursor, action }
                && title@ == "Execute"@ && value@.len() == 0 && cursor == 0 && *action == (TextAction::Execute { dir: self.state.current_dir }),
    {
        Action::SetPromptMode(Box::new(PromptMode::Text {
            title: owned("Execute"),
            value: String::new(),
            cursor: 0,
            action: Box::new(TextAction::Execute { dir: self.state.current_dir.duplicate() }),
        }))
    }

    /// A prompt for the directory to unpack the selected archive into,
    /// named after the archive; nothing without a selected file with a name.
    pub fn prompt_unzip(&self) -> (a: Action)
        requires
            self.wf(),
        ensures
            match self.state.selected {
                Some(i) => match spec_file_stem(self.state.current_dir_files@[i as int].path@) {
                    Some(stem) => a matches Action::SetPromptMode(m) && *m matches PromptMode::Text { title, value, cursor, action }
                        && title@ == "Unzip to"@ && value@ == stem && cursor == stem.len()
                        && *action == (TextAction::Unzip { file: self.state.current_dir_files@[i as int], dir: self.state.current_dir }),
                    None => a is Nothing,
                },
                None => a is Nothing,
            },
    {
        let file = match self.state.selected_file() {
            Some(f) => f,
            None => {
                return Action::Nothing;
            },
        };
        let stem = match file.file_stem() {
            Some(s) => s,
            None => {
                return Action::Nothing;
            },
        };
        let cursor = stem.as_str().unicode_len();
        Action::SetPromptMode(Box::new(PromptMode::Text {
            title: owned("Unzip to"),
            value: stem,
            cursor,
            action: Box::new(TextAction::Unzip { file: file.duplicate(), dir: self.state.current_dir.duplicate() }),
        }))
    }

    /// The paths of the action's files (see `action_targets`) for the
    /// clipboard; nothing without files.
    pub fn yank_paths(&self) -> (a: Action)
        requires
            self.wf(),
        ensures
            action_targets(self.state).len() == 0 ==> a is Nothing,
            action_targets(self.state).len() > 0 ==> (a matches Action::Yank(ps) && views(ps@)
                == action_targets(self.state).map_values(|f: VFile| f.path@)),
    {
        let files = self.collect_action_targets();
        if files.len() == 0 {
            return Action::Nothing;
        }
        let mut paths: Vec<String> = Vec::new();
        let mut i: usize = 0;
        while i < files.len()
            invariant
                i <= files@.len(),
                paths@.len() == i,
                forall|j: int| 0 <= j < i ==> (#[trigger] paths@[j])@ == files@[j].path@,
            decreases files@.len() - i,
        {
            paths.push(owned(files[i].absolute_path()));
            i += 1;
        }
        assert(views(paths@) =~= files@.map_values(|f: VFile| f.path@));
        Action::Yank(paths)
    }

    /// A directory prompt to jump to, starting at the current directory.
    pub fn prompt_jump(&self) -> (a: Action)
        ensures
            a matches Action::SetPromptMode(m) && *m matches PromptMode::File { title, value, cursor, candidate_type, candidates, candidate_index, action }
                && title@ == "Jump"@ && value@ == self.state.current_dir.path@ && cursor == value@.len()
                && candidate_type == FileActionCandidateType::Directory && candidates@.len() == 0 && candidate_index is None
                && action == FileAction::Jump,
    {
        let value = owned(self.state.current_dir_path());
        let cursor = value.as_str().unicode_len();
        Action::SetPromptMode(Box::new(PromptMode::File {
            title: owned("Jump"),
            value,
            cursor,
            candidate_type: FileActionCandidateType::Directory,
            candidates: Vec::new(),
            candidate_index: None,
            action: FileAction::Jump,
        }))
    }

    /// Enter on a directory goes into it; on another file asks for it to be
    /// opened.
    pub fn enter_file(&mut self) -> (a: Action)
        requires
            old(self).wf(),
        ensures
            final(self).wf(),
            final(self).active == old(self).active,
            match old(self).state.selected {
                None => a is Nothing && *final(self) == *old(self),
                Some(i) => {
                    let f = old(self).state.current_dir_files@[i as int];
                    if f.metadata matches Some(m) && m.kind == crate::fs::file::FileKind::Directory {
                        a is Nothing && final(self).state.current_dir.path@ == f.path@
                            && (final(self).state.load_request matches Some(p) && p@ == f.path@)
                    } else {
                        a matches Action::OpenFile(p) && p@ == f.path@ && *final(self) == *old(self)
                    }
                },
            },
    {
        let (is_dir, path) = match self.state.selected_file() {
            Some(f) => (f.is_dir(), owned(f.absolute_path())),
            None => {
                return Action::Nothing;
            },
        };
        if is_dir {
            self.state.change_to(path.as_str());
            Action::Nothing
        } else {
            Action::OpenFile(path)
        }
    }

    /// The attribute panel of the selected file; an error when its metadata
    /// could not be read.
    pub fn show_attribute(&self) -> (r: Result<Action, String>)
        requires
            self.wf(),
        ensures
            self.state.selected is None ==> (r matches Ok(a) && a is Nothing),
            self.state.selected matches Some(i) ==> (self.state.current_dir_files@[i as int].metadata is None <==> r is Err),
            r matches Ok(Action::ShowSidePanel(p)) ==> (*p matches SidePanel::Attribute(c) && c.wf()
                && c.file == self.state.current_dir_files@[self.state.selected->0 as int]),
    {
        let file = match self.state.selected_file() {
            Some(f) => f,
            None => {
                return Ok(Action::Nothing);
            },
        };
        match AttributeComponent::new(file) {
            Ok(c) => Ok(Action::ShowSidePanel(Box::new(SidePanel::Attribute(c)))),
            Err(e) => Err(e),
        }
    }

    /// The file info panel of the selected file; `spawn` starts the task
    /// that gathers the info.
    pub fn show_file_info<S: Fn(&VFile) -> FileInfoHandle>(&self, spawn: &S) -> (a: Action)
        requires
            self.wf(),
            forall|f: &VFile| call_requires(*spawn, (f,)),
        ensures
            self.state.selected is None ==> a is Nothing,
            self.state.selected is Some ==> (a matches Action::ShowSidePanel(p) && *p is FileInfo),
    {
        let file = match self.state.selected_file() {
            Some(f) => f,
            None => {
                return Action::Nothing;
            },
        };
        let handle = spawn(file);
        Action::ShowSidePanel(Box::new(SidePanel::FileInfo(FileInfoComponent::new(handle))))
    }

    /// The tree panel around the selected file (or the current directory).
    pub fn show_tree<L: Fn(&str) -> Result<Vec<VFile>, String>>(&self, list: &L) -> (a: Action)
        requires
            self.wf(),
            forall|s: &str| call_requires(*list, (s,)),
        ensures
            a matches Action::ShowSidePanel(p) && *p matches SidePanel::Tree(t) && t.state.wf()
                && t.state.show_dot_file == self.state.show_dot_file,
    {
        let current = match self.state.selected_file() {
            Some(f) => owned(f.absolute_path()),
            None => owned(self.state.current_dir_path()),
        };
        Action::ShowSidePanel(Box::new(SidePanel::Tree(TreeComponent::new(current.as_str(), self.state.show_dot_file, list))))
    }

    /// The rows of the file list: one per file whose metadata could be
    /// read, in list order; `bookmarks` are the bookmarked paths.
    pub fn build_file_rows(&self, bookmarks: &[String]) -> (r: Vec<FileRow>)
        ensures
            r@.len() == listed(self.state.current_dir_files@).len(),
            forall|j: int| 0 <= j < r@.len() ==> row_shows(#[trigger] r@[j], listed(self.state.current_dir_files@)[j],
                views(self.state.checked_paths@), views(bookmarks@)),
    {
        let files = &self.state.current_dir_files;
        let ghost pred = |f: VFile| f.metadata is Some;
        let mut rows: Vec<FileRow> = Vec::new();
        let mut i: usize = 0;
        proof {
            reveal(Seq::filter);
        }
        assert(files@.subrange(0, 0) =~= Seq::<VFile>::empty());
        while i < files.len()
            invariant
                files == &self.state.current_dir_files,
                i <= files@.len(),
                pred == (|f: VFile| f.metadata is Some),
                rows@.len() == files@.subrange(0, i as int).filter(pred).len(),
                forall|j: int| 0 <= j < rows@.len() ==> row_shows(#[trigger] rows@[j], files@.subrange(0, i as int).filter(pred)[j],
                    views(self.state.checked_paths@), views(bookmarks@)),
            decreases files@.len() - i,
        {
            let ghost s = files@.subrange(0, i as int);
            assert(files@.subrange(0, i + 1) =~= s.push(files@[i as int]));
            assert(s.push(files@[i as int]).drop_last() =~= s);
            proof {
                reveal(Seq::filter);
            }
            if files[i].metadata.is_some() {
                let row = file_row(&files[i], self.state.checked_paths.as_slice(), bookmarks);
                rows.push(row);
            }
            i += 1;
        }
        assert(files@.subrange(0, files@.len() as int) =~= files@);
        rows
    }

    /// The list's title: the directory, the number of files, and
    /// `Loading...` while a listing is on its way.
    pub fn title(&self) -> (r: String)
        ensures
            r@ == self.state.current_dir.path@ + " ("@ + decimal(self.state.current_dir_files@.len()) + ")"@
                + if self.state.is_loading_spec() { " Loading..."@ } else { Seq::empty() },
    {
        let mut t = owned(self.state.current_dir_path());
        push_str(&mut t, " (");
        push_decimal(&mut t, self.state.current_dir_files.len() as u64);
        push_str(&mut t, ")");
        if self.state.is_loading() {
            push_str(&mut t, " Loading...");
        }
        t
    }

    /// The keys of the file list: the arrows move (Left/Right to the first
    /// and last row), Enter opens, Backspace goes up, Space checks the file
    /// and moves down, `.` shows or hides dot files, and letters open the
    /// prompts and panels.
    pub fn handle_event<L: Fn(&str) -> Result<Vec<VFile>, String>, S: Fn(&VFile) -> FileInfoHandle>(
        &mut self,
        key: Key,
        list: &L,
        spawn: &S,
    ) -> (r: Result<Action, String>)
        requires
            old(self).wf(),
            forall|s: &str| call_requires(*list, (s,)),
            forall|f: &VFile| call_requires(*spawn, (f,)),
        ensures
            final(self).wf(),
            final(self).active == old(self).active,
            filer_key_result(*old(self), key, *final(self), r),
    {
        match key {
            Key::Up => {
                self.state.prev();
                Ok(Action::Nothing)
            },
            Key::Down => {
                self.state.next();
                Ok(Action::Nothing)
            },
            Key::Left => {
                self.state.first();
                Ok(Action::Nothing)
            },
            Key::Right => {
                self.state.last();
                Ok(Action::Nothing)
            },
            Key::Enter => Ok(self.enter_file()),
            Key::Backspace => {
                self.state.change_dir_in_parent_dir();
                Ok(Action::Nothing)
            },
            Key::Char('q') => Ok(Action::Quit),
            Key::Char('c') => Ok(self.prompt_copy()),
            Key::Char('d') => Ok(self.prompt_delete()),
            Key::Char('k') => Ok(self.prompt_mkdir()),
            Key::Char('n') => Ok(self.prompt_touch()),
            Key::Char('p') => Ok(self.prompt_zip()),
            Key::Char('m') => Ok(self.prompt_move()),
            Key::Char('r') => Ok(self.prompt_rename()),
            Key::Char('s') => Ok(self.prompt_sort()),
            Key::Char('f') => Ok(self.prompt_search()),
            Key::Char('g') => Ok(self.prompt_grep()),
            Key::Char('j') => Ok(self.prompt_jump()),
            Key::Char('h') => Ok(Action::LaunchShell),
            Key::Char(' ') => {
                self.state.toggle_checked_file();
                self.state.next();
                Ok(Action::Nothing)
            },
            Key::Char('.') => {
                self.state.toggle_show_dot_file();
                Ok(Action::Nothing)
            },
            Key::Char('+') => match self.state.selected_file() {
                Some(f) => Ok(Action::AddBookmark(owned(f.absolute_path()))),
                None => Ok(Action::Nothing),
            },
            Key::Char('-') => match self.state.selected_file() {
                Some(f) => Ok(Action::RemoveBookmark(owned(f.absolute_path()))),
                None => Ok(Action::Nothing),
            },
            Key::Char('a') => self.show_attribute(),
            Key::Char('b') => Ok(Action::ShowBookmark),
            Key::Char('i') => Ok(self.show_file_info(spawn)),
            Key::Char('o') => Ok(Action::ShowSettings),
            Key::Char('t') => Ok(self.show_tree(list)),
            Key::Char('v') => Ok(self.show_preview()),
            Key::Char('x') => Ok(self.prompt_execute()),
            Key::Char('u') => Ok(self.prompt_unzip()),
            Key::Char('y') => Ok(self.yank_paths()),
            Key::Char('<') => Ok(Action::NavigateBack),
            Key::Char('>') => Ok(Action::NavigateForward),
            Key::Char('?') => Ok(Action::ShowHelp),
            Key::Char('e') => Ok(Action::OpenFile(owned(self.state.current_dir_path()))),
            Key::Char('~') => Ok(Action::NavigateHome),
            Key::Char('l') => Ok(self.prompt_symlink()),
            Key::Char('/') => Ok(self.prompt_filter()),
            Key::Char('A') => {
                self.state.toggle_check_all();
                Ok(Action::Nothing)
            },
            _ => Ok(Action::Nothing),
        }
    }
}

} // verus!
