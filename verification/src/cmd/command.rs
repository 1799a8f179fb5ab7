//! The commands a key can be bound to, and their dispatch.
use vstd::prelude::*;
use crate::cmd::{app, attribute, file_info, filer};
use crate::cmd::filer::prompt_after;
use crate::component::filer::{is_create_prompt, is_delete_prompt, is_rename_prompt, is_transfer_prompt, is_zip_prompt};
use crate::component::Action;
use crate::state::{PromptMode, SidePanel};
use crate::text::views;
use crate::fs::file::VFile;
use crate::fs::file_info_task::FileInfoHandle;
use crate::path::spec_parent;
use crate::state::app_state::AppState;
use crate::state::table_cursor::{spec_first, spec_last, spec_next, spec_prev};
use crate::store::{BookmarkStore, RootStore};

verus! {

pub enum Command {
    App(AppCommand),
    Filer(FilerCommand),
}

#[derive(Debug, Clone, Copy, PartialEq, Eq)]
pub enum AppCommand {
    Quit,
    Nothing,
}

#[derive(Debug, Clone, Copy, PartialEq, Eq)]
pub enum FilerCommand {
    MoveCursorUp,
    MoveCursorDown,
    MoveCursorLeft,
    MoveCursorRight,
    EnterFile,
    ChangeParentDir,
    PromptCopy,
    PromptDelete,
    PromptMkdir,
    PromptTouch,
    PromptZip,
    PromptMove,
    PromptRename,
    PromptSort,
    PromptSearch,
    PromptGrep,
    PromptJump,
    AddBookmark,
    RemoveBookmark,
    ShowBookmark,
    RefreshFiles,
    ToggleCheckedFile,
    ShowAttribute,
    ShowFileInfo,
    ToggleDotFiles,
    LaunchShell,
}

/// The commands that open a prompt and leave the file list as it is.
pub open spec fn opens_prompt(c: FilerCommand) -> bool {
    match c {
        FilerCommand::PromptCopy | FilerCommand::PromptDelete | FilerCommand::PromptMkdir | FilerCommand::PromptTouch
        | FilerCommand::PromptZip | FilerCommand::PromptMove | FilerCommand::PromptRename | FilerCommand::PromptSort
        | FilerCommand::PromptSearch | FilerCommand::PromptGrep | FilerCommand::PromptJump => true,
        _ => false,
    }
}

/// A command that changes the bookmarks.
pub open spec fn edits_bookmarks_cmd(c: Command) -> bool {
    c matches Command::Filer(f) && edits_bookmarks(f)
}

/// The commands that change the bookmarks.
pub open spec fn edits_bookmarks(c: FilerCommand) -> bool {
    c == FilerCommand::AddBookmark || c == FilerCommand::RemoveBookmark
}

impl Command {
    /// Runs the command on the state (and the store, for bookmarks).
    /// `open` opens a file with its application, `launch` runs a shell in
    /// a directory, `spawn` starts gathering a file's info.
    pub fn exec<
        O: Fn(&str) -> Result<(), String>,
        L: Fn(&str) -> Result<(), String>,
        S: Fn(&VFile) -> FileInfoHandle,
        B: Fn(&BookmarkStore) -> Result<(), String>,
    >(
        self,
        state: &mut AppState,
        store: &mut RootStore,
        open: &O,
        launch: &L,
        spawn: &S,
        save: &B,
    ) -> (r: Result<(), String>)
        requires
            old(state).wf(),
            old(store).wf(),
            forall|b: &BookmarkStore| call_requires(*save, (b,)),
            forall|s: &str| call_requires(*open, (s,)),
            forall|s: &str| call_requires(*launch, (s,)),
            forall|f: &VFile| call_requires(*spawn, (f,)),
        ensures
            final(state).wf(),
            final(store).wf(),
            !(self matches Command::Filer(c) && edits_bookmarks(c)) ==> *final(store) == *old(store),
            self == Command::App(AppCommand::Quit) ==> r is Ok && !final(state).running && final(state).filer == old(state).filer,
            self == Command::App(AppCommand::Quit) ==> *final(state) == old(state).with_running(false),
            (self == Command::Filer(FilerCommand::MoveCursorUp) || self == Command::Filer(FilerCommand::MoveCursorDown)
                || self == Command::Filer(FilerCommand::MoveCursorLeft) || self == Command::Filer(FilerCommand::MoveCursorRight))
                ==> *final(state) == old(state).with_filer(old(state).filer.with_selected(final(state).filer.selected)),
            self == Command::App(AppCommand::Nothing) ==> r is Ok && *final(state) == *old(state),
            self == Command::Filer(FilerCommand::MoveCursorUp) ==> r is Ok
                && final(state).filer.selected == spec_prev(old(state).filer.selected, old(state).filer.current_dir_files@.len()),
            self == Command::Filer(FilerCommand::MoveCursorDown) ==> r is Ok
                && final(state).filer.selected == spec_next(old(state).filer.selected, old(state).filer.current_dir_files@.len()),
            self == Command::Filer(FilerCommand::MoveCursorLeft) ==> r is Ok
                && final(state).filer.selected == spec_first(old(state).filer.current_dir_files@.len()),
            self == Command::Filer(FilerCommand::MoveCursorRight) ==> r is Ok
                && final(state).filer.selected == spec_last(old(state).filer.current_dir_files@.len()),
            self == Command::Filer(FilerCommand::ChangeParentDir) ==> r is Ok && match spec_parent(old(state).filer.current_dir.path@) {
                Some(p) => final(state).filer.current_dir.path@ == p,
                None => final(state).filer == old(state).filer,
            },
            self matches Command::Filer(c) && opens_prompt(c) ==> r is Ok && final(state).filer == old(state).filer,
            self == Command::Filer(FilerCommand::AddBookmark) ==> match old(state).filer.selected {
                Some(i) => final(store).bookmark.path_set() == old(store).bookmark.path_set().insert(old(state).filer.current_dir_files@[i as int].path@)
                    && call_ensures(*save, (&final(store).bookmark,), r),
                None => r is Ok && *final(store) == *old(store),
            },
            self == Command::Filer(FilerCommand::RemoveBookmark) ==> match old(state).filer.selected {
                Some(i) => final(store).bookmark.path_set() == old(store).bookmark.path_set().remove(old(state).filer.current_dir_files@[i as int].path@)
                    && call_ensures(*save, (&final(store).bookmark,), r),
                None => r is Ok && *final(store) == *old(store),
            },
            edits_bookmarks_cmd(self) ==> *final(state) == *old(state),
            self == Command::Filer(FilerCommand::ShowBookmark) ==> r is Ok
                && (final(state).bookmark matches Some(l) && l.paths@ == old(store).bookmark.paths@),
            self == Command::Filer(FilerCommand::RefreshFiles) ==> r is Ok
                && (final(state).filer.load_request matches Some(p) && p@ == old(state).filer.current_dir.path@),
            self == Command::Filer(FilerCommand::ToggleCheckedFile) ==> r is Ok
                && final(state).filer.selected == spec_next(old(state).filer.selected, old(state).filer.current_dir_files@.len()),
            self == Command::Filer(FilerCommand::ToggleDotFiles) ==> r is Ok && final(state).filer.show_dot_file == !old(state).filer.show_dot_file,
            self == Command::Filer(FilerCommand::ShowAttribute) || self == Command::Filer(FilerCommand::ShowFileInfo)
                || self == Command::Filer(FilerCommand::LaunchShell) ==> final(state).filer == old(state).filer,
            self == Command::Filer(FilerCommand::LaunchShell) ==> *final(state) == *old(state),
            self == Command::Filer(FilerCommand::MoveCursorUp) ==> (r is Ok)
                && (final(state).wf())
                && (final(state).filer.selected == spec_prev(old(state).filer.selected, old(state).filer.current_dir_files@.len()))
                && (*final(state) == old(state).with_filer(old(state).filer.with_selected(final(state).filer.selected))),
            self == Command::Filer(FilerCommand::MoveCursorDown) ==> (r is Ok)
                && (final(state).wf())
                && (final(state).filer.selected == spec_next(old(state).filer.selected, old(state).filer.current_dir_files@.len()))
                && (*final(state) == old(state).with_filer(old(state).filer.with_selected(final(state).filer.selected))),
            self == Command::Filer(FilerCommand::MoveCursorLeft) ==> (r is Ok)
                && (final(state).wf())
                && (final(state).filer.selected == spec_first(old(state).filer.current_dir_files@.len()))
                && (*final(state) == old(state).with_filer(old(state).filer.with_selected(final(state).filer.selected))),
            self == Command::Filer(FilerCommand::MoveCursorRight) ==> (r is Ok)
                && (final(state).wf())
                && (final(state).filer.selected == spec_last(old(state).filer.current_dir_files@.len()))
                && (*final(state) == old(state).with_filer(old(state).filer.with_selected(final(state).filer.selected))),
            self == Command::Filer(FilerCommand::EnterFile) ==> (final(state).wf())
                && (old(state).filer.selected is None ==> r is Ok && final(state).filer == old(state).filer)
                && (old(state).filer.selected matches Some(i) ==> (old(state).filer.current_dir_files@[i as int].metadata matches Some(m)
                ==> (m.kind == crate::fs::file::FileKind::Directory ==> (r is Ok
                && final(state).filer.current_dir.path@ == old(state).filer.current_dir_files@[i as int].path@))))
                && (*final(state) == old(state).with_filer(final(state).filer)),
            self == Command::Filer(FilerCommand::ChangeParentDir) ==> (r is Ok)
                && (final(state).wf())
                && (spec_parent(old(state).filer.current_dir.path@) matches Some(p) ==> final(state).filer.current_dir.path@ == p)
                && (spec_parent(old(state).filer.current_dir.path@) is None ==> final(state).filer == old(state).filer)
                && (*final(state) == old(state).with_filer(final(state).filer)),
            self == Command::Filer(FilerCommand::PromptCopy) ==> (r is Ok)
                && (final(state).wf())
                && (final(state).filer == old(state).filer)
                && (exists|a: Action| #[trigger] is_transfer_prompt(a, old(state).filer, "Copy to"@, false) && final(state).prompt == prompt_after(a, old(state).prompt))
                && (*final(state) == old(state).with_prompt(final(state).prompt)),
            self == Command::Filer(FilerCommand::PromptDelete) ==> (r is Ok)
                && (final(state).wf())
                && (final(state).filer == old(state).filer)
                && (exists|a: Action| #[trigger] is_delete_prompt(a, old(state).filer) && final(state).prompt == prompt_after(a, old(state).prompt))
                && (*final(state) == old(state).with_prompt(final(state).prompt)),
            self == Command::Filer(FilerCommand::PromptMkdir) ==> (r is Ok)
                && (final(state).wf())
                && (final(state).filer == old(state).filer)
                && (exists|a: Action| #[trigger] is_create_prompt(a, old(state).filer, true) && final(state).prompt == prompt_after(a, old(state).prompt))
                && (*final(state) == old(state).with_prompt(final(state).prompt)),
            self == Command::Filer(FilerCommand::PromptTouch) ==> (r is Ok)
                && (final(state).wf())
                && (final(state).filer == old(state).filer)
                && (exists|a: Action| #[trigger] is_create_prompt(a, old(state).filer, false) && final(state).prompt == prompt_after(a, old(state).prompt))
                && (*final(state) == old(state).with_prompt(final(state).prompt)),
            self == Command::Filer(FilerCommand::PromptZip) ==> (r is Ok)
                && (final(state).wf())
                && (final(state).filer == old(state).filer)
                && (exists|a: Action| #[trigger] is_zip_prompt(a, old(state).filer) && final(state).prompt == prompt_after(a, old(state).prompt))
                && (*final(state) == old(state).with_prompt(final(state).prompt)),
            self == Command::Filer(FilerCommand::PromptMove) ==> (r is Ok)
                && (final(state).wf())
                && (final(state).filer == old(state).filer)
                && (exists|a: Action| #[trigger] is_transfer_prompt(a, old(state).filer, "Move to"@, true) && final(state).prompt == prompt_after(a, old(state).prompt))
                && (*final(state) == old(state).with_prompt(final(state).prompt)),
            self == Command::Filer(FilerCommand::PromptRename) ==> (r is Ok)
                && (final(state).wf())
                && (final(state).filer == old(state).filer)
                && (exists|a: Action| #[trigger] is_rename_prompt(a, old(state).filer) && final(state).prompt == prompt_after(a, old(state).prompt))
                && (*final(state) == old(state).with_prompt(final(state).prompt)),
            self == Command::Filer(FilerCommand::PromptSort) ==> (r is Ok)
                && (final(state).wf())
                && (final(state).filer == old(state).filer)
                && (final(state).prompt matches PromptMode::Select { title, selected_index, .. } && title@ == "Sort by"@
                && selected_index == crate::state::spec_sort_key_index(old(state).filer.sort_key))
                && (*final(state) == old(state).with_prompt(final(state).prompt)),
            self == Command::Filer(FilerCommand::PromptSearch) ==> (r is Ok)
                && (final(state).wf())
                && (final(state).filer == old(state).filer)
                && (final(state).prompt matches PromptMode::Search { title, value, original_index, .. } && title@ == "Search"@
                && value@.len() == 0 && original_index == old(state).filer.selected)
                && (*final(state) == old(state).with_prompt(final(state).prompt)),
            self == Command::Filer(FilerCommand::PromptGrep) ==> (r is Ok)
                && (final(state).wf())
                && (final(state).filer == old(state).filer)
                && (final(state).prompt matches PromptMode::Text { title, value, .. } && title@ == "Grep"@ && value@.len() == 0)
                && (*final(state) == old(state).with_prompt(final(state).prompt)),
            self == Command::Filer(FilerCommand::LaunchShell) ==> (final(state).wf())
                && (*final(state) == *old(state))
                && (exists|s: &str| s@ == old(state).filer.current_dir.path@ && #[trigger] call_ensures(*launch, (s,), r)),
            self == Command::Filer(FilerCommand::PromptJump) ==> (r is Ok)
                && (final(state).wf())
                && (final(state).filer == old(state).filer)
                && (final(state).prompt matches PromptMode::File { title, value, .. } && title@ == "Jump"@
                && value@ == old(state).filer.current_dir.path@)
                && (*final(state) == old(state).with_prompt(final(state).prompt)),
            self == Command::Filer(FilerCommand::AddBookmark) ==> (final(store).wf())
                && (match old(state).filer.selected {
                Some(i) => final(store).bookmark.path_set() == old(store).bookmark.path_set().insert(old(state).filer.current_dir_files@[i as int].path@)
                    && *final(store) == (RootStore { bookmark: final(store).bookmark, ..*old(store) })
                    && call_ensures(*save, (&final(store).bookmark,), r),
                None => r is Ok && *final(store) == *old(store),
            }),
            self == Command::Filer(FilerCommand::RemoveBookmark) ==> (final(store).wf())
                && (match old(state).filer.selected {
                Some(i) => final(store).bookmark.path_set() == old(store).bookmark.path_set().remove(old(state).filer.current_dir_files@[i as int].path@)
                    && *final(store) == (RootStore { bookmark: final(store).bookmark, ..*old(store) })
                    && call_ensures(*save, (&final(store).bookmark,), r),
                None => r is Ok && *final(store) == *old(store),
            }),
            self == Command::Filer(FilerCommand::ShowBookmark) ==> (r is Ok)
                && (final(state).wf())
                && (*final(store) == *old(store))
                && (final(state).filer == old(state).filer)
                && (final(state).bookmark matches Some(l) && l.paths@ == old(store).bookmark.paths@)
                && (*final(state) == old(state).with_bookmark(final(state).bookmark)),
            self == Command::Filer(FilerCommand::RefreshFiles) ==> (r is Ok)
                && (final(state).wf())
                && (final(state).filer.load_request matches Some(p) && p@ == old(state).filer.current_dir.path@)
                && (*final(state) == old(state).with_filer(final(state).filer)),
            self == Command::Filer(FilerCommand::ToggleCheckedFile) ==> (r is Ok)
                && (final(state).wf())
                && (final(state).filer.current_dir_files == old(state).filer.current_dir_files)
                && (final(state).filer.selected == spec_next(old(state).filer.selected, old(state).filer.current_dir_files@.len()))
                && (match old(state).filer.selected {
                Some(i) => views(final(state).filer.checked_paths@).to_set() == (
                    if views(old(state).filer.checked_paths@).contains(old(state).filer.current_dir_files@[i as int].path@) {
                        views(old(state).filer.checked_paths@).to_set().remove(old(state).filer.current_dir_files@[i as int].path@)
                    } else {
                        views(old(state).filer.checked_paths@).to_set().insert(old(state).filer.current_dir_files@[i as int].path@)
                    }),
                None => final(state).filer.checked_paths == old(state).filer.checked_paths,
            })
                && (*final(state) == old(state).with_filer(
                old(state).filer.with_checked_paths(final(state).filer.checked_paths).with_selected(final(state).filer.selected))),
            self == Command::Filer(FilerCommand::ShowAttribute) ==> (final(state).wf())
                && (final(state).filer == old(state).filer)
                && ((old(state).side_panel is Some || old(state).filer.selected is None) ==> r is Ok && final(state).side_panel == old(state).side_panel)
                && (old(state).side_panel is None ==> (old(state).filer.selected matches Some(i) ==> ((
                old(state).filer.current_dir_files@[i as int].metadata is None <==> r is Err)
                && (r is Ok ==> (final(state).side_panel matches Some(SidePanel::Attribute(c))
                    && c.file == old(state).filer.current_dir_files@[i as int])))))
                && (r is Err ==> *final(state) == *old(state))
                && (*final(state) == old(state).with_side_panel(final(state).side_panel)),
            self == Command::Filer(FilerCommand::ShowFileInfo) ==> (r is Ok)
                && (final(state).wf())
                && (final(state).filer == old(state).filer)
                && ((old(state).side_panel is Some || old(state).filer.selected is None) ==> final(state).side_panel == old(state).side_panel)
                && (old(state).side_panel is None && old(state).filer.selected is Some ==> (final(state).side_panel matches Some(p) && p is FileInfo))
                && ((old(state).side_panel is Some || old(state).filer.selected is None) ==> *final(state) == *old(state))
                && (old(state).side_panel is None ==> (old(state).filer.selected matches Some(i) ==> (
                final(state).side_panel matches Some(SidePanel::FileInfo(c)) && c.title@.len() == 0 && c.text_output.lines@.len() == 0
                && c.text_output.scroll == 0 && (c.handle matches Some(h)
                && call_ensures(*spawn, (&old(state).filer.current_dir_files@[i as int],), h)))))
                && (*final(state) == old(state).with_side_panel(final(state).side_panel)),
            self == Command::Filer(FilerCommand::ToggleDotFiles) ==> (r is Ok)
                && (final(state).wf())
                && (final(state).filer.show_dot_file == !old(state).filer.show_dot_file)
                && (*final(state) == old(state).with_filer(final(state).filer)),
    {
        match self {
            Command::App(cmd) => match cmd {
                AppCommand::Quit => app::quit(state),
                AppCommand::Nothing => Ok(()),
            },
            Command::Filer(cmd) => match cmd {
                FilerCommand::MoveCursorUp => filer::up_cursor(state),
                FilerCommand::MoveCursorDown => filer::down_cursor(state),
                FilerCommand::MoveCursorLeft => filer::first_cursor(state),
                FilerCommand::MoveCursorRight => filer::last_cursor(state),
                FilerCommand::EnterFile => filer::enter_file(state, open),
                FilerCommand::ChangeParentDir => filer::change_to_parent(state),
                FilerCommand::PromptCopy => filer::prompt_copy(state),
                FilerCommand::PromptDelete => filer::prompt_delete(state),
                FilerCommand::PromptMkdir => filer::prompt_mkdir(state),
                FilerCommand::PromptTouch => filer::prompt_touch(state),
                FilerCommand::PromptZip => filer::prompt_zip(state),
                FilerCommand::PromptMove => filer::prompt_move(state),
                FilerCommand::PromptRename => filer::prompt_rename(state),
                FilerCommand::PromptSort => filer::prompt_sort(state),
                FilerCommand::PromptSearch => filer::prompt_search(state),
                FilerCommand::PromptGrep => filer::prompt_grep(state),
                FilerCommand::LaunchShell => filer::launch_shell(state, launch),
                FilerCommand::PromptJump => filer::prompt_jump(state),
                FilerCommand::AddBookmark => filer::add_bookmark(state, store, save),
                FilerCommand::RemoveBookmark => filer::remove_bookmark(state, store, save),
                FilerCommand::ShowBookmark => filer::show_bookmark(state, store),
                FilerCommand::RefreshFiles => filer::refresh_files(state),
                FilerCommand::ToggleCheckedFile => filer::toggle_checked_file(state),
                FilerCommand::ShowAttribute => attribute::show_attribute(state),
                FilerCommand::ShowFileInfo => file_info::show_file_info(state, spawn),
                FilerCommand::ToggleDotFiles => filer::toggle_dot_files(state),
            },
        }
    }
}

} // verus!
