//! The application's decisions: what each action of a panel does to the
//! state, what outside work it calls for, and what happens between two
//! keys. The terminal, the disk and the other threads are the caller's.
use vstd::prelude::*;
use crate::app_context::AppContext;
use crate::component::bookmark::BookmarkComponent;
use crate::component::prompt::{execute_prompt_action, PromptComponent, PromptEffect};
use crate::component::filer::filer_key_result;
use crate::component::settings::SettingsComponent;
use crate::component::Action;
use crate::fs::file::VFile;
use crate::fs::file_info_task::FileInfoHandle;
use crate::key::Key;
use crate::state::{panel_wf, PromptMode, SidePanel, StartupDirectory};
use crate::store::RootStore;
use crate::text::owned;
use crate::state::table_cursor::{spec_next, spec_prev};
use crate::state::filer_context::FilerContext;

verus! {

/// Preview rebuilds while n/p are held down come at most this often.
pub const PREVIEW_REBUILD_THROTTLE_MS: u64 = 120;

/// Outside work an action calls for.
pub enum AppEffect {
    Nothing,
    /// Start the user's shell in `dir`, and come back after it exits.
    LaunchShell { dir: String },
    /// Run `command` with the user's shell in `dir`.
    ExecuteCommand { command: String, dir: String },
    /// Open the file with the desktop's application for it.
    OpenFile(String),
    /// Put the paths on the clipboard.
    Yank(Vec<String>),
    /// Change the permission bits of the file at `path` to `mode`.
    SetPermissions { path: String, mode: u32 },
    /// Write the bookmarks to disk.
    SaveBookmarks,
    /// Write the settings to disk.
    SaveSettings,
    /// Carry out a confirmed prompt.
    Prompt(PromptEffect),
    /// Go to the user's home directory, which the caller looks up.
    GoHome,
}

/// The state the application's loop works on.
pub struct App {
    pub ctx: AppContext,
    pub store: RootStore,
    /// The next change of directory came from the history: do not record
    /// it again.
    pub skip_history_add: bool,
    /// The preview's file changed and its panel has not been rebuilt.
    pub preview_dirty: bool,
}

/// Whether a side panel keeps its invariant (every panel the library
/// builds does).
fn panel_is_sound(p: &SidePanel) -> (r: bool)
    ensures
        r == panel_wf(*p),
{
    match p {
        SidePanel::Attribute(c) => c.is_sound(),
        SidePanel::Tree(c) => match c.state.selected {
            Some(i) => i < c.state.flat_nodes.len(),
            None => true,
        },
        SidePanel::Grep(c) => match c.state.selected {
            Some(i) => i < c.state.paths.len(),
            None => true,
        },
        SidePanel::Bookmark(c) => match c.state.selected {
            Some(i) => i < c.state.paths.len(),
            None => true,
        },
        _ => true,
    }
}

/// The path prompt's current candidate is one of its candidates.
fn mode_is_sound(m: &PromptMode) -> (r: bool)
    ensures
        r == crate::component::prompt::mode_wf(*m),
{
    match m {
        PromptMode::File { candidates, candidate_index, .. } => match candidate_index {
            Some(i) => *i < candidates.len(),
            None => true,
        },
        _ => true,
    }
}

/// The startup directory the settings ask for: none for the working
/// directory, the home directory, the last visited directory (when it
/// still is a directory; else the home directory), or the given one.
pub open spec fn spec_startup_dir(setting: StartupDirectory, last: Option<Seq<char>>, last_is_dir: bool, home: Option<Seq<char>>) -> Option<Seq<char>> {
    match setting {
        StartupDirectory::CurrentDirectory => None,
        StartupDirectory::HomeDirectory => home,
        StartupDirectory::LastDirectory => match last {
            Some(l) => if last_is_dir { Some(l) } else { home },
            None => home,
        },
        StartupDirectory::SpecificDirectory(p) => Some(p@),
    }
}

/// The prompt's cursor can move one further (it always can, short of the
/// largest index).
fn cursor_has_room_exec(m: &PromptMode) -> (r: bool)
    ensures
        r == crate::component::prompt::cursor_has_room(*m),
{
    match m {
        PromptMode::Text { cursor, .. } => *cursor < usize::MAX,
        PromptMode::File { cursor, .. } => *cursor < usize::MAX,
        PromptMode::Search { cursor, .. } => *cursor < usize::MAX,
        _ => true,
    }
}

impl App {
    pub open spec fn wf(&self) -> bool {
        self.ctx.wf() && self.store.wf()
    }

    /// A running application on `store`, its tab not yet in a directory.
    pub fn new(store: RootStore) -> (r: App)
        requires
            store.wf(),
        ensures
            r.wf(),
            r.ctx.running,
            r.store == store,
            !r.skip_history_add,
            !r.preview_dirty,
    {
        App { ctx: AppContext::new(), store, skip_history_add: false, preview_dirty: false }
    }

    /// Where to start: see `spec_startup_dir`; `home` is the user's home
    /// directory and `is_dir` says whether a path is a directory.
    pub fn resolve_startup_directory<D: Fn(&str) -> bool>(&self, home: Option<String>, is_dir: &D) -> (r: Option<String>)
        requires
            self.wf(),
            forall|s: &str| call_requires(*is_dir, (s,)),
        ensures
            match self.store.settings.startup_directory {
                StartupDirectory::LastDirectory => match self.store.history.entries@.len() > 0 {
                    true => exists|b: bool| crate::component::prompt::said(*is_dir, self.store.history.entries@[self.store.history.position as int]@, b)
                        && (match r { Some(p) => Some(p@), None => None::<Seq<char>> }) == spec_startup_dir(self.store.settings.startup_directory,
                            Some(self.store.history.entries@[self.store.history.position as int]@), b,
                            match home { Some(h) => Some(h@), None => None::<Seq<char>> }),
                    false => (match r { Some(p) => Some(p@), None => None::<Seq<char>> }) == spec_startup_dir(self.store.settings.startup_directory,
                            None, false, match home { Some(h) => Some(h@), None => None::<Seq<char>> }),
                },
                _ => (match r { Some(p) => Some(p@), None => None::<Seq<char>> }) == spec_startup_dir(self.store.settings.startup_directory,
                    None, false, match home { Some(h) => Some(h@), None => None::<Seq<char>> }),
            },
    {
        match self.store.settings.startup_directory() {
            StartupDirectory::CurrentDirectory => None,
            StartupDirectory::HomeDirectory => home,
            StartupDirectory::LastDirectory => match self.store.history.current() {
                Some(last) => {
                    let d = is_dir(last);
                    assert(crate::component::prompt::said(*is_dir, last@, d));
                    if d { Some(owned(last)) } else { home }
                },
                None => home,
            },
            StartupDirectory::SpecificDirectory(p) => Some(p.clone()),
        }
    }

    /// Shows an error on the prompt line.
    pub fn set_error(&mut self, message: String)
        requires
            old(self).wf(),
        ensures
            final(self).wf(),
            final(self).ctx.prompt.mode == (PromptMode::Error { message }),
            final(self).ctx.running == old(self).ctx.running,
            final(self).store == old(self).store,
            final(self).skip_history_add == old(self).skip_history_add,
            final(self).preview_dirty == old(self).preview_dirty,
            final(self).ctx.contexts == old(self).ctx.contexts,
            final(self).ctx.active == old(self).ctx.active,
            final(self).ctx.side_panel == old(self).ctx.side_panel,
    {
        self.ctx.prompt.set_error(message);
    }

    /// Does what a panel's action asks: changes the state, and names the
    /// outside work it calls for. `is_dir` says whether a path is a
    /// directory.
    pub fn handle_action<D: Fn(&str) -> bool>(&mut self, action: Action, is_dir: &D) -> (r: Result<AppEffect, String>)
        requires
            old(self).wf(),
            forall|s: &str| call_requires(*is_dir, (s,)),
        ensures
            final(self).wf(),
            action is Nothing ==> (r matches Ok(e) && e is Nothing) && final(self).ctx == old(self).ctx,
            action is Quit ==> (r matches Ok(e) && e is Nothing) && !final(self).ctx.running,
            action is LaunchShell ==> (r matches Ok(AppEffect::LaunchShell { dir })
                && dir@ == old(self).ctx.contexts@[old(self).ctx.active as int].filer.state.current_dir.path@),
            action is CloseSidePanel ==> (r matches Ok(e) && e is Nothing) && final(self).ctx.side_panel is None && !final(self).preview_dirty,
            action matches Action::AddBookmark(p) ==> (r matches Ok(e) && e is SaveBookmarks)
                && final(self).store.bookmark.path_set() == old(self).store.bookmark.path_set().insert(p@),
            action matches Action::RemoveBookmark(p) ==> (r matches Ok(e) && e is SaveBookmarks)
                && final(self).store.bookmark.path_set() == old(self).store.bookmark.path_set().remove(p@),
            action matches Action::ExecuteCommand(c, d) ==> (r matches Ok(AppEffect::ExecuteCommand { command, dir }) && command == c && dir == d),
            action matches Action::OpenFile(p) ==> (r matches Ok(AppEffect::OpenFile(q)) && q == p),
            action matches Action::Yank(ps) ==> (r matches Ok(AppEffect::Yank(qs)) && qs == ps),
            action is NavigateHome ==> (r matches Ok(e) && e is GoHome) && *final(self) == *old(self),
            action matches Action::SetPermissions(p, m) ==> (r matches Ok(AppEffect::SetPermissions { path, mode }) && path == p && mode == m),
            action matches Action::NavigateTo(p) ==> final(self).ctx.side_panel is None
                && (exists|d: bool| #[trigger] crate::component::prompt::said(*is_dir, p@, d) && crate::state::filer::FilerState::jumped(
                    old(self).ctx.contexts@[old(self).ctx.active as int].filer.state, p@, d,
                    final(self).ctx.contexts@[old(self).ctx.active as int].filer.state, r is Ok))
                && final(self).ctx.active == old(self).ctx.active,
            action is ShowBookmark ==> (r matches Ok(e) && e is Nothing) && (old(self).ctx.side_panel is None ==> (
                final(self).ctx.side_panel matches Some(SidePanel::Bookmark(b)) && b.state.paths@ == old(self).store.bookmark.paths@)),
            action is ShowSettings ==> (r matches Ok(e) && e is Nothing) && (old(self).ctx.side_panel is None ==> (
                final(self).ctx.side_panel matches Some(SidePanel::Settings(s))
                && s.startup_dir == old(self).store.settings.startup_directory)),
            action matches Action::SaveSettings(d) ==> (r matches Ok(e) && e is SaveSettings)
                && final(self).store.settings.startup_directory == *d && final(self).ctx.side_panel is None,
            action is CancelPrompt ==> (r matches Ok(e) && e is Nothing) && final(self).ctx.prompt.mode is Idle,
            action matches Action::SetPromptMode(m) ==> (r matches Ok(e) && e is Nothing)
                && (crate::component::prompt::mode_wf(*m) ==> final(self).ctx.prompt.mode == *m),
            action matches Action::ExecutePrompt(m) ==> exists|e: Result<PromptEffect, String>|
                #[trigger] crate::component::prompt::prompt_executed(old(self).ctx, *m, *is_dir, e, final(self).ctx) && match e {
                    Ok(x) => r == Ok::<AppEffect, String>(AppEffect::Prompt(x)),
                    Err(s) => r == Err::<AppEffect, String>(s),
                },
            action matches Action::Error(m) ==> (r matches Ok(e) && e is Nothing) && final(self).ctx.prompt.mode == (PromptMode::Error { message: m }),
            action is ShowHelp ==> (r matches Ok(e) && e is Nothing) && (old(self).ctx.side_panel is None ==> (final(self).ctx.side_panel matches Some(p) && p is Help))
                && (old(self).ctx.side_panel is Some ==> final(self).ctx.side_panel == old(self).ctx.side_panel),
            action matches Action::ShowSidePanel(p) ==> (r matches Ok(e) && e is Nothing)
                && (old(self).ctx.side_panel is Some ==> final(self).ctx.side_panel == old(self).ctx.side_panel)
                && (old(self).ctx.side_panel is None && panel_wf(*p) ==> final(self).ctx.side_panel == Some(*p)
                    && (*p is Preview ==> final(self).preview_dirty)),
            action matches Action::SearchUpdate(v) ==> (r matches Ok(e) && e is Nothing)
                && final(self).ctx.contexts@[final(self).ctx.active as int].filer.state.current_dir_files
                    == old(self).ctx.contexts@[old(self).ctx.active as int].filer.state.current_dir_files
                && crate::state::filer::found_forward(old(self).ctx.contexts@[old(self).ctx.active as int].filer.state.current_dir_files@, v@,
                    old(self).ctx.contexts@[old(self).ctx.active as int].filer.state.selected, 0,
                    final(self).ctx.contexts@[final(self).ctx.active as int].filer.state.selected),
            action matches Action::SearchNext(v) ==> (r matches Ok(e) && e is Nothing)
                && final(self).ctx.contexts@[final(self).ctx.active as int].filer.state.current_dir_files
                    == old(self).ctx.contexts@[old(self).ctx.active as int].filer.state.current_dir_files
                && crate::state::filer::found_forward(old(self).ctx.contexts@[old(self).ctx.active as int].filer.state.current_dir_files@, v@,
                    old(self).ctx.contexts@[old(self).ctx.active as int].filer.state.selected,
                    crate::state::filer::search_skip(old(self).ctx.contexts@[old(self).ctx.active as int].filer.state.selected),
                    final(self).ctx.contexts@[final(self).ctx.active as int].filer.state.selected),
            action matches Action::SearchPrev(v) ==> (r matches Ok(e) && e is Nothing)
                && final(self).ctx.contexts@[final(self).ctx.active as int].filer.state.current_dir_files
                    == old(self).ctx.contexts@[old(self).ctx.active as int].filer.state.current_dir_files
                && crate::state::filer::found_backward(old(self).ctx.contexts@[old(self).ctx.active as int].filer.state.current_dir_files@, v@,
                    old(self).ctx.contexts@[old(self).ctx.active as int].filer.state.selected,
                    final(self).ctx.contexts@[final(self).ctx.active as int].filer.state.selected),
            (action is PreviewNext || action is PreviewPrev) ==> (r matches Ok(e) && e is Nothing)
                && final(self).preview_dirty == (old(self).preview_dirty
                    || final(self).ctx.contexts@[final(self).ctx.active as int].filer.state.selected
                        != old(self).ctx.contexts@[old(self).ctx.active as int].filer.state.selected),
            action is CancelProgress ==> (r matches Ok(e) && e is Nothing) && match old(self).ctx.prompt.mode {
                PromptMode::Progress { processed, total, .. } => final(self).ctx.prompt.mode
                    == (PromptMode::Progress { phase: crate::state::Phase::Cancelling, processed, total }),
                _ => final(self).ctx.prompt.mode == old(self).ctx.prompt.mode,
            },
            action is NavigateBack ==> (r matches Ok(e) && e is Nothing) && (old(self).store.history.entries@.len() > 0
                && old(self).store.history.position > 0 ==> final(self).skip_history_add
                && final(self).ctx.contexts@[final(self).ctx.active as int].filer.state.current_dir.path@
                    == old(self).store.history.entries@[old(self).store.history.position - 1]@),
            action is NavigateForward ==> (r matches Ok(e) && e is Nothing) && (old(self).store.history.position + 1 < old(self).store.history.entries@.len()
                ==> final(self).skip_history_add
                && final(self).ctx.contexts@[final(self).ctx.active as int].filer.state.current_dir.path@
                    == old(self).store.history.entries@[old(self).store.history.position + 1]@),
            (action is NavigateBack || action is NavigateForward) ==> final(self).store.history.entries == old(self).store.history.entries
                && final(self).store.bookmark == old(self).store.bookmark && final(self).store.settings == old(self).store.settings,
            action is NavigateBack ==> final(self).store.history.position == crate::state::history::back_position(
                old(self).store.history.entries@.len(), old(self).store.history.position as nat),
            action is NavigateForward ==> final(self).store.history.position == crate::state::history::forward_position(
                old(self).store.history.entries@.len(), old(self).store.history.position as nat),
            action is NavigateBack && old(self).store.history.entries@.len() > 0 && old(self).store.history.position > 0
                ==> final(self).store.history.position == old(self).store.history.position - 1,
            action is NavigateForward && old(self).store.history.position + 1 < old(self).store.history.entries@.len()
                ==> final(self).store.history.position == old(self).store.history.position + 1,
            action is NavigateBack && !(old(self).store.history.entries@.len() > 0 && old(self).store.history.position > 0)
                ==> final(self).ctx == old(self).ctx && final(self).skip_history_add == old(self).skip_history_add,
            action is NavigateForward && !(old(self).store.history.position + 1 < old(self).store.history.entries@.len())
                ==> final(self).ctx == old(self).ctx && final(self).skip_history_add == old(self).skip_history_add,
    {
        match action {
            Action::Nothing => Ok(AppEffect::Nothing),
            Action::Quit => {
                self.ctx.quit();
                Ok(AppEffect::Nothing)
            },
            Action::Error(message) => {
                self.set_error(message);
                Ok(AppEffect::Nothing)
            },
            Action::LaunchShell => Ok(AppEffect::LaunchShell { dir: owned(self.ctx.active_filer().current_dir_path()) }),
            Action::CloseSidePanel => {
                self.ctx.side_panel = None;
                self.preview_dirty = false;
                Ok(AppEffect::Nothing)
            },
            Action::NavigateTo(path) => {
                self.ctx.side_panel = None;
                let d = is_dir(path.as_str());
                assert(crate::component::prompt::said(*is_dir, path@, d));
                match self.ctx.active_filer_mut().jump_to(path.as_str(), d) {
                    Ok(()) => Ok(AppEffect::Nothing),
                    Err(e) => Err(e),
                }
            },
            Action::RemoveBookmark(path) => {
                self.store.bookmark.remove(path.as_str());
                Ok(AppEffect::SaveBookmarks)
            },
            Action::AddBookmark(path) => {
                self.store.bookmark.add(path.as_str());
                Ok(AppEffect::SaveBookmarks)
            },
            Action::ExecutePrompt(input) => match execute_prompt_action(&mut self.ctx, *input, is_dir) {
                Ok(e) => Ok(AppEffect::Prompt(e)),
                Err(e) => Err(e),
            },
            Action::ExecuteCommand(command, dir) => Ok(AppEffect::ExecuteCommand { command, dir }),
            Action::CancelPrompt => {
                let idx = self.ctx.prompt.cancel();
                self.ctx.prompt.refresh_progress_text();
                match idx {
                    Some(i) => self.ctx.active_filer_mut().select_file_table(Some(i)),
                    None => {},
                }
                Ok(AppEffect::Nothing)
            },
            Action::SearchUpdate(value) => {
                self.ctx.active_filer_mut().select_matching_file(value.as_str());
                Ok(AppEffect::Nothing)
            },
            Action::SearchNext(value) => {
                self.ctx.active_filer_mut().select_next_matching_file(value.as_str());
                Ok(AppEffect::Nothing)
            },
            Action::SearchPrev(value) => {
                self.ctx.active_filer_mut().select_prev_matching_file(value.as_str());
                Ok(AppEffect::Nothing)
            },
            Action::SetPromptMode(mode) => {
                let mut m = *mode;
                if !mode_is_sound(&m) {
                    m.reset_candidates();
                }
                self.ctx.prompt.set_mode(m);
                Ok(AppEffect::Nothing)
            },
            Action::ShowSidePanel(panel) => {
                if self.ctx.side_panel.is_none() && panel_is_sound(&*panel) {
                    let is_preview = panel.is_preview();
                    self.ctx.side_panel = Some(*panel);
                    if is_preview {
                        self.preview_dirty = true;
                    }
                }
                Ok(AppEffect::Nothing)
            },
            Action::PreviewNext => {
                if self.move_preview_cursor(true) {
                    self.preview_dirty = true;
                }
                Ok(AppEffect::Nothing)
            },
            Action::PreviewPrev => {
                if self.move_preview_cursor(false) {
                    self.preview_dirty = true;
                }
                Ok(AppEffect::Nothing)
            },
            Action::OpenFile(path) => Ok(AppEffect::OpenFile(path)),
            Action::Yank(paths) => Ok(AppEffect::Yank(paths)),
            Action::NavigateHome => Ok(AppEffect::GoHome),
            Action::SetPermissions(path, mode) => Ok(AppEffect::SetPermissions { path, mode }),
            Action::ShowBookmark => {
                if self.ctx.side_panel.is_none() {
                    let paths = self.store.bookmark.get_paths();
                    self.ctx.side_panel = Some(SidePanel::Bookmark(BookmarkComponent::new(paths)));
                }
                Ok(AppEffect::Nothing)
            },
            Action::ShowSettings => {
                if self.ctx.side_panel.is_none() {
                    let dir = owned(self.ctx.active_filer().current_dir_path());
                    let settings = SettingsComponent::new(self.store.settings.startup_directory(), dir.as_str());
                    self.ctx.side_panel = Some(SidePanel::Settings(settings));
                }
                Ok(AppEffect::Nothing)
            },
            Action::ShowHelp => {
                if self.ctx.side_panel.is_none() {
                    self.ctx.side_panel = Some(SidePanel::Help(crate::component::help::HelpComponent::new()));
                }
                Ok(AppEffect::Nothing)
            },
            Action::SaveSettings(dir) => {
                self.store.settings.set_startup_directory(*dir);
                self.ctx.side_panel = None;
                Ok(AppEffect::SaveSettings)
            },
            Action::CancelProgress => {
                self.ctx.prompt.request_cancel();
                Ok(AppEffect::Nothing)
            },
            Action::NavigateBack => {
                let path = match self.store.history.back() {
                    Some(p) => owned(p),
                    None => {
                        return Ok(AppEffect::Nothing);
                    },
                };
                self.ctx.active_filer_mut().change_to(path.as_str());
                self.skip_history_add = true;
                Ok(AppEffect::Nothing)
            },
            Action::NavigateForward => {
                let path = match self.store.history.forward() {
                    Some(p) => owned(p),
                    None => {
                        return Ok(AppEffect::Nothing);
                    },
                };
                self.ctx.active_filer_mut().change_to(path.as_str());
                self.skip_history_add = true;
                Ok(AppEffect::Nothing)
            },
        }
    }

    /// Moves the file list's cursor for the preview (down for `next`, up
    /// otherwise); whether it moved.
    pub fn move_preview_cursor(&mut self, next: bool) -> (moved: bool)
        requires
            old(self).wf(),
        ensures
            final(self).wf(),
            final(self).ctx.side_panel == old(self).ctx.side_panel,
            final(self).store == old(self).store,
            final(self).ctx.active == old(self).ctx.active,
            final(self).preview_dirty == old(self).preview_dirty,
            moved == (final(self).ctx.contexts@[final(self).ctx.active as int].filer.state.selected
                != old(self).ctx.contexts@[old(self).ctx.active as int].filer.state.selected),
            final(self).ctx.contexts@[final(self).ctx.active as int].filer.state.selected == if next {
                spec_next(old(self).ctx.contexts@[old(self).ctx.active as int].filer.state.selected,
                    old(self).ctx.contexts@[old(self).ctx.active as int].filer.state.current_dir_files@.len())
            } else {
                spec_prev(old(self).ctx.contexts@[old(self).ctx.active as int].filer.state.selected,
                    old(self).ctx.contexts@[old(self).ctx.active as int].filer.state.current_dir_files@.len())
            },
            final(self).ctx.contexts@[final(self).ctx.active as int].filer.state.current_dir_files
                == old(self).ctx.contexts@[old(self).ctx.active as int].filer.state.current_dir_files,
    {
        let filer = self.ctx.active_filer_mut();
        let before = filer.state.selected;
        if next {
            filer.state.next();
        } else {
            filer.state.prev();
        }
        filer.state.selected != before
    }

    /// Whether the preview panel is to be rebuilt now: only after a move,
    /// and while keys keep coming (`idle` false) no sooner than the
    /// throttle after the last rebuild (`elapsed_ms` ago). A rebuild is
    /// owed at most once per move.
    pub fn flush_preview_rebuild(&mut self, idle: bool, elapsed_ms: u64) -> (rebuild: bool)
        ensures
            rebuild == (old(self).preview_dirty && (idle || elapsed_ms >= PREVIEW_REBUILD_THROTTLE_MS)),
            final(self).preview_dirty == (old(self).preview_dirty && !rebuild),
            final(self).ctx == old(self).ctx,
            final(self).store == old(self).store,
            final(self).skip_history_add == old(self).skip_history_add,
    {
        if !self.preview_dirty {
            return false;
        }
        if !idle && elapsed_ms < PREVIEW_REBUILD_THROTTLE_MS {
            return false;
        }
        self.preview_dirty = false;
        true
    }

    /// A key goes to whatever has the keyboard: the prompt while it is
    /// active, else the side panel if one is open, else the file list.
    /// `list` lists a directory, `spawn` starts gathering a file's info.
    pub fn handle_key<L: Fn(&str) -> Result<Vec<VFile>, String>, S: Fn(&VFile) -> FileInfoHandle>(
        &mut self,
        key: Key,
        list: &L,
        spawn: &S,
    ) -> (r: Result<Action, String>)
        requires
            old(self).wf(),
            forall|s: &str| call_requires(*list, (s,)),
            forall|f: &VFile| call_requires(*spawn, (f,)),
        ensures
            final(self).wf(),
            final(self).store == old(self).store,
            final(self).ctx.active == old(self).ctx.active,
            final(self).ctx.running == old(self).ctx.running,
            crate::state::spec_is_active(old(self).ctx.prompt.mode) ==> final(self).ctx.contexts == old(self).ctx.contexts
                && final(self).ctx.side_panel == old(self).ctx.side_panel,
            !crate::state::spec_is_active(old(self).ctx.prompt.mode) ==> final(self).ctx.prompt == old(self).ctx.prompt,
            !crate::state::spec_is_active(old(self).ctx.prompt.mode) ==> (old(self).ctx.side_panel matches Some(p)
                ==> final(self).ctx.contexts == old(self).ctx.contexts
                && (final(self).ctx.side_panel matches Some(q) && crate::state::same_kind(p, q))),
            !crate::state::spec_is_active(old(self).ctx.prompt.mode) && old(self).ctx.side_panel is None
                ==> final(self).ctx.side_panel is None && final(self).ctx.contexts@.len() == old(self).ctx.contexts@.len(),
            crate::state::spec_is_active(old(self).ctx.prompt.mode) ==> if crate::component::prompt::cursor_has_room(old(self).ctx.prompt.mode) {
                PromptComponent::key_result(old(self).ctx.prompt, key, final(self).ctx.prompt, r)
            } else {
                (r matches Ok(a) && a is Nothing) && final(self).ctx.prompt == old(self).ctx.prompt
            },
            !crate::state::spec_is_active(old(self).ctx.prompt.mode) ==> (old(self).ctx.side_panel matches Some(p)
                ==> (r matches Ok(a) && (final(self).ctx.side_panel matches Some(q) && crate::state::panel_key_result(p, key, q, a)))),
            !crate::state::spec_is_active(old(self).ctx.prompt.mode) && old(self).ctx.side_panel is None ==> filer_key_result(
                old(self).ctx.contexts@[old(self).ctx.active as int].filer, key, final(self).ctx.contexts@[old(self).ctx.active as int].filer, r)
                && final(self).ctx.contexts@ == old(self).ctx.contexts@.update(old(self).ctx.active as int, FilerContext {
                    filer: final(self).ctx.contexts@[old(self).ctx.active as int].filer,
                    history: old(self).ctx.contexts@[old(self).ctx.active as int].history,
                }),
    {
        if self.ctx.prompt.is_active() {
            if !cursor_has_room_exec(&self.ctx.prompt.mode) {
                return Ok(Action::Nothing);
            }
            return self.ctx.prompt.handle_event(key, list);
        }
        match &mut self.ctx.side_panel {
            Some(panel) => {
                return Ok(panel.handle_event(key, list));
            },
            None => {},
        }
        self.ctx.active_filer_mut().handle_event(key, list, spawn)
    }

    /// The watched directory changed: list it again, unless a listing is
    /// already on its way.
    pub fn on_file_change(&mut self)
        requires
            old(self).wf(),
        ensures
            final(self).wf(),
            final(self).ctx.active == old(self).ctx.active,
            final(self).ctx.contexts@.len() == old(self).ctx.contexts@.len(),
            final(self).store == old(self).store,
            old(self).ctx.contexts@[old(self).ctx.active as int].filer.state.is_loading_spec() ==> final(self).ctx == old(self).ctx,
            !old(self).ctx.contexts@[old(self).ctx.active as int].filer.state.is_loading_spec() ==> (
                final(self).ctx.contexts@[final(self).ctx.active as int].filer.state.load_request matches Some(p)
                && p@ == old(self).ctx.contexts@[old(self).ctx.active as int].filer.state.current_dir.path@),
    {
        if !self.ctx.active_filer().is_loading() {
            self.ctx.active_filer_mut().refresh_files();
        }
    }

    /// The part of the loop after a key: take in what arrived, show a
    /// listing error, focus the file list when nothing else has the keys,
    /// and record a change of directory (`watching` is the directory
    /// watched so far). Returns the directory to watch from now on when it
    /// changed.
    pub fn after_event(&mut self, watching: &str) -> (r: Option<String>)
        requires
            old(self).wf(),
        ensures
            final(self).wf(),
            final(self).ctx.running == old(self).ctx.running,
            match r {
                Some(d) => d@ != watching@ && d@ == final(self).ctx.contexts@[final(self).ctx.active as int].filer.state.current_dir.path@
                    && (old(self).skip_history_add ==> !final(self).skip_history_add && final(self).store.history == old(self).store.history)
                    && (!old(self).skip_history_add ==> final(self).store.history.entries@.len() > 0
                        && final(self).store.history.entries@[final(self).store.history.position as int]@ == d@
                        && crate::state::history::DirHistory::added(old(self).store.history, d@, final(self).store.history)),
                None => final(self).ctx.contexts@[final(self).ctx.active as int].filer.state.current_dir.path@ == watching@
                    && final(self).store.history == old(self).store.history
                    && final(self).skip_history_add == old(self).skip_history_add,
            },
    {
        self.ctx.tick();
        let error = self.ctx.active_filer_mut().take_error();
        match error {
            Some(e) => self.set_error(e),
            None => {},
        }
        let focused = self.ctx.side_panel.is_none() && !self.ctx.prompt.is_active();
        self.ctx.active_filer_mut().set_active(focused);
        let current = owned(self.ctx.active_filer().current_dir_path());
        if crate::text::str_eq(current.as_str(), watching) {
            return None;
        }
        if self.skip_history_add {
            self.skip_history_add = false;
        } else {
            self.store.history.add(current.as_str());
        }
        Some(current)
    }
}

} // verus!
