//! Shared state vocabulary: job phases and messages, the modes of the prompt
//! line and the actions they confirm, sort keys and the startup directory
//! setting.
pub mod app_state;
pub mod filer;
pub mod filer_context;
pub mod history;
pub mod path_list;
pub mod table_cursor;
pub mod tree;

pub use crate::state::filer_context::FilerContext;

use vstd::prelude::*;
use crate::component::attribute::AttributeComponent;
use crate::component::bookmark::BookmarkComponent;
use crate::component::file_info::FileInfoComponent;
use crate::component::grep::GrepComponent;
use crate::component::help::HelpComponent;
use crate::component::preview::PreviewComponent;
use crate::component::settings::SettingsComponent;
use crate::component::tree::TreeComponent;
use crate::component::Action;
use crate::fs::file::VFile;
use crate::key::Key;
use crate::text_output::TextOutputState;
use crate::jobs::Received;
use crate::fs::file_info::FileInfo;

verus! {

/// The phase a file job reports. `Cancelling` is never sent by a job: the
/// prompt switches to it when the user asks to stop.
#[derive(Debug, Clone, Copy, PartialEq, Eq, Structural)]
pub enum Phase {
    Scanning,
    Copying,
    Moving,
    Deleting,
    Zipping,
    Extracting,
    Cancelling,
}

/// The name a phase is shown with.
pub open spec fn spec_phase_label(p: Phase) -> Seq<char> {
    match p {
        Phase::Scanning => seq!['S', 'c', 'a', 'n', 'n', 'i', 'n', 'g'],
        Phase::Copying => seq!['C', 'o', 'p', 'y', 'i', 'n', 'g'],
        Phase::Moving => seq!['M', 'o', 'v', 'i', 'n', 'g'],
        Phase::Deleting => seq!['D', 'e', 'l', 'e', 't', 'i', 'n', 'g'],
        Phase::Zipping => seq!['Z', 'i', 'p', 'p', 'i', 'n', 'g'],
        Phase::Extracting => seq!['E', 'x', 't', 'r', 'a', 'c', 't', 'i', 'n', 'g'],
        Phase::Cancelling => seq!['C', 'a', 'n', 'c', 'e', 'l', 'l', 'i', 'n', 'g'],
    }
}

impl Phase {
    pub fn label(&self) -> (r: &'static str)
        ensures
            r@ == spec_phase_label(*self),
    {
        proof {
            reveal_strlit("Scanning");
            reveal_strlit("Copying");
            reveal_strlit("Moving");
            reveal_strlit("Deleting");
            reveal_strlit("Zipping");
            reveal_strlit("Extracting");
            reveal_strlit("Cancelling");
            assert("Scanning"@ =~= seq!['S', 'c', 'a', 'n', 'n', 'i', 'n', 'g']);
            assert("Copying"@ =~= seq!['C', 'o', 'p', 'y', 'i', 'n', 'g']);
            assert("Moving"@ =~= seq!['M', 'o', 'v', 'i', 'n', 'g']);
            assert("Deleting"@ =~= seq!['D', 'e', 'l', 'e', 't', 'i', 'n', 'g']);
            assert("Zipping"@ =~= seq!['Z', 'i', 'p', 'p', 'i', 'n', 'g']);
            assert("Extracting"@ =~= seq!['E', 'x', 't', 'r', 'a', 'c', 't', 'i', 'n', 'g']);
            assert("Cancelling"@ =~= seq!['C', 'a', 'n', 'c', 'e', 'l', 'l', 'i', 'n', 'g']);
        }
        match self {
            Phase::Scanning => "Scanning",
            Phase::Copying => "Copying",
            Phase::Moving => "Moving",
            Phase::Deleting => "Deleting",
            Phase::Zipping => "Zipping",
            Phase::Extracting => "Extracting",
            Phase::Cancelling => "Cancelling",
        }
    }
}

/// A message from a running job to the prompt.
#[derive(Debug)]
pub enum ProgressMessage {
    Update { phase: Phase, processed: usize, total: Option<usize> },
    Complete,
    Error(String),
}

/// Which paths the completion of a path prompt offers.
#[derive(Debug, Clone, Copy, PartialEq, Eq, Structural)]
pub enum FileActionCandidateType {
    All,
    Directory,
}

/// What a text prompt does with the typed value.
#[derive(Debug)]
pub enum TextAction {
    Mkdir { dir: VFile },
    Touch { dir: VFile },
    /// Link the typed name in `dir` to `target`.
    Symlink { dir: VFile, target: VFile },
    Rename { file: VFile },
    Zip { dir: VFile, files: Vec<VFile> },
    Unzip { file: VFile, dir: VFile },
    Grep,
    Execute { dir: VFile },
    /// List only the files whose names contain the typed text.
    Filter,
}

/// What a path prompt does with the typed path.
#[derive(Debug)]
pub enum FileAction {
    Copy { files: Vec<VFile> },
    Move { files: Vec<VFile> },
    Jump,
}

/// What a yes/no prompt does when confirmed.
#[derive(Debug)]
pub enum ConfirmAction {
    Delete { files: Vec<VFile> },
}

/// What a choice prompt does with the chosen option.
#[derive(Debug, Clone, Copy, PartialEq, Eq, Structural)]
pub enum SelectAction {
    Sort,
}

/// The mode of the prompt line.
#[derive(Debug)]
pub enum PromptMode {
    /// Idle: the prompt line shows the keymap.
    Idle,
    Text { title: String, value: String, cursor: usize, action: Box<TextAction> },
    File {
        title: String,
        value: String,
        cursor: usize,
        candidate_type: FileActionCandidateType,
        candidates: Vec<String>,
        candidate_index: Option<usize>,
        action: FileAction,
    },
    Search { title: String, value: String, cursor: usize, original_index: Option<usize> },
    Select { title: String, options: Vec<String>, selected_index: usize, action: SelectAction },
    Confirm { title: String, action: ConfirmAction },
    Error { message: String },
    Progress { phase: Phase, processed: usize, total: Option<usize> },
}

/// Whether the prompt takes the keyboard in this mode: every mode but the
/// idle one and the progress display.
pub open spec fn spec_is_active(m: PromptMode) -> bool {
    !(m is Idle) && !(m is Progress)
}

impl PromptMode {
    pub fn is_active(&self) -> (r: bool)
        ensures
            r == spec_is_active(*self),
    {
        match self {
            PromptMode::Idle | PromptMode::Progress { .. } => false,
            _ => true,
        }
    }

    /// Forgets the completion candidates of a path prompt (after an edit of
    /// its value); other modes are unchanged.
    pub fn reset_candidates(&mut self)
        ensures
            match *old(self) {
                PromptMode::File { title, value, cursor, candidate_type, action, .. } => *final(self) == (PromptMode::File {
                    title,
                    value,
                    cursor,
                    candidate_type,
                    candidates: final(self)->File_candidates,
                    candidate_index: None,
                    action,
                }) && final(self)->File_candidates@.len() == 0,
                _ => *final(self) == *old(self),
            },
    {
        match self {
            PromptMode::File { candidates, candidate_index, .. } => {
                *candidates = Vec::new();
                *candidate_index = None;
            },
            _ => {},
        }
    }
}

/// The keys the file list can be sorted by, in the order the sort prompt
/// offers them.
#[derive(Debug, Clone, Copy, PartialEq, Eq, Structural)]
pub enum SortKey {
    Name,
    Size,
    Modified,
}

pub open spec fn spec_sort_key_index(k: SortKey) -> nat {
    match k {
        SortKey::Name => 0,
        SortKey::Size => 1,
        SortKey::Modified => 2,
    }
}

pub open spec fn spec_sort_key_at(i: nat) -> Option<SortKey> {
    if i == 0 {
        Some(SortKey::Name)
    } else if i == 1 {
        Some(SortKey::Size)
    } else if i == 2 {
        Some(SortKey::Modified)
    } else {
        None
    }
}

/// The label the sort prompt shows for a key.
pub open spec fn sort_label(k: SortKey) -> Seq<char> {
    match k {
        SortKey::Name => "Name"@,
        SortKey::Size => "Size"@,
        SortKey::Modified => "Modified"@,
    }
}

/// The options of the sort prompt, in order.
pub open spec fn sort_labels() -> Seq<Seq<char>> {
    seq!["Name"@, "Size"@, "Modified"@]
}

/// Choosing an option of the sort prompt sorts by the key it names: the
/// key at a position is the one whose label is the option there, exactly
/// the positions of the options give a key, and each key is found again at
/// its own position.
pub proof fn lemma_sort_key_positions(i: nat, k: SortKey)
    ensures
        spec_sort_key_at(i) matches Some(key) ==> i < sort_labels().len() && sort_label(key) == sort_labels()[i as int],
        i < sort_labels().len() ==> spec_sort_key_at(i) is Some,
        spec_sort_key_at(spec_sort_key_index(k)) == Some(k),
        sort_labels()[spec_sort_key_index(k) as int] == sort_label(k),
{
    reveal_strlit("Name");
    reveal_strlit("Size");
    reveal_strlit("Modified");
}

impl SortKey {
    /// The number of sort keys.
    pub fn count() -> (n: usize)
        ensures
            n == 3,
    {
        3
    }

    /// The position of the key in the sort prompt.
    pub fn index(&self) -> (i: usize)
        ensures
            i == spec_sort_key_index(*self),
    {
        match self {
            SortKey::Name => 0,
            SortKey::Size => 1,
            SortKey::Modified => 2,
        }
    }

    /// The key at a position of the sort prompt.
    pub fn at(i: usize) -> (r: Option<SortKey>)
        ensures
            r == spec_sort_key_at(i as nat),
    {
        if i == 0 {
            Some(SortKey::Name)
        } else if i == 1 {
            Some(SortKey::Size)
        } else if i == 2 {
            Some(SortKey::Modified)
        } else {
            None
        }
    }

    /// The label of the key in the sort prompt.
    pub fn label(&self) -> (r: &'static str)
        ensures
            r@ == match *self {
                SortKey::Name => "Name"@,
                SortKey::Size => "Size"@,
                SortKey::Modified => "Modified"@,
            },
            r@ == sort_label(*self),
    {
        match self {
            SortKey::Name => "Name",
            SortKey::Size => "Size",
            SortKey::Modified => "Modified",
        }
    }

    /// The labels of all keys, in order.
    pub fn labels() -> (r: Vec<String>)
        ensures
            crate::text::views(r@) == seq!["Name"@, "Size"@, "Modified"@],
            crate::text::views(r@) == sort_labels(),
    {
        let mut v: Vec<String> = Vec::new();
        v.push(crate::text::owned("Name"));
        v.push(crate::text::owned("Size"));
        v.push(crate::text::owned("Modified"));
        assert(crate::text::views(v@) =~= seq!["Name"@, "Size"@, "Modified"@]);
        v
    }
}

/// The directory the application starts in.
#[derive(Debug, Clone, PartialEq, Eq)]
pub enum StartupDirectory {
    CurrentDirectory,
    HomeDirectory,
    LastDirectory,
    SpecificDirectory(String),
}

/// The position of the choice in the settings editor.
pub open spec fn spec_startup_index(d: StartupDirectory) -> nat {
    match d {
        StartupDirectory::CurrentDirectory => 0,
        StartupDirectory::HomeDirectory => 1,
        StartupDirectory::LastDirectory => 2,
        StartupDirectory::SpecificDirectory(_) => 3,
    }
}

/// The choice at a position of the settings editor, `path` being the typed
/// path of the last one; positions past the end fall back to the current
/// directory.
pub open spec fn spec_startup_from_index(i: nat, path: Seq<char>) -> (StartupDirectory, bool) {
    if i == 0 {
        (StartupDirectory::CurrentDirectory, true)
    } else if i == 1 {
        (StartupDirectory::HomeDirectory, true)
    } else if i == 2 {
        (StartupDirectory::LastDirectory, true)
    } else if i == 3 {
        (StartupDirectory::CurrentDirectory, false)
    } else {
        (StartupDirectory::CurrentDirectory, true)
    }
}

/// Whether two settings are the same choice (and the same path for a
/// specific directory).
pub open spec fn spec_same_startup(a: StartupDirectory, b: StartupDirectory) -> bool {
    match (a, b) {
        (StartupDirectory::SpecificDirectory(p), StartupDirectory::SpecificDirectory(q)) => p@ == q@,
        _ => spec_startup_index(a) == spec_startup_index(b),
    }
}

impl StartupDirectory {
    /// The number of choices.
    pub const LABEL_COUNT: usize = 4;

    /// The position of the specific-directory choice.
    pub const SPECIFIC_INDEX: usize = 3;

    pub fn index(&self) -> (i: usize)
        ensures
            i == spec_startup_index(*self),
    {
        match self {
            StartupDirectory::CurrentDirectory => 0,
            StartupDirectory::HomeDirectory => 1,
            StartupDirectory::LastDirectory => 2,
            StartupDirectory::SpecificDirectory(_) => 3,
        }
    }

    /// The choice at position `i`, with `path` for the specific directory.
    pub fn from_index(i: usize, path: &str) -> (r: StartupDirectory)
        ensures
            i == 3 ==> (r matches StartupDirectory::SpecificDirectory(p) && p@ == path@),
            i != 3 ==> r == spec_startup_from_index(i as nat, path@).0,
    {
        if i == 0 {
            StartupDirectory::CurrentDirectory
        } else if i == 1 {
            StartupDirectory::HomeDirectory
        } else if i == 2 {
            StartupDirectory::LastDirectory
        } else if i == 3 {
            StartupDirectory::SpecificDirectory(crate::text::owned(path))
        } else {
            StartupDirectory::CurrentDirectory
        }
    }

    /// The labels of the choices, in order.
    pub fn labels() -> (r: Vec<String>)
        ensures
            r@.len() == 4,
    {
        let mut v: Vec<String> = Vec::new();
        v.push(crate::text::owned("Current Directory"));
        v.push(crate::text::owned("Home Directory"));
        v.push(crate::text::owned("Last Directory"));
        v.push(crate::text::owned("Specific Directory"));
        v
    }

    /// Whether two settings are the same choice with the same path.
    pub fn same_as(&self, other: &StartupDirectory) -> (r: bool)
        ensures
            r == spec_same_startup(*self, *other),
    {
        match (self, other) {
            (StartupDirectory::SpecificDirectory(p), StartupDirectory::SpecificDirectory(q)) => crate::text::str_eq(p.as_str(), q.as_str()),
            _ => self.index() == other.index(),
        }
    }

    /// An owned copy of the setting.
    pub fn duplicate(&self) -> (r: StartupDirectory)
        ensures
            r == *self,
    {
        match self {
            StartupDirectory::CurrentDirectory => StartupDirectory::CurrentDirectory,
            StartupDirectory::HomeDirectory => StartupDirectory::HomeDirectory,
            StartupDirectory::LastDirectory => StartupDirectory::LastDirectory,
            StartupDirectory::SpecificDirectory(p) => StartupDirectory::SpecificDirectory(p.clone()),
        }
    }
}

/// The panel beside the file list.
pub enum SidePanel {
    Attribute(AttributeComponent),
    FileInfo(FileInfoComponent),
    Tree(TreeComponent),
    Grep(GrepComponent),
    Bookmark(BookmarkComponent),
    Settings(SettingsComponent),
    Preview(PreviewComponent),
    Help(HelpComponent),
    /// The output of a shell command.
    Shell(TextOutputState),
}

/// Two panels of the same kind.
pub open spec fn same_kind(a: SidePanel, b: SidePanel) -> bool {
    match (a, b) {
        (SidePanel::Attribute(_), SidePanel::Attribute(_)) => true,
        (SidePanel::FileInfo(_), SidePanel::FileInfo(_)) => true,
        (SidePanel::Tree(_), SidePanel::Tree(_)) => true,
        (SidePanel::Grep(_), SidePanel::Grep(_)) => true,
        (SidePanel::Bookmark(_), SidePanel::Bookmark(_)) => true,
        (SidePanel::Settings(_), SidePanel::Settings(_)) => true,
        (SidePanel::Preview(_), SidePanel::Preview(_)) => true,
        (SidePanel::Help(_), SidePanel::Help(_)) => true,
        (SidePanel::Shell(_), SidePanel::Shell(_)) => true,
        _ => false,
    }
}

/// The panel's own invariant.
pub open spec fn panel_wf(p: SidePanel) -> bool {
    match p {
        SidePanel::Attribute(c) => c.wf(),
        SidePanel::Tree(c) => c.state.wf(),
        SidePanel::Grep(c) => c.state.wf(),
        SidePanel::Bookmark(c) => c.state.wf(),
        _ => true,
    }
}

/// What a key does to the panel and what it answers: each kind as its
/// component's `handle_event` says; a shell output scrolls, and closes on
/// Esc.
pub open spec fn panel_key_result(before: SidePanel, key: Key, after: SidePanel, a: Action) -> bool {
    match (before, after) {
        (SidePanel::Attribute(b), SidePanel::Attribute(c)) => AttributeComponent::key_result(b, key, c, a),
        (SidePanel::FileInfo(b), SidePanel::FileInfo(c)) => FileInfoComponent::key_result(b, key, c, a),
        (SidePanel::Tree(b), SidePanel::Tree(c)) => TreeComponent::key_result(b, key, c, a),
        (SidePanel::Grep(b), SidePanel::Grep(c)) => GrepComponent::key_result(b, key, c, a),
        (SidePanel::Bookmark(b), SidePanel::Bookmark(c)) => BookmarkComponent::key_result(b, key, c, a),
        (SidePanel::Settings(b), SidePanel::Settings(c)) => SettingsComponent::key_result(b, key, c, a),
        (SidePanel::Preview(b), SidePanel::Preview(c)) => PreviewComponent::key_result(b, key, c, a),
        (SidePanel::Help(b), SidePanel::Help(c)) => HelpComponent::key_result(b, key, c, a),
        (SidePanel::Shell(t), SidePanel::Shell(u)) => u.lines@ == t.lines@ && match crate::text_output::scrolled(t.scroll as nat, t.lines@.len(), key) {
            Some(s) => a is Nothing && u.scroll == s,
            None => u.scroll == t.scroll && if key == Key::Esc { a is CloseSidePanel } else { a is Nothing },
        },
        _ => false,
    }
}

/// What a tick can do to a panel: a file info panel takes in the task's
/// report if it arrived, a grep panel the results that arrived; other
/// panels stay as they are.
pub open spec fn panel_ticked(before: SidePanel, after: SidePanel) -> bool {
    &&& same_kind(before, after)
    &&& !(before is FileInfo || before is Grep) ==> after == before
    &&& before matches SidePanel::FileInfo(c) ==> (after matches SidePanel::FileInfo(d)
        && (c.handle is None ==> d == c)
        && (c.handle is Some ==> exists|x: Received<Result<FileInfo, String>>| FileInfoComponent::result_taken(c, x, d)))
    &&& before matches SidePanel::Grep(c) ==> (after matches SidePanel::Grep(d)
        && crate::state::path_list::PathListState::results_received(c.state, d.state))
}

impl SidePanel {
    pub fn is_preview(&self) -> (r: bool)
        ensures
            r == self is Preview,
    {
        match self {
            SidePanel::Preview(_) => true,
            _ => false,
        }
    }

    /// The key help of the panel.
    pub fn keymap(&self) -> (r: &'static str)
        ensures
            r@ == match *self {
                SidePanel::Attribute(c) => c.keymap_text(),
                SidePanel::FileInfo(_) => "↑↓: Scroll  ←→: Top/Bottom  i/Esc: Close"@,
                SidePanel::Tree(_) => "↑↓: Move  →: Expand  ←: Collapse  f: Search  Enter: Open  t/Esc: Close"@,
                SidePanel::Grep(_) => "↑↓: Move  ←→: Top/Bottom  Enter: Open  g/Esc: Close"@,
                SidePanel::Bookmark(_) => "↑↓: Move  ←→: Top/Bottom  Enter: Open  -: Remove  b/Esc: Close"@,
                SidePanel::Settings(c) => c.keymap_text(),
                SidePanel::Preview(_) => "↑↓: Scroll  ←→: Top/Bottom  n/p: Next/Prev  v/Esc: Close"@,
                SidePanel::Help(_) => "↑↓: Scroll  ←→: Top/Bottom  ?/Esc: Close"@,
                SidePanel::Shell(_) => "↑↓: Scroll  ←→: Top/Bottom  Esc: Close"@,
            },
    {
        match self {
            SidePanel::Attribute(c) => c.keymap(),
            SidePanel::FileInfo(c) => c.keymap(),
            SidePanel::Tree(c) => c.keymap(),
            SidePanel::Grep(c) => c.keymap(),
            SidePanel::Bookmark(c) => c.keymap(),
            SidePanel::Settings(c) => c.keymap(),
            SidePanel::Preview(c) => c.keymap(),
            SidePanel::Help(c) => c.keymap(),
            SidePanel::Shell(_) => "↑↓: Scroll  ←→: Top/Bottom  Esc: Close",
        }
    }

    /// Hands a key to the panel; a shell output panel scrolls and closes
    /// with Esc.
    pub fn handle_event<L: Fn(&str) -> Result<Vec<VFile>, String>>(&mut self, key: Key, list: &L) -> (a: Action)
        requires
            panel_wf(*old(self)),
            forall|s: &str| call_requires(*list, (s,)),
        ensures
            panel_wf(*final(self)),
            same_kind(*old(self), *final(self)),
            *old(self) matches SidePanel::Shell(t) ==> (crate::text_output::scrolled(t.scroll as nat, t.lines@.len(), key) is None
                ==> (if key == Key::Esc { a is CloseSidePanel } else { a is Nothing })),
            panel_key_result(*old(self), key, *final(self), a),
    {
        match self {
            SidePanel::Attribute(c) => c.handle_event(key),
            SidePanel::FileInfo(c) => c.handle_event(key),
            SidePanel::Tree(c) => c.handle_event(key, list),
            SidePanel::Grep(c) => c.handle_event(key),
            SidePanel::Bookmark(c) => c.handle_event(key),
            SidePanel::Settings(c) => c.handle_event(key),
            SidePanel::Preview(c) => c.handle_event(key),
            SidePanel::Help(c) => c.handle_event(key),
            SidePanel::Shell(t) => {
                if t.handle_scroll_key(key) {
                    Action::Nothing
                } else if key == Key::Esc {
                    Action::CloseSidePanel
                } else {
                    Action::Nothing
                }
            },
        }
    }

    /// Takes in what the panel's background work has sent.
    pub fn tick(&mut self)
        requires
            panel_wf(*old(self)),
        ensures
            panel_wf(*final(self)),
            panel_ticked(*old(self), *final(self)),
    {
        match self {
            SidePanel::FileInfo(c) => c.tick(),
            SidePanel::Grep(c) => c.tick(),
            _ => {},
        }
    }
}

} // verus!
