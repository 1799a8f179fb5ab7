//! The state the command functions work on: one file list with its
//! prompts, input line, side panel, bookmark lists and confirmation dialog.
use vstd::prelude::*;
use crate::fs::file::VFile;
use crate::state::filer::FilerState;
use crate::state::path_list::PathListState;
use crate::state::{panel_wf, ConfirmAction, FileAction, PromptMode, SelectAction, SidePanel, TextAction};

verus! {

/// The input line of the command functions.
#[derive(Debug)]
pub enum InputMode {
    Closed,
    Text { title: String, value: String, action: TextAction },
    File { title: String, value: String, candidates: Vec<String>, candidate_index: Option<usize>, action: FileAction },
    Search { title: String, value: String },
    Select { title: String, options: Vec<String>, selected_index: usize, action: SelectAction },
    Confirm { title: String, action: ConfirmAction },
    Error { message: String },
}

impl InputMode {
    /// Forgets the completion candidates of a path input.
    pub fn reset_candidates(&mut self)
        ensures
            match *old(self) {
                InputMode::File { title, value, action, .. } => *final(self) == (InputMode::File {
                    title,
                    value,
                    candidates: final(self)->File_candidates,
                    candidate_index: None,
                    action,
                }) && final(self)->File_candidates@.len() == 0,
                _ => *final(self) == *old(self),
            },
    {
        match self {
            InputMode::File { candidates, candidate_index, .. } => {
                *candidates = Vec::new();
                *candidate_index = None;
            },
            _ => {},
        }
    }
}

/// A confirmation dialog.
#[derive(Debug)]
pub enum ModalState {
    Closed,
    DeleteConfirm { files: Vec<VFile> },
}

pub struct AppState {
    pub running: bool,
    pub filer: FilerState,
    pub side_panel: Option<SidePanel>,
    pub bookmark_list: Option<PathListState>,
    pub bookmark: Option<PathListState>,
    /// The paths the bookmark list is opened on.
    pub bookmarked_paths: Vec<String>,
    pub prompt: PromptMode,
    pub input: InputMode,
    pub modal: ModalState,
}

impl AppState {
    /// The state with only its side panel replaced.
    pub open spec fn with_side_panel(self, p: Option<SidePanel>) -> AppState {
        AppState { side_panel: p, ..self }
    }

    /// The state with only its bookmark list replaced.
    pub open spec fn with_bookmark_list(self, l: Option<PathListState>) -> AppState {
        AppState { bookmark_list: l, ..self }
    }

    /// The state with only its file list replaced.
    pub open spec fn with_filer(self, f: FilerState) -> AppState {
        AppState { filer: f, ..self }
    }

    /// The state with only its input line replaced.
    pub open spec fn with_input(self, i: InputMode) -> AppState {
        AppState { input: i, ..self }
    }

    /// The state with only its dialog replaced.
    pub open spec fn with_modal(self, m: ModalState) -> AppState {
        AppState { modal: m, ..self }
    }

    /// The state with only its prompt replaced.
    pub open spec fn with_prompt(self, p: PromptMode) -> AppState {
        AppState { prompt: p, ..self }
    }

    /// The state with only its bookmark panel state replaced.
    pub open spec fn with_bookmark(self, b: Option<PathListState>) -> AppState {
        AppState { bookmark: b, ..self }
    }

    /// The state with only its running flag replaced.
    pub open spec fn with_running(self, running: bool) -> AppState {
        AppState { running, ..self }
    }

    pub open spec fn wf(&self) -> bool {
        &&& self.filer.wf()
        &&& (self.side_panel matches Some(p) ==> panel_wf(p))
        &&& (self.bookmark_list matches Some(l) ==> l.wf())
        &&& (self.bookmark matches Some(l) ==> l.wf())
        &&& (self.input matches InputMode::File { candidates, candidate_index, .. } ==> (candidate_index matches Some(i) ==> i < candidates@.len()))
    }

    pub fn new() -> (r: AppState)
        ensures
            r.wf(),
            r.running,
            r.side_panel is None,
            r.input is Closed,
            r.modal is Closed,
    {
        AppState {
            running: true,
            filer: FilerState::new(),
            side_panel: None,
            bookmark_list: None,
            bookmark: None,
            bookmarked_paths: Vec::new(),
            prompt: PromptMode::Idle,
            input: InputMode::Closed,
            modal: ModalState::Closed,
        }
    }

    pub fn quit(&mut self)
        ensures
            !final(self).running,
            final(self).filer == old(self).filer,
            final(self).side_panel == old(self).side_panel,
            final(self).bookmark_list == old(self).bookmark_list,
            final(self).bookmark == old(self).bookmark,
            final(self).prompt == old(self).prompt,
            final(self).input == old(self).input,
            final(self).modal == old(self).modal,
            *final(self) == old(self).with_running(false),
    {
        self.running = false;
    }
}

} // verus!
