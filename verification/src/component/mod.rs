pub mod attribute;
pub mod audio_player;
pub mod bookmark;
pub mod completion;
pub mod file_info;
pub mod filer;
pub mod grep;
pub mod help;
pub mod image_preview;
pub mod preview;
pub mod prompt;
pub mod settings;
pub mod tree;

use vstd::prelude::*;
use crate::state::{PromptMode, SidePanel, StartupDirectory};

verus! {

/// What a panel asks the application to do after a key press.
pub enum Action {
    Nothing,
    Quit,
    Error(String),
    LaunchShell,
    CloseSidePanel,
    SetPromptMode(Box<PromptMode>),
    /// Show a panel beside the file list (unless one is shown).
    ShowSidePanel(Box<SidePanel>),
    AddBookmark(String),
    OpenFile(String),
    ShowBookmark,
    ShowSettings,
    ShowHelp,
    SaveSettings(Box<StartupDirectory>),
    /// Go to a path: into it when it is a directory, else to its directory
    /// with the cursor on it.
    NavigateTo(String),
    RemoveBookmark(String),
    ExecutePrompt(Box<PromptMode>),
    /// Leave the prompt (restoring the cursor a search moved).
    CancelPrompt,
    CancelProgress,
    SearchNext(String),
    SearchPrev(String),
    SearchUpdate(String),
    /// Run a shell command (command, working directory).
    ExecuteCommand(String, String),
    NavigateBack,
    NavigateForward,
    /// Go to the user's home directory.
    NavigateHome,
    PreviewNext,
    PreviewPrev,
    /// Change a file's permission bits (path, mode).
    SetPermissions(String, u32),
    /// Put paths on the clipboard.
    Yank(Vec<String>),
}

} // verus!
