//! The file info panel: what a task found out about a file, shown as
//! scrollable text once the task is done.
use vstd::prelude::*;
use crate::component::Action;
use crate::fs::file_info::{entry_views, info_line, label_width, FileInfo};
use crate::fs::file_info_task::FileInfoHandle;
use crate::jobs::{try_receive, Received};
use crate::key::Key;
use crate::text::{decimal, owned, push_decimal, push_str};
use crate::text_output::{scrolled, TextOutputState};

verus! {

pub struct FileInfoComponent {
    pub title: String,
    pub text_output: TextOutputState,
    pub handle: Option<FileInfoHandle>,
}

impl FileInfoComponent {
    /// The panel of the task behind `handle`, empty until it reports.
    pub fn new(handle: FileInfoHandle) -> (r: FileInfoComponent)
        ensures
            r.title@.len() == 0,
            r.text_output.lines@.len() == 0,
            r.text_output.scroll == 0,
            r.handle == Some(handle),
    {
        FileInfoComponent { title: String::new(), text_output: TextOutputState::with_lines(Vec::new()), handle: Some(handle) }
    }

    /// The task has not reported yet.
    pub fn is_loading(&self) -> (r: bool)
        ensures
            r == self.handle is Some,
    {
        self.handle.is_some()
    }

    pub fn keymap(&self) -> (r: &'static str)
        ensures
            r@ == "↑↓: Scroll  ←→: Top/Bottom  i/Esc: Close"@,
    {
        "↑↓: Scroll  ←→: Top/Bottom  i/Esc: Close"
    }

    /// What a key does to the panel and what it answers (see `handle_event`).
    pub open spec fn key_result(before: Self, key: Key, after: Self, a: Action) -> bool {
        &&& after.text_output.lines@ == before.text_output.lines@
        &&& after.handle == before.handle
        &&& scrolled(before.text_output.scroll as nat, before.text_output.lines@.len(), key) matches Some(s)
            ==> a is Nothing && after.text_output.scroll == s
        &&& scrolled(before.text_output.scroll as nat, before.text_output.lines@.len(), key) is None ==> (
            if key == Key::Char('i') || key == Key::Esc { a is CloseSidePanel } else { a is Nothing })
            && after.text_output.scroll == before.text_output.scroll
    }

    /// The arrows scroll; `i`/Esc closes the panel.
    pub fn handle_event(&mut self, key: Key) -> (a: Action)
        ensures
            Self::key_result(*old(self), key, *final(self), a),
    {
        if self.text_output.handle_scroll_key(key) {
            return Action::Nothing;
        }
        match key {
            Key::Char('i') | Key::Esc => Action::CloseSidePanel,
            _ => Action::Nothing,
        }
    }

    /// What taking in `received` makes of the panel (see `take_result`).
    pub open spec fn result_taken(before: Self, received: Received<Result<FileInfo, String>>, after: Self) -> bool {
        match received {
            Received::Message(Ok(info)) => after.handle is None && after.text_output.scroll == 0
                && after.text_output.lines@.len() == info.entries@.len()
                && (forall|i: int| 0 <= i < info.entries@.len() ==> (#[trigger] after.text_output.lines@[i])@
                    == info_line(entry_views(info.entries@)[i], label_width(entry_views(info.entries@))))
                && after.title@ == "File Info ("@ + decimal(info.entries@.len()) + ")"@,
            Received::Message(Err(e)) => after.handle is None && after.text_output.scroll == 0
                && after.title@ == "File Info (error)"@
                && after.text_output.lines@.len() == 1 && after.text_output.lines@[0]@ == "Error: "@ + e@,
            Received::Empty => after == before,
            Received::Disconnected => after.handle is None && after.text_output.scroll == 0
                && after.title@ == "File Info (error)"@
                && after.text_output.lines@.len() == 1 && after.text_output.lines@[0]@ == "Error: file info task ended"@,
        }
    }

    /// Shows what the task sent: the info's lines (see `FileInfo::to_lines`)
    /// under `File Info (n)`, or the error under `File Info (error)`; a
    /// task that ended without a word is an error too. Nothing arrived
    /// leaves the panel waiting.
    pub fn take_result(&mut self, received: Received<Result<FileInfo, String>>)
        requires
            old(self).handle is Some,
        ensures
            Self::result_taken(*old(self), received, *final(self)),
    {
        match received {
            Received::Message(Ok(info)) => {
                let lines = info.to_lines();
                let mut t = owned("File Info (");
                push_decimal(&mut t, lines.len() as u64);
                push_str(&mut t, ")");
                self.title = t;
                self.text_output = TextOutputState::with_lines(lines);
                self.handle = None;
            },
            Received::Message(Err(e)) => {
                let mut line = owned("Error: ");
                push_str(&mut line, e.as_str());
                self.title = owned("File Info (error)");
                self.text_output = TextOutputState::with_lines(vec![line]);
                self.handle = None;
            },
            Received::Empty => {},
            Received::Disconnected => {
                self.title = owned("File Info (error)");
                self.text_output = TextOutputState::with_lines(vec![owned("Error: file info task ended")]);
                self.handle = None;
            },
        }
    }

    /// Takes in the task's result if it has arrived (see `take_result`).
    /// What a tick can do to the panel: without a task, nothing; with one,
    /// take in one receive of its report.
    pub open spec fn ticked(before: Self, after: Self) -> bool {
        &&& before.handle is None ==> after == before
        &&& after.handle is Some ==> after == before
        &&& before.handle is Some ==> exists|x: Received<Result<FileInfo, String>>| Self::result_taken(before, x, after)
    }

    /// The panel is loading until a receive brings the task's report (its
    /// info or its error) or finds the task gone, and is loaded from then on:
    /// a receive that finds nothing keeps it loading, and a tick of a loaded
    /// panel changes nothing.
    pub proof fn lemma_loading_until_reported(before: Self, received: Received<Result<FileInfo, String>>, after: Self)
        ensures
            before.handle is Some && Self::result_taken(before, received, after) ==> (after.handle is Some <==> received is Empty),
            before.handle is None && Self::ticked(before, after) ==> after.handle is None && after == before,
    {
    }

    pub fn tick(&mut self)
        ensures
            old(self).handle is None ==> *final(self) == *old(self),
            final(self).handle is Some ==> *final(self) == *old(self),
            old(self).handle is Some ==> exists|x: Received<Result<FileInfo, String>>| Self::result_taken(*old(self), x, *final(self)),
            Self::ticked(*old(self), *final(self)),
    {
        let received = match &self.handle {
            Some(h) => try_receive(&h.rx),
            None => {
                return;
            },
        };
        self.take_result(received);
    }
}

} // verus!
