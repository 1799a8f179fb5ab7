//! The preview panel: a text file's first lines, scrollable, or a message
//! where the file cannot be shown.
use vstd::prelude::*;
use crate::component::Action;
use crate::fs::text_preview::TextPreview;
use crate::key::Key;
use crate::text::{owned, push_str};
use crate::text_output::{scrolled, TextOutputState};

verus! {

/// The panel's title for a file.
pub open spec fn preview_title(file_name: Seq<char>) -> Seq<char> {
    "Preview - "@ + file_name
}

fn preview_title_exec(file_name: &str) -> (r: String)
    ensures
        r@ == preview_title(file_name@),
{
    let mut t = owned("Preview - ");
    push_str(&mut t, file_name);
    t
}

/// The keys every preview shares: `n`/`p` move the preview to the next or
/// previous file, `v`/Esc close it.
pub open spec fn spec_preview_common_key(key: Key) -> Option<Action> {
    match key {
        Key::Char('n') => Some(Action::PreviewNext),
        Key::Char('p') => Some(Action::PreviewPrev),
        Key::Char('v') | Key::Esc => Some(Action::CloseSidePanel),
        _ => None,
    }
}

pub fn handle_preview_common_key(key: Key) -> (r: Option<Action>)
    ensures
        r == spec_preview_common_key(key),
{
    match key {
        Key::Char('n') => Some(Action::PreviewNext),
        Key::Char('p') => Some(Action::PreviewPrev),
        Key::Char('v') | Key::Esc => Some(Action::CloseSidePanel),
        _ => None,
    }
}

pub struct PreviewComponent {
    pub title: String,
    pub text_output: TextOutputState,
}

impl PreviewComponent {
    /// The preview of `file_name`; the title says when it was cut short.
    pub fn new(file_name: &str, preview: TextPreview) -> (r: PreviewComponent)
        ensures
            r.title@ == if preview.truncated { preview_title(file_name@) + " (truncated)"@ } else { preview_title(file_name@) },
            r.text_output.lines@ == preview.lines@,
            r.text_output.scroll == 0,
    {
        let mut title = preview_title_exec(file_name);
        if preview.truncated {
            push_str(&mut title, " (truncated)");
        }
        PreviewComponent { title, text_output: TextOutputState::with_lines(preview.lines) }
    }

    /// The preview of a Markdown file, shown with the same title rules; its
    /// lines are the source's lines.
    pub fn new_markdown(file_name: &str, preview: TextPreview) -> (r: PreviewComponent)
        ensures
            r.title@ == if preview.truncated { preview_title(file_name@) + " (truncated)"@ } else { preview_title(file_name@) },
            r.text_output.lines@ == preview.lines@,
            r.text_output.scroll == 0,
    {
        PreviewComponent::new(file_name, preview)
    }

    /// A panel that only says `text`.
    pub fn with_message(file_name: &str, text: String) -> (r: PreviewComponent)
        ensures
            r.title@ == preview_title(file_name@),
            r.text_output.lines@ == seq![text],
            r.text_output.scroll == 0,
    {
        PreviewComponent { title: preview_title_exec(file_name), text_output: TextOutputState::with_lines(vec![text]) }
    }

    pub fn keymap(&self) -> (r: &'static str)
        ensures
            r@ == "↑↓: Scroll  ←→: Top/Bottom  n/p: Next/Prev  v/Esc: Close"@,
    {
        "↑↓: Scroll  ←→: Top/Bottom  n/p: Next/Prev  v/Esc: Close"
    }

    /// What a key does to the panel and what it answers (see `handle_event`).
    pub open spec fn key_result(before: Self, key: Key, after: Self, a: Action) -> bool {
        &&& after.text_output.lines@ == before.text_output.lines@
        &&& after.title == before.title
        &&& scrolled(before.text_output.scroll as nat, before.text_output.lines@.len(), key) matches Some(s)
            ==> a is Nothing && after.text_output.scroll == s
        &&& scrolled(before.text_output.scroll as nat, before.text_output.lines@.len(), key) is None ==> (
            match spec_preview_common_key(key) { Some(c) => a == c, None => a is Nothing })
            && after.text_output.scroll == before.text_output.scroll
    }

    /// Scroll keys scroll; then the keys every preview shares.
    pub fn handle_event(&mut self, key: Key) -> (a: Action)
        ensures
            Self::key_result(*old(self), key, *final(self), a),
    {
        if self.text_output.handle_scroll_key(key) {
            return Action::Nothing;
        }
        match handle_preview_common_key(key) {
            Some(a) => a,
            None => Action::Nothing,
        }
    }
}

} // verus!
