//! The grep panel: the files that contain the searched text, listed as the
//! search finds them.
use std::sync::mpsc::Receiver;
use vstd::prelude::*;
use crate::component::Action;
use crate::key::Key;
use crate::state::path_list::PathListState;
use crate::state::table_cursor::{spec_first, spec_last, spec_next, spec_prev};
use crate::text::{decimal, owned, push_decimal, push_str};

verus! {

/// The panel's title: `Grep (n)`, and `Running...` while the search runs.
pub open spec fn spec_grep_title(n: nat, running: bool) -> Seq<char> {
    "Grep ("@ + decimal(n) + ")"@ + if running { " Running..."@ } else { Seq::empty() }
}

pub struct GrepComponent {
    pub state: PathListState,
}

impl GrepComponent {
    /// An empty panel that fills from `rx`.
    pub fn new(rx: Receiver<String>) -> (r: GrepComponent)
        ensures
            r.state.paths@.len() == 0,
            r.state.selected is None,
            r.state.rx == Some(rx),
            r.state.wf(),
    {
        GrepComponent { state: PathListState::new(Vec::new(), Some(rx)) }
    }

    pub fn keymap(&self) -> (r: &'static str)
        ensures
            r@ == "↑↓: Move  ←→: Top/Bottom  Enter: Open  g/Esc: Close"@,
    {
        "↑↓: Move  ←→: Top/Bottom  Enter: Open  g/Esc: Close"
    }

    /// What a key does to the panel and what it answers (see `handle_event`).
    pub open spec fn key_result(before: Self, key: Key, after: Self, a: Action) -> bool {
        &&& after.state.wf()
        &&& after.state.paths == before.state.paths
        &&& after.state.rx == before.state.rx
        &&& (key == Key::Char('g') || key == Key::Esc) ==> a is CloseSidePanel && after.state == before.state
        &&& key == Key::Up ==> a is Nothing && after.state.selected == spec_prev(before.state.selected, before.state.paths@.len())
        &&& key == Key::Down ==> a is Nothing && after.state.selected == spec_next(before.state.selected, before.state.paths@.len())
        &&& key == Key::Left ==> a is Nothing && after.state.selected == spec_first(before.state.paths@.len())
        &&& key == Key::Right ==> a is Nothing && after.state.selected == spec_last(before.state.paths@.len())
        &&& key == Key::Enter ==> after.state == before.state && match before.state.selected {
            Some(i) => a matches Action::NavigateTo(p) && p@ == before.state.paths@[i as int]@,
            None => a is Nothing,
        }
        &&& !(key == Key::Char('g') || key == Key::Esc || key == Key::Up || key == Key::Down || key == Key::Left
            || key == Key::Right || key == Key::Enter) ==> a is Nothing && after.state == before.state
    }

    /// `g`/Esc closes the panel; the arrows move (Left and Right to the first
    /// and last row); Enter goes to the selected file.
    pub fn handle_event(&mut self, key: Key) -> (a: Action)
        requires
            old(self).state.wf(),
        ensures
            Self::key_result(*old(self), key, *final(self), a),
    {
        match key {
            Key::Char('g') | Key::Esc => Action::CloseSidePanel,
            Key::Up => {
                self.state.prev();
                Action::Nothing
            },
            Key::Down => {
                self.state.next();
                Action::Nothing
            },
            Key::Left => {
                self.state.first();
                Action::Nothing
            },
            Key::Right => {
                self.state.last();
                Action::Nothing
            },
            Key::Enter => match self.state.selected_path() {
                Some(p) => Action::NavigateTo(owned(p)),
                None => Action::Nothing,
            },
            _ => Action::Nothing,
        }
    }

    /// Takes the results found since the last call.
    pub fn tick(&mut self)
        requires
            old(self).state.wf(),
        ensures
            final(self).state.wf(),
            final(self).state.paths@.subrange(0, old(self).state.paths@.len() as int) == old(self).state.paths@,
            PathListState::results_received(old(self).state, final(self).state),
    {
        self.state.receive_results();
    }

    pub fn title(&self) -> (r: String)
        ensures
            r@ == spec_grep_title(self.state.paths@.len(), self.state.rx is Some),
    {
        proof {
            reveal_strlit("Grep (");
            reveal_strlit(")");
            reveal_strlit(" Running...");
        }
        let mut t = owned("Grep (");
        push_decimal(&mut t, self.state.paths.len() as u64);
        push_str(&mut t, ")");
        if self.state.is_running() {
            push_str(&mut t, " Running...");
        }
        assert(t@ =~= spec_grep_title(self.state.paths@.len(), self.state.rx is Some));
        t
    }
}

} // verus!
