//! The tree panel: the directory around a path as an outline.
use vstd::prelude::*;
use crate::component::Action;
use crate::fs::file::VFile;
use crate::key::Key;
use crate::search::{bwd, first_backward, first_forward, fwd, none_match};
use crate::state::filer::{back_search_start, search_skip, search_start};
use crate::state::table_cursor::{spec_clamp, spec_next, spec_prev};
use crate::state::tree::{node_names, TreeState};
use crate::state::PromptMode;
use crate::text::{decimal, owned, push_decimal, push_str};

verus! {

pub struct TreeComponent {
    pub state: TreeState,
}

impl TreeComponent {
    /// The tree around `current_path` (see `TreeState::new`).
    pub fn new<L: Fn(&str) -> Result<Vec<VFile>, String>>(current_path: &str, show_dot_file: bool, list: &L) -> (r: TreeComponent)
        requires
            forall|s: &str| call_requires(*list, (s,)),
        ensures
            r.state.wf(),
            r.state.show_dot_file == show_dot_file,
            crate::state::tree::rows_listed(*list, crate::state::tree::tree_root(current_path@), show_dot_file, 0, r.state.flat_nodes@),
            r.state.selected matches Some(i) ==> (r.state.flat_nodes@[i as int].path@ == current_path@ || (i == 0
                && forall|j: int| 0 <= j < r.state.flat_nodes@.len() ==> (#[trigger] r.state.flat_nodes@[j]).path@ != current_path@)),
            r.state.flat_nodes@.len() > 0 ==> r.state.selected is Some,
    {
        TreeComponent { state: TreeState::new(current_path, show_dot_file, list) }
    }

    pub fn select_matching(&mut self, query: &str)
        requires
            old(self).state.wf(),
        ensures
            final(self).state.wf(),
            final(self).state.flat_nodes == old(self).state.flat_nodes,
            none_match(node_names(old(self).state.flat_nodes@), query@) ==> final(self).state.selected == old(self).state.selected,
            !none_match(node_names(old(self).state.flat_nodes@), query@) ==> exists|k: int|
                #[trigger] first_forward(node_names(old(self).state.flat_nodes@), query@, search_start(old(self).state.selected), 0, k)
                && final(self).state.selected == Some(fwd(search_start(old(self).state.selected), k, old(self).state.flat_nodes@.len() as int) as usize),
    {
        self.state.select_matching(query);
    }

    pub fn select_next_matching(&mut self, query: &str)
        requires
            old(self).state.wf(),
        ensures
            final(self).state.wf(),
            final(self).state.flat_nodes == old(self).state.flat_nodes,
            none_match(node_names(old(self).state.flat_nodes@), query@) ==> final(self).state.selected == old(self).state.selected,
            !none_match(node_names(old(self).state.flat_nodes@), query@) ==> exists|k: int|
                #[trigger] first_forward(node_names(old(self).state.flat_nodes@), query@, search_start(old(self).state.selected),
                    search_skip(old(self).state.selected), k)
                && final(self).state.selected == Some(fwd(search_start(old(self).state.selected), k, old(self).state.flat_nodes@.len() as int) as usize),
    {
        self.state.select_next_matching(query);
    }

    pub fn select_prev_matching(&mut self, query: &str)
        requires
            old(self).state.wf(),
        ensures
            final(self).state.wf(),
            final(self).state.flat_nodes == old(self).state.flat_nodes,
            none_match(node_names(old(self).state.flat_nodes@), query@) ==> final(self).state.selected == old(self).state.selected,
            !none_match(node_names(old(self).state.flat_nodes@), query@) ==> exists|k: int|
                #[trigger] first_backward(node_names(old(self).state.flat_nodes@), query@,
                    back_search_start(old(self).state.selected, old(self).state.flat_nodes@.len()), search_skip(old(self).state.selected), k)
                && final(self).state.selected == Some(bwd(back_search_start(old(self).state.selected, old(self).state.flat_nodes@.len()), k,
                    old(self).state.flat_nodes@.len() as int) as usize),
    {
        self.state.select_prev_matching(query);
    }

    /// Selects row `index`, kept inside the tree (a search that is left
    /// puts the cursor back with it).
    pub fn select_index(&mut self, index: Option<usize>)
        ensures
            final(self).state.flat_nodes == old(self).state.flat_nodes,
            final(self).state.selected == spec_clamp(index, old(self).state.flat_nodes@.len()),
            final(self).state.wf(),
    {
        self.state.select_index(index);
    }

    pub fn keymap(&self) -> (r: &'static str)
        ensures
            r@ == "↑↓: Move  →: Expand  ←: Collapse  f: Search  Enter: Open  t/Esc: Close"@,
    {
        "↑↓: Move  →: Expand  ←: Collapse  f: Search  Enter: Open  t/Esc: Close"
    }

    /// What a key does to the panel and what it answers (see `handle_event`).
    pub open spec fn key_result(before: Self, key: Key, after: Self, a: Action) -> bool {
        &&& after.state.wf()
        &&& (key == Key::Char('t') || key == Key::Esc) ==> a is CloseSidePanel && after.state == before.state
        &&& key == Key::Char('f') ==> after.state == before.state && (a matches Action::SetPromptMode(m)
            && *m matches PromptMode::Search { title, value, cursor, original_index }
            && title@ == "Search"@ && value@.len() == 0 && cursor == 0 && original_index == before.state.selected)
        &&& key == Key::Up ==> a is Nothing && after.state.flat_nodes == before.state.flat_nodes
            && after.state.selected == spec_prev(before.state.selected, before.state.flat_nodes@.len())
        &&& key == Key::Down ==> a is Nothing && after.state.flat_nodes == before.state.flat_nodes
            && after.state.selected == spec_next(before.state.selected, before.state.flat_nodes@.len())
        &&& (key == Key::Right || key == Key::Left) ==> a is Nothing
        &&& key == Key::Enter ==> after.state == before.state && match before.state.selected {
            Some(i) => a matches Action::NavigateTo(p) && p@ == before.state.flat_nodes@[i as int].path@,
            None => a is Nothing,
        }
        &&& !(key == Key::Char('t') || key == Key::Esc || key == Key::Char('f') || key == Key::Up || key == Key::Down
            || key == Key::Right || key == Key::Left || key == Key::Enter) ==> a is Nothing && after.state == before.state
    }

    /// `t`/Esc closes; `f` starts a search that remembers the selected row;
    /// Up/Down move; Right opens the selected directory, Left closes it (or
    /// goes up); Enter goes to the selected path.
    pub fn handle_event<L: Fn(&str) -> Result<Vec<VFile>, String>>(&mut self, key: Key, list: &L) -> (a: Action)
        requires
            old(self).state.wf(),
            forall|s: &str| call_requires(*list, (s,)),
        ensures
            Self::key_result(*old(self), key, *final(self), a),
    {
        match key {
            Key::Char('t') | Key::Esc => Action::CloseSidePanel,
            Key::Char('f') => {
                proof {
                    reveal_strlit("Search");
                }
                Action::SetPromptMode(Box::new(PromptMode::Search {
                    title: owned("Search"),
                    value: String::new(),
                    cursor: 0,
                    original_index: self.state.selected_index(),
                }))
            },
            Key::Up => {
                self.state.prev();
                Action::Nothing
            },
            Key::Down => {
                self.state.next();
                Action::Nothing
            },
            Key::Right => {
                self.state.expand_selected(list);
                Action::Nothing
            },
            Key::Left => {
                self.state.collapse_selected();
                Action::Nothing
            },
            Key::Enter => match self.state.selected_path() {
                Some(p) => Action::NavigateTo(owned(p)),
                None => Action::Nothing,
            },
            _ => Action::Nothing,
        }
    }

    /// The panel's title: `Tree (n)` with the number of rows.
    pub fn title(&self) -> (r: String)
        ensures
            r@ == "Tree ("@ + decimal(self.state.flat_nodes@.len()) + ")"@,
    {
        let mut t = owned("Tree (");
        push_decimal(&mut t, self.state.flat_nodes.len() as u64);
        push_str(&mut t, ")");
        t
    }
}

} // verus!
