//! The bookmark panel: the saved paths, one selected.
use vstd::prelude::*;
use crate::component::Action;
use crate::key::Key;
use crate::state::path_list::{first_position, lemma_first_position_exists, PathListState};
use crate::state::table_cursor::{spec_clamp, spec_first, spec_last, spec_next, spec_prev};
use crate::text::{owned, views};

verus! {

pub struct BookmarkComponent {
    pub state: PathListState,
}

impl BookmarkComponent {
    /// The panel over `paths`, the first one selected.
    pub fn new(paths: Vec<String>) -> (r: BookmarkComponent)
        ensures
            r.state.paths@ == paths@,
            r.state.selected == spec_first(paths@.len()),
            r.state.rx is None,
            r.state.wf(),
    {
        BookmarkComponent { state: PathListState::new(paths, None) }
    }

    pub fn keymap(&self) -> (r: &'static str)
        ensures
            r@ == "↑↓: Move  ←→: Top/Bottom  Enter: Open  -: Remove  b/Esc: Close"@,
    {
        "↑↓: Move  ←→: Top/Bottom  Enter: Open  -: Remove  b/Esc: Close"
    }

    /// What a key does to the panel and what it answers (see `handle_event`).
    pub open spec fn key_result(before: Self, key: Key, after: Self, a: Action) -> bool {
        &&& after.state.wf()
        &&& after.state.rx == before.state.rx
        &&& (key == Key::Char('b') || key == Key::Esc) ==> a is CloseSidePanel && after.state == before.state
        &&& key == Key::Up ==> a is Nothing && after.state.paths == before.state.paths
            && after.state.selected == spec_prev(before.state.selected, before.state.paths@.len())
        &&& key == Key::Down ==> a is Nothing && after.state.paths == before.state.paths
            && after.state.selected == spec_next(before.state.selected, before.state.paths@.len())
        &&& key == Key::Left ==> a is Nothing && after.state.paths == before.state.paths
            && after.state.selected == spec_first(before.state.paths@.len())
        &&& key == Key::Right ==> a is Nothing && after.state.paths == before.state.paths
            && after.state.selected == spec_last(before.state.paths@.len())
        &&& key == Key::Enter ==> after.state == before.state && match before.state.selected {
            Some(i) => a matches Action::NavigateTo(p) && p@ == before.state.paths@[i as int]@,
            None => a is Nothing,
        }
        &&& key == Key::Char('-') ==> match before.state.selected {
            Some(i) => (a matches Action::RemoveBookmark(p) && p@ == before.state.paths@[i as int]@)
                && (forall|k: int| #[trigger] first_position(views(before.state.paths@), before.state.paths@[i as int]@, k)
                    ==> after.state.paths@ == before.state.paths@.remove(k))
                && after.state.selected == spec_clamp(before.state.selected, (before.state.paths@.len() - 1) as nat),
            None => a is Nothing && after.state == before.state,
        }
        &&& !(key == Key::Char('b') || key == Key::Esc || key == Key::Up || key == Key::Down || key == Key::Left
            || key == Key::Right || key == Key::Enter || key == Key::Char('-')) ==> a is Nothing && after.state == before.state
    }

    /// `b`/Esc closes the panel; the arrows move (Left and Right to the first
    /// and last row); Enter goes to the selected path; `-` takes it out of
    /// the list and asks for it to be removed from the saved bookmarks.
    pub fn handle_event(&mut self, key: Key) -> (a: Action)
        requires
            old(self).state.wf(),
        ensures
            Self::key_result(*old(self), key, *final(self), a),
    {
        match key {
            Key::Char('b') | Key::Esc => Action::CloseSidePanel,
            Key::Up => {
                self.state.prev();
                Action::Nothing
            },
            Key::Down => {
                self.state.next();
                Action::Nothing
            },
            Key::Left => {
                self.state.first();
                Action::Nothing
            },
            Key::Right => {
                self.state.last();
                Action::Nothing
            },
            Key::Enter => match self.state.selected_path() {
                Some(p) => Action::NavigateTo(owned(p)),
                None => Action::Nothing,
            },
            Key::Char('-') => {
                let path = match self.state.selected_path() {
                    Some(p) => owned(p),
                    None => {
                        return Action::Nothing;
                    },
                };
                let ghost i = self.state.selected->0;
                proof {
                    assert(views(old(self).state.paths@)[i as int] == old(self).state.paths@[i as int]@);
                    lemma_first_position_exists(views(old(self).state.paths@), path@, i as int);
                }
                self.state.remove(path.as_str());
                proof {
                    let k = choose|k: int| first_position(views(old(self).state.paths@), path@, k) && k <= i;
                    assert(first_position(views(old(self).state.paths@), path@, k));
                }
                Action::RemoveBookmark(path)
            },
            _ => Action::Nothing,
        }
    }
}

} // verus!
