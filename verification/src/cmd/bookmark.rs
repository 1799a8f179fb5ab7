//! Commands of the bookmark panel.
use vstd::prelude::*;
use crate::state::app_state::AppState;
use crate::state::filer::FilerState;
use crate::state::table_cursor::{spec_first, spec_last, spec_next, spec_prev};
use crate::state::SidePanel;
use crate::store::{BookmarkStore, RootStore};
use crate::text::{owned, views};
use crate::state::path_list::{first_position, lemma_first_position_exists};

verus! {

pub fn up_cursor(state: &mut AppState) -> (r: Result<(), String>)
    requires
        old(state).wf(),
    ensures
        r is Ok,
        final(state).wf(),
        final(state).filer == old(state).filer,
        old(state).side_panel matches Some(SidePanel::Bookmark(b)) ==> (final(state).side_panel matches Some(SidePanel::Bookmark(c))
            && c.state.paths == b.state.paths && c.state.selected == spec_prev(b.state.selected, b.state.paths@.len())),
        !(old(state).side_panel matches Some(SidePanel::Bookmark(_))) ==> final(state).side_panel == old(state).side_panel,
        *final(state) == old(state).with_side_panel(final(state).side_panel),
{
    match &mut state.side_panel {
        Some(SidePanel::Bookmark(b)) => b.state.prev(),
        _ => {},
    }
    Ok(())
}

pub fn down_cursor(state: &mut AppState) -> (r: Result<(), String>)
    requires
        old(state).wf(),
    ensures
        r is Ok,
        final(state).wf(),
        final(state).filer == old(state).filer,
        old(state).side_panel matches Some(SidePanel::Bookmark(b)) ==> (final(state).side_panel matches Some(SidePanel::Bookmark(c))
            && c.state.paths == b.state.paths && c.state.selected == spec_next(b.state.selected, b.state.paths@.len())),
        !(old(state).side_panel matches Some(SidePanel::Bookmark(_))) ==> final(state).side_panel == old(state).side_panel,
        *final(state) == old(state).with_side_panel(final(state).side_panel),
{
    match &mut state.side_panel {
        Some(SidePanel::Bookmark(b)) => b.state.next(),
        _ => {},
    }
    Ok(())
}

pub fn first_cursor(state: &mut AppState) -> (r: Result<(), String>)
    requires
        old(state).wf(),
    ensures
        r is Ok,
        final(state).wf(),
        final(state).filer == old(state).filer,
        old(state).side_panel matches Some(SidePanel::Bookmark(b)) ==> (final(state).side_panel matches Some(SidePanel::Bookmark(c))
            && c.state.paths == b.state.paths && c.state.selected == spec_first(b.state.paths@.len())),
        !(old(state).side_panel matches Some(SidePanel::Bookmark(_))) ==> final(state).side_panel == old(state).side_panel,
        *final(state) == old(state).with_side_panel(final(state).side_panel),
{
    match &mut state.side_panel {
        Some(SidePanel::Bookmark(b)) => b.state.first(),
        _ => {},
    }
    Ok(())
}

pub fn last_cursor(state: &mut AppState) -> (r: Result<(), String>)
    requires
        old(state).wf(),
    ensures
        r is Ok,
        final(state).wf(),
        final(state).filer == old(state).filer,
        old(state).side_panel matches Some(SidePanel::Bookmark(b)) ==> (final(state).side_panel matches Some(SidePanel::Bookmark(c))
            && c.state.paths == b.state.paths && c.state.selected == spec_last(b.state.paths@.len())),
        !(old(state).side_panel matches Some(SidePanel::Bookmark(_))) ==> final(state).side_panel == old(state).side_panel,
        *final(state) == old(state).with_side_panel(final(state).side_panel),
{
    match &mut state.side_panel {
        Some(SidePanel::Bookmark(b)) => b.state.last(),
        _ => {},
    }
    Ok(())
}

/// Closes the bookmark panel and goes to its selected path (`is_dir` says
/// whether a path is a directory); other panels stay.
pub fn select<D: Fn(&str) -> bool>(state: &mut AppState, is_dir: &D) -> (r: Result<(), String>)
    requires
        old(state).wf(),
        forall|s: &str| call_requires(*is_dir, (s,)),
    ensures
        final(state).wf(),
        !(old(state).side_panel matches Some(SidePanel::Bookmark(_))) ==> r is Ok && final(state).side_panel == old(state).side_panel
            && final(state).filer == old(state).filer,
        old(state).side_panel matches Some(SidePanel::Bookmark(b)) ==> final(state).side_panel is None
            && (b.state.selected is None ==> r is Ok && final(state).filer == old(state).filer),
        r matches Err(e) ==> e@ == "Failed to navigate to bookmark"@,
        old(state).side_panel matches Some(SidePanel::Bookmark(b)) ==> (b.state.selected matches Some(i) ==> exists|s: &str, d: bool|
            s@ == b.state.paths@[i as int]@ && #[trigger] call_ensures(*is_dir, (s,), d)
            && FilerState::jumped(old(state).filer, b.state.paths@[i as int]@, d, final(state).filer, r is Ok)),
        *final(state) == old(state).with_side_panel(final(state).side_panel).with_filer(final(state).filer),
{
    let is_bookmark = match &state.side_panel {
        Some(SidePanel::Bookmark(_)) => true,
        _ => false,
    };
    if !is_bookmark {
        return Ok(());
    }
    let panel = state.side_panel.take();
    let path = match &panel {
        Some(SidePanel::Bookmark(b)) => match b.state.selected_path() {
            Some(p) => owned(p),
            None => {
                return Ok(());
            },
        },
        _ => {
            return Ok(());
        },
    };
    let ps = path.as_str();
    let d = is_dir(ps);
    assert(call_ensures(*is_dir, (ps,), d));
    match state.filer.jump_to(path.as_str(), d) {
        Ok(()) => Ok(()),
        Err(_) => Err(owned("Failed to navigate to bookmark")),
    }
}

/// Removes the selected bookmark from the store and has `save` write the
/// store; when that fails its error is returned and the panel still lists
/// the path, otherwise the path leaves the panel too.
pub fn remove_bookmark<S: Fn(&BookmarkStore) -> Result<(), String>>(state: &mut AppState, store: &mut RootStore, save: &S) -> (r: Result<(), String>)
    requires
        old(state).wf(),
        old(store).wf(),
        forall|b: &BookmarkStore| call_requires(*save, (b,)),
    ensures
        final(state).wf(),
        final(store).wf(),
        final(state).filer == old(state).filer,
        old(state).side_panel matches Some(SidePanel::Bookmark(b)) ==> (b.state.selected matches Some(i) ==>
            final(store).bookmark.path_set() == old(store).bookmark.path_set().remove(b.state.paths@[i as int]@)
            && *final(store) == (RootStore { bookmark: final(store).bookmark, ..*old(store) })
            && call_ensures(*save, (&final(store).bookmark,), r)),
        !(old(state).side_panel matches Some(SidePanel::Bookmark(b)) && b.state.selected is Some) ==> r is Ok && *final(store) == *old(store)
            && *final(state) == *old(state),
        r is Err ==> *final(state) == *old(state),
        old(state).side_panel matches Some(SidePanel::Bookmark(b)) ==> (b.state.selected matches Some(i) ==> (r is Ok ==> (
            final(state).side_panel matches Some(SidePanel::Bookmark(c)) && exists|k: int|
                #[trigger] first_position(views(b.state.paths@), b.state.paths@[i as int]@, k) && k <= i
                && c.state.paths@ == b.state.paths@.remove(k)))),
        *final(state) == old(state).with_side_panel(final(state).side_panel),
{
    let path = match &state.side_panel {
        Some(SidePanel::Bookmark(b)) => match b.state.selected_path() {
            Some(p) => owned(p),
            None => {
                return Ok(());
            },
        },
        _ => {
            return Ok(());
        },
    };
    store.bookmark.remove(path.as_str());
    let saved = save(&store.bookmark);
    assert(call_ensures(*save, (&store.bookmark,), saved));
    if saved.is_err() {
        return saved;
    }
    proof {
        if let Some(SidePanel::Bookmark(b)) = old(state).side_panel {
            let i = b.state.selected->Some_0;
            assert(views(b.state.paths@)[i as int] == path@);
            lemma_first_position_exists(views(b.state.paths@), path@, i as int);
        }
    }
    match &mut state.side_panel {
        Some(SidePanel::Bookmark(b)) => b.state.remove(path.as_str()),
        _ => {},
    }
    saved
}

/// Closes the bookmark panel (other panels stay).
pub fn hide_bookmark(state: &mut AppState) -> (r: Result<(), String>)
    requires
        old(state).wf(),
    ensures
        r is Ok,
        final(state).wf(),
        final(state).filer == old(state).filer,
        old(state).side_panel matches Some(SidePanel::Bookmark(_)) ==> final(state).side_panel is None,
        !(old(state).side_panel matches Some(SidePanel::Bookmark(_))) ==> final(state).side_panel == old(state).side_panel,
        *final(state) == old(state).with_side_panel(final(state).side_panel),
{
    let is_bookmark = match &state.side_panel {
        Some(SidePanel::Bookmark(_)) => true,
        _ => false,
    };
    if is_bookmark {
        state.side_panel = None;
    }
    Ok(())
}

} // verus!
