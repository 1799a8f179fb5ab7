//! Commands of the bookmark list.
use vstd::prelude::*;
use crate::path::{spec_file_name, spec_parent};
use crate::state::app_state::AppState;
use crate::state::path_list::PathListState;
use crate::state::table_cursor::{spec_first, spec_next, spec_prev};

verus! {

/// Opens the list on the bookmarked paths.
pub fn show(state: &mut AppState) -> (r: Result<(), String>)
    requires
        old(state).wf(),
    ensures
        r is Ok,
        final(state).wf(),
        final(state).filer == old(state).filer,
        final(state).bookmark_list matches Some(l) && l.paths@ == old(state).bookmarked_paths@
            && l.selected == spec_first(old(state).bookmarked_paths@.len()),
        *final(state) == old(state).with_bookmark_list(final(state).bookmark_list),
{
    state.bookmark_list = Some(PathListState::new(state.bookmarked_paths.clone(), None));
    Ok(())
}

pub fn close(state: &mut AppState) -> (r: Result<(), String>)
    requires
        old(state).wf(),
    ensures
        r is Ok,
        final(state).wf(),
        final(state).bookmark_list is None,
        final(state).filer == old(state).filer,
        *final(state) == old(state).with_bookmark_list(None),
{
    state.bookmark_list = None;
    Ok(())
}

pub fn up_cursor(state: &mut AppState) -> (r: Result<(), String>)
    requires
        old(state).wf(),
    ensures
        r is Ok,
        final(state).wf(),
        final(state).filer == old(state).filer,
        match old(state).bookmark_list {
            Some(l) => final(state).bookmark_list matches Some(m) && m.paths == l.paths
                && m.selected == spec_prev(l.selected, l.paths@.len()),
            None => final(state).bookmark_list is None,
        },
        *final(state) == old(state).with_bookmark_list(final(state).bookmark_list),
{
    match &mut state.bookmark_list {
        Some(l) => l.prev(),
        None => {},
    }
    Ok(())
}

pub fn down_cursor(state: &mut AppState) -> (r: Result<(), String>)
    requires
        old(state).wf(),
    ensures
        r is Ok,
        final(state).wf(),
        final(state).filer == old(state).filer,
        match old(state).bookmark_list {
            Some(l) => final(state).bookmark_list matches Some(m) && m.paths == l.paths
                && m.selected == spec_next(l.selected, l.paths@.len()),
            None => final(state).bookmark_list is None,
        },
        *final(state) == old(state).with_bookmark_list(final(state).bookmark_list),
{
    match &mut state.bookmark_list {
        Some(l) => l.next(),
        None => {},
    }
    Ok(())
}

/// Goes to the directory of the selected bookmark with the cursor on it,
/// and closes the list.
pub fn select(state: &mut AppState) -> (r: Result<(), String>)
    requires
        old(state).wf(),
    ensures
        r is Ok,
        final(state).wf(),
        final(state).bookmark_list is None,
        old(state).bookmark_list matches Some(l) ==> (l.selected matches Some(i) ==> (spec_parent(l.paths@[i as int]@) matches Some(p)
            ==> (final(state).filer.current_dir.path@ == p
                && (spec_file_name(l.paths@[i as int]@) matches Some(n) ==> (final(state).filer.pending_select_name matches Some(s) && s@ == n))))),
        *final(state) == old(state).with_bookmark_list(None).with_filer(final(state).filer),
{
    let target = match &state.bookmark_list {
        Some(l) => match l.selected_path() {
            Some(p) => Some(crate::text::owned(p)),
            None => None,
        },
        None => None,
    };
    match target {
        Some(path) => match crate::path::parent(path.as_str()) {
            Some(parent) => {
                let name = crate::path::file_name(path.as_str());
                state.filer.change_to(parent.as_str());
                match name {
                    Some(n) => {
                        state.filer.set_pending_select_name(n);
                        state.filer.refresh_files();
                    },
                    None => {},
                }
            },
            None => {},
        },
        None => {},
    }
    state.bookmark_list = None;
    Ok(())
}

} // verus!
