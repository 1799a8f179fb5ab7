//! Moving the file list's cursor.
use vstd::prelude::*;
use crate::state::app_state::AppState;
use crate::state::table_cursor::{spec_first, spec_last, spec_next, spec_prev};

verus! {

pub fn up(state: &mut AppState) -> (r: Result<(), String>)
    requires
        old(state).wf(),
    ensures
        r is Ok,
        final(state).wf(),
        final(state).filer.selected == spec_prev(old(state).filer.selected, old(state).filer.current_dir_files@.len()),
        final(state).filer.current_dir_files == old(state).filer.current_dir_files,
        *final(state) == old(state).with_filer(old(state).filer.with_selected(final(state).filer.selected)),
{
    state.filer.prev();
    Ok(())
}

pub fn down(state: &mut AppState) -> (r: Result<(), String>)
    requires
        old(state).wf(),
    ensures
        r is Ok,
        final(state).wf(),
        final(state).filer.selected == spec_next(old(state).filer.selected, old(state).filer.current_dir_files@.len()),
        final(state).filer.current_dir_files == old(state).filer.current_dir_files,
        *final(state) == old(state).with_filer(old(state).filer.with_selected(final(state).filer.selected)),
{
    state.filer.next();
    Ok(())
}

pub fn first(state: &mut AppState) -> (r: Result<(), String>)
    requires
        old(state).wf(),
    ensures
        r is Ok,
        final(state).wf(),
        final(state).filer.selected == spec_first(old(state).filer.current_dir_files@.len()),
        final(state).filer.current_dir_files == old(state).filer.current_dir_files,
        *final(state) == old(state).with_filer(old(state).filer.with_selected(final(state).filer.selected)),
{
    state.filer.first();
    Ok(())
}

pub fn last(state: &mut AppState) -> (r: Result<(), String>)
    requires
        old(state).wf(),
    ensures
        r is Ok,
        final(state).wf(),
        final(state).filer.selected == spec_last(old(state).filer.current_dir_files@.len()),
        final(state).filer.current_dir_files == old(state).filer.current_dir_files,
        *final(state) == old(state).with_filer(old(state).filer.with_selected(final(state).filer.selected)),
{
    state.filer.last();
    Ok(())
}

} // verus!
