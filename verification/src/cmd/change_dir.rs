//! Going up a directory.
use vstd::prelude::*;
use crate::path::spec_parent;
use crate::state::app_state::AppState;

verus! {

/// Goes up to the parent directory (see `FilerState::change_dir_in_parent_dir`).
pub fn parent_dir(state: &mut AppState) -> (r: Result<(), String>)
    requires
        old(state).wf(),
    ensures
        r is Ok,
        final(state).wf(),
        spec_parent(old(state).filer.current_dir.path@) matches Some(p) ==> final(state).filer.current_dir.path@ == p,
        spec_parent(old(state).filer.current_dir.path@) is None ==> final(state).filer == old(state).filer,
        final(state).side_panel == old(state).side_panel,
        *final(state) == old(state).with_filer(final(state).filer),
{
    state.filer.change_dir_in_parent_dir();
    Ok(())
}

} // verus!
