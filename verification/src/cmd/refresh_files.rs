//! Reading the directory again.
use vstd::prelude::*;
use crate::state::app_state::AppState;

verus! {

/// Requests a fresh listing of the current directory.
pub fn exec(state: &mut AppState)
    requires
        old(state).wf(),
    ensures
        final(state).wf(),
        final(state).filer.load_request matches Some(p) && p@ == old(state).filer.current_dir.path@,
        final(state).filer.current_dir == old(state).filer.current_dir,
        *final(state) == old(state).with_filer(final(state).filer),
{
    state.filer.refresh_files();
}

} // verus!
