//! The quit command.
use vstd::prelude::*;
use crate::state::app_state::AppState;

verus! {

/// Stops the application.
pub fn exec(state: &mut AppState) -> (r: Result<(), String>)
    requires
        old(state).wf(),
    ensures
        r is Ok,
        final(state).wf(),
        !final(state).running,
        final(state).filer == old(state).filer,
        *final(state) == old(state).with_running(false),
{
    state.quit();
    Ok(())
}

} // verus!
