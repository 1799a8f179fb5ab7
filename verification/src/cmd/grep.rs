//! Commands of the grep panel.
use vstd::prelude::*;
use crate::state::app_state::AppState;
use crate::state::filer::FilerState;
use crate::state::table_cursor::{spec_first, spec_last, spec_next, spec_prev};
use crate::state::SidePanel;
use crate::text::owned;

verus! {

pub fn up_cursor(state: &mut AppState) -> (r: Result<(), String>)
    requires
        old(state).wf(),
    ensures
        r is Ok,
        final(state).wf(),
        final(state).filer == old(state).filer,
        old(state).side_panel matches Some(SidePanel::Grep(g)) ==> (final(state).side_panel matches Some(SidePanel::Grep(h))
            && h.state.paths == g.state.paths && h.state.selected == spec_prev(g.state.selected, g.state.paths@.len())),
        !(old(state).side_panel matches Some(SidePanel::Grep(_))) ==> final(state).side_panel == old(state).side_panel,
        *final(state) == old(state).with_side_panel(final(state).side_panel),
{
    match &mut state.side_panel {
        Some(SidePanel::Grep(g)) => g.state.prev(),
        _ => {},
    }
    Ok(())
}

pub fn down_cursor(state: &mut AppState) -> (r: Result<(), String>)
    requires
        old(state).wf(),
    ensures
        r is Ok,
        final(state).wf(),
        final(state).filer == old(state).filer,
        old(state).side_panel matches Some(SidePanel::Grep(g)) ==> (final(state).side_panel matches Some(SidePanel::Grep(h))
            && h.state.paths == g.state.paths && h.state.selected == spec_next(g.state.selected, g.state.paths@.len())),
        !(old(state).side_panel matches Some(SidePanel::Grep(_))) ==> final(state).side_panel == old(state).side_panel,
        *final(state) == old(state).with_side_panel(final(state).side_panel),
{
    match &mut state.side_panel {
        Some(SidePanel::Grep(g)) => g.state.next(),
        _ => {},
    }
    Ok(())
}

pub fn first_cursor(state: &mut AppState) -> (r: Result<(), String>)
    requires
        old(state).wf(),
    ensures
        r is Ok,
        final(state).wf(),
        final(state).filer == old(state).filer,
        old(state).side_panel matches Some(SidePanel::Grep(g)) ==> (final(state).side_panel matches Some(SidePanel::Grep(h))
            && h.state.paths == g.state.paths && h.state.selected == spec_first(g.state.paths@.len())),
        !(old(state).side_panel matches Some(SidePanel::Grep(_))) ==> final(state).side_panel == old(state).side_panel,
        *final(state) == old(state).with_side_panel(final(state).side_panel),
{
    match &mut state.side_panel {
        Some(SidePanel::Grep(g)) => g.state.first(),
        _ => {},
    }
    Ok(())
}

pub fn last_cursor(state: &mut AppState) -> (r: Result<(), String>)
    requires
        old(state).wf(),
    ensures
        r is Ok,
        final(state).wf(),
        final(state).filer == old(state).filer,
        old(state).side_panel matches Some(SidePanel::Grep(g)) ==> (final(state).side_panel matches Some(SidePanel::Grep(h))
            && h.state.paths == g.state.paths && h.state.selected == spec_last(g.state.paths@.len())),
        !(old(state).side_panel matches Some(SidePanel::Grep(_))) ==> final(state).side_panel == old(state).side_panel,
        *final(state) == old(state).with_side_panel(final(state).side_panel),
{
    match &mut state.side_panel {
        Some(SidePanel::Grep(g)) => g.state.last(),
        _ => {},
    }
    Ok(())
}

/// Closes the side panel and, when it was the grep panel with a selected
/// result, goes to that file (`is_dir` says whether a path is a directory).
pub fn select<D: Fn(&str) -> bool>(state: &mut AppState, is_dir: &D) -> (r: Result<(), String>)
    requires
        old(state).wf(),
        forall|s: &str| call_requires(*is_dir, (s,)),
    ensures
        final(state).wf(),
        final(state).side_panel is None,
        !(old(state).side_panel matches Some(SidePanel::Grep(g)) && g.state.selected is Some) ==> r is Ok && final(state).filer == old(state).filer,
        r matches Err(e) ==> e@ == "Failed to navigate to grep result"@,
        old(state).side_panel matches Some(SidePanel::Grep(g)) ==> (g.state.selected matches Some(i) ==> exists|s: &str, d: bool|
            s@ == g.state.paths@[i as int]@ && #[trigger] call_ensures(*is_dir, (s,), d)
            && FilerState::jumped(old(state).filer, g.state.paths@[i as int]@, d, final(state).filer, r is Ok)),
        *final(state) == old(state).with_side_panel(None).with_filer(final(state).filer),
{
    let selected = match &state.side_panel {
        Some(SidePanel::Grep(g)) => match g.state.selected_path() {
            Some(p) => Some(owned(p)),
            None => None,
        },
        _ => None,
    };
    state.side_panel = None;
    match selected {
        Some(path) => {
            let ps = path.as_str();
            let d = is_dir(ps);
            assert(call_ensures(*is_dir, (ps,), d));
            match state.filer.jump_to(path.as_str(), d) {
                Ok(()) => Ok(()),
                Err(_) => Err(owned("Failed to navigate to grep result")),
            }
        },
        None => Ok(()),
    }
}

/// Closes the side panel.
pub fn hide_grep(state: &mut AppState) -> (r: Result<(), String>)
    requires
        old(state).wf(),
    ensures
        r is Ok,
        final(state).wf(),
        final(state).side_panel is None,
        final(state).filer == old(state).filer,
        *final(state) == old(state).with_side_panel(None),
{
    state.side_panel = None;
    Ok(())
}

} // verus!
