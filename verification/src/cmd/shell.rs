//! Commands of the shell output panel.
use vstd::prelude::*;
use crate::key::Key;
use crate::state::app_state::AppState;
use crate::state::SidePanel;
use crate::text_output::scrolled;

verus! {

pub fn scroll_up(state: &mut AppState) -> (r: Result<(), String>)
    requires
        old(state).wf(),
    ensures
        r is Ok,
        final(state).wf(),
        final(state).filer == old(state).filer,
        old(state).side_panel matches Some(SidePanel::Shell(t)) ==> (final(state).side_panel matches Some(SidePanel::Shell(u))
            && u.lines@ == t.lines@ && u.scroll == scrolled(t.scroll as nat, t.lines@.len(), Key::Up)->Some_0),
        !(old(state).side_panel matches Some(SidePanel::Shell(_))) ==> final(state).side_panel == old(state).side_panel,
        *final(state) == old(state).with_side_panel(final(state).side_panel),
{
    match &mut state.side_panel {
        Some(SidePanel::Shell(t)) => t.scroll_up(),
        _ => {},
    }
    Ok(())
}

pub fn scroll_down(state: &mut AppState) -> (r: Result<(), String>)
    requires
        old(state).wf(),
    ensures
        r is Ok,
        final(state).wf(),
        final(state).filer == old(state).filer,
        old(state).side_panel matches Some(SidePanel::Shell(t)) ==> (final(state).side_panel matches Some(SidePanel::Shell(u))
            && u.lines@ == t.lines@ && u.scroll == scrolled(t.scroll as nat, t.lines@.len(), Key::Down)->Some_0),
        !(old(state).side_panel matches Some(SidePanel::Shell(_))) ==> final(state).side_panel == old(state).side_panel,
        *final(state) == old(state).with_side_panel(final(state).side_panel),
{
    match &mut state.side_panel {
        Some(SidePanel::Shell(t)) => t.scroll_down(),
        _ => {},
    }
    Ok(())
}

pub fn scroll_to_top(state: &mut AppState) -> (r: Result<(), String>)
    requires
        old(state).wf(),
    ensures
        r is Ok,
        final(state).wf(),
        final(state).filer == old(state).filer,
        old(state).side_panel matches Some(SidePanel::Shell(t)) ==> (final(state).side_panel matches Some(SidePanel::Shell(u))
            && u.lines@ == t.lines@ && u.scroll == 0),
        !(old(state).side_panel matches Some(SidePanel::Shell(_))) ==> final(state).side_panel == old(state).side_panel,
        *final(state) == old(state).with_side_panel(final(state).side_panel),
{
    match &mut state.side_panel {
        Some(SidePanel::Shell(t)) => t.scroll_to_top(),
        _ => {},
    }
    Ok(())
}

pub fn scroll_to_bottom(state: &mut AppState) -> (r: Result<(), String>)
    requires
        old(state).wf(),
    ensures
        r is Ok,
        final(state).wf(),
        final(state).filer == old(state).filer,
        old(state).side_panel matches Some(SidePanel::Shell(t)) ==> (final(state).side_panel matches Some(SidePanel::Shell(u))
            && u.lines@ == t.lines@ && u.scroll == scrolled(t.scroll as nat, t.lines@.len(), Key::Right)->Some_0),
        !(old(state).side_panel matches Some(SidePanel::Shell(_))) ==> final(state).side_panel == old(state).side_panel,
        *final(state) == old(state).with_side_panel(final(state).side_panel),
{
    match &mut state.side_panel {
        Some(SidePanel::Shell(t)) => t.scroll_to_bottom(),
        _ => {},
    }
    Ok(())
}

/// Closes the shell output panel (other panels stay).
pub fn hide_shell(state: &mut AppState) -> (r: Result<(), String>)
    requires
        old(state).wf(),
    ensures
        r is Ok,
        final(state).wf(),
        final(state).filer == old(state).filer,
        old(state).side_panel matches Some(SidePanel::Shell(_)) ==> final(state).side_panel is None,
        !(old(state).side_panel matches Some(SidePanel::Shell(_))) ==> final(state).side_panel == old(state).side_panel,
        *final(state) == old(state).with_side_panel(final(state).side_panel),
{
    let is_shell = match &state.side_panel {
        Some(SidePanel::Shell(_)) => true,
        _ => false,
    };
    if is_shell {
        state.side_panel = None;
    }
    Ok(())
}

} // verus!
