//! Opening the attribute panel.
use vstd::prelude::*;
use crate::component::attribute::AttributeComponent;
use crate::state::app_state::AppState;
use crate::state::SidePanel;

verus! {

/// Opens the attribute panel of the selected file, unless a panel is open
/// or nothing is selected; an error when the file's metadata is missing.
pub fn show_attribute(state: &mut AppState) -> (r: Result<(), String>)
    requires
        old(state).wf(),
    ensures
        final(state).wf(),
        final(state).filer == old(state).filer,
        (old(state).side_panel is Some || old(state).filer.selected is None) ==> r is Ok && final(state).side_panel == old(state).side_panel,
        old(state).side_panel is None ==> (old(state).filer.selected matches Some(i) ==> ((
            old(state).filer.current_dir_files@[i as int].metadata is None <==> r is Err)
            && (r is Ok ==> (final(state).side_panel matches Some(SidePanel::Attribute(c))
                && c.file == old(state).filer.current_dir_files@[i as int])))),
        r is Err ==> *final(state) == *old(state),
        *final(state) == old(state).with_side_panel(final(state).side_panel),
{
    if state.side_panel.is_some() {
        return Ok(());
    }
    let file = match state.filer.selected_file() {
        Some(f) => f,
        None => {
            return Ok(());
        },
    };
    match AttributeComponent::new(file) {
        Ok(c) => {
            state.side_panel = Some(SidePanel::Attribute(c));
            Ok(())
        },
        Err(e) => Err(e),
    }
}

} // verus!
