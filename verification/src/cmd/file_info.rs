//! Opening the file info panel.
use vstd::prelude::*;
use crate::component::file_info::FileInfoComponent;
use crate::fs::file::VFile;
use crate::fs::file_info_task::FileInfoHandle;
use crate::state::app_state::AppState;
use crate::state::SidePanel;

verus! {

/// Opens the file info panel of the selected file, unless a panel is open
/// or nothing is selected; `spawn` starts the task that gathers the info.
pub fn show_file_info<S: Fn(&VFile) -> FileInfoHandle>(state: &mut AppState, spawn: &S) -> (r: Result<(), String>)
    requires
        old(state).wf(),
        forall|f: &VFile| call_requires(*spawn, (f,)),
    ensures
        r is Ok,
        final(state).wf(),
        final(state).filer == old(state).filer,
        (old(state).side_panel is Some || old(state).filer.selected is None) ==> final(state).side_panel == old(state).side_panel,
        old(state).side_panel is None && old(state).filer.selected is Some ==> (final(state).side_panel matches Some(p) && p is FileInfo),
        (old(state).side_panel is Some || old(state).filer.selected is None) ==> *final(state) == *old(state),
        old(state).side_panel is None ==> (old(state).filer.selected matches Some(i) ==> (
            final(state).side_panel matches Some(SidePanel::FileInfo(c)) && c.title@.len() == 0 && c.text_output.lines@.len() == 0
            && c.text_output.scroll == 0 && (c.handle matches Some(h)
            && call_ensures(*spawn, (&old(state).filer.current_dir_files@[i as int],), h)))),
        *final(state) == old(state).with_side_panel(final(state).side_panel),
{
    if state.side_panel.is_some() {
        return Ok(());
    }
    let file = match state.filer.selected_file() {
        Some(f) => f,
        None => {
            return Ok(());
        },
    };
    let handle = spawn(file);
    assert(call_ensures(*spawn, (file,), handle));
    state.side_panel = Some(SidePanel::FileInfo(FileInfoComponent::new(handle)));
    Ok(())
}

} // verus!
