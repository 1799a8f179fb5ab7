//! Enter on the file list.
use vstd::prelude::*;
use crate::fs::file::FileKind;
use crate::state::app_state::AppState;

verus! {

/// Enter: into a selected directory; another file is handed to `open`.
pub fn exec<O: Fn(&str) -> Result<(), String>>(state: &mut AppState, open: &O) -> (r: Result<(), String>)
    requires
        old(state).wf(),
        forall|s: &str| call_requires(*open, (s,)),
    ensures
        final(state).wf(),
        old(state).filer.selected is None ==> r is Ok && final(state).filer == old(state).filer,
        old(state).filer.selected matches Some(i) ==> (old(state).filer.current_dir_files@[i as int].metadata matches Some(m)
            ==> (m.kind == FileKind::Directory ==> (r is Ok
            && final(state).filer.current_dir.path@ == old(state).filer.current_dir_files@[i as int].path@))),
        *final(state) == old(state).with_filer(final(state).filer),
{
    crate::cmd::filer::enter_file(state, open)
}

} // verus!
