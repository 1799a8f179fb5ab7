//! One tab of the application: a file list and its directory history.
use vstd::prelude::*;
use crate::component::filer::FilerComponent;
use crate::state::history::DirHistory;

verus! {

pub struct FilerContext {
    pub filer: FilerComponent,
    pub history: DirHistory,
}

impl FilerContext {
    pub open spec fn wf(&self) -> bool {
        self.filer.wf() && self.history.wf()
    }

    pub fn new() -> (r: FilerContext)
        ensures
            r.wf(),
            r.filer.state.current_dir_files@.len() == 0,
            r.history.entries@.len() == 0,
    {
        FilerContext { filer: FilerComponent::new(), history: DirHistory::new() }
    }

    pub fn filer(&self) -> (r: &FilerComponent)
        ensures
            *r == self.filer,
    {
        &self.filer
    }

    pub fn filer_mut(&mut self) -> (r: &mut FilerComponent)
        ensures
            *r == old(self).filer,
            *final(self) == (FilerContext { filer: *final(r), history: old(self).history }),
    {
        &mut self.filer
    }

    pub fn history_mut(&mut self) -> (r: &mut DirHistory)
        ensures
            *r == old(self).history,
            *final(self) == (FilerContext { filer: old(self).filer, history: *final(r) }),
    {
        &mut self.history
    }

    /// A new tab in `dir`, with its listing requested and an empty history.
    pub fn duplicate_at(&self, dir: &str) -> (r: FilerContext)
        ensures
            r.wf(),
            r.filer.state.current_dir.path@ == dir@,
            r.filer.state.load_request matches Some(p) && p@ == dir@,
            r.filer.state.show_dot_file == self.filer.state.show_dot_file,
            r.filer.state.sort_key == self.filer.state.sort_key,
            r.history.entries@.len() == 0,
    {
        let mut filer = FilerComponent::new();
        filer.state.show_dot_file = self.filer.state.show_dot_file;
        filer.state.sort_key = self.filer.state.sort_key;
        filer.change_to(dir);
        FilerContext { filer, history: DirHistory::new() }
    }
}

} // verus!
