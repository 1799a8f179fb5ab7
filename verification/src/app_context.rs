//! The state of the whole application: its tabs (one active), the prompt
//! line and the side panel.
use vstd::prelude::*;
use crate::component::filer::FilerComponent;
use crate::component::prompt::PromptComponent;
use crate::state::history::DirHistory;
use crate::state::{panel_ticked, panel_wf, FilerContext, SidePanel};
use crate::text::owned;

verus! {

pub struct AppContext {
    pub running: bool,
    /// The tabs, never fewer than one.
    pub contexts: Vec<FilerContext>,
    /// The position of the active tab.
    pub active: usize,
    pub prompt: PromptComponent,
    pub side_panel: Option<SidePanel>,
}

/// The index after moving to the next tab, going round.
pub open spec fn next_index(active: nat, count: nat) -> nat {
    if active + 1 < count { active + 1 } else { 0 }
}

/// The index after moving to the previous tab, going round.
pub open spec fn prev_index(active: nat, count: nat) -> nat {
    if active > 0 { (active - 1) as nat } else { (count - 1) as nat }
}

impl AppContext {
    /// There is a tab, the active one exists, and every part keeps its own
    /// invariant.
    pub open spec fn wf(&self) -> bool {
        &&& self.contexts@.len() >= 1
        &&& self.active < self.contexts@.len()
        &&& forall|i: int| 0 <= i < self.contexts@.len() ==> (#[trigger] self.contexts@[i]).wf()
        &&& self.prompt.wf()
        &&& (self.side_panel matches Some(p) ==> panel_wf(p))
    }

    /// A running application with one empty tab.
    pub fn new() -> (r: AppContext)
        ensures
            r.wf(),
            r.running,
            r.contexts@.len() == 1,
            r.active == 0,
            r.side_panel is None,
            r.prompt.mode is Idle,
    {
        AppContext { running: true, contexts: vec![FilerContext::new()], active: 0, prompt: PromptComponent::new(), side_panel: None }
    }

    pub fn active_filer(&self) -> (r: &FilerComponent)
        requires
            self.wf(),
        ensures
            *r == self.contexts@[self.active as int].filer,
    {
        self.contexts[self.active].filer()
    }

    pub fn active_filer_mut(&mut self) -> (r: &mut FilerComponent)
        requires
            old(self).wf(),
        ensures
            *r == old(self).contexts@[old(self).active as int].filer,
            final(self).contexts@ == old(self).contexts@.update(old(self).active as int,
                FilerContext { filer: *final(r), history: old(self).contexts@[old(self).active as int].history }),
            final(r).wf() ==> final(self).wf(),
            final(self).active == old(self).active,
            final(self).running == old(self).running,
            final(self).prompt == old(self).prompt,
            final(self).side_panel == old(self).side_panel,
    {
        let i = self.active;
        let ctx = vec_index_mut(&mut self.contexts, i);
        ctx.filer_mut()
    }

    pub fn active_history_mut(&mut self) -> (r: &mut DirHistory)
        requires
            old(self).wf(),
        ensures
            *r == old(self).contexts@[old(self).active as int].history,
            final(self).contexts@ == old(self).contexts@.update(old(self).active as int,
                FilerContext { filer: old(self).contexts@[old(self).active as int].filer, history: *final(r) }),
            final(self).active == old(self).active,
            final(self).running == old(self).running,
            final(self).prompt == old(self).prompt,
            final(self).side_panel == old(self).side_panel,
    {
        let i = self.active;
        let ctx = vec_index_mut(&mut self.contexts, i);
        ctx.history_mut()
    }

    pub fn context_count(&self) -> (r: usize)
        ensures
            r == self.contexts@.len(),
    {
        self.contexts.len()
    }

    pub fn active_index(&self) -> (r: usize)
        ensures
            r == self.active,
    {
        self.active
    }

    /// The current directory of every tab, in order.
    pub fn context_dirs(&self) -> (r: Vec<String>)
        ensures
            r@.len() == self.contexts@.len(),
            forall|i: int| 0 <= i < r@.len() ==> (#[trigger] r@[i])@ == self.contexts@[i].filer.state.current_dir.path@,
    {
        let mut out: Vec<String> = Vec::new();
        let mut i: usize = 0;
        while i < self.contexts.len()
            invariant
                i <= self.contexts@.len(),
                out@.len() == i,
                forall|j: int| 0 <= j < i ==> (#[trigger] out@[j])@ == self.contexts@[j].filer.state.current_dir.path@,
            decreases self.contexts@.len() - i,
        {
            out.push(owned(self.contexts[i].filer().current_dir_path()));
            i += 1;
        }
        out
    }

    /// Opens a tab on the active tab's directory right after it, and makes
    /// it active.
    pub fn new_context(&mut self) -> (r: Result<(), String>)
        requires
            old(self).wf(),
        ensures
            r is Ok,
            final(self).wf(),
            final(self).contexts@.len() == old(self).contexts@.len() + 1,
            final(self).active == old(self).active + 1,
            final(self).contexts@[final(self).active as int].filer.state.current_dir.path@
                == old(self).contexts@[old(self).active as int].filer.state.current_dir.path@,
            forall|j: int| 0 <= j <= old(self).active ==> final(self).contexts@[j] == old(self).contexts@[j],
            forall|j: int| old(self).active < j < old(self).contexts@.len() ==> final(self).contexts@[j + 1] == old(self).contexts@[j],
    {
        let dir = owned(self.active_filer().current_dir_path());
        let context = self.contexts[self.active].duplicate_at(dir.as_str());
        let len = self.contexts.len();
        assert(self.active < len);
        self.active = self.active + 1;
        self.contexts.insert(self.active, context);
        Ok(())
    }

    /// Goes to the next tab, from the last to the first.
    pub fn next_context(&mut self)
        requires
            old(self).wf(),
        ensures
            final(self).wf(),
            final(self).contexts == old(self).contexts,
            final(self).active == next_index(old(self).active as nat, old(self).contexts@.len()),
    {
        if self.active < self.contexts.len() - 1 {
            self.active = self.active + 1;
        } else {
            self.active = 0;
        }
    }

    /// Goes to the previous tab, from the first to the last.
    pub fn prev_context(&mut self)
        requires
            old(self).wf(),
        ensures
            final(self).wf(),
            final(self).contexts == old(self).contexts,
            final(self).active == prev_index(old(self).active as nat, old(self).contexts@.len()),
    {
        if self.active > 0 {
            self.active = self.active - 1;
        } else {
            self.active = self.contexts.len() - 1;
        }
    }

    /// Closes the active tab, unless it is the last one; the tab that takes
    /// its place (or the one before, at the end) becomes active.
    pub fn close_context(&mut self)
        requires
            old(self).wf(),
        ensures
            final(self).wf(),
            old(self).contexts@.len() <= 1 ==> *final(self) == *old(self),
            old(self).contexts@.len() > 1 ==> final(self).contexts@ == old(self).contexts@.remove(old(self).active as int)
                && final(self).active == (if old(self).active < final(self).contexts@.len() {
                    old(self).active as int
                } else {
                    final(self).contexts@.len() - 1
                }),
    {
        if self.contexts.len() <= 1 {
            return;
        }
        self.contexts.remove(self.active);
        if self.active >= self.contexts.len() {
            self.active = self.contexts.len() - 1;
        }
    }

    /// Starts the active tab in `startup_dir`, or in the working directory
    /// `current_dir`.
    pub fn init(&mut self, startup_dir: Option<String>, current_dir: &str) -> (r: Result<(), String>)
        requires
            old(self).wf(),
        ensures
            r is Ok,
            final(self).wf(),
            final(self).active == old(self).active,
            final(self).contexts@.len() == old(self).contexts@.len(),
            final(self).contexts@[final(self).active as int].filer.state.current_dir.path@ == match startup_dir {
                Some(d) => d@,
                None => current_dir@,
            },
    {
        let i = self.active;
        let ctx = vec_index_mut(&mut self.contexts, i);
        ctx.filer.init(startup_dir, current_dir);
        Ok(())
    }

    pub fn quit(&mut self)
        ensures
            !final(self).running,
            final(self).contexts == old(self).contexts,
            final(self).active == old(self).active,
            final(self).prompt == old(self).prompt,
            final(self).side_panel == old(self).side_panel,
    {
        self.running = false;
    }

    /// Takes in what every tab's listing, the prompt's job and the side
    /// panel have sent.
    pub fn tick(&mut self)
        requires
            old(self).wf(),
        ensures
            final(self).wf(),
            final(self).active == old(self).active,
            final(self).contexts@.len() == old(self).contexts@.len(),
            final(self).running == old(self).running,
            forall|i: int| 0 <= i < old(self).contexts@.len() ==> (#[trigger] final(self).contexts@[i]).history
                == old(self).contexts@[i].history && FilerComponent::ticked(old(self).contexts@[i].filer, final(self).contexts@[i].filer),
            PromptComponent::ticked(old(self).prompt, final(self).prompt),
            match old(self).side_panel {
                Some(p) => final(self).side_panel matches Some(q) && panel_ticked(p, q),
                None => final(self).side_panel is None,
            },
    {
        let len = self.contexts.len();
        let mut i: usize = 0;
        while i < len
            invariant
                len == self.contexts@.len(),
                len == old(self).contexts@.len(),
                i <= len,
                self.wf(),
                self.active == old(self).active,
                self.running == old(self).running,
                self.prompt == old(self).prompt,
                self.side_panel == old(self).side_panel,
                forall|j: int| 0 <= j < i ==> (#[trigger] self.contexts@[j]).history == old(self).contexts@[j].history
                    && FilerComponent::ticked(old(self).contexts@[j].filer, self.contexts@[j].filer),
                forall|j: int| i <= j < len ==> #[trigger] self.contexts@[j] == old(self).contexts@[j],
            decreases len - i,
        {
            let ctx = vec_index_mut(&mut self.contexts, i);
            ctx.filer.tick();
            i += 1;
        }
        self.prompt.tick();
        match &mut self.side_panel {
            Some(p) => p.tick(),
            None => {},
        }
    }
}

/// A mutable reference to element `i`.
fn vec_index_mut<T>(v: &mut Vec<T>, i: usize) -> (r: &mut T)
    requires
        i < old(v)@.len(),
    ensures
        *r == old(v)@[i as int],
        final(v)@ == old(v)@.update(i as int, *final(r)),
{
    &mut v[i]
}

/// Moving to the next tab and then to the previous one comes back to the
/// same tab, and so does the other order.
pub proof fn lemma_next_prev_inverse(active: nat, count: nat)
    requires
        active < count,
    ensures
        prev_index(next_index(active, count), count) == active,
        next_index(prev_index(active, count), count) == active,
{
}

} // verus!
