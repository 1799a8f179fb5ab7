//! A list of paths with a selected row, filled at once (bookmarks) or as
//! results arrive from another thread (grep).
use std::sync::mpsc::Receiver;
use vstd::prelude::*;
use crate::jobs::{try_receive, Received};
use crate::state::table_cursor::{self, in_range, spec_first, spec_last, spec_next, spec_prev, spec_clamp};
use crate::text::views;

verus! {

/// The first position of `p` in `s`, if it occurs.
pub open spec fn first_position(s: Seq<Seq<char>>, p: Seq<char>, k: int) -> bool {
    &&& 0 <= k < s.len()
    &&& s[k] == p
    &&& forall|j: int| 0 <= j < k ==> s[j] != p
}

/// Where `p` occurs at `j`, it has a first position, at or before `j`.
pub proof fn lemma_first_position_exists(s: Seq<Seq<char>>, p: Seq<char>, j: int)
    requires
        0 <= j < s.len(),
        s[j] == p,
    ensures
        exists|k: int| first_position(s, p, k) && k <= j,
    decreases j,
{
    if forall|m: int| 0 <= m < j ==> s[m] != p {
        assert(first_position(s, p, j));
    } else {
        let m = choose|m: int| 0 <= m < j && s[m] == p;
        lemma_first_position_exists(s, p, m);
    }
}

pub struct PathListState {
    pub paths: Vec<String>,
    pub selected: Option<usize>,
    /// Where more paths arrive while the search that finds them runs.
    pub rx: Option<Receiver<String>>,
}

impl PathListState {
    /// The selection is a row of the list.
    pub open spec fn wf(&self) -> bool {
        in_range(self.selected, self.paths@.len())
    }

    /// A list showing `paths`, the first one selected; `rx`, when given,
    /// brings more.
    pub fn new(paths: Vec<String>, rx: Option<Receiver<String>>) -> (r: PathListState)
        ensures
            r.paths@ == paths@,
            r.selected == spec_first(paths@.len()),
            r.rx == rx,
            r.wf(),
    {
        let selected = table_cursor::first(paths.len());
        PathListState { paths, selected, rx }
    }

    pub fn prev(&mut self)
        ensures
            final(self).paths == old(self).paths,
            final(self).rx == old(self).rx,
            final(self).selected == spec_prev(old(self).selected, old(self).paths@.len()),
            final(self).wf(),
    {
        self.selected = table_cursor::prev(self.selected, self.paths.len());
    }

    pub fn next(&mut self)
        ensures
            final(self).paths == old(self).paths,
            final(self).rx == old(self).rx,
            final(self).selected == spec_next(old(self).selected, old(self).paths@.len()),
            final(self).wf(),
    {
        self.selected = table_cursor::next(self.selected, self.paths.len());
    }

    pub fn first(&mut self)
        ensures
            final(self).paths == old(self).paths,
            final(self).rx == old(self).rx,
            final(self).selected == spec_first(old(self).paths@.len()),
            final(self).wf(),
    {
        self.selected = table_cursor::first(self.paths.len());
    }

    pub fn last(&mut self)
        ensures
            final(self).paths == old(self).paths,
            final(self).rx == old(self).rx,
            final(self).selected == spec_last(old(self).paths@.len()),
            final(self).wf(),
    {
        self.selected = table_cursor::last(self.paths.len());
    }

    /// The path on the selected row.
    pub fn selected_path(&self) -> (r: Option<&str>)
        requires
            self.wf(),
        ensures
            match self.selected {
                Some(i) => r matches Some(p) && p@ == self.paths@[i as int]@,
                None => r is None,
            },
    {
        match self.selected {
            Some(i) => Some(self.paths[i].as_str()),
            None => None,
        }
    }

    /// Takes the first occurrence of `path` out of the list; the selection
    /// stays on the same row, or the last row when that was the last.
    pub fn remove(&mut self, path: &str)
        requires
            old(self).wf(),
        ensures
            final(self).rx == old(self).rx,
            final(self).wf(),
            (forall|j: int| 0 <= j < old(self).paths@.len() ==> old(self).paths@[j]@ != path@) ==> final(self).paths == old(self).paths
                && final(self).selected == old(self).selected,
            forall|k: int| #[trigger] first_position(views(old(self).paths@), path@, k) ==> final(self).paths@ == old(self).paths@.remove(k)
                && final(self).selected == spec_clamp(old(self).selected, (old(self).paths@.len() - 1) as nat),
    {
        let mut k: usize = 0;
        while k < self.paths.len() && !crate::text::str_eq(self.paths[k].as_str(), path)
            invariant
                k <= self.paths@.len(),
                forall|j: int| 0 <= j < k ==> self.paths@[j]@ != path@,
            decreases self.paths@.len() - k,
        {
            k += 1;
        }
        if k == self.paths.len() {
            return;
        }
        let ghost before = self.paths@;
        proof {
            assert(first_position(views(before), path@, k as int));
            assert forall|m: int| first_position(views(before), path@, m) implies m == k by {
                if m < k {
                    assert(views(before)[m] == before[m]@);
                } else if m > k {
                    assert(views(before)[k as int] == before[k as int]@);
                }
            }
        }
        self.paths.remove(k);
        self.selected = table_cursor::clamp(self.selected, self.paths.len());
    }

    /// A search still sends results.
    pub fn is_running(&self) -> (r: bool)
        ensures
            r == self.rx is Some,
    {
        self.rx.is_some()
    }

    /// What one receive makes of the list (see `take_received`).
    pub open spec fn result_step(before: Self, received: Received<String>, after: Self) -> bool {
        match received {
            Received::Message(p) => after.paths@ == before.paths@.push(p) && after.rx == before.rx
                && after.selected == (if before.selected is None && before.paths@.len() == 0 { Some(0usize) } else { before.selected }),
            Received::Empty => after == before,
            Received::Disconnected => after.paths == before.paths && after.selected == before.selected && after.rx is None,
        }
    }

    /// `after` is `before` with the receives `msgs` taken in, in order, each
    /// but the last a path, through the states `states`.
    pub open spec fn drained_through(before: Self, msgs: Seq<Received<String>>, states: Seq<Self>, after: Self) -> bool {
        &&& states.len() == msgs.len() + 1
        &&& states[0] == before
        &&& states.last() == after
        &&& forall|k: int| 0 <= k < msgs.len() ==> Self::result_step(#[trigger] states[k], msgs[k], states[k + 1])
        &&& forall|k: int| 0 <= k < msgs.len() - 1 ==> #[trigger] msgs[k] is Message
    }

    /// Takes in one receive: a path is appended (the first one selected
    /// when nothing is), a closed channel is forgotten; whether to look for
    /// more.
    pub fn take_received(&mut self, received: Received<String>) -> (more: bool)
        requires
            old(self).wf(),
        ensures
            final(self).wf(),
            Self::result_step(*old(self), received, *final(self)),
            more == (received is Message),
    {
        match received {
            Received::Message(p) => {
                self.paths.push(p);
                if self.selected.is_none() && self.paths.len() == 1 {
                    self.selected = Some(0);
                }
                true
            },
            Received::Empty => false,
            Received::Disconnected => {
                self.rx = None;
                false
            },
        }
    }

    /// What taking in the arrived results does: paths are only appended; no
    /// channel, no change; a selection stays; the first result gets the
    /// selection, unless the list was not empty and had none.
    pub open spec fn results_received(before: Self, after: Self) -> bool {
        &&& before.paths@.len() <= after.paths@.len()
        &&& after.paths@.subrange(0, before.paths@.len() as int) == before.paths@
        &&& before.rx is None ==> after.paths@ == before.paths@ && after.rx is None && after.selected == before.selected
        &&& before.selected is Some ==> after.selected == before.selected
        &&& after.paths@.len() > 0 && !(before.paths@.len() > 0 && before.selected is None) ==> after.selected is Some
        &&& before.paths@.len() > 0 && before.selected is None ==> after.selected is None
        &&& exists|msgs: Seq<Received<String>>, states: Seq<Self>| Self::drained_through(before, msgs, states, after)
            && (before.rx is None ==> msgs.len() == 0)
    }

    /// Appends every result that has arrived; when the search has finished
    /// and everything is taken, forgets the channel. The first result gets
    /// the selection.
    pub fn receive_results(&mut self)
        requires
            old(self).wf(),
        ensures
            final(self).wf(),
            Self::results_received(*old(self), *final(self)),
    {
        let ghost start = self.paths@;
        let ghost start_sel = self.selected;
        let ghost start_rx = self.rx;
        let ghost mut msgs: Seq<Received<String>> = Seq::empty();
        let ghost mut states: Seq<Self> = seq![*self];
        let mut budget: usize = usize::MAX;
        while budget > 0
            invariant
                self.wf(),
                start.len() <= self.paths@.len(),
                self.paths@.subrange(0, start.len() as int) == start,
                start == old(self).paths@,
                start_sel == old(self).selected,
                start_rx == old(self).rx,
                start_rx is None ==> self.paths@ == start && self.rx is None && self.selected == start_sel,
                start_sel is Some ==> self.selected == start_sel,
                self.paths@.len() > 0 && !(start.len() > 0 && start_sel is None) ==> self.selected is Some,
                start.len() > 0 && start_sel is None ==> self.selected is None,
                Self::drained_through(*old(self), msgs, states, *self),
                msgs.len() > 0 ==> msgs.last() is Message,
                start_rx is None ==> msgs.len() == 0,
            decreases budget,
        {
            let received = match &self.rx {
                Some(rx) => try_receive(rx),
                None => {
                    assert(Self::drained_through(*old(self), msgs, states, *self));
                    return;
                },
            };
            let ghost before = self.paths@;
            let ghost prev_msgs = msgs;
            let ghost prev_states = states;
            let more = self.take_received(received);
            proof {
                assert(self.paths@.subrange(0, start.len() as int) =~= before.subrange(0, start.len() as int));
                msgs = prev_msgs.push(received);
                states = prev_states.push(*self);
                assert forall|k: int| 0 <= k < msgs.len() implies Self::result_step(#[trigger] states[k], msgs[k], states[k + 1]) by {
                    if k < prev_msgs.len() {
                        assert(states[k] == prev_states[k] && states[k + 1] == prev_states[k + 1] && msgs[k] == prev_msgs[k]);
                    }
                }
                assert forall|k: int| 0 <= k < msgs.len() - 1 implies #[trigger] msgs[k] is Message by {
                    if k < prev_msgs.len() - 1 {
                        assert(msgs[k] == prev_msgs[k]);
                    } else {
                        assert(msgs[k] == prev_msgs.last());
                    }
                }
                assert(Self::drained_through(*old(self), msgs, states, *self));
            }
            if !more {
                return;
            }
            budget = budget - 1;
        }
        assert(Self::drained_through(*old(self), msgs, states, *self));
    }
}

} // verus!
