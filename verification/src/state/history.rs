//! The directories a file list has been in, to go back and forward
//! through them as a browser does.
use vstd::prelude::*;
use crate::text::owned;

verus! {

/// The position after stepping back.
pub open spec fn back_position(len: nat, pos: nat) -> nat {
    if len > 0 && pos > 0 { (pos - 1) as nat } else { pos }
}

/// The position after stepping forward.
pub open spec fn forward_position(len: nat, pos: nat) -> nat {
    if pos + 1 < len { pos + 1 } else { pos }
}

pub struct DirHistory {
    pub entries: Vec<String>,
    /// The entry shown now (meaningless while there is none).
    pub position: usize,
}

impl DirHistory {
    pub open spec fn wf(&self) -> bool {
        self.entries@.len() == 0 || self.position < self.entries@.len()
    }

    pub fn new() -> (r: DirHistory)
        ensures
            r.wf(),
            r.entries@.len() == 0,
    {
        DirHistory { entries: Vec::new(), position: 0 }
    }

    /// Recording a visit to `path` turns `before` into `after`: the entries
    /// after the current one are dropped and `path` becomes the current
    /// entry (unless it already is).
    pub open spec fn added(before: Self, path: Seq<char>, after: Self) -> bool {
        &&& before.entries@.len() > 0 && before.entries@[before.position as int]@ == path ==> after == before
        &&& !(before.entries@.len() > 0 && before.entries@[before.position as int]@ == path) ==> {
            let kept = if before.entries@.len() == 0 { 0 } else { before.position + 1 };
            &&& after.entries@.len() == kept + 1
            &&& after.entries@.subrange(0, kept as int) == before.entries@.subrange(0, kept as int)
            &&& after.entries@[kept as int]@ == path
            &&& after.position == kept
        }
    }

    /// Records a visit to `path` (see `added`).
    pub fn add(&mut self, path: &str)
        requires
            old(self).wf(),
        ensures
            final(self).wf(),
            Self::added(*old(self), path@, *final(self)),
    {
        if self.entries.len() > 0 && crate::text::str_eq(self.entries[self.position].as_str(), path) {
            return;
        }
        let kept = if self.entries.len() == 0 { 0 } else { self.position + 1 };
        self.entries.truncate(kept);
        self.entries.push(owned(path));
        self.position = kept;
        assert(self.entries@.subrange(0, kept as int) =~= old(self).entries@.subrange(0, kept as int));
    }

    /// Steps back: the previous entry, or nothing at the first.
    pub fn back(&mut self) -> (r: Option<&str>)
        requires
            old(self).wf(),
        ensures
            final(self).wf(),
            final(self).entries == old(self).entries,
            final(self).position == back_position(old(self).entries@.len(), old(self).position as nat),
            old(self).entries@.len() > 0 && old(self).position > 0 ==> (r matches Some(p) && p@ == old(self).entries@[old(self).position - 1]@),
            !(old(self).entries@.len() > 0 && old(self).position > 0) ==> r is None,
    {
        if self.entries.len() > 0 && self.position > 0 {
            self.position = self.position - 1;
            Some(self.entries[self.position].as_str())
        } else {
            None
        }
    }

    /// Steps forward: the next entry, or nothing at the last.
    pub fn forward(&mut self) -> (r: Option<&str>)
        requires
            old(self).wf(),
        ensures
            final(self).wf(),
            final(self).entries == old(self).entries,
            final(self).position == forward_position(old(self).entries@.len(), old(self).position as nat),
            old(self).position + 1 < old(self).entries@.len() ==> (r matches Some(p) && p@ == old(self).entries@[old(self).position + 1]@),
            !(old(self).position + 1 < old(self).entries@.len()) ==> r is None,
    {
        if self.entries.len() > 0 && self.position < self.entries.len() - 1 {
            self.position = self.position + 1;
            Some(self.entries[self.position].as_str())
        } else {
            None
        }
    }

    /// The current entry, if any.
    pub fn current(&self) -> (r: Option<&str>)
        requires
            self.wf(),
        ensures
            self.entries@.len() > 0 ==> (r matches Some(p) && p@ == self.entries@[self.position as int]@),
            self.entries@.len() == 0 ==> r is None,
    {
        if self.entries.len() > 0 {
            Some(self.entries[self.position].as_str())
        } else {
            None
        }
    }
}

/// Going back and then forward returns to the same entry, and so does
/// going forward and then back.
pub proof fn lemma_back_then_forward(len: nat, pos: nat)
    requires
        pos < len,
    ensures
        pos > 0 ==> forward_position(len, back_position(len, pos)) == pos,
        pos + 1 < len ==> back_position(len, forward_position(len, pos)) == pos,
{
}

} // verus!
