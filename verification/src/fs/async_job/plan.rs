//! What a copy does with each entry it finds inside a directory.
use vstd::prelude::*;

verus! {

/// The step a directory walk takes for one entry.
#[derive(Debug, Clone, Copy, PartialEq, Eq, Structural)]
pub enum EntryStep {
    /// A directory (not a link to one): walk into it.
    Recurse,
    /// A symbolic link, to a file or a directory: make the same link.
    CopyLink,
    /// Anything else: copy its contents.
    CopyFile,
}

/// The step for an entry of this type (as the walk reads it, links not
/// followed).
pub fn entry_step(is_dir: bool, is_symlink: bool) -> (r: EntryStep)
    ensures
        r == (if is_dir && !is_symlink {
            EntryStep::Recurse
        } else if is_symlink {
            EntryStep::CopyLink
        } else {
            EntryStep::CopyFile
        }),
{
    if is_dir && !is_symlink {
        EntryStep::Recurse
    } else if is_symlink {
        EntryStep::CopyLink
    } else {
        EntryStep::CopyFile
    }
}

/// How renaming one file of a move ended.
#[derive(Debug)]
pub enum RenameOutcome {
    Moved,
    /// The destination is on another device: the file is copied and then
    /// removed instead.
    CrossDevice,
    Failed(String),
}

/// What the move loop does next.
#[derive(Debug)]
pub enum MoveStep {
    /// Try renaming the pair at this index.
    Rename(usize),
    /// The cancel token was set: stop.
    Stop,
    /// Every pair was renamed.
    Finished,
    /// Every pair was tried; copy these (on other devices), then remove
    /// their sources.
    CopyThenRemove(Vec<usize>),
    /// A rename failed: end the move with this error.
    Fail(String),
}

/// Where the move loop stands: the next pair to try and the pairs that
/// must be copied instead, in order.
pub struct MovePass {
    pub next: usize,
    pub left: Vec<usize>,
}

impl MovePass {
    /// Every index left for copying is a pair already tried, in increasing
    /// order.
    pub open spec fn wf(&self) -> bool {
        &&& forall|k: int| 0 <= k < self.left@.len() ==> self.left@[k] < self.next
        &&& forall|a: int, b: int| 0 <= a < b < self.left@.len() ==> self.left@[a] < self.left@[b]
    }

    pub fn new() -> (r: MovePass)
        ensures
            r.wf(),
            r.next == 0,
            r.left@.len() == 0,
    {
        MovePass { next: 0, left: Vec::new() }
    }
}

/// One decision of the move loop, given how the last rename ended (`None`
/// before the first) and whether the token is set: a failed rename ends
/// the move; a rename across devices leaves that pair for copying; then
/// the next pair is renamed unless the token is set; once every pair was
/// tried, the move is finished or the pairs left are copied.
pub fn move_step(pass: &mut MovePass, total: usize, cancelled: bool, last: Option<RenameOutcome>) -> (r: MoveStep)
    requires
        old(pass).wf(),
        old(pass).next <= total,
        last is Some ==> old(pass).next > 0 && forall|k: int| 0 <= k < old(pass).left@.len() ==> old(pass).left@[k] + 1 < old(pass).next,
    ensures
        final(pass).wf(),
        final(pass).next <= total,
        r is Rename ==> forall|k: int| 0 <= k < final(pass).left@.len() ==> final(pass).left@[k] + 1 < final(pass).next,
        last matches Some(RenameOutcome::Failed(e)) ==> r == MoveStep::Fail(e) && *final(pass) == *old(pass),
        !(last matches Some(RenameOutcome::Failed(_))) ==> {
            &&& final(pass).left@ == (if last matches Some(RenameOutcome::CrossDevice) {
                old(pass).left@.push((old(pass).next - 1) as usize)
            } else {
                old(pass).left@
            })
            &&& old(pass).next < total && cancelled ==> r is Stop && final(pass).next == old(pass).next
            &&& old(pass).next < total && !cancelled ==> r == MoveStep::Rename(old(pass).next) && final(pass).next == old(pass).next + 1
            &&& old(pass).next == total ==> final(pass).next == total && (if final(pass).left@.len() == 0 {
                r is Finished
            } else {
                r matches MoveStep::CopyThenRemove(ids) && ids@ == final(pass).left@
            })
        },
{
    match last {
        Some(RenameOutcome::Failed(e)) => {
            return MoveStep::Fail(e);
        },
        Some(RenameOutcome::CrossDevice) => {
            let i = pass.next - 1;
            pass.left.push(i);
        },
        _ => {},
    }
    if pass.next < total {
        if cancelled {
            return MoveStep::Stop;
        }
        pass.next = pass.next + 1;
        return MoveStep::Rename(pass.next - 1);
    }
    if pass.left.len() == 0 {
        MoveStep::Finished
    } else {
        MoveStep::CopyThenRemove(pass.left.clone())
    }
}

/// The sources of a move are removed after their copy only when every
/// file was copied.
pub fn remove_sources_after(remove_after: bool, status: crate::fs::async_job::checkpoint::CollectStatus) -> (r: bool)
    ensures
        r == (remove_after && status is Completed),
{
    remove_after && status.is_cancelled() == false
}

} // verus!
