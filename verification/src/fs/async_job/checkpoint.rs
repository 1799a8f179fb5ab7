//! The cancellable loops of a file job: the per-item File-level Checkpoint of
//! the Operation Phase and the batched progress of the Scan Phase.
use std::sync::atomic::AtomicBool;
use vstd::prelude::*;
use crate::state::Phase;

verus! {

/// Scan progress is reported once per this many discovered entries.
pub const SCAN_NOTIFY_BATCH: usize = 256;

/// Why a cancellable loop ended: every item done, or stopped by the token.
#[derive(Debug, Clone, Copy, PartialEq, Eq)]
pub enum CollectStatus {
    Completed,
    Cancelled,
}

impl CollectStatus {
    pub fn is_cancelled(self) -> (r: bool)
        ensures
            r == (self is Cancelled),
    {
        match self {
            CollectStatus::Completed => false,
            CollectStatus::Cancelled => true,
        }
    }
}

/// `op` succeeded on `x`.
pub open spec fn op_succeeds<T, E, F: FnMut(&T) -> Result<(), E>>(op: F, x: &T) -> bool {
    call_ensures(op, (x,), Ok::<(), E>(()))
}

/// `op` failed on `x` with `e`.
pub open spec fn op_fails_with<T, E, F: FnMut(&T) -> Result<(), E>>(op: F, x: &T, e: E) -> bool {
    call_ensures(op, (x,), Err::<(), E>(e))
}

/// Reads the cancel token. Another thread may set it at any time, so nothing
/// is known of the value read.
pub fn cancel_requested(cancel: &AtomicBool) -> bool {
    cancel.load(std::sync::atomic::Ordering::Relaxed)
}

/// What a checkpoint makes of an item's outcome: a success goes on (`None`);
/// a failure ends the loop, as a cancel when the token was set by then (the
/// error is then a side effect of stopping), otherwise as that error.
pub fn settle_item<E>(outcome: Result<(), E>, cancelled: bool) -> (r: Option<Result<CollectStatus, E>>)
    ensures
        outcome is Ok ==> r is None,
        outcome matches Err(e) ==> r == Some(
            if cancelled {
                Ok::<CollectStatus, E>(CollectStatus::Cancelled)
            } else {
                Err::<CollectStatus, E>(e)
            },
        ),
{
    match outcome {
        Ok(()) => None,
        Err(e) => {
            if cancelled {
                Some(Ok(CollectStatus::Cancelled))
            } else {
                Some(Err(e))
            }
        },
    }
}

/// A read of the token may answer that it is set.
pub open spec fn read_set<C: Fn() -> bool>(is_cancelled: C) -> bool {
    call_ensures(is_cancelled, (), true)
}

/// A read of the token may answer that it is clear.
pub open spec fn read_clear<C: Fn() -> bool>(is_cancelled: C) -> bool {
    call_ensures(is_cancelled, (), false)
}

/// Every read of the token answers that it is set.
pub open spec fn always_set<C: Fn() -> bool>(is_cancelled: C) -> bool {
    forall|b: bool| #[trigger] call_ensures(is_cancelled, (), b) ==> b
}

/// Every read of the token answers that it is clear.
pub open spec fn never_set<C: Fn() -> bool>(is_cancelled: C) -> bool {
    forall|b: bool| #[trigger] call_ensures(is_cancelled, (), b) ==> !b
}

/// `op` succeeded on each of the first `m` items.
pub open spec fn succeeded_up_to<T, E, F: FnMut(&T) -> Result<(), E>>(op: F, items: Seq<T>, m: int) -> bool {
    forall|j: int| 0 <= j < m ==> op_succeeds::<T, E, F>(op, #[trigger] &items[j])
}

/// Runs `op` on the items in order with a File-level Checkpoint before each
/// one: `is_cancelled` reads the token; a set token stops the loop
/// (`Cancelled`) before the next item; an error of `op` is returned unless a
/// read after it finds the token set, in which case it is folded into
/// `Cancelled`. `Completed` when every item succeeded.
pub fn for_each_until_cancelled<T, E, C: Fn() -> bool, F: FnMut(&T) -> Result<(), E>>(
    items: &[T],
    is_cancelled: &C,
    op: F,
) -> (r: Result<CollectStatus, E>)
    requires
        call_requires(*is_cancelled, ()),
        forall|x: &T| call_requires(op, (x,)),
    ensures
        r matches Ok(CollectStatus::Completed) ==> forall|i: int|
            0 <= i < items@.len() ==> op_succeeds::<T, E, F>(op, #[trigger] &items@[i]),
        r matches Ok(CollectStatus::Completed) && items@.len() > 0 ==> read_clear(*is_cancelled),
        r matches Err(e) ==> read_clear(*is_cancelled) && exists|i: int|
            0 <= i < items@.len() && op_fails_with::<T, E, F>(op, #[trigger] &items@[i], e) && forall|j: int|
                0 <= j < i ==> op_succeeds::<T, E, F>(op, #[trigger] &items@[j]),
        r == Ok::<CollectStatus, E>(CollectStatus::Cancelled) ==> read_set(*is_cancelled) && exists|m: int|
            0 <= m < items@.len() && #[trigger] succeeded_up_to::<T, E, F>(op, items@, m),
        items@.len() == 0 ==> r == Ok::<CollectStatus, E>(CollectStatus::Completed),
        items@.len() > 0 && always_set(*is_cancelled) ==> r == Ok::<CollectStatus, E>(CollectStatus::Cancelled),
        never_set(*is_cancelled) ==> r != Ok::<CollectStatus, E>(CollectStatus::Cancelled),
{
    let mut f = op;
    let ghost op0 = f;
    let mut i: usize = 0;
    while i < items.len()
        invariant
            i <= items@.len(),
            call_requires(*is_cancelled, ()),
            forall|x: &T| call_requires(op0, (x,)),
            f == op0,
            op0 == op,
            succeeded_up_to::<T, E, F>(op, items@, i as int),
            i > 0 ==> read_clear(*is_cancelled),
        decreases items@.len() - i,
    {
        let set = is_cancelled();
        assert(call_ensures(*is_cancelled, (), set));
        if set {
            return Ok(CollectStatus::Cancelled);
        }
        let ghost before = f;
        let outcome = f(&items[i]);
        proof {
            assert(call_ensures(before, (&items@[i as int],), outcome));
            if outcome is Ok {
                let u: () = outcome->Ok_0;
                assert(u == ());
                assert(outcome == Ok::<(), E>(()));
                assert(op_succeeds::<T, E, F>(op0, &items@[i as int]));
            } else {
                assert(op_fails_with::<T, E, F>(op0, &items@[i as int], outcome->Err_0));
            }
        }
        let cancelled = match &outcome {
            Ok(()) => false,
            Err(_) => {
                let again = is_cancelled();
                assert(call_ensures(*is_cancelled, (), again));
                again
            },
        };
        match settle_item(outcome, cancelled) {
            Some(end) => {
                proof {
                    if end is Err {
                        assert(op_fails_with::<T, E, F>(op0, &items@[i as int], end->Err_0));
                    }
                }
                return end;
            },
            None => {},
        }
        proof {
            assert forall|j: int| 0 <= j < i + 1 implies op_succeeds::<T, E, F>(op, #[trigger] &items@[j]) by {
                if j < i {
                    assert(succeeded_up_to::<T, E, F>(op, items@, i as int));
                }
            }
        }
        i += 1;
    }
    Ok(CollectStatus::Completed)
}

/// Whether the scan count `count` is reported: a positive multiple of the
/// batch size.
pub fn scan_batch_due(count: usize) -> (r: bool)
    ensures
        r == (count > 0 && count % SCAN_NOTIFY_BATCH == 0),
{
    count > 0 && count % SCAN_NOTIFY_BATCH == 0
}

/// Reports `(Scanning, count, None)` when `count` completes a batch.
pub fn notify_scan_progress<P: FnMut(Phase, usize, Option<usize>)>(count: usize, on_progress: &mut P)
    requires
        forall|p: P, a: Phase, b: usize, c: Option<usize>| call_requires(p, (a, b, c)),
    ensures
        (count > 0 && count % SCAN_NOTIFY_BATCH == 0) ==> call_ensures(
            *old(on_progress),
            (Phase::Scanning, count, None::<usize>),
            (),
        ),
        !(count > 0 && count % SCAN_NOTIFY_BATCH == 0) ==> *final(on_progress) == *old(on_progress),
{
    if scan_batch_due(count) {
        on_progress(Phase::Scanning, count, None);
    }
}

/// `on_progress`, starting from `start`, was called `done` times, the
/// `k`-th time (from 1) with `(phase, k, Some(total))`.
pub open spec fn progress_reported<P: FnMut(Phase, usize, Option<usize>)>(start: P, phase: Phase, done: nat, total: nat) -> bool {
    exists|calls: Seq<P>| calls.len() == done && (done > 0 ==> calls[0] == start)
        && forall|k: int| 0 <= k < done ==> call_ensures(#[trigger] calls[k], (phase, (k + 1) as usize, Some(total as usize)), ())
}

/// The Operation Phase loop: `op` on each item behind a File-level
/// Checkpoint (as `for_each_until_cancelled`), reporting
/// `(phase, items done, Some(items.len()))` after each success, and only
/// then.
pub fn process_items<T, E, C: Fn() -> bool, P: FnMut(Phase, usize, Option<usize>), F: FnMut(&T) -> Result<(), E>>(
    items: &[T],
    phase: Phase,
    is_cancelled: &C,
    on_progress: &mut P,
    op: F,
) -> (r: Result<CollectStatus, E>)
    requires
        call_requires(*is_cancelled, ()),
        forall|x: &T| call_requires(op, (x,)),
        forall|p: P, a: Phase, b: usize, c: Option<usize>| call_requires(p, (a, b, c)),
    ensures
        r matches Ok(CollectStatus::Completed) ==> forall|i: int|
            0 <= i < items@.len() ==> op_succeeds::<T, E, F>(op, #[trigger] &items@[i]),
        r matches Ok(CollectStatus::Completed) && items@.len() > 0 ==> read_clear(*is_cancelled),
        r matches Err(e) ==> read_clear(*is_cancelled) && exists|i: int|
            0 <= i < items@.len() && op_fails_with::<T, E, F>(op, #[trigger] &items@[i], e) && forall|j: int|
                0 <= j < i ==> op_succeeds::<T, E, F>(op, #[trigger] &items@[j]),
        r == Ok::<CollectStatus, E>(CollectStatus::Cancelled) ==> read_set(*is_cancelled) && exists|m: int|
            0 <= m < items@.len() && #[trigger] succeeded_up_to::<T, E, F>(op, items@, m),
        items@.len() == 0 ==> r == Ok::<CollectStatus, E>(CollectStatus::Completed),
        items@.len() > 0 && always_set(*is_cancelled) ==> r == Ok::<CollectStatus, E>(CollectStatus::Cancelled),
        never_set(*is_cancelled) ==> r != Ok::<CollectStatus, E>(CollectStatus::Cancelled),
        r matches Err(e) ==> exists|i: int|
            0 <= i < items@.len() && op_fails_with::<T, E, F>(op, #[trigger] &items@[i], e) && (forall|j: int|
                0 <= j < i ==> op_succeeds::<T, E, F>(op, #[trigger] &items@[j]))
                && progress_reported(*old(on_progress), phase, i as nat, items@.len()),
        r == Ok::<CollectStatus, E>(CollectStatus::Cancelled) ==> exists|m: int|
            0 <= m < items@.len() && #[trigger] succeeded_up_to::<T, E, F>(op, items@, m)
            && progress_reported(*old(on_progress), phase, m as nat, items@.len()),
        r matches Ok(CollectStatus::Completed) ==> progress_reported(*old(on_progress), phase, items@.len(), items@.len()),
{
    let mut f = op;
    let ghost op0 = f;
    let total = items.len();
    let mut i: usize = 0;
    let ghost mut calls: Seq<P> = Seq::empty();
    while i < items.len()
        invariant
            i <= items@.len(),
            total == items@.len(),
            call_requires(*is_cancelled, ()),
            forall|x: &T| call_requires(op0, (x,)),
            f == op0,
            op0 == op,
            forall|p: P, a: Phase, b: usize, c: Option<usize>| call_requires(p, (a, b, c)),
            succeeded_up_to::<T, E, F>(op, items@, i as int),
            i > 0 ==> read_clear(*is_cancelled),
            calls.len() == i,
            i > 0 ==> calls[0] == *old(on_progress),
            i == 0 ==> *on_progress == *old(on_progress),
            forall|k: int| 0 <= k < i ==> call_ensures(#[trigger] calls[k], (phase, (k + 1) as usize, Some(total)), ()),
        decreases items@.len() - i,
    {
        proof {
            assert(progress_reported(*old(on_progress), phase, i as nat, items@.len()));
        }
        let set = is_cancelled();
        assert(call_ensures(*is_cancelled, (), set));
        if set {
            return Ok(CollectStatus::Cancelled);
        }
        let ghost before = f;
        let outcome = f(&items[i]);
        proof {
            assert(call_ensures(before, (&items@[i as int],), outcome));
            if outcome is Ok {
                let u: () = outcome->Ok_0;
                assert(u == ());
                assert(outcome == Ok::<(), E>(()));
                assert(op_succeeds::<T, E, F>(op0, &items@[i as int]));
            } else {
                assert(op_fails_with::<T, E, F>(op0, &items@[i as int], outcome->Err_0));
            }
        }
        let cancelled = match &outcome {
            Ok(()) => false,
            Err(_) => {
                let again = is_cancelled();
                assert(call_ensures(*is_cancelled, (), again));
                again
            },
        };
        match settle_item(outcome, cancelled) {
            Some(end) => {
                proof {
                    if end is Err {
                        assert(op_fails_with::<T, E, F>(op0, &items@[i as int], end->Err_0));
                    }
                }
                return end;
            },
            None => {},
        }
        proof {
            assert forall|j: int| 0 <= j < i + 1 implies op_succeeds::<T, E, F>(op, #[trigger] &items@[j]) by {
                if j < i {
                    assert(succeeded_up_to::<T, E, F>(op, items@, i as int));
                }
            }
        }
        i += 1;
        let ghost state = *on_progress;
        on_progress(phase, i, Some(total));
        proof {
            assert(call_ensures(state, (phase, i, Some(total)), ()));
            if i == 1 {
                assert(state == *old(on_progress));
            }
            calls = calls.push(state);
        }
    }
    proof {
        assert(calls.len() == items@.len());
        assert(progress_reported(*old(on_progress), phase, items@.len(), items@.len()));
    }
    Ok(CollectStatus::Completed)
}

} // verus!
