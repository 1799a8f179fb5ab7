//! Incremental search in a list of names: a name matches when it contains
//! the query, ASCII letters compared without regard to case; the search
//! goes round the list from a starting row.
use vstd::prelude::*;
use crate::text::{chars_of, views};

verus! {

/// A character's code with ASCII capitals folded to small letters.
pub open spec fn fold(c: char) -> int {
    let u = c as int;
    if 65 <= u <= 90 { u + 32 } else { u }
}

/// `q` occurs in `h` at `i`, case folded.
pub open spec fn occurs_at(h: Seq<char>, q: Seq<char>, i: int) -> bool {
    forall|j: int| 0 <= j < q.len() ==> fold(#[trigger] h[i + j]) == fold(q[j])
}

/// `h` contains `q`, case folded. Every name contains the empty query.
pub open spec fn contains_ci(h: Seq<char>, q: Seq<char>) -> bool {
    exists|i: int| 0 <= i <= h.len() - q.len() && #[trigger] occurs_at(h, q, i)
}

/// The row `k` steps after `start`, going round a list of `len` rows.
pub open spec fn fwd(start: int, k: int, len: int) -> int {
    if start + k < len { start + k } else { start + k - len }
}

/// The row `k` steps before `start`, going round a list of `len` rows.
pub open spec fn bwd(start: int, k: int, len: int) -> int {
    if k <= start { start - k } else { start + len - k }
}

/// Going forward from `start`, skipping the first `k0` steps, the first
/// matching row is `k` steps away.
pub open spec fn first_forward(names: Seq<Seq<char>>, q: Seq<char>, start: int, k0: int, k: int) -> bool {
    &&& k0 <= k < k0 + names.len()
    &&& contains_ci(names[fwd(start, k, names.len() as int)], q)
    &&& forall|m: int| k0 <= m < k ==> !contains_ci(#[trigger] names[fwd(start, m, names.len() as int)], q)
}

/// Going backward from `start`, skipping the first `k0` steps, the first
/// matching row is `k` steps away.
pub open spec fn first_backward(names: Seq<Seq<char>>, q: Seq<char>, start: int, k0: int, k: int) -> bool {
    &&& k0 <= k < k0 + names.len()
    &&& contains_ci(names[bwd(start, k, names.len() as int)], q)
    &&& forall|m: int| k0 <= m < k ==> !contains_ci(#[trigger] names[bwd(start, m, names.len() as int)], q)
}

/// No name matches.
pub open spec fn none_match(names: Seq<Seq<char>>, q: Seq<char>) -> bool {
    forall|i: int| 0 <= i < names.len() ==> !contains_ci(#[trigger] names[i], q)
}

fn fold_exec(c: char) -> (r: u32)
    ensures
        r == fold(c),
{
    let u = c as u32;
    if 65 <= u && u <= 90 { u + 32 } else { u }
}

fn occurs_at_exec(hv: &Vec<char>, qv: &Vec<char>, i: usize) -> (r: bool)
    requires
        i + qv@.len() <= hv@.len(),
    ensures
        r == occurs_at(hv@, qv@, i as int),
{
    let n = hv.len();
    let mut j: usize = 0;
    while j < qv.len()
        invariant
            n == hv@.len(),
            i + qv@.len() <= hv@.len(),
            j <= qv@.len(),
            forall|t: int| 0 <= t < j ==> fold(#[trigger] hv@[i + t]) == fold(qv@[t]),
        decreases qv@.len() - j,
    {
        if fold_exec(hv[i + j]) != fold_exec(qv[j]) {
            assert(fold(hv@[i + j]) != fold(qv@[j as int]));
            return false;
        }
        j += 1;
    }
    true
}

/// Whether `h` contains `q`, ASCII letters compared without regard to case.
pub fn contains_ignore_ascii_case(h: &str, q: &str) -> (r: bool)
    ensures
        r == contains_ci(h@, q@),
{
    let hv = chars_of(h);
    let qv = chars_of(q);
    if qv.len() > hv.len() {
        return false;
    }
    let mut i: usize = 0;
    while i <= hv.len() - qv.len()
        invariant
            hv@ == h@,
            qv@ == q@,
            qv@.len() <= hv@.len(),
            i <= hv@.len() - qv@.len() + 1,
            forall|p: int| 0 <= p < i ==> !occurs_at(h@, q@, p),
        decreases hv@.len() - qv@.len() + 1 - i,
    {
        if occurs_at_exec(&hv, &qv, i) {
            return true;
        }
        i += 1;
    }
    assert forall|p: int| 0 <= p <= h@.len() - q@.len() implies !occurs_at(h@, q@, p) by {}
    false
}

/// Every row is some number of forward steps from `start`.
proof fn lemma_fwd_covers(start: int, k0: int, len: int, i: int) -> (k: int)
    requires
        0 <= start < len,
        0 <= k0 <= 1,
        0 <= i < len,
    ensures
        k0 <= k < k0 + len,
        fwd(start, k, len) == i,
{
    let k = if i >= start { i - start } else { i + len - start };
    if k < k0 { len } else { k }
}

/// Every row is some number of backward steps from `start`.
proof fn lemma_bwd_covers(start: int, k0: int, len: int, i: int) -> (k: int)
    requires
        0 <= start < len,
        0 <= k0 <= 1,
        0 <= i < len,
    ensures
        k0 <= k < k0 + len,
        bwd(start, k, len) == i,
{
    let k = if i <= start { start - i } else { start + len - i };
    if k < k0 { len } else { k }
}

/// The first row matching `q` going forward from `start` (the row itself
/// first when `k0` is 0, last when it is 1).
pub fn find_forward(names: &Vec<String>, q: &str, start: usize, k0: usize) -> (r: Option<usize>)
    requires
        start < names@.len(),
        k0 <= 1,
    ensures
        r matches Some(i) ==> exists|k: int| first_forward(views(names@), q@, start as int, k0 as int, k)
            && i == fwd(start as int, k, names@.len() as int),
        r is None ==> none_match(views(names@), q@),
{
    let len = names.len();
    let mut step: usize = 0;
    while step < len
        invariant
            len == names@.len(),
            start < len,
            k0 <= 1,
            step <= len,
            forall|m: int| k0 <= m < k0 + step ==> !contains_ci(#[trigger] views(names@)[fwd(start as int, m, len as int)], q@),
        decreases len - step,
    {
        let k = k0 + step;
        let i = if k < len - start { start + k } else { k - (len - start) };
        if contains_ignore_ascii_case(names[i].as_str(), q) {
            assert(views(names@)[i as int] == names@[i as int]@);
            assert(first_forward(views(names@), q@, start as int, k0 as int, k as int));
            return Some(i);
        }
        assert(views(names@)[i as int] == names@[i as int]@);
        step += 1;
    }
    proof {
        assert forall|i: int| 0 <= i < len implies !contains_ci(#[trigger] views(names@)[i], q@) by {
            let k = lemma_fwd_covers(start as int, k0 as int, len as int, i);
        }
    }
    None
}

/// The first row matching `q` going backward from `start` (the row itself
/// first when `k0` is 0, last when it is 1).
pub fn find_backward(names: &Vec<String>, q: &str, start: usize, k0: usize) -> (r: Option<usize>)
    requires
        start < names@.len(),
        k0 <= 1,
    ensures
        r matches Some(i) ==> exists|k: int| first_backward(views(names@), q@, start as int, k0 as int, k)
            && i == bwd(start as int, k, names@.len() as int),
        r is None ==> none_match(views(names@), q@),
{
    let len = names.len();
    let mut step: usize = 0;
    while step < len
        invariant
            len == names@.len(),
            start < len,
            k0 <= 1,
            step <= len,
            forall|m: int| k0 <= m < k0 + step ==> !contains_ci(#[trigger] views(names@)[bwd(start as int, m, len as int)], q@),
        decreases len - step,
    {
        let k = k0 + step;
        let i = if k <= start { start - k } else { len - (k - start) };
        if contains_ignore_ascii_case(names[i].as_str(), q) {
            assert(views(names@)[i as int] == names@[i as int]@);
            assert(first_backward(views(names@), q@, start as int, k0 as int, k as int));
            return Some(i);
        }
        assert(views(names@)[i as int] == names@[i as int]@);
        step += 1;
    }
    proof {
        assert forall|i: int| 0 <= i < len implies !contains_ci(#[trigger] views(names@)[i], q@) by {
            let k = lemma_bwd_covers(start as int, k0 as int, len as int, i);
        }
    }
    None
}

} // verus!
