//! The selected row of a list. Moving never wraps: Up at the first row and
//! Down at the last row stay where they are, and an empty list has no
//! selection.
use vstd::prelude::*;

verus! {

/// A selection fits a list of `len` rows.
pub open spec fn in_range(sel: Option<usize>, len: nat) -> bool {
    match sel {
        Some(i) => i < len,
        None => true,
    }
}

/// The row above (the first row stays; no selection selects the first row).
pub open spec fn spec_prev(sel: Option<usize>, len: nat) -> Option<usize> {
    if len == 0 {
        None
    } else {
        match sel {
            None => Some(0usize),
            Some(i) => Some(if i == 0 { 0usize } else if i > len { (len - 1) as usize } else { (i - 1) as usize }),
        }
    }
}

/// The row below (the last row stays; no selection selects the first row).
pub open spec fn spec_next(sel: Option<usize>, len: nat) -> Option<usize> {
    if len == 0 {
        None
    } else {
        match sel {
            None => Some(0usize),
            Some(i) => Some(if i + 1 < len { (i + 1) as usize } else { (len - 1) as usize }),
        }
    }
}

/// The first row, if any.
pub open spec fn spec_first(len: nat) -> Option<usize> {
    if len == 0 { None } else { Some(0usize) }
}

/// The last row, if any.
pub open spec fn spec_last(len: nat) -> Option<usize> {
    if len == 0 { None } else { Some((len - 1) as usize) }
}

/// A selection brought back into a list of `len` rows: past the end it
/// becomes the last row.
pub open spec fn spec_clamp(sel: Option<usize>, len: nat) -> Option<usize> {
    if len == 0 {
        None
    } else {
        match sel {
            None => None,
            Some(i) => Some(if i < len { i } else { (len - 1) as usize }),
        }
    }
}

pub fn prev(sel: Option<usize>, len: usize) -> (r: Option<usize>)
    ensures
        r == spec_prev(sel, len as nat),
{
    if len == 0 {
        return None;
    }
    match sel {
        None => Some(0),
        Some(i) => Some(if i == 0 { 0 } else if i > len { len - 1 } else { i - 1 }),
    }
}

pub fn next(sel: Option<usize>, len: usize) -> (r: Option<usize>)
    ensures
        r == spec_next(sel, len as nat),
{
    if len == 0 {
        return None;
    }
    match sel {
        None => Some(0),
        Some(i) => Some(if i < len - 1 { i + 1 } else { len - 1 }),
    }
}

pub fn first(len: usize) -> (r: Option<usize>)
    ensures
        r == spec_first(len as nat),
{
    if len == 0 { None } else { Some(0) }
}

pub fn last(len: usize) -> (r: Option<usize>)
    ensures
        r == spec_last(len as nat),
{
    if len == 0 { None } else { Some(len - 1) }
}

pub fn clamp(sel: Option<usize>, len: usize) -> (r: Option<usize>)
    ensures
        r == spec_clamp(sel, len as nat),
{
    if len == 0 {
        return None;
    }
    match sel {
        None => None,
        Some(i) => Some(if i < len { i } else { len - 1 }),
    }
}

/// Every move leaves the selection inside the list.
pub proof fn lemma_moves_stay_in_range(sel: Option<usize>, len: nat)
    requires
        len <= usize::MAX,
    ensures
        in_range(spec_prev(sel, len), len),
        in_range(spec_next(sel, len), len),
        in_range(spec_first(len), len),
        in_range(spec_last(len), len),
        in_range(spec_clamp(sel, len), len),
{
}

/// Down then Up comes back to the row it started from, unless Down could
/// not move (the last row).
pub proof fn lemma_next_then_prev(i: usize, len: nat)
    requires
        i + 1 < len,
        len <= usize::MAX,
    ensures
        spec_prev(spec_next(Some(i), len), len) == Some(i),
{
}

/// Up then Down comes back to the row it started from, unless Up could not
/// move (the first row).
pub proof fn lemma_prev_then_next(i: usize, len: nat)
    requires
        0 < i < len,
        len <= usize::MAX,
    ensures
        spec_next(spec_prev(Some(i), len), len) == Some(i),
{
}

/// Up at the first row and Down at the last row stay put.
pub proof fn lemma_ends_stay(len: nat)
    requires
        0 < len <= usize::MAX,
    ensures
        spec_prev(spec_first(len), len) == spec_first(len),
        spec_next(spec_last(len), len) == spec_last(len),
{
}

} // verus!
