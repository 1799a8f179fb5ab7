//! Tab completion of the path prompt: which listed paths complete the typed
//! path, and how Tab and Shift+Tab cycle through them.
use vstd::prelude::*;
use crate::fs::file::{FileKind, VFile};
use crate::path::{file_name, parent, spec_file_name, spec_parent};
use crate::sort::{sort_strings, sorted};
use crate::text::{owned, push_char, starts_with, views};

verus! {

/// Which way Tab cycles.
#[derive(Debug, Clone, Copy, PartialEq, Eq, Structural)]
pub enum CycleDirection {
    Forward,
    Backward,
}

pub open spec fn no_parent_dir_message() -> Seq<char> {
    "Failed to get parent directory"@
}

pub open spec fn no_file_name_message() -> Seq<char> {
    "Failed to get file name"@
}

/// The directory to list and the prefix to match for a typed path: a path
/// ending in `/` lists itself with no prefix; otherwise its parent (which must
/// be non-empty) is listed and its last component is the prefix.
pub open spec fn spec_path_query(input: Seq<char>) -> Result<(Seq<char>, Seq<char>), Seq<char>> {
    if input.len() > 0 && input.last() == '/' {
        Ok((input, Seq::empty()))
    } else {
        match spec_parent(input) {
            Some(p) if p.len() > 0 => match spec_file_name(input) {
                Some(n) => Ok((p, n)),
                None => Err(no_file_name_message()),
            },
            _ => Err(no_parent_dir_message()),
        }
    }
}

pub open spec fn is_dir_entry(f: VFile) -> bool {
    f.metadata matches Some(m) && m.kind == FileKind::Directory
}

/// The completion a listed file offers: its path, with a `/` after a
/// directory, when its name starts with the prefix (and it is a directory,
/// when only directories are offered).
pub open spec fn candidate_of(f: VFile, prefix: Seq<char>, dir_only: bool) -> Option<Seq<char>> {
    if dir_only && !is_dir_entry(f) {
        None
    } else {
        match spec_file_name(f.path@) {
            None => None,
            Some(name) => if prefix.len() <= name.len() && name.subrange(0, prefix.len() as int) == prefix {
                Some(if is_dir_entry(f) { f.path@.push('/') } else { f.path@ })
            } else {
                None
            },
        }
    }
}

/// The completions the listed files offer, in listing order.
pub open spec fn candidates_of(files: Seq<VFile>, prefix: Seq<char>, dir_only: bool) -> Seq<Seq<char>>
    decreases files.len(),
{
    if files.len() == 0 {
        Seq::empty()
    } else {
        candidates_of(files.drop_last(), prefix, dir_only) + match candidate_of(files.last(), prefix, dir_only) {
            Some(c) => seq![c],
            None => Seq::empty(),
        }
    }
}

/// The path a listed entry is offered as: its own path, with a `/` after a
/// directory.
pub open spec fn offered_path(f: VFile) -> Seq<char> {
    if is_dir_entry(f) { f.path@.push('/') } else { f.path@ }
}

/// A listed entry is offered exactly when its file name is the typed prefix
/// followed by more (or nothing) and, when only directories are asked
/// for, it is a directory; what it offers is its path, with a `/` after a
/// directory.
pub proof fn lemma_candidate_matches_prefix(f: VFile, prefix: Seq<char>, dir_only: bool)
    ensures
        candidate_of(f, prefix, dir_only) matches Some(c) ==> {
            &&& c == offered_path(f)
            &&& dir_only ==> is_dir_entry(f)
            &&& spec_file_name(f.path@) matches Some(n) && exists|rest: Seq<char>| n == prefix + rest
        },
        (spec_file_name(f.path@) matches Some(n) && exists|rest: Seq<char>| n == prefix + rest)
            && (!dir_only || is_dir_entry(f)) ==> candidate_of(f, prefix, dir_only) == Some(offered_path(f)),
        (spec_file_name(f.path@) matches Some(n) && forall|rest: Seq<char>| n != prefix + rest)
            ==> candidate_of(f, prefix, dir_only) is None,
{
    if let Some(n) = spec_file_name(f.path@) {
        if prefix.len() <= n.len() && n.subrange(0, prefix.len() as int) == prefix {
            let rest = n.subrange(prefix.len() as int, n.len() as int);
            assert(n =~= prefix + rest);
        }
        if exists|rest: Seq<char>| n == prefix + rest {
            let rest = choose|rest: Seq<char>| n == prefix + rest;
            assert(n.subrange(0, prefix.len() as int) =~= prefix);
        }
    }
}

/// Entry `j` of `files` offers the completion `c`: `c` is its offered
/// path, its file name starts with `prefix`, and it is a directory when
/// only directories are asked for.
pub open spec fn offered_by(files: Seq<VFile>, prefix: Seq<char>, dir_only: bool, c: Seq<char>, j: int) -> bool {
    &&& 0 <= j < files.len()
    &&& c == offered_path(files[j])
    &&& dir_only ==> is_dir_entry(files[j])
    &&& spec_file_name(files[j].path@) matches Some(n) && exists|rest: Seq<char>| n == prefix + rest
}

/// The listed entry a completion `c` comes from (see `offered_by`).
pub open spec fn source_of(files: Seq<VFile>, prefix: Seq<char>, dir_only: bool, c: Seq<char>) -> int {
    choose|j: int| offered_by(files, prefix, dir_only, c, j)
}

proof fn lemma_candidate_source(files: Seq<VFile>, prefix: Seq<char>, dir_only: bool, k: int)
    requires
        0 <= k < candidates_of(files, prefix, dir_only).len(),
    ensures
        offered_by(files, prefix, dir_only, candidates_of(files, prefix, dir_only)[k],
            source_of(files, prefix, dir_only, candidates_of(files, prefix, dir_only)[k])),
    decreases files.len(),
{
    let init = files.drop_last();
    let cs = candidates_of(files, prefix, dir_only);
    let ci = candidates_of(init, prefix, dir_only);
    lemma_candidate_matches_prefix(files.last(), prefix, dir_only);
    if k < ci.len() {
        lemma_candidate_source(init, prefix, dir_only, k);
        assert(cs[k] == ci[k]);
        let j = source_of(init, prefix, dir_only, ci[k]);
        assert(init[j] == files[j]);
        assert(offered_by(files, prefix, dir_only, cs[k], j));
    } else {
        let last = files.len() - 1;
        assert(files[last] == files.last());
        assert(offered_by(files, prefix, dir_only, cs[k], last));
    }
}

/// Every completion of a listing is what one listed entry offers, and that
/// entry's file name starts with the typed prefix (and it is a directory
/// when only directories are asked for): an entry whose name does not
/// start with the prefix is never the source of a completion.
pub proof fn lemma_candidates_match_prefix(files: Seq<VFile>, prefix: Seq<char>, dir_only: bool)
    ensures
        forall|k: int| 0 <= k < candidates_of(files, prefix, dir_only).len() ==>
            offered_by(files, prefix, dir_only, #[trigger] candidates_of(files, prefix, dir_only)[k],
                source_of(files, prefix, dir_only, candidates_of(files, prefix, dir_only)[k])),
{
    assert forall|k: int| 0 <= k < candidates_of(files, prefix, dir_only).len() implies
        offered_by(files, prefix, dir_only, #[trigger] candidates_of(files, prefix, dir_only)[k],
            source_of(files, prefix, dir_only, candidates_of(files, prefix, dir_only)[k])) by {
        lemma_candidate_source(files, prefix, dir_only, k);
    }
}

/// The directory to list and the prefix to match for a typed path.
pub fn path_query(input: &str) -> (r: Result<(String, String), String>)
    ensures
        match r {
            Ok((d, p)) => spec_path_query(input@) == Ok::<(Seq<char>, Seq<char>), Seq<char>>((d@, p@)),
            Err(e) => spec_path_query(input@) == Err::<(Seq<char>, Seq<char>), Seq<char>>(e@),
        },
{
    let v = crate::text::chars_of(input);
    if v.len() > 0 && v[v.len() - 1] == '/' {
        return Ok((owned(input), String::new()));
    }
    match parent(input) {
        Some(p) => {
            if p.as_str().unicode_len() == 0 {
                return Err(owned("Failed to get parent directory"));
            }
            match file_name(input) {
                Some(n) => Ok((p, n)),
                None => Err(owned("Failed to get file name")),
            }
        },
        None => Err(owned("Failed to get parent directory")),
    }
}

/// The completion a listed file offers.
pub fn candidate(f: &VFile, prefix: &str, dir_only: bool) -> (r: Option<String>)
    ensures
        match r {
            Some(c) => candidate_of(*f, prefix@, dir_only) == Some(c@),
            None => candidate_of(*f, prefix@, dir_only) is None,
        },
{
    let is_dir = f.is_dir();
    if dir_only && !is_dir {
        return None;
    }
    match file_name(f.path.as_str()) {
        None => None,
        Some(name) => {
            if !starts_with(name.as_str(), prefix) {
                return None;
            }
            let mut s = f.path.clone();
            if is_dir {
                push_char(&mut s, '/');
            }
            Some(s)
        },
    }
}

/// The completions of the listed files, sorted.
pub fn matching_candidates(files: &[VFile], prefix: &str, dir_only: bool) -> (r: Vec<String>)
    ensures
        sorted(views(r@)),
        views(r@).to_multiset() == candidates_of(files@, prefix@, dir_only).to_multiset(),
{
    let mut out: Vec<String> = Vec::new();
    let mut i: usize = 0;
    while i < files.len()
        invariant
            i <= files@.len(),
            views(out@) == candidates_of(files@.subrange(0, i as int), prefix@, dir_only),
        decreases files@.len() - i,
    {
        let ghost before = out@;
        assert(files@.subrange(0, i + 1).drop_last() =~= files@.subrange(0, i as int));
        match candidate(&files[i], prefix, dir_only) {
            Some(c) => {
                out.push(c);
                assert(views(out@) =~= views(before).push(c@));
            },
            None => {
                assert(views(out@) =~= views(before) + Seq::<Seq<char>>::empty());
            },
        }
        i += 1;
    }
    assert(files@.subrange(0, files@.len() as int) =~= files@);
    sort_strings(out)
}

/// The completions of a typed path: the entries of the directory it names
/// (listed by `list`) that complete it, sorted. Errors of the path itself and
/// of the listing are returned.
pub fn compute_path_candidates<L: Fn(&str) -> Result<Vec<VFile>, String>>(
    input: &str,
    dir_only: bool,
    list: &L,
) -> (r: Result<Vec<String>, String>)
    requires
        forall|s: &str| call_requires(*list, (s,)),
    ensures
        spec_path_query(input@) matches Err(e) ==> (r matches Err(m) && m@ == e),
        r matches Ok(v) ==> sorted(views(v@)) && spec_path_query(input@) is Ok && exists|d: &str, files: Vec<VFile>|
            d@ == spec_path_query(input@)->Ok_0.0 && #[trigger] call_ensures(*list, (d,), Ok::<Vec<VFile>, String>(files))
                && views(v@).to_multiset() == candidates_of(files@, spec_path_query(input@)->Ok_0.1, dir_only).to_multiset(),
{
    let (dir, prefix) = match path_query(input) {
        Ok(q) => q,
        Err(e) => {
            return Err(e);
        },
    };
    let d = dir.as_str();
    let files = match list(d) {
        Ok(f) => f,
        Err(e) => {
            return Err(e);
        },
    };
    let r = matching_candidates(files.as_slice(), prefix.as_str(), dir_only);
    assert(call_ensures(*list, (d,), Ok::<Vec<VFile>, String>(files)));
    Ok(r)
}

/// The candidate that one more Tab (or Shift+Tab) reaches from `i`,
/// wrapping around.
pub open spec fn next_index(i: nat, n: nat, d: CycleDirection) -> nat {
    match d {
        CycleDirection::Forward => (i + 1) % n,
        CycleDirection::Backward => if i == 0 { (n - 1) as nat } else { (i - 1) as nat },
    }
}

/// Tab then Shift+Tab (or Shift+Tab then Tab) comes back to the same
/// candidate, and every step stays among the candidates.
pub proof fn lemma_tab_then_back_tab(i: nat, n: nat)
    requires
        i < n,
    ensures
        next_index(i, n, CycleDirection::Forward) < n,
        next_index(i, n, CycleDirection::Backward) < n,
        next_index(next_index(i, n, CycleDirection::Forward), n, CycleDirection::Backward) == i,
        next_index(next_index(i, n, CycleDirection::Backward), n, CycleDirection::Forward) == i,
{
    if i + 1 < n {
        assert((i + 1) % n == i + 1) by (nonlinear_arith)
            requires
                i + 1 < n,
        ;
    } else {
        assert((i + 1) % n == 0) by (nonlinear_arith)
            requires
                i + 1 == n,
        ;
    }
    if i == 0 {
        assert(((n - 1) as nat + 1) % n == 0) by (nonlinear_arith)
            requires
                n > 0,
        ;
    } else {
        assert(((i - 1) as nat + 1) % n == i) by (nonlinear_arith)
            requires
                0 < i < n,
        ;
    }
}

/// The completion state is consistent: a current candidate is one of them.
pub open spec fn cycle_wf(candidates: Seq<String>, index: Option<usize>) -> bool {
    index matches Some(i) ==> i < candidates.len()
}

/// One Tab or Shift+Tab on a path prompt, from the typed value, the
/// candidates and the current one (`value0`, `cands0`, `idx0`) to
/// `value1`, `cands1`, `idx1`; `ok` is whether it succeeded. Without
/// candidates they are computed from the typed path (sorted): when there
/// are some, the first (Tab) or last (Shift+Tab) becomes the value. With
/// candidates and a current one, the next or previous (wrapping) becomes
/// the value. An error computing the candidates leaves everything
/// unchanged.
pub open spec fn cycled(
    value0: Seq<char>,
    cands0: Seq<String>,
    idx0: Option<usize>,
    direction: CycleDirection,
    value1: Seq<char>,
    cands1: Seq<String>,
    idx1: Option<usize>,
    ok: bool,
) -> bool {
    &&& !ok ==> value1 == value0 && cands1 == cands0 && idx1 == idx0
    &&& cands0.len() > 0 ==> ok && cands1 == cands0 && match idx0 {
        Some(i) => {
            let n = next_index(i as nat, cands0.len(), direction);
            idx1 == Some(n as usize) && value1 == cands0[n as int]@
        },
        None => idx1 is None && value1 == value0,
    }
    &&& cands0.len() == 0 && ok ==> sorted(views(cands1)) && (if cands1.len() == 0 {
        idx1 == idx0 && value1 == value0
    } else {
        let start = match direction {
            CycleDirection::Forward => 0int,
            CycleDirection::Backward => cands1.len() - 1,
        };
        idx1 == Some(start as usize) && value1 == cands1[start]@
    })
}

/// `cands` are the completions of the typed path `value`: sorted, and the
/// same as those the entries of its directory offer (see `candidates_of`),
/// the directory listed by one call of `list`.
pub open spec fn path_completions<L: Fn(&str) -> Result<Vec<VFile>, String>>(
    value: Seq<char>,
    dir_only: bool,
    list: L,
    cands: Seq<Seq<char>>,
) -> bool {
    &&& spec_path_query(value) is Ok
    &&& sorted(cands)
    &&& exists|d: &str, files: Vec<VFile>| d@ == spec_path_query(value)->Ok_0.0
        && #[trigger] call_ensures(list, (d,), Ok::<Vec<VFile>, String>(files))
        && cands.to_multiset() == candidates_of(files@, spec_path_query(value)->Ok_0.1, dir_only).to_multiset()
}

/// One Tab or Shift+Tab on a path prompt (see `cycled`); the candidates it
/// computes are the typed path's completions (see `path_completions`).

pub fn cycle_candidates<L: Fn(&str) -> Result<Vec<VFile>, String>>(
    value: &mut String,
    candidates: &mut Vec<String>,
    candidate_index: &mut Option<usize>,
    direction: CycleDirection,
    dir_only: bool,
    list: &L,
) -> (r: Result<(), String>)
    requires
        forall|s: &str| call_requires(*list, (s,)),
        cycle_wf(old(candidates)@, *old(candidate_index)),
    ensures
        cycle_wf(final(candidates)@, *final(candidate_index)),
        cycled(old(value)@, old(candidates)@, *old(candidate_index), direction, final(value)@, final(candidates)@,
            *final(candidate_index), r is Ok),
        old(candidates)@.len() == 0 && r is Ok ==> path_completions(old(value)@, dir_only, *list, views(final(candidates)@)),
        old(candidates)@.len() == 0 ==> (spec_path_query(old(value)@) matches Err(e) ==> (r matches Err(m) && m@ == e)),
{
    if candidates.len() == 0 {
        let computed = match compute_path_candidates(value.as_str(), dir_only, list) {
            Ok(c) => c,
            Err(e) => {
                return Err(e);
            },
        };
        *candidates = computed;
        if candidates.len() > 0 {
            let start = match direction {
                CycleDirection::Forward => 0,
                CycleDirection::Backward => candidates.len() - 1,
            };
            *candidate_index = Some(start);
            *value = candidates[start].clone();
        } else {
            proof {
                if let Some(i) = *candidate_index {
                    assert(false);
                }
            }
        }
        Ok(())
    } else {
        match *candidate_index {
            Some(index) => {
                let n = candidates.len();
                let next = match direction {
                    CycleDirection::Forward => (index + 1) % n,
                    CycleDirection::Backward => if index == 0 { n - 1 } else { index - 1 },
                };
                *candidate_index = Some(next);
                *value = candidates[next].clone();
            },
            None => {},
        }
        Ok(())
    }
}

} // verus!
