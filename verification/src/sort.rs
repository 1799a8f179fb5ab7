//! Sorting strings in the order of `str`'s `Ord` (by code point, which is
//! byte order of UTF-8).
use vstd::prelude::*;
use crate::fs::file::VFile;
use crate::fs::file_time::VFileTime;
use crate::path::spec_file_name;
use crate::state::SortKey;
use crate::text::{chars_of, views};

verus! {

/// `a` sorts before or equal to `b`, comparing character by character, a
/// proper prefix first.
pub open spec fn seq_le(a: Seq<char>, b: Seq<char>) -> bool
    decreases a.len(),
{
    if a.len() == 0 {
        true
    } else if b.len() == 0 {
        false
    } else if (a[0] as int) < (b[0] as int) {
        true
    } else if (a[0] as int) > (b[0] as int) {
        false
    } else {
        seq_le(a.drop_first(), b.drop_first())
    }
}

/// The strings are in ascending order.
pub open spec fn sorted(s: Seq<Seq<char>>) -> bool {
    forall|i: int, j: int| 0 <= i < j < s.len() ==> seq_le(#[trigger] s[i], #[trigger] s[j])
}

pub proof fn lemma_seq_le_total(a: Seq<char>, b: Seq<char>)
    ensures
        seq_le(a, b) || seq_le(b, a),
    decreases a.len(),
{
    if a.len() > 0 && b.len() > 0 && (a[0] as int) == (b[0] as int) {
        lemma_seq_le_total(a.drop_first(), b.drop_first());
    }
}

pub proof fn lemma_seq_le_trans(a: Seq<char>, b: Seq<char>, c: Seq<char>)
    requires
        seq_le(a, b),
        seq_le(b, c),
    ensures
        seq_le(a, c),
    decreases a.len(),
{
    if a.len() > 0 && b.len() > 0 && c.len() > 0 && (a[0] as int) == (b[0] as int) && (b[0] as int) == (c[0] as int) {
        lemma_seq_le_trans(a.drop_first(), b.drop_first(), c.drop_first());
    }
}

/// Whether `a` sorts before or equal to `b`.
pub fn str_le(a: &str, b: &str) -> (r: bool)
    ensures
        r == seq_le(a@, b@),
{
    let av = chars_of(a);
    let bv = chars_of(b);
    let mut i: usize = 0;
    assert(a@.subrange(0, a@.len() as int) =~= a@);
    assert(b@.subrange(0, b@.len() as int) =~= b@);
    while i < av.len() && i < bv.len() && av[i] == bv[i]
        invariant
            av@ == a@,
            bv@ == b@,
            i <= av@.len(),
            i <= bv@.len(),
            seq_le(a@, b@) == seq_le(a@.subrange(i as int, a@.len() as int), b@.subrange(i as int, b@.len() as int)),
        decreases av@.len() - i,
    {
        let ghost sa = a@.subrange(i as int, a@.len() as int);
        let ghost sb = b@.subrange(i as int, b@.len() as int);
        assert(sa.drop_first() =~= a@.subrange(i + 1, a@.len() as int));
        assert(sb.drop_first() =~= b@.subrange(i + 1, b@.len() as int));
        i += 1;
    }
    let ghost sa = a@.subrange(i as int, a@.len() as int);
    let ghost sb = b@.subrange(i as int, b@.len() as int);
    if i == av.len() {
        assert(sa.len() == 0);
        true
    } else if i == bv.len() {
        false
    } else {
        assert(sa[0] == av@[i as int] && sb[0] == bv@[i as int]);
        av[i] < bv[i]
    }
}

/// The strings in ascending order.
pub fn sort_strings(v: Vec<String>) -> (r: Vec<String>)
    ensures
        sorted(views(r@)),
        views(r@).to_multiset() == views(v@).to_multiset(),
{
    broadcast use vstd::seq_lib::group_to_multiset_ensures;
    let mut out: Vec<String> = Vec::new();
    let mut i: usize = 0;
    assert(v@.subrange(0, 0) =~= Seq::<String>::empty());
    while i < v.len()
        invariant
            i <= v@.len(),
            sorted(views(out@)),
            views(out@).to_multiset() == views(v@.subrange(0, i as int)).to_multiset(),
        decreases v@.len() - i,
    {
        let x = v[i].clone();
        let mut p: usize = 0;
        while p < out.len() && str_le(out[p].as_str(), x.as_str())
            invariant
                p <= out@.len(),
                forall|k: int| 0 <= k < p ==> seq_le(#[trigger] out@[k]@, x@),
            decreases out@.len() - p,
        {
            p += 1;
        }
        let ghost before = out@;
        proof {
            if p < out@.len() {
                lemma_seq_le_total(out@[p as int]@, x@);
            }
        }
        out.insert(p, x);
        proof {
            assert(views(out@) =~= views(before).insert(p as int, x@));
            vstd::seq_lib::to_multiset_insert(views(before), p as int, x@);
            assert(views(v@.subrange(0, i + 1)) =~= views(v@.subrange(0, i as int)).push(v@[i as int]@));
            vstd::seq_lib::to_multiset_build(views(v@.subrange(0, i as int)), v@[i as int]@);
            assert forall|a: int, b: int| 0 <= a < b < out@.len() implies seq_le(#[trigger] views(out@)[a], #[trigger] views(out@)[b]) by {
                assert(views(out@)[a] == out@[a]@);
                assert(views(out@)[b] == out@[b]@);
                if b < p {
                    assert(views(before)[a] == before[a]@);
                    assert(views(before)[b] == before[b]@);
                } else if b == p {
                    assert(out@[a] == before[a]);
                } else if a < p {
                    assert(before[b - 1] == out@[b]);
                    assert(seq_le(before[a]@, x@));
                    assert(seq_le(x@, before[p as int]@));
                    if p < b - 1 {
                        assert(views(before)[p as int] == before[p as int]@);
                        assert(views(before)[b - 1] == before[b - 1]@);
                        assert(seq_le(before[p as int]@, before[b - 1]@));
                        lemma_seq_le_trans(x@, before[p as int]@, before[b - 1]@);
                    }
                    lemma_seq_le_trans(before[a]@, x@, before[b - 1]@);
                } else if a == p {
                    assert(seq_le(x@, before[p as int]@));
                    if p < b - 1 {
                        assert(views(before)[p as int] == before[p as int]@);
                        assert(views(before)[b - 1] == before[b - 1]@);
                        lemma_seq_le_trans(x@, before[p as int]@, before[b - 1]@);
                    }
                } else {
                    assert(views(before)[a - 1] == before[a - 1]@);
                    assert(views(before)[b - 1] == before[b - 1]@);
                }
            }
        }
        i += 1;
    }
    assert(v@.subrange(0, v@.len() as int) =~= v@);
    out
}

/// The name a file is sorted and searched by (empty where the path has
/// none).
pub open spec fn name_of(f: VFile) -> Seq<char> {
    match spec_file_name(f.path@) {
        Some(n) => n,
        None => Seq::empty(),
    }
}

/// The size a file is sorted by (0 where it has no metadata).
pub open spec fn size_of(f: VFile) -> u64 {
    match f.metadata {
        Some(m) => m.size,
        None => 0,
    }
}

/// The modification time a file is sorted by.
pub open spec fn modified_of(f: VFile) -> Option<VFileTime> {
    match f.metadata {
        Some(m) => m.modified,
        None => None,
    }
}

/// Times in order, an unknown time first.
pub open spec fn time_le(a: Option<VFileTime>, b: Option<VFileTime>) -> bool {
    match (a, b) {
        (None, _) => true,
        (Some(_), None) => false,
        (Some(x), Some(y)) => crate::fs::file_time::at_or_before(x, y),
    }
}

/// `a` may come before `b` in the list sorted by `key`.
pub open spec fn file_le(a: VFile, b: VFile, key: SortKey) -> bool {
    match key {
        SortKey::Name => seq_le(name_of(a), name_of(b)),
        SortKey::Size => size_of(a) <= size_of(b),
        SortKey::Modified => time_le(modified_of(a), modified_of(b)),
    }
}

/// The files are in the order of `key`.
pub open spec fn files_sorted(s: Seq<VFile>, key: SortKey) -> bool {
    forall|i: int, j: int| 0 <= i < j < s.len() ==> file_le(#[trigger] s[i], #[trigger] s[j], key)
}

pub proof fn lemma_file_le_total(a: VFile, b: VFile, key: SortKey)
    ensures
        file_le(a, b, key) || file_le(b, a, key),
{
    lemma_seq_le_total(name_of(a), name_of(b));
}

pub proof fn lemma_file_le_trans(a: VFile, b: VFile, c: VFile, key: SortKey)
    requires
        file_le(a, b, key),
        file_le(b, c, key),
    ensures
        file_le(a, c, key),
{
    if key == SortKey::Name {
        lemma_seq_le_trans(name_of(a), name_of(b), name_of(c));
    }
}

fn time_le_exec(a: Option<VFileTime>, b: Option<VFileTime>) -> (r: bool)
    ensures
        r == time_le(a, b),
{
    match (a, b) {
        (None, _) => true,
        (Some(_), None) => false,
        (Some(x), Some(y)) => x.is_at_or_before(&y),
    }
}

fn size_of_exec(f: &VFile) -> (r: u64)
    ensures
        r == size_of(*f),
{
    match &f.metadata {
        Some(m) => m.size,
        None => 0,
    }
}

fn modified_of_exec(f: &VFile) -> (r: Option<VFileTime>)
    ensures
        r == modified_of(*f),
{
    match &f.metadata {
        Some(m) => m.modified,
        None => None,
    }
}

/// The name of a file as `name_of` takes it.
pub fn name_of_exec(f: &VFile) -> (r: String)
    ensures
        r@ == name_of(*f),
{
    match f.file_name() {
        Some(n) => n,
        None => String::new(),
    }
}

/// Whether `a` may come before `b` in the list sorted by `key`.
pub fn file_le_exec(a: &VFile, b: &VFile, key: SortKey) -> (r: bool)
    ensures
        r == file_le(*a, *b, key),
{
    match key {
        SortKey::Name => {
            let na = name_of_exec(a);
            let nb = name_of_exec(b);
            str_le(na.as_str(), nb.as_str())
        },
        SortKey::Size => size_of_exec(a) <= size_of_exec(b),
        SortKey::Modified => time_le_exec(modified_of_exec(a), modified_of_exec(b)),
    }
}

/// The files in the order of `key`; files that compare equal keep their
/// order.
pub fn sort_files(v: Vec<VFile>, key: SortKey) -> (r: Vec<VFile>)
    ensures
        files_sorted(r@, key),
        r@.to_multiset() == v@.to_multiset(),
{
    broadcast use vstd::seq_lib::group_to_multiset_ensures;
    let mut out: Vec<VFile> = Vec::new();
    let mut i: usize = 0;
    assert(v@.subrange(0, 0) =~= Seq::<VFile>::empty());
    while i < v.len()
        invariant
            i <= v@.len(),
            files_sorted(out@, key),
            out@.to_multiset() == v@.subrange(0, i as int).to_multiset(),
        decreases v@.len() - i,
    {
        let x = v[i].duplicate();
        let mut p: usize = 0;
        while p < out.len() && file_le_exec(&out[p], &x, key)
            invariant
                p <= out@.len(),
                forall|k: int| 0 <= k < p ==> file_le(#[trigger] out@[k], x, key),
            decreases out@.len() - p,
        {
            p += 1;
        }
        let ghost before = out@;
        proof {
            if p < out@.len() {
                lemma_file_le_total(out@[p as int], x, key);
            }
        }
        out.insert(p, x);
        proof {
            vstd::seq_lib::to_multiset_insert(before, p as int, x);
            assert(v@.subrange(0, i + 1) =~= v@.subrange(0, i as int).push(v@[i as int]));
            vstd::seq_lib::to_multiset_build(v@.subrange(0, i as int), v@[i as int]);
            assert forall|a: int, b: int| 0 <= a < b < out@.len() implies file_le(#[trigger] out@[a], #[trigger] out@[b], key) by {
                if b < p {
                    assert(out@[a] == before[a] && out@[b] == before[b]);
                } else if b == p {
                    assert(out@[a] == before[a]);
                } else if a < p {
                    assert(before[b - 1] == out@[b] && before[a] == out@[a]);
                    assert(file_le(x, before[p as int], key));
                    if p < b - 1 {
                        lemma_file_le_trans(x, before[p as int], before[b - 1], key);
                    }
                    lemma_file_le_trans(before[a], x, before[b - 1], key);
                } else if a == p {
                    assert(before[b - 1] == out@[b]);
                    if p < b - 1 {
                        lemma_file_le_trans(x, before[p as int], before[b - 1], key);
                    }
                } else {
                    assert(before[a - 1] == out@[a] && before[b - 1] == out@[b]);
                }
            }
        }
        i += 1;
    }
    assert(v@.subrange(0, v@.len() as int) =~= v@);
    out
}

} // verus!
