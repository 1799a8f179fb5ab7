//! Where a copy or a move puts each file: into the destination directory
//! under its own name, or, for one file going to a path that is not a
//! directory, at that path; a name that is taken gets `_1`, `_2`, ...
//! before its extension. Whether a path exists on disk is asked of the
//! caller.
use vstd::prelude::*;
use crate::fs::file::VFile;
use crate::fs::file_info::spec_extension;
use crate::path::{spec_file_name, spec_file_stem, spec_join, spec_parent};
use crate::text::{decimal, owned, push_decimal, push_str, views};

verus! {

/// How many suffixes are tried before giving up.
pub const MAX_UNIQUE_PATH_SUFFIX: u32 = 1000;

/// A file and where it goes.
#[derive(Debug)]
pub struct TopLevelPair {
    pub src: String,
    pub dst: String,
}

/// The destination is the new path of the one file, not a directory to
/// put the files in.
pub open spec fn spec_dest_is_exact_path(root_count: nat, dest_is_dir: bool) -> bool {
    root_count == 1 && !dest_is_dir
}

pub fn dest_is_exact_path(roots: &[VFile], dest_is_dir: bool) -> (r: bool)
    ensures
        r == spec_dest_is_exact_path(roots@.len(), dest_is_dir),
{
    roots.len() == 1 && !dest_is_dir
}

/// The directory that must exist before the files are written: the
/// destination's parent for an exact path, the destination itself
/// otherwise (none at the root).
pub fn destination_dir(exact_path: bool, dest: &str) -> (r: Option<String>)
    ensures
        exact_path ==> match spec_parent(dest@) {
            Some(p) => r matches Some(d) && d@ == p,
            None => r is None,
        },
        !exact_path ==> (r matches Some(d) && d@ == dest@),
{
    if exact_path {
        crate::path::parent(dest)
    } else {
        Some(owned(dest))
    }
}

/// The name with suffix `i`: `stem_i.ext`, or `stem_i` without an
/// extension.
pub open spec fn suffixed_name(stem: Seq<char>, ext: Option<Seq<char>>, i: nat) -> Seq<char> {
    stem + "_"@ + decimal(i) + match ext {
        Some(e) => "."@ + e,
        None => Seq::empty(),
    }
}

/// The `i`-th alternative to `initial`, beside it.
pub open spec fn candidate(initial: Seq<char>, i: nat) -> Seq<char> {
    spec_join(spec_parent(initial)->Some_0, suffixed_name(spec_file_stem(initial)->Some_0, spec_extension(initial), i))
}

/// One call of `exists` on `p` answered `answer`.
pub open spec fn answered<E: Fn(&str) -> bool>(on_disk: E, p: Seq<char>, answer: bool) -> bool {
    exists|s: &str| s@ == p && #[trigger] call_ensures(on_disk, (s,), answer)
}

/// `p` cannot be used: it is claimed by an earlier file of the batch, or
/// it exists.
pub open spec fn taken<E: Fn(&str) -> bool>(claimed: Seq<Seq<char>>, on_disk: E, p: Seq<char>) -> bool {
    claimed.contains(p) || answered(on_disk, p, true)
}

/// `p` can be used: not claimed, and it does not exist.
pub open spec fn free<E: Fn(&str) -> bool>(claimed: Seq<Seq<char>>, on_disk: E, p: Seq<char>) -> bool {
    !claimed.contains(p) && answered(on_disk, p, false)
}

fn is_claimed(claimed: &[String], p: &str) -> (r: bool)
    ensures
        r == views(claimed@).contains(p@),
{
    let mut i: usize = 0;
    while i < claimed.len()
        invariant
            i <= claimed@.len(),
            forall|j: int| 0 <= j < i ==> claimed@[j]@ != p@,
        decreases claimed@.len() - i,
    {
        if crate::text::str_eq(claimed[i].as_str(), p) {
            assert(views(claimed@)[i as int] == p@);
            return true;
        }
        i += 1;
    }
    assert forall|j: int| 0 <= j < views(claimed@).len() implies views(claimed@)[j] != p@ by {
        assert(views(claimed@)[j] == claimed@[j]@);
    }
    false
}

/// `p` is what picking a destination for `base` gives: `base` itself when
/// free, else the first free of the candidates `_1`, `_2`, ... beside it.
pub open spec fn picked<E: Fn(&str) -> bool>(claimed: Seq<Seq<char>>, on_disk: E, base: Seq<char>, p: Seq<char>) -> bool {
    free(claimed, on_disk, p) && (p == base || (taken(claimed, on_disk, base)
        && exists|i: nat| 1 <= i <= MAX_UNIQUE_PATH_SUFFIX && p == #[trigger] candidate(base, i)
            && forall|j: nat| 1 <= j < i ==> taken(claimed, on_disk, #[trigger] candidate(base, j))))
}

/// The destinations of the first `k` pairs.
pub open spec fn dsts_before(pairs: Seq<TopLevelPair>, k: int) -> Seq<Seq<char>> {
    Seq::new(k as nat, |t: int| pairs[t].dst@)
}

/// Whether `p` is free, asking `exists` only when it is not claimed.
fn check_free<E: Fn(&str) -> bool>(claimed: &[String], p: &str, on_disk: &E) -> (r: bool)
    requires
        forall|s: &str| call_requires(*on_disk, (s,)),
    ensures
        r ==> free(views(claimed@), *on_disk, p@),
        !r ==> taken(views(claimed@), *on_disk, p@),
{
    if is_claimed(claimed, p) {
        return false;
    }
    let e = on_disk(p);
    assert(call_ensures(*on_disk, (p,), e));
    !e
}

/// A free path for `initial`: itself when free, else the first free
/// candidate `_1` to `_1000` beside it. An error when `initial` is taken
/// and has no parent or stem, or every candidate is taken.
pub fn pick_unique_top_dest<E: Fn(&str) -> bool>(initial: &str, claimed: &[String], on_disk: &E) -> (r: Result<String, String>)
    requires
        forall|s: &str| call_requires(*on_disk, (s,)),
    ensures
        r matches Ok(p) ==> free(views(claimed@), *on_disk, p@),
        r matches Ok(p) ==> p@ == initial@ || (taken(views(claimed@), *on_disk, initial@)
            && spec_parent(initial@) is Some && spec_file_stem(initial@) is Some
            && exists|i: nat| 1 <= i <= MAX_UNIQUE_PATH_SUFFIX && p@ == #[trigger] candidate(initial@, i)
                && forall|j: nat| 1 <= j < i ==> taken(views(claimed@), *on_disk, #[trigger] candidate(initial@, j))),
        r matches Ok(p) ==> picked(views(claimed@), *on_disk, initial@, p@),
        r is Err ==> taken(views(claimed@), *on_disk, initial@),
        r matches Err(e) ==> (spec_parent(initial@) is None && e@ == initial@ + ": no parent directory"@)
            || (spec_parent(initial@) is Some && spec_file_stem(initial@) is None && e@ == initial@ + ": no file stem"@)
            || (spec_parent(initial@) is Some && spec_file_stem(initial@) is Some && e@ == initial@ + ": Failed to make unique path"@
                && forall|j: nat| 1 <= j <= MAX_UNIQUE_PATH_SUFFIX ==> taken(views(claimed@), *on_disk, #[trigger] candidate(initial@, j))),
{
    if check_free(claimed, initial, on_disk) {
        return Ok(owned(initial));
    }
    assert(taken(views(claimed@), *on_disk, initial@));
    let parent = match crate::path::parent(initial) {
        Some(p) => p,
        None => {
            let mut e = owned(initial);
            push_str(&mut e, ": no parent directory");
            return Err(e);
        },
    };
    let stem = match crate::path::file_stem(initial) {
        Some(s) => s,
        None => {
            let mut e = owned(initial);
            push_str(&mut e, ": no file stem");
            return Err(e);
        },
    };
    let ext = crate::fs::file_info::extension_of(initial);
    let mut i: u32 = 1;
    while i <= MAX_UNIQUE_PATH_SUFFIX
        invariant
            1 <= i <= MAX_UNIQUE_PATH_SUFFIX + 1,
            forall|s: &str| call_requires(*on_disk, (s,)),
            taken(views(claimed@), *on_disk, initial@),
            spec_parent(initial@) == Some(parent@),
            spec_file_stem(initial@) == Some(stem@),
            match ext {
                Some(e) => spec_extension(initial@) == Some(e@),
                None => spec_extension(initial@) is None,
            },
            forall|j: nat| 1 <= j < i ==> taken(views(claimed@), *on_disk, #[trigger] candidate(initial@, j)),
        decreases MAX_UNIQUE_PATH_SUFFIX + 1 - i,
    {
        let mut name = owned(stem.as_str());
        push_str(&mut name, "_");
        push_decimal(&mut name, i as u64);
        match &ext {
            Some(e) => {
                push_str(&mut name, ".");
                push_str(&mut name, e.as_str());
            },
            None => {},
        }
        let path = crate::path::join(parent.as_str(), name.as_str());
        assert(path@ == candidate(initial@, i as nat));
        if check_free(claimed, path.as_str(), on_disk) {
            proof {
                let n = i as nat;
                assert(1 <= n <= MAX_UNIQUE_PATH_SUFFIX && path@ == candidate(initial@, n)
                    && forall|j: nat| 1 <= j < n ==> taken(views(claimed@), *on_disk, #[trigger] candidate(initial@, j)));
            }
            return Ok(path);
        }
        i = i + 1;
    }
    let mut e = owned(initial);
    push_str(&mut e, ": Failed to make unique path");
    Err(e)
}

/// Where a file goes before clashes are avoided: `dest` itself for an
/// exact path, else `dest` joined with the file's name.
pub open spec fn top_base(src: Seq<char>, dest: Seq<char>, exact_path: bool) -> Seq<char> {
    if exact_path {
        dest
    } else {
        spec_join(dest, spec_file_name(src)->Some_0)
    }
}

/// `p` is `base` or one of the alternatives beside it.
pub open spec fn base_or_candidate(base: Seq<char>, p: Seq<char>) -> bool {
    p == base || exists|i: nat| 1 <= i <= MAX_UNIQUE_PATH_SUFFIX && p == #[trigger] candidate(base, i)
}

/// The destination of every file: pairs in the files' order, each
/// destination free when it was picked and none the same as another's.
pub fn resolve_top_level_pairs<E: Fn(&str) -> bool>(roots: &[VFile], dest: &str, exact_path: bool, on_disk: &E) -> (r: Result<Vec<TopLevelPair>, String>)
    requires
        forall|s: &str| call_requires(*on_disk, (s,)),
    ensures
        r matches Ok(pairs) ==> pairs@.len() == roots@.len()
            && (forall|k: int| 0 <= k < pairs@.len() ==> (#[trigger] pairs@[k]).src@ == roots@[k].path@)
            && (forall|a: int, b: int| 0 <= a < b < pairs@.len() ==> (#[trigger] pairs@[a]).dst@ != (#[trigger] pairs@[b]).dst@)
            && (forall|k: int| 0 <= k < pairs@.len() ==> answered(*on_disk, (#[trigger] pairs@[k]).dst@, false))
            && (forall|k: int| 0 <= k < pairs@.len() ==> base_or_candidate(top_base(roots@[k].path@, dest@, exact_path), (#[trigger] pairs@[k]).dst@))
            && (forall|k: int| 0 <= k < pairs@.len() ==> picked(dsts_before(pairs@, k), *on_disk,
                top_base(roots@[k].path@, dest@, exact_path), (#[trigger] pairs@[k]).dst@)),
        roots@.len() == 0 ==> (r matches Ok(pairs) && pairs@.len() == 0),
        (!exact_path && roots@.len() > 0 && spec_file_name(roots@[0].path@) is None) ==> (r matches Err(e)
            && e@ == roots@[0].path@ + ": Failed to read source file name"@),
        r matches Err(e) ==> exists|k: int| 0 <= k < roots@.len() && (
            (!exact_path && spec_file_name(#[trigger] roots@[k].path@) is None
                && e@ == roots@[k].path@ + ": Failed to read source file name"@)
            || ((exact_path || spec_file_name(roots@[k].path@) is Some)
                && e@ == roots@[k].path@ + ": Failed to resolve unique destination"@)),
{
    let mut claimed: Vec<String> = Vec::new();
    let mut pairs: Vec<TopLevelPair> = Vec::new();
    let mut k: usize = 0;
    while k < roots.len()
        invariant
            forall|s: &str| call_requires(*on_disk, (s,)),
            k <= roots@.len(),
            pairs@.len() == k,
            claimed@.len() == k,
            k > 0 ==> (exact_path || spec_file_name(roots@[0].path@) is Some),
            forall|t: int| 0 <= t < k ==> (#[trigger] pairs@[t]).src@ == roots@[t].path@,
            forall|t: int| 0 <= t < k ==> (#[trigger] pairs@[t]).dst@ == claimed@[t]@,
            forall|a: int, b: int| 0 <= a < b < k ==> (#[trigger] claimed@[a])@ != (#[trigger] claimed@[b])@,
            forall|t: int| 0 <= t < k ==> answered(*on_disk, (#[trigger] pairs@[t]).dst@, false),
            forall|t: int| 0 <= t < k ==> base_or_candidate(top_base(roots@[t].path@, dest@, exact_path), (#[trigger] pairs@[t]).dst@),
            views(claimed@) == dsts_before(pairs@, k as int),
            forall|t: int| 0 <= t < k ==> picked(dsts_before(pairs@, t), *on_disk,
                top_base(roots@[t].path@, dest@, exact_path), (#[trigger] pairs@[t]).dst@),
        decreases roots@.len() - k,
    {
        let src = roots[k].absolute_path();
        let base = if exact_path {
            owned(dest)
        } else {
            match crate::path::file_name(src) {
                Some(n) => crate::path::join(dest, n.as_str()),
                None => {
                    let mut e = owned(src);
                    push_str(&mut e, ": Failed to read source file name");
                    return Err(e);
                },
            }
        };
        let top = match pick_unique_top_dest(base.as_str(), claimed.as_slice(), on_disk) {
            Ok(p) => p,
            Err(_) => {
                let mut e = owned(src);
                push_str(&mut e, ": Failed to resolve unique destination");
                return Err(e);
            },
        };
        let ghost before = claimed@;
        proof {
            assert forall|t: int| 0 <= t < k implies (#[trigger] before[t])@ != top@ by {
                assert(views(before)[t] == before[t]@);
            }
        }
        let ghost old_pairs = pairs@;
        claimed.push(top.clone());
        pairs.push(TopLevelPair { src: owned(src), dst: top });
        proof {
            assert forall|t: int| 0 <= t <= k implies #[trigger] dsts_before(pairs@, t) == dsts_before(old_pairs, t) by {
                assert(dsts_before(pairs@, t) =~= dsts_before(old_pairs, t));
            }
            assert(views(claimed@) =~= dsts_before(pairs@, k + 1));
        }
        k += 1;
    }
    Ok(pairs)
}

} // verus!
