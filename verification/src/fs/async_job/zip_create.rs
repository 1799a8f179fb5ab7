//! Names of the entries of a created archive.
use vstd::prelude::*;
use crate::text::{chars_of, owned, push_str, string_of};

verus! {

/// A finished part of a path, kept unless it is empty or `.`.
pub open spec fn push_part(acc: Seq<Seq<char>>, cur: Seq<char>) -> Seq<Seq<char>> {
    if cur.len() == 0 || cur == seq!['.'] { acc } else { acc.push(cur) }
}

/// Reading `s` from the left: the parts finished so far and the part being
/// read.
pub open spec fn split_state(s: Seq<char>) -> (Seq<Seq<char>>, Seq<char>)
    decreases s.len(),
{
    if s.len() == 0 {
        (Seq::empty(), Seq::empty())
    } else {
        let (acc, cur) = split_state(s.drop_last());
        if s.last() == '/' {
            (push_part(acc, cur), Seq::empty())
        } else {
            (acc, cur.push(s.last()))
        }
    }
}

/// The parts of a path between its `/`s, empty parts and `.` left out.
pub open spec fn path_parts(s: Seq<char>) -> Seq<Seq<char>> {
    push_part(split_state(s).0, split_state(s).1)
}

pub open spec fn is_rooted(s: Seq<char>) -> bool {
    s.len() > 0 && s[0] == '/'
}

/// `path` lies under `prefix`: both rooted or neither, and the parts of
/// `prefix` begin those of `path`.
pub open spec fn is_under(path: Seq<char>, prefix: Seq<char>) -> bool {
    is_rooted(path) == is_rooted(prefix) && path_parts(prefix).len() <= path_parts(path).len()
        && path_parts(path).subrange(0, path_parts(prefix).len() as int) == path_parts(prefix)
}

/// The parts that name something: `..` left out.
pub open spec fn named_parts(parts: Seq<Seq<char>>) -> Seq<Seq<char>>
    decreases parts.len(),
{
    if parts.len() == 0 {
        Seq::empty()
    } else if parts.last() == seq!['.', '.'] {
        named_parts(parts.drop_last())
    } else {
        named_parts(parts.drop_last()).push(parts.last())
    }
}

/// No part of an entry name climbs out of the archive: `..` never remains.
pub proof fn lemma_named_parts_never_climb(parts: Seq<Seq<char>>)
    ensures
        forall|i: int| 0 <= i < named_parts(parts).len() ==> #[trigger] named_parts(parts)[i] != seq!['.', '.'],
    decreases parts.len(),
{
    if parts.len() > 0 {
        lemma_named_parts_never_climb(parts.drop_last());
        let prev = named_parts(parts.drop_last());
        if parts.last() != seq!['.', '.'] {
            assert forall|i: int| 0 <= i < named_parts(parts).len() implies #[trigger] named_parts(parts)[i] != seq!['.', '.'] by {
                if i < prev.len() {
                    assert(named_parts(parts)[i] == prev[i]);
                }
            }
        }
    }
}

/// The parts joined with `/`.
pub open spec fn slash_joined(parts: Seq<Seq<char>>) -> Seq<char>
    decreases parts.len(),
{
    if parts.len() == 0 {
        Seq::empty()
    } else if parts.len() == 1 {
        parts[0]
    } else {
        slash_joined(parts.drop_last()) + seq!['/'] + parts.last()
    }
}

/// The entry name of `path` in an archive of the files under `prefix`.
pub open spec fn spec_zip_name(path: Seq<char>, prefix: Seq<char>) -> Seq<char> {
    slash_joined(named_parts(path_parts(path).skip(path_parts(prefix).len() as int)))
}

fn is_dot(cur: &Vec<char>) -> (r: bool)
    ensures
        r == (cur@ == seq!['.']),
{
    if cur.len() == 1 && cur[0] == '.' {
        assert(cur@ =~= seq!['.']);
        true
    } else {
        false
    }
}

fn is_dot_dot(part: &Vec<char>) -> (r: bool)
    ensures
        r == (part@ == seq!['.', '.']),
{
    if part.len() == 2 && part[0] == '.' && part[1] == '.' {
        assert(part@ =~= seq!['.', '.']);
        true
    } else {
        false
    }
}

fn chars_eq(a: &Vec<char>, b: &Vec<char>) -> (r: bool)
    ensures
        r == (a@ == b@),
{
    if a.len() != b.len() {
        return false;
    }
    let mut i: usize = 0;
    while i < a.len()
        invariant
            a@.len() == b@.len(),
            i <= a@.len(),
            forall|j: int| 0 <= j < i ==> a@[j] == b@[j],
        decreases a@.len() - i,
    {
        if a[i] != b[i] {
            return false;
        }
        i += 1;
    }
    assert(a@ =~= b@);
    true
}

/// The views of a list of character lists.
pub open spec fn char_views(v: Seq<Vec<char>>) -> Seq<Seq<char>> {
    v.map_values(|c: Vec<char>| c@)
}

fn add_part(acc: &mut Vec<Vec<char>>, cur: Vec<char>)
    ensures
        char_views(final(acc)@) == push_part(char_views(old(acc)@), cur@),
{
    if cur.len() > 0 && !is_dot(&cur) {
        acc.push(cur);
        assert(char_views(acc@) =~= char_views(old(acc)@).push(cur@));
    }
}

/// The parts of `s` (see `path_parts`).
fn parts_of(s: &str) -> (r: Vec<Vec<char>>)
    ensures
        char_views(r@) == path_parts(s@),
{
    let cs = chars_of(s);
    let mut acc: Vec<Vec<char>> = Vec::new();
    let mut cur: Vec<char> = Vec::new();
    let mut i: usize = 0;
    assert(cs@.take(0) =~= Seq::<char>::empty());
    while i < cs.len()
        invariant
            cs@ == s@,
            i <= cs@.len(),
            (char_views(acc@), cur@) == split_state(cs@.take(i as int)),
        decreases cs@.len() - i,
    {
        assert(cs@.take(i + 1).drop_last() =~= cs@.take(i as int));
        assert(cs@.take(i + 1).last() == cs@[i as int]);
        if cs[i] == '/' {
            let done = cur;
            cur = Vec::new();
            add_part(&mut acc, done);
        } else {
            cur.push(cs[i]);
        }
        i += 1;
    }
    assert(cs@.take(cs@.len() as int) =~= s@);
    add_part(&mut acc, cur);
    acc
}

/// `s` begins with `/`.
fn rooted(s: &str) -> (r: bool)
    ensures
        r == is_rooted(s@),
{
    let cs = chars_of(s);
    cs.len() > 0 && cs[0] == '/'
}

/// The parts of the archive entry: those of `path` after `prefix`'s,
/// `..` left out, joined with `/`. An error when `path` is not under
/// `prefix`, or when no part is left.
pub fn relative_zip_name(path: &str, prefix: &str) -> (r: Result<String, String>)
    ensures
        !is_under(path@, prefix@) ==> (r matches Err(e) && e@ == path@ + " is not under zip prefix "@ + prefix@),
        is_under(path@, prefix@) && spec_zip_name(path@, prefix@).len() == 0 ==> (r matches Err(e)
            && e@ == path@ + ": produced empty zip entry name"@),
        is_under(path@, prefix@) && spec_zip_name(path@, prefix@).len() > 0 ==> (r matches Ok(n) && n@ == spec_zip_name(path@, prefix@)),
{
    let pp = parts_of(path);
    let qp = parts_of(prefix);
    let mut under = rooted(path) == rooted(prefix) && qp.len() <= pp.len();
    if under {
        let mut i: usize = 0;
        let mut same = true;
        while same && i < qp.len()
            invariant
                qp@.len() <= pp@.len(),
                i <= qp@.len(),
                forall|j: int| 0 <= j < i ==> pp@[j]@ == qp@[j]@,
                !same ==> i < qp@.len() && pp@[i as int]@ != qp@[i as int]@,
            decreases qp@.len() - i, if same { 1int } else { 0int },
        {
            if !chars_eq(&pp[i], &qp[i]) {
                same = false;
            } else {
                i += 1;
            }
        }
        under = same;
        proof {
            if under {
                assert(char_views(pp@).subrange(0, qp@.len() as int) =~= char_views(qp@));
            } else {
                assert(char_views(pp@)[i as int] != char_views(qp@)[i as int]);
                assert(char_views(pp@).subrange(0, qp@.len() as int)[i as int] == char_views(pp@)[i as int]);
            }
        }
    }
    if !under {
        let mut e = owned(path);
        push_str(&mut e, " is not under zip prefix ");
        push_str(&mut e, prefix);
        return Err(e);
    }
    let ghost rest = path_parts(path@).skip(path_parts(prefix@).len() as int);
    let mut named: Vec<Vec<char>> = Vec::new();
    let mut out: Vec<char> = Vec::new();
    let mut k: usize = qp.len();
    assert(rest.take(0) =~= Seq::<Seq<char>>::empty());
    while k < pp.len()
        invariant
            qp@.len() <= k <= pp@.len(),
            char_views(pp@) == path_parts(path@),
            char_views(qp@) == path_parts(prefix@),
            rest == path_parts(path@).skip(path_parts(prefix@).len() as int),
            char_views(named@) == named_parts(rest.take(k - qp@.len())),
            out@ == slash_joined(char_views(named@)),
        decreases pp@.len() - k,
    {
        let ghost t = (k - qp@.len()) as int;
        assert(rest.take(t + 1).drop_last() =~= rest.take(t));
        assert(rest.take(t + 1).last() == pp@[k as int]@);
        if !is_dot_dot(&pp[k]) {
            let part = pp[k].clone();
            assert(part@ == pp@[k as int]@);
            let ghost before = char_views(named@);
            if named.len() > 0 {
                out.push('/');
            }
            let mut j: usize = 0;
            let ghost base = out@;
            while j < part.len()
                invariant
                    j <= part@.len(),
                    out@ == base + part@.take(j as int),
                decreases part@.len() - j,
            {
                out.push(part[j]);
                j += 1;
                assert(part@.take(j as int) =~= part@.take(j - 1).push(part@[j - 1]));
            }
            assert(part@.take(part@.len() as int) =~= part@);
            named.push(part);
            proof {
                assert(char_views(named@) =~= before.push(pp@[k as int]@));
                if before.len() == 0 {
                    assert(out@ =~= pp@[k as int]@);
                    assert(char_views(named@).len() == 1);
                } else {
                    assert(char_views(named@).drop_last() =~= before);
                    assert(out@ =~= slash_joined(before) + seq!['/'] + pp@[k as int]@);
                }
            }
        }
        k += 1;
    }
    assert(rest.take(pp@.len() - qp@.len()) =~= rest);
    if out.len() == 0 {
        let mut e = owned(path);
        push_str(&mut e, ": produced empty zip entry name");
        return Err(e);
    }
    Ok(string_of(out.as_slice()))
}

} // verus!
