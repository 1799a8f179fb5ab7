//! Unix path strings: the file name, stem and parent of a path, joining, and
//! the check that a user-typed name stays inside its directory.
use vstd::prelude::*;
use crate::text::{chars_of, string_of};

verus! {

/// `s` without trailing separators and trailing `/.` components; a lone `/`
/// is kept.
pub open spec fn trim_tail(s: Seq<char>) -> Seq<char>
    decreases s.len(),
{
    if s.len() > 1 && s.last() == '/' {
        trim_tail(s.drop_last())
    } else if s.len() > 2 && s.last() == '.' && s[s.len() - 2] == '/' {
        trim_tail(s.drop_last())
    } else {
        s
    }
}

/// Index of the last `c` in `s`, or `-1`.
pub open spec fn last_index(s: Seq<char>, c: char) -> int
    decreases s.len(),
{
    if s.len() == 0 {
        -1
    } else if s.last() == c {
        s.len() - 1
    } else {
        last_index(s.drop_last(), c)
    }
}

/// The characters after the last separator.
pub open spec fn last_component(t: Seq<char>) -> Seq<char> {
    t.subrange(last_index(t, '/') + 1, t.len() as int)
}

pub open spec fn is_dot(c: Seq<char>) -> bool {
    c.len() == 1 && c[0] == '.'
}

pub open spec fn is_dot_dot(c: Seq<char>) -> bool {
    c.len() == 2 && c[0] == '.' && c[1] == '.'
}

/// The final component of a path when it is a normal name (`Path::file_name`):
/// none for the root, an empty path, `.` or `..`.
pub open spec fn spec_file_name(p: Seq<char>) -> Option<Seq<char>> {
    let c = last_component(trim_tail(p));
    if c.len() == 0 || is_dot(c) || is_dot_dot(c) {
        None
    } else {
        Some(c)
    }
}

/// The path without its final component (`Path::parent`): none for the root
/// and the empty path, the empty path for a single relative component.
pub open spec fn spec_parent(p: Seq<char>) -> Option<Seq<char>> {
    let t = trim_tail(p);
    let k = last_index(t, '/');
    let c = last_component(t);
    if c.len() == 0 || (is_dot(c) && k >= 0) {
        None
    } else if k < 0 {
        Some(Seq::empty())
    } else if k == 0 {
        Some(seq!['/'])
    } else {
        Some(trim_tail(t.subrange(0, k)))
    }
}

/// `name` appended to `base` with one separator (`Path::join`); an absolute
/// `name` replaces `base`.
pub open spec fn spec_join(base: Seq<char>, name: Seq<char>) -> Seq<char> {
    if name.len() > 0 && name[0] == '/' {
        name
    } else if base.len() == 0 {
        name
    } else if base.last() == '/' {
        base + name
    } else {
        base + seq!['/'] + name
    }
}

/// The file name without its extension (`Path::file_stem`): a leading dot
/// does not start an extension.
pub open spec fn spec_file_stem(p: Seq<char>) -> Option<Seq<char>> {
    match spec_file_name(p) {
        None => None,
        Some(n) => {
            let d = last_index(n, '.');
            if d <= 0 { Some(n) } else { Some(n.subrange(0, d)) }
        },
    }
}

/// Whether a `..` component starts at `i`.
pub open spec fn dot_dot_at(s: Seq<char>, i: int) -> bool {
    0 <= i && i + 1 < s.len() && s[i] == '.' && s[i + 1] == '.' && (i == 0 || s[i - 1] == '/')
        && (i + 2 == s.len() || s[i + 2] == '/')
}

/// Whether `s` holds a `..` component.
pub open spec fn has_dot_dot(s: Seq<char>) -> bool {
    exists|i: int| #[trigger] dot_dot_at(s, i)
}

/// Whether every component of `s` is a normal name: it is relative, does not
/// start with `.`, and holds no `..` (the check that a typed name cannot
/// reach outside the directory it is created in).
pub open spec fn spec_all_normal(s: Seq<char>) -> bool {
    &&& !(s.len() > 0 && s[0] == '/')
    &&& !(is_dot(s) || (s.len() >= 2 && s[0] == '.' && s[1] == '/'))
    &&& !has_dot_dot(s)
}

/// `trim_tail` on characters.
pub fn trim_tail_len(s: &Vec<char>) -> (n: usize)
    ensures
        n <= s@.len(),
        trim_tail(s@) == s@.subrange(0, n as int),
{
    let mut end = s.len();
    assert(s@.subrange(0, end as int) =~= s@);
    while (end > 1 && s[end - 1] == '/') || (end > 2 && s[end - 1] == '.' && s[end - 2] == '/')
        invariant
            end <= s@.len(),
            trim_tail(s@) == trim_tail(s@.subrange(0, end as int)),
        decreases end,
    {
        assert(s@.subrange(0, end as int).drop_last() =~= s@.subrange(0, end - 1));
        end = end - 1;
    }
    end
}

/// One past the last `c` in `s[..end]` (0 when there is none).
pub fn after_last_in(s: &Vec<char>, end: usize, c: char) -> (k: usize)
    requires
        end <= s@.len(),
    ensures
        k == last_index(s@.subrange(0, end as int), c) + 1,
        k <= end,
{
    let mut i = end;
    while i > 0 && s[i - 1] != c
        invariant
            i <= end,
            end <= s@.len(),
            last_index(s@.subrange(0, end as int), c) == last_index(s@.subrange(0, i as int), c),
        decreases i,
    {
        assert(s@.subrange(0, i as int).drop_last() =~= s@.subrange(0, i - 1));
        i = i - 1;
    }
    i
}

/// The characters `s[start..end]` as a string.
pub fn slice_string(s: &Vec<char>, start: usize, end: usize) -> (r: String)
    requires
        start <= end <= s@.len(),
    ensures
        r@ == s@.subrange(start as int, end as int),
{
    let mut v: Vec<char> = Vec::new();
    let mut i = start;
    while i < end
        invariant
            start <= i <= end,
            end <= s@.len(),
            v@ =~= s@.subrange(start as int, i as int),
        decreases end - i,
    {
        v.push(s[i]);
        i += 1;
    }
    string_of(v.as_slice())
}

/// The final normal component of a path.
pub fn file_name(p: &str) -> (r: Option<String>)
    ensures
        r matches Some(n) ==> spec_file_name(p@) == Some(n@),
        r is None <==> spec_file_name(p@) is None,
{
    let s = chars_of(p);
    let end = trim_tail_len(&s);
    let start = after_last_in(&s, end, '/');
    let len = end - start;
    assert(last_component(s@.subrange(0, end as int)) =~= s@.subrange(start as int, end as int));
    if len == 0 || (len == 1 && s[start] == '.') || (len == 2 && s[start] == '.' && s[start + 1] == '.') {
        None
    } else {
        Some(slice_string(&s, start, end))
    }
}

/// The path without its final component.
pub fn parent(p: &str) -> (r: Option<String>)
    ensures
        r matches Some(q) ==> spec_parent(p@) == Some(q@),
        r is None <==> spec_parent(p@) is None,
{
    proof {
        reveal_strlit("/");
    }
    let s = chars_of(p);
    let end = trim_tail_len(&s);
    let start = after_last_in(&s, end, '/');
    let len = end - start;
    let ghost t = s@.subrange(0, end as int);
    assert(last_component(t) =~= s@.subrange(start as int, end as int));
    if len == 0 || (len == 1 && s[start] == '.' && start > 0) {
        None
    } else if start == 0 {
        Some(String::new())
    } else if start == 1 {
        Some(crate::text::owned("/"))
    } else {
        let rest = slice_string(&s, 0, start - 1);
        let rv = chars_of(rest.as_str());
        assert(t.subrange(0, start - 1) =~= rv@);
        let n = trim_tail_len(&rv);
        let r = slice_string(&rv, 0, n);
        assert(spec_parent(p@) == Some(trim_tail(t.subrange(0, start - 1))));
        Some(r)
    }
}

/// `name` appended to `base` with one separator; an absolute `name`
/// replaces `base`.
pub fn join(base: &str, name: &str) -> (r: String)
    ensures
        r@ == spec_join(base@, name@),
{
    let b = chars_of(base);
    let n = chars_of(name);
    if n.len() > 0 && n[0] == '/' {
        crate::text::owned(name)
    } else if b.len() == 0 {
        crate::text::owned(name)
    } else if b[b.len() - 1] == '/' {
        let mut r = crate::text::owned(base);
        crate::text::push_str(&mut r, name);
        r
    } else {
        let mut r = crate::text::owned(base);
        crate::text::push_char(&mut r, '/');
        crate::text::push_str(&mut r, name);
        r
    }
}

/// The file name without its extension.
pub fn file_stem(p: &str) -> (r: Option<String>)
    ensures
        r matches Some(n) ==> spec_file_stem(p@) == Some(n@),
        r is None <==> spec_file_stem(p@) is None,
{
    match file_name(p) {
        None => None,
        Some(name) => {
            let v = chars_of(name.as_str());
            let after = after_last_in(&v, v.len(), '.');
            assert(v@.subrange(0, v@.len() as int) =~= v@);
            if after <= 1 {
                Some(name)
            } else {
                Some(slice_string(&v, 0, after - 1))
            }
        },
    }
}

/// Whether every component of `s` is a normal name.
pub fn all_normal(s: &str) -> (r: bool)
    ensures
        r == spec_all_normal(s@),
{
    let v = chars_of(s);
    let n = v.len();
    if n > 0 && v[0] == '/' {
        return false;
    }
    if (n == 1 && v[0] == '.') || (n >= 2 && v[0] == '.' && v[1] == '/') {
        return false;
    }
    let mut i: usize = 0;
    while n > 0 && i < n - 1
        invariant
            i <= n,
            n == v@.len(),
            v@ == s@,
            forall|j: int| 0 <= j < i ==> !dot_dot_at(s@, j),
        decreases n - i,
    {
        if v[i] == '.' && v[i + 1] == '.' && (i == 0 || v[i - 1] == '/') && (i + 2 == n || v[i + 2] == '/') {
            assert(dot_dot_at(s@, i as int));
            return false;
        }
        i += 1;
    }
    assert forall|j: int| #![auto] !dot_dot_at(s@, j) by {
        if 0 <= j && j < i {
        } else {
            assert(!(j + 1 < n && 0 <= j));
        }
    }
    true
}

/// Trimming never lengthens a path.
pub proof fn lemma_trim_tail_len(s: Seq<char>)
    ensures
        trim_tail(s).len() <= s.len(),
    decreases s.len(),
{
    if s.len() > 1 && s.last() == '/' {
        lemma_trim_tail_len(s.drop_last());
    } else if s.len() > 2 && s.last() == '.' && s[s.len() - 2] == '/' {
        lemma_trim_tail_len(s.drop_last());
    }
}

/// A trimmed path is trimmed already: it ends in no separator (but for the
/// root) and in no `/.`.
pub proof fn lemma_trim_tail_done(s: Seq<char>)
    ensures
        trim_tail(trim_tail(s)) == trim_tail(s),
        trim_tail(s).len() > 1 ==> trim_tail(s).last() != '/',
        trim_tail(s).len() > 2 ==> !(trim_tail(s).last() == '.' && trim_tail(s)[trim_tail(s).len() - 2] == '/'),
    decreases s.len(),
{
    if s.len() > 1 && s.last() == '/' {
        lemma_trim_tail_done(s.drop_last());
    } else if s.len() > 2 && s.last() == '.' && s[s.len() - 2] == '/' {
        lemma_trim_tail_done(s.drop_last());
    }
}

/// The last `c` of `a + b` is that of `a` when `b` holds none.
pub proof fn lemma_last_index_append(a: Seq<char>, b: Seq<char>, c: char)
    requires
        !b.contains(c),
    ensures
        last_index(a + b, c) == last_index(a, c),
    decreases b.len(),
{
    if b.len() == 0 {
        assert(a + b =~= a);
    } else {
        assert(b[b.len() - 1] != c);
        assert((a + b).drop_last() =~= a + b.drop_last());
        assert(!b.drop_last().contains(c)) by {
            if b.drop_last().contains(c) {
                let i = choose|i: int| 0 <= i < b.drop_last().len() && b.drop_last()[i] == c;
                assert(b[i] == c);
            }
        }
        lemma_last_index_append(a, b.drop_last(), c);
    }
}

/// Joining a name of one component onto a trimmed directory gives a path
/// whose parent is that directory and whose file name is the name.
pub proof fn lemma_join_one_component(base: Seq<char>, name: Seq<char>)
    requires
        trim_tail(base) == base,
        base.len() > 1 ==> base.last() != '/',
        name.len() > 0,
        !name.contains('/'),
        !is_dot(name),
        !is_dot_dot(name),
    ensures
        spec_parent(spec_join(base, name)) == Some(base),
        spec_file_name(spec_join(base, name)) == Some(name),
{
    let j = spec_join(base, name);
    let n = name.len();
    assert(name[n - 1] != '/');
    assert(name[0] != '/');
    if n >= 2 {
        assert(name[n - 2] != '/');
    }
    if base.len() == 0 {
        assert(j =~= name);
        lemma_last_index_append(Seq::empty(), name, '/');
        assert(Seq::<char>::empty() + name =~= name);
        assert(trim_tail(j) == j);
        assert(last_component(j) =~= name);
        assert(base =~= Seq::<char>::empty());
    } else if base.last() == '/' {
        assert(base.len() == 1);
        assert(j =~= base + name);
        lemma_last_index_append(base, name, '/');
        assert(last_index(base, '/') == 0);
        assert(trim_tail(j) == j);
        assert(last_component(j) =~= name);
        assert(base =~= seq!['/']);
    } else {
        let bs = base.push('/');
        assert(j =~= bs + name);
        lemma_last_index_append(bs, name, '/');
        assert(last_index(bs, '/') == base.len());
        assert(trim_tail(j) == j);
        assert(last_component(j) =~= name);
        assert(j.subrange(0, base.len() as int) =~= base);
    }
}

} // verus!
