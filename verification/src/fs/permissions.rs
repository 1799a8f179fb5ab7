//! Unix permission bits and their `rwxr-xr-x` notation.
use vstd::prelude::*;

verus! {

/// The bits kept by a permission edit: rwx for user, group and other plus
/// setuid, setgid and sticky.
pub const PERM_MODE_MASK: u32 = 0o7777;

/// The mask of the `i`-th rwx bit, counted from user-read (`0o400`) down to
/// other-execute (`0o001`).
pub open spec fn rwx_mask(i: int) -> u32 {
    if i == 0 { 0o400u32 }
    else if i == 1 { 0o200u32 }
    else if i == 2 { 0o100u32 }
    else if i == 3 { 0o040u32 }
    else if i == 4 { 0o020u32 }
    else if i == 5 { 0o010u32 }
    else if i == 6 { 0o004u32 }
    else if i == 7 { 0o002u32 }
    else { 0o001u32 }
}

/// The letter of the `i`-th rwx bit: `r`, `w`, `x` in each group of three.
pub open spec fn rwx_char(i: int) -> char {
    if i % 3 == 0 { 'r' } else if i % 3 == 1 { 'w' } else { 'x' }
}

/// `ls`-style notation of the nine rwx bits of `mode`: the letter where the
/// bit is set, `-` where it is not.
pub open spec fn spec_rwx_string(mode: u32) -> Seq<char> {
    Seq::new(9, |i: int| if mode & rwx_mask(i) != 0 { rwx_char(i) } else { '-' })
}

/// The mask of the `i`-th rwx bit.
pub fn rwx_bit(i: usize) -> (m: u32)
    requires
        i < 9,
    ensures
        m == rwx_mask(i as int),
{
    if i == 0 { 0o400 }
    else if i == 1 { 0o200 }
    else if i == 2 { 0o100 }
    else if i == 3 { 0o040 }
    else if i == 4 { 0o020 }
    else if i == 5 { 0o010 }
    else if i == 6 { 0o004 }
    else if i == 7 { 0o002 }
    else { 0o001 }
}

/// The letter of the `i`-th rwx bit.
pub fn rwx_letter(i: usize) -> (c: char)
    requires
        i < 9,
    ensures
        c == rwx_char(i as int),
{
    if i % 3 == 0 { 'r' } else if i % 3 == 1 { 'w' } else { 'x' }
}

/// The permission bits of a file.
#[derive(Debug, Clone, Copy, PartialEq, Eq)]
pub struct VPermissions {
    pub mode: u32,
}

impl VPermissions {
    pub fn from_mode(mode: u32) -> (r: VPermissions)
        ensures
            r.mode == mode,
    {
        VPermissions { mode }
    }

    /// The number of rwx bits shown and edited.
    pub fn rwx_bit_count() -> (n: usize)
        ensures
            n == 9,
    {
        9
    }

    /// `rwxr-xr-x` notation of the permission bits.
    pub fn to_rwx_string(&self) -> (r: String)
        ensures
            r@ == spec_rwx_string(self.mode),
    {
        let mut out: Vec<char> = Vec::new();
        let mut i: usize = 0;
        while i < 9
            invariant
                i <= 9,
                out@.len() == i,
                forall|j: int| 0 <= j < i ==> out@[j] == spec_rwx_string(self.mode)[j],
            decreases 9 - i,
        {
            let c = if self.mode & rwx_bit(i) != 0 { rwx_letter(i) } else { '-' };
            out.push(c);
            i += 1;
        }
        assert(out@ =~= spec_rwx_string(self.mode));
        crate::text::string_of(out.as_slice())
    }
}

/// The four-digit octal notation of the permission bits of `mode` (`0644`).
pub open spec fn spec_mode_octal(mode: u32) -> Seq<char> {
    let m = (mode & PERM_MODE_MASK) as nat;
    seq![
        crate::text::digit_char((m / 512) as int),
        crate::text::digit_char(((m / 64) % 8) as int),
        crate::text::digit_char(((m / 8) % 8) as int),
        crate::text::digit_char((m % 8) as int),
    ]
}

/// `format!("{:04o}", mode & 0o7777)`.
pub fn mode_octal(mode: u32) -> (r: String)
    ensures
        r@ == spec_mode_octal(mode),
{
    let m: u32 = mode & PERM_MODE_MASK;
    assert(m <= 0o7777) by (bit_vector)
        requires m == mode & 0o7777u32;
    let mut s = String::new();
    crate::text::push_char(&mut s, crate::text::digit((m / 512) as u64));
    crate::text::push_char(&mut s, crate::text::digit(((m / 64) % 8) as u64));
    crate::text::push_char(&mut s, crate::text::digit(((m / 8) % 8) as u64));
    crate::text::push_char(&mut s, crate::text::digit((m % 8) as u64));
    assert(s@ =~= spec_mode_octal(mode));
    s
}

} // verus!
