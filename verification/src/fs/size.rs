//! Human readable byte counts: the 1024-based unit ladder shared by the file
//! list, the attribute panel and the info panel.
use num_format::{Locale, ToFormattedString};
use vstd::prelude::*;
use crate::text::{decimal, decimal_string, digit, digit_char, grouped_decimal, push_char, push_decimal, push_str};

verus! {

pub const KB: u64 = 1024;
pub const MB: u64 = 1048576;
pub const GB: u64 = 1073741824;
pub const TB: u64 = 1099511627776;

/// `bytes / unit` in tenths, rounded to the nearest tenth, ties to even (the
/// rounding of one-decimal formatting).
pub open spec fn rounded_tenths(bytes: nat, unit: nat) -> nat {
    let q = (10 * bytes) / unit;
    let r = (10 * bytes) % unit;
    if 2 * r > unit || (2 * r == unit && q % 2 == 1) {
        q + 1
    } else {
        q
    }
}

/// A count of tenths written with one decimal place (`12` is `1.2`).
pub open spec fn one_decimal(t: nat) -> Seq<char> {
    decimal(t / 10) + seq!['.', digit_char((t % 10) as int)]
}

/// `bytes` in `unit` with one decimal place, a space and the unit's name.
pub open spec fn in_unit(bytes: nat, unit: nat, name: Seq<char>) -> Seq<char> {
    one_decimal(rounded_tenths(bytes, unit)) + seq![' '] + name
}

/// The unit ladder up to TB: `None` below one KB.
pub open spec fn spec_unit_size(bytes: nat) -> Option<Seq<char>> {
    if bytes >= TB {
        Some(in_unit(bytes, TB as nat, seq!['T', 'B']))
    } else if bytes >= GB {
        Some(in_unit(bytes, GB as nat, seq!['G', 'B']))
    } else if bytes >= MB {
        Some(in_unit(bytes, MB as nat, seq!['M', 'B']))
    } else if bytes >= KB {
        Some(in_unit(bytes, KB as nat, seq!['K', 'B']))
    } else {
        None
    }
}

/// The compact size of the file list: the ladder, or the bare count and ` B`.
pub open spec fn spec_compact_size(bytes: nat) -> Seq<char> {
    match spec_unit_size(bytes) {
        Some(u) => u,
        None => decimal(bytes) + seq![' ', 'B'],
    }
}

pub open spec fn bytes_word() -> Seq<char> {
    seq![' ', 'b', 'y', 't', 'e', 's']
}

/// The verbose size of the attribute panel: `1.0 KB (1,024 bytes)`, or only
/// `512 bytes` below one KB.
pub open spec fn spec_verbose_size(bytes: nat) -> Seq<char> {
    match spec_unit_size(bytes) {
        Some(u) => u + seq![' ', '('] + grouped_decimal(bytes) + bytes_word() + seq![')'],
        None => grouped_decimal(bytes) + bytes_word(),
    }
}

/// The size of the older transfer messages: ladder up to GB, else `512 B`.
pub open spec fn spec_format_bytes(bytes: nat) -> Seq<char> {
    if bytes >= GB {
        in_unit(bytes, GB as nat, seq!['G', 'B'])
    } else if bytes >= MB {
        in_unit(bytes, MB as nat, seq!['M', 'B'])
    } else if bytes >= KB {
        in_unit(bytes, KB as nat, seq!['K', 'B'])
    } else {
        decimal(bytes) + seq![' ', 'B']
    }
}

/// The size line of the info panel: grouped count and `bytes`, followed by
/// the ladder up to GB in parentheses from one KB on.
pub open spec fn spec_format_size(bytes: nat) -> Seq<char> {
    let head = grouped_decimal(bytes) + bytes_word();
    if bytes >= GB {
        head + seq![' ', '('] + in_unit(bytes, GB as nat, seq!['G', 'B']) + seq![')']
    } else if bytes >= MB {
        head + seq![' ', '('] + in_unit(bytes, MB as nat, seq!['M', 'B']) + seq![')']
    } else if bytes >= KB {
        head + seq![' ', '('] + in_unit(bytes, KB as nat, seq!['K', 'B']) + seq![')']
    } else {
        head
    }
}

/// `n` with `,` between groups of three digits (num_format's
/// `ToFormattedString::to_formatted_string` with `Locale::en`, whose separator
/// is `,` and whose grouping is the standard one of three digits).
#[verifier::external_body]
fn en_grouped(n: u64) -> (r: String)
    ensures
        r@ == grouped_decimal(n as nat),
{
    n.to_formatted_string(&Locale::en)
}

/// `n` with `,` between groups of three digits.
pub fn grouped(n: u64) -> (r: String)
    ensures
        r@ == grouped_decimal(n as nat),
{
    en_grouped(n)
}

proof fn lemma_tenths_bound(bytes: nat, unit: nat)
    requires
        unit >= 1024,
        bytes < 0x1_0000_0000_0000_0000,
    ensures
        (10 * bytes) / unit < 0x1_0000_0000_0000_0000 - 1,
{
    assert((10 * bytes) / unit <= (10 * bytes) / 1024) by (nonlinear_arith)
        requires unit >= 1024;
    assert((10 * bytes) / 1024 < 0x1_0000_0000_0000_0000 - 1);
}

/// `bytes / unit` in tenths, rounded half to even.
fn tenths(bytes: u64, unit: u64) -> (t: u64)
    requires
        unit >= 1024,
    ensures
        t == rounded_tenths(bytes as nat, unit as nat),
{
    let ten: u128 = (bytes as u128) * 10;
    let q: u128 = ten / (unit as u128);
    let r: u128 = ten % (unit as u128);
    proof {
        lemma_tenths_bound(bytes as nat, unit as nat);
    }
    let q64: u64 = q as u64;
    if 2 * r > unit as u128 || (2 * r == unit as u128 && q64 % 2 == 1) {
        q64 + 1
    } else {
        q64
    }
}

/// Appends `bytes` in `unit` with one decimal place, a space and `name`.
fn push_in_unit(out: &mut String, bytes: u64, unit: u64, name: &str)
    requires
        unit >= 1024,
    ensures
        final(out)@ == old(out)@ + in_unit(bytes as nat, unit as nat, name@),
{
    let t = tenths(bytes, unit);
    push_decimal(out, t / 10);
    push_char(out, '.');
    push_char(out, digit(t % 10));
    push_char(out, ' ');
    push_str(out, name);
    assert(final(out)@ =~= old(out)@ + in_unit(bytes as nat, unit as nat, name@));
}

fn unit_string(bytes: u64, unit: u64, name: &str) -> (r: String)
    requires
        unit >= 1024,
    ensures
        r@ == in_unit(bytes as nat, unit as nat, name@),
{
    let mut s = String::new();
    push_in_unit(&mut s, bytes, unit, name);
    assert(s@ =~= in_unit(bytes as nat, unit as nat, name@));
    s
}

/// A byte count of one KB or more with one decimal place and its unit
/// (`1.2 GB`); `None` below one KB. The ladder tops out at TB.
pub fn unit_size(bytes: u64) -> (r: Option<String>)
    ensures
        r matches Some(s) ==> spec_unit_size(bytes as nat) == Some(s@),
        r is None <==> spec_unit_size(bytes as nat) is None,
{
    proof {
        reveal_strlit("TB");
        reveal_strlit("GB");
        reveal_strlit("MB");
        reveal_strlit("KB");
    }
    if bytes >= TB {
        Some(unit_string(bytes, TB, "TB"))
    } else if bytes >= GB {
        Some(unit_string(bytes, GB, "GB"))
    } else if bytes >= MB {
        Some(unit_string(bytes, MB, "MB"))
    } else if bytes >= KB {
        Some(unit_string(bytes, KB, "KB"))
    } else {
        None
    }
}

/// The compact size of the file list (`234.5 MB`, `512 B`).
pub fn compact_size_str(bytes: u64) -> (r: String)
    ensures
        r@ == spec_compact_size(bytes as nat),
{
    match unit_size(bytes) {
        Some(s) => s,
        None => {
            let mut s = decimal_string(bytes);
            push_char(&mut s, ' ');
            push_char(&mut s, 'B');
            assert(s@ =~= spec_compact_size(bytes as nat));
            s
        },
    }
}

/// The verbose size of the attribute panel (`123.4 MB (123,400,000 bytes)`,
/// or `512 bytes` below one KB).
pub fn verbose_size_str(bytes: u64) -> (r: String)
    ensures
        r@ == spec_verbose_size(bytes as nat),
{
    proof {
        reveal_strlit(" bytes");
    }
    let separated = grouped(bytes);
    match unit_size(bytes) {
        Some(unit) => {
            let mut s = unit;
            push_char(&mut s, ' ');
            push_char(&mut s, '(');
            push_str(&mut s, separated.as_str());
            push_str(&mut s, " bytes");
            push_char(&mut s, ')');
            assert(s@ =~= spec_verbose_size(bytes as nat));
            s
        },
        None => {
            let mut s = separated;
            push_str(&mut s, " bytes");
            assert(s@ =~= spec_verbose_size(bytes as nat));
            s
        },
    }
}

/// A byte count for transfer messages (`1.5 MB`, `512 B`); the ladder tops
/// out at GB.
pub fn format_bytes(bytes: u64) -> (r: String)
    ensures
        r@ == spec_format_bytes(bytes as nat),
{
    proof {
        reveal_strlit("GB");
        reveal_strlit("MB");
        reveal_strlit("KB");
    }
    if bytes >= GB {
        unit_string(bytes, GB, "GB")
    } else if bytes >= MB {
        unit_string(bytes, MB, "MB")
    } else if bytes >= KB {
        unit_string(bytes, KB, "KB")
    } else {
        let mut s = decimal_string(bytes);
        push_char(&mut s, ' ');
        push_char(&mut s, 'B');
        assert(s@ =~= spec_format_bytes(bytes as nat));
        s
    }
}

/// The size line of the info panel (`2,048 bytes (2.0 KB)`).
pub fn format_size(bytes: u64) -> (r: String)
    ensures
        r@ == spec_format_size(bytes as nat),
{
    proof {
        reveal_strlit(" bytes");
        reveal_strlit("GB");
        reveal_strlit("MB");
        reveal_strlit("KB");
    }
    let mut s = grouped(bytes);
    push_str(&mut s, " bytes");
    let ghost head = s@;
    if bytes >= KB {
        push_char(&mut s, ' ');
        push_char(&mut s, '(');
        if bytes >= GB {
            push_in_unit(&mut s, bytes, GB, "GB");
        } else if bytes >= MB {
            push_in_unit(&mut s, bytes, MB, "MB");
        } else {
            push_in_unit(&mut s, bytes, KB, "KB");
        }
        push_char(&mut s, ')');
    }
    assert(s@ =~= spec_format_size(bytes as nat));
    s
}

} // verus!
