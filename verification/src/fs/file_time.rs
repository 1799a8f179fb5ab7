//! File timestamps.
use chrono::{Datelike, Timelike};
use vstd::prelude::*;
use crate::text::{decimal, pad2, push_char, push_decimal, push_pad2};

verus! {

/// A point in time as seconds and nanoseconds since the Unix epoch.
#[derive(Debug, Clone, Copy, PartialEq, Eq, PartialOrd, Ord)]
pub struct VFileTime {
    pub secs: i64,
    pub nanos: u32,
}

impl VFileTime {
    pub fn new(secs: i64, nanos: u32) -> (r: VFileTime)
        ensures
            r.secs == secs,
            r.nanos == nanos,
    {
        VFileTime { secs, nanos }
    }

    /// Whether this time is at or before `other`: by seconds, then by
    /// nanoseconds.
    pub fn is_at_or_before(&self, other: &VFileTime) -> (r: bool)
        ensures
            r == at_or_before(*self, *other),
    {
        self.secs < other.secs || (self.secs == other.secs && self.nanos <= other.nanos)
    }

    /// The time in the machine's local time zone as `YYYY-MM-DD hh:mm:ss`
    /// (see `date_time_text`), or the placeholder of a missing time where the
    /// instant is out of range or its nanosecond part invalid.
    pub fn to_local_string(&self) -> (r: String)
        ensures
            r@ == missing_time_seq() || is_date_time_text(r@),
            invalid_nanos(self.secs, self.nanos) ==> r@ == missing_time_seq(),
            !invalid_nanos(self.secs, self.nanos) && in_calendar_range(self.secs) ==> is_date_time_text(r@),
    {
        match local_calendar(self.secs, self.nanos) {
            Some(t) => {
                let r = format_date_time(t);
                assert(calendar_fields_valid(t));
                r
            },
            None => missing_time_text(),
        }
    }
}

/// The instant of a time in nanoseconds since the epoch.
pub open spec fn time_nanos(t: VFileTime) -> int {
    t.secs * 1_000_000_000 + t.nanos
}

/// The time `secs` seconds and `nanos` nanoseconds before the epoch (when
/// `before_epoch`) or after it, with whole seconds rounded down so that the
/// nanoseconds always count forward; `None` where the seconds do not fit.
pub fn from_epoch_offset(before_epoch: bool, secs: u64, nanos: u32) -> (r: Option<VFileTime>)
    requires
        nanos < 1_000_000_000,
    ensures
        r matches Some(t) ==> t.nanos < 1_000_000_000 && time_nanos(t) == (if before_epoch {
            -(secs * 1_000_000_000 + nanos)
        } else {
            secs * 1_000_000_000 + nanos
        }),
        !before_epoch ==> (r is Some <==> secs <= i64::MAX),
        before_epoch ==> (r is Some <==> (if nanos == 0 { secs <= i64::MAX } else { secs < i64::MAX })),
{
    if !before_epoch {
        if secs > i64::MAX as u64 {
            return None;
        }
        return Some(VFileTime::new(secs as i64, nanos));
    }
    if nanos == 0 {
        if secs > i64::MAX as u64 {
            return None;
        }
        let s: i64 = secs as i64;
        return Some(VFileTime::new(-s, 0));
    }
    if secs >= i64::MAX as u64 {
        return None;
    }
    let s: i64 = secs as i64;
    Some(VFileTime::new(-s - 1, 1_000_000_000 - nanos))
}

/// `a` is at or before `b`: earlier seconds, or the same second and no
/// later nanosecond.
pub open spec fn at_or_before(a: VFileTime, b: VFileTime) -> bool {
    a.secs < b.secs || (a.secs == b.secs && a.nanos <= b.nanos)
}

/// Times keep the order of the instants they are built from (seconds, then
/// nanoseconds since the epoch): one is at or before another exactly when
/// its instant is, two are equal exactly when their instants are, and the
/// order is a total order.
pub proof fn lemma_time_keeps_order(s1: i64, n1: u32, s2: i64, n2: u32, s3: i64, n3: u32)
    ensures
        at_or_before(VFileTime { secs: s1, nanos: n1 }, VFileTime { secs: s2, nanos: n2 }) <==> (s1 < s2 || (s1 == s2 && n1 <= n2)),
        (VFileTime { secs: s1, nanos: n1 } == VFileTime { secs: s2, nanos: n2 }) <==> (s1 == s2 && n1 == n2),
        at_or_before(VFileTime { secs: s1, nanos: n1 }, VFileTime { secs: s2, nanos: n2 })
            || at_or_before(VFileTime { secs: s2, nanos: n2 }, VFileTime { secs: s1, nanos: n1 }),
        at_or_before(VFileTime { secs: s1, nanos: n1 }, VFileTime { secs: s2, nanos: n2 })
            && at_or_before(VFileTime { secs: s2, nanos: n2 }, VFileTime { secs: s1, nanos: n1 }) ==> s1 == s2 && n1 == n2,
        at_or_before(VFileTime { secs: s1, nanos: n1 }, VFileTime { secs: s2, nanos: n2 })
            && at_or_before(VFileTime { secs: s2, nanos: n2 }, VFileTime { secs: s3, nanos: n3 })
            ==> at_or_before(VFileTime { secs: s1, nanos: n1 }, VFileTime { secs: s3, nanos: n3 }),
{
}

/// The placeholder text of a missing time.
pub open spec fn missing_time_seq() -> Seq<char> {
    seq!['_', '_', '_', '_', '-', '_', '_', '-', '_', '_', ' ', '-', '-', ':', '-', '-', ':', '-', '-']
}

/// A year as Rust writes it: its digits, after a `-` when negative.
pub open spec fn signed_decimal(y: int) -> Seq<char> {
    if y < 0 {
        seq!['-'] + decimal((-y) as nat)
    } else {
        decimal(y as nat)
    }
}

/// Year, month, day, hour, minute and second: a month 1 to 12, a day 1 to
/// 31, an hour below 24, a minute and a second below 60.
pub open spec fn calendar_fields_valid(t: (i32, u32, u32, u32, u32, u32)) -> bool {
    1 <= t.1 <= 12 && 1 <= t.2 <= 31 && t.3 < 24 && t.4 < 60 && t.5 < 60
}

/// `year-MM-DD hh:mm:ss`, every field but the year two zero-padded digits.
pub open spec fn date_time_text(t: (i32, u32, u32, u32, u32, u32)) -> Seq<char> {
    signed_decimal(t.0 as int) + seq!['-'] + pad2(t.1 as nat) + seq!['-'] + pad2(t.2 as nat) + seq![' '] + pad2(t.3 as nat)
        + seq![':'] + pad2(t.4 as nat) + seq![':'] + pad2(t.5 as nat)
}

/// `s` is the text of some valid calendar time.
pub open spec fn is_date_time_text(s: Seq<char>) -> bool {
    exists|t: (i32, u32, u32, u32, u32, u32)| calendar_fields_valid(t) && s == #[trigger] date_time_text(t)
}

/// Seconds since the epoch that every time zone can show as a calendar
/// time (about 250,000 years either way; chrono reaches further).
pub open spec fn in_calendar_range(secs: i64) -> bool {
    -8_000_000_000_000 <= secs <= 8_000_000_000_000
}

/// The text of a calendar time (see `date_time_text`).
pub fn format_date_time(t: (i32, u32, u32, u32, u32, u32)) -> (r: String)
    requires
        calendar_fields_valid(t),
    ensures
        r@ == date_time_text(t),
{
    let (year, month, day, hour, minute, second) = t;
    let mut s = String::new();
    if year < 0 {
        push_char(&mut s, '-');
        let y: i64 = year as i64;
        push_decimal(&mut s, (-y) as u64);
    } else {
        push_decimal(&mut s, year as u64);
    }
    assert(s@ == signed_decimal(year as int));
    push_char(&mut s, '-');
    push_pad2(&mut s, month as u64);
    push_char(&mut s, '-');
    push_pad2(&mut s, day as u64);
    push_char(&mut s, ' ');
    push_pad2(&mut s, hour as u64);
    push_char(&mut s, ':');
    push_pad2(&mut s, minute as u64);
    push_char(&mut s, ':');
    push_pad2(&mut s, second as u64);
    assert(s@ =~= date_time_text(t));
    s
}

/// The placeholder written where a time is unavailable.
pub fn missing_time_text() -> (r: String)
    ensures
        r@ == missing_time_seq(),
{
    proof {
        reveal_strlit("____-__-__ --:--:--");
    }
    crate::text::owned("____-__-__ --:--:--")
}

/// A nanosecond part that no instant has: two seconds or more, or one
/// second or more (a leap second) outside the last second of a minute.
pub open spec fn invalid_nanos(secs: i64, nanos: u32) -> bool {
    nanos >= 2_000_000_000 || (nanos >= 1_000_000_000 && secs % 60 != 59)
}

/// chrono's `DateTime::from_timestamp` of the instant, converted to
/// `DateTime<Local>`, as its year, month, day, hour, minute and second;
/// `None` where chrono cannot represent the instant. chrono's source shows
/// `None` for an invalid nanosecond part and a representable instant
/// otherwise within the calendar range, and its `Datelike`/`Timelike`
/// fields within their ranges. Which fields come out depends on the
/// machine's time zone, so nothing more is stated of them.
#[verifier::external_body]
fn local_calendar(secs: i64, nanos: u32) -> (r: Option<(i32, u32, u32, u32, u32, u32)>)
    ensures
        invalid_nanos(secs, nanos) ==> r is None,
        !invalid_nanos(secs, nanos) && in_calendar_range(secs) ==> r is Some,
        r matches Some(t) ==> calendar_fields_valid(t),
{
    match chrono::DateTime::from_timestamp(secs, nanos) {
        Some(utc) => {
            let t = utc.with_timezone(&chrono::Local);
            Some((t.year(), t.month(), t.day(), t.hour(), t.minute(), t.second()))
        },
        None => None,
    }
}

} // verus!
