//! Times as the clock and stored texts give them.
use vstd::prelude::*;
use vstd::string::*;

verus! {

/// Seconds and nanoseconds since the epoch at the time that a text in the form
/// of RFC 3339 names.
pub uninterp spec fn rfc3339_instant(text: Seq<char>) -> Option<(int, nat)>;

/// An optional time.
pub open spec fn instant_view(o: Option<(i64, u32)>) -> Option<(int, nat)> {
    match o {
        Some((s, n)) => Some((s as int, n as nat)),
        None => None,
    }
}

/// Calls `chrono::DateTime::parse_from_rfc3339`. Claimed: the time depends on
/// the text alone.
#[verifier::external_body]
pub(crate) fn read_rfc3339(text: &str) -> (r: Option<(i64, u32)>)
    ensures
        instant_view(r) == rfc3339_instant(text@),
{
    let t = chrono::DateTime::parse_from_rfc3339(text).ok()?;
    Some((t.timestamp(), t.timestamp_subsec_nanos()))
}

/// The first second after the year 9999.
pub const FOUR_DIGIT_YEARS_END: i64 = 253_402_300_800;

/// A time from the epoch on whose year has four digits, outside leap seconds.
pub open spec fn is_writable(t: (int, nat)) -> bool {
    0 <= t.0 < FOUR_DIGIT_YEARS_END && t.1 < 1_000_000_000
}

/// The text in the form of RFC 3339 that names a time.
pub uninterp spec fn rfc3339_text(secs: int, nanos: nat) -> Seq<char>;

/// Calls `chrono::DateTime::to_rfc3339` on the time that
/// `chrono::DateTime::from_timestamp` gives. Claimed: the text depends on the
/// time alone, and reading it gives the time back.
#[verifier::external_body]
pub(crate) fn write_rfc3339(t: (i64, u32)) -> (r: String)
    requires
        is_writable((t.0 as int, t.1 as nat)),
    ensures
        r@ == rfc3339_text(t.0 as int, t.1 as nat),
        rfc3339_instant(r@) == Some((t.0 as int, t.1 as nat)),
{
    chrono::DateTime::from_timestamp(t.0, t.1).expect("time in range").to_rfc3339()
}

/// Whole seconds from one time to another, each in seconds and nanoseconds
/// since the epoch, as `chrono` counts them. Nothing where a time is out of
/// range.
pub uninterp spec fn whole_seconds(from: (int, nat), to: (int, nat)) -> Option<int>;

/// A time within some quarter of a million years of the epoch, outside leap
/// seconds.
pub open spec fn ordinary(t: (int, nat)) -> bool {
    -8_000_000_000_000 <= t.0 <= 8_000_000_000_000 && t.1 < 1_000_000_000
}

/// Whole seconds from one ordinary time to another; part of a second does not
/// count.
pub open spec fn seconds_from_to(from: (int, nat), to: (int, nat)) -> int {
    let d = to.0 - from.0;
    if d > 0 && to.1 < from.1 {
        d - 1
    } else if d < 0 && to.1 > from.1 {
        d + 1
    } else {
        d
    }
}

/// An optional number.
pub open spec fn opt_int(o: Option<i64>) -> Option<int> {
    match o {
        Some(n) => Some(n as int),
        None => None,
    }
}

/// Calls `chrono::DateTime::signed_duration_since` and takes the whole seconds
/// of what it gives. Claimed: they depend on the two times alone; and for
/// ordinary times they are the difference of the two, without what is left of a
/// second.
#[verifier::external_body]
pub(crate) fn seconds_between(from: (i64, u32), to: (i64, u32)) -> (r: Option<i64>)
    ensures
        opt_int(r) == whole_seconds(
            (from.0 as int, from.1 as nat),
            (to.0 as int, to.1 as nat),
        ),
        ordinary((from.0 as int, from.1 as nat)) && ordinary((to.0 as int, to.1 as nat)) ==> opt_int(
            r,
        ) == Some(
            seconds_from_to((from.0 as int, from.1 as nat), (to.0 as int, to.1 as nat)),
        ),
{
    let a = chrono::DateTime::from_timestamp(from.0, from.1)?;
    let b = chrono::DateTime::from_timestamp(to.0, to.1)?;
    Some(b.signed_duration_since(a).num_seconds())
}

/// The whole seconds from one time to another: as many the other way, and off the
/// exact span by less than one, toward none.
pub proof fn law_whole_seconds_between(a: (int, nat), b: (int, nat))
    requires
        a.1 < 1_000_000_000,
        b.1 < 1_000_000_000,
    ensures
        ({
            let s = seconds_from_to(a, b);
            let span = (b.0 - a.0) * 1_000_000_000 + b.1 - a.1;
            &&& seconds_from_to(b, a) == -s
            &&& span >= 0 ==> s * 1_000_000_000 <= span < (s + 1) * 1_000_000_000
            &&& span <= 0 ==> (s - 1) * 1_000_000_000 < span <= s * 1_000_000_000
        }),
{
}

} // verus!
