//! Wall-clock instants as Unix seconds, and their RFC 3339 text.
use vstd::prelude::*;

use crate::text::{digit_char, nat_text, decimal_nat};

verus! {

/// First second that chrono's `DateTime<Utc>` can hold: -262143-01-01T00:00:00Z.
pub const UTC_MIN_SECS: i64 = -8334601228800;

/// Last second that chrono's `DateTime<Utc>` can hold: +262142-12-31T23:59:59Z.
pub const UTC_MAX_SECS: i64 = 8210266876799;

/// Whether `ts` seconds after the Unix epoch is an instant chrono can hold.
pub open spec fn utc_in_range(ts: int) -> bool {
    UTC_MIN_SECS <= ts <= UTC_MAX_SECS
}

/// Whether `ts` is a wall-clock reading that chrono can hold.
pub fn is_utc_in_range(ts: i64) -> (r: bool)
    ensures
        r == utc_in_range(ts as int),
{
    UTC_MIN_SECS <= ts && ts <= UTC_MAX_SECS
}

/// RFC 3339 text of the UTC instant `ts` seconds after the Unix epoch.
pub uninterp spec fn rfc3339_of(ts: int) -> Seq<char>;

/// The Unix seconds of an RFC 3339 date-time text, `None` when it is not one.
pub uninterp spec fn rfc3339_secs(s: Seq<char>) -> Option<int>;

/// Relies on `chrono::DateTime::<Utc>::from_timestamp`, which succeeds on the
/// seconds chrono can hold, and `DateTime::to_rfc3339` for the text.
#[verifier::external_body]
fn utc_rfc3339(ts: i64) -> (r: Option<String>)
    ensures
        utc_in_range(ts as int) ==> r is Some,
        r matches Some(s) ==> s@ == rfc3339_of(ts as int) && s@.len() > 0,
{
    match chrono::DateTime::<chrono::Utc>::from_timestamp(ts, 0) {
        Some(d) => Some(d.to_rfc3339()),
        None => None,
    }
}

/// RFC 3339 text of the instant `ts`, which chrono can hold.
pub fn rfc3339_text(ts: i64) -> (r: String)
    requires
        utc_in_range(ts as int),
    ensures
        r@ == rfc3339_of(ts as int),
        r@.len() > 0,
{
    match utc_rfc3339(ts) {
        Some(s) => s,
        None => String::new(),
    }
}

/// Relies on `chrono::DateTime::parse_from_rfc3339` and `DateTime::timestamp`:
/// the instant the text names, whatever offset it is written in.
#[verifier::external_body]
pub(crate) fn parse_rfc3339(s: &str) -> (r: Option<i64>)
    ensures
        match r {
            Some(t) => rfc3339_secs(s@) == Some(t as int),
            None => rfc3339_secs(s@) is None,
        },
{
    match chrono::DateTime::parse_from_rfc3339(s) {
        Ok(d) => Some(d.timestamp()),
        Err(_) => None,
    }
}

/// Two decimal digits of `n`, which is below one hundred.
pub open spec fn two_digits(n: int) -> Seq<char> {
    seq![digit_char(n / 10), digit_char(n % 10)]
}

/// `HH:MM:SS` of the UTC time of day of the instant `ts`.
pub open spec fn clock_of(ts: int) -> Seq<char> {
    let day = ts % 86400;
    two_digits(day / 3600) + seq![':'] + two_digits((day % 3600) / 60) + seq![':'] + two_digits(
        day % 60,
    )
}

fn two_digit_text(n: i64) -> (r: String)
    requires
        0 <= n < 100,
    ensures
        r@ == two_digits(n as int),
{
    let mut s = nat_text((n / 10) as u128);
    let low = nat_text((n % 10) as u128);
    proof {
        assert(decimal_nat((n / 10) as nat) == seq![digit_char((n / 10) as int)]);
        assert(decimal_nat((n % 10) as nat) == seq![digit_char((n % 10) as int)]);
    }
    s.append(low.as_str());
    proof {
        assert(s@ =~= two_digits(n as int));
    }
    s
}

/// The UTC time of day of `ts` as `HH:MM:SS`.
pub fn clock_text(ts: i64) -> (r: String)
    ensures
        r@ == clock_of(ts as int),
{
    let m = ts % 86400;
    let day = if m < 0 {
        m + 86400
    } else {
        m
    };
    assert(day == ts as int % 86400);
    let mut s = two_digit_text(day / 3600);
    proof {
        reveal_strlit(":");
    }
    s.append(":");
    let mm = two_digit_text((day % 3600) / 60);
    s.append(mm.as_str());
    s.append(":");
    let ss = two_digit_text(day % 60);
    s.append(ss.as_str());
    proof {
        assert(s@ =~= clock_of(ts as int));
    }
    s
}

} // verus!
