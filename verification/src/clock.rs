use vstd::prelude::*;

use crate::text::option_text;

verus! {

#[verifier::external_type_specification]
#[verifier::external_body]
pub struct ExSystemTime(std::time::SystemTime);

/// A decimal digit.
pub open spec fn is_digit(c: char) -> bool {
    '0' <= c && c <= '9'
}

/// Every character of `s` is a decimal digit.
pub open spec fn all_digits(s: Seq<char>) -> bool {
    forall|i: int| 0 <= i < s.len() ==> #[trigger] is_digit(s[i])
}

/// The year of an RFC 3339 time: four digits for the years 0 to 9999, otherwise a sign and at
/// least four digits.
pub open spec fn year_form(y: Seq<char>) -> bool {
    ||| y.len() == 4 && all_digits(y)
    ||| y.len() >= 5 && (y[0] == '+' || y[0] == '-') && all_digits(y.drop_first())
}

/// An RFC 3339 UTC time with milliseconds: a year, then `-MM-DDTHH:MM:SS.mmmZ`.
pub open spec fn rfc3339_millis_form(t: Seq<char>) -> bool {
    t.len() >= 24 && year_form(t.subrange(0, t.len() - 20)) && {
        let r = t.subrange(t.len() - 20, t.len() as int);
        &&& r[0] == '-' && is_digit(r[1]) && is_digit(r[2])
        &&& r[3] == '-' && is_digit(r[4]) && is_digit(r[5])
        &&& r[6] == 'T' && is_digit(r[7]) && is_digit(r[8])
        &&& r[9] == ':' && is_digit(r[10]) && is_digit(r[11])
        &&& r[12] == ':' && is_digit(r[13]) && is_digit(r[14])
        &&& r[15] == '.' && is_digit(r[16]) && is_digit(r[17]) && is_digit(r[18])
        &&& r[19] == 'Z'
    }
}

/// The RFC 3339 text, with milliseconds and `Z`, that chrono writes of the UTC time `secs`
/// seconds and `nanos` nanoseconds from the Unix epoch, or `None` where that time lies outside
/// chrono's range.
pub uninterp spec fn rfc3339_millis_utc(secs: i64, nanos: u32) -> Option<Seq<char>>;

/// A text that chrono's RFC 3339 writer gives of some UTC time.
pub open spec fn clock_text(t: Seq<char>) -> bool {
    exists|secs: i64, nanos: u32| #[trigger] rfc3339_millis_utc(secs, nanos) == Some(t)
}

/// `std::time::SystemTime::now()`: a reading of the system clock; nothing is stated of it.
#[verifier::external_body]
fn system_time_now() -> std::time::SystemTime {
    std::time::SystemTime::now()
}

/// `SystemTime::duration_since(UNIX_EPOCH)`: how far `t` lies from the Unix epoch, as whole
/// seconds and the nanoseconds beyond them; `Ok` at or after the epoch, `Err` before it. The
/// distance itself is left unsaid; the nanoseconds of a `Duration` are always below 10^9.
#[verifier::external_body]
fn since_unix_epoch(t: &std::time::SystemTime) -> (r: Result<(u64, u32), (u64, u32)>)
    ensures
        match r {
            Ok((_, n)) => n < 1_000_000_000,
            Err((_, n)) => n < 1_000_000_000,
        },
{
    match t.duration_since(std::time::UNIX_EPOCH) {
        Ok(d) => Ok((d.as_secs(), d.subsec_nanos())),
        Err(e) => Err((e.duration().as_secs(), e.duration().subsec_nanos())),
    }
}

/// `chrono::DateTime::<Utc>::from_timestamp(secs, nanos)`, written by
/// `to_rfc3339_opts(SecondsFormat::Millis, true)`; `None` where chrono refuses the time. The
/// result is named; of its text the contract states the form that chrono's RFC 3339 writer
/// gives every UTC time (a year, two-digit month, day, hours, minutes and seconds, three
/// digits of milliseconds, `Z`).
#[verifier::external_body]
fn format_unix_time(secs: i64, nanos: u32) -> (r: Option<String>)
    ensures
        option_text(r) == rfc3339_millis_utc(secs, nanos),
        r matches Some(s) ==> rfc3339_millis_form(s@),
{
    match chrono::DateTime::<chrono::Utc>::from_timestamp(secs, nanos) {
        Some(t) => Some(t.to_rfc3339_opts(chrono::SecondsFormat::Millis, true)),
        None => None,
    }
}

/// A distance from the Unix epoch (seconds and nanoseconds after it, or before it) as whole
/// seconds, rounded down, and the nanoseconds beyond them; `None` where the seconds do not fit
/// an `i64`.
pub open spec fn unix_time(d: Result<(u64, u32), (u64, u32)>) -> Option<(i64, u32)> {
    match d {
        Ok((s, n)) => if s <= i64::MAX {
            Some((s as i64, n))
        } else {
            None
        },
        Err((s, n)) => if n == 0 {
            if s <= i64::MAX {
                Some(((-s) as i64, 0u32))
            } else {
                None
            }
        } else {
            if s < i64::MAX {
                Some(((-s - 1) as i64, (1_000_000_000 - n) as u32))
            } else {
                None
            }
        },
    }
}

pub fn unix_timestamp(d: Result<(u64, u32), (u64, u32)>) -> (r: Option<(i64, u32)>)
    requires
        match d {
            Ok((_, n)) => n < 1_000_000_000,
            Err((_, n)) => n < 1_000_000_000,
        },
    ensures
        r == unix_time(d),
{
    match d {
        Ok((s, n)) => {
            if s <= i64::MAX as u64 {
                Some((s as i64, n))
            } else {
                None
            }
        },
        Err((s, n)) => {
            if n == 0 {
                if s <= i64::MAX as u64 {
                    Some((-(s as i64), 0))
                } else {
                    None
                }
            } else {
                if s < i64::MAX as u64 {
                    Some((-(s as i64) - 1, 1_000_000_000 - n))
                } else {
                    None
                }
            }
        },
    }
}

/// The text chrono writes of the time that a clock reading `d` (a distance from the Unix epoch)
/// stands for; `None` where that time lies outside what chrono can represent.
pub open spec fn reading_text(d: Result<(u64, u32), (u64, u32)>) -> Option<Seq<char>> {
    match unix_time(d) {
        Some((secs, nanos)) => rfc3339_millis_utc(secs, nanos),
        None => None,
    }
}

/// The RFC 3339 text, with milliseconds and `Z`, of the time the clock reading `d` stands for.
pub fn timestamp_of_reading(d: Result<(u64, u32), (u64, u32)>) -> (r: Option<String>)
    requires
        match d {
            Ok((_, n)) => n < 1_000_000_000,
            Err((_, n)) => n < 1_000_000_000,
        },
    ensures
        option_text(r) == reading_text(d),
        r matches Some(s) ==> rfc3339_millis_form(s@),
{
    match unix_timestamp(d) {
        Some((secs, nanos)) => format_unix_time(secs, nanos),
        None => None,
    }
}

/// The current UTC time in RFC 3339 form with milliseconds; `None` where the clock reads a time
/// that chrono cannot represent.
pub fn utc_timestamp_now() -> (r: Option<String>)
    ensures
        r matches Some(s) ==> rfc3339_millis_form(s@),
        r matches Some(s) ==> clock_text(s@),
{
    let now = system_time_now();
    let since = since_unix_epoch(&now);
    timestamp_of_reading(since)
}

/// A clock reading at or after the epoch stands for that many seconds and nanoseconds after it;
/// one before the epoch for the whole second at or before it, with the nanoseconds counted
/// forward from there; so a reading of `s` seconds and `n` nanoseconds before the epoch and the
/// reading of the same instant after it differ by exactly the distance between them.
pub proof fn lemma_unix_time(d: Result<(u64, u32), (u64, u32)>)
    requires
        match d {
            Ok((_, n)) => n < 1_000_000_000,
            Err((_, n)) => n < 1_000_000_000,
        },
    ensures
        unix_time(d) matches Some((secs, nanos)) ==> {
            &&& nanos < 1_000_000_000
            &&& match d {
                Ok((s, n)) => secs * 1_000_000_000 + nanos == s * 1_000_000_000 + n,
                Err((s, n)) => secs * 1_000_000_000 + nanos == -(s * 1_000_000_000 + n),
            }
        },
        match d {
            Ok((s, _)) => unix_time(d) is Some <==> s <= i64::MAX,
            Err((s, n)) => unix_time(d) is Some <==> (s < i64::MAX || (s == i64::MAX && n == 0)),
        },
{
}

/// A reading's text is chrono's text of the signed distance that the reading stands for.
pub proof fn lemma_reading_text(s: u64, n: u32)
    requires
        n < 1_000_000_000,
    ensures
        s <= i64::MAX ==> reading_text(Ok((s, n))) == rfc3339_millis_utc(s as i64, n),
        n == 0 && s <= i64::MAX ==> reading_text(Err((s, n))) == rfc3339_millis_utc(
            -(s as int) as i64,
            0,
        ),
        0 < n && s < i64::MAX ==> reading_text(Err((s, n))) == rfc3339_millis_utc(
            (-(s as int) - 1) as i64,
            (1_000_000_000 - n) as u32,
        ),
{
}

} // verus!
