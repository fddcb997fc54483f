//! Instants in time, read from the system clock and written and read back as
//! RFC 3339 text by `chrono`.

use vstd::prelude::*;

verus! {

/// An instant in UTC: whole seconds since the Unix epoch and the nanoseconds
/// past that second (as `chrono`'s `timestamp` and `timestamp_subsec_nanos`).
#[derive(Clone, Copy, Debug, PartialEq, Eq, Structural)]
pub struct Timestamp {
    pub secs: i64,
    pub nanos: u32,
}

/// First second of the year 0000 (UTC).
pub const FOUR_DIGIT_YEARS_START: i64 = -62167219200;

/// Last second of the year 9999 (UTC).
pub const FOUR_DIGIT_YEARS_END: i64 = 253402300799;

/// The second lies in a year of four digits (0000 to 9999).
pub open spec fn four_digit_year(secs: i64) -> bool {
    FOUR_DIGIT_YEARS_START <= secs <= FOUR_DIGIT_YEARS_END
}

/// An instant whose year has four digits and that is no leap second: the
/// instants that RFC 3339 text writes in its plain form.
pub open spec fn plain_instant(t: Timestamp) -> bool {
    &&& four_digit_year(t.secs)
    &&& t.nanos < 1_000_000_000
}

/// Eight ASCII decimal digits.
pub open spec fn eight_digits(s: Seq<char>) -> bool {
    &&& s.len() == 8
    &&& forall|i: int| 0 <= i < 8 ==> '0' <= #[trigger] s[i] <= '9'
}

/// `text` is what `to_rfc3339` writes for the plain instant `t`.
pub open spec fn written_plain(text: Seq<char>, t: Timestamp) -> bool {
    plain_instant(t) && rfc3339_text(t.secs, t.nanos) == Some(text)
}

/// Whatever plain instant `text` was written for is what was read from it.
pub open spec fn reads_back_plain(text: Seq<char>, r: Result<Timestamp, String>) -> bool {
    forall|t: Timestamp| #[trigger] written_plain(text, t) ==> r == Ok::<Timestamp, String>(t)
}

/// What `DateTime<Utc>::to_rfc3339` writes for the instant, or `None` where
/// `chrono` cannot represent it.
pub uninterp spec fn rfc3339_text(secs: i64, nanos: u32) -> Option<Seq<char>>;

/// What `DateTime::parse_from_rfc3339` reads from a text, taken to UTC as
/// seconds and nanoseconds, or its error message.
pub uninterp spec fn rfc3339_reading(text: Seq<char>) -> Result<(i64, u32), Seq<char>>;

/// What `format("%Y%m%d")` writes for the UTC date of the instant, or `None`
/// where `chrono` cannot represent it.
pub uninterp spec fn compact_date_text(secs: i64, nanos: u32) -> Option<Seq<char>>;

/// The current time (`chrono::Utc::now`). The instant depends on the clock, so
/// nothing is said of which one it is; `chrono` can represent it, so it can be
/// written back, its seconds lie within `chrono`'s range of dates (days since
/// the epoch fit an `i32`) and not before the epoch (`now` reads the system
/// clock's duration since the epoch), and its nanoseconds are those of a
/// `Duration`, below one second.
#[verifier::external_body]
pub fn now_utc() -> (t: Timestamp)
    ensures
        rfc3339_text(t.secs, t.nanos) is Some,
        compact_date_text(t.secs, t.nanos) is Some,
        0 <= t.secs < 0x1_0000_0000_0000,
        t.nanos < 1_000_000_000,
{
    let now = chrono::Utc::now();
    Timestamp { secs: now.timestamp(), nanos: now.timestamp_subsec_nanos() }
}

/// `DateTime<Utc>::to_rfc3339` of the instant rebuilt by
/// `DateTime::from_timestamp`; `None` where that finds no such instant.
#[verifier::external_body]
pub fn format_rfc3339(t: Timestamp) -> (r: Option<String>)
    ensures
        match r {
            Some(s) => rfc3339_text(t.secs, t.nanos) == Some(s@),
            None => rfc3339_text(t.secs, t.nanos) is None,
        },
{
    match chrono::DateTime::from_timestamp(t.secs, t.nanos) {
        Some(d) => Some(d.to_rfc3339()),
        None => None,
    }
}

/// `DateTime::parse_from_rfc3339`, taken to UTC with `with_timezone`. Claimed
/// beyond the name: text that `to_rfc3339` wrote for a plain instant reads
/// back as that instant.
#[verifier::external_body]
pub fn parse_rfc3339(s: &str) -> (r: Result<Timestamp, String>)
    ensures
        match r {
            Ok(t) => rfc3339_reading(s@) == Ok::<(i64, u32), Seq<char>>((t.secs, t.nanos)),
            Err(e) => rfc3339_reading(s@) == Err::<(i64, u32), Seq<char>>(e@),
        },
        reads_back_plain(s@, r),
{
    match chrono::DateTime::parse_from_rfc3339(s) {
        Ok(d) => {
            let u = d.with_timezone(&chrono::Utc);
            Ok(Timestamp { secs: u.timestamp(), nanos: u.timestamp_subsec_nanos() })
        },
        Err(e) => Err(e.to_string()),
    }
}

/// `format("%Y%m%d")` of the UTC instant rebuilt by `DateTime::from_timestamp`;
/// `None` where that finds no such instant. Claimed beyond the name: in a
/// year of four digits the text is eight digits (`%Y` pads the year with
/// zeros to four digits, `%m` and `%d` to two).
#[verifier::external_body]
pub fn format_compact_date(t: Timestamp) -> (r: Option<String>)
    ensures
        match r {
            Some(s) => compact_date_text(t.secs, t.nanos) == Some(s@) && (four_digit_year(t.secs) ==> eight_digits(s@)),
            None => compact_date_text(t.secs, t.nanos) is None,
        },
{
    match chrono::DateTime::from_timestamp(t.secs, t.nanos) {
        Some(d) => Some(d.format("%Y%m%d").to_string()),
        None => None,
    }
}

} // verus!
