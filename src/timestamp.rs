use vstd::prelude::*;

verus! {

/// A UTC instant, as whole seconds since 1970-01-01 00:00:00 UTC.
#[derive(Clone, Copy, Debug, PartialEq, Eq, Structural)]
pub struct Timestamp {
    pub seconds: i64,
}

/// The instant that `text` spells in the strftime-style format `fmt`, read as
/// UTC, in seconds since the epoch; `None` where `text` does not match.
pub uninterp spec fn utc_seconds(text: Seq<char>, fmt: Seq<char>) -> Option<i64>;

/// Relies on chrono's `NaiveDateTime::parse_from_str` to read `text` in the
/// format `fmt`, and on `and_utc().timestamp()` for its seconds since the epoch.
#[verifier::external_body]
fn parse_utc(text: &str, fmt: &str) -> (r: Option<i64>)
    ensures
        r == utc_seconds(text@, fmt@),
{
    chrono::NaiveDateTime::parse_from_str(text, fmt).ok().map(|d| d.and_utc().timestamp())
}

impl Timestamp {
    /// 1970-01-01 00:00:00 UTC.
    pub fn epoch() -> (r: Timestamp)
        ensures
            r.seconds == 0,
    {
        Timestamp { seconds: 0 }
    }

    /// Reads `text` in the format `fmt` as a UTC instant.
    pub fn parse(text: &str, fmt: &str) -> (r: Option<Timestamp>)
        ensures
            match utc_seconds(text@, fmt@) {
                Some(s) => r == Some(Timestamp { seconds: s }),
                None => r is None,
            },
    {
        match parse_utc(text, fmt) {
            Some(s) => Some(Timestamp { seconds: s }),
            None => None,
        }
    }

    /// Seconds from `self` until `later` (negative when `later` comes first).
    pub fn seconds_until(&self, later: &Timestamp) -> (r: i128)
        ensures
            r == later.seconds - self.seconds,
    {
        later.seconds as i128 - self.seconds as i128
    }
}

} // verus!
