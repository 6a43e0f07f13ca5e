//! Instants in UTC, held as a count of seconds since the Unix epoch and a
//! sub-second part in nanoseconds, together with the chrono conversions that
//! the analytics API needs (parsing RFC 3339, formatting, stepping back).
use vstd::prelude::*;

verus! {

/// Whether `chrono::DateTime::<Utc>::from_timestamp(secs, nanos)` returns
/// `Some`: the instant lies inside chrono's supported range and the
/// nanosecond part is valid (a value of one second or more stands for a leap
/// second and is only allowed when `secs % 60 == 59`).
pub uninterp spec fn utc_representable(secs: i64, nanos: u32) -> bool;

/// The instant that `chrono::DateTime::parse_from_rfc3339` reads from a
/// string, converted to UTC and split into seconds and nanoseconds, or `None`
/// when the text is not a valid RFC 3339 date-time.
pub uninterp spec fn rfc3339_instant(text: Seq<char>) -> Option<(i64, u32)>;

/// The text that `DateTime::<Utc>::to_rfc3339` writes for an instant.
pub uninterp spec fn rfc3339_text(secs: i64, nanos: u32) -> Seq<char>;

/// The text that the `Display` impl of `DateTime<Utc>` writes for an instant
/// (such as `2015-05-15 00:00:00 UTC`).
pub uninterp spec fn utc_display_text(secs: i64, nanos: u32) -> Seq<char>;

/// The instant that `DateTime::<Utc>::checked_sub_signed` gives for an
/// instant and a whole number of seconds, or `None` when it leaves chrono's
/// range.
pub uninterp spec fn utc_minus_seconds(secs: i64, nanos: u32, delta: i64) -> Option<(i64, u32)>;

/// A UTC instant that chrono can represent.
#[derive(Clone, Copy, Debug)]
pub struct Timestamp {
    secs: i64,
    nanos: u32,
}

impl Timestamp {
    #[verifier::type_invariant]
    spec fn representable(self) -> bool {
        utc_representable(self.secs, self.nanos)
    }

    /// Seconds since 1970-01-01T00:00:00Z.
    pub closed spec fn spec_secs(self) -> i64 {
        self.secs
    }

    /// Nanoseconds past `spec_secs`.
    pub closed spec fn spec_nanos(self) -> u32 {
        self.nanos
    }

    /// Seconds and nanoseconds together.
    pub open spec fn parts(self) -> (i64, u32) {
        (self.spec_secs(), self.spec_nanos())
    }

    /// Calls `DateTime::<Utc>::from_timestamp` and reports whether it
    /// returned `Some`.
    #[verifier::external_body]
    fn chrono_accepts(secs: i64, nanos: u32) -> (b: bool)
        ensures
            b == utc_representable(secs, nanos),
    {
        chrono::DateTime::from_timestamp(secs, nanos).is_some()
    }

    /// The instant `secs` seconds and `nanos` nanoseconds after the Unix
    /// epoch, or `None` when chrono cannot represent it.
    pub fn from_parts(secs: i64, nanos: u32) -> (r: Option<Timestamp>)
        ensures
            r is Some <==> utc_representable(secs, nanos),
            r matches Some(t) ==> t.spec_secs() == secs && t.spec_nanos() == nanos,
    {
        if Self::chrono_accepts(secs, nanos) {
            Some(Timestamp { secs, nanos })
        } else {
            None
        }
    }

    pub fn secs(&self) -> (r: i64)
        ensures
            r == self.spec_secs(),
    {
        self.secs
    }

    pub fn nanos(&self) -> (r: u32)
        ensures
            r == self.spec_nanos(),
    {
        self.nanos
    }

    /// Calls `DateTime::parse_from_rfc3339`, converts the result to UTC and
    /// splits it into seconds and nanoseconds. The contract names the result,
    /// and states the fact from chrono's documentation that the parts of any
    /// `DateTime` round-trip through `from_timestamp`.
    #[verifier::external_body]
    fn chrono_parse_rfc3339(text: &str) -> (r: Option<(i64, u32)>)
        ensures
            r == rfc3339_instant(text@),
            r matches Some(p) ==> utc_representable(p.0, p.1),
    {
        match chrono::DateTime::parse_from_rfc3339(text) {
            Ok(d) => {
                let u = d.to_utc();
                Some((u.timestamp(), u.timestamp_subsec_nanos()))
            },
            Err(_) => None,
        }
    }

    /// Reads an RFC 3339 date-time such as `2026-04-22T10:45:00Z`.
    pub fn parse_rfc3339(text: &str) -> (r: Option<Timestamp>)
        ensures
            r is Some <==> rfc3339_instant(text@) is Some,
            r matches Some(t) ==> rfc3339_instant(text@) == Some((t.spec_secs(), t.spec_nanos())),
    {
        match Self::chrono_parse_rfc3339(text) {
            Some(p) => Some(Timestamp { secs: p.0, nanos: p.1 }),
            None => None,
        }
    }

    /// Calls `DateTime::<Utc>::to_rfc3339` on this instant.
    #[verifier::external_body]
    pub(crate) fn to_rfc3339(&self) -> (r: String)
        ensures
            r@ == rfc3339_text(self.spec_secs(), self.spec_nanos()),
    {
        chrono::DateTime::from_timestamp(self.secs, self.nanos).expect("representable").to_rfc3339()
    }

    /// Calls `to_string` (the `Display` impl) of `DateTime<Utc>` on this
    /// instant.
    #[verifier::external_body]
    pub(crate) fn to_display_string(&self) -> (r: String)
        ensures
            r@ == utc_display_text(self.spec_secs(), self.spec_nanos()),
    {
        chrono::DateTime::from_timestamp(self.secs, self.nanos).expect("representable").to_string()
    }

    /// Calls `DateTime::<Utc>::checked_sub_signed` with a whole number of
    /// seconds. Any instant it returns is a `DateTime`, so its parts
    /// round-trip through `from_timestamp`.
    #[verifier::external_body]
    fn chrono_minus_seconds(&self, delta: i64) -> (r: Option<(i64, u32)>)
        requires
            -9_223_372_036_854_775 <= delta <= 9_223_372_036_854_775,
        ensures
            r == utc_minus_seconds(self.spec_secs(), self.spec_nanos(), delta),
            r matches Some(p) ==> utc_representable(p.0, p.1),
    {
        let d = chrono::DateTime::from_timestamp(self.secs, self.nanos).expect("representable");
        match d.checked_sub_signed(chrono::TimeDelta::seconds(delta)) {
            Some(u) => Some((u.timestamp(), u.timestamp_subsec_nanos())),
            None => None,
        }
    }

    /// The instant `delta` seconds before this one, or `None` when that
    /// leaves the range chrono supports.
    pub fn minus_seconds(&self, delta: i64) -> (r: Option<Timestamp>)
        requires
            -9_223_372_036_854_775 <= delta <= 9_223_372_036_854_775,
        ensures
            r is Some <==> utc_minus_seconds(self.spec_secs(), self.spec_nanos(), delta) is Some,
            r matches Some(t) ==> utc_minus_seconds(self.spec_secs(), self.spec_nanos(), delta)
                == Some((t.spec_secs(), t.spec_nanos())),
    {
        match self.chrono_minus_seconds(delta) {
            Some(p) => Some(Timestamp { secs: p.0, nanos: p.1 }),
            None => None,
        }
    }
}

} // verus!
