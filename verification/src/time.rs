use vstd::prelude::*;

verus! {

/// The RFC 3339 text that chrono gives for the UTC instant `secs` seconds
/// and `nanos` nanoseconds after the Unix epoch.
pub uninterp spec fn rfc3339_text(secs: int, nanos: int) -> Seq<char>;

/// Seconds since the epoch of 0001-01-01T00:00:00Z.
pub open spec fn min_plain_secs() -> int {
    -62135596800
}

/// Seconds since the epoch of 9999-12-31T23:59:59Z.
pub open spec fn max_plain_secs() -> int {
    253402300799
}

/// An instant of years 1 through 9999 with a nanosecond part below one
/// second: the range that RFC 3339 text covers without a year sign.
pub open spec fn plain_instant(secs: int, nanos: int) -> bool {
    &&& min_plain_secs() <= secs <= max_plain_secs()
    &&& 0 <= nanos < 1_000_000_000
}

/// Seconds since the epoch of the first instant chrono represents,
/// -262143-01-01T00:00:00Z.
pub open spec fn min_chrono_secs() -> int {
    -8334601228800
}

/// Seconds since the epoch of the last whole second chrono represents,
/// +262142-12-31T23:59:59Z.
pub open spec fn max_chrono_secs() -> int {
    8210266876799
}

/// The instants chrono represents: its date range, with a nanosecond part
/// below one second, or below two seconds on the last second of a minute
/// (a leap second).
pub open spec fn chrono_instant(secs: int, nanos: int) -> bool {
    &&& min_chrono_secs() <= secs <= max_chrono_secs()
    &&& 0 <= nanos
    &&& (nanos < 1_000_000_000 || (nanos < 2_000_000_000 && secs % 60 == 59))
}

/// Every instant of years 1 through 9999 is one chrono represents.
pub proof fn lemma_plain_instants_are_chrono_instants(secs: int, nanos: int)
    ensures
        plain_instant(secs, nanos) ==> chrono_instant(secs, nanos),
{
}

/// Calls `chrono::DateTime::<Utc>::from_timestamp(secs, nanos)` and, when it
/// gives an instant, that instant's `to_rfc3339()`.
/// Claimed: a text, when given, is `rfc3339_text(secs, nanos)`; chrono gives
/// an instant exactly for `chrono_instant(secs, nanos)` (its day count must
/// fall in `NaiveDate`'s range of years -262143..=262142, and its time of
/// day must have nanoseconds below one second, or below two on a leap second,
/// as `from_timestamp` and `from_num_seconds_from_midnight_opt` show).
#[verifier::external_body]
fn utc_rfc3339(secs: i64, nanos: u32) -> (r: Option<String>)
    ensures
        r matches Some(t) ==> t@ == rfc3339_text(secs as int, nanos as int),
        r is Some <==> chrono_instant(secs as int, nanos as int),
{
    match chrono::DateTime::from_timestamp(secs, nanos) {
        Some(instant) => Some(instant.to_rfc3339()),
        None => None,
    }
}

/// A UTC instant, kept with its RFC 3339 text.
pub struct Timestamp {
    secs: i64,
    nanos: u32,
    text: String,
}

impl View for Timestamp {
    /// Seconds since the Unix epoch and the nanosecond part.
    type V = (int, int);

    closed spec fn view(&self) -> (int, int) {
        (self.secs as int, self.nanos as int)
    }
}

impl Timestamp {
    #[verifier::type_invariant]
    spec fn text_matches(self) -> bool {
        self.text@ == rfc3339_text(self.secs as int, self.nanos as int)
    }

    /// The instant `secs` seconds and `nanos` nanoseconds after the Unix
    /// epoch, or `None` where chrono cannot represent it.
    pub fn from_unix(secs: i64, nanos: u32) -> (r: Option<Timestamp>)
        ensures
            r matches Some(t) ==> t@ == (secs as int, nanos as int),
            r is Some <==> chrono_instant(secs as int, nanos as int),
    {
        match utc_rfc3339(secs, nanos) {
            Some(text) => Some(Timestamp { secs, nanos, text }),
            None => None,
        }
    }

    /// Seconds since the Unix epoch.
    pub fn secs(&self) -> (r: i64)
        ensures
            r == self@.0,
    {
        self.secs
    }

    /// The nanosecond part.
    pub fn nanos(&self) -> (r: u32)
        ensures
            r == self@.1,
    {
        self.nanos
    }

    /// The RFC 3339 text of the instant.
    pub fn to_rfc3339(&self) -> (r: String)
        ensures
            r@ == rfc3339_text(self@.0, self@.1),
    {
        proof {
            use_type_invariant(self);
        }
        self.text.clone()
    }
}

} // verus!
