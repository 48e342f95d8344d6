//! Points in time as they travel in a message: a date and time in the
//! RFC 3339 style, kept as the text together with the instant it denotes.

use vstd::prelude::*;

verus! {

/// What chrono's parser for `DateTime<FixedOffset>` makes of a text: the
/// seconds since the Unix epoch and the nanoseconds within the second of the
/// instant it reads, or `None` where it reads none.
pub uninterp spec fn timestamp_parse(text: Seq<char>) -> Option<(i64, u32)>;

/// `str::parse::<DateTime<FixedOffset>>`, with the instant handed back as
/// `DateTime::timestamp` and `DateTime::timestamp_subsec_nanos`. The result
/// depends on the text alone.
#[verifier::external_body]
fn parse_instant(text: &str) -> (instant: Option<(i64, u32)>)
    ensures
        instant == timestamp_parse(text@),
{
    match text.parse::<chrono::DateTime<chrono::FixedOffset>>() {
        Ok(time) => Some((time.timestamp(), time.timestamp_subsec_nanos())),
        Err(_) => None,
    }
}

/// `Local::now`, written out by `DateTime::to_rfc3339`. Nothing is promised
/// of the text: it depends on the clock and on the machine's time zone.
#[verifier::external_body]
fn clock_text() -> (text: String) {
    chrono::Local::now().to_rfc3339()
}

/// A point in time. Its view is the text it was read from.
#[derive(Debug)]
pub struct Timestamp {
    text: String,
    seconds: i64,
    nanos: u32,
}

impl View for Timestamp {
    type V = Seq<char>;

    closed spec fn view(&self) -> Seq<char> {
        self.text@
    }
}

/// Whether a text denotes a point in time.
pub open spec fn is_timestamp_text(text: Seq<char>) -> bool {
    timestamp_parse(text) is Some
}

impl Timestamp {
    #[verifier::type_invariant]
    closed spec fn well_formed(&self) -> bool {
        timestamp_parse(self.text@) == Some((self.seconds, self.nanos))
    }

    /// Reads a point in time from text.
    pub fn parse(text: &str) -> (time: Option<Timestamp>)
        ensures
            time is Some <==> is_timestamp_text(text@),
            time matches Some(t) ==> t@ == text@,
    {
        match parse_instant(text) {
            Some((seconds, nanos)) => Some(
                Timestamp { text: String::from_str(text), seconds, nanos },
            ),
            None => None,
        }
    }

    /// The current time, or `None` where the clock's reading cannot be read
    /// back as a point in time. The clock decides which: its reading goes to
    /// `parse`, which says what becomes of each text.
    pub fn now() -> (time: Option<Timestamp>)
        ensures
            time matches Some(t) ==> is_timestamp_text(t@),
    {
        let text = clock_text();
        Self::parse(text.as_str())
    }

    /// The text of the timestamp.
    pub fn text(&self) -> (text: &str)
        ensures
            text@ == self@,
            is_timestamp_text(text@),
    {
        proof {
            use_type_invariant(self);
        }
        self.text.as_str()
    }

    /// Seconds since the Unix epoch, leap seconds not counted.
    pub fn seconds(&self) -> (seconds: i64)
        ensures
            timestamp_parse(self@) matches Some(instant) && instant.0 == seconds,
    {
        proof {
            use_type_invariant(self);
        }
        self.seconds
    }

    /// Nanoseconds since the last full second. During a leap second the
    /// number exceeds 999,999,999.
    pub fn nanos(&self) -> (nanos: u32)
        ensures
            timestamp_parse(self@) matches Some(instant) && instant.1 == nanos,
    {
        proof {
            use_type_invariant(self);
        }
        self.nanos
    }
}

impl Clone for Timestamp {
    fn clone(&self) -> (copy: Self)
        ensures
            copy@ == self@,
    {
        proof {
            use_type_invariant(self);
        }
        Timestamp { text: self.text.clone(), seconds: self.seconds, nanos: self.nanos }
    }
}

} // verus!
