//! Instants in UTC and their display form, through the `chrono` crate.

use vstd::prelude::*;

verus! {

/// The first second that has a display form: the start of the year -262143.
pub const MIN_SECONDS: i64 = -8_334_601_228_800;

/// The last second that has a display form: the end of the year 262142.
pub const MAX_SECONDS: i64 = 8_210_266_876_799;

/// An instant in UTC: the whole seconds since 1970-01-01 00:00:00, leap
/// seconds not counted, and the nanoseconds since the last whole second.
///
/// During a leap second `nanos` runs from 1,000,000,000 to 1,999,999,999
/// while `secs` stays at the second before, the last of its minute.
#[derive(Clone, Copy, Debug, PartialEq, Eq)]
pub struct Timestamp {
    pub secs: i64,
    pub nanos: u32,
}

/// The display form that `chrono` gives for an instant.
pub uninterp spec fn timestamp_text(secs: i64, nanos: u32) -> Seq<char>;

/// The instant that `chrono` reads from a text, if it reads one, as seconds
/// and nanoseconds.
pub uninterp spec fn timestamp_parse(text: Seq<char>) -> Option<(i64, u32)>;

impl Timestamp {
    /// The instant is one that `chrono::DateTime<Utc>` holds: the second lies
    /// in the years -262143 to 262142, and the nanoseconds pass 999,999,999
    /// only during a leap second.
    pub open spec fn valid(self) -> bool {
        &&& MIN_SECONDS <= self.secs <= MAX_SECONDS
        &&& (self.nanos < 1_000_000_000 || (self.nanos < 2_000_000_000 && (self.secs as int) % 60
            == 59))
    }

    /// The instant that a text stands for.
    pub open spec fn of_text(text: Seq<char>) -> Option<Timestamp> {
        match timestamp_parse(text) {
            None => None,
            Some(parts) => {
                let instant = Timestamp { secs: parts.0, nanos: parts.1 };
                if instant.valid() {
                    Some(instant)
                } else {
                    None
                }
            },
        }
    }

    /// The display form of a valid instant.
    pub open spec fn text(self) -> Seq<char> {
        timestamp_text(self.secs, self.nanos)
    }

    /// Whether the instant has a display form.
    pub fn is_valid(&self) -> (r: bool)
        ensures
            r == self.valid(),
    {
        if self.secs < MIN_SECONDS || self.secs > MAX_SECONDS {
            false
        } else if self.nanos < 1_000_000_000 {
            true
        } else if self.nanos >= 2_000_000_000 {
            false
        } else {
            let since_first: i64 = self.secs - MIN_SECONDS;
            since_first % 60 == 59
        }
    }

    /// Makes an instant of seconds and nanoseconds, if they are those of one.
    pub fn new(secs: i64, nanos: u32) -> (r: Option<Timestamp>)
        ensures
            r == (if (Timestamp { secs, nanos }).valid() {
                Some(Timestamp { secs, nanos })
            } else {
                None
            }),
    {
        let instant = Timestamp { secs, nanos };
        if instant.is_valid() {
            Some(instant)
        } else {
            None
        }
    }

    /// Writes the display form of the instant, if it has one.
    pub fn to_text(&self) -> (r: Option<String>)
        ensures
            match r {
                Some(s) => self.valid() && s@ == self.text(),
                None => !self.valid(),
            },
    {
        if self.is_valid() {
            format_instant(self.secs, self.nanos)
        } else {
            None
        }
    }

    /// Reads an instant from a text. The display form of a valid instant is
    /// read back as that instant.
    pub fn from_text(text: &str) -> (r: Option<Timestamp>)
        ensures
            r == Timestamp::of_text(text@),
            forall|instant: Timestamp|
                instant.valid() && text@ == #[trigger] instant.text() ==> r == Some(instant),
    {
        match parse_instant(text) {
            None => None,
            Some(parts) => Timestamp::new(parts.0, parts.1),
        }
    }
}

/// `chrono::DateTime::from_timestamp`, then `to_string` on the
/// `DateTime<Utc>` it gives. Trusted: `from_timestamp` gives one for every
/// valid pair of seconds and nanoseconds, and the string is the display form
/// named by `timestamp_text`.
#[verifier::external_body]
pub(crate) fn format_instant(secs: i64, nanos: u32) -> (r: Option<String>)
    ensures
        match r {
            Some(s) => s@ == timestamp_text(secs, nanos),
            None => !(Timestamp { secs, nanos }).valid(),
        },
{
    match chrono::DateTime::from_timestamp(secs, nanos) {
        Some(instant) => Some(instant.to_string()),
        None => None,
    }
}

/// `str::parse` at the type `chrono::DateTime<chrono::Utc>`, its error
/// dropped, then `timestamp` and `timestamp_subsec_nanos` on what was read.
/// Trusted: the pair is the one named by `timestamp_parse`, and the display
/// form of a valid instant is read back as that instant.
#[verifier::external_body]
pub(crate) fn parse_instant(text: &str) -> (r: Option<(i64, u32)>)
    ensures
        r == timestamp_parse(text@),
        forall|secs: i64, nanos: u32|
            (Timestamp { secs, nanos }).valid() && text@ == #[trigger] timestamp_text(secs, nanos)
                ==> r == Some((secs, nanos)),
{
    match text.parse::<chrono::DateTime<chrono::Utc>>() {
        Ok(instant) => Some((instant.timestamp(), instant.timestamp_subsec_nanos())),
        Err(_) => None,
    }
}

} // verus!
