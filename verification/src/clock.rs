//! Points in time and their written form.

use vstd::prelude::*;

verus! {

/// A point in time: whole seconds since the Unix epoch and the nanoseconds
/// since the last whole second.
#[derive(Clone, Copy, PartialEq, Eq, Structural, Debug)]
pub struct UtcTime {
    pub secs: i64,
    pub nanos: u32,
}

/// The RFC 3339 form that `chrono` writes for a point in time; nothing where
/// the point lies outside the range of its calendar.
pub uninterp spec fn rfc3339(secs: i64, nanos: u32) -> Option<Seq<char>>;

/// The characters of a text that may be missing.
pub open spec fn optional_text(text: Option<String>) -> Option<Seq<char>> {
    match text {
        Some(t) => Some(t@),
        None => None,
    }
}

/// Calls `DateTime::from_timestamp` of the `chrono` crate and `to_rfc3339` on
/// what it returns. The calendar arithmetic is not written out here.
#[verifier::external_body]
fn chrono_rfc3339(secs: i64, nanos: u32) -> (text: Option<String>)
    ensures
        optional_text(text) == rfc3339(secs, nanos),
{
    chrono::DateTime::from_timestamp(secs, nanos).map(|time| time.to_rfc3339())
}

/// Calls `Utc::now` of the `chrono` crate and takes the seconds and the
/// nanoseconds of what it returns. `chrono` documents that these two numbers
/// lead back to the same point in time, so that it has a written form.
/// Nothing else is said of the time of day.
#[verifier::external_body]
pub(crate) fn utc_now() -> (now: UtcTime)
    ensures
        rfc3339(now.secs, now.nanos) is Some,
{
    let now = chrono::Utc::now();
    UtcTime { secs: now.timestamp(), nanos: now.timestamp_subsec_nanos() }
}

impl UtcTime {
    /// The RFC 3339 form of this point in time, or an empty text where the
    /// calendar does not reach it.
    pub open spec fn written(self) -> Seq<char> {
        match rfc3339(self.secs, self.nanos) {
            Some(text) => text,
            None => Seq::empty(),
        }
    }

    /// Writes this point in time in RFC 3339 form; the text is empty where
    /// the calendar does not reach it.
    pub fn to_rfc3339(&self) -> (text: String)
        ensures
            text@ == self.written(),
    {
        match chrono_rfc3339(self.secs, self.nanos) {
            Some(text) => text,
            None => String::new(),
        }
    }
}

} // verus!
