//! Timezone-aware instants, carried on the wire as ISO-8601 text with an
//! offset. The codec validates the text and keeps it verbatim, alongside
//! the instant it denotes, so a round trip reproduces the document exactly.

use vstd::prelude::*;

use crate::error::{DecodeError, ErrorKind};

verus! {

/// The instant an RFC 3339 date-and-time string denotes, in microseconds
/// since the Unix epoch, or nothing if the text is not such a string.
pub uninterp spec fn rfc3339_micros(s: Seq<char>) -> Option<i64>;

/// Relies on `chrono::DateTime::parse_from_rfc3339` and
/// `chrono::DateTime::timestamp_micros`: the parsed instant depends on the
/// characters alone, and four-digit years keep the microsecond count well
/// inside `i64`.
#[verifier::external_body]
fn parse_rfc3339_micros(s: &str) -> (r: Option<i64>)
    ensures
        r == rfc3339_micros(s@),
{
    chrono::DateTime::parse_from_rfc3339(s).ok().map(|d| d.timestamp_micros())
}

/// Ghost mirror of [`Timestamp`].
pub ghost struct TimestampV {
    /// The wire text.
    pub text: Seq<char>,
    /// The instant the text denotes, in microseconds since the Unix epoch.
    pub micros: int,
}

/// A timezone-aware instant: validated ISO-8601 wire text together with
/// the instant it denotes.
#[derive(Clone, Debug)]
pub struct Timestamp {
    text: String,
    micros: i64,
}

impl View for Timestamp {
    type V = TimestampV;

    closed spec fn view(&self) -> TimestampV {
        TimestampV { text: self.text@, micros: self.micros as int }
    }
}

/// A well-formed timestamp holds text that denotes its instant.
pub open spec fn timestamp_wf(t: TimestampV) -> bool {
    rfc3339_micros(t.text) == Some(t.micros as i64) && i64::MIN <= t.micros <= i64::MAX
}

impl Timestamp {
    /// A well-formed timestamp holds text that denotes its instant.
    pub open spec fn wf(&self) -> bool {
        timestamp_wf(self@)
    }

    /// Decode an ISO-8601 date-and-time string with offset.
    pub fn parse(s: &str) -> (r: Result<Timestamp, DecodeError>)
        ensures
            match r {
                Ok(t) => rfc3339_micros(s@) == Some(t@.micros as i64) && t@.text == s@ && t.wf(),
                Err(e) => rfc3339_micros(s@) is None && e.kind == ErrorKind::MalformedEnvelope,
            },
    {
        match parse_rfc3339_micros(s) {
            Some(m) => Ok(Timestamp { text: s.to_owned(), micros: m }),
            None => Err(DecodeError::new(ErrorKind::MalformedEnvelope).with_detail(s)),
        }
    }

    /// The wire text of this instant.
    pub fn text(&self) -> (r: &str)
        ensures
            r@ == self@.text,
    {
        self.text.as_str()
    }

    /// The instant, in microseconds since the Unix epoch.
    pub fn micros(&self) -> (r: i64)
        ensures
            r as int == self@.micros,
    {
        self.micros
    }
}

} // verus!
