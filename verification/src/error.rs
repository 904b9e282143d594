//! The decode-error taxonomy. Malformed input is an expected, recoverable
//! condition: every decode operation reports it through these types and
//! never panics.

use vstd::prelude::*;

verus! {

/// What went wrong while decoding, as a closed classification.
#[derive(Clone, Copy, Debug, PartialEq, Eq, Structural)]
pub enum ErrorKind {
    /// The envelope is missing `sent_at` or `event_type`, carries an
    /// unrecognized `event_type`, or a value does not match the declared
    /// shape of its event kind.
    MalformedEnvelope,
    /// A chain-name segment failed lookup.
    UnknownChain,
    /// A hexadecimal value does not decode to the expected byte length.
    InvalidAddress,
    /// A composite identifier has fewer than three `/`-delimited segments.
    InvalidIdentifier,
    /// A decimal or numeric text failed to parse, or exceeded 256 bits.
    NumericOverflowOrFormat,
    /// A required field is absent from a JSON object.
    MissingRequiredField,
}

/// A decode failure: its classification, with the field and raw text it
/// arose from, so a caller can log it without re-parsing the input.
#[derive(Clone, Debug)]
pub struct DecodeError {
    /// Classification of the failure.
    pub kind: ErrorKind,
    /// Name of the field being decoded when the failure arose.
    pub field: String,
    /// The offending raw text, where there is one.
    pub detail: String,
}

impl DecodeError {
    /// A decode failure of the given kind, not yet tied to a field.
    pub fn new(kind: ErrorKind) -> (r: DecodeError)
        ensures
            r.kind == kind,
    {
        DecodeError { kind, field: String::new(), detail: String::new() }
    }

    /// The same failure, named after the field it arose in.
    pub fn at_field(self, name: &str) -> (r: DecodeError)
        ensures
            r.kind == self.kind,
            r.field@ == name@,
    {
        DecodeError { kind: self.kind, field: name.to_owned(), detail: self.detail }
    }

    /// The same failure, carrying the raw text it arose from.
    pub fn with_detail(self, raw: &str) -> (r: DecodeError)
        ensures
            r.kind == self.kind,
            r.field@ == self.field@,
            r.detail@ == raw@,
    {
        DecodeError { kind: self.kind, field: self.field, detail: raw.to_owned() }
    }
}

} // verus!
