//! URL fields. The codec validates that the text is a URL and keeps it
//! verbatim, so a round trip reproduces the document exactly.

use vstd::prelude::*;

use crate::error::{DecodeError, ErrorKind};

verus! {

/// Whether `s` parses as a URL.
pub uninterp spec fn url_ok(s: Seq<char>) -> bool;

/// Relies on `url::Url::parse`: whether text parses as a URL depends on
/// the characters alone.
#[verifier::external_body]
fn check_url(s: &str) -> (r: bool)
    ensures
        r == url_ok(s@),
{
    url::Url::parse(s).is_ok()
}

/// A validated URL, held as its wire text.
#[derive(Clone, Debug)]
pub struct UrlText {
    text: String,
}

impl View for UrlText {
    type V = Seq<char>;

    closed spec fn view(&self) -> Seq<char> {
        self.text@
    }
}

impl UrlText {
    /// A well-formed value holds text that parses as a URL.
    pub open spec fn wf(&self) -> bool {
        url_ok(self@)
    }

    /// Decode a URL string.
    pub fn parse(s: &str) -> (r: Result<UrlText, DecodeError>)
        ensures
            match r {
                Ok(u) => url_ok(s@) && u@ == s@ && u.wf(),
                Err(e) => !url_ok(s@) && e.kind == ErrorKind::MalformedEnvelope,
            },
    {
        if check_url(s) {
            Ok(UrlText { text: s.to_owned() })
        } else {
            Err(DecodeError::new(ErrorKind::MalformedEnvelope).with_detail(s))
        }
    }

    /// The wire text of this URL.
    pub fn as_str(&self) -> (r: &str)
        ensures
            r@ == self@,
    {
        self.text.as_str()
    }
}

} // verus!
