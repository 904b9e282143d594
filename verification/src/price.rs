//! The numeric-or-string price codec. A token price arrives either as a
//! JSON number or as that number quoted in a string; both normalize to the
//! same value here, and encoding always emits the string form.

use vstd::prelude::*;

use crate::error::{DecodeError, ErrorKind};
use crate::text::{check_num_syntax, num_syntax};

verus! {

/// A token price: validated numeric text, the common form of the two wire
/// encodings.
#[derive(Clone, Debug)]
pub struct Price {
    text: String,
}

impl View for Price {
    type V = Seq<char>;

    closed spec fn view(&self) -> Seq<char> {
        self.text@
    }
}

impl Price {
    /// A well-formed price holds numeric text.
    pub open spec fn wf(&self) -> bool {
        num_syntax(self@)
    }

    /// Decode numeric text, as it appears in either wire form.
    pub fn parse(s: &str) -> (r: Result<Price, DecodeError>)
        ensures
            match r {
                Ok(p) => num_syntax(s@) && p@ == s@ && p.wf(),
                Err(e) => !num_syntax(s@) && e.kind == ErrorKind::NumericOverflowOrFormat,
            },
    {
        if check_num_syntax(s) {
            Ok(Price { text: s.to_owned() })
        } else {
            Err(DecodeError::new(ErrorKind::NumericOverflowOrFormat).with_detail(s))
        }
    }

    /// The numeric text of this price.
    pub fn as_str(&self) -> (r: &str)
        ensures
            r@ == self@,
    {
        self.text.as_str()
    }
}

} // verus!
