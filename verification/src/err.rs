//! Errors raised while turning a single section line into an entry.

use vstd::prelude::*;

verus! {

/// Why a section line could not be read as an entry.
#[derive(Debug)]
pub enum ParseError {
    /// The line does not have the expected shape; the text names the shape.
    InvalidFormat(String),
    /// The section name is not one of the known sections.
    UnknownSection(String),
}

impl ParseError {
    /// This error reports a line that does not have the shape `hint`.
    pub open spec fn is_invalid_format(self, hint: Seq<char>) -> bool {
        self matches ParseError::InvalidFormat(m) && m@ == hint
    }

    /// This error reports the unknown section `name`.
    pub open spec fn is_unknown_section(self, name: Seq<char>) -> bool {
        self matches ParseError::UnknownSection(m) && m@ == name
    }

    /// The message that describes the error.
    pub fn message(&self) -> (r: String)
        ensures
            r@ == match self {
                ParseError::InvalidFormat(m) => "Invalid Format. Expected ["@ + m@ + "]"@,
                ParseError::UnknownSection(m) => "Unknown Section: ["@ + m@ + "]"@,
            },
    {
        match self {
            ParseError::InvalidFormat(m) => {
                let r = String::from_str("Invalid Format. Expected [");
                let r = r.concat(m.as_str());
                r.concat("]")
            },
            ParseError::UnknownSection(m) => {
                let r = String::from_str("Unknown Section: [");
                let r = r.concat(m.as_str());
                r.concat("]")
            },
        }
    }
}

} // verus!
