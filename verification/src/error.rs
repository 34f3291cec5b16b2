//! Errors raised while reading a whole description file.

use vstd::prelude::*;

verus! {

/// The result of the operations of a parser.
pub type Result<T> = core::result::Result<T, Error>;

/// Why a description file could not be read.
#[derive(Debug)]
pub enum Error {
    /// A line or a section header does not have the expected shape:
    /// the expected shape, then the text that was found.
    InvalidFormat(String, String),
    /// A section that the file kind does not support.
    UnknownSection(String),
    /// The file does not exist.
    MissingFile(String),
    /// The file may not be opened.
    FileLocked(String),
    /// Any other failure.
    Unexpected,
    /// The file is not readable as an INI document.
    IniParseError(String),
}

impl Error {
    /// This error reports `detected` where the shape `expected` was required.
    pub open spec fn is_invalid_format(self, expected: Seq<char>, detected: Seq<char>) -> bool {
        self matches Error::InvalidFormat(e, d) && e@ == expected && d@ == detected
    }

    /// This error reports the unknown section `name`.
    pub open spec fn is_unknown_section(self, name: Seq<char>) -> bool {
        self matches Error::UnknownSection(m) && m@ == name
    }

    /// The text of the message that describes the error.
    pub open spec fn spec_message(self) -> Seq<char> {
        match self {
            Error::InvalidFormat(e, d) => "Invalid Format.\n  Expected ["@ + e@ + "]\n  Detected ["@
                + d@ + "]"@,
            Error::UnknownSection(m) => "Unknown Section: ["@ + m@ + "]"@,
            Error::MissingFile(m) => "Could not find file: ["@ + m@ + "]"@,
            Error::FileLocked(m) => "Missing permissions to open file: ["@ + m@ + "]"@,
            Error::Unexpected => "Failed in an unexpeceted location. Please report the stack."@,
            Error::IniParseError(m) => m@,
        }
    }

    /// The message that describes the error.
    pub fn message(&self) -> (r: String)
        ensures
            r@ == self.spec_message(),
    {
        match self {
            Error::InvalidFormat(e, d) => {
                let r = String::from_str("Invalid Format.\n  Expected [").concat(e.as_str());
                r.concat("]\n  Detected [").concat(d.as_str()).concat("]")
            },
            Error::UnknownSection(m) => String::from_str("Unknown Section: [").concat(
                m.as_str(),
            ).concat("]"),
            Error::MissingFile(m) => String::from_str("Could not find file: [").concat(
                m.as_str(),
            ).concat("]"),
            Error::FileLocked(m) => String::from_str("Missing permissions to open file: [").concat(
                m.as_str(),
            ).concat("]"),
            Error::Unexpected => String::from_str(
                "Failed in an unexpeceted location. Please report the stack.",
            ),
            Error::IniParseError(m) => m.clone(),
        }
    }
}

} // verus!
