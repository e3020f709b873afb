//! Why a manual page could not be made.

use vstd::prelude::*;

use crate::entry::{long_flag_text, short_flag_text};
use crate::text::push_char;

verus! {

/// Error type for the conversion of a command into a manual page.
#[derive(Debug, Clone)]
pub enum Error {
    /// Command about is missing
    MissingAbout,
    /// Command author is missing
    MissingAuthor,
    /// Duplicate flag
    DuplicateFlag(String),
    /// Duplicate short flag
    DuplicateShortFlag(char),
}

impl Error {
    /// The message that describes the error.
    pub open spec fn message_text(&self) -> Seq<char> {
        match self {
            Error::MissingAbout => "command about is missing"@,
            Error::MissingAuthor => "command author is missing"@,
            Error::DuplicateFlag(l) => "duplicate flag "@ + long_flag_text(l@),
            Error::DuplicateShortFlag(c) => "duplicate short flag "@ + short_flag_text(*c),
        }
    }

    /// The message that describes the error.
    pub fn message(&self) -> (res: String)
        ensures
            res@ == self.message_text(),
    {
        match self {
            Error::MissingAbout => String::from_str("command about is missing"),
            Error::MissingAuthor => String::from_str("command author is missing"),
            Error::DuplicateFlag(l) => {
                let mut res = String::from_str("duplicate flag ");
                push_char(&mut res, '-');
                push_char(&mut res, '-');
                res.append(l.as_str());
                assert(res@ =~= self.message_text());
                res
            },
            Error::DuplicateShortFlag(c) => {
                let mut res = String::from_str("duplicate short flag ");
                push_char(&mut res, '-');
                push_char(&mut res, *c);
                assert(res@ =~= self.message_text());
                res
            },
        }
    }
}

} // verus!
