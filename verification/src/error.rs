//! The ways in which a run can fail.

use vstd::prelude::*;

verus! {

/// What the CSV reader reported in place of a record.
#[derive(Clone, Debug, PartialEq, Eq)]
pub struct ParseFailure {
    /// Whether the reader found bytes that are not UTF-8.
    pub invalid_utf8: bool,
    /// The reader's own description, with the position of the failure.
    pub message: String,
}

/// Why a run stopped before the end of its input.
#[derive(Clone, Debug, PartialEq, Eq)]
pub enum SanitizeError {
    /// The input could not be read as text in the chosen encoding.
    Decode,
    /// The text could not be read as records.
    Parse(ParseFailure),
    /// A record could not be written.
    Write { message: String },
}

impl ParseFailure {
    /// The failure as plain values: the flag and the message's characters.
    pub open spec fn view(&self) -> (bool, Seq<char>) {
        (self.invalid_utf8, self.message@)
    }
}

impl SanitizeError {
    /// Whether this is the parse error that the reader's report `failure`
    /// gives rise to.
    pub open spec fn is_parse_of(self, failure: (bool, Seq<char>)) -> bool {
        self matches SanitizeError::Parse(report) && report@ == failure
    }

    /// A description of the error for people to read.
    pub fn message(&self) -> (text: String)
        ensures
            match *self {
                SanitizeError::Decode => text@ == "input could not be decoded"@,
                SanitizeError::Parse(report) => text@ == report.message@,
                SanitizeError::Write { message } => text@ == message@,
            },
    {
        match self {
            SanitizeError::Decode => "input could not be decoded".to_owned(),
            SanitizeError::Parse(report) => report.message.clone(),
            SanitizeError::Write { message } => message.clone(),
        }
    }
}

} // verus!
