//! The ways in which reading an amount from text can fail.

use vstd::prelude::*;
use vstd::string::*;

verus! {

/// Why a text could not be turned into baht text.
#[derive(Debug, PartialEq)]
pub enum BahtTextError {
    /// The text is not a decimal number; the field says what was wrong with it.
    ParseError(String),
    /// The text names a value that is no number of baht: an infinity or a NaN.
    InvalidNumber,
    /// The amount is too large to be written out. Kept for callers that
    /// set a limit of their own: nothing here returns it.
    AmountTooLarge,
}

impl BahtTextError {
    /// The message of this error as a sequence of characters.
    pub open spec fn message_text(&self) -> Seq<char> {
        match self {
            BahtTextError::ParseError(detail) => "Failed to parse amount: "@ + detail@,
            BahtTextError::InvalidNumber => "Invalid number format"@,
            BahtTextError::AmountTooLarge => "Amount is too large"@,
        }
    }

    /// A stable, human-readable message for this error.
    pub fn message(&self) -> (text: String)
        ensures
            text@ == self.message_text(),
    {
        match self {
            BahtTextError::ParseError(detail) => {
                let mut text = String::from_str("Failed to parse amount: ");
                text.append(detail.as_str());
                text
            },
            BahtTextError::InvalidNumber => String::from_str("Invalid number format"),
            BahtTextError::AmountTooLarge => String::from_str("Amount is too large"),
        }
    }
}

} // verus!
