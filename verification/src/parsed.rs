//! From what a parse of the amount's text gave to the phrase or the error.
//!
//! The text of an amount is tidied here and parsed by the caller, who holds
//! it as a number; what came of the parse is handed back as plain values.
//! The text may have been no number at all, it may have named a value that
//! is no finite number, or it stated an amount, which arrives as a sign and
//! a count of satang, rounded once.

use vstd::prelude::*;
use vstd::string::*;
use crate::amount::{satang_to_words, Amount};
use crate::error::BahtTextError;

verus! {

/// What came of parsing the text of an amount.
#[derive(Debug, Clone, PartialEq)]
pub enum Parsed {
    /// The text is no number; the field says what was wrong with it.
    Malformed(String),
    /// The text names an infinity, or a value that is no number.
    NotFinite,
    /// The text states an amount.
    Finite {
        /// Whether the amount is below zero.
        negative: bool,
        /// The amount in satang, without its sign.
        satang: u64,
    },
}

/// The phrase or the error that belongs to the outcome of a parse: each
/// outcome has exactly one.
pub open spec fn accords(outcome: Result<String, BahtTextError>, parsed: Parsed) -> bool {
    match parsed {
        Parsed::Malformed(detail) => outcome matches Err(BahtTextError::ParseError(said))
            && said@ == detail@,
        Parsed::NotFinite => outcome == Err::<String, BahtTextError>(
            BahtTextError::InvalidNumber,
        ),
        Parsed::Finite { negative, satang } => outcome matches Ok(phrase) && phrase@
            == Amount::of_total(negative, satang as nat).text(),
    }
}

/// Writes out in Thai words the amount that a text stated, or says why the
/// text stated none. An amount is never refused for its size.
pub fn words_from(parsed: Parsed) -> (outcome: Result<String, BahtTextError>)
    ensures
        accords(outcome, parsed),
        !(outcome matches Err(BahtTextError::AmountTooLarge)),
{
    match parsed {
        Parsed::Malformed(detail) => Err(BahtTextError::ParseError(detail)),
        Parsed::NotFinite => Err(BahtTextError::InvalidNumber),
        Parsed::Finite { negative, satang } => Ok(satang_to_words(negative, satang)),
    }
}

} // verus!
