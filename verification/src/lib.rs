//! Thai baht text: amounts of money written out in Thai words.
//!
//! [`money_to_thai_words`] writes a whole number as a Thai numeral.
//! [`Amount`] holds a sign, baht and satang, and [`Amount::words`] names it:
//! the baht in words and their unit, then either the word for "exactly" or
//! the satang in words and their unit. [`satang_to_words`] does both steps
//! for a count of satang.
//!
//! An amount written as text is tidied by [`clean`] and parsed by the
//! caller; [`words_from`] turns what the parse gave into the phrase or the
//! error.

pub mod amount;
pub mod cleaning;
pub mod error;
pub mod numeral;
pub mod parsed;

pub use amount::{satang_to_words, Amount};
pub use cleaning::clean;
pub use error::BahtTextError;
pub use numeral::money_to_thai_words;
pub use parsed::{words_from, Parsed};
