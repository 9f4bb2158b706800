//! A library for working with mathematical braids.
//!
//! Braids are words in crossings of strands: Artin generators cross two adjacent strands, band
//! generators cross two arbitrary strands. Words multiply by concatenation with cancellation of
//! adjacent inverse letters; braids carry a braid index as well as a word.

mod braid;
mod crossing;
mod data;
mod error;
mod generators;
mod index;
pub mod lemmas;
mod letter;
pub mod model;
mod multiplication;
mod operand;
mod result;
mod sign;
mod strand;
mod word;

pub use braid::Braid;
pub use crossing::MAX_BAND_HEIGHT;
pub use data::Data;
pub use error::{
    ArtinValidationError, BandValidationError, BraidValidationError, FromArtinError,
    IndexValidationError, LetterValidationError, StaircaseQuadrant, StrandValidationError,
    WordValidationError,
};
pub use generators::{artin_to_band, band_to_artin, ArtinGenerator, BandGenerator};
pub use index::BraidIndex;
pub use letter::Letter;
pub use operand::{MulOperand, MulResult};
pub use result::{
    ArtinResult, BandResult, BraidResult, IndexResult, LetterResult, StrandResult, WordResult,
};
pub use sign::Sign;
pub use strand::Strand;
pub use word::{LetterData, Word};
