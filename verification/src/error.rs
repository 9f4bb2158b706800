use vstd::prelude::*;

use crate::generators::{ArtinGenerator, BandGenerator};
use crate::index::BraidIndex;
use crate::strand::Strand;

verus! {

/// Failure to build a [`Strand`](crate::Strand), either directly or through strand arithmetic.
#[derive(Debug, PartialEq, Eq, Clone, Copy)]
pub enum StrandValidationError {
    /// The strand index zero was given.
    Zero,
    /// The subtraction would give a non-positive strand index.
    Subtraction {
        /// The index of the left operand.
        left: u16,
        /// The index of the right operand.
        right: u16,
    },
    /// The addition would give a strand index larger than [`u16::MAX`].
    Addition {
        /// The index of the left operand.
        left: u16,
        /// The index of the right operand.
        right: u16,
    },
    /// The given integer does not fit in a [`u16`].
    FromInt(std::num::TryFromIntError),
}

/// Failure to build a [`BraidIndex`](crate::BraidIndex).
#[derive(Debug, PartialEq, Eq, Clone, Copy)]
pub enum IndexValidationError {
    /// The braid index zero was given.
    Zero,
    /// The given integer does not fit in a [`u16`].
    FromInt(std::num::TryFromIntError),
}

/// Failure to build an [`ArtinGenerator`](crate::ArtinGenerator), directly or by conversion from
/// a band generator or letter.
#[derive(Debug, PartialEq, Eq, Clone, Copy)]
pub enum ArtinValidationError {
    /// The foot strand is [`u16::MAX`], so the head strand would not be a valid strand.
    InvalidHead,
    /// The band generator to convert does not cross adjacent strands. Wraps the band.
    FromBand(BandGenerator),
    /// The foot strand could not be built.
    StrandValidation(StrandValidationError),
}

/// The quadrant of a band's decomposition in which a staircase of Artin generators lies,
/// relative to the crossing generator in its middle.
#[derive(Debug, PartialEq, Eq, Clone, Copy, Structural)]
pub enum StaircaseQuadrant {
    /// Left of the crossing, above it: positive generators climbing upwards.
    UpperLeft,
    /// Left of the crossing, below it: negative generators climbing downwards.
    LowerLeft,
    /// Right of the crossing, below it: positive generators climbing downwards.
    LowerRight,
    /// Right of the crossing, above it: negative generators climbing upwards.
    UpperRight,
}

/// Failure to coalesce a sequence of Artin generators into a single band generator.
#[derive(Debug, PartialEq, Eq, Clone, Copy)]
pub enum FromArtinError {
    /// No Artin generators were given.
    NoGenerators,
    /// An even number of Artin generators was given.
    EvenGenerators,
    /// More than [`u16::MAX`] Artin generators were given. Wraps their number.
    TooManyGenerators(usize),
    /// A generator does not continue the staircase that it belongs to.
    IncontiguousSteps {
        /// The staircase that the generator belongs to by its position and sign.
        quadrant: StaircaseQuadrant,
        /// The generator that fails to continue the staircase.
        next_step: ArtinGenerator,
        /// The last step of the staircase so far (the crossing generator if it is empty).
        previous_step: ArtinGenerator,
    },
    /// The lower staircases left and right of the crossing differ in length. Wraps the
    /// difference.
    ImbalancedStaircases(usize),
}

/// Failure to build a [`BandGenerator`](crate::BandGenerator), directly or by coalescing Artin
/// generators.
#[derive(Debug, PartialEq, Eq, Clone, Copy)]
pub enum BandValidationError {
    /// The foot and head strands are the same. Wraps the strand.
    FootOnHead(Strand),
    /// The foot strand lies above the head strand.
    FootOverHead {
        /// The foot strand given.
        foot: Strand,
        /// The head strand given.
        head: Strand,
    },
    /// The distance between foot and head exceeds the maximal band height. Wraps the distance.
    TooTall(u16),
    /// A strand could not be built.
    StrandValidation(StrandValidationError),
    /// The Artin generators could not be coalesced.
    FromArtin(FromArtinError),
}

/// Failure to build a [`Letter`](crate::Letter): wraps the failure of the generator.
#[derive(Debug, PartialEq, Eq, Clone, Copy)]
pub enum LetterValidationError {
    /// The Artin generator could not be built.
    ArtinValidation(ArtinValidationError),
    /// The band generator could not be built.
    BandValidation(BandValidationError),
}

/// Failure to build a [`Word`](crate::Word).
#[derive(Debug, PartialEq, Eq, Clone, Copy)]
pub enum WordValidationError {
    /// The total Artin length of the word would exceed [`u16::MAX`]. Wraps that length.
    TooLong(usize),
    /// One of the letters could not be built.
    LetterValidation(LetterValidationError),
    /// An integer could not be converted.
    FromInt(std::num::TryFromIntError),
}

/// Failure to build a [`Braid`](crate::Braid), directly or by multiplication.
#[derive(Debug, PartialEq, Eq, Clone, Copy)]
pub enum BraidValidationError {
    /// The braid index is too small for some letter of the word.
    IndexTooSmall {
        /// The index of the braid.
        index: BraidIndex,
        /// The smallest index that accommodates the offending letters.
        minimal_required_index: BraidIndex,
    },
    /// Two braids of different braid indices were multiplied.
    UnequalIndices {
        /// The index of the left operand.
        left: BraidIndex,
        /// The index of the right operand.
        right: BraidIndex,
    },
    /// The braid index could not be built.
    IndexValidation(IndexValidationError),
    /// The word could not be built.
    WordValidation(WordValidationError),
}

impl From<StrandValidationError> for ArtinValidationError {
    fn from(value: StrandValidationError) -> (r: ArtinValidationError)
        ensures
            r == ArtinValidationError::StrandValidation(value),
    {
        ArtinValidationError::StrandValidation(value)
    }
}

impl vstd::std_specs::convert::FromSpecImpl<StrandValidationError> for ArtinValidationError {
    open spec fn obeys_from_spec() -> bool {
        true
    }

    open spec fn from_spec(v: StrandValidationError) -> ArtinValidationError {
        ArtinValidationError::StrandValidation(v)
    }
}

impl From<StrandValidationError> for BandValidationError {
    fn from(value: StrandValidationError) -> (r: BandValidationError)
        ensures
            r == BandValidationError::StrandValidation(value),
    {
        BandValidationError::StrandValidation(value)
    }
}

impl vstd::std_specs::convert::FromSpecImpl<StrandValidationError> for BandValidationError {
    open spec fn obeys_from_spec() -> bool {
        true
    }

    open spec fn from_spec(v: StrandValidationError) -> BandValidationError {
        BandValidationError::StrandValidation(v)
    }
}

impl From<FromArtinError> for BandValidationError {
    fn from(value: FromArtinError) -> (r: BandValidationError)
        ensures
            r == BandValidationError::FromArtin(value),
    {
        BandValidationError::FromArtin(value)
    }
}

impl vstd::std_specs::convert::FromSpecImpl<FromArtinError> for BandValidationError {
    open spec fn obeys_from_spec() -> bool {
        true
    }

    open spec fn from_spec(v: FromArtinError) -> BandValidationError {
        BandValidationError::FromArtin(v)
    }
}

impl From<ArtinValidationError> for LetterValidationError {
    fn from(value: ArtinValidationError) -> (r: LetterValidationError)
        ensures
            r == LetterValidationError::ArtinValidation(value),
    {
        LetterValidationError::ArtinValidation(value)
    }
}

impl vstd::std_specs::convert::FromSpecImpl<ArtinValidationError> for LetterValidationError {
    open spec fn obeys_from_spec() -> bool {
        true
    }

    open spec fn from_spec(v: ArtinValidationError) -> LetterValidationError {
        LetterValidationError::ArtinValidation(v)
    }
}

impl From<BandValidationError> for LetterValidationError {
    fn from(value: BandValidationError) -> (r: LetterValidationError)
        ensures
            r == LetterValidationError::BandValidation(value),
    {
        LetterValidationError::BandValidation(value)
    }
}

impl vstd::std_specs::convert::FromSpecImpl<BandValidationError> for LetterValidationError {
    open spec fn obeys_from_spec() -> bool {
        true
    }

    open spec fn from_spec(v: BandValidationError) -> LetterValidationError {
        LetterValidationError::BandValidation(v)
    }
}

impl From<LetterValidationError> for WordValidationError {
    fn from(value: LetterValidationError) -> (r: WordValidationError)
        ensures
            r == WordValidationError::LetterValidation(value),
    {
        WordValidationError::LetterValidation(value)
    }
}

impl vstd::std_specs::convert::FromSpecImpl<LetterValidationError> for WordValidationError {
    open spec fn obeys_from_spec() -> bool {
        true
    }

    open spec fn from_spec(v: LetterValidationError) -> WordValidationError {
        WordValidationError::LetterValidation(v)
    }
}

impl From<IndexValidationError> for BraidValidationError {
    fn from(value: IndexValidationError) -> (r: BraidValidationError)
        ensures
            r == BraidValidationError::IndexValidation(value),
    {
        BraidValidationError::IndexValidation(value)
    }
}

impl vstd::std_specs::convert::FromSpecImpl<IndexValidationError> for BraidValidationError {
    open spec fn obeys_from_spec() -> bool {
        true
    }

    open spec fn from_spec(v: IndexValidationError) -> BraidValidationError {
        BraidValidationError::IndexValidation(v)
    }
}

impl From<WordValidationError> for BraidValidationError {
    fn from(value: WordValidationError) -> (r: BraidValidationError)
        ensures
            r == BraidValidationError::WordValidation(value),
    {
        BraidValidationError::WordValidation(value)
    }
}

impl vstd::std_specs::convert::FromSpecImpl<WordValidationError> for BraidValidationError {
    open spec fn obeys_from_spec() -> bool {
        true
    }

    open spec fn from_spec(v: WordValidationError) -> BraidValidationError {
        BraidValidationError::WordValidation(v)
    }
}

impl From<std::num::TryFromIntError> for StrandValidationError {
    fn from(value: std::num::TryFromIntError) -> (r: StrandValidationError)
        ensures
            r == StrandValidationError::FromInt(value),
    {
        StrandValidationError::FromInt(value)
    }
}

impl vstd::std_specs::convert::FromSpecImpl<std::num::TryFromIntError> for StrandValidationError {
    open spec fn obeys_from_spec() -> bool {
        true
    }

    open spec fn from_spec(v: std::num::TryFromIntError) -> StrandValidationError {
        StrandValidationError::FromInt(v)
    }
}

impl From<std::num::TryFromIntError> for IndexValidationError {
    fn from(value: std::num::TryFromIntError) -> (r: IndexValidationError)
        ensures
            r == IndexValidationError::FromInt(value),
    {
        IndexValidationError::FromInt(value)
    }
}

impl vstd::std_specs::convert::FromSpecImpl<std::num::TryFromIntError> for IndexValidationError {
    open spec fn obeys_from_spec() -> bool {
        true
    }

    open spec fn from_spec(v: std::num::TryFromIntError) -> IndexValidationError {
        IndexValidationError::FromInt(v)
    }
}

impl From<std::num::TryFromIntError> for WordValidationError {
    fn from(value: std::num::TryFromIntError) -> (r: WordValidationError)
        ensures
            r == WordValidationError::FromInt(value),
    {
        WordValidationError::FromInt(value)
    }
}

impl vstd::std_specs::convert::FromSpecImpl<std::num::TryFromIntError> for WordValidationError {
    open spec fn obeys_from_spec() -> bool {
        true
    }

    open spec fn from_spec(v: std::num::TryFromIntError) -> WordValidationError {
        WordValidationError::FromInt(v)
    }
}

} // verus!
