use vstd::prelude::*;

use crate::crossing::Crossing;
use crate::error::{ArtinValidationError, StrandValidationError};
use crate::generators::BandGenerator;
use crate::index::BraidIndex;
use crate::letter::Letter;
use crate::result::ArtinResult;
use crate::sign::Sign;
use crate::strand::{outside_u16, Strand};

verus! {

/// A generator of the braid group in its standard (Artin) presentation: the crossing of the foot
/// strand with the strand directly above it.
#[derive(Debug, Clone, Copy, Eq)]
pub struct ArtinGenerator {
    foot: Strand,
    sign: Sign,
}

impl View for ArtinGenerator {
    type V = Crossing;

    closed spec fn view(&self) -> Crossing {
        Crossing::artin(self.foot@, self.sign)
    }
}

/// The crossings that a sequence of Artin generators stands for.
pub open spec fn artin_views(s: Seq<ArtinGenerator>) -> Seq<Crossing> {
    s.map_values(|a: ArtinGenerator| a@)
}

/// What [`ArtinGenerator::try_new`] gives for the foot index `foot` and the sign `sign`.
pub open spec fn artin_try_new_post(
    foot: int,
    sign: Sign,
    r: Result<Crossing, ArtinValidationError>,
) -> bool {
    if outside_u16(foot) {
        r matches Err(ArtinValidationError::StrandValidation(StrandValidationError::FromInt(_)))
    } else if foot == 0 {
        r == Err::<Crossing, ArtinValidationError>(
            ArtinValidationError::StrandValidation(StrandValidationError::Zero),
        )
    } else if foot == u16::MAX {
        r == Err::<Crossing, ArtinValidationError>(ArtinValidationError::InvalidHead)
    } else {
        r == Ok::<Crossing, ArtinValidationError>(Crossing::artin(foot, sign))
    }
}

impl ArtinGenerator {
    /// The foot strand is positive and the head strand above it exists.
    #[verifier::type_invariant]
    pub open spec fn inv(self) -> bool {
        self@.is_valid_artin()
    }

    /// The generator crossing the strands `foot` and `foot + 1`, for a foot already validated.
    pub(crate) fn from_foot(foot: u16, sign: Sign) -> (a: ArtinGenerator)
        requires
            1 <= foot < u16::MAX,
        ensures
            a@ == Crossing::artin(foot as int, sign),
    {
        ArtinGenerator { foot: Strand::from_positive(foot), sign }
    }

    /// Attempts to build the Artin generator with the given foot strand and sign.
    ///
    /// Fails if the foot strand cannot be built, or if it is [`u16::MAX`] (there is no strand
    /// above it).
    pub fn try_new(foot: i64, sign: Sign) -> (r: ArtinResult)
        ensures
            artin_try_new_post(foot as int, sign, r@),
    {
        let foot = match Strand::try_new(foot).into_result() {
            Ok(foot) => foot,
            Err(e) => return ArtinResult::from_err(ArtinValidationError::from(e)),
        };
        if foot.value() == u16::MAX {
            ArtinResult::from_err(ArtinValidationError::InvalidHead)
        } else {
            ArtinResult::from_ok(ArtinGenerator::from_foot(foot.value(), sign))
        }
    }

    /// Converts a band generator of height one; fails with [`ArtinValidationError::FromBand`]
    /// for any other band.
    pub fn try_from_band(band: BandGenerator) -> (r: ArtinResult)
        ensures
            band@.is_artin() ==> r@ == Ok::<Crossing, ArtinValidationError>(band@),
            !band@.is_artin() ==> r@ == Err::<Crossing, ArtinValidationError>(
                ArtinValidationError::FromBand(band),
            ),
    {
        proof {
            use_type_invariant(&band);
        }
        if band.is_artin() {
            ArtinResult::from_ok(ArtinGenerator::from_foot(band.foot().value(), band.sign()))
        } else {
            ArtinResult::from_err(ArtinValidationError::FromBand(band))
        }
    }

    /// Converts a letter that crosses adjacent strands; fails with
    /// [`ArtinValidationError::FromBand`] for any other letter.
    pub fn try_from_letter(letter: Letter) -> (r: ArtinResult)
        ensures
            letter@.is_artin() ==> r@ == Ok::<Crossing, ArtinValidationError>(letter@),
            letter matches Letter::Band(band) ==> (!band@.is_artin() ==> r@ == Err::<
                Crossing,
                ArtinValidationError,
            >(ArtinValidationError::FromBand(band))),
    {
        match letter {
            Letter::Artin(artin) => ArtinResult::from_ok(artin),
            Letter::Band(band) => ArtinGenerator::try_from_band(band),
        }
    }

    /// The foot strand.
    pub fn foot(&self) -> (r: Strand)
        ensures
            r@ == self@.foot,
    {
        self.foot
    }

    /// The sign of the crossing.
    pub fn sign(&self) -> (r: Sign)
        ensures
            r == self@.sign,
    {
        self.sign
    }

    /// The head strand: the strand directly above the foot.
    pub fn head(&self) -> (r: Strand)
        ensures
            r@ == self@.head,
    {
        proof {
            use_type_invariant(self);
        }
        Strand::from_positive(self.foot.value() + 1)
    }

    /// The same crossing with the opposite sign.
    pub fn inverse(&self) -> (r: ArtinGenerator)
        ensures
            r@ == self@.inverse(),
    {
        proof {
            use_type_invariant(self);
        }
        ArtinGenerator { foot: self.foot, sign: std::ops::Neg::neg(self.sign) }
    }

    /// The smallest braid index accommodating the generator: its head strand.
    pub fn minimal_required_braid_index(&self) -> (r: BraidIndex)
        ensures
            r@ == self@.min_index(),
    {
        BraidIndex::from(self.head())
    }

    /// Two Artin generators are equal exactly when their crossings are.
    pub broadcast proof fn lemma_view_injective(a: ArtinGenerator, b: ArtinGenerator)
        ensures
            #[trigger] a@ == #[trigger] b@ <==> a == b,
    {
        if a@ == b@ {
            Strand::lemma_view_injective(a.foot, b.foot);
        }
    }
}

impl PartialEq for ArtinGenerator {
    fn eq(&self, other: &ArtinGenerator) -> (r: bool)
        ensures
            r == (self@ == other@),
    {
        self.foot == other.foot && self.sign == other.sign
    }
}

impl vstd::std_specs::cmp::PartialEqSpecImpl for ArtinGenerator {
    open spec fn obeys_eq_spec() -> bool {
        true
    }

    open spec fn eq_spec(&self, other: &ArtinGenerator) -> bool {
        self@ == other@
    }
}

} // verus!
