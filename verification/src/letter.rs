use vstd::prelude::*;

use crate::crossing::{decompose_crossing, Crossing, MAX_BAND_HEIGHT};
use crate::error::{ArtinValidationError, BandValidationError, LetterValidationError};
use crate::generators::{
    artin_try_new_post, artin_views, band_try_new_post, ArtinGenerator, BandGenerator,
};
use crate::index::BraidIndex;
use crate::result::LetterResult;
use crate::sign::Sign;
use crate::strand::Strand;

verus! {

/// A single letter of a braid word: either an Artin generator or a band generator.
///
/// Letters are compared by the crossing they stand for, so an Artin letter equals the band
/// letter of height one with the same foot and sign.
#[derive(Debug, Clone, Copy, Eq)]
pub enum Letter {
    /// A letter wrapping an Artin generator.
    Artin(ArtinGenerator),
    /// A letter wrapping a band generator.
    Band(BandGenerator),
}

impl View for Letter {
    type V = Crossing;

    open spec fn view(&self) -> Crossing {
        match *self {
            Letter::Artin(a) => a@,
            Letter::Band(b) => b@,
        }
    }
}

/// The crossings that a sequence of letters stands for.
pub open spec fn letter_views(s: Seq<Letter>) -> Seq<Crossing> {
    s.map_values(|l: Letter| l@)
}

/// The outcome of building a letter, with the letter replaced by its crossing.
pub open spec fn letter_outcome(r: Result<Letter, LetterValidationError>) -> Result<
    Crossing,
    LetterValidationError,
> {
    match r {
        Ok(l) => Ok(l@),
        Err(e) => Err(e),
    }
}

/// The outcome of building an Artin letter, as the outcome of building its generator.
pub open spec fn artin_outcome(r: Result<Crossing, LetterValidationError>) -> Result<
    Crossing,
    ArtinValidationError,
> {
    match r {
        Ok(c) => Ok(c),
        Err(LetterValidationError::ArtinValidation(e)) => Err(e),
        Err(_) => arbitrary(),
    }
}

/// The outcome of building a band letter, as the outcome of building its generator.
pub open spec fn band_outcome(r: Result<Crossing, LetterValidationError>) -> Result<
    Crossing,
    BandValidationError,
> {
    match r {
        Ok(c) => Ok(c),
        Err(LetterValidationError::BandValidation(e)) => Err(e),
        Err(_) => arbitrary(),
    }
}

/// What [`Letter::try_new`] gives: the Artin letter when no head is given, the band letter
/// otherwise, or the failure of building that generator.
pub open spec fn letter_try_new_post(
    foot: int,
    head: Option<int>,
    sign: Sign,
    r: Result<Letter, LetterValidationError>,
) -> bool {
    match head {
        None => {
            &&& (r matches Ok(l) ==> l is Artin)
            &&& (r is Ok || r matches Err(LetterValidationError::ArtinValidation(_)))
            &&& artin_try_new_post(foot, sign, artin_outcome(letter_outcome(r)))
        },
        Some(h) => {
            &&& (r matches Ok(l) ==> l is Band)
            &&& (r is Ok || r matches Err(LetterValidationError::BandValidation(_)))
            &&& band_try_new_post(foot, h, sign, band_outcome(letter_outcome(r)))
        },
    }
}

/// The head index given to [`Letter::try_new`], as an integer.
pub open spec fn head_index(head: Option<i64>) -> Option<int> {
    match head {
        Some(h) => Some(h as int),
        None => None,
    }
}

/// Whether [`Letter::try_new`] succeeds on the foot `foot` and the head `head`.
pub open spec fn letter_data_valid(foot: int, head: Option<int>) -> bool {
    match head {
        None => 1 <= foot < u16::MAX,
        Some(h) => 1 <= foot < h <= u16::MAX && h - foot <= MAX_BAND_HEIGHT,
    }
}

/// The crossing of the letter that [`Letter::try_new`] builds from valid data.
pub open spec fn letter_data_crossing(foot: int, head: Option<int>, sign: Sign) -> Crossing {
    match head {
        None => Crossing::artin(foot, sign),
        Some(h) => Crossing { foot, head: h, sign },
    }
}

/// The outcome of [`Letter::try_new`] is a success exactly on valid data, and then the letter
/// has the expected crossing.
pub proof fn lemma_letter_try_new_post(
    foot: int,
    head: Option<int>,
    sign: Sign,
    r: Result<Letter, LetterValidationError>,
)
    requires
        letter_try_new_post(foot, head, sign, r),
    ensures
        r is Ok <==> letter_data_valid(foot, head),
        r matches Ok(l) ==> l@ == letter_data_crossing(foot, head, sign),
{
}

impl Letter {
    /// Attempts to build a letter: an Artin letter with the given foot if `head` is [`None`], a
    /// band letter from `foot` to the given head otherwise.
    pub fn try_new(foot: i64, head: Option<i64>, sign: Sign) -> (r: LetterResult)
        ensures
            letter_try_new_post(foot as int, head_index(head), sign, r@),
    {
        match head {
            Some(head) => match BandGenerator::try_new(foot, head, sign).into_result() {
                Ok(band) => LetterResult::from_ok(Letter::Band(band)),
                Err(e) => LetterResult::from_err(LetterValidationError::from(e)),
            },
            None => match ArtinGenerator::try_new(foot, sign).into_result() {
                Ok(artin) => LetterResult::from_ok(Letter::Artin(artin)),
                Err(e) => LetterResult::from_err(LetterValidationError::from(e)),
            },
        }
    }

    /// Like [`Letter::try_new`], returning a plain [`Result`].
    pub fn new(foot: i64, head: Option<i64>, sign: Sign) -> (r: Result<Letter, LetterValidationError>)
        ensures
            letter_try_new_post(foot as int, head_index(head), sign, r),
    {
        Letter::try_new(foot, head, sign).into_result()
    }

    /// The crossing of a letter is valid.
    pub(crate) fn witness_valid(&self)
        ensures
            self@.is_valid(),
            self is Artin ==> self@.is_artin(),
    {
        match self {
            Letter::Artin(artin) => {
                proof {
                    use_type_invariant(artin);
                }
            },
            Letter::Band(band) => {
                proof {
                    use_type_invariant(band);
                }
            },
        }
    }

    /// The Artin letters that the letter stands for: the letter itself if it is an Artin
    /// letter, the decomposition of its band otherwise.
    pub fn decompose(&self) -> (r: Vec<Letter>)
        ensures
            letter_views(r@) == decompose_crossing(self@),
            forall|i: int| 0 <= i < r@.len() ==> #[trigger] r@[i] is Artin,
            self is Artin ==> r@ == seq![*self],
    {
        match self {
            Letter::Artin(_) => {
                let mut r = Vec::new();
                r.push(*self);
                self.witness_valid();
                proof {
                    assert(letter_views(r@) =~= decompose_crossing(self@));
                }
                r
            },
            Letter::Band(band) => {
                let parts = band.decompose();
                let mut r: Vec<Letter> = Vec::new();
                let mut k: usize = 0;
                while k < parts.len()
                    invariant
                        0 <= k <= parts@.len(),
                        r@.len() == k,
                        forall|j: int|
                            0 <= j < k ==> #[trigger] r@[j] == Letter::Artin(parts@[j]),
                    decreases parts@.len() - k,
                {
                    r.push(Letter::Artin(parts[k]));
                    k = k + 1;
                }
                proof {
                    assert(letter_views(r@) =~= artin_views(parts@));
                }
                r
            },
        }
    }

    /// The sign of the letter.
    pub fn sign(&self) -> (r: Sign)
        ensures
            r == self@.sign,
    {
        match self {
            Letter::Artin(artin) => artin.sign(),
            Letter::Band(band) => band.sign(),
        }
    }

    /// The foot strand of the letter.
    pub fn foot(&self) -> (r: Strand)
        ensures
            r@ == self@.foot,
    {
        match self {
            Letter::Artin(artin) => artin.foot(),
            Letter::Band(band) => band.foot(),
        }
    }

    /// The head strand of the letter.
    pub fn head(&self) -> (r: Strand)
        ensures
            r@ == self@.head,
    {
        match self {
            Letter::Artin(artin) => artin.head(),
            Letter::Band(band) => band.head(),
        }
    }

    /// The inverse letter: the same generator with the opposite sign.
    pub fn inverse(&self) -> (r: Letter)
        ensures
            r@ == self@.inverse(),
            self is Artin <==> r is Artin,
    {
        match self {
            Letter::Artin(artin) => Letter::Artin(artin.inverse()),
            Letter::Band(band) => Letter::Band(band.inverse()),
        }
    }

    /// Whether the letter crosses adjacent strands.
    pub fn is_artin(&self) -> (r: bool)
        ensures
            r == self@.is_artin(),
    {
        self.witness_valid();
        match self {
            Letter::Artin(_) => true,
            Letter::Band(band) => band.is_artin(),
        }
    }

    /// The distance from the foot strand to the head strand.
    pub fn height(&self) -> (r: u16)
        ensures
            r == self@.height(),
    {
        self.witness_valid();
        match self {
            Letter::Artin(_) => 1,
            Letter::Band(band) => band.height(),
        }
    }

    /// The number of Artin generators the letter stands for.
    pub fn artin_length(&self) -> (r: u16)
        ensures
            r == self@.artin_len(),
    {
        self.witness_valid();
        match self {
            Letter::Artin(_) => 1,
            Letter::Band(band) => band.artin_length(),
        }
    }

    /// The smallest braid index accommodating the letter: its head strand.
    pub fn minimal_required_braid_index(&self) -> (r: BraidIndex)
        ensures
            r@ == self@.min_index(),
    {
        match self {
            Letter::Artin(artin) => artin.minimal_required_braid_index(),
            Letter::Band(band) => band.minimal_required_braid_index(),
        }
    }
}

impl From<ArtinGenerator> for Letter {
    fn from(value: ArtinGenerator) -> (r: Letter)
        ensures
            r == Letter::Artin(value),
    {
        Letter::Artin(value)
    }
}

impl vstd::std_specs::convert::FromSpecImpl<ArtinGenerator> for Letter {
    open spec fn obeys_from_spec() -> bool {
        true
    }

    open spec fn from_spec(v: ArtinGenerator) -> Letter {
        Letter::Artin(v)
    }
}

impl From<BandGenerator> for Letter {
    fn from(value: BandGenerator) -> (r: Letter)
        ensures
            r == Letter::Band(value),
    {
        Letter::Band(value)
    }
}

impl vstd::std_specs::convert::FromSpecImpl<BandGenerator> for Letter {
    open spec fn obeys_from_spec() -> bool {
        true
    }

    open spec fn from_spec(v: BandGenerator) -> Letter {
        Letter::Band(v)
    }
}

impl PartialEq for Letter {
    fn eq(&self, other: &Letter) -> (r: bool)
        ensures
            r == (self@ == other@),
    {
        match (self, other) {
            (Letter::Artin(lhs), Letter::Artin(rhs)) => lhs == rhs,
            (Letter::Artin(lhs), Letter::Band(rhs)) => {
                proof {
                    use_type_invariant(rhs);
                    use_type_invariant(lhs);
                }
                rhs.is_artin() && *lhs == ArtinGenerator::from_foot(rhs.foot().value(), rhs.sign())
            },
            (Letter::Band(lhs), Letter::Artin(rhs)) => {
                proof {
                    use_type_invariant(rhs);
                    use_type_invariant(lhs);
                }
                lhs.is_artin() && ArtinGenerator::from_foot(lhs.foot().value(), lhs.sign()) == *rhs
            },
            (Letter::Band(lhs), Letter::Band(rhs)) => lhs == rhs,
        }
    }
}

impl vstd::std_specs::cmp::PartialEqSpecImpl for Letter {
    open spec fn obeys_eq_spec() -> bool {
        true
    }

    open spec fn eq_spec(&self, other: &Letter) -> bool {
        self@ == other@
    }
}

} // verus!
