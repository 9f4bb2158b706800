use vstd::prelude::*;

use crate::braid::{Braid, BraidModel};
use crate::crossing::Crossing;
use crate::error::{
    ArtinValidationError, BandValidationError, IndexValidationError, LetterValidationError,
    StrandValidationError, WordValidationError, BraidValidationError,
};
use crate::generators::{ArtinGenerator, BandGenerator};
use crate::index::BraidIndex;
use crate::letter::Letter;
use crate::strand::Strand;
use crate::word::Word;

verus! {

/// The outcome of building a [`Strand`]: a new-type around `Result<Strand, StrandValidationError>`
/// that dereferences to it.
#[derive(Debug, PartialEq, Eq, Clone, Copy)]
pub struct StrandResult(Result<Strand, StrandValidationError>);

impl View for StrandResult {
    type V = Result<int, StrandValidationError>;

    closed spec fn view(&self) -> Result<int, StrandValidationError> {
        match self.0 {
            Ok(s) => Ok(s@),
            Err(e) => Err(e),
        }
    }
}

impl StrandResult {
    /// Wraps a strand.
    pub fn from_ok(value: Strand) -> (r: StrandResult)
        ensures
            r@ == Ok::<int, StrandValidationError>(value@),
    {
        StrandResult(Ok(value))
    }

    /// Wraps an error.
    pub fn from_err(error: StrandValidationError) -> (r: StrandResult)
        ensures
            r@ == Err::<int, StrandValidationError>(error),
    {
        StrandResult(Err(error))
    }

    /// The wrapped result.
    pub fn into_result(self) -> (r: Result<Strand, StrandValidationError>)
        ensures
            r is Ok <==> self@ is Ok,
            r matches Ok(s) ==> self@ == Ok::<int, StrandValidationError>(s@),
            r matches Err(e) ==> self@ == Err::<int, StrandValidationError>(e),
    {
        self.0
    }
}

/// The outcome of building a [`BraidIndex`]: a new-type around
/// `Result<BraidIndex, IndexValidationError>` that dereferences to it.
#[derive(Debug, PartialEq, Eq, Clone, Copy)]
pub struct IndexResult(Result<BraidIndex, IndexValidationError>);

impl View for IndexResult {
    type V = Result<int, IndexValidationError>;

    closed spec fn view(&self) -> Result<int, IndexValidationError> {
        match self.0 {
            Ok(s) => Ok(s@),
            Err(e) => Err(e),
        }
    }
}

impl IndexResult {
    /// Wraps a braid index.
    pub fn from_ok(value: BraidIndex) -> (r: IndexResult)
        ensures
            r@ == Ok::<int, IndexValidationError>(value@),
    {
        IndexResult(Ok(value))
    }

    /// Wraps an error.
    pub fn from_err(error: IndexValidationError) -> (r: IndexResult)
        ensures
            r@ == Err::<int, IndexValidationError>(error),
    {
        IndexResult(Err(error))
    }

    /// The wrapped result.
    pub fn into_result(self) -> (r: Result<BraidIndex, IndexValidationError>)
        ensures
            r is Ok <==> self@ is Ok,
            r matches Ok(s) ==> self@ == Ok::<int, IndexValidationError>(s@),
            r matches Err(e) ==> self@ == Err::<int, IndexValidationError>(e),
    {
        self.0
    }
}

/// The outcome of building an [`ArtinGenerator`]: a new-type around `Result<ArtinGenerator, ArtinValidationError>` that dereferences to it.
#[derive(Debug, PartialEq, Eq, Clone, Copy)]
pub struct ArtinResult(Result<ArtinGenerator, ArtinValidationError>);

impl View for ArtinResult {
    type V = Result<Crossing, ArtinValidationError>;

    closed spec fn view(&self) -> Result<Crossing, ArtinValidationError> {
        match self.0 {
            Ok(v) => Ok(v@),
            Err(e) => Err(e),
        }
    }
}

impl ArtinResult {
    /// Wraps a value.
    pub fn from_ok(value: ArtinGenerator) -> (r: ArtinResult)
        ensures
            r@ == Ok::<Crossing, ArtinValidationError>(value@),
    {
        ArtinResult(Ok(value))
    }

    /// Wraps an error.
    pub fn from_err(error: ArtinValidationError) -> (r: ArtinResult)
        ensures
            r@ == Err::<Crossing, ArtinValidationError>(error),
    {
        ArtinResult(Err(error))
    }

    /// The wrapped result.
    pub fn into_result(self) -> (r: Result<ArtinGenerator, ArtinValidationError>)
        ensures
            r is Ok <==> self@ is Ok,
            r matches Ok(v) ==> self@ == Ok::<Crossing, ArtinValidationError>(v@),
            r matches Err(e) ==> self@ == Err::<Crossing, ArtinValidationError>(e),
    {
        self.0
    }
}

/// The outcome of building a [`BandGenerator`]: a new-type around `Result<BandGenerator, BandValidationError>` that dereferences to it.
#[derive(Debug, PartialEq, Eq, Clone, Copy)]
pub struct BandResult(Result<BandGenerator, BandValidationError>);

impl View for BandResult {
    type V = Result<Crossing, BandValidationError>;

    closed spec fn view(&self) -> Result<Crossing, BandValidationError> {
        match self.0 {
            Ok(v) => Ok(v@),
            Err(e) => Err(e),
        }
    }
}

impl BandResult {
    /// Wraps a value.
    pub fn from_ok(value: BandGenerator) -> (r: BandResult)
        ensures
            r@ == Ok::<Crossing, BandValidationError>(value@),
    {
        BandResult(Ok(value))
    }

    /// Wraps an error.
    pub fn from_err(error: BandValidationError) -> (r: BandResult)
        ensures
            r@ == Err::<Crossing, BandValidationError>(error),
    {
        BandResult(Err(error))
    }

    /// The wrapped result.
    pub fn into_result(self) -> (r: Result<BandGenerator, BandValidationError>)
        ensures
            r is Ok <==> self@ is Ok,
            r matches Ok(v) ==> self@ == Ok::<Crossing, BandValidationError>(v@),
            r matches Err(e) ==> self@ == Err::<Crossing, BandValidationError>(e),
    {
        self.0
    }
}

/// The outcome of building a [`Letter`]: a new-type around `Result<Letter, LetterValidationError>` that dereferences to it.
#[derive(Debug, PartialEq, Eq, Clone, Copy)]
pub struct LetterResult(Result<Letter, LetterValidationError>);

impl View for LetterResult {
    type V = Result<Letter, LetterValidationError>;

    closed spec fn view(&self) -> Result<Letter, LetterValidationError> {
        match self.0 {
            Ok(v) => Ok(v),
            Err(e) => Err(e),
        }
    }
}

impl LetterResult {
    /// Wraps a value.
    pub fn from_ok(value: Letter) -> (r: LetterResult)
        ensures
            r@ == Ok::<Letter, LetterValidationError>(value),
    {
        LetterResult(Ok(value))
    }

    /// Wraps an error.
    pub fn from_err(error: LetterValidationError) -> (r: LetterResult)
        ensures
            r@ == Err::<Letter, LetterValidationError>(error),
    {
        LetterResult(Err(error))
    }

    /// The wrapped result.
    pub fn into_result(self) -> (r: Result<Letter, LetterValidationError>)
        ensures
            r is Ok <==> self@ is Ok,
            r matches Ok(v) ==> self@ == Ok::<Letter, LetterValidationError>(v),
            r matches Err(e) ==> self@ == Err::<Letter, LetterValidationError>(e),
    {
        self.0
    }
}

/// The outcome of building or multiplying a [`Word`]: a new-type around
/// `Result<Word, WordValidationError>` that dereferences to it.
#[derive(Debug, PartialEq, Eq)]
pub struct WordResult(Result<Word, WordValidationError>);

impl View for WordResult {
    type V = Result<Seq<Letter>, WordValidationError>;

    closed spec fn view(&self) -> Result<Seq<Letter>, WordValidationError> {
        match self.0 {
            Ok(w) => Ok(w@),
            Err(e) => Err(e),
        }
    }
}

impl WordResult {
    /// Wraps a word.
    pub fn from_ok(value: Word) -> (r: WordResult)
        ensures
            r@ == Ok::<Seq<Letter>, WordValidationError>(value@),
    {
        WordResult(Ok(value))
    }

    /// Wraps an error.
    pub fn from_err(error: WordValidationError) -> (r: WordResult)
        ensures
            r@ == Err::<Seq<Letter>, WordValidationError>(error),
    {
        WordResult(Err(error))
    }

    /// A copy of the wrapped word; the result must be a success.
    pub fn clone_unwrap(&self) -> (r: Word)
        requires
            self@ is Ok,
        ensures
            self@ == Ok::<Seq<Letter>, WordValidationError>(r@),
    {
        match &self.0 {
            Ok(w) => w.clone(),
            Err(_) => {
                proof {
                    assert(false);
                }
                Word::trivial()
            },
        }
    }

    /// A copy of the wrapped error; the result must be a failure.
    pub fn clone_unwrap_err(&self) -> (r: WordValidationError)
        requires
            self@ is Err,
        ensures
            self@ == Err::<Seq<Letter>, WordValidationError>(r),
    {
        match &self.0 {
            Ok(_) => {
                proof {
                    assert(false);
                }
                WordValidationError::TooLong(0)
            },
            Err(e) => *e,
        }
    }

    /// The wrapped result, borrowed.
    pub(crate) fn as_result(&self) -> (r: &Result<Word, WordValidationError>)
        ensures
            r is Ok <==> self@ is Ok,
            r matches Ok(w) ==> self@ == Ok::<Seq<Letter>, WordValidationError>(w@),
            r matches Err(e) ==> self@ == Err::<Seq<Letter>, WordValidationError>(*e),
    {
        &self.0
    }

    /// The wrapped result.
    pub fn into_result(self) -> (r: Result<Word, WordValidationError>)
        ensures
            r is Ok <==> self@ is Ok,
            r matches Ok(w) ==> self@ == Ok::<Seq<Letter>, WordValidationError>(w@),
            r matches Err(e) ==> self@ == Err::<Seq<Letter>, WordValidationError>(e),
    {
        self.0
    }
}

impl std::ops::Deref for StrandResult {
    type Target = Result<Strand, StrandValidationError>;

    fn deref(&self) -> (r: &Result<Strand, StrandValidationError>)
        ensures
            r is Ok <==> self@ is Ok,
            r matches Ok(s) ==> self@ == Ok::<int, StrandValidationError>(s@),
            r matches Err(e) ==> self@ == Err::<int, StrandValidationError>(*e),
    {
        &self.0
    }
}

impl From<Result<Strand, StrandValidationError>> for StrandResult {
    fn from(value: Result<Strand, StrandValidationError>) -> (r: StrandResult)
        ensures
            r@ == match value {
                Ok(s) => Ok::<int, StrandValidationError>(s@),
                Err(e) => Err::<int, StrandValidationError>(e),
            },
    {
        StrandResult(value)
    }
}

impl vstd::std_specs::convert::FromSpecImpl<Result<Strand, StrandValidationError>> for StrandResult {
    open spec fn obeys_from_spec() -> bool {
        true
    }

    closed spec fn from_spec(v: Result<Strand, StrandValidationError>) -> StrandResult {
        StrandResult(v)
    }
}

impl From<Strand> for StrandResult {
    fn from(value: Strand) -> (r: StrandResult)
        ensures
            r@ == Ok::<int, StrandValidationError>(value@),
    {
        StrandResult(Ok(value))
    }
}

impl vstd::std_specs::convert::FromSpecImpl<Strand> for StrandResult {
    open spec fn obeys_from_spec() -> bool {
        true
    }

    closed spec fn from_spec(v: Strand) -> StrandResult {
        StrandResult(Ok(v))
    }
}

impl From<StrandValidationError> for StrandResult {
    fn from(value: StrandValidationError) -> (r: StrandResult)
        ensures
            r@ == Err::<int, StrandValidationError>(value),
    {
        StrandResult(Err(value))
    }
}

impl vstd::std_specs::convert::FromSpecImpl<StrandValidationError> for StrandResult {
    open spec fn obeys_from_spec() -> bool {
        true
    }

    closed spec fn from_spec(v: StrandValidationError) -> StrandResult {
        StrandResult(Err(v))
    }
}

impl std::ops::Deref for IndexResult {
    type Target = Result<BraidIndex, IndexValidationError>;

    fn deref(&self) -> (r: &Result<BraidIndex, IndexValidationError>)
        ensures
            r is Ok <==> self@ is Ok,
            r matches Ok(s) ==> self@ == Ok::<int, IndexValidationError>(s@),
            r matches Err(e) ==> self@ == Err::<int, IndexValidationError>(*e),
    {
        &self.0
    }
}

impl From<Result<BraidIndex, IndexValidationError>> for IndexResult {
    fn from(value: Result<BraidIndex, IndexValidationError>) -> (r: IndexResult)
        ensures
            r@ == match value {
                Ok(s) => Ok::<int, IndexValidationError>(s@),
                Err(e) => Err::<int, IndexValidationError>(e),
            },
    {
        IndexResult(value)
    }
}

impl vstd::std_specs::convert::FromSpecImpl<Result<BraidIndex, IndexValidationError>> for IndexResult {
    open spec fn obeys_from_spec() -> bool {
        true
    }

    closed spec fn from_spec(v: Result<BraidIndex, IndexValidationError>) -> IndexResult {
        IndexResult(v)
    }
}

impl From<BraidIndex> for IndexResult {
    fn from(value: BraidIndex) -> (r: IndexResult)
        ensures
            r@ == Ok::<int, IndexValidationError>(value@),
    {
        IndexResult(Ok(value))
    }
}

impl vstd::std_specs::convert::FromSpecImpl<BraidIndex> for IndexResult {
    open spec fn obeys_from_spec() -> bool {
        true
    }

    closed spec fn from_spec(v: BraidIndex) -> IndexResult {
        IndexResult(Ok(v))
    }
}

impl From<IndexValidationError> for IndexResult {
    fn from(value: IndexValidationError) -> (r: IndexResult)
        ensures
            r@ == Err::<int, IndexValidationError>(value),
    {
        IndexResult(Err(value))
    }
}

impl vstd::std_specs::convert::FromSpecImpl<IndexValidationError> for IndexResult {
    open spec fn obeys_from_spec() -> bool {
        true
    }

    closed spec fn from_spec(v: IndexValidationError) -> IndexResult {
        IndexResult(Err(v))
    }
}

impl std::ops::Deref for ArtinResult {
    type Target = Result<ArtinGenerator, ArtinValidationError>;

    fn deref(&self) -> (r: &Result<ArtinGenerator, ArtinValidationError>)
        ensures
            r is Ok <==> self@ is Ok,
            r matches Ok(s) ==> self@ == Ok::<Crossing, ArtinValidationError>(s@),
            r matches Err(e) ==> self@ == Err::<Crossing, ArtinValidationError>(*e),
    {
        &self.0
    }
}

impl From<Result<ArtinGenerator, ArtinValidationError>> for ArtinResult {
    fn from(value: Result<ArtinGenerator, ArtinValidationError>) -> (r: ArtinResult)
        ensures
            r@ == match value {
                Ok(s) => Ok::<Crossing, ArtinValidationError>(s@),
                Err(e) => Err::<Crossing, ArtinValidationError>(e),
            },
    {
        ArtinResult(value)
    }
}

impl vstd::std_specs::convert::FromSpecImpl<Result<ArtinGenerator, ArtinValidationError>> for ArtinResult {
    open spec fn obeys_from_spec() -> bool {
        true
    }

    closed spec fn from_spec(v: Result<ArtinGenerator, ArtinValidationError>) -> ArtinResult {
        ArtinResult(v)
    }
}

impl From<ArtinGenerator> for ArtinResult {
    fn from(value: ArtinGenerator) -> (r: ArtinResult)
        ensures
            r@ == Ok::<Crossing, ArtinValidationError>(value@),
    {
        ArtinResult(Ok(value))
    }
}

impl vstd::std_specs::convert::FromSpecImpl<ArtinGenerator> for ArtinResult {
    open spec fn obeys_from_spec() -> bool {
        true
    }

    closed spec fn from_spec(v: ArtinGenerator) -> ArtinResult {
        ArtinResult(Ok(v))
    }
}

impl From<ArtinValidationError> for ArtinResult {
    fn from(value: ArtinValidationError) -> (r: ArtinResult)
        ensures
            r@ == Err::<Crossing, ArtinValidationError>(value),
    {
        ArtinResult(Err(value))
    }
}

impl vstd::std_specs::convert::FromSpecImpl<ArtinValidationError> for ArtinResult {
    open spec fn obeys_from_spec() -> bool {
        true
    }

    closed spec fn from_spec(v: ArtinValidationError) -> ArtinResult {
        ArtinResult(Err(v))
    }
}

impl std::ops::Deref for BandResult {
    type Target = Result<BandGenerator, BandValidationError>;

    fn deref(&self) -> (r: &Result<BandGenerator, BandValidationError>)
        ensures
            r is Ok <==> self@ is Ok,
            r matches Ok(s) ==> self@ == Ok::<Crossing, BandValidationError>(s@),
            r matches Err(e) ==> self@ == Err::<Crossing, BandValidationError>(*e),
    {
        &self.0
    }
}

impl From<Result<BandGenerator, BandValidationError>> for BandResult {
    fn from(value: Result<BandGenerator, BandValidationError>) -> (r: BandResult)
        ensures
            r@ == match value {
                Ok(s) => Ok::<Crossing, BandValidationError>(s@),
                Err(e) => Err::<Crossing, BandValidationError>(e),
            },
    {
        BandResult(value)
    }
}

impl vstd::std_specs::convert::FromSpecImpl<Result<BandGenerator, BandValidationError>> for BandResult {
    open spec fn obeys_from_spec() -> bool {
        true
    }

    closed spec fn from_spec(v: Result<BandGenerator, BandValidationError>) -> BandResult {
        BandResult(v)
    }
}

impl From<BandGenerator> for BandResult {
    fn from(value: BandGenerator) -> (r: BandResult)
        ensures
            r@ == Ok::<Crossing, BandValidationError>(value@),
    {
        BandResult(Ok(value))
    }
}

impl vstd::std_specs::convert::FromSpecImpl<BandGenerator> for BandResult {
    open spec fn obeys_from_spec() -> bool {
        true
    }

    closed spec fn from_spec(v: BandGenerator) -> BandResult {
        BandResult(Ok(v))
    }
}

impl From<BandValidationError> for BandResult {
    fn from(value: BandValidationError) -> (r: BandResult)
        ensures
            r@ == Err::<Crossing, BandValidationError>(value),
    {
        BandResult(Err(value))
    }
}

impl vstd::std_specs::convert::FromSpecImpl<BandValidationError> for BandResult {
    open spec fn obeys_from_spec() -> bool {
        true
    }

    closed spec fn from_spec(v: BandValidationError) -> BandResult {
        BandResult(Err(v))
    }
}

impl std::ops::Deref for LetterResult {
    type Target = Result<Letter, LetterValidationError>;

    fn deref(&self) -> (r: &Result<Letter, LetterValidationError>)
        ensures
            r is Ok <==> self@ is Ok,
            r matches Ok(s) ==> self@ == Ok::<Letter, LetterValidationError>(*s),
            r matches Err(e) ==> self@ == Err::<Letter, LetterValidationError>(*e),
    {
        &self.0
    }
}

impl From<Result<Letter, LetterValidationError>> for LetterResult {
    fn from(value: Result<Letter, LetterValidationError>) -> (r: LetterResult)
        ensures
            r@ == match value {
                Ok(s) => Ok::<Letter, LetterValidationError>(s),
                Err(e) => Err::<Letter, LetterValidationError>(e),
            },
    {
        LetterResult(value)
    }
}

impl vstd::std_specs::convert::FromSpecImpl<Result<Letter, LetterValidationError>> for LetterResult {
    open spec fn obeys_from_spec() -> bool {
        true
    }

    closed spec fn from_spec(v: Result<Letter, LetterValidationError>) -> LetterResult {
        LetterResult(v)
    }
}

impl From<Letter> for LetterResult {
    fn from(value: Letter) -> (r: LetterResult)
        ensures
            r@ == Ok::<Letter, LetterValidationError>(value),
    {
        LetterResult(Ok(value))
    }
}

impl vstd::std_specs::convert::FromSpecImpl<Letter> for LetterResult {
    open spec fn obeys_from_spec() -> bool {
        true
    }

    closed spec fn from_spec(v: Letter) -> LetterResult {
        LetterResult(Ok(v))
    }
}

impl From<LetterValidationError> for LetterResult {
    fn from(value: LetterValidationError) -> (r: LetterResult)
        ensures
            r@ == Err::<Letter, LetterValidationError>(value),
    {
        LetterResult(Err(value))
    }
}

impl vstd::std_specs::convert::FromSpecImpl<LetterValidationError> for LetterResult {
    open spec fn obeys_from_spec() -> bool {
        true
    }

    closed spec fn from_spec(v: LetterValidationError) -> LetterResult {
        LetterResult(Err(v))
    }
}

impl std::ops::Deref for WordResult {
    type Target = Result<Word, WordValidationError>;

    fn deref(&self) -> (r: &Result<Word, WordValidationError>)
        ensures
            r is Ok <==> self@ is Ok,
            r matches Ok(s) ==> self@ == Ok::<Seq<Letter>, WordValidationError>(s@),
            r matches Err(e) ==> self@ == Err::<Seq<Letter>, WordValidationError>(*e),
    {
        &self.0
    }
}

impl From<Result<Word, WordValidationError>> for WordResult {
    fn from(value: Result<Word, WordValidationError>) -> (r: WordResult)
        ensures
            r@ == match value {
                Ok(s) => Ok::<Seq<Letter>, WordValidationError>(s@),
                Err(e) => Err::<Seq<Letter>, WordValidationError>(e),
            },
    {
        WordResult(value)
    }
}

impl vstd::std_specs::convert::FromSpecImpl<Result<Word, WordValidationError>> for WordResult {
    open spec fn obeys_from_spec() -> bool {
        true
    }

    closed spec fn from_spec(v: Result<Word, WordValidationError>) -> WordResult {
        WordResult(v)
    }
}

impl From<Word> for WordResult {
    fn from(value: Word) -> (r: WordResult)
        ensures
            r@ == Ok::<Seq<Letter>, WordValidationError>(value@),
    {
        WordResult(Ok(value))
    }
}

impl vstd::std_specs::convert::FromSpecImpl<Word> for WordResult {
    open spec fn obeys_from_spec() -> bool {
        true
    }

    closed spec fn from_spec(v: Word) -> WordResult {
        WordResult(Ok(v))
    }
}

impl From<WordValidationError> for WordResult {
    fn from(value: WordValidationError) -> (r: WordResult)
        ensures
            r@ == Err::<Seq<Letter>, WordValidationError>(value),
    {
        WordResult(Err(value))
    }
}

impl vstd::std_specs::convert::FromSpecImpl<WordValidationError> for WordResult {
    open spec fn obeys_from_spec() -> bool {
        true
    }

    closed spec fn from_spec(v: WordValidationError) -> WordResult {
        WordResult(Err(v))
    }
}

/// The outcome of building or multiplying a [`Braid`]: a new-type around
/// `Result<Braid, BraidValidationError>` that dereferences to it.
#[derive(Debug, PartialEq, Eq)]
pub struct BraidResult(Result<Braid, BraidValidationError>);

impl View for BraidResult {
    type V = Result<BraidModel, BraidValidationError>;

    closed spec fn view(&self) -> Result<BraidModel, BraidValidationError> {
        match self.0 {
            Ok(b) => Ok(b@),
            Err(e) => Err(e),
        }
    }
}

impl BraidResult {
    /// Wraps a braid.
    pub fn from_ok(value: Braid) -> (r: BraidResult)
        ensures
            r@ == Ok::<BraidModel, BraidValidationError>(value@),
    {
        BraidResult(Ok(value))
    }

    /// Wraps an error.
    pub fn from_err(error: BraidValidationError) -> (r: BraidResult)
        ensures
            r@ == Err::<BraidModel, BraidValidationError>(error),
    {
        BraidResult(Err(error))
    }

    /// A copy of the wrapped braid; the result must be a success.
    pub fn clone_unwrap(&self) -> (r: Braid)
        requires
            self@ is Ok,
        ensures
            self@ == Ok::<BraidModel, BraidValidationError>(r@),
    {
        match &self.0 {
            Ok(b) => b.clone(),
            Err(_) => {
                proof {
                    assert(false);
                }
                Braid::default()
            },
        }
    }

    /// A copy of the wrapped error; the result must be a failure.
    pub fn clone_unwrap_err(&self) -> (r: BraidValidationError)
        requires
            self@ is Err,
        ensures
            self@ == Err::<BraidModel, BraidValidationError>(r),
    {
        match &self.0 {
            Ok(_) => {
                proof {
                    assert(false);
                }
                BraidValidationError::WordValidation(WordValidationError::TooLong(0))
            },
            Err(e) => *e,
        }
    }

    /// The wrapped result.
    pub fn into_result(self) -> (r: Result<Braid, BraidValidationError>)
        ensures
            r is Ok <==> self@ is Ok,
            r matches Ok(b) ==> self@ == Ok::<BraidModel, BraidValidationError>(b@),
            r matches Err(e) ==> self@ == Err::<BraidModel, BraidValidationError>(e),
    {
        self.0
    }

    /// The wrapped result, borrowed.
    pub(crate) fn as_result(&self) -> (r: &Result<Braid, BraidValidationError>)
        ensures
            r is Ok <==> self@ is Ok,
            r matches Ok(b) ==> self@ == Ok::<BraidModel, BraidValidationError>(b@),
            r matches Err(e) ==> self@ == Err::<BraidModel, BraidValidationError>(*e),
    {
        &self.0
    }
}

impl std::ops::Deref for BraidResult {
    type Target = Result<Braid, BraidValidationError>;

    fn deref(&self) -> (r: &Result<Braid, BraidValidationError>)
        ensures
            r is Ok <==> self@ is Ok,
            r matches Ok(b) ==> self@ == Ok::<BraidModel, BraidValidationError>(b@),
            r matches Err(e) ==> self@ == Err::<BraidModel, BraidValidationError>(*e),
    {
        &self.0
    }
}

impl From<Result<Braid, BraidValidationError>> for BraidResult {
    fn from(value: Result<Braid, BraidValidationError>) -> (r: BraidResult)
        ensures
            r@ == match value {
                Ok(b) => Ok::<BraidModel, BraidValidationError>(b@),
                Err(e) => Err::<BraidModel, BraidValidationError>(e),
            },
    {
        BraidResult(value)
    }
}

impl vstd::std_specs::convert::FromSpecImpl<Result<Braid, BraidValidationError>> for BraidResult {
    open spec fn obeys_from_spec() -> bool {
        true
    }

    closed spec fn from_spec(v: Result<Braid, BraidValidationError>) -> BraidResult {
        BraidResult(v)
    }
}

impl From<Braid> for BraidResult {
    fn from(value: Braid) -> (r: BraidResult)
        ensures
            r@ == Ok::<BraidModel, BraidValidationError>(value@),
    {
        BraidResult(Ok(value))
    }
}

impl vstd::std_specs::convert::FromSpecImpl<Braid> for BraidResult {
    open spec fn obeys_from_spec() -> bool {
        true
    }

    closed spec fn from_spec(v: Braid) -> BraidResult {
        BraidResult(Ok(v))
    }
}

impl From<BraidValidationError> for BraidResult {
    fn from(value: BraidValidationError) -> (r: BraidResult)
        ensures
            r@ == Err::<BraidModel, BraidValidationError>(value),
    {
        BraidResult(Err(value))
    }
}

impl vstd::std_specs::convert::FromSpecImpl<BraidValidationError> for BraidResult {
    open spec fn obeys_from_spec() -> bool {
        true
    }

    closed spec fn from_spec(v: BraidValidationError) -> BraidResult {
        BraidResult(Err(v))
    }
}

impl Clone for WordResult {
    fn clone(&self) -> (r: WordResult)
        ensures
            r@ == self@,
    {
        match &self.0 {
            Ok(w) => WordResult(Ok(w.clone())),
            Err(e) => WordResult(Err(*e)),
        }
    }
}

impl Clone for BraidResult {
    fn clone(&self) -> (r: BraidResult)
        ensures
            r@ == self@,
    {
        match &self.0 {
            Ok(b) => BraidResult(Ok(b.clone())),
            Err(e) => BraidResult(Err(*e)),
        }
    }
}

} // verus!
