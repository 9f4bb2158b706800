use vstd::prelude::*;

use crate::error::{LetterValidationError, WordValidationError};
use crate::letter::Letter;
use crate::result::{LetterResult, WordResult};
use crate::word::{word_mul_spec, Word};

verus! {

/// A letter, or the failure to build one, as an operand of a product of words.
pub open spec fn letter_result_operand(r: Result<Letter, LetterValidationError>) -> Result<
    Seq<Letter>,
    WordValidationError,
> {
    match r {
        Ok(l) => Ok(seq![l]),
        Err(e) => Err(WordValidationError::LetterValidation(e)),
    }
}

/// What multiplying two operands gives: the product of the words if both are words, the error
/// of the left operand if it is one, the error of the right operand otherwise.
pub open spec fn word_outcome(
    a: Result<Seq<Letter>, WordValidationError>,
    b: Result<Seq<Letter>, WordValidationError>,
) -> Result<Seq<Letter>, WordValidationError> {
    match (a, b) {
        (Ok(x), Ok(y)) => word_mul_spec(x, y),
        (Err(e), _) => Err(e),
        (_, Err(e)) => Err(e),
    }
}

impl std::ops::Mul<Letter> for Word {
    type Output = WordResult;

    fn mul(self, rhs: Letter) -> (r: WordResult)
        ensures
            r@ == word_outcome(Ok::<Seq<Letter>, WordValidationError>(self@), Ok::<Seq<Letter>, WordValidationError>(seq![rhs])),
    {
        let mut right: Vec<Letter> = Vec::new();
        right.push(rhs);
        Word::product_of(self.as_slice(), right.as_slice())
    }
}

impl vstd::std_specs::ops::MulSpecImpl<Letter> for Word {
    open spec fn obeys_mul_spec() -> bool {
        false
    }

    open spec fn mul_req(self, rhs: Letter) -> bool {
        true
    }

    open spec fn mul_spec(self, rhs: Letter) -> WordResult {
        arbitrary()
    }
}

impl std::ops::Mul<Word> for Letter {
    type Output = WordResult;

    fn mul(self, rhs: Word) -> (r: WordResult)
        ensures
            r@ == word_outcome(Ok::<Seq<Letter>, WordValidationError>(seq![self]), Ok::<Seq<Letter>, WordValidationError>(rhs@)),
    {
        let mut lhs: Vec<Letter> = Vec::new();
        lhs.push(self);
        Word::product_of(lhs.as_slice(), rhs.as_slice())
    }
}

impl vstd::std_specs::ops::MulSpecImpl<Word> for Letter {
    open spec fn obeys_mul_spec() -> bool {
        false
    }

    open spec fn mul_req(self, rhs: Word) -> bool {
        true
    }

    open spec fn mul_spec(self, rhs: Word) -> WordResult {
        arbitrary()
    }
}

impl std::ops::Mul<Word> for Word {
    type Output = WordResult;

    fn mul(self, rhs: Word) -> (r: WordResult)
        ensures
            r@ == word_outcome(Ok::<Seq<Letter>, WordValidationError>(self@), Ok::<Seq<Letter>, WordValidationError>(rhs@)),
    {
        Word::product_of(self.as_slice(), rhs.as_slice())
    }
}

impl vstd::std_specs::ops::MulSpecImpl<Word> for Word {
    open spec fn obeys_mul_spec() -> bool {
        false
    }

    open spec fn mul_req(self, rhs: Word) -> bool {
        true
    }

    open spec fn mul_spec(self, rhs: Word) -> WordResult {
        arbitrary()
    }
}

impl std::ops::Mul<Letter> for &Word {
    type Output = WordResult;

    fn mul(self, rhs: Letter) -> (r: WordResult)
        ensures
            r@ == word_outcome(Ok::<Seq<Letter>, WordValidationError>(self@), Ok::<Seq<Letter>, WordValidationError>(seq![rhs])),
    {
        let mut right: Vec<Letter> = Vec::new();
        right.push(rhs);
        Word::product_of(self.as_slice(), right.as_slice())
    }
}

impl vstd::std_specs::ops::MulSpecImpl<Letter> for &Word {
    open spec fn obeys_mul_spec() -> bool {
        false
    }

    open spec fn mul_req(self, rhs: Letter) -> bool {
        true
    }

    open spec fn mul_spec(self, rhs: Letter) -> WordResult {
        arbitrary()
    }
}

impl std::ops::Mul<&Word> for Letter {
    type Output = WordResult;

    fn mul(self, rhs: &Word) -> (r: WordResult)
        ensures
            r@ == word_outcome(Ok::<Seq<Letter>, WordValidationError>(seq![self]), Ok::<Seq<Letter>, WordValidationError>(rhs@)),
    {
        let mut lhs: Vec<Letter> = Vec::new();
        lhs.push(self);
        Word::product_of(lhs.as_slice(), rhs.as_slice())
    }
}

impl vstd::std_specs::ops::MulSpecImpl<&Word> for Letter {
    open spec fn obeys_mul_spec() -> bool {
        false
    }

    open spec fn mul_req(self, rhs: &Word) -> bool {
        true
    }

    open spec fn mul_spec(self, rhs: &Word) -> WordResult {
        arbitrary()
    }
}

impl std::ops::Mul<Word> for &Word {
    type Output = WordResult;

    fn mul(self, rhs: Word) -> (r: WordResult)
        ensures
            r@ == word_outcome(Ok::<Seq<Letter>, WordValidationError>(self@), Ok::<Seq<Letter>, WordValidationError>(rhs@)),
    {
        Word::product_of(self.as_slice(), rhs.as_slice())
    }
}

impl vstd::std_specs::ops::MulSpecImpl<Word> for &Word {
    open spec fn obeys_mul_spec() -> bool {
        false
    }

    open spec fn mul_req(self, rhs: Word) -> bool {
        true
    }

    open spec fn mul_spec(self, rhs: Word) -> WordResult {
        arbitrary()
    }
}

impl std::ops::Mul<&Word> for Word {
    type Output = WordResult;

    fn mul(self, rhs: &Word) -> (r: WordResult)
        ensures
            r@ == word_outcome(Ok::<Seq<Letter>, WordValidationError>(self@), Ok::<Seq<Letter>, WordValidationError>(rhs@)),
    {
        Word::product_of(self.as_slice(), rhs.as_slice())
    }
}

impl vstd::std_specs::ops::MulSpecImpl<&Word> for Word {
    open spec fn obeys_mul_spec() -> bool {
        false
    }

    open spec fn mul_req(self, rhs: &Word) -> bool {
        true
    }

    open spec fn mul_spec(self, rhs: &Word) -> WordResult {
        arbitrary()
    }
}

impl std::ops::Mul<&Word> for &Word {
    type Output = WordResult;

    fn mul(self, rhs: &Word) -> (r: WordResult)
        ensures
            r@ == word_outcome(Ok::<Seq<Letter>, WordValidationError>(self@), Ok::<Seq<Letter>, WordValidationError>(rhs@)),
    {
        Word::product_of(self.as_slice(), rhs.as_slice())
    }
}

impl vstd::std_specs::ops::MulSpecImpl<&Word> for &Word {
    open spec fn obeys_mul_spec() -> bool {
        false
    }

    open spec fn mul_req(self, rhs: &Word) -> bool {
        true
    }

    open spec fn mul_spec(self, rhs: &Word) -> WordResult {
        arbitrary()
    }
}

impl std::ops::Mul<LetterResult> for Word {
    type Output = WordResult;

    fn mul(self, rhs: LetterResult) -> (r: WordResult)
        ensures
            r@ == word_outcome(Ok::<Seq<Letter>, WordValidationError>(self@), letter_result_operand(rhs@)),
    {
        match rhs.into_result() {
            Ok(rhs) => self * rhs,
            Err(e) => WordResult::from_err(WordValidationError::from(e)),
        }
    }
}

impl vstd::std_specs::ops::MulSpecImpl<LetterResult> for Word {
    open spec fn obeys_mul_spec() -> bool {
        false
    }

    open spec fn mul_req(self, rhs: LetterResult) -> bool {
        true
    }

    open spec fn mul_spec(self, rhs: LetterResult) -> WordResult {
        arbitrary()
    }
}

impl std::ops::Mul<LetterResult> for &Word {
    type Output = WordResult;

    fn mul(self, rhs: LetterResult) -> (r: WordResult)
        ensures
            r@ == word_outcome(Ok::<Seq<Letter>, WordValidationError>(self@), letter_result_operand(rhs@)),
    {
        match rhs.into_result() {
            Ok(rhs) => self * rhs,
            Err(e) => WordResult::from_err(WordValidationError::from(e)),
        }
    }
}

impl vstd::std_specs::ops::MulSpecImpl<LetterResult> for &Word {
    open spec fn obeys_mul_spec() -> bool {
        false
    }

    open spec fn mul_req(self, rhs: LetterResult) -> bool {
        true
    }

    open spec fn mul_spec(self, rhs: LetterResult) -> WordResult {
        arbitrary()
    }
}

impl std::ops::Mul<Word> for LetterResult {
    type Output = WordResult;

    fn mul(self, rhs: Word) -> (r: WordResult)
        ensures
            r@ == word_outcome(letter_result_operand(self@), Ok::<Seq<Letter>, WordValidationError>(rhs@)),
    {
        match self.into_result() {
            Ok(lhs) => lhs * rhs,
            Err(e) => WordResult::from_err(WordValidationError::from(e)),
        }
    }
}

impl vstd::std_specs::ops::MulSpecImpl<Word> for LetterResult {
    open spec fn obeys_mul_spec() -> bool {
        false
    }

    open spec fn mul_req(self, rhs: Word) -> bool {
        true
    }

    open spec fn mul_spec(self, rhs: Word) -> WordResult {
        arbitrary()
    }
}

impl std::ops::Mul<&Word> for LetterResult {
    type Output = WordResult;

    fn mul(self, rhs: &Word) -> (r: WordResult)
        ensures
            r@ == word_outcome(letter_result_operand(self@), Ok::<Seq<Letter>, WordValidationError>(rhs@)),
    {
        match self.into_result() {
            Ok(lhs) => lhs * rhs,
            Err(e) => WordResult::from_err(WordValidationError::from(e)),
        }
    }
}

impl vstd::std_specs::ops::MulSpecImpl<&Word> for LetterResult {
    open spec fn obeys_mul_spec() -> bool {
        false
    }

    open spec fn mul_req(self, rhs: &Word) -> bool {
        true
    }

    open spec fn mul_spec(self, rhs: &Word) -> WordResult {
        arbitrary()
    }
}

impl std::ops::Mul<Letter> for WordResult {
    type Output = WordResult;

    fn mul(self, rhs: Letter) -> (r: WordResult)
        ensures
            r@ == word_outcome(self@, Ok::<Seq<Letter>, WordValidationError>(seq![rhs])),
    {
        match self.into_result() {
            Ok(lhs) => lhs * rhs,
            Err(e) => WordResult::from_err(e),
        }
    }
}

impl vstd::std_specs::ops::MulSpecImpl<Letter> for WordResult {
    open spec fn obeys_mul_spec() -> bool {
        false
    }

    open spec fn mul_req(self, rhs: Letter) -> bool {
        true
    }

    open spec fn mul_spec(self, rhs: Letter) -> WordResult {
        arbitrary()
    }
}

impl std::ops::Mul<WordResult> for Letter {
    type Output = WordResult;

    fn mul(self, rhs: WordResult) -> (r: WordResult)
        ensures
            r@ == word_outcome(Ok::<Seq<Letter>, WordValidationError>(seq![self]), rhs@),
    {
        match rhs.into_result() {
            Ok(rhs) => self * rhs,
            Err(e) => WordResult::from_err(e),
        }
    }
}

impl vstd::std_specs::ops::MulSpecImpl<WordResult> for Letter {
    open spec fn obeys_mul_spec() -> bool {
        false
    }

    open spec fn mul_req(self, rhs: WordResult) -> bool {
        true
    }

    open spec fn mul_spec(self, rhs: WordResult) -> WordResult {
        arbitrary()
    }
}

impl std::ops::Mul<WordResult> for Word {
    type Output = WordResult;

    fn mul(self, rhs: WordResult) -> (r: WordResult)
        ensures
            r@ == word_outcome(Ok::<Seq<Letter>, WordValidationError>(self@), rhs@),
    {
        match rhs.into_result() {
            Ok(rhs) => self * rhs,
            Err(e) => WordResult::from_err(e),
        }
    }
}

impl vstd::std_specs::ops::MulSpecImpl<WordResult> for Word {
    open spec fn obeys_mul_spec() -> bool {
        false
    }

    open spec fn mul_req(self, rhs: WordResult) -> bool {
        true
    }

    open spec fn mul_spec(self, rhs: WordResult) -> WordResult {
        arbitrary()
    }
}

impl std::ops::Mul<WordResult> for &Word {
    type Output = WordResult;

    fn mul(self, rhs: WordResult) -> (r: WordResult)
        ensures
            r@ == word_outcome(Ok::<Seq<Letter>, WordValidationError>(self@), rhs@),
    {
        match rhs.into_result() {
            Ok(rhs) => self * rhs,
            Err(e) => WordResult::from_err(e),
        }
    }
}

impl vstd::std_specs::ops::MulSpecImpl<WordResult> for &Word {
    open spec fn obeys_mul_spec() -> bool {
        false
    }

    open spec fn mul_req(self, rhs: WordResult) -> bool {
        true
    }

    open spec fn mul_spec(self, rhs: WordResult) -> WordResult {
        arbitrary()
    }
}

impl std::ops::Mul<Word> for WordResult {
    type Output = WordResult;

    fn mul(self, rhs: Word) -> (r: WordResult)
        ensures
            r@ == word_outcome(self@, Ok::<Seq<Letter>, WordValidationError>(rhs@)),
    {
        match self.into_result() {
            Ok(lhs) => lhs * rhs,
            Err(e) => WordResult::from_err(e),
        }
    }
}

impl vstd::std_specs::ops::MulSpecImpl<Word> for WordResult {
    open spec fn obeys_mul_spec() -> bool {
        false
    }

    open spec fn mul_req(self, rhs: Word) -> bool {
        true
    }

    open spec fn mul_spec(self, rhs: Word) -> WordResult {
        arbitrary()
    }
}

impl std::ops::Mul<&Word> for WordResult {
    type Output = WordResult;

    fn mul(self, rhs: &Word) -> (r: WordResult)
        ensures
            r@ == word_outcome(self@, Ok::<Seq<Letter>, WordValidationError>(rhs@)),
    {
        match self.into_result() {
            Ok(lhs) => lhs * rhs,
            Err(e) => WordResult::from_err(e),
        }
    }
}

impl vstd::std_specs::ops::MulSpecImpl<&Word> for WordResult {
    open spec fn obeys_mul_spec() -> bool {
        false
    }

    open spec fn mul_req(self, rhs: &Word) -> bool {
        true
    }

    open spec fn mul_spec(self, rhs: &Word) -> WordResult {
        arbitrary()
    }
}

impl std::ops::Mul<LetterResult> for WordResult {
    type Output = WordResult;

    fn mul(self, rhs: LetterResult) -> (r: WordResult)
        ensures
            r@ == word_outcome(self@, letter_result_operand(rhs@)),
    {
        match self.into_result() {
            Ok(lhs) => lhs * rhs,
            Err(e) => WordResult::from_err(e),
        }
    }
}

impl vstd::std_specs::ops::MulSpecImpl<LetterResult> for WordResult {
    open spec fn obeys_mul_spec() -> bool {
        false
    }

    open spec fn mul_req(self, rhs: LetterResult) -> bool {
        true
    }

    open spec fn mul_spec(self, rhs: LetterResult) -> WordResult {
        arbitrary()
    }
}

impl std::ops::Mul<WordResult> for LetterResult {
    type Output = WordResult;

    fn mul(self, rhs: WordResult) -> (r: WordResult)
        ensures
            r@ == word_outcome(letter_result_operand(self@), rhs@),
    {
        match self.into_result() {
            Ok(lhs) => lhs * rhs,
            Err(e) => WordResult::from_err(WordValidationError::from(e)),
        }
    }
}

impl vstd::std_specs::ops::MulSpecImpl<WordResult> for LetterResult {
    open spec fn obeys_mul_spec() -> bool {
        false
    }

    open spec fn mul_req(self, rhs: WordResult) -> bool {
        true
    }

    open spec fn mul_spec(self, rhs: WordResult) -> WordResult {
        arbitrary()
    }
}

impl std::ops::Mul<WordResult> for WordResult {
    type Output = WordResult;

    fn mul(self, rhs: WordResult) -> (r: WordResult)
        ensures
            r@ == word_outcome(self@, rhs@),
    {
        match self.into_result() {
            Ok(lhs) => lhs * rhs,
            Err(e) => WordResult::from_err(e),
        }
    }
}

impl vstd::std_specs::ops::MulSpecImpl<WordResult> for WordResult {
    open spec fn obeys_mul_spec() -> bool {
        false
    }

    open spec fn mul_req(self, rhs: WordResult) -> bool {
        true
    }

    open spec fn mul_spec(self, rhs: WordResult) -> WordResult {
        arbitrary()
    }
}

impl std::ops::Mul<Letter> for &WordResult {
    type Output = WordResult;

    fn mul(self, rhs: Letter) -> (r: WordResult)
        ensures
            r@ == word_outcome(self@, Ok::<Seq<Letter>, WordValidationError>(seq![rhs])),
    {
        match self.as_result() {
            Ok(lhs) => lhs * rhs,
            Err(e) => WordResult::from_err(*e),
        }
    }
}

impl vstd::std_specs::ops::MulSpecImpl<Letter> for &WordResult {
    open spec fn obeys_mul_spec() -> bool {
        false
    }

    open spec fn mul_req(self, rhs: Letter) -> bool {
        true
    }

    open spec fn mul_spec(self, rhs: Letter) -> WordResult {
        arbitrary()
    }
}

impl std::ops::Mul<&WordResult> for Letter {
    type Output = WordResult;

    fn mul(self, rhs: &WordResult) -> (r: WordResult)
        ensures
            r@ == word_outcome(Ok::<Seq<Letter>, WordValidationError>(seq![self]), rhs@),
    {
        match rhs.as_result() {
            Ok(rhs) => self * rhs,
            Err(e) => WordResult::from_err(*e),
        }
    }
}

impl vstd::std_specs::ops::MulSpecImpl<&WordResult> for Letter {
    open spec fn obeys_mul_spec() -> bool {
        false
    }

    open spec fn mul_req(self, rhs: &WordResult) -> bool {
        true
    }

    open spec fn mul_spec(self, rhs: &WordResult) -> WordResult {
        arbitrary()
    }
}

impl std::ops::Mul<LetterResult> for &WordResult {
    type Output = WordResult;

    fn mul(self, rhs: LetterResult) -> (r: WordResult)
        ensures
            r@ == word_outcome(self@, letter_result_operand(rhs@)),
    {
        match self.as_result() {
            Ok(lhs) => lhs * rhs,
            Err(e) => WordResult::from_err(*e),
        }
    }
}

impl vstd::std_specs::ops::MulSpecImpl<LetterResult> for &WordResult {
    open spec fn obeys_mul_spec() -> bool {
        false
    }

    open spec fn mul_req(self, rhs: LetterResult) -> bool {
        true
    }

    open spec fn mul_spec(self, rhs: LetterResult) -> WordResult {
        arbitrary()
    }
}

impl std::ops::Mul<&WordResult> for LetterResult {
    type Output = WordResult;

    fn mul(self, rhs: &WordResult) -> (r: WordResult)
        ensures
            r@ == word_outcome(letter_result_operand(self@), rhs@),
    {
        match self.into_result() {
            Ok(lhs) => lhs * rhs,
            Err(e) => WordResult::from_err(WordValidationError::from(e)),
        }
    }
}

impl vstd::std_specs::ops::MulSpecImpl<&WordResult> for LetterResult {
    open spec fn obeys_mul_spec() -> bool {
        false
    }

    open spec fn mul_req(self, rhs: &WordResult) -> bool {
        true
    }

    open spec fn mul_spec(self, rhs: &WordResult) -> WordResult {
        arbitrary()
    }
}

impl std::ops::Mul<Word> for &WordResult {
    type Output = WordResult;

    fn mul(self, rhs: Word) -> (r: WordResult)
        ensures
            r@ == word_outcome(self@, Ok::<Seq<Letter>, WordValidationError>(rhs@)),
    {
        match self.as_result() {
            Ok(lhs) => lhs * rhs,
            Err(e) => WordResult::from_err(*e),
        }
    }
}

impl vstd::std_specs::ops::MulSpecImpl<Word> for &WordResult {
    open spec fn obeys_mul_spec() -> bool {
        false
    }

    open spec fn mul_req(self, rhs: Word) -> bool {
        true
    }

    open spec fn mul_spec(self, rhs: Word) -> WordResult {
        arbitrary()
    }
}

impl std::ops::Mul<&WordResult> for Word {
    type Output = WordResult;

    fn mul(self, rhs: &WordResult) -> (r: WordResult)
        ensures
            r@ == word_outcome(Ok::<Seq<Letter>, WordValidationError>(self@), rhs@),
    {
        match rhs.as_result() {
            Ok(rhs) => self * rhs,
            Err(e) => WordResult::from_err(*e),
        }
    }
}

impl vstd::std_specs::ops::MulSpecImpl<&WordResult> for Word {
    open spec fn obeys_mul_spec() -> bool {
        false
    }

    open spec fn mul_req(self, rhs: &WordResult) -> bool {
        true
    }

    open spec fn mul_spec(self, rhs: &WordResult) -> WordResult {
        arbitrary()
    }
}

impl std::ops::Mul<&Word> for &WordResult {
    type Output = WordResult;

    fn mul(self, rhs: &Word) -> (r: WordResult)
        ensures
            r@ == word_outcome(self@, Ok::<Seq<Letter>, WordValidationError>(rhs@)),
    {
        match self.as_result() {
            Ok(lhs) => lhs * rhs,
            Err(e) => WordResult::from_err(*e),
        }
    }
}

impl vstd::std_specs::ops::MulSpecImpl<&Word> for &WordResult {
    open spec fn obeys_mul_spec() -> bool {
        false
    }

    open spec fn mul_req(self, rhs: &Word) -> bool {
        true
    }

    open spec fn mul_spec(self, rhs: &Word) -> WordResult {
        arbitrary()
    }
}

impl std::ops::Mul<&WordResult> for &Word {
    type Output = WordResult;

    fn mul(self, rhs: &WordResult) -> (r: WordResult)
        ensures
            r@ == word_outcome(Ok::<Seq<Letter>, WordValidationError>(self@), rhs@),
    {
        match rhs.as_result() {
            Ok(rhs) => self * rhs,
            Err(e) => WordResult::from_err(*e),
        }
    }
}

impl vstd::std_specs::ops::MulSpecImpl<&WordResult> for &Word {
    open spec fn obeys_mul_spec() -> bool {
        false
    }

    open spec fn mul_req(self, rhs: &WordResult) -> bool {
        true
    }

    open spec fn mul_spec(self, rhs: &WordResult) -> WordResult {
        arbitrary()
    }
}

impl std::ops::Mul<WordResult> for &WordResult {
    type Output = WordResult;

    fn mul(self, rhs: WordResult) -> (r: WordResult)
        ensures
            r@ == word_outcome(self@, rhs@),
    {
        match self.as_result() {
            Ok(lhs) => lhs * rhs,
            Err(e) => WordResult::from_err(*e),
        }
    }
}

impl vstd::std_specs::ops::MulSpecImpl<WordResult> for &WordResult {
    open spec fn obeys_mul_spec() -> bool {
        false
    }

    open spec fn mul_req(self, rhs: WordResult) -> bool {
        true
    }

    open spec fn mul_spec(self, rhs: WordResult) -> WordResult {
        arbitrary()
    }
}

impl std::ops::Mul<&WordResult> for WordResult {
    type Output = WordResult;

    fn mul(self, rhs: &WordResult) -> (r: WordResult)
        ensures
            r@ == word_outcome(self@, rhs@),
    {
        match self.into_result() {
            Ok(lhs) => lhs * rhs,
            Err(e) => WordResult::from_err(e),
        }
    }
}

impl vstd::std_specs::ops::MulSpecImpl<&WordResult> for WordResult {
    open spec fn obeys_mul_spec() -> bool {
        false
    }

    open spec fn mul_req(self, rhs: &WordResult) -> bool {
        true
    }

    open spec fn mul_spec(self, rhs: &WordResult) -> WordResult {
        arbitrary()
    }
}

impl std::ops::Mul<&WordResult> for &WordResult {
    type Output = WordResult;

    fn mul(self, rhs: &WordResult) -> (r: WordResult)
        ensures
            r@ == word_outcome(self@, rhs@),
    {
        match self.as_result() {
            Ok(lhs) => lhs * rhs,
            Err(e) => WordResult::from_err(*e),
        }
    }
}

impl vstd::std_specs::ops::MulSpecImpl<&WordResult> for &WordResult {
    open spec fn obeys_mul_spec() -> bool {
        false
    }

    open spec fn mul_req(self, rhs: &WordResult) -> bool {
        true
    }

    open spec fn mul_spec(self, rhs: &WordResult) -> WordResult {
        arbitrary()
    }
}

} // verus!
