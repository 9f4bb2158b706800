use vstd::prelude::*;

use crate::braid::{braid_outcome, Braid, BraidModel, BraidOperand};
use crate::error::{BraidValidationError, LetterValidationError, WordValidationError};
use crate::letter::Letter;
use crate::result::{BraidResult, LetterResult, WordResult};
use crate::word::Word;

verus! {

/// A letter, or the failure to build one, as an operand of a product of braids.
pub open spec fn letter_braid_operand(r: Result<Letter, LetterValidationError>) -> BraidOperand {
    match r {
        Ok(l) => BraidOperand::Word(seq![l]),
        Err(e) => BraidOperand::Failed(
            BraidValidationError::WordValidation(WordValidationError::LetterValidation(e)),
        ),
    }
}

/// A word, or the failure to build one, as an operand of a product of braids.
pub open spec fn word_braid_operand(r: Result<Seq<Letter>, WordValidationError>) -> BraidOperand {
    match r {
        Ok(s) => BraidOperand::Word(s),
        Err(e) => BraidOperand::Failed(BraidValidationError::WordValidation(e)),
    }
}

/// A braid, or the failure to build one, as an operand of a product of braids.
pub open spec fn braid_result_operand(r: Result<BraidModel, BraidValidationError>) -> BraidOperand {
    match r {
        Ok(b) => BraidOperand::Braid(b),
        Err(e) => BraidOperand::Failed(e),
    }
}

impl std::ops::Mul<Letter> for Braid {
    type Output = BraidResult;

    fn mul(self, rhs: Letter) -> (r: BraidResult)
        ensures
            braid_outcome(BraidOperand::Braid(self@), BraidOperand::Word(seq![rhs]), r@),
    {
        let mut right: Vec<Letter> = Vec::new();
        right.push(rhs);
        self.times_letters(right.as_slice())
    }
}

impl vstd::std_specs::ops::MulSpecImpl<Letter> for Braid {
    open spec fn obeys_mul_spec() -> bool {
        false
    }

    open spec fn mul_req(self, rhs: Letter) -> bool {
        true
    }

    open spec fn mul_spec(self, rhs: Letter) -> BraidResult {
        arbitrary()
    }
}

impl std::ops::Mul<Braid> for Letter {
    type Output = BraidResult;

    fn mul(self, rhs: Braid) -> (r: BraidResult)
        ensures
            braid_outcome(BraidOperand::Word(seq![self]), BraidOperand::Braid(rhs@), r@),
    {
        let mut left: Vec<Letter> = Vec::new();
        left.push(self);
        Braid::letters_times(left.as_slice(), &rhs)
    }
}

impl vstd::std_specs::ops::MulSpecImpl<Braid> for Letter {
    open spec fn obeys_mul_spec() -> bool {
        false
    }

    open spec fn mul_req(self, rhs: Braid) -> bool {
        true
    }

    open spec fn mul_spec(self, rhs: Braid) -> BraidResult {
        arbitrary()
    }
}

impl std::ops::Mul<Word> for Braid {
    type Output = BraidResult;

    fn mul(self, rhs: Word) -> (r: BraidResult)
        ensures
            braid_outcome(BraidOperand::Braid(self@), BraidOperand::Word(rhs@), r@),
    {
        self.times_letters(rhs.as_slice())
    }
}

impl vstd::std_specs::ops::MulSpecImpl<Word> for Braid {
    open spec fn obeys_mul_spec() -> bool {
        false
    }

    open spec fn mul_req(self, rhs: Word) -> bool {
        true
    }

    open spec fn mul_spec(self, rhs: Word) -> BraidResult {
        arbitrary()
    }
}

impl std::ops::Mul<Braid> for Word {
    type Output = BraidResult;

    fn mul(self, rhs: Braid) -> (r: BraidResult)
        ensures
            braid_outcome(BraidOperand::Word(self@), BraidOperand::Braid(rhs@), r@),
    {
        Braid::letters_times(self.as_slice(), &rhs)
    }
}

impl vstd::std_specs::ops::MulSpecImpl<Braid> for Word {
    open spec fn obeys_mul_spec() -> bool {
        false
    }

    open spec fn mul_req(self, rhs: Braid) -> bool {
        true
    }

    open spec fn mul_spec(self, rhs: Braid) -> BraidResult {
        arbitrary()
    }
}

impl std::ops::Mul<Braid> for Braid {
    type Output = BraidResult;

    fn mul(self, rhs: Braid) -> (r: BraidResult)
        ensures
            braid_outcome(BraidOperand::Braid(self@), BraidOperand::Braid(rhs@), r@),
    {
        self.times_braid(&rhs)
    }
}

impl vstd::std_specs::ops::MulSpecImpl<Braid> for Braid {
    open spec fn obeys_mul_spec() -> bool {
        false
    }

    open spec fn mul_req(self, rhs: Braid) -> bool {
        true
    }

    open spec fn mul_spec(self, rhs: Braid) -> BraidResult {
        arbitrary()
    }
}

impl std::ops::Mul<Letter> for &Braid {
    type Output = BraidResult;

    fn mul(self, rhs: Letter) -> (r: BraidResult)
        ensures
            braid_outcome(BraidOperand::Braid(self@), BraidOperand::Word(seq![rhs]), r@),
    {
        let mut right: Vec<Letter> = Vec::new();
        right.push(rhs);
        self.times_letters(right.as_slice())
    }
}

impl vstd::std_specs::ops::MulSpecImpl<Letter> for &Braid {
    open spec fn obeys_mul_spec() -> bool {
        false
    }

    open spec fn mul_req(self, rhs: Letter) -> bool {
        true
    }

    open spec fn mul_spec(self, rhs: Letter) -> BraidResult {
        arbitrary()
    }
}

impl std::ops::Mul<&Braid> for Letter {
    type Output = BraidResult;

    fn mul(self, rhs: &Braid) -> (r: BraidResult)
        ensures
            braid_outcome(BraidOperand::Word(seq![self]), BraidOperand::Braid(rhs@), r@),
    {
        let mut left: Vec<Letter> = Vec::new();
        left.push(self);
        Braid::letters_times(left.as_slice(), rhs)
    }
}

impl vstd::std_specs::ops::MulSpecImpl<&Braid> for Letter {
    open spec fn obeys_mul_spec() -> bool {
        false
    }

    open spec fn mul_req(self, rhs: &Braid) -> bool {
        true
    }

    open spec fn mul_spec(self, rhs: &Braid) -> BraidResult {
        arbitrary()
    }
}

impl std::ops::Mul<Word> for &Braid {
    type Output = BraidResult;

    fn mul(self, rhs: Word) -> (r: BraidResult)
        ensures
            braid_outcome(BraidOperand::Braid(self@), BraidOperand::Word(rhs@), r@),
    {
        self.times_letters(rhs.as_slice())
    }
}

impl vstd::std_specs::ops::MulSpecImpl<Word> for &Braid {
    open spec fn obeys_mul_spec() -> bool {
        false
    }

    open spec fn mul_req(self, rhs: Word) -> bool {
        true
    }

    open spec fn mul_spec(self, rhs: Word) -> BraidResult {
        arbitrary()
    }
}

impl std::ops::Mul<&Braid> for Word {
    type Output = BraidResult;

    fn mul(self, rhs: &Braid) -> (r: BraidResult)
        ensures
            braid_outcome(BraidOperand::Word(self@), BraidOperand::Braid(rhs@), r@),
    {
        Braid::letters_times(self.as_slice(), rhs)
    }
}

impl vstd::std_specs::ops::MulSpecImpl<&Braid> for Word {
    open spec fn obeys_mul_spec() -> bool {
        false
    }

    open spec fn mul_req(self, rhs: &Braid) -> bool {
        true
    }

    open spec fn mul_spec(self, rhs: &Braid) -> BraidResult {
        arbitrary()
    }
}

impl std::ops::Mul<&Word> for Braid {
    type Output = BraidResult;

    fn mul(self, rhs: &Word) -> (r: BraidResult)
        ensures
            braid_outcome(BraidOperand::Braid(self@), BraidOperand::Word(rhs@), r@),
    {
        self.times_letters(rhs.as_slice())
    }
}

impl vstd::std_specs::ops::MulSpecImpl<&Word> for Braid {
    open spec fn obeys_mul_spec() -> bool {
        false
    }

    open spec fn mul_req(self, rhs: &Word) -> bool {
        true
    }

    open spec fn mul_spec(self, rhs: &Word) -> BraidResult {
        arbitrary()
    }
}

impl std::ops::Mul<Braid> for &Word {
    type Output = BraidResult;

    fn mul(self, rhs: Braid) -> (r: BraidResult)
        ensures
            braid_outcome(BraidOperand::Word(self@), BraidOperand::Braid(rhs@), r@),
    {
        Braid::letters_times(self.as_slice(), &rhs)
    }
}

impl vstd::std_specs::ops::MulSpecImpl<Braid> for &Word {
    open spec fn obeys_mul_spec() -> bool {
        false
    }

    open spec fn mul_req(self, rhs: Braid) -> bool {
        true
    }

    open spec fn mul_spec(self, rhs: Braid) -> BraidResult {
        arbitrary()
    }
}

impl std::ops::Mul<&Word> for &Braid {
    type Output = BraidResult;

    fn mul(self, rhs: &Word) -> (r: BraidResult)
        ensures
            braid_outcome(BraidOperand::Braid(self@), BraidOperand::Word(rhs@), r@),
    {
        self.times_letters(rhs.as_slice())
    }
}

impl vstd::std_specs::ops::MulSpecImpl<&Word> for &Braid {
    open spec fn obeys_mul_spec() -> bool {
        false
    }

    open spec fn mul_req(self, rhs: &Word) -> bool {
        true
    }

    open spec fn mul_spec(self, rhs: &Word) -> BraidResult {
        arbitrary()
    }
}

impl std::ops::Mul<&Braid> for &Word {
    type Output = BraidResult;

    fn mul(self, rhs: &Braid) -> (r: BraidResult)
        ensures
            braid_outcome(BraidOperand::Word(self@), BraidOperand::Braid(rhs@), r@),
    {
        Braid::letters_times(self.as_slice(), rhs)
    }
}

impl vstd::std_specs::ops::MulSpecImpl<&Braid> for &Word {
    open spec fn obeys_mul_spec() -> bool {
        false
    }

    open spec fn mul_req(self, rhs: &Braid) -> bool {
        true
    }

    open spec fn mul_spec(self, rhs: &Braid) -> BraidResult {
        arbitrary()
    }
}

impl std::ops::Mul<Braid> for &Braid {
    type Output = BraidResult;

    fn mul(self, rhs: Braid) -> (r: BraidResult)
        ensures
            braid_outcome(BraidOperand::Braid(self@), BraidOperand::Braid(rhs@), r@),
    {
        self.times_braid(&rhs)
    }
}

impl vstd::std_specs::ops::MulSpecImpl<Braid> for &Braid {
    open spec fn obeys_mul_spec() -> bool {
        false
    }

    open spec fn mul_req(self, rhs: Braid) -> bool {
        true
    }

    open spec fn mul_spec(self, rhs: Braid) -> BraidResult {
        arbitrary()
    }
}

impl std::ops::Mul<&Braid> for Braid {
    type Output = BraidResult;

    fn mul(self, rhs: &Braid) -> (r: BraidResult)
        ensures
            braid_outcome(BraidOperand::Braid(self@), BraidOperand::Braid(rhs@), r@),
    {
        self.times_braid(rhs)
    }
}

impl vstd::std_specs::ops::MulSpecImpl<&Braid> for Braid {
    open spec fn obeys_mul_spec() -> bool {
        false
    }

    open spec fn mul_req(self, rhs: &Braid) -> bool {
        true
    }

    open spec fn mul_spec(self, rhs: &Braid) -> BraidResult {
        arbitrary()
    }
}

impl std::ops::Mul<&Braid> for &Braid {
    type Output = BraidResult;

    fn mul(self, rhs: &Braid) -> (r: BraidResult)
        ensures
            braid_outcome(BraidOperand::Braid(self@), BraidOperand::Braid(rhs@), r@),
    {
        self.times_braid(rhs)
    }
}

impl vstd::std_specs::ops::MulSpecImpl<&Braid> for &Braid {
    open spec fn obeys_mul_spec() -> bool {
        false
    }

    open spec fn mul_req(self, rhs: &Braid) -> bool {
        true
    }

    open spec fn mul_spec(self, rhs: &Braid) -> BraidResult {
        arbitrary()
    }
}

impl std::ops::Mul<Braid> for LetterResult {
    type Output = BraidResult;

    fn mul(self, rhs: Braid) -> (r: BraidResult)
        ensures
            braid_outcome(letter_braid_operand(self@), BraidOperand::Braid(rhs@), r@),
    {
        match self.into_result() {
            Ok(lhs) => lhs * rhs,
            Err(e) => BraidResult::from_err(BraidValidationError::from(WordValidationError::from(e))),
        }
    }
}

impl vstd::std_specs::ops::MulSpecImpl<Braid> for LetterResult {
    open spec fn obeys_mul_spec() -> bool {
        false
    }

    open spec fn mul_req(self, rhs: Braid) -> bool {
        true
    }

    open spec fn mul_spec(self, rhs: Braid) -> BraidResult {
        arbitrary()
    }
}

impl std::ops::Mul<&Braid> for LetterResult {
    type Output = BraidResult;

    fn mul(self, rhs: &Braid) -> (r: BraidResult)
        ensures
            braid_outcome(letter_braid_operand(self@), BraidOperand::Braid(rhs@), r@),
    {
        match self.into_result() {
            Ok(lhs) => lhs * rhs,
            Err(e) => BraidResult::from_err(BraidValidationError::from(WordValidationError::from(e))),
        }
    }
}

impl vstd::std_specs::ops::MulSpecImpl<&Braid> for LetterResult {
    open spec fn obeys_mul_spec() -> bool {
        false
    }

    open spec fn mul_req(self, rhs: &Braid) -> bool {
        true
    }

    open spec fn mul_spec(self, rhs: &Braid) -> BraidResult {
        arbitrary()
    }
}

impl std::ops::Mul<LetterResult> for Braid {
    type Output = BraidResult;

    fn mul(self, rhs: LetterResult) -> (r: BraidResult)
        ensures
            braid_outcome(BraidOperand::Braid(self@), letter_braid_operand(rhs@), r@),
    {
        match rhs.into_result() {
            Ok(rhs) => self * rhs,
            Err(e) => BraidResult::from_err(BraidValidationError::from(WordValidationError::from(e))),
        }
    }
}

impl vstd::std_specs::ops::MulSpecImpl<LetterResult> for Braid {
    open spec fn obeys_mul_spec() -> bool {
        false
    }

    open spec fn mul_req(self, rhs: LetterResult) -> bool {
        true
    }

    open spec fn mul_spec(self, rhs: LetterResult) -> BraidResult {
        arbitrary()
    }
}

impl std::ops::Mul<LetterResult> for &Braid {
    type Output = BraidResult;

    fn mul(self, rhs: LetterResult) -> (r: BraidResult)
        ensures
            braid_outcome(BraidOperand::Braid(self@), letter_braid_operand(rhs@), r@),
    {
        match rhs.into_result() {
            Ok(rhs) => self * rhs,
            Err(e) => BraidResult::from_err(BraidValidationError::from(WordValidationError::from(e))),
        }
    }
}

impl vstd::std_specs::ops::MulSpecImpl<LetterResult> for &Braid {
    open spec fn obeys_mul_spec() -> bool {
        false
    }

    open spec fn mul_req(self, rhs: LetterResult) -> bool {
        true
    }

    open spec fn mul_spec(self, rhs: LetterResult) -> BraidResult {
        arbitrary()
    }
}

impl std::ops::Mul<Braid> for WordResult {
    type Output = BraidResult;

    fn mul(self, rhs: Braid) -> (r: BraidResult)
        ensures
            braid_outcome(word_braid_operand(self@), BraidOperand::Braid(rhs@), r@),
    {
        match self.into_result() {
            Ok(lhs) => lhs * rhs,
            Err(e) => BraidResult::from_err(BraidValidationError::from(e)),
        }
    }
}

impl vstd::std_specs::ops::MulSpecImpl<Braid> for WordResult {
    open spec fn obeys_mul_spec() -> bool {
        false
    }

    open spec fn mul_req(self, rhs: Braid) -> bool {
        true
    }

    open spec fn mul_spec(self, rhs: Braid) -> BraidResult {
        arbitrary()
    }
}

impl std::ops::Mul<&Braid> for WordResult {
    type Output = BraidResult;

    fn mul(self, rhs: &Braid) -> (r: BraidResult)
        ensures
            braid_outcome(word_braid_operand(self@), BraidOperand::Braid(rhs@), r@),
    {
        match self.into_result() {
            Ok(lhs) => lhs * rhs,
            Err(e) => BraidResult::from_err(BraidValidationError::from(e)),
        }
    }
}

impl vstd::std_specs::ops::MulSpecImpl<&Braid> for WordResult {
    open spec fn obeys_mul_spec() -> bool {
        false
    }

    open spec fn mul_req(self, rhs: &Braid) -> bool {
        true
    }

    open spec fn mul_spec(self, rhs: &Braid) -> BraidResult {
        arbitrary()
    }
}

impl std::ops::Mul<WordResult> for Braid {
    type Output = BraidResult;

    fn mul(self, rhs: WordResult) -> (r: BraidResult)
        ensures
            braid_outcome(BraidOperand::Braid(self@), word_braid_operand(rhs@), r@),
    {
        match rhs.into_result() {
            Ok(rhs) => self * rhs,
            Err(e) => BraidResult::from_err(BraidValidationError::from(e)),
        }
    }
}

impl vstd::std_specs::ops::MulSpecImpl<WordResult> for Braid {
    open spec fn obeys_mul_spec() -> bool {
        false
    }

    open spec fn mul_req(self, rhs: WordResult) -> bool {
        true
    }

    open spec fn mul_spec(self, rhs: WordResult) -> BraidResult {
        arbitrary()
    }
}

impl std::ops::Mul<WordResult> for &Braid {
    type Output = BraidResult;

    fn mul(self, rhs: WordResult) -> (r: BraidResult)
        ensures
            braid_outcome(BraidOperand::Braid(self@), word_braid_operand(rhs@), r@),
    {
        match rhs.into_result() {
            Ok(rhs) => self * rhs,
            Err(e) => BraidResult::from_err(BraidValidationError::from(e)),
        }
    }
}

impl vstd::std_specs::ops::MulSpecImpl<WordResult> for &Braid {
    open spec fn obeys_mul_spec() -> bool {
        false
    }

    open spec fn mul_req(self, rhs: WordResult) -> bool {
        true
    }

    open spec fn mul_spec(self, rhs: WordResult) -> BraidResult {
        arbitrary()
    }
}

impl std::ops::Mul<Braid> for BraidResult {
    type Output = BraidResult;

    fn mul(self, rhs: Braid) -> (r: BraidResult)
        ensures
            braid_outcome(braid_result_operand(self@), BraidOperand::Braid(rhs@), r@),
    {
        match self.into_result() {
            Ok(lhs) => lhs * rhs,
            Err(e) => BraidResult::from_err(e),
        }
    }
}

impl vstd::std_specs::ops::MulSpecImpl<Braid> for BraidResult {
    open spec fn obeys_mul_spec() -> bool {
        false
    }

    open spec fn mul_req(self, rhs: Braid) -> bool {
        true
    }

    open spec fn mul_spec(self, rhs: Braid) -> BraidResult {
        arbitrary()
    }
}

impl std::ops::Mul<&Braid> for BraidResult {
    type Output = BraidResult;

    fn mul(self, rhs: &Braid) -> (r: BraidResult)
        ensures
            braid_outcome(braid_result_operand(self@), BraidOperand::Braid(rhs@), r@),
    {
        match self.into_result() {
            Ok(lhs) => lhs * rhs,
            Err(e) => BraidResult::from_err(e),
        }
    }
}

impl vstd::std_specs::ops::MulSpecImpl<&Braid> for BraidResult {
    open spec fn obeys_mul_spec() -> bool {
        false
    }

    open spec fn mul_req(self, rhs: &Braid) -> bool {
        true
    }

    open spec fn mul_spec(self, rhs: &Braid) -> BraidResult {
        arbitrary()
    }
}

impl std::ops::Mul<BraidResult> for Braid {
    type Output = BraidResult;

    fn mul(self, rhs: BraidResult) -> (r: BraidResult)
        ensures
            braid_outcome(BraidOperand::Braid(self@), braid_result_operand(rhs@), r@),
    {
        match rhs.into_result() {
            Ok(rhs) => self * rhs,
            Err(e) => BraidResult::from_err(e),
        }
    }
}

impl vstd::std_specs::ops::MulSpecImpl<BraidResult> for Braid {
    open spec fn obeys_mul_spec() -> bool {
        false
    }

    open spec fn mul_req(self, rhs: BraidResult) -> bool {
        true
    }

    open spec fn mul_spec(self, rhs: BraidResult) -> BraidResult {
        arbitrary()
    }
}

impl std::ops::Mul<BraidResult> for &Braid {
    type Output = BraidResult;

    fn mul(self, rhs: BraidResult) -> (r: BraidResult)
        ensures
            braid_outcome(BraidOperand::Braid(self@), braid_result_operand(rhs@), r@),
    {
        match rhs.into_result() {
            Ok(rhs) => self * rhs,
            Err(e) => BraidResult::from_err(e),
        }
    }
}

impl vstd::std_specs::ops::MulSpecImpl<BraidResult> for &Braid {
    open spec fn obeys_mul_spec() -> bool {
        false
    }

    open spec fn mul_req(self, rhs: BraidResult) -> bool {
        true
    }

    open spec fn mul_spec(self, rhs: BraidResult) -> BraidResult {
        arbitrary()
    }
}

impl std::ops::Mul<Word> for BraidResult {
    type Output = BraidResult;

    fn mul(self, rhs: Word) -> (r: BraidResult)
        ensures
            braid_outcome(braid_result_operand(self@), BraidOperand::Word(rhs@), r@),
    {
        match self.into_result() {
            Ok(lhs) => lhs * rhs,
            Err(e) => BraidResult::from_err(e),
        }
    }
}

impl vstd::std_specs::ops::MulSpecImpl<Word> for BraidResult {
    open spec fn obeys_mul_spec() -> bool {
        false
    }

    open spec fn mul_req(self, rhs: Word) -> bool {
        true
    }

    open spec fn mul_spec(self, rhs: Word) -> BraidResult {
        arbitrary()
    }
}

impl std::ops::Mul<&Word> for BraidResult {
    type Output = BraidResult;

    fn mul(self, rhs: &Word) -> (r: BraidResult)
        ensures
            braid_outcome(braid_result_operand(self@), BraidOperand::Word(rhs@), r@),
    {
        match self.into_result() {
            Ok(lhs) => lhs * rhs,
            Err(e) => BraidResult::from_err(e),
        }
    }
}

impl vstd::std_specs::ops::MulSpecImpl<&Word> for BraidResult {
    open spec fn obeys_mul_spec() -> bool {
        false
    }

    open spec fn mul_req(self, rhs: &Word) -> bool {
        true
    }

    open spec fn mul_spec(self, rhs: &Word) -> BraidResult {
        arbitrary()
    }
}

impl std::ops::Mul<BraidResult> for Word {
    type Output = BraidResult;

    fn mul(self, rhs: BraidResult) -> (r: BraidResult)
        ensures
            braid_outcome(BraidOperand::Word(self@), braid_result_operand(rhs@), r@),
    {
        match rhs.into_result() {
            Ok(rhs) => self * rhs,
            Err(e) => BraidResult::from_err(e),
        }
    }
}

impl vstd::std_specs::ops::MulSpecImpl<BraidResult> for Word {
    open spec fn obeys_mul_spec() -> bool {
        false
    }

    open spec fn mul_req(self, rhs: BraidResult) -> bool {
        true
    }

    open spec fn mul_spec(self, rhs: BraidResult) -> BraidResult {
        arbitrary()
    }
}

impl std::ops::Mul<BraidResult> for &Word {
    type Output = BraidResult;

    fn mul(self, rhs: BraidResult) -> (r: BraidResult)
        ensures
            braid_outcome(BraidOperand::Word(self@), braid_result_operand(rhs@), r@),
    {
        match rhs.into_result() {
            Ok(rhs) => self * rhs,
            Err(e) => BraidResult::from_err(e),
        }
    }
}

impl vstd::std_specs::ops::MulSpecImpl<BraidResult> for &Word {
    open spec fn obeys_mul_spec() -> bool {
        false
    }

    open spec fn mul_req(self, rhs: BraidResult) -> bool {
        true
    }

    open spec fn mul_spec(self, rhs: BraidResult) -> BraidResult {
        arbitrary()
    }
}

impl std::ops::Mul<Letter> for BraidResult {
    type Output = BraidResult;

    fn mul(self, rhs: Letter) -> (r: BraidResult)
        ensures
            braid_outcome(braid_result_operand(self@), BraidOperand::Word(seq![rhs]), r@),
    {
        match self.into_result() {
            Ok(lhs) => lhs * rhs,
            Err(e) => BraidResult::from_err(e),
        }
    }
}

impl vstd::std_specs::ops::MulSpecImpl<Letter> for BraidResult {
    open spec fn obeys_mul_spec() -> bool {
        false
    }

    open spec fn mul_req(self, rhs: Letter) -> bool {
        true
    }

    open spec fn mul_spec(self, rhs: Letter) -> BraidResult {
        arbitrary()
    }
}

impl std::ops::Mul<BraidResult> for Letter {
    type Output = BraidResult;

    fn mul(self, rhs: BraidResult) -> (r: BraidResult)
        ensures
            braid_outcome(BraidOperand::Word(seq![self]), braid_result_operand(rhs@), r@),
    {
        match rhs.into_result() {
            Ok(rhs) => self * rhs,
            Err(e) => BraidResult::from_err(e),
        }
    }
}

impl vstd::std_specs::ops::MulSpecImpl<BraidResult> for Letter {
    open spec fn obeys_mul_spec() -> bool {
        false
    }

    open spec fn mul_req(self, rhs: BraidResult) -> bool {
        true
    }

    open spec fn mul_spec(self, rhs: BraidResult) -> BraidResult {
        arbitrary()
    }
}

impl std::ops::Mul<LetterResult> for BraidResult {
    type Output = BraidResult;

    fn mul(self, rhs: LetterResult) -> (r: BraidResult)
        ensures
            braid_outcome(braid_result_operand(self@), letter_braid_operand(rhs@), r@),
    {
        match self.into_result() {
            Ok(lhs) => lhs * rhs,
            Err(e) => BraidResult::from_err(e),
        }
    }
}

impl vstd::std_specs::ops::MulSpecImpl<LetterResult> for BraidResult {
    open spec fn obeys_mul_spec() -> bool {
        false
    }

    open spec fn mul_req(self, rhs: LetterResult) -> bool {
        true
    }

    open spec fn mul_spec(self, rhs: LetterResult) -> BraidResult {
        arbitrary()
    }
}

impl std::ops::Mul<BraidResult> for LetterResult {
    type Output = BraidResult;

    fn mul(self, rhs: BraidResult) -> (r: BraidResult)
        ensures
            braid_outcome(letter_braid_operand(self@), braid_result_operand(rhs@), r@),
    {
        match self.into_result() {
            Ok(lhs) => lhs * rhs,
            Err(e) => BraidResult::from_err(BraidValidationError::from(WordValidationError::from(e))),
        }
    }
}

impl vstd::std_specs::ops::MulSpecImpl<BraidResult> for LetterResult {
    open spec fn obeys_mul_spec() -> bool {
        false
    }

    open spec fn mul_req(self, rhs: BraidResult) -> bool {
        true
    }

    open spec fn mul_spec(self, rhs: BraidResult) -> BraidResult {
        arbitrary()
    }
}

impl std::ops::Mul<WordResult> for BraidResult {
    type Output = BraidResult;

    fn mul(self, rhs: WordResult) -> (r: BraidResult)
        ensures
            braid_outcome(braid_result_operand(self@), word_braid_operand(rhs@), r@),
    {
        match self.into_result() {
            Ok(lhs) => lhs * rhs,
            Err(e) => BraidResult::from_err(e),
        }
    }
}

impl vstd::std_specs::ops::MulSpecImpl<WordResult> for BraidResult {
    open spec fn obeys_mul_spec() -> bool {
        false
    }

    open spec fn mul_req(self, rhs: WordResult) -> bool {
        true
    }

    open spec fn mul_spec(self, rhs: WordResult) -> BraidResult {
        arbitrary()
    }
}

impl std::ops::Mul<BraidResult> for WordResult {
    type Output = BraidResult;

    fn mul(self, rhs: BraidResult) -> (r: BraidResult)
        ensures
            braid_outcome(word_braid_operand(self@), braid_result_operand(rhs@), r@),
    {
        match self.into_result() {
            Ok(lhs) => lhs * rhs,
            Err(e) => BraidResult::from_err(BraidValidationError::from(e)),
        }
    }
}

impl vstd::std_specs::ops::MulSpecImpl<BraidResult> for WordResult {
    open spec fn obeys_mul_spec() -> bool {
        false
    }

    open spec fn mul_req(self, rhs: BraidResult) -> bool {
        true
    }

    open spec fn mul_spec(self, rhs: BraidResult) -> BraidResult {
        arbitrary()
    }
}

impl std::ops::Mul<BraidResult> for BraidResult {
    type Output = BraidResult;

    fn mul(self, rhs: BraidResult) -> (r: BraidResult)
        ensures
            braid_outcome(braid_result_operand(self@), braid_result_operand(rhs@), r@),
    {
        match self.into_result() {
            Ok(lhs) => lhs * rhs,
            Err(e) => BraidResult::from_err(e),
        }
    }
}

impl vstd::std_specs::ops::MulSpecImpl<BraidResult> for BraidResult {
    open spec fn obeys_mul_spec() -> bool {
        false
    }

    open spec fn mul_req(self, rhs: BraidResult) -> bool {
        true
    }

    open spec fn mul_spec(self, rhs: BraidResult) -> BraidResult {
        arbitrary()
    }
}

impl std::ops::Mul<Braid> for &WordResult {
    type Output = BraidResult;

    fn mul(self, rhs: Braid) -> (r: BraidResult)
        ensures
            braid_outcome(word_braid_operand(self@), BraidOperand::Braid(rhs@), r@),
    {
        match self.as_result() {
            Ok(lhs) => lhs * rhs,
            Err(e) => BraidResult::from_err(BraidValidationError::from(*e)),
        }
    }
}

impl vstd::std_specs::ops::MulSpecImpl<Braid> for &WordResult {
    open spec fn obeys_mul_spec() -> bool {
        false
    }

    open spec fn mul_req(self, rhs: Braid) -> bool {
        true
    }

    open spec fn mul_spec(self, rhs: Braid) -> BraidResult {
        arbitrary()
    }
}

impl std::ops::Mul<&WordResult> for Braid {
    type Output = BraidResult;

    fn mul(self, rhs: &WordResult) -> (r: BraidResult)
        ensures
            braid_outcome(BraidOperand::Braid(self@), word_braid_operand(rhs@), r@),
    {
        match rhs.as_result() {
            Ok(rhs) => self * rhs,
            Err(e) => BraidResult::from_err(BraidValidationError::from(*e)),
        }
    }
}

impl vstd::std_specs::ops::MulSpecImpl<&WordResult> for Braid {
    open spec fn obeys_mul_spec() -> bool {
        false
    }

    open spec fn mul_req(self, rhs: &WordResult) -> bool {
        true
    }

    open spec fn mul_spec(self, rhs: &WordResult) -> BraidResult {
        arbitrary()
    }
}

impl std::ops::Mul<&Braid> for &WordResult {
    type Output = BraidResult;

    fn mul(self, rhs: &Braid) -> (r: BraidResult)
        ensures
            braid_outcome(word_braid_operand(self@), BraidOperand::Braid(rhs@), r@),
    {
        match self.as_result() {
            Ok(lhs) => lhs * rhs,
            Err(e) => BraidResult::from_err(BraidValidationError::from(*e)),
        }
    }
}

impl vstd::std_specs::ops::MulSpecImpl<&Braid> for &WordResult {
    open spec fn obeys_mul_spec() -> bool {
        false
    }

    open spec fn mul_req(self, rhs: &Braid) -> bool {
        true
    }

    open spec fn mul_spec(self, rhs: &Braid) -> BraidResult {
        arbitrary()
    }
}

impl std::ops::Mul<&WordResult> for &Braid {
    type Output = BraidResult;

    fn mul(self, rhs: &WordResult) -> (r: BraidResult)
        ensures
            braid_outcome(BraidOperand::Braid(self@), word_braid_operand(rhs@), r@),
    {
        match rhs.as_result() {
            Ok(rhs) => self * rhs,
            Err(e) => BraidResult::from_err(BraidValidationError::from(*e)),
        }
    }
}

impl vstd::std_specs::ops::MulSpecImpl<&WordResult> for &Braid {
    open spec fn obeys_mul_spec() -> bool {
        false
    }

    open spec fn mul_req(self, rhs: &WordResult) -> bool {
        true
    }

    open spec fn mul_spec(self, rhs: &WordResult) -> BraidResult {
        arbitrary()
    }
}

impl std::ops::Mul<BraidResult> for &WordResult {
    type Output = BraidResult;

    fn mul(self, rhs: BraidResult) -> (r: BraidResult)
        ensures
            braid_outcome(word_braid_operand(self@), braid_result_operand(rhs@), r@),
    {
        match self.as_result() {
            Ok(lhs) => lhs * rhs,
            Err(e) => BraidResult::from_err(BraidValidationError::from(*e)),
        }
    }
}

impl vstd::std_specs::ops::MulSpecImpl<BraidResult> for &WordResult {
    open spec fn obeys_mul_spec() -> bool {
        false
    }

    open spec fn mul_req(self, rhs: BraidResult) -> bool {
        true
    }

    open spec fn mul_spec(self, rhs: BraidResult) -> BraidResult {
        arbitrary()
    }
}

impl std::ops::Mul<&WordResult> for BraidResult {
    type Output = BraidResult;

    fn mul(self, rhs: &WordResult) -> (r: BraidResult)
        ensures
            braid_outcome(braid_result_operand(self@), word_braid_operand(rhs@), r@),
    {
        match self.into_result() {
            Ok(lhs) => lhs * rhs,
            Err(e) => BraidResult::from_err(e),
        }
    }
}

impl vstd::std_specs::ops::MulSpecImpl<&WordResult> for BraidResult {
    open spec fn obeys_mul_spec() -> bool {
        false
    }

    open spec fn mul_req(self, rhs: &WordResult) -> bool {
        true
    }

    open spec fn mul_spec(self, rhs: &WordResult) -> BraidResult {
        arbitrary()
    }
}

impl std::ops::Mul<Letter> for &BraidResult {
    type Output = BraidResult;

    fn mul(self, rhs: Letter) -> (r: BraidResult)
        ensures
            braid_outcome(braid_result_operand(self@), BraidOperand::Word(seq![rhs]), r@),
    {
        match self.as_result() {
            Ok(lhs) => lhs * rhs,
            Err(e) => BraidResult::from_err(*e),
        }
    }
}

impl vstd::std_specs::ops::MulSpecImpl<Letter> for &BraidResult {
    open spec fn obeys_mul_spec() -> bool {
        false
    }

    open spec fn mul_req(self, rhs: Letter) -> bool {
        true
    }

    open spec fn mul_spec(self, rhs: Letter) -> BraidResult {
        arbitrary()
    }
}

impl std::ops::Mul<&BraidResult> for Letter {
    type Output = BraidResult;

    fn mul(self, rhs: &BraidResult) -> (r: BraidResult)
        ensures
            braid_outcome(BraidOperand::Word(seq![self]), braid_result_operand(rhs@), r@),
    {
        match rhs.as_result() {
            Ok(rhs) => self * rhs,
            Err(e) => BraidResult::from_err(*e),
        }
    }
}

impl vstd::std_specs::ops::MulSpecImpl<&BraidResult> for Letter {
    open spec fn obeys_mul_spec() -> bool {
        false
    }

    open spec fn mul_req(self, rhs: &BraidResult) -> bool {
        true
    }

    open spec fn mul_spec(self, rhs: &BraidResult) -> BraidResult {
        arbitrary()
    }
}

impl std::ops::Mul<LetterResult> for &BraidResult {
    type Output = BraidResult;

    fn mul(self, rhs: LetterResult) -> (r: BraidResult)
        ensures
            braid_outcome(braid_result_operand(self@), letter_braid_operand(rhs@), r@),
    {
        match self.as_result() {
            Ok(lhs) => lhs * rhs,
            Err(e) => BraidResult::from_err(*e),
        }
    }
}

impl vstd::std_specs::ops::MulSpecImpl<LetterResult> for &BraidResult {
    open spec fn obeys_mul_spec() -> bool {
        false
    }

    open spec fn mul_req(self, rhs: LetterResult) -> bool {
        true
    }

    open spec fn mul_spec(self, rhs: LetterResult) -> BraidResult {
        arbitrary()
    }
}

impl std::ops::Mul<&BraidResult> for LetterResult {
    type Output = BraidResult;

    fn mul(self, rhs: &BraidResult) -> (r: BraidResult)
        ensures
            braid_outcome(letter_braid_operand(self@), braid_result_operand(rhs@), r@),
    {
        match self.into_result() {
            Ok(lhs) => lhs * rhs,
            Err(e) => BraidResult::from_err(BraidValidationError::from(WordValidationError::from(e))),
        }
    }
}

impl vstd::std_specs::ops::MulSpecImpl<&BraidResult> for LetterResult {
    open spec fn obeys_mul_spec() -> bool {
        false
    }

    open spec fn mul_req(self, rhs: &BraidResult) -> bool {
        true
    }

    open spec fn mul_spec(self, rhs: &BraidResult) -> BraidResult {
        arbitrary()
    }
}

impl std::ops::Mul<Word> for &BraidResult {
    type Output = BraidResult;

    fn mul(self, rhs: Word) -> (r: BraidResult)
        ensures
            braid_outcome(braid_result_operand(self@), BraidOperand::Word(rhs@), r@),
    {
        match self.as_result() {
            Ok(lhs) => lhs * rhs,
            Err(e) => BraidResult::from_err(*e),
        }
    }
}

impl vstd::std_specs::ops::MulSpecImpl<Word> for &BraidResult {
    open spec fn obeys_mul_spec() -> bool {
        false
    }

    open spec fn mul_req(self, rhs: Word) -> bool {
        true
    }

    open spec fn mul_spec(self, rhs: Word) -> BraidResult {
        arbitrary()
    }
}

impl std::ops::Mul<&BraidResult> for Word {
    type Output = BraidResult;

    fn mul(self, rhs: &BraidResult) -> (r: BraidResult)
        ensures
            braid_outcome(BraidOperand::Word(self@), braid_result_operand(rhs@), r@),
    {
        match rhs.as_result() {
            Ok(rhs) => self * rhs,
            Err(e) => BraidResult::from_err(*e),
        }
    }
}

impl vstd::std_specs::ops::MulSpecImpl<&BraidResult> for Word {
    open spec fn obeys_mul_spec() -> bool {
        false
    }

    open spec fn mul_req(self, rhs: &BraidResult) -> bool {
        true
    }

    open spec fn mul_spec(self, rhs: &BraidResult) -> BraidResult {
        arbitrary()
    }
}

impl std::ops::Mul<&Word> for &BraidResult {
    type Output = BraidResult;

    fn mul(self, rhs: &Word) -> (r: BraidResult)
        ensures
            braid_outcome(braid_result_operand(self@), BraidOperand::Word(rhs@), r@),
    {
        match self.as_result() {
            Ok(lhs) => lhs * rhs,
            Err(e) => BraidResult::from_err(*e),
        }
    }
}

impl vstd::std_specs::ops::MulSpecImpl<&Word> for &BraidResult {
    open spec fn obeys_mul_spec() -> bool {
        false
    }

    open spec fn mul_req(self, rhs: &Word) -> bool {
        true
    }

    open spec fn mul_spec(self, rhs: &Word) -> BraidResult {
        arbitrary()
    }
}

impl std::ops::Mul<&BraidResult> for &Word {
    type Output = BraidResult;

    fn mul(self, rhs: &BraidResult) -> (r: BraidResult)
        ensures
            braid_outcome(BraidOperand::Word(self@), braid_result_operand(rhs@), r@),
    {
        match rhs.as_result() {
            Ok(rhs) => self * rhs,
            Err(e) => BraidResult::from_err(*e),
        }
    }
}

impl vstd::std_specs::ops::MulSpecImpl<&BraidResult> for &Word {
    open spec fn obeys_mul_spec() -> bool {
        false
    }

    open spec fn mul_req(self, rhs: &BraidResult) -> bool {
        true
    }

    open spec fn mul_spec(self, rhs: &BraidResult) -> BraidResult {
        arbitrary()
    }
}

impl std::ops::Mul<WordResult> for &BraidResult {
    type Output = BraidResult;

    fn mul(self, rhs: WordResult) -> (r: BraidResult)
        ensures
            braid_outcome(braid_result_operand(self@), word_braid_operand(rhs@), r@),
    {
        match self.as_result() {
            Ok(lhs) => lhs * rhs,
            Err(e) => BraidResult::from_err(*e),
        }
    }
}

impl vstd::std_specs::ops::MulSpecImpl<WordResult> for &BraidResult {
    open spec fn obeys_mul_spec() -> bool {
        false
    }

    open spec fn mul_req(self, rhs: WordResult) -> bool {
        true
    }

    open spec fn mul_spec(self, rhs: WordResult) -> BraidResult {
        arbitrary()
    }
}

impl std::ops::Mul<&BraidResult> for WordResult {
    type Output = BraidResult;

    fn mul(self, rhs: &BraidResult) -> (r: BraidResult)
        ensures
            braid_outcome(word_braid_operand(self@), braid_result_operand(rhs@), r@),
    {
        match self.into_result() {
            Ok(lhs) => lhs * rhs,
            Err(e) => BraidResult::from_err(BraidValidationError::from(e)),
        }
    }
}

impl vstd::std_specs::ops::MulSpecImpl<&BraidResult> for WordResult {
    open spec fn obeys_mul_spec() -> bool {
        false
    }

    open spec fn mul_req(self, rhs: &BraidResult) -> bool {
        true
    }

    open spec fn mul_spec(self, rhs: &BraidResult) -> BraidResult {
        arbitrary()
    }
}

impl std::ops::Mul<&WordResult> for &BraidResult {
    type Output = BraidResult;

    fn mul(self, rhs: &WordResult) -> (r: BraidResult)
        ensures
            braid_outcome(braid_result_operand(self@), word_braid_operand(rhs@), r@),
    {
        match self.as_result() {
            Ok(lhs) => lhs * rhs,
            Err(e) => BraidResult::from_err(*e),
        }
    }
}

impl vstd::std_specs::ops::MulSpecImpl<&WordResult> for &BraidResult {
    open spec fn obeys_mul_spec() -> bool {
        false
    }

    open spec fn mul_req(self, rhs: &WordResult) -> bool {
        true
    }

    open spec fn mul_spec(self, rhs: &WordResult) -> BraidResult {
        arbitrary()
    }
}

impl std::ops::Mul<&BraidResult> for &WordResult {
    type Output = BraidResult;

    fn mul(self, rhs: &BraidResult) -> (r: BraidResult)
        ensures
            braid_outcome(word_braid_operand(self@), braid_result_operand(rhs@), r@),
    {
        match self.as_result() {
            Ok(lhs) => lhs * rhs,
            Err(e) => BraidResult::from_err(BraidValidationError::from(*e)),
        }
    }
}

impl vstd::std_specs::ops::MulSpecImpl<&BraidResult> for &WordResult {
    open spec fn obeys_mul_spec() -> bool {
        false
    }

    open spec fn mul_req(self, rhs: &BraidResult) -> bool {
        true
    }

    open spec fn mul_spec(self, rhs: &BraidResult) -> BraidResult {
        arbitrary()
    }
}

impl std::ops::Mul<Braid> for &BraidResult {
    type Output = BraidResult;

    fn mul(self, rhs: Braid) -> (r: BraidResult)
        ensures
            braid_outcome(braid_result_operand(self@), BraidOperand::Braid(rhs@), r@),
    {
        match self.as_result() {
            Ok(lhs) => lhs * rhs,
            Err(e) => BraidResult::from_err(*e),
        }
    }
}

impl vstd::std_specs::ops::MulSpecImpl<Braid> for &BraidResult {
    open spec fn obeys_mul_spec() -> bool {
        false
    }

    open spec fn mul_req(self, rhs: Braid) -> bool {
        true
    }

    open spec fn mul_spec(self, rhs: Braid) -> BraidResult {
        arbitrary()
    }
}

impl std::ops::Mul<&BraidResult> for Braid {
    type Output = BraidResult;

    fn mul(self, rhs: &BraidResult) -> (r: BraidResult)
        ensures
            braid_outcome(BraidOperand::Braid(self@), braid_result_operand(rhs@), r@),
    {
        match rhs.as_result() {
            Ok(rhs) => self * rhs,
            Err(e) => BraidResult::from_err(*e),
        }
    }
}

impl vstd::std_specs::ops::MulSpecImpl<&BraidResult> for Braid {
    open spec fn obeys_mul_spec() -> bool {
        false
    }

    open spec fn mul_req(self, rhs: &BraidResult) -> bool {
        true
    }

    open spec fn mul_spec(self, rhs: &BraidResult) -> BraidResult {
        arbitrary()
    }
}

impl std::ops::Mul<&Braid> for &BraidResult {
    type Output = BraidResult;

    fn mul(self, rhs: &Braid) -> (r: BraidResult)
        ensures
            braid_outcome(braid_result_operand(self@), BraidOperand::Braid(rhs@), r@),
    {
        match self.as_result() {
            Ok(lhs) => lhs * rhs,
            Err(e) => BraidResult::from_err(*e),
        }
    }
}

impl vstd::std_specs::ops::MulSpecImpl<&Braid> for &BraidResult {
    open spec fn obeys_mul_spec() -> bool {
        false
    }

    open spec fn mul_req(self, rhs: &Braid) -> bool {
        true
    }

    open spec fn mul_spec(self, rhs: &Braid) -> BraidResult {
        arbitrary()
    }
}

impl std::ops::Mul<&BraidResult> for &Braid {
    type Output = BraidResult;

    fn mul(self, rhs: &BraidResult) -> (r: BraidResult)
        ensures
            braid_outcome(BraidOperand::Braid(self@), braid_result_operand(rhs@), r@),
    {
        match rhs.as_result() {
            Ok(rhs) => self * rhs,
            Err(e) => BraidResult::from_err(*e),
        }
    }
}

impl vstd::std_specs::ops::MulSpecImpl<&BraidResult> for &Braid {
    open spec fn obeys_mul_spec() -> bool {
        false
    }

    open spec fn mul_req(self, rhs: &BraidResult) -> bool {
        true
    }

    open spec fn mul_spec(self, rhs: &BraidResult) -> BraidResult {
        arbitrary()
    }
}

impl std::ops::Mul<BraidResult> for &BraidResult {
    type Output = BraidResult;

    fn mul(self, rhs: BraidResult) -> (r: BraidResult)
        ensures
            braid_outcome(braid_result_operand(self@), braid_result_operand(rhs@), r@),
    {
        match self.as_result() {
            Ok(lhs) => lhs * rhs,
            Err(e) => BraidResult::from_err(*e),
        }
    }
}

impl vstd::std_specs::ops::MulSpecImpl<BraidResult> for &BraidResult {
    open spec fn obeys_mul_spec() -> bool {
        false
    }

    open spec fn mul_req(self, rhs: BraidResult) -> bool {
        true
    }

    open spec fn mul_spec(self, rhs: BraidResult) -> BraidResult {
        arbitrary()
    }
}

impl std::ops::Mul<&BraidResult> for BraidResult {
    type Output = BraidResult;

    fn mul(self, rhs: &BraidResult) -> (r: BraidResult)
        ensures
            braid_outcome(braid_result_operand(self@), braid_result_operand(rhs@), r@),
    {
        match self.into_result() {
            Ok(lhs) => lhs * rhs,
            Err(e) => BraidResult::from_err(e),
        }
    }
}

impl vstd::std_specs::ops::MulSpecImpl<&BraidResult> for BraidResult {
    open spec fn obeys_mul_spec() -> bool {
        false
    }

    open spec fn mul_req(self, rhs: &BraidResult) -> bool {
        true
    }

    open spec fn mul_spec(self, rhs: &BraidResult) -> BraidResult {
        arbitrary()
    }
}

impl std::ops::Mul<&BraidResult> for &BraidResult {
    type Output = BraidResult;

    fn mul(self, rhs: &BraidResult) -> (r: BraidResult)
        ensures
            braid_outcome(braid_result_operand(self@), braid_result_operand(rhs@), r@),
    {
        match self.as_result() {
            Ok(lhs) => lhs * rhs,
            Err(e) => BraidResult::from_err(*e),
        }
    }
}

impl vstd::std_specs::ops::MulSpecImpl<&BraidResult> for &BraidResult {
    open spec fn obeys_mul_spec() -> bool {
        false
    }

    open spec fn mul_req(self, rhs: &BraidResult) -> bool {
        true
    }

    open spec fn mul_spec(self, rhs: &BraidResult) -> BraidResult {
        arbitrary()
    }
}

} // verus!
