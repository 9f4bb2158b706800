use vstd::prelude::*;

use crate::braid::{braid_outcome, Braid, BraidModel, BraidOperand};
use crate::error::{BraidValidationError, WordValidationError};
use crate::index::BraidIndex;
use crate::letter::Letter;
use crate::multiplication::{
    braid_result_operand, letter_result_operand, word_braid_operand, word_outcome,
};
use crate::result::{BraidResult, LetterResult, WordResult};
use crate::word::Word;

verus! {

/// The outcome of a product of [`MulOperand`]s: a word outcome when both factors are letters or
/// words, a braid outcome otherwise.
#[derive(Debug, PartialEq, Eq, Clone)]
pub enum MulResult {
    /// The outcome of a product of letters and words.
    WordResult(WordResult),
    /// The outcome of a product involving a braid.
    BraidResult(BraidResult),
}

/// An operand of a product: a letter, word or braid, or the outcome of building or multiplying
/// one.
#[derive(Debug, PartialEq, Eq, Clone)]
pub enum MulOperand {
    /// A letter.
    Letter(Letter),
    /// The outcome of building a letter.
    LetterResult(LetterResult),
    /// A word.
    Word(Word),
    /// The outcome of building or multiplying words.
    WordResult(WordResult),
    /// A braid.
    Braid(Braid),
    /// The outcome of building or multiplying braids.
    BraidResult(BraidResult),
    /// The outcome of an earlier product.
    MulResult(MulResult),
}

/// The abstract value of a [`MulOperand`] or [`MulResult`]: the outcome of building a word (a
/// letter being the word of that letter) or of building a braid.
pub ghost enum MulModel {
    /// A word, or why it could not be built.
    Word(Result<Seq<Letter>, WordValidationError>),
    /// A braid, or why it could not be built.
    Braid(Result<BraidModel, BraidValidationError>),
}

impl View for MulResult {
    type V = MulModel;

    open spec fn view(&self) -> MulModel {
        match self {
            MulResult::WordResult(r) => MulModel::Word(r@),
            MulResult::BraidResult(r) => MulModel::Braid(r@),
        }
    }
}

impl View for MulOperand {
    type V = MulModel;

    open spec fn view(&self) -> MulModel {
        match self {
            MulOperand::Letter(l) => MulModel::Word(Ok(seq![*l])),
            MulOperand::LetterResult(r) => MulModel::Word(letter_result_operand(r@)),
            MulOperand::Word(w) => MulModel::Word(Ok(w@)),
            MulOperand::WordResult(r) => MulModel::Word(r@),
            MulOperand::Braid(b) => MulModel::Braid(Ok(b@)),
            MulOperand::BraidResult(r) => MulModel::Braid(r@),
            MulOperand::MulResult(m) => m@,
        }
    }
}

/// An operand of a product of braids, from the abstract value of a [`MulOperand`].
pub open spec fn mul_braid_operand(m: MulModel) -> BraidOperand {
    match m {
        MulModel::Word(r) => word_braid_operand(r),
        MulModel::Braid(r) => braid_result_operand(r),
    }
}

/// What multiplying operands with the abstract values `a` and `b` gives: the product of words
/// (see [`word_outcome`]) when both are words, and otherwise the product of braids (see
/// [`braid_outcome`]).
pub open spec fn mul_operand_post(a: MulModel, b: MulModel, r: MulModel) -> bool {
    match (a, b) {
        (MulModel::Word(x), MulModel::Word(y)) => r == MulModel::Word(word_outcome(x, y)),
        _ => r matches MulModel::Braid(res) && braid_outcome(
            mul_braid_operand(a),
            mul_braid_operand(b),
            res,
        ),
    }
}

impl MulResult {
    /// The index of a braid that the product gave; the product must have given a braid.
    pub fn braid_index(&self) -> (r: BraidIndex)
        requires
            self@ matches MulModel::Braid(Ok(_)),
        ensures
            self@ matches MulModel::Braid(Ok(b)) && r@ == b.index,
    {
        match self {
            MulResult::WordResult(_) => {
                proof {
                    assert(false);
                }
                BraidIndex::from_positive(1)
            },
            MulResult::BraidResult(result) => result.clone_unwrap().braid_index(),
        }
    }
}

impl From<WordResult> for MulResult {
    fn from(value: WordResult) -> (r: MulResult)
        ensures
            r@ == MulModel::Word(value@),
    {
        MulResult::WordResult(value)
    }
}

impl vstd::std_specs::convert::FromSpecImpl<WordResult> for MulResult {
    open spec fn obeys_from_spec() -> bool {
        false
    }

    open spec fn from_spec(v: WordResult) -> MulResult {
        arbitrary()
    }
}

impl From<BraidResult> for MulResult {
    fn from(value: BraidResult) -> (r: MulResult)
        ensures
            r@ == MulModel::Braid(value@),
    {
        MulResult::BraidResult(value)
    }
}

impl vstd::std_specs::convert::FromSpecImpl<BraidResult> for MulResult {
    open spec fn obeys_from_spec() -> bool {
        false
    }

    open spec fn from_spec(v: BraidResult) -> MulResult {
        arbitrary()
    }
}

impl std::ops::Mul for MulOperand {
    type Output = MulResult;

    /// Multiplies two operands of whatever kind, with the product of their kinds.
    fn mul(self, rhs: MulOperand) -> (r: MulResult)
        ensures
            mul_operand_post(self@, rhs@, r@),
    {
        match (self, rhs) {
            (MulOperand::Letter(lhs), MulOperand::Letter(rhs)) => MulResult::from(lhs * rhs),
            (MulOperand::Letter(lhs), MulOperand::LetterResult(rhs)) => MulResult::from(lhs * rhs),
            (MulOperand::Letter(lhs), MulOperand::Word(rhs)) => MulResult::from(lhs * rhs),
            (MulOperand::Letter(lhs), MulOperand::WordResult(rhs)) => MulResult::from(lhs * rhs),
            (MulOperand::Letter(lhs), MulOperand::Braid(rhs)) => MulResult::from(lhs * rhs),
            (MulOperand::Letter(lhs), MulOperand::BraidResult(rhs)) => MulResult::from(lhs * rhs),
            (MulOperand::Letter(lhs), MulOperand::MulResult(MulResult::WordResult(rhs))) => MulResult::from(lhs * rhs),
            (MulOperand::Letter(lhs), MulOperand::MulResult(MulResult::BraidResult(rhs))) => MulResult::from(lhs * rhs),
            (MulOperand::LetterResult(lhs), MulOperand::Letter(rhs)) => MulResult::from(lhs * rhs),
            (MulOperand::LetterResult(lhs), MulOperand::LetterResult(rhs)) => MulResult::from(lhs * rhs),
            (MulOperand::LetterResult(lhs), MulOperand::Word(rhs)) => MulResult::from(lhs * rhs),
            (MulOperand::LetterResult(lhs), MulOperand::WordResult(rhs)) => MulResult::from(lhs * rhs),
            (MulOperand::LetterResult(lhs), MulOperand::Braid(rhs)) => MulResult::from(lhs * rhs),
            (MulOperand::LetterResult(lhs), MulOperand::BraidResult(rhs)) => MulResult::from(lhs * rhs),
            (MulOperand::LetterResult(lhs), MulOperand::MulResult(MulResult::WordResult(rhs))) => MulResult::from(lhs * rhs),
            (MulOperand::LetterResult(lhs), MulOperand::MulResult(MulResult::BraidResult(rhs))) => MulResult::from(lhs * rhs),
            (MulOperand::Word(lhs), MulOperand::Letter(rhs)) => MulResult::from(lhs * rhs),
            (MulOperand::Word(lhs), MulOperand::LetterResult(rhs)) => MulResult::from(lhs * rhs),
            (MulOperand::Word(lhs), MulOperand::Word(rhs)) => MulResult::from(lhs * rhs),
            (MulOperand::Word(lhs), MulOperand::WordResult(rhs)) => MulResult::from(lhs * rhs),
            (MulOperand::Word(lhs), MulOperand::Braid(rhs)) => MulResult::from(lhs * rhs),
            (MulOperand::Word(lhs), MulOperand::BraidResult(rhs)) => MulResult::from(lhs * rhs),
            (MulOperand::Word(lhs), MulOperand::MulResult(MulResult::WordResult(rhs))) => MulResult::from(lhs * rhs),
            (MulOperand::Word(lhs), MulOperand::MulResult(MulResult::BraidResult(rhs))) => MulResult::from(lhs * rhs),
            (MulOperand::WordResult(lhs), MulOperand::Letter(rhs)) => MulResult::from(lhs * rhs),
            (MulOperand::WordResult(lhs), MulOperand::LetterResult(rhs)) => MulResult::from(lhs * rhs),
            (MulOperand::WordResult(lhs), MulOperand::Word(rhs)) => MulResult::from(lhs * rhs),
            (MulOperand::WordResult(lhs), MulOperand::WordResult(rhs)) => MulResult::from(lhs * rhs),
            (MulOperand::WordResult(lhs), MulOperand::Braid(rhs)) => MulResult::from(lhs * rhs),
            (MulOperand::WordResult(lhs), MulOperand::BraidResult(rhs)) => MulResult::from(lhs * rhs),
            (MulOperand::WordResult(lhs), MulOperand::MulResult(MulResult::WordResult(rhs))) => MulResult::from(lhs * rhs),
            (MulOperand::WordResult(lhs), MulOperand::MulResult(MulResult::BraidResult(rhs))) => MulResult::from(lhs * rhs),
            (MulOperand::Braid(lhs), MulOperand::Letter(rhs)) => MulResult::from(lhs * rhs),
            (MulOperand::Braid(lhs), MulOperand::LetterResult(rhs)) => MulResult::from(lhs * rhs),
            (MulOperand::Braid(lhs), MulOperand::Word(rhs)) => MulResult::from(lhs * rhs),
            (MulOperand::Braid(lhs), MulOperand::WordResult(rhs)) => MulResult::from(lhs * rhs),
            (MulOperand::Braid(lhs), MulOperand::Braid(rhs)) => MulResult::from(lhs * rhs),
            (MulOperand::Braid(lhs), MulOperand::BraidResult(rhs)) => MulResult::from(lhs * rhs),
            (MulOperand::Braid(lhs), MulOperand::MulResult(MulResult::WordResult(rhs))) => MulResult::from(lhs * rhs),
            (MulOperand::Braid(lhs), MulOperand::MulResult(MulResult::BraidResult(rhs))) => MulResult::from(lhs * rhs),
            (MulOperand::BraidResult(lhs), MulOperand::Letter(rhs)) => MulResult::from(lhs * rhs),
            (MulOperand::BraidResult(lhs), MulOperand::LetterResult(rhs)) => MulResult::from(lhs * rhs),
            (MulOperand::BraidResult(lhs), MulOperand::Word(rhs)) => MulResult::from(lhs * rhs),
            (MulOperand::BraidResult(lhs), MulOperand::WordResult(rhs)) => MulResult::from(lhs * rhs),
            (MulOperand::BraidResult(lhs), MulOperand::Braid(rhs)) => MulResult::from(lhs * rhs),
            (MulOperand::BraidResult(lhs), MulOperand::BraidResult(rhs)) => MulResult::from(lhs * rhs),
            (MulOperand::BraidResult(lhs), MulOperand::MulResult(MulResult::WordResult(rhs))) => MulResult::from(lhs * rhs),
            (MulOperand::BraidResult(lhs), MulOperand::MulResult(MulResult::BraidResult(rhs))) => MulResult::from(lhs * rhs),
            (MulOperand::MulResult(MulResult::WordResult(lhs)), MulOperand::Letter(rhs)) => MulResult::from(lhs * rhs),
            (MulOperand::MulResult(MulResult::WordResult(lhs)), MulOperand::LetterResult(rhs)) => MulResult::from(lhs * rhs),
            (MulOperand::MulResult(MulResult::WordResult(lhs)), MulOperand::Word(rhs)) => MulResult::from(lhs * rhs),
            (MulOperand::MulResult(MulResult::WordResult(lhs)), MulOperand::WordResult(rhs)) => MulResult::from(lhs * rhs),
            (MulOperand::MulResult(MulResult::WordResult(lhs)), MulOperand::Braid(rhs)) => MulResult::from(lhs * rhs),
            (MulOperand::MulResult(MulResult::WordResult(lhs)), MulOperand::BraidResult(rhs)) => MulResult::from(lhs * rhs),
            (MulOperand::MulResult(MulResult::WordResult(lhs)), MulOperand::MulResult(MulResult::WordResult(rhs))) => MulResult::from(lhs * rhs),
            (MulOperand::MulResult(MulResult::WordResult(lhs)), MulOperand::MulResult(MulResult::BraidResult(rhs))) => MulResult::from(lhs * rhs),
            (MulOperand::MulResult(MulResult::BraidResult(lhs)), MulOperand::Letter(rhs)) => MulResult::from(lhs * rhs),
            (MulOperand::MulResult(MulResult::BraidResult(lhs)), MulOperand::LetterResult(rhs)) => MulResult::from(lhs * rhs),
            (MulOperand::MulResult(MulResult::BraidResult(lhs)), MulOperand::Word(rhs)) => MulResult::from(lhs * rhs),
            (MulOperand::MulResult(MulResult::BraidResult(lhs)), MulOperand::WordResult(rhs)) => MulResult::from(lhs * rhs),
            (MulOperand::MulResult(MulResult::BraidResult(lhs)), MulOperand::Braid(rhs)) => MulResult::from(lhs * rhs),
            (MulOperand::MulResult(MulResult::BraidResult(lhs)), MulOperand::BraidResult(rhs)) => MulResult::from(lhs * rhs),
            (MulOperand::MulResult(MulResult::BraidResult(lhs)), MulOperand::MulResult(MulResult::WordResult(rhs))) => MulResult::from(lhs * rhs),
            (MulOperand::MulResult(MulResult::BraidResult(lhs)), MulOperand::MulResult(MulResult::BraidResult(rhs))) => MulResult::from(lhs * rhs),
        }
    }
}

impl vstd::std_specs::ops::MulSpecImpl for MulOperand {
    open spec fn obeys_mul_spec() -> bool {
        false
    }

    open spec fn mul_req(self, rhs: MulOperand) -> bool {
        true
    }

    open spec fn mul_spec(self, rhs: MulOperand) -> MulResult {
        arbitrary()
    }
}

} // verus!
