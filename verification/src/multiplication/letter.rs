use vstd::prelude::*;

use crate::crossing::{cancel_radius_from, total_artin_len, Crossing};
use crate::error::WordValidationError;
use crate::letter::{letter_views, Letter};
use crate::multiplication::word::{letter_result_operand, word_outcome};
use crate::result::{LetterResult, WordResult};
use crate::word::Word;

verus! {

impl std::ops::Mul for Letter {
    type Output = WordResult;

    /// The product of two letters: the trivial word if they are inverse to each other, the
    /// word of both letters otherwise.
    fn mul(self, rhs: Letter) -> (r: WordResult)
        ensures
            r@ == word_outcome(
                Ok::<Seq<Letter>, WordValidationError>(seq![self]),
                Ok::<Seq<Letter>, WordValidationError>(seq![rhs]),
            ),
    {
        let ghost a = seq![self];
        let ghost b = seq![rhs];
        proof {
            assert(letter_views(a) =~= seq![self@]);
            assert(letter_views(b) =~= seq![rhs@]);
            assert(cancel_radius_from(letter_views(a), letter_views(b), 1) == 1);
        }
        if self.inverse() == rhs {
            let w = Word::trivial();
            proof {
                assert(a.subrange(0, 0) + b.subrange(1, 1) =~= Seq::<Letter>::empty());
                assert(letter_views(Seq::<Letter>::empty()) =~= Seq::<Crossing>::empty());
                assert(total_artin_len(Seq::<Crossing>::empty()) == 0);
            }
            WordResult::from_ok(w)
        } else {
            let mut both: Vec<Letter> = Vec::new();
            both.push(self);
            both.push(rhs);
            proof {
                assert(a.subrange(0, 1) + b.subrange(0, 1) =~= both@);
            }
            Word::try_from_letters(both.as_slice())
        }
    }
}

impl vstd::std_specs::ops::MulSpecImpl for Letter {
    open spec fn obeys_mul_spec() -> bool {
        false
    }

    open spec fn mul_req(self, rhs: Letter) -> bool {
        true
    }

    open spec fn mul_spec(self, rhs: Letter) -> WordResult {
        arbitrary()
    }
}

impl std::ops::Mul<Letter> for LetterResult {
    type Output = WordResult;

    fn mul(self, rhs: Letter) -> (r: WordResult)
        ensures
            r@ == word_outcome(letter_result_operand(self@), Ok::<Seq<Letter>, WordValidationError>(seq![rhs])),
    {
        match self.into_result() {
            Ok(lhs) => lhs * rhs,
            Err(e) => WordResult::from_err(WordValidationError::from(e)),
        }
    }
}

impl vstd::std_specs::ops::MulSpecImpl<Letter> for LetterResult {
    open spec fn obeys_mul_spec() -> bool {
        false
    }

    open spec fn mul_req(self, rhs: Letter) -> bool {
        true
    }

    open spec fn mul_spec(self, rhs: Letter) -> WordResult {
        arbitrary()
    }
}

impl std::ops::Mul<LetterResult> for Letter {
    type Output = WordResult;

    fn mul(self, rhs: LetterResult) -> (r: WordResult)
        ensures
            r@ == word_outcome(Ok::<Seq<Letter>, WordValidationError>(seq![self]), letter_result_operand(rhs@)),
    {
        match rhs.into_result() {
            Ok(rhs) => self * rhs,
            Err(e) => WordResult::from_err(WordValidationError::from(e)),
        }
    }
}

impl vstd::std_specs::ops::MulSpecImpl<LetterResult> for Letter {
    open spec fn obeys_mul_spec() -> bool {
        false
    }

    open spec fn mul_req(self, rhs: LetterResult) -> bool {
        true
    }

    open spec fn mul_spec(self, rhs: LetterResult) -> WordResult {
        arbitrary()
    }
}

impl std::ops::Mul<LetterResult> for LetterResult {
    type Output = WordResult;

    fn mul(self, rhs: LetterResult) -> (r: WordResult)
        ensures
            r@ == word_outcome(letter_result_operand(self@), letter_result_operand(rhs@)),
    {
        match (self.into_result(), rhs.into_result()) {
            (Ok(lhs), Ok(rhs)) => lhs * rhs,
            (Err(e), _) => WordResult::from_err(WordValidationError::from(e)),
            (_, Err(e)) => WordResult::from_err(WordValidationError::from(e)),
        }
    }
}

impl vstd::std_specs::ops::MulSpecImpl<LetterResult> for LetterResult {
    open spec fn obeys_mul_spec() -> bool {
        false
    }

    open spec fn mul_req(self, rhs: LetterResult) -> bool {
        true
    }

    open spec fn mul_spec(self, rhs: LetterResult) -> WordResult {
        arbitrary()
    }
}

} // verus!
