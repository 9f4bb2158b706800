use vstd::prelude::*;

use crate::crossing::{
    all_valid, decompose_seq, is_reduced, lemma_decompose_seq, lemma_min_index_bound,
    lemma_min_index_attained, lemma_strand_end_cancel_product,
    lemma_min_index_bounds_heads, lemma_seq_inverse_props, lemma_total_bounds,
    cancel_product, seq_inverse, seq_min_index, strand_end, total_artin_len, writhe, Crossing,
};
use crate::error::{BraidValidationError, IndexValidationError, WordValidationError};
use crate::index::BraidIndex;
use crate::letter::{letter_views, Letter};
use crate::result::BraidResult;
use crate::sign::Sign;
use crate::word::{
    coalesce_word_spec, lemma_cancel_product_heads, lemma_coalesce_heads, lemma_inverse_cancels,
    lemma_letter_product, lemma_product_associative, lemma_trivial_is_identity, letter_data,
    min_index_of, word_check, word_mul_spec, word_try_new_post, word_wf, LetterData, Word,
};

verus! {

/// The abstract value of a braid: its braid index and the letters of its word.
pub ghost struct BraidModel {
    /// The number of strands.
    pub index: int,
    /// The letters of the word.
    pub letters: Seq<Letter>,
}

/// The smallest braid index that accommodates the letters `s`.
pub open spec fn letters_min_index(s: Seq<Letter>) -> int {
    seq_min_index(letter_views(s))
}

/// Whether a braid model is the value of a braid: its word is a word, and its index fits in a
/// [`u16`] and accommodates every letter.
pub open spec fn braid_wf(b: BraidModel) -> bool {
    &&& word_wf(b.letters)
    &&& 1 <= b.index <= u16::MAX
    &&& letters_min_index(b.letters) <= b.index
}

/// What building a braid of index `index` (at least one) from the letters `s` gives: the braid,
/// or [`BraidValidationError::IndexTooSmall`] if some letter needs more strands.
pub open spec fn index_check_post(index: int, s: Seq<Letter>, r: Result<BraidModel, BraidValidationError>) -> bool {
    if letters_min_index(s) <= index {
        r == Ok::<BraidModel, BraidValidationError>(BraidModel { index, letters: s })
    } else {
        r matches Err(BraidValidationError::IndexTooSmall { index: i, minimal_required_index: m })
            && i@ == index && m@ == letters_min_index(s)
    }
}

/// What [`Braid::try_new`] gives for the index `index` and the letters `s` of a word: the
/// smallest index that fits the word if no index is given, the failure to build the index if
/// it is not a positive [`u16`], and otherwise as [`index_check_post`] says.
pub open spec fn braid_try_new_post(
    index: Option<int>,
    s: Seq<Letter>,
    r: Result<BraidModel, BraidValidationError>,
) -> bool {
    match index {
        None => r == Ok::<BraidModel, BraidValidationError>(
            BraidModel { index: letters_min_index(s), letters: s },
        ),
        Some(i) => if 1 <= i <= u16::MAX {
            index_check_post(i, s, r)
        } else if i == 0 {
            r == Err::<BraidModel, BraidValidationError>(
                BraidValidationError::IndexValidation(IndexValidationError::Zero),
            )
        } else {
            r matches Err(BraidValidationError::IndexValidation(IndexValidationError::FromInt(_)))
        },
    }
}

/// The index given to [`Braid::try_new`], as an integer.
pub open spec fn index_arg(index: Option<i64>) -> Option<int> {
    match index {
        Some(i) => Some(i as int),
        None => None,
    }
}

/// An operand of a product of braids: a braid, a word, or the failure to build one of them.
pub ghost enum BraidOperand {
    /// A braid.
    Braid(BraidModel),
    /// A word, given by its letters; a letter is the word of that letter.
    Word(Seq<Letter>),
    /// The failure to build the operand.
    Failed(BraidValidationError),
}

/// What multiplying a braid on `index` strands by a word needing `required` strands gives, if
/// the product of the words is `product`: [`BraidValidationError::IndexTooSmall`] if the word
/// does not fit, otherwise the braid of the product on the same strands, or the failure to
/// build the product.
pub open spec fn product_post(
    index: int,
    required: int,
    product: Result<Seq<Letter>, WordValidationError>,
    r: Result<BraidModel, BraidValidationError>,
) -> bool {
    if index < required {
        r matches Err(BraidValidationError::IndexTooSmall { index: i, minimal_required_index: m })
            && i@ == index && m@ == required
    } else {
        match product {
            Ok(s) => r == Ok::<BraidModel, BraidValidationError>(BraidModel { index, letters: s }),
            Err(e) => r == Err::<BraidModel, BraidValidationError>(
                BraidValidationError::WordValidation(e),
            ),
        }
    }
}

/// What multiplying two operands gives: the failure of the left operand, else that of the
/// right one; for two braids, [`BraidValidationError::UnequalIndices`] unless they have the
/// same index; and otherwise as [`product_post`] says.
pub open spec fn braid_outcome(
    a: BraidOperand,
    b: BraidOperand,
    r: Result<BraidModel, BraidValidationError>,
) -> bool {
    match (a, b) {
        (BraidOperand::Failed(e), _) => r == Err::<BraidModel, BraidValidationError>(e),
        (_, BraidOperand::Failed(e)) => r == Err::<BraidModel, BraidValidationError>(e),
        (BraidOperand::Braid(x), BraidOperand::Braid(y)) => if x.index != y.index {
            r matches Err(BraidValidationError::UnequalIndices { left: l, right: rt })
                && l@ == x.index && rt@ == y.index
        } else {
            product_post(x.index, 1, word_mul_spec(x.letters, y.letters), r)
        },
        (BraidOperand::Braid(x), BraidOperand::Word(w)) => product_post(
            x.index,
            letters_min_index(w),
            word_mul_spec(x.letters, w),
            r,
        ),
        (BraidOperand::Word(w), BraidOperand::Braid(y)) => product_post(
            y.index,
            letters_min_index(w),
            word_mul_spec(w, y.letters),
            r,
        ),
        (BraidOperand::Word(_), BraidOperand::Word(_)) => false,
    }
}

/// The product of two words of letters fits on every number of strands that fits both.
proof fn lemma_product_fits(a: Seq<Letter>, b: Seq<Letter>, index: int)
    requires
        1 <= index,
        letters_min_index(a) <= index,
        letters_min_index(b) <= index,
    ensures
        letters_min_index(crate::word::letter_product(a, b)) <= index,
{
    lemma_min_index_bound(letter_views(a), index);
    lemma_min_index_bound(letter_views(b), index);
    lemma_letter_product(a, b);
    lemma_cancel_product_heads(letter_views(a), letter_views(b), index);
    lemma_min_index_bound(letter_views(crate::word::letter_product(a, b)), index);
}

/// Multiplying a braid by its inverse, on either side, gives the trivial braid on the same
/// strands.
pub proof fn lemma_braid_inverse_cancels(
    b: BraidModel,
    inv: BraidModel,
    left: Result<BraidModel, BraidValidationError>,
    right: Result<BraidModel, BraidValidationError>,
)
    requires
        braid_wf(b),
        inv.index == b.index,
        letter_views(inv.letters) == seq_inverse(letter_views(b.letters)),
        braid_outcome(BraidOperand::Braid(inv), BraidOperand::Braid(b), left),
        braid_outcome(BraidOperand::Braid(b), BraidOperand::Braid(inv), right),
    ensures
        left == Ok::<BraidModel, BraidValidationError>(
            BraidModel { index: b.index, letters: Seq::empty() },
        ),
        right == Ok::<BraidModel, BraidValidationError>(
            BraidModel { index: b.index, letters: Seq::empty() },
        ),
{
    lemma_inverse_cancels(b.letters, inv.letters);
}

/// The trivial braid on the strands of a braid is a two-sided identity for it.
pub proof fn lemma_braid_trivial_is_identity(
    b: BraidModel,
    left: Result<BraidModel, BraidValidationError>,
    right: Result<BraidModel, BraidValidationError>,
)
    requires
        braid_wf(b),
        braid_outcome(
            BraidOperand::Braid(BraidModel { index: b.index, letters: Seq::empty() }),
            BraidOperand::Braid(b),
            left,
        ),
        braid_outcome(
            BraidOperand::Braid(b),
            BraidOperand::Braid(BraidModel { index: b.index, letters: Seq::empty() }),
            right,
        ),
    ensures
        left == Ok::<BraidModel, BraidValidationError>(b),
        right == Ok::<BraidModel, BraidValidationError>(b),
{
    lemma_trivial_is_identity(b.letters);
}

/// Braids multiply exactly when they have the same index and the product of their words is
/// not too long; the product then has that index and fits on it.
pub proof fn lemma_braid_product_closure(
    a: BraidModel,
    b: BraidModel,
    r: Result<BraidModel, BraidValidationError>,
)
    requires
        braid_wf(a),
        braid_wf(b),
        braid_outcome(BraidOperand::Braid(a), BraidOperand::Braid(b), r),
    ensures
        r is Ok <==> (a.index == b.index && word_mul_spec(a.letters, b.letters) is Ok),
        r matches Ok(p) ==> p.index == a.index && braid_wf(p),
{
    if a.index == b.index {
        lemma_product_fits(a.letters, b.letters, a.index);
        crate::word::lemma_letter_product_valid(a.letters, b.letters);
    }
}

/// The multiplication of braids on the same strands whose words are freely reduced is
/// associative: when both two-factor products exist, the two bracketings of the product of
/// three braids succeed or fail together, and agree.
pub proof fn lemma_braid_product_associative(
    a: BraidModel,
    b: BraidModel,
    c: BraidModel,
    ab: BraidModel,
    bc: BraidModel,
    left: Result<BraidModel, BraidValidationError>,
    right: Result<BraidModel, BraidValidationError>,
)
    requires
        is_reduced(letter_views(a.letters)),
        is_reduced(letter_views(b.letters)),
        is_reduced(letter_views(c.letters)),
        braid_outcome(
            BraidOperand::Braid(a),
            BraidOperand::Braid(b),
            Ok::<BraidModel, BraidValidationError>(ab),
        ),
        braid_outcome(
            BraidOperand::Braid(b),
            BraidOperand::Braid(c),
            Ok::<BraidModel, BraidValidationError>(bc),
        ),
        braid_outcome(BraidOperand::Braid(ab), BraidOperand::Braid(c), left),
        braid_outcome(BraidOperand::Braid(a), BraidOperand::Braid(bc), right),
    ensures
        left is Ok <==> right is Ok,
        left matches Ok(l) ==> right matches Ok(r) && l.index == r.index && letter_views(l.letters)
            == letter_views(r.letters),
        left is Err ==> left == right,
{
    lemma_product_associative(a.letters, b.letters, c.letters);
}

/// Building a braid from a word: with an index `i` that is a positive [`u16`], it succeeds exactly
/// when every letter's head strand is at most `i`; with no index, it always succeeds, on the
/// fewest strands that hold every letter (one, or the highest head strand). The braid built
/// carries the word unchanged.
pub proof fn lemma_braid_try_new_fits(
    index: Option<int>,
    s: Seq<Letter>,
    r: Result<BraidModel, BraidValidationError>,
)
    requires
        word_wf(s),
        braid_try_new_post(index, s, r),
    ensures
        r matches Ok(b) ==> b.letters == s && braid_wf(b) && forall|j: int|
            0 <= j < s.len() ==> (#[trigger] letter_views(s)[j]).head <= b.index,
        index matches Some(i) ==> (1 <= i <= u16::MAX ==> (r is Ok <==> forall|j: int|
            0 <= j < s.len() ==> (#[trigger] letter_views(s)[j]).head <= i)),
        index is None ==> r is Ok,
        index is None ==> (r matches Ok(b) && (b.index == 1 || exists|j: int|
            0 <= j < s.len() && (#[trigger] letter_views(s)[j]).head == b.index)),
{
    let v = letter_views(s);
    lemma_min_index_bounds_heads(v);
    lemma_min_index_bound(v, u16::MAX as int);
    assert forall|j: int| 0 <= j < v.len() implies (#[trigger] v[j]).head <= u16::MAX by {
        assert(v[j].is_valid());
    }
    if let Some(i) = index {
        lemma_min_index_bound(v, i);
    }
    lemma_min_index_attained(v);
}

/// Multiplying a braid `b` on the right by a word `w` fails with
/// [`BraidValidationError::IndexTooSmall`] exactly when `w` needs more strands than `b` has.
/// Otherwise it succeeds exactly when the product of the words is not too long, and gives the
/// braid on `b`'s strands whose word is that of `b` followed by `w`, with the inverse pairs at
/// the junction cancelled. It then agrees with multiplying `b` by the braid of `w` on the same
/// strands.
pub proof fn lemma_braid_times_word(
    b: BraidModel,
    w: Seq<Letter>,
    r: Result<BraidModel, BraidValidationError>,
    by_braid: Result<BraidModel, BraidValidationError>,
)
    requires
        braid_wf(b),
        word_wf(w),
        braid_outcome(BraidOperand::Braid(b), BraidOperand::Word(w), r),
        braid_outcome(
            BraidOperand::Braid(b),
            BraidOperand::Braid(BraidModel { index: b.index, letters: w }),
            by_braid,
        ),
    ensures
        (r matches Err(BraidValidationError::IndexTooSmall { .. })) <==> b.index
            < letters_min_index(w),
        r is Ok <==> (letters_min_index(w) <= b.index && total_artin_len(
            cancel_product(letter_views(b.letters), letter_views(w)),
        ) <= u16::MAX),
        r matches Ok(p) ==> p.index == b.index && braid_wf(p) && letter_views(p.letters)
            == cancel_product(letter_views(b.letters), letter_views(w)),
        r matches Ok(p) ==> forall|x: int| #[trigger] strand_end(letter_views(p.letters), x)
            == strand_end(letter_views(w), strand_end(letter_views(b.letters), x)),
        letters_min_index(w) <= b.index ==> r == by_braid,
{
    lemma_letter_product(b.letters, w);
    assert forall|x: int| #[trigger]
        strand_end(cancel_product(letter_views(b.letters), letter_views(w)), x) == strand_end(
            letter_views(w),
            strand_end(letter_views(b.letters), x),
        ) by {
        lemma_strand_end_cancel_product(letter_views(b.letters), letter_views(w), x);
    }
    if letters_min_index(w) <= b.index {
        lemma_product_fits(b.letters, w, b.index);
        crate::word::lemma_letter_product_valid(b.letters, w);
    }
}

/// Multiplying a braid `b` on the left by a word `w` fails with
/// [`BraidValidationError::IndexTooSmall`] exactly when `w` needs more strands than `b` has.
/// Otherwise it succeeds exactly when the product of the words is not too long, and gives the
/// braid on `b`'s strands whose word is `w` followed by that of `b`, with the inverse pairs at
/// the junction cancelled. It then agrees with multiplying the braid of `w` on the same strands
/// by `b`.
pub proof fn lemma_word_times_braid(
    w: Seq<Letter>,
    b: BraidModel,
    r: Result<BraidModel, BraidValidationError>,
    by_braid: Result<BraidModel, BraidValidationError>,
)
    requires
        braid_wf(b),
        word_wf(w),
        braid_outcome(BraidOperand::Word(w), BraidOperand::Braid(b), r),
        braid_outcome(
            BraidOperand::Braid(BraidModel { index: b.index, letters: w }),
            BraidOperand::Braid(b),
            by_braid,
        ),
    ensures
        (r matches Err(BraidValidationError::IndexTooSmall { .. })) <==> b.index
            < letters_min_index(w),
        r is Ok <==> (letters_min_index(w) <= b.index && total_artin_len(
            cancel_product(letter_views(w), letter_views(b.letters)),
        ) <= u16::MAX),
        r matches Ok(p) ==> p.index == b.index && braid_wf(p) && letter_views(p.letters)
            == cancel_product(letter_views(w), letter_views(b.letters)),
        r matches Ok(p) ==> forall|x: int| #[trigger] strand_end(letter_views(p.letters), x)
            == strand_end(letter_views(b.letters), strand_end(letter_views(w), x)),
        letters_min_index(w) <= b.index ==> r == by_braid,
{
    lemma_letter_product(w, b.letters);
    assert forall|x: int| #[trigger]
        strand_end(cancel_product(letter_views(w), letter_views(b.letters)), x) == strand_end(
            letter_views(b.letters),
            strand_end(letter_views(w), x),
        ) by {
        lemma_strand_end_cancel_product(letter_views(w), letter_views(b.letters), x);
    }
    if letters_min_index(w) <= b.index {
        lemma_product_fits(w, b.letters, b.index);
        crate::word::lemma_letter_product_valid(w, b.letters);
    }
}

/// The inverse of a braid has the opposite writhe.
pub proof fn lemma_braid_writhe_of_inverse(b: BraidModel, inv: BraidModel)
    requires
        letter_views(inv.letters) == seq_inverse(letter_views(b.letters)),
    ensures
        writhe(letter_views(inv.letters)) == -writhe(letter_views(b.letters)),
{
    lemma_seq_inverse_props(letter_views(b.letters));
}

/// Decomposing and coalescing keep a braid on its strands: decomposing keeps the total Artin
/// length and the minimal braid index, and coalescing does not increase either.
pub proof fn lemma_braid_rewriting_fits(b: BraidModel)
    requires
        braid_wf(b),
    ensures
        ({
            let v = letter_views(b.letters);
            let d = decompose_seq(v);
            let c = coalesce_word_spec(d);
            &&& crate::crossing::total_artin_len(d) == crate::crossing::total_artin_len(v)
            &&& seq_min_index(d) == seq_min_index(v)
            &&& all_valid(c)
            &&& crate::crossing::total_artin_len(c) <= crate::crossing::total_artin_len(v)
            &&& seq_min_index(c) <= seq_min_index(v)
        }),
{
    let v = letter_views(b.letters);
    let d = decompose_seq(v);
    lemma_decompose_seq(v);
    crate::crossing::lemma_total_ones(d);
    crate::word::lemma_coalesce_word(d);
    lemma_min_index_bounds_heads(d);
    lemma_min_index_bounds_heads(v);
    lemma_coalesce_heads(d, seq_min_index(v));
    lemma_min_index_bound(coalesce_word_spec(d), seq_min_index(v));
}

/// A braid: a braid index together with a word whose letters all fit on that many strands.
#[derive(Debug, Eq)]
pub struct Braid {
    index: BraidIndex,
    word: Word,
}

impl View for Braid {
    type V = BraidModel;

    closed spec fn view(&self) -> BraidModel {
        BraidModel { index: self.index@, letters: self.word@ }
    }
}

impl Braid {
    /// The word of a braid is a word, and its index accommodates every letter.
    #[verifier::type_invariant]
    pub open spec fn inv(self) -> bool {
        braid_wf(self@)
    }

    /// The braid is well-formed.
    pub(crate) fn witness_wf(&self)
        ensures
            braid_wf(self@),
    {
        proof {
            use_type_invariant(self);
            use_type_invariant(&self.index);
            use_type_invariant(&self.word);
        }
    }

    /// Builds a braid from an index and a word that it accommodates.
    pub(crate) fn from_parts(index: BraidIndex, word: Word) -> (b: Braid)
        requires
            letters_min_index(word@) <= index@,
        ensures
            b@ == (BraidModel { index: index@, letters: word@ }),
    {
        proof {
            use_type_invariant(&index);
        }
        word.witness_wf();
        Braid { index, word }
    }

    /// Builds a braid on `index` strands from a word, or on the fewest strands that
    /// accommodate the word if no index is given.
    ///
    /// Fails with [`BraidValidationError::IndexValidation`] if the index is not a positive
    /// [`u16`], and with [`BraidValidationError::IndexTooSmall`] if it is too small for the word.
    pub fn try_new(index: Option<i64>, word: Word) -> (r: BraidResult)
        ensures
            braid_try_new_post(index_arg(index), word@, r@),
    {
        let minimal = word.minimal_required_braid_index();
        let index = match index {
            Some(i) => match BraidIndex::try_new(i).into_result() {
                Ok(index) => index,
                Err(e) => {
                    return BraidResult::from_err(BraidValidationError::from(e));
                },
            },
            None => minimal,
        };
        if index.value() < minimal.value() {
            BraidResult::from_err(
                BraidValidationError::IndexTooSmall { index, minimal_required_index: minimal },
            )
        } else {
            BraidResult::from_ok(Braid::from_parts(index, word))
        }
    }

    /// Builds a braid on the fewest strands that accommodate the given letters.
    ///
    /// Fails with [`BraidValidationError::WordValidation`] if the letters do not form a word.
    pub fn try_from_letters(letters: &[Letter]) -> (r: BraidResult)
        ensures
            r@ == match word_check(letters@) {
                Ok(s) => Ok::<BraidModel, BraidValidationError>(
                    BraidModel { index: letters_min_index(s), letters: s },
                ),
                Err(e) => Err(BraidValidationError::WordValidation(e)),
            },
    {
        match Word::try_from_letters(letters).into_result() {
            Ok(word) => {
                let index = word.minimal_required_braid_index();
                BraidResult::from_ok(Braid::from_parts(index, word))
            },
            Err(e) => BraidResult::from_err(BraidValidationError::from(e)),
        }
    }

    /// Builds a braid from an optional index and the data of the letters of its word, as
    /// [`Word::try_new`] and [`Braid::try_new`] take them.
    pub fn from_data(index: Option<i64>, letter_data: Vec<LetterData>) -> (r: BraidResult)
        ensures
            exists|w: Result<Seq<Letter>, WordValidationError>|
                {
                    &&& #[trigger] word_try_new_post(letter_data@, w)
                    &&& match w {
                        Ok(s) => braid_try_new_post(index_arg(index), s, r@),
                        Err(e) => r@ == Err::<BraidModel, BraidValidationError>(
                            BraidValidationError::WordValidation(e),
                        ),
                    }
                },
    {
        let ghost data = letter_data@;
        match Word::try_new(letter_data).into_result() {
            Ok(word) => {
                let r = Braid::try_new(index, word);
                proof {
                    assert(word_try_new_post(data, Ok(word@)));
                }
                r
            },
            Err(e) => {
                let r = BraidResult::from_err(BraidValidationError::from(e));
                proof {
                    assert(word_try_new_post(data, Err(e)));
                }
                r
            },
        }
    }

    /// The braid on `index` strands with no crossings.
    pub fn trivial(index: i64) -> (r: BraidResult)
        ensures
            braid_try_new_post(Some(index as int), Seq::<Letter>::empty(), r@),
    {
        let w = Word::trivial();
        Braid::try_new(Some(index), w)
    }

    /// The braid with its word decomposed into Artin generators.
    pub fn decompose(&self) -> (r: Braid)
        ensures
            r@.index == self@.index,
            letter_views(r@.letters) == decompose_seq(letter_views(self@.letters)),
            forall|i: int| 0 <= i < r@.letters.len() ==> #[trigger] r@.letters[i] is Artin,
            writhe(letter_views(r@.letters)) == writhe(letter_views(self@.letters)),
            forall|x: int| #[trigger] strand_end(letter_views(r@.letters), x) == strand_end(
                letter_views(self@.letters),
                x,
            ),
    {
        self.witness_wf();
        let word = self.word.decompose();
        proof {
            lemma_decompose_seq(letter_views(self@.letters));
        }
        Braid::from_parts(self.index, word)
    }

    /// The braid with its word coalesced into band generators (see [`Word::coalesce`]).
    pub fn coalesce(&self) -> (r: Braid)
        ensures
            r@.index == self@.index,
            letter_views(r@.letters) == coalesce_word_spec(decompose_seq(letter_views(self@.letters))),
            forall|i: int| 0 <= i < r@.letters.len() ==> #[trigger] r@.letters[i] is Band,
            writhe(letter_views(r@.letters)) == writhe(letter_views(self@.letters)),
            forall|x: int| #[trigger] strand_end(letter_views(r@.letters), x) == strand_end(
                letter_views(self@.letters),
                x,
            ),
    {
        self.witness_wf();
        let word = self.word.coalesce();
        proof {
            let views = letter_views(self@.letters);
            let d = decompose_seq(views);
            lemma_decompose_seq(views);
            lemma_min_index_bounds_heads(d);
            lemma_coalesce_heads(d, self@.index);
            lemma_min_index_bound(coalesce_word_spec(d), self@.index);
        }
        Braid::from_parts(self.index, word)
    }

    /// The number of strands of the braid.
    pub fn braid_index(&self) -> (r: BraidIndex)
        ensures
            r@ == self@.index,
    {
        self.index
    }

    /// The word of the braid.
    pub fn word(&self) -> (r: Word)
        ensures
            r@ == self@.letters,
    {
        self.word.clone()
    }

    /// The letters of the word of the braid.
    pub fn letters(&self) -> (r: Vec<Letter>)
        ensures
            r@ == self@.letters,
    {
        self.word.letters()
    }

    /// The fewest strands that accommodate the word of the braid.
    pub fn minimal_required_braid_index(&self) -> (r: BraidIndex)
        ensures
            r@ == letters_min_index(self@.letters),
    {
        self.word.minimal_required_braid_index()
    }

    /// The number of positive letters minus the number of negative letters.
    pub fn writhe(&self) -> (r: i32)
        ensures
            r == writhe(letter_views(self@.letters)),
    {
        self.witness_wf();
        let ghost views = letter_views(self@.letters);
        proof {
            lemma_total_bounds(views);
        }
        let letters = self.word.as_slice();
        let mut total: i32 = 0;
        let mut i: usize = 0;
        while i < letters.len()
            invariant
                0 <= i <= letters@.len(),
                letters@ == self@.letters,
                views == letter_views(self@.letters),
                letters@.len() <= u16::MAX,
                total == writhe(views.subrange(0, i as int)),
                -i <= total <= i,
            decreases letters@.len() - i,
        {
            proof {
                assert(views.subrange(0, i + 1).drop_last() =~= views.subrange(0, i as int));
                assert(views.subrange(0, i + 1).last() == letters@[i as int]@);
            }
            if letters[i].sign() == Sign::Positive {
                total = total + 1;
            } else {
                total = total - 1;
            }
            i = i + 1;
        }
        proof {
            assert(views.subrange(0, letters@.len() as int) =~= views);
        }
        total
    }

    /// The number of letters of the word of the braid.
    pub fn letter_length(&self) -> (r: u16)
        ensures
            r == self@.letters.len(),
    {
        self.word.length()
    }

    /// The total Artin length of the word of the braid.
    pub fn artin_length(&self) -> (r: u16)
        ensures
            r == crate::crossing::total_artin_len(letter_views(self@.letters)),
    {
        self.word.artin_length()
    }

    /// The braid with the inverse word, on the same strands.
    pub fn inverse(&self) -> (r: Braid)
        ensures
            r@.index == self@.index,
            r@.letters.len() == self@.letters.len(),
            letter_views(r@.letters) == seq_inverse(letter_views(self@.letters)),
            forall|i: int|
                0 <= i < self@.letters.len() ==> (#[trigger] r@.letters[i] is Artin
                    <==> self@.letters[self@.letters.len() - 1 - i] is Artin),
    {
        self.witness_wf();
        let word = self.word.inverse();
        proof {
            lemma_seq_inverse_props(letter_views(self@.letters));
        }
        Braid::from_parts(self.index, word)
    }

    /// Whether the word of the braid has no letters.
    pub fn is_trivial(&self) -> (r: bool)
        ensures
            r == (self@.letters.len() == 0),
    {
        self.word.is_trivial()
    }

    /// Multiplies the braid on the right by the word of the letters `rhs`.
    pub(crate) fn times_letters(&self, rhs: &[Letter]) -> (r: BraidResult)
        ensures
            braid_outcome(BraidOperand::Braid(self@), BraidOperand::Word(rhs@), r@),
    {
        self.witness_wf();
        let required = min_index_of(rhs);
        if self.index.value() < required.value() {
            return BraidResult::from_err(
                BraidValidationError::IndexTooSmall {
                    index: self.index,
                    minimal_required_index: required,
                },
            );
        }
        match Word::product_of(self.word.as_slice(), rhs).into_result() {
            Ok(w) => {
                proof {
                    lemma_product_fits(self@.letters, rhs@, self@.index);
                }
                BraidResult::from_ok(Braid::from_parts(self.index, w))
            },
            Err(e) => BraidResult::from_err(BraidValidationError::from(e)),
        }
    }

    /// Multiplies the braid `rhs` on the left by the word of the letters `lhs`.
    pub(crate) fn letters_times(lhs: &[Letter], rhs: &Braid) -> (r: BraidResult)
        ensures
            braid_outcome(BraidOperand::Word(lhs@), BraidOperand::Braid(rhs@), r@),
    {
        rhs.witness_wf();
        let required = min_index_of(lhs);
        if rhs.index.value() < required.value() {
            return BraidResult::from_err(
                BraidValidationError::IndexTooSmall {
                    index: rhs.index,
                    minimal_required_index: required,
                },
            );
        }
        match Word::product_of(lhs, rhs.word.as_slice()).into_result() {
            Ok(w) => {
                proof {
                    lemma_product_fits(lhs@, rhs@.letters, rhs@.index);
                }
                BraidResult::from_ok(Braid::from_parts(rhs.index, w))
            },
            Err(e) => BraidResult::from_err(BraidValidationError::from(e)),
        }
    }

    /// Multiplies two braids, which must have the same index.
    pub(crate) fn times_braid(&self, rhs: &Braid) -> (r: BraidResult)
        ensures
            braid_outcome(BraidOperand::Braid(self@), BraidOperand::Braid(rhs@), r@),
    {
        self.witness_wf();
        rhs.witness_wf();
        if self.index != rhs.index {
            return BraidResult::from_err(
                BraidValidationError::UnequalIndices { left: self.index, right: rhs.index },
            );
        }
        match Word::product_of(self.word.as_slice(), rhs.word.as_slice()).into_result() {
            Ok(w) => {
                proof {
                    lemma_product_fits(self@.letters, rhs@.letters, self@.index);
                }
                BraidResult::from_ok(Braid::from_parts(self.index, w))
            },
            Err(e) => BraidResult::from_err(BraidValidationError::from(e)),
        }
    }

    /// The data of the letters of the word: foot, head (none for an Artin letter) and sign.
    pub fn data(&self) -> (r: Vec<(u16, Option<u16>, Sign)>)
        ensures
            r@ == self@.letters.map_values(|l: Letter| letter_data(l)),
    {
        self.word.data()
    }

    /// The letters of the word of the braid, as a slice.
    pub fn as_slice(&self) -> (r: &[Letter])
        ensures
            r@ == self@.letters,
    {
        self.word.as_slice()
    }
}

impl Clone for Braid {
    fn clone(&self) -> (r: Braid)
        ensures
            r@ == self@,
    {
        self.witness_wf();
        Braid::from_parts(self.index, self.word.clone())
    }
}

impl Default for Braid {
    fn default() -> (r: Braid)
        ensures
            r@ == (BraidModel { index: 1, letters: Seq::<Letter>::empty() }),
    {
        let w = Word::trivial();
        proof {
            assert(letter_views(w@) =~= Seq::<Crossing>::empty());
        }
        Braid::from_parts(BraidIndex::from_positive(1), w)
    }
}

impl PartialEq for Braid {
    fn eq(&self, other: &Braid) -> (r: bool)
        ensures
            r == (self@.index == other@.index && letter_views(self@.letters) == letter_views(
                other@.letters,
            )),
    {
        self.index == other.index && self.word == other.word
    }
}

impl vstd::std_specs::cmp::PartialEqSpecImpl for Braid {
    open spec fn obeys_eq_spec() -> bool {
        true
    }

    open spec fn eq_spec(&self, other: &Braid) -> bool {
        self@.index == other@.index && letter_views(self@.letters) == letter_views(other@.letters)
    }
}

impl From<Word> for Braid {
    fn from(value: Word) -> (r: Braid)
        ensures
            r@ == (BraidModel { index: letters_min_index(value@), letters: value@ }),
    {
        let index = value.minimal_required_braid_index();
        Braid::from_parts(index, value)
    }
}

impl vstd::std_specs::convert::FromSpecImpl<Word> for Braid {
    open spec fn obeys_from_spec() -> bool {
        false
    }

    open spec fn from_spec(v: Word) -> Braid {
        arbitrary()
    }
}

impl From<&Word> for Braid {
    fn from(value: &Word) -> (r: Braid)
        ensures
            r@ == (BraidModel { index: letters_min_index(value@), letters: value@ }),
    {
        Braid::from(value.clone())
    }
}

impl vstd::std_specs::convert::FromSpecImpl<&Word> for Braid {
    open spec fn obeys_from_spec() -> bool {
        false
    }

    open spec fn from_spec(v: &Word) -> Braid {
        arbitrary()
    }
}

impl std::ops::Deref for Braid {
    type Target = [Letter];

    fn deref(&self) -> (r: &[Letter])
        ensures
            r@ == self@.letters,
    {
        self.word.as_slice()
    }
}

impl AsRef<[Letter]> for Braid {
    fn as_ref(&self) -> (r: &[Letter])
        ensures
            r@ == self@.letters,
    {
        self.word.as_slice()
    }
}

} // verus!

verus! {

impl IntoIterator for Braid {
    type Item = (u16, Option<u16>, Sign);
    type IntoIter = std::vec::IntoIter<(u16, Option<u16>, Sign)>;

    /// Iterates over the data of the letters of the word (see [`Braid::data`]).
    fn into_iter(self) -> (r: std::vec::IntoIter<(u16, Option<u16>, Sign)>)
        ensures
            vstd::std_specs::iter::IteratorSpec::remaining(&r) == self@.letters.map_values(
                |l: Letter| letter_data(l),
            ),
    {
        proof {
            broadcast use vstd::std_specs::vec::axiom_spec_into_iter;
        }
        self.data().into_iter()
    }
}

} // verus!
