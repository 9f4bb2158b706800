use vstd::prelude::*;

use crate::crossing::{
    all_valid, all_valid_artin, cancel_radius, decompose_seq, is_reduced,
    lemma_cancel_product_associative, lemma_cancel_radius, lemma_decompose_artin,
    lemma_decompose_seq, lemma_min_index_bound, lemma_seq_inverse_props, lemma_total_ones,
    seq_inverse, seq_min_index, total_artin_len, Crossing,
};
use crate::crossing::{
    cancel_product, lemma_strand_end_cancel_product, lemma_writhe_cancel_product, strand_end,
    writhe,
};
use crate::error::WordValidationError;
use crate::letter::{letter_views, Letter};
use crate::word::{
    lemma_cancel_product_heads, lemma_letter_product, lemma_letter_product_valid, letter_product,
    word_mul_spec, word_wf,
};

verus! {

/// Multiplying a word by its inverse, on either side, gives the trivial word.
pub proof fn lemma_inverse_cancels(s: Seq<Letter>, t: Seq<Letter>)
    requires
        letter_views(t) == seq_inverse(letter_views(s)),
    ensures
        word_mul_spec(t, s) == Ok::<Seq<Letter>, WordValidationError>(Seq::empty()),
        word_mul_spec(s, t) == Ok::<Seq<Letter>, WordValidationError>(Seq::empty()),
{
    let v = letter_views(s);
    let w = letter_views(t);
    let n = v.len();
    lemma_seq_inverse_props(v);
    assert(w.len() == n);
    assert forall|j: int| 0 <= j < n implies #[trigger] w[n - 1 - j].inverse() == v[j] by {
        v[j].lemma_inverse_involutive();
    }
    lemma_cancel_radius(w, v);
    if cancel_radius(w, v) < n {
        let r = cancel_radius(w, v);
        assert(w[n - 1 - r].inverse() == v[r]);
    }
    assert forall|j: int| 0 <= j < n implies #[trigger] v[n - 1 - j].inverse() == w[j] by {
    }
    lemma_cancel_radius(v, w);
    if cancel_radius(v, w) < n {
        let r = cancel_radius(v, w);
        assert(v[n - 1 - r].inverse() == w[r]);
    }
    assert(letter_product(t, s) =~= Seq::<Letter>::empty());
    assert(letter_product(s, t) =~= Seq::<Letter>::empty());
    assert(letter_views(Seq::<Letter>::empty()) =~= Seq::<Crossing>::empty());
    assert(total_artin_len(Seq::<Crossing>::empty()) == 0);
}

/// The trivial word is a two-sided identity for the multiplication of words.
pub proof fn lemma_trivial_is_identity(s: Seq<Letter>)
    requires
        word_wf(s),
    ensures
        word_mul_spec(Seq::empty(), s) == Ok::<Seq<Letter>, WordValidationError>(s),
        word_mul_spec(s, Seq::empty()) == Ok::<Seq<Letter>, WordValidationError>(s),
{
    let e = Seq::<Letter>::empty();
    lemma_cancel_radius(letter_views(e), letter_views(s));
    lemma_cancel_radius(letter_views(s), letter_views(e));
    assert(letter_product(e, s) =~= s);
    assert(letter_product(s, e) =~= s);
}

/// Inverting a word twice gives back its crossings, and inverting keeps the total Artin
/// length, the minimal braid index and the number of letters.
pub proof fn lemma_inverse_involutive(s: Seq<Letter>)
    ensures
        seq_inverse(seq_inverse(letter_views(s))) == letter_views(s),
        total_artin_len(seq_inverse(letter_views(s))) == total_artin_len(letter_views(s)),
        seq_min_index(seq_inverse(letter_views(s))) == seq_min_index(letter_views(s)),
        seq_inverse(letter_views(s)).len() == s.len(),
        word_wf(s) ==> all_valid(seq_inverse(letter_views(s))),
{
    lemma_seq_inverse_props(letter_views(s));
}

/// The product of two words has at most their combined total Artin length, and fits on every
/// number of strands that fits both.
pub proof fn lemma_product_bounds(a: Seq<Letter>, b: Seq<Letter>, m: int)
    requires
        word_wf(a),
        word_wf(b),
    ensures
        all_valid(letter_views(letter_product(a, b))),
        total_artin_len(letter_views(letter_product(a, b))) <= total_artin_len(letter_views(a))
            + total_artin_len(letter_views(b)),
        seq_min_index(letter_views(a)) <= m && seq_min_index(letter_views(b)) <= m ==> seq_min_index(
            letter_views(letter_product(a, b)),
        ) <= m,
{
    lemma_letter_product_valid(a, b);
    lemma_letter_product(a, b);
    if seq_min_index(letter_views(a)) <= m && seq_min_index(letter_views(b)) <= m {
        lemma_min_index_bound(letter_views(a), m);
        lemma_min_index_bound(letter_views(b), m);
        lemma_cancel_product_heads(letter_views(a), letter_views(b), m);
        lemma_min_index_bound(letter_views(letter_product(a, b)), m);
    }
}

/// The multiplication of freely reduced words (no two adjacent letters inverse to each other)
/// is associative: the two ways of bracketing a product of three such words give the same
/// crossings, and when both two-factor products are short enough, the same outcome.
pub proof fn lemma_product_associative(a: Seq<Letter>, b: Seq<Letter>, c: Seq<Letter>)
    requires
        is_reduced(letter_views(a)),
        is_reduced(letter_views(b)),
        is_reduced(letter_views(c)),
    ensures
        letter_views(letter_product(letter_product(a, b), c)) == letter_views(
            letter_product(a, letter_product(b, c)),
        ),
        word_mul_spec(a, b) is Ok && word_mul_spec(b, c) is Ok ==> {
            let left = word_mul_spec(letter_product(a, b), c);
            let right = word_mul_spec(a, letter_product(b, c));
            &&& left is Ok <==> right is Ok
            &&& left matches Ok(l) ==> right matches Ok(r) && letter_views(l) == letter_views(r)
            &&& left is Err ==> left == right
        },
{
    lemma_letter_product(a, b);
    lemma_letter_product(b, c);
    lemma_letter_product(letter_product(a, b), c);
    lemma_letter_product(a, letter_product(b, c));
    lemma_cancel_product_associative(letter_views(a), letter_views(b), letter_views(c));
}

/// Decomposing a word gives Artin crossings, one per unit of its total Artin length; it keeps
/// the total Artin length and the minimal braid index, and decomposing again changes nothing.
pub proof fn lemma_decompose_laws(s: Seq<Letter>)
    requires
        word_wf(s),
    ensures
        all_valid_artin(decompose_seq(letter_views(s))),
        decompose_seq(letter_views(s)).len() == total_artin_len(letter_views(s)),
        total_artin_len(decompose_seq(letter_views(s))) == total_artin_len(letter_views(s)),
        seq_min_index(decompose_seq(letter_views(s))) == seq_min_index(letter_views(s)),
        decompose_seq(decompose_seq(letter_views(s))) == decompose_seq(letter_views(s)),
{
    let d = decompose_seq(letter_views(s));
    lemma_decompose_seq(letter_views(s));
    lemma_total_ones(d);
    lemma_decompose_artin(d);
}

/// The product of two words adds their writhes and moves the strands as the first word
/// followed by the second.
pub proof fn lemma_product_writhe_and_strands(a: Seq<Letter>, b: Seq<Letter>)
    ensures
        word_mul_spec(a, b) matches Ok(s) ==> writhe(letter_views(s)) == writhe(letter_views(a))
            + writhe(letter_views(b)),
        word_mul_spec(a, b) matches Ok(s) ==> forall|x: int| #[trigger]
            strand_end(letter_views(s), x) == strand_end(
                letter_views(b),
                strand_end(letter_views(a), x),
            ),
{
    lemma_letter_product(a, b);
    lemma_writhe_cancel_product(letter_views(a), letter_views(b));
    assert forall|x: int| #[trigger]
        strand_end(cancel_product(letter_views(a), letter_views(b)), x) == strand_end(
            letter_views(b),
            strand_end(letter_views(a), x),
        ) by {
        lemma_strand_end_cancel_product(letter_views(a), letter_views(b), x);
    }
}

} // verus!
