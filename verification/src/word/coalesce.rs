use vstd::prelude::*;

use crate::crossing::{
    all_valid, all_valid_artin, cancel_product, cancel_radius, decompose_crossing, decompose_seq,
    lemma_cancel_product_valid, lemma_cancel_radius, total_artin_len, Crossing,
};
use crate::crossing::{
    lemma_decompose_seq, lemma_strand_end_cancel_product, lemma_strand_end_concat,
    lemma_strand_end_single, lemma_writhe_cancel_product, lemma_writhe_concat,
    lemma_writhe_decompose_seq, lemma_writhe_single, sign_value, strand_end, swap_through, writhe,
};
use crate::generators::{
    artin_views, find_window, find_window_exec, first_window, lemma_coalesce_decomposition,
    lemma_coalesce_head, lemma_coalesce_strands, lemma_coalesce_valid, lemma_coalesce_writhe,
    lemma_decompose_seq_strands, lemma_first_window,
    window_band, ArtinGenerator,
};
use crate::letter::{letter_views, Letter};
use crate::word::{lemma_letter_product, lemma_letter_product_valid, letter_product, Word};

verus! {

/// The greedy coalescing of a word of Artin crossings into band crossings: the first window
/// that coalesces (see [`first_window`]) becomes a band, the crossings left and right of it are
/// coalesced in the same way, and the three parts are multiplied back together.
pub open spec fn coalesce_word_spec(s: Seq<Crossing>) -> Seq<Crossing>
    decreases s.len(),
{
    if s.len() == 0 {
        Seq::empty()
    } else {
        let (r, p) = first_window(s);
        if 0 <= r <= p && p + r < s.len() {
            cancel_product(
                cancel_product(
                    coalesce_word_spec(s.subrange(0, p - r)),
                    seq![window_band(s, r, p)],
                ),
                coalesce_word_spec(s.subrange(p + r + 1, s.len() as int)),
            )
        } else {
            Seq::empty()
        }
    }
}

/// A single crossing has its own Artin length as total, and is valid if the crossing is.
proof fn lemma_single(c: Crossing)
    ensures
        total_artin_len(seq![c]) == c.artin_len(),
        c.is_valid() ==> all_valid(seq![c]),
{
    assert(seq![c].drop_last() =~= Seq::<Crossing>::empty());
    assert(total_artin_len(Seq::<Crossing>::empty()) == 0);
}

/// Coalescing valid Artin crossings gives valid crossings whose total Artin length is at most
/// the number of Artin crossings.
pub proof fn lemma_coalesce_word(s: Seq<Crossing>)
    requires
        all_valid_artin(s),
    ensures
        all_valid(coalesce_word_spec(s)),
        total_artin_len(coalesce_word_spec(s)) <= s.len(),
    decreases s.len(),
{
    if s.len() == 0 {
        assert(coalesce_word_spec(s) =~= Seq::<Crossing>::empty());
    } else {
        lemma_first_window(s);
        let (r, p) = first_window(s);
        let ls = s.subrange(0, p - r);
        let rs = s.subrange(p + r + 1, s.len() as int);
        let window = s.subrange(p - r, p + r + 1);
        assert(all_valid_artin(ls));
        assert(all_valid_artin(rs));
        assert(forall|j: int| 0 <= j < window.len() ==> (#[trigger] window[j]).is_valid_artin()) by {
            assert forall|j: int| 0 <= j < window.len() implies (#[trigger] window[j]).is_valid_artin() by {
                assert(window[j] == s[p - r + j]);
            }
        }
        lemma_coalesce_valid(window);
        lemma_coalesce_word(ls);
        lemma_coalesce_word(rs);
        let band = window_band(s, r, p);
        let one = seq![band];
        lemma_single(band);
        let left = coalesce_word_spec(ls);
        let right = coalesce_word_spec(rs);
        lemma_cancel_product_valid(left, one);
        lemma_cancel_product_valid(cancel_product(left, one), right);
    }
}

/// One step of coalescing a non-empty word of valid Artin crossings: the first window, the
/// parts left and right of it, and the bounds that keep their product short.
proof fn lemma_coalesce_step(s: Seq<Crossing>)
    requires
        s.len() > 0,
        all_valid_artin(s),
    ensures
        ({
            let (r, p) = first_window(s);
            let ls = s.subrange(0, p - r);
            let rs = s.subrange(p + r + 1, s.len() as int);
            let band = window_band(s, r, p);
            &&& 0 <= r <= p
            &&& p + r < s.len()
            &&& all_valid_artin(ls)
            &&& all_valid_artin(rs)
            &&& band.is_valid()
            &&& band.artin_len() == 2 * r + 1
            &&& total_artin_len(coalesce_word_spec(ls)) <= ls.len()
            &&& total_artin_len(coalesce_word_spec(rs)) <= rs.len()
            &&& coalesce_word_spec(s) == cancel_product(
                cancel_product(coalesce_word_spec(ls), seq![band]),
                coalesce_word_spec(rs),
            )
        }),
{
    lemma_first_window(s);
    let (r, p) = first_window(s);
    let ls = s.subrange(0, p - r);
    let rs = s.subrange(p + r + 1, s.len() as int);
    let window = s.subrange(p - r, p + r + 1);
    assert forall|j: int| 0 <= j < window.len() implies (#[trigger] window[j]).is_valid_artin() by {
        assert(window[j] == s[p - r + j]);
    }
    lemma_coalesce_valid(window);
    assert(all_valid_artin(ls));
    assert(all_valid_artin(rs));
    lemma_coalesce_word(ls);
    lemma_coalesce_word(rs);
}

/// Coalescing keeps the writhe: each band has the writhe of the window it replaces, and the
/// pairs that cancel when the pieces are multiplied back are inverse to each other.
#[verifier::spinoff_prover]
pub proof fn lemma_coalesce_word_writhe(s: Seq<Crossing>)
    requires
        all_valid_artin(s),
    ensures
        writhe(coalesce_word_spec(s)) == writhe(s),
    decreases s.len(),
{
    if s.len() == 0 {
        assert(coalesce_word_spec(s) =~= s);
    } else {
        lemma_coalesce_step(s);
        lemma_first_window(s);
        let (r, p) = first_window(s);
        let ls = s.subrange(0, p - r);
        let rs = s.subrange(p + r + 1, s.len() as int);
        let window = s.subrange(p - r, p + r + 1);
        let band = window_band(s, r, p);
        lemma_coalesce_word_writhe(ls);
        lemma_coalesce_word_writhe(rs);
        lemma_coalesce_writhe(window);
        lemma_writhe_single(band);
        let left = coalesce_word_spec(ls);
        let right = coalesce_word_spec(rs);
        lemma_writhe_cancel_product(left, seq![band]);
        lemma_writhe_cancel_product(cancel_product(left, seq![band]), right);
        assert(s =~= ls + window + rs);
        lemma_writhe_concat(ls + window, rs);
        lemma_writhe_concat(ls, window);
    }
}

/// Coalescing keeps the permutation of the strands: each band moves the strands as the window
/// it replaces, and the pairs that cancel when the pieces are multiplied back undo each other.
#[verifier::spinoff_prover]
pub proof fn lemma_coalesce_word_strands(s: Seq<Crossing>)
    requires
        all_valid_artin(s),
    ensures
        forall|x: int| #[trigger] strand_end(coalesce_word_spec(s), x) == strand_end(s, x),
    decreases s.len(),
{
    if s.len() == 0 {
        assert(coalesce_word_spec(s) =~= s);
    } else {
        lemma_coalesce_step(s);
        lemma_first_window(s);
        let (r, p) = first_window(s);
        let ls = s.subrange(0, p - r);
        let rs = s.subrange(p + r + 1, s.len() as int);
        let window = s.subrange(p - r, p + r + 1);
        let band = window_band(s, r, p);
        lemma_coalesce_word_strands(ls);
        lemma_coalesce_word_strands(rs);
        assert forall|j: int| 0 <= j < window.len() implies (#[trigger] window[j]).is_valid_artin() by {
            assert(window[j] == s[p - r + j]);
        }
        lemma_coalesce_strands(window);
        assert(s =~= ls + window + rs);
        assert forall|x: int| #[trigger] strand_end(coalesce_word_spec(s), x) == strand_end(s, x) by {
            lemma_strands_of_parts(
                ls,
                window,
                rs,
                coalesce_word_spec(ls),
                band,
                coalesce_word_spec(rs),
                x,
            );
        }
    }
}

/// Multiplying back pieces that move the strands as the parts `ls`, `window` and `rs` do moves
/// them as the concatenation of the parts.
proof fn lemma_strands_of_parts(
    ls: Seq<Crossing>,
    window: Seq<Crossing>,
    rs: Seq<Crossing>,
    left: Seq<Crossing>,
    band: Crossing,
    right: Seq<Crossing>,
    x: int,
)
    requires
        forall|y: int| #[trigger] strand_end(left, y) == strand_end(ls, y),
        forall|y: int| #[trigger] strand_end(right, y) == strand_end(rs, y),
        forall|y: int| #[trigger] strand_end(window, y) == swap_through(band, y),
    ensures
        strand_end(cancel_product(cancel_product(left, seq![band]), right), x) == strand_end(
            ls + window + rs,
            x,
        ),
{
    let y = strand_end(left, x);
    lemma_strand_end_cancel_product(left, seq![band], x);
    lemma_strand_end_single(band, y);
    lemma_strand_end_cancel_product(cancel_product(left, seq![band]), right, x);
    lemma_strand_end_concat(ls + window, rs, x);
    lemma_strand_end_concat(ls, window, x);
    assert(strand_end(window, strand_end(ls, x)) == swap_through(band, y));
}

/// Coalescing a word keeps the permutation of its strands: decomposing valid crossings into
/// Artin generators and coalescing them again gives a word that takes every strand to the same
/// place.
pub proof fn lemma_coalesce_keeps_strands(s: Seq<Crossing>)
    requires
        all_valid(s),
    ensures
        forall|x: int| #[trigger] strand_end(coalesce_word_spec(decompose_seq(s)), x) == strand_end(
            s,
            x,
        ),
{
    lemma_decompose_seq(s);
    lemma_decompose_seq_strands(s);
    lemma_coalesce_word_strands(decompose_seq(s));
    assert forall|x: int| #[trigger] strand_end(coalesce_word_spec(decompose_seq(s)), x)
        == strand_end(s, x) by {
        assert(strand_end(coalesce_word_spec(decompose_seq(s)), x) == strand_end(
            decompose_seq(s),
            x,
        ));
        assert(strand_end(decompose_seq(s), x) == strand_end(s, x));
    }
}

/// Coalescing a word keeps its writhe (the number of positive crossings less the number of
/// negative ones, each band counting as one): decomposing valid crossings into Artin
/// generators and coalescing them again gives a word of the same writhe.
pub proof fn lemma_coalesce_keeps_writhe(s: Seq<Crossing>)
    requires
        all_valid(s),
    ensures
        writhe(coalesce_word_spec(decompose_seq(s))) == writhe(s),
{
    lemma_decompose_seq(s);
    lemma_writhe_decompose_seq(s);
    lemma_coalesce_word_writhe(decompose_seq(s));
}

/// Every crossing of `s` has its head strand at most `m`.
pub open spec fn heads_at_most(s: Seq<Crossing>, m: int) -> bool {
    forall|i: int| 0 <= i < s.len() ==> (#[trigger] s[i]).head <= m
}

/// The crossings of a product are crossings of its factors, so a bound on the heads of both
/// factors bounds the heads of the product.
pub proof fn lemma_cancel_product_heads(a: Seq<Crossing>, b: Seq<Crossing>, m: int)
    requires
        heads_at_most(a, m),
        heads_at_most(b, m),
    ensures
        heads_at_most(cancel_product(a, b), m),
{
    let k = cancel_radius(a, b);
    lemma_cancel_radius(a, b);
    let p = cancel_product(a, b);
    assert forall|i: int| 0 <= i < p.len() implies (#[trigger] p[i]).head <= m by {
        if i < a.len() - k {
            assert(p[i] == a[i]);
        } else {
            assert(p[i] == b[i - (a.len() - k) + k]);
        }
    }
}

/// Coalescing Artin crossings never reaches above the strands that they reach.
pub proof fn lemma_coalesce_heads(s: Seq<Crossing>, m: int)
    requires
        all_valid_artin(s),
        heads_at_most(s, m),
    ensures
        heads_at_most(coalesce_word_spec(s), m),
    decreases s.len(),
{
    if s.len() == 0 {
        assert(coalesce_word_spec(s) =~= Seq::<Crossing>::empty());
    } else {
        lemma_coalesce_step(s);
        let (r, p) = first_window(s);
        let ls = s.subrange(0, p - r);
        let rs = s.subrange(p + r + 1, s.len() as int);
        let window = s.subrange(p - r, p + r + 1);
        assert(heads_at_most(ls, m)) by {
            assert forall|i: int| 0 <= i < ls.len() implies (#[trigger] ls[i]).head <= m by {
                assert(ls[i] == s[i]);
            }
        }
        assert(heads_at_most(rs, m)) by {
            assert forall|i: int| 0 <= i < rs.len() implies (#[trigger] rs[i]).head <= m by {
                assert(rs[i] == s[p + r + 1 + i]);
            }
        }
        assert forall|j: int| 0 <= j < window.len() implies (#[trigger] window[j]).is_valid_artin() by {
            assert(window[j] == s[p - r + j]);
        }
        lemma_coalesce_head(window);
        lemma_first_window(s);
        let band = window_band(s, r, p);
        let j = choose|j: int| 0 <= j < window.len() && (#[trigger] window[j]).head == band.head;
        assert(window[j] == s[p - r + j]);
        assert(heads_at_most(seq![band], m));
        lemma_coalesce_heads(ls, m);
        lemma_coalesce_heads(rs, m);
        lemma_cancel_product_heads(coalesce_word_spec(ls), seq![band], m);
        lemma_cancel_product_heads(
            cancel_product(coalesce_word_spec(ls), seq![band]),
            coalesce_word_spec(rs),
            m,
        );
    }
}

/// The product of two words of band letters consists of band letters.
proof fn lemma_product_bands(a: Seq<Letter>, b: Seq<Letter>)
    requires
        forall|i: int| 0 <= i < a.len() ==> #[trigger] a[i] is Band,
        forall|i: int| 0 <= i < b.len() ==> #[trigger] b[i] is Band,
    ensures
        forall|i: int|
            0 <= i < letter_product(a, b).len() ==> #[trigger] letter_product(a, b)[i] is Band,
{
    let k = cancel_radius(letter_views(a), letter_views(b));
    lemma_cancel_radius(letter_views(a), letter_views(b));
    let p = letter_product(a, b);
    assert forall|i: int| 0 <= i < p.len() implies #[trigger] p[i] is Band by {
        if i < a.len() - k {
            assert(p[i] == a[i]);
        } else {
            assert(p[i] == b[i - (a.len() - k) + k]);
        }
    }
}

/// Coalesces the Artin generators `gens[lo..hi]` into a word of band letters, as
/// [`coalesce_word_spec`] describes.
#[verifier::spinoff_prover]
#[verifier::rlimit(40)]
pub(super) fn coalesce_range(gens: &[ArtinGenerator], lo: usize, hi: usize) -> (w: Word)
    requires
        lo <= hi <= gens@.len(),
        hi - lo <= u16::MAX,
        all_valid_artin(artin_views(gens@)),
    ensures
        letter_views(w@) == coalesce_word_spec(artin_views(gens@).subrange(lo as int, hi as int)),
        forall|i: int| 0 <= i < w@.len() ==> #[trigger] w@[i] is Band,
    decreases hi - lo,
{
    let ghost s = artin_views(gens@).subrange(lo as int, hi as int);
    if lo == hi {
        let w = Word::trivial();
        proof {
            assert(letter_views(w@) =~= coalesce_word_spec(s));
        }
        return w;
    }
    let (radius, pivot, band) = find_window_exec(gens, lo, hi);
    let left = coalesce_range(gens, lo, lo + pivot - radius);
    let right = coalesce_range(gens, lo + pivot + radius + 1, hi);
    left.witness_wf();
    right.witness_wf();
    let mut one: Vec<Letter> = Vec::new();
    one.push(Letter::Band(band));
    let ghost ls = s.subrange(0, pivot - radius);
    let ghost rs = s.subrange(pivot + radius + 1, s.len() as int);
    proof {
        let all = artin_views(gens@);
        assert(ls =~= all.subrange(lo as int, lo + pivot - radius));
        assert(rs =~= all.subrange(lo + pivot + radius + 1, hi as int));
        assert(all_valid_artin(s));
        lemma_coalesce_step(s);
        lemma_coalesce_word(ls);
        assert(letter_views(one@) =~= seq![band@]);
        lemma_single(band@);
        lemma_letter_product_valid(left@, one@);
        lemma_product_bands(left@, one@);
    }
    let mid = match Word::product_of(left.as_slice(), one.as_slice()).into_result() {
        Ok(mid) => mid,
        Err(_) => {
            proof {
                assert(false);
            }
            Word::trivial()
        },
    };
    proof {
        lemma_letter_product_valid(mid@, right@);
        lemma_product_bands(mid@, right@);
        lemma_letter_product(left@, one@);
        lemma_letter_product(mid@, right@);
    }
    match Word::product_of(mid.as_slice(), right.as_slice()).into_result() {
        Ok(w) => w,
        Err(_) => {
            proof {
                assert(false);
            }
            Word::trivial()
        },
    }
}

/// Coalescing the decomposition of a single valid crossing gives back that crossing, so
/// coalescing a word of one band letter gives the band back.
pub proof fn lemma_coalesce_single(c: Crossing)
    requires
        c.is_valid(),
    ensures
        coalesce_word_spec(decompose_crossing(c)) == seq![c],
{
    let s = decompose_crossing(c);
    let h = c.height();
    lemma_coalesce_decomposition(c);
    assert(s.len() == 2 * h - 1);
    assert(s.subrange(0, 2 * h - 1) =~= s);
    assert(find_window(s, h - 1, h - 1) == (h - 1, h - 1));
    assert(first_window(s) == (h - 1, h - 1));
    assert(window_band(s, h - 1, h - 1) == c);
    let e = Seq::<Crossing>::empty();
    assert(s.subrange(0, 0) =~= e);
    assert(s.subrange(2 * h - 1, 2 * h - 1) =~= e);
    assert(coalesce_word_spec(e) == e);
    lemma_cancel_radius(e, seq![c]);
    assert(cancel_product(e, seq![c]) =~= seq![c]);
    lemma_cancel_radius(seq![c], e);
    assert(cancel_product(seq![c], e) =~= seq![c]);
}

} // verus!
