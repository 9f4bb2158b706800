use vstd::prelude::*;

use crate::crossing::{
    all_valid, all_valid_artin, decompose_crossing, decompose_seq, lemma_decompose_seq,
    lemma_total_concat, lemma_total_ones, lemma_valid_concat, lemma_writhe_concat,
    lemma_strand_end_concat, lemma_strand_end_single, lemma_writhe_decompose_seq,
    lemma_writhe_single, strand_end, swap_through, total_artin_len, writhe, Crossing,
};
use crate::generators::{
    artin_views, coalesce_spec, lemma_coalesce_strands, lemma_coalesce_valid,
    lemma_coalesce_writhe, lemma_decompose_seq_strands, ArtinGenerator, BandGenerator,
};

verus! {

/// The crossings that a sequence of band generators stands for.
pub open spec fn band_views(s: Seq<BandGenerator>) -> Seq<Crossing> {
    s.map_values(|b: BandGenerator| b@)
}

/// Whether a window of Artin crossings coalesces into a single band.
pub open spec fn coalesces(window: Seq<Crossing>) -> bool {
    coalesce_spec(window) is Ok
}

/// The window of `s` that the greedy coalescing picks, as a pair of radius and centre.
///
/// The search starts at radius `r` and centre `p`; it moves the centre to the right while the
/// window of radius `r` around it fits in `s` and fails to coalesce, and it shrinks the radius
/// (keeping the centre) once the window no longer fits. Single generators always coalesce, so
/// the search ends.
pub open spec fn find_window(s: Seq<Crossing>, r: int, p: int) -> (int, int)
    decreases r, s.len() - p,
{
    if r < 0 || p < r {
        (r, p)
    } else if p + r < s.len() {
        if coalesces(s.subrange(p - r, p + r + 1)) {
            (r, p)
        } else {
            find_window(s, r, p + 1)
        }
    } else if r == 0 {
        (r, p)
    } else {
        find_window(s, r - 1, p)
    }
}

/// The window that the greedy coalescing of the whole of `s` picks first: the search starts
/// with the widest window centred in `s`.
pub open spec fn first_window(s: Seq<Crossing>) -> (int, int) {
    let half = (s.len() - 1) / 2;
    find_window(s, half, half)
}

/// The band that a window coalesces into (arbitrary if it does not coalesce).
pub open spec fn window_band(s: Seq<Crossing>, r: int, p: int) -> Crossing {
    match coalesce_spec(s.subrange(p - r, p + r + 1)) {
        Ok(c) => c,
        Err(_) => arbitrary(),
    }
}

/// The greedy conversion of a word of Artin generators into a word of band generators: the
/// first window found coalesces into a band, and the generators left and right of it are
/// converted in the same way.
pub open spec fn artin_to_band_spec(s: Seq<Crossing>) -> Seq<Crossing>
    decreases s.len(),
{
    if s.len() == 0 {
        Seq::empty()
    } else {
        let (r, p) = first_window(s);
        if 0 <= r <= p && p + r < s.len() {
            artin_to_band_spec(s.subrange(0, p - r)) + seq![window_band(s, r, p)]
                + artin_to_band_spec(s.subrange(p + r + 1, s.len() as int))
        } else {
            Seq::empty()
        }
    }
}

/// The search of [`find_window`] ends at a window that fits in `s` and coalesces.
pub proof fn lemma_find_window(s: Seq<Crossing>, r: int, p: int)
    requires
        s.len() >= 1,
        0 <= r <= p,
        p + r <= s.len(),
        p + r == s.len() ==> r >= 1,
    ensures
        ({
            let (r2, p2) = find_window(s, r, p);
            &&& 0 <= r2 <= p2
            &&& p2 + r2 < s.len()
            &&& coalesces(s.subrange(p2 - r2, p2 + r2 + 1))
        }),
    decreases r, s.len() - p,
{
    if p + r < s.len() {
        if coalesces(s.subrange(p - r, p + r + 1)) {
        } else {
            if r == 0 {
                assert(s.subrange(p - r, p + r + 1).len() == 1);
            }
            lemma_find_window(s, r, p + 1);
        }
    } else {
        lemma_find_window(s, r - 1, p);
    }
}

/// The first window of a non-empty word fits in it and coalesces.
pub proof fn lemma_first_window(s: Seq<Crossing>)
    requires
        s.len() >= 1,
    ensures
        ({
            let (r, p) = first_window(s);
            &&& 0 <= r <= p
            &&& p + r < s.len()
            &&& coalesces(s.subrange(p - r, p + r + 1))
        }),
{
    let half = (s.len() - 1) / 2;
    lemma_find_window(s, half, half);
}

/// The conversion into band generators keeps every generator: the bands are valid, their total
/// Artin length is the number of generators converted, and they have the same writhe. So
/// decomposing the bands back gives as many Artin generators, with the same writhe.
#[verifier::spinoff_prover]
pub proof fn lemma_artin_to_band_keeps(s: Seq<Crossing>)
    requires
        all_valid_artin(s),
    ensures
        all_valid(artin_to_band_spec(s)),
        total_artin_len(artin_to_band_spec(s)) == s.len(),
        writhe(artin_to_band_spec(s)) == writhe(s),
        decompose_seq(artin_to_band_spec(s)).len() == s.len(),
        writhe(decompose_seq(artin_to_band_spec(s))) == writhe(s),
    decreases s.len(),
{
    let b = artin_to_band_spec(s);
    if s.len() == 0 {
        assert(b =~= Seq::<Crossing>::empty());
    } else {
        lemma_first_window(s);
        let (r, p) = first_window(s);
        let ls = s.subrange(0, p - r);
        let rs = s.subrange(p + r + 1, s.len() as int);
        let window = s.subrange(p - r, p + r + 1);
        assert(all_valid_artin(ls));
        assert(all_valid_artin(rs));
        assert forall|j: int| 0 <= j < window.len() implies (#[trigger] window[j]).is_valid_artin() by {
            assert(window[j] == s[p - r + j]);
        }
        lemma_coalesce_valid(window);
        lemma_coalesce_writhe(window);
        lemma_artin_to_band_keeps(ls);
        lemma_artin_to_band_keeps(rs);
        let band = window_band(s, r, p);
        let one = seq![band];
        let lb = artin_to_band_spec(ls);
        let rb = artin_to_band_spec(rs);
        assert(b == lb + one + rb);
        assert(one.drop_last() =~= Seq::<Crossing>::empty());
        assert(total_artin_len(Seq::<Crossing>::empty()) == 0);
        assert(all_valid(one));
        lemma_valid_concat(lb, one);
        lemma_valid_concat(lb + one, rb);
        lemma_total_concat(lb, one);
        lemma_total_concat(lb + one, rb);
        lemma_writhe_single(band);
        lemma_writhe_concat(lb, one);
        lemma_writhe_concat(lb + one, rb);
        assert(s =~= ls + window + rs);
        lemma_writhe_concat(ls + window, rs);
        lemma_writhe_concat(ls, window);
    }
    lemma_decompose_seq(b);
    lemma_writhe_decompose_seq(b);
    let d = decompose_seq(b);
    assert forall|i: int| 0 <= i < d.len() implies (#[trigger] d[i]).is_artin() by {
        assert(d[i].is_valid_artin());
    }
    lemma_total_ones(d);
}

/// The conversion into band generators keeps the permutation of the strands: the bands, and the
/// Artin generators that they decompose into, take every strand to where the generators
/// converted take it.
#[verifier::spinoff_prover]
pub proof fn lemma_artin_to_band_strands(s: Seq<Crossing>)
    requires
        all_valid_artin(s),
    ensures
        forall|x: int| #[trigger] strand_end(artin_to_band_spec(s), x) == strand_end(s, x),
        forall|x: int| #[trigger] strand_end(decompose_seq(artin_to_band_spec(s)), x) == strand_end(
            s,
            x,
        ),
    decreases s.len(),
{
    let b = artin_to_band_spec(s);
    if s.len() == 0 {
        assert(b =~= Seq::<Crossing>::empty());
    } else {
        lemma_first_window(s);
        let (r, p) = first_window(s);
        let ls = s.subrange(0, p - r);
        let rs = s.subrange(p + r + 1, s.len() as int);
        let window = s.subrange(p - r, p + r + 1);
        assert(all_valid_artin(ls));
        assert(all_valid_artin(rs));
        assert forall|j: int| 0 <= j < window.len() implies (#[trigger] window[j]).is_valid_artin() by {
            assert(window[j] == s[p - r + j]);
        }
        lemma_coalesce_strands(window);
        lemma_artin_to_band_strands(ls);
        lemma_artin_to_band_strands(rs);
        let band = window_band(s, r, p);
        let one = seq![band];
        let lb = artin_to_band_spec(ls);
        let rb = artin_to_band_spec(rs);
        assert(b == lb + one + rb);
        assert(s =~= ls + window + rs);
        assert forall|x: int| #[trigger] strand_end(b, x) == strand_end(s, x) by {
            let y = strand_end(lb, x);
            lemma_strand_end_concat(lb + one, rb, x);
            lemma_strand_end_concat(lb, one, x);
            lemma_strand_end_single(band, y);
            lemma_strand_end_concat(ls + window, rs, x);
            lemma_strand_end_concat(ls, window, x);
            assert(strand_end(lb, x) == strand_end(ls, x));
            assert(strand_end(window, y) == swap_through(band, y));
            assert(strand_end(rb, swap_through(band, y)) == strand_end(rs, swap_through(band, y)));
        }
    }
    lemma_artin_to_band_keeps(s);
    lemma_decompose_seq_strands(b);
}

/// Looks for the window of [`find_window`] in `generators[lo..hi]`.
pub(crate) fn find_window_exec(generators: &[ArtinGenerator], lo: usize, hi: usize) -> (w: (
    usize,
    usize,
    BandGenerator,
))
    requires
        lo < hi <= generators@.len(),
    ensures
        ({
            let s = artin_views(generators@).subrange(lo as int, hi as int);
            let (r, p) = first_window(s);
            &&& w.0 == r
            &&& w.1 == p
            &&& 0 <= r <= p
            &&& p + r < s.len()
            &&& w.2@ == window_band(s, r, p)
        }),
{
    let ghost s = artin_views(generators@).subrange(lo as int, hi as int);
    let num_generators = hi - lo;
    let mut radius = (num_generators - 1) / 2;
    let mut pivot = radius;
    proof {
        lemma_first_window(s);
    }
    loop
        invariant
            lo < hi <= generators@.len(),
            num_generators == hi - lo,
            s == artin_views(generators@).subrange(lo as int, hi as int),
            s.len() == num_generators,
            0 <= radius <= pivot,
            pivot + radius <= num_generators,
            pivot + radius == num_generators ==> radius >= 1,
            find_window(s, radius as int, pivot as int) == first_window(s),
        decreases radius, num_generators - pivot,
    {
        proof {
            lemma_find_window(s, radius as int, pivot as int);
        }
        if pivot + radius < num_generators {
            let mut window: Vec<ArtinGenerator> = Vec::new();
            let start = lo + pivot - radius;
            let end = lo + pivot + radius + 1;
            let mut k = start;
            while k < end
                invariant
                    start <= k <= end,
                    end <= generators@.len(),
                    window@ == generators@.subrange(start as int, k as int),
                decreases end - k,
            {
                window.push(generators[k]);
                proof {
                    assert(window@ =~= generators@.subrange(start as int, k + 1));
                }
                k = k + 1;
            }
            proof {
                assert(artin_views(window@) =~= s.subrange(
                    pivot - radius,
                    pivot + radius + 1,
                ));
            }
            match BandGenerator::coalesce(&window).into_result() {
                Ok(band) => {
                    return (radius, pivot, band);
                },
                Err(_) => {
                    pivot = pivot + 1;
                },
            }
        } else {
            radius = radius - 1;
        }
    }
}

/// Converts `generators[lo..hi]` into band generators, as [`artin_to_band_spec`] describes.
#[verifier::spinoff_prover]
fn artin_to_band_range(generators: &[ArtinGenerator], lo: usize, hi: usize) -> (bands: Vec<
    BandGenerator,
>)
    requires
        lo <= hi <= generators@.len(),
    ensures
        band_views(bands@) == artin_to_band_spec(
            artin_views(generators@).subrange(lo as int, hi as int),
        ),
    decreases hi - lo,
{
    let ghost s = artin_views(generators@).subrange(lo as int, hi as int);
    let mut bands: Vec<BandGenerator> = Vec::new();
    if lo == hi {
        proof {
            assert(band_views(bands@) =~= artin_to_band_spec(s));
        }
        return bands;
    }
    let (radius, pivot, band) = find_window_exec(generators, lo, hi);
    let mut left = artin_to_band_range(generators, lo, lo + pivot - radius);
    let mut right = artin_to_band_range(generators, lo + pivot + radius + 1, hi);
    let ghost left_views = band_views(left@);
    let ghost right_views = band_views(right@);
    bands.append(&mut left);
    bands.push(band);
    bands.append(&mut right);
    proof {
        let all = artin_views(generators@);
        let ls = s.subrange(0, pivot - radius);
        let rs = s.subrange(pivot + radius + 1, s.len() as int);
        assert(ls =~= all.subrange(lo as int, lo + pivot - radius));
        assert(rs =~= all.subrange(lo + pivot + radius + 1, hi as int));
        assert(artin_to_band_spec(s) == artin_to_band_spec(ls) + seq![window_band(s, radius as int, pivot as int)]
            + artin_to_band_spec(rs));
        assert(band_views(bands@) =~= left_views + seq![band@] + right_views);
    }
    bands
}

/// Converts a word of Artin generators into a word of band generators by greedily coalescing
/// windows of generators (see [`artin_to_band_spec`]).
///
/// Every generator is kept: the bands have total Artin length `generators.len()`, the same
/// writhe as the generators, and take every strand to the same place.
pub fn artin_to_band(generators: &[ArtinGenerator]) -> (bands: Vec<BandGenerator>)
    ensures
        band_views(bands@) == artin_to_band_spec(artin_views(generators@)),
        total_artin_len(band_views(bands@)) == generators@.len(),
        writhe(band_views(bands@)) == writhe(artin_views(generators@)),
        forall|x: int| #[trigger] strand_end(band_views(bands@), x) == strand_end(
            artin_views(generators@),
            x,
        ),
{
    // Gathers, for the proof, the validity that each generator's type guarantees.
    let mut i: usize = 0;
    while i < generators.len()
        invariant
            0 <= i <= generators@.len(),
            forall|j: int| 0 <= j < i ==> (#[trigger] generators@[j])@.is_valid_artin(),
        decreases generators@.len() - i,
    {
        let g = &generators[i];
        proof {
            use_type_invariant(g);
        }
        i = i + 1;
    }
    proof {
        let s = artin_views(generators@);
        assert forall|j: int| 0 <= j < s.len() implies (#[trigger] s[j]).is_valid_artin() by {
            assert(s[j] == generators@[j]@);
        }
        lemma_artin_to_band_keeps(s);
        lemma_artin_to_band_strands(s);
        assert(artin_views(generators@).subrange(0, generators@.len() as int) =~= artin_views(
            generators@,
        ));
    }
    artin_to_band_range(generators, 0, generators.len())
}

/// The Artin generators a band stands for.
fn decompose_band(band: &BandGenerator) -> (r: Vec<ArtinGenerator>)
    ensures
        artin_views(r@) == decompose_crossing(band@),
{
    band.decompose()
}

/// Converts a word of band generators into the word of Artin generators that it stands for:
/// the decompositions of the bands, concatenated.
pub fn band_to_artin(bands: &[BandGenerator]) -> (r: Vec<ArtinGenerator>)
    ensures
        artin_views(r@) == decompose_seq(band_views(bands@)),
        writhe(artin_views(r@)) == writhe(band_views(bands@)),
        forall|x: int| #[trigger] strand_end(artin_views(r@), x) == strand_end(
            band_views(bands@),
            x,
        ),
{
    let mut w: Vec<ArtinGenerator> = Vec::new();
    let mut i: usize = 0;
    while i < bands.len()
        invariant
            0 <= i <= bands@.len(),
            artin_views(w@) == decompose_seq(band_views(bands@.subrange(0, i as int))),
            forall|j: int| 0 <= j < i ==> (#[trigger] bands@[j])@.is_valid(),
        decreases bands@.len() - i,
    {
        let band = &bands[i];
        proof {
            use_type_invariant(band);
        }
        let mut part = decompose_band(band);
        let ghost before = w@;
        w.append(&mut part);
        proof {
            let prefix = band_views(bands@.subrange(0, i + 1));
            assert(prefix.drop_last() =~= band_views(bands@.subrange(0, i as int)));
            assert(artin_views(w@) =~= artin_views(before) + decompose_crossing(bands@[i as int]@));
        }
        i = i + 1;
    }
    proof {
        assert(bands@.subrange(0, bands@.len() as int) =~= bands@);
        let s = band_views(bands@);
        assert forall|j: int| 0 <= j < s.len() implies (#[trigger] s[j]).is_valid() by {
            assert(s[j] == bands@[j]@);
        }
        lemma_writhe_decompose_seq(s);
        lemma_decompose_seq_strands(s);
    }
    w
}

} // verus!
