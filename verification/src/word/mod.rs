use vstd::prelude::*;

mod coalesce;
mod laws;

use crate::crossing::{
    all_valid, all_valid_artin, cancel_product, cancel_radius, cancel_radius_from,
    decompose_seq, lemma_cancel_product_valid, lemma_cancel_radius, lemma_decompose_seq,
    lemma_seq_inverse_props, lemma_total_bounds, lemma_total_ones, lemma_total_subrange,
    lemma_writhe_decompose_seq,
    seq_inverse, seq_min_index, strand_end, total_artin_len, writhe, Crossing,
};
use crate::error::WordValidationError;
use crate::generators::{artin_views, lemma_decompose_seq_strands, ArtinGenerator};
use crate::index::BraidIndex;
use crate::letter::{
    head_index, lemma_letter_try_new_post, letter_data_crossing, letter_data_valid,
    letter_try_new_post, letter_views, Letter,
};
use crate::result::{LetterResult, WordResult};
use crate::sign::Sign;

pub use coalesce::{
    coalesce_word_spec, heads_at_most, lemma_cancel_product_heads, lemma_coalesce_heads,
    lemma_coalesce_keeps_strands, lemma_coalesce_keeps_writhe, lemma_coalesce_single,
    lemma_coalesce_word, lemma_coalesce_word_strands, lemma_coalesce_word_writhe,
};
pub use laws::{
    lemma_decompose_laws, lemma_inverse_cancels, lemma_inverse_involutive,
    lemma_product_associative, lemma_product_bounds, lemma_product_writhe_and_strands,
    lemma_trivial_is_identity,
};

use coalesce::coalesce_range;

verus! {

/// A braid word: a finite sequence of letters whose total Artin length fits in a [`u16`].
///
/// Words are compared letter by letter, letters being compared by the crossing they stand for.
#[derive(Debug, Eq)]
pub struct Word(Vec<Letter>);

impl View for Word {
    type V = Seq<Letter>;

    closed spec fn view(&self) -> Seq<Letter> {
        self.0@
    }
}

/// Whether a sequence of letters may form a word: every letter is valid and the total Artin
/// length is at most [`u16::MAX`].
pub open spec fn word_wf(s: Seq<Letter>) -> bool {
    &&& all_valid(letter_views(s))
    &&& total_artin_len(letter_views(s)) <= u16::MAX
}

/// The error reporting a word of total Artin length `total`; the reported length saturates at
/// [`usize::MAX`].
pub open spec fn too_long(total: int) -> WordValidationError {
    WordValidationError::TooLong(
        if total <= usize::MAX {
            total as usize
        } else {
            usize::MAX
        },
    )
}

/// What building a word from the letters `s` gives: the word itself if its total Artin length
/// fits in a [`u16`], [`WordValidationError::TooLong`] otherwise.
pub open spec fn word_check(s: Seq<Letter>) -> Result<Seq<Letter>, WordValidationError> {
    let total = total_artin_len(letter_views(s));
    if total <= u16::MAX {
        Ok(s)
    } else {
        Err(too_long(total))
    }
}

/// The letters of the product of `a` and `b`: their concatenation, with the adjacent inverse
/// pairs at the junction cancelled.
pub open spec fn letter_product(a: Seq<Letter>, b: Seq<Letter>) -> Seq<Letter> {
    let k = cancel_radius(letter_views(a), letter_views(b));
    a.subrange(0, a.len() - k) + b.subrange(k, b.len() as int)
}

/// What multiplying the words `a` and `b` gives.
pub open spec fn word_mul_spec(a: Seq<Letter>, b: Seq<Letter>) -> Result<
    Seq<Letter>,
    WordValidationError,
> {
    word_check(letter_product(a, b))
}

/// The crossings of sub-ranges and concatenations of letters are the sub-ranges and
/// concatenations of the crossings.
pub proof fn lemma_letter_views_subrange(s: Seq<Letter>, i: int, j: int)
    requires
        0 <= i <= j <= s.len(),
    ensures
        letter_views(s.subrange(i, j)) == letter_views(s).subrange(i, j),
{
    assert(letter_views(s.subrange(i, j)) =~= letter_views(s).subrange(i, j));
}

/// The crossings of a concatenation are the concatenation of the crossings.
pub proof fn lemma_letter_views_concat(a: Seq<Letter>, b: Seq<Letter>)
    ensures
        letter_views(a + b) == letter_views(a) + letter_views(b),
{
    assert(letter_views(a + b) =~= letter_views(a) + letter_views(b));
}

/// The crossings of the product of two words of letters are the product of their crossings.
pub proof fn lemma_letter_product(a: Seq<Letter>, b: Seq<Letter>)
    ensures
        letter_views(letter_product(a, b)) == cancel_product(letter_views(a), letter_views(b)),
{
    let k = cancel_radius(letter_views(a), letter_views(b));
    lemma_cancel_radius(letter_views(a), letter_views(b));
    lemma_letter_views_subrange(a, 0, a.len() - k);
    lemma_letter_views_subrange(b, k, b.len() as int);
    lemma_letter_views_concat(a.subrange(0, a.len() - k), b.subrange(k, b.len() as int));
}

/// The product of two well-formed words is valid, and its total Artin length is at most the
/// sum of theirs.
pub proof fn lemma_letter_product_valid(a: Seq<Letter>, b: Seq<Letter>)
    requires
        all_valid(letter_views(a)),
        all_valid(letter_views(b)),
    ensures
        all_valid(letter_views(letter_product(a, b))),
        total_artin_len(letter_views(letter_product(a, b))) <= total_artin_len(letter_views(a))
            + total_artin_len(letter_views(b)),
{
    lemma_letter_product(a, b);
    lemma_cancel_product_valid(letter_views(a), letter_views(b));
}

/// The data of a letter, as given to [`Word::try_new`]: foot, optional head, sign.
pub type LetterData = (i64, Option<i64>, Sign);

/// The data of a letter as [`Word::data`] lists it: foot, head (none for an Artin letter) and
/// sign.
pub open spec fn letter_data(l: Letter) -> (u16, Option<u16>, Sign) {
    (
        l@.foot as u16,
        match l {
            Letter::Artin(_) => None,
            Letter::Band(_) => Some(l@.head as u16),
        },
        l@.sign,
    )
}

/// Whether [`crate::Letter::try_new`] succeeds on the data `d`.
pub open spec fn data_valid(d: LetterData) -> bool {
    letter_data_valid(d.0 as int, head_index(d.1))
}

/// The crossing of the letter built from valid data `d`.
pub open spec fn data_crossing(d: LetterData) -> Crossing {
    letter_data_crossing(d.0 as int, head_index(d.1), d.2)
}

/// The crossings of the letters built from the data `data`.
pub open spec fn data_crossings(data: Seq<LetterData>) -> Seq<Crossing> {
    data.map_values(|d: LetterData| data_crossing(d))
}

/// Whether the `i`-th datum of `data` is the first one from which no letter can be built.
pub open spec fn first_invalid(data: Seq<LetterData>, i: int) -> bool {
    &&& 0 <= i < data.len()
    &&& !data_valid(data[i])
    &&& forall|j: int| 0 <= j < i ==> data_valid(#[trigger] data[j])
}

/// What [`Word::try_new`] gives for the data `data`: the error of the first datum from which no
/// letter can be built; otherwise the word of the letters built, if it is not too long.
pub open spec fn word_try_new_post(data: Seq<LetterData>, r: Result<Seq<Letter>, WordValidationError>) -> bool {
    &&& r is Ok <==> ((forall|i: int| 0 <= i < data.len() ==> data_valid(#[trigger] data[i]))
        && total_artin_len(data_crossings(data)) <= u16::MAX)
    &&& r matches Ok(s) ==> {
        &&& letter_views(s) == data_crossings(data)
        &&& forall|i: int| 0 <= i < s.len() ==> (#[trigger] s[i] is Artin <==> data[i].1 is None)
    }
    &&& (forall|i: int| 0 <= i < data.len() ==> data_valid(#[trigger] data[i]))
        ==> (total_artin_len(data_crossings(data)) > u16::MAX ==> r == Err::<Seq<Letter>, WordValidationError>(too_long(total_artin_len(data_crossings(data)))))
    &&& forall|i: int| #[trigger] first_invalid(data, i) ==> (r matches Err(WordValidationError::LetterValidation(e)) && letter_try_new_post(
        data[i].0 as int,
        head_index(data[i].1),
        data[i].2,
        Err(e),
    ))
}

/// The smallest braid index that accommodates every letter of `s` (one if there is none).
pub(crate) fn min_index_of(s: &[Letter]) -> (r: BraidIndex)
    ensures
        r@ == seq_min_index(letter_views(s@)),
{
    let ghost views = letter_views(s@);
    let mut m = BraidIndex::from_positive(1);
    let mut i: usize = 0;
    while i < s.len()
        invariant
            0 <= i <= s@.len(),
            views == letter_views(s@),
            m@ == seq_min_index(views.subrange(0, i as int)),
        decreases s@.len() - i,
    {
        let needed = s[i].minimal_required_braid_index();
        proof {
            assert(views.subrange(0, i + 1).drop_last() =~= views.subrange(0, i as int));
            assert(views.subrange(0, i + 1).last() == s@[i as int]@);
        }
        if needed.value() > m.value() {
            m = needed;
        }
        i = i + 1;
    }
    proof {
        assert(views.subrange(0, s@.len() as int) =~= views);
    }
    m
}

/// A crossing repeated `n` times has `n` times its Artin length as total.
proof fn lemma_total_repeat(c: Crossing, n: nat)
    ensures
        total_artin_len(Seq::new(n, |i: int| c)) == n * c.artin_len(),
    decreases n,
{
    if n > 0 {
        lemma_total_repeat(c, (n - 1) as nat);
        assert(Seq::new(n, |i: int| c).drop_last() =~= Seq::new((n - 1) as nat, |i: int| c));
        assert(n * c.artin_len() == (n - 1) * c.artin_len() + c.artin_len()) by (nonlinear_arith);
    }
}

/// Copies `s[lo..hi]` into a new vector.
fn copy_range(s: &[Letter], lo: usize, hi: usize) -> (r: Vec<Letter>)
    requires
        lo <= hi <= s@.len(),
    ensures
        r@ == s@.subrange(lo as int, hi as int),
{
    let mut r: Vec<Letter> = Vec::new();
    let mut k = lo;
    while k < hi
        invariant
            lo <= k <= hi <= s@.len(),
            r@ == s@.subrange(lo as int, k as int),
        decreases hi - k,
    {
        r.push(s[k]);
        proof {
            assert(r@ =~= s@.subrange(lo as int, k + 1));
        }
        k = k + 1;
    }
    r
}

impl Word {
    /// The letters of a word are valid and their total Artin length fits in a [`u16`].
    #[verifier::type_invariant]
    pub open spec fn inv(self) -> bool {
        word_wf(self@)
    }

    /// The letters of the word are valid and their total Artin length fits in a [`u16`].
    pub(crate) fn witness_wf(&self)
        ensures
            word_wf(self@),
    {
        proof {
            use_type_invariant(self);
        }
    }

    /// The word without letters.
    pub fn trivial() -> (w: Word)
        ensures
            w@ == Seq::<Letter>::empty(),
    {
        let w = Word(Vec::new());
        proof {
            assert(letter_views(w@) =~= Seq::<Crossing>::empty());
        }
        w
    }

    /// Builds a word from its letters.
    ///
    /// Fails with [`WordValidationError::TooLong`], carrying the total Artin length, if that
    /// length exceeds [`u16::MAX`].
    pub fn try_from_letters(letters: &[Letter]) -> (r: WordResult)
        ensures
            r@ == word_check(letters@),
    {
        let ghost views = letter_views(letters@);
        let mut total: u128 = 0;
        let mut i: usize = 0;
        while i < letters.len()
            invariant
                0 <= i <= letters@.len(),
                views == letter_views(letters@),
                all_valid(views.subrange(0, i as int)),
                total == total_artin_len(views.subrange(0, i as int)),
                total <= i * 65535,
            decreases letters@.len() - i,
        {
            let letter = letters[i];
            letter.witness_valid();
            let len = letter.artin_length();
            proof {
                assert(views.subrange(0, i + 1).drop_last() =~= views.subrange(0, i as int));
                assert(views.subrange(0, i + 1).last() == letter@);
                assert forall|j: int| 0 <= j < i + 1 implies (#[trigger] views.subrange(
                    0,
                    i + 1,
                )[j]).is_valid() by {
                    if j < i {
                        assert(views.subrange(0, i + 1)[j] == views.subrange(0, i as int)[j]);
                    }
                }
                assert(len <= 65535);
            }
            total = total + len as u128;
            i = i + 1;
        }
        proof {
            assert(views.subrange(0, letters@.len() as int) =~= views);
        }
        if total > 65535 {
            let reported: usize = if total > usize::MAX as u128 {
                usize::MAX
            } else {
                total as usize
            };
            WordResult::from_err(WordValidationError::TooLong(reported))
        } else {
            let v = copy_range(letters, 0, letters.len());
            proof {
                assert(letters@.subrange(0, letters@.len() as int) =~= letters@);
            }
            let w = Word(v);
            WordResult::from_ok(w)
        }
    }

    /// The word of `count` copies of a letter, or the failure to build the letter.
    ///
    /// Fails with [`WordValidationError::TooLong`] if the copies together are longer than
    /// [`u16::MAX`] Artin generators.
    pub fn power(letter: LetterResult, count: u64) -> (r: WordResult)
        ensures
            r@ == match letter@ {
                Ok(l) => word_check(Seq::new(count as nat, |i: int| l)),
                Err(e) => Err(WordValidationError::LetterValidation(e)),
            },
    {
        match letter.into_result() {
            Err(e) => WordResult::from_err(WordValidationError::from(e)),
            Ok(l) => {
                l.witness_valid();
                let len = l.artin_length();
                let ghost copies = Seq::new(count as nat, |i: int| l);
                proof {
                    assert(letter_views(copies) =~= Seq::new(count as nat, |i: int| l@));
                    lemma_total_repeat(l@, count as nat);
                    assert(count * len <= 18446744073709551615u128 * 65535u128) by (nonlinear_arith)
                        requires
                            count <= 18446744073709551615u64,
                            len <= 65535u16,
                    ;
                }
                let total: u128 = count as u128 * len as u128;
                if total > 65535 {
                    let reported: usize = if total > usize::MAX as u128 {
                        usize::MAX
                    } else {
                        total as usize
                    };
                    WordResult::from_err(WordValidationError::TooLong(reported))
                } else {
                    proof {
                        assert(count <= count * len) by (nonlinear_arith)
                            requires
                                len >= 1,
                        ;
                    }
                    let mut letters: Vec<Letter> = Vec::new();
                    let mut i: u64 = 0;
                    while i < count
                        invariant
                            0 <= i <= count,
                            letters@ == Seq::new(i as nat, |j: int| l),
                        decreases count - i,
                    {
                        letters.push(l);
                        proof {
                            assert(letters@ =~= Seq::new((i + 1) as nat, |j: int| l));
                        }
                        i = i + 1;
                    }
                    proof {
                        assert(letters@ =~= copies);
                    }
                    Word::try_from_letters(letters.as_slice())
                }
            },
        }
    }

    /// The product of the letter sequences `a` and `b`: the adjacent inverse pairs at the
    /// junction cancel, and the remaining letters form a word if they are not too long.
    pub(crate) fn product_of(a: &[Letter], b: &[Letter]) -> (r: WordResult)
        ensures
            r@ == word_mul_spec(a@, b@),
    {
        let ghost av = letter_views(a@);
        let ghost bv = letter_views(b@);
        let mut k: usize = 0;
        while k < a.len() && k < b.len() && a[a.len() - 1 - k].inverse() == b[k]
            invariant
                0 <= k <= a@.len(),
                k <= b@.len(),
                av == letter_views(a@),
                bv == letter_views(b@),
                cancel_radius_from(av, bv, k as int) == cancel_radius(av, bv),
            decreases a@.len() - k,
        {
            proof {
                assert(av[a@.len() - 1 - k] == a@[a@.len() - 1 - k]@);
                assert(bv[k as int] == b@[k as int]@);
            }
            k = k + 1;
        }
        proof {
            if k < a@.len() && k < b@.len() {
                assert(av[a@.len() - 1 - k] == a@[a@.len() - 1 - k]@);
                assert(bv[k as int] == b@[k as int]@);
            }
            assert(cancel_radius_from(av, bv, k as int) == k);
        }
        let mut letters = copy_range(a, 0, a.len() - k);
        let mut right = copy_range(b, k, b.len());
        letters.append(&mut right);
        Word::try_from_letters(&letters)
    }

    /// The letters of the word, as a slice.
    pub fn as_slice(&self) -> (r: &[Letter])
        ensures
            r@ == self@,
    {
        self.0.as_slice()
    }

    /// The word in Artin generators that the word stands for: every band letter replaced by
    /// its decomposition.
    pub fn decompose(&self) -> (r: Word)
        ensures
            letter_views(r@) == decompose_seq(letter_views(self@)),
            forall|i: int| 0 <= i < r@.len() ==> #[trigger] r@[i] is Artin,
            writhe(letter_views(r@)) == writhe(letter_views(self@)),
            forall|x: int| #[trigger] strand_end(letter_views(r@), x) == strand_end(
                letter_views(self@),
                x,
            ),
    {
        proof {
            use_type_invariant(self);
            lemma_writhe_decompose_seq(letter_views(self@));
            lemma_decompose_seq_strands(letter_views(self@));
        }
        let ghost views = letter_views(self@);
        let mut letters: Vec<Letter> = Vec::new();
        let mut i: usize = 0;
        while i < self.0.len()
            invariant
                0 <= i <= self@.len(),
                self@ == self.0@,
                views == letter_views(self@),
                letter_views(letters@) == decompose_seq(views.subrange(0, i as int)),
                forall|j: int| 0 <= j < letters@.len() ==> #[trigger] letters@[j] is Artin,
            decreases self@.len() - i,
        {
            let mut part = self.0[i].decompose();
            let ghost before = letters@;
            letters.append(&mut part);
            proof {
                assert(views.subrange(0, i + 1).drop_last() =~= views.subrange(0, i as int));
                assert(views.subrange(0, i + 1).last() == self@[i as int]@);
                lemma_letter_views_concat(before, letters@.subrange(before.len() as int, letters@.len() as int));
                assert(letters@ =~= before + letters@.subrange(before.len() as int, letters@.len() as int));
                assert forall|j: int| 0 <= j < letters@.len() implies #[trigger] letters@[j] is Artin by {
                    if j >= before.len() {
                        assert(letters@[j] == letters@.subrange(before.len() as int, letters@.len() as int)[j - before.len()]);
                    }
                }
            }
            i = i + 1;
        }
        proof {
            assert(views.subrange(0, self@.len() as int) =~= views);
            lemma_decompose_seq(views);
        }
        Word(letters)
    }

    /// The letters of the word.
    pub fn letters(&self) -> (r: Vec<Letter>)
        ensures
            r@ == self@,
    {
        let r = copy_range(self.0.as_slice(), 0, self.0.len());
        proof {
            assert(self.0@.subrange(0, self.0@.len() as int) =~= self.0@);
        }
        r
    }

    /// Whether the word has no letters.
    pub fn is_trivial(&self) -> (r: bool)
        ensures
            r == (self@.len() == 0),
    {
        self.0.len() == 0
    }

    /// The number of letters of the word.
    pub fn length(&self) -> (r: u16)
        ensures
            r == self@.len(),
    {
        proof {
            use_type_invariant(self);
            lemma_total_bounds(letter_views(self@));
        }
        self.0.len() as u16
    }

    /// The total Artin length of the word: the number of Artin generators it stands for.
    pub fn artin_length(&self) -> (r: u16)
        ensures
            r == total_artin_len(letter_views(self@)),
    {
        proof {
            use_type_invariant(self);
        }
        let ghost views = letter_views(self@);
        let mut total: u16 = 0;
        let mut i: usize = 0;
        while i < self.0.len()
            invariant
                0 <= i <= self@.len(),
                self@ == self.0@,
                views == letter_views(self@),
                word_wf(self@),
                total == total_artin_len(views.subrange(0, i as int)),
            decreases self@.len() - i,
        {
            let len = self.0[i].artin_length();
            proof {
                assert(views.subrange(0, i + 1).drop_last() =~= views.subrange(0, i as int));
                assert(views.subrange(0, i + 1).last() == self@[i as int]@);
                lemma_total_subrange(views, 0, i + 1);
            }
            total = total + len;
            i = i + 1;
        }
        proof {
            assert(views.subrange(0, self@.len() as int) =~= views);
        }
        total
    }

    /// The smallest braid index that accommodates every letter of the word (one for the
    /// trivial word).
    pub fn minimal_required_braid_index(&self) -> (r: BraidIndex)
        ensures
            r@ == seq_min_index(letter_views(self@)),
    {
        min_index_of(self.0.as_slice())
    }

    /// The formal inverse of the word: its letters inverted, in reverse order.
    pub fn inverse(&self) -> (r: Word)
        ensures
            r@.len() == self@.len(),
            letter_views(r@) == seq_inverse(letter_views(self@)),
            forall|i: int|
                0 <= i < self@.len() ==> (#[trigger] r@[i] is Artin <==> self@[self@.len() - 1
                    - i] is Artin),
    {
        proof {
            use_type_invariant(self);
        }
        let ghost views = letter_views(self@);
        let n = self.0.len();
        let mut letters: Vec<Letter> = Vec::new();
        let mut i: usize = 0;
        while i < n
            invariant
                0 <= i <= n,
                n == self@.len(),
                self@ == self.0@,
                views == letter_views(self@),
                letters@.len() == i,
                forall|j: int|
                    0 <= j < i ==> (#[trigger] letters@[j])@ == views[n - 1 - j].inverse(),
                forall|j: int|
                    0 <= j < i ==> (#[trigger] letters@[j] is Artin <==> self@[n - 1 - j] is Artin),
            decreases n - i,
        {
            letters.push(self.0[n - 1 - i].inverse());
            i = i + 1;
        }
        proof {
            assert(letter_views(letters@) =~= seq_inverse(views));
            lemma_seq_inverse_props(views);
        }
        Word(letters)
    }

    /// The word in band generators obtained by decomposing the word into Artin generators and
    /// greedily coalescing windows of them into bands (see [`coalesce_word_spec`]).
    pub fn coalesce(&self) -> (r: Word)
        ensures
            letter_views(r@) == coalesce_word_spec(decompose_seq(letter_views(self@))),
            forall|i: int| 0 <= i < r@.len() ==> #[trigger] r@[i] is Band,
            writhe(letter_views(r@)) == writhe(letter_views(self@)),
            forall|x: int| #[trigger] strand_end(letter_views(r@), x) == strand_end(
                letter_views(self@),
                x,
            ),
    {
        proof {
            use_type_invariant(self);
            lemma_coalesce_keeps_writhe(letter_views(self@));
            lemma_coalesce_keeps_strands(letter_views(self@));
            lemma_decompose_seq(letter_views(self@));
        }
        let decomposed = self.decompose();
        let ghost d = letter_views(decomposed@);
        let mut gens: Vec<ArtinGenerator> = Vec::new();
        let mut i: usize = 0;
        while i < decomposed.0.len()
            invariant
                0 <= i <= decomposed@.len(),
                decomposed@ == decomposed.0@,
                d == letter_views(decomposed@),
                all_valid_artin(d),
                artin_views(gens@) == d.subrange(0, i as int),
            decreases decomposed@.len() - i,
        {
            let letter = decomposed.0[i];
            proof {
                assert(d[i as int] == letter@);
            }
            let ghost before = gens@;
            match ArtinGenerator::try_from_letter(letter).into_result() {
                Ok(g) => {
                    gens.push(g);
                    proof {
                        assert(artin_views(before).len() == before.len());
                        assert(artin_views(gens@) =~= d.subrange(0, i + 1)) by {
                            assert(gens@ == before.push(g));
                        }
                    }
                },
                Err(_) => {
                    proof {
                        assert(false);
                    }
                },
            }
            i = i + 1;
        }
        proof {
            assert(d.subrange(0, d.len() as int) =~= d);
            lemma_total_ones(d);
        }
        let r = coalesce_range(gens.as_slice(), 0, gens.len());
        proof {
            assert(artin_views(gens@).subrange(0, gens@.len() as int) =~= d);
        }
        r
    }

    /// Builds a word from the data of its letters: foot, optional head and sign of each
    /// letter, as [`Letter::try_new`] takes them.
    ///
    /// Fails with the error of the first letter that cannot be built, or with
    /// [`WordValidationError::TooLong`] if the total Artin length exceeds [`u16::MAX`].
    pub fn try_new(letter_data: Vec<LetterData>) -> (r: WordResult)
        ensures
            word_try_new_post(letter_data@, r@),
    {
        let ghost data = letter_data@;
        let mut letters: Vec<Letter> = Vec::new();
        let mut i: usize = 0;
        while i < letter_data.len()
            invariant
                0 <= i <= data.len(),
                data == letter_data@,
                letters@.len() == i,
                forall|j: int| 0 <= j < i ==> data_valid(#[trigger] data[j]),
                forall|j: int| 0 <= j < i ==> (#[trigger] letters@[j])@ == data_crossing(data[j]),
                forall|j: int| 0 <= j < i ==> (#[trigger] letters@[j] is Artin <==> data[j].1 is None),
            decreases data.len() - i,
        {
            let (foot, head, sign) = letter_data[i];
            let outcome = Letter::try_new(foot, head, sign).into_result();
            proof {
                lemma_letter_try_new_post(foot as int, head_index(head), sign, outcome);
            }
            match outcome {
                Ok(letter) => {
                    letters.push(letter);
                },
                Err(e) => {
                    let r = WordResult::from_err(WordValidationError::from(e));
                    proof {
                        assert(first_invalid(data, i as int));
                        assert forall|k: int| #[trigger] first_invalid(data, k) implies k == i by {
                            if k < i {
                                assert(data_valid(data[k]));
                            } else if k > i {
                                assert(data_valid(data[i as int]));
                            }
                        }
                    }
                    return r;
                },
            }
            i = i + 1;
        }
        proof {
            assert(letter_views(letters@) =~= data_crossings(data));
            assert forall|k: int| !#[trigger] first_invalid(data, k) by {
                if 0 <= k < data.len() {
                    assert(data_valid(data[k]));
                }
            }
        }
        Word::try_from_letters(&letters)
    }

    /// Like [`Word::try_new`], returning a plain [`Result`].
    pub fn new(letter_data: Vec<LetterData>) -> (r: Result<Word, WordValidationError>)
        ensures
            word_try_new_post(letter_data@, match r {
                Ok(w) => Ok(w@),
                Err(e) => Err(e),
            }),
    {
        Word::try_new(letter_data).into_result()
    }

    /// The data of the letters of the word: foot, head (none for an Artin letter) and sign.
    pub fn data(&self) -> (r: Vec<(u16, Option<u16>, Sign)>)
        ensures
            r@ == self@.map_values(|l: Letter| letter_data(l)),
    {
        let mut r: Vec<(u16, Option<u16>, Sign)> = Vec::new();
        let mut i: usize = 0;
        while i < self.0.len()
            invariant
                0 <= i <= self@.len(),
                self@ == self.0@,
                r@ == self@.subrange(0, i as int).map_values(|l: Letter| letter_data(l)),
            decreases self@.len() - i,
        {
            let letter = self.0[i];
            let foot = letter.foot().value();
            let head = match letter {
                Letter::Artin(_) => None,
                Letter::Band(band) => Some(band.head().value()),
            };
            r.push((foot, head, letter.sign()));
            proof {
                assert(r@ =~= self@.subrange(0, i + 1).map_values(|l: Letter| letter_data(l)));
            }
            i = i + 1;
        }
        proof {
            assert(self@.subrange(0, self@.len() as int) =~= self@);
        }
        r
    }
}

impl Clone for Word {
    fn clone(&self) -> (r: Word)
        ensures
            r@ == self@,
    {
        proof {
            use_type_invariant(self);
        }
        let letters = copy_range(self.0.as_slice(), 0, self.0.len());
        proof {
            assert(self.0@.subrange(0, self.0@.len() as int) =~= self.0@);
        }
        Word(letters)
    }
}

impl Default for Word {
    fn default() -> (r: Word)
        ensures
            r@ == Seq::<Letter>::empty(),
    {
        Word::trivial()
    }
}

impl PartialEq for Word {
    fn eq(&self, other: &Word) -> (r: bool)
        ensures
            r == (letter_views(self@) == letter_views(other@)),
    {
        if self.0.len() != other.0.len() {
            proof {
                assert(letter_views(self@).len() != letter_views(other@).len());
            }
            return false;
        }
        let mut i: usize = 0;
        while i < self.0.len()
            invariant
                0 <= i <= self@.len(),
                self@ == self.0@,
                other@ == other.0@,
                self@.len() == other@.len(),
                forall|j: int| 0 <= j < i ==> (#[trigger] self@[j])@ == other@[j]@,
            decreases self@.len() - i,
        {
            if !(self.0[i] == other.0[i]) {
                proof {
                    assert(letter_views(self@)[i as int] != letter_views(other@)[i as int]);
                }
                return false;
            }
            i = i + 1;
        }
        proof {
            assert(letter_views(self@) =~= letter_views(other@));
        }
        true
    }
}

impl vstd::std_specs::cmp::PartialEqSpecImpl for Word {
    open spec fn obeys_eq_spec() -> bool {
        true
    }

    open spec fn eq_spec(&self, other: &Word) -> bool {
        letter_views(self@) == letter_views(other@)
    }
}

impl std::ops::Deref for Word {
    type Target = [Letter];

    fn deref(&self) -> (r: &[Letter])
        ensures
            r@ == self@,
    {
        self.0.as_slice()
    }
}

impl AsRef<[Letter]> for Word {
    fn as_ref(&self) -> (r: &[Letter])
        ensures
            r@ == self@,
    {
        self.0.as_slice()
    }
}

} // verus!

verus! {

impl IntoIterator for Word {
    type Item = (u16, Option<u16>, Sign);
    type IntoIter = std::vec::IntoIter<(u16, Option<u16>, Sign)>;

    /// Iterates over the data of the letters (see [`Word::data`]).
    fn into_iter(self) -> (r: std::vec::IntoIter<(u16, Option<u16>, Sign)>)
        ensures
            vstd::std_specs::iter::IteratorSpec::remaining(&r) == self@.map_values(
                |l: Letter| letter_data(l),
            ),
    {
        proof {
            broadcast use vstd::std_specs::vec::axiom_spec_into_iter;
        }
        self.data().into_iter()
    }
}

} // verus!
