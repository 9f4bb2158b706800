use vstd::prelude::*;

use crate::crossing::{
    all_valid, decompose_crossing, decompose_seq, lemma_decompose_crossing, lemma_strand_end_concat, lemma_strand_end_single, lemma_writhe_concat,
    lemma_writhe_decompose_crossing, lemma_writhe_first, lemma_writhe_single, sign_value,
    strand_end, swap_through, writhe, Crossing, MAX_BAND_HEIGHT,
};
use crate::error::{BandValidationError, FromArtinError, StaircaseQuadrant, StrandValidationError};
use crate::generators::{artin_views, ArtinGenerator};
use crate::index::BraidIndex;
use crate::letter::Letter;
use crate::result::BandResult;
use crate::sign::Sign;
use crate::strand::{outside_u16, Strand};

verus! {

/// A generalised Artin generator: the crossing of a foot strand with a head strand an arbitrary
/// distance above it.
///
/// The band crossing strand `foot` with strand `head` stands for the `2 * (head - foot) - 1`
/// Artin generators of [`BandGenerator::decompose`].
#[derive(Debug, Clone, Copy, Eq)]
pub struct BandGenerator {
    foot: Strand,
    head: Strand,
    sign: Sign,
}

impl View for BandGenerator {
    type V = Crossing;

    closed spec fn view(&self) -> Crossing {
        Crossing { foot: self.foot@, head: self.head@, sign: self.sign }
    }
}

/// What [`BandGenerator::try_new`] gives for the given foot and head indices and sign.
pub open spec fn band_try_new_post(
    foot: int,
    head: int,
    sign: Sign,
    r: Result<Crossing, BandValidationError>,
) -> bool {
    if outside_u16(foot) {
        r matches Err(BandValidationError::StrandValidation(StrandValidationError::FromInt(_)))
    } else if foot == 0 {
        r == Err::<Crossing, BandValidationError>(
            BandValidationError::StrandValidation(StrandValidationError::Zero),
        )
    } else if outside_u16(head) {
        r matches Err(BandValidationError::StrandValidation(StrandValidationError::FromInt(_)))
    } else if head == 0 {
        r == Err::<Crossing, BandValidationError>(
            BandValidationError::StrandValidation(StrandValidationError::Zero),
        )
    } else if foot < head {
        if head - foot > MAX_BAND_HEIGHT {
            r == Err::<Crossing, BandValidationError>(
                BandValidationError::TooTall((head - foot) as u16),
            )
        } else {
            r == Ok::<Crossing, BandValidationError>(Crossing { foot, head, sign })
        }
    } else if foot == head {
        r matches Err(BandValidationError::FootOnHead(s)) && s@ == foot
    } else {
        r matches Err(BandValidationError::FootOverHead { foot: f, head: h }) && f@ == foot && h@
            == head
    }
}

/// The failures of coalescing Artin generators, with every generator replaced by its crossing.
pub enum CoalesceError {
    /// No generators were given.
    NoGenerators,
    /// An even number of generators was given.
    EvenGenerators,
    /// More than `u16::MAX` generators were given.
    TooManyGenerators(int),
    /// A generator does not continue its staircase.
    IncontiguousSteps { quadrant: StaircaseQuadrant, next_step: Crossing, previous_step: Crossing },
    /// The lower staircases differ in length by the given number of steps.
    ImbalancedStaircases(int),
}

impl View for FromArtinError {
    type V = CoalesceError;

    open spec fn view(&self) -> CoalesceError {
        match *self {
            FromArtinError::NoGenerators => CoalesceError::NoGenerators,
            FromArtinError::EvenGenerators => CoalesceError::EvenGenerators,
            FromArtinError::TooManyGenerators(n) => CoalesceError::TooManyGenerators(n as int),
            FromArtinError::IncontiguousSteps { quadrant, next_step, previous_step } => {
                CoalesceError::IncontiguousSteps {
                    quadrant,
                    next_step: next_step@,
                    previous_step: previous_step@,
                }
            },
            FromArtinError::ImbalancedStaircases(n) => CoalesceError::ImbalancedStaircases(
                n as int,
            ),
        }
    }
}

/// The numbers of steps in each of the four staircases around a crossing generator.
pub struct Staircases {
    pub upper_left: int,
    pub lower_left: int,
    pub lower_right: int,
    pub upper_right: int,
}

/// The staircases before any step has been taken.
pub open spec fn no_staircases() -> Staircases {
    Staircases { upper_left: 0, lower_left: 0, lower_right: 0, upper_right: 0 }
}

/// The last step of a staircase of `steps` steps in the given quadrant, or the crossing itself if
/// the staircase is empty. Upper staircases climb up from the crossing one strand per step, lower
/// ones climb down; left ones are positive above and negative below, right ones the reverse.
pub open spec fn staircase_top(crossing: Crossing, quadrant: StaircaseQuadrant, steps: int) -> Crossing {
    if steps == 0 {
        crossing
    } else {
        match quadrant {
            StaircaseQuadrant::UpperLeft => Crossing::artin(crossing.foot + steps, Sign::Positive),
            StaircaseQuadrant::LowerLeft => Crossing::artin(crossing.foot - steps, Sign::Negative),
            StaircaseQuadrant::LowerRight => Crossing::artin(crossing.foot - steps, Sign::Positive),
            StaircaseQuadrant::UpperRight => Crossing::artin(crossing.foot + steps, Sign::Negative),
        }
    }
}

/// Places a generator left of the crossing: a positive one must be the next step up of the
/// upper-left staircase, a negative one the next step down of the lower-left staircase.
pub open spec fn step_left(crossing: Crossing, st: Staircases, part: Crossing) -> Result<
    Staircases,
    CoalesceError,
> {
    match part.sign {
        Sign::Positive => {
            let prev = staircase_top(crossing, StaircaseQuadrant::UpperLeft, st.upper_left);
            if part.foot == prev.foot + 1 {
                Ok(Staircases { upper_left: st.upper_left + 1, ..st })
            } else {
                Err(
                    CoalesceError::IncontiguousSteps {
                        quadrant: StaircaseQuadrant::UpperLeft,
                        next_step: part,
                        previous_step: prev,
                    },
                )
            }
        },
        Sign::Negative => {
            let prev = staircase_top(crossing, StaircaseQuadrant::LowerLeft, st.lower_left);
            if part.foot + 1 == prev.foot {
                Ok(Staircases { lower_left: st.lower_left + 1, ..st })
            } else {
                Err(
                    CoalesceError::IncontiguousSteps {
                        quadrant: StaircaseQuadrant::LowerLeft,
                        next_step: part,
                        previous_step: prev,
                    },
                )
            }
        },
    }
}

/// Places a generator right of the crossing: a positive one must be the next step down of the
/// lower-right staircase, a negative one the next step up of the upper-right staircase.
pub open spec fn step_right(crossing: Crossing, st: Staircases, part: Crossing) -> Result<
    Staircases,
    CoalesceError,
> {
    match part.sign {
        Sign::Positive => {
            let prev = staircase_top(crossing, StaircaseQuadrant::LowerRight, st.lower_right);
            if part.foot + 1 == prev.foot {
                Ok(Staircases { lower_right: st.lower_right + 1, ..st })
            } else {
                Err(
                    CoalesceError::IncontiguousSteps {
                        quadrant: StaircaseQuadrant::LowerRight,
                        next_step: part,
                        previous_step: prev,
                    },
                )
            }
        },
        Sign::Negative => {
            let prev = staircase_top(crossing, StaircaseQuadrant::UpperRight, st.upper_right);
            if part.foot == prev.foot + 1 {
                Ok(Staircases { upper_right: st.upper_right + 1, ..st })
            } else {
                Err(
                    CoalesceError::IncontiguousSteps {
                        quadrant: StaircaseQuadrant::UpperRight,
                        next_step: part,
                        previous_step: prev,
                    },
                )
            }
        },
    }
}

/// Walks outwards from the middle crossing of `parts`, from distance `i + 1` on, placing the
/// generator at each distance on the left and then the one on the right.
pub open spec fn scan_staircases(parts: Seq<Crossing>, i: int, st: Staircases) -> Result<
    Staircases,
    CoalesceError,
>
    decreases parts.len() / 2 - i,
{
    let half = (parts.len() / 2) as int;
    if i < 0 || i >= half {
        Ok(st)
    } else {
        let crossing = parts[half];
        match step_left(crossing, st, parts[half - 1 - i]) {
            Err(e) => Err(e),
            Ok(st1) => match step_right(crossing, st1, parts[half + 1 + i]) {
                Err(e) => Err(e),
                Ok(st2) => scan_staircases(parts, i + 1, st2),
            },
        }
    }
}

/// The band that a sequence of Artin crossings coalesces into, or why it does not.
///
/// The sequence must have odd length; its middle generator is the crossing of the band, and the
/// generators at equal distance left and right of it must extend four staircases, the two lower
/// ones of equal length. The band reaches from the bottom of the lower staircases to the top of
/// the upper ones.
pub open spec fn coalesce_spec(parts: Seq<Crossing>) -> Result<Crossing, CoalesceError> {
    let n = parts.len();
    if n == 0 {
        Err(CoalesceError::NoGenerators)
    } else if n == 1 {
        Ok(parts[0])
    } else if n % 2 == 0 {
        Err(CoalesceError::EvenGenerators)
    } else if n > u16::MAX {
        Err(CoalesceError::TooManyGenerators(n as int))
    } else {
        let crossing = parts[(n / 2) as int];
        match scan_staircases(parts, 0, no_staircases()) {
            Err(e) => Err(e),
            Ok(st) => if st.lower_left != st.lower_right {
                Err(
                    CoalesceError::ImbalancedStaircases(
                        if st.lower_left > st.lower_right {
                            st.lower_left - st.lower_right
                        } else {
                            st.lower_right - st.lower_left
                        },
                    ),
                )
            } else {
                Ok(
                    Crossing {
                        foot: crossing.foot - st.lower_left,
                        head: crossing.foot + st.upper_left + 1,
                        sign: crossing.sign,
                    },
                )
            },
        }
    }
}

/// What [`BandGenerator::coalesce`] gives for generators with the crossings `parts`.
pub open spec fn coalesce_post(parts: Seq<Crossing>, r: Result<Crossing, BandValidationError>) -> bool {
    match coalesce_spec(parts) {
        Ok(c) => r == Ok::<Crossing, BandValidationError>(c),
        Err(e) => r matches Err(BandValidationError::FromArtin(f)) && f@ == e,
    }
}

/// The bounds that the staircases keep while the scan places valid Artin generators around a
/// valid crossing: one step on each side per distance, and every step a valid strand.
pub open spec fn staircases_bounded(crossing: Crossing, st: Staircases, i: int) -> bool {
    &&& st.upper_left >= 0
    &&& st.lower_left >= 0
    &&& st.lower_right >= 0
    &&& st.upper_right >= 0
    &&& st.upper_left + st.lower_left == i
    &&& st.lower_right + st.upper_right == i
    &&& crossing.foot + st.upper_left < u16::MAX
    &&& crossing.foot - st.lower_left >= 1
}

/// A scan of valid Artin generators that succeeds keeps the staircases bounded.
pub proof fn lemma_scan_bounded(parts: Seq<Crossing>, i: int, st: Staircases)
    requires
        parts.len() % 2 == 1,
        0 <= i <= parts.len() / 2,
        forall|j: int| 0 <= j < parts.len() ==> (#[trigger] parts[j]).is_valid_artin(),
        staircases_bounded(parts[(parts.len() / 2) as int], st, i),
    ensures
        scan_staircases(parts, i, st) matches Ok(st2) ==> staircases_bounded(
            parts[(parts.len() / 2) as int],
            st2,
            (parts.len() / 2) as int,
        ),
    decreases parts.len() / 2 - i,
{
    let half = (parts.len() / 2) as int;
    let crossing = parts[half];
    if i < half {
        let left = parts[half - 1 - i];
        let right = parts[half + 1 + i];
        assert(left.is_valid_artin());
        assert(right.is_valid_artin());
        assert(crossing.is_valid_artin());
        if let Ok(st1) = step_left(crossing, st, left) {
            if let Ok(st2) = step_right(crossing, st1, right) {
                assert(staircases_bounded(crossing, st2, i + 1));
                lemma_scan_bounded(parts, i + 1, st2);
            }
        }
    }
}

/// Coalescing valid Artin crossings gives a valid band whose Artin length is the number of
/// crossings coalesced.
pub proof fn lemma_coalesce_valid(parts: Seq<Crossing>)
    requires
        forall|j: int| 0 <= j < parts.len() ==> (#[trigger] parts[j]).is_valid_artin(),
    ensures
        coalesce_spec(parts) matches Ok(c) ==> c.is_valid() && c.artin_len() == parts.len(),
{
    let n = parts.len();
    if n == 1 {
        assert(parts[0].is_valid_artin());
    } else if n > 1 && n % 2 == 1 && n <= u16::MAX {
        let half = (n / 2) as int;
        assert(parts[half].is_valid_artin());
        lemma_scan_bounded(parts, 0, no_staircases());
    }
}

/// The top of the upper-left staircase is one of `parts`, unless that staircase is empty.
pub open spec fn upper_left_reached(parts: Seq<Crossing>, crossing: Crossing, st: Staircases) -> bool {
    st.upper_left == 0 || exists|j: int|
        0 <= j < parts.len() && (#[trigger] parts[j]).foot == crossing.foot + st.upper_left
}

/// The scan only ever climbs the upper-left staircase onto generators of `parts`.
pub proof fn lemma_scan_upper_left(parts: Seq<Crossing>, i: int, st: Staircases)
    requires
        parts.len() % 2 == 1,
        0 <= i <= parts.len() / 2,
        st.upper_left >= 0,
        upper_left_reached(parts, parts[(parts.len() / 2) as int], st),
    ensures
        scan_staircases(parts, i, st) matches Ok(st2) ==> st2.upper_left >= 0 && upper_left_reached(
            parts,
            parts[(parts.len() / 2) as int],
            st2,
        ),
    decreases parts.len() / 2 - i,
{
    let half = (parts.len() / 2) as int;
    let crossing = parts[half];
    if i < half {
        let left = parts[half - 1 - i];
        let right = parts[half + 1 + i];
        if let Ok(st1) = step_left(crossing, st, left) {
            if left.sign == Sign::Positive {
                assert(left.foot == crossing.foot + st1.upper_left);
                assert(upper_left_reached(parts, crossing, st1));
            }
            if let Ok(st2) = step_right(crossing, st1, right) {
                lemma_scan_upper_left(parts, i + 1, st2);
            }
        }
    }
}

/// The band that valid Artin crossings coalesce into has the head strand of one of them.
pub proof fn lemma_coalesce_head(parts: Seq<Crossing>)
    requires
        forall|j: int| 0 <= j < parts.len() ==> (#[trigger] parts[j]).is_valid_artin(),
    ensures
        coalesce_spec(parts) matches Ok(c) ==> exists|j: int|
            0 <= j < parts.len() && (#[trigger] parts[j]).head == c.head,
{
    let n = parts.len();
    if n == 1 {
        assert(parts[0].is_valid_artin());
        assert(parts[0].head == parts[0].head);
    } else if n > 1 && n % 2 == 1 && n <= u16::MAX {
        let half = (n / 2) as int;
        let crossing = parts[half];
        assert(crossing.is_valid_artin());
        lemma_scan_upper_left(parts, 0, no_staircases());
        if let Ok(st) = scan_staircases(parts, 0, no_staircases()) {
            if st.upper_left == 0 {
                assert(parts[half].head == crossing.foot + st.upper_left + 1);
            } else {
                let j = choose|j: int|
                    0 <= j < parts.len() && (#[trigger] parts[j]).foot == crossing.foot
                        + st.upper_left;
                assert(parts[j].is_valid_artin());
                assert(parts[j].head == crossing.foot + st.upper_left + 1);
            }
        }
    }
}

/// Scanning the decomposition of a valid crossing `c` from distance `i + 1` on, with `i` steps
/// taken down each of the two lower staircases, takes every remaining step down them too.
proof fn lemma_scan_decomposition(c: Crossing, i: int)
    requires
        c.is_valid(),
        0 <= i <= c.height() - 1,
    ensures
        scan_staircases(
            decompose_crossing(c),
            i,
            Staircases { upper_left: 0, lower_left: i, lower_right: i, upper_right: 0 },
        ) == Ok::<Staircases, CoalesceError>(
            Staircases {
                upper_left: 0,
                lower_left: c.height() - 1,
                lower_right: c.height() - 1,
                upper_right: 0,
            },
        ),
    decreases c.height() - 1 - i,
{
    let parts = decompose_crossing(c);
    let h = c.height();
    let half = (parts.len() / 2) as int;
    assert(parts.len() == 2 * h - 1);
    assert(half == h - 1);
    if i < half {
        let crossing = parts[half];
        let st = Staircases { upper_left: 0, lower_left: i, lower_right: i, upper_right: 0 };
        assert(crossing == Crossing::artin(c.head - 1, c.sign));
        assert(parts[half - 1 - i] == Crossing::artin(c.foot + (half - 1 - i), Sign::Negative));
        assert(parts[half + 1 + i] == Crossing::artin(
            c.foot + (2 * h - 2 - (half + 1 + i)),
            Sign::Positive,
        ));
        let st1 = Staircases { upper_left: 0, lower_left: i + 1, lower_right: i, upper_right: 0 };
        let st2 = Staircases {
            upper_left: 0,
            lower_left: i + 1,
            lower_right: i + 1,
            upper_right: 0,
        };
        assert(step_left(crossing, st, parts[half - 1 - i]) == Ok::<Staircases, CoalesceError>(
            st1,
        ));
        assert(step_right(crossing, st1, parts[half + 1 + i]) == Ok::<Staircases, CoalesceError>(
            st2,
        ));
        lemma_scan_decomposition(c, i + 1);
    }
}

/// Coalescing the decomposition of a valid crossing gives back the crossing: coalescing is a
/// left inverse of decomposing.
pub proof fn lemma_coalesce_decomposition(c: Crossing)
    requires
        c.is_valid(),
    ensures
        coalesce_spec(decompose_crossing(c)) == Ok::<Crossing, CoalesceError>(c),
{
    let parts = decompose_crossing(c);
    let h = c.height();
    if h == 1 {
        assert(parts.len() == 1);
        assert(parts[0] == c);
    } else {
        assert(parts.len() == 2 * h - 1);
        assert(((2 * h - 1) / 2) as int == h - 1);
        assert(parts[h - 1] == Crossing::artin(c.head - 1, c.sign));
        assert(no_staircases() == Staircases {
            upper_left: 0,
            lower_left: 0,
            lower_right: 0,
            upper_right: 0,
        });
        lemma_scan_decomposition(c, 0);
    }
}

/// What a scan of `parts` from distance `i + 1` on adds to the staircases: each generator left
/// of the crossing extends exactly one of the left staircases, the upper one if it is positive,
/// and likewise on the right, where a positive generator extends the lower staircase. So the
/// left generators scanned have the writhe `upper_left - lower_left` that they add, and the
/// right ones `lower_right - upper_right`.
pub proof fn lemma_scan_writhe(parts: Seq<Crossing>, i: int, st: Staircases)
    requires
        parts.len() % 2 == 1,
        0 <= i <= parts.len() / 2,
    ensures
        scan_staircases(parts, i, st) matches Ok(st2) ==> {
            let half = (parts.len() / 2) as int;
            &&& writhe(parts.subrange(0, half - i)) == (st2.upper_left - st.upper_left) - (
            st2.lower_left - st.lower_left)
            &&& (st2.upper_left - st.upper_left) + (st2.lower_left - st.lower_left) == half - i
            &&& writhe(parts.subrange(half + 1 + i, parts.len() as int)) == (st2.lower_right
                - st.lower_right) - (st2.upper_right - st.upper_right)
            &&& (st2.lower_right - st.lower_right) + (st2.upper_right - st.upper_right) == half
                - i
        },
    decreases parts.len() / 2 - i,
{
    let n = parts.len();
    let half = (n / 2) as int;
    let crossing = parts[half];
    if i >= half {
        assert(parts.subrange(0, half - i) =~= Seq::<Crossing>::empty());
        assert(parts.subrange(half + 1 + i, n as int) =~= Seq::<Crossing>::empty());
        assert(writhe(Seq::<Crossing>::empty()) == 0);
    } else {
        let left = parts[half - 1 - i];
        let right = parts[half + 1 + i];
        if let Ok(st1) = step_left(crossing, st, left) {
            if let Ok(st2) = step_right(crossing, st1, right) {
                lemma_scan_writhe(parts, i + 1, st2);
                let l = parts.subrange(0, half - i);
                assert(l.drop_last() =~= parts.subrange(0, half - i - 1));
                assert(l.last() == left);
                let r = parts.subrange(half + 1 + i, n as int);
                assert(r.drop_first() =~= parts.subrange(half + 2 + i, n as int));
                assert(r[0] == right);
                lemma_writhe_first(r);
            }
        }
    }
}

/// Coalescing is sound for the writhe: generators that coalesce into a band have the band's
/// writhe, the value of its sign, which is also the writhe of the band's decomposition.
pub proof fn lemma_coalesce_writhe(parts: Seq<Crossing>)
    ensures
        coalesce_spec(parts) matches Ok(c) ==> writhe(parts) == sign_value(c.sign),
        coalesce_spec(parts) matches Ok(c) ==> (c.is_valid() ==> writhe(parts) == writhe(
            decompose_crossing(c),
        )),
{
    let n = parts.len();
    if n == 1 {
        assert(parts =~= seq![parts[0]]);
        lemma_writhe_single(parts[0]);
    } else if n > 1 && n % 2 == 1 && n <= u16::MAX {
        let half = (n / 2) as int;
        lemma_scan_writhe(parts, 0, no_staircases());
        let l = parts.subrange(0, half);
        let r = parts.subrange(half + 1, n as int);
        assert(parts =~= l + seq![parts[half]] + r);
        lemma_writhe_concat(l + seq![parts[half]], r);
        lemma_writhe_concat(l, seq![parts[half]]);
        lemma_writhe_single(parts[half]);
    }
    if let Ok(c) = coalesce_spec(parts) {
        if c.is_valid() {
            lemma_writhe_decompose_crossing(c);
        }
    }
}

/// Where the generators left of a crossing of foot `f` take the strand at position `x`, when
/// they climb `upper` steps up and `lower` steps down from it.
spec fn left_strands(f: int, upper: int, lower: int, x: int) -> int {
    if x == f + upper + 1 {
        f + 1
    } else if f + 1 <= x <= f + upper {
        x + 1
    } else if x == f - lower {
        f
    } else if f - lower + 1 <= x <= f {
        x - 1
    } else {
        x
    }
}

/// Where the generators right of a crossing of foot `f` take the strand at position `y`, when
/// they climb `lower` steps down and `upper` steps up from it.
spec fn right_strands(f: int, lower: int, upper: int, y: int) -> int {
    if y == f + 1 {
        f + upper + 1
    } else if f + 2 <= y <= f + upper + 1 {
        y - 1
    } else if y == f {
        f - lower
    } else if f - lower <= y <= f - 1 {
        y + 1
    } else {
        y
    }
}

/// Where the generators scanned around `crossing`, with the staircases `st`, take the strand at
/// position `x`.
spec fn scanned_strands(crossing: Crossing, st: Staircases, x: int) -> int {
    right_strands(
        crossing.foot,
        st.lower_right,
        st.upper_right,
        swap_through(crossing, left_strands(crossing.foot, st.upper_left, st.lower_left, x)),
    )
}

/// One more step on a left staircase is taken before the others.
proof fn lemma_left_step(f: int, upper: int, lower: int, step: Crossing, x: int)
    requires
        upper >= 0,
        lower >= 0,
        step.head == step.foot + 1,
    ensures
        step.foot == f + upper + 1 ==> left_strands(f, upper + 1, lower, x) == left_strands(
            f,
            upper,
            lower,
            swap_through(step, x),
        ),
        step.foot == f - lower - 1 ==> left_strands(f, upper, lower + 1, x) == left_strands(
            f,
            upper,
            lower,
            swap_through(step, x),
        ),
{
}

/// One more step on a right staircase is taken after the others.
proof fn lemma_right_step(f: int, lower: int, upper: int, step: Crossing, y: int)
    requires
        upper >= 0,
        lower >= 0,
        step.head == step.foot + 1,
    ensures
        step.foot == f - lower - 1 ==> right_strands(f, lower + 1, upper, y) == swap_through(
            step,
            right_strands(f, lower, upper, y),
        ),
        step.foot == f + upper + 1 ==> right_strands(f, lower, upper + 1, y) == swap_through(
            step,
            right_strands(f, lower, upper, y),
        ),
{
}

/// The generators at distance less than `i` from the middle of `parts` move the strands as
/// [`scanned_strands`] says for the staircases `st`; then so do all of `parts` for the
/// staircases that the rest of the scan ends with.
proof fn lemma_scan_strands(parts: Seq<Crossing>, i: int, st: Staircases)
    requires
        parts.len() % 2 == 1,
        0 <= i <= parts.len() / 2,
        forall|j: int| 0 <= j < parts.len() ==> (#[trigger] parts[j]).is_valid_artin(),
        st.upper_left >= 0,
        st.lower_left >= 0,
        st.lower_right >= 0,
        st.upper_right >= 0,
        forall|x: int|
            #[trigger] strand_end(
                parts.subrange(parts.len() / 2 - i, parts.len() / 2 + 1 + i),
                x,
            ) == scanned_strands(parts[(parts.len() / 2) as int], st, x),
    ensures
        scan_staircases(parts, i, st) matches Ok(st2) ==> forall|x: int|
            #[trigger] strand_end(parts, x) == scanned_strands(parts[(parts.len() / 2) as int], st2, x),
        scan_staircases(parts, i, st) matches Ok(st2) ==> st2.upper_left >= 0 && st2.lower_left
            >= 0 && st2.lower_right >= 0 && st2.upper_right >= 0,
    decreases parts.len() / 2 - i,
{
    let n = parts.len();
    let half = (n / 2) as int;
    let crossing = parts[half];
    let f = crossing.foot;
    if i >= half {
        assert(parts.subrange(half - i, half + 1 + i) =~= parts);
    } else {
        let left = parts[half - 1 - i];
        let right = parts[half + 1 + i];
        assert(left.is_valid_artin());
        assert(right.is_valid_artin());
        if let Ok(st1) = step_left(crossing, st, left) {
            if let Ok(st2) = step_right(crossing, st1, right) {
                let seg = parts.subrange(parts.len() / 2 - i, parts.len() / 2 + 1 + i);
                let seg2 = parts.subrange(half - i - 1, half + 2 + i);
                assert(seg2 =~= seq![left] + seg + seq![right]);
                assert forall|x: int| #[trigger]
                    strand_end(seg2, x) == scanned_strands(crossing, st2, x) by {
                    let y = swap_through(left, x);
                    lemma_strand_end_concat(seq![left] + seg, seq![right], x);
                    lemma_strand_end_concat(seq![left], seg, x);
                    lemma_strand_end_single(left, x);
                    lemma_strand_end_single(right, strand_end(seg, y));
                    lemma_left_step(f, st.upper_left, st.lower_left, left, x);
                    lemma_right_step(
                        f,
                        st1.lower_right,
                        st1.upper_right,
                        right,
                        swap_through(crossing, left_strands(f, st1.upper_left, st1.lower_left, x)),
                    );
                    assert(strand_end(
                        parts.subrange(parts.len() / 2 - i, parts.len() / 2 + 1 + i),
                        y,
                    ) == scanned_strands(parts[(parts.len() / 2) as int], st, y));
                }
                lemma_scan_strands(parts, i + 1, st2);
            }
        }
    }
}

/// Coalescing is sound for the permutation of the strands: generators that coalesce into a band
/// move the strands as the band does, trading the strands at its foot and its head and leaving
/// every other strand in place.
pub proof fn lemma_coalesce_strands(parts: Seq<Crossing>)
    requires
        forall|j: int| 0 <= j < parts.len() ==> (#[trigger] parts[j]).is_valid_artin(),
    ensures
        coalesce_spec(parts) matches Ok(c) ==> forall|x: int|
            #[trigger] strand_end(parts, x) == swap_through(c, x),
{
    let n = parts.len();
    if n == 1 {
        assert(parts =~= seq![parts[0]]);
        assert forall|x: int| #[trigger] strand_end(parts, x) == swap_through(parts[0], x) by {
            lemma_strand_end_single(parts[0], x);
        }
    } else if n > 1 && n % 2 == 1 && n <= u16::MAX {
        let half = (n / 2) as int;
        let crossing = parts[half];
        assert(crossing.is_valid_artin());
        let seg = parts.subrange(half, half + 1);
        assert(seg =~= seq![crossing]);
        assert forall|x: int| #[trigger]
            strand_end(parts.subrange(parts.len() / 2 - 0int, parts.len() / 2 + 1 + 0int), x)
                == scanned_strands(parts[(parts.len() / 2) as int], no_staircases(), x) by {
            assert(parts.subrange(parts.len() / 2 - 0int, parts.len() / 2 + 1 + 0int) == seg);
            lemma_strand_end_single(crossing, x);
        }
        lemma_scan_strands(parts, 0, no_staircases());
        lemma_scan_writhe(parts, 0, no_staircases());
        if let Ok(st) = scan_staircases(parts, 0, no_staircases()) {
            if st.lower_left == st.lower_right {
                let c = Crossing {
                    foot: crossing.foot - st.lower_left,
                    head: crossing.foot + st.upper_left + 1,
                    sign: crossing.sign,
                };
                assert(coalesce_spec(parts) == Ok::<Crossing, CoalesceError>(c));
                assert(st.upper_left == st.upper_right);
                assert forall|x: int| #[trigger] strand_end(parts, x) == swap_through(c, x) by {
                    assert(strand_end(parts, x) == scanned_strands(
                        parts[(parts.len() / 2) as int],
                        st,
                        x,
                    ));
                }
            }
        }
    }
}

/// The decomposition of a valid crossing moves the strands as the crossing does.
pub proof fn lemma_decompose_strands(c: Crossing)
    requires
        c.is_valid(),
    ensures
        forall|x: int| #[trigger] strand_end(decompose_crossing(c), x) == swap_through(c, x),
{
    let d = decompose_crossing(c);
    lemma_decompose_crossing(c);
    lemma_coalesce_decomposition(c);
    assert forall|j: int| 0 <= j < d.len() implies (#[trigger] d[j]).is_valid_artin() by {
    }
    lemma_coalesce_strands(d);
}

/// Decomposing valid crossings into Artin generators keeps the permutation of the strands.
pub proof fn lemma_decompose_seq_strands(s: Seq<Crossing>)
    requires
        all_valid(s),
    ensures
        forall|x: int| #[trigger] strand_end(decompose_seq(s), x) == strand_end(s, x),
    decreases s.len(),
{
    if s.len() > 0 {
        let rest = s.drop_last();
        assert(all_valid(rest)) by {
            assert forall|i: int| 0 <= i < rest.len() implies (#[trigger] rest[i]).is_valid() by {
                assert(rest[i] == s[i]);
            }
        }
        lemma_decompose_seq_strands(rest);
        assert(s[s.len() - 1].is_valid());
        lemma_decompose_strands(s.last());
        assert forall|x: int| #[trigger] strand_end(decompose_seq(s), x) == strand_end(s, x) by {
            lemma_strand_end_concat(decompose_seq(rest), decompose_crossing(s.last()), x);
        }
    }
}

impl BandGenerator {
    /// The foot is positive and below the head, and the height is at most `2^15`.
    #[verifier::type_invariant]
    pub open spec fn inv(self) -> bool {
        self@.is_valid()
    }

    /// The band of a valid crossing.
    pub(crate) fn from_parts(foot: u16, head: u16, sign: Sign) -> (b: BandGenerator)
        requires
            (Crossing { foot: foot as int, head: head as int, sign }).is_valid(),
        ensures
            b@ == (Crossing { foot: foot as int, head: head as int, sign }),
    {
        BandGenerator { foot: Strand::from_positive(foot), head: Strand::from_positive(head), sign }
    }

    /// Attempts to build the band generator crossing `foot` with `head`.
    ///
    /// Fails if either strand cannot be built, if the foot is not below the head, or if the
    /// height exceeds `2^15` (the Artin length would exceed [`u16::MAX`]).
    pub fn try_new(foot: i64, head: i64, sign: Sign) -> (r: BandResult)
        ensures
            band_try_new_post(foot as int, head as int, sign, r@),
    {
        let foot = match Strand::try_new(foot).into_result() {
            Ok(foot) => foot,
            Err(e) => return BandResult::from_err(BandValidationError::from(e)),
        };
        let head = match Strand::try_new(head).into_result() {
            Ok(head) => head,
            Err(e) => return BandResult::from_err(BandValidationError::from(e)),
        };
        let f = foot.value();
        let h = head.value();
        if f < h {
            let height = h - f;
            if height > MAX_BAND_HEIGHT {
                BandResult::from_err(BandValidationError::TooTall(height))
            } else {
                BandResult::from_ok(BandGenerator { foot, head, sign })
            }
        } else if f == h {
            BandResult::from_err(BandValidationError::FootOnHead(foot))
        } else {
            BandResult::from_err(BandValidationError::FootOverHead { foot, head })
        }
    }

    /// Like [`BandGenerator::try_new`], returning a plain [`Result`].
    pub fn new(foot: i64, head: i64, sign: Sign) -> (r: Result<BandGenerator, BandValidationError>)
        ensures
            band_try_new_post(
                foot as int,
                head as int,
                sign,
                match r {
                    Ok(b) => Ok(b@),
                    Err(e) => Err(e),
                },
            ),
    {
        BandGenerator::try_new(foot, head, sign).into_result()
    }

    /// Coalesces a sequence of Artin generators into a single band generator.
    ///
    /// The middle generator is the crossing of the band; the generators left and right of it
    /// must form four contiguous staircases (see [`coalesce_spec`]). A single generator
    /// coalesces into the band of height one.
    ///
    /// The band, when there is one, has the writhe of the generators (one if it is positive,
    /// minus one if it is negative) and moves the strands as they do.
    pub fn coalesce(band_parts: &[ArtinGenerator]) -> (r: BandResult)
        ensures
            coalesce_post(artin_views(band_parts@), r@),
            r@ matches Ok(c) ==> writhe(artin_views(band_parts@)) == sign_value(c.sign),
            r@ matches Ok(c) ==> forall|x: int| #[trigger]
                strand_end(artin_views(band_parts@), x) == swap_through(c, x),
    {
        let ghost parts = artin_views(band_parts@);
        // Gathers, for the proof, the validity that each generator's type guarantees.
        let mut k: usize = 0;
        while k < band_parts.len()
            invariant
                0 <= k <= band_parts@.len(),
                forall|j: int| 0 <= j < k ==> (#[trigger] band_parts@[j])@.is_valid_artin(),
            decreases band_parts@.len() - k,
        {
            let g = &band_parts[k];
            proof {
                use_type_invariant(g);
            }
            k = k + 1;
        }
        proof {
            lemma_coalesce_writhe(parts);
            assert forall|j: int| 0 <= j < parts.len() implies (#[trigger] parts[j]).is_valid_artin() by {
                assert(parts[j] == band_parts@[j]@);
            }
            lemma_coalesce_strands(parts);
        }
        let num_parts = band_parts.len();
        if num_parts == 0 {
            return BandResult::from_err(BandValidationError::from(FromArtinError::NoGenerators));
        } else if num_parts == 1 {
            let generator = band_parts[0];
            return BandResult::from_ok(BandGenerator::from(generator));
        } else if num_parts % 2 == 0 {
            return BandResult::from_err(BandValidationError::from(FromArtinError::EvenGenerators));
        } else if num_parts > 65535 {
            return BandResult::from_err(
                BandValidationError::from(FromArtinError::TooManyGenerators(num_parts)),
            );
        }
        let half = num_parts / 2;
        let crossing = band_parts[half];
        proof {
            use_type_invariant(&crossing);
        }
        let ghost c = crossing@;
        let mut upper_left_staircase: Vec<ArtinGenerator> = Vec::new();
        let mut lower_left_staircase: Vec<ArtinGenerator> = Vec::new();
        let mut lower_right_staircase: Vec<ArtinGenerator> = Vec::new();
        let mut upper_right_staircase: Vec<ArtinGenerator> = Vec::new();
        let mut i: usize = 0;
        while i < half
            invariant
                num_parts == band_parts@.len(),
                parts == artin_views(band_parts@),
                num_parts % 2 == 1,
                3 <= num_parts <= 65535,
                half == num_parts / 2,
                0 <= i <= half,
                crossing@ == c,
                c == parts[half as int],
                c.is_valid_artin(),
                upper_left_staircase@.len() + lower_left_staircase@.len() == i,
                lower_right_staircase@.len() + upper_right_staircase@.len() == i,
                forall|k: int|
                    0 <= k < upper_left_staircase@.len() ==> (#[trigger] upper_left_staircase@[k])@
                        == Crossing::artin(c.foot + k + 1, Sign::Positive),
                forall|k: int|
                    0 <= k < lower_left_staircase@.len() ==> (#[trigger] lower_left_staircase@[k])@
                        == Crossing::artin(c.foot - k - 1, Sign::Negative),
                forall|k: int|
                    0 <= k < lower_right_staircase@.len() ==> (
                    #[trigger] lower_right_staircase@[k])@ == Crossing::artin(
                        c.foot - k - 1,
                        Sign::Positive,
                    ),
                forall|k: int|
                    0 <= k < upper_right_staircase@.len() ==> (
                    #[trigger] upper_right_staircase@[k])@ == Crossing::artin(
                        c.foot + k + 1,
                        Sign::Negative,
                    ),
                c.foot + upper_left_staircase@.len() < u16::MAX,
                c.foot - lower_left_staircase@.len() >= 1,
                c.foot + upper_right_staircase@.len() < u16::MAX,
                c.foot - lower_right_staircase@.len() >= 1,
                scan_staircases(parts, 0, no_staircases()) == scan_staircases(
                    parts,
                    i as int,
                    Staircases {
                        upper_left: upper_left_staircase@.len() as int,
                        lower_left: lower_left_staircase@.len() as int,
                        lower_right: lower_right_staircase@.len() as int,
                        upper_right: upper_right_staircase@.len() as int,
                    },
                ),
            decreases half - i,
        {
            let ghost st = Staircases {
                upper_left: upper_left_staircase@.len() as int,
                lower_left: lower_left_staircase@.len() as int,
                lower_right: lower_right_staircase@.len() as int,
                upper_right: upper_right_staircase@.len() as int,
            };
            let left_part = band_parts[half - 1 - i];
            let right_part = band_parts[half + 1 + i];
            proof {
                use_type_invariant(&left_part);
                use_type_invariant(&right_part);
                assert(parts[half - 1 - i] == left_part@);
                assert(parts[half + 1 + i] == right_part@);
            }
            let ghost st1 = match step_left(c, st, left_part@) {
                Ok(next) => next,
                Err(_) => st,
            };
            match left_part.sign() {
                Sign::Positive => {
                    let previous_step = *upper_left_staircase.last().unwrap_or(&crossing);
                    assert(previous_step@ == staircase_top(
                        c,
                        StaircaseQuadrant::UpperLeft,
                        st.upper_left,
                    ));
                    if left_part.foot().value() == previous_step.foot().value() + 1 {
                        upper_left_staircase.push(left_part);
                    } else {
                        return BandResult::from_err(
                            BandValidationError::from(
                                FromArtinError::IncontiguousSteps {
                                    quadrant: StaircaseQuadrant::UpperLeft,
                                    next_step: left_part,
                                    previous_step,
                                },
                            ),
                        );
                    }
                },
                Sign::Negative => {
                    let previous_step = *lower_left_staircase.last().unwrap_or(&crossing);
                    assert(previous_step@ == staircase_top(
                        c,
                        StaircaseQuadrant::LowerLeft,
                        st.lower_left,
                    ));
                    if left_part.foot().value() + 1 == previous_step.foot().value() {
                        lower_left_staircase.push(left_part);
                    } else {
                        return BandResult::from_err(
                            BandValidationError::from(
                                FromArtinError::IncontiguousSteps {
                                    quadrant: StaircaseQuadrant::LowerLeft,
                                    next_step: left_part,
                                    previous_step,
                                },
                            ),
                        );
                    }
                },
            }
            assert(step_left(c, st, left_part@) == Ok::<Staircases, CoalesceError>(st1));
            match right_part.sign() {
                Sign::Positive => {
                    let previous_step = *lower_right_staircase.last().unwrap_or(&crossing);
                    assert(previous_step@ == staircase_top(
                        c,
                        StaircaseQuadrant::LowerRight,
                        st1.lower_right,
                    ));
                    if right_part.foot().value() + 1 == previous_step.foot().value() {
                        lower_right_staircase.push(right_part);
                    } else {
                        return BandResult::from_err(
                            BandValidationError::from(
                                FromArtinError::IncontiguousSteps {
                                    quadrant: StaircaseQuadrant::LowerRight,
                                    next_step: right_part,
                                    previous_step,
                                },
                            ),
                        );
                    }
                },
                Sign::Negative => {
                    let previous_step = *upper_right_staircase.last().unwrap_or(&crossing);
                    assert(previous_step@ == staircase_top(
                        c,
                        StaircaseQuadrant::UpperRight,
                        st1.upper_right,
                    ));
                    if right_part.foot().value() == previous_step.foot().value() + 1 {
                        upper_right_staircase.push(right_part);
                    } else {
                        return BandResult::from_err(
                            BandValidationError::from(
                                FromArtinError::IncontiguousSteps {
                                    quadrant: StaircaseQuadrant::UpperRight,
                                    next_step: right_part,
                                    previous_step,
                                },
                            ),
                        );
                    }
                },
            }
            i = i + 1;
        }
        let lower_left = lower_left_staircase.len();
        let lower_right = lower_right_staircase.len();
        let difference = if lower_left >= lower_right {
            lower_left - lower_right
        } else {
            lower_right - lower_left
        };
        if difference > 0 {
            return BandResult::from_err(
                BandValidationError::from(FromArtinError::ImbalancedStaircases(difference)),
            );
        }
        let foot = lower_left_staircase.last().unwrap_or(&crossing).foot();
        let head = upper_left_staircase.last().unwrap_or(&crossing).foot().value() + 1;
        let sign = crossing.sign();
        BandResult::from_ok(BandGenerator::from_parts(foot.value(), head, sign))
    }

    /// The foot strand.
    pub fn foot(&self) -> (r: Strand)
        ensures
            r@ == self@.foot,
    {
        self.foot
    }

    /// The head strand.
    pub fn head(&self) -> (r: Strand)
        ensures
            r@ == self@.head,
    {
        self.head
    }

    /// The sign of the crossing.
    pub fn sign(&self) -> (r: Sign)
        ensures
            r == self@.sign,
    {
        self.sign
    }

    /// The same band with the opposite sign.
    pub fn inverse(&self) -> (r: BandGenerator)
        ensures
            r@ == self@.inverse(),
    {
        proof {
            use_type_invariant(self);
        }
        BandGenerator { foot: self.foot, head: self.head, sign: std::ops::Neg::neg(self.sign) }
    }

    /// The distance from the foot strand to the head strand.
    pub fn height(&self) -> (r: u16)
        ensures
            r == self@.height(),
    {
        proof {
            use_type_invariant(self);
        }
        self.head.value() - self.foot.value()
    }

    /// Whether the band crosses adjacent strands.
    pub fn is_artin(&self) -> (r: bool)
        ensures
            r == self@.is_artin(),
    {
        self.height() == 1
    }

    /// The smallest braid index accommodating the band: its head strand.
    pub fn minimal_required_braid_index(&self) -> (r: BraidIndex)
        ensures
            r@ == self@.min_index(),
    {
        BraidIndex::from(self.head)
    }

    /// The number of Artin generators the band decomposes into, `2 * height - 1`.
    pub fn artin_length(&self) -> (r: u16)
        ensures
            r == self@.artin_len(),
    {
        proof {
            use_type_invariant(self);
        }
        let height = self.height();
        if height == MAX_BAND_HEIGHT {
            u16::MAX
        } else {
            2 * height - 1
        }
    }

    /// The Artin generators the band stands for: negative generators carrying the foot strand
    /// up to just below the head, the crossing with the head, and positive generators carrying
    /// it back down.
    pub fn decompose(&self) -> (r: Vec<ArtinGenerator>)
        ensures
            artin_views(r@) == decompose_crossing(self@),
            writhe(artin_views(r@)) == sign_value(self@.sign),
            forall|x: int| #[trigger] strand_end(artin_views(r@), x) == swap_through(self@, x),
    {
        proof {
            use_type_invariant(self);
            lemma_writhe_decompose_crossing(self@);
            lemma_decompose_strands(self@);
        }
        let foot = self.foot.value();
        let head = self.head.value();
        let ghost h = self@.height();
        let crossing = ArtinGenerator::from_foot(head - 1, self.sign);
        let mut left: Vec<ArtinGenerator> = Vec::new();
        let mut foot_idx = foot;
        while foot_idx < head - 1
            invariant
                foot <= foot_idx <= head - 1,
                1 <= foot < head <= u16::MAX,
                left@.len() == foot_idx - foot,
                forall|k: int|
                    0 <= k < left@.len() ==> (#[trigger] left@[k])@ == Crossing::artin(
                        foot + k,
                        Sign::Negative,
                    ),
            decreases head - 1 - foot_idx,
        {
            left.push(ArtinGenerator::from_foot(foot_idx, Sign::Negative));
            foot_idx = foot_idx + 1;
        }
        let mut result: Vec<ArtinGenerator> = Vec::new();
        let mut k: usize = 0;
        while k < left.len()
            invariant
                0 <= k <= left@.len(),
                result@ == left@.subrange(0, k as int),
            decreases left@.len() - k,
        {
            result.push(left[k]);
            k = k + 1;
        }
        result.push(crossing);
        let mut k: usize = left.len();
        while k > 0
            invariant
                0 <= k <= left@.len(),
                left@.len() == h - 1,
                result@.len() == 2 * left@.len() + 1 - k,
                forall|j: int| 0 <= j < left@.len() ==> #[trigger] result@[j] == left@[j],
                result@[left@.len() as int] == crossing,
                forall|j: int|
                    left@.len() < j < result@.len() ==> (#[trigger] result@[j])@ == left@[2
                        * left@.len() - j]@.inverse(),
            decreases k,
        {
            k = k - 1;
            result.push(left[k].inverse());
        }
        proof {
            let d = decompose_crossing(self@);
            assert(artin_views(result@).len() == d.len());
            assert forall|j: int| 0 <= j < d.len() implies artin_views(result@)[j] == d[j] by {
                if j < h - 1 {
                } else if j == h - 1 {
                } else {
                    assert(result@[j]@ == left@[2 * (h - 1) - j]@.inverse());
                }
            }
            assert(artin_views(result@) =~= d);
        }
        result
    }

    /// Two band generators are equal exactly when their crossings are.
    pub broadcast proof fn lemma_view_injective(a: BandGenerator, b: BandGenerator)
        ensures
            #[trigger] a@ == #[trigger] b@ <==> a == b,
    {
        if a@ == b@ {
            Strand::lemma_view_injective(a.foot, b.foot);
            Strand::lemma_view_injective(a.head, b.head);
        }
    }
}

impl PartialEq for BandGenerator {
    fn eq(&self, other: &BandGenerator) -> (r: bool)
        ensures
            r == (self@ == other@),
    {
        self.foot == other.foot && self.head == other.head && self.sign == other.sign
    }
}

impl vstd::std_specs::cmp::PartialEqSpecImpl for BandGenerator {
    open spec fn obeys_eq_spec() -> bool {
        true
    }

    open spec fn eq_spec(&self, other: &BandGenerator) -> bool {
        self@ == other@
    }
}

impl From<ArtinGenerator> for BandGenerator {
    fn from(value: ArtinGenerator) -> (r: BandGenerator)
        ensures
            r@ == value@,
    {
        proof {
            use_type_invariant(&value);
        }
        BandGenerator { foot: value.foot(), head: value.head(), sign: value.sign() }
    }
}

impl vstd::std_specs::convert::FromSpecImpl<ArtinGenerator> for BandGenerator {
    open spec fn obeys_from_spec() -> bool {
        false
    }

    open spec fn from_spec(v: ArtinGenerator) -> BandGenerator {
        arbitrary()
    }
}

impl From<Letter> for BandGenerator {
    fn from(value: Letter) -> (r: BandGenerator)
        ensures
            r@ == value@,
    {
        match value {
            Letter::Artin(artin) => BandGenerator::from(artin),
            Letter::Band(band) => band,
        }
    }
}

impl vstd::std_specs::convert::FromSpecImpl<Letter> for BandGenerator {
    open spec fn obeys_from_spec() -> bool {
        false
    }

    open spec fn from_spec(v: Letter) -> BandGenerator {
        arbitrary()
    }
}

} // verus!
