use vstd::prelude::*;

use crate::sign::Sign;

verus! {

/// The largest height a band generator may have: its Artin length `2 * height - 1` must not
/// exceed [`u16::MAX`].
pub const MAX_BAND_HEIGHT: u16 = 32768;

/// The mathematical content of a generator: a crossing of the foot strand with the head strand
/// (foot below head), with a sign. Artin generators are the crossings of height one.
pub struct Crossing {
    /// The index of the lower strand.
    pub foot: int,
    /// The index of the upper strand.
    pub head: int,
    /// Which strand passes over the other.
    pub sign: Sign,
}

impl Crossing {
    /// The crossing of the adjacent strands `foot` and `foot + 1`.
    pub open spec fn artin(foot: int, sign: Sign) -> Crossing {
        Crossing { foot, head: foot + 1, sign }
    }

    /// The distance between the foot and the head strand.
    pub open spec fn height(self) -> int {
        self.head - self.foot
    }

    /// The number of Artin generators that this crossing decomposes into.
    pub open spec fn artin_len(self) -> int {
        2 * self.height() - 1
    }

    /// Whether the crossing is one of adjacent strands.
    pub open spec fn is_artin(self) -> bool {
        self.height() == 1
    }

    /// The crossing with the opposite sign.
    pub open spec fn inverse(self) -> Crossing {
        Crossing { foot: self.foot, head: self.head, sign: self.sign.negate() }
    }

    /// The strands are valid, the foot lies below the head, and the height is at most
    /// [`MAX_BAND_HEIGHT`].
    pub open spec fn is_valid(self) -> bool {
        &&& 1 <= self.foot
        &&& self.foot < self.head
        &&& self.head <= u16::MAX
        &&& self.height() <= MAX_BAND_HEIGHT
    }

    /// A valid crossing of adjacent strands.
    pub open spec fn is_valid_artin(self) -> bool {
        self.is_valid() && self.is_artin()
    }

    /// The smallest braid index that accommodates the crossing.
    pub open spec fn min_index(self) -> int {
        self.head
    }

    /// Inverting twice gives back the crossing.
    pub proof fn lemma_inverse_involutive(self)
        ensures
            self.inverse().inverse() == self,
            self.inverse() != self,
            self.inverse().is_valid() == self.is_valid(),
            self.inverse().artin_len() == self.artin_len(),
    {
        self.sign.lemma_negate_involutive();
    }
}

/// The total Artin length of a sequence of crossings.
pub open spec fn total_artin_len(s: Seq<Crossing>) -> int
    decreases s.len(),
{
    if s.len() == 0 {
        0
    } else {
        total_artin_len(s.drop_last()) + s.last().artin_len()
    }
}

/// The smallest braid index that accommodates every crossing of `s` (one if `s` is empty).
pub open spec fn seq_min_index(s: Seq<Crossing>) -> int
    decreases s.len(),
{
    if s.len() == 0 {
        1
    } else {
        let rest = seq_min_index(s.drop_last());
        if s.last().min_index() > rest {
            s.last().min_index()
        } else {
            rest
        }
    }
}

/// Every crossing of `s` is valid.
pub open spec fn all_valid(s: Seq<Crossing>) -> bool {
    forall|i: int| 0 <= i < s.len() ==> (#[trigger] s[i]).is_valid()
}

/// Every crossing of `s` is a valid Artin generator.
pub open spec fn all_valid_artin(s: Seq<Crossing>) -> bool {
    forall|i: int| 0 <= i < s.len() ==> (#[trigger] s[i]).is_valid_artin()
}

/// The formal inverse of a word of crossings: reversed, with every sign negated.
pub open spec fn seq_inverse(s: Seq<Crossing>) -> Seq<Crossing> {
    Seq::new(s.len(), |i: int| s[s.len() - 1 - i].inverse())
}

/// The number of positive minus the number of negative crossings.
pub open spec fn writhe(s: Seq<Crossing>) -> int
    decreases s.len(),
{
    if s.len() == 0 {
        0
    } else if s.last().sign == Sign::Positive {
        writhe(s.drop_last()) + 1
    } else {
        writhe(s.drop_last()) - 1
    }
}

/// The Artin generators that a crossing decomposes into: the foot strand is carried up over the
/// strands below the head by negative generators, crosses the head, and is carried back down.
pub open spec fn decompose_crossing(c: Crossing) -> Seq<Crossing> {
    let h = c.height();
    Seq::new(
        (2 * h - 1) as nat,
        |i: int|
            if i < h - 1 {
                Crossing::artin(c.foot + i, Sign::Negative)
            } else if i == h - 1 {
                Crossing::artin(c.head - 1, c.sign)
            } else {
                Crossing::artin(c.foot + (2 * h - 2 - i), Sign::Positive)
            },
    )
}

/// The decomposition of every crossing of `s`, concatenated.
pub open spec fn decompose_seq(s: Seq<Crossing>) -> Seq<Crossing>
    decreases s.len(),
{
    if s.len() == 0 {
        Seq::empty()
    } else {
        decompose_seq(s.drop_last()) + decompose_crossing(s.last())
    }
}

/// The number of adjacent inverse pairs at the junction of `a` and `b`, counted outwards from
/// position `k`: the last crossings of `a` cancel the first crossings of `b` as long as each is
/// the inverse of the other.
pub open spec fn cancel_radius_from(a: Seq<Crossing>, b: Seq<Crossing>, k: int) -> int
    decreases a.len() - k, b.len() - k,
{
    if 0 <= k < a.len() && k < b.len() && a[a.len() - 1 - k].inverse() == b[k] {
        cancel_radius_from(a, b, k + 1)
    } else {
        k
    }
}

/// The number of crossings that cancel at the junction of `a` and `b`.
pub open spec fn cancel_radius(a: Seq<Crossing>, b: Seq<Crossing>) -> int {
    cancel_radius_from(a, b, 0)
}

/// The product of two words of crossings: the concatenation, with the inverse pairs at the
/// junction cancelled.
pub open spec fn cancel_product(a: Seq<Crossing>, b: Seq<Crossing>) -> Seq<Crossing> {
    let k = cancel_radius(a, b);
    a.subrange(0, a.len() - k) + b.subrange(k, b.len() as int)
}

/// Totals add up over concatenation.
pub proof fn lemma_total_concat(a: Seq<Crossing>, b: Seq<Crossing>)
    ensures
        total_artin_len(a + b) == total_artin_len(a) + total_artin_len(b),
    decreases b.len(),
{
    if b.len() == 0 {
        assert(a + b =~= a);
    } else {
        lemma_total_concat(a, b.drop_last());
        assert((a + b).drop_last() =~= a + b.drop_last());
    }
}

/// The total of a non-empty sequence is its first crossing's length plus the rest.
pub proof fn lemma_total_first(s: Seq<Crossing>)
    requires
        s.len() > 0,
    ensures
        total_artin_len(s) == s[0].artin_len() + total_artin_len(s.drop_first()),
{
    let one = seq![s[0]];
    lemma_total_concat(one, s.drop_first());
    assert(one + s.drop_first() =~= s);
    assert(one.drop_last() =~= Seq::<Crossing>::empty());
    assert(total_artin_len(one.drop_last()) == 0);
    assert(total_artin_len(one) == s[0].artin_len());
}

/// Every valid crossing stands for at least one Artin generator, so the total of valid
/// crossings is at least their number.
pub proof fn lemma_total_bounds(s: Seq<Crossing>)
    requires
        all_valid(s),
    ensures
        s.len() <= total_artin_len(s),
    decreases s.len(),
{
    if s.len() > 0 {
        assert(all_valid(s.drop_last())) by {
            assert forall|i: int| 0 <= i < s.drop_last().len() implies (
            #[trigger] s.drop_last()[i]).is_valid() by {
                assert(s.drop_last()[i] == s[i]);
            }
        }
        lemma_total_bounds(s.drop_last());
        assert(s[s.len() - 1].is_valid());
    }
}

/// Sub-ranges of valid sequences are valid.
pub proof fn lemma_valid_subrange(s: Seq<Crossing>, i: int, j: int)
    requires
        all_valid(s),
        0 <= i <= j <= s.len(),
    ensures
        all_valid(s.subrange(i, j)),
{
    assert forall|k: int| 0 <= k < s.subrange(i, j).len() implies (
    #[trigger] s.subrange(i, j)[k]).is_valid() by {
        assert(s.subrange(i, j)[k] == s[i + k]);
    }
}

/// Concatenations of valid sequences are valid.
pub proof fn lemma_valid_concat(a: Seq<Crossing>, b: Seq<Crossing>)
    requires
        all_valid(a),
        all_valid(b),
    ensures
        all_valid(a + b),
{
    assert forall|k: int| 0 <= k < (a + b).len() implies (#[trigger] (a + b)[k]).is_valid() by {
        if k < a.len() {
            assert((a + b)[k] == a[k]);
        } else {
            assert((a + b)[k] == b[k - a.len()]);
        }
    }
}

/// The total of a sub-range of valid crossings is at most the total of the whole.
pub proof fn lemma_total_subrange(s: Seq<Crossing>, i: int, j: int)
    requires
        all_valid(s),
        0 <= i <= j <= s.len(),
    ensures
        total_artin_len(s.subrange(i, j)) <= total_artin_len(s),
        s.subrange(i, j).len() <= total_artin_len(s.subrange(i, j)),
{
    let a = s.subrange(0, i);
    let b = s.subrange(i, j);
    let c = s.subrange(j, s.len() as int);
    assert(s =~= a + b + c);
    lemma_total_concat(a + b, c);
    lemma_total_concat(a, b);
    lemma_valid_subrange(s, 0, i);
    lemma_valid_subrange(s, i, j);
    lemma_valid_subrange(s, j, s.len() as int);
    lemma_total_bounds(a);
    lemma_total_bounds(b);
    lemma_total_bounds(c);
}

/// What the cancellation radius is: the number of leading positions at which the crossings
/// at the junction are inverse to each other.
pub proof fn lemma_cancel_radius_from(a: Seq<Crossing>, b: Seq<Crossing>, k: int)
    requires
        0 <= k <= a.len(),
        k <= b.len(),
        forall|j: int| 0 <= j < k ==> #[trigger] a[a.len() - 1 - j].inverse() == b[j],
    ensures
        ({
            let r = cancel_radius_from(a, b, k);
            &&& k <= r <= a.len()
            &&& r <= b.len()
            &&& forall|j: int| 0 <= j < r ==> #[trigger] a[a.len() - 1 - j].inverse() == b[j]
            &&& r < a.len() && r < b.len() ==> a[a.len() - 1 - r].inverse() != b[r]
        }),
    decreases a.len() - k,
{
    if k < a.len() && k < b.len() && a[a.len() - 1 - k].inverse() == b[k] {
        lemma_cancel_radius_from(a, b, k + 1);
    }
}

/// The cancellation radius of `a` and `b`, with its characterisation.
pub proof fn lemma_cancel_radius(a: Seq<Crossing>, b: Seq<Crossing>)
    ensures
        ({
            let r = cancel_radius(a, b);
            &&& 0 <= r <= a.len()
            &&& r <= b.len()
            &&& forall|j: int| 0 <= j < r ==> #[trigger] a[a.len() - 1 - j].inverse() == b[j]
            &&& r < a.len() && r < b.len() ==> a[a.len() - 1 - r].inverse() != b[r]
        }),
{
    lemma_cancel_radius_from(a, b, 0);
}

/// The product of valid words is valid, and its total is at most the sum of the totals.
pub proof fn lemma_cancel_product_valid(a: Seq<Crossing>, b: Seq<Crossing>)
    requires
        all_valid(a),
        all_valid(b),
    ensures
        all_valid(cancel_product(a, b)),
        total_artin_len(cancel_product(a, b)) <= total_artin_len(a) + total_artin_len(b),
{
    lemma_cancel_radius(a, b);
    let k = cancel_radius(a, b);
    let left = a.subrange(0, a.len() - k);
    let right = b.subrange(k, b.len() as int);
    lemma_valid_subrange(a, 0, a.len() - k);
    lemma_valid_subrange(b, k, b.len() as int);
    lemma_valid_concat(left, right);
    lemma_total_concat(left, right);
    lemma_total_subrange(a, 0, a.len() - k);
    lemma_total_subrange(b, k, b.len() as int);
}

/// Characterises the minimal braid index of a sequence: it is at most `m` exactly when `m` is
/// positive and every head strand is at most `m`.
pub proof fn lemma_min_index_bound(s: Seq<Crossing>, m: int)
    ensures
        seq_min_index(s) <= m <==> (1 <= m && forall|i: int|
            0 <= i < s.len() ==> (#[trigger] s[i]).head <= m),
    decreases s.len(),
{
    if s.len() > 0 {
        lemma_min_index_bound(s.drop_last(), m);
        if seq_min_index(s) <= m {
            assert forall|i: int| 0 <= i < s.len() implies (#[trigger] s[i]).head <= m by {
                if i < s.len() - 1 {
                    assert(s.drop_last()[i] == s[i]);
                }
            }
        }
        if 1 <= m && forall|i: int| 0 <= i < s.len() ==> (#[trigger] s[i]).head <= m {
            assert forall|i: int| 0 <= i < s.drop_last().len() implies (
            #[trigger] s.drop_last()[i]).head <= m by {
                assert(s.drop_last()[i] == s[i]);
            }
            assert(s[s.len() - 1].head <= m);
        }
    }
}

/// The minimal braid index is one or the head strand of one of the crossings.
pub proof fn lemma_min_index_attained(s: Seq<Crossing>)
    ensures
        seq_min_index(s) == 1 || exists|j: int|
            0 <= j < s.len() && (#[trigger] s[j]).head == seq_min_index(s),
    decreases s.len(),
{
    if s.len() > 0 {
        let rest = s.drop_last();
        lemma_min_index_attained(rest);
        if s.last().min_index() <= seq_min_index(rest) && seq_min_index(rest) != 1 {
            let j = choose|j: int| 0 <= j < rest.len() && (#[trigger] rest[j]).head == seq_min_index(rest);
            assert(s[j] == rest[j]);
        } else if s.last().min_index() > seq_min_index(rest) {
            assert(s[s.len() - 1].head == seq_min_index(s));
        }
    }
}

/// The minimal braid index is positive and bounds every head strand.
pub proof fn lemma_min_index_bounds_heads(s: Seq<Crossing>)
    ensures
        seq_min_index(s) >= 1,
        forall|i: int| 0 <= i < s.len() ==> (#[trigger] s[i]).head <= seq_min_index(s),
{
    lemma_min_index_bound(s, seq_min_index(s));
}

/// Decomposing a sequence: the inverse of the first crossing goes last.
pub proof fn lemma_seq_inverse_first(s: Seq<Crossing>)
    requires
        s.len() > 0,
    ensures
        seq_inverse(s) =~= seq_inverse(s.drop_first()).push(s[0].inverse()),
{
}

/// The formal inverse keeps the total Artin length, the validity and the minimal braid index,
/// and negates the writhe.
pub proof fn lemma_seq_inverse_props(s: Seq<Crossing>)
    ensures
        total_artin_len(seq_inverse(s)) == total_artin_len(s),
        all_valid(s) ==> all_valid(seq_inverse(s)),
        seq_min_index(seq_inverse(s)) == seq_min_index(s),
        writhe(seq_inverse(s)) == -writhe(s),
        seq_inverse(seq_inverse(s)) == s,
        seq_inverse(s).len() == s.len(),
    decreases s.len(),
{
    let t = seq_inverse(s);
    if s.len() > 0 {
        let rest = s.drop_first();
        lemma_seq_inverse_props(rest);
        lemma_seq_inverse_first(s);
        assert(t.drop_last() =~= seq_inverse(rest));
        lemma_total_first(s);
        s[0].lemma_inverse_involutive();
        // writhe of s, read from the front
        lemma_writhe_first(s);
        // minimal index
        lemma_min_index_bounds_heads(s);
        lemma_min_index_bounds_heads(t);
        lemma_min_index_bound(t, seq_min_index(s));
        lemma_min_index_bound(s, seq_min_index(t));
        assert forall|i: int| 0 <= i < t.len() implies (#[trigger] t[i]).head <= seq_min_index(s) by {
            assert(t[i].head == s[s.len() - 1 - i].head);
        }
        assert forall|i: int| 0 <= i < s.len() implies (#[trigger] s[i]).head <= seq_min_index(t) by {
            assert(t[s.len() - 1 - i].head == s[i].head);
        }
        if all_valid(s) {
            assert forall|i: int| 0 <= i < t.len() implies (#[trigger] t[i]).is_valid() by {
                s[s.len() - 1 - i].lemma_inverse_involutive();
            }
        }
        assert forall|i: int| 0 <= i < s.len() implies seq_inverse(t)[i] == s[i] by {
            s[i].lemma_inverse_involutive();
        }
        assert(seq_inverse(t) =~= s);
    } else {
        assert(seq_inverse(t) =~= s);
    }
}

/// The writhe of a non-empty sequence, read from its first crossing.
pub proof fn lemma_writhe_first(s: Seq<Crossing>)
    requires
        s.len() > 0,
    ensures
        writhe(s) == writhe(s.drop_first()) + (if s[0].sign == Sign::Positive {
            1int
        } else {
            -1int
        }),
    decreases s.len(),
{
    if s.len() > 1 {
        lemma_writhe_first(s.drop_last());
        assert(s.drop_last().drop_first() =~= s.drop_first().drop_last());
        assert(s.drop_last()[0] == s[0]);
        assert(s.drop_first().last() == s.last());
        assert(writhe(s.drop_first()) == writhe(s.drop_first().drop_last()) + (if s.last().sign
            == Sign::Positive {
            1int
        } else {
            -1int
        }));
    } else {
        assert(s.drop_first().len() == 0);
        assert(s.drop_last().len() == 0);
        assert(writhe(s.drop_last()) == 0);
        assert(writhe(s.drop_first()) == 0);
    }
}

/// The decomposition of a valid crossing consists of valid Artin crossings, one for each unit
/// of its Artin length.
pub proof fn lemma_decompose_crossing(c: Crossing)
    requires
        c.is_valid(),
    ensures
        decompose_crossing(c).len() == c.artin_len(),
        all_valid_artin(decompose_crossing(c)),
        all_valid(decompose_crossing(c)),
        total_artin_len(decompose_crossing(c)) == c.artin_len(),
        seq_min_index(decompose_crossing(c)) == c.min_index(),
{
    let d = decompose_crossing(c);
    assert(all_valid_artin(d));
    lemma_total_ones(d);
    lemma_min_index_bounds_heads(d);
    lemma_min_index_bound(d, c.head);
    lemma_min_index_bound(d, c.head - 1);
    assert(d[c.height() - 1].head == c.head);
}

/// Sequences of Artin crossings have total Artin length equal to their length.
pub proof fn lemma_total_ones(s: Seq<Crossing>)
    requires
        forall|i: int| 0 <= i < s.len() ==> (#[trigger] s[i]).is_artin(),
    ensures
        total_artin_len(s) == s.len(),
    decreases s.len(),
{
    if s.len() > 0 {
        assert forall|i: int| 0 <= i < s.drop_last().len() implies (
        #[trigger] s.drop_last()[i]).is_artin() by {
            assert(s.drop_last()[i] == s[i]);
        }
        lemma_total_ones(s.drop_last());
        assert(s[s.len() - 1].is_artin());
    }
}

/// Decomposing a sequence keeps its total Artin length and minimal braid index, and gives valid
/// Artin crossings.
pub proof fn lemma_decompose_seq(s: Seq<Crossing>)
    requires
        all_valid(s),
    ensures
        all_valid_artin(decompose_seq(s)),
        all_valid(decompose_seq(s)),
        total_artin_len(decompose_seq(s)) == total_artin_len(s),
        seq_min_index(decompose_seq(s)) == seq_min_index(s),
    decreases s.len(),
{
    if s.len() > 0 {
        let rest = s.drop_last();
        lemma_valid_subrange(s, 0, s.len() - 1);
        assert(rest =~= s.subrange(0, s.len() - 1));
        lemma_decompose_seq(rest);
        let last = s[s.len() - 1];
        lemma_decompose_crossing(last);
        let d = decompose_seq(s);
        let dr = decompose_seq(rest);
        let dl = decompose_crossing(last);
        assert(d == dr + dl);
        lemma_total_concat(dr, dl);
        lemma_valid_concat(dr, dl);
        assert forall|i: int| 0 <= i < d.len() implies (#[trigger] d[i]).is_valid_artin() by {
            if i < dr.len() {
                assert(d[i] == dr[i]);
            } else {
                assert(d[i] == dl[i - dr.len()]);
            }
        }
        // minimal index of the concatenation
        lemma_min_index_bounds_heads(dr);
        lemma_min_index_bounds_heads(dl);
        lemma_min_index_bounds_heads(d);
        let m = seq_min_index(s);
        lemma_min_index_bound(s, m);
        lemma_min_index_bound(rest, m);
        assert forall|i: int| 0 <= i < rest.len() implies (#[trigger] rest[i]).head <= m by {
            assert(rest[i] == s[i]);
        }
        lemma_min_index_bound(dr, m);
        lemma_min_index_bound(dl, m);
        lemma_min_index_bound(d, m);
        assert forall|i: int| 0 <= i < d.len() implies (#[trigger] d[i]).head <= m by {
            if i < dr.len() {
                assert(d[i] == dr[i]);
            } else {
                assert(d[i] == dl[i - dr.len()]);
            }
        }
        let md = seq_min_index(d);
        lemma_min_index_bound(dr, md);
        lemma_min_index_bound(dl, md);
        assert forall|i: int| 0 <= i < dr.len() implies (#[trigger] dr[i]).head <= md by {
            assert(d[i] == dr[i]);
        }
        assert forall|i: int| 0 <= i < dl.len() implies (#[trigger] dl[i]).head <= md by {
            assert(d[i + dr.len()] == dl[i]);
        }
        lemma_min_index_bound(rest, md);
        lemma_min_index_bound(s, md);
        assert forall|i: int| 0 <= i < s.len() implies (#[trigger] s[i]).head <= md by {
            if i < s.len() - 1 {
                assert(rest[i] == s[i]);
            }
        }
    }
}

/// A word of Artin crossings is its own decomposition, so decomposing twice is decomposing once.
pub proof fn lemma_decompose_artin(s: Seq<Crossing>)
    requires
        forall|i: int| 0 <= i < s.len() ==> (#[trigger] s[i]).is_artin(),
    ensures
        decompose_seq(s) == s,
    decreases s.len(),
{
    if s.len() > 0 {
        let rest = s.drop_last();
        assert forall|i: int| 0 <= i < rest.len() implies (#[trigger] rest[i]).is_artin() by {
            assert(rest[i] == s[i]);
        }
        lemma_decompose_artin(rest);
        let last = s.last();
        assert(last.is_artin());
        assert(decompose_crossing(last) =~= seq![last]);
        assert(rest + seq![last] =~= s);
    }
}

/// Whether no two adjacent crossings of `s` are inverse to each other.
pub open spec fn is_reduced(s: Seq<Crossing>) -> bool {
    forall|i: int| 0 <= i < s.len() - 1 ==> #[trigger] s[i].inverse() != s[i + 1]
}

/// Appends the crossing `c` to `s`, cancelling it against the last crossing of `s` instead if
/// the two are inverse to each other.
pub open spec fn push_crossing(s: Seq<Crossing>, c: Crossing) -> Seq<Crossing> {
    if s.len() > 0 && s.last().inverse() == c {
        s.drop_last()
    } else {
        s.push(c)
    }
}

/// Appends the crossings of `t` to `s` one by one with [`push_crossing`].
pub open spec fn push_all(s: Seq<Crossing>, t: Seq<Crossing>) -> Seq<Crossing>
    decreases t.len(),
{
    if t.len() == 0 {
        s
    } else {
        push_crossing(push_all(s, t.drop_last()), t.last())
    }
}

/// The cancellation radius never falls below the position it starts from.
proof fn lemma_radius_from_at_least(a: Seq<Crossing>, b: Seq<Crossing>, k: int)
    requires
        0 <= k,
    ensures
        cancel_radius_from(a, b, k) >= k,
    decreases a.len() - k, b.len() - k,
{
    if 0 <= k < a.len() && k < b.len() && a[a.len() - 1 - k].inverse() == b[k] {
        lemma_radius_from_at_least(a, b, k + 1);
    }
}

/// Dropping the last crossing of `b` caps the cancellation radius at the new length of `b`.
proof fn lemma_radius_drop_last(a: Seq<Crossing>, b: Seq<Crossing>, j: int)
    requires
        b.len() > 0,
        0 <= j <= b.len() - 1,
    ensures
        cancel_radius_from(a, b.drop_last(), j) == if cancel_radius_from(a, b, j) < b.len() - 1 {
            cancel_radius_from(a, b, j)
        } else {
            b.len() - 1
        },
    decreases a.len() - j,
{
    let c = b.drop_last();
    lemma_radius_from_at_least(a, b, j);
    if j < b.len() - 1 {
        assert(c[j] == b[j]);
        if 0 <= j < a.len() && a[a.len() - 1 - j].inverse() == b[j] {
            lemma_radius_drop_last(a, b, j + 1);
        }
    }
}

/// Appending to a reduced word keeps it reduced.
proof fn lemma_push_reduced(s: Seq<Crossing>, c: Crossing)
    requires
        is_reduced(s),
    ensures
        is_reduced(push_crossing(s, c)),
{
    let p = push_crossing(s, c);
    if s.len() > 0 && s.last().inverse() == c {
        assert forall|i: int| 0 <= i < p.len() - 1 implies #[trigger] p[i].inverse() != p[i + 1] by {
            assert(p[i] == s[i]);
            assert(p[i + 1] == s[i + 1]);
        }
    } else {
        assert forall|i: int| 0 <= i < p.len() - 1 implies #[trigger] p[i].inverse() != p[i + 1] by {
            assert(p[i] == s[i]);
            if i + 1 < s.len() {
                assert(p[i + 1] == s[i + 1]);
            }
        }
    }
}

/// Appending a sequence to a reduced word keeps it reduced.
pub proof fn lemma_push_all_reduced(s: Seq<Crossing>, t: Seq<Crossing>)
    requires
        is_reduced(s),
    ensures
        is_reduced(push_all(s, t)),
    decreases t.len(),
{
    if t.len() > 0 {
        lemma_push_all_reduced(s, t.drop_last());
        lemma_push_reduced(push_all(s, t.drop_last()), t.last());
    }
}

/// Appending `t` and then `u` is appending `t + u`.
pub proof fn lemma_push_all_concat(s: Seq<Crossing>, t: Seq<Crossing>, u: Seq<Crossing>)
    ensures
        push_all(s, t + u) == push_all(push_all(s, t), u),
    decreases u.len(),
{
    if u.len() == 0 {
        assert(t + u =~= t);
    } else {
        lemma_push_all_concat(s, t, u.drop_last());
        assert((t + u).drop_last() =~= t + u.drop_last());
        assert((t + u).last() == u.last());
    }
}

/// Appending a crossing and then its inverse to a reduced word gives the word back.
proof fn lemma_push_inverse_pair(s: Seq<Crossing>, c: Crossing)
    requires
        is_reduced(s),
    ensures
        push_crossing(push_crossing(s, c), c.inverse()) == s,
{
    c.lemma_inverse_involutive();
    if s.len() > 0 && s.last().inverse() == c {
        let n = s.len();
        let p = s.drop_last();
        s[n - 1].lemma_inverse_involutive();
        if p.len() > 0 {
            assert(p.last() == s[n - 2]);
            assert(s[n - 2].inverse() != s[n - 1]);
        }
        assert(p.push(c.inverse()) =~= s);
    } else {
        assert(s.push(c).drop_last() =~= s);
    }
}

/// Appending a word followed by its inverse to a reduced word gives the word back.
proof fn lemma_push_all_inverse(s: Seq<Crossing>, u: Seq<Crossing>)
    requires
        is_reduced(s),
    ensures
        push_all(s, u + seq_inverse(u)) == s,
    decreases u.len(),
{
    if u.len() == 0 {
        assert(u + seq_inverse(u) =~= Seq::<Crossing>::empty());
    } else {
        let v = u.drop_last();
        let l = u.last();
        let pair = seq![l, l.inverse()];
        assert(u + seq_inverse(u) =~= v + pair + seq_inverse(v));
        lemma_push_all_concat(s, v + pair, seq_inverse(v));
        lemma_push_all_concat(s, v, pair);
        lemma_push_all_reduced(s, v);
        let x = push_all(s, v);
        assert(pair.drop_last() =~= seq![l]);
        assert(seq![l].drop_last() =~= Seq::<Crossing>::empty());
        assert(push_all(x, Seq::<Crossing>::empty()) == x);
        assert(push_all(x, seq![l]) == push_crossing(x, l));
        assert(pair.last() == l.inverse());
        assert(push_all(x, pair) == push_crossing(push_all(x, seq![l]), l.inverse()));
        lemma_push_inverse_pair(x, l);
        lemma_push_all_concat(s, v, seq_inverse(v));
        lemma_push_all_inverse(s, v);
    }
}

/// Appending a reduced word crossing by crossing cancels exactly as the product does.
pub proof fn lemma_push_all_product(s: Seq<Crossing>, t: Seq<Crossing>)
    requires
        is_reduced(t),
    ensures
        push_all(s, t) == cancel_product(s, t),
    decreases t.len(),
{
    if t.len() == 0 {
        lemma_cancel_radius(s, t);
        assert(cancel_product(s, t) =~= s);
    } else {
        let m = t.len();
        let n = s.len();
        let t1 = t.drop_last();
        assert(is_reduced(t1)) by {
            assert forall|i: int| 0 <= i < t1.len() - 1 implies #[trigger] t1[i].inverse() != t1[i + 1] by {
                assert(t1[i] == t[i]);
                assert(t1[i + 1] == t[i + 1]);
            }
        }
        lemma_push_all_product(s, t1);
        lemma_cancel_radius(s, t);
        lemma_cancel_radius(s, t1);
        lemma_radius_drop_last(s, t, 0);
        let k = cancel_radius(s, t);
        let k1 = cancel_radius(s, t1);
        let prev = cancel_product(s, t1);
        assert(prev == s.subrange(0, n - k1) + t1.subrange(k1, m - 1));
        if k < m - 1 {
            assert(k1 == k);
            assert(prev.len() > 0);
            assert(prev.last() == t[m - 2]);
            assert(t[m - 2].inverse() != t[m - 1]);
            assert(prev.push(t[m - 1]) =~= cancel_product(s, t));
        } else if k == m {
            assert(k1 == m - 1);
            assert(prev =~= s.subrange(0, n - m + 1));
            assert(prev.last() == s[n - 1 - (m - 1)]);
            assert(prev.drop_last() =~= cancel_product(s, t));
        } else {
            assert(k == m - 1 && k1 == m - 1);
            assert(prev =~= s.subrange(0, n - m + 1));
            if prev.len() > 0 {
                assert(prev.last() == s[n - 1 - (m - 1)]);
            }
            assert(prev.push(t[m - 1]) =~= cancel_product(s, t));
        }
    }
}

/// The product of reduced words is reduced.
pub proof fn lemma_cancel_product_reduced(a: Seq<Crossing>, b: Seq<Crossing>)
    requires
        is_reduced(a),
        is_reduced(b),
    ensures
        is_reduced(cancel_product(a, b)),
{
    lemma_push_all_product(a, b);
    lemma_push_all_reduced(a, b);
}

/// On reduced words, the product with cancellation at the junction is associative.
pub proof fn lemma_cancel_product_associative(a: Seq<Crossing>, b: Seq<Crossing>, c: Seq<Crossing>)
    requires
        is_reduced(a),
        is_reduced(b),
        is_reduced(c),
    ensures
        cancel_product(cancel_product(a, b), c) == cancel_product(a, cancel_product(b, c)),
{
    let ab = cancel_product(a, b);
    let bc = cancel_product(b, c);
    lemma_cancel_product_reduced(a, b);
    lemma_cancel_product_reduced(b, c);
    // left side
    lemma_push_all_product(ab, c);
    lemma_push_all_product(a, b);
    lemma_push_all_concat(a, b, c);
    // right side
    lemma_push_all_product(a, bc);
    let n = b.len();
    let k = cancel_radius(b, c);
    lemma_cancel_radius(b, c);
    let b1 = b.subrange(0, n - k);
    let u = b.subrange(n - k, n as int);
    let c1 = c.subrange(k, c.len() as int);
    assert(seq_inverse(u) =~= c.subrange(0, k)) by {
        assert forall|j: int| 0 <= j < k implies #[trigger] seq_inverse(u)[j] == c.subrange(0, k)[j] by {
            assert(seq_inverse(u)[j] == u[k - 1 - j].inverse());
            assert(u[k - 1 - j] == b[n - 1 - j]);
        }
    }
    assert(b + c =~= b1 + (u + seq_inverse(u)) + c1);
    assert(bc =~= b1 + c1);
    lemma_push_all_concat(a, b1 + (u + seq_inverse(u)), c1);
    lemma_push_all_concat(a, b1, u + seq_inverse(u));
    lemma_push_all_reduced(a, b1);
    lemma_push_all_inverse(push_all(a, b1), u);
    lemma_push_all_concat(a, b1, c1);
}

/// The writhe of a single crossing: one if it is positive, minus one if it is negative.
pub open spec fn sign_value(sign: Sign) -> int {
    if sign == Sign::Positive {
        1
    } else {
        -1
    }
}

/// Writhes add up over concatenation.
pub proof fn lemma_writhe_concat(a: Seq<Crossing>, b: Seq<Crossing>)
    ensures
        writhe(a + b) == writhe(a) + writhe(b),
    decreases b.len(),
{
    if b.len() == 0 {
        assert(a + b =~= a);
    } else {
        lemma_writhe_concat(a, b.drop_last());
        assert((a + b).drop_last() =~= a + b.drop_last());
        assert((a + b).last() == b.last());
    }
}

/// The writhe of a single crossing is the value of its sign.
pub proof fn lemma_writhe_single(c: Crossing)
    ensures
        writhe(seq![c]) == sign_value(c.sign),
{
    assert(seq![c].drop_last() =~= Seq::<Crossing>::empty());
    assert(writhe(Seq::<Crossing>::empty()) == 0);
}

/// Crossings all of one sign have that sign's value times their number as writhe.
proof fn lemma_writhe_uniform(s: Seq<Crossing>, sign: Sign)
    requires
        forall|i: int| 0 <= i < s.len() ==> (#[trigger] s[i]).sign == sign,
    ensures
        writhe(s) == s.len() * sign_value(sign),
    decreases s.len(),
{
    if s.len() > 0 {
        let rest = s.drop_last();
        assert forall|i: int| 0 <= i < rest.len() implies (#[trigger] rest[i]).sign == sign by {
            assert(rest[i] == s[i]);
        }
        lemma_writhe_uniform(rest, sign);
        assert(s.last().sign == sign);
        assert(s.len() * sign_value(sign) == rest.len() * sign_value(sign) + sign_value(sign))
            by (nonlinear_arith)
            requires
                s.len() == rest.len() + 1,
        ;
    }
}

/// The decomposition of a valid crossing has the crossing's writhe: the carrying generators
/// below the head come in inverse pairs.
pub proof fn lemma_writhe_decompose_crossing(c: Crossing)
    requires
        c.is_valid(),
    ensures
        writhe(decompose_crossing(c)) == sign_value(c.sign),
{
    let d = decompose_crossing(c);
    let h = c.height();
    let down = d.subrange(0, h - 1);
    let up = d.subrange(h, 2 * h - 1);
    assert(d =~= down + seq![d[h - 1]] + up);
    assert forall|i: int| 0 <= i < down.len() implies (#[trigger] down[i]).sign == Sign::Negative by {
        assert(down[i] == d[i]);
    }
    assert forall|i: int| 0 <= i < up.len() implies (#[trigger] up[i]).sign == Sign::Positive by {
        assert(up[i] == d[h + i]);
    }
    lemma_writhe_uniform(down, Sign::Negative);
    lemma_writhe_uniform(up, Sign::Positive);
    assert(sign_value(Sign::Negative) == -1);
    assert(sign_value(Sign::Positive) == 1);
    assert(down.len() == h - 1 && up.len() == h - 1);
    assert(writhe(down) == -(h - 1));
    assert(writhe(up) == h - 1);
    lemma_writhe_concat(down + seq![d[h - 1]], up);
    lemma_writhe_concat(down, seq![d[h - 1]]);
    lemma_writhe_single(d[h - 1]);
}

/// Decomposing valid crossings keeps the writhe.
pub proof fn lemma_writhe_decompose_seq(s: Seq<Crossing>)
    requires
        all_valid(s),
    ensures
        writhe(decompose_seq(s)) == writhe(s),
    decreases s.len(),
{
    if s.len() > 0 {
        let rest = s.drop_last();
        assert(all_valid(rest)) by {
            assert forall|i: int| 0 <= i < rest.len() implies (#[trigger] rest[i]).is_valid() by {
                assert(rest[i] == s[i]);
            }
        }
        lemma_writhe_decompose_seq(rest);
        assert(s[s.len() - 1].is_valid());
        lemma_writhe_decompose_crossing(s.last());
        lemma_writhe_concat(decompose_seq(rest), decompose_crossing(s.last()));
    }
}

/// The product of two words has the sum of their writhes: the pairs that cancel are inverse
/// to each other.
pub proof fn lemma_writhe_cancel_product(a: Seq<Crossing>, b: Seq<Crossing>)
    ensures
        writhe(cancel_product(a, b)) == writhe(a) + writhe(b),
{
    let n = a.len();
    let k = cancel_radius(a, b);
    lemma_cancel_radius(a, b);
    let a1 = a.subrange(0, n - k);
    let u = a.subrange(n - k, n as int);
    let v = b.subrange(0, k);
    let b1 = b.subrange(k, b.len() as int);
    assert(seq_inverse(u) =~= v) by {
        assert forall|j: int| 0 <= j < k implies #[trigger] seq_inverse(u)[j] == v[j] by {
            assert(u[k - 1 - j] == a[n - 1 - j]);
        }
    }
    lemma_seq_inverse_props(u);
    assert(a =~= a1 + u);
    assert(b =~= v + b1);
    lemma_writhe_concat(a1, u);
    lemma_writhe_concat(v, b1);
    lemma_writhe_concat(a1, b1);
}

/// Where a crossing takes the strand at position `x`: the strands at its foot and its head
/// trade places, and every other strand stays where it is.
pub open spec fn swap_through(c: Crossing, x: int) -> int {
    if x == c.foot {
        c.head
    } else if x == c.head {
        c.foot
    } else {
        x
    }
}

/// Where the strand that starts at position `x` ends after the crossings `s`, read from left
/// to right: the permutation of the strands that a word of crossings stands for.
pub open spec fn strand_end(s: Seq<Crossing>, x: int) -> int
    decreases s.len(),
{
    if s.len() == 0 {
        x
    } else {
        swap_through(s.last(), strand_end(s.drop_last(), x))
    }
}

/// Following the strands through a concatenation follows them through each part in turn.
pub proof fn lemma_strand_end_concat(a: Seq<Crossing>, b: Seq<Crossing>, x: int)
    ensures
        strand_end(a + b, x) == strand_end(b, strand_end(a, x)),
    decreases b.len(),
{
    if b.len() == 0 {
        assert(a + b =~= a);
    } else {
        lemma_strand_end_concat(a, b.drop_last(), x);
        assert((a + b).drop_last() =~= a + b.drop_last());
    }
}

/// A single crossing moves the strands as [`swap_through`] says.
pub proof fn lemma_strand_end_single(c: Crossing, x: int)
    ensures
        strand_end(seq![c], x) == swap_through(c, x),
{
    assert(seq![c].drop_last() =~= Seq::<Crossing>::empty());
    assert(strand_end(Seq::<Crossing>::empty(), x) == x);
    assert(seq![c].last() == c);
}

/// The formal inverse of a word of crossings brings every strand back to where it started.
pub proof fn lemma_strand_end_inverse(u: Seq<Crossing>, y: int)
    ensures
        strand_end(seq_inverse(u), strand_end(u, y)) == y,
    decreases u.len(),
{
    if u.len() > 0 {
        let c = u.last();
        let rest = u.drop_last();
        let z = strand_end(rest, y);
        assert(seq_inverse(u) =~= seq![c.inverse()] + seq_inverse(rest));
        lemma_strand_end_concat(seq![c.inverse()], seq_inverse(rest), swap_through(c, z));
        lemma_strand_end_single(c.inverse(), swap_through(c, z));
        lemma_strand_end_inverse(rest, y);
    }
}

/// The product of two words moves the strands as the first word followed by the second: the
/// pairs that cancel are inverse to each other.
pub proof fn lemma_strand_end_cancel_product(a: Seq<Crossing>, b: Seq<Crossing>, x: int)
    ensures
        strand_end(cancel_product(a, b), x) == strand_end(b, strand_end(a, x)),
{
    let n = a.len();
    let k = cancel_radius(a, b);
    lemma_cancel_radius(a, b);
    let a1 = a.subrange(0, n - k);
    let u = a.subrange(n - k, n as int);
    let v = b.subrange(0, k);
    let b1 = b.subrange(k, b.len() as int);
    assert(seq_inverse(u) =~= v) by {
        assert forall|j: int| 0 <= j < k implies #[trigger] seq_inverse(u)[j] == v[j] by {
            assert(u[k - 1 - j] == a[n - 1 - j]);
        }
    }
    assert(a =~= a1 + u);
    assert(b =~= v + b1);
    let y = strand_end(a1, x);
    lemma_strand_end_concat(a1, u, x);
    lemma_strand_end_concat(v, b1, strand_end(u, y));
    lemma_strand_end_inverse(u, y);
    lemma_strand_end_concat(a1, b1, x);
}

} // verus!
