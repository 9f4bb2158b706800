use vstd::prelude::*;

use crate::error::StrandValidationError;
use crate::result::StrandResult;

verus! {

/// The index of a braid strand: a positive [`u16`].
///
/// Strands are numbered from 1 upwards, bottom to top. A [`Strand`] can only be built through
/// [`Strand::try_new`] or strand arithmetic, all of which reject the index zero.
#[derive(Debug, Clone, Copy, Eq, PartialOrd, Ord)]
pub struct Strand(u16);

impl View for Strand {
    type V = int;

    closed spec fn view(&self) -> int {
        self.0 as int
    }
}

/// What [`Strand::try_new`] gives for the integer `index`.
pub open spec fn strand_spec(index: int) -> Result<int, StrandValidationError> {
    if index == 0 {
        Err(StrandValidationError::Zero)
    } else if 0 < index <= u16::MAX {
        Ok(index)
    } else {
        // the wrapped conversion error carries no information
        Err(StrandValidationError::FromInt(arbitrary()))
    }
}

/// Whether `index` lies outside the range of [`u16`].
pub open spec fn outside_u16(index: int) -> bool {
    index < 0 || index > u16::MAX
}

impl Strand {
    /// Every strand index is positive.
    #[verifier::type_invariant]
    pub open spec fn inv(self) -> bool {
        1 <= self@ <= u16::MAX
    }

    /// Builds a strand from an integer that is already known to be positive.
    pub(crate) fn from_positive(index: u16) -> (s: Strand)
        requires
            index >= 1,
        ensures
            s@ == index,
    {
        Strand(index)
    }

    /// Attempts to build a [`Strand`] from an integer.
    ///
    /// Fails with [`StrandValidationError::FromInt`] if `index` does not fit in a [`u16`], and
    /// with [`StrandValidationError::Zero`] if it is zero.
    pub fn try_new(index: i64) -> (r: StrandResult)
        ensures
            !outside_u16(index as int) ==> r@ == strand_spec(index as int),
            outside_u16(index as int) ==> r@ matches Err(StrandValidationError::FromInt(_)),
    {
        match u16::try_from(index) {
            Ok(value) => {
                if value == 0 {
                    StrandResult::from_err(StrandValidationError::Zero)
                } else {
                    StrandResult::from_ok(Strand(value))
                }
            },
            Err(e) => StrandResult::from_err(StrandValidationError::FromInt(e)),
        }
    }

    /// The index of the strand as a [`u16`].
    pub fn value(&self) -> (r: u16)
        ensures
            r == self@,
            r >= 1,
    {
        proof {
            use_type_invariant(self);
        }
        self.0
    }

    /// Two strands are equal exactly when their indices are.
    pub broadcast proof fn lemma_view_injective(a: Strand, b: Strand)
        ensures
            #[trigger] a@ == #[trigger] b@ <==> a == b,
    {
    }
}

impl PartialEq for Strand {
    fn eq(&self, other: &Strand) -> (r: bool)
        ensures
            r == (self@ == other@),
    {
        self.0 == other.0
    }
}

impl vstd::std_specs::cmp::PartialEqSpecImpl for Strand {
    open spec fn obeys_eq_spec() -> bool {
        true
    }

    open spec fn eq_spec(&self, other: &Strand) -> bool {
        self@ == other@
    }
}

impl From<Strand> for u16 {
    fn from(value: Strand) -> (r: u16)
        ensures
            r == value@,
    {
        value.value()
    }
}

impl vstd::std_specs::convert::FromSpecImpl<Strand> for u16 {
    open spec fn obeys_from_spec() -> bool {
        true
    }

    open spec fn from_spec(v: Strand) -> u16 {
        v@ as u16
    }
}

impl AsRef<u16> for Strand {
    fn as_ref(&self) -> (r: &u16)
        ensures
            *r == self@,
    {
        &self.0
    }
}

impl std::ops::Deref for Strand {
    type Target = u16;

    fn deref(&self) -> (r: &u16)
        ensures
            *r == self@,
    {
        &self.0
    }
}

/// What adding the indices `left` and `right` of two strands gives.
pub open spec fn strand_add_spec(left: int, right: int) -> Result<int, StrandValidationError> {
    if left + right > u16::MAX {
        Err(StrandValidationError::Addition { left: left as u16, right: right as u16 })
    } else {
        Ok(left + right)
    }
}

/// What subtracting the index `right` from the index `left` gives.
pub open spec fn strand_sub_spec(left: int, right: int) -> Result<int, StrandValidationError> {
    if left <= right {
        Err(StrandValidationError::Subtraction { left: left as u16, right: right as u16 })
    } else {
        Ok(left - right)
    }
}

/// Strand addition and subtraction undo each other: adding `b` to `a` and subtracting `b`
/// again gives back `a` whenever the sum is a strand, and subtracting `b` from `a` and adding
/// `b` again gives back `a` whenever `b` lies below `a`.
pub proof fn lemma_add_sub_inverse(a: int, b: int)
    requires
        1 <= a <= u16::MAX,
        1 <= b <= u16::MAX,
    ensures
        a + b <= u16::MAX ==> strand_add_spec(a, b) == Ok::<int, StrandValidationError>(a + b)
            && strand_sub_spec(a + b, b) == Ok::<int, StrandValidationError>(a),
        b < a ==> strand_sub_spec(a, b) == Ok::<int, StrandValidationError>(a - b)
            && strand_add_spec(a - b, b) == Ok::<int, StrandValidationError>(a),
{
}

/// Adds two `u16` values, failing when the sum leaves the range of `u16`. A successful sum
/// is positive whenever one operand is.
fn checked_strand_sum(left: u16, right: u16) -> (r: StrandResult)
    requires
        left >= 1 || right >= 1,
    ensures
        r@ == strand_add_spec(left as int, right as int),
{
    if u16::MAX - left < right {
        StrandResult::from_err(StrandValidationError::Addition { left, right })
    } else {
        StrandResult::from_ok(Strand(left + right))
    }
}

/// Subtracts two `u16` values, failing unless the difference is positive.
fn checked_strand_difference(left: u16, right: u16) -> (r: StrandResult)
    ensures
        r@ == strand_sub_spec(left as int, right as int),
{
    if left <= right {
        StrandResult::from_err(StrandValidationError::Subtraction { left, right })
    } else {
        StrandResult::from_ok(Strand(left - right))
    }
}

impl std::ops::Add for Strand {
    type Output = StrandResult;

    fn add(self, rhs: Strand) -> (r: StrandResult)
        ensures
            r@ == strand_add_spec(self@, rhs@),
    {
        checked_strand_sum(self.value(), rhs.value())
    }
}

impl vstd::std_specs::ops::AddSpecImpl for Strand {
    open spec fn obeys_add_spec() -> bool {
        false
    }

    open spec fn add_req(self, rhs: Strand) -> bool {
        true
    }

    open spec fn add_spec(self, rhs: Strand) -> StrandResult {
        arbitrary()
    }
}

impl std::ops::Add<u16> for Strand {
    type Output = StrandResult;

    fn add(self, rhs: u16) -> (r: StrandResult)
        ensures
            r@ == strand_add_spec(self@, rhs as int),
    {
        checked_strand_sum(self.value(), rhs)
    }
}

impl vstd::std_specs::ops::AddSpecImpl<u16> for Strand {
    open spec fn obeys_add_spec() -> bool {
        false
    }

    open spec fn add_req(self, rhs: u16) -> bool {
        true
    }

    open spec fn add_spec(self, rhs: u16) -> StrandResult {
        arbitrary()
    }
}

impl std::ops::Add<Strand> for u16 {
    type Output = StrandResult;

    fn add(self, rhs: Strand) -> (r: StrandResult)
        ensures
            r@ == strand_add_spec(self as int, rhs@),
    {
        checked_strand_sum(self, rhs.value())
    }
}

impl vstd::std_specs::ops::AddSpecImpl<Strand> for u16 {
    open spec fn obeys_add_spec() -> bool {
        false
    }

    open spec fn add_req(self, rhs: Strand) -> bool {
        true
    }

    open spec fn add_spec(self, rhs: Strand) -> StrandResult {
        arbitrary()
    }
}

impl std::ops::Sub for Strand {
    type Output = StrandResult;

    fn sub(self, rhs: Strand) -> (r: StrandResult)
        ensures
            r@ == strand_sub_spec(self@, rhs@),
    {
        checked_strand_difference(self.value(), rhs.value())
    }
}

impl vstd::std_specs::ops::SubSpecImpl for Strand {
    open spec fn obeys_sub_spec() -> bool {
        false
    }

    open spec fn sub_req(self, rhs: Strand) -> bool {
        true
    }

    open spec fn sub_spec(self, rhs: Strand) -> StrandResult {
        arbitrary()
    }
}

impl std::ops::Sub<u16> for Strand {
    type Output = StrandResult;

    fn sub(self, rhs: u16) -> (r: StrandResult)
        ensures
            r@ == strand_sub_spec(self@, rhs as int),
    {
        checked_strand_difference(self.value(), rhs)
    }
}

impl vstd::std_specs::ops::SubSpecImpl<u16> for Strand {
    open spec fn obeys_sub_spec() -> bool {
        false
    }

    open spec fn sub_req(self, rhs: u16) -> bool {
        true
    }

    open spec fn sub_spec(self, rhs: u16) -> StrandResult {
        arbitrary()
    }
}

impl std::ops::Sub<Strand> for u16 {
    type Output = StrandResult;

    fn sub(self, rhs: Strand) -> (r: StrandResult)
        ensures
            r@ == strand_sub_spec(self as int, rhs@),
    {
        checked_strand_difference(self, rhs.value())
    }
}

impl vstd::std_specs::ops::SubSpecImpl<Strand> for u16 {
    open spec fn obeys_sub_spec() -> bool {
        false
    }

    open spec fn sub_req(self, rhs: Strand) -> bool {
        true
    }

    open spec fn sub_spec(self, rhs: Strand) -> StrandResult {
        arbitrary()
    }
}

} // verus!
