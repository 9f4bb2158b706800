use vstd::prelude::*;

use crate::error::IndexValidationError;
use crate::result::IndexResult;
use crate::strand::Strand;

verus! {

/// The braid index: the total number of strands of a braid, a positive [`u16`].
///
/// Two braids can only be multiplied when their braid indices agree.
#[derive(Debug, Clone, Copy, Eq, PartialOrd, Ord)]
pub struct BraidIndex(u16);

impl View for BraidIndex {
    type V = int;

    closed spec fn view(&self) -> int {
        self.0 as int
    }
}

impl BraidIndex {
    /// Every braid index is positive.
    #[verifier::type_invariant]
    pub open spec fn inv(self) -> bool {
        1 <= self@ <= u16::MAX
    }

    /// Builds a braid index from an integer that is already known to be positive.
    pub(crate) fn from_positive(index: u16) -> (n: BraidIndex)
        requires
            index >= 1,
        ensures
            n@ == index,
    {
        BraidIndex(index)
    }

    /// Attempts to build a [`BraidIndex`] from an integer.
    ///
    /// Fails with [`IndexValidationError::FromInt`] if `index` does not fit in a [`u16`], and
    /// with [`IndexValidationError::Zero`] if it is zero.
    pub fn try_new(index: i64) -> (r: IndexResult)
        ensures
            0 < index <= u16::MAX ==> r@ == Ok::<int, IndexValidationError>(index as int),
            index == 0 ==> r@ == Err::<int, IndexValidationError>(IndexValidationError::Zero),
            (index < 0 || index > u16::MAX) ==> r@ matches Err(IndexValidationError::FromInt(_)),
    {
        match u16::try_from(index) {
            Ok(value) => {
                if value == 0 {
                    IndexResult::from_err(IndexValidationError::Zero)
                } else {
                    IndexResult::from_ok(BraidIndex(value))
                }
            },
            Err(e) => IndexResult::from_err(IndexValidationError::FromInt(e)),
        }
    }

    /// The number of strands as a [`u16`].
    pub fn value(&self) -> (r: u16)
        ensures
            r == self@,
            r >= 1,
    {
        proof {
            use_type_invariant(self);
        }
        self.0
    }

    /// Two braid indices are equal exactly when their values are.
    pub broadcast proof fn lemma_view_injective(a: BraidIndex, b: BraidIndex)
        ensures
            #[trigger] a@ == #[trigger] b@ <==> a == b,
    {
    }
}

impl PartialEq for BraidIndex {
    fn eq(&self, other: &BraidIndex) -> (r: bool)
        ensures
            r == (self@ == other@),
    {
        self.0 == other.0
    }
}

impl vstd::std_specs::cmp::PartialEqSpecImpl for BraidIndex {
    open spec fn obeys_eq_spec() -> bool {
        true
    }

    open spec fn eq_spec(&self, other: &BraidIndex) -> bool {
        self@ == other@
    }
}

impl From<Strand> for BraidIndex {
    fn from(value: Strand) -> (r: BraidIndex)
        ensures
            r@ == value@,
    {
        BraidIndex(value.value())
    }
}

impl vstd::std_specs::convert::FromSpecImpl<Strand> for BraidIndex {
    open spec fn obeys_from_spec() -> bool {
        false
    }

    open spec fn from_spec(v: Strand) -> BraidIndex {
        arbitrary()
    }
}

impl From<BraidIndex> for u16 {
    fn from(value: BraidIndex) -> (r: u16)
        ensures
            r == value@,
    {
        value.value()
    }
}

impl vstd::std_specs::convert::FromSpecImpl<BraidIndex> for u16 {
    open spec fn obeys_from_spec() -> bool {
        true
    }

    open spec fn from_spec(v: BraidIndex) -> u16 {
        v@ as u16
    }
}

impl AsRef<u16> for BraidIndex {
    fn as_ref(&self) -> (r: &u16)
        ensures
            *r == self@,
    {
        &self.0
    }
}

impl std::ops::Deref for BraidIndex {
    type Target = u16;

    fn deref(&self) -> (r: &u16)
        ensures
            *r == self@,
    {
        &self.0
    }
}

} // verus!
