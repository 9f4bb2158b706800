use vstd::prelude::*;

verus! {

/// The sign of a crossing in a braid.
///
/// If strands are stacked vertically and oriented left-to-right, a positive crossing is one in
/// which the foot strand passes _under_ the head strand, and a negative crossing one in which it
/// passes _over_ it (right-hand rule). There is no "zero" sign.
#[derive(Debug, Clone, Copy, PartialEq, Eq, Structural)]
pub enum Sign {
    /// The sign of a positive crossing: the foot strand passes under the head strand.
    Positive,
    /// The sign of a negative crossing: the foot strand passes over the head strand.
    Negative,
}

impl Sign {
    /// The opposite sign.
    pub open spec fn negate(self) -> Sign {
        match self {
            Sign::Positive => Sign::Negative,
            Sign::Negative => Sign::Positive,
        }
    }

    /// Negating twice gives back the sign one started from.
    pub proof fn lemma_negate_involutive(self)
        ensures
            self.negate().negate() == self,
            self.negate() != self,
    {
    }
}

impl std::ops::Neg for Sign {
    type Output = Sign;

    fn neg(self) -> (r: Sign)
        ensures
            r == self.negate(),
    {
        match self {
            Sign::Positive => Sign::Negative,
            Sign::Negative => Sign::Positive,
        }
    }
}

impl vstd::std_specs::ops::NegSpecImpl for Sign {
    open spec fn obeys_neg_spec() -> bool {
        true
    }

    open spec fn neg_req(self) -> bool {
        true
    }

    open spec fn neg_spec(self) -> Sign {
        self.negate()
    }
}

} // verus!
