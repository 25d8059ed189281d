//! A 256-bit unsigned integer held as four 64-bit limbs.
//!
//! Proof-of-work targets and limits do not fit a machine word. They are kept
//! as limbs, and compared as the numbers that the limbs stand for.

use vstd::prelude::*;
use vstd::std_specs::cmp::PartialEqSpecImpl;
use vstd::std_specs::cmp::PartialOrdSpecImpl;
use std::cmp::Ordering;

verus! {

/// A 256-bit unsigned integer. The limbs are little-endian: `self.0[0]` is the
/// least significant limb and `self.0[3]` the most significant one.
#[derive(Copy, Clone, Debug, Eq, Hash)]
pub struct Uint256(pub [u64; 4]);

impl View for Uint256 {
    type V = nat;

    /// The number that the four limbs stand for.
    open spec fn view(&self) -> nat {
        (self.0[0] as nat) + (self.0[1] as nat) * 0x1_0000_0000_0000_0000
            + (self.0[2] as nat) * 0x1_0000_0000_0000_0000_0000_0000_0000_0000
            + (self.0[3] as nat)
            * 0x1_0000_0000_0000_0000_0000_0000_0000_0000_0000_0000_0000_0000
    }
}

impl PartialEq for Uint256 {
    /// Two values are equal where all four limbs are.
    fn eq(&self, other: &Uint256) -> (same: bool) {
        let same = self.0[0] == other.0[0] && self.0[1] == other.0[1] && self.0[2] == other.0[2]
            && self.0[3] == other.0[3];
        proof {
            if same {
                assert(self.0 =~= other.0);
            }
        }
        same
    }
}

impl PartialEqSpecImpl for Uint256 {
    open spec fn obeys_eq_spec() -> bool {
        true
    }

    open spec fn eq_spec(&self, other: &Uint256) -> bool {
        *self == *other
    }
}

impl PartialOrd for Uint256 {
    /// Orders two values as numbers: the most significant limb in which they
    /// differ decides.
    fn partial_cmp(&self, other: &Uint256) -> (order: Option<Ordering>) {
        let mut i: usize = 4;
        while i > 0
            invariant
                i <= 4,
                forall|j: int| i <= j < 4 ==> self.0[j] == other.0[j],
            decreases i,
        {
            i = i - 1;
            if self.0[i] < other.0[i] {
                return Some(Ordering::Less);
            }
            if self.0[i] > other.0[i] {
                return Some(Ordering::Greater);
            }
        }
        proof {
            assert(self.0 =~= other.0);
        }
        Some(Ordering::Equal)
    }
}

impl PartialOrdSpecImpl for Uint256 {
    open spec fn obeys_partial_cmp_spec() -> bool {
        true
    }

    /// The order of the numbers that the two values stand for.
    open spec fn partial_cmp_spec(&self, other: &Uint256) -> Option<Ordering> {
        if self@ < other@ {
            Some(Ordering::Less)
        } else if self@ == other@ {
            Some(Ordering::Equal)
        } else {
            Some(Ordering::Greater)
        }
    }
}

/// Every value stands for a number below 2^256, and two values stand for the
/// same number only where they are the same value.
pub proof fn lemma_view_is_faithful(a: Uint256, b: Uint256)
    ensures
        a@ < 0x1_0000_0000_0000_0000_0000_0000_0000_0000_0000_0000_0000_0000_0000_0000_0000_0000,
        a@ == b@ <==> a == b,
{
    if a@ == b@ {
        assert(a.0 =~= b.0);
    }
}

} // verus!
