//! Two-dimensional weights: execution time and proof size.

use vstd::prelude::*;

verus! {

/// Picoseconds of execution time that make up one second.
pub const WEIGHT_REF_TIME_PER_SECOND: u64 = 1_000_000_000_000;

/// The largest proof of validity, in bytes, that one relay core accepts: 10 MiB.
pub const MAX_POV_SIZE: u32 = 10_485_760;

/// A weight: the execution time and the proof size that some work needs.
///
/// Weights are compared component by component and all arithmetic on them
/// saturates at the bounds of `u64`.
#[derive(Clone, Copy, Debug, PartialEq, Eq, Structural)]
pub struct Weight {
    /// Execution time, in picoseconds of reference hardware.
    pub ref_time: u64,
    /// Size of the storage proof, in bytes.
    pub proof_size: u64,
}

/// `a + b`, held at `u64::MAX`.
pub open spec fn sat_add(a: u64, b: u64) -> u64 {
    if a + b > u64::MAX {
        u64::MAX
    } else {
        (a + b) as u64
    }
}

/// `a - b`, held at zero.
pub open spec fn sat_sub(a: u64, b: u64) -> u64 {
    if a < b {
        0
    } else {
        (a - b) as u64
    }
}

impl Weight {
    /// The weight with the given components.
    pub open spec fn spec_from_parts(ref_time: u64, proof_size: u64) -> Weight {
        Weight { ref_time, proof_size }
    }

    /// The weight that is zero in both components.
    pub open spec fn spec_zero() -> Weight {
        Weight { ref_time: 0, proof_size: 0 }
    }

    /// Component-wise saturating sum.
    pub open spec fn spec_saturating_add(self, rhs: Weight) -> Weight {
        Weight {
            ref_time: sat_add(self.ref_time, rhs.ref_time),
            proof_size: sat_add(self.proof_size, rhs.proof_size),
        }
    }

    /// Component-wise saturating difference.
    pub open spec fn spec_saturating_sub(self, rhs: Weight) -> Weight {
        Weight {
            ref_time: sat_sub(self.ref_time, rhs.ref_time),
            proof_size: sat_sub(self.proof_size, rhs.proof_size),
        }
    }

    /// Whether some component of `self` exceeds the same component of `rhs`.
    pub open spec fn spec_any_gt(self, rhs: Weight) -> bool {
        self.ref_time > rhs.ref_time || self.proof_size > rhs.proof_size
    }

    /// Whether every component of `self` is at most the same component of `rhs`.
    pub open spec fn spec_all_lte(self, rhs: Weight) -> bool {
        self.ref_time <= rhs.ref_time && self.proof_size <= rhs.proof_size
    }

    #[verifier::when_used_as_spec(spec_from_parts)]
    pub fn from_parts(ref_time: u64, proof_size: u64) -> (w: Weight)
        ensures
            w == Weight::spec_from_parts(ref_time, proof_size),
    {
        Weight { ref_time, proof_size }
    }

    #[verifier::when_used_as_spec(spec_zero)]
    pub fn zero() -> (w: Weight)
        ensures
            w == Weight::spec_zero(),
    {
        Weight { ref_time: 0, proof_size: 0 }
    }

    /// The execution-time component.
    pub fn ref_time(&self) -> (t: u64)
        ensures
            t == self.ref_time,
    {
        self.ref_time
    }

    /// The proof-size component.
    pub fn proof_size(&self) -> (s: u64)
        ensures
            s == self.proof_size,
    {
        self.proof_size
    }

    #[verifier::when_used_as_spec(spec_saturating_add)]
    pub fn saturating_add(self, rhs: Weight) -> (w: Weight)
        ensures
            w == self.spec_saturating_add(rhs),
    {
        Weight {
            ref_time: self.ref_time.saturating_add(rhs.ref_time),
            proof_size: self.proof_size.saturating_add(rhs.proof_size),
        }
    }

    #[verifier::when_used_as_spec(spec_saturating_sub)]
    pub fn saturating_sub(self, rhs: Weight) -> (w: Weight)
        ensures
            w == self.spec_saturating_sub(rhs),
    {
        Weight {
            ref_time: self.ref_time.saturating_sub(rhs.ref_time),
            proof_size: self.proof_size.saturating_sub(rhs.proof_size),
        }
    }

    #[verifier::when_used_as_spec(spec_any_gt)]
    pub fn any_gt(self, rhs: Weight) -> (b: bool)
        ensures
            b == self.spec_any_gt(rhs),
    {
        self.ref_time > rhs.ref_time || self.proof_size > rhs.proof_size
    }

    #[verifier::when_used_as_spec(spec_all_lte)]
    pub fn all_lte(self, rhs: Weight) -> (b: bool)
        ensures
            b == self.spec_all_lte(rhs),
    {
        self.ref_time <= rhs.ref_time && self.proof_size <= rhs.proof_size
    }
}

/// No component exceeds the other weight's exactly when every component is
/// at most the other's.
pub proof fn lemma_any_gt_is_not_all_lte(a: Weight, b: Weight)
    ensures
        a.any_gt(b) <==> !a.all_lte(b),
{
}

/// A saturating difference never exceeds what was subtracted from.
pub proof fn lemma_saturating_sub_bounded(a: Weight, b: Weight)
    ensures
        a.saturating_sub(b).all_lte(a),
{
}

} // verus!
