//! Byte geometry of one curve family's calldata convention.

use vstd::prelude::*;

verus! {

/// Static configuration describing one curve family's byte geometry.
///
/// All sizes are byte counts.  A base-field element is serialized into
/// `fe_size` bytes and then left-padded with zeros to `word_size` bytes; a
/// scalar is serialized into `scalar_size` bytes and left-padded to
/// `scalar_word_size` bytes.  A point is a pair of coordinates; a G1
/// coordinate consists of `g1_ext` base-field elements, a G2 coordinate of
/// `g2_ext` (an extension-field coordinate contributes one element per
/// component, each padded to its own word).
pub struct CurveProfile {
    pub fe_size: usize,
    pub word_size: usize,
    pub scalar_size: usize,
    pub scalar_word_size: usize,
    pub g1_ext: usize,
    pub g2_ext: usize,
}

impl CurveProfile {
    /// A well-formed profile: padding arithmetic can never underflow and
    /// all encoded sizes stay far below the machine's address-space limits.
    pub open spec fn wf(self) -> bool {
        &&& 1 <= self.fe_size <= self.word_size
        &&& 1 <= self.scalar_size <= self.scalar_word_size
        &&& self.word_size <= 4096
        &&& self.scalar_word_size <= 4096
        &&& 1 <= self.g1_ext <= 4
        &&& 1 <= self.g2_ext <= 4
    }

    /// Byte length of one serialized G1 coordinate.
    pub open spec fn spec_g1_coord_size(self) -> int {
        self.g1_ext * self.fe_size
    }

    /// Byte length of one serialized G2 coordinate.
    pub open spec fn spec_g2_coord_size(self) -> int {
        self.g2_ext * self.fe_size
    }

    /// Encoded size of a G1 point in bytes.
    pub open spec fn spec_g1_encoded_size(self) -> int {
        2 * self.g1_ext * self.word_size
    }

    /// Encoded size of a G2 point in bytes.
    pub open spec fn spec_g2_encoded_size(self) -> int {
        2 * self.g2_ext * self.word_size
    }

    pub fn g1_encoded_size(&self) -> (r: usize)
        requires
            self.wf(),
        ensures
            r == self.spec_g1_encoded_size(),
    {
        proof {
            assert(2 * self.g1_ext * self.word_size <= 2 * 4 * 4096) by (nonlinear_arith)
                requires
                    self.g1_ext <= 4,
                    self.word_size <= 4096,
            ;
        }
        2 * self.g1_ext * self.word_size
    }

    pub fn g2_encoded_size(&self) -> (r: usize)
        requires
            self.wf(),
        ensures
            r == self.spec_g2_encoded_size(),
    {
        proof {
            assert(2 * self.g2_ext * self.word_size <= 2 * 4 * 4096) by (nonlinear_arith)
                requires
                    self.g2_ext <= 4,
                    self.word_size <= 4096,
            ;
        }
        2 * self.g2_ext * self.word_size
    }

    /// Checks the profile invariant at startup, so that a misconfigured
    /// profile is caught before any vector is generated.
    pub fn validate(&self) -> (r: bool)
        ensures
            r == self.wf(),
    {
        1 <= self.fe_size && self.fe_size <= self.word_size && 1 <= self.scalar_size
            && self.scalar_size <= self.scalar_word_size && self.word_size <= 4096
            && self.scalar_word_size <= 4096 && 1 <= self.g1_ext && self.g1_ext <= 4
            && 1 <= self.g2_ext && self.g2_ext <= 4
    }
}

} // verus!
