//! Effect configuration shared with the float processing code: the filter
//! shapes of the three-band EQ.

use vstd::prelude::*;

verus! {

/// The filter shape used by a single EQ band.
#[derive(Debug, Clone, Copy, PartialEq, Eq, Structural)]
pub enum ButterworthKind {
    LowPass,
    BandPass,
    HighPass,
}

impl ButterworthKind {
    /// Number of valid `ParamId::Eq{Low,Mid,High}Type` automation values.
    pub const VARIANT_COUNT: u32 = 3;

    /// The automation index that encodes this value.
    pub open spec fn index_of(self) -> u32 {
        match self {
            ButterworthKind::LowPass => 0,
            ButterworthKind::BandPass => 1,
            ButterworthKind::HighPass => 2,
        }
    }

    /// Encodes this value as its automation index.
    pub fn param_index(self) -> (r: u32)
        ensures
            r == self.index_of(),
    {
        match self {
            ButterworthKind::LowPass => 0,
            ButterworthKind::BandPass => 1,
            ButterworthKind::HighPass => 2,
        }
    }

    /// Decodes an automation index, saturating at the last variant.
    pub fn from_param_index(index: u32) -> (r: Self)
        ensures
            r.index_of() == (if index < Self::VARIANT_COUNT { index } else { (Self::VARIANT_COUNT - 1) as u32 }),
    {
        match index {
            0 => ButterworthKind::LowPass,
            1 => ButterworthKind::BandPass,
            _ => ButterworthKind::HighPass,
        }
    }
}

impl ButterworthKind {
    /// Every value encodes to an index below `VARIANT_COUNT`, and no two
    /// values share an index, so decoding an encoded value gives it back.
    pub proof fn lemma_param_index_round_trip(self)
        ensures
            self.index_of() < Self::VARIANT_COUNT,
            forall|other: Self| #[trigger] other.index_of() == self.index_of() ==> other == self,
    {
    }
}

/// Integer hash that decorrelates the diffuser's per-stage delay times:
/// the stage number is spread by a golden-ratio multiply, mixed with the
/// channel seed and finished with multiply / xor-shift rounds.
pub open spec fn stage_hash_spec(stage: usize, seed: u32) -> u32 {
    let a = (((stage as u32) as nat * 0x9E37_79B9) % 0x1_0000_0000) as u32 ^ seed;
    let b = a ^ (a >> 16u32);
    let c = ((b as nat * 0x7FEB_352D) % 0x1_0000_0000) as u32;
    let d = c ^ (c >> 15u32);
    let e = ((d as nat * 0x846C_A68B) % 0x1_0000_0000) as u32;
    e ^ (e >> 16u32)
}

/// Hashes a diffuser stage number with a channel seed; the float code scales
/// the result to `[0.0, 1.0]`.
pub fn stage_hash(stage: usize, seed: u32) -> (r: u32)
    ensures
        r == stage_hash_spec(stage, seed),
{
    let mut x = (stage as u32).wrapping_mul(0x9E37_79B9) ^ seed;
    x = x ^ (x >> 16u32);
    x = x.wrapping_mul(0x7FEB_352D);
    x = x ^ (x >> 15u32);
    x = x.wrapping_mul(0x846C_A68B);
    x = x ^ (x >> 16u32);
    x
}

impl ButterworthKind {
    /// The automation indices, fixed by the parameter's wire format: LowPass = 0, BandPass = 1, HighPass = 2.
    /// Decoding index `i` below `VARIANT_COUNT` therefore gives the `i`-th
    /// of these, and any larger index gives HighPass.
    pub proof fn lemma_param_index_values()
        ensures
            ButterworthKind::LowPass.index_of() == 0,
            ButterworthKind::BandPass.index_of() == 1,
            ButterworthKind::HighPass.index_of() == 2,
            Self::VARIANT_COUNT == 3,
    {
    }
}

} // verus!
