//! Dynamics configuration: level detector modes.

use vstd::prelude::*;

verus! {

/// How a level detector measures its input.
#[derive(Debug, Clone, Copy, PartialEq, Eq, Structural)]
pub enum DetectorMode {
    Peak,
    Rms,
}

impl DetectorMode {
    /// Number of valid `ParamId::CompressorDetectorMode` automation values.
    pub const VARIANT_COUNT: u32 = 2;

    /// The automation index that encodes this value.
    pub open spec fn index_of(self) -> u32 {
        match self {
            DetectorMode::Peak => 0,
            DetectorMode::Rms => 1,
        }
    }

    /// Encodes this value as its automation index.
    pub fn param_index(self) -> (r: u32)
        ensures
            r == self.index_of(),
    {
        match self {
            DetectorMode::Peak => 0,
            DetectorMode::Rms => 1,
        }
    }

    /// Decodes an automation index, saturating at the last variant.
    pub fn from_param_index(index: u32) -> (r: Self)
        ensures
            r.index_of() == (if index < Self::VARIANT_COUNT { index } else { (Self::VARIANT_COUNT - 1) as u32 }),
    {
        match index {
            0 => DetectorMode::Peak,
            _ => DetectorMode::Rms,
        }
    }
}

impl Default for DetectorMode {
    fn default() -> (r: Self)
        ensures
            r == DetectorMode::Peak,
    {
        DetectorMode::Peak
    }
}

impl DetectorMode {
    /// Every value encodes to an index below `VARIANT_COUNT`, and no two
    /// values share an index, so decoding an encoded value gives it back.
    pub proof fn lemma_param_index_round_trip(self)
        ensures
            self.index_of() < Self::VARIANT_COUNT,
            forall|other: Self| #[trigger] other.index_of() == self.index_of() ==> other == self,
    {
    }
}

impl DetectorMode {
    /// The automation indices, fixed by the parameter's wire format: Peak = 0, Rms = 1.
    /// Decoding index `i` below `VARIANT_COUNT` therefore gives the `i`-th
    /// of these, and any larger index gives Rms.
    pub proof fn lemma_param_index_values()
        ensures
            DetectorMode::Peak.index_of() == 0,
            DetectorMode::Rms.index_of() == 1,
            Self::VARIANT_COUNT == 2,
    {
    }
}

} // verus!
