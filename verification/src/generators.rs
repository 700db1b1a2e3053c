//! Generator selection: the kinds of voice generator and analog waveforms.

use vstd::prelude::*;

verus! {

/// The kind of generator a voice should be constructed as.
#[derive(Debug, Clone, Copy, PartialEq, Eq, Structural)]
pub enum GeneratorKind {
    Sine,
    Triangle,
    Saw,
    Pulse,
    Noise,
}

impl GeneratorKind {
    /// Number of valid `ParamId::GeneratorKind` automation values.
    pub const VARIANT_COUNT: u32 = 5;

    /// The automation index that encodes this value.
    pub open spec fn index_of(self) -> u32 {
        match self {
            GeneratorKind::Sine => 0,
            GeneratorKind::Triangle => 1,
            GeneratorKind::Saw => 2,
            GeneratorKind::Pulse => 3,
            GeneratorKind::Noise => 4,
        }
    }

    /// Encodes this value as its automation index.
    pub fn param_index(self) -> (r: u32)
        ensures
            r == self.index_of(),
    {
        match self {
            GeneratorKind::Sine => 0,
            GeneratorKind::Triangle => 1,
            GeneratorKind::Saw => 2,
            GeneratorKind::Pulse => 3,
            GeneratorKind::Noise => 4,
        }
    }

    /// Decodes an automation index, saturating at the last variant.
    pub fn from_param_index(index: u32) -> (r: Self)
        ensures
            r.index_of() == (if index < Self::VARIANT_COUNT { index } else { (Self::VARIANT_COUNT - 1) as u32 }),
    {
        match index {
            0 => GeneratorKind::Sine,
            1 => GeneratorKind::Triangle,
            2 => GeneratorKind::Saw,
            3 => GeneratorKind::Pulse,
            _ => GeneratorKind::Noise,
        }
    }
}

impl Default for GeneratorKind {
    fn default() -> (r: Self)
        ensures
            r == GeneratorKind::Sine,
    {
        GeneratorKind::Sine
    }
}

impl GeneratorKind {
    /// Every value encodes to an index below `VARIANT_COUNT`, and no two
    /// values share an index, so decoding an encoded value gives it back.
    pub proof fn lemma_param_index_round_trip(self)
        ensures
            self.index_of() < Self::VARIANT_COUNT,
            forall|other: Self| #[trigger] other.index_of() == self.index_of() ==> other == self,
    {
    }
}

/// The waveform shape produced by an analog-style generator.
#[derive(Debug, Clone, Copy, PartialEq, Eq, Structural)]
pub enum AnalogWaveform {
    Sine,
    Triangle,
    Saw,
    Pulse,
}

impl GeneratorKind {
    /// The oscillator shape a generator of this kind plays; `Noise` has none.
    pub fn analog_waveform(self) -> (r: Option<AnalogWaveform>)
        ensures
            r == (match self {
                GeneratorKind::Sine => Some(AnalogWaveform::Sine),
                GeneratorKind::Triangle => Some(AnalogWaveform::Triangle),
                GeneratorKind::Saw => Some(AnalogWaveform::Saw),
                GeneratorKind::Pulse => Some(AnalogWaveform::Pulse),
                GeneratorKind::Noise => None,
            }),
    {
        match self {
            GeneratorKind::Sine => Some(AnalogWaveform::Sine),
            GeneratorKind::Triangle => Some(AnalogWaveform::Triangle),
            GeneratorKind::Saw => Some(AnalogWaveform::Saw),
            GeneratorKind::Pulse => Some(AnalogWaveform::Pulse),
            GeneratorKind::Noise => None,
        }
    }
}

impl GeneratorKind {
    /// The automation indices, fixed by the parameter's wire format: Sine = 0, Triangle = 1, Saw = 2, Pulse = 3, Noise = 4.
    /// Decoding index `i` below `VARIANT_COUNT` therefore gives the `i`-th
    /// of these, and any larger index gives Noise.
    pub proof fn lemma_param_index_values()
        ensures
            GeneratorKind::Sine.index_of() == 0,
            GeneratorKind::Triangle.index_of() == 1,
            GeneratorKind::Saw.index_of() == 2,
            GeneratorKind::Pulse.index_of() == 3,
            GeneratorKind::Noise.index_of() == 4,
            Self::VARIANT_COUNT == 5,
    {
    }
}

} // verus!
