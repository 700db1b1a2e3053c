//! Control-rate modulator state: envelope stages and curves, LFO waveforms
//! and targets.

use vstd::prelude::*;

verus! {

/// The current stage of an ADSR envelope.
#[derive(Debug, Clone, Copy, PartialEq, Eq, Structural)]
pub enum EnvelopeState {
    Idle,
    Attack,
    Decay,
    Sustain,
    Release,
}

impl EnvelopeState {
    /// Stage after one sample: a timed stage whose target has been reached
    /// hands over to the next stage (`Attack -> Decay -> Sustain` and
    /// `Release -> Idle`); `Idle` and `Sustain` hold until a note event.
    pub open spec fn next_stage(self, target_reached: bool) -> Self {
        match self {
            EnvelopeState::Attack => if target_reached { EnvelopeState::Decay } else { self },
            EnvelopeState::Decay => if target_reached { EnvelopeState::Sustain } else { self },
            EnvelopeState::Release => if target_reached { EnvelopeState::Idle } else { self },
            _ => self,
        }
    }

    /// Advances the stage by one sample; `target_reached` tells whether the
    /// envelope value has come within the stage tolerance of the current
    /// stage's target.
    pub fn advance(self, target_reached: bool) -> (r: Self)
        ensures
            r == self.next_stage(target_reached),
    {
        match self {
            EnvelopeState::Attack => if target_reached { EnvelopeState::Decay } else { self },
            EnvelopeState::Decay => if target_reached { EnvelopeState::Sustain } else { self },
            EnvelopeState::Release => if target_reached { EnvelopeState::Idle } else { self },
            _ => self,
        }
    }

    /// Stage entered on note-on: the attack restarts from any stage.
    pub fn on_note_on(self) -> (r: Self)
        ensures
            r == EnvelopeState::Attack,
    {
        EnvelopeState::Attack
    }

    /// Stage entered on note-off: the release starts from any stage.
    pub fn on_note_off(self) -> (r: Self)
        ensures
            r == EnvelopeState::Release,
    {
        EnvelopeState::Release
    }
}

/// A full note cycles `Idle -> Attack -> Decay -> Sustain -> Release -> Idle`:
/// note-on starts the attack, each timed stage hands over once its target is
/// reached, the sustain holds however long the key is down, and note-off
/// releases back to idle.
pub proof fn lemma_envelope_full_cycle(s: EnvelopeState)
    ensures
        s.next_stage(false) == s,
        EnvelopeState::Attack.next_stage(true) == EnvelopeState::Decay,
        EnvelopeState::Decay.next_stage(true) == EnvelopeState::Sustain,
        EnvelopeState::Sustain.next_stage(true) == EnvelopeState::Sustain,
        EnvelopeState::Release.next_stage(true) == EnvelopeState::Idle,
        EnvelopeState::Idle.next_stage(true) == EnvelopeState::Idle,
{
}

/// The shape of an envelope stage's transition.
#[derive(Debug, Clone, Copy, PartialEq, Eq, Structural)]
pub enum EnvelopeCurve {
    Linear,
    Exponential,
}

impl EnvelopeCurve {
    /// Number of valid `ParamId::EnvCurve` automation values.
    pub const VARIANT_COUNT: u32 = 2;

    /// The automation index that encodes this value.
    pub open spec fn index_of(self) -> u32 {
        match self {
            EnvelopeCurve::Linear => 0,
            EnvelopeCurve::Exponential => 1,
        }
    }

    /// Encodes this value as its automation index.
    pub fn param_index(self) -> (r: u32)
        ensures
            r == self.index_of(),
    {
        match self {
            EnvelopeCurve::Linear => 0,
            EnvelopeCurve::Exponential => 1,
        }
    }

    /// Decodes an automation index, saturating at the last variant.
    pub fn from_param_index(index: u32) -> (r: Self)
        ensures
            r.index_of() == (if index < Self::VARIANT_COUNT { index } else { (Self::VARIANT_COUNT - 1) as u32 }),
    {
        match index {
            0 => EnvelopeCurve::Linear,
            _ => EnvelopeCurve::Exponential,
        }
    }
}

impl Default for EnvelopeCurve {
    fn default() -> (r: Self)
        ensures
            r == EnvelopeCurve::Exponential,
    {
        EnvelopeCurve::Exponential
    }
}

impl EnvelopeCurve {
    /// Every value encodes to an index below `VARIANT_COUNT`, and no two
    /// values share an index, so decoding an encoded value gives it back.
    pub proof fn lemma_param_index_round_trip(self)
        ensures
            self.index_of() < Self::VARIANT_COUNT,
            forall|other: Self| #[trigger] other.index_of() == self.index_of() ==> other == self,
    {
    }
}

/// LFO waveform shapes.
#[derive(Debug, Clone, Copy, PartialEq, Eq, Structural)]
pub enum LfoWaveform {
    Sine,
    Triangle,
    SawUp,
    SawDown,
    Square,
    RandomHold,
}

impl LfoWaveform {
    /// Number of valid `ParamId::LfoWaveform` automation values.
    pub const VARIANT_COUNT: u32 = 6;

    /// The automation index that encodes this value.
    pub open spec fn index_of(self) -> u32 {
        match self {
            LfoWaveform::Sine => 0,
            LfoWaveform::Triangle => 1,
            LfoWaveform::SawUp => 2,
            LfoWaveform::SawDown => 3,
            LfoWaveform::Square => 4,
            LfoWaveform::RandomHold => 5,
        }
    }

    /// Encodes this value as its automation index.
    pub fn param_index(self) -> (r: u32)
        ensures
            r == self.index_of(),
    {
        match self {
            LfoWaveform::Sine => 0,
            LfoWaveform::Triangle => 1,
            LfoWaveform::SawUp => 2,
            LfoWaveform::SawDown => 3,
            LfoWaveform::Square => 4,
            LfoWaveform::RandomHold => 5,
        }
    }

    /// Decodes an automation index, saturating at the last variant.
    pub fn from_param_index(index: u32) -> (r: Self)
        ensures
            r.index_of() == (if index < Self::VARIANT_COUNT { index } else { (Self::VARIANT_COUNT - 1) as u32 }),
    {
        match index {
            0 => LfoWaveform::Sine,
            1 => LfoWaveform::Triangle,
            2 => LfoWaveform::SawUp,
            3 => LfoWaveform::SawDown,
            4 => LfoWaveform::Square,
            _ => LfoWaveform::RandomHold,
        }
    }
}

impl Default for LfoWaveform {
    fn default() -> (r: Self)
        ensures
            r == LfoWaveform::Sine,
    {
        LfoWaveform::Sine
    }
}

impl LfoWaveform {
    /// Every value encodes to an index below `VARIANT_COUNT`, and no two
    /// values share an index, so decoding an encoded value gives it back.
    pub proof fn lemma_param_index_round_trip(self)
        ensures
            self.index_of() < Self::VARIANT_COUNT,
            forall|other: Self| #[trigger] other.index_of() == self.index_of() ==> other == self,
    {
    }
}

/// Fixed modulation targets available to a voice's LFO.
#[derive(Debug, Clone, Copy, PartialEq, Eq, Structural)]
pub enum LfoTarget {
    /// The LFO modulates nothing.
    NoTarget,
    Gain,
    PitchSemitone,
    EqLowFreq,
    EqMidFreq,
    EqHighFreq,
}

impl LfoTarget {
    /// Number of valid `ParamId::LfoTarget` automation values.
    pub const VARIANT_COUNT: u32 = 6;

    /// The automation index that encodes this value.
    pub open spec fn index_of(self) -> u32 {
        match self {
            LfoTarget::NoTarget => 0,
            LfoTarget::Gain => 1,
            LfoTarget::PitchSemitone => 2,
            LfoTarget::EqLowFreq => 3,
            LfoTarget::EqMidFreq => 4,
            LfoTarget::EqHighFreq => 5,
        }
    }

    /// Encodes this value as its automation index.
    pub fn param_index(self) -> (r: u32)
        ensures
            r == self.index_of(),
    {
        match self {
            LfoTarget::NoTarget => 0,
            LfoTarget::Gain => 1,
            LfoTarget::PitchSemitone => 2,
            LfoTarget::EqLowFreq => 3,
            LfoTarget::EqMidFreq => 4,
            LfoTarget::EqHighFreq => 5,
        }
    }

    /// Decodes an automation index, saturating at the last variant.
    pub fn from_param_index(index: u32) -> (r: Self)
        ensures
            r.index_of() == (if index < Self::VARIANT_COUNT { index } else { (Self::VARIANT_COUNT - 1) as u32 }),
    {
        match index {
            0 => LfoTarget::NoTarget,
            1 => LfoTarget::Gain,
            2 => LfoTarget::PitchSemitone,
            3 => LfoTarget::EqLowFreq,
            4 => LfoTarget::EqMidFreq,
            _ => LfoTarget::EqHighFreq,
        }
    }
}

impl Default for LfoTarget {
    fn default() -> (r: Self)
        ensures
            r == LfoTarget::NoTarget,
    {
        LfoTarget::NoTarget
    }
}

impl LfoTarget {
    /// Every value encodes to an index below `VARIANT_COUNT`, and no two
    /// values share an index, so decoding an encoded value gives it back.
    pub proof fn lemma_param_index_round_trip(self)
        ensures
            self.index_of() < Self::VARIANT_COUNT,
            forall|other: Self| #[trigger] other.index_of() == self.index_of() ==> other == self,
    {
    }
}

impl LfoWaveform {
    /// The automation indices, fixed by the parameter's wire format: Sine = 0, Triangle = 1, SawUp = 2, SawDown = 3, Square = 4, RandomHold = 5.
    /// Decoding index `i` below `VARIANT_COUNT` therefore gives the `i`-th
    /// of these, and any larger index gives RandomHold.
    pub proof fn lemma_param_index_values()
        ensures
            LfoWaveform::Sine.index_of() == 0,
            LfoWaveform::Triangle.index_of() == 1,
            LfoWaveform::SawUp.index_of() == 2,
            LfoWaveform::SawDown.index_of() == 3,
            LfoWaveform::Square.index_of() == 4,
            LfoWaveform::RandomHold.index_of() == 5,
            Self::VARIANT_COUNT == 6,
    {
    }
}

impl LfoTarget {
    /// The automation indices, fixed by the parameter's wire format: NoTarget = 0, Gain = 1, PitchSemitone = 2, EqLowFreq = 3, EqMidFreq = 4, EqHighFreq = 5.
    /// Decoding index `i` below `VARIANT_COUNT` therefore gives the `i`-th
    /// of these, and any larger index gives EqHighFreq.
    pub proof fn lemma_param_index_values()
        ensures
            LfoTarget::NoTarget.index_of() == 0,
            LfoTarget::Gain.index_of() == 1,
            LfoTarget::PitchSemitone.index_of() == 2,
            LfoTarget::EqLowFreq.index_of() == 3,
            LfoTarget::EqMidFreq.index_of() == 4,
            LfoTarget::EqHighFreq.index_of() == 5,
            Self::VARIANT_COUNT == 6,
    {
    }
}

impl EnvelopeCurve {
    /// The automation indices, fixed by the parameter's wire format: Linear = 0, Exponential = 1.
    /// Decoding index `i` below `VARIANT_COUNT` therefore gives the `i`-th
    /// of these, and any larger index gives Exponential.
    pub proof fn lemma_param_index_values()
        ensures
            EnvelopeCurve::Linear.index_of() == 0,
            EnvelopeCurve::Exponential.index_of() == 1,
            Self::VARIANT_COUNT == 2,
    {
    }
}

} // verus!
