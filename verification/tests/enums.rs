use z_audio_dsp::dynamics::DetectorMode;
use z_audio_dsp::effects::ButterworthKind;
use z_audio_dsp::formula::FormulaProgramId;
use z_audio_dsp::generators::{AnalogWaveform, GeneratorKind};
use z_audio_dsp::modulators::{EnvelopeCurve, EnvelopeState, LfoTarget, LfoWaveform};
use z_audio_dsp::sampler::LoopMode;

#[test]
fn target_variants_are_distinct() {
    assert_ne!(LfoTarget::Gain, LfoTarget::PitchSemitone);
    assert_ne!(LfoTarget::EqLowFreq, LfoTarget::EqMidFreq);
    assert_ne!(LfoTarget::EqMidFreq, LfoTarget::EqHighFreq);
}

#[test]
fn generator_kind_param_value_round_trips() {
    for kind in [
        GeneratorKind::Sine,
        GeneratorKind::Triangle,
        GeneratorKind::Saw,
        GeneratorKind::Pulse,
        GeneratorKind::Noise,
    ] {
        let encoded = kind.param_index();
        assert_eq!(GeneratorKind::from_param_index(encoded), kind);
    }
}

#[test]
fn generator_kind_index_clamps_out_of_range() {
    assert_eq!(GeneratorKind::from_param_index(0), GeneratorKind::Sine);
    assert_eq!(GeneratorKind::from_param_index(100), GeneratorKind::Noise);
    assert_eq!(GeneratorKind::from_param_index(u32::MAX), GeneratorKind::Noise);
}

#[test]
fn generator_kind_default_encodes_to_zero() {
    assert_eq!(GeneratorKind::default().param_index(), 0);
    assert_eq!(GeneratorKind::default(), GeneratorKind::Sine);
}

#[test]
fn butterworth_kind_param_value_round_trips() {
    for kind in [
        ButterworthKind::LowPass,
        ButterworthKind::BandPass,
        ButterworthKind::HighPass,
    ] {
        let encoded = kind.param_index();
        assert_eq!(ButterworthKind::from_param_index(encoded), kind);
    }
}

#[test]
fn butterworth_kind_index_clamps_out_of_range() {
    assert_eq!(ButterworthKind::from_param_index(100), ButterworthKind::HighPass);
    assert_eq!(ButterworthKind::from_param_index(1), ButterworthKind::BandPass);
}

#[test]
fn envelope_curve_param_value_round_trips() {
    for curve in [EnvelopeCurve::Linear, EnvelopeCurve::Exponential] {
        let encoded = curve.param_index();
        assert_eq!(EnvelopeCurve::from_param_index(encoded), curve);
    }
}

#[test]
fn envelope_curve_default_matches_exponential_encoding() {
    assert_eq!(EnvelopeCurve::default(), EnvelopeCurve::Exponential);
    assert_eq!(EnvelopeCurve::default().param_index(), 1);
}

#[test]
fn envelope_curve_index_clamps_out_of_range() {
    assert_eq!(EnvelopeCurve::from_param_index(100), EnvelopeCurve::Exponential);
}

#[test]
fn lfo_waveform_param_value_round_trips() {
    for waveform in [
        LfoWaveform::Sine,
        LfoWaveform::Triangle,
        LfoWaveform::SawUp,
        LfoWaveform::SawDown,
        LfoWaveform::Square,
        LfoWaveform::RandomHold,
    ] {
        let encoded = waveform.param_index();
        assert_eq!(LfoWaveform::from_param_index(encoded), waveform);
    }
}

#[test]
fn lfo_waveform_index_clamps_out_of_range() {
    assert_eq!(LfoWaveform::from_param_index(0), LfoWaveform::Sine);
    assert_eq!(LfoWaveform::from_param_index(100), LfoWaveform::RandomHold);
}

#[test]
fn lfo_target_param_value_round_trips() {
    for target in [
        LfoTarget::NoTarget,
        LfoTarget::Gain,
        LfoTarget::PitchSemitone,
        LfoTarget::EqLowFreq,
        LfoTarget::EqMidFreq,
        LfoTarget::EqHighFreq,
    ] {
        let encoded = target.param_index();
        assert_eq!(LfoTarget::from_param_index(encoded), target);
    }
}

#[test]
fn lfo_target_index_clamps_out_of_range() {
    assert_eq!(LfoTarget::from_param_index(0), LfoTarget::NoTarget);
    assert_eq!(LfoTarget::from_param_index(100), LfoTarget::EqHighFreq);
    assert_eq!(LfoTarget::default(), LfoTarget::NoTarget);
}

#[test]
fn detector_mode_index_selects_rms_from_one_up() {
    assert_eq!(DetectorMode::from_param_index(0), DetectorMode::Peak);
    assert_eq!(DetectorMode::from_param_index(1), DetectorMode::Rms);
    assert_eq!(DetectorMode::from_param_index(7), DetectorMode::Rms);
    assert_eq!(DetectorMode::default().param_index(), 0);
    assert_eq!(DetectorMode::Rms.param_index(), 1);
}

#[test]
fn formula_program_index_round_trips_and_clamps() {
    for (i, id) in [
        FormulaProgramId::PurePhase,
        FormulaProgramId::BrightFold,
        FormulaProgramId::FmBell,
        FormulaProgramId::AdditiveOdd,
        FormulaProgramId::PdSyncish,
        FormulaProgramId::ChaoticSoft,
    ]
    .into_iter()
    .enumerate()
    {
        assert_eq!(id.param_index(), i as u32);
        assert_eq!(FormulaProgramId::from_param_index(i as u32), id);
    }
    assert_eq!(FormulaProgramId::from_param_index(42), FormulaProgramId::ChaoticSoft);
    assert_eq!(FormulaProgramId::default(), FormulaProgramId::PurePhase);
}

#[test]
fn loop_mode_index_round_trips_and_clamps() {
    for (i, mode) in [
        LoopMode::Off,
        LoopMode::Infinite,
        LoopMode::Sustain,
        LoopMode::PingPong,
        LoopMode::Reverse,
    ]
    .into_iter()
    .enumerate()
    {
        assert_eq!(mode.param_index(), i as u32);
        assert_eq!(LoopMode::from_param_index(i as u32), mode);
    }
    assert_eq!(LoopMode::from_param_index(9), LoopMode::Reverse);
    assert_eq!(LoopMode::default(), LoopMode::Off);
}

#[test]
fn variant_counts_match_enums() {
    assert_eq!(GeneratorKind::VARIANT_COUNT, 5);
    assert_eq!(ButterworthKind::VARIANT_COUNT, 3);
    assert_eq!(EnvelopeCurve::VARIANT_COUNT, 2);
    assert_eq!(LfoWaveform::VARIANT_COUNT, 6);
    assert_eq!(LfoTarget::VARIANT_COUNT, 6);
    assert_eq!(DetectorMode::VARIANT_COUNT, 2);
    assert_eq!(FormulaProgramId::VARIANT_COUNT, 6);
    assert_eq!(LoopMode::VARIANT_COUNT, 5);
}

#[test]
fn envelope_stages_cycle_through_a_note() {
    let mut s = EnvelopeState::Idle;
    assert_eq!(s.advance(true), EnvelopeState::Idle);
    s = s.on_note_on();
    assert_eq!(s, EnvelopeState::Attack);
    assert_eq!(s.advance(false), EnvelopeState::Attack);
    s = s.advance(true);
    assert_eq!(s, EnvelopeState::Decay);
    s = s.advance(true);
    assert_eq!(s, EnvelopeState::Sustain);
    assert_eq!(s.advance(true), EnvelopeState::Sustain);
    s = s.on_note_off();
    assert_eq!(s, EnvelopeState::Release);
    assert_eq!(s.advance(false), EnvelopeState::Release);
    // Re-triggering during the release restarts the attack.
    assert_eq!(s.on_note_on(), EnvelopeState::Attack);
    s = s.advance(true);
    assert_eq!(s, EnvelopeState::Idle);
}

#[test]
fn generator_kinds_map_to_waveforms() {
    assert_eq!(GeneratorKind::Sine.analog_waveform(), Some(AnalogWaveform::Sine));
    assert_eq!(GeneratorKind::Triangle.analog_waveform(), Some(AnalogWaveform::Triangle));
    assert_eq!(GeneratorKind::Saw.analog_waveform(), Some(AnalogWaveform::Saw));
    assert_eq!(GeneratorKind::Pulse.analog_waveform(), Some(AnalogWaveform::Pulse));
    assert_eq!(GeneratorKind::Noise.analog_waveform(), None);
}
