use std::collections::HashSet;

use z_audio_dsp::dynamics::DetectorMode;
use z_audio_dsp::effects::ButterworthKind;
use z_audio_dsp::formula::FormulaProgramId;
use z_audio_dsp::generators::GeneratorKind;
use z_audio_dsp::modulators::{EnvelopeCurve, LfoTarget, LfoWaveform};
use z_audio_dsp::params::{ParamId, ParamUnit};
use z_audio_dsp::sampler::LoopMode;

#[test]
fn all_has_127_unique_variants() {
    assert_eq!(ParamId::ALL.len(), 127);
    let mut seen = HashSet::new();
    for id in ParamId::ALL {
        assert!(seen.insert(id.to_u32()), "duplicate ParamId in ALL: {id:?}");
    }
}

#[test]
fn codes_follow_component_groups() {
    assert_eq!(ParamId::MasterGain.to_u32(), 0);
    assert_eq!(ParamId::GeneratorGain.to_u32(), 10);
    assert_eq!(ParamId::EqHighQ.to_u32(), 54);
    assert_eq!(ParamId::FormulaDcBlock.to_u32(), 71);
    assert_eq!(ParamId::SamplerLoopMode.to_u32(), 207);
    assert_eq!(ParamId::DiffuserAllpassCount.to_u32(), 225);
    // Declaration order is code order.
    for pair in ParamId::ALL.windows(2) {
        assert!(pair[0].to_u32() < pair[1].to_u32());
    }
}

#[test]
fn metadata_names_are_unique_and_non_empty() {
    let mut seen = HashSet::new();
    for id in ParamId::ALL {
        let name = id.name();
        assert!(!name.is_empty());
        assert!(seen.insert(name), "duplicate metadata name: {name}");
    }
}

#[test]
fn enum_and_boolean_params_have_step_counts() {
    for id in ParamId::ALL {
        match id.unit() {
            ParamUnit::Boolean => assert_eq!(id.step_count(), Some(2), "{}", id.name()),
            ParamUnit::Enum => {
                let steps = id.step_count().expect("enum parameter must have a step count");
                assert!(steps >= 2, "{}: step_count={steps}", id.name());
            }
            _ => assert_eq!(id.step_count(), None, "{}: continuous param has step_count", id.name()),
        }
    }
}

#[test]
fn enum_step_counts_match_their_enums() {
    assert_eq!(ParamId::GeneratorKind.step_count(), Some(GeneratorKind::VARIANT_COUNT));
    assert_eq!(ParamId::EnvCurve.step_count(), Some(EnvelopeCurve::VARIANT_COUNT));
    assert_eq!(ParamId::LfoWaveform.step_count(), Some(LfoWaveform::VARIANT_COUNT));
    assert_eq!(ParamId::LfoTarget.step_count(), Some(LfoTarget::VARIANT_COUNT));
    for id in [ParamId::EqLowType, ParamId::EqMidType, ParamId::EqHighType] {
        assert_eq!(id.step_count(), Some(ButterworthKind::VARIANT_COUNT));
    }
    assert_eq!(ParamId::FormulaProgram.step_count(), Some(FormulaProgramId::VARIANT_COUNT));
    assert_eq!(ParamId::CompressorDetectorMode.step_count(), Some(DetectorMode::VARIANT_COUNT));
    assert_eq!(ParamId::SamplerLoopMode.step_count(), Some(LoopMode::VARIANT_COUNT));
    assert_eq!(ParamId::FormulaOversampling.step_count(), Some(3));
}

#[test]
fn units_and_names_of_selected_params() {
    assert_eq!(ParamId::MasterGain.name(), "master_gain");
    assert_eq!(ParamId::MasterGain.unit(), ParamUnit::Linear);
    assert_eq!(ParamId::EnvAttack.unit(), ParamUnit::Seconds);
    assert_eq!(ParamId::LfoRateHz.unit(), ParamUnit::Hertz);
    assert_eq!(ParamId::EqLowEnabled.unit(), ParamUnit::Boolean);
    assert_eq!(ParamId::FormulaMacro8.name(), "formula_macro_8");
    assert_eq!(ParamId::FormulaMacro1.name(), "formula_macro_1");
    assert_eq!(ParamId::DiffuserAllpassCount.name(), "diffuser_allpass_count");
    let counts = ParamId::ALL.iter().fold([0usize; 5], |mut acc, id| {
        let slot = match id.unit() {
            ParamUnit::Linear => 0,
            ParamUnit::Hertz => 1,
            ParamUnit::Seconds => 2,
            ParamUnit::Boolean => 3,
            ParamUnit::Enum => 4,
        };
        acc[slot] += 1;
        acc
    });
    assert_eq!(counts[3], 7);
    assert_eq!(counts[4], 11);
}
