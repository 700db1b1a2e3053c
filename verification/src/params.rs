//! Stable parameter identifiers used by automation events, with the
//! integer part of their metadata: wire code, name, unit and step count.
//!
//! Codes are grouped by component with gaps between groups (10 codes per
//! group) to leave room for future additions without renumbering existing
//! codes.

use vstd::prelude::*;

use crate::dynamics::DetectorMode;
use crate::effects::ButterworthKind;
use crate::formula::FormulaProgramId;
use crate::generators::GeneratorKind;
use crate::modulators::{EnvelopeCurve, LfoTarget, LfoWaveform};
use crate::sampler::LoopMode;

verus! {

/// A stable identifier for an automatable parameter.
#[derive(Debug, Clone, Copy, PartialEq, Eq, Hash, Structural)]
pub enum ParamId {
    // --- Synth (0-9) ---
    MasterGain,
    MaxPolyphony,
    GeneratorKind,

    // --- Generator (10-19) ---
    GeneratorGain,
    GeneratorPulseWidth,
    GeneratorPhaseOffset,
    GeneratorPan,

    // --- Amp envelope (20-29) ---
    EnvAttack,
    EnvDecay,
    EnvSustain,
    EnvRelease,
    EnvCurve,

    // --- LFO (30-39) ---
    LfoEnabled,
    LfoWaveform,
    LfoRateHz,
    LfoAmount,
    LfoTarget,
    LfoRetrigger,

    // --- 3-band EQ (40-59) ---
    EqLowEnabled,
    EqLowFreq,
    EqLowType,
    EqMidEnabled,
    EqMidFreq,
    EqMidType,
    EqHighEnabled,
    EqHighFreq,
    EqHighType,
    EqLowGainDb,
    EqLowQ,
    EqMidGainDb,
    EqMidQ,
    EqHighGainDb,
    EqHighQ,

    // --- Formula synth (60-79) ---
    FormulaProgram,
    FormulaMacro1,
    FormulaMacro2,
    FormulaMacro3,
    FormulaMacro4,
    FormulaMacro5,
    FormulaMacro6,
    FormulaMacro7,
    FormulaMacro8,
    FormulaOutputGain,
    FormulaOversampling,
    FormulaDcBlock,

    // --- Formula piano (80-99) ---
    PianoTone,
    PianoBrightness,
    PianoHammerHardness,
    PianoHammerNoise,
    PianoInharmonicity,
    PianoDecay,
    PianoRelease,
    PianoBodyAmount,
    PianoStereoWidth,
    PianoSympatheticAmount,
    PianoPedalResonance,
    PianoMasterGain,

    // --- Parametric reverb (100-119) ---
    ReverbMix,
    ReverbRoomSize,
    ReverbDecay,
    ReverbPreDelay,
    ReverbDiffusion,
    ReverbDamping,
    ReverbLowCut,
    ReverbHighCut,
    ReverbModRate,
    ReverbModDepth,
    ReverbWidth,
    ReverbEarlyLateMix,
    ReverbOutputGain,

    // --- Limiter (120-139) ---
    LimiterInputGain,
    LimiterThreshold,
    LimiterCeiling,
    LimiterRelease,
    LimiterLookahead,
    LimiterStereoLink,
    LimiterTruePeak,
    LimiterOutputGain,

    // --- Compressor (140-159) ---
    CompressorInputGain,
    CompressorThreshold,
    CompressorRatio,
    CompressorKnee,
    CompressorAttack,
    CompressorRelease,
    CompressorMakeupGain,
    CompressorMix,
    CompressorDetectorMode,
    CompressorStereoLink,
    CompressorSidechainHpf,

    // --- Formula drum set (160-179) ---
    DrumKickLevel,
    DrumSnareLevel,
    DrumTomLevel,
    DrumHatLevel,
    DrumCymbalLevel,
    DrumTuning,
    DrumDecay,
    DrumTone,
    DrumSnareWire,
    DrumRoomAmount,
    DrumStereoWidth,
    DrumMasterGain,

    // --- VCSL sampler piano (180-199) ---
    VcslMasterGain,
    VcslTone,
    VcslVelocityCurve,
    VcslReleaseLevel,
    VcslReleaseTime,
    VcslStereoWidth,

    // --- Generic sampler (200-219) ---
    SamplerMasterGain,
    SamplerRootNote,
    SamplerTune,
    SamplerOffset,
    SamplerVelocityCurve,
    SamplerReleaseTime,
    SamplerStereoWidth,
    SamplerLoopMode,
    SamplerLoopStart,
    SamplerLoopEnd,
    SamplerLoopXfade,
    SamplerUnisonVoices,
    SamplerUnisonDetune,
    SamplerUnisonSpread,

    // --- Diffuser (220-239) ---
    DiffuserMix,
    DiffuserDiffusion,
    DiffuserSize,
    DiffuserWidth,
    DiffuserOutputGain,
    DiffuserAllpassCount,
}

/// The physical interpretation of a parameter value.
#[derive(Debug, Clone, Copy, PartialEq, Eq, Structural)]
pub enum ParamUnit {
    /// A dimensionless linear scalar (gain multiplier, pan position, level,
    /// voice count, etc.).
    Linear,
    /// Frequency in Hertz.
    Hertz,
    /// Time in seconds.
    Seconds,
    /// `0.0` (false) or `1.0` (true); the step count is 2.
    Boolean,
    /// An integer index in `0..step_count` selecting one of a fixed set of
    /// named variants.
    Enum,
}

impl ParamId {
    /// Every [`ParamId`] variant, in declaration order.
    pub const ALL: [ParamId; 127] = [
        ParamId::MasterGain,
        ParamId::MaxPolyphony,
        ParamId::GeneratorKind,
        ParamId::GeneratorGain,
        ParamId::GeneratorPulseWidth,
        ParamId::GeneratorPhaseOffset,
        ParamId::GeneratorPan,
        ParamId::EnvAttack,
        ParamId::EnvDecay,
        ParamId::EnvSustain,
        ParamId::EnvRelease,
        ParamId::EnvCurve,
        ParamId::LfoEnabled,
        ParamId::LfoWaveform,
        ParamId::LfoRateHz,
        ParamId::LfoAmount,
        ParamId::LfoTarget,
        ParamId::LfoRetrigger,
        ParamId::EqLowEnabled,
        ParamId::EqLowFreq,
        ParamId::EqLowType,
        ParamId::EqMidEnabled,
        ParamId::EqMidFreq,
        ParamId::EqMidType,
        ParamId::EqHighEnabled,
        ParamId::EqHighFreq,
        ParamId::EqHighType,
        ParamId::EqLowGainDb,
        ParamId::EqLowQ,
        ParamId::EqMidGainDb,
        ParamId::EqMidQ,
        ParamId::EqHighGainDb,
        ParamId::EqHighQ,
        ParamId::FormulaProgram,
        ParamId::FormulaMacro1,
        ParamId::FormulaMacro2,
        ParamId::FormulaMacro3,
        ParamId::FormulaMacro4,
        ParamId::FormulaMacro5,
        ParamId::FormulaMacro6,
        ParamId::FormulaMacro7,
        ParamId::FormulaMacro8,
        ParamId::FormulaOutputGain,
        ParamId::FormulaOversampling,
        ParamId::FormulaDcBlock,
        ParamId::PianoTone,
        ParamId::PianoBrightness,
        ParamId::PianoHammerHardness,
        ParamId::PianoHammerNoise,
        ParamId::PianoInharmonicity,
        ParamId::PianoDecay,
        ParamId::PianoRelease,
        ParamId::PianoBodyAmount,
        ParamId::PianoStereoWidth,
        ParamId::PianoSympatheticAmount,
        ParamId::PianoPedalResonance,
        ParamId::PianoMasterGain,
        ParamId::ReverbMix,
        ParamId::ReverbRoomSize,
        ParamId::ReverbDecay,
        ParamId::ReverbPreDelay,
        ParamId::ReverbDiffusion,
        ParamId::ReverbDamping,
        ParamId::ReverbLowCut,
        ParamId::ReverbHighCut,
        ParamId::ReverbModRate,
        ParamId::ReverbModDepth,
        ParamId::ReverbWidth,
        ParamId::ReverbEarlyLateMix,
        ParamId::ReverbOutputGain,
        ParamId::LimiterInputGain,
        ParamId::LimiterThreshold,
        ParamId::LimiterCeiling,
        ParamId::LimiterRelease,
        ParamId::LimiterLookahead,
        ParamId::LimiterStereoLink,
        ParamId::LimiterTruePeak,
        ParamId::LimiterOutputGain,
        ParamId::CompressorInputGain,
        ParamId::CompressorThreshold,
        ParamId::CompressorRatio,
        ParamId::CompressorKnee,
        ParamId::CompressorAttack,
        ParamId::CompressorRelease,
        ParamId::CompressorMakeupGain,
        ParamId::CompressorMix,
        ParamId::CompressorDetectorMode,
        ParamId::CompressorStereoLink,
        ParamId::CompressorSidechainHpf,
        ParamId::DrumKickLevel,
        ParamId::DrumSnareLevel,
        ParamId::DrumTomLevel,
        ParamId::DrumHatLevel,
        ParamId::DrumCymbalLevel,
        ParamId::DrumTuning,
        ParamId::DrumDecay,
        ParamId::DrumTone,
        ParamId::DrumSnareWire,
        ParamId::DrumRoomAmount,
        ParamId::DrumStereoWidth,
        ParamId::DrumMasterGain,
        ParamId::VcslMasterGain,
        ParamId::VcslTone,
        ParamId::VcslVelocityCurve,
        ParamId::VcslReleaseLevel,
        ParamId::VcslReleaseTime,
        ParamId::VcslStereoWidth,
        ParamId::SamplerMasterGain,
        ParamId::SamplerRootNote,
        ParamId::SamplerTune,
        ParamId::SamplerOffset,
        ParamId::SamplerVelocityCurve,
        ParamId::SamplerReleaseTime,
        ParamId::SamplerStereoWidth,
        ParamId::SamplerLoopMode,
        ParamId::SamplerLoopStart,
        ParamId::SamplerLoopEnd,
        ParamId::SamplerLoopXfade,
        ParamId::SamplerUnisonVoices,
        ParamId::SamplerUnisonDetune,
        ParamId::SamplerUnisonSpread,
        ParamId::DiffuserMix,
        ParamId::DiffuserDiffusion,
        ParamId::DiffuserSize,
        ParamId::DiffuserWidth,
        ParamId::DiffuserOutputGain,
        ParamId::DiffuserAllpassCount,
    ];

    /// The stable wire code of this parameter.
    pub open spec fn code_of(self) -> u32 {
        match self {
            ParamId::MasterGain => 0,
            ParamId::MaxPolyphony => 1,
            ParamId::GeneratorKind => 2,
            ParamId::GeneratorGain => 10,
            ParamId::GeneratorPulseWidth => 11,
            ParamId::GeneratorPhaseOffset => 12,
            ParamId::GeneratorPan => 13,
            ParamId::EnvAttack => 20,
            ParamId::EnvDecay => 21,
            ParamId::EnvSustain => 22,
            ParamId::EnvRelease => 23,
            ParamId::EnvCurve => 24,
            ParamId::LfoEnabled => 30,
            ParamId::LfoWaveform => 31,
            ParamId::LfoRateHz => 32,
            ParamId::LfoAmount => 33,
            ParamId::LfoTarget => 34,
            ParamId::LfoRetrigger => 35,
            ParamId::EqLowEnabled => 40,
            ParamId::EqLowFreq => 41,
            ParamId::EqLowType => 42,
            ParamId::EqMidEnabled => 43,
            ParamId::EqMidFreq => 44,
            ParamId::EqMidType => 45,
            ParamId::EqHighEnabled => 46,
            ParamId::EqHighFreq => 47,
            ParamId::EqHighType => 48,
            ParamId::EqLowGainDb => 49,
            ParamId::EqLowQ => 50,
            ParamId::EqMidGainDb => 51,
            ParamId::EqMidQ => 52,
            ParamId::EqHighGainDb => 53,
            ParamId::EqHighQ => 54,
            ParamId::FormulaProgram => 60,
            ParamId::FormulaMacro1 => 61,
            ParamId::FormulaMacro2 => 62,
            ParamId::FormulaMacro3 => 63,
            ParamId::FormulaMacro4 => 64,
            ParamId::FormulaMacro5 => 65,
            ParamId::FormulaMacro6 => 66,
            ParamId::FormulaMacro7 => 67,
            ParamId::FormulaMacro8 => 68,
            ParamId::FormulaOutputGain => 69,
            ParamId::FormulaOversampling => 70,
            ParamId::FormulaDcBlock => 71,
            ParamId::PianoTone => 80,
            ParamId::PianoBrightness => 81,
            ParamId::PianoHammerHardness => 82,
            ParamId::PianoHammerNoise => 83,
            ParamId::PianoInharmonicity => 84,
            ParamId::PianoDecay => 85,
            ParamId::PianoRelease => 86,
            ParamId::PianoBodyAmount => 87,
            ParamId::PianoStereoWidth => 88,
            ParamId::PianoSympatheticAmount => 89,
            ParamId::PianoPedalResonance => 90,
            ParamId::PianoMasterGain => 91,
            ParamId::ReverbMix => 100,
            ParamId::ReverbRoomSize => 101,
            ParamId::ReverbDecay => 102,
            ParamId::ReverbPreDelay => 103,
            ParamId::ReverbDiffusion => 104,
            ParamId::ReverbDamping => 105,
            ParamId::ReverbLowCut => 106,
            ParamId::ReverbHighCut => 107,
            ParamId::ReverbModRate => 108,
            ParamId::ReverbModDepth => 109,
            ParamId::ReverbWidth => 110,
            ParamId::ReverbEarlyLateMix => 111,
            ParamId::ReverbOutputGain => 112,
            ParamId::LimiterInputGain => 120,
            ParamId::LimiterThreshold => 121,
            ParamId::LimiterCeiling => 122,
            ParamId::LimiterRelease => 123,
            ParamId::LimiterLookahead => 124,
            ParamId::LimiterStereoLink => 125,
            ParamId::LimiterTruePeak => 126,
            ParamId::LimiterOutputGain => 127,
            ParamId::CompressorInputGain => 140,
            ParamId::CompressorThreshold => 141,
            ParamId::CompressorRatio => 142,
            ParamId::CompressorKnee => 143,
            ParamId::CompressorAttack => 144,
            ParamId::CompressorRelease => 145,
            ParamId::CompressorMakeupGain => 146,
            ParamId::CompressorMix => 147,
            ParamId::CompressorDetectorMode => 148,
            ParamId::CompressorStereoLink => 149,
            ParamId::CompressorSidechainHpf => 150,
            ParamId::DrumKickLevel => 160,
            ParamId::DrumSnareLevel => 161,
            ParamId::DrumTomLevel => 162,
            ParamId::DrumHatLevel => 163,
            ParamId::DrumCymbalLevel => 164,
            ParamId::DrumTuning => 165,
            ParamId::DrumDecay => 166,
            ParamId::DrumTone => 167,
            ParamId::DrumSnareWire => 168,
            ParamId::DrumRoomAmount => 169,
            ParamId::DrumStereoWidth => 170,
            ParamId::DrumMasterGain => 171,
            ParamId::VcslMasterGain => 180,
            ParamId::VcslTone => 181,
            ParamId::VcslVelocityCurve => 182,
            ParamId::VcslReleaseLevel => 183,
            ParamId::VcslReleaseTime => 184,
            ParamId::VcslStereoWidth => 185,
            ParamId::SamplerMasterGain => 200,
            ParamId::SamplerRootNote => 201,
            ParamId::SamplerTune => 202,
            ParamId::SamplerOffset => 203,
            ParamId::SamplerVelocityCurve => 204,
            ParamId::SamplerReleaseTime => 205,
            ParamId::SamplerStereoWidth => 206,
            ParamId::SamplerLoopMode => 207,
            ParamId::SamplerLoopStart => 208,
            ParamId::SamplerLoopEnd => 209,
            ParamId::SamplerLoopXfade => 210,
            ParamId::SamplerUnisonVoices => 211,
            ParamId::SamplerUnisonDetune => 212,
            ParamId::SamplerUnisonSpread => 213,
            ParamId::DiffuserMix => 220,
            ParamId::DiffuserDiffusion => 221,
            ParamId::DiffuserSize => 222,
            ParamId::DiffuserWidth => 223,
            ParamId::DiffuserOutputGain => 224,
            ParamId::DiffuserAllpassCount => 225,
        }
    }

    /// The parameter a wire code stands for, if any.
    pub open spec fn from_code(code: u32) -> Option<ParamId> {
        match code {
            0 => Some(ParamId::MasterGain),
            1 => Some(ParamId::MaxPolyphony),
            2 => Some(ParamId::GeneratorKind),
            10 => Some(ParamId::GeneratorGain),
            11 => Some(ParamId::GeneratorPulseWidth),
            12 => Some(ParamId::GeneratorPhaseOffset),
            13 => Some(ParamId::GeneratorPan),
            20 => Some(ParamId::EnvAttack),
            21 => Some(ParamId::EnvDecay),
            22 => Some(ParamId::EnvSustain),
            23 => Some(ParamId::EnvRelease),
            24 => Some(ParamId::EnvCurve),
            30 => Some(ParamId::LfoEnabled),
            31 => Some(ParamId::LfoWaveform),
            32 => Some(ParamId::LfoRateHz),
            33 => Some(ParamId::LfoAmount),
            34 => Some(ParamId::LfoTarget),
            35 => Some(ParamId::LfoRetrigger),
            40 => Some(ParamId::EqLowEnabled),
            41 => Some(ParamId::EqLowFreq),
            42 => Some(ParamId::EqLowType),
            43 => Some(ParamId::EqMidEnabled),
            44 => Some(ParamId::EqMidFreq),
            45 => Some(ParamId::EqMidType),
            46 => Some(ParamId::EqHighEnabled),
            47 => Some(ParamId::EqHighFreq),
            48 => Some(ParamId::EqHighType),
            49 => Some(ParamId::EqLowGainDb),
            50 => Some(ParamId::EqLowQ),
            51 => Some(ParamId::EqMidGainDb),
            52 => Some(ParamId::EqMidQ),
            53 => Some(ParamId::EqHighGainDb),
            54 => Some(ParamId::EqHighQ),
            60 => Some(ParamId::FormulaProgram),
            61 => Some(ParamId::FormulaMacro1),
            62 => Some(ParamId::FormulaMacro2),
            63 => Some(ParamId::FormulaMacro3),
            64 => Some(ParamId::FormulaMacro4),
            65 => Some(ParamId::FormulaMacro5),
            66 => Some(ParamId::FormulaMacro6),
            67 => Some(ParamId::FormulaMacro7),
            68 => Some(ParamId::FormulaMacro8),
            69 => Some(ParamId::FormulaOutputGain),
            70 => Some(ParamId::FormulaOversampling),
            71 => Some(ParamId::FormulaDcBlock),
            80 => Some(ParamId::PianoTone),
            81 => Some(ParamId::PianoBrightness),
            82 => Some(ParamId::PianoHammerHardness),
            83 => Some(ParamId::PianoHammerNoise),
            84 => Some(ParamId::PianoInharmonicity),
            85 => Some(ParamId::PianoDecay),
            86 => Some(ParamId::PianoRelease),
            87 => Some(ParamId::PianoBodyAmount),
            88 => Some(ParamId::PianoStereoWidth),
            89 => Some(ParamId::PianoSympatheticAmount),
            90 => Some(ParamId::PianoPedalResonance),
            91 => Some(ParamId::PianoMasterGain),
            100 => Some(ParamId::ReverbMix),
            101 => Some(ParamId::ReverbRoomSize),
            102 => Some(ParamId::ReverbDecay),
            103 => Some(ParamId::ReverbPreDelay),
            104 => Some(ParamId::ReverbDiffusion),
            105 => Some(ParamId::ReverbDamping),
            106 => Some(ParamId::ReverbLowCut),
            107 => Some(ParamId::ReverbHighCut),
            108 => Some(ParamId::ReverbModRate),
            109 => Some(ParamId::ReverbModDepth),
            110 => Some(ParamId::ReverbWidth),
            111 => Some(ParamId::ReverbEarlyLateMix),
            112 => Some(ParamId::ReverbOutputGain),
            120 => Some(ParamId::LimiterInputGain),
            121 => Some(ParamId::LimiterThreshold),
            122 => Some(ParamId::LimiterCeiling),
            123 => Some(ParamId::LimiterRelease),
            124 => Some(ParamId::LimiterLookahead),
            125 => Some(ParamId::LimiterStereoLink),
            126 => Some(ParamId::LimiterTruePeak),
            127 => Some(ParamId::LimiterOutputGain),
            140 => Some(ParamId::CompressorInputGain),
            141 => Some(ParamId::CompressorThreshold),
            142 => Some(ParamId::CompressorRatio),
            143 => Some(ParamId::CompressorKnee),
            144 => Some(ParamId::CompressorAttack),
            145 => Some(ParamId::CompressorRelease),
            146 => Some(ParamId::CompressorMakeupGain),
            147 => Some(ParamId::CompressorMix),
            148 => Some(ParamId::CompressorDetectorMode),
            149 => Some(ParamId::CompressorStereoLink),
            150 => Some(ParamId::CompressorSidechainHpf),
            160 => Some(ParamId::DrumKickLevel),
            161 => Some(ParamId::DrumSnareLevel),
            162 => Some(ParamId::DrumTomLevel),
            163 => Some(ParamId::DrumHatLevel),
            164 => Some(ParamId::DrumCymbalLevel),
            165 => Some(ParamId::DrumTuning),
            166 => Some(ParamId::DrumDecay),
            167 => Some(ParamId::DrumTone),
            168 => Some(ParamId::DrumSnareWire),
            169 => Some(ParamId::DrumRoomAmount),
            170 => Some(ParamId::DrumStereoWidth),
            171 => Some(ParamId::DrumMasterGain),
            180 => Some(ParamId::VcslMasterGain),
            181 => Some(ParamId::VcslTone),
            182 => Some(ParamId::VcslVelocityCurve),
            183 => Some(ParamId::VcslReleaseLevel),
            184 => Some(ParamId::VcslReleaseTime),
            185 => Some(ParamId::VcslStereoWidth),
            200 => Some(ParamId::SamplerMasterGain),
            201 => Some(ParamId::SamplerRootNote),
            202 => Some(ParamId::SamplerTune),
            203 => Some(ParamId::SamplerOffset),
            204 => Some(ParamId::SamplerVelocityCurve),
            205 => Some(ParamId::SamplerReleaseTime),
            206 => Some(ParamId::SamplerStereoWidth),
            207 => Some(ParamId::SamplerLoopMode),
            208 => Some(ParamId::SamplerLoopStart),
            209 => Some(ParamId::SamplerLoopEnd),
            210 => Some(ParamId::SamplerLoopXfade),
            211 => Some(ParamId::SamplerUnisonVoices),
            212 => Some(ParamId::SamplerUnisonDetune),
            213 => Some(ParamId::SamplerUnisonSpread),
            220 => Some(ParamId::DiffuserMix),
            221 => Some(ParamId::DiffuserDiffusion),
            222 => Some(ParamId::DiffuserSize),
            223 => Some(ParamId::DiffuserWidth),
            224 => Some(ParamId::DiffuserOutputGain),
            225 => Some(ParamId::DiffuserAllpassCount),
            _ => None,
        }
    }

    /// Position of this parameter in declaration order.
    pub open spec fn declaration_index(self) -> int {
        match self {
            ParamId::MasterGain => 0,
            ParamId::MaxPolyphony => 1,
            ParamId::GeneratorKind => 2,
            ParamId::GeneratorGain => 3,
            ParamId::GeneratorPulseWidth => 4,
            ParamId::GeneratorPhaseOffset => 5,
            ParamId::GeneratorPan => 6,
            ParamId::EnvAttack => 7,
            ParamId::EnvDecay => 8,
            ParamId::EnvSustain => 9,
            ParamId::EnvRelease => 10,
            ParamId::EnvCurve => 11,
            ParamId::LfoEnabled => 12,
            ParamId::LfoWaveform => 13,
            ParamId::LfoRateHz => 14,
            ParamId::LfoAmount => 15,
            ParamId::LfoTarget => 16,
            ParamId::LfoRetrigger => 17,
            ParamId::EqLowEnabled => 18,
            ParamId::EqLowFreq => 19,
            ParamId::EqLowType => 20,
            ParamId::EqMidEnabled => 21,
            ParamId::EqMidFreq => 22,
            ParamId::EqMidType => 23,
            ParamId::EqHighEnabled => 24,
            ParamId::EqHighFreq => 25,
            ParamId::EqHighType => 26,
            ParamId::EqLowGainDb => 27,
            ParamId::EqLowQ => 28,
            ParamId::EqMidGainDb => 29,
            ParamId::EqMidQ => 30,
            ParamId::EqHighGainDb => 31,
            ParamId::EqHighQ => 32,
            ParamId::FormulaProgram => 33,
            ParamId::FormulaMacro1 => 34,
            ParamId::FormulaMacro2 => 35,
            ParamId::FormulaMacro3 => 36,
            ParamId::FormulaMacro4 => 37,
            ParamId::FormulaMacro5 => 38,
            ParamId::FormulaMacro6 => 39,
            ParamId::FormulaMacro7 => 40,
            ParamId::FormulaMacro8 => 41,
            ParamId::FormulaOutputGain => 42,
            ParamId::FormulaOversampling => 43,
            ParamId::FormulaDcBlock => 44,
            ParamId::PianoTone => 45,
            ParamId::PianoBrightness => 46,
            ParamId::PianoHammerHardness => 47,
            ParamId::PianoHammerNoise => 48,
            ParamId::PianoInharmonicity => 49,
            ParamId::PianoDecay => 50,
            ParamId::PianoRelease => 51,
            ParamId::PianoBodyAmount => 52,
            ParamId::PianoStereoWidth => 53,
            ParamId::PianoSympatheticAmount => 54,
            ParamId::PianoPedalResonance => 55,
            ParamId::PianoMasterGain => 56,
            ParamId::ReverbMix => 57,
            ParamId::ReverbRoomSize => 58,
            ParamId::ReverbDecay => 59,
            ParamId::ReverbPreDelay => 60,
            ParamId::ReverbDiffusion => 61,
            ParamId::ReverbDamping => 62,
            ParamId::ReverbLowCut => 63,
            ParamId::ReverbHighCut => 64,
            ParamId::ReverbModRate => 65,
            ParamId::ReverbModDepth => 66,
            ParamId::ReverbWidth => 67,
            ParamId::ReverbEarlyLateMix => 68,
            ParamId::ReverbOutputGain => 69,
            ParamId::LimiterInputGain => 70,
            ParamId::LimiterThreshold => 71,
            ParamId::LimiterCeiling => 72,
            ParamId::LimiterRelease => 73,
            ParamId::LimiterLookahead => 74,
            ParamId::LimiterStereoLink => 75,
            ParamId::LimiterTruePeak => 76,
            ParamId::LimiterOutputGain => 77,
            ParamId::CompressorInputGain => 78,
            ParamId::CompressorThreshold => 79,
            ParamId::CompressorRatio => 80,
            ParamId::CompressorKnee => 81,
            ParamId::CompressorAttack => 82,
            ParamId::CompressorRelease => 83,
            ParamId::CompressorMakeupGain => 84,
            ParamId::CompressorMix => 85,
            ParamId::CompressorDetectorMode => 86,
            ParamId::CompressorStereoLink => 87,
            ParamId::CompressorSidechainHpf => 88,
            ParamId::DrumKickLevel => 89,
            ParamId::DrumSnareLevel => 90,
            ParamId::DrumTomLevel => 91,
            ParamId::DrumHatLevel => 92,
            ParamId::DrumCymbalLevel => 93,
            ParamId::DrumTuning => 94,
            ParamId::DrumDecay => 95,
            ParamId::DrumTone => 96,
            ParamId::DrumSnareWire => 97,
            ParamId::DrumRoomAmount => 98,
            ParamId::DrumStereoWidth => 99,
            ParamId::DrumMasterGain => 100,
            ParamId::VcslMasterGain => 101,
            ParamId::VcslTone => 102,
            ParamId::VcslVelocityCurve => 103,
            ParamId::VcslReleaseLevel => 104,
            ParamId::VcslReleaseTime => 105,
            ParamId::VcslStereoWidth => 106,
            ParamId::SamplerMasterGain => 107,
            ParamId::SamplerRootNote => 108,
            ParamId::SamplerTune => 109,
            ParamId::SamplerOffset => 110,
            ParamId::SamplerVelocityCurve => 111,
            ParamId::SamplerReleaseTime => 112,
            ParamId::SamplerStereoWidth => 113,
            ParamId::SamplerLoopMode => 114,
            ParamId::SamplerLoopStart => 115,
            ParamId::SamplerLoopEnd => 116,
            ParamId::SamplerLoopXfade => 117,
            ParamId::SamplerUnisonVoices => 118,
            ParamId::SamplerUnisonDetune => 119,
            ParamId::SamplerUnisonSpread => 120,
            ParamId::DiffuserMix => 121,
            ParamId::DiffuserDiffusion => 122,
            ParamId::DiffuserSize => 123,
            ParamId::DiffuserWidth => 124,
            ParamId::DiffuserOutputGain => 125,
            ParamId::DiffuserAllpassCount => 126,
        }
    }

    /// Returns the stable wire code of this parameter.
    pub fn to_u32(self) -> (r: u32)
        ensures
            r == self.code_of(),
    {
        match self {
            ParamId::MasterGain => 0,
            ParamId::MaxPolyphony => 1,
            ParamId::GeneratorKind => 2,
            ParamId::GeneratorGain => 10,
            ParamId::GeneratorPulseWidth => 11,
            ParamId::GeneratorPhaseOffset => 12,
            ParamId::GeneratorPan => 13,
            ParamId::EnvAttack => 20,
            ParamId::EnvDecay => 21,
            ParamId::EnvSustain => 22,
            ParamId::EnvRelease => 23,
            ParamId::EnvCurve => 24,
            ParamId::LfoEnabled => 30,
            ParamId::LfoWaveform => 31,
            ParamId::LfoRateHz => 32,
            ParamId::LfoAmount => 33,
            ParamId::LfoTarget => 34,
            ParamId::LfoRetrigger => 35,
            ParamId::EqLowEnabled => 40,
            ParamId::EqLowFreq => 41,
            ParamId::EqLowType => 42,
            ParamId::EqMidEnabled => 43,
            ParamId::EqMidFreq => 44,
            ParamId::EqMidType => 45,
            ParamId::EqHighEnabled => 46,
            ParamId::EqHighFreq => 47,
            ParamId::EqHighType => 48,
            ParamId::EqLowGainDb => 49,
            ParamId::EqLowQ => 50,
            ParamId::EqMidGainDb => 51,
            ParamId::EqMidQ => 52,
            ParamId::EqHighGainDb => 53,
            ParamId::EqHighQ => 54,
            ParamId::FormulaProgram => 60,
            ParamId::FormulaMacro1 => 61,
            ParamId::FormulaMacro2 => 62,
            ParamId::FormulaMacro3 => 63,
            ParamId::FormulaMacro4 => 64,
            ParamId::FormulaMacro5 => 65,
            ParamId::FormulaMacro6 => 66,
            ParamId::FormulaMacro7 => 67,
            ParamId::FormulaMacro8 => 68,
            ParamId::FormulaOutputGain => 69,
            ParamId::FormulaOversampling => 70,
            ParamId::FormulaDcBlock => 71,
            ParamId::PianoTone => 80,
            ParamId::PianoBrightness => 81,
            ParamId::PianoHammerHardness => 82,
            ParamId::PianoHammerNoise => 83,
            ParamId::PianoInharmonicity => 84,
            ParamId::PianoDecay => 85,
            ParamId::PianoRelease => 86,
            ParamId::PianoBodyAmount => 87,
            ParamId::PianoStereoWidth => 88,
            ParamId::PianoSympatheticAmount => 89,
            ParamId::PianoPedalResonance => 90,
            ParamId::PianoMasterGain => 91,
            ParamId::ReverbMix => 100,
            ParamId::ReverbRoomSize => 101,
            ParamId::ReverbDecay => 102,
            ParamId::ReverbPreDelay => 103,
            ParamId::ReverbDiffusion => 104,
            ParamId::ReverbDamping => 105,
            ParamId::ReverbLowCut => 106,
            ParamId::ReverbHighCut => 107,
            ParamId::ReverbModRate => 108,
            ParamId::ReverbModDepth => 109,
            ParamId::ReverbWidth => 110,
            ParamId::ReverbEarlyLateMix => 111,
            ParamId::ReverbOutputGain => 112,
            ParamId::LimiterInputGain => 120,
            ParamId::LimiterThreshold => 121,
            ParamId::LimiterCeiling => 122,
            ParamId::LimiterRelease => 123,
            ParamId::LimiterLookahead => 124,
            ParamId::LimiterStereoLink => 125,
            ParamId::LimiterTruePeak => 126,
            ParamId::LimiterOutputGain => 127,
            ParamId::CompressorInputGain => 140,
            ParamId::CompressorThreshold => 141,
            ParamId::CompressorRatio => 142,
            ParamId::CompressorKnee => 143,
            ParamId::CompressorAttack => 144,
            ParamId::CompressorRelease => 145,
            ParamId::CompressorMakeupGain => 146,
            ParamId::CompressorMix => 147,
            ParamId::CompressorDetectorMode => 148,
            ParamId::CompressorStereoLink => 149,
            ParamId::CompressorSidechainHpf => 150,
            ParamId::DrumKickLevel => 160,
            ParamId::DrumSnareLevel => 161,
            ParamId::DrumTomLevel => 162,
            ParamId::DrumHatLevel => 163,
            ParamId::DrumCymbalLevel => 164,
            ParamId::DrumTuning => 165,
            ParamId::DrumDecay => 166,
            ParamId::DrumTone => 167,
            ParamId::DrumSnareWire => 168,
            ParamId::DrumRoomAmount => 169,
            ParamId::DrumStereoWidth => 170,
            ParamId::DrumMasterGain => 171,
            ParamId::VcslMasterGain => 180,
            ParamId::VcslTone => 181,
            ParamId::VcslVelocityCurve => 182,
            ParamId::VcslReleaseLevel => 183,
            ParamId::VcslReleaseTime => 184,
            ParamId::VcslStereoWidth => 185,
            ParamId::SamplerMasterGain => 200,
            ParamId::SamplerRootNote => 201,
            ParamId::SamplerTune => 202,
            ParamId::SamplerOffset => 203,
            ParamId::SamplerVelocityCurve => 204,
            ParamId::SamplerReleaseTime => 205,
            ParamId::SamplerStereoWidth => 206,
            ParamId::SamplerLoopMode => 207,
            ParamId::SamplerLoopStart => 208,
            ParamId::SamplerLoopEnd => 209,
            ParamId::SamplerLoopXfade => 210,
            ParamId::SamplerUnisonVoices => 211,
            ParamId::SamplerUnisonDetune => 212,
            ParamId::SamplerUnisonSpread => 213,
            ParamId::DiffuserMix => 220,
            ParamId::DiffuserDiffusion => 221,
            ParamId::DiffuserSize => 222,
            ParamId::DiffuserWidth => 223,
            ParamId::DiffuserOutputGain => 224,
            ParamId::DiffuserAllpassCount => 225,
        }
    }

    /// The parameter's unit.
    pub open spec fn unit_of(self) -> ParamUnit {
        match self {
            ParamId::MasterGain => ParamUnit::Linear,
            ParamId::MaxPolyphony => ParamUnit::Linear,
            ParamId::GeneratorKind => ParamUnit::Enum,
            ParamId::GeneratorGain => ParamUnit::Linear,
            ParamId::GeneratorPulseWidth => ParamUnit::Linear,
            ParamId::GeneratorPhaseOffset => ParamUnit::Linear,
            ParamId::GeneratorPan => ParamUnit::Linear,
            ParamId::EnvAttack => ParamUnit::Seconds,
            ParamId::EnvDecay => ParamUnit::Seconds,
            ParamId::EnvSustain => ParamUnit::Linear,
            ParamId::EnvRelease => ParamUnit::Seconds,
            ParamId::EnvCurve => ParamUnit::Enum,
            ParamId::LfoEnabled => ParamUnit::Boolean,
            ParamId::LfoWaveform => ParamUnit::Enum,
            ParamId::LfoRateHz => ParamUnit::Hertz,
            ParamId::LfoAmount => ParamUnit::Linear,
            ParamId::LfoTarget => ParamUnit::Enum,
            ParamId::LfoRetrigger => ParamUnit::Boolean,
            ParamId::EqLowEnabled => ParamUnit::Boolean,
            ParamId::EqLowFreq => ParamUnit::Hertz,
            ParamId::EqLowType => ParamUnit::Enum,
            ParamId::EqMidEnabled => ParamUnit::Boolean,
            ParamId::EqMidFreq => ParamUnit::Hertz,
            ParamId::EqMidType => ParamUnit::Enum,
            ParamId::EqHighEnabled => ParamUnit::Boolean,
            ParamId::EqHighFreq => ParamUnit::Hertz,
            ParamId::EqHighType => ParamUnit::Enum,
            ParamId::EqLowGainDb => ParamUnit::Linear,
            ParamId::EqLowQ => ParamUnit::Linear,
            ParamId::EqMidGainDb => ParamUnit::Linear,
            ParamId::EqMidQ => ParamUnit::Linear,
            ParamId::EqHighGainDb => ParamUnit::Linear,
            ParamId::EqHighQ => ParamUnit::Linear,
            ParamId::FormulaProgram => ParamUnit::Enum,
            ParamId::FormulaMacro1 => ParamUnit::Linear,
            ParamId::FormulaMacro2 => ParamUnit::Linear,
            ParamId::FormulaMacro3 => ParamUnit::Linear,
            ParamId::FormulaMacro4 => ParamUnit::Linear,
            ParamId::FormulaMacro5 => ParamUnit::Linear,
            ParamId::FormulaMacro6 => ParamUnit::Linear,
            ParamId::FormulaMacro7 => ParamUnit::Linear,
            ParamId::FormulaMacro8 => ParamUnit::Linear,
            ParamId::FormulaOutputGain => ParamUnit::Linear,
            ParamId::FormulaOversampling => ParamUnit::Enum,
            ParamId::FormulaDcBlock => ParamUnit::Boolean,
            ParamId::PianoTone => ParamUnit::Linear,
            ParamId::PianoBrightness => ParamUnit::Linear,
            ParamId::PianoHammerHardness => ParamUnit::Linear,
            ParamId::PianoHammerNoise => ParamUnit::Linear,
            ParamId::PianoInharmonicity => ParamUnit::Linear,
            ParamId::PianoDecay => ParamUnit::Seconds,
            ParamId::PianoRelease => ParamUnit::Seconds,
            ParamId::PianoBodyAmount => ParamUnit::Linear,
            ParamId::PianoStereoWidth => ParamUnit::Linear,
            ParamId::PianoSympatheticAmount => ParamUnit::Linear,
            ParamId::PianoPedalResonance => ParamUnit::Linear,
            ParamId::PianoMasterGain => ParamUnit::Linear,
            ParamId::ReverbMix => ParamUnit::Linear,
            ParamId::ReverbRoomSize => ParamUnit::Linear,
            ParamId::ReverbDecay => ParamUnit::Seconds,
            ParamId::ReverbPreDelay => ParamUnit::Linear,
            ParamId::ReverbDiffusion => ParamUnit::Linear,
            ParamId::ReverbDamping => ParamUnit::Linear,
            ParamId::ReverbLowCut => ParamUnit::Hertz,
            ParamId::ReverbHighCut => ParamUnit::Hertz,
            ParamId::ReverbModRate => ParamUnit::Hertz,
            ParamId::ReverbModDepth => ParamUnit::Linear,
            ParamId::ReverbWidth => ParamUnit::Linear,
            ParamId::ReverbEarlyLateMix => ParamUnit::Linear,
            ParamId::ReverbOutputGain => ParamUnit::Linear,
            ParamId::LimiterInputGain => ParamUnit::Linear,
            ParamId::LimiterThreshold => ParamUnit::Linear,
            ParamId::LimiterCeiling => ParamUnit::Linear,
            ParamId::LimiterRelease => ParamUnit::Linear,
            ParamId::LimiterLookahead => ParamUnit::Linear,
            ParamId::LimiterStereoLink => ParamUnit::Linear,
            ParamId::LimiterTruePeak => ParamUnit::Boolean,
            ParamId::LimiterOutputGain => ParamUnit::Linear,
            ParamId::CompressorInputGain => ParamUnit::Linear,
            ParamId::CompressorThreshold => ParamUnit::Linear,
            ParamId::CompressorRatio => ParamUnit::Linear,
            ParamId::CompressorKnee => ParamUnit::Linear,
            ParamId::CompressorAttack => ParamUnit::Linear,
            ParamId::CompressorRelease => ParamUnit::Linear,
            ParamId::CompressorMakeupGain => ParamUnit::Linear,
            ParamId::CompressorMix => ParamUnit::Linear,
            ParamId::CompressorDetectorMode => ParamUnit::Enum,
            ParamId::CompressorStereoLink => ParamUnit::Linear,
            ParamId::CompressorSidechainHpf => ParamUnit::Linear,
            ParamId::DrumKickLevel => ParamUnit::Linear,
            ParamId::DrumSnareLevel => ParamUnit::Linear,
            ParamId::DrumTomLevel => ParamUnit::Linear,
            ParamId::DrumHatLevel => ParamUnit::Linear,
            ParamId::DrumCymbalLevel => ParamUnit::Linear,
            ParamId::DrumTuning => ParamUnit::Linear,
            ParamId::DrumDecay => ParamUnit::Linear,
            ParamId::DrumTone => ParamUnit::Linear,
            ParamId::DrumSnareWire => ParamUnit::Linear,
            ParamId::DrumRoomAmount => ParamUnit::Linear,
            ParamId::DrumStereoWidth => ParamUnit::Linear,
            ParamId::DrumMasterGain => ParamUnit::Linear,
            ParamId::VcslMasterGain => ParamUnit::Linear,
            ParamId::VcslTone => ParamUnit::Linear,
            ParamId::VcslVelocityCurve => ParamUnit::Linear,
            ParamId::VcslReleaseLevel => ParamUnit::Linear,
            ParamId::VcslReleaseTime => ParamUnit::Seconds,
            ParamId::VcslStereoWidth => ParamUnit::Linear,
            ParamId::SamplerMasterGain => ParamUnit::Linear,
            ParamId::SamplerRootNote => ParamUnit::Linear,
            ParamId::SamplerTune => ParamUnit::Linear,
            ParamId::SamplerOffset => ParamUnit::Linear,
            ParamId::SamplerVelocityCurve => ParamUnit::Linear,
            ParamId::SamplerReleaseTime => ParamUnit::Seconds,
            ParamId::SamplerStereoWidth => ParamUnit::Linear,
            ParamId::SamplerLoopMode => ParamUnit::Enum,
            ParamId::SamplerLoopStart => ParamUnit::Linear,
            ParamId::SamplerLoopEnd => ParamUnit::Linear,
            ParamId::SamplerLoopXfade => ParamUnit::Seconds,
            ParamId::SamplerUnisonVoices => ParamUnit::Linear,
            ParamId::SamplerUnisonDetune => ParamUnit::Linear,
            ParamId::SamplerUnisonSpread => ParamUnit::Linear,
            ParamId::DiffuserMix => ParamUnit::Linear,
            ParamId::DiffuserDiffusion => ParamUnit::Linear,
            ParamId::DiffuserSize => ParamUnit::Linear,
            ParamId::DiffuserWidth => ParamUnit::Linear,
            ParamId::DiffuserOutputGain => ParamUnit::Linear,
            ParamId::DiffuserAllpassCount => ParamUnit::Linear,
        }
    }

    /// Returns the parameter's unit.
    pub fn unit(self) -> (r: ParamUnit)
        ensures
            r == self.unit_of(),
    {
        match self {
            ParamId::MasterGain => ParamUnit::Linear,
            ParamId::MaxPolyphony => ParamUnit::Linear,
            ParamId::GeneratorKind => ParamUnit::Enum,
            ParamId::GeneratorGain => ParamUnit::Linear,
            ParamId::GeneratorPulseWidth => ParamUnit::Linear,
            ParamId::GeneratorPhaseOffset => ParamUnit::Linear,
            ParamId::GeneratorPan => ParamUnit::Linear,
            ParamId::EnvAttack => ParamUnit::Seconds,
            ParamId::EnvDecay => ParamUnit::Seconds,
            ParamId::EnvSustain => ParamUnit::Linear,
            ParamId::EnvRelease => ParamUnit::Seconds,
            ParamId::EnvCurve => ParamUnit::Enum,
            ParamId::LfoEnabled => ParamUnit::Boolean,
            ParamId::LfoWaveform => ParamUnit::Enum,
            ParamId::LfoRateHz => ParamUnit::Hertz,
            ParamId::LfoAmount => ParamUnit::Linear,
            ParamId::LfoTarget => ParamUnit::Enum,
            ParamId::LfoRetrigger => ParamUnit::Boolean,
            ParamId::EqLowEnabled => ParamUnit::Boolean,
            ParamId::EqLowFreq => ParamUnit::Hertz,
            ParamId::EqLowType => ParamUnit::Enum,
            ParamId::EqMidEnabled => ParamUnit::Boolean,
            ParamId::EqMidFreq => ParamUnit::Hertz,
            ParamId::EqMidType => ParamUnit::Enum,
            ParamId::EqHighEnabled => ParamUnit::Boolean,
            ParamId::EqHighFreq => ParamUnit::Hertz,
            ParamId::EqHighType => ParamUnit::Enum,
            ParamId::EqLowGainDb => ParamUnit::Linear,
            ParamId::EqLowQ => ParamUnit::Linear,
            ParamId::EqMidGainDb => ParamUnit::Linear,
            ParamId::EqMidQ => ParamUnit::Linear,
            ParamId::EqHighGainDb => ParamUnit::Linear,
            ParamId::EqHighQ => ParamUnit::Linear,
            ParamId::FormulaProgram => ParamUnit::Enum,
            ParamId::FormulaMacro1 => ParamUnit::Linear,
            ParamId::FormulaMacro2 => ParamUnit::Linear,
            ParamId::FormulaMacro3 => ParamUnit::Linear,
            ParamId::FormulaMacro4 => ParamUnit::Linear,
            ParamId::FormulaMacro5 => ParamUnit::Linear,
            ParamId::FormulaMacro6 => ParamUnit::Linear,
            ParamId::FormulaMacro7 => ParamUnit::Linear,
            ParamId::FormulaMacro8 => ParamUnit::Linear,
            ParamId::FormulaOutputGain => ParamUnit::Linear,
            ParamId::FormulaOversampling => ParamUnit::Enum,
            ParamId::FormulaDcBlock => ParamUnit::Boolean,
            ParamId::PianoTone => ParamUnit::Linear,
            ParamId::PianoBrightness => ParamUnit::Linear,
            ParamId::PianoHammerHardness => ParamUnit::Linear,
            ParamId::PianoHammerNoise => ParamUnit::Linear,
            ParamId::PianoInharmonicity => ParamUnit::Linear,
            ParamId::PianoDecay => ParamUnit::Seconds,
            ParamId::PianoRelease => ParamUnit::Seconds,
            ParamId::PianoBodyAmount => ParamUnit::Linear,
            ParamId::PianoStereoWidth => ParamUnit::Linear,
            ParamId::PianoSympatheticAmount => ParamUnit::Linear,
            ParamId::PianoPedalResonance => ParamUnit::Linear,
            ParamId::PianoMasterGain => ParamUnit::Linear,
            ParamId::ReverbMix => ParamUnit::Linear,
            ParamId::ReverbRoomSize => ParamUnit::Linear,
            ParamId::ReverbDecay => ParamUnit::Seconds,
            ParamId::ReverbPreDelay => ParamUnit::Linear,
            ParamId::ReverbDiffusion => ParamUnit::Linear,
            ParamId::ReverbDamping => ParamUnit::Linear,
            ParamId::ReverbLowCut => ParamUnit::Hertz,
            ParamId::ReverbHighCut => ParamUnit::Hertz,
            ParamId::ReverbModRate => ParamUnit::Hertz,
            ParamId::ReverbModDepth => ParamUnit::Linear,
            ParamId::ReverbWidth => ParamUnit::Linear,
            ParamId::ReverbEarlyLateMix => ParamUnit::Linear,
            ParamId::ReverbOutputGain => ParamUnit::Linear,
            ParamId::LimiterInputGain => ParamUnit::Linear,
            ParamId::LimiterThreshold => ParamUnit::Linear,
            ParamId::LimiterCeiling => ParamUnit::Linear,
            ParamId::LimiterRelease => ParamUnit::Linear,
            ParamId::LimiterLookahead => ParamUnit::Linear,
            ParamId::LimiterStereoLink => ParamUnit::Linear,
            ParamId::LimiterTruePeak => ParamUnit::Boolean,
            ParamId::LimiterOutputGain => ParamUnit::Linear,
            ParamId::CompressorInputGain => ParamUnit::Linear,
            ParamId::CompressorThreshold => ParamUnit::Linear,
            ParamId::CompressorRatio => ParamUnit::Linear,
            ParamId::CompressorKnee => ParamUnit::Linear,
            ParamId::CompressorAttack => ParamUnit::Linear,
            ParamId::CompressorRelease => ParamUnit::Linear,
            ParamId::CompressorMakeupGain => ParamUnit::Linear,
            ParamId::CompressorMix => ParamUnit::Linear,
            ParamId::CompressorDetectorMode => ParamUnit::Enum,
            ParamId::CompressorStereoLink => ParamUnit::Linear,
            ParamId::CompressorSidechainHpf => ParamUnit::Linear,
            ParamId::DrumKickLevel => ParamUnit::Linear,
            ParamId::DrumSnareLevel => ParamUnit::Linear,
            ParamId::DrumTomLevel => ParamUnit::Linear,
            ParamId::DrumHatLevel => ParamUnit::Linear,
            ParamId::DrumCymbalLevel => ParamUnit::Linear,
            ParamId::DrumTuning => ParamUnit::Linear,
            ParamId::DrumDecay => ParamUnit::Linear,
            ParamId::DrumTone => ParamUnit::Linear,
            ParamId::DrumSnareWire => ParamUnit::Linear,
            ParamId::DrumRoomAmount => ParamUnit::Linear,
            ParamId::DrumStereoWidth => ParamUnit::Linear,
            ParamId::DrumMasterGain => ParamUnit::Linear,
            ParamId::VcslMasterGain => ParamUnit::Linear,
            ParamId::VcslTone => ParamUnit::Linear,
            ParamId::VcslVelocityCurve => ParamUnit::Linear,
            ParamId::VcslReleaseLevel => ParamUnit::Linear,
            ParamId::VcslReleaseTime => ParamUnit::Seconds,
            ParamId::VcslStereoWidth => ParamUnit::Linear,
            ParamId::SamplerMasterGain => ParamUnit::Linear,
            ParamId::SamplerRootNote => ParamUnit::Linear,
            ParamId::SamplerTune => ParamUnit::Linear,
            ParamId::SamplerOffset => ParamUnit::Linear,
            ParamId::SamplerVelocityCurve => ParamUnit::Linear,
            ParamId::SamplerReleaseTime => ParamUnit::Seconds,
            ParamId::SamplerStereoWidth => ParamUnit::Linear,
            ParamId::SamplerLoopMode => ParamUnit::Enum,
            ParamId::SamplerLoopStart => ParamUnit::Linear,
            ParamId::SamplerLoopEnd => ParamUnit::Linear,
            ParamId::SamplerLoopXfade => ParamUnit::Seconds,
            ParamId::SamplerUnisonVoices => ParamUnit::Linear,
            ParamId::SamplerUnisonDetune => ParamUnit::Linear,
            ParamId::SamplerUnisonSpread => ParamUnit::Linear,
            ParamId::DiffuserMix => ParamUnit::Linear,
            ParamId::DiffuserDiffusion => ParamUnit::Linear,
            ParamId::DiffuserSize => ParamUnit::Linear,
            ParamId::DiffuserWidth => ParamUnit::Linear,
            ParamId::DiffuserOutputGain => ParamUnit::Linear,
            ParamId::DiffuserAllpassCount => ParamUnit::Linear,
        }
    }

    /// Number of valid integer values `0..n` of an `Enum`/`Boolean`
    /// parameter; `None` for continuous parameters.
    pub open spec fn step_count_of(self) -> Option<u32> {
        match self {
            ParamId::MasterGain => None,
            ParamId::MaxPolyphony => None,
            ParamId::GeneratorKind => Some(GeneratorKind::VARIANT_COUNT),
            ParamId::GeneratorGain => None,
            ParamId::GeneratorPulseWidth => None,
            ParamId::GeneratorPhaseOffset => None,
            ParamId::GeneratorPan => None,
            ParamId::EnvAttack => None,
            ParamId::EnvDecay => None,
            ParamId::EnvSustain => None,
            ParamId::EnvRelease => None,
            ParamId::EnvCurve => Some(EnvelopeCurve::VARIANT_COUNT),
            ParamId::LfoEnabled => Some(2),
            ParamId::LfoWaveform => Some(LfoWaveform::VARIANT_COUNT),
            ParamId::LfoRateHz => None,
            ParamId::LfoAmount => None,
            ParamId::LfoTarget => Some(LfoTarget::VARIANT_COUNT),
            ParamId::LfoRetrigger => Some(2),
            ParamId::EqLowEnabled => Some(2),
            ParamId::EqLowFreq => None,
            ParamId::EqLowType => Some(ButterworthKind::VARIANT_COUNT),
            ParamId::EqMidEnabled => Some(2),
            ParamId::EqMidFreq => None,
            ParamId::EqMidType => Some(ButterworthKind::VARIANT_COUNT),
            ParamId::EqHighEnabled => Some(2),
            ParamId::EqHighFreq => None,
            ParamId::EqHighType => Some(ButterworthKind::VARIANT_COUNT),
            ParamId::EqLowGainDb => None,
            ParamId::EqLowQ => None,
            ParamId::EqMidGainDb => None,
            ParamId::EqMidQ => None,
            ParamId::EqHighGainDb => None,
            ParamId::EqHighQ => None,
            ParamId::FormulaProgram => Some(FormulaProgramId::VARIANT_COUNT),
            ParamId::FormulaMacro1 => None,
            ParamId::FormulaMacro2 => None,
            ParamId::FormulaMacro3 => None,
            ParamId::FormulaMacro4 => None,
            ParamId::FormulaMacro5 => None,
            ParamId::FormulaMacro6 => None,
            ParamId::FormulaMacro7 => None,
            ParamId::FormulaMacro8 => None,
            ParamId::FormulaOutputGain => None,
            ParamId::FormulaOversampling => Some(3),
            ParamId::FormulaDcBlock => Some(2),
            ParamId::PianoTone => None,
            ParamId::PianoBrightness => None,
            ParamId::PianoHammerHardness => None,
            ParamId::PianoHammerNoise => None,
            ParamId::PianoInharmonicity => None,
            ParamId::PianoDecay => None,
            ParamId::PianoRelease => None,
            ParamId::PianoBodyAmount => None,
            ParamId::PianoStereoWidth => None,
            ParamId::PianoSympatheticAmount => None,
            ParamId::PianoPedalResonance => None,
            ParamId::PianoMasterGain => None,
            ParamId::ReverbMix => None,
            ParamId::ReverbRoomSize => None,
            ParamId::ReverbDecay => None,
            ParamId::ReverbPreDelay => None,
            ParamId::ReverbDiffusion => None,
            ParamId::ReverbDamping => None,
            ParamId::ReverbLowCut => None,
            ParamId::ReverbHighCut => None,
            ParamId::ReverbModRate => None,
            ParamId::ReverbModDepth => None,
            ParamId::ReverbWidth => None,
            ParamId::ReverbEarlyLateMix => None,
            ParamId::ReverbOutputGain => None,
            ParamId::LimiterInputGain => None,
            ParamId::LimiterThreshold => None,
            ParamId::LimiterCeiling => None,
            ParamId::LimiterRelease => None,
            ParamId::LimiterLookahead => None,
            ParamId::LimiterStereoLink => None,
            ParamId::LimiterTruePeak => Some(2),
            ParamId::LimiterOutputGain => None,
            ParamId::CompressorInputGain => None,
            ParamId::CompressorThreshold => None,
            ParamId::CompressorRatio => None,
            ParamId::CompressorKnee => None,
            ParamId::CompressorAttack => None,
            ParamId::CompressorRelease => None,
            ParamId::CompressorMakeupGain => None,
            ParamId::CompressorMix => None,
            ParamId::CompressorDetectorMode => Some(DetectorMode::VARIANT_COUNT),
            ParamId::CompressorStereoLink => None,
            ParamId::CompressorSidechainHpf => None,
            ParamId::DrumKickLevel => None,
            ParamId::DrumSnareLevel => None,
            ParamId::DrumTomLevel => None,
            ParamId::DrumHatLevel => None,
            ParamId::DrumCymbalLevel => None,
            ParamId::DrumTuning => None,
            ParamId::DrumDecay => None,
            ParamId::DrumTone => None,
            ParamId::DrumSnareWire => None,
            ParamId::DrumRoomAmount => None,
            ParamId::DrumStereoWidth => None,
            ParamId::DrumMasterGain => None,
            ParamId::VcslMasterGain => None,
            ParamId::VcslTone => None,
            ParamId::VcslVelocityCurve => None,
            ParamId::VcslReleaseLevel => None,
            ParamId::VcslReleaseTime => None,
            ParamId::VcslStereoWidth => None,
            ParamId::SamplerMasterGain => None,
            ParamId::SamplerRootNote => None,
            ParamId::SamplerTune => None,
            ParamId::SamplerOffset => None,
            ParamId::SamplerVelocityCurve => None,
            ParamId::SamplerReleaseTime => None,
            ParamId::SamplerStereoWidth => None,
            ParamId::SamplerLoopMode => Some(LoopMode::VARIANT_COUNT),
            ParamId::SamplerLoopStart => None,
            ParamId::SamplerLoopEnd => None,
            ParamId::SamplerLoopXfade => None,
            ParamId::SamplerUnisonVoices => None,
            ParamId::SamplerUnisonDetune => None,
            ParamId::SamplerUnisonSpread => None,
            ParamId::DiffuserMix => None,
            ParamId::DiffuserDiffusion => None,
            ParamId::DiffuserSize => None,
            ParamId::DiffuserWidth => None,
            ParamId::DiffuserOutputGain => None,
            ParamId::DiffuserAllpassCount => None,
        }
    }

    /// Returns the parameter's step count (see [`ParamId::step_count_of`]).
    pub fn step_count(self) -> (r: Option<u32>)
        ensures
            r == self.step_count_of(),
    {
        match self {
            ParamId::MasterGain => None,
            ParamId::MaxPolyphony => None,
            ParamId::GeneratorKind => Some(GeneratorKind::VARIANT_COUNT),
            ParamId::GeneratorGain => None,
            ParamId::GeneratorPulseWidth => None,
            ParamId::GeneratorPhaseOffset => None,
            ParamId::GeneratorPan => None,
            ParamId::EnvAttack => None,
            ParamId::EnvDecay => None,
            ParamId::EnvSustain => None,
            ParamId::EnvRelease => None,
            ParamId::EnvCurve => Some(EnvelopeCurve::VARIANT_COUNT),
            ParamId::LfoEnabled => Some(2),
            ParamId::LfoWaveform => Some(LfoWaveform::VARIANT_COUNT),
            ParamId::LfoRateHz => None,
            ParamId::LfoAmount => None,
            ParamId::LfoTarget => Some(LfoTarget::VARIANT_COUNT),
            ParamId::LfoRetrigger => Some(2),
            ParamId::EqLowEnabled => Some(2),
            ParamId::EqLowFreq => None,
            ParamId::EqLowType => Some(ButterworthKind::VARIANT_COUNT),
            ParamId::EqMidEnabled => Some(2),
            ParamId::EqMidFreq => None,
            ParamId::EqMidType => Some(ButterworthKind::VARIANT_COUNT),
            ParamId::EqHighEnabled => Some(2),
            ParamId::EqHighFreq => None,
            ParamId::EqHighType => Some(ButterworthKind::VARIANT_COUNT),
            ParamId::EqLowGainDb => None,
            ParamId::EqLowQ => None,
            ParamId::EqMidGainDb => None,
            ParamId::EqMidQ => None,
            ParamId::EqHighGainDb => None,
            ParamId::EqHighQ => None,
            ParamId::FormulaProgram => Some(FormulaProgramId::VARIANT_COUNT),
            ParamId::FormulaMacro1 => None,
            ParamId::FormulaMacro2 => None,
            ParamId::FormulaMacro3 => None,
            ParamId::FormulaMacro4 => None,
            ParamId::FormulaMacro5 => None,
            ParamId::FormulaMacro6 => None,
            ParamId::FormulaMacro7 => None,
            ParamId::FormulaMacro8 => None,
            ParamId::FormulaOutputGain => None,
            ParamId::FormulaOversampling => Some(3),
            ParamId::FormulaDcBlock => Some(2),
            ParamId::PianoTone => None,
            ParamId::PianoBrightness => None,
            ParamId::PianoHammerHardness => None,
            ParamId::PianoHammerNoise => None,
            ParamId::PianoInharmonicity => None,
            ParamId::PianoDecay => None,
            ParamId::PianoRelease => None,
            ParamId::PianoBodyAmount => None,
            ParamId::PianoStereoWidth => None,
            ParamId::PianoSympatheticAmount => None,
            ParamId::PianoPedalResonance => None,
            ParamId::PianoMasterGain => None,
            ParamId::ReverbMix => None,
            ParamId::ReverbRoomSize => None,
            ParamId::ReverbDecay => None,
            ParamId::ReverbPreDelay => None,
            ParamId::ReverbDiffusion => None,
            ParamId::ReverbDamping => None,
            ParamId::ReverbLowCut => None,
            ParamId::ReverbHighCut => None,
            ParamId::ReverbModRate => None,
            ParamId::ReverbModDepth => None,
            ParamId::ReverbWidth => None,
            ParamId::ReverbEarlyLateMix => None,
            ParamId::ReverbOutputGain => None,
            ParamId::LimiterInputGain => None,
            ParamId::LimiterThreshold => None,
            ParamId::LimiterCeiling => None,
            ParamId::LimiterRelease => None,
            ParamId::LimiterLookahead => None,
            ParamId::LimiterStereoLink => None,
            ParamId::LimiterTruePeak => Some(2),
            ParamId::LimiterOutputGain => None,
            ParamId::CompressorInputGain => None,
            ParamId::CompressorThreshold => None,
            ParamId::CompressorRatio => None,
            ParamId::CompressorKnee => None,
            ParamId::CompressorAttack => None,
            ParamId::CompressorRelease => None,
            ParamId::CompressorMakeupGain => None,
            ParamId::CompressorMix => None,
            ParamId::CompressorDetectorMode => Some(DetectorMode::VARIANT_COUNT),
            ParamId::CompressorStereoLink => None,
            ParamId::CompressorSidechainHpf => None,
            ParamId::DrumKickLevel => None,
            ParamId::DrumSnareLevel => None,
            ParamId::DrumTomLevel => None,
            ParamId::DrumHatLevel => None,
            ParamId::DrumCymbalLevel => None,
            ParamId::DrumTuning => None,
            ParamId::DrumDecay => None,
            ParamId::DrumTone => None,
            ParamId::DrumSnareWire => None,
            ParamId::DrumRoomAmount => None,
            ParamId::DrumStereoWidth => None,
            ParamId::DrumMasterGain => None,
            ParamId::VcslMasterGain => None,
            ParamId::VcslTone => None,
            ParamId::VcslVelocityCurve => None,
            ParamId::VcslReleaseLevel => None,
            ParamId::VcslReleaseTime => None,
            ParamId::VcslStereoWidth => None,
            ParamId::SamplerMasterGain => None,
            ParamId::SamplerRootNote => None,
            ParamId::SamplerTune => None,
            ParamId::SamplerOffset => None,
            ParamId::SamplerVelocityCurve => None,
            ParamId::SamplerReleaseTime => None,
            ParamId::SamplerStereoWidth => None,
            ParamId::SamplerLoopMode => Some(LoopMode::VARIANT_COUNT),
            ParamId::SamplerLoopStart => None,
            ParamId::SamplerLoopEnd => None,
            ParamId::SamplerLoopXfade => None,
            ParamId::SamplerUnisonVoices => None,
            ParamId::SamplerUnisonDetune => None,
            ParamId::SamplerUnisonSpread => None,
            ParamId::DiffuserMix => None,
            ParamId::DiffuserDiffusion => None,
            ParamId::DiffuserSize => None,
            ParamId::DiffuserWidth => None,
            ParamId::DiffuserOutputGain => None,
            ParamId::DiffuserAllpassCount => None,
        }
    }

    /// The parameter's stable name.
    pub open spec fn name_of(self) -> &'static str {
        match self {
            ParamId::MasterGain => "master_gain",
            ParamId::MaxPolyphony => "max_polyphony",
            ParamId::GeneratorKind => "generator_kind",
            ParamId::GeneratorGain => "generator_gain",
            ParamId::GeneratorPulseWidth => "generator_pulse_width",
            ParamId::GeneratorPhaseOffset => "generator_phase_offset",
            ParamId::GeneratorPan => "generator_pan",
            ParamId::EnvAttack => "env_attack",
            ParamId::EnvDecay => "env_decay",
            ParamId::EnvSustain => "env_sustain",
            ParamId::EnvRelease => "env_release",
            ParamId::EnvCurve => "env_curve",
            ParamId::LfoEnabled => "lfo_enabled",
            ParamId::LfoWaveform => "lfo_waveform",
            ParamId::LfoRateHz => "lfo_rate_hz",
            ParamId::LfoAmount => "lfo_amount",
            ParamId::LfoTarget => "lfo_target",
            ParamId::LfoRetrigger => "lfo_retrigger",
            ParamId::EqLowEnabled => "eq_low_enabled",
            ParamId::EqLowFreq => "eq_low_freq",
            ParamId::EqLowType => "eq_low_type",
            ParamId::EqMidEnabled => "eq_mid_enabled",
            ParamId::EqMidFreq => "eq_mid_freq",
            ParamId::EqMidType => "eq_mid_type",
            ParamId::EqHighEnabled => "eq_high_enabled",
            ParamId::EqHighFreq => "eq_high_freq",
            ParamId::EqHighType => "eq_high_type",
            ParamId::EqLowGainDb => "eq_low_gain_db",
            ParamId::EqLowQ => "eq_low_q",
            ParamId::EqMidGainDb => "eq_mid_gain_db",
            ParamId::EqMidQ => "eq_mid_q",
            ParamId::EqHighGainDb => "eq_high_gain_db",
            ParamId::EqHighQ => "eq_high_q",
            ParamId::FormulaProgram => "formula_program",
            ParamId::FormulaMacro1 => "formula_macro_1",
            ParamId::FormulaMacro2 => "formula_macro_2",
            ParamId::FormulaMacro3 => "formula_macro_3",
            ParamId::FormulaMacro4 => "formula_macro_4",
            ParamId::FormulaMacro5 => "formula_macro_5",
            ParamId::FormulaMacro6 => "formula_macro_6",
            ParamId::FormulaMacro7 => "formula_macro_7",
            ParamId::FormulaMacro8 => "formula_macro_8",
            ParamId::FormulaOutputGain => "formula_output_gain",
            ParamId::FormulaOversampling => "formula_oversampling",
            ParamId::FormulaDcBlock => "formula_dc_block",
            ParamId::PianoTone => "piano_tone",
            ParamId::PianoBrightness => "piano_brightness",
            ParamId::PianoHammerHardness => "piano_hammer_hardness",
            ParamId::PianoHammerNoise => "piano_hammer_noise",
            ParamId::PianoInharmonicity => "piano_inharmonicity",
            ParamId::PianoDecay => "piano_decay",
            ParamId::PianoRelease => "piano_release",
            ParamId::PianoBodyAmount => "piano_body_amount",
            ParamId::PianoStereoWidth => "piano_stereo_width",
            ParamId::PianoSympatheticAmount => "piano_sympathetic_amount",
            ParamId::PianoPedalResonance => "piano_pedal_resonance",
            ParamId::PianoMasterGain => "piano_master_gain",
            ParamId::ReverbMix => "reverb_mix",
            ParamId::ReverbRoomSize => "reverb_room_size",
            ParamId::ReverbDecay => "reverb_decay",
            ParamId::ReverbPreDelay => "reverb_pre_delay",
            ParamId::ReverbDiffusion => "reverb_diffusion",
            ParamId::ReverbDamping => "reverb_damping",
            ParamId::ReverbLowCut => "reverb_low_cut",
            ParamId::ReverbHighCut => "reverb_high_cut",
            ParamId::ReverbModRate => "reverb_mod_rate",
            ParamId::ReverbModDepth => "reverb_mod_depth",
            ParamId::ReverbWidth => "reverb_width",
            ParamId::ReverbEarlyLateMix => "reverb_early_late_mix",
            ParamId::ReverbOutputGain => "reverb_output_gain",
            ParamId::LimiterInputGain => "limiter_input_gain",
            ParamId::LimiterThreshold => "limiter_threshold",
            ParamId::LimiterCeiling => "limiter_ceiling",
            ParamId::LimiterRelease => "limiter_release",
            ParamId::LimiterLookahead => "limiter_lookahead",
            ParamId::LimiterStereoLink => "limiter_stereo_link",
            ParamId::LimiterTruePeak => "limiter_true_peak",
            ParamId::LimiterOutputGain => "limiter_output_gain",
            ParamId::CompressorInputGain => "compressor_input_gain",
            ParamId::CompressorThreshold => "compressor_threshold",
            ParamId::CompressorRatio => "compressor_ratio",
            ParamId::CompressorKnee => "compressor_knee",
            ParamId::CompressorAttack => "compressor_attack",
            ParamId::CompressorRelease => "compressor_release",
            ParamId::CompressorMakeupGain => "compressor_makeup_gain",
            ParamId::CompressorMix => "compressor_mix",
            ParamId::CompressorDetectorMode => "compressor_detector_mode",
            ParamId::CompressorStereoLink => "compressor_stereo_link",
            ParamId::CompressorSidechainHpf => "compressor_sidechain_hpf",
            ParamId::DrumKickLevel => "drum_kick_level",
            ParamId::DrumSnareLevel => "drum_snare_level",
            ParamId::DrumTomLevel => "drum_tom_level",
            ParamId::DrumHatLevel => "drum_hat_level",
            ParamId::DrumCymbalLevel => "drum_cymbal_level",
            ParamId::DrumTuning => "drum_tuning",
            ParamId::DrumDecay => "drum_decay",
            ParamId::DrumTone => "drum_tone",
            ParamId::DrumSnareWire => "drum_snare_wire",
            ParamId::DrumRoomAmount => "drum_room_amount",
            ParamId::DrumStereoWidth => "drum_stereo_width",
            ParamId::DrumMasterGain => "drum_master_gain",
            ParamId::VcslMasterGain => "vcsl_master_gain",
            ParamId::VcslTone => "vcsl_tone",
            ParamId::VcslVelocityCurve => "vcsl_velocity_curve",
            ParamId::VcslReleaseLevel => "vcsl_release_level",
            ParamId::VcslReleaseTime => "vcsl_release_time",
            ParamId::VcslStereoWidth => "vcsl_stereo_width",
            ParamId::SamplerMasterGain => "sampler_master_gain",
            ParamId::SamplerRootNote => "sampler_root_note",
            ParamId::SamplerTune => "sampler_tune",
            ParamId::SamplerOffset => "sampler_offset",
            ParamId::SamplerVelocityCurve => "sampler_velocity_curve",
            ParamId::SamplerReleaseTime => "sampler_release_time",
            ParamId::SamplerStereoWidth => "sampler_stereo_width",
            ParamId::SamplerLoopMode => "sampler_loop_mode",
            ParamId::SamplerLoopStart => "sampler_loop_start",
            ParamId::SamplerLoopEnd => "sampler_loop_end",
            ParamId::SamplerLoopXfade => "sampler_loop_xfade",
            ParamId::SamplerUnisonVoices => "sampler_unison_voices",
            ParamId::SamplerUnisonDetune => "sampler_unison_detune",
            ParamId::SamplerUnisonSpread => "sampler_unison_spread",
            ParamId::DiffuserMix => "diffuser_mix",
            ParamId::DiffuserDiffusion => "diffuser_diffusion",
            ParamId::DiffuserSize => "diffuser_size",
            ParamId::DiffuserWidth => "diffuser_width",
            ParamId::DiffuserOutputGain => "diffuser_output_gain",
            ParamId::DiffuserAllpassCount => "diffuser_allpass_count",
        }
    }

    /// Returns the parameter's stable name.
    pub fn name(self) -> (r: &'static str)
        ensures
            r == self.name_of(),
    {
        match self {
            ParamId::MasterGain => "master_gain",
            ParamId::MaxPolyphony => "max_polyphony",
            ParamId::GeneratorKind => "generator_kind",
            ParamId::GeneratorGain => "generator_gain",
            ParamId::GeneratorPulseWidth => "generator_pulse_width",
            ParamId::GeneratorPhaseOffset => "generator_phase_offset",
            ParamId::GeneratorPan => "generator_pan",
            ParamId::EnvAttack => "env_attack",
            ParamId::EnvDecay => "env_decay",
            ParamId::EnvSustain => "env_sustain",
            ParamId::EnvRelease => "env_release",
            ParamId::EnvCurve => "env_curve",
            ParamId::LfoEnabled => "lfo_enabled",
            ParamId::LfoWaveform => "lfo_waveform",
            ParamId::LfoRateHz => "lfo_rate_hz",
            ParamId::LfoAmount => "lfo_amount",
            ParamId::LfoTarget => "lfo_target",
            ParamId::LfoRetrigger => "lfo_retrigger",
            ParamId::EqLowEnabled => "eq_low_enabled",
            ParamId::EqLowFreq => "eq_low_freq",
            ParamId::EqLowType => "eq_low_type",
            ParamId::EqMidEnabled => "eq_mid_enabled",
            ParamId::EqMidFreq => "eq_mid_freq",
            ParamId::EqMidType => "eq_mid_type",
            ParamId::EqHighEnabled => "eq_high_enabled",
            ParamId::EqHighFreq => "eq_high_freq",
            ParamId::EqHighType => "eq_high_type",
            ParamId::EqLowGainDb => "eq_low_gain_db",
            ParamId::EqLowQ => "eq_low_q",
            ParamId::EqMidGainDb => "eq_mid_gain_db",
            ParamId::EqMidQ => "eq_mid_q",
            ParamId::EqHighGainDb => "eq_high_gain_db",
            ParamId::EqHighQ => "eq_high_q",
            ParamId::FormulaProgram => "formula_program",
            ParamId::FormulaMacro1 => "formula_macro_1",
            ParamId::FormulaMacro2 => "formula_macro_2",
            ParamId::FormulaMacro3 => "formula_macro_3",
            ParamId::FormulaMacro4 => "formula_macro_4",
            ParamId::FormulaMacro5 => "formula_macro_5",
            ParamId::FormulaMacro6 => "formula_macro_6",
            ParamId::FormulaMacro7 => "formula_macro_7",
            ParamId::FormulaMacro8 => "formula_macro_8",
            ParamId::FormulaOutputGain => "formula_output_gain",
            ParamId::FormulaOversampling => "formula_oversampling",
            ParamId::FormulaDcBlock => "formula_dc_block",
            ParamId::PianoTone => "piano_tone",
            ParamId::PianoBrightness => "piano_brightness",
            ParamId::PianoHammerHardness => "piano_hammer_hardness",
            ParamId::PianoHammerNoise => "piano_hammer_noise",
            ParamId::PianoInharmonicity => "piano_inharmonicity",
            ParamId::PianoDecay => "piano_decay",
            ParamId::PianoRelease => "piano_release",
            ParamId::PianoBodyAmount => "piano_body_amount",
            ParamId::PianoStereoWidth => "piano_stereo_width",
            ParamId::PianoSympatheticAmount => "piano_sympathetic_amount",
            ParamId::PianoPedalResonance => "piano_pedal_resonance",
            ParamId::PianoMasterGain => "piano_master_gain",
            ParamId::ReverbMix => "reverb_mix",
            ParamId::ReverbRoomSize => "reverb_room_size",
            ParamId::ReverbDecay => "reverb_decay",
            ParamId::ReverbPreDelay => "reverb_pre_delay",
            ParamId::ReverbDiffusion => "reverb_diffusion",
            ParamId::ReverbDamping => "reverb_damping",
            ParamId::ReverbLowCut => "reverb_low_cut",
            ParamId::ReverbHighCut => "reverb_high_cut",
            ParamId::ReverbModRate => "reverb_mod_rate",
            ParamId::ReverbModDepth => "reverb_mod_depth",
            ParamId::ReverbWidth => "reverb_width",
            ParamId::ReverbEarlyLateMix => "reverb_early_late_mix",
            ParamId::ReverbOutputGain => "reverb_output_gain",
            ParamId::LimiterInputGain => "limiter_input_gain",
            ParamId::LimiterThreshold => "limiter_threshold",
            ParamId::LimiterCeiling => "limiter_ceiling",
            ParamId::LimiterRelease => "limiter_release",
            ParamId::LimiterLookahead => "limiter_lookahead",
            ParamId::LimiterStereoLink => "limiter_stereo_link",
            ParamId::LimiterTruePeak => "limiter_true_peak",
            ParamId::LimiterOutputGain => "limiter_output_gain",
            ParamId::CompressorInputGain => "compressor_input_gain",
            ParamId::CompressorThreshold => "compressor_threshold",
            ParamId::CompressorRatio => "compressor_ratio",
            ParamId::CompressorKnee => "compressor_knee",
            ParamId::CompressorAttack => "compressor_attack",
            ParamId::CompressorRelease => "compressor_release",
            ParamId::CompressorMakeupGain => "compressor_makeup_gain",
            ParamId::CompressorMix => "compressor_mix",
            ParamId::CompressorDetectorMode => "compressor_detector_mode",
            ParamId::CompressorStereoLink => "compressor_stereo_link",
            ParamId::CompressorSidechainHpf => "compressor_sidechain_hpf",
            ParamId::DrumKickLevel => "drum_kick_level",
            ParamId::DrumSnareLevel => "drum_snare_level",
            ParamId::DrumTomLevel => "drum_tom_level",
            ParamId::DrumHatLevel => "drum_hat_level",
            ParamId::DrumCymbalLevel => "drum_cymbal_level",
            ParamId::DrumTuning => "drum_tuning",
            ParamId::DrumDecay => "drum_decay",
            ParamId::DrumTone => "drum_tone",
            ParamId::DrumSnareWire => "drum_snare_wire",
            ParamId::DrumRoomAmount => "drum_room_amount",
            ParamId::DrumStereoWidth => "drum_stereo_width",
            ParamId::DrumMasterGain => "drum_master_gain",
            ParamId::VcslMasterGain => "vcsl_master_gain",
            ParamId::VcslTone => "vcsl_tone",
            ParamId::VcslVelocityCurve => "vcsl_velocity_curve",
            ParamId::VcslReleaseLevel => "vcsl_release_level",
            ParamId::VcslReleaseTime => "vcsl_release_time",
            ParamId::VcslStereoWidth => "vcsl_stereo_width",
            ParamId::SamplerMasterGain => "sampler_master_gain",
            ParamId::SamplerRootNote => "sampler_root_note",
            ParamId::SamplerTune => "sampler_tune",
            ParamId::SamplerOffset => "sampler_offset",
            ParamId::SamplerVelocityCurve => "sampler_velocity_curve",
            ParamId::SamplerReleaseTime => "sampler_release_time",
            ParamId::SamplerStereoWidth => "sampler_stereo_width",
            ParamId::SamplerLoopMode => "sampler_loop_mode",
            ParamId::SamplerLoopStart => "sampler_loop_start",
            ParamId::SamplerLoopEnd => "sampler_loop_end",
            ParamId::SamplerLoopXfade => "sampler_loop_xfade",
            ParamId::SamplerUnisonVoices => "sampler_unison_voices",
            ParamId::SamplerUnisonDetune => "sampler_unison_detune",
            ParamId::SamplerUnisonSpread => "sampler_unison_spread",
            ParamId::DiffuserMix => "diffuser_mix",
            ParamId::DiffuserDiffusion => "diffuser_diffusion",
            ParamId::DiffuserSize => "diffuser_size",
            ParamId::DiffuserWidth => "diffuser_width",
            ParamId::DiffuserOutputGain => "diffuser_output_gain",
            ParamId::DiffuserAllpassCount => "diffuser_allpass_count",
        }
    }

    /// Decoding a parameter's wire code gives the parameter back, so no two
    /// parameters share a code.
    pub proof fn lemma_code_round_trip(self)
        ensures
            Self::from_code(self.code_of()) == Some(self),
    {
    }

    /// Distinct parameters have distinct wire codes.
    pub proof fn lemma_codes_are_unique(a: ParamId, b: ParamId)
        ensures
            a.code_of() == b.code_of() ==> a == b,
    {
        a.lemma_code_round_trip();
        b.lemma_code_round_trip();
    }

    /// Exactly the `Enum` and `Boolean` parameters have a step count; a
    /// `Boolean` one has 2 steps and an `Enum` one at least 2.
    pub proof fn lemma_step_count_matches_unit(self)
        ensures
            (self.unit_of() == ParamUnit::Enum || self.unit_of() == ParamUnit::Boolean)
                <==> self.step_count_of() is Some,
            self.unit_of() == ParamUnit::Boolean ==> self.step_count_of() == Some(2u32),
            self.unit_of() == ParamUnit::Enum ==> self.step_count_of().unwrap() >= 2,
    {
    }

    /// Every parameter has a non-empty name.
    pub proof fn lemma_name_is_non_empty(self)
        ensures
            self.name_of()@.len() > 0,
    {
        match self {
            ParamId::MasterGain => {
                reveal_strlit("master_gain");
            },
            ParamId::MaxPolyphony => {
                reveal_strlit("max_polyphony");
            },
            ParamId::GeneratorKind => {
                reveal_strlit("generator_kind");
            },
            ParamId::GeneratorGain => {
                reveal_strlit("generator_gain");
            },
            ParamId::GeneratorPulseWidth => {
                reveal_strlit("generator_pulse_width");
            },
            ParamId::GeneratorPhaseOffset => {
                reveal_strlit("generator_phase_offset");
            },
            ParamId::GeneratorPan => {
                reveal_strlit("generator_pan");
            },
            ParamId::EnvAttack => {
                reveal_strlit("env_attack");
            },
            ParamId::EnvDecay => {
                reveal_strlit("env_decay");
            },
            ParamId::EnvSustain => {
                reveal_strlit("env_sustain");
            },
            ParamId::EnvRelease => {
                reveal_strlit("env_release");
            },
            ParamId::EnvCurve => {
                reveal_strlit("env_curve");
            },
            ParamId::LfoEnabled => {
                reveal_strlit("lfo_enabled");
            },
            ParamId::LfoWaveform => {
                reveal_strlit("lfo_waveform");
            },
            ParamId::LfoRateHz => {
                reveal_strlit("lfo_rate_hz");
            },
            ParamId::LfoAmount => {
                reveal_strlit("lfo_amount");
            },
            ParamId::LfoTarget => {
                reveal_strlit("lfo_target");
            },
            ParamId::LfoRetrigger => {
                reveal_strlit("lfo_retrigger");
            },
            ParamId::EqLowEnabled => {
                reveal_strlit("eq_low_enabled");
            },
            ParamId::EqLowFreq => {
                reveal_strlit("eq_low_freq");
            },
            ParamId::EqLowType => {
                reveal_strlit("eq_low_type");
            },
            ParamId::EqMidEnabled => {
                reveal_strlit("eq_mid_enabled");
            },
            ParamId::EqMidFreq => {
                reveal_strlit("eq_mid_freq");
            },
            ParamId::EqMidType => {
                reveal_strlit("eq_mid_type");
            },
            ParamId::EqHighEnabled => {
                reveal_strlit("eq_high_enabled");
            },
            ParamId::EqHighFreq => {
                reveal_strlit("eq_high_freq");
            },
            ParamId::EqHighType => {
                reveal_strlit("eq_high_type");
            },
            ParamId::EqLowGainDb => {
                reveal_strlit("eq_low_gain_db");
            },
            ParamId::EqLowQ => {
                reveal_strlit("eq_low_q");
            },
            ParamId::EqMidGainDb => {
                reveal_strlit("eq_mid_gain_db");
            },
            ParamId::EqMidQ => {
                reveal_strlit("eq_mid_q");
            },
            ParamId::EqHighGainDb => {
                reveal_strlit("eq_high_gain_db");
            },
            ParamId::EqHighQ => {
                reveal_strlit("eq_high_q");
            },
            ParamId::FormulaProgram => {
                reveal_strlit("formula_program");
            },
            ParamId::FormulaMacro1 => {
                reveal_strlit("formula_macro_1");
            },
            ParamId::FormulaMacro2 => {
                reveal_strlit("formula_macro_2");
            },
            ParamId::FormulaMacro3 => {
                reveal_strlit("formula_macro_3");
            },
            ParamId::FormulaMacro4 => {
                reveal_strlit("formula_macro_4");
            },
            ParamId::FormulaMacro5 => {
                reveal_strlit("formula_macro_5");
            },
            ParamId::FormulaMacro6 => {
                reveal_strlit("formula_macro_6");
            },
            ParamId::FormulaMacro7 => {
                reveal_strlit("formula_macro_7");
            },
            ParamId::FormulaMacro8 => {
                reveal_strlit("formula_macro_8");
            },
            ParamId::FormulaOutputGain => {
                reveal_strlit("formula_output_gain");
            },
            ParamId::FormulaOversampling => {
                reveal_strlit("formula_oversampling");
            },
            ParamId::FormulaDcBlock => {
                reveal_strlit("formula_dc_block");
            },
            ParamId::PianoTone => {
                reveal_strlit("piano_tone");
            },
            ParamId::PianoBrightness => {
                reveal_strlit("piano_brightness");
            },
            ParamId::PianoHammerHardness => {
                reveal_strlit("piano_hammer_hardness");
            },
            ParamId::PianoHammerNoise => {
                reveal_strlit("piano_hammer_noise");
            },
            ParamId::PianoInharmonicity => {
                reveal_strlit("piano_inharmonicity");
            },
            ParamId::PianoDecay => {
                reveal_strlit("piano_decay");
            },
            ParamId::PianoRelease => {
                reveal_strlit("piano_release");
            },
            ParamId::PianoBodyAmount => {
                reveal_strlit("piano_body_amount");
            },
            ParamId::PianoStereoWidth => {
                reveal_strlit("piano_stereo_width");
            },
            ParamId::PianoSympatheticAmount => {
                reveal_strlit("piano_sympathetic_amount");
            },
            ParamId::PianoPedalResonance => {
                reveal_strlit("piano_pedal_resonance");
            },
            ParamId::PianoMasterGain => {
                reveal_strlit("piano_master_gain");
            },
            ParamId::ReverbMix => {
                reveal_strlit("reverb_mix");
            },
            ParamId::ReverbRoomSize => {
                reveal_strlit("reverb_room_size");
            },
            ParamId::ReverbDecay => {
                reveal_strlit("reverb_decay");
            },
            ParamId::ReverbPreDelay => {
                reveal_strlit("reverb_pre_delay");
            },
            ParamId::ReverbDiffusion => {
                reveal_strlit("reverb_diffusion");
            },
            ParamId::ReverbDamping => {
                reveal_strlit("reverb_damping");
            },
            ParamId::ReverbLowCut => {
                reveal_strlit("reverb_low_cut");
            },
            ParamId::ReverbHighCut => {
                reveal_strlit("reverb_high_cut");
            },
            ParamId::ReverbModRate => {
                reveal_strlit("reverb_mod_rate");
            },
            ParamId::ReverbModDepth => {
                reveal_strlit("reverb_mod_depth");
            },
            ParamId::ReverbWidth => {
                reveal_strlit("reverb_width");
            },
            ParamId::ReverbEarlyLateMix => {
                reveal_strlit("reverb_early_late_mix");
            },
            ParamId::ReverbOutputGain => {
                reveal_strlit("reverb_output_gain");
            },
            ParamId::LimiterInputGain => {
                reveal_strlit("limiter_input_gain");
            },
            ParamId::LimiterThreshold => {
                reveal_strlit("limiter_threshold");
            },
            ParamId::LimiterCeiling => {
                reveal_strlit("limiter_ceiling");
            },
            ParamId::LimiterRelease => {
                reveal_strlit("limiter_release");
            },
            ParamId::LimiterLookahead => {
                reveal_strlit("limiter_lookahead");
            },
            ParamId::LimiterStereoLink => {
                reveal_strlit("limiter_stereo_link");
            },
            ParamId::LimiterTruePeak => {
                reveal_strlit("limiter_true_peak");
            },
            ParamId::LimiterOutputGain => {
                reveal_strlit("limiter_output_gain");
            },
            ParamId::CompressorInputGain => {
                reveal_strlit("compressor_input_gain");
            },
            ParamId::CompressorThreshold => {
                reveal_strlit("compressor_threshold");
            },
            ParamId::CompressorRatio => {
                reveal_strlit("compressor_ratio");
            },
            ParamId::CompressorKnee => {
                reveal_strlit("compressor_knee");
            },
            ParamId::CompressorAttack => {
                reveal_strlit("compressor_attack");
            },
            ParamId::CompressorRelease => {
                reveal_strlit("compressor_release");
            },
            ParamId::CompressorMakeupGain => {
                reveal_strlit("compressor_makeup_gain");
            },
            ParamId::CompressorMix => {
                reveal_strlit("compressor_mix");
            },
            ParamId::CompressorDetectorMode => {
                reveal_strlit("compressor_detector_mode");
            },
            ParamId::CompressorStereoLink => {
                reveal_strlit("compressor_stereo_link");
            },
            ParamId::CompressorSidechainHpf => {
                reveal_strlit("compressor_sidechain_hpf");
            },
            ParamId::DrumKickLevel => {
                reveal_strlit("drum_kick_level");
            },
            ParamId::DrumSnareLevel => {
                reveal_strlit("drum_snare_level");
            },
            ParamId::DrumTomLevel => {
                reveal_strlit("drum_tom_level");
            },
            ParamId::DrumHatLevel => {
                reveal_strlit("drum_hat_level");
            },
            ParamId::DrumCymbalLevel => {
                reveal_strlit("drum_cymbal_level");
            },
            ParamId::DrumTuning => {
                reveal_strlit("drum_tuning");
            },
            ParamId::DrumDecay => {
                reveal_strlit("drum_decay");
            },
            ParamId::DrumTone => {
                reveal_strlit("drum_tone");
            },
            ParamId::DrumSnareWire => {
                reveal_strlit("drum_snare_wire");
            },
            ParamId::DrumRoomAmount => {
                reveal_strlit("drum_room_amount");
            },
            ParamId::DrumStereoWidth => {
                reveal_strlit("drum_stereo_width");
            },
            ParamId::DrumMasterGain => {
                reveal_strlit("drum_master_gain");
            },
            ParamId::VcslMasterGain => {
                reveal_strlit("vcsl_master_gain");
            },
            ParamId::VcslTone => {
                reveal_strlit("vcsl_tone");
            },
            ParamId::VcslVelocityCurve => {
                reveal_strlit("vcsl_velocity_curve");
            },
            ParamId::VcslReleaseLevel => {
                reveal_strlit("vcsl_release_level");
            },
            ParamId::VcslReleaseTime => {
                reveal_strlit("vcsl_release_time");
            },
            ParamId::VcslStereoWidth => {
                reveal_strlit("vcsl_stereo_width");
            },
            ParamId::SamplerMasterGain => {
                reveal_strlit("sampler_master_gain");
            },
            ParamId::SamplerRootNote => {
                reveal_strlit("sampler_root_note");
            },
            ParamId::SamplerTune => {
                reveal_strlit("sampler_tune");
            },
            ParamId::SamplerOffset => {
                reveal_strlit("sampler_offset");
            },
            ParamId::SamplerVelocityCurve => {
                reveal_strlit("sampler_velocity_curve");
            },
            ParamId::SamplerReleaseTime => {
                reveal_strlit("sampler_release_time");
            },
            ParamId::SamplerStereoWidth => {
                reveal_strlit("sampler_stereo_width");
            },
            ParamId::SamplerLoopMode => {
                reveal_strlit("sampler_loop_mode");
            },
            ParamId::SamplerLoopStart => {
                reveal_strlit("sampler_loop_start");
            },
            ParamId::SamplerLoopEnd => {
                reveal_strlit("sampler_loop_end");
            },
            ParamId::SamplerLoopXfade => {
                reveal_strlit("sampler_loop_xfade");
            },
            ParamId::SamplerUnisonVoices => {
                reveal_strlit("sampler_unison_voices");
            },
            ParamId::SamplerUnisonDetune => {
                reveal_strlit("sampler_unison_detune");
            },
            ParamId::SamplerUnisonSpread => {
                reveal_strlit("sampler_unison_spread");
            },
            ParamId::DiffuserMix => {
                reveal_strlit("diffuser_mix");
            },
            ParamId::DiffuserDiffusion => {
                reveal_strlit("diffuser_diffusion");
            },
            ParamId::DiffuserSize => {
                reveal_strlit("diffuser_size");
            },
            ParamId::DiffuserWidth => {
                reveal_strlit("diffuser_width");
            },
            ParamId::DiffuserOutputGain => {
                reveal_strlit("diffuser_output_gain");
            },
            ParamId::DiffuserAllpassCount => {
                reveal_strlit("diffuser_allpass_count");
            },
        }
    }

    /// [`ParamId::ALL`] lists every parameter exactly once, in declaration
    /// order.
    pub proof fn lemma_all_lists_every_parameter_once()
        ensures
            Self::ALL@.len() == 127,
            forall|p: ParamId| #[trigger] Self::ALL@[p.declaration_index()] == p,
            forall|i: int| 0 <= i < Self::ALL@.len() ==> (#[trigger] Self::ALL@[i]).declaration_index() == i,
            forall|p: ParamId| Self::ALL@.contains(p),
            Self::ALL@.no_duplicates(),
    {
        assert forall|p: ParamId| #[trigger] Self::ALL@[p.declaration_index()] == p by {
        }
        assert forall|i: int| 0 <= i < Self::ALL@.len() implies (#[trigger] Self::ALL@[i]).declaration_index() == i by {
        }
        assert forall|p: ParamId| Self::ALL@.contains(p) by {
            assert(Self::ALL@[p.declaration_index()] == p);
        }
    }
}


/// The character of `s` at `i`, or a blank past its end.
spec fn char_or_blank(s: Seq<char>, i: int) -> char {
    if 0 <= i < s.len() {
        s[i]
    } else {
        ' '
    }
}

/// A short fingerprint of a name: its length and a few of its characters.
/// The parameters' names differ in it.
spec fn name_key(s: Seq<char>) -> (nat, char, char, char, char, char, char) {
    (s.len(), char_or_blank(s, 9), char_or_blank(s, 3), char_or_blank(s, 14), char_or_blank(s, 5), char_or_blank(s, 11), char_or_blank(s, 15))
}

/// The parameter whose name has the fingerprint `k`, if any.
spec fn param_with_name_key(k: (nat, char, char, char, char, char, char)) -> Option<ParamId> {
    if k == (11nat, 'i', 't', ' ', 'r', ' ', ' ') {
        Some(ParamId::MasterGain)
    } else if k == (13nat, 'h', '_', ' ', 'o', 'n', ' ') {
        Some(ParamId::MaxPolyphony)
    } else if k == (14nat, '_', 'e', ' ', 'a', 'i', ' ') {
        Some(ParamId::GeneratorKind)
    } else if k == (14nat, '_', 'e', ' ', 'a', 'a', ' ') {
        Some(ParamId::GeneratorGain)
    } else if k == (21nat, '_', 'e', 'e', 'a', 'u', '_') {
        Some(ParamId::GeneratorPulseWidth)
    } else if k == (22nat, '_', 'e', 'e', 'a', 'h', '_') {
        Some(ParamId::GeneratorPhaseOffset)
    } else if k == (13nat, '_', 'e', ' ', 'a', 'a', ' ') {
        Some(ParamId::GeneratorPan)
    } else if k == (10nat, 'k', '_', ' ', 't', ' ', ' ') {
        Some(ParamId::EnvAttack)
    } else if k == (9nat, ' ', '_', ' ', 'e', ' ', ' ') {
        Some(ParamId::EnvDecay)
    } else if k == (11nat, 'i', '_', ' ', 'u', ' ', ' ') {
        Some(ParamId::EnvSustain)
    } else if k == (11nat, 's', '_', ' ', 'e', ' ', ' ') {
        Some(ParamId::EnvRelease)
    } else if k == (9nat, ' ', '_', ' ', 'u', ' ', ' ') {
        Some(ParamId::EnvCurve)
    } else if k == (11nat, 'e', '_', ' ', 'n', ' ', ' ') {
        Some(ParamId::LfoEnabled)
    } else if k == (12nat, 'o', '_', ' ', 'a', 'm', ' ') {
        Some(ParamId::LfoWaveform)
    } else if k == (11nat, 'h', '_', ' ', 'a', ' ', ' ') {
        Some(ParamId::LfoRateHz)
    } else if k == (10nat, 't', '_', ' ', 'm', ' ', ' ') {
        Some(ParamId::LfoAmount)
    } else if k == (10nat, 't', '_', ' ', 'a', ' ', ' ') {
        Some(ParamId::LfoTarget)
    } else if k == (13nat, 'g', '_', ' ', 'e', 'e', ' ') {
        Some(ParamId::LfoRetrigger)
    } else if k == (14nat, 'a', 'l', ' ', 'w', 'l', ' ') {
        Some(ParamId::EqLowEnabled)
    } else if k == (11nat, 'e', 'l', ' ', 'w', ' ', ' ') {
        Some(ParamId::EqLowFreq)
    } else if k == (11nat, 'p', 'l', ' ', 'w', ' ', ' ') {
        Some(ParamId::EqLowType)
    } else if k == (14nat, 'a', 'm', ' ', 'd', 'l', ' ') {
        Some(ParamId::EqMidEnabled)
    } else if k == (11nat, 'e', 'm', ' ', 'd', ' ', ' ') {
        Some(ParamId::EqMidFreq)
    } else if k == (11nat, 'p', 'm', ' ', 'd', ' ', ' ') {
        Some(ParamId::EqMidType)
    } else if k == (15nat, 'n', 'h', 'd', 'g', 'b', ' ') {
        Some(ParamId::EqHighEnabled)
    } else if k == (12nat, 'r', 'h', ' ', 'g', 'q', ' ') {
        Some(ParamId::EqHighFreq)
    } else if k == (12nat, 'y', 'h', ' ', 'g', 'e', ' ') {
        Some(ParamId::EqHighType)
    } else if k == (14nat, 'i', 'l', ' ', 'w', '_', ' ') {
        Some(ParamId::EqLowGainDb)
    } else if k == (8nat, ' ', 'l', ' ', 'w', ' ', ' ') {
        Some(ParamId::EqLowQ)
    } else if k == (14nat, 'i', 'm', ' ', 'd', '_', ' ') {
        Some(ParamId::EqMidGainDb)
    } else if k == (8nat, ' ', 'm', ' ', 'd', ' ', ' ') {
        Some(ParamId::EqMidQ)
    } else if k == (15nat, 'a', 'h', 'b', 'g', 'n', ' ') {
        Some(ParamId::EqHighGainDb)
    } else if k == (9nat, ' ', 'h', ' ', 'g', ' ', ' ') {
        Some(ParamId::EqHighQ)
    } else if k == (15nat, 'r', 'm', 'm', 'l', 'g', ' ') {
        Some(ParamId::FormulaProgram)
    } else if k == (15nat, 'a', 'm', '1', 'l', 'r', ' ') {
        Some(ParamId::FormulaMacro1)
    } else if k == (15nat, 'a', 'm', '2', 'l', 'r', ' ') {
        Some(ParamId::FormulaMacro2)
    } else if k == (15nat, 'a', 'm', '3', 'l', 'r', ' ') {
        Some(ParamId::FormulaMacro3)
    } else if k == (15nat, 'a', 'm', '4', 'l', 'r', ' ') {
        Some(ParamId::FormulaMacro4)
    } else if k == (15nat, 'a', 'm', '5', 'l', 'r', ' ') {
        Some(ParamId::FormulaMacro5)
    } else if k == (15nat, 'a', 'm', '6', 'l', 'r', ' ') {
        Some(ParamId::FormulaMacro6)
    } else if k == (15nat, 'a', 'm', '7', 'l', 'r', ' ') {
        Some(ParamId::FormulaMacro7)
    } else if k == (15nat, 'a', 'm', '8', 'l', 'r', ' ') {
        Some(ParamId::FormulaMacro8)
    } else if k == (19nat, 'u', 'm', '_', 'l', 'p', 'g') {
        Some(ParamId::FormulaOutputGain)
    } else if k == (20nat, 'v', 'm', 'm', 'l', 'r', 'p') {
        Some(ParamId::FormulaOversampling)
    } else if k == (16nat, 'c', 'm', 'c', 'l', 'b', 'k') {
        Some(ParamId::FormulaDcBlock)
    } else if k == (10nat, 'e', 'n', ' ', '_', ' ', ' ') {
        Some(ParamId::PianoTone)
    } else if k == (16nat, 'g', 'n', 's', '_', 't', 's') {
        Some(ParamId::PianoBrightness)
    } else if k == (21nat, 'm', 'n', 'a', '_', 'r', 'r') {
        Some(ParamId::PianoHammerHardness)
    } else if k == (18nat, 'm', 'n', 'o', '_', 'r', 'i') {
        Some(ParamId::PianoHammerNoise)
    } else if k == (19nat, 'a', 'n', 'i', '_', 'm', 'c') {
        Some(ParamId::PianoInharmonicity)
    } else if k == (11nat, 'a', 'n', ' ', '_', ' ', ' ') {
        Some(ParamId::PianoDecay)
    } else if k == (13nat, 'e', 'n', ' ', '_', 's', ' ') {
        Some(ParamId::PianoRelease)
    } else if k == (17nat, 'y', 'n', 'u', '_', 'a', 'n') {
        Some(ParamId::PianoBodyAmount)
    } else if k == (18nat, 'r', 'n', 'i', '_', 'o', 'd') {
        Some(ParamId::PianoStereoWidth)
    } else if k == (24nat, 'p', 'n', 't', '_', 't', 'i') {
        Some(ParamId::PianoSympatheticAmount)
    } else if k == (21nat, 'a', 'n', 's', '_', '_', 'o') {
        Some(ParamId::PianoPedalResonance)
    } else if k == (17nat, 't', 'n', 'a', '_', 'r', 'i') {
        Some(ParamId::PianoMasterGain)
    } else if k == (10nat, 'x', 'e', ' ', 'b', ' ', ' ') {
        Some(ParamId::ReverbMix)
    } else if k == (16nat, 'o', 'e', 'z', 'b', '_', 'e') {
        Some(ParamId::ReverbRoomSize)
    } else if k == (12nat, 'c', 'e', ' ', 'b', 'y', ' ') {
        Some(ParamId::ReverbDecay)
    } else if k == (16nat, 'e', 'e', 'a', 'b', 'd', 'y') {
        Some(ParamId::ReverbPreDelay)
    } else if k == (16nat, 'f', 'e', 'o', 'b', 'u', 'n') {
        Some(ParamId::ReverbDiffusion)
    } else if k == (14nat, 'm', 'e', ' ', 'b', 'i', ' ') {
        Some(ParamId::ReverbDamping)
    } else if k == (14nat, 'w', 'e', ' ', 'b', 'c', ' ') {
        Some(ParamId::ReverbLowCut)
    } else if k == (15nat, 'g', 'e', 't', 'b', '_', ' ') {
        Some(ParamId::ReverbHighCut)
    } else if k == (15nat, 'd', 'e', 'e', 'b', 'r', ' ') {
        Some(ParamId::ReverbModRate)
    } else if k == (16nat, 'd', 'e', 't', 'b', 'd', 'h') {
        Some(ParamId::ReverbModDepth)
    } else if k == (12nat, 'd', 'e', ' ', 'b', 'h', ' ') {
        Some(ParamId::ReverbWidth)
    } else if k == (21nat, 'r', 'e', 'a', 'b', 'y', 't') {
        Some(ParamId::ReverbEarlyLateMix)
    } else if k == (18nat, 't', 'e', 'g', 'b', 'u', 'a') {
        Some(ParamId::ReverbOutputGain)
    } else if k == (18nat, 'n', 'i', 'g', 'e', 'u', 'a') {
        Some(ParamId::LimiterInputGain)
    } else if k == (17nat, 'h', 'i', 'o', 'e', 'e', 'l') {
        Some(ParamId::LimiterThreshold)
    } else if k == (15nat, 'e', 'i', 'g', 'e', 'l', ' ') {
        Some(ParamId::LimiterCeiling)
    } else if k == (15nat, 'e', 'i', 'e', 'e', 'e', ' ') {
        Some(ParamId::LimiterRelease)
    } else if k == (17nat, 'o', 'i', 'e', 'e', 'k', 'a') {
        Some(ParamId::LimiterLookahead)
    } else if k == (19nat, 't', 'i', '_', 'e', 'r', 'l') {
        Some(ParamId::LimiterStereoLink)
    } else if k == (17nat, 'r', 'i', 'e', 'e', 'e', 'a') {
        Some(ParamId::LimiterTruePeak)
    } else if k == (19nat, 'u', 'i', '_', 'e', 'p', 'g') {
        Some(ParamId::LimiterOutputGain)
    } else if k == (21nat, 'r', 'p', 'u', 'e', 'i', 't') {
        Some(ParamId::CompressorInputGain)
    } else if k == (20nat, 'r', 'p', 'e', 'e', 't', 's') {
        Some(ParamId::CompressorThreshold)
    } else if k == (16nat, 'r', 'p', 'i', 'e', 'r', 'o') {
        Some(ParamId::CompressorRatio)
    } else if k == (15nat, 'r', 'p', 'e', 'e', 'k', ' ') {
        Some(ParamId::CompressorKnee)
    } else if k == (17nat, 'r', 'p', 'a', 'e', 'a', 'c') {
        Some(ParamId::CompressorAttack)
    } else if k == (18nat, 'r', 'p', 'e', 'e', 'r', 'a') {
        Some(ParamId::CompressorRelease)
    } else if k == (22nat, 'r', 'p', 'e', 'e', 'm', 'u') {
        Some(ParamId::CompressorMakeupGain)
    } else if k == (14nat, 'r', 'p', ' ', 'e', 'm', ' ') {
        Some(ParamId::CompressorMix)
    } else if k == (24nat, 'r', 'p', 'e', 'e', 'd', 'c') {
        Some(ParamId::CompressorDetectorMode)
    } else if k == (22nat, 'r', 'p', 'r', 'e', 's', 'e') {
        Some(ParamId::CompressorStereoLink)
    } else if k == (24nat, 'r', 'p', 'e', 'e', 's', 'c') {
        Some(ParamId::CompressorSidechainHpf)
    } else if k == (15nat, '_', 'm', 'l', 'k', 'e', ' ') {
        Some(ParamId::DrumKickLevel)
    } else if k == (16nat, 'e', 'm', 'e', 's', 'l', 'l') {
        Some(ParamId::DrumSnareLevel)
    } else if k == (14nat, 'l', 'm', ' ', 't', 'v', ' ') {
        Some(ParamId::DrumTomLevel)
    } else if k == (14nat, 'l', 'm', ' ', 'h', 'v', ' ') {
        Some(ParamId::DrumHatLevel)
    } else if k == (17nat, 'a', 'm', 'v', 'c', '_', 'e') {
        Some(ParamId::DrumCymbalLevel)
    } else if k == (11nat, 'n', 'm', ' ', 't', ' ', ' ') {
        Some(ParamId::DrumTuning)
    } else if k == (10nat, 'y', 'm', ' ', 'd', ' ', ' ') {
        Some(ParamId::DrumDecay)
    } else if k == (9nat, ' ', 'm', ' ', 't', ' ', ' ') {
        Some(ParamId::DrumTone)
    } else if k == (15nat, 'e', 'm', 'e', 's', 'w', ' ') {
        Some(ParamId::DrumSnareWire)
    } else if k == (16nat, '_', 'm', 'n', 'r', 'm', 't') {
        Some(ParamId::DrumRoomAmount)
    } else if k == (17nat, 'e', 'm', 'd', 's', '_', 't') {
        Some(ParamId::DrumStereoWidth)
    } else if k == (16nat, 'e', 'm', 'i', 'm', '_', 'n') {
        Some(ParamId::DrumMasterGain)
    } else if k == (16nat, 'e', 'l', 'i', 'm', '_', 'n') {
        Some(ParamId::VcslMasterGain)
    } else if k == (9nat, ' ', 'l', ' ', 't', ' ', ' ') {
        Some(ParamId::VcslTone)
    } else if k == (19nat, 'c', 'l', 'c', 'v', 't', 'u') {
        Some(ParamId::VcslVelocityCurve)
    } else if k == (18nat, 'a', 'l', 'e', 'r', 'e', 'v') {
        Some(ParamId::VcslReleaseLevel)
    } else if k == (17nat, 'a', 'l', 'i', 'r', 'e', 'm') {
        Some(ParamId::VcslReleaseTime)
    } else if k == (17nat, 'e', 'l', 'd', 's', '_', 't') {
        Some(ParamId::VcslStereoWidth)
    } else if k == (19nat, 'a', 'p', '_', 'e', 't', 'g') {
        Some(ParamId::SamplerMasterGain)
    } else if k == (17nat, 'o', 'p', 'o', 'e', 't', 't') {
        Some(ParamId::SamplerRootNote)
    } else if k == (12nat, 'u', 'p', ' ', 'e', 'e', ' ') {
        Some(ParamId::SamplerTune)
    } else if k == (14nat, 'f', 'p', ' ', 'e', 's', ' ') {
        Some(ParamId::SamplerOffset)
    } else if k == (22nat, 'e', 'p', 't', 'e', 'o', 'y') {
        Some(ParamId::SamplerVelocityCurve)
    } else if k == (20nat, 'e', 'p', 'e', 'e', 'e', '_') {
        Some(ParamId::SamplerReleaseTime)
    } else if k == (20nat, 't', 'p', '_', 'e', 'r', 'w') {
        Some(ParamId::SamplerStereoWidth)
    } else if k == (17nat, 'o', 'p', 'o', 'e', 'p', 'd') {
        Some(ParamId::SamplerLoopMode)
    } else if k == (18nat, 'o', 'p', 't', 'e', 'p', 'a') {
        Some(ParamId::SamplerLoopStart)
    } else if k == (16nat, 'o', 'p', 'n', 'e', 'p', 'd') {
        Some(ParamId::SamplerLoopEnd)
    } else if k == (18nat, 'o', 'p', 'f', 'e', 'p', 'a') {
        Some(ParamId::SamplerLoopXfade)
    } else if k == (21nat, 'n', 'p', '_', 'e', 's', 'v') {
        Some(ParamId::SamplerUnisonVoices)
    } else if k == (21nat, 'n', 'p', '_', 'e', 's', 'd') {
        Some(ParamId::SamplerUnisonDetune)
    } else if k == (21nat, 'n', 'p', '_', 'e', 's', 's') {
        Some(ParamId::SamplerUnisonSpread)
    } else if k == (12nat, 'm', 'f', ' ', 's', 'x', ' ') {
        Some(ParamId::DiffuserMix)
    } else if k == (18nat, 'd', 'f', 's', 's', 'f', 'i') {
        Some(ParamId::DiffuserDiffusion)
    } else if k == (13nat, 's', 'f', ' ', 's', 'z', ' ') {
        Some(ParamId::DiffuserSize)
    } else if k == (14nat, 'w', 'f', ' ', 's', 'd', ' ') {
        Some(ParamId::DiffuserWidth)
    } else if k == (20nat, 'o', 'f', 't', 's', 't', '_') {
        Some(ParamId::DiffuserOutputGain)
    } else if k == (22nat, 'a', 'f', 's', 's', 'l', 's') {
        Some(ParamId::DiffuserAllpassCount)
    } else {
        None
    }
}

/// A parameter is recovered from the fingerprint of its name.
proof fn lemma_name_key_identifies(p: ParamId)
    ensures
        param_with_name_key(name_key(p.name_of()@)) == Some(p),
{
    match p {
        ParamId::MasterGain => {
            reveal_strlit("master_gain");
            assert(name_key("master_gain"@) == (11nat, 'i', 't', ' ', 'r', ' ', ' '));
        },
        ParamId::MaxPolyphony => {
            reveal_strlit("max_polyphony");
            assert(name_key("max_polyphony"@) == (13nat, 'h', '_', ' ', 'o', 'n', ' '));
        },
        ParamId::GeneratorKind => {
            reveal_strlit("generator_kind");
            assert(name_key("generator_kind"@) == (14nat, '_', 'e', ' ', 'a', 'i', ' '));
        },
        ParamId::GeneratorGain => {
            reveal_strlit("generator_gain");
            assert(name_key("generator_gain"@) == (14nat, '_', 'e', ' ', 'a', 'a', ' '));
        },
        ParamId::GeneratorPulseWidth => {
            reveal_strlit("generator_pulse_width");
            assert(name_key("generator_pulse_width"@) == (21nat, '_', 'e', 'e', 'a', 'u', '_'));
        },
        ParamId::GeneratorPhaseOffset => {
            reveal_strlit("generator_phase_offset");
            assert(name_key("generator_phase_offset"@) == (22nat, '_', 'e', 'e', 'a', 'h', '_'));
        },
        ParamId::GeneratorPan => {
            reveal_strlit("generator_pan");
            assert(name_key("generator_pan"@) == (13nat, '_', 'e', ' ', 'a', 'a', ' '));
        },
        ParamId::EnvAttack => {
            reveal_strlit("env_attack");
            assert(name_key("env_attack"@) == (10nat, 'k', '_', ' ', 't', ' ', ' '));
        },
        ParamId::EnvDecay => {
            reveal_strlit("env_decay");
            assert(name_key("env_decay"@) == (9nat, ' ', '_', ' ', 'e', ' ', ' '));
        },
        ParamId::EnvSustain => {
            reveal_strlit("env_sustain");
            assert(name_key("env_sustain"@) == (11nat, 'i', '_', ' ', 'u', ' ', ' '));
        },
        ParamId::EnvRelease => {
            reveal_strlit("env_release");
            assert(name_key("env_release"@) == (11nat, 's', '_', ' ', 'e', ' ', ' '));
        },
        ParamId::EnvCurve => {
            reveal_strlit("env_curve");
            assert(name_key("env_curve"@) == (9nat, ' ', '_', ' ', 'u', ' ', ' '));
        },
        ParamId::LfoEnabled => {
            reveal_strlit("lfo_enabled");
            assert(name_key("lfo_enabled"@) == (11nat, 'e', '_', ' ', 'n', ' ', ' '));
        },
        ParamId::LfoWaveform => {
            reveal_strlit("lfo_waveform");
            assert(name_key("lfo_waveform"@) == (12nat, 'o', '_', ' ', 'a', 'm', ' '));
        },
        ParamId::LfoRateHz => {
            reveal_strlit("lfo_rate_hz");
            assert(name_key("lfo_rate_hz"@) == (11nat, 'h', '_', ' ', 'a', ' ', ' '));
        },
        ParamId::LfoAmount => {
            reveal_strlit("lfo_amount");
            assert(name_key("lfo_amount"@) == (10nat, 't', '_', ' ', 'm', ' ', ' '));
        },
        ParamId::LfoTarget => {
            reveal_strlit("lfo_target");
            assert(name_key("lfo_target"@) == (10nat, 't', '_', ' ', 'a', ' ', ' '));
        },
        ParamId::LfoRetrigger => {
            reveal_strlit("lfo_retrigger");
            assert(name_key("lfo_retrigger"@) == (13nat, 'g', '_', ' ', 'e', 'e', ' '));
        },
        ParamId::EqLowEnabled => {
            reveal_strlit("eq_low_enabled");
            assert(name_key("eq_low_enabled"@) == (14nat, 'a', 'l', ' ', 'w', 'l', ' '));
        },
        ParamId::EqLowFreq => {
            reveal_strlit("eq_low_freq");
            assert(name_key("eq_low_freq"@) == (11nat, 'e', 'l', ' ', 'w', ' ', ' '));
        },
        ParamId::EqLowType => {
            reveal_strlit("eq_low_type");
            assert(name_key("eq_low_type"@) == (11nat, 'p', 'l', ' ', 'w', ' ', ' '));
        },
        ParamId::EqMidEnabled => {
            reveal_strlit("eq_mid_enabled");
            assert(name_key("eq_mid_enabled"@) == (14nat, 'a', 'm', ' ', 'd', 'l', ' '));
        },
        ParamId::EqMidFreq => {
            reveal_strlit("eq_mid_freq");
            assert(name_key("eq_mid_freq"@) == (11nat, 'e', 'm', ' ', 'd', ' ', ' '));
        },
        ParamId::EqMidType => {
            reveal_strlit("eq_mid_type");
            assert(name_key("eq_mid_type"@) == (11nat, 'p', 'm', ' ', 'd', ' ', ' '));
        },
        ParamId::EqHighEnabled => {
            reveal_strlit("eq_high_enabled");
            assert(name_key("eq_high_enabled"@) == (15nat, 'n', 'h', 'd', 'g', 'b', ' '));
        },
        ParamId::EqHighFreq => {
            reveal_strlit("eq_high_freq");
            assert(name_key("eq_high_freq"@) == (12nat, 'r', 'h', ' ', 'g', 'q', ' '));
        },
        ParamId::EqHighType => {
            reveal_strlit("eq_high_type");
            assert(name_key("eq_high_type"@) == (12nat, 'y', 'h', ' ', 'g', 'e', ' '));
        },
        ParamId::EqLowGainDb => {
            reveal_strlit("eq_low_gain_db");
            assert(name_key("eq_low_gain_db"@) == (14nat, 'i', 'l', ' ', 'w', '_', ' '));
        },
        ParamId::EqLowQ => {
            reveal_strlit("eq_low_q");
            assert(name_key("eq_low_q"@) == (8nat, ' ', 'l', ' ', 'w', ' ', ' '));
        },
        ParamId::EqMidGainDb => {
            reveal_strlit("eq_mid_gain_db");
            assert(name_key("eq_mid_gain_db"@) == (14nat, 'i', 'm', ' ', 'd', '_', ' '));
        },
        ParamId::EqMidQ => {
            reveal_strlit("eq_mid_q");
            assert(name_key("eq_mid_q"@) == (8nat, ' ', 'm', ' ', 'd', ' ', ' '));
        },
        ParamId::EqHighGainDb => {
            reveal_strlit("eq_high_gain_db");
            assert(name_key("eq_high_gain_db"@) == (15nat, 'a', 'h', 'b', 'g', 'n', ' '));
        },
        ParamId::EqHighQ => {
            reveal_strlit("eq_high_q");
            assert(name_key("eq_high_q"@) == (9nat, ' ', 'h', ' ', 'g', ' ', ' '));
        },
        ParamId::FormulaProgram => {
            reveal_strlit("formula_program");
            assert(name_key("formula_program"@) == (15nat, 'r', 'm', 'm', 'l', 'g', ' '));
        },
        ParamId::FormulaMacro1 => {
            reveal_strlit("formula_macro_1");
            assert(name_key("formula_macro_1"@) == (15nat, 'a', 'm', '1', 'l', 'r', ' '));
        },
        ParamId::FormulaMacro2 => {
            reveal_strlit("formula_macro_2");
            assert(name_key("formula_macro_2"@) == (15nat, 'a', 'm', '2', 'l', 'r', ' '));
        },
        ParamId::FormulaMacro3 => {
            reveal_strlit("formula_macro_3");
            assert(name_key("formula_macro_3"@) == (15nat, 'a', 'm', '3', 'l', 'r', ' '));
        },
        ParamId::FormulaMacro4 => {
            reveal_strlit("formula_macro_4");
            assert(name_key("formula_macro_4"@) == (15nat, 'a', 'm', '4', 'l', 'r', ' '));
        },
        ParamId::FormulaMacro5 => {
            reveal_strlit("formula_macro_5");
            assert(name_key("formula_macro_5"@) == (15nat, 'a', 'm', '5', 'l', 'r', ' '));
        },
        ParamId::FormulaMacro6 => {
            reveal_strlit("formula_macro_6");
            assert(name_key("formula_macro_6"@) == (15nat, 'a', 'm', '6', 'l', 'r', ' '));
        },
        ParamId::FormulaMacro7 => {
            reveal_strlit("formula_macro_7");
            assert(name_key("formula_macro_7"@) == (15nat, 'a', 'm', '7', 'l', 'r', ' '));
        },
        ParamId::FormulaMacro8 => {
            reveal_strlit("formula_macro_8");
            assert(name_key("formula_macro_8"@) == (15nat, 'a', 'm', '8', 'l', 'r', ' '));
        },
        ParamId::FormulaOutputGain => {
            reveal_strlit("formula_output_gain");
            assert(name_key("formula_output_gain"@) == (19nat, 'u', 'm', '_', 'l', 'p', 'g'));
        },
        ParamId::FormulaOversampling => {
            reveal_strlit("formula_oversampling");
            assert(name_key("formula_oversampling"@) == (20nat, 'v', 'm', 'm', 'l', 'r', 'p'));
        },
        ParamId::FormulaDcBlock => {
            reveal_strlit("formula_dc_block");
            assert(name_key("formula_dc_block"@) == (16nat, 'c', 'm', 'c', 'l', 'b', 'k'));
        },
        ParamId::PianoTone => {
            reveal_strlit("piano_tone");
            assert(name_key("piano_tone"@) == (10nat, 'e', 'n', ' ', '_', ' ', ' '));
        },
        ParamId::PianoBrightness => {
            reveal_strlit("piano_brightness");
            assert(name_key("piano_brightness"@) == (16nat, 'g', 'n', 's', '_', 't', 's'));
        },
        ParamId::PianoHammerHardness => {
            reveal_strlit("piano_hammer_hardness");
            assert(name_key("piano_hammer_hardness"@) == (21nat, 'm', 'n', 'a', '_', 'r', 'r'));
        },
        ParamId::PianoHammerNoise => {
            reveal_strlit("piano_hammer_noise");
            assert(name_key("piano_hammer_noise"@) == (18nat, 'm', 'n', 'o', '_', 'r', 'i'));
        },
        ParamId::PianoInharmonicity => {
            reveal_strlit("piano_inharmonicity");
            assert(name_key("piano_inharmonicity"@) == (19nat, 'a', 'n', 'i', '_', 'm', 'c'));
        },
        ParamId::PianoDecay => {
            reveal_strlit("piano_decay");
            assert(name_key("piano_decay"@) == (11nat, 'a', 'n', ' ', '_', ' ', ' '));
        },
        ParamId::PianoRelease => {
            reveal_strlit("piano_release");
            assert(name_key("piano_release"@) == (13nat, 'e', 'n', ' ', '_', 's', ' '));
        },
        ParamId::PianoBodyAmount => {
            reveal_strlit("piano_body_amount");
            assert(name_key("piano_body_amount"@) == (17nat, 'y', 'n', 'u', '_', 'a', 'n'));
        },
        ParamId::PianoStereoWidth => {
            reveal_strlit("piano_stereo_width");
            assert(name_key("piano_stereo_width"@) == (18nat, 'r', 'n', 'i', '_', 'o', 'd'));
        },
        ParamId::PianoSympatheticAmount => {
            reveal_strlit("piano_sympathetic_amount");
            assert(name_key("piano_sympathetic_amount"@) == (24nat, 'p', 'n', 't', '_', 't', 'i'));
        },
        ParamId::PianoPedalResonance => {
            reveal_strlit("piano_pedal_resonance");
            assert(name_key("piano_pedal_resonance"@) == (21nat, 'a', 'n', 's', '_', '_', 'o'));
        },
        ParamId::PianoMasterGain => {
            reveal_strlit("piano_master_gain");
            assert(name_key("piano_master_gain"@) == (17nat, 't', 'n', 'a', '_', 'r', 'i'));
        },
        ParamId::ReverbMix => {
            reveal_strlit("reverb_mix");
            assert(name_key("reverb_mix"@) == (10nat, 'x', 'e', ' ', 'b', ' ', ' '));
        },
        ParamId::ReverbRoomSize => {
            reveal_strlit("reverb_room_size");
            assert(name_key("reverb_room_size"@) == (16nat, 'o', 'e', 'z', 'b', '_', 'e'));
        },
        ParamId::ReverbDecay => {
            reveal_strlit("reverb_decay");
            assert(name_key("reverb_decay"@) == (12nat, 'c', 'e', ' ', 'b', 'y', ' '));
        },
        ParamId::ReverbPreDelay => {
            reveal_strlit("reverb_pre_delay");
            assert(name_key("reverb_pre_delay"@) == (16nat, 'e', 'e', 'a', 'b', 'd', 'y'));
        },
        ParamId::ReverbDiffusion => {
            reveal_strlit("reverb_diffusion");
            assert(name_key("reverb_diffusion"@) == (16nat, 'f', 'e', 'o', 'b', 'u', 'n'));
        },
        ParamId::ReverbDamping => {
            reveal_strlit("reverb_damping");
            assert(name_key("reverb_damping"@) == (14nat, 'm', 'e', ' ', 'b', 'i', ' '));
        },
        ParamId::ReverbLowCut => {
            reveal_strlit("reverb_low_cut");
            assert(name_key("reverb_low_cut"@) == (14nat, 'w', 'e', ' ', 'b', 'c', ' '));
        },
        ParamId::ReverbHighCut => {
            reveal_strlit("reverb_high_cut");
            assert(name_key("reverb_high_cut"@) == (15nat, 'g', 'e', 't', 'b', '_', ' '));
        },
        ParamId::ReverbModRate => {
            reveal_strlit("reverb_mod_rate");
            assert(name_key("reverb_mod_rate"@) == (15nat, 'd', 'e', 'e', 'b', 'r', ' '));
        },
        ParamId::ReverbModDepth => {
            reveal_strlit("reverb_mod_depth");
            assert(name_key("reverb_mod_depth"@) == (16nat, 'd', 'e', 't', 'b', 'd', 'h'));
        },
        ParamId::ReverbWidth => {
            reveal_strlit("reverb_width");
            assert(name_key("reverb_width"@) == (12nat, 'd', 'e', ' ', 'b', 'h', ' '));
        },
        ParamId::ReverbEarlyLateMix => {
            reveal_strlit("reverb_early_late_mix");
            assert(name_key("reverb_early_late_mix"@) == (21nat, 'r', 'e', 'a', 'b', 'y', 't'));
        },
        ParamId::ReverbOutputGain => {
            reveal_strlit("reverb_output_gain");
            assert(name_key("reverb_output_gain"@) == (18nat, 't', 'e', 'g', 'b', 'u', 'a'));
        },
        ParamId::LimiterInputGain => {
            reveal_strlit("limiter_input_gain");
            assert(name_key("limiter_input_gain"@) == (18nat, 'n', 'i', 'g', 'e', 'u', 'a'));
        },
        ParamId::LimiterThreshold => {
            reveal_strlit("limiter_threshold");
            assert(name_key("limiter_threshold"@) == (17nat, 'h', 'i', 'o', 'e', 'e', 'l'));
        },
        ParamId::LimiterCeiling => {
            reveal_strlit("limiter_ceiling");
            assert(name_key("limiter_ceiling"@) == (15nat, 'e', 'i', 'g', 'e', 'l', ' '));
        },
        ParamId::LimiterRelease => {
            reveal_strlit("limiter_release");
            assert(name_key("limiter_release"@) == (15nat, 'e', 'i', 'e', 'e', 'e', ' '));
        },
        ParamId::LimiterLookahead => {
            reveal_strlit("limiter_lookahead");
            assert(name_key("limiter_lookahead"@) == (17nat, 'o', 'i', 'e', 'e', 'k', 'a'));
        },
        ParamId::LimiterStereoLink => {
            reveal_strlit("limiter_stereo_link");
            assert(name_key("limiter_stereo_link"@) == (19nat, 't', 'i', '_', 'e', 'r', 'l'));
        },
        ParamId::LimiterTruePeak => {
            reveal_strlit("limiter_true_peak");
            assert(name_key("limiter_true_peak"@) == (17nat, 'r', 'i', 'e', 'e', 'e', 'a'));
        },
        ParamId::LimiterOutputGain => {
            reveal_strlit("limiter_output_gain");
            assert(name_key("limiter_output_gain"@) == (19nat, 'u', 'i', '_', 'e', 'p', 'g'));
        },
        ParamId::CompressorInputGain => {
            reveal_strlit("compressor_input_gain");
            assert(name_key("compressor_input_gain"@) == (21nat, 'r', 'p', 'u', 'e', 'i', 't'));
        },
        ParamId::CompressorThreshold => {
            reveal_strlit("compressor_threshold");
            assert(name_key("compressor_threshold"@) == (20nat, 'r', 'p', 'e', 'e', 't', 's'));
        },
        ParamId::CompressorRatio => {
            reveal_strlit("compressor_ratio");
            assert(name_key("compressor_ratio"@) == (16nat, 'r', 'p', 'i', 'e', 'r', 'o'));
        },
        ParamId::CompressorKnee => {
            reveal_strlit("compressor_knee");
            assert(name_key("compressor_knee"@) == (15nat, 'r', 'p', 'e', 'e', 'k', ' '));
        },
        ParamId::CompressorAttack => {
            reveal_strlit("compressor_attack");
            assert(name_key("compressor_attack"@) == (17nat, 'r', 'p', 'a', 'e', 'a', 'c'));
        },
        ParamId::CompressorRelease => {
            reveal_strlit("compressor_release");
            assert(name_key("compressor_release"@) == (18nat, 'r', 'p', 'e', 'e', 'r', 'a'));
        },
        ParamId::CompressorMakeupGain => {
            reveal_strlit("compressor_makeup_gain");
            assert(name_key("compressor_makeup_gain"@) == (22nat, 'r', 'p', 'e', 'e', 'm', 'u'));
        },
        ParamId::CompressorMix => {
            reveal_strlit("compressor_mix");
            assert(name_key("compressor_mix"@) == (14nat, 'r', 'p', ' ', 'e', 'm', ' '));
        },
        ParamId::CompressorDetectorMode => {
            reveal_strlit("compressor_detector_mode");
            assert(name_key("compressor_detector_mode"@) == (24nat, 'r', 'p', 'e', 'e', 'd', 'c'));
        },
        ParamId::CompressorStereoLink => {
            reveal_strlit("compressor_stereo_link");
            assert(name_key("compressor_stereo_link"@) == (22nat, 'r', 'p', 'r', 'e', 's', 'e'));
        },
        ParamId::CompressorSidechainHpf => {
            reveal_strlit("compressor_sidechain_hpf");
            assert(name_key("compressor_sidechain_hpf"@) == (24nat, 'r', 'p', 'e', 'e', 's', 'c'));
        },
        ParamId::DrumKickLevel => {
            reveal_strlit("drum_kick_level");
            assert(name_key("drum_kick_level"@) == (15nat, '_', 'm', 'l', 'k', 'e', ' '));
        },
        ParamId::DrumSnareLevel => {
            reveal_strlit("drum_snare_level");
            assert(name_key("drum_snare_level"@) == (16nat, 'e', 'm', 'e', 's', 'l', 'l'));
        },
        ParamId::DrumTomLevel => {
            reveal_strlit("drum_tom_level");
            assert(name_key("drum_tom_level"@) == (14nat, 'l', 'm', ' ', 't', 'v', ' '));
        },
        ParamId::DrumHatLevel => {
            reveal_strlit("drum_hat_level");
            assert(name_key("drum_hat_level"@) == (14nat, 'l', 'm', ' ', 'h', 'v', ' '));
        },
        ParamId::DrumCymbalLevel => {
            reveal_strlit("drum_cymbal_level");
            assert(name_key("drum_cymbal_level"@) == (17nat, 'a', 'm', 'v', 'c', '_', 'e'));
        },
        ParamId::DrumTuning => {
            reveal_strlit("drum_tuning");
            assert(name_key("drum_tuning"@) == (11nat, 'n', 'm', ' ', 't', ' ', ' '));
        },
        ParamId::DrumDecay => {
            reveal_strlit("drum_decay");
            assert(name_key("drum_decay"@) == (10nat, 'y', 'm', ' ', 'd', ' ', ' '));
        },
        ParamId::DrumTone => {
            reveal_strlit("drum_tone");
            assert(name_key("drum_tone"@) == (9nat, ' ', 'm', ' ', 't', ' ', ' '));
        },
        ParamId::DrumSnareWire => {
            reveal_strlit("drum_snare_wire");
            assert(name_key("drum_snare_wire"@) == (15nat, 'e', 'm', 'e', 's', 'w', ' '));
        },
        ParamId::DrumRoomAmount => {
            reveal_strlit("drum_room_amount");
            assert(name_key("drum_room_amount"@) == (16nat, '_', 'm', 'n', 'r', 'm', 't'));
        },
        ParamId::DrumStereoWidth => {
            reveal_strlit("drum_stereo_width");
            assert(name_key("drum_stereo_width"@) == (17nat, 'e', 'm', 'd', 's', '_', 't'));
        },
        ParamId::DrumMasterGain => {
            reveal_strlit("drum_master_gain");
            assert(name_key("drum_master_gain"@) == (16nat, 'e', 'm', 'i', 'm', '_', 'n'));
        },
        ParamId::VcslMasterGain => {
            reveal_strlit("vcsl_master_gain");
            assert(name_key("vcsl_master_gain"@) == (16nat, 'e', 'l', 'i', 'm', '_', 'n'));
        },
        ParamId::VcslTone => {
            reveal_strlit("vcsl_tone");
            assert(name_key("vcsl_tone"@) == (9nat, ' ', 'l', ' ', 't', ' ', ' '));
        },
        ParamId::VcslVelocityCurve => {
            reveal_strlit("vcsl_velocity_curve");
            assert(name_key("vcsl_velocity_curve"@) == (19nat, 'c', 'l', 'c', 'v', 't', 'u'));
        },
        ParamId::VcslReleaseLevel => {
            reveal_strlit("vcsl_release_level");
            assert(name_key("vcsl_release_level"@) == (18nat, 'a', 'l', 'e', 'r', 'e', 'v'));
        },
        ParamId::VcslReleaseTime => {
            reveal_strlit("vcsl_release_time");
            assert(name_key("vcsl_release_time"@) == (17nat, 'a', 'l', 'i', 'r', 'e', 'm'));
        },
        ParamId::VcslStereoWidth => {
            reveal_strlit("vcsl_stereo_width");
            assert(name_key("vcsl_stereo_width"@) == (17nat, 'e', 'l', 'd', 's', '_', 't'));
        },
        ParamId::SamplerMasterGain => {
            reveal_strlit("sampler_master_gain");
            assert(name_key("sampler_master_gain"@) == (19nat, 'a', 'p', '_', 'e', 't', 'g'));
        },
        ParamId::SamplerRootNote => {
            reveal_strlit("sampler_root_note");
            assert(name_key("sampler_root_note"@) == (17nat, 'o', 'p', 'o', 'e', 't', 't'));
        },
        ParamId::SamplerTune => {
            reveal_strlit("sampler_tune");
            assert(name_key("sampler_tune"@) == (12nat, 'u', 'p', ' ', 'e', 'e', ' '));
        },
        ParamId::SamplerOffset => {
            reveal_strlit("sampler_offset");
            assert(name_key("sampler_offset"@) == (14nat, 'f', 'p', ' ', 'e', 's', ' '));
        },
        ParamId::SamplerVelocityCurve => {
            reveal_strlit("sampler_velocity_curve");
            assert(name_key("sampler_velocity_curve"@) == (22nat, 'e', 'p', 't', 'e', 'o', 'y'));
        },
        ParamId::SamplerReleaseTime => {
            reveal_strlit("sampler_release_time");
            assert(name_key("sampler_release_time"@) == (20nat, 'e', 'p', 'e', 'e', 'e', '_'));
        },
        ParamId::SamplerStereoWidth => {
            reveal_strlit("sampler_stereo_width");
            assert(name_key("sampler_stereo_width"@) == (20nat, 't', 'p', '_', 'e', 'r', 'w'));
        },
        ParamId::SamplerLoopMode => {
            reveal_strlit("sampler_loop_mode");
            assert(name_key("sampler_loop_mode"@) == (17nat, 'o', 'p', 'o', 'e', 'p', 'd'));
        },
        ParamId::SamplerLoopStart => {
            reveal_strlit("sampler_loop_start");
            assert(name_key("sampler_loop_start"@) == (18nat, 'o', 'p', 't', 'e', 'p', 'a'));
        },
        ParamId::SamplerLoopEnd => {
            reveal_strlit("sampler_loop_end");
            assert(name_key("sampler_loop_end"@) == (16nat, 'o', 'p', 'n', 'e', 'p', 'd'));
        },
        ParamId::SamplerLoopXfade => {
            reveal_strlit("sampler_loop_xfade");
            assert(name_key("sampler_loop_xfade"@) == (18nat, 'o', 'p', 'f', 'e', 'p', 'a'));
        },
        ParamId::SamplerUnisonVoices => {
            reveal_strlit("sampler_unison_voices");
            assert(name_key("sampler_unison_voices"@) == (21nat, 'n', 'p', '_', 'e', 's', 'v'));
        },
        ParamId::SamplerUnisonDetune => {
            reveal_strlit("sampler_unison_detune");
            assert(name_key("sampler_unison_detune"@) == (21nat, 'n', 'p', '_', 'e', 's', 'd'));
        },
        ParamId::SamplerUnisonSpread => {
            reveal_strlit("sampler_unison_spread");
            assert(name_key("sampler_unison_spread"@) == (21nat, 'n', 'p', '_', 'e', 's', 's'));
        },
        ParamId::DiffuserMix => {
            reveal_strlit("diffuser_mix");
            assert(name_key("diffuser_mix"@) == (12nat, 'm', 'f', ' ', 's', 'x', ' '));
        },
        ParamId::DiffuserDiffusion => {
            reveal_strlit("diffuser_diffusion");
            assert(name_key("diffuser_diffusion"@) == (18nat, 'd', 'f', 's', 's', 'f', 'i'));
        },
        ParamId::DiffuserSize => {
            reveal_strlit("diffuser_size");
            assert(name_key("diffuser_size"@) == (13nat, 's', 'f', ' ', 's', 'z', ' '));
        },
        ParamId::DiffuserWidth => {
            reveal_strlit("diffuser_width");
            assert(name_key("diffuser_width"@) == (14nat, 'w', 'f', ' ', 's', 'd', ' '));
        },
        ParamId::DiffuserOutputGain => {
            reveal_strlit("diffuser_output_gain");
            assert(name_key("diffuser_output_gain"@) == (20nat, 'o', 'f', 't', 's', 't', '_'));
        },
        ParamId::DiffuserAllpassCount => {
            reveal_strlit("diffuser_allpass_count");
            assert(name_key("diffuser_allpass_count"@) == (22nat, 'a', 'f', 's', 's', 'l', 's'));
        },
    }
}

/// Distinct parameters have distinct names.
pub proof fn lemma_names_are_unique(a: ParamId, b: ParamId)
    ensures
        a != b ==> a.name_of()@ != b.name_of()@,
{
    lemma_name_key_identifies(a);
    lemma_name_key_identifies(b);
}

impl ParamId {
    /// The parameters measured in each unit other than `Linear`: seconds for
    /// the envelope, decay, release and crossfade times; hertz for the LFO
    /// rate, the EQ band frequencies and the reverb's cut-offs and modulation
    /// rate; `Boolean` for the on/off switches; `Enum` for the choices among
    /// an enumeration's values. Every other parameter is `Linear`.
    pub proof fn lemma_units_by_kind(p: ParamId)
        ensures
            p.unit_of() == ParamUnit::Seconds <==> (p == ParamId::EnvAttack
                || p == ParamId::EnvDecay
                || p == ParamId::EnvRelease
                || p == ParamId::PianoDecay
                || p == ParamId::PianoRelease
                || p == ParamId::ReverbDecay
                || p == ParamId::VcslReleaseTime
                || p == ParamId::SamplerReleaseTime
                || p == ParamId::SamplerLoopXfade),
            p.unit_of() == ParamUnit::Hertz <==> (p == ParamId::LfoRateHz
                || p == ParamId::EqLowFreq
                || p == ParamId::EqMidFreq
                || p == ParamId::EqHighFreq
                || p == ParamId::ReverbLowCut
                || p == ParamId::ReverbHighCut
                || p == ParamId::ReverbModRate),
            p.unit_of() == ParamUnit::Boolean <==> (p == ParamId::LfoEnabled
                || p == ParamId::LfoRetrigger
                || p == ParamId::EqLowEnabled
                || p == ParamId::EqMidEnabled
                || p == ParamId::EqHighEnabled
                || p == ParamId::FormulaDcBlock
                || p == ParamId::LimiterTruePeak),
            p.unit_of() == ParamUnit::Enum <==> (p == ParamId::GeneratorKind
                || p == ParamId::EnvCurve
                || p == ParamId::LfoWaveform
                || p == ParamId::LfoTarget
                || p == ParamId::EqLowType
                || p == ParamId::EqMidType
                || p == ParamId::EqHighType
                || p == ParamId::FormulaProgram
                || p == ParamId::FormulaOversampling
                || p == ParamId::CompressorDetectorMode
                || p == ParamId::SamplerLoopMode),
    {
    }
}

impl ParamId {
    /// Each parameter of [`ParamId::ALL`] has a greater code than the one
    /// before it.
    proof fn lemma_all_adjacent_codes_increase()
        ensures
            forall|i: int| 0 <= i < 126 ==> (#[trigger] Self::ALL@[i]).code_of() < Self::ALL@[i + 1].code_of(),
    {
        assert forall|i: int| 0 <= i < 126 implies (#[trigger] Self::ALL@[i]).code_of() < Self::ALL@[i + 1].code_of() by {
        }
    }

    /// [`ParamId::ALL`] lists the parameters in increasing order of their
    /// codes.
    pub proof fn lemma_all_is_sorted_by_code()
        ensures
            forall|i: int, j: int|
                0 <= i < j < Self::ALL@.len() ==> (#[trigger] Self::ALL@[i]).code_of() < (
                #[trigger] Self::ALL@[j]).code_of(),
    {
        assert(Self::ALL@.len() == 127);
        let codes = Seq::new(127, |i: int| Self::ALL@[i].code_of() as int);
        Self::lemma_all_adjacent_codes_increase();
        assert forall|i: int| 0 <= i < codes.len() - 1 implies #[trigger] codes[i] < codes[i + 1] by {
            assert(Self::ALL@[i].code_of() < Self::ALL@[i + 1].code_of());
        }
        lemma_adjacent_increase_sorts(codes);
        assert forall|i: int, j: int|
            0 <= i < j < Self::ALL@.len() implies (#[trigger] Self::ALL@[i]).code_of() < (
            #[trigger] Self::ALL@[j]).code_of() by {
            assert(codes[i] < codes[j]);
        }
    }
}

/// A sequence that increases from each element to the next is strictly
/// increasing.
proof fn lemma_adjacent_increase_sorts(s: Seq<int>)
    requires
        forall|i: int| 0 <= i < s.len() - 1 ==> #[trigger] s[i] < s[i + 1],
    ensures
        forall|i: int, j: int| 0 <= i < j < s.len() ==> #[trigger] s[i] < #[trigger] s[j],
    decreases s.len(),
{
    if s.len() > 1 {
        let init = s.drop_last();
        assert forall|i: int| 0 <= i < init.len() - 1 implies #[trigger] init[i] < init[i + 1] by {
            assert(s[i] < s[i + 1]);
        }
        lemma_adjacent_increase_sorts(init);
        assert forall|i: int, j: int| 0 <= i < j < s.len() implies #[trigger] s[i] < #[trigger] s[j] by {
            if j == s.len() - 1 {
                if i < j - 1 {
                    assert(init[i] < init[j - 1]);
                }
                assert(s[j - 1] < s[j]);
            } else {
                assert(init[i] < init[j]);
            }
        }
    }
}

} // verus!
