//! Verified core of a realtime audio DSP library: parameter identifiers and
//! enum encodings, the formula VM's stack checker, circular delay lines,
//! sampler voice allocation and the envelope stage machine.

pub mod context;
pub mod delay;
pub mod dynamics;
pub mod effects;
pub mod excitation;
pub mod formula;
pub mod generators;
pub mod modulators;
pub mod params;
pub mod sampler;
