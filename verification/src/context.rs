//! Signal-rate tags shared by processing nodes.

use vstd::prelude::*;

verus! {

/// The rate at which a signal is produced/consumed. Reserved for future use,
/// e.g. distinguishing audio-rate from control-rate buffers in a node graph.
#[derive(Debug, Clone, Copy, PartialEq, Eq, Structural)]
pub enum SignalRate {
    Audio,
    Control,
    Event,
}

} // verus!
