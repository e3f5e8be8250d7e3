//! What the transform monitor shows: the mask and the operator in use.

use vstd::prelude::*;
use crate::model::modes::FlipModes;

verus! {

/// The mask and the operator that the transform monitor draws a wave through.
#[derive(Clone, Copy, Debug, PartialEq, Eq, Structural)]
pub struct MonitorParams {
    pub bits: u32,
    pub mode: FlipModes,
}

impl MonitorParams {
    /// The parameters for a mask and an operator.
    pub fn new(bits: u32, mode: FlipModes) -> (params: Self)
        ensures
            params == (MonitorParams { bits, mode }),
    {
        MonitorParams { bits, mode }
    }

    /// The wave as the monitor shows it: each sample transformed with the
    /// monitor's operator and mask.
    pub fn remap(&self, wave: &mut [u32])
        ensures
            final(wave)@.len() == old(wave)@.len(),
            forall|i: int|
                0 <= i < old(wave)@.len() ==> #[trigger] final(wave)@[i] == self.mode.transformed(
                    old(wave)@[i],
                    self.bits,
                ),
    {
        self.mode.transform_block(wave, self.bits);
    }
}

impl Default for MonitorParams {
    /// An empty mask with the default operator.
    fn default() -> (params: Self)
        ensures
            params == (MonitorParams { bits: 0, mode: FlipModes::Xor }),
    {
        MonitorParams { bits: 0, mode: FlipModes::default() }
    }
}

} // verus!
