//! The bitwise operator of the effect and the transform it defines.

use vstd::prelude::*;
use crate::sample::{clamp, clamp_unit, in_unit_range, magnitude, same_number, ONE, ZERO};

verus! {

/// The bitwise operator that combines a sample's bit pattern with the mask.
#[derive(Clone, Copy, Debug, PartialEq, Eq, Structural)]
pub enum FlipModes {
    And,
    Or,
    Not,
    Xor,
}

impl Default for FlipModes {
    /// The operator that the effect starts with.
    fn default() -> (mode: Self)
        ensures
            mode == FlipModes::Xor,
    {
        FlipModes::Xor
    }
}

impl FlipModes {
    /// The pattern after the operator, before any clamping. `Not` ignores the mask.
    pub open spec fn flip(self, bits: u32, mask: u32) -> u32 {
        match self {
            FlipModes::And => bits & mask,
            FlipModes::Or => bits | mask,
            FlipModes::Not => !bits,
            FlipModes::Xor => bits ^ mask,
        }
    }

    /// The transformed sample: the flipped pattern, brought into the unit range.
    pub open spec fn transformed(self, sample: u32, mask: u32) -> u32 {
        clamp_unit(self.flip(sample, mask))
    }

    /// Applies the operator to a sample's bit pattern and clamps the result to
    /// the unit range. The result is a number for every sample and mask.
    pub fn transform(&self, sample: u32, mask: u32) -> (out: u32)
        ensures
            out == self.transformed(sample, mask),
            in_unit_range(out),
    {
        let flipped: u32 = match self {
            FlipModes::And => sample & mask,
            FlipModes::Or => sample | mask,
            FlipModes::Not => !sample,
            FlipModes::Xor => sample ^ mask,
        };
        clamp(flipped)
    }

    /// Transforms every sample of a block in place, each by itself and all with
    /// the same operator and mask.
    pub fn transform_block(&self, samples: &mut [u32], mask: u32)
        ensures
            final(samples)@.len() == old(samples)@.len(),
            forall|i: int|
                0 <= i < old(samples)@.len() ==> #[trigger] final(samples)@[i] == self.transformed(
                    old(samples)@[i],
                    mask,
                ),
    {
        let n: usize = samples.len();
        let mut i: usize = 0;
        while i < n
            invariant
                i <= n,
                n == samples@.len(),
                samples@.len() == old(samples)@.len(),
                forall|j: int|
                    0 <= j < i ==> #[trigger] samples@[j] == self.transformed(old(samples)@[j], mask),
                forall|j: int| i <= j < n ==> #[trigger] samples@[j] == old(samples)@[j],
            decreases n - i,
        {
            let out = self.transform(samples[i], mask);
            samples[i] = out;
            i = i + 1;
        }
    }
}

/// `Not` undoes itself on the raw pattern, and so does `Xor` with one mask:
/// before clamping, each operator is its own inverse.
pub proof fn lemma_flip_twice(bits: u32, mask: u32)
    ensures
        FlipModes::Not.flip(FlipModes::Not.flip(bits, mask), mask) == bits,
        FlipModes::Xor.flip(FlipModes::Xor.flip(bits, mask), mask) == bits,
{
    assert(!!bits == bits && (bits ^ mask) ^ mask == bits) by (bit_vector);
}

/// Transforming twice with `Not`. Where the first transform did not have to
/// clamp, the second gives back the sample, clamped. The sample itself comes
/// back, as a number, exactly when it is a zero or one of the ends of the unit
/// range: on every other sample in the range the first transform saturates.
pub proof fn lemma_not_twice(sample: u32, mask: u32)
    ensures
        in_unit_range(!sample) ==> FlipModes::Not.transformed(
            FlipModes::Not.transformed(sample, mask),
            mask,
        ) == clamp_unit(sample),
        same_number(
            FlipModes::Not.transformed(FlipModes::Not.transformed(sample, mask), mask),
            sample,
        ) <==> (magnitude(sample) == 0 || magnitude(sample) == ONE),
{
    let once = clamp_unit(!sample);
    let twice = clamp_unit(!once);
    assert(once == FlipModes::Not.transformed(sample, mask));
    assert(twice == FlipModes::Not.transformed(once, mask));
    assert(in_unit_range(!sample) ==> clamp_unit(!clamp_unit(!sample)) == clamp_unit(sample))
        by (bit_vector);
    assert(same_number(clamp_unit(!clamp_unit(!sample)), sample) <==> (magnitude(sample) == 0
        || magnitude(sample) == ONE)) by (bit_vector);
}

/// Transforming twice with `Xor` and one mask. Where the first transform did
/// not have to clamp, the second gives back the sample, clamped; so a sample in
/// the unit range whose flipped pattern is in the range too comes back as it was.
pub proof fn lemma_xor_twice(sample: u32, mask: u32)
    ensures
        in_unit_range(sample ^ mask) ==> FlipModes::Xor.transformed(
            FlipModes::Xor.transformed(sample, mask),
            mask,
        ) == clamp_unit(sample),
        in_unit_range(sample ^ mask) && in_unit_range(sample) ==> FlipModes::Xor.transformed(
            FlipModes::Xor.transformed(sample, mask),
            mask,
        ) == sample,
{
    let once = clamp_unit(sample ^ mask);
    let twice = clamp_unit(once ^ mask);
    assert(once == FlipModes::Xor.transformed(sample, mask));
    assert(twice == FlipModes::Xor.transformed(once, mask));
    assert(in_unit_range(sample ^ mask) ==> clamp_unit(clamp_unit(sample ^ mask) ^ mask)
        == clamp_unit(sample)) by (bit_vector);
}

/// `And` with an empty mask clears every bit: whatever the sample, the result
/// is `+0.0`, not the sample.
pub proof fn lemma_and_zero_mask(sample: u32)
    ensures
        FlipModes::And.transformed(sample, 0) == ZERO,
{
    assert(clamp_unit(sample & 0) == ZERO) by (bit_vector);
}

/// Every transformed sample is a number in the unit range, whatever the
/// sample, the operator and the mask.
pub proof fn lemma_transformed_in_range(mode: FlipModes, sample: u32, mask: u32)
    ensures
        in_unit_range(mode.transformed(sample, mask)),
        !crate::sample::is_nan(mode.transformed(sample, mask)),
{
    let flipped = mode.flip(sample, mask);
    assert(in_unit_range(clamp_unit(flipped)) && !crate::sample::is_nan(clamp_unit(flipped)))
        by (bit_vector);
}

} // verus!
