//! The thirty-two mask flags and the mask they assemble.

use vstd::prelude::*;

verus! {

/// Number of flags, one for each bit of the mask.
pub const BIT_COUNT: u8 = 32;

/// The mask flags. The flag with id `n`, counted from 1, stands at index
/// `n - 1` and decides bit `n - 1` of the mask, bit 0 being the lowest.
#[derive(Clone, Copy, Debug)]
pub struct BitParams {
    pub flags: [bool; 32],
}

/// Whether bit `index` of `mask` is set, bit 0 being the lowest.
pub open spec fn has_bit(mask: u32, index: u32) -> bool {
    (mask >> index) & 1 == 1
}

/// Setting bit `index` of a mask changes that bit and no other.
proof fn lemma_set_bit(mask: u32, index: u32, other: u32)
    by (bit_vector)
    requires
        index < 32,
        other < 32,
    ensures
        has_bit(mask | (1u32 << index), other) == (other == index || has_bit(mask, other)),
{
}

/// Two masks that agree on each of the thirty-two bits, written out one by one,
/// are the same mask.
proof fn lemma_same_bits_unrolled(a: u32, b: u32)
    by (bit_vector)
    requires
        has_bit(a, 0) == has_bit(b, 0),
        has_bit(a, 1) == has_bit(b, 1),
        has_bit(a, 2) == has_bit(b, 2),
        has_bit(a, 3) == has_bit(b, 3),
        has_bit(a, 4) == has_bit(b, 4),
        has_bit(a, 5) == has_bit(b, 5),
        has_bit(a, 6) == has_bit(b, 6),
        has_bit(a, 7) == has_bit(b, 7),
        has_bit(a, 8) == has_bit(b, 8),
        has_bit(a, 9) == has_bit(b, 9),
        has_bit(a, 10) == has_bit(b, 10),
        has_bit(a, 11) == has_bit(b, 11),
        has_bit(a, 12) == has_bit(b, 12),
        has_bit(a, 13) == has_bit(b, 13),
        has_bit(a, 14) == has_bit(b, 14),
        has_bit(a, 15) == has_bit(b, 15),
        has_bit(a, 16) == has_bit(b, 16),
        has_bit(a, 17) == has_bit(b, 17),
        has_bit(a, 18) == has_bit(b, 18),
        has_bit(a, 19) == has_bit(b, 19),
        has_bit(a, 20) == has_bit(b, 20),
        has_bit(a, 21) == has_bit(b, 21),
        has_bit(a, 22) == has_bit(b, 22),
        has_bit(a, 23) == has_bit(b, 23),
        has_bit(a, 24) == has_bit(b, 24),
        has_bit(a, 25) == has_bit(b, 25),
        has_bit(a, 26) == has_bit(b, 26),
        has_bit(a, 27) == has_bit(b, 27),
        has_bit(a, 28) == has_bit(b, 28),
        has_bit(a, 29) == has_bit(b, 29),
        has_bit(a, 30) == has_bit(b, 30),
        has_bit(a, 31) == has_bit(b, 31),
    ensures
        a == b,
{
}

/// A mask is determined by its bits: two masks that agree on every bit are equal.
pub proof fn lemma_same_bits(a: u32, b: u32)
    requires
        forall|i: u32| i < 32 ==> #[trigger] has_bit(a, i) == has_bit(b, i),
    ensures
        a == b,
{
    lemma_same_bits_unrolled(a, b);
}

impl BitParams {
    /// The flag with the given id; ids run from 1 to 32.
    pub open spec fn flag(self, id: int) -> bool
        recommends
            1 <= id <= 32,
    {
        self.flags@[id - 1]
    }

    /// The flag with the given id, or nothing where no flag has that id.
    pub fn get_bit_param(&self, id: u8) -> (found: Option<bool>)
        ensures
            1 <= id <= 32 ==> found == Some(self.flag(id as int)),
            !(1 <= id <= 32) ==> found is None,
    {
        if 1 <= id && id <= BIT_COUNT {
            Some(self.flags[(id - 1) as usize])
        } else {
            None
        }
    }

    /// Assembles the mask: bit `i` is set exactly when the flag with id `i + 1` is.
    pub fn to_u32(&self) -> (mask: u32)
        ensures
            forall|i: u32| i < 32 ==> #[trigger] has_bit(mask, i) == self.flag(i + 1),
    {
        let mut result: u32 = 0;
        let mut bit: u32 = 0;
        assert(forall|j: u32| j < 32 ==> !#[trigger] has_bit(0u32, j)) by {
            assert(forall|j: u32| j < 32 ==> (0u32 >> j) & 1 == 0) by (bit_vector);
        }
        while bit < 32
            invariant
                bit <= 32,
                forall|j: u32| j < bit ==> #[trigger] has_bit(result, j) == self.flag(j + 1),
                forall|j: u32| bit <= j < 32 ==> !#[trigger] has_bit(result, j),
            decreases 32 - bit,
        {
            if self.flags[bit as usize] {
                let ghost before = result;
                result = result | (1u32 << bit);
                proof {
                    assert forall|j: u32| j < 32 implies #[trigger] has_bit(result, j) == (j == bit
                        || has_bit(before, j)) by {
                        lemma_set_bit(before, bit, j);
                    }
                }
            }
            bit = bit + 1;
        }
        result
    }
}

impl Default for BitParams {
    /// Every flag cleared.
    fn default() -> (params: Self)
        ensures
            forall|id: int| 1 <= id <= 32 ==> !#[trigger] params.flag(id),
    {
        BitParams { flags: [false; 32] }
    }
}

} // verus!
