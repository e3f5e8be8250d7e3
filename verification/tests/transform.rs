use bit_flipper::model::modes::FlipModes;
use bit_flipper::sample::{clamp, INFINITY, MAGNITUDE_MASK, NEG_ONE, ONE, SIGN_BIT, ZERO};

const MODES: [FlipModes; 4] = [FlipModes::And, FlipModes::Or, FlipModes::Not, FlipModes::Xor];

/// The transform written with floating-point numbers.
fn reference(mode: FlipModes, sample: f32, mask: u32) -> f32 {
    let bits = sample.to_bits();
    let flipped = match mode {
        FlipModes::And => bits & mask,
        FlipModes::Or => bits | mask,
        FlipModes::Not => !bits,
        FlipModes::Xor => bits ^ mask,
    };
    let value = f32::from_bits(flipped);
    if value.is_nan() {
        0.0
    } else {
        value.clamp(-1.0, 1.0)
    }
}

fn transform(mode: FlipModes, sample: f32, mask: u32) -> f32 {
    f32::from_bits(mode.transform(sample.to_bits(), mask))
}

/// A fixed walk over all kinds of bit patterns.
fn patterns() -> Vec<u32> {
    let mut out = vec![
        0x0000_0000,
        0x8000_0000,
        0x0000_0001,
        0x8000_0001,
        0x007F_FFFF,
        0x0080_0000,
        0x3F7F_FFFF,
        0x3F80_0000,
        0x3F80_0001,
        0xBF7F_FFFF,
        0xBF80_0000,
        0xBF80_0001,
        0x7F7F_FFFF,
        0x7F80_0000,
        0x7F80_0001,
        0x7FC0_0000,
        0x7FFF_FFFF,
        0xFF7F_FFFF,
        0xFF80_0000,
        0xFF80_0001,
        0xFFC0_0000,
        0xFFFF_FFFF,
        0x3F00_0000,
        0xBE80_0000,
        0x4000_0000,
        0xC000_0000,
    ];
    let mut state: u32 = 0x1234_5678;
    for _ in 0..4000 {
        state = state.wrapping_mul(1_664_525).wrapping_add(1_013_904_223);
        out.push(state);
    }
    out
}

#[test]
fn clamp_agrees_with_float_clamp() {
    for bits in patterns() {
        let value = f32::from_bits(bits);
        let clamped = clamp(bits);
        if value.is_nan() {
            assert_eq!(clamped, ZERO);
        } else {
            assert_eq!(clamped, value.clamp(-1.0, 1.0).to_bits(), "pattern {bits:#010x}");
        }
    }
}

#[test]
fn clamp_keeps_the_sign_of_zero() {
    assert_eq!(clamp(0x8000_0000), 0x8000_0000);
    assert_eq!(clamp(0x0000_0000), 0x0000_0000);
}

#[test]
fn clamp_at_the_ends_of_the_range() {
    assert_eq!(clamp(ONE), ONE);
    assert_eq!(clamp(NEG_ONE), NEG_ONE);
    assert_eq!(clamp(ONE + 1), ONE);
    assert_eq!(clamp(NEG_ONE + 1), NEG_ONE);
    assert_eq!(clamp(ONE - 1), ONE - 1);
    assert_eq!(clamp(INFINITY), ONE);
    assert_eq!(clamp(INFINITY | SIGN_BIT), NEG_ONE);
    assert_eq!(clamp(INFINITY + 1), ZERO);
    assert_eq!(clamp(0xFFFF_FFFF), ZERO);
}

#[test]
fn constants_are_the_patterns_they_name() {
    assert_eq!(ZERO, 0.0f32.to_bits());
    assert_eq!(ONE, 1.0f32.to_bits());
    assert_eq!(NEG_ONE, (-1.0f32).to_bits());
    assert_eq!(INFINITY, f32::INFINITY.to_bits());
    assert_eq!(SIGN_BIT, (-0.0f32).to_bits());
    assert_eq!(MAGNITUDE_MASK, !SIGN_BIT);
}

#[test]
fn transform_agrees_with_the_float_transform() {
    let masks = patterns();
    for (k, bits) in patterns().into_iter().enumerate() {
        let mask = masks[(k * 7 + 3) % masks.len()];
        let sample = f32::from_bits(bits);
        for mode in MODES {
            let got = mode.transform(bits, mask);
            let want = reference(mode, sample, mask);
            assert_eq!(got, want.to_bits(), "{mode:?} of {bits:#010x} with {mask:#010x}");
        }
    }
}

#[test]
fn each_operator_on_chosen_values() {
    // 0.75 is 0x3F400000; clearing the top fraction bit leaves 0.5.
    assert_eq!(transform(FlipModes::And, 0.75, 0xFFBF_FFFF), 0.5);
    // 0.5 is 0x3F000000; setting the top fraction bit gives 0.75.
    assert_eq!(transform(FlipModes::Or, 0.5, 0x0040_0000), 0.75);
    // Flipping the sign bit alone negates.
    assert_eq!(transform(FlipModes::Xor, 0.25, 0x8000_0000), -0.25);
    // Not of 0.5 is 0xC0FFFFFF, just under -8.0: it saturates.
    assert_eq!(transform(FlipModes::Not, 0.5, 0), -1.0);
    assert_eq!(transform(FlipModes::Not, 0.5, 0xFFFF_FFFF), -1.0);
    // Not of -0.5 is 0x40FFFFFF, just under 8.0.
    assert_eq!(transform(FlipModes::Not, -0.5, 0), 1.0);
    // Not of +0.0 is all ones, which is not a number.
    assert_eq!(FlipModes::Not.transform(0, 0), ZERO);
}

#[test]
fn not_twice_gives_back_only_zeros_and_the_ends() {
    for bits in patterns() {
        let sample = f32::from_bits(bits);
        for mask in [0u32, 0xFFFF_FFFF, 0x0F0F_0F0F] {
            let once = FlipModes::Not.transform(bits, mask);
            let twice = f32::from_bits(FlipModes::Not.transform(once, mask));
            let comes_back = twice == sample;
            let expected = sample == 0.0 || sample == 1.0 || sample == -1.0;
            assert_eq!(comes_back, expected, "pattern {bits:#010x}");
        }
    }
    assert_eq!(transform(FlipModes::Not, transform(FlipModes::Not, 1.0, 0), 0), 1.0);
    assert_eq!(transform(FlipModes::Not, transform(FlipModes::Not, -1.0, 0), 0), -1.0);
    assert_eq!(transform(FlipModes::Not, transform(FlipModes::Not, 0.0, 0), 0), 0.0);
    assert_eq!(transform(FlipModes::Not, transform(FlipModes::Not, 0.5, 0), 0), 1.0);
}

#[test]
fn not_twice_without_saturation_is_the_clamped_sample() {
    // Not of 2.5 (0x40200000) is 0xBFDFFFFF... which is beyond the range, but
    // Not of 0xC07FFFFF is 0x3F800000, in the range.
    let sample = 0xC07F_FFFFu32;
    let once = FlipModes::Not.transform(sample, 0);
    assert_eq!(once, ONE);
    assert_eq!(FlipModes::Not.transform(once, 0), clamp(sample));
    assert_eq!(clamp(sample), NEG_ONE);
}

#[test]
fn xor_twice_gives_back_the_sample_where_nothing_saturates() {
    let masks = [0x0000_0001u32, 0x8000_0000, 0x007F_FFFF, 0x8040_0000, 0x0000_0000];
    let mut checked = 0;
    for bits in patterns() {
        let sample = f32::from_bits(bits);
        if !(sample.abs() <= 1.0) {
            continue;
        }
        for mask in masks {
            let flipped = f32::from_bits(bits ^ mask);
            if !(flipped.abs() <= 1.0) {
                continue;
            }
            let once = FlipModes::Xor.transform(bits, mask);
            assert_eq!(FlipModes::Xor.transform(once, mask), bits);
            checked += 1;
        }
    }
    assert!(checked > 1000);
}

#[test]
fn xor_twice_can_fail_where_the_first_step_saturates() {
    // 0.5 with the top exponent bit flipped is 2^127, which saturates to 1.0;
    // 1.0 with that bit flipped is infinity, which saturates to 1.0 again.
    let once = transform(FlipModes::Xor, 0.5, 0x4000_0000);
    assert_eq!(once, 1.0);
    assert_eq!(transform(FlipModes::Xor, once, 0x4000_0000), 1.0);
}

#[test]
fn and_with_empty_mask_is_zero() {
    for bits in patterns() {
        assert_eq!(FlipModes::And.transform(bits, 0), ZERO);
    }
    assert_eq!(transform(FlipModes::And, 0.8, 0), 0.0);
}

#[test]
fn output_is_always_a_number_in_the_unit_range() {
    let masks = patterns();
    for (k, bits) in patterns().into_iter().enumerate() {
        for mode in MODES {
            for mask in [masks[k], 0, 0xFFFF_FFFF, 0x7F80_0000, 0x8000_0000] {
                let out = f32::from_bits(mode.transform(bits, mask));
                assert!(!out.is_nan());
                assert!((-1.0..=1.0).contains(&out));
            }
        }
    }
}

#[test]
fn xor_low_bit_of_one_clamps_back_to_one() {
    let flipped = 1.0f32.to_bits() ^ 0x0000_0001;
    assert_eq!(flipped, 0x3F80_0001);
    assert!(f32::from_bits(flipped) > 1.0);
    assert!((f32::from_bits(flipped) - 1.000_000_119_2).abs() < 1e-9);
    assert_eq!(FlipModes::Xor.transform(0x3F80_0000, 0x0000_0001), ONE);
    assert_eq!(transform(FlipModes::Xor, 1.0, 1), 1.0);
}

#[test]
fn default_mode_is_xor() {
    assert_eq!(FlipModes::default(), FlipModes::Xor);
}

#[test]
fn transform_block_transforms_each_sample() {
    let input = patterns();
    for mode in MODES {
        let mut block = input.clone();
        mode.transform_block(&mut block, 0x00FF_00FF);
        assert_eq!(block.len(), input.len());
        for (out, sample) in block.iter().zip(input.iter()) {
            assert_eq!(*out, mode.transform(*sample, 0x00FF_00FF));
        }
    }
    let mut empty: [u32; 0] = [];
    FlipModes::Xor.transform_block(&mut empty, 1);
}
