use bit_flipper::button::{Button, ButtonBuilder, BUTTON_SIZE};
use bit_flipper::digit::{pick_uv, Digit, DigitCluster, DigitType, DIGIT_COUNT, DIGIT_SIZE};
use bit_flipper::model::bits::BitParams;
use bit_flipper::model::modes::FlipModes;
use bit_flipper::static_box::StaticBox;
use bit_flipper::texture::UVSegment;

const ONES: [UVSegment; 8] = [
    UVSegment::UV_digi_1_0,
    UVSegment::UV_digi_1_1,
    UVSegment::UV_digi_1_2,
    UVSegment::UV_digi_1_3,
    UVSegment::UV_digi_1_4,
    UVSegment::UV_digi_1_5,
    UVSegment::UV_digi_1_6,
    UVSegment::UV_digi_1_7,
];

const ZEROS: [UVSegment; 8] = [
    UVSegment::UV_digi_0_0,
    UVSegment::UV_digi_0_1,
    UVSegment::UV_digi_0_2,
    UVSegment::UV_digi_0_3,
    UVSegment::UV_digi_0_4,
    UVSegment::UV_digi_0_5,
    UVSegment::UV_digi_0_6,
    UVSegment::UV_digi_0_7,
];

#[test]
fn digit_type_of_a_flag() {
    assert_eq!(DigitType::from(true), DigitType::One);
    assert_eq!(DigitType::from(false), DigitType::Zero);
}

#[test]
fn each_draw_has_its_picture() {
    for n in 0..8u8 {
        assert_eq!(pick_uv(DigitType::One, n), ONES[n as usize]);
        assert_eq!(pick_uv(DigitType::Zero, n), ZEROS[n as usize]);
    }
    for n in [8u8, 9, 100, 255] {
        assert_eq!(pick_uv(DigitType::One, n), UVSegment::UV_digi_1_0);
        assert_eq!(pick_uv(DigitType::Zero, n), UVSegment::UV_digi_0_0);
    }
}

#[test]
fn random_pictures_are_pictures_of_the_digit_and_vary() {
    let digit = Digit::new(5, (10, 10));
    let mut seen_ones = Vec::new();
    let mut seen_zeros = Vec::new();
    for _ in 0..2000 {
        let one = digit.random_uv(DigitType::One);
        assert!(ONES.contains(&one));
        if !seen_ones.contains(&one) {
            seen_ones.push(one);
        }
        let zero = digit.random_uv(DigitType::Zero);
        assert!(ZEROS.contains(&zero));
        if !seen_zeros.contains(&zero) {
            seen_zeros.push(zero);
        }
    }
    assert_eq!(seen_ones.len(), 8);
    assert_eq!(seen_zeros.len(), 8);
}

#[test]
fn digit_box_is_one_pixel_left_of_its_picture() {
    let digit = Digit::new(32, (74, 30));
    assert_eq!(digit.id(), 32);
    assert!(digit.is_on());
    assert_eq!(digit.position(), (73, 30));
    assert_eq!((digit.width(), digit.height()), (11, 11));
    assert_eq!(DIGIT_SIZE, 11);
    assert_eq!(Digit::new(1, (1, 0)).position(), (0, 0));
}

#[test]
fn prerender_follows_the_flag() {
    let mut bits = BitParams::default();
    let mut digit = Digit::new(7, (75, 45));
    let redraw = digit.prerender(&bits);
    assert!(!digit.is_on());
    assert!(ZEROS.contains(&redraw.unwrap()));
    assert_eq!(digit.prerender(&bits), None);
    assert!(!digit.is_on());
    bits.flags[6] = true;
    let redraw = digit.prerender(&bits);
    assert!(digit.is_on());
    assert!(ONES.contains(&redraw.unwrap()));
    assert_eq!(digit.prerender(&bits), None);
    assert_eq!(digit.id(), 7);
    assert_eq!(digit.position(), (74, 45));
}

#[test]
fn digit_without_a_flag_shows_zero() {
    let bits = BitParams { flags: [true; 32] };
    for id in [0u8, 33, 200] {
        let mut digit = Digit::new(id, (5, 5));
        let redraw = digit.prerender(&bits);
        assert!(!digit.is_on());
        assert!(ZEROS.contains(&redraw.unwrap()));
    }
    let mut digit = Digit::new(32, (5, 5));
    assert_eq!(digit.prerender(&bits), None);
    assert!(digit.is_on());
}

#[test]
fn cluster_places_one_digit_for_each_flag() {
    let cluster = DigitCluster::new();
    assert_eq!(cluster.digits.len(), DIGIT_COUNT);
    assert_eq!(cluster.digits.len(), 32);
    for (k, digit) in cluster.digits.iter().enumerate() {
        assert_eq!(digit.id() as usize, 32 - k);
        assert!(digit.is_on());
    }
    let place = |k: usize| {
        let digit = &cluster.digits[k];
        let (x, y) = digit.position();
        (x + 1, y)
    };
    assert_eq!(place(0), (74, 30));
    assert_eq!(place(1), (75, 45));
    assert_eq!(place(4), (108, 45));
    assert_eq!(place(5), (75, 56));
    assert_eq!(place(8), (108, 56));
    assert_eq!(place(9), (75, 71));
    assert_eq!(place(12), (108, 71));
    assert_eq!(place(13), (75, 82));
    assert_eq!(place(31), (97, 126));
    for i in 0..8usize {
        assert_eq!(place(1 + i), ((75 + (i & 3) * 11) as u16, (45 + (i / 4) * 11) as u16));
    }
    for i in 0..23usize {
        assert_eq!(place(9 + i), ((75 + (i & 3) * 11) as u16, (71 + (i / 4) * 11) as u16));
    }
}

#[test]
fn buttons_of_the_four_operators() {
    let builder = ButtonBuilder::new();
    let table = [
        (FlipModes::Xor, UVSegment::UV_btn_xor, (46, 51)),
        (FlipModes::Or, UVSegment::UV_btn_or, (46, 68)),
        (FlipModes::And, UVSegment::UV_btn_and, (46, 85)),
        (FlipModes::Not, UVSegment::UV_btn_not, (46, 102)),
    ];
    for (mode, picture, position) in table {
        let button = builder.mode(mode);
        assert_eq!(button, Button::new(mode, picture, position));
        assert_eq!(button.get_state(), mode);
        assert_eq!(button.position(), position);
        assert_eq!((button.width(), button.height()), (16, 16));
        assert_eq!(button.uv_segment, picture);
        assert!(!button.is_on);
        assert_eq!(button.static_box, StaticBox { position, width: 16, height: 16 });
    }
    assert_eq!(BUTTON_SIZE, 16);
}

#[test]
fn button_is_lit_for_its_own_operator() {
    let mut button = ButtonBuilder::new().mode(FlipModes::And);
    button.prerender(FlipModes::Xor);
    assert!(!button.is_on);
    button.prerender(FlipModes::And);
    assert!(button.is_on);
    button.onclick();
    assert!(!button.is_on);
    button.onclick();
    assert!(button.is_on);
    assert_eq!(button.get_state(), FlipModes::And);
}

#[test]
fn digit_under_a_point_is_the_first_that_covers_it() {
    let cluster = DigitCluster::new();
    // The digit of flag 32 has its picture at (74, 30), so its box starts at (73, 30).
    assert_eq!(cluster.digit_at((73, 30)), Some(0));
    assert_eq!(cluster.digit_at((83, 40)), Some(0));
    assert_eq!(cluster.digit_at((84, 40)), None);
    assert_eq!(cluster.digit_at((72, 30)), None);
    assert_eq!(cluster.digit_at((73, 41)), None);
    // Flag 31 at (75, 45) and flag 30 at (86, 45): their boxes touch at column 85.
    assert_eq!(cluster.digit_at((74, 45)), Some(1));
    assert_eq!(cluster.digit_at((84, 55)), Some(1));
    assert_eq!(cluster.digit_at((85, 45)), Some(2));
    // Rows are eleven pixels apart and eleven high: the second row starts at 56.
    assert_eq!(cluster.digit_at((74, 56)), Some(5));
    // The last digit, flag 1, at (97, 126).
    assert_eq!(cluster.digit_at((96, 126)), Some(31));
    assert_eq!(cluster.digit_at((106, 136)), Some(31));
    assert_eq!(cluster.digit_at((107, 136)), None);
    assert_eq!(cluster.digit_at((-1, -1)), None);
    assert_eq!(cluster.digit_at((i16::MAX, i16::MIN)), None);
    let digit = Digit::new(3, (1, 0));
    assert!(digit.is_mouse_over((0, 0)));
    assert!(digit.is_mouse_over((10, 10)));
    assert!(!digit.is_mouse_over((11, 10)));
    assert!(!digit.is_mouse_over((10, 11)));
    assert!(!digit.is_mouse_over((-1, 0)));
}

#[test]
fn overlapping_digits_give_the_earlier_one() {
    let mut cluster = DigitCluster::new();
    cluster.digits = vec![Digit::new(9, (10, 10)), Digit::new(8, (12, 10)), Digit::new(7, (40, 40))];
    assert_eq!(cluster.digit_at((12, 12)), Some(0));
    assert_eq!(cluster.digit_at((20, 12)), Some(1));
    assert_eq!(cluster.digit_at((45, 45)), Some(2));
    assert_eq!(cluster.digit_at((30, 30)), None);
    cluster.digits.clear();
    assert_eq!(cluster.digit_at((12, 12)), None);
}
