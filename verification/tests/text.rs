use bit_flipper::text::{allowed, Text, VolumeText, GLYPH_ADVANCE};
use bit_flipper::texture::UVSegment;

#[test]
fn characters_a_line_can_show() {
    for c in "0123456789.-dB".chars() {
        assert!(allowed(c), "{c}");
    }
    for c in [' ', 'D', 'b', '+', '/', ':', ',', 'e', '\u{0}', 'é', '٣'] {
        assert!(!allowed(c), "{c}");
    }
}

#[test]
fn pictures_of_characters() {
    let pairs = [
        ('0', UVSegment::UV_num_0),
        ('1', UVSegment::UV_num_1),
        ('2', UVSegment::UV_num_2),
        ('3', UVSegment::UV_num_3),
        ('4', UVSegment::UV_num_4),
        ('5', UVSegment::UV_num_5),
        ('6', UVSegment::UV_num_6),
        ('7', UVSegment::UV_num_7),
        ('8', UVSegment::UV_num_8),
        ('9', UVSegment::UV_num_9),
        ('d', UVSegment::UV_num_d),
        ('B', UVSegment::UV_num_B),
        ('-', UVSegment::UV_num_minus),
        ('.', UVSegment::UV_num_dot),
        (' ', UVSegment::UV_num_dot),
        ('x', UVSegment::UV_num_dot),
    ];
    for (c, picture) in pairs {
        assert_eq!(UVSegment::from(c), picture);
    }
}

#[test]
fn new_line_shows_zeros() {
    let line = Text::<5>::new((3, 4));
    assert_eq!(line.content(), &['0'; 5]);
    assert_eq!(line.slot_position(0), (3, 4));
    assert_eq!(line.slot_position(4), (31, 4));
    assert_eq!(GLYPH_ADVANCE, 7);
}

#[test]
fn line_at_the_right_edge() {
    let line = Text::<3>::new((65521, 9));
    assert_eq!(line.slot_position(2), (65535, 9));
    let none = Text::<0>::new((65535, 0));
    assert_eq!(none.content(), &[]);
}

#[test]
fn change_text_fills_blanks_and_drops_what_does_not_fit() {
    let mut line = Text::<6>::new((0, 0));
    line.change_text("-12.5dB");
    assert_eq!(line.content(), &['-', '1', '2', '.', '5', 'd']);
    line.change_text("3dB");
    assert_eq!(line.content(), &['3', 'd', 'B', ' ', ' ', ' ']);
    line.change_text("");
    assert_eq!(line.content(), &[' '; 6]);
    line.change_text("a1b2+3");
    assert_eq!(line.content(), &[' ', '1', ' ', '2', ' ', '3']);
    line.change_text("é1");
    assert_eq!(line.content(), &[' ', '1', ' ', ' ', ' ', ' ']);
}

#[test]
fn volume_text_keeps_a_slot_for_the_sign() {
    let mut volume = VolumeText::new((74, 142));
    assert_eq!(volume.text().content(), &['0'; 8]);
    volume.show("-3.25 dB");
    assert_eq!(volume.text().content(), &['-', '3', '.', '2', '5', ' ', 'd', 'B']);
    volume.show("3.25 dB");
    assert_eq!(volume.text().content(), &[' ', '3', '.', '2', '5', ' ', 'd', 'B']);
    volume.show("12.00 dB");
    assert_eq!(volume.text().content(), &[' ', '1', '2', '.', '0', '0', ' ', 'd']);
    volume.show("");
    assert_eq!(volume.text().content(), &[' '; 8]);
    volume.show("-");
    assert_eq!(volume.text().content(), &['-', ' ', ' ', ' ', ' ', ' ', ' ', ' ']);
    assert_eq!(volume.text().slot_position(7), (123, 142));
}
