//! The line of glyphs that shows the gain.
//!
//! A line has a fixed number of slots. It can show the ten digits, the point,
//! the minus sign and the letters `d` and `B`; every other character, and every
//! slot past the end of the text, is a blank.

use vstd::prelude::*;
use vstd::std_specs::convert::FromSpecImpl;
use vstd::string::StringExecFns;
use crate::texture::UVSegment;

verus! {

/// Distance in pixels from one slot of a line to the next.
pub const GLYPH_ADVANCE: u16 = 7;

/// Whether a line can show the character.
pub open spec fn is_allowed(c: char) -> bool {
    ('0' <= c && c <= '9') || c == '.' || c == '-' || c == 'd' || c == 'B'
}

/// Whether a line can show the character.
pub fn allowed(c: char) -> (yes: bool)
    ensures
        yes == is_allowed(c),
{
    ('0' <= c && c <= '9') || c == '.' || c == '-' || c == 'd' || c == 'B'
}

/// The picture of a character. A character without a picture of its own has
/// that of the point.
pub open spec fn glyph_of(c: char) -> UVSegment {
    match c {
        '0' => UVSegment::UV_num_0,
        '1' => UVSegment::UV_num_1,
        '2' => UVSegment::UV_num_2,
        '3' => UVSegment::UV_num_3,
        '4' => UVSegment::UV_num_4,
        '5' => UVSegment::UV_num_5,
        '6' => UVSegment::UV_num_6,
        '7' => UVSegment::UV_num_7,
        '8' => UVSegment::UV_num_8,
        '9' => UVSegment::UV_num_9,
        'd' => UVSegment::UV_num_d,
        'B' => UVSegment::UV_num_B,
        '-' => UVSegment::UV_num_minus,
        _ => UVSegment::UV_num_dot,
    }
}

impl From<char> for UVSegment {
    fn from(value: char) -> (segment: Self) {
        match value {
            '0' => UVSegment::UV_num_0,
            '1' => UVSegment::UV_num_1,
            '2' => UVSegment::UV_num_2,
            '3' => UVSegment::UV_num_3,
            '4' => UVSegment::UV_num_4,
            '5' => UVSegment::UV_num_5,
            '6' => UVSegment::UV_num_6,
            '7' => UVSegment::UV_num_7,
            '8' => UVSegment::UV_num_8,
            '9' => UVSegment::UV_num_9,
            'd' => UVSegment::UV_num_d,
            'B' => UVSegment::UV_num_B,
            '-' => UVSegment::UV_num_minus,
            _ => UVSegment::UV_num_dot,
        }
    }
}

impl FromSpecImpl<char> for UVSegment {
    open spec fn obeys_from_spec() -> bool {
        true
    }

    open spec fn from_spec(v: char) -> Self {
        glyph_of(v)
    }
}

/// What slot `i` of a line shows of `text`.
pub open spec fn shown(text: Seq<char>, i: int) -> char {
    if 0 <= i < text.len() && is_allowed(text[i]) {
        text[i]
    } else {
        ' '
    }
}

/// A gain as a line shows it: a text without a minus sign in front is moved
/// one slot to the right, so that the digits of both signs line up.
pub open spec fn signed(text: Seq<char>) -> Seq<char> {
    if text.len() > 0 && text[0] == '-' {
        text
    } else {
        seq![' '] + text
    }
}

/// Whether a line of `slots` slots that starts at `position` has every slot at
/// a pixel column that exists.
pub open spec fn fits(position: (u16, u16), slots: int) -> bool {
    slots <= 0 || position.0 + GLYPH_ADVANCE * (slots - 1) <= u16::MAX
}

/// A line of `N` slots.
#[derive(Debug)]
pub struct Text<const N: usize> {
    position: (u16, u16),
    content: [char; N],
}

impl<const N: usize> View for Text<N> {
    type V = Seq<char>;

    /// The characters in the slots, left to right.
    closed spec fn view(&self) -> Seq<char> {
        self.content@
    }
}

impl<const N: usize> Text<N> {
    /// Every slot lies at a pixel column that exists.
    #[verifier::type_invariant]
    pub closed spec fn well_formed(self) -> bool {
        fits(self.position, N as int)
    }

    /// Where the first slot is drawn.
    pub closed spec fn origin(self) -> (u16, u16) {
        self.position
    }

    /// A line at `position` that shows a zero in every slot.
    pub fn new(position: (u16, u16)) -> (line: Self)
        requires
            fits(position, N as int),
        ensures
            line.origin() == position,
            line@.len() == N,
            forall|i: int| 0 <= i < N ==> #[trigger] line@[i] == '0',
    {
        Text { position, content: ['0'; N] }
    }

    /// The characters in the slots, left to right.
    pub fn content(&self) -> (content: &[char; N])
        ensures
            content@ == self@,
    {
        &self.content
    }

    /// Where slot `n` is drawn: one advance further right for each slot before it.
    pub fn slot_position(&self, n: usize) -> (position: (u16, u16))
        requires
            n < N,
        ensures
            position.0 == self.origin().0 + GLYPH_ADVANCE * n,
            position.1 == self.origin().1,
    {
        proof {
            use_type_invariant(self);
        }
        (self.position.0 + (n as u16) * GLYPH_ADVANCE, self.position.1)
    }

    /// Shows `text`: each slot takes the character of `text` at its index where
    /// there is one that the line can show, and a blank otherwise.
    pub fn change_text(&mut self, text: &str)
        ensures
            final(self).origin() == old(self).origin(),
            final(self)@.len() == N,
            forall|i: int| 0 <= i < N ==> #[trigger] final(self)@[i] == shown(text@, i),
    {
        proof {
            use_type_invariant(&*self);
        }
        let len: usize = text.unicode_len();
        let mut i: usize = 0;
        while i < N
            invariant
                i <= N,
                len == text@.len(),
                self.position == old(self).position,
                fits(self.position, N as int),
                forall|j: int| 0 <= j < i ==> self.content@[j] == shown(text@, j),
            decreases N - i,
        {
            let mut ch: char = ' ';
            if i < len {
                let t_ch = text.get_char(i);
                if allowed(t_ch) {
                    ch = t_ch;
                }
            }
            self.content[i] = ch;
            i = i + 1;
        }
    }
}

/// The line that shows the gain, eight slots wide.
#[derive(Debug)]
pub struct VolumeText {
    text: Text<8>,
}

impl VolumeText {
    /// The line itself.
    pub closed spec fn line(self) -> Text<8> {
        self.text
    }

    /// A gain line at `position` that shows a zero in every slot.
    pub fn new(position: (u16, u16)) -> (volume: Self)
        requires
            fits(position, 8),
        ensures
            volume.line().origin() == position,
            volume.line()@.len() == 8,
            forall|i: int| 0 <= i < 8 ==> #[trigger] volume.line()@[i] == '0',
    {
        VolumeText { text: Text::new(position) }
    }

    /// The line itself.
    pub fn text(&self) -> (line: &Text<8>)
        ensures
            *line == self.line(),
    {
        &self.text
    }

    /// Shows a gain that has been written out as text, with its sign slot: see
    /// [`signed`].
    pub fn show(&mut self, gain: &str)
        ensures
            final(self).line().origin() == old(self).line().origin(),
            final(self).line()@.len() == 8,
            forall|i: int|
                0 <= i < 8 ==> #[trigger] final(self).line()@[i] == shown(signed(gain@), i),
    {
        if gain.unicode_len() > 0 && gain.get_char(0) == '-' {
            self.text.change_text(gain);
        } else {
            let padded: String = String::from_str(" ").concat(gain);
            proof {
                reveal_strlit(" ");
                assert(padded@ =~= signed(gain@));
            }
            self.text.change_text(padded.as_str());
        }
    }
}

} // verus!
