//! The thirty-two digits that show, and toggle, the bits of the mask.
//!
//! Each digit shows a one or a zero. There are eight pictures of either, and a
//! digit that changes picks one of them by chance, for variety.

use rand::Rng;
use vstd::prelude::*;
use vstd::std_specs::convert::FromSpecImpl;
use crate::model::bits::BitParams;
use crate::texture::UVSegment;

verus! {

/// Width and height of a digit's box in pixels.
pub const DIGIT_SIZE: u16 = 11;

/// Number of digits in the cluster.
pub const DIGIT_COUNT: usize = 32;

/// What a digit shows.
#[derive(Clone, Copy, Debug, PartialEq, Eq, Structural)]
pub enum DigitType {
    One,
    Zero,
}

/// What the digit of a flag shows: a one where the flag is set.
pub open spec fn digit_type_of(flag: bool) -> DigitType {
    if flag {
        DigitType::One
    } else {
        DigitType::Zero
    }
}

impl From<bool> for DigitType {
    fn from(value: bool) -> (shown: Self) {
        match value {
            true => DigitType::One,
            false => DigitType::Zero,
        }
    }
}

impl FromSpecImpl<bool> for DigitType {
    open spec fn obeys_from_spec() -> bool {
        true
    }

    open spec fn from_spec(v: bool) -> Self {
        digit_type_of(v)
    }
}

/// The picture of a digit for a draw `n`. Draws 1 to 7 have a picture each;
/// every other draw has the first picture.
pub open spec fn picture(d_type: DigitType, n: u8) -> UVSegment {
    match d_type {
        DigitType::One => match n {
            1 => UVSegment::UV_digi_1_1,
            2 => UVSegment::UV_digi_1_2,
            3 => UVSegment::UV_digi_1_3,
            4 => UVSegment::UV_digi_1_4,
            5 => UVSegment::UV_digi_1_5,
            6 => UVSegment::UV_digi_1_6,
            7 => UVSegment::UV_digi_1_7,
            _ => UVSegment::UV_digi_1_0,
        },
        DigitType::Zero => match n {
            1 => UVSegment::UV_digi_0_1,
            2 => UVSegment::UV_digi_0_2,
            3 => UVSegment::UV_digi_0_3,
            4 => UVSegment::UV_digi_0_4,
            5 => UVSegment::UV_digi_0_5,
            6 => UVSegment::UV_digi_0_6,
            7 => UVSegment::UV_digi_0_7,
            _ => UVSegment::UV_digi_0_0,
        },
    }
}

/// Whether `uv` is a picture that a draw can give a digit of this type.
pub open spec fn is_picture(d_type: DigitType, uv: UVSegment) -> bool {
    exists|n: u8| n <= LAST_DRAW && uv == #[trigger] picture(d_type, n)
}

/// The picture of a digit for a draw `n`.
pub fn pick_uv(d_type: DigitType, n: u8) -> (uv: UVSegment)
    ensures
        uv == picture(d_type, n),
{
    match d_type {
        DigitType::One => match n {
            1 => UVSegment::UV_digi_1_1,
            2 => UVSegment::UV_digi_1_2,
            3 => UVSegment::UV_digi_1_3,
            4 => UVSegment::UV_digi_1_4,
            5 => UVSegment::UV_digi_1_5,
            6 => UVSegment::UV_digi_1_6,
            7 => UVSegment::UV_digi_1_7,
            _ => UVSegment::UV_digi_1_0,
        },
        DigitType::Zero => match n {
            1 => UVSegment::UV_digi_0_1,
            2 => UVSegment::UV_digi_0_2,
            3 => UVSegment::UV_digi_0_3,
            4 => UVSegment::UV_digi_0_4,
            5 => UVSegment::UV_digi_0_5,
            6 => UVSegment::UV_digi_0_6,
            7 => UVSegment::UV_digi_0_7,
            _ => UVSegment::UV_digi_0_0,
        },
    }
}

/// Largest draw for a digit's picture.
pub const LAST_DRAW: u8 = 8;

/// A number drawn by chance from `low` to `high`, both included. Calls
/// `rand::rng` for the thread's generator and `Rng::random_range` on it with
/// that closed range, which must not be empty; all that is claimed of the
/// number is that it lies in the range.
#[verifier::external_body]
fn draw(low: u8, high: u8) -> (n: u8)
    requires
        low <= high,
    ensures
        low <= n <= high,
{
    rand::rng().random_range(low..=high)
}

/// One digit of the mask display.
#[derive(Clone, Copy, Debug)]
pub struct Digit {
    id: u8,
    position: (u16, u16),
    is_on: bool,
}

impl Digit {
    /// The digit's box can be placed one pixel to the left of its picture.
    #[verifier::type_invariant]
    pub closed spec fn well_formed(self) -> bool {
        self.position.0 >= 1
    }

    /// The id of the flag that the digit shows.
    pub closed spec fn flag_id(self) -> u8 {
        self.id
    }

    /// Where the digit's picture is drawn.
    pub closed spec fn origin(self) -> (u16, u16) {
        self.position
    }

    /// Whether the digit shows a one.
    pub closed spec fn shows_one(self) -> bool {
        self.is_on
    }

    /// A digit for the flag `id`, drawn at `position` and showing a one.
    pub fn new(id: u8, position: (u16, u16)) -> (digit: Self)
        requires
            position.0 >= 1,
        ensures
            digit.flag_id() == id,
            digit.origin() == position,
            digit.shows_one(),
    {
        Digit { id, position, is_on: true }
    }

    /// The id of the flag that the digit shows.
    pub fn id(&self) -> (id: u8)
        ensures
            id == self.flag_id(),
    {
        self.id
    }

    /// Whether the digit shows a one.
    pub fn is_on(&self) -> (on: bool)
        ensures
            on == self.shows_one(),
    {
        self.is_on
    }

    /// Width of the digit's box in pixels.
    pub fn width(&self) -> (width: u16)
        ensures
            width == DIGIT_SIZE,
    {
        DIGIT_SIZE
    }

    /// Height of the digit's box in pixels.
    pub fn height(&self) -> (height: u16)
        ensures
            height == DIGIT_SIZE,
    {
        DIGIT_SIZE
    }

    /// The top left corner of the digit's box: one pixel to the left of its picture.
    pub fn position(&self) -> (position: (u16, u16))
        ensures
            position.0 == self.origin().0 - 1,
            position.1 == self.origin().1,
    {
        proof {
            use_type_invariant(self);
        }
        (self.position.0 - 1, self.position.1)
    }

    /// Whether a point of the view lies in the digit's box. The left and top
    /// edges belong to the box, the right and bottom edges do not.
    pub open spec fn covers(self, point: (i16, i16)) -> bool {
        self.origin().0 - 1 <= point.0 < self.origin().0 - 1 + DIGIT_SIZE && self.origin().1
            <= point.1 < self.origin().1 + DIGIT_SIZE
    }

    /// Whether a point of the view lies in the digit's box.
    pub fn is_mouse_over(&self, point: (i16, i16)) -> (over: bool)
        ensures
            over == self.covers(point),
    {
        proof {
            use_type_invariant(self);
        }
        let x: i32 = point.0 as i32;
        let y: i32 = point.1 as i32;
        let left: i32 = self.position.0 as i32 - 1;
        let top: i32 = self.position.1 as i32;
        left <= x && x < left + DIGIT_SIZE as i32 && top <= y && y < top + DIGIT_SIZE as i32
    }

    /// A picture for the digit, picked by chance among those of `d_type`.
    pub fn random_uv(&self, d_type: DigitType) -> (uv: UVSegment)
        ensures
            is_picture(d_type, uv),
    {
        let n: u8 = draw(0, LAST_DRAW);
        pick_uv(d_type, n)
    }

    /// Brings the digit up to date with its flag in `bits`; a digit whose id
    /// names no flag counts as cleared. A digit that already shows the flag
    /// stays as it is and needs nothing drawn. One that does not takes the
    /// flag's value and returns the picture to draw from now on.
    pub fn prerender(&mut self, bits: &BitParams) -> (redraw: Option<UVSegment>)
        ensures
            final(self).flag_id() == old(self).flag_id(),
            final(self).origin() == old(self).origin(),
            final(self).shows_one() == shown_value(*bits, old(self).flag_id()),
            old(self).shows_one() == final(self).shows_one() ==> redraw is None,
            old(self).shows_one() != final(self).shows_one() ==> redraw is Some && is_picture(
                digit_type_of(final(self).shows_one()),
                redraw->Some_0,
            ),
    {
        proof {
            use_type_invariant(&*self);
        }
        let val: bool = match bits.get_bit_param(self.id) {
            Some(flag) => flag,
            None => false,
        };
        if self.is_on != val {
            self.is_on = val;
            let d_type = DigitType::from(val);
            Some(self.random_uv(d_type))
        } else {
            None
        }
    }
}

/// What the digit of the flag `id` is to show: the flag, or a zero where no
/// flag has that id.
pub open spec fn shown_value(bits: BitParams, id: u8) -> bool {
    1 <= id <= 32 && bits.flag(id as int)
}

/// The flag id and the place of the digit at index `k` of the cluster. The
/// digit of the highest flag stands alone on top; below it come two rows of
/// four for the next eight flags, and below those, rows of four for the rest.
pub open spec fn slot(k: int) -> (u8, (u16, u16)) {
    if k == 0 {
        (32u8, (74u16, 30u16))
    } else if k <= 8 {
        ((32 - k) as u8, ((75 + ((k - 1) % 4) * 11) as u16, (45 + ((k - 1) / 4) * 11) as u16))
    } else {
        ((32 - k) as u8, ((75 + ((k - 9) % 4) * 11) as u16, (71 + ((k - 9) / 4) * 11) as u16))
    }
}

/// The digits of the mask display.
#[derive(Debug)]
pub struct DigitCluster {
    pub digits: Vec<Digit>,
}

impl DigitCluster {
    /// The thirty-two digits, each at its place and showing a one. The digit
    /// at index `k` is that of the flag `32 - k`, so every flag has one digit.
    pub fn new() -> (cluster: Self)
        ensures
            cluster.digits@.len() == DIGIT_COUNT,
            forall|k: int|
                0 <= k < DIGIT_COUNT ==> (#[trigger] cluster.digits@[k]).flag_id() == 32 - k
                    && cluster.digits@[k].flag_id() == slot(k).0 && cluster.digits@[k].origin()
                    == slot(k).1 && cluster.digits@[k].shows_one(),
    {
        let mut digits: Vec<Digit> = Vec::new();
        digits.push(Digit::new(32, (74, 30)));
        let mut i: usize = 0;
        while i < 8
            invariant
                i <= 8,
                digits@.len() == 1 + i,
                forall|k: int|
                    0 <= k < 1 + i ==> (#[trigger] digits@[k]).flag_id() == 32 - k
                        && digits@[k].flag_id() == slot(k).0 && digits@[k].origin() == slot(k).1
                        && digits@[k].shows_one(),
            decreases 8 - i,
        {
            assert(i & 3 == i % 4) by (bit_vector);
            let x: usize = 75 + (i & 3) * 11;
            let y: usize = 45 + (i / 4) * 11;
            digits.push(Digit::new(31 - i as u8, (x as u16, y as u16)));
            i = i + 1;
        }
        let mut j: usize = 0;
        while j < 23
            invariant
                j <= 23,
                digits@.len() == 9 + j,
                forall|k: int|
                    0 <= k < 9 + j ==> (#[trigger] digits@[k]).flag_id() == 32 - k
                        && digits@[k].flag_id() == slot(k).0 && digits@[k].origin() == slot(k).1
                        && digits@[k].shows_one(),
            decreases 23 - j,
        {
            assert(j & 3 == j % 4) by (bit_vector);
            let x: usize = 75 + (j & 3) * 11;
            let y: usize = 71 + (j / 4) * 11;
            digits.push(Digit::new(23 - j as u8, (x as u16, y as u16)));
            j = j + 1;
        }
        DigitCluster { digits }
    }

    /// The index of the digit under a point of the view: the first one whose
    /// box the point lies in, or nothing where it lies in none.
    pub fn digit_at(&self, point: (i16, i16)) -> (hit: Option<usize>)
        ensures
            match hit {
                Some(k) => k < self.digits@.len() && self.digits@[k as int].covers(point)
                    && forall|j: int| 0 <= j < k ==> !(#[trigger] self.digits@[j]).covers(point),
                None => forall|j: int|
                    0 <= j < self.digits@.len() ==> !(#[trigger] self.digits@[j]).covers(point),
            },
    {
        let mut k: usize = 0;
        while k < self.digits.len()
            invariant
                k <= self.digits@.len(),
                forall|j: int| 0 <= j < k ==> !(#[trigger] self.digits@[j]).covers(point),
            decreases self.digits@.len() - k,
        {
            if self.digits[k].is_mouse_over(point) {
                return Some(k);
            }
            k = k + 1;
        }
        None
    }
}

} // verus!
