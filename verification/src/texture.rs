//! The texture atlas: which rectangle of the atlas image holds which picture.
//!
//! Rectangles are kept in texels, as `[x, y, width, height]` with the origin at
//! the top left of the image. Dividing by the image's size, to get texture
//! coordinates, is left to the renderer. An atlas keeps its rectangles in a
//! hash map; a picture's key is its place in the table of the shipped atlas.

use std::collections::HashMap;
use vstd::prelude::*;
use vstd::string::StringExecFns;

verus! {

/// A picture in the atlas.
#[allow(non_camel_case_types)]
#[derive(Debug, PartialEq, Eq, Structural, Hash, Clone, Copy)]
pub enum UVSegment {
    UV_background,
    UV_warning,
    UV_gui_main,
    UV_gui_monitors,
    UV_btn_xor,
    UV_btn_or,
    UV_btn_and,
    UV_btn_not,
    UV_btn_open,
    UV_slider_handle,
    UV_digi_1_0,
    UV_digi_1_1,
    UV_digi_1_2,
    UV_digi_1_3,
    UV_digi_1_4,
    UV_digi_1_5,
    UV_digi_1_6,
    UV_digi_1_7,
    UV_digi_1_8,
    UV_digi_0_0,
    UV_digi_0_1,
    UV_digi_0_2,
    UV_digi_0_3,
    UV_digi_0_4,
    UV_digi_0_5,
    UV_digi_0_6,
    UV_digi_0_7,
    UV_digi_0_8,
    UV_num_0,
    UV_num_1,
    UV_num_2,
    UV_num_3,
    UV_num_4,
    UV_num_5,
    UV_num_6,
    UV_num_7,
    UV_num_8,
    UV_num_9,
    UV_num_dot,
    UV_num_minus,
    UV_num_d,
    UV_num_B,
}

/// What can go wrong when a picture is looked up.
#[derive(Debug, PartialEq, Eq, Structural, Clone, Copy)]
pub enum TextureError {
    /// The atlas has no rectangle for this picture.
    NotFound(UVSegment),
}

/// A rectangle of the atlas with the picture it holds.
pub type Entry = (UVSegment, [u16; 4]);

impl UVSegment {
    /// The picture's name: the variant as it is written.
    pub open spec fn name_of(self) -> Seq<char> {
        match self {
            UVSegment::UV_background => "UV_background"@,
            UVSegment::UV_warning => "UV_warning"@,
            UVSegment::UV_gui_main => "UV_gui_main"@,
            UVSegment::UV_gui_monitors => "UV_gui_monitors"@,
            UVSegment::UV_btn_xor => "UV_btn_xor"@,
            UVSegment::UV_btn_or => "UV_btn_or"@,
            UVSegment::UV_btn_and => "UV_btn_and"@,
            UVSegment::UV_btn_not => "UV_btn_not"@,
            UVSegment::UV_btn_open => "UV_btn_open"@,
            UVSegment::UV_slider_handle => "UV_slider_handle"@,
            UVSegment::UV_digi_1_0 => "UV_digi_1_0"@,
            UVSegment::UV_digi_1_1 => "UV_digi_1_1"@,
            UVSegment::UV_digi_1_2 => "UV_digi_1_2"@,
            UVSegment::UV_digi_1_3 => "UV_digi_1_3"@,
            UVSegment::UV_digi_1_4 => "UV_digi_1_4"@,
            UVSegment::UV_digi_1_5 => "UV_digi_1_5"@,
            UVSegment::UV_digi_1_6 => "UV_digi_1_6"@,
            UVSegment::UV_digi_1_7 => "UV_digi_1_7"@,
            UVSegment::UV_digi_1_8 => "UV_digi_1_8"@,
            UVSegment::UV_digi_0_0 => "UV_digi_0_0"@,
            UVSegment::UV_digi_0_1 => "UV_digi_0_1"@,
            UVSegment::UV_digi_0_2 => "UV_digi_0_2"@,
            UVSegment::UV_digi_0_3 => "UV_digi_0_3"@,
            UVSegment::UV_digi_0_4 => "UV_digi_0_4"@,
            UVSegment::UV_digi_0_5 => "UV_digi_0_5"@,
            UVSegment::UV_digi_0_6 => "UV_digi_0_6"@,
            UVSegment::UV_digi_0_7 => "UV_digi_0_7"@,
            UVSegment::UV_digi_0_8 => "UV_digi_0_8"@,
            UVSegment::UV_num_0 => "UV_num_0"@,
            UVSegment::UV_num_1 => "UV_num_1"@,
            UVSegment::UV_num_2 => "UV_num_2"@,
            UVSegment::UV_num_3 => "UV_num_3"@,
            UVSegment::UV_num_4 => "UV_num_4"@,
            UVSegment::UV_num_5 => "UV_num_5"@,
            UVSegment::UV_num_6 => "UV_num_6"@,
            UVSegment::UV_num_7 => "UV_num_7"@,
            UVSegment::UV_num_8 => "UV_num_8"@,
            UVSegment::UV_num_9 => "UV_num_9"@,
            UVSegment::UV_num_dot => "UV_num_dot"@,
            UVSegment::UV_num_minus => "UV_num_minus"@,
            UVSegment::UV_num_d => "UV_num_d"@,
            UVSegment::UV_num_B => "UV_num_B"@,
        }
    }

    /// The picture's name.
    pub fn name(self) -> (name: &'static str)
        ensures
            name@ == self.name_of(),
    {
        match self {
            UVSegment::UV_background => "UV_background",
            UVSegment::UV_warning => "UV_warning",
            UVSegment::UV_gui_main => "UV_gui_main",
            UVSegment::UV_gui_monitors => "UV_gui_monitors",
            UVSegment::UV_btn_xor => "UV_btn_xor",
            UVSegment::UV_btn_or => "UV_btn_or",
            UVSegment::UV_btn_and => "UV_btn_and",
            UVSegment::UV_btn_not => "UV_btn_not",
            UVSegment::UV_btn_open => "UV_btn_open",
            UVSegment::UV_slider_handle => "UV_slider_handle",
            UVSegment::UV_digi_1_0 => "UV_digi_1_0",
            UVSegment::UV_digi_1_1 => "UV_digi_1_1",
            UVSegment::UV_digi_1_2 => "UV_digi_1_2",
            UVSegment::UV_digi_1_3 => "UV_digi_1_3",
            UVSegment::UV_digi_1_4 => "UV_digi_1_4",
            UVSegment::UV_digi_1_5 => "UV_digi_1_5",
            UVSegment::UV_digi_1_6 => "UV_digi_1_6",
            UVSegment::UV_digi_1_7 => "UV_digi_1_7",
            UVSegment::UV_digi_1_8 => "UV_digi_1_8",
            UVSegment::UV_digi_0_0 => "UV_digi_0_0",
            UVSegment::UV_digi_0_1 => "UV_digi_0_1",
            UVSegment::UV_digi_0_2 => "UV_digi_0_2",
            UVSegment::UV_digi_0_3 => "UV_digi_0_3",
            UVSegment::UV_digi_0_4 => "UV_digi_0_4",
            UVSegment::UV_digi_0_5 => "UV_digi_0_5",
            UVSegment::UV_digi_0_6 => "UV_digi_0_6",
            UVSegment::UV_digi_0_7 => "UV_digi_0_7",
            UVSegment::UV_digi_0_8 => "UV_digi_0_8",
            UVSegment::UV_num_0 => "UV_num_0",
            UVSegment::UV_num_1 => "UV_num_1",
            UVSegment::UV_num_2 => "UV_num_2",
            UVSegment::UV_num_3 => "UV_num_3",
            UVSegment::UV_num_4 => "UV_num_4",
            UVSegment::UV_num_5 => "UV_num_5",
            UVSegment::UV_num_6 => "UV_num_6",
            UVSegment::UV_num_7 => "UV_num_7",
            UVSegment::UV_num_8 => "UV_num_8",
            UVSegment::UV_num_9 => "UV_num_9",
            UVSegment::UV_num_dot => "UV_num_dot",
            UVSegment::UV_num_minus => "UV_num_minus",
            UVSegment::UV_num_d => "UV_num_d",
            UVSegment::UV_num_B => "UV_num_B",
        }
    }

    /// The picture's key in an atlas: its place in [`uv_map`].
    pub open spec fn key_of(self) -> u8 {
        uv_index(self) as u8
    }

    /// The picture's key in an atlas.
    pub fn key(self) -> (key: u8)
        ensures
            key == self.key_of(),
    {
        match self {
            UVSegment::UV_background => 0,
            UVSegment::UV_warning => 1,
            UVSegment::UV_gui_main => 2,
            UVSegment::UV_gui_monitors => 3,
            UVSegment::UV_btn_xor => 4,
            UVSegment::UV_btn_or => 5,
            UVSegment::UV_btn_and => 6,
            UVSegment::UV_btn_not => 7,
            UVSegment::UV_btn_open => 8,
            UVSegment::UV_slider_handle => 9,
            UVSegment::UV_digi_1_0 => 10,
            UVSegment::UV_digi_1_1 => 11,
            UVSegment::UV_digi_1_2 => 12,
            UVSegment::UV_digi_1_3 => 13,
            UVSegment::UV_digi_1_4 => 14,
            UVSegment::UV_digi_1_5 => 15,
            UVSegment::UV_digi_1_6 => 16,
            UVSegment::UV_digi_1_7 => 17,
            UVSegment::UV_digi_1_8 => 18,
            UVSegment::UV_digi_0_0 => 19,
            UVSegment::UV_digi_0_1 => 20,
            UVSegment::UV_digi_0_2 => 21,
            UVSegment::UV_digi_0_3 => 22,
            UVSegment::UV_digi_0_4 => 23,
            UVSegment::UV_digi_0_5 => 24,
            UVSegment::UV_digi_0_6 => 25,
            UVSegment::UV_digi_0_7 => 26,
            UVSegment::UV_digi_0_8 => 27,
            UVSegment::UV_num_0 => 28,
            UVSegment::UV_num_1 => 29,
            UVSegment::UV_num_2 => 30,
            UVSegment::UV_num_3 => 31,
            UVSegment::UV_num_4 => 32,
            UVSegment::UV_num_dot => 33,
            UVSegment::UV_num_minus => 34,
            UVSegment::UV_num_5 => 35,
            UVSegment::UV_num_6 => 36,
            UVSegment::UV_num_7 => 37,
            UVSegment::UV_num_8 => 38,
            UVSegment::UV_num_9 => 39,
            UVSegment::UV_num_d => 40,
            UVSegment::UV_num_B => 41,
        }
    }

    /// The error for a picture that the atlas lacks.
    pub fn into_not_found(self) -> (error: TextureError)
        ensures
            error == TextureError::NotFound(self),
    {
        TextureError::NotFound(self)
    }
}

impl TextureError {
    /// The text of the error.
    pub open spec fn message_of(self) -> Seq<char> {
        match self {
            TextureError::NotFound(segment) => "UV map \""@ + segment.name_of()
                + "\" does not exist."@,
        }
    }

    /// The text of the error, naming the picture that was not found.
    pub fn message(&self) -> (text: String)
        ensures
            text@ == self.message_of(),
    {
        match self {
            TextureError::NotFound(segment) => {
                String::from_str("UV map \"").concat(segment.name()).concat("\" does not exist.")
            },
        }
    }
}

/// The rectangles of the atlas image that ships with the effect.
pub open spec fn uv_map() -> Seq<Entry> {
    seq![
        (UVSegment::UV_background, [107u16, 89u16, 100u16, 100u16]),
        (UVSegment::UV_warning, [90u16, 0u16, 117u16, 89u16]),
        (UVSegment::UV_gui_main, [0u16, 0u16, 88u16, 145u16]),
        (UVSegment::UV_gui_monitors, [0u16, 189u16, 163u16, 45u16]),
        (UVSegment::UV_btn_xor, [28u16, 173u16, 16u16, 16u16]),
        (UVSegment::UV_btn_or, [44u16, 173u16, 16u16, 16u16]),
        (UVSegment::UV_btn_and, [60u16, 173u16, 16u16, 16u16]),
        (UVSegment::UV_btn_not, [76u16, 173u16, 16u16, 16u16]),
        (UVSegment::UV_btn_open, [28u16, 157u16, 16u16, 16u16]),
        (UVSegment::UV_slider_handle, [73u16, 165u16, 19u16, 8u16]),
        (UVSegment::UV_digi_1_0, [0u16, 153u16, 9u16, 6u16]),
        (UVSegment::UV_digi_1_1, [0u16, 159u16, 9u16, 6u16]),
        (UVSegment::UV_digi_1_2, [0u16, 165u16, 9u16, 6u16]),
        (UVSegment::UV_digi_1_3, [9u16, 153u16, 9u16, 6u16]),
        (UVSegment::UV_digi_1_4, [9u16, 159u16, 9u16, 6u16]),
        (UVSegment::UV_digi_1_5, [9u16, 165u16, 9u16, 6u16]),
        (UVSegment::UV_digi_1_6, [18u16, 153u16, 9u16, 6u16]),
        (UVSegment::UV_digi_1_7, [18u16, 159u16, 9u16, 6u16]),
        (UVSegment::UV_digi_1_8, [18u16, 165u16, 9u16, 6u16]),
        (UVSegment::UV_digi_0_0, [0u16, 171u16, 9u16, 6u16]),
        (UVSegment::UV_digi_0_1, [0u16, 177u16, 9u16, 6u16]),
        (UVSegment::UV_digi_0_2, [0u16, 183u16, 9u16, 6u16]),
        (UVSegment::UV_digi_0_3, [9u16, 171u16, 9u16, 6u16]),
        (UVSegment::UV_digi_0_4, [9u16, 177u16, 9u16, 6u16]),
        (UVSegment::UV_digi_0_5, [9u16, 183u16, 9u16, 6u16]),
        (UVSegment::UV_digi_0_6, [18u16, 171u16, 9u16, 6u16]),
        (UVSegment::UV_digi_0_7, [18u16, 177u16, 9u16, 6u16]),
        (UVSegment::UV_digi_0_8, [18u16, 183u16, 9u16, 6u16]),
        (UVSegment::UV_num_0, [50u16, 145u16, 6u16, 8u16]),
        (UVSegment::UV_num_1, [56u16, 145u16, 6u16, 8u16]),
        (UVSegment::UV_num_2, [62u16, 145u16, 6u16, 8u16]),
        (UVSegment::UV_num_3, [68u16, 145u16, 6u16, 8u16]),
        (UVSegment::UV_num_4, [74u16, 145u16, 6u16, 8u16]),
        (UVSegment::UV_num_dot, [81u16, 145u16, 6u16, 8u16]),
        (UVSegment::UV_num_minus, [86u16, 145u16, 6u16, 8u16]),
        (UVSegment::UV_num_5, [50u16, 153u16, 6u16, 8u16]),
        (UVSegment::UV_num_6, [56u16, 153u16, 6u16, 8u16]),
        (UVSegment::UV_num_7, [62u16, 153u16, 6u16, 8u16]),
        (UVSegment::UV_num_8, [68u16, 153u16, 6u16, 8u16]),
        (UVSegment::UV_num_9, [74u16, 153u16, 6u16, 8u16]),
        (UVSegment::UV_num_d, [80u16, 153u16, 6u16, 8u16]),
        (UVSegment::UV_num_B, [86u16, 153u16, 6u16, 8u16]),
    ]
}

/// The rectangle entered for `name`, if one is.
pub open spec fn lookup(entries: Map<u8, [u16; 4]>, name: UVSegment) -> Option<[u16; 4]> {
    if entries.contains_key(name.key_of()) {
        Some(entries[name.key_of()])
    } else {
        None
    }
}

/// The map that holds the first `count` entries of [`uv_map`], each under the
/// key of its picture.
pub open spec fn entered(count: nat) -> Map<u8, [u16; 4]>
    decreases count,
{
    if count == 0 {
        Map::empty()
    } else {
        entered((count - 1) as nat).insert(
            uv_map()[count - 1].0.key_of(),
            uv_map()[count - 1].1,
        )
    }
}

/// The rectangles of the shipped atlas as an atlas holds them.
pub open spec fn shipped() -> Map<u8, [u16; 4]> {
    entered(42)
}

/// Where a picture stands in [`uv_map`].
pub open spec fn uv_index(name: UVSegment) -> int {
    match name {
        UVSegment::UV_background => 0,
        UVSegment::UV_warning => 1,
        UVSegment::UV_gui_main => 2,
        UVSegment::UV_gui_monitors => 3,
        UVSegment::UV_btn_xor => 4,
        UVSegment::UV_btn_or => 5,
        UVSegment::UV_btn_and => 6,
        UVSegment::UV_btn_not => 7,
        UVSegment::UV_btn_open => 8,
        UVSegment::UV_slider_handle => 9,
        UVSegment::UV_digi_1_0 => 10,
        UVSegment::UV_digi_1_1 => 11,
        UVSegment::UV_digi_1_2 => 12,
        UVSegment::UV_digi_1_3 => 13,
        UVSegment::UV_digi_1_4 => 14,
        UVSegment::UV_digi_1_5 => 15,
        UVSegment::UV_digi_1_6 => 16,
        UVSegment::UV_digi_1_7 => 17,
        UVSegment::UV_digi_1_8 => 18,
        UVSegment::UV_digi_0_0 => 19,
        UVSegment::UV_digi_0_1 => 20,
        UVSegment::UV_digi_0_2 => 21,
        UVSegment::UV_digi_0_3 => 22,
        UVSegment::UV_digi_0_4 => 23,
        UVSegment::UV_digi_0_5 => 24,
        UVSegment::UV_digi_0_6 => 25,
        UVSegment::UV_digi_0_7 => 26,
        UVSegment::UV_digi_0_8 => 27,
        UVSegment::UV_num_0 => 28,
        UVSegment::UV_num_1 => 29,
        UVSegment::UV_num_2 => 30,
        UVSegment::UV_num_3 => 31,
        UVSegment::UV_num_4 => 32,
        UVSegment::UV_num_dot => 33,
        UVSegment::UV_num_minus => 34,
        UVSegment::UV_num_5 => 35,
        UVSegment::UV_num_6 => 36,
        UVSegment::UV_num_7 => 37,
        UVSegment::UV_num_8 => 38,
        UVSegment::UV_num_9 => 39,
        UVSegment::UV_num_d => 40,
        UVSegment::UV_num_B => 41,
    }
}

/// Each entry of [`uv_map`] stands at the place that is its picture's key.
proof fn lemma_table_keys(j: int)
    requires
        0 <= j < 42,
    ensures
        uv_map()[j].0.key_of() == j,
{
    if j == 0 {
        assert(uv_map()[0].0 == UVSegment::UV_background);
    }
    else if j == 1 {
        assert(uv_map()[1].0 == UVSegment::UV_warning);
    }
    else if j == 2 {
        assert(uv_map()[2].0 == UVSegment::UV_gui_main);
    }
    else if j == 3 {
        assert(uv_map()[3].0 == UVSegment::UV_gui_monitors);
    }
    else if j == 4 {
        assert(uv_map()[4].0 == UVSegment::UV_btn_xor);
    }
    else if j == 5 {
        assert(uv_map()[5].0 == UVSegment::UV_btn_or);
    }
    else if j == 6 {
        assert(uv_map()[6].0 == UVSegment::UV_btn_and);
    }
    else if j == 7 {
        assert(uv_map()[7].0 == UVSegment::UV_btn_not);
    }
    else if j == 8 {
        assert(uv_map()[8].0 == UVSegment::UV_btn_open);
    }
    else if j == 9 {
        assert(uv_map()[9].0 == UVSegment::UV_slider_handle);
    }
    else if j == 10 {
        assert(uv_map()[10].0 == UVSegment::UV_digi_1_0);
    }
    else if j == 11 {
        assert(uv_map()[11].0 == UVSegment::UV_digi_1_1);
    }
    else if j == 12 {
        assert(uv_map()[12].0 == UVSegment::UV_digi_1_2);
    }
    else if j == 13 {
        assert(uv_map()[13].0 == UVSegment::UV_digi_1_3);
    }
    else if j == 14 {
        assert(uv_map()[14].0 == UVSegment::UV_digi_1_4);
    }
    else if j == 15 {
        assert(uv_map()[15].0 == UVSegment::UV_digi_1_5);
    }
    else if j == 16 {
        assert(uv_map()[16].0 == UVSegment::UV_digi_1_6);
    }
    else if j == 17 {
        assert(uv_map()[17].0 == UVSegment::UV_digi_1_7);
    }
    else if j == 18 {
        assert(uv_map()[18].0 == UVSegment::UV_digi_1_8);
    }
    else if j == 19 {
        assert(uv_map()[19].0 == UVSegment::UV_digi_0_0);
    }
    else if j == 20 {
        assert(uv_map()[20].0 == UVSegment::UV_digi_0_1);
    }
    else if j == 21 {
        assert(uv_map()[21].0 == UVSegment::UV_digi_0_2);
    }
    else if j == 22 {
        assert(uv_map()[22].0 == UVSegment::UV_digi_0_3);
    }
    else if j == 23 {
        assert(uv_map()[23].0 == UVSegment::UV_digi_0_4);
    }
    else if j == 24 {
        assert(uv_map()[24].0 == UVSegment::UV_digi_0_5);
    }
    else if j == 25 {
        assert(uv_map()[25].0 == UVSegment::UV_digi_0_6);
    }
    else if j == 26 {
        assert(uv_map()[26].0 == UVSegment::UV_digi_0_7);
    }
    else if j == 27 {
        assert(uv_map()[27].0 == UVSegment::UV_digi_0_8);
    }
    else if j == 28 {
        assert(uv_map()[28].0 == UVSegment::UV_num_0);
    }
    else if j == 29 {
        assert(uv_map()[29].0 == UVSegment::UV_num_1);
    }
    else if j == 30 {
        assert(uv_map()[30].0 == UVSegment::UV_num_2);
    }
    else if j == 31 {
        assert(uv_map()[31].0 == UVSegment::UV_num_3);
    }
    else if j == 32 {
        assert(uv_map()[32].0 == UVSegment::UV_num_4);
    }
    else if j == 33 {
        assert(uv_map()[33].0 == UVSegment::UV_num_dot);
    }
    else if j == 34 {
        assert(uv_map()[34].0 == UVSegment::UV_num_minus);
    }
    else if j == 35 {
        assert(uv_map()[35].0 == UVSegment::UV_num_5);
    }
    else if j == 36 {
        assert(uv_map()[36].0 == UVSegment::UV_num_6);
    }
    else if j == 37 {
        assert(uv_map()[37].0 == UVSegment::UV_num_7);
    }
    else if j == 38 {
        assert(uv_map()[38].0 == UVSegment::UV_num_8);
    }
    else if j == 39 {
        assert(uv_map()[39].0 == UVSegment::UV_num_9);
    }
    else if j == 40 {
        assert(uv_map()[40].0 == UVSegment::UV_num_d);
    }
    else if j == 41 {
        assert(uv_map()[41].0 == UVSegment::UV_num_B);
    }
}

/// Entering the first `count` entries leaves each of them under its key.
proof fn lemma_entered(count: nat, j: int)
    requires
        0 <= j < count <= 42,
    ensures
        entered(count).contains_key(j as u8),
        entered(count)[j as u8] == uv_map()[j].1,
    decreases count,
{
    lemma_table_keys(count - 1);
    if j < count - 1 {
        lemma_entered((count - 1) as nat, j);
    }
}

/// The atlas image that ships with the effect has a rectangle for every
/// picture: the one that the table gives it.
pub proof fn lemma_uv_map_complete(name: UVSegment)
    ensures
        0 <= uv_index(name) < 42,
        uv_map()[uv_index(name)].0 == name,
        lookup(shipped(), name) == Some(uv_map()[uv_index(name)].1),
{
    lemma_entered(42, uv_index(name));
}

/// The corners of a rectangle as the six vertices of two triangles, each an
/// `x` and a `y` in texels: top left, top right, bottom left, then bottom
/// left, top right, bottom right.
pub open spec fn corners(rect: [u16; 4]) -> Seq<u32> {
    let x0 = rect[0] as u32;
    let y0 = rect[1] as u32;
    let x1 = (rect[0] + rect[2]) as u32;
    let y1 = (rect[1] + rect[3]) as u32;
    seq![x0, y0, x1, y0, x0, y1, x0, y1, x1, y0, x1, y1]
}

/// The layout of an atlas image: its size and the rectangles of its pictures,
/// each under the key of its picture.
#[derive(Debug)]
pub struct TextureAtlas {
    pub bounds_map: HashMap<u8, [u16; 4]>,
    pub tex_size: (u32, u32),
}

impl TextureAtlas {
    /// The layout of the atlas image that ships with the effect, for an image
    /// of the given width and height.
    pub fn new(width: u32, height: u32) -> (atlas: Self)
        ensures
            atlas.bounds_map@ == shipped(),
            atlas.tex_size == (width, height),
    {
        let table: Vec<Entry> = vec![
            (UVSegment::UV_background, [107u16, 89u16, 100u16, 100u16]),
            (UVSegment::UV_warning, [90u16, 0u16, 117u16, 89u16]),
            (UVSegment::UV_gui_main, [0u16, 0u16, 88u16, 145u16]),
            (UVSegment::UV_gui_monitors, [0u16, 189u16, 163u16, 45u16]),
            (UVSegment::UV_btn_xor, [28u16, 173u16, 16u16, 16u16]),
            (UVSegment::UV_btn_or, [44u16, 173u16, 16u16, 16u16]),
            (UVSegment::UV_btn_and, [60u16, 173u16, 16u16, 16u16]),
            (UVSegment::UV_btn_not, [76u16, 173u16, 16u16, 16u16]),
            (UVSegment::UV_btn_open, [28u16, 157u16, 16u16, 16u16]),
            (UVSegment::UV_slider_handle, [73u16, 165u16, 19u16, 8u16]),
            (UVSegment::UV_digi_1_0, [0u16, 153u16, 9u16, 6u16]),
            (UVSegment::UV_digi_1_1, [0u16, 159u16, 9u16, 6u16]),
            (UVSegment::UV_digi_1_2, [0u16, 165u16, 9u16, 6u16]),
            (UVSegment::UV_digi_1_3, [9u16, 153u16, 9u16, 6u16]),
            (UVSegment::UV_digi_1_4, [9u16, 159u16, 9u16, 6u16]),
            (UVSegment::UV_digi_1_5, [9u16, 165u16, 9u16, 6u16]),
            (UVSegment::UV_digi_1_6, [18u16, 153u16, 9u16, 6u16]),
            (UVSegment::UV_digi_1_7, [18u16, 159u16, 9u16, 6u16]),
            (UVSegment::UV_digi_1_8, [18u16, 165u16, 9u16, 6u16]),
            (UVSegment::UV_digi_0_0, [0u16, 171u16, 9u16, 6u16]),
            (UVSegment::UV_digi_0_1, [0u16, 177u16, 9u16, 6u16]),
            (UVSegment::UV_digi_0_2, [0u16, 183u16, 9u16, 6u16]),
            (UVSegment::UV_digi_0_3, [9u16, 171u16, 9u16, 6u16]),
            (UVSegment::UV_digi_0_4, [9u16, 177u16, 9u16, 6u16]),
            (UVSegment::UV_digi_0_5, [9u16, 183u16, 9u16, 6u16]),
            (UVSegment::UV_digi_0_6, [18u16, 171u16, 9u16, 6u16]),
            (UVSegment::UV_digi_0_7, [18u16, 177u16, 9u16, 6u16]),
            (UVSegment::UV_digi_0_8, [18u16, 183u16, 9u16, 6u16]),
            (UVSegment::UV_num_0, [50u16, 145u16, 6u16, 8u16]),
            (UVSegment::UV_num_1, [56u16, 145u16, 6u16, 8u16]),
            (UVSegment::UV_num_2, [62u16, 145u16, 6u16, 8u16]),
            (UVSegment::UV_num_3, [68u16, 145u16, 6u16, 8u16]),
            (UVSegment::UV_num_4, [74u16, 145u16, 6u16, 8u16]),
            (UVSegment::UV_num_dot, [81u16, 145u16, 6u16, 8u16]),
            (UVSegment::UV_num_minus, [86u16, 145u16, 6u16, 8u16]),
            (UVSegment::UV_num_5, [50u16, 153u16, 6u16, 8u16]),
            (UVSegment::UV_num_6, [56u16, 153u16, 6u16, 8u16]),
            (UVSegment::UV_num_7, [62u16, 153u16, 6u16, 8u16]),
            (UVSegment::UV_num_8, [68u16, 153u16, 6u16, 8u16]),
            (UVSegment::UV_num_9, [74u16, 153u16, 6u16, 8u16]),
            (UVSegment::UV_num_d, [80u16, 153u16, 6u16, 8u16]),
            (UVSegment::UV_num_B, [86u16, 153u16, 6u16, 8u16]),
        ];
        assert(table@ =~= uv_map());
        let mut bounds_map: HashMap<u8, [u16; 4]> = HashMap::new();
        let mut i: usize = 0;
        while i < table.len()
            invariant
                i <= table@.len(),
                table@ == uv_map(),
                table@.len() == 42,
                bounds_map@ == entered(i as nat),
            decreases table@.len() - i,
        {
            let entry = table[i];
            bounds_map.insert(entry.0.key(), entry.1);
            i = i + 1;
        }
        TextureAtlas { bounds_map, tex_size: (width, height) }
    }

    /// Width and height of the atlas image in texels.
    pub fn texture_size(&self) -> (size: (u32, u32))
        ensures
            size == self.tex_size,
    {
        self.tex_size
    }

    /// The rectangle entered for a picture.
    fn find(&self, name: &UVSegment) -> (found: Option<[u16; 4]>)
        ensures
            found == lookup(self.bounds_map@, *name),
    {
        match self.bounds_map.get(&name.key()) {
            Some(rect) => Some(*rect),
            None => None,
        }
    }

    /// The six vertices of a picture's rectangle, in texels: see [`corners`].
    /// Fails exactly when the atlas has no rectangle for the picture.
    pub fn get_uvs(&self, name: &UVSegment) -> (uvs: Result<[u32; 12], TextureError>)
        ensures
            match lookup(self.bounds_map@, *name) {
                Some(rect) => uvs is Ok && uvs->Ok_0@ == corners(rect),
                None => uvs == Err::<[u32; 12], TextureError>(TextureError::NotFound(*name)),
            },
    {
        match self.find(name) {
            Some(rect) => {
                let x0: u32 = rect[0] as u32;
                let y0: u32 = rect[1] as u32;
                let x1: u32 = rect[0] as u32 + rect[2] as u32;
                let y1: u32 = rect[1] as u32 + rect[3] as u32;
                let uvs: [u32; 12] = [x0, y0, x1, y0, x0, y1, x0, y1, x1, y0, x1, y1];
                assert(uvs@ =~= corners(rect));
                Ok(uvs)
            },
            None => Err(name.into_not_found()),
        }
    }

    /// A picture's rectangle in texels, as `[x, y, width, height]`. Fails
    /// exactly when the atlas has no rectangle for the picture.
    pub fn get_bounds(&self, name: &UVSegment) -> (bounds: Result<[u16; 4], TextureError>)
        ensures
            match lookup(self.bounds_map@, *name) {
                Some(rect) => bounds == Ok::<[u16; 4], TextureError>(rect),
                None => bounds == Err::<[u16; 4], TextureError>(TextureError::NotFound(*name)),
            },
    {
        match self.find(name) {
            Some(rect) => Ok(rect),
            None => Err(name.into_not_found()),
        }
    }

    /// Width and height of a picture in texels. Fails exactly when the atlas
    /// has no rectangle for the picture.
    pub fn get_size(&self, name: &UVSegment) -> (size: Result<(u16, u16), TextureError>)
        ensures
            match lookup(self.bounds_map@, *name) {
                Some(rect) => size == Ok::<(u16, u16), TextureError>((rect[2], rect[3])),
                None => size == Err::<(u16, u16), TextureError>(TextureError::NotFound(*name)),
            },
    {
        match self.find(name) {
            Some(rect) => Ok((rect[2], rect[3])),
            None => Err(name.into_not_found()),
        }
    }
}

} // verus!
