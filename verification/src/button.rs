//! The four buttons that choose the operator.

use vstd::prelude::*;
use crate::model::modes::FlipModes;
use crate::static_box::StaticBox;
use crate::texture::UVSegment;

verus! {

/// Width and height of a button in pixels.
pub const BUTTON_SIZE: u16 = 16;

/// A button that stands for one operator and is lit while that operator is chosen.
#[derive(Clone, Copy, Debug, PartialEq, Eq)]
pub struct Button {
    pub static_box: StaticBox,
    pub uv_segment: UVSegment,
    pub state: FlipModes,
    pub is_on: bool,
}

/// The picture of the button for an operator.
pub open spec fn button_picture(mode: FlipModes) -> UVSegment {
    match mode {
        FlipModes::Xor => UVSegment::UV_btn_xor,
        FlipModes::Or => UVSegment::UV_btn_or,
        FlipModes::And => UVSegment::UV_btn_and,
        FlipModes::Not => UVSegment::UV_btn_not,
    }
}

/// Where the button for an operator stands: the four are stacked in one
/// column, seventeen pixels apart.
pub open spec fn button_position(mode: FlipModes) -> (u16, u16) {
    match mode {
        FlipModes::Xor => (46u16, 51u16),
        FlipModes::Or => (46u16, 68u16),
        FlipModes::And => (46u16, 85u16),
        FlipModes::Not => (46u16, 102u16),
    }
}

impl Button {
    /// An unlit button for `flip_mode` that shows `uv_segment` at `position`.
    pub fn new(flip_mode: FlipModes, uv_segment: UVSegment, position: (u16, u16)) -> (button: Self)
        ensures
            button == (Button {
                static_box: StaticBox { position, width: BUTTON_SIZE, height: BUTTON_SIZE },
                uv_segment,
                state: flip_mode,
                is_on: false,
            }),
    {
        Button {
            static_box: StaticBox { position, width: BUTTON_SIZE, height: BUTTON_SIZE },
            uv_segment,
            state: flip_mode,
            is_on: false,
        }
    }

    /// Turns the light of the button over.
    pub fn onclick(&mut self)
        ensures
            *final(self) == (Button { is_on: !old(self).is_on, ..*old(self) }),
    {
        self.is_on = !self.is_on
    }

    /// The operator that the button stands for.
    pub fn get_state(&self) -> (mode: FlipModes)
        ensures
            mode == self.state,
    {
        self.state
    }

    /// Lights the button exactly when `mode`, the chosen operator, is its own.
    pub fn prerender(&mut self, mode: FlipModes)
        ensures
            *final(self) == (Button { is_on: old(self).state == mode, ..*old(self) }),
    {
        self.is_on = self.state == mode
    }

    /// Width of the button in pixels.
    pub fn width(&self) -> (width: u16)
        ensures
            width == BUTTON_SIZE,
    {
        BUTTON_SIZE
    }

    /// Height of the button in pixels.
    pub fn height(&self) -> (height: u16)
        ensures
            height == BUTTON_SIZE,
    {
        BUTTON_SIZE
    }

    /// The top left corner of the button.
    pub fn position(&self) -> (position: (u16, u16))
        ensures
            position == self.static_box.position,
    {
        self.static_box.position
    }
}

/// Makes the button of each operator.
#[derive(Clone, Copy, Debug)]
pub struct ButtonBuilder {}

impl ButtonBuilder {
    /// A builder; it holds nothing.
    pub fn new() -> (builder: Self) {
        ButtonBuilder {  }
    }

    /// The button for `mode`: unlit, with the operator's picture, at the
    /// operator's place.
    pub fn mode(&self, mode: FlipModes) -> (button: Button)
        ensures
            button == (Button {
                static_box: StaticBox {
                    position: button_position(mode),
                    width: BUTTON_SIZE,
                    height: BUTTON_SIZE,
                },
                uv_segment: button_picture(mode),
                state: mode,
                is_on: false,
            }),
    {
        match mode {
            FlipModes::Xor => Button::new(mode, UVSegment::UV_btn_xor, (46, 51)),
            FlipModes::Or => Button::new(mode, UVSegment::UV_btn_or, (46, 68)),
            FlipModes::And => Button::new(mode, UVSegment::UV_btn_and, (46, 85)),
            FlipModes::Not => Button::new(mode, UVSegment::UV_btn_not, (46, 102)),
        }
    }
}

} // verus!
