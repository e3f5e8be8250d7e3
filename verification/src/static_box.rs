//! A picture of the atlas placed on the view.

use vstd::prelude::*;
use crate::texture::{lookup, TextureAtlas, TextureError, UVSegment};

verus! {

/// Width of the view in pixels.
pub const VIEW_WIDTH: u16 = 200;

/// Height of the view in pixels.
pub const VIEW_HEIGHT: u16 = 200;

/// Where a picture is drawn and how large it is.
#[derive(Clone, Copy, Debug, PartialEq, Eq)]
pub struct StaticBox {
    pub position: (u16, u16),
    pub width: u16,
    pub height: u16,
}

impl StaticBox {
    /// The box for the picture `uv_segment`, with its top left corner at
    /// `position` and the size that the atlas gives the picture. Fails exactly
    /// when the atlas has no rectangle for the picture.
    pub fn new(atlas: &TextureAtlas, uv_segment: &UVSegment, position: (u16, u16)) -> (made:
        Result<Self, TextureError>)
        ensures
            match lookup(atlas.bounds_map@, *uv_segment) {
                Some(rect) => made == Ok::<StaticBox, TextureError>(
                    (StaticBox { position, width: rect[2], height: rect[3] }),
                ),
                None => made == Err::<StaticBox, TextureError>(
                    TextureError::NotFound(*uv_segment),
                ),
            },
    {
        match atlas.get_size(uv_segment) {
            Ok((width, height)) => Ok(StaticBox { position, width, height }),
            Err(error) => Err(error),
        }
    }

    /// Shows another picture in the box: the box takes that picture's size and
    /// stays where it is. Fails, and leaves the box as it was, exactly when the
    /// atlas has no rectangle for the picture.
    pub fn swap_uv(&mut self, atlas: &TextureAtlas, new_segment: &UVSegment) -> (done: Result<
        (),
        TextureError,
    >)
        ensures
            match lookup(atlas.bounds_map@, *new_segment) {
                Some(rect) => done is Ok && *final(self) == (StaticBox {
                    position: old(self).position,
                    width: rect[2],
                    height: rect[3],
                }),
                None => done == Err::<(), TextureError>(TextureError::NotFound(*new_segment))
                    && *final(self) == *old(self),
            },
    {
        match atlas.get_size(new_segment) {
            Ok((new_width, new_height)) => {
                self.width = new_width;
                self.height = new_height;
                Ok(())
            },
            Err(error) => Err(error),
        }
    }

    /// The box as left, top, right and bottom edge, in pixels.
    pub fn edges(&self) -> (edges: [u32; 4])
        ensures
            edges[0] == self.position.0,
            edges[1] == self.position.1,
            edges[2] == self.position.0 + self.width,
            edges[3] == self.position.1 + self.height,
    {
        [
            self.position.0 as u32,
            self.position.1 as u32,
            self.position.0 as u32 + self.width as u32,
            self.position.1 as u32 + self.height as u32,
        ]
    }

    /// Whether a point of the view lies in the box. The left and top edges
    /// belong to the box, the right and bottom edges do not.
    pub fn is_mouse_over(&self, point: (i16, i16)) -> (over: bool)
        ensures
            over == (self.position.0 <= point.0 < self.position.0 + self.width && self.position.1
                <= point.1 < self.position.1 + self.height),
    {
        let x: i32 = point.0 as i32;
        let y: i32 = point.1 as i32;
        let left: i32 = self.position.0 as i32;
        let top: i32 = self.position.1 as i32;
        left <= x && x < left + self.width as i32 && top <= y && y < top + self.height as i32
    }
}

} // verus!
