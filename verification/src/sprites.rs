//! Sprite selections: which part of which sheet stands for a thing.

use vstd::prelude::*;
use crate::vecmath::Vector2;

verus! {

/// The handle of a loaded sprite sheet. The loader hands one out per sheet
/// name, and the renderer resolves it to a texture.
pub type SheetId = usize;

/// A rectangle of a sprite sheet, and the size it is drawn at.
#[derive(Clone, Copy, Debug)]
pub struct Sprite {
    /// The sheet the image is cut from.
    pub sheet: SheetId,
    /// Left, top, width and height of the image within the sheet, in pixels.
    pub coords: [i32; 4],
    /// Width and height in the world.
    pub size: Vector2,
}

} // verus!
