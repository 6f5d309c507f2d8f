//! Where on the screen a frame is drawn.

use vstd::prelude::*;

verus! {

/// A rectangle of terminal cells.
#[derive(Clone, Copy, Debug, PartialEq, Eq, Structural)]
pub struct Area {
    pub x: u16,
    pub y: u16,
    pub width: u16,
    pub height: u16,
}

pub open spec fn spec_min(a: int, b: int) -> int {
    if a <= b { a } else { b }
}

/// The side, in characters, of the text rendering of an image on a terminal of
/// `columns` by `rows` cells: twice the smaller of the two.
pub fn ascii_size(columns: u16, rows: u16) -> (r: u32)
    ensures
        r == 2 * spec_min(columns as int, rows as int),
{
    let smaller: u16 = if columns <= rows { columns } else { rows };
    (smaller as u32) * 2
}

/// The band in which text of `text_height` lines is drawn on a frame of
/// `width` by `height` cells: full width, centred vertically. Text taller than
/// the frame starts at the top.
pub fn ascii_area(width: u16, height: u16, text_height: u16) -> (r: Area)
    ensures
        r.x == 0,
        r.y == (if text_height <= height { (height - text_height) / 2 } else { 0 }),
        r.width == width,
        r.height == text_height,
{
    let y: u16 = if text_height <= height { (height - text_height) / 2 } else { 0 };
    Area { x: 0, y, width, height: text_height }
}

/// The box in which a picture is fitted on a frame of `width` by `height`
/// cells: four fifths of each side, centred vertically, and horizontally
/// centred then shifted right by a seventh of the width.
pub fn image_area(width: u16, height: u16) -> (r: Area)
    ensures
        r.width == width as int * 4 / 5,
        r.height == height as int * 4 / 5,
        r.x == (if width as int / 2 >= r.width / 2 { width as int / 2 - r.width / 2 } else { 0 })
            + width as int / 7,
        r.y == (if height as int / 2 >= r.height / 2 { height as int / 2 - r.height / 2 } else { 0 }),
        r.x + r.width <= width + width as int / 7,
{
    let image_width: u16 = ((width as u32) * 4 / 5) as u16;
    let image_height: u16 = ((height as u32) * 4 / 5) as u16;
    let x: u16 = (width / 2).saturating_sub(image_width / 2) + width / 7;
    let y: u16 = (height / 2).saturating_sub(image_height / 2);
    Area { x, y, width: image_width, height: image_height }
}

} // verus!
