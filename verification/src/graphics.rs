//! Where a cell of the grid lies on the screen.

use vstd::prelude::*;

use crate::config::POINT_SIZE;
use crate::entities::Point;

verus! {

/// A rectangle of pixels, by its top left corner and its size.
#[derive(Clone, Copy, Debug, PartialEq, Eq, Structural)]
pub struct CellRect {
    pub x: i32,
    pub y: i32,
    pub width: u32,
    pub height: u32,
}

/// Whether the pixels of the cell `point` start at coordinates that a
/// rectangle can hold.
pub open spec fn on_canvas(point: Point) -> bool {
    point.x * POINT_SIZE <= i32::MAX && point.y * POINT_SIZE <= i32::MAX
}

/// The square of pixels that shows the cell `point`: cells are `POINT_SIZE`
/// pixels wide and high and lie side by side from the top left corner of the
/// window. A cell so far out that its pixels cannot be addressed has none.
pub fn cell_rect(point: &Point) -> (rect: Option<CellRect>)
    ensures
        rect == if on_canvas(*point) {
            Some(
                CellRect {
                    x: (point.x * POINT_SIZE) as i32,
                    y: (point.y * POINT_SIZE) as i32,
                    width: POINT_SIZE,
                    height: POINT_SIZE,
                },
            )
        } else {
            None::<CellRect>
        },
{
    let limit: u32 = i32::MAX as u32 / POINT_SIZE;
    if point.get_x() <= limit && point.get_y() <= limit {
        Some(
            CellRect {
                x: (point.get_x() * POINT_SIZE) as i32,
                y: (point.get_y() * POINT_SIZE) as i32,
                width: POINT_SIZE,
                height: POINT_SIZE,
            },
        )
    } else {
        None
    }
}

} // verus!
