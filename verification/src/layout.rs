use vstd::prelude::*;

verus! {

/// A rectangular region of the terminal surface, in character cells.
///
/// Well-formed rectangles stay within the coordinate space: the right and
/// bottom edges do not overflow `u16`.
#[derive(Clone, Copy, Debug, PartialEq, Eq, Structural)]
pub struct Rect {
    pub x: u16,
    pub y: u16,
    pub width: u16,
    pub height: u16,
}

pub open spec fn rect_wf(r: Rect) -> bool {
    &&& r.x + r.width <= u16::MAX
    &&& r.y + r.height <= u16::MAX
}

/// The one layout rule of this application: a vertical layout with margin 1
/// whose single constraint is a row of height 1. When the area is too small
/// for the margin or the row, the region collapses to zero size.
pub open spec fn single_row_region_spec(area: Rect) -> Rect {
    Rect {
        x: if area.width >= 2 { (area.x + 1) as u16 } else { area.x },
        y: if area.height >= 2 { (area.y + 1) as u16 } else { area.y },
        width: if area.width >= 2 { (area.width - 2) as u16 } else { 0 },
        height: if area.height >= 3 { 1 } else { 0 },
    }
}

/// Computes the single one-row region (margin 1) of the given screen area.
pub fn single_row_region(area: Rect) -> (r: Rect)
    requires
        rect_wf(area),
    ensures
        r == single_row_region_spec(area),
{
    let x: u16 = if area.width >= 2 { area.x + 1 } else { area.x };
    let y: u16 = if area.height >= 2 { area.y + 1 } else { area.y };
    let width: u16 = if area.width >= 2 { area.width - 2 } else { 0 };
    let height: u16 = if area.height >= 3 { 1 } else { 0 };
    Rect { x, y, width, height }
}

} // verus!
