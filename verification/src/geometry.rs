//! Screen rectangles, in terminal cells.

use vstd::prelude::*;

verus! {

/// A rectangle of terminal cells: its top-left corner and its size.
#[derive(Debug, Clone, Copy, PartialEq, Eq, Hash, Structural)]
pub struct Rect {
    pub x: u16,
    pub y: u16,
    pub width: u16,
    pub height: u16,
}

/// `extent` from `origin`, cut back so that the far edge stays on the
/// coordinate range.
pub open spec fn clamped_extent(origin: u16, extent: u16) -> u16 {
    if origin + extent > u16::MAX {
        (u16::MAX - origin) as u16
    } else {
        extent
    }
}

/// `ratatui::layout::Rect::new`: a rectangle whose width and height are cut
/// back so that its right and bottom edges stay within `u16`.
#[verifier::external_body]
fn ratatui_rect(x: u16, y: u16, width: u16, height: u16) -> (r: Rect)
    ensures
        r == (Rect { x, y, width: clamped_extent(x, width), height: clamped_extent(y, height) }),
{
    let r = ratatui::layout::Rect::new(x, y, width, height);
    Rect { x: r.x, y: r.y, width: r.width, height: r.height }
}

impl Rect {
    /// A rectangle at (`x`, `y`), its size cut back to keep its far edges on
    /// the coordinate range.
    pub fn new(x: u16, y: u16, width: u16, height: u16) -> (r: Rect)
        ensures
            r == (Rect { x, y, width: clamped_extent(x, width), height: clamped_extent(y, height) }),
    {
        ratatui_rect(x, y, width, height)
    }

    /// The empty rectangle at the origin.
    pub fn zero() -> (r: Rect)
        ensures
            r == (Rect { x: 0, y: 0, width: 0, height: 0 }),
    {
        Rect { x: 0, y: 0, width: 0, height: 0 }
    }

    /// True when the rectangle covers no cell.
    pub fn is_empty(&self) -> (b: bool)
        ensures
            b == (self.width == 0 || self.height == 0),
    {
        self.width == 0 || self.height == 0
    }
}

} // verus!
