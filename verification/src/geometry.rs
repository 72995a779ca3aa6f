use vstd::prelude::*;

verus! {

/// A panel's on-screen rectangle, in absolute terminal cells.
///
/// The engine never interprets the fields beyond two uses: testing whether a
/// mouse position falls inside the panel, and comparing whole rectangles for
/// equality as the viewport-identity token that invalidates the cached
/// window start.
#[derive(Clone, Copy, Debug, PartialEq, Eq, Structural)]
pub struct Rect {
    pub x: u16,
    pub y: u16,
    pub width: u16,
    pub height: u16,
}

impl Rect {
    /// Half-open containment: a point on the right or bottom edge is outside.
    pub open spec fn contains_spec(self, column: int, row: int) -> bool {
        &&& self.x <= column < self.x + self.width
        &&& self.y <= row < self.y + self.height
    }

    pub fn contains(self, column: u16, row: u16) -> (r: bool)
        ensures
            r == self.contains_spec(column as int, row as int),
    {
        column >= self.x && column - self.x < self.width && row >= self.y
            && row - self.y < self.height
    }
}

impl Default for Rect {
    /// The zero rectangle: the identity token a panel carries before any
    /// geometry is known.
    fn default() -> (r: Self)
        ensures
            r == (Rect { x: 0, y: 0, width: 0, height: 0 }),
    {
        Rect { x: 0, y: 0, width: 0, height: 0 }
    }
}

} // verus!
