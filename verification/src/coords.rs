use vstd::math::{abs, max, min};
use vstd::prelude::*;

verus! {

/// A cell index on the editor grid. World positions are derived from it by
/// scaling with the grid cell size, which is pixel-space glue outside this
/// library.
#[derive(Clone, Copy, PartialEq, Eq, Structural)]
pub struct Coords {
    pub x: i32,
    pub y: i32,
}

impl Coords {
    /// The origin cell.
    pub fn default() -> (c: Self)
        ensures
            c.x == 0,
            c.y == 0,
    {
        Self { x: 0, y: 0 }
    }

    /// The cell lies inside the axis-aligned bounding box of the segment from
    /// `start` to `end` (endpoints included).
    pub open spec fn in_bounding_box(self, start: Coords, end: Coords) -> bool {
        &&& min(start.x as int, end.x as int) <= self.x as int <= max(start.x as int, end.x as int)
        &&& min(start.y as int, end.y as int) <= self.y as int <= max(start.y as int, end.y as int)
    }

    /// The cell lies on the infinite 45-degree line through `start` and `end`.
    /// The slope has magnitude 1: along the line, `y` changes exactly as much
    /// as `x` does (same direction for slope 1, opposite for slope -1).
    pub open spec fn on_diagonal_line(self, start: Coords, end: Coords) -> bool {
        if end.x - start.x == end.y - start.y {
            self.y - start.y == self.x - start.x
        } else {
            self.y as int - start.y as int == -(self.x as int - start.x as int)
        }
    }

    /// Segments drawn on the grid are horizontal, vertical, or at 45 degrees;
    /// the intersection test is only defined for those.
    pub open spec fn segment_wf(start: Coords, end: Coords) -> bool {
        ||| start.x == end.x
        ||| start.y == end.y
        ||| abs(end.x as int - start.x as int) == abs(end.y as int - start.y as int)
    }

    /// The cell lies on the segment from `start` to `end`: inside its bounding
    /// box and, for a diagonal segment, on its line.
    pub open spec fn spec_is_intersecting(self, start: Coords, end: Coords) -> bool {
        &&& self.in_bounding_box(start, end)
        &&& (start.x == end.x || start.y == end.y || self.on_diagonal_line(start, end))
    }

    /// Whether the segment from `start` to `end` passes through this cell.
    pub fn is_intersecting_coords(&self, start: &Coords, end: &Coords) -> (r: bool)
        requires
            Self::segment_wf(*start, *end),
        ensures
            r == self.spec_is_intersecting(*start, *end),
    {
        let min_x = if start.x < end.x {
            start.x
        } else {
            end.x
        };
        let max_x = if start.x < end.x {
            end.x
        } else {
            start.x
        };
        let min_y = if start.y < end.y {
            start.y
        } else {
            end.y
        };
        let max_y = if start.y < end.y {
            end.y
        } else {
            start.y
        };

        // Outside the bounding rectangle of the segment there is no overlap.
        let is_in_bounds = min_x <= self.x && self.x <= max_x && min_y <= self.y && self.y
            <= max_y;
        if !is_in_bounds {
            return false;
        }
        // A horizontal or vertical segment covers its whole bounding box.
        if start.x == end.x || start.y == end.y {
            return true;
        }
        // The segment is diagonal at 45 degrees: slope magnitude is exactly 1.
        // Widening to i64 keeps every intermediate value in range.
        let sx = start.x as i64;
        let sy = start.y as i64;
        let dx = end.x as i64 - sx;
        let dy = end.y as i64 - sy;
        if dx == dy {
            // Slope 1: y == x + (start.y - start.x).
            self.y as i64 == self.x as i64 + (sy - sx)
        } else {
            // Slope -1: y == -x + (start.y + start.x).
            self.y as i64 == (sy + sx) - self.x as i64
        }
    }
}

} // verus!
