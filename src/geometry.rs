//! Points, rectangles and the clamping they are built from.
use vstd::prelude::*;

verus! {

/// Largest magnitude a coordinate may have.
pub const COORD_LIMIT: i64 = 1099511627776;

/// A coordinate within the range the board works in.
pub open spec fn coord_ok(v: int) -> bool {
    -COORD_LIMIT <= v <= COORD_LIMIT
}

/// A drag offset: the distance between two points of the board's reach.
pub open spec fn offset_ok(v: Vec2) -> bool {
    -8 * COORD_LIMIT <= v.x <= 8 * COORD_LIMIT && -8 * COORD_LIMIT <= v.y <= 8 * COORD_LIMIT
}

/// `v` moved into `[lo, hi]`: raised to `lo` first, then lowered to `hi`.
pub open spec fn clamp(v: int, lo: int, hi: int) -> int {
    let a = if v < lo { lo } else { v };
    if a > hi { hi } else { a }
}

/// `v` moved into `[lo, hi]`: lowered to `hi` first, then raised to `lo`.
pub open spec fn clamp_up(v: int, lo: int, hi: int) -> int {
    let a = if v > hi { hi } else { v };
    if a < lo { lo } else { a }
}

/// `v.max(lo).min(hi)`.
pub fn clamp_i64(v: i64, lo: i64, hi: i64) -> (r: i64)
    ensures
        r == clamp(v as int, lo as int, hi as int),
        lo <= hi ==> lo <= r <= hi,
{
    let a = if v < lo { lo } else { v };
    if a > hi { hi } else { a }
}

/// `v.min(hi).max(lo)`.
pub fn clamp_up_i64(v: i64, lo: i64, hi: i64) -> (r: i64)
    ensures
        r == clamp_up(v as int, lo as int, hi as int),
        lo <= hi ==> lo <= r <= hi,
{
    let a = if v > hi { hi } else { v };
    if a < lo { lo } else { a }
}

/// A point on the board.
#[derive(Clone, Copy, PartialEq, Eq, Structural, Debug, Hash)]
pub struct Pos2 {
    pub x: i64,
    pub y: i64,
}

/// A displacement or a size.
#[derive(Clone, Copy, PartialEq, Eq, Structural, Debug, Hash)]
pub struct Vec2 {
    pub x: i64,
    pub y: i64,
}

/// An axis-aligned rectangle given by two corners.
#[derive(Clone, Copy, PartialEq, Eq, Structural, Debug, Hash)]
pub struct Rect {
    pub min: Pos2,
    pub max: Pos2,
}

impl Pos2 {
    pub open spec fn ok(self) -> bool {
        coord_ok(self.x as int) && coord_ok(self.y as int)
    }

    pub fn new(x: i64, y: i64) -> (r: Pos2)
        ensures
            r.x == x,
            r.y == y,
    {
        Pos2 { x, y }
    }

    /// Each axis moved into `[lo, hi]` on its own.
    pub fn clamp(self, lo: Pos2, hi: Pos2) -> (r: Pos2)
        ensures
            r.x == clamp(self.x as int, lo.x as int, hi.x as int),
            r.y == clamp(self.y as int, lo.y as int, hi.y as int),
    {
        Pos2 { x: clamp_i64(self.x, lo.x, hi.x), y: clamp_i64(self.y, lo.y, hi.y) }
    }
}

impl Vec2 {
    pub open spec fn ok(self) -> bool {
        coord_ok(self.x as int) && coord_ok(self.y as int)
    }

    pub fn new(x: i64, y: i64) -> (r: Vec2)
        ensures
            r.x == x,
            r.y == y,
    {
        Vec2 { x, y }
    }
}

impl Rect {
    /// Both corners in range and `min <= max` on each axis.
    pub open spec fn wf(self) -> bool {
        self.min.ok() && self.max.ok() && self.min.x <= self.max.x && self.min.y <= self.max.y
    }

    /// `self` lies inside `outer`, all four coordinates within its bounds.
    pub open spec fn inside(self, outer: Rect) -> bool {
        outer.min.x <= self.min.x <= outer.max.x && outer.min.y <= self.min.y <= outer.max.y
            && outer.min.x <= self.max.x <= outer.max.x && outer.min.y <= self.max.y
            <= outer.max.y
    }

    /// Width and height.
    pub open spec fn size_spec(self) -> Vec2 {
        Vec2 { x: (self.max.x - self.min.x) as i64, y: (self.max.y - self.min.y) as i64 }
    }

    pub open spec fn spec_center_x(self) -> int {
        self.min.x + (self.max.x - self.min.x) / 2
    }

    pub open spec fn spec_center_y(self) -> int {
        self.min.y + (self.max.y - self.min.y) / 2
    }

    pub fn from_min_max(min: Pos2, max: Pos2) -> (r: Rect)
        ensures
            r.min == min,
            r.max == max,
    {
        Rect { min, max }
    }

    /// The rectangle of the given size whose corner lies half the size
    /// (rounded down) before `center`.
    pub fn from_center_size(center: Pos2, size: Vec2) -> (r: Rect)
        requires
            -2 * COORD_LIMIT <= center.x <= 2 * COORD_LIMIT,
            -2 * COORD_LIMIT <= center.y <= 2 * COORD_LIMIT,
            0 <= size.x <= 2 * COORD_LIMIT,
            0 <= size.y <= 2 * COORD_LIMIT,
        ensures
            r.min.x == center.x - size.x / 2,
            r.min.y == center.y - size.y / 2,
            r.max.x == r.min.x + size.x,
            r.max.y == r.min.y + size.y,
    {
        let min = Pos2 { x: center.x - size.x / 2, y: center.y - size.y / 2 };
        Rect { min, max: Pos2 { x: min.x + size.x, y: min.y + size.y } }
    }

    /// The middle point, rounded towards `min`.
    pub fn center(&self) -> (r: Pos2)
        requires
            self.wf(),
        ensures
            r.x == self.spec_center_x(),
            r.y == self.spec_center_y(),
            r.ok(),
    {
        Pos2 { x: self.min.x + (self.max.x - self.min.x) / 2, y: self.min.y + (self.max.y - self.min.y) / 2 }
    }

    pub fn width(&self) -> (r: i64)
        requires
            self.wf(),
        ensures
            r == self.max.x - self.min.x,
    {
        self.max.x - self.min.x
    }

    pub fn height(&self) -> (r: i64)
        requires
            self.wf(),
        ensures
            r == self.max.y - self.min.y,
    {
        self.max.y - self.min.y
    }

    pub fn size(&self) -> (r: Vec2)
        requires
            self.wf(),
        ensures
            r.x == self.max.x - self.min.x,
            r.y == self.max.y - self.min.y,
    {
        Vec2 { x: self.max.x - self.min.x, y: self.max.y - self.min.y }
    }
}

/// Whether a rectangle overlaps or touches a container.
pub trait FitIn {
    spec fn fits_in(&self, container: Rect) -> bool;

    fn is_fit_in(&self, container: Rect) -> (r: bool)
        ensures
            r == self.fits_in(container),
    ;
}

impl FitIn for Rect {
    open spec fn fits_in(&self, container: Rect) -> bool {
        self.max.x >= container.min.x && self.max.y >= container.min.y && self.min.x
            <= container.max.x && self.min.y <= container.max.y
    }

    fn is_fit_in(&self, container: Rect) -> (r: bool) {
        !(self.max.x < container.min.x) && !(self.max.y < container.min.y) && !(self.min.x
            > container.max.x) && !(self.min.y > container.max.y)
    }
}

} // verus!
