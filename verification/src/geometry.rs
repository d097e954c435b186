//! Axis-aligned rectangles and circles on the integer grid, and the test for
//! their overlap.

use vstd::prelude::*;
use crate::constants::{COORD_MAX, VIEWPORT_MAX};

verus! {

/// A point of the grid, or a displacement per tick.
#[derive(Clone, Copy, Debug, PartialEq, Eq, Structural)]
pub struct Vec2 {
    pub x: i64,
    pub y: i64,
}

/// A rectangle given by its top-left corner, width and height. The y axis
/// points down, so `y` is the top edge and `y + h` the bottom edge.
#[derive(Clone, Copy, Debug, PartialEq, Eq, Structural)]
pub struct Rect {
    pub x: i64,
    pub y: i64,
    pub w: i64,
    pub h: i64,
}

/// A circle given by its centre and radius.
#[derive(Clone, Copy, Debug, PartialEq, Eq, Structural)]
pub struct Circle {
    pub x: i64,
    pub y: i64,
    pub r: i64,
}

/// The extent of the playing field: x runs over `[0, width]`, y over
/// `[0, height]`.
#[derive(Clone, Copy, Debug, PartialEq, Eq, Structural)]
pub struct Viewport {
    pub width: i64,
    pub height: i64,
}

/// Mathematical rectangle: the view of a [`Rect`].
pub struct RectModel {
    pub x: int,
    pub y: int,
    pub w: int,
    pub h: int,
}

/// Mathematical circle: the view of a [`Circle`].
pub struct CircleModel {
    pub x: int,
    pub y: int,
    pub r: int,
}

/// Mathematical viewport: the view of a [`Viewport`].
pub struct ViewportModel {
    pub width: int,
    pub height: int,
}

/// `v` moved to the nearest value in `[lo, hi]`.
pub open spec fn clamp(v: int, lo: int, hi: int) -> int {
    if v < lo {
        lo
    } else if v > hi {
        hi
    } else {
        v
    }
}

/// Squared Euclidean distance between `(ax, ay)` and `(bx, by)`.
pub open spec fn dist_sq(ax: int, ay: int, bx: int, by: int) -> int {
    (ax - bx) * (ax - bx) + (ay - by) * (ay - by)
}

/// Whether `v` lies within `COORD_MAX` of zero.
pub open spec fn in_coord_range(v: int) -> bool {
    -COORD_MAX <= v <= COORD_MAX
}

impl RectModel {
    /// The x coordinate of the right edge.
    pub open spec fn right(self) -> int {
        self.x + self.w
    }

    /// The y coordinate of the bottom edge.
    pub open spec fn bottom(self) -> int {
        self.y + self.h
    }

    /// Whether the point lies in the rectangle, edges included.
    pub open spec fn contains(self, px: int, py: int) -> bool {
        self.x <= px <= self.right() && self.y <= py <= self.bottom()
    }
}

impl CircleModel {
    /// Whether the circle and the rectangle share a point: the point of the
    /// rectangle closest to the centre is no farther from it than the radius.
    pub open spec fn overlaps_rect(self, rect: RectModel) -> bool {
        dist_sq(
            self.x,
            self.y,
            clamp(self.x, rect.x, rect.right()),
            clamp(self.y, rect.y, rect.bottom()),
        ) <= self.r * self.r
    }
}

impl View for Rect {
    type V = RectModel;

    open spec fn view(&self) -> RectModel {
        RectModel { x: self.x as int, y: self.y as int, w: self.w as int, h: self.h as int }
    }
}

impl View for Circle {
    type V = CircleModel;

    open spec fn view(&self) -> CircleModel {
        CircleModel { x: self.x as int, y: self.y as int, r: self.r as int }
    }
}

impl View for Viewport {
    type V = ViewportModel;

    open spec fn view(&self) -> ViewportModel {
        ViewportModel { width: self.width as int, height: self.height as int }
    }
}

impl Vec2 {
    /// Both coordinates lie within `COORD_MAX` of zero.
    pub open spec fn wf(&self) -> bool {
        in_coord_range(self.x as int) && in_coord_range(self.y as int)
    }

    /// Tests `wf` at run time.
    pub fn is_wf(&self) -> (ok: bool)
        ensures
            ok == self.wf(),
    {
        -COORD_MAX <= self.x && self.x <= COORD_MAX && -COORD_MAX <= self.y && self.y <= COORD_MAX
    }
}

impl Rect {
    /// Width and height are positive, and every field lies within
    /// `COORD_MAX` of zero.
    pub open spec fn wf(&self) -> bool {
        &&& 0 < self.w <= COORD_MAX
        &&& 0 < self.h <= COORD_MAX
        &&& in_coord_range(self.x as int)
        &&& in_coord_range(self.y as int)
    }

    /// Tests `wf` at run time.
    pub fn is_wf(&self) -> (ok: bool)
        ensures
            ok == self.wf(),
    {
        0 < self.w && self.w <= COORD_MAX && 0 < self.h && self.h <= COORD_MAX && -COORD_MAX
            <= self.x && self.x <= COORD_MAX && -COORD_MAX <= self.y && self.y <= COORD_MAX
    }

    /// The y coordinate of the top edge.
    pub fn top(&self) -> (edge: i64)
        ensures
            edge == self@.y,
    {
        self.y
    }

    /// The y coordinate of the bottom edge.
    pub fn bottom(&self) -> (edge: i64)
        requires
            self.wf(),
        ensures
            edge == self@.bottom(),
    {
        self.y + self.h
    }

    /// The x coordinate of the right edge.
    pub fn right(&self) -> (edge: i64)
        requires
            self.wf(),
        ensures
            edge == self@.right(),
    {
        self.x + self.w
    }
}

impl Viewport {
    /// Width and height are positive and at most `VIEWPORT_MAX`.
    pub open spec fn wf(&self) -> bool {
        0 < self.width <= VIEWPORT_MAX && 0 < self.height <= VIEWPORT_MAX
    }

    /// Tests `wf` at run time.
    pub fn is_wf(&self) -> (ok: bool)
        ensures
            ok == self.wf(),
    {
        0 < self.width && self.width <= VIEWPORT_MAX && 0 < self.height && self.height
            <= VIEWPORT_MAX
    }
}

/// `v` moved to the nearest value in `[lo, hi]`.
fn clamp_to(v: i64, lo: i64, hi: i64) -> (c: i64)
    ensures
        c == clamp(v as int, lo as int, hi as int),
{
    if v < lo {
        lo
    } else if v > hi {
        hi
    } else {
        v
    }
}

impl Circle {
    /// The radius is positive, and every field lies within `COORD_MAX` of
    /// zero.
    pub open spec fn wf(&self) -> bool {
        &&& 0 < self.r <= COORD_MAX
        &&& in_coord_range(self.x as int)
        &&& in_coord_range(self.y as int)
    }

    /// Tests `wf` at run time.
    pub fn is_wf(&self) -> (ok: bool)
        ensures
            ok == self.wf(),
    {
        0 < self.r && self.r <= COORD_MAX && -COORD_MAX <= self.x && self.x <= COORD_MAX
            && -COORD_MAX <= self.y && self.y <= COORD_MAX
    }

    /// Whether the circle and the rectangle share a point.
    pub fn overlaps_rect(&self, rect: &Rect) -> (hit: bool)
        requires
            self.wf(),
            rect.wf(),
        ensures
            hit == self@.overlaps_rect(rect@),
    {
        let nearest_x: i64 = clamp_to(self.x, rect.x, rect.x + rect.w);
        let nearest_y: i64 = clamp_to(self.y, rect.y, rect.y + rect.h);
        let dx: i64 = self.x - nearest_x;
        let dy: i64 = self.y - nearest_y;
        let r: i64 = self.r;
        if dx > r || dx < -r || dy > r || dy < -r {
            proof {
                lemma_far_on_one_axis(dx as int, dy as int, r as int);
            }
            return false;
        }
        proof {
            lemma_square_bound(dx as int, r as int);
            lemma_square_bound(dy as int, r as int);
            lemma_square_bound(r as int, COORD_MAX as int);
        }
        dx * dx + dy * dy <= r * r
    }
}

/// A square grows with the magnitude of its root.
pub proof fn lemma_square_bound(a: int, b: int)
    requires
        -b <= a <= b,
    ensures
        0 <= a * a <= b * b,
{
    assert(0 <= a * a <= b * b) by (nonlinear_arith)
        requires
            -b <= a <= b,
    ;
}

/// A point farther than `r` from the centre along one axis is farther than
/// `r` from it.
proof fn lemma_far_on_one_axis(dx: int, dy: int, r: int)
    requires
        0 < r,
        dx > r || dx < -r || dy > r || dy < -r,
    ensures
        dx * dx + dy * dy > r * r,
{
    assert(dx * dx + dy * dy > r * r) by (nonlinear_arith)
        requires
            0 < r,
            dx > r || dx < -r || dy > r || dy < -r,
    ;
}

/// Along one axis, the clamped coordinate is at least as close to `c` as any
/// coordinate in `[lo, hi]`.
proof fn lemma_clamp_is_nearest(c: int, lo: int, hi: int, p: int)
    requires
        lo <= p <= hi,
    ensures
        (c - clamp(c, lo, hi)) * (c - clamp(c, lo, hi)) <= (c - p) * (c - p),
{
    let n = clamp(c, lo, hi);
    assert((c - n) * (c - n) <= (c - p) * (c - p)) by (nonlinear_arith)
        requires
            (0 <= c - n <= c - p) || (c - p <= c - n <= 0),
    ;
}

/// The clamped centre is a point of the rectangle, and no point of the
/// rectangle is closer to the centre.
pub proof fn lemma_nearest_point(circle: CircleModel, rect: RectModel, px: int, py: int)
    requires
        rect.w >= 0,
        rect.h >= 0,
        rect.contains(px, py),
    ensures
        rect.contains(
            clamp(circle.x, rect.x, rect.right()),
            clamp(circle.y, rect.y, rect.bottom()),
        ),
        dist_sq(
            circle.x,
            circle.y,
            clamp(circle.x, rect.x, rect.right()),
            clamp(circle.y, rect.y, rect.bottom()),
        ) <= dist_sq(circle.x, circle.y, px, py),
{
    lemma_clamp_is_nearest(circle.x, rect.x, rect.right(), px);
    lemma_clamp_is_nearest(circle.y, rect.y, rect.bottom(), py);
}

/// A circle overlaps a rectangle exactly when some grid point of the
/// rectangle lies within the radius of the centre.
pub proof fn lemma_overlap_means_shared_point(circle: CircleModel, rect: RectModel)
    requires
        rect.w >= 0,
        rect.h >= 0,
    ensures
        circle.overlaps_rect(rect) <==> exists|px: int, py: int|
            #![trigger rect.contains(px, py)]
            rect.contains(px, py) && dist_sq(circle.x, circle.y, px, py) <= circle.r * circle.r,
{
    let nx = clamp(circle.x, rect.x, rect.right());
    let ny = clamp(circle.y, rect.y, rect.bottom());
    if circle.overlaps_rect(rect) {
        assert(rect.contains(nx, ny));
    }
    assert forall|px: int, py: int|
        #![trigger rect.contains(px, py)]
        rect.contains(px, py) && dist_sq(circle.x, circle.y, px, py) <= circle.r
            * circle.r implies circle.overlaps_rect(rect) by {
        lemma_nearest_point(circle, rect, px, py);
    }
}

} // verus!
