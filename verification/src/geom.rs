//! Fixed-point plane geometry: vectors, axis-aligned boxes, circles, and the
//! circle-versus-box collision test with its four-way side classification.

use vstd::prelude::*;

verus! {

/// Every coordinate the geometry works on stays within this bound (in
/// subpixels), which keeps all the squared-distance arithmetic inside `i64`.
pub const COORD_LIMIT: i64 = 0x2000_0000;

/// A coordinate small enough for the collision arithmetic.
pub open spec fn coord_ok(c: int) -> bool {
    -COORD_LIMIT <= c <= COORD_LIMIT
}

/// A point or displacement in the plane, in subpixels.
#[derive(Clone, Copy, PartialEq, Eq, Structural, Debug)]
pub struct Vec2Fix {
    pub x: i64,
    pub y: i64,
}

impl Vec2Fix {
    /// Both components are within [`COORD_LIMIT`].
    pub open spec fn bounded(self) -> bool {
        coord_ok(self.x as int) && coord_ok(self.y as int)
    }
}

/// An axis-aligned box, stored by its two extreme corners.
#[derive(Clone, Copy, PartialEq, Eq, Structural, Debug)]
pub struct Aabb {
    pub min: Vec2Fix,
    pub max: Vec2Fix,
}

impl Aabb {
    /// The corners are ordered.
    pub open spec fn wf(self) -> bool {
        self.min.x <= self.max.x && self.min.y <= self.max.y
    }

    /// Both corners are within [`COORD_LIMIT`].
    pub open spec fn bounded(self) -> bool {
        self.min.bounded() && self.max.bounded()
    }

    /// Builds the box around `center` with the given half extents, the way a
    /// sprite's translation and half its scale describe its bounds.
    pub fn from_center_half(center: Vec2Fix, half: Vec2Fix) -> (b: Aabb)
        requires
            center.bounded(),
            half.bounded(),
            0 <= half.x,
            0 <= half.y,
        ensures
            b.min.x == center.x - half.x,
            b.min.y == center.y - half.y,
            b.max.x == center.x + half.x,
            b.max.y == center.y + half.y,
            b.wf(),
    {
        Aabb {
            min: Vec2Fix { x: center.x - half.x, y: center.y - half.y },
            max: Vec2Fix { x: center.x + half.x, y: center.y + half.y },
        }
    }

    /// The point of the box closest to `p`: each coordinate of `p` clamped to
    /// the box's extent on that axis.
    pub fn closest_point(&self, p: Vec2Fix) -> (c: Vec2Fix)
        requires
            self.wf(),
        ensures
            c.x as int == closest_x(*self, p),
            c.y as int == closest_y(*self, p),
    {
        Vec2Fix {
            x: clamp_coord(p.x, self.min.x, self.max.x),
            y: clamp_coord(p.y, self.min.y, self.max.y),
        }
    }
}

/// A circle, stored by its center and radius, in subpixels.
#[derive(Clone, Copy, PartialEq, Eq, Structural, Debug)]
pub struct Circle {
    pub center: Vec2Fix,
    pub radius: i64,
}

impl Circle {
    /// The radius is a length within [`COORD_LIMIT`].
    pub open spec fn wf(self) -> bool {
        0 <= self.radius <= COORD_LIMIT
    }

    /// The center is within [`COORD_LIMIT`].
    pub open spec fn bounded(self) -> bool {
        self.center.bounded()
    }
}

/// `v` clamped to the interval from `lo` to `hi`.
pub open spec fn clamp_spec(v: int, lo: int, hi: int) -> int {
    if v < lo {
        lo
    } else if v > hi {
        hi
    } else {
        v
    }
}

/// `v` clamped to the interval from `lo` to `hi`.
pub fn clamp_coord(v: i64, lo: i64, hi: i64) -> (r: i64)
    requires
        lo <= hi,
    ensures
        r as int == clamp_spec(v as int, lo as int, hi as int),
{
    if v < lo {
        lo
    } else if v > hi {
        hi
    } else {
        v
    }
}

/// The x coordinate of the point of `b` closest to `p`.
pub open spec fn closest_x(b: Aabb, p: Vec2Fix) -> int {
    clamp_spec(p.x as int, b.min.x as int, b.max.x as int)
}

/// The y coordinate of the point of `b` closest to `p`.
pub open spec fn closest_y(b: Aabb, p: Vec2Fix) -> int {
    clamp_spec(p.y as int, b.min.y as int, b.max.y as int)
}

/// The squared distance between the points `(ax, ay)` and `(bx, by)`.
pub open spec fn dist_sq(ax: int, ay: int, bx: int, by: int) -> int {
    (ax - bx) * (ax - bx) + (ay - by) * (ay - by)
}

/// The circle touches the box: the box's closest point to the circle's center
/// lies within one radius of it.
pub open spec fn circle_touches_box(c: Circle, b: Aabb) -> bool {
    dist_sq(
        c.center.x as int,
        c.center.y as int,
        closest_x(b, c.center),
        closest_y(b, c.center),
    ) <= c.radius * c.radius
}

/// Whether `c` and `b` intersect, by comparing the squared distance from the
/// circle's center to the box's closest point against the squared radius.
pub fn circle_intersects_box(c: &Circle, b: &Aabb) -> (r: bool)
    requires
        c.wf(),
        c.bounded(),
        b.wf(),
        b.bounded(),
    ensures
        r == circle_touches_box(*c, *b),
{
    let cx = clamp_coord(c.center.x, b.min.x, b.max.x);
    let cy = clamp_coord(c.center.y, b.min.y, b.max.y);
    let dx = c.center.x - cx;
    let dy = c.center.y - cy;
    proof {
        lemma_square_bound(dx as int);
        lemma_square_bound(dy as int);
        lemma_square_bound(c.radius as int);
    }
    dx * dx + dy * dy <= c.radius * c.radius
}

/// A number within twice [`COORD_LIMIT`] has a square below `1 << 61`.
proof fn lemma_square_bound(v: int)
    by (nonlinear_arith)
    requires
        -2 * COORD_LIMIT <= v <= 2 * COORD_LIMIT,
    ensures
        0 <= v * v <= 0x1000_0000_0000_0000,
{
}

/// On one axis, no point of the interval from `lo` to `hi` is nearer to `v`
/// than its clamp.
proof fn lemma_clamp_axis_minimal(v: int, lo: int, hi: int, q: int)
    requires
        lo <= hi,
        lo <= q <= hi,
    ensures
        (v - clamp_spec(v, lo, hi)) * (v - clamp_spec(v, lo, hi)) <= (v - q) * (v - q),
{
    let c = clamp_spec(v, lo, hi);
    assert((v - c) * (v - c) <= (v - q) * (v - q)) by (nonlinear_arith)
        requires
            (v < lo ==> c == lo) && (v > hi ==> c == hi) && (lo <= v <= hi ==> c == v),
            lo <= q <= hi,
            lo <= c <= hi,
    ;
}

/// The point [`closest_x`], [`closest_y`] really is the closest: no point of
/// the box is nearer to `p` than it.
pub proof fn lemma_closest_point_minimal(b: Aabb, p: Vec2Fix, q: Vec2Fix)
    requires
        b.wf(),
        b.min.x <= q.x <= b.max.x,
        b.min.y <= q.y <= b.max.y,
    ensures
        dist_sq(p.x as int, p.y as int, closest_x(b, p), closest_y(b, p)) <= dist_sq(
            p.x as int,
            p.y as int,
            q.x as int,
            q.y as int,
        ),
{
    lemma_clamp_axis_minimal(p.x as int, b.min.x as int, b.max.x as int, q.x as int);
    lemma_clamp_axis_minimal(p.y as int, b.min.y as int, b.max.y as int, q.y as int);
}

/// The side of a box that a collision came from.
#[derive(Clone, Copy, PartialEq, Eq, Structural, Debug)]
pub enum Collision {
    Left,
    Right,
    Top,
    Bottom,
}

/// Classifies the side hit from the offset `(ox, oy)` that leads from the
/// box's closest point to the circle's center: the axis with the larger
/// magnitude wins, and its sign picks the side; ties go to the vertical axis.
pub open spec fn side_of_offset(ox: int, oy: int) -> Collision {
    let ax = if ox < 0 { -ox } else { ox };
    let ay = if oy < 0 { -oy } else { oy };
    if ax > ay {
        if ox < 0 {
            Collision::Left
        } else {
            Collision::Right
        }
    } else if oy > 0 {
        Collision::Top
    } else {
        Collision::Bottom
    }
}

/// `Some(side)` when `ball` touches `b`, with the side of `b` that the ball
/// hit; `None` when they do not intersect.
pub open spec fn ball_collision_spec(ball: Circle, b: Aabb) -> Option<Collision> {
    if !circle_touches_box(ball, b) {
        None
    } else {
        Some(
            side_of_offset(
                ball.center.x - closest_x(b, ball.center),
                ball.center.y - closest_y(b, ball.center),
            ),
        )
    }
}

/// Returns `Some` exactly when `ball` collides with `bounding_box`, and then
/// the side of `bounding_box` that `ball` hit.
pub fn ball_collision(ball: &Circle, bounding_box: &Aabb) -> (r: Option<Collision>)
    requires
        ball.wf(),
        ball.bounded(),
        bounding_box.wf(),
        bounding_box.bounded(),
    ensures
        r == ball_collision_spec(*ball, *bounding_box),
{
    if !circle_intersects_box(ball, bounding_box) {
        return None;
    }

    let closest = bounding_box.closest_point(ball.center);
    let ox = ball.center.x - closest.x;
    let oy = ball.center.y - closest.y;
    let ax = if ox < 0 { -ox } else { ox };
    let ay = if oy < 0 { -oy } else { oy };
    let side = if ax > ay {
        if ox < 0 {
            Collision::Left
        } else {
            Collision::Right
        }
    } else if oy > 0 {
        Collision::Top
    } else {
        Collision::Bottom
    };

    Some(side)
}

} // verus!
