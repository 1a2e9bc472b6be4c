//! The arena's layout: the fixed-point constants that place the walls, the
//! paddle and the ball, and the computation of the brick grid.
//!
//! All lengths are `i64` subpixels, with [`SUBPIXEL`] subpixels to one pixel.
//! Velocities are subpixels per tick of the fixed 64 Hz simulation schedule.
//! Sizes are kept as half extents beside their full extents, since the
//! collision boxes are built from centers and half sizes.

use vstd::prelude::*;

use crate::geom::{Aabb, Vec2Fix};

verus! {

/// Subpixels per pixel of the fixed-point world.
pub const SUBPIXEL: i64 = 256;

/// Ticks of the fixed simulation schedule per second.
pub const TICKS_PER_SECOND: i64 = 64;

/// Length of one simulation tick in microseconds.
pub const TICK_MICROS: u64 = 15625;

/// A speed of one pixel per second, as subpixels per tick: `SUBPIXEL`
/// divided by `TICKS_PER_SECOND`.
pub const PIXEL_PER_SECOND: i64 = 4;

pub const PADDLE_HALF_WIDTH: i64 = 60 * SUBPIXEL;

pub const PADDLE_WIDTH: i64 = 2 * PADDLE_HALF_WIDTH;

pub const PADDLE_HALF_HEIGHT: i64 = 10 * SUBPIXEL;

pub const PADDLE_HEIGHT: i64 = 2 * PADDLE_HALF_HEIGHT;

pub const GAP_BETWEEN_PADDLE_AND_FLOOR: i64 = 60 * SUBPIXEL;

/// Paddle speed: 500 pixels per second.
pub const PADDLE_SPEED: i64 = 500 * PIXEL_PER_SECOND;

/// How close the paddle can get to the wall.
pub const PADDLE_PADDING: i64 = 10 * SUBPIXEL;

pub const BALL_START_X: i64 = 0;

pub const BALL_START_Y: i64 = -50 * SUBPIXEL;

pub const BALL_RADIUS: i64 = 15 * SUBPIXEL;

pub const BALL_DIAMETER: i64 = 2 * BALL_RADIUS;

/// Ball speed: 400 pixels per second.
pub const BALL_SPEED: i64 = 400 * PIXEL_PER_SECOND;

/// Per-tick ball velocity: [`BALL_SPEED`] along the diagonal `(1, -1)`, each
/// component rounded to the nearest subpixel (1600 divided by the square root
/// of two).
pub const INITIAL_BALL_VELOCITY_X: i64 = 1131;

pub const INITIAL_BALL_VELOCITY_Y: i64 = -1131;

pub const WALL_HALF_THICKNESS: i64 = 5 * SUBPIXEL;

pub const WALL_THICKNESS: i64 = 2 * WALL_HALF_THICKNESS;

// x coordinates of the wall centers.
pub const LEFT_WALL: i64 = -450 * SUBPIXEL;

pub const RIGHT_WALL: i64 = 450 * SUBPIXEL;

// y coordinates of the wall centers.
pub const BOTTOM_WALL: i64 = -300 * SUBPIXEL;

pub const TOP_WALL: i64 = 300 * SUBPIXEL;

pub const ARENA_WIDTH: i64 = RIGHT_WALL - LEFT_WALL;

pub const ARENA_HEIGHT: i64 = TOP_WALL - BOTTOM_WALL;

/// Half the height of a vertical wall. The arena is centered on the origin,
/// so this is the top wall's center plus half a thickness; the walls then run
/// the arena's extent plus one thickness, and the corners close.
pub const VERTICAL_WALL_HALF_HEIGHT: i64 = TOP_WALL + WALL_HALF_THICKNESS;

pub const VERTICAL_WALL_HEIGHT: i64 = 2 * VERTICAL_WALL_HALF_HEIGHT;

/// Half the width of a horizontal wall.
pub const HORIZONTAL_WALL_HALF_WIDTH: i64 = RIGHT_WALL + WALL_HALF_THICKNESS;

pub const HORIZONTAL_WALL_WIDTH: i64 = 2 * HORIZONTAL_WALL_HALF_WIDTH;

/// The paddle's center sits one floor gap above the bottom wall.
pub const PADDLE_Y: i64 = BOTTOM_WALL + GAP_BETWEEN_PADDLE_AND_FLOOR;

/// Leftmost paddle center: flush against the left wall plus the padding.
pub const PADDLE_MIN_X: i64 = LEFT_WALL + WALL_HALF_THICKNESS + PADDLE_HALF_WIDTH
    + PADDLE_PADDING;

/// Rightmost paddle center: flush against the right wall minus the padding.
pub const PADDLE_MAX_X: i64 = RIGHT_WALL - WALL_HALF_THICKNESS - PADDLE_HALF_WIDTH
    - PADDLE_PADDING;

pub const BRICK_HALF_WIDTH: i64 = 50 * SUBPIXEL;

pub const BRICK_WIDTH: i64 = 2 * BRICK_HALF_WIDTH;

pub const BRICK_HALF_HEIGHT: i64 = 15 * SUBPIXEL;

pub const BRICK_HEIGHT: i64 = 2 * BRICK_HALF_HEIGHT;

// These gaps are exact.
pub const GAP_BETWEEN_PADDLE_AND_BRICKS: i64 = 270 * SUBPIXEL;

pub const GAP_BETWEEN_BRICKS: i64 = 5 * SUBPIXEL;

// These gaps are lower bounds: the number of bricks is rounded down.
pub const GAP_BETWEEN_BRICKS_AND_CEILING: i64 = 20 * SUBPIXEL;

pub const GAP_BETWEEN_BRICKS_AND_SIDES: i64 = 20 * SUBPIXEL;

/// Horizontal distance from one brick's center to the next column's.
pub const BRICK_STEP_X: i64 = BRICK_WIDTH + GAP_BETWEEN_BRICKS;

/// Vertical distance from one brick's center to the next row's.
pub const BRICK_STEP_Y: i64 = BRICK_HEIGHT + GAP_BETWEEN_BRICKS;

/// Half of a nonnegative length, rounded down.
pub fn half_len(v: i64) -> (h: i64)
    requires
        0 <= v,
    ensures
        h == v as int / 2,
{
    ((v as u64) / 2) as i64
}

/// Which side of the arena a wall is located on.
#[derive(Clone, Copy, PartialEq, Eq, Structural, Debug)]
pub enum WallLocation {
    Left,
    Right,
    Bottom,
    Top,
}

/// The location of the center of each wall.
pub open spec fn wall_position(loc: WallLocation) -> Vec2Fix {
    match loc {
        WallLocation::Left => Vec2Fix { x: LEFT_WALL, y: 0 },
        WallLocation::Right => Vec2Fix { x: RIGHT_WALL, y: 0 },
        WallLocation::Bottom => Vec2Fix { x: 0, y: BOTTOM_WALL },
        WallLocation::Top => Vec2Fix { x: 0, y: TOP_WALL },
    }
}

/// The (x, y) dimensions of each wall: one thickness across, and the arena's
/// extent plus one thickness along.
pub open spec fn wall_size(loc: WallLocation) -> Vec2Fix {
    match loc {
        WallLocation::Left | WallLocation::Right => Vec2Fix {
            x: WALL_THICKNESS,
            y: VERTICAL_WALL_HEIGHT,
        },
        WallLocation::Bottom | WallLocation::Top => Vec2Fix {
            x: HORIZONTAL_WALL_WIDTH,
            y: WALL_THICKNESS,
        },
    }
}

/// Half of [`wall_size`], per axis.
pub open spec fn wall_half_size(loc: WallLocation) -> Vec2Fix {
    match loc {
        WallLocation::Left | WallLocation::Right => Vec2Fix {
            x: WALL_HALF_THICKNESS,
            y: VERTICAL_WALL_HALF_HEIGHT,
        },
        WallLocation::Bottom | WallLocation::Top => Vec2Fix {
            x: HORIZONTAL_WALL_HALF_WIDTH,
            y: WALL_HALF_THICKNESS,
        },
    }
}

impl WallLocation {
    /// Location of the center of the wall.
    pub fn position(&self) -> (p: Vec2Fix)
        ensures
            p == wall_position(*self),
    {
        match self {
            WallLocation::Left => Vec2Fix { x: LEFT_WALL, y: 0 },
            WallLocation::Right => Vec2Fix { x: RIGHT_WALL, y: 0 },
            WallLocation::Bottom => Vec2Fix { x: 0, y: BOTTOM_WALL },
            WallLocation::Top => Vec2Fix { x: 0, y: TOP_WALL },
        }
    }

    /// The (x, y) dimensions of the wall; both are positive.
    pub fn size(&self) -> (s: Vec2Fix)
        ensures
            s == wall_size(*self),
            s.x > 0,
            s.y > 0,
    {
        match self {
            WallLocation::Left | WallLocation::Right => Vec2Fix {
                x: WALL_THICKNESS,
                y: VERTICAL_WALL_HEIGHT,
            },
            WallLocation::Bottom | WallLocation::Top => Vec2Fix {
                x: HORIZONTAL_WALL_WIDTH,
                y: WALL_THICKNESS,
            },
        }
    }

    /// The wall as a collision box: its half size around its position.
    pub fn bounds(&self) -> (b: Aabb)
        ensures
            b.min.x == wall_position(*self).x - wall_half_size(*self).x,
            b.min.y == wall_position(*self).y - wall_half_size(*self).y,
            b.max.x == wall_position(*self).x + wall_half_size(*self).x,
            b.max.y == wall_position(*self).y + wall_half_size(*self).y,
            b.wf(),
            b.bounded(),
    {
        let p = self.position();
        let half = match self {
            WallLocation::Left | WallLocation::Right => Vec2Fix {
                x: WALL_HALF_THICKNESS,
                y: VERTICAL_WALL_HALF_HEIGHT,
            },
            WallLocation::Bottom | WallLocation::Top => Vec2Fix {
                x: HORIZONTAL_WALL_HALF_WIDTH,
                y: WALL_HALF_THICKNESS,
            },
        };
        Aabb::from_center_half(p, half)
    }
}

/// The width left for bricks between the side gaps.
pub open spec fn total_width_of_bricks() -> int {
    ARENA_WIDTH - 2 * GAP_BETWEEN_BRICKS_AND_SIDES
}

/// The y coordinate of the bottom edge of the brick field.
pub open spec fn bottom_edge_of_bricks() -> int {
    PADDLE_Y + GAP_BETWEEN_PADDLE_AND_BRICKS
}

/// The height left for bricks between the paddle gap and the ceiling gap.
pub open spec fn total_height_of_bricks() -> int {
    TOP_WALL - bottom_edge_of_bricks() - GAP_BETWEEN_BRICKS_AND_CEILING
}

/// How many columns of bricks fit in the width available.
pub open spec fn brick_columns() -> int {
    total_width_of_bricks() / (BRICK_STEP_X as int)
}

/// How many rows of bricks fit in the height available.
pub open spec fn brick_rows() -> int {
    total_height_of_bricks() / (BRICK_STEP_Y as int)
}

/// The x coordinate of the center of the brick in `column`: the grid is
/// centered in the arena, so the first column sits half the grid's span left
/// of the arena's center.
pub open spec fn brick_center_x(column: int) -> int {
    (LEFT_WALL + RIGHT_WALL) / 2 - (brick_columns() - 1) * BRICK_STEP_X / 2
        + column * BRICK_STEP_X
}

/// The y coordinate of the center of the brick in `row`: half a brick above
/// the field's bottom edge, one step per row.
pub open spec fn brick_center_y(row: int) -> int {
    bottom_edge_of_bricks() + BRICK_HALF_HEIGHT + row * BRICK_STEP_Y
}

/// Pins down the concrete values that the grid's divisions produce at the
/// arena's constants, so the callers' arithmetic stays linear.
proof fn lemma_brick_grid_values()
    ensures
        brick_columns() == 8,
        brick_rows() == 7,
        ARENA_WIDTH as int / 2 == 115200,
        brick_center_x(0) == -94080,
        brick_center_y(0) == 11520,
{
    vstd::arithmetic::div_mod::lemma_fundamental_div_mod_converse(220160, 26880, 8, 5120);
    vstd::arithmetic::div_mod::lemma_fundamental_div_mod_converse(64000, 8960, 7, 1280);
    vstd::arithmetic::div_mod::lemma_fundamental_div_mod_converse(230400, 2, 115200, 0);
    vstd::arithmetic::div_mod::lemma_fundamental_div_mod_converse(0, 2, 0, 0);
    assert((brick_columns() - 1) * (BRICK_STEP_X as int) == 188160 && 0 * (BRICK_STEP_X as int)
        == 0 && 0 * (BRICK_STEP_Y as int) == 0) by (nonlinear_arith)
        requires
            brick_columns() == 8,
            BRICK_STEP_X == 26880,
    ;
    vstd::arithmetic::div_mod::lemma_fundamental_div_mod_converse(188160, 2, 94080, 0);
}

/// Given the space available, how many columns and rows of bricks fit.
pub fn brick_grid() -> (g: (usize, usize))
    ensures
        g.0 as int == brick_columns(),
        g.1 as int == brick_rows(),
        0 < g.0,
        0 < g.1,
{
    proof {
        lemma_brick_grid_values();
    }
    let total_width: i64 = ARENA_WIDTH - 2 * GAP_BETWEEN_BRICKS_AND_SIDES;
    let bottom_edge: i64 = PADDLE_Y + GAP_BETWEEN_PADDLE_AND_BRICKS;
    let total_height: i64 = TOP_WALL - bottom_edge - GAP_BETWEEN_BRICKS_AND_CEILING;
    let columns = ((total_width as u64) / (BRICK_STEP_X as u64)) as usize;
    let rows = ((total_height as u64) / (BRICK_STEP_Y as u64)) as usize;
    (columns, rows)
}

/// The brick at index `i` of the grid vector sits at the center of its row
/// and column, counting row by row from the bottom, each row left to right.
pub open spec fn brick_ok(v: Seq<Vec2Fix>, i: int) -> bool {
    v[i].x as int == brick_center_x(i % brick_columns()) && v[i].y as int == brick_center_y(
        i / brick_columns(),
    )
}

/// The centers of every brick, row by row from the bottom, each row left to
/// right: the brick of row `r` and column `c` is at index
/// `r * brick_columns() + c`.
pub fn brick_positions() -> (v: Vec<Vec2Fix>)
    ensures
        v@.len() == brick_rows() * brick_columns(),
        forall|i: int| 0 <= i < v@.len() ==> #[trigger] brick_ok(v@, i),
{
    proof {
        lemma_brick_grid_values();
    }
    let (columns, rows) = brick_grid();
    let arena_center_x: i64 = LEFT_WALL + half_len(ARENA_WIDTH);
    proof {
        assert((columns as i64 - 1) * BRICK_STEP_X == 188160) by (nonlinear_arith)
            requires
                columns == 8usize,
                BRICK_STEP_X == 26880,
        ;
    }
    let grid_span: i64 = (columns as i64 - 1) * BRICK_STEP_X;
    let first_x: i64 = arena_center_x - half_len(grid_span);
    let first_y: i64 = PADDLE_Y + GAP_BETWEEN_PADDLE_AND_BRICKS + BRICK_HALF_HEIGHT;

    let mut v: Vec<Vec2Fix> = Vec::new();
    let mut row: usize = 0;
    let mut y: i64 = first_y;
    while row < rows
        invariant
            rows == 7usize,
            columns == 8usize,
            columns as int == brick_columns(),
            rows as int == brick_rows(),
            row <= rows,
            first_x as int == brick_center_x(0),
            y as int == brick_center_y(row as int),
            v@.len() == row * columns,
            forall|i: int| 0 <= i < v@.len() ==> #[trigger] brick_ok(v@, i),
        decreases rows - row,
    {
        let mut column: usize = 0;
        let mut x: i64 = first_x;
        while column < columns
            invariant
                rows == 7usize,
                columns == 8usize,
                columns as int == brick_columns(),
                rows as int == brick_rows(),
                row < rows,
                column <= columns,
                x as int == brick_center_x(column as int),
                y as int == brick_center_y(row as int),
                v@.len() == row * columns + column,
                forall|i: int| 0 <= i < v@.len() ==> #[trigger] brick_ok(v@, i),
            decreases columns - column,
        {
            let ghost old_v = v@;
            v.push(Vec2Fix { x, y });
            proof {
                lemma_brick_grid_values();
                vstd::arithmetic::div_mod::lemma_fundamental_div_mod_converse(
                    row * columns + column,
                    columns as int,
                    row as int,
                    column as int,
                );
                assert(brick_ok(v@, old_v.len() as int));
                assert forall|i: int| 0 <= i < v@.len() implies #[trigger] brick_ok(v@, i) by {
                    if i < old_v.len() {
                        assert(brick_ok(old_v, i));
                        assert(v@[i] == old_v[i]);
                    }
                }
                assert((column + 1) * (BRICK_STEP_X as int) == column * (BRICK_STEP_X as int)
                    + BRICK_STEP_X) by (nonlinear_arith);
                assert(0 <= column * (BRICK_STEP_X as int) <= 215040) by (nonlinear_arith)
                    requires
                        0 <= column <= 8usize,
                        BRICK_STEP_X == 26880,
                ;
            }
            x = x + BRICK_STEP_X;
            column = column + 1;
        }
        proof {
            assert((row + 1) * (columns as int) == row * (columns as int) + columns)
                by (nonlinear_arith);
            assert((row + 1) * (BRICK_STEP_Y as int) == row * (BRICK_STEP_Y as int)
                + BRICK_STEP_Y) by (nonlinear_arith);
            assert(0 <= row * (BRICK_STEP_Y as int) <= 62720) by (nonlinear_arith)
                requires
                    0 <= row <= 7usize,
                    BRICK_STEP_Y == 8960,
            ;
        }
        y = y + BRICK_STEP_Y;
        row = row + 1;
    }
    proof {
        assert(brick_rows() * brick_columns() == 56) by (nonlinear_arith)
            requires
                brick_rows() == 7,
                brick_columns() == 8,
        ;
        assert(7usize * 8usize == 56) by (nonlinear_arith);
    }
    v
}

} // verus!
