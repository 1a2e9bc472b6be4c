//! The fixed-timestep simulation: motion with visual interpolation, the
//! paddle's input-driven velocity, and the collision sweep that reflects the
//! ball, scores bricks, and reports what it hit.

use vstd::prelude::*;

use crate::geom::{
    ball_collision, ball_collision_spec, coord_ok, Aabb, Circle, Collision, Vec2Fix, COORD_LIMIT,
};
use crate::layout::{
    wall_half_size, wall_position, WallLocation, BALL_RADIUS, BRICK_HALF_HEIGHT, BRICK_HALF_WIDTH,
    PADDLE_HALF_HEIGHT, PADDLE_HALF_WIDTH, PADDLE_MAX_X, PADDLE_MIN_X, PADDLE_SPEED, TICK_MICROS,
};

verus! {

/// The longest stretch of wall-clock time, in microseconds, that the visual
/// interpolation will scale over; render frames come much closer together
/// than this.
pub const MAX_INTERP_MICROS: u64 = 1_000_000;

/// A moving entity of the simulation: its physics position, its velocity in
/// subpixels per tick, and, once a tick has run, the position it had at the
/// start of the latest tick together with that tick's timestamp in
/// microseconds, kept for visual interpolation.
pub struct Mover {
    pub position: Vec2Fix,
    pub velocity: Vec2Fix,
    pub saved: Option<(Vec2Fix, u64)>,
}

/// `a` moved toward `b` by the fraction `num / den` of their distance,
/// rounding the scaled distance down.
pub open spec fn lerp_axis(a: int, b: int, num: int, den: int) -> int {
    if b >= a {
        a + (b - a) * num / den
    } else {
        a - (a - b) * num / den
    }
}

/// The x coordinate `m` should be drawn at, `now` microseconds into the run:
/// its saved position moved toward its current position by the fraction of a
/// tick that has passed since the save; or the current position when nothing
/// is saved yet.
pub open spec fn interp_x(m: Mover, now: u64) -> int {
    match m.saved {
        Some(pt) => lerp_axis(pt.0.x as int, m.position.x as int, now - pt.1, TICK_MICROS as int),
        None => m.position.x as int,
    }
}

/// The y coordinate `m` should be drawn at, `now` microseconds into the run.
pub open spec fn interp_y(m: Mover, now: u64) -> int {
    match m.saved {
        Some(pt) => lerp_axis(pt.0.y as int, m.position.y as int, now - pt.1, TICK_MICROS as int),
        None => m.position.y as int,
    }
}

/// One coordinate of the interpolation: `a` moved toward `b` by `num / den`.
fn lerp_coord(a: i64, b: i64, num: u64, den: u64) -> (r: i64)
    requires
        coord_ok(a as int),
        coord_ok(b as int),
        0 < den,
        num <= MAX_INTERP_MICROS,
    ensures
        r as int == lerp_axis(a as int, b as int, num as int, den as int),
{
    if b >= a {
        let d: i64 = b - a;
        proof {
            assert((d as u64) * num <= 0x4000_0000u64 * 0x100000u64) by (nonlinear_arith)
                requires
                    d as u64 <= 0x4000_0000u64,
                    num <= 0x100000u64,
            ;
            vstd::arithmetic::div_mod::lemma_div_basics_5((d as u64) * num, den as int);
        }
        let scaled: u64 = (d as u64) * num;
        let q: u64 = scaled / den;
        a + (q as i64)
    } else {
        let d: i64 = a - b;
        proof {
            assert((d as u64) * num <= 0x4000_0000u64 * 0x100000u64) by (nonlinear_arith)
                requires
                    d as u64 <= 0x4000_0000u64,
                    num <= 0x100000u64,
            ;
            vstd::arithmetic::div_mod::lemma_div_basics_5((d as u64) * num, den as int);
        }
        let scaled: u64 = (d as u64) * num;
        let q: u64 = scaled / den;
        a - (q as i64)
    }
}

impl Mover {
    /// The position and the velocity are within the world's coordinate bound.
    pub open spec fn bounded(self) -> bool {
        self.position.bounded() && self.velocity.bounded()
    }

    /// A mover at `position` with `velocity`, with no tick run yet.
    pub fn new(position: Vec2Fix, velocity: Vec2Fix) -> (m: Mover)
        ensures
            m.position == position,
            m.velocity == velocity,
            m.saved is None,
    {
        Mover { position, velocity, saved: None }
    }

    /// Remembers the current physics position and the tick's timestamp, so
    /// the renderer can interpolate from it during the coming tick.
    pub fn save_physics_position(&mut self, now: u64)
        ensures
            final(self).saved == Some((old(self).position, now)),
            final(self).position == old(self).position,
            final(self).velocity == old(self).velocity,
    {
        self.saved = Some((self.position, now));
    }

    /// One fixed tick of motion: the velocity, in subpixels per tick, is
    /// added to the position.
    pub fn apply_velocity(&mut self)
        requires
            coord_ok(old(self).position.x + old(self).velocity.x),
            coord_ok(old(self).position.y + old(self).velocity.y),
        ensures
            final(self).position.x == old(self).position.x + old(self).velocity.x,
            final(self).position.y == old(self).position.y + old(self).velocity.y,
            final(self).velocity == old(self).velocity,
            final(self).saved == old(self).saved,
            final(self).position.bounded(),
    {
        self.position =
        Vec2Fix { x: self.position.x + self.velocity.x, y: self.position.y + self.velocity.y };
    }

    /// The position to draw this mover at, `now` microseconds into the run:
    /// the saved tick position moved toward the current one by the fraction
    /// of a tick that has passed since the save.
    pub fn interpolated_position(&self, now: u64) -> (p: Vec2Fix)
        requires
            self.position.bounded(),
            match self.saved {
                Some(pt) => pt.0.bounded() && pt.1 <= now && now - pt.1 <= MAX_INTERP_MICROS,
                None => true,
            },
        ensures
            p.x as int == interp_x(*self, now),
            p.y as int == interp_y(*self, now),
    {
        match self.saved {
            Some((last_pos, last_t)) => {
                let num = now - last_t;
                Vec2Fix {
                    x: lerp_coord(last_pos.x, self.position.x, num, TICK_MICROS),
                    y: lerp_coord(last_pos.y, self.position.y, num, TICK_MICROS),
                }
            },
            None => self.position,
        }
    }
}

/// The paddle's horizontal velocity for the coming tick: full speed in the
/// pressed direction (the two keys cancel), except that no velocity may push
/// a paddle already past a bound further out.
pub open spec fn paddle_velocity(left: bool, right: bool, x: int) -> int {
    let v = if right == left {
        0int
    } else if right {
        PADDLE_SPEED as int
    } else {
        -PADDLE_SPEED as int
    };
    let clamped_left = if x < PADDLE_MIN_X && v < 0 {
        0int
    } else {
        v
    };
    if x > PADDLE_MAX_X && clamped_left > 0 {
        0int
    } else {
        clamped_left
    }
}

/// Sets the paddle's horizontal velocity from the arrow keys, keeping the
/// paddle inside the arena: a paddle at or past a bound gets no velocity
/// component that would push it further out.
pub fn move_paddle(velocity: &mut Vec2Fix, x: i64, left_pressed: bool, right_pressed: bool)
    ensures
        final(velocity).x as int == paddle_velocity(left_pressed, right_pressed, x as int),
        final(velocity).y == old(velocity).y,
{
    let v: i64 = if right_pressed == left_pressed {
        0
    } else if right_pressed {
        PADDLE_SPEED
    } else {
        -PADDLE_SPEED
    };
    let v: i64 = if x < PADDLE_MIN_X && v < 0 {
        0
    } else {
        v
    };
    let v: i64 = if x > PADDLE_MAX_X && v > 0 {
        0
    } else {
        v
    };
    velocity.x = v;
}

/// One obstacle of the sweep: its collision box, and whether it is a brick,
/// which despawns and scores when hit.
#[derive(Clone, Copy, PartialEq, Eq, Structural, Debug)]
pub struct ColliderBox {
    pub aabb: Aabb,
    pub is_brick: bool,
}

impl ColliderBox {
    /// The box is ordered and within the world's coordinate bound.
    pub open spec fn wf(self) -> bool {
        self.aabb.wf() && self.aabb.bounded()
    }
}

/// The ball as a collision circle around its physics position.
pub open spec fn ball_circle(center: Vec2Fix) -> Circle {
    Circle { center, radius: BALL_RADIUS }
}

/// The ball's horizontal velocity after bouncing off `side`: reflected only
/// when it moves against the side hit, so a ball cannot get stuck inside a
/// collider.
pub open spec fn reflect_vx(vx: int, side: Collision) -> int {
    match side {
        Collision::Left => if vx > 0 {
            -vx
        } else {
            vx
        },
        Collision::Right => if vx < 0 {
            -vx
        } else {
            vx
        },
        Collision::Top | Collision::Bottom => vx,
    }
}

/// The ball's vertical velocity after bouncing off `side`.
pub open spec fn reflect_vy(vy: int, side: Collision) -> int {
    match side {
        Collision::Top => if vy < 0 {
            -vy
        } else {
            vy
        },
        Collision::Bottom => if vy > 0 {
            -vy
        } else {
            vy
        },
        Collision::Left | Collision::Right => vy,
    }
}

/// After a bounce the ball never moves into the side it hit: a left-side hit
/// leaves it moving left or not at all, and so on. Reflecting only the
/// velocity that moves against the side hit is what keeps the ball from
/// getting stuck inside a collider.
pub proof fn lemma_reflect_moves_away(vx: int, vy: int)
    ensures
        reflect_vx(vx, Collision::Left) <= 0,
        reflect_vx(vx, Collision::Right) >= 0,
        reflect_vy(vy, Collision::Top) >= 0,
        reflect_vy(vy, Collision::Bottom) <= 0,
{
}

/// What one pass over the colliders does to the ball: its velocity after all
/// the bounces, the indices of the bricks it hit, and how many collisions
/// there were in all.
pub ghost struct SweepModel {
    pub vx: int,
    pub vy: int,
    pub bricks: Seq<int>,
    pub hits: nat,
}

/// The sweep over `cs` in order, starting from velocity `(vx, vy)`: each
/// collider the ball touches counts one hit, reflects the velocity the ball
/// has reached by then away from the side hit, and, when it is a brick,
/// records its index.
pub open spec fn sweep(ball: Circle, vx: int, vy: int, cs: Seq<ColliderBox>) -> SweepModel
    decreases cs.len(),
{
    if cs.len() == 0 {
        SweepModel { vx, vy, bricks: Seq::empty(), hits: 0 }
    } else {
        let m = sweep(ball, vx, vy, cs.drop_last());
        match ball_collision_spec(ball, cs.last().aabb) {
            Option::None => m,
            Option::Some(side) => SweepModel {
                vx: reflect_vx(m.vx, side),
                vy: reflect_vy(m.vy, side),
                bricks: if cs.last().is_brick {
                    m.bricks.push(cs.len() - 1)
                } else {
                    m.bricks
                },
                hits: m.hits + 1,
            },
        }
    }
}

/// The sweep hits each collider at most once, every brick index it records
/// is in range, and a bounded starting velocity stays bounded: reflection
/// only flips signs.
pub proof fn lemma_sweep_counts(ball: Circle, vx: int, vy: int, cs: Seq<ColliderBox>)
    ensures
        sweep(ball, vx, vy, cs).hits <= cs.len(),
        sweep(ball, vx, vy, cs).bricks.len() <= cs.len(),
        forall|j: int|
            0 <= j < sweep(ball, vx, vy, cs).bricks.len() ==> 0 <= #[trigger] sweep(
                ball,
                vx,
                vy,
                cs,
            ).bricks[j] < cs.len(),
        coord_ok(vx) ==> coord_ok(sweep(ball, vx, vy, cs).vx),
        coord_ok(vy) ==> coord_ok(sweep(ball, vx, vy, cs).vy),
    decreases cs.len(),
{
    if cs.len() > 0 {
        lemma_sweep_counts(ball, vx, vy, cs.drop_last());
    }
}

/// What the sweep reports back beside the velocity change: the bricks to
/// despawn, by index, and how many collisions to sound.
pub struct SweepOutcome {
    pub bricks_hit: Vec<usize>,
    pub hits: usize,
}

/// Sweeps the ball, sitting at `ball_center` with `velocity`, over all the
/// colliders: reflects the velocity off every collider hit, adds one point
/// per brick hit, and returns the bricks to despawn and the number of
/// collisions.
pub fn check_for_collisions(
    ball_center: Vec2Fix,
    velocity: &mut Vec2Fix,
    colliders: &Vec<ColliderBox>,
    score: &mut usize,
) -> (out: SweepOutcome)
    requires
        ball_center.bounded(),
        old(velocity).bounded(),
        forall|i: int| 0 <= i < colliders@.len() ==> #[trigger] colliders@[i].wf(),
        old(score) + colliders@.len() <= usize::MAX,
    ensures
        ({
            let m = sweep(
                ball_circle(ball_center),
                old(velocity).x as int,
                old(velocity).y as int,
                colliders@,
            );
            final(velocity).x as int == m.vx && final(velocity).y as int == m.vy
                && out.bricks_hit@.map_values(|b: usize| b as int) == m.bricks && out.hits as nat
                == m.hits && *final(score) == *old(score) + m.bricks.len()
        }),
        final(velocity).bounded(),
{
    let circle = Circle { center: ball_center, radius: BALL_RADIUS };
    let ghost vx0 = old(velocity).x as int;
    let ghost vy0 = old(velocity).y as int;
    let mut bricks_hit: Vec<usize> = Vec::new();
    let mut hits: usize = 0;
    let mut i: usize = 0;
    while i < colliders.len()
        invariant
            i <= colliders@.len(),
            circle == ball_circle(ball_center),
            circle.wf(),
            circle.bounded(),
            forall|k: int| 0 <= k < colliders@.len() ==> #[trigger] colliders@[k].wf(),
            *old(score) + colliders@.len() <= usize::MAX,
            ({
                let m = sweep(circle, vx0, vy0, colliders@.take(i as int));
                velocity.x as int == m.vx && velocity.y as int == m.vy
                    && bricks_hit@.map_values(|b: usize| b as int) == m.bricks && hits as nat
                    == m.hits && *score == *old(score) + m.bricks.len()
            }),
            velocity.bounded(),
        decreases colliders@.len() - i,
    {
        let c = colliders[i];
        proof {
            assert(colliders@[i as int].wf());
        }
        let collision = ball_collision(&circle, &c.aabb);
        let ghost taken = colliders@.take(i as int);
        proof {
            lemma_sweep_counts(circle, vx0, vy0, taken);
            assert(colliders@.take(i + 1).drop_last() =~= taken);
            assert(colliders@.take(i + 1).last() == colliders@[i as int]);
        }
        if let Some(side) = collision {
            if c.is_brick {
                let ghost old_bricks = bricks_hit@;
                bricks_hit.push(i);
                proof {
                    assert(bricks_hit@.map_values(|b: usize| b as int) =~= old_bricks.map_values(
                        |b: usize| b as int,
                    ).push(i as int));
                }
                *score = *score + 1;
            }
            match side {
                Collision::Left => {
                    if velocity.x > 0 {
                        velocity.x = -velocity.x;
                    }
                },
                Collision::Right => {
                    if velocity.x < 0 {
                        velocity.x = -velocity.x;
                    }
                },
                Collision::Top => {
                    if velocity.y < 0 {
                        velocity.y = -velocity.y;
                    }
                },
                Collision::Bottom => {
                    if velocity.y > 0 {
                        velocity.y = -velocity.y;
                    }
                },
            }
            hits = hits + 1;
        }
        i = i + 1;
    }
    proof {
        assert(colliders@.take(colliders@.len() as int) =~= colliders@);
    }
    SweepOutcome { bricks_hit, hits }
}

/// A brick of the arena: where its center sits, and whether it is still
/// standing.
#[derive(Clone, Copy, PartialEq, Eq, Structural, Debug)]
pub struct Brick {
    pub center: Vec2Fix,
    pub alive: bool,
}

/// The colliders of every collision pass that are not bricks: the four walls
/// and the paddle.
pub const FIXED_COLLIDERS: usize = 5;

/// A box of the given half extents around `center` stays within the world's
/// coordinate bound.
pub open spec fn fits_box(center: Vec2Fix, half_x: i64, half_y: i64) -> bool {
    coord_ok(center.x - half_x) && coord_ok(center.x + half_x) && coord_ok(center.y - half_y)
        && coord_ok(center.y + half_y)
}

/// The wall at `loc` as a collider: its half size around its position.
pub open spec fn wall_collider(loc: WallLocation) -> ColliderBox {
    ColliderBox {
        aabb: Aabb {
            min: Vec2Fix {
                x: (wall_position(loc).x - wall_half_size(loc).x) as i64,
                y: (wall_position(loc).y - wall_half_size(loc).y) as i64,
            },
            max: Vec2Fix {
                x: (wall_position(loc).x + wall_half_size(loc).x) as i64,
                y: (wall_position(loc).y + wall_half_size(loc).y) as i64,
            },
        },
        is_brick: false,
    }
}

/// The paddle as a collider: its half extents around its center.
pub open spec fn paddle_collider(center: Vec2Fix) -> ColliderBox {
    ColliderBox {
        aabb: Aabb {
            min: Vec2Fix {
                x: (center.x - PADDLE_HALF_WIDTH) as i64,
                y: (center.y - PADDLE_HALF_HEIGHT) as i64,
            },
            max: Vec2Fix {
                x: (center.x + PADDLE_HALF_WIDTH) as i64,
                y: (center.y + PADDLE_HALF_HEIGHT) as i64,
            },
        },
        is_brick: false,
    }
}

/// A brick as a collider: its half extents around its center.
pub open spec fn brick_collider(center: Vec2Fix) -> ColliderBox {
    ColliderBox {
        aabb: Aabb {
            min: Vec2Fix {
                x: (center.x - BRICK_HALF_WIDTH) as i64,
                y: (center.y - BRICK_HALF_HEIGHT) as i64,
            },
            max: Vec2Fix {
                x: (center.x + BRICK_HALF_WIDTH) as i64,
                y: (center.y + BRICK_HALF_HEIGHT) as i64,
            },
        },
        is_brick: true,
    }
}

/// The indices of the bricks still standing, in increasing order.
pub open spec fn alive_indices(s: Seq<Brick>) -> Seq<int>
    decreases s.len(),
{
    if s.len() == 0 {
        Seq::empty()
    } else {
        let rest = alive_indices(s.drop_last());
        if s.last().alive {
            rest.push(s.len() - 1)
        } else {
            rest
        }
    }
}

/// What one collision pass sweeps over: the four walls, the paddle, then one
/// collider per brick still standing, in brick order.
pub open spec fn arena_colliders(paddle_center: Vec2Fix, bricks: Seq<Brick>) -> Seq<ColliderBox> {
    seq![
        wall_collider(WallLocation::Left),
        wall_collider(WallLocation::Right),
        wall_collider(WallLocation::Bottom),
        wall_collider(WallLocation::Top),
        paddle_collider(paddle_center),
    ] + alive_indices(bricks).map_values(|j: int| brick_collider(bricks[j].center))
}

/// Gathers the colliders of one collision pass — the four walls, the paddle,
/// and every brick still standing — together with the map from each brick
/// collider, in order, back to its brick's index.
pub fn build_colliders(paddle_center: Vec2Fix, bricks: &Vec<Brick>) -> (out: (
    Vec<ColliderBox>,
    Vec<usize>,
))
    requires
        fits_box(paddle_center, PADDLE_HALF_WIDTH, PADDLE_HALF_HEIGHT),
        forall|j: int|
            0 <= j < bricks@.len() ==> fits_box(
                #[trigger] bricks@[j].center,
                BRICK_HALF_WIDTH,
                BRICK_HALF_HEIGHT,
            ),
    ensures
        out.0@ == arena_colliders(paddle_center, bricks@),
        out.1@.map_values(|u: usize| u as int) == alive_indices(bricks@),
        out.0@.len() == FIXED_COLLIDERS + out.1@.len(),
        forall|k: int| 0 <= k < out.0@.len() ==> #[trigger] out.0@[k].wf(),
{
    let mut colliders: Vec<ColliderBox> = Vec::new();
    let walls = [WallLocation::Left, WallLocation::Right, WallLocation::Bottom, WallLocation::Top];
    let mut w: usize = 0;
    while w < 4
        invariant
            w <= 4,
            colliders@.len() == w,
            forall|k: int|
                0 <= k < w ==> #[trigger] colliders@[k] == wall_collider(walls@[k])
                    && colliders@[k].wf(),
            walls@ =~= seq![
                WallLocation::Left,
                WallLocation::Right,
                WallLocation::Bottom,
                WallLocation::Top,
            ],
        decreases 4 - w,
    {
        let loc = walls[w];
        colliders.push(ColliderBox { aabb: loc.bounds(), is_brick: false });
        w = w + 1;
    }
    let paddle_box = Aabb::from_center_half(
        paddle_center,
        Vec2Fix { x: PADDLE_HALF_WIDTH, y: PADDLE_HALF_HEIGHT },
    );
    colliders.push(ColliderBox { aabb: paddle_box, is_brick: false });
    let ghost base = colliders@;
    proof {
        assert(base =~= seq![
            wall_collider(WallLocation::Left),
            wall_collider(WallLocation::Right),
            wall_collider(WallLocation::Bottom),
            wall_collider(WallLocation::Top),
            paddle_collider(paddle_center),
        ]);
    }

    let mut alive_map: Vec<usize> = Vec::new();
    let mut i: usize = 0;
    while i < bricks.len()
        invariant
            i <= bricks@.len(),
            forall|j: int|
                0 <= j < bricks@.len() ==> fits_box(
                    #[trigger] bricks@[j].center,
                    BRICK_HALF_WIDTH,
                    BRICK_HALF_HEIGHT,
                ),
            base == seq![
                wall_collider(WallLocation::Left),
                wall_collider(WallLocation::Right),
                wall_collider(WallLocation::Bottom),
                wall_collider(WallLocation::Top),
                paddle_collider(paddle_center),
            ],
            colliders@ == base + alive_indices(bricks@.take(i as int)).map_values(
                |j: int| brick_collider(bricks@[j].center),
            ),
            alive_map@.map_values(|u: usize| u as int) == alive_indices(bricks@.take(i as int)),
            forall|k: int| 0 <= k < colliders@.len() ==> #[trigger] colliders@[k].wf(),
        decreases bricks@.len() - i,
    {
        proof {
            assert(bricks@.take(i + 1).drop_last() =~= bricks@.take(i as int));
            assert(bricks@.take(i + 1).last() == bricks@[i as int]);
        }
        let b = bricks[i];
        if b.alive {
            let ghost old_colliders = colliders@;
            let ghost old_map = alive_map@;
            let brick_box = Aabb::from_center_half(
                b.center,
                Vec2Fix { x: BRICK_HALF_WIDTH, y: BRICK_HALF_HEIGHT },
            );
            colliders.push(ColliderBox { aabb: brick_box, is_brick: true });
            alive_map.push(i);
            proof {
                let cl = |j: int| brick_collider(bricks@[j].center);
                assert(colliders@.last() == cl(i as int));
                assert(alive_indices(bricks@.take(i + 1)) =~= alive_indices(
                    bricks@.take(i as int),
                ).push(i as int));
                assert(alive_indices(bricks@.take(i + 1)).map_values(cl) =~= alive_indices(
                    bricks@.take(i as int),
                ).map_values(cl).push(cl(i as int)));
                assert(colliders@ =~= base + alive_indices(bricks@.take(i + 1)).map_values(cl));
                assert(alive_map@.map_values(|u: usize| u as int) =~= old_map.map_values(
                    |u: usize| u as int,
                ).push(i as int));
            }
        }
        i = i + 1;
    }
    proof {
        assert(bricks@.take(bricks@.len() as int) =~= bricks@);
        assert(colliders@.len() == FIXED_COLLIDERS + alive_map@.len());
    }
    (colliders, alive_map)
}

/// There are never more live bricks than bricks.
pub proof fn lemma_alive_indices_len(s: Seq<Brick>)
    ensures
        alive_indices(s).len() <= s.len(),
    decreases s.len(),
{
    if s.len() > 0 {
        lemma_alive_indices_len(s.drop_last());
    }
}

/// A brick with this index was hit: some entry of `hit` names a brick
/// collider whose `alive_map` entry is the index.
pub open spec fn brick_was_hit(hit: Seq<usize>, alive_map: Seq<usize>, i: int) -> bool {
    exists|k: int|
        0 <= k < hit.len() && FIXED_COLLIDERS <= #[trigger] hit[k] && hit[k] - FIXED_COLLIDERS
            < alive_map.len() && alive_map[hit[k] - FIXED_COLLIDERS] == i
}

/// Despawns every brick that a collision pass hit: `hit` holds collider
/// indices, the first [`FIXED_COLLIDERS`] of which are walls and paddle, and
/// `alive_map` leads from the brick colliders back to the bricks. Entries
/// that name no brick are ignored.
pub fn despawn_hit_bricks(bricks: &mut Vec<Brick>, alive_map: &Vec<usize>, hit: &Vec<usize>)
    ensures
        final(bricks)@.len() == old(bricks)@.len(),
        forall|i: int|
            0 <= i < old(bricks)@.len() ==> #[trigger] final(bricks)@[i].center == old(
                bricks,
            )@[i].center,
        forall|i: int|
            0 <= i < old(bricks)@.len() ==> #[trigger] final(bricks)@[i].alive == (old(
                bricks,
            )@[i].alive && !brick_was_hit(hit@, alive_map@, i)),
{
    let mut k: usize = 0;
    while k < hit.len()
        invariant
            k <= hit@.len(),
            bricks@.len() == old(bricks)@.len(),
            forall|i: int|
                0 <= i < old(bricks)@.len() ==> #[trigger] bricks@[i].center == old(
                    bricks,
                )@[i].center,
            forall|i: int|
                0 <= i < old(bricks)@.len() ==> #[trigger] bricks@[i].alive == (old(
                    bricks,
                )@[i].alive && !brick_was_hit(hit@.take(k as int), alive_map@, i)),
        decreases hit@.len() - k,
    {
        let ghost prev = bricks@;
        let h = hit[k];
        if h >= FIXED_COLLIDERS && h - FIXED_COLLIDERS < alive_map.len() {
            let b = alive_map[h - FIXED_COLLIDERS];
            if b < bricks.len() {
                let center = bricks[b].center;
                bricks.set(b, Brick { center, alive: false });
            }
        }
        proof {
            assert(hit@.take(k + 1).drop_last() =~= hit@.take(k as int));
            assert(hit@.take(k + 1).last() == hit@[k as int]);
            assert forall|i: int| 0 <= i < old(bricks)@.len() implies #[trigger] bricks@[i].alive
                == (old(bricks)@[i].alive && !brick_was_hit(hit@.take(k + 1), alive_map@, i)) by {
                let taken = hit@.take(k as int);
                let taken1 = hit@.take(k + 1);
                if brick_was_hit(taken1, alive_map@, i) {
                    let j = choose|j: int|
                        0 <= j < taken1.len() && FIXED_COLLIDERS <= #[trigger] taken1[j]
                            && taken1[j] - FIXED_COLLIDERS < alive_map@.len()
                            && alive_map@[taken1[j] - FIXED_COLLIDERS] == i;
                    if j < k {
                        assert(taken[j] == taken1[j]);
                        assert(brick_was_hit(taken, alive_map@, i));
                    } else {
                        assert(taken1[j] == hit@[k as int]);
                        assert(!bricks@[i].alive);
                    }
                } else {
                    assert(!brick_was_hit(taken, alive_map@, i)) by {
                        if brick_was_hit(taken, alive_map@, i) {
                            let j = choose|j: int|
                                0 <= j < taken.len() && FIXED_COLLIDERS <= #[trigger] taken[j]
                                    && taken[j] - FIXED_COLLIDERS < alive_map@.len()
                                    && alive_map@[taken[j] - FIXED_COLLIDERS] == i;
                            assert(taken1[j] == taken[j]);
                            assert(brick_was_hit(taken1, alive_map@, i));
                        }
                    }
                    assert(bricks@[i] == prev[i]);
                }
            }
        }
        k = k + 1;
    }
    proof {
        assert(hit@.take(hit@.len() as int) =~= hit@);
    }
}

/// [`brick_was_hit`], stated over the sweep's own model sequences.
pub open spec fn model_brick_hit(hit: Seq<int>, alive: Seq<int>, i: int) -> bool {
    exists|k: int|
        0 <= k < hit.len() && FIXED_COLLIDERS <= #[trigger] hit[k] && hit[k] - FIXED_COLLIDERS
            < alive.len() && alive[hit[k] - FIXED_COLLIDERS] == i
}

/// The two statements of a brick hit agree once the vectors are read as
/// their sequences of values.
proof fn lemma_hit_bridge(hit: Seq<usize>, alive_map: Seq<usize>, i: int)
    ensures
        brick_was_hit(hit, alive_map, i) == model_brick_hit(
            hit.map_values(|u: usize| u as int),
            alive_map.map_values(|u: usize| u as int),
            i,
        ),
{
    let hi = hit.map_values(|u: usize| u as int);
    let ai = alive_map.map_values(|u: usize| u as int);
    if brick_was_hit(hit, alive_map, i) {
        let k = choose|k: int|
            0 <= k < hit.len() && FIXED_COLLIDERS <= #[trigger] hit[k] && hit[k] - FIXED_COLLIDERS
                < alive_map.len() && alive_map[hit[k] - FIXED_COLLIDERS] == i;
        assert(hi[k] == hit[k] as int);
        assert(ai[hit[k] - FIXED_COLLIDERS] == alive_map[hit[k] - FIXED_COLLIDERS] as int);
        assert(model_brick_hit(hi, ai, i));
    }
    if model_brick_hit(hi, ai, i) {
        let k = choose|k: int|
            0 <= k < hi.len() && FIXED_COLLIDERS <= #[trigger] hi[k] && hi[k] - FIXED_COLLIDERS
                < ai.len() && ai[hi[k] - FIXED_COLLIDERS] == i;
        assert(hi[k] == hit[k] as int);
        assert(ai[hit[k] - FIXED_COLLIDERS] == alive_map[hit[k] - FIXED_COLLIDERS] as int);
        assert(brick_was_hit(hit, alive_map, i));
    }
}

/// The bound the paddle center's x coordinate must stay within so that one
/// tick of paddle motion, and its collision box, stay inside the world's
/// coordinate bound.
pub const PADDLE_TRAVEL_LIMIT: i64 = COORD_LIMIT - PADDLE_SPEED - PADDLE_HALF_WIDTH;

/// The bound on the paddle center's y coordinate: the paddle does not move
/// vertically, but its collision box must stay inside the world.
pub const PADDLE_TRAVEL_LIMIT_Y: i64 = COORD_LIMIT - PADDLE_HALF_HEIGHT;

/// The whole game state that one fixed tick reads and writes.
pub struct World {
    pub ball: Mover,
    pub paddle: Mover,
    pub bricks: Vec<Brick>,
    pub score: usize,
}

impl World {
    /// One tick of the fixed schedule, in the order the systems chain: both
    /// movers save their positions for interpolation, the paddle's velocity
    /// follows the keys, both movers move, and the collision pass reflects
    /// the ball, scores and despawns the bricks it hit, and reports the
    /// collisions to sound.
    pub fn fixed_update(&mut self, now: u64, left_pressed: bool, right_pressed: bool) -> (out:
        SweepOutcome)
        requires
            old(self).ball.bounded(),
            coord_ok(old(self).ball.position.x + old(self).ball.velocity.x),
            coord_ok(old(self).ball.position.y + old(self).ball.velocity.y),
            -PADDLE_TRAVEL_LIMIT <= old(self).paddle.position.x <= PADDLE_TRAVEL_LIMIT,
            -PADDLE_TRAVEL_LIMIT_Y <= old(self).paddle.position.y <= PADDLE_TRAVEL_LIMIT_Y,
            old(self).paddle.velocity.y == 0,
            forall|j: int|
                0 <= j < old(self).bricks@.len() ==> fits_box(
                    #[trigger] old(self).bricks@[j].center,
                    BRICK_HALF_WIDTH,
                    BRICK_HALF_HEIGHT,
                ),
            old(self).score + FIXED_COLLIDERS + old(self).bricks@.len() <= usize::MAX,
        ensures
            ({
                let pvx = paddle_velocity(
                    left_pressed,
                    right_pressed,
                    old(self).paddle.position.x as int,
                );
                let ball_pos = Vec2Fix {
                    x: (old(self).ball.position.x + old(self).ball.velocity.x) as i64,
                    y: (old(self).ball.position.y + old(self).ball.velocity.y) as i64,
                };
                let paddle_pos = Vec2Fix {
                    x: (old(self).paddle.position.x + pvx) as i64,
                    y: old(self).paddle.position.y,
                };
                let m = sweep(
                    ball_circle(ball_pos),
                    old(self).ball.velocity.x as int,
                    old(self).ball.velocity.y as int,
                    arena_colliders(paddle_pos, old(self).bricks@),
                );
                final(self).paddle.position == paddle_pos
                    && final(self).paddle.velocity.x as int == pvx
                    && final(self).paddle.velocity.y == 0
                    && final(self).paddle.saved == Some((old(self).paddle.position, now))
                    && final(self).ball.position == ball_pos
                    && final(self).ball.velocity.x as int == m.vx
                    && final(self).ball.velocity.y as int == m.vy
                    && final(self).ball.saved == Some((old(self).ball.position, now))
                    && final(self).score == old(self).score + m.bricks.len()
                    && out.hits as nat == m.hits
                    && out.bricks_hit@.map_values(|u: usize| u as int) == m.bricks
                    && final(self).bricks@.len() == old(self).bricks@.len()
                    && (forall|i: int|
                        0 <= i < old(self).bricks@.len()
                            ==> #[trigger] final(self).bricks@[i].center
                            == old(self).bricks@[i].center)
                    && (forall|i: int|
                        0 <= i < old(self).bricks@.len()
                            ==> #[trigger] final(self).bricks@[i].alive
                            == (old(self).bricks@[i].alive
                            && !model_brick_hit(m.bricks, alive_indices(old(self).bricks@), i)))
            }),
            final(self).ball.bounded(),
    {
        self.ball.save_physics_position(now);
        self.paddle.save_physics_position(now);

        let px = self.paddle.position.x;
        move_paddle(&mut self.paddle.velocity, px, left_pressed, right_pressed);
        self.paddle.apply_velocity();
        self.ball.apply_velocity();

        proof {
            lemma_alive_indices_len(self.bricks@);
        }
        let (colliders, alive_map) = build_colliders(self.paddle.position, &self.bricks);
        let out = check_for_collisions(
            self.ball.position,
            &mut self.ball.velocity,
            &colliders,
            &mut self.score,
        );
        despawn_hit_bricks(&mut self.bricks, &alive_map, &out.bricks_hit);
        proof {
            assert forall|i: int|
                0 <= i < old(self).bricks@.len() implies #[trigger] self.bricks@[i].alive
                == (old(self).bricks@[i].alive && !model_brick_hit(
                sweep(
                    ball_circle(self.ball.position),
                    old(self).ball.velocity.x as int,
                    old(self).ball.velocity.y as int,
                    arena_colliders(self.paddle.position, old(self).bricks@),
                ).bricks,
                alive_indices(old(self).bricks@),
                i,
            )) by {
                lemma_hit_bridge(out.bricks_hit@, alive_map@, i);
            }
        }
        out
    }
}

} // verus!
