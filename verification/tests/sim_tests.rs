use breakout::geom::{Aabb, Vec2Fix};
use breakout::layout::{
    WallLocation, BALL_RADIUS, INITIAL_BALL_VELOCITY_X, INITIAL_BALL_VELOCITY_Y, PADDLE_Y,
};
use breakout::sim::{
    build_colliders, check_for_collisions, despawn_hit_bricks, move_paddle, Brick, ColliderBox,
    Mover, World,
};

#[test]
fn apply_velocity_moves_one_tick() {
    let mut m = Mover::new(Vec2Fix { x: 0, y: -12800 }, Vec2Fix { x: 1600, y: -1600 });
    m.apply_velocity();
    assert_eq!(m.position, Vec2Fix { x: 1600, y: -14400 });
    m.apply_velocity();
    assert_eq!(m.position, Vec2Fix { x: 3200, y: -16000 });
    assert_eq!(m.velocity, Vec2Fix { x: 1600, y: -1600 });
}

#[test]
fn interpolation_walks_the_saved_tick() {
    let mut m = Mover::new(Vec2Fix { x: 0, y: 0 }, Vec2Fix { x: 1600, y: -1600 });
    // Before any tick ran, the mover is drawn where it is.
    assert_eq!(m.interpolated_position(1_000_000), Vec2Fix { x: 0, y: 0 });

    m.save_physics_position(1_000_000);
    m.apply_velocity();
    // At the tick's own timestamp, the drawn position is the saved one.
    assert_eq!(m.interpolated_position(1_000_000), Vec2Fix { x: 0, y: 0 });
    // Half a tick later (7812 of 15625 microseconds), the mover is drawn
    // 1600 * 7812 / 15625 = 799 subpixels along, on both axes.
    assert_eq!(m.interpolated_position(1_007_812), Vec2Fix { x: 799, y: -799 });
    // A full tick later it is drawn at the current physics position.
    assert_eq!(m.interpolated_position(1_015_625), Vec2Fix { x: 1600, y: -1600 });
}

#[test]
fn move_paddle_follows_the_keys() {
    let mut v = Vec2Fix { x: 55, y: 7 };
    move_paddle(&mut v, 0, false, true);
    assert_eq!(v, Vec2Fix { x: 2000, y: 7 });
    move_paddle(&mut v, 0, true, false);
    assert_eq!(v.x, -2000);
    move_paddle(&mut v, 0, true, true);
    assert_eq!(v.x, 0);
    move_paddle(&mut v, 0, false, false);
    assert_eq!(v.x, 0);
}

#[test]
fn move_paddle_stops_at_the_bounds() {
    let mut v = Vec2Fix { x: 0, y: 0 };
    // Just past the left bound, a push further left is dropped...
    move_paddle(&mut v, -96001, true, false);
    assert_eq!(v.x, 0);
    // ...but a push back inside is kept.
    move_paddle(&mut v, -96001, false, true);
    assert_eq!(v.x, 2000);
    move_paddle(&mut v, 96001, false, true);
    assert_eq!(v.x, 0);
    // The bound itself is still inside.
    move_paddle(&mut v, 96000, false, true);
    assert_eq!(v.x, 2000);
}

#[test]
fn a_brick_hit_scores_reflects_and_despawns() {
    // The ball sits just under a brick, moving up and to the right.
    let brick = ColliderBox {
        aabb: Aabb::from_center_half(Vec2Fix { x: 0, y: 4000 }, Vec2Fix { x: 12800, y: 3840 }),
        is_brick: true,
    };
    let far_wall = ColliderBox {
        aabb: Aabb::from_center_half(Vec2Fix { x: 100000, y: 0 }, Vec2Fix { x: 1280, y: 78080 }),
        is_brick: false,
    };
    let colliders = vec![brick, far_wall];
    let mut velocity = Vec2Fix { x: 1000, y: 500 };
    let mut score: usize = 0;
    let out = check_for_collisions(Vec2Fix { x: 0, y: 0 }, &mut velocity, &colliders, &mut score);
    // The brick's underside is 160 subpixels away, within one ball radius:
    // the ball hit its bottom, so only the upward velocity reflects.
    assert_eq!(velocity, Vec2Fix { x: 1000, y: -500 });
    assert_eq!(score, 1);
    assert_eq!(out.bricks_hit, vec![0]);
    assert_eq!(out.hits, 1);
}

#[test]
fn a_hit_moving_away_still_counts_but_does_not_reflect() {
    // A non-brick collider below the ball: the ball overlaps it but already
    // moves away from it (upward), so the velocity stays.
    let ledge = ColliderBox {
        aabb: Aabb::from_center_half(Vec2Fix { x: 0, y: -4000 }, Vec2Fix { x: 12800, y: 3840 }),
        is_brick: false,
    };
    let colliders = vec![ledge];
    let mut velocity = Vec2Fix { x: 0, y: 500 };
    let mut score: usize = 0;
    let out = check_for_collisions(Vec2Fix { x: 0, y: 0 }, &mut velocity, &colliders, &mut score);
    assert_eq!(velocity, Vec2Fix { x: 0, y: 500 });
    assert_eq!(score, 0);
    assert_eq!(out.bricks_hit, Vec::<usize>::new());
    assert_eq!(out.hits, 1);
}

#[test]
fn one_sweep_can_bounce_twice() {
    // Two colliders hit in one sweep: the floor below reflects the downward
    // velocity, and the brick above then reflects the now upward velocity.
    let floor = ColliderBox {
        aabb: Aabb::from_center_half(Vec2Fix { x: 0, y: -4000 }, Vec2Fix { x: 12800, y: 3840 }),
        is_brick: false,
    };
    let brick = ColliderBox {
        aabb: Aabb::from_center_half(Vec2Fix { x: 0, y: 4000 }, Vec2Fix { x: 12800, y: 3840 }),
        is_brick: true,
    };
    let colliders = vec![floor, brick];
    let mut velocity = Vec2Fix { x: 0, y: -500 };
    let mut score: usize = 10;
    let out = check_for_collisions(Vec2Fix { x: 0, y: 0 }, &mut velocity, &colliders, &mut score);
    assert_eq!(velocity, Vec2Fix { x: 0, y: -500 });
    assert_eq!(score, 11);
    assert_eq!(out.bricks_hit, vec![1]);
    assert_eq!(out.hits, 2);
}

#[test]
fn the_ball_bounces_off_the_right_wall() {
    // The ball touches the right wall exactly at one radius.
    let wall = ColliderBox {
        aabb: WallLocation::Right.bounds(),
        is_brick: false,
    };
    let colliders = vec![wall];
    let ball_x = 113920 - BALL_RADIUS;
    let mut velocity = Vec2Fix { x: INITIAL_BALL_VELOCITY_X, y: INITIAL_BALL_VELOCITY_Y };
    let mut score: usize = 0;
    let out =
        check_for_collisions(Vec2Fix { x: ball_x, y: 0 }, &mut velocity, &colliders, &mut score);
    assert_eq!(out.hits, 1);
    assert_eq!(velocity, Vec2Fix { x: -INITIAL_BALL_VELOCITY_X, y: INITIAL_BALL_VELOCITY_Y });
    assert_eq!(score, 0);
}

#[test]
fn build_colliders_lists_walls_paddle_then_live_bricks() {
    let bricks = vec![
        Brick { center: Vec2Fix { x: -94080, y: 11520 }, alive: true },
        Brick { center: Vec2Fix { x: -67200, y: 11520 }, alive: false },
        Brick { center: Vec2Fix { x: -40320, y: 11520 }, alive: true },
    ];
    let (colliders, alive_map) = build_colliders(Vec2Fix { x: 0, y: PADDLE_Y }, &bricks);
    assert_eq!(colliders.len(), 7);
    assert_eq!(alive_map, vec![0, 2]);
    // The first collider is the left wall.
    assert_eq!(colliders[0].aabb, WallLocation::Left.bounds());
    assert!(!colliders[0].is_brick);
    // The fifth is the paddle around its center.
    assert_eq!(colliders[4].aabb.min, Vec2Fix { x: -15360, y: PADDLE_Y - 2560 });
    assert_eq!(colliders[4].aabb.max, Vec2Fix { x: 15360, y: PADDLE_Y + 2560 });
    assert!(!colliders[4].is_brick);
    // The dead brick is skipped: the two live ones follow in order.
    assert_eq!(colliders[5].aabb.min, Vec2Fix { x: -106880, y: 7680 });
    assert_eq!(colliders[5].aabb.max, Vec2Fix { x: -81280, y: 15360 });
    assert!(colliders[5].is_brick);
    assert_eq!(colliders[6].aabb.min, Vec2Fix { x: -53120, y: 7680 });
}

#[test]
fn despawn_hit_bricks_kills_only_what_was_hit() {
    let mut bricks = vec![
        Brick { center: Vec2Fix { x: 0, y: 0 }, alive: true },
        Brick { center: Vec2Fix { x: 100, y: 0 }, alive: true },
        Brick { center: Vec2Fix { x: 200, y: 0 }, alive: true },
    ];
    let alive_map = vec![0, 1, 2];
    // One wall hit (index 1) to ignore, one brick hit (collider 6, brick 1),
    // and one index past the map to ignore.
    let hit = vec![1, 6, 99];
    despawn_hit_bricks(&mut bricks, &alive_map, &hit);
    assert!(bricks[0].alive);
    assert!(!bricks[1].alive);
    assert!(bricks[2].alive);
    assert_eq!(bricks[1].center, Vec2Fix { x: 100, y: 0 });
}

#[test]
fn a_pass_over_the_whole_arena_bounces_off_the_right_wall() {
    let bricks = vec![Brick { center: Vec2Fix { x: -94080, y: 11520 }, alive: true }];
    let (colliders, alive_map) = build_colliders(Vec2Fix { x: 0, y: PADDLE_Y }, &bricks);
    let mut velocity = Vec2Fix { x: 1131, y: 1131 };
    let mut score: usize = 0;
    let ball = Vec2Fix { x: 113920 - BALL_RADIUS, y: 0 };
    let out = check_for_collisions(ball, &mut velocity, &colliders, &mut score);
    assert_eq!(out.hits, 1);
    assert_eq!(velocity, Vec2Fix { x: -1131, y: 1131 });
    let mut bricks = bricks;
    despawn_hit_bricks(&mut bricks, &alive_map, &out.bricks_hit);
    assert!(bricks[0].alive);
    assert_eq!(score, 0);
}

#[test]
fn fixed_update_runs_one_whole_tick() {
    let ball = Mover::new(Vec2Fix { x: 0, y: 3000 }, Vec2Fix { x: 0, y: 1000 });
    let paddle = Mover::new(Vec2Fix { x: 0, y: PADDLE_Y }, Vec2Fix { x: 0, y: 0 });
    let bricks = vec![Brick { center: Vec2Fix { x: 0, y: 11520 }, alive: true }];
    let mut world = World { ball, paddle, bricks, score: 0 };

    let out = world.fixed_update(15625, false, false);

    // The ball moved one tick up, into the brick's underside, and bounced.
    assert_eq!(world.ball.position, Vec2Fix { x: 0, y: 4000 });
    assert_eq!(world.ball.velocity, Vec2Fix { x: 0, y: -1000 });
    assert_eq!(world.ball.saved, Some((Vec2Fix { x: 0, y: 3000 }, 15625)));
    // The brick died and scored; the collider after walls and paddle is 5.
    assert_eq!(world.score, 1);
    assert!(!world.bricks[0].alive);
    assert_eq!(out.hits, 1);
    assert_eq!(out.bricks_hit, vec![5]);
    // The paddle, with no key pressed, stayed put.
    assert_eq!(world.paddle.position, Vec2Fix { x: 0, y: PADDLE_Y });
    assert_eq!(world.paddle.velocity, Vec2Fix { x: 0, y: 0 });
}

#[test]
fn fixed_update_moves_the_paddle_with_the_keys() {
    let ball = Mover::new(Vec2Fix { x: 60000, y: -20000 }, Vec2Fix { x: 1131, y: -1131 });
    let paddle = Mover::new(Vec2Fix { x: 0, y: PADDLE_Y }, Vec2Fix { x: 0, y: 0 });
    let mut world = World { ball, paddle, bricks: Vec::new(), score: 3 };

    let out = world.fixed_update(0, false, true);

    assert_eq!(world.paddle.position, Vec2Fix { x: 2000, y: PADDLE_Y });
    assert_eq!(world.paddle.velocity, Vec2Fix { x: 2000, y: 0 });
    assert_eq!(world.ball.position, Vec2Fix { x: 61131, y: -21131 });
    assert_eq!(world.score, 3);
    assert_eq!(out.hits, 0);
}
