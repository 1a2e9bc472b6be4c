use breakout::geom::{
    ball_collision, circle_intersects_box, clamp_coord, Aabb, Circle, Collision, Vec2Fix,
};

fn unit_box() -> Aabb {
    Aabb {
        min: Vec2Fix { x: -10, y: -10 },
        max: Vec2Fix { x: 10, y: 10 },
    }
}

#[test]
fn clamp_coord_inside_and_outside() {
    assert_eq!(clamp_coord(5, -10, 10), 5);
    assert_eq!(clamp_coord(-11, -10, 10), -10);
    assert_eq!(clamp_coord(99, -10, 10), 10);
}

#[test]
fn from_center_half_builds_the_corners() {
    let b = Aabb::from_center_half(Vec2Fix { x: 100, y: -50 }, Vec2Fix { x: 30, y: 20 });
    assert_eq!(b.min, Vec2Fix { x: 70, y: -70 });
    assert_eq!(b.max, Vec2Fix { x: 130, y: -30 });
}

#[test]
fn closest_point_clamps_per_axis() {
    let b = unit_box();
    assert_eq!(b.closest_point(Vec2Fix { x: 15, y: 3 }), Vec2Fix { x: 10, y: 3 });
    assert_eq!(b.closest_point(Vec2Fix { x: 0, y: 0 }), Vec2Fix { x: 0, y: 0 });
    assert_eq!(b.closest_point(Vec2Fix { x: -20, y: -40 }), Vec2Fix { x: -10, y: -10 });
}

#[test]
fn intersection_is_tight_at_one_radius() {
    let b = unit_box();
    let touching = Circle { center: Vec2Fix { x: 16, y: 0 }, radius: 6 };
    let apart = Circle { center: Vec2Fix { x: 17, y: 0 }, radius: 6 };
    assert!(circle_intersects_box(&touching, &b));
    assert!(!circle_intersects_box(&apart, &b));
}

#[test]
fn ball_collision_classifies_each_side() {
    let b = unit_box();
    let right = Circle { center: Vec2Fix { x: 15, y: 0 }, radius: 6 };
    let left = Circle { center: Vec2Fix { x: -15, y: 0 }, radius: 6 };
    let top = Circle { center: Vec2Fix { x: 0, y: 15 }, radius: 6 };
    let bottom = Circle { center: Vec2Fix { x: 0, y: -15 }, radius: 6 };
    assert_eq!(ball_collision(&right, &b), Some(Collision::Right));
    assert_eq!(ball_collision(&left, &b), Some(Collision::Left));
    assert_eq!(ball_collision(&top, &b), Some(Collision::Top));
    assert_eq!(ball_collision(&bottom, &b), Some(Collision::Bottom));
}

#[test]
fn ball_collision_misses_a_far_box() {
    let b = unit_box();
    let far = Circle { center: Vec2Fix { x: 20, y: 0 }, radius: 6 };
    assert_eq!(ball_collision(&far, &b), None);
}

#[test]
fn diagonal_ties_go_to_the_vertical_axis() {
    let b = unit_box();
    // The offset from the corner is (3, 3): the magnitudes tie, so the
    // vertical sign decides and the ball hits the top.
    let corner = Circle { center: Vec2Fix { x: 13, y: 13 }, radius: 6 };
    assert_eq!(ball_collision(&corner, &b), Some(Collision::Top));
    let lower_corner = Circle { center: Vec2Fix { x: 13, y: -13 }, radius: 6 };
    assert_eq!(ball_collision(&lower_corner, &b), Some(Collision::Bottom));
}

#[test]
fn ball_inside_the_box_hits_bottom() {
    // The center is inside the box, so the closest point is the center
    // itself, the offset is zero, and the tie falls to `Bottom`.
    let b = unit_box();
    let inside = Circle { center: Vec2Fix { x: 2, y: 1 }, radius: 6 };
    assert_eq!(ball_collision(&inside, &b), Some(Collision::Bottom));
}
