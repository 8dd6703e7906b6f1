use top_g_simulator::utils::{
    advance, confine, coordinate_from_draw, half_extent_of, integer_sqrt, is_collision, normalize,
    random_coordinate,
    random_position, spawn_reach_of, Vec2, Window, DIRECTION_ONE, ENEMY_SIZE, ENEMY_SPEED,
    NUMBER_OF_STARS, PLAYER_SIZE, PLAYER_SPEED, UNITS_PER_PIXEL,
};

fn px(pixels: i64) -> i64 {
    pixels * UNITS_PER_PIXEL
}

#[test]
fn constants_have_their_values() {
    assert_eq!(PLAYER_SPEED, 500);
    assert_eq!(ENEMY_SPEED, 200);
    assert_eq!(PLAYER_SIZE, px(64));
    assert_eq!(ENEMY_SIZE, px(64));
    assert_eq!(NUMBER_OF_STARS, 4);
}

#[test]
fn collision_at_the_threshold_counts() {
    assert!(is_collision(px(64), 0, 0, 0));
    assert!(is_collision(0, 0, 0, px(-64)));
    assert!(!is_collision(px(64) + 1, 0, 0, 0));
    assert!(!is_collision(0, px(64) + 1, 0, 0));
}

#[test]
fn collision_uses_euclidean_distance() {
    // 38.4 and 51.2 pixels apart along the axes: exactly 64 pixels.
    assert!(is_collision(38_400_000_000, 51_200_000_000, 0, 0));
    assert!(!is_collision(38_400_000_001, 51_200_000_000, 0, 0));
    // 64 pixels along both axes is about 90.5 pixels away.
    assert!(!is_collision(px(64), px(64), 0, 0));
    assert!(is_collision(px(45), px(45), 0, 0));
    assert!(!is_collision(px(46), px(46), 0, 0));
}

#[test]
fn collision_is_symmetric_on_samples() {
    let points: [(i64, i64); 5] =
        [(0, 0), (px(64), 0), (px(30), px(-50)), (px(-700), px(12)), (px(64) + 1, 0)];
    for a in points.iter() {
        for b in points.iter() {
            assert_eq!(is_collision(a.0, a.1, b.0, b.1), is_collision(b.0, b.1, a.0, a.1));
        }
    }
}

#[test]
fn collision_far_apart_does_not_overflow() {
    assert!(!is_collision(i64::MIN, i64::MIN, i64::MAX, i64::MAX));
    assert!(!is_collision(i64::MAX, 0, i64::MIN, 0));
    assert!(is_collision(i64::MAX, i64::MIN, i64::MAX, i64::MIN));
}

#[test]
fn integer_sqrt_rounds_down() {
    assert_eq!(integer_sqrt(0), 0);
    assert_eq!(integer_sqrt(1), 1);
    assert_eq!(integer_sqrt(2), 1);
    assert_eq!(integer_sqrt(3), 1);
    assert_eq!(integer_sqrt(4), 2);
    assert_eq!(integer_sqrt(99), 9);
    assert_eq!(integer_sqrt(100), 10);
    assert_eq!(integer_sqrt(1_000_000_000_000), 1_000_000);
    assert_eq!(integer_sqrt(999_999_999_999), 999_999);
    assert_eq!(integer_sqrt(u64::MAX), 4_294_967_295);
}

#[test]
fn normalize_gives_fixed_point_unit_vectors() {
    assert_eq!(normalize(Vec2 { x: 0, y: 0 }), Vec2 { x: 0, y: 0 });
    assert_eq!(normalize(Vec2 { x: 1, y: 0 }), Vec2 { x: DIRECTION_ONE, y: 0 });
    assert_eq!(normalize(Vec2 { x: 0, y: -1 }), Vec2 { x: 0, y: -DIRECTION_ONE });
    assert_eq!(normalize(Vec2 { x: 1, y: 1 }), Vec2 { x: 707_106, y: 707_106 });
    assert_eq!(normalize(Vec2 { x: -1, y: 1 }), Vec2 { x: -707_106, y: 707_106 });
    assert_eq!(normalize(Vec2 { x: 300_000, y: 400_000 }), Vec2 { x: 600_000, y: 800_000 });
    assert_eq!(normalize(Vec2 { x: -300_000, y: -400_000 }), Vec2 { x: -600_000, y: -800_000 });
    assert_eq!(
        normalize(Vec2 { x: DIRECTION_ONE, y: DIRECTION_ONE }),
        Vec2 { x: 707_106, y: 707_106 }
    );
}

#[test]
fn advance_covers_speed_times_time() {
    let start = Vec2 { x: px(500), y: 0 };
    let right = Vec2 { x: DIRECTION_ONE, y: 0 };
    assert_eq!(advance(start, right, PLAYER_SPEED, 1_000_000_000), Vec2 { x: px(1000), y: 0 });
    assert_eq!(advance(start, right, ENEMY_SPEED, 16_000_000), Vec2 { x: 503_200_000_000, y: 0 });
    assert_eq!(advance(start, right, PLAYER_SPEED, 0), start);
    let slanted = Vec2 { x: -600_000, y: 800_000 };
    assert_eq!(
        advance(Vec2 { x: 0, y: 0 }, slanted, ENEMY_SPEED, 1_000_000_000),
        Vec2 { x: px(-120), y: px(160) }
    );
}

#[test]
fn advance_rounds_toward_zero() {
    let origin = Vec2 { x: 0, y: 0 };
    // 1 / 1_000_000 of the way at 200 units per nanosecond for 1 ns is 0.0002 units.
    assert_eq!(advance(origin, Vec2 { x: 1, y: -1 }, ENEMY_SPEED, 1), origin);
    // 707_106 * 500 * 3 / 1_000_000 = 1060.659
    assert_eq!(
        advance(origin, Vec2 { x: 707_106, y: -707_106 }, PLAYER_SPEED, 3),
        Vec2 { x: 1060, y: -1060 }
    );
}

#[test]
fn half_extent_is_half_the_window() {
    assert_eq!(half_extent_of(1920), px(960));
    assert_eq!(half_extent_of(1081), 540_500_000_000);
    assert_eq!(half_extent_of(0), 0);
    assert_eq!(half_extent_of(u32::MAX), 4_294_967_295 * 500_000_000);
}

#[test]
fn spawn_reach_leaves_half_an_entity_of_margin() {
    assert_eq!(spawn_reach_of(1920), px(928));
    assert_eq!(spawn_reach_of(1080), px(508));
    assert_eq!(spawn_reach_of(64), 0);
    assert_eq!(spawn_reach_of(10), 0);
}

#[test]
fn confine_pushes_back_to_the_crossed_edge() {
    assert_eq!(confine(px(1000), px(960), px(32)), (px(928), true));
    assert_eq!(confine(px(-1000), px(960), px(32)), (px(-928), true));
    assert_eq!(confine(px(928), px(960), px(32)), (px(928), false));
    assert_eq!(confine(px(928) + 1, px(960), px(32)), (px(928), true));
    assert_eq!(confine(px(-928), px(960), px(32)), (px(-928), false));
    assert_eq!(confine(0, px(960), px(32)), (0, false));
    assert_eq!(confine(i64::MAX, px(960), px(32)), (px(928), true));
    assert_eq!(confine(i64::MIN, px(960), px(32)), (px(-928), true));
}

#[test]
fn confine_in_a_window_smaller_than_the_entity() {
    // Both edges are crossed: the low edge decides, and nothing bounces.
    assert_eq!(confine(0, px(10), px(32)), (px(22), false));
}

#[test]
fn random_coordinate_stays_in_its_half_open_range() {
    for _ in 0..200 {
        let drawn = random_coordinate(1);
        assert!(drawn == -1 || drawn == 0);
    }
    for _ in 0..200 {
        let drawn = random_coordinate(px(928));
        assert!(-px(928) <= drawn && drawn < px(928));
    }
    assert_eq!(random_coordinate(0), 0);
}

#[test]
fn random_position_lies_in_the_spawn_area() {
    let window = Window { width: 1920, height: 1080 };
    for _ in 0..200 {
        let place = random_position(window);
        assert!(-px(928) <= place.x && place.x < px(928));
        assert!(-px(508) <= place.y && place.y < px(508));
    }
    let tiny = Window { width: 20, height: 20 };
    assert_eq!(random_position(tiny), Vec2 { x: 0, y: 0 });
}

#[test]
fn draws_are_laid_out_from_the_low_end() {
    assert_eq!(coordinate_from_draw(1, 0), -1);
    assert_eq!(coordinate_from_draw(1, 1), 0);
    assert_eq!(coordinate_from_draw(px(928), 0), -px(928));
    assert_eq!(coordinate_from_draw(px(928), 928_000_000_000), 0);
    assert_eq!(coordinate_from_draw(px(928), 2 * 928_000_000_000 - 1), px(928) - 1);
    let widest: i64 = 4_294_967_295 * 500_000_000;
    assert_eq!(coordinate_from_draw(widest, 2 * (widest as u64) - 1), widest - 1);
}
