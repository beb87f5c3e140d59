use keep_moving::{
    advance, circle_aabb_intersect, circles_intersect, coord_toward, dist_sq, isqrt, Aabb,
    BoundingVolume, Circle, Health, HealthState, Timer, TimerMode, Vec2I,
};

#[test]
fn health_from_value_is_full() {
    let h = Health::from(10u32);
    assert_eq!(h.current, 10);
    assert_eq!(h.max, 10);
    assert_eq!(h.state, HealthState::Alive);
}

#[test]
fn health_damage_subtracts() {
    let mut h = Health::new(10);
    h.apply_damage(3);
    assert_eq!(h.current, 7);
    assert_eq!(h.max, 10);
}

#[test]
fn health_damage_saturates_at_zero() {
    let mut h = Health::new(5);
    h.apply_damage(20);
    assert_eq!(h.current, 0);
    h.apply_damage(1);
    assert_eq!(h.current, 0);
    assert_eq!(h.max, 5);
}

#[test]
fn health_never_exceeds_max() {
    let mut h = Health::new(8);
    for d in [0u32, 1, 2, 100] {
        h.apply_damage(d);
        assert!(h.current <= h.max);
    }
}

#[test]
fn once_timer_reports_just_finished_exactly_once() {
    let mut t = Timer::from_millis(1000, TimerMode::Once);
    t.tick(500);
    assert!(!t.just_finished());
    assert!(!t.finished());
    t.tick(500);
    assert!(t.just_finished());
    assert!(t.finished());
    // Any number of further ticks: finished stays, just_finished never again.
    for _ in 0..10 {
        t.tick(700);
        assert!(!t.just_finished());
        assert!(t.finished());
    }
    t.reset();
    t.tick(1000);
    assert!(t.just_finished());
}

#[test]
fn once_timer_saturates_elapsed() {
    let mut t = Timer::from_millis(300, TimerMode::Once);
    t.tick(1000);
    assert_eq!(t.elapsed, 300);
    assert_eq!(t.remaining_millis(), 0);
}

#[test]
fn repeating_timer_fires_floor_of_total_over_duration() {
    // Duration 1000 ms; total 3000 ms of ticks in uneven steps: 3 finishes.
    let mut t = Timer::from_millis(1000, TimerMode::Repeating);
    let mut fires = 0u64;
    for dt in [300u64, 300, 300, 300, 300, 300, 300, 300, 300, 300] {
        t.tick(dt);
        // A delta below the duration can wrap the timer at most once.
        assert!(t.fired <= 1);
        fires += t.fired;
    }
    assert_eq!(fires, 3);
    assert_eq!(t.elapsed, 0);
    // One big delta wraps several times at once.
    let mut t2 = Timer::from_millis(1000, TimerMode::Repeating);
    t2.tick(2500);
    assert_eq!(t2.fired, 2);
    assert_eq!(t2.elapsed, 500);
    t2.tick(500);
    assert_eq!(t2.fired, 1);
}

#[test]
fn zero_duration_is_clamped() {
    let t = Timer::from_millis(0, TimerMode::Repeating);
    assert_eq!(t.duration, 1);
}

#[test]
fn set_duration_caps_elapsed() {
    let mut t = Timer::from_millis(1000, TimerMode::Once);
    t.tick(800);
    t.set_duration(500);
    assert_eq!(t.duration, 500);
    assert_eq!(t.elapsed, 500);
}

#[test]
fn isqrt_exact_values() {
    assert_eq!(isqrt(0), 0);
    assert_eq!(isqrt(1), 1);
    assert_eq!(isqrt(3), 1);
    assert_eq!(isqrt(4), 2);
    assert_eq!(isqrt(15), 3);
    assert_eq!(isqrt(16), 4);
    assert_eq!(isqrt(25), 5);
    assert_eq!(isqrt(999_999_999_999_999_999), 999_999_999);
    assert_eq!(isqrt(1_000_000_000_000_000_000), 1_000_000_000);
}

#[test]
fn advance_moves_along_normalized_offset() {
    // Offset (3, 4) has integer length 5; speed 100 px/s for 1000 ms is a
    // step of 100_000 millipixels.
    let pos = Vec2I { x: 0, y: 0 };
    let dir = Vec2I { x: 3, y: 4 };
    let moved = advance(pos, dir, 100, 1000);
    assert_eq!(moved, Vec2I { x: 60_000, y: 80_000 });
}

#[test]
fn advance_ignores_zero_offset_and_respects_sign() {
    let pos = Vec2I { x: 5, y: -7 };
    assert_eq!(advance(pos, Vec2I { x: 0, y: 0 }, 500, 1000), pos);
    let moved = advance(Vec2I { x: 0, y: 0 }, Vec2I { x: -3, y: 4 }, 100, 1000);
    assert_eq!(moved, Vec2I { x: -60_000, y: 80_000 });
}

#[test]
fn advance_saturates_at_world_limit() {
    let pos = Vec2I { x: 9_999_999, y: 0 };
    let moved = advance(pos, Vec2I { x: 1, y: 0 }, 1000, 60_000);
    assert_eq!(moved.x, 10_000_000);
}

#[test]
fn coord_toward_moves_by_bounded_step() {
    assert_eq!(coord_toward(0, 1000, 30), 30);
    assert_eq!(coord_toward(990, 1000, 30), 1000);
    assert_eq!(coord_toward(0, -1000, 30), -30);
    assert_eq!(coord_toward(5, 5, 30), 5);
}

#[test]
fn dist_sq_is_exact() {
    let a = Vec2I { x: 1, y: 2 };
    let b = Vec2I { x: 4, y: 6 };
    assert_eq!(dist_sq(a, b), 25);
}

#[test]
fn circles_touching_counts_as_intersecting() {
    let a = Circle { center: Vec2I { x: 0, y: 0 }, radius: 4_000 };
    let b = Circle { center: Vec2I { x: 12_000, y: 0 }, radius: 8_000 };
    assert!(circles_intersect(&a, &b));
    let c = Circle { center: Vec2I { x: 12_001, y: 0 }, radius: 8_000 };
    assert!(!circles_intersect(&a, &c));
}

#[test]
fn circle_aabb_overlap() {
    let boxy = Aabb { center: Vec2I { x: 0, y: 0 }, half: Vec2I { x: 10_000, y: 5_000 } };
    let inside = Circle { center: Vec2I { x: 0, y: 0 }, radius: 1_000 };
    assert!(circle_aabb_intersect(&inside, &boxy));
    let touching = Circle { center: Vec2I { x: 14_000, y: 0 }, radius: 4_000 };
    assert!(circle_aabb_intersect(&touching, &boxy));
    let outside = Circle { center: Vec2I { x: 14_001, y: 0 }, radius: 4_000 };
    assert!(!circle_aabb_intersect(&outside, &boxy));
}

#[test]
fn bounding_volume_dispatch() {
    let a = BoundingVolume::Circle(Circle { center: Vec2I { x: 0, y: 0 }, radius: 1_000 });
    let b = BoundingVolume::Aabb(Aabb {
        center: Vec2I { x: 0, y: 0 },
        half: Vec2I { x: 500, y: 500 },
    });
    assert!(a.intersects(&b).0);
    let far = BoundingVolume::Circle(Circle {
        center: Vec2I { x: 100_000, y: 0 },
        radius: 1_000,
    });
    assert!(!a.intersects(&far).0);
}
