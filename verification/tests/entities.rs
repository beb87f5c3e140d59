use keep_moving::{
    defender_action, find_enemy_index, select_target, Defender, Enemy, EnemyState, Input, Player,
    PlayerState, SimpleAnimation, Vec2I, Weapon,
};

fn active_enemy(id: u64, x: i64, y: i64) -> Enemy {
    let mut e = Enemy::spawn(id, Vec2I { x, y });
    e.enemy_state = EnemyState::Active;
    e
}

#[test]
fn enemy_spawns_in_grace_period() {
    let e = Enemy::spawn(0, Vec2I { x: 100, y: 200 });
    assert_eq!(e.enemy_state, EnemyState::Spawning);
    assert_eq!(e.health.current, 5);
    assert_eq!(e.health.max, 5);
    assert_eq!(e.damage, 2);
    assert_eq!(e.direction, Vec2I { x: 0, y: 0 });
}

#[test]
fn enemy_activates_after_spawn_timer() {
    let mut e = Enemy::spawn(0, Vec2I { x: 0, y: 0 });
    let despawn = e.behavior(Vec2I { x: 500, y: 500 }, 999);
    assert!(!despawn);
    assert_eq!(e.enemy_state, EnemyState::Spawning);
    let despawn = e.behavior(Vec2I { x: 500, y: 500 }, 1);
    assert!(!despawn);
    assert_eq!(e.enemy_state, EnemyState::Active);
}

#[test]
fn active_enemy_pursues_player_exactly() {
    // Direction after one Active tick is exactly the offset P - E.
    let mut e = active_enemy(1, 1_000, 2_000);
    let player_pos = Vec2I { x: 4_000, y: 6_000 };
    e.behavior(player_pos, 16);
    assert_eq!(e.direction, Vec2I { x: 3_000, y: 4_000 });
}

#[test]
fn only_active_enemies_move() {
    let mut spawning = Enemy::spawn(0, Vec2I { x: 0, y: 0 });
    spawning.direction = Vec2I { x: 1_000, y: 0 };
    spawning.movement(1000);
    assert_eq!(spawning.pos, Vec2I { x: 0, y: 0 });

    let mut active = active_enemy(1, 0, 0);
    active.direction = Vec2I { x: 1_000, y: 0 };
    active.movement(1000);
    // Speed 120 px/s for one second along (1, 0).
    assert_eq!(active.pos, Vec2I { x: 120_000, y: 0 });
}

#[test]
fn dead_enemy_despawns_after_death_timer() {
    let mut e = active_enemy(0, 0, 0);
    e.health.apply_damage(5);
    e.update_death();
    assert_eq!(e.enemy_state, EnemyState::Dead);
    let despawn = e.behavior(Vec2I { x: 0, y: 0 }, 999);
    assert!(!despawn);
    let despawn = e.behavior(Vec2I { x: 0, y: 0 }, 1);
    assert!(despawn);
}

#[test]
fn player_spawns_normal_and_facing_up() {
    let p = Player::spawn();
    assert_eq!(p.player_state, PlayerState::Normal);
    assert_eq!(p.health.current, 10);
    assert_eq!(p.direction, Vec2I { x: 0, y: 1_000 });
    assert_eq!(p.pos, Vec2I { x: 0, y: 0 });
}

#[test]
fn steering_turns_gradually_not_snapping() {
    let mut p = Player::spawn();
    let mut input = Input::default();
    input.move_right = true;
    p.steer(&input);
    // One tick moves each facing component at most one turn step (30).
    assert_eq!(p.direction, Vec2I { x: 30, y: 970 });
    for _ in 0..100 {
        p.steer(&input);
    }
    assert_eq!(p.direction, Vec2I { x: 1_000, y: 0 });
}

#[test]
fn steering_idles_without_intent() {
    let mut p = Player::spawn();
    let input = Input::default();
    p.steer(&input);
    assert_eq!(p.direction, Vec2I { x: 0, y: 1_000 });
}

#[test]
fn dead_player_does_not_move() {
    let mut p = Player::spawn();
    p.player_state = PlayerState::Dead;
    p.movement(1000);
    assert_eq!(p.pos, Vec2I { x: 0, y: 0 });
    p.player_state = PlayerState::Normal;
    p.movement(1000);
    assert_eq!(p.pos, Vec2I { x: 0, y: 120_000 });
}

#[test]
fn player_death_is_detected_same_tick() {
    let mut p = Player::spawn();
    p.health.apply_damage(10);
    p.update_death();
    assert_eq!(p.player_state, PlayerState::Dead);
}

#[test]
fn player_death_timer_reports_game_over_exactly_once() {
    let mut p = Player::spawn();
    p.health.apply_damage(10);
    p.update_death();
    let mut reports = 0u32;
    for _ in 0..20 {
        if p.update_death_timer(100) {
            reports += 1;
        }
    }
    assert_eq!(reports, 1);
}

#[test]
fn invincibility_window_expires() {
    let mut p = Player::spawn();
    p.player_state = PlayerState::Invincible;
    p.update_invincibility(249);
    assert_eq!(p.player_state, PlayerState::Invincible);
    p.update_invincibility(1);
    assert_eq!(p.player_state, PlayerState::Normal);
}

#[test]
fn select_target_picks_nearest_active() {
    let enemies = vec![
        active_enemy(0, 10_000, 0),
        active_enemy(1, 5_000, 0),
        active_enemy(2, 20_000, 0),
    ];
    let r = select_target(&enemies, Vec2I { x: 0, y: 0 });
    assert_eq!(r, Some(1));
}

#[test]
fn select_target_skips_non_active() {
    let mut near = Enemy::spawn(0, Vec2I { x: 1_000, y: 0 });
    near.enemy_state = EnemyState::Spawning;
    let mut dead = active_enemy(1, 2_000, 0);
    dead.enemy_state = EnemyState::Dead;
    let enemies = vec![near, dead, active_enemy(2, 30_000, 0)];
    let r = select_target(&enemies, Vec2I { x: 0, y: 0 });
    assert_eq!(r, Some(2));
    let none: Vec<Enemy> = vec![Enemy::spawn(3, Vec2I { x: 0, y: 0 })];
    assert_eq!(select_target(&none, Vec2I { x: 0, y: 0 }), None);
}

#[test]
fn select_target_tie_goes_to_first_encountered() {
    let enemies = vec![active_enemy(7, 5_000, 0), active_enemy(8, -5_000, 0)];
    let r = select_target(&enemies, Vec2I { x: 0, y: 0 });
    assert_eq!(r, Some(0));
}

#[test]
fn defender_fires_at_nearest_and_restarts() {
    let mut d = Defender::spawn(Vec2I { x: 0, y: 0 });
    let enemies = vec![active_enemy(4, 8_000, 6_000)];
    // Before the action timer finishes: no shot.
    let shot = defender_action(&mut d, &enemies, 999);
    assert!(shot.is_none());
    let shot = defender_action(&mut d, &enemies, 1);
    let w = shot.expect("the finished timer fires at the only enemy");
    assert_eq!(w.target, Some(4));
    assert_eq!(w.pos, Vec2I { x: 0, y: 0 });
    assert_eq!(w.damage, 2);
    // The timer restarted.
    assert_eq!(d.action_timer.elapsed, 0);
}

#[test]
fn defender_restarts_timer_even_without_target() {
    let mut d = Defender::spawn(Vec2I { x: 0, y: 0 });
    let enemies: Vec<Enemy> = Vec::new();
    let shot = defender_action(&mut d, &enemies, 1000);
    assert!(shot.is_none());
    assert_eq!(d.action_timer.elapsed, 0);
}

#[test]
fn weapon_homes_on_live_target() {
    let mut w = Weapon::spawn(Vec2I { x: 0, y: 0 }, 9);
    let enemies = vec![active_enemy(9, 3_000, 4_000)];
    let despawn = w.movement(&enemies, 1000);
    assert!(!despawn);
    assert_eq!(w.direction, Vec2I { x: 3_000, y: 4_000 });
    // Speed 200 px/s for one second along the normalized offset.
    assert_eq!(w.pos, Vec2I { x: 120_000, y: 160_000 });
}

#[test]
fn weapon_despawns_on_stale_target() {
    let mut w = Weapon::spawn(Vec2I { x: 0, y: 0 }, 42);
    let enemies = vec![active_enemy(1, 3_000, 4_000)];
    let despawn = w.movement(&enemies, 1000);
    assert!(despawn);
    assert_eq!(w.pos, Vec2I { x: 0, y: 0 });
}

#[test]
fn weapon_without_target_flies_straight() {
    let mut w = Weapon::spawn(Vec2I { x: 0, y: 0 }, 1);
    w.target = None;
    w.direction = Vec2I { x: 0, y: -1_000 };
    let enemies: Vec<Enemy> = Vec::new();
    let despawn = w.movement(&enemies, 1000);
    assert!(!despawn);
    assert_eq!(w.pos, Vec2I { x: 0, y: -200_000 });
}

#[test]
fn weapon_lifetime_expires() {
    let mut w = Weapon::spawn(Vec2I { x: 0, y: 0 }, 1);
    let mut despawned = false;
    for _ in 0..20 {
        if w.expire(1000) {
            despawned = true;
        }
    }
    assert!(despawned);
}

#[test]
fn find_enemy_index_finds_first_match() {
    let enemies = vec![active_enemy(5, 0, 0), active_enemy(6, 1, 1)];
    assert_eq!(find_enemy_index(&enemies, 6), Some(1));
    assert_eq!(find_enemy_index(&enemies, 99), None);
}

#[test]
fn animation_advances_and_wraps() {
    let mut a = SimpleAnimation::new(vec![3, 4]);
    assert_eq!(a.current_frame(), 3);
    a.animate(100);
    assert_eq!(a.current_frame_index, 1);
    assert_eq!(a.current_frame(), 4);
    a.animate(100);
    assert_eq!(a.current_frame_index, 0);
    a.animate(50);
    assert_eq!(a.current_frame_index, 0);
}
