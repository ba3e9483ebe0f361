use std::collections::HashSet;

use frijoles::assets::{check_if_loaded, AssetKind, AssetStatus};
use frijoles::background::{initialize_background, move_background, Velocity};
use frijoles::collision::{handle_collisions, Collision};
use frijoles::constants::{
    BACKGROUND_SPEED, ENEMY_COLLIDER_SIZE, ENEMY_VELOCITY_X, HALF_WIDTH, MAX_X, MIN_X, PERIOD_US,
    SCALE, SPAWN_HEIGHT, WIDTH,
};
use frijoles::enemy::{
    despawn_nonvisible_enemies, spawn_enemy, spawn_random_enemy, Enemy, Obstacle,
};
use frijoles::game::Game;
use frijoles::score::{update_score, Score};
use frijoles::state::GameState;
use frijoles::timer::SecondTimer;

const ALL: [AssetKind; 5] = [
    AssetKind::PlayerRun,
    AssetKind::EnemyRed,
    AssetKind::EnemyYellow,
    AssetKind::Background,
    AssetKind::Soundtrack,
];

fn all_ready() -> AssetStatus {
    let mut a = AssetStatus::pending();
    for k in ALL {
        a.set(k, true);
    }
    a
}

fn obstacle(id: u64, visible: bool) -> Obstacle {
    Obstacle {
        id,
        kind: Enemy::FrijolAmarillo,
        x: 0,
        y: SPAWN_HEIGHT,
        z: 0,
        velocity_x: ENEMY_VELOCITY_X,
        collider_radius: ENEMY_COLLIDER_SIZE,
        collider_length: ENEMY_COLLIDER_SIZE,
        visible,
    }
}

#[test]
fn gate_stays_shut_while_pending() {
    let mut state = GameState::initial();
    check_if_loaded(&AssetStatus::pending(), &mut state);
    assert_eq!(state, GameState::AssetLoading);
}

#[test]
fn gate_opens_when_all_ready() {
    let mut state = GameState::AssetLoading;
    check_if_loaded(&all_ready(), &mut state);
    assert_eq!(state, GameState::InGame);
}

#[test]
fn gate_needs_every_asset() {
    for k in ALL {
        let mut a = all_ready();
        a.set(k, false);
        assert!(!a.all_loaded());
        let mut state = GameState::AssetLoading;
        check_if_loaded(&a, &mut state);
        assert_eq!(state, GameState::AssetLoading);
    }
}

#[test]
fn gate_over_every_subset() {
    for mask in 0u32..32 {
        let mut a = AssetStatus::pending();
        for (i, k) in ALL.iter().enumerate() {
            a.set(*k, mask & (1 << i) != 0);
        }
        let mut state = GameState::AssetLoading;
        check_if_loaded(&a, &mut state);
        let expected = if mask == 31 { GameState::InGame } else { GameState::AssetLoading };
        assert_eq!(state, expected);
    }
}

#[test]
fn gate_leaves_other_phases_alone() {
    let mut state = GameState::Menu;
    check_if_loaded(&all_ready(), &mut state);
    assert_eq!(state, GameState::Menu);
}

#[test]
fn background_starts_side_by_side() {
    let b = initialize_background(Velocity(BACKGROUND_SPEED));
    assert_eq!(b.tiles, vec![0, MAX_X + HALF_WIDTH]);
    assert_eq!(b.tiles[1] - b.tiles[0], WIDTH);
    assert_eq!(b.velocity.0, 2);
}

#[test]
fn background_moves_both_tiles() {
    let mut b = initialize_background(Velocity(2));
    move_background(&mut b, 1_000_000);
    assert_eq!(b.tiles, vec![-2 * SCALE, 14 * SCALE]);
}

#[test]
fn background_reseats_exactly_at_edge() {
    let mut b = initialize_background(Velocity(2));
    move_background(&mut b, 8_000_000);
    assert_eq!(b.tiles, vec![16 * SCALE, 0]);
    assert_eq!(b.tiles[0] - b.tiles[1], WIDTH);
}

#[test]
fn background_reseat_carries_overshoot() {
    let mut b = initialize_background(Velocity(2));
    move_background(&mut b, 8_500_000);
    let moved = -17 * SCALE;
    let overshoot = MIN_X - (moved + HALF_WIDTH);
    assert_eq!(overshoot, SCALE);
    assert_eq!(b.tiles, vec![WIDTH + overshoot, -SCALE]);
}

#[test]
fn background_finds_left_tile_in_either_order() {
    let mut b = initialize_background(Velocity(2));
    b.tiles = vec![16 * SCALE, 0];
    move_background(&mut b, 1_000_000);
    assert_eq!(b.tiles, vec![14 * SCALE, -2 * SCALE]);
    b.tiles = vec![-15 * SCALE, SCALE];
    move_background(&mut b, 500_000);
    assert_eq!(b.tiles, vec![16 * SCALE, 0]);
}

#[test]
fn background_seam_holds_over_many_frames() {
    let mut b = initialize_background(Velocity(2));
    for _ in 0..2000 {
        move_background(&mut b, 4_000);
        let gap = (b.tiles[0] - b.tiles[1]).abs();
        assert_eq!(gap, WIDTH);
    }
}

#[test]
fn timer_pulses_once_per_second() {
    let mut t = SecondTimer::new();
    t.tick(999_999);
    assert!(!t.just_finished());
    t.tick(1);
    assert!(t.just_finished());
    assert_eq!(t.elapsed_us, 0);
    t.tick(10);
    assert!(!t.just_finished());
    assert_eq!(t.elapsed_us, 10);
}

#[test]
fn timer_default_is_fresh() {
    let t = SecondTimer::default();
    assert_eq!(t.elapsed_us, 0);
    assert!(!t.finished);
}

#[test]
fn timer_keeps_remainder_of_long_tick() {
    let mut t = SecondTimer::new();
    t.tick(2_500_000);
    assert!(t.just_finished());
    assert_eq!(t.elapsed_us, 500_000);
}

#[test]
fn spawn_cadence_matches_whole_seconds() {
    for step in [16_667u64, 250_000, 333_333, 1_000_000, 7] {
        let mut t = SecondTimer::new();
        let mut pulses = 0u64;
        let mut total = 0u64;
        while total + step <= 5_400_000 {
            t.tick(step);
            total += step;
            if t.just_finished() {
                pulses += 1;
            }
        }
        assert_eq!(pulses, total / PERIOD_US);
    }
}

#[test]
fn score_rises_by_ten_on_pulse() {
    let mut score = Score::new();
    let mut t = SecondTimer::new();
    t.tick(400_000);
    update_score(&mut score, &t);
    assert_eq!(score, Score(0));
    t.tick(600_000);
    update_score(&mut score, &t);
    assert_eq!(score, Score(10));
    t.tick(1_000_000);
    update_score(&mut score, &t);
    assert_eq!(score, Score(20));
}

#[test]
fn score_counts_pulses_over_a_session() {
    let mut score = Score::new();
    let mut t = SecondTimer::new();
    let mut last = 0;
    for _ in 0..600 {
        t.tick(16_667);
        update_score(&mut score, &t);
        assert!(score.0 >= last);
        last = score.0;
    }
    assert_eq!(score.0, 10 * (600 * 16_667 / 1_000_000));
}

#[test]
fn spawn_enemy_places_yellow_obstacle() {
    let mut enemies = vec![obstacle(3, true)];
    spawn_enemy(&mut enemies, Enemy::FrijolAmarillo, 7, 2 * SCALE, SPAWN_HEIGHT);
    assert_eq!(enemies.len(), 2);
    let o = enemies[1];
    assert_eq!(o.id, 7);
    assert_eq!(o.kind, Enemy::FrijolAmarillo);
    assert_eq!((o.x, o.y, o.z), (2 * SCALE, 5 * SCALE, 0));
    assert_eq!(o.velocity_x, -1);
    assert!(!o.visible);
}

#[test]
fn spawn_random_enemy_only_on_pulse() {
    let mut enemies = Vec::new();
    let mut t = SecondTimer::new();
    t.tick(500_000);
    assert!(!spawn_random_enemy(&mut enemies, &t, 1));
    assert!(enemies.is_empty());
    t.tick(500_000);
    assert!(spawn_random_enemy(&mut enemies, &t, 1));
    assert_eq!(enemies.len(), 1);
    assert!(MIN_X <= enemies[0].x && enemies[0].x < MAX_X);
    assert_eq!(enemies[0].y, SPAWN_HEIGHT);
}

#[test]
fn spawn_random_enemy_spreads_positions() {
    let mut enemies = Vec::new();
    let mut t = SecondTimer::new();
    t.tick(1_000_000);
    for id in 0..64u64 {
        spawn_random_enemy(&mut enemies, &t, id);
    }
    assert_eq!(enemies.len(), 64);
    assert!(enemies.iter().all(|o| MIN_X <= o.x && o.x < MAX_X));
    assert!(enemies.iter().any(|o| o.x != enemies[0].x));
}

#[test]
fn reaper_removes_unseen_obstacles() {
    let mut enemies = vec![obstacle(1, true), obstacle(2, false), obstacle(3, true), obstacle(4, false)];
    despawn_nonvisible_enemies(&mut enemies);
    let ids: Vec<u64> = enemies.iter().map(|o| o.id).collect();
    assert_eq!(ids, vec![1, 3]);
}

#[test]
fn reaper_on_empty_set() {
    let mut enemies: Vec<Obstacle> = Vec::new();
    despawn_nonvisible_enemies(&mut enemies);
    assert!(enemies.is_empty());
}

#[test]
fn collision_with_player_ends_session() {
    let mut enemies = vec![obstacle(1, true), obstacle(2, true)];
    let mut state = GameState::InGame;
    let events = vec![Collision { entity1: 2, entity2: 0 }];
    handle_collisions(&events, 0, &mut enemies, &mut state);
    assert_eq!(state, GameState::Menu);
    assert_eq!(enemies.len(), 1);
    assert_eq!(enemies[0].id, 1);
}

#[test]
fn collision_order_does_not_matter() {
    let mut enemies = vec![obstacle(1, true), obstacle(2, true)];
    let mut state = GameState::InGame;
    let events = vec![Collision { entity1: 0, entity2: 1 }, Collision { entity1: 2, entity2: 0 }];
    handle_collisions(&events, 0, &mut enemies, &mut state);
    assert_eq!(state, GameState::Menu);
    assert!(enemies.is_empty());
}

#[test]
fn collision_between_enemies_is_ignored() {
    let mut enemies = vec![obstacle(1, true), obstacle(2, true)];
    let mut state = GameState::InGame;
    let events = vec![Collision { entity1: 1, entity2: 2 }, Collision { entity1: 1, entity2: 9 }];
    handle_collisions(&events, 0, &mut enemies, &mut state);
    assert_eq!(state, GameState::InGame);
    assert_eq!(enemies.len(), 2);
}

#[test]
fn game_starts_loading() {
    let g = Game::new();
    assert_eq!(g.state, GameState::AssetLoading);
    assert_eq!(g.score, Score(0));
    assert!(g.enemies.is_empty());
    assert_eq!(g.background.tiles, vec![0, WIDTH]);
}

#[test]
fn game_loading_frames_wait_for_assets() {
    let mut g = Game::new();
    g.frame(2_000_000, &Vec::new());
    assert_eq!(g.state, GameState::AssetLoading);
    assert_eq!(g.score, Score(0));
    assert_eq!(g.background.tiles, vec![0, WIDTH]);
    g.assets = all_ready();
    g.frame(16_000, &Vec::new());
    assert_eq!(g.state, GameState::InGame);
}

#[test]
fn game_plays_and_ends_on_hit() {
    let mut g = Game::new();
    g.assets = all_ready();
    g.frame(0, &Vec::new());
    assert_eq!(g.state, GameState::InGame);
    g.frame(1_000_000, &Vec::new());
    assert_eq!(g.score, Score(10));
    assert_eq!(g.enemies.len(), 1);
    assert_eq!(g.background.tiles, vec![-2 * SCALE, 14 * SCALE]);
    let id = g.enemies[0].id;
    assert_ne!(id, g.player);
    g.enemies[0].visible = true;
    g.frame(100_000, &Vec::new());
    assert_eq!(g.enemies.len(), 1);
    let events = vec![Collision { entity1: g.player, entity2: id }];
    g.frame(100_000, &events);
    assert_eq!(g.state, GameState::Menu);
    assert!(g.enemies.is_empty());
    let score = g.score;
    g.frame(5_000_000, &Vec::new());
    assert_eq!(g.state, GameState::Menu);
    assert_eq!(g.score, score);
}

#[test]
fn game_reaps_unseen_obstacles() {
    let mut g = Game::new();
    g.assets = all_ready();
    g.frame(0, &Vec::new());
    g.frame(1_000_000, &Vec::new());
    assert_eq!(g.enemies.len(), 1);
    g.frame(10_000, &Vec::new());
    assert!(g.enemies.is_empty());
}

#[test]
fn session_obstacles_grow_at_most_once_per_pulse() {
    let mut g = Game::new();
    g.assets = all_ready();
    g.frame(0, &Vec::new());
    let mut pulses = 0u32;
    for _ in 0..300 {
        for o in g.enemies.iter_mut() {
            o.visible = true;
        }
        let before = g.enemies.len();
        g.frame(33_333, &Vec::new());
        if g.timer.just_finished() {
            pulses += 1;
            assert_eq!(g.enemies.len(), before + 1);
        } else {
            assert_eq!(g.enemies.len(), before);
        }
    }
    assert_eq!(pulses as u64, 300 * 33_333 / PERIOD_US);
    assert_eq!(g.enemies.len() as u32, pulses);
    assert_eq!(g.score.0, 10 * pulses);
    let ids: HashSet<u64> = g.enemies.iter().map(|o| o.id).collect();
    assert_eq!(ids.len(), g.enemies.len());
}
