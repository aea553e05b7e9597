use std::collections::VecDeque;

use super_pong::enemy::{Enemy, EnemyMessage, EnemyType, Target};
use super_pong::settings::{GameScene, Message};
use super_pong::game_loop::{CombatEvent, Loop, Tick};
use super_pong::level::{Level, LevelMessage};
use super_pong::paddle::Paddle;
use super_pong::projectile::{Projectile, ProjectileType, Square, Vec2i};
use super_pong::state::GameState;

const PADDLE: usize = 1;

fn session_with_targets(n: u32) -> Loop {
    let mut events = VecDeque::new();
    for _ in 0..n {
        events.push_back(LevelMessage::SpawnEnemy(EnemyType::Target));
    }
    let mut game = Loop::new(GameState::new(), PADDLE);
    game.level = Some(Level::new(n, 0, events));
    for i in 0..n {
        let message = game.advance_level(1_000 * (i as u64 + 1));
        assert!(matches!(message, LevelMessage::SpawnEnemy(EnemyType::Target)));
        assert!(game.spawn_enemy(Enemy::Target(Target::new(100 + i as usize, 0, 0, 0))));
    }
    game
}

fn shot(id: usize, x: i64, friendly: bool) -> Projectile {
    let mut p = ProjectileType::Square.spawn(id, Vec2i { x, y: 0 }, Vec2i { x: -1_000, y: 0 }, 50_000);
    if friendly {
        p.rebound(Vec2i { x: 1_000, y: 0 });
    }
    p
}

fn tick(now: u64) -> Tick {
    Tick { now, dt: 10, aim: Vec2i { x: 1_000, y: 200 } }
}

fn hp(game: &Loop, i: usize) -> i64 {
    match game.enemies[i] {
        Enemy::Target(t) => t.hp,
    }
}

#[test]
fn friendly_hit_then_kill() {
    let mut game = session_with_targets(1);
    game.add_projectile(shot(7, 3_000_000, true));
    let events = game.resolve(&vec![vec![100]], tick(50_000));
    assert_eq!(events, vec![CombatEvent::EnemyHit(100), CombatEvent::Consumed(7)]);
    assert_eq!(hp(&game, 0), 1_000_000);
    assert!(game.projectiles.is_empty());
    assert_eq!(game.state, GameState { stage: 0, score: 0, kills: 0 });
    assert_eq!(game.level.as_ref().unwrap().enemies, 1);

    game.add_projectile(shot(8, 3_000_000, true));
    let events = game.resolve(&vec![vec![100]], tick(50_100));
    assert_eq!(events, vec![CombatEvent::EnemyKilled(100), CombatEvent::Consumed(8)]);
    assert!(game.enemies.is_empty());
    assert!(game.projectiles.is_empty());
    assert_eq!(game.state, GameState { stage: 0, score: 100, kills: 1 });
    assert_eq!(game.level.as_ref().unwrap().enemies, 0);
}

#[test]
fn level_done_after_kills() {
    let mut game = session_with_targets(2);
    assert!(matches!(game.advance_level(10_000), LevelMessage::Idle));
    for (k, id) in [(0u64, 100usize), (1, 101)] {
        for j in 0..2u64 {
            let pid = 10 + (2 * k + j) as usize;
            game.add_projectile(shot(pid, 3_000_000, true));
            game.resolve(&vec![vec![id]], tick(20_000 + 10 * (2 * k + j)));
        }
    }
    assert!(game.enemies.is_empty());
    assert_eq!(game.state.kills, 2);
    assert_eq!(game.state.score, 200);
    assert!(matches!(game.advance_level(30_000), LevelMessage::Done));
    assert!(game.level.is_none());
    assert_eq!(game.state.stage, 1);
}

#[test]
fn miss_moves_friendly_projectile() {
    let mut game = session_with_targets(1);
    game.add_projectile(shot(7, 3_000_000, true));
    let events = game.resolve(&vec![vec![55]], tick(50_000));
    assert!(events.is_empty());
    assert_eq!(game.projectiles.len(), 1);
    assert_eq!(game.projectiles[0].position(), Vec2i { x: 3_010_000, y: 0 });
    assert_eq!(hp(&game, 0), 2_000_000);
}

#[test]
fn hostile_past_the_paddle_hurts_it() {
    let mut game = session_with_targets(1);
    game.add_projectile(shot(9, -1, false));
    let events = game.resolve(&vec![vec![PADDLE]], tick(50_000));
    assert_eq!(events, vec![CombatEvent::PaddleHit(9)]);
    assert!(game.projectiles.is_empty());
    assert_eq!(game.paddle.health, 2_000_000);
    let events = game.resolve(&vec![], tick(50_010));
    assert!(events.is_empty());
    assert_eq!(game.paddle.health, 2_000_000);
}

#[test]
fn plain_and_critical_rebounds() {
    let mut game = session_with_targets(1);
    game.add_projectile(shot(20, 500_000, false));
    game.add_projectile(shot(21, 50_000, false));
    let events = game.resolve(&vec![vec![PADDLE], vec![PADDLE]], tick(50_000));
    assert_eq!(events, vec![CombatEvent::Rebound(20), CombatEvent::CriticalRebound(21)]);
    let Projectile::Square(plain) = game.projectiles[0];
    let Projectile::Square(hard) = game.projectiles[1];
    assert!(plain.friendly && hard.friendly);
    assert_eq!(plain.direction, Vec2i { x: 1_000, y: 200 });
    assert_eq!(hard.direction, Vec2i { x: 2_000, y: 400 });
    assert_eq!(game.projectiles[0].damage(), 1_000_000);
    assert_eq!(game.projectiles[1].damage(), 2_000_000);
    assert_eq!(hard.position, Vec2i { x: 70_000, y: 4_000 });
}

#[test]
fn old_projectiles_expire() {
    let mut game = session_with_targets(1);
    game.add_projectile(shot(30, 3_000_000, true));
    game.add_projectile(shot(31, -5, false));
    let events = game.resolve(&vec![vec![100], vec![PADDLE]], tick(70_001));
    assert_eq!(events, vec![CombatEvent::Expired(30), CombatEvent::Expired(31)]);
    assert!(game.projectiles.is_empty());
    assert_eq!(hp(&game, 0), 2_000_000);
    assert_eq!(game.paddle.health, 3_000_000);
}

#[test]
fn projectile_at_exactly_twenty_seconds_lives() {
    let mut game = session_with_targets(1);
    game.add_projectile(shot(32, 3_000_000, false));
    let events = game.resolve(&vec![vec![]], tick(70_000));
    assert!(events.is_empty());
    assert_eq!(game.projectiles.len(), 1);
}

#[test]
fn one_projectile_hits_two_enemies() {
    let mut game = session_with_targets(2);
    let mut p = shot(40, 3_000_000, true);
    p.damage_multiplier(2);
    game.add_projectile(p);
    let events = game.resolve(&vec![vec![100, 101]], tick(50_000));
    assert_eq!(
        events,
        vec![CombatEvent::EnemyKilled(100), CombatEvent::EnemyKilled(101), CombatEvent::Consumed(40)]
    );
    assert_eq!(game.state, GameState { stage: 0, score: 400, kills: 2 });
    assert_eq!(game.level.as_ref().unwrap().enemies, 0);
}

#[test]
fn spawn_needs_a_place() {
    let mut game = Loop::new(GameState::new(), PADDLE);
    assert!(!game.spawn_enemy(Enemy::Target(Target::new(5, 0, 0, 0))));
    assert!(matches!(game.advance_level(0), LevelMessage::Idle));
    assert!(game.level.is_some());
    assert!(!game.spawn_enemy(Enemy::Target(Target::new(5, 0, 0, 0))));
}

#[test]
fn later_stages_have_no_level_yet() {
    let mut game = Loop::new(GameState { stage: 1, score: 0, kills: 0 }, PADDLE);
    assert!(matches!(game.advance_level(0), LevelMessage::Idle));
    assert!(game.level.is_none());
}

#[test]
fn paddle_health_regenerates_and_clamps() {
    let mut paddle = Paddle::new(3);
    paddle.damage(5_000_000);
    assert_eq!(paddle.health, 0);
    assert!(paddle.destroyed());
    paddle.regenerate(1_000);
    assert_eq!(paddle.health, 30_000);
    paddle.regenerate(1_000_000);
    assert_eq!(paddle.health, 3_000_000);
}

#[test]
fn paddle_steering_stops_at_the_limits() {
    let mut paddle = Paddle::new(3);
    paddle.steer(true, false, 100);
    assert_eq!(paddle.rotation, 1_271);
    paddle.steer(true, false, 1_000);
    assert_eq!(paddle.rotation, 785);
    paddle.steer(false, true, 10_000);
    assert_eq!(paddle.rotation, 2_356);
    paddle.steer(true, true, 10);
    assert_eq!(paddle.rotation, 2_356);
}

#[test]
fn kill_score_saturates() {
    let mut state = GameState { stage: u32::MAX, score: u32::MAX - 50, kills: u32::MAX };
    state.record_kill(1_000_000);
    assert_eq!(state, GameState { stage: u32::MAX, score: u32::MAX, kills: u32::MAX });
    state.complete_stage();
    assert_eq!(state.stage, u32::MAX);
    let mut fresh = GameState::default();
    fresh.record_kill(2_000_000);
    fresh.complete_stage();
    assert_eq!(fresh, GameState { stage: 1, score: 200, kills: 1 });
}

#[test]
fn defeated_paddle_returns_to_menu() {
    let mut game = Loop::new(GameState::new(), PADDLE);
    game.paddle.damage(3_000_000);
    assert_eq!(game.regenerate(0), Some(Message::SwitchScene(GameScene::Menu)));
    assert_eq!(game.regenerate(10), None);
    assert_eq!(game.paddle.health, 300);
}

#[test]
fn enemies_fire_when_due() {
    let mut game = session_with_targets(2);
    let quiet = game.fire(5_000);
    assert_eq!(quiet, vec![EnemyMessage::Idle, EnemyMessage::Idle]);
    let shots = game.fire(5_001);
    assert_eq!(shots.len(), 2);
    for (i, m) in shots.iter().enumerate() {
        match *m {
            EnemyMessage::Shoot { projectile_type, position, direction } => {
                assert_eq!(position.x, 5_000_000);
                assert!(position.y >= -500_000 && position.y < 500_000);
                game.add_projectile(projectile_type.spawn(200 + i, position, direction, 5_001));
            }
            _ => panic!("both targets are due"),
        }
    }
    assert_eq!(game.projectiles.len(), 2);
    assert_eq!(game.fire(6_000), vec![EnemyMessage::Idle, EnemyMessage::Idle]);
}

#[test]
fn changing_stage_clears_the_field() {
    let mut game = session_with_targets(2);
    game.add_projectile(shot(50, 3_000_000, true));
    game.change_stage(4);
    assert_eq!(game.state.stage, 4);
    assert!(game.level.is_none() && game.enemies.is_empty() && game.projectiles.is_empty());
    assert!(matches!(game.advance_level(0), LevelMessage::Idle));
    assert!(game.level.is_none());
    game.change_stage(0);
    game.advance_level(0);
    assert_eq!(game.level.as_ref().unwrap().remaining(), 18);
}

#[test]
fn announcement_then_spawns_then_done() {
    let events = VecDeque::from(vec![
        LevelMessage::ShowTitle {
            color: super_pong::level::Tint { r: 1000, g: 1000, b: 1000 },
            size: 60,
            text: "Get ready".to_string(),
        },
        LevelMessage::ChangeWaitingTime(4_000),
        LevelMessage::SpawnEnemy(EnemyType::Target),
        LevelMessage::SpawnEnemy(EnemyType::Target),
    ]);
    let mut game = Loop::new(GameState::new(), PADDLE);
    game.level = Some(Level::new(2, 2_000, events));
    assert!(matches!(game.advance_level(0), LevelMessage::ShowTitle { .. }));
    assert!(matches!(game.advance_level(0), LevelMessage::Idle));
    assert!(matches!(game.advance_level(4_000), LevelMessage::SpawnEnemy(EnemyType::Target)));
    assert_eq!(game.level.as_ref().unwrap().enemies, 1);
    assert!(game.spawn_enemy(Enemy::Target(Target::new(100, 4_000, 0, 0))));
    assert!(matches!(game.advance_level(4_000), LevelMessage::Idle));
    assert!(matches!(game.advance_level(8_001), LevelMessage::SpawnEnemy(EnemyType::Target)));
    assert!(game.spawn_enemy(Enemy::Target(Target::new(101, 8_001, 0, 0))));
    assert_eq!(game.level.as_ref().unwrap().enemies, 2);
    let mut pid = 300;
    for id in [100usize, 101] {
        for _ in 0..2 {
            game.add_projectile(shot(pid, 3_000_000, true));
            game.resolve(&vec![vec![id]], tick(60_000));
            pid += 1;
        }
    }
    assert!(game.enemies.is_empty());
    assert_eq!(game.level.as_ref().unwrap().enemies, 0);
    assert!(matches!(game.advance_level(12_002), LevelMessage::Done));
    assert_eq!(game.state, GameState { stage: 1, score: 200, kills: 2 });
}
