use std::collections::VecDeque;

use super_pong::enemy::EnemyType;
use super_pong::level::{Level, LevelMessage, Tint};
use super_pong::stages::tutorial;

fn banner() -> LevelMessage {
    LevelMessage::ShowTitle { color: Tint { r: 1000, g: 0, b: 0 }, size: 60, text: "Hello".to_string() }
}

fn scripted() -> Level {
    let events = VecDeque::from(vec![
        banner(),
        LevelMessage::ChangeWaitingTime(4_000),
        LevelMessage::SpawnEnemy(EnemyType::Target),
        LevelMessage::SpawnEnemy(EnemyType::Target),
    ]);
    Level::new(2, 2_000, events)
}

#[test]
fn scripted_level_runs_in_order() {
    let mut level = scripted();
    assert!(matches!(level.progress(0), LevelMessage::ShowTitle { size: 60, .. }));
    assert!(matches!(level.progress(0), LevelMessage::Idle));
    assert!(matches!(level.progress(4_000), LevelMessage::SpawnEnemy(EnemyType::Target)));
    assert_eq!(level.enemies, 1);
    assert_eq!(level.event_duration, 4_000);
    assert!(matches!(level.progress(4_000), LevelMessage::Idle));
    assert!(matches!(level.progress(8_000), LevelMessage::Idle));
    assert!(matches!(level.progress(8_001), LevelMessage::SpawnEnemy(EnemyType::Target)));
    assert_eq!(level.enemies, 2);
    assert_eq!(level.remaining(), 0);
    level.kill();
    level.kill();
    assert!(matches!(level.progress(12_002), LevelMessage::Done));
}

#[test]
fn early_progress_changes_nothing() {
    let mut level = scripted();
    level.progress(100);
    let before = (level.enemies, level.event_duration, level.last_event, level.remaining());
    for now in [100, 500, 2_000, 2_100] {
        assert!(matches!(level.progress(now), LevelMessage::Idle));
        assert_eq!((level.enemies, level.event_duration, level.last_event, level.remaining()), before);
    }
}

#[test]
fn empty_queue_waits_for_enemies() {
    let events = VecDeque::from(vec![LevelMessage::SpawnEnemy(EnemyType::Target)]);
    let mut level = Level::new(3, 1_000, events);
    assert!(matches!(level.progress(0), LevelMessage::SpawnEnemy(_)));
    for k in 1..6u64 {
        assert!(matches!(level.progress(k * 5_000), LevelMessage::Idle));
        assert_eq!(level.enemies, 1);
    }
    level.kill();
    assert!(matches!(level.progress(40_000), LevelMessage::Done));
    assert!(matches!(level.progress(50_000), LevelMessage::Done));
}

#[test]
fn cap_holds_back_spawns() {
    let events = VecDeque::from(vec![
        LevelMessage::SpawnEnemy(EnemyType::Target),
        LevelMessage::SpawnEnemy(EnemyType::Bat),
    ]);
    let mut level = Level::new(1, 10, events);
    assert!(matches!(level.progress(0), LevelMessage::SpawnEnemy(EnemyType::Target)));
    for now in [100, 1_000, 100_000] {
        assert!(matches!(level.progress(now), LevelMessage::Idle));
        assert!(level.enemies <= level.enemy_limit);
    }
    level.kill();
    assert!(matches!(level.progress(200_000), LevelMessage::SpawnEnemy(EnemyType::Bat)));
    assert_eq!(level.enemies, 1);
}

#[test]
fn trailing_wait_change_ends_the_script() {
    let events = VecDeque::from(vec![LevelMessage::ChangeWaitingTime(7_000)]);
    let mut level = Level::new(1, 10, events);
    assert!(matches!(level.progress(0), LevelMessage::Done));
    assert_eq!(level.event_duration, 7_000);
    assert_eq!(level.remaining(), 0);
}

#[test]
fn empty_script_is_done_at_once() {
    let mut level = Level::new(0, 10, VecDeque::new());
    assert!(matches!(level.progress(0), LevelMessage::Idle));
    let mut level = Level::new(1, 10, VecDeque::new());
    assert!(matches!(level.progress(0), LevelMessage::Done));
}

#[test]
fn tutorial_script() {
    let level = tutorial();
    assert_eq!(level.enemy_limit, 2);
    assert_eq!(level.event_duration, 2_000);
    assert_eq!(level.remaining(), 18);
    assert_eq!(level.events_count, 18);
    let spawns = level.events.iter().filter(|m| matches!(m, LevelMessage::SpawnEnemy(EnemyType::Target))).count();
    assert_eq!(spawns, 6);
    let waits: Vec<u64> = level
        .events
        .iter()
        .filter_map(|m| match m {
            LevelMessage::ChangeWaitingTime(ms) => Some(*ms),
            _ => None,
        })
        .collect();
    assert_eq!(waits, vec![4_000, 5_000, 1_000, 6_000, 1_000, 5_000]);
    let titles: Vec<String> = level
        .events
        .iter()
        .filter_map(|m| match m {
            LevelMessage::ShowTitle { text, .. } => Some(text.clone()),
            _ => None,
        })
        .collect();
    assert_eq!(titles.len(), 6);
    assert_eq!(titles[5], "You can return an extra hard projectile back by touching it with the side of your paddle.");
    assert!(matches!(level.events[17], LevelMessage::SpawnEnemy(EnemyType::Target)));
    match &level.events[0] {
        LevelMessage::ShowTitle { color, size, text } => {
            assert_eq!(*color, Tint { r: 900, g: 300, b: 100 });
            assert_eq!(*size, 70);
            assert_eq!(text, "Tutorial Stage");
        }
        _ => panic!("the tutorial opens with its title"),
    }
}
