use super_pong::enemy::{Enemy, EnemyMessage, EnemyType, Target};
use super_pong::fade::Fade;
use super_pong::projectile::{ProjectileType, Square, Vec2i};
use super_pong::settings::{ButtonReport, ButtonState, Difficulty, Fullscreen, GameScene, GameSettings, Resolution};

#[test]
fn rebound_twice_stays_friendly_and_boosts_once() {
    let mut s = Square::new(1, Vec2i { x: 0, y: 0 }, Vec2i { x: -1_000, y: 0 }, 0);
    assert!(!s.friendly());
    s.damage_multiplier(2);
    s.rebound(Vec2i { x: 2_000, y: 0 });
    s.damage_multiplier(2);
    s.rebound(Vec2i { x: 2_000, y: 0 });
    assert!(s.friendly());
    assert_eq!(s.damage(), 2_000_000);
}

#[test]
fn square_bounces_off_the_top() {
    let mut s = Square::new(1, Vec2i { x: 0, y: 995_000 }, Vec2i { x: 100, y: 50 }, 0);
    s.update(10);
    assert_eq!(s.direction, Vec2i { x: 100, y: -50 });
    assert_eq!(s.position(), Vec2i { x: 1_000, y: 994_500 });
    let mut s = Square::new(1, Vec2i { x: 0, y: -995_000 }, Vec2i { x: 0, y: -50 }, 0);
    s.update(2);
    assert_eq!(s.direction, Vec2i { x: 0, y: 50 });
    assert_eq!(s.position(), Vec2i { x: 0, y: -994_900 });
}

#[test]
fn square_position_saturates() {
    let mut s = Square::new(1, Vec2i { x: i64::MAX - 5, y: 0 }, Vec2i { x: 1_000, y: 0 }, 0);
    s.update(100);
    assert_eq!(s.position().x, i64::MAX);
}

#[test]
fn square_age() {
    let s = Square::new(1, Vec2i { x: 0, y: 0 }, Vec2i { x: 0, y: 0 }, 1_000);
    assert_eq!(s.age(21_500), 20_500);
    assert_eq!(s.age(500), 0);
    let p = ProjectileType::Square.spawn(4, Vec2i { x: 1, y: 2 }, Vec2i { x: 3, y: 4 }, 9);
    assert_eq!(p.id(), 4);
    assert_eq!(p.age(10), 1);
    assert!(!p.friendly());
}

#[test]
fn target_takes_damage_only_when_named() {
    let mut t = Target::new(7, 0, 0, 0);
    assert_eq!(t.damage_if_id_right(&[1, 2, 3], 1_000_000, 50), (2_000_000, false));
    assert_eq!(t.last_hit, 0);
    assert!(!t.damaged());
    assert_eq!(t.damage_if_id_right(&[1, 7], 1_000_000, 50), (1_000_000, true));
    assert_eq!(t.last_hit, 50);
    assert!(t.damaged());
    assert!(t.flashing(249));
    assert!(!t.flashing(250));
    assert_eq!(t.damage_if_id_right(&[7], 1_000_000, 60), (0, true));
}

#[test]
fn target_home_from_draws() {
    let t = Target::new(1, 5, 500_000, 500_000);
    assert_eq!(t.position, Vec2i { x: 2_500_000, y: -240_000 });
    assert_eq!(t.hp, 2_000_000);
    let t = Target::new(1, 5, 999_999, 0);
    assert_eq!(t.position, Vec2i { x: 2_999_999, y: -840_000 });
}

#[test]
fn target_fires_every_five_seconds() {
    let mut t = Target::new(1, 0, 0, 0);
    assert_eq!(t.update_with(5_000, 500_000, 500_000), EnemyMessage::Idle);
    let m = t.update_with(5_001, 500_000, 500_000);
    assert_eq!(
        m,
        EnemyMessage::Shoot {
            projectile_type: ProjectileType::Square,
            position: Vec2i { x: 5_000_000, y: 0 },
            direction: Vec2i { x: -1_000, y: 0 },
        }
    );
    assert_eq!(t.last_shot, 5_001);
    assert_eq!(t.update_with(6_000, 0, 0), EnemyMessage::Idle);
}

#[test]
fn target_aims_at_an_angle() {
    let mut t = Target::new(1, 0, 0, 0);
    // from (5, 0.5) towards (0, -1): the way is (-5, -1.5), 5.220 long
    let m = t.update_with(10_000, 1_000_000 - 1, 0);
    match m {
        EnemyMessage::Shoot { position, direction, .. } => {
            assert_eq!(position, Vec2i { x: 5_000_000, y: 499_999 });
            assert_eq!(direction, Vec2i { x: -957, y: -287 });
        }
        _ => panic!("the target is due to fire"),
    }
}

#[test]
fn random_spawn_and_shot_stay_in_range() {
    for _ in 0..50 {
        let e = EnemyType::Target.spawn(3, 100).unwrap();
        let Enemy::Target(t) = e;
        assert!(t.position.x >= 2_000_000 && t.position.x < 3_000_000);
        assert!(t.position.y >= -840_000 && t.position.y < 360_000);
        let mut e = e;
        match e.update(5_101) {
            EnemyMessage::Shoot { position, direction, .. } => {
                assert!(position.y >= -500_000 && position.y < 500_000);
                assert!(direction.x < 0 && direction.x >= -1_000);
            }
            _ => panic!("due to fire"),
        }
    }
    assert!(EnemyType::Dragon.spawn(3, 0).is_none());
}

#[test]
fn banner_fade_curve() {
    let f = Fade::new(1_000, 1_000);
    assert_eq!(f.banner(1_000), Some(0));
    assert_eq!(f.banner(1_500), Some(500));
    assert_eq!(f.banner(2_000), Some(1_000));
    assert_eq!(f.banner(3_500), Some(1_000));
    assert_eq!(f.banner(4_250), Some(750));
    assert_eq!(f.banner(5_000), Some(0));
    assert_eq!(f.banner(5_001), None);
    assert_eq!(f.banner(0), Some(0));
}

#[test]
fn cover_fade_curve() {
    let f = Fade::new(0, 5_000);
    assert_eq!(f.cover(0), Some(1_000));
    assert_eq!(f.cover(2_500), Some(500));
    assert_eq!(f.cover(5_000), Some(0));
    assert_eq!(f.cover(5_001), None);
}

#[test]
fn default_settings() {
    let s = GameSettings::default();
    assert_eq!(s.difficulty, Difficulty::Hard);
    assert!(s.vsync);
    assert_eq!(s.fps_limit, 0);
    assert_eq!(s.fullscreen, Fullscreen::Exclusive);
    assert_eq!(s.resolution, Resolution { width: 455, height: 256 });
    assert!(s.particle_high);
    assert_eq!(s.screen_shake, 100);
    assert_eq!(GameScene::default(), GameScene::Menu);
}

#[test]
fn button_press_and_release() {
    let mut b = ButtonState::new();
    assert_eq!(b.update(true, true, false), None);
    assert!(b.hovered);
    assert_eq!(b.update(true, true, true), Some(ButtonReport::Pressed));
    assert_eq!(b.update(true, true, true), None);
    assert_eq!(b.update(true, true, false), Some(ButtonReport::Released));
    assert_eq!(b.update(true, true, true), Some(ButtonReport::Pressed));
    assert_eq!(b.update(true, false, false), None);
    assert_eq!(b, ButtonState { hovered: false, pressed: false });
    assert_eq!(b.update(true, true, false), None);
    assert_eq!(b.update(false, false, true), None);
}
