//! The level scripts, one per stage.
use std::collections::VecDeque;
use vstd::prelude::*;

use crate::enemy::EnemyType;
use crate::level::{Level, LevelMessage, Tint};

verus! {

pub const TUTORIAL_TITLE: &'static str = "Tutorial Stage";

pub const HINT_MOVE: &'static str = "Move your mouse up and down to control your paddle.";

pub const HINT_AIM: &'static str = "To move the arrow press the mouse buttons.";

pub const HINT_RETURN: &'static str = "By touching the projectiles you send them to where the arrow is pointing.";

pub const HINT_DAMAGE: &'static str = "Hit the enemies with their projectiles to damage them.";

pub const HINT_EDGE: &'static str = "You can return an extra hard projectile back by touching it with the side of your paddle.";

/// The colour of the tutorial's announcements.
pub open spec fn tutorial_tint() -> Tint {
    Tint { r: 900, g: 300, b: 100 }
}

/// Whether `m` announces `text` in the tutorial's colour at glyph size
/// `size`.
pub open spec fn is_title(m: LevelMessage, size: u32, text: Seq<char>) -> bool {
    m matches LevelMessage::ShowTitle { color, size: s, text: t } && color == tutorial_tint() && s == size
        && t@ == text
}

/// Whether `m` spawns a target.
pub open spec fn spawns_target(m: LevelMessage) -> bool {
    m == LevelMessage::SpawnEnemy(EnemyType::Target)
}

/// Whether `m` sets the waiting time to `ms` milliseconds.
pub open spec fn waits(m: LevelMessage, ms: u64) -> bool {
    m == LevelMessage::ChangeWaitingTime(ms)
}

/// Whether `q` is the tutorial's script, event by event.
pub open spec fn tutorial_script(q: Seq<LevelMessage>) -> bool {
    &&& q.len() == 18
    &&& is_title(q[0], 70, TUTORIAL_TITLE@)
    &&& waits(q[1], 4_000)
    &&& is_title(q[2], 60, HINT_MOVE@)
    &&& is_title(q[3], 60, HINT_AIM@)
    &&& is_title(q[4], 60, HINT_RETURN@)
    &&& spawns_target(q[5])
    &&& waits(q[6], 5_000)
    &&& is_title(q[7], 60, HINT_DAMAGE@)
    &&& waits(q[8], 1_000)
    &&& spawns_target(q[9])
    &&& spawns_target(q[10])
    &&& waits(q[11], 6_000)
    &&& is_title(q[12], 60, HINT_EDGE@)
    &&& waits(q[13], 1_000)
    &&& spawns_target(q[14])
    &&& spawns_target(q[15])
    &&& waits(q[16], 5_000)
    &&& spawns_target(q[17])
}

/// Whether `l` is the tutorial level before its first event.
pub open spec fn is_tutorial(l: Level) -> bool {
    &&& l.wf()
    &&& l.enemy_limit == 2
    &&& l.enemies == 0
    &&& l.event_duration == 2_000
    &&& l.last_event.is_none()
    &&& l.events_count == 18
    &&& tutorial_script(l.events@)
}

/// An announcement of the tutorial, in its orange, at glyph size `size`.
fn title(size: u32, text: &str) -> (r: LevelMessage)
    ensures
        is_title(r, size, text@),
{
    LevelMessage::ShowTitle { color: Tint { r: 900, g: 300, b: 100 }, size, text: text.to_owned() }
}

/// The first stage: it teaches the controls between its first targets.
/// Two targets at most are alive at once, and events come two seconds
/// apart until the script says otherwise.
pub fn tutorial() -> (r: Level)
    ensures
        is_tutorial(r),
{
    let mut events: VecDeque<LevelMessage> = VecDeque::new();
    events.push_back(title(70, TUTORIAL_TITLE));
    events.push_back(LevelMessage::ChangeWaitingTime(4_000));
    events.push_back(title(60, HINT_MOVE));
    events.push_back(title(60, HINT_AIM));
    events.push_back(title(60, HINT_RETURN));
    events.push_back(LevelMessage::SpawnEnemy(EnemyType::Target));
    events.push_back(LevelMessage::ChangeWaitingTime(5_000));
    events.push_back(title(60, HINT_DAMAGE));
    events.push_back(LevelMessage::ChangeWaitingTime(1_000));
    events.push_back(LevelMessage::SpawnEnemy(EnemyType::Target));
    events.push_back(LevelMessage::SpawnEnemy(EnemyType::Target));
    events.push_back(LevelMessage::ChangeWaitingTime(6_000));
    events.push_back(title(60, HINT_EDGE));
    events.push_back(LevelMessage::ChangeWaitingTime(1_000));
    events.push_back(LevelMessage::SpawnEnemy(EnemyType::Target));
    events.push_back(LevelMessage::SpawnEnemy(EnemyType::Target));
    events.push_back(LevelMessage::ChangeWaitingTime(5_000));
    events.push_back(LevelMessage::SpawnEnemy(EnemyType::Target));
    Level::new(2, 2_000, events)
}

} // verus!
