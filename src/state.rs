//! Progress kept between sessions: stage, score and kills.
use vstd::prelude::*;

verus! {

/// Damage per point of score: a kill by a one-point projectile is worth 100.
pub const DAMAGE_PER_POINT: u64 = 10_000;

/// `a + b`, held at `u32::MAX`.
pub open spec fn sat_add(a: u32, b: int) -> u32 {
    if a + b > u32::MAX {
        u32::MAX
    } else {
        (a + b) as u32
    }
}

/// The score a kill by a projectile of damage `damage` is worth.
pub open spec fn kill_points(damage: u64) -> int {
    damage as int / DAMAGE_PER_POINT as int
}

/// The counters of a player's progress. Each one stops at `u32::MAX`.
#[derive(Clone, Copy, Debug, PartialEq, Eq, Structural)]
pub struct GameState {
    /// Levels completed.
    pub stage: u32,
    pub score: u32,
    pub kills: u32,
}

impl GameState {
    /// It after one kill by a projectile of damage `damage`.
    pub open spec fn killed(self, damage: u64) -> GameState {
        GameState {
            kills: sat_add(self.kills, 1),
            score: sat_add(self.score, kill_points(damage)),
            ..self
        }
    }

    /// A fresh start: everything zero.
    pub fn new() -> (r: GameState)
        ensures
            r == (GameState { stage: 0, score: 0, kills: 0 }),
    {
        GameState { stage: 0, score: 0, kills: 0 }
    }

    /// Counts one kill by a projectile of damage `damage`: one more kill and
    /// a hundred points per point of damage.
    pub fn record_kill(&mut self, damage: u64)
        ensures
            *final(self) == old(self).killed(damage),
    {
        self.kills = self.kills.saturating_add(1);
        let points = damage / DAMAGE_PER_POINT;
        let points: u32 = if points > u32::MAX as u64 {
            u32::MAX
        } else {
            points as u32
        };
        self.score = self.score.saturating_add(points);
    }

    /// Counts one completed level.
    pub fn complete_stage(&mut self)
        ensures
            *final(self) == (GameState { stage: sat_add(old(self).stage, 1), ..*old(self) }),
    {
        self.stage = self.stage.saturating_add(1);
    }
}

impl Default for GameState {
    fn default() -> (r: GameState)
        ensures
            r == (GameState { stage: 0, score: 0, kills: 0 }),
    {
        GameState::new()
    }
}

} // verus!
