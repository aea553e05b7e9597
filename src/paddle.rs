//! The player's paddle: its health, its aim, and the id the overlap query
//! knows it by.
use vstd::prelude::*;

verus! {

/// Health of a fresh paddle: three hit points.
pub const MAX_HEALTH: u64 = 3_000_000;

/// Health regained per millisecond: 0.03 hit points per second.
pub const REGENERATION: u64 = 30;

/// The smallest aim angle, in milliradians (a quarter of pi).
pub const MIN_ROTATION: i64 = 785;

/// The largest aim angle, in milliradians (three quarters of pi).
pub const MAX_ROTATION: i64 = 2356;

/// How fast the aim turns, in milliradians per millisecond.
pub const TURN_RATE: i64 = 3;

/// The paddle.
#[derive(Clone, Copy, Debug, PartialEq, Eq, Structural)]
pub struct Paddle {
    /// The id under which the overlap query reports the paddle.
    pub id: usize,
    pub health: u64,
    pub max_health: u64,
    /// The angle of the aim arrow in milliradians.
    pub rotation: i64,
}

/// `v` held within `[lo, hi]`.
pub open spec fn clamp(v: int, lo: int, hi: int) -> int {
    if v < lo {
        lo
    } else if v > hi {
        hi
    } else {
        v
    }
}

impl Paddle {
    pub open spec fn wf(self) -> bool {
        &&& self.health <= self.max_health <= MAX_HEALTH
        &&& MIN_ROTATION <= self.rotation <= MAX_ROTATION
    }

    /// A paddle at full health, aiming straight ahead.
    pub fn new(id: usize) -> (r: Paddle)
        ensures
            r.wf(),
            r == (Paddle { id, health: MAX_HEALTH, max_health: MAX_HEALTH, rotation: 1571 }),
    {
        Paddle { id, health: MAX_HEALTH, max_health: MAX_HEALTH, rotation: 1571 }
    }

    /// Takes `damage`; health does not go below zero.
    pub fn damage(&mut self, damage: u64)
        requires
            old(self).wf(),
        ensures
            final(self).wf(),
            *final(self) == (Paddle {
                health: if old(self).health >= damage { (old(self).health - damage) as u64 } else { 0 },
                ..*old(self)
            }),
    {
        self.health = self.health.saturating_sub(damage);
    }

    /// Regains health over `dt` milliseconds, up to its maximum.
    pub fn regenerate(&mut self, dt: u32)
        requires
            old(self).wf(),
        ensures
            final(self).wf(),
            *final(self) == (Paddle {
                health: clamp(old(self).health + REGENERATION * dt, 0, old(self).max_health as int) as u64,
                ..*old(self)
            }),
    {
        let gained: u64 = self.health + REGENERATION * dt as u64;
        self.health = if gained > self.max_health {
            self.max_health
        } else {
            gained
        };
    }

    /// Whether it has no health left, which ends the attempt.
    pub fn destroyed(&self) -> (r: bool)
        ensures
            r == (self.health == 0),
    {
        self.health == 0
    }

    /// Turns the aim over `dt` milliseconds: down while `left` is held, up
    /// while `right` is held, within a quarter turn each side of straight.
    pub fn steer(&mut self, left: bool, right: bool, dt: u32)
        requires
            old(self).wf(),
        ensures
            final(self).wf(),
            *final(self) == (Paddle {
                rotation: clamp(
                    old(self).rotation - (if left { TURN_RATE * dt } else { 0 }) + (if right {
                        TURN_RATE * dt
                    } else {
                        0
                    }),
                    MIN_ROTATION as int,
                    MAX_ROTATION as int,
                ) as i64,
                ..*old(self)
            }),
    {
        let turn: i64 = TURN_RATE * dt as i64;
        let mut rotation: i64 = self.rotation;
        if left {
            rotation = rotation - turn;
        }
        if right {
            rotation = rotation + turn;
        }
        self.rotation = if rotation < MIN_ROTATION {
            MIN_ROTATION
        } else if rotation > MAX_ROTATION {
            MAX_ROTATION
        } else {
            rotation
        };
    }
}

} // verus!
