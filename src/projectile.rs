//! Projectiles: shots fired by enemies that the paddle can send back.
use vstd::prelude::*;

use crate::UNIT;

verus! {

/// The largest speed along either axis, in millionths of a unit per
/// millisecond.
pub const MAX_SPEED: i64 = 1_000_000_000;

/// The largest damage a projectile can carry before a multiplier.
pub const MAX_DAMAGE: u64 = 1_000_000_000_000;

/// The largest damage multiplier.
pub const MAX_MULTIPLIER: u64 = 4;

/// The age after which a projectile disappears, in milliseconds.
pub const TIME_TO_LIVE: u64 = 20_000;

/// Half the side of a projectile's square.
pub const HALF_SIZE: i64 = 10_000;

/// A point or a velocity in fixed point.
#[derive(Clone, Copy, Debug, PartialEq, Eq, Structural)]
pub struct Vec2i {
    pub x: i64,
    pub y: i64,
}

/// Whether both components of `v` stay within `bound` in size.
pub open spec fn within(v: Vec2i, bound: int) -> bool {
    -bound <= v.x <= bound && -bound <= v.y <= bound
}

/// `v` clamped into the range of `i64`.
pub open spec fn clamp_i64(v: int) -> i64 {
    if v < i64::MIN {
        i64::MIN
    } else if v > i64::MAX {
        i64::MAX
    } else {
        v as i64
    }
}

/// The kinds of projectile an enemy can fire.
#[derive(Clone, Copy, Debug, PartialEq, Eq, Structural)]
pub enum ProjectileType {
    Square,
}

/// What a projectile reports after moving.
#[derive(Clone, Debug, PartialEq, Eq)]
pub enum ProjectileMessage {
    Idle,
    Hit(Vec<usize>),
}

/// A small square shot. Hostile when fired; once sent back by the paddle it
/// is friendly for good.
#[derive(Clone, Copy, Debug, PartialEq, Eq, Structural)]
pub struct Square {
    /// The id under which the overlap query reports this projectile.
    pub id: usize,
    pub position: Vec2i,
    /// Millionths of a unit per millisecond.
    pub direction: Vec2i,
    /// When it was fired, in milliseconds.
    pub born: u64,
    pub friendly: bool,
    /// The damage before the multiplier.
    pub damage: u64,
    /// 1 until a critical rebound sets it, once.
    pub multiplier: u64,
}

/// A live projectile, of one of the kinds in `ProjectileType`.
#[derive(Clone, Copy, Debug, PartialEq, Eq, Structural)]
pub enum Projectile {
    Square(Square),
}

impl Square {
    pub open spec fn wf(self) -> bool {
        &&& within(self.direction, MAX_SPEED as int)
        &&& self.damage <= MAX_DAMAGE
        &&& 1 <= self.multiplier <= MAX_MULTIPLIER
    }

    /// The damage it deals on contact.
    pub open spec fn damage_spec(self) -> u64 {
        (self.damage * self.multiplier) as u64
    }

    /// Its age at time `now`; zero if `now` comes before its birth.
    pub open spec fn age_spec(self, now: u64) -> u64 {
        if now >= self.born {
            (now - self.born) as u64
        } else {
            0
        }
    }

    /// It after being sent back along `direction`: friendly from now on.
    pub open spec fn rebounded(self, direction: Vec2i) -> Square {
        Square { friendly: true, direction, ..self }
    }

    /// It after a multiplier offer: the first one above 1 sticks, later
    /// ones change nothing.
    pub open spec fn multiplied(self, multiplier: u64) -> Square {
        if self.multiplier == 1 {
            Square { multiplier, ..self }
        } else {
            self
        }
    }

    /// Its vertical direction after bouncing off the top or bottom edge.
    pub open spec fn bounced_y(self) -> i64 {
        if self.position.y > UNIT - HALF_SIZE {
            if self.direction.y > 0 {
                (-self.direction.y) as i64
            } else {
                self.direction.y
            }
        } else if self.position.y < HALF_SIZE - UNIT {
            if self.direction.y < 0 {
                (-self.direction.y) as i64
            } else {
                self.direction.y
            }
        } else {
            self.direction.y
        }
    }

    /// It after `dt` milliseconds of flight.
    pub open spec fn advanced(self, dt: u32) -> Square {
        let dy = self.bounced_y();
        Square {
            direction: Vec2i { x: self.direction.x, y: dy },
            position: Vec2i {
                x: clamp_i64(self.position.x + self.direction.x * dt),
                y: clamp_i64(self.position.y + dy * dt),
            },
            ..self
        }
    }

    /// A fresh hostile square with id `id` at `position`, moving along
    /// `direction`, fired at time `now`, with one point of damage.
    pub fn new(id: usize, position: Vec2i, direction: Vec2i, now: u64) -> (r: Square)
        requires
            within(direction, MAX_SPEED as int),
        ensures
            r.wf(),
            r == (Square {
                id,
                position,
                direction,
                born: now,
                friendly: false,
                damage: UNIT as u64,
                multiplier: 1,
            }),
    {
        Square { id, position, direction, born: now, friendly: false, damage: 1_000_000, multiplier: 1 }
    }

    /// Moves it by `dt` milliseconds, bouncing off the top and bottom edges
    /// of the playing field first.
    pub fn update(&mut self, dt: u32)
        requires
            old(self).wf(),
        ensures
            final(self).wf(),
            *final(self) == old(self).advanced(dt),
    {
        let mut dy = self.direction.y;
        if self.position.y > 1_000_000 - HALF_SIZE {
            if dy > 0 {
                dy = -dy;
            }
        } else if self.position.y < HALF_SIZE - 1_000_000 {
            if dy < 0 {
                dy = -dy;
            }
        }
        self.direction.y = dy;
        proof {
            lemma_step_bounded(self.direction.x as int, dt as int);
            lemma_step_bounded(dy as int, dt as int);
        }
        let x: i128 = self.position.x as i128 + self.direction.x as i128 * dt as i128;
        let y: i128 = self.position.y as i128 + dy as i128 * dt as i128;
        self.position = Vec2i { x: saturate(x), y: saturate(y) };
    }

    /// Sends it back along `direction`; from now on it is friendly.
    pub fn rebound(&mut self, direction: Vec2i)
        requires
            within(direction, MAX_SPEED as int),
        ensures
            *final(self) == old(self).rebounded(direction),
    {
        self.friendly = true;
        self.direction = direction;
    }

    /// Where it is.
    pub fn position(&self) -> (r: Vec2i)
        ensures
            r == self.position,
    {
        self.position
    }

    /// Whether it hurts enemies rather than the paddle.
    pub fn friendly(&self) -> (r: bool)
        ensures
            r == self.friendly,
    {
        self.friendly
    }

    /// The damage it deals, its multiplier applied.
    pub fn damage(&self) -> (r: u64)
        requires
            self.wf(),
        ensures
            r == self.damage_spec(),
    {
        proof {
            assert(self.damage * self.multiplier <= MAX_DAMAGE * MAX_MULTIPLIER) by (nonlinear_arith)
                requires
                    self.damage <= MAX_DAMAGE,
                    self.multiplier <= MAX_MULTIPLIER,
            ;
        }
        self.damage * self.multiplier
    }

    /// Offers a damage multiplier. Only the first one above 1 is taken: a
    /// projectile is boosted once in its life.
    pub fn damage_multiplier(&mut self, multiplier: u64)
        requires
            old(self).wf(),
            1 <= multiplier <= MAX_MULTIPLIER,
        ensures
            final(self).wf(),
            *final(self) == old(self).multiplied(multiplier),
    {
        if self.multiplier == 1 {
            self.multiplier = multiplier;
        }
    }

    /// How long it has been in flight at time `now`.
    pub fn age(&self, now: u64) -> (r: u64)
        ensures
            r == self.age_spec(now),
    {
        if now >= self.born {
            now - self.born
        } else {
            0
        }
    }
}

proof fn lemma_step_bounded(v: int, dt: int)
    requires
        -MAX_SPEED <= v <= MAX_SPEED,
        0 <= dt <= u32::MAX,
    ensures
        -MAX_SPEED * u32::MAX <= v * dt <= MAX_SPEED * u32::MAX,
{
    assert(-MAX_SPEED * u32::MAX <= v * dt <= MAX_SPEED * u32::MAX) by (nonlinear_arith)
        requires
            -MAX_SPEED <= v <= MAX_SPEED,
            0 <= dt <= u32::MAX,
    ;
}

/// `v` clamped into the range of `i64`.
fn saturate(v: i128) -> (r: i64)
    ensures
        r == clamp_i64(v as int),
{
    if v < i64::MIN as i128 {
        i64::MIN
    } else if v > i64::MAX as i128 {
        i64::MAX
    } else {
        v as i64
    }
}

impl ProjectileType {
    /// A fresh hostile projectile of this kind.
    pub fn spawn(&self, id: usize, position: Vec2i, direction: Vec2i, now: u64) -> (r: Projectile)
        requires
            within(direction, MAX_SPEED as int),
        ensures
            r.wf(),
            r == Projectile::Square(
                Square {
                    id,
                    position,
                    direction,
                    born: now,
                    friendly: false,
                    damage: UNIT as u64,
                    multiplier: 1,
                },
            ),
    {
        match self {
            ProjectileType::Square => Projectile::Square(Square::new(id, position, direction, now)),
        }
    }
}

impl Projectile {
    /// The square behind it.
    pub open spec fn body(self) -> Square {
        match self {
            Projectile::Square(s) => s,
        }
    }

    pub open spec fn wf(self) -> bool {
        self.body().wf()
    }

    /// The id the overlap query reports it under.
    pub fn id(&self) -> (r: usize)
        ensures
            r == self.body().id,
    {
        match self {
            Projectile::Square(s) => s.id,
        }
    }

    /// See [`Square::update`].
    pub fn update(&mut self, dt: u32)
        requires
            old(self).wf(),
        ensures
            final(self).wf(),
            final(self).body() == old(self).body().advanced(dt),
    {
        match self {
            Projectile::Square(s) => s.update(dt),
        }
    }

    /// See [`Square::rebound`].
    pub fn rebound(&mut self, direction: Vec2i)
        requires
            old(self).wf(),
            within(direction, MAX_SPEED as int),
        ensures
            final(self).wf(),
            final(self).body() == old(self).body().rebounded(direction),
    {
        match self {
            Projectile::Square(s) => s.rebound(direction),
        }
    }

    /// See [`Square::position`].
    pub fn position(&self) -> (r: Vec2i)
        ensures
            r == self.body().position,
    {
        match self {
            Projectile::Square(s) => s.position(),
        }
    }

    /// See [`Square::friendly`].
    pub fn friendly(&self) -> (r: bool)
        ensures
            r == self.body().friendly,
    {
        match self {
            Projectile::Square(s) => s.friendly(),
        }
    }

    /// See [`Square::damage`].
    pub fn damage(&self) -> (r: u64)
        requires
            self.wf(),
        ensures
            r == self.body().damage_spec(),
    {
        match self {
            Projectile::Square(s) => s.damage(),
        }
    }

    /// See [`Square::damage_multiplier`].
    pub fn damage_multiplier(&mut self, multiplier: u64)
        requires
            old(self).wf(),
            1 <= multiplier <= MAX_MULTIPLIER,
        ensures
            final(self).wf(),
            final(self).body() == old(self).body().multiplied(multiplier),
    {
        match self {
            Projectile::Square(s) => s.damage_multiplier(multiplier),
        }
    }

    /// See [`Square::age`].
    pub fn age(&self, now: u64) -> (r: u64)
        ensures
            r == self.body().age_spec(now),
    {
        match self {
            Projectile::Square(s) => s.age(now),
        }
    }
}

/// Sending a projectile back twice leaves it friendly, and a second
/// multiplier after a first one above 1 changes nothing: two critical
/// rebounds in a row deal the damage of one.
pub proof fn lemma_rebound_once(s: Square, d1: Vec2i, d2: Vec2i, m1: u64, m2: u64)
    requires
        s.wf(),
        1 < m1 <= MAX_MULTIPLIER,
        1 <= m2 <= MAX_MULTIPLIER,
    ensures
        s.rebounded(d1).friendly,
        s.rebounded(d1).rebounded(d2).friendly,
        s.multiplied(m1).multiplied(m2) == s.multiplied(m1),
        s.multiplied(m1).rebounded(d1).multiplied(m2).rebounded(d2).damage_spec()
            == s.multiplied(m1).rebounded(d1).damage_spec(),
{
}

} // verus!
