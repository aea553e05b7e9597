//! Enemies: their kinds and the target dummy, the one kind that exists so far.
use rand::Rng;
use vstd::prelude::*;

use crate::projectile::{clamp_i64, within, ProjectileType, Vec2i, MAX_SPEED};
use crate::UNIT;

verus! {

/// Hit points of a fresh target.
pub const TARGET_HP: i64 = 2_000_000;

/// Milliseconds between two shots of a target.
pub const SHOT_INTERVAL: u64 = 5_000;

/// Milliseconds a target flashes after a hit.
pub const FLASH_TIME: u64 = 200;

/// The speed of a target's shots: one unit per second.
pub const SHOT_SPEED: i64 = 1_000;

/// Where a target's shots start along the x axis.
pub const SHOT_ORIGIN_X: i64 = 5_000_000;

/// Every kind of enemy a level script can ask for.
#[derive(Clone, Copy, Debug, PartialEq, Eq, Structural)]
pub enum EnemyType {
    Target,
    Fairy,
    Bird,
    Pegasus,
    Griffin,
    Bat,
    Harpy,
    Dragon,
    Vampire,
    Lindworm,
    Drone,
    AndroidPegasus,
    AndroidGriffin,
    Gimp,
    Chimere,
    MetalUnicorn,
    Spirit,
    Devil,
    Flesh,
    Death,
    MoreFlesh,
    BloodGoop,
    ChunkyFlesh,
    Abomination,
    FleshBoss,
}

/// What an enemy asks of the game after its update.
#[derive(Clone, Copy, Debug, PartialEq, Eq, Structural)]
pub enum EnemyMessage {
    Idle,
    /// Fire a projectile of this kind from `position` along `direction`.
    Shoot { projectile_type: ProjectileType, position: Vec2i, direction: Vec2i },
    /// Debris was thrown; cosmetic only.
    Particle,
}

/// A floating target dummy that fires now and then.
#[derive(Clone, Copy, Debug, PartialEq, Eq, Structural)]
pub struct Target {
    /// The id under which the overlap query reports this target.
    pub id: usize,
    /// Where it hovers.
    pub position: Vec2i,
    pub hp: i64,
    /// When it was last hit, in milliseconds.
    pub last_hit: u64,
    /// When it last fired, in milliseconds.
    pub last_shot: u64,
}

/// A live enemy, of one of the kinds in `EnemyType`.
#[derive(Clone, Copy, Debug, PartialEq, Eq, Structural)]
pub enum Enemy {
    Target(Target),
}

/// The integer square root: the largest `r` with `r * r <= n`.
pub open spec fn is_root(n: nat, r: nat) -> bool {
    r * r <= n < (r + 1) * (r + 1)
}

/// The squared distance between `a` and `b`.
pub open spec fn dist2(a: Vec2i, b: Vec2i) -> nat {
    ((b.x - a.x) * (b.x - a.x) + (b.y - a.y) * (b.y - a.y)) as nat
}

/// `|n|` scaled by `speed / len`, rounded towards zero, with the sign of `n`.
pub open spec fn scaled(n: int, speed: int, len: int) -> int {
    if n >= 0 {
        n * speed / len
    } else {
        -((-n) * speed / len)
    }
}

/// The velocity of a shot of speed `SHOT_SPEED` from `from` towards `to`,
/// given the length `len` of the way between them.
pub open spec fn aim_spec(from: Vec2i, to: Vec2i, len: int) -> Vec2i {
    Vec2i {
        x: scaled(to.x - from.x, SHOT_SPEED as int, len) as i64,
        y: scaled(to.y - from.y, SHOT_SPEED as int, len) as i64,
    }
}

/// Where a target's shot starts and where it heads, for the draws `from_y`
/// and `to_y` (millionths of the unit interval).
pub open spec fn shot_line(from_y: u32, to_y: u32) -> (Vec2i, Vec2i) {
    (
        Vec2i { x: SHOT_ORIGIN_X, y: (from_y - 500_000) as i64 },
        Vec2i { x: 0, y: (2 * to_y - UNIT) as i64 },
    )
}

/// The squared length of the way of a shot for the draws `from_y` and `to_y`.
pub open spec fn shot_dist2(from_y: u32, to_y: u32) -> nat {
    dist2(shot_line(from_y, to_y).0, shot_line(from_y, to_y).1)
}

/// The shot a target fires for the draws `from_y` and `to_y`, given the
/// length `len` of its way.
pub open spec fn shot_for(from_y: u32, to_y: u32, len: nat) -> EnemyMessage {
    let (from, to) = shot_line(from_y, to_y);
    EnemyMessage::Shoot {
        projectile_type: ProjectileType::Square,
        position: from,
        direction: aim_spec(from, to, len as int),
    }
}

/// Whether `m` is the shot a target fires for some pair of draws: from
/// x = 5 at a height in [-0.5, 0.5), towards x = 0 at a height in [-1, 1),
/// at one unit per second.
pub open spec fn fired_shot(m: EnemyMessage) -> bool {
    &&& exists|fy: u32, ty: u32, len: nat|
        fy < 1_000_000 && ty < 1_000_000 && #[trigger] is_root(shot_dist2(fy, ty), len) && m == shot_for(
            fy,
            ty,
            len,
        )
    &&& m matches EnemyMessage::Shoot { position, .. } && position.x == SHOT_ORIGIN_X && -500_000
        <= position.y < 500_000
}

impl EnemyMessage {
    /// Whether a shot it asks for stays within the speed limit.
    pub open spec fn sane(self) -> bool {
        match self {
            EnemyMessage::Shoot { direction, .. } => within(direction, MAX_SPEED as int),
            _ => true,
        }
    }
}

impl Target {
    /// It after firing at time `now`.
    pub open spec fn fired(self, now: u64) -> Target {
        Target { last_shot: now, ..self }
    }

    /// It after being offered `damage` at time `now` by a projectile that
    /// overlaps the ids `ids`: hurt only if its own id is among them.
    pub open spec fn struck(self, ids: Seq<usize>, damage: u64, now: u64) -> Target {
        if ids.contains(self.id) {
            Target { hp: clamp_i64(self.hp - damage), last_hit: now, ..self }
        } else {
            self
        }
    }

    /// Whether it is due to fire at time `now`.
    pub open spec fn due(self, now: u64) -> bool {
        now >= self.last_shot && now - self.last_shot > SHOT_INTERVAL
    }

    /// A fresh target with id `id`, spawned at time `now`, hovering at a
    /// place picked by the draws `rx` and `ry` (millionths of the unit
    /// interval): x in [2, 3), y in [-0.84, 0.36).
    pub fn new(id: usize, now: u64, rx: u32, ry: u32) -> (r: Target)
        requires
            rx < 1_000_000,
            ry < 1_000_000,
        ensures
            r == (Target {
                id,
                position: Vec2i { x: (2 * UNIT + rx) as i64, y: (ry * 6 / 5 - 840_000) as i64 },
                hp: TARGET_HP,
                last_hit: now,
                last_shot: now,
            }),
    {
        let x: i64 = 2_000_000 + rx as i64;
        let y: i64 = (ry as i64) * 6 / 5 - 840_000;
        Target { id, position: Vec2i { x, y }, hp: TARGET_HP, last_hit: now, last_shot: now }
    }

    /// Takes `damage` if its id is among `ids`, the ids that a projectile
    /// overlaps, and reports its hit points after that and whether it was
    /// hit. A hit at time `now` also starts its flash.
    pub fn damage_if_id_right(&mut self, ids: &[usize], damage: u64, now: u64) -> (r: (i64, bool))
        ensures
            *final(self) == old(self).struck(ids@, damage, now),
            r == (final(self).hp, ids@.contains(old(self).id)),
    {
        let mut hit = false;
        let mut i: usize = 0;
        while i < ids.len()
            invariant
                i <= ids@.len(),
                hit == (exists|j: int| 0 <= j < i && #[trigger] ids@[j] == self.id),
            decreases ids@.len() - i,
        {
            if ids[i] == self.id {
                hit = true;
            }
            i = i + 1;
        }
        if hit {
            let hp: i128 = self.hp as i128 - damage as i128;
            self.hp = if hp < i64::MIN as i128 {
                i64::MIN
            } else {
                hp as i64
            };
            self.last_hit = now;
        }
        (self.hp, hit)
    }

    /// Whether it is still flashing from a hit at time `now`.
    pub fn flashing(&self, now: u64) -> (r: bool)
        ensures
            r == (now >= self.last_hit && now - self.last_hit < FLASH_TIME),
    {
        now >= self.last_hit && now - self.last_hit < FLASH_TIME
    }

    /// Whether it shows its damaged look: one hit point or less left.
    pub fn damaged(&self) -> (r: bool)
        ensures
            r == (self.hp <= UNIT),
    {
        self.hp <= 1_000_000
    }

    /// Its update at time `now`, with the draws `from_y` and `to_y`
    /// (millionths of the unit interval) for a shot. More than
    /// `SHOT_INTERVAL` after its last shot it fires: from x = 5 at height
    /// `from_y - 0.5` towards x = 0 at height `2 * to_y - 1`, at one unit
    /// per second.
    pub fn update_with(&mut self, now: u64, from_y: u32, to_y: u32) -> (r: EnemyMessage)
        requires
            from_y < 1_000_000,
            to_y < 1_000_000,
        ensures
            old(self).due(now) ==> *final(self) == old(self).fired(now),
            old(self).due(now) ==> exists|len: nat| #[trigger] is_root(shot_dist2(from_y, to_y), len) && r == shot_for(from_y, to_y, len),
            !old(self).due(now) ==> (*final(self) == *old(self) && (r is Idle)),
            r.sane(),
    {
        if now >= self.last_shot && now - self.last_shot > SHOT_INTERVAL {
            self.last_shot = now;
            let from = Vec2i { x: SHOT_ORIGIN_X, y: from_y as i64 - 500_000 };
            let to = Vec2i { x: 0, y: 2 * (to_y as i64) - 1_000_000 };
            let direction = aim(from, to);
            let r = EnemyMessage::Shoot { projectile_type: ProjectileType::Square, position: from, direction };
            proof {
                assert((from, to) == shot_line(from_y, to_y));
                let len = choose|len: nat| #[trigger] is_root(dist2(from, to), len) && direction == aim_spec(from, to, len as int);
                assert(is_root(shot_dist2(from_y, to_y), len) && r == shot_for(from_y, to_y, len));
            }
            r
        } else {
            EnemyMessage::Idle
        }
    }

    /// Its update at time `now`; see [`Target::update_with`]. The heights of
    /// a shot are drawn at random.
    pub fn update(&mut self, now: u64) -> (r: EnemyMessage)
        ensures
            !old(self).due(now) ==> *final(self) == *old(self) && r is Idle,
            old(self).due(now) ==> (*final(self) == old(self).fired(now) && fired_shot(r)),
            r.sane(),
    {
        let from_y = draw_below(1_000_000);
        let to_y = draw_below(1_000_000);
        self.update_with(now, from_y, to_y)
    }
}

/// The integer square root of `n`.
fn isqrt(n: u64) -> (r: u64)
    requires
        n < 0x1_0000_0000_0000,
    ensures
        is_root(n as nat, r as nat),
{
    let mut lo: u64 = 0;
    let mut hi: u64 = 0x100_0000;
    proof {
        assert(hi * hi == 0x1_0000_0000_0000);
    }
    while lo + 1 < hi
        invariant
            lo < hi <= 0x100_0000,
            lo * lo <= n,
            n < hi * hi,
        decreases hi - lo,
    {
        let mid = lo + (hi - lo) / 2;
        proof {
            assert(mid * mid <= 0x100_0000 * 0x100_0000) by (nonlinear_arith)
                requires
                    mid <= 0x100_0000,
            ;
        }
        if mid * mid <= n {
            lo = mid;
        } else {
            hi = mid;
        }
    }
    lo
}

/// The velocity of speed `SHOT_SPEED` from `from` towards `to`.
fn aim(from: Vec2i, to: Vec2i) -> (r: Vec2i)
    requires
        from.x == SHOT_ORIGIN_X,
        to.x == 0,
        -UNIT <= from.y <= UNIT,
        -UNIT <= to.y <= UNIT,
    ensures
        within(r, SHOT_SPEED as int),
        exists|len: nat| #[trigger] is_root(dist2(from, to), len) && r == aim_spec(from, to, len as int),
{
    let dx: i64 = to.x - from.x;
    let dy: i64 = to.y - from.y;
    let ax: u64 = if dx >= 0 { dx as u64 } else { (-dx) as u64 };
    let ay: u64 = if dy >= 0 { dy as u64 } else { (-dy) as u64 };
    proof {
        assert(ax * ax <= 25_000_000_000_000) by (nonlinear_arith)
            requires ax <= 5_000_000;
        assert(ay * ay <= 4_000_000_000_000) by (nonlinear_arith)
            requires ay <= 2_000_000;
        assert((ax as int) * (ax as int) == (dx as int) * (dx as int)) by (nonlinear_arith)
            requires ax == dx || ax == -dx;
        assert((ay as int) * (ay as int) == (dy as int) * (dy as int)) by (nonlinear_arith)
            requires ay == dy || ay == -dy;
    }
    let n: u64 = ax * ax + ay * ay;
    let len = isqrt(n);
    proof {
        assert(n >= 25_000_000_000_000);
        assert(len >= 5_000_000) by (nonlinear_arith)
            requires
                len * len <= n,
                n < (len + 1) * (len + 1),
                n >= 25_000_000_000_000,
        ;
        assert((ax as int) * 1000 / (len as int) <= 1000) by (nonlinear_arith)
            requires ax <= len, len > 0;
        assert((ay as int) * 1000 / (len as int) <= 1000) by (nonlinear_arith)
            requires ay <= len, len > 0;
    }
    let sx: i64 = (ax * 1000 / len) as i64;
    let sy: i64 = (ay * 1000 / len) as i64;
    let r = Vec2i { x: if dx >= 0 { sx } else { -sx }, y: if dy >= 0 { sy } else { -sy } };
    proof {
        assert(is_root(dist2(from, to), len as nat));
    }
    r
}

/// Relies on rand's `Rng::gen_range` on `thread_rng()`: a value drawn from
/// `0..bound`; it panics only on an empty range.
#[verifier::external_body]
fn draw_below(bound: u32) -> (r: u32)
    requires
        bound > 0,
    ensures
        r < bound,
{
    rand::thread_rng().gen_range(0..bound)
}

impl Enemy {
    /// The target behind it.
    pub open spec fn body(self) -> Target {
        match self {
            Enemy::Target(t) => t,
        }
    }

    /// The id the overlap query reports it under.
    pub fn id(&self) -> (r: usize)
        ensures
            r == self.body().id,
    {
        match self {
            Enemy::Target(t) => t.id,
        }
    }

    /// See [`Target::damage_if_id_right`].
    pub fn damage_if_id_right(&mut self, ids: &[usize], damage: u64, now: u64) -> (r: (i64, bool))
        ensures
            final(self).body() == old(self).body().struck(ids@, damage, now),
            r == (final(self).body().hp, ids@.contains(old(self).body().id)),
    {
        match self {
            Enemy::Target(t) => t.damage_if_id_right(ids, damage, now),
        }
    }

    /// See [`Target::update`].
    pub fn update(&mut self, now: u64) -> (r: EnemyMessage)
        ensures
            !old(self).body().due(now) ==> (*final(self) == *old(self) && (r is Idle)),
            old(self).body().due(now) ==> (final(self).body() == old(self).body().fired(now) && fired_shot(r)),
            r.sane(),
    {
        match self {
            Enemy::Target(t) => t.update(now),
        }
    }
}

impl EnemyType {
    /// A fresh enemy of this kind with id `id`, spawned at time `now`, at a
    /// place drawn at random; `None` for the kinds that have no behaviour
    /// yet. Only `Target` has one.
    pub fn spawn(&self, id: usize, now: u64) -> (r: Option<Enemy>)
        ensures
            r.is_some() == (*self == EnemyType::Target),
            r.is_some() ==> r.unwrap().body().id == id && r.unwrap().body().hp == TARGET_HP,
            r.is_some() ==> r.unwrap().body().last_shot == now && r.unwrap().body().last_hit == now,
            r.is_some() ==> 2 * UNIT <= r.unwrap().body().position.x < 3 * UNIT,
            r.is_some() ==> -840_000 <= r.unwrap().body().position.y < 360_000,
    {
        match self {
            EnemyType::Target => {
                let rx = draw_below(1_000_000);
                let ry = draw_below(1_000_000);
                Some(Enemy::Target(Target::new(id, now, rx, ry)))
            },
            _ => None,
        }
    }
}

} // verus!
