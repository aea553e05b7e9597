//! One in-game session: the paddle, the running level, the live enemies and
//! projectiles, and the combat pass that settles them each tick.
use vstd::prelude::*;

use crate::enemy::{fired_shot, Enemy, EnemyMessage};
use crate::level::{Level, LevelMessage};
use crate::paddle::{clamp, Paddle, MAX_HEALTH, REGENERATION};
use crate::settings::{GameScene, Message};
use crate::projectile::{within, Projectile, Vec2i, MAX_SPEED, TIME_TO_LIVE};
use crate::stages::{is_tutorial, tutorial};
use crate::state::GameState;

verus! {

/// Projectiles closer to the paddle's side than this along x hit its edge:
/// a critical rebound.
pub const EDGE_ZONE: i64 = 100_000;

/// The multiplier of a critical rebound, on damage and on speed.
pub const CRITICAL: u64 = 2;

/// What the world outside needs to know about one tick.
#[derive(Clone, Copy, Debug, PartialEq, Eq, Structural)]
pub struct Tick {
    /// The time now, in milliseconds.
    pub now: u64,
    /// Milliseconds since the last tick.
    pub dt: u32,
    /// Where the paddle sends projectiles back: a velocity.
    pub aim: Vec2i,
}

/// Something the combat pass did, for sound, camera and scene to follow.
#[derive(Clone, Copy, Debug, PartialEq, Eq, Structural)]
pub enum CombatEvent {
    /// The projectile with this id grew too old and is gone.
    Expired(usize),
    /// The friendly projectile with this id hit and is gone.
    Consumed(usize),
    /// The enemy with this id was hit and lives on.
    EnemyHit(usize),
    /// The enemy with this id died and is gone.
    EnemyKilled(usize),
    /// The hostile projectile with this id got past the paddle, hurt it,
    /// and is gone.
    PaddleHit(usize),
    /// The paddle sent the projectile with this id back.
    Rebound(usize),
    /// The paddle's edge sent the projectile with this id back, boosted.
    CriticalRebound(usize),
}

/// What the combat pass works on, as values.
pub struct Field {
    pub enemies: Seq<Enemy>,
    pub state: GameState,
    pub health: u64,
    /// Enemies killed so far.
    pub slain: nat,
    /// Projectiles that live on, moved.
    pub kept: Seq<Projectile>,
    pub events: Seq<CombatEvent>,
}

/// `a - b`, held at zero.
pub open spec fn sat_sub(a: u64, b: u64) -> u64 {
    if a >= b {
        (a - b) as u64
    } else {
        0
    }
}

/// A friendly projectile of damage `damage` that overlaps `ids` at time
/// `now`, against the first `n` enemies of `es`: the survivors, how many
/// died, whether any was hit, the events, and the counters after the kills.
pub open spec fn strike(
    es: Seq<Enemy>,
    n: int,
    ids: Seq<usize>,
    damage: u64,
    now: u64,
    st: GameState,
) -> (Seq<Enemy>, nat, bool, Seq<CombatEvent>, GameState)
    decreases n,
{
    if n <= 0 {
        (seq![], 0, false, seq![], st)
    } else {
        let (s, k, h, f, g) = strike(es, n - 1, ids, damage, now, st);
        let e = es[n - 1].body();
        let t = e.struck(ids, damage, now);
        if ids.contains(e.id) {
            if t.hp <= 0 {
                (s, k + 1, true, f.push(CombatEvent::EnemyKilled(e.id)), g.killed(damage))
            } else {
                (s.push(Enemy::Target(t)), k, true, f.push(CombatEvent::EnemyHit(e.id)), g)
            }
        } else {
            (s.push(es[n - 1]), k, h, f, g)
        }
    }
}

/// The combat pass on one projectile `p`, which overlaps `ids`, with the
/// paddle known as `paddle`.
pub open spec fn settle(f: Field, p: Projectile, ids: Seq<usize>, t: Tick, paddle: usize) -> Field {
    let s = p.body();
    if s.age_spec(t.now) > TIME_TO_LIVE {
        Field { events: f.events.push(CombatEvent::Expired(s.id)), ..f }
    } else if s.friendly {
        let (es, k, hit, fx, g) = strike(
            f.enemies,
            f.enemies.len() as int,
            ids,
            s.damage_spec(),
            t.now,
            f.state,
        );
        if hit {
            Field {
                enemies: es,
                state: g,
                slain: f.slain + k,
                events: (f.events + fx).push(CombatEvent::Consumed(s.id)),
                ..f
            }
        } else {
            Field {
                enemies: es,
                state: g,
                slain: f.slain + k,
                events: f.events + fx,
                kept: f.kept.push(Projectile::Square(s.advanced(t.dt))),
                ..f
            }
        }
    } else if s.position.x < 0 {
        Field {
            health: sat_sub(f.health, s.damage_spec()),
            events: f.events.push(CombatEvent::PaddleHit(s.id)),
            ..f
        }
    } else if ids.contains(paddle) {
        if s.position.x < EDGE_ZONE {
            let d = Vec2i { x: (CRITICAL * t.aim.x) as i64, y: (CRITICAL * t.aim.y) as i64 };
            Field {
                kept: f.kept.push(Projectile::Square(s.multiplied(CRITICAL).rebounded(d).advanced(t.dt))),
                events: f.events.push(CombatEvent::CriticalRebound(s.id)),
                ..f
            }
        } else {
            Field {
                kept: f.kept.push(Projectile::Square(s.rebounded(t.aim).advanced(t.dt))),
                events: f.events.push(CombatEvent::Rebound(s.id)),
                ..f
            }
        }
    } else {
        Field { kept: f.kept.push(Projectile::Square(s.advanced(t.dt))), ..f }
    }
}

/// The combat pass over the first `n` projectiles of `ps`, in order, where
/// `ovs[i]` is what `ps[i]` overlaps.
pub open spec fn settle_all(
    f: Field,
    ps: Seq<Projectile>,
    ovs: Seq<Vec<usize>>,
    n: int,
    t: Tick,
    paddle: usize,
) -> Field
    decreases n,
{
    if n <= 0 {
        f
    } else {
        settle(settle_all(f, ps, ovs, n - 1, t, paddle), ps[n - 1], ovs[n - 1]@, t, paddle)
    }
}

/// `after` and `m` are what `before` became and asked for on its update at
/// time `now`: it fires when due and is left alone otherwise.
pub open spec fn turn(before: Enemy, after: Enemy, m: EnemyMessage, now: u64) -> bool {
    &&& m.sane()
    &&& !before.body().due(now) ==> (after == before && (m is Idle))
    &&& before.body().due(now) ==> (after.body() == before.body().fired(now) && fired_shot(m))
}

/// A running game.
pub struct Loop {
    pub state: GameState,
    pub paddle: Paddle,
    /// The level being played; `None` between levels.
    pub level: Option<Level>,
    pub enemies: Vec<Enemy>,
    pub projectiles: Vec<Projectile>,
}

/// `b` is `a` with only its count of living enemies changed.
pub open spec fn same_script(a: Level, b: Level) -> bool {
    &&& a.enemy_limit == b.enemy_limit
    &&& a.event_duration == b.event_duration
    &&& a.last_event == b.last_event
    &&& a.events@ == b.events@
    &&& a.events_count == b.events_count
}

impl Loop {
    /// The session's invariant: every enemy alive was spawned by the running
    /// level and counts towards its cap, and every projectile is sound.
    pub open spec fn wf(self) -> bool {
        &&& self.paddle.wf()
        &&& forall|i: int| 0 <= i < self.projectiles@.len() ==> #[trigger] self.projectiles@[i].wf()
        &&& match self.level {
            Some(l) => l.wf() && self.enemies@.len() <= l.enemies,
            None => self.enemies@.len() == 0,
        }
    }

    /// The combat pass's view of the session before it runs.
    pub open spec fn field(self) -> Field {
        Field {
            enemies: self.enemies@,
            state: self.state,
            health: self.paddle.health,
            slain: 0,
            kept: seq![],
            events: seq![],
        }
    }

    /// A session with progress `state` and a paddle known as `paddle_id`;
    /// its level starts on the first update.
    pub fn new(state: GameState, paddle_id: usize) -> (r: Loop)
        ensures
            r.wf(),
            r.state == state,
            r.paddle == (Paddle { id: paddle_id, health: MAX_HEALTH, max_health: MAX_HEALTH, rotation: 1571 }),
            r.level.is_none(),
            r.enemies@.len() == 0,
            r.projectiles@.len() == 0,
    {
        Loop {
            state,
            paddle: Paddle::new(paddle_id),
            level: None,
            enemies: Vec::new(),
            projectiles: Vec::new(),
        }
    }

    /// The combat pass: settles every live projectile, in order, against
    /// the enemies and the paddle. `overlaps[i]` holds the ids that
    /// projectile `i` overlaps; `tick.aim` is where the paddle sends
    /// projectiles back.
    ///
    /// A projectile older than `TIME_TO_LIVE` is removed and nothing else
    /// happens to it. A friendly one damages every enemy it overlaps; an
    /// enemy left with no hit points dies, counts a kill with its score and
    /// frees a place under the level's cap; the projectile is used up if it
    /// hit anything. A hostile one past x = 0 hurts the paddle and is
    /// removed; one that touches the paddle is sent back, boosted once and
    /// twice as fast if it touches within `EDGE_ZONE`. Every projectile
    /// still there then moves by `tick.dt`.
    pub fn resolve(&mut self, overlaps: &Vec<Vec<usize>>, tick: Tick) -> (r: Vec<CombatEvent>)
        requires
            old(self).wf(),
            overlaps@.len() == old(self).projectiles@.len(),
            within(tick.aim, (MAX_SPEED / 2) as int),
        ensures
            final(self).wf(),
            ({
                let f = settle_all(
                    old(self).field(),
                    old(self).projectiles@,
                    overlaps@,
                    overlaps@.len() as int,
                    tick,
                    old(self).paddle.id,
                );
                &&& final(self).projectiles@ == f.kept
                &&& final(self).enemies@ == f.enemies
                &&& final(self).state == f.state
                &&& final(self).paddle == (Paddle { health: f.health, ..old(self).paddle })
                &&& r@ == f.events
                &&& match old(self).level {
                    Some(l) => final(self).level.is_some() && same_script(l, final(self).level.unwrap())
                        && final(self).level.unwrap().enemies == l.enemies - f.slain,
                    None => final(self).level.is_none(),
                }
            }),
    {
        let ghost start = self.field();
        let ghost ps = self.projectiles@;
        let ghost old_level = self.level;
        let mut kept: Vec<Projectile> = Vec::new();
        let mut events: Vec<CombatEvent> = Vec::new();
        let n = self.projectiles.len();
        let mut i: usize = 0;
        while i < n
            invariant
                n == ps.len() == overlaps@.len(),
                i <= n,
                self.projectiles@ == ps,
                self.paddle.wf(),
                self.paddle.id == old(self).paddle.id,
                self.paddle.max_health == old(self).paddle.max_health,
                self.paddle.rotation == old(self).paddle.rotation,
                within(tick.aim, (MAX_SPEED / 2) as int),
                forall|j: int| 0 <= j < ps.len() ==> #[trigger] ps[j].wf(),
                forall|j: int| 0 <= j < kept@.len() ==> #[trigger] kept@[j].wf(),
                ({
                    let f = settle_all(start, ps, overlaps@, i as int, tick, self.paddle.id);
                    &&& kept@ == f.kept
                    &&& self.enemies@ == f.enemies
                    &&& self.state == f.state
                    &&& self.paddle.health == f.health
                    &&& events@ == f.events
                    &&& match old_level {
                        Some(l) => self.level.is_some() && same_script(l, self.level.unwrap())
                            && self.level.unwrap().enemies + f.slain == l.enemies
                            && self.level.unwrap().wf()
                            && self.enemies@.len() <= self.level.unwrap().enemies,
                        None => self.level.is_none() && self.enemies@.len() == 0,
                    }
                }),
            decreases n - i,
        {
            let p = self.projectiles[i];
            self.settle_one(p, &overlaps[i], tick, &mut kept, &mut events);
            i = i + 1;
        }
        self.projectiles = kept;
        events
    }

    /// The combat pass on the projectile `p`, which overlaps `ids`; what
    /// lives on goes to `kept`, what happened to `events`.
    fn settle_one(
        &mut self,
        p: Projectile,
        ids: &Vec<usize>,
        tick: Tick,
        kept: &mut Vec<Projectile>,
        events: &mut Vec<CombatEvent>,
    )
        requires
            p.wf(),
            old(self).paddle.wf(),
            within(tick.aim, (MAX_SPEED / 2) as int),
            forall|j: int| 0 <= j < old(kept)@.len() ==> #[trigger] old(kept)@[j].wf(),
            match old(self).level {
                Some(l) => l.wf() && old(self).enemies@.len() <= l.enemies,
                None => old(self).enemies@.len() == 0,
            },
        ensures
            ({
                let f0 = Field {
                    enemies: old(self).enemies@,
                    state: old(self).state,
                    health: old(self).paddle.health,
                    slain: 0,
                    kept: old(kept)@,
                    events: old(events)@,
                };
                let f = settle(f0, p, ids@, tick, old(self).paddle.id);
                &&& final(kept)@ == f.kept
                &&& final(self).enemies@ == f.enemies
                &&& final(self).state == f.state
                &&& final(self).paddle == (Paddle { health: f.health, ..old(self).paddle })
                &&& final(events)@ == f.events
                &&& final(self).projectiles == old(self).projectiles
                &&& match old(self).level {
                    Some(l) => final(self).level.is_some() && same_script(l, final(self).level.unwrap())
                        && final(self).level.unwrap().enemies + f.slain == l.enemies
                        && final(self).level.unwrap().wf()
                        && final(self).enemies@.len() <= final(self).level.unwrap().enemies,
                    None => final(self).level.is_none() && final(self).enemies@.len() == 0,
                }
            }),
            forall|j: int| 0 <= j < final(kept)@.len() ==> #[trigger] final(kept)@[j].wf(),
    {
        let mut p = p;
        if p.age(tick.now) > TIME_TO_LIVE {
            events.push(CombatEvent::Expired(p.id()));
            return;
        }
        if p.friendly() {
            let hit = self.strike(ids, p.damage(), tick.now, events);
            if hit {
                events.push(CombatEvent::Consumed(p.id()));
                return;
            }
        } else {
            let position = p.position();
            if position.x < 0 {
                self.paddle.damage(p.damage());
                events.push(CombatEvent::PaddleHit(p.id()));
                return;
            }
            if contains(ids, self.paddle.id) {
                if position.x < EDGE_ZONE {
                    p.damage_multiplier(CRITICAL);
                    p.rebound(Vec2i { x: 2 * tick.aim.x, y: 2 * tick.aim.y });
                    events.push(CombatEvent::CriticalRebound(p.id()));
                } else {
                    p.rebound(tick.aim);
                    events.push(CombatEvent::Rebound(p.id()));
                }
            }
        }
        p.update(tick.dt);
        kept.push(p);
    }

    /// A friendly projectile of damage `damage` that overlaps `ids` at time
    /// `now` against every enemy; reports whether it hit any.
    fn strike(&mut self, ids: &Vec<usize>, damage: u64, now: u64, events: &mut Vec<CombatEvent>) -> (hit: bool)
        requires
            match old(self).level {
                Some(l) => l.wf() && old(self).enemies@.len() <= l.enemies,
                None => old(self).enemies@.len() == 0,
            },
        ensures
            ({
                let (es, k, h, fx, g) = strike(
                    old(self).enemies@,
                    old(self).enemies@.len() as int,
                    ids@,
                    damage,
                    now,
                    old(self).state,
                );
                &&& final(self).enemies@ == es
                &&& final(self).state == g
                &&& hit == h
                &&& final(events)@ == old(events)@ + fx
                &&& final(self).paddle == old(self).paddle
                &&& final(self).projectiles == old(self).projectiles
                &&& match old(self).level {
                    Some(l) => final(self).level.is_some() && same_script(l, final(self).level.unwrap())
                        && final(self).level.unwrap().enemies + k == l.enemies
                        && final(self).level.unwrap().wf()
                        && final(self).enemies@.len() <= final(self).level.unwrap().enemies,
                    None => final(self).level.is_none() && final(self).enemies@.len() == 0,
                }
            }),
    {
        let ghost es0 = self.enemies@;
        let ghost ev0 = events@;
        let ghost st0 = self.state;
        let ghost lv0 = self.level;
        let n = self.enemies.len();
        let mut survivors: Vec<Enemy> = Vec::new();
        let mut hit = false;
        let mut j: usize = 0;
        while j < n
            invariant
                n == es0.len(),
                j <= n,
                self.enemies@ == es0,
                self.paddle == old(self).paddle,
                self.projectiles == old(self).projectiles,
                ({
                    let (s, k, h, fx, g) = strike(es0, j as int, ids@, damage, now, st0);
                    &&& survivors@ == s
                    &&& self.state == g
                    &&& hit == h
                    &&& events@ == ev0 + fx
                    &&& s.len() + k == j
                    &&& match lv0 {
                        Some(l) => self.level.is_some() && same_script(l, self.level.unwrap())
                            && self.level.unwrap().enemies + k == l.enemies
                            && self.level.unwrap().wf()
                            && n <= l.enemies,
                        None => self.level.is_none() && n == 0,
                    }
                }),
            decreases n - j,
        {
            let mut e = self.enemies[j];
            let id = e.id();
            let (hp, touched) = e.damage_if_id_right(ids.as_slice(), damage, now);
            if touched {
                hit = true;
                if hp <= 0 {
                    self.state.record_kill(damage);
                    match &mut self.level {
                        Some(level) => level.kill(),
                        None => {},
                    }
                    events.push(CombatEvent::EnemyKilled(id));
                } else {
                    survivors.push(e);
                    events.push(CombatEvent::EnemyHit(id));
                }
            } else {
                survivors.push(e);
            }
            proof {
                let (s, k, h, fx, g) = strike(es0, j as int, ids@, damage, now, st0);
                assert(events@ == ev0 + strike(es0, j + 1, ids@, damage, now, st0).3);
            }
            j = j + 1;
        }
        self.enemies = survivors;
        hit
    }

    /// Moves the level on at time `tick.now`. Between levels this sets up
    /// the level for the current stage, if there is one, and reports `Idle`.
    /// When the level reports `Done` the stage counts as completed and the
    /// session is between levels again.
    pub fn advance_level(&mut self, now: u64) -> (r: LevelMessage)
        requires
            old(self).wf(),
        ensures
            final(self).wf(),
            final(self).enemies == old(self).enemies,
            final(self).projectiles == old(self).projectiles,
            final(self).paddle == old(self).paddle,
            match old(self).level {
                Some(l) => {
                    &&& r == l.next_message(now)
                    &&& r is Done ==> final(self).level.is_none() && final(self).state == (GameState {
                        stage: crate::state::sat_add(old(self).state.stage, 1),
                        ..old(self).state
                    })
                    &&& !(r is Done) ==> final(self).level.is_some() && final(self).state == old(self).state
                        && final(self).level.unwrap().enemies == l.after_progress(now).enemies
                        && final(self).level.unwrap().events@ == l.events_after(now)
                },
                None => {
                    &&& r is Idle
                    &&& final(self).state == old(self).state
                    &&& old(self).state.stage == 0 ==> final(self).level.is_some() && is_tutorial(final(self).level.unwrap())
                    &&& old(self).state.stage != 0 ==> final(self).level.is_none()
                },
            },
    {
        match &mut self.level {
            Some(level) => {
                let message = level.progress(now);
                if let LevelMessage::Done = message {
                    self.state.complete_stage();
                    self.level = None;
                }
                message
            },
            None => {
                self.level = if self.state.stage == 0 {
                    Some(tutorial())
                } else {
                    None
                };
                LevelMessage::Idle
            },
        }
    }

    /// Adds an enemy that the level asked for. It is refused, and `false`
    /// returned, unless the level has a place for it: a spawn it counted
    /// that is not yet alive.
    pub fn spawn_enemy(&mut self, enemy: Enemy) -> (r: bool)
        requires
            old(self).wf(),
        ensures
            final(self).wf(),
            r == (old(self).level.is_some() && old(self).enemies@.len() < old(self).level.unwrap().enemies),
            r ==> final(self).enemies@ == old(self).enemies@.push(enemy),
            !r ==> final(self).enemies@ == old(self).enemies@,
            final(self).level == old(self).level,
            final(self).projectiles == old(self).projectiles,
            final(self).state == old(self).state,
            final(self).paddle == old(self).paddle,
    {
        let room = match &self.level {
            Some(level) => self.enemies.len() < level.enemies as usize,
            None => false,
        };
        if room {
            self.enemies.push(enemy);
        }
        room
    }

    /// The paddle's step over `dt` milliseconds: it regains health, and with
    /// none left the attempt is over and the game goes back to the menu.
    pub fn regenerate(&mut self, dt: u32) -> (r: Option<Message>)
        requires
            old(self).wf(),
        ensures
            final(self).wf(),
            final(self).paddle == (Paddle {
                health: clamp(old(self).paddle.health + REGENERATION * dt, 0, old(self).paddle.max_health as int) as u64,
                ..old(self).paddle
            }),
            r == (if final(self).paddle.health == 0 {
                Some(Message::SwitchScene(GameScene::Menu))
            } else {
                None
            }),
            final(self).enemies == old(self).enemies,
            final(self).projectiles == old(self).projectiles,
            final(self).level == old(self).level,
            final(self).state == old(self).state,
    {
        self.paddle.regenerate(dt);
        if self.paddle.destroyed() {
            Some(Message::SwitchScene(GameScene::Menu))
        } else {
            None
        }
    }

    /// Every enemy's update at time `now`, in order; what they ask for comes
    /// back in the same order.
    pub fn fire(&mut self, now: u64) -> (r: Vec<EnemyMessage>)
        requires
            old(self).wf(),
        ensures
            final(self).wf(),
            r@.len() == old(self).enemies@.len(),
            final(self).enemies@.len() == old(self).enemies@.len(),
            forall|i: int| 0 <= i < r@.len() ==> #[trigger] turn(old(self).enemies@[i], final(self).enemies@[i], r@[i], now),
            final(self).projectiles == old(self).projectiles,
            final(self).level == old(self).level,
            final(self).state == old(self).state,
            final(self).paddle == old(self).paddle,
    {
        let ghost before = self.enemies@;
        let mut messages: Vec<EnemyMessage> = Vec::new();
        let mut moved: Vec<Enemy> = Vec::new();
        let n = self.enemies.len();
        let mut i: usize = 0;
        while i < n
            invariant
                n == before.len(),
                i <= n,
                self.enemies@ == before,
                messages@.len() == i,
                moved@.len() == i,
                forall|j: int| 0 <= j < i ==> #[trigger] turn(before[j], moved@[j], messages@[j], now),
            decreases n - i,
        {
            let mut e = self.enemies[i];
            let m = e.update(now);
            moved.push(e);
            messages.push(m);
            proof {
                assert(turn(before[i as int], moved@[i as int], messages@[i as int], now));
            }
            i = i + 1;
        }
        self.enemies = moved;
        messages
    }

    /// Continues play at stage `stage`: the running level, its enemies and
    /// every projectile are dropped, and the stage's level starts on the
    /// next update.
    pub fn change_stage(&mut self, stage: u32)
        requires
            old(self).wf(),
        ensures
            final(self).wf(),
            final(self).state == (GameState { stage, ..old(self).state }),
            final(self).level.is_none(),
            final(self).enemies@.len() == 0,
            final(self).projectiles@.len() == 0,
            final(self).paddle == old(self).paddle,
    {
        self.state.stage = stage;
        self.level = None;
        self.enemies = Vec::new();
        self.projectiles = Vec::new();
    }

    /// Adds a projectile that an enemy fired.
    pub fn add_projectile(&mut self, projectile: Projectile)
        requires
            old(self).wf(),
            projectile.wf(),
        ensures
            final(self).wf(),
            final(self).projectiles@ == old(self).projectiles@.push(projectile),
            final(self).enemies == old(self).enemies,
            final(self).level == old(self).level,
            final(self).state == old(self).state,
            final(self).paddle == old(self).paddle,
    {
        self.projectiles.push(projectile);
        proof {
            assert forall|i: int| 0 <= i < self.projectiles@.len() implies #[trigger] self.projectiles@[i].wf() by {
                if i < old(self).projectiles@.len() {
                    assert(self.projectiles@[i] == old(self).projectiles@[i]);
                }
            }
        }
    }
}

/// While a level runs, the enemies alive never outnumber its cap.
pub proof fn lemma_cap_respected(g: Loop)
    requires
        g.wf(),
        g.level.is_some(),
    ensures
        g.enemies@.len() <= g.level.unwrap().enemies <= g.level.unwrap().enemy_limit,
{
}

/// A hostile projectile past x = 0 hurts the paddle by its damage and is
/// gone in the same pass: nothing of it is kept that could rebound later.
pub proof fn lemma_breach(f: Field, p: Projectile, ids: Seq<usize>, t: Tick, paddle: usize)
    requires
        p.wf(),
        !p.body().friendly,
        p.body().age_spec(t.now) <= TIME_TO_LIVE,
        p.body().position.x < 0,
    ensures
        settle(f, p, ids, t, paddle).kept == f.kept,
        settle(f, p, ids, t, paddle).health == sat_sub(f.health, p.body().damage_spec()),
        settle(f, p, ids, t, paddle).events == f.events.push(CombatEvent::PaddleHit(p.body().id)),
        settle(f, p, ids, t, paddle).enemies == f.enemies,
{
}

/// A projectile older than `TIME_TO_LIVE` is removed on its next pass,
/// whatever it overlaps, and touches nothing.
pub proof fn lemma_expired_removed(f: Field, p: Projectile, ids: Seq<usize>, t: Tick, paddle: usize)
    requires
        p.body().age_spec(t.now) > TIME_TO_LIVE,
    ensures
        settle(f, p, ids, t, paddle) == (Field { events: f.events.push(CombatEvent::Expired(p.body().id)), ..f }),
{
}

/// Whether `id` is among `ids`.
fn contains(ids: &Vec<usize>, id: usize) -> (r: bool)
    ensures
        r == ids@.contains(id),
{
    let mut i: usize = 0;
    while i < ids.len()
        invariant
            i <= ids@.len(),
            forall|j: int| 0 <= j < i ==> ids@[j] != id,
        decreases ids@.len() - i,
    {
        if ids[i] == id {
            return true;
        }
        i = i + 1;
    }
    false
}

} // verus!
