//! The level director: a timed queue of scripted events, paced by a waiting
//! time and gated by a cap on the enemies the level has alive at once.
use std::collections::VecDeque;
use vstd::prelude::*;

use crate::enemy::EnemyType;

verus! {

/// A colour in thousandths per channel (1000 is full intensity).
#[derive(Clone, Copy, Debug, PartialEq, Eq, Structural)]
pub struct Tint {
    pub r: u16,
    pub g: u16,
    pub b: u16,
}

/// What a level hands to the game on one call of `progress`, and what its
/// script is made of.
#[derive(Clone, Debug)]
pub enum LevelMessage {
    /// Nothing to do this tick.
    Idle,
    /// The script is exhausted and every enemy the level spawned is dead.
    Done,
    /// Spawn one enemy of this kind.
    SpawnEnemy(EnemyType),
    /// From now on wait this many milliseconds between events.
    ChangeWaitingTime(u64),
    /// Show an announcement banner: its colour, its glyph size in pixels and
    /// its text.
    ShowTitle { color: Tint, size: u32, text: String },
}

/// The state of one scripted level.
pub struct Level {
    /// The most enemies of this level that may be alive at once.
    pub enemy_limit: u32,
    /// The enemies this level spawned that are still alive.
    pub enemies: u32,
    /// Milliseconds that must pass between two events.
    pub event_duration: u64,
    /// When the last event was taken from the queue; `None` before the first.
    pub last_event: Option<u64>,
    /// The events still to come, front first.
    pub events: VecDeque<LevelMessage>,
    /// How many events the script held at the start.
    pub events_count: usize,
}

/// The queue once the waiting-time changes at its front have been applied,
/// and the waiting time they leave behind.
pub open spec fn skip_waits(q: Seq<LevelMessage>, d: u64) -> (Seq<LevelMessage>, u64)
    decreases q.len(),
{
    if q.len() > 0 && q[0] is ChangeWaitingTime {
        skip_waits(q.drop_first(), q[0]->ChangeWaitingTime_0)
    } else {
        (q, d)
    }
}

/// Whether `q` is a valid script: `Done` is never queued, only reported.
pub open spec fn script_ok(q: Seq<LevelMessage>) -> bool {
    forall|i: int| 0 <= i < q.len() ==> !(#[trigger] q[i] is Done)
}

/// What is left after skipping waits is the tail of the queue.
pub proof fn lemma_skip_waits_tail(q: Seq<LevelMessage>, d: u64)
    ensures
        skip_waits(q, d).0.len() <= q.len(),
        skip_waits(q, d).0 == q.subrange(q.len() - skip_waits(q, d).0.len(), q.len() as int),
    decreases q.len(),
{
    if q.len() > 0 && q[0] is ChangeWaitingTime {
        lemma_skip_waits_tail(q.drop_first(), q[0]->ChangeWaitingTime_0);
        assert(q.drop_first().subrange(
            q.drop_first().len() - skip_waits(q, d).0.len(),
            q.drop_first().len() as int,
        ) == q.subrange(q.len() - skip_waits(q, d).0.len(), q.len() as int));
    } else {
        assert(q.subrange(0, q.len() as int) == q);
    }
}

impl Level {
    /// The level's invariant: never more enemies alive than its cap, no
    /// more events queued than the script held, and no `Done` among them.
    pub open spec fn wf(self) -> bool {
        &&& self.enemies <= self.enemy_limit
        &&& self.events@.len() <= self.events_count
        &&& script_ok(self.events@)
    }

    /// Whether enough time has passed since the last event at time `now`.
    pub open spec fn paced(self, now: u64) -> bool {
        match self.last_event {
            None => true,
            Some(t) => now - t > self.event_duration,
        }
    }

    /// Whether a call of `progress` at time `now` may move the level on:
    /// below the cap and paced.
    pub open spec fn may_advance(self, now: u64) -> bool {
        self.enemies < self.enemy_limit && self.paced(now)
    }

    /// The message that `progress` at time `now` hands back.
    pub open spec fn next_message(self, now: u64) -> LevelMessage {
        let rest = skip_waits(self.events@, self.event_duration).0;
        if !self.may_advance(now) {
            LevelMessage::Idle
        } else if rest.len() == 0 {
            if self.enemies == 0 {
                LevelMessage::Done
            } else {
                LevelMessage::Idle
            }
        } else {
            rest[0]
        }
    }

    /// The level after a call of `progress` at time `now`.
    pub open spec fn after_progress(self, now: u64) -> Level {
        let (rest, d) = skip_waits(self.events@, self.event_duration);
        if !self.may_advance(now) || self.events@.len() == 0 {
            self
        } else if rest.len() == 0 {
            Level { event_duration: d, last_event: Some(now), ..self }
        } else {
            Level {
                enemies: if rest[0] is SpawnEnemy {
                    (self.enemies + 1) as u32
                } else {
                    self.enemies
                },
                event_duration: d,
                last_event: Some(now),
                ..self
            }
        }
    }

    /// The queue after a call of `progress` at time `now`.
    pub open spec fn events_after(self, now: u64) -> Seq<LevelMessage> {
        let rest = skip_waits(self.events@, self.event_duration).0;
        if !self.may_advance(now) || rest.len() == 0 {
            if self.may_advance(now) {
                rest
            } else {
                self.events@
            }
        } else {
            rest.drop_first()
        }
    }

    /// A level that will run the script `events`, waiting `event_duration`
    /// milliseconds between events, with at most `enemy_limit` of its enemies
    /// alive at once. Its first event is due at once.
    pub fn new(enemy_limit: u32, event_duration: u64, events: VecDeque<LevelMessage>) -> (r: Level)
        requires
            script_ok(events@),
        ensures
            r.wf(),
            r.enemy_limit == enemy_limit,
            r.enemies == 0,
            r.event_duration == event_duration,
            r.last_event.is_none(),
            r.events@ == events@,
            r.events_count == events@.len(),
    {
        let events_count = events.len();
        Level { enemy_limit, enemies: 0, event_duration, last_event: None, events, events_count }
    }

    /// Moves the level on at time `now` (milliseconds).
    ///
    /// Nothing happens unless fewer than `enemy_limit` of the level's enemies
    /// are alive and more than `event_duration` has passed since the last
    /// event. Then waiting-time changes at the front of the queue are applied
    /// and the next event is handed back; a spawn counts towards the cap at
    /// once. With the queue exhausted, `Done` comes once every spawned enemy
    /// is dead, `None` before that.
    pub fn progress(&mut self, now: u64) -> (r: LevelMessage)
        requires
            old(self).wf(),
        ensures
            final(self).wf(),
            r == old(self).next_message(now),
            final(self).enemy_limit == old(self).after_progress(now).enemy_limit,
            final(self).enemies == old(self).after_progress(now).enemies,
            final(self).event_duration == old(self).after_progress(now).event_duration,
            final(self).last_event == old(self).after_progress(now).last_event,
            final(self).events_count == old(self).events_count,
            final(self).events@ == old(self).events_after(now),
            !old(self).may_advance(now) ==> r is Idle && final(self).events@ == old(self).events@,
            r is Done ==> old(self).enemies == 0 && final(self).events@.len() == 0,
    {
        let paced = match self.last_event {
            None => true,
            Some(t) => now >= t && now - t > self.event_duration,
        };
        if !(self.enemies < self.enemy_limit && paced) {
            return LevelMessage::Idle;
        }
        proof {
            lemma_skip_waits_tail(self.events@, self.event_duration);
        }
        if self.events.len() == 0 {
            return if self.enemies == 0 {
                LevelMessage::Done
            } else {
                LevelMessage::Idle
            };
        }
        self.last_event = Some(now);
        loop
            invariant
                self.enemies < self.enemy_limit,
                self.enemy_limit == old(self).enemy_limit,
                self.enemies == old(self).enemies,
                self.events_count == old(self).events_count,
                self.last_event == Some(now),
                self.events@.len() <= old(self).events@.len(),
                skip_waits(self.events@, self.event_duration) == skip_waits(
                    old(self).events@,
                    old(self).event_duration,
                ),
                old(self).wf(),
                script_ok(self.events@),
                old(self).may_advance(now),
                old(self).events@.len() > 0,
            decreases self.events@.len(),
        {
            match self.events.pop_front() {
                None => {
                    return if self.enemies == 0 {
                        LevelMessage::Done
                    } else {
                        LevelMessage::Idle
                    };
                },
                Some(message) => {
                    match message {
                        LevelMessage::ChangeWaitingTime(d) => {
                            self.event_duration = d;
                        },
                        LevelMessage::SpawnEnemy(kind) => {
                            self.enemies = self.enemies + 1;
                            return LevelMessage::SpawnEnemy(kind);
                        },
                        other => {
                            return other;
                        },
                    }
                },
            }
        }
    }

    /// Records that one enemy of this level died.
    pub fn kill(&mut self)
        requires
            old(self).wf(),
            old(self).enemies > 0,
        ensures
            final(self).wf(),
            final(self).enemies == old(self).enemies - 1,
            final(self).enemy_limit == old(self).enemy_limit,
            final(self).event_duration == old(self).event_duration,
            final(self).last_event == old(self).last_event,
            final(self).events@ == old(self).events@,
            final(self).events_count == old(self).events_count,
    {
        self.enemies = self.enemies - 1;
    }

    /// The events still queued.
    pub fn remaining(&self) -> (r: usize)
        ensures
            r == self.events@.len(),
    {
        self.events.len()
    }
}

/// A call of `progress` before the waiting time since the last event has
/// run out hands back `Idle` and leaves the level as it was.
pub proof fn lemma_unpaced_is_noop(l: Level, now: u64, t: u64)
    requires
        l.wf(),
        l.last_event == Some(t),
        now - t < l.event_duration,
    ensures
        l.next_message(now) is Idle,
        l.after_progress(now) == l,
        l.events_after(now) == l.events@,
{
}

/// `progress` hands back `Done` exactly when, the wait being over, no event
/// but waiting-time changes is left and no enemy of the level is alive; with
/// the queue empty and an enemy alive it hands back `Idle`, and the level
/// stays as it was, call after call.
pub proof fn lemma_done_iff(l: Level, now: u64)
    requires
        l.wf(),
    ensures
        (l.next_message(now) is Done) <==> (l.may_advance(now) && skip_waits(l.events@, l.event_duration).0.len() == 0
            && l.enemies == 0),
        l.events@.len() == 0 && l.enemies > 0 ==> l.next_message(now) is Idle && l.after_progress(now) == l
            && l.events_after(now) == l.events@,
{
    lemma_skip_waits_tail(l.events@, l.event_duration);
    let rest = skip_waits(l.events@, l.event_duration).0;
    if rest.len() > 0 {
        assert(rest[0] == l.events@[l.events@.len() - rest.len()]);
    }
}

} // verus!
