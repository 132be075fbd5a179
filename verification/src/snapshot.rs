//! Snapshots of the live encounter for presentation, and the broadcaster
//! that decides when one is due.
//!
//! A snapshot is a copy that shares nothing with the encounter it was taken
//! from. It keeps the players that have landed a hit and have hit points,
//! without their logs; the boss is looked up among all entities before the
//! others are left out, and is carried as it stands.

use vstd::prelude::*;
use crate::aggregator::{resolve_boss, Aggregator};
use crate::model::{
    entities_wf, Encounter, EncounterView, Entity, EntityType, EntityView,
};
use crate::table::NameTable;

verus! {

/// Whether an entity is shown: a player that has landed a hit and has hit
/// points.
pub open spec fn presentable(e: EntityView) -> bool {
    e.entity_type == EntityType::Player && e.skill_stats.hits > 0 && e.max_hp > 0
}

/// The entities that are shown, in their order and without their logs.
pub open spec fn shown(entities: Seq<(Seq<char>, EntityView)>) -> Seq<(Seq<char>, EntityView)> {
    entities.filter(|e: (Seq<char>, EntityView)| presentable(e.1)).map_values(
        |e: (Seq<char>, EntityView)| (e.0, e.1.summary()),
    )
}

/// The encounter as it is shown: its boss looked up, and of its entities
/// those that are shown.
pub open spec fn sanitized(enc: EncounterView) -> EncounterView {
    let resolved = resolve_boss(enc);
    EncounterView { entities: shown(resolved.entities), ..resolved }
}

/// What showing does with one more entity at the end.
pub proof fn lemma_shown_push(entities: Seq<(Seq<char>, EntityView)>, e: (Seq<char>, EntityView))
    ensures
        shown(entities.push(e)) == if presentable(e.1) {
            shown(entities).push((e.0, e.1.summary()))
        } else {
            shown(entities)
        },
{
    reveal(Seq::filter);
    assert(entities.push(e).drop_last() =~= entities);
}

/// Nothing is shown but players that have landed a hit and have hit points,
/// each one without its damage log and without the cast logs of its skills;
/// and each such player is shown.
pub proof fn lemma_shown(entities: Seq<(Seq<char>, EntityView)>)
    ensures
        forall|j: int|
            0 <= j < shown(entities).len() ==> {
                let e = (#[trigger] shown(entities)[j]).1;
                &&& e.entity_type == EntityType::Player
                &&& e.skill_stats.hits > 0
                &&& e.max_hp > 0
                &&& e.damage_stats.damage_log.len() == 0
                &&& forall|k: int| 0 <= k < e.skills.len() ==> (#[trigger] e.skills[k]).1.cast_log.len() == 0
                &&& exists|i: int|
                    0 <= i < entities.len() && shown(entities)[j] == (
                        (#[trigger] entities[i]).0,
                        entities[i].1.summary(),
                    )
            },
        forall|i: int|
            0 <= i < entities.len() && presentable((#[trigger] entities[i]).1) ==> exists|j: int|
                0 <= j < shown(entities).len() && #[trigger] shown(entities)[j] == (
                    entities[i].0,
                    entities[i].1.summary(),
                ),
    decreases entities.len(),
{
    if entities.len() > 0 {
        let rest = entities.drop_last();
        let last = entities.last();
        lemma_shown(rest);
        lemma_shown_push(rest, last);
        assert(rest.push(last) =~= entities);
        assert forall|j: int| 0 <= j < shown(entities).len() implies {
            let e = (#[trigger] shown(entities)[j]).1;
            &&& e.entity_type == EntityType::Player
            &&& e.skill_stats.hits > 0
            &&& e.max_hp > 0
            &&& e.damage_stats.damage_log.len() == 0
            &&& forall|k: int| 0 <= k < e.skills.len() ==> (#[trigger] e.skills[k]).1.cast_log.len() == 0
            &&& exists|i: int|
                0 <= i < entities.len() && shown(entities)[j] == (
                    (#[trigger] entities[i]).0,
                    entities[i].1.summary(),
                )
        } by {
            if j < shown(rest).len() {
                assert(shown(entities)[j] == shown(rest)[j]);
                let i = choose|i: int|
                    0 <= i < rest.len() && shown(rest)[j] == (
                        (#[trigger] rest[i]).0,
                        rest[i].1.summary(),
                    );
                assert(entities[i] == rest[i]);
            } else {
                assert(shown(entities)[j] == (last.0, last.1.summary()));
                assert(entities[entities.len() - 1] == last);
            }
        }
        assert forall|i: int|
            0 <= i < entities.len() && presentable((#[trigger] entities[i]).1) implies exists|
            j: int,
        |
            0 <= j < shown(entities).len() && #[trigger] shown(entities)[j] == (
                entities[i].0,
                entities[i].1.summary(),
            ) by {
            if i < rest.len() {
                assert(rest[i] == entities[i]);
                let j = choose|j: int|
                    0 <= j < shown(rest).len() && #[trigger] shown(rest)[j] == (
                        rest[i].0,
                        rest[i].1.summary(),
                    );
                assert(shown(entities)[j] == shown(rest)[j]);
            } else {
                let j = shown(entities).len() - 1;
                assert(shown(entities)[j] == (last.0, last.1.summary()));
            }
        }
    } else {
        reveal(Seq::filter);
    }
}

impl Entity {
    /// Whether the entity is shown.
    pub fn is_presentable(&self) -> (yes: bool)
        ensures
            yes == presentable(self@),
    {
        let player = match self.entity_type {
            EntityType::Player => true,
            _ => false,
        };
        player && self.skill_stats.hits > 0 && self.max_hp > 0
    }
}

/// Copies of the entities that are shown, without their logs.
pub fn presentable_entities(entities: &NameTable<Entity>) -> (kept: NameTable<Entity>)
    requires
        entities_wf(entities),
    ensures
        entities_wf(&kept),
        kept@ == shown(entities@),
{
    let mut kept: NameTable<Entity> = NameTable::new();
    let n = entities.len();
    let mut i: usize = 0;
    proof {
        entities.lemma_view();
        lemma_shown(entities@.take(0));
    }
    while i < n
        invariant
            entities_wf(entities),
            entities_wf(&kept),
            n == entities.entries().len(),
            n == entities@.len(),
            i <= n,
            kept@ == shown(entities@.take(i as int)),
            forall|j: int|
                0 <= j < kept.entries().len() ==> exists|k: int|
                    0 <= k < i && (#[trigger] kept.entries()[j]).0@ == (
                    #[trigger] entities.entries()[k]).0@,
        decreases n - i,
    {
        let entity = entities.get(i);
        proof {
            entities.lemma_view();
            assert(entities@.take(i as int + 1) =~= entities@.take(i as int).push(entities@[i as int]));
            lemma_shown_push(entities@.take(i as int), entities@[i as int]);
        }
        if entity.is_presentable() {
            let name = entities.name_at(i).clone();
            proof {
                entities.lemma_names_distinct();
                if kept.has(name@) {
                    let j = choose|j: int|
                        0 <= j < kept.entries().len() && (#[trigger] kept.entries()[j]).0@
                            == name@;
                    let k = choose|k: int|
                        0 <= k < i && (#[trigger] kept.entries()[j]).0@ == (
                        #[trigger] entities.entries()[k]).0@;
                    assert(entities.entries()[k].0@ == entities.entries()[i as int].0@);
                }
            }
            let ghost before = kept.entries();
            kept.insert_new(name, entity.summary());
            proof {
                assert forall|j: int| 0 <= j < kept.entries().len() implies exists|k: int|
                    0 <= k < i + 1 && (#[trigger] kept.entries()[j]).0@ == (
                    #[trigger] entities.entries()[k]).0@ by {
                    if j < before.len() {
                        assert(kept.entries()[j] == before[j]);
                        let k = choose|k: int|
                            0 <= k < i && (#[trigger] before[j]).0@ == (
                            #[trigger] entities.entries()[k]).0@;
                        assert(kept.entries()[j].0@ == entities.entries()[k].0@);
                    } else {
                        assert(kept.entries()[j].0@ == entities.entries()[i as int].0@);
                    }
                }
            }
        }
        i += 1;
    }
    proof {
        assert(entities@.take(n as int) =~= entities@);
    }
    kept
}

impl Encounter {
    /// A snapshot of the encounter for presentation, or nothing where no
    /// entity would be shown.
    pub fn snapshot(&self) -> (copy: Option<Encounter>)
        requires
            self.wf(),
        ensures
            match copy {
                Some(shot) => shot.wf() && shot@ == sanitized(self@) && shot@.entities.len() > 0,
                None => shown(self@.entities).len() == 0,
            },
    {
        let entities = presentable_entities(&self.entities);
        if entities.len() == 0 {
            return None;
        }
        let mut shot = Encounter {
            id: self.id,
            last_combat_packet: self.last_combat_packet,
            fight_start: self.fight_start,
            local_player: self.local_player.clone(),
            current_boss_name: self.current_boss_name.clone(),
            current_boss: match &self.current_boss {
                Some(boss) => Some(boss.deep_copy()),
                None => None,
            },
            duration: self.duration,
            encounter_damage_stats: self.encounter_damage_stats.deep_copy(),
            entities,
        };
        if !self.current_boss_name.as_str().is_empty() {
            match self.entities.find(self.current_boss_name.as_str()) {
                Some(slot) => {
                    shot.current_boss = Some(self.entities.get(slot).deep_copy());
                },
                None => {
                    shot.current_boss = None;
                    shot.current_boss_name = String::new();
                },
            }
        }
        Some(shot)
    }
}

/// Milliseconds between two snapshots while a fight runs.
pub const BROADCAST_INTERVAL_MS: u64 = 100;

/// Whether a snapshot is due at time `now`: at once when the raid has ended,
/// and otherwise when `cadence` has passed since the last one was due.
pub open spec fn due(last_tick: u64, now: u64, cadence: u64, raid_end: bool) -> bool {
    raid_end || (now >= last_tick && now - last_tick >= cadence)
}

/// A snapshot with its number. Numbers grow from one publication to the
/// next, so that a subscriber can tell a late snapshot from a new one.
#[derive(Debug)]
pub struct Snapshot {
    pub sequence: u64,
    pub encounter: Encounter,
}

/// Decides when a snapshot is due and numbers the snapshots it hands out.
/// Times are in milliseconds of a clock that runs forward.
#[derive(Clone, Copy, Debug, PartialEq, Eq, Structural)]
pub struct Broadcaster {
    pub cadence: u64,
    pub last_tick: u64,
    pub next_sequence: u64,
}

/// The broadcaster after it was asked at time `now`.
pub open spec fn polled(b: Broadcaster, now: u64, raid_end: bool, enc: EncounterView) -> Broadcaster {
    if !due(b.last_tick, now, b.cadence, raid_end) {
        b
    } else if publishes(b, now, raid_end, enc) {
        Broadcaster { last_tick: now, next_sequence: (b.next_sequence + 1) as u64, ..b }
    } else {
        Broadcaster { last_tick: now, ..b }
    }
}

/// Whether the broadcaster hands a snapshot out when asked at time `now`:
/// one must be due, an entity must be there to show, and a number must be
/// left.
pub open spec fn publishes(b: Broadcaster, now: u64, raid_end: bool, enc: EncounterView) -> bool {
    due(b.last_tick, now, b.cadence, raid_end) && shown(enc.entities).len() > 0 && b.next_sequence
        < u64::MAX
}

impl Broadcaster {
    /// A broadcaster that starts its clock at `now` and its numbers at zero.
    pub fn new(now: u64) -> (b: Broadcaster)
        ensures
            b == (Broadcaster { cadence: BROADCAST_INTERVAL_MS, last_tick: now, next_sequence: 0 }),
    {
        Broadcaster { cadence: BROADCAST_INTERVAL_MS, last_tick: now, next_sequence: 0 }
    }

    /// Whether a snapshot is due at time `now`.
    pub fn is_due(&self, now: u64, raid_end: bool) -> (yes: bool)
        ensures
            yes == due(self.last_tick, now, self.cadence, raid_end),
    {
        raid_end || (now >= self.last_tick && now - self.last_tick >= self.cadence)
    }

    /// Asks the broadcaster at time `now`, after the aggregator has taken a
    /// line. Where a snapshot is due, the clock is set to `now`; where there
    /// is also something to show, the snapshot is handed out under the next
    /// number.
    pub fn poll(&mut self, now: u64, aggregator: &Aggregator) -> (shot: Option<Snapshot>)
        requires
            aggregator.wf(),
        ensures
            *final(self) == polled(
                *old(self),
                now,
                aggregator@.phase is Finalizing,
                aggregator@.encounter,
            ),
            match shot {
                Some(s) => {
                    &&& publishes(
                        *old(self),
                        now,
                        aggregator@.phase is Finalizing,
                        aggregator@.encounter,
                    )
                    &&& s.sequence == old(self).next_sequence
                    &&& s.encounter.wf()
                    &&& s.encounter@ == sanitized(aggregator@.encounter)
                },
                None => !publishes(
                    *old(self),
                    now,
                    aggregator@.phase is Finalizing,
                    aggregator@.encounter,
                ),
            },
    {
        if !self.is_due(now, aggregator.raid_end()) {
            return None;
        }
        self.last_tick = now;
        if self.next_sequence == u64::MAX {
            return None;
        }
        match aggregator.encounter().snapshot() {
            Some(encounter) => {
                let sequence = self.next_sequence;
                self.next_sequence = sequence + 1;
                Some(Snapshot { sequence, encounter })
            },
            None => None,
        }
    }
}

/// One question to the broadcaster: the time, whether the raid has ended,
/// and the encounter as it stood.
pub struct Poll {
    pub now: u64,
    pub raid_end: bool,
    pub encounter: EncounterView,
}

/// The broadcaster after it was asked `polls`, one after the other.
pub open spec fn polled_all(b: Broadcaster, polls: Seq<Poll>) -> Broadcaster
    decreases polls.len(),
{
    if polls.len() == 0 {
        b
    } else {
        let last = polls.last();
        polled(polled_all(b, polls.drop_last()), last.now, last.raid_end, last.encounter)
    }
}

/// Whether the last of `polls` is answered with a snapshot.
pub open spec fn last_publishes(b: Broadcaster, polls: Seq<Poll>) -> bool {
    polls.len() > 0 && publishes(
        polled_all(b, polls.drop_last()),
        polls.last().now,
        polls.last().raid_end,
        polls.last().encounter,
    )
}

/// The next number never falls.
pub proof fn lemma_numbers_never_fall(b: Broadcaster, polls: Seq<Poll>, k: int)
    requires
        0 <= k <= polls.len(),
    ensures
        polled_all(b, polls.take(k)).next_sequence <= polled_all(b, polls).next_sequence,
    decreases polls.len() - k,
{
    if k < polls.len() {
        assert(polls.take(k + 1).drop_last() =~= polls.take(k));
        lemma_numbers_never_fall(b, polls, k + 1);
    } else {
        assert(polls.take(k) =~= polls);
    }
}

/// Snapshots are numbered in the order in which they are handed out: of two
/// polls that are answered with a snapshot, the later gives the larger
/// number, whatever was asked in between.
pub proof fn lemma_numbers_grow(b: Broadcaster, polls: Seq<Poll>, i: int, j: int)
    requires
        0 <= i < j < polls.len(),
        last_publishes(b, polls.take(i + 1)),
        last_publishes(b, polls.take(j + 1)),
    ensures
        polled_all(b, polls.take(i)).next_sequence < polled_all(b, polls.take(j)).next_sequence,
{
    assert(polls.take(i + 1).drop_last() =~= polls.take(i));
    assert(polls.take(j).take(i + 1) =~= polls.take(i + 1));
    lemma_numbers_never_fall(b, polls.take(j), i + 1);
}

} // verus!
