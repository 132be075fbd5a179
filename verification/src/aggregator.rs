//! The encounter aggregator: a state machine that takes one event at a time
//! and builds the current encounter from it.
//!
//! The machine is idle until the first hit, active while the fight runs, and
//! finalizing from the end-of-raid marker until the encounter is handed out.
//! An event that cannot be applied is dropped and leaves the state as it is:
//! one whose time is negative or lies before the last hit, a hit with a
//! negative amount, and anything that arrives while the machine is finalizing.

use vstd::prelude::*;
use crate::event::{
    DamageEvent, DamageEventView, EffectKind, EntityChange, EntityChangeView, EntityUpdate,
    EntityUpdateView, Event, EventView, StatusEvent, StatusEventView,
};
use crate::metrics::{
    damage_per_second, dps_of, elapsed, larger, lemma_dps_of, max_of, sat_add, saturating_sum,
    span, whole_seconds, MILLIS_PER_SECOND,
};
use crate::model::{
    entities_wf, DamageRecord, DamageStatsView, Encounter, EncounterDamageStatsView,
    EncounterView, Entity, EntityType, EntityView, HitFlags, Skill, SkillStats, SkillView,
    StatusEffectView,
};
use crate::table::{id_known, id_slot, name_known, name_slot, NameTable};

verus! {

/// `count` and one more where `when` holds; `count` otherwise.
pub open spec fn bump(count: i64, when: bool) -> i64 {
    if when {
        sat_add(count, 1)
    } else {
        count
    }
}

/// The log entry that a hit leaves.
pub open spec fn record_of(d: DamageEventView) -> DamageRecord {
    DamageRecord { timestamp: d.timestamp, amount: d.amount, flags: d.flags }
}

/// A skill after one more hit.
pub open spec fn skill_hit(skill: SkillView, d: DamageEventView) -> SkillView {
    SkillView {
        name: skill.name,
        total_damage: sat_add(skill.total_damage, d.amount),
        max_damage: larger(skill.max_damage, d.amount),
        hits: sat_add(skill.hits, 1),
        crits: bump(skill.crits, d.flags.crit),
        cast_log: skill.cast_log.push(d.timestamp),
    }
}

/// `skills` with a skill under `id`: as they are where it is known, and with
/// a fresh skill called `name` at the end where it is not.
pub open spec fn with_skill(skills: Seq<(i32, SkillView)>, id: i32, name: Seq<char>) -> Seq<
    (i32, SkillView),
> {
    if id_known(skills, id) {
        skills
    } else {
        skills.push((id, SkillView::fresh(name)))
    }
}

/// `skills` after a hit with the skill that `d` names.
pub open spec fn skills_hit(skills: Seq<(i32, SkillView)>, d: DamageEventView) -> Seq<
    (i32, SkillView),
> {
    let present = with_skill(skills, d.skill_id, d.skill_name);
    let slot = id_slot(present, d.skill_id);
    present.update(slot, (d.skill_id, skill_hit(present[slot].1, d)))
}

/// Hit counters after one more hit.
pub open spec fn stats_hit(stats: SkillStats, flags: HitFlags) -> SkillStats {
    SkillStats {
        hits: sat_add(stats.hits, 1),
        crits: bump(stats.crits, flags.crit),
        back_attacks: bump(stats.back_attacks, flags.back_attack),
        front_attacks: bump(stats.front_attacks, flags.front_attack),
    }
}

/// The entity that dealt the hit `d`, after it.
pub open spec fn entity_dealt(e: EntityView, d: DamageEventView) -> EntityView {
    EntityView {
        skills: skills_hit(e.skills, d),
        damage_stats: DamageStatsView {
            damage_dealt: sat_add(e.damage_stats.damage_dealt, d.amount),
            damage_log: e.damage_stats.damage_log.push(record_of(d)),
            ..e.damage_stats
        },
        skill_stats: stats_hit(e.skill_stats, d.flags),
        ..e
    }
}

/// The entity that took a hit of `amount`, after it.
pub open spec fn entity_taken(e: EntityView, amount: i64) -> EntityView {
    EntityView {
        damage_stats: DamageStatsView {
            damage_taken: sat_add(e.damage_stats.damage_taken, amount),
            ..e.damage_stats
        },
        ..e
    }
}

/// The entity after `change`.
pub open spec fn entity_changed(e: EntityView, change: EntityChangeView) -> EntityView {
    match change {
        EntityChangeView::Identity { entity_type, class_id, class_name, npc_id } => EntityView {
            entity_type,
            class_id,
            class_name,
            npc_id,
            ..e
        },
        EntityChangeView::Health { current_hp, max_hp } => EntityView { current_hp, max_hp, ..e },
        EntityChangeView::GearScore { hundredths } => EntityView { gear_score: hundredths, ..e },
        EntityChangeView::Death => EntityView { is_dead: true, ..e },
        EntityChangeView::LocalPlayer => e,
    }
}

/// `entities` with an entity under `name`: as they are where it is known,
/// and with a fresh entity at the end where it is not.
pub open spec fn with_entity(entities: Seq<(Seq<char>, EntityView)>, name: Seq<char>) -> Seq<
    (Seq<char>, EntityView),
> {
    if name_known(entities, name) {
        entities
    } else {
        entities.push((name, EntityView::fresh()))
    }
}

/// `effects` with what is known of `id`: the first description of an
/// identifier stays.
pub open spec fn with_effect(
    effects: Seq<(i32, StatusEffectView)>,
    id: i32,
    effect: StatusEffectView,
) -> Seq<(i32, StatusEffectView)> {
    if id_known(effects, id) {
        effects
    } else {
        effects.push((id, effect))
    }
}

/// The encounter after the hit `d`. Source and target are created where they
/// are new. The encounter's totals count what players dealt and took, its
/// top values are the largest totals of one player, and a target that is a
/// boss becomes the current boss.
pub open spec fn record_damage(enc: EncounterView, d: DamageEventView) -> EncounterView {
    let present = with_entity(with_entity(enc.entities, d.source), d.target);
    let s = name_slot(present, d.source);
    let dealt = present.update(s, (d.source, entity_dealt(present[s].1, d)));
    let t = name_slot(dealt, d.target);
    let taken = dealt.update(t, (d.target, entity_taken(dealt[t].1, d.amount)));
    let source = taken[s].1;
    let target = taken[t].1;
    let by_player = source.entity_type == EntityType::Player;
    let to_player = target.entity_type == EntityType::Player;
    let stats = enc.encounter_damage_stats;
    EncounterView {
        last_combat_packet: d.timestamp,
        current_boss_name: if target.entity_type == EntityType::Boss {
            d.target
        } else {
            enc.current_boss_name
        },
        encounter_damage_stats: EncounterDamageStatsView {
            total_damage_dealt: if by_player {
                sat_add(stats.total_damage_dealt, d.amount)
            } else {
                stats.total_damage_dealt
            },
            top_damage_dealt: if by_player {
                larger(stats.top_damage_dealt, source.damage_stats.damage_dealt)
            } else {
                stats.top_damage_dealt
            },
            total_damage_taken: if to_player {
                sat_add(stats.total_damage_taken, d.amount)
            } else {
                stats.total_damage_taken
            },
            top_damage_taken: if to_player {
                larger(stats.top_damage_taken, target.damage_stats.damage_taken)
            } else {
                stats.top_damage_taken
            },
            ..stats
        },
        entities: taken,
        ..enc
    }
}

/// The encounter after a status effect was applied: the effect is entered
/// among the buffs or the debuffs under its identifier, unless that
/// identifier is known there already.
pub open spec fn record_status(enc: EncounterView, s: StatusEventView) -> EncounterView {
    let stats = enc.encounter_damage_stats;
    EncounterView {
        encounter_damage_stats: match s.kind {
            EffectKind::Buff => EncounterDamageStatsView {
                buffs: with_effect(stats.buffs, s.effect_id, s.effect),
                ..stats
            },
            EffectKind::Debuff => EncounterDamageStatsView {
                debuffs: with_effect(stats.debuffs, s.effect_id, s.effect),
                ..stats
            },
        },
        ..enc
    }
}

/// The encounter after an entity update: the entity is created where it is
/// new, then changed.
pub open spec fn record_update(enc: EncounterView, u: EntityUpdateView) -> EncounterView {
    let present = with_entity(enc.entities, u.name);
    let slot = name_slot(present, u.name);
    EncounterView {
        local_player: if u.change is LocalPlayer {
            u.name
        } else {
            enc.local_player
        },
        entities: present.update(slot, (u.name, entity_changed(present[slot].1, u.change))),
        ..enc
    }
}

impl Skill {
    /// Counts one more hit of this skill.
    pub fn record_hit(&mut self, d: &DamageEvent)
        ensures
            final(self)@ == skill_hit(old(self)@, d@),
    {
        self.total_damage = saturating_sum(self.total_damage, d.amount);
        self.max_damage = max_of(self.max_damage, d.amount);
        self.hits = saturating_sum(self.hits, 1);
        if d.flags.crit {
            self.crits = saturating_sum(self.crits, 1);
        }
        self.cast_log.push(d.timestamp);
    }
}

impl SkillStats {
    /// The counters after one more hit.
    pub fn after_hit(self, flags: HitFlags) -> (stats: SkillStats)
        ensures
            stats == stats_hit(self, flags),
    {
        SkillStats {
            hits: saturating_sum(self.hits, 1),
            crits: if flags.crit {
                saturating_sum(self.crits, 1)
            } else {
                self.crits
            },
            back_attacks: if flags.back_attack {
                saturating_sum(self.back_attacks, 1)
            } else {
                self.back_attacks
            },
            front_attacks: if flags.front_attack {
                saturating_sum(self.front_attacks, 1)
            } else {
                self.front_attacks
            },
        }
    }
}

impl Entity {
    /// Books a hit that this entity dealt.
    pub fn record_dealt(&mut self, d: &DamageEvent)
        requires
            old(self).wf(),
        ensures
            final(self).wf(),
            final(self)@ == entity_dealt(old(self)@, d@),
    {
        let slot = match self.skills.find(d.skill_id) {
            Some(slot) => slot,
            None => {
                let slot = self.skills.len();
                self.skills.insert_new(d.skill_id, Skill::new(d.skill_name.clone()));
                slot
            },
        };
        proof {
            self.skills.lemma_view();
        }
        self.skills.get_mut(slot).record_hit(d);
        self.damage_stats.damage_dealt = saturating_sum(self.damage_stats.damage_dealt, d.amount);
        self.damage_stats.damage_log.push(
            DamageRecord { timestamp: d.timestamp, amount: d.amount, flags: d.flags },
        );
        self.skill_stats = self.skill_stats.after_hit(d.flags);
    }

    /// Books a hit of `amount` that this entity took.
    pub fn record_taken(&mut self, amount: i64)
        ensures
            old(self).wf() ==> final(self).wf(),
            final(self)@ == entity_taken(old(self)@, amount),
    {
        self.damage_stats.damage_taken = saturating_sum(self.damage_stats.damage_taken, amount);
    }

    /// Applies `change` to this entity.
    pub fn apply_change(&mut self, change: &EntityChange)
        ensures
            old(self).wf() ==> final(self).wf(),
            final(self)@ == entity_changed(old(self)@, change@),
    {
        match change {
            EntityChange::Identity { entity_type, class_id, class_name, npc_id } => {
                self.entity_type = *entity_type;
                self.class_id = *class_id;
                self.class_name = class_name.clone();
                self.npc_id = *npc_id;
            },
            EntityChange::Health { current_hp, max_hp } => {
                self.current_hp = *current_hp;
                self.max_hp = *max_hp;
            },
            EntityChange::GearScore { hundredths } => {
                self.gear_score = *hundredths;
            },
            EntityChange::Death => {
                self.is_dead = true;
            },
            EntityChange::LocalPlayer => {},
        }
    }
}

/// The slot of the entity called `name`, which is created where it is new.
pub fn slot_of_entity(entities: &mut NameTable<Entity>, name: &String) -> (slot: usize)
    requires
        entities_wf(old(entities)),
    ensures
        entities_wf(final(entities)),
        final(entities)@ == with_entity(old(entities)@, name@),
        slot < final(entities)@.len(),
        final(entities)@[slot as int].0 == name@,
        slot == name_slot(final(entities)@, name@),
{
    let slot = match entities.find(name.as_str()) {
        Some(slot) => slot,
        None => {
            let slot = entities.len();
            entities.insert_new(name.clone(), Entity::new());
            slot
        },
    };
    proof {
        entities.lemma_view();
    }
    slot
}

impl Encounter {
    /// Books the hit `d`.
    pub fn record_damage(&mut self, d: &DamageEvent)
        requires
            old(self).wf(),
        ensures
            final(self).wf(),
            final(self)@ == record_damage(old(self)@, d@),
    {
        let s = slot_of_entity(&mut self.entities, &d.source);
        let t = slot_of_entity(&mut self.entities, &d.target);
        proof {
            self.entities.lemma_view();
        }
        self.entities.get_mut(s).record_dealt(d);
        proof {
            self.entities.lemma_view();
        }
        self.entities.get_mut(t).record_taken(d.amount);
        let source = self.entities.get(s);
        if source.entity_type == EntityType::Player {
            self.encounter_damage_stats.total_damage_dealt = saturating_sum(
                self.encounter_damage_stats.total_damage_dealt,
                d.amount,
            );
            self.encounter_damage_stats.top_damage_dealt = max_of(
                self.encounter_damage_stats.top_damage_dealt,
                source.damage_stats.damage_dealt,
            );
        }
        let target = self.entities.get(t);
        if target.entity_type == EntityType::Player {
            self.encounter_damage_stats.total_damage_taken = saturating_sum(
                self.encounter_damage_stats.total_damage_taken,
                d.amount,
            );
            self.encounter_damage_stats.top_damage_taken = max_of(
                self.encounter_damage_stats.top_damage_taken,
                target.damage_stats.damage_taken,
            );
        }
        if target.entity_type == EntityType::Boss {
            self.current_boss_name = d.target.clone();
        }
        self.last_combat_packet = d.timestamp;
    }

    /// Books a status effect that was applied.
    pub fn record_status(&mut self, s: &StatusEvent)
        requires
            old(self).wf(),
        ensures
            final(self).wf(),
            final(self)@ == record_status(old(self)@, s@),
    {
        match s.kind {
            EffectKind::Buff => {
                if self.encounter_damage_stats.buffs.find(s.effect_id).is_none() {
                    self.encounter_damage_stats.buffs.insert_new(s.effect_id, s.effect.deep_copy());
                }
            },
            EffectKind::Debuff => {
                if self.encounter_damage_stats.debuffs.find(s.effect_id).is_none() {
                    self.encounter_damage_stats.debuffs.insert_new(
                        s.effect_id,
                        s.effect.deep_copy(),
                    );
                }
            },
        }
    }

    /// Books an entity update.
    pub fn record_update(&mut self, u: &EntityUpdate)
        requires
            old(self).wf(),
        ensures
            final(self).wf(),
            final(self)@ == record_update(old(self)@, u@),
    {
        let slot = slot_of_entity(&mut self.entities, &u.name);
        self.entities.get_mut(slot).apply_change(&u.change);
        match u.change {
            EntityChange::LocalPlayer => {
                self.local_player = u.name.clone();
            },
            _ => {},
        }
    }
}


/// An entity with its damage per second over `duration`.
pub open spec fn with_dps(e: EntityView, duration: i64) -> EntityView {
    EntityView {
        damage_stats: DamageStatsView {
            dps: dps_of(e.damage_stats.damage_dealt, duration),
            ..e.damage_stats
        },
        ..e
    }
}

/// `entities`, each with its damage per second over `duration`.
pub open spec fn rated(entities: Seq<(Seq<char>, EntityView)>, duration: i64) -> Seq<
    (Seq<char>, EntityView),
> {
    entities.map_values(|e: (Seq<char>, EntityView)| (e.0, with_dps(e.1, duration)))
}

/// The encounter with its current boss looked up among all its entities.
/// Without a boss name nothing changes. A name that no entity bears is
/// cleared, and the encounter then has no boss.
pub open spec fn resolve_boss(enc: EncounterView) -> EncounterView {
    if enc.current_boss_name.len() == 0 {
        enc
    } else if name_known(enc.entities, enc.current_boss_name) {
        EncounterView {
            current_boss: Some(enc.entities[name_slot(enc.entities, enc.current_boss_name)].1),
            ..enc
        }
    } else {
        EncounterView { current_boss_name: Seq::empty(), current_boss: None, ..enc }
    }
}

/// The encounter as it is handed out when the fight is over: with its
/// duration, the damage per second of the encounter and of every entity,
/// and its boss looked up.
pub open spec fn finalized(enc: EncounterView) -> EncounterView {
    let duration = span(enc.fight_start, enc.last_combat_packet);
    resolve_boss(
        EncounterView {
            duration,
            encounter_damage_stats: EncounterDamageStatsView {
                dps: dps_of(enc.encounter_damage_stats.total_damage_dealt, duration),
                ..enc.encounter_damage_stats
            },
            entities: rated(enc.entities, duration),
            ..enc
        },
    )
}

/// Where the aggregator stands between two fights, in a fight, and after one.
#[derive(Clone, Copy, Debug, PartialEq, Eq, Structural)]
pub enum Phase {
    /// No fight is in progress.
    Idle,
    /// A fight is in progress.
    Active,
    /// The fight is over and its encounter waits to be handed out.
    Finalizing,
}

pub struct AggregatorView {
    pub phase: Phase,
    pub encounter: EncounterView,
}

impl AggregatorView {
    /// The aggregator before anything has happened.
    pub open spec fn idle() -> AggregatorView {
        AggregatorView { phase: Phase::Idle, encounter: EncounterView::empty() }
    }
}

/// Whether an event of time `timestamp` comes too late for `enc`, or bears
/// no time at all.
pub open spec fn stale(enc: EncounterView, timestamp: i64) -> bool {
    timestamp < 0 || timestamp < enc.last_combat_packet
}

/// The aggregator after one event.
pub open spec fn step(agg: AggregatorView, e: EventView) -> AggregatorView {
    if agg.phase is Finalizing {
        agg
    } else {
        match e {
            EventView::RaidEnd => if agg.phase is Active {
                AggregatorView { phase: Phase::Finalizing, ..agg }
            } else {
                agg
            },
            EventView::Damage(d) => if stale(agg.encounter, d.timestamp) || d.amount < 0 {
                agg
            } else {
                let started = if agg.phase is Idle {
                    EncounterView { fight_start: d.timestamp, ..agg.encounter }
                } else {
                    agg.encounter
                };
                AggregatorView { phase: Phase::Active, encounter: record_damage(started, d) }
            },
            EventView::StatusApplied(s) => if stale(agg.encounter, s.timestamp) {
                agg
            } else {
                AggregatorView { encounter: record_status(agg.encounter, s), ..agg }
            },
            EventView::StatusRemoved { .. } => agg,
            EventView::EntityUpdate(u) => if stale(agg.encounter, u.timestamp) {
                agg
            } else {
                AggregatorView { encounter: record_update(agg.encounter, u), ..agg }
            },
        }
    }
}

/// What holds of the aggregator at all times: the fight did not start before
/// time zero nor after its last hit, the players' total is not negative, and
/// between fights the clock reads zero.
pub open spec fn settled(agg: AggregatorView) -> bool {
    &&& 0 <= agg.encounter.fight_start <= agg.encounter.last_combat_packet
    &&& 0 <= agg.encounter.encounter_damage_stats.total_damage_dealt
    &&& agg.phase is Idle ==> agg.encounter.last_combat_packet == 0
}

/// One event, and the hand-over if it ended the fight: the aggregator after
/// the event, and the encounter that it handed out.
pub open spec fn drive(agg: AggregatorView, e: EventView) -> (AggregatorView, Option<EncounterView>) {
    let next = step(agg, e);
    if next.phase is Finalizing {
        (AggregatorView::idle(), Some(finalized(next.encounter)))
    } else {
        (next, None)
    }
}

/// A whole sequence of events, each followed by the hand-over if it ended a
/// fight: the aggregator after the last event, and the encounters that were
/// handed out, in order.
pub open spec fn run(agg: AggregatorView, events: Seq<EventView>) -> (
    AggregatorView,
    Seq<EncounterView>,
)
    decreases events.len(),
{
    if events.len() == 0 {
        (agg, Seq::empty())
    } else {
        let (before, out) = run(agg, events.drop_last());
        let (after, done) = drive(before, events.last());
        (
            after,
            match done {
                Some(enc) => out.push(enc),
                None => out,
            },
        )
    }
}

/// The aggregator: the phase it is in and the encounter it is building.
pub struct Aggregator {
    phase: Phase,
    encounter: Encounter,
}

impl View for Aggregator {
    type V = AggregatorView;

    closed spec fn view(&self) -> AggregatorView {
        AggregatorView { phase: self.phase, encounter: self.encounter@ }
    }
}

/// Gives every entity its damage per second over `duration`.
pub fn rate_entities(entities: &mut NameTable<Entity>, duration: i64)
    requires
        entities_wf(old(entities)),
    ensures
        entities_wf(final(entities)),
        final(entities)@ == rated(old(entities)@, duration),
{
    let n = entities.len();
    let mut i: usize = 0;
    while i < n
        invariant
            entities_wf(entities),
            n == entities@.len(),
            n == old(entities)@.len(),
            i <= n,
            forall|j: int|
                0 <= j < i ==> (#[trigger] entities@[j]) == (
                    old(entities)@[j].0,
                    with_dps(old(entities)@[j].1, duration),
                ),
            forall|j: int| i <= j < n ==> (#[trigger] entities@[j]) == old(entities)@[j],
        decreases n - i,
    {
        let entity = entities.get_mut(i);
        entity.damage_stats.dps = damage_per_second(entity.damage_stats.damage_dealt, duration);
        i += 1;
    }
}

impl Encounter {
    /// Looks the current boss up among all entities of the encounter.
    pub fn resolve_boss(&mut self)
        requires
            old(self).wf(),
        ensures
            final(self).wf(),
            final(self)@ == resolve_boss(old(self)@),
    {
        if !self.current_boss_name.as_str().is_empty() {
            match self.entities.find(self.current_boss_name.as_str()) {
                Some(slot) => {
                    self.current_boss = Some(self.entities.get(slot).deep_copy());
                },
                None => {
                    self.current_boss = None;
                    self.current_boss_name = String::new();
                },
            }
        }
    }

    /// Closes the encounter: sets its duration, the damage per second of the
    /// encounter and of every entity, and looks its boss up.
    pub fn close(&mut self)
        requires
            old(self).wf(),
        ensures
            final(self).wf(),
            final(self)@ == finalized(old(self)@),
    {
        let duration = elapsed(self.fight_start, self.last_combat_packet);
        self.duration = duration;
        self.encounter_damage_stats.dps = damage_per_second(
            self.encounter_damage_stats.total_damage_dealt,
            duration,
        );
        rate_entities(&mut self.entities, duration);
        self.resolve_boss();
    }
}

impl Aggregator {
    /// The encounter is well-formed and the aggregator is settled.
    pub closed spec fn wf(&self) -> bool {
        self.encounter.wf() && settled(self@)
    }

    /// A well-formed aggregator is settled.
    pub proof fn lemma_settled(&self)
        requires
            self.wf(),
        ensures
            settled(self@),
    {
    }

    /// An idle aggregator with an empty encounter.
    pub fn new() -> (agg: Aggregator)
        ensures
            agg.wf(),
            agg@ == AggregatorView::idle(),
    {
        Aggregator { phase: Phase::Idle, encounter: Encounter::new() }
    }

    pub fn phase(&self) -> (phase: Phase)
        ensures
            phase == self@.phase,
    {
        self.phase
    }

    /// The encounter as it stands.
    pub fn encounter(&self) -> (encounter: &Encounter)
        requires
            self.wf(),
        ensures
            encounter.wf(),
            encounter@ == self@.encounter,
    {
        &self.encounter
    }

    /// Whether the fight is over and its encounter waits to be handed out.
    pub fn raid_end(&self) -> (over: bool)
        ensures
            over == (self@.phase is Finalizing),
    {
        match self.phase {
            Phase::Finalizing => true,
            _ => false,
        }
    }

    /// Takes one event.
    pub fn apply(&mut self, event: &Event)
        requires
            old(self).wf(),
        ensures
            final(self).wf(),
            final(self)@ == step(old(self)@, event@),
    {
        if self.raid_end() {
            return ;
        }
        match event {
            Event::RaidEnd => {
                match self.phase {
                    Phase::Active => {
                        self.phase = Phase::Finalizing;
                    },
                    _ => {},
                }
            },
            Event::Damage(d) => {
                if d.timestamp < 0 || d.timestamp < self.encounter.last_combat_packet || d.amount
                    < 0 {
                    return ;
                }
                match self.phase {
                    Phase::Idle => {
                        self.encounter.fight_start = d.timestamp;
                    },
                    _ => {},
                }
                self.phase = Phase::Active;
                self.encounter.record_damage(d);
            },
            Event::StatusApplied(s) => {
                if s.timestamp < 0 || s.timestamp < self.encounter.last_combat_packet {
                    return ;
                }
                self.encounter.record_status(s);
            },
            Event::StatusRemoved { .. } => {},
            Event::EntityUpdate(u) => {
                if u.timestamp < 0 || u.timestamp < self.encounter.last_combat_packet {
                    return ;
                }
                self.encounter.record_update(u);
            },
        }
    }

    /// The capture stream has ended: a fight in progress is over.
    pub fn end_of_stream(&mut self)
        requires
            old(self).wf(),
        ensures
            final(self).wf(),
            final(self)@ == step(old(self)@, EventView::RaidEnd),
    {
        match self.phase {
            Phase::Active => {
                self.phase = Phase::Finalizing;
            },
            _ => {},
        }
    }

    /// Hands the encounter out once the fight is over, and starts afresh.
    /// While no fight is over nothing is handed out and nothing changes.
    pub fn finalize(&mut self) -> (done: Option<Encounter>)
        requires
            old(self).wf(),
        ensures
            final(self).wf(),
            old(self)@.phase is Finalizing ==> final(self)@ == AggregatorView::idle(),
            !(old(self)@.phase is Finalizing) ==> final(self)@ == old(self)@,
            match done {
                Some(enc) => old(self)@.phase is Finalizing && enc.wf() && enc@ == finalized(
                    old(self)@.encounter,
                ),
                None => !(old(self)@.phase is Finalizing),
            },
    {
        if !self.raid_end() {
            return None;
        }
        self.encounter.close();
        let mut done = Encounter::new();
        core::mem::swap(&mut self.encounter, &mut done);
        self.phase = Phase::Idle;
        Some(done)
    }

    /// Takes one event and hands the encounter out if the event ended the
    /// fight.
    pub fn ingest(&mut self, event: &Event) -> (done: Option<Encounter>)
        requires
            old(self).wf(),
        ensures
            final(self).wf(),
            final(self)@ == drive(old(self)@, event@).0,
            match done {
                Some(enc) => enc.wf() && drive(old(self)@, event@).1 == Some(enc@),
                None => drive(old(self)@, event@).1 is None,
            },
    {
        self.apply(event);
        self.finalize()
    }
}

/// A step keeps the aggregator settled.
pub proof fn lemma_step_settled(agg: AggregatorView, e: EventView)
    requires
        settled(agg),
    ensures
        settled(step(agg, e)),
{
}

/// An event sequence that is one whole fight: it ends in the end-of-raid
/// marker and holds no other, it holds a hit, and every hit in it has a time
/// and an amount that are not negative.
pub open spec fn whole_fight(events: Seq<EventView>) -> bool {
    &&& events.len() > 0
    &&& events.last() is RaidEnd
    &&& forall|i: int| 0 <= i < events.len() - 1 ==> !(#[trigger] events[i] is RaidEnd)
    &&& exists|i: int| 0 <= i < events.len() - 1 && #[trigger] events[i] is Damage
    &&& forall|i: int|
        0 <= i < events.len() - 1 ==> match #[trigger] events[i] {
            EventView::Damage(d) => d.timestamp >= 0 && d.amount >= 0,
            _ => true,
        }
}

/// Whether `events` holds a hit.
pub open spec fn holds_hit(events: Seq<EventView>) -> bool {
    exists|i: int| 0 <= i < events.len() && #[trigger] events[i] is Damage
}

/// Before the end-of-raid marker nothing is handed out, and the fight is on
/// as soon as a hit was seen.
proof fn lemma_run_before_end(events: Seq<EventView>)
    requires
        forall|i: int| 0 <= i < events.len() ==> !(#[trigger] events[i] is RaidEnd),
        forall|i: int|
            0 <= i < events.len() ==> match #[trigger] events[i] {
                EventView::Damage(d) => d.timestamp >= 0 && d.amount >= 0,
                _ => true,
            },
    ensures
        run(AggregatorView::idle(), events).1.len() == 0,
        settled(run(AggregatorView::idle(), events).0),
        !(run(AggregatorView::idle(), events).0.phase is Finalizing),
        holds_hit(events) ==> run(AggregatorView::idle(), events).0.phase is Active,
    decreases events.len(),
{
    if events.len() > 0 {
        let prefix = events.drop_last();
        lemma_run_before_end(prefix);
        let before = run(AggregatorView::idle(), prefix).0;
        let last = events.last();
        lemma_step_settled(before, last);
        if holds_hit(events) {
            let i = choose|i: int| 0 <= i < events.len() && #[trigger] events[i] is Damage;
            if i < events.len() - 1 {
                assert(prefix[i] is Damage);
            }
        }
    }
}

/// One whole fight, taken from the start, hands out exactly one encounter
/// and leaves the aggregator idle. The encounter's duration is the time from
/// the start of the fight to its last hit, and its damage per second is the
/// players' total over the whole seconds of that duration: zero for a fight
/// of no duration.
pub proof fn lemma_whole_fight_yields_one_encounter(events: Seq<EventView>)
    requires
        whole_fight(events),
    ensures
        run(AggregatorView::idle(), events).0 == AggregatorView::idle(),
        run(AggregatorView::idle(), events).1.len() == 1,
        ({
            let enc = run(AggregatorView::idle(), events).1[0];
            let total = enc.encounter_damage_stats.total_damage_dealt;
            &&& enc.duration == enc.last_combat_packet - enc.fight_start
            &&& enc.duration >= 0
            &&& enc.encounter_damage_stats.dps == dps_of(total, enc.duration)
            &&& enc.duration == 0 ==> enc.encounter_damage_stats.dps == 0
            &&& enc.duration >= MILLIS_PER_SECOND ==> enc.encounter_damage_stats.dps == total as int
                / whole_seconds(enc.duration)
        }),
{
    let prefix = events.drop_last();
    assert forall|i: int| 0 <= i < prefix.len() implies !(#[trigger] prefix[i] is RaidEnd) by {}
    assert forall|i: int| 0 <= i < prefix.len() implies match #[trigger] prefix[i] {
        EventView::Damage(d) => d.timestamp >= 0 && d.amount >= 0,
        _ => true,
    } by {}
    let hit = choose|i: int| 0 <= i < events.len() - 1 && #[trigger] events[i] is Damage;
    assert(prefix[hit] is Damage);
    lemma_run_before_end(prefix);
    let before = run(AggregatorView::idle(), prefix).0;
    let closing = step(before, events.last());
    let enc = finalized(closing.encounter);
    lemma_dps_of(enc.encounter_damage_stats.total_damage_dealt, enc.duration);
}

} // verus!
