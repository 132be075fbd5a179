//! The encounter and what it is made of, each with the mathematical value
//! that the contracts speak of.

use vstd::prelude::*;
use crate::table::{IdTable, NameTable};

verus! {

/// What kind of participant an entity is.
#[derive(Clone, Copy, Debug, PartialEq, Eq, Structural)]
pub enum EntityType {
    Unknown,
    Player,
    Npc,
    Esther,
    Boss,
}

/// How a hit landed.
#[derive(Clone, Copy, Debug, PartialEq, Eq, Structural)]
pub struct HitFlags {
    pub crit: bool,
    pub back_attack: bool,
    pub front_attack: bool,
}

/// One entry of an entity's damage log.
#[derive(Clone, Copy, Debug, PartialEq, Eq, Structural)]
pub struct DamageRecord {
    pub timestamp: i64,
    pub amount: i64,
    pub flags: HitFlags,
}

/// Hit counters of an entity. They never decrease while an encounter runs.
#[derive(Clone, Copy, Debug, PartialEq, Eq, Structural)]
pub struct SkillStats {
    pub hits: i64,
    pub crits: i64,
    pub back_attacks: i64,
    pub front_attacks: i64,
}

/// What is known of a buff or debuff identifier.
#[derive(Debug)]
pub struct StatusEffect {
    pub name: String,
    pub category: String,
    pub source: String,
}

pub struct StatusEffectView {
    pub name: Seq<char>,
    pub category: Seq<char>,
    pub source: Seq<char>,
}

impl View for StatusEffect {
    type V = StatusEffectView;

    open spec fn view(&self) -> StatusEffectView {
        StatusEffectView { name: self.name@, category: self.category@, source: self.source@ }
    }
}

/// One ability of an entity: its counters and the times at which it landed.
#[derive(Debug)]
pub struct Skill {
    pub name: String,
    pub total_damage: i64,
    pub max_damage: i64,
    pub hits: i64,
    pub crits: i64,
    pub cast_log: Vec<i64>,
}

pub struct SkillView {
    pub name: Seq<char>,
    pub total_damage: i64,
    pub max_damage: i64,
    pub hits: i64,
    pub crits: i64,
    pub cast_log: Seq<i64>,
}

impl View for Skill {
    type V = SkillView;

    open spec fn view(&self) -> SkillView {
        SkillView {
            name: self.name@,
            total_damage: self.total_damage,
            max_damage: self.max_damage,
            hits: self.hits,
            crits: self.crits,
            cast_log: self.cast_log@,
        }
    }
}

/// Damage totals of an entity and the log they were summed from.
#[derive(Debug)]
pub struct DamageStats {
    pub damage_dealt: i64,
    pub damage_taken: i64,
    pub dps: i64,
    pub damage_log: Vec<DamageRecord>,
}

pub struct DamageStatsView {
    pub damage_dealt: i64,
    pub damage_taken: i64,
    pub dps: i64,
    pub damage_log: Seq<DamageRecord>,
}

impl View for DamageStats {
    type V = DamageStatsView;

    open spec fn view(&self) -> DamageStatsView {
        DamageStatsView {
            damage_dealt: self.damage_dealt,
            damage_taken: self.damage_taken,
            dps: self.dps,
            damage_log: self.damage_log@,
        }
    }
}

/// A participant of an encounter. Its name is the key under which the
/// encounter keeps it.
#[derive(Debug)]
pub struct Entity {
    pub npc_id: Option<i32>,
    pub entity_type: EntityType,
    pub class_id: i32,
    pub class_name: String,
    /// In hundredths of a point.
    pub gear_score: i64,
    pub current_hp: i64,
    pub max_hp: i64,
    pub is_dead: bool,
    pub skills: IdTable<Skill>,
    pub damage_stats: DamageStats,
    pub skill_stats: SkillStats,
}

pub struct EntityView {
    pub npc_id: Option<i32>,
    pub entity_type: EntityType,
    pub class_id: i32,
    pub class_name: Seq<char>,
    pub gear_score: i64,
    pub current_hp: i64,
    pub max_hp: i64,
    pub is_dead: bool,
    pub skills: Seq<(i32, SkillView)>,
    pub damage_stats: DamageStatsView,
    pub skill_stats: SkillStats,
}

impl View for Entity {
    type V = EntityView;

    open spec fn view(&self) -> EntityView {
        EntityView {
            npc_id: self.npc_id,
            entity_type: self.entity_type,
            class_id: self.class_id,
            class_name: self.class_name@,
            gear_score: self.gear_score,
            current_hp: self.current_hp,
            max_hp: self.max_hp,
            is_dead: self.is_dead,
            skills: self.skills@,
            damage_stats: self.damage_stats@,
            skill_stats: self.skill_stats,
        }
    }
}

/// Damage totals of a whole encounter and the status effects seen in it.
#[derive(Debug)]
pub struct EncounterDamageStats {
    pub total_damage_dealt: i64,
    pub top_damage_dealt: i64,
    pub total_damage_taken: i64,
    pub top_damage_taken: i64,
    pub dps: i64,
    pub buffs: IdTable<StatusEffect>,
    pub debuffs: IdTable<StatusEffect>,
}

pub struct EncounterDamageStatsView {
    pub total_damage_dealt: i64,
    pub top_damage_dealt: i64,
    pub total_damage_taken: i64,
    pub top_damage_taken: i64,
    pub dps: i64,
    pub buffs: Seq<(i32, StatusEffectView)>,
    pub debuffs: Seq<(i32, StatusEffectView)>,
}

impl View for EncounterDamageStats {
    type V = EncounterDamageStatsView;

    open spec fn view(&self) -> EncounterDamageStatsView {
        EncounterDamageStatsView {
            total_damage_dealt: self.total_damage_dealt,
            top_damage_dealt: self.top_damage_dealt,
            total_damage_taken: self.total_damage_taken,
            top_damage_taken: self.top_damage_taken,
            dps: self.dps,
            buffs: self.buffs@,
            debuffs: self.debuffs@,
        }
    }
}

/// One tracked fight: when it ran, who took part, and what they did.
/// Times are in milliseconds.
#[derive(Debug)]
pub struct Encounter {
    /// Given by the store when the encounter is saved.
    pub id: Option<i64>,
    pub last_combat_packet: i64,
    pub fight_start: i64,
    pub local_player: String,
    pub current_boss_name: String,
    /// The entity that `current_boss_name` names, once it was looked up.
    pub current_boss: Option<Entity>,
    pub duration: i64,
    pub encounter_damage_stats: EncounterDamageStats,
    pub entities: NameTable<Entity>,
}

pub struct EncounterView {
    pub id: Option<i64>,
    pub last_combat_packet: i64,
    pub fight_start: i64,
    pub local_player: Seq<char>,
    pub current_boss_name: Seq<char>,
    pub current_boss: Option<EntityView>,
    pub duration: i64,
    pub encounter_damage_stats: EncounterDamageStatsView,
    pub entities: Seq<(Seq<char>, EntityView)>,
}

impl View for Encounter {
    type V = EncounterView;

    open spec fn view(&self) -> EncounterView {
        EncounterView {
            id: self.id,
            last_combat_packet: self.last_combat_packet,
            fight_start: self.fight_start,
            local_player: self.local_player@,
            current_boss_name: self.current_boss_name@,
            current_boss: match self.current_boss {
                Some(boss) => Some(boss@),
                None => None,
            },
            duration: self.duration,
            encounter_damage_stats: self.encounter_damage_stats@,
            entities: self.entities@,
        }
    }
}

impl SkillStats {
    pub open spec fn zero() -> SkillStats {
        SkillStats { hits: 0, crits: 0, back_attacks: 0, front_attacks: 0 }
    }

    pub fn new() -> (stats: SkillStats)
        ensures
            stats == SkillStats::zero(),
    {
        SkillStats { hits: 0, crits: 0, back_attacks: 0, front_attacks: 0 }
    }
}

impl StatusEffect {
    pub fn deep_copy(&self) -> (copy: StatusEffect)
        ensures
            copy@ == self@,
    {
        StatusEffect {
            name: self.name.clone(),
            category: self.category.clone(),
            source: self.source.clone(),
        }
    }
}

impl SkillView {
    /// A skill under `name` that has not landed yet.
    pub open spec fn fresh(name: Seq<char>) -> SkillView {
        SkillView {
            name,
            total_damage: 0,
            max_damage: 0,
            hits: 0,
            crits: 0,
            cast_log: Seq::empty(),
        }
    }

    /// The skill without its cast log.
    pub open spec fn summary(self) -> SkillView {
        SkillView { cast_log: Seq::empty(), ..self }
    }
}

impl Skill {
    pub fn new(name: String) -> (skill: Skill)
        ensures
            skill@ == SkillView::fresh(name@),
    {
        Skill { name, total_damage: 0, max_damage: 0, hits: 0, crits: 0, cast_log: Vec::new() }
    }

    pub fn deep_copy(&self) -> (copy: Skill)
        ensures
            copy@ == self@,
    {
        Skill {
            name: self.name.clone(),
            total_damage: self.total_damage,
            max_damage: self.max_damage,
            hits: self.hits,
            crits: self.crits,
            cast_log: self.cast_log.clone(),
        }
    }

    /// A copy without the cast log.
    pub fn summary(&self) -> (copy: Skill)
        ensures
            copy@ == self@.summary(),
    {
        Skill {
            name: self.name.clone(),
            total_damage: self.total_damage,
            max_damage: self.max_damage,
            hits: self.hits,
            crits: self.crits,
            cast_log: Vec::new(),
        }
    }
}

impl DamageStatsView {
    pub open spec fn zero() -> DamageStatsView {
        DamageStatsView { damage_dealt: 0, damage_taken: 0, dps: 0, damage_log: Seq::empty() }
    }

    /// The totals without the damage log.
    pub open spec fn summary(self) -> DamageStatsView {
        DamageStatsView { damage_log: Seq::empty(), ..self }
    }
}

impl DamageStats {
    pub fn new() -> (stats: DamageStats)
        ensures
            stats@ == DamageStatsView::zero(),
    {
        DamageStats { damage_dealt: 0, damage_taken: 0, dps: 0, damage_log: Vec::new() }
    }

    pub fn deep_copy(&self) -> (copy: DamageStats)
        ensures
            copy@ == self@,
    {
        DamageStats {
            damage_dealt: self.damage_dealt,
            damage_taken: self.damage_taken,
            dps: self.dps,
            damage_log: self.damage_log.clone(),
        }
    }

    /// A copy without the damage log.
    pub fn summary(&self) -> (copy: DamageStats)
        ensures
            copy@ == self@.summary(),
    {
        DamageStats {
            damage_dealt: self.damage_dealt,
            damage_taken: self.damage_taken,
            dps: self.dps,
            damage_log: Vec::new(),
        }
    }
}


/// A copy of `skills` with every cast log.
pub fn copy_skills(skills: &IdTable<Skill>) -> (copy: IdTable<Skill>)
    requires
        skills.wf(),
    ensures
        copy.wf(),
        copy@ == skills@,
{
    let mut copy: IdTable<Skill> = IdTable::new();
    let n = skills.len();
    let mut i: usize = 0;
    while i < n
        invariant
            skills.wf(),
            copy.wf(),
            n == skills.entries().len(),
            i <= n,
            copy.entries().len() == i,
            forall|j: int|
                0 <= j < i ==> (#[trigger] copy.entries()[j]).0 == skills.entries()[j].0
                    && copy.entries()[j].1@ == skills.entries()[j].1@,
        decreases n - i,
    {
        let id = skills.id_at(i);
        proof {
            skills.lemma_ids_distinct();
            if copy.has(id) {
                let j = choose|j: int|
                    0 <= j < copy.entries().len() && (#[trigger] copy.entries()[j]).0 == id;
                assert(skills.entries()[j].0 == skills.entries()[i as int].0);
            }
        }
        copy.insert_new(id, skills.get(i).deep_copy());
        i += 1;
    }
    copy
}

/// A copy of `skills` in which no skill has a cast log.
pub fn summarize_skills(skills: &IdTable<Skill>) -> (copy: IdTable<Skill>)
    requires
        skills.wf(),
    ensures
        copy.wf(),
        copy@ == skill_summaries(skills@),
{
    let mut copy: IdTable<Skill> = IdTable::new();
    let n = skills.len();
    let mut i: usize = 0;
    while i < n
        invariant
            skills.wf(),
            copy.wf(),
            n == skills.entries().len(),
            i <= n,
            copy.entries().len() == i,
            forall|j: int|
                0 <= j < i ==> (#[trigger] copy.entries()[j]).0 == skills.entries()[j].0
                    && copy.entries()[j].1@ == skills.entries()[j].1@.summary(),
        decreases n - i,
    {
        let id = skills.id_at(i);
        proof {
            skills.lemma_ids_distinct();
            if copy.has(id) {
                let j = choose|j: int|
                    0 <= j < copy.entries().len() && (#[trigger] copy.entries()[j]).0 == id;
                assert(skills.entries()[j].0 == skills.entries()[i as int].0);
            }
        }
        copy.insert_new(id, skills.get(i).summary());
        i += 1;
    }
    copy
}

/// A copy of `effects`.
pub fn copy_effects(effects: &IdTable<StatusEffect>) -> (copy: IdTable<StatusEffect>)
    requires
        effects.wf(),
    ensures
        copy.wf(),
        copy@ == effects@,
{
    let mut copy: IdTable<StatusEffect> = IdTable::new();
    let n = effects.len();
    let mut i: usize = 0;
    while i < n
        invariant
            effects.wf(),
            copy.wf(),
            n == effects.entries().len(),
            i <= n,
            copy.entries().len() == i,
            forall|j: int|
                0 <= j < i ==> (#[trigger] copy.entries()[j]).0 == effects.entries()[j].0
                    && copy.entries()[j].1@ == effects.entries()[j].1@,
        decreases n - i,
    {
        let id = effects.id_at(i);
        proof {
            effects.lemma_ids_distinct();
            if copy.has(id) {
                let j = choose|j: int|
                    0 <= j < copy.entries().len() && (#[trigger] copy.entries()[j]).0 == id;
                assert(effects.entries()[j].0 == effects.entries()[i as int].0);
            }
        }
        copy.insert_new(id, effects.get(i).deep_copy());
        i += 1;
    }
    copy
}

/// `skills` with every cast log emptied.
pub open spec fn skill_summaries(skills: Seq<(i32, SkillView)>) -> Seq<(i32, SkillView)> {
    skills.map_values(|s: (i32, SkillView)| (s.0, s.1.summary()))
}

impl EntityView {
    /// An entity of which nothing is known yet.
    pub open spec fn fresh() -> EntityView {
        EntityView {
            npc_id: None,
            entity_type: EntityType::Unknown,
            class_id: 0,
            class_name: Seq::empty(),
            gear_score: 0,
            current_hp: 0,
            max_hp: 0,
            is_dead: false,
            skills: Seq::empty(),
            damage_stats: DamageStatsView::zero(),
            skill_stats: SkillStats::zero(),
        }
    }

    /// The entity without its damage log and without the cast logs of its
    /// skills.
    pub open spec fn summary(self) -> EntityView {
        EntityView {
            skills: skill_summaries(self.skills),
            damage_stats: self.damage_stats.summary(),
            ..self
        }
    }
}

impl Entity {
    /// The entity's own table is well-formed.
    pub open spec fn wf(&self) -> bool {
        self.skills.wf()
    }

    pub fn new() -> (entity: Entity)
        ensures
            entity.wf(),
            entity@ == EntityView::fresh(),
    {
        Entity {
            npc_id: None,
            entity_type: EntityType::Unknown,
            class_id: 0,
            class_name: String::new(),
            gear_score: 0,
            current_hp: 0,
            max_hp: 0,
            is_dead: false,
            skills: IdTable::new(),
            damage_stats: DamageStats::new(),
            skill_stats: SkillStats::new(),
        }
    }

    pub fn deep_copy(&self) -> (copy: Entity)
        requires
            self.wf(),
        ensures
            copy.wf(),
            copy@ == self@,
    {
        Entity {
            npc_id: self.npc_id,
            entity_type: self.entity_type,
            class_id: self.class_id,
            class_name: self.class_name.clone(),
            gear_score: self.gear_score,
            current_hp: self.current_hp,
            max_hp: self.max_hp,
            is_dead: self.is_dead,
            skills: copy_skills(&self.skills),
            damage_stats: self.damage_stats.deep_copy(),
            skill_stats: self.skill_stats,
        }
    }

    /// A copy without the damage log and without the cast logs.
    pub fn summary(&self) -> (copy: Entity)
        requires
            self.wf(),
        ensures
            copy.wf(),
            copy@ == self@.summary(),
    {
        Entity {
            npc_id: self.npc_id,
            entity_type: self.entity_type,
            class_id: self.class_id,
            class_name: self.class_name.clone(),
            gear_score: self.gear_score,
            current_hp: self.current_hp,
            max_hp: self.max_hp,
            is_dead: self.is_dead,
            skills: summarize_skills(&self.skills),
            damage_stats: self.damage_stats.summary(),
            skill_stats: self.skill_stats,
        }
    }
}

/// The table and every entity in it are well-formed.
pub open spec fn entities_wf(entities: &NameTable<Entity>) -> bool {
    &&& entities.wf()
    &&& forall|i: int|
        0 <= i < entities.entries().len() ==> (#[trigger] entities.entries()[i]).1.wf()
}

/// A copy of `entities` with every log.
pub fn copy_entities(entities: &NameTable<Entity>) -> (copy: NameTable<Entity>)
    requires
        entities_wf(entities),
    ensures
        entities_wf(&copy),
        copy@ == entities@,
{
    let mut copy: NameTable<Entity> = NameTable::new();
    let n = entities.len();
    let mut i: usize = 0;
    while i < n
        invariant
            entities.wf(),
            forall|j: int|
                0 <= j < entities.entries().len() ==> (#[trigger] entities.entries()[j]).1.wf(),
            copy.wf(),
            n == entities.entries().len(),
            i <= n,
            copy.entries().len() == i,
            forall|j: int|
                0 <= j < i ==> (#[trigger] copy.entries()[j]).0@ == entities.entries()[j].0@
                    && copy.entries()[j].1@ == entities.entries()[j].1@ && copy.entries()[j].1.wf(),
        decreases n - i,
    {
        let name = entities.name_at(i).clone();
        proof {
            entities.lemma_names_distinct();
            if copy.has(name@) {
                let j = choose|j: int|
                    0 <= j < copy.entries().len() && (#[trigger] copy.entries()[j]).0@ == name@;
                assert(entities.entries()[j].0@ == entities.entries()[i as int].0@);
            }
        }
        copy.insert_new(name, entities.get(i).deep_copy());
        i += 1;
    }
    copy
}

impl EncounterDamageStatsView {
    pub open spec fn zero() -> EncounterDamageStatsView {
        EncounterDamageStatsView {
            total_damage_dealt: 0,
            top_damage_dealt: 0,
            total_damage_taken: 0,
            top_damage_taken: 0,
            dps: 0,
            buffs: Seq::empty(),
            debuffs: Seq::empty(),
        }
    }
}

impl EncounterDamageStats {
    pub open spec fn wf(&self) -> bool {
        self.buffs.wf() && self.debuffs.wf()
    }

    pub fn new() -> (stats: EncounterDamageStats)
        ensures
            stats.wf(),
            stats@ == EncounterDamageStatsView::zero(),
    {
        EncounterDamageStats {
            total_damage_dealt: 0,
            top_damage_dealt: 0,
            total_damage_taken: 0,
            top_damage_taken: 0,
            dps: 0,
            buffs: IdTable::new(),
            debuffs: IdTable::new(),
        }
    }

    pub fn deep_copy(&self) -> (copy: EncounterDamageStats)
        requires
            self.wf(),
        ensures
            copy.wf(),
            copy@ == self@,
    {
        EncounterDamageStats {
            total_damage_dealt: self.total_damage_dealt,
            top_damage_dealt: self.top_damage_dealt,
            total_damage_taken: self.total_damage_taken,
            top_damage_taken: self.top_damage_taken,
            dps: self.dps,
            buffs: copy_effects(&self.buffs),
            debuffs: copy_effects(&self.debuffs),
        }
    }
}

impl EncounterView {
    /// An encounter in which nothing has happened.
    pub open spec fn empty() -> EncounterView {
        EncounterView {
            id: None,
            last_combat_packet: 0,
            fight_start: 0,
            local_player: Seq::empty(),
            current_boss_name: Seq::empty(),
            current_boss: None,
            duration: 0,
            encounter_damage_stats: EncounterDamageStatsView::zero(),
            entities: Seq::empty(),
        }
    }
}

impl Encounter {
    /// Every table of the encounter is well-formed.
    pub open spec fn wf(&self) -> bool {
        &&& entities_wf(&self.entities)
        &&& self.encounter_damage_stats.wf()
        &&& match self.current_boss {
            Some(boss) => boss.wf(),
            None => true,
        }
    }

    pub fn new() -> (encounter: Encounter)
        ensures
            encounter.wf(),
            encounter@ == EncounterView::empty(),
    {
        Encounter {
            id: None,
            last_combat_packet: 0,
            fight_start: 0,
            local_player: String::new(),
            current_boss_name: String::new(),
            current_boss: None,
            duration: 0,
            encounter_damage_stats: EncounterDamageStats::new(),
            entities: NameTable::new(),
        }
    }

    /// An independent copy of the whole encounter, logs included.
    pub fn deep_copy(&self) -> (copy: Encounter)
        requires
            self.wf(),
        ensures
            copy.wf(),
            copy@ == self@,
    {
        let boss = match &self.current_boss {
            Some(boss) => Some(boss.deep_copy()),
            None => None,
        };
        Encounter {
            id: self.id,
            last_combat_packet: self.last_combat_packet,
            fight_start: self.fight_start,
            local_player: self.local_player.clone(),
            current_boss_name: self.current_boss_name.clone(),
            current_boss: boss,
            duration: self.duration,
            encounter_damage_stats: self.encounter_damage_stats.deep_copy(),
            entities: copy_entities(&self.entities),
        }
    }
}

} // verus!
