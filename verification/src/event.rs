//! The typed events that the aggregator consumes.

use vstd::prelude::*;
use crate::model::{EntityType, HitFlags, StatusEffect, StatusEffectView};

verus! {

/// Whether a status effect helps or harms.
#[derive(Clone, Copy, Debug, PartialEq, Eq, Structural)]
pub enum EffectKind {
    Buff,
    Debuff,
}

/// One hit: `source` damaged `target` with a skill.
#[derive(Debug)]
pub struct DamageEvent {
    pub timestamp: i64,
    pub source: String,
    pub target: String,
    pub skill_id: i32,
    pub skill_name: String,
    pub amount: i64,
    pub flags: HitFlags,
}

pub struct DamageEventView {
    pub timestamp: i64,
    pub source: Seq<char>,
    pub target: Seq<char>,
    pub skill_id: i32,
    pub skill_name: Seq<char>,
    pub amount: i64,
    pub flags: HitFlags,
}

impl View for DamageEvent {
    type V = DamageEventView;

    open spec fn view(&self) -> DamageEventView {
        DamageEventView {
            timestamp: self.timestamp,
            source: self.source@,
            target: self.target@,
            skill_id: self.skill_id,
            skill_name: self.skill_name@,
            amount: self.amount,
            flags: self.flags,
        }
    }
}

/// A status effect was applied; the event says what the effect is.
#[derive(Debug)]
pub struct StatusEvent {
    pub timestamp: i64,
    pub effect_id: i32,
    pub kind: EffectKind,
    pub effect: StatusEffect,
}

pub struct StatusEventView {
    pub timestamp: i64,
    pub effect_id: i32,
    pub kind: EffectKind,
    pub effect: StatusEffectView,
}

impl View for StatusEvent {
    type V = StatusEventView;

    open spec fn view(&self) -> StatusEventView {
        StatusEventView {
            timestamp: self.timestamp,
            effect_id: self.effect_id,
            kind: self.kind,
            effect: self.effect@,
        }
    }
}

/// What an entity update changes.
#[derive(Debug)]
pub enum EntityChange {
    /// What kind of participant the entity is.
    Identity { entity_type: EntityType, class_id: i32, class_name: String, npc_id: Option<i32> },
    Health { current_hp: i64, max_hp: i64 },
    /// In hundredths of a point.
    GearScore { hundredths: i64 },
    Death,
    /// The entity is the player at whose machine the log is captured.
    LocalPlayer,
}

pub enum EntityChangeView {
    Identity { entity_type: EntityType, class_id: i32, class_name: Seq<char>, npc_id: Option<i32> },
    Health { current_hp: i64, max_hp: i64 },
    GearScore { hundredths: i64 },
    Death,
    LocalPlayer,
}

impl View for EntityChange {
    type V = EntityChangeView;

    open spec fn view(&self) -> EntityChangeView {
        match *self {
            EntityChange::Identity { entity_type, class_id, class_name, npc_id } => {
                EntityChangeView::Identity { entity_type, class_id, class_name: class_name@, npc_id }
            },
            EntityChange::Health { current_hp, max_hp } => EntityChangeView::Health {
                current_hp,
                max_hp,
            },
            EntityChange::GearScore { hundredths } => EntityChangeView::GearScore { hundredths },
            EntityChange::Death => EntityChangeView::Death,
            EntityChange::LocalPlayer => EntityChangeView::LocalPlayer,
        }
    }
}

/// A change to the entity called `name`.
#[derive(Debug)]
pub struct EntityUpdate {
    pub timestamp: i64,
    pub name: String,
    pub change: EntityChange,
}

pub struct EntityUpdateView {
    pub timestamp: i64,
    pub name: Seq<char>,
    pub change: EntityChangeView,
}

impl View for EntityUpdate {
    type V = EntityUpdateView;

    open spec fn view(&self) -> EntityUpdateView {
        EntityUpdateView { timestamp: self.timestamp, name: self.name@, change: self.change@ }
    }
}

/// One event of the combat log.
#[derive(Debug)]
pub enum Event {
    Damage(DamageEvent),
    StatusApplied(StatusEvent),
    /// A status effect has ended. What is known of the effect stays known.
    StatusRemoved { timestamp: i64, effect_id: i32, kind: EffectKind },
    EntityUpdate(EntityUpdate),
    /// The fight is over.
    RaidEnd,
}

pub enum EventView {
    Damage(DamageEventView),
    StatusApplied(StatusEventView),
    StatusRemoved { timestamp: i64, effect_id: i32, kind: EffectKind },
    EntityUpdate(EntityUpdateView),
    RaidEnd,
}

impl View for Event {
    type V = EventView;

    open spec fn view(&self) -> EventView {
        match *self {
            Event::Damage(d) => EventView::Damage(d@),
            Event::StatusApplied(s) => EventView::StatusApplied(s@),
            Event::StatusRemoved { timestamp, effect_id, kind } => EventView::StatusRemoved {
                timestamp,
                effect_id,
                kind,
            },
            Event::EntityUpdate(u) => EventView::EntityUpdate(u@),
            Event::RaidEnd => EventView::RaidEnd,
        }
    }
}

} // verus!
