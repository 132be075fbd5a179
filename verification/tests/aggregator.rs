use encounter_meter::aggregator::{Aggregator, Phase};
use encounter_meter::event::{
    DamageEvent, EffectKind, EntityChange, EntityUpdate, Event, StatusEvent,
};
use encounter_meter::model::{Encounter, Entity, EntityType, HitFlags, StatusEffect};

fn plain() -> HitFlags {
    HitFlags { crit: false, back_attack: false, front_attack: false }
}

fn hit(timestamp: i64, source: &str, target: &str, amount: i64) -> Event {
    Event::Damage(DamageEvent {
        timestamp,
        source: source.to_string(),
        target: target.to_string(),
        skill_id: 7,
        skill_name: "Slash".to_string(),
        amount,
        flags: plain(),
    })
}

fn identity(timestamp: i64, name: &str, entity_type: EntityType, class_id: i32) -> Event {
    Event::EntityUpdate(EntityUpdate {
        timestamp,
        name: name.to_string(),
        change: EntityChange::Identity {
            entity_type,
            class_id,
            class_name: "Class".to_string(),
            npc_id: None,
        },
    })
}

fn update(timestamp: i64, name: &str, change: EntityChange) -> Event {
    Event::EntityUpdate(EntityUpdate { timestamp, name: name.to_string(), change })
}

fn effect(name: &str) -> StatusEffect {
    StatusEffect {
        name: name.to_string(),
        category: "dot".to_string(),
        source: "skill".to_string(),
    }
}

fn entity_named<'a>(encounter: &'a Encounter, name: &str) -> &'a Entity {
    let slot = encounter.entities.find(name).expect("entity is known");
    encounter.entities.get(slot)
}

#[test]
fn a_new_aggregator_is_idle_and_empty() {
    let agg = Aggregator::new();
    assert_eq!(agg.phase(), Phase::Idle);
    assert!(!agg.raid_end());
    assert_eq!(agg.encounter().entities.len(), 0);
    assert_eq!(agg.encounter().fight_start, 0);
    assert_eq!(agg.encounter().last_combat_packet, 0);
    assert_eq!(agg.encounter().id, None);
}

#[test]
fn a_whole_fight_yields_exactly_one_encounter() {
    let events = vec![
        identity(500, "Ann", EntityType::Player, 101),
        identity(600, "Vykas", EntityType::Boss, 0),
        hit(1000, "Ann", "Vykas", 3000),
        hit(3500, "Vykas", "Ann", 400),
        hit(6000, "Ann", "Vykas", 7000),
        Event::RaidEnd,
    ];
    let mut agg = Aggregator::new();
    let mut finished = Vec::new();
    for event in &events {
        if let Some(encounter) = agg.ingest(event) {
            finished.push(encounter);
        }
    }
    assert_eq!(finished.len(), 1);
    let encounter = &finished[0];
    assert_eq!(encounter.fight_start, 1000);
    assert_eq!(encounter.last_combat_packet, 6000);
    assert_eq!(encounter.duration, 5000);
    assert_eq!(encounter.duration, encounter.last_combat_packet - encounter.fight_start);
    assert_eq!(encounter.encounter_damage_stats.total_damage_dealt, 10000);
    assert_eq!(encounter.encounter_damage_stats.dps, 2000);
    assert_eq!(encounter.encounter_damage_stats.top_damage_dealt, 10000);
    assert_eq!(encounter.encounter_damage_stats.total_damage_taken, 400);
    assert_eq!(encounter.encounter_damage_stats.top_damage_taken, 400);
    assert_eq!(encounter.id, None);
    assert_eq!(agg.phase(), Phase::Idle);
    assert_eq!(agg.encounter().entities.len(), 0);
    assert!(agg.finalize().is_none());
}

#[test]
fn a_fight_of_no_duration_has_no_dps() {
    let mut agg = Aggregator::new();
    agg.apply(&identity(0, "Ann", EntityType::Player, 101));
    agg.apply(&hit(2000, "Ann", "Dummy", 999));
    agg.apply(&Event::RaidEnd);
    let encounter = agg.finalize().expect("the fight is over");
    assert_eq!(encounter.duration, 0);
    assert_eq!(encounter.encounter_damage_stats.total_damage_dealt, 999);
    assert_eq!(encounter.encounter_damage_stats.dps, 0);
    assert_eq!(entity_named(&encounter, "Ann").damage_stats.dps, 0);
}

#[test]
fn a_fight_shorter_than_a_second_has_no_dps() {
    let mut agg = Aggregator::new();
    agg.apply(&identity(0, "Ann", EntityType::Player, 101));
    agg.apply(&hit(2000, "Ann", "Dummy", 999));
    agg.apply(&hit(2999, "Ann", "Dummy", 1));
    agg.apply(&Event::RaidEnd);
    let encounter = agg.finalize().expect("the fight is over");
    assert_eq!(encounter.duration, 999);
    assert_eq!(encounter.encounter_damage_stats.dps, 0);
}

#[test]
fn dps_counts_whole_seconds_only() {
    let mut agg = Aggregator::new();
    agg.apply(&identity(0, "Ann", EntityType::Player, 101));
    agg.apply(&hit(1000, "Ann", "Dummy", 1000));
    agg.apply(&hit(3999, "Ann", "Dummy", 1001));
    agg.apply(&Event::RaidEnd);
    let encounter = agg.finalize().expect("the fight is over");
    assert_eq!(encounter.duration, 2999);
    assert_eq!(encounter.encounter_damage_stats.dps, 1000);
    assert_eq!(entity_named(&encounter, "Ann").damage_stats.dps, 1000);
    assert_eq!(entity_named(&encounter, "Dummy").damage_stats.dps, 0);
}

#[test]
fn the_first_hit_starts_the_fight() {
    let mut agg = Aggregator::new();
    agg.apply(&identity(10, "Ann", EntityType::Player, 101));
    assert_eq!(agg.phase(), Phase::Idle);
    agg.apply(&hit(40, "Ann", "Dummy", 5));
    assert_eq!(agg.phase(), Phase::Active);
    assert_eq!(agg.encounter().fight_start, 40);
    assert_eq!(agg.encounter().last_combat_packet, 40);
    agg.apply(&hit(90, "Ann", "Dummy", 5));
    assert_eq!(agg.encounter().fight_start, 40);
    assert_eq!(agg.encounter().last_combat_packet, 90);
}

#[test]
fn a_hit_creates_source_and_target_and_books_the_damage() {
    let mut agg = Aggregator::new();
    agg.apply(&Event::Damage(DamageEvent {
        timestamp: 100,
        source: "Ann".to_string(),
        target: "Dummy".to_string(),
        skill_id: 42,
        skill_name: "Pierce".to_string(),
        amount: 250,
        flags: HitFlags { crit: true, back_attack: true, front_attack: false },
    }));
    agg.apply(&Event::Damage(DamageEvent {
        timestamp: 200,
        source: "Ann".to_string(),
        target: "Dummy".to_string(),
        skill_id: 42,
        skill_name: "Renamed".to_string(),
        amount: 100,
        flags: HitFlags { crit: false, back_attack: false, front_attack: true },
    }));
    let encounter = agg.encounter();
    assert_eq!(encounter.entities.len(), 2);
    assert_eq!(encounter.entities.name_at(0), "Ann");
    assert_eq!(encounter.entities.name_at(1), "Dummy");
    let ann = entity_named(encounter, "Ann");
    assert_eq!(ann.entity_type, EntityType::Unknown);
    assert_eq!(ann.damage_stats.damage_dealt, 350);
    assert_eq!(ann.damage_stats.damage_taken, 0);
    assert_eq!(ann.damage_stats.damage_log.len(), 2);
    assert_eq!(ann.damage_stats.damage_log[0].timestamp, 100);
    assert_eq!(ann.damage_stats.damage_log[0].amount, 250);
    assert!(ann.damage_stats.damage_log[0].flags.crit);
    assert_eq!(ann.damage_stats.damage_log[1].amount, 100);
    assert_eq!(ann.skill_stats.hits, 2);
    assert_eq!(ann.skill_stats.crits, 1);
    assert_eq!(ann.skill_stats.back_attacks, 1);
    assert_eq!(ann.skill_stats.front_attacks, 1);
    assert_eq!(ann.skills.len(), 1);
    assert_eq!(ann.skills.id_at(0), 42);
    let skill = ann.skills.get(0);
    assert_eq!(skill.name, "Pierce");
    assert_eq!(skill.total_damage, 350);
    assert_eq!(skill.max_damage, 250);
    assert_eq!(skill.hits, 2);
    assert_eq!(skill.crits, 1);
    assert_eq!(skill.cast_log, vec![100, 200]);
    let dummy = entity_named(encounter, "Dummy");
    assert_eq!(dummy.damage_stats.damage_taken, 350);
    assert_eq!(dummy.damage_stats.damage_dealt, 0);
    assert_eq!(dummy.skill_stats.hits, 0);
    // Neither is a player, so the encounter's totals stay.
    assert_eq!(encounter.encounter_damage_stats.total_damage_dealt, 0);
    assert_eq!(encounter.encounter_damage_stats.total_damage_taken, 0);
}

#[test]
fn an_entity_can_hit_itself() {
    let mut agg = Aggregator::new();
    agg.apply(&identity(0, "Ann", EntityType::Player, 101));
    agg.apply(&hit(10, "Ann", "Ann", 30));
    let encounter = agg.encounter();
    assert_eq!(encounter.entities.len(), 1);
    let ann = entity_named(encounter, "Ann");
    assert_eq!(ann.damage_stats.damage_dealt, 30);
    assert_eq!(ann.damage_stats.damage_taken, 30);
    assert_eq!(encounter.encounter_damage_stats.total_damage_dealt, 30);
    assert_eq!(encounter.encounter_damage_stats.total_damage_taken, 30);
}

#[test]
fn the_top_values_are_those_of_the_strongest_player() {
    let mut agg = Aggregator::new();
    agg.apply(&identity(0, "Ann", EntityType::Player, 101));
    agg.apply(&identity(0, "Bob", EntityType::Player, 102));
    agg.apply(&hit(10, "Ann", "Dummy", 30));
    agg.apply(&hit(20, "Bob", "Dummy", 50));
    agg.apply(&hit(30, "Ann", "Dummy", 10));
    agg.apply(&hit(40, "Dummy", "Bob", 7));
    let stats = &agg.encounter().encounter_damage_stats;
    assert_eq!(stats.total_damage_dealt, 90);
    assert_eq!(stats.top_damage_dealt, 50);
    assert_eq!(stats.total_damage_taken, 7);
    assert_eq!(stats.top_damage_taken, 7);
}

#[test]
fn a_hit_on_a_boss_names_the_current_boss() {
    let mut agg = Aggregator::new();
    agg.apply(&identity(0, "Vykas", EntityType::Boss, 0));
    agg.apply(&hit(10, "Ann", "Dummy", 30));
    assert_eq!(agg.encounter().current_boss_name, "");
    agg.apply(&hit(20, "Ann", "Vykas", 30));
    assert_eq!(agg.encounter().current_boss_name, "Vykas");
    agg.apply(&hit(30, "Ann", "Dummy", 30));
    assert_eq!(agg.encounter().current_boss_name, "Vykas");
    agg.apply(&Event::RaidEnd);
    let encounter = agg.finalize().expect("the fight is over");
    assert_eq!(encounter.current_boss_name, "Vykas");
    let boss = encounter.current_boss.as_ref().expect("the boss is known");
    assert_eq!(boss.entity_type, EntityType::Boss);
    assert_eq!(boss.damage_stats.damage_taken, 30);
}

#[test]
fn a_late_event_is_dropped() {
    let mut agg = Aggregator::new();
    agg.apply(&hit(100, "Ann", "Dummy", 5));
    agg.apply(&hit(99, "Bob", "Dummy", 5));
    agg.apply(&identity(50, "Cid", EntityType::Player, 1));
    agg.apply(&Event::StatusApplied(StatusEvent {
        timestamp: 99,
        effect_id: 1,
        kind: EffectKind::Buff,
        effect: effect("Late"),
    }));
    let encounter = agg.encounter();
    assert_eq!(encounter.entities.len(), 2);
    assert!(encounter.entities.find("Bob").is_none());
    assert!(encounter.entities.find("Cid").is_none());
    assert_eq!(encounter.encounter_damage_stats.buffs.len(), 0);
    assert_eq!(encounter.last_combat_packet, 100);
    // An event at the very time of the last hit is not late.
    agg.apply(&hit(100, "Bob", "Dummy", 5));
    assert!(agg.encounter().entities.find("Bob").is_some());
}

#[test]
fn an_event_without_a_time_or_with_negative_damage_is_dropped() {
    let mut agg = Aggregator::new();
    agg.apply(&hit(-1, "Ann", "Dummy", 5));
    assert_eq!(agg.phase(), Phase::Idle);
    assert_eq!(agg.encounter().entities.len(), 0);
    agg.apply(&hit(10, "Ann", "Dummy", -5));
    assert_eq!(agg.phase(), Phase::Idle);
    assert_eq!(agg.encounter().entities.len(), 0);
    agg.apply(&identity(-3, "Ann", EntityType::Player, 1));
    assert_eq!(agg.encounter().entities.len(), 0);
    agg.apply(&hit(10, "Ann", "Dummy", 0));
    assert_eq!(agg.phase(), Phase::Active);
}

#[test]
fn the_end_of_the_raid_is_ignored_while_idle() {
    let mut agg = Aggregator::new();
    agg.apply(&identity(5, "Ann", EntityType::Player, 1));
    agg.apply(&Event::RaidEnd);
    assert_eq!(agg.phase(), Phase::Idle);
    assert!(!agg.raid_end());
    assert!(agg.finalize().is_none());
    assert_eq!(agg.encounter().entities.len(), 1);
}

#[test]
fn nothing_is_taken_while_finalizing() {
    let mut agg = Aggregator::new();
    agg.apply(&hit(10, "Ann", "Dummy", 5));
    agg.apply(&Event::RaidEnd);
    assert_eq!(agg.phase(), Phase::Finalizing);
    assert!(agg.raid_end());
    agg.apply(&hit(20, "Bob", "Dummy", 5));
    agg.apply(&identity(20, "Cid", EntityType::Player, 1));
    agg.apply(&Event::RaidEnd);
    assert_eq!(agg.phase(), Phase::Finalizing);
    assert_eq!(agg.encounter().entities.len(), 2);
    assert_eq!(agg.encounter().last_combat_packet, 10);
}

#[test]
fn an_encounter_is_handed_out_once() {
    let mut agg = Aggregator::new();
    agg.apply(&hit(10, "Ann", "Dummy", 5));
    assert!(agg.finalize().is_none());
    assert_eq!(agg.phase(), Phase::Active);
    agg.apply(&Event::RaidEnd);
    assert!(agg.finalize().is_some());
    assert!(agg.finalize().is_none());
    assert_eq!(agg.phase(), Phase::Idle);
}

#[test]
fn the_end_of_the_stream_ends_a_fight_in_progress() {
    let mut idle = Aggregator::new();
    idle.end_of_stream();
    assert_eq!(idle.phase(), Phase::Idle);
    let mut agg = Aggregator::new();
    agg.apply(&hit(10, "Ann", "Dummy", 5));
    agg.end_of_stream();
    assert_eq!(agg.phase(), Phase::Finalizing);
    let encounter = agg.finalize().expect("the fight is over");
    assert_eq!(encounter.entities.len(), 2);
}

#[test]
fn two_fights_in_a_row_yield_two_encounters() {
    let mut agg = Aggregator::new();
    let mut finished = Vec::new();
    for event in [
        hit(1000, "Ann", "Dummy", 5),
        Event::RaidEnd,
        hit(500, "Bob", "Dummy", 9),
        hit(2500, "Bob", "Dummy", 9),
        Event::RaidEnd,
    ] {
        if let Some(encounter) = agg.ingest(&event) {
            finished.push(encounter);
        }
    }
    assert_eq!(finished.len(), 2);
    assert_eq!(finished[0].fight_start, 1000);
    assert_eq!(finished[0].entities.name_at(0), "Ann");
    assert_eq!(finished[1].fight_start, 500);
    assert_eq!(finished[1].duration, 2000);
    assert_eq!(finished[1].entities.len(), 2);
    assert_eq!(finished[1].entities.name_at(0), "Bob");
}

#[test]
fn the_first_description_of_a_status_effect_stays() {
    let mut agg = Aggregator::new();
    agg.apply(&Event::StatusApplied(StatusEvent {
        timestamp: 1,
        effect_id: 11,
        kind: EffectKind::Buff,
        effect: effect("Rage"),
    }));
    agg.apply(&Event::StatusApplied(StatusEvent {
        timestamp: 2,
        effect_id: 11,
        kind: EffectKind::Buff,
        effect: effect("Other"),
    }));
    agg.apply(&Event::StatusApplied(StatusEvent {
        timestamp: 3,
        effect_id: 11,
        kind: EffectKind::Debuff,
        effect: effect("Bleed"),
    }));
    agg.apply(&Event::StatusRemoved { timestamp: 4, effect_id: 11, kind: EffectKind::Buff });
    let stats = &agg.encounter().encounter_damage_stats;
    assert_eq!(stats.buffs.len(), 1);
    assert_eq!(stats.buffs.id_at(0), 11);
    assert_eq!(stats.buffs.get(0).name, "Rage");
    assert_eq!(stats.buffs.get(0).category, "dot");
    assert_eq!(stats.buffs.get(0).source, "skill");
    assert_eq!(stats.debuffs.len(), 1);
    assert_eq!(stats.debuffs.get(0).name, "Bleed");
    assert_eq!(agg.phase(), Phase::Idle);
}

#[test]
fn entity_updates_change_the_entity() {
    let mut agg = Aggregator::new();
    agg.apply(&Event::EntityUpdate(EntityUpdate {
        timestamp: 1,
        name: "Ann".to_string(),
        change: EntityChange::Identity {
            entity_type: EntityType::Player,
            class_id: 204,
            class_name: "Bard".to_string(),
            npc_id: Some(9),
        },
    }));
    agg.apply(&update(2, "Ann", EntityChange::Health { current_hp: 70, max_hp: 100 }));
    agg.apply(&update(3, "Ann", EntityChange::GearScore { hundredths: 149_050 }));
    agg.apply(&update(4, "Ann", EntityChange::LocalPlayer));
    let encounter = agg.encounter();
    assert_eq!(encounter.local_player, "Ann");
    let ann = entity_named(encounter, "Ann");
    assert_eq!(ann.entity_type, EntityType::Player);
    assert_eq!(ann.class_id, 204);
    assert_eq!(ann.class_name, "Bard");
    assert_eq!(ann.npc_id, Some(9));
    assert_eq!(ann.current_hp, 70);
    assert_eq!(ann.max_hp, 100);
    assert_eq!(ann.gear_score, 149_050);
    assert!(!ann.is_dead);
    agg.apply(&update(5, "Ann", EntityChange::Death));
    assert!(entity_named(agg.encounter(), "Ann").is_dead);
    assert_eq!(agg.encounter().entities.len(), 1);
    agg.apply(&update(6, "Bob", EntityChange::Death));
    assert_eq!(agg.encounter().entities.len(), 2);
    assert!(entity_named(agg.encounter(), "Bob").is_dead);
    assert_eq!(agg.encounter().local_player, "Ann");
}

#[test]
fn totals_stop_at_the_largest_number() {
    let mut agg = Aggregator::new();
    agg.apply(&identity(0, "Ann", EntityType::Player, 1));
    agg.apply(&hit(1, "Ann", "Dummy", i64::MAX));
    agg.apply(&hit(2, "Ann", "Dummy", 5));
    let encounter = agg.encounter();
    assert_eq!(encounter.encounter_damage_stats.total_damage_dealt, i64::MAX);
    assert_eq!(entity_named(encounter, "Ann").damage_stats.damage_dealt, i64::MAX);
    assert_eq!(entity_named(encounter, "Dummy").damage_stats.damage_taken, i64::MAX);
}

#[test]
fn a_boss_name_that_no_entity_bears_is_cleared() {
    let mut encounter = Encounter::new();
    encounter.current_boss_name = "Ghost".to_string();
    encounter.current_boss = Some(Entity::new());
    assert!(encounter.entities.insert("Ann".to_string(), Entity::new()));
    encounter.resolve_boss();
    assert_eq!(encounter.current_boss_name, "");
    assert!(encounter.current_boss.is_none());
}

#[test]
fn without_a_boss_name_the_boss_stays() {
    let mut encounter = Encounter::new();
    let mut boss = Entity::new();
    boss.max_hp = 9;
    encounter.current_boss = Some(boss);
    encounter.resolve_boss();
    assert_eq!(encounter.current_boss.as_ref().map(|b| b.max_hp), Some(9));
    assert_eq!(encounter.current_boss_name, "");
}

#[test]
fn closing_an_encounter_with_a_start_after_its_end_gives_no_duration() {
    let mut encounter = Encounter::new();
    encounter.fight_start = 50;
    encounter.last_combat_packet = 20;
    encounter.encounter_damage_stats.total_damage_dealt = 1_000_000;
    encounter.close();
    assert_eq!(encounter.duration, 0);
    assert_eq!(encounter.encounter_damage_stats.dps, 0);
}
