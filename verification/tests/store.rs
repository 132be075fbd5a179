use encounter_meter::aggregator::Aggregator;
use encounter_meter::model::{Encounter, Entity, EntityType};
use encounter_meter::store::{
    load_encounters, load_encounters_preview, save_encounter, setup_db, StoreError,
};
use rusqlite::Connection;

fn store() -> Connection {
    let conn = Connection::open_in_memory().unwrap();
    assert_eq!(setup_db(&conn), Ok(()));
    conn
}

fn count(conn: &Connection, sql: &str) -> i64 {
    conn.query_row(sql, [], |row| row.get(0)).unwrap()
}

fn fight(start: i64, boss: &str) -> Encounter {
    let mut agg = Aggregator::new();
    agg.parse_line("1|0|Ann|1|204|Bard|");
    agg.parse_line("2|0|Ann|900|1000");
    agg.parse_line("3|0|Ann|149050");
    agg.parse_line("1|0|Bob|1|102|Berserker|");
    agg.parse_line("1|0|Cid|1|305|Sorceress|");
    agg.parse_line(&format!("1|0|{}|4|0||480", boss));
    agg.parse_line("7|0|501|1|Bleed|dot|Sharp Blade");
    agg.parse_line("7|0|9|0|Rage|buff|item");
    agg.parse_line(&format!("6|{}|Ann|{}|1|Hymn|1000|0", start, boss));
    agg.parse_line(&format!("6|{}|Bob|{}|2|Smash|9000|1", start + 1000, boss));
    agg.parse_line(&format!("6|{}|Cid|{}|3|Blaze|5000|0", start + 2000, boss));
    agg.parse_line(&format!("9|{}", start + 2000));
    agg.finalize().expect("the fight is over")
}

#[test]
fn schema_setup_twice_is_a_no_op() {
    let conn = Connection::open_in_memory().unwrap();
    assert_eq!(setup_db(&conn), Ok(()));
    let objects = count(&conn, "SELECT COUNT(*) FROM sqlite_master");
    assert_eq!(setup_db(&conn), Ok(()));
    assert_eq!(count(&conn, "SELECT COUNT(*) FROM sqlite_master"), objects);
}

#[test]
fn schema_setup_keeps_what_is_stored() {
    let conn = store();
    let mut encounter = fight(1000, "Vykas");
    save_encounter(&conn, &mut encounter).unwrap();
    assert_eq!(setup_db(&conn), Ok(()));
    assert_eq!(count(&conn, "SELECT COUNT(*) FROM encounter"), 1);
    assert_eq!(count(&conn, "SELECT COUNT(*) FROM entity"), 4);
}

#[test]
fn the_schema_has_its_tables_and_indexes() {
    let conn = store();
    for (kind, name) in [
        ("table", "encounter"),
        ("table", "entity"),
        ("index", "encounter_fight_start_index"),
        ("index", "encounter_current_boss_index"),
        ("index", "entity_encounter_id_index"),
        ("index", "entity_name_index"),
        ("index", "entity_class_index"),
    ] {
        let found: i64 = conn
            .query_row(
                "SELECT COUNT(*) FROM sqlite_master WHERE type = ?1 AND name = ?2",
                [kind, name],
                |row| row.get(0),
            )
            .unwrap();
        assert_eq!(found, 1, "{} {} is missing", kind, name);
    }
}

#[test]
fn schema_setup_reports_what_the_database_says() {
    let conn = Connection::open_in_memory().unwrap();
    conn.execute_batch("CREATE VIEW encounter AS SELECT 1 AS fight_start, 2 AS current_boss").unwrap();
    match setup_db(&conn) {
        Err(StoreError::Store(text)) => assert_eq!(text, "views may not be indexed"),
        other => panic!("the schema was not refused: {:?}", other),
    }
}

#[test]
fn a_saved_encounter_has_its_row_and_the_rows_of_its_entities() {
    let conn = store();
    let mut encounter = fight(1000, "Vykas");
    let id = save_encounter(&conn, &mut encounter).expect("the encounter is saved");
    assert_eq!(encounter.id, Some(id));
    assert_eq!(count(&conn, "SELECT COUNT(*) FROM encounter"), 1);
    assert_eq!(count(&conn, "SELECT COUNT(*) FROM entity"), 4);
    let row: (i64, i64, i64, String, String, i64, i64, i64, i64, String, String) = conn
        .query_row(
            "SELECT id, last_combat_packet, fight_start, local_player, current_boss, duration,
                total_damage_dealt, top_damage_dealt, dps, buffs, debuffs FROM encounter",
            [],
            |r| {
                Ok((
                    r.get(0)?,
                    r.get(1)?,
                    r.get(2)?,
                    r.get(3)?,
                    r.get(4)?,
                    r.get(5)?,
                    r.get(6)?,
                    r.get(7)?,
                    r.get(8)?,
                    r.get(9)?,
                    r.get(10)?,
                ))
            },
        )
        .unwrap();
    assert_eq!(
        row,
        (
            id,
            3000,
            1000,
            String::new(),
            "Vykas".to_string(),
            2000,
            15000,
            9000,
            7500,
            r#"{"9":{"name":"Rage","category":"buff","source":"item"}}"#.to_string(),
            r#"{"501":{"name":"Bleed","category":"dot","source":"Sharp Blade"}}"#.to_string(),
        )
    );
    let ann: (i64, Option<i64>, String, i64, String, f64, i64, i64, i64, String, String, String) = conn
        .query_row(
            "SELECT encounter_id, npc_id, entity_type, class_id, class, gear_score, current_hp,
                max_hp, is_dead, skills, damage_stats, skill_stats FROM entity WHERE name = 'Ann'",
            [],
            |r| {
                Ok((
                    r.get(0)?,
                    r.get(1)?,
                    r.get(2)?,
                    r.get(3)?,
                    r.get(4)?,
                    r.get(5)?,
                    r.get(6)?,
                    r.get(7)?,
                    r.get(8)?,
                    r.get(9)?,
                    r.get(10)?,
                    r.get(11)?,
                ))
            },
        )
        .unwrap();
    assert_eq!(
        ann,
        (
            id,
            None,
            "PLAYER".to_string(),
            204,
            "Bard".to_string(),
            1490.5,
            900,
            1000,
            0,
            r#"{"1":{"name":"Hymn","totalDamage":1000,"maxDamage":1000,"hits":1,"crits":0,"castLog":[1000]}}"#
                .to_string(),
            r#"{"damageDealt":1000,"damageTaken":0,"dps":500,"damageLog":[[1000,1000,0]]}"#.to_string(),
            r#"{"hits":1,"crits":0,"backAttacks":0,"frontAttacks":0}"#.to_string(),
        )
    );
    let boss: (Option<i64>, String) = conn
        .query_row("SELECT npc_id, entity_type FROM entity WHERE name = 'Vykas'", [], |r| {
            Ok((r.get(0)?, r.get(1)?))
        })
        .unwrap();
    assert_eq!(boss, (Some(480), "BOSS".to_string()));
}

#[test]
fn an_encounter_is_saved_once() {
    let conn = store();
    let mut encounter = fight(1000, "Vykas");
    let id = save_encounter(&conn, &mut encounter).expect("the encounter is saved");
    assert_eq!(save_encounter(&conn, &mut encounter), Err(StoreError::AlreadySaved));
    assert_eq!(encounter.id, Some(id));
    assert_eq!(count(&conn, "SELECT COUNT(*) FROM encounter"), 1);
    assert_eq!(count(&conn, "SELECT COUNT(*) FROM entity"), 4);
}

#[test]
fn saved_encounters_get_identifiers_of_their_own() {
    let conn = store();
    let first = save_encounter(&conn, &mut fight(1000, "Vykas")).unwrap();
    let second = save_encounter(&conn, &mut fight(1000, "Vykas")).unwrap();
    assert_ne!(first, second);
    assert_eq!(count(&conn, "SELECT COUNT(*) FROM entity"), 8);
}

#[test]
fn an_encounter_that_cannot_be_saved_whole_is_not_saved_at_all() {
    let conn = store();
    save_encounter(&conn, &mut fight(500, "Valtan")).unwrap();
    conn.execute_batch(
        "CREATE TRIGGER refuse_cid BEFORE INSERT ON entity WHEN NEW.name = 'Cid'
         BEGIN SELECT RAISE(ABORT, 'no room for Cid'); END;",
    )
    .unwrap();
    let mut encounter = fight(1000, "Vykas");
    match save_encounter(&conn, &mut encounter) {
        Err(StoreError::Store(text)) => assert!(text.contains("no room for Cid"), "{}", text),
        other => panic!("the encounter was not refused: {:?}", other),
    }
    assert_eq!(encounter.id, None);
    assert_eq!(count(&conn, "SELECT COUNT(*) FROM encounter"), 1);
    assert_eq!(count(&conn, "SELECT COUNT(*) FROM entity"), 4);
    assert_eq!(count(&conn, "SELECT COUNT(*) FROM entity WHERE name = 'Ann'"), 1);
    assert_eq!(count(&conn, "SELECT COUNT(*) FROM entity WHERE name = 'Cid'"), 1);
    assert!(conn.is_autocommit());
    // The store still works.
    conn.execute_batch("DROP TRIGGER refuse_cid").unwrap();
    save_encounter(&conn, &mut encounter).unwrap();
    assert_eq!(count(&conn, "SELECT COUNT(*) FROM encounter"), 2);
    assert_eq!(count(&conn, "SELECT COUNT(*) FROM entity"), 8);
}

#[test]
fn saving_without_a_schema_is_an_error_of_the_store() {
    let conn = Connection::open_in_memory().unwrap();
    let mut encounter = fight(1000, "Vykas");
    let error = save_encounter(&conn, &mut encounter).unwrap_err();
    assert!(matches!(error, StoreError::Store(_)));
    assert!(error.message().contains("encounter"));
    assert_eq!(encounter.id, None);
    assert!(conn.is_autocommit());
}

#[test]
fn six_stored_encounters_fill_page_one_and_leave_page_two_empty() {
    let conn = store();
    for start in [3000, 1000, 6000, 2000, 5000, 4000] {
        save_encounter(&conn, &mut fight(start, "Vykas")).unwrap();
    }
    let first = load_encounters_preview(&conn, 1).expect("page one is read");
    assert_eq!(first.total_encounters, 6);
    let starts: Vec<i64> = first.encounters.iter().map(|e| e.fight_start).collect();
    assert_eq!(starts, vec![6000, 5000, 4000, 3000, 2000, 1000]);
    let second = load_encounters_preview(&conn, 2).expect("page two is read");
    assert!(second.encounters.is_empty());
    assert_eq!(second.total_encounters, 6);
}

#[test]
fn the_seventh_encounter_stands_on_page_two() {
    let conn = store();
    for start in 1..=7 {
        save_encounter(&conn, &mut fight(start * 1000, "Vykas")).unwrap();
    }
    let first = load_encounters_preview(&conn, 1).unwrap();
    assert_eq!(first.encounters.len(), 6);
    assert_eq!(first.encounters[0].fight_start, 7000);
    assert_eq!(first.encounters[5].fight_start, 2000);
    let second = load_encounters_preview(&conn, 2).unwrap();
    assert_eq!(second.encounters.len(), 1);
    assert_eq!(second.encounters[0].fight_start, 1000);
    assert_eq!(second.total_encounters, 7);
    // A page below one reads as the first.
    let zero = load_encounters_preview(&conn, 0).unwrap();
    assert_eq!(zero.encounters[0].fight_start, 7000);
    let below = load_encounters_preview(&conn, i32::MIN).unwrap();
    assert_eq!(below.encounters.len(), 6);
    let far = load_encounters_preview(&conn, i32::MAX).unwrap();
    assert!(far.encounters.is_empty());
    assert_eq!(far.total_encounters, 7);
}

#[test]
fn a_preview_tells_of_the_encounter() {
    let conn = store();
    let id = save_encounter(&conn, &mut fight(1000, "Vykas")).unwrap();
    let page = load_encounters_preview(&conn, 1).unwrap();
    assert_eq!(page.encounters.len(), 1);
    let preview = &page.encounters[0];
    assert_eq!(preview.id, id);
    assert_eq!(preview.fight_start, 1000);
    assert_eq!(preview.boss_name, "Vykas");
    assert_eq!(preview.duration, 2000);
}

#[test]
fn the_classes_of_a_preview_stand_in_the_order_of_damage_per_second() {
    let conn = store();
    save_encounter(&conn, &mut fight(1000, "Vykas")).unwrap();
    let page = load_encounters_preview(&conn, 1).unwrap();
    // Bob dealt 9000, Cid 5000, Ann 1000 and the boss nothing.
    assert_eq!(page.encounters[0].classes, vec![102, 305, 204, 0]);
}

#[test]
fn an_encounter_without_entities_has_no_classes() {
    let conn = store();
    save_encounter(&conn, &mut Encounter::new()).unwrap();
    let page = load_encounters_preview(&conn, 1).unwrap();
    assert_eq!(page.encounters.len(), 1);
    assert!(page.encounters[0].classes.is_empty());
    assert_eq!(page.encounters[0].boss_name, "");
}

#[test]
fn an_entity_without_a_class_is_left_out_of_the_classes() {
    let conn = store();
    let id = save_encounter(&conn, &mut fight(1000, "Vykas")).unwrap();
    conn.execute("UPDATE entity SET class_id = NULL WHERE name = 'Cid'", []).unwrap();
    let page = load_encounters_preview(&conn, 1).unwrap();
    assert_eq!(page.encounters[0].id, id);
    assert_eq!(page.encounters[0].classes, vec![102, 204, 0]);
}

#[test]
fn damage_that_is_no_document_counts_as_no_damage_per_second() {
    let conn = store();
    save_encounter(&conn, &mut fight(1000, "Vykas")).unwrap();
    conn.execute("UPDATE entity SET damage_stats = '[]' WHERE name = 'Bob'", []).unwrap();
    conn.execute("UPDATE entity SET damage_stats = NULL WHERE name = 'Cid'", []).unwrap();
    let page = load_encounters_preview(&conn, 1).unwrap();
    // Ann is left with 500 per second; the boss has zero, the others nothing at all.
    assert_eq!(page.encounters[0].classes, vec![204, 0, 102, 305]);
}

#[test]
fn damage_that_is_no_json_is_an_error_of_the_store() {
    let conn = store();
    save_encounter(&conn, &mut fight(1000, "Vykas")).unwrap();
    conn.execute("UPDATE entity SET damage_stats = 'no json' WHERE name = 'Bob'", []).unwrap();
    assert!(matches!(load_encounters_preview(&conn, 1), Err(StoreError::Store(_))));
}

#[test]
fn the_most_recent_encounters_are_read_in_full() {
    let conn = store();
    let mut ids = Vec::new();
    for start in 1..=12 {
        ids.push(save_encounter(&conn, &mut fight(start * 1000, "Vykas")).unwrap());
    }
    let recent = load_encounters(&conn).expect("the encounters are read");
    assert_eq!(recent.len(), 10);
    let starts: Vec<i64> = recent.iter().map(|e| e.fight_start).collect();
    assert_eq!(starts, vec![12000, 11000, 10000, 9000, 8000, 7000, 6000, 5000, 4000, 3000]);
    let newest = &recent[0];
    assert_eq!(newest.id, Some(ids[11]));
    assert_eq!(newest.last_combat_packet, 14000);
    assert_eq!(newest.local_player, "");
    assert_eq!(newest.current_boss_name, "Vykas");
    assert!(newest.current_boss.is_none());
    assert_eq!(newest.duration, 2000);
    assert_eq!(newest.encounter_damage_stats.total_damage_dealt, 15000);
    assert_eq!(newest.encounter_damage_stats.top_damage_dealt, 9000);
    assert_eq!(newest.encounter_damage_stats.total_damage_taken, 0);
    assert_eq!(newest.encounter_damage_stats.top_damage_taken, 0);
    assert_eq!(newest.encounter_damage_stats.dps, 7500);
    assert_eq!(newest.encounter_damage_stats.buffs.len(), 1);
    assert_eq!(newest.encounter_damage_stats.buffs.id_at(0), 9);
    assert_eq!(newest.encounter_damage_stats.buffs.get(0).name, "Rage");
    assert_eq!(newest.encounter_damage_stats.debuffs.len(), 1);
    assert_eq!(newest.encounter_damage_stats.debuffs.id_at(0), 501);
    assert_eq!(newest.encounter_damage_stats.debuffs.get(0).source, "Sharp Blade");
    assert_eq!(newest.entities.len(), 0);
}

#[test]
fn malformed_json_in_the_debuffs_loads_as_no_debuffs() {
    let conn = store();
    conn.execute(
        "INSERT INTO encounter (last_combat_packet, fight_start, local_player, current_boss,
            duration, total_damage_dealt, top_damage_dealt, total_damage_taken, top_damage_taken,
            dps, buffs, debuffs)
         VALUES (9000, 4000, 'Ann', 'Vykas', 5000, 100, 60, 7, 5, 20,
            '{\"9\":{\"name\":\"Rage\",\"category\":\"buff\",\"source\":\"item\"}}',
            '{\"501\": {\"name\": ')",
        [],
    )
    .unwrap();
    let recent = load_encounters(&conn).expect("the encounter is read");
    assert_eq!(recent.len(), 1);
    let encounter = &recent[0];
    assert_eq!(encounter.encounter_damage_stats.debuffs.len(), 0);
    assert_eq!(encounter.encounter_damage_stats.buffs.len(), 1);
    assert_eq!(encounter.encounter_damage_stats.buffs.get(0).name, "Rage");
    assert_eq!(encounter.fight_start, 4000);
    assert_eq!(encounter.last_combat_packet, 9000);
    assert_eq!(encounter.local_player, "Ann");
    assert_eq!(encounter.current_boss_name, "Vykas");
    assert_eq!(encounter.duration, 5000);
    assert_eq!(encounter.encounter_damage_stats.total_damage_dealt, 100);
    assert_eq!(encounter.encounter_damage_stats.top_damage_dealt, 60);
    assert_eq!(encounter.encounter_damage_stats.total_damage_taken, 7);
    assert_eq!(encounter.encounter_damage_stats.top_damage_taken, 5);
    assert_eq!(encounter.encounter_damage_stats.dps, 20);
}

#[test]
fn empty_columns_of_status_effects_load_as_none() {
    let conn = store();
    conn.execute(
        "INSERT INTO encounter (last_combat_packet, fight_start, duration, total_damage_dealt,
            top_damage_dealt, total_damage_taken, top_damage_taken, dps, buffs, debuffs)
         VALUES (2, 1, 1, 0, 0, 0, 0, 0, NULL, 17)",
        [],
    )
    .unwrap();
    let recent = load_encounters(&conn).expect("the encounter is read");
    assert_eq!(recent.len(), 1);
    assert_eq!(recent[0].encounter_damage_stats.buffs.len(), 0);
    assert_eq!(recent[0].encounter_damage_stats.debuffs.len(), 0);
    assert_eq!(recent[0].local_player, "");
    assert_eq!(recent[0].current_boss_name, "");
}

#[test]
fn a_row_without_its_numbers_is_an_error() {
    let conn = store();
    conn.execute("INSERT INTO encounter (fight_start, current_boss) VALUES (1, 'Vykas')", [])
        .unwrap();
    assert_eq!(load_encounters(&conn).unwrap_err(), StoreError::MalformedRow);
    assert_eq!(load_encounters_preview(&conn, 1).unwrap_err(), StoreError::MalformedRow);
    assert_eq!(
        StoreError::MalformedRow.message(),
        "the store gave a row of an unknown shape"
    );
}

#[test]
fn lookups_without_a_schema_are_errors_of_the_store() {
    let conn = Connection::open_in_memory().unwrap();
    assert!(matches!(load_encounters(&conn), Err(StoreError::Store(_))));
    assert!(matches!(load_encounters_preview(&conn, 1), Err(StoreError::Store(_))));
}

#[test]
fn the_errors_in_words() {
    assert_eq!(StoreError::Store("disk full".to_string()).message(), "disk full");
    assert_eq!(StoreError::Encode.message(), "a column could not be written as JSON");
    assert_eq!(StoreError::AlreadySaved.message(), "the encounter has been saved before");
}

#[test]
fn an_encounter_built_by_hand_is_saved_too() {
    let conn = store();
    let mut encounter = Encounter::new();
    let mut wolf = Entity::new();
    wolf.entity_type = EntityType::Npc;
    wolf.npc_id = Some(-7);
    wolf.is_dead = true;
    assert!(encounter.entities.insert("Wolf|ö".to_string(), wolf));
    let id = save_encounter(&conn, &mut encounter).unwrap();
    let row: (String, i64, Option<i64>, String, i64) = conn
        .query_row("SELECT name, encounter_id, npc_id, entity_type, is_dead FROM entity", [], |r| {
            Ok((r.get(0)?, r.get(1)?, r.get(2)?, r.get(3)?, r.get(4)?))
        })
        .unwrap();
    assert_eq!(row, ("Wolf|ö".to_string(), id, Some(-7), "NPC".to_string(), 1));
}

#[test]
fn text_that_is_not_utf8_is_an_error_of_the_store() {
    let conn = store();
    save_encounter(&conn, &mut fight(1000, "Vykas")).unwrap();
    conn.execute("UPDATE encounter SET current_boss = CAST(x'ff' AS TEXT)", []).unwrap();
    assert!(matches!(load_encounters(&conn), Err(StoreError::Store(_))));
    assert!(matches!(load_encounters_preview(&conn, 1), Err(StoreError::Store(_))));
    assert!(conn.is_autocommit());
    conn.execute("UPDATE encounter SET current_boss = 'Vykas', buffs = CAST(x'c328' AS TEXT)", [])
        .unwrap();
    assert!(matches!(load_encounters(&conn), Err(StoreError::Store(_))));
    conn.execute("UPDATE encounter SET buffs = x'c328'", []).unwrap();
    let recent = load_encounters(&conn).expect("a blob is no text and reads as no effects");
    assert_eq!(recent[0].encounter_damage_stats.buffs.len(), 0);
}

#[test]
fn classes_are_ordered_by_the_dps_member_of_the_damage() {
    let conn = store();
    conn.execute(
        "INSERT INTO encounter (id, fight_start, current_boss, duration) VALUES (1, 100, 'b', 0)",
        [],
    )
    .unwrap();
    for (name, class_id, damage) in [
        ("a", 102, r#"{"dps":50}"#),
        ("b", 204, r#"{"dps":300}"#),
        ("c", 305, r#"{"dps":120}"#),
    ] {
        conn.execute(
            "INSERT INTO entity (name, encounter_id, class_id, damage_stats)
             VALUES (?1, 1, CAST(?2 AS INTEGER), ?3)",
            [name.to_string(), class_id.to_string(), damage.to_string()],
        )
        .unwrap();
    }
    let page = load_encounters_preview(&conn, 1).expect("the page is read");
    assert_eq!(page.encounters.len(), 1);
    assert_eq!(page.encounters[0].classes, vec![204, 305, 102]);
    assert_eq!(page.total_encounters, 1);
    assert_eq!(page.encounters[0].id, 1);
    assert_eq!(page.encounters[0].boss_name, "b");
}

#[test]
fn status_effects_written_as_a_mapping_are_read_back() {
    let conn = store();
    let effect = |name: &str, category: &str, source: &str| {
        let mut members = std::collections::HashMap::new();
        members.insert("name".to_string(), name.to_string());
        members.insert("category".to_string(), category.to_string());
        members.insert("source".to_string(), source.to_string());
        members
    };
    let mut buffs = std::collections::HashMap::new();
    buffs.insert(9, effect("Rage", "buff", "item"));
    buffs.insert(-4, effect("Song \"of\" ö", "", "bard"));
    let mut debuffs = std::collections::HashMap::new();
    debuffs.insert(501, effect("Bleed", "dot", "Sharp Blade"));
    conn.execute(
        "INSERT INTO encounter (last_combat_packet, fight_start, local_player, current_boss,
            duration, total_damage_dealt, top_damage_dealt, total_damage_taken, top_damage_taken,
            dps, buffs, debuffs)
         VALUES (2, 1, 'Ann', 'Vykas', 1, 0, 0, 0, 0, 0, ?1, ?2)",
        [serde_json::to_string(&buffs).unwrap(), serde_json::to_string(&debuffs).unwrap()],
    )
    .unwrap();
    let recent = load_encounters(&conn).expect("the encounter is read");
    let stats = &recent[0].encounter_damage_stats;
    assert_eq!(stats.buffs.len(), 2);
    assert_eq!(stats.buffs.id_at(0), -4);
    assert_eq!(stats.buffs.get(0).name, "Song \"of\" ö");
    assert_eq!(stats.buffs.get(0).category, "");
    assert_eq!(stats.buffs.get(0).source, "bard");
    assert_eq!(stats.buffs.id_at(1), 9);
    assert_eq!(stats.buffs.get(1).name, "Rage");
    assert_eq!(stats.buffs.get(1).category, "buff");
    assert_eq!(stats.buffs.get(1).source, "item");
    assert_eq!(stats.debuffs.len(), 1);
    assert_eq!(stats.debuffs.id_at(0), 501);
    assert_eq!(stats.debuffs.get(0).name, "Bleed");
    assert_eq!(stats.debuffs.get(0).category, "dot");
    assert_eq!(stats.debuffs.get(0).source, "Sharp Blade");
}

#[test]
fn what_is_saved_is_read_back() {
    let conn = store();
    let mut saved = fight(1000, "Vykas");
    let id = save_encounter(&conn, &mut saved).unwrap();
    let recent = load_encounters(&conn).expect("the encounter is read");
    assert_eq!(recent.len(), 1);
    let read = &recent[0];
    assert_eq!(read.id, Some(id));
    assert_eq!(read.fight_start, saved.fight_start);
    assert_eq!(read.last_combat_packet, saved.last_combat_packet);
    assert_eq!(read.duration, saved.duration);
    assert_eq!(read.duration, read.last_combat_packet - read.fight_start);
    assert_eq!(read.encounter_damage_stats.dps, saved.encounter_damage_stats.dps);
    assert_eq!(read.encounter_damage_stats.dps, read.encounter_damage_stats.total_damage_dealt / (read.duration / 1000));
    assert_eq!(read.encounter_damage_stats.buffs.len(), saved.encounter_damage_stats.buffs.len());
    assert_eq!(read.encounter_damage_stats.buffs.id_at(0), 9);
    assert_eq!(read.encounter_damage_stats.debuffs.id_at(0), 501);
    assert_eq!(load_encounters_preview(&conn, 1).unwrap().total_encounters, 1);
}

#[test]
fn damage_per_second_with_a_fraction_is_ordered_as_a_number() {
    let conn = store();
    conn.execute("INSERT INTO encounter (id, fight_start, duration) VALUES (1, 100, 0)", []).unwrap();
    for (name, class_id, damage) in [
        ("a", "1", r#"{"dps":50.2}"#),
        ("b", "2", r#"{"dps":300}"#),
        ("c", "3", r#"{"dps":50.7}"#),
        ("d", "4", r#"{"dps":120.5}"#),
    ] {
        conn.execute(
            "INSERT INTO entity (name, encounter_id, class_id, damage_stats)
             VALUES (?1, 1, CAST(?2 AS INTEGER), ?3)",
            [name, class_id, damage],
        )
        .unwrap();
    }
    let page = load_encounters_preview(&conn, 1).expect("the page is read");
    assert_eq!(page.encounters[0].classes, vec![2, 4, 3, 1]);
}

#[test]
fn entities_of_other_encounters_give_no_classes() {
    let conn = store();
    let first = save_encounter(&conn, &mut fight(1000, "Vykas")).unwrap();
    let second = save_encounter(&conn, &mut fight(2000, "Valtan")).unwrap();
    conn.execute("DELETE FROM entity WHERE encounter_id = ?1 AND name <> 'Bob'", [first]).unwrap();
    let page = load_encounters_preview(&conn, 1).unwrap();
    assert_eq!(page.encounters[0].id, second);
    assert_eq!(page.encounters[0].classes, vec![102, 305, 204, 0]);
    assert_eq!(page.encounters[1].id, first);
    assert_eq!(page.encounters[1].classes, vec![102]);
}
