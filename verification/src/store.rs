//! The record store: the schema, the write path that saves a finished
//! encounter, and the two lookups.
//!
//! The store is an SQLite database behind `rusqlite`. What the database
//! answers is not known to Verus, so the functions here state what holds
//! whatever it answers; what they make of an answer is stated exactly by
//! the functions of the modules `rows` and `query`, which take the answer
//! as rows.

use vstd::prelude::*;
use rusqlite::types::ValueRef;
use crate::json::{
    damage_text, effects_writable, encode_damage, encode_effects, encode_skills, encode_stats,
    skills_text, skills_writable, stats_text,
};
use crate::model::{Encounter, EncounterView, Entity, EntityView};
use crate::query::{
    overview_from_rows, preview_params, recent_from_rows, recent_params, single_integer,
    EncountersOverview, PAGE_SIZE, RECENT_COUNT,
};
use crate::rank::descending;
use crate::rows::{encounter_row, entity_row, SqlParam, SqlValue};

verus! {

/// `rusqlite::Connection`: an open database.
#[verifier::external_type_specification]
#[verifier::external_body]
pub struct ExConnection(rusqlite::Connection);

/// `rusqlite::Error`: why the database refused.
#[verifier::external_type_specification]
#[verifier::external_body]
pub struct ExStoreFailure(rusqlite::Error);

/// `rusqlite::types::Value`: one value as the database is given it.
#[verifier::external_type_specification]
#[verifier::external_body]
pub struct ExStoreValue(rusqlite::types::Value);

/// Why the store could not do what it was asked.
#[derive(Debug, PartialEq, Eq)]
pub enum StoreError {
    /// The database refused; the text is its own.
    Store(String),
    /// A JSON column could not be written.
    Encode,
    /// The encounter has been saved before.
    AlreadySaved,
    /// The database answered with a row of a shape that no query here asks
    /// for.
    MalformedRow,
}

/// The first part of the schema: the table of encounters and its indexes.
pub const ENCOUNTER_SCHEMA: &'static str = "
    CREATE TABLE IF NOT EXISTS encounter (
        id INTEGER PRIMARY KEY,
        last_combat_packet INTEGER,
        fight_start INTEGER,
        local_player TEXT,
        current_boss TEXT,
        duration INTEGER,
        total_damage_dealt INTEGER,
        top_damage_dealt INTEGER,
        total_damage_taken INTEGER,
        top_damage_taken INTEGER,
        dps INTEGER,
        buffs TEXT,
        debuffs TEXT
    );
    CREATE INDEX IF NOT EXISTS encounter_fight_start_index
    ON encounter (fight_start desc);
    CREATE INDEX IF NOT EXISTS encounter_current_boss_index
    ON encounter (current_boss);
    ";

/// The second part of the schema: the table of entities and its indexes.
pub const ENTITY_SCHEMA: &'static str = "
    CREATE TABLE IF NOT EXISTS entity (
        name TEXT,
        encounter_id INTEGER NOT NULL,
        npc_id INTEGER,
        entity_type TEXT,
        class_id INTEGER,
        class TEXT,
        gear_score REAL,
        current_hp INTEGER,
        max_hp INTEGER,
        is_dead INTEGER,
        skills TEXT,
        damage_stats TEXT,
        skill_stats TEXT,
        PRIMARY KEY (name, encounter_id),
        FOREIGN KEY (encounter_id) REFERENCES encounter (id) ON DELETE CASCADE
    );
    CREATE INDEX IF NOT EXISTS entity_encounter_id_index
    ON entity (encounter_id desc);
    CREATE INDEX IF NOT EXISTS entity_name_index
    ON entity (name);
    CREATE INDEX IF NOT EXISTS entity_class_index
    ON entity (class);
    ";

/// Opens a transaction that writes.
pub const BEGIN: &'static str = "BEGIN IMMEDIATE";

/// Opens a transaction that reads.
pub const BEGIN_READ: &'static str = "BEGIN";

pub const COMMIT: &'static str = "COMMIT";

pub const ROLLBACK: &'static str = "ROLLBACK";

/// Writes the row of an encounter and gives the identifier it was stored
/// under.
pub const INSERT_ENCOUNTER: &'static str = "
    INSERT INTO encounter (
        last_combat_packet, fight_start, local_player, current_boss, duration,
        total_damage_dealt, top_damage_dealt, total_damage_taken, top_damage_taken,
        dps, buffs, debuffs
    ) VALUES (?1, ?2, ?3, ?4, ?5, ?6, ?7, ?8, ?9, ?10, ?11, ?12)
    RETURNING id
    ";

/// Writes the row of an entity. The gear score is given in hundredths and
/// stored as a number of points.
pub const INSERT_ENTITY: &'static str = "
    INSERT INTO entity (
        name, encounter_id, npc_id, entity_type, class_id, class, gear_score,
        current_hp, max_hp, is_dead, skills, damage_stats, skill_stats
    ) VALUES (?1, ?2, ?3, ?4, ?5, ?6, CAST(?7 AS REAL) / 100.0, ?8, ?9, ?10, ?11, ?12, ?13)
    ";

/// One page of encounters, the most recent first: as many as the second
/// value says, after as many as the first says.
pub const SELECT_PREVIEWS: &'static str = "
    SELECT id, fight_start, current_boss, duration
    FROM encounter
    ORDER BY fight_start DESC
    LIMIT ?2
    OFFSET ?1
    ";

/// The encounter, the class and the damage per second of every entity of
/// the encounters of one page. The page is told as for the previews. The
/// damage per second is the member `dps` of the entity's damage, as a whole
/// number; the rows come in the order of that member as the database
/// compares it, the largest first, so that entities whose whole numbers
/// are equal keep that order.
pub const SELECT_PARTICIPANTS: &'static str = "
    SELECT encounter_id, class_id, CAST(json_extract(damage_stats, '$.dps') AS INTEGER)
    FROM entity
    WHERE encounter_id IN (
        SELECT id FROM encounter ORDER BY fight_start DESC LIMIT ?2 OFFSET ?1
    )
    ORDER BY json_extract(damage_stats, '$.dps') DESC, rowid
    ";

pub const COUNT_ENCOUNTERS: &'static str = "SELECT COUNT(*) FROM encounter";

/// The most recent encounters in full: as many as the value says.
pub const SELECT_RECENT: &'static str = "
    SELECT id, last_combat_packet, fight_start, local_player, current_boss, duration,
        total_damage_dealt, top_damage_dealt, total_damage_taken, top_damage_taken,
        dps, buffs, debuffs
    FROM encounter
    ORDER BY fight_start DESC
    LIMIT ?1
    ";

/// `rusqlite::Connection::execute_batch`: runs the statements of `sql` one
/// after the other. Nothing is known of the outcome.
#[verifier::external_body]
fn run_batch(conn: &rusqlite::Connection, sql: &str) -> (done: Result<(), rusqlite::Error>) {
    conn.execute_batch(sql)
}

/// `rusqlite::Connection::prepare`, then `rusqlite::Statement::query_map`
/// with `params` bound in order: every row that the statement gives, each
/// cell read with `rusqlite::Row::get_ref` and handed on by its kind, a
/// floating-point number as its bits. A text cell is read with
/// `rusqlite::Row::get` as a `String`, which gives an error where the text
/// is not UTF-8. Nothing is known of the outcome.
#[verifier::external_body]
fn run_query(conn: &rusqlite::Connection, sql: &str, params: &Vec<rusqlite::types::Value>) -> (rows:
    Result<Vec<Vec<SqlValue>>, rusqlite::Error>) {
    let mut statement = conn.prepare(sql)?;
    let width = statement.column_count();
    let cell = |row: &rusqlite::Row<'_>, i: usize| match row.get_ref(i)? {
        ValueRef::Null => Ok(SqlValue::Null),
        ValueRef::Integer(n) => Ok(SqlValue::Integer(n)),
        ValueRef::Real(r) => Ok(SqlValue::Real(r.to_bits())),
        ValueRef::Text(_) => row.get(i).map(SqlValue::Text),
        ValueRef::Blob(b) => Ok(SqlValue::Blob(b.to_vec())),
    };
    let bound = rusqlite::params_from_iter(params.iter());
    let found = statement.query_map(bound, |row| (0..width).map(|i| cell(row, i)).collect())?;
    found.collect()
}

/// The text of a `rusqlite::Error`, as its `Display` gives it.
#[verifier::external_body]
fn failure_text(failure: &rusqlite::Error) -> (text: String) {
    failure.to_string()
}

/// The `rusqlite::types::Value` of the same kind and content as `param`.
#[verifier::external_body]
fn to_store(param: &SqlParam) -> (value: rusqlite::types::Value) {
    match param {
        SqlParam::Null => rusqlite::types::Value::Null,
        SqlParam::Integer(i) => rusqlite::types::Value::Integer(*i),
        SqlParam::Text(t) => rusqlite::types::Value::Text(t.clone()),
    }
}

impl StoreError {
    /// The error in words: for a refusal of the database its own text.
    pub fn message(&self) -> (text: String)
        ensures
            text@ == match *self {
                StoreError::Store(own) => own@,
                StoreError::Encode => "a column could not be written as JSON"@,
                StoreError::AlreadySaved => "the encounter has been saved before"@,
                StoreError::MalformedRow => "the store gave a row of an unknown shape"@,
            },
    {
        match self {
            StoreError::Store(text) => text.clone(),
            StoreError::Encode => "a column could not be written as JSON".to_owned(),
            StoreError::AlreadySaved => "the encounter has been saved before".to_owned(),
            StoreError::MalformedRow => "the store gave a row of an unknown shape".to_owned(),
        }
    }
}

/// Runs the statements of `sql`.
fn execute_batch(conn: &rusqlite::Connection, sql: &str) -> (done: Result<(), StoreError>)
    ensures
        done matches Err(e) ==> e is Store,
{
    match run_batch(conn, sql) {
        Ok(_) => Ok(()),
        Err(failure) => Err(StoreError::Store(failure_text(&failure))),
    }
}

/// Runs one statement with `params` bound in order, and gives the rows that
/// it gives.
fn query(conn: &rusqlite::Connection, sql: &str, params: &Vec<SqlParam>) -> (rows: Result<
    Vec<Vec<SqlValue>>,
    StoreError,
>)
    ensures
        rows matches Err(e) ==> e is Store,
{
    let mut bound: Vec<rusqlite::types::Value> = Vec::new();
    let mut i: usize = 0;
    while i < params.len()
        invariant
            i <= params@.len(),
        decreases params@.len() - i,
    {
        bound.push(to_store(&params[i]));
        i += 1;
    }
    match run_query(conn, sql, &bound) {
        Ok(rows) => Ok(rows),
        Err(failure) => Err(StoreError::Store(failure_text(&failure))),
    }
}

/// Creates the tables and indexes of the store where they are missing: the
/// encounters first, then the entities. Where the database refuses, the
/// error bears its text.
pub fn setup_db(conn: &rusqlite::Connection) -> (done: Result<(), StoreError>)
    ensures
        done matches Err(e) ==> e is Store,
{
    execute_batch(conn, ENCOUNTER_SCHEMA)?;
    execute_batch(conn, ENTITY_SCHEMA)
}

/// The three JSON columns of an entity: skills, damage, hit counters.
/// Nothing where the skills cannot be written.
pub fn entity_columns(entity: &Entity) -> (columns: Option<(String, String, String)>)
    requires
        entity.wf(),
    ensures
        match columns {
            Some(c) => writable(entity@) && columns_of(entity@, c.0@, c.1@, c.2@),
            None => !writable(entity@),
        },
{
    let skills = encode_skills(&entity.skills)?;
    Some((skills, encode_damage(&entity.damage_stats), encode_stats(entity.skill_stats)))
}

/// Whether `skills`, `damage` and `stats` are the JSON columns of `e`.
pub open spec fn columns_of(e: EntityView, skills: Seq<char>, damage: Seq<char>, stats: Seq<char>) -> bool {
    &&& skills == skills_text(e.skills)
    &&& damage == damage_text(e.damage_stats)
    &&& stats == stats_text(e.skill_stats)
}

/// Whether the JSON columns of `e` can be written: its damage and its hit
/// counters always can, its skills where each has a name that can.
pub open spec fn writable(e: EntityView) -> bool {
    skills_writable(e.skills)
}

/// Whether every JSON column of the encounter and of its entities can be
/// written.
pub open spec fn all_writable(enc: EncounterView) -> bool {
    &&& effects_writable(enc.encounter_damage_stats.buffs)
    &&& effects_writable(enc.encounter_damage_stats.debuffs)
    &&& forall|i: int| 0 <= i < enc.entities.len() ==> writable((#[trigger] enc.entities[i]).1)
}

/// Ends the transaction that is open, taking back what was written in it,
/// and gives `error`.
fn abandon(conn: &rusqlite::Connection, error: StoreError) -> (out: StoreError)
    ensures
        out == error,
{
    let _ = run_batch(conn, ROLLBACK);
    error
}

/// Saves a finished encounter: its row and the rows of all its entities, in
/// one transaction, so that the store holds all of them or none. An
/// encounter is saved once: it is given its identifier here, and one that
/// has an identifier is refused. An encounter whose status effects cannot
/// be written is refused before the store is asked anything; `Encode` comes
/// for no encounter of which every column can be written. On an error the
/// store is left as it was and the encounter is unchanged.
pub fn save_encounter(conn: &rusqlite::Connection, encounter: &mut Encounter) -> (saved: Result<
    i64,
    StoreError,
>)
    requires
        old(encounter).wf(),
    ensures
        final(encounter).wf(),
        match saved {
            Ok(id) => old(encounter)@.id is None && final(encounter)@ == (EncounterView {
                id: Some(id),
                ..old(encounter)@
            }),
            Err(e) => final(encounter)@ == old(encounter)@ && (old(encounter)@.id is Some
                <==> e is AlreadySaved),
        },
        old(encounter)@.id is None && !(effects_writable(
            old(encounter)@.encounter_damage_stats.buffs,
        ) && effects_writable(old(encounter)@.encounter_damage_stats.debuffs)) ==> (saved matches Err(
            e,
        ) && e is Encode),
        (saved matches Err(e) && e is Encode) ==> old(encounter)@.id is None && !all_writable(
            old(encounter)@,
        ),
{
    if encounter.id.is_some() {
        return Err(StoreError::AlreadySaved);
    }
    let buffs = match encode_effects(&encounter.encounter_damage_stats.buffs) {
        Some(text) => text,
        None => {
            return Err(StoreError::Encode);
        },
    };
    let debuffs = match encode_effects(&encounter.encounter_damage_stats.debuffs) {
        Some(text) => text,
        None => {
            return Err(StoreError::Encode);
        },
    };
    execute_batch(conn, BEGIN)?;
    let id = match query(conn, INSERT_ENCOUNTER, &encounter_row(encounter, buffs, debuffs)) {
        Ok(rows) => match single_integer(&rows) {
            Some(id) => id,
            None => {
                return Err(abandon(conn, StoreError::MalformedRow));
            },
        },
        Err(e) => {
            return Err(abandon(conn, e));
        },
    };
    let n = encounter.entities.len();
    let mut i: usize = 0;
    while i < n
        invariant
            encounter.wf(),
            encounter.id is None,
            *encounter == *old(encounter),
            n == encounter.entities.entries().len(),
            n == encounter@.entities.len(),
            i <= n,
            effects_writable(encounter@.encounter_damage_stats.buffs),
            effects_writable(encounter@.encounter_damage_stats.debuffs),
        decreases n - i,
    {
        let entity = encounter.entities.get(i);
        let row = match entity_columns(entity) {
            Some((skills, damage, stats)) => entity_row(
                encounter.entities.name_at(i),
                entity,
                id,
                skills,
                damage,
                stats,
            ),
            None => {
                proof {
                    assert(!writable(encounter@.entities[i as int].1));
                }
                return Err(abandon(conn, StoreError::Encode));
            },
        };
        match query(conn, INSERT_ENTITY, &row) {
            Ok(_) => {},
            Err(e) => {
                return Err(abandon(conn, e));
            },
        }
        i += 1;
    }
    match execute_batch(conn, COMMIT) {
        Ok(_) => {},
        Err(e) => {
            return Err(abandon(conn, e));
        },
    }
    encounter.id = Some(id);
    Ok(id)
}

/// Page `page` of the previews of the stored encounters, with the number of
/// all stored encounters. The three questions are asked in one transaction,
/// so that they are answered from one state of the store. Whatever the
/// database answers, the page holds no more than a page may, and its
/// encounters stand the most recent first.
pub fn load_encounters_preview(conn: &rusqlite::Connection, page: i32) -> (overview: Result<
    EncountersOverview,
    StoreError,
>)
    ensures
        match overview {
            Ok(o) => o.encounters@.len() <= PAGE_SIZE && descending(o.encounters@),
            Err(e) => e is Store || e is MalformedRow,
        },
{
    let params = preview_params(page);
    execute_batch(conn, BEGIN_READ)?;
    let previews = match query(conn, SELECT_PREVIEWS, &params) {
        Ok(rows) => rows,
        Err(e) => {
            return Err(abandon(conn, e));
        },
    };
    let participants = match query(conn, SELECT_PARTICIPANTS, &params) {
        Ok(rows) => rows,
        Err(e) => {
            return Err(abandon(conn, e));
        },
    };
    let count = match query(conn, COUNT_ENCOUNTERS, &Vec::new()) {
        Ok(rows) => rows,
        Err(e) => {
            return Err(abandon(conn, e));
        },
    };
    match execute_batch(conn, COMMIT) {
        Ok(_) => {},
        Err(e) => {
            return Err(abandon(conn, e));
        },
    }
    match overview_from_rows(&previews, &participants, &count) {
        Some(overview) => Ok(overview),
        None => Err(StoreError::MalformedRow),
    }
}

/// The most recent stored encounters in full, without their entities. A
/// column of status effects that cannot be read gives no effects and no
/// error. Whatever the database answers, no more encounters are given than
/// are read in full, and they stand the most recent first.
pub fn load_encounters(conn: &rusqlite::Connection) -> (encounters: Result<
    Vec<Encounter>,
    StoreError,
>)
    ensures
        match encounters {
            Ok(found) => {
                &&& found@.len() <= RECENT_COUNT
                &&& descending(found@)
                &&& forall|i: int| 0 <= i < found@.len() ==> (#[trigger] found@[i]).wf()
            },
            Err(e) => e is Store || e is MalformedRow,
        },
{
    let rows = query(conn, SELECT_RECENT, &recent_params())?;
    match recent_from_rows(&rows) {
        Some(encounters) => Ok(encounters),
        None => Err(StoreError::MalformedRow),
    }
}

} // verus!
