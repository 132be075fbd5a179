//! The values that go into the store and come out of it, and the rows that
//! stand for an encounter and for an entity.

use vstd::prelude::*;
use crate::aggregator::{
    lemma_whole_fight_yields_one_encounter, run, whole_fight, AggregatorView,
};
use crate::event::EventView;
use crate::json::{decode_effects, effects_of_text};
use crate::metrics::dps_of;
use crate::model::{
    Encounter, EncounterDamageStats, EncounterDamageStatsView, EncounterView, Entity, EntityType,
    EntityView, StatusEffect, StatusEffectView,
};
use crate::table::{IdTable, NameTable};

verus! {

/// One value of a row that a query gives.
#[derive(Debug, PartialEq, Eq)]
pub enum SqlValue {
    Null,
    Integer(i64),
    /// A floating-point number, held as its bits.
    Real(u64),
    Text(String),
    Blob(Vec<u8>),
}

pub enum SqlValueView {
    Null,
    Integer(i64),
    Real(u64),
    Text(Seq<char>),
    Blob(Seq<u8>),
}

impl View for SqlValue {
    type V = SqlValueView;

    open spec fn view(&self) -> SqlValueView {
        match *self {
            SqlValue::Null => SqlValueView::Null,
            SqlValue::Integer(i) => SqlValueView::Integer(i),
            SqlValue::Real(bits) => SqlValueView::Real(bits),
            SqlValue::Text(t) => SqlValueView::Text(t@),
            SqlValue::Blob(b) => SqlValueView::Blob(b@),
        }
    }
}

/// One value that a statement is given.
#[derive(Debug, PartialEq, Eq)]
pub enum SqlParam {
    Null,
    Integer(i64),
    Text(String),
}

pub enum SqlParamView {
    Null,
    Integer(i64),
    Text(Seq<char>),
}

impl View for SqlParam {
    type V = SqlParamView;

    open spec fn view(&self) -> SqlParamView {
        match *self {
            SqlParam::Null => SqlParamView::Null,
            SqlParam::Integer(i) => SqlParamView::Integer(i),
            SqlParam::Text(t) => SqlParamView::Text(t@),
        }
    }
}

/// The values for a statement as plain values.
pub open spec fn params_view(params: Seq<SqlParam>) -> Seq<SqlParamView> {
    params.map_values(|p: SqlParam| p@)
}

/// A row as plain values.
pub open spec fn cells_view(cells: Seq<SqlValue>) -> Seq<SqlValueView> {
    cells.map_values(|c: SqlValue| c@)
}

/// The whole number in a cell, where it holds one.
pub open spec fn integer_in(cell: SqlValueView) -> Option<i64> {
    match cell {
        SqlValueView::Integer(i) => Some(i),
        _ => None,
    }
}

/// The text in a cell. An empty cell reads as the empty text.
pub open spec fn text_in(cell: SqlValueView) -> Option<Seq<char>> {
    match cell {
        SqlValueView::Text(t) => Some(t),
        SqlValueView::Null => Some(Seq::empty()),
        _ => None,
    }
}

/// The status effects in a cell. A cell without text, or with text that
/// is no mapping from identifiers to status effects, reads as no effect at
/// all.
pub open spec fn effects_in(cell: SqlValueView) -> Seq<(i32, StatusEffectView)> {
    match cell {
        SqlValueView::Text(t) => effects_of_text(t),
        _ => Seq::empty(),
    }
}

impl SqlValue {
    /// The whole number in the cell, where it holds one.
    pub fn integer(&self) -> (number: Option<i64>)
        ensures
            number == integer_in(self@),
    {
        match self {
            SqlValue::Integer(i) => Some(*i),
            _ => None,
        }
    }

    /// The text in the cell; an empty cell reads as the empty text.
    pub fn text(&self) -> (text: Option<String>)
        ensures
            match text {
                Some(t) => text_in(self@) == Some(t@),
                None => text_in(self@) is None,
            },
    {
        match self {
            SqlValue::Text(t) => Some(t.clone()),
            SqlValue::Null => Some(String::new()),
            _ => None,
        }
    }
}

/// The name under which a kind of entity is stored.
pub open spec fn entity_type_name(t: EntityType) -> Seq<char> {
    match t {
        EntityType::Unknown => "UNKNOWN"@,
        EntityType::Player => "PLAYER"@,
        EntityType::Npc => "NPC"@,
        EntityType::Esther => "ESTHER"@,
        EntityType::Boss => "BOSS"@,
    }
}

impl EntityType {
    /// The name under which this kind of entity is stored.
    pub fn name(&self) -> (name: String)
        ensures
            name@ == entity_type_name(*self),
    {
        match self {
            EntityType::Unknown => "UNKNOWN".to_owned(),
            EntityType::Player => "PLAYER".to_owned(),
            EntityType::Npc => "NPC".to_owned(),
            EntityType::Esther => "ESTHER".to_owned(),
            EntityType::Boss => "BOSS".to_owned(),
        }
    }
}

/// Columns of an encounter's row, in order: `last_combat_packet`,
/// `fight_start`, `local_player`, `current_boss`, `duration`,
/// `total_damage_dealt`, `top_damage_dealt`, `total_damage_taken`,
/// `top_damage_taken`, `dps`, `buffs`, `debuffs`.
pub const ENCOUNTER_COLUMNS: usize = 12;

/// The row that stands for an encounter whose status effects were written
/// as `buffs` and `debuffs`.
pub open spec fn encounter_cells(enc: EncounterView, buffs: Seq<char>, debuffs: Seq<char>) -> Seq<
    SqlParamView,
> {
    seq![
        SqlParamView::Integer(enc.last_combat_packet),
        SqlParamView::Integer(enc.fight_start),
        SqlParamView::Text(enc.local_player),
        SqlParamView::Text(enc.current_boss_name),
        SqlParamView::Integer(enc.duration),
        SqlParamView::Integer(enc.encounter_damage_stats.total_damage_dealt),
        SqlParamView::Integer(enc.encounter_damage_stats.top_damage_dealt),
        SqlParamView::Integer(enc.encounter_damage_stats.total_damage_taken),
        SqlParamView::Integer(enc.encounter_damage_stats.top_damage_taken),
        SqlParamView::Integer(enc.encounter_damage_stats.dps),
        SqlParamView::Text(buffs),
        SqlParamView::Text(debuffs),
    ]
}

/// The row that stands for an entity called `name` of the encounter
/// `encounter_id`, with its skills, damage and hit counters written as
/// `skills`, `damage` and `stats`. Columns in order: `name`, `encounter_id`,
/// `npc_id`, `entity_type`, `class_id`, `class`, `gear_score` (in
/// hundredths), `current_hp`, `max_hp`, `is_dead`, `skills`, `damage_stats`,
/// `skill_stats`.
pub open spec fn entity_cells(
    name: Seq<char>,
    e: EntityView,
    encounter_id: i64,
    skills: Seq<char>,
    damage: Seq<char>,
    stats: Seq<char>,
) -> Seq<SqlParamView> {
    seq![
        SqlParamView::Text(name),
        SqlParamView::Integer(encounter_id),
        match e.npc_id {
            Some(id) => SqlParamView::Integer(id as i64),
            None => SqlParamView::Null,
        },
        SqlParamView::Text(entity_type_name(e.entity_type)),
        SqlParamView::Integer(e.class_id as i64),
        SqlParamView::Text(e.class_name),
        SqlParamView::Integer(e.gear_score),
        SqlParamView::Integer(e.current_hp),
        SqlParamView::Integer(e.max_hp),
        SqlParamView::Integer(if e.is_dead {
            1
        } else {
            0
        }),
        SqlParamView::Text(skills),
        SqlParamView::Text(damage),
        SqlParamView::Text(stats),
    ]
}

/// The row that stands for `enc`.
pub fn encounter_row(enc: &Encounter, buffs: String, debuffs: String) -> (cells: Vec<SqlParam>)
    ensures
        params_view(cells@) == encounter_cells(enc@, buffs@, debuffs@),
{
    let mut cells: Vec<SqlParam> = Vec::new();
    cells.push(SqlParam::Integer(enc.last_combat_packet));
    cells.push(SqlParam::Integer(enc.fight_start));
    cells.push(SqlParam::Text(enc.local_player.clone()));
    cells.push(SqlParam::Text(enc.current_boss_name.clone()));
    cells.push(SqlParam::Integer(enc.duration));
    cells.push(SqlParam::Integer(enc.encounter_damage_stats.total_damage_dealt));
    cells.push(SqlParam::Integer(enc.encounter_damage_stats.top_damage_dealt));
    cells.push(SqlParam::Integer(enc.encounter_damage_stats.total_damage_taken));
    cells.push(SqlParam::Integer(enc.encounter_damage_stats.top_damage_taken));
    cells.push(SqlParam::Integer(enc.encounter_damage_stats.dps));
    cells.push(SqlParam::Text(buffs));
    cells.push(SqlParam::Text(debuffs));
    cells
}

/// The row that stands for `entity`.
pub fn entity_row(
    name: &String,
    entity: &Entity,
    encounter_id: i64,
    skills: String,
    damage: String,
    stats: String,
) -> (cells: Vec<SqlParam>)
    ensures
        params_view(cells@) == entity_cells(
            name@,
            entity@,
            encounter_id,
            skills@,
            damage@,
            stats@,
        ),
{
    let mut cells: Vec<SqlParam> = Vec::new();
    cells.push(SqlParam::Text(name.clone()));
    cells.push(SqlParam::Integer(encounter_id));
    cells.push(
        match entity.npc_id {
            Some(id) => SqlParam::Integer(id as i64),
            None => SqlParam::Null,
        },
    );
    cells.push(SqlParam::Text(entity.entity_type.name()));
    cells.push(SqlParam::Integer(entity.class_id as i64));
    cells.push(SqlParam::Text(entity.class_name.clone()));
    cells.push(SqlParam::Integer(entity.gear_score));
    cells.push(SqlParam::Integer(entity.current_hp));
    cells.push(SqlParam::Integer(entity.max_hp));
    cells.push(SqlParam::Integer(if entity.is_dead {
        1
    } else {
        0
    }));
    cells.push(SqlParam::Text(skills));
    cells.push(SqlParam::Text(damage));
    cells.push(SqlParam::Text(stats));
    proof {
        assert(params_view(cells@) =~= entity_cells(
            name@,
            entity@,
            encounter_id,
            skills@,
            damage@,
            stats@,
        ));
    }
    cells
}

/// The encounter that a stored row stands for, with the identifier in front
/// of the encounter's columns: nothing where the row has another number of
/// cells, or a cell that should hold a whole number or a text holds neither.
/// The encounter has no entities.
pub open spec fn encounter_of_cells(cells: Seq<SqlValueView>) -> Option<EncounterView> {
    if cells.len() != ENCOUNTER_COLUMNS + 1 {
        None
    } else if integer_in(cells[0]) is None || integer_in(cells[1]) is None || integer_in(cells[2]) is None
        || text_in(cells[3]) is None || text_in(cells[4]) is None || integer_in(cells[5]) is None
        || integer_in(cells[6]) is None || integer_in(cells[7]) is None || integer_in(cells[8]) is None
        || integer_in(cells[9]) is None || integer_in(cells[10]) is None {
        None
    } else {
        Some(
            EncounterView {
                id: Some(integer_in(cells[0])->0),
                last_combat_packet: integer_in(cells[1])->0,
                fight_start: integer_in(cells[2])->0,
                local_player: text_in(cells[3])->0,
                current_boss_name: text_in(cells[4])->0,
                current_boss: None,
                duration: integer_in(cells[5])->0,
                encounter_damage_stats: EncounterDamageStatsView {
                    total_damage_dealt: integer_in(cells[6])->0,
                    top_damage_dealt: integer_in(cells[7])->0,
                    total_damage_taken: integer_in(cells[8])->0,
                    top_damage_taken: integer_in(cells[9])->0,
                    dps: integer_in(cells[10])->0,
                    buffs: effects_in(cells[11]),
                    debuffs: effects_in(cells[12]),
                },
                entities: Seq::empty(),
            },
        )
    }
}

/// Reads the status effects in a cell.
pub fn effects_of_cell(cell: &SqlValue) -> (effects: IdTable<StatusEffect>)
    ensures
        effects.wf(),
        effects@ == effects_in(cell@),
{
    match cell {
        SqlValue::Text(t) => decode_effects(t.as_str()),
        _ => IdTable::new(),
    }
}

/// Reads the encounter that a stored row stands for.
pub fn encounter_from_row(cells: &Vec<SqlValue>) -> (encounter: Option<Encounter>)
    ensures
        match encounter {
            Some(enc) => enc.wf() && encounter_of_cells(cells_view(cells@)) == Some(enc@),
            None => encounter_of_cells(cells_view(cells@)) is None,
        },
{
    if cells.len() != ENCOUNTER_COLUMNS + 1 {
        return None;
    }
    let id = cells[0].integer()?;
    let last_combat_packet = cells[1].integer()?;
    let fight_start = cells[2].integer()?;
    let local_player = cells[3].text()?;
    let current_boss_name = cells[4].text()?;
    let duration = cells[5].integer()?;
    let total_damage_dealt = cells[6].integer()?;
    let top_damage_dealt = cells[7].integer()?;
    let total_damage_taken = cells[8].integer()?;
    let top_damage_taken = cells[9].integer()?;
    let dps = cells[10].integer()?;
    let buffs = effects_of_cell(&cells[11]);
    let debuffs = effects_of_cell(&cells[12]);
    let entities: NameTable<Entity> = NameTable::new();
    Some(
        Encounter {
            id: Some(id),
            last_combat_packet,
            fight_start,
            local_player,
            current_boss_name,
            current_boss: None,
            duration,
            encounter_damage_stats: EncounterDamageStats {
                total_damage_dealt,
                top_damage_dealt,
                total_damage_taken,
                top_damage_taken,
                dps,
                buffs,
                debuffs,
            },
            entities,
        },
    )
}


/// The cell that the store gives back for a value it was given.
pub open spec fn stored(param: SqlParamView) -> SqlValueView {
    match param {
        SqlParamView::Null => SqlValueView::Null,
        SqlParamView::Integer(i) => SqlValueView::Integer(i),
        SqlParamView::Text(t) => SqlValueView::Text(t),
    }
}

/// A row that was written for an encounter reads as that encounter: with the
/// identifier it was stored under, with the status effects that its two
/// JSON columns hold, and without its entities and its boss, which its row
/// does not hold.
pub proof fn lemma_encounter_row_reads_back(
    enc: EncounterView,
    id: i64,
    buffs: Seq<char>,
    debuffs: Seq<char>,
)
    ensures
        encounter_of_cells(
            seq![SqlValueView::Integer(id)] + encounter_cells(enc, buffs, debuffs).map_values(
                |p: SqlParamView| stored(p),
            ),
        ) == Some(
            EncounterView {
                id: Some(id),
                current_boss: None,
                encounter_damage_stats: EncounterDamageStatsView {
                    buffs: effects_of_text(buffs),
                    debuffs: effects_of_text(debuffs),
                    ..enc.encounter_damage_stats
                },
                entities: Seq::empty(),
                ..enc
            },
        ),
{
}


/// The encounter that one whole fight hands out, written as a row and read
/// back, has the times of the fight, the duration from its start to its
/// last hit, and the damage per second that belongs to its total and that
/// duration.
pub proof fn lemma_whole_fight_reads_back(
    events: Seq<EventView>,
    id: i64,
    buffs: Seq<char>,
    debuffs: Seq<char>,
)
    requires
        whole_fight(events),
    ensures
        ({
            let fought = run(AggregatorView::idle(), events).1[0];
            let read = encounter_of_cells(
                seq![SqlValueView::Integer(id)] + encounter_cells(fought, buffs, debuffs).map_values(
                    |p: SqlParamView| stored(p),
                ),
            );
            &&& read matches Some(enc)
            &&& enc.id == Some(id)
            &&& enc.fight_start == fought.fight_start
            &&& enc.last_combat_packet == fought.last_combat_packet
            &&& enc.duration == enc.last_combat_packet - enc.fight_start
            &&& enc.duration >= 0
            &&& enc.encounter_damage_stats.dps == dps_of(
                enc.encounter_damage_stats.total_damage_dealt,
                enc.duration,
            )
            &&& enc.duration == 0 ==> enc.encounter_damage_stats.dps == 0
        }),
{
    lemma_whole_fight_yields_one_encounter(events);
    lemma_encounter_row_reads_back(run(AggregatorView::idle(), events).1[0], id, buffs, debuffs);
}

} // verus!
