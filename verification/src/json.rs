//! The JSON columns of the store.
//!
//! Status effects and skills are written as an object with a member for
//! each identifier, an entity's damage and hit counters as an object with a
//! member for each number. The library puts the objects together itself;
//! `serde_json` writes each text as a JSON string, and reads a column of
//! status effects.

use vstd::prelude::*;
use vstd::string::StringExecFns;
use crate::aggregator::with_effect;
use crate::model::{
    DamageRecord, DamageStats, DamageStatsView, HitFlags, Skill, SkillStats, SkillView,
    StatusEffect, StatusEffectView,
};
use crate::table::IdTable;
use crate::text::{decimal, decimal_of, join, joined, texts_view};

verus! {

/// `serde_json::Error`: why a text could not be written or read.
#[verifier::external_type_specification]
#[verifier::external_body]
pub struct ExJsonError(serde_json::Error);

/// The JSON string that `serde_json::to_string` gives for a text, where it
/// gives one: the text between quotation marks, with what JSON does not
/// take as it is written as an escape.
pub uninterp spec fn json_string_of(text: Seq<char>) -> Option<Seq<char>>;

/// What `serde_json::from_str` reads from a text as a mapping from whole
/// numbers to objects whose members are all texts, where the text is JSON
/// of that shape: the numbers in rising order, each with the members of its
/// object in the order of their names.
pub uninterp spec fn json_objects_of(text: Seq<char>) -> Option<
    Seq<(i32, Seq<(Seq<char>, Seq<char>)>)>,
>;

/// The members of an object as plain values.
pub open spec fn members_view(members: Seq<(String, String)>) -> Seq<(Seq<char>, Seq<char>)> {
    members.map_values(|m: (String, String)| (m.0@, m.1@))
}

/// The objects as plain values.
pub open spec fn objects_view(objects: Seq<(i32, Vec<(String, String)>)>) -> Seq<
    (i32, Seq<(Seq<char>, Seq<char>)>),
> {
    objects.map_values(|o: (i32, Vec<(String, String)>)| (o.0, members_view(o.1@)))
}

/// `serde_json::to_string` on a text: the JSON string for it, which depends
/// on the text alone.
#[verifier::external_body]
fn string_to_json(text: &str) -> (quoted: Result<String, serde_json::Error>)
    ensures
        match quoted {
            Ok(q) => json_string_of(text@) == Some(q@),
            Err(_) => json_string_of(text@) is None,
        },
{
    serde_json::to_string(text)
}

/// `serde_json::from_str` for a mapping from whole numbers to objects of
/// texts: what the text holds, or an error where the text is not JSON of
/// that shape. The outcome depends on the text alone.
#[verifier::external_body]
fn objects_from_json(text: &str) -> (objects: Result<
    Vec<(i32, Vec<(String, String)>)>,
    serde_json::Error,
>)
    ensures
        match objects {
            Ok(o) => json_objects_of(text@) == Some(objects_view(o@)),
            Err(_) => json_objects_of(text@) is None,
        },
{
    let found: std::collections::BTreeMap<i32, std::collections::BTreeMap<String, String>> =
        serde_json::from_str(text)?;
    Ok(found.into_iter().map(|(id, members)| (id, members.into_iter().collect())).collect())
}

/// The JSON string for a text, where there is one.
pub fn quote(text: &str) -> (quoted: Option<String>)
    ensures
        match quoted {
            Some(q) => json_string_of(text@) == Some(q@),
            None => json_string_of(text@) is None,
        },
{
    match string_to_json(text) {
        Ok(q) => Some(q),
        Err(_) => None,
    }
}

/// The objects that a JSON text holds, where it holds a mapping from whole
/// numbers to objects of texts.
pub fn read_objects(text: &str) -> (objects: Option<Vec<(i32, Vec<(String, String)>)>>)
    ensures
        match objects {
            Some(o) => json_objects_of(text@) == Some(objects_view(o@)),
            None => json_objects_of(text@) is None,
        },
{
    match objects_from_json(text) {
        Ok(o) => Some(o),
        Err(_) => None,
    }
}

/// The member of an object for the identifier `id`: the identifier as a
/// JSON string, a colon, and the value.
pub open spec fn keyed(id: i32, value: Seq<char>) -> Seq<char> {
    "\""@ + decimal_of(id as i64) + "\":"@ + value
}

/// The JSON list of whole numbers.
pub open spec fn numbers_text(numbers: Seq<i64>) -> Seq<char> {
    "["@ + joined(numbers.map_values(|n: i64| decimal_of(n))) + "]"@
}

/// Whether a status effect can be written: each of its texts has a JSON
/// string.
pub open spec fn effect_writable(e: StatusEffectView) -> bool {
    json_string_of(e.name) is Some && json_string_of(e.category) is Some && json_string_of(
        e.source,
    ) is Some
}

/// A status effect as a JSON object of its name, category and source.
pub open spec fn effect_text(e: StatusEffectView) -> Seq<char> {
    "{\"name\":"@ + json_string_of(e.name)->0 + ",\"category\":"@ + json_string_of(e.category)->0
        + ",\"source\":"@ + json_string_of(e.source)->0 + "}"@
}

/// Whether every status effect of a table can be written.
pub open spec fn effects_writable(effects: Seq<(i32, StatusEffectView)>) -> bool {
    forall|i: int| 0 <= i < effects.len() ==> effect_writable((#[trigger] effects[i]).1)
}

/// A table of status effects as a JSON object with a member for each
/// identifier.
pub open spec fn effects_text(effects: Seq<(i32, StatusEffectView)>) -> Seq<char> {
    "{"@ + joined(effects.map_values(|e: (i32, StatusEffectView)| keyed(e.0, effect_text(e.1))))
        + "}"@
}

/// Whether a skill can be written: its name has a JSON string.
pub open spec fn skill_writable(s: SkillView) -> bool {
    json_string_of(s.name) is Some
}

/// A skill as a JSON object of its name, its counters and its cast log.
pub open spec fn skill_text(s: SkillView) -> Seq<char> {
    "{\"name\":"@ + json_string_of(s.name)->0 + ",\"totalDamage\":"@ + decimal_of(s.total_damage)
        + ",\"maxDamage\":"@ + decimal_of(s.max_damage) + ",\"hits\":"@ + decimal_of(s.hits)
        + ",\"crits\":"@ + decimal_of(s.crits) + ",\"castLog\":"@ + numbers_text(s.cast_log)
        + "}"@
}

/// Whether every skill of a table can be written.
pub open spec fn skills_writable(skills: Seq<(i32, SkillView)>) -> bool {
    forall|i: int| 0 <= i < skills.len() ==> skill_writable((#[trigger] skills[i]).1)
}

/// An entity's skills as a JSON object with a member for each identifier.
pub open spec fn skills_text(skills: Seq<(i32, SkillView)>) -> Seq<char> {
    "{"@ + joined(skills.map_values(|s: (i32, SkillView)| keyed(s.0, skill_text(s.1)))) + "}"@
}

/// The number that stands for the flags of a hit: one for a crit, two for a
/// back attack and four for a front attack, added up.
pub open spec fn flag_code(flags: HitFlags) -> i64 {
    ((if flags.crit {
        1int
    } else {
        0int
    }) + (if flags.back_attack {
        2int
    } else {
        0int
    }) + (if flags.front_attack {
        4int
    } else {
        0int
    })) as i64
}

/// One log entry as a JSON list of its time, its amount and the number of
/// its flags.
pub open spec fn record_text(r: DamageRecord) -> Seq<char> {
    numbers_text(seq![r.timestamp, r.amount, flag_code(r.flags)])
}

/// An entity's damage as a JSON object: the totals dealt and taken, the
/// damage per second under `dps`, and the log.
pub open spec fn damage_text(stats: DamageStatsView) -> Seq<char> {
    "{\"damageDealt\":"@ + decimal_of(stats.damage_dealt) + ",\"damageTaken\":"@ + decimal_of(
        stats.damage_taken,
    ) + ",\"dps\":"@ + decimal_of(stats.dps) + ",\"damageLog\":["@ + joined(
        stats.damage_log.map_values(|r: DamageRecord| record_text(r)),
    ) + "]}"@
}

/// An entity's hit counters as a JSON object.
pub open spec fn stats_text(stats: SkillStats) -> Seq<char> {
    "{\"hits\":"@ + decimal_of(stats.hits) + ",\"crits\":"@ + decimal_of(stats.crits)
        + ",\"backAttacks\":"@ + decimal_of(stats.back_attacks) + ",\"frontAttacks\":"@
        + decimal_of(stats.front_attacks) + "}"@
}

/// The member of an object for the identifier `id`.
pub fn keyed_json(id: i32, value: &str) -> (text: String)
    ensures
        text@ == keyed(id, value@),
{
    let mut out = String::new();
    out.append("\"");
    out.append(decimal(id as i64).as_str());
    out.append("\":");
    out.append(value);
    proof {
        assert(out@ =~= keyed(id, value@));
    }
    out
}

/// The JSON list of whole numbers.
pub fn numbers_json(numbers: &Vec<i64>) -> (text: String)
    ensures
        text@ == numbers_text(numbers@),
{
    let mut parts: Vec<String> = Vec::new();
    let n = numbers.len();
    let mut i: usize = 0;
    while i < n
        invariant
            n == numbers@.len(),
            i <= n,
            parts@.len() == i,
            forall|j: int| 0 <= j < i ==> (#[trigger] parts@[j])@ == decimal_of(numbers@[j]),
        decreases n - i,
    {
        parts.push(decimal(numbers[i]));
        i += 1;
    }
    let mut out = String::new();
    out.append("[");
    out.append(join(&parts).as_str());
    out.append("]");
    proof {
        assert(texts_view(parts@) =~= numbers@.map_values(|n: i64| decimal_of(n)));
        assert(out@ =~= numbers_text(numbers@));
    }
    out
}

/// A status effect as a JSON object, where it can be written.
pub fn effect_json(e: &StatusEffect) -> (text: Option<String>)
    ensures
        match text {
            Some(t) => effect_writable(e@) && t@ == effect_text(e@),
            None => !effect_writable(e@),
        },
{
    let name = quote(e.name.as_str())?;
    let category = quote(e.category.as_str())?;
    let source = quote(e.source.as_str())?;
    let mut out = String::new();
    out.append("{\"name\":");
    out.append(name.as_str());
    out.append(",\"category\":");
    out.append(category.as_str());
    out.append(",\"source\":");
    out.append(source.as_str());
    out.append("}");
    proof {
        assert(out@ =~= effect_text(e@));
    }
    Some(out)
}

/// Writes a JSON column of status effects, where every effect can be
/// written.
pub fn encode_effects(effects: &IdTable<StatusEffect>) -> (text: Option<String>)
    requires
        effects.wf(),
    ensures
        match text {
            Some(t) => effects_writable(effects@) && t@ == effects_text(effects@),
            None => !effects_writable(effects@),
        },
{
    let mut parts: Vec<String> = Vec::new();
    let n = effects.len();
    let mut i: usize = 0;
    proof {
        effects.lemma_view();
    }
    while i < n
        invariant
            effects.wf(),
            n == effects.entries().len(),
            n == effects@.len(),
            i <= n,
            parts@.len() == i,
            forall|j: int|
                0 <= j < i ==> effect_writable((#[trigger] effects@[j]).1) && parts@[j]@ == keyed(
                    effects@[j].0,
                    effect_text(effects@[j].1),
                ),
        decreases n - i,
    {
        match effect_json(effects.get(i)) {
            Some(value) => {
                parts.push(keyed_json(effects.id_at(i), value.as_str()));
            },
            None => {
                proof {
                    assert(!effect_writable(effects@[i as int].1));
                }
                return None;
            },
        }
        i += 1;
    }
    let mut out = String::new();
    out.append("{");
    out.append(join(&parts).as_str());
    out.append("}");
    proof {
        assert(texts_view(parts@) =~= effects@.map_values(
            |e: (i32, StatusEffectView)| keyed(e.0, effect_text(e.1)),
        ));
        assert(out@ =~= effects_text(effects@));
    }
    Some(out)
}

/// A skill as a JSON object, where it can be written.
pub fn skill_json(s: &Skill) -> (text: Option<String>)
    ensures
        match text {
            Some(t) => skill_writable(s@) && t@ == skill_text(s@),
            None => !skill_writable(s@),
        },
{
    let name = quote(s.name.as_str())?;
    let mut out = String::new();
    out.append("{\"name\":");
    out.append(name.as_str());
    out.append(",\"totalDamage\":");
    out.append(decimal(s.total_damage).as_str());
    out.append(",\"maxDamage\":");
    out.append(decimal(s.max_damage).as_str());
    out.append(",\"hits\":");
    out.append(decimal(s.hits).as_str());
    out.append(",\"crits\":");
    out.append(decimal(s.crits).as_str());
    out.append(",\"castLog\":");
    out.append(numbers_json(&s.cast_log).as_str());
    out.append("}");
    proof {
        assert(out@ =~= skill_text(s@));
    }
    Some(out)
}

/// Writes the JSON column of an entity's skills, where every skill can be
/// written.
pub fn encode_skills(skills: &IdTable<Skill>) -> (text: Option<String>)
    requires
        skills.wf(),
    ensures
        match text {
            Some(t) => skills_writable(skills@) && t@ == skills_text(skills@),
            None => !skills_writable(skills@),
        },
{
    let mut parts: Vec<String> = Vec::new();
    let n = skills.len();
    let mut i: usize = 0;
    proof {
        skills.lemma_view();
    }
    while i < n
        invariant
            skills.wf(),
            n == skills.entries().len(),
            n == skills@.len(),
            i <= n,
            parts@.len() == i,
            forall|j: int|
                0 <= j < i ==> skill_writable((#[trigger] skills@[j]).1) && parts@[j]@ == keyed(
                    skills@[j].0,
                    skill_text(skills@[j].1),
                ),
        decreases n - i,
    {
        match skill_json(skills.get(i)) {
            Some(value) => {
                parts.push(keyed_json(skills.id_at(i), value.as_str()));
            },
            None => {
                proof {
                    assert(!skill_writable(skills@[i as int].1));
                }
                return None;
            },
        }
        i += 1;
    }
    let mut out = String::new();
    out.append("{");
    out.append(join(&parts).as_str());
    out.append("}");
    proof {
        assert(texts_view(parts@) =~= skills@.map_values(
            |s: (i32, SkillView)| keyed(s.0, skill_text(s.1)),
        ));
        assert(out@ =~= skills_text(skills@));
    }
    Some(out)
}

impl HitFlags {
    /// The number that stands for the flags.
    pub fn code(&self) -> (code: i64)
        ensures
            code == flag_code(*self),
    {
        let mut code: i64 = 0;
        if self.crit {
            code = code + 1;
        }
        if self.back_attack {
            code = code + 2;
        }
        if self.front_attack {
            code = code + 4;
        }
        code
    }
}

/// Writes the JSON column of an entity's damage.
pub fn encode_damage(stats: &DamageStats) -> (text: String)
    ensures
        text@ == damage_text(stats@),
{
    let mut parts: Vec<String> = Vec::new();
    let n = stats.damage_log.len();
    let mut i: usize = 0;
    while i < n
        invariant
            n == stats.damage_log@.len(),
            i <= n,
            parts@.len() == i,
            forall|j: int| 0 <= j < i ==> (#[trigger] parts@[j])@ == record_text(stats.damage_log@[j]),
        decreases n - i,
    {
        let record = stats.damage_log[i];
        let mut numbers: Vec<i64> = Vec::new();
        numbers.push(record.timestamp);
        numbers.push(record.amount);
        numbers.push(record.flags.code());
        proof {
            assert(numbers@ =~= seq![record.timestamp, record.amount, flag_code(record.flags)]);
        }
        parts.push(numbers_json(&numbers));
        i += 1;
    }
    let mut out = String::new();
    out.append("{\"damageDealt\":");
    out.append(decimal(stats.damage_dealt).as_str());
    out.append(",\"damageTaken\":");
    out.append(decimal(stats.damage_taken).as_str());
    out.append(",\"dps\":");
    out.append(decimal(stats.dps).as_str());
    out.append(",\"damageLog\":[");
    out.append(join(&parts).as_str());
    out.append("]}");
    proof {
        assert(texts_view(parts@) =~= stats.damage_log@.map_values(
            |r: DamageRecord| record_text(r),
        ));
        assert(out@ =~= damage_text(stats@));
    }
    out
}

/// Writes the JSON column of an entity's hit counters.
pub fn encode_stats(stats: SkillStats) -> (text: String)
    ensures
        text@ == stats_text(stats),
{
    let mut out = String::new();
    out.append("{\"hits\":");
    out.append(decimal(stats.hits).as_str());
    out.append(",\"crits\":");
    out.append(decimal(stats.crits).as_str());
    out.append(",\"backAttacks\":");
    out.append(decimal(stats.back_attacks).as_str());
    out.append(",\"frontAttacks\":");
    out.append(decimal(stats.front_attacks).as_str());
    out.append("}");
    proof {
        assert(out@ =~= stats_text(stats));
    }
    out
}

/// The text of the member called `name`, where the object has one.
pub open spec fn member_of(members: Seq<(Seq<char>, Seq<char>)>, name: Seq<char>) -> Option<
    Seq<char>,
>
    decreases members.len(),
{
    if members.len() == 0 {
        None
    } else if members.first().0 == name {
        Some(members.first().1)
    } else {
        member_of(members.drop_first(), name)
    }
}

/// The status effect that an object stands for: its members `name`,
/// `category` and `source`. Nothing where one of them is missing; other
/// members do not count.
pub open spec fn effect_of_members(members: Seq<(Seq<char>, Seq<char>)>) -> Option<
    StatusEffectView,
> {
    match (
        member_of(members, "name"@),
        member_of(members, "category"@),
        member_of(members, "source"@),
    ) {
        (Some(name), Some(category), Some(source)) => Some(
            StatusEffectView { name, category, source },
        ),
        _ => None,
    }
}

/// The status effects that a mapping of objects holds, or nothing where one
/// object stands for no status effect. Of two objects under one identifier
/// the first counts.
pub open spec fn effects_of_objects(objects: Seq<(i32, Seq<(Seq<char>, Seq<char>)>)>) -> Option<
    Seq<(i32, StatusEffectView)>,
>
    decreases objects.len(),
{
    if objects.len() == 0 {
        Some(Seq::empty())
    } else {
        match (effects_of_objects(objects.drop_last()), effect_of_members(objects.last().1)) {
            (Some(before), Some(effect)) => Some(with_effect(before, objects.last().0, effect)),
            _ => None,
        }
    }
}

/// What a JSON column of status effects is read as: the effects that it
/// holds, and no effect at all where the text is no mapping from
/// identifiers to status effects.
pub open spec fn effects_of_text(text: Seq<char>) -> Seq<(i32, StatusEffectView)> {
    match json_objects_of(text) {
        Some(objects) => match effects_of_objects(objects) {
            Some(effects) => effects,
            None => Seq::empty(),
        },
        None => Seq::empty(),
    }
}

/// The text of the member called `name`.
pub fn member(members: &Vec<(String, String)>, name: &str) -> (text: Option<String>)
    ensures
        match text {
            Some(t) => member_of(members_view(members@), name@) == Some(t@),
            None => member_of(members_view(members@), name@) is None,
        },
{
    let wanted = name.to_owned();
    let n = members.len();
    let mut i: usize = 0;
    proof {
        assert(members_view(members@).skip(0) =~= members_view(members@));
    }
    while i < n
        invariant
            n == members@.len(),
            i <= n,
            wanted@ == name@,
            member_of(members_view(members@), name@) == member_of(
                members_view(members@).skip(i as int),
                name@,
            ),
        decreases n - i,
    {
        proof {
            let all = members_view(members@);
            assert(all.skip(i as int).drop_first() =~= all.skip(i as int + 1));
            assert(all.skip(i as int).first() == (members@[i as int].0@, members@[i as int].1@));
        }
        if members[i].0 == wanted {
            return Some(members[i].1.clone());
        }
        i += 1;
    }
    None
}

/// The status effect that an object stands for.
pub fn effect_from_members(members: &Vec<(String, String)>) -> (effect: Option<StatusEffect>)
    ensures
        match effect {
            Some(e) => effect_of_members(members_view(members@)) == Some(e@),
            None => effect_of_members(members_view(members@)) is None,
        },
{
    let name = member(members, "name")?;
    let category = member(members, "category")?;
    let source = member(members, "source")?;
    Some(StatusEffect { name, category, source })
}

/// Where the first objects hold no status effects, the mapping holds none.
pub proof fn lemma_effects_prefix(objects: Seq<(i32, Seq<(Seq<char>, Seq<char>)>)>, k: int)
    requires
        0 <= k <= objects.len(),
        effects_of_objects(objects.take(k)) is None,
    ensures
        effects_of_objects(objects) is None,
    decreases objects.len() - k,
{
    if k < objects.len() {
        assert(objects.take(k + 1).drop_last() =~= objects.take(k));
        lemma_effects_prefix(objects, k + 1);
    } else {
        assert(objects.take(k) =~= objects);
    }
}

/// The status effects that a mapping of objects holds.
pub fn effects_from_objects(objects: &Vec<(i32, Vec<(String, String)>)>) -> (effects: Option<
    IdTable<StatusEffect>,
>)
    ensures
        match effects {
            Some(table) => table.wf() && effects_of_objects(objects_view(objects@)) == Some(table@),
            None => effects_of_objects(objects_view(objects@)) is None,
        },
{
    let mut table: IdTable<StatusEffect> = IdTable::new();
    let n = objects.len();
    let mut i: usize = 0;
    proof {
        assert(objects_view(objects@).take(0) =~= Seq::empty());
    }
    while i < n
        invariant
            n == objects@.len(),
            i <= n,
            table.wf(),
            effects_of_objects(objects_view(objects@).take(i as int)) == Some(table@),
        decreases n - i,
    {
        let ghost all = objects_view(objects@);
        proof {
            assert(all.take(i as int + 1).drop_last() =~= all.take(i as int));
            assert(all.take(i as int + 1).last() == (objects@[i as int].0, members_view(objects@[i as int].1@)));
        }
        match effect_from_members(&objects[i].1) {
            Some(effect) => {
                table.insert(objects[i].0, effect);
            },
            None => {
                proof {
                    lemma_effects_prefix(all, i as int + 1);
                }
                return None;
            },
        }
        i += 1;
    }
    proof {
        assert(objects_view(objects@).take(n as int) =~= objects_view(objects@));
    }
    Some(table)
}

/// Reads a JSON column of status effects. A text that is no mapping from
/// identifiers to status effects reads as no effect at all.
pub fn decode_effects(text: &str) -> (effects: IdTable<StatusEffect>)
    ensures
        effects.wf(),
        effects@ == effects_of_text(text@),
{
    match read_objects(text) {
        Some(objects) => match effects_from_objects(&objects) {
            Some(table) => table,
            None => IdTable::new(),
        },
        None => IdTable::new(),
    }
}

} // verus!
