//! The lines of the capture stream.
//!
//! A line is a list of fields with a bar between two fields. The first
//! field is the number of the kind of event, the second the time in
//! milliseconds, and the others are what that kind of event needs. A line
//! that is not of this form holds no event.

use vstd::prelude::*;
use vstd::string::StrSliceExecFns;
use crate::event::{
    DamageEvent, DamageEventView, EffectKind, EntityChange, EntityChangeView, EntityUpdate,
    EntityUpdateView, Event, EventView, StatusEvent, StatusEventView,
};
use crate::aggregator::{step, Aggregator};
use crate::model::{EntityType, HitFlags, StatusEffect, StatusEffectView};
use crate::text::{decimal_of, digit_char, digits_of};

verus! {

/// The character between two fields.
pub const BAR: char = '|';

/// The fields of a line: what stands before the first bar, between two
/// bars, and behind the last.
pub open spec fn fields_of(line: Seq<char>) -> Seq<Seq<char>>
    decreases line.len(),
{
    if line.len() == 0 {
        seq![Seq::empty()]
    } else {
        let before = fields_of(line.drop_last());
        if line.last() == BAR {
            before.push(Seq::empty())
        } else {
            before.update(before.len() - 1, before.last().push(line.last()))
        }
    }
}

/// Whether `c` is a decimal digit.
pub open spec fn is_digit(c: char) -> bool {
    '0' <= c <= '9'
}

/// The number that a sequence of digits stands for.
pub open spec fn digits_value(digits: Seq<char>) -> int
    decreases digits.len(),
{
    if digits.len() == 0 {
        0
    } else {
        10 * digits_value(digits.drop_last()) + (digits.last() as int - '0' as int)
    }
}

/// Whether `text` is one digit or more, and nothing else.
pub open spec fn all_digits(text: Seq<char>) -> bool {
    text.len() > 0 && forall|i: int| 0 <= i < text.len() ==> is_digit(#[trigger] text[i])
}

/// The whole number that `text` is the decimal notation of: digits, with a
/// minus sign in front for a negative number. Nothing where `text` is not
/// of that form or the number is outside the range of `i64`.
pub open spec fn number_of(text: Seq<char>) -> Option<i64> {
    if text.len() > 0 && text[0] == '-' {
        if all_digits(text.skip(1)) && -digits_value(text.skip(1)) >= i64::MIN {
            Some((-digits_value(text.skip(1))) as i64)
        } else {
            None
        }
    } else if all_digits(text) && digits_value(text) <= i64::MAX {
        Some(digits_value(text) as i64)
    } else {
        None
    }
}

/// The number that `text` is the notation of, where it is in the range of
/// `i32`.
pub open spec fn small_number_of(text: Seq<char>) -> Option<i32> {
    match number_of(text) {
        Some(n) => if i32::MIN <= n <= i32::MAX {
            Some(n as i32)
        } else {
            None
        },
        None => None,
    }
}

/// The characters of `line`.
pub fn chars_of(line: &str) -> (chars: Vec<char>)
    ensures
        chars@ == line@,
{
    let n = line.unicode_len();
    let mut chars: Vec<char> = Vec::new();
    let mut i: usize = 0;
    while i < n
        invariant
            n == line@.len(),
            i <= n,
            chars@ == line@.take(i as int),
        decreases n - i,
    {
        chars.push(line.get_char(i));
        i += 1;
    }
    chars
}

/// Whether `bounds` are where the fields of `line` begin and end.
pub open spec fn bounds_of(line: Seq<char>, bounds: Seq<(usize, usize)>) -> bool {
    &&& bounds.len() == fields_of(line).len()
    &&& forall|k: int|
        0 <= k < bounds.len() ==> {
            &&& (#[trigger] bounds[k]).0 <= bounds[k].1 <= line.len()
            &&& line.subrange(bounds[k].0 as int, bounds[k].1 as int) == fields_of(line)[k]
        }
}

/// Where the fields of `line` begin and end.
pub fn split(line: &Vec<char>) -> (bounds: Vec<(usize, usize)>)
    ensures
        bounds_of(line@, bounds@),
        bounds@.len() >= 1,
{
    let n = line.len();
    let mut done: Vec<(usize, usize)> = Vec::new();
    let mut start: usize = 0;
    let mut i: usize = 0;
    while i < n
        invariant
            n == line@.len(),
            start <= i <= n,
            fields_of(line@.take(i as int)).len() == done@.len() + 1,
            fields_of(line@.take(i as int)).last() == line@.subrange(start as int, i as int),
            forall|k: int|
                0 <= k < done@.len() ==> {
                    &&& (#[trigger] done@[k]).0 <= done@[k].1 <= i
                    &&& line@.subrange(done@[k].0 as int, done@[k].1 as int) == fields_of(
                        line@.take(i as int),
                    )[k]
                },
        decreases n - i,
    {
        proof {
            assert(line@.take(i as int + 1).drop_last() =~= line@.take(i as int));
        }
        if line[i] == BAR {
            done.push((start, i));
            start = i + 1;
        } else {
            proof {
                assert(line@.subrange(start as int, i as int + 1) =~= line@.subrange(
                    start as int,
                    i as int,
                ).push(line@[i as int]));
            }
        }
        i += 1;
    }
    proof {
        assert(line@.take(n as int) =~= line@);
    }
    done.push((start, n));
    done
}

/// Digits grow a number: a longer notation stands for no smaller number.
pub proof fn lemma_digits_grow(digits: Seq<char>, k: int)
    requires
        0 <= k <= digits.len(),
        forall|i: int| 0 <= i < digits.len() ==> is_digit(#[trigger] digits[i]),
    ensures
        0 <= digits_value(digits.take(k)) <= digits_value(digits),
    decreases digits.len() - k,
{
    lemma_digits_nonnegative(digits.take(k));
    if k < digits.len() {
        assert(digits.take(k + 1).drop_last() =~= digits.take(k));
        lemma_digits_grow(digits, k + 1);
    } else {
        assert(digits.take(k) =~= digits);
    }
}

proof fn lemma_digits_nonnegative(digits: Seq<char>)
    requires
        forall|i: int| 0 <= i < digits.len() ==> is_digit(#[trigger] digits[i]),
    ensures
        0 <= digits_value(digits),
    decreases digits.len(),
{
    if digits.len() > 0 {
        assert forall|i: int| 0 <= i < digits.drop_last().len() implies is_digit(
            #[trigger] digits.drop_last()[i],
        ) by {}
        lemma_digits_nonnegative(digits.drop_last());
    }
}

/// The whole number written in `line` from `from` to `to`.
pub fn number_at(line: &Vec<char>, from: usize, to: usize) -> (number: Option<i64>)
    requires
        from <= to <= line@.len(),
    ensures
        number == number_of(line@.subrange(from as int, to as int)),
{
    let ghost text = line@.subrange(from as int, to as int);
    let negative = from < to && line[from] == '-';
    let first: usize = if negative {
        from + 1
    } else {
        from
    };
    let ghost digits = line@.subrange(first as int, to as int);
    if first == to {
        return None;
    }
    let limit: i128 = 9223372036854775808;
    let mut value: i128 = 0;
    let mut i: usize = first;
    while i < to
        invariant
            from <= first <= i <= to,
            first < to,
            to <= line@.len(),
            text == line@.subrange(from as int, to as int),
            digits == line@.subrange(first as int, to as int),
            negative ==> text.len() > 0 && text[0] == '-' && text.skip(1) == digits,
            !negative ==> text == digits && text[0] != '-',
            forall|j: int| 0 <= j < i - first ==> is_digit(#[trigger] digits[j]),
            value == digits_value(digits.take(i - first)),
            0 <= value <= limit,
            limit == 9223372036854775808,
        decreases to - i,
    {
        let c = line[i];
        proof {
            assert(digits.take(i - first + 1).drop_last() =~= digits.take(i - first));
        }
        if !('0' <= c && c <= '9') {
            proof {
                assert(!is_digit(digits[i - first]));
            }
            return None;
        }
        value = value * 10 + (c as u32 - '0' as u32) as i128;
        i += 1;
        if value > limit {
            proof {
                if all_digits(digits) {
                    lemma_digits_grow(digits, i - first);
                }
            }
            return None;
        }
    }
    proof {
        assert(digits.take(to - first) =~= digits);
    }
    if negative {
        Some((-value) as i64)
    } else if value == limit {
        None
    } else {
        Some(value as i64)
    }
}

/// The number of `i32` written in `line` from `from` to `to`.
pub fn small_number_at(line: &Vec<char>, from: usize, to: usize) -> (number: Option<i32>)
    requires
        from <= to <= line@.len(),
    ensures
        number == small_number_of(line@.subrange(from as int, to as int)),
{
    match number_at(line, from, to) {
        Some(n) => if i32::MIN as i64 <= n && n <= i32::MAX as i64 {
            Some(n as i32)
        } else {
            None
        },
        None => None,
    }
}

/// The text of `line` from `from` to `to`.
pub fn text_at(line: &str, from: usize, to: usize) -> (text: String)
    requires
        from <= to <= line@.len(),
    ensures
        text@ == line@.subrange(from as int, to as int),
{
    line.substring_char(from, to).to_owned()
}


/// The digits that are written for a number stand for that number.
pub proof fn lemma_digits_read_back(n: nat)
    ensures
        all_digits(digits_of(n)),
        digits_value(digits_of(n)) == n,
    decreases n,
{
    let digits = digits_of(n);
    let last = (n % 10) as int;
    assert(digit_char(last) as int - '0' as int == last);
    assert(digits.last() == digit_char(last));
    if n >= 10 {
        lemma_digits_read_back(n / 10);
        assert(digits.drop_last() =~= digits_of(n / 10));
        assert forall|i: int| 0 <= i < digits.len() implies is_digit(#[trigger] digits[i]) by {
            if i < digits.len() - 1 {
                assert(digits[i] == digits_of(n / 10)[i]);
            }
        }
    } else {
        assert(digits.drop_last() =~= Seq::<char>::empty());
        assert(digits_value(digits.drop_last()) == 0);
    }
}

/// A whole number that is written in decimal notation is read as itself.
pub proof fn lemma_decimal_reads_back(n: i64)
    ensures
        number_of(decimal_of(n)) == Some(n),
{
    if n < 0 {
        lemma_digits_read_back((-n) as nat);
        assert(decimal_of(n).skip(1) =~= digits_of((-n) as nat));
    } else {
        lemma_digits_read_back(n as nat);
        assert(is_digit(digits_of(n as nat)[0]));
    }
}

/// The kinds of event, as the first field of a line numbers them.
pub const KIND_IDENTITY: i64 = 1;

pub const KIND_HEALTH: i64 = 2;

pub const KIND_GEAR_SCORE: i64 = 3;

pub const KIND_DEATH: i64 = 4;

pub const KIND_LOCAL_PLAYER: i64 = 5;

pub const KIND_DAMAGE: i64 = 6;

pub const KIND_STATUS_APPLIED: i64 = 7;

pub const KIND_STATUS_REMOVED: i64 = 8;

pub const KIND_RAID_END: i64 = 9;

/// The kind of entity that a number stands for.
pub open spec fn entity_type_of(code: i64) -> Option<EntityType> {
    if code == 0 {
        Some(EntityType::Unknown)
    } else if code == 1 {
        Some(EntityType::Player)
    } else if code == 2 {
        Some(EntityType::Npc)
    } else if code == 3 {
        Some(EntityType::Esther)
    } else if code == 4 {
        Some(EntityType::Boss)
    } else {
        None
    }
}

/// The flags of a hit that a number stands for: one for a crit, two for a
/// back attack and four for a front attack, added up.
pub open spec fn flags_of(code: i64) -> Option<HitFlags> {
    if 0 <= code <= 7 {
        Some(
            HitFlags {
                crit: code % 2 == 1,
                back_attack: (code / 2) % 2 == 1,
                front_attack: code / 4 == 1,
            },
        )
    } else {
        None
    }
}

/// The kind of status effect that a number stands for.
pub open spec fn effect_kind_of(code: i64) -> Option<EffectKind> {
    if code == 0 {
        Some(EffectKind::Buff)
    } else if code == 1 {
        Some(EffectKind::Debuff)
    } else {
        None
    }
}

/// The number in a field that may be empty.
pub open spec fn optional_small_number_of(text: Seq<char>) -> Option<Option<i32>> {
    if text.len() == 0 {
        Some(None)
    } else {
        match small_number_of(text) {
            Some(n) => Some(Some(n)),
            None => None,
        }
    }
}

/// `1|time|name|kind of entity|class|class name|npc`, the last field empty
/// for an entity that is no NPC.
pub open spec fn identity_of(f: Seq<Seq<char>>, timestamp: i64) -> Option<EventView> {
    if f.len() != 7 {
        None
    } else {
        match (number_of(f[3]), small_number_of(f[4]), optional_small_number_of(f[6])) {
            (Some(code), Some(class_id), Some(npc_id)) => match entity_type_of(code) {
                Some(entity_type) => Some(
                    EventView::EntityUpdate(
                        EntityUpdateView {
                            timestamp,
                            name: f[2],
                            change: EntityChangeView::Identity {
                                entity_type,
                                class_id,
                                class_name: f[5],
                                npc_id,
                            },
                        },
                    ),
                ),
                None => None,
            },
            _ => None,
        }
    }
}

/// `2|time|name|hit points|most hit points`.
pub open spec fn health_of(f: Seq<Seq<char>>, timestamp: i64) -> Option<EventView> {
    if f.len() != 5 {
        None
    } else {
        match (number_of(f[3]), number_of(f[4])) {
            (Some(current_hp), Some(max_hp)) => Some(
                EventView::EntityUpdate(
                    EntityUpdateView {
                        timestamp,
                        name: f[2],
                        change: EntityChangeView::Health { current_hp, max_hp },
                    },
                ),
            ),
            _ => None,
        }
    }
}

/// `3|time|name|gear score in hundredths`.
pub open spec fn gear_score_of(f: Seq<Seq<char>>, timestamp: i64) -> Option<EventView> {
    if f.len() != 4 {
        None
    } else {
        match number_of(f[3]) {
            Some(hundredths) => Some(
                EventView::EntityUpdate(
                    EntityUpdateView {
                        timestamp,
                        name: f[2],
                        change: EntityChangeView::GearScore { hundredths },
                    },
                ),
            ),
            None => None,
        }
    }
}

/// `4|time|name` for a death and `5|time|name` for the local player.
pub open spec fn marked_of(f: Seq<Seq<char>>, timestamp: i64, change: EntityChangeView) -> Option<
    EventView,
> {
    if f.len() != 3 {
        None
    } else {
        Some(EventView::EntityUpdate(EntityUpdateView { timestamp, name: f[2], change }))
    }
}

/// `6|time|source|target|skill|skill name|amount|flags`.
pub open spec fn damage_of(f: Seq<Seq<char>>, timestamp: i64) -> Option<EventView> {
    if f.len() != 8 {
        None
    } else {
        match (small_number_of(f[4]), number_of(f[6]), number_of(f[7])) {
            (Some(skill_id), Some(amount), Some(code)) => match flags_of(code) {
                Some(flags) => Some(
                    EventView::Damage(
                        DamageEventView {
                            timestamp,
                            source: f[2],
                            target: f[3],
                            skill_id,
                            skill_name: f[5],
                            amount,
                            flags,
                        },
                    ),
                ),
                None => None,
            },
            _ => None,
        }
    }
}

/// `7|time|effect|buff or debuff|name|category|source`.
pub open spec fn status_applied_of(f: Seq<Seq<char>>, timestamp: i64) -> Option<EventView> {
    if f.len() != 7 {
        None
    } else {
        match (small_number_of(f[2]), number_of(f[3])) {
            (Some(effect_id), Some(code)) => match effect_kind_of(code) {
                Some(kind) => Some(
                    EventView::StatusApplied(
                        StatusEventView {
                            timestamp,
                            effect_id,
                            kind,
                            effect: StatusEffectView { name: f[4], category: f[5], source: f[6] },
                        },
                    ),
                ),
                None => None,
            },
            _ => None,
        }
    }
}

/// `8|time|effect|buff or debuff`.
pub open spec fn status_removed_of(f: Seq<Seq<char>>, timestamp: i64) -> Option<EventView> {
    if f.len() != 4 {
        None
    } else {
        match (small_number_of(f[2]), number_of(f[3])) {
            (Some(effect_id), Some(code)) => match effect_kind_of(code) {
                Some(kind) => Some(EventView::StatusRemoved { timestamp, effect_id, kind }),
                None => None,
            },
            _ => None,
        }
    }
}

/// The event that a line of the fields `f` holds.
pub open spec fn event_of_fields(f: Seq<Seq<char>>) -> Option<EventView> {
    if f.len() < 2 {
        None
    } else {
        match (number_of(f[0]), number_of(f[1])) {
            (Some(kind), Some(timestamp)) => if kind == KIND_IDENTITY {
                identity_of(f, timestamp)
            } else if kind == KIND_HEALTH {
                health_of(f, timestamp)
            } else if kind == KIND_GEAR_SCORE {
                gear_score_of(f, timestamp)
            } else if kind == KIND_DEATH {
                marked_of(f, timestamp, EntityChangeView::Death)
            } else if kind == KIND_LOCAL_PLAYER {
                marked_of(f, timestamp, EntityChangeView::LocalPlayer)
            } else if kind == KIND_DAMAGE {
                damage_of(f, timestamp)
            } else if kind == KIND_STATUS_APPLIED {
                status_applied_of(f, timestamp)
            } else if kind == KIND_STATUS_REMOVED {
                status_removed_of(f, timestamp)
            } else if kind == KIND_RAID_END && f.len() == 2 {
                Some(EventView::RaidEnd)
            } else {
                None
            },
            _ => None,
        }
    }
}

/// The event that a line holds.
pub open spec fn event_of_line(line: Seq<char>) -> Option<EventView> {
    event_of_fields(fields_of(line))
}

/// The kind of entity that `code` stands for.
pub fn entity_type_from(code: i64) -> (entity_type: Option<EntityType>)
    ensures
        entity_type == entity_type_of(code),
{
    if code == 0 {
        Some(EntityType::Unknown)
    } else if code == 1 {
        Some(EntityType::Player)
    } else if code == 2 {
        Some(EntityType::Npc)
    } else if code == 3 {
        Some(EntityType::Esther)
    } else if code == 4 {
        Some(EntityType::Boss)
    } else {
        None
    }
}

/// The flags that `code` stands for.
pub fn flags_from(code: i64) -> (flags: Option<HitFlags>)
    ensures
        flags == flags_of(code),
{
    if 0 <= code && code <= 7 {
        Some(
            HitFlags {
                crit: code % 2 == 1,
                back_attack: (code / 2) % 2 == 1,
                front_attack: code / 4 == 1,
            },
        )
    } else {
        None
    }
}

/// The kind of status effect that `code` stands for.
pub fn effect_kind_from(code: i64) -> (kind: Option<EffectKind>)
    ensures
        kind == effect_kind_of(code),
{
    if code == 0 {
        Some(EffectKind::Buff)
    } else if code == 1 {
        Some(EffectKind::Debuff)
    } else {
        None
    }
}

/// Reads the event that a line holds.
pub fn parse_event(line: &str) -> (event: Option<Event>)
    ensures
        match event {
            Some(e) => event_of_line(line@) == Some(e@),
            None => event_of_line(line@) is None,
        },
{
    let chars = chars_of(line);
    let b = split(&chars);
    let count = b.len();
    if count < 2 {
        return None;
    }
    let kind = number_at(&chars, b[0].0, b[0].1)?;
    let timestamp = number_at(&chars, b[1].0, b[1].1)?;
    if kind == KIND_IDENTITY {
        if count != 7 {
            return None;
        }
        let code = number_at(&chars, b[3].0, b[3].1)?;
        let class_id = small_number_at(&chars, b[4].0, b[4].1)?;
        let npc_id = if b[6].0 == b[6].1 {
            None
        } else {
            Some(small_number_at(&chars, b[6].0, b[6].1)?)
        };
        let entity_type = entity_type_from(code)?;
        Some(
            Event::EntityUpdate(
                EntityUpdate {
                    timestamp,
                    name: text_at(line, b[2].0, b[2].1),
                    change: EntityChange::Identity {
                        entity_type,
                        class_id,
                        class_name: text_at(line, b[5].0, b[5].1),
                        npc_id,
                    },
                },
            ),
        )
    } else if kind == KIND_HEALTH {
        if count != 5 {
            return None;
        }
        let current_hp = number_at(&chars, b[3].0, b[3].1)?;
        let max_hp = number_at(&chars, b[4].0, b[4].1)?;
        Some(
            Event::EntityUpdate(
                EntityUpdate {
                    timestamp,
                    name: text_at(line, b[2].0, b[2].1),
                    change: EntityChange::Health { current_hp, max_hp },
                },
            ),
        )
    } else if kind == KIND_GEAR_SCORE {
        if count != 4 {
            return None;
        }
        let hundredths = number_at(&chars, b[3].0, b[3].1)?;
        Some(
            Event::EntityUpdate(
                EntityUpdate {
                    timestamp,
                    name: text_at(line, b[2].0, b[2].1),
                    change: EntityChange::GearScore { hundredths },
                },
            ),
        )
    } else if kind == KIND_DEATH {
        if count != 3 {
            return None;
        }
        Some(
            Event::EntityUpdate(
                EntityUpdate {
                    timestamp,
                    name: text_at(line, b[2].0, b[2].1),
                    change: EntityChange::Death,
                },
            ),
        )
    } else if kind == KIND_LOCAL_PLAYER {
        if count != 3 {
            return None;
        }
        Some(
            Event::EntityUpdate(
                EntityUpdate {
                    timestamp,
                    name: text_at(line, b[2].0, b[2].1),
                    change: EntityChange::LocalPlayer,
                },
            ),
        )
    } else if kind == KIND_DAMAGE {
        if count != 8 {
            return None;
        }
        let skill_id = small_number_at(&chars, b[4].0, b[4].1)?;
        let amount = number_at(&chars, b[6].0, b[6].1)?;
        let code = number_at(&chars, b[7].0, b[7].1)?;
        let flags = flags_from(code)?;
        Some(
            Event::Damage(
                DamageEvent {
                    timestamp,
                    source: text_at(line, b[2].0, b[2].1),
                    target: text_at(line, b[3].0, b[3].1),
                    skill_id,
                    skill_name: text_at(line, b[5].0, b[5].1),
                    amount,
                    flags,
                },
            ),
        )
    } else if kind == KIND_STATUS_APPLIED {
        if count != 7 {
            return None;
        }
        let effect_id = small_number_at(&chars, b[2].0, b[2].1)?;
        let code = number_at(&chars, b[3].0, b[3].1)?;
        let kind = effect_kind_from(code)?;
        Some(
            Event::StatusApplied(
                StatusEvent {
                    timestamp,
                    effect_id,
                    kind,
                    effect: StatusEffect {
                        name: text_at(line, b[4].0, b[4].1),
                        category: text_at(line, b[5].0, b[5].1),
                        source: text_at(line, b[6].0, b[6].1),
                    },
                },
            ),
        )
    } else if kind == KIND_STATUS_REMOVED {
        if count != 4 {
            return None;
        }
        let effect_id = small_number_at(&chars, b[2].0, b[2].1)?;
        let code = number_at(&chars, b[3].0, b[3].1)?;
        let kind = effect_kind_from(code)?;
        Some(Event::StatusRemoved { timestamp, effect_id, kind })
    } else if kind == KIND_RAID_END && count == 2 {
        Some(Event::RaidEnd)
    } else {
        None
    }
}

impl Aggregator {
    /// Takes one line of the capture stream. A line that holds no event is
    /// dropped and changes nothing.
    pub fn parse_line(&mut self, line: &str)
        requires
            old(self).wf(),
        ensures
            final(self).wf(),
            final(self)@ == match event_of_line(line@) {
                Some(e) => step(old(self)@, e),
                None => old(self)@,
            },
    {
        match parse_event(line) {
            Some(event) => {
                self.apply(&event);
            },
            None => {},
        }
    }
}

} // verus!
