//! What the lookups compute from the rows that the store gives: the page of
//! encounter previews, the classes of an encounter in the order of their
//! damage per second, and the most recent encounters.

use vstd::prelude::*;
use crate::model::{Encounter, EncounterView};
use crate::rank::{
    descending, distinct_numbers, leading, lemma_ranked, lemma_ranked_map, lemma_ranked_members,
    lemma_ranked_strictly, rank, ranked, top, Numbered, Ranked,
};
use crate::rows::{
    cells_view, encounter_from_row, encounter_of_cells, integer_in, params_view, text_in,
    SqlParam, SqlParamView, SqlValue, SqlValueView,
};

verus! {

/// How many encounters a page of previews holds.
pub const PAGE_SIZE: usize = 6;

/// How many encounters are read in full.
pub const RECENT_COUNT: usize = 10;

/// How many encounters come before page `page`. Pages count from one; a
/// page below one reads as the first.
pub open spec fn offset_of(page: i32) -> int {
    if page >= 1 {
        (page - 1) * PAGE_SIZE
    } else {
        0
    }
}

/// How many encounters come before page `page`.
pub fn page_offset(page: i32) -> (offset: i64)
    ensures
        offset == offset_of(page),
        offset >= 0,
{
    if page >= 1 {
        let size: i64 = PAGE_SIZE as i64;
        (page as i64 - 1) * size
    } else {
        0
    }
}

/// What the store is told when it is asked for page `page`: how many
/// encounters to pass over, and how many to give.
pub fn preview_params(page: i32) -> (params: Vec<SqlParam>)
    ensures
        params_view(params@) == seq![
            SqlParamView::Integer(offset_of(page) as i64),
            SqlParamView::Integer(PAGE_SIZE as i64),
        ],
{
    let mut params: Vec<SqlParam> = Vec::new();
    params.push(SqlParam::Integer(page_offset(page)));
    params.push(SqlParam::Integer(PAGE_SIZE as i64));
    proof {
        assert(params_view(params@) =~= seq![
            SqlParamView::Integer(offset_of(page) as i64),
            SqlParamView::Integer(PAGE_SIZE as i64),
        ]);
    }
    params
}

/// What the store is told when it is asked for the most recent encounters:
/// how many to give.
pub fn recent_params() -> (params: Vec<SqlParam>)
    ensures
        params_view(params@) == seq![SqlParamView::Integer(RECENT_COUNT as i64)],
{
    let mut params: Vec<SqlParam> = Vec::new();
    params.push(SqlParam::Integer(RECENT_COUNT as i64));
    proof {
        assert(params_view(params@) =~= seq![SqlParamView::Integer(RECENT_COUNT as i64)]);
    }
    params
}

/// One participant of a stored encounter: its class and its damage per
/// second.
#[derive(Clone, Copy, Debug, PartialEq, Eq, Structural)]
pub struct Participant {
    pub class_id: i32,
    pub dps: i64,
}

impl Numbered for Participant {
    /// Participants are ranked by their damage per second.
    open spec fn number(&self) -> i64 {
        self.dps
    }
}

impl Ranked for Participant {
    fn rank_number(&self) -> (number: i64) {
        self.dps
    }
}

/// The summary of one stored encounter.
#[derive(Debug)]
pub struct EncounterPreview {
    pub id: i64,
    pub fight_start: i64,
    pub boss_name: String,
    pub duration: i64,
    /// The classes of the participants, the one with the most damage per
    /// second first.
    pub classes: Vec<i32>,
}

pub struct EncounterPreviewView {
    pub id: i64,
    pub fight_start: i64,
    pub boss_name: Seq<char>,
    pub duration: i64,
    pub classes: Seq<i32>,
}

impl View for EncounterPreview {
    type V = EncounterPreviewView;

    open spec fn view(&self) -> EncounterPreviewView {
        EncounterPreviewView {
            id: self.id,
            fight_start: self.fight_start,
            boss_name: self.boss_name@,
            duration: self.duration,
            classes: self.classes@,
        }
    }
}

impl Numbered for EncounterPreview {
    /// Previews are ranked by the start of the fight.
    open spec fn number(&self) -> i64 {
        self.fight_start
    }
}

impl Ranked for EncounterPreview {
    fn rank_number(&self) -> (number: i64) {
        self.fight_start
    }
}

impl Numbered for EncounterPreviewView {
    open spec fn number(&self) -> i64 {
        self.fight_start
    }
}

impl Numbered for Encounter {
    /// Encounters are ranked by the start of the fight.
    open spec fn number(&self) -> i64 {
        self.fight_start
    }
}

impl Ranked for Encounter {
    fn rank_number(&self) -> (number: i64) {
        self.fight_start
    }
}

impl Numbered for EncounterView {
    open spec fn number(&self) -> i64 {
        self.fight_start
    }
}

/// One page of previews and the number of all stored encounters.
#[derive(Debug)]
pub struct EncountersOverview {
    pub encounters: Vec<EncounterPreview>,
    pub total_encounters: i64,
}

pub struct EncountersOverviewView {
    pub encounters: Seq<EncounterPreviewView>,
    pub total_encounters: i64,
}

/// The previews as plain values.
pub open spec fn previews_view(previews: Seq<EncounterPreview>) -> Seq<EncounterPreviewView> {
    previews.map_values(|p: EncounterPreview| p@)
}

/// The encounters as plain values.
pub open spec fn encounters_view(encounters: Seq<Encounter>) -> Seq<EncounterView> {
    encounters.map_values(|e: Encounter| e@)
}

impl View for EncountersOverview {
    type V = EncountersOverviewView;

    open spec fn view(&self) -> EncountersOverviewView {
        EncountersOverviewView {
            encounters: previews_view(self.encounters@),
            total_encounters: self.total_encounters,
        }
    }
}

/// The classes of `participants`, ordered by damage per second, the most
/// first.
pub open spec fn class_order(participants: Seq<Participant>) -> Seq<i32> {
    ranked(participants).map_values(|p: Participant| p.class_id)
}

/// The classes of `participants`, ordered by damage per second.
pub fn classes_by_dps(participants: Vec<Participant>) -> (classes: Vec<i32>)
    ensures
        classes@ == class_order(participants@),
{
    let order = rank(participants);
    let mut classes: Vec<i32> = Vec::new();
    let n = order.len();
    let mut i: usize = 0;
    while i < n
        invariant
            n == order@.len(),
            i <= n,
            classes@.len() == i,
            forall|j: int| 0 <= j < i ==> classes@[j] == (#[trigger] order@[j]).class_id,
        decreases n - i,
    {
        classes.push(order[i].class_id);
        i += 1;
    }
    classes
}

/// The classes of an encounter stand in the order of their participants'
/// damage per second: the list has one class for each participant, each
/// class is that of the participant of the same rank, and no participant
/// has more damage per second than one ranked before it. Where no two
/// participants have the same damage per second, each has less than the one
/// before it.
pub proof fn lemma_class_order(participants: Seq<Participant>)
    ensures
        class_order(participants).len() == participants.len(),
        ranked(participants).to_multiset() == participants.to_multiset(),
        forall|i: int|
            0 <= i < participants.len() ==> (#[trigger] class_order(participants)[i]) == ranked(
                participants,
            )[i].class_id,
        forall|i: int, j: int|
            0 <= i <= j < participants.len() ==> (#[trigger] ranked(participants)[i]).dps >= (
            #[trigger] ranked(participants)[j]).dps,
        distinct_numbers(participants) ==> forall|i: int, j: int|
            0 <= i < j < participants.len() ==> (#[trigger] ranked(participants)[i]).dps > (
            #[trigger] ranked(participants)[j]).dps,
{
    lemma_ranked(participants);
    if distinct_numbers(participants) {
        lemma_ranked_strictly(participants);
    }
}

/// The participant of the encounter `encounter_id` that a row of encounter,
/// class and damage per second stands for: none where the row has another
/// shape, belongs to another encounter, or its class is no class
/// identifier. Damage per second that is no whole number reads as zero.
pub open spec fn participant_of_cells(cells: Seq<SqlValueView>, encounter_id: i64) -> Option<
    Participant,
> {
    if cells.len() != 3 || integer_in(cells[0]) != Some(encounter_id) {
        None
    } else {
        match integer_in(cells[1]) {
            Some(class) => if i32::MIN <= class <= i32::MAX {
                Some(
                    Participant {
                        class_id: class as i32,
                        dps: match integer_in(cells[2]) {
                            Some(dps) => dps,
                            None => 0,
                        },
                    },
                )
            } else {
                None
            },
            None => None,
        }
    }
}

/// The participant of the encounter `encounter_id` that a row stands for.
pub fn participant_from_row(cells: &Vec<SqlValue>, encounter_id: i64) -> (participant: Option<
    Participant,
>)
    ensures
        participant == participant_of_cells(cells_view(cells@), encounter_id),
{
    if cells.len() != 3 {
        return None;
    }
    match cells[0].integer() {
        Some(id) => {
            if id != encounter_id {
                return None;
            }
        },
        None => {
            return None;
        },
    }
    match cells[1].integer() {
        Some(class) => {
            if class < i32::MIN as i64 || class > i32::MAX as i64 {
                return None;
            }
            let dps = match cells[2].integer() {
                Some(dps) => dps,
                None => 0,
            };
            Some(Participant { class_id: class as i32, dps })
        },
        None => None,
    }
}

/// The participants of the encounter `encounter_id` that `rows` stand for,
/// in their order; a row that stands for none is left out.
pub open spec fn participants_of(rows: Seq<Seq<SqlValueView>>, encounter_id: i64) -> Seq<
    Participant,
>
    decreases rows.len(),
{
    if rows.len() == 0 {
        Seq::empty()
    } else {
        let before = participants_of(rows.drop_last(), encounter_id);
        match participant_of_cells(rows.last(), encounter_id) {
            Some(p) => before.push(p),
            None => before,
        }
    }
}

/// The rows as plain values.
pub open spec fn rows_view(rows: Seq<Vec<SqlValue>>) -> Seq<Seq<SqlValueView>> {
    rows.map_values(|r: Vec<SqlValue>| cells_view(r@))
}

/// The participants of the encounter `encounter_id` that `rows` stand for.
pub fn participants_from_rows(rows: &Vec<Vec<SqlValue>>, encounter_id: i64) -> (participants: Vec<
    Participant,
>)
    ensures
        participants@ == participants_of(rows_view(rows@), encounter_id),
{
    let mut participants: Vec<Participant> = Vec::new();
    let n = rows.len();
    let mut i: usize = 0;
    while i < n
        invariant
            n == rows@.len(),
            i <= n,
            participants@ == participants_of(rows_view(rows@).take(i as int), encounter_id),
        decreases n - i,
    {
        proof {
            let all = rows_view(rows@);
            assert(all.take(i as int + 1).drop_last() =~= all.take(i as int));
        }
        match participant_from_row(&rows[i], encounter_id) {
            Some(p) => {
                participants.push(p);
            },
            None => {},
        }
        i += 1;
    }
    proof {
        assert(rows_view(rows@).take(n as int) =~= rows_view(rows@));
    }
    participants
}

/// The preview that a row of identifier, start, boss and duration stands
/// for, with its classes taken from the rows of the participants: none
/// where the row has another shape.
pub open spec fn preview_of_cells(
    cells: Seq<SqlValueView>,
    participants: Seq<Seq<SqlValueView>>,
) -> Option<EncounterPreviewView> {
    if cells.len() != 4 || integer_in(cells[0]) is None || integer_in(cells[1]) is None || text_in(
        cells[2],
    ) is None || integer_in(cells[3]) is None {
        None
    } else {
        Some(
            EncounterPreviewView {
                id: integer_in(cells[0])->0,
                fight_start: integer_in(cells[1])->0,
                boss_name: text_in(cells[2])->0,
                duration: integer_in(cells[3])->0,
                classes: class_order(participants_of(participants, integer_in(cells[0])->0)),
            },
        )
    }
}

/// The preview that a row stands for.
pub fn preview_from_row(cells: &Vec<SqlValue>, participants: &Vec<Vec<SqlValue>>) -> (preview:
    Option<EncounterPreview>)
    ensures
        match preview {
            Some(p) => preview_of_cells(cells_view(cells@), rows_view(participants@)) == Some(p@),
            None => preview_of_cells(cells_view(cells@), rows_view(participants@)) is None,
        },
{
    if cells.len() != 4 {
        return None;
    }
    let id = cells[0].integer()?;
    let fight_start = cells[1].integer()?;
    let boss_name = cells[2].text()?;
    let duration = cells[3].integer()?;
    let classes = classes_by_dps(participants_from_rows(participants, id));
    Some(EncounterPreview { id, fight_start, boss_name, duration, classes })
}

/// The previews that `rows` stand for, in their order: none at all where
/// one row stands for none.
pub open spec fn previews_of(
    rows: Seq<Seq<SqlValueView>>,
    participants: Seq<Seq<SqlValueView>>,
) -> Option<Seq<EncounterPreviewView>>
    decreases rows.len(),
{
    if rows.len() == 0 {
        Some(Seq::empty())
    } else {
        match (
            previews_of(rows.drop_last(), participants),
            preview_of_cells(rows.last(), participants),
        ) {
            (Some(before), Some(preview)) => Some(before.push(preview)),
            _ => None,
        }
    }
}

/// Where the first rows stand for no previews, all the rows stand for none.
pub proof fn lemma_previews_prefix(
    rows: Seq<Seq<SqlValueView>>,
    participants: Seq<Seq<SqlValueView>>,
    k: int,
)
    requires
        0 <= k <= rows.len(),
        previews_of(rows.take(k), participants) is None,
    ensures
        previews_of(rows, participants) is None,
    decreases rows.len() - k,
{
    if k < rows.len() {
        assert(rows.take(k + 1).drop_last() =~= rows.take(k));
        lemma_previews_prefix(rows, participants, k + 1);
    } else {
        assert(rows.take(k) =~= rows);
    }
}

/// The previews that `rows` stand for.
pub fn previews_from_rows(rows: &Vec<Vec<SqlValue>>, participants: &Vec<Vec<SqlValue>>) -> (previews:
    Option<Vec<EncounterPreview>>)
    ensures
        match previews {
            Some(p) => previews_of(rows_view(rows@), rows_view(participants@)) == Some(
                previews_view(p@),
            ),
            None => previews_of(rows_view(rows@), rows_view(participants@)) is None,
        },
{
    let mut previews: Vec<EncounterPreview> = Vec::new();
    let n = rows.len();
    let mut i: usize = 0;
    while i < n
        invariant
            n == rows@.len(),
            i <= n,
            previews_of(rows_view(rows@).take(i as int), rows_view(participants@)) == Some(
                previews_view(previews@),
            ),
        decreases n - i,
    {
        let ghost all = rows_view(rows@);
        let ghost before = previews_view(previews@);
        proof {
            assert(all.take(i as int + 1).drop_last() =~= all.take(i as int));
        }
        match preview_from_row(&rows[i], participants) {
            Some(preview) => {
                previews.push(preview);
                proof {
                    assert(previews_view(previews@) =~= before.push(preview@));
                }
            },
            None => {
                proof {
                    lemma_previews_prefix(all, rows_view(participants@), i as int + 1);
                }
                return None;
            },
        }
        i += 1;
    }
    proof {
        assert(rows_view(rows@).take(n as int) =~= rows_view(rows@));
    }
    Some(previews)
}

/// The number in a result of one row with one whole number, such as a
/// count or a new identifier.
pub open spec fn single_integer_of(rows: Seq<Seq<SqlValueView>>) -> Option<i64> {
    if rows.len() == 1 && rows[0].len() == 1 {
        integer_in(rows[0][0])
    } else {
        None
    }
}

/// The number in a result of one row with one whole number.
pub fn single_integer(rows: &Vec<Vec<SqlValue>>) -> (number: Option<i64>)
    ensures
        number == single_integer_of(rows_view(rows@)),
{
    if rows.len() == 1 && rows[0].len() == 1 {
        rows[0][0].integer()
    } else {
        None
    }
}

/// One page of previews, as the rows of the store give it: the previews
/// that `previews` stand for, each with its classes from `participants`,
/// the most recent first and no more than a page holds, with the number in
/// `count` as the number of all stored encounters. Nothing where a row of
/// `previews` stands for no preview or `count` holds no number.
pub open spec fn overview_of_rows(
    previews: Seq<Seq<SqlValueView>>,
    participants: Seq<Seq<SqlValueView>>,
    count: Seq<Seq<SqlValueView>>,
) -> Option<EncountersOverviewView> {
    match (previews_of(previews, participants), single_integer_of(count)) {
        (Some(found), Some(total)) => Some(
            EncountersOverviewView {
                encounters: leading(ranked(found), PAGE_SIZE as int),
                total_encounters: total,
            },
        ),
        _ => None,
    }
}

/// One page of previews, from the rows that the store gave.
pub fn overview_from_rows(
    previews: &Vec<Vec<SqlValue>>,
    participants: &Vec<Vec<SqlValue>>,
    count: &Vec<Vec<SqlValue>>,
) -> (overview: Option<EncountersOverview>)
    ensures
        match overview {
            Some(o) => {
                &&& overview_of_rows(
                    rows_view(previews@),
                    rows_view(participants@),
                    rows_view(count@),
                ) == Some(o@)
                &&& o.encounters@.len() <= PAGE_SIZE
                &&& descending(o.encounters@)
            },
            None => overview_of_rows(
                rows_view(previews@),
                rows_view(participants@),
                rows_view(count@),
            ) is None,
        },
{
    let found = previews_from_rows(previews, participants)?;
    let total = single_integer(count)?;
    let ghost all = found@;
    let encounters = top(found, PAGE_SIZE);
    proof {
        let view = |p: EncounterPreview| p@;
        lemma_ranked(all);
        lemma_ranked_map(all, view);
        assert(all.map_values(view) =~= previews_view(all));
        assert(previews_view(encounters@) =~= leading(ranked(all).map_values(view), PAGE_SIZE as int));
    }
    Some(EncountersOverview { encounters, total_encounters: total })
}

/// The encounters that `rows` stand for, in their order: none at all where
/// one row stands for none.
pub open spec fn all_encounters_of(rows: Seq<Seq<SqlValueView>>) -> Option<Seq<EncounterView>>
    decreases rows.len(),
{
    if rows.len() == 0 {
        Some(Seq::empty())
    } else {
        match (all_encounters_of(rows.drop_last()), encounter_of_cells(rows.last())) {
            (Some(before), Some(encounter)) => Some(before.push(encounter)),
            _ => None,
        }
    }
}

/// Where the first rows stand for no encounters, all the rows stand for
/// none.
pub proof fn lemma_encounters_prefix(rows: Seq<Seq<SqlValueView>>, k: int)
    requires
        0 <= k <= rows.len(),
        all_encounters_of(rows.take(k)) is None,
    ensures
        all_encounters_of(rows) is None,
    decreases rows.len() - k,
{
    if k < rows.len() {
        assert(rows.take(k + 1).drop_last() =~= rows.take(k));
        lemma_encounters_prefix(rows, k + 1);
    } else {
        assert(rows.take(k) =~= rows);
    }
}

/// The most recent encounters, as the rows of the store give them: the
/// encounters that `rows` stand for, the most recent first and no more
/// than are read in full. Nothing where a row stands for no encounter.
pub open spec fn recent_of_rows(rows: Seq<Seq<SqlValueView>>) -> Option<Seq<EncounterView>> {
    match all_encounters_of(rows) {
        Some(found) => Some(leading(ranked(found), RECENT_COUNT as int)),
        None => None,
    }
}

/// The most recent encounters, from the rows that the store gave.
pub fn recent_from_rows(rows: &Vec<Vec<SqlValue>>) -> (recent: Option<Vec<Encounter>>)
    ensures
        match recent {
            Some(found) => {
                &&& recent_of_rows(rows_view(rows@)) == Some(encounters_view(found@))
                &&& found@.len() <= RECENT_COUNT
                &&& descending(found@)
                &&& forall|i: int| 0 <= i < found@.len() ==> (#[trigger] found@[i]).wf()
            },
            None => recent_of_rows(rows_view(rows@)) is None,
        },
{
    let mut encounters: Vec<Encounter> = Vec::new();
    let n = rows.len();
    let mut i: usize = 0;
    while i < n
        invariant
            n == rows@.len(),
            i <= n,
            all_encounters_of(rows_view(rows@).take(i as int)) == Some(
                encounters_view(encounters@),
            ),
            forall|j: int| 0 <= j < encounters@.len() ==> (#[trigger] encounters@[j]).wf(),
        decreases n - i,
    {
        let ghost all = rows_view(rows@);
        let ghost before = encounters_view(encounters@);
        proof {
            assert(all.take(i as int + 1).drop_last() =~= all.take(i as int));
        }
        match encounter_from_row(&rows[i]) {
            Some(encounter) => {
                encounters.push(encounter);
                proof {
                    assert(encounters_view(encounters@) =~= before.push(encounter@));
                }
            },
            None => {
                proof {
                    lemma_encounters_prefix(all, i as int + 1);
                }
                return None;
            },
        }
        i += 1;
    }
    let ghost all = encounters@;
    let recent = top(encounters, RECENT_COUNT);
    proof {
        let view = |e: Encounter| e@;
        assert(rows_view(rows@).take(n as int) =~= rows_view(rows@));
        lemma_ranked(all);
        lemma_ranked_members(all);
        lemma_ranked_map(all, view);
        assert(all.map_values(view) =~= encounters_view(all));
        assert(encounters_view(recent@) =~= leading(ranked(all).map_values(view), RECENT_COUNT as int));
    }
    Some(recent)
}

} // verus!
