//! Ranking: ordering records by a number, largest first.
//!
//! The order is stable: of two records with the same number, the one that
//! came first stays first.

use vstd::prelude::*;

verus! {

/// A record that bears a number by which it can be ranked.
pub trait Numbered {
    /// The number by which the record is ranked.
    spec fn number(&self) -> i64;
}

/// A record whose number can be read.
pub trait Ranked: Numbered {
    fn rank_number(&self) -> (number: i64)
        ensures
            number == self.number(),
    ;
}

/// Whether `rows` are in ranking order: no row has a larger number than a
/// row before it.
pub open spec fn descending<T: Numbered>(rows: Seq<T>) -> bool {
    forall|i: int, j: int| 0 <= i <= j < rows.len() ==> (#[trigger] rows[i]).number() >= (#[trigger] rows[j]).number()
}

/// Whether `rows` are in strict ranking order: every row has a smaller
/// number than the row before it.
pub open spec fn strictly_descending<T: Numbered>(rows: Seq<T>) -> bool {
    forall|i: int, j: int| 0 <= i < j < rows.len() ==> (#[trigger] rows[i]).number() > (#[trigger] rows[j]).number()
}

/// No two rows bear the same number.
pub open spec fn distinct_numbers<T: Numbered>(rows: Seq<T>) -> bool {
    forall|i: int, j: int| 0 <= i < j < rows.len() ==> (#[trigger] rows[i]).number() != (#[trigger] rows[j]).number()
}

/// Whether `p` is where a record numbered `number` goes in `ranked`: behind every row with a larger number and before all others.
pub open spec fn is_place<T: Numbered>(ranked: Seq<T>, number: i64, p: int) -> bool {
    &&& 0 <= p <= ranked.len()
    &&& forall|j: int| 0 <= j < p ==> (#[trigger] ranked[j]).number() > number
    &&& p < ranked.len() ==> ranked[p].number() <= number
}

/// Where a record numbered `number` goes in `ranked`.
pub open spec fn place_of<T: Numbered>(ranked: Seq<T>, number: i64) -> int {
    choose|p: int| is_place(ranked, number, p)
}

/// The ranking of `rows`: the last rows ranked, and each row before them
/// put in front of the rows that do not outrank it.
pub open spec fn ranked<T: Numbered>(rows: Seq<T>) -> Seq<T>
    decreases rows.len(),
{
    if rows.len() == 0 {
        Seq::empty()
    } else {
        let rest = ranked(rows.drop_first());
        rest.insert(place_of(rest, rows.first().number()), rows.first())
    }
}

/// There is exactly one place for a number.
pub proof fn lemma_place_of<T: Numbered>(ranked: Seq<T>, number: i64)
    ensures
        is_place(ranked, number, place_of(ranked, number)),
        forall|p: int| is_place(ranked, number, p) ==> p == place_of(ranked, number),
{
    lemma_place_exists(ranked, number, 0);
    let q = place_of(ranked, number);
    assert forall|p: int| is_place(ranked, number, p) implies p == q by {}
}

proof fn lemma_place_exists<T: Numbered>(ranked: Seq<T>, number: i64, from: int)
    requires
        0 <= from <= ranked.len(),
        forall|j: int| 0 <= j < from ==> (#[trigger] ranked[j]).number() > number,
    ensures
        exists|p: int| is_place(ranked, number, p),
    decreases ranked.len() - from,
{
    if from < ranked.len() && ranked[from].number() > number {
        lemma_place_exists(ranked, number, from + 1);
    } else {
        assert(is_place(ranked, number, from));
    }
}

/// A ranking has the rows it was made from, each as often as they hold it,
/// and is in ranking order.
pub proof fn lemma_ranked<T: Numbered>(rows: Seq<T>)
    ensures
        ranked(rows).len() == rows.len(),
        ranked(rows).to_multiset() == rows.to_multiset(),
        descending(ranked(rows)),
    decreases rows.len(),
{
    if rows.len() == 0 {
        assert(rows =~= Seq::empty());
    } else {
        let first = rows.first();
        let rest = ranked(rows.drop_first());
        lemma_ranked(rows.drop_first());
        lemma_place_of(rest, first.number());
        let p = place_of(rest, first.number());
        let out = rest.insert(p, first);
        assert forall|i: int, j: int| 0 <= i <= j < out.len() implies (#[trigger] out[i]).number() >= (
        #[trigger] out[j]).number() by {}
        vstd::seq_lib::to_multiset_insert(rest, p, first);
        assert(rows =~= rows.drop_first().insert(0, first));
        vstd::seq_lib::to_multiset_insert(rows.drop_first(), 0, first);
    }
}

/// Every row of a ranking is a row of what was ranked.
pub proof fn lemma_ranked_members<T: Numbered>(rows: Seq<T>)
    ensures
        forall|i: int|
            0 <= i < ranked(rows).len() ==> exists|k: int|
                0 <= k < rows.len() && #[trigger] ranked(rows)[i] == #[trigger] rows[k],
    decreases rows.len(),
{
    if rows.len() > 0 {
        let first = rows.first();
        let tail = rows.drop_first();
        let rest = ranked(tail);
        lemma_ranked_members(tail);
        lemma_place_of(rest, first.number());
        let p = place_of(rest, first.number());
        let out = ranked(rows);
        assert forall|i: int| 0 <= i < out.len() implies exists|k: int|
            0 <= k < rows.len() && #[trigger] out[i] == #[trigger] rows[k] by {
            if i != p {
                let at = if i < p {
                    i
                } else {
                    i - 1
                };
                let k = choose|k: int| 0 <= k < tail.len() && #[trigger] rest[at] == #[trigger] tail[k];
                assert(out[i] == rows[k + 1]);
            }
        }
    }
}

/// Where no two rows bear the same number, each row of the ranking has a
/// smaller number than the row before it.
pub proof fn lemma_ranked_strictly<T: Numbered>(rows: Seq<T>)
    requires
        distinct_numbers(rows),
    ensures
        strictly_descending(ranked(rows)),
    decreases rows.len(),
{
    if rows.len() > 0 {
        let first = rows.first();
        let tail = rows.drop_first();
        let rest = ranked(tail);
        assert forall|a: int, b: int| 0 <= a < b < tail.len() implies (#[trigger] tail[a]).number() != (
        #[trigger] tail[b]).number() by {}
        lemma_ranked_strictly(tail);
        lemma_ranked_members(tail);
        lemma_place_of(rest, first.number());
        let p = place_of(rest, first.number());
        let out = ranked(rows);
        assert forall|i: int, j: int| 0 <= i < j < out.len() implies (#[trigger] out[i]).number() > (
        #[trigger] out[j]).number() by {
            if i == p {
                // The row put in place meets a row of the rest, which bears another number.
                let k = choose|k: int|
                    0 <= k < tail.len() && #[trigger] rest[j - 1] == #[trigger] tail[k];
                assert(first.number() != tail[k].number());
            }
        }
    }
}

/// Ranks `rows`.
pub fn rank<T: Ranked>(rows: Vec<T>) -> (out: Vec<T>)
    ensures
        out@ == ranked(rows@),
{
    let ghost all = rows@;
    let mut rows = rows;
    let mut out: Vec<T> = Vec::new();
    proof {
        assert(all.skip(all.len() as int) =~= Seq::empty());
    }
    while rows.len() > 0
        invariant
            rows@ == all.take(rows@.len() as int),
            rows@.len() <= all.len(),
            out@ == ranked(all.skip(rows@.len() as int)),
        decreases rows@.len(),
    {
        let ghost m = rows@.len() as int;
        let row = rows.pop().unwrap();
        proof {
            assert(all.skip(m - 1).drop_first() =~= all.skip(m));
        }
        let number = row.rank_number();
        let mut p: usize = 0;
        while p < out.len() && out[p].rank_number() > number
            invariant
                0 <= p <= out@.len(),
                forall|j: int| 0 <= j < p ==> (#[trigger] out@[j]).number() > number,
            decreases out@.len() - p,
        {
            p += 1;
        }
        proof {
            lemma_place_of(out@, number);
        }
        out.insert(p, row);
    }
    proof {
        assert(all.skip(0) =~= all);
    }
    out
}

/// The first `limit` rows of `rows`, or all of them where they are fewer.
pub open spec fn leading<T>(rows: Seq<T>, limit: int) -> Seq<T> {
    if limit < rows.len() {
        rows.take(limit)
    } else {
        rows
    }
}

/// Ranks `rows` and keeps the first `limit` of the ranking.
pub fn top<T: Ranked>(rows: Vec<T>, limit: usize) -> (out: Vec<T>)
    ensures
        out@ == leading(ranked(rows@), limit as int),
        out@.len() <= limit,
{
    let mut out = rank(rows);
    out.truncate(limit);
    out
}

/// Ranking goes by the numbers alone: where `f` keeps the number of every
/// row, it makes no difference whether the rows are ranked before `f` is
/// applied to each or after.
pub proof fn lemma_ranked_map<A: Numbered, B: Numbered>(rows: Seq<A>, f: spec_fn(A) -> B)
    requires
        forall|a: A| (#[trigger] f(a)).number() == a.number(),
    ensures
        ranked(rows.map_values(f)) == ranked(rows).map_values(f),
    decreases rows.len(),
{
    if rows.len() == 0 {
        assert(ranked(rows.map_values(f)) =~= ranked(rows).map_values(f));
    } else {
        let first = rows.first();
        let tail = rows.drop_first();
        let rest = ranked(tail);
        lemma_ranked_map(tail, f);
        assert(rows.map_values(f).drop_first() =~= tail.map_values(f));
        lemma_place_of(rest, first.number());
        let p = place_of(rest, first.number());
        assert(is_place(rest.map_values(f), first.number(), p));
        lemma_place_of(rest.map_values(f), first.number());
        assert(rest.map_values(f).insert(p, f(first)) =~= rest.insert(p, first).map_values(f));
    }
}

} // verus!
