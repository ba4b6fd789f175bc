//! Facts about the encoding of records as stored rows.
use vstd::prelude::*;

use crate::models::{ItemView, Stats};
use crate::sql::{built_from, sum_counts, sum_named, insert_params, rating_of, item_of_row, update_params, ParamView, RowView};

verus! {

pub open spec fn int_col(p: ParamView) -> i64 {
    match p {
        ParamView::Int(i) => i,
        _ => 0,
    }
}

pub open spec fn opt_int_col(p: ParamView) -> Option<i64> {
    match p {
        ParamView::Int(i) => Some(i),
        _ => None,
    }
}

pub open spec fn text_col(p: ParamView) -> Seq<char> {
    match p {
        ParamView::Text(s) => s,
        _ => Seq::empty(),
    }
}

pub open spec fn opt_text_col(p: ParamView) -> Option<Seq<char>> {
    match p {
        ParamView::Text(s) => Some(s),
        _ => None,
    }
}

/// The row the insert statement stores under the identity the store assigns:
/// its eight placeholders fill the columns title to updated_at in order.
pub open spec fn row_inserted(p: Seq<ParamView>, id: i64) -> RowView {
    RowView {
        id,
        title: text_col(p[0]),
        category: int_col(p[1]),
        status: int_col(p[2]),
        rating: opt_int_col(p[3]),
        notes: opt_text_col(p[4]),
        cover_path: opt_text_col(p[5]),
        created_at: int_col(p[6]),
        updated_at: int_col(p[7]),
    }
}

/// A stored row after the update statement: its seven SET placeholders fill
/// title to cover_path and updated_at; the other columns keep their values.
pub open spec fn row_updated(row: RowView, p: Seq<ParamView>) -> RowView {
    RowView {
        title: text_col(p[0]),
        category: int_col(p[1]),
        status: int_col(p[2]),
        rating: opt_int_col(p[3]),
        notes: opt_text_col(p[4]),
        cover_path: opt_text_col(p[5]),
        updated_at: int_col(p[6]),
        ..row
    }
}

/// A rating a record can hold reads back unchanged.
proof fn lemma_rating_round_trip(r: Option<u8>)
    ensures
        rating_of(match r {
            Some(v) => Some(v as i64),
            None => None,
        }) == r,
{
    if let Some(v) = r {
        let w = v as i64;
        assert(w & 255 == w) by (bit_vector)
            requires
                0 <= w <= 255,
        ;
    }
}

/// Reading back a saved record gives the record again, now with its identity:
/// every field survives the encoding unchanged.
pub proof fn lemma_insert_then_get(item: ItemView, id: i64)
    ensures
        item_of_row(row_inserted(insert_params(item), id)) == (ItemView { id: Some(id), ..item }),
{
    lemma_rating_round_trip(item.rating);
}

/// An update rewrites exactly the mutable fields: reading the row back gives the
/// new title, category, status, rating, notes, cover and update time, while the
/// identity and creation time are those the row had before.
pub proof fn lemma_update_isolation(row: RowView, item: ItemView)
    ensures
        row_updated(row, update_params(item)).id == row.id,
        row_updated(row, update_params(item)).created_at == row.created_at,
        item_of_row(row_updated(row, update_params(item))) == (ItemView {
            id: Some(row.id),
            created_at: row.created_at,
            ..item
        }),
{
    lemma_rating_round_trip(item.rating);
}

/// How many of the codes equal `k`.
pub open spec fn count_code(codes: Seq<i64>, k: i64) -> int
    decreases codes.len(),
{
    if codes.len() == 0 {
        0
    } else {
        count_code(codes.drop_last(), k) + if codes.last() == k {
            1int
        } else {
            0int
        }
    }
}

pub open spec fn has_key(groups: Seq<(i64, i64)>, k: i64) -> bool {
    exists|i: int| 0 <= i < groups.len() && groups[i].0 == k
}

/// What a count grouped by code reports over the codes of a table: distinct
/// keys, one for every code present, each with its number of occurrences.
pub open spec fn is_grouping(codes: Seq<i64>, groups: Seq<(i64, i64)>) -> bool {
    &&& forall|i: int, j: int| 0 <= i < j < groups.len() ==> groups[i].0 != groups[j].0
    &&& forall|i: int| 0 <= i < codes.len() ==> has_key(groups, #[trigger] codes[i])
    &&& forall|i: int| 0 <= i < groups.len() ==> (#[trigger] groups[i]).1 == count_code(codes, groups[i].0)
}

/// The occurrences of every key's code, added over the keys.
spec fn key_total(groups: Seq<(i64, i64)>, codes: Seq<i64>) -> int
    decreases groups.len(),
{
    if groups.len() == 0 {
        0
    } else {
        key_total(groups.drop_last(), codes) + count_code(codes, groups.last().0)
    }
}

/// How many keys equal `x`.
spec fn hits(groups: Seq<(i64, i64)>, x: i64) -> int
    decreases groups.len(),
{
    if groups.len() == 0 {
        0
    } else {
        hits(groups.drop_last(), x) + if groups.last().0 == x {
            1int
        } else {
            0int
        }
    }
}

proof fn lemma_key_total_empty(groups: Seq<(i64, i64)>, codes: Seq<i64>)
    requires
        codes.len() == 0,
    ensures
        key_total(groups, codes) == 0,
    decreases groups.len(),
{
    if groups.len() > 0 {
        lemma_key_total_empty(groups.drop_last(), codes);
    }
}

proof fn lemma_key_total_step(groups: Seq<(i64, i64)>, codes: Seq<i64>)
    requires
        codes.len() > 0,
    ensures
        key_total(groups, codes) == key_total(groups, codes.drop_last()) + hits(groups, codes.last()),
    decreases groups.len(),
{
    if groups.len() > 0 {
        lemma_key_total_step(groups.drop_last(), codes);
    }
}

proof fn lemma_hits_absent(groups: Seq<(i64, i64)>, x: i64)
    requires
        forall|i: int| 0 <= i < groups.len() ==> groups[i].0 != x,
    ensures
        hits(groups, x) == 0,
    decreases groups.len(),
{
    if groups.len() > 0 {
        let rest = groups.drop_last();
        assert forall|i: int| 0 <= i < rest.len() implies rest[i].0 != x by {
            assert(rest[i] == groups[i]);
        }
        lemma_hits_absent(rest, x);
    }
}

proof fn lemma_hits_one(groups: Seq<(i64, i64)>, x: i64)
    requires
        forall|i: int, j: int| 0 <= i < j < groups.len() ==> groups[i].0 != groups[j].0,
        has_key(groups, x),
    ensures
        hits(groups, x) == 1,
    decreases groups.len(),
{
    let k = choose|k: int| 0 <= k < groups.len() && groups[k].0 == x;
    let last = groups.len() - 1;
    let rest = groups.drop_last();
    if k == last {
        assert forall|i: int| 0 <= i < rest.len() implies rest[i].0 != x by {
            assert(rest[i] == groups[i]);
        }
        lemma_hits_absent(rest, x);
    } else {
        assert(rest[k] == groups[k]);
        assert(has_key(rest, x));
        assert forall|i: int, j: int| 0 <= i < j < rest.len() implies rest[i].0 != rest[j].0 by {
            assert(rest[i] == groups[i] && rest[j] == groups[j]);
        }
        lemma_hits_one(rest, x);
    }
}

proof fn lemma_key_total_len(groups: Seq<(i64, i64)>, codes: Seq<i64>)
    requires
        forall|i: int, j: int| 0 <= i < j < groups.len() ==> groups[i].0 != groups[j].0,
        forall|i: int| 0 <= i < codes.len() ==> has_key(groups, #[trigger] codes[i]),
    ensures
        key_total(groups, codes) == codes.len(),
    decreases codes.len(),
{
    if codes.len() == 0 {
        lemma_key_total_empty(groups, codes);
    } else {
        let rest = codes.drop_last();
        assert forall|i: int| 0 <= i < rest.len() implies has_key(groups, #[trigger] rest[i]) by {
            assert(rest[i] == codes[i]);
        }
        lemma_key_total_len(groups, rest);
        lemma_key_total_step(groups, codes);
        assert(has_key(groups, codes[codes.len() - 1]));
        lemma_hits_one(groups, codes.last());
    }
}

proof fn lemma_sum_counts(groups: Seq<(i64, i64)>, codes: Seq<i64>)
    requires
        forall|i: int| 0 <= i < groups.len() ==> (#[trigger] groups[i]).1 == count_code(codes, groups[i].0),
    ensures
        sum_counts(groups) == key_total(groups, codes),
    decreases groups.len(),
{
    if groups.len() > 0 {
        let rest = groups.drop_last();
        assert forall|i: int| 0 <= i < rest.len() implies (#[trigger] rest[i]).1 == count_code(
            codes,
            rest[i].0,
        ) by {
            assert(rest[i] == groups[i]);
        }
        lemma_sum_counts(rest, codes);
        assert(groups[groups.len() - 1].1 == count_code(codes, groups[groups.len() - 1].0));
    }
}

proof fn lemma_sum_named(counts: Seq<(String, usize)>, groups: Seq<(i64, i64)>)
    requires
        counts.len() == groups.len(),
        forall|i: int| 0 <= i < groups.len() ==> (#[trigger] counts[i]).1 == groups[i].1,
    ensures
        sum_named(counts) == sum_counts(groups),
    decreases groups.len(),
{
    if groups.len() > 0 {
        let (c, g) = (counts.drop_last(), groups.drop_last());
        assert forall|i: int| 0 <= i < g.len() implies (#[trigger] c[i]).1 == g[i].1 by {
            assert(c[i] == counts[i] && g[i] == groups[i]);
        }
        lemma_sum_named(c, g);
        assert(counts[counts.len() - 1].1 == groups[groups.len() - 1].1);
    }
}

/// The grouped counts of a table add up to its number of rows, so a snapshot
/// built from the counts a table reports is consistent: unfinished is total
/// less finished, and the per-category counts add up to the total.
/// `codes` are the category codes of the table's rows and `groups` the
/// grouped counts of those codes.
pub proof fn lemma_stats_consistent(codes: Seq<i64>, groups: Seq<(i64, i64)>, finished: i64, st: Stats)
    requires
        codes.len() <= i64::MAX,
        is_grouping(codes, groups),
        built_from(st, codes.len() as i64, groups, finished),
    ensures
        sum_counts(groups) == codes.len(),
        st.unfinished == st.total - st.finished,
        sum_named(st.by_category@) == st.total,
{
    lemma_key_total_len(groups, codes);
    lemma_sum_counts(groups, codes);
    lemma_sum_named(st.by_category@, groups);
}

} // verus!
