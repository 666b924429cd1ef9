//! Properties of the lookups that hold for every table of the stated shape.
use vstd::prelude::*;

use crate::bracket::within;
use crate::lookup::{
    chain_repet_letter, chain_rnt, group_letter_text, last_entry_letter, last_group_letter,
    last_limit, ndl_of, table_letter,
    MAX_NO_DECO_DEPTH,
};
use crate::tables::{Group, RowNdl, TableNdl, TableRgl, TableRnt};

verus! {

/// No two rows have depth brackets that share a depth.
pub open spec fn depths_disjoint(rows: Seq<RowNdl>) -> bool {
    forall|a: int, b: int|
        0 <= a < rows.len() && 0 <= b < rows.len() && a != b ==> rows[a].max_fsw < rows[b].min_fsw
            || rows[b].max_fsw < rows[a].min_fsw
}

/// No two entries have time brackets that share a time.
pub open spec fn times_disjoint(es: Seq<Group>) -> bool {
    forall|a: int, b: int|
        0 <= a < es.len() && 0 <= b < es.len() && a != b ==> es[a].max_time < es[b].min_time
            || es[b].max_time < es[a].min_time
}

/// Entries are in order: each entry's letter is a single character, and a
/// later entry has a later time bracket and a letter no earlier in the
/// alphabet.
pub open spec fn entries_ordered(es: Seq<Group>) -> bool {
    &&& forall|a: int| 0 <= a < es.len() ==> (#[trigger] es[a]).group_letter@.len() == 1
    &&& forall|a: int, b: int|
        0 <= a < b < es.len() ==> es[a].max_time < es[b].min_time && es[a].group_letter@[0]
            <= es[b].group_letter@[0]
}

proof fn lemma_last_limit(rows: Seq<RowNdl>, n: int, i: int, depth: u16)
    requires
        0 <= i < n <= rows.len(),
        within(rows[i].min_fsw, rows[i].max_fsw, depth),
        forall|k: int| i < k < n ==> !within(rows[k].min_fsw, rows[k].max_fsw, depth),
    ensures
        last_limit(rows, n, depth) == rows[i].no_stop_limit,
    decreases n,
{
    if n - 1 > i {
        lemma_last_limit(rows, n - 1, i, depth);
    }
}

proof fn lemma_last_entry(es: Seq<Group>, n: int, j: int, time: u16, prior: Seq<char>)
    requires
        0 <= j < n <= es.len(),
        within(es[j].min_time, es[j].max_time, time),
        forall|k: int| j < k < n ==> !within(es[k].min_time, es[k].max_time, time),
    ensures
        last_entry_letter(es, n, time, prior) == es[j].group_letter@,
    decreases n,
{
    if n - 1 > j {
        lemma_last_entry(es, n - 1, j, time, prior);
    }
}

proof fn lemma_last_group(rows: Seq<RowNdl>, n: int, i: int, j: int, depth: u16, time: u16)
    requires
        0 <= i < n <= rows.len(),
        within(rows[i].min_fsw, rows[i].max_fsw, depth),
        forall|k: int| i < k < n ==> !within(rows[k].min_fsw, rows[k].max_fsw, depth),
        0 <= j < rows[i].values@.len(),
        within(rows[i].values@[j].min_time, rows[i].values@[j].max_time, time),
        times_disjoint(rows[i].values@),
    ensures
        last_group_letter(rows, n, depth, time) == rows[i].values@[j].group_letter@,
    decreases n,
{
    if n - 1 > i {
        lemma_last_group(rows, n - 1, i, j, depth, time);
    } else {
        let es = rows[i].values@;
        lemma_last_entry(es, es.len() as int, j, time, last_group_letter(rows, i, depth, time));
    }
}

/// Where the depth brackets do not overlap, a depth that row `i` holds, up
/// to the deepest covered depth, has that row's no-stop limit: the limit is
/// fixed by the row alone, whichever other rows the table has.
pub proof fn limit_of_holding_row(t: TableNdl, i: int, depth: u16)
    requires
        depths_disjoint(t.table_data@),
        0 <= i < t.table_data@.len(),
        within(t.table_data@[i].min_fsw, t.table_data@[i].max_fsw, depth),
        depth <= MAX_NO_DECO_DEPTH,
    ensures
        ndl_of(t, depth) == t.table_data@[i].no_stop_limit,
{
    let rows = t.table_data@;
    lemma_last_limit(rows, rows.len() as int, i, depth);
}

/// Where the depth brackets do not overlap, nor the time brackets of row
/// `i`, a dive that row `i` and its entry `j` hold has that entry's letter,
/// both as the table's letter and, where the letter is not empty, as the
/// reported group letter.
pub proof fn letter_of_holding_entry(t: TableNdl, i: int, j: int, depth: u16, time: u16)
    requires
        depths_disjoint(t.table_data@),
        0 <= i < t.table_data@.len(),
        within(t.table_data@[i].min_fsw, t.table_data@[i].max_fsw, depth),
        times_disjoint(t.table_data@[i].values@),
        0 <= j < t.table_data@[i].values@.len(),
        within(
            t.table_data@[i].values@[j].min_time,
            t.table_data@[i].values@[j].max_time,
            time,
        ),
    ensures
        table_letter(t, depth, time) == t.table_data@[i].values@[j].group_letter@,
        t.table_data@[i].values@[j].group_letter@.len() > 0 ==> group_letter_text(t, depth, time)
            == t.table_data@[i].values@[j].group_letter@,
{
    let rows = t.table_data@;
    lemma_last_group(rows, rows.len() as int, i, j, depth, time);
}

/// Within one depth row whose entries are in order, a longer bottom time
/// never gives an earlier group letter: where entries `j1` and `j2` of row
/// `i` hold bottom times `t1 <= t2`, the letter for `t1` is no later in the
/// alphabet than the letter for `t2`.
pub proof fn group_letter_monotonic(
    t: TableNdl,
    i: int,
    depth: u16,
    j1: int,
    t1: u16,
    j2: int,
    t2: u16,
)
    requires
        depths_disjoint(t.table_data@),
        0 <= i < t.table_data@.len(),
        within(t.table_data@[i].min_fsw, t.table_data@[i].max_fsw, depth),
        entries_ordered(t.table_data@[i].values@),
        0 <= j1 < t.table_data@[i].values@.len(),
        0 <= j2 < t.table_data@[i].values@.len(),
        within(t.table_data@[i].values@[j1].min_time, t.table_data@[i].values@[j1].max_time, t1),
        within(t.table_data@[i].values@[j2].min_time, t.table_data@[i].values@[j2].max_time, t2),
        t1 <= t2,
    ensures
        group_letter_text(t, depth, t1).len() == 1,
        group_letter_text(t, depth, t2).len() == 1,
        group_letter_text(t, depth, t1)[0] <= group_letter_text(t, depth, t2)[0],
{
    let es = t.table_data@[i].values@;
    assert(times_disjoint(es)) by {
        assert forall|a: int, b: int| 0 <= a < es.len() && 0 <= b < es.len() && a != b implies es[a].max_time
            < es[b].min_time || es[b].max_time < es[a].min_time by {
            if a < b {
                assert(es[a].max_time < es[b].min_time);
            } else {
                assert(es[b].max_time < es[a].min_time);
            }
        }
    }
    assert(es[j1].group_letter@.len() == 1);
    assert(es[j2].group_letter@.len() == 1);
    letter_of_holding_entry(t, i, j1, depth, t1);
    letter_of_holding_entry(t, i, j2, depth, t2);
    if j1 > j2 {
        assert(es[j2].max_time < es[j1].min_time);
    }
}

/// A break in the chain gives nothing: where the no-decompression table has
/// no letter for the first dive, there is no repetitive letter and the
/// residual nitrogen time is 0; where there is no repetitive letter, the
/// residual nitrogen time is 0.
pub proof fn chain_break(
    ndl: TableNdl,
    rgl: TableRgl,
    rnt: TableRnt,
    depth: u16,
    time: u16,
    interval: u16,
    next_depth: u16,
)
    ensures
        table_letter(ndl, depth, time).len() == 0 ==> chain_repet_letter(
            ndl,
            rgl,
            depth,
            time,
            interval,
        ).len() == 0 && chain_rnt(ndl, rgl, rnt, depth, time, interval, next_depth) == 0,
        chain_repet_letter(ndl, rgl, depth, time, interval).len() == 0 ==> chain_rnt(
            ndl,
            rgl,
            rnt,
            depth,
            time,
            interval,
            next_depth,
        ) == 0,
{
}

} // verus!
