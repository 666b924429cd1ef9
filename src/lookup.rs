//! Table scans. Each scan walks its table from top to bottom and keeps
//! the last row that matches, so that when rows overlap the later one
//! decides; with non-overlapping rows this is the one matching row.
use vstd::prelude::*;

use crate::bracket::{in_bracket, within};
use crate::tables::{
    DecoDepth, DecoStops, Group, RowDeco, RowNdl, RowRgl, RowRnt, Rnt, TableAirDeco, TableNdl, TableRgl,
    TableRnt,
};

verus! {

/// Deepest depth the no-decompression table covers.
pub const MAX_NO_DECO_DEPTH: u16 = 190;

/// Among the first `n` rows, the no-stop limit of the last row whose depth
/// bracket holds `depth`; 0 where none does.
pub open spec fn last_limit(rows: Seq<RowNdl>, n: int, depth: u16) -> u16
    decreases n,
{
    if n <= 0 {
        0
    } else if within(rows[n - 1].min_fsw, rows[n - 1].max_fsw, depth) {
        rows[n - 1].no_stop_limit
    } else {
        last_limit(rows, n - 1, depth)
    }
}

/// The no-decompression limit at `depth`: 0 beyond the deepest covered
/// depth, else the limit of the last row whose bracket holds `depth`
/// (0 where none does).
pub open spec fn ndl_of(t: TableNdl, depth: u16) -> u16 {
    if depth > MAX_NO_DECO_DEPTH {
        0
    } else {
        last_limit(t.table_data@, t.table_data@.len() as int, depth)
    }
}

/// Among the first `n` entries, the letter of the last entry whose time
/// bracket holds `time`; `prior` where none does.
pub open spec fn last_entry_letter(es: Seq<Group>, n: int, time: u16, prior: Seq<char>) -> Seq<
    char,
>
    decreases n,
{
    if n <= 0 {
        prior
    } else if within(es[n - 1].min_time, es[n - 1].max_time, time) {
        es[n - 1].group_letter@
    } else {
        last_entry_letter(es, n - 1, time, prior)
    }
}

/// Among the entries of the first `n` rows, taken in table order, the
/// letter of the last entry whose row holds `depth` and whose bracket
/// holds `time`; empty where none does.
pub open spec fn last_group_letter(rows: Seq<RowNdl>, n: int, depth: u16, time: u16) -> Seq<char>
    decreases n,
{
    if n <= 0 {
        Seq::empty()
    } else {
        let prior = last_group_letter(rows, n - 1, depth, time);
        let row = rows[n - 1];
        if within(row.min_fsw, row.max_fsw, depth) {
            last_entry_letter(row.values@, row.values@.len() as int, time, prior)
        } else {
            prior
        }
    }
}

/// The group letter that the table itself gives for a dive; empty where
/// no entry matches.
pub open spec fn table_letter(t: TableNdl, depth: u16, time: u16) -> Seq<char> {
    last_group_letter(t.table_data@, t.table_data@.len() as int, depth, time)
}

/// Reported by `group_letter` for a dive within the covered depths that no
/// entry or override gives a letter for.
pub const TIME_RANGE_MESSAGE: &'static str = "this dive is out of the time range for no-decompression air dives";

/// Reported by `group_letter` for a dive deeper than the covered depths
/// that no entry gives a letter for.
pub const DEPTH_RANGE_MESSAGE: &'static str = "this dive is out of the depth range for no-decompression air dives";

/// The letter that the overrides for long shallow dives give where the
/// table has no entry, empty where none applies: `F` up to 10 fsw beyond
/// 462 min, `I` up to 15 fsw beyond 449 min, `L` up to 20 fsw beyond
/// 461 min.
pub open spec fn override_letter(depth: u16, time: u16) -> Seq<char> {
    if 0 < depth && depth <= 10 && time > 462 {
        "F"@
    } else if 10 < depth && depth <= 15 && time > 449 {
        "I"@
    } else if 15 < depth && depth <= 20 && time > 461 {
        "L"@
    } else {
        Seq::empty()
    }
}

/// What `group_letter` reports: the table's letter; else the override
/// letter; else the message for a dive out of the time range (within the
/// covered depths) or out of the depth range (beyond them).
pub open spec fn group_letter_text(t: TableNdl, depth: u16, time: u16) -> Seq<char> {
    let found = table_letter(t, depth, time);
    let fallback = override_letter(depth, time);
    if found.len() > 0 {
        found
    } else if fallback.len() > 0 {
        fallback
    } else if depth <= MAX_NO_DECO_DEPTH {
        TIME_RANGE_MESSAGE@
    } else {
        DEPTH_RANGE_MESSAGE@
    }
}

/// The no-decompression limit at `depth`.
pub fn scan_limit(table: &TableNdl, depth: u16) -> (r: u16)
    ensures
        r == ndl_of(*table, depth),
{
    if depth > MAX_NO_DECO_DEPTH {
        return 0;
    }
    let rows = &table.table_data;
    let mut ndl: u16 = 0;
    let mut i: usize = 0;
    while i < rows.len()
        invariant
            i <= rows@.len(),
            ndl == last_limit(rows@, i as int, depth),
        decreases rows@.len() - i,
    {
        let row = &rows[i];
        if in_bracket(row.min_fsw, row.max_fsw, depth) {
            ndl = row.no_stop_limit;
        }
        i += 1;
    }
    ndl
}

/// The group letter that the table gives for a dive, empty where no entry
/// matches.
pub fn scan_letter(table: &TableNdl, depth: u16, time: u16) -> (r: String)
    ensures
        r@ == table_letter(*table, depth, time),
{
    let rows = &table.table_data;
    let mut gl = String::new();
    let mut i: usize = 0;
    while i < rows.len()
        invariant
            i <= rows@.len(),
            gl@ == last_group_letter(rows@, i as int, depth, time),
        decreases rows@.len() - i,
    {
        let row = &rows[i];
        if in_bracket(row.min_fsw, row.max_fsw, depth) {
            let ghost prior = gl@;
            let es = &row.values;
            let mut j: usize = 0;
            while j < es.len()
                invariant
                    j <= es@.len(),
                    gl@ == last_entry_letter(es@, j as int, time, prior),
                decreases es@.len() - j,
            {
                let e = &es[j];
                if in_bracket(e.min_time, e.max_time, time) {
                    gl = e.group_letter.clone();
                }
                j += 1;
            }
        }
        i += 1;
    }
    gl
}

/// Among the first `n` rows, the repetitive letter of the last row for
/// `letter` whose surface-interval bracket holds `interval`; empty where
/// none does.
pub open spec fn last_repet_letter(rows: Seq<RowRgl>, n: int, letter: Seq<char>, interval: u16) -> Seq<
    char,
>
    decreases n,
{
    if n <= 0 {
        Seq::empty()
    } else if rows[n - 1].group_letter@ == letter && within(
        rows[n - 1].min_time,
        rows[n - 1].max_time,
        interval,
    ) {
        rows[n - 1].repet_letter@
    } else {
        last_repet_letter(rows, n - 1, letter, interval)
    }
}

/// The repetitive letter after a surface interval of `interval`, for a
/// diver who surfaced with group `letter`; empty where the table has none,
/// and empty for an empty letter.
pub open spec fn repet_letter_of(t: TableRgl, letter: Seq<char>, interval: u16) -> Seq<char> {
    if letter.len() == 0 {
        Seq::empty()
    } else {
        last_repet_letter(t.table_data@, t.table_data@.len() as int, letter, interval)
    }
}

/// Among the first `n` entries, the time of the last entry whose depth
/// bracket holds `depth`; `prior` where none does.
pub open spec fn last_rnt_entry(es: Seq<Rnt>, n: int, depth: u16, prior: u16) -> u16
    decreases n,
{
    if n <= 0 {
        prior
    } else if within(es[n - 1].min_depth, es[n - 1].max_depth, depth) {
        es[n - 1].rnt
    } else {
        last_rnt_entry(es, n - 1, depth, prior)
    }
}

/// Among the entries of the first `n` rows, in table order, the time of the
/// last entry whose row is for `letter` and whose bracket holds `depth`;
/// 0 where none does.
pub open spec fn last_rnt(rows: Seq<RowRnt>, n: int, letter: Seq<char>, depth: u16) -> u16
    decreases n,
{
    if n <= 0 {
        0
    } else {
        let prior = last_rnt(rows, n - 1, letter, depth);
        let row = rows[n - 1];
        if row.repet_letter@ == letter {
            last_rnt_entry(row.rnt@, row.rnt@.len() as int, depth, prior)
        } else {
            prior
        }
    }
}

/// The residual nitrogen time of repetitive letter `letter` for a next dive
/// to `depth`; 0 where the table has none, and 0 for an empty letter.
pub open spec fn rnt_of(t: TableRnt, letter: Seq<char>, depth: u16) -> u16 {
    if letter.len() == 0 {
        0
    } else {
        last_rnt(t.table_data@, t.table_data@.len() as int, letter, depth)
    }
}

/// The repetitive letter of a dive to `depth` for `time`, followed by a
/// surface interval of `interval`: the table's group letter for the dive
/// (the overrides for long shallow dives play no part), then the
/// repetitive-group table's letter for it; empty where either is missing.
pub open spec fn chain_repet_letter(
    ndl: TableNdl,
    rgl: TableRgl,
    depth: u16,
    time: u16,
    interval: u16,
) -> Seq<char> {
    repet_letter_of(rgl, table_letter(ndl, depth, time), interval)
}

/// The residual nitrogen time for a next dive to `next_depth`, after a dive
/// to `depth` for `time` and a surface interval of `interval`: the
/// residual-nitrogen table's time for the repetitive letter of
/// `chain_repet_letter`; 0 where any link of the chain is missing.
pub open spec fn chain_rnt(
    ndl: TableNdl,
    rgl: TableRgl,
    rnt: TableRnt,
    depth: u16,
    time: u16,
    interval: u16,
    next_depth: u16,
) -> u16 {
    rnt_of(rnt, chain_repet_letter(ndl, rgl, depth, time, interval), next_depth)
}

/// The rule by which a profile row is picked for a bottom time: both of
/// its bounds are at most that time, so the upper bound acts as a second
/// lower bound. With contiguous brackets the last row picked in a block is
/// the one before the row whose bracket holds the time, or that row itself
/// where the time equals its upper bound.
pub open spec fn selects(row: RowDeco, time: u16) -> bool {
    row.min_time <= time && row.max_time <= time
}

/// Among the first `n` rows, the last that `selects` picks for `time`;
/// `prior` where none does.
pub open spec fn last_profile(rows: Seq<RowDeco>, n: int, time: u16, prior: Option<RowDeco>) -> Option<
    RowDeco,
>
    decreases n,
{
    if n <= 0 {
        prior
    } else if selects(rows[n - 1], time) {
        Some(rows[n - 1])
    } else {
        last_profile(rows, n - 1, time, prior)
    }
}

/// Among the rows of the first `n` blocks, in table order, the last row
/// picked for `time` in a block whose depth bracket holds `depth`.
pub open spec fn last_block_profile(blocks: Seq<DecoDepth>, n: int, depth: u16, time: u16) -> Option<
    RowDeco,
>
    decreases n,
{
    if n <= 0 {
        None
    } else {
        let prior = last_block_profile(blocks, n - 1, depth, time);
        let b = blocks[n - 1];
        if within(b.min_fsw, b.max_fsw, depth) {
            last_profile(b.rows@, b.rows@.len() as int, time, prior)
        } else {
            prior
        }
    }
}

/// The profile row that the decompression table gives for a dive, if any.
pub open spec fn profile_of(t: TableAirDeco, depth: u16, time: u16) -> Option<RowDeco> {
    last_block_profile(t.table_data@, t.table_data@.len() as int, depth, time)
}

/// `a` holds the same values as `b`, field by field.
pub open spec fn same_profile(a: RowDeco, b: RowDeco) -> bool {
    &&& a.min_time == b.min_time
    &&& a.max_time == b.max_time
    &&& a.air_tat@ == b.air_tat@
    &&& a.o2_tat@ == b.o2_tat@
    &&& a.ttfs@ == b.ttfs@
    &&& a.o2cp_half_periods == b.o2cp_half_periods
    &&& a.repetgroup_letter@ == b.repetgroup_letter@
    &&& a.surdo2_recommended == b.surdo2_recommended
    &&& a.exceptional_exposure == b.exceptional_exposure
    &&& a.surdo2_required == b.surdo2_required
    &&& a.strict_surdo2 == b.strict_surdo2
    &&& a.air_deco_stops@ == b.air_deco_stops@
    &&& a.o2_deco_stops@ == b.o2_deco_stops@
}

/// The profile handed back where the table has none: zero bounds and
/// counts, the text "0" in each text field, no flag set and no stops.
pub open spec fn is_placeholder(r: RowDeco) -> bool {
    &&& r.min_time == 0
    &&& r.max_time == 0
    &&& r.air_tat@ == "0"@
    &&& r.o2_tat@ == "0"@
    &&& r.ttfs@ == "0"@
    &&& r.o2cp_half_periods == 0
    &&& r.repetgroup_letter@ == "0"@
    &&& !r.surdo2_recommended
    &&& !r.exceptional_exposure
    &&& !r.surdo2_required
    &&& !r.strict_surdo2
    &&& r.air_deco_stops@.len() == 0
    &&& r.o2_deco_stops@.len() == 0
}

/// The repetitive letter after a surface interval of `interval` for a diver
/// who surfaced with group `letter`, empty where there is none.
pub fn scan_repet_letter(table: &TableRgl, letter: &String, interval: u16) -> (r: String)
    ensures
        r@ == repet_letter_of(*table, letter@, interval),
{
    let mut rl = String::new();
    if letter.as_str().is_empty() {
        return rl;
    }
    let rows = &table.table_data;
    let mut i: usize = 0;
    while i < rows.len()
        invariant
            i <= rows@.len(),
            letter@.len() > 0,
            rl@ == last_repet_letter(rows@, i as int, letter@, interval),
        decreases rows@.len() - i,
    {
        let row = &rows[i];
        if row.group_letter == *letter && in_bracket(row.min_time, row.max_time, interval) {
            rl = row.repet_letter.clone();
        }
        i += 1;
    }
    rl
}

/// The residual nitrogen time of repetitive letter `letter` for a next dive
/// to `depth`, 0 where there is none.
pub fn scan_rnt(table: &TableRnt, letter: &String, depth: u16) -> (r: u16)
    ensures
        r == rnt_of(*table, letter@, depth),
{
    if letter.as_str().is_empty() {
        return 0;
    }
    let rows = &table.table_data;
    let mut rnt: u16 = 0;
    let mut i: usize = 0;
    while i < rows.len()
        invariant
            i <= rows@.len(),
            letter@.len() > 0,
            rnt == last_rnt(rows@, i as int, letter@, depth),
        decreases rows@.len() - i,
    {
        let row = &rows[i];
        if row.repet_letter == *letter {
            let ghost prior = rnt;
            let es = &row.rnt;
            let mut j: usize = 0;
            while j < es.len()
                invariant
                    j <= es@.len(),
                    rnt == last_rnt_entry(es@, j as int, depth, prior),
                decreases es@.len() - j,
            {
                let e = &es[j];
                if in_bracket(e.min_depth, e.max_depth, depth) {
                    rnt = e.rnt;
                }
                j += 1;
            }
        }
        i += 1;
    }
    rnt
}

fn copy_stops(v: &Vec<DecoStops>) -> (r: Vec<DecoStops>)
    ensures
        r@ == v@,
{
    let mut r: Vec<DecoStops> = Vec::new();
    let mut i: usize = 0;
    while i < v.len()
        invariant
            i <= v@.len(),
            r@ == v@.subrange(0, i as int),
        decreases v@.len() - i,
    {
        r.push(v[i]);
        i += 1;
        assert(r@ =~= v@.subrange(0, i as int));
    }
    assert(r@ =~= v@);
    r
}

/// A copy of a profile row.
fn copy_profile(p: &RowDeco) -> (r: RowDeco)
    ensures
        same_profile(r, *p),
{
    RowDeco {
        min_time: p.min_time,
        max_time: p.max_time,
        air_tat: p.air_tat.clone(),
        o2_tat: p.o2_tat.clone(),
        ttfs: p.ttfs.clone(),
        o2cp_half_periods: p.o2cp_half_periods,
        repetgroup_letter: p.repetgroup_letter.clone(),
        surdo2_recommended: p.surdo2_recommended,
        exceptional_exposure: p.exceptional_exposure,
        surdo2_required: p.surdo2_required,
        strict_surdo2: p.strict_surdo2,
        air_deco_stops: copy_stops(&p.air_deco_stops),
        o2_deco_stops: copy_stops(&p.o2_deco_stops),
    }
}

/// The profile handed back where the table gives none.
pub fn placeholder_profile() -> (r: RowDeco)
    ensures
        is_placeholder(r),
{
    RowDeco {
        min_time: 0,
        max_time: 0,
        air_tat: String::from_str("0"),
        o2_tat: String::from_str("0"),
        ttfs: String::from_str("0"),
        o2cp_half_periods: 0,
        repetgroup_letter: String::from_str("0"),
        surdo2_recommended: false,
        exceptional_exposure: false,
        surdo2_required: false,
        strict_surdo2: false,
        air_deco_stops: Vec::new(),
        o2_deco_stops: Vec::new(),
    }
}

/// The decompression profile the table gives for a dive, or the
/// placeholder where it gives none.
pub fn scan_profile(table: &TableAirDeco, depth: u16, time: u16) -> (r: RowDeco)
    ensures
        match profile_of(*table, depth, time) {
            Some(p) => same_profile(r, p),
            None => is_placeholder(r),
        },
{
    let blocks = &table.table_data;
    let mut found: Option<usize> = None;
    let mut found_block: usize = 0;
    let mut i: usize = 0;
    while i < blocks.len()
        invariant
            i <= blocks@.len(),
            found.is_some() ==> found_block < blocks@.len()
                && found.unwrap() < blocks@[found_block as int].rows@.len(),
            last_block_profile(blocks@, i as int, depth, time) == match found {
                Some(j) => Some(blocks@[found_block as int].rows@[j as int]),
                None => None::<RowDeco>,
            },
        decreases blocks@.len() - i,
    {
        let b = &blocks[i];
        if in_bracket(b.min_fsw, b.max_fsw, depth) {
            let ghost prior = last_block_profile(blocks@, i as int, depth, time);
            let rows = &b.rows;
            let mut j: usize = 0;
            while j < rows.len()
                invariant
                    i < blocks@.len(),
                    rows@ == blocks@[i as int].rows@,
                    j <= rows@.len(),
                    found.is_some() ==> found_block < blocks@.len()
                        && found.unwrap() < blocks@[found_block as int].rows@.len(),
                    last_profile(rows@, j as int, time, prior) == match found {
                        Some(k) => Some(blocks@[found_block as int].rows@[k as int]),
                        None => None::<RowDeco>,
                    },
                decreases rows@.len() - j,
            {
                let p = &rows[j];
                if p.min_time <= time && p.max_time <= time {
                    found = Some(j);
                    found_block = i;
                }
                j += 1;
            }
        }
        i += 1;
    }
    match found {
        Some(j) => copy_profile(&blocks[found_block].rows[j]),
        None => placeholder_profile(),
    }
}

/// The group letter of a dive, or the message that says why there is none.
pub fn resolve_letter(table: &TableNdl, depth: u16, time: u16) -> (r: String)
    ensures
        r@ == group_letter_text(*table, depth, time),
{
    proof {
        reveal_strlit("F");
        reveal_strlit("I");
        reveal_strlit("L");
    }
    let gl = scan_letter(table, depth, time);
    if !gl.as_str().is_empty() {
        gl
    } else if 0 < depth && depth <= 10 && time > 462 {
        String::from_str("F")
    } else if 10 < depth && depth <= 15 && time > 449 {
        String::from_str("I")
    } else if 15 < depth && depth <= 20 && time > 461 {
        String::from_str("L")
    } else if depth <= MAX_NO_DECO_DEPTH {
        String::from_str(TIME_RANGE_MESSAGE)
    } else {
        String::from_str(DEPTH_RANGE_MESSAGE)
    }
}

} // verus!
