//! Decompression planning for air dives: no-decompression limits,
//! repetitive-group letters, residual nitrogen times and decompression
//! profiles, looked up in read-only reference tables that the caller
//! supplies. Depths are in feet of sea water (fsw), times in minutes.
use vstd::prelude::*;

pub mod bracket;
pub mod laws;
pub mod lookup;
pub mod tables;

pub use tables::{
    DecoDepth, DecoStops, Group, RowDeco, RowNdl, RowRgl, RowRnt, Rnt, TableAirDeco, TableNdl,
    TableRgl, TableRnt,
};

use lookup::{
    chain_repet_letter, chain_rnt, group_letter_text, is_placeholder, ndl_of, profile_of,
    resolve_letter, same_profile, scan_letter, scan_limit, scan_profile, scan_repet_letter,
    scan_rnt, MAX_NO_DECO_DEPTH,
};

verus! {

/// A single dive.
#[derive(Copy, Clone, Debug)]
pub struct Dive {
    /// depth of the dive
    pub depth: u16,
    /// bottom time of the dive
    pub bottom_time: u16,
}

/// Two dives: the first, the surface interval after it, and the depth of
/// the next.
#[derive(Copy, Clone, Debug)]
pub struct DivePlan {
    /// depth of the first dive
    pub depth: u16,
    /// bottom time of the first dive
    pub bottom_time: u16,
    /// planned surface interval between the dives
    pub surface_interval_time: u16,
    /// depth of the next dive
    pub next_dive_depth: u16,
}

impl Dive {
    /// A dive to `depth` with `bottom_time` at the bottom.
    pub fn new(depth: u16, bottom_time: u16) -> (r: Self)
        ensures
            r.depth == depth,
            r.bottom_time == bottom_time,
    {
        Dive { depth, bottom_time }
    }

    /// The no-decompression limit at the dive's depth: 0 beyond 190 fsw,
    /// else the limit of the last row of `table` whose depth bracket holds
    /// the depth, 0 where none does.
    pub fn no_decompression_limit(self, table: &TableNdl) -> (r: u16)
        ensures
            r == ndl_of(*table, self.depth),
            self.depth > MAX_NO_DECO_DEPTH ==> r == 0,
    {
        scan_limit(table, self.depth)
    }

    /// The dive's group letter: the letter of the last entry of `table`
    /// that holds the dive; else the letter of an override for long
    /// shallow dives; else a message that the dive is out of the time range
    /// (up to 190 fsw) or of the depth range (deeper).
    pub fn group_letter(self, table: &TableNdl) -> (r: String)
        ensures
            r@ == group_letter_text(*table, self.depth, self.bottom_time),
    {
        resolve_letter(table, self.depth, self.bottom_time)
    }

    /// The dive's decompression profile: the last row, within the blocks of
    /// `table` whose depth bracket holds the depth, whose two time bounds
    /// are both at most the bottom time; a placeholder where there is none.
    pub fn deco_dive(self, table: &TableAirDeco) -> (r: RowDeco)
        ensures
            match profile_of(*table, self.depth, self.bottom_time) {
                Some(p) => same_profile(r, p),
                None => is_placeholder(r),
            },
    {
        scan_profile(table, self.depth, self.bottom_time)
    }
}

impl DivePlan {
    /// A plan of a dive to `depth` for `bottom_time`, a surface interval of
    /// `surface_interval_time`, and a next dive to `next_dive_depth`.
    pub fn new(depth: u16, bottom_time: u16, surface_interval_time: u16, next_dive_depth: u16) -> (r:
        Self)
        ensures
            r.depth == depth,
            r.bottom_time == bottom_time,
            r.surface_interval_time == surface_interval_time,
            r.next_dive_depth == next_dive_depth,
    {
        DivePlan { depth, bottom_time, surface_interval_time, next_dive_depth }
    }

    /// A plan whose first dive is `dive`.
    pub fn from_dive(dive: Dive, surface_interval_time: u16, next_dive_depth: u16) -> (r: Self)
        ensures
            r.depth == dive.depth,
            r.bottom_time == dive.bottom_time,
            r.surface_interval_time == surface_interval_time,
            r.next_dive_depth == next_dive_depth,
    {
        DivePlan {
            depth: dive.depth,
            bottom_time: dive.bottom_time,
            surface_interval_time,
            next_dive_depth,
        }
    }

    /// The no-decompression limit of the first dive, as
    /// `Dive::no_decompression_limit` gives it.
    pub fn no_decompression_limit(self, table: &TableNdl) -> (r: u16)
        ensures
            r == ndl_of(*table, self.depth),
            self.depth > MAX_NO_DECO_DEPTH ==> r == 0,
    {
        scan_limit(table, self.depth)
    }

    /// The group letter of the first dive, as `Dive::group_letter` gives it.
    pub fn group_letter(self, table: &TableNdl) -> (r: String)
        ensures
            r@ == group_letter_text(*table, self.depth, self.bottom_time),
    {
        resolve_letter(table, self.depth, self.bottom_time)
    }

    /// The repetitive letter after the surface interval: the group letter
    /// that `ndl` itself gives for the first dive, then the letter of the
    /// last row of `rgl` for that group whose interval bracket holds the
    /// surface interval; empty where either is missing.
    pub fn repet_letter(self, ndl: &TableNdl, rgl: &TableRgl) -> (r: String)
        ensures
            r@ == chain_repet_letter(
                *ndl,
                *rgl,
                self.depth,
                self.bottom_time,
                self.surface_interval_time,
            ),
    {
        let gl = scan_letter(ndl, self.depth, self.bottom_time);
        scan_repet_letter(rgl, &gl, self.surface_interval_time)
    }

    /// The residual nitrogen time for the next dive: the time of the last
    /// entry of `rnt`, in the rows for the repetitive letter of
    /// `repet_letter`, whose depth bracket holds the next dive's depth;
    /// 0 where any link of that chain is missing.
    pub fn residual_nitrogen_time(self, ndl: &TableNdl, rgl: &TableRgl, rnt: &TableRnt) -> (r: u16)
        ensures
            r == chain_rnt(
                *ndl,
                *rgl,
                *rnt,
                self.depth,
                self.bottom_time,
                self.surface_interval_time,
                self.next_dive_depth,
            ),
    {
        let rl = self.repet_letter(ndl, rgl);
        scan_rnt(rnt, &rl, self.next_dive_depth)
    }
}

} // verus!
