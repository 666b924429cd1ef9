//! The four reference tables: no-decompression limits with group letters,
//! repetitive groups after a surface interval, residual nitrogen times and
//! decompression schedules. Depths are in feet of sea water, times in
//! minutes; every bracket is closed at both ends.
use vstd::prelude::*;

verus! {

/// One time bracket of a no-decompression row and the group letter it gives.
#[derive(Clone, Debug)]
pub struct Group {
    /// the group letter, one of `A`..`Z`
    pub group_letter: String,
    /// lower end of the bottom-time bracket
    pub min_time: u16,
    /// upper end of the bottom-time bracket
    pub max_time: u16,
}

/// One depth bracket of the no-decompression table.
#[derive(Clone, Debug)]
pub struct RowNdl {
    /// lower end of the depth bracket
    pub min_fsw: u16,
    /// upper end of the depth bracket
    pub max_fsw: u16,
    /// no time limit applies at these depths
    pub unlimited: bool,
    /// the no-stop limit; unlimited rows carry a large sentinel value
    pub no_stop_limit: u16,
    /// group letters by bottom time, in table order
    pub values: Vec<Group>,
}

/// The no-decompression table.
#[derive(Clone, Debug)]
pub struct TableNdl {
    /// short identifier of the table
    pub table_code: String,
    /// published name of the table
    pub table_name: String,
    /// depth rows in table order
    pub table_data: Vec<RowNdl>,
}

/// A group letter and a surface-interval bracket, with the repetitive
/// letter a diver holds after such an interval.
#[derive(Clone, Debug)]
pub struct RowRgl {
    /// group letter on surfacing
    pub group_letter: String,
    /// lower end of the surface-interval bracket
    pub min_time: u16,
    /// upper end of the surface-interval bracket
    pub max_time: u16,
    /// repetitive letter after the interval
    pub repet_letter: String,
}

/// The repetitive-group table.
#[derive(Clone, Debug)]
pub struct TableRgl {
    /// short identifier of the table
    pub table_code: String,
    /// published name of the table
    pub table_name: String,
    /// rows in table order
    pub table_data: Vec<RowRgl>,
}

/// A next-dive depth bracket and its residual nitrogen time.
#[derive(Clone, Copy, Debug)]
pub struct Rnt {
    /// lower end of the next-dive depth bracket
    pub min_depth: u16,
    /// upper end of the next-dive depth bracket
    pub max_depth: u16,
    /// residual nitrogen time
    pub rnt: u16,
}

/// The residual nitrogen times of one repetitive letter.
#[derive(Clone, Debug)]
pub struct RowRnt {
    /// the repetitive letter
    pub repet_letter: String,
    /// times by next-dive depth, in table order
    pub rnt: Vec<Rnt>,
}

/// The residual-nitrogen table.
#[derive(Clone, Debug)]
pub struct TableRnt {
    /// short identifier of the table
    pub table_code: String,
    /// published name of the table
    pub table_name: String,
    /// advisory shown when the residual time exceeds the no-decompression
    /// limit of a depth whose limit is otherwise unlimited
    pub table_note_9981: String,
    /// rows in table order
    pub table_data: Vec<RowRnt>,
}

/// One scheduled stop: its depth and how long it lasts.
#[derive(Clone, Copy, Debug)]
pub struct DecoStops {
    /// depth of the stop
    pub depth: u16,
    /// time at the stop
    pub time: u16,
}

/// One decompression profile: a bottom-time bracket and its schedule.
#[derive(Clone, Debug)]
pub struct RowDeco {
    /// lower end of the bottom-time bracket
    pub min_time: u16,
    /// upper end of the bottom-time bracket
    pub max_time: u16,
    /// total ascent time with air decompression, as printed in the table
    pub air_tat: String,
    /// total ascent time with in-water oxygen decompression, as printed
    pub o2_tat: String,
    /// time from leaving the bottom to the first stop, as printed
    pub ttfs: String,
    /// chamber periods of surface decompression on oxygen, counted in
    /// half periods (a table entry of 2.5 periods is 5)
    pub o2cp_half_periods: u16,
    /// repetitive group letter after the decompression
    pub repetgroup_letter: String,
    /// surface decompression on oxygen is recommended
    pub surdo2_recommended: bool,
    /// the profile is an exceptional exposure
    pub exceptional_exposure: bool,
    /// surface decompression on oxygen is required
    pub surdo2_required: bool,
    /// only surface decompression on oxygen may be used
    pub strict_surdo2: bool,
    /// stops of the air schedule, shallowest last
    pub air_deco_stops: Vec<DecoStops>,
    /// stops of the oxygen schedule, shallowest last
    pub o2_deco_stops: Vec<DecoStops>,
}

/// One depth bracket of the decompression table.
#[derive(Clone, Debug)]
pub struct DecoDepth {
    /// lower end of the depth bracket
    pub min_fsw: u16,
    /// upper end of the depth bracket
    pub max_fsw: u16,
    /// profiles by bottom time, in table order
    pub rows: Vec<RowDeco>,
}

/// The air decompression table.
#[derive(Clone, Debug)]
pub struct TableAirDeco {
    /// short identifier of the table
    pub table_code: String,
    /// published name of the table
    pub table_name: String,
    /// depth blocks in table order
    pub table_data: Vec<DecoDepth>,
}

} // verus!
