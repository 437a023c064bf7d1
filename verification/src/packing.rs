//! How operations are packed into table rows, and how tall tables have to be.
use crate::error::ProofMetadataError;
use crate::heights::{max_height, next_power_of_two, padded};
use crate::ops::NpoTypeId;
use vstd::prelude::*;

verus! {

/// Lanes and heights of the tables.
#[derive(Debug)]
pub struct TablePacking {
    /// Operations per row of the Public table.
    pub public_lanes: usize,
    /// Operations per row of the ALU table.
    pub alu_lanes: usize,
    /// Horner steps packed into one ALU entry.
    pub horner_packed_steps: usize,
    /// Floor on the height of every table.
    pub min_trace_height: usize,
    /// Height of the Const table, in place of the floor.
    pub const_min_height: Option<usize>,
    /// Height of the Public table, in place of the floor.
    pub public_min_height: Option<usize>,
    /// Height of the ALU table, in place of the floor.
    pub alu_min_height: Option<usize>,
    /// Lanes of plug-in tables, in place of their builders' own; a later entry wins.
    pub npo_lanes: Vec<(NpoTypeId, usize)>,
    /// Heights of plug-in tables, in place of the floor; a later entry wins.
    pub npo_min_heights: Vec<(NpoTypeId, usize)>,
    /// Plug-in tables that have to be built, rows or not.
    pub required_npo: Vec<NpoTypeId>,
    /// Whether a table that outgrows its height is rejected instead of padded up.
    pub strict: bool,
}

/// The setting for `op`: that of the last entry with its name.
pub open spec fn setting_of(entries: Seq<(NpoTypeId, usize)>, op: Seq<char>) -> Option<usize>
    decreases entries.len(),
{
    if entries.len() == 0 {
        None
    } else if entries.last().0@ == op {
        Some(entries.last().1)
    } else {
        setting_of(entries.drop_last(), op)
    }
}

/// The setting, or else `floor`.
pub open spec fn or_floor(setting: Option<usize>, floor: usize) -> usize {
    match setting {
        Some(h) => h,
        None => floor,
    }
}

/// Whether a per-table height is a power of two that is not below the floor.
pub open spec fn height_allowed(height: usize, floor: usize) -> bool {
    height > 0 && height <= max_height() && padded(height as nat) == height && height >= floor
}

/// A per-table height as a list of one entry, or of none.
pub open spec fn named_height(table: Seq<char>, height: Option<usize>) -> Seq<(Seq<char>, usize)> {
    match height {
        Some(h) => seq![(table, h)],
        None => Seq::empty(),
    }
}

fn lookup_setting(entries: &Vec<(NpoTypeId, usize)>, op: &NpoTypeId) -> (res: Option<usize>)
    ensures
        res == setting_of(entries@, op@),
{
    let mut i: usize = entries.len();
    assert(entries@.take(i as int) =~= entries@);
    while i > 0
        invariant
            i <= entries.len(),
            setting_of(entries@, op@) == setting_of(entries@.take(i as int), op@),
        decreases i,
    {
        i -= 1;
        assert(entries@.take(i + 1).drop_last() =~= entries@.take(i as int));
        if entries[i].0.same(op) {
            return Some(entries[i].1);
        }
    }
    None
}

impl TablePacking {
    /// What the preparation of tables relies on: lanes to divide by, and a floor that a table's
    /// height can reach.
    pub open spec fn well_formed(self) -> bool {
        &&& self.public_lanes > 0
        &&& self.alu_lanes > 0
        &&& self.min_trace_height <= max_height()
    }

    /// The per-table heights, with the names of their tables.
    pub open spec fn overrides(self) -> Seq<(Seq<char>, usize)> {
        named_height("CONST"@, self.const_min_height) + named_height(
            "PUBLIC"@,
            self.public_min_height,
        ) + named_height("ALU"@, self.alu_min_height) + self.npo_min_heights@.map_values(
            |e: (NpoTypeId, usize)| (e.0@, e.1),
        )
    }

    /// Whether every per-table height is a power of two that is not below the floor.
    pub open spec fn valid(self) -> bool {
        forall|i: int|
            0 <= i < self.overrides().len() ==> height_allowed(
                (#[trigger] self.overrides()[i]).1,
                self.min_trace_height,
            )
    }

    /// Whether `e` reports the first per-table height that is not allowed.
    pub open spec fn is_first_fault(self, e: ProofMetadataError) -> bool {
        exists|i: int|
            {
                &&& 0 <= i < self.overrides().len()
                &&& forall|j: int|
                    0 <= j < i ==> height_allowed(
                        (#[trigger] self.overrides()[j]).1,
                        self.min_trace_height,
                    )
                &&& is_fault_of(#[trigger] self.overrides()[i], self.min_trace_height, e)
            }
    }

    /// The lanes set for `op`.
    pub open spec fn lanes_of(self, op: Seq<char>) -> Option<usize> {
        setting_of(self.npo_lanes@, op)
    }

    /// The height that the table of `op` has at least.
    pub open spec fn npo_height(self, op: Seq<char>) -> usize {
        or_floor(setting_of(self.npo_min_heights@, op), self.min_trace_height)
    }

    /// A packing with the given lanes, no floor, no per-table heights and no plug-in tables.
    pub fn new(public_lanes: usize, alu_lanes: usize) -> (res: Self)
        requires
            public_lanes > 0,
            alu_lanes > 0,
        ensures
            res.well_formed(),
            res.public_lanes == public_lanes,
            res.alu_lanes == alu_lanes,
            res.horner_packed_steps == 1,
            res.min_trace_height == 1,
            res.const_min_height is None,
            res.public_min_height is None,
            res.alu_min_height is None,
            res.npo_lanes@.len() == 0,
            res.npo_min_heights@.len() == 0,
            res.required_npo@.len() == 0,
            !res.strict,
    {
        proof {
            crate::heights::lemma_max_height();
        }
        TablePacking {
            public_lanes,
            alu_lanes,
            horner_packed_steps: 1,
            min_trace_height: 1,
            const_min_height: None,
            public_min_height: None,
            alu_min_height: None,
            npo_lanes: Vec::new(),
            npo_min_heights: Vec::new(),
            required_npo: Vec::new(),
            strict: false,
        }
    }

    /// Set the floor on the height of every table.
    pub fn with_min_trace_height(self, height: usize) -> (res: Self)
        requires
            height <= max_height(),
        ensures
            res == (TablePacking { min_trace_height: height, ..self }),
    {
        TablePacking { min_trace_height: height, ..self }
    }

    /// Set the height of the Const table.
    pub fn with_const_min_height(self, height: usize) -> (res: Self)
        ensures
            res == (TablePacking { const_min_height: Some(height), ..self }),
    {
        TablePacking { const_min_height: Some(height), ..self }
    }

    /// Set the height of the Public table.
    pub fn with_public_min_height(self, height: usize) -> (res: Self)
        ensures
            res == (TablePacking { public_min_height: Some(height), ..self }),
    {
        TablePacking { public_min_height: Some(height), ..self }
    }

    /// Set the height of the ALU table.
    pub fn with_alu_min_height(self, height: usize) -> (res: Self)
        ensures
            res == (TablePacking { alu_min_height: Some(height), ..self }),
    {
        TablePacking { alu_min_height: Some(height), ..self }
    }

    /// Reject tables that outgrow their configured height.
    pub fn with_strict_heights(self) -> (res: Self)
        ensures
            res == (TablePacking { strict: true, ..self }),
    {
        TablePacking { strict: true, ..self }
    }

    /// The lanes set for a plug-in table.
    pub fn npo_lanes(&self, op: &NpoTypeId) -> (res: Option<usize>)
        ensures
            res == self.lanes_of(op@),
    {
        lookup_setting(&self.npo_lanes, op)
    }

    /// The height set for a plug-in table.
    pub fn npo_min_height(&self, op: &NpoTypeId) -> (res: Option<usize>)
        ensures
            res == setting_of(self.npo_min_heights@, op@),
    {
        lookup_setting(&self.npo_min_heights, op)
    }

    /// Reject per-table heights that are not powers of two or lie below the floor.
    pub fn validate(&self) -> (res: Result<(), ProofMetadataError>)
        ensures
            res is Ok <==> self.valid(),
            res matches Err(e) ==> self.is_first_fault(e),
    {
        let floor: usize = self.min_trace_height;
        let ghost all = self.overrides();
        let ghost a = named_height("CONST"@, self.const_min_height);
        let ghost b = named_height("PUBLIC"@, self.public_min_height);
        let ghost c = named_height("ALU"@, self.alu_min_height);
        let ghost start = (a + b + c).len() as int;
        if let Some(h) = self.const_min_height {
            assert(all[0] == ("CONST"@, h));
            if let Some(e) = height_fault("CONST", h, floor) {
                return Err(e);
            }
        }
        if let Some(h) = self.public_min_height {
            assert(all[a.len() as int] == ("PUBLIC"@, h));
            if let Some(e) = height_fault("PUBLIC", h, floor) {
                return Err(e);
            }
        }
        if let Some(h) = self.alu_min_height {
            assert(all[(a + b).len() as int] == ("ALU"@, h));
            if let Some(e) = height_fault("ALU", h, floor) {
                return Err(e);
            }
        }
        assert forall|j: int| 0 <= j < start implies height_allowed(
            (#[trigger] all[j]).1,
            floor,
        ) by {
            assert(all[j] == (a + b + c)[j]);
        }
        let heights = &self.npo_min_heights;
        let mut i: usize = 0;
        while i < heights.len()
            invariant
                i <= heights.len(),
                heights == self.npo_min_heights,
                floor == self.min_trace_height,
                all == self.overrides(),
                start + heights.len() == all.len(),
                start >= 0,
                forall|j: int|
                    0 <= j < heights.len() ==> #[trigger] all[start + j] == (
                        heights[j].0@,
                        heights[j].1,
                    ),
                forall|j: int|
                    0 <= j < start + i ==> height_allowed((#[trigger] all[j]).1, floor),
            decreases heights.len() - i,
        {
            assert(all[start + i] == (heights[i as int].0@, heights[i as int].1));
            if let Some(e) = height_fault(heights[i].0.name.as_str(), heights[i].1, floor) {
                return Err(e);
            }
            i += 1;
        }
        Ok(())
    }
}

/// Whether `e` is the fault of the per-table height `named`: not a power of two, or else below
/// the floor.
pub open spec fn is_fault_of(
    named: (Seq<char>, usize),
    floor: usize,
    e: ProofMetadataError,
) -> bool {
    let h = named.1;
    if h > 0 && h <= max_height() && padded(h as nat) == h {
        h < floor && (e matches ProofMetadataError::MinHeightBelowFloor {
            table,
            height,
            floor: f,
        } && table@ == named.0 && height == h && f == floor)
    } else {
        e matches ProofMetadataError::MinHeightNotPowerOfTwo { table, height } && table@ == named.0
            && height == h
    }
}

fn height_fault(table: &str, height: usize, floor: usize) -> (res: Option<ProofMetadataError>)
    ensures
        res is None <==> height_allowed(height, floor),
        res matches Some(e) ==> is_fault_of((table@, height), floor, e),
{
    proof {
        crate::heights::lemma_max_height();
    }
    if height == 0 || height > usize::MAX / 2 + 1 || next_power_of_two(height) != height {
        return Some(
            ProofMetadataError::MinHeightNotPowerOfTwo { table: table.to_owned(), height },
        );
    }
    if height < floor {
        return Some(
            ProofMetadataError::MinHeightBelowFloor { table: table.to_owned(), height, floor },
        );
    }
    None
}

} // verus!
