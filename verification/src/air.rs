//! Descriptions of the tables that are handed to the prover.
use crate::field::AluExtMulKind;
use crate::heights::{ceil_div, div_ceil, max_height, next_power_of_two, padded};
use vstd::prelude::*;

verus! {

/// Height of a table: its rows padded to a power of two, and no less than its configured height
/// padded likewise.
pub open spec fn table_height(rows: nat, min_height: nat) -> nat {
    if padded(rows) >= padded(min_height) {
        padded(rows)
    } else {
        padded(min_height)
    }
}

fn trace_height(rows: usize, min_height: usize) -> (res: usize)
    requires
        rows <= max_height(),
        min_height <= max_height(),
    ensures
        res == table_height(rows as nat, min_height as nat),
{
    let natural: usize = next_power_of_two(rows);
    let configured: usize = next_power_of_two(min_height);
    if natural >= configured {
        natural
    } else {
        configured
    }
}

/// A copy of `values`.
pub(crate) fn copy_values(values: &Vec<u64>) -> (res: Vec<u64>)
    ensures
        res@ == values@,
{
    let res = values.clone();
    assert(res@ =~= values@);
    res
}

/// Table of constants of degree `D`.
#[derive(Debug)]
pub struct ConstAir<const D: usize> {
    /// Number of constants.
    pub height: usize,
    /// Committed rows: multiplicity, index and coefficients of each constant.
    pub preprocessed: Vec<u64>,
    /// Height that the table is padded to at least.
    pub min_height: usize,
}

impl<const D: usize> ConstAir<D> {
    /// Rows before padding.
    pub open spec fn rows(self) -> nat {
        self.height as nat
    }

    /// A table with the given committed rows and no configured height.
    pub fn new_with_preprocessed(height: usize, preprocessed: Vec<u64>) -> (res: Self)
        ensures
            res == (ConstAir::<D> { height, preprocessed, min_height: 1 }),
    {
        ConstAir { height, preprocessed, min_height: 1 }
    }

    /// Set the configured height.
    pub fn with_min_height(self, min_height: usize) -> (res: Self)
        ensures
            res == (ConstAir::<D> { min_height, ..self }),
    {
        ConstAir { min_height, ..self }
    }
}

impl<const D: usize> Clone for ConstAir<D> {
    fn clone(&self) -> (res: Self)
        ensures
            res.height == self.height,
            res.preprocessed@ == self.preprocessed@,
            res.min_height == self.min_height,
    {
        ConstAir {
            height: self.height,
            preprocessed: copy_values(&self.preprocessed),
            min_height: self.min_height,
        }
    }
}

/// Table of public inputs of degree `D`.
#[derive(Debug)]
pub struct PublicAir<const D: usize> {
    /// Number of public inputs.
    pub num_ops: usize,
    /// Public inputs per row.
    pub lanes: usize,
    /// Committed rows: multiplicity and index of each public input.
    pub preprocessed: Vec<u64>,
    /// Height that the table is padded to at least.
    pub min_height: usize,
}

impl<const D: usize> PublicAir<D> {
    /// Rows before padding.
    pub open spec fn rows(self) -> nat {
        ceil_div(self.num_ops as nat, self.lanes as nat)
    }

    /// A table with the given committed rows and no configured height.
    pub fn new_with_preprocessed(num_ops: usize, lanes: usize, preprocessed: Vec<u64>) -> (res:
        Self)
        ensures
            res == (PublicAir::<D> { num_ops, lanes, preprocessed, min_height: 1 }),
    {
        PublicAir { num_ops, lanes, preprocessed, min_height: 1 }
    }

    /// Set the configured height.
    pub fn with_min_height(self, min_height: usize) -> (res: Self)
        ensures
            res == (PublicAir::<D> { min_height, ..self }),
    {
        PublicAir { min_height, ..self }
    }
}

impl<const D: usize> Clone for PublicAir<D> {
    fn clone(&self) -> (res: Self)
        ensures
            res.num_ops == self.num_ops,
            res.lanes == self.lanes,
            res.preprocessed@ == self.preprocessed@,
            res.min_height == self.min_height,
    {
        PublicAir {
            num_ops: self.num_ops,
            lanes: self.lanes,
            preprocessed: copy_values(&self.preprocessed),
            min_height: self.min_height,
        }
    }
}

/// What the scheduler of the ALU table starts from.
#[derive(Debug)]
pub struct AluTable<const D: usize> {
    /// Number of operations.
    pub num_ops: usize,
    /// Entries per row.
    pub lanes: usize,
    /// How extension elements are multiplied.
    pub reduction: AluExtMulKind,
    /// Committed rows, one per operation.
    pub preprocessed: Vec<u64>,
    /// Horner steps packed into one entry.
    pub horner_packed_steps: usize,
}

impl<const D: usize> Clone for AluTable<D> {
    fn clone(&self) -> (res: Self)
        ensures
            res.num_ops == self.num_ops,
            res.lanes == self.lanes,
            res.reduction == self.reduction,
            res.preprocessed@ == self.preprocessed@,
            res.horner_packed_steps == self.horner_packed_steps,
    {
        AluTable {
            num_ops: self.num_ops,
            lanes: self.lanes,
            reduction: self.reduction,
            preprocessed: copy_values(&self.preprocessed),
            horner_packed_steps: self.horner_packed_steps,
        }
    }
}

/// Table of all arithmetic operations of degree `D`.
#[derive(Debug)]
pub struct AluAir<const D: usize> {
    /// The operations.
    pub table: AluTable<D>,
    /// Entries that the operations are scheduled into.
    pub scheduled_entries: usize,
    /// Height that the table is padded to at least.
    pub min_height: usize,
}

impl<const D: usize> AluAir<D> {
    /// Rows before padding.
    pub open spec fn rows(self) -> nat {
        ceil_div(self.scheduled_entries as nat, self.table.lanes as nat)
    }

    /// A table of the operations, scheduled into the given number of entries, with no configured
    /// height.
    pub fn from_schedule(table: AluTable<D>, scheduled_entries: usize) -> (res: Self)
        ensures
            res == (AluAir { table, scheduled_entries, min_height: 1 }),
    {
        AluAir { table, scheduled_entries, min_height: 1 }
    }

    /// Set the configured height.
    pub fn with_min_height(self, min_height: usize) -> (res: Self)
        ensures
            res == (AluAir { min_height, ..self }),
    {
        AluAir { min_height, ..self }
    }

    /// Entries that the operations are scheduled into.
    pub fn scheduled_entry_count(&self) -> (res: usize)
        ensures
            res == self.scheduled_entries,
    {
        self.scheduled_entries
    }
}

impl<const D: usize> Clone for AluAir<D> {
    fn clone(&self) -> (res: Self)
        ensures
            res.table.num_ops == self.table.num_ops,
            res.table.lanes == self.table.lanes,
            res.table.reduction == self.table.reduction,
            res.table.preprocessed@ == self.table.preprocessed@,
            res.table.horner_packed_steps == self.table.horner_packed_steps,
            res.scheduled_entries == self.scheduled_entries,
            res.min_height == self.min_height,
    {
        AluAir {
            table: self.table.clone(),
            scheduled_entries: self.scheduled_entries,
            min_height: self.min_height,
        }
    }
}

/// A table of any kind, so that all of them can be proved in one batch. `E` is what plug-ins
/// build.
#[derive(Debug)]
pub enum CircuitTableAir<E, const D: usize> {
    /// Constants.
    Const(ConstAir<D>),
    /// Public inputs.
    Public(PublicAir<D>),
    /// All arithmetic operations.
    Alu(AluAir<D>),
    /// A plug-in's table.
    Dynamic(E),
}

impl<E, const D: usize> CircuitTableAir<E, D> {
    /// Rows of a primitive table before padding, and its configured height.
    pub open spec fn primitive_rows(self) -> Option<(nat, nat)> {
        match self {
            CircuitTableAir::Const(air) => Some((air.rows(), air.min_height as nat)),
            CircuitTableAir::Public(air) => Some((air.rows(), air.min_height as nat)),
            CircuitTableAir::Alu(air) => Some((air.rows(), air.min_height as nat)),
            CircuitTableAir::Dynamic(_) => None,
        }
    }

    /// Height of the committed trace of a primitive table; a plug-in's table answers for itself.
    pub fn preprocessed_height(&self) -> (res: Option<usize>)
        requires
            self matches CircuitTableAir::Public(air) ==> air.lanes > 0,
            self matches CircuitTableAir::Alu(air) ==> air.table.lanes > 0,
            self.primitive_rows() matches Some(p) ==> p.0 <= max_height() && p.1 <= max_height(),
        ensures
            match self.primitive_rows() {
                Some(p) => res is Some && res->Some_0 == table_height(p.0, p.1),
                None => res is None,
            },
    {
        match self {
            CircuitTableAir::Const(air) => Some(trace_height(air.height, air.min_height)),
            CircuitTableAir::Public(air) => {
                Some(trace_height(div_ceil(air.num_ops, air.lanes), air.min_height))
            },
            CircuitTableAir::Alu(air) => {
                Some(trace_height(div_ceil(air.scheduled_entries, air.table.lanes), air.min_height))
            },
            CircuitTableAir::Dynamic(_) => None,
        }
    }
}

impl<E: Clone, const D: usize> Clone for CircuitTableAir<E, D> {
    fn clone(&self) -> (res: Self)
        ensures
            match (*self, res) {
                (CircuitTableAir::Const(a), CircuitTableAir::Const(b)) => {
                    &&& b.height == a.height
                    &&& b.preprocessed@ == a.preprocessed@
                    &&& b.min_height == a.min_height
                },
                (CircuitTableAir::Public(a), CircuitTableAir::Public(b)) => {
                    &&& b.num_ops == a.num_ops
                    &&& b.lanes == a.lanes
                    &&& b.preprocessed@ == a.preprocessed@
                    &&& b.min_height == a.min_height
                },
                (CircuitTableAir::Alu(a), CircuitTableAir::Alu(b)) => {
                    &&& b.table.num_ops == a.table.num_ops
                    &&& b.table.lanes == a.table.lanes
                    &&& b.table.reduction == a.table.reduction
                    &&& b.table.preprocessed@ == a.table.preprocessed@
                    &&& b.table.horner_packed_steps == a.table.horner_packed_steps
                    &&& b.scheduled_entries == a.scheduled_entries
                    &&& b.min_height == a.min_height
                },
                (CircuitTableAir::Dynamic(a), CircuitTableAir::Dynamic(b)) => cloned(a, b),
                _ => false,
            },
    {
        match self {
            CircuitTableAir::Const(air) => CircuitTableAir::Const(air.clone()),
            CircuitTableAir::Public(air) => CircuitTableAir::Public(air.clone()),
            CircuitTableAir::Alu(air) => CircuitTableAir::Alu(air.clone()),
            CircuitTableAir::Dynamic(air) => CircuitTableAir::Dynamic(air.clone()),
        }
    }
}

} // verus!
