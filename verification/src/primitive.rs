//! The Const, Public and ALU tables of a circuit.
use crate::air::{copy_values, AluAir, AluTable, CircuitTableAir, ConstAir, PublicAir};
use crate::common::{
    alu_table_lanes, compute_degree, effective_lanes, overflows, public_table_lanes, table_degree,
};
use crate::error::CircuitError;
use crate::field::{AluExtMulKind, FieldParams};
use crate::heights::{ceil_div, div_ceil, lemma_max_height, max_height, padded};
use crate::ops::{PrimitiveOpType, PRIMITIVE_TABLES};
use crate::packing::{named_height, or_floor, TablePacking};
use crate::rows::{
    alu_rows, as_base, base_value, const_count, const_rows, public_rows, to_alu_rows,
    to_const_rows, to_public_rows, ALU_OP_WIDTH, ALU_ROW_WIDTH,
};
use vstd::prelude::*;

verus! {

/// Whether every value of every column lies in the base field.
pub open spec fn all_base<const D: usize>(columns: Seq<Vec<[u64; D]>>) -> bool {
    forall|i: int, j: int|
        0 <= i < columns.len() && 0 <= j < columns[i]@.len() ==> base_value(
            (#[trigger] columns[i]@[j])@,
        ) is Some
}

/// A column of base-field values.
pub open spec fn base_column<const D: usize>(column: Seq<[u64; D]>) -> Seq<u64> {
    column.map_values(|v: [u64; D]| base_value(v@)->Some_0)
}

/// The columns as base-field values, or an error if one of them is not.
pub fn base_columns<const D: usize>(columns: &Vec<Vec<[u64; D]>>) -> (res: Result<
    Vec<Vec<u64>>,
    CircuitError,
>)
    requires
        D > 0,
    ensures
        match res {
            Ok(base) => {
                &&& all_base(columns@)
                &&& base@.len() == columns@.len()
                &&& forall|i: int|
                    0 <= i < base@.len() ==> (#[trigger] base@[i])@ == base_column(columns@[i]@)
            },
            Err(e) => !all_base(columns@) && e == CircuitError::InvalidPreprocessedValues,
        },
{
    let mut base: Vec<Vec<u64>> = Vec::new();
    let mut i: usize = 0;
    while i < columns.len()
        invariant
            D > 0,
            i <= columns.len(),
            base@.len() == i,
            forall|k: int|
                0 <= k < i ==> (#[trigger] base@[k])@ == base_column(columns@[k]@),
            forall|k: int, j: int|
                0 <= k < i && 0 <= j < columns[k]@.len() ==> base_value(
                    (#[trigger] columns[k]@[j])@,
                ) is Some,
        decreases columns.len() - i,
    {
        let column = &columns[i];
        let mut values: Vec<u64> = Vec::new();
        let mut j: usize = 0;
        while j < column.len()
            invariant
                D > 0,
                i < columns.len(),
                *column == columns@[i as int],
                j <= column.len(),
                values@.len() == j,
                forall|k: int|
                    0 <= k < j ==> base_value((#[trigger] column@[k])@) == Some(values@[k]),
            decreases column.len() - j,
        {
            match as_base(&column[j]) {
                Some(value) => {
                    values.push(value);
                },
                None => {
                    assert(base_value(columns@[i as int]@[j as int]@) is None);
                    return Err(CircuitError::InvalidPreprocessedValues);
                },
            }
            j += 1;
        }
        assert(values@ =~= base_column(column@));
        base.push(values);
        i += 1;
    }
    Ok(base)
}

/// Whether `t` is the Const table of the given committed rows and number of constants.
pub open spec fn is_const_table<E, const D: usize>(
    t: (CircuitTableAir<E, D>, usize),
    packing: TablePacking,
    rows: Seq<u64>,
    count: nat,
) -> bool {
    &&& t.0 matches CircuitTableAir::Const(air)
    &&& air.height == count
    &&& air.preprocessed@ == rows
    &&& air.min_height == or_floor(packing.const_min_height, packing.min_trace_height)
    &&& t.1 == table_degree(count, air.min_height as nat)
}

/// Whether `t` is the Public table of the given committed rows, number of inputs and lanes.
pub open spec fn is_public_table<E, const D: usize>(
    t: (CircuitTableAir<E, D>, usize),
    packing: TablePacking,
    rows: Seq<u64>,
    count: nat,
    lanes: usize,
) -> bool {
    &&& t.0 matches CircuitTableAir::Public(air)
    &&& air.num_ops == count
    &&& air.lanes == lanes
    &&& air.preprocessed@ == rows
    &&& air.min_height == or_floor(packing.public_min_height, packing.min_trace_height)
    &&& t.1 == table_degree(ceil_div(count, lanes as nat), air.min_height as nat)
}

/// Whether `table` is what the ALU scheduler is given: the committed rows, the number of
/// operations they hold, the lanes, the multiplication and the Horner packing.
pub open spec fn is_alu_input<const D: usize>(
    table: AluTable<D>,
    field: FieldParams,
    packing: TablePacking,
    rows: Seq<u64>,
    lanes: usize,
) -> bool {
    &&& table.num_ops == rows.len() / ALU_ROW_WIDTH as nat
    &&& table.lanes == lanes
    &&& AluExtMulKind::resolved(D, field.binomial_w, D == 5 && field.quintic_trinomial) == Some(
        table.reduction,
    )
    &&& table.preprocessed@ == rows
    &&& table.horner_packed_steps == packing.horner_packed_steps
}

/// Whether `t` is the ALU table of the given input, scheduled into `entries` entries.
pub open spec fn is_alu_table<E, const D: usize>(
    t: (CircuitTableAir<E, D>, usize),
    packing: TablePacking,
    table: AluTable<D>,
    entries: usize,
) -> bool {
    &&& t.0 matches CircuitTableAir::Alu(air)
    &&& air.table == table
    &&& air.scheduled_entries == entries
    &&& air.min_height == or_floor(packing.alu_min_height, packing.min_trace_height)
    &&& t.1 == table_degree(ceil_div(entries as nat, table.lanes as nat), air.min_height as nat)
}

/// A valid packing's per-table heights fit, and so does the floor.
pub proof fn lemma_heights_fit(packing: TablePacking)
    requires
        packing.well_formed(),
        packing.valid(),
    ensures
        or_floor(packing.const_min_height, packing.min_trace_height) <= max_height(),
        or_floor(packing.public_min_height, packing.min_trace_height) <= max_height(),
        or_floor(packing.alu_min_height, packing.min_trace_height) <= max_height(),
{
    let a = named_height("CONST"@, packing.const_min_height);
    let b = named_height("PUBLIC"@, packing.public_min_height);
    let c = named_height("ALU"@, packing.alu_min_height);
    if let Some(h) = packing.const_min_height {
        assert(packing.overrides()[0] == ("CONST"@, h));
    }
    if let Some(h) = packing.public_min_height {
        assert(packing.overrides()[a.len() as int] == ("PUBLIC"@, h));
    }
    if let Some(h) = packing.alu_min_height {
        assert(packing.overrides()[(a + b).len() as int] == ("ALU"@, h));
    }
}

/// The Const table of the given committed rows, with its degree.
pub fn const_table<E, const D: usize>(packing: &TablePacking, rows: &Vec<u64>) -> (res: Result<
    (CircuitTableAir<E, D>, usize),
    CircuitError,
>)
    requires
        packing.well_formed(),
        packing.valid(),
        D <= usize::MAX - 2,
    ensures
        ({
            let count = rows@.len() / (2 + D) as nat;
            let min = or_floor(packing.const_min_height, packing.min_trace_height) as nat;
            match res {
                Ok(t) => !overflows(*packing, count, min) && is_const_table(
                    t,
                    *packing,
                    rows@,
                    count,
                ),
                Err(e) => overflows(*packing, count, min) && e.is_overflow(
                    "CONST"@,
                    padded(count),
                    padded(min),
                ),
            }
        }),
{
    let height: usize = rows.len() / (2 + D);
    proof {
        lemma_heights_fit(*packing);
        lemma_max_height();
        assert(height <= rows.len() / 2) by (nonlinear_arith)
            requires
                height == rows.len() as int / (2 + D as int),
                D >= 0,
                rows.len() >= 0,
        ;
    }
    let min_height: usize = packing.const_min_height.unwrap_or(packing.min_trace_height);
    let air = ConstAir::new_with_preprocessed(height, copy_values(rows)).with_min_height(
        min_height,
    );
    match compute_degree(packing, height, packing.const_min_height, "CONST") {
        Ok(degree) => Ok((CircuitTableAir::Const(air), degree)),
        Err(e) => Err(e),
    }
}

/// The Public table of the given committed rows and lanes, with its degree.
pub fn public_table<E, const D: usize>(
    packing: &TablePacking,
    rows: &Vec<u64>,
    lanes: usize,
) -> (res: Result<(CircuitTableAir<E, D>, usize), CircuitError>)
    requires
        packing.well_formed(),
        packing.valid(),
        lanes > 0,
    ensures
        ({
            let count = rows@.len() / 2;
            let height = ceil_div(count, lanes as nat);
            let min = or_floor(packing.public_min_height, packing.min_trace_height) as nat;
            match res {
                Ok(t) => !overflows(*packing, height, min) && is_public_table(
                    t,
                    *packing,
                    rows@,
                    count,
                    lanes,
                ),
                Err(e) => overflows(*packing, height, min) && e.is_overflow(
                    "PUBLIC"@,
                    padded(height),
                    padded(min),
                ),
            }
        }),
{
    let num_ops: usize = rows.len() / 2;
    proof {
        lemma_heights_fit(*packing);
        lemma_max_height();
    }
    let min_height: usize = packing.public_min_height.unwrap_or(packing.min_trace_height);
    let air = PublicAir::new_with_preprocessed(
        num_ops,
        lanes,
        copy_values(rows),
    ).with_min_height(min_height);
    let num_rows: usize = div_ceil(num_ops, lanes);
    match compute_degree(packing, num_rows, packing.public_min_height, "PUBLIC") {
        Ok(degree) => Ok((CircuitTableAir::Public(air), degree)),
        Err(e) => Err(e),
    }
}

/// What the ALU scheduler is given for the committed rows.
pub fn alu_input<const D: usize>(
    field: &FieldParams,
    packing: &TablePacking,
    rows: &Vec<u64>,
    lanes: usize,
) -> (res: AluTable<D>)
    requires
        AluExtMulKind::resolved(
            D,
            field.binomial_w,
            D == 5 && field.quintic_trinomial,
        ) is Some,
    ensures
        is_alu_input(res, *field, *packing, rows@, lanes),
{
    let reduction = AluExtMulKind::resolve(
        D,
        field.binomial_w,
        D == 5 && field.quintic_trinomial,
    ).unwrap();
    AluTable {
        num_ops: rows.len() / ALU_ROW_WIDTH,
        lanes,
        reduction,
        preprocessed: copy_values(rows),
        horner_packed_steps: packing.horner_packed_steps,
    }
}

/// The ALU table of the given operations, scheduled into `entries` entries, with its degree.
pub fn alu_table<E, const D: usize>(
    packing: &TablePacking,
    table: AluTable<D>,
    entries: usize,
) -> (res: Result<(CircuitTableAir<E, D>, usize), CircuitError>)
    requires
        packing.well_formed(),
        packing.valid(),
        table.lanes > 0,
        ceil_div(entries as nat, table.lanes as nat) <= max_height(),
    ensures
        ({
            let height = ceil_div(entries as nat, table.lanes as nat);
            let min = or_floor(packing.alu_min_height, packing.min_trace_height) as nat;
            match res {
                Ok(t) => !overflows(*packing, height, min) && is_alu_table(
                    t,
                    *packing,
                    table,
                    entries,
                ),
                Err(e) => overflows(*packing, height, min) && e.is_overflow(
                    "ALU"@,
                    padded(height),
                    padded(min),
                ),
            }
        }),
{
    proof {
        lemma_heights_fit(*packing);
    }
    let lanes: usize = table.lanes;
    let min_height: usize = packing.alu_min_height.unwrap_or(packing.min_trace_height);
    let air = AluAir::from_schedule(table, entries).with_min_height(min_height);
    let num_rows: usize = div_ceil(air.scheduled_entry_count(), lanes);
    match compute_degree(packing, num_rows, packing.alu_min_height, "ALU") {
        Ok(degree) => Ok((CircuitTableAir::Alu(air), degree)),
        Err(e) => Err(e),
    }
}

/// The circuit's primitive columns and what they are converted with.
pub struct PrimitiveInput<const D: usize> {
    /// Scaled indices of the constants.
    pub consts: Seq<u64>,
    /// Scaled indices of the public inputs.
    pub publics: Seq<u64>,
    /// The ALU operations.
    pub alu_ops: Seq<u64>,
    /// Values of the constants.
    pub const_values: Seq<[u64; D]>,
    /// How often each witness is read.
    pub ext_reads: Seq<u32>,
}

impl<const D: usize> PrimitiveInput<D> {
    /// Number of constants.
    pub open spec fn const_count(self) -> nat {
        const_count(self.consts.len(), self.const_values.len())
    }

    /// Lanes of the Public table: one, if it holds at most one input.
    pub open spec fn public_lanes(self, packing: TablePacking) -> usize {
        effective_lanes(self.publics.len() <= 1, packing.public_lanes)
    }

    /// Lanes of the ALU table: one, if it holds no operation.
    pub open spec fn alu_lanes(self, packing: TablePacking) -> usize {
        effective_lanes(self.alu_ops.len() == 0, packing.alu_lanes)
    }

    /// Rows of the Public table before padding.
    pub open spec fn public_height(self, packing: TablePacking) -> nat {
        ceil_div(self.publics.len(), self.public_lanes(packing) as nat)
    }

    /// Committed rows of the Const table.
    pub open spec fn const_rows(self, field: FieldParams) -> Seq<u64> {
        const_rows(field, self.ext_reads, self.consts, self.const_values)
    }

    /// Committed rows of the Public table.
    pub open spec fn public_rows(self, field: FieldParams) -> Seq<u64> {
        public_rows(field, self.ext_reads, self.publics, D)
    }

    /// Committed rows of the ALU table.
    pub open spec fn alu_rows(self, field: FieldParams) -> Seq<u64> {
        alu_rows(field, self.ext_reads, self.alu_ops, D)
    }

    /// Whether the Const table is rejected.
    pub open spec fn const_overflows(self, packing: TablePacking) -> bool {
        overflows(
            packing,
            self.const_count(),
            or_floor(packing.const_min_height, packing.min_trace_height) as nat,
        )
    }

    /// Whether the Public table is rejected.
    pub open spec fn public_overflows(self, packing: TablePacking) -> bool {
        overflows(
            packing,
            self.public_height(packing),
            or_floor(packing.public_min_height, packing.min_trace_height) as nat,
        )
    }

    /// Whether the ALU table is rejected once it is scheduled into `entries` entries.
    pub open spec fn alu_overflows(self, packing: TablePacking, entries: usize) -> bool {
        overflows(
            packing,
            ceil_div(entries as nat, self.alu_lanes(packing) as nat),
            or_floor(packing.alu_min_height, packing.min_trace_height) as nat,
        )
    }

    /// Whether the tables and their committed rows are those of this input, the ALU operations
    /// being scheduled into `entries` entries.
    pub open spec fn is_prepared<E>(
        self,
        field: FieldParams,
        packing: TablePacking,
        alu: AluTable<D>,
        entries: usize,
        tables: Seq<(CircuitTableAir<E, D>, usize)>,
        base_prep: Seq<Vec<u64>>,
    ) -> bool {
        &&& tables.len() == PRIMITIVE_TABLES
        &&& is_const_table(tables[0], packing, self.const_rows(field), self.const_count())
        &&& is_public_table(
            tables[1],
            packing,
            self.public_rows(field),
            self.publics.len(),
            self.public_lanes(packing),
        )
        &&& is_alu_table(tables[2], packing, alu, entries)
        &&& base_prep.len() == PRIMITIVE_TABLES
        &&& base_prep[0]@ == self.const_rows(field)
        &&& base_prep[1]@ == self.public_rows(field)
        &&& base_prep[2]@ == self.alu_rows(field)
    }

    /// What preparing the primitive tables gives: the overflow of the first table that outgrows
    /// its height, in the order Const, Public, ALU, or else the tables and their committed rows.
    /// `schedule` decides how many entries the ALU operations take.
    pub open spec fn outcome<E, S: Fn(&AluTable<D>) -> usize>(
        self,
        field: FieldParams,
        packing: TablePacking,
        schedule: S,
        result: Result<(Vec<(CircuitTableAir<E, D>, usize)>, Vec<Vec<u64>>), CircuitError>,
    ) -> bool {
        if self.const_overflows(packing) {
            result matches Err(e) && e.is_overflow(
                "CONST"@,
                padded(self.const_count()),
                padded(or_floor(packing.const_min_height, packing.min_trace_height) as nat),
            )
        } else if self.public_overflows(packing) {
            result matches Err(e) && e.is_overflow(
                "PUBLIC"@,
                padded(self.public_height(packing)),
                padded(or_floor(packing.public_min_height, packing.min_trace_height) as nat),
            )
        } else {
            exists|alu: AluTable<D>, entries: usize|
                {
                    &&& is_alu_input(
                        alu,
                        field,
                        packing,
                        self.alu_rows(field),
                        self.alu_lanes(packing),
                    )
                    &&& #[trigger] call_ensures(schedule, (&alu,), entries)
                    &&& if self.alu_overflows(packing, entries) {
                        result matches Err(e) && e.is_overflow(
                            "ALU"@,
                            padded(ceil_div(entries as nat, self.alu_lanes(packing) as nat)),
                            padded(
                                or_floor(packing.alu_min_height, packing.min_trace_height) as nat,
                            ),
                        )
                    } else {
                        result matches Ok(r) && self.is_prepared(
                            field,
                            packing,
                            alu,
                            entries,
                            r.0@,
                            r.1@,
                        )
                    }
                }
        }
    }
}

/// The primitive columns of `base`, with the values and reads given.
pub open spec fn primitive_input<const D: usize>(
    base: Seq<Vec<u64>>,
    const_values: Seq<[u64; D]>,
    ext_reads: Seq<u32>,
) -> PrimitiveInput<D> {
    PrimitiveInput {
        consts: base[0]@,
        publics: base[1]@,
        alu_ops: base[2]@,
        const_values,
        ext_reads,
    }
}

/// Whether a field has what the ALU table of degree `d` needs.
pub open spec fn alu_supported(field: FieldParams, d: usize) -> bool {
    AluExtMulKind::resolved(d, field.binomial_w, d == 5 && field.quintic_trinomial) is Some
}

/// The primitive tables with their degrees, and their committed rows.
pub fn primitive_tables<E, S: Fn(&AluTable<D>) -> usize, const D: usize>(
    field: &FieldParams,
    packing: &TablePacking,
    base: &Vec<Vec<u64>>,
    const_values: &Vec<[u64; D]>,
    ext_reads: &Vec<u32>,
    schedule: &S,
) -> (res: Result<(Vec<(CircuitTableAir<E, D>, usize)>, Vec<Vec<u64>>), CircuitError>)
    requires
        field.well_formed(),
        0 < D <= usize::MAX - 2,
        alu_supported(*field, D),
        packing.well_formed(),
        packing.valid(),
        base@.len() == PRIMITIVE_TABLES,
        base@[2]@.len() % ALU_OP_WIDTH as nat == 0,
        forall|alu: AluTable<D>| #[trigger] call_requires(*schedule, (&alu,)),
        forall|alu: AluTable<D>, entries: usize| #[trigger]
            call_ensures(*schedule, (&alu,), entries) && alu.lanes > 0 ==> ceil_div(
                entries as nat,
                alu.lanes as nat,
            ) <= max_height(),
    ensures
        primitive_input(base@, const_values@, ext_reads@).outcome(
            *field,
            *packing,
            *schedule,
            res,
        ),
{
    let ghost input = primitive_input(base@, const_values@, ext_reads@);
    let const_idx: usize = PrimitiveOpType::Const.index();
    let public_idx: usize = PrimitiveOpType::Public.index();
    let alu_idx: usize = PrimitiveOpType::Alu.index();
    let public_lanes: usize = public_table_lanes(packing, base[public_idx].len());
    let alu_lanes: usize = alu_table_lanes(packing, base[alu_idx].len());
    let mut tables: Vec<(CircuitTableAir<E, D>, usize)> = Vec::new();
    let mut base_prep: Vec<Vec<u64>> = Vec::new();

    let rows = to_const_rows(field, ext_reads, &base[const_idx], const_values);
    proof {
        vstd::arithmetic::div_mod::lemma_div_by_multiple(
            input.const_count() as int,
            2 + D as int,
        );
    }
    match const_table(packing, &rows) {
        Ok(t) => {
            tables.push(t);
        },
        Err(e) => {
            return Err(e);
        },
    }
    base_prep.push(rows);

    let rows = to_public_rows(field, ext_reads, &base[public_idx], D);
    match public_table(packing, &rows, public_lanes) {
        Ok(t) => {
            tables.push(t);
        },
        Err(e) => {
            return Err(e);
        },
    }
    base_prep.push(rows);

    let rows = to_alu_rows(field, ext_reads, &base[alu_idx], D);
    let alu: AluTable<D> = alu_input(field, packing, &rows, alu_lanes);
    let entries: usize = schedule(&alu);
    let ghost scheduled = alu;
    match alu_table(packing, alu, entries) {
        Ok(t) => {
            tables.push(t);
        },
        Err(e) => {
            assert(call_ensures(*schedule, (&scheduled,), entries));
            return Err(e);
        },
    }
    base_prep.push(rows);
    assert(call_ensures(*schedule, (&scheduled,), entries));
    Ok((tables, base_prep))
}

} // verus!
