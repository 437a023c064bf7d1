//! Preparation of the tables of a circuit: committed rows, table descriptions and degrees.
use crate::air::{AluTable, CircuitTableAir};
use crate::error::{CircuitError, ProofMetadataError};
use crate::field::FieldParams;
use crate::heights::{
    ceil_div, ceil_log2, lemma_padded_of_pow2, lemma_pow2_ordered, log2_ceil, max_height,
    next_power_of_two, padded,
};
use crate::npo::{
    all_required_built, build_npo_tables, check_required, chosen_ops, chosen_tables,
    columns_after, ends_in_overflow, is_builder_run, is_first_missing, is_plugin_result,
    is_plugin_run, list_required, merged_rows, npo_overflows, run_preprocessors, with_required,
    NpoTable, PluginStep,
};
use crate::npo_map::{lists_entries, NonPrimitivePreprocessedMap};
use crate::ops::{ConstraintProfile, NpoTypeId, PRIMITIVE_TABLES};
use crate::packing::{or_floor, TablePacking};
use crate::primitive::{
    all_base, alu_supported, base_column, base_columns, primitive_input, primitive_tables,
    PrimitiveInput,
};
use crate::rows::ALU_OP_WIDTH;
use vstd::prelude::*;

verus! {

/// Lane count of a table, reduced to 1 when the table holds only dummy data.
pub open spec fn effective_lanes(only_dummy: bool, configured_lanes: usize) -> usize {
    if only_dummy && configured_lanes > 1 {
        1
    } else {
        configured_lanes
    }
}

/// Force a table's lane count to 1 when it holds only dummy data.
///
/// Multi-lane padding interacts incorrectly with lookup constraints during recursive
/// verification when a table has no real operations. `_table` names the table.
pub fn reduce_lanes_if_dummy(_table: &str, only_dummy: bool, configured_lanes: usize) -> (res:
    usize)
    ensures
        res == effective_lanes(only_dummy, configured_lanes),
{
    if only_dummy && configured_lanes > 1 {
        1
    } else {
        configured_lanes
    }
}

/// Lanes of the Public table for the given number of public inputs: one, if there is at most one
/// input.
pub fn public_table_lanes(packing: &TablePacking, inputs: usize) -> (res: usize)
    ensures
        res == effective_lanes(inputs <= 1, packing.public_lanes),
{
    reduce_lanes_if_dummy("Public", inputs <= 1, packing.public_lanes)
}

/// Lanes of the ALU table for an ALU column of the given length: one, if there is no operation.
pub fn alu_table_lanes(packing: &TablePacking, column: usize) -> (res: usize)
    ensures
        res == effective_lanes(column == 0, packing.alu_lanes),
{
    reduce_lanes_if_dummy("ALU", column == 0, packing.alu_lanes)
}

/// A circuit's preprocessed columns, over the extension of degree `D`: each value by its
/// coefficients.
#[derive(Debug)]
pub struct PreprocessedColumns<const D: usize> {
    /// One column per primitive table, in the order of [`PrimitiveOpType`].
    pub primitive: Vec<Vec<[u64; D]>>,
    /// Values of the constants, in the order of the Const column.
    pub const_values: Vec<[u64; D]>,
    /// How often each witness is read.
    pub ext_reads: Vec<u32>,
}

impl<const D: usize> PreprocessedColumns<D> {
    /// There is a column for each primitive table, and the ALU column holds whole operations.
    pub open spec fn well_formed(self) -> bool {
        &&& self.primitive@.len() == PRIMITIVE_TABLES
        &&& self.primitive@[2]@.len() % ALU_OP_WIDTH as nat == 0
    }
}

/// Plug-in that prepares the rows of its own operations. `K` is the circuit.
pub trait NpoPreprocessor<K, const D: usize> {
    /// What the plug-in may do, from the circuit and the columns to new columns and a result:
    /// anything, unless it says more.
    open spec fn preprocess_outcome(
        &self,
        circuit: K,
        before: PreprocessedColumns<D>,
        after: PreprocessedColumns<D>,
        result: Result<NonPrimitivePreprocessedMap, CircuitError>,
    ) -> bool {
        true
    }

    /// Update the columns (reads, multiplicities) and return the rows of the plug-in's own
    /// operations.
    fn preprocess(&self, circuit: &K, preprocessed: &mut PreprocessedColumns<D>) -> (res: Result<
        NonPrimitivePreprocessedMap,
        CircuitError,
    >)
        ensures
            self.preprocess_outcome(*circuit, *old(preprocessed), *final(preprocessed), res),
    ;
}

/// Plug-in that builds the table of an operation, and its degree, from the operation's rows.
pub trait NpoAirBuilder<E, const D: usize> {
    /// Number of operations packed into a row, unless the packing sets another.
    fn lanes(&self) -> (res: usize)
        default_ensures
            res == 1,
    {
        1
    }

    /// The table and its degree, which is the logarithm of its height; `None` if the plug-in does
    /// not build tables for this operation.
    fn try_build(
        &self,
        op_type: &NpoTypeId,
        prep_base: &Vec<u64>,
        min_height: usize,
        lanes: usize,
        constraint_profile: ConstraintProfile,
    ) -> (res: Option<(CircuitTableAir<E, D>, usize)>)
        ensures
            res matches Some(table) ==> table.1 < usize::BITS,
    ;
}

/// Degree of a table: the logarithm of its height.
pub open spec fn table_degree(rows: nat, min_height: nat) -> nat {
    if ceil_log2(rows) >= ceil_log2(min_height) {
        ceil_log2(rows)
    } else {
        ceil_log2(min_height)
    }
}

/// Whether a table of `rows` rows is rejected: heights are strict and the rows do not fit.
pub open spec fn overflows(packing: TablePacking, rows: nat, min_height: nat) -> bool {
    packing.strict && padded(rows) > padded(min_height)
}

/// Degree of a table of `num_rows` rows: the rows padded up to a power of two, and to the
/// table's own height if it has one, or else to the global floor.
///
/// Under strict heights a table that outgrows that height is rejected.
pub fn compute_degree(
    packing: &TablePacking,
    num_rows: usize,
    table_override: Option<usize>,
    table_name: &str,
) -> (res: Result<usize, CircuitError>)
    requires
        num_rows <= max_height(),
        or_floor(table_override, packing.min_trace_height) <= max_height(),
    ensures
        ({
            let rows = num_rows as nat;
            let min = or_floor(table_override, packing.min_trace_height) as nat;
            match res {
                Ok(degree) => !overflows(*packing, rows, min) && degree == table_degree(rows, min),
                Err(e) => overflows(*packing, rows, min) && e.is_overflow(
                    table_name@,
                    padded(rows),
                    padded(min),
                ),
            }
        }),
{
    let min_height: usize = table_override.unwrap_or(packing.min_trace_height);
    let natural_height: usize = next_power_of_two(num_rows);
    let effective_min: usize = next_power_of_two(min_height);
    if packing.strict && natural_height > effective_min {
        return Err(
            CircuitError::from(
                ProofMetadataError::ProfileOverflow {
                    table: table_name.to_owned(),
                    needed: natural_height,
                    allowed: effective_min,
                },
            ),
        );
    }
    let height: usize = if natural_height >= effective_min {
        natural_height
    } else {
        effective_min
    };
    proof {
        lemma_pow2_ordered(ceil_log2(min_height as nat), ceil_log2(num_rows as nat));
        lemma_padded_of_pow2(ceil_log2(min_height as nat));
        lemma_padded_of_pow2(ceil_log2(num_rows as nat));
    }
    Ok(log2_ceil(height))
}

/// Tables with their degrees, committed rows of the primitive tables, and rows of the plug-in
/// operations.
pub type PrepOutput<E, const D: usize> = (
    Vec<(CircuitTableAir<E, D>, usize)>,
    Vec<Vec<u64>>,
    NonPrimitivePreprocessedMap,
);

/// What building the plug-in tables gives: the overflow of a table, the first required operation
/// without a table, or else the whole output. The operations are offered to the builders in some
/// order, the same for each of them.
pub open spec fn npo_outcome<E, B: NpoAirBuilder<E, D>, const D: usize>(
    packing: TablePacking,
    builders: Seq<B>,
    profile: ConstraintProfile,
    primitive: Seq<(CircuitTableAir<E, D>, usize)>,
    base_prep: Seq<Vec<u64>>,
    rows: Map<Seq<char>, Seq<u64>>,
    result: Result<PrepOutput<E, D>, CircuitError>,
) -> bool {
    exists|entries: Seq<(NpoTypeId, Vec<u64>)>, choices: Seq<Option<NpoTable<E, D>>>|
        {
            let complete = choices.len() == builders.len() && (choices.len() > 0
                ==> !npo_overflows(entries, packing, choices.last()));
            let built = chosen_ops(choices, entries);
            &&& #[trigger] lists_entries(rows, entries)
            &&& #[trigger] is_builder_run(builders, entries, packing, profile, choices)
            &&& match result {
                Ok(out) => {
                    &&& complete
                    &&& all_required_built(packing.required_npo@, built)
                    &&& out.0@ == primitive + chosen_tables(choices)
                    &&& out.1@ == base_prep
                    &&& out.2@ == rows
                },
                Err(e) => {
                    ||| ends_in_overflow(entries, packing, choices, e)
                    ||| complete && is_first_missing(packing.required_npo@, built, e)
                },
            }
        }
}

/// What preparing the tables gives once the plug-ins have run: `generated` are the columns of the
/// circuit, of which the primitive columns count, and `updated` those that the plug-ins left, of
/// which the reads and the constants count.
pub open spec fn tables_outcome<
    E,
    B: NpoAirBuilder<E, D>,
    S: Fn(&AluTable<D>) -> usize,
    const D: usize,
>(
    field: FieldParams,
    packing: TablePacking,
    builders: Seq<B>,
    profile: ConstraintProfile,
    schedule: S,
    generated: PreprocessedColumns<D>,
    updated: PreprocessedColumns<D>,
    plugin_rows: Map<Seq<char>, Seq<u64>>,
    result: Result<PrepOutput<E, D>, CircuitError>,
) -> bool {
    let input = PrimitiveInput {
        consts: base_column(generated.primitive@[0]@),
        publics: base_column(generated.primitive@[1]@),
        alu_ops: base_column(generated.primitive@[2]@),
        const_values: updated.const_values@,
        ext_reads: updated.ext_reads@,
    };
    exists|primitive: Result<(Vec<(CircuitTableAir<E, D>, usize)>, Vec<Vec<u64>>), CircuitError>|
        {
            &&& #[trigger] input.outcome(field, packing, schedule, primitive)
            &&& match primitive {
                Ok(p) => npo_outcome(
                    packing,
                    builders,
                    profile,
                    p.0@,
                    p.1@,
                    with_required(plugin_rows, packing.required_npo@),
                    result,
                ),
                Err(e) => result == Err::<PrepOutput<E, D>, _>(e),
            }
        }
}

/// What preparing the tables gives once the circuit has generated its columns.
pub open spec fn columns_outcome<
    K,
    E,
    P: NpoPreprocessor<K, D>,
    B: NpoAirBuilder<E, D>,
    S: Fn(&AluTable<D>) -> usize,
    const D: usize,
>(
    circuit: K,
    field: FieldParams,
    packing: TablePacking,
    preprocessors: Seq<P>,
    builders: Seq<B>,
    profile: ConstraintProfile,
    schedule: S,
    generated: PreprocessedColumns<D>,
    result: Result<PrepOutput<E, D>, CircuitError>,
) -> bool {
    if !all_base(generated.primitive@) {
        result == Err::<PrepOutput<E, D>, _>(CircuitError::InvalidPreprocessedValues)
    } else {
        exists|
            steps: Seq<PluginStep<D>>,
            plugins: Result<NonPrimitivePreprocessedMap, CircuitError>,
        |
            {
                &&& #[trigger] is_plugin_run(preprocessors, circuit, generated, steps)
                &&& #[trigger] is_plugin_result(preprocessors.len(), steps, plugins)
                &&& match plugins {
                    Ok(rows) => tables_outcome(
                        field,
                        packing,
                        builders,
                        profile,
                        schedule,
                        generated,
                        columns_after(generated, steps),
                        merged_rows(steps),
                        result,
                    ),
                    Err(e) => result == Err::<PrepOutput<E, D>, _>(e),
                }
            }
    }
}

/// What preparing the tables gives: the fault of the packing, before anything else is asked for;
/// the circuit's error, if it cannot generate its columns; or what follows from its columns.
pub open spec fn prep_outcome<
    K,
    E,
    P: NpoPreprocessor<K, D>,
    B: NpoAirBuilder<E, D>,
    G: Fn(&K) -> Result<PreprocessedColumns<D>, CircuitError>,
    S: Fn(&AluTable<D>) -> usize,
    const D: usize,
>(
    circuit: K,
    generate: G,
    field: FieldParams,
    packing: TablePacking,
    preprocessors: Seq<P>,
    builders: Seq<B>,
    profile: ConstraintProfile,
    schedule: S,
    result: Result<PrepOutput<E, D>, CircuitError>,
) -> bool {
    if !packing.valid() {
        exists|fault: ProofMetadataError|
            {
                &&& #[trigger] packing.is_first_fault(fault)
                &&& result == Err::<PrepOutput<E, D>, _>(CircuitError::InvalidPacking(fault))
            }
    } else {
        exists|generated: Result<PreprocessedColumns<D>, CircuitError>|
            {
                &&& #[trigger] call_ensures(generate, (&circuit,), generated)
                &&& match generated {
                    Ok(columns) => columns_outcome(
                        circuit,
                        field,
                        packing,
                        preprocessors,
                        builders,
                        profile,
                        schedule,
                        columns,
                        result,
                    ),
                    Err(e) => result == Err::<PrepOutput<E, D>, _>(e),
                }
            }
    }
}

/// The tables of a circuit with their degrees, the committed rows of the primitive tables, and
/// the rows of the plug-in operations.
///
/// `generate` gives the circuit's preprocessed columns, and `schedule` the number of entries
/// that the ALU operations are packed into.
pub fn get_airs_and_degrees_with_prep<
    K,
    E,
    P: NpoPreprocessor<K, D>,
    B: NpoAirBuilder<E, D>,
    G: Fn(&K) -> Result<PreprocessedColumns<D>, CircuitError>,
    S: Fn(&AluTable<D>) -> usize,
    const D: usize,
>(
    circuit: &K,
    generate: G,
    field: &FieldParams,
    packing: &TablePacking,
    non_primitive_preprocessors: &Vec<P>,
    non_primitive_air_builders: &Vec<B>,
    constraint_profile: ConstraintProfile,
    schedule: S,
) -> (res: Result<PrepOutput<E, D>, CircuitError>)
    requires
        field.well_formed(),
        0 < D <= usize::MAX - 2,
        packing.valid() ==> call_requires(generate, (circuit,)),
        forall|columns: PreprocessedColumns<D>| #[trigger]
            call_ensures(generate, (circuit,), Ok(columns)) && packing.valid()
                ==> columns.well_formed(),
        forall|columns: PreprocessedColumns<D>| #[trigger]
            call_ensures(generate, (circuit,), Ok(columns)) && packing.valid() && all_base(
                columns.primitive@,
            ) ==> packing.well_formed() && alu_supported(*field, D),
        forall|alu: AluTable<D>| #[trigger] call_requires(schedule, (&alu,)),
        forall|alu: AluTable<D>, entries: usize| #[trigger]
            call_ensures(schedule, (&alu,), entries) && alu.lanes > 0 ==> ceil_div(
                entries as nat,
                alu.lanes as nat,
            ) <= max_height(),
    ensures
        prep_outcome(
            *circuit,
            generate,
            *field,
            *packing,
            non_primitive_preprocessors@,
            non_primitive_air_builders@,
            constraint_profile,
            schedule,
            res,
        ),
{
    match packing.validate() {
        Ok(_) => {},
        Err(fault) => {
            return Err(CircuitError::from(fault));
        },
    }
    let mut preprocessed: PreprocessedColumns<D> = match generate(circuit) {
        Ok(columns) => columns,
        Err(e) => {
            return Err(e);
        },
    };
    let ghost generated = preprocessed;
    assert(call_ensures(generate, (circuit,), Ok(generated)));
    let base = match base_columns(&preprocessed.primitive) {
        Ok(base) => base,
        Err(e) => {
            return Err(e);
        },
    };
    let ghost steps: Seq<PluginStep<D>>;
    let plugins = run_preprocessors(circuit, non_primitive_preprocessors, &mut preprocessed);
    proof {
        steps = choose|steps: Seq<PluginStep<D>>|
            {
                &&& #[trigger] is_plugin_run(
                    non_primitive_preprocessors@,
                    *circuit,
                    generated,
                    steps,
                )
                &&& is_plugin_result(non_primitive_preprocessors@.len(), steps, plugins)
                &&& preprocessed == columns_after(generated, steps)
            };
    }
    let mut rows = match plugins {
        Ok(rows) => rows,
        Err(e) => {
            return Err(e);
        },
    };
    list_required(&mut rows, &packing.required_npo);

    let ghost input = primitive_input(
        base@,
        preprocessed.const_values@,
        preprocessed.ext_reads@,
    );
    let primitive: Result<
        (Vec<(CircuitTableAir<E, D>, usize)>, Vec<Vec<u64>>),
        CircuitError,
    > = primitive_tables(
        field,
        packing,
        &base,
        &preprocessed.const_values,
        &preprocessed.ext_reads,
        &schedule,
    );
    assert(input.outcome(*field, *packing, schedule, primitive));
    let (mut tables, base_prep) = match primitive {
        Ok(p) => p,
        Err(e) => {
            return Err(e);
        },
    };
    let entries = rows.entries();
    let built = match build_npo_tables(
        &entries,
        non_primitive_air_builders,
        packing,
        constraint_profile,
        &mut tables,
    ) {
        Ok(built) => built,
        Err(e) => {
            return Err(e);
        },
    };
    match check_required(&packing.required_npo, &built) {
        Ok(_) => {},
        Err(e) => {
            return Err(e);
        },
    }
    Ok((tables, base_prep, rows))
}

} // verus!
