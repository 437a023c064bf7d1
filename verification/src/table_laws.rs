//! What holds of every preparation of a circuit's tables.
use crate::air::{table_height, AluTable, CircuitTableAir};
use crate::common::{
    columns_outcome, effective_lanes, npo_outcome, overflows, prep_outcome, table_degree,
    tables_outcome, NpoAirBuilder, NpoPreprocessor, PrepOutput, PreprocessedColumns,
};
use crate::error::CircuitError;
use crate::field::FieldParams;
use crate::heights::{ceil_div, ceil_log2, lemma_pow2_ordered, padded};
use crate::npo::{
    all_required_built, chosen_ops, chosen_tables, columns_after, is_builder_run, is_plugin_result,
    is_plugin_run, may_build, merged_rows, names, npo_overflows, with_required, NpoTable,
    PluginStep,
};
use crate::npo_map::{lists_entries, NonPrimitivePreprocessedMap};
use crate::ops::{ConstraintProfile, NpoTypeId, PRIMITIVE_TABLES};
use crate::packing::{named_height, or_floor, TablePacking};
use crate::primitive::{all_base, base_column, is_alu_input, PrimitiveInput};
use crate::rows::{
    lemma_alu_rows_len, lemma_const_rows_len, lemma_public_rows_len, ALU_ROW_WIDTH,
};
use vstd::arithmetic::power2::pow2;
use vstd::prelude::*;

verus! {

/// How a successful preparation came about.
pub struct Preparation<E, const D: usize> {
    /// The circuit's columns.
    pub generated: PreprocessedColumns<D>,
    /// What each preprocessing plug-in left.
    pub steps: Seq<PluginStep<D>>,
    /// What the ALU scheduler was given.
    pub alu: AluTable<D>,
    /// The entries that it answered with.
    pub alu_entries: usize,
    /// The plug-in operations in the order in which they were offered to the builders.
    pub listed: Seq<(NpoTypeId, Vec<u64>)>,
    /// What each builder built.
    pub choices: Seq<Option<NpoTable<E, D>>>,
}

impl<E, const D: usize> Preparation<E, D> {
    /// The primitive columns, with the constants and reads that the plug-ins left.
    pub open spec fn input(self) -> PrimitiveInput<D> {
        let updated = columns_after(self.generated, self.steps);
        PrimitiveInput {
            consts: base_column(self.generated.primitive@[0]@),
            publics: base_column(self.generated.primitive@[1]@),
            alu_ops: base_column(self.generated.primitive@[2]@),
            const_values: updated.const_values@,
            ext_reads: updated.ext_reads@,
        }
    }

    /// Whether this preparation gives `out`.
    pub open spec fn gives(
        self,
        field: FieldParams,
        packing: TablePacking,
        out: PrepOutput<E, D>,
    ) -> bool {
        let input = self.input();
        let primitive = out.0@.take(PRIMITIVE_TABLES as int);
        &&& out.0@.len() >= PRIMITIVE_TABLES
        &&& out.0@ == primitive + chosen_tables(self.choices)
        &&& input.is_prepared(
            field,
            packing,
            self.alu,
            self.alu_entries,
            primitive,
            out.1@,
        )
        &&& is_alu_input(
            self.alu,
            field,
            packing,
            input.alu_rows(field),
            input.alu_lanes(packing),
        )
        &&& !input.const_overflows(packing)
        &&& !input.public_overflows(packing)
        &&& !input.alu_overflows(packing, self.alu_entries)
        &&& out.2@ == with_required(merged_rows(self.steps), packing.required_npo@)
        &&& lists_entries(out.2@, self.listed)
        &&& forall|k: int|
            0 <= k < self.choices.len() ==> !npo_overflows(
                self.listed,
                packing,
                #[trigger] self.choices[k],
            )
        &&& all_required_built(packing.required_npo@, chosen_ops(self.choices, self.listed))
    }
}

/// The columns, or the error, that the circuit generated in a preparation with a valid packing.
pub proof fn lemma_generated<
    K,
    E,
    P: NpoPreprocessor<K, D>,
    B: NpoAirBuilder<E, D>,
    G: Fn(&K) -> Result<PreprocessedColumns<D>, CircuitError>,
    S: Fn(&AluTable<D>) -> usize,
    const D: usize,
>(
    circuit: K,
    generate: G,
    field: FieldParams,
    packing: TablePacking,
    preprocessors: Seq<P>,
    builders: Seq<B>,
    profile: ConstraintProfile,
    schedule: S,
    result: Result<PrepOutput<E, D>, CircuitError>,
) -> (generated: Result<PreprocessedColumns<D>, CircuitError>)
    requires
        prep_outcome(
            circuit,
            generate,
            field,
            packing,
            preprocessors,
            builders,
            profile,
            schedule,
            result,
        ),
        packing.valid(),
    ensures
        call_ensures(generate, (&circuit,), generated),
        match generated {
            Ok(columns) => columns_outcome(
                circuit,
                field,
                packing,
                preprocessors,
                builders,
                profile,
                schedule,
                columns,
                result,
            ),
            Err(e) => result == Err::<PrepOutput<E, D>, _>(e),
        },
{
    choose|generated: Result<PreprocessedColumns<D>, CircuitError>|
        {
            &&& #[trigger] call_ensures(generate, (&circuit,), generated)
            &&& match generated {
                Ok(columns) => columns_outcome(
                    circuit,
                    field,
                    packing,
                    preprocessors,
                    builders,
                    profile,
                    schedule,
                    columns,
                    result,
                ),
                Err(e) => result == Err::<PrepOutput<E, D>, _>(e),
            }
        }
}

/// Whether the circuit's columns lie in the base field and every plug-in succeeded.
#[verifier::opaque]
pub open spec fn run_is_sound<const D: usize>(
    generated: PreprocessedColumns<D>,
    steps: Seq<PluginStep<D>>,
) -> bool {
    &&& all_base(generated.primitive@)
    &&& forall|i: int| 0 <= i < steps.len() ==> (#[trigger] steps[i]).1 is Ok
}

/// The run of the plug-ins in a preparation whose columns lie in the base field, and its result.
pub proof fn lemma_plugin_run<
    K,
    E,
    P: NpoPreprocessor<K, D>,
    B: NpoAirBuilder<E, D>,
    S: Fn(&AluTable<D>) -> usize,
    const D: usize,
>(
    circuit: K,
    field: FieldParams,
    packing: TablePacking,
    preprocessors: Seq<P>,
    builders: Seq<B>,
    profile: ConstraintProfile,
    schedule: S,
    columns: PreprocessedColumns<D>,
    result: Result<PrepOutput<E, D>, CircuitError>,
) -> (run: (Seq<PluginStep<D>>, Result<NonPrimitivePreprocessedMap, CircuitError>))
    requires
        columns_outcome(
            circuit,
            field,
            packing,
            preprocessors,
            builders,
            profile,
            schedule,
            columns,
            result,
        ),
        all_base(columns.primitive@),
    ensures
        is_plugin_run(preprocessors, circuit, columns, run.0),
        is_plugin_result(preprocessors.len(), run.0, run.1),
        run.1 is Ok ==> run_is_sound(columns, run.0),
        match run.1 {
            Ok(rows) => tables_outcome(
                field,
                packing,
                builders,
                profile,
                schedule,
                columns,
                columns_after(columns, run.0),
                merged_rows(run.0),
                result,
            ),
            Err(e) => result == Err::<PrepOutput<E, D>, _>(e),
        },
{
    let run = choose|
        steps: Seq<PluginStep<D>>,
        plugins: Result<NonPrimitivePreprocessedMap, CircuitError>,
    |
        {
            &&& #[trigger] is_plugin_run(preprocessors, circuit, columns, steps)
            &&& #[trigger] is_plugin_result(preprocessors.len(), steps, plugins)
            &&& match plugins {
                Ok(rows) => tables_outcome(
                    field,
                    packing,
                    builders,
                    profile,
                    schedule,
                    columns,
                    columns_after(columns, steps),
                    merged_rows(steps),
                    result,
                ),
                Err(e) => result == Err::<PrepOutput<E, D>, _>(e),
            }
        };
    assert(run.1 is Ok ==> run_is_sound(columns, run.0)) by {
        reveal(run_is_sound);
        assert(run.0.len() > 0 ==> run.0[run.0.len() - 1] == run.0.last());
    }
    run
}

/// Every successful preparation goes through the steps of a [`Preparation`].
pub proof fn law_success_is_a_preparation<
    K,
    E,
    P: NpoPreprocessor<K, D>,
    B: NpoAirBuilder<E, D>,
    G: Fn(&K) -> Result<PreprocessedColumns<D>, CircuitError>,
    S: Fn(&AluTable<D>) -> usize,
    const D: usize,
>(
    circuit: K,
    generate: G,
    field: FieldParams,
    packing: TablePacking,
    preprocessors: Seq<P>,
    builders: Seq<B>,
    profile: ConstraintProfile,
    schedule: S,
    out: PrepOutput<E, D>,
) -> (prep: Preparation<E, D>)
    requires
        prep_outcome(
            circuit,
            generate,
            field,
            packing,
            preprocessors,
            builders,
            profile,
            schedule,
            Ok(out),
        ),
    ensures
        packing.valid(),
        call_ensures(generate, (&circuit,), Ok(prep.generated)),
        run_is_sound(prep.generated, prep.steps),
        is_plugin_run(preprocessors, circuit, prep.generated, prep.steps),
        prep.steps.len() == preprocessors.len(),
        call_ensures(schedule, (&prep.alu,), prep.alu_entries),
        is_builder_run(builders, prep.listed, packing, profile, prep.choices),
        prep.choices.len() == builders.len(),
        prep.gives(field, packing, out),
{
    let generated = lemma_generated(
        circuit,
        generate,
        field,
        packing,
        preprocessors,
        builders,
        profile,
        schedule,
        Ok(out),
    );
    let columns = generated->Ok_0;
    let (steps, plugins) = lemma_plugin_run(
        circuit,
        field,
        packing,
        preprocessors,
        builders,
        profile,
        schedule,
        columns,
        Ok(out),
    );
    let updated = columns_after(columns, steps);
    let input = PrimitiveInput {
        consts: base_column(columns.primitive@[0]@),
        publics: base_column(columns.primitive@[1]@),
        alu_ops: base_column(columns.primitive@[2]@),
        const_values: updated.const_values@,
        ext_reads: updated.ext_reads@,
    };
    let rows = with_required(merged_rows(steps), packing.required_npo@);
    let primitive = choose|
        primitive: Result<(Vec<(CircuitTableAir<E, D>, usize)>, Vec<Vec<u64>>), CircuitError>,
    |
        {
            &&& #[trigger] input.outcome(field, packing, schedule, primitive)
            &&& match primitive {
                Ok(p) => npo_outcome(
                    packing,
                    builders,
                    profile,
                    p.0@,
                    p.1@,
                    rows,
                    Ok::<PrepOutput<E, D>, CircuitError>(out),
                ),
                Err(e) => false,
            }
        };
    let tables = primitive->Ok_0;
    let (alu, alu_entries) = choose|alu: AluTable<D>, entries: usize|
        {
            &&& is_alu_input(
                alu,
                field,
                packing,
                input.alu_rows(field),
                input.alu_lanes(packing),
            )
            &&& #[trigger] call_ensures(schedule, (&alu,), entries)
            &&& !input.alu_overflows(packing, entries)
            &&& input.is_prepared(field, packing, alu, entries, tables.0@, tables.1@)
        };
    let (listed, choices) = choose|
        entries: Seq<(NpoTypeId, Vec<u64>)>,
        choices: Seq<Option<NpoTable<E, D>>>,
    |
        {
            &&& #[trigger] lists_entries(rows, entries)
            &&& #[trigger] is_builder_run(builders, entries, packing, profile, choices)
            &&& choices.len() == builders.len()
            &&& choices.len() > 0 ==> !npo_overflows(entries, packing, choices.last())
            &&& all_required_built(packing.required_npo@, chosen_ops(choices, entries))
            &&& out.0@ == tables.0@ + chosen_tables(choices)
            &&& out.1@ == tables.1@
            &&& out.2@ == rows
        };
    assert(out.0@.take(PRIMITIVE_TABLES as int) =~= tables.0@);
    Preparation { generated: columns, steps, alu, alu_entries, listed, choices }
}

/// Whether one of the builders built `table` for a listed operation, and no taller than the
/// configured height of that operation.
pub open spec fn built_within_height<E, B: NpoAirBuilder<E, D>, const D: usize>(
    builders: Seq<B>,
    packing: TablePacking,
    profile: ConstraintProfile,
    rows: Map<Seq<char>, Seq<u64>>,
    table: (CircuitTableAir<E, D>, usize),
) -> bool {
    exists|k: int, entry: (NpoTypeId, Vec<u64>)|
        {
            &&& 0 <= k < builders.len()
            &&& rows.dom().contains(entry.0@)
            &&& rows[entry.0@] == entry.1@
            &&& #[trigger] may_build(builders[k], entry, packing, profile, Some(table))
            &&& pow2(table.1 as nat) <= padded(packing.npo_height(entry.0@) as nat)
        }
}

/// The degree of a table is the logarithm of its height.
pub proof fn lemma_degree_of_height(rows: nat, min_height: nat)
    ensures
        pow2(table_degree(rows, min_height)) == table_height(rows, min_height),
{
    lemma_pow2_ordered(ceil_log2(min_height), ceil_log2(rows));
}

/// Every table among the choices is the choice of some builder.
proof fn lemma_chosen_table_has_choice<E, const D: usize>(
    choices: Seq<Option<NpoTable<E, D>>>,
    t: int,
) -> (k: int)
    requires
        0 <= t < chosen_tables(choices).len(),
    ensures
        0 <= k < choices.len(),
        choices[k] is Some,
        chosen_tables(choices)[t] == choices[k]->Some_0.1,
    decreases choices.len(),
{
    let before = chosen_tables(choices.drop_last());
    if t < before.len() {
        lemma_chosen_table_has_choice(choices.drop_last(), t)
    } else {
        choices.len() - 1
    }
}

/// The degree that is returned for a primitive table is the logarithm of the height of the trace
/// that the table itself builds.
pub proof fn law_degree_is_trace_height<
    K,
    E,
    P: NpoPreprocessor<K, D>,
    B: NpoAirBuilder<E, D>,
    G: Fn(&K) -> Result<PreprocessedColumns<D>, CircuitError>,
    S: Fn(&AluTable<D>) -> usize,
    const D: usize,
>(
    circuit: K,
    generate: G,
    field: FieldParams,
    packing: TablePacking,
    preprocessors: Seq<P>,
    builders: Seq<B>,
    profile: ConstraintProfile,
    schedule: S,
    out: PrepOutput<E, D>,
)
    requires
        prep_outcome(
            circuit,
            generate,
            field,
            packing,
            preprocessors,
            builders,
            profile,
            schedule,
            Ok(out),
        ),
    ensures
        out.0@.len() >= PRIMITIVE_TABLES,
        forall|i: int|
            0 <= i < PRIMITIVE_TABLES ==> {
                &&& (#[trigger] out.0@[i]).0.primitive_rows() matches Some(p)
                &&& pow2(out.0@[i].1 as nat) == table_height(p.0, p.1)
            },
{
    let prep = law_success_is_a_preparation(
        circuit,
        generate,
        field,
        packing,
        preprocessors,
        builders,
        profile,
        schedule,
        out,
    );
    let primitive = out.0@.take(PRIMITIVE_TABLES as int);
    assert forall|i: int| 0 <= i < PRIMITIVE_TABLES implies {
        &&& (#[trigger] out.0@[i]).0.primitive_rows() matches Some(p)
        &&& pow2(out.0@[i].1 as nat) == table_height(p.0, p.1)
    } by {
        assert(out.0@[i] == primitive[i]);
        let p = primitive[i].0.primitive_rows()->Some_0;
        lemma_degree_of_height(p.0, p.1);
    }
}

/// The first three tables are Const, Public and ALU. Each has the height that its own setting asks
/// for, or else the floor, or the height that its rows need, if that is more; the setting of one
/// table has no influence on another.
pub proof fn law_primitive_heights<
    K,
    E,
    P: NpoPreprocessor<K, D>,
    B: NpoAirBuilder<E, D>,
    G: Fn(&K) -> Result<PreprocessedColumns<D>, CircuitError>,
    S: Fn(&AluTable<D>) -> usize,
    const D: usize,
>(
    circuit: K,
    generate: G,
    field: FieldParams,
    packing: TablePacking,
    preprocessors: Seq<P>,
    builders: Seq<B>,
    profile: ConstraintProfile,
    schedule: S,
    out: PrepOutput<E, D>,
)
    requires
        prep_outcome(
            circuit,
            generate,
            field,
            packing,
            preprocessors,
            builders,
            profile,
            schedule,
            Ok(out),
        ),
    ensures
        ({
            let floor = packing.min_trace_height;
            &&& out.0@.len() >= PRIMITIVE_TABLES
            &&& out.0@[0].0 matches CircuitTableAir::Const(air)
            &&& pow2(out.0@[0].1 as nat) == table_height(
                air.rows(),
                or_floor(packing.const_min_height, floor) as nat,
            )
            &&& out.0@[1].0 matches CircuitTableAir::Public(air)
            &&& pow2(out.0@[1].1 as nat) == table_height(
                air.rows(),
                or_floor(packing.public_min_height, floor) as nat,
            )
            &&& out.0@[2].0 matches CircuitTableAir::Alu(air)
            &&& pow2(out.0@[2].1 as nat) == table_height(
                air.rows(),
                or_floor(packing.alu_min_height, floor) as nat,
            )
        }),
{
    let prep = law_success_is_a_preparation(
        circuit,
        generate,
        field,
        packing,
        preprocessors,
        builders,
        profile,
        schedule,
        out,
    );
    let primitive = out.0@.take(PRIMITIVE_TABLES as int);
    assert forall|i: int| 0 <= i < PRIMITIVE_TABLES implies #[trigger] out.0@[i] == primitive[i]
        && pow2(out.0@[i].1 as nat) == table_height(
        primitive[i].0.primitive_rows()->Some_0.0,
        primitive[i].0.primitive_rows()->Some_0.1,
    ) by {
        let p = primitive[i].0.primitive_rows()->Some_0;
        lemma_degree_of_height(p.0, p.1);
    }
}

/// Under strict heights every primitive table has exactly the height that it is configured to,
/// padded to a power of two, and no plug-in table is taller than its own.
pub proof fn law_strict_heights_are_met<
    K,
    E,
    P: NpoPreprocessor<K, D>,
    B: NpoAirBuilder<E, D>,
    G: Fn(&K) -> Result<PreprocessedColumns<D>, CircuitError>,
    S: Fn(&AluTable<D>) -> usize,
    const D: usize,
>(
    circuit: K,
    generate: G,
    field: FieldParams,
    packing: TablePacking,
    preprocessors: Seq<P>,
    builders: Seq<B>,
    profile: ConstraintProfile,
    schedule: S,
    out: PrepOutput<E, D>,
)
    requires
        prep_outcome(
            circuit,
            generate,
            field,
            packing,
            preprocessors,
            builders,
            profile,
            schedule,
            Ok(out),
        ),
        packing.strict,
    ensures
        pow2(out.0@[0].1 as nat) == padded(
            or_floor(packing.const_min_height, packing.min_trace_height) as nat,
        ),
        pow2(out.0@[1].1 as nat) == padded(
            or_floor(packing.public_min_height, packing.min_trace_height) as nat,
        ),
        pow2(out.0@[2].1 as nat) == padded(
            or_floor(packing.alu_min_height, packing.min_trace_height) as nat,
        ),
        forall|i: int|
            PRIMITIVE_TABLES <= i < out.0@.len() ==> built_within_height(
                builders,
                packing,
                profile,
                out.2@,
                #[trigger] out.0@[i],
            ),
{
    let prep = law_success_is_a_preparation(
        circuit,
        generate,
        field,
        packing,
        preprocessors,
        builders,
        profile,
        schedule,
        out,
    );
    let primitive = out.0@.take(PRIMITIVE_TABLES as int);
    assert forall|i: int| 0 <= i < PRIMITIVE_TABLES implies #[trigger] out.0@[i] == primitive[i]
        && pow2(out.0@[i].1 as nat) == table_height(
        primitive[i].0.primitive_rows()->Some_0.0,
        primitive[i].0.primitive_rows()->Some_0.1,
    ) by {
        let p = primitive[i].0.primitive_rows()->Some_0;
        lemma_degree_of_height(p.0, p.1);
    }
    assert(out.0@[0] == primitive[0] && out.0@[1] == primitive[1] && out.0@[2] == primitive[2]);
    assert forall|i: int| PRIMITIVE_TABLES <= i < out.0@.len() implies built_within_height(
        builders,
        packing,
        profile,
        out.2@,
        #[trigger] out.0@[i],
    ) by {
        let t = i - PRIMITIVE_TABLES;
        assert(out.0@[i] == chosen_tables(prep.choices)[t]);
        let k = lemma_chosen_table_has_choice(prep.choices, t);
        let entry = prep.listed[prep.choices[k]->Some_0.0];
        assert(!npo_overflows(prep.listed, packing, prep.choices[k]));
        assert(may_build(builders[k], entry, packing, profile, Some(out.0@[i])));
    }
}

/// A misconfigured packing is rejected whatever the circuit and the plug-ins are, with the first
/// fault of its heights.
pub proof fn law_invalid_packing_is_rejected_first<
    K,
    E,
    P: NpoPreprocessor<K, D>,
    B: NpoAirBuilder<E, D>,
    G: Fn(&K) -> Result<PreprocessedColumns<D>, CircuitError>,
    S: Fn(&AluTable<D>) -> usize,
    const D: usize,
>(
    circuit: K,
    generate: G,
    field: FieldParams,
    packing: TablePacking,
    preprocessors: Seq<P>,
    builders: Seq<B>,
    profile: ConstraintProfile,
    schedule: S,
    result: Result<PrepOutput<E, D>, CircuitError>,
)
    requires
        prep_outcome(
            circuit,
            generate,
            field,
            packing,
            preprocessors,
            builders,
            profile,
            schedule,
            result,
        ),
        !packing.valid(),
    ensures
        result matches Err(CircuitError::InvalidPacking(fault)) && packing.is_first_fault(fault),
{
}

/// A per-table height below the floor, or one that is not a power of two, is never accepted: the
/// packing is not valid.
pub proof fn law_faulty_height_invalidates_packing(packing: TablePacking, height: usize)
    requires
        ({
            ||| packing.const_min_height == Some(height)
            ||| packing.public_min_height == Some(height)
            ||| packing.alu_min_height == Some(height)
            ||| exists|i: int|
                0 <= i < packing.npo_min_heights@.len() && (#[trigger] packing.npo_min_heights@[i]).1
                    == height
        }),
        height < packing.min_trace_height || forall|k: nat| height != #[trigger] pow2(k),
    ensures
        !packing.valid(),
{
    let a = named_height("CONST"@, packing.const_min_height);
    let b = named_height("PUBLIC"@, packing.public_min_height);
    let c = named_height("ALU"@, packing.alu_min_height);
    let all = packing.overrides();
    let at: int = if packing.const_min_height == Some(height) {
        0
    } else if packing.public_min_height == Some(height) {
        a.len() as int
    } else if packing.alu_min_height == Some(height) {
        (a + b).len() as int
    } else {
        let i = choose|i: int|
            0 <= i < packing.npo_min_heights@.len() && (#[trigger] packing.npo_min_heights@[i]).1
                == height;
        (a + b + c).len() + i
    };
    assert(0 <= at < all.len() && all[at].1 == height);
    assert(padded(height as nat) == pow2(ceil_log2(height as nat)));
}

/// Without strict heights no table is rejected for its height: once the columns are there and the
/// plug-ins have run, only a required operation without a table is an error.
pub proof fn law_without_strict_heights_tables_are_padded_up<
    E,
    B: NpoAirBuilder<E, D>,
    S: Fn(&AluTable<D>) -> usize,
    const D: usize,
>(
    field: FieldParams,
    packing: TablePacking,
    builders: Seq<B>,
    profile: ConstraintProfile,
    schedule: S,
    generated: PreprocessedColumns<D>,
    updated: PreprocessedColumns<D>,
    plugin_rows: Map<Seq<char>, Seq<u64>>,
    result: Result<PrepOutput<E, D>, CircuitError>,
)
    requires
        tables_outcome(
            field,
            packing,
            builders,
            profile,
            schedule,
            generated,
            updated,
            plugin_rows,
            result,
        ),
        !packing.strict,
    ensures
        result matches Err(e) ==> exists|i: int|
            0 <= i < packing.required_npo@.len() && e.is_missing_table(
                (#[trigger] packing.required_npo@[i])@,
            ),
{
}

/// Whether the first three tables are Const, Public and ALU, and each has the degree and the trace
/// height of its rows, padded to a power of two, and of its own setting or else the floor, padded
/// likewise, whichever is more. The rows are one per constant; one per `lanes` public inputs; and one
/// per `lanes` of the `alu_entries` entries that the ALU operations are scheduled into. Lanes are the
/// configured ones, but a single one for at most one public input, and for no ALU operation.
pub open spec fn has_primitive_heights<E, const D: usize>(
    packing: TablePacking,
    input: PrimitiveInput<D>,
    alu_entries: usize,
    tables: Seq<(CircuitTableAir<E, D>, usize)>,
) -> bool {
    let floor = packing.min_trace_height;
    let rows = seq![
        input.const_count(),
        ceil_div(
            input.publics.len(),
            effective_lanes(input.publics.len() <= 1, packing.public_lanes) as nat,
        ),
        ceil_div(
            alu_entries as nat,
            effective_lanes(input.alu_ops.len() == 0, packing.alu_lanes) as nat,
        ),
    ];
    let min = seq![
        or_floor(packing.const_min_height, floor) as nat,
        or_floor(packing.public_min_height, floor) as nat,
        or_floor(packing.alu_min_height, floor) as nat,
    ];
    &&& tables.len() >= PRIMITIVE_TABLES
    &&& tables[0].0 is Const
    &&& tables[1].0 is Public
    &&& tables[2].0 is Alu
    &&& forall|i: int|
        0 <= i < PRIMITIVE_TABLES ==> {
            &&& pow2((#[trigger] tables[i]).1 as nat) == table_height(rows[i], min[i])
            &&& tables[i].0.primitive_rows() matches Some(own)
            &&& table_height(own.0, own.1) == table_height(rows[i], min[i])
        }
}

/// The primitive tables of a successful preparation have the heights of their rows and settings.
pub proof fn law_heights_follow_rows_and_settings<
    K,
    E,
    P: NpoPreprocessor<K, D>,
    B: NpoAirBuilder<E, D>,
    G: Fn(&K) -> Result<PreprocessedColumns<D>, CircuitError>,
    S: Fn(&AluTable<D>) -> usize,
    const D: usize,
>(
    circuit: K,
    generate: G,
    field: FieldParams,
    packing: TablePacking,
    preprocessors: Seq<P>,
    builders: Seq<B>,
    profile: ConstraintProfile,
    schedule: S,
    out: PrepOutput<E, D>,
)
    requires
        prep_outcome(
            circuit,
            generate,
            field,
            packing,
            preprocessors,
            builders,
            profile,
            schedule,
            Ok(out),
        ),
    ensures
        exists|prep: Preparation<E, D>|
            {
                &&& call_ensures(generate, (&circuit,), Ok(prep.generated))
                &&& call_ensures(schedule, (&prep.alu,), prep.alu_entries)
                &&& #[trigger] prep.gives(field, packing, out)
                &&& has_primitive_heights(packing, prep.input(), prep.alu_entries, out.0@)
            },
{
    let prep = law_success_is_a_preparation(
        circuit,
        generate,
        field,
        packing,
        preprocessors,
        builders,
        profile,
        schedule,
        out,
    );
    let primitive = out.0@.take(PRIMITIVE_TABLES as int);
    assert forall|i: int| 0 <= i < PRIMITIVE_TABLES implies #[trigger] out.0@[i] == primitive[i]
        && pow2(out.0@[i].1 as nat) == table_height(
        primitive[i].0.primitive_rows()->Some_0.0,
        primitive[i].0.primitive_rows()->Some_0.1,
    ) by {
        let p = primitive[i].0.primitive_rows()->Some_0;
        lemma_degree_of_height(p.0, p.1);
    }
    assert(has_primitive_heights(packing, prep.input(), prep.alu_entries, out.0@));
}

/// Whether one of the plug-ins can fail with `e`.
pub open spec fn plugin_may_fail<K, P: NpoPreprocessor<K, D>, const D: usize>(
    circuit: K,
    preprocessors: Seq<P>,
    e: CircuitError,
) -> bool {
    exists|i: int, before: PreprocessedColumns<D>, after: PreprocessedColumns<D>|
        0 <= i < preprocessors.len() && #[trigger] preprocessors[i].preprocess_outcome(
            circuit,
            before,
            after,
            Err(e),
        )
}

/// Without strict heights no table is rejected for its height, and every primitive table of a
/// success has the height of its rows and settings: an overflow can only be an error of the circuit
/// or of a plug-in themselves, which is passed on.
pub proof fn law_without_strict_heights_nothing_overflows<
    K,
    E,
    P: NpoPreprocessor<K, D>,
    B: NpoAirBuilder<E, D>,
    G: Fn(&K) -> Result<PreprocessedColumns<D>, CircuitError>,
    S: Fn(&AluTable<D>) -> usize,
    const D: usize,
>(
    circuit: K,
    generate: G,
    field: FieldParams,
    packing: TablePacking,
    preprocessors: Seq<P>,
    builders: Seq<B>,
    profile: ConstraintProfile,
    schedule: S,
    result: Result<PrepOutput<E, D>, CircuitError>,
)
    requires
        prep_outcome(
            circuit,
            generate,
            field,
            packing,
            preprocessors,
            builders,
            profile,
            schedule,
            result,
        ),
        !packing.strict,
    ensures
        match result {
            Ok(out) => exists|prep: Preparation<E, D>|
                {
                    &&& call_ensures(generate, (&circuit,), Ok(prep.generated))
                    &&& call_ensures(schedule, (&prep.alu,), prep.alu_entries)
                    &&& #[trigger] prep.gives(field, packing, out)
                    &&& has_primitive_heights(packing, prep.input(), prep.alu_entries, out.0@)
                },
            Err(e) => e is ProfileOverflow ==> {
                ||| call_ensures(generate, (&circuit,), Err(e))
                ||| plugin_may_fail(circuit, preprocessors, e)
            },
        },
{
    if let Ok(out) = result {
        law_heights_follow_rows_and_settings(
            circuit,
            generate,
            field,
            packing,
            preprocessors,
            builders,
            profile,
            schedule,
            out,
        );
    } else if packing.valid() {
        let generated = lemma_generated(
            circuit,
            generate,
            field,
            packing,
            preprocessors,
            builders,
            profile,
            schedule,
            result,
        );
        if generated is Ok && all_base(generated->Ok_0.primitive@) {
            let columns = generated->Ok_0;
            let (steps, plugins) = lemma_plugin_run(
                circuit,
                field,
                packing,
                preprocessors,
                builders,
                profile,
                schedule,
                columns,
                result,
            );
            if plugins is Ok {
                law_without_strict_heights_tables_are_padded_up(
                    field,
                    packing,
                    builders,
                    profile,
                    schedule,
                    columns,
                    columns_after(columns, steps),
                    merged_rows(steps),
                    result,
                );
            } else {
                let last = steps.len() - 1;
                assert(preprocessors[last].preprocess_outcome(
                    circuit,
                    columns_after(columns, steps.take(last)),
                    steps[last].0,
                    steps[last].1,
                ));
                assert(steps[last].1 == Err::<NonPrimitivePreprocessedMap, _>(result->Err_0));
            }
        }
    }
}

/// The committed rows that are returned for the primitive tables are those that the tables
/// themselves hold, and come in whole rows: `D + 2` values per constant, 2 per public input, and 13
/// per ALU operation.
pub proof fn law_committed_rows_agree<
    K,
    E,
    P: NpoPreprocessor<K, D>,
    B: NpoAirBuilder<E, D>,
    G: Fn(&K) -> Result<PreprocessedColumns<D>, CircuitError>,
    S: Fn(&AluTable<D>) -> usize,
    const D: usize,
>(
    circuit: K,
    generate: G,
    field: FieldParams,
    packing: TablePacking,
    preprocessors: Seq<P>,
    builders: Seq<B>,
    profile: ConstraintProfile,
    schedule: S,
    out: PrepOutput<E, D>,
)
    requires
        prep_outcome(
            circuit,
            generate,
            field,
            packing,
            preprocessors,
            builders,
            profile,
            schedule,
            Ok(out),
        ),
        forall|columns: PreprocessedColumns<D>| #[trigger]
            call_ensures(generate, (&circuit,), Ok(columns)) && packing.valid()
                ==> columns.well_formed(),
    ensures
        out.0@.len() >= PRIMITIVE_TABLES,
        out.1@.len() == PRIMITIVE_TABLES,
        out.0@[0].0 matches CircuitTableAir::Const(air) && air.preprocessed@ == out.1@[0]@
            && out.1@[0]@.len() == air.height * (2 + D),
        out.0@[1].0 matches CircuitTableAir::Public(air) && air.preprocessed@ == out.1@[1]@
            && out.1@[1]@.len() == air.num_ops * 2,
        out.0@[2].0 matches CircuitTableAir::Alu(air) && air.table.preprocessed@ == out.1@[2]@
            && out.1@[2]@.len() == air.table.num_ops * ALU_ROW_WIDTH && air.table.num_ops > 0,
{
    let prep = law_success_is_a_preparation(
        circuit,
        generate,
        field,
        packing,
        preprocessors,
        builders,
        profile,
        schedule,
        out,
    );
    let primitive = out.0@.take(PRIMITIVE_TABLES as int);
    assert(out.0@[0] == primitive[0] && out.0@[1] == primitive[1] && out.0@[2] == primitive[2]);
    let input = prep.input();
    lemma_const_rows_len(field, input.ext_reads, input.consts, input.const_values);
    lemma_public_rows_len(field, input.ext_reads, input.publics, D);
    lemma_alu_rows_len(field, input.ext_reads, input.alu_ops, D);
}

/// A Public table of at most one input has one lane, and otherwise as many as are configured. An ALU
/// table has as many lanes as are configured, or it is the row of zeros that stands for no operation
/// and has one lane.
pub proof fn law_lanes<
    K,
    E,
    P: NpoPreprocessor<K, D>,
    B: NpoAirBuilder<E, D>,
    G: Fn(&K) -> Result<PreprocessedColumns<D>, CircuitError>,
    S: Fn(&AluTable<D>) -> usize,
    const D: usize,
>(
    circuit: K,
    generate: G,
    field: FieldParams,
    packing: TablePacking,
    preprocessors: Seq<P>,
    builders: Seq<B>,
    profile: ConstraintProfile,
    schedule: S,
    out: PrepOutput<E, D>,
)
    requires
        prep_outcome(
            circuit,
            generate,
            field,
            packing,
            preprocessors,
            builders,
            profile,
            schedule,
            Ok(out),
        ),
    ensures
        out.0@[1].0 matches CircuitTableAir::Public(air) && air.lanes == effective_lanes(
            air.num_ops <= 1,
            packing.public_lanes,
        ),
        out.0@[2].0 matches CircuitTableAir::Alu(air) && {
            ||| air.table.lanes == packing.alu_lanes
            ||| {
                &&& air.table.lanes == 1
                &&& out.1@[2]@ == Seq::new(ALU_ROW_WIDTH as nat, |i: int| 0u64)
            }
        },
{
    let prep = law_success_is_a_preparation(
        circuit,
        generate,
        field,
        packing,
        preprocessors,
        builders,
        profile,
        schedule,
        out,
    );
    let primitive = out.0@.take(PRIMITIVE_TABLES as int);
    assert(out.0@[1] == primitive[1] && out.0@[2] == primitive[2]);
}

/// Whether one of the plug-in tables of `out` was built for `op`, from the rows listed for it.
pub open spec fn has_table<E, B: NpoAirBuilder<E, D>, const D: usize>(
    builders: Seq<B>,
    packing: TablePacking,
    profile: ConstraintProfile,
    out: PrepOutput<E, D>,
    op: Seq<char>,
) -> bool {
    exists|k: int, i: int, entry: (NpoTypeId, Vec<u64>)|
        {
            &&& 0 <= k < builders.len()
            &&& PRIMITIVE_TABLES <= i < out.0@.len()
            &&& entry.0@ == op
            &&& entry.1@ == out.2@[op]
            &&& #[trigger] may_build(
                builders[k],
                entry,
                packing,
                profile,
                Some(#[trigger] out.0@[i]),
            )
        }
}

/// Every required operation is listed among the rows, with rows or without, and has a table; and
/// no builder builds more than one table.
pub proof fn law_required_operations_have_tables<
    K,
    E,
    P: NpoPreprocessor<K, D>,
    B: NpoAirBuilder<E, D>,
    G: Fn(&K) -> Result<PreprocessedColumns<D>, CircuitError>,
    S: Fn(&AluTable<D>) -> usize,
    const D: usize,
>(
    circuit: K,
    generate: G,
    field: FieldParams,
    packing: TablePacking,
    preprocessors: Seq<P>,
    builders: Seq<B>,
    profile: ConstraintProfile,
    schedule: S,
    out: PrepOutput<E, D>,
)
    requires
        prep_outcome(
            circuit,
            generate,
            field,
            packing,
            preprocessors,
            builders,
            profile,
            schedule,
            Ok(out),
        ),
    ensures
        forall|i: int|
            0 <= i < packing.required_npo@.len() ==> out.2@.dom().contains(
                (#[trigger] packing.required_npo@[i])@,
            ) && has_table(builders, packing, profile, out, packing.required_npo@[i]@),
        PRIMITIVE_TABLES <= out.0@.len() <= PRIMITIVE_TABLES + builders.len(),
{
    let prep = law_success_is_a_preparation(
        circuit,
        generate,
        field,
        packing,
        preprocessors,
        builders,
        profile,
        schedule,
        out,
    );
    assert forall|i: int| 0 <= i < packing.required_npo@.len() implies out.2@.dom().contains(
        (#[trigger] packing.required_npo@[i])@,
    ) && has_table(builders, packing, profile, out, packing.required_npo@[i]@) by {
        let op = packing.required_npo@[i]@;
        assert(names(packing.required_npo@)[i] == op);
        let k = lemma_chosen_op_has_choice(prep.choices, prep.listed, op);
        law_tables_follow_builder_order(prep.choices, prep.listed, k);
        let at = PRIMITIVE_TABLES + table_count(prep.choices.take(k)) as int;
        let entry = prep.listed[prep.choices[k]->Some_0.0];
        assert(out.0@[at] == prep.choices[k]->Some_0.1);
        assert(may_build(builders[k], entry, packing, profile, Some(out.0@[at])));
    }
    lemma_chosen_count(prep.choices);
}

/// How many of the choices are tables.
pub open spec fn table_count<E, const D: usize>(choices: Seq<Option<NpoTable<E, D>>>) -> nat
    decreases choices.len(),
{
    if choices.len() == 0 {
        0
    } else {
        table_count(choices.drop_last()) + if choices.last() is Some {
            1nat
        } else {
            0
        }
    }
}

pub proof fn lemma_chosen_count<E, const D: usize>(choices: Seq<Option<NpoTable<E, D>>>)
    ensures
        chosen_tables(choices).len() == table_count(choices),
        table_count(choices) <= choices.len(),
    decreases choices.len(),
{
    if choices.len() > 0 {
        lemma_chosen_count(choices.drop_last());
    }
}

pub proof fn lemma_chosen_op_has_choice<E, const D: usize>(
    choices: Seq<Option<NpoTable<E, D>>>,
    listed: Seq<(NpoTypeId, Vec<u64>)>,
    op: Seq<char>,
) -> (k: int)
    requires
        chosen_ops(choices, listed).contains(op),
    ensures
        0 <= k < choices.len(),
        choices[k] is Some,
        listed[choices[k]->Some_0.0].0@ == op,
    decreases choices.len(),
{
    let before = chosen_ops(choices.drop_last(), listed);
    let all = chosen_ops(choices, listed);
    let i = choose|i: int| 0 <= i < all.len() && all[i] == op;
    if i < before.len() {
        assert(before[i] == op);
        lemma_chosen_op_has_choice(choices.drop_last(), listed, op)
    } else {
        choices.len() - 1
    }
}

/// Plug-in tables stand in the order of their builders: the table of a builder comes right behind
/// those of the builders before it, and the operation that it was built for at the same place
/// among the built operations.
pub proof fn law_tables_follow_builder_order<E, const D: usize>(
    choices: Seq<Option<NpoTable<E, D>>>,
    listed: Seq<(NpoTypeId, Vec<u64>)>,
    k: int,
)
    requires
        0 <= k < choices.len(),
        choices[k] is Some,
    ensures
        ({
            let at = table_count(choices.take(k)) as int;
            let table = choices[k]->Some_0;
            &&& at < chosen_tables(choices).len()
            &&& at < chosen_ops(choices, listed).len()
            &&& chosen_tables(choices)[at] == table.1
            &&& chosen_ops(choices, listed)[at] == listed[table.0].0@
        }),
    decreases choices.len(),
{
    lemma_chosen_count(choices.drop_last());
    lemma_chosen_ops_count(choices.drop_last(), listed);
    if k < choices.len() - 1 {
        law_tables_follow_builder_order(choices.drop_last(), listed, k);
        assert(choices.drop_last().take(k) =~= choices.take(k));
    } else {
        assert(choices.take(k) =~= choices.drop_last());
    }
}

proof fn lemma_chosen_ops_count<E, const D: usize>(
    choices: Seq<Option<NpoTable<E, D>>>,
    listed: Seq<(NpoTypeId, Vec<u64>)>,
)
    ensures
        chosen_ops(choices, listed).len() == table_count(choices),
    decreases choices.len(),
{
    if choices.len() > 0 {
        lemma_chosen_ops_count(choices.drop_last(), listed);
    }
}

/// Where several plug-ins give rows for an operation, those of the last one count.
pub proof fn law_later_plugin_wins<const D: usize>(steps: Seq<PluginStep<D>>, k: int, op: Seq<char>)
    requires
        0 <= k < steps.len(),
        steps[k].1->Ok_0@.dom().contains(op),
        forall|j: int|
            k < j < steps.len() ==> !(#[trigger] steps[j]).1->Ok_0@.dom().contains(op),
    ensures
        merged_rows(steps).dom().contains(op),
        merged_rows(steps)[op] == steps[k].1->Ok_0@[op],
    decreases steps.len(),
{
    if k < steps.len() - 1 {
        assert(steps[steps.len() - 1] == steps.last());
        law_later_plugin_wins(steps.drop_last(), k, op);
    }
}

/// An operation that no plug-in gives rows for has none.
pub proof fn law_rows_come_from_plugins<const D: usize>(steps: Seq<PluginStep<D>>, op: Seq<char>)
    requires
        forall|j: int| 0 <= j < steps.len() ==> !(#[trigger] steps[j]).1->Ok_0@.dom().contains(op),
    ensures
        !merged_rows(steps).dom().contains(op),
    decreases steps.len(),
{
    if steps.len() > 0 {
        assert(steps[steps.len() - 1] == steps.last());
        law_rows_come_from_plugins(steps.drop_last(), op);
    }
}

/// The committed rows of the primitive tables depend on the columns alone, and not on how they are
/// packed.
pub proof fn law_committed_rows_ignore_packing<E, const D: usize>(
    field: FieldParams,
    a: Preparation<E, D>,
    b: Preparation<E, D>,
    packing_a: TablePacking,
    packing_b: TablePacking,
    out_a: PrepOutput<E, D>,
    out_b: PrepOutput<E, D>,
)
    requires
        a.gives(field, packing_a, out_a),
        b.gives(field, packing_b, out_b),
        a.input() == b.input(),
    ensures
        out_a.1@.len() == out_b.1@.len(),
        forall|i: int|
            0 <= i < out_a.1@.len() ==> (#[trigger] out_a.1@[i])@ == (#[trigger] out_b.1@[i])@,
{
}

/// For a plug-in table whose degree is that of its rows and its configured height, the height that
/// was built exceeds the allowed one exactly if the rows outgrow it: plug-in tables are rejected on
/// the same condition as primitive ones.
pub proof fn law_built_height_shows_overflow<E, const D: usize>(
    listed: Seq<(NpoTypeId, Vec<u64>)>,
    packing: TablePacking,
    table: NpoTable<E, D>,
    rows: nat,
)
    requires
        0 <= table.0 < listed.len(),
        table.1.1 == table_degree(rows, packing.npo_height(listed[table.0].0@) as nat),
    ensures
        npo_overflows(listed, packing, Some(table)) <==> overflows(
            packing,
            rows,
            packing.npo_height(listed[table.0].0@) as nat,
        ),
{
    lemma_degree_of_height(rows, packing.npo_height(listed[table.0].0@) as nat);
}

} // verus!
