//! What a preparation of tables comes to, from the circuit's columns to the last plug-in table.
use crate::air::{AluTable, CircuitTableAir};
use crate::common::{
    columns_outcome, get_airs_and_degrees_with_prep, npo_outcome, prep_outcome, tables_outcome,
    NpoAirBuilder, NpoPreprocessor, PrepOutput, PreprocessedColumns,
};
use crate::error::CircuitError;
use crate::field::{AluExtMulKind, FieldParams};
use crate::height_laws::{
    faulty, last_entry, least_for_lanes, least_power, least_power_of_both, lemma_least_for_lanes,
    lemma_first_fault, lemma_setting_is_last_entry, lemma_table_degree, lemma_valid_packing,
    reports_first_fault,
};
use crate::heights::{ceil_div, ceil_log2, lemma_ceil_log2, lemma_pow2_ordered};
use crate::npo::{
    chosen_ops, columns_after, ends_in_overflow, is_builder_run, is_choice, is_first_missing,
    may_build, merged_rows, names, npo_overflows, NpoTable, PluginStep,
};
use crate::npo_map::lists_entries;
use crate::ops::{ConstraintProfile, NpoTypeId};
use crate::packing::TablePacking;
use crate::primitive::{base_column, is_alu_input, PrimitiveInput};
use crate::row_laws::{
    are_alu_rows, are_const_rows, are_public_rows, lemma_are_alu_rows, lemma_are_const_rows,
    lemma_are_public_rows,
};
use crate::rows::lemma_alu_rows_len;
use crate::table_laws::{
    law_later_plugin_wins, law_rows_come_from_plugins, law_success_is_a_preparation,
    law_tables_follow_builder_order, lemma_chosen_count, lemma_chosen_op_has_choice, lemma_generated,
    lemma_plugin_run, table_count, Preparation,
};
use vstd::arithmetic::power2::pow2;
use vstd::prelude::*;

verus! {

/// Whether no height that the packing sets is faulty.
pub open spec fn heights_are_sound(packing: TablePacking) -> bool {
    let floor = packing.min_trace_height;
    &&& packing.const_min_height matches Some(h) ==> !faulty(h, floor)
    &&& packing.public_min_height matches Some(h) ==> !faulty(h, floor)
    &&& packing.alu_min_height matches Some(h) ==> !faulty(h, floor)
    &&& forall|i: int|
        0 <= i < packing.npo_min_heights@.len() ==> !faulty(
            (#[trigger] packing.npo_min_heights@[i]).1,
            floor,
        )
}

/// Whether all values of the columns lie in the base field: every coefficient but the first is zero.
pub open spec fn in_base_field<const D: usize>(columns: Seq<Vec<[u64; D]>>) -> bool {
    forall|i: int, j: int, k: int|
        0 <= i < columns.len() && 0 <= j < columns[i]@.len() && 0 < k < D
            ==> #[trigger] columns[i]@[j]@[k] == 0
}

/// The first coefficients of a column.
pub open spec fn first_coefficients<const D: usize>(column: Seq<[u64; D]>) -> Seq<u64> {
    Seq::new(column.len(), |i: int| column[i]@[0])
}

/// The columns that the plug-ins left.
pub open spec fn left_columns<const D: usize>(
    generated: PreprocessedColumns<D>,
    steps: Seq<PluginStep<D>>,
) -> PreprocessedColumns<D> {
    if steps.len() == 0 {
        generated
    } else {
        steps[steps.len() - 1].0
    }
}

/// The columns that the plug-in at `i` starts from.
pub open spec fn columns_before<const D: usize>(
    generated: PreprocessedColumns<D>,
    steps: Seq<PluginStep<D>>,
    i: int,
) -> PreprocessedColumns<D> {
    if i == 0 {
        generated
    } else {
        steps[i - 1].0
    }
}

/// Whether each of the first plug-ins ran in turn, on the columns that the one before it left, or the
/// first one on those of the circuit.
pub open spec fn ran_in_turn<K, P: NpoPreprocessor<K, D>, const D: usize>(
    circuit: K,
    preprocessors: Seq<P>,
    generated: PreprocessedColumns<D>,
    steps: Seq<PluginStep<D>>,
) -> bool {
    &&& steps.len() <= preprocessors.len()
    &&& forall|i: int|
        0 <= i < steps.len() ==> preprocessors[i].preprocess_outcome(
            circuit,
            #[trigger] columns_before(generated, steps, i),
            steps[i].0,
            steps[i].1,
        )
}

/// A per-table setting, or else the floor.
pub open spec fn own_or(setting: Option<usize>, floor: usize) -> usize {
    match setting {
        Some(h) => h,
        None => floor,
    }
}

/// Lanes of a table: one, if it is a dummy and would have several, and those configured otherwise.
pub open spec fn lanes_in_use(dummy: bool, configured: usize) -> usize {
    if dummy && configured > 1 {
        1
    } else {
        configured
    }
}

impl<E, const D: usize> Preparation<E, D> {
    /// Indices of the constants, of the public inputs, or the ALU operations.
    pub open spec fn column(self, i: int) -> Seq<u64> {
        first_coefficients(self.generated.primitive@[i]@)
    }

    /// Whether the committed rows are those of the circuit's columns, with the constants and the
    /// reads that the plug-ins left.
    pub open spec fn rows_are_right(self, field: FieldParams, rows: Seq<Vec<u64>>) -> bool {
        let p = field.modulus as int;
        let left = left_columns(self.generated, self.steps);
        let reads = left.ext_reads@;
        &&& rows.len() == 3
        &&& are_const_rows(p, reads, self.column(0), left.const_values@, rows[0]@)
        &&& are_public_rows(p, reads, self.column(1), D, rows[1]@)
        &&& are_alu_rows(p, reads, self.column(2), D, rows[2]@)
    }

    /// Whether the first table describes the constants: as many as have an index and a value, with
    /// their committed rows, at the least height that reaches them and the configured one.
    pub open spec fn const_is_right(self, packing: TablePacking, out: PrepOutput<E, D>) -> bool {
        let min = own_or(packing.const_min_height, packing.min_trace_height);
        let indices = self.generated.primitive@[0]@.len();
        let values = left_columns(self.generated, self.steps).const_values@.len();
        &&& out.0@[0].0 matches CircuitTableAir::Const(air)
        &&& indices <= values ==> air.height == indices
        &&& values <= indices ==> air.height == values
        &&& air.preprocessed@ == out.1@[0]@
        &&& air.min_height == min
        &&& least_power_of_both(air.height as nat, min as nat, out.0@[0].1 as nat)
        &&& packing.strict ==> least_power(min as nat, out.0@[0].1 as nat)
    }

    /// Whether the second table describes the public inputs, packed into lanes.
    pub open spec fn public_is_right(self, packing: TablePacking, out: PrepOutput<E, D>) -> bool {
        let min = own_or(packing.public_min_height, packing.min_trace_height);
        let inputs = self.generated.primitive@[1]@.len();
        &&& out.0@[1].0 matches CircuitTableAir::Public(air)
        &&& air.num_ops == inputs
        &&& air.lanes == lanes_in_use(inputs <= 1, packing.public_lanes)
        &&& air.preprocessed@ == out.1@[1]@
        &&& air.min_height == min
        &&& least_for_lanes(inputs, air.lanes as nat, min as nat, out.0@[1].1 as nat)
        &&& packing.strict ==> least_power(min as nat, out.0@[1].1 as nat)
    }

    /// Whether `alu` is what the scheduler of the ALU operations has to be given.
    pub open spec fn alu_input_is_right(self, field: FieldParams, packing: TablePacking) -> bool {
        let left = left_columns(self.generated, self.steps);
        let ops = self.generated.primitive@[2]@.len();
        let quintic = D == 5 && field.quintic_trinomial;
        &&& self.alu.num_ops == (if ops == 0 {
            1
        } else {
            ops / 12
        })
        &&& self.alu.lanes == lanes_in_use(ops == 0, packing.alu_lanes)
        &&& self.alu.horner_packed_steps == packing.horner_packed_steps
        &&& are_alu_rows(
            field.modulus as int,
            left.ext_reads@,
            self.column(2),
            D,
            self.alu.preprocessed@,
        )
        &&& D == 1 ==> self.alu.reduction == AluExtMulKind::Base
        &&& D != 1 && quintic ==> self.alu.reduction == AluExtMulKind::QuinticTrinomial
        &&& D != 1 && !quintic ==> field.binomial_w is Some && self.alu.reduction
            == AluExtMulKind::Binomial { w: field.binomial_w->Some_0 }
    }

    /// Whether the third table describes the ALU operations, scheduled into entries and packed into
    /// lanes.
    pub open spec fn alu_is_right(self, packing: TablePacking, out: PrepOutput<E, D>) -> bool {
        let min = own_or(packing.alu_min_height, packing.min_trace_height);
        &&& out.0@[2].0 matches CircuitTableAir::Alu(air)
        &&& air.table == self.alu
        &&& air.scheduled_entries == self.alu_entries
        &&& air.table.preprocessed@ == out.1@[2]@
        &&& air.min_height == min
        &&& least_for_lanes(
            self.alu_entries as nat,
            self.alu.lanes as nat,
            min as nat,
            out.0@[2].1 as nat,
        )
        &&& packing.strict ==> least_power(min as nat, out.0@[2].1 as nat)
    }

    /// Whether the operations with rows are those that a plug-in lists, each with the rows of the last
    /// one that does, and the required ones, without rows where no plug-in lists them.
    pub open spec fn map_is_right(
        self,
        packing: TablePacking,
        rows: Map<Seq<char>, Seq<u64>>,
    ) -> bool {
        forall|op: Seq<char>|
            #![trigger rows.dom().contains(op)]
            {
                let listed_by = |i: int|
                    0 <= i < self.steps.len() && self.steps[i].1->Ok_0@.dom().contains(op);
                let listed = exists|i: int| #[trigger] listed_by(i);
                let required = exists|j: int|
                    0 <= j < packing.required_npo@.len() && (#[trigger] packing.required_npo@[j])@
                        == op;
                &&& rows.dom().contains(op) <==> listed || required
                &&& forall|i: int| #[trigger]
                    listed_by(i) && (forall|j: int| i < j < self.steps.len() ==> !#[trigger] listed_by(
                        j,
                    )) ==> rows[op] == self.steps[i].1->Ok_0@[op]
                &&& !listed && required ==> rows[op].len() == 0
            }
    }

    /// Whether the listed operations are those of `rows`, each once and with its rows.
    pub open spec fn listing_is_right(self, rows: Map<Seq<char>, Seq<u64>>) -> bool {
        &&& forall|i: int|
            0 <= i < self.listed.len() ==> rows.dom().contains((#[trigger] self.listed[i]).0@)
                && rows[self.listed[i].0@] == self.listed[i].1@
        &&& forall|i: int, j: int|
            0 <= i < j < self.listed.len() ==> (#[trigger] self.listed[i]).0@ != (
            #[trigger] self.listed[j]).0@
        &&& forall|op: Seq<char>| #[trigger]
            rows.dom().contains(op) ==> exists|i: int|
                0 <= i < self.listed.len() && (#[trigger] self.listed[i]).0@ == op
    }

    /// Whether every builder was asked about the listed operations in turn, up to the first that it
    /// builds a table for; the tables stand behind the primitive ones, in the order of the builders;
    /// none is taller than allowed under strict heights; and every required operation has one.
    pub open spec fn plugin_tables_are_right<B: NpoAirBuilder<E, D>>(
        self,
        builders: Seq<B>,
        packing: TablePacking,
        profile: ConstraintProfile,
        tables: Seq<(CircuitTableAir<E, D>, usize)>,
    ) -> bool {
        &&& self.choices.len() == builders.len()
        &&& tables.len() == 3 + table_count(self.choices)
        &&& forall|k: int|
            0 <= k < builders.len() ==> match #[trigger] self.choices[k] {
                None => forall|i: int|
                    0 <= i < self.listed.len() ==> asked(
                        builders[k],
                        #[trigger] self.listed[i],
                        packing,
                        profile,
                        None,
                    ),
                Some(t) => {
                    &&& 0 <= t.0 < self.listed.len()
                    &&& tables[3 + table_count(self.choices.take(k)) as int] == t.1
                    &&& asked(builders[k], self.listed[t.0], packing, profile, Some(t.1))
                    &&& forall|i: int|
                        0 <= i < t.0 ==> asked(
                            builders[k],
                            #[trigger] self.listed[i],
                            packing,
                            profile,
                            None,
                        )
                    &&& packing.strict ==> within(packing, self.listed[t.0].0@, t.1.1)
                },
            }
        &&& forall|j: int|
            0 <= j < packing.required_npo@.len() ==> self.has_choice_for(
                (#[trigger] packing.required_npo@[j])@,
            )
    }

    /// Whether some builder built a table for `op`.
    pub open spec fn has_choice_for(self, op: Seq<char>) -> bool {
        exists|k: int|
            0 <= k < self.choices.len() && ((#[trigger] self.choices[k]) matches Some(t)
                && self.listed[t.0].0@ == op)
    }
}

/// Whether a height is the one configured for the table of `op`: the last that the packing sets for
/// it, or else the floor.
pub open spec fn configured_height(packing: TablePacking, op: Seq<char>, height: usize) -> bool {
    ||| last_entry(packing.npo_min_heights@, op, Some(height))
    ||| last_entry(packing.npo_min_heights@, op, None) && height == packing.min_trace_height
}

/// Whether a table of the given degree is no taller than the least power of two that reaches the
/// configured height of `op`.
pub open spec fn within(packing: TablePacking, op: Seq<char>, degree: usize) -> bool {
    exists|height: usize| #[trigger]
        configured_height(packing, op, height) && (degree > 0 ==> pow2((degree - 1) as nat)
            < height)
}

/// Whether `builder` can have answered `built` for an operation with its rows, at the height
/// configured for it, at the lanes that the packing sets for it last, or else at lanes that the
/// builder itself asks for, and with the profile.
pub open spec fn asked<E, B: NpoAirBuilder<E, D>, const D: usize>(
    builder: B,
    entry: (NpoTypeId, Vec<u64>),
    packing: TablePacking,
    profile: ConstraintProfile,
    built: Option<(CircuitTableAir<E, D>, usize)>,
) -> bool {
    exists|height: usize, lanes: usize|
        {
            &&& configured_height(packing, entry.0@, height)
            &&& last_entry(packing.npo_lanes@, entry.0@, Some(lanes)) || (last_entry(
                packing.npo_lanes@,
                entry.0@,
                None,
            ) && call_ensures(B::lanes, (&builder,), lanes))
            &&& #[trigger] call_ensures(
                B::try_build,
                (&builder, &entry.0, &entry.1, height, lanes, profile),
                built,
            )
        }
}

proof fn lemma_configured_height(packing: TablePacking, op: Seq<char>)
    ensures
        configured_height(packing, op, packing.npo_height(op)),
{
    lemma_setting_is_last_entry(packing.npo_min_heights@, op);
}

proof fn lemma_asked<E, B: NpoAirBuilder<E, D>, const D: usize>(
    builder: B,
    entry: (NpoTypeId, Vec<u64>),
    packing: TablePacking,
    profile: ConstraintProfile,
    built: Option<(CircuitTableAir<E, D>, usize)>,
)
    requires
        may_build(builder, entry, packing, profile, built),
    ensures
        asked(builder, entry, packing, profile, built),
{
    lemma_configured_height(packing, entry.0@);
    lemma_setting_is_last_entry(packing.npo_lanes@, entry.0@);
    let lanes = choose|lanes: usize|
        {
            &&& match packing.lanes_of(entry.0@) {
                Some(n) => lanes == n,
                None => call_ensures(B::lanes, (&builder,), lanes),
            }
            &&& #[trigger] call_ensures(
                B::try_build,
                (&builder, &entry.0, &entry.1, packing.npo_height(entry.0@), lanes, profile),
                built,
            )
        };
    assert(call_ensures(
        B::try_build,
        (&builder, &entry.0, &entry.1, packing.npo_height(entry.0@), lanes, profile),
        built,
    ));
}

proof fn lemma_within(packing: TablePacking, op: Seq<char>, degree: usize)
    requires
        pow2(degree as nat) <= crate::heights::padded(packing.npo_height(op) as nat),
    ensures
        within(packing, op, degree),
{
    let h = packing.npo_height(op);
    lemma_configured_height(packing, op);
    lemma_ceil_log2(h as nat);
    lemma_pow2_ordered(degree as nat, ceil_log2(h as nat));
    if degree > 0 {
        lemma_pow2_ordered((degree - 1) as nat, (ceil_log2(h as nat) - 1) as nat);
    }
    assert(configured_height(packing, op, h));
}

/// Columns of base-field values are their first coefficients.
pub proof fn lemma_base_columns<const D: usize>(columns: Seq<Vec<[u64; D]>>)
    requires
        D > 0,
    ensures
        crate::primitive::all_base(columns) <==> in_base_field(columns),
        crate::primitive::all_base(columns) ==> forall|i: int|
            0 <= i < columns.len() ==> base_column((#[trigger] columns[i])@)
                == first_coefficients(columns[i]@),
{
    if crate::primitive::all_base(columns) {
        assert forall|i: int, j: int, k: int|
            0 <= i < columns.len() && 0 <= j < columns[i]@.len() && 0 < k
                < D implies #[trigger] columns[i]@[j]@[k] == 0 by {
            assert(crate::rows::base_value(columns[i]@[j]@) is Some);
            assert(columns[i]@[j]@.len() == D);
        }
        assert forall|i: int| 0 <= i < columns.len() implies base_column((#[trigger] columns[i])@)
            == first_coefficients(columns[i]@) by {
            assert forall|j: int| 0 <= j < columns[i]@.len() implies base_column(columns[i]@)[j]
                == first_coefficients(columns[i]@)[j] by {
                assert(crate::rows::base_value(columns[i]@[j]@) is Some);
            }
            assert(base_column(columns[i]@) =~= first_coefficients(columns[i]@));
        }
    }
    if in_base_field(columns) {
        assert forall|i: int, j: int|
            0 <= i < columns.len() && 0 <= j < columns[i]@.len() implies crate::rows::base_value(
            (#[trigger] columns[i]@[j])@,
        ) is Some by {
            assert(columns[i]@[j]@.len() == D);
            assert forall|k: int| 1 <= k < columns[i]@[j]@.len() implies columns[i]@[j]@[k] == 0 by {
                assert(columns[i]@[j]@[k] == 0);
            }
        }
    }
}

/// What a successful preparation of tables gives, from the circuit's columns to the last plug-in
/// table: the heights that the packing sets are sound, the circuit's columns lie in the base field,
/// the plug-ins ran in turn, and rows, tables, operations and plug-in tables are right.
pub proof fn law_success_in_full<
    K,
    E,
    P: NpoPreprocessor<K, D>,
    B: NpoAirBuilder<E, D>,
    G: Fn(&K) -> Result<PreprocessedColumns<D>, CircuitError>,
    S: Fn(&AluTable<D>) -> usize,
    const D: usize,
>(
    circuit: K,
    generate: G,
    field: FieldParams,
    packing: TablePacking,
    preprocessors: Vec<P>,
    builders: Vec<B>,
    profile: ConstraintProfile,
    schedule: S,
    out: PrepOutput<E, D>,
) -> (prep: Preparation<E, D>)
    requires
        call_ensures(
            get_airs_and_degrees_with_prep::<K, E, P, B, G, S, D>,
            (
                &circuit,
                generate,
                &field,
                &packing,
                &preprocessors,
                &builders,
                profile,
                schedule,
            ),
            Ok(out),
        ),
        field.modulus > 1,
        D > 0,
        packing.public_lanes > 0,
        packing.alu_lanes > 0,
        forall|columns: PreprocessedColumns<D>| #[trigger]
            call_ensures(generate, (&circuit,), Ok(columns)) ==> columns.primitive@.len() == 3
                && columns.primitive@[2]@.len() % 12 == 0,
    ensures
        heights_are_sound(packing),
        call_ensures(generate, (&circuit,), Ok(prep.generated)),
        in_base_field(prep.generated.primitive@),
        prep.steps.len() == preprocessors@.len(),
        ran_in_turn(circuit, preprocessors@, prep.generated, prep.steps),
        forall|i: int| 0 <= i < prep.steps.len() ==> (#[trigger] prep.steps[i]).1 is Ok,
        prep.rows_are_right(field, out.1@),
        prep.const_is_right(packing, out),
        prep.public_is_right(packing, out),
        prep.alu_input_is_right(field, packing),
        call_ensures(schedule, (&prep.alu,), prep.alu_entries),
        prep.alu_is_right(packing, out),
        prep.map_is_right(packing, out.2@),
        prep.listing_is_right(out.2@),
        prep.plugin_tables_are_right(builders@, packing, profile, out.0@),
{
    let prep = law_success_is_a_preparation(
        circuit,
        generate,
        field,
        packing,
        preprocessors@,
        builders@,
        profile,
        schedule,
        out,
    );
    lemma_valid_packing(packing);
    reveal(crate::table_laws::run_is_sound);
    lemma_base_columns(prep.generated.primitive@);
    lemma_ran_in_turn(circuit, preprocessors@, prep.generated, prep.steps);
    let input = prep.input();
    let left = left_columns(prep.generated, prep.steps);
    assert(left == columns_after(prep.generated, prep.steps));
    assert(input.consts == prep.column(0) && input.publics == prep.column(1) && input.alu_ops
        == prep.column(2));
    lemma_are_const_rows(field, input.ext_reads, input.consts, input.const_values);
    lemma_are_public_rows(field, input.ext_reads, input.publics, D);
    lemma_are_alu_rows(field, input.ext_reads, input.alu_ops, D);
    lemma_alu_rows_len(field, input.ext_reads, input.alu_ops, D);
    let primitive = out.0@.take(3);
    assert(out.0@[0] == primitive[0] && out.0@[1] == primitive[1] && out.0@[2] == primitive[2]);
    let floor = packing.min_trace_height;
    let const_min = own_or(packing.const_min_height, floor);
    let public_min = own_or(packing.public_min_height, floor);
    let alu_min = own_or(packing.alu_min_height, floor);
    let public_lanes = input.public_lanes(packing);
    let alu_lanes = input.alu_lanes(packing);
    lemma_table_degree(input.const_count(), const_min as nat);
    lemma_table_degree(ceil_div(input.publics.len(), public_lanes as nat), public_min as nat);
    lemma_table_degree(ceil_div(prep.alu_entries as nat, alu_lanes as nat), alu_min as nat);
    lemma_least_for_lanes(
        input.publics.len(),
        public_lanes as nat,
        public_min as nat,
        out.0@[1].1 as nat,
    );
    lemma_least_for_lanes(
        prep.alu_entries as nat,
        alu_lanes as nat,
        alu_min as nat,
        out.0@[2].1 as nat,
    );
    lemma_map(prep, packing, out.2@);
    lemma_plugin_tables(prep, builders@, packing, profile, field, out);
    prep
}

/// A run of plug-ins is one in turn.
pub proof fn lemma_ran_in_turn<K, P: NpoPreprocessor<K, D>, const D: usize>(
    circuit: K,
    preprocessors: Seq<P>,
    generated: PreprocessedColumns<D>,
    steps: Seq<PluginStep<D>>,
)
    requires
        crate::npo::is_plugin_run(preprocessors, circuit, generated, steps),
    ensures
        ran_in_turn(circuit, preprocessors, generated, steps),
{
    assert forall|i: int| 0 <= i < steps.len() implies preprocessors[i].preprocess_outcome(
        circuit,
        #[trigger] columns_before(generated, steps, i),
        steps[i].0,
        steps[i].1,
    ) by {
        assert(preprocessors[i].preprocess_outcome(
            circuit,
            columns_after(generated, steps.take(i)),
            steps[i].0,
            steps[i].1,
        ));
        if i > 0 {
            assert(steps.take(i).last() == steps[i - 1]);
        }
    }
}

proof fn lemma_map<E, const D: usize>(
    prep: Preparation<E, D>,
    packing: TablePacking,
    rows: Map<Seq<char>, Seq<u64>>,
)
    requires
        rows == crate::npo::with_required(merged_rows(prep.steps), packing.required_npo@),
    ensures
        prep.map_is_right(packing, rows),
{
    let steps = prep.steps;
    let required_names = names(packing.required_npo@);
    assert forall|op: Seq<char>|
        #![trigger rows.dom().contains(op)]
        {
            let listed_by = |i: int|
                0 <= i < steps.len() && steps[i].1->Ok_0@.dom().contains(op);
            let listed = exists|i: int| #[trigger] listed_by(i);
            let required = exists|j: int|
                0 <= j < packing.required_npo@.len() && (#[trigger] packing.required_npo@[j])@
                    == op;
            &&& rows.dom().contains(op) <==> listed || required
            &&& forall|i: int| #[trigger]
                listed_by(i) && (forall|j: int| i < j < steps.len() ==> !#[trigger] listed_by(j))
                    ==> rows[op] == steps[i].1->Ok_0@[op]
            &&& !listed && required ==> rows[op].len() == 0
        } by {
        let listed_by = |i: int| 0 <= i < steps.len() && steps[i].1->Ok_0@.dom().contains(op);
        let listed = exists|i: int| #[trigger] listed_by(i);
        let required = exists|j: int|
            0 <= j < packing.required_npo@.len() && (#[trigger] packing.required_npo@[j])@ == op;
        if required {
            let j = choose|j: int|
                0 <= j < packing.required_npo@.len() && (#[trigger] packing.required_npo@[j])@ == op;
            assert(required_names[j] == op);
        }
        if required_names.contains(op) {
            let j = required_names.index_of(op);
            assert(packing.required_npo@[j]@ == op);
        }
        if listed {
            let i = choose|i: int| #[trigger] listed_by(i);
            let last = lemma_last_listing(steps, op, i);
            law_later_plugin_wins(steps, last, op);
        } else {
            assert forall|j: int| 0 <= j < steps.len() implies !(
            #[trigger] steps[j]).1->Ok_0@.dom().contains(op) by {
                assert(!listed_by(j));
            }
            law_rows_come_from_plugins(steps, op);
        }
        assert forall|i: int| #[trigger]
            listed_by(i) && (forall|j: int| i < j < steps.len() ==> !#[trigger] listed_by(
                j,
            )) implies rows[op] == steps[i].1->Ok_0@[op] by {
            assert forall|j: int| i < j < steps.len() implies !(
            #[trigger] steps[j]).1->Ok_0@.dom().contains(op) by {
                assert(!listed_by(j));
            }
            law_later_plugin_wins(steps, i, op);
        }
    }
}

proof fn lemma_last_listing<const D: usize>(
    steps: Seq<PluginStep<D>>,
    op: Seq<char>,
    i: int,
) -> (last: int)
    requires
        0 <= i < steps.len(),
        steps[i].1->Ok_0@.dom().contains(op),
    ensures
        i <= last < steps.len(),
        steps[last].1->Ok_0@.dom().contains(op),
        forall|j: int|
            last < j < steps.len() ==> !(#[trigger] steps[j]).1->Ok_0@.dom().contains(op),
    decreases steps.len() - i,
{
    if exists|j: int| i < j < steps.len() && (#[trigger] steps[j]).1->Ok_0@.dom().contains(op) {
        let j = choose|j: int|
            i < j < steps.len() && (#[trigger] steps[j]).1->Ok_0@.dom().contains(op);
        lemma_last_listing(steps, op, j)
    } else {
        i
    }
}

proof fn lemma_plugin_tables<E, B: NpoAirBuilder<E, D>, const D: usize>(
    prep: Preparation<E, D>,
    builders: Seq<B>,
    packing: TablePacking,
    profile: ConstraintProfile,
    field: FieldParams,
    out: PrepOutput<E, D>,
)
    requires
        prep.gives(field, packing, out),
        crate::npo::is_builder_run(builders, prep.listed, packing, profile, prep.choices),
        prep.choices.len() == builders.len(),
    ensures
        prep.plugin_tables_are_right(builders, packing, profile, out.0@),
{
    let tables = out.0@;
    lemma_chosen_count(prep.choices);
    assert forall|k: int| 0 <= k < builders.len() implies match #[trigger] prep.choices[k] {
        None => forall|i: int|
            0 <= i < prep.listed.len() ==> asked(
                builders[k],
                #[trigger] prep.listed[i],
                packing,
                profile,
                None,
            ),
        Some(t) => {
            &&& 0 <= t.0 < prep.listed.len()
            &&& tables[3 + table_count(prep.choices.take(k)) as int] == t.1
            &&& asked(builders[k], prep.listed[t.0], packing, profile, Some(t.1))
            &&& forall|i: int|
                0 <= i < t.0 ==> asked(
                    builders[k],
                    #[trigger] prep.listed[i],
                    packing,
                    profile,
                    None,
                )
            &&& packing.strict ==> within(packing, prep.listed[t.0].0@, t.1.1)
        },
    } by {
        let choice = prep.choices[k];
        assert(crate::npo::is_choice(builders[k], prep.listed, packing, profile, choice));
        assert(!crate::npo::npo_overflows(prep.listed, packing, choice));
        assert forall|i: int|
            0 <= i < prep.listed.len() && (choice matches Some(t) ==> i < t.0) implies asked(
            builders[k],
            #[trigger] prep.listed[i],
            packing,
            profile,
            None,
        ) by {
            assert(may_build(builders[k], prep.listed[i], packing, profile, None));
            lemma_asked(builders[k], prep.listed[i], packing, profile, None);
        }
        if let Some(t) = choice {
            lemma_asked(builders[k], prep.listed[t.0], packing, profile, Some(t.1));
            law_tables_follow_builder_order(prep.choices, prep.listed, k);
            if packing.strict {
                lemma_within(packing, prep.listed[t.0].0@, t.1.1);
            }
        }
    }
    assert forall|j: int| 0 <= j < packing.required_npo@.len() implies prep.has_choice_for(
        (#[trigger] packing.required_npo@[j])@,
    ) by {
        let k = lemma_chosen_op_has_choice(prep.choices, prep.listed, packing.required_npo@[j]@);
        assert(prep.choices[k] is Some);
    }
}

/// Whether `e` is the overflow of `table`, which needs height `2^k` where the power of two that reaches
/// `min` is allowed.
pub open spec fn overflow_at(e: CircuitError, table: Seq<char>, k: nat, min: nat) -> bool {
    exists|m: nat|
        {
            &&& #[trigger] least_power(min, m)
            &&& m < k
            &&& e matches CircuitError::ProfileOverflow { table: t, needed, allowed }
            &&& t@ == table
            &&& needed == pow2(k)
            &&& allowed == pow2(m)
        }
}

/// Whether `n` operations at `lanes` per row fit into the power of two that reaches `min`.
pub open spec fn fits(n: nat, lanes: nat, min: nat) -> bool {
    exists|m: nat| #[trigger] least_power(min, m) && n <= pow2(m) * lanes
}

/// Whether `e` reports that `n` operations at `lanes` per row do not fit.
pub open spec fn refused(e: CircuitError, table: Seq<char>, n: nat, lanes: nat, min: nat) -> bool {
    exists|k: nat| #[trigger] least_for_lanes(n, lanes, 0, k) && overflow_at(e, table, k, min)
}

impl<E, const D: usize> Preparation<E, D> {
    /// How many constants have an index and a value.
    pub open spec fn constants(self) -> nat {
        let indices = self.generated.primitive@[0]@.len();
        let values = left_columns(self.generated, self.steps).const_values@.len();
        if indices <= values {
            indices
        } else {
            values
        }
    }

    /// Lanes of the Public table.
    pub open spec fn public_lanes_in_use(self, packing: TablePacking) -> nat {
        lanes_in_use(self.generated.primitive@[1]@.len() <= 1, packing.public_lanes) as nat
    }

    /// Whether `e` reports that the constants do not fit.
    pub open spec fn const_refused(self, packing: TablePacking, e: CircuitError) -> bool {
        let min = own_or(packing.const_min_height, packing.min_trace_height) as nat;
        packing.strict && refused(e, "CONST"@, self.constants(), 1, min)
    }

    /// Whether the constants fit, or need not.
    pub open spec fn const_fits(self, packing: TablePacking) -> bool {
        let min = own_or(packing.const_min_height, packing.min_trace_height) as nat;
        !packing.strict || fits(self.constants(), 1, min)
    }

    /// Whether `e` reports that the public inputs do not fit.
    pub open spec fn public_refused(self, packing: TablePacking, e: CircuitError) -> bool {
        let min = own_or(packing.public_min_height, packing.min_trace_height) as nat;
        packing.strict && refused(
            e,
            "PUBLIC"@,
            self.generated.primitive@[1]@.len(),
            self.public_lanes_in_use(packing),
            min,
        )
    }

    /// Whether the public inputs fit, or need not.
    pub open spec fn public_fits(self, packing: TablePacking) -> bool {
        let min = own_or(packing.public_min_height, packing.min_trace_height) as nat;
        !packing.strict || fits(
            self.generated.primitive@[1]@.len(),
            self.public_lanes_in_use(packing),
            min,
        )
    }

    /// Whether `e` reports that the ALU entries do not fit.
    pub open spec fn alu_refused(self, packing: TablePacking, e: CircuitError) -> bool {
        let min = own_or(packing.alu_min_height, packing.min_trace_height) as nat;
        packing.strict && refused(e, "ALU"@, self.alu_entries as nat, self.alu.lanes as nat, min)
    }

    /// Whether the ALU entries fit, or need not.
    pub open spec fn alu_fits(self, packing: TablePacking) -> bool {
        let min = own_or(packing.alu_min_height, packing.min_trace_height) as nat;
        !packing.strict || fits(self.alu_entries as nat, self.alu.lanes as nat, min)
    }

    /// Whether the builder at `k` was asked in turn, up to the first table that it built.
    pub open spec fn choice_is_right<B: NpoAirBuilder<E, D>>(
        self,
        builders: Seq<B>,
        packing: TablePacking,
        profile: ConstraintProfile,
        k: int,
    ) -> bool {
        match self.choices[k] {
            None => forall|i: int|
                0 <= i < self.listed.len() ==> asked(
                    builders[k],
                    #[trigger] self.listed[i],
                    packing,
                    profile,
                    None,
                ),
            Some(t) => {
                &&& 0 <= t.0 < self.listed.len()
                &&& asked(builders[k], self.listed[t.0], packing, profile, Some(t.1))
                &&& forall|i: int|
                    0 <= i < t.0 ==> asked(
                        builders[k],
                        #[trigger] self.listed[i],
                        packing,
                        profile,
                        None,
                    )
            },
        }
    }

    /// Whether the first builders were asked in turn, none but the last of which may have built a
    /// table that is too tall.
    pub open spec fn builders_were_asked<B: NpoAirBuilder<E, D>>(
        self,
        builders: Seq<B>,
        packing: TablePacking,
        profile: ConstraintProfile,
    ) -> bool {
        &&& self.choices.len() <= builders.len()
        &&& forall|k: int|
            0 <= k < self.choices.len() ==> #[trigger] self.choice_is_right(
                builders,
                packing,
                profile,
                k,
            )
        &&& forall|k: int|
            0 <= k < self.choices.len() - 1 && packing.strict ==> ((
            #[trigger] self.choices[k]) matches Some(t) ==> within(
                packing,
                self.listed[t.0].0@,
                t.1.1,
            ))
    }

    /// Whether `e` reports that the last table that was built is too tall.
    pub open spec fn plugin_refused(self, packing: TablePacking, e: CircuitError) -> bool {
        &&& packing.strict
        &&& self.choices.len() > 0
        &&& self.choices[self.choices.len() - 1] matches Some(t)
        &&& exists|height: usize| #[trigger]
            configured_height(packing, self.listed[t.0].0@, height) && overflow_at(
                e,
                self.listed[t.0].0@,
                t.1.1 as nat,
                height as nat,
            )
    }

    /// Whether `e` reports the first required operation for which no builder built a table.
    pub open spec fn table_missing(self, packing: TablePacking, e: CircuitError) -> bool {
        exists|j: int|
            {
                &&& 0 <= j < packing.required_npo@.len()
                &&& !self.has_choice_for((#[trigger] packing.required_npo@[j])@)
                &&& forall|i: int|
                    0 <= i < j ==> self.has_choice_for((#[trigger] packing.required_npo@[i])@)
                &&& e matches CircuitError::NonPrimitiveOpLayoutMismatch { op, expected, got }
                &&& op@ == packing.required_npo@[j]@
                &&& expected@ == "an AIR builder for the required table"@
                &&& got == 0
            }
    }

    /// Whether the tables are refused with `e`: the first that does not fit, among Const, Public, ALU
    /// and the plug-in tables in the order of their builders, or else a required one that is missing.
    #[verifier::opaque]
    pub open spec fn tables_refused<B: NpoAirBuilder<E, D>, S: Fn(&AluTable<D>) -> usize>(
        self,
        field: FieldParams,
        packing: TablePacking,
        builders: Seq<B>,
        profile: ConstraintProfile,
        schedule: S,
        e: CircuitError,
    ) -> bool {
        ||| self.const_refused(packing, e)
        ||| self.const_fits(packing) && self.public_refused(packing, e)
        ||| {
            &&& self.const_fits(packing)
            &&& self.public_fits(packing)
            &&& self.alu_input_is_right(field, packing)
            &&& call_ensures(schedule, (&self.alu,), self.alu_entries)
            &&& {
                ||| self.alu_refused(packing, e)
                ||| {
                    &&& self.alu_fits(packing)
                    &&& exists|rows: Map<Seq<char>, Seq<u64>>| #[trigger]
                        self.map_is_right(packing, rows) && self.listing_is_right(rows)
                    &&& self.builders_were_asked(builders, packing, profile)
                    &&& {
                        ||| self.plugin_refused(packing, e)
                        ||| self.choices.len() == builders.len() && self.table_missing(packing, e)
                    }
                }
            }
        }
    }
}

/// Whether the plug-in after the last that succeeded failed with `e`.
pub open spec fn failed_in_turn<K, P: NpoPreprocessor<K, D>, const D: usize>(
    circuit: K,
    preprocessors: Seq<P>,
    generated: PreprocessedColumns<D>,
    steps: Seq<PluginStep<D>>,
    e: CircuitError,
) -> bool {
    &&& steps.len() > 0
    &&& ran_in_turn(circuit, preprocessors, generated, steps)
    &&& forall|i: int| 0 <= i < steps.len() - 1 ==> (#[trigger] steps[i]).1 is Ok
    &&& steps[steps.len() - 1].1 matches Err(error) && error == e
}

/// Why a preparation can fail with `e` once the circuit has generated its columns: a value outside the
/// base field, a plug-in that fails, or tables that are refused.
pub open spec fn columns_refused<
    K,
    E,
    P: NpoPreprocessor<K, D>,
    B: NpoAirBuilder<E, D>,
    S: Fn(&AluTable<D>) -> usize,
    const D: usize,
>(
    circuit: K,
    field: FieldParams,
    packing: TablePacking,
    preprocessors: Seq<P>,
    builders: Seq<B>,
    profile: ConstraintProfile,
    schedule: S,
    generated: PreprocessedColumns<D>,
    e: CircuitError,
) -> bool {
    if !in_base_field(generated.primitive@) {
        e is InvalidPreprocessedValues
    } else {
        ||| exists|steps: Seq<PluginStep<D>>| #[trigger]
            failed_in_turn(circuit, preprocessors, generated, steps, e)
        ||| exists|prep: Preparation<E, D>|
            {
                &&& prep.generated == generated
                &&& prep.steps.len() == preprocessors.len()
                &&& ran_in_turn(circuit, preprocessors, generated, prep.steps)
                &&& forall|i: int| 0 <= i < prep.steps.len() ==> (#[trigger] prep.steps[i]).1 is Ok
                &&& #[trigger] prep.tables_refused(
                    field,
                    packing,
                    builders,
                    profile,
                    schedule,
                    e,
                )
            }
    }
}

proof fn lemma_refused(rows: nat, n: nat, lanes: nat, min: nat, table: Seq<char>, e: CircuitError)
    requires
        lanes > 0,
        rows == ceil_div(n, lanes),
    ensures
        crate::heights::padded(rows) > crate::heights::padded(min) && e.is_overflow(
            table,
            crate::heights::padded(rows),
            crate::heights::padded(min),
        ) ==> refused(e, table, n, lanes, min),
        crate::heights::padded(rows) <= crate::heights::padded(min) ==> fits(n, lanes, min),
{
    let k = ceil_log2(rows);
    let m = ceil_log2(min);
    lemma_ceil_log2(rows);
    lemma_ceil_log2(min);
    lemma_pow2_ordered(m, k);
    lemma_pow2_ordered(k, m);
    assert(least_power(min, m));
    lemma_least_for_lanes(n, lanes, 0, k);
    if pow2(k) <= pow2(m) {
        let a = pow2(k);
        let b = pow2(m);
        assert(a * lanes <= b * lanes) by (nonlinear_arith)
            requires
                a <= b,
        ;
    }
    if crate::heights::padded(rows) > crate::heights::padded(min) && e.is_overflow(
        table,
        crate::heights::padded(rows),
        crate::heights::padded(min),
    ) {
        assert(overflow_at(e, table, k, min));
    }
}

proof fn lemma_one_lane(n: nat)
    ensures
        ceil_div(n, 1) == n,
{
    crate::heights::lemma_ceil_div(n, 1);
}

/// Why a preparation of tables fails, with each error: the first faulty height of the packing, before
/// the circuit is asked for anything; the error of the circuit; a value outside the base field; the
/// error of the first plug-in that fails; the first table that does not fit under strict heights; or
/// the first required operation without a table. There is no other reason.
pub proof fn law_failure_in_full<
    K,
    E,
    P: NpoPreprocessor<K, D>,
    B: NpoAirBuilder<E, D>,
    G: Fn(&K) -> Result<PreprocessedColumns<D>, CircuitError>,
    S: Fn(&AluTable<D>) -> usize,
    const D: usize,
>(
    circuit: K,
    generate: G,
    field: FieldParams,
    packing: TablePacking,
    preprocessors: Vec<P>,
    builders: Vec<B>,
    profile: ConstraintProfile,
    schedule: S,
    e: CircuitError,
)
    requires
        call_ensures(
            get_airs_and_degrees_with_prep::<K, E, P, B, G, S, D>,
            (
                &circuit,
                generate,
                &field,
                &packing,
                &preprocessors,
                &builders,
                profile,
                schedule,
            ),
            Err(e),
        ),
        field.modulus > 1,
        D > 0,
        packing.public_lanes > 0,
        packing.alu_lanes > 0,
        forall|columns: PreprocessedColumns<D>| #[trigger]
            call_ensures(generate, (&circuit,), Ok(columns)) ==> columns.primitive@.len() == 3
                && columns.primitive@[2]@.len() % 12 == 0,
    ensures
        if !heights_are_sound(packing) {
            e matches CircuitError::InvalidPacking(fault) && reports_first_fault(packing, fault)
        } else {
            ||| call_ensures(generate, (&circuit,), Err(e))
            ||| exists|generated: PreprocessedColumns<D>| #[trigger]
                call_ensures(generate, (&circuit,), Ok(generated)) && columns_refused::<
                    K,
                    E,
                    P,
                    B,
                    S,
                    D,
                >(
                    circuit,
                    field,
                    packing,
                    preprocessors@,
                    builders@,
                    profile,
                    schedule,
                    generated,
                    e,
                )
        },
{
    lemma_valid_packing(packing);
    let result = Err::<PrepOutput<E, D>, CircuitError>(e);
    assert(prep_outcome(
        circuit,
        generate,
        field,
        packing,
        preprocessors@,
        builders@,
        profile,
        schedule,
        result,
    ));
    if !packing.valid() {
        let fault = e->InvalidPacking_0;
        lemma_first_fault(packing, fault);
    } else {
        let generated = lemma_generated(
            circuit,
            generate,
            field,
            packing,
            preprocessors@,
            builders@,
            profile,
            schedule,
            result,
        );
        if let Ok(columns) = generated {
            lemma_columns_refused(
                circuit,
                field,
                packing,
                preprocessors@,
                builders@,
                profile,
                schedule,
                columns,
                e,
            );
            assert(call_ensures(generate, (&circuit,), Ok(columns)));
        }
    }
}

proof fn lemma_columns_refused<
    K,
    E,
    P: NpoPreprocessor<K, D>,
    B: NpoAirBuilder<E, D>,
    S: Fn(&AluTable<D>) -> usize,
    const D: usize,
>(
    circuit: K,
    field: FieldParams,
    packing: TablePacking,
    preprocessors: Seq<P>,
    builders: Seq<B>,
    profile: ConstraintProfile,
    schedule: S,
    columns: PreprocessedColumns<D>,
    e: CircuitError,
)
    requires
        field.modulus > 1,
        D > 0,
        packing.public_lanes > 0,
        packing.alu_lanes > 0,
        columns.primitive@.len() == 3,
        columns.primitive@[2]@.len() % 12 == 0,
        columns_outcome(
            circuit,
            field,
            packing,
            preprocessors,
            builders,
            profile,
            schedule,
            columns,
            Err::<PrepOutput<E, D>, CircuitError>(e),
        ),
    ensures
        columns_refused::<K, E, P, B, S, D>(
            circuit,
            field,
            packing,
            preprocessors,
            builders,
            profile,
            schedule,
            columns,
            e,
        ),
{
    let result = Err::<PrepOutput<E, D>, CircuitError>(e);
    lemma_base_columns(columns.primitive@);
    if in_base_field(columns.primitive@) {
        let (steps, plugins) = lemma_plugin_run(
            circuit,
            field,
            packing,
            preprocessors,
            builders,
            profile,
            schedule,
            columns,
            result,
        );
        lemma_ran_in_turn(circuit, preprocessors, columns, steps);
        assert(steps.len() > 0 ==> steps[steps.len() - 1] == steps.last());
        if plugins is Ok {
            let prep = lemma_tables_refused::<E, B, S, D>(
                field,
                packing,
                builders,
                profile,
                schedule,
                columns,
                steps,
                e,
            );
            assert(prep.tables_refused(field, packing, builders, profile, schedule, e));
        } else {
            assert(failed_in_turn(circuit, preprocessors, columns, steps, e));
        }
    }
}

proof fn lemma_tables_refused<
    E,
    B: NpoAirBuilder<E, D>,
    S: Fn(&AluTable<D>) -> usize,
    const D: usize,
>(
    field: FieldParams,
    packing: TablePacking,
    builders: Seq<B>,
    profile: ConstraintProfile,
    schedule: S,
    generated: PreprocessedColumns<D>,
    steps: Seq<PluginStep<D>>,
    e: CircuitError,
) -> (prep: Preparation<E, D>)
    requires
        field.modulus > 1,
        D > 0,
        packing.public_lanes > 0,
        packing.alu_lanes > 0,
        generated.primitive@.len() == 3,
        generated.primitive@[2]@.len() % 12 == 0,
        in_base_field(generated.primitive@),
        tables_outcome(
            field,
            packing,
            builders,
            profile,
            schedule,
            generated,
            columns_after(generated, steps),
            merged_rows(steps),
            Err::<PrepOutput<E, D>, CircuitError>(e),
        ),
    ensures
        prep.generated == generated,
        prep.steps == steps,
        prep.tables_refused(field, packing, builders, profile, schedule, e),
{
    reveal(Preparation::tables_refused);
    let result = Err::<PrepOutput<E, D>, CircuitError>(e);
    lemma_base_columns(generated.primitive@);
    let left = columns_after(generated, steps);
    assert(steps.len() > 0 ==> steps[steps.len() - 1] == steps.last());
    assert(left == left_columns(generated, steps));
    let input = PrimitiveInput {
        consts: base_column(generated.primitive@[0]@),
        publics: base_column(generated.primitive@[1]@),
        alu_ops: base_column(generated.primitive@[2]@),
        const_values: left.const_values@,
        ext_reads: left.ext_reads@,
    };
    let rows = crate::npo::with_required(merged_rows(steps), packing.required_npo@);
    let primitive = choose|
        primitive: Result<(Vec<(CircuitTableAir<E, D>, usize)>, Vec<Vec<u64>>), CircuitError>,
    |
        {
            &&& #[trigger] input.outcome(field, packing, schedule, primitive)
            &&& match primitive {
                Ok(p) => npo_outcome(packing, builders, profile, p.0@, p.1@, rows, result),
                Err(error) => error == e,
            }
        };
    let floor = packing.min_trace_height;
    let const_min = own_or(packing.const_min_height, floor) as nat;
    let public_min = own_or(packing.public_min_height, floor) as nat;
    let alu_min = own_or(packing.alu_min_height, floor) as nat;
    let public_lanes = input.public_lanes(packing) as nat;
    let alu_lanes = input.alu_lanes(packing) as nat;
    lemma_one_lane(input.const_count());
    lemma_refused(input.const_count(), input.const_count(), 1, const_min, "CONST"@, e);
    lemma_refused(
        ceil_div(input.publics.len(), public_lanes),
        input.publics.len(),
        public_lanes,
        public_min,
        "PUBLIC"@,
        e,
    );
    let blank = Preparation {
        generated,
        steps,
        alu: arbitrary(),
        alu_entries: 0,
        listed: Seq::empty(),
        choices: Seq::empty(),
    };
    if input.const_overflows(packing) || input.public_overflows(packing) {
        blank
    } else {
        let (alu, entries) = choose|alu: AluTable<D>, entries: usize|
            {
                &&& is_alu_input(
                    alu,
                    field,
                    packing,
                    input.alu_rows(field),
                    input.alu_lanes(packing),
                )
                &&& #[trigger] call_ensures(schedule, (&alu,), entries)
                &&& if input.alu_overflows(packing, entries) {
                    primitive matches Err(error) && error.is_overflow(
                        "ALU"@,
                        crate::heights::padded(ceil_div(entries as nat, alu_lanes)),
                        crate::heights::padded(alu_min),
                    )
                } else {
                    primitive matches Ok(r) && input.is_prepared(
                        field,
                        packing,
                        alu,
                        entries,
                        r.0@,
                        r.1@,
                    )
                }
            };
        lemma_are_alu_rows(field, input.ext_reads, input.alu_ops, D);
        lemma_alu_rows_len(field, input.ext_reads, input.alu_ops, D);
        lemma_refused(
            ceil_div(entries as nat, alu_lanes),
            entries as nat,
            alu_lanes,
            alu_min,
            "ALU"@,
            e,
        );
        let scheduled = Preparation { alu, alu_entries: entries, ..blank };
        assert(scheduled.alu_input_is_right(field, packing));
        if input.alu_overflows(packing, entries) {
            scheduled
        } else {
            let p = primitive->Ok_0;
            let prep = lemma_plugins_refused(
                scheduled,
                packing,
                builders,
                profile,
                p.0@,
                p.1@,
                e,
            );
            assert(prep.alu_input_is_right(field, packing));
            prep
        }
    }
}

proof fn lemma_listing<E, const D: usize>(
    prep: Preparation<E, D>,
    rows: Map<Seq<char>, Seq<u64>>,
)
    requires
        lists_entries(rows, prep.listed),
    ensures
        prep.listing_is_right(rows),
{
    assert forall|op: Seq<char>| #[trigger] rows.dom().contains(op) implies exists|i: int|
        0 <= i < prep.listed.len() && (#[trigger] prep.listed[i]).0@ == op by {
        let i = choose|i: int| 0 <= i < prep.listed.len() && (#[trigger] prep.listed[i]).0@ == op;
        assert(prep.listed[i].0@ == op);
    }
}

proof fn lemma_plugins_refused<E, B: NpoAirBuilder<E, D>, const D: usize>(
    scheduled: Preparation<E, D>,
    packing: TablePacking,
    builders: Seq<B>,
    profile: ConstraintProfile,
    tables: Seq<(CircuitTableAir<E, D>, usize)>,
    base_prep: Seq<Vec<u64>>,
    e: CircuitError,
) -> (prep: Preparation<E, D>)
    requires
        npo_outcome(
            packing,
            builders,
            profile,
            tables,
            base_prep,
            crate::npo::with_required(merged_rows(scheduled.steps), packing.required_npo@),
            Err::<PrepOutput<E, D>, CircuitError>(e),
        ),
    ensures
        prep.generated == scheduled.generated,
        prep.steps == scheduled.steps,
        prep.alu == scheduled.alu,
        prep.alu_entries == scheduled.alu_entries,
        exists|rows: Map<Seq<char>, Seq<u64>>| #[trigger]
            prep.map_is_right(packing, rows) && prep.listing_is_right(rows),
        prep.builders_were_asked(builders, packing, profile),
        prep.plugin_refused(packing, e) || (prep.choices.len() == builders.len()
            && prep.table_missing(packing, e)),
{
    let steps = scheduled.steps;
    let rows = crate::npo::with_required(merged_rows(steps), packing.required_npo@);
    let (listed, choices) = choose|
        listed: Seq<(NpoTypeId, Vec<u64>)>,
        choices: Seq<Option<NpoTable<E, D>>>,
    |
        {
            &&& #[trigger] lists_entries(rows, listed)
            &&& #[trigger] is_builder_run(builders, listed, packing, profile, choices)
            &&& {
                ||| ends_in_overflow(listed, packing, choices, e)
                ||| {
                    &&& choices.len() == builders.len()
                    &&& is_first_missing(packing.required_npo@, chosen_ops(choices, listed), e)
                }
            }
        };
    let prep = Preparation { listed, choices, ..scheduled };
    lemma_map(prep, packing, rows);
    lemma_listing(prep, rows);
    assert forall|k: int| 0 <= k < choices.len() implies #[trigger] prep.choice_is_right(
        builders,
        packing,
        profile,
        k,
    ) by {
        let choice = choices[k];
        assert(is_choice(builders[k], listed, packing, profile, choice));
        assert forall|i: int|
            0 <= i < listed.len() && (choice matches Some(t) ==> i < t.0) implies asked(
            builders[k],
            #[trigger] listed[i],
            packing,
            profile,
            None,
        ) by {
            assert(may_build(builders[k], listed[i], packing, profile, None));
            lemma_asked(builders[k], listed[i], packing, profile, None);
        }
        if let Some(t) = choice {
            lemma_asked(builders[k], listed[t.0], packing, profile, Some(t.1));
        }
    }
    assert forall|k: int| 0 <= k < choices.len() - 1 && packing.strict implies ((
    #[trigger] choices[k]) matches Some(t) ==> within(packing, listed[t.0].0@, t.1.1)) by {
        assert(!npo_overflows(listed, packing, choices[k]));
        if let Some(t) = choices[k] {
            lemma_within(packing, listed[t.0].0@, t.1.1);
        }
    }
    assert(prep.builders_were_asked(builders, packing, profile));
    if ends_in_overflow(listed, packing, choices, e) {
        let t = choices.last()->Some_0;
        let op = listed[t.0].0@;
        let h = packing.npo_height(op);
        lemma_configured_height(packing, op);
        lemma_ceil_log2(h as nat);
        lemma_pow2_ordered(ceil_log2(h as nat), t.1.1 as nat);
        assert(least_power(h as nat, ceil_log2(h as nat)));
        assert(overflow_at(e, op, t.1.1 as nat, h as nat));
        assert(prep.plugin_refused(packing, e));
    } else {
        let built = chosen_ops(choices, listed);
        let required = packing.required_npo@;
        let j = choose|j: int|
            {
                &&& 0 <= j < required.len()
                &&& forall|i: int| 0 <= i < j ==> built.contains((#[trigger] required[i])@)
                &&& !built.contains((#[trigger] required[j])@)
                &&& e.is_missing_table(required[j]@)
            };
        assert forall|i: int| 0 <= i < j implies prep.has_choice_for((#[trigger] required[i])@) by {
            let k = lemma_chosen_op_has_choice(choices, listed, required[i]@);
            assert(prep.choices[k] is Some);
        }
        if prep.has_choice_for(required[j]@) {
            let k = choose|k: int|
                0 <= k < prep.choices.len() && ((#[trigger] prep.choices[k]) matches Some(t)
                    && prep.listed[t.0].0@ == required[j]@);
            law_tables_follow_builder_order(choices, listed, k);
        }
        assert(prep.table_missing(packing, e));
    }
    prep
}

/// A builder that asks for `n` lanes is asked for tables of `n` lanes, and of no others, wherever the
/// packing sets none for the operation.
pub proof fn law_builders_get_their_lanes<E, B: NpoAirBuilder<E, D>, const D: usize>(
    prep: Preparation<E, D>,
    builders: Seq<B>,
    packing: TablePacking,
    profile: ConstraintProfile,
    tables: Seq<(CircuitTableAir<E, D>, usize)>,
    k: int,
    n: usize,
)
    requires
        prep.plugin_tables_are_right(builders, packing, profile, tables),
        0 <= k < builders.len(),
        prep.choices[k] is Some,
        forall|lanes: usize| #[trigger]
            call_ensures(B::lanes, (&builders[k],), lanes) ==> lanes == n,
        forall|i: int|
            0 <= i < packing.npo_lanes@.len() ==> (#[trigger] packing.npo_lanes@[i]).0@
                != prep.listed[prep.choices[k]->Some_0.0].0@,
    ensures
        ({
            let t = prep.choices[k]->Some_0;
            let entry = prep.listed[t.0];
            exists|height: usize| #[trigger]
                call_ensures(
                    B::try_build,
                    (&builders[k], &entry.0, &entry.1, height, n, profile),
                    Some(t.1),
                ) && configured_height(packing, entry.0@, height)
        }),
{
    let t = prep.choices[k]->Some_0;
    let entry = prep.listed[t.0];
    assert(asked(builders[k], entry, packing, profile, Some(t.1)));
    let (height, lanes) = choose|height: usize, lanes: usize|
        {
            &&& configured_height(packing, entry.0@, height)
            &&& last_entry(packing.npo_lanes@, entry.0@, Some(lanes)) || (last_entry(
                packing.npo_lanes@,
                entry.0@,
                None,
            ) && call_ensures(B::lanes, (&builders[k],), lanes))
            &&& #[trigger] call_ensures(
                B::try_build,
                (&builders[k], &entry.0, &entry.1, height, lanes, profile),
                Some(t.1),
            )
        };
    assert(lanes == n);
    assert(call_ensures(
        B::try_build,
        (&builders[k], &entry.0, &entry.1, height, n, profile),
        Some(t.1),
    ));
}

} // verus!
