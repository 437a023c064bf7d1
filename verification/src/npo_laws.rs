//! What operations, their rows, and the checks on them amount to.
use crate::air::{AluAir, AluTable, ConstAir, PublicAir};
use crate::common::{NpoPreprocessor, PreprocessedColumns};
use crate::error::CircuitError;
use crate::npo::{check_required, list_required, names, run_preprocessors, PluginStep};
use crate::npo_map::NonPrimitivePreprocessedMap;
use crate::ops::{
    ChallengerPermConfig, ConstraintProfile, NpoTypeId, Poseidon1Config, Poseidon2Config,
    PrimitiveOpType,
};
use crate::prep_laws::{failed_in_turn, lemma_ran_in_turn, left_columns, ran_in_turn};
use crate::primitive::base_columns;
use vstd::prelude::*;

verus! {

/// A new map lists no operation; inserting sets the rows of one operation and no other.
pub proof fn law_rows_of_operations(
    new: NonPrimitivePreprocessedMap,
    map: &mut NonPrimitivePreprocessedMap,
    op: NpoTypeId,
    rows: Vec<u64>,
    res: (),
)
    requires
        call_ensures(NonPrimitivePreprocessedMap::new, (), new),
        call_ensures(NonPrimitivePreprocessedMap::insert, (map, op, rows), res),
    ensures
        forall|other: Seq<char>| !#[trigger] new@.dom().contains(other),
        forall|other: Seq<char>| #[trigger]
            final(map)@.dom().contains(other) <==> other == op@ || old(map)@.dom().contains(other),
        final(map)@[op@] == rows@,
        forall|other: Seq<char>|
            other != op@ && old(map)@.dom().contains(other) ==> #[trigger] final(map)@[other]
                == old(map)@[other],
{
}

/// Taking over another map lists the operations of both; where both list one, the rows of the other
/// map count.
pub proof fn law_merged_operations(
    map: &mut NonPrimitivePreprocessedMap,
    other: NonPrimitivePreprocessedMap,
    res: (),
)
    requires
        call_ensures(NonPrimitivePreprocessedMap::extend, (map, other), res),
    ensures
        forall|op: Seq<char>| #[trigger]
            final(map)@.dom().contains(op) <==> old(map)@.dom().contains(op)
                || other@.dom().contains(op),
        forall|op: Seq<char>|
            other@.dom().contains(op) ==> #[trigger] final(map)@[op] == other@[op],
        forall|op: Seq<char>|
            !other@.dom().contains(op) && old(map)@.dom().contains(op)
                ==> #[trigger] final(map)@[op] == old(map)@[op],
{
}

/// An operation that is made sure to be listed keeps its rows, or has none; the others keep theirs.
pub proof fn law_listed_operations(
    map: &mut NonPrimitivePreprocessedMap,
    op: NpoTypeId,
    res: (),
)
    requires
        call_ensures(NonPrimitivePreprocessedMap::ensure_listed, (map, &op), res),
    ensures
        forall|other: Seq<char>| #[trigger]
            final(map)@.dom().contains(other) <==> other == op@ || old(map)@.dom().contains(other),
        forall|other: Seq<char>|
            old(map)@.dom().contains(other) ==> #[trigger] final(map)@[other] == old(map)@[other],
        !old(map)@.dom().contains(op@) ==> final(map)@[op@].len() == 0,
{
}

/// A map gives the rows of the operations that it lists, and lists each of them once.
pub proof fn law_lookups(
    map: NonPrimitivePreprocessedMap,
    op: NpoTypeId,
    rows: Option<Vec<u64>>,
    entries: Vec<(NpoTypeId, Vec<u64>)>,
)
    requires
        call_ensures(NonPrimitivePreprocessedMap::get, (&map, &op), rows),
        call_ensures(NonPrimitivePreprocessedMap::entries, (&map,), entries),
    ensures
        map@.dom().contains(op@) ==> rows is Some && rows->Some_0@ == map@[op@],
        !map@.dom().contains(op@) ==> rows is None,
        forall|i: int|
            0 <= i < entries@.len() ==> map@.dom().contains((#[trigger] entries@[i]).0@)
                && map@[entries@[i].0@] == entries@[i].1@,
        forall|i: int, j: int|
            0 <= i < j < entries@.len() ==> (#[trigger] entries@[i]).0@ != (
            #[trigger] entries@[j]).0@,
        map@.dom().contains(op@) ==> exists|i: int|
            0 <= i < entries@.len() && (#[trigger] entries@[i]).0@ == op@,
{
}

/// Listing the required operations adds those that are missing, without rows, and changes nothing
/// else.
pub proof fn law_required_are_listed(
    rows: &mut NonPrimitivePreprocessedMap,
    required: Vec<NpoTypeId>,
    res: (),
)
    requires
        call_ensures(list_required, (rows, &required), res),
    ensures
        forall|op: Seq<char>| #[trigger]
            final(rows)@.dom().contains(op) <==> old(rows)@.dom().contains(op) || exists|j: int|
                0 <= j < required@.len() && (#[trigger] required@[j])@ == op,
        forall|op: Seq<char>|
            old(rows)@.dom().contains(op) ==> #[trigger] final(rows)@[op] == old(rows)@[op],
        forall|op: Seq<char>|
            !old(rows)@.dom().contains(op) && final(rows)@.dom().contains(op)
                ==> #[trigger] final(rows)@[op].len() == 0,
{
    let required_names = names(required@);
    assert forall|op: Seq<char>|
        required_names.contains(op) <==> exists|j: int|
            0 <= j < required@.len() && (#[trigger] required@[j])@ == op by {
        if required_names.contains(op) {
            let j = required_names.index_of(op);
            assert(required@[j]@ == op);
        }
        if exists|j: int| 0 <= j < required@.len() && (#[trigger] required@[j])@ == op {
            let j = choose|j: int| 0 <= j < required@.len() && (#[trigger] required@[j])@ == op;
            assert(required_names[j] == op);
        }
    }
}

/// The check of required operations passes exactly if all of them were built, and reports the first
/// that was not.
pub proof fn law_required_are_checked(
    required: Vec<NpoTypeId>,
    built: Vec<NpoTypeId>,
    res: Result<(), CircuitError>,
)
    requires
        call_ensures(check_required, (&required, &built), res),
    ensures
        ({
            let was_built = |op: Seq<char>|
                exists|k: int| 0 <= k < built@.len() && (#[trigger] built@[k])@ == op;
            &&& res is Ok <==> forall|j: int|
                0 <= j < required@.len() ==> was_built((#[trigger] required@[j])@)
            &&& res matches Err(e) ==> exists|j: int|
                {
                    &&& 0 <= j < required@.len()
                    &&& !was_built((#[trigger] required@[j])@)
                    &&& forall|i: int| 0 <= i < j ==> was_built((#[trigger] required@[i])@)
                    &&& e matches CircuitError::NonPrimitiveOpLayoutMismatch { op, expected, got }
                    &&& op@ == required@[j]@
                    &&& expected@ == "an AIR builder for the required table"@
                    &&& got == 0
                }
        }),
{
    let was_built = |op: Seq<char>|
        exists|k: int| 0 <= k < built@.len() && (#[trigger] built@[k])@ == op;
    assert forall|op: Seq<char>| #[trigger] names(built@).contains(op) <==> was_built(op) by {
        if names(built@).contains(op) {
            let k = names(built@).index_of(op);
            assert(built@[k]@ == op);
        }
        if was_built(op) {
            let k = choose|k: int| 0 <= k < built@.len() && (#[trigger] built@[k])@ == op;
            assert(names(built@)[k] == op);
        }
    }
    if let Err(e) = res {
        let j = choose|j: int|
            {
                &&& 0 <= j < required@.len()
                &&& forall|i: int|
                    0 <= i < j ==> names(built@).contains((#[trigger] required@[i])@)
                &&& !names(built@).contains((#[trigger] required@[j])@)
                &&& e.is_missing_table(required@[j]@)
            };
        assert(!was_built(required@[j]@));
        assert forall|i: int| 0 <= i < j implies was_built((#[trigger] required@[i])@) by {
            assert(names(built@).contains(required@[i]@));
        }
    } else {
        assert forall|j: int| 0 <= j < required@.len() implies was_built(
            (#[trigger] required@[j])@,
        ) by {
            assert(names(built@).contains(required@[j]@));
        }
    }
    if forall|j: int| 0 <= j < required@.len() ==> was_built((#[trigger] required@[j])@) {
        assert forall|j: int| 0 <= j < required@.len() implies names(built@).contains(
            (#[trigger] required@[j])@,
        ) by {
            assert(was_built(required@[j]@));
        }
    }
}

/// The plug-ins run in turn up to the first that fails, and the columns are left as the last one that
/// ran leaves them.
pub proof fn law_plugins_run_in_turn<K, P: NpoPreprocessor<K, D>, const D: usize>(
    circuit: K,
    preprocessors: Vec<P>,
    columns: &mut PreprocessedColumns<D>,
    res: Result<NonPrimitivePreprocessedMap, CircuitError>,
)
    requires
        call_ensures(
            run_preprocessors::<K, P, D>,
            (&circuit, &preprocessors, columns),
            res,
        ),
    ensures
        exists|steps: Seq<PluginStep<D>>|
            {
                &&& #[trigger] ran_in_turn(circuit, preprocessors@, *old(columns), steps)
                &&& *final(columns) == left_columns(*old(columns), steps)
                &&& res is Ok ==> steps.len() == preprocessors@.len() && forall|i: int|
                    0 <= i < steps.len() ==> (#[trigger] steps[i]).1 is Ok
                &&& res matches Err(e) ==> failed_in_turn(
                    circuit,
                    preprocessors@,
                    *old(columns),
                    steps,
                    e,
                )
            },
{
    let steps = choose|steps: Seq<PluginStep<D>>|
        {
            &&& #[trigger] crate::npo::is_plugin_run(
                preprocessors@,
                circuit,
                *columns,
                steps,
            )
            &&& crate::npo::is_plugin_result(preprocessors@.len(), steps, res)
            &&& *final(columns) == crate::npo::columns_after(*columns, steps)
        };
    lemma_ran_in_turn(circuit, preprocessors@, *columns, steps);
    assert(steps.len() > 0 ==> steps[steps.len() - 1] == steps.last());
    assert(ran_in_turn(circuit, preprocessors@, *columns, steps));
}

/// Columns are taken over by their first coefficients, if all the others are zero, and refused
/// otherwise.
pub proof fn law_base_columns<const D: usize>(
    columns: Vec<Vec<[u64; D]>>,
    res: Result<Vec<Vec<u64>>, CircuitError>,
)
    requires
        D > 0,
        call_ensures(base_columns::<D>, (&columns,), res),
    ensures
        res is Ok <==> forall|i: int, j: int, k: int|
            0 <= i < columns@.len() && 0 <= j < columns@[i]@.len() && 0 < k < D
                ==> #[trigger] columns@[i]@[j]@[k] == 0,
        res matches Ok(base) ==> base@.len() == columns@.len() && forall|i: int, j: int|
            0 <= i < columns@.len() && 0 <= j < columns@[i]@.len() ==> base@[i]@.len()
                == columns@[i]@.len() && base@[i]@[j] == #[trigger] columns@[i]@[j]@[0],
        res matches Err(e) ==> e is InvalidPreprocessedValues,
{
    crate::prep_laws::lemma_base_columns(columns@);
    if let Ok(base) = res {
        assert forall|i: int, j: int|
            0 <= i < columns@.len() && 0 <= j < columns@[i]@.len() implies base@[i]@.len()
            == columns@[i]@.len() && base@[i]@[j] == #[trigger] columns@[i]@[j]@[0] by {
            assert(base@[i]@ == crate::prep_laws::first_coefficients(columns@[i]@));
        }
    }
}

/// The primitive tables stand in the order Const, Public, ALU; names are what they are made of; and
/// the layout is the standard one by default.
pub proof fn law_identities(
    of_const: usize,
    of_public: usize,
    of_alu: usize,
    name: &str,
    op: NpoTypeId,
    other: NpoTypeId,
    same: bool,
    copy: NpoTypeId,
    profile: ConstraintProfile,
)
    requires
        call_ensures(PrimitiveOpType::index, (PrimitiveOpType::Const,), of_const),
        call_ensures(PrimitiveOpType::index, (PrimitiveOpType::Public,), of_public),
        call_ensures(PrimitiveOpType::index, (PrimitiveOpType::Alu,), of_alu),
        call_ensures(NpoTypeId::new, (name,), op),
        call_ensures(NpoTypeId::same, (&op, &other), same),
        call_ensures(<NpoTypeId as Clone>::clone, (&op,), copy),
        call_ensures(<ConstraintProfile as Default>::default, (), profile),
    ensures
        of_const == 0 && of_public == 1 && of_alu == 2,
        op.name@ == name@,
        same <==> op.name@ == other.name@,
        copy.name@ == op.name@,
        profile == ConstraintProfile::Standard,
{
}

/// A configuration answers as the permutation that it is.
pub proof fn law_answers_of_configurations(
    c1: Poseidon1Config,
    c2: Poseidon2Config,
    one_as_one: Option<&Poseidon1Config>,
    one_as_two: Option<&Poseidon2Config>,
    two_as_one: Option<&Poseidon1Config>,
    two_as_two: Option<&Poseidon2Config>,
    d1: usize,
    d2: usize,
)
    requires
        call_ensures(
            <Poseidon1Config as ChallengerPermConfig>::as_poseidon1,
            (&c1,),
            one_as_one,
        ),
        call_ensures(
            <Poseidon1Config as ChallengerPermConfig>::as_poseidon2,
            (&c1,),
            one_as_two,
        ),
        call_ensures(
            <Poseidon2Config as ChallengerPermConfig>::as_poseidon1,
            (&c2,),
            two_as_one,
        ),
        call_ensures(
            <Poseidon2Config as ChallengerPermConfig>::as_poseidon2,
            (&c2,),
            two_as_two,
        ),
        call_ensures(<Poseidon1Config as ChallengerPermConfig>::extension_degree, (&c1,), d1),
        call_ensures(<Poseidon2Config as ChallengerPermConfig>::extension_degree, (&c2,), d2),
    ensures
        one_as_one matches Some(c) && *c == c1,
        one_as_two is None,
        two_as_one is None,
        two_as_two matches Some(c) && *c == c2,
        d1 == c1.degree,
        d2 == c2.degree,
{
}

/// A table is described by what it is made from, without a configured height at first; setting the
/// height changes nothing else.
pub proof fn law_table_descriptions<const D: usize>(
    count: usize,
    lanes: usize,
    rows: Vec<u64>,
    table: AluTable<D>,
    height: usize,
    c: ConstAir<D>,
    c_set: ConstAir<D>,
    p: PublicAir<D>,
    p_set: PublicAir<D>,
    a: AluAir<D>,
    a_set: AluAir<D>,
    entries: usize,
)
    requires
        call_ensures(ConstAir::<D>::new_with_preprocessed, (count, rows), c),
        call_ensures(ConstAir::<D>::with_min_height, (c, height), c_set),
        call_ensures(PublicAir::<D>::new_with_preprocessed, (count, lanes, rows), p),
        call_ensures(PublicAir::<D>::with_min_height, (p, height), p_set),
        call_ensures(AluAir::<D>::from_schedule, (table, count), a),
        call_ensures(AluAir::<D>::with_min_height, (a, height), a_set),
        call_ensures(AluAir::<D>::scheduled_entry_count, (&a_set,), entries),
    ensures
        c.height == count && c.preprocessed@ == rows@ && c.min_height == 1,
        c_set.height == count && c_set.preprocessed@ == rows@ && c_set.min_height == height,
        p.num_ops == count && p.lanes == lanes && p.preprocessed@ == rows@ && p.min_height == 1,
        p_set.num_ops == count && p_set.lanes == lanes && p_set.preprocessed@ == rows@
            && p_set.min_height == height,
        a.table == table && a.scheduled_entries == count && a.min_height == 1,
        a_set.table == table && a_set.scheduled_entries == count && a_set.min_height == height,
        entries == count,
{
}

} // verus!
