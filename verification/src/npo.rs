//! Plug-in operations: their preprocessing and their tables.
use crate::air::CircuitTableAir;
use crate::common::{NpoAirBuilder, NpoPreprocessor, PreprocessedColumns};
use crate::error::{CircuitError, ProofMetadataError};
use crate::heights::{max_height, next_power_of_two, padded, power_of_two};
use crate::npo_map::NonPrimitivePreprocessedMap;
use crate::ops::{ConstraintProfile, NpoTypeId};
use crate::packing::{setting_of, TablePacking};
use vstd::arithmetic::power2::pow2;
use vstd::prelude::*;

verus! {

/// What one plug-in left: the columns, and its rows or its error.
pub type PluginStep<const D: usize> = (
    PreprocessedColumns<D>,
    Result<NonPrimitivePreprocessedMap, CircuitError>,
);

/// The columns after the steps.
pub open spec fn columns_after<const D: usize>(
    start: PreprocessedColumns<D>,
    steps: Seq<PluginStep<D>>,
) -> PreprocessedColumns<D> {
    if steps.len() == 0 {
        start
    } else {
        steps.last().0
    }
}

/// The rows of all steps; where two plug-ins give rows for an operation, the later one's count.
pub open spec fn merged_rows<const D: usize>(steps: Seq<PluginStep<D>>) -> Map<
    Seq<char>,
    Seq<u64>,
>
    decreases steps.len(),
{
    if steps.len() == 0 {
        Map::empty()
    } else {
        merged_rows(steps.drop_last()).union_prefer_right(steps.last().1->Ok_0@)
    }
}

/// Whether `steps` is a run of the first plug-ins, each on the columns the one before it left,
/// and stopping at the first error.
pub open spec fn is_plugin_run<K, P: NpoPreprocessor<K, D>, const D: usize>(
    preprocessors: Seq<P>,
    circuit: K,
    start: PreprocessedColumns<D>,
    steps: Seq<PluginStep<D>>,
) -> bool {
    &&& steps.len() <= preprocessors.len()
    &&& forall|i: int|
        0 <= i < steps.len() ==> preprocessors[i].preprocess_outcome(
            circuit,
            columns_after(start, #[trigger] steps.take(i)),
            steps[i].0,
            steps[i].1,
        )
    &&& forall|i: int| 0 <= i < steps.len() - 1 ==> (#[trigger] steps[i]).1 is Ok
}

/// Whether a run of all plug-ins, or of those up to the first error, gives `result`.
pub open spec fn is_plugin_result<const D: usize>(
    plugins: nat,
    steps: Seq<PluginStep<D>>,
    result: Result<NonPrimitivePreprocessedMap, CircuitError>,
) -> bool {
    match result {
        Ok(rows) => {
            &&& steps.len() == plugins
            &&& steps.len() > 0 ==> steps.last().1 is Ok
            &&& rows@ == merged_rows(steps)
        },
        Err(e) => steps.len() > 0 && steps.last().1 == Err::<NonPrimitivePreprocessedMap, _>(e),
    }
}

/// Run the plug-ins in order, each on the columns the one before it left, and merge their rows.
pub fn run_preprocessors<K, P: NpoPreprocessor<K, D>, const D: usize>(
    circuit: &K,
    preprocessors: &Vec<P>,
    preprocessed: &mut PreprocessedColumns<D>,
) -> (res: Result<NonPrimitivePreprocessedMap, CircuitError>)
    ensures
        exists|steps: Seq<PluginStep<D>>|
            {
                &&& #[trigger] is_plugin_run(
                    preprocessors@,
                    *circuit,
                    *old(preprocessed),
                    steps,
                )
                &&& is_plugin_result(preprocessors@.len(), steps, res)
                &&& *final(preprocessed) == columns_after(*old(preprocessed), steps)
            },
{
    let ghost start = *preprocessed;
    let ghost mut steps: Seq<PluginStep<D>> = Seq::empty();
    let mut rows = NonPrimitivePreprocessedMap::new();
    let mut i: usize = 0;
    while i < preprocessors.len()
        invariant
            i <= preprocessors.len(),
            start == *old(preprocessed),
            steps.len() == i,
            is_plugin_run(preprocessors@, *circuit, start, steps),
            steps.len() > 0 ==> steps.last().1 is Ok,
            rows@ == merged_rows(steps),
            *preprocessed == columns_after(start, steps),
        decreases preprocessors.len() - i,
    {
        let ghost before = steps;
        let result = preprocessors[i].preprocess(circuit, preprocessed);
        proof {
            steps = before.push((*preprocessed, result));
            assert(steps.drop_last() =~= before);
            assert(steps.take(i as int) =~= before);
            assert forall|k: int| 0 <= k < steps.len() implies preprocessors@[k].preprocess_outcome(
                *circuit,
                columns_after(start, #[trigger] steps.take(k)),
                steps[k].0,
                steps[k].1,
            ) by {
                if k < i {
                    assert(steps.take(k) =~= before.take(k));
                    assert(steps[k] == before[k]);
                }
            }
            assert forall|k: int| 0 <= k < steps.len() - 1 implies (#[trigger] steps[k]).1 is Ok by {
                assert(steps[k] == before[k]);
            }
            assert(is_plugin_run(preprocessors@, *circuit, start, steps));
        }
        match result {
            Ok(plugin_rows) => {
                rows.extend(plugin_rows);
            },
            Err(e) => {
                return Err(e);
            },
        }
        i += 1;
    }
    Ok(rows)
}

/// `rows`, with an entry without rows for each of `required` that has none.
pub open spec fn with_required(
    rows: Map<Seq<char>, Seq<u64>>,
    required: Seq<NpoTypeId>,
) -> Map<Seq<char>, Seq<u64>> {
    Map::new(
        |op: Seq<char>| rows.dom().contains(op) || names(required).contains(op),
        |op: Seq<char>|
            if rows.dom().contains(op) {
                rows[op]
            } else {
                Seq::empty()
            },
    )
}

/// The names of operations.
pub open spec fn names(ops: Seq<NpoTypeId>) -> Seq<Seq<char>> {
    ops.map_values(|op: NpoTypeId| op@)
}

/// Give every required operation an entry.
pub fn list_required(rows: &mut NonPrimitivePreprocessedMap, required: &Vec<NpoTypeId>)
    ensures
        final(rows)@ == with_required(old(rows)@, required@),
{
    let ghost start = rows@;
    assert(start =~= with_required(start, required@.take(0)));
    let mut i: usize = 0;
    while i < required.len()
        invariant
            i <= required.len(),
            start == old(rows)@,
            rows@ == with_required(start, required@.take(i as int)),
        decreases required.len() - i,
    {
        rows.ensure_listed(&required[i]);
        proof {
            let before = names(required@.take(i as int));
            let after = names(required@.take(i + 1));
            assert(after =~= before.push(required@[i as int]@));
            assert forall|op: Seq<char>| after.contains(op) <==> before.contains(op) || op
                == required@[i as int]@ by {
                if before.contains(op) {
                    let k = before.index_of(op);
                    assert(after[k] == op);
                }
                if op == required@[i as int]@ {
                    assert(after[i as int] == op);
                }
            }
            assert(rows@ =~= with_required(start, required@.take(i + 1)));
        }
        i += 1;
    }
    assert(required@.take(i as int) =~= required@);
}

/// A table that a builder built for the operation at a position of the list.
pub type NpoTable<E, const D: usize> = (int, (CircuitTableAir<E, D>, usize));

/// Whether asking `builder` about the operation `entry` can give `built`: it is handed the
/// operation's rows, the height and lanes that the packing sets, or else the floor and the
/// builder's own lanes, and the profile.
pub open spec fn may_build<E, B: NpoAirBuilder<E, D>, const D: usize>(
    builder: B,
    entry: (NpoTypeId, Vec<u64>),
    packing: TablePacking,
    profile: ConstraintProfile,
    built: Option<(CircuitTableAir<E, D>, usize)>,
) -> bool {
    exists|lanes: usize|
        {
            &&& match packing.lanes_of(entry.0@) {
                Some(n) => lanes == n,
                None => call_ensures(B::lanes, (&builder,), lanes),
            }
            &&& #[trigger] call_ensures(
                B::try_build,
                (
                    &builder,
                    &entry.0,
                    &entry.1,
                    packing.npo_height(entry.0@),
                    lanes,
                    profile,
                ),
                built,
            )
        }
}

/// Whether `choice` is the first table that `builder` builds along the list, if it builds one.
pub open spec fn is_choice<E, B: NpoAirBuilder<E, D>, const D: usize>(
    builder: B,
    entries: Seq<(NpoTypeId, Vec<u64>)>,
    packing: TablePacking,
    profile: ConstraintProfile,
    choice: Option<NpoTable<E, D>>,
) -> bool {
    match choice {
        None => forall|i: int|
            0 <= i < entries.len() ==> may_build(
                builder,
                #[trigger] entries[i],
                packing,
                profile,
                None,
            ),
        Some(t) => {
            &&& 0 <= t.0 < entries.len()
            &&& forall|i: int|
                0 <= i < t.0 ==> may_build(builder, #[trigger] entries[i], packing, profile, None)
            &&& may_build(builder, entries[t.0], packing, profile, Some(t.1))
        },
    }
}

/// Whether a built table outgrows its height under strict heights.
pub open spec fn npo_overflows<E, const D: usize>(
    entries: Seq<(NpoTypeId, Vec<u64>)>,
    packing: TablePacking,
    choice: Option<NpoTable<E, D>>,
) -> bool {
    choice matches Some(t) && packing.strict && pow2(t.1.1 as nat) > padded(
        packing.npo_height(entries[t.0].0@) as nat,
    )
}

/// The tables among the choices, in order.
pub open spec fn chosen_tables<E, const D: usize>(choices: Seq<Option<NpoTable<E, D>>>) -> Seq<
    (CircuitTableAir<E, D>, usize),
>
    decreases choices.len(),
{
    if choices.len() == 0 {
        Seq::empty()
    } else {
        let before = chosen_tables(choices.drop_last());
        match choices.last() {
            Some(t) => before.push(t.1),
            None => before,
        }
    }
}

/// The names of the operations among the choices, in order.
pub open spec fn chosen_ops<E, const D: usize>(
    choices: Seq<Option<NpoTable<E, D>>>,
    entries: Seq<(NpoTypeId, Vec<u64>)>,
) -> Seq<Seq<char>>
    decreases choices.len(),
{
    if choices.len() == 0 {
        Seq::empty()
    } else {
        let before = chosen_ops(choices.drop_last(), entries);
        match choices.last() {
            Some(t) => before.push(entries[t.0].0@),
            None => before,
        }
    }
}

/// Whether `choices` are those of the first builders, none but the last of which may overflow.
pub open spec fn is_builder_run<E, B: NpoAirBuilder<E, D>, const D: usize>(
    builders: Seq<B>,
    entries: Seq<(NpoTypeId, Vec<u64>)>,
    packing: TablePacking,
    profile: ConstraintProfile,
    choices: Seq<Option<NpoTable<E, D>>>,
) -> bool {
    &&& choices.len() <= builders.len()
    &&& forall|k: int|
        0 <= k < choices.len() ==> is_choice(
            builders[k],
            entries,
            packing,
            profile,
            #[trigger] choices[k],
        )
    &&& forall|k: int|
        0 <= k < choices.len() - 1 ==> !npo_overflows(entries, packing, #[trigger] choices[k])
}

/// Whether the choices end in the overflow of the last one, reported by `e`.
pub open spec fn ends_in_overflow<E, const D: usize>(
    entries: Seq<(NpoTypeId, Vec<u64>)>,
    packing: TablePacking,
    choices: Seq<Option<NpoTable<E, D>>>,
    e: CircuitError,
) -> bool {
    &&& choices.len() > 0
    &&& npo_overflows(entries, packing, choices.last())
    &&& e.is_overflow(
        entries[choices.last()->Some_0.0].0@,
        pow2(choices.last()->Some_0.1.1 as nat),
        padded(packing.npo_height(entries[choices.last()->Some_0.0].0@) as nat),
    )
}

/// A valid packing's heights of plug-in tables fit.
pub proof fn lemma_npo_height_fits(packing: TablePacking, op: Seq<char>)
    requires
        packing.well_formed(),
        packing.valid(),
    ensures
        packing.npo_height(op) <= max_height(),
{
    lemma_setting_is_entry(packing.npo_min_heights@, op);
    if setting_of(packing.npo_min_heights@, op) is Some {
        let i = choose|i: int|
            0 <= i < packing.npo_min_heights@.len() && (#[trigger] packing.npo_min_heights@[i]).1
                == setting_of(packing.npo_min_heights@, op)->Some_0;
        let named = packing.npo_min_heights@.map_values(|e: (NpoTypeId, usize)| (e.0@, e.1));
        let at = packing.overrides().len() - named.len() + i;
        assert(packing.overrides()[at] == named[i]);
    }
}

proof fn lemma_setting_is_entry(entries: Seq<(NpoTypeId, usize)>, op: Seq<char>)
    ensures
        setting_of(entries, op) matches Some(h) ==> exists|i: int|
            0 <= i < entries.len() && (#[trigger] entries[i]).1 == h,
    decreases entries.len(),
{
    if entries.len() > 0 {
        if entries.last().0@ == op {
            assert(entries[entries.len() - 1].1 == entries.last().1);
        } else {
            lemma_setting_is_entry(entries.drop_last(), op);
            if let Some(h) = setting_of(entries, op) {
                let i = choose|i: int|
                    0 <= i < entries.drop_last().len() && (#[trigger] entries.drop_last()[i]).1
                        == h;
                assert(entries[i].1 == h);
            }
        }
    }
}

/// The first table along `entries` that `builder` builds, with the position of its operation.
fn first_built<E, B: NpoAirBuilder<E, D>, const D: usize>(
    builder: &B,
    entries: &Vec<(NpoTypeId, Vec<u64>)>,
    packing: &TablePacking,
    constraint_profile: ConstraintProfile,
) -> (res: Option<(usize, CircuitTableAir<E, D>, usize)>)
    ensures
        match res {
            Some(t) => t.2 < usize::BITS && is_choice(
                *builder,
                entries@,
                *packing,
                constraint_profile,
                Some((t.0 as int, (t.1, t.2))),
            ),
            None => is_choice(*builder, entries@, *packing, constraint_profile, None),
        },
{
    let mut i: usize = 0;
    while i < entries.len()
        invariant
            i <= entries.len(),
            forall|k: int|
                0 <= k < i ==> may_build(
                    *builder,
                    #[trigger] entries@[k],
                    *packing,
                    constraint_profile,
                    None,
                ),
        decreases entries.len() - i,
    {
        let op_type = &entries[i].0;
        let lanes: usize = match packing.npo_lanes(op_type) {
            Some(n) => n,
            None => builder.lanes(),
        };
        let min_height: usize = packing.npo_min_height(op_type).unwrap_or(
            packing.min_trace_height,
        );
        let built = builder.try_build(
            op_type,
            &entries[i].1,
            min_height,
            lanes,
            constraint_profile,
        );
        assert(may_build(*builder, entries@[i as int], *packing, constraint_profile, built));
        if let Some((air, degree)) = built {
            return Some((i, air, degree));
        }
        i += 1;
    }
    None
}

/// Build the plug-in tables: each builder in turn takes the first operation of `entries` that it
/// builds a table for. Appends the tables, and returns the operations that got one.
///
/// Under strict heights a table that outgrows its configured height is rejected.
pub fn build_npo_tables<E, B: NpoAirBuilder<E, D>, const D: usize>(
    entries: &Vec<(NpoTypeId, Vec<u64>)>,
    builders: &Vec<B>,
    packing: &TablePacking,
    constraint_profile: ConstraintProfile,
    tables: &mut Vec<(CircuitTableAir<E, D>, usize)>,
) -> (res: Result<Vec<NpoTypeId>, CircuitError>)
    requires
        packing.well_formed(),
        packing.valid(),
    ensures
        exists|choices: Seq<Option<NpoTable<E, D>>>|
            {
                &&& #[trigger] is_builder_run(
                    builders@,
                    entries@,
                    *packing,
                    constraint_profile,
                    choices,
                )
                &&& match res {
                    Ok(built) => {
                        &&& choices.len() == builders@.len()
                        &&& choices.len() > 0 ==> !npo_overflows(
                            entries@,
                            *packing,
                            choices.last(),
                        )
                        &&& names(built@) == chosen_ops(choices, entries@)
                        &&& final(tables)@ == old(tables)@ + chosen_tables(choices)
                    },
                    Err(e) => ends_in_overflow(entries@, *packing, choices, e),
                }
            },
{
    let ghost start = tables@;
    let ghost mut choices: Seq<Option<NpoTable<E, D>>> = Seq::empty();
    let mut built_npo: Vec<NpoTypeId> = Vec::new();
    assert(tables@ =~= start + chosen_tables(choices));
    assert(names(built_npo@) =~= chosen_ops(choices, entries@));
    let mut b: usize = 0;
    while b < builders.len()
        invariant
            b <= builders.len(),
            packing.well_formed(),
            packing.valid(),
            start == old(tables)@,
            choices.len() == b,
            is_builder_run(builders@, entries@, *packing, constraint_profile, choices),
            choices.len() > 0 ==> !npo_overflows(entries@, *packing, choices.last()),
            names(built_npo@) == chosen_ops(choices, entries@),
            tables@ == start + chosen_tables(choices),
        decreases builders.len() - b,
    {
        let ghost before = choices;
        match first_built(&builders[b], entries, packing, constraint_profile) {
            Some((at, air, degree)) => {
                let op_type = &entries[at].0;
                proof {
                    choices = before.push(Some((at as int, (air, degree))));
                    assert(choices.drop_last() =~= before);
                    assert forall|k: int| 0 <= k < choices.len() implies is_choice(
                        builders@[k],
                        entries@,
                        *packing,
                        constraint_profile,
                        #[trigger] choices[k],
                    ) by {
                        if k < b {
                            assert(choices[k] == before[k]);
                        }
                    }
                    assert forall|k: int| 0 <= k < choices.len() - 1 implies !npo_overflows(
                        entries@,
                        *packing,
                        #[trigger] choices[k],
                    ) by {
                        assert(choices[k] == before[k]);
                    }
                    assert(is_builder_run(
                        builders@,
                        entries@,
                        *packing,
                        constraint_profile,
                        choices,
                    ));
                    lemma_npo_height_fits(*packing, op_type@);
                }
                let npo_min_height: usize = packing.npo_min_height(op_type).unwrap_or(
                    packing.min_trace_height,
                );
                let allowed: usize = next_power_of_two(npo_min_height);
                let built_height: usize = power_of_two(degree);
                if packing.strict && built_height > allowed {
                    return Err(
                        CircuitError::from(
                            ProofMetadataError::ProfileOverflow {
                                table: op_type.name.clone(),
                                needed: built_height,
                                allowed,
                            },
                        ),
                    );
                }
                let ghost old_built = built_npo@;
                let ghost old_tables = tables@;
                built_npo.push(op_type.clone());
                tables.push((air, degree));
                assert(names(built_npo@) =~= names(old_built).push(op_type@));
                assert(tables@ =~= start + chosen_tables(choices));
            },
            None => {
                proof {
                    choices = before.push(None);
                    assert(choices.drop_last() =~= before);
                    assert forall|k: int| 0 <= k < choices.len() implies is_choice(
                        builders@[k],
                        entries@,
                        *packing,
                        constraint_profile,
                        #[trigger] choices[k],
                    ) by {
                        if k < b {
                            assert(choices[k] == before[k]);
                        }
                    }
                    assert forall|k: int| 0 <= k < choices.len() - 1 implies !npo_overflows(
                        entries@,
                        *packing,
                        #[trigger] choices[k],
                    ) by {
                        assert(choices[k] == before[k]);
                    }
                }
            },
        }
        b += 1;
    }
    Ok(built_npo)
}

/// Whether `built` holds `op`.
fn holds_op(built: &Vec<NpoTypeId>, op: &NpoTypeId) -> (res: bool)
    ensures
        res == names(built@).contains(op@),
{
    let mut i: usize = 0;
    while i < built.len()
        invariant
            i <= built.len(),
            forall|k: int| 0 <= k < i ==> (#[trigger] built@[k])@ != op@,
        decreases built.len() - i,
    {
        if built[i].same(op) {
            assert(names(built@)[i as int] == op@);
            return true;
        }
        i += 1;
    }
    assert forall|k: int| 0 <= k < names(built@).len() implies names(built@)[k] != op@ by {
        assert(built@[k]@ != op@);
    }
    false
}

/// Whether every required operation got a table.
pub open spec fn all_required_built(required: Seq<NpoTypeId>, built: Seq<Seq<char>>) -> bool {
    forall|i: int| 0 <= i < required.len() ==> built.contains((#[trigger] required[i])@)
}

/// Whether `e` reports the first required operation that got no table.
pub open spec fn is_first_missing(
    required: Seq<NpoTypeId>,
    built: Seq<Seq<char>>,
    e: CircuitError,
) -> bool {
    exists|i: int|
        {
            &&& 0 <= i < required.len()
            &&& forall|j: int| 0 <= j < i ==> built.contains((#[trigger] required[j])@)
            &&& !built.contains((#[trigger] required[i])@)
            &&& e.is_missing_table(required[i]@)
        }
}

/// Check that every required operation got a table.
pub fn check_required(required: &Vec<NpoTypeId>, built: &Vec<NpoTypeId>) -> (res: Result<
    (),
    CircuitError,
>)
    ensures
        res is Ok <==> all_required_built(required@, names(built@)),
        res matches Err(e) ==> is_first_missing(required@, names(built@), e),
{
    let mut i: usize = 0;
    while i < required.len()
        invariant
            i <= required.len(),
            forall|k: int|
                0 <= k < i ==> names(built@).contains((#[trigger] required@[k])@),
        decreases required.len() - i,
    {
        if !holds_op(built, &required[i]) {
            assert(!names(built@).contains(required@[i as int]@));
            return Err(
                CircuitError::NonPrimitiveOpLayoutMismatch {
                    op: required[i].clone(),
                    expected: "an AIR builder for the required table".to_owned(),
                    got: 0,
                },
            );
        }
        i += 1;
    }
    Ok(())
}

} // verus!
