//! What holds of the tables that a FRI back end expects, and of the provers and builders that it
//! hands out for them.
use crate::fri::{
    distinct_of_degree, poseidon1_provers, poseidon1_shapes, poseidon2_provers, poseidon2_shapes,
    FriRecursionBackend, FriRecursionBackendD5, FriRecursionBackendForExt, PermutationAirBuilders,
    Preprocessor, RecomposeTable, TableAirBuilders, TableProver,
};
use crate::ops::{ChallengerPermConfig, ConstraintProfile, Poseidon1Config, Poseidon2Config};
use vstd::prelude::*;

verus! {

/// Position at which `config` occurs first.
pub open spec fn first_position(configs: Seq<Poseidon2Config>, config: Poseidon2Config) -> int {
    configs.index_of_first(config)->Some_0
}

proof fn lemma_distinct_members(
    configs: Seq<Poseidon2Config>,
    degree: usize,
    skip: Option<Poseidon2Config>,
    config: Poseidon2Config,
)
    ensures
        distinct_of_degree(configs, degree, skip).contains(config) <==> configs.contains(config)
            && config.degree == degree && skip != Some(config),
    decreases configs.len(),
{
    if configs.len() > 0 {
        let shorter = configs.drop_last();
        let before = distinct_of_degree(shorter, degree, skip);
        let all = distinct_of_degree(configs, degree, skip);
        let last = configs.last();
        lemma_distinct_members(shorter, degree, skip, config);
        lemma_distinct_members(shorter, degree, skip, last);
        assert(configs.contains(config) <==> shorter.contains(config) || config == last) by {
            assert(configs =~= shorter.push(last));
            if shorter.contains(config) {
                let i = shorter.index_of(config);
                assert(configs[i] == config);
            }
            assert(configs[configs.len() - 1] == last);
        }
        assert(before.push(last).contains(config) <==> before.contains(config) || config == last)
            by {
            if before.contains(config) {
                let i = before.index_of(config);
                assert(before.push(last)[i] == config);
            }
            assert(before.push(last)[before.len() as int] == last);
        }
    }
}

proof fn lemma_distinct_order(
    configs: Seq<Poseidon2Config>,
    degree: usize,
    skip: Option<Poseidon2Config>,
    i: int,
    j: int,
)
    requires
        0 <= i < j < distinct_of_degree(configs, degree, skip).len(),
    ensures
        ({
            let tables = distinct_of_degree(configs, degree, skip);
            &&& tables[i] != tables[j]
            &&& first_position(configs, tables[i]) < first_position(configs, tables[j])
        }),
    decreases configs.len(),
{
    let shorter = configs.drop_last();
    let before = distinct_of_degree(shorter, degree, skip);
    let tables = distinct_of_degree(configs, degree, skip);
    let a = tables[i];
    let b = tables[j];
    assert(before[i] == a && before.contains(a));
    lemma_distinct_members(shorter, degree, skip, a);
    lemma_first_in_prefix(configs, a);
    if j < before.len() {
        assert(before[j] == b && before.contains(b));
        lemma_distinct_members(shorter, degree, skip, b);
        lemma_first_in_prefix(configs, b);
        lemma_distinct_order(shorter, degree, skip, i, j);
    } else {
        lemma_distinct_members(shorter, degree, skip, b);
        assert(b == configs.last() && !shorter.contains(b));
        assert(configs[configs.len() - 1] == b);
        configs.index_of_first_ensures(b);
        let at = first_position(configs, b);
        if at < shorter.len() {
            assert(shorter[at] == b);
        }
    }
}

proof fn lemma_first_in_prefix(configs: Seq<Poseidon2Config>, config: Poseidon2Config)
    requires
        configs.len() > 0,
        configs.drop_last().contains(config),
    ensures
        first_position(configs, config) == first_position(configs.drop_last(), config),
        0 <= first_position(configs, config) < configs.len() - 1,
{
    let shorter = configs.drop_last();
    shorter.index_of_first_ensures(config);
    let at = first_position(shorter, config);
    assert(configs[at] == config);
    configs.index_of_first_ensures(config);
    let first = first_position(configs, config);
    if first < at {
        assert(shorter[first] == config);
    }
}

/// The extra tables of a degree are exactly the registered configurations of that degree other
/// than the challenger's, each once, in the order in which they were first registered.
pub proof fn law_extra_tables<const WIDTH: usize, const RATE: usize, C: ChallengerPermConfig>(
    backend: FriRecursionBackend<WIDTH, RATE, C>,
    degree: usize,
)
    ensures
        ({
            let registered = backend.extra_poseidon2_table_configs@;
            let tables = backend.extra_poseidon2(degree);
            &&& forall|config: Poseidon2Config| #[trigger]
                tables.contains(config) <==> registered.contains(config) && config.degree == degree
                    && backend.challenger_perm_config.poseidon2() != Some(config)
            &&& forall|i: int, j: int|
                0 <= i < j < tables.len() ==> #[trigger] tables[i] != #[trigger] tables[j]
                    && first_position(registered, tables[i]) < first_position(
                    registered,
                    tables[j],
                )
        }),
{
    let registered = backend.extra_poseidon2_table_configs@;
    let skip = backend.challenger_perm_config.poseidon2();
    let tables = backend.extra_poseidon2(degree);
    assert forall|config: Poseidon2Config| #[trigger]
        tables.contains(config) <==> registered.contains(config) && config.degree == degree && skip
            != Some(config) by {
        lemma_distinct_members(registered, degree, skip, config);
    }
    assert forall|i: int, j: int| 0 <= i < j < tables.len() implies #[trigger] tables[i]
        != #[trigger] tables[j] && first_position(registered, tables[i]) < first_position(
        registered,
        tables[j],
    ) by {
        lemma_distinct_order(registered, degree, skip, i, j);
    }
}

/// Registering a configuration that is registered already, or the challenger's own, changes no
/// list of tables.
pub proof fn law_registering_again_changes_nothing<
    const WIDTH: usize,
    const RATE: usize,
    C: ChallengerPermConfig,
>(
    before: FriRecursionBackend<WIDTH, RATE, C>,
    after: FriRecursionBackend<WIDTH, RATE, C>,
    config: Poseidon2Config,
    degree: usize,
)
    requires
        after.extra_poseidon2_table_configs@ == before.extra_poseidon2_table_configs@.push(config),
        after.challenger_perm_config == before.challenger_perm_config,
        after.recompose_lanes == before.recompose_lanes,
        after.shares_challenger_perm_table == before.shares_challenger_perm_table,
        before.extra_poseidon2_table_configs@.contains(config)
            || before.challenger_perm_config.poseidon2() == Some(config),
    ensures
        after.extra_poseidon2(degree) == before.extra_poseidon2(degree),
        after.poseidon2_air_configs(degree) == before.poseidon2_air_configs(degree),
        after.provers(degree) == before.provers(degree),
        after.quintic_provers() == before.quintic_provers(),
{
    lemma_registered_again(before, after, config, degree);
    lemma_registered_again(before, after, config, 1);
}

proof fn lemma_registered_again<const WIDTH: usize, const RATE: usize, C: ChallengerPermConfig>(
    before: FriRecursionBackend<WIDTH, RATE, C>,
    after: FriRecursionBackend<WIDTH, RATE, C>,
    config: Poseidon2Config,
    degree: usize,
)
    requires
        after.extra_poseidon2_table_configs@ == before.extra_poseidon2_table_configs@.push(config),
        after.challenger_perm_config == before.challenger_perm_config,
        before.extra_poseidon2_table_configs@.contains(config)
            || before.challenger_perm_config.poseidon2() == Some(config),
    ensures
        after.extra_poseidon2(degree) == before.extra_poseidon2(degree),
{
    assert(after.extra_poseidon2_table_configs@.drop_last()
        =~= before.extra_poseidon2_table_configs@);
    lemma_distinct_members(
        before.extra_poseidon2_table_configs@,
        degree,
        before.challenger_perm_config.poseidon2(),
        config,
    );
}

/// The provers of the tables that builders over an extension of degree 2 or 4 build, in order.
pub open spec fn provers_of_builders(builders: TableAirBuilders) -> Seq<TableProver> {
    let permutation = match builders.permutation {
        PermutationAirBuilders::Poseidon1 { degree, configs } => poseidon1_provers(
            degree,
            configs@,
        ),
        PermutationAirBuilders::Poseidon2 { degree, configs } => poseidon2_provers(
            degree,
            configs@,
        ),
        _ => Seq::empty(),
    };
    permutation + poseidon2_provers(builders.recompose.degree, builders.extra@) + seq![
        TableProver::Recompose(builders.recompose),
    ]
}

/// The builders of a back end build exactly the tables that its provers prove, one for one and in
/// the same order: the challenger's, the extra ones, and the recompose table last, with the same
/// number of lanes.
pub proof fn law_builders_line_up_with_provers<
    const WIDTH: usize,
    const RATE: usize,
    C: ChallengerPermConfig,
>(backend: FriRecursionBackend<WIDTH, RATE, C>, degree: usize, builders: TableAirBuilders)
    requires
        backend.are_air_builders(degree, builders),
    ensures
        backend.provers(degree) == provers_of_builders(builders),
{
    if backend.challenger_perm_config.poseidon1() is None {
        if let Some(c) = backend.challenger_perm_config.poseidon2() {
            let shapes = poseidon2_shapes(c, backend.shares_challenger_perm_table);
            let extra = backend.extra_poseidon2(degree);
            assert(poseidon2_provers(degree, shapes + extra) =~= poseidon2_provers(degree, shapes)
                + poseidon2_provers(degree, extra));
        }
    }
    assert(backend.provers(degree) =~= provers_of_builders(builders));
}

/// Provers of Poseidon2 tables in quintic circuits, in order.
pub open spec fn quintic_poseidon2_provers(configs: Seq<Poseidon2Config>) -> Seq<TableProver> {
    configs.map_values(|config: Poseidon2Config| TableProver::Poseidon2Quintic { config })
}

/// In quintic circuits the builders build the tables that the provers prove, in the same order: the
/// challenger's, the extra ones, and the recompose table last, with the same number of lanes.
///
/// The builders that stand for all Poseidon1 or all Poseidon2 tables of quintic circuits name no
/// configuration; the others name those of the provers, one for one.
pub proof fn law_quintic_builders_line_up_with_provers<
    const WIDTH: usize,
    const RATE: usize,
    C: ChallengerPermConfig,
>(backend: FriRecursionBackend<WIDTH, RATE, C>, builders: TableAirBuilders)
    requires
        backend.are_quintic_air_builders(builders),
        backend.challenger_perm_config.poseidon2() matches Some(c) ==> c.degree == 1,
        backend.challenger_perm_config.poseidon1() is Some
            || backend.challenger_perm_config.poseidon2() is Some || backend.extra_poseidon2(1).len()
            > 0,
    ensures
        ({
            let recompose = seq![TableProver::Recompose(builders.recompose)];
            let provers = backend.quintic_provers();
            match (builders.permutation, backend.challenger_perm_config.poseidon1()) {
                (PermutationAirBuilders::Poseidon1Quintic, Some(config)) => provers == seq![
                    TableProver::Poseidon1Quintic { config },
                ] + quintic_poseidon2_provers(builders.extra@) + recompose,
                (PermutationAirBuilders::Poseidon2Quintic, None) => {
                    &&& backend.challenger_perm_config.poseidon2() matches Some(config)
                    &&& builders.extra@.len() == 0
                    &&& provers == quintic_poseidon2_provers(seq![config]) + recompose
                },
                (PermutationAirBuilders::Poseidon2 { degree, configs }, None) => {
                    &&& degree == 5
                    &&& builders.extra@.len() == 0
                    &&& provers == quintic_poseidon2_provers(configs@) + recompose
                },
                _ => false,
            }
        }),
{
    let recompose = seq![TableProver::Recompose(builders.recompose)];
    let extra = backend.extra_poseidon2(1);
    let provers = backend.quintic_provers();
    match (
        backend.challenger_perm_config.poseidon1(),
        backend.challenger_perm_config.poseidon2(),
    ) {
        (Some(config), _) => {
            assert(provers =~= seq![TableProver::Poseidon1Quintic { config }]
                + quintic_poseidon2_provers(extra) + recompose);
        },
        (None, Some(config)) => {
            assert(poseidon2_shapes(config, backend.shares_challenger_perm_table) =~= seq![config]);
            assert(provers =~= quintic_poseidon2_provers(seq![config] + extra) + recompose);
            if extra.len() == 0 {
                assert(seq![config] + extra =~= seq![config]);
            }
        },
        (None, None) => {
            assert(provers =~= quintic_poseidon2_provers(extra) + recompose);
        },
    }
}

/// A base-field challenger has the shared table only, whether or not it is declared shared.
pub proof fn law_base_field_challenger_has_one_table(
    poseidon1: Poseidon1Config,
    poseidon2: Poseidon2Config,
    shared: bool,
)
    requires
        poseidon1.degree < 2,
        poseidon2.degree < 2,
    ensures
        poseidon1_shapes(poseidon1, shared) == seq![poseidon1],
        poseidon2_shapes(poseidon2, shared) == seq![poseidon2],
{
}

/// Declaring that no rows share the challenger's shape takes away the shared table, which is the
/// last of the challenger's, and nothing else.
pub proof fn law_unsharing_drops_the_shared_table(
    poseidon1: Poseidon1Config,
    poseidon2: Poseidon2Config,
)
    requires
        poseidon1.degree >= 2,
        poseidon2.degree >= 2,
    ensures
        poseidon1_shapes(poseidon1, true) == poseidon1_shapes(poseidon1, false).push(poseidon1),
        poseidon2_shapes(poseidon2, true) == poseidon2_shapes(poseidon2, false).push(poseidon2),
        poseidon1_shapes(poseidon1, false) == seq![poseidon1.challenger_table()],
        poseidon2_shapes(poseidon2, false) == seq![poseidon2.challenger_table()],
{
    assert(poseidon1_shapes(poseidon1, true) =~= poseidon1_shapes(poseidon1, false).push(
        poseidon1,
    ));
    assert(poseidon2_shapes(poseidon2, true) =~= poseidon2_shapes(poseidon2, false).push(
        poseidon2,
    ));
}

/// The last prover is that of the recompose table that publishes coefficients, with the lanes of
/// the back end, and no other prover is one of a recompose table.
pub proof fn law_one_recompose_table<
    const WIDTH: usize,
    const RATE: usize,
    C: ChallengerPermConfig,
>(backend: FriRecursionBackend<WIDTH, RATE, C>, degree: usize, provers: Seq<TableProver>)
    requires
        (provers == backend.provers(degree)) || (degree == 5 && provers
            == backend.quintic_provers()),
    ensures
        provers.len() > 0,
        provers.last() == TableProver::Recompose(backend.recompose_table(degree)),
        backend.recompose_table(degree).publishes_coefficients,
        backend.recompose_table(degree).lanes == backend.recompose_lanes,
        forall|i: int| 0 <= i < provers.len() - 1 ==> !(#[trigger] provers[i] is Recompose),
{
}

/// Whether `configs` are the registered configurations of the given degree other than `skip`: all of
/// them, each once, in the order in which they were first registered.
pub open spec fn are_extra(
    registered: Seq<Poseidon2Config>,
    degree: usize,
    skip: Option<Poseidon2Config>,
    configs: Seq<Poseidon2Config>,
) -> bool {
    &&& forall|config: Poseidon2Config| #[trigger]
        configs.contains(config) <==> registered.contains(config) && config.degree == degree && skip
            != Some(config)
    &&& forall|i: int, j: int|
        0 <= i < j < configs.len() ==> #[trigger] configs[i] != #[trigger] configs[j]
            && first_position(registered, configs[i]) < first_position(registered, configs[j])
}

/// The configurations of a Poseidon1 challenger's tables: in the base field its own configuration;
/// otherwise the one of the challenger's rows alone, and its own if other rows share its shape.
pub open spec fn poseidon1_tables(c: Poseidon1Config, shared: bool) -> Seq<Poseidon1Config> {
    let own = Poseidon1Config {
        field: c.field,
        degree: c.degree,
        width: c.width,
        challenger: true,
    };
    if c.degree <= 1 {
        seq![c]
    } else {
        seq![own] + if shared {
            seq![c]
        } else {
            Seq::empty()
        }
    }
}

/// The configurations of a Poseidon2 challenger's tables.
pub open spec fn poseidon2_tables(c: Poseidon2Config, shared: bool) -> Seq<Poseidon2Config> {
    let own = Poseidon2Config {
        field: c.field,
        degree: c.degree,
        width: c.width,
        challenger: true,
    };
    if c.degree <= 1 {
        seq![c]
    } else {
        seq![own] + if shared {
            seq![c]
        } else {
            Seq::empty()
        }
    }
}

/// Whether the provers from `start` on are Poseidon1 provers of the given configurations, each over
/// the extension of degree `degree` and with the standard layout.
pub open spec fn prove_poseidon1(
    provers: Seq<TableProver>,
    start: int,
    degree: usize,
    configs: Seq<Poseidon1Config>,
) -> bool {
    forall|i: int|
        0 <= i < configs.len() ==> provers[start + i] == (TableProver::Poseidon1 {
            degree,
            config: #[trigger] configs[i],
            profile: ConstraintProfile::Standard,
        })
}

/// Whether the provers from `start` on are Poseidon2 provers of the given configurations, each over
/// the extension of degree `degree` and with the standard layout.
pub open spec fn prove_poseidon2(
    provers: Seq<TableProver>,
    start: int,
    degree: usize,
    configs: Seq<Poseidon2Config>,
) -> bool {
    forall|i: int|
        0 <= i < configs.len() ==> provers[start + i] == (TableProver::Poseidon2 {
            degree,
            config: #[trigger] configs[i],
            profile: ConstraintProfile::Standard,
        })
}

/// Whether `provers` are those of a back end over the extension of degree `degree`: of the
/// challenger's tables, of the extra ones, and of the recompose table, all of that degree.
pub open spec fn are_provers<const WIDTH: usize, const RATE: usize, C: ChallengerPermConfig>(
    backend: FriRecursionBackend<WIDTH, RATE, C>,
    degree: usize,
    provers: Seq<TableProver>,
) -> bool {
    let shared = backend.shares_challenger_perm_table;
    let poseidon1 = backend.challenger_perm_config.poseidon1();
    let poseidon2 = backend.challenger_perm_config.poseidon2();
    let lead: int = match (poseidon1, poseidon2) {
        (Some(c), _) => poseidon1_tables(c, shared).len() as int,
        (None, Some(c)) => poseidon2_tables(c, shared).len() as int,
        (None, None) => 0,
    };
    exists|extra: Seq<Poseidon2Config>|
        {
            &&& #[trigger] are_extra(
                backend.extra_poseidon2_table_configs@,
                degree,
                poseidon2,
                extra,
            )
            &&& provers.len() == lead + extra.len() + 1
            &&& match (poseidon1, poseidon2) {
                (Some(c), _) => prove_poseidon1(provers, 0, degree, poseidon1_tables(c, shared)),
                (None, Some(c)) => prove_poseidon2(
                    provers,
                    0,
                    degree,
                    poseidon2_tables(c, shared),
                ),
                (None, None) => true,
            }
            &&& prove_poseidon2(provers, lead, degree, extra)
            &&& provers.last() == TableProver::Recompose(
                RecomposeTable {
                    degree,
                    lanes: backend.recompose_lanes,
                    publishes_coefficients: true,
                },
            )
        }
}

/// Whether `builders` are those of a back end over the extension of degree `degree`, for the tables
/// that its provers prove.
pub open spec fn are_builders<const WIDTH: usize, const RATE: usize, C: ChallengerPermConfig>(
    backend: FriRecursionBackend<WIDTH, RATE, C>,
    degree: usize,
    builders: TableAirBuilders,
) -> bool {
    let shared = backend.shares_challenger_perm_table;
    let poseidon2 = backend.challenger_perm_config.poseidon2();
    exists|extra: Seq<Poseidon2Config>|
        {
            &&& #[trigger] are_extra(
                backend.extra_poseidon2_table_configs@,
                degree,
                poseidon2,
                extra,
            )
            &&& match backend.challenger_perm_config.poseidon1() {
                Some(c) => {
                    &&& builders.permutation matches PermutationAirBuilders::Poseidon1 {
                        degree: d,
                        configs,
                    }
                    &&& d == degree
                    &&& configs@ == poseidon1_tables(c, shared)
                    &&& builders.extra@ == extra
                },
                None => {
                    &&& builders.permutation matches PermutationAirBuilders::Poseidon2 {
                        degree: d,
                        configs,
                    }
                    &&& d == degree
                    &&& configs@ == (match poseidon2 {
                        Some(c) => poseidon2_tables(c, shared),
                        None => Seq::empty(),
                    }) + extra
                    &&& builders.extra@.len() == 0
                },
            }
            &&& builders.recompose.degree == degree
            &&& builders.recompose.lanes == backend.recompose_lanes
            &&& builders.recompose.publishes_coefficients
        }
}

/// Whether `preprocessors` are those of a back end: that of the challenger's permutation, which is
/// Poseidon1 exactly if the challenger is, and that of recompose, which publishes coefficients.
pub open spec fn are_preprocessors<const WIDTH: usize, const RATE: usize, C: ChallengerPermConfig>(
    backend: FriRecursionBackend<WIDTH, RATE, C>,
    preprocessors: Seq<Preprocessor>,
) -> bool {
    &&& preprocessors.len() == 2
    &&& backend.challenger_perm_config.poseidon1() is Some ==> preprocessors[0]
        == Preprocessor::Poseidon1
    &&& backend.challenger_perm_config.poseidon1() is None ==> preprocessors[0]
        == Preprocessor::Poseidon2
    &&& preprocessors[1] == (Preprocessor::Recompose { publishes_coefficients: true })
}

proof fn lemma_are_extra<const WIDTH: usize, const RATE: usize, C: ChallengerPermConfig>(
    backend: FriRecursionBackend<WIDTH, RATE, C>,
    degree: usize,
)
    ensures
        are_extra(
            backend.extra_poseidon2_table_configs@,
            degree,
            backend.challenger_perm_config.poseidon2(),
            backend.extra_poseidon2(degree),
        ),
{
    law_extra_tables(backend, degree);
}

proof fn lemma_challenger_tables(c1: Poseidon1Config, c2: Poseidon2Config, shared: bool)
    ensures
        poseidon1_shapes(c1, shared) == poseidon1_tables(c1, shared),
        poseidon2_shapes(c2, shared) == poseidon2_tables(c2, shared),
{
    assert(poseidon1_shapes(c1, shared) =~= poseidon1_tables(c1, shared));
    assert(poseidon2_shapes(c2, shared) =~= poseidon2_tables(c2, shared));
}

proof fn lemma_are_provers<const WIDTH: usize, const RATE: usize, C: ChallengerPermConfig>(
    backend: FriRecursionBackend<WIDTH, RATE, C>,
    degree: usize,
)
    ensures
        are_provers(backend, degree, backend.provers(degree)),
{
    let shared = backend.shares_challenger_perm_table;
    let extra = backend.extra_poseidon2(degree);
    let provers = backend.provers(degree);
    lemma_are_extra(backend, degree);
    assert forall|c1: Poseidon1Config| #[trigger] poseidon1_shapes(c1, shared)
        == poseidon1_tables(c1, shared) by {
        lemma_challenger_tables(c1, arbitrary(), shared);
    }
    assert forall|c2: Poseidon2Config| #[trigger] poseidon2_shapes(c2, shared)
        == poseidon2_tables(c2, shared) by {
        lemma_challenger_tables(arbitrary(), c2, shared);
    }
    let lead = backend.challenger_provers(degree).len() as int;
    assert(prove_poseidon2(provers, lead, degree, extra));
}

proof fn lemma_are_builders<const WIDTH: usize, const RATE: usize, C: ChallengerPermConfig>(
    backend: FriRecursionBackend<WIDTH, RATE, C>,
    degree: usize,
    builders: TableAirBuilders,
)
    requires
        backend.are_air_builders(degree, builders),
    ensures
        are_builders(backend, degree, builders),
{
    let shared = backend.shares_challenger_perm_table;
    let extra = backend.extra_poseidon2(degree);
    lemma_are_extra(backend, degree);
    if let Some(c) = backend.challenger_perm_config.poseidon1() {
        lemma_challenger_tables(c, arbitrary(), shared);
    } else if let Some(c) = backend.challenger_perm_config.poseidon2() {
        lemma_challenger_tables(arbitrary(), c, shared);
    } else {
        assert(extra =~= Seq::empty() + extra);
    }
}

/// What a back end over the extension of degree 2 hands out: provers for proofs of that degree alone,
/// every one of that degree; builders for the tables that they prove; and the preprocessors of the
/// challenger's permutation and of recompose.
pub proof fn law_tables_of_degree_two<const WIDTH: usize, const RATE: usize, C: ChallengerPermConfig>(
    backend: FriRecursionBackendForExt<2, WIDTH, RATE, C>,
    ext_degree: usize,
    provers: Vec<TableProver>,
    builders: TableAirBuilders,
    preprocessors: Vec<Preprocessor>,
)
    requires
        call_ensures(
            FriRecursionBackendForExt::<2, WIDTH, RATE, C>::non_primitive_provers,
            (&backend, ext_degree),
            provers,
        ),
        call_ensures(
            FriRecursionBackendForExt::<2, WIDTH, RATE, C>::non_primitive_air_builders,
            (&backend,),
            builders,
        ),
        call_ensures(
            FriRecursionBackendForExt::<2, WIDTH, RATE, C>::non_primitive_preprocessors,
            (&backend,),
            preprocessors,
        ),
    ensures
        ext_degree != 2 ==> provers@.len() == 0,
        ext_degree == 2 ==> are_provers(backend.0, 2, provers@),
        ext_degree == 2 ==> forall|i: int|
            0 <= i < provers@.len() ==> match #[trigger] provers@[i] {
                TableProver::Poseidon1 { degree, .. } => degree == 2,
                TableProver::Poseidon2 { degree, .. } => degree == 2,
                TableProver::Recompose(table) => table.degree == 2,
                _ => false,
            },
        are_builders(backend.0, 2, builders),
        are_preprocessors(backend.0, preprocessors@),
{
    lemma_are_provers(backend.0, 2);
    lemma_are_builders(backend.0, 2, builders);
}

/// What a back end over the extension of degree 4 hands out: provers for proofs of that degree alone,
/// every one of that degree; builders for the tables that they prove; and the preprocessors of the
/// challenger's permutation and of recompose.
pub proof fn law_tables_of_degree_four<const WIDTH: usize, const RATE: usize, C: ChallengerPermConfig>(
    backend: FriRecursionBackendForExt<4, WIDTH, RATE, C>,
    ext_degree: usize,
    provers: Vec<TableProver>,
    builders: TableAirBuilders,
    preprocessors: Vec<Preprocessor>,
)
    requires
        call_ensures(
            FriRecursionBackendForExt::<4, WIDTH, RATE, C>::non_primitive_provers,
            (&backend, ext_degree),
            provers,
        ),
        call_ensures(
            FriRecursionBackendForExt::<4, WIDTH, RATE, C>::non_primitive_air_builders,
            (&backend,),
            builders,
        ),
        call_ensures(
            FriRecursionBackendForExt::<4, WIDTH, RATE, C>::non_primitive_preprocessors,
            (&backend,),
            preprocessors,
        ),
    ensures
        ext_degree != 4 ==> provers@.len() == 0,
        ext_degree == 4 ==> are_provers(backend.0, 4, provers@),
        ext_degree == 4 ==> forall|i: int|
            0 <= i < provers@.len() ==> match #[trigger] provers@[i] {
                TableProver::Poseidon1 { degree, .. } => degree == 4,
                TableProver::Poseidon2 { degree, .. } => degree == 4,
                TableProver::Recompose(table) => table.degree == 4,
                _ => false,
            },
        are_builders(backend.0, 4, builders),
        are_preprocessors(backend.0, preprocessors@),
{
    lemma_are_provers(backend.0, 4);
    lemma_are_builders(backend.0, 4, builders);
}

/// What a quintic back end hands out: for proofs of degree 5 alone, the provers of the challenger's
/// tables, of each extra base-field table, and of the recompose table; builders for them; and the
/// preprocessors.
pub proof fn law_tables_of_degree_five<
    const WIDTH: usize,
    const RATE: usize,
    C: ChallengerPermConfig,
>(
    backend: FriRecursionBackendD5<WIDTH, RATE, C>,
    ext_degree: usize,
    provers: Vec<TableProver>,
    builders: TableAirBuilders,
    preprocessors: Vec<Preprocessor>,
) -> (extra: Seq<Poseidon2Config>)
    requires
        call_ensures(
            FriRecursionBackendD5::<WIDTH, RATE, C>::non_primitive_provers,
            (&backend, ext_degree),
            provers,
        ),
        call_ensures(
            FriRecursionBackendD5::<WIDTH, RATE, C>::non_primitive_air_builders,
            (&backend,),
            builders,
        ),
        call_ensures(
            FriRecursionBackendD5::<WIDTH, RATE, C>::non_primitive_preprocessors,
            (&backend,),
            preprocessors,
        ),
    ensures
        are_extra(
            backend.0.extra_poseidon2_table_configs@,
            1,
            backend.0.challenger_perm_config.poseidon2(),
            extra,
        ),
        ext_degree != 5 ==> provers@.len() == 0,
        ext_degree == 5 ==> {
            let lead: int = match (
                backend.0.challenger_perm_config.poseidon1(),
                backend.0.challenger_perm_config.poseidon2(),
            ) {
                (None, None) => 0,
                _ => 1,
            };
            &&& provers@.len() == lead + extra.len() + 1
            &&& match (
                backend.0.challenger_perm_config.poseidon1(),
                backend.0.challenger_perm_config.poseidon2(),
            ) {
                (Some(config), _) => provers@[0] == (TableProver::Poseidon1Quintic { config }),
                (None, Some(config)) => provers@[0] == (TableProver::Poseidon2Quintic { config }),
                (None, None) => true,
            }
            &&& forall|i: int|
                0 <= i < extra.len() ==> provers@[lead + i] == (TableProver::Poseidon2Quintic {
                    config: #[trigger] extra[i],
                })
            &&& provers@.last() == TableProver::Recompose(
                RecomposeTable {
                    degree: 5,
                    lanes: backend.0.recompose_lanes,
                    publishes_coefficients: true,
                },
            )
        },
        match (
            backend.0.challenger_perm_config.poseidon1(),
            backend.0.challenger_perm_config.poseidon2(),
        ) {
            (Some(_), _) => builders.permutation is Poseidon1Quintic && builders.extra@ == extra,
            (None, challenger) => {
                &&& builders.extra@.len() == 0
                &&& extra.len() == 0 ==> builders.permutation is Poseidon2Quintic
                &&& extra.len() > 0 ==> {
                    &&& builders.permutation matches PermutationAirBuilders::Poseidon2 {
                        degree,
                        configs,
                    }
                    &&& degree == 5
                    &&& configs@ == (match challenger {
                        Some(c) => poseidon2_tables(c, backend.0.shares_challenger_perm_table),
                        None => Seq::empty(),
                    }) + extra
                }
            },
        },
        builders.recompose == (RecomposeTable {
            degree: 5,
            lanes: backend.0.recompose_lanes,
            publishes_coefficients: true,
        }),
        are_preprocessors(backend.0, preprocessors@),
{
    let extra = backend.0.extra_poseidon2(1);
    lemma_are_extra(backend.0, 1);
    if let Some(c) = backend.0.challenger_perm_config.poseidon2() {
        lemma_challenger_tables(arbitrary(), c, backend.0.shares_challenger_perm_table);
    } else {
        assert(extra =~= Seq::empty() + extra);
    }
    extra
}

/// What a back end lists for a degree and for a challenger's configuration.
pub proof fn law_configurations<const WIDTH: usize, const RATE: usize, C: ChallengerPermConfig>(
    backend: FriRecursionBackend<WIDTH, RATE, C>,
    degree: usize,
    c1: Poseidon1Config,
    c2: Poseidon2Config,
    shapes1: Vec<Poseidon1Config>,
    shapes2: Vec<Poseidon2Config>,
    extra: Vec<Poseidon2Config>,
    all: Vec<Poseidon2Config>,
)
    requires
        call_ensures(
            FriRecursionBackend::<WIDTH, RATE, C>::poseidon1_challenger_shape_configs,
            (&backend, c1),
            shapes1,
        ),
        call_ensures(
            FriRecursionBackend::<WIDTH, RATE, C>::poseidon2_challenger_shape_configs,
            (&backend, c2),
            shapes2,
        ),
        call_ensures(
            FriRecursionBackend::<WIDTH, RATE, C>::extra_poseidon2_table_configs_for_degree,
            (&backend, degree),
            extra,
        ),
        call_ensures(
            FriRecursionBackend::<WIDTH, RATE, C>::poseidon2_air_configs_for_degree,
            (&backend, degree),
            all,
        ),
    ensures
        shapes1@ == poseidon1_tables(c1, backend.shares_challenger_perm_table),
        shapes2@ == poseidon2_tables(c2, backend.shares_challenger_perm_table),
        are_extra(
            backend.extra_poseidon2_table_configs@,
            degree,
            backend.challenger_perm_config.poseidon2(),
            extra@,
        ),
        all@ == (match backend.challenger_perm_config.poseidon2() {
            Some(c) => poseidon2_tables(c, backend.shares_challenger_perm_table),
            None => Seq::empty(),
        }) + extra@,
{
    let shared = backend.shares_challenger_perm_table;
    lemma_challenger_tables(c1, c2, shared);
    lemma_are_extra(backend, degree);
    if let Some(c) = backend.challenger_perm_config.poseidon2() {
        lemma_challenger_tables(c1, c, shared);
    } else {
        assert(extra@ =~= Seq::empty() + extra@);
    }
}

/// What each step of setting up a back end does, and that it leaves the rest as it was.
pub proof fn law_backend_steps<const WIDTH: usize, const RATE: usize, C: ChallengerPermConfig>(
    challenger: C,
    backend: FriRecursionBackend<WIDTH, RATE, C>,
    config: Poseidon2Config,
    lanes: usize,
    new: FriRecursionBackend<WIDTH, RATE, C>,
    unshared: FriRecursionBackend<WIDTH, RATE, C>,
    extended: FriRecursionBackend<WIDTH, RATE, C>,
    packed: FriRecursionBackend<WIDTH, RATE, C>,
)
    requires
        call_ensures(FriRecursionBackend::<WIDTH, RATE, C>::new, (challenger,), new),
        call_ensures(
            FriRecursionBackend::<WIDTH, RATE, C>::without_shared_challenger_perm_table,
            (backend,),
            unshared,
        ),
        call_ensures(
            FriRecursionBackend::<WIDTH, RATE, C>::with_extra_poseidon2_table,
            (backend, config),
            extended,
        ),
        call_ensures(
            FriRecursionBackend::<WIDTH, RATE, C>::with_recompose_lanes,
            (backend, lanes),
            packed,
        ),
    ensures
        new.challenger_perm_config == challenger,
        new.extra_poseidon2_table_configs@.len() == 0,
        new.recompose_lanes == 1,
        new.shares_challenger_perm_table,
        !unshared.shares_challenger_perm_table,
        unshared.challenger_perm_config == backend.challenger_perm_config,
        unshared.extra_poseidon2_table_configs@ == backend.extra_poseidon2_table_configs@,
        unshared.recompose_lanes == backend.recompose_lanes,
        extended.extra_poseidon2_table_configs@.len()
            == backend.extra_poseidon2_table_configs@.len() + 1,
        extended.extra_poseidon2_table_configs@.last() == config,
        extended.extra_poseidon2_table_configs@.drop_last()
            == backend.extra_poseidon2_table_configs@,
        extended.challenger_perm_config == backend.challenger_perm_config,
        extended.recompose_lanes == backend.recompose_lanes,
        extended.shares_challenger_perm_table == backend.shares_challenger_perm_table,
        lanes >= 1 ==> packed.recompose_lanes == lanes,
        lanes == 0 ==> packed.recompose_lanes == 1,
        packed.challenger_perm_config == backend.challenger_perm_config,
        packed.extra_poseidon2_table_configs@ == backend.extra_poseidon2_table_configs@,
        packed.shares_challenger_perm_table == backend.shares_challenger_perm_table,
{
    assert(extended.extra_poseidon2_table_configs@.drop_last()
        =~= backend.extra_poseidon2_table_configs@);
}

/// Tagging a back end leaves it as it is, a quintic back end starts as a new one does, and its steps
/// are those of the back end that it holds.
pub proof fn law_tagged_backends<
    const D: usize,
    const WIDTH: usize,
    const RATE: usize,
    C: ChallengerPermConfig,
>(
    challenger: C,
    backend: FriRecursionBackend<WIDTH, RATE, C>,
    tagged: FriRecursionBackendForExt<D, WIDTH, RATE, C>,
    new: FriRecursionBackendD5<WIDTH, RATE, C>,
    quintic: FriRecursionBackendD5<WIDTH, RATE, C>,
    config: Poseidon2Config,
    extended: FriRecursionBackendD5<WIDTH, RATE, C>,
    unshared: FriRecursionBackendD5<WIDTH, RATE, C>,
)
    requires
        call_ensures(
            FriRecursionBackend::<WIDTH, RATE, C>::for_extension_degree::<D>,
            (backend,),
            tagged,
        ),
        challenger.degree() == 1,
        call_ensures(FriRecursionBackend::<WIDTH, RATE, C>::new_d5, (challenger,), new),
        call_ensures(
            FriRecursionBackendD5::<WIDTH, RATE, C>::with_extra_poseidon2_table,
            (quintic, config),
            extended,
        ),
        call_ensures(
            FriRecursionBackendD5::<WIDTH, RATE, C>::without_shared_challenger_perm_table,
            (quintic,),
            unshared,
        ),
    ensures
        tagged.0 == backend,
        new.0.challenger_perm_config == challenger,
        new.0.extra_poseidon2_table_configs@.len() == 0,
        new.0.recompose_lanes == 1,
        new.0.shares_challenger_perm_table,
        extended.0.extra_poseidon2_table_configs@.len()
            == quintic.0.extra_poseidon2_table_configs@.len() + 1,
        extended.0.extra_poseidon2_table_configs@.last() == config,
        extended.0.extra_poseidon2_table_configs@.drop_last()
            == quintic.0.extra_poseidon2_table_configs@,
        extended.0.challenger_perm_config == quintic.0.challenger_perm_config,
        extended.0.recompose_lanes == quintic.0.recompose_lanes,
        extended.0.shares_challenger_perm_table == quintic.0.shares_challenger_perm_table,
        !unshared.0.shares_challenger_perm_table,
        unshared.0.challenger_perm_config == quintic.0.challenger_perm_config,
        unshared.0.extra_poseidon2_table_configs@ == quintic.0.extra_poseidon2_table_configs@,
        unshared.0.recompose_lanes == quintic.0.recompose_lanes,
{
    assert(extended.0.extra_poseidon2_table_configs@.drop_last()
        =~= quintic.0.extra_poseidon2_table_configs@);
}

/// A copy of a back end is set up as the back end is.
pub proof fn law_copied_backends<
    const D: usize,
    const WIDTH: usize,
    const RATE: usize,
    C: ChallengerPermConfig + Clone,
>(
    backend: FriRecursionBackend<WIDTH, RATE, C>,
    copy: FriRecursionBackend<WIDTH, RATE, C>,
    tagged: FriRecursionBackendForExt<D, WIDTH, RATE, C>,
    tagged_copy: FriRecursionBackendForExt<D, WIDTH, RATE, C>,
    quintic: FriRecursionBackendD5<WIDTH, RATE, C>,
    quintic_copy: FriRecursionBackendD5<WIDTH, RATE, C>,
)
    requires
        call_ensures(
            <FriRecursionBackend<WIDTH, RATE, C> as Clone>::clone,
            (&backend,),
            copy,
        ),
        call_ensures(
            <FriRecursionBackendForExt<D, WIDTH, RATE, C> as Clone>::clone,
            (&tagged,),
            tagged_copy,
        ),
        call_ensures(
            <FriRecursionBackendD5<WIDTH, RATE, C> as Clone>::clone,
            (&quintic,),
            quintic_copy,
        ),
    ensures
        set_up_alike(backend, copy),
        set_up_alike(tagged.0, tagged_copy.0),
        set_up_alike(quintic.0, quintic_copy.0),
{
}

/// Whether two back ends are set up alike, the challenger of one being a copy of the other's.
pub open spec fn set_up_alike<
    const WIDTH: usize,
    const RATE: usize,
    C: ChallengerPermConfig + Clone,
>(
    backend: FriRecursionBackend<WIDTH, RATE, C>,
    copy: FriRecursionBackend<WIDTH, RATE, C>,
) -> bool {
    &&& cloned(backend.challenger_perm_config, copy.challenger_perm_config)
    &&& copy.extra_poseidon2_table_configs@ == backend.extra_poseidon2_table_configs@
    &&& copy.recompose_lanes == backend.recompose_lanes
    &&& copy.shares_challenger_perm_table == backend.shares_challenger_perm_table
}

/// A permutation configuration is of its own family and degree, and the configuration of its
/// challenger's rows alone differs from it in nothing else.
pub proof fn law_permutations(
    c1: Poseidon1Config,
    c2: Poseidon2Config,
    d1: usize,
    d2: usize,
    own1: Poseidon1Config,
    own2: Poseidon2Config,
)
    requires
        call_ensures(Poseidon1Config::d, (&c1,), d1),
        call_ensures(Poseidon2Config::d, (&c2,), d2),
        call_ensures(Poseidon1Config::for_challenger, (&c1,), own1),
        call_ensures(Poseidon2Config::for_challenger, (&c2,), own2),
    ensures
        c1.poseidon1() == Some(c1),
        c1.poseidon2() is None,
        c2.poseidon1() is None,
        c2.poseidon2() == Some(c2),
        ChallengerPermConfig::degree(c1) == c1.degree,
        ChallengerPermConfig::degree(c2) == c2.degree,
        d1 == c1.degree,
        d2 == c2.degree,
        own1.challenger && own1.field == c1.field && own1.degree == c1.degree && own1.width
            == c1.width,
        own2.challenger && own2.field == c2.field && own2.degree == c2.degree && own2.width
            == c2.width,
{
}

/// A registered configuration of a degree, other than the challenger's, gets a table of that degree,
/// whatever was registered before and after it.
pub proof fn law_registered_tables_are_proved<
    const WIDTH: usize,
    const RATE: usize,
    C: ChallengerPermConfig,
>(
    backend: FriRecursionBackend<WIDTH, RATE, C>,
    config: Poseidon2Config,
    degree: usize,
    provers: Seq<TableProver>,
)
    requires
        are_provers(backend, degree, provers),
        backend.extra_poseidon2_table_configs@.contains(config),
        config.degree == degree,
        backend.challenger_perm_config.poseidon2() != Some(config),
    ensures
        provers.contains(
            TableProver::Poseidon2 { degree, config, profile: ConstraintProfile::Standard },
        ),
{
    let shared = backend.shares_challenger_perm_table;
    let lead: int = match (
        backend.challenger_perm_config.poseidon1(),
        backend.challenger_perm_config.poseidon2(),
    ) {
        (Some(c), _) => poseidon1_tables(c, shared).len() as int,
        (None, Some(c)) => poseidon2_tables(c, shared).len() as int,
        (None, None) => 0,
    };
    let extra = choose|extra: Seq<Poseidon2Config>|
        {
            &&& #[trigger] are_extra(
                backend.extra_poseidon2_table_configs@,
                degree,
                backend.challenger_perm_config.poseidon2(),
                extra,
            )
            &&& provers.len() == lead + extra.len() + 1
            &&& prove_poseidon2(provers, lead, degree, extra)
        };
    assert(extra.contains(config));
    let i = extra.index_of(config);
    assert(extra[i] == config);
    assert(provers[lead + i] == (TableProver::Poseidon2 {
        degree,
        config,
        profile: ConstraintProfile::Standard,
    }));
}

} // verus!
