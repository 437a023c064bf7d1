//! Tables, provers and builders of the FRI back ends.
use p3_recursion_tables::fri::{
    FriRecursionBackend, FriRecursionBackendD5, FriRecursionBackendForExt, PermutationAirBuilders,
    Preprocessor, RecomposeTable, TableProver,
};
use p3_recursion_tables::ops::{
    ChallengerPermConfig, ConstraintProfile, PermutationField, Poseidon1Config, Poseidon2Config,
};

type Backend2 = FriRecursionBackend<16, 8, Poseidon2Config>;
type Backend1 = FriRecursionBackend<16, 8, Poseidon1Config>;

fn poseidon2(degree: usize, width: usize) -> Poseidon2Config {
    Poseidon2Config { field: PermutationField::KoalaBear, degree, width, challenger: false }
}

fn poseidon1(degree: usize, width: usize) -> Poseidon1Config {
    Poseidon1Config { field: PermutationField::KoalaBear, degree, width, challenger: false }
}

fn prover2(degree: usize, config: Poseidon2Config) -> TableProver {
    TableProver::Poseidon2 { degree, config, profile: ConstraintProfile::Standard }
}

fn prover1(degree: usize, config: Poseidon1Config) -> TableProver {
    TableProver::Poseidon1 { degree, config, profile: ConstraintProfile::Standard }
}

fn recompose(degree: usize, lanes: usize) -> RecomposeTable {
    RecomposeTable { degree, lanes, publishes_coefficients: true }
}

#[test]
fn a_new_backend_shares_the_challenger_table() {
    let backend = Backend2::new(poseidon2(4, 16));
    assert_eq!(backend.challenger_perm_config, poseidon2(4, 16));
    assert!(backend.extra_poseidon2_table_configs.is_empty());
    assert_eq!(backend.recompose_lanes, 1);
    assert!(backend.shares_challenger_perm_table);
    assert!(!backend.without_shared_challenger_perm_table().shares_challenger_perm_table);
}

#[test]
fn recompose_lanes_are_at_least_one() {
    assert_eq!(Backend2::new(poseidon2(4, 16)).with_recompose_lanes(0).recompose_lanes, 1);
    assert_eq!(Backend2::new(poseidon2(4, 16)).with_recompose_lanes(1).recompose_lanes, 1);
    let backend = Backend2::new(poseidon2(4, 16))
        .with_recompose_lanes(6)
        .with_extra_poseidon2_table(poseidon2(4, 24))
        .without_shared_challenger_perm_table();
    assert_eq!(backend.recompose_lanes, 6);
}

#[test]
fn challenger_shapes() {
    let backend = Backend2::new(poseidon2(4, 16));
    let c2 = poseidon2(4, 16);
    let own2 = c2.for_challenger();
    assert!(own2.challenger);
    assert_eq!(backend.poseidon2_challenger_shape_configs(c2), vec![own2, c2]);
    let c1 = poseidon1(2, 16);
    assert_eq!(backend.poseidon1_challenger_shape_configs(c1), vec![c1.for_challenger(), c1]);
    let unshared = backend.without_shared_challenger_perm_table();
    assert_eq!(unshared.poseidon2_challenger_shape_configs(c2), vec![own2]);
    assert_eq!(unshared.poseidon1_challenger_shape_configs(c1), vec![c1.for_challenger()]);
    // In the base field the shared table is the only one, shared or not.
    assert_eq!(
        unshared.poseidon2_challenger_shape_configs(poseidon2(1, 16)),
        vec![poseidon2(1, 16)]
    );
    assert_eq!(
        unshared.poseidon1_challenger_shape_configs(poseidon1(1, 16)),
        vec![poseidon1(1, 16)]
    );
}

#[test]
fn extra_tables_are_distinct_and_not_the_challenger() {
    let challenger = poseidon2(4, 16);
    let backend = Backend2::new(challenger)
        .with_extra_poseidon2_table(poseidon2(4, 32))
        .with_extra_poseidon2_table(poseidon2(2, 16))
        .with_extra_poseidon2_table(challenger)
        .with_extra_poseidon2_table(poseidon2(4, 24))
        .with_extra_poseidon2_table(poseidon2(4, 32));
    assert_eq!(backend.extra_poseidon2_table_configs.len(), 5);
    assert_eq!(
        backend.extra_poseidon2_table_configs_for_degree(4),
        vec![poseidon2(4, 32), poseidon2(4, 24)]
    );
    assert_eq!(backend.extra_poseidon2_table_configs_for_degree(2), vec![poseidon2(2, 16)]);
    assert!(backend.extra_poseidon2_table_configs_for_degree(1).is_empty());
    assert_eq!(
        backend.poseidon2_air_configs_for_degree(4),
        vec![challenger.for_challenger(), challenger, poseidon2(4, 32), poseidon2(4, 24)]
    );
    // Registering a known configuration again changes no list.
    let again = backend.clone().with_extra_poseidon2_table(poseidon2(4, 24));
    assert_eq!(
        again.poseidon2_air_configs_for_degree(4),
        backend.poseidon2_air_configs_for_degree(4)
    );
}

#[test]
fn provers_line_up_with_builders() {
    let c = poseidon2(4, 16);
    let backend: FriRecursionBackendForExt<4, 16, 8, Poseidon2Config> = Backend2::new(c)
        .with_extra_poseidon2_table(poseidon2(4, 32))
        .with_extra_poseidon2_table(poseidon2(2, 16))
        .with_recompose_lanes(3)
        .for_extension_degree::<4>();
    let configs = vec![c.for_challenger(), c, poseidon2(4, 32)];
    let mut expected: Vec<TableProver> = configs.iter().map(|c| prover2(4, *c)).collect();
    expected.push(TableProver::Recompose(recompose(4, 3)));
    assert_eq!(backend.non_primitive_provers(4), expected);
    for degree in [0, 1, 2, 3, 5] {
        assert!(backend.non_primitive_provers(degree).is_empty());
    }
    let builders = backend.non_primitive_air_builders();
    assert_eq!(builders.recompose, recompose(4, 3));
    assert!(builders.extra.is_empty());
    match builders.permutation {
        PermutationAirBuilders::Poseidon2 { degree, configs: built } => {
            assert_eq!(degree, 4);
            assert_eq!(built, configs);
        }
        _ => panic!("expected Poseidon2 builders"),
    }
}

#[test]
fn poseidon1_challengers_have_poseidon1_tables() {
    let c = poseidon1(2, 16);
    let backend = Backend1::new(c).for_extension_degree::<2>();
    assert_eq!(
        backend.non_primitive_provers(2),
        vec![
            prover1(2, c.for_challenger()),
            prover1(2, c),
            TableProver::Recompose(recompose(2, 1)),
        ]
    );
    assert!(backend.non_primitive_provers(4).is_empty());
    assert_eq!(
        backend.non_primitive_preprocessors(),
        vec![Preprocessor::Poseidon1, Preprocessor::Recompose { publishes_coefficients: true }]
    );
    match backend.non_primitive_air_builders().permutation {
        PermutationAirBuilders::Poseidon1 { degree, configs } => {
            assert_eq!(degree, 2);
            assert_eq!(configs, vec![c.for_challenger(), c]);
        }
        _ => panic!("expected Poseidon1 builders"),
    }
    assert!(backend.non_primitive_air_builders().extra.is_empty());
    // Extra Poseidon2 tables stand between the challenger's tables and the recompose table, and
    // have builders of their own.
    let backend = Backend1::new(c)
        .with_extra_poseidon2_table(poseidon2(2, 24))
        .with_extra_poseidon2_table(poseidon2(4, 16))
        .with_extra_poseidon2_table(poseidon2(2, 32))
        .for_extension_degree::<2>();
    assert_eq!(
        backend.non_primitive_provers(2),
        vec![
            prover1(2, c.for_challenger()),
            prover1(2, c),
            prover2(2, poseidon2(2, 24)),
            prover2(2, poseidon2(2, 32)),
            TableProver::Recompose(recompose(2, 1)),
        ]
    );
    let builders = backend.non_primitive_air_builders();
    match builders.permutation {
        PermutationAirBuilders::Poseidon1 { degree, configs } => {
            assert_eq!(degree, 2);
            assert_eq!(configs, vec![c.for_challenger(), c]);
        }
        _ => panic!("expected Poseidon1 builders"),
    }
    assert_eq!(builders.extra, vec![poseidon2(2, 24), poseidon2(2, 32)]);
    assert_eq!(builders.recompose, recompose(2, 1));
    assert_eq!(
        backend.non_primitive_preprocessors(),
        vec![Preprocessor::Poseidon1, Preprocessor::Recompose { publishes_coefficients: true }]
    );
}

#[test]
fn poseidon2_over_degree_two() {
    let c = poseidon2(2, 16);
    let backend = Backend2::new(c)
        .without_shared_challenger_perm_table()
        .for_extension_degree::<2>();
    assert_eq!(
        backend.non_primitive_provers(2),
        vec![prover2(2, c.for_challenger()), TableProver::Recompose(recompose(2, 1))]
    );
    assert_eq!(
        backend.non_primitive_preprocessors(),
        vec![Preprocessor::Poseidon2, Preprocessor::Recompose { publishes_coefficients: true }]
    );
}

#[test]
fn quintic_tables() {
    let c = poseidon2(1, 16);
    let backend: FriRecursionBackendD5<16, 8, Poseidon2Config> = Backend2::new_d5(c);
    assert_eq!(
        backend.non_primitive_provers(5),
        vec![
            TableProver::Poseidon2Quintic { config: c },
            TableProver::Recompose(recompose(5, 1)),
        ]
    );
    assert!(backend.non_primitive_provers(1).is_empty());
    assert!(matches!(
        backend.non_primitive_air_builders().permutation,
        PermutationAirBuilders::Poseidon2Quintic
    ));
    assert_eq!(backend.non_primitive_air_builders().recompose, recompose(5, 1));

    let wide = poseidon2(1, 24);
    let backend = backend
        .with_extra_poseidon2_table(wide)
        .with_extra_poseidon2_table(poseidon2(4, 16))
        .without_shared_challenger_perm_table();
    assert!(!backend.0.shares_challenger_perm_table);
    assert_eq!(
        backend.non_primitive_provers(5),
        vec![
            TableProver::Poseidon2Quintic { config: c },
            TableProver::Poseidon2Quintic { config: wide },
            TableProver::Recompose(recompose(5, 1)),
        ]
    );
    match backend.clone().non_primitive_air_builders().permutation {
        PermutationAirBuilders::Poseidon2 { degree, configs } => {
            assert_eq!(degree, 5);
            assert_eq!(configs, vec![c, wide]);
        }
        _ => panic!("expected Poseidon2 builders"),
    }
    assert_eq!(
        backend.non_primitive_preprocessors(),
        vec![Preprocessor::Poseidon2, Preprocessor::Recompose { publishes_coefficients: true }]
    );
}

#[test]
fn quintic_tables_of_poseidon1() {
    let c = poseidon1(1, 16);
    let backend = Backend1::new_d5(c);
    assert_eq!(
        backend.non_primitive_provers(5),
        vec![
            TableProver::Poseidon1Quintic { config: c },
            TableProver::Recompose(recompose(5, 1)),
        ]
    );
    assert!(matches!(
        backend.non_primitive_air_builders().permutation,
        PermutationAirBuilders::Poseidon1Quintic
    ));
    assert!(backend.non_primitive_air_builders().extra.is_empty());
    let wide = poseidon2(1, 24);
    let backend = backend
        .with_extra_poseidon2_table(wide)
        .with_extra_poseidon2_table(poseidon2(5, 16));
    assert_eq!(
        backend.non_primitive_provers(5),
        vec![
            TableProver::Poseidon1Quintic { config: c },
            TableProver::Poseidon2Quintic { config: wide },
            TableProver::Recompose(recompose(5, 1)),
        ]
    );
    let builders = backend.non_primitive_air_builders();
    assert!(matches!(builders.permutation, PermutationAirBuilders::Poseidon1Quintic));
    assert_eq!(builders.extra, vec![wide]);
}

#[test]
fn configurations_know_their_permutation() {
    let c1 = poseidon1(4, 16);
    let c2 = poseidon2(2, 16);
    assert_eq!(c1.as_poseidon1(), Some(&c1));
    assert_eq!(c1.as_poseidon2(), None);
    assert_eq!(c1.extension_degree(), 4);
    assert_eq!(c2.as_poseidon1(), None);
    assert_eq!(c2.as_poseidon2(), Some(&c2));
    assert_eq!(c2.extension_degree(), 2);
}
