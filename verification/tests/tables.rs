//! Primitive tables: heights, degrees, committed rows and rejection.
use p3_recursion_tables::air::{AluTable, CircuitTableAir};
use p3_recursion_tables::common::{
    alu_table_lanes, compute_degree, get_airs_and_degrees_with_prep, public_table_lanes,
    reduce_lanes_if_dummy, NpoAirBuilder, NpoPreprocessor, PrepOutput, PreprocessedColumns,
};
use p3_recursion_tables::error::{CircuitError, ProofMetadataError};
use p3_recursion_tables::field::{AluExtMulKind, FieldParams};
use p3_recursion_tables::npo_map::NonPrimitivePreprocessedMap;
use p3_recursion_tables::ops::{ConstraintProfile, NpoTypeId};
use p3_recursion_tables::packing::TablePacking;

const P: u64 = 2130706433;

fn koala_bear() -> FieldParams {
    FieldParams { modulus: P, binomial_w: None, quintic_trinomial: false }
}

/// A circuit over the base field: constants, public inputs, and products `(a, b, out)` of
/// witnesses. Constants come first among the witnesses, then public inputs.
struct Circuit {
    consts: Vec<u64>,
    publics: usize,
    muls: Vec<(u64, u64, u64)>,
}

impl Circuit {
    fn columns(&self) -> PreprocessedColumns<1> {
        let n_consts = self.consts.len() as u64;
        let mut alu: Vec<[u64; 1]> = Vec::new();
        let mut ext_reads: Vec<u32> =
            vec![0; self.consts.len() + self.publics + self.muls.len()];
        for (a, b, out) in &self.muls {
            for v in [0, 0, 0, 0, *a, *b, 0, *out, 1, 0, 0, 1] {
                alu.push([v]);
            }
            ext_reads[*a as usize] += 1;
            ext_reads[*b as usize] += 1;
        }
        PreprocessedColumns {
            primitive: vec![
                (0..n_consts).map(|i| [i]).collect(),
                (0..self.publics as u64).map(|i| [n_consts + i]).collect(),
                alu,
            ],
            const_values: self.consts.iter().map(|c| [*c]).collect(),
            ext_reads,
        }
    }
}

struct NoPreprocessor;

impl NpoPreprocessor<Circuit, 1> for NoPreprocessor {
    fn preprocess(
        &self,
        _circuit: &Circuit,
        _preprocessed: &mut PreprocessedColumns<1>,
    ) -> Result<NonPrimitivePreprocessedMap, CircuitError> {
        Ok(NonPrimitivePreprocessedMap::new())
    }
}

struct NoBuilder;

impl NpoAirBuilder<(), 1> for NoBuilder {
    fn try_build(
        &self,
        _op_type: &NpoTypeId,
        _prep_base: &Vec<u64>,
        _min_height: usize,
        _lanes: usize,
        _constraint_profile: ConstraintProfile,
    ) -> Option<(CircuitTableAir<(), 1>, usize)> {
        None
    }
}

fn one_entry_per_op(table: &AluTable<1>) -> usize {
    table.num_ops
}

fn generate(circuit: &Circuit) -> Result<PreprocessedColumns<1>, CircuitError> {
    Ok(circuit.columns())
}

fn prepare(circuit: &Circuit, packing: &TablePacking) -> Result<PrepOutput<(), 1>, CircuitError> {
    let preprocessors: Vec<NoPreprocessor> = vec![];
    let builders: Vec<NoBuilder> = vec![];
    get_airs_and_degrees_with_prep(
        circuit,
        generate,
        &koala_bear(),
        packing,
        &preprocessors,
        &builders,
        ConstraintProfile::default(),
        one_entry_per_op,
    )
}

#[test]
fn alu_min_height_override_forces_alu_table_taller_than_natural() {
    let circuit = Circuit { consts: vec![2, 3], publics: 0, muls: vec![(0, 1, 2)] };

    let packing = TablePacking::new(1, 1).with_alu_min_height(64);
    let (airs_degrees, _, _) = prepare(&circuit, &packing).unwrap();

    let alu_degree = airs_degrees
        .iter()
        .find_map(|(air, degree)| matches!(air, CircuitTableAir::Alu(_)).then_some(*degree))
        .expect("ALU air present");
    assert_eq!(1usize << alu_degree, 64);
}

#[test]
fn const_public_alu_min_height_overrides_are_independent_and_consistent() {
    // `expected` is the witness of the public input, and the product is connected to it.
    let circuit = Circuit { consts: vec![2, 3], publics: 1, muls: vec![(0, 1, 2)] };

    let packing = TablePacking::new(1, 1)
        .with_const_min_height(8)
        .with_public_min_height(16)
        .with_alu_min_height(32);
    let (airs_degrees, _, _) = prepare(&circuit, &packing).unwrap();

    for (air, degree) in &airs_degrees {
        let expected_height = match air {
            CircuitTableAir::Const(_) => 8usize,
            CircuitTableAir::Public(_) => 16usize,
            CircuitTableAir::Alu(_) => 32usize,
            CircuitTableAir::Dynamic(_) => continue,
        };
        assert_eq!(
            1usize << degree,
            expected_height,
            "returned degree does not match the configured per-table override"
        );

        let prep_height = air
            .preprocessed_height()
            .expect("primitive tables always carry preprocessed data");
        assert_eq!(
            prep_height, expected_height,
            "preprocessed trace height must match the returned degree"
        );
    }
}

/// Asserts that `result` is the overflow of the given table.
fn assert_overflows_on(result: Result<PrepOutput<(), 1>, CircuitError>, expected_table: &str) {
    match result {
        Err(CircuitError::ProfileOverflow { table, .. }) => {
            assert_eq!(table, expected_table);
        }
        Ok(_) => panic!("expected ProfileOverflow on {expected_table}, got Ok"),
        Err(other) => {
            panic!("expected ProfileOverflow on {expected_table}, got a different error: {other:?}")
        }
    }
}

#[test]
fn strict_packing_rejects_a_table_that_outgrows_its_configured_height() {
    // One constant, one public input, and a chain of 20 products, each by the constant.
    let mut muls: Vec<(u64, u64, u64)> = vec![];
    let mut acc: u64 = 1;
    for i in 0..20u64 {
        muls.push((acc, 0, 2 + i));
        acc = 2 + i;
    }
    let circuit = Circuit { consts: vec![3], publics: 1, muls };

    let packing = TablePacking::new(1, 1)
        .with_min_trace_height(4) // comfortably covers CONST/PUBLIC's natural height of 1
        .with_alu_min_height(8) // not below the floor, but below ALU's natural 32
        .with_strict_heights();

    let result = prepare(&circuit, &packing);

    assert_overflows_on(result, "ALU");
}

#[test]
fn strict_packing_reports_const_as_the_overflowing_table() {
    let circuit = Circuit { consts: (0..10).map(|i| i + 2).collect(), publics: 0, muls: vec![] };

    let packing = TablePacking::new(1, 1).with_min_trace_height(4).with_strict_heights();

    let result = prepare(&circuit, &packing);

    assert_overflows_on(result, "CONST");
}

#[test]
fn strict_packing_reports_public_as_the_overflowing_table() {
    let circuit = Circuit { consts: vec![], publics: 10, muls: vec![] };

    let packing = TablePacking::new(1, 1).with_min_trace_height(4).with_strict_heights();

    let result = prepare(&circuit, &packing);

    assert_overflows_on(result, "PUBLIC");
}

#[test]
fn non_strict_packing_still_clamps_up_as_before() {
    let circuit = Circuit { consts: vec![2], publics: 1, muls: vec![(1, 0, 2)] };

    let packing = TablePacking::new(1, 1).with_alu_min_height(2); // no with_strict_heights()

    let result = prepare(&circuit, &packing);

    assert!(result.is_ok());
}

#[test]
fn get_airs_and_degrees_with_prep_rejects_below_floor_override_before_building_prep() {
    let circuit = Circuit { consts: vec![2, 3], publics: 0, muls: vec![(0, 1, 2)] };

    let packing = TablePacking::new(1, 1)
        .with_min_trace_height(32)
        .with_alu_min_height(4); // valid power of two, but below the 32 floor

    let result = prepare(&circuit, &packing);

    assert!(
        result.is_err(),
        "a below-floor per-table override must be rejected before prep is built, \
         not silently used to commit an inconsistent preprocessed trace"
    );
}

/// A circuit that cannot generate its columns.
fn broken(_circuit: &Circuit) -> Result<PreprocessedColumns<1>, CircuitError> {
    Err(CircuitError::Other("no columns".to_string()))
}

fn prepare_broken(packing: &TablePacking) -> CircuitError {
    let preprocessors: Vec<NoPreprocessor> = vec![];
    let builders: Vec<NoBuilder> = vec![];
    let result: Result<PrepOutput<(), 1>, CircuitError> = get_airs_and_degrees_with_prep(
        &Circuit { consts: vec![], publics: 0, muls: vec![] },
        broken,
        &koala_bear(),
        packing,
        &preprocessors,
        &builders,
        ConstraintProfile::default(),
        one_entry_per_op,
    );
    match result {
        Ok(_) => panic!("expected an error"),
        Err(e) => e,
    }
}

#[test]
fn packing_is_rejected_before_the_columns_are_generated() {
    let below = TablePacking::new(1, 1).with_min_trace_height(32).with_public_min_height(16);
    match prepare_broken(&below) {
        CircuitError::InvalidPacking(ProofMetadataError::MinHeightBelowFloor {
            table,
            height,
            floor,
        }) => {
            assert_eq!(table, "PUBLIC");
            assert_eq!(height, 16);
            assert_eq!(floor, 32);
        }
        e => panic!("unexpected error {e:?}"),
    }
    let odd = TablePacking::new(1, 1).with_const_min_height(12).with_alu_min_height(0);
    match prepare_broken(&odd) {
        CircuitError::InvalidPacking(ProofMetadataError::MinHeightNotPowerOfTwo {
            table,
            height,
        }) => {
            assert_eq!(table, "CONST");
            assert_eq!(height, 12);
        }
        e => panic!("unexpected error {e:?}"),
    }
}

#[test]
fn errors_of_the_circuit_are_passed_on() {
    match prepare_broken(&TablePacking::new(1, 1)) {
        CircuitError::Other(message) => assert_eq!(message, "no columns"),
        e => panic!("unexpected error {e:?}"),
    }
    // They come before anything that the packing lacks for the tables.
    let mut packing = TablePacking::new(1, 1);
    packing.public_lanes = 0;
    packing.alu_lanes = 0;
    assert!(matches!(prepare_broken(&packing), CircuitError::Other(_)));
}

#[test]
fn overflow_reports_needed_and_allowed_heights() {
    let circuit = Circuit { consts: vec![7; 9], publics: 0, muls: vec![] };
    let packing = TablePacking::new(1, 1).with_min_trace_height(5).with_strict_heights();
    match prepare(&circuit, &packing) {
        Err(CircuitError::ProfileOverflow { table, needed, allowed }) => {
            assert_eq!(table, "CONST");
            assert_eq!(needed, 16);
            assert_eq!(allowed, 8);
        }
        _ => panic!("expected an overflow"),
    }
}

#[test]
fn strict_tables_have_their_configured_heights() {
    let circuit = Circuit { consts: vec![2, 3, 5], publics: 2, muls: vec![(0, 1, 5), (2, 3, 6)] };
    let packing = TablePacking::new(1, 1)
        .with_min_trace_height(4)
        .with_alu_min_height(16)
        .with_strict_heights();
    let (tables, _, _) = prepare(&circuit, &packing).unwrap();
    let heights: Vec<usize> = tables.iter().map(|t| 1usize << t.1).collect();
    assert_eq!(heights, vec![4, 4, 16]);
}

#[test]
fn committed_rows_of_all_primitive_tables() {
    // Witnesses: constants 0 and 1, public inputs 2 and 3, product 4.
    let circuit = Circuit { consts: vec![11, 13], publics: 2, muls: vec![(0, 2, 4)] };
    let (tables, rows, npo) = prepare(&circuit, &TablePacking::new(2, 3)).unwrap();
    assert_eq!(tables.len(), 3);
    assert!(npo.entries().is_empty());

    assert_eq!(rows.len(), 3);
    assert_eq!(rows[0], vec![1, 0, 11, 0, 1, 13]);
    assert_eq!(rows[1], vec![1, 2, 0, 3]);
    assert_eq!(rows[2], vec![P - 1, 0, 0, 0, 0, 0, 2, 0, 4, P - 1, 0, 1, 0]);

    match &tables[0].0 {
        CircuitTableAir::Const(air) => {
            assert_eq!(air.height, 2);
            assert_eq!(air.preprocessed, rows[0]);
            assert_eq!(air.min_height, 1);
        }
        _ => panic!("Const comes first"),
    }
    match &tables[1].0 {
        CircuitTableAir::Public(air) => {
            assert_eq!(air.num_ops, 2);
            assert_eq!(air.lanes, 2);
            assert_eq!(air.preprocessed, rows[1]);
        }
        _ => panic!("Public comes second"),
    }
    match &tables[2].0 {
        CircuitTableAir::Alu(air) => {
            assert_eq!(air.table.num_ops, 1);
            assert_eq!(air.table.lanes, 3);
            assert_eq!(air.table.reduction, AluExtMulKind::Base);
            assert_eq!(air.table.preprocessed, rows[2]);
            assert_eq!(air.table.horner_packed_steps, 1);
            assert_eq!(air.scheduled_entry_count(), 1);
        }
        _ => panic!("ALU comes third"),
    }
    let degrees: Vec<usize> = tables.iter().map(|t| t.1).collect();
    assert_eq!(degrees, vec![1, 0, 0]);
}

#[test]
fn committed_rows_do_not_depend_on_the_packing() {
    let circuit = Circuit { consts: vec![11, 13], publics: 2, muls: vec![(0, 2, 4), (4, 1, 5)] };
    let (_, a, _) = prepare(&circuit, &TablePacking::new(1, 1)).unwrap();
    let packing = TablePacking::new(4, 2).with_min_trace_height(64).with_const_min_height(128);
    let (_, b, _) = prepare(&circuit, &packing).unwrap();
    assert_eq!(a, b);
}

#[test]
fn tables_without_operations_have_one_lane() {
    let circuit = Circuit { consts: vec![], publics: 1, muls: vec![] };
    let (tables, rows, _) = prepare(&circuit, &TablePacking::new(4, 4)).unwrap();
    assert_eq!(rows[0], Vec::<u64>::new());
    assert_eq!(rows[1], vec![0, 0]);
    assert_eq!(rows[2], vec![0; 13]);
    for (air, degree) in &tables {
        assert_eq!(*degree, 0);
        assert_eq!(air.preprocessed_height(), Some(1));
        match air {
            CircuitTableAir::Public(air) => assert_eq!(air.lanes, 1),
            CircuitTableAir::Alu(air) => {
                assert_eq!(air.table.lanes, 1);
                assert_eq!(air.table.num_ops, 1);
            }
            _ => {}
        }
    }
}

#[test]
fn lanes_divide_the_rows() {
    let circuit = Circuit { consts: vec![], publics: 9, muls: vec![] };
    let (tables, _, _) = prepare(&circuit, &TablePacking::new(4, 4)).unwrap();
    // Nine inputs at four per row take three rows, padded to four.
    assert_eq!(tables[1].1, 2);
    assert_eq!(tables[1].0.preprocessed_height(), Some(4));
}

#[test]
fn alu_rows_follow_the_schedule() {
    let circuit = Circuit {
        consts: vec![2],
        publics: 1,
        muls: (0..6).map(|i| (0, 1, 2 + i)).collect(),
    };
    let preprocessors: Vec<NoPreprocessor> = vec![];
    let builders: Vec<NoBuilder> = vec![];
    let (tables, _, _) = get_airs_and_degrees_with_prep(
        &circuit,
        generate,
        &koala_bear(),
        &TablePacking::new(1, 2),
        &preprocessors,
        &builders,
        ConstraintProfile::default(),
        |table: &AluTable<1>| table.num_ops * 3,
    )
    .unwrap();
    // Eighteen entries at two per row take nine rows, padded to sixteen.
    assert_eq!(tables[2].1, 4);
}

#[test]
fn values_outside_the_base_field_are_rejected() {
    struct Nothing;
    impl NpoPreprocessor<(), 2> for Nothing {
        fn preprocess(
            &self,
            _circuit: &(),
            _preprocessed: &mut PreprocessedColumns<2>,
        ) -> Result<NonPrimitivePreprocessedMap, CircuitError> {
            Ok(NonPrimitivePreprocessedMap::new())
        }
    }
    struct NothingBuilt;
    impl NpoAirBuilder<(), 2> for NothingBuilt {
        fn try_build(
            &self,
            _op_type: &NpoTypeId,
            _prep_base: &Vec<u64>,
            _min_height: usize,
            _lanes: usize,
            _constraint_profile: ConstraintProfile,
        ) -> Option<(CircuitTableAir<(), 2>, usize)> {
            None
        }
    }
    let field = FieldParams { modulus: P, binomial_w: Some(3), quintic_trinomial: false };
    let run = |publics: Vec<[u64; 2]>| {
        let preprocessors: Vec<Nothing> = vec![];
        let builders: Vec<NothingBuilt> = vec![];
        get_airs_and_degrees_with_prep(
            &(),
            |_: &()| {
                Ok(PreprocessedColumns {
                    primitive: vec![vec![[4, 0]], publics.clone(), vec![]],
                    const_values: vec![[5, 6]],
                    ext_reads: vec![0, 9, 8],
                })
            },
            &field,
            &TablePacking::new(1, 1),
            &preprocessors,
            &builders,
            ConstraintProfile::Standard,
            |table: &AluTable<2>| table.num_ops,
        )
    };
    assert!(matches!(run(vec![[2, 1]]), Err(CircuitError::InvalidPreprocessedValues)));
    let (tables, rows, _) = run(vec![[2, 0]]).unwrap();
    // Indices are scaled by the degree: index 4 is witness 2, and index 2 is witness 1.
    assert_eq!(rows[0], vec![8, 4, 5, 6]);
    assert_eq!(rows[1], vec![9, 2]);
    match &tables[2].0 {
        CircuitTableAir::Alu(air) => {
            assert_eq!(air.table.reduction, AluExtMulKind::Binomial { w: 3 });
        }
        _ => panic!("ALU comes third"),
    }
}

#[test]
fn a_copied_table_is_the_same_table() {
    let circuit = Circuit { consts: vec![11, 13], publics: 2, muls: vec![(0, 2, 4)] };
    let (tables, rows, _) = prepare(&circuit, &TablePacking::new(2, 3)).unwrap();
    for (i, (air, _)) in tables.iter().enumerate() {
        let copy = air.clone();
        assert_eq!(copy.preprocessed_height(), air.preprocessed_height());
        let held = match copy {
            CircuitTableAir::Const(air) => air.preprocessed,
            CircuitTableAir::Public(air) => air.preprocessed,
            CircuitTableAir::Alu(air) => air.table.preprocessed,
            CircuitTableAir::Dynamic(_) => vec![],
        };
        assert_eq!(held, rows[i]);
    }
    let dynamic: CircuitTableAir<String, 1> = CircuitTableAir::Dynamic("t".to_string());
    assert!(matches!(dynamic.clone(), CircuitTableAir::Dynamic(name) if name == "t"));
    assert_eq!(dynamic.preprocessed_height(), None);
}

#[test]
fn degree_of_a_table() {
    let packing = TablePacking::new(1, 1).with_min_trace_height(4);
    assert_eq!(compute_degree(&packing, 0, None, "T").unwrap(), 2);
    assert_eq!(compute_degree(&packing, 5, None, "T").unwrap(), 3);
    assert_eq!(compute_degree(&packing, 5, Some(64), "T").unwrap(), 6);
    assert_eq!(compute_degree(&packing, 1 << 20, Some(64), "T").unwrap(), 20);
    let strict = packing.with_strict_heights();
    assert_eq!(compute_degree(&strict, 4, None, "T").unwrap(), 2);
    match compute_degree(&strict, 5, None, "T") {
        Err(CircuitError::ProfileOverflow { table, needed, allowed }) => {
            assert_eq!((table.as_str(), needed, allowed), ("T", 8, 4));
        }
        _ => panic!("expected an overflow"),
    }
}

#[test]
fn lanes_are_reduced_for_dummy_tables_only() {
    assert_eq!(reduce_lanes_if_dummy("ALU", true, 8), 1);
    assert_eq!(reduce_lanes_if_dummy("ALU", true, 1), 1);
    assert_eq!(reduce_lanes_if_dummy("ALU", false, 8), 8);
    assert_eq!(reduce_lanes_if_dummy("ALU", false, 1), 1);
    let packing = TablePacking::new(4, 8);
    assert_eq!(public_table_lanes(&packing, 0), 1);
    assert_eq!(public_table_lanes(&packing, 1), 1);
    assert_eq!(public_table_lanes(&packing, 2), 4);
    assert_eq!(alu_table_lanes(&packing, 0), 1);
    assert_eq!(alu_table_lanes(&packing, 12), 8);
}

#[test]
fn validation_of_packings() {
    assert!(TablePacking::new(1, 1).validate().is_ok());
    assert!(TablePacking::new(1, 1)
        .with_min_trace_height(32)
        .with_const_min_height(32)
        .with_alu_min_height(64)
        .validate()
        .is_ok());
    let mut packing = TablePacking::new(1, 1).with_min_trace_height(8);
    packing.npo_min_heights.push((NpoTypeId::new("poseidon"), 16));
    assert!(packing.validate().is_ok());
    packing.npo_min_heights.push((NpoTypeId::new("recompose"), 4));
    match packing.validate() {
        Err(ProofMetadataError::MinHeightBelowFloor { table, height, floor }) => {
            assert_eq!((table.as_str(), height, floor), ("recompose", 4, 8));
        }
        _ => panic!("expected a fault"),
    }
    let huge = TablePacking::new(1, 1).with_alu_min_height(usize::MAX);
    assert!(matches!(
        huge.validate(),
        Err(ProofMetadataError::MinHeightNotPowerOfTwo { .. })
    ));
}

#[test]
fn overflow_becomes_a_circuit_error_of_its_own() {
    let e = ProofMetadataError::ProfileOverflow {
        table: "T".to_string(),
        needed: 8,
        allowed: 4,
    };
    assert!(matches!(
        CircuitError::from(e),
        CircuitError::ProfileOverflow { needed: 8, allowed: 4, .. }
    ));
}
