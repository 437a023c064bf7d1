//! Plug-in operations: preprocessing, table builders and required tables.
use p3_recursion_tables::air::{AluTable, CircuitTableAir};
use p3_recursion_tables::common::{
    get_airs_and_degrees_with_prep, NpoAirBuilder, NpoPreprocessor, PrepOutput,
    PreprocessedColumns,
};
use p3_recursion_tables::error::CircuitError;
use p3_recursion_tables::field::FieldParams;
use p3_recursion_tables::heights::{div_ceil, log2_ceil};
use p3_recursion_tables::npo_map::NonPrimitivePreprocessedMap;
use p3_recursion_tables::ops::{ConstraintProfile, NpoTypeId};
use p3_recursion_tables::packing::TablePacking;

const P: u64 = 2130706433;

/// A plug-in that adds a read to every witness and gives rows for one operation.
struct Rows {
    op: &'static str,
    rows: Vec<u64>,
    fails: bool,
}

impl NpoPreprocessor<(), 1> for Rows {
    fn preprocess(
        &self,
        _circuit: &(),
        preprocessed: &mut PreprocessedColumns<1>,
    ) -> Result<NonPrimitivePreprocessedMap, CircuitError> {
        if self.fails {
            return Err(CircuitError::Other(format!("{} fails", self.op)));
        }
        for reads in &mut preprocessed.ext_reads {
            *reads += 1;
        }
        let mut map = NonPrimitivePreprocessedMap::new();
        map.insert(NpoTypeId::new(self.op), self.rows.clone());
        Ok(map)
    }
}

/// What a builder was handed, as the table that it builds.
#[derive(Clone, Debug, PartialEq)]
struct Built {
    op: String,
    rows: Vec<u64>,
    min_height: usize,
    lanes: usize,
    profile: ConstraintProfile,
}

/// Builds the tables of the operations that it lists.
struct Builder {
    ops: Vec<&'static str>,
}

impl NpoAirBuilder<Built, 1> for Builder {
    fn try_build(
        &self,
        op_type: &NpoTypeId,
        prep_base: &Vec<u64>,
        min_height: usize,
        lanes: usize,
        constraint_profile: ConstraintProfile,
    ) -> Option<(CircuitTableAir<Built, 1>, usize)> {
        if !self.ops.contains(&op_type.name.as_str()) {
            return None;
        }
        let degree = log2_ceil(div_ceil(prep_base.len(), lanes).max(min_height));
        let built = Built {
            op: op_type.name.clone(),
            rows: prep_base.clone(),
            min_height,
            lanes,
            profile: constraint_profile,
        };
        Some((CircuitTableAir::Dynamic(built), degree))
    }
}

fn rows(op: &'static str, rows: Vec<u64>) -> Rows {
    Rows { op, rows, fails: false }
}

fn prepare(
    packing: &TablePacking,
    preprocessors: Vec<Rows>,
    builders: Vec<Builder>,
) -> Result<PrepOutput<Built, 1>, CircuitError> {
    prepare_with(packing, preprocessors, builders, ConstraintProfile::Standard)
}

fn prepare_with(
    packing: &TablePacking,
    preprocessors: Vec<Rows>,
    builders: Vec<Builder>,
    profile: ConstraintProfile,
) -> Result<PrepOutput<Built, 1>, CircuitError> {
    get_airs_and_degrees_with_prep(
        &(),
        |_: &()| {
            Ok(PreprocessedColumns {
                primitive: vec![vec![], vec![[0], [1]], vec![]],
                const_values: vec![],
                ext_reads: vec![0, 5],
            })
        },
        &FieldParams { modulus: P, binomial_w: None, quintic_trinomial: false },
        packing,
        &preprocessors,
        &builders,
        profile,
        |table: &AluTable<1>| table.num_ops,
    )
}

fn dynamic(out: &PrepOutput<Built, 1>) -> Vec<(Built, usize)> {
    out.0[3..]
        .iter()
        .map(|(air, degree)| match air {
            CircuitTableAir::Dynamic(built) => (built.clone(), *degree),
            _ => panic!("plug-in tables come last"),
        })
        .collect()
}

#[test]
fn reads_added_by_plugins_count() {
    let out = prepare(
        &TablePacking::new(1, 1),
        vec![rows("a", vec![1]), rows("b", vec![2])],
        vec![],
    )
    .unwrap();
    assert_eq!(out.1[1], vec![2, 0, 7, 1]);
}

#[test]
fn later_plugins_replace_rows() {
    let out = prepare(
        &TablePacking::new(1, 1),
        vec![rows("a", vec![1]), rows("b", vec![2]), rows("a", vec![3, 4])],
        vec![],
    )
    .unwrap();
    assert_eq!(out.2.get(&NpoTypeId::new("a")), Some(vec![3, 4]));
    assert_eq!(out.2.get(&NpoTypeId::new("b")), Some(vec![2]));
    assert_eq!(out.2.get(&NpoTypeId::new("c")), None);
    assert_eq!(out.2.entries().len(), 2);
}

#[test]
fn errors_of_plugins_are_passed_on() {
    let result = prepare(
        &TablePacking::new(1, 1),
        vec![rows("a", vec![1]), Rows { op: "b", rows: vec![], fails: true }],
        vec![],
    );
    match result {
        Err(CircuitError::Other(message)) => assert_eq!(message, "b fails"),
        _ => panic!("expected the plug-in's error"),
    }
}

#[test]
fn tables_follow_the_builders() {
    let out = prepare(
        &TablePacking::new(1, 1).with_min_trace_height(4),
        vec![rows("a", vec![1]), rows("b", vec![2; 9]), rows("c", vec![3])],
        vec![
            Builder { ops: vec!["c"] },
            Builder { ops: vec!["none"] },
            Builder { ops: vec!["b"] },
            Builder { ops: vec!["a"] },
        ],
    )
    .unwrap();
    let tables = dynamic(&out);
    let ops: Vec<&str> = tables.iter().map(|t| t.0.op.as_str()).collect();
    assert_eq!(ops, vec!["c", "b", "a"]);
    let degrees: Vec<usize> = tables.iter().map(|t| t.1).collect();
    assert_eq!(degrees, vec![2, 4, 2]);
    assert_eq!(tables[1].0.rows, vec![2; 9]);
    assert_eq!(tables[1].0.lanes, 1);
    assert_eq!(tables[1].0.min_height, 4);
}

#[test]
fn a_builder_builds_one_table() {
    let out = prepare(
        &TablePacking::new(1, 1),
        vec![rows("a", vec![1]), rows("b", vec![2])],
        vec![Builder { ops: vec!["a", "b"] }],
    )
    .unwrap();
    let tables = dynamic(&out);
    assert_eq!(tables.len(), 1);
    assert!(tables[0].0.op == "a" || tables[0].0.op == "b");
}

#[test]
fn builders_are_handed_the_profile() {
    for profile in [ConstraintProfile::Standard, ConstraintProfile::Other(3)] {
        let out = prepare_with(
            &TablePacking::new(1, 1),
            vec![rows("a", vec![1])],
            vec![Builder { ops: vec!["a"] }],
            profile,
        )
        .unwrap();
        assert_eq!(dynamic(&out)[0].0.profile, profile);
    }
}

#[test]
fn packing_sets_lanes_and_heights() {
    let mut packing = TablePacking::new(1, 1).with_min_trace_height(2);
    packing.npo_lanes.push((NpoTypeId::new("a"), 3));
    packing.npo_lanes.push((NpoTypeId::new("a"), 4));
    packing.npo_min_heights.push((NpoTypeId::new("a"), 32));
    let out = prepare(
        &packing,
        vec![rows("a", vec![1; 9]), rows("b", vec![1; 9])],
        vec![Builder { ops: vec!["a"] }, Builder { ops: vec!["b"] }],
    )
    .unwrap();
    let tables = dynamic(&out);
    assert_eq!((tables[0].0.lanes, tables[0].0.min_height, tables[0].1), (4, 32, 5));
    assert_eq!((tables[1].0.lanes, tables[1].0.min_height, tables[1].1), (1, 2, 4));
    assert_eq!(packing.npo_lanes(&NpoTypeId::new("a")), Some(4));
    assert_eq!(packing.npo_lanes(&NpoTypeId::new("b")), None);
    assert_eq!(packing.npo_min_height(&NpoTypeId::new("a")), Some(32));
}

#[test]
fn strict_packing_rejects_plugin_tables_too() {
    let strict = TablePacking::new(1, 1).with_min_trace_height(4).with_strict_heights();
    let result = prepare(
        &strict,
        vec![rows("a", vec![1; 4]), rows("b", vec![1; 5])],
        vec![Builder { ops: vec!["a"] }, Builder { ops: vec!["b"] }],
    );
    match result {
        Err(CircuitError::ProfileOverflow { table, needed, allowed }) => {
            assert_eq!((table.as_str(), needed, allowed), ("b", 8, 4));
        }
        _ => panic!("expected an overflow"),
    }
    let result = prepare(
        &strict,
        vec![rows("a", vec![1; 4])],
        vec![Builder { ops: vec!["a"] }],
    );
    assert_eq!(dynamic(&result.unwrap())[0].1, 2);
}

#[test]
fn required_tables_are_built_without_rows() {
    let mut packing = TablePacking::new(1, 1);
    packing.required_npo.push(NpoTypeId::new("a"));
    packing.required_npo.push(NpoTypeId::new("b"));
    let out = prepare(
        &packing,
        vec![rows("b", vec![6])],
        vec![Builder { ops: vec!["a"] }, Builder { ops: vec!["b"] }],
    )
    .unwrap();
    assert_eq!(out.2.get(&NpoTypeId::new("a")), Some(vec![]));
    assert_eq!(out.2.get(&NpoTypeId::new("b")), Some(vec![6]));
    let tables = dynamic(&out);
    assert_eq!(tables[0].0.op, "a");
    assert_eq!(tables[0].0.rows, Vec::<u64>::new());
}

#[test]
fn the_first_required_table_without_builder_is_reported() {
    let mut packing = TablePacking::new(1, 1);
    for op in ["a", "b", "c"] {
        packing.required_npo.push(NpoTypeId::new(op));
    }
    let result = prepare(&packing, vec![], vec![Builder { ops: vec!["a"] }]);
    match result {
        Err(CircuitError::NonPrimitiveOpLayoutMismatch { op, expected, got }) => {
            assert_eq!(op.name, "b");
            assert_eq!(expected, "an AIR builder for the required table");
            assert_eq!(got, 0);
        }
        _ => panic!("expected a missing table"),
    }
}

#[test]
fn rows_by_operation() {
    let a = NpoTypeId::new("a");
    let b = NpoTypeId::new("b");
    let mut map = NonPrimitivePreprocessedMap::new();
    assert!(map.entries().is_empty());
    map.insert(a.clone(), vec![1]);
    map.insert(a.clone(), vec![2]);
    assert_eq!(map.get(&a), Some(vec![2]));
    map.ensure_listed(&a);
    assert_eq!(map.get(&a), Some(vec![2]));
    map.ensure_listed(&b);
    assert_eq!(map.get(&b), Some(vec![]));
    let mut other = NonPrimitivePreprocessedMap::new();
    other.insert(b.clone(), vec![5, 6]);
    map.extend(other);
    assert_eq!(map.get(&a), Some(vec![2]));
    assert_eq!(map.get(&b), Some(vec![5, 6]));
    let mut listed: Vec<(String, Vec<u64>)> =
        map.entries().into_iter().map(|(op, rows)| (op.name, rows)).collect();
    listed.sort();
    assert_eq!(
        listed,
        vec![("a".to_string(), vec![2]), ("b".to_string(), vec![5, 6])]
    );
}
