//! Conversion of columns to rows, and the arithmetic under it.
use p3_recursion_tables::decimal::append_decimal;
use p3_recursion_tables::field::{AluExtMulKind, FieldParams};
use p3_recursion_tables::heights::{div_ceil, log2_ceil, next_power_of_two, power_of_two};
use p3_recursion_tables::rows::{
    as_base, read_count, to_alu_rows, to_const_rows, to_public_rows,
};

fn field(modulus: u64) -> FieldParams {
    FieldParams { modulus, binomial_w: None, quintic_trinomial: false }
}

#[test]
fn heights_are_padded_to_powers_of_two() {
    let cases: [(usize, usize); 8] =
        [(0, 1), (1, 1), (2, 2), (3, 4), (4, 4), (5, 8), (1023, 1024), (1025, 2048)];
    for (n, expected) in cases {
        assert_eq!(next_power_of_two(n), expected);
    }
    let tallest = usize::MAX / 2 + 1;
    assert_eq!(next_power_of_two(tallest), tallest);
    assert_eq!(next_power_of_two(tallest - 1), tallest);
}

#[test]
fn logarithms_are_rounded_up() {
    let cases: [(usize, usize); 7] = [(0, 0), (1, 0), (2, 1), (3, 2), (64, 6), (65, 7), (4096, 12)];
    for (n, expected) in cases {
        assert_eq!(log2_ceil(n), expected);
    }
    assert_eq!(log2_ceil(usize::MAX), usize::BITS as usize);
    assert_eq!(power_of_two(0), 1);
    assert_eq!(power_of_two(10), 1024);
}

#[test]
fn quotients_are_rounded_up() {
    let cases: [(usize, usize, usize); 6] =
        [(0, 3, 0), (1, 3, 1), (3, 3, 1), (4, 3, 2), (9, 4, 3), (usize::MAX, 1, usize::MAX)];
    for (n, d, expected) in cases {
        assert_eq!(div_ceil(n, d), expected);
    }
}

#[test]
fn field_arithmetic_is_modular() {
    let f = field(7);
    assert_eq!(f.from_u32(3), 3);
    assert_eq!(f.from_u32(16), 2);
    assert_eq!(f.minus(0, 1), 6);
    assert_eq!(f.minus(5, 2), 3);
    assert_eq!(f.minus(0, 0), 0);
    let goldilocks = field(18446744069414584321);
    assert_eq!(goldilocks.minus(0, 1), 18446744069414584320);
    assert_eq!(goldilocks.from_u32(u32::MAX), u32::MAX as u64);
}

#[test]
fn multiplication_is_resolved_by_degree() {
    assert_eq!(AluExtMulKind::resolve(1, None, false), Some(AluExtMulKind::Base));
    assert_eq!(AluExtMulKind::resolve(1, Some(3), false), Some(AluExtMulKind::Base));
    assert_eq!(AluExtMulKind::resolve(4, Some(3), false), Some(AluExtMulKind::Binomial { w: 3 }));
    assert_eq!(AluExtMulKind::resolve(5, None, true), Some(AluExtMulKind::QuinticTrinomial));
    assert_eq!(AluExtMulKind::resolve(4, None, false), None);
}

#[test]
fn base_values_have_no_other_coefficients() {
    assert_eq!(as_base(&[9]), Some(9));
    assert_eq!(as_base(&[9, 0, 0, 0]), Some(9));
    assert_eq!(as_base(&[9, 0, 1, 0]), None);
    assert_eq!(as_base(&[0, 0]), Some(0));
}

#[test]
fn reads_are_counted_by_witness() {
    let reads: Vec<u32> = vec![3, 4, 5];
    assert_eq!(read_count(&reads, 0, 4), 3);
    assert_eq!(read_count(&reads, 8, 4), 5);
    assert_eq!(read_count(&reads, 11, 4), 5);
    assert_eq!(read_count(&reads, 12, 4), 0);
}

#[test]
fn alu_states_give_lookup_multiplicities() {
    let p: u64 = 101;
    let f = field(p);
    let reads: Vec<u32> = vec![0, 2, 3, 4, 5];
    let row = |a_state: u64, b_creates: u64, c_state: u64, out_creates: u64| {
        let op: Vec<u64> =
            vec![90, 91, 92, 93, 1, 2, 3, 4, a_state, b_creates, c_state, out_creates];
        to_alu_rows(&f, &reads, &op, 1)
    };
    // Readers on all operands.
    assert_eq!(row(1, 0, 1, 0), vec![p - 1, 90, 91, 92, 93, 1, 2, 3, 4, p - 1, p - 1, 1, 1]);
    // Creators on all operands: `b` and `out` send once per read, and so do `a` and `c` once the
    // activity of -1 is multiplied in.
    let creators = row(2, 1, 2, 7);
    assert_eq!(creators, vec![p - 1, 90, 91, 92, 93, 1, 2, 3, 4, 3, 5, p - 2, p - 4]);
    assert_eq!(creators[0] * creators[11] % p, 2);
    assert_eq!(creators[0] * creators[12] % p, 4);
    // Skipped operands, by any other state.
    let skipped = row(0, 0, 3, 0);
    assert_eq!(skipped[11], 0);
    assert_eq!(skipped[12], 0);
}

#[test]
fn alu_rows_are_one_per_operation() {
    let f = field(101);
    let reads: Vec<u32> = vec![];
    assert_eq!(to_alu_rows(&f, &reads, &vec![], 4), vec![0; 13]);
    let two: Vec<u64> = (0..24).collect();
    let rows = to_alu_rows(&f, &reads, &two, 4);
    assert_eq!(rows.len(), 26);
    assert_eq!(rows[1..9], [0, 1, 2, 3, 4, 5, 6, 7]);
    assert_eq!(rows[14..22], [12, 13, 14, 15, 16, 17, 18, 19]);
    for cell in rows {
        assert!(cell < 101);
    }
}

#[test]
fn public_rows_are_reads_and_index() {
    let f = field(5);
    let reads: Vec<u32> = vec![1, 7, 2];
    assert_eq!(to_public_rows(&f, &reads, &vec![2, 4, 6], 2), vec![2, 2, 2, 4, 0, 6]);
    assert_eq!(to_public_rows(&f, &reads, &vec![], 2), Vec::<u64>::new());
}

#[test]
fn const_rows_carry_the_coefficients() {
    let f = field(101);
    let reads: Vec<u32> = vec![6, 7];
    let values: Vec<[u64; 3]> = vec![[1, 2, 3], [4, 5, 6]];
    assert_eq!(
        to_const_rows(&f, &reads, &vec![3, 0], &values),
        vec![7, 3, 1, 2, 3, 6, 0, 4, 5, 6]
    );
    // An index without a constant gives no row, and neither does a constant without an index.
    assert_eq!(to_const_rows(&f, &reads, &vec![0, 3, 6], &values).len(), 10);
    assert_eq!(to_const_rows(&f, &reads, &vec![0], &values), vec![6, 0, 1, 2, 3]);
}

#[test]
fn numbers_in_decimal() {
    let cases: [(usize, &str); 6] =
        [(0, "0"), (9, "9"), (10, "10"), (307, "307"), (65536, "65536"), (1000000, "1000000")];
    for (n, expected) in cases {
        let mut text = "n=".to_string();
        append_decimal(&mut text, n);
        assert_eq!(text, format!("n={expected}"));
    }
}
