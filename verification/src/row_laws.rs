//! What the committed rows of the primitive tables hold, cell by cell.
use crate::field::FieldParams;
use crate::rows::{
    alu_row, alu_rows, as_base, concat_rows, const_count, const_rows, lemma_alu_rows_len,
    lemma_concat_rows_cell, lemma_const_rows_len, lemma_public_rows_len, public_rows, read_count,
    reads_of, to_alu_rows, to_const_rows, to_public_rows, ALU_OP_WIDTH, ALU_ROW_WIDTH,
};
use vstd::arithmetic::div_mod::{
    lemma_mod_add_multiples_vanish, lemma_mod_multiples_vanish, lemma_mul_mod_noop_right,
    lemma_small_mod,
};
use vstd::prelude::*;

verus! {

/// Multiplicity with which an ALU row looks an operand up: the row's activity in column 0 times
/// the operand's reader column.
pub open spec fn lookup_multiplicity(field: FieldParams, row: Seq<u64>, reader: int) -> u64 {
    (row[0] * row[reader] % field.modulus as int) as u64
}

/// The multiplicity that the state of an operand stands for: -1 for a reader, the number of reads
/// for the operation that creates a private value, and nothing for an operand that is skipped.
pub open spec fn state_multiplicity(
    field: FieldParams,
    ext_reads: Seq<u32>,
    state: u64,
    index: u64,
    d: usize,
) -> u64 {
    if state == 1 {
        (field.modulus - 1) as u64
    } else if state == 2 {
        field.element(reads_of(ext_reads, index, d))
    } else {
        0
    }
}

proof fn lemma_lookup(
    field: FieldParams,
    ext_reads: Seq<u32>,
    state: u64,
    index: u64,
    d: usize,
    row: Seq<u64>,
    reader: int,
)
    requires
        field.well_formed(),
        row[0] == field.difference(0, 1),
        row[reader] == crate::rows::reader_column(field, ext_reads, state, index, d),
    ensures
        row[0] == field.modulus - 1,
        lookup_multiplicity(field, row, reader) == state_multiplicity(
            field,
            ext_reads,
            state,
            index,
            d,
        ),
{
    let p = field.modulus as int;
    lemma_mod_add_multiples_vanish(-1, p);
    lemma_small_mod((p - 1) as nat, p as nat);
    if state == 1 {
    } else if state == 2 {
        let n = reads_of(ext_reads, index, d) as int;
        let e = n % p;
        let r = (0 - e) % p;
        assert(row[reader] == r);
        lemma_mul_mod_noop_right(p - 1, 0 - e, p);
        assert((p - 1) * r % p == (p - 1) * (0 - e) % p);
        assert((p - 1) * (0 - e) == p * (0 - e) + e) by (nonlinear_arith);
        lemma_mod_multiples_vanish(0 - e, e, p);
        lemma_small_mod(e as nat, p as nat);
    } else {
        assert((p - 1) * 0 == 0);
        lemma_small_mod(0, p as nat);
    }
}

/// Every ALU row is active, with -1 in column 0, and looks up its `a` and `c` operands with the
/// multiplicities that the operation's states stand for.
pub proof fn law_operand_lookups(
    field: FieldParams,
    ext_reads: Seq<u32>,
    op: Seq<u64>,
    d: usize,
)
    requires
        field.well_formed(),
        op.len() == ALU_OP_WIDTH,
    ensures
        ({
            let row = alu_row(field, ext_reads, op, d);
            &&& row[0] == field.modulus - 1
            &&& lookup_multiplicity(field, row, 11) == state_multiplicity(
                field,
                ext_reads,
                op[8],
                op[4],
                d,
            )
            &&& lookup_multiplicity(field, row, 12) == state_multiplicity(
                field,
                ext_reads,
                op[10],
                op[6],
                d,
            )
        }),
{
    let row = alu_row(field, ext_reads, op, d);
    lemma_lookup(field, ext_reads, op[8], op[4], d, row, 11);
    lemma_lookup(field, ext_reads, op[10], op[6], d, row, 12);
}

/// The single row of an ALU table without operations is inactive and takes part in no lookup.
pub proof fn law_dummy_row_takes_no_part(field: FieldParams, ext_reads: Seq<u32>, d: usize)
    requires
        field.well_formed(),
    ensures
        ({
            let row = alu_rows(field, ext_reads, Seq::empty(), d);
            &&& row.len() == ALU_ROW_WIDTH
            &&& row[0] == 0
            &&& row[9] == 0
            &&& row[10] == 0
            &&& lookup_multiplicity(field, row, 11) == 0
            &&& lookup_multiplicity(field, row, 12) == 0
        }),
{
    lemma_small_mod(0, field.modulus as nat);
}

/// Row `r` of the ALU rows is the row of operation `r`: selectors and indices as the circuit gave
/// them, between the columns that are computed.
pub proof fn law_alu_cells(
    field: FieldParams,
    ext_reads: Seq<u32>,
    ops: Seq<u64>,
    d: usize,
    r: int,
    c: int,
)
    requires
        0 <= r < ops.len() / ALU_OP_WIDTH as nat,
        0 <= c < ALU_ROW_WIDTH,
    ensures
        ({
            let op = ops.subrange(r * ALU_OP_WIDTH, r * ALU_OP_WIDTH + ALU_OP_WIDTH);
            let cell = alu_rows(field, ext_reads, ops, d)[r * ALU_ROW_WIDTH + c];
            &&& cell == alu_row(field, ext_reads, op, d)[c]
            &&& 1 <= c <= 8 ==> cell == ops[r * ALU_OP_WIDTH + c - 1]
        }),
{
    let row = |i: int|
        alu_row(
            field,
            ext_reads,
            ops.subrange(i * ALU_OP_WIDTH, i * ALU_OP_WIDTH + ALU_OP_WIDTH),
            d,
        );
    lemma_concat_rows_cell(ops.len() / ALU_OP_WIDTH as nat, row, ALU_ROW_WIDTH as nat, r, c);
}

/// Row `r` of the Public rows is the number of reads of public input `r`, and its index.
pub proof fn law_public_cells(
    field: FieldParams,
    ext_reads: Seq<u32>,
    indices: Seq<u64>,
    d: usize,
    r: int,
)
    requires
        0 <= r < indices.len(),
    ensures
        ({
            let rows = public_rows(field, ext_reads, indices, d);
            &&& rows[2 * r] == field.element(reads_of(ext_reads, indices[r], d))
            &&& rows[2 * r + 1] == indices[r]
        }),
{
    let row = |i: int| seq![field.element(reads_of(ext_reads, indices[i], d)), indices[i]];
    lemma_concat_rows_cell(indices.len(), row, 2, r, 0);
    lemma_concat_rows_cell(indices.len(), row, 2, r, 1);
}

/// Row `r` of the Const rows is the number of reads of constant `r`, its index, and its
/// coefficients.
pub proof fn law_const_cells<const D: usize>(
    field: FieldParams,
    ext_reads: Seq<u32>,
    indices: Seq<u64>,
    values: Seq<[u64; D]>,
    r: int,
    k: int,
)
    requires
        0 <= r < const_count(indices.len(), values.len()),
        0 <= k < D,
    ensures
        ({
            let rows = const_rows(field, ext_reads, indices, values);
            let at = r * (2 + D);
            &&& rows[at] == field.element(reads_of(ext_reads, indices[r], D))
            &&& rows[at + 1] == indices[r]
            &&& rows[at + 2 + k] == values[r]@[k]
        }),
{
    let row = |i: int|
        seq![field.element(reads_of(ext_reads, indices[i], D)), indices[i]] + values[i]@;
    let n = const_count(indices.len(), values.len());
    lemma_concat_rows_cell(n, row, (2 + D) as nat, r, 0);
    lemma_concat_rows_cell(n, row, (2 + D) as nat, r, 1);
    lemma_concat_rows_cell(n, row, (2 + D) as nat, r, 2 + k);
}

/// Whether every value is a canonical element of the field.
pub open spec fn canonical(field: FieldParams, values: Seq<u64>) -> bool {
    forall|i: int| 0 <= i < values.len() ==> #[trigger] values[i] < field.modulus
}

proof fn lemma_concat_canonical(field: FieldParams, n: nat, row: spec_fn(int) -> Seq<u64>)
    requires
        forall|r: int| 0 <= r < n ==> canonical(field, #[trigger] row(r)),
    ensures
        canonical(field, concat_rows(n, row)),
    decreases n,
{
    if n > 0 {
        let m = (n - 1) as nat;
        lemma_concat_canonical(field, m, row);
        assert(canonical(field, row(n - 1)));
        let before = concat_rows(m, row);
        let all = concat_rows(n, row);
        assert forall|i: int| 0 <= i < all.len() implies #[trigger] all[i] < field.modulus by {
            if i < before.len() {
                assert(all[i] == before[i]);
            } else {
                assert(all[i] == row(n - 1)[i - before.len()]);
            }
        }
    }
}

proof fn lemma_element_canonical(field: FieldParams, n: u32)
    requires
        field.well_formed(),
    ensures
        field.element(n) < field.modulus,
        field.difference(0, field.element(n)) < field.modulus,
        field.difference(0, 1) < field.modulus,
{
    let p = field.modulus as int;
    assert(0 <= n as int % p < p);
    assert(0 <= (0 - field.element(n)) % p < p);
    assert(0 <= (0int - 1) % p < p);
}

/// Rows of canonical columns hold canonical elements only.
pub proof fn law_rows_are_canonical<const D: usize>(
    field: FieldParams,
    ext_reads: Seq<u32>,
    consts: Seq<u64>,
    values: Seq<[u64; D]>,
    publics: Seq<u64>,
    ops: Seq<u64>,
)
    requires
        field.well_formed(),
        canonical(field, consts),
        canonical(field, publics),
        canonical(field, ops),
        forall|i: int| 0 <= i < values.len() ==> canonical(field, (#[trigger] values[i])@),
    ensures
        canonical(field, const_rows(field, ext_reads, consts, values)),
        canonical(field, public_rows(field, ext_reads, publics, D)),
        canonical(field, alu_rows(field, ext_reads, ops, D)),
{
    assert forall|n: u32| #[trigger] field.element(n) < field.modulus && field.difference(
        0,
        field.element(n),
    ) < field.modulus by {
        lemma_element_canonical(field, n);
    }
    lemma_element_canonical(field, 0);
    let const_row = |r: int|
        seq![field.element(reads_of(ext_reads, consts[r], D)), consts[r]] + values[r]@;
    assert forall|r: int| 0 <= r < const_count(consts.len(), values.len()) implies canonical(
        field,
        #[trigger] const_row(r),
    ) by {
        assert(canonical(field, values[r]@));
        assert(consts[r] < field.modulus);
        assert forall|i: int| 0 <= i < const_row(r).len() implies #[trigger] const_row(r)[i]
            < field.modulus by {
            if i >= 2 {
                assert(const_row(r)[i] == values[r]@[i - 2]);
            }
        }
    }
    lemma_concat_canonical(field, const_count(consts.len(), values.len()), const_row);
    let public_row = |r: int|
        seq![field.element(reads_of(ext_reads, publics[r], D)), publics[r]];
    assert forall|r: int| 0 <= r < publics.len() implies canonical(
        field,
        #[trigger] public_row(r),
    ) by {
        assert(publics[r] < field.modulus);
    }
    lemma_concat_canonical(field, publics.len(), public_row);
    if ops.len() > 0 {
        let row = |r: int|
            alu_row(
                field,
                ext_reads,
                ops.subrange(r * ALU_OP_WIDTH, r * ALU_OP_WIDTH + ALU_OP_WIDTH),
                D,
            );
        let n = ops.len() / ALU_OP_WIDTH as nat;
        assert forall|r: int| 0 <= r < n implies canonical(field, #[trigger] row(r)) by {
            let op = ops.subrange(r * ALU_OP_WIDTH, r * ALU_OP_WIDTH + ALU_OP_WIDTH);
            assert forall|i: int| 0 <= i < ALU_OP_WIDTH implies #[trigger] op[i] < field.modulus by {
                assert(op[i] == ops[r * ALU_OP_WIDTH + i]);
            }
        }
        lemma_concat_canonical(field, n, row);
    }
}

/// What [`to_alu_rows`] gives, cell by cell: thirteen columns per operation, or thirteen zeros if
/// there is no operation.
///
/// Indices are scaled by the degree, so an index divided by `d` is a witness, which is read as often
/// as `ext_reads` says, and never if it lies outside. An operation that creates `b` or `out` sends it
/// once per read, and reads it otherwise; column 0 is -1.
pub proof fn law_alu_rows_in_full(
    field: FieldParams,
    ext_reads: Vec<u32>,
    ops: Vec<u64>,
    d: usize,
    rows: Vec<u64>,
)
    requires
        call_ensures(to_alu_rows, (&field, &ext_reads, &ops, d), rows),
        field.modulus > 1,
        d > 0,
        ops@.len() % 12 == 0,
    ensures
        ops@.len() == 0 ==> rows@.len() == 13 && forall|i: int|
            0 <= i < 13 ==> #[trigger] rows@[i] == 0,
        ops@.len() > 0 ==> rows@.len() == 13 * (ops@.len() / 12),
        forall|r: int|
            #![trigger rows@[13 * r]]
            0 <= r < ops@.len() / 12 ==> {
                let p = field.modulus as int;
                let reads = |index: u64|
                    {
                        let witness = (index as usize) as int / d as int;
                        (if witness < ext_reads@.len() {
                            ext_reads@[witness] as int
                        } else {
                            0
                        }) % p
                    };
                let op = |c: int| ops@[12 * r + c];
                let cell = |c: int| rows@[13 * r + c] as int;
                &&& cell(0) == p - 1
                &&& cell(1) == op(0) && cell(2) == op(1) && cell(3) == op(2) && cell(4) == op(3)
                &&& cell(5) == op(4) && cell(6) == op(5) && cell(7) == op(6) && cell(8) == op(7)
                &&& op(9) != 0 ==> cell(9) == reads(op(5))
                &&& op(9) == 0 ==> cell(9) == p - 1
                &&& op(11) != 0 ==> cell(10) == reads(op(7))
                &&& op(11) == 0 ==> cell(10) == p - 1
                &&& op(8) == 1 ==> cell(11) == 1
                &&& op(8) == 2 ==> 0 <= cell(11) < p && (cell(11) + reads(op(4))) % p == 0
                &&& op(8) != 1 && op(8) != 2 ==> cell(11) == 0
                &&& op(10) == 1 ==> cell(12) == 1
                &&& op(10) == 2 ==> 0 <= cell(12) < p && (cell(12) + reads(op(6))) % p == 0
                &&& op(10) != 1 && op(10) != 2 ==> cell(12) == 0
            },
{
    let p = field.modulus as int;
    lemma_alu_rows_len(field, ext_reads@, ops@, d);
    assert forall|r: int|
        #![trigger rows@[13 * r]]
        0 <= r < ops@.len() / 12 implies {
        let reads = |index: u64|
            {
                let witness = (index as usize) as int / d as int;
                (if witness < ext_reads@.len() {
                    ext_reads@[witness] as int
                } else {
                    0
                }) % p
            };
        let op = |c: int| ops@[12 * r + c];
        let cell = |c: int| rows@[13 * r + c] as int;
        &&& cell(0) == p - 1
        &&& cell(1) == op(0) && cell(2) == op(1) && cell(3) == op(2) && cell(4) == op(3)
        &&& cell(5) == op(4) && cell(6) == op(5) && cell(7) == op(6) && cell(8) == op(7)
        &&& op(9) != 0 ==> cell(9) == reads(op(5))
        &&& op(9) == 0 ==> cell(9) == p - 1
        &&& op(11) != 0 ==> cell(10) == reads(op(7))
        &&& op(11) == 0 ==> cell(10) == p - 1
        &&& op(8) == 1 ==> cell(11) == 1
        &&& op(8) == 2 ==> 0 <= cell(11) < p && (cell(11) + reads(op(4))) % p == 0
        &&& op(8) != 1 && op(8) != 2 ==> cell(11) == 0
        &&& op(10) == 1 ==> cell(12) == 1
        &&& op(10) == 2 ==> 0 <= cell(12) < p && (cell(12) + reads(op(6))) % p == 0
        &&& op(10) != 1 && op(10) != 2 ==> cell(12) == 0
    } by {
        assert forall|c: int| 0 <= c < 13 implies #[trigger] rows@[13 * r + c] == alu_row(
            field,
            ext_reads@,
            ops@.subrange(r * ALU_OP_WIDTH, r * ALU_OP_WIDTH + ALU_OP_WIDTH),
            d,
        )[c] by {
            law_alu_cells(field, ext_reads@, ops@, d, r, c);
        }
        assert(rows@[13 * r] == rows@[13 * r + 0]);
        let op = ops@.subrange(r * ALU_OP_WIDTH, r * ALU_OP_WIDTH + ALU_OP_WIDTH);
        assert forall|c: int| 0 <= c < 12 implies #[trigger] op[c] == ops@[12 * r + c] by {}
        lemma_mod_add_multiples_vanish(-1, p);
        lemma_small_mod((p - 1) as nat, p as nat);
        lemma_negation(field, reads_of(ext_reads@, op[4], d));
        lemma_negation(field, reads_of(ext_reads@, op[6], d));
        lemma_element_canonical(field, reads_of(ext_reads@, op[5], d));
        lemma_element_canonical(field, reads_of(ext_reads@, op[7], d));
    }
}

proof fn lemma_negation(field: FieldParams, n: u32)
    requires
        field.modulus > 1,
    ensures
        0 <= field.element(n) < field.modulus,
        field.element(n) == n as int % field.modulus as int,
        0 <= field.difference(0, field.element(n)) < field.modulus,
        (field.difference(0, field.element(n)) + field.element(n)) % (field.modulus as int) == 0,
{
    let p = field.modulus as int;
    let e = n as int % p;
    lemma_element_canonical(field, n);
    let m = (0 - e) % p;
    assert(field.difference(0, field.element(n)) == m);
    if e == 0 {
        lemma_small_mod(0, p as nat);
    } else {
        lemma_mod_add_multiples_vanish(0 - e, p);
        lemma_small_mod((p - e) as nat, p as nat);
        assert(m == p - e);
        lemma_mod_add_multiples_vanish(0, p);
        lemma_small_mod(0, p as nat);
    }
}

/// What [`to_public_rows`] gives: for each public input the reads of its witness, which is its index
/// divided by the degree, and the index.
pub proof fn law_public_rows_in_full(
    field: FieldParams,
    ext_reads: Vec<u32>,
    indices: Vec<u64>,
    d: usize,
    rows: Vec<u64>,
)
    requires
        call_ensures(to_public_rows, (&field, &ext_reads, &indices, d), rows),
        field.modulus > 1,
        d > 0,
    ensures
        rows@.len() == 2 * indices@.len(),
        forall|r: int|
            #![trigger rows@[2 * r]]
            #![trigger indices@[r]]
            0 <= r < indices@.len() ==> {
                let witness = (indices@[r] as usize) as int / d as int;
                &&& rows@[2 * r] as int == (if witness < ext_reads@.len() {
                    ext_reads@[witness] as int
                } else {
                    0
                }) % field.modulus as int
                &&& rows@[2 * r + 1] == indices@[r]
            },
{
    lemma_public_rows_len(field, ext_reads@, indices@, d);
    assert forall|r: int|
        #![trigger rows@[2 * r]]
        #![trigger indices@[r]]
        0 <= r < indices@.len() implies {
        let witness = (indices@[r] as usize) as int / d as int;
        &&& rows@[2 * r] as int == (if witness < ext_reads@.len() {
            ext_reads@[witness] as int
        } else {
            0
        }) % field.modulus as int
        &&& rows@[2 * r + 1] == indices@[r]
    } by {
        law_public_cells(field, ext_reads@, indices@, d, r);
        lemma_negation(field, reads_of(ext_reads@, indices@[r], d));
    }
}

/// What [`to_const_rows`] gives: for each constant that has an index and a value the reads of its
/// witness, which is its index divided by the degree, the index, and the `D` coefficients.
pub proof fn law_const_rows_in_full<const D: usize>(
    field: FieldParams,
    ext_reads: Vec<u32>,
    indices: Vec<u64>,
    values: Vec<[u64; D]>,
    rows: Vec<u64>,
)
    requires
        call_ensures(to_const_rows::<D>, (&field, &ext_reads, &indices, &values), rows),
        field.modulus > 1,
        D > 0,
    ensures
        indices@.len() <= values@.len() ==> rows@.len() == indices@.len() * (2 + D),
        values@.len() <= indices@.len() ==> rows@.len() == values@.len() * (2 + D),
        forall|r: int|
            #![trigger rows@[r * (2 + D)]]
            #![trigger indices@[r]]
            0 <= r < indices@.len() && r < values@.len() ==> {
                let witness = (indices@[r] as usize) as int / D as int;
                &&& rows@[r * (2 + D)] as int == (if witness < ext_reads@.len() {
                    ext_reads@[witness] as int
                } else {
                    0
                }) % field.modulus as int
                &&& rows@[r * (2 + D) + 1] == indices@[r]
                &&& forall|k: int|
                    0 <= k < D ==> rows@[r * (2 + D) + 2 + k] == #[trigger] values@[r]@[k]
            },
{
    lemma_const_rows_len(field, ext_reads@, indices@, values@);
    assert forall|r: int|
        #![trigger rows@[r * (2 + D)]]
        #![trigger indices@[r]]
        0 <= r < indices@.len() && r < values@.len() implies {
        let witness = (indices@[r] as usize) as int / D as int;
        &&& rows@[r * (2 + D)] as int == (if witness < ext_reads@.len() {
            ext_reads@[witness] as int
        } else {
            0
        }) % field.modulus as int
        &&& rows@[r * (2 + D) + 1] == indices@[r]
        &&& forall|k: int|
            0 <= k < D ==> rows@[r * (2 + D) + 2 + k] == #[trigger] values@[r]@[k]
    } by {
        law_const_cells(field, ext_reads@, indices@, values@, r, 0);
        lemma_negation(field, reads_of(ext_reads@, indices@[r], D));
        assert forall|k: int| 0 <= k < D implies rows@[r * (2 + D) + 2 + k]
            == #[trigger] values@[r]@[k] by {
            law_const_cells(field, ext_reads@, indices@, values@, r, k);
        }
    }
}

/// [`as_base`] gives the first coefficient exactly if all the others are zero.
pub proof fn law_base_values<const D: usize>(value: [u64; D], res: Option<u64>)
    requires
        call_ensures(as_base::<D>, (&value,), res),
        D > 0,
    ensures
        res is Some <==> forall|i: int| 0 < i < D ==> #[trigger] value@[i] == 0,
        res is Some ==> res->Some_0 == value@[0],
{
    assert(value@.len() == D);
}

/// [`read_count`] gives the reads of the witness at the index divided by the degree.
pub proof fn law_read_counts(ext_reads: Vec<u32>, index: u64, d: usize, res: u32)
    requires
        call_ensures(read_count, (&ext_reads, index, d), res),
        d > 0,
    ensures
        forall|w: int|
            0 <= w < ext_reads@.len() && w * d <= (index as usize) < w * d + d ==> res
                == #[trigger] ext_reads@[w],
        (index as usize) >= ext_reads@.len() * d ==> res == 0,
{
    let n = (index as usize) as int;
    assert forall|w: int| 0 <= w < ext_reads@.len() && w * d <= n < w * d + d implies res
        == #[trigger] ext_reads@[w] by {
        vstd::arithmetic::div_mod::lemma_fundamental_div_mod_converse(n, d as int, w, n - w * d);
    }
    if n >= ext_reads@.len() * d {
        let q = n / d as int;
        vstd::arithmetic::div_mod::lemma_fundamental_div_mod(n, d as int);
        assert(q >= ext_reads@.len()) by (nonlinear_arith)
            requires
                n == d as int * q + n % (d as int),
                n % (d as int) < d,
                n >= ext_reads@.len() * d,
                d > 0,
        ;
    }
}

/// [`FieldParams::from_u32`] and [`FieldParams::minus`] compute in the field: their results are
/// canonical, and congruent to the number and to the difference.
pub proof fn law_field_operations(field: FieldParams, n: u32, a: u64, b: u64, e: u64, m: u64)
    requires
        field.modulus > 1,
        call_ensures(FieldParams::from_u32, (&field, n), e),
        call_ensures(FieldParams::minus, (&field, a, b), m),
    ensures
        e < field.modulus,
        (n - e) % (field.modulus as int) == 0,
        m < field.modulus,
        (m + b - a) % (field.modulus as int) == 0,
{
    let p = field.modulus as int;
    vstd::arithmetic::div_mod::lemma_fundamental_div_mod(n as int, p);
    vstd::arithmetic::div_mod::lemma_fundamental_div_mod(a - b, p);
    let q = n as int / p;
    let k = (a - b) / p;
    assert(e == n as int % p && m == (a - b) % p);
    assert(n - e == p * q && m + b - a == p * (0 - k)) by (nonlinear_arith)
        requires
            n == p * q + e,
            a - b == p * k + m,
    ;
    lemma_mod_multiples_vanish(q, 0, p);
    lemma_mod_multiples_vanish(0 - k, 0, p);
    lemma_small_mod(0, p as nat);
}

/// Reads of the witness at a scaled index, in the field of order `p`: `reads` at the index divided by
/// the degree, and nothing outside.
pub open spec fn witness_reads(p: int, reads: Seq<u32>, index: u64, d: usize) -> int {
    let witness = (index as usize) as int / d as int;
    (if witness < reads.len() {
        reads[witness] as int
    } else {
        0
    }) % p
}

/// Whether `rows` are committed rows of the ALU operations `ops`.
pub open spec fn are_alu_rows(
    p: int,
    reads: Seq<u32>,
    ops: Seq<u64>,
    d: usize,
    rows: Seq<u64>,
) -> bool {
    &&& ops.len() == 0 ==> rows == Seq::new(13, |i: int| 0u64)
    &&& ops.len() > 0 ==> rows.len() == 13 * (ops.len() / 12)
    &&& forall|r: int|
        #![trigger rows[13 * r]]
        0 <= r < ops.len() / 12 ==> {
            let op = |c: int| ops[12 * r + c];
            let cell = |c: int| rows[13 * r + c] as int;
            &&& cell(0) == p - 1
            &&& cell(1) == op(0) && cell(2) == op(1) && cell(3) == op(2) && cell(4) == op(3)
            &&& cell(5) == op(4) && cell(6) == op(5) && cell(7) == op(6) && cell(8) == op(7)
            &&& op(9) != 0 ==> cell(9) == witness_reads(p, reads, op(5), d)
            &&& op(9) == 0 ==> cell(9) == p - 1
            &&& op(11) != 0 ==> cell(10) == witness_reads(p, reads, op(7), d)
            &&& op(11) == 0 ==> cell(10) == p - 1
            &&& op(8) == 1 ==> cell(11) == 1
            &&& op(8) == 2 ==> 0 <= cell(11) < p && (cell(11) + witness_reads(p, reads, op(4), d))
                % p == 0
            &&& op(8) != 1 && op(8) != 2 ==> cell(11) == 0
            &&& op(10) == 1 ==> cell(12) == 1
            &&& op(10) == 2 ==> 0 <= cell(12) < p && (cell(12) + witness_reads(p, reads, op(6), d))
                % p == 0
            &&& op(10) != 1 && op(10) != 2 ==> cell(12) == 0
        }
}

/// Whether `rows` are committed rows of the public inputs at `indices`.
pub open spec fn are_public_rows(
    p: int,
    reads: Seq<u32>,
    indices: Seq<u64>,
    d: usize,
    rows: Seq<u64>,
) -> bool {
    &&& rows.len() == 2 * indices.len()
    &&& forall|r: int|
        #![trigger rows[2 * r]]
        0 <= r < indices.len() ==> rows[2 * r] == witness_reads(p, reads, indices[r], d) && rows[2
            * r + 1] == indices[r]
}

/// Whether `rows` are committed rows of the constants that have an index and a value.
pub open spec fn are_const_rows<const D: usize>(
    p: int,
    reads: Seq<u32>,
    indices: Seq<u64>,
    values: Seq<[u64; D]>,
    rows: Seq<u64>,
) -> bool {
    &&& indices.len() <= values.len() ==> rows.len() == indices.len() * (2 + D)
    &&& values.len() <= indices.len() ==> rows.len() == values.len() * (2 + D)
    &&& forall|r: int|
        #![trigger indices[r]]
        0 <= r < indices.len() && r < values.len() ==> {
            &&& rows[r * (2 + D)] == witness_reads(p, reads, indices[r], D)
            &&& rows[r * (2 + D) + 1] == indices[r]
            &&& forall|k: int|
                0 <= k < D ==> rows[r * (2 + D) + 2 + k] == #[trigger] values[r]@[k]
        }
}

/// The ALU rows are those of the operations.
pub proof fn lemma_are_alu_rows(field: FieldParams, reads: Seq<u32>, ops: Seq<u64>, d: usize)
    requires
        field.modulus > 1,
        d > 0,
        ops.len() % 12 == 0,
    ensures
        are_alu_rows(field.modulus as int, reads, ops, d, alu_rows(field, reads, ops, d)),
{
    let p = field.modulus as int;
    let rows = alu_rows(field, reads, ops, d);
    lemma_alu_rows_len(field, reads, ops, d);
    assert forall|r: int|
        #![trigger rows[13 * r]]
        0 <= r < ops.len() / 12 implies {
        let op = |c: int| ops[12 * r + c];
        let cell = |c: int| rows[13 * r + c] as int;
        &&& cell(0) == p - 1
        &&& cell(1) == op(0) && cell(2) == op(1) && cell(3) == op(2) && cell(4) == op(3)
        &&& cell(5) == op(4) && cell(6) == op(5) && cell(7) == op(6) && cell(8) == op(7)
        &&& op(9) != 0 ==> cell(9) == witness_reads(p, reads, op(5), d)
        &&& op(9) == 0 ==> cell(9) == p - 1
        &&& op(11) != 0 ==> cell(10) == witness_reads(p, reads, op(7), d)
        &&& op(11) == 0 ==> cell(10) == p - 1
        &&& op(8) == 1 ==> cell(11) == 1
        &&& op(8) == 2 ==> 0 <= cell(11) < p && (cell(11) + witness_reads(p, reads, op(4), d)) % p
            == 0
        &&& op(8) != 1 && op(8) != 2 ==> cell(11) == 0
        &&& op(10) == 1 ==> cell(12) == 1
        &&& op(10) == 2 ==> 0 <= cell(12) < p && (cell(12) + witness_reads(p, reads, op(6), d)) % p
            == 0
        &&& op(10) != 1 && op(10) != 2 ==> cell(12) == 0
    } by {
        assert forall|c: int| 0 <= c < 13 implies #[trigger] rows[13 * r + c] == alu_row(
            field,
            reads,
            ops.subrange(r * ALU_OP_WIDTH, r * ALU_OP_WIDTH + ALU_OP_WIDTH),
            d,
        )[c] by {
            law_alu_cells(field, reads, ops, d, r, c);
        }
        assert(rows[13 * r] == rows[13 * r + 0]);
        let op = ops.subrange(r * ALU_OP_WIDTH, r * ALU_OP_WIDTH + ALU_OP_WIDTH);
        assert forall|c: int| 0 <= c < 12 implies #[trigger] op[c] == ops[12 * r + c] by {}
        lemma_mod_add_multiples_vanish(-1, p);
        lemma_small_mod((p - 1) as nat, p as nat);
        lemma_negation(field, reads_of(reads, op[4], d));
        lemma_negation(field, reads_of(reads, op[6], d));
        lemma_negation(field, reads_of(reads, op[5], d));
        lemma_negation(field, reads_of(reads, op[7], d));
    }
}

/// The Public rows are those of the public inputs.
pub proof fn lemma_are_public_rows(
    field: FieldParams,
    reads: Seq<u32>,
    indices: Seq<u64>,
    d: usize,
)
    requires
        field.modulus > 1,
        d > 0,
    ensures
        are_public_rows(field.modulus as int, reads, indices, d, public_rows(field, reads, indices, d)),
{
    let rows = public_rows(field, reads, indices, d);
    lemma_public_rows_len(field, reads, indices, d);
    assert forall|r: int|
        #![trigger rows[2 * r]]
        0 <= r < indices.len() implies rows[2 * r] == witness_reads(
        field.modulus as int,
        reads,
        indices[r],
        d,
    ) && rows[2 * r + 1] == indices[r] by {
        law_public_cells(field, reads, indices, d, r);
        lemma_negation(field, reads_of(reads, indices[r], d));
    }
}

/// The Const rows are those of the constants.
pub proof fn lemma_are_const_rows<const D: usize>(
    field: FieldParams,
    reads: Seq<u32>,
    indices: Seq<u64>,
    values: Seq<[u64; D]>,
)
    requires
        field.modulus > 1,
        D > 0,
    ensures
        are_const_rows(
            field.modulus as int,
            reads,
            indices,
            values,
            const_rows(field, reads, indices, values),
        ),
{
    let rows = const_rows(field, reads, indices, values);
    lemma_const_rows_len(field, reads, indices, values);
    assert forall|r: int|
        #![trigger indices[r]]
        0 <= r < indices.len() && r < values.len() implies {
        &&& rows[r * (2 + D)] == witness_reads(field.modulus as int, reads, indices[r], D)
        &&& rows[r * (2 + D) + 1] == indices[r]
        &&& forall|k: int| 0 <= k < D ==> rows[r * (2 + D) + 2 + k] == #[trigger] values[r]@[k]
    } by {
        law_const_cells(field, reads, indices, values, r, 0);
        lemma_negation(field, reads_of(reads, indices[r], D));
        assert forall|k: int| 0 <= k < D implies rows[r * (2 + D) + 2 + k]
            == #[trigger] values[r]@[k] by {
            law_const_cells(field, reads, indices, values, r, k);
        }
    }
}

} // verus!
