//! Rows of the primitive tables, from the circuit's preprocessed columns.
use crate::field::FieldParams;
use vstd::prelude::*;

verus! {

/// Values that the circuit gives per ALU operation: four selectors, the indices of `a`, `b`, `c`
/// and `out`, and for each of the four how the operation uses it.
pub const ALU_OP_WIDTH: usize = 12;

/// Columns of an ALU row.
pub const ALU_ROW_WIDTH: usize = 13;

/// The rows one after the other.
pub open spec fn concat_rows(n: nat, row: spec_fn(int) -> Seq<u64>) -> Seq<u64>
    decreases n,
{
    if n == 0 {
        Seq::empty()
    } else {
        concat_rows((n - 1) as nat, row) + row(n - 1)
    }
}

/// `n` rows of `w` columns are `n * w` values.
pub proof fn lemma_concat_rows_len(n: nat, row: spec_fn(int) -> Seq<u64>, w: nat)
    requires
        forall|r: int| 0 <= r < n ==> (#[trigger] row(r)).len() == w,
    ensures
        concat_rows(n, row).len() == n * w,
    decreases n,
{
    if n > 0 {
        let m = (n - 1) as nat;
        lemma_concat_rows_len(m, row, w);
        assert(n * w == m * w + w) by (nonlinear_arith)
            requires
                n == m + 1,
        ;
    } else {
        assert(n * w == 0) by (nonlinear_arith)
            requires
                n == 0,
        ;
    }
}

/// Row `r` of `n` rows of `w` columns holds the values from `r * w` on.
pub proof fn lemma_concat_rows_cell(n: nat, row: spec_fn(int) -> Seq<u64>, w: nat, r: int, c: int)
    requires
        forall|i: int| 0 <= i < n ==> (#[trigger] row(i)).len() == w,
        0 <= r < n,
        0 <= c < w,
    ensures
        0 <= r * w + c < concat_rows(n, row).len(),
        concat_rows(n, row)[r * w + c] == row(r)[c],
    decreases n,
{
    let m = (n - 1) as nat;
    lemma_concat_rows_len(m, row, w);
    lemma_concat_rows_len(n, row, w);
    assert(0 <= r * w && r * w + w <= n * w && n * w == m * w + w) by (nonlinear_arith)
        requires
            0 <= r,
            r + 1 <= n,
            n == m + 1,
            0 <= w,
    ;
    if r < m {
        assert(r * w + w <= m * w) by (nonlinear_arith)
            requires
                r + 1 <= m,
                0 <= w,
        ;
        lemma_concat_rows_cell(m, row, w, r, c);
    }
}

/// How often the witness at the scaled index `index` is read.
pub open spec fn reads_of(ext_reads: Seq<u32>, index: u64, d: usize) -> u32 {
    let witness = (index as usize) as int / d as int;
    if witness < ext_reads.len() {
        ext_reads[witness]
    } else {
        0
    }
}

/// Multiplicity with which an operation that creates a value sends it: once per read; an
/// operation that reads the value has multiplicity -1.
pub open spec fn creator_multiplicity(
    field: FieldParams,
    ext_reads: Seq<u32>,
    is_creator: u64,
    index: u64,
    d: usize,
) -> u64 {
    if is_creator != 0 {
        field.element(reads_of(ext_reads, index, d))
    } else {
        field.difference(0, 1)
    }
}

/// Reader column of an operand: 1 for a reader, minus the number of reads for the operation that
/// creates a private value, and 0 for an operand that is skipped.
pub open spec fn reader_column(
    field: FieldParams,
    ext_reads: Seq<u32>,
    state: u64,
    index: u64,
    d: usize,
) -> u64 {
    if state == 1 {
        1
    } else if state == 2 {
        field.difference(0, field.element(reads_of(ext_reads, index, d)))
    } else {
        0
    }
}

/// The ALU row of an operation.
pub open spec fn alu_row(
    field: FieldParams,
    ext_reads: Seq<u32>,
    op: Seq<u64>,
    d: usize,
) -> Seq<u64> {
    seq![
        field.difference(0, 1),
        op[0],
        op[1],
        op[2],
        op[3],
        op[4],
        op[5],
        op[6],
        op[7],
        creator_multiplicity(field, ext_reads, op[9], op[5], d),
        creator_multiplicity(field, ext_reads, op[11], op[7], d),
        reader_column(field, ext_reads, op[8], op[4], d),
        reader_column(field, ext_reads, op[10], op[6], d),
    ]
}

/// The ALU rows: one per operation, or a single row of zeros if there is no operation.
pub open spec fn alu_rows(
    field: FieldParams,
    ext_reads: Seq<u32>,
    ops: Seq<u64>,
    d: usize,
) -> Seq<u64> {
    if ops.len() == 0 {
        Seq::new(ALU_ROW_WIDTH as nat, |i: int| 0u64)
    } else {
        concat_rows(
            ops.len() / ALU_OP_WIDTH as nat,
            |r: int|
                alu_row(
                    field,
                    ext_reads,
                    ops.subrange(r * ALU_OP_WIDTH, r * ALU_OP_WIDTH + ALU_OP_WIDTH),
                    d,
                ),
        )
    }
}

/// The Public rows: multiplicity and index of each public input.
pub open spec fn public_rows(
    field: FieldParams,
    ext_reads: Seq<u32>,
    indices: Seq<u64>,
    d: usize,
) -> Seq<u64> {
    concat_rows(
        indices.len(),
        |r: int| seq![field.element(reads_of(ext_reads, indices[r], d)), indices[r]],
    )
}

/// The Const rows: multiplicity, index and coefficients of each constant. An index without a
/// constant, or a constant without an index, gives no row.
pub open spec fn const_rows<const D: usize>(
    field: FieldParams,
    ext_reads: Seq<u32>,
    indices: Seq<u64>,
    values: Seq<[u64; D]>,
) -> Seq<u64> {
    concat_rows(
        const_count(indices.len(), values.len()),
        |r: int|
            seq![field.element(reads_of(ext_reads, indices[r], D)), indices[r]] + values[r]@,
    )
}

/// How many constants have both an index and a value.
pub open spec fn const_count(indices: nat, values: nat) -> nat {
    if indices <= values {
        indices
    } else {
        values
    }
}

/// The ALU rows hold one row per operation, or a single one if there is no operation.
pub proof fn lemma_alu_rows_len(
    field: FieldParams,
    ext_reads: Seq<u32>,
    ops: Seq<u64>,
    d: usize,
)
    ensures
        alu_rows(field, ext_reads, ops, d).len() == (if ops.len() == 0 {
            1
        } else {
            ops.len() / ALU_OP_WIDTH as nat
        }) * ALU_ROW_WIDTH,
{
    if ops.len() > 0 {
        let row = |r: int|
            alu_row(
                field,
                ext_reads,
                ops.subrange(r * ALU_OP_WIDTH, r * ALU_OP_WIDTH + ALU_OP_WIDTH),
                d,
            );
        lemma_concat_rows_len(ops.len() / ALU_OP_WIDTH as nat, row, ALU_ROW_WIDTH as nat);
    }
}

/// The Public rows hold two values per public input.
pub proof fn lemma_public_rows_len(
    field: FieldParams,
    ext_reads: Seq<u32>,
    indices: Seq<u64>,
    d: usize,
)
    ensures
        public_rows(field, ext_reads, indices, d).len() == indices.len() * 2,
{
    let row = |r: int| seq![field.element(reads_of(ext_reads, indices[r], d)), indices[r]];
    lemma_concat_rows_len(indices.len(), row, 2);
}

/// The Const rows hold two values and the coefficients of each constant.
pub proof fn lemma_const_rows_len<const D: usize>(
    field: FieldParams,
    ext_reads: Seq<u32>,
    indices: Seq<u64>,
    values: Seq<[u64; D]>,
)
    ensures
        const_rows(field, ext_reads, indices, values).len() == const_count(
            indices.len(),
            values.len(),
        ) * (2 + D),
{
    let row = |r: int|
        seq![field.element(reads_of(ext_reads, indices[r], D)), indices[r]] + values[r]@;
    lemma_concat_rows_len(const_count(indices.len(), values.len()), row, (2 + D) as nat);
}

/// The base-field value of an extension element, if its other coefficients are zero.
pub open spec fn base_value(coefficients: Seq<u64>) -> Option<u64> {
    if forall|i: int| 1 <= i < coefficients.len() ==> coefficients[i] == 0 {
        Some(coefficients[0])
    } else {
        None
    }
}

/// The base-field value of an extension element, if its other coefficients are zero.
pub fn as_base<const D: usize>(value: &[u64; D]) -> (res: Option<u64>)
    requires
        D > 0,
    ensures
        res == base_value(value@),
{
    let mut i: usize = 1;
    while i < D
        invariant
            1 <= i,
            i <= D,
            forall|j: int| 1 <= j < i ==> value@[j] == 0,
        decreases D - i,
    {
        if value[i] != 0 {
            assert(value@[i as int] != 0);
            return None;
        }
        i += 1;
    }
    Some(value[0])
}

/// How often the witness at the scaled index `index` is read.
pub fn read_count(ext_reads: &Vec<u32>, index: u64, d: usize) -> (res: u32)
    requires
        d > 0,
    ensures
        res == reads_of(ext_reads@, index, d),
{
    let witness: usize = index as usize / d;
    if witness < ext_reads.len() {
        ext_reads[witness]
    } else {
        0
    }
}

fn multiplicity_column(
    field: &FieldParams,
    ext_reads: &Vec<u32>,
    is_creator: u64,
    index: u64,
    d: usize,
) -> (res: u64)
    requires
        field.well_formed(),
        d > 0,
    ensures
        res == creator_multiplicity(*field, ext_reads@, is_creator, index, d),
{
    if is_creator != 0 {
        field.from_u32(read_count(ext_reads, index, d))
    } else {
        field.minus(0, 1)
    }
}

fn operand_column(
    field: &FieldParams,
    ext_reads: &Vec<u32>,
    state: u64,
    index: u64,
    d: usize,
) -> (res: u64)
    requires
        field.well_formed(),
        d > 0,
    ensures
        res == reader_column(*field, ext_reads@, state, index, d),
{
    match state {
        0 => 0,
        1 => 1,
        2 => field.minus(0, field.from_u32(read_count(ext_reads, index, d))),
        _ => 0,
    }
}

/// The ALU rows of the circuit's ALU column.
pub fn to_alu_rows(
    field: &FieldParams,
    ext_reads: &Vec<u32>,
    ops: &Vec<u64>,
    d: usize,
) -> (res: Vec<u64>)
    requires
        field.well_formed(),
        d > 0,
        ops@.len() % ALU_OP_WIDTH as nat == 0,
    ensures
        res@ == alu_rows(*field, ext_reads@, ops@, d),
        ops@.len() > 0 ==> res@.len() == ops@.len() / ALU_OP_WIDTH as nat * ALU_ROW_WIDTH,
        ops@.len() == 0 ==> res@.len() == ALU_ROW_WIDTH,
{
    let mut rows: Vec<u64> = Vec::new();
    if ops.len() == 0 {
        let mut k: usize = 0;
        while k < ALU_ROW_WIDTH
            invariant
                k <= ALU_ROW_WIDTH,
                rows@ == Seq::new(k as nat, |i: int| 0u64),
            decreases ALU_ROW_WIDTH - k,
        {
            rows.push(0);
            k += 1;
        }
        return rows;
    }
    let n: usize = ops.len() / ALU_OP_WIDTH;
    let neg_one: u64 = field.minus(0, 1);
    let ghost row = |r: int|
        alu_row(
            *field,
            ext_reads@,
            ops@.subrange(r * ALU_OP_WIDTH, r * ALU_OP_WIDTH + ALU_OP_WIDTH),
            d,
        );
    let mut i: usize = 0;
    while i < n
        invariant
            i <= n,
            n * ALU_OP_WIDTH == ops.len(),
            field.well_formed(),
            d > 0,
            neg_one == field.difference(0, 1),
            rows@ == concat_rows(i as nat, row),
            row == (|r: int|
                alu_row(
                    *field,
                    ext_reads@,
                    ops@.subrange(r * ALU_OP_WIDTH, r * ALU_OP_WIDTH + ALU_OP_WIDTH),
                    d,
                )),
        decreases n - i,
    {
        assert(i * ALU_OP_WIDTH + ALU_OP_WIDTH <= n * ALU_OP_WIDTH) by (nonlinear_arith)
            requires
                i + 1 <= n,
        ;
        let at: usize = i * ALU_OP_WIDTH;
        let a_idx: u64 = ops[at + 4];
        let b_idx: u64 = ops[at + 5];
        let c_idx: u64 = ops[at + 6];
        let out_idx: u64 = ops[at + 7];
        let ghost before = rows@;
        rows.push(neg_one);
        rows.push(ops[at]);
        rows.push(ops[at + 1]);
        rows.push(ops[at + 2]);
        rows.push(ops[at + 3]);
        rows.push(a_idx);
        rows.push(b_idx);
        rows.push(c_idx);
        rows.push(out_idx);
        rows.push(multiplicity_column(field, ext_reads, ops[at + 9], b_idx, d));
        rows.push(multiplicity_column(field, ext_reads, ops[at + 11], out_idx, d));
        rows.push(operand_column(field, ext_reads, ops[at + 8], a_idx, d));
        rows.push(operand_column(field, ext_reads, ops[at + 10], c_idx, d));
        assert(rows@ =~= before + row(i as int));
        i += 1;
    }
    proof {
        lemma_concat_rows_len(n as nat, row, ALU_ROW_WIDTH as nat);
    }
    rows
}

/// The Public rows of the circuit's Public column.
pub fn to_public_rows(
    field: &FieldParams,
    ext_reads: &Vec<u32>,
    indices: &Vec<u64>,
    d: usize,
) -> (res: Vec<u64>)
    requires
        field.well_formed(),
        d > 0,
    ensures
        res@ == public_rows(*field, ext_reads@, indices@, d),
        res@.len() == indices@.len() * 2,
{
    let ghost row = |r: int|
        seq![field.element(reads_of(ext_reads@, indices@[r], d)), indices@[r]];
    let mut rows: Vec<u64> = Vec::new();
    let mut i: usize = 0;
    while i < indices.len()
        invariant
            i <= indices.len(),
            field.well_formed(),
            d > 0,
            rows@ == concat_rows(i as nat, row),
            row == (|r: int|
                seq![field.element(reads_of(ext_reads@, indices@[r], d)), indices@[r]]),
        decreases indices.len() - i,
    {
        let out_idx: u64 = indices[i];
        let ghost before = rows@;
        rows.push(field.from_u32(read_count(ext_reads, out_idx, d)));
        rows.push(out_idx);
        assert(rows@ =~= before + row(i as int));
        i += 1;
    }
    proof {
        lemma_concat_rows_len(i as nat, row, 2);
    }
    rows
}

/// The Const rows of the circuit's Const column and the constants' values.
pub fn to_const_rows<const D: usize>(
    field: &FieldParams,
    ext_reads: &Vec<u32>,
    indices: &Vec<u64>,
    values: &Vec<[u64; D]>,
) -> (res: Vec<u64>)
    requires
        field.well_formed(),
        D > 0,
    ensures
        res@ == const_rows(*field, ext_reads@, indices@, values@),
        res@.len() == const_count(indices@.len(), values@.len()) * (2 + D),
{
    let ghost row = |r: int|
        seq![field.element(reads_of(ext_reads@, indices@[r], D)), indices@[r]] + values@[r]@;
    let mut rows: Vec<u64> = Vec::new();
    let mut i: usize = 0;
    while i < indices.len() && i < values.len()
        invariant
            i <= indices.len(),
            i <= values.len(),
            field.well_formed(),
            D > 0,
            rows@ == concat_rows(i as nat, row),
            row == (|r: int|
                seq![field.element(reads_of(ext_reads@, indices@[r], D)), indices@[r]]
                    + values@[r]@),
        decreases indices.len() - i,
    {
        let out_idx: u64 = indices[i];
        let ghost before = rows@;
        rows.push(field.from_u32(read_count(ext_reads, out_idx, D)));
        rows.push(out_idx);
        let mut k: usize = 0;
        while k < D
            invariant
                i < values.len(),
                k <= D,
                rows@ == before + seq![
                    field.element(reads_of(ext_reads@, out_idx, D)),
                    out_idx,
                ] + values@[i as int]@.take(k as int),
            decreases D - k,
        {
            rows.push(values[i][k]);
            assert(values@[i as int]@.take(k + 1) =~= values@[i as int]@.take(k as int).push(
                values@[i as int]@[k as int],
            ));
            k += 1;
        }
        assert(values@[i as int]@.take(k as int) =~= values@[i as int]@);
        assert(rows@ =~= before + row(i as int));
        i += 1;
    }
    proof {
        lemma_concat_rows_len(i as nat, row, (2 + D) as nat);
    }
    rows
}

} // verus!
