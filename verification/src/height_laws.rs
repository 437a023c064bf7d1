//! What heights, lanes and packings amount to.
use crate::air::CircuitTableAir;
use crate::common::{
    alu_table_lanes, compute_degree, public_table_lanes, reduce_lanes_if_dummy,
};
use crate::error::{CircuitError, ProofMetadataError};
use crate::field::AluExtMulKind;
use crate::heights::{
    ceil_div, ceil_log2, div_ceil, lemma_ceil_div, lemma_ceil_log2, lemma_max_height,
    lemma_padded_of_pow2, lemma_pow2_ordered, log2_ceil,
    max_height, next_power_of_two, padded, power_of_two,
};
use crate::ops::NpoTypeId;
use crate::packing::{
    height_allowed, is_fault_of, named_height, or_floor, setting_of, TablePacking,
};
use vstd::arithmetic::power2::pow2;
use vstd::prelude::*;

verus! {

/// Whether `2^k` is the least power of two that is at least `n`.
pub open spec fn least_power(n: nat, k: nat) -> bool {
    n <= pow2(k) && (k > 0 ==> pow2((k - 1) as nat) < n)
}

/// Whether `2^k` is the least power of two that is at least `n` and at least `m`.
pub open spec fn least_power_of_both(n: nat, m: nat, k: nat) -> bool {
    &&& n <= pow2(k)
    &&& m <= pow2(k)
    &&& k > 0 ==> pow2((k - 1) as nat) < n || pow2((k - 1) as nat) < m
}

/// [`log2_ceil`], [`power_of_two`] and [`next_power_of_two`] give the exponent of the least power of
/// two that reaches a number, a power of two, and that least power itself.
pub proof fn law_powers_of_two(n: usize, log: usize, exp: usize, power: usize, next: usize)
    requires
        call_ensures(log2_ceil, (n,), log),
        exp < usize::BITS,
        call_ensures(power_of_two, (exp,), power),
        n <= usize::MAX / 2 + 1,
        call_ensures(next_power_of_two, (n,), next),
    ensures
        least_power(n as nat, log as nat),
        power == pow2(exp as nat),
        next == pow2(log as nat),
        n <= next,
        forall|k: nat| n <= #[trigger] pow2(k) ==> next <= pow2(k),
{
    lemma_max_height();
    lemma_ceil_log2(n as nat);
    assert forall|k: nat| n <= #[trigger] pow2(k) implies next <= pow2(k) by {
        if k < log {
            lemma_pow2_ordered(k, (log - 1) as nat);
        }
        lemma_pow2_ordered(log as nat, k);
    }
}

/// [`div_ceil`] gives the least number of rows of `d` lanes that hold `n` operations.
pub proof fn law_rows_hold_operations(n: usize, d: usize, rows: usize)
    requires
        d > 0,
        call_ensures(div_ceil, (n, d), rows),
    ensures
        rows * d >= n,
        rows > 0 ==> (rows - 1) * d < n,
{
    lemma_ceil_div_bounds(n as nat, d as nat);
}

/// Rounding a quotient up: as many rows as hold the operations, and no more.
pub proof fn lemma_ceil_div_bounds(n: nat, d: nat)
    requires
        d > 0,
    ensures
        ceil_div(n, d) * d >= n,
        ceil_div(n, d) > 0 ==> (ceil_div(n, d) - 1) * d < n,
{
    lemma_ceil_div(n, d);
    let q = n as int / d as int;
    let r = n as int % d as int;
    vstd::arithmetic::div_mod::lemma_fundamental_div_mod(n as int, d as int);
    assert(q * d == d * q) by (nonlinear_arith);
    assert((q + 1) * d == q * d + d && (q - 1) * d == q * d - d) by (nonlinear_arith);
}

/// The degree that [`compute_degree`] gives is that of the least power of two that reaches the
/// table's rows and its own height, or else the floor. Under strict heights, and only then, a table
/// whose rows need more than that height is refused, with its name and the two powers of two.
pub proof fn law_degrees(
    packing: TablePacking,
    num_rows: usize,
    table_override: Option<usize>,
    table_name: &str,
    res: Result<usize, CircuitError>,
)
    requires
        call_ensures(compute_degree, (&packing, num_rows, table_override, table_name), res),
        num_rows <= usize::MAX / 2 + 1,
        packing.min_trace_height <= usize::MAX / 2 + 1,
        table_override matches Some(h) ==> h <= usize::MAX / 2 + 1,
    ensures
        ({
            let min: nat = match table_override {
                Some(h) => h as nat,
                None => packing.min_trace_height as nat,
            };
            match res {
                Ok(degree) => {
                    &&& least_power_of_both(num_rows as nat, min, degree as nat)
                    &&& packing.strict ==> least_power(min, degree as nat)
                },
                Err(e) => {
                    &&& packing.strict
                    &&& e matches CircuitError::ProfileOverflow { table, needed, allowed }
                    &&& table@ == table_name@
                    &&& allowed < needed
                    &&& exists|k: nat, m: nat|
                        needed == #[trigger] pow2(k) && allowed == #[trigger] pow2(m)
                            && least_power(num_rows as nat, k) && least_power(min, m)
                },
            }
        }),
{
    lemma_max_height();
    let min: nat = or_floor(table_override, packing.min_trace_height) as nat;
    lemma_table_degree(num_rows as nat, min);
    lemma_ceil_log2(num_rows as nat);
    lemma_ceil_log2(min);
    lemma_pow2_ordered(ceil_log2(min), ceil_log2(num_rows as nat));
    if res is Err {
        let k = ceil_log2(num_rows as nat);
        let m = ceil_log2(min);
        assert(padded(num_rows as nat) == pow2(k) && padded(min) == pow2(m));
    }
}

/// The degree of a table is that of the least power of two that reaches its rows and its height.
pub proof fn lemma_table_degree(rows: nat, min: nat)
    ensures
        least_power_of_both(rows, min, crate::common::table_degree(rows, min)),
        padded(rows) <= padded(min) ==> least_power(min, crate::common::table_degree(rows, min)),
{
    lemma_ceil_log2(rows);
    lemma_ceil_log2(min);
    lemma_pow2_ordered(ceil_log2(min), ceil_log2(rows));
    lemma_pow2_ordered(ceil_log2(rows), ceil_log2(min));
}

/// A table keeps its configured lanes, unless it holds only dummy data and would have several: a
/// Public table of at most one input, and an ALU table without operations, have one lane then.
pub proof fn law_lanes_of_dummy_tables(
    packing: TablePacking,
    table: &str,
    only_dummy: bool,
    configured: usize,
    inputs: usize,
    column: usize,
    lanes: usize,
    public: usize,
    alu: usize,
)
    requires
        call_ensures(reduce_lanes_if_dummy, (table, only_dummy, configured), lanes),
        call_ensures(public_table_lanes, (&packing, inputs), public),
        call_ensures(alu_table_lanes, (&packing, column), alu),
    ensures
        only_dummy && configured > 1 ==> lanes == 1,
        !only_dummy || configured <= 1 ==> lanes == configured,
        inputs <= 1 && packing.public_lanes > 1 ==> public == 1,
        inputs > 1 || packing.public_lanes <= 1 ==> public == packing.public_lanes,
        column == 0 && packing.alu_lanes > 1 ==> alu == 1,
        column > 0 || packing.alu_lanes <= 1 ==> alu == packing.alu_lanes,
{
}

/// Whether a height is a power of two.
pub open spec fn is_power(height: usize) -> bool {
    exists|k: nat| height == #[trigger] pow2(k)
}

/// Whether a per-table height is not a power of two or lies below the floor.
pub open spec fn faulty(height: usize, floor: usize) -> bool {
    !is_power(height) || height < floor
}

/// Whether `e` reports the faulty height of a table: that it is not a power of two, or else that it
/// lies below the floor.
pub open spec fn reports(
    e: ProofMetadataError,
    table: Seq<char>,
    height: usize,
    floor: usize,
) -> bool {
    match e {
        ProofMetadataError::MinHeightNotPowerOfTwo { table: t, height: h } => t@ == table && h
            == height && !is_power(height),
        ProofMetadataError::MinHeightBelowFloor { table: t, height: h, floor: f } => t@ == table
            && h == height && f == floor && is_power(height) && height < floor,
        ProofMetadataError::ProfileOverflow { .. } => false,
    }
}

/// A height is allowed exactly if it is not faulty, and the fault of a height is what reports it.
pub proof fn lemma_heights_and_faults(named: (Seq<char>, usize), floor: usize, e: ProofMetadataError)
    ensures
        height_allowed(named.1, floor) <==> !faulty(named.1, floor),
        faulty(named.1, floor) && is_fault_of(named, floor, e) ==> reports(
            e,
            named.0,
            named.1,
            floor,
        ),
{
    let h = named.1;
    lemma_max_height();
    if is_power(h) {
        let k = choose|k: nat| h == #[trigger] pow2(k);
        lemma_padded_of_pow2(k);
        vstd::arithmetic::power2::lemma_pow2_pos(k);
        if k >= usize::BITS {
            lemma_pow2_ordered(usize::BITS as nat, k);
            vstd::arithmetic::power2::lemma2_to64();
            vstd::arithmetic::power2::lemma_pow2_unfold(usize::BITS as nat);
        }
        lemma_pow2_ordered(k, (usize::BITS - 1) as nat);
    }
    if h > 0 && h <= max_height() && padded(h as nat) == h {
        assert(h == pow2(ceil_log2(h as nat)));
    }
}

/// [`TablePacking::validate`] accepts a packing exactly if no height that it sets is faulty, and
/// reports the first faulty one otherwise: that of Const, of Public, of ALU, or the first of the
/// plug-in tables.
pub proof fn law_validation(packing: TablePacking, res: Result<(), ProofMetadataError>)
    requires
        call_ensures(TablePacking::validate, (&packing,), res),
    ensures
        ({
            let floor = packing.min_trace_height;
            let bad = |h: Option<usize>| h is Some && faulty(h->Some_0, floor);
            let npo = packing.npo_min_heights@;
            &&& res is Ok <==> !bad(packing.const_min_height) && !bad(packing.public_min_height)
                && !bad(packing.alu_min_height) && forall|i: int|
                0 <= i < npo.len() ==> !faulty((#[trigger] npo[i]).1, floor)
            &&& res matches Err(e) ==> {
                if bad(packing.const_min_height) {
                    reports(e, "CONST"@, packing.const_min_height->Some_0, floor)
                } else if bad(packing.public_min_height) {
                    reports(e, "PUBLIC"@, packing.public_min_height->Some_0, floor)
                } else if bad(packing.alu_min_height) {
                    reports(e, "ALU"@, packing.alu_min_height->Some_0, floor)
                } else {
                    exists|i: int|
                        {
                            &&& 0 <= i < npo.len()
                            &&& forall|j: int|
                                0 <= j < i ==> !faulty((#[trigger] npo[j]).1, floor)
                            &&& reports(e, (#[trigger] npo[i]).0@, npo[i].1, floor)
                        }
                }
            }
        }),
{
    lemma_valid_packing(packing);
    if let Err(e) = res {
        lemma_first_fault(packing, e);
    }
}

/// Whether `e` reports the first faulty height that a packing sets: that of Const, of Public, of ALU,
/// or the first of the plug-in tables.
pub open spec fn reports_first_fault(packing: TablePacking, e: ProofMetadataError) -> bool {
    let floor = packing.min_trace_height;
    let bad = |h: Option<usize>| h is Some && faulty(h->Some_0, floor);
    let npo = packing.npo_min_heights@;
    if bad(packing.const_min_height) {
        reports(e, "CONST"@, packing.const_min_height->Some_0, floor)
    } else if bad(packing.public_min_height) {
        reports(e, "PUBLIC"@, packing.public_min_height->Some_0, floor)
    } else if bad(packing.alu_min_height) {
        reports(e, "ALU"@, packing.alu_min_height->Some_0, floor)
    } else {
        exists|i: int|
            {
                &&& 0 <= i < npo.len()
                &&& forall|j: int| 0 <= j < i ==> !faulty((#[trigger] npo[j]).1, floor)
                &&& reports(e, (#[trigger] npo[i]).0@, npo[i].1, floor)
            }
    }
}

/// A packing is valid exactly if no height that it sets is faulty.
pub proof fn lemma_valid_packing(packing: TablePacking)
    ensures
        ({
            let floor = packing.min_trace_height;
            let bad = |h: Option<usize>| h is Some && faulty(h->Some_0, floor);
            let npo = packing.npo_min_heights@;
            packing.valid() <==> !bad(packing.const_min_height) && !bad(packing.public_min_height)
                && !bad(packing.alu_min_height) && forall|i: int|
                0 <= i < npo.len() ==> !faulty((#[trigger] npo[i]).1, floor)
        }),
{
    let floor = packing.min_trace_height;
    let npo = packing.npo_min_heights@;
    let all = packing.overrides();
    let a = named_height("CONST"@, packing.const_min_height);
    let b = named_height("PUBLIC"@, packing.public_min_height);
    let c = named_height("ALU"@, packing.alu_min_height);
    let n = (a + b + c).len() as int;
    assert forall|h: usize| height_allowed(h, floor) <==> !#[trigger] faulty(h, floor) by {
        lemma_heights_and_faults((Seq::empty(), h), floor, arbitrary());
    }
    assert forall|i: int| 0 <= i < npo.len() implies all[n + i].1 == (#[trigger] npo[i]).1 by {}
    if packing.valid() {
        if let Some(h) = packing.const_min_height {
            assert(all[0] == ("CONST"@, h));
        }
        if let Some(h) = packing.public_min_height {
            assert(all[a.len() as int] == ("PUBLIC"@, h));
        }
        if let Some(h) = packing.alu_min_height {
            assert(all[(a + b).len() as int] == ("ALU"@, h));
        }
        assert forall|i: int| 0 <= i < npo.len() implies !faulty((#[trigger] npo[i]).1, floor) by {
            assert(height_allowed(all[n + i].1, floor));
        }
    }
    let bad = |h: Option<usize>| h is Some && faulty(h->Some_0, floor);
    if !bad(packing.const_min_height) && !bad(packing.public_min_height) && !bad(
        packing.alu_min_height,
    ) && forall|i: int| 0 <= i < npo.len() ==> !faulty((#[trigger] npo[i]).1, floor) {
        assert forall|j: int| 0 <= j < all.len() implies height_allowed(
            (#[trigger] all[j]).1,
            floor,
        ) by {
            if j < n {
                assert(all[j] == (a + b + c)[j]);
            } else {
                assert(all[j].1 == npo[j - n].1);
            }
            assert(!faulty(all[j].1, floor));
        }
    }
}

/// The first fault of a packing is what is reported.
pub proof fn lemma_first_fault(packing: TablePacking, e: ProofMetadataError)
    requires
        packing.is_first_fault(e),
    ensures
        reports_first_fault(packing, e),
{
    let floor = packing.min_trace_height;
    let npo = packing.npo_min_heights@;
    let all = packing.overrides();
    let a = named_height("CONST"@, packing.const_min_height);
    let b = named_height("PUBLIC"@, packing.public_min_height);
    let c = named_height("ALU"@, packing.alu_min_height);
    let n = (a + b + c).len() as int;
    let at = choose|i: int|
        {
            &&& 0 <= i < all.len()
            &&& forall|j: int| 0 <= j < i ==> height_allowed((#[trigger] all[j]).1, floor)
            &&& is_fault_of(#[trigger] all[i], floor, e)
        };
    assert forall|j: int| 0 <= j < all.len() implies (height_allowed(
        (#[trigger] all[j]).1,
        floor,
    ) <==> !faulty(all[j].1, floor)) by {
        lemma_heights_and_faults(all[j], floor, e);
    }
    lemma_heights_and_faults(all[at], floor, e);
    lemma_fault_is_faulty(all[at], floor, e);
    if let Some(h) = packing.const_min_height {
        assert(all[0] == ("CONST"@, h));
    }
    if let Some(h) = packing.public_min_height {
        assert(all[a.len() as int] == ("PUBLIC"@, h));
    }
    if let Some(h) = packing.alu_min_height {
        assert(all[(a + b).len() as int] == ("ALU"@, h));
    }
    if at < n {
        assert(all[at] == (a + b + c)[at]);
    } else {
        let i = at - n;
        assert(all[at] == (npo[i].0@, npo[i].1));
        assert forall|j: int| 0 <= j < i implies !faulty((#[trigger] npo[j]).1, floor) by {
            assert(all[n + j].1 == npo[j].1);
        }
        assert(reports(e, npo[i].0@, npo[i].1, floor));
    }
}

proof fn lemma_fault_is_faulty(named: (Seq<char>, usize), floor: usize, e: ProofMetadataError)
    requires
        is_fault_of(named, floor, e),
    ensures
        faulty(named.1, floor),
{
    lemma_heights_and_faults(named, floor, e);
}

/// Whether the last entry for `op` is `setting`, if there is an entry for it at all.
pub open spec fn last_entry(
    entries: Seq<(NpoTypeId, usize)>,
    op: Seq<char>,
    setting: Option<usize>,
) -> bool {
    match setting {
        None => forall|i: int| 0 <= i < entries.len() ==> (#[trigger] entries[i]).0@ != op,
        Some(n) => exists|i: int|
            {
                &&& 0 <= i < entries.len()
                &&& (#[trigger] entries[i]).0@ == op
                &&& entries[i].1 == n
                &&& forall|j: int| i < j < entries.len() ==> (#[trigger] entries[j]).0@ != op
            },
    }
}

/// The setting for an operation is its last entry.
pub proof fn lemma_setting_is_last_entry(entries: Seq<(NpoTypeId, usize)>, op: Seq<char>)
    ensures
        last_entry(entries, op, setting_of(entries, op)),
    decreases entries.len(),
{
    if entries.len() > 0 {
        let last = entries.len() - 1;
        let shorter = entries.drop_last();
        lemma_setting_is_last_entry(shorter, op);
        assert(entries[last] == entries.last());
        if entries.last().0@ != op {
            match setting_of(shorter, op) {
                None => {
                    assert forall|i: int| 0 <= i < entries.len() implies (#[trigger] entries[i]).0@
                        != op by {
                        if i < last {
                            assert(shorter[i] == entries[i]);
                        }
                    }
                },
                Some(n) => {
                    let i = choose|i: int|
                        {
                            &&& 0 <= i < shorter.len()
                            &&& (#[trigger] shorter[i]).0@ == op
                            &&& shorter[i].1 == n
                            &&& forall|j: int|
                                i < j < shorter.len() ==> (#[trigger] shorter[j]).0@ != op
                        };
                    assert(entries[i] == shorter[i]);
                    assert forall|j: int| i < j < entries.len() implies (#[trigger] entries[j]).0@
                        != op by {
                        if j < last {
                            assert(shorter[j] == entries[j]);
                        }
                    }
                },
            }
        }
    }
}

/// [`TablePacking::npo_lanes`] and [`TablePacking::npo_min_height`] give the last entry for an
/// operation.
pub proof fn law_plugin_settings(
    packing: TablePacking,
    op: NpoTypeId,
    lanes: Option<usize>,
    height: Option<usize>,
)
    requires
        call_ensures(TablePacking::npo_lanes, (&packing, &op), lanes),
        call_ensures(TablePacking::npo_min_height, (&packing, &op), height),
    ensures
        last_entry(packing.npo_lanes@, op@, lanes),
        last_entry(packing.npo_min_heights@, op@, height),
{
    lemma_setting_is_last_entry(packing.npo_lanes@, op@);
    lemma_setting_is_last_entry(packing.npo_min_heights@, op@);
}

/// A new packing has the lanes given, floor 1, one Horner step, nothing set for any table, and is
/// not strict; and each further step sets one thing and leaves the rest.
pub proof fn law_packing_steps(
    public_lanes: usize,
    alu_lanes: usize,
    packing: TablePacking,
    height: usize,
    new: TablePacking,
    floor: TablePacking,
    of_const: TablePacking,
    of_public: TablePacking,
    of_alu: TablePacking,
    strict: TablePacking,
)
    requires
        public_lanes > 0,
        alu_lanes > 0,
        call_ensures(TablePacking::new, (public_lanes, alu_lanes), new),
        call_ensures(TablePacking::with_min_trace_height, (packing, height), floor),
        call_ensures(TablePacking::with_const_min_height, (packing, height), of_const),
        call_ensures(TablePacking::with_public_min_height, (packing, height), of_public),
        call_ensures(TablePacking::with_alu_min_height, (packing, height), of_alu),
        call_ensures(TablePacking::with_strict_heights, (packing,), strict),
    ensures
        new.public_lanes == public_lanes && new.alu_lanes == alu_lanes,
        new.horner_packed_steps == 1 && new.min_trace_height == 1 && !new.strict,
        new.const_min_height is None && new.public_min_height is None && new.alu_min_height is None,
        new.npo_lanes@.len() == 0 && new.npo_min_heights@.len() == 0 && new.required_npo@.len()
            == 0,
        floor.min_trace_height == height,
        of_const.const_min_height == Some(height),
        of_public.public_min_height == Some(height),
        of_alu.alu_min_height == Some(height),
        strict.strict,
        forall|p: TablePacking| #[trigger]
            same_but_heights(packing, p) <== p == floor || p == of_const || p == of_public || p
                == of_alu || p == strict,
        floor.const_min_height == packing.const_min_height && floor.public_min_height
            == packing.public_min_height && floor.alu_min_height == packing.alu_min_height
            && floor.strict == packing.strict,
        of_const.min_trace_height == packing.min_trace_height && of_const.public_min_height
            == packing.public_min_height && of_const.alu_min_height == packing.alu_min_height
            && of_const.strict == packing.strict,
        of_public.min_trace_height == packing.min_trace_height && of_public.const_min_height
            == packing.const_min_height && of_public.alu_min_height == packing.alu_min_height
            && of_public.strict == packing.strict,
        of_alu.min_trace_height == packing.min_trace_height && of_alu.const_min_height
            == packing.const_min_height && of_alu.public_min_height == packing.public_min_height
            && of_alu.strict == packing.strict,
        strict.min_trace_height == packing.min_trace_height && strict.const_min_height
            == packing.const_min_height && strict.public_min_height == packing.public_min_height
            && strict.alu_min_height == packing.alu_min_height,
{
}

/// Whether two packings agree in lanes, Horner steps and all that is set for plug-in tables.
pub open spec fn same_but_heights(a: TablePacking, b: TablePacking) -> bool {
    &&& a.public_lanes == b.public_lanes
    &&& a.alu_lanes == b.alu_lanes
    &&& a.horner_packed_steps == b.horner_packed_steps
    &&& a.npo_lanes == b.npo_lanes
    &&& a.npo_min_heights == b.npo_min_heights
    &&& a.required_npo == b.required_npo
}

/// [`AluExtMulKind::resolve`] needs nothing in the base field; otherwise the trinomial is taken where
/// the extension is of that kind, and the binomial where it has a `W`; there is no other way.
pub proof fn law_multiplications(
    d: usize,
    w: Option<u64>,
    quintic: bool,
    res: Option<AluExtMulKind>,
)
    requires
        call_ensures(AluExtMulKind::resolve, (d, w, quintic), res),
    ensures
        d == 1 ==> res == Some(AluExtMulKind::Base),
        d != 1 && quintic ==> res == Some(AluExtMulKind::QuinticTrinomial),
        d != 1 && !quintic && w is Some ==> res == Some(AluExtMulKind::Binomial { w: w->Some_0 }),
        d != 1 && !quintic && w is None ==> res is None,
{
}

/// The trace of a primitive table has the least power of two that reaches its rows and its
/// configured height; as many operations as it has lanes stand in a row. A plug-in's table answers
/// for itself.
pub proof fn law_trace_heights<E, const D: usize>(
    air: CircuitTableAir<E, D>,
    res: Option<usize>,
    k: nat,
)
    requires
        call_ensures(CircuitTableAir::<E, D>::preprocessed_height, (&air,), res),
        air matches CircuitTableAir::Public(a) ==> a.lanes > 0,
        air matches CircuitTableAir::Alu(a) ==> a.table.lanes > 0,
        air.primitive_rows() matches Some(p) ==> p.0 <= usize::MAX / 2 + 1 && p.1 <= usize::MAX / 2
            + 1,
        res matches Some(h) ==> h == pow2(k),
    ensures
        match air {
            CircuitTableAir::Const(a) => res is Some && least_power_of_both(
                a.height as nat,
                a.min_height as nat,
                k,
            ),
            CircuitTableAir::Public(a) => res is Some && least_for_lanes(
                a.num_ops as nat,
                a.lanes as nat,
                a.min_height as nat,
                k,
            ),
            CircuitTableAir::Alu(a) => res is Some && least_for_lanes(
                a.scheduled_entries as nat,
                a.table.lanes as nat,
                a.min_height as nat,
                k,
            ),
            CircuitTableAir::Dynamic(_) => res is None,
        },
{
    lemma_max_height();
    if let Some(p) = air.primitive_rows() {
        crate::table_laws::lemma_degree_of_height(p.0, p.1);
        lemma_table_degree(p.0, p.1);
        lemma_pow2_ordered(k, crate::common::table_degree(p.0, p.1));
    }
    match air {
        CircuitTableAir::Public(a) => lemma_least_for_lanes(
            a.num_ops as nat,
            a.lanes as nat,
            a.min_height as nat,
            k,
        ),
        CircuitTableAir::Alu(a) => lemma_least_for_lanes(
            a.scheduled_entries as nat,
            a.table.lanes as nat,
            a.min_height as nat,
            k,
        ),
        _ => {},
    }
}

/// Whether `2^k` is the least power of two that is at least `min` and that many rows of `lanes`
/// operations hold `n` of them.
pub open spec fn least_for_lanes(n: nat, lanes: nat, min: nat, k: nat) -> bool {
    &&& n <= pow2(k) * lanes
    &&& min <= pow2(k)
    &&& k > 0 ==> pow2((k - 1) as nat) * lanes < n || pow2((k - 1) as nat) < min
}

/// Rows rounded up hold the operations at the same power of two.
pub proof fn lemma_least_for_lanes(n: nat, lanes: nat, min: nat, k: nat)
    requires
        lanes > 0,
        least_power_of_both(ceil_div(n, lanes), min, k),
    ensures
        least_for_lanes(n, lanes, min, k),
{
    lemma_ceil_div_bounds(n, lanes);
    let r = ceil_div(n, lanes);
    let p = pow2(k);
    assert(n <= p * lanes) by (nonlinear_arith)
        requires
            r * lanes >= n,
            r <= p,
    ;
    if k > 0 {
        let q = pow2((k - 1) as nat);
        if q < r {
            assert(q * lanes <= (r - 1) * lanes) by (nonlinear_arith)
                requires
                    q <= r - 1,
            ;
        }
    }
}

/// A copy of a table describes the same table.
pub proof fn law_copies<E: Clone, const D: usize>(
    air: CircuitTableAir<E, D>,
    copy: CircuitTableAir<E, D>,
)
    requires
        call_ensures(<CircuitTableAir<E, D> as Clone>::clone, (&air,), copy),
    ensures
        match air {
            CircuitTableAir::Const(a) => copy matches CircuitTableAir::Const(b) && a.height
                == b.height && a.preprocessed@ == b.preprocessed@ && a.min_height == b.min_height,
            CircuitTableAir::Public(a) => copy matches CircuitTableAir::Public(b) && a.num_ops
                == b.num_ops && a.lanes == b.lanes && a.preprocessed@ == b.preprocessed@
                && a.min_height == b.min_height,
            CircuitTableAir::Alu(a) => copy matches CircuitTableAir::Alu(b) && a.table.num_ops
                == b.table.num_ops && a.table.lanes == b.table.lanes && a.table.reduction
                == b.table.reduction && a.table.preprocessed@ == b.table.preprocessed@
                && a.table.horner_packed_steps == b.table.horner_packed_steps
                && a.scheduled_entries == b.scheduled_entries && a.min_height == b.min_height,
            CircuitTableAir::Dynamic(a) => copy matches CircuitTableAir::Dynamic(b) && cloned(a, b),
        },
{
}

/// An overflow of a packing is the circuit's overflow with the same table and heights; any other
/// fault is passed on as the packing's.
pub proof fn law_faults_of_packings(e: ProofMetadataError, res: CircuitError)
    requires
        call_ensures(<CircuitError as From<ProofMetadataError>>::from, (e,), res),
    ensures
        match e {
            ProofMetadataError::ProfileOverflow { table, needed, allowed } => {
                &&& res matches CircuitError::ProfileOverflow { table: t, needed: n, allowed: a }
                &&& t == table && n == needed && a == allowed
            },
            _ => res matches CircuitError::InvalidPacking(fault) && fault == e,
        },
{
}

} // verus!
