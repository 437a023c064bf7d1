//! Table heights: powers of two, padding and lane packing.
use vstd::arithmetic::div_mod::{
    lemma_fundamental_div_mod, lemma_fundamental_div_mod_converse,
};
use vstd::arithmetic::power2::{lemma2_to64, lemma_pow2_strictly_increases, lemma_pow2_unfold, pow2};
use vstd::bits::{lemma_usize_pow2_no_overflow, lemma_usize_shl_is_mul};
use vstd::prelude::*;

verus! {

/// The least `k` with `n <= 2^k`.
pub open spec fn ceil_log2(n: nat) -> nat
    decreases n,
{
    if n <= 1 {
        0
    } else {
        1 + ceil_log2(((n + 1) / 2) as nat)
    }
}

/// The least power of two that is at least `n`: the height a table of `n` rows is padded to.
pub open spec fn padded(n: nat) -> nat {
    pow2(ceil_log2(n))
}

/// `n / d` rounded up: the rows needed for `n` operations at `d` lanes per row.
pub open spec fn ceil_div(n: nat, d: nat) -> nat {
    ((n + d - 1) / (d as int)) as nat
}

/// The largest power of two that a `usize` holds; the tallest table.
pub open spec fn max_height() -> nat {
    pow2((usize::BITS - 1) as nat)
}

/// `2^ceil_log2(n)` is at least `n`, and the power below it is not.
pub proof fn lemma_ceil_log2(n: nat)
    ensures
        n <= pow2(ceil_log2(n)),
        ceil_log2(n) > 0 ==> pow2((ceil_log2(n) - 1) as nat) < n,
    decreases n,
{
    lemma2_to64();
    if n > 1 {
        let h = ((n + 1) / 2) as nat;
        lemma_ceil_log2(h);
        lemma_pow2_unfold(ceil_log2(n));
        if ceil_log2(h) > 0 {
            lemma_pow2_unfold(ceil_log2(h));
        }
    }
}

/// `ceil_log2(n)` is the only exponent with the two properties of [`lemma_ceil_log2`].
pub proof fn lemma_ceil_log2_unique(n: nat, k: nat)
    requires
        n <= pow2(k),
        k > 0 ==> pow2((k - 1) as nat) < n,
    ensures
        k == ceil_log2(n),
{
    lemma_ceil_log2(n);
    let c = ceil_log2(n);
    if k < c {
        if k < c - 1 {
            lemma_pow2_strictly_increases(k, (c - 1) as nat);
        }
    }
    if c < k {
        if c < k - 1 {
            lemma_pow2_strictly_increases(c, (k - 1) as nat);
        }
    }
}

/// Powers of two are ordered as their exponents are.
pub proof fn lemma_pow2_ordered(a: nat, b: nat)
    ensures
        a <= b <==> pow2(a) <= pow2(b),
        a < b <==> pow2(a) < pow2(b),
        a == b <==> pow2(a) == pow2(b),
{
    if a < b {
        lemma_pow2_strictly_increases(a, b);
    }
    if b < a {
        lemma_pow2_strictly_increases(b, a);
    }
}

/// A power of two is its own padded height.
pub proof fn lemma_padded_of_pow2(k: nat)
    ensures
        ceil_log2(pow2(k)) == k,
        padded(pow2(k)) == pow2(k),
{
    if k > 0 {
        lemma_pow2_strictly_increases((k - 1) as nat, k);
    }
    lemma_ceil_log2_unique(pow2(k), k);
}

/// Padding is monotone.
pub proof fn lemma_ceil_log2_monotone(a: nat, b: nat)
    requires
        a <= b,
    ensures
        ceil_log2(a) <= ceil_log2(b),
        padded(a) <= padded(b),
{
    lemma_ceil_log2(a);
    lemma_ceil_log2(b);
    if ceil_log2(b) < ceil_log2(a) {
        lemma_pow2_ordered(ceil_log2(b), (ceil_log2(a) - 1) as nat);
    }
    lemma_pow2_ordered(ceil_log2(a), ceil_log2(b));
}

/// The tallest table is half the range of a `usize`, rounded up.
pub proof fn lemma_max_height()
    ensures
        max_height() == usize::MAX / 2 + 1,
        ceil_log2(max_height()) == usize::BITS - 1,
{
    lemma2_to64();
    lemma_padded_of_pow2((usize::BITS - 1) as nat);
    lemma_pow2_unfold(64);
    lemma_pow2_unfold(32);
}

/// Up to [`max_height`] a padded height fits in a `usize`.
pub proof fn lemma_padded_fits(n: nat)
    requires
        n <= max_height(),
    ensures
        ceil_log2(n) < usize::BITS,
        padded(n) <= max_height() <= usize::MAX,
{
    lemma_max_height();
    lemma_ceil_log2_monotone(n, max_height());
    lemma_padded_of_pow2((usize::BITS - 1) as nat);
}

/// `p3_util::log2_ceil_usize` computes `ceil(log_2(n))`, and 0 for `n == 0`: the least
/// exponent whose power of two reaches `n`.
pub assume_specification[ p3_util::log2_ceil_usize ](n: usize) -> (res: usize)
    ensures
        n <= pow2(res as nat),
        res > 0 ==> pow2((res - 1) as nat) < n,
;

/// Base-2 logarithm of `n`, rounded up.
pub fn log2_ceil(n: usize) -> (res: usize)
    ensures
        res == ceil_log2(n as nat),
{
    let res: usize = p3_util::log2_ceil_usize(n);
    proof {
        lemma_ceil_log2_unique(n as nat, res as nat);
    }
    res
}

/// `2^exp`.
pub fn power_of_two(exp: usize) -> (res: usize)
    requires
        exp < usize::BITS,
    ensures
        res == pow2(exp as nat),
{
    proof {
        lemma_usize_pow2_no_overflow(exp as nat);
        lemma_usize_shl_is_mul(1, exp);
    }
    1usize << exp
}

/// The least power of two that is at least `n`.
pub fn next_power_of_two(n: usize) -> (res: usize)
    requires
        n <= max_height(),
    ensures
        res == padded(n as nat),
{
    proof {
        lemma_padded_fits(n as nat);
    }
    power_of_two(log2_ceil(n))
}

/// `n / d` rounded up.
pub fn div_ceil(n: usize, d: usize) -> (res: usize)
    requires
        d > 0,
    ensures
        res == ceil_div(n as nat, d as nat),
        res <= n,
        n > 0 ==> res > 0,
{
    let q: usize = n / d;
    let r: usize = n % d;
    proof {
        lemma_ceil_div(n as nat, d as nat);
    }
    if r > 0 {
        q + 1
    } else {
        q
    }
}

/// How [`ceil_div`] follows from quotient and remainder.
pub proof fn lemma_ceil_div(n: nat, d: nat)
    requires
        d > 0,
    ensures
        n % d == 0 ==> ceil_div(n, d) == n / d,
        n % d > 0 ==> ceil_div(n, d) == n / d + 1,
        ceil_div(n, d) <= n,
        n > 0 ==> ceil_div(n, d) > 0,
{
    let q = n as int / d as int;
    let r = n as int % d as int;
    lemma_fundamental_div_mod(n as int, d as int);
    vstd::arithmetic::mul::lemma_mul_is_commutative(d as int, q);
    assert(q >= 0 && q * d >= q) by (nonlinear_arith)
        requires
            q == n as int / d as int,
            d > 0,
            n >= 0,
    ;
    if r == 0 {
        assert(q == 0 ==> q * d == 0) by (nonlinear_arith);
        lemma_fundamental_div_mod_converse(n + d - 1, d as int, q, d - 1);
    } else {
        assert((q + 1) * d == q * d + d) by (nonlinear_arith);
        lemma_fundamental_div_mod_converse(n + d - 1, d as int, q + 1, r - 1);
    }
}

} // verus!
