//! Fixed-point arithmetic: every stat, shield and damage amount in this crate
//! is an `i64` number of subunits, `SCALE` subunits to one stat point.
//! Division always rounds to the nearest integer, ties away from zero, the
//! rounding that `round_div` specifies.

use vstd::prelude::*;

verus! {

/// Subunits per whole stat point.
pub const SCALE: i64 = 1_000_000;

/// One hundred stat points in subunits: the pivot of the mitigation formula.
pub const HUNDRED: i64 = 100_000_000;

/// Largest base stat, bonus stat or flat penetration term a record may hold.
pub const BASE_LIMIT: i64 = 10_000_000_000_000;

/// Largest per-level growth rate a record may hold.
pub const GROWTH_LIMIT: i64 = 1_000_000_000;

/// Largest value any derived or mutable stat (health, shields, armor) may take.
pub const STAT_LIMIT: i64 = 30_000_000_000_000;

/// Largest magnitude of an effective-mitigation value fed to `damage_taken`.
pub const MITIGATION_LIMIT: i64 = 100_000_000_000_000;

/// Largest raw (pre-mitigation) damage amount fed to `damage_taken`.
pub const RAW_DMG_LIMIT: i64 = 30_000_000_000_000_000;

/// Largest value a damage-accumulator component may take.
pub const DMG_LIMIT: i64 = 100_000_000_000_000_000;

/// Largest bonus-critical-damage fraction a record may hold (tenfold damage).
pub const CRIT_BONUS_LIMIT: i64 = 10_000_000;

/// Highest level the growth curves accept.
pub const LEVEL_LIMIT: i32 = 500;

/// Most effects one registry can hold.
pub const EFFECT_CAP: usize = 1000;

/// Largest tick count an effect timer may hold.
pub const TIME_LIMIT: i64 = 1_000_000_000_000;

/// Quotient of `n / d` rounded to the nearest integer, ties away from zero.
pub open spec fn round_div(n: int, d: int) -> int
    recommends
        d > 0,
{
    if n >= 0 {
        (2 * n + d) / (2 * d)
    } else {
        -((2 * (-n) + d) / (2 * d))
    }
}

/// `x` rounded to the nearest whole stat point, still in subunits.
pub open spec fn round_unit(x: int) -> int {
    (SCALE as int) * round_div(x, SCALE as int)
}

pub proof fn lemma_round_div_exact(n: int, d: int)
    requires
        d > 0,
        n % d == 0,
    ensures
        round_div(n, d) == n / d,
{
    let k = n / d;
    assert(n == k * d) by {
        vstd::arithmetic::div_mod::lemma_fundamental_div_mod(n, d);
    }
    assert((2 * (k * d) + d) / (2 * d) == k) by (nonlinear_arith)
        requires
            d > 0,
    ;
    if n < 0 {
        assert(-n == (-k) * d) by (nonlinear_arith)
            requires
                n == k * d,
        ;
        assert((2 * ((-k) * d) + d) / (2 * d) == -k) by (nonlinear_arith)
            requires
                d > 0,
        ;
    }
}

pub proof fn lemma_round_div_nonneg_bounds(n: int, d: int)
    requires
        d > 0,
        n >= 0,
    ensures
        0 <= round_div(n, d),
        round_div(n, d) <= n / d + 1,
        d * round_div(n, d) <= n + d,
{
    assert(0 <= (2 * n + d) / (2 * d)) by (nonlinear_arith)
        requires
            d > 0,
            n >= 0,
    ;
    assert((2 * n + d) / (2 * d) <= n / d + 1) by (nonlinear_arith)
        requires
            d > 0,
            n >= 0,
    ;
    assert(d * ((2 * n + d) / (2 * d)) <= n + d) by (nonlinear_arith)
        requires
            d > 0,
            n >= 0,
    ;
}

pub proof fn lemma_round_div_monotone(n1: int, n2: int, d: int)
    requires
        d > 0,
        n1 <= n2,
    ensures
        round_div(n1, d) <= round_div(n2, d),
{
    if n1 >= 0 {
        assert((2 * n1 + d) / (2 * d) <= (2 * n2 + d) / (2 * d)) by (nonlinear_arith)
            requires
                d > 0,
                0 <= n1 <= n2,
        ;
    } else if n2 < 0 {
        assert((2 * (-n2) + d) / (2 * d) <= (2 * (-n1) + d) / (2 * d)) by (nonlinear_arith)
            requires
                d > 0,
                n1 <= n2 < 0,
        ;
    } else {
        assert(0 <= (2 * n2 + d) / (2 * d)) by (nonlinear_arith)
            requires
                d > 0,
                n2 >= 0,
        ;
        assert(0 <= (2 * (-n1) + d) / (2 * d)) by (nonlinear_arith)
            requires
                d > 0,
                n1 < 0,
        ;
    }
}

pub proof fn lemma_round_div_mag(n: int, d: int, m: int)
    requires
        d > 0,
        m >= 0,
        -(m * d) <= n <= m * d,
    ensures
        -m <= round_div(n, d) <= m,
{
    if n >= 0 {
        assert((2 * n + d) / (2 * d) <= m) by (nonlinear_arith)
            requires
                d > 0,
                m >= 0,
                n <= m * d,
        ;
        assert(0 <= (2 * n + d) / (2 * d)) by (nonlinear_arith)
            requires
                d > 0,
                n >= 0,
        ;
    } else {
        assert((2 * (-n) + d) / (2 * d) <= m) by (nonlinear_arith)
            requires
                d > 0,
                m >= 0,
                -n <= m * d,
        ;
        assert(0 <= (2 * (-n) + d) / (2 * d)) by (nonlinear_arith)
            requires
                d > 0,
                n < 0,
        ;
    }
}

pub proof fn lemma_round_unit_monotone(x1: int, x2: int)
    requires
        x1 <= x2,
    ensures
        round_unit(x1) <= round_unit(x2),
{
    lemma_round_div_monotone(x1, x2, SCALE as int);
    let q1 = round_div(x1, SCALE as int);
    let q2 = round_div(x2, SCALE as int);
    assert((SCALE as int) * q1 <= (SCALE as int) * q2) by (nonlinear_arith)
        requires
            q1 <= q2,
    ;
}

pub proof fn lemma_round_unit_close(x: int)
    requires
        x >= 0,
    ensures
        0 <= round_unit(x),
        round_unit(x) <= x + SCALE,
{
    lemma_round_div_nonneg_bounds(x, SCALE as int);
    let q = round_div(x, SCALE as int);
    assert(0 <= (SCALE as int) * q) by (nonlinear_arith)
        requires
            q >= 0,
    ;
}

pub proof fn lemma_round_unit_fixed(x: int)
    requires
        x % (SCALE as int) == 0,
    ensures
        round_unit(x) == x,
{
    lemma_round_div_exact(x, SCALE as int);
    vstd::arithmetic::div_mod::lemma_fundamental_div_mod(x, SCALE as int);
}

/// `x` rounded to the nearest whole stat point.
pub fn round_to_unit(x: i64) -> (r: i64)
    requires
        0 <= x <= 1_000_000_000_000_000_000,
    ensures
        r == round_unit(x as int),
        0 <= r <= x + SCALE,
        r % SCALE == 0,
{
    proof {
        lemma_round_unit_close(x as int);
        lemma_round_div_nonneg_bounds(x as int, SCALE as int);
    }
    let q: i64 = mul_div_round(x, 1, SCALE);
    let r: i64 = q * SCALE;
    proof {
        assert(r % SCALE == 0) by (nonlinear_arith)
            requires
                r == q * SCALE,
                SCALE == 1_000_000,
        ;
    }
    r
}

/// `round_div(a * b, d)`, computed without overflow through 128-bit
/// intermediates.
pub fn mul_div_round(a: i64, b: i64, d: i64) -> (r: i64)
    requires
        d > 0,
        -1_000_000_000_000_000_000 <= a <= 1_000_000_000_000_000_000,
        -1_000_000_000_000_000_000 <= b <= 1_000_000_000_000_000_000,
        -0x7fff_ffff_ffff_ffff <= round_div(a as int * b as int, d as int),
        round_div(a as int * b as int, d as int) <= 0x7fff_ffff_ffff_ffff,
    ensures
        r == round_div(a as int * b as int, d as int),
{
    proof {
        let e18 = 1_000_000_000_000_000_000 as int;
        assert(-(e18 * e18) <= a as int * b as int <= e18 * e18) by (nonlinear_arith)
            requires
                -e18 <= a as int <= e18,
                -e18 <= b as int <= e18,
        ;
    }
    let prod: i128 = (a as i128) * (b as i128);
    let dd: u128 = d as u128;
    let ghost n = a as int * b as int;
    if prod >= 0 {
        let q: u128 = (2 * (prod as u128) + dd) / (2 * dd);
        proof {
            assert(q == round_div(n, d as int));
        }
        q as i64
    } else {
        let mag: u128 = (-prod) as u128;
        let q: u128 = (2 * mag + dd) / (2 * dd);
        proof {
            assert(q == (2 * (-n) + d) / (2 * (d as int)));
            assert(q <= 0x7fff_ffff_ffff_ffff);
        }
        -(q as i64)
    }
}

} // verus!
