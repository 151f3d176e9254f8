//! Deterministic decimal rounding engine.
//!
//! A value is a decimal fixed-point number: an `i64` counting raw steps of
//! `1/10_000` of a game unit.  `round_half_even` is the reference semantics:
//! round to the nearest multiple of a decimal step, ties to the even
//! multiple.  The common 2-digit case is accelerated by a precomputed table
//! ([`RoundTable`]) of per-centi-unit values and decision thresholds; the
//! table lookup is proved to agree with the reference semantics everywhere.

use vstd::arithmetic::div_mod::{
    lemma_div_is_ordered, lemma_fundamental_div_mod, lemma_fundamental_div_mod_converse,
    lemma_mod_bound, lemma_mod_multiples_basic,
};
use vstd::arithmetic::mul::lemma_mul_is_commutative;
use vstd::prelude::*;

verus! {

/// Largest raw magnitude the rounding routines accept; comfortably below
/// `i64::MAX` so that adding one decimal step can never overflow.
pub const ROUND_INPUT_LIMIT: i64 = 1_000_000_000_000_000_000;

/// Number of centi-unit entries on each side of zero in the fast-path table.
pub const MAX_ARR: i64 = 1_000_000;

/// The decimal step, in raw `1/10_000` units, that rounding to `ndigits`
/// fractional digits preserves.  Four or more digits keep full precision.
pub open spec fn spec_step(ndigits: u32) -> int {
    if ndigits == 0 {
        10_000
    } else if ndigits == 1 {
        1_000
    } else if ndigits == 2 {
        100
    } else if ndigits == 3 {
        10
    } else {
        1
    }
}

/// Round `v` to the nearest multiple of `step`, ties to the even multiple.
pub open spec fn round_half_even(v: int, step: int) -> int
    recommends
        step >= 1,
{
    let q = v / step;
    let r = v % step;
    if 2 * r < step {
        q * step
    } else if 2 * r > step {
        (q + 1) * step
    } else if q % 2 == 0 {
        q * step
    } else {
        (q + 1) * step
    }
}

/// Round a raw fixed-point value to `ndigits` decimal digits.
pub open spec fn spec_round(v: int, ndigits: u32) -> int {
    round_half_even(v, spec_step(ndigits))
}

/// Floor decomposition of `v` by a positive step.
pub proof fn lemma_div_decomposition(v: int, step: int)
    requires
        step >= 1,
    ensures
        v == (v / step) * step + (v % step),
        0 <= v % step < step,
{
    lemma_fundamental_div_mod(v, step);
    lemma_mod_bound(v, step);
    lemma_mul_is_commutative(step, v / step);
}

/// The rounded value is always the floor multiple or the one above it.
pub proof fn lemma_rhe_choices(v: int, step: int)
    requires
        step >= 1,
    ensures
        round_half_even(v, step) == (v / step) * step || round_half_even(v, step) == (v / step + 1)
            * step,
        (v / step) * step <= v < (v / step) * step + step,
{
    lemma_div_decomposition(v, step);
}

/// A multiple of the step is left unchanged.
pub proof fn lemma_rhe_on_grid(k: int, step: int)
    requires
        step >= 1,
    ensures
        round_half_even(k * step, step) == k * step,
{
    lemma_fundamental_div_mod_converse(k * step, step, k, 0);
}

/// Rounding twice gives the same value as rounding once.
pub proof fn lemma_rhe_idempotent(v: int, step: int)
    requires
        step >= 1,
    ensures
        round_half_even(round_half_even(v, step), step) == round_half_even(v, step),
{
    lemma_rhe_choices(v, step);
    if round_half_even(v, step) == (v / step) * step {
        lemma_rhe_on_grid(v / step, step);
    } else {
        lemma_rhe_on_grid(v / step + 1, step);
    }
}

/// Rounding to `ndigits` decimal digits is idempotent.
pub proof fn lemma_round_idempotent(v: int, ndigits: u32)
    ensures
        spec_round(spec_round(v, ndigits), ndigits) == spec_round(v, ndigits),
{
    lemma_rhe_idempotent(v, spec_step(ndigits));
}

/// Round-half-to-even is monotone.
pub proof fn lemma_rhe_monotone(a: int, b: int, step: int)
    requires
        step >= 1,
        a <= b,
    ensures
        round_half_even(a, step) <= round_half_even(b, step),
{
    let qa = a / step;
    let qb = b / step;
    let ra = a % step;
    let rb = b % step;
    lemma_div_decomposition(a, step);
    lemma_div_decomposition(b, step);
    lemma_div_is_ordered(a, b, step);
    lemma_rhe_choices(a, step);
    lemma_rhe_choices(b, step);
    assert((qa + 1) * step == qa * step + step) by (nonlinear_arith);
    assert((qb + 1) * step == qb * step + step) by (nonlinear_arith);
    if qa < qb {
        assert((qa + 1) * step <= qb * step) by (nonlinear_arith)
            requires
                qa + 1 <= qb,
                step >= 1,
        ;
    } else {
        assert(qa == qb);
        assert(ra <= rb);
    }
}

/// The rounded value stays within one step of the input.
pub proof fn lemma_rhe_near(v: int, step: int)
    requires
        step >= 1,
    ensures
        v - step < round_half_even(v, step) <= v + step,
{
    lemma_rhe_choices(v, step);
    assert((v / step + 1) * step == (v / step) * step + step) by (nonlinear_arith);
}

/// Two-digit rounding always lands on the centi-unit grid.
pub proof fn lemma_round_is_on_grid(v: int)
    ensures
        spec_round(v, 2) % 100 == 0,
{
    lemma_rhe_choices(v, 100);
    lemma_mod_multiples_basic(v / 100, 100);
    lemma_mod_multiples_basic(v / 100 + 1, 100);
}

/// A value already on the centi-unit grid is left unchanged by two-digit
/// rounding.
pub proof fn lemma_on_grid_fixed(v: int)
    requires
        v % 100 == 0,
    ensures
        spec_round(v, 2) == v,
{
    lemma_fundamental_div_mod(v, 100);
    lemma_mul_is_commutative(100, v / 100);
    lemma_rhe_on_grid(v / 100, 100);
}

/// Exact decimal step for a digit count.
pub fn step_of(ndigits: u32) -> (s: i64)
    ensures
        s as int == spec_step(ndigits),
        1 <= s <= 10_000,
{
    if ndigits == 0 {
        10_000
    } else if ndigits == 1 {
        1_000
    } else if ndigits == 2 {
        100
    } else if ndigits == 3 {
        10
    } else {
        1
    }
}

/// Euclidean quotient of `x` by a small positive step.
fn div_floor(x: i64, step: i64) -> (q: i64)
    requires
        1 <= step <= 10_000,
        -ROUND_INPUT_LIMIT - 10_000 <= x <= ROUND_INPUT_LIMIT + 10_000,
    ensures
        q as int == x as int / step as int,
{
    proof {
        let xi = x as int;
        let si = step as int;
        lemma_div_decomposition(xi, si);
        assert(xi / si * si <= xi < xi / si * si + si);
        if xi >= 0 {
            assert(xi / si >= 0) by (nonlinear_arith)
                requires
                    xi >= 0,
                    si >= 1,
                    xi == (xi / si) * si + xi % si,
                    0 <= xi % si < si,
            ;
            assert(xi / si <= xi) by (nonlinear_arith)
                requires
                    xi / si >= 0,
                    si >= 1,
                    xi == (xi / si) * si + xi % si,
                    0 <= xi % si < si,
            ;
        } else {
            assert(xi / si <= 0) by (nonlinear_arith)
                requires
                    xi < 0,
                    si >= 1,
                    xi == (xi / si) * si + xi % si,
                    0 <= xi % si < si,
            ;
            assert(xi / si >= xi - si) by (nonlinear_arith)
                requires
                    xi / si <= 0,
                    si >= 1,
                    xi == (xi / si) * si + xi % si,
                    0 <= xi % si < si,
            ;
        }
    }
    x.checked_div_euclid(step).unwrap()
}

/// Euclidean remainder of `x` by a small positive step.
fn rem_floor(x: i64, step: i64) -> (r: i64)
    requires
        1 <= step <= 10_000,
        -ROUND_INPUT_LIMIT - 10_000 <= x <= ROUND_INPUT_LIMIT + 10_000,
    ensures
        r as int == x as int % step as int,
        0 <= r < step,
{
    proof {
        lemma_fundamental_div_mod(x as int, step as int);
    }
    x.checked_rem_euclid(step).unwrap()
}

/// Reference rounding: exact round-half-to-even on the fixed-point grid.
/// Ground truth that the fast path is validated against.
pub fn fallback_round(x: i64, ndigits: u32) -> (res: i64)
    requires
        -ROUND_INPUT_LIMIT <= x <= ROUND_INPUT_LIMIT,
    ensures
        res as int == spec_round(x as int, ndigits),
        -ROUND_INPUT_LIMIT - 10_000 <= res <= ROUND_INPUT_LIMIT + 10_000,
{
    let step = step_of(ndigits);
    let q = div_floor(x, step);
    let r = rem_floor(x, step);
    proof {
        lemma_div_decomposition(x as int, step as int);
        lemma_rhe_near(x as int, step as int);
    }
    let down: i64 = x - r;
    assert(down as int == (x as int / step as int) * step as int);
    let two_r: i64 = 2 * r;
    if two_r < step {
        down
    } else if two_r > step {
        down + step
    } else {
        let parity = q.checked_rem_euclid(2).unwrap();
        if parity == 0 {
            down
        } else {
            down + step
        }
    }
}

/// Round `v` to the nearest multiple of `step`, ties away from zero.
pub open spec fn round_half_away(v: int, step: int) -> int
    recommends
        step >= 1,
{
    let q = v / step;
    let r = v % step;
    if 2 * r < step {
        q * step
    } else if 2 * r > step {
        (q + 1) * step
    } else if v >= 0 {
        (q + 1) * step
    } else {
        q * step
    }
}

/// Exact round-to-nearest with ties away from zero; the coarsening used by
/// the state projection.
pub fn half_away_round(x: i64, step: i64) -> (res: i64)
    requires
        1 <= step <= 10_000,
        -ROUND_INPUT_LIMIT <= x <= ROUND_INPUT_LIMIT,
    ensures
        res as int == round_half_away(x as int, step as int),
{
    let q = div_floor(x, step);
    let r = rem_floor(x, step);
    proof {
        lemma_div_decomposition(x as int, step as int);
        lemma_rhe_near(x as int, step as int);
        assert((x as int / step as int + 1) * (step as int) == (x as int / step as int) * (
        step as int) + step as int) by (nonlinear_arith);
    }
    let down: i64 = x - r;
    assert(down as int == (x as int / step as int) * step as int);
    let two_r: i64 = 2 * r;
    if two_r < step {
        down
    } else if two_r > step {
        down + step
    } else if x >= 0 {
        down + step
    } else {
        down
    }
}

/// Product of two fixed-point values, rounded half-to-even back onto the
/// raw grid.
pub open spec fn spec_mul_fx(a: int, b: int) -> int {
    round_half_even(a * b, crate::SCALE as int) / (crate::SCALE as int)
}

/// Fixed-point multiplication: the raw product carries eight decimal
/// digits, which is rounded back to four.
pub fn mul_fx(a: i64, b: i64) -> (r: i64)
    requires
        -1_000_000_000 <= a <= 1_000_000_000,
        -1_000_000_000 <= b <= 1_000_000_000,
    ensures
        r as int == spec_mul_fx(a as int, b as int),
        -100_000_000_000_001 <= r <= 100_000_000_000_001,
{
    proof {
        assert(-1_000_000_000_000_000_000 <= a as int * b as int <= 1_000_000_000_000_000_000)
            by (nonlinear_arith)
            requires
                -1_000_000_000 <= a as int <= 1_000_000_000,
                -1_000_000_000 <= b as int <= 1_000_000_000,
        ;
    }
    let p: i64 = a * b;
    let rp = fallback_round(p, 0);
    proof {
        let pi = p as int;
        lemma_rhe_choices(pi, 10_000);
        let k = pi / 10_000;
        lemma_div_decomposition(pi, 10_000);
        if round_half_even(pi, 10_000) == k * 10_000 {
            lemma_fundamental_div_mod_converse(k * 10_000, 10_000, k, 0);
        } else {
            lemma_fundamental_div_mod_converse((k + 1) * 10_000, 10_000, k + 1, 0);
        }
    }
    let q = div_floor(rp, 10_000);
    q
}

/// Fast-path lookup tables for rounding to two decimal digits.
///
/// `muls[i]` is the value of centi-unit index `i - MAX_ARR`; `thresholds[i]`
/// is the largest raw value that still rounds down to `muls[i]`.
pub struct RoundTable {
    pub muls: Vec<i64>,
    pub thresholds: Vec<i64>,
}

impl RoundTable {
    /// Both tables are fully populated, the value table is the strictly
    /// increasing centi-unit grid, and every threshold separates exactly the
    /// values rounding to its entry from those rounding to the next one.
    pub open spec fn wf(self) -> bool {
        &&& self.muls.len() == 2 * MAX_ARR + 2
        &&& self.thresholds.len() == 2 * MAX_ARR + 1
        &&& forall|i: int|
            0 <= i < self.muls.len() ==> self.muls[i] as int == (i - MAX_ARR) * 100
        &&& forall|i: int|
            0 <= i < self.thresholds.len() ==> {
                &&& round_half_even(self.thresholds[i] as int, 100) == self.muls[i] as int
                &&& round_half_even(self.thresholds[i] as int + 1, 100) == self.muls[i + 1] as int
            }
    }
}

/// The value table is strictly increasing (by one centi-unit per entry).
pub proof fn lemma_muls_strictly_increasing(t: RoundTable, i: int, j: int)
    requires
        t.wf(),
        0 <= i < j < t.muls.len(),
    ensures
        t.muls[i] < t.muls[j],
{
}

/// Build the fast-path tables.  Each value entry is produced by the
/// reference rounding itself, and each threshold is checked against the
/// reference rounding before it is committed, so the tables cannot disagree
/// with the fallback.
pub fn init_thresholds() -> (t: RoundTable)
    ensures
        t.wf(),
{
    let n: usize = 2_000_002;
    let mut muls: Vec<i64> = Vec::new();
    let mut i: usize = 0;
    while i < n
        invariant
            n == 2_000_002,
            i <= n,
            muls.len() == i,
            forall|j: int| 0 <= j < i ==> muls[j] as int == (j - MAX_ARR) * 100,
        decreases n - i,
    {
        let centi: i64 = i as i64 - MAX_ARR;
        let v = fallback_round(centi * 100, 2);
        proof {
            lemma_rhe_on_grid(centi as int, 100);
        }
        muls.push(v);
        i += 1;
    }
    let mut thresholds: Vec<i64> = Vec::new();
    let mut i: usize = 0;
    while i < n - 1
        invariant
            n == 2_000_002,
            i <= n - 1,
            muls.len() == n,
            forall|j: int| 0 <= j < n ==> muls[j] as int == (j - MAX_ARR) * 100,
            thresholds.len() == i,
            forall|j: int|
                0 <= j < i ==> {
                    &&& round_half_even(thresholds[j] as int, 100) == muls[j] as int
                    &&& round_half_even(thresholds[j] as int + 1, 100) == muls[j + 1] as int
                },
        decreases n - 1 - i,
    {
        let l = muls[i];
        let r = muls[i + 1];
        let mut m: i64 = l + (r - l) / 2;
        proof {
            let h: int = i as int - MAX_ARR as int;
            assert(l as int == h * 100);
            assert(r as int == l as int + 100);
            lemma_fundamental_div_mod_converse(h * 100 + 50, 100, h, 50);
            lemma_fundamental_div_mod_converse(h * 100 + 49, 100, h, 49);
            lemma_fundamental_div_mod_converse(h * 100 + 51, 100, h, 51);
        }
        if fallback_round(m, 2) != l {
            m -= 1;
        }
        thresholds.push(m);
        i += 1;
    }
    RoundTable { muls, thresholds }
}

/// The table lookup used by the fast path agrees with the reference
/// round-half-to-even semantics for every in-range input.
pub proof fn lemma_table_lookup(t: RoundTable, x: int)
    requires
        t.wf(),
        0 <= x / 100 + MAX_ARR <= 2 * MAX_ARR,
    ensures
        ({
            let idx = x / 100 + MAX_ARR;
            let looked = if x > t.thresholds[idx] {
                t.muls[idx + 1]
            } else {
                t.muls[idx]
            };
            looked as int == round_half_even(x, 100)
        }),
{
    let idx = x / 100 + MAX_ARR;
    let h = x / 100;
    lemma_rhe_choices(x, 100);
    assert(t.muls[idx] as int == h * 100);
    assert(t.muls[idx + 1] as int == (h + 1) * 100);
    let ti = t.thresholds[idx] as int;
    if x > ti {
        lemma_rhe_monotone(ti + 1, x, 100);
    } else {
        lemma_rhe_monotone(x, ti, 100);
    }
}

impl RoundTable {
    /// Round a raw fixed-point value to `ndigits` decimal digits.  Two-digit
    /// rounding of values within the table range is two array lookups; all
    /// other cases take the exact fallback.  Either way the result is the
    /// reference round-half-to-even value.
    pub fn round(&self, x: i64, ndigits: u32) -> (res: i64)
        requires
            self.wf(),
            -ROUND_INPUT_LIMIT <= x <= ROUND_INPUT_LIMIT,
        ensures
            res as int == spec_round(x as int, ndigits),
    {
        if ndigits != 2 {
            return fallback_round(x, ndigits);
        }
        let h = div_floor(x, 100);
        let i: i64 = h + MAX_ARR;
        if i < 0 || i > 2 * MAX_ARR {
            return fallback_round(x, 2);
        }
        proof {
            lemma_table_lookup(*self, x as int);
        }
        let idx = i as usize;
        let j: usize = if x > self.thresholds[idx] {
            idx + 1
        } else {
            idx
        };
        self.muls[j]
    }
}

} // verus!
