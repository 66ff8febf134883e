use vstd::prelude::*;

verus! {

/// One whole unit of the fixed-point encoding: every coordinate, score,
/// scale factor and crossover rate is an `i64` counting 1/65536-ths.
pub const FP_ONE: i64 = 65536;

/// Largest magnitude a population coordinate may have when it enters the
/// mutation arithmetic; keeps every intermediate product inside `u128`
/// and every result inside `i64`.
pub const COORD_MAX: i64 = 1099511627776;

/// Largest scale factor the mutation operator accepts (256 whole units).
pub const SCALE_MAX: i64 = 16777216;

/// Bound on the magnitude of a scaled difference:
/// `SCALE_MAX * (2 * COORD_MAX) / FP_ONE`.
pub const SCALED_MAX: i64 = 562949953421312;

/// Magnitude of an integer.
pub open spec fn iabs(x: int) -> int {
    if x >= 0 {
        x
    } else {
        -x
    }
}

/// Fixed-point product of a non-negative factor `f` (in 1/65536-ths) with a
/// value `d`, rounded toward zero: the exact value of `(f / FP_ONE) * d`
/// up to truncation.
pub open spec fn fp_mul(f: int, d: int) -> int {
    if d >= 0 {
        (f * d) / (FP_ONE as int)
    } else {
        -((f * (-d)) / (FP_ONE as int))
    }
}

/// Executable fixed-point multiply, exact with respect to `fp_mul`.
pub fn fp_mul_i64(f: i64, d: i64) -> (r: i64)
    requires
        0 <= f <= SCALE_MAX,
        iabs(d as int) <= 2 * COORD_MAX,
    ensures
        r == fp_mul(f as int, d as int),
        iabs(r as int) <= SCALED_MAX,
{
    if d >= 0 {
        assert(f * d <= SCALE_MAX * (2 * COORD_MAX)) by (nonlinear_arith)
            requires
                0 <= f <= SCALE_MAX,
                0 <= d <= 2 * COORD_MAX,
        ;
        assert(0 <= f * d) by (nonlinear_arith)
            requires
                0 <= f,
                0 <= d,
        ;
        let p: u128 = (f as u128) * (d as u128);
        let q: u128 = p / (FP_ONE as u128);
        proof {
            vstd::arithmetic::div_mod::lemma_div_is_ordered(
                p as int,
                SCALE_MAX * (2 * COORD_MAX),
                FP_ONE as int,
            );
        }
        q as i64
    } else {
        let nd: i64 = -d;
        assert(f * nd <= SCALE_MAX * (2 * COORD_MAX)) by (nonlinear_arith)
            requires
                0 <= f <= SCALE_MAX,
                0 <= nd <= 2 * COORD_MAX,
        ;
        assert(0 <= f * nd) by (nonlinear_arith)
            requires
                0 <= f,
                0 <= nd,
        ;
        let p: u128 = (f as u128) * (nd as u128);
        let q: u128 = p / (FP_ONE as u128);
        proof {
            vstd::arithmetic::div_mod::lemma_div_is_ordered(
                p as int,
                SCALE_MAX * (2 * COORD_MAX),
                FP_ONE as int,
            );
        }
        -(q as i64)
    }
}

} // verus!
