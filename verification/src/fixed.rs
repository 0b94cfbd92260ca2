use vstd::prelude::*;

verus! {

/// Fixed-point scale: the quantity 1.0 is represented by `SCALE` ticks.
/// All energies, activities, weights, thresholds and elapsed times are
/// signed 64-bit counts of such ticks.
pub const SCALE: i64 = 1_000_000;

/// A tenth of a unit: the additive bias used by the link-formation rule.
pub const TENTH: i64 = 100_000;

/// A hundredth of a unit: a link whose decayed weight has magnitude at or
/// below this bound is dropped.
pub const PRUNE_LIMIT: i64 = 10_000;

pub open spec fn abs_int(x: int) -> int {
    if x < 0 {
        -x
    } else {
        x
    }
}

/// Saturation of a mathematical integer into the `i64` range.
pub open spec fn sat64(x: int) -> int {
    if x > i64::MAX {
        i64::MAX as int
    } else if x < i64::MIN {
        i64::MIN as int
    } else {
        x
    }
}

/// The scaled product `a * b / SCALE`, truncated toward zero: the exact
/// fixed-point reading of a product of two tick counts.
pub open spec fn mul_scaled(a: int, b: int) -> int {
    let m = (abs_int(a) * abs_int(b)) / (SCALE as int);
    if (a < 0) != (b < 0) {
        -m
    } else {
        m
    }
}

/// Fixed-point multiplication as the executable code computes it:
/// the scaled product, saturated into `i64`.
pub open spec fn fp_mul_spec(a: int, b: int) -> int {
    sat64(mul_scaled(a, b))
}

/// Saturating addition of two tick counts.
pub fn sat_add(a: i64, b: i64) -> (r: i64)
    ensures
        r as int == sat64(a + b),
{
    match a.checked_add(b) {
        Some(s) => s,
        None => {
            if b > 0 {
                i64::MAX
            } else {
                i64::MIN
            }
        },
    }
}

/// Saturating absolute value of a tick count.
pub fn sat_abs(a: i64) -> (r: i64)
    ensures
        r as int == sat64(abs_int(a as int)),
{
    if a == i64::MIN {
        i64::MAX
    } else if a < 0 {
        -a
    } else {
        a
    }
}

/// Saturating negation of a tick count.
pub fn sat_neg(a: i64) -> (r: i64)
    ensures
        r as int == sat64(-(a as int)),
{
    if a == i64::MIN {
        i64::MAX
    } else {
        -a
    }
}

/// Fixed-point multiplication: computes `fp_mul_spec(a, b)` exactly.
pub fn fp_mul(a: i64, b: i64) -> (r: i64)
    ensures
        r as int == fp_mul_spec(a as int, b as int),
{
    let neg: bool = (a < 0) != (b < 0);
    let aa: u128 = if a < 0 {
        (-(a as i128)) as u128
    } else {
        a as u128
    };
    let bb: u128 = if b < 0 {
        (-(b as i128)) as u128
    } else {
        b as u128
    };
    assert(aa as int == abs_int(a as int));
    assert(bb as int == abs_int(b as int));
    assert((aa as int) * (bb as int) <= 0x8000_0000_0000_0000 * 0x8000_0000_0000_0000)
        by (nonlinear_arith)
        requires
            0 <= aa as int <= 0x8000_0000_0000_0000,
            0 <= bb as int <= 0x8000_0000_0000_0000,
    ;
    let p: u128 = aa * bb;
    let q: u128 = p / 1_000_000u128;
    assert(q as int == (abs_int(a as int) * abs_int(b as int)) / (SCALE as int));
    if neg {
        if q >= 0x8000_0000_0000_0000u128 {
            i64::MIN
        } else {
            -(q as i64)
        }
    } else {
        if q > 0x7fff_ffff_ffff_ffffu128 {
            i64::MAX
        } else {
            q as i64
        }
    }
}

} // verus!
