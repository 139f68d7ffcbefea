//! Fixed-point scalars.
//!
//! Axis components, per-axis scale factors and elapsed seconds are all `i64`
//! counts of thousandths: `1000` stands for one unit (one second, a factor of
//! one, a fully deflected axis). Multiplication truncates toward zero and both
//! multiplication and addition saturate at [`FIX_MAX`], so every operation is
//! total and exactly described by its spec function.

use vstd::prelude::*;

verus! {

/// Number of fixed-point steps in one unit.
pub const FIX_ONE: i64 = 1000;

/// Largest magnitude a fixed-point value may carry. Chosen so that the
/// product of two in-range values fits in `i64` before the division by
/// [`FIX_ONE`].
pub const FIX_MAX: i64 = 2_000_000_000;

/// A value representable in the fixed-point range.
pub open spec fn fix_in_range(v: int) -> bool {
    -(FIX_MAX as int) <= v && v <= FIX_MAX as int
}

/// Clamps an integer into the fixed-point range.
pub open spec fn fix_clamp(v: int) -> int {
    if v > FIX_MAX as int {
        FIX_MAX as int
    } else if v < -(FIX_MAX as int) {
        -(FIX_MAX as int)
    } else {
        v
    }
}

/// Division by [`FIX_ONE`], truncating toward zero.
pub open spec fn div_unit(p: int) -> int {
    if p >= 0 {
        p / (FIX_ONE as int)
    } else {
        -((-p) / (FIX_ONE as int))
    }
}

/// The fixed-point product: `a * b` rescaled by one unit, truncated toward
/// zero and saturated at the representable range.
pub open spec fn fix_mul(a: int, b: int) -> int {
    fix_clamp(div_unit(a * b))
}

/// The fixed-point sum, saturated at the representable range.
pub open spec fn fix_add(a: int, b: int) -> int {
    fix_clamp(a + b)
}

/// Multiplies two fixed-point values.
pub fn mul_fix(a: i64, b: i64) -> (r: i64)
    requires
        fix_in_range(a as int),
        fix_in_range(b as int),
    ensures
        r as int == fix_mul(a as int, b as int),
        fix_in_range(r as int),
{
    let negative = (a < 0) != (b < 0);
    let ma: u64 = if a >= 0 {
        a as u64
    } else {
        (-a) as u64
    };
    let mb: u64 = if b >= 0 {
        b as u64
    } else {
        (-b) as u64
    };
    assert(ma * mb <= 4_000_000_000_000_000_000) by (nonlinear_arith)
        requires
            ma <= 2_000_000_000,
            mb <= 2_000_000_000,
    ;
    let p: u64 = ma * mb;
    assert(p as int == if a as int * b as int >= 0 {
        a as int * b as int
    } else {
        -(a as int * b as int)
    }) by (nonlinear_arith)
        requires
            p == ma * mb,
            ma as int == if a as int >= 0 { a as int } else { -(a as int) },
            mb as int == if b as int >= 0 { b as int } else { -(b as int) },
    ;
    assert(if (a as int >= 0) == (b as int >= 0) {
        a as int * b as int >= 0
    } else {
        a as int * b as int <= 0
    }) by (nonlinear_arith);
    let q: u64 = p / 1000;
    let clamped: u64 = if q > FIX_MAX as u64 {
        FIX_MAX as u64
    } else {
        q
    };
    if negative {
        -(clamped as i64)
    } else {
        clamped as i64
    }
}

/// Adds two fixed-point values.
pub fn add_fix(a: i64, b: i64) -> (r: i64)
    requires
        fix_in_range(a as int),
        fix_in_range(b as int),
    ensures
        r as int == fix_add(a as int, b as int),
        fix_in_range(r as int),
{
    let s: i64 = a + b;
    if s > FIX_MAX {
        FIX_MAX
    } else if s < -FIX_MAX {
        -FIX_MAX
    } else {
        s
    }
}

/// Multiplying by one unit is the identity on the representable range, in
/// either argument order.
pub proof fn lemma_fix_mul_unit(v: int)
    requires
        fix_in_range(v),
    ensures
        fix_mul(FIX_ONE as int, v) == v,
        fix_mul(v, FIX_ONE as int) == v,
{
    if v >= 0 {
        vstd::arithmetic::div_mod::lemma_div_by_multiple(v, FIX_ONE as int);
        assert(FIX_ONE as int * v == v * (FIX_ONE as int));
    } else {
        vstd::arithmetic::div_mod::lemma_div_by_multiple(-v, FIX_ONE as int);
        assert(-(FIX_ONE as int * v) == (-v) * (FIX_ONE as int));
        assert(-(v * (FIX_ONE as int)) == (-v) * (FIX_ONE as int));
    }
}

/// Negating one factor negates the fixed-point product.
pub proof fn lemma_fix_mul_neg(v: int, d: int)
    ensures
        fix_mul(v, -d) == -fix_mul(v, d),
{
    assert(v * (-d) == -(v * d)) by (nonlinear_arith);
}

/// Multiplying by zero yields zero.
pub proof fn lemma_fix_mul_zero(v: int)
    ensures
        fix_mul(0, v) == 0,
        fix_mul(v, 0) == 0,
{
    assert(0 * v == 0) by (nonlinear_arith);
    assert(v * 0 == 0) by (nonlinear_arith);
}

/// A fixed-point pair: a reading on two axes.
#[derive(Clone, Copy, Debug, PartialEq, Eq, Structural)]
pub struct Fixed2 {
    pub x: i64,
    pub y: i64,
}

impl Fixed2 {
    /// Both components are representable.
    pub open spec fn wf(self) -> bool {
        fix_in_range(self.x as int) && fix_in_range(self.y as int)
    }

    /// The pair with both components zero.
    pub fn zero() -> (r: Fixed2)
        ensures
            r == (Fixed2 { x: 0, y: 0 }),
    {
        Fixed2 { x: 0, y: 0 }
    }
}

/// A fixed-point triple: a point or per-axis factor in up to three dimensions.
#[derive(Clone, Copy, Debug, PartialEq, Eq, Structural)]
pub struct Fixed3 {
    pub x: i64,
    pub y: i64,
    pub z: i64,
}

impl Fixed3 {
    /// All three components are representable.
    pub open spec fn wf(self) -> bool {
        fix_in_range(self.x as int) && fix_in_range(self.y as int) && fix_in_range(self.z as int)
    }

    /// The triple with all components zero.
    pub fn zero() -> (r: Fixed3)
        ensures
            r == (Fixed3 { x: 0, y: 0, z: 0 }),
    {
        Fixed3 { x: 0, y: 0, z: 0 }
    }

    /// The triple with all components set to `v`.
    pub fn splat(v: i64) -> (r: Fixed3)
        ensures
            r == (Fixed3 { x: v, y: v, z: v }),
    {
        Fixed3 { x: v, y: v, z: v }
    }
}

} // verus!
