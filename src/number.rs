//! Exact numbers and the fixed-point length unit.

use vstd::prelude::*;

verus! {

/// A CSS number, held exactly as the fraction `num / den`.
#[derive(Clone, Copy, Debug)]
pub struct Number {
    pub num: i64,
    pub den: u32,
}

/// A fraction with a wider denominator, for values derived from a [`Number`]
/// (a percentage as a ratio, an angle in turns).
#[derive(Clone, Copy, Debug)]
pub struct Ratio {
    pub num: i64,
    pub den: u64,
}

/// A length in application units: sixty to a CSS pixel.
#[derive(Clone, Copy, Debug, PartialEq, Eq, Structural)]
pub struct Au(pub i32);

/// Integer division that rounds toward zero.
pub open spec fn trunc_div(a: int, b: int) -> int
    recommends
        b > 0,
{
    if a >= 0 {
        a / b
    } else {
        -((-a) / b)
    }
}

/// Clamps an integer into the range of `i32`, as a float-to-integer cast does.
pub open spec fn saturate(x: int) -> int {
    if x > i32::MAX {
        i32::MAX as int
    } else if x < i32::MIN {
        i32::MIN as int
    } else {
        x
    }
}

/// `x / d` rounded toward zero and clamped into `i32`.
pub open spec fn trunc_sat(x: int, d: int) -> int {
    saturate(trunc_div(x, d))
}

pub const I126: i128 = 0x4000_0000_0000_0000_0000_0000_0000_0000;

/// Computes `x / d` rounded toward zero, clamped into `i32`.
pub fn div_trunc_saturate(x: i128, d: i128) -> (r: i32)
    requires
        d > 0,
        -I126 <= x <= I126,
    ensures
        r as int == trunc_sat(x as int, d as int),
{
    let q: i128 = if x >= 0 {
        x / d
    } else {
        let m: i128 = -x;
        let t: i128 = m / d;
        -t
    };
    proof {
        assert(q == trunc_div(x as int, d as int));
    }
    if q > i32::MAX as i128 {
        i32::MAX
    } else if q < i32::MIN as i128 {
        i32::MIN
    } else {
        q as i32
    }
}

/// A product of an `i64` and a `u64` fits in `i128`, with room to spare.
pub proof fn lemma_mul_fits(a: int, b: int)
    requires
        i64::MIN <= a <= i64::MAX,
        0 <= b <= u64::MAX,
    ensures
        -I126 * 2 < a * b < I126 * 2,
{
    assert(-I126 * 2 < a * b < I126 * 2) by (nonlinear_arith)
        requires
            i64::MIN <= a <= i64::MAX,
            0 <= b <= u64::MAX,
    ;
}

impl Number {
    pub open spec fn wf(self) -> bool {
        self.den > 0
    }

    /// The fraction `num / den`.
    pub fn new(num: i64, den: u32) -> (r: Number)
        requires
            den > 0,
        ensures
            r.num == num,
            r.den == den,
            r.wf(),
    {
        Number { num, den }
    }

    /// Same value: `a / b == c / d` exactly when `a * d == c * b`.
    pub open spec fn same_value(self, o: Number) -> bool {
        self.num * o.den == o.num * self.den
    }
}

impl Ratio {
    pub open spec fn wf(self) -> bool {
        self.den > 0
    }

    /// The fraction `num / den`.
    pub fn new(num: i64, den: u64) -> (r: Ratio)
        requires
            den > 0,
        ensures
            r.num == num,
            r.den == den,
    {
        Ratio { num, den }
    }

    pub open spec fn same_value(self, o: Ratio) -> bool {
        self.num * o.den == o.num * self.den
    }
}

impl PartialEq for Number {
    /// Equality of the values, not of the two fields.
    fn eq(&self, o: &Number) -> (r: bool) {
        proof {
            lemma_mul_fits(self.num as int, o.den as int);
            lemma_mul_fits(o.num as int, self.den as int);
        }
        let a: i128 = self.num as i128 * o.den as i128;
        let b: i128 = o.num as i128 * self.den as i128;
        a == b
    }
}

impl vstd::std_specs::cmp::PartialEqSpecImpl for Number {
    open spec fn obeys_eq_spec() -> bool {
        true
    }

    open spec fn eq_spec(&self, o: &Number) -> bool {
        self.same_value(*o)
    }
}

impl PartialEq for Ratio {
    /// Equality of the values, not of the two fields.
    fn eq(&self, o: &Ratio) -> (r: bool) {
        proof {
            lemma_mul_fits(self.num as int, o.den as int);
            lemma_mul_fits(o.num as int, self.den as int);
        }
        let a: i128 = self.num as i128 * o.den as i128;
        let b: i128 = o.num as i128 * self.den as i128;
        a == b
    }
}

impl vstd::std_specs::cmp::PartialEqSpecImpl for Ratio {
    open spec fn obeys_eq_spec() -> bool {
        true
    }

    open spec fn eq_spec(&self, o: &Ratio) -> bool {
        self.same_value(*o)
    }
}

impl Au {
    /// `self * factor`, rounded toward zero and clamped into `i32`.
    pub open spec fn scaled(self, factor: Number) -> int {
        trunc_sat(self.0 * factor.num, factor.den as int)
    }

    /// Scales by a number, rounding toward zero.
    pub fn scale_by(self, factor: Number) -> (r: Au)
        requires
            factor.wf(),
        ensures
            r.0 == self.scaled(factor),
    {
        proof {
            assert(-I126 <= self.0 * factor.num <= I126) by (nonlinear_arith)
                requires
                    i32::MIN <= self.0 <= i32::MAX,
                    i64::MIN <= factor.num <= i64::MAX,
            ;
        }
        let x: i128 = self.0 as i128 * factor.num as i128;
        Au(div_trunc_saturate(x, factor.den as i128))
    }
}

} // verus!
