//! Saturating decimal fixed-point numbers.

use vstd::prelude::*;

verus! {

/// Raw steps per unit: a [`Fixed`] counts millionths.
pub const SCALE: i64 = 1_000_000;

/// A signed fixed-point number with six decimal places.
///
/// The value is `raw / SCALE`. Arithmetic never wraps and never panics:
/// a result outside the representable range is clamped to the nearest bound,
/// and products and quotients are rounded toward zero.
#[derive(Clone, Copy, Debug, PartialEq, Eq, Structural, PartialOrd, Ord, Hash)]
pub struct Fixed {
    /// The number of millionths.
    pub raw: i64,
}

impl View for Fixed {
    type V = int;

    /// The raw count as a mathematical integer.
    open spec fn view(&self) -> int {
        self.raw as int
    }
}

/// `v` clamped to the range of an `i64`.
pub open spec fn saturate(v: int) -> int {
    if v < i64::MIN {
        i64::MIN as int
    } else if v > i64::MAX {
        i64::MAX as int
    } else {
        v
    }
}

/// The quotient `n / d` rounded toward zero, for `d != 0`.
pub open spec fn quotient(n: int, d: int) -> int
    recommends
        d != 0,
{
    if n >= 0 && d > 0 {
        n / d
    } else if n >= 0 {
        -(n / (-d))
    } else if d > 0 {
        -((-n) / d)
    } else {
        (-n) / (-d)
    }
}

/// The raw product of two raw counts.
pub open spec fn scaled_product(a: int, b: int) -> int {
    quotient(a * b, SCALE as int)
}

/// The raw ratio of two raw counts. A zero divisor gives the bound on the
/// dividend's side, and zero for a zero dividend.
pub open spec fn scaled_ratio(a: int, b: int) -> int {
    if b != 0 {
        quotient(a * SCALE, b)
    } else if a > 0 {
        i64::MAX as int
    } else if a < 0 {
        i64::MIN as int
    } else {
        0
    }
}

/// Rounds `n / d` toward zero on wide operands.
fn divide(n: i128, d: i128) -> (q: i128)
    requires
        d != 0,
        i128::MIN < n,
        i128::MIN < d,
    ensures
        q == quotient(n as int, d as int),
{
    if n >= 0 && d > 0 {
        n / d
    } else if n >= 0 {
        -(n / (-d))
    } else if d > 0 {
        -((-n) / d)
    } else {
        (-n) / (-d)
    }
}

impl Fixed {
    /// The number whose view is `saturate(v)`.
    pub open spec fn clamped(v: int) -> Fixed {
        Fixed { raw: saturate(v) as i64 }
    }

    /// The sum, clamped into range.
    pub open spec fn spec_add(self, rhs: Fixed) -> Fixed {
        Fixed::clamped(self@ + rhs@)
    }

    /// The difference, clamped into range.
    pub open spec fn spec_sub(self, rhs: Fixed) -> Fixed {
        Fixed::clamped(self@ - rhs@)
    }

    /// The negation, clamped into range: the lowest number negates to the highest.
    pub open spec fn spec_neg(self) -> Fixed {
        Fixed::clamped(-self@)
    }

    /// The product, rounded toward zero and clamped into range.
    pub open spec fn spec_mul(self, rhs: Fixed) -> Fixed {
        Fixed::clamped(scaled_product(self@, rhs@))
    }

    /// The ratio, rounded toward zero and clamped into range; see
    /// [`scaled_ratio`] for a zero divisor.
    pub open spec fn spec_div(self, rhs: Fixed) -> Fixed {
        Fixed::clamped(scaled_ratio(self@, rhs@))
    }

    /// `start + (end - start) * t`, each step saturating.
    pub open spec fn spec_lerp(start: Fixed, end: Fixed, t: Fixed) -> Fixed {
        start.spec_add(end.spec_sub(start).spec_mul(t))
    }

    /// Clamps a wide intermediate result into range.
    fn clamp(v: i128) -> (r: Fixed)
        ensures
            r == Fixed::clamped(v as int),
    {
        if v < i64::MIN as i128 {
            Fixed { raw: i64::MIN }
        } else if v > i64::MAX as i128 {
            Fixed { raw: i64::MAX }
        } else {
            Fixed { raw: v as i64 }
        }
    }

    /// The number with the given count of millionths.
    pub fn new(raw: i64) -> (r: Fixed)
        ensures
            r@ == raw,
    {
        Fixed { raw }
    }

    /// Zero.
    pub fn zero() -> (r: Fixed)
        ensures
            r@ == 0,
    {
        Fixed { raw: 0 }
    }

    /// One whole unit.
    pub fn one() -> (r: Fixed)
        ensures
            r@ == SCALE,
    {
        Fixed { raw: SCALE }
    }

    /// The whole number `units`.
    pub fn from_int(units: i32) -> (r: Fixed)
        ensures
            r@ == units * SCALE,
    {
        Fixed { raw: units as i64 * SCALE }
    }

    /// Linear interpolation from `start` (at `t` zero) to `end` (at `t` one);
    /// `t` is not clamped.
    pub fn lerp(start: Fixed, end: Fixed, t: Fixed) -> (r: Fixed)
        ensures
            r == Fixed::spec_lerp(start, end, t),
    {
        start + (end - start) * t
    }
}

/// Interpolating at `t` zero gives `start`.
pub proof fn lemma_lerp_at_zero(start: Fixed, end: Fixed)
    ensures
        Fixed::spec_lerp(start, end, Fixed { raw: 0 }) == start,
{
    let d = end.spec_sub(start);
    assert(d@ * 0 == 0);
}

/// Interpolating at `t` one gives `end`, whenever the difference
/// `end - start` is representable.
pub proof fn lemma_lerp_at_one(start: Fixed, end: Fixed)
    requires
        i64::MIN <= end@ - start@ <= i64::MAX,
    ensures
        Fixed::spec_lerp(start, end, Fixed { raw: SCALE }) == end,
{
    let d = end@ - start@;
    lemma_quotient_of_multiple(d, SCALE as int);
}

/// Between `t` zero and `t` one the interpolated number lies between
/// `start` and `end`.
pub proof fn lemma_lerp_between(start: Fixed, end: Fixed, t: Fixed)
    requires
        0 <= t@ <= SCALE,
    ensures
        start@ <= end@ ==> start@ <= Fixed::spec_lerp(start, end, t)@ <= end@,
        end@ <= start@ ==> end@ <= Fixed::spec_lerp(start, end, t)@ <= start@,
{
    let d = end.spec_sub(start)@;
    if d >= 0 {
        assert(0 <= (d * t@) / 1_000_000 <= d && d * t@ >= 0) by (nonlinear_arith)
            requires
                d >= 0,
                0 <= t@ <= 1_000_000,
        ;
    } else {
        assert(0 <= ((-d) * t@) / 1_000_000 <= -d && d * t@ == -((-d) * t@) && (-d) * t@ >= 0)
            by (nonlinear_arith)
            requires
                d < 0,
                0 <= t@ <= 1_000_000,
        ;
    }
}

/// Dividing a multiple of `d` by `d` gives back the other factor.
pub proof fn lemma_quotient_of_multiple(k: int, d: int)
    requires
        d != 0,
    ensures
        quotient(k * d, d) == k,
{
    let a = if k >= 0 { k } else { -k };
    let b = if d > 0 { d } else { -d };
    assert((a * b) / b == a && a * b >= 0 && (a > 0 ==> a * b > 0)) by (nonlinear_arith)
        requires
            a >= 0,
            b > 0,
    ;
    assert(k * d == (if (k >= 0) == (d > 0) { a * b } else { -(a * b) })) by (nonlinear_arith)
        requires
            a == (if k >= 0 { k } else { -k }),
            b == (if d > 0 { d } else { -d }),
    ;
}

impl core::ops::Add for Fixed {
    type Output = Fixed;

    /// Saturating sum.
    fn add(self, rhs: Fixed) -> (r: Fixed) {
        Fixed::clamp(self.raw as i128 + rhs.raw as i128)
    }
}

impl vstd::std_specs::ops::AddSpecImpl for Fixed {
    open spec fn obeys_add_spec() -> bool {
        true
    }

    open spec fn add_req(self, rhs: Fixed) -> bool {
        true
    }

    open spec fn add_spec(self, rhs: Fixed) -> Fixed {
        self.spec_add(rhs)
    }
}

impl core::ops::Sub for Fixed {
    type Output = Fixed;

    /// Saturating difference.
    fn sub(self, rhs: Fixed) -> (r: Fixed) {
        Fixed::clamp(self.raw as i128 - rhs.raw as i128)
    }
}

impl vstd::std_specs::ops::SubSpecImpl for Fixed {
    open spec fn obeys_sub_spec() -> bool {
        true
    }

    open spec fn sub_req(self, rhs: Fixed) -> bool {
        true
    }

    open spec fn sub_spec(self, rhs: Fixed) -> Fixed {
        self.spec_sub(rhs)
    }
}

impl core::ops::Neg for Fixed {
    type Output = Fixed;

    /// Saturating negation.
    fn neg(self) -> (r: Fixed) {
        Fixed::clamp(-(self.raw as i128))
    }
}

impl vstd::std_specs::ops::NegSpecImpl for Fixed {
    open spec fn obeys_neg_spec() -> bool {
        true
    }

    open spec fn neg_req(self) -> bool {
        true
    }

    open spec fn neg_spec(self) -> Fixed {
        self.spec_neg()
    }
}

impl core::ops::Mul for Fixed {
    type Output = Fixed;

    /// Saturating product, rounded toward zero.
    fn mul(self, rhs: Fixed) -> (r: Fixed) {
        let a: i128 = self.raw as i128;
        let b: i128 = rhs.raw as i128;
        assert(-0x4000_0000_0000_0000_0000_0000_0000_0000 <= a * b
            <= 0x4000_0000_0000_0000_0000_0000_0000_0000) by (nonlinear_arith)
            requires
                -0x8000_0000_0000_0000 <= a <= 0x8000_0000_0000_0000,
                -0x8000_0000_0000_0000 <= b <= 0x8000_0000_0000_0000,
        ;
        Fixed::clamp(divide(a * b, SCALE as i128))
    }
}

impl vstd::std_specs::ops::MulSpecImpl for Fixed {
    open spec fn obeys_mul_spec() -> bool {
        true
    }

    open spec fn mul_req(self, rhs: Fixed) -> bool {
        true
    }

    open spec fn mul_spec(self, rhs: Fixed) -> Fixed {
        self.spec_mul(rhs)
    }
}

impl core::ops::Div for Fixed {
    type Output = Fixed;

    /// Saturating ratio, rounded toward zero; total on a zero divisor.
    fn div(self, rhs: Fixed) -> (r: Fixed) {
        if rhs.raw != 0 {
            let a: i128 = self.raw as i128;
            let scale: i128 = SCALE as i128;
            Fixed::clamp(divide(a * scale, rhs.raw as i128))
        } else if self.raw > 0 {
            Fixed { raw: i64::MAX }
        } else if self.raw < 0 {
            Fixed { raw: i64::MIN }
        } else {
            Fixed { raw: 0 }
        }
    }
}

impl vstd::std_specs::ops::DivSpecImpl for Fixed {
    open spec fn obeys_div_spec() -> bool {
        true
    }

    open spec fn div_req(self, rhs: Fixed) -> bool {
        true
    }

    open spec fn div_spec(self, rhs: Fixed) -> Fixed {
        self.spec_div(rhs)
    }
}

} // verus!
