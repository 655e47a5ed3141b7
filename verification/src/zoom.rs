//! Zoom factors, held as exact fractions so that a step in followed by a
//! step out comes back to the very same factor.

use vstd::arithmetic::div_mod::lemma_fundamental_div_mod_converse;
use vstd::prelude::*;

verus! {

/// The factor below which stepping out does not go, in tenths.
pub const MIN_ZOOM_TENTHS: u64 = 5;

/// The integer nearest to `a / b`, a half going up.
pub open spec fn rounded_div(a: int, b: int) -> int {
    (2 * a + b) / (2 * b)
}

/// A zoom factor: the fraction `num / (10 * unit)`.
///
/// One step of zoom is a tenth, which is `unit` more or less in `num`.
/// The factor one is `num == 10 * unit`.
#[derive(Clone, Copy, Debug, PartialEq, Eq, Structural)]
pub struct Zoom {
    pub num: u64,
    pub unit: u32,
}

impl Zoom {
    /// A factor has a denominator: `unit` is not zero.
    pub open spec fn wf(self) -> bool {
        self.unit > 0
    }

    /// The factor is one.
    pub open spec fn is_one(self) -> bool {
        self.num == 10 * self.unit
    }

    /// The factor is at least the minimum that stepping out keeps to.
    pub open spec fn at_least_min(self) -> bool {
        self.num >= MIN_ZOOM_TENTHS * self.unit
    }

    /// One more step fits in the numerator.
    pub open spec fn can_step_in(self) -> bool {
        self.num + self.unit <= u64::MAX
    }

    /// The factor one.
    pub open spec fn spec_one() -> Zoom {
        Zoom { num: 10, unit: 1 }
    }

    /// The factor `n / d`.
    pub open spec fn spec_from_ratio(n: u32, d: u32) -> Zoom {
        Zoom { num: (10 * n) as u64, unit: d }
    }

    /// The factor a tenth above this one.
    pub open spec fn spec_stepped_in(self) -> Zoom {
        Zoom { num: (self.num + self.unit) as u64, unit: self.unit }
    }

    /// The factor a tenth below this one, or the minimum where that is more.
    pub open spec fn spec_stepped_out(self) -> Zoom {
        if self.num - self.unit >= MIN_ZOOM_TENTHS * self.unit {
            Zoom { num: (self.num - self.unit) as u64, unit: self.unit }
        } else {
            Zoom { num: (MIN_ZOOM_TENTHS * self.unit) as u64, unit: self.unit }
        }
    }

    /// `dim` times the factor, rounded to the nearest integer (a half goes
    /// up) and held to what a `u32` can take.
    pub open spec fn scale_dim(self, dim: int) -> int {
        let exact = rounded_div(dim * self.num, 10 * self.unit);
        if exact > u32::MAX {
            u32::MAX as int
        } else {
            exact
        }
    }

    #[verifier::when_used_as_spec(spec_one)]
    pub fn one() -> (z: Zoom)
        ensures
            z == Zoom::spec_one(),
            z.wf(),
            z.at_least_min(),
    {
        Zoom { num: 10, unit: 1 }
    }

    #[verifier::when_used_as_spec(spec_from_ratio)]
    pub fn from_ratio(n: u32, d: u32) -> (z: Zoom)
        requires
            d > 0,
        ensures
            z == Zoom::spec_from_ratio(n, d),
            z.wf(),
            z.num == 10 * n,
    {
        Zoom { num: 10 * (n as u64), unit: d }
    }

    /// Whether `stepped_in` may be called.
    pub fn has_room(self) -> (b: bool)
        ensures
            b == self.can_step_in(),
    {
        self.num <= u64::MAX - (self.unit as u64)
    }

    #[verifier::when_used_as_spec(spec_stepped_in)]
    pub fn stepped_in(self) -> (z: Zoom)
        requires
            self.can_step_in(),
        ensures
            z == self.spec_stepped_in(),
            z.num == self.num + self.unit,
            z.unit == self.unit,
    {
        Zoom { num: self.num + (self.unit as u64), unit: self.unit }
    }

    #[verifier::when_used_as_spec(spec_stepped_out)]
    pub fn stepped_out(self) -> (z: Zoom)
        ensures
            z == self.spec_stepped_out(),
            z.unit == self.unit,
            self.wf() ==> z.at_least_min(),
    {
        let unit = self.unit as u64;
        let floor = MIN_ZOOM_TENTHS * unit;
        if self.num >= unit && self.num - unit >= floor {
            Zoom { num: self.num - unit, unit: self.unit }
        } else {
            Zoom { num: floor, unit: self.unit }
        }
    }

    /// Scales one dimension by the factor.
    pub fn apply(self, dim: u32) -> (scaled: u32)
        requires
            self.wf(),
        ensures
            scaled == self.scale_dim(dim as int),
            self.is_one() ==> scaled == dim,
    {
        proof {
            if self.is_one() {
                factor_one_keeps_dims(self, dim);
            }
        }
        assert(0 <= dim * self.num <= 0xffff_ffff * 0xffff_ffff_ffff_ffff) by (nonlinear_arith)
            requires
                0 <= dim <= 0xffff_ffff,
                0 <= self.num <= 0xffff_ffff_ffff_ffff,
        ;
        let product = (dim as u128) * (self.num as u128);
        let den = 10 * (self.unit as u128);
        let exact = (2 * product + den) / (2 * den);
        if exact > u32::MAX as u128 {
            u32::MAX
        } else {
            exact as u32
        }
    }
}

/// `rounded_div(a, b)` is within a half of `a / b`.
pub proof fn rounded_div_is_nearest(a: int, b: int)
    requires
        b > 0,
    ensures
        2 * b * rounded_div(a, b) - b <= 2 * a < 2 * b * rounded_div(a, b) + b,
{
    let r = rounded_div(a, b);
    let x = 2 * a + b;
    let d = 2 * b;
    vstd::arithmetic::div_mod::lemma_fundamental_div_mod(x, d);
    vstd::arithmetic::div_mod::lemma_mod_bound(x, d);
    assert(d * r == 2 * b * r) by (nonlinear_arith)
        requires
            d == 2 * b,
    ;
}

/// The only integer within a half of `a / b`, a half counting to the integer
/// above, is `rounded_div(a, b)`.
pub proof fn nearest_is_rounded_div(a: int, b: int, r: int)
    requires
        b > 0,
        2 * b * r - b <= 2 * a < 2 * b * r + b,
    ensures
        rounded_div(a, b) == r,
{
    assert(2 * a + b == r * (2 * b) + (2 * a + b - 2 * b * r)) by (nonlinear_arith);
    lemma_fundamental_div_mod_converse(2 * a + b, 2 * b, r, 2 * a + b - 2 * b * r);
}

/// `rounded_div(a, b)` is at most `k` where `a / b` is.
pub proof fn rounded_div_upper(a: int, b: int, k: int)
    requires
        b > 0,
        a <= k * b,
    ensures
        rounded_div(a, b) <= k,
{
    let r = rounded_div(a, b);
    rounded_div_is_nearest(a, b);
    if r >= k + 1 {
        assert(2 * b * r >= 2 * b * (k + 1)) by (nonlinear_arith)
            requires
                r >= k + 1,
                b > 0,
        ;
        assert(2 * b * (k + 1) == 2 * (k * b) + 2 * b) by (nonlinear_arith);
    }
}

/// `rounded_div(a, b)` is not negative where `a` is not.
pub proof fn rounded_div_lower(a: int, b: int)
    requires
        b > 0,
        a >= 0,
    ensures
        rounded_div(a, b) >= 0,
{
    let r = rounded_div(a, b);
    rounded_div_is_nearest(a, b);
    if r <= -1 {
        assert(2 * b * r <= -2 * b) by (nonlinear_arith)
            requires
                r <= -1,
                b > 0,
        ;
    }
}

/// A whole multiple of the denominator divides out exactly.
pub proof fn rounded_div_of_multiple(k: int, b: int)
    requires
        b > 0,
    ensures
        rounded_div(k * b, b) == k,
{
    assert(2 * (k * b) + b == k * (2 * b) + b) by (nonlinear_arith);
    lemma_fundamental_div_mod_converse(2 * (k * b) + b, 2 * b, k, b);
}

/// At the factor one every dimension stays what it was.
pub proof fn factor_one_keeps_dims(z: Zoom, dim: u32)
    requires
        z.wf(),
        z.is_one(),
    ensures
        z.scale_dim(dim as int) == dim,
{
    assert(dim * z.num == dim * (10 * z.unit)) by (nonlinear_arith)
        requires
            z.num == 10 * z.unit,
    ;
    rounded_div_of_multiple(dim as int, 10 * z.unit);
}

/// The factor `n / d` takes `d` to `n`.
pub proof fn ratio_maps_denominator(n: u32, d: u32)
    requires
        d > 0,
    ensures
        Zoom::spec_from_ratio(n, d).scale_dim(d as int) == n,
{
    let z = Zoom::spec_from_ratio(n, d);
    assert(z.num == 10 * n);
    assert(d * z.num == n * (10 * z.unit)) by (nonlinear_arith)
        requires
            z.num == 10 * n,
            z.unit == d,
    ;
    rounded_div_of_multiple(n as int, 10 * z.unit);
}

/// One step in and one step out again come back to the factor one started
/// from, as long as that factor is not below the minimum.
pub proof fn step_in_then_out(z: Zoom)
    requires
        z.wf(),
        z.at_least_min(),
        z.can_step_in(),
    ensures
        z.spec_stepped_in().spec_stepped_out() == z,
{
}

/// One step out and one step in again come back to the factor one started
/// from, as long as the step out did not meet the minimum.
pub proof fn step_out_then_in(z: Zoom)
    requires
        z.wf(),
        z.num - z.unit >= MIN_ZOOM_TENTHS * z.unit,
    ensures
        z.spec_stepped_out().spec_stepped_in() == z,
{
}

} // verus!
