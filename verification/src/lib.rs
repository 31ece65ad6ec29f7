//! Linear interpolation over an exact rational parameter.
//!
//! The interpolation parameter `t` is a rational `t_num / t_den` with
//! `t_den > 0`, and a result is reported as an exact numerator over the
//! denominator `t_den`, so every identity here is exact: no rounding is
//! involved. Two classic formulations of linear interpolation are provided,
//! the weighted-sum form `(1 - t)*a + t*b` and the fused form
//! `a + (b - a)*t`; in exact arithmetic they agree, and both are proved
//! against the same specification. The floating-point front end, where the
//! two forms genuinely differ by rounding, lives outside the verified
//! library.

use vstd::prelude::*;

verus! {

/// Exact value of linear interpolation between `a` and `b` at the rational
/// parameter `t_num / t_den`, given as a numerator over the denominator
/// `t_den`: this is `((1 - t)*a + t*b) * t_den` computed without division.
pub open spec fn lerp_num(a: int, b: int, t_num: int, t_den: int) -> int {
    (t_den - t_num) * a + t_num * b
}

/// Weighted-sum form of linear interpolation: `(1 - t)*a + t*b`, returned as
/// an exact numerator over the denominator `t_den`. Any rational `t` is
/// accepted, inside `[0, 1]` or outside it (extrapolation).
pub fn lerp_weighted(a: i32, b: i32, t_num: i32, t_den: i32) -> (r: i128)
    requires
        t_den > 0,
    ensures
        r == lerp_num(a as int, b as int, t_num as int, t_den as int),
{
    let ai: i128 = a as i128;
    let bi: i128 = b as i128;
    let tn: i128 = t_num as i128;
    let td: i128 = t_den as i128;
    proof {
        assert((td - tn) * ai <= 0x10000000000000000000 && (td - tn) * ai
            >= -0x10000000000000000000 && tn * bi <= 0x10000000000000000000 && tn * bi
            >= -0x10000000000000000000) by (nonlinear_arith)
            requires
                -0x100000000 <= td - tn <= 0x100000000,
                -0x80000000 <= ai <= 0x80000000,
                -0x80000000 <= tn <= 0x80000000,
                -0x80000000 <= bi <= 0x80000000,
        ;
    }
    (td - tn) * ai + tn * bi
}

/// Fused form of linear interpolation: `a + (b - a)*t`, returned as an exact
/// numerator over the denominator `t_den`. In exact arithmetic this agrees
/// with the weighted-sum form, so both are proved against `lerp_num`; only
/// floating-point rounding makes the two formulations differ.
pub fn lerp_fused(a: i32, b: i32, t_num: i32, t_den: i32) -> (r: i128)
    requires
        t_den > 0,
    ensures
        r == lerp_num(a as int, b as int, t_num as int, t_den as int),
{
    let ai: i128 = a as i128;
    let bi: i128 = b as i128;
    let tn: i128 = t_num as i128;
    let td: i128 = t_den as i128;
    proof {
        assert(ai * td <= 0x10000000000000000000 && ai * td >= -0x10000000000000000000 && (bi
            - ai) * tn <= 0x10000000000000000000 && (bi - ai) * tn
            >= -0x10000000000000000000) by (nonlinear_arith)
            requires
                -0x80000000 <= ai <= 0x80000000,
                -0x80000000 <= bi <= 0x80000000,
                -0x80000000 <= tn <= 0x80000000,
                0 < td <= 0x80000000,
        ;
        lemma_forms_agree(ai as int, bi as int, tn as int, td as int);
    }
    ai * td + (bi - ai) * tn
}

/// The two classic formulations of linear interpolation, the fused form
/// `a + (b - a)*t` and the weighted-sum form `(1 - t)*a + t*b`, are one and
/// the same function of exact numbers.
pub proof fn lemma_forms_agree(a: int, b: int, t_num: int, t_den: int)
    ensures
        a * t_den + (b - a) * t_num == lerp_num(a, b, t_num, t_den),
{
    assert(a * t_den + (b - a) * t_num == (t_den - t_num) * a + t_num * b) by (nonlinear_arith);
}

/// At the ends of the parameter range the interpolation returns the
/// endpoints exactly: at `t = 0` the result is `a` (numerator `t_den * a`
/// over `t_den`) and at `t = 1` it is `b` (numerator `t_den * b` over
/// `t_den`).
pub proof fn lemma_lerp_endpoints(a: int, b: int, t_den: int)
    requires
        t_den > 0,
    ensures
        lerp_num(a, b, 0, t_den) == t_den * a,
        lerp_num(a, b, t_den, t_den) == t_den * b,
{
    assert((t_den - 0) * a + 0 * b == t_den * a) by (nonlinear_arith);
    assert((t_den - t_den) * a + t_den * b == t_den * b) by (nonlinear_arith);
}

/// At `t = 1/2` the interpolation returns the exact midpoint: the numerator
/// is `a + b` over the denominator `2`.
pub proof fn lemma_lerp_midpoint(a: int, b: int)
    ensures
        lerp_num(a, b, 1, 2) == a + b,
{
}

/// Linear interpolation is monotonic in the parameter: as `t` grows, the
/// result moves towards `b` and never back. Exactly: for `t1 <= t2` over a
/// common positive denominator, the result at `t1` is at most the result at
/// `t2` when `a <= b`, and at least it when `b <= a`.
pub proof fn lemma_lerp_monotonic(a: int, b: int, t1: int, t2: int, t_den: int)
    requires
        t_den > 0,
        t1 <= t2,
    ensures
        a <= b ==> lerp_num(a, b, t1, t_den) <= lerp_num(a, b, t2, t_den),
        b <= a ==> lerp_num(a, b, t2, t_den) <= lerp_num(a, b, t1, t_den),
{
    assert((a <= b ==> (t_den - t1) * a + t1 * b <= (t_den - t2) * a + t2 * b) && (b <= a ==> (
    t_den - t2) * a + t2 * b <= (t_den - t1) * a + t1 * b)) by (nonlinear_arith)
        requires
            t1 <= t2,
    ;
}

/// Interpolation through a caller-supplied easing function: the parameter
/// `t_num / t_den` is first remapped by `func` to another rational, and the
/// interpolation is then taken at the remapped parameter. The contract is the
/// composition identity itself: the result is exactly
/// `lerp(a, b, func(t))`, as a numerator (`r.0`) over the denominator that
/// `func` returned (`r.1`). No shape is demanded of `func` beyond a positive
/// denominator: whatever curve it draws is interpolated along faithfully.
pub fn interpolate_custom<F: Fn(i32, i32) -> (i32, i32)>(
    a: i32,
    b: i32,
    t_num: i32,
    t_den: i32,
    func: F,
) -> (r: (i128, i32))
    requires
        t_den > 0,
        call_requires(func, (t_num, t_den)),
        forall|en: i32, ed: i32| call_ensures(func, (t_num, t_den), (en, ed)) ==> ed > 0,
    ensures
        exists|en: i32, ed: i32|
            #[trigger] call_ensures(func, (t_num, t_den), (en, ed)) && r.0 == lerp_num(
                a as int,
                b as int,
                en as int,
                ed as int,
            ) && r.1 == ed,
{
    let eased: (i32, i32) = func(t_num, t_den);
    let v: i128 = lerp_weighted(a, b, eased.0, eased.1);
    (v, eased.1)
}

} // verus!
