//! Fixed-point scalar arithmetic: the numeric ground the whole core stands on.
//!
//! A `Scalar` holds `raw` fixed-point steps of size `1 / SCALE`; every
//! operation is total, saturating at the representable extremes, and each
//! executable operation is pinned exactly to a mirror spec function over `int`.

use vstd::prelude::*;

verus! {

/// Fixed-point steps per whole unit: a `Scalar` with `raw == SCALE` is one.
pub const SCALE: i64 = 65536;

/// Magnitude of an integer.
pub open spec fn iabs(x: int) -> int {
    if x >= 0 { x } else { -x }
}

/// Saturation of an unbounded integer into the range of `i64`.
pub open spec fn clamp_wide(x: int) -> int {
    if x > i64::MAX as int {
        i64::MAX as int
    } else if x < i64::MIN as int {
        i64::MIN as int
    } else {
        x
    }
}

/// Division truncating toward zero, as machine division does.
pub open spec fn div_trunc(p: int, q: int) -> int
    recommends
        q != 0,
{
    let m = iabs(p) / iabs(q);
    if (p >= 0) == (q >= 0) {
        m
    } else {
        -m
    }
}

pub open spec fn s_add(a: int, b: int) -> int {
    clamp_wide(a + b)
}

pub open spec fn s_sub(a: int, b: int) -> int {
    clamp_wide(a - b)
}

pub open spec fn s_neg(a: int) -> int {
    clamp_wide(-a)
}

pub open spec fn s_mul(a: int, b: int) -> int {
    clamp_wide(div_trunc(a * b, SCALE as int))
}

pub open spec fn s_div(a: int, b: int) -> int
    recommends
        b != 0,
{
    clamp_wide(div_trunc(a * SCALE as int, b))
}

/// `r` is the integer square root (floor) of `n`.
pub open spec fn is_sqrt_floor(n: int, r: int) -> bool {
    0 <= r && r * r <= n && n < (r + 1) * (r + 1)
}

/// The (unique) fixed-point floor square root of a non-negative scalar.
pub open spec fn sqrt_of(a: Scalar) -> Scalar {
    choose|r: Scalar| 0 <= r.v() && is_sqrt_floor(a.v() * SCALE, r.v())
}

pub proof fn lemma_sqrt_unique(a: Scalar, r: Scalar)
    requires
        0 <= r.v(),
        is_sqrt_floor(a.v() * SCALE, r.v()),
    ensures
        r == sqrt_of(a),
{
    let w = sqrt_of(a);
    assert(0 <= w.v() && is_sqrt_floor(a.v() * SCALE, w.v()));
    assert(r.v() == w.v()) by (nonlinear_arith)
        requires
            0 <= r.v(),
            0 <= w.v(),
            r.v() * r.v() <= a.v() * SCALE,
            a.v() * SCALE < (r.v() + 1) * (r.v() + 1),
            w.v() * w.v() <= a.v() * SCALE,
            a.v() * SCALE < (w.v() + 1) * (w.v() + 1),
    ;
}

/// The magnitude of a scalar, saturated.
pub open spec fn sc_abs(a: Scalar) -> Scalar {
    sc(iabs(a.v()))
}

/// Every non-negative integer has a floor square root.
pub proof fn lemma_sqrt_exists(n: int)
    requires
        0 <= n,
    ensures
        exists|r: int| #[trigger] is_sqrt_floor(n, r),
    decreases n,
{
    if n == 0 {
        assert(is_sqrt_floor(0, 0)) by (nonlinear_arith);
    } else {
        lemma_sqrt_exists(n - 1);
        let r = choose|r: int| #[trigger] is_sqrt_floor(n - 1, r);
        if (r + 1) * (r + 1) <= n {
            assert(is_sqrt_floor(n, r + 1)) by (nonlinear_arith)
                requires
                    0 <= r,
                    r * r <= n - 1,
                    n - 1 < (r + 1) * (r + 1),
                    (r + 1) * (r + 1) <= n,
            ;
        } else {
            assert(is_sqrt_floor(n, r));
        }
    }
}

/// The named square root of a non-negative scalar is the floor square root.
pub proof fn lemma_sqrt_of_nonneg(a: Scalar)
    requires
        0 <= a.v(),
    ensures
        0 <= sqrt_of(a).v(),
        is_sqrt_floor(a.v() * SCALE, sqrt_of(a).v()),
{
    let n = a.v() * SCALE;
    assert(0 <= a.v() * SCALE) by (nonlinear_arith)
        requires
            0 <= a.v(),
    ;
    lemma_sqrt_exists(n);
    let r0 = choose|r: int| #[trigger] is_sqrt_floor(n, r);
    assert(r0 < 0x10000000000) by (nonlinear_arith)
        requires
            0 <= r0,
            r0 * r0 <= a.v() * SCALE,
            a.v() <= i64::MAX,
    ;
    let w = Scalar { raw: r0 as i64 };
    assert(0 <= w.v() && is_sqrt_floor(a.v() * SCALE, w.v()));
    lemma_sqrt_unique(a, w);
}

/// Truncating division by a positive amount keeps order.
pub proof fn lemma_div_trunc_mono(p1: int, p2: int, q: int)
    requires
        p1 <= p2,
        0 < q,
    ensures
        div_trunc(p1, q) <= div_trunc(p2, q),
{
    if 0 <= p1 {
        vstd::arithmetic::div_mod::lemma_div_is_ordered(p1, p2, q);
    } else if p2 < 0 {
        vstd::arithmetic::div_mod::lemma_div_is_ordered(-p2, -p1, q);
    } else {
        assert(0 <= (-p1) / q && 0 <= p2 / q) by (nonlinear_arith)
            requires
                0 < -p1,
                0 <= p2,
                0 < q,
        ;
    }
}

/// Fixed-point division by a positive scalar keeps order.
pub proof fn lemma_sc_div_mono(a1: Scalar, a2: Scalar, b: Scalar)
    requires
        a1.v() <= a2.v(),
        0 < b.v(),
    ensures
        sc_div(a1, b).v() <= sc_div(a2, b).v(),
{
    lemma_div_trunc_mono(a1.v() * SCALE as int, a2.v() * SCALE as int, b.v());
}

pub proof fn lemma_sc_mul_nonneg(a: Scalar, b: Scalar)
    requires
        0 <= a.v(),
        0 <= b.v(),
    ensures
        0 <= sc_mul(a, b).v(),
{
    assert(0 <= div_trunc(a.v() * b.v(), SCALE as int)) by (nonlinear_arith)
        requires
            0 <= a.v(),
            0 <= b.v(),
    ;
}

pub proof fn lemma_sc_div_nonneg(a: Scalar, b: Scalar)
    requires
        0 <= a.v(),
        0 < b.v(),
    ensures
        0 <= sc_div(a, b).v(),
{
    assert(0 <= div_trunc(a.v() * SCALE as int, b.v())) by (nonlinear_arith)
        requires
            0 <= a.v(),
            0 < b.v(),
    ;
}

/// A quantity measured in fixed-point steps of `1 / SCALE`.
#[derive(Clone, Copy, PartialEq, Eq, PartialOrd, Ord, Structural, Debug)]
pub struct Scalar {
    pub raw: i64,
}

/// The scalar holding `x` steps, saturated into range.
pub open spec fn sc(x: int) -> Scalar {
    Scalar { raw: clamp_wide(x) as i64 }
}

pub open spec fn sc_add(a: Scalar, b: Scalar) -> Scalar {
    sc(a.v() + b.v())
}

pub open spec fn sc_sub(a: Scalar, b: Scalar) -> Scalar {
    sc(a.v() - b.v())
}

pub open spec fn sc_neg(a: Scalar) -> Scalar {
    sc(-a.v())
}

pub open spec fn sc_mul(a: Scalar, b: Scalar) -> Scalar {
    sc(div_trunc(a.v() * b.v(), SCALE as int))
}

pub open spec fn sc_div(a: Scalar, b: Scalar) -> Scalar
    recommends
        b.v() != 0,
{
    sc(div_trunc(a.v() * SCALE as int, b.v()))
}

pub open spec fn sc_min(a: Scalar, b: Scalar) -> Scalar {
    if a.v() <= b.v() {
        a
    } else {
        b
    }
}

pub open spec fn sc_max(a: Scalar, b: Scalar) -> Scalar {
    if a.v() >= b.v() {
        a
    } else {
        b
    }
}

fn clamp64(x: i128) -> (r: i64)
    ensures
        r as int == clamp_wide(x as int),
{
    if x > i64::MAX as i128 {
        i64::MAX
    } else if x < i64::MIN as i128 {
        i64::MIN
    } else {
        x as i64
    }
}

fn mag_div(p: i128, q: i128) -> (r: i128)
    requires
        q != 0,
        p > i128::MIN,
        q > i128::MIN,
    ensures
        r as int == div_trunc(p as int, q as int),
        iabs(r as int) <= iabs(p as int),
{
    let pm: u128 = if p >= 0 {
        p as u128
    } else {
        (-p) as u128
    };
    let qm: u128 = if q >= 0 {
        q as u128
    } else {
        (-q) as u128
    };
    assert(pm as int == iabs(p as int));
    assert(qm as int == iabs(q as int));
    let m: u128 = pm / qm;
    assert(m <= pm) by {
        vstd::arithmetic::div_mod::lemma_div_is_ordered_by_denominator(pm as int, 1, qm as int);
    };
    let md: i128 = m as i128;
    if (p >= 0) == (q >= 0) {
        md
    } else {
        -md
    }
}

impl Scalar {
    /// The value `raw / SCALE` as an unbounded mathematical quantity of steps.
    pub open spec fn v(self) -> int {
        self.raw as int
    }

    pub fn from_raw(raw: i64) -> (r: Scalar)
        ensures
            r.raw == raw,
    {
        Scalar { raw }
    }

    /// The whole number `n`, saturated.
    pub fn from_int(n: i64) -> (r: Scalar)
        ensures
            r.v() == clamp_wide((n as int) * (SCALE as int)),
            -140737488355328 <= n <= 140737488355327 ==> r.v() == n * SCALE,
    {
        proof {
            assert(i128::MIN < (n as int) * (SCALE as int)
                && (n as int) * (SCALE as int) < i128::MAX) by (nonlinear_arith)
                requires
                    i64::MIN <= n <= i64::MAX,
            ;
        }
        let p: i128 = (n as i128) * (SCALE as i128);
        Scalar { raw: clamp64(p) }
    }

    pub fn zero() -> (r: Scalar)
        ensures
            r.v() == 0,
    {
        Scalar { raw: 0 }
    }

    pub fn one() -> (r: Scalar)
        ensures
            r.v() == SCALE,
    {
        Scalar { raw: SCALE }
    }

    pub fn plus(self, o: Scalar) -> (r: Scalar)
        ensures
            r == sc_add(self, o),
            r.v() == s_add(self.v(), o.v()),
    {
        let s: i128 = self.raw as i128 + o.raw as i128;
        Scalar { raw: clamp64(s) }
    }

    pub fn minus(self, o: Scalar) -> (r: Scalar)
        ensures
            r == sc_sub(self, o),
            r.v() == s_sub(self.v(), o.v()),
    {
        let s: i128 = self.raw as i128 - o.raw as i128;
        Scalar { raw: clamp64(s) }
    }

    pub fn neg(self) -> (r: Scalar)
        ensures
            r == sc_neg(self),
            r.v() == s_neg(self.v()),
    {
        let s: i128 = -(self.raw as i128);
        Scalar { raw: clamp64(s) }
    }

    pub fn times(self, o: Scalar) -> (r: Scalar)
        ensures
            r == sc_mul(self, o),
            r.v() == s_mul(self.v(), o.v()),
    {
        proof {
            assert(i128::MIN < (self.raw as int) * (o.raw as int)
                && (self.raw as int) * (o.raw as int) < i128::MAX) by (nonlinear_arith)
                requires
                    i64::MIN <= self.raw <= i64::MAX,
                    i64::MIN <= o.raw <= i64::MAX,
            ;
        }
        let p: i128 = (self.raw as i128) * (o.raw as i128);
        let q = mag_div(p, SCALE as i128);
        Scalar { raw: clamp64(q) }
    }

    pub fn over(self, o: Scalar) -> (r: Scalar)
        requires
            o.v() != 0,
        ensures
            r == sc_div(self, o),
            r.v() == s_div(self.v(), o.v()),
    {
        proof {
            assert(i128::MIN < (self.raw as int) * SCALE
                && (self.raw as int) * SCALE < i128::MAX) by (nonlinear_arith)
                requires
                    i64::MIN <= self.raw <= i64::MAX,
            ;
        }
        let p: i128 = (self.raw as i128) * (SCALE as i128);
        let q = mag_div(p, o.raw as i128);
        Scalar { raw: clamp64(q) }
    }

    /// Square root in fixed point: the floor of `sqrt(raw * SCALE)` steps,
    /// so that the square root of one is one.
    pub fn sqrt_s(self) -> (r: Scalar)
        requires
            0 <= self.v(),
        ensures
            0 <= r.v(),
            is_sqrt_floor(self.v() * SCALE, r.v()),
    {
        let n: u128 = (self.raw as u128) * (SCALE as u128);
        proof {
            assert(n as int == self.raw as int * SCALE) by (nonlinear_arith)
                requires
                    0 <= self.raw <= i64::MAX,
                    n == (self.raw as u128) * (SCALE as u128),
            ;
            assert(self.raw as int * SCALE < 0x80000000000000000000u128) by (nonlinear_arith)
                requires
                    0 <= self.raw <= i64::MAX,
            ;
        }
        let root = isqrt(n);
        proof {
            assert(root < 0x10000000000u128) by (nonlinear_arith)
                requires
                    root * root <= n,
                    n < 0x80000000000000000000u128,
            ;
        }
        Scalar { raw: root as i64 }
    }

    pub fn lt(self, o: Scalar) -> (r: bool)
        ensures
            r == (self.v() < o.v()),
    {
        self.raw < o.raw
    }

    pub fn le(self, o: Scalar) -> (r: bool)
        ensures
            r == (self.v() <= o.v()),
    {
        self.raw <= o.raw
    }

    pub fn min_s(self, o: Scalar) -> (r: Scalar)
        ensures
            r == sc_min(self, o),
    {
        if self.raw <= o.raw {
            self
        } else {
            o
        }
    }

    pub fn max_s(self, o: Scalar) -> (r: Scalar)
        ensures
            r == sc_max(self, o),
    {
        if self.raw >= o.raw {
            self
        } else {
            o
        }
    }

    pub fn abs_s(self) -> (r: Scalar)
        ensures
            r.v() == clamp_wide(iabs(self.v())),
    {
        if self.raw < 0 {
            self.neg()
        } else {
            self
        }
    }
}

fn isqrt(n: u128) -> (r: u128)
    requires
        n < 0x80000000000000000000u128,
    ensures
        r * r <= n,
        n < (r + 1) * (r + 1),
{
    if n == 0 {
        return 0;
    }
    let mut lo: u128 = 0;
    let mut hi: u128 = 0x10000000000u128;
    proof {
        assert((0x10000000000u128 as int) * (0x10000000000u128 as int) > n as int)
            by (nonlinear_arith)
            requires
                n < 0x80000000000000000000u128,
        ;
    }
    while lo + 1 < hi
        invariant
            lo < hi,
            hi <= 0x10000000000u128,
            lo * lo <= n,
            n < hi * hi,
        decreases hi - lo,
    {
        let mid: u128 = lo + (hi - lo) / 2;
        proof {
            assert(mid * mid < 0x80000000000000000000u128 * 2) by (nonlinear_arith)
                requires
                    mid < 0x10000000000u128,
            ;
        }
        if mid * mid <= n {
            lo = mid;
        } else {
            hi = mid;
        }
    }
    lo
}

} // verus!
