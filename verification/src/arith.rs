use vstd::prelude::*;

verus! {

/// Mathematical meaning of a saturating operation: the exact result clamped
/// into `[lo, hi]`.
pub open spec fn clamp_int(v: int, lo: int, hi: int) -> int {
    if v < lo {
        lo
    } else if v > hi {
        hi
    } else {
        v
    }
}

/// `i32::saturating_add`.
pub fn sat_add_i32(a: i32, b: i32) -> (r: i32)
    ensures
        r == clamp_int(a + b, i32::MIN as int, i32::MAX as int),
{
    let s: i64 = a as i64 + b as i64;
    if s > i32::MAX as i64 {
        i32::MAX
    } else if s < i32::MIN as i64 {
        i32::MIN
    } else {
        s as i32
    }
}

/// `i32::saturating_sub`.
pub fn sat_sub_i32(a: i32, b: i32) -> (r: i32)
    ensures
        r == clamp_int(a - b, i32::MIN as int, i32::MAX as int),
{
    let s: i64 = a as i64 - b as i64;
    if s > i32::MAX as i64 {
        i32::MAX
    } else if s < i32::MIN as i64 {
        i32::MIN
    } else {
        s as i32
    }
}

/// `i32::saturating_mul`.
pub fn sat_mul_i32(a: i32, b: i32) -> (r: i32)
    ensures
        r == clamp_int(a * b, i32::MIN as int, i32::MAX as int),
{
    assert(-0x4000_0000_0000_0000 <= a * b <= 0x4000_0000_0000_0000) by (nonlinear_arith)
        requires
            i32::MIN <= a <= i32::MAX,
            i32::MIN <= b <= i32::MAX,
    ;
    let p: i64 = a as i64 * b as i64;
    if p > i32::MAX as i64 {
        i32::MAX
    } else if p < i32::MIN as i64 {
        i32::MIN
    } else {
        p as i32
    }
}

/// `usize::saturating_mul`.
pub fn sat_mul_usize(a: usize, b: usize) -> (r: usize)
    ensures
        r == clamp_int(a * b, 0, usize::MAX as int),
{
    match a.checked_mul(b) {
        Some(p) => p,
        None => {
            assert(a * b >= 0) by (nonlinear_arith)
                requires
                    a >= 0,
                    b >= 0,
            ;
            usize::MAX
        },
    }
}

/// `u64::saturating_mul`.
pub fn sat_mul_u64(a: u64, b: u64) -> (r: u64)
    ensures
        r == clamp_int(a * b, 0, u64::MAX as int),
{
    match a.checked_mul(b) {
        Some(p) => p,
        None => {
            assert(a * b >= 0) by (nonlinear_arith)
                requires
                    a >= 0,
                    b >= 0,
            ;
            u64::MAX
        },
    }
}

/// `i32::div_euclid` for a positive divisor.
pub fn div_euclid_i32(a: i32, d: i32) -> (q: i32)
    requires
        d > 0,
    ensures
        q as int == a as int / d as int,
{
    if a >= 0 {
        a / d
    } else {
        let n: i64 = -(a as i64);
        let dd: i64 = d as i64;
        let q: i64 = (n + dd - 1) / dd;
        proof {
            lemma_neg_floor_div(a as int, d as int, n as int, q as int);
        }
        (-q) as i32
    }
}

/// Floor division of a negative dividend through a ceiling division of its
/// magnitude.
proof fn lemma_neg_floor_div(a: int, d: int, n: int, q: int)
    requires
        d > 0,
        a < 0,
        n == -a,
        q == (n + d - 1) / d,
    ensures
        a / d == -q,
        a % d == a + q * d,
        a <= -q <= 0,
{
    let r = (n + d - 1) % d;
    assert(n + d - 1 == q * d + r && 0 <= r < d) by (nonlinear_arith)
        requires
            d > 0,
            q == (n + d - 1) / d,
            r == (n + d - 1) % d,
    ;
    let m = a + q * d;
    assert(0 <= m < d);
    assert(a == (-q) * d + m) by (nonlinear_arith)
        requires
            m == a + q * d,
    ;
    vstd::arithmetic::div_mod::lemma_fundamental_div_mod_converse(a, d, -q, m);
    assert(q >= 0) by (nonlinear_arith)
        requires
            d > 0,
            n + d - 1 >= 0,
            q == (n + d - 1) / d,
    ;
    if q >= 1 {
        assert(q * d >= q + d - 1) by (nonlinear_arith)
            requires
                d >= 1,
                q >= 1,
        ;
    }
}

/// `i32::rem_euclid` for a positive divisor.
pub fn rem_euclid_i32(a: i32, d: i32) -> (r: i32)
    requires
        d > 0,
    ensures
        r as int == a as int % d as int,
        0 <= r < d,
{
    let q = div_euclid_i32(a, d);
    proof {
        assert(a as int == (a as int / d as int) * d as int + (a as int % d as int)) by (nonlinear_arith)
            requires
                d > 0,
        ;
        assert(0 <= (a as int % d as int) < d as int);
    }
    let r: i64 = a as i64 - (q as i64) * (d as i64);
    r as i32
}

} // verus!
