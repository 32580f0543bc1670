use vstd::prelude::*;

verus! {

/// The modular wrap of `v` into `[lo, hi)`: `lo + ((v - lo) mod (hi - lo))`,
/// with the floor-based modulus, so that it is also right for `v < lo`.
pub open spec fn wrap_spec(v: int, lo: int, hi: int) -> int
    recommends
        lo < hi,
{
    lo + (v - lo) % (hi - lo)
}

/// Wraps `value` into the half-open range `[min, max)`.
pub fn wrap_range(value: i64, min: i64, max: i64) -> (r: i64)
    requires
        min < max,
    ensures
        r == wrap_spec(value as int, min as int, max as int),
        min <= r < max,
{
    let range: i128 = max as i128 - min as i128;
    let shifted: i128 = value as i128 - min as i128;
    let m = shifted.checked_rem_euclid(range);
    match m {
        Some(k) => {
            proof {
                assert(0 <= k < range);
            }
            (min as i128 + k) as i64
        },
        None => {
            proof {
                assert(false);
            }
            min
        },
    }
}

/// `r` is the integer square root of `n`: the largest integer whose square
/// does not exceed `n`.
pub open spec fn is_floor_sqrt(r: int, n: int) -> bool {
    0 <= r && r * r <= n && n < (r + 1) * (r + 1)
}

/// Micro-units per pixel squared, times the quarter that halves the diagonal:
/// `(1000 * d / 2)^2 == 250_000 * d^2`.
pub const HALF_DIAGONAL_SCALE: u128 = 250_000;

/// The distance from the centre of a `w` by `h` viewport to a corner, in
/// micro-units, rounded down.
pub open spec fn half_diagonal_spec(w: int, h: int, r: int) -> bool {
    is_floor_sqrt(r, 250_000 * (w * w + h * h))
}

/// An integer square root is unique.
pub proof fn floor_sqrt_unique(a: int, b: int, n: int)
    requires
        is_floor_sqrt(a, n),
        is_floor_sqrt(b, n),
    ensures
        a == b,
{
    if a < b {
        assert((a + 1) * (a + 1) <= b * b) by (nonlinear_arith)
            requires
                0 <= a + 1 <= b,
        ;
    } else if b < a {
        assert((b + 1) * (b + 1) <= a * a) by (nonlinear_arith)
            requires
                0 <= b + 1 <= a,
        ;
    }
}

/// Bound on the half-diagonal of any viewport whose sides fit in `u32`.
pub const MAX_HALF_DIAGONAL: i64 = 0x400_0000_0000;

/// Integer square root, by bisection.
pub fn isqrt(n: u128) -> (r: u64)
    ensures
        is_floor_sqrt(r as int, n as int),
{
    let mut lo: u128 = 0;
    let mut hi: u128 = 0x1_0000_0000_0000_0000;
    assert(n < hi * hi) by (nonlinear_arith)
        requires
            hi == 0x1_0000_0000_0000_0000u128,
            n <= u128::MAX,
    ;
    while hi - lo > 1
        invariant
            lo < hi <= 0x1_0000_0000_0000_0000u128,
            lo * lo <= n,
            n < hi * hi,
        decreases hi - lo,
    {
        let mid: u128 = lo + (hi - lo) / 2;
        assert(mid * mid <= hi * hi) by (nonlinear_arith)
            requires
                mid < hi,
        ;
        assert(mid * mid < 0x1_0000_0000_0000_0000u128 * 0x1_0000_0000_0000_0000u128) by (nonlinear_arith)
            requires
                mid < 0x1_0000_0000_0000_0000u128,
        ;
        if mid * mid <= n {
            lo = mid;
        } else {
            hi = mid;
        }
    }
    assert(hi == lo + 1);
    lo as u64
}

/// The distance from the centre of a `w` by `h` viewport to a corner, in
/// micro-units, rounded down.
pub fn half_diagonal(w: u32, h: u32) -> (r: i64)
    ensures
        half_diagonal_spec(w as int, h as int, r as int),
        r < MAX_HALF_DIAGONAL,
        w > 0 || h > 0 ==> r >= 500,
{
    let w2: u128 = w as u128;
    let h2: u128 = h as u128;
    assert(w2 * w2 <= 0xffff_ffff * 0xffff_ffffu128 && h2 * h2 <= 0xffff_ffff * 0xffff_ffffu128) by (nonlinear_arith)
        requires
            w2 <= 0xffff_ffff,
            h2 <= 0xffff_ffff,
    ;
    let ww: u128 = w2 * w2;
    let hh: u128 = h2 * h2;
    let n: u128 = HALF_DIAGONAL_SCALE * (ww + hh);
    let s = isqrt(n);
    assert(s < MAX_HALF_DIAGONAL) by (nonlinear_arith)
        requires
            s * s <= n,
            n <= 250_000 * 2 * 0xffff_ffff * 0xffff_ffffu128,
            s >= 0,
    ;
    if w > 0 || h > 0 {
        assert(n >= 250_000) by (nonlinear_arith)
            requires
                n == 250_000 * (w2 * w2 + h2 * h2),
                w2 > 0 || h2 > 0,
        ;
        assert(s >= 500) by (nonlinear_arith)
            requires
                n < (s + 1) * (s + 1),
                n >= 250_000,
                s >= 0,
        ;
    }
    s as i64
}

/// Wrapping lands in `[lo, hi)`, and wrapping again changes nothing.
pub proof fn wrap_is_idempotent(v: int, lo: int, hi: int)
    requires
        lo < hi,
    ensures
        lo <= wrap_spec(v, lo, hi) < hi,
        wrap_spec(wrap_spec(v, lo, hi), lo, hi) == wrap_spec(v, lo, hi),
{
    let range = hi - lo;
    vstd::arithmetic::div_mod::lemma_mod_bound(v - lo, range);
    let m = (v - lo) % range;
    vstd::arithmetic::div_mod::lemma_small_mod(m as nat, range as nat);
    assert(wrap_spec(v, lo, hi) - lo == m);
}

} // verus!
