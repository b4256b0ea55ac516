//! NOAA heat-index computation in exact fixed-point arithmetic.
//!
//! The published equations use decimal coefficients with at most eight
//! fractional digits; with the temperature in hundredths of a degree
//! Fahrenheit and the humidity in tenths of a percent, every term is an
//! integer once scaled by 10^14, so the regression polynomial is computed
//! exactly. Only the low-humidity correction contains a square root, which
//! is approximated from below by an integer square root; the error this
//! introduces in the final index is under a thousandth of a degree.

use vstd::arithmetic::div_mod::{lemma_div_is_ordered, lemma_div_nonincreasing, lemma_div_pos_is_pos};
use vstd::prelude::*;

verus! {

/// Quotient of `a` by `d`, rounded toward zero (the rounding Rust's own
/// integer division uses).
pub open spec fn div_toward_zero(a: int, d: int) -> int
    recommends
        d > 0,
{
    if a >= 0 {
        a / d
    } else {
        -((-a) / d)
    }
}

/// `r` is the integer square root of `n`.
pub open spec fn is_isqrt(n: int, r: int) -> bool {
    0 <= r && r * r <= n && n < (r + 1) * (r + 1)
}

/// The integer square root of `n` (the unique `r` with `r^2 <= n < (r+1)^2`).
pub open spec fn isqrt_spec(n: int) -> int
    recommends
        n >= 0,
{
    choose|r: int| is_isqrt(n, r)
}

/// No two integers both satisfy the square-root characterization.
proof fn lemma_isqrt_unique(n: int, r1: int, r2: int)
    requires
        is_isqrt(n, r1),
        is_isqrt(n, r2),
    ensures
        r1 == r2,
{
    if r1 < r2 {
        assert((r1 + 1) * (r1 + 1) <= r2 * r2) by (nonlinear_arith)
            requires
                0 <= r1,
                0 <= r2,
                r1 < r2,
        ;
    }
    if r2 < r1 {
        assert((r2 + 1) * (r2 + 1) <= r1 * r1) by (nonlinear_arith)
            requires
                0 <= r1,
                0 <= r2,
                r2 < r1,
        ;
    }
}

/// Integer square root by counting up; the inputs this crate needs are at
/// most 10^8, so the loop runs at most 10^4 + 1 times.
pub fn isqrt(n: u64) -> (r: u64)
    requires
        n <= 100_000_000,
    ensures
        is_isqrt(n as int, r as int),
        r as int == isqrt_spec(n as int),
{
    let mut r: u64 = 0;
    loop
        invariant
            n <= 100_000_000,
            r as int * r as int <= n as int,
            r <= 10000,
        ensures
            r as int * r as int <= n as int,
            (n as int) < ((r as int) + 1) * ((r as int) + 1),
        decreases 10001 - r,
    {
        let next: u64 = r + 1;
        proof {
            assert(next as int * next as int <= 100020001) by (nonlinear_arith)
                requires
                    0 <= next as int <= 10001,
            ;
        }
        if next * next <= n {
            assert(next <= 10000) by (nonlinear_arith)
                requires
                    next as int * next as int <= n as int,
                    n <= 100_000_000,
                    0 <= next as int,
            ;
            r = next;
        } else {
            break ;
        }
    }
    proof {
        assert(is_isqrt(n as int, r as int));
        assert(exists|q: int| is_isqrt(n as int, q));
        lemma_isqrt_unique(n as int, choose|q: int| is_isqrt(n as int, q), r as int);
    }
    r
}

/// Steadman's simple approximation, scaled by 10^4 (`t` in hundredths of a
/// degree Fahrenheit, `r` in tenths of a percent):
/// `0.5 * (T + 61.0 + (T - 68.0) * 1.2 + R * 0.094)`.
pub open spec fn steadman_e4(t: int, r: int) -> int {
    110 * t + 47 * r - 103000
}

/// The Rothfusz regression polynomial, scaled by 10^14.
pub open spec fn rothfusz_e14(t: int, r: int) -> int {
    let tt = t * t;
    let rr = r * r;
    let tr = t * r;
    let ttr = tt * r;
    let trr = t * rr;
    let ttrr = tt * rr;
    -4237900000000000 + 2049015230000 * t + 101433312700000 * r - 22475541000 * tr - 68378300 * tt
        - 54817170000 * rr + 1228740 * ttr + 8528200 * trr - 199 * ttrr
}

/// The correction subtracted when the air is very dry and the temperature is
/// between 80 F and 112 F, scaled by 10^14:
/// `((13 - R) / 4) * sqrt((17 - |T - 95|) * 0.05882)`, with the square root
/// taken as an integer square root (rounding the correction down slightly).
pub open spec fn dry_adjustment_e14(t: int, r: int) -> int {
    let d = if t >= 9500 {
        t - 9500
    } else {
        9500 - t
    };
    (130 - r) * 250000000 * isqrt_spec(58820 * (1700 - d))
}

/// The correction added when the air is very humid and the temperature is
/// between 80 F and 87 F, scaled by 10^14:
/// `((R - 85) / 10) * ((87 - T) / 5)`.
pub open spec fn humid_adjustment_e14(t: int, r: int) -> int {
    (r - 850) * (8700 - t) * 2000000000
}

/// The heat index in degrees Fahrenheit scaled by 10^14, for a temperature
/// `t` in hundredths of a degree Fahrenheit and a relative humidity `r` in
/// tenths of a percent. Steadman's approximation is used when it stays at or
/// below 79 F; above that the Rothfusz regression takes over, with the two
/// published range corrections.
pub open spec fn heat_index_e14(t: int, r: int) -> int {
    let simple = steadman_e4(t, r);
    if simple <= 790000 {
        simple * 10000000000
    } else {
        let hi = rothfusz_e14(t, r);
        if r < 130 && 8000 <= t && t <= 11200 {
            hi - dry_adjustment_e14(t, r)
        } else if r > 850 && 8000 <= t && t <= 8700 {
            hi + humid_adjustment_e14(t, r)
        } else {
            hi
        }
    }
}

/// Computes `heat_index_e14` exactly in 128-bit arithmetic.
fn heat_index_e14_exec(t: i32, rh: u16) -> (res: i128)
    requires
        -600000 <= t <= 600000,
    ensures
        res as int == heat_index_e14(t as int, rh as int),
        -400000000000000000000000 <= res as int <= 400000000000000000000000,
{
    let ti: i128 = t as i128;
    let ri: i128 = rh as i128;
    let simple: i128 = 110 * ti + 47 * ri - 103000;
    if simple <= 790000 {
        simple * 10000000000
    } else {
        proof {
            assert(0 <= ti as int * ti as int <= 360000000000) by (nonlinear_arith)
                requires
                    -600000 <= ti as int <= 600000,
            ;
            assert(0 <= ri as int * ri as int <= 4294836225) by (nonlinear_arith)
                requires
                    0 <= ri as int <= 65535,
            ;
            assert(-39321000000 <= ti as int * ri as int <= 39321000000) by (nonlinear_arith)
                requires
                    -600000 <= ti as int <= 600000,
                    0 <= ri as int <= 65535,
            ;
        }
        let tt: i128 = ti * ti;
        let rr: i128 = ri * ri;
        let tr: i128 = ti * ri;
        proof {
            assert(0 <= tt as int * ri as int <= 23592600000000000) by (nonlinear_arith)
                requires
                    0 <= tt as int <= 360000000000,
                    0 <= ri as int <= 65535,
            ;
            assert(-2576901735000000 <= ti as int * rr as int <= 2576901735000000)
                by (nonlinear_arith)
                requires
                    -600000 <= ti as int <= 600000,
                    0 <= rr as int <= 4294836225,
            ;
            assert(0 <= tt as int * rr as int <= 1546141041000000000000) by (nonlinear_arith)
                requires
                    0 <= tt as int <= 360000000000,
                    0 <= rr as int <= 4294836225,
            ;
        }
        let ttr: i128 = tt * ri;
        let trr: i128 = ti * rr;
        let ttrr: i128 = tt * rr;
        let hi: i128 = -4237900000000000 + 2049015230000 * ti + 101433312700000 * ri
            - 22475541000 * tr - 68378300 * tt - 54817170000 * rr + 1228740 * ttr + 8528200 * trr
            - 199 * ttrr;
        if ri < 130 && 8000 <= ti && ti <= 11200 {
            let d: i128 = if ti >= 9500 {
                ti - 9500
            } else {
                9500 - ti
            };
            let arg: u64 = (58820 * (1700 - d)) as u64;
            let s: u64 = isqrt(arg);
            let base: i128 = (130 - ri) * 250000000;
            proof {
                assert(0 <= s as int <= 10000) by (nonlinear_arith)
                    requires
                        is_isqrt(arg as int, s as int),
                        arg as int <= 100000000,
                ;
                assert(0 <= base as int * s as int <= 325000000000000) by (nonlinear_arith)
                    requires
                        0 <= base as int <= 32500000000,
                        0 <= s as int <= 10000,
                ;
            }
            hi - base * (s as i128)
        } else if ri > 850 && 8000 <= ti && ti <= 8700 {
            proof {
                assert(0 <= ((ri as int) - 850) * (8700 - (ti as int)) <= 45279500)
                    by (nonlinear_arith)
                    requires
                        0 < (ri as int) - 850 <= 64685,
                        0 <= 8700 - (ti as int) && 8700 - (ti as int) <= 700,
                ;
            }
            let p: i128 = (ri - 850) * (8700 - ti);
            hi + p * 2000000000
        } else {
            hi
        }
    }
}

/// The quotient toward zero stays within the quotient of any bound on the
/// dividend.
proof fn lemma_div_toward_zero_bound(a: int, d: int, m: int)
    requires
        d > 0,
        0 <= m,
        -m <= a <= m,
    ensures
        -(m / d) <= div_toward_zero(a, d) <= m / d,
{
    lemma_div_pos_is_pos(m, d);
    if a >= 0 {
        lemma_div_is_ordered(a, m, d);
        lemma_div_pos_is_pos(a, d);
    } else {
        lemma_div_is_ordered(-a, m, d);
        lemma_div_pos_is_pos(-a, d);
    }
}

/// Divides rounding toward zero, via unsigned division on the magnitude.
fn div_toward_zero_i128(a: i128, d: u64) -> (r: i128)
    requires
        d > 0,
        -170000000000000000000000000000000000000 <= a as int
            <= 170000000000000000000000000000000000000,
    ensures
        r as int == div_toward_zero(a as int, d as int),
{
    if a >= 0 {
        let q: u128 = (a as u128) / (d as u128);
        proof {
            lemma_div_nonincreasing(a as int, d as int);
            lemma_div_pos_is_pos(a as int, d as int);
        }
        q as i128
    } else {
        let m: u128 = (-a) as u128;
        let q: u128 = m / (d as u128);
        proof {
            lemma_div_nonincreasing(m as int, d as int);
            lemma_div_pos_is_pos(m as int, d as int);
        }
        -(q as i128)
    }
}

/// The heat index in hundredths of a degree Fahrenheit, rounded toward
/// zero from the exact scaled value.
pub fn heat_index_f_hundredths(t_f_hundredths: i32, humidity_tenths: u16) -> (r: i64)
    requires
        -600000 <= t_f_hundredths <= 600000,
    ensures
        r as int == div_toward_zero(
            heat_index_e14(t_f_hundredths as int, humidity_tenths as int),
            1000000000000,
        ),
{
    let hi: i128 = heat_index_e14_exec(t_f_hundredths, humidity_tenths);
    proof {
        lemma_div_toward_zero_bound(hi as int, 1000000000000, 400000000000000000000000);
    }
    let q: i128 = div_toward_zero_i128(hi, 1000000000000);
    q as i64
}

/// The heat index in hundredths of a degree Celsius: the Fahrenheit index
/// converted by `(hi - 32) * 0.55555` and rounded toward zero.
pub fn heat_index_c_hundredths(t_f_hundredths: i32, humidity_tenths: u16) -> (r: i64)
    requires
        -600000 <= t_f_hundredths <= 600000,
    ensures
        r as int == div_toward_zero(
            (heat_index_e14(t_f_hundredths as int, humidity_tenths as int) - 3200000000000000)
                * 11111,
            20000000000000000,
        ),
{
    let hi: i128 = heat_index_e14_exec(t_f_hundredths, humidity_tenths);
    let shifted: i128 = (hi - 3200000000000000) * 11111;
    proof {
        lemma_div_toward_zero_bound(
            shifted as int,
            20000000000000000,
            5000000000000000000000000000,
        );
    }
    let q: i128 = div_toward_zero_i128(shifted, 20000000000000000);
    q as i64
}

} // verus!
