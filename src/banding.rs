//! Toon quantization of intensity into a fixed number of bands.
use vstd::prelude::*;
use crate::edges::{luma_of, luma_weighted};
use crate::settings::{Rgba, ONE};

verus! {

/// The band, out of `n`, that intensity `x` falls in; intensities at or
/// above full scale fall in the top band.
pub open spec fn band_of(x: int, n: int) -> int {
    let k = x * n / ONE as int;
    if k > n - 1 {
        n - 1
    } else {
        k
    }
}

/// The intensity that band `k` of `n` is drawn at: `k / n` of full scale,
/// rounded up.
pub open spec fn band_level(k: int, n: int) -> int {
    (k * ONE + n - 1) / n
}

/// Intensity `x` quantized into `n` bands.
pub open spec fn quantize(x: int, n: int) -> int {
    band_level(band_of(x, n), n)
}

/// The intensity of a colour, in thousandths.
pub open spec fn intensity(c: Rgba) -> int {
    luma_weighted(c) / ONE as int
}

pub open spec fn scale_channel(c: int, q: int, l: int) -> int {
    if l == 0 {
        0
    } else {
        c * q / l
    }
}

/// `c` with its intensity quantized into `n` bands and its hue kept: each
/// colour channel is scaled by the quantized over the original intensity;
/// alpha passes through.
pub open spec fn banded(c: Rgba, n: int) -> Rgba {
    let l = intensity(c);
    let q = quantize(l, n);
    Rgba {
        r: scale_channel(c.r as int, q, l) as u32,
        g: scale_channel(c.g as int, q, l) as u32,
        b: scale_channel(c.b as int, q, l) as u32,
        a: c.a,
    }
}

proof fn lemma_band_of_bounds(x: int, n: int)
    requires
        0 <= x,
        1 <= n,
    ensures
        0 <= band_of(x, n) < n,
        band_of(x, n) * ONE <= x * n,
{
    assert(0 <= x * n) by (nonlinear_arith)
        requires
            0 <= x,
            1 <= n,
    ;
    let k = x * n / ONE as int;
    assert(k * ONE <= x * n);
}

proof fn lemma_level_bounds(k: int, n: int)
    requires
        0 <= k < n,
    ensures
        k * ONE <= band_level(k, n) * n < k * ONE + n,
        0 <= band_level(k, n) <= ONE,
{
    let p = k * ONE + n - 1;
    assert(0 <= k * ONE <= (n - 1) * ONE) by (nonlinear_arith)
        requires
            0 <= k < n,
    ;
    let q = p / n;
    assert(q * n <= p < q * n + n) by (nonlinear_arith)
        requires
            q == p / n,
            0 <= p,
            0 < n,
    ;
    assert(q <= ONE) by (nonlinear_arith)
        requires
            q * n <= p,
            p == k * ONE + n - 1,
            k * ONE <= (n - 1) * ONE,
            0 < n,
    ;
    assert(0 <= q) by (nonlinear_arith)
        requires
            q == p / n,
            0 <= p,
            0 < n,
    ;
}

/// Quantizing never raises an intensity.
pub proof fn lemma_quantize_le(x: int, n: int)
    requires
        0 <= x,
        1 <= n,
    ensures
        0 <= quantize(x, n) <= x,
        quantize(x, n) <= ONE,
{
    lemma_band_of_bounds(x, n);
    let k = band_of(x, n);
    lemma_level_bounds(k, n);
    let q = band_level(k, n);
    assert(q <= x) by (nonlinear_arith)
        requires
            q * n < k * ONE + n,
            k * ONE <= x * n,
            1 <= n,
    ;
}

/// Quantizing an already quantized intensity with the same band count
/// changes nothing.
pub proof fn lemma_quantize_idempotent(x: int, n: int)
    requires
        0 <= x,
        1 <= n,
    ensures
        quantize(quantize(x, n), n) == quantize(x, n),
{
    lemma_band_of_bounds(x, n);
    let k = band_of(x, n);
    lemma_level_bounds(k, n);
    let q = band_level(k, n);
    lemma_quantize_le(x, n);
    let k2 = q * n / ONE as int;
    assert(k2 >= k) by (nonlinear_arith)
        requires
            k2 == q * n / 1000,
            k * 1000 <= q * n,
    ;
    if k < n - 1 {
        assert(k == x * n / ONE as int);
        assert(q * n <= x * n) by (nonlinear_arith)
            requires
                q <= x,
                1 <= n,
        ;
        assert(k2 <= k) by (nonlinear_arith)
            requires
                k2 == q * n / 1000,
                k == x * n / 1000,
                q * n <= x * n,
        ;
    }
    assert(band_of(q, n) == k);
}

/// Over the intensities from zero to full scale, quantizing into `n` bands
/// gives exactly `n` distinct levels, `band_level(0, n) < ... <
/// band_level(n - 1, n)`: every result is one of them, and each is reached.
/// This asks that there be no more bands than intensity steps.
pub proof fn lemma_exactly_n_levels(n: int)
    requires
        1 <= n <= ONE,
    ensures
        forall|x: int| 0 <= x <= ONE ==> #[trigger] band_of(x, n) < n && quantize(x, n) == band_level(band_of(x, n), n),
        forall|x: int| 0 <= x <= ONE ==> 0 <= #[trigger] band_of(x, n),
        forall|k: int|
            0 <= k < n ==> 0 <= #[trigger] band_level(k, n) <= ONE && quantize(band_level(k, n), n)
                == band_level(k, n),
        forall|i: int, j: int|
            0 <= i < j < n ==> #[trigger] band_level(i, n) < #[trigger] band_level(j, n),
{
    assert forall|x: int| 0 <= x <= ONE implies #[trigger] band_of(x, n) < n && quantize(x, n)
        == band_level(band_of(x, n), n) && 0 <= band_of(x, n) by {
        lemma_band_of_bounds(x, n);
    }
    assert forall|k: int| 0 <= k < n implies 0 <= #[trigger] band_level(k, n) <= ONE && quantize(
        band_level(k, n),
        n,
    ) == band_level(k, n) by {
        lemma_level_bounds(k, n);
        let q = band_level(k, n);
        let k2 = q * n / ONE as int;
        assert(k2 == k) by (nonlinear_arith)
            requires
                k2 == q * n / 1000,
                k * 1000 <= q * n < k * 1000 + n,
                n <= 1000,
        ;
    }
    assert forall|i: int, j: int| 0 <= i < j < n implies #[trigger] band_level(i, n)
        < #[trigger] band_level(j, n) by {
        lemma_level_bounds(i, n);
        lemma_level_bounds(j, n);
        let qi = band_level(i, n);
        let qj = band_level(j, n);
        assert(qi < qj) by (nonlinear_arith)
            requires
                qi * n < i * 1000 + n,
                j * 1000 <= qj * n,
                i < j,
                1 <= n <= 1000,
        ;
    }
}

/// `x` quantized into `n` bands.
pub fn quantize_intensity(x: u32, n: u32) -> (q: u32)
    requires
        n >= 1,
    ensures
        q == quantize(x as int, n as int),
        q <= x,
        q <= ONE,
{
    proof {
        lemma_band_of_bounds(x as int, n as int);
        lemma_quantize_le(x as int, n as int);
        assert(0 <= x * n <= 0xffff_ffff * 0xffff_ffff) by (nonlinear_arith)
            requires
                0 <= x <= 0xffff_ffff,
                0 <= n <= 0xffff_ffff,
        ;
    }
    let raw: u64 = (x as u64) * (n as u64) / (ONE as u64);
    let k: u64 = if raw > n as u64 - 1 {
        n as u64 - 1
    } else {
        raw
    };
    ((k * (ONE as u64) + n as u64 - 1) / (n as u64)) as u32
}

fn scale(c: u32, q: u32, l: u32) -> (r: u32)
    requires
        q <= l,
    ensures
        r == scale_channel(c as int, q as int, l as int),
        r <= c,
{
    if l == 0 {
        0
    } else {
        proof {
            assert(0 <= c * q <= c * l) by (nonlinear_arith)
                requires
                    q <= l,
            ;
            assert((c * q) / (l as int) <= c) by (nonlinear_arith)
                requires
                    0 <= c * q <= c * l,
                    0 < l,
            ;
            assert(c * q <= 0xffff_ffff * 0xffff_ffff) by (nonlinear_arith)
                requires
                    c <= 0xffff_ffff,
                    q <= 0xffff_ffff,
            ;
        }
        ((c as u64) * (q as u64) / (l as u64)) as u32
    }
}

/// `c` toon-shaded with `n` bands.
pub fn band_colour(c: &Rgba, n: u32) -> (r: Rgba)
    requires
        n >= 1,
    ensures
        r == banded(*c, n as int),
{
    let weighted = luma_of(c);
    let l: u32 = (weighted / (ONE as u64)) as u32;
    assert(l == intensity(*c));
    let q = quantize_intensity(l, n);
    let r = scale(c.r, q, l);
    let g = scale(c.g, q, l);
    let b = scale(c.b, q, l);
    assert(q == quantize(intensity(*c), n as int));
    Rgba { r, g, b, a: c.a }
}

} // verus!
