//! The four palettes as exact functions of a fraction.
//!
//! A normalized value is given as `num / den`. Fractions above one count as
//! one, and a zero denominator counts as the fraction zero, so that a field
//! whose minimum equals its maximum is drawn in one color. Channels are
//! computed in integer arithmetic and rounded down.

use crate::view_mode::ColorPalette;
use vstd::prelude::*;

verus! {

/// A color as red, green and blue, each from 0 to 255.
#[derive(Debug, Clone, Copy, PartialEq, Eq, Structural)]
pub struct Rgb {
    /// Red channel.
    pub r: u8,
    /// Green channel.
    pub g: u8,
    /// Blue channel.
    pub b: u8,
}

/// The fraction that `num / den` stands for, as a pair with a positive
/// denominator and a numerator that does not exceed it.
pub open spec fn normalized(num: nat, den: nat) -> (nat, nat) {
    if den == 0 {
        (0, 1)
    } else if num > den {
        (den, den)
    } else {
        (num, den)
    }
}

/// The channel value `from + (to - from) * k / d`, rounded down.
pub open spec fn blend(from: int, to: int, k: int, d: int) -> int {
    (from * d + (to - from) * k) / d
}

/// A channel of a palette made of two straight segments that meet at one half.
pub open spec fn two_segments(start: int, middle: int, end: int, n: nat, d: nat) -> int {
    if 2 * n < d {
        blend(start, middle, 2 * n as int, d as int)
    } else {
        blend(middle, end, 2 * n - d, d as int)
    }
}

/// Viridis at `n / d`: from (68, 1, 84) over (33, 104, 109) to (253, 231, 37).
pub open spec fn viridis(n: nat, d: nat) -> (int, int, int) {
    (
        two_segments(68, 33, 253, n, d),
        two_segments(1, 104, 231, n, d),
        two_segments(84, 109, 37, n, d),
    )
}

/// Plasma at `n / d`: from (13, 8, 135) over (180, 54, 121) to (240, 175, 12).
pub open spec fn plasma(n: nat, d: nat) -> (int, int, int) {
    (
        two_segments(13, 180, 240, n, d),
        two_segments(8, 54, 175, n, d),
        two_segments(135, 121, 12, n, d),
    )
}

/// Blue-Red at `n / d`: from blue over white to red.
pub open spec fn blue_red(n: nat, d: nat) -> (int, int, int) {
    (two_segments(0, 255, 255, n, d), two_segments(0, 255, 0, n, d), two_segments(255, 255, 0, n, d))
}

/// Rainbow at `n / d`: full saturation and value, the hue running from 240
/// degrees at zero down to 0 degrees at one. The hue circle is cut into
/// sectors of 60 degrees; `4 * (d - n) / d` is the hue in sectors.
pub open spec fn rainbow(n: nat, d: nat) -> (int, int, int) {
    let hue = 4 * (d - n);
    let sector = hue / (d as int);
    let within = hue - sector * d;
    let rising = (255 * within) / (d as int);
    let falling = (255 * (d - within)) / (d as int);
    if sector == 0 {
        (255, rising, 0)
    } else if sector == 1 {
        (falling, 255, 0)
    } else if sector == 2 {
        (0, 255, rising)
    } else if sector == 3 {
        (0, falling, 255)
    } else {
        (rising, 0, 255)
    }
}

/// The color of `palette` at the fraction `num / den`.
pub open spec fn palette_color(palette: ColorPalette, num: nat, den: nat) -> (int, int, int) {
    let f = normalized(num, den);
    match palette {
        ColorPalette::Viridis => viridis(f.0, f.1),
        ColorPalette::Plasma => plasma(f.0, f.1),
        ColorPalette::Rainbow => rainbow(f.0, f.1),
        ColorPalette::BlueRed => blue_red(f.0, f.1),
    }
}

/// A blend stays between its two ends, and reaches them at `k == 0` and `k == d`.
pub proof fn lemma_blend_range(from: int, to: int, k: int, d: int)
    requires
        0 <= from <= 255,
        0 <= to <= 255,
        0 <= k <= d,
        d > 0,
    ensures
        0 <= blend(from, to, k, d) <= 255,
        from <= to ==> from <= blend(from, to, k, d) <= to,
        to <= from ==> to <= blend(from, to, k, d) <= from,
        blend(from, to, 0, d) == from,
        blend(from, to, d, d) == to,
{
    let n = from * d + (to - from) * k;
    if from <= to {
        assert(from * d <= n <= to * d) by (nonlinear_arith)
            requires
                n == from * d + (to - from) * k,
                0 <= k <= d,
                from <= to,
        ;
        assert(from <= n / d <= to) by (nonlinear_arith)
            requires
                from * d <= n <= to * d,
                d > 0,
        ;
    } else {
        assert(to * d <= n <= from * d) by (nonlinear_arith)
            requires
                n == from * d + (to - from) * k,
                0 <= k <= d,
                to <= from,
        ;
        assert(to <= n / d <= from) by (nonlinear_arith)
            requires
                to * d <= n <= from * d,
                d > 0,
        ;
    }
    assert((from * d + (to - from) * 0) / d == from) by (nonlinear_arith)
        requires
            d > 0,
    ;
    assert((from * d + (to - from) * d) / d == to) by (nonlinear_arith)
        requires
            d > 0,
    ;
}

/// Every palette starts and ends at its documented colors, whatever the
/// denominator: Viridis at (68, 1, 84) and (253, 231, 37), Plasma at
/// (13, 8, 135) and (240, 175, 12), Rainbow at blue and red, Blue-Red at blue
/// and red with white exactly at one half.
pub proof fn lemma_palette_endpoints(den: nat)
    requires
        den > 0,
    ensures
        palette_color(ColorPalette::Viridis, 0, den) == (68int, 1int, 84int),
        palette_color(ColorPalette::Viridis, den, den) == (253int, 231int, 37int),
        palette_color(ColorPalette::Plasma, 0, den) == (13int, 8int, 135int),
        palette_color(ColorPalette::Plasma, den, den) == (240int, 175int, 12int),
        palette_color(ColorPalette::Rainbow, 0, den) == (0int, 0int, 255int),
        palette_color(ColorPalette::Rainbow, den, den) == (255int, 0int, 0int),
        palette_color(ColorPalette::BlueRed, 0, den) == (0int, 0int, 255int),
        palette_color(ColorPalette::BlueRed, den, den) == (255int, 0int, 0int),
        palette_color(ColorPalette::BlueRed, den, 2 * den) == (255int, 255int, 255int),
        palette_color(ColorPalette::Viridis, den, 2 * den) == (33int, 104int, 109int),
        palette_color(ColorPalette::Plasma, den, 2 * den) == (180int, 54int, 121int),
{
    let d = den as int;
    lemma_blend_range(68, 33, 0, d);
    lemma_blend_range(1, 104, 0, d);
    lemma_blend_range(84, 109, 0, d);
    lemma_blend_range(33, 253, d, d);
    lemma_blend_range(104, 231, d, d);
    lemma_blend_range(109, 37, d, d);
    lemma_blend_range(13, 180, 0, d);
    lemma_blend_range(8, 54, 0, d);
    lemma_blend_range(135, 121, 0, d);
    lemma_blend_range(180, 240, d, d);
    lemma_blend_range(54, 175, d, d);
    lemma_blend_range(121, 12, d, d);
    lemma_blend_range(255, 0, 0, 2 * d);
    lemma_blend_range(33, 253, 0, 2 * d);
    lemma_blend_range(104, 231, 0, 2 * d);
    lemma_blend_range(109, 37, 0, 2 * d);
    lemma_blend_range(180, 240, 0, 2 * d);
    lemma_blend_range(54, 175, 0, 2 * d);
    lemma_blend_range(121, 12, 0, 2 * d);
    assert((4 * (d - 0)) / d == 4) by (nonlinear_arith)
        requires
            d > 0,
    ;
    assert((255int * 0) / d == 0 && (4 * (d - d)) / d == 0 && (255 * d) / d == 255)
        by (nonlinear_arith)
        requires
            d > 0,
    ;
}

/// The channel value `from + (to - from) * k / d`, rounded down.
fn blend_channel(from: u8, to: u8, k: u64, d: u64) -> (r: u8)
    requires
        0 < d <= 0x2_0000_0000,
        k <= d,
    ensures
        r == blend(from as int, to as int, k as int, d as int),
{
    proof {
        lemma_blend_range(from as int, to as int, k as int, d as int);
        assert(from * d <= 255 * 0x2_0000_0000 && to * d <= 255 * 0x2_0000_0000) by (nonlinear_arith)
            requires
                0 <= from <= 255,
                0 <= to <= 255,
                0 < d <= 0x2_0000_0000,
        ;
    }
    if to >= from {
        let span: u64 = (to - from) as u64;
        proof {
            assert(span * k <= span * d && span * d + from * d == to * d) by (nonlinear_arith)
                requires
                    k <= d,
                    span == to - from,
                    0 <= span,
            ;
        }
        (((from as u64) * d + span * k) / d) as u8
    } else {
        let span: u64 = (from - to) as u64;
        proof {
            assert(span * k <= span * d && span * d <= from * d) by (nonlinear_arith)
                requires
                    k <= d,
                    span == from - to,
                    0 <= to,
                    0 <= k,
            ;
            assert(from * d + (to - from) * k == from * d - span * k) by (nonlinear_arith)
                requires
                    span == from - to,
            ;
        }
        (((from as u64) * d - span * k) / d) as u8
    }
}

/// A channel of a palette made of two straight segments that meet at one half.
fn two_segment_channel(start: u8, middle: u8, end: u8, n: u64, d: u64) -> (r: u8)
    requires
        0 < d <= 0xffff_ffff,
        n <= d,
    ensures
        r == two_segments(start as int, middle as int, end as int, n as nat, d as nat),
{
    if 2 * n < d {
        blend_channel(start, middle, 2 * n, d)
    } else {
        blend_channel(middle, end, 2 * n - d, d)
    }
}

/// The rainbow color at `n / d`.
fn rainbow_color(n: u64, d: u64) -> (r: Rgb)
    requires
        0 < d <= 0xffff_ffff,
        n <= d,
    ensures
        (r.r as int, r.g as int, r.b as int) == rainbow(n as nat, d as nat),
{
    let hue: u64 = 4 * (d - n);
    let sector: u64 = hue / d;
    proof {
        assert(sector <= 4 && sector * d <= hue && hue - sector * d < d) by (nonlinear_arith)
            requires
                hue <= 4 * d,
                d > 0,
                sector == hue / d,
        ;
    }
    let within: u64 = hue - sector * d;
    proof {
        assert((255 * within) / (d as int) <= 255 && (255 * (d - within)) / (d as int) <= 255)
            by (nonlinear_arith)
            requires
                0 <= within <= d,
                d > 0,
        ;
    }
    let rising: u8 = ((255 * within) / d) as u8;
    let falling: u8 = ((255 * (d - within)) / d) as u8;
    if sector == 0 {
        Rgb { r: 255, g: rising, b: 0 }
    } else if sector == 1 {
        Rgb { r: falling, g: 255, b: 0 }
    } else if sector == 2 {
        Rgb { r: 0, g: 255, b: rising }
    } else if sector == 3 {
        Rgb { r: 0, g: falling, b: 255 }
    } else {
        Rgb { r: rising, g: 0, b: 255 }
    }
}

impl ColorPalette {
    /// The color of the palette at the fraction `num / den`. Fractions above
    /// one count as one; a zero denominator counts as the fraction zero.
    pub fn color(self, num: u32, den: u32) -> (r: Rgb)
        ensures
            (r.r as int, r.g as int, r.b as int) == palette_color(self, num as nat, den as nat),
    {
        let d: u64 = if den == 0 {
            1
        } else {
            den as u64
        };
        let n: u64 = if den == 0 {
            0
        } else if num > den {
            den as u64
        } else {
            num as u64
        };
        match self {
            ColorPalette::Viridis => Rgb {
                r: two_segment_channel(68, 33, 253, n, d),
                g: two_segment_channel(1, 104, 231, n, d),
                b: two_segment_channel(84, 109, 37, n, d),
            },
            ColorPalette::Plasma => Rgb {
                r: two_segment_channel(13, 180, 240, n, d),
                g: two_segment_channel(8, 54, 175, n, d),
                b: two_segment_channel(135, 121, 12, n, d),
            },
            ColorPalette::Rainbow => rainbow_color(n, d),
            ColorPalette::BlueRed => Rgb {
                r: two_segment_channel(0, 255, 255, n, d),
                g: two_segment_channel(0, 255, 0, n, d),
                b: two_segment_channel(255, 255, 0, n, d),
            },
        }
    }
}

} // verus!
