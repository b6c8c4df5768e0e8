//! Conversion of an sRGB colour to the bridge's hue / saturation / brightness scales.
//!
//! The conversion is computed exactly over rationals: with `max`, `min` and
//! `delta = max - min` of the three channels, the hue fraction is
//! `hue_numerator / (6 * delta)`, the saturation fraction `delta / max` and the value
//! fraction `max / 255`. Each is scaled (hue to 16 bits, the others to 8 bits) and
//! rounded to the nearest integer, halves rounding up.
use vstd::prelude::*;

verus! {

pub open spec fn max3(r: int, g: int, b: int) -> int {
    if r >= g && r >= b {
        r
    } else if g >= b {
        g
    } else {
        b
    }
}

pub open spec fn min3(r: int, g: int, b: int) -> int {
    if r <= g && r <= b {
        r
    } else if g <= b {
        g
    } else {
        b
    }
}

/// Six times `delta` times the hue fraction, chosen by which channel holds the maximum
/// (red first, then green, then blue).
pub open spec fn hue_numerator(r: int, g: int, b: int) -> int {
    let mx = max3(r, g, b);
    let d = mx - min3(r, g, b);
    if mx == r {
        (g - b) + if g < b {
            6 * d
        } else {
            0
        }
    } else if mx == g {
        (b - r) + 2 * d
    } else {
        (r - g) + 4 * d
    }
}

/// `p / q` rounded to the nearest integer, halves rounding up.
pub open spec fn round_div(p: int, q: int) -> int {
    (2 * p + q) / (2 * q)
}

/// The scaled hue (0..=65535), saturation (0..=255) and brightness (0..=255) of a colour.
pub open spec fn hsv_scaled(r: int, g: int, b: int) -> (int, int, int) {
    let mx = max3(r, g, b);
    let d = mx - min3(r, g, b);
    if d == 0 {
        (0, 0, mx)
    } else {
        (round_div(65535 * hue_numerator(r, g, b), 6 * d), round_div(255 * d, mx), mx)
    }
}

proof fn lemma_hue_numerator_range(r: int, g: int, b: int)
    requires
        max3(r, g, b) > min3(r, g, b),
    ensures
        0 <= hue_numerator(r, g, b) < 6 * (max3(r, g, b) - min3(r, g, b)),
{
}

proof fn lemma_round_div(p: int, q: int)
    requires
        0 <= p,
        0 < q,
    ensures
        -q <= 2 * q * round_div(p, q) - 2 * p <= q,
        round_div(p, q) >= 0,
{
    let x = round_div(p, q);
    vstd::arithmetic::div_mod::lemma_fundamental_div_mod(2 * p + q, 2 * q);
    vstd::arithmetic::div_mod::lemma_mod_bound(2 * p + q, 2 * q);
    vstd::arithmetic::div_mod::lemma_div_pos_is_pos(2 * p + q, 2 * q);
}

proof fn lemma_round_div_upper(p: int, q: int, limit: int)
    requires
        0 <= p,
        0 < q,
        p <= limit * q,
        0 <= limit,
    ensures
        round_div(p, q) <= limit,
{
    lemma_round_div(p, q);
    let x = round_div(p, q);
    assert(2 * q * x <= 2 * limit * q + q) by (nonlinear_arith)
        requires
            2 * q * x - 2 * p <= q,
            p <= limit * q,
    ;
    assert(x <= limit) by (nonlinear_arith)
        requires
            2 * q * x <= 2 * limit * q + q,
            q > 0,
    ;
}

/// Converts an sRGB colour to the bridge's scaled hue, saturation and brightness.
pub fn rgb_to_hsv(r: u8, g: u8, b: u8) -> (res: (u16, u8, u8))
    ensures
        res.0 as int == hsv_scaled(r as int, g as int, b as int).0,
        res.1 as int == hsv_scaled(r as int, g as int, b as int).1,
        res.2 as int == hsv_scaled(r as int, g as int, b as int).2,
{
    let mx: u8 = if r >= g && r >= b {
        r
    } else if g >= b {
        g
    } else {
        b
    };
    let mn: u8 = if r <= g && r <= b {
        r
    } else if g <= b {
        g
    } else {
        b
    };
    if mx == mn {
        return (0, 0, mx);
    }
    let d: u64 = (mx - mn) as u64;
    let (r64, g64, b64) = (r as u64, g as u64, b as u64);
    let num: u64 = if mx == r {
        if g < b {
            6 * d - (b64 - g64)
        } else {
            g64 - b64
        }
    } else if mx == g {
        if b64 >= r64 {
            2 * d + (b64 - r64)
        } else {
            2 * d - (r64 - b64)
        }
    } else {
        if r64 >= g64 {
            4 * d + (r64 - g64)
        } else {
            4 * d - (g64 - r64)
        }
    };
    proof {
        lemma_hue_numerator_range(r as int, g as int, b as int);
        assert(num == hue_numerator(r as int, g as int, b as int));
        assert(d <= 255 && num < 6 * d);
        assert(65535 * num <= 65535 * (6 * d)) by (nonlinear_arith)
            requires
                num < 6 * d,
        ;
        assert(255 * d <= 255 * mx) by (nonlinear_arith)
            requires
                d <= mx,
        ;
        lemma_round_div_upper(65535 * num, 6 * d, 65535);
        lemma_round_div_upper(255 * d, mx as int, 255);
        lemma_round_div(65535 * num, 6 * d);
        lemma_round_div(255 * d, mx as int);
    }
    assert(num < 1530 && 0 < d <= 255);
    let hue: u64 = (131070 * num + 6 * d) / (12 * d);
    assert(hue == round_div(65535 * num, 6 * d));
    let mx64: u64 = mx as u64;
    assert(d <= mx64 <= 255);
    let sat: u64 = (510 * d + mx64) / (2 * mx64);
    assert(sat == round_div(255 * d, mx as int));
    (hue as u16, sat as u8, mx)
}

/// Quantisation law of the conversion: each scaled component lies within half a unit of
/// the exact fraction times its scale, so scaling back (dividing by 65535 or 255) recovers
/// the exact hue, saturation and value to within half a step of their scales.
pub proof fn lemma_hsv_quantization(r: u8, g: u8, b: u8)
    ensures
        0 <= hsv_scaled(r as int, g as int, b as int).0 <= 65535,
        0 <= hsv_scaled(r as int, g as int, b as int).1 <= 255,
        hsv_scaled(r as int, g as int, b as int).2 == max3(r as int, g as int, b as int),
        spread(r, g, b) == 0 ==> hsv_scaled(r as int, g as int, b as int).0 == 0
            && hsv_scaled(r as int, g as int, b as int).1 == 0,
        spread(r, g, b) > 0 ==> -(6 * spread(r, g, b)) <= 2 * (6 * spread(r, g, b))
            * hsv_scaled(r as int, g as int, b as int).0 - 2 * (65535 * hue_numerator(
            r as int,
            g as int,
            b as int,
        )) <= 6 * spread(r, g, b),
        spread(r, g, b) > 0 ==> -max3(r as int, g as int, b as int) <= 2 * max3(
            r as int,
            g as int,
            b as int,
        ) * hsv_scaled(r as int, g as int, b as int).1 - 2 * (255 * spread(r, g, b)) <= max3(
            r as int,
            g as int,
            b as int,
        ),
{
    let mx = max3(r as int, g as int, b as int);
    let d = spread(r, g, b);
    if d > 0 {
        lemma_hue_numerator_range(r as int, g as int, b as int);
        let num = hue_numerator(r as int, g as int, b as int);
        assert(65535 * num <= 65535 * (6 * d)) by (nonlinear_arith)
            requires
                0 <= num < 6 * d,
        ;
        assert(255 * d <= 255 * mx) by (nonlinear_arith)
            requires
                d <= mx,
        ;
        lemma_round_div(65535 * num, 6 * d);
        lemma_round_div(255 * d, mx);
        lemma_round_div_upper(65535 * num, 6 * d, 65535);
        lemma_round_div_upper(255 * d, mx, 255);
    }
}

/// `max - min` of the three channels.
pub open spec fn spread(r: u8, g: u8, b: u8) -> int {
    max3(r as int, g as int, b as int) - min3(r as int, g as int, b as int)
}

/// Part of the round trip back to RGB: converting the scaled saturation `S` and brightness
/// `B` back with the standard HSV-to-RGB formulas gives a highest channel of `B`, which is
/// the original maximum exactly, and a lowest channel of `B * (255 - S) / 255`, which lies
/// within half a unit of the original minimum. (The middle channel, which also depends on
/// the hue, is not covered here.)
pub proof fn lemma_value_and_floor_round_trip(r: u8, g: u8, b: u8)
    ensures
        hsv_scaled(r as int, g as int, b as int).2 == max3(r as int, g as int, b as int),
        -255 <= 2 * (hsv_scaled(r as int, g as int, b as int).2 * (255 - hsv_scaled(
            r as int,
            g as int,
            b as int,
        ).1)) - 2 * 255 * min3(r as int, g as int, b as int) <= 255,
{
    lemma_hsv_quantization(r, g, b);
    let mx = max3(r as int, g as int, b as int);
    let mn = min3(r as int, g as int, b as int);
    let s = hsv_scaled(r as int, g as int, b as int).1;
    assert(mx <= 255);
    assert(mx * (255 - s) == 255 * mx - mx * s) by (nonlinear_arith);
    let d = spread(r, g, b);
    assert(d == mx - mn);
    assert(hsv_scaled(r as int, g as int, b as int).2 == mx);
    if mx == mn {
        assert(s == 0);
        assert(2 * (mx * (255 - s)) - 2 * 255 * mn == 0) by (nonlinear_arith)
            requires
                s == 0,
                mx == mn,
        ;
    } else {
        assert(-mx <= 2 * mx * s - 2 * (255 * d) <= mx);
        assert(-255 <= 2 * (mx * (255 - s)) - 2 * 255 * mn <= 255) by (nonlinear_arith)
            requires
                -mx <= 2 * mx * s - 2 * (255 * d) <= mx,
                d == mx - mn,
                0 <= mx <= 255,
        ;
    }
}

} // verus!
