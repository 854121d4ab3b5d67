//! Fixed-point colors.
//!
//! Saturation, lightness and the RGB channels count millionths of the unit
//! interval; hue counts millionths of a degree. Every division rounds down.

use vstd::prelude::*;

verus! {

/// One, in millionths.
pub const UNIT: u32 = 1_000_000;

/// A full turn of hue, in millionths of a degree.
pub const FULL_TURN: u32 = 360_000_000;

/// A sixth of a turn.
pub const SEXTANT: u32 = 60_000_000;

/// A third of a turn.
pub const THIRD_TURN: u32 = 120_000_000;

/// A color by hue, saturation and lightness.
#[derive(Clone, Copy, Debug, PartialEq, Eq, Structural)]
pub struct Hsl {
    /// Millionths of a degree, below a full turn.
    pub hue: u32,
    /// Millionths, at most one.
    pub saturation: u32,
    /// Millionths, at most one.
    pub lightness: u32,
}

/// A color by its red, green and blue channels, each in millionths and at
/// most one.
#[derive(Clone, Copy, Debug, PartialEq, Eq, Structural)]
pub struct Rgb {
    pub red: u32,
    pub green: u32,
    pub blue: u32,
}

impl Hsl {
    /// Hue below a full turn, saturation and lightness at most one.
    pub open spec fn is_valid(self) -> bool {
        &&& self.hue < FULL_TURN
        &&& self.saturation <= UNIT
        &&& self.lightness <= UNIT
    }
}

impl Rgb {
    /// Every channel at most one.
    pub open spec fn is_valid(self) -> bool {
        &&& self.red <= UNIT
        &&& self.green <= UNIT
        &&& self.blue <= UNIT
    }
}

/// The upper of the two values between which the channels of a color lie.
pub open spec fn upper_level(saturation: int, lightness: int) -> int {
    if lightness < 500_000 {
        lightness + lightness * saturation / 1_000_000
    } else {
        lightness + saturation - lightness * saturation / 1_000_000
    }
}

/// The lower of the two values between which the channels of a color lie.
pub open spec fn lower_level(saturation: int, lightness: int) -> int {
    2 * lightness - upper_level(saturation, lightness)
}

/// One channel of a color with levels `p` and `q`, at hue angle `t`. The
/// angle is brought into one turn first; the channel then rises from `p` to
/// `q` over the first sextant, holds `q` up to half a turn, falls back to `p`
/// over the next sextant and holds `p` for the rest.
pub open spec fn channel_at(p: int, q: int, t: int) -> int {
    let t1 = if t < 0 {
        t + 360_000_000
    } else {
        t
    };
    let t2 = if t1 > 360_000_000 {
        t1 - 360_000_000
    } else {
        t1
    };
    if t2 < 60_000_000 {
        p + (q - p) * t2 / 60_000_000
    } else if t2 < 180_000_000 {
        q
    } else if t2 < 240_000_000 {
        p + (q - p) * (240_000_000 - t2) / 60_000_000
    } else {
        p
    }
}

/// The RGB color of an HSL color. A color without saturation is grey at its
/// lightness.
pub open spec fn spec_hsl_to_rgb(c: Hsl) -> Rgb {
    if c.saturation == 0 {
        Rgb { red: c.lightness, green: c.lightness, blue: c.lightness }
    } else {
        let q = upper_level(c.saturation as int, c.lightness as int);
        let p = lower_level(c.saturation as int, c.lightness as int);
        Rgb {
            red: channel_at(p, q, c.hue + 120_000_000) as u32,
            green: channel_at(p, q, c.hue as int) as u32,
            blue: channel_at(p, q, c.hue - 120_000_000) as u32,
        }
    }
}

/// The two levels of a valid color are ordered and within the unit interval.
pub proof fn lemma_levels_bounded(saturation: int, lightness: int)
    requires
        0 <= saturation <= 1_000_000,
        0 <= lightness <= 1_000_000,
    ensures
        0 <= lower_level(saturation, lightness) <= lightness,
        lightness <= upper_level(saturation, lightness) <= 1_000_000,
{
    let ls = lightness * saturation;
    let d = ls / 1_000_000;
    assert(0 <= ls <= lightness * 1_000_000 && ls <= saturation * 1_000_000) by (nonlinear_arith)
        requires
            ls == lightness * saturation,
            0 <= saturation <= 1_000_000,
            0 <= lightness <= 1_000_000,
    ;
    assert(0 <= d <= lightness && d <= saturation);
    if lightness < 500_000 {
    } else {
        // (1 - l)(1 - s) >= 0 gives l + s - 1 <= ls, and l >= 1/2 gives
        // s - l <= ls.
        assert((1_000_000 - lightness) * (1_000_000 - saturation) >= 0) by (nonlinear_arith)
            requires
                0 <= saturation <= 1_000_000,
                0 <= lightness <= 1_000_000,
        ;
        assert((lightness + saturation - 1_000_000) * 1_000_000 <= ls) by (nonlinear_arith)
            requires
                ls == lightness * saturation,
                (1_000_000 - lightness) * (1_000_000 - saturation) >= 0,
        ;
        assert(lightness + saturation - 1_000_000 <= d);
        assert((saturation - lightness) * 1_000_000 <= ls) by (nonlinear_arith)
            requires
                ls == lightness * saturation,
                500_000 <= lightness <= 1_000_000,
                0 <= saturation <= 1_000_000,
        ;
        assert(saturation - lightness <= d);
    }
}

/// A channel lies between the two levels.
pub proof fn lemma_channel_between(p: int, q: int, t: int)
    requires
        0 <= p <= q,
        -120_000_000 <= t <= 480_000_000,
    ensures
        p <= channel_at(p, q, t) <= q,
{
    let t1 = if t < 0 {
        t + 360_000_000
    } else {
        t
    };
    let t2 = if t1 > 360_000_000 {
        t1 - 360_000_000
    } else {
        t1
    };
    if t2 < 60_000_000 {
        assert(0 <= (q - p) * t2 <= (q - p) * 60_000_000) by (nonlinear_arith)
            requires
                0 <= q - p,
                0 <= t2 < 60_000_000,
        ;
    } else if t2 < 180_000_000 {
    } else if t2 < 240_000_000 {
        let u = 240_000_000 - t2;
        assert(0 <= (q - p) * u <= (q - p) * 60_000_000) by (nonlinear_arith)
            requires
                0 <= q - p,
                0 < u <= 60_000_000,
        ;
    } else {
    }
}

/// The RGB color of a valid HSL color is valid, and grey where the
/// saturation is zero.
pub proof fn lemma_rgb_valid(c: Hsl)
    requires
        c.is_valid(),
    ensures
        spec_hsl_to_rgb(c).is_valid(),
        c.saturation == 0 ==> spec_hsl_to_rgb(c) == (Rgb {
            red: c.lightness,
            green: c.lightness,
            blue: c.lightness,
        }),
{
    if c.saturation != 0 {
        let q = upper_level(c.saturation as int, c.lightness as int);
        let p = lower_level(c.saturation as int, c.lightness as int);
        lemma_levels_bounded(c.saturation as int, c.lightness as int);
        lemma_channel_between(p, q, c.hue + 120_000_000);
        lemma_channel_between(p, q, c.hue as int);
        lemma_channel_between(p, q, c.hue - 120_000_000);
    }
}

/// Computes one channel from the two levels and the hue angle.
fn channel(p: u32, q: u32, t: i64) -> (c: u32)
    requires
        p <= q <= UNIT,
        -120_000_000 <= t <= 480_000_000,
    ensures
        c == channel_at(p as int, q as int, t as int),
        p <= c <= q,
{
    proof {
        lemma_channel_between(p as int, q as int, t as int);
    }
    let t1: i64 = if t < 0 {
        t + 360_000_000
    } else {
        t
    };
    let t2: u64 = if t1 > 360_000_000 {
        (t1 - 360_000_000) as u64
    } else {
        t1 as u64
    };
    let span: u64 = (q - p) as u64;
    if t2 < 60_000_000 {
        assert(span * t2 <= 1_000_000 * 60_000_000) by (nonlinear_arith)
            requires
                0 <= span <= 1_000_000,
                0 <= t2 < 60_000_000,
        ;
        let rise: u64 = span * t2 / 60_000_000;
        (p as u64 + rise) as u32
    } else if t2 < 180_000_000 {
        q
    } else if t2 < 240_000_000 {
        let u: u64 = 240_000_000 - t2;
        assert(span * u <= 1_000_000 * 60_000_000) by (nonlinear_arith)
            requires
                0 <= span <= 1_000_000,
                0 <= u <= 60_000_000,
        ;
        let rise: u64 = span * u / 60_000_000;
        (p as u64 + rise) as u32
    } else {
        p
    }
}

/// Converts an HSL color to RGB.
pub fn hsl_to_rgb(c: Hsl) -> (rgb: Rgb)
    requires
        c.is_valid(),
    ensures
        rgb == spec_hsl_to_rgb(c),
        rgb.is_valid(),
{
    proof {
        lemma_rgb_valid(c);
    }
    if c.saturation == 0 {
        return Rgb { red: c.lightness, green: c.lightness, blue: c.lightness };
    }
    proof {
        lemma_levels_bounded(c.saturation as int, c.lightness as int);
    }
    let l: u64 = c.lightness as u64;
    let s: u64 = c.saturation as u64;
    assert(l * s <= 1_000_000 * 1_000_000) by (nonlinear_arith)
        requires
            0 <= l <= 1_000_000,
            0 <= s <= 1_000_000,
    ;
    let mixed: u64 = l * s / 1_000_000;
    let q: u64 = if l < 500_000 {
        l + mixed
    } else {
        l + s - mixed
    };
    let p: u64 = 2 * l - q;
    let h: i64 = c.hue as i64;
    Rgb {
        red: channel(p as u32, q as u32, h + 120_000_000),
        green: channel(p as u32, q as u32, h),
        blue: channel(p as u32, q as u32, h - 120_000_000),
    }
}

} // verus!
