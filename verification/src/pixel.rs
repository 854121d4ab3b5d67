//! What one 8-bit RGB pixel contributes to a palette: its hue, saturation
//! and lightness, whether it is representative at all, and its hue bin.

use vstd::prelude::*;
use crate::color::Hsl;

verus! {

/// Number of hue bins.
pub const BIN_COUNT: usize = 12;

/// Width of one hue bin: thirty degrees.
pub const BIN_WIDTH: u32 = 30_000_000;

/// Pixels darker than this lightness are left out.
pub const MIN_LIGHTNESS: u32 = 80_000;

/// Pixels lighter than this lightness are left out.
pub const MAX_LIGHTNESS: u32 = 920_000;

/// Pixels whose largest and smallest channel differ by less than this part of
/// the channel range are left out as grey.
pub const MIN_SPREAD: u32 = 20_000;

/// The largest of the three channels.
pub open spec fn channel_max(r: u8, g: u8, b: u8) -> int {
    if r >= g && r >= b {
        r as int
    } else if g >= b {
        g as int
    } else {
        b as int
    }
}

/// The smallest of the three channels.
pub open spec fn channel_min(r: u8, g: u8, b: u8) -> int {
    if r <= g && r <= b {
        r as int
    } else if g <= b {
        g as int
    } else {
        b as int
    }
}

/// Lightness: the mean of the largest and the smallest channel, over the
/// channel range.
pub open spec fn pixel_lightness(r: u8, g: u8, b: u8) -> int {
    (channel_max(r, g, b) + channel_min(r, g, b)) * 1_000_000 / 510
}

/// Spread: the largest channel less the smallest, over the channel range.
pub open spec fn pixel_spread(r: u8, g: u8, b: u8) -> int {
    (channel_max(r, g, b) - channel_min(r, g, b)) * 1_000_000 / 255
}

/// A pixel is representative unless it is nearly black, nearly white or
/// nearly grey.
pub open spec fn is_representative(r: u8, g: u8, b: u8) -> bool {
    &&& pixel_lightness(r, g, b) >= MIN_LIGHTNESS
    &&& pixel_lightness(r, g, b) <= MAX_LIGHTNESS
    &&& pixel_spread(r, g, b) >= MIN_SPREAD
}

/// Saturation: the spread over the room that the lightness leaves.
pub open spec fn pixel_saturation(r: u8, g: u8, b: u8) -> int
    recommends
        is_representative(r, g, b),
{
    let sum = channel_max(r, g, b) + channel_min(r, g, b);
    let delta = channel_max(r, g, b) - channel_min(r, g, b);
    if pixel_lightness(r, g, b) < 500_000 {
        delta * 1_000_000 / sum
    } else {
        delta * 1_000_000 / (510 - sum)
    }
}

/// Hue in degrees, times the spread in channel steps. The sextant is chosen
/// by the largest channel, red before green before blue.
pub open spec fn pixel_hue_numerator(r: u8, g: u8, b: u8) -> int {
    let max = channel_max(r, g, b);
    let delta = max - channel_min(r, g, b);
    if max == r {
        if g >= b {
            60 * (g - b)
        } else {
            360 * delta - 60 * (b - g)
        }
    } else if max == g {
        60 * (b - r) + 120 * delta
    } else {
        60 * (r - g) + 240 * delta
    }
}

/// Hue, in millionths of a degree.
pub open spec fn pixel_hue(r: u8, g: u8, b: u8) -> int
    recommends
        is_representative(r, g, b),
{
    pixel_hue_numerator(r, g, b) * 1_000_000 / (channel_max(r, g, b) - channel_min(r, g, b))
}

/// The color of a representative pixel.
pub open spec fn pixel_hsl(r: u8, g: u8, b: u8) -> Hsl
    recommends
        is_representative(r, g, b),
{
    Hsl {
        hue: pixel_hue(r, g, b) as u32,
        saturation: pixel_saturation(r, g, b) as u32,
        lightness: pixel_lightness(r, g, b) as u32,
    }
}

/// The color that a pixel contributes, if any.
pub open spec fn spec_classify_pixel(r: u8, g: u8, b: u8) -> Option<Hsl> {
    if is_representative(r, g, b) {
        Some(pixel_hsl(r, g, b))
    } else {
        None
    }
}

/// The bin of a hue: thirty degrees each, the last one closed above.
pub open spec fn spec_hue_bin(hue: u32) -> int {
    if hue / BIN_WIDTH >= 11 {
        11
    } else {
        (hue / BIN_WIDTH) as int
    }
}

/// The three thresholds in whole channel steps: a pixel is representative
/// exactly when its largest and smallest channel add up to at least 41 and at
/// most 469 and differ by at least 6.
pub proof fn lemma_representative_in_channel_steps(r: u8, g: u8, b: u8)
    ensures
        is_representative(r, g, b) <==> {
            &&& 41 <= channel_max(r, g, b) + channel_min(r, g, b) <= 469
            &&& channel_max(r, g, b) - channel_min(r, g, b) >= 6
        },
{
}

/// The color of a representative pixel is valid.
pub proof fn lemma_pixel_hsl_valid(r: u8, g: u8, b: u8)
    requires
        is_representative(r, g, b),
    ensures
        pixel_hsl(r, g, b).is_valid(),
        pixel_hsl(r, g, b).hue == pixel_hue(r, g, b),
        pixel_hsl(r, g, b).saturation == pixel_saturation(r, g, b),
        pixel_hsl(r, g, b).lightness == pixel_lightness(r, g, b),
        0 <= pixel_hue_numerator(r, g, b) < 360 * (channel_max(r, g, b) - channel_min(r, g, b)),
{
    lemma_representative_in_channel_steps(r, g, b);
    let max = channel_max(r, g, b);
    let min = channel_min(r, g, b);
    let sum = max + min;
    let delta = max - min;
    let n = pixel_hue_numerator(r, g, b);
    assert(0 <= n < 360 * delta);
    assert(0 <= n * 1_000_000 / delta < 360_000_000) by (nonlinear_arith)
        requires
            0 <= n < 360 * delta,
            delta > 0,
    ;
    if pixel_lightness(r, g, b) < 500_000 {
        assert(0 <= delta * 1_000_000 / sum <= 1_000_000) by (nonlinear_arith)
            requires
                0 <= delta <= sum,
                sum > 0,
        ;
    } else {
        let room = 510 - sum;
        assert(0 <= delta * 1_000_000 / room <= 1_000_000) by (nonlinear_arith)
            requires
                0 <= delta <= room,
                room > 0,
        ;
    }
}

/// Tells whether a pixel is representative and, if so, its color.
pub fn classify_pixel(r: u8, g: u8, b: u8) -> (hsl: Option<Hsl>)
    ensures
        hsl == spec_classify_pixel(r, g, b),
        hsl matches Some(c) ==> c.is_valid(),
{
    let max: u8 = if r >= g && r >= b {
        r
    } else if g >= b {
        g
    } else {
        b
    };
    let min: u8 = if r <= g && r <= b {
        r
    } else if g <= b {
        g
    } else {
        b
    };
    let sum: u32 = max as u32 + min as u32;
    let delta: u32 = (max - min) as u32;
    let lightness: u32 = sum * 1_000_000 / 510;
    let spread: u32 = delta * 1_000_000 / 255;
    if lightness < MIN_LIGHTNESS || lightness > MAX_LIGHTNESS || spread < MIN_SPREAD {
        return None;
    }
    proof {
        lemma_representative_in_channel_steps(r, g, b);
        lemma_pixel_hsl_valid(r, g, b);
    }
    let saturation: u32 = if lightness < 500_000 {
        delta * 1_000_000 / sum
    } else {
        delta * 1_000_000 / (510 - sum)
    };
    let numerator: u64 = if max == r {
        if g >= b {
            60 * (g - b) as u64
        } else {
            360 * delta as u64 - 60 * (b - g) as u64
        }
    } else if max == g {
        if b >= r {
            120 * delta as u64 + 60 * (b - r) as u64
        } else {
            120 * delta as u64 - 60 * (r - b) as u64
        }
    } else {
        if r >= g {
            240 * delta as u64 + 60 * (r - g) as u64
        } else {
            240 * delta as u64 - 60 * (g - r) as u64
        }
    };
    assert(numerator == pixel_hue_numerator(r, g, b));
    let hue: u64 = numerator * 1_000_000 / (delta as u64);
    Some(Hsl { hue: hue as u32, saturation, lightness })
}

/// The bin of a hue.
pub fn hue_bin(hue: u32) -> (bin: usize)
    ensures
        bin == spec_hue_bin(hue),
        bin < BIN_COUNT,
{
    let bin: u32 = hue / BIN_WIDTH;
    if bin >= 11 {
        11
    } else {
        bin as usize
    }
}

} // verus!
