use vstd::prelude::*;

use crate::error::Error;

verus! {

/// Largest hue, in degrees.
pub const MAX_HUE: u32 = 360;

/// Largest saturation and largest value, in percent.
pub const MAX_PERCENT: u32 = 100;

/// Common denominator of chroma, secondary component and offset: 100 for the
/// saturation, 100 for the value and 60 for the degrees of one hue sector.
pub const SCALE: u32 = 600_000;

/// A colour as hue (degrees), saturation and value (percent).
#[derive(Clone, Copy, Debug, PartialEq, Eq, Structural)]
pub struct Hsv {
    pub h: u32,
    pub s: u32,
    pub v: u32,
}

/// A colour as three 8-bit channels.
#[derive(Clone, Copy, Debug, PartialEq, Eq, Structural)]
pub struct Rgb {
    pub r: u8,
    pub g: u8,
    pub b: u8,
}

/// The hue is at most 360 and saturation and value are at most 100.
pub open spec fn valid_hsv(h: int, s: int, v: int) -> bool {
    0 <= h <= 360 && 0 <= s <= 100 && 0 <= v <= 100
}

/// `60 * (1 - |(h / 60) mod 2 - 1|)`: within each pair of sectors the ramp
/// climbs from 0 to 60 over the first sector and falls back over the second.
pub open spec fn hue_ramp(h: int) -> int {
    let p = h % 120;
    if p <= 60 {
        p
    } else {
        120 - p
    }
}

/// Chroma `c = v * s` of the normalised saturation and value, times [`SCALE`].
pub open spec fn chroma(s: int, v: int) -> int {
    60 * (v * s)
}

/// Secondary component `x = c * (1 - |(h / 60) mod 2 - 1|)`, times [`SCALE`].
pub open spec fn secondary(h: int, s: int, v: int) -> int {
    (v * s) * hue_ramp(h)
}

/// Offset `m = v - c`, times [`SCALE`].
pub open spec fn offset(s: int, v: int) -> int {
    60 * (v * (100 - s))
}

/// The 8-bit channel for a component and the offset, both times [`SCALE`]:
/// `(component + m) * 255`, cut off after the decimal point.
pub open spec fn channel(component: int, m: int) -> int {
    ((component + m) * 255) / 600_000
}

/// The three channels of an HSV triple, red first, as whole numbers.
///
/// The hue selects one of six sectors of 60 degrees; 360 belongs to the last.
/// In each sector one channel carries the chroma, one the secondary component
/// and one neither, and the offset is added to all three. The arithmetic is
/// exact: a channel whose true value is a whole number gets that number.
pub open spec fn hsv_channels(h: int, s: int, v: int) -> (int, int, int) {
    let c = chroma(s, v);
    let x = secondary(h, s, v);
    let m = offset(s, v);
    let (r, g, b) = if h < 60 {
        (c, x, 0int)
    } else if h < 120 {
        (x, c, 0int)
    } else if h < 180 {
        (0int, c, x)
    } else if h < 240 {
        (0int, x, c)
    } else if h < 300 {
        (x, 0int, c)
    } else {
        (c, 0int, x)
    };
    (channel(r, m), channel(g, m), channel(b, m))
}

/// The RGB colour of an HSV triple: its three channels, each in a byte.
pub open spec fn hsv_to_rgb(h: int, s: int, v: int) -> Rgb {
    let (r, g, b) = hsv_channels(h, s, v);
    Rgb { r: r as u8, g: g as u8, b: b as u8 }
}

/// For a valid triple the three scaled quantities are non-negative, and each
/// component together with the offset stays within [`SCALE`].
pub proof fn lemma_components_bounded(h: int, s: int, v: int)
    requires
        valid_hsv(h, s, v),
    ensures
        0 <= v * s <= 10_000,
        0 <= v * (100 - s) <= 10_000,
        0 <= hue_ramp(h) <= 60,
        0 <= offset(s, v),
        0 <= secondary(h, s, v) <= chroma(s, v),
        chroma(s, v) + offset(s, v) == 6_000 * v,
        chroma(s, v) + offset(s, v) <= 600_000,
{
    let k = hue_ramp(h);
    assert(0 <= v * s <= 10_000) by (nonlinear_arith)
        requires
            0 <= s <= 100,
            0 <= v <= 100,
    ;
    assert(0 <= v * (100 - s) <= 10_000) by (nonlinear_arith)
        requires
            0 <= s <= 100,
            0 <= v <= 100,
    ;
    assert(0 <= (v * s) * k <= 60 * (v * s)) by (nonlinear_arith)
        requires
            0 <= v * s,
            0 <= k <= 60,
    ;
    assert(60 * (v * s) + 60 * (v * (100 - s)) == 6_000 * v) by (nonlinear_arith);
}

/// A channel is a whole number from 0 to 255 whenever component and offset
/// are non-negative and together stay within [`SCALE`].
pub proof fn lemma_channel_in_range(component: int, m: int)
    requires
        0 <= component,
        0 <= m,
        component + m <= 600_000,
    ensures
        0 <= channel(component, m) <= 255,
{
}

/// Every valid triple has a colour: each of its channels lies between 0 and
/// 255, so the bytes of [`hsv_to_rgb`] are the channels themselves.
pub proof fn lemma_channels_in_range(h: int, s: int, v: int)
    requires
        valid_hsv(h, s, v),
    ensures
        0 <= hsv_channels(h, s, v).0 <= 255,
        0 <= hsv_channels(h, s, v).1 <= 255,
        0 <= hsv_channels(h, s, v).2 <= 255,
        hsv_to_rgb(h, s, v).r as int == hsv_channels(h, s, v).0,
        hsv_to_rgb(h, s, v).g as int == hsv_channels(h, s, v).1,
        hsv_to_rgb(h, s, v).b as int == hsv_channels(h, s, v).2,
{
    lemma_components_bounded(h, s, v);
    let c = chroma(s, v);
    let x = secondary(h, s, v);
    let m = offset(s, v);
    lemma_channel_in_range(c, m);
    lemma_channel_in_range(x, m);
    lemma_channel_in_range(0, m);
}

impl Hsv {
    /// Whether the triple lies in the accepted range.
    pub open spec fn is_valid(self) -> bool {
        valid_hsv(self.h as int, self.s as int, self.v as int)
    }
}

impl Rgb {
    /// Converts an HSV triple to RGB.
    ///
    /// A triple out of range is rejected; nothing is clamped.
    pub fn from_hsv(h: u32, s: u32, v: u32) -> (result: Result<Rgb, Error>)
        ensures
            valid_hsv(h as int, s as int, v as int) ==> result == Ok::<Rgb, Error>(
                hsv_to_rgb(h as int, s as int, v as int),
            ),
            !valid_hsv(h as int, s as int, v as int) ==> result == Err::<Rgb, Error>(
                Error::InvalidColorInput,
            ),
    {
        if h > MAX_HUE || s > MAX_PERCENT || v > MAX_PERCENT {
            return Err(Error::InvalidColorInput);
        }
        proof {
            lemma_components_bounded(h as int, s as int, v as int);
        }
        let p: u32 = h % 120;
        let ramp: u32 = if p <= 60 {
            p
        } else {
            120 - p
        };
        let vs: u32 = v * s;
        let c: u32 = 60 * vs;
        let x: u32 = vs * ramp;
        let m: u32 = 60 * (v * (100 - s));
        let zero: u32 = 0;
        let (r, g, b) = if h < 60 {
            (c, x, zero)
        } else if h < 120 {
            (x, c, zero)
        } else if h < 180 {
            (zero, c, x)
        } else if h < 240 {
            (zero, x, c)
        } else if h < 300 {
            (x, zero, c)
        } else {
            (c, zero, x)
        };
        Ok(Rgb { r: to_channel(r, m), g: to_channel(g, m), b: to_channel(b, m) })
    }
}

/// The channel for a scaled component and the scaled offset.
fn to_channel(component: u32, m: u32) -> (value: u8)
    requires
        component + m <= SCALE,
    ensures
        value as int == channel(component as int, m as int),
{
    proof {
        lemma_channel_in_range(component as int, m as int);
    }
    let scaled: u32 = (component + m) * 255;
    (scaled / SCALE) as u8
}

} // verus!
