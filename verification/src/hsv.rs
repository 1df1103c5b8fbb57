//! Hue/saturation/value colour tuples and their conversion to red/green/blue.

use vstd::prelude::*;

use crate::vector::lemma_mul_bound;

verus! {

/// An exact rational channel value `n/d`.
#[derive(Clone, Copy, PartialEq, Eq, Structural, Debug)]
pub struct Chan {
    pub n: i64,
    pub d: i64,
}

impl Chan {
    /// The channel value `n/d`.
    pub fn new(n: i64, d: i64) -> (r: Chan)
        requires
            d > 0,
        ensures
            r.n == n,
            r.d == d,
    {
        Chan { n, d }
    }
}

/// A colour given by red, green and blue.
#[derive(Clone, Copy, PartialEq, Eq, Structural, Debug)]
pub struct RGB<T> {
    pub r: T,
    pub g: T,
    pub b: T,
}

impl<T> RGB<T> {
    pub fn new(r: T, g: T, b: T) -> (c: RGB<T>)
        ensures
            c.r == r,
            c.g == g,
            c.b == b,
    {
        RGB { r, g, b }
    }
}

/// A colour given by red, green, blue and opacity.
#[derive(Clone, Copy, PartialEq, Eq, Structural, Debug)]
pub struct RGBA<T> {
    pub r: T,
    pub g: T,
    pub b: T,
    pub a: T,
}

impl<T> RGBA<T> {
    pub fn new(r: T, g: T, b: T, a: T) -> (c: RGBA<T>)
        ensures
            c.r == r,
            c.g == g,
            c.b == b,
            c.a == a,
    {
        RGBA { r, g, b, a }
    }
}

/// The numerators of the red, green and blue channels of the colour with hue
/// `hn/hd` (degrees), saturation `sn/sd` and value `vn/vd`, all over the
/// common denominator `60 * hd * sd * vd`: the closed-form conversion from
/// hue/saturation/value.
///
/// The chroma is `v * s`; the hue sector is `h / 60`; the second-largest
/// channel is `chroma * (1 - |((h / 60) mod 2) - 1|)`; the remainder
/// `v - chroma` is added to every channel.
pub open spec fn rgb_of_hsv(hn: int, hd: int, sn: int, sd: int, vn: int, vd: int) -> (int, int, int) {
    let m = hn % (120 * hd);
    let f = if m >= 60 * hd {
        60 * hd - (m - 60 * hd)
    } else {
        60 * hd - (60 * hd - m)
    };
    let chroma = vn * sn * (60 * hd);
    let x = vn * sn * f;
    let base = if hn < 60 * hd {
        (chroma, x, 0int)
    } else if hn < 120 * hd {
        (x, chroma, 0int)
    } else if hn < 180 * hd {
        (0int, chroma, x)
    } else if hn < 240 * hd {
        (0int, x, chroma)
    } else if hn < 300 * hd {
        (x, 0int, chroma)
    } else if hn < 360 * hd {
        (chroma, 0int, x)
    } else {
        (0int, 0int, 0int)
    };
    let rest = vn * (sd - sn) * (60 * hd);
    (base.0 + rest, base.1 + rest, base.2 + rest)
}

/// A colour given by hue, saturation and value.
#[derive(Clone, Copy, PartialEq, Eq, Structural, Debug)]
pub struct HSV<T> {
    pub h: T,
    pub s: T,
    pub v: T,
}

impl<T> HSV<T> {
    pub fn new(h: T, s: T, v: T) -> (r: HSV<T>)
        ensures
            r.h == h,
            r.s == s,
            r.v == v,
    {
        HSV { h, s, v }
    }
}

/// A colour given by hue, saturation, value and opacity.
#[derive(Clone, Copy, PartialEq, Eq, Structural, Debug)]
pub struct HSVA<T> {
    pub h: T,
    pub s: T,
    pub v: T,
    pub a: T,
}

impl<T> HSVA<T> {
    pub fn new(h: T, s: T, v: T, a: T) -> (r: HSVA<T>)
        ensures
            r.h == h,
            r.s == s,
            r.v == v,
            r.a == a,
    {
        HSVA { h, s, v, a }
    }

    /// Widens a colour by an opacity channel.
    pub fn from_hsv_a(hsv: HSV<T>, a: T) -> (r: HSVA<T>)
        ensures
            r.h == hsv.h,
            r.s == hsv.s,
            r.v == hsv.v,
            r.a == a,
    {
        HSVA { h: hsv.h, s: hsv.s, v: hsv.v, a }
    }
}

impl<T: Copy> HSVA<T> {
    /// The colour without its opacity channel.
    pub fn hsv(&self) -> (r: HSV<T>)
        ensures
            r.h == self.h,
            r.s == self.s,
            r.v == self.v,
    {
        HSV { h: self.h, s: self.s, v: self.v }
    }
}

impl<T: Copy> HSV<T> {
    /// The colour itself; hue, saturation and value are kept exactly.
    pub fn to_hsv(&self) -> (r: HSV<T>)
        ensures
            r.h == self.h,
            r.s == self.s,
            r.v == self.v,
    {
        HSV { h: self.h, s: self.s, v: self.v }
    }
}

/// Widens a colour by an opacity channel, keeping each channel exactly.
pub fn to_hsva<T: Copy>(hsv: &HSV<T>, a: T) -> (r: HSVA<T>)
    ensures
        r.h == hsv.h,
        r.s == hsv.s,
        r.v == hsv.v,
        r.a == a,
{
    HSVA::from_hsv_a(hsv.to_hsv(), a)
}


impl HSV<Chan> {
    /// Converts the colour to red/green/blue channels over the common
    /// denominator `60 * h.d * s.d * v.d`, by the closed-form formula
    /// `rgb_of_hsv`.  The bounds on the channel fractions only keep the
    /// exact integer arithmetic within 64 bits.
    pub fn to_rgb(&self) -> (c: RGB<Chan>)
        requires
            0 <= self.h.n,
            0 < self.h.d <= 100_000,
            -100_000 <= self.s.n <= 100_000,
            0 < self.s.d <= 100_000,
            -100_000 <= self.v.n <= 100_000,
            0 < self.v.d <= 100_000,
        ensures
            (c.r.n as int, c.g.n as int, c.b.n as int) == rgb_of_hsv(
                self.h.n as int,
                self.h.d as int,
                self.s.n as int,
                self.s.d as int,
                self.v.n as int,
                self.v.d as int,
            ),
            c.r.d == 60 * (self.h.d as int) * (self.s.d as int) * (self.v.d as int),
            c.g.d == c.r.d,
            c.b.d == c.r.d,
    {
        proof {
            lemma_mul_bound(self.v.n as int, self.s.n as int, 100_000, 100_000);
            lemma_mul_bound(
                (self.v.n as int) * (self.s.n as int),
                60 * (self.h.d as int),
                10_000_000_000,
                6_000_000,
            );
            lemma_mul_bound(self.v.n as int, (self.s.d - self.s.n) as int, 100_000, 200_000);
            lemma_mul_bound(
                (self.v.n as int) * ((self.s.d - self.s.n) as int),
                60 * (self.h.d as int),
                20_000_000_000,
                6_000_000,
            );
            lemma_mul_bound(60 * (self.h.d as int), self.s.d as int, 6_000_000, 100_000);
            lemma_mul_bound(
                60 * (self.h.d as int) * (self.s.d as int),
                self.v.d as int,
                600_000_000_000,
                100_000,
            );
        }
        let hd60: i64 = 60 * self.h.d;
        let m: i64 = self.h.n % (120 * self.h.d);
        let f: i64 = if m >= hd60 {
            hd60 - (m - hd60)
        } else {
            hd60 - (hd60 - m)
        };
        proof {
            lemma_mul_bound(
                (self.v.n as int) * (self.s.n as int),
                f as int,
                10_000_000_000,
                6_000_000,
            );
        }
        let vs: i128 = (self.v.n as i128) * (self.s.n as i128);
        let chroma: i128 = vs * (hd60 as i128);
        let x: i128 = vs * (f as i128);
        let rest: i128 = (self.v.n as i128) * ((self.s.d - self.s.n) as i128) * (hd60 as i128);
        let base: (i128, i128, i128) = if self.h.n < hd60 {
            (chroma, x, 0)
        } else if self.h.n < 120 * self.h.d {
            (x, chroma, 0)
        } else if self.h.n < 180 * self.h.d {
            (0, chroma, x)
        } else if self.h.n < 240 * self.h.d {
            (0, x, chroma)
        } else if self.h.n < 300 * self.h.d {
            (x, 0, chroma)
        } else if self.h.n < 360 * self.h.d {
            (chroma, 0, x)
        } else {
            (0, 0, 0)
        };
        let den: i64 = hd60 * self.s.d * self.v.d;
        RGB {
            r: Chan { n: (base.0 + rest) as i64, d: den },
            g: Chan { n: (base.1 + rest) as i64, d: den },
            b: Chan { n: (base.2 + rest) as i64, d: den },
        }
    }
}

impl HSVA<Chan> {
    /// Converts the colour to red/green/blue/opacity channels; the colour
    /// channels follow `rgb_of_hsv` and the opacity channel is kept exactly.
    pub fn to_rgba(&self) -> (c: RGBA<Chan>)
        requires
            0 <= self.h.n,
            0 < self.h.d <= 100_000,
            -100_000 <= self.s.n <= 100_000,
            0 < self.s.d <= 100_000,
            -100_000 <= self.v.n <= 100_000,
            0 < self.v.d <= 100_000,
        ensures
            (c.r.n as int, c.g.n as int, c.b.n as int) == rgb_of_hsv(
                self.h.n as int,
                self.h.d as int,
                self.s.n as int,
                self.s.d as int,
                self.v.n as int,
                self.v.d as int,
            ),
            c.r.d == 60 * (self.h.d as int) * (self.s.d as int) * (self.v.d as int),
            c.g.d == c.r.d,
            c.b.d == c.r.d,
            c.a == self.a,
    {
        let rgb = self.hsv().to_rgb();
        RGBA { r: rgb.r, g: rgb.g, b: rgb.b, a: self.a }
    }
}

} // verus!
