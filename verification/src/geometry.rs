use vstd::arithmetic::div_mod::{
    lemma_div_multiples_vanish, lemma_fundamental_div_mod, lemma_mod_bound,
};
use vstd::arithmetic::power2::{lemma2_to64, lemma_pow2_strictly_increases, lemma_pow2_unfold, pow2};
use vstd::prelude::*;

verus! {

/// The ratio of device pixels to logical pixels of a display: a positive
/// fraction, kept exactly.
#[derive(Clone, Copy, Debug)]
pub struct ScaleFactor {
    numer: u32,
    denom: u32,
}

/// One monitor, in logical units, as the caller found it.
#[derive(Clone, Copy, Debug)]
pub struct DisplayInfo {
    pub x: i32,
    pub y: i32,
    pub width: u32,
    pub height: u32,
    pub scale_factor: ScaleFactor,
}

/// A rectangle in device pixels.
#[derive(Clone, Copy, Debug, PartialEq, Eq, Structural)]
pub struct DeviceRegion {
    pub x: i32,
    pub y: i32,
    pub width: u32,
    pub height: u32,
}

/// What a capture fetches and what it reports: the device rectangle to read,
/// and the width and height that the final image carries.
#[derive(Clone, Copy, Debug, PartialEq, Eq, Structural)]
pub struct CapturePlan {
    pub source: DeviceRegion,
    pub width: u32,
    pub height: u32,
}

/// The exponent field of a binary32 number: bits 23 to 30.
pub open spec fn binary32_exponent(bits: u32) -> int {
    (bits as int / 0x80_0000) % 0x100
}

/// The significand of a normal binary32 number: the 23 bits of the fraction
/// under a leading one. The number is the significand times two to the
/// power of the exponent field less 150.
pub open spec fn binary32_significand(bits: u32) -> int {
    0x80_0000 + bits as int % 0x80_0000
}

/// Whether the sign bit of a binary32 number is set.
pub open spec fn binary32_is_negative(bits: u32) -> bool {
    bits >= 0x8000_0000
}

/// The least exponent field of a binary32 number that `ScaleFactor` holds:
/// that of 2^-8.
pub const MIN_EXPONENT: u32 = 119;

/// The exponent field at which the significand is the number itself.
pub const UNIT_EXPONENT: u32 = 150;

/// The greatest exponent field of a binary32 number that `ScaleFactor`
/// holds: numbers below 2^32.
pub const MAX_EXPONENT: u32 = 158;

/// Two to the power of `e`.
fn power_of_two(e: u32) -> (p: u32)
    requires
        e <= 31,
    ensures
        p == pow2(e as nat),
{
    let mut p: u32 = 1;
    let mut i: u32 = 0;
    proof {
        lemma2_to64();
    }
    while i < e
        invariant
            i <= e <= 31,
            p == pow2(i as nat),
        decreases e - i,
    {
        proof {
            lemma2_to64();
            lemma_pow2_unfold((i + 1) as nat);
            lemma_pow2_strictly_increases((i + 1) as nat, 32);
        }
        p = p * 2;
        i = i + 1;
    }
    p
}

/// The quotient of `n` by a positive `d`, rounded toward zero.
pub open spec fn truncated_quotient(n: int, d: int) -> int {
    if n >= 0 {
        n / d
    } else {
        -((-n) / d)
    }
}

/// The nearest `i32` to `v`.
pub open spec fn saturated_i32(v: int) -> i32 {
    if v < i32::MIN {
        i32::MIN
    } else if v > i32::MAX {
        i32::MAX
    } else {
        v as i32
    }
}

/// The nearest `u32` to `v`.
pub open spec fn saturated_u32(v: int) -> u32 {
    if v < 0 {
        0u32
    } else if v > u32::MAX {
        u32::MAX
    } else {
        v as u32
    }
}

impl ScaleFactor {
    #[verifier::type_invariant]
    spec fn well_formed(self) -> bool {
        self.is_positive()
    }

    /// The upper part of the fraction.
    pub closed spec fn numerator(self) -> int {
        self.numer as int
    }

    /// The lower part of the fraction.
    pub closed spec fn denominator(self) -> int {
        self.denom as int
    }

    /// Holds of every scale factor that `new` hands out.
    pub open spec fn is_positive(self) -> bool {
        self.numerator() > 0 && self.denominator() > 0
    }

    /// `v` logical units in device pixels: the product with the scale
    /// factor, rounded toward zero.
    pub open spec fn scaled(self, v: int) -> int {
        truncated_quotient(v * self.numerator(), self.denominator())
    }

    /// The scale factor `numer / denom`, if it is positive.
    pub fn new(numer: u32, denom: u32) -> (scale: Option<ScaleFactor>)
        ensures
            scale is Some <==> numer > 0 && denom > 0,
            scale matches Some(s) ==> s.numerator() == numer && s.denominator() == denom
                && s.is_positive(),
    {
        if numer > 0 && denom > 0 {
            Some(ScaleFactor { numer, denom })
        } else {
            None
        }
    }

    /// The scale factor of a display whose logical and device pixels agree.
    pub fn one() -> (scale: ScaleFactor)
        ensures
            scale.numerator() == 1,
            scale.denominator() == 1,
            scale.is_positive(),
    {
        ScaleFactor { numer: 1, denom: 1 }
    }

    /// The scale factor whose value is that of the binary32 number with the
    /// bit pattern `bits`, exactly. There is one for each positive number
    /// from 2^-8 up to, and without, 2^32.
    ///
    /// Scaling by it is the exact product, rounded toward zero only once, and
    /// so can differ by one from a product taken in binary32 arithmetic,
    /// which rounds before it is cut. The binary32 number nearest 1.3 is a
    /// little less than 1.3: it scales a length of 1920 to 2495, where the
    /// binary32 product is 2496.
    pub fn from_binary32_bits(bits: u32) -> (scale: Option<ScaleFactor>)
        ensures
            scale is Some <==> !binary32_is_negative(bits) && MIN_EXPONENT <= binary32_exponent(
                bits,
            ) <= MAX_EXPONENT,
            scale matches Some(s) ==> s.is_positive() && if binary32_exponent(bits)
                >= UNIT_EXPONENT {
                s.numerator() == binary32_significand(bits) * pow2(
                    (binary32_exponent(bits) - UNIT_EXPONENT) as nat,
                ) && s.denominator() == 1
            } else {
                s.numerator() == binary32_significand(bits) && s.denominator() == pow2(
                    (UNIT_EXPONENT - binary32_exponent(bits)) as nat,
                )
            },
    {
        let exponent: u32 = (bits / 0x80_0000) % 0x100;
        let significand: u32 = 0x80_0000 + bits % 0x80_0000;
        if bits >= 0x8000_0000 || exponent < MIN_EXPONENT || exponent > MAX_EXPONENT {
            None
        } else if exponent >= UNIT_EXPONENT {
            let factor = power_of_two(exponent - UNIT_EXPONENT);
            proof {
                lemma2_to64();
                if exponent - UNIT_EXPONENT < 8 {
                    lemma_pow2_strictly_increases((exponent - UNIT_EXPONENT) as nat, 8);
                }
                assert(significand * factor <= 0xff_ffff * 0x100) by (nonlinear_arith)
                    requires
                        0 <= significand <= 0xff_ffff,
                        0 <= factor <= 0x100,
                ;
                assert(significand * factor >= significand) by (nonlinear_arith)
                    requires
                        significand >= 0,
                        factor >= 1,
                ;
            }
            Some(ScaleFactor { numer: significand * factor, denom: 1 })
        } else {
            let denom = power_of_two(UNIT_EXPONENT - exponent);
            proof {
                lemma2_to64();
                lemma_pow2_strictly_increases(0, (UNIT_EXPONENT - exponent) as nat);
            }
            Some(ScaleFactor { numer: significand, denom })
        }
    }

    /// The upper part of the fraction.
    pub fn numer(&self) -> (n: u32)
        ensures
            n == self.numerator(),
            n > 0,
    {
        proof {
            use_type_invariant(self);
        }
        self.numer
    }

    /// The lower part of the fraction.
    pub fn denom(&self) -> (d: u32)
        ensures
            d == self.denominator(),
            d > 0,
    {
        proof {
            use_type_invariant(self);
        }
        self.denom
    }

    /// The product of a magnitude with the scale factor, rounded down.
    fn scale_magnitude(&self, magnitude: u64) -> (q: u64)
        requires
            magnitude <= 0x1_0000_0000,
        ensures
            q == (magnitude * self.numerator()) / self.denominator(),
            self.is_positive(),
    {
        proof {
            use_type_invariant(self);
            assert(magnitude * self.numer <= 0x1_0000_0000 * 0xffff_ffff) by (nonlinear_arith)
                requires
                    0 <= magnitude <= 0x1_0000_0000,
                    0 <= self.numer <= 0xffff_ffff,
            ;
        }
        (magnitude * self.numer as u64) / self.denom as u64
    }

    /// The device coordinate of the logical coordinate `origin + offset`.
    pub fn scale_position(&self, origin: i32, offset: i32) -> (device: i32)
        ensures
            device == saturated_i32(self.scaled(origin + offset)),
    {
        let sum: i64 = origin as i64 + offset as i64;
        if sum >= 0 {
            let q = self.scale_magnitude(sum as u64);
            proof {
                lemma_scaled_sign(sum as int, self.numerator());
            }
            if q > i32::MAX as u64 {
                i32::MAX
            } else {
                q as i32
            }
        } else {
            let q = self.scale_magnitude((-sum) as u64);
            proof {
                lemma_scaled_sign(sum as int, self.numerator());
            }
            if q > 0x8000_0000u64 {
                i32::MIN
            } else {
                (-(q as i64)) as i32
            }
        }
    }

    /// The device length of the logical length `length`.
    pub fn scale_length(&self, length: u32) -> (device: u32)
        ensures
            device == saturated_u32(self.scaled(length as int)),
    {
        let q = self.scale_magnitude(length as u64);
        proof {
            lemma_scaled_sign(length as int, self.numerator());
        }
        if q > u32::MAX as u64 {
            u32::MAX
        } else {
            q as u32
        }
    }
}

/// The sign of a product with a positive factor is that of the other.
proof fn lemma_scaled_sign(v: int, n: int)
    by (nonlinear_arith)
    requires
        n > 0,
    ensures
        v >= 0 ==> v * n >= 0,
        v < 0 ==> v * n < 0,
        -(v * n) == (-v) * n,
{
}

/// Scaling rounds toward zero: the result has the sign of `v`, and it is the
/// whole number that lies at the exact product or next to it on the side of
/// zero.
pub proof fn lemma_scaled_rounds_toward_zero(scale: ScaleFactor, v: int)
    requires
        scale.is_positive(),
    ensures
        v >= 0 ==> 0 <= scale.scaled(v) * scale.denominator() <= v * scale.numerator()
            < (scale.scaled(v) + 1) * scale.denominator(),
        v < 0 ==> (scale.scaled(v) - 1) * scale.denominator() < v * scale.numerator()
            <= scale.scaled(v) * scale.denominator() <= 0,
{
    let n = scale.numerator();
    let d = scale.denominator();
    lemma_scaled_sign(v, n);
    let magnitude = if v >= 0 {
        v * n
    } else {
        -(v * n)
    };
    let q = magnitude / d;
    lemma_fundamental_div_mod(magnitude, d);
    lemma_mod_bound(magnitude, d);
    assert(q * d == d * q && (q + 1) * d == d * q + d && (-q - 1) * d == -(d * q) - d && (-q) * d
        == -(d * q)) by (nonlinear_arith);
    assert(q >= 0) by (nonlinear_arith)
        requires
            d > 0,
            d * q + magnitude % d == magnitude,
            0 <= magnitude % d < d,
            magnitude >= 0,
    ;
    assert(q * d >= 0) by (nonlinear_arith)
        requires
            q >= 0,
            d > 0,
    ;
}

/// A scale factor of one changes nothing.
pub proof fn lemma_unit_scale_is_identity(scale: ScaleFactor, v: int)
    requires
        scale.is_positive(),
        scale.numerator() == scale.denominator(),
    ensures
        scale.scaled(v) == v,
{
    let d = scale.denominator();
    lemma_scaled_sign(v, d);
    if v >= 0 {
        lemma_div_multiples_vanish(v, d);
    } else {
        lemma_div_multiples_vanish(-v, d);
    }
}

/// The device rectangle of a whole display.
pub open spec fn display_region(display: DisplayInfo) -> DeviceRegion {
    let s = display.scale_factor;
    DeviceRegion {
        x: saturated_i32(s.scaled(display.x as int)),
        y: saturated_i32(s.scaled(display.y as int)),
        width: saturated_u32(s.scaled(display.width as int)),
        height: saturated_u32(s.scaled(display.height as int)),
    }
}

/// The device rectangle of an area given relative to a display's origin:
/// the area is first moved into the display's place, then scaled.
pub open spec fn area_region(display: DisplayInfo, x: int, y: int, width: int, height: int)
    -> DeviceRegion {
    let s = display.scale_factor;
    DeviceRegion {
        x: saturated_i32(s.scaled(x + display.x)),
        y: saturated_i32(s.scaled(y + display.y)),
        width: saturated_u32(s.scaled(width)),
        height: saturated_u32(s.scaled(height)),
    }
}

/// The plan for a whole display: the image reports the size of the device
/// rectangle.
pub open spec fn display_plan(display: DisplayInfo) -> CapturePlan {
    let source = display_region(display);
    CapturePlan { source, width: source.width, height: source.height }
}

/// The plan for an area of a display: the image reports the width and height
/// that were asked for, in logical units, whatever the scale.
pub open spec fn area_plan(display: DisplayInfo, x: i32, y: i32, width: u32, height: u32)
    -> CapturePlan {
    CapturePlan {
        source: area_region(display, x as int, y as int, width as int, height as int),
        width,
        height,
    }
}

/// Plans the capture of a whole display.
pub fn map_display(display: &DisplayInfo) -> (plan: CapturePlan)
    ensures
        plan == display_plan(*display),
{
    let s = &display.scale_factor;
    let source = DeviceRegion {
        x: s.scale_position(display.x, 0),
        y: s.scale_position(display.y, 0),
        width: s.scale_length(display.width),
        height: s.scale_length(display.height),
    };
    CapturePlan { source, width: source.width, height: source.height }
}

/// Plans the capture of the area of `width` by `height` logical units at
/// `(x, y)` from the display's origin.
pub fn map_area(display: &DisplayInfo, x: i32, y: i32, width: u32, height: u32) -> (plan:
    CapturePlan)
    ensures
        plan == area_plan(*display, x, y, width, height),
{
    let s = &display.scale_factor;
    let source = DeviceRegion {
        x: s.scale_position(x, display.x),
        y: s.scale_position(y, display.y),
        width: s.scale_length(width),
        height: s.scale_length(height),
    };
    CapturePlan { source, width, height }
}

} // verus!
