//! Dual-space 2D geometry: coordinate-space tags, the generic point, size,
//! rectangle and vector containers they parametrize, and the scale factor
//! that converts values between the two spaces.
//!
//! Every scalar component is a 32-bit IEEE 754 number, held here as its raw
//! bit pattern: bit 31 is the sign, bits 30..23 are the exponent, and an
//! all-ones exponent field marks an infinity or a NaN. The arithmetic on
//! those patterns — one multiplication or division per component — is done
//! by a software implementation of the IEEE single-precision format, so the
//! conversions themselves are verified here, with the product and quotient
//! of two bit patterns as named functions of the patterns alone.

use core::marker::PhantomData;
use rustc_apfloat::Float;
use vstd::prelude::*;

verus! {

/// Logical pixels: the DPI-independent coordinate space.
///
/// A marker type with no data. It parametrizes the generic geometry
/// containers so that logical-space values are a different type from
/// device-space values and the two cannot be confused.
pub struct LogicalPixels;

/// Device pixels: the physical pixel coordinate space.
///
/// The device-space counterpart of [`LogicalPixels`]; values tagged with it
/// are measured in physical pixels on the output display.
pub struct DevicePixels;

/// A 2D point in the space tagged `U`, each coordinate the bit pattern of
/// a single-precision number.
#[derive(Debug, PartialEq)]
pub struct Point2<U> {
    pub x: u32,
    pub y: u32,
    pub space: PhantomData<U>,
}

impl<U> Copy for Point2<U> {}

impl<U> Clone for Point2<U> {
    fn clone(&self) -> (r: Self)
        ensures
            r == *self,
    {
        Point2 { x: self.x, y: self.y, space: PhantomData }
    }
}

impl<U> Point2<U> {
    pub fn new(x: u32, y: u32) -> (r: Point2<U>)
        ensures
            r.x == x,
            r.y == y,
    {
        Point2 { x, y, space: PhantomData }
    }
}

/// A 2D size in the space tagged `U`, width and height each the bit
/// pattern of a single-precision number.
#[derive(Debug, PartialEq)]
pub struct Size2<U> {
    pub width: u32,
    pub height: u32,
    pub space: PhantomData<U>,
}

impl<U> Copy for Size2<U> {}

impl<U> Clone for Size2<U> {
    fn clone(&self) -> (r: Self)
        ensures
            r == *self,
    {
        Size2 { width: self.width, height: self.height, space: PhantomData }
    }
}

impl<U> Size2<U> {
    pub fn new(width: u32, height: u32) -> (r: Size2<U>)
        ensures
            r.width == width,
            r.height == height,
    {
        Size2 { width, height, space: PhantomData }
    }
}

/// An axis-aligned rectangle in the space tagged `U`: an origin point and
/// a size. No normalization is applied; a negative width or height is kept
/// as given.
#[derive(Debug, PartialEq)]
pub struct Rect2<U> {
    pub origin: Point2<U>,
    pub size: Size2<U>,
}

impl<U> Copy for Rect2<U> {}

impl<U> Clone for Rect2<U> {
    fn clone(&self) -> (r: Self)
        ensures
            r == *self,
    {
        Rect2 { origin: self.origin, size: self.size }
    }
}

impl<U> Rect2<U> {
    pub fn new(origin: Point2<U>, size: Size2<U>) -> (r: Rect2<U>)
        ensures
            r.origin == origin,
            r.size == size,
    {
        Rect2 { origin, size }
    }
}

/// A 2D displacement vector in the space tagged `U`, each component the
/// bit pattern of a single-precision number.
#[derive(Debug, PartialEq)]
pub struct Vector2<U> {
    pub x: u32,
    pub y: u32,
    pub space: PhantomData<U>,
}

impl<U> Copy for Vector2<U> {}

impl<U> Clone for Vector2<U> {
    fn clone(&self) -> (r: Self)
        ensures
            r == *self,
    {
        Vector2 { x: self.x, y: self.y, space: PhantomData }
    }
}

impl<U> Vector2<U> {
    pub fn new(x: u32, y: u32) -> (r: Vector2<U>)
        ensures
            r.x == x,
            r.y == y,
    {
        Vector2 { x, y, space: PhantomData }
    }
}

// Logical space type aliases
pub type Point = Point2<LogicalPixels>;
pub type Size = Size2<LogicalPixels>;
pub type Rect = Rect2<LogicalPixels>;
pub type Vector = Vector2<LogicalPixels>;

// Device space type aliases
pub type DevicePoint = Point2<DevicePixels>;
pub type DeviceSize = Size2<DevicePixels>;
pub type DeviceRect = Rect2<DevicePixels>;

/// The bit pattern of the IEEE single-precision product of the numbers the
/// two given bit patterns encode, rounded to nearest, ties to even.
pub uninterp spec fn mul_single(a: u32, b: u32) -> u32;

/// The bit pattern of the IEEE single-precision quotient of the numbers
/// the two given bit patterns encode, rounded to nearest, ties to even.
/// Defined for every pair of patterns: a nonzero number divided by a zero
/// gives an infinity, a zero divided by a zero gives a NaN.
pub uninterp spec fn div_single(a: u32, b: u32) -> u32;

/// Relies on rustc_apfloat's `ieee::Single` multiplication: a software
/// implementation of IEEE 754 binary32 arithmetic, rounding to nearest,
/// ties to even, whose result depends on the two bit patterns alone.
#[verifier::external_body]
fn mul_bits(a: u32, b: u32) -> (r: u32)
    ensures
        r == mul_single(a, b),
{
    let x = rustc_apfloat::ieee::Single::from_bits(a as u128);
    let y = rustc_apfloat::ieee::Single::from_bits(b as u128);
    (x * y).value.to_bits() as u32
}

/// Relies on rustc_apfloat's `ieee::Single` division: a software
/// implementation of IEEE 754 binary32 arithmetic, rounding to nearest,
/// ties to even, whose result depends on the two bit patterns alone.
#[verifier::external_body]
fn div_bits(a: u32, b: u32) -> (r: u32)
    ensures
        r == div_single(a, b),
{
    let x = rustc_apfloat::ieee::Single::from_bits(a as u128);
    let y = rustc_apfloat::ieee::Single::from_bits(b as u128);
    (x / y).value.to_bits() as u32
}

/// The sign bit of a single-precision bit pattern is set: the value is
/// negative (or a negative zero, infinity or NaN).
pub open spec fn sign_bit_set(bits: u32) -> bool {
    bits & 0x8000_0000 != 0
}

/// The exponent field of a single-precision bit pattern is not all ones:
/// the value is finite (neither an infinity nor a NaN).
pub open spec fn finite_bits(bits: u32) -> bool {
    bits & 0x7f80_0000 != 0x7f80_0000
}

/// All bits but the sign are clear: the value is a zero of either sign.
pub open spec fn zero_bits(bits: u32) -> bool {
    bits & 0x7fff_ffff == 0
}

/// A bit pattern stands for a valid scale ratio when the value it encodes
/// is finite, strictly positive and nonzero: exactly the invariant a scale
/// factor is expected to satisfy. A zero ratio would divide by zero on the
/// way back from device space, and a negative one would mirror geometry.
pub open spec fn valid_scale_bits(bits: u32) -> bool {
    finite_bits(bits) && !sign_bit_set(bits) && !zero_bits(bits)
}

/// What scaling a point means: each coordinate is multiplied by the ratio.
pub open spec fn scale_point_spec(ratio: u32, p: Point) -> DevicePoint {
    Point2 { x: mul_single(p.x, ratio), y: mul_single(p.y, ratio), space: PhantomData }
}

/// What scaling a size means: width and height are multiplied by the ratio.
pub open spec fn scale_size_spec(ratio: u32, s: Size) -> DeviceSize {
    Size2 { width: mul_single(s.width, ratio), height: mul_single(s.height, ratio), space: PhantomData }
}

/// What scaling a rectangle means: strictly the independent scaling of its
/// origin and of its size, with no re-normalization.
pub open spec fn scale_rect_spec(ratio: u32, r: Rect) -> DeviceRect {
    Rect2 { origin: scale_point_spec(ratio, r.origin), size: scale_size_spec(ratio, r.size) }
}

/// What unscaling a point means: each coordinate is divided by the ratio.
pub open spec fn unscale_point_spec(ratio: u32, p: DevicePoint) -> Point {
    Point2 { x: div_single(p.x, ratio), y: div_single(p.y, ratio), space: PhantomData }
}

/// What unscaling a size means: width and height are divided by the ratio.
pub open spec fn unscale_size_spec(ratio: u32, s: DeviceSize) -> Size {
    Size2 { width: div_single(s.width, ratio), height: div_single(s.height, ratio), space: PhantomData }
}

/// What unscaling a rectangle means: strictly the independent unscaling of
/// its origin and of its size.
pub open spec fn unscale_rect_spec(ratio: u32, r: DeviceRect) -> Rect {
    Rect2 { origin: unscale_point_spec(ratio, r.origin), size: unscale_size_spec(ratio, r.size) }
}

/// Scale factor for converting between logical and device pixels.
///
/// Wraps the raw single-precision bit pattern of the ratio of device pixels
/// to logical pixels. The wrapper is permissive: any bit pattern can be
/// stored, as the componentwise multiplication and division that consume
/// the ratio are defined for every value. [`ScaleFactor::checked_from_bits`]
/// is the hardened constructor that admits only a valid ratio.
#[derive(Clone, Copy, Debug, PartialEq, Eq, Structural)]
pub struct ScaleFactor(pub u32);

impl ScaleFactor {
    /// Wraps a raw bit pattern as a scale factor, with no validity check.
    pub fn from_bits(bits: u32) -> (r: ScaleFactor)
        ensures
            r.0 == bits,
    {
        ScaleFactor(bits)
    }

    /// The raw bit pattern of the ratio.
    pub fn bits(&self) -> (r: u32)
        ensures
            r == self.0,
    {
        self.0
    }

    /// Whether the stored ratio is finite, positive and nonzero.
    pub fn is_valid(&self) -> (r: bool)
        ensures
            r == valid_scale_bits(self.0),
    {
        self.0 & 0x7f80_0000 != 0x7f80_0000
            && self.0 & 0x8000_0000 == 0
            && self.0 & 0x7fff_ffff != 0
    }

    /// The hardened constructor: wraps the bit pattern only when it encodes
    /// a finite, positive, nonzero ratio, and reports an invalid one by
    /// returning nothing rather than deferring to NaN propagation downstream.
    pub fn checked_from_bits(bits: u32) -> (r: Option<ScaleFactor>)
        ensures
            r is Some <==> valid_scale_bits(bits),
            r matches Some(s) ==> s.0 == bits,
    {
        let candidate = ScaleFactor(bits);
        if candidate.is_valid() {
            Some(candidate)
        } else {
            None
        }
    }

    /// Projects a logical point into device space by multiplying each
    /// coordinate by the stored ratio.
    pub fn scale_point(&self, p: Point) -> (r: DevicePoint)
        ensures
            r == scale_point_spec(self.0, p),
    {
        Point2::new(mul_bits(p.x, self.0), mul_bits(p.y, self.0))
    }

    /// Projects a logical size into device space by multiplying width and
    /// height by the stored ratio.
    pub fn scale_size(&self, s: Size) -> (r: DeviceSize)
        ensures
            r == scale_size_spec(self.0, s),
    {
        Size2::new(mul_bits(s.width, self.0), mul_bits(s.height, self.0))
    }

    /// Projects a logical rectangle into device space: strictly the
    /// independent scaling of its origin and its size, with no
    /// re-normalization of a negative width or height.
    pub fn scale_rect(&self, r: Rect) -> (d: DeviceRect)
        ensures
            d == scale_rect_spec(self.0, r),
    {
        Rect2::new(self.scale_point(r.origin), self.scale_size(r.size))
    }

    /// Projects a device point back into logical space by dividing each
    /// coordinate by the stored ratio. With a zero ratio the components
    /// come out infinite or NaN, as division defines them.
    pub fn unscale_point(&self, p: DevicePoint) -> (r: Point)
        ensures
            r == unscale_point_spec(self.0, p),
    {
        Point2::new(div_bits(p.x, self.0), div_bits(p.y, self.0))
    }

    /// Projects a device size back into logical space by dividing width
    /// and height by the stored ratio.
    pub fn unscale_size(&self, s: DeviceSize) -> (r: Size)
        ensures
            r == unscale_size_spec(self.0, s),
    {
        Size2::new(div_bits(s.width, self.0), div_bits(s.height, self.0))
    }

    /// Projects a device rectangle back into logical space: strictly the
    /// independent unscaling of its origin and its size.
    pub fn unscale_rect(&self, r: DeviceRect) -> (d: Rect)
        ensures
            d == unscale_rect_spec(self.0, r),
    {
        Rect2::new(self.unscale_point(r.origin), self.unscale_size(r.size))
    }
}

} // verus!
