//! Turning a rectangle drawn in logical display coordinates into a capture
//! region in physical pixels.

use crate::error::CaptureError;
use vstd::prelude::*;

verus! {

/// A rectangle drawn by the user, in logical display coordinates relative to
/// the top-left corner of the monitor it was drawn on.
#[derive(Clone, Copy, Debug, PartialEq, Eq, Structural)]
pub struct LogicalRect {
    pub x: u32,
    pub y: u32,
    pub width: u32,
    pub height: u32,
}

/// Ratio of physical pixels to logical units on a monitor, as a fraction:
/// `numerator / denominator`. A plain display has `1 / 1`, a display at 150 %
/// has `3 / 2`.
#[derive(Clone, Copy, Debug, PartialEq, Eq, Structural)]
pub struct ScaleFactor {
    pub numerator: u32,
    pub denominator: u32,
}

/// A monitor and its size in physical pixels.
#[derive(Clone, Copy, Debug, PartialEq, Eq, Structural)]
pub struct Monitor {
    pub id: u32,
    pub width: u32,
    pub height: u32,
}

/// The area to capture, in physical pixels relative to the top-left corner of
/// its monitor.
#[derive(Clone, Copy, Debug, PartialEq, Eq, Structural)]
pub struct Region {
    pub x: u32,
    pub y: u32,
    pub width: u32,
    pub height: u32,
}

/// The quotient `a / b` rounded to the nearest integer, halves rounded up.
pub open spec fn round_div(a: int, b: int) -> int
    recommends
        a >= 0,
        b > 0,
{
    (2 * a + b) / (2 * b)
}

/// A logical length in physical pixels, before clamping: the product with the
/// scale factor, rounded to the nearest integer.
pub open spec fn scaled(length: u32, scale: ScaleFactor) -> int {
    round_div(length * scale.numerator, scale.denominator as int)
}

/// Start of a physical span on an axis of `bound` pixels: the scaled start,
/// pulled back so that at least one pixel is left.
pub open spec fn span_start(start: u32, scale: ScaleFactor, bound: u32) -> int {
    if scaled(start, scale) < bound {
        scaled(start, scale)
    } else {
        bound - 1
    }
}

/// Length of a physical span on an axis of `bound` pixels: the scaled length,
/// at least one pixel and at most what is left after the start.
pub open spec fn span_length(start: u32, length: u32, scale: ScaleFactor, bound: u32) -> int {
    let room = bound - span_start(start, scale, bound);
    if scaled(length, scale) < 1 {
        1
    } else if scaled(length, scale) > room {
        room
    } else {
        scaled(length, scale)
    }
}

/// The capture region that a rectangle of nonzero area stands for on
/// `monitor` at `scale`.
pub open spec fn physical_region(
    monitor: Monitor,
    rect: LogicalRect,
    scale: ScaleFactor,
) -> Region {
    Region {
        x: span_start(rect.x, scale, monitor.width) as u32,
        y: span_start(rect.y, scale, monitor.height) as u32,
        width: span_length(rect.x, rect.width, scale, monitor.width) as u32,
        height: span_length(rect.y, rect.height, scale, monitor.height) as u32,
    }
}

impl LogicalRect {
    /// Whether the rectangle covers nothing.
    pub open spec fn zero_area(self) -> bool {
        self.width == 0 || self.height == 0
    }

    /// Whether the rectangle covers nothing.
    pub fn has_zero_area(&self) -> (zero: bool)
        ensures
            zero == self.zero_area(),
    {
        self.width == 0 || self.height == 0
    }
}

impl ScaleFactor {
    /// A scale factor is a positive fraction.
    pub open spec fn valid(self) -> bool {
        self.numerator > 0 && self.denominator > 0
    }

    /// The fraction `numerator / denominator`, if it is positive.
    pub fn new(numerator: u32, denominator: u32) -> (scale: Option<ScaleFactor>)
        ensures
            scale == (if numerator > 0 && denominator > 0 {
                Some(ScaleFactor { numerator, denominator })
            } else {
                None
            }),
    {
        if numerator > 0 && denominator > 0 {
            Some(ScaleFactor { numerator, denominator })
        } else {
            None
        }
    }

    /// The scale of a display that maps logical units to pixels one to one.
    pub fn identity() -> (scale: ScaleFactor)
        ensures
            scale == (ScaleFactor { numerator: 1, denominator: 1 }),
            scale.valid(),
    {
        ScaleFactor { numerator: 1, denominator: 1 }
    }

    /// `length` logical units in physical pixels, rounded to the nearest pixel.
    pub fn apply(&self, length: u32) -> (pixels: u64)
        requires
            self.valid(),
        ensures
            pixels == scaled(length, *self),
    {
        assert(length * self.numerator <= 0xffff_ffff * 0xffff_ffff) by (nonlinear_arith)
            requires
                0 <= length <= 0xffff_ffff,
                0 <= self.numerator <= 0xffff_ffff,
        ;
        let product: u64 = length as u64 * self.numerator as u64;
        rounded_quotient(product, self.denominator as u64)
    }
}

impl Monitor {
    /// A monitor has at least one pixel in each direction.
    pub open spec fn valid(self) -> bool {
        self.width > 0 && self.height > 0
    }

    /// The monitor `id` of the given physical size, if it has any pixels.
    pub fn new(id: u32, width: u32, height: u32) -> (monitor: Option<Monitor>)
        ensures
            monitor == (if width > 0 && height > 0 {
                Some(Monitor { id, width, height })
            } else {
                None
            }),
    {
        if width > 0 && height > 0 {
            Some(Monitor { id, width, height })
        } else {
            None
        }
    }
}

impl Region {
    /// A region covers at least one pixel and its far edges are coordinates.
    pub open spec fn valid(self) -> bool {
        &&& self.width >= 1
        &&& self.height >= 1
        &&& self.x + self.width <= u32::MAX
        &&& self.y + self.height <= u32::MAX
    }

    /// The region lies inside the monitor.
    pub open spec fn within(self, monitor: Monitor) -> bool {
        &&& self.x + self.width <= monitor.width
        &&& self.y + self.height <= monitor.height
    }

    /// Whether the region lies inside the monitor.
    pub fn is_within(&self, monitor: &Monitor) -> (inside: bool)
        ensures
            inside == self.within(*monitor),
    {
        self.x as u64 + self.width as u64 <= monitor.width as u64 && self.y as u64
            + self.height as u64 <= monitor.height as u64
    }
}

/// Rounded quotient of two machine integers.
pub fn rounded_quotient(a: u64, b: u64) -> (q: u64)
    requires
        b > 0,
    ensures
        q == round_div(a as int, b as int),
{
    let whole: u64 = a / b;
    let rest: u64 = a % b;
    proof {
        lemma_round_div(a as int, b as int);
    }
    if rest >= b - rest {
        assert(whole < a) by (nonlinear_arith)
            requires
                a == b * whole + rest,
                0 < rest < b,
                whole >= 0,
        ;
        whole + 1
    } else {
        whole
    }
}

/// One axis of the selection: start and length in physical pixels.
fn span(start: u32, length: u32, scale: &ScaleFactor, bound: u32) -> (out: (u32, u32))
    requires
        scale.valid(),
        bound > 0,
    ensures
        out.0 == span_start(start, *scale, bound),
        out.1 == span_length(start, length, *scale, bound),
        out.1 >= 1,
        out.0 + out.1 <= bound,
{
    let first: u64 = scale.apply(start);
    let origin: u32 = if first < bound as u64 {
        first as u32
    } else {
        bound - 1
    };
    let room: u32 = bound - origin;
    let extent: u64 = scale.apply(length);
    let size: u32 = if extent < 1 {
        1
    } else if extent > room as u64 {
        room
    } else {
        extent as u32
    };
    (origin, size)
}

/// The region selector: turns the rectangle the user drew on `monitor` into
/// the region to capture. Each coordinate is multiplied by the scale factor
/// and rounded to the nearest pixel; the result is then clamped so that it
/// covers at least one pixel and lies inside the monitor. A rectangle without
/// area is refused.
pub fn begin_selection(monitor: &Monitor, rect: LogicalRect, scale: ScaleFactor) -> (selection: Result<
    Region,
    CaptureError,
>)
    requires
        monitor.valid(),
        scale.valid(),
    ensures
        selection == (if rect.zero_area() {
            Err(CaptureError::InvalidRegion)
        } else {
            Ok(physical_region(*monitor, rect, scale))
        }),
        selection matches Ok(region) ==> region.valid() && region.within(*monitor),
{
    if rect.has_zero_area() {
        return Err(CaptureError::InvalidRegion);
    }
    let (x, width) = span(rect.x, rect.width, &scale, monitor.width);
    let (y, height) = span(rect.y, rect.height, &scale, monitor.height);
    Ok(Region { x, y, width, height })
}

/// `round_div` in terms of the truncated quotient and the remainder.
pub proof fn lemma_round_div(a: int, b: int)
    requires
        a >= 0,
        b > 0,
    ensures
        round_div(a, b) == if 2 * (a % b) >= b { a / b + 1 } else { a / b },
        0 <= a / b <= a,
        a == b * (a / b) + a % b,
        0 <= a % b < b,
{
    let q = a / b;
    let r = a % b;
    assert(a == b * q + r && 0 <= r < b) by {
        vstd::arithmetic::div_mod::lemma_fundamental_div_mod(a, b);
        vstd::arithmetic::div_mod::lemma_mod_bound(a, b);
    }
    assert(0 <= q <= a) by {
        vstd::arithmetic::div_mod::lemma_div_pos_is_pos(a, b);
        vstd::arithmetic::div_mod::lemma_div_is_ordered_by_denominator(a, 1, b);
    }
    if 2 * r >= b {
        let k = 2 * r - b;
        assert(2 * a + b == (2 * b) * (q + 1) + k) by (nonlinear_arith)
            requires
                a == b * q + r,
                k == 2 * r - b,
        ;
        vstd::arithmetic::div_mod::lemma_fundamental_div_mod_converse(2 * a + b, 2 * b, q + 1, k);
    } else {
        let k = 2 * r + b;
        assert(2 * a + b == (2 * b) * q + k) by (nonlinear_arith)
            requires
                a == b * q + r,
                k == 2 * r + b,
        ;
        vstd::arithmetic::div_mod::lemma_fundamental_div_mod_converse(2 * a + b, 2 * b, q, k);
    }
}

/// Whatever rectangle is drawn, at whatever scale, the region computed for it
/// covers at least one pixel in each direction and lies inside the monitor.
pub proof fn lemma_selection_in_bounds(monitor: Monitor, rect: LogicalRect, scale: ScaleFactor)
    requires
        monitor.valid(),
        scale.valid(),
    ensures
        physical_region(monitor, rect, scale).valid(),
        physical_region(monitor, rect, scale).within(monitor),
        physical_region(monitor, rect, scale).width >= 1,
        physical_region(monitor, rect, scale).height >= 1,
{
    lemma_scaled_nonnegative(rect.x, scale);
    lemma_scaled_nonnegative(rect.y, scale);
}

/// A scaled length is not negative.
pub proof fn lemma_scaled_nonnegative(length: u32, scale: ScaleFactor)
    requires
        scale.valid(),
    ensures
        scaled(length, scale) >= 0,
{
    assert(length * scale.numerator >= 0) by (nonlinear_arith)
        requires
            length >= 0,
            scale.numerator >= 0,
    ;
    lemma_round_div(length * scale.numerator, scale.denominator as int);
}

} // verus!
