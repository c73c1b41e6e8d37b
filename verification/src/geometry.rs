//! Lengths, sizes and rectangles in fixed point.
//!
//! Every length is a whole number of sub-units.  `UNITS_PER_POINT` sub-units
//! make one display point when the length is a logical one, and one device
//! pixel when it is a physical one.

use vstd::prelude::*;

verus! {

/// Sub-units in one display point, and in one device pixel.
pub const UNITS_PER_POINT: u64 = 256;

/// The product of a length and a factor, held at the largest length where it
/// would exceed it.
pub open spec fn saturating_product(length: u64, factor: u32) -> u64 {
    if length * factor <= u64::MAX {
        (length * factor) as u64
    } else {
        u64::MAX
    }
}

/// Multiplies a length by a factor; a product beyond the largest length is
/// held at the largest length.
pub fn scale_length_up(length: u64, factor: u32) -> (product: u64)
    ensures
        product == saturating_product(length, factor),
{
    match length.checked_mul(factor as u64) {
        Some(product) => product,
        None => u64::MAX,
    }
}

/// Divides a length by a factor, rounding down.
pub fn scale_length_down(length: u64, factor: u32) -> (quotient: u64)
    requires
        factor > 0,
    ensures
        quotient == length / (factor as u64),
{
    length / (factor as u64)
}

/// A width and a height.
#[derive(Clone, Copy, PartialEq, Eq, Structural, Debug)]
pub struct Size {
    pub width: u64,
    pub height: u64,
}

impl Size {
    /// The size of nothing.
    pub fn zero() -> (size: Size)
        ensures
            size == (Size { width: 0, height: 0 }),
    {
        Size { width: 0, height: 0 }
    }

    /// A size from its two lengths in sub-units.
    pub fn new(width: u64, height: u64) -> (size: Size)
        ensures
            size == (Size { width, height }),
    {
        Size { width, height }
    }

    /// A size from whole display points (or whole device pixels).
    pub fn from_points(width: u32, height: u32) -> (size: Size)
        ensures
            size.width == width * UNITS_PER_POINT,
            size.height == height * UNITS_PER_POINT,
    {
        Size { width: (width as u64) * UNITS_PER_POINT, height: (height as u64) * UNITS_PER_POINT }
    }
}

/// A position; either coordinate may be negative.
#[derive(Clone, Copy, PartialEq, Eq, Structural, Debug)]
pub struct Point {
    pub x: i64,
    pub y: i64,
}

impl Point {
    /// The origin.
    pub fn zero() -> (point: Point)
        ensures
            point == (Point { x: 0, y: 0 }),
    {
        Point { x: 0, y: 0 }
    }

    /// A position from its two coordinates in sub-units.
    pub fn new(x: i64, y: i64) -> (point: Point)
        ensures
            point == (Point { x, y }),
    {
        Point { x, y }
    }
}

/// A rectangle on a surface, from its upper left corner `(x0, y0)` to its
/// lower right corner `(x1, y1)`.
#[derive(Clone, Copy, PartialEq, Eq, Structural, Debug)]
pub struct Rect {
    pub x0: u64,
    pub y0: u64,
    pub x1: u64,
    pub y1: u64,
}

impl Rect {
    /// The rectangle that covers a surface of the given size.
    pub open spec fn covering(size: Size) -> Rect {
        Rect { x0: 0, y0: 0, x1: size.width, y1: size.height }
    }

    /// The rectangle that starts at the surface's origin and has the given
    /// size.
    pub fn from_size(size: Size) -> (rect: Rect)
        ensures
            rect == Rect::covering(size),
    {
        Rect { x0: 0, y0: 0, x1: size.width, y1: size.height }
    }
}

/// The widths of the four borders between a window's frame and its content.
#[derive(Clone, Copy, PartialEq, Eq, Structural, Debug)]
pub struct Insets {
    pub x0: u64,
    pub y0: u64,
    pub x1: u64,
    pub y1: u64,
}

impl Insets {
    /// No border on any side.
    pub fn zero() -> (insets: Insets)
        ensures
            insets == (Insets { x0: 0, y0: 0, x1: 0, y1: 0 }),
    {
        Insets { x0: 0, y0: 0, x1: 0, y1: 0 }
    }
}

/// A set of rectangles of a surface, kept in the order in which they were
/// added.
#[derive(Debug, PartialEq, Eq)]
pub struct Region {
    rects: Vec<Rect>,
}

impl View for Region {
    type V = Seq<Rect>;

    closed spec fn view(&self) -> Seq<Rect> {
        self.rects@
    }
}

impl Region {
    /// The region that holds no rectangle.
    pub fn empty() -> (region: Region)
        ensures
            region@ == Seq::<Rect>::empty(),
    {
        Region { rects: Vec::new() }
    }

    /// Adds a rectangle behind those that the region holds.
    pub fn add_rect(&mut self, rect: Rect)
        ensures
            final(self)@ == old(self)@.push(rect),
    {
        self.rects.push(rect);
    }

    /// The rectangles of the region, in the order in which they were added.
    pub fn rects(&self) -> (rects: &Vec<Rect>)
        ensures
            rects@ == self@,
    {
        &self.rects
    }
}

} // verus!
