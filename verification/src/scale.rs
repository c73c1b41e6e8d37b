//! Scale factors between display points and device pixels.

use vstd::prelude::*;
use vstd::arithmetic::div_mod::lemma_fundamental_div_mod;
use crate::geometry::{saturating_product, scale_length_down, scale_length_up, Size, UNITS_PER_POINT};

verus! {

/// The largest factor that a scale can hold in either direction.
pub const MAX_SCALE_FACTOR: u32 = 128;

/// True where `factor` is a number of device pixels per display point that a
/// scale can hold.
pub open spec fn valid_factor(factor: int) -> bool {
    1 <= factor <= MAX_SCALE_FACTOR
}

/// The number of device pixels that one display point covers, horizontally and
/// vertically.  Both factors are whole numbers between 1 and
/// `MAX_SCALE_FACTOR`.
#[derive(Clone, Copy, PartialEq, Eq, Structural, Debug)]
pub struct Scale {
    x: u32,
    y: u32,
}

impl Scale {
    #[verifier::type_invariant]
    spec fn inv(self) -> bool {
        self.wf()
    }

    /// The horizontal factor.
    pub closed spec fn x_factor(self) -> u32 {
        self.x
    }

    /// The vertical factor.
    pub closed spec fn y_factor(self) -> u32 {
        self.y
    }

    /// Holds of every scale that executable code can get hold of.
    pub open spec fn wf(self) -> bool {
        valid_factor(self.x_factor() as int) && valid_factor(self.y_factor() as int)
    }

    /// The scale with the given factors, where both are valid.
    pub fn new(x: u32, y: u32) -> (scale: Option<Scale>)
        ensures
            scale.is_some() <==> valid_factor(x as int) && valid_factor(y as int),
            scale matches Some(s) ==> s.wf() && s.x_factor() == x && s.y_factor() == y,
    {
        if 1 <= x && x <= MAX_SCALE_FACTOR && 1 <= y && y <= MAX_SCALE_FACTOR {
            Some(Scale { x, y })
        } else {
            None
        }
    }

    /// The scale at which one display point is one device pixel.
    pub fn identity() -> (scale: Scale)
        ensures
            scale.wf(),
            scale.x_factor() == 1,
            scale.y_factor() == 1,
    {
        Scale { x: 1, y: 1 }
    }

    /// The scale for a whole-number factor as the protocol reports it, the
    /// same in both directions, where the factor is valid.
    pub fn uniform(factor: i32) -> (scale: Option<Scale>)
        ensures
            scale.is_some() <==> valid_factor(factor as int),
            scale matches Some(s) ==> s.wf() && s.x_factor() == factor && s.y_factor() == factor,
    {
        if 1 <= factor && factor <= 128 {
            Some(Scale { x: factor as u32, y: factor as u32 })
        } else {
            None
        }
    }

    /// The horizontal factor.
    pub fn x(&self) -> (factor: u32)
        ensures
            factor == self.x_factor(),
            valid_factor(factor as int),
    {
        proof {
            use_type_invariant(self);
        }
        self.x
    }

    /// The vertical factor.
    pub fn y(&self) -> (factor: u32)
        ensures
            factor == self.y_factor(),
            valid_factor(factor as int),
    {
        proof {
            use_type_invariant(self);
        }
        self.y
    }
}

impl Default for Scale {
    fn default() -> (scale: Scale)
        ensures
            scale.wf(),
            scale.x_factor() == 1,
            scale.y_factor() == 1,
    {
        Scale::identity()
    }
}

impl Size {
    /// This size in device pixels, where it is in display points at `scale`.
    pub open spec fn in_px(self, scale: Scale) -> Size {
        Size {
            width: saturating_product(self.width, scale.x_factor()),
            height: saturating_product(self.height, scale.y_factor()),
        }
    }

    /// This size in display points at `scale`, where it is in device pixels.
    /// Each length is rounded down to a whole sub-unit.
    pub open spec fn in_dp(self, scale: Scale) -> Size {
        Size {
            width: (self.width / (scale.x_factor() as u64)) as u64,
            height: (self.height / (scale.y_factor() as u64)) as u64,
        }
    }

    /// The size, in display points at scale `to`, of a surface that has this
    /// size in display points at scale `from`: the surface keeps its device
    /// pixels.
    pub open spec fn rescaled(self, from: Scale, to: Scale) -> Size {
        self.in_px(from).in_dp(to)
    }

    /// True where this size, taken in display points at `scale`, has both
    /// lengths within the largest length when converted to device pixels.
    pub open spec fn fits_px(self, scale: Scale) -> bool {
        self.width * scale.x_factor() <= u64::MAX && self.height * scale.y_factor() <= u64::MAX
    }

    /// Converts from display points at `scale` to device pixels.  A length
    /// that would exceed the largest length is held at it.
    pub fn to_px(self, scale: Scale) -> (px: Size)
        ensures
            px == self.in_px(scale),
    {
        Size {
            width: scale_length_up(self.width, scale.x()),
            height: scale_length_up(self.height, scale.y()),
        }
    }

    /// Converts from device pixels to display points at `scale`, rounding
    /// each length down to a whole sub-unit.
    pub fn to_dp(self, scale: Scale) -> (dp: Size)
        ensures
            dp == self.in_dp(scale),
    {
        Size {
            width: scale_length_down(self.width, scale.x()),
            height: scale_length_down(self.height, scale.y()),
        }
    }
}

/// What one length loses when it goes from factor `a` to factor `b` and back:
/// it never grows, and it shrinks by less than `a + b` sub-units of a device
/// pixel at factor `a`.
proof fn lemma_length_round_trip(length: u64, a: u32, b: u32)
    requires
        valid_factor(a as int),
        valid_factor(b as int),
        length * a <= u64::MAX,
    ensures
        ({
            let there = saturating_product(length, a) / (b as u64);
            let back = saturating_product(there as u64, b) / (a as u64);
            &&& there * b <= u64::MAX
            &&& back <= length
            &&& (length - back) * a < a + b
        }),
{
    let px = (length * a) as int;
    let there = px / (b as int);
    lemma_fundamental_div_mod(px, b as int);
    assert(there * b == (b as int) * there) by (nonlinear_arith);
    let px_there = there * b;
    assert(px - b < px_there <= px);
    assert(0 <= there) by (nonlinear_arith)
        requires
            0 <= px,
            0 < b,
            there == px / (b as int),
    ;
    let back = px_there / (a as int);
    lemma_fundamental_div_mod(px_there, a as int);
    assert(back * a == (a as int) * back) by (nonlinear_arith);
    let px_back = back * a;
    assert(px_there - a < px_back <= px_there);
    assert(back <= length) by (nonlinear_arith)
        requires
            back * a <= length * a,
            0 < a,
    ;
    assert((length - back) * a == length * a - back * a) by (nonlinear_arith);
}

/// Scale-change round trip.  A surface whose size is `size` at scale `s1`,
/// taken to scale `s2` and back to `s1`, has a size that is no larger than
/// `size` and that, in device pixels at `s1`, is less than one device pixel
/// smaller in either direction.  The size has to have both lengths within the
/// largest length when converted to device pixels at `s1`.
pub proof fn lemma_rescale_round_trip(size: Size, s1: Scale, s2: Scale)
    requires
        s1.wf(),
        s2.wf(),
        size.fits_px(s1),
    ensures
        ({
            let back = size.rescaled(s1, s2).rescaled(s2, s1);
            &&& back.width <= size.width
            &&& back.height <= size.height
            &&& size.in_px(s1).width - back.in_px(s1).width < UNITS_PER_POINT
            &&& size.in_px(s1).height - back.in_px(s1).height < UNITS_PER_POINT
        }),
{
    lemma_length_round_trip(size.width, s1.x_factor(), s2.x_factor());
    lemma_length_round_trip(size.height, s1.y_factor(), s2.y_factor());
    let back = size.rescaled(s1, s2).rescaled(s2, s1);
    assert(back.width * s1.x_factor() <= size.width * s1.x_factor()) by (nonlinear_arith)
        requires
            back.width <= size.width,
    ;
    assert(back.height * s1.y_factor() <= size.height * s1.y_factor()) by (nonlinear_arith)
        requires
            back.height <= size.height,
    ;
    assert((size.width - back.width) * s1.x_factor() == size.width * s1.x_factor() - back.width
        * s1.x_factor()) by (nonlinear_arith);
    assert((size.height - back.height) * s1.y_factor() == size.height * s1.y_factor()
        - back.height * s1.y_factor()) by (nonlinear_arith);
}

} // verus!
