//! Origin-relative positioning: converts a logical anchor point, an origin
//! ratio, a bitmap extent and a flip state into the top-left corner at which
//! the bitmap must be drawn.

use vstd::arithmetic::div_mod::{lemma_fundamental_div_mod, lemma_mod_division_less_than_divisor};
use vstd::arithmetic::mul::lemma_mul_nonnegative;
use vstd::prelude::*;

verus! {

/// An exact fraction `num / den` with a positive denominator, standing for an
/// origin ratio along one axis: `0/1` is the top or left edge, `1/1` the
/// bottom or right edge. Values outside `[0, 1]`, including negative ones,
/// are meaningful and extrapolate the anchor beyond the bitmap's bounds.
#[derive(Debug, Clone, Copy, PartialEq, Eq, Structural)]
pub struct Ratio {
    /// The numerator; any sign.
    pub num: i32,
    /// The denominator; must be positive for the ratio to be well formed.
    pub den: i32,
}

impl Ratio {
    /// A well-formed ratio has a positive denominator.
    pub open spec fn wf(&self) -> bool {
        self.den > 0
    }

    /// Builds the ratio `num / den`.
    pub fn new(num: i32, den: i32) -> (r: Ratio)
        requires
            den > 0,
        ensures
            r.wf(),
            r.num == num,
            r.den == den,
    {
        Ratio { num, den }
    }

    /// Builds the whole-number ratio `v / 1`.
    pub fn from_int(v: i32) -> (r: Ratio)
        ensures
            r.wf(),
            r.num == v,
            r.den == 1,
    {
        Ratio { num: v, den: 1 }
    }
}

/// Quotient of `a` by `d` rounded toward zero, for a positive divisor `d`.
/// This matches the rounding of converting a fractional product to an
/// integer by truncation.
pub open spec fn div_trunc(a: int, d: int) -> int {
    if a >= 0 {
        a / d
    } else {
        -((-a) / d)
    }
}

/// The numerator effectively anchoring one axis: when the axis is flipped,
/// the bitmap's visual origin reflects across its centre, so the ratio
/// `num / den` becomes `(den - num) / den`.
pub open spec fn axis_numerator(origin: Ratio, flip: bool) -> int {
    if flip {
        origin.den - origin.num
    } else {
        origin.num as int
    }
}

/// How far the drawn top-left corner sits before the anchor along one axis:
/// the bitmap extent scaled by the (flip-adjusted) origin ratio, truncated
/// toward zero.
pub open spec fn origin_offset(extent: int, origin: Ratio, flip: bool) -> int {
    div_trunc(extent * axis_numerator(origin, flip), origin.den as int)
}

/// The top-left corner at which a bitmap of the given size must be drawn so
/// that the anchor described by `origin` lands on `position`, with the
/// anchor mirrored in lockstep with the per-axis flip flags.
pub open spec fn spec_position_from_origin(
    position: (i32, i32),
    origin: (Ratio, Ratio),
    size: (i32, i32),
    flip: (bool, bool),
) -> (int, int) {
    (
        position.0 - origin_offset(size.0 as int, origin.0, flip.0),
        position.1 - origin_offset(size.1 as int, origin.1, flip.1),
    )
}

/// Whether the top-left corner computed for these arguments stays inside the
/// representable range of 32-bit screen coordinates.
pub open spec fn anchor_in_range(
    position: (i32, i32),
    origin: (Ratio, Ratio),
    size: (i32, i32),
    flip: (bool, bool),
) -> bool {
    let tl = spec_position_from_origin(position, origin, size, flip);
    &&& i32::MIN <= tl.0 <= i32::MAX
    &&& i32::MIN <= tl.1 <= i32::MAX
}

/// One axis of the anchor computation: subtracts the truncated scaled offset
/// from the anchor position.
fn axis_adjust(pos: i32, extent: i32, origin: Ratio, flip: bool) -> (r: i32)
    requires
        extent >= 0,
        origin.wf(),
        i32::MIN <= pos - origin_offset(extent as int, origin, flip) <= i32::MAX,
    ensures
        r == pos - origin_offset(extent as int, origin, flip),
{
    let num: i64 = if flip {
        origin.den as i64 - origin.num as i64
    } else {
        origin.num as i64
    };
    assert(num == axis_numerator(origin, flip));
    let neg: bool = num < 0;
    let mag: u64 = if neg {
        (-num) as u64
    } else {
        num as u64
    };
    assert(mag <= 0x1_0000_0000u64);
    assert((extent as u64) * mag <= 0x7fff_ffffu64 * 0x1_0000_0000u64) by (nonlinear_arith)
        requires
            extent as u64 <= 0x7fff_ffffu64,
            mag <= 0x1_0000_0000u64,
    ;
    let prod: u64 = (extent as u64) * mag;
    let quot: u64 = prod / (origin.den as u64);
    let off: i64 = if neg {
        -(quot as i64)
    } else {
        quot as i64
    };
    proof {
        let n = axis_numerator(origin, flip);
        let d = origin.den as int;
        if neg {
            assert(extent as int * n == -(prod as int)) by (nonlinear_arith)
                requires
                    n == num as int,
                    num < 0,
                    prod == (extent as u64) * mag,
                    mag == (-num) as u64,
                    num >= -0x1_0000_0000i64,
                    extent >= 0,
            ;
            assert(extent * n < 0 || extent * n == 0);
            if extent as int * n == 0 {
                assert(prod == 0);
                vstd::arithmetic::div_mod::lemma_div_of0(d);
                assert(off == div_trunc(extent as int * n, d));
            } else {
                assert(div_trunc(extent as int * n, d) == -((prod as int) / d));
                assert(quot == (prod as int) / d);
                assert(off == div_trunc(extent as int * n, d));
            }
        } else {
            assert(extent as int * n == prod as int) by (nonlinear_arith)
                requires
                    n == num as int,
                    num >= 0,
                    prod == (extent as u64) * mag,
                    mag == num as u64,
                    extent >= 0,
            ;
            lemma_mul_nonnegative(extent as int, n);
            assert(div_trunc(extent as int * n, d) == (prod as int) / d);
            assert(off == div_trunc(extent as int * n, d));
        }
        assert(off == origin_offset(extent as int, origin, flip));
    }
    let adjusted: i64 = pos as i64 - off;
    adjusted as i32
}

/// Converts an anchor `position`, a per-axis `origin` ratio, a bitmap `size`
/// and a pair of per-axis flip flags into the top-left draw coordinate. Pure;
/// the caller keeps the result within the 32-bit coordinate range.
pub fn position_from_origin(
    position: (i32, i32),
    origin: (Ratio, Ratio),
    size: (i32, i32),
    flip: (bool, bool),
) -> (r: (i32, i32))
    requires
        size.0 >= 0,
        size.1 >= 0,
        origin.0.wf(),
        origin.1.wf(),
        anchor_in_range(position, origin, size, flip),
    ensures
        r.0 == spec_position_from_origin(position, origin, size, flip).0,
        r.1 == spec_position_from_origin(position, origin, size, flip).1,
{
    (
        axis_adjust(position.0, size.0, origin.0, flip.0),
        axis_adjust(position.1, size.1, origin.1, flip.1),
    )
}

/// One axis of [`lemma_position_recovered`]: for an origin ratio in `[0, 1]`,
/// the exact anchor offset `extent * n / den` lies within `[off, off + 1)` of
/// the truncated offset `off` actually used.
proof fn lemma_anchor_recovered(extent: int, origin: Ratio, flip: bool)
    requires
        extent >= 0,
        origin.wf(),
        0 <= origin.num <= origin.den,
    ensures
        ({
            let off = origin_offset(extent, origin, flip);
            let n = axis_numerator(origin, flip);
            off * origin.den <= extent * n < (off + 1) * origin.den
        }),
{
    let n = axis_numerator(origin, flip);
    let d = origin.den as int;
    assert(0 <= n <= d);
    lemma_mul_nonnegative(extent, n);
    let a = extent * n;
    assert(origin_offset(extent, origin, flip) == a / d);
    lemma_fundamental_div_mod(a, d);
    lemma_mod_division_less_than_divisor(a, d);
    assert((a / d) * d <= a < (a / d + 1) * d) by (nonlinear_arith)
        requires
            a == d * (a / d) + a % d,
            0 <= a % d < d,
    ;
}

/// For all flip states and all origin ratios in `[0, 1]`, the computed
/// top-left corner is consistent with the anchor it came from: re-measuring
/// the anchor from the top-left with the same (flip-adjusted) origin ratio
/// recovers the original position up to the truncation error, which is less
/// than one pixel per axis. Scaled by the denominators to stay in integers:
/// the exact anchor offset `size * n` lies in `[off * den, (off + 1) * den)`,
/// where `off` is the offset actually applied, `position - top_left`.
pub proof fn lemma_position_recovered(
    position: (i32, i32),
    origin: (Ratio, Ratio),
    size: (i32, i32),
    flip: (bool, bool),
)
    requires
        size.0 >= 0,
        size.1 >= 0,
        origin.0.wf(),
        origin.1.wf(),
        0 <= origin.0.num <= origin.0.den,
        0 <= origin.1.num <= origin.1.den,
    ensures
        ({
            let tl = spec_position_from_origin(position, origin, size, flip);
            let off_x = position.0 - tl.0;
            let off_y = position.1 - tl.1;
            &&& off_x * origin.0.den <= size.0 * axis_numerator(origin.0, flip.0) < (off_x + 1)
                * origin.0.den
            &&& off_y * origin.1.den <= size.1 * axis_numerator(origin.1, flip.1) < (off_y + 1)
                * origin.1.den
        }),
{
    lemma_anchor_recovered(size.0 as int, origin.0, flip.0);
    lemma_anchor_recovered(size.1 as int, origin.1, flip.1);
}

} // verus!
