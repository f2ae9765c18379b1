//! The four orientation states a bitmap can be drawn in, equivalent to a
//! pair of independent per-axis booleans.

use vstd::prelude::*;

verus! {

/// Axis-wise mirroring applied at draw time: none, horizontal, vertical, or
/// both. The four variants correspond one to one to the four combinations of
/// the two per-axis booleans.
#[derive(Debug, Clone, Copy, PartialEq, Eq, Structural)]
pub enum Flip {
    /// The bitmap is drawn exactly as stored.
    Unflipped,
    /// The bitmap is mirrored around its vertical axis.
    FlippedX,
    /// The bitmap is mirrored around its horizontal axis.
    FlippedY,
    /// The bitmap is mirrored around both axes.
    FlippedXY,
}

impl Flip {
    /// The orientation state for a pair of per-axis flip flags.
    pub open spec fn from_flags(x: bool, y: bool) -> Flip {
        if x && y {
            Flip::FlippedXY
        } else if x {
            Flip::FlippedX
        } else if y {
            Flip::FlippedY
        } else {
            Flip::Unflipped
        }
    }

    /// Whether this orientation mirrors around the vertical axis.
    pub open spec fn spec_flip_x(&self) -> bool {
        match *self {
            Flip::FlippedX | Flip::FlippedXY => true,
            Flip::Unflipped | Flip::FlippedY => false,
        }
    }

    /// Whether this orientation mirrors around the horizontal axis.
    pub open spec fn spec_flip_y(&self) -> bool {
        match *self {
            Flip::FlippedY | Flip::FlippedXY => true,
            Flip::Unflipped | Flip::FlippedX => false,
        }
    }

    /// Builds the orientation state from the two per-axis flip flags.
    pub fn new(x: bool, y: bool) -> (r: Flip)
        ensures
            r == Flip::from_flags(x, y),
    {
        if x && y {
            Flip::FlippedXY
        } else if x {
            Flip::FlippedX
        } else if y {
            Flip::FlippedY
        } else {
            Flip::Unflipped
        }
    }

    /// Projects the horizontal flip flag back out of the orientation state.
    #[verifier::when_used_as_spec(spec_flip_x)]
    pub fn flip_x(&self) -> (r: bool)
        ensures
            r == self.spec_flip_x(),
    {
        match *self {
            Flip::FlippedX | Flip::FlippedXY => true,
            Flip::Unflipped | Flip::FlippedY => false,
        }
    }

    /// Projects the vertical flip flag back out of the orientation state.
    #[verifier::when_used_as_spec(spec_flip_y)]
    pub fn flip_y(&self) -> (r: bool)
        ensures
            r == self.spec_flip_y(),
    {
        match *self {
            Flip::FlippedY | Flip::FlippedXY => true,
            Flip::Unflipped | Flip::FlippedX => false,
        }
    }
}

/// Translates a pair of per-axis flip flags into the single flip value that a
/// backend's raw bitmap drawing primitive takes.
pub fn lcd_bitmap_flip(flip: (bool, bool)) -> (r: Flip)
    ensures
        r == Flip::from_flags(flip.0, flip.1),
{
    Flip::new(flip.0, flip.1)
}

/// Building an orientation state from two flip flags and projecting the flags
/// back out are mutual inverses, for all four combinations of flags and all
/// four orientation states.
pub proof fn lemma_flip_flags_inverse(f: Flip, x: bool, y: bool)
    ensures
        Flip::from_flags(x, y).spec_flip_x() == x,
        Flip::from_flags(x, y).spec_flip_y() == y,
        Flip::from_flags(f.spec_flip_x(), f.spec_flip_y()) == f,
{
}

} // verus!
