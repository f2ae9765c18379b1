//! A safe image abstraction layer: owned bitmap handles, capability traits
//! for loading, drawing and size queries, and origin-relative positioning.
//!
//! A backend exposes three capabilities: loading a bitmap by path
//! ([`LoadImage`]), drawing a loaded bitmap at a screen position with
//! axis-wise flipping ([`DrawImage`]), and querying a bitmap's pixel extent
//! ([`HasSize`]). On top of those, [`draw_from_origin_with_flip`] places a
//! bitmap so that a fractional anchor point inside it lands on a given screen
//! position, with the anchor mirrored in lockstep with the flip state.

use vstd::prelude::*;

pub mod flip;
pub mod geometry;
pub mod memory;

pub use flip::Flip;
pub use geometry::Ratio;
pub use memory::{Image, ImageNotFoundError, MemoryGraphics};

verus! {

/// Ability to load an image from a path.
///
/// A successful load hands the caller exclusive ownership of a fresh image
/// handle; a failed load reports the offending path. The two spec hooks pin
/// down, per backend, which paths load and what a load does to the backend.
pub trait LoadImage {
    /// Type of image being loaded.
    type Image;

    /// Error type representing failure to load an image.
    type Error;

    /// Whether a load of `path` succeeds from this backend state.
    spec fn can_load(&self, path: &str) -> bool;

    /// What a successful load of `path` does: relates the backend state
    /// before and after, and describes the returned handle.
    spec fn load_ok(&self, post: &Self, path: &str, image: &Self::Image) -> bool;

    /// What a failed load of `path` does: relates the backend states and
    /// describes the returned error.
    spec fn load_err(&self, post: &Self, path: &str, err: &Self::Error) -> bool;

    /// Loads an image from its path, returning an owned handle, or an error
    /// exactly when the path does not resolve to a loadable resource.
    fn load_from_path(&mut self, path: &str) -> (r: Result<Self::Image, Self::Error>)
        ensures
            match r {
                Ok(image) => old(self).can_load(path) && old(self).load_ok(
                    final(self),
                    path,
                    &image,
                ),
                Err(err) => !old(self).can_load(path) && old(self).load_err(
                    final(self),
                    path,
                    &err,
                ),
            },
    ;
}

/// Ability to draw an image on screen.
///
/// Drawing only marks pixels; it never consumes or invalidates the handle,
/// so a handle that could be drawn can be drawn again afterwards.
pub trait DrawImage<I> {
    /// Whether `image` is a handle this backend can draw in this state.
    spec fn can_draw(&self, image: &I) -> bool;

    /// What one draw call does to the backend: `image` drawn with its
    /// top-left corner at `top_left` in orientation `flip`.
    spec fn drawn(&self, post: &Self, image: &I, top_left: (i32, i32), flip: Flip) -> bool;

    /// Draws the image with its top-left corner at the given screen
    /// coordinates, mirrored according to `flip`.
    fn draw_with_flip(&mut self, image: &I, top_left: (i32, i32), flip: Flip)
        requires
            old(self).can_draw(image),
        ensures
            old(self).drawn(final(self), image, top_left, flip),
            final(self).can_draw(image),
    ;

    /// Draws the image unflipped with its top-left corner at the given
    /// screen coordinates.
    fn draw(&mut self, image: &I, top_left: (i32, i32))
        requires
            old(self).can_draw(image),
        ensures
            old(self).drawn(final(self), image, top_left, Flip::Unflipped),
            final(self).can_draw(image),
    {
        self.draw_with_flip(image, top_left, Flip::Unflipped)
    }
}

/// Ability to report a pixel extent.
pub trait HasSize {
    /// The width and height of the image, both non-negative.
    spec fn spec_size(&self) -> (i32, i32);

    /// Queries the image's size in pixels.
    fn size(&self) -> (r: (i32, i32))
        ensures
            r == self.spec_size(),
            r.0 >= 0,
            r.1 >= 0,
    ;
}

/// The top-left corner at which [`draw_from_origin_with_flip`] draws: the
/// geometry of [`geometry::spec_position_from_origin`] with the flip state
/// projected onto its two axes.
pub open spec fn spec_top_left(
    position: (i32, i32),
    origin: (Ratio, Ratio),
    size: (i32, i32),
    flip: Flip,
) -> (i32, i32) {
    let tl = geometry::spec_position_from_origin(
        position,
        origin,
        size,
        (flip.spec_flip_x(), flip.spec_flip_y()),
    );
    (tl.0 as i32, tl.1 as i32)
}

/// Draws the image so that the anchor described by `origin` lands on
/// `position`, mirrored according to `flip`.
///
/// The origin is expressed as a ratio of the size, so `(0/1, 0/1)` anchors
/// the top-left corner and `(1/1, 1/1)` the bottom-right one; when an axis is
/// flipped the anchor reflects with the image, so the ratio still addresses
/// the displayed orientation. Derived generically for any backend that can
/// draw and any image that reports its size, by composing the size query,
/// the origin-relative geometry and the raw flip-aware draw call.
pub fn draw_from_origin_with_flip<T, I>(
    gfx: &mut T,
    image: &I,
    position: (i32, i32),
    origin: (Ratio, Ratio),
    flip: Flip,
) where T: DrawImage<I>, I: HasSize
    requires
        old(gfx).can_draw(image),
        origin.0.wf(),
        origin.1.wf(),
        geometry::anchor_in_range(
            position,
            origin,
            image.spec_size(),
            (flip.spec_flip_x(), flip.spec_flip_y()),
        ),
    ensures
        old(gfx).drawn(
            final(gfx),
            image,
            spec_top_left(position, origin, image.spec_size(), flip),
            flip,
        ),
        final(gfx).can_draw(image),
{
    let size = image.size();
    let top_left = geometry::position_from_origin(
        position,
        origin,
        size,
        (flip.flip_x(), flip.flip_y()),
    );
    gfx.draw_with_flip(image, top_left, flip);
}

/// Draws the image unflipped so that the anchor described by `origin` lands
/// on `position`.
pub fn draw_from_origin<T, I>(
    gfx: &mut T,
    image: &I,
    position: (i32, i32),
    origin: (Ratio, Ratio),
) where T: DrawImage<I>, I: HasSize
    requires
        old(gfx).can_draw(image),
        origin.0.wf(),
        origin.1.wf(),
        geometry::anchor_in_range(position, origin, image.spec_size(), (false, false)),
    ensures
        old(gfx).drawn(
            final(gfx),
            image,
            spec_top_left(position, origin, image.spec_size(), Flip::Unflipped),
            Flip::Unflipped,
        ),
        final(gfx).can_draw(image),
{
    draw_from_origin_with_flip(gfx, image, position, origin, Flip::new(false, false));
}

/// An enumerated pixel-compositing mode, passed through to the backend when
/// it draws; this layer assigns it no behaviour of its own.
#[non_exhaustive]
#[derive(Debug, Copy, Clone, Default, Eq, PartialEq, Structural)]
pub enum DrawMode {
    /// Images are drawn exactly as they are.
    #[default]
    Copy,
    /// Any white portions of an image are drawn transparent.
    WhiteTransparent,
    /// Any black portions of an image are drawn transparent.
    BlackTransparent,
    /// All non-transparent pixels are drawn white.
    FillWhite,
    /// All non-transparent pixels are drawn black.
    FillBlack,
    /// Pixels are drawn inverted on white backgrounds.
    XOR,
    /// Pixels are drawn inverted on black backgrounds.
    NXOR,
    /// Pixels are drawn inverted.
    Inverted,
}

} // verus!
