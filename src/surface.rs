//! The size that the presentable surface and its depth attachment are
//! configured with.

use vstd::prelude::*;

verus! {

/// A size in physical pixels.
#[derive(Clone, Copy, Debug, PartialEq, Eq, Structural)]
pub struct SurfaceSize {
    pub width: u32,
    pub height: u32,
}

impl SurfaceSize {
    /// Whether a surface of this size can be drawn to: both sides are nonzero.
    pub open spec fn is_drawable(self) -> bool {
        self.width > 0 && self.height > 0
    }
}

/// The configured size after a resize to `requested`: a size with a zero side
/// is ignored.
pub open spec fn resized(current: SurfaceSize, requested: SurfaceSize) -> SurfaceSize {
    if requested.is_drawable() {
        requested
    } else {
        current
    }
}

impl SurfaceSize {
    /// A size of `width` by `height` pixels.
    pub fn new(width: u32, height: u32) -> (r: SurfaceSize)
        ensures
            r.width == width,
            r.height == height,
    {
        SurfaceSize { width, height }
    }

    /// Takes `requested` as the configured size unless one of its sides is
    /// zero. Returns whether the size was taken, in which case the surface and
    /// its depth attachment are both to be configured anew at that size.
    pub fn resize(&mut self, requested: SurfaceSize) -> (reconfigure: bool)
        ensures
            reconfigure == requested.is_drawable(),
            *final(self) == resized(*old(self), requested),
    {
        if requested.width > 0 && requested.height > 0 {
            *self = requested;
            true
        } else {
            false
        }
    }
}

/// A resize to a size with a zero side changes nothing: the configured size,
/// and with it the aspect ratio derived from it, stays as it was, and neither
/// the surface nor the depth attachment is configured anew.
pub proof fn empty_resize_keeps_configuration(current: SurfaceSize, requested: SurfaceSize)
    requires
        requested.width == 0 || requested.height == 0,
    ensures
        resized(current, requested) == current,
        resized(current, requested).width == current.width,
        resized(current, requested).height == current.height,
        !requested.is_drawable(),
{
}

} // verus!
