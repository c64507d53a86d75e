use vstd::prelude::*;

verus! {

/// Width and height, in physical pixels, of the surface that is drawn on.
#[derive(Clone, Copy, Debug, PartialEq, Eq, Structural)]
pub struct SurfaceSize {
    pub width: u32,
    pub height: u32,
}

/// A surface can be configured only when neither side is zero.
pub open spec fn is_drawable(size: SurfaceSize) -> bool {
    size.width > 0 && size.height > 0
}

/// The size a surface has after a request to resize it to `requested`:
/// the request when it is drawable, else the size it had.
pub open spec fn resized(current: SurfaceSize, requested: SurfaceSize) -> SurfaceSize {
    if is_drawable(requested) {
        requested
    } else {
        current
    }
}

impl SurfaceSize {
    pub fn new(width: u32, height: u32) -> (size: SurfaceSize)
        ensures
            size.width == width,
            size.height == height,
    {
        SurfaceSize { width, height }
    }

    /// Takes a requested new size. A request with a zero side (a minimised
    /// window) is ignored; any other replaces the size. Returns whether the
    /// surface has to be configured again with the new size.
    pub fn resize(&mut self, new_size: SurfaceSize) -> (reconfigure: bool)
        ensures
            reconfigure == is_drawable(new_size),
            *final(self) == resized(*old(self), new_size),
            reconfigure <==> new_size.width > 0 && new_size.height > 0,
            reconfigure ==> *final(self) == new_size,
            !reconfigure ==> *final(self) == *old(self),
    {
        if new_size.width > 0 && new_size.height > 0 {
            *self = new_size;
            true
        } else {
            false
        }
    }
}

/// A request with both sides non-zero is taken as it is, whatever the
/// current size (larger, smaller or equal); a request with a zero side leaves
/// the current size in place.
pub proof fn lemma_resize_takes_any_drawable_request(current: SurfaceSize, requested: SurfaceSize)
    ensures
        requested.width > 0 && requested.height > 0 ==> resized(current, requested) == requested,
        requested.width == 0 || requested.height == 0 ==> resized(current, requested) == current,
        is_drawable(requested) <==> requested.width > 0 && requested.height > 0,
{
}

/// Resizing twice to the same size gives what resizing once gives.
pub proof fn lemma_resize_idempotent(current: SurfaceSize, requested: SurfaceSize)
    ensures
        resized(resized(current, requested), requested) == resized(current, requested),
{
}

/// A drawable surface stays drawable whatever it is asked to resize to.
pub proof fn lemma_resize_keeps_drawable(current: SurfaceSize, requested: SurfaceSize)
    requires
        is_drawable(current),
    ensures
        is_drawable(resized(current, requested)),
{
}

} // verus!
