use vstd::prelude::*;

verus! {

/// The drawable size of the render surface, in physical pixels.
///
/// Both sides are always at least one pixel: the surface is never
/// configured with an empty side.
pub struct SurfaceExtent {
    width: u32,
    height: u32,
}

/// The extent that a window of `width` by `height` pixels gets when its
/// surface is first configured: each side raised to at least one pixel.
pub open spec fn initial_extent(width: u32, height: u32) -> (u32, u32) {
    (if width >= 1 { width } else { 1 }, if height >= 1 { height } else { 1 })
}

/// The extent after the window reports a new size: a size with a zero side
/// is ignored, any other size is taken as it is.
pub open spec fn resized_extent(extent: (u32, u32), width: u32, height: u32) -> (u32, u32) {
    if width > 0 && height > 0 {
        (width, height)
    } else {
        extent
    }
}

/// An extent with no empty side.
pub open spec fn extent_is_drawable(extent: (u32, u32)) -> bool {
    extent.0 >= 1 && extent.1 >= 1
}

impl View for SurfaceExtent {
    type V = (u32, u32);

    closed spec fn view(&self) -> (u32, u32) {
        (self.width, self.height)
    }
}

impl SurfaceExtent {
    #[verifier::type_invariant]
    closed spec fn drawable(&self) -> bool {
        self.width >= 1 && self.height >= 1
    }

    /// The extent of a freshly configured surface for a window of the given
    /// size.
    pub fn new(width: u32, height: u32) -> (r: SurfaceExtent)
        ensures
            r@ == initial_extent(width, height),
            extent_is_drawable(r@),
    {
        let w: u32 = if width >= 1 { width } else { 1 };
        let h: u32 = if height >= 1 { height } else { 1 };
        SurfaceExtent { width: w, height: h }
    }

    /// The current width in pixels; never zero.
    pub fn width(&self) -> (r: u32)
        ensures
            r == self@.0,
            r >= 1,
    {
        proof {
            use_type_invariant(self);
        }
        self.width
    }

    /// The current height in pixels; never zero.
    pub fn height(&self) -> (r: u32)
        ensures
            r == self@.1,
            r >= 1,
    {
        proof {
            use_type_invariant(self);
        }
        self.height
    }

    /// Takes a new window size. Returns whether the size was taken, which
    /// is when the surface has to be configured again.
    pub fn resize(&mut self, width: u32, height: u32) -> (reconfigure: bool)
        ensures
            reconfigure == (width > 0 && height > 0),
            final(self)@ == resized_extent(old(self)@, width, height),
            extent_is_drawable(final(self)@),
    {
        proof {
            use_type_invariant(&*self);
        }
        if width > 0 && height > 0 {
            self.width = width;
            self.height = height;
            true
        } else {
            false
        }
    }
}

/// A fresh surface has no empty side. Each side takes the window's side as
/// it is when that is positive, and is one pixel when it is zero; the two
/// sides are decided apart from each other.
pub proof fn lemma_initial_extent(width: u32, height: u32)
    ensures
        extent_is_drawable(initial_extent(width, height)),
        width >= 1 && height >= 1 ==> initial_extent(width, height) == (width, height),
        width >= 1 ==> initial_extent(width, height).0 == width,
        width == 0 ==> initial_extent(width, height).0 == 1,
        height >= 1 ==> initial_extent(width, height).1 == height,
        height == 0 ==> initial_extent(width, height).1 == 1,
{
}

/// Resizing keeps the surface drawable; a size with a zero side leaves the
/// extent as it was; a size without one is what the extent then holds; and
/// resizing twice to the same size is the same as resizing once.
pub proof fn lemma_resize(extent: (u32, u32), width: u32, height: u32)
    ensures
        extent_is_drawable(extent) ==> extent_is_drawable(resized_extent(extent, width, height)),
        (width == 0 || height == 0) ==> resized_extent(extent, width, height) == extent,
        (width > 0 && height > 0) ==> resized_extent(extent, width, height) == (width, height),
        resized_extent(resized_extent(extent, width, height), width, height)
            == resized_extent(extent, width, height),
{
}

/// What acquiring the next frame of the surface gave.
#[derive(Clone, Copy, Debug, PartialEq, Eq, Structural)]
pub enum SurfaceStatus {
    /// A frame to draw into.
    Success,
    /// A frame, but one that no longer matches the surface.
    Suboptimal,
    /// No frame in time.
    Timeout,
    /// The window is hidden.
    Occluded,
    /// The surface configuration no longer matches the surface.
    Outdated,
    /// The surface is gone.
    Lost,
    /// A validation error was raised.
    Validation,
}

/// The error message with which drawing a frame stops, or `None` where the
/// frame is drawn.
pub open spec fn frame_error(status: SurfaceStatus) -> Option<Seq<char>> {
    match status {
        SurfaceStatus::Success => None,
        SurfaceStatus::Timeout => Some("Surface timeout"@),
        SurfaceStatus::Outdated => Some("Surface outdated"@),
        SurfaceStatus::Lost => Some("Surface lost"@),
        _ => Some("Surface error occurred"@),
    }
}

/// Decides whether a frame is drawn for the given acquisition status: only
/// a clean success draws; every other status ends the frame with its error
/// message.
pub fn frame_outcome(status: SurfaceStatus) -> (r: Result<(), String>)
    ensures
        r is Ok <==> frame_error(status) is None,
        r matches Err(m) ==> frame_error(status) == Some(m@),
{
    match status {
        SurfaceStatus::Success => Ok(()),
        SurfaceStatus::Timeout => Err(String::from_str("Surface timeout")),
        SurfaceStatus::Outdated => Err(String::from_str("Surface outdated")),
        SurfaceStatus::Lost => Err(String::from_str("Surface lost")),
        _ => Err(String::from_str("Surface error occurred")),
    }
}

/// A frame is drawn exactly on a clean success. A timeout, an outdated
/// configuration and a lost surface each end the frame with a message that
/// names the reason; every other status ends it with the same general
/// message. Different reasons give different messages.
pub proof fn lemma_frame_messages(status: SurfaceStatus)
    ensures
        frame_error(status) is None <==> status is Success,
        status is Timeout ==> frame_error(status) == Some("Surface timeout"@),
        status is Outdated ==> frame_error(status) == Some("Surface outdated"@),
        status is Lost ==> frame_error(status) == Some("Surface lost"@),
        (status is Suboptimal || status is Occluded || status is Validation) ==> frame_error(status)
            == Some("Surface error occurred"@),
        frame_error(SurfaceStatus::Timeout) != frame_error(SurfaceStatus::Outdated),
        frame_error(SurfaceStatus::Timeout) != frame_error(SurfaceStatus::Lost),
        frame_error(SurfaceStatus::Outdated) != frame_error(SurfaceStatus::Lost),
        frame_error(SurfaceStatus::Lost) != frame_error(SurfaceStatus::Validation),
{
    reveal_strlit("Surface timeout");
    reveal_strlit("Surface outdated");
    reveal_strlit("Surface lost");
    reveal_strlit("Surface error occurred");
    assert("Surface timeout"@[8] != "Surface outdated"@[8]);
    assert("Surface timeout"@[8] != "Surface lost"@[8]);
    assert("Surface outdated"@[8] != "Surface lost"@[8]);
    assert("Surface lost"@.len() != "Surface error occurred"@.len());
}

} // verus!
