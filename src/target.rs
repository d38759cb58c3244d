//! Render targets of cameras and the failures that the update can report.
use vstd::prelude::*;

verus! {

/// Which window a camera draws to.
#[derive(Clone, Copy, PartialEq, Eq, Debug)]
pub enum WindowRef {
    /// Whichever window is flagged primary.
    Primary,
    /// A window given by the raw bits of its entity.
    Entity(u64),
}

/// What a camera draws to.
#[derive(Clone, Copy, PartialEq, Eq, Debug)]
pub enum RenderTarget {
    /// An on-screen window.
    Window(WindowRef),
    /// Anything that is not a window (an image, a texture view).
    Offscreen,
}

/// Why a cursor ray was skipped in a frame. A skip is never fatal: the
/// object keeps its previous transform and is tried again next frame.
#[derive(Clone, Copy, PartialEq, Eq, Debug)]
pub enum CursorRayError {
    /// The bound camera entity has no camera.
    CameraNotFound,
    /// The camera draws to the primary window, but `found` windows (not
    /// exactly one) are flagged primary.
    PrimarySurfaceAmbiguous { found: usize },
    /// The camera draws to something that is not a window.
    UnsupportedRenderTarget(RenderTarget),
    /// The window the camera draws to does not exist.
    SurfaceNotFound,
    /// The camera could not turn the pointer position into a ray.
    UnprojectionFailed,
    /// The cursor ray's parent has no resolved world transform.
    ParentTransformNotFound,
}

} // verus!
