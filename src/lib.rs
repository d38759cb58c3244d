//! Cursor rays: objects whose pose follows the world-space ray under the
//! pointer, as seen through a bound camera.
//!
//! The library decides, for every cursor-ray object of a frame, whether its
//! transform is rewritten, left as it was, or skipped with a diagnosed
//! failure. The floating-point work (unprojection and composing transforms)
//! belongs to the host engine; the library tells it which camera, surface
//! and parent frame to use, and which results to keep.
use vstd::prelude::*;

pub mod target;
pub mod frame;
pub mod update;
pub mod pass;
pub mod laws;

pub use pass::update_cursor_rays;

verus! {

/// Raw bits of the engine's placeholder entity: the target of a cursor ray
/// that was never bound to a camera.
pub const UNBOUND_TARGET: u64 = 0x1_FFFF_FFFF;

/// A cursor-ray object: bound to one camera, given by the raw bits of the
/// camera's entity.
#[derive(Clone, Copy, PartialEq, Eq, PartialOrd, Ord, Hash, Debug)]
pub struct CursorRay {
    pub target: u64,
}

impl Default for CursorRay {
    /// An unbound cursor ray; looking up its camera fails.
    fn default() -> (r: CursorRay)
        ensures
            r.target == UNBOUND_TARGET,
    {
        CursorRay { target: UNBOUND_TARGET }
    }
}

/// Marker for registering the cursor-ray update once per frame tick.
#[derive(Clone, Copy, PartialEq, Eq, PartialOrd, Ord, Hash, Default, Debug)]
pub struct CursorRayPlugin;

} // verus!
