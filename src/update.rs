//! The per-frame decision for every cursor-ray object: rewrite its
//! transform, keep it, or skip it with a reported failure.
use vstd::prelude::*;
use crate::CursorRay;
use crate::target::CursorRayError;
use crate::frame::{
    Frame, has_camera, camera_index, has_window, window_index, has_transform, transform_index,
    target_window,
};

verus! {

/// A cursor-ray object as the update sees it: its binding and the raw bits
/// of its parent entity, if it has one.
#[derive(Clone, Copy, PartialEq, Eq, Debug)]
pub struct BoundRay {
    pub ray: CursorRay,
    pub parent: Option<u64>,
}

/// Where the pointer ray of an object comes from: positions in the frame's
/// camera list and window list.
#[derive(Clone, Copy, PartialEq, Eq, Debug)]
pub struct PointerSource {
    pub camera: usize,
    pub window: usize,
}

/// The world frame that the ray is re-expressed in.
#[derive(Clone, Copy, PartialEq, Eq, Debug)]
pub enum ParentFrame {
    /// No parent: the local transform is the world transform.
    Identity,
    /// The parent's world transform, by position in the frame's list.
    Entity(usize),
}

/// What happens to one object's transform in a frame.
#[derive(Clone, Copy, PartialEq, Eq, Debug)]
pub enum RayUpdate {
    /// Set the local transform to the unprojected ray of `source`,
    /// re-expressed relative to `parent`.
    Write { source: PointerSource, parent: ParentFrame },
    /// The pointer is not over the surface: the transform stays as it was.
    Keep,
    /// A failure: the transform stays as it was and the failure is reported.
    Skip(CursorRayError),
}

/// Where the pointer ray of a cursor ray bound to camera `target` comes
/// from; `None` when the pointer is not over the camera's window.
pub open spec fn pointer_source(f: &Frame, target: u64) -> Result<Option<PointerSource>, CursorRayError> {
    if !has_camera(f.cameras@, target) {
        Err(CursorRayError::CameraNotFound)
    } else {
        let c = camera_index(f.cameras@, target);
        match target_window(f.windows@, f.cameras@[c].target) {
            Err(e) => Err(e),
            Ok(w) => {
                if !has_window(f.windows@, w) {
                    Err(CursorRayError::SurfaceNotFound)
                } else {
                    let wi = window_index(f.windows@, w);
                    if f.windows@[wi].has_cursor {
                        Ok(Some(PointerSource { camera: c as usize, window: wi as usize }))
                    } else {
                        Ok(None)
                    }
                }
            },
        }
    }
}

/// The frame that the world ray is re-expressed in.
pub open spec fn parent_frame(f: &Frame, parent: Option<u64>) -> Result<ParentFrame, CursorRayError> {
    match parent {
        None => Ok(ParentFrame::Identity),
        Some(p) => if has_transform(f.transforms@, p) {
            Ok(ParentFrame::Entity(transform_index(f.transforms@, p) as usize))
        } else {
            Err(CursorRayError::ParentTransformNotFound)
        },
    }
}

/// The update of `ray`, given where its pointer ray comes from and whether
/// the camera could unproject the pointer position.
pub open spec fn settle(
    f: &Frame,
    ray: BoundRay,
    located: Result<Option<PointerSource>, CursorRayError>,
    unprojected: bool,
) -> RayUpdate {
    match located {
        Err(e) => RayUpdate::Skip(e),
        Ok(None) => RayUpdate::Keep,
        Ok(Some(source)) => if !unprojected {
            RayUpdate::Skip(CursorRayError::UnprojectionFailed)
        } else {
            match parent_frame(f, ray.parent) {
                Err(e) => RayUpdate::Skip(e),
                Ok(parent) => RayUpdate::Write { source, parent },
            }
        },
    }
}

/// The update of `ray` in frame `f`.
pub open spec fn ray_update(f: &Frame, ray: BoundRay, unprojected: bool) -> RayUpdate {
    settle(f, ray, pointer_source(f, ray.ray.target), unprojected)
}

/// The failures of a pass, in the order of the objects.
pub open spec fn failures_of(us: Seq<RayUpdate>) -> Seq<CursorRayError>
    decreases us.len(),
{
    if us.len() == 0 {
        Seq::empty()
    } else {
        let rest = failures_of(us.drop_last());
        match us.last() {
            RayUpdate::Skip(e) => rest.push(e),
            _ => rest,
        }
    }
}

impl Frame {
    /// Where the pointer ray of a cursor ray bound to camera `target` comes from.
    pub fn locate_pointer(&self, target: u64) -> (r: Result<Option<PointerSource>, CursorRayError>)
        requires
            self.wf(),
        ensures
            r == pointer_source(self, target),
    {
        let c = match self.find_camera(target) {
            None => return Err(CursorRayError::CameraNotFound),
            Some(c) => c,
        };
        let w = match self.resolve_target(self.cameras[c].target) {
            Err(e) => return Err(e),
            Ok(w) => w,
        };
        let wi = match self.find_window(w) {
            None => return Err(CursorRayError::SurfaceNotFound),
            Some(wi) => wi,
        };
        if self.windows[wi].has_cursor {
            Ok(Some(PointerSource { camera: c, window: wi }))
        } else {
            Ok(None)
        }
    }

    /// The frame that the world ray of an object with parent `parent` is
    /// re-expressed in.
    pub fn resolve_parent(&self, parent: Option<u64>) -> (r: Result<ParentFrame, CursorRayError>)
        requires
            self.wf(),
        ensures
            r == parent_frame(self, parent),
    {
        match parent {
            None => Ok(ParentFrame::Identity),
            Some(p) => match self.find_transform(p) {
                None => Err(CursorRayError::ParentTransformNotFound),
                Some(i) => Ok(ParentFrame::Entity(i)),
            },
        }
    }

    /// The update of `ray`, from where its pointer ray comes from and
    /// whether the camera unprojected the pointer position.
    pub fn settle_ray(
        &self,
        ray: &BoundRay,
        located: Result<Option<PointerSource>, CursorRayError>,
        unprojected: bool,
    ) -> (r: RayUpdate)
        requires
            self.wf(),
        ensures
            r == settle(self, *ray, located, unprojected),
    {
        match located {
            Err(e) => RayUpdate::Skip(e),
            Ok(None) => RayUpdate::Keep,
            Ok(Some(source)) => {
                if !unprojected {
                    RayUpdate::Skip(CursorRayError::UnprojectionFailed)
                } else {
                    match self.resolve_parent(ray.parent) {
                        Err(e) => RayUpdate::Skip(e),
                        Ok(parent) => RayUpdate::Write { source, parent },
                    }
                }
            },
        }
    }
}

} // verus!
