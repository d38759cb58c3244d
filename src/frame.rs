//! A snapshot of what one frame offers the cursor-ray update: the cameras,
//! the windows and the entities whose world transform is resolved.
use vstd::prelude::*;
use crate::target::{RenderTarget, WindowRef, CursorRayError};

verus! {

/// A camera entity and what it draws to.
#[derive(Clone, Copy, PartialEq, Eq, Debug)]
pub struct CameraEntry {
    pub entity: u64,
    pub target: RenderTarget,
}

/// A window entity: whether it is flagged primary, and whether the pointer
/// is over it in this frame.
#[derive(Clone, Copy, PartialEq, Eq, Debug)]
pub struct WindowEntry {
    pub entity: u64,
    pub primary: bool,
    pub has_cursor: bool,
}

/// The frame snapshot. Index `i` of each list stands for the engine's data
/// of that entity (camera pose and projection, pointer position, world
/// transform), which the host keeps beside it.
pub struct Frame {
    pub cameras: Vec<CameraEntry>,
    pub windows: Vec<WindowEntry>,
    /// Entities with a resolved world transform that can act as parents.
    pub transforms: Vec<u64>,
}

pub open spec fn has_camera(cs: Seq<CameraEntry>, e: u64) -> bool {
    exists|i: int| 0 <= i < cs.len() && #[trigger] cs[i].entity == e
}

pub open spec fn camera_index(cs: Seq<CameraEntry>, e: u64) -> int {
    choose|i: int| 0 <= i < cs.len() && #[trigger] cs[i].entity == e
}

pub open spec fn has_window(ws: Seq<WindowEntry>, e: u64) -> bool {
    exists|i: int| 0 <= i < ws.len() && #[trigger] ws[i].entity == e
}

pub open spec fn window_index(ws: Seq<WindowEntry>, e: u64) -> int {
    choose|i: int| 0 <= i < ws.len() && #[trigger] ws[i].entity == e
}

pub open spec fn has_transform(ts: Seq<u64>, e: u64) -> bool {
    exists|i: int| 0 <= i < ts.len() && #[trigger] ts[i] == e
}

pub open spec fn transform_index(ts: Seq<u64>, e: u64) -> int {
    choose|i: int| 0 <= i < ts.len() && #[trigger] ts[i] == e
}

/// The windows flagged primary, in order.
pub open spec fn primary_windows(ws: Seq<WindowEntry>) -> Seq<WindowEntry>
    decreases ws.len(),
{
    if ws.len() == 0 {
        Seq::empty()
    } else {
        let rest = primary_windows(ws.drop_last());
        if ws.last().primary {
            rest.push(ws.last())
        } else {
            rest
        }
    }
}

/// The window entity that a render target names, or why there is none.
pub open spec fn target_window(ws: Seq<WindowEntry>, t: RenderTarget) -> Result<u64, CursorRayError> {
    match t {
        RenderTarget::Window(WindowRef::Primary) => {
            let ps = primary_windows(ws);
            if ps.len() == 1 {
                Ok(ps[0].entity)
            } else {
                Err(CursorRayError::PrimarySurfaceAmbiguous { found: ps.len() as usize })
            }
        },
        RenderTarget::Window(WindowRef::Entity(e)) => Ok(e),
        RenderTarget::Offscreen => Err(CursorRayError::UnsupportedRenderTarget(t)),
    }
}

pub proof fn lemma_primary_windows_len(ws: Seq<WindowEntry>)
    ensures
        primary_windows(ws).len() <= ws.len(),
    decreases ws.len(),
{
    if ws.len() > 0 {
        lemma_primary_windows_len(ws.drop_last());
    }
}

impl Frame {
    /// Entities are distinct within each list, as in an entity store.
    pub open spec fn wf(&self) -> bool {
        &&& forall|i: int, j: int|
            0 <= i < j < self.cameras@.len() ==> self.cameras@[i].entity != self.cameras@[j].entity
        &&& forall|i: int, j: int|
            0 <= i < j < self.windows@.len() ==> self.windows@[i].entity != self.windows@[j].entity
        &&& forall|i: int, j: int|
            0 <= i < j < self.transforms@.len() ==> self.transforms@[i] != self.transforms@[j]
    }

    /// Position of the camera of entity `e`.
    pub fn find_camera(&self, e: u64) -> (r: Option<usize>)
        requires
            self.wf(),
        ensures
            r is None <==> !has_camera(self.cameras@, e),
            r is Some ==> r->0 == camera_index(self.cameras@, e),
    {
        let mut i: usize = 0;
        while i < self.cameras.len()
            invariant
                self.wf(),
                i <= self.cameras@.len(),
                forall|k: int| 0 <= k < i ==> self.cameras@[k].entity != e,
            decreases self.cameras@.len() - i,
        {
            if self.cameras[i].entity == e {
                let ghost c = camera_index(self.cameras@, e);
                assert(self.cameras@[i as int].entity == e);
                assert(c == i) by {
                    assert(has_camera(self.cameras@, e));
                    if c < i {
                        assert(self.cameras@[c].entity != self.cameras@[i as int].entity);
                    } else if c > i {
                        assert(self.cameras@[i as int].entity != self.cameras@[c].entity);
                    }
                };
                return Some(i);
            }
            i = i + 1;
        }
        None
    }

    /// Position of the window of entity `e`.
    pub fn find_window(&self, e: u64) -> (r: Option<usize>)
        requires
            self.wf(),
        ensures
            r is None <==> !has_window(self.windows@, e),
            r is Some ==> r->0 == window_index(self.windows@, e),
    {
        let mut i: usize = 0;
        while i < self.windows.len()
            invariant
                self.wf(),
                i <= self.windows@.len(),
                forall|k: int| 0 <= k < i ==> self.windows@[k].entity != e,
            decreases self.windows@.len() - i,
        {
            if self.windows[i].entity == e {
                let ghost c = window_index(self.windows@, e);
                assert(self.windows@[i as int].entity == e);
                assert(c == i) by {
                    assert(has_window(self.windows@, e));
                    if c < i {
                        assert(self.windows@[c].entity != self.windows@[i as int].entity);
                    } else if c > i {
                        assert(self.windows@[i as int].entity != self.windows@[c].entity);
                    }
                };
                return Some(i);
            }
            i = i + 1;
        }
        None
    }

    /// Position of the resolved world transform of entity `e`.
    pub fn find_transform(&self, e: u64) -> (r: Option<usize>)
        requires
            self.wf(),
        ensures
            r is None <==> !has_transform(self.transforms@, e),
            r is Some ==> r->0 == transform_index(self.transforms@, e),
    {
        let mut i: usize = 0;
        while i < self.transforms.len()
            invariant
                self.wf(),
                i <= self.transforms@.len(),
                forall|k: int| 0 <= k < i ==> self.transforms@[k] != e,
            decreases self.transforms@.len() - i,
        {
            if self.transforms[i] == e {
                let ghost c = transform_index(self.transforms@, e);
                assert(self.transforms@[i as int] == e);
                assert(c == i) by {
                    assert(has_transform(self.transforms@, e));
                    if c < i {
                        assert(self.transforms@[c] != self.transforms@[i as int]);
                    } else if c > i {
                        assert(self.transforms@[i as int] != self.transforms@[c]);
                    }
                };
                return Some(i);
            }
            i = i + 1;
        }
        None
    }

    /// The window entity that `t` names in this frame.
    pub fn resolve_target(&self, t: RenderTarget) -> (r: Result<u64, CursorRayError>)
        ensures
            r == target_window(self.windows@, t),
    {
        match t {
            RenderTarget::Window(WindowRef::Primary) => {
                let mut found: usize = 0;
                let mut last: u64 = 0;
                let mut i: usize = 0;
                while i < self.windows.len()
                    invariant
                        i <= self.windows@.len(),
                        found == primary_windows(self.windows@.take(i as int)).len(),
                        found > 0 ==> last == primary_windows(self.windows@.take(i as int)).last().entity,
                    decreases self.windows@.len() - i,
                {
                    proof {
                        let s = self.windows@.take(i as int + 1);
                        assert(s.drop_last() =~= self.windows@.take(i as int));
                        lemma_primary_windows_len(s.drop_last());
                    }
                    if self.windows[i].primary {
                        found = found + 1;
                        last = self.windows[i].entity;
                    }
                    i = i + 1;
                }
                assert(self.windows@.take(i as int) =~= self.windows@);
                if found == 1 {
                    Ok(last)
                } else {
                    Err(CursorRayError::PrimarySurfaceAmbiguous { found })
                }
            },
            RenderTarget::Window(WindowRef::Entity(e)) => Ok(e),
            RenderTarget::Offscreen => Err(CursorRayError::UnsupportedRenderTarget(t)),
        }
    }
}

} // verus!
