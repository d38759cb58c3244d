//! One update pass over all cursor-ray objects of a frame. Every object is
//! decided on its own; failures are collected, never propagated.
use vstd::prelude::*;
use crate::target::CursorRayError;
use crate::frame::Frame;
use crate::update::{
    BoundRay, PointerSource, RayUpdate, pointer_source, settle, ray_update, failures_of,
};

verus! {

/// The updates of a whole pass, object by object.
pub open spec fn frame_updates(f: &Frame, rays: Seq<BoundRay>, unprojected: Seq<bool>) -> Seq<
    RayUpdate,
> {
    Seq::new(rays.len(), |i: int| ray_update(f, rays[i], unprojected[i]))
}

impl Frame {
    /// First half of a pass: where each object's pointer ray comes from.
    pub fn locate_pointers(&self, rays: &Vec<BoundRay>) -> (r: Vec<
        Result<Option<PointerSource>, CursorRayError>,
    >)
        requires
            self.wf(),
        ensures
            r@.len() == rays@.len(),
            forall|i: int| 0 <= i < rays@.len() ==> r@[i] == pointer_source(self, rays@[i].ray.target),
    {
        let mut r: Vec<Result<Option<PointerSource>, CursorRayError>> = Vec::new();
        let mut i: usize = 0;
        while i < rays.len()
            invariant
                self.wf(),
                i <= rays@.len(),
                r@.len() == i,
                forall|k: int| 0 <= k < i ==> r@[k] == pointer_source(self, rays@[k].ray.target),
            decreases rays@.len() - i,
        {
            let located = self.locate_pointer(rays[i].ray.target);
            r.push(located);
            i = i + 1;
        }
        r
    }

    /// Second half of a pass: the update of each object, from where its
    /// pointer ray comes from and whether its camera unprojected it.
    pub fn settle_rays(
        &self,
        rays: &Vec<BoundRay>,
        located: &Vec<Result<Option<PointerSource>, CursorRayError>>,
        unprojected: &Vec<bool>,
    ) -> (r: Vec<RayUpdate>)
        requires
            self.wf(),
            located@.len() == rays@.len(),
            unprojected@.len() == rays@.len(),
        ensures
            r@.len() == rays@.len(),
            forall|i: int|
                0 <= i < rays@.len() ==> r@[i] == settle(self, rays@[i], located@[i], unprojected@[i]),
    {
        let mut r: Vec<RayUpdate> = Vec::new();
        let mut i: usize = 0;
        while i < rays.len()
            invariant
                self.wf(),
                located@.len() == rays@.len(),
                unprojected@.len() == rays@.len(),
                i <= rays@.len(),
                r@.len() == i,
                forall|k: int|
                    0 <= k < i ==> r@[k] == settle(self, rays@[k], located@[k], unprojected@[k]),
            decreases rays@.len() - i,
        {
            let u = self.settle_ray(&rays[i], located[i], unprojected[i]);
            r.push(u);
            i = i + 1;
        }
        r
    }
}

/// The failures of a pass, in the order of the objects, for reporting.
pub fn failures(updates: &Vec<RayUpdate>) -> (r: Vec<CursorRayError>)
    ensures
        r@ == failures_of(updates@),
{
    let mut r: Vec<CursorRayError> = Vec::new();
    let mut i: usize = 0;
    while i < updates.len()
        invariant
            i <= updates@.len(),
            r@ == failures_of(updates@.take(i as int)),
        decreases updates@.len() - i,
    {
        proof {
            assert(updates@.take(i as int + 1).drop_last() =~= updates@.take(i as int));
        }
        match updates[i] {
            RayUpdate::Skip(e) => r.push(e),
            _ => {},
        }
        i = i + 1;
    }
    assert(updates@.take(i as int) =~= updates@);
    r
}

/// Applies a pass to the objects' local transforms: the transform of each
/// object whose update is a write becomes the one computed for it; every
/// other transform stays exactly as it was.
pub fn commit<T: Copy>(locals: &mut Vec<T>, updates: &Vec<RayUpdate>, computed: &Vec<T>)
    requires
        updates@.len() == old(locals)@.len(),
        computed@.len() == old(locals)@.len(),
    ensures
        final(locals)@.len() == old(locals)@.len(),
        forall|i: int|
            0 <= i < old(locals)@.len() ==> final(locals)@[i] == if updates@[i] is Write {
                computed@[i]
            } else {
                old(locals)@[i]
            },
{
    let mut i: usize = 0;
    while i < locals.len()
        invariant
            updates@.len() == old(locals)@.len(),
            computed@.len() == old(locals)@.len(),
            locals@.len() == old(locals)@.len(),
            i <= locals@.len(),
            forall|k: int|
                0 <= k < i ==> locals@[k] == if updates@[k] is Write {
                    computed@[k]
                } else {
                    old(locals)@[k]
                },
            forall|k: int| i <= k < locals@.len() ==> locals@[k] == old(locals)@[k],
        decreases locals@.len() - i,
    {
        match updates[i] {
            RayUpdate::Write { .. } => {
                let t: T = computed[i];
                locals.set(i, t);
            },
            _ => {},
        }
        i = i + 1;
    }
}

/// One whole pass. `unprojected[i]` says whether the camera of object
/// `i` turned its pointer position into a ray, and `computed[i]` is that
/// ray as a local transform relative to the object's parent frame.
/// Writes the transforms that the pass decides to write, leaves the
/// others untouched, and returns the failures in the order of the
/// objects.
pub fn update_cursor_rays<T: Copy>(
    frame: &Frame,
    rays: &Vec<BoundRay>,
    unprojected: &Vec<bool>,
    locals: &mut Vec<T>,
    computed: &Vec<T>,
) -> (r: Vec<CursorRayError>)
    requires
        frame.wf(),
        unprojected@.len() == rays@.len(),
        old(locals)@.len() == rays@.len(),
        computed@.len() == rays@.len(),
    ensures
        r@ == failures_of(frame_updates(frame, rays@, unprojected@)),
        final(locals)@.len() == old(locals)@.len(),
        forall|i: int|
            0 <= i < rays@.len() ==> final(locals)@[i] == if frame_updates(
                frame,
                rays@,
                unprojected@,
            )[i] is Write {
                computed@[i]
            } else {
                old(locals)@[i]
            },
{
    let located = frame.locate_pointers(rays);
    let updates = frame.settle_rays(rays, &located, unprojected);
    assert(updates@ =~= frame_updates(frame, rays@, unprojected@));
    commit(locals, &updates, computed);
    failures(&updates)
}

} // verus!
