//! Properties of the update pass, proved over the specifications of
//! `update` and `pass`.
use vstd::prelude::*;
use crate::target::{CursorRayError, RenderTarget, WindowRef};
use crate::frame::{
    Frame, WindowEntry, has_camera, camera_index, has_window, window_index, target_window,
    primary_windows,
};
use crate::update::{BoundRay, RayUpdate, pointer_source, parent_frame, ray_update, failures_of};
use crate::pass::frame_updates;

verus! {

/// How many times `e` occurs in `es`.
pub open spec fn error_count(es: Seq<CursorRayError>, e: CursorRayError) -> nat
    decreases es.len(),
{
    if es.len() == 0 {
        0
    } else {
        error_count(es.drop_last(), e) + if es.last() == e {
            1nat
        } else {
            0nat
        }
    }
}

proof fn lemma_failures_none(us: Seq<RayUpdate>, e: CursorRayError)
    requires
        forall|j: int| 0 <= j < us.len() ==> us[j] != RayUpdate::Skip(e),
    ensures
        error_count(failures_of(us), e) == 0,
    decreases us.len(),
{
    if us.len() > 0 {
        let rest = us.drop_last();
        assert forall|j: int| 0 <= j < rest.len() implies rest[j] != RayUpdate::Skip(e) by {
            assert(rest[j] == us[j]);
        };
        lemma_failures_none(rest, e);
        assert(us.last() == us[us.len() - 1]);
        match us.last() {
            RayUpdate::Skip(x) => {
                assert(failures_of(us).drop_last() =~= failures_of(rest));
            },
            _ => {},
        }
    }
}

proof fn lemma_failures_one(us: Seq<RayUpdate>, e: CursorRayError, k: int)
    requires
        0 <= k < us.len(),
        us[k] == RayUpdate::Skip(e),
        forall|j: int| 0 <= j < us.len() && j != k ==> us[j] != RayUpdate::Skip(e),
    ensures
        error_count(failures_of(us), e) == 1,
    decreases us.len(),
{
    let rest = us.drop_last();
    assert(us.last() == us[us.len() - 1]);
    if k == us.len() - 1 {
        assert forall|j: int| 0 <= j < rest.len() implies rest[j] != RayUpdate::Skip(e) by {
            assert(rest[j] == us[j]);
        };
        lemma_failures_none(rest, e);
    } else {
        assert forall|j: int| 0 <= j < rest.len() && j != k implies rest[j] != RayUpdate::Skip(
            e,
        ) by {
            assert(rest[j] == us[j]);
        };
        lemma_failures_one(rest, e, k);
    }
    match us.last() {
        RayUpdate::Skip(x) => {
            assert(failures_of(us).drop_last() =~= failures_of(rest));
        },
        _ => {},
    }
}

proof fn lemma_primary_windows_from(ws: Seq<WindowEntry>)
    ensures
        forall|j: int|
            0 <= j < primary_windows(ws).len() ==> exists|i: int|
                0 <= i < ws.len() && ws[i] == #[trigger] primary_windows(ws)[j],
    decreases ws.len(),
{
    if ws.len() > 0 {
        let rest = ws.drop_last();
        lemma_primary_windows_from(rest);
        assert forall|j: int| 0 <= j < primary_windows(ws).len() implies exists|i: int|
            0 <= i < ws.len() && ws[i] == #[trigger] primary_windows(ws)[j] by {
            if j < primary_windows(rest).len() {
                let i = choose|i: int| 0 <= i < rest.len() && rest[i] == primary_windows(rest)[j];
                assert(ws[i] == rest[i]);
            } else {
                assert(ws[ws.len() - 1] == primary_windows(ws)[j]);
            }
        };
    }
}

/// When the pointer is not over the window that a cursor ray's camera draws
/// to, the pass leaves that cursor ray's transform as it was, whatever the
/// other inputs are.
pub proof fn lemma_freeze_without_pointer(
    f: &Frame,
    rays: Seq<BoundRay>,
    unprojected: Seq<bool>,
    i: int,
    w: u64,
)
    requires
        f.wf(),
        unprojected.len() == rays.len(),
        0 <= i < rays.len(),
        has_camera(f.cameras@, rays[i].ray.target),
        target_window(f.windows@, f.cameras@[camera_index(f.cameras@, rays[i].ray.target)].target)
            == Ok::<u64, CursorRayError>(w),
        has_window(f.windows@, w),
        !f.windows@[window_index(f.windows@, w)].has_cursor,
    ensures
        frame_updates(f, rays, unprojected)[i] == RayUpdate::Keep,
        !(frame_updates(f, rays, unprojected)[i] is Write),
{
}

/// A cursor ray whose camera is missing is skipped with exactly one
/// `CameraNotFound` among the pass's failures when every other cursor ray
/// has its camera; and every other cursor ray gets the same update as in a
/// pass without it.
pub proof fn lemma_camera_miss_isolated(
    f: &Frame,
    rays: Seq<BoundRay>,
    unprojected: Seq<bool>,
    k: int,
)
    requires
        f.wf(),
        unprojected.len() == rays.len(),
        0 <= k < rays.len(),
        !has_camera(f.cameras@, rays[k].ray.target),
        forall|j: int|
            0 <= j < rays.len() && j != k ==> has_camera(f.cameras@, #[trigger] rays[j].ray.target),
    ensures
        frame_updates(f, rays, unprojected)[k] == RayUpdate::Skip(CursorRayError::CameraNotFound),
        error_count(failures_of(frame_updates(f, rays, unprojected)), CursorRayError::CameraNotFound)
            == 1,
        forall|j: int|
            0 <= j < rays.len() && j != k ==> #[trigger] frame_updates(f, rays, unprojected)[j]
                == frame_updates(f, rays.remove(k), unprojected.remove(k))[if j < k {
                j
            } else {
                j - 1
            }],
{
    let us = frame_updates(f, rays, unprojected);
    assert forall|j: int| 0 <= j < us.len() && j != k implies us[j] != RayUpdate::Skip(
        CursorRayError::CameraNotFound,
    ) by {
        assert(has_camera(f.cameras@, rays[j].ray.target));
        assert(us[j] == ray_update(f, rays[j], unprojected[j]));
    };
    lemma_failures_one(us, CursorRayError::CameraNotFound, k);
}

/// A cursor ray whose camera draws to the primary window is skipped with
/// `PrimarySurfaceAmbiguous` when no window, or more than one, is flagged
/// primary.
pub proof fn lemma_primary_ambiguous(f: &Frame, ray: BoundRay, unprojected: bool)
    requires
        f.wf(),
        has_camera(f.cameras@, ray.ray.target),
        f.cameras@[camera_index(f.cameras@, ray.ray.target)].target == RenderTarget::Window(
            WindowRef::Primary,
        ),
        primary_windows(f.windows@).len() != 1,
    ensures
        ray_update(f, ray, unprojected) == RayUpdate::Skip(
            CursorRayError::PrimarySurfaceAmbiguous {
                found: primary_windows(f.windows@).len() as usize,
            },
        ),
{
}

/// With exactly one window flagged primary and the pointer over it, a cursor
/// ray whose camera draws to the primary window is written, once its camera
/// unprojects the pointer and its parent frame resolves.
pub proof fn lemma_single_primary_resolves(f: &Frame, ray: BoundRay)
    requires
        f.wf(),
        has_camera(f.cameras@, ray.ray.target),
        f.cameras@[camera_index(f.cameras@, ray.ray.target)].target == RenderTarget::Window(
            WindowRef::Primary,
        ),
        primary_windows(f.windows@).len() == 1,
        primary_windows(f.windows@)[0].has_cursor,
        parent_frame(f, ray.parent) is Ok,
    ensures
        ray_update(f, ray, true) is Write,
{
    let ws = f.windows@;
    let p = primary_windows(ws)[0];
    lemma_primary_windows_from(ws);
    let i = choose|i: int| 0 <= i < ws.len() && ws[i] == primary_windows(ws)[0];
    assert(ws[i].entity == p.entity);
    assert(has_window(ws, p.entity));
    let wi = window_index(ws, p.entity);
    assert(wi == i) by {
        if wi < i {
            assert(ws[wi].entity != ws[i].entity);
        } else if wi > i {
            assert(ws[i].entity != ws[wi].entity);
        }
    };
    assert(pointer_source(f, ray.ray.target) is Ok);
}

/// A cursor ray whose camera draws to something that is not a window is
/// skipped with `UnsupportedRenderTarget` in every frame, whatever the
/// pointer, the unprojection and the parent.
pub proof fn lemma_offscreen_rejected(f: &Frame, ray: BoundRay, unprojected: bool)
    requires
        f.wf(),
        has_camera(f.cameras@, ray.ray.target),
        f.cameras@[camera_index(f.cameras@, ray.ray.target)].target == RenderTarget::Offscreen,
    ensures
        ray_update(f, ray, unprojected) == RayUpdate::Skip(
            CursorRayError::UnsupportedRenderTarget(RenderTarget::Offscreen),
        ),
        !(ray_update(f, ray, unprojected) is Write),
{
}

} // verus!
