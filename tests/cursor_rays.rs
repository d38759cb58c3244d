use bevy_cursor::frame::{CameraEntry, Frame, WindowEntry};
use bevy_cursor::target::{CursorRayError, RenderTarget, WindowRef};
use bevy_cursor::update::{BoundRay, ParentFrame, PointerSource, RayUpdate};
use bevy_cursor::pass::{commit, failures};
use bevy_cursor::update_cursor_rays;
use bevy_cursor::{CursorRay, CursorRayPlugin, UNBOUND_TARGET};

const CAMERA: u64 = 10;
const WINDOW: u64 = 20;
const PARENT: u64 = 30;

fn window(entity: u64, primary: bool, has_cursor: bool) -> WindowEntry {
    WindowEntry { entity, primary, has_cursor }
}

fn camera(entity: u64, target: RenderTarget) -> CameraEntry {
    CameraEntry { entity, target }
}

fn bound(target: u64, parent: Option<u64>) -> BoundRay {
    BoundRay { ray: CursorRay { target }, parent }
}

fn primary_frame(windows: Vec<WindowEntry>) -> Frame {
    Frame {
        cameras: vec![camera(CAMERA, RenderTarget::Window(WindowRef::Primary))],
        windows,
        transforms: vec![PARENT],
    }
}

fn update_one(frame: &Frame, ray: BoundRay, unprojected: bool) -> RayUpdate {
    let located = frame.locate_pointer(ray.ray.target);
    frame.settle_ray(&ray, located, unprojected)
}

#[test]
fn default_cursor_ray_is_unbound() {
    assert_eq!(CursorRay::default().target, UNBOUND_TARGET);
    assert_eq!(UNBOUND_TARGET, (1u64 << 32) | u64::from(u32::MAX));
    let _plugin = CursorRayPlugin::default();
}

#[test]
fn unbound_cursor_ray_reports_missing_camera() {
    let frame = primary_frame(vec![window(WINDOW, true, true)]);
    let ray = BoundRay { ray: CursorRay::default(), parent: None };
    assert_eq!(update_one(&frame, ray, true), RayUpdate::Skip(CursorRayError::CameraNotFound));
}

#[test]
fn pointer_over_primary_window_writes_unparented() {
    let frame = primary_frame(vec![window(5, false, false), window(WINDOW, true, true)]);
    assert_eq!(
        update_one(&frame, bound(CAMERA, None), true),
        RayUpdate::Write {
            source: PointerSource { camera: 0, window: 1 },
            parent: ParentFrame::Identity,
        }
    );
}

#[test]
fn parented_ray_uses_parent_frame() {
    let mut frame = primary_frame(vec![window(WINDOW, true, true)]);
    frame.transforms = vec![7, 8, PARENT];
    assert_eq!(
        update_one(&frame, bound(CAMERA, Some(PARENT)), true),
        RayUpdate::Write {
            source: PointerSource { camera: 0, window: 0 },
            parent: ParentFrame::Entity(2),
        }
    );
}

#[test]
fn missing_parent_transform_is_reported() {
    let frame = primary_frame(vec![window(WINDOW, true, true)]);
    assert_eq!(
        update_one(&frame, bound(CAMERA, Some(99)), true),
        RayUpdate::Skip(CursorRayError::ParentTransformNotFound)
    );
}

#[test]
fn failed_unprojection_is_reported_before_parent() {
    let frame = primary_frame(vec![window(WINDOW, true, true)]);
    assert_eq!(
        update_one(&frame, bound(CAMERA, Some(99)), false),
        RayUpdate::Skip(CursorRayError::UnprojectionFailed)
    );
}

#[test]
fn pointer_outside_window_freezes_transform() {
    let frame = primary_frame(vec![window(WINDOW, true, false)]);
    let rays = vec![bound(CAMERA, Some(99))];
    let mut locals = vec![41u32];
    let errors = update_cursor_rays(&frame, &rays, &vec![false], &mut locals, &vec![7u32]);
    assert_eq!(locals, vec![41u32]);
    assert!(errors.is_empty());
    assert_eq!(update_one(&frame, rays[0], true), RayUpdate::Keep);
}

#[test]
fn no_primary_window_is_ambiguous() {
    let frame = primary_frame(vec![window(WINDOW, false, true)]);
    assert_eq!(
        update_one(&frame, bound(CAMERA, None), true),
        RayUpdate::Skip(CursorRayError::PrimarySurfaceAmbiguous { found: 0 })
    );
}

#[test]
fn two_primary_windows_are_ambiguous() {
    let frame = primary_frame(vec![window(WINDOW, true, true), window(21, true, true)]);
    assert_eq!(
        update_one(&frame, bound(CAMERA, None), true),
        RayUpdate::Skip(CursorRayError::PrimarySurfaceAmbiguous { found: 2 })
    );
}

#[test]
fn one_primary_window_makes_next_tick_succeed() {
    let mut frame = primary_frame(vec![window(WINDOW, false, true), window(21, false, true)]);
    let rays = vec![bound(CAMERA, None)];
    let mut locals = vec![1u8];
    let errors = update_cursor_rays(&frame, &rays, &vec![true], &mut locals, &vec![2u8]);
    assert_eq!(errors, vec![CursorRayError::PrimarySurfaceAmbiguous { found: 0 }]);
    assert_eq!(locals, vec![1u8]);
    frame.windows[1].primary = true;
    let errors = update_cursor_rays(&frame, &rays, &vec![true], &mut locals, &vec![2u8]);
    assert!(errors.is_empty());
    assert_eq!(locals, vec![2u8]);
}

#[test]
fn window_by_entity_is_used_directly() {
    let frame = Frame {
        cameras: vec![camera(CAMERA, RenderTarget::Window(WindowRef::Entity(21)))],
        windows: vec![window(WINDOW, true, true), window(21, false, true)],
        transforms: vec![],
    };
    assert_eq!(
        update_one(&frame, bound(CAMERA, None), true),
        RayUpdate::Write {
            source: PointerSource { camera: 0, window: 1 },
            parent: ParentFrame::Identity,
        }
    );
}

#[test]
fn missing_window_is_reported() {
    let frame = Frame {
        cameras: vec![camera(CAMERA, RenderTarget::Window(WindowRef::Entity(77)))],
        windows: vec![window(WINDOW, true, true)],
        transforms: vec![],
    };
    assert_eq!(
        update_one(&frame, bound(CAMERA, None), true),
        RayUpdate::Skip(CursorRayError::SurfaceNotFound)
    );
}

#[test]
fn offscreen_camera_is_rejected_every_tick() {
    let frame = Frame {
        cameras: vec![camera(CAMERA, RenderTarget::Offscreen)],
        windows: vec![window(WINDOW, true, true)],
        transforms: vec![],
    };
    let rays = vec![bound(CAMERA, None)];
    let mut locals = vec![3i64];
    for _tick in 0..3 {
        let errors = update_cursor_rays(&frame, &rays, &vec![true], &mut locals, &vec![9i64]);
        assert_eq!(
            errors,
            vec![CursorRayError::UnsupportedRenderTarget(RenderTarget::Offscreen)]
        );
        assert_eq!(locals, vec![3i64]);
    }
}

#[test]
fn one_missing_camera_does_not_stop_the_others() {
    let frame = Frame {
        cameras: vec![
            camera(CAMERA, RenderTarget::Window(WindowRef::Primary)),
            camera(11, RenderTarget::Window(WindowRef::Entity(WINDOW))),
        ],
        windows: vec![window(WINDOW, true, true)],
        transforms: vec![PARENT],
    };
    let rays = vec![
        bound(CAMERA, None),
        bound(12, None),
        bound(11, Some(PARENT)),
        bound(CAMERA, Some(PARENT)),
    ];
    let mut locals = vec![0u16, 0, 0, 0];
    let computed = vec![1u16, 2, 3, 4];
    let errors = update_cursor_rays(&frame, &rays, &vec![true; 4], &mut locals, &computed);
    assert_eq!(errors, vec![CursorRayError::CameraNotFound]);
    assert_eq!(locals, vec![1u16, 0, 3, 4]);
}

#[test]
fn failures_keep_object_order() {
    let updates = vec![
        RayUpdate::Skip(CursorRayError::SurfaceNotFound),
        RayUpdate::Keep,
        RayUpdate::Write {
            source: PointerSource { camera: 0, window: 0 },
            parent: ParentFrame::Identity,
        },
        RayUpdate::Skip(CursorRayError::CameraNotFound),
    ];
    assert_eq!(
        failures(&updates),
        vec![CursorRayError::SurfaceNotFound, CursorRayError::CameraNotFound]
    );
}

#[test]
fn commit_writes_only_written_objects() {
    let updates = vec![
        RayUpdate::Keep,
        RayUpdate::Write {
            source: PointerSource { camera: 0, window: 0 },
            parent: ParentFrame::Entity(0),
        },
        RayUpdate::Skip(CursorRayError::UnprojectionFailed),
    ];
    let mut locals = vec!['a', 'b', 'c'];
    commit(&mut locals, &updates, &vec!['x', 'y', 'z']);
    assert_eq!(locals, vec!['a', 'y', 'c']);
}

#[test]
fn lookups_find_positions() {
    let frame = Frame {
        cameras: vec![camera(1, RenderTarget::Offscreen), camera(2, RenderTarget::Offscreen)],
        windows: vec![window(3, false, false), window(4, true, false)],
        transforms: vec![5, 6],
    };
    assert_eq!(frame.find_camera(2), Some(1));
    assert_eq!(frame.find_camera(3), None);
    assert_eq!(frame.find_window(4), Some(1));
    assert_eq!(frame.find_window(1), None);
    assert_eq!(frame.find_transform(5), Some(0));
    assert_eq!(frame.find_transform(4), None);
    assert_eq!(frame.resolve_target(RenderTarget::Window(WindowRef::Primary)), Ok(4));
    assert_eq!(frame.resolve_parent(None), Ok(ParentFrame::Identity));
    assert_eq!(frame.resolve_parent(Some(6)), Ok(ParentFrame::Entity(1)));
}
