use scene_core::frame::{
    choose_surface_format, surface_action, FrameAction, FramePhase, FrameState, ResizeOutcome,
    SurfaceSize, SurfaceStatus,
};

#[test]
fn zero_width_or_height_resize_changes_nothing() {
    let mut f = FrameState::new(800, 600);
    let before = f;
    assert_eq!(f.on_resize(0, 600), ResizeOutcome::Ignored);
    assert_eq!(f, before);
    assert_eq!(f.on_resize(800, 0), ResizeOutcome::Ignored);
    assert_eq!(f, before);
    assert_eq!(f.on_resize(0, 0), ResizeOutcome::Ignored);
    assert_eq!(f, before);
}

#[test]
fn resize_between_frames_applies_at_once() {
    let mut f = FrameState::new(800, 600);
    assert_eq!(f.on_resize(1024, 768), ResizeOutcome::Applied);
    assert_eq!((f.width, f.height), (1024, 768));
    assert_eq!(f.phase, FramePhase::Resized);
}

#[test]
fn frame_runs_update_then_render() {
    let mut f = FrameState::new(800, 600);
    assert!(!f.begin_render());
    assert!(f.begin_update());
    assert_eq!(f.phase, FramePhase::Updated);
    assert!(!f.begin_update());
    assert!(f.begin_render());
    assert_eq!(f.phase, FramePhase::Rendered);
    let end = f.end_frame(SurfaceStatus::Good);
    assert_eq!(end.action, FrameAction::Continue);
    assert_eq!(end.resize, None);
    assert_eq!(f.phase, FramePhase::Idle);
}

#[test]
fn resize_mid_frame_waits_for_the_frame_end() {
    let mut f = FrameState::new(800, 600);
    f.begin_update();
    assert_eq!(f.on_resize(640, 480), ResizeOutcome::Deferred);
    assert_eq!((f.width, f.height), (800, 600));
    f.begin_render();
    assert_eq!(f.on_resize(320, 240), ResizeOutcome::Deferred);
    let end = f.end_frame(SurfaceStatus::Good);
    assert_eq!(end.resize, Some(SurfaceSize { width: 320, height: 240 }));
    assert_eq!((f.width, f.height), (320, 240));
    assert_eq!(f.pending, None);
}

#[test]
fn held_back_resize_is_dropped_on_shutdown() {
    let mut f = FrameState::new(800, 600);
    f.begin_update();
    f.on_resize(640, 480);
    f.begin_render();
    let end = f.end_frame(SurfaceStatus::OutOfMemory);
    assert_eq!(end.action, FrameAction::Exit);
    assert_eq!(end.resize, None);
    assert_eq!((f.width, f.height), (800, 600));
}

#[test]
fn surface_status_decides_what_follows() {
    assert_eq!(surface_action(SurfaceStatus::Good), FrameAction::Continue);
    assert_eq!(surface_action(SurfaceStatus::Lost), FrameAction::Reconfigure);
    assert_eq!(surface_action(SurfaceStatus::Outdated), FrameAction::Reconfigure);
    assert_eq!(surface_action(SurfaceStatus::OutOfMemory), FrameAction::Exit);
    assert_eq!(surface_action(SurfaceStatus::Timeout), FrameAction::Skip);
}

#[test]
fn lost_surface_reruns_resize_with_window_size() {
    let mut f = FrameState::new(800, 600);
    f.begin_update();
    f.begin_render();
    let end = f.end_frame(SurfaceStatus::Lost);
    assert_eq!(end.action, FrameAction::Reconfigure);
    assert_eq!(f.on_resize(800, 600), ResizeOutcome::Applied);
}

#[test]
fn first_srgb_format_wins() {
    assert_eq!(choose_surface_format(&vec![false, true, true]), Some(1));
    assert_eq!(choose_surface_format(&vec![true, false]), Some(0));
    assert_eq!(choose_surface_format(&vec![false, false]), Some(0));
    assert_eq!(choose_surface_format(&vec![]), None);
}
