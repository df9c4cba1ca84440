use fathom::runner::{
    accepts_input, camera_control, route, Builtin, CameraControl, Dispatch, FrameStep, InputKind,
    Route, Transport, CMD_PREFIX,
};

#[test]
fn framework_commands_are_told_apart_from_the_apps() {
    assert!(matches!(route("fathom.pause"), Route::Framework(Builtin::Pause)));
    assert!(matches!(route("fathom.resume"), Route::Framework(Builtin::Resume)));
    assert!(matches!(route("fathom.toggle_pause"), Route::Framework(Builtin::TogglePause)));
    assert!(matches!(route("fathom.step"), Route::Framework(Builtin::Step)));
    assert!(matches!(route("fathom.reset_camera"), Route::Framework(Builtin::ResetCamera)));
    assert!(matches!(route("fathom.warp"), Route::UnknownFramework("warp")));
    assert!(matches!(route("reseed"), Route::App));
    assert!(matches!(route("fathom"), Route::App));
    assert_eq!(CMD_PREFIX, "fathom.");
}

#[test]
fn a_step_while_paused_runs_exactly_one_frame() {
    let mut t = Transport::new();
    assert_eq!(t.frame(), FrameStep::Advance);
    assert!(matches!(t.command("fathom.pause"), Dispatch::Done));
    assert_eq!(t.frame(), FrameStep::Hold);
    assert!(matches!(t.command("fathom.step"), Dispatch::Done));
    assert_eq!(t.frame(), FrameStep::SingleStep);
    assert_eq!(t.frame(), FrameStep::Hold);
    assert!(matches!(t.command("fathom.resume"), Dispatch::Done));
    assert_eq!(t.frame(), FrameStep::Advance);
}

#[test]
fn toggling_twice_changes_nothing() {
    let mut t = Transport::new();
    t.command("fathom.toggle_pause");
    assert!(t.paused);
    t.command("fathom.toggle_pause");
    assert_eq!(t, Transport::new());
}

#[test]
fn a_step_while_running_is_used_up_by_the_next_frame() {
    let mut t = Transport::new();
    t.command("fathom.step");
    assert!(t.step_once);
    assert_eq!(t.frame(), FrameStep::Advance);
    assert!(!t.step_once);
}

#[test]
fn unknown_and_app_commands_leave_the_transport_alone() {
    let mut t = Transport { paused: true, step_once: false };
    assert!(matches!(t.command("fathom.warp"), Dispatch::Unknown("warp")));
    assert!(matches!(t.command("fathom."), Dispatch::Unknown("")));
    assert!(matches!(t.command("fathom.pause.now"), Dispatch::Unknown("pause.now")));
    assert!(matches!(t.command("preset"), Dispatch::ToApp));
    assert!(matches!(t.command("fathom.reset_camera"), Dispatch::ResetCamera));
    assert_eq!(t, Transport { paused: true, step_once: false });
}

#[test]
fn the_camera_pans_on_a_middle_drag_or_a_shifted_left_drag() {
    assert_eq!(camera_control(InputKind::MouseDragged, 0b100, false), CameraControl::PanThenTrack);
    assert_eq!(camera_control(InputKind::MouseDragged, 0b001, true), CameraControl::PanThenTrack);
    assert_eq!(camera_control(InputKind::MouseDragged, 0b001, false), CameraControl::Track);
    assert_eq!(camera_control(InputKind::MouseDragged, 0b010, true), CameraControl::Track);
    assert_eq!(camera_control(InputKind::Scrolled, 0, false), CameraControl::Zoom);
    assert_eq!(camera_control(InputKind::MousePressed, 1, false), CameraControl::Track);
    assert_eq!(camera_control(InputKind::KeyPressed, 0, true), CameraControl::Ignore);
}

#[test]
fn pointer_input_waits_for_a_real_viewport() {
    assert!(!accepts_input(1, 1));
    assert!(!accepts_input(800, 1));
    assert!(!accepts_input(0, 600));
    assert!(accepts_input(2, 2));
    assert!(accepts_input(800, 600));
}
