//! The decisions of the shared loop.
//!
//! Both hosts own a runner, and everything about *running* an app is decided here: which
//! commands the framework answers itself, whether a frame advances the simulation, which
//! input the camera acts on, and when pointer input means anything at all. The host
//! carries the decisions out on the GPU, the camera and the app.
use vstd::prelude::*;

use crate::text::{str_eq, strip_prefix};

verus! {

/// Commands the framework handles itself rather than passing to the app. The prefix
/// keeps them out of an app's namespace.
pub const CMD_PREFIX: &'static str = "fathom.";

/// A command the framework answers itself.
#[derive(Clone, Copy, Debug, PartialEq, Eq, Structural)]
pub enum Builtin {
    Pause,
    Resume,
    TogglePause,
    /// Run exactly one update while paused.
    Step,
    ResetCamera,
}

/// Where a named command goes.
#[derive(Clone, Copy, Debug)]
pub enum Route<'a> {
    /// One of the framework's own commands.
    Framework(Builtin),
    /// The framework's prefix with a name it does not know; carries the name after the
    /// prefix so the host can report it.
    UnknownFramework(&'a str),
    /// Anything without the prefix belongs to the app.
    App,
}

/// The name a builtin answers to, after the prefix.
pub open spec fn builtin_name(b: Builtin) -> Seq<char> {
    match b {
        Builtin::Pause => "pause"@,
        Builtin::Resume => "resume"@,
        Builtin::TogglePause => "toggle_pause"@,
        Builtin::Step => "step"@,
        Builtin::ResetCamera => "reset_camera"@,
    }
}

/// Whether `rest` names some builtin.
pub open spec fn names_builtin(rest: Seq<char>) -> bool {
    exists|b: Builtin| builtin_name(b) == rest
}

/// Decide where a command goes.
pub fn route(name: &str) -> (r: Route<'_>)
    ensures
        !CMD_PREFIX@.is_prefix_of(name@) <==> r is App,
        r matches Route::Framework(b) ==> name@ == CMD_PREFIX@ + builtin_name(b),
        r matches Route::UnknownFramework(rest) ==> {
            &&& name@ == CMD_PREFIX@ + rest@
            &&& !names_builtin(rest@)
        },
{
    match strip_prefix(name, CMD_PREFIX) {
        None => Route::App,
        Some(rest) => {
            proof {
                assert(name@ =~= CMD_PREFIX@ + rest@);
            }
            if str_eq(rest, "pause") {
                Route::Framework(Builtin::Pause)
            } else if str_eq(rest, "resume") {
                Route::Framework(Builtin::Resume)
            } else if str_eq(rest, "toggle_pause") {
                Route::Framework(Builtin::TogglePause)
            } else if str_eq(rest, "step") {
                Route::Framework(Builtin::Step)
            } else if str_eq(rest, "reset_camera") {
                Route::Framework(Builtin::ResetCamera)
            } else {
                proof {
                    assert forall|b: Builtin| builtin_name(b) != rest@ by {
                        match b {
                            Builtin::Pause => {},
                            Builtin::Resume => {},
                            Builtin::TogglePause => {},
                            Builtin::Step => {},
                            Builtin::ResetCamera => {},
                        }
                    }
                }
                Route::UnknownFramework(rest)
            }
        },
    }
}

/// What a frame does with the simulation.
#[derive(Clone, Copy, Debug, PartialEq, Eq, Structural)]
pub enum FrameStep {
    /// Paused: draw only.
    Hold,
    /// Running: advance by the frame's own elapsed time.
    Advance,
    /// Paused, but a single step was asked for: advance by one plausible frame, not by
    /// however long the user sat on the pause button.
    SingleStep,
}

/// Whether the simulation runs, and whether a single step is owed.
#[derive(Clone, Copy, Debug, PartialEq, Eq, Structural)]
pub struct Transport {
    pub paused: bool,
    /// Set by `fathom.step`: run exactly one update while paused.
    pub step_once: bool,
}

/// The transport after a builtin command.
pub open spec fn after_builtin(t: Transport, b: Builtin) -> Transport {
    match b {
        Builtin::Pause => Transport { paused: true, ..t },
        Builtin::Resume => Transport { paused: false, ..t },
        Builtin::TogglePause => Transport { paused: !t.paused, ..t },
        Builtin::Step => Transport { step_once: true, ..t },
        Builtin::ResetCamera => t,
    }
}

/// What a frame does, given the transport as the frame begins.
pub open spec fn frame_step(t: Transport) -> FrameStep {
    if !t.paused {
        FrameStep::Advance
    } else if t.step_once {
        FrameStep::SingleStep
    } else {
        FrameStep::Hold
    }
}

/// The transport once a frame has begun: a pending single step is used up by any frame
/// that updates.
pub open spec fn after_frame(t: Transport) -> Transport {
    if !t.paused || t.step_once {
        Transport { step_once: false, ..t }
    } else {
        t
    }
}

impl Transport {
    /// Running, with no step pending.
    pub fn new() -> (r: Self)
        ensures
            !r.paused,
            !r.step_once,
    {
        Transport { paused: false, step_once: false }
    }

    /// Carry out a builtin command. Returns whether the camera is to be reset.
    pub fn apply(&mut self, b: Builtin) -> (reset_camera: bool)
        ensures
            *final(self) == after_builtin(*old(self), b),
            reset_camera == (b == Builtin::ResetCamera),
    {
        match b {
            Builtin::Pause => {
                self.paused = true;
                false
            },
            Builtin::Resume => {
                self.paused = false;
                false
            },
            Builtin::TogglePause => {
                self.paused = !self.paused;
                false
            },
            Builtin::Step => {
                self.step_once = true;
                false
            },
            Builtin::ResetCamera => true,
        }
    }

    /// Begin a frame: decide whether it updates the simulation, and use up a pending
    /// single step if it does.
    pub fn frame(&mut self) -> (r: FrameStep)
        ensures
            r == frame_step(*old(self)),
            *final(self) == after_frame(*old(self)),
    {
        if !self.paused || self.step_once {
            let single = self.paused;
            self.step_once = false;
            if single {
                FrameStep::SingleStep
            } else {
                FrameStep::Advance
            }
        } else {
            FrameStep::Hold
        }
    }
}

/// What the runner does with a named command after the transport has had its say.
#[derive(Clone, Copy, Debug)]
pub enum Dispatch<'a> {
    /// A framework command, already carried out on the transport.
    Done,
    /// A framework command that resets the camera to its default.
    ResetCamera,
    /// The framework's prefix with a name it does not know: report it and do nothing.
    Unknown(&'a str),
    /// Not the framework's: hand it to the app.
    ToApp,
}

impl Transport {
    /// Dispatch a command: framework commands are carried out here; everything else goes
    /// to the app.
    pub fn command<'a>(&mut self, name: &'a str) -> (r: Dispatch<'a>)
        ensures
            !CMD_PREFIX@.is_prefix_of(name@) ==> r is ToApp && *final(self) == *old(self),
            CMD_PREFIX@.is_prefix_of(name@) ==> !(r is ToApp),
            forall|b: Builtin|
                name@ == CMD_PREFIX@ + builtin_name(b) ==> *final(self) == after_builtin(*old(self), b)
                    && (r is ResetCamera <==> b == Builtin::ResetCamera)
                    && (r is Done <==> b != Builtin::ResetCamera),
            r matches Dispatch::Unknown(rest) ==> {
                &&& name@ == CMD_PREFIX@ + rest@
                &&& !names_builtin(rest@)
                &&& *final(self) == *old(self)
            },
            CMD_PREFIX@.is_prefix_of(name@) && !names_builtin(name@.skip(CMD_PREFIX@.len() as int))
                ==> r is Unknown && *final(self) == *old(self),
    {
        match route(name) {
            Route::App => {
                proof {
                    assert forall|b: Builtin| name@ != CMD_PREFIX@ + builtin_name(b) by {
                        assert(CMD_PREFIX@.is_prefix_of(CMD_PREFIX@ + builtin_name(b))) by {
                            assert((CMD_PREFIX@ + builtin_name(b)).subrange(0, CMD_PREFIX@.len() as int) =~= CMD_PREFIX@);
                        }
                    }
                }
                Dispatch::ToApp
            },
            Route::UnknownFramework(rest) => {
                proof {
                    assert forall|b: Builtin| name@ != CMD_PREFIX@ + builtin_name(b) by {
                        let p = CMD_PREFIX@;
                        if name@ == p + builtin_name(b) {
                            assert(builtin_name(b) =~= (p + builtin_name(b)).skip(p.len() as int));
                            assert(rest@ =~= (p + rest@).skip(p.len() as int));
                        }
                    }
                }
                proof {
                    assert(name@.skip(CMD_PREFIX@.len() as int) =~= rest@);
                }
                Dispatch::Unknown(rest)
            },
            Route::Framework(b) => {
                proof {
                    lemma_builtin_names_distinct(b);
                    assert(name@.skip(CMD_PREFIX@.len() as int) =~= builtin_name(b));
                }
                if self.apply(b) {
                    Dispatch::ResetCamera
                } else {
                    Dispatch::Done
                }
            },
        }
    }
}

/// Each builtin answers to its own name: the prefixed names of two different builtins
/// never coincide.
pub proof fn lemma_builtin_names_distinct(b: Builtin)
    ensures
        forall|c: Builtin| CMD_PREFIX@ + builtin_name(c) == CMD_PREFIX@ + builtin_name(b) ==> c == b,
{
    reveal_strlit("pause");
    reveal_strlit("resume");
    reveal_strlit("toggle_pause");
    reveal_strlit("step");
    reveal_strlit("reset_camera");
    assert forall|c: Builtin| CMD_PREFIX@ + builtin_name(c) == CMD_PREFIX@ + builtin_name(b) implies c == b by {
        let p = CMD_PREFIX@;
        assert(builtin_name(c) =~= (p + builtin_name(c)).skip(p.len() as int));
        assert(builtin_name(b) =~= (p + builtin_name(b)).skip(p.len() as int));
        let (x, y) = (builtin_name(c), builtin_name(b));
        if c != b {
            if x.len() == y.len() {
                // Names of equal length differ in their first character.
                assert(x[0] != y[0]);
            }
        }
    }
}

/// Each builtin does what its name says: pause stops the simulation and resume runs it,
/// toggle flips it, step asks for one update without touching whether it runs, and
/// recentring leaves the transport alone. None of them but step touches a pending step.
pub proof fn lemma_builtins_do_what_they_name(t: Transport)
    ensures
        after_builtin(t, Builtin::Pause) == (Transport { paused: true, step_once: t.step_once }),
        after_builtin(t, Builtin::Resume) == (Transport { paused: false, step_once: t.step_once }),
        after_builtin(t, Builtin::TogglePause) == (Transport { paused: !t.paused, step_once: t.step_once }),
        after_builtin(t, Builtin::Step) == (Transport { paused: t.paused, step_once: true }),
        after_builtin(t, Builtin::ResetCamera) == t,
        frame_step(Transport { paused: false, step_once: t.step_once }) == FrameStep::Advance,
        frame_step(Transport { paused: true, step_once: false }) == FrameStep::Hold,
        frame_step(Transport { paused: true, step_once: true }) == FrameStep::SingleStep,
        !after_frame(Transport { paused: true, step_once: true }).step_once,
        after_frame(t).paused == t.paused,
{
}

/// Toggling the pause twice leaves the transport as it was.
pub proof fn lemma_toggle_twice(t: Transport)
    ensures
        after_builtin(after_builtin(t, Builtin::TogglePause), Builtin::TogglePause) == t,
{
}

/// Pausing, then resuming, runs the simulation again whatever its state was; each of the
/// two is idempotent.
pub proof fn lemma_pause_resume(t: Transport)
    ensures
        !after_builtin(after_builtin(t, Builtin::Pause), Builtin::Resume).paused,
        after_builtin(after_builtin(t, Builtin::Pause), Builtin::Pause) == after_builtin(
            t,
            Builtin::Pause,
        ),
        after_builtin(after_builtin(t, Builtin::Resume), Builtin::Resume) == after_builtin(
            t,
            Builtin::Resume,
        ),
{
}

/// A step asked for while paused advances the simulation by exactly one frame: the next
/// frame is a single step and the one after it holds.
pub proof fn lemma_step_runs_exactly_one_frame(t: Transport)
    requires
        t.paused,
    ensures
        ({
            let s = after_builtin(t, Builtin::Step);
            &&& frame_step(s) == FrameStep::SingleStep
            &&& frame_step(after_frame(s)) == FrameStep::Hold
            &&& after_frame(after_frame(s)) == after_frame(s)
        }),
{
}

/// While running, every frame advances and no step stays pending.
pub proof fn lemma_running_always_advances(t: Transport)
    requires
        !t.paused,
    ensures
        frame_step(t) == FrameStep::Advance,
        !after_frame(t).step_once,
        !after_frame(t).paused,
{
}

/// A kind of input event, as the interface reports it.
#[derive(Clone, Copy, Debug, PartialEq, Eq, Structural)]
pub enum InputKind {
    MousePressed,
    MouseMoved,
    MouseDragged,
    MouseReleased,
    Scrolled,
    KeyPressed,
    KeyReleased,
}

/// What the framework's own camera handling does with an event, before the app sees it.
#[derive(Clone, Copy, Debug, PartialEq, Eq, Structural)]
pub enum CameraControl {
    /// Zoom about the cursor.
    Zoom,
    /// Remember where the cursor is.
    Track,
    /// Pan by the cursor's movement since it was last remembered, then remember it.
    PanThenTrack,
    /// Nothing.
    Ignore,
}

/// The DOM's bit for a held middle button.
pub const MIDDLE_BUTTON_MASK: u8 = 0b100;

/// The DOM's bit for a held left button.
pub const LEFT_BUTTON_MASK: u8 = 0b001;

/// Whether a drag with these buttons held pans the camera: a middle drag, or a left
/// drag with shift.
pub open spec fn drag_pans(buttons: u8, shift: bool) -> bool {
    (buttons & MIDDLE_BUTTON_MASK) != 0 || ((buttons & LEFT_BUTTON_MASK) != 0 && shift)
}

/// The camera's part in an event.
pub open spec fn spec_camera_control(kind: InputKind, buttons: u8, shift: bool) -> CameraControl {
    match kind {
        InputKind::Scrolled => CameraControl::Zoom,
        InputKind::MouseDragged => if drag_pans(buttons, shift) {
            CameraControl::PanThenTrack
        } else {
            CameraControl::Track
        },
        InputKind::MousePressed | InputKind::MouseMoved | InputKind::MouseReleased =>
            CameraControl::Track,
        InputKind::KeyPressed | InputKind::KeyReleased => CameraControl::Ignore,
    }
}

/// Pan and zoom are framework behaviour, decided here before the app sees the event, so
/// every app gets them without writing any code.
pub fn camera_control(kind: InputKind, buttons: u8, shift: bool) -> (r: CameraControl)
    ensures
        r == spec_camera_control(kind, buttons, shift),
        kind == InputKind::MouseDragged ==> (r == CameraControl::PanThenTrack <==> ((buttons
            & 0b100u8) != 0 || ((buttons & 0b001u8) != 0 && shift))),
        kind == InputKind::MouseDragged && (buttons & 0b101u8) == 0 ==> r == CameraControl::Track,
{
    proof {
        lemma_only_middle_or_shifted_left_drags_pan(buttons, shift);
    }
    match kind {
        InputKind::Scrolled => CameraControl::Zoom,
        InputKind::MouseDragged => {
            if (buttons & MIDDLE_BUTTON_MASK) != 0 || ((buttons & LEFT_BUTTON_MASK) != 0 && shift) {
                CameraControl::PanThenTrack
            } else {
                CameraControl::Track
            }
        },
        InputKind::MousePressed | InputKind::MouseMoved | InputKind::MouseReleased =>
            CameraControl::Track,
        InputKind::KeyPressed | InputKind::KeyReleased => CameraControl::Ignore,
    }
}

/// A drag pans the camera exactly when the middle button is held, or the left button
/// with shift; any other drag (a plain left drag, or a right drag, whatever shift says)
/// only tracks the cursor, so the app can use it.
pub proof fn lemma_only_middle_or_shifted_left_drags_pan(buttons: u8, shift: bool)
    ensures
        spec_camera_control(InputKind::MouseDragged, buttons, shift) == CameraControl::PanThenTrack
            <==> ((buttons & 0b100u8) != 0 || ((buttons & 0b001u8) != 0 && shift)),
        spec_camera_control(InputKind::MouseDragged, buttons, shift) == CameraControl::PanThenTrack
            || spec_camera_control(InputKind::MouseDragged, buttons, shift) == CameraControl::Track,
        (buttons & 0b101u8) == 0 ==> spec_camera_control(InputKind::MouseDragged, buttons, shift)
            == CameraControl::Track,
{
    assert((buttons & 0b101u8) == 0 ==> (buttons & 0b100u8) == 0 && (buttons & 0b001u8) == 0)
        by (bit_vector);
}

/// Pointer coordinates only mean something once the interface has reported a viewport
/// larger than the one-pixel placeholder; before that, input is dropped.
pub fn accepts_input(width: u32, height: u32) -> (r: bool)
    ensures
        r == (width > 1 && height > 1),
{
    !(width <= 1 || height <= 1)
}

} // verus!
