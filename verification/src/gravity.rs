//! The gravity app: an exact 2D N-body simulation, where every body pulls on every
//! other body.
//!
//! Here are its declarations — parameters, commands, body counts — and the decisions its
//! callbacks make: what a command or a key reseeds, when trails are cleared, when the
//! drag well is on, and when a drag launches a body. The host carries them out on the GPU.
pub mod scenes;
pub mod sim;

use vstd::prelude::*;

use crate::app::{declares_command, CommandDef};
use crate::params::{declares, ParamDef, ParamKind};
use crate::text::str_eq;
use scenes::{Scene, scene_at};

verus! {

pub const G: usize = 0;
pub const SOFTENING: usize = 1;
pub const TIMESCALE: usize = 2;
pub const WELL: usize = 3;
pub const POINT_SIZE: usize = 4;
pub const BRIGHTNESS: usize = 5;
pub const TRAILS: usize = 6;
pub const TRAIL_FADE: usize = 7;
pub const COLOR_MODE: usize = 8;
pub const LAUNCH_MASS: usize = 9;
pub const LEFT_LAUNCHES: usize = 10;

/// How many parameters the app declares.
pub const PARAM_COUNT: usize = 11;

/// The options of the colour-mode select.
pub const COLOR_MODES: [&'static str; 3] = ["Speed", "Mass", "Flat"];

/// The storage class of each declared parameter.
pub open spec fn kind_at(i: int) -> ParamKind {
    if i == TRAILS || i == LEFT_LAUNCHES {
        ParamKind::Toggle
    } else if i == COLOR_MODE {
        ParamKind::Choice
    } else {
        ParamKind::Float
    }
}

/// The declared parameters, each at the position its index constant names: every
/// field, as the panel and the block read it.
pub open spec fn declared_schema(s: Seq<ParamDef>) -> bool {
    &&& s.len() == PARAM_COUNT
    &&& declares(s[G as int], "g", "Gravity", ParamKind::Float, 0x3f80_0000, 0x0000_0000, 0x4080_0000, 0, "Physics", false, seq![])
    &&& declares(s[SOFTENING as int], "softening", "Softening", ParamKind::Float, 0x3d75_c28f, 0x3b03_126f, 0x3e99_999a, 0, "Physics", false, seq![])
    &&& declares(s[TIMESCALE as int], "timescale", "Time scale", ParamKind::Float, 0x3f80_0000, 0x0000_0000, 0x4040_0000, 0, "Physics", false, seq![])
    &&& declares(s[WELL as int], "well", "Drag pull", ParamKind::Float, 0x4110_0000, 0x0000_0000, 0x4220_0000, 0, "Physics", false, seq![])
    &&& declares(s[POINT_SIZE as int], "pointSize", "Point size", ParamKind::Float, 0x3fcc_cccd, 0x3f00_0000, 0x40c0_0000, 0, "Render", false, seq![])
    &&& declares(s[BRIGHTNESS as int], "brightness", "Brightness", ParamKind::Float, 0x3fa6_6666, 0x3e4c_cccd, 0x4080_0000, 0, "Render", false, seq![])
    &&& declares(s[TRAILS as int], "trails", "Trails", ParamKind::Toggle, 1, 0, 1, 1, "Render", false, seq![])
    &&& declares(s[TRAIL_FADE as int], "trailFade", "Trail length", ParamKind::Float, 0x3f66_6666, 0x3f00_0000, 0x3f7d_70a4, 0, "Render", false, seq![])
    &&& declares(s[COLOR_MODE as int], "colorMode", "Colour by", ParamKind::Choice, 0, 0, 2, 1, "Render", false, COLOR_MODES@)
    &&& declares(s[LAUNCH_MASS as int], "launchMass", "Launch mass", ParamKind::Float, 0x3ca3_d70a, 0x3a83_126f, 0x3e99_999a, 0, "Launch", false, seq![])
    &&& declares(s[LEFT_LAUNCHES as int], "leftLaunches", "Left-drag launches", ParamKind::Toggle, 0, 0, 1, 1, "Launch", false, seq![])
}

/// Declared parameters, in block order. Float values are written as their bit patterns;
/// the decimal value each stands for is noted beside it.
pub fn schema() -> (r: Vec<ParamDef>)
    ensures
        declared_schema(r@),
        r@.len() == PARAM_COUNT,
        forall|i: int| 0 <= i < PARAM_COUNT ==> #[trigger] r@[i].kind == kind_at(i),
{
    vec![
        // 1.0 in 0.0..=4.0
        ParamDef::float("g", "Gravity", 0x3f80_0000, 0x0000_0000, 0x4080_0000).group("Physics"),
        // The mean spacing in a unit disc of 8k bodies is about 0.02, so a softening of
        // that size lets the heavy core scatter violently off its nearest neighbours.
        // Keeping the default a few times the spacing is what holds the scene together.
        // 0.06 in 0.002..=0.3
        ParamDef::float("softening", "Softening", 0x3d75_c28f, 0x3b03_126f, 0x3e99_999a).group("Physics"),
        // 1.0 in 0.0..=3.0
        ParamDef::float("timescale", "Time scale", 0x3f80_0000, 0x0000_0000, 0x4040_0000).group("Physics"),
        // 9.0 in 0.0..=40.0
        ParamDef::float("well", "Drag pull", 0x4110_0000, 0x0000_0000, 0x4220_0000).group("Physics"),
        // 1.6 in 0.5..=6.0
        ParamDef::float("pointSize", "Point size", 0x3fcc_cccd, 0x3f00_0000, 0x40c0_0000).group("Render"),
        // 1.3 in 0.2..=4.0
        ParamDef::float("brightness", "Brightness", 0x3fa6_6666, 0x3e4c_cccd, 0x4080_0000).group("Render"),
        ParamDef::toggle("trails", "Trails", true).group("Render"),
        // 0.90 in 0.50..=0.99
        ParamDef::float("trailFade", "Trail length", 0x3f66_6666, 0x3f00_0000, 0x3f7d_70a4).group("Render"),
        ParamDef::choice("colorMode", "Colour by", 0, &COLOR_MODES).group("Render"),
        // The weight of a body launched by a drag. The scenes' total mass is 1, a sun is
        // 0.12 and a planet 0.012, so the range runs from a speck to a second sun.
        // 0.02 in 0.001..=0.3
        ParamDef::float("launchMass", "Launch mass", 0x3ca3_d70a, 0x3a83_126f, 0x3e99_999a).group("Launch"),
        // A left-drag pulls bodies toward the cursor unless this is on, when it launches
        // too.
        ParamDef::toggle("leftLaunches", "Left-drag launches", false).group("Launch"),
    ]
}

/// Body counts offered by the `count` command. All are multiples of the 256-wide
/// workgroup, so no dispatch ends with a half-idle group.
pub const COUNTS: [u32; 4] = [2_048, 8_192, 20_480, 49_152];

pub const COUNT_LABELS: [&'static str; 4] = ["2,048", "8,192", "20,480", "49,152"];

pub const DEFAULT_COUNT_INDEX: u32 = 1;

/// The body count at a position of the `count` command's options.
pub open spec fn count_at(i: int) -> u32 {
    if i <= 0 {
        2_048
    } else if i == 1 {
        8_192
    } else if i == 2 {
        20_480
    } else {
        49_152
    }
}

/// The body count an option index selects; an index past the end selects the last.
pub fn count_for(index: u32) -> (r: u32)
    ensures
        r == count_at(if index < 3 { index as int } else { 3 }),
        r == COUNTS[if index < 3 { index as int } else { 3 }],
        r % sim::WORKGROUP == 0,
{
    let i: usize = if index < 3 { index as usize } else { 3 };
    let r = COUNTS[i];
    assert(r == count_at(i as int));
    r
}

/// The scene the app opens on, as a position of the `scene` command's options: the
/// binary, two heavy stars orbiting each other.
pub const OPENING_SCENE_INDEX: u32 = 1;

/// The declared commands, in panel order.
pub open spec fn declared_commands(c: Seq<CommandDef>) -> bool {
    &&& c.len() == 4
    &&& declares_command(c[0], "scene", "Scene", "Simulation", Scene::LABELS@, OPENING_SCENE_INDEX)
    &&& declares_command(c[1], "count", "Bodies", "Simulation", COUNT_LABELS@, DEFAULT_COUNT_INDEX)
    &&& declares_command(c[2], "reset", "Reset", "Simulation", seq![], 0)
    &&& declares_command(c[3], "randomize", "Randomise", "Simulation", seq![], 0)
}

/// The command names the app answers.
pub open spec fn answers(name: Seq<char>) -> bool {
    ||| name == "scene"@
    ||| name == "count"@
    ||| name == "reset"@
    ||| name == "randomize"@
}

/// The commands the panel offers. The scene select starts on the scene the app opens
/// on, so the control agrees with what is running.
pub fn commands() -> (r: Vec<CommandDef>)
    ensures
        declared_commands(r@),
{
    vec![
        CommandDef::choice("scene", "Scene", &Scene::LABELS).group("Simulation").initial(
            OPENING_SCENE_INDEX,
        ),
        CommandDef::choice("count", "Bodies", &COUNT_LABELS).group("Simulation").initial(
            DEFAULT_COUNT_INDEX,
        ),
        CommandDef::button("reset", "Reset").group("Simulation"),
        CommandDef::button("randomize", "Randomise").group("Simulation"),
    ]
}

/// Picking option `index` of the Bodies select reseeds the running scene, on its seed,
/// with the count the select labels at that position (the last one past the end), and
/// changes nothing else; picking option `index` of the Scene select reseeds with the
/// scene the select labels there, keeping the count and the seed.
pub proof fn lemma_selects_pick_what_they_label(g: Gravity, index: u32, cur: Current)
    ensures
        command_effect(g, "count"@, index, cur) == (
            g,
            Some(
                Reseed {
                    scene: cur.scene,
                    n: COUNTS[if index < 3 { index as int } else { 3 }],
                    seed: cur.seed,
                    reset_camera: false,
                },
            ),
        ),
        command_effect(g, "scene"@, index, cur) == (
            g,
            Some(
                Reseed {
                    scene: Scene::ALL[if index < 5 { index as int } else { 5 }],
                    n: cur.n,
                    seed: cur.seed,
                    reset_camera: false,
                },
            ),
        ),
        COUNTS@.len() == COUNT_LABELS@.len(),
        Scene::ALL@.len() == Scene::LABELS@.len(),
{
    reveal_strlit("count");
    reveal_strlit("scene");
    assert("count"@[0] != "scene"@[0]);
}

/// Every command the panel offers is one the app answers with a reseed.
pub proof fn lemma_declared_commands_are_answered(c: Seq<CommandDef>, g: Gravity, index: u32, cur: Current)
    requires
        declared_commands(c),
    ensures
        forall|i: int| 0 <= i < c.len() ==> answers(#[trigger] c[i].name@),
        forall|i: int| 0 <= i < c.len() ==> (#[trigger] command_effect(g, c[i].name@, index, cur)).1 is Some,
{
    assert forall|i: int| 0 <= i < c.len() implies answers(#[trigger] c[i].name@) by {
        if i == 0 {
        } else if i == 1 {
        } else if i == 2 {
        } else {
        }
    }
    assert forall|i: int| 0 <= i < c.len() implies (#[trigger] command_effect(g, c[i].name@, index, cur)).1 is Some by {
        if i == 0 {
        } else if i == 1 {
        } else if i == 2 {
        } else {
        }
    }
}

/// Rebuild the body buffers for this scene, count and seed.
#[derive(Clone, Copy, Debug, PartialEq, Eq, Structural)]
pub struct Reseed {
    pub scene: Scene,
    pub n: u32,
    pub seed: u64,
    /// Put the camera back where it started, too.
    pub reset_camera: bool,
}

/// What the simulation currently holds.
#[derive(Clone, Copy, Debug, PartialEq, Eq, Structural)]
pub struct Current {
    pub scene: Scene,
    pub n: u32,
    pub seed: u64,
}

/// The app's own state, apart from its GPU resources.
#[derive(Clone, Copy, Debug, PartialEq, Eq, Structural)]
pub struct Gravity {
    /// Trails have to be cleared the moment they are switched off, or the last frame of
    /// streaks sits there forever; this remembers what they were.
    pub trails_were_on: bool,
    /// The seed the next randomise or `r` uses, less one.
    pub next_seed: u64,
    /// Whether the drag-to-attract well is on.
    pub well_on: bool,
    /// Whether a launch is being drawn: a drag that, when it ends, adds a body.
    pub launching: bool,
}

/// What a press starts.
#[derive(Clone, Copy, Debug, PartialEq, Eq, Structural)]
pub enum Press {
    /// The drag well, placed at the cursor.
    Well,
    /// A launch, from the cursor.
    Launch,
    /// Nothing of the app's: the framework's pan, or another button.
    Nothing,
}

/// What a drag moves.
#[derive(Clone, Copy, Debug, PartialEq, Eq, Structural)]
pub enum DragUse {
    /// The drag well follows the cursor.
    Well,
    /// The far end of the launch line follows the cursor.
    LaunchLine,
    Nothing,
}

/// A body to add where the launch began, moving along the line drawn (from where it
/// began to where it was let go), weighing what the parameter at `mass` says.
#[derive(Clone, Copy, Debug, PartialEq, Eq, Structural)]
pub struct Launch {
    pub mass: usize,
}

/// What a press does: a right press always begins a launch; a plain left press begins
/// one when left-drag launching is switched on and places the drag well otherwise;
/// shift-left is the framework's pan gesture, so the app stays out of its way.
pub open spec fn press_effect(g: Gravity, button: u8, shift: bool, left_launches: bool) -> (Gravity, Press) {
    if button == 2 || (button == 0 && !shift && left_launches) {
        (Gravity { launching: true, ..g }, Press::Launch)
    } else if button == 0 && !shift {
        (Gravity { well_on: true, ..g }, Press::Well)
    } else {
        (g, Press::Nothing)
    }
}

/// What a release does: the well lets go, and a launch being drawn adds its body.
pub open spec fn release_effect(g: Gravity) -> (Gravity, Option<Launch>) {
    (
        Gravity { well_on: false, launching: false, ..g },
        if g.launching { Some(Launch { mass: LAUNCH_MASS }) } else { None },
    )
}

/// What a command does, given the app's state and what the simulation holds.
pub open spec fn command_effect(g: Gravity, name: Seq<char>, index: u32, cur: Current) -> (
    Gravity,
    Option<Reseed>,
) {
    let next = vstd::wrapping::u64_specs::wrapping_add(g.next_seed, 1);
    if name == "scene"@ {
        (
            g,
            Some(
                Reseed {
                    scene: scene_at(if index < 5 { index as int } else { 5 }),
                    n: cur.n,
                    seed: cur.seed,
                    reset_camera: false,
                },
            ),
        )
    } else if name == "count"@ {
        (
            g,
            Some(
                Reseed {
                    scene: cur.scene,
                    n: count_at(if index < 3 { index as int } else { 3 }),
                    seed: cur.seed,
                    reset_camera: false,
                },
            ),
        )
    } else if name == "reset"@ {
        (g, Some(Reseed { scene: cur.scene, n: cur.n, seed: cur.seed, reset_camera: true }))
    } else if name == "randomize"@ {
        (
            Gravity { next_seed: next, ..g },
            Some(Reseed { scene: cur.scene, n: cur.n, seed: next, reset_camera: false }),
        )
    } else {
        (g, None)
    }
}

impl Gravity {
    /// The state at setup: trails as the parameters have them, the seed stream at its
    /// start, and no well.
    pub fn new(trails: bool) -> (r: Self)
        ensures
            r == (Gravity { trails_were_on: trails, next_seed: 1, well_on: false, launching: false }),
    {
        Gravity { trails_were_on: trails, next_seed: 1, well_on: false, launching: false }
    }

    /// A declared command fired. Returns what to reseed, or `None` for a name the app
    /// does not know.
    pub fn command(&mut self, name: &str, index: u32, cur: Current) -> (r: Option<Reseed>)
        ensures
            (*final(self), r) == command_effect(*old(self), name@, index, cur),
    {
        if str_eq(name, "scene") {
            Some(Reseed { scene: Scene::from_index(index), n: cur.n, seed: cur.seed, reset_camera: false })
        } else if str_eq(name, "count") {
            Some(Reseed { scene: cur.scene, n: count_for(index), seed: cur.seed, reset_camera: false })
        } else if str_eq(name, "reset") {
            Some(Reseed { scene: cur.scene, n: cur.n, seed: cur.seed, reset_camera: true })
        } else if str_eq(name, "randomize") {
            self.next_seed = self.next_seed.wrapping_add(1);
            Some(Reseed { scene: cur.scene, n: cur.n, seed: self.next_seed, reset_camera: false })
        } else {
            None
        }
    }

    /// A key went down. `r` reseeds the current scene from the next seed.
    pub fn key_pressed(&mut self, key: &str, cur: Current) -> (r: Option<Reseed>)
        ensures
            key@ == "r"@ ==> {
                let next = vstd::wrapping::u64_specs::wrapping_add(old(self).next_seed, 1);
                &&& *final(self) == (Gravity { next_seed: next, ..*old(self) })
                &&& r == Some(Reseed { scene: cur.scene, n: cur.n, seed: next, reset_camera: false })
            },
            key@ != "r"@ ==> *final(self) == *old(self) && r is None,
    {
        if str_eq(key, "r") {
            self.next_seed = self.next_seed.wrapping_add(1);
            Some(Reseed { scene: cur.scene, n: cur.n, seed: self.next_seed, reset_camera: false })
        } else {
            None
        }
    }

    /// The frame's trails setting. Returns whether the trail buffer must be cleared: it
    /// must whenever trails change, so switching them off leaves no streaks behind.
    pub fn update_trails(&mut self, trails: bool) -> (clear: bool)
        ensures
            clear == (trails != old(self).trails_were_on),
            *final(self) == (Gravity { trails_were_on: trails, ..*old(self) }),
    {
        let clear = trails != self.trails_were_on;
        if clear {
            self.trails_were_on = trails;
        }
        clear
    }

    /// A button went down, with shift held or not, and left-drag launching switched on
    /// or not.
    pub fn mouse_pressed(&mut self, button: u8, shift: bool, left_launches: bool) -> (r: Press)
        ensures
            (*final(self), r) == press_effect(*old(self), button, shift, left_launches),
    {
        if button == 2 || (button == 0 && !shift && left_launches) {
            self.launching = true;
            Press::Launch
        } else if button == 0 && !shift {
            self.well_on = true;
            Press::Well
        } else {
            Press::Nothing
        }
    }

    /// The pointer moved with a button held: a launch line being drawn follows it, or
    /// else the well does if it is on.
    pub fn mouse_dragged(&self) -> (r: DragUse)
        ensures
            r == (if self.launching {
                DragUse::LaunchLine
            } else if self.well_on {
                DragUse::Well
            } else {
                DragUse::Nothing
            }),
    {
        if self.launching {
            DragUse::LaunchLine
        } else if self.well_on {
            DragUse::Well
        } else {
            DragUse::Nothing
        }
    }

    /// A button came up: the well lets go, and a launch being drawn adds its body.
    pub fn mouse_released(&mut self) -> (r: Option<Launch>)
        ensures
            (*final(self), r) == release_effect(*old(self)),
    {
        let launched = self.launching;
        self.well_on = false;
        self.launching = false;
        if launched {
            Some(Launch { mass: LAUNCH_MASS })
        } else {
            None
        }
    }
}

/// A right-drag launches exactly one body: whatever state the app was in, a right press
/// begins a launch, drags only move its line, and the release asks for one body weighing
/// the launch-mass parameter and leaves nothing pending, so a second release adds none.
pub proof fn lemma_right_drag_launches_one_body(g: Gravity, shift: bool, left_launches: bool)
    ensures
        ({
            let pressed = press_effect(g, 2, shift, left_launches);
            let released = release_effect(pressed.0);
            &&& pressed.1 == Press::Launch
            &&& pressed.0.launching
            &&& released.1 == Some(Launch { mass: LAUNCH_MASS })
            &&& !released.0.well_on && !released.0.launching
            &&& release_effect(released.0).1 is None
        }),
{
}

} // verus!
