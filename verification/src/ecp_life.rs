//! The particle-life app: particles with a continuous colour, interacting through a
//! smooth landscape over the pair of their colours.
//!
//! Here are its declarations — parameters, commands, particle counts — and the decisions
//! its callbacks make: what a command, a key or a changed detail slider rebakes or
//! reseeds. The host carries them out on the GPU.
pub mod landscape;
pub mod physics;
pub mod presets;
pub mod scenes;
pub mod sim;

use vstd::prelude::*;

use crate::app::{declares_command, CommandDef};
use crate::params::{advanced_from, declares, every_group_shows_one, ParamBlock, ParamDef, ParamKind};
use crate::text::str_eq;
use physics::Profile;
use scenes::Scene;

verus! {

// -- Physics
pub const R_CUT: usize = 0;
pub const CORE_FRAC: usize = 1;
pub const K_REP: usize = 2;
pub const LAM: usize = 3;
pub const CHASE_GAIN: usize = 4;
pub const DAMPING: usize = 5;
pub const TIMESCALE: usize = 6;
pub const SUBSTEPS: usize = 7;
// -- Landscape
pub const PROFILE: usize = 8;
pub const S0: usize = 9;
pub const AMP_SYM: usize = 10;
pub const AMP_CHASE: usize = 11;
pub const HARMONICS: usize = 12;
pub const WELL_SIGMA: usize = 13;
pub const RSTAR_MIN: usize = 14;
pub const RSTAR_SPAN: usize = 15;
// -- Render
pub const POINT_SIZE: usize = 16;
pub const BRIGHTNESS: usize = 17;
pub const COLOR_MODE: usize = 18;
// -- Instruments
pub const OVERLAY: usize = 19;
pub const PROBE_A: usize = 20;
pub const PROBE_B: usize = 21;

/// How many parameters the app declares.
pub const PARAM_COUNT: usize = 22;

/// The options of the colour-mode select.
pub const COLOR_MODES: [&'static str; 4] = ["Colour", "Speed", "Colour gradient", "Flat"];

/// The storage class of each declared parameter.
pub open spec fn kind_at(i: int) -> ParamKind {
    if i == SUBSTEPS || i == HARMONICS {
        ParamKind::Int
    } else if i == PROFILE || i == COLOR_MODE {
        ParamKind::Choice
    } else if i == OVERLAY {
        ParamKind::Toggle
    } else {
        ParamKind::Float
    }
}

/// The range of each whole-number parameter.
pub open spec fn whole_range(i: int) -> (i64, i64) {
    if i == SUBSTEPS {
        (1, 12)
    } else if i == HARMONICS {
        (1, landscape::MAX_HARMONICS as i64)
    } else if i == PROFILE {
        (0, 1)
    } else if i == COLOR_MODE {
        (0, 3)
    } else {
        (0, 1)
    }
}

/// The declared parameters, each at the position its index constant names: every
/// field, as the panel and the block read it.
pub open spec fn declared_schema(s: Seq<ParamDef>) -> bool {
    &&& s.len() == PARAM_COUNT
    &&& declares(s[R_CUT as int], "cutoff", "Cutoff R", ParamKind::Float, 0x3ca3_d70a, 0x3bc4_9ba6, 0x3d75_c28f, 0, "Physics", false, seq![])
    &&& declares(s[CORE_FRAC as int], "core", "Core radius", ParamKind::Float, 0x3e99_999a, 0x3d4c_cccd, 0x3f33_3333, 0, "Physics", true, seq![])
    &&& declares(s[K_REP as int], "kRep", "Core stiffness", ParamKind::Float, 0x3fc0_0000, 0x0000_0000, 0x4100_0000, 0, "Physics", true, seq![])
    &&& declares(s[LAM as int], "lam", "Colour store", ParamKind::Float, 0x3f19_999a, 0x3ca3_d70a, 0x4080_0000, 0, "Physics", true, seq![])
    &&& declares(s[CHASE_GAIN as int], "chase", "Chase gain", ParamKind::Float, 0x3ecc_cccd, 0x0000_0000, 0x4000_0000, 0, "Physics", false, seq![])
    &&& declares(s[DAMPING as int], "damping", "Damping", ParamKind::Float, 0x4416_0000, 0x0000_0000, 0x453b_8000, 0, "Physics", true, seq![])
    &&& declares(s[TIMESCALE as int], "timescale", "Time scale", ParamKind::Float, 0x3e19_999a, 0x0000_0000, 0x3f80_0000, 0, "Physics", false, seq![])
    &&& declares(s[SUBSTEPS as int], "substeps", "Substeps", ParamKind::Int, 4, 1, 12, 1, "Physics", true, seq![])
    &&& declares(s[PROFILE as int], "profile", "Radial profile", ParamKind::Choice, 1, 0, 1, 1, "Landscape", false, Profile::LABELS@)
    &&& declares(s[S0 as int], "s0", "Baseline attraction", ParamKind::Float, 0x3f66_6666, 0x0000_0000, 0x4000_0000, 0, "Landscape", true, seq![])
    &&& declares(s[AMP_SYM as int], "ampSym", "Pair strength", ParamKind::Float, 0x3f33_3333, 0x0000_0000, 0x4000_0000, 0, "Landscape", false, seq![])
    &&& declares(s[AMP_CHASE as int], "ampChase", "Chase strength", ParamKind::Float, 0x3f33_3333, 0x0000_0000, 0x4000_0000, 0, "Landscape", false, seq![])
    &&& declares(s[HARMONICS as int], "harmonics", "Landscape detail", ParamKind::Int, 3, 1, landscape::MAX_HARMONICS as i64, 1, "Landscape", false, seq![])
    &&& declares(s[WELL_SIGMA as int], "wellSigma", "Well width", ParamKind::Float, 0x3e23_d70a, 0x3cf5_c28f, 0x3f00_0000, 0, "Landscape", true, seq![])
    &&& declares(s[RSTAR_MIN as int], "rstarMin", "Closest liking", ParamKind::Float, 0x3e99_999a, 0x3d4c_cccd, 0x3f66_6666, 0, "Landscape", true, seq![])
    &&& declares(s[RSTAR_SPAN as int], "rstarSpan", "Liking spread", ParamKind::Float, 0x3ee6_6666, 0x0000_0000, 0x3f66_6666, 0, "Landscape", true, seq![])
    &&& declares(s[POINT_SIZE as int], "pointSize", "Point size", ParamKind::Float, 0x3fc0_0000, 0x3f00_0000, 0x40c0_0000, 0, "Render", false, seq![])
    &&& declares(s[BRIGHTNESS as int], "brightness", "Brightness", ParamKind::Float, 0x3f99_999a, 0x3e4c_cccd, 0x4080_0000, 0, "Render", false, seq![])
    &&& declares(s[COLOR_MODE as int], "colorMode", "Colour by", ParamKind::Choice, 0, 0, 3, 1, "Render", false, COLOR_MODES@)
    &&& declares(s[OVERLAY as int], "overlay", "Show instruments", ParamKind::Toggle, 1, 0, 1, 1, "Instruments", false, seq![])
    &&& declares(s[PROBE_A as int], "probeA", "Probe colour A", ParamKind::Float, 0x0000_0000, 0x0000_0000, 0x40c9_0fdb, 0, "Instruments", false, seq![])
    &&& declares(s[PROBE_B as int], "probeB", "Probe colour B", ParamKind::Float, 0x4049_0fdb, 0x0000_0000, 0x40c9_0fdb, 0, "Instruments", false, seq![])
}

/// Declared parameters, in block order. Float values are written as their bit patterns;
/// the decimal value each stands for is noted beside it.
pub fn schema() -> (r: Vec<ParamDef>)
    ensures
        declared_schema(r@),
        advanced_from(r@, 0) == 9,
        every_group_shows_one(r@),
        r@.len() == PARAM_COUNT,
        forall|i: int| 0 <= i < PARAM_COUNT ==> #[trigger] r@[i].kind == kind_at(i),
        forall|i: int|
            0 <= i < PARAM_COUNT && kind_at(i) != ParamKind::Float ==> (#[trigger] r@[i].min,
            r@[i].max) == whole_range(i),
{
    let r: Vec<ParamDef> = vec![
        // The cutoff is the unit of length: every other distance is a fraction of it.
        // 0.02 in 0.006..=0.06
        ParamDef::float("cutoff", "Cutoff R", 0x3ca3_d70a, 0x3bc4_9ba6, 0x3d75_c28f).group("Physics"),
        // 0.30 in 0.05..=0.70
        ParamDef::float("core", "Core radius", 0x3e99_999a, 0x3d4c_cccd, 0x3f33_3333).group("Physics").advanced(),
        // 1.5 in 0.0..=8.0
        ParamDef::float("kRep", "Core stiffness", 0x3fc0_0000, 0x0000_0000, 0x4100_0000).group("Physics").advanced(),
        // Also the reservoir size: a larger store makes colour the slow variable.
        // 0.6 in 0.02..=4.0
        ParamDef::float("lam", "Colour store", 0x3f19_999a, 0x3ca3_d70a, 0x4080_0000).group("Physics").advanced(),
        // How hard the chase pushes relative to the pair bond, at any cutoff.
        // 0.4 in 0.0..=2.0
        ParamDef::float("chase", "Chase gain", 0x3ecc_cccd, 0x0000_0000, 0x4000_0000).group("Physics"),
        // Strongly overdamped is the interesting regime.
        // 600.0 in 0.0..=3000.0
        ParamDef::float("damping", "Damping", 0x4416_0000, 0x0000_0000, 0x453b_8000).group("Physics").advanced(),
        // 0.15 in 0.0..=1.0
        ParamDef::float("timescale", "Time scale", 0x3e19_999a, 0x0000_0000, 0x3f80_0000).group("Physics"),
        ParamDef::integer("substeps", "Substeps", 4, 1, 12).group("Physics").advanced(),
        ParamDef::choice("profile", "Radial profile", 1, &Profile::LABELS).group("Landscape"),
        // Baseline attraction is not optional: without it a pair can lose its grip exactly
        // where its chase peaks.
        // 0.9 in 0.0..=2.0
        ParamDef::float("s0", "Baseline attraction", 0x3f66_6666, 0x0000_0000, 0x4000_0000).group("Landscape").advanced(),
        // 0.7 in 0.0..=2.0
        ParamDef::float("ampSym", "Pair strength", 0x3f33_3333, 0x0000_0000, 0x4000_0000).group("Landscape"),
        // 0.7 in 0.0..=2.0
        ParamDef::float("ampChase", "Chase strength", 0x3f33_3333, 0x0000_0000, 0x4000_0000).group("Landscape"),
        // How many harmonics the landscape is allowed.
        ParamDef::integer("harmonics", "Landscape detail", 3, 1, landscape::MAX_HARMONICS).group("Landscape"),
        // 0.16 in 0.03..=0.50
        ParamDef::float("wellSigma", "Well width", 0x3e23_d70a, 0x3cf5_c28f, 0x3f00_0000).group("Landscape").advanced(),
        // 0.30 in 0.05..=0.90
        ParamDef::float("rstarMin", "Closest liking", 0x3e99_999a, 0x3d4c_cccd, 0x3f66_6666).group("Landscape").advanced(),
        // 0.45 in 0.0..=0.90
        ParamDef::float("rstarSpan", "Liking spread", 0x3ee6_6666, 0x0000_0000, 0x3f66_6666).group("Landscape").advanced(),
        // 1.5 in 0.5..=6.0
        ParamDef::float("pointSize", "Point size", 0x3fc0_0000, 0x3f00_0000, 0x40c0_0000).group("Render"),
        // 1.2 in 0.2..=4.0
        ParamDef::float("brightness", "Brightness", 0x3f99_999a, 0x3e4c_cccd, 0x4080_0000).group("Render"),
        ParamDef::choice("colorMode", "Colour by", 0, &COLOR_MODES).group("Render"),
        ParamDef::toggle("overlay", "Show instruments", true).group("Instruments"),
        // 0.0 in 0.0..=τ
        ParamDef::float("probeA", "Probe colour A", 0x0000_0000, 0x0000_0000, 0x40c9_0fdb).group("Instruments"),
        // τ/2 in 0.0..=τ
        ParamDef::float("probeB", "Probe colour B", 0x4049_0fdb, 0x0000_0000, 0x40c9_0fdb).group("Instruments"),
    ];
    proof {
        lemma_schema_layout(r@);
    }
    r
}

/// Nine of the declared parameters are the tail filed behind a disclosure, and every
/// group still has a control shown.
proof fn lemma_schema_layout(s: Seq<ParamDef>)
    requires
        declared_schema(s),
    ensures
        advanced_from(s, 0) == 9,
        every_group_shows_one(s),
{
    reveal_with_fuel(advanced_from, 23);
    assert forall|i: int| #![trigger s[i]] 0 <= i < s.len() implies exists|j: int|
        #![trigger s[j]]
        0 <= j < s.len() && !s[j].advanced && s[j].group@ == s[i].group@ by {
        let j: int = if i < PROFILE {
            R_CUT as int
        } else if i < POINT_SIZE {
            PROFILE as int
        } else if i < OVERLAY {
            POINT_SIZE as int
        } else {
            OVERLAY as int
        };
        assert(!s[j].advanced && s[j].group@ == s[i].group@);
    }
}

/// Particle counts offered by the `count` command. All are multiples of the 256-wide
/// workgroup, so no dispatch ends with a half-idle group.
pub const COUNTS: [u32; 4] = [4_096, 16_384, 65_536, 131_072];

pub const COUNT_LABELS: [&'static str; 4] = ["4,096", "16,384", "65,536", "131,072"];

pub const DEFAULT_COUNT_INDEX: u32 = 1;

/// The particle count at a position of the `count` command's options.
pub open spec fn count_at(i: int) -> u32 {
    if i <= 0 {
        4_096
    } else if i == 1 {
        16_384
    } else if i == 2 {
        65_536
    } else {
        131_072
    }
}

/// The particle count an option index selects; an index past the end selects the last.
pub fn count_for(index: u32) -> (r: u32)
    ensures
        r == count_at(if index < 3 { index as int } else { 3 }),
        r == COUNTS[if index < 3 { index as int } else { 3 }],
        r % sim::WORKGROUP == 0,
{
    let i: usize = if index < 3 { index as usize } else { 3 };
    let r = COUNTS[i];
    assert(r == count_at(i as int));
    r
}

/// The declared commands, in panel order.
pub open spec fn declared_commands(c: Seq<CommandDef>) -> bool {
    &&& c.len() == 6
    &&& declares_command(c[0], "preset", "Preset", "Simulation", presets::LABELS@, 0)
    &&& declares_command(c[1], "scene", "Start from", "Simulation", Scene::LABELS@, 0)
    &&& declares_command(c[2], "count", "Particles", "Simulation", COUNT_LABELS@, DEFAULT_COUNT_INDEX)
    &&& declares_command(c[3], "randomize", "New landscape", "Simulation", seq![], 0)
    &&& declares_command(c[4], "reseed", "Reseed particles", "Simulation", seq![], 0)
    &&& declares_command(c[5], "reset", "Reset", "Simulation", seq![], 0)
}

/// The command names the app answers.
pub open spec fn answers(name: Seq<char>) -> bool {
    ||| name == "preset"@
    ||| name == "scene"@
    ||| name == "count"@
    ||| name == "randomize"@
    ||| name == "reseed"@
    ||| name == "reset"@
}

/// The commands the panel offers.
pub fn commands() -> (r: Vec<CommandDef>)
    ensures
        declared_commands(r@),
{
    vec![
        CommandDef::choice("preset", "Preset", &presets::LABELS).group("Simulation"),
        CommandDef::choice("scene", "Start from", &Scene::LABELS).group("Simulation"),
        CommandDef::choice("count", "Particles", &COUNT_LABELS).group("Simulation").initial(
            DEFAULT_COUNT_INDEX,
        ),
        CommandDef::button("randomize", "New landscape").group("Simulation"),
        CommandDef::button("reseed", "Reseed particles").group("Simulation"),
        CommandDef::button("reset", "Reset").group("Simulation"),
    ]
}

/// Every command the panel offers is one the app answers: none of its buttons or
/// selects is a dead control.
pub proof fn lemma_declared_commands_are_answered(c: Seq<CommandDef>)
    requires
        declared_commands(c),
    ensures
        forall|i: int| 0 <= i < c.len() ==> answers(#[trigger] c[i].name@),
{
    assert forall|i: int| 0 <= i < c.len() implies answers(#[trigger] c[i].name@) by {
        if i == 0 {
        } else if i == 1 {
        } else if i == 2 {
        } else if i == 3 {
        } else if i == 4 {
        } else {
        }
    }
}

/// How many substeps a frame is divided into: as many as the slider asks, and never
/// none.
pub fn substeps(param: u32) -> (r: u32)
    ensures
        r == (if param < 1 { 1 } else { param }),
{
    if param < 1 {
        1
    } else {
        param
    }
}

/// Bake a new landscape from this seed at this detail, and hand it to the GPU.
#[derive(Clone, Copy, Debug, PartialEq, Eq, Structural)]
pub struct Bake {
    pub seed: u64,
    pub harmonics: u32,
}

/// Rebuild the particle buffers for this scene, count and seed.
#[derive(Clone, Copy, Debug, PartialEq, Eq, Structural)]
pub struct Reseed {
    pub scene: Scene,
    pub n: u32,
    pub seed: u64,
}

/// What the simulation currently holds.
#[derive(Clone, Copy, Debug, PartialEq, Eq, Structural)]
pub struct Current {
    pub scene: Scene,
    pub n: u32,
}

/// Everything a command asks the host to do, in this order: bake, reseed, reset the
/// camera.
#[derive(Clone, Copy, Debug)]
pub struct Effect {
    /// The preset whose values were written into the parameter block, if one was.
    pub preset: Option<presets::Preset>,
    pub bake: Option<Bake>,
    pub reseed: Option<Reseed>,
    pub reset_camera: bool,
}

/// Nothing to do.
pub open spec fn no_effect(e: Effect) -> bool {
    e.preset is None && e.bake is None && e.reseed is None && !e.reset_camera
}

/// The app's own state, apart from its GPU resources.
///
/// The landscape depends on a parameter, not only on a command, so the detail it was
/// baked at is remembered and compared: rebaking every frame would be wasteful, and
/// rebaking only on command would leave the detail slider doing nothing.
#[derive(Clone, Copy, Debug, PartialEq, Eq, Structural)]
pub struct EcpLife {
    pub baked_harmonics: u32,
    pub landscape_seed: u64,
    pub particle_seed: u64,
}

/// One more than `x`, wrapping.
pub open spec fn bump(x: u64) -> u64 {
    vstd::wrapping::u64_specs::wrapping_add(x, 1)
}

impl EcpLife {
    /// The state at setup: the first landscape seed and particle seed, baked at the
    /// detail the parameters start with.
    pub fn new(harmonics: u32) -> (r: Self)
        ensures
            r == (EcpLife { baked_harmonics: harmonics, landscape_seed: 1, particle_seed: 1 }),
    {
        EcpLife { baked_harmonics: harmonics, landscape_seed: 1, particle_seed: 1 }
    }

    /// Remember a bake.
    fn rebake(&mut self, seed: u64, harmonics: u32) -> (r: Bake)
        ensures
            r == (Bake { seed, harmonics }),
            *final(self) == (EcpLife {
                baked_harmonics: harmonics,
                landscape_seed: seed,
                particle_seed: old(self).particle_seed,
            }),
    {
        self.landscape_seed = seed;
        self.baked_harmonics = harmonics;
        Bake { seed, harmonics }
    }

    /// The frame's detail setting. The landscape is rebaked, on the same seed, exactly
    /// when the detail differs from the one it was baked at.
    pub fn update(&mut self, harmonics: u32) -> (r: Option<Bake>)
        ensures
            harmonics != old(self).baked_harmonics ==> r == Some(
                Bake { seed: old(self).landscape_seed, harmonics },
            ),
            harmonics == old(self).baked_harmonics ==> r is None,
            final(self).baked_harmonics == harmonics,
            final(self).landscape_seed == old(self).landscape_seed,
            final(self).particle_seed == old(self).particle_seed,
    {
        if harmonics != self.baked_harmonics {
            let seed = self.landscape_seed;
            Some(self.rebake(seed, harmonics))
        } else {
            None
        }
    }

    /// A key went down: `r` reseeds the particles from the next seed, `n` bakes the
    /// next landscape at the current detail.
    pub fn key_pressed(&mut self, key: &str, cur: Current) -> (r: Effect)
        ensures
            key@ == "r"@ ==> {
                &&& *final(self) == (EcpLife { particle_seed: bump(old(self).particle_seed), ..*old(self) })
                &&& r.reseed == Some(Reseed { scene: cur.scene, n: cur.n, seed: bump(old(self).particle_seed) })
                &&& r.bake is None && r.preset is None && !r.reset_camera
            },
            key@ == "n"@ ==> {
                &&& *final(self) == (EcpLife { landscape_seed: bump(old(self).landscape_seed), ..*old(self) })
                &&& r.bake == Some(Bake { seed: bump(old(self).landscape_seed), harmonics: old(self).baked_harmonics })
                &&& r.reseed is None && r.preset is None && !r.reset_camera
            },
            key@ != "r"@ && key@ != "n"@ ==> *final(self) == *old(self) && no_effect(r),
    {
        proof {
            reveal_strlit("r");
            reveal_strlit("n");
            assert("r"@[0] != "n"@[0]);
        }
        let mut e = Effect { preset: None, bake: None, reseed: None, reset_camera: false };
        if str_eq(key, "r") {
            self.particle_seed = self.particle_seed.wrapping_add(1);
            e.reseed = Some(Reseed { scene: cur.scene, n: cur.n, seed: self.particle_seed });
        } else if str_eq(key, "n") {
            let seed = self.landscape_seed.wrapping_add(1);
            let harmonics = self.baked_harmonics;
            e.bake = Some(self.rebake(seed, harmonics));
        }
        e
    }

    /// A declared command fired, with the option index it carries. A preset writes its
    /// values into `block`; nothing else touches it.
    pub fn command(&mut self, name: &str, index: u32, cur: Current, block: &mut ParamBlock) -> (r:
        Effect)
        requires
            old(block).wf(),
        ensures
            final(block).wf(),
            final(block).declared() == old(block).declared(),
            name@ == "preset"@ ==> {
                &&& r.preset matches Some(p) && {
                    &&& presets::is_preset(p, if index < 4 { index as int } else { 4 })
                    &&& presets::fits_schema(p)
                    &&& final(block)@ == presets::store_all(presets::store_all(old(block)@, p.floats@), p.ints@)
                    &&& r.bake == Some(Bake { seed: p.seed, harmonics: p.harmonics })
                    &&& r.reseed == Some(Reseed { scene: p.scene, n: cur.n, seed: old(self).particle_seed })
                    &&& *final(self) == (EcpLife { baked_harmonics: p.harmonics, landscape_seed: p.seed, ..*old(self) })
                }
                &&& !r.reset_camera
            },
            name@ != "preset"@ ==> final(block)@ == old(block)@ && r.preset is None,
            name@ == "scene"@ ==> {
                &&& *final(self) == *old(self)
                &&& r.reseed == Some(Reseed {
                    scene: Scene::ALL[if index < 3 { index as int } else { 3 }],
                    n: cur.n,
                    seed: old(self).particle_seed,
                })
                &&& r.bake is None && !r.reset_camera
            },
            name@ == "count"@ ==> {
                &&& *final(self) == *old(self)
                &&& r.reseed == Some(Reseed {
                    scene: cur.scene,
                    n: COUNTS[if index < 3 { index as int } else { 3 }],
                    seed: old(self).particle_seed,
                })
                &&& r.bake is None && !r.reset_camera
            },
            name@ == "randomize"@ ==> {
                &&& *final(self) == (EcpLife { landscape_seed: bump(old(self).landscape_seed), ..*old(self) })
                &&& r.bake == Some(Bake { seed: bump(old(self).landscape_seed), harmonics: old(self).baked_harmonics })
                &&& r.reseed is None && !r.reset_camera
            },
            name@ == "reseed"@ ==> {
                &&& *final(self) == (EcpLife { particle_seed: bump(old(self).particle_seed), ..*old(self) })
                &&& r.reseed == Some(Reseed { scene: cur.scene, n: cur.n, seed: bump(old(self).particle_seed) })
                &&& r.bake is None && !r.reset_camera
            },
            name@ == "reset"@ ==> {
                &&& *final(self) == *old(self)
                &&& r.reseed == Some(Reseed { scene: cur.scene, n: cur.n, seed: old(self).particle_seed })
                &&& r.bake is None && r.reset_camera
            },
            answers(name@) ==> !no_effect(r),
            !answers(name@) ==> *final(self) == *old(self) && no_effect(r),
    {
        proof {
            reveal_strlit("preset");
            reveal_strlit("scene");
            reveal_strlit("count");
            reveal_strlit("randomize");
            reveal_strlit("reseed");
            reveal_strlit("reset");
            assert("preset"@[0] == 'p' && "scene"@[0] == 's' && "count"@[0] == 'c');
            assert("randomize"@[1] == 'a' && "reseed"@[1] == 'e' && "reset"@[0] == 'r');
            assert("reseed"@[4] == 'e' && "reset"@[4] == 't' && "randomize"@[0] == 'r');
        }
        let mut e = Effect { preset: None, bake: None, reseed: None, reset_camera: false };
        if str_eq(name, "preset") {
            let preset = presets::from_index(index);
            preset.apply(block);
            e.preset = Some(preset);
            e.bake = Some(self.rebake(preset.seed, preset.harmonics));
            e.reseed = Some(Reseed { scene: preset.scene, n: cur.n, seed: self.particle_seed });
        } else if str_eq(name, "scene") {
            e.reseed = Some(Reseed { scene: Scene::from_index(index), n: cur.n, seed: self.particle_seed });
        } else if str_eq(name, "count") {
            e.reseed = Some(Reseed { scene: cur.scene, n: count_for(index), seed: self.particle_seed });
        } else if str_eq(name, "randomize") {
            let seed = self.landscape_seed.wrapping_add(1);
            let harmonics = self.baked_harmonics;
            e.bake = Some(self.rebake(seed, harmonics));
        } else if str_eq(name, "reseed") {
            self.particle_seed = self.particle_seed.wrapping_add(1);
            e.reseed = Some(Reseed { scene: cur.scene, n: cur.n, seed: self.particle_seed });
        } else if str_eq(name, "reset") {
            e.reseed = Some(Reseed { scene: cur.scene, n: cur.n, seed: self.particle_seed });
            e.reset_camera = true;
        }
        e
    }
}

} // verus!
