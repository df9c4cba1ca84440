//! Places worth starting from.
//!
//! A preset is not just a set of slider values. Which landscape you are standing on
//! matters at least as much as how hard you push on it, so a preset carries its
//! landscape seed and its detail level too, and applying one rebakes the surface.
//!
//! They are compiled in rather than stored: a preset that stops making sense because the
//! parameter it referred to changed meaning fails verification rather than producing a
//! puzzling simulation. [`all`] proves each one writes floats only to float controls,
//! whole numbers only to the rest and inside their ranges, and shows the detail it bakes.
use vstd::prelude::*;

use super::scenes::Scene;
use super::{
    kind_at, whole_range, AMP_CHASE, AMP_SYM, CHASE_GAIN, CORE_FRAC, DAMPING, HARMONICS, K_REP,
    LAM, PARAM_COUNT, PROFILE, RSTAR_MIN, RSTAR_SPAN, R_CUT, S0, SUBSTEPS, TIMESCALE, WELL_SIGMA,
};
use crate::params::{stored, ParamBlock, ParamKind};

verus! {

#[derive(Clone, Copy, Debug)]
pub struct Preset {
    pub name: &'static str,
    /// Which landscape. Two draws come off this seed — the interaction surface and the
    /// preferred-separation surface — so one number fixes the whole terrain.
    pub seed: u64,
    pub harmonics: u32,
    pub scene: Scene,
    /// Float parameters it sets, each value as the bit pattern the block stores.
    pub floats: &'static [(usize, u32)],
    /// Whole-number parameters it sets.
    pub ints: &'static [(usize, u32)],
}

/// A preset agrees with the schema it writes to: every float entry names a float
/// control, every whole-number entry names another kind and stays inside its range, and
/// its one detail entry shows the detail the preset bakes its landscape at.
pub open spec fn fits_schema(p: Preset) -> bool {
    &&& forall|j: int|
        0 <= j < p.floats@.len() ==> {
            let (i, _) = #[trigger] p.floats@[j];
            i < PARAM_COUNT && kind_at(i as int) == ParamKind::Float
        }
    &&& forall|j: int|
        0 <= j < p.ints@.len() ==> {
            let (i, v) = #[trigger] p.ints@[j];
            &&& i < PARAM_COUNT
            &&& kind_at(i as int) != ParamKind::Float
            &&& whole_range(i as int).0 <= v <= whole_range(i as int).1
        }
    &&& exists|j: int|
        0 <= j < p.ints@.len() && #[trigger] p.ints@[j] == (HARMONICS, p.harmonics) && forall|
            j2: int,
        |
            0 <= j2 < p.ints@.len() && j2 != j ==> (#[trigger] p.ints@[j2]).0 != HARMONICS
}

/// Reference pair: the slider values it moves, as bit patterns (decimal noted).
pub const REFERENCE_PAIR_FLOATS: [(usize, u32); 10] = [
    (R_CUT, 0x3cc4_9ba6), // 0.024
    (CORE_FRAC, 0x3e99_999a), // 0.3
    (K_REP, 0x3fc0_0000), // 1.5
    (LAM, 0x3f19_999a), // 0.6
    (CHASE_GAIN, 0x3f80_0000), // 1.0
    (DAMPING, 0x43c8_0000), // 400.0
    (TIMESCALE, 0x3e19_999a), // 0.15
    (S0, 0x3f99_999a), // 1.2
    (AMP_SYM, 0x3f00_0000), // 0.5
    (AMP_CHASE, 0x3eb3_3333), // 0.35
];

pub const REFERENCE_PAIR_INTS: [(usize, u32); 3] = [(PROFILE, 0), (HARMONICS, 2), (SUBSTEPS, 4)];

/// Bands: the slider values it moves, as bit patterns (decimal noted).
pub const BANDS_FLOATS: [(usize, u32); 13] = [
    (R_CUT, 0x3cd4_fdf4), // 0.026
    (CORE_FRAC, 0x3e80_0000), // 0.25
    (K_REP, 0x4000_0000), // 2.0
    (LAM, 0x3f00_0000), // 0.5
    (CHASE_GAIN, 0x3f80_0000), // 1.0
    (DAMPING, 0x442f_0000), // 700.0
    (TIMESCALE, 0x3e4c_cccd), // 0.2
    (S0, 0x3f4c_cccd), // 0.8
    (AMP_SYM, 0x3f66_6666), // 0.9
    (AMP_CHASE, 0x3f19_999a), // 0.6
    (WELL_SIGMA, 0x3e38_51ec), // 0.18
    (RSTAR_MIN, 0x3e99_999a), // 0.3
    (RSTAR_SPAN, 0x3f0c_cccd), // 0.55
];

pub const BANDS_INTS: [(usize, u32); 3] = [(PROFILE, 1), (HARMONICS, 3), (SUBSTEPS, 4)];

/// Cells: the slider values it moves, as bit patterns (decimal noted).
pub const CELLS_FLOATS: [(usize, u32); 13] = [
    (R_CUT, 0x3ca3_d70a), // 0.02
    (CORE_FRAC, 0x3eb3_3333), // 0.35
    (K_REP, 0x4020_0000), // 2.5
    (LAM, 0x3fe6_6666), // 1.8
    (CHASE_GAIN, 0x3f99_999a), // 1.2
    (DAMPING, 0x4461_0000), // 900.0
    (TIMESCALE, 0x3e38_51ec), // 0.18
    (S0, 0x3f33_3333), // 0.7
    (AMP_SYM, 0x3f8c_cccd), // 1.1
    (AMP_CHASE, 0x3f4c_cccd), // 0.8
    (WELL_SIGMA, 0x3dcc_cccd), // 0.1
    (RSTAR_MIN, 0x3e61_47ae), // 0.22
    (RSTAR_SPAN, 0x3e99_999a), // 0.3
];

pub const CELLS_INTS: [(usize, u32); 3] = [(PROFILE, 1), (HARMONICS, 4), (SUBSTEPS, 6)];

/// Filaments: the slider values it moves, as bit patterns (decimal noted).
pub const FILAMENTS_FLOATS: [(usize, u32); 13] = [
    (R_CUT, 0x3cf5_c28f), // 0.03
    (CORE_FRAC, 0x3e4c_cccd), // 0.2
    (K_REP, 0x3f99_999a), // 1.2
    (LAM, 0x3eb3_3333), // 0.35
    (CHASE_GAIN, 0x3fb3_3333), // 1.4
    (DAMPING, 0x437a_0000), // 250.0
    (TIMESCALE, 0x3df5_c28f), // 0.12
    (S0, 0x3f0c_cccd), // 0.55
    (AMP_SYM, 0x3f99_999a), // 1.2
    (AMP_CHASE, 0x3f80_0000), // 1.0
    (WELL_SIGMA, 0x3e61_47ae), // 0.22
    (RSTAR_MIN, 0x3eb3_3333), // 0.35
    (RSTAR_SPAN, 0x3f0c_cccd), // 0.55
];

pub const FILAMENTS_INTS: [(usize, u32); 3] = [(PROFILE, 1), (HARMONICS, 5), (SUBSTEPS, 8)];

/// Frozen landscape: the slider values it moves, as bit patterns (decimal noted).
pub const FROZEN_FLOATS: [(usize, u32); 13] = [
    (R_CUT, 0x3cd4_fdf4), // 0.026
    (CORE_FRAC, 0x3e80_0000), // 0.25
    (K_REP, 0x4000_0000), // 2.0
    (LAM, 0x3f00_0000), // 0.5
    (CHASE_GAIN, 0x0000_0000), // 0.0
    (DAMPING, 0x4448_0000), // 800.0
    (TIMESCALE, 0x3e80_0000), // 0.25
    (S0, 0x3f4c_cccd), // 0.8
    (AMP_SYM, 0x3f80_0000), // 1.0
    (AMP_CHASE, 0x3f33_3333), // 0.7
    (WELL_SIGMA, 0x3e38_51ec), // 0.18
    (RSTAR_MIN, 0x3e99_999a), // 0.3
    (RSTAR_SPAN, 0x3f0c_cccd), // 0.55
];

pub const FROZEN_INTS: [(usize, u32); 3] = [(PROFILE, 1), (HARMONICS, 3), (SUBSTEPS, 4)];

/// The words after each entry, in order, is stored at its index.
pub open spec fn store_all(words: Seq<u32>, entries: Seq<(usize, u32)>) -> Seq<u32>
    decreases entries.len(),
{
    if entries.len() == 0 {
        words
    } else {
        stored(store_all(words, entries.drop_last()), entries.last().0 as int, entries.last().1)
    }
}

/// Storing a list of entries never changes how many words there are, and leaves every
/// word that no entry names as it was: a preset moves only the sliders it mentions.
pub proof fn lemma_unmentioned_words_stay(words: Seq<u32>, entries: Seq<(usize, u32)>, i: int)
    requires
        0 <= i < words.len(),
    ensures
        store_all(words, entries).len() == words.len(),
        (forall|j: int| 0 <= j < entries.len() ==> (#[trigger] entries[j]).0 != i) ==> store_all(
            words,
            entries,
        )[i] == words[i],
    decreases entries.len(),
{
    if entries.len() > 0 {
        lemma_unmentioned_words_stay(words, entries.drop_last(), i);
        if forall|j: int| 0 <= j < entries.len() ==> (#[trigger] entries[j]).0 != i {
            assert forall|j: int| 0 <= j < entries.drop_last().len() implies (
            #[trigger] entries.drop_last()[j]).0 != i by {
                assert(entries.drop_last()[j] == entries[j]);
            }
            assert(entries.last() == entries[entries.len() - 1]);
        }
    }
}

/// An entry that no later entry overrides is the value its index ends up holding.
pub proof fn lemma_last_entry_wins(words: Seq<u32>, entries: Seq<(usize, u32)>, j: int)
    requires
        0 <= j < entries.len(),
        entries[j].0 < words.len(),
        forall|j2: int| j < j2 < entries.len() ==> (#[trigger] entries[j2]).0 != entries[j].0,
    ensures
        store_all(words, entries)[entries[j].0 as int] == entries[j].1,
    decreases entries.len(),
{
    lemma_unmentioned_words_stay(words, entries.drop_last(), entries[j].0 as int);
    if j < entries.len() - 1 {
        assert(entries.drop_last()[j] == entries[j]);
        assert forall|j2: int| j < j2 < entries.drop_last().len() implies (
        #[trigger] entries.drop_last()[j2]).0 != entries[j].0 by {
            assert(entries.drop_last()[j2] == entries[j2]);
        }
        lemma_last_entry_wins(words, entries.drop_last(), j);
        assert(entries.last() == entries[entries.len() - 1]);
    }
}

/// Applying a preset leaves the detail slider reading the detail the preset bakes its
/// landscape at. Since a command that applies a preset also bakes at that detail, the
/// next frame's update finds nothing to rebake: moving to a preset never has the terrain
/// rebaked underneath it a frame later.
pub proof fn lemma_preset_shows_its_detail(words: Seq<u32>, p: Preset)
    requires
        fits_schema(p),
        HARMONICS < words.len(),
    ensures
        crate::params::word_at(store_all(store_all(words, p.floats@), p.ints@), HARMONICS as int)
            == p.harmonics,
{
    let middle = store_all(words, p.floats@);
    lemma_unmentioned_words_stay(words, p.floats@, HARMONICS as int);
    let j = choose|j: int|
        0 <= j < p.ints@.len() && #[trigger] p.ints@[j] == (HARMONICS, p.harmonics) && forall|
            j2: int,
        |
            0 <= j2 < p.ints@.len() && j2 != j ==> (#[trigger] p.ints@[j2]).0 != HARMONICS;
    lemma_last_entry_wins(middle, p.ints@, j);
    lemma_unmentioned_words_stay(middle, p.ints@, HARMONICS as int);
}

impl Preset {
    /// Move the panel to this preset: its floats, then its whole numbers, each written
    /// at its index. Parameters not mentioned are left alone: render and instrument
    /// settings are the viewer's, not the preset's.
    pub fn apply(&self, block: &mut ParamBlock)
        requires
            old(block).wf(),
        ensures
            final(block).wf(),
            final(block).declared() == old(block).declared(),
            final(block)@ == store_all(store_all(old(block)@, self.floats@), self.ints@),
    {
        let ghost start = block@;
        let mut j: usize = 0;
        while j < self.floats.len()
            invariant
                block.wf(),
                block.declared() == old(block).declared(),
                0 <= j <= self.floats@.len(),
                block@ == store_all(start, self.floats@.take(j as int)),
            decreases self.floats@.len() - j,
        {
            let (index, value) = self.floats[j];
            block.set_u32(index, value);
            assert(self.floats@.take(j + 1).drop_last() =~= self.floats@.take(j as int));
            j = j + 1;
        }
        assert(self.floats@.take(self.floats@.len() as int) =~= self.floats@);
        let ghost middle = block@;
        let mut k: usize = 0;
        while k < self.ints.len()
            invariant
                block.wf(),
                block.declared() == old(block).declared(),
                0 <= k <= self.ints@.len(),
                block@ == store_all(middle, self.ints@.take(k as int)),
            decreases self.ints@.len() - k,
        {
            let (index, value) = self.ints[k];
            block.set_u32(index, value);
            assert(self.ints@.take(k + 1).drop_last() =~= self.ints@.take(k as int));
            k = k + 1;
        }
        assert(self.ints@.take(self.ints@.len() as int) =~= self.ints@);
    }
}

/// The presets' names, in the order of the `preset` command's options.
pub const LABELS: [&'static str; 5] = [
    "Reference pair",
    "Bands",
    "Cells",
    "Filaments",
    "Frozen landscape",
];

/// `p` is the preset at position `k` of the `preset` command's options, field by field:
/// its name, the landscape it bakes (seed and detail), the scene it starts, and the
/// values it writes.
pub open spec fn is_preset(p: Preset, k: int) -> bool {
    &&& 0 <= k < 5
    &&& p.name == LABELS[k]
    &&& if k == 0 {
        &&& p.seed == 1 && p.harmonics == 2 && p.scene == Scene::Opposed
        &&& p.floats@ =~= REFERENCE_PAIR_FLOATS@ && p.ints@ =~= REFERENCE_PAIR_INTS@
    } else if k == 1 {
        &&& p.seed == 6 && p.harmonics == 3 && p.scene == Scene::Bands
        &&& p.floats@ =~= BANDS_FLOATS@ && p.ints@ =~= BANDS_INTS@
    } else if k == 2 {
        &&& p.seed == 12 && p.harmonics == 4 && p.scene == Scene::Clumps
        &&& p.floats@ =~= CELLS_FLOATS@ && p.ints@ =~= CELLS_INTS@
    } else if k == 3 {
        &&& p.seed == 23 && p.harmonics == 5 && p.scene == Scene::Soup
        &&& p.floats@ =~= FILAMENTS_FLOATS@ && p.ints@ =~= FILAMENTS_INTS@
    } else {
        &&& p.seed == 6 && p.harmonics == 3 && p.scene == Scene::Soup
        &&& p.floats@ =~= FROZEN_FLOATS@ && p.ints@ =~= FROZEN_INTS@
    }
}

/// The frozen landscape switches the chase off: it writes a chase gain of zero, and no
/// later entry of its writes the chase gain again.
pub proof fn lemma_frozen_has_no_chase(p: Preset)
    requires
        is_preset(p, 4),
    ensures
        exists|j: int|
            0 <= j < p.floats@.len() && #[trigger] p.floats@[j] == (CHASE_GAIN, 0u32) && forall|
                j2: int,
            |
                j < j2 < p.floats@.len() ==> (#[trigger] p.floats@[j2]).0 != CHASE_GAIN,
        forall|j: int| 0 <= j < p.ints@.len() ==> (#[trigger] p.ints@[j]).0 != CHASE_GAIN,
{
    assert(p.floats@[4] == (CHASE_GAIN, 0u32));
}

/// Every preset, in the order of the `preset` command's options.
pub fn all() -> (r: Vec<Preset>)
    ensures
        r@.len() == 5,
        forall|k: int| 0 <= k < 5 ==> fits_schema(#[trigger] r@[k]),
        forall|k: int| 0 <= k < 5 ==> is_preset(#[trigger] r@[k], k),
{
    let mut r: Vec<Preset> = Vec::new();
    // A monotonic profile, a modest chase and heavy baseline attraction: the
    // well-trodden shape. It binds reliably and conserves cleanly, which makes
    // it the one to come back to when something else has gone strange.
    r.push(Preset {
        name: LABELS[0],
        seed: 1,
        harmonics: 2,
        scene: Scene::Opposed,
        floats: &REFERENCE_PAIR_FLOATS,
        ints: &REFERENCE_PAIR_INTS,
    });
    // The well profile doing what the classic one cannot: particles sort themselves into
    // shells at their own preferred radii and the whole thing bands.
    r.push(Preset {
        name: LABELS[1],
        seed: 6,
        harmonics: 3,
        scene: Scene::Bands,
        floats: &BANDS_FLOATS,
        ints: &BANDS_INTS,
    });
    // A narrow well and a large colour store: colour becomes the slow variable, so groups
    // hold their composition long enough to have an identity while still burning.
    r.push(Preset {
        name: LABELS[2],
        seed: 12,
        harmonics: 4,
        scene: Scene::Clumps,
        floats: &CELLS_FLOATS,
        ints: &CELLS_INTS,
    });
    // Light damping and a wide, finely divided landscape: the result strings out rather
    // than balling up.
    r.push(Preset {
        name: LABELS[3],
        seed: 23,
        harmonics: 5,
        scene: Scene::Soup,
        floats: &FILAMENTS_FLOATS,
        ints: &FILAMENTS_INTS,
    });
    // The chase switched off entirely: an ordinary conservative pair potential with
    // frozen colours, worth a look before deciding what the chase added.
    r.push(Preset {
        name: LABELS[4],
        seed: 6,
        harmonics: 3,
        scene: Scene::Soup,
        floats: &FROZEN_FLOATS,
        ints: &FROZEN_INTS,
    });
    r
}

/// The preset an option index selects; an index past the end selects the last.
pub fn from_index(i: u32) -> (r: Preset)
    ensures
        fits_schema(r),
        is_preset(r, if i < 4 { i as int } else { 4 }),
{
    let presets = all();
    let k: usize = if i < 4 { i as usize } else { 4 };
    presets[k]
}

} // verus!
