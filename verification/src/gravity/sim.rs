//! The bookkeeping behind the gravity app's GPU resources: how many bodies are live,
//! where a launched body goes, how many workgroups a pass dispatches, and when the
//! trail buffer is kept.
use vstd::prelude::*;

use crate::text::join;

verus! {

/// The workgroup size the compute shaders declare. Body counts are kept a multiple of
/// it so no dispatch has a partly idle final group.
pub const WORKGROUP: u32 = 256;

/// Room kept past the scene's bodies for ones launched by hand. Once it is full, the
/// oldest launched body is replaced rather than the newest refused.
pub const LAUNCH_SLOTS: u32 = 64;

/// Shader source: the shared uniform declaration, then the module's own body.
pub fn source(common: &str, body: &str) -> (r: String)
    ensures
        r@ == common@ + "\n"@ + body@,
{
    let parts = [common, body];
    let r = join(&parts, "\n");
    proof {
        let v = crate::text::views(parts@);
        assert(v.drop_last() =~= seq![common@]);
        assert(crate::text::joined(v.drop_last(), "\n"@) == common@);
    }
    r
}

/// Workgroups needed to cover `n` bodies.
pub fn dispatch_groups(n: u32) -> (r: u32)
    ensures
        r == (n + WORKGROUP - 1) / (WORKGROUP as int),
{
    n / WORKGROUP + if n % WORKGROUP != 0 { 1u32 } else { 0u32 }
}

/// Which bodies are live: the scene's, plus any launched since.
#[derive(Clone, Copy, Debug)]
pub struct Population {
    n: u32,
    base: u32,
    launched: u32,
}

impl Population {
    /// Live bodies: the scene's, plus any launched since.
    pub closed spec fn live(&self) -> u32 {
        self.n
    }

    /// How many bodies the scene started with; launched ones sit after these.
    pub closed spec fn scene_bodies(&self) -> u32 {
        self.base
    }

    /// Live bodies: the scene's, plus any launched since.
    pub fn n(&self) -> (r: u32)
        ensures
            r == self.live(),
    {
        self.n
    }

    /// How many bodies the scene started with.
    pub fn base(&self) -> (r: u32)
        ensures
            r == self.scene_bodies(),
    {
        self.base
    }

    /// How many bodies have been launched since the scene was set up.
    pub closed spec fn launched(&self) -> u32 {
        self.launched
    }

    /// The shape a population keeps: the live count covers the scene and never runs past
    /// the launch slots, and the slots stay addressable.
    pub closed spec fn wf(&self) -> bool {
        &&& self.base <= self.n
        &&& self.n <= self.base + LAUNCH_SLOTS
        &&& self.base + LAUNCH_SLOTS <= u32::MAX
        &&& self.n < self.base + LAUNCH_SLOTS ==> self.n == self.base + self.launched
    }

    /// A fresh scene of `n` bodies, with nothing launched.
    pub fn reseed(n: u32) -> (r: Self)
        requires
            n + LAUNCH_SLOTS <= u32::MAX,
        ensures
            r.wf(),
            r.live() == n,
            r.scene_bodies() == n,
            r.launched() == 0,
    {
        Population { n, base: n, launched: 0 }
    }

    /// Claim the slot for the next launched body and return it.
    pub fn launch(&mut self) -> (slot: u32)
        requires
            old(self).wf(),
        ensures
            final(self).wf(),
            final(self).scene_bodies() <= final(self).live() <= final(self).scene_bodies() + LAUNCH_SLOTS,
            old(self).scene_bodies() <= slot < old(self).scene_bodies() + LAUNCH_SLOTS,
            slot < final(self).live(),
            slot == slot_for(old(self).scene_bodies(), old(self).launched() as int),
            final(self).scene_bodies() == old(self).scene_bodies(),
            final(self).launched() == vstd::wrapping::u32_specs::wrapping_add(
                old(self).launched(),
                1,
            ),
            final(self).live() == (if old(self).live() > slot { old(self).live() } else { (slot + 1) as u32 }),
            old(self).live() < old(self).scene_bodies() + LAUNCH_SLOTS ==> slot == old(self).live()
                && final(self).live() == old(self).live() + 1,
            old(self).live() == old(self).scene_bodies() + LAUNCH_SLOTS ==> final(self).live()
                == old(self).live(),
    {
        proof {
            lemma_launch_slots_cycle(self.base, self.launched as int);
            lemma_launches_take_successive_slots(self.base, self.launched as int);
        }
        let slot = self.base + self.launched % LAUNCH_SLOTS;
        self.launched = self.launched.wrapping_add(1);
        if slot + 1 > self.n {
            self.n = slot + 1;
        }
        slot
    }
}

/// The slot the next launch takes, given how many came before it.
pub open spec fn slot_for(base: u32, launched: int) -> int {
    base + launched % (LAUNCH_SLOTS as int)
}

/// A launched body always lands in one of the slots kept past the scene, and the slot
/// sequence repeats every [`LAUNCH_SLOTS`] launches, so the body replaced is always the
/// oldest launched one. The repeat survives the launch counter wrapping, since 2³² is a
/// multiple of the slot count.
pub proof fn lemma_launch_slots_cycle(base: u32, launched: int)
    requires
        launched >= 0,
    ensures
        base <= slot_for(base, launched) < base + LAUNCH_SLOTS,
        slot_for(base, launched + LAUNCH_SLOTS) == slot_for(base, launched),
        slot_for(base, launched + 0x1_0000_0000) == slot_for(base, launched),
{
    assert((launched + 64) % 64 == launched % 64) by (nonlinear_arith)
        requires
            launched >= 0,
    ;
    assert((launched + 0x1_0000_0000) % 64 == launched % 64) by (nonlinear_arith)
        requires
            launched >= 0,
    ;
}

/// Launches after a reseed fill the spare slots in order: the k-th launch (counting
/// from 0) takes slot `base + k mod LAUNCH_SLOTS`, so the first LAUNCH_SLOTS launches
/// take the slots just past the scene one after another, each a different slot, and
/// the next launch goes back to the first.
pub proof fn lemma_launches_take_successive_slots(base: u32, k: int)
    requires
        k >= 0,
    ensures
        slot_for(base, k) == base + k % 64,
        k < LAUNCH_SLOTS ==> slot_for(base, k) == base + k,
        k + 1 < LAUNCH_SLOTS ==> slot_for(base, k + 1) == slot_for(base, k) + 1,
        k == LAUNCH_SLOTS - 1 ==> slot_for(base, k + 1) == base,
        forall|j: int| 0 <= j < k < LAUNCH_SLOTS ==> slot_for(base, j) != slot_for(base, k),
{
}

/// How the accumulation pass treats what the trail buffer already holds.
#[derive(Clone, Copy, Debug, PartialEq, Eq, Structural)]
pub enum Accumulate {
    /// Keep it and fade it: trails.
    FadeAndLoad,
    /// Start from black.
    Clear,
}

/// Trails are kept only when they are on and the buffer was not just created: a freshly
/// created target has undefined contents, so the first frame after a resize clears.
pub fn accumulate(trails: bool, recreated: bool) -> (r: Accumulate)
    ensures
        (r == Accumulate::FadeAndLoad) == (trails && !recreated),
{
    if trails && !recreated {
        Accumulate::FadeAndLoad
    } else {
        Accumulate::Clear
    }
}

/// Whether the trail buffer has to be (re)built for a viewport: when there is none, or
/// it is a different size.
pub fn needs_accum(current: Option<(u32, u32)>, width: u32, height: u32) -> (r: bool)
    ensures
        r == (match current {
            Some((w, h)) => w != width || h != height,
            None => true,
        }),
{
    match current {
        Some((w, h)) => w != width || h != height,
        None => true,
    }
}

} // verus!
