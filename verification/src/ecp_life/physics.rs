//! Which radial shape the pair interaction takes.
//!
//! The settings and the energy the profile enters are floating-point physics and stay
//! with the host; the choice itself, and its mapping to the `profile` select, is here.
use vstd::prelude::*;

verus! {

/// Which radial shape the pair interaction takes.
#[derive(Clone, Copy, Debug, PartialEq, Eq, Structural)]
pub enum Profile {
    /// `S(a,b)·V(r)` with `V` monotonic. Binds reliably and conserves exactly, but every
    /// pair wants the same separation and no relationship can be repulsive at range.
    Classic,
    /// A genuine minimum at a colour-dependent distance. Colour then says how far apart
    /// two particles want to be, and the landscape gains the repulsive regions the
    /// classic profile cannot express.
    Well,
}

/// The select's value for a profile.
pub open spec fn profile_index(p: Profile) -> u32 {
    match p {
        Profile::Classic => 0,
        Profile::Well => 1,
    }
}

impl Profile {
    pub const LABELS: [&'static str; 2] = ["Classic", "Well"];

    /// The profile a select value names: `0` is classic, anything else the well.
    pub fn from_index(i: u32) -> (r: Profile)
        ensures
            r == (if i == 0 { Profile::Classic } else { Profile::Well }),
    {
        if i == 0 {
            Profile::Classic
        } else {
            Profile::Well
        }
    }

    /// The select value that names this profile.
    pub fn index(self) -> (r: u32)
        ensures
            r == profile_index(self),
    {
        match self {
            Profile::Classic => 0,
            Profile::Well => 1,
        }
    }
}

/// A profile survives the round trip through its select value, and every select value
/// lands on a profile whose value is either itself or, past the last option, the last.
pub proof fn lemma_profile_round_trip(p: Profile, i: u32)
    ensures
        (if profile_index(p) == 0 { Profile::Classic } else { Profile::Well }) == p,
        profile_index(if i == 0 { Profile::Classic } else { Profile::Well }) == (if i < 1 {
            i
        } else {
            1
        }),
{
}

} // verus!
