//! The particle-life app's initial conditions, by name.
//!
//! Which scene the `scene` command's options select is decided here; where each scene
//! puts its particles is floating-point work and stays with the host.
use vstd::prelude::*;

verus! {

/// A starting arrangement of particles.
#[derive(Clone, Copy, Debug, PartialEq, Eq, Structural)]
pub enum Scene {
    /// Every particle a random place and a random colour: the least assumed.
    Soup,
    /// Colour banded across x, so the landscape's structure shows up as bands
    /// interacting before anything has had to find its own partners.
    Bands,
    /// Blobs, each starting near one colour. Structure that already exists, to see
    /// whether the dynamics keep it or dissolve it.
    Clumps,
    /// Two opposed colours only. The chase between them is the strongest the landscape
    /// offers, so this is the scene that moves first.
    Opposed,
}

/// The scene at a position of the `scene` command's options.
pub open spec fn scene_at(i: int) -> Scene {
    if i <= 0 {
        Scene::Soup
    } else if i == 1 {
        Scene::Bands
    } else if i == 2 {
        Scene::Clumps
    } else {
        Scene::Opposed
    }
}

impl Scene {
    /// The order here is the order of the `scene` command's options.
    pub const ALL: [Scene; 4] = [Scene::Soup, Scene::Bands, Scene::Clumps, Scene::Opposed];

    pub const LABELS: [&'static str; 4] = ["Soup", "Bands", "Clumps", "Opposed"];

    /// The scene an option index selects; an index past the end selects the last.
    pub fn from_index(i: u32) -> (r: Scene)
        ensures
            r == scene_at(if i < 3 { i as int } else { 3 }),
            r == Scene::ALL[if i < 3 { i as int } else { 3 }],
    {
        if i == 0 {
            Scene::Soup
        } else if i == 1 {
            Scene::Bands
        } else if i == 2 {
            Scene::Clumps
        } else {
            Scene::Opposed
        }
    }
}

} // verus!
