//! The gravity app's initial conditions, by name.
//!
//! Which scene the `scene` command's options select is decided here; the bodies each
//! scene places are the host's, since they are floating-point physics.
use vstd::prelude::*;

verus! {

#[derive(Clone, Copy, Debug, PartialEq, Eq, Structural)]
pub enum Scene {
    System,
    Binary,
    Disc,
    TwoGalaxies,
    Ring,
    Uniform,
}

/// The scene at a position of the `scene` command's options.
pub open spec fn scene_at(i: int) -> Scene {
    if i <= 0 {
        Scene::System
    } else if i == 1 {
        Scene::Binary
    } else if i == 2 {
        Scene::Disc
    } else if i == 3 {
        Scene::TwoGalaxies
    } else if i == 4 {
        Scene::Ring
    } else {
        Scene::Uniform
    }
}

impl Scene {
    /// The order here is the order of the `scene` command's options.
    pub const ALL: [Scene; 6] = [
        Scene::System,
        Scene::Binary,
        Scene::Disc,
        Scene::TwoGalaxies,
        Scene::Ring,
        Scene::Uniform,
    ];

    pub const LABELS: [&'static str; 6] = [
        "Sun and planet",
        "Binary",
        "Disc",
        "Two galaxies",
        "Ring",
        "Uniform",
    ];

    /// The scene an option index selects; an index past the end selects the last.
    pub fn from_index(i: u32) -> (r: Scene)
        ensures
            r == scene_at(if i < 5 { i as int } else { 5 }),
            r == Scene::ALL[if i < 5 { i as int } else { 5 }],
    {
        if i == 0 {
            Scene::System
        } else if i == 1 {
            Scene::Binary
        } else if i == 2 {
            Scene::Disc
        } else if i == 3 {
            Scene::TwoGalaxies
        } else if i == 4 {
            Scene::Ring
        } else {
            Scene::Uniform
        }
    }
}

/// How the sun-and-planet scene shares out its bodies after the sun and the planet: a
/// fortieth to moons around the planet (at least one, if there is room for any), and the
/// rest to dust around the sun.
pub fn system_split(n: usize) -> (r: (usize, usize))
    ensures
        n >= 2 ==> 2 + r.0 + r.1 == n,
        n < 2 ==> r == (0usize, 0usize),
        n >= 3 ==> r.0 >= 1,
        ({
            let rest = if n >= 2 { n - 2 } else { 0 };
            let share = if rest / 40 >= 1 { rest / 40 } else { 1 };
            r.0 == (if share <= rest { share } else { rest })
        }),
{
    let rest = if n >= 2 { n - 2 } else { 0 };
    let moons = if rest / 40 >= 1 { rest / 40 } else { 1 };
    let moons = if moons <= rest { moons } else { rest };
    (moons, rest - moons)
}

/// How the binary scene shares out its bodies after the two stars: a fifth of the light
/// bodies ring the pair from outside, the rest are split evenly between the stars'
/// swarms, and whatever an odd split leaves over joins the ring.
pub fn binary_split(n: usize) -> (r: (usize, usize))
    ensures
        n >= 2 ==> 2 + 2 * r.0 + r.1 == n,
        n >= 2 ==> r.1 >= (n - 2) / 5,
        n < 2 ==> r == (0usize, 0usize),
        ({
            let swarm = if n >= 2 { n - 2 } else { 0 };
            r.0 == (swarm - swarm / 5) / 2
        }),
{
    let swarm = if n >= 2 { n - 2 } else { 0 };
    let ring = swarm / 5;
    let each = (swarm - ring) / 2;
    (each, swarm - 2 * each)
}

/// How the two-galaxies scene shares out its bodies: half to the left disc, the rest to
/// the right.
pub fn galaxies_split(n: usize) -> (r: (usize, usize))
    ensures
        r.0 + r.1 == n,
        r.0 == n / 2,
{
    (n / 2, n - n / 2)
}

} // verus!
