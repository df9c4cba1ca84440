use fathom::gravity::scenes::{binary_split, galaxies_split, system_split, Scene};
use fathom::gravity::sim::{
    accumulate, dispatch_groups, needs_accum, source, Accumulate, Population, LAUNCH_SLOTS, WORKGROUP,
};
use fathom::gravity::{
    commands, count_for, schema, Current, DragUse, Gravity, Launch, Press, Reseed, COUNTS,
    COUNT_LABELS, LAUNCH_MASS, LEFT_LAUNCHES, OPENING_SCENE_INDEX, TRAILS,
};
use fathom::params::{ParamBlock, ParamKind, Params};

#[test]
fn every_body_count_fills_whole_workgroups() {
    for n in COUNTS {
        assert_eq!(n % WORKGROUP, 0, "{n} leaves a partly idle dispatch");
    }
    assert_eq!(COUNTS.len(), COUNT_LABELS.len());
    assert_eq!(count_for(99), 49_152);
    assert_eq!(count_for(0), 2_048);
}

#[test]
fn the_schema_starts_with_trails_on() {
    let schema = schema();
    assert_eq!(schema.len(), 11);
    assert_eq!(schema[TRAILS].kind, ParamKind::Toggle);
    let block = ParamBlock::from_defaults(&schema);
    let p = Params::new(&schema, &block);
    assert!(p.toggle(TRAILS));
    assert_eq!(f32::from_bits(p.integer(0)), 1.0);
    assert_eq!(schema[8].options, &["Speed", "Mass", "Flat"]);
    assert_eq!((schema[LAUNCH_MASS].name, schema[LAUNCH_MASS].label), ("launchMass", "Launch mass"));
    assert_eq!(f32::from_bits(p.integer(LAUNCH_MASS)), 0.02);
    assert!(!p.toggle(LEFT_LAUNCHES));
}

#[test]
fn the_scene_select_starts_on_the_binary_the_app_opens_on() {
    let commands = commands();
    assert_eq!(commands[0].name, "scene");
    assert_eq!(Scene::from_index(OPENING_SCENE_INDEX), Scene::Binary);
    assert_eq!(commands[0].initial, OPENING_SCENE_INDEX);
    let names: Vec<&str> = commands.iter().map(|c| c.name).collect();
    assert_eq!(names, vec!["scene", "count", "reset", "randomize"]);
}

#[test]
fn body_scene_indices_past_the_end_select_the_last_scene() {
    for (i, scene) in Scene::ALL.iter().enumerate() {
        assert_eq!(Scene::from_index(i as u32), *scene);
    }
    assert_eq!(Scene::from_index(6), Scene::Uniform);
    assert_eq!(Scene::LABELS.len(), Scene::ALL.len());
}

#[test]
fn commands_reseed_what_they_name() {
    let mut g = Gravity::new(true);
    let cur = Current { scene: Scene::Disc, n: 8_192, seed: 1 };
    assert_eq!(
        g.command("scene", 1, cur),
        Some(Reseed { scene: Scene::Binary, n: 8_192, seed: 1, reset_camera: false })
    );
    assert_eq!(
        g.command("count", 3, cur),
        Some(Reseed { scene: Scene::Disc, n: 49_152, seed: 1, reset_camera: false })
    );
    assert_eq!(
        g.command("reset", 0, cur),
        Some(Reseed { scene: Scene::Disc, n: 8_192, seed: 1, reset_camera: true })
    );
    assert_eq!(
        g.command("randomize", 0, cur),
        Some(Reseed { scene: Scene::Disc, n: 8_192, seed: 2, reset_camera: false })
    );
    assert_eq!(g.command("explode", 0, cur), None);
    assert_eq!(g.next_seed, 2);
    assert_eq!(commands().len(), 4);
}

#[test]
fn r_reseeds_from_the_next_seed() {
    let mut g = Gravity::new(false);
    let cur = Current { scene: Scene::Ring, n: 2_048, seed: 7 };
    assert_eq!(
        g.key_pressed("r", cur),
        Some(Reseed { scene: Scene::Ring, n: 2_048, seed: 2, reset_camera: false })
    );
    assert_eq!(g.key_pressed("q", cur), None);
    assert_eq!(g.next_seed, 2);
}

#[test]
fn trails_are_cleared_whenever_they_change() {
    let mut g = Gravity::new(true);
    assert!(!g.update_trails(true));
    assert!(g.update_trails(false));
    assert!(!g.update_trails(false));
    assert!(g.update_trails(true));
}

#[test]
fn a_plain_left_press_places_the_well_and_release_lets_go() {
    let mut g = Gravity::new(true);
    assert_eq!(g.mouse_pressed(0, true, false), Press::Nothing, "shift-drag is the pan gesture");
    assert_eq!(g.mouse_dragged(), DragUse::Nothing);
    assert_eq!(g.mouse_pressed(1, false, false), Press::Nothing);
    assert_eq!(g.mouse_pressed(0, false, false), Press::Well);
    assert_eq!(g.mouse_dragged(), DragUse::Well);
    assert_eq!(g.mouse_released(), None);
    assert_eq!(g.mouse_dragged(), DragUse::Nothing);
}

#[test]
fn a_right_drag_launches_one_body_of_the_launch_mass() {
    let mut g = Gravity::new(true);
    assert_eq!(g.mouse_pressed(2, false, false), Press::Launch);
    assert_eq!(g.mouse_dragged(), DragUse::LaunchLine);
    assert_eq!(g.mouse_dragged(), DragUse::LaunchLine);
    assert_eq!(g.mouse_released(), Some(Launch { mass: LAUNCH_MASS }));
    assert_eq!(g.mouse_released(), None);
    assert!(!g.well_on && !g.launching);
    // With left-drag launching switched on, a plain left drag launches too.
    assert_eq!(g.mouse_pressed(0, false, true), Press::Launch);
    assert_eq!(g.mouse_released(), Some(Launch { mass: LAUNCH_MASS }));
    // Shift-left stays the pan gesture either way.
    assert_eq!(g.mouse_pressed(0, true, true), Press::Nothing);
}

#[test]
fn launched_bodies_cycle_through_the_spare_slots() {
    let mut pop = Population::reseed(2_048);
    assert_eq!((pop.n(), pop.base()), (2_048, 2_048));
    let first = pop.launch();
    assert_eq!(first, 2_048);
    assert_eq!(pop.n(), 2_049);
    for _ in 1..LAUNCH_SLOTS {
        pop.launch();
    }
    assert_eq!(pop.n(), 2_048 + LAUNCH_SLOTS);
    // The slots are full: the oldest launched body is the one replaced.
    assert_eq!(pop.launch(), first);
    assert_eq!(pop.n(), 2_048 + LAUNCH_SLOTS);
}

#[test]
fn the_common_declarations_come_first() {
    assert_eq!(source("struct U {}", "fn main() {}"), "struct U {}\nfn main() {}");
}

#[test]
fn trails_are_kept_only_on_a_buffer_that_survived() {
    assert_eq!(accumulate(true, false), Accumulate::FadeAndLoad);
    assert_eq!(accumulate(true, true), Accumulate::Clear);
    assert_eq!(accumulate(false, false), Accumulate::Clear);
    assert!(needs_accum(None, 1, 1));
    assert!(!needs_accum(Some((3, 4)), 3, 4));
    assert_eq!(dispatch_groups(8_192), 32);
    assert_eq!(dispatch_groups(8_193), 33);
}

#[test]
fn every_scene_split_accounts_for_every_body() {
    for n in [2usize, 3, 41, 1024, 2048, 8_192] {
        let (moons, dust) = system_split(n);
        assert_eq!(2 + moons + dust, n);
        let (each, ring) = binary_split(n);
        assert_eq!(2 + 2 * each + ring, n);
        let (left, right) = galaxies_split(n);
        assert_eq!(left + right, n);
    }
    assert_eq!(system_split(2048), (51, 1995));
    assert_eq!(system_split(3), (1, 0));
    assert_eq!(binary_split(2048), (818, 410));
    assert_eq!(galaxies_split(2049), (1024, 1025));
}
