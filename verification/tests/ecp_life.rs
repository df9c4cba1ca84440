use fathom::ecp_life::landscape::{corners, harmonic_orders, LUT_SIZE, MAX_HARMONICS};
use fathom::ecp_life::physics::Profile;
use fathom::ecp_life::presets::{self, Preset};
use fathom::ecp_life::scenes::Scene;
use fathom::ecp_life::sim;
use fathom::ecp_life::{
    commands, count_for, schema, substeps, Bake, Current, EcpLife, Reseed, CHASE_GAIN, COUNTS,
    COUNT_LABELS, DAMPING, HARMONICS, PARAM_COUNT, R_CUT, SUBSTEPS,
};
use fathom::params::{ParamBlock, ParamDef, ParamKind};

fn float_of(bits: i64) -> f32 {
    f32::from_bits(bits as u32)
}

/// A group whose every control is filed away shows as a heading with nothing under it
/// but a disclosure, which reads as a bug rather than as tidiness.
#[test]
fn every_group_keeps_something_visible() {
    let schema = schema();
    let mut groups: Vec<&str> = Vec::new();
    for p in &schema {
        if !groups.contains(&p.group) {
            groups.push(p.group);
        }
    }
    for group in groups {
        let shown = schema.iter().filter(|p| p.group == group && !p.advanced).count();
        assert!(shown > 0, "{group} has nothing to show until it is expanded");
    }
}

/// The point of the disclosure is that the panel opens short. If the tail ever stops
/// being most of the schema, the fold has stopped earning its complexity.
#[test]
fn most_of_the_schema_starts_folded_away_or_the_panel_is_long_again() {
    let schema = schema();
    let advanced = schema.iter().filter(|p| p.advanced).count();
    assert!(advanced >= 8, "only {advanced} controls are filed away");
    assert!(advanced < schema.len() / 2, "more is hidden than shown");
}

#[test]
fn every_particle_count_fills_whole_workgroups() {
    for n in COUNTS {
        assert_eq!(n % sim::WORKGROUP, 0, "{n} leaves a partly idle dispatch");
    }
    assert_eq!(COUNTS.len(), COUNT_LABELS.len());
}

/// A preset that sets a slider outside its own declared range leaves the panel showing a
/// value it cannot get back to once it has been nudged.
#[test]
fn every_preset_stays_inside_the_ranges_it_writes_to() {
    let schema = schema();
    for preset in presets::all() {
        for &(index, value) in preset.floats {
            let def = &schema[index];
            let value = f32::from_bits(value);
            assert!(
                value >= float_of(def.min) && value <= float_of(def.max),
                "{}: {} = {value} outside {}..{}",
                preset.name,
                def.name,
                float_of(def.min),
                float_of(def.max)
            );
        }
        for &(index, value) in preset.ints {
            let def = &schema[index];
            let value = value as i64;
            assert!(
                value >= def.min && value <= def.max,
                "{}: {} = {value} outside {}..{}",
                preset.name,
                def.name,
                def.min,
                def.max
            );
        }
    }
}

#[test]
fn presets_write_floats_to_float_controls_and_ints_to_the_rest() {
    let schema = schema();
    for preset in presets::all() {
        for &(index, _) in preset.floats {
            assert!(
                matches!(schema[index].kind, ParamKind::Float),
                "{}: {} is not a slider",
                preset.name,
                schema[index].name
            );
        }
        for &(index, _) in preset.ints {
            assert!(
                !matches!(schema[index].kind, ParamKind::Float),
                "{}: {} is a slider",
                preset.name,
                schema[index].name
            );
        }
    }
}

/// The detail the preset bakes its landscape at and the detail its panel shows have to
/// agree, or moving any other slider rebakes the terrain underneath the user.
#[test]
fn each_preset_declares_the_detail_its_panel_will_show() {
    for preset in presets::all() {
        let shown = preset.ints.iter().find(|(i, _)| *i == HARMONICS).map(|(_, v)| *v);
        assert_eq!(
            shown,
            Some(preset.harmonics),
            "{}: bakes at {} but shows {shown:?}",
            preset.name,
            preset.harmonics
        );
    }
}

#[test]
fn the_labels_match_the_presets_they_name() {
    let all = presets::all();
    assert_eq!(presets::LABELS.len(), all.len());
    for (preset, label) in all.iter().zip(presets::LABELS.iter()) {
        assert_eq!(&preset.name, label);
    }
}

/// The frozen preset's whole point is that the engine is off. If it ever acquires a
/// chase it stops being the thing you compare the others against.
#[test]
fn the_frozen_preset_has_no_chase() {
    let all = presets::all();
    let frozen = all.iter().find(|p| p.name == "Frozen landscape").expect("preset missing");
    let gain = frozen.floats.iter().find(|(i, _)| *i == CHASE_GAIN).map(|(_, v)| f32::from_bits(*v));
    assert_eq!(gain, Some(0.0));
}

#[test]
fn the_schema_declares_each_parameter_where_its_index_says() {
    let schema = schema();
    assert_eq!(schema.len(), PARAM_COUNT);
    assert_eq!(schema[R_CUT].name, "cutoff");
    assert_eq!(f32::from_bits(schema[R_CUT].default), 0.02);
    assert_eq!(schema[SUBSTEPS].kind, ParamKind::Int);
    assert_eq!((schema[SUBSTEPS].min, schema[SUBSTEPS].max), (1, 12));
    assert_eq!(schema[HARMONICS].max, MAX_HARMONICS as i64);
    assert_eq!(schema[HARMONICS].default_word(), 3);
}

#[test]
fn applying_a_preset_moves_only_the_sliders_it_names() {
    let schema = schema();
    let mut block = ParamBlock::from_defaults(&schema);
    let before = block.words().to_vec();
    let preset: Preset = presets::from_index(0);
    assert_eq!(preset.name, "Reference pair");
    preset.apply(&mut block);
    assert_eq!(f32::from_bits(block.u32(R_CUT)), 0.024);
    assert_eq!(block.u32(HARMONICS), 2);
    assert_eq!(block.u32(SUBSTEPS), 4);
    // Render and instrument settings are the viewer's.
    for i in 16..PARAM_COUNT {
        assert_eq!(block.u32(i), before[i], "parameter {i} moved");
    }
}

#[test]
fn a_preset_index_past_the_end_selects_the_last_preset() {
    assert_eq!(presets::from_index(4).name, "Frozen landscape");
    assert_eq!(presets::from_index(99).name, "Frozen landscape");
    assert_eq!(presets::from_index(1).name, "Bands");
}

#[test]
fn a_preset_command_bakes_its_landscape_and_keeps_the_detail_slider_in_step() {
    let schema = schema();
    let mut block = ParamBlock::from_defaults(&schema);
    let mut app = EcpLife::new(block.u32(HARMONICS));
    let cur = Current { scene: Scene::Soup, n: 16_384 };
    let e = app.command("preset", 2, cur, &mut block);
    let p = e.preset.expect("the preset applies");
    assert_eq!(p.name, "Cells");
    assert_eq!(e.bake, Some(Bake { seed: 12, harmonics: 4 }));
    assert_eq!(e.reseed, Some(Reseed { scene: Scene::Clumps, n: 16_384, seed: 1 }));
    assert!(!e.reset_camera);
    // The next frame reads the slider the preset moved, and finds nothing to rebake.
    assert_eq!(app.update(block.u32(HARMONICS)), None);
}

#[test]
fn the_detail_slider_rebakes_on_the_same_seed() {
    let mut app = EcpLife::new(3);
    assert_eq!(app.update(3), None);
    assert_eq!(app.update(5), Some(Bake { seed: 1, harmonics: 5 }));
    assert_eq!(app.baked_harmonics, 5);
    assert_eq!(app.update(5), None);
}

#[test]
fn commands_reseed_and_rebake_as_named() {
    let schema = schema();
    let mut block = ParamBlock::from_defaults(&schema);
    let before = block.words().to_vec();
    let mut app = EcpLife::new(3);
    let cur = Current { scene: Scene::Bands, n: 4_096 };

    let e = app.command("scene", 3, cur, &mut block);
    assert_eq!(e.reseed, Some(Reseed { scene: Scene::Opposed, n: 4_096, seed: 1 }));

    let e = app.command("count", 9, cur, &mut block);
    assert_eq!(e.reseed, Some(Reseed { scene: Scene::Bands, n: 131_072, seed: 1 }));

    let e = app.command("randomize", 0, cur, &mut block);
    assert_eq!(e.bake, Some(Bake { seed: 2, harmonics: 3 }));
    assert_eq!(e.reseed, None);

    let e = app.command("reseed", 0, cur, &mut block);
    assert_eq!(e.reseed, Some(Reseed { scene: Scene::Bands, n: 4_096, seed: 2 }));

    let e = app.command("reset", 0, cur, &mut block);
    assert_eq!(e.reseed, Some(Reseed { scene: Scene::Bands, n: 4_096, seed: 2 }));
    assert!(e.reset_camera);

    let e = app.command("teleport", 0, cur, &mut block);
    assert!(e.preset.is_none() && e.bake.is_none() && e.reseed.is_none() && !e.reset_camera);
    assert_eq!(block.words(), &before[..], "only a preset writes parameters");
}

#[test]
fn keys_reseed_particles_and_draw_new_landscapes() {
    let mut app = EcpLife::new(3);
    let cur = Current { scene: Scene::Soup, n: 4_096 };
    let e = app.key_pressed("r", cur);
    assert_eq!(e.reseed, Some(Reseed { scene: Scene::Soup, n: 4_096, seed: 2 }));
    let e = app.key_pressed("n", cur);
    assert_eq!(e.bake, Some(Bake { seed: 2, harmonics: 3 }));
    let e = app.key_pressed("x", cur);
    assert!(e.bake.is_none() && e.reseed.is_none());
    assert_eq!(app, EcpLife { baked_harmonics: 3, landscape_seed: 2, particle_seed: 2 });
}

#[test]
fn seeds_wrap_rather_than_overflow() {
    let mut app = EcpLife { baked_harmonics: 3, landscape_seed: u64::MAX, particle_seed: u64::MAX };
    let cur = Current { scene: Scene::Soup, n: 4_096 };
    assert_eq!(app.key_pressed("n", cur).bake, Some(Bake { seed: 0, harmonics: 3 }));
    assert_eq!(app.key_pressed("r", cur).reseed.map(|r| r.seed), Some(0));
}

#[test]
fn counts_clamp_to_the_offered_options() {
    assert_eq!(count_for(0), 4_096);
    assert_eq!(count_for(1), 16_384);
    assert_eq!(count_for(3), 131_072);
    assert_eq!(count_for(u32::MAX), 131_072);
}

#[test]
fn a_frame_always_has_at_least_one_substep() {
    assert_eq!(substeps(0), 1);
    assert_eq!(substeps(1), 1);
    assert_eq!(substeps(8), 8);
}

#[test]
fn the_panel_offers_six_commands_with_the_default_count_selected() {
    let c = commands();
    assert_eq!(c.len(), 6);
    assert_eq!(c[0].name, "preset");
    assert_eq!(c[0].options.len(), 5);
    assert_eq!(c[2].name, "count");
    assert_eq!(c[2].initial, 1);
    assert_eq!(c[5].group, "Simulation");
    assert!(c[5].options.is_empty());
}

#[test]
fn profiles_round_trip_through_the_select() {
    for p in [Profile::Classic, Profile::Well] {
        assert_eq!(Profile::from_index(p.index()), p);
    }
    assert_eq!(Profile::from_index(7), Profile::Well);
    assert_eq!(Profile::LABELS.len(), 2);
}

#[test]
fn scene_indices_past_the_end_select_the_last_scene() {
    for (i, scene) in Scene::ALL.iter().enumerate() {
        assert_eq!(Scene::from_index(i as u32), *scene);
    }
    assert_eq!(Scene::from_index(40), Scene::Opposed);
    assert_eq!(Scene::LABELS.len(), Scene::ALL.len());
}

#[test]
fn the_landscape_has_every_harmonic_pair_but_the_constant_term() {
    let orders = harmonic_orders(2);
    assert_eq!(orders, vec![(0, 1), (0, 2), (1, 0), (1, 1), (1, 2), (2, 0), (2, 1), (2, 2)]);
    // Smoothness is clamped to what the control allows.
    assert_eq!(harmonic_orders(0), harmonic_orders(1));
    assert_eq!(harmonic_orders(0).len(), 3);
    assert_eq!(harmonic_orders(99).len(), 48);
    assert_eq!(harmonic_orders(99), harmonic_orders(MAX_HARMONICS));
}

#[test]
fn shaders_are_assembled_one_part_per_line() {
    assert_eq!(sim::source(&["common", "lut", "force"]), "common\nlut\nforce");
    assert_eq!(sim::source(&["only"]), "only");
    assert_eq!(sim::source(&[]), "");
}

#[test]
fn dispatches_cover_every_particle() {
    assert_eq!(sim::dispatch_groups(0), 0);
    assert_eq!(sim::dispatch_groups(1), 1);
    assert_eq!(sim::dispatch_groups(256), 1);
    assert_eq!(sim::dispatch_groups(257), 2);
    assert_eq!(sim::dispatch_groups(u32::MAX), 16_777_216);
    assert_eq!(sim::GRID_WORDS, 3 * sim::MAX_CELLS as u64 + sim::SCAN_BLOCKS as u64);
}

#[test]
fn the_accumulation_buffer_is_rebuilt_only_when_the_viewport_changes() {
    assert!(sim::needs_accum(None, 800, 600));
    assert!(!sim::needs_accum(Some((800, 600)), 800, 600));
    assert!(sim::needs_accum(Some((800, 600)), 801, 600));
}

#[test]
fn a_whole_number_definition_is_declared_with_its_range() {
    let def = ParamDef::integer("substeps", "Substeps", 4, 1, 12);
    assert_eq!(def.kind, ParamKind::Int);
    assert_eq!((def.default, def.min, def.max, def.step), (4, 1, 12, 1));
    assert_eq!(def.group, "General");
}

#[test]
fn the_grid_stays_inside_its_allocation_and_never_below_four_cells() {
    assert_eq!(sim::grid_cells(0), 4);
    assert_eq!(sim::grid_cells(50), 50);
    assert_eq!(sim::grid_cells(166), 166);
    assert_eq!(sim::grid_cells(10_000), sim::MAX_CELLS_1D);
}

#[test]
fn a_lookup_blends_the_four_corners_of_its_cell_wrapping_round_the_torus() {
    assert_eq!(corners(0, 0), [0, 1, LUT_SIZE, LUT_SIZE + 1]);
    assert_eq!(corners(255, 255), [255 * 256 + 255, 255 * 256, 255, 0]);
    assert_eq!(corners(256 + 3, 2), corners(3, 2));
}

/// Twenty-two parameters, nine of them the tail filed behind a disclosure and thirteen
/// shown.
#[test]
fn nine_controls_are_the_tail_and_thirteen_are_shown() {
    let schema = schema();
    assert_eq!(schema.iter().filter(|p| p.advanced).count(), 9);
    assert_eq!(schema.iter().filter(|p| !p.advanced).count(), 13);
    assert!(schema[DAMPING].advanced);
    assert!(!schema[CHASE_GAIN].advanced);
}

#[test]
fn each_preset_carries_its_landscape_and_scene() {
    let expected = [
        (1, 2, Scene::Opposed),
        (6, 3, Scene::Bands),
        (12, 4, Scene::Clumps),
        (23, 5, Scene::Soup),
        (6, 3, Scene::Soup),
    ];
    for (i, (seed, harmonics, scene)) in expected.iter().enumerate() {
        let p = presets::from_index(i as u32);
        assert_eq!((p.seed, p.harmonics, p.scene), (*seed, *harmonics, *scene), "preset {i}");
    }
    let frozen = presets::from_index(4);
    assert_eq!(frozen.floats[4], (CHASE_GAIN, 0));
}

#[test]
fn every_declared_command_is_answered() {
    let schema = schema();
    for c in commands() {
        let mut block = ParamBlock::from_defaults(&schema);
        let mut app = EcpLife::new(3);
        let cur = Current { scene: Scene::Soup, n: 16_384 };
        let e = app.command(c.name, 0, cur, &mut block);
        assert!(e.preset.is_some() || e.bake.is_some() || e.reseed.is_some() || e.reset_camera, "{}", c.name);
    }
}
