use fathom::params::{ParamBlock, ParamDef, ParamKind, Params};

fn schema() -> Vec<ParamDef> {
    vec![
        ParamDef::float("g", "Gravity", 1.5f32.to_bits(), 0.0f32.to_bits(), 5.0f32.to_bits()),
        ParamDef::toggle("trails", "Trails", true),
        ParamDef::choice("mode", "Mode", 2, &["a", "b", "c"]),
    ]
}

fn float(p: &Params<'_>, index: usize) -> f32 {
    f32::from_bits(p.integer(index))
}

#[test]
fn defaults_round_trip_through_the_block() {
    let schema = schema();
    let block = ParamBlock::from_defaults(&schema);
    let p = Params::new(&schema, &block);
    assert_eq!(float(&p, 0), 1.5);
    assert!(p.toggle(1));
    assert_eq!(p.integer(2), 2);
}

#[test]
fn a_control_is_shown_with_the_rest_unless_it_says_otherwise() {
    let plain = ParamDef::float("a", "A", 0.0f32.to_bits(), 0.0f32.to_bits(), 1.0f32.to_bits());
    assert!(!plain.advanced, "controls should default to being shown");
    assert!(plain.group("Physics").advanced().advanced);
    // Every kind can be filed away, not only sliders.
    assert!(ParamDef::integer("b", "B", 1, 0, 4).advanced().advanced);
    assert!(ParamDef::toggle("c", "C", true).advanced().advanced);
    assert!(ParamDef::choice("d", "D", 0, &["x", "y"]).advanced().advanced);
}

#[test]
fn block_is_padded_to_a_uniform_friendly_size() {
    let block = ParamBlock::from_defaults(&schema());
    assert_eq!(block.len(), 3);
    assert_eq!(block.byte_len() % 16, 0);
    assert_eq!(block.byte_len(), 16);
}

#[test]
fn writes_from_the_ui_mirror_land_at_the_right_offsets() {
    let schema = schema();
    let mut block = ParamBlock::from_defaults(&schema);
    let mut bytes = block.as_bytes().to_vec();
    bytes[0..4].copy_from_slice(&2.25f32.to_bits().to_le_bytes());
    bytes[4..8].copy_from_slice(&0u32.to_le_bytes());
    block.write_bytes(&bytes);

    let p = Params::new(&schema, &block);
    assert_eq!(float(&p, 0), 2.25);
    assert!(!p.toggle(1));
    assert_eq!(p.integer(2), 2, "untouched parameters keep their value");
}

#[test]
fn a_short_write_leaves_the_remaining_parameters_alone() {
    let schema = schema();
    let mut block = ParamBlock::from_defaults(&schema);
    block.write_bytes(&0.5f32.to_bits().to_le_bytes());
    let p = Params::new(&schema, &block);
    assert_eq!(float(&p, 0), 0.5);
    assert!(p.toggle(1));
}

#[test]
fn values_can_be_edited_in_place_by_an_in_process_interface() {
    let schema = schema();
    let mut block = ParamBlock::from_defaults(&schema);
    block.set_u32(0, 3.25f32.to_bits());
    block.set_u32(1, 0);
    assert_eq!(f32::from_bits(block.u32(0)), 3.25);
    assert_eq!(block.u32(1), 0);

    let p = Params::new(&schema, &block);
    assert_eq!(float(&p, 0), 3.25);
    assert!(!p.toggle(1));
}

#[test]
fn writing_past_the_end_of_the_block_is_ignored() {
    let mut block = ParamBlock::from_defaults(&schema());
    let before = block.words().to_vec();
    block.set_u32(99, 1.0f32.to_bits());
    assert_eq!(f32::from_bits(block.u32(99)), 0.0);
    assert_eq!(block.words(), &before[..]);
}

#[test]
fn empty_schemas_still_produce_an_uploadable_block() {
    let block = ParamBlock::from_defaults(&[]);
    assert!(block.is_empty());
    assert_eq!(block.byte_len(), 16);
}

#[test]
fn the_padding_is_zero_and_follows_the_declared_defaults() {
    let block = ParamBlock::from_defaults(&schema());
    assert_eq!(block.words(), &[1.5f32.to_bits(), 1, 2, 0][..]);
    let five: Vec<ParamDef> = (0..5).map(|_| ParamDef::toggle("t", "T", true)).collect();
    let block = ParamBlock::from_defaults(&five);
    assert_eq!(block.words(), &[1, 1, 1, 1, 1, 0, 0, 0][..]);
    assert_eq!(block.byte_len(), 32);
}

#[test]
fn a_mirror_written_back_changes_nothing() {
    let mut block = ParamBlock::from_defaults(&schema());
    let before = block.words().to_vec();
    let mirror: Vec<u8> = before.iter().flat_map(|w| w.to_le_bytes()).collect();
    block.write_bytes(&mirror);
    assert_eq!(block.words(), &before[..]);
}

#[test]
fn a_long_mirror_is_clamped_to_the_block() {
    let mut block = ParamBlock::from_defaults(&schema());
    let mirror: Vec<u8> = (0u8..40).collect();
    block.write_bytes(&mirror);
    assert_eq!(block.words().len(), 4);
    assert_eq!(block.u32(0), u32::from_le_bytes([0, 1, 2, 3]));
    assert_eq!(block.u32(3), u32::from_le_bytes([12, 13, 14, 15]));
    // A trailing partial word is not a word.
    let mut block = ParamBlock::from_defaults(&schema());
    block.write_bytes(&[9, 9, 9, 9, 7, 7]);
    assert_eq!(block.u32(0), 0x0909_0909);
    assert_eq!(block.u32(1), 1);
}

#[test]
fn the_uniform_bytes_are_the_words_in_machine_order() {
    let block = ParamBlock::from_defaults(&schema());
    let bytes = block.as_bytes();
    assert_eq!(bytes.len(), block.byte_len());
    let expected: Vec<u8> = block.words().iter().flat_map(|w| w.to_ne_bytes()).collect();
    assert_eq!(bytes, &expected[..]);
}

#[test]
fn a_choice_spans_its_options_and_an_empty_choice_spans_nothing() {
    let c = ParamDef::choice("d", "D", 0, &["x", "y", "z"]);
    assert_eq!(c.kind, ParamKind::Choice);
    assert_eq!((c.min, c.max, c.step), (0, 2, 1));
    let empty = ParamDef::choice("e", "E", 0, &[]);
    assert_eq!(empty.max, -1);
}

#[test]
fn a_definition_can_be_regrouped_and_restepped() {
    let d = ParamDef::float("a", "A", 0, 0, 1.0f32.to_bits()).group("Render").step(0.5f32.to_bits());
    assert_eq!(d.group, "Render");
    assert_eq!(f32::from_bits(d.step), 0.5);
    assert_eq!(d.name, "a");
    assert_eq!(ParamDef::toggle("t", "T", false).default_word(), 0);
}

#[test]
fn params_read_zero_past_the_end() {
    let schema = schema();
    let block = ParamBlock::from_defaults(&schema);
    let p = Params::new(&schema, &block);
    assert_eq!(p.integer(4), 0);
    assert!(!p.toggle(17));
    assert_eq!(p.schema().len(), 3);
}
