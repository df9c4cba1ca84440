use fathom::app::{index_from, CommandDef};
use fathom::params::ParamDef;
use fathom::runner::{Dispatch, InputKind, Transport};
use fathom::shell::{
    button_mask, group_commands, group_controls, panel_groups, toggle_pause, CommandChoices, DragButton, DragTracker, Drawer,
    DrawerEvent,
    PointerPhase, PointerReport,
};

fn params() -> Vec<ParamDef> {
    vec![
        ParamDef::toggle("a", "A", true).group("Physics"),
        ParamDef::toggle("b", "B", true).group("Render"),
        ParamDef::toggle("c", "C", true).group("Physics").advanced(),
        ParamDef::toggle("d", "D", true).group("Physics"),
    ]
}

#[test]
fn groups_appear_once_in_declaration_order() {
    let commands = vec![
        CommandDef::button("reset", "Reset").group("Simulation"),
        CommandDef::button("again", "Again").group("Render"),
        CommandDef::button("go", "Go"),
    ];
    assert_eq!(panel_groups(&params(), &commands), vec!["Physics", "Render", "Simulation", "Actions"]);
    assert!(panel_groups(&[], &[]).is_empty());
}

#[test]
fn a_group_shows_its_plain_controls_and_files_the_rest() {
    let (plain, advanced) = group_controls(&params(), "Physics");
    assert_eq!(plain, vec![0, 3]);
    assert_eq!(advanced, vec![2]);
    let (plain, advanced) = group_controls(&params(), "Nowhere");
    assert!(plain.is_empty() && advanced.is_empty());
}

#[test]
fn a_select_shows_its_last_pick_or_where_it_started() {
    let mut choices = CommandChoices::new();
    assert_eq!(choices.choice_of("count", 1), 1);
    choices.remember_choice("count", 3);
    choices.remember_choice("scene", 2);
    assert_eq!(choices.choice_of("count", 1), 3);
    choices.remember_choice("count", 0);
    assert_eq!(choices.choice_of("count", 1), 0);
    assert_eq!(choices.choice_of("scene", 0), 2);
    assert_eq!(choices.choice_of("preset", 4), 4);
}

#[test]
fn buttons_are_reported_with_the_doms_masks() {
    assert_eq!(button_mask(0), 0b001);
    assert_eq!(button_mask(1), 0b100);
    assert_eq!(button_mask(2), 0b010);
    assert_eq!(button_mask(9), 0b001);
}

#[test]
fn the_pause_button_and_the_runner_stay_in_step() {
    let mut shown = false;
    let mut t = Transport::new();
    for _ in 0..4 {
        let (now, command) = toggle_pause(shown);
        shown = now;
        assert!(matches!(t.command(command), Dispatch::Done));
        assert_eq!(t.paused, shown);
    }
    assert_eq!(toggle_pause(false), (true, "fathom.pause"));
    assert_eq!(toggle_pause(true), (false, "fathom.resume"));
}

#[test]
fn commands_are_declared_as_buttons_or_selects() {
    let b = CommandDef::button("reset", "Reset");
    assert_eq!(b.group, "Actions");
    assert!(b.options.is_empty());
    let c = CommandDef::choice("count", "Bodies", &["1", "2"]).group("Simulation").initial(1);
    assert_eq!((c.group, c.initial, c.options.len()), ("Simulation", 1, 2));
}

#[test]
fn an_option_index_defaults_to_zero_and_keeps_its_low_bits() {
    assert_eq!(index_from(None), 0);
    assert_eq!(index_from(Some(3)), 3);
    assert_eq!(index_from(Some((1u64 << 32) + 5)), 5);
}

#[test]
fn a_drag_is_reported_with_the_button_that_began_it_until_it_ends() {
    let mut t = DragTracker::new();
    let report = |kind, button, buttons| Some(PointerReport { kind, button, buttons });
    assert_eq!(t.forward(PointerPhase::Hovered), report(InputKind::MouseMoved, 0, 0));
    assert_eq!(
        t.forward(PointerPhase::DragStarted(DragButton::Secondary)),
        report(InputKind::MousePressed, 2, 0b010)
    );
    assert!(t.dragging);
    assert_eq!(t.forward(PointerPhase::Dragged), report(InputKind::MouseDragged, 2, 0b010));
    assert_eq!(t.forward(PointerPhase::Away), None);
    assert_eq!(t.forward(PointerPhase::Dragged), report(InputKind::MouseDragged, 2, 0b010));
    assert_eq!(t.forward(PointerPhase::DragStopped), report(InputKind::MouseReleased, 2, 0));
    assert!(!t.dragging);

    assert_eq!(
        t.forward(PointerPhase::DragStarted(DragButton::Middle)),
        report(InputKind::MousePressed, 1, 0b100)
    );
    assert_eq!(
        t.forward(PointerPhase::DragStarted(DragButton::Primary)),
        report(InputKind::MousePressed, 0, 0b001)
    );
    assert_eq!(t.forward(PointerPhase::Dragged), report(InputKind::MouseDragged, 0, 0b001));
}

#[test]
fn a_group_lists_its_selects_before_its_row_of_buttons() {
    let commands = vec![
        CommandDef::button("reset", "Reset").group("Simulation"),
        CommandDef::choice("scene", "Scene", &["a", "b"]).group("Simulation"),
        CommandDef::button("go", "Go"),
        CommandDef::choice("count", "Count", &["1"]).group("Simulation"),
        CommandDef::button("reseed", "Reseed").group("Simulation"),
    ];
    assert_eq!(group_commands(&commands, "Simulation"), (vec![1, 3], vec![0, 4]));
    assert_eq!(group_commands(&commands, "Actions"), (vec![], vec![2]));
    assert_eq!(group_commands(&commands, "Render"), (vec![], vec![]));
}

#[test]
fn the_drawer_opens_from_its_button_and_shuts_on_a_wide_screen() {
    let mut d = Drawer::new();
    assert!(d.toggle_shown(true));
    assert!(!d.toggle_shown(false));
    d.event(DrawerEvent::ControlsPressed);
    assert!(d.open && !d.toggle_shown(true));
    d.fit_screen(true);
    assert!(d.open);
    for e in [DrawerEvent::ClosePressed, DrawerEvent::ScrimTapped, DrawerEvent::Escape] {
        d.event(DrawerEvent::ControlsPressed);
        d.event(e);
        assert!(!d.open);
    }
    d.event(DrawerEvent::ControlsPressed);
    d.fit_screen(false);
    assert!(!d.open);
}
