use fathom::event::{KeyEvent, Modifiers};
use fathom::native::child::ChildSurface;
use fathom::native::surface::OverlaySurface;
use fathom::native::{frame_ready, needs_configure, sized, surface_size, Boot, InitReply, Message};
use fathom::rng::Lcg;
use fathom::text::join;

#[test]
fn surfaces_are_unavailable_on_this_platform_and_say_so() {
    let err = ChildSurface::create(0).unwrap_err();
    assert!(err.contains("Windows only"), "{err}");
    let err = OverlaySurface::create(42).unwrap_err();
    assert!(err.contains("Windows only"), "{err}");
    assert_eq!(fathom::native::surface::create(1).unwrap_err(), err);
}

#[test]
fn the_loop_idles_until_the_surface_has_a_size() {
    assert!(!sized(1, 1));
    assert!(!sized(1280, 1));
    assert!(sized(2, 2));
    assert!(needs_configure((1, 1), 800, 600));
    assert!(!needs_configure((800, 600), 800, 600));
    assert_eq!(surface_size(0, 0), (1, 1));
    assert_eq!(surface_size(640, 0), (640, 1));
}

#[test]
fn the_boot_report_is_what_the_interface_is_told() {
    let boot = Boot { descriptor: "{}".into(), param_byte_length: 96, adapter_info: "gpu".into() };
    let reply = InitReply::from_boot(boot.clone());
    assert_eq!((reply.descriptor, reply.param_byte_length, reply.adapter_info), ("{}".to_string(), 96, "gpu".to_string()));
    let m = Message::Command { name: "reset".into(), args: "{}".into() };
    assert!(matches!(m, Message::Command { .. }));
    assert!(matches!(Message::Params(vec![1]), Message::Params(_)));
    assert!(matches!(Message::Input(String::new()), Message::Input(_)));
}

#[test]
fn the_generator_is_reproducible_and_draws_24_bits() {
    let mut a = Lcg::new(7);
    let mut b = Lcg::new(7);
    let draws: Vec<u32> = (0..3).map(|_| a.next_bits()).collect();
    assert_eq!(draws, vec![5_044_238, 5_272_819, 5_297_952]);
    for d in draws {
        assert_eq!(d, b.next_bits());
    }
    let mut c = Lcg::new(8);
    assert_ne!(c.next_bits(), Lcg::new(7).next_bits());
}

#[test]
fn parts_are_joined_with_the_separator_between_neighbours() {
    assert_eq!(join(&[], ", "), "");
    assert_eq!(join(&["a"], ", "), "a");
    assert_eq!(join(&["a", "b", "c"], ", "), "a, b, c");
}

#[test]
fn key_events_carry_their_modifiers() {
    let k = KeyEvent { key: "r".into(), shift: true, ..Default::default() };
    assert_eq!(k.key, "r");
    assert!(k.shift && !k.ctrl);
    assert_eq!(Modifiers::default(), Modifiers { shift: false, ctrl: false, alt: false });
}

#[test]
fn the_loop_draws_only_into_a_visible_sized_window() {
    assert!(frame_ready(true, 800, 600));
    assert!(!frame_ready(false, 800, 600));
    assert!(!frame_ready(true, 1, 600));
}
