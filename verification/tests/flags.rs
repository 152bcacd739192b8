use cimgui_core::IgNavInputFlags;

#[test]
fn empty_has_no_bits() {
    assert_eq!(IgNavInputFlags::empty().bits(), 0);
}

#[test]
fn constants_have_exact_bits() {
    assert_eq!(IgNavInputFlags::nav_enable_keyboard().bits(), 1);
    assert_eq!(IgNavInputFlags::nav_enable_gamepad().bits(), 2);
    assert_eq!(IgNavInputFlags::nav_enable_set_mouse_pos().bits(), 4);
    assert_eq!(IgNavInputFlags::nav_no_capture_keyboard().bits(), 8);
    assert_eq!(IgNavInputFlags::nav_no_mouse().bits(), 16);
    assert_eq!(IgNavInputFlags::nav_no_mouse_cursor_change().bits(), 32);
    assert_eq!(IgNavInputFlags::nav_is_srgb().bits(), 1048576);
    assert_eq!(IgNavInputFlags::nav_is_touch_screen().bits(), 2097152);
}

#[test]
fn combine_is_bitwise_union() {
    let a = IgNavInputFlags::nav_enable_keyboard();
    let b = IgNavInputFlags::nav_enable_gamepad();
    assert_eq!(a.combine(b).bits(), 3);
    let c = IgNavInputFlags::nav_is_srgb();
    assert_eq!(a.combine(c).bits(), 1048577);
}

#[test]
fn combine_is_associative() {
    let a = IgNavInputFlags::nav_enable_keyboard();
    let b = IgNavInputFlags::nav_no_mouse();
    let c = IgNavInputFlags::nav_is_touch_screen();
    assert_eq!(a.combine(b).combine(c), a.combine(b.combine(c)));
}

#[test]
fn combine_is_idempotent() {
    let a = IgNavInputFlags::nav_no_capture_keyboard().combine(
        IgNavInputFlags::nav_enable_gamepad(),
    );
    assert_eq!(a.combine(a), a);
}

#[test]
fn undefined_bits_pass_through_verbatim() {
    let unknown = IgNavInputFlags::from_bits(64);
    assert_eq!(unknown.bits(), 64);
    let merged = unknown.combine(IgNavInputFlags::nav_enable_keyboard());
    assert_eq!(merged.bits(), 65);
}

#[test]
fn contains_checks_subset_of_bits() {
    let both = IgNavInputFlags::nav_enable_keyboard().combine(
        IgNavInputFlags::nav_enable_gamepad(),
    );
    assert!(both.contains(IgNavInputFlags::nav_enable_keyboard()));
    assert!(both.contains(IgNavInputFlags::nav_enable_gamepad()));
    assert!(both.contains(IgNavInputFlags::empty()));
    assert!(!both.contains(IgNavInputFlags::nav_no_mouse()));
}
