//! Input normalization: buttons, masks, modifiers, wheel deltas.

use glazier::input::{
    axis_delta, event_to_mods, get_mouse_button, get_mouse_buttons, scroll_delta,
    wayland_button_to_glazier, ModMap, Modifiers, MouseButton, PointerButton,
};

#[test]
fn button_numbers_map_to_identities() {
    assert_eq!(get_mouse_button(0), Some(PointerButton::Primary));
    assert_eq!(get_mouse_button(1), Some(PointerButton::Secondary));
    assert_eq!(get_mouse_button(2), Some(PointerButton::Auxiliary));
    assert_eq!(get_mouse_button(3), Some(PointerButton::X1));
    assert_eq!(get_mouse_button(4), Some(PointerButton::X2));
    assert_eq!(get_mouse_button(7), None);
    assert_eq!(get_mouse_button(-1), None);
}

#[test]
fn pressed_mask_decodes_bit_by_bit() {
    let buttons = get_mouse_buttons(0b10101);
    assert!(buttons.primary && buttons.auxiliary && buttons.x2);
    assert!(!buttons.secondary && !buttons.x1);
    assert!(get_mouse_buttons(0).is_empty());
}

#[test]
fn kernel_button_codes_map_to_mouse_buttons() {
    assert_eq!(wayland_button_to_glazier(0x110), MouseButton::Left);
    assert_eq!(wayland_button_to_glazier(0x111), MouseButton::Right);
    assert_eq!(wayland_button_to_glazier(0x112), MouseButton::Middle);
    assert_eq!(wayland_button_to_glazier(0x113), MouseButton::NoButton);
}

#[test]
fn imprecise_scroll_deltas_are_scaled_per_notch() {
    // One notch down: raw dy = -1 in the native convention, flipped and
    // scaled to 32 units.
    let d = scroll_delta(0, -1, false);
    assert_eq!((d.x, d.y), (0, 32));
    // Precise deltas pass through with only the sign flip.
    let d = scroll_delta(-7, 12, true);
    assert_eq!((d.x, d.y), (7, -12));
}

#[test]
fn axis_events_prefer_discrete_notches() {
    let d = axis_delta(0, 3, 10, 240);
    assert_eq!((d.x, d.y), (0, -3), "discrete notches win over continuous deltas");
    let d = axis_delta(0, 0, 10, -240);
    assert_eq!((d.x, d.y), (-10, 240));
}

#[test]
fn modifier_masks_merge_depressed_and_locked_bits() {
    // Depressed shift (1) and control (4); locked caps (2) and num (16).
    let mods = event_to_mods(1 | 4, 2 | 16);
    assert_eq!(
        mods.bits,
        Modifiers::SHIFT | Modifiers::CONTROL | Modifiers::CAPS_LOCK | Modifiers::NUM_LOCK
    );
    assert!(mods.contains(Modifiers::SHIFT));
    assert!(!mods.contains(Modifiers::ALT));
    assert_eq!(event_to_mods(0, 0).bits, 0);
    // The super bit (64) maps to the meta modifier.
    assert_eq!(event_to_mods(64, 0).bits, Modifiers::META);
}

#[test]
fn merge_folds_one_native_bit() {
    let base = Modifiers::empty();
    let m = ModMap(8, Modifiers::just(Modifiers::ALT));
    assert_eq!(m.merge(base, 8, 0).bits, Modifiers::ALT, "depressed bit adds the modifier");
    assert_eq!(m.merge(base, 0, 8).bits, Modifiers::ALT, "locked bit adds it too");
    assert_eq!(m.merge(base, 0, 0).bits, 0, "absent bit leaves the set alone");
}
