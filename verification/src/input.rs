//! Input normalization: native pointer, button, modifier and scroll data
//! mapped into one backend-independent event model.
//!
//! Coordinates are window-local, origin top-left, y-down; the y-flip for
//! bottom-left-origin platforms lives in [`crate::geometry`]. Wheel deltas
//! are accumulated units, sign-corrected so that positive y scrolls down;
//! when a platform only reports discrete "notch" deltas they are scaled by
//! a fixed number of units per notch.

use vstd::prelude::*;

verus! {

/// How many wheel units one discrete scroll notch stands for, on platforms
/// that do not report precise deltas.
pub const UNITS_PER_NOTCH: i64 = 32;

/// A set of keyboard modifiers, as a bitset over [`Modifiers::SHIFT`] and
/// friends. The bit assignments are this crate's own; native modifier masks
/// are translated in by [`event_to_mods`] and [`ModMap::merge`].
#[derive(Clone, Copy, Debug, PartialEq, Eq, Structural)]
pub struct Modifiers {
    pub bits: u32,
}

impl Modifiers {
    pub const SHIFT: u32 = 0x1;
    pub const CONTROL: u32 = 0x2;
    pub const ALT: u32 = 0x4;
    pub const META: u32 = 0x8;
    pub const CAPS_LOCK: u32 = 0x10;
    pub const NUM_LOCK: u32 = 0x20;

    /// The set containing the given modifier and no other.
    pub open spec fn spec_just(bit: u32) -> Modifiers {
        Modifiers { bits: bit }
    }

    pub open spec fn spec_union(self, other: Modifiers) -> Modifiers {
        Modifiers { bits: self.bits | other.bits }
    }

    pub fn empty() -> (m: Modifiers)
        ensures
            m.bits == 0,
    {
        Modifiers { bits: 0 }
    }

    pub fn just(bit: u32) -> (m: Modifiers)
        ensures
            m == Modifiers::spec_just(bit),
    {
        Modifiers { bits: bit }
    }

    pub fn union(self, other: Modifiers) -> (m: Modifiers)
        ensures
            m == self.spec_union(other),
    {
        Modifiers { bits: self.bits | other.bits }
    }

    /// Whether every modifier of `bit` is in the set.
    pub fn contains(self, bit: u32) -> (b: bool)
        ensures
            b == (self.bits & bit == bit),
    {
        self.bits & bit == bit
    }
}

/// Ties one bit of a native modifier mask to the normalized modifier it
/// stands for.
#[derive(Clone, Copy, Debug, PartialEq, Eq, Structural)]
pub struct ModMap(pub u32, pub Modifiers);

impl ModMap {
    /// Fold one native modifier bit into `m`: if the native bit is set in
    /// either the depressed mask `mods` or the locked mask `locked`, add the
    /// normalized modifier; otherwise leave `m` unchanged.
    pub fn merge(self, m: Modifiers, mods: u32, locked: u32) -> (r: Modifiers)
        ensures
            r == (if self.0 & mods == 0 && self.0 & locked == 0 {
                m
            } else {
                m.spec_union(self.1)
            }),
    {
        if self.0 & mods == 0 && self.0 & locked == 0 {
            return m;
        }

        m.union(self.1)
    }
}

/// The normalized modifier set that a native modifiers event carries:
/// each bit of the depressed or locked masks, in the encoding the keymap
/// protocol uses (shift, caps lock, control, alt, num lock, super), mapped
/// to its normalized modifier.
pub open spec fn spec_mods_from_masks(depressed: u32, locked: u32) -> Modifiers {
    let m = Modifiers { bits: 0 };
    let m = if 1u32 & depressed == 0 && 1u32 & locked == 0 {
        m
    } else {
        m.spec_union(Modifiers::spec_just(Modifiers::SHIFT))
    };
    let m = if 2u32 & depressed == 0 && 2u32 & locked == 0 {
        m
    } else {
        m.spec_union(Modifiers::spec_just(Modifiers::CAPS_LOCK))
    };
    let m = if 4u32 & depressed == 0 && 4u32 & locked == 0 {
        m
    } else {
        m.spec_union(Modifiers::spec_just(Modifiers::CONTROL))
    };
    let m = if 8u32 & depressed == 0 && 8u32 & locked == 0 {
        m
    } else {
        m.spec_union(Modifiers::spec_just(Modifiers::ALT))
    };
    let m = if 16u32 & depressed == 0 && 16u32 & locked == 0 {
        m
    } else {
        m.spec_union(Modifiers::spec_just(Modifiers::NUM_LOCK))
    };
    if 64u32 & depressed == 0 && 64u32 & locked == 0 {
        m
    } else {
        m.spec_union(Modifiers::spec_just(Modifiers::META))
    }
}

/// Translate the depressed and locked masks of a native modifiers event
/// into the normalized modifier set.
pub fn event_to_mods(mods_depressed: u32, mods_locked: u32) -> (m: Modifiers)
    ensures
        m == spec_mods_from_masks(mods_depressed, mods_locked),
{
    let mods = Modifiers::empty();
    let mods = ModMap(1, Modifiers::just(Modifiers::SHIFT)).merge(
        mods,
        mods_depressed,
        mods_locked,
    );
    let mods = ModMap(2, Modifiers::just(Modifiers::CAPS_LOCK)).merge(
        mods,
        mods_depressed,
        mods_locked,
    );
    let mods = ModMap(4, Modifiers::just(Modifiers::CONTROL)).merge(
        mods,
        mods_depressed,
        mods_locked,
    );
    let mods = ModMap(8, Modifiers::just(Modifiers::ALT)).merge(mods, mods_depressed, mods_locked);
    let mods = ModMap(16, Modifiers::just(Modifiers::NUM_LOCK)).merge(
        mods,
        mods_depressed,
        mods_locked,
    );
    ModMap(64, Modifiers::just(Modifiers::META)).merge(mods, mods_depressed, mods_locked)
}

/// Pointer button identity in the normalized event model.
#[derive(Clone, Copy, Debug, PartialEq, Eq, Structural)]
pub enum PointerButton {
    /// No button; motion and wheel events carry this.
    NoButton,
    /// Left button, pen tip.
    Primary,
    /// Right button.
    Secondary,
    /// Middle button / wheel press.
    Auxiliary,
    /// First extra button ("back").
    X1,
    /// Second extra button ("forward").
    X2,
}

/// The set of buttons held down, one flag per button.
#[derive(Clone, Copy, Debug, PartialEq, Eq, Structural)]
pub struct PointerButtons {
    pub primary: bool,
    pub secondary: bool,
    pub auxiliary: bool,
    pub x1: bool,
    pub x2: bool,
}

impl PointerButtons {
    pub open spec fn spec_is_empty(self) -> bool {
        !self.primary && !self.secondary && !self.auxiliary && !self.x1 && !self.x2
    }

    pub fn new() -> (b: PointerButtons)
        ensures
            b.spec_is_empty(),
    {
        PointerButtons { primary: false, secondary: false, auxiliary: false, x1: false, x2: false }
    }

    pub fn is_empty(&self) -> (b: bool)
        ensures
            b == self.spec_is_empty(),
    {
        !self.primary && !self.secondary && !self.auxiliary && !self.x1 && !self.x2
    }

    /// Add one button to the set; [`PointerButton::NoButton`] adds nothing.
    pub fn insert(&mut self, button: PointerButton)
        ensures
            final(self).primary == (old(self).primary || button is Primary),
            final(self).secondary == (old(self).secondary || button is Secondary),
            final(self).auxiliary == (old(self).auxiliary || button is Auxiliary),
            final(self).x1 == (old(self).x1 || button is X1),
            final(self).x2 == (old(self).x2 || button is X2),
    {
        match button {
            PointerButton::NoButton => {},
            PointerButton::Primary => {
                self.primary = true;
            },
            PointerButton::Secondary => {
                self.secondary = true;
            },
            PointerButton::Auxiliary => {
                self.auxiliary = true;
            },
            PointerButton::X1 => {
                self.x1 = true;
            },
            PointerButton::X2 => {
                self.x2 = true;
            },
        }
    }
}

/// The button a native button-number event names: 0 is primary, 1 is
/// secondary, 2 is auxiliary, 3 and 4 the extra buttons; anything else is
/// unknown and yields `None`.
pub fn get_mouse_button(button: i64) -> (r: Option<PointerButton>)
    ensures
        r == (match button {
            0i64 => Some(PointerButton::Primary),
            1i64 => Some(PointerButton::Secondary),
            2i64 => Some(PointerButton::Auxiliary),
            3i64 => Some(PointerButton::X1),
            4i64 => Some(PointerButton::X2),
            _ => None::<PointerButton>,
        }),
{
    match button {
        0 => Some(PointerButton::Primary),
        1 => Some(PointerButton::Secondary),
        2 => Some(PointerButton::Auxiliary),
        3 => Some(PointerButton::X1),
        4 => Some(PointerButton::X2),
        _ => None,
    }
}

/// Decode a native pressed-buttons mask, one bit per button counted from
/// the primary button upward.
pub fn get_mouse_buttons(mask: u64) -> (buttons: PointerButtons)
    ensures
        buttons.primary == (mask & 1 != 0),
        buttons.secondary == (mask & 2 != 0),
        buttons.auxiliary == (mask & 4 != 0),
        buttons.x1 == (mask & 8 != 0),
        buttons.x2 == (mask & 16 != 0),
{
    let mut buttons = PointerButtons::new();
    if mask & 1 != 0 {
        buttons.insert(PointerButton::Primary);
    }
    if mask & 2 != 0 {
        buttons.insert(PointerButton::Secondary);
    }
    if mask & 4 != 0 {
        buttons.insert(PointerButton::Auxiliary);
    }
    if mask & 8 != 0 {
        buttons.insert(PointerButton::X1);
    }
    if mask & 16 != 0 {
        buttons.insert(PointerButton::X2);
    }
    buttons
}

/// Mouse button identity as a compositor button-code event names it.
#[derive(Clone, Copy, Debug, PartialEq, Eq, Structural)]
pub enum MouseButton {
    NoButton,
    Left,
    Middle,
    Right,
}

/// Left mouse button code in the kernel's input-event encoding.
pub const BTN_LEFT: u32 = 0x110;

/// Right mouse button code in the kernel's input-event encoding.
pub const BTN_RIGHT: u32 = 0x111;

/// Middle mouse button code in the kernel's input-event encoding.
pub const BTN_MIDDLE: u32 = 0x112;

/// Translate a kernel input-event button code into the normalized button.
/// Codes this layer does not handle map to [`MouseButton::NoButton`].
pub fn wayland_button_to_glazier(button: u32) -> (r: MouseButton)
    ensures
        r == (match button {
            0x110u32 => MouseButton::Left,
            0x111u32 => MouseButton::Right,
            0x112u32 => MouseButton::Middle,
            _ => MouseButton::NoButton,
        }),
{
    match button {
        BTN_LEFT => MouseButton::Left,
        BTN_RIGHT => MouseButton::Right,
        BTN_MIDDLE => MouseButton::Middle,
        _ => MouseButton::NoButton,
    }
}

/// An accumulated wheel delta, in normalized units, sign-corrected so that
/// positive x scrolls right and positive y scrolls down.
#[derive(Clone, Copy, Debug, PartialEq, Eq, Structural)]
pub struct WheelDelta {
    pub x: i64,
    pub y: i64,
}

/// Normalize a platform scroll event that reports raw deltas with the
/// opposite sign convention: flip the sign, and when the deltas are not
/// precise (line-based rather than pixel-based) scale them by
/// [`UNITS_PER_NOTCH`].
pub fn scroll_delta(raw_dx: i64, raw_dy: i64, precise: bool) -> (d: WheelDelta)
    requires
        -0x1000_0000_0000 <= raw_dx <= 0x1000_0000_0000,
        -0x1000_0000_0000 <= raw_dy <= 0x1000_0000_0000,
    ensures
        precise ==> d.x == -raw_dx && d.y == -raw_dy,
        !precise ==> d.x == -raw_dx * UNITS_PER_NOTCH && d.y == -raw_dy * UNITS_PER_NOTCH,
{
    if precise {
        WheelDelta { x: -raw_dx, y: -raw_dy }
    } else {
        WheelDelta { x: -raw_dx * UNITS_PER_NOTCH, y: -raw_dy * UNITS_PER_NOTCH }
    }
}

/// Normalize a compositor axis event. Discrete notch counts are preferred
/// when either axis reports one; otherwise the continuous deltas are taken
/// as they are. Either way the sign is flipped into the normalized
/// convention.
pub fn axis_delta(h_discrete: i32, v_discrete: i32, h_absolute: i64, v_absolute: i64) -> (d:
    WheelDelta)
    requires
        -0x1000_0000_0000 <= h_absolute <= 0x1000_0000_0000,
        -0x1000_0000_0000 <= v_absolute <= 0x1000_0000_0000,
    ensures
        h_discrete != 0 || v_discrete != 0 ==> d.x == -h_discrete as i64 && d.y == -v_discrete
            as i64,
        h_discrete == 0 && v_discrete == 0 ==> d.x == -h_absolute && d.y == -v_absolute,
{
    if h_discrete != 0 || v_discrete != 0 {
        WheelDelta { x: -(h_discrete as i64), y: -(v_discrete as i64) }
    } else {
        WheelDelta { x: -h_absolute, y: -v_absolute }
    }
}

} // verus!
