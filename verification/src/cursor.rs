//! Cursor selection: the portable cursor names, their mapping to native
//! cursor identities, and the per-window cursor state.
//!
//! Backends without custom-cursor support treat a custom cursor as the
//! default arrow — a silent no-op rather than an error, so the API stays
//! uniformly callable.

use vstd::prelude::*;

verus! {

/// A custom cursor image. No backend modelled here supports building one
/// yet, so the type carries no data; it exists so cursor values can name
/// one.
#[derive(Clone, PartialEq, Eq)]
pub struct CustomCursor;

/// A portable cursor.
#[derive(Clone, PartialEq, Eq)]
pub enum Cursor {
    Arrow,
    IBeam,
    Pointer,
    Crosshair,
    OpenHand,
    NotAllowed,
    ResizeLeftRight,
    ResizeUpDown,
    Custom(CustomCursor),
}

/// A cursor name in the portable cursor-theme vocabulary.
#[derive(Clone, Copy, Debug, PartialEq, Eq, Structural)]
pub enum CursorIcon {
    Default,
    Text,
    PointerHand,
    Crosshair,
    Grab,
    NotAllowed,
    ColResize,
    RowResize,
}

/// The themed-cursor icon each portable cursor maps to; cursors the
/// backend has no theme entry for — the open hand, custom cursors — fall
/// back to the default arrow.
pub open spec fn spec_cursor_icon(cursor: Cursor) -> CursorIcon {
    match cursor {
        Cursor::Arrow => CursorIcon::Default,
        Cursor::IBeam => CursorIcon::Text,
        Cursor::Pointer => CursorIcon::PointerHand,
        Cursor::Crosshair => CursorIcon::Crosshair,
        Cursor::NotAllowed => CursorIcon::NotAllowed,
        Cursor::ResizeLeftRight => CursorIcon::ColResize,
        Cursor::ResizeUpDown => CursorIcon::RowResize,
        Cursor::OpenHand => CursorIcon::Default,
        Cursor::Custom(_) => CursorIcon::Default,
    }
}

/// Map a portable cursor to its themed-cursor icon.
pub fn cursor_icon(cursor: &Cursor) -> (icon: CursorIcon)
    ensures
        icon == spec_cursor_icon(*cursor),
{
    match cursor {
        Cursor::Arrow => CursorIcon::Default,
        Cursor::IBeam => CursorIcon::Text,
        Cursor::Pointer => CursorIcon::PointerHand,
        Cursor::Crosshair => CursorIcon::Crosshair,
        Cursor::NotAllowed => CursorIcon::NotAllowed,
        Cursor::ResizeLeftRight => CursorIcon::ColResize,
        Cursor::ResizeUpDown => CursorIcon::RowResize,
        Cursor::OpenHand => CursorIcon::Default,
        Cursor::Custom(_) => CursorIcon::Default,
    }
}

/// The cursor-theme name of an icon, as the theme protocol spells it.
pub fn icon_name(icon: CursorIcon) -> (name: &'static str)
    ensures
        icon is Default ==> name@ == "default"@,
        icon is Text ==> name@ == "text"@,
        icon is PointerHand ==> name@ == "pointer"@,
        icon is Crosshair ==> name@ == "crosshair"@,
        icon is Grab ==> name@ == "grab"@,
        icon is NotAllowed ==> name@ == "not-allowed"@,
        icon is ColResize ==> name@ == "col-resize"@,
        icon is RowResize ==> name@ == "row-resize"@,
{
    match icon {
        CursorIcon::Default => "default",
        CursorIcon::Text => "text",
        CursorIcon::PointerHand => "pointer",
        CursorIcon::Crosshair => "crosshair",
        CursorIcon::Grab => "grab",
        CursorIcon::NotAllowed => "not-allowed",
        CursorIcon::ColResize => "col-resize",
        CursorIcon::RowResize => "row-resize",
    }
}

/// What the embedder must do to the native pointers after a cursor-state
/// change.
#[derive(Clone, Copy, Debug, PartialEq, Eq, Structural)]
pub enum CursorEffect {
    /// Set the themed icon on every pointer over the window.
    ApplyIcon(CursorIcon),
    /// Clear the cursor image on every pointer over the window.
    Hide,
    /// Nothing: the change becomes visible when the cursor is shown
    /// again.
    Deferred,
}

/// A window's cursor state: the icon in force and whether the cursor is
/// visible at all.
#[derive(Clone, Copy, Debug, PartialEq, Eq, Structural)]
pub struct CursorState {
    pub icon: CursorIcon,
    pub visible: bool,
}

impl CursorState {
    pub fn new() -> (s: CursorState)
        ensures
            s.icon is Default,
            s.visible,
    {
        CursorState { icon: CursorIcon::Default, visible: true }
    }

    /// Change the icon. While the cursor is hidden nothing is applied;
    /// the new icon takes effect when the cursor is shown again.
    pub fn set_icon(&mut self, icon: CursorIcon) -> (effect: CursorEffect)
        ensures
            final(self).icon == icon,
            final(self).visible == old(self).visible,
            effect == (if old(self).visible {
                CursorEffect::ApplyIcon(icon)
            } else {
                CursorEffect::Deferred
            }),
    {
        self.icon = icon;
        if self.visible {
            CursorEffect::ApplyIcon(icon)
        } else {
            CursorEffect::Deferred
        }
    }

    /// Show or hide the cursor: hiding clears the pointer image, showing
    /// reapplies the icon in force.
    pub fn set_visible(&mut self, visible: bool) -> (effect: CursorEffect)
        ensures
            final(self).visible == visible,
            final(self).icon == old(self).icon,
            effect == (if visible {
                CursorEffect::ApplyIcon(old(self).icon)
            } else {
                CursorEffect::Hide
            }),
    {
        self.visible = visible;
        if visible {
            CursorEffect::ApplyIcon(self.icon)
        } else {
            CursorEffect::Hide
        }
    }

    /// The effect that brings a fresh native pointer in line with the
    /// current state — applied when a pointer enters the window.
    pub fn reload_effect(&self) -> (effect: CursorEffect)
        ensures
            effect == (if self.visible {
                CursorEffect::ApplyIcon(self.icon)
            } else {
                CursorEffect::Hide
            }),
    {
        if self.visible {
            CursorEffect::ApplyIcon(self.icon)
        } else {
            CursorEffect::Hide
        }
    }
}

} // verus!
