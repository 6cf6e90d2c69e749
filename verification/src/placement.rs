//! Screen placement math and window-state transitions for platforms whose
//! native coordinate space has its origin at the bottom-left of the screen.
//!
//! The native window frame is modelled as a rectangle in that space; the
//! public API speaks top-left-origin coordinates, so positions are flipped
//! through the screen height at call time. Geometry mutations arrive as
//! deferred operations (native frame calls are not safe from inside an
//! active layout callback) and are applied from the idle drain.

use vstd::prelude::*;

use crate::geometry::{WindowPoint, WindowSize};
use crate::idle::DeferredOp;

verus! {

/// Bound on coordinates of the native frame model; keeps every flip and
/// offset within `i64`.
pub const MAX_COORD: i64 = 0x0001_0000_0000;

/// The native window frame: origin at the bottom-left of the screen,
/// y growing upward.
#[derive(Clone, Copy, Debug, PartialEq, Eq, Structural)]
pub struct NativeFrame {
    pub x: i64,
    pub y: i64,
    pub width: u32,
    pub height: u32,
}

impl NativeFrame {
    pub open spec fn wf(self) -> bool {
        &&& -MAX_COORD <= self.x <= MAX_COORD
        &&& -MAX_COORD <= self.y <= MAX_COORD
        &&& self.width <= crate::window::MAX_DIMENSION
        &&& self.height <= crate::window::MAX_DIMENSION
    }
}

/// Resize the frame keeping the position of its top edge: the native
/// origin is the bottom-left corner, so growing the window by some height
/// moves the origin down by exactly that much.
pub open spec fn spec_apply_set_size(frame: NativeFrame, size: WindowSize) -> NativeFrame {
    NativeFrame {
        x: frame.x,
        y: (frame.y - (size.height - frame.height)) as i64,
        width: size.width,
        height: size.height,
    }
}

/// Apply a deferred resize to the native frame.
pub fn apply_set_size(frame: NativeFrame, size: WindowSize) -> (r: NativeFrame)
    requires
        frame.wf(),
        size.width <= crate::window::MAX_DIMENSION,
        size.height <= crate::window::MAX_DIMENSION,
    ensures
        r == spec_apply_set_size(frame, size),
        r.wf() == (-MAX_COORD <= r.y <= MAX_COORD),
{
    let delta: i64 = (size.height as i64) - (frame.height as i64);
    NativeFrame { x: frame.x, y: frame.y - delta, width: size.width, height: size.height }
}

/// Move the frame so that its top-left corner, in top-left-origin
/// coordinates, lands on `position`: the native origin becomes the flip of
/// the requested y through the screen height at call time, less the frame
/// height.
pub open spec fn spec_apply_set_position(
    frame: NativeFrame,
    position: WindowPoint,
    screen_height: i64,
) -> NativeFrame {
    NativeFrame {
        x: position.x,
        y: (screen_height - position.y - frame.height) as i64,
        width: frame.width,
        height: frame.height,
    }
}

/// Apply a deferred move to the native frame.
pub fn apply_set_position(frame: NativeFrame, position: WindowPoint, screen_height: i64) -> (r:
    NativeFrame)
    requires
        frame.wf(),
        -MAX_COORD <= position.x <= MAX_COORD,
        -MAX_COORD <= position.y <= MAX_COORD,
        0 <= screen_height <= MAX_COORD,
    ensures
        r == spec_apply_set_position(frame, position, screen_height),
{
    NativeFrame {
        x: position.x,
        y: screen_height - position.y - (frame.height as i64),
        width: frame.width,
        height: frame.height,
    }
}

/// Apply one queued geometry mutation to the native frame.
pub fn apply_deferred(frame: NativeFrame, op: DeferredOp, screen_height: i64) -> (r: NativeFrame)
    requires
        frame.wf(),
        0 <= screen_height <= MAX_COORD,
        op matches DeferredOp::SetSize(s) ==> s.width <= crate::window::MAX_DIMENSION
            && s.height <= crate::window::MAX_DIMENSION,
        op matches DeferredOp::SetPosition(p) ==> -MAX_COORD <= p.x <= MAX_COORD && -MAX_COORD
            <= p.y <= MAX_COORD,
    ensures
        op matches DeferredOp::SetSize(s) ==> r == spec_apply_set_size(frame, s),
        op matches DeferredOp::SetPosition(p) ==> r == spec_apply_set_position(
            frame,
            p,
            screen_height,
        ),
{
    match op {
        DeferredOp::SetSize(size) => apply_set_size(frame, size),
        DeferredOp::SetPosition(position) => apply_set_position(frame, position, screen_height),
    }
}

/// The frame's size as the size accessor reports it.
pub fn frame_size(frame: &NativeFrame) -> (s: WindowSize)
    ensures
        s.width == frame.width,
        s.height == frame.height,
{
    WindowSize { width: frame.width, height: frame.height }
}

/// The frame's position in top-left-origin coordinates: x as stored, y
/// flipped back through the screen height.
pub fn frame_position(frame: &NativeFrame, screen_height: i64) -> (p: WindowPoint)
    requires
        frame.wf(),
        0 <= screen_height <= MAX_COORD,
    ensures
        p.x == frame.x,
        p.y == screen_height - frame.y - frame.height,
{
    WindowPoint { x: frame.x, y: screen_height - frame.y - (frame.height as i64) }
}

/// A deferred resize leaves the frame at exactly the requested size, so a
/// size read after the idle drain that applied it returns what was set —
/// for any requested size. A deferred move likewise lands the top-left
/// corner exactly on the requested position.
pub proof fn lemma_deferred_geometry_round_trip(
    frame: NativeFrame,
    size: WindowSize,
    position: WindowPoint,
    screen_height: i64,
)
    requires
        frame.wf(),
        0 <= screen_height <= MAX_COORD,
        -MAX_COORD <= position.x <= MAX_COORD,
        -MAX_COORD <= position.y <= MAX_COORD,
    ensures
        spec_apply_set_size(frame, size).width == size.width,
        spec_apply_set_size(frame, size).height == size.height,
        spec_apply_set_position(frame, position, screen_height).x == position.x,
        screen_height - spec_apply_set_position(frame, position, screen_height).y
            - spec_apply_set_position(frame, position, screen_height).height == position.y,
{
}

/// A window's position request relative to a parent window: child
/// coordinates are offset by the parent's position on the way in, and the
/// offset is taken back off on the way out.
pub fn position_with_parent(position: WindowPoint, parent: Option<WindowPoint>) -> (p: WindowPoint)
    requires
        -MAX_COORD <= position.x <= MAX_COORD,
        -MAX_COORD <= position.y <= MAX_COORD,
        parent matches Some(q) ==> -MAX_COORD <= q.x <= MAX_COORD && -MAX_COORD <= q.y <= MAX_COORD,
    ensures
        p == (match parent {
            Some(q) => WindowPoint { x: (position.x + q.x) as i64, y: (position.y + q.y) as i64 },
            None => position,
        }),
{
    match parent {
        Some(q) => WindowPoint { x: position.x + q.x, y: position.y + q.y },
        None => position,
    }
}

/// A window's reported position relative to a parent window: the parent's
/// position is subtracted back off.
pub fn position_without_parent(position: WindowPoint, parent: Option<WindowPoint>) -> (p:
    WindowPoint)
    requires
        -MAX_COORD <= position.x <= MAX_COORD,
        -MAX_COORD <= position.y <= MAX_COORD,
        parent matches Some(q) ==> -MAX_COORD <= q.x <= MAX_COORD && -MAX_COORD <= q.y <= MAX_COORD,
    ensures
        p == (match parent {
            Some(q) => WindowPoint { x: (position.x - q.x) as i64, y: (position.y - q.y) as i64 },
            None => position,
        }),
{
    match parent {
        Some(q) => WindowPoint { x: position.x - q.x, y: position.y - q.y },
        None => position,
    }
}

/// An axis-aligned rectangle in top-left-origin coordinates.
#[derive(Clone, Copy, Debug, PartialEq, Eq, Structural)]
pub struct ScreenRect {
    pub x0: i64,
    pub y0: i64,
    pub x1: i64,
    pub y1: i64,
}

/// Signed distances from a window frame's edges to the content area's
/// edges inside it; the top inset is the titlebar height.
#[derive(Clone, Copy, Debug, PartialEq, Eq, Structural)]
pub struct ContentInsets {
    pub left: i64,
    pub top: i64,
    pub right: i64,
    pub bottom: i64,
}

/// The content insets of a window: how far each edge of the content
/// rectangle sits from the matching edge of the window frame rectangle,
/// both in top-left-origin coordinates.
pub fn content_insets_from_rects(window_frame: ScreenRect, content: ScreenRect) -> (i:
    ContentInsets)
    requires
        -MAX_COORD <= window_frame.x0 <= MAX_COORD,
        -MAX_COORD <= window_frame.y0 <= MAX_COORD,
        -MAX_COORD <= window_frame.x1 <= MAX_COORD,
        -MAX_COORD <= window_frame.y1 <= MAX_COORD,
        -MAX_COORD <= content.x0 <= MAX_COORD,
        -MAX_COORD <= content.y0 <= MAX_COORD,
        -MAX_COORD <= content.x1 <= MAX_COORD,
        -MAX_COORD <= content.y1 <= MAX_COORD,
    ensures
        i.left == content.x0 - window_frame.x0,
        i.top == content.y0 - window_frame.y0,
        i.right == window_frame.x1 - content.x1,
        i.bottom == window_frame.y1 - content.y1,
{
    ContentInsets {
        left: content.x0 - window_frame.x0,
        top: content.y0 - window_frame.y0,
        right: window_frame.x1 - content.x1,
        bottom: window_frame.y1 - content.y1,
    }
}

/// Compositor-visible window state.
#[derive(Clone, Copy, Debug, PartialEq, Eq, Structural)]
pub enum WindowState {
    Maximized,
    Minimized,
    Restored,
}

/// The native call a window-state change request resolves to.
#[derive(Clone, Copy, Debug, PartialEq, Eq, Structural)]
pub enum WindowStateAction {
    /// Miniaturize the window.
    Miniaturize,
    /// Toggle zoom; zooming a maximized window restores it.
    Zoom,
    /// Bring a miniaturized window back.
    Deminiaturize,
    /// Nothing to do; the window is already in the requested state.
    NoAction,
}

/// Decide the native call for a window-state change: requesting the
/// current state is a no-op; minimizing miniaturizes, maximizing zooms;
/// restoring undoes whichever state the window is in.
pub fn window_state_transition(requested: WindowState, current: WindowState) -> (a:
    WindowStateAction)
    ensures
        requested == current ==> a is NoAction,
        requested != current && requested is Minimized ==> a is Miniaturize,
        requested != current && requested is Maximized ==> a is Zoom,
        requested is Restored && current is Maximized ==> a is Zoom,
        requested is Restored && current is Minimized ==> a is Deminiaturize,
{
    match (requested, current) {
        (WindowState::Maximized, WindowState::Maximized) => WindowStateAction::NoAction,
        (WindowState::Minimized, WindowState::Minimized) => WindowStateAction::NoAction,
        (WindowState::Restored, WindowState::Restored) => WindowStateAction::NoAction,
        (WindowState::Minimized, _) => WindowStateAction::Miniaturize,
        (WindowState::Maximized, _) => WindowStateAction::Zoom,
        (WindowState::Restored, WindowState::Maximized) => WindowStateAction::Zoom,
        (WindowState::Restored, WindowState::Minimized) => WindowStateAction::Deminiaturize,
    }
}

/// The window state the native flags describe: miniaturized wins over
/// zoomed, and a window that is neither is restored.
pub fn window_state_from_flags(is_miniaturized: bool, is_zoomed: bool) -> (s: WindowState)
    ensures
        is_miniaturized ==> s is Minimized,
        !is_miniaturized && is_zoomed ==> s is Maximized,
        !is_miniaturized && !is_zoomed ==> s is Restored,
{
    if is_miniaturized {
        WindowState::Minimized
    } else if is_zoomed {
        WindowState::Maximized
    } else {
        WindowState::Restored
    }
}

/// Style bit: the window has a titlebar.
pub const STYLE_TITLED: u64 = 1;

/// Style bit: the window can be closed.
pub const STYLE_CLOSABLE: u64 = 2;

/// Style bit: the window can be miniaturized.
pub const STYLE_MINIATURIZABLE: u64 = 4;

/// Style bit: the window can be resized.
pub const STYLE_RESIZABLE: u64 = 8;

/// The style mask a new window is built with: always closable and
/// miniaturizable, titled and resizable as the builder asked.
pub fn build_style_mask(show_titlebar: bool, resizable: bool) -> (mask: u64)
    ensures
        mask == STYLE_CLOSABLE | STYLE_MINIATURIZABLE | (if show_titlebar {
            STYLE_TITLED
        } else {
            0u64
        }) | (if resizable {
            STYLE_RESIZABLE
        } else {
            0u64
        }),
{
    let mut mask: u64 = STYLE_CLOSABLE | STYLE_MINIATURIZABLE;
    if show_titlebar {
        mask = mask | STYLE_TITLED;
    }
    if resizable {
        mask = mask | STYLE_RESIZABLE;
    }
    proof {
        assert((2u64 | 4u64) == 6u64 && (6u64 | 1u64) == 7u64 && (6u64 | 8u64) == 14u64 && (7u64
            | 8u64) == 15u64 && (2u64 | 4u64 | 1u64 | 8u64) == 15u64 && (2u64 | 4u64 | 0u64 | 8u64)
            == 14u64 && (2u64 | 4u64 | 1u64 | 0u64) == 7u64 && (2u64 | 4u64 | 0u64 | 0u64) == 6u64)
            by (bit_vector);
    }
    mask
}

/// Turn the resizable style bit on or off, leaving the rest of the mask
/// alone.
pub fn update_resizable_mask(mask: u64, resizable: bool) -> (r: u64)
    ensures
        resizable ==> r == mask | STYLE_RESIZABLE,
        !resizable ==> r == mask & !STYLE_RESIZABLE,
{
    if resizable {
        mask | STYLE_RESIZABLE
    } else {
        mask & !STYLE_RESIZABLE
    }
}

/// Stacking level of a window; the payload of the floating levels is the
/// id of the parent window the level is anchored to.
#[derive(Clone, Copy, Debug, PartialEq, Eq, Structural)]
pub enum WindowLevel {
    /// An ordinary app window.
    AppWindow,
    /// A tooltip above its parent.
    Tooltip(u64),
    /// A drop-down above its parent.
    DropDown(u64),
    /// A modal dialog for its parent.
    Modal(u64),
}

/// Native level value of an ordinary window.
pub const LEVEL_NORMAL: i32 = 0;

/// Native level value of floating helper windows.
pub const LEVEL_FLOATING: i32 = 3;

/// Native level value of modal panels.
pub const LEVEL_MODAL_PANEL: i32 = 8;

/// The native window-level value a stacking level maps to: tooltips and
/// drop-downs float, modals sit at the modal-panel level, app windows at
/// the normal level.
pub fn as_raw_window_level(window_level: WindowLevel) -> (r: i32)
    ensures
        r == (match window_level {
            WindowLevel::AppWindow => LEVEL_NORMAL,
            WindowLevel::Tooltip(_) => LEVEL_FLOATING,
            WindowLevel::DropDown(_) => LEVEL_FLOATING,
            WindowLevel::Modal(_) => LEVEL_MODAL_PANEL,
        }),
{
    match window_level {
        WindowLevel::AppWindow => LEVEL_NORMAL,
        WindowLevel::Tooltip(_) => LEVEL_FLOATING,
        WindowLevel::DropDown(_) => LEVEL_FLOATING,
        WindowLevel::Modal(_) => LEVEL_MODAL_PANEL,
    }
}

} // verus!
