//! Placement math: deferred geometry, coordinate flips, state
//! transitions, style masks.

use glazier::geometry::{flip_y, WindowPoint, WindowSize};
use glazier::idle::DeferredOp;
use glazier::placement::{
    apply_deferred, as_raw_window_level, build_style_mask, content_insets_from_rects,
    frame_position, frame_size, update_resizable_mask, window_state_from_flags,
    window_state_transition, NativeFrame, ScreenRect, WindowLevel, WindowState,
    WindowStateAction, LEVEL_FLOATING, LEVEL_MODAL_PANEL, LEVEL_NORMAL, STYLE_RESIZABLE,
};

#[test]
fn deferred_set_size_round_trips_after_the_drain() {
    // The geometry round trip: a deferred resize, once applied from the
    // idle drain, leaves exactly the requested size to read back.
    let frame = NativeFrame { x: 100, y: 900, width: 500, height: 400 };
    for (w, h) in [(1, 1), (640, 480), (500, 410)] {
        let applied = apply_deferred(frame, DeferredOp::SetSize(WindowSize::new(w, h)), 1080);
        assert_eq!(frame_size(&applied), WindowSize::new(w, h));
    }
    // Growing the window keeps the top edge in place: the bottom-left
    // origin moves down by the height gained.
    let grown = apply_deferred(frame, DeferredOp::SetSize(WindowSize::new(500, 500)), 1080);
    assert_eq!(grown.y, 800);
    assert_eq!(grown.x, 100);
}

#[test]
fn deferred_set_position_round_trips_through_the_flip() {
    let frame = NativeFrame { x: 0, y: 0, width: 500, height: 400 };
    let target = WindowPoint::new(120, 80);
    let moved = apply_deferred(frame, DeferredOp::SetPosition(target), 1080);
    assert_eq!(moved.y, 1080 - 80 - 400, "top-left y flips into a bottom-left origin");
    assert_eq!(frame_position(&moved, 1080), target);
}

#[test]
fn flip_y_uses_the_screen_height_at_event_time() {
    assert_eq!(flip_y(1080, 80, 400), 600);
    // A taller screen flips the same window elsewhere.
    assert_eq!(flip_y(2160, 80, 400), 1680);
    assert_eq!(flip_y(1080, flip_y(1080, 80, 400), 400), 80, "the flip is its own inverse");
}

#[test]
fn content_insets_measure_the_titlebar() {
    let window_frame = ScreenRect { x0: 100, y0: 100, x1: 600, y1: 510 };
    let content = ScreenRect { x0: 100, y0: 110, x1: 600, y1: 510 };
    let insets = content_insets_from_rects(window_frame, content);
    assert_eq!((insets.left, insets.top, insets.right, insets.bottom), (0, 10, 0, 0));
}

#[test]
fn window_state_transition_table() {
    assert_eq!(window_state_transition(WindowState::Minimized, WindowState::Restored), WindowStateAction::Miniaturize);
    assert_eq!(window_state_transition(WindowState::Minimized, WindowState::Maximized), WindowStateAction::Miniaturize);
    assert_eq!(window_state_transition(WindowState::Maximized, WindowState::Restored), WindowStateAction::Zoom);
    assert_eq!(window_state_transition(WindowState::Maximized, WindowState::Minimized), WindowStateAction::Zoom);
    assert_eq!(window_state_transition(WindowState::Restored, WindowState::Maximized), WindowStateAction::Zoom);
    assert_eq!(window_state_transition(WindowState::Restored, WindowState::Minimized), WindowStateAction::Deminiaturize);
    // Requesting the current state is a no-op.
    assert_eq!(window_state_transition(WindowState::Restored, WindowState::Restored), WindowStateAction::NoAction);
    assert_eq!(window_state_transition(WindowState::Maximized, WindowState::Maximized), WindowStateAction::NoAction);
    assert_eq!(window_state_transition(WindowState::Minimized, WindowState::Minimized), WindowStateAction::NoAction);
}

#[test]
fn window_state_from_native_flags() {
    assert_eq!(window_state_from_flags(true, true), WindowState::Minimized);
    assert_eq!(window_state_from_flags(true, false), WindowState::Minimized);
    assert_eq!(window_state_from_flags(false, true), WindowState::Maximized);
    assert_eq!(window_state_from_flags(false, false), WindowState::Restored);
}

#[test]
fn style_masks() {
    // Closable | miniaturizable always; titled and resizable on demand.
    assert_eq!(build_style_mask(true, true), 0b1111);
    assert_eq!(build_style_mask(true, false), 0b0111);
    assert_eq!(build_style_mask(false, true), 0b1110);
    assert_eq!(build_style_mask(false, false), 0b0110);
    let mask = build_style_mask(true, false);
    assert_eq!(update_resizable_mask(mask, true) & STYLE_RESIZABLE, STYLE_RESIZABLE);
    assert_eq!(update_resizable_mask(mask | STYLE_RESIZABLE, false) & STYLE_RESIZABLE, 0);
}

#[test]
fn window_levels() {
    assert_eq!(as_raw_window_level(WindowLevel::AppWindow), LEVEL_NORMAL);
    assert_eq!(as_raw_window_level(WindowLevel::Tooltip(1)), LEVEL_FLOATING);
    assert_eq!(as_raw_window_level(WindowLevel::DropDown(2)), LEVEL_FLOATING);
    assert_eq!(as_raw_window_level(WindowLevel::Modal(3)), LEVEL_MODAL_PANEL);
}
