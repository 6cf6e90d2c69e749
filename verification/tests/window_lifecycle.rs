//! The window lifecycle: configure, decoration, sizes, redraw.

use glazier::geometry::{FrameInsets, WindowSize};
use glazier::window::{DecorationMode, Window, WindowConfigure};

fn plain_configure(mode: DecorationMode) -> WindowConfigure {
    WindowConfigure {
        new_width: None,
        new_height: None,
        decoration_mode: mode,
        is_maximized: false,
        is_fullscreen: false,
        is_tiled: false,
    }
}

#[test]
fn client_decoration_grows_outer_geometry_but_not_content() {
    // A 500x400 window whose first configure mandates client decoration
    // with a 10 px top border: content stays 500x400, the outer window
    // geometry becomes 500x410.
    let mut w = Window::new(1, String::from("demo"), WindowSize::new(500, 400));
    assert!(!w.is_configured());
    assert!(w.needs_frame_creation(DecorationMode::Client));

    let insets = FrameInsets { left: 0, top: 10, right: 0, bottom: 0 };
    let (size, effects) = w.configure(plain_configure(DecorationMode::Client), Some(insets));

    assert!(w.is_configured());
    assert_eq!(size, WindowSize::new(500, 400));
    assert_eq!(w.get_size(), WindowSize::new(500, 400), "content size is unchanged");
    assert_eq!(effects.outer_size, WindowSize::new(500, 410), "outer grows by the top border");
    assert_eq!(effects.geometry_origin.x, 0);
    assert_eq!(effects.geometry_origin.y, -10, "the frame extends upward");
    assert_eq!(effects.viewport_destination, WindowSize::new(500, 400));
    assert_eq!(effects.resize_frame, Some(WindowSize::new(500, 400)));
}

#[test]
fn proposed_size_has_borders_subtracted_under_a_frame() {
    let mut w = Window::new(1, String::new(), WindowSize::new(500, 400));
    let insets = FrameInsets { left: 2, top: 30, right: 2, bottom: 2 };
    let mut c = plain_configure(DecorationMode::Client);
    c.new_width = Some(800);
    c.new_height = Some(600);
    let (size, _) = w.configure(c, Some(insets));
    assert_eq!(size, WindowSize::new(796, 568), "the proposal is an outer size");
    assert_eq!(w.get_size(), WindowSize::new(796, 568));
}

#[test]
fn failed_decoration_build_is_cached_and_not_retried() {
    let mut w = Window::new(1, String::new(), WindowSize::new(500, 400));
    let (_, _) = w.configure(plain_configure(DecorationMode::Client), None);
    assert!(
        !w.needs_frame_creation(DecorationMode::Client),
        "after one failure the build is not attempted again"
    );
    // A later configure leaves the window frameless and its size alone.
    let (size, effects) = w.configure(plain_configure(DecorationMode::Client), None);
    assert_eq!(size, WindowSize::new(500, 400));
    assert_eq!(effects.outer_size, WindowSize::new(500, 400));
}

#[test]
fn server_decoration_drops_the_frame() {
    let mut w = Window::new(1, String::new(), WindowSize::new(500, 400));
    let insets = FrameInsets { left: 0, top: 10, right: 0, bottom: 0 };
    w.configure(plain_configure(DecorationMode::Client), Some(insets));
    let (_, effects) = w.configure(plain_configure(DecorationMode::Server), None);
    assert_eq!(effects.outer_size, WindowSize::new(500, 400), "no borders without a frame");
    assert_eq!(effects.resize_frame, None);
}

#[test]
fn maximized_configure_without_size_keeps_current_size() {
    let mut w = Window::new(1, String::new(), WindowSize::new(500, 400));
    w.configure(plain_configure(DecorationMode::Server), None);
    w.set_size(WindowSize::new(700, 500));
    let mut c = plain_configure(DecorationMode::Server);
    c.is_maximized = true;
    let (size, _) = w.configure(c, None);
    assert_eq!(size, WindowSize::new(700, 500));
    // Back to stateless with no proposal: the stateless fallback size,
    // which tracked the resize while the window was stateless.
    let (size, _) = w.configure(plain_configure(DecorationMode::Server), None);
    assert_eq!(size, WindowSize::new(700, 500));
}

#[test]
fn stateless_fallback_ignores_resizes_under_compositor_state() {
    let mut w = Window::new(1, String::new(), WindowSize::new(500, 400));
    let mut c = plain_configure(DecorationMode::Server);
    c.is_maximized = true;
    c.new_width = Some(1920);
    c.new_height = Some(1080);
    w.configure(c, None);
    assert_eq!(w.get_size(), WindowSize::new(1920, 1080));
    // Un-maximize with no proposal: fall back to the last stateless
    // size, not the maximized one.
    let (size, _) = w.configure(plain_configure(DecorationMode::Server), None);
    assert_eq!(size, WindowSize::new(500, 400));
}

#[test]
fn set_size_round_trips_through_get_size() {
    let mut w = Window::new(1, String::new(), WindowSize::new(500, 400));
    w.configure(plain_configure(DecorationMode::Server), None);
    for (width, height) in [(1, 1), (320, 200), (2560, 1440)] {
        w.set_size(WindowSize::new(width, height));
        assert_eq!(w.get_size(), WindowSize::new(width, height));
    }
}

#[test]
fn redraw_requests_are_coalesced_and_cleared() {
    let mut w = Window::new(1, String::new(), WindowSize::new(500, 400));
    // A fresh window needs its first paint.
    assert!(w.redraw(false));
    assert!(!w.redraw(false), "the pass cleared the request");
    w.invalidate();
    w.request_anim_frame();
    assert!(w.redraw(false), "one pass serves any number of requests");
    assert!(w.redraw(true), "a dirty decoration frame forces a paint");
    assert!(!w.redraw(false));
}

#[test]
fn hidden_titlebar_skips_the_frame_resize() {
    let mut w = Window::new(1, String::new(), WindowSize::new(500, 400));
    let insets = FrameInsets { left: 0, top: 10, right: 0, bottom: 0 };
    w.configure(plain_configure(DecorationMode::Client), Some(insets));
    w.show_titlebar(false);
    let effects = w.set_size(WindowSize::new(600, 300));
    assert_eq!(effects.resize_frame, None, "a hidden frame is not resized");
    assert_eq!(effects.outer_size, WindowSize::new(600, 310));
    w.show_titlebar(true);
    let effects = w.set_size(WindowSize::new(600, 300));
    assert_eq!(effects.resize_frame, Some(WindowSize::new(600, 300)));
}

#[test]
fn scale_comes_from_the_current_monitor() {
    let scale = glazier::window::scale_from_monitor(Some(2)).unwrap();
    assert_eq!((scale.x, scale.y), (2, 2));
    assert!(glazier::window::scale_from_monitor(None).is_err());
}

#[test]
fn compositor_updates_start_empty() {
    let u = glazier::window::WindowCompositorUpdate::new(42);
    assert_eq!(u.window_id, 42);
    assert!(u.size.is_none());
    assert!(u.scale_factor.is_none());
    assert!(!u.close_window);
}
