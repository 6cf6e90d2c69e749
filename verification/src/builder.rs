//! The window builder: accumulated configuration for one window, and the
//! decisions construction makes from it before any native call.

use vstd::prelude::*;

use crate::geometry::{WindowPoint, WindowSize};
use crate::placement::{WindowLevel, WindowState};
use crate::window::{Window, MAX_DIMENSION};

verus! {

/// Width a window gets when the builder is not told one.
pub const DEFAULT_WIDTH: u32 = 500;

/// Height a window gets when the builder is not told one.
pub const DEFAULT_HEIGHT: u32 = 400;

/// Accumulated configuration for a window under construction.
pub struct WindowBuilder {
    pub title: String,
    pub size: WindowSize,
    pub min_size: Option<WindowSize>,
    pub position: Option<WindowPoint>,
    pub level: WindowLevel,
    pub state: Option<WindowState>,
    pub resizable: bool,
    pub show_titlebar: bool,
    pub transparent: bool,
}

impl WindowBuilder {
    /// All defaults: an app-level, resizable, titled, opaque window of
    /// the default size, positioned by the window manager.
    pub fn new() -> (b: WindowBuilder)
        ensures
            b.title@ == Seq::<char>::empty(),
            b.size == (WindowSize { width: DEFAULT_WIDTH, height: DEFAULT_HEIGHT }),
            b.min_size is None,
            b.position is None,
            b.level is AppWindow,
            b.state is None,
            b.resizable,
            b.show_titlebar,
            !b.transparent,
    {
        WindowBuilder {
            title: String::new(),
            size: WindowSize { width: DEFAULT_WIDTH, height: DEFAULT_HEIGHT },
            min_size: None,
            position: None,
            level: WindowLevel::AppWindow,
            state: None,
            resizable: true,
            show_titlebar: true,
            transparent: false,
        }
    }

    pub fn size(self, size: WindowSize) -> (b: WindowBuilder)
        requires
            1 <= size.width <= MAX_DIMENSION,
            1 <= size.height <= MAX_DIMENSION,
        ensures
            b.size == size,
            b.title@ == self.title@,
            b.min_size == self.min_size,
            b.position == self.position,
            b.level == self.level,
            b.state == self.state,
            b.resizable == self.resizable,
            b.show_titlebar == self.show_titlebar,
            b.transparent == self.transparent,
    {
        WindowBuilder { size, ..self }
    }

    pub fn min_size(self, size: WindowSize) -> (b: WindowBuilder)
        ensures
            b.min_size == Some(size),
            b.size == self.size,
            b.title@ == self.title@,
            b.position == self.position,
            b.level == self.level,
            b.state == self.state,
            b.resizable == self.resizable,
            b.show_titlebar == self.show_titlebar,
            b.transparent == self.transparent,
    {
        WindowBuilder { min_size: Some(size), ..self }
    }

    pub fn resizable(self, resizable: bool) -> (b: WindowBuilder)
        ensures
            b.resizable == resizable,
            b.size == self.size,
            b.title@ == self.title@,
            b.min_size == self.min_size,
            b.position == self.position,
            b.level == self.level,
            b.state == self.state,
            b.show_titlebar == self.show_titlebar,
            b.transparent == self.transparent,
    {
        WindowBuilder { resizable, ..self }
    }

    pub fn show_titlebar(self, show_titlebar: bool) -> (b: WindowBuilder)
        ensures
            b.show_titlebar == show_titlebar,
            b.size == self.size,
            b.title@ == self.title@,
            b.min_size == self.min_size,
            b.position == self.position,
            b.level == self.level,
            b.state == self.state,
            b.resizable == self.resizable,
            b.transparent == self.transparent,
    {
        WindowBuilder { show_titlebar, ..self }
    }

    pub fn transparent(self, transparent: bool) -> (b: WindowBuilder)
        ensures
            b.transparent == transparent,
            b.size == self.size,
            b.title@ == self.title@,
            b.min_size == self.min_size,
            b.position == self.position,
            b.level == self.level,
            b.state == self.state,
            b.resizable == self.resizable,
            b.show_titlebar == self.show_titlebar,
    {
        WindowBuilder { transparent, ..self }
    }

    pub fn position(self, position: WindowPoint) -> (b: WindowBuilder)
        ensures
            b.position == Some(position),
            b.size == self.size,
            b.title@ == self.title@,
            b.min_size == self.min_size,
            b.level == self.level,
            b.state == self.state,
            b.resizable == self.resizable,
            b.show_titlebar == self.show_titlebar,
            b.transparent == self.transparent,
    {
        WindowBuilder { position: Some(position), ..self }
    }

    pub fn level(self, level: WindowLevel) -> (b: WindowBuilder)
        ensures
            b.level == level,
            b.size == self.size,
            b.title@ == self.title@,
            b.min_size == self.min_size,
            b.position == self.position,
            b.state == self.state,
            b.resizable == self.resizable,
            b.show_titlebar == self.show_titlebar,
            b.transparent == self.transparent,
    {
        WindowBuilder { level, ..self }
    }

    pub fn window_state(self, state: WindowState) -> (b: WindowBuilder)
        ensures
            b.state == Some(state),
            b.size == self.size,
            b.title@ == self.title@,
            b.min_size == self.min_size,
            b.position == self.position,
            b.level == self.level,
            b.resizable == self.resizable,
            b.show_titlebar == self.show_titlebar,
            b.transparent == self.transparent,
    {
        WindowBuilder { state: Some(state), ..self }
    }

    pub fn title(self, title: String) -> (b: WindowBuilder)
        ensures
            b.title@ == title@,
            b.size == self.size,
            b.min_size == self.min_size,
            b.position == self.position,
            b.level == self.level,
            b.state == self.state,
            b.resizable == self.resizable,
            b.show_titlebar == self.show_titlebar,
            b.transparent == self.transparent,
    {
        WindowBuilder { title, ..self }
    }

    /// The parent window a floating level is anchored to, if the level
    /// has one; construction records it so positions can be made relative
    /// to the parent.
    pub fn parent_id(&self) -> (r: Option<u64>)
        ensures
            r == (match self.level {
                WindowLevel::AppWindow => None::<u64>,
                WindowLevel::Tooltip(p) => Some(p),
                WindowLevel::DropDown(p) => Some(p),
                WindowLevel::Modal(p) => Some(p),
            }),
    {
        match self.level {
            WindowLevel::AppWindow => None,
            WindowLevel::Tooltip(p) => Some(p),
            WindowLevel::DropDown(p) => Some(p),
            WindowLevel::Modal(p) => Some(p),
        }
    }

    /// The native frame a new window is created with on a
    /// bottom-left-origin platform: the requested position — or the
    /// default spot near the screen's top-left corner — flipped through
    /// the screen height at creation time.
    pub fn initial_frame(&self, screen_height: i64) -> (frame:
        crate::placement::NativeFrame)
        requires
            0 <= screen_height <= crate::placement::MAX_COORD,
            1 <= self.size.width <= MAX_DIMENSION,
            1 <= self.size.height <= MAX_DIMENSION,
            self.position matches Some(p) ==> -crate::placement::MAX_COORD <= p.x
                <= crate::placement::MAX_COORD && -crate::placement::MAX_COORD <= p.y
                <= crate::placement::MAX_COORD,
        ensures
            frame.width == self.size.width,
            frame.height == self.size.height,
            frame.x == (match self.position {
                Some(p) => p.x,
                None => 20i64,
            }),
            frame.y == screen_height - (match self.position {
                Some(p) => p.y,
                None => 20i64,
            }) - self.size.height,
    {
        let position = match self.position {
            Some(p) => p,
            None => WindowPoint { x: 20, y: 20 },
        };
        crate::placement::apply_set_position(
            crate::placement::NativeFrame {
                x: 0,
                y: 0,
                width: self.size.width,
                height: self.size.height,
            },
            position,
            screen_height,
        )
    }

    /// Construct the lifecycle state of the window this builder
    /// describes, under the given native surface id: unconfigured, at the
    /// builder's size, with the builder's title.
    pub fn into_window(self, id: u64) -> (w: Window)
        requires
            1 <= self.size.width <= MAX_DIMENSION,
            1 <= self.size.height <= MAX_DIMENSION,
        ensures
            w.wf(),
            w.spec_id() == id,
            w.spec_title() == self.title@,
            w.spec_size() == self.size,
            w.spec_stateless_size() == self.size,
            w.spec_frame() is None,
            !w.spec_csd_fails(),
            w.spec_last_configure() is None,
            w.spec_needs_redraw(),
    {
        let size = self.size;
        Window::new(id, self.title, size)
    }
}

} // verus!
