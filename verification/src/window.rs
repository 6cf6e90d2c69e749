//! The window lifecycle state machine: configure handling, client-side
//! decoration, size bookkeeping and redraw requests.
//!
//! A window is unconfigured from construction until the compositor's first
//! configure arrives; geometry requests before that are resolved against
//! the eventual effective size. Each configure decides the decoration mode
//! (building a client-side frame lazily, and caching a construction
//! failure so it is not retried), derives the content size from the
//! compositor's proposal, and records the configure. `set_size` keeps the
//! content size, the fallback size for stateless windows, and the outer
//! geometry (content plus frame borders) in step. The native surface calls
//! those decisions lead to are returned as effect values for the embedder
//! to perform.

use vstd::prelude::*;

use crate::geometry::{FrameInsets, WindowPoint, WindowSize};

verus! {

/// Largest width or height the lifecycle machine accepts, well under what
/// any compositor proposes; keeps outer-size arithmetic in bounds.
pub const MAX_DIMENSION: u32 = 0x0100_0000;

/// Largest single frame border the machine accepts.
pub const MAX_INSET: u32 = 0x0001_0000;

/// Who draws the window chrome.
#[derive(Clone, Copy, Debug, PartialEq, Eq, Structural)]
pub enum DecorationMode {
    /// The application draws its own titlebar and borders.
    Client,
    /// The compositor draws them.
    Server,
}

/// A compositor configure, reduced to the plain values the lifecycle
/// machine reads.
#[derive(Clone, Copy, Debug, PartialEq, Eq, Structural)]
pub struct WindowConfigure {
    /// The width the compositor proposes for the outer window, if any;
    /// nonzero when present.
    pub new_width: Option<u32>,
    /// The height the compositor proposes, if any; nonzero when present.
    pub new_height: Option<u32>,
    /// The decoration mode the compositor settled on.
    pub decoration_mode: DecorationMode,
    pub is_maximized: bool,
    pub is_fullscreen: bool,
    pub is_tiled: bool,
}

impl WindowConfigure {
    /// A proposed dimension is nonzero and within bounds.
    pub open spec fn wf(self) -> bool {
        &&& (self.new_width matches Some(w) ==> 1 <= w <= MAX_DIMENSION)
        &&& (self.new_height matches Some(h) ==> 1 <= h <= MAX_DIMENSION)
    }

    /// A stateless configure pins the window to no compositor-driven
    /// state: not maximized, not fullscreen, not tiled. Only then does the
    /// window's own fallback size track resizes.
    pub open spec fn spec_is_stateless(self) -> bool {
        !(self.is_maximized || self.is_fullscreen || self.is_tiled)
    }

    pub fn is_stateless(&self) -> (b: bool)
        ensures
            b == self.spec_is_stateless(),
    {
        !(self.is_maximized || self.is_fullscreen || self.is_tiled)
    }
}

/// The client-side decoration frame, as the lifecycle machine sees it:
/// its border widths and whether it is hidden.
#[derive(Clone, Copy, Debug, PartialEq, Eq, Structural)]
pub struct Frame {
    pub insets: FrameInsets,
    pub hidden: bool,
}

impl Frame {
    pub open spec fn wf(self) -> bool {
        &&& self.insets.left <= MAX_INSET
        &&& self.insets.top <= MAX_INSET
        &&& self.insets.right <= MAX_INSET
        &&& self.insets.bottom <= MAX_INSET
    }
}

/// A content dimension derived from an outer one: the border widths are
/// taken off, and a proposal too small to hold any content at all falls
/// back to the smallest representable dimension rather than zero.
pub open spec fn spec_inner_dim(outer: u32, borders: int) -> u32 {
    if outer > borders {
        (outer - borders) as u32
    } else {
        1u32
    }
}

/// The native surface work one `set_size` decides on; the embedder
/// performs it in this order.
#[derive(Clone, Copy, Debug, PartialEq, Eq, Structural)]
pub struct SetSizeEffects {
    /// Resize the decoration frame to the content size — only when a
    /// frame exists and is not hidden.
    pub resize_frame: Option<WindowSize>,
    /// The top-left of the outer geometry relative to the main surface:
    /// the frame, when present, extends left and up from the content.
    pub geometry_origin: WindowPoint,
    /// The outer window geometry: content size plus frame borders, or the
    /// content size alone when no frame exists.
    pub outer_size: WindowSize,
    /// The viewport destination (the content size), for fractional
    /// scaling.
    pub viewport_destination: WindowSize,
}

/// Lifecycle and geometry state of one window.
pub struct Window {
    /// Stable id of the native surface, unique among live windows.
    id: u64,
    /// The window title, shown by the decoration frame.
    title: String,
    /// Content size, without client-side decorations.
    size: WindowSize,
    /// The content size the window had with no compositor state applied;
    /// the fallback when a configure leaves the size open.
    stateless_size: WindowSize,
    /// The client-side decoration frame, once one exists.
    frame: Option<Frame>,
    /// Whether building the frame failed once; not retried after that.
    csd_fails: bool,
    /// The last configure received, if any; until one arrives the window
    /// is unconfigured and must not be committed to.
    last_configure: Option<WindowConfigure>,
    /// Whether a repaint was requested and not yet performed.
    needs_redraw: bool,
}

impl Window {
    pub closed spec fn spec_id(self) -> u64 {
        self.id
    }

    pub closed spec fn spec_size(self) -> WindowSize {
        self.size
    }

    pub closed spec fn spec_stateless_size(self) -> WindowSize {
        self.stateless_size
    }

    pub closed spec fn spec_frame(self) -> Option<Frame> {
        self.frame
    }

    pub closed spec fn spec_csd_fails(self) -> bool {
        self.csd_fails
    }

    pub closed spec fn spec_last_configure(self) -> Option<WindowConfigure> {
        self.last_configure
    }

    pub closed spec fn spec_needs_redraw(self) -> bool {
        self.needs_redraw
    }

    pub closed spec fn spec_title(self) -> Seq<char> {
        self.title@
    }

    /// Sizes are positive and bounded, frame borders bounded, and any
    /// recorded configure well-formed.
    pub closed spec fn wf(self) -> bool {
        &&& 1 <= self.size.width <= MAX_DIMENSION
        &&& 1 <= self.size.height <= MAX_DIMENSION
        &&& 1 <= self.stateless_size.width <= MAX_DIMENSION
        &&& 1 <= self.stateless_size.height <= MAX_DIMENSION
        &&& (self.frame matches Some(f) ==> f.wf())
        &&& (self.last_configure matches Some(c) ==> c.wf())
    }

    /// A fresh, unconfigured window with the builder's initial content
    /// size; the fallback size starts out equal to it, a repaint is due as
    /// soon as the window can be drawn, and no decoration frame exists.
    pub fn new(id: u64, title: String, size: WindowSize) -> (w: Window)
        requires
            1 <= size.width <= MAX_DIMENSION,
            1 <= size.height <= MAX_DIMENSION,
        ensures
            w.wf(),
            w.spec_id() == id,
            w.spec_title() == title@,
            w.spec_size() == size,
            w.spec_stateless_size() == size,
            w.spec_frame() is None,
            !w.spec_csd_fails(),
            w.spec_last_configure() is None,
            w.spec_needs_redraw(),
    {
        Window {
            id,
            title,
            size,
            stateless_size: size,
            frame: None,
            csd_fails: false,
            last_configure: None,
            needs_redraw: true,
        }
    }

    /// Whether the first configure has arrived. Construction blocks the
    /// event loop until this holds, so callers never get an unconfigured
    /// handle.
    pub fn is_configured(&self) -> (b: bool)
        ensures
            b == (self.spec_last_configure() is Some),
    {
        self.last_configure.is_some()
    }

    /// Whether this configure calls for building the client-side frame:
    /// the compositor mandates client decoration, none exists yet, and no
    /// earlier attempt failed. The embedder attempts construction exactly
    /// when this holds and hands the outcome to [`Window::configure`].
    pub fn needs_frame_creation(&self, mode: DecorationMode) -> (b: bool)
        ensures
            b == (mode is Client && self.spec_frame() is None && !self.spec_csd_fails()),
    {
        matches!(mode, DecorationMode::Client) && self.frame.is_none() && !self.csd_fails
    }

    /// The content size this configure resolves to: the compositor's
    /// proposal with the frame borders taken off when a frame is up; with
    /// no full proposal, the stateless fallback size if the configure is
    /// stateless, else the current size.
    pub open spec fn spec_configure_size(
        configure: WindowConfigure,
        frame: Option<Frame>,
        size: WindowSize,
        stateless_size: WindowSize,
    ) -> WindowSize {
        match frame {
            Some(f) => match (configure.new_width, configure.new_height) {
                (Some(w), Some(h)) => WindowSize {
                    width: spec_inner_dim(w, f.insets.left + f.insets.right),
                    height: spec_inner_dim(h, f.insets.top + f.insets.bottom),
                },
                _ => if configure.spec_is_stateless() {
                    stateless_size
                } else {
                    size
                },
            },
            None => match (configure.new_width, configure.new_height) {
                (Some(w), Some(h)) => WindowSize { width: w, height: h },
                _ => if configure.spec_is_stateless() {
                    stateless_size
                } else {
                    size
                },
            },
        }
    }

    /// Apply one compositor configure.
    ///
    /// `frame_outcome` is the result of the frame construction the
    /// embedder attempted because [`Window::needs_frame_creation`] held:
    /// the new frame's borders, or `None` for a failure, which is cached
    /// so construction is not retried on every configure. When no attempt
    /// was called for the argument is ignored.
    ///
    /// Decides the frame (built, kept, or dropped for server decorations),
    /// resolves the content size, records the configure, and applies the
    /// resolved size as [`Window::set_size`] does. Returns the resolved
    /// content size — the embedder reports it to the handler — and the
    /// surface effects of the size application.
    pub fn configure(&mut self, configure: WindowConfigure, frame_outcome: Option<FrameInsets>) -> (r: (WindowSize, SetSizeEffects))
        requires
            old(self).wf(),
            configure.wf(),
            frame_outcome matches Some(i) ==> i.left <= MAX_INSET && i.top <= MAX_INSET
                && i.right <= MAX_INSET && i.bottom <= MAX_INSET,
        ensures
            final(self).wf(),
            final(self).spec_last_configure() == Some(configure),
            // The frame decision.
            final(self).spec_frame() == (if configure.decoration_mode is Client
                && old(self).spec_frame() is None && !old(self).spec_csd_fails() {
                match frame_outcome {
                    Some(insets) => Some(Frame { insets, hidden: false }),
                    None => None::<Frame>,
                }
            } else if configure.decoration_mode is Server {
                None::<Frame>
            } else {
                old(self).spec_frame()
            }),
            final(self).spec_csd_fails() == (old(self).spec_csd_fails() || (
            configure.decoration_mode is Client && old(self).spec_frame() is None && !old(
                self,
            ).spec_csd_fails() && frame_outcome is None)),
            // The resolved content size.
            r.0 == Window::spec_configure_size(
                configure,
                final(self).spec_frame(),
                old(self).spec_size(),
                old(self).spec_stateless_size(),
            ),
            final(self).spec_size() == r.0,
            // The fallback size tracks the new size exactly for stateless
            // configures.
            final(self).spec_stateless_size() == (if configure.spec_is_stateless() {
                r.0
            } else {
                old(self).spec_stateless_size()
            }),
            r.1 == Window::spec_set_size_effects(final(self).spec_frame(), r.0),
            final(self).spec_id() == old(self).spec_id(),
            final(self).spec_needs_redraw() == old(self).spec_needs_redraw(),
    {
        if self.needs_frame_creation(configure.decoration_mode) {
            match frame_outcome {
                Some(insets) => {
                    self.frame = Some(Frame { insets, hidden: false });
                },
                None => {
                    self.csd_fails = true;
                },
            }
        } else if matches!(configure.decoration_mode, DecorationMode::Server) {
            self.frame = None;
        }

        let stateless = configure.is_stateless();

        let new_size = match self.frame {
            Some(f) => match (configure.new_width, configure.new_height) {
                (Some(w), Some(h)) => {
                    let horizontal = f.insets.left + f.insets.right;
                    let vertical = f.insets.top + f.insets.bottom;
                    let width = if w > horizontal {
                        w - horizontal
                    } else {
                        1
                    };
                    let height = if h > vertical {
                        h - vertical
                    } else {
                        1
                    };
                    WindowSize { width, height }
                },
                _ => if stateless {
                    self.stateless_size
                } else {
                    self.size
                },
            },
            None => match (configure.new_width, configure.new_height) {
                (Some(w), Some(h)) => WindowSize { width: w, height: h },
                _ => if stateless {
                    self.stateless_size
                } else {
                    self.size
                },
            },
        };

        self.last_configure = Some(configure);

        let effects = self.set_size(new_size);
        (new_size, effects)
    }

    /// The surface work that applying content size `size` entails with
    /// frame state `frame`.
    pub open spec fn spec_set_size_effects(frame: Option<Frame>, size: WindowSize) -> SetSizeEffects {
        match frame {
            Some(f) => SetSizeEffects {
                resize_frame: if f.hidden {
                    None
                } else {
                    Some(size)
                },
                geometry_origin: WindowPoint {
                    x: -(f.insets.left as int) as i64,
                    y: -(f.insets.top as int) as i64,
                },
                outer_size: WindowSize {
                    width: (size.width + f.insets.left + f.insets.right) as u32,
                    height: (size.height + f.insets.top + f.insets.bottom) as u32,
                },
                viewport_destination: size,
            },
            None => SetSizeEffects {
                resize_frame: None,
                geometry_origin: WindowPoint { x: 0, y: 0 },
                outer_size: size,
                viewport_destination: size,
            },
        }
    }

    /// Set the content size. Records the size (so [`Window::get_size`]
    /// returns it from now on), lets the stateless fallback track it when
    /// the window is under no compositor state, and returns the surface
    /// effects: the frame resize, and the outer geometry — the content
    /// size with the frame borders added back on, anchored so the frame
    /// extends up and left.
    pub fn set_size(&mut self, size: WindowSize) -> (effects: SetSizeEffects)
        requires
            old(self).wf(),
            1 <= size.width <= MAX_DIMENSION,
            1 <= size.height <= MAX_DIMENSION,
        ensures
            final(self).wf(),
            final(self).spec_size() == size,
            final(self).spec_stateless_size() == (if old(self).spec_last_configure() matches Some(
                c,
            ) && c.spec_is_stateless() {
                size
            } else {
                old(self).spec_stateless_size()
            }),
            effects == Window::spec_set_size_effects(old(self).spec_frame(), size),
            final(self).spec_frame() == old(self).spec_frame(),
            final(self).spec_last_configure() == old(self).spec_last_configure(),
            final(self).spec_csd_fails() == old(self).spec_csd_fails(),
            final(self).spec_needs_redraw() == old(self).spec_needs_redraw(),
            final(self).spec_id() == old(self).spec_id(),
            final(self).spec_title() == old(self).spec_title(),
    {
        self.size = size;

        let stateless = match &self.last_configure {
            Some(c) => c.is_stateless(),
            None => false,
        };
        if stateless {
            self.stateless_size = size;
        }

        match &self.frame {
            Some(f) => {
                let resize_frame = if f.hidden {
                    None
                } else {
                    Some(size)
                };
                let gx: i64 = 0i64 - (f.insets.left as i64);
                let gy: i64 = 0i64 - (f.insets.top as i64);
                SetSizeEffects {
                    resize_frame,
                    geometry_origin: WindowPoint { x: gx, y: gy },
                    outer_size: WindowSize {
                        width: size.width + f.insets.left + f.insets.right,
                        height: size.height + f.insets.top + f.insets.bottom,
                    },
                    viewport_destination: size,
                }
            },
            None => SetSizeEffects {
                resize_frame: None,
                geometry_origin: WindowPoint { x: 0, y: 0 },
                outer_size: size,
                viewport_destination: size,
            },
        }
    }

    /// The window's content size, without client-side decorations.
    pub fn get_size(&self) -> (size: WindowSize)
        ensures
            size == self.spec_size(),
    {
        self.size
    }

    /// The stable numeric id native callbacks use to find this window.
    pub fn id(&self) -> (id: u64)
        ensures
            id == self.spec_id(),
    {
        self.id
    }

    /// Request a repaint on the next redraw pass, without invalidating any
    /// particular region.
    pub fn request_anim_frame(&mut self)
        ensures
            final(self).spec_needs_redraw(),
            final(self).spec_size() == old(self).spec_size(),
            final(self).spec_stateless_size() == old(self).spec_stateless_size(),
            final(self).spec_frame() == old(self).spec_frame(),
            final(self).spec_last_configure() == old(self).spec_last_configure(),
            final(self).spec_csd_fails() == old(self).spec_csd_fails(),
            final(self).spec_id() == old(self).spec_id(),
            final(self).spec_title() == old(self).spec_title(),
            final(self).wf() == old(self).wf(),
    {
        self.needs_redraw = true;
    }

    /// Request a repaint of the entire window contents.
    pub fn invalidate(&mut self)
        ensures
            final(self).spec_needs_redraw(),
            final(self).spec_size() == old(self).spec_size(),
            final(self).spec_stateless_size() == old(self).spec_stateless_size(),
            final(self).spec_frame() == old(self).spec_frame(),
            final(self).spec_last_configure() == old(self).spec_last_configure(),
            final(self).spec_csd_fails() == old(self).spec_csd_fails(),
            final(self).spec_id() == old(self).spec_id(),
            final(self).spec_title() == old(self).spec_title(),
            final(self).wf() == old(self).wf(),
    {
        self.needs_redraw = true;
    }

    /// Request a repaint; the invalidated rectangle is tracked by the
    /// embedder's damage handling, the lifecycle machine only records that
    /// a repaint is due.
    pub fn invalidate_rect(&mut self)
        ensures
            final(self).spec_needs_redraw(),
            final(self).spec_size() == old(self).spec_size(),
            final(self).spec_stateless_size() == old(self).spec_stateless_size(),
            final(self).spec_frame() == old(self).spec_frame(),
            final(self).spec_last_configure() == old(self).spec_last_configure(),
            final(self).spec_csd_fails() == old(self).spec_csd_fails(),
            final(self).spec_id() == old(self).spec_id(),
            final(self).spec_title() == old(self).spec_title(),
            final(self).wf() == old(self).wf(),
    {
        self.needs_redraw = true;
    }

    /// One redraw pass: whether the handler must paint now — a repaint was
    /// requested, or the decoration frame redrew itself (`frame_dirty`,
    /// reported by the embedder) — clearing the request either way.
    pub fn redraw(&mut self, frame_dirty: bool) -> (paint: bool)
        ensures
            paint == (old(self).spec_needs_redraw() || frame_dirty),
            !final(self).spec_needs_redraw(),
            final(self).spec_size() == old(self).spec_size(),
            final(self).spec_stateless_size() == old(self).spec_stateless_size(),
            final(self).spec_frame() == old(self).spec_frame(),
            final(self).spec_last_configure() == old(self).spec_last_configure(),
            final(self).spec_csd_fails() == old(self).spec_csd_fails(),
            final(self).spec_id() == old(self).spec_id(),
            final(self).spec_title() == old(self).spec_title(),
            final(self).wf() == old(self).wf(),
    {
        let paint = self.needs_redraw || frame_dirty;
        self.needs_redraw = false;
        paint
    }

    /// Show or hide the client-side titlebar; without a frame this is a
    /// no-op.
    pub fn show_titlebar(&mut self, show: bool)
        ensures
            final(self).spec_frame() == (match old(self).spec_frame() {
                Some(f) => Some(Frame { hidden: !show, ..f }),
                None => None::<Frame>,
            }),
            final(self).spec_size() == old(self).spec_size(),
            final(self).spec_stateless_size() == old(self).spec_stateless_size(),
            final(self).spec_last_configure() == old(self).spec_last_configure(),
            final(self).spec_csd_fails() == old(self).spec_csd_fails(),
            final(self).spec_needs_redraw() == old(self).spec_needs_redraw(),
            final(self).spec_id() == old(self).spec_id(),
            final(self).spec_title() == old(self).spec_title(),
            final(self).wf() == old(self).wf(),
    {
        match &mut self.frame {
            Some(f) => {
                f.hidden = !show;
            },
            None => {},
        }
    }
}

/// The batched window update a compositor dispatch produces, applied
/// atomically so conflicting updates from one batch cannot be applied
/// halfway.
#[derive(Clone, Copy, Debug, PartialEq, Eq, Structural)]
pub struct WindowCompositorUpdate {
    /// The id of the window this update belongs to.
    pub window_id: u64,
    /// New content size, if it changed.
    pub size: Option<WindowSize>,
    /// New scale factor, in hundredths, if it changed.
    pub scale_factor: Option<u32>,
    /// Close the window.
    pub close_window: bool,
}

impl WindowCompositorUpdate {
    pub fn new(window_id: u64) -> (u: WindowCompositorUpdate)
        ensures
            u.window_id == window_id,
            u.size is None,
            u.scale_factor is None,
            !u.close_window,
    {
        WindowCompositorUpdate { window_id, size: None, scale_factor: None, close_window: false }
    }
}

/// A window's scale factor per axis, in whole units.
#[derive(Clone, Copy, Debug, PartialEq, Eq, Structural)]
pub struct Scale {
    pub x: u32,
    pub y: u32,
}

/// The scale of a window, from the integer scale factor of the monitor
/// it is on: the same factor on both axes. Without a current monitor the
/// scale is unavailable — a recoverable per-operation error.
pub fn scale_from_monitor(scale_factor: Option<u32>) -> (r: Result<
    Scale,
    crate::error::Error,
>)
    ensures
        r matches Ok(s) ==> scale_factor == Some(s.x) && s.x == s.y,
        r is Ok <==> scale_factor is Some,
        r matches Err(e) ==> e is String,
{
    match scale_factor {
        Some(f) => Ok(Scale { x: f, y: f }),
        None => Err(crate::error::Error::string("cannot determine the current monitor")),
    }
}

/// Outer geometry keeps the content size intact: whatever the frame state,
/// applying a content size leaves `get_size` at exactly that size, while
/// the outer size is the content size plus the frame borders — with a
/// frame of only a top border, a window set to some content size gets an
/// outer geometry exactly that much taller.
pub proof fn lemma_outer_size_adds_borders(frame: Option<Frame>, size: WindowSize)
    requires
        frame matches Some(f) ==> f.wf(),
        1 <= size.width <= MAX_DIMENSION,
        1 <= size.height <= MAX_DIMENSION,
    ensures
        Window::spec_set_size_effects(frame, size).viewport_destination == size,
        frame matches Some(f) ==> Window::spec_set_size_effects(frame, size).outer_size
            == (WindowSize {
            width: (size.width + f.insets.left + f.insets.right) as u32,
            height: (size.height + f.insets.top + f.insets.bottom) as u32,
        }),
        frame is None ==> Window::spec_set_size_effects(frame, size).outer_size == size,
{
}

} // verus!
