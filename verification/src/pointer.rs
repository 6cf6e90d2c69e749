//! Pointer event routing: the per-pointer focus state, the dispatch of
//! compositor pointer frames between a window's content and its
//! decoration frame, and the normalized pointer event itself.
//!
//! Events whose surface is the decoration subsurface drive the frame
//! (hover icons, titlebar clicks); events on the content surface become
//! normalized pointer events for the window's handler. An event naming a
//! window that is no longer registered is silently dropped by the
//! embedder — an expected race with window teardown, not an error.

use vstd::prelude::*;

use crate::input::{
    axis_delta,
    wayland_button_to_glazier,
    Modifiers,
    MouseButton,
    PointerButton,
    PointerButtons,
    WheelDelta,
};

verus! {

/// A normalized pointer event, ready for a window handler.
#[derive(Clone, Copy, Debug, PartialEq, Eq, Structural)]
pub struct PointerEvent {
    /// Window-local position, origin top-left, y-down.
    pub x: i64,
    pub y: i64,
    /// The buttons held down after this event.
    pub buttons: PointerButtons,
    /// The modifier set at event time.
    pub mods: Modifiers,
    /// The button this event is about, if it is a button event.
    pub button: PointerButton,
    /// Whether this click also focused the window.
    pub focus: bool,
    /// Click count for multi-click gestures; zero when not a click.
    pub count: u8,
    /// Accumulated wheel delta.
    pub wheel: WheelDelta,
}

impl PointerEvent {
    /// A pointer event with nothing set: no button, empty button set, no
    /// modifiers, at the origin.
    pub fn empty() -> (e: PointerEvent)
        ensures
            e.x == 0 && e.y == 0,
            e.buttons.spec_is_empty(),
            e.mods.bits == 0,
            e.button is NoButton,
            !e.focus,
            e.count == 0,
            e.wheel.x == 0 && e.wheel.y == 0,
    {
        PointerEvent {
            x: 0,
            y: 0,
            buttons: PointerButtons::new(),
            mods: Modifiers { bits: 0 },
            button: PointerButton::NoButton,
            focus: false,
            count: 0,
            wheel: WheelDelta { x: 0, y: 0 },
        }
    }

    /// Assemble a mouse pointer event from the native pieces: the
    /// view-local position, click count, focus flag, the button concerned,
    /// the wheel delta, and the native pressed-buttons mask and modifier
    /// set.
    pub fn mouse(
        x: i64,
        y: i64,
        count: u8,
        focus: bool,
        button: PointerButton,
        wheel: WheelDelta,
        pressed_mask: u64,
        mods: Modifiers,
    ) -> (e: PointerEvent)
        ensures
            e.x == x && e.y == y,
            e.count == count,
            e.focus == focus,
            e.button == button,
            e.wheel == wheel,
            e.mods == mods,
            e.buttons.primary == (pressed_mask & 1 != 0),
            e.buttons.secondary == (pressed_mask & 2 != 0),
            e.buttons.auxiliary == (pressed_mask & 4 != 0),
            e.buttons.x1 == (pressed_mask & 8 != 0),
            e.buttons.x2 == (pressed_mask & 16 != 0),
    {
        PointerEvent {
            x,
            y,
            buttons: crate::input::get_mouse_buttons(pressed_mask),
            mods,
            button,
            focus,
            count,
            wheel,
        }
    }
}

/// Per-pointer focus bookkeeping.
#[derive(Clone, Copy, Debug, PartialEq, Eq, Structural)]
pub struct PointerFocus {
    /// The window the pointer is over, if any.
    pub surface: Option<u64>,
    /// Serial of the last button event; interactive moves and resizes
    /// must quote it.
    pub latest_button_serial: u32,
}

impl PointerFocus {
    pub fn new() -> (p: PointerFocus)
        ensures
            p.surface is None,
            p.latest_button_serial == 0,
    {
        PointerFocus { surface: None, latest_button_serial: 0 }
    }
}

/// One event of a compositor pointer frame, reduced to plain values. The
/// embedder resolves the event's surface to the owning window and notes
/// whether the event hit the decoration subsurface rather than the
/// content.
#[derive(Clone, Copy, Debug, PartialEq, Eq, Structural)]
pub enum PointerFrameKind {
    Enter { serial: u32 },
    Leave { serial: u32 },
    Motion,
    Press { button: u32, serial: u32 },
    Release { button: u32, serial: u32 },
    Axis { h_discrete: i32, v_discrete: i32, h_absolute: i64, v_absolute: i64 },
}

/// One pointer-frame event in context.
#[derive(Clone, Copy, Debug, PartialEq, Eq, Structural)]
pub struct PointerFrameEvent {
    pub kind: PointerFrameKind,
    /// The window owning the surface the event names.
    pub window_id: u64,
    /// Whether the event hit the decoration subsurface.
    pub on_decorations: bool,
    /// Surface-local position.
    pub x: i64,
    pub y: i64,
}

/// What the embedder must do with one pointer-frame event.
#[derive(Clone, Copy, Debug, PartialEq, Eq, Structural)]
pub enum PointerAction {
    /// Ask the decoration frame for the hover icon at the position and
    /// apply it to the cursor.
    FramePointMoved { x: i64, y: i64 },
    /// Tell the decoration frame the pointer left it.
    FramePointLeft,
    /// Hand a click to the decoration frame; `alternate` is a right
    /// click, otherwise a left click.
    FrameClick { alternate: bool, pressed: bool, serial: u32 },
    /// The pointer entered the window: register it there and deliver a
    /// pointer-move at the entry position.
    PointerEntered { event: PointerEvent },
    /// The pointer left the window: unregister it and deliver the leave.
    PointerLeft,
    /// Deliver a pointer move.
    Move { event: PointerEvent },
    /// Deliver a button press or release.
    Button { pressed: bool, event: PointerEvent },
    /// Deliver a wheel event.
    Wheel { event: PointerEvent },
    /// Nothing: the event concerns a button this layer does not handle.
    Dropped,
}

/// Route one event of a pointer frame: decoration events go to the frame,
/// content events become normalized handler events, and the focus state
/// tracks enters, leaves and button serials.
pub fn pointer_frame_event(focus: &mut PointerFocus, ev: PointerFrameEvent, mods: Modifiers) -> (action: PointerAction)
    requires
        ev.kind matches PointerFrameKind::Axis { h_absolute, v_absolute, .. } ==> -0x1000_0000_0000
            <= h_absolute <= 0x1000_0000_0000 && -0x1000_0000_0000 <= v_absolute
            <= 0x1000_0000_0000,
    ensures
        // Decoration routing.
        ev.on_decorations ==> final(focus).latest_button_serial == old(
            focus,
        ).latest_button_serial && final(focus).surface == old(focus).surface,
        ev.on_decorations ==> action == (match ev.kind {
            PointerFrameKind::Enter { .. } => PointerAction::FramePointMoved { x: ev.x, y: ev.y },
            PointerFrameKind::Motion => PointerAction::FramePointMoved { x: ev.x, y: ev.y },
            PointerFrameKind::Leave { .. } => PointerAction::FramePointLeft,
            PointerFrameKind::Press { button, serial } => spec_frame_click(button, true, serial),
            PointerFrameKind::Release { button, serial } => spec_frame_click(
                button,
                false,
                serial,
            ),
            PointerFrameKind::Axis { .. } => PointerAction::Dropped,
        }),
        // Content routing.
        !ev.on_decorations ==> {
            &&& (ev.kind matches PointerFrameKind::Enter { .. } ==> {
                &&& final(focus).surface == Some(ev.window_id)
                &&& final(focus).latest_button_serial == old(focus).latest_button_serial
                &&& action matches PointerAction::PointerEntered { event } && event.x == ev.x
                    && event.y == ev.y && event.mods == mods && event.button is NoButton
            })
            &&& (ev.kind matches PointerFrameKind::Leave { .. } ==> {
                &&& final(focus).surface is None
                &&& final(focus).latest_button_serial == old(focus).latest_button_serial
                &&& action is PointerLeft
            })
            &&& (ev.kind is Motion ==> {
                &&& *final(focus) == *old(focus)
                &&& action matches PointerAction::Move { event } && event.x == ev.x && event.y
                    == ev.y && event.mods == mods
            })
            &&& (ev.kind matches PointerFrameKind::Press { button, serial } ==> {
                &&& final(focus).latest_button_serial == serial
                &&& final(focus).surface == old(focus).surface
                &&& action matches PointerAction::Button { pressed, event } && pressed
                    && event.button == spec_pointer_button_of(button) && event.x == ev.x && event.y
                    == ev.y && event.mods == mods
            })
            &&& (ev.kind matches PointerFrameKind::Release { button, serial } ==> {
                &&& final(focus).latest_button_serial == serial
                &&& final(focus).surface == old(focus).surface
                &&& action matches PointerAction::Button { pressed, event } && !pressed
                    && event.button == spec_pointer_button_of(button) && event.x == ev.x && event.y
                    == ev.y && event.mods == mods
            })
            &&& (ev.kind matches PointerFrameKind::Axis {
                h_discrete,
                v_discrete,
                h_absolute,
                v_absolute,
            } ==> {
                &&& *final(focus) == *old(focus)
                &&& action matches PointerAction::Wheel { event } && event.x == ev.x && event.y
                    == ev.y && event.mods == mods && event.wheel == spec_axis_wheel(
                    h_discrete,
                    v_discrete,
                    h_absolute,
                    v_absolute,
                )
            })
        },
{
    if ev.on_decorations {
        match ev.kind {
            PointerFrameKind::Enter { .. } | PointerFrameKind::Motion => {
                PointerAction::FramePointMoved { x: ev.x, y: ev.y }
            },
            PointerFrameKind::Leave { .. } => PointerAction::FramePointLeft,
            PointerFrameKind::Press { button, serial } => frame_click_action(button, true, serial),
            PointerFrameKind::Release { button, serial } => frame_click_action(
                button,
                false,
                serial,
            ),
            PointerFrameKind::Axis { .. } => PointerAction::Dropped,
        }
    } else {
        match ev.kind {
            PointerFrameKind::Enter { .. } => {
                focus.surface = Some(ev.window_id);
                let mut event = PointerEvent::empty();
                event.x = ev.x;
                event.y = ev.y;
                event.mods = mods;
                PointerAction::PointerEntered { event }
            },
            PointerFrameKind::Leave { .. } => {
                focus.surface = None;
                PointerAction::PointerLeft
            },
            PointerFrameKind::Motion => {
                let mut event = PointerEvent::empty();
                event.x = ev.x;
                event.y = ev.y;
                event.mods = mods;
                PointerAction::Move { event }
            },
            PointerFrameKind::Press { button, serial } => {
                focus.latest_button_serial = serial;
                let mut event = PointerEvent::empty();
                event.x = ev.x;
                event.y = ev.y;
                event.mods = mods;
                event.button = pointer_button_of(button);
                PointerAction::Button { pressed: true, event }
            },
            PointerFrameKind::Release { button, serial } => {
                focus.latest_button_serial = serial;
                let mut event = PointerEvent::empty();
                event.x = ev.x;
                event.y = ev.y;
                event.mods = mods;
                event.button = pointer_button_of(button);
                PointerAction::Button { pressed: false, event }
            },
            PointerFrameKind::Axis { h_discrete, v_discrete, h_absolute, v_absolute } => {
                let mut event = PointerEvent::empty();
                event.x = ev.x;
                event.y = ev.y;
                event.mods = mods;
                event.wheel = axis_delta(h_discrete, v_discrete, h_absolute, v_absolute);
                PointerAction::Wheel { event }
            },
        }
    }
}

/// The action a decoration click resolves to: only left and right clicks
/// reach the frame, anything else is dropped.
pub open spec fn spec_frame_click(button: u32, pressed: bool, serial: u32) -> PointerAction {
    if button == crate::input::BTN_LEFT {
        PointerAction::FrameClick { alternate: false, pressed, serial }
    } else if button == crate::input::BTN_RIGHT {
        PointerAction::FrameClick { alternate: true, pressed, serial }
    } else {
        PointerAction::Dropped
    }
}

fn frame_click_action(button: u32, pressed: bool, serial: u32) -> (action: PointerAction)
    ensures
        action == spec_frame_click(button, pressed, serial),
{
    match wayland_button_to_glazier(button) {
        MouseButton::Left => PointerAction::FrameClick { alternate: false, pressed, serial },
        MouseButton::Right => PointerAction::FrameClick { alternate: true, pressed, serial },
        _ => PointerAction::Dropped,
    }
}

/// The normalized button a compositor button code maps to.
pub open spec fn spec_pointer_button_of(button: u32) -> PointerButton {
    if button == crate::input::BTN_LEFT {
        PointerButton::Primary
    } else if button == crate::input::BTN_RIGHT {
        PointerButton::Secondary
    } else if button == crate::input::BTN_MIDDLE {
        PointerButton::Auxiliary
    } else {
        PointerButton::NoButton
    }
}

fn pointer_button_of(button: u32) -> (b: PointerButton)
    ensures
        b == spec_pointer_button_of(button),
{
    match wayland_button_to_glazier(button) {
        MouseButton::Left => PointerButton::Primary,
        MouseButton::Right => PointerButton::Secondary,
        MouseButton::Middle => PointerButton::Auxiliary,
        MouseButton::NoButton => PointerButton::NoButton,
    }
}

/// The wheel delta an axis event normalizes to.
pub open spec fn spec_axis_wheel(
    h_discrete: i32,
    v_discrete: i32,
    h_absolute: i64,
    v_absolute: i64,
) -> WheelDelta {
    if h_discrete != 0 || v_discrete != 0 {
        WheelDelta { x: -h_discrete as i64, y: -v_discrete as i64 }
    } else {
        WheelDelta { x: (-h_absolute) as i64, y: (-v_absolute) as i64 }
    }
}

/// What the decoration frame decided a titlebar click means.
#[derive(Clone, Copy, Debug, PartialEq, Eq, Structural)]
pub enum FrameAction {
    Minimize,
    Maximize,
    UnMaximize,
    Close,
    /// Start an interactive move.
    Move,
    /// Start an interactive resize from the given edge.
    Resize { edge: u32 },
    /// Show the window menu at the given position.
    ShowMenu { x: i32, y: i32 },
}

/// The native window call a frame action resolves to; interactive
/// operations quote the serial of the click that started them.
#[derive(Clone, Copy, Debug, PartialEq, Eq, Structural)]
pub enum FrameWindowOp {
    SetMinimized,
    SetMaximized,
    UnsetMaximized,
    /// Queue the window for closing through the compositor-update path.
    QueueClose,
    InteractiveMove { serial: u32 },
    InteractiveResize { serial: u32, edge: u32 },
    ShowWindowMenu { serial: u32, x: i32, y: i32 },
}

/// Resolve a decoration frame's click decision into the native window
/// call to make, quoting the click's serial where the compositor demands
/// one.
pub fn frame_action_to_window_op(action: FrameAction, serial: u32) -> (op: FrameWindowOp)
    ensures
        op == (match action {
            FrameAction::Minimize => FrameWindowOp::SetMinimized,
            FrameAction::Maximize => FrameWindowOp::SetMaximized,
            FrameAction::UnMaximize => FrameWindowOp::UnsetMaximized,
            FrameAction::Close => FrameWindowOp::QueueClose,
            FrameAction::Move => (FrameWindowOp::InteractiveMove { serial }),
            FrameAction::Resize { edge } => (FrameWindowOp::InteractiveResize { serial, edge }),
            FrameAction::ShowMenu { x, y } => (FrameWindowOp::ShowWindowMenu { serial, x, y }),
        }),
{
    match action {
        FrameAction::Minimize => FrameWindowOp::SetMinimized,
        FrameAction::Maximize => FrameWindowOp::SetMaximized,
        FrameAction::UnMaximize => FrameWindowOp::UnsetMaximized,
        FrameAction::Close => FrameWindowOp::QueueClose,
        FrameAction::Move => FrameWindowOp::InteractiveMove { serial },
        FrameAction::Resize { edge } => FrameWindowOp::InteractiveResize { serial, edge },
        FrameAction::ShowMenu { x, y } => FrameWindowOp::ShowWindowMenu { serial, x, y },
    }
}

/// The pointers currently over one window, by stable pointer id. Entering
/// registers a pointer, leaving removes every registration of it.
pub struct WindowPointers {
    pointers: Vec<u64>,
}

impl WindowPointers {
    pub closed spec fn view(self) -> Seq<u64> {
        self.pointers@
    }

    pub fn new() -> (p: WindowPointers)
        ensures
            p@ == Seq::<u64>::empty(),
    {
        WindowPointers { pointers: Vec::new() }
    }

    pub fn len(&self) -> (n: usize)
        ensures
            n == self@.len(),
    {
        self.pointers.len()
    }

    /// Register a pointer that entered the window.
    pub fn pointer_entered(&mut self, pointer_id: u64)
        requires
            old(self)@.len() < usize::MAX,
        ensures
            final(self)@ == old(self)@.push(pointer_id),
    {
        self.pointers.push(pointer_id);
    }

    /// Remove every registration of a pointer that left the window; the
    /// others keep their order.
    pub fn pointer_left(&mut self, pointer_id: u64)
        ensures
            final(self)@ == old(self)@.filter(|p: u64| p != pointer_id),
    {
        let ghost old_pointers = self.pointers@;
        let mut kept: Vec<u64> = Vec::new();
        let mut i: usize = 0;
        while i < self.pointers.len()
            invariant
                0 <= i <= self.pointers@.len(),
                self.pointers@ == old_pointers,
                kept@ == old_pointers.subrange(0, i as int).filter(|p: u64| p != pointer_id),
            decreases self.pointers@.len() - i,
        {
            proof {
                assert(old_pointers.subrange(0, i + 1).drop_last() == old_pointers.subrange(
                    0,
                    i as int,
                ));
                assert(old_pointers.subrange(0, i + 1).last() == old_pointers[i as int]);
                reveal(Seq::filter);
            }
            let p = self.pointers[i];
            if p != pointer_id {
                kept.push(p);
            }
            i = i + 1;
        }
        proof {
            assert(old_pointers.subrange(0, old_pointers.len() as int) == old_pointers);
        }
        self.pointers = kept;
    }
}

/// Click bookkeeping for platforms where the window system reports
/// focusing clicks and exit events out of band.
#[derive(Clone, Copy, Debug, PartialEq, Eq, Structural)]
pub struct ClickState {
    /// A click is about to focus the window; the next primary press
    /// carries the focus flag.
    pub focus_click: bool,
    /// The exit event already arrived; button events still flow while
    /// buttons are held.
    pub mouse_left: bool,
}

impl ClickState {
    pub fn new() -> (s: ClickState)
        ensures
            !s.focus_click,
            s.mouse_left,
    {
        ClickState { focus_click: false, mouse_left: true }
    }

    /// A click is coming that will focus the window.
    pub fn accepts_first_mouse(&mut self)
        ensures
            final(self).focus_click,
            final(self).mouse_left == old(self).mouse_left,
    {
        self.focus_click = true;
    }

    /// The pointer entered the view.
    pub fn mouse_entered(&mut self)
        ensures
            !final(self).mouse_left,
            final(self).focus_click == old(self).focus_click,
    {
        self.mouse_left = false;
    }

    /// The pointer left the view.
    pub fn mouse_exited(&mut self)
        ensures
            final(self).mouse_left,
            final(self).focus_click == old(self).focus_click,
    {
        self.mouse_left = true;
    }

    /// A button went down: whether this press is the focusing click — a
    /// primary press while a focusing click was pending.
    pub fn mouse_down_focus(&self, button: PointerButton) -> (focus: bool)
        ensures
            focus == (self.focus_click && button is Primary),
    {
        self.focus_click && matches!(button, PointerButton::Primary)
    }

    /// A button came up. The first result is whether this release ends
    /// the focusing click (which it then consumes); the second is whether
    /// the handler must additionally be told the pointer left — the exit
    /// event already came, and with the last button released no further
    /// pointer events will flow.
    pub fn mouse_up_flags(&mut self, button: PointerButton, buttons_after: PointerButtons) -> (r: (
        bool,
        bool,
    ))
        ensures
            r.0 == (old(self).focus_click && button is Primary),
            r.1 == (old(self).mouse_left && buttons_after.spec_is_empty()),
            final(self).focus_click == (old(self).focus_click && !(button is Primary)),
            final(self).mouse_left == old(self).mouse_left,
    {
        let focus = if self.focus_click && matches!(button, PointerButton::Primary) {
            self.focus_click = false;
            true
        } else {
            false
        };
        let leave = self.mouse_left && buttons_after.is_empty();
        (focus, leave)
    }
}

} // verus!
