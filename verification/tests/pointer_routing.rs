//! Pointer frame routing and click bookkeeping.

use glazier::input::{Modifiers, PointerButton, PointerButtons};
use glazier::pointer::{
    frame_action_to_window_op, ClickState, FrameAction, FrameWindowOp, PointerAction,
    PointerFocus, PointerFrameEvent, PointerFrameKind, WindowPointers,
};

fn ev(kind: PointerFrameKind, on_decorations: bool) -> PointerFrameEvent {
    PointerFrameEvent { kind, window_id: 5, on_decorations, x: 30, y: 40 }
}

#[test]
fn content_events_become_handler_events() {
    let mut focus = PointerFocus::new();
    let mods = Modifiers::empty();

    let action = glazier::pointer::pointer_frame_event(
        &mut focus,
        ev(PointerFrameKind::Enter { serial: 1 }, false),
        mods,
    );
    match action {
        PointerAction::PointerEntered { event } => {
            assert_eq!((event.x, event.y), (30, 40));
        }
        other => panic!("enter must register the pointer, got {:?}", other),
    }
    assert_eq!(focus.surface, Some(5));

    let action = glazier::pointer::pointer_frame_event(
        &mut focus,
        ev(PointerFrameKind::Press { button: 0x110, serial: 9 }, false),
        mods,
    );
    match action {
        PointerAction::Button { pressed, event } => {
            assert!(pressed);
            assert_eq!(event.button, PointerButton::Primary);
        }
        other => panic!("press must reach the handler, got {:?}", other),
    }
    assert_eq!(focus.latest_button_serial, 9, "interactive moves quote this serial");

    let action = glazier::pointer::pointer_frame_event(
        &mut focus,
        ev(PointerFrameKind::Leave { serial: 2 }, false),
        mods,
    );
    assert_eq!(action, PointerAction::PointerLeft);
    assert_eq!(focus.surface, None);
}

#[test]
fn wheel_events_carry_normalized_deltas() {
    let mut focus = PointerFocus::new();
    let action = glazier::pointer::pointer_frame_event(
        &mut focus,
        ev(
            PointerFrameKind::Axis { h_discrete: 0, v_discrete: 2, h_absolute: 0, v_absolute: 30 },
            false,
        ),
        Modifiers::empty(),
    );
    match action {
        PointerAction::Wheel { event } => assert_eq!((event.wheel.x, event.wheel.y), (0, -2)),
        other => panic!("axis must become a wheel event, got {:?}", other),
    }
}

#[test]
fn decoration_events_drive_the_frame_not_the_handler() {
    let mut focus = PointerFocus::new();
    let mods = Modifiers::empty();

    let action = glazier::pointer::pointer_frame_event(
        &mut focus,
        ev(PointerFrameKind::Motion, true),
        mods,
    );
    assert_eq!(action, PointerAction::FramePointMoved { x: 30, y: 40 });

    let action = glazier::pointer::pointer_frame_event(
        &mut focus,
        ev(PointerFrameKind::Press { button: 0x110, serial: 3 }, true),
        mods,
    );
    assert_eq!(action, PointerAction::FrameClick { alternate: false, pressed: true, serial: 3 });

    let action = glazier::pointer::pointer_frame_event(
        &mut focus,
        ev(PointerFrameKind::Press { button: 0x111, serial: 4 }, true),
        mods,
    );
    assert_eq!(action, PointerAction::FrameClick { alternate: true, pressed: true, serial: 4 });

    // A middle click on the titlebar does nothing.
    let action = glazier::pointer::pointer_frame_event(
        &mut focus,
        ev(PointerFrameKind::Press { button: 0x112, serial: 5 }, true),
        mods,
    );
    assert_eq!(action, PointerAction::Dropped);
    assert_eq!(focus.surface, None, "decoration events do not change pointer focus");

    let action = glazier::pointer::pointer_frame_event(
        &mut focus,
        ev(PointerFrameKind::Leave { serial: 6 }, true),
        mods,
    );
    assert_eq!(action, PointerAction::FramePointLeft);
}

#[test]
fn focusing_click_is_reported_once() {
    let mut clicks = ClickState::new();
    clicks.accepts_first_mouse();
    assert!(clicks.mouse_down_focus(PointerButton::Primary));
    assert!(!clicks.mouse_down_focus(PointerButton::Secondary));

    let (focus, _) = clicks.mouse_up_flags(PointerButton::Primary, PointerButtons::new());
    assert!(focus, "the primary release ends the focusing click");
    let (focus, _) = clicks.mouse_up_flags(PointerButton::Primary, PointerButtons::new());
    assert!(!focus, "the flag was consumed");
}

#[test]
fn release_after_exit_reports_the_leave() {
    let mut clicks = ClickState::new();
    clicks.mouse_entered();
    clicks.mouse_exited();
    // A button is still held: events keep flowing.
    let mut held = PointerButtons::new();
    held.insert(PointerButton::Secondary);
    let (_, leave) = clicks.mouse_up_flags(PointerButton::Primary, held);
    assert!(!leave, "buttons are still down");
    // The last button comes up after the exit: the handler must now be
    // told the pointer left.
    let (_, leave) = clicks.mouse_up_flags(PointerButton::Secondary, PointerButtons::new());
    assert!(leave);
}

#[test]
fn mouse_event_assembly() {
    let mods = glazier::input::event_to_mods(1, 0);
    let event = glazier::pointer::PointerEvent::mouse(
        12,
        34,
        2,
        true,
        PointerButton::Primary,
        glazier::input::WheelDelta { x: 0, y: 0 },
        0b11,
        mods,
    );
    assert_eq!((event.x, event.y), (12, 34));
    assert_eq!(event.count, 2);
    assert!(event.focus);
    assert!(event.buttons.primary && event.buttons.secondary);
    assert!(!event.buttons.auxiliary);
    assert_eq!(event.mods.bits, Modifiers::SHIFT);
}

#[test]
fn frame_actions_resolve_to_window_ops() {
    assert_eq!(frame_action_to_window_op(FrameAction::Minimize, 1), FrameWindowOp::SetMinimized);
    assert_eq!(frame_action_to_window_op(FrameAction::Maximize, 1), FrameWindowOp::SetMaximized);
    assert_eq!(
        frame_action_to_window_op(FrameAction::UnMaximize, 1),
        FrameWindowOp::UnsetMaximized
    );
    assert_eq!(frame_action_to_window_op(FrameAction::Close, 1), FrameWindowOp::QueueClose);
    assert_eq!(
        frame_action_to_window_op(FrameAction::Move, 7),
        FrameWindowOp::InteractiveMove { serial: 7 }
    );
    assert_eq!(
        frame_action_to_window_op(FrameAction::Resize { edge: 3 }, 7),
        FrameWindowOp::InteractiveResize { serial: 7, edge: 3 }
    );
    assert_eq!(
        frame_action_to_window_op(FrameAction::ShowMenu { x: 10, y: 20 }, 7),
        FrameWindowOp::ShowWindowMenu { serial: 7, x: 10, y: 20 }
    );
}

#[test]
fn pointers_register_and_unregister_per_window() {
    let mut pointers = WindowPointers::new();
    pointers.pointer_entered(1);
    pointers.pointer_entered(2);
    pointers.pointer_entered(1);
    assert_eq!(pointers.len(), 3);
    pointers.pointer_left(1);
    assert_eq!(pointers.len(), 1, "every registration of the leaving pointer goes");
    pointers.pointer_left(9);
    assert_eq!(pointers.len(), 1, "an unknown pointer leaves nothing to remove");
    pointers.pointer_left(2);
    assert_eq!(pointers.len(), 0);
}
