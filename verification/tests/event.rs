use druid_shell::event::{
    get_mouse_button, get_mouse_buttons, scroll_factor, Delivery, MouseButton, MouseButtons,
    Notification, Router, WHEEL_SCALE,
};

fn left_down(in_drag_region: bool) -> Notification {
    Notification::MouseDown { button: MouseButton::Left, count: 1, in_drag_region }
}

fn left_up(pressed: u64) -> Notification {
    Notification::MouseUp { button: MouseButton::Left, count: 1, pressed }
}

#[test]
fn routing_begins_outside_the_view() {
    let router = Router::new();
    assert!(!router.focus_click);
    assert!(router.mouse_left);
    assert!(!router.drag_window);
    assert!(!router.is_dragging());
}

#[test]
fn button_down_in_a_drag_region_drags_and_suppresses_the_move() {
    let mut router = Router::new();
    let delivered = router.route(left_down(true));
    assert_eq!(
        delivered,
        vec![
            Delivery::PerformWindowDrag,
            Delivery::MouseDown { button: MouseButton::Left, count: 1, focus: false },
        ]
    );
    assert!(router.is_dragging());
    assert_eq!(router.route(Notification::MouseMoved), vec![]);
    assert_eq!(router.route(Notification::MouseMoved), vec![]);
    assert!(router.is_dragging());
}

#[test]
fn button_down_outside_drag_regions_never_drags() {
    let buttons = [
        MouseButton::Left,
        MouseButton::Right,
        MouseButton::Middle,
        MouseButton::X1,
        MouseButton::X2,
    ];
    for button in buttons {
        for count in [0u8, 1, 2, 3] {
            let mut router = Router::new();
            let delivered =
                router.route(Notification::MouseDown { button, count, in_drag_region: false });
            assert_eq!(delivered, vec![Delivery::MouseDown { button, count, focus: false }]);
            assert!(!router.is_dragging());
            assert_eq!(router.route(Notification::MouseMoved), vec![Delivery::MouseMove]);
        }
    }
}

#[test]
fn only_the_first_click_of_the_primary_button_drags() {
    let mut router = Router::new();
    router.route(Notification::MouseDown {
        button: MouseButton::Right,
        count: 1,
        in_drag_region: true,
    });
    assert!(!router.is_dragging());
    router.route(Notification::MouseDown { button: MouseButton::Left, count: 2, in_drag_region: true });
    assert!(!router.is_dragging());
    router.route(Notification::OtherMouseDown { number: 0, count: 1, in_drag_region: true });
    assert!(router.is_dragging());
    router.route(Notification::OtherMouseDown { number: 2, count: 1, in_drag_region: true });
    assert!(!router.is_dragging());
}

#[test]
fn button_up_ends_the_drag() {
    let mut router = Router::new();
    router.route(Notification::MouseEntered);
    router.route(left_down(true));
    assert_eq!(
        router.route(left_up(0)),
        vec![Delivery::MouseUp { button: MouseButton::Left, count: 1, focus: false }]
    );
    assert!(!router.is_dragging());
    assert_eq!(router.route(Notification::MouseMoved), vec![Delivery::MouseMove]);
}

#[test]
fn leave_is_delivered_once_after_the_last_button_up() {
    let mut router = Router::new();
    assert_eq!(router.route(Notification::MouseEntered), vec![Delivery::MouseMove]);
    router.route(left_down(false));
    assert_eq!(router.route(Notification::MouseExited), vec![Delivery::MouseLeave]);
    let delivered = router.route(left_up(0));
    assert_eq!(
        delivered,
        vec![
            Delivery::MouseUp { button: MouseButton::Left, count: 1, focus: false },
            Delivery::MouseLeave,
        ]
    );
}

#[test]
fn leave_follows_a_down_and_up_outside_the_view() {
    let mut router = Router::new();
    router.route(Notification::MouseExited);
    assert_eq!(
        router.route(Notification::MouseDown {
            button: MouseButton::Right,
            count: 1,
            in_drag_region: false
        }),
        vec![Delivery::MouseDown { button: MouseButton::Right, count: 1, focus: false }]
    );
    let delivered =
        router.route(Notification::MouseUp { button: MouseButton::Right, count: 1, pressed: 0 });
    assert_eq!(delivered.len(), 2);
    assert_eq!(delivered[1], Delivery::MouseLeave);
    assert_eq!(delivered.iter().filter(|d| **d == Delivery::MouseLeave).count(), 1);
}

#[test]
fn no_leave_while_a_button_is_held_or_after_entering() {
    let mut router = Router::new();
    router.route(Notification::MouseExited);
    let delivered = router.route(left_up(0b10));
    assert_eq!(
        delivered,
        vec![Delivery::MouseUp { button: MouseButton::Left, count: 1, focus: false }]
    );
    router.route(Notification::MouseEntered);
    let delivered = router.route(left_up(0));
    assert_eq!(
        delivered,
        vec![Delivery::MouseUp { button: MouseButton::Left, count: 1, focus: false }]
    );
}

#[test]
fn bits_beyond_the_known_buttons_hold_nothing() {
    let mut router = Router::new();
    let delivered = router.route(left_up(0b10_0000));
    assert_eq!(delivered.len(), 2);
    assert_eq!(delivered[1], Delivery::MouseLeave);
}

#[test]
fn focus_click_is_marked_on_its_down_and_up_only() {
    let mut router = Router::new();
    assert_eq!(router.route(Notification::AcceptsFirstMouse), vec![]);
    assert!(router.focus_click);
    router.route(Notification::MouseEntered);
    assert_eq!(
        router.route(left_down(false)),
        vec![Delivery::MouseDown { button: MouseButton::Left, count: 1, focus: true }]
    );
    assert_eq!(
        router.route(left_up(0)),
        vec![Delivery::MouseUp { button: MouseButton::Left, count: 1, focus: true }]
    );
    assert!(!router.focus_click);
    assert_eq!(
        router.route(left_down(false)),
        vec![Delivery::MouseDown { button: MouseButton::Left, count: 1, focus: false }]
    );
    assert_eq!(
        router.route(left_up(0)),
        vec![Delivery::MouseUp { button: MouseButton::Left, count: 1, focus: false }]
    );
}

#[test]
fn other_buttons_do_not_use_up_the_focus_click() {
    let mut router = Router::new();
    router.route(Notification::MouseEntered);
    router.route(Notification::AcceptsFirstMouse);
    let delivered =
        router.route(Notification::MouseUp { button: MouseButton::Right, count: 1, pressed: 0 });
    assert_eq!(
        delivered,
        vec![Delivery::MouseUp { button: MouseButton::Right, count: 1, focus: false }]
    );
    assert!(router.focus_click);
}

#[test]
fn wheel_is_scaled_and_trackpad_is_not() {
    let mut router = Router::new();
    assert_eq!(
        router.route(Notification::ScrollWheel { precise: false }),
        vec![Delivery::Wheel { factor: -32 }]
    );
    assert_eq!(
        router.route(Notification::ScrollWheel { precise: true }),
        vec![Delivery::Wheel { factor: -1 }]
    );
    assert_eq!(WHEEL_SCALE, 32);
    assert_eq!(1.0f64 * f64::from(scroll_factor(false)), -32.0);
    assert_eq!(1.0f64 * f64::from(scroll_factor(true)), -1.0);
}

#[test]
fn unhandled_key_down_goes_to_the_input_method() {
    let mut router = Router::new();
    assert_eq!(router.route(Notification::KeyDown), vec![Delivery::KeyDown]);
    assert_eq!(
        router.route(Notification::KeyDownReturned { handled: false }),
        vec![Delivery::InterpretKeyEvents]
    );
    assert_eq!(router.route(Notification::KeyDownReturned { handled: true }), vec![]);
    assert_eq!(router.route(Notification::KeyUp), vec![Delivery::KeyUp]);
}

#[test]
fn window_notifications_reach_the_handler() {
    let mut router = Router::new();
    assert_eq!(router.route(Notification::Magnify), vec![Delivery::Zoom]);
    assert_eq!(router.route(Notification::BecameKey), vec![Delivery::GotFocus]);
    assert_eq!(router.route(Notification::ResignedKey), vec![Delivery::LostFocus]);
    assert_eq!(router.route(Notification::ShouldClose), vec![Delivery::RequestClose]);
    assert_eq!(router.route(Notification::WillClose), vec![Delivery::Destroy]);
    assert_eq!(router, Router::new());
}

#[test]
fn unknown_button_numbers_are_dropped() {
    let mut router = Router::new();
    router.route(Notification::AcceptsFirstMouse);
    let before = router;
    let down = Notification::OtherMouseDown { number: 5, count: 1, in_drag_region: true };
    assert_eq!(router.route(down), vec![]);
    let up = Notification::OtherMouseUp { number: -1, count: 1, pressed: 0 };
    assert_eq!(router.route(up), vec![]);
    assert_eq!(router, before);
}

#[test]
fn numbered_buttons() {
    assert_eq!(get_mouse_button(0), Some(MouseButton::Left));
    assert_eq!(get_mouse_button(1), Some(MouseButton::Right));
    assert_eq!(get_mouse_button(2), Some(MouseButton::Middle));
    assert_eq!(get_mouse_button(3), Some(MouseButton::X1));
    assert_eq!(get_mouse_button(4), Some(MouseButton::X2));
    assert_eq!(get_mouse_button(5), None);
    assert_eq!(get_mouse_button(-1), None);
}

#[test]
fn buttons_of_a_mask() {
    let buttons = get_mouse_buttons(0b10101);
    assert!(buttons.contains(MouseButton::Left));
    assert!(!buttons.contains(MouseButton::Right));
    assert!(buttons.contains(MouseButton::Middle));
    assert!(!buttons.contains(MouseButton::X1));
    assert!(buttons.contains(MouseButton::X2));
    assert!(!buttons.contains(MouseButton::NoButton));
    assert!(!buttons.is_empty());
    assert!(get_mouse_buttons(0).is_empty());
    assert_eq!(get_mouse_buttons(0b01010), MouseButtons {
        left: false,
        right: true,
        middle: false,
        x1: true,
        x2: false,
    });
}

#[test]
fn inserting_buttons() {
    let mut buttons = MouseButtons::new();
    assert!(buttons.is_empty());
    buttons.insert(MouseButton::NoButton);
    assert!(buttons.is_empty());
    buttons.insert(MouseButton::X1);
    buttons.insert(MouseButton::Left);
    assert!(buttons.contains(MouseButton::X1));
    assert!(buttons.contains(MouseButton::Left));
    assert!(!buttons.contains(MouseButton::Right));
    assert_eq!(buttons, get_mouse_buttons(0b1001));
}

#[test]
fn modifier_changes_are_key_events() {
    let mut router = Router::new();
    assert_eq!(router.route(Notification::ModifiersChanged { down: true }), vec![Delivery::KeyDown]);
    assert_eq!(router.route(Notification::ModifiersChanged { down: false }), vec![Delivery::KeyUp]);
}

#[test]
fn mouse_down_in_a_drag_region_asks_for_the_drag_once() {
    let mut router = Router::new();
    let delivered = router.mouse_down(MouseButton::Left, 1, true);
    assert!(router.drag_window);
    assert_eq!(delivered.iter().filter(|d| **d == Delivery::PerformWindowDrag).count(), 1);
    assert_eq!(delivered[0], Delivery::PerformWindowDrag);
    assert_eq!(
        delivered[1],
        Delivery::MouseDown { button: MouseButton::Left, count: 1, focus: false }
    );
}

#[test]
fn mouse_down_outside_drag_regions_ends_a_drag() {
    let mut router = Router { focus_click: false, mouse_left: false, drag_window: true };
    let delivered = router.mouse_down(MouseButton::Left, 1, false);
    assert!(!router.drag_window);
    assert_eq!(
        delivered,
        vec![Delivery::MouseDown { button: MouseButton::Left, count: 1, focus: false }]
    );
}

#[test]
fn mouse_up_of_the_last_button_outside_the_view_leaves() {
    let mut router = Router { focus_click: false, mouse_left: true, drag_window: true };
    let delivered = router.mouse_up(MouseButton::Middle, 2, 0);
    assert_eq!(
        delivered,
        vec![
            Delivery::MouseUp { button: MouseButton::Middle, count: 2, focus: false },
            Delivery::MouseLeave,
        ]
    );
    assert!(router.mouse_left);
    assert!(!router.drag_window);
}
