//! The routing of native input to the window's handler.
//!
//! Each native notification is turned into a plain [`Notification`] where it
//! arrives, and [`route`] says what is delivered for it, in order. Routing is
//! synchronous: nothing is queued and nothing is reordered.

use vstd::prelude::*;

verus! {

/// An indicator of which mouse button was pressed.
#[derive(Debug, Clone, Copy, PartialEq, Eq, Structural)]
pub enum MouseButton {
    /// No mouse button.
    NoButton,
    /// Left mouse button, the primary one.
    Left,
    /// Right mouse button.
    Right,
    /// Middle mouse button.
    Middle,
    /// First X button.
    X1,
    /// Second X button.
    X2,
}

/// A set of mouse buttons.
#[derive(Debug, Clone, Copy, PartialEq, Eq, Structural)]
pub struct MouseButtons {
    pub left: bool,
    pub right: bool,
    pub middle: bool,
    pub x1: bool,
    pub x2: bool,
}

impl MouseButtons {
    /// Whether `button` is in the set. "No button" never is.
    pub open spec fn has(self, button: MouseButton) -> bool {
        match button {
            MouseButton::NoButton => false,
            MouseButton::Left => self.left,
            MouseButton::Right => self.right,
            MouseButton::Middle => self.middle,
            MouseButton::X1 => self.x1,
            MouseButton::X2 => self.x2,
        }
    }

    /// No button is in the set.
    pub open spec fn none_held(self) -> bool {
        forall|button: MouseButton| !self.has(button)
    }

    /// The empty set.
    pub fn new() -> (buttons: MouseButtons)
        ensures
            buttons.none_held(),
    {
        MouseButtons { left: false, right: false, middle: false, x1: false, x2: false }
    }

    /// Puts `button` into the set.
    pub fn insert(&mut self, button: MouseButton)
        ensures
            forall|b: MouseButton| final(self).has(b) == (old(self).has(b) || (b == button && b
                != MouseButton::NoButton)),
    {
        match button {
            MouseButton::NoButton => {},
            MouseButton::Left => {
                self.left = true;
            },
            MouseButton::Right => {
                self.right = true;
            },
            MouseButton::Middle => {
                self.middle = true;
            },
            MouseButton::X1 => {
                self.x1 = true;
            },
            MouseButton::X2 => {
                self.x2 = true;
            },
        }
        assert forall|b: MouseButton| final(self).has(b) == (old(self).has(b) || (b == button && b
            != MouseButton::NoButton)) by {
            match b {
                MouseButton::NoButton => {},
                MouseButton::Left => {},
                MouseButton::Right => {},
                MouseButton::Middle => {},
                MouseButton::X1 => {},
                MouseButton::X2 => {},
            }
        }
    }

    /// Decides [`MouseButtons::has`].
    pub fn contains(&self, button: MouseButton) -> (held: bool)
        ensures
            held == self.has(button),
    {
        match button {
            MouseButton::NoButton => false,
            MouseButton::Left => self.left,
            MouseButton::Right => self.right,
            MouseButton::Middle => self.middle,
            MouseButton::X1 => self.x1,
            MouseButton::X2 => self.x2,
        }
    }

    /// Decides [`MouseButtons::none_held`].
    pub fn is_empty(&self) -> (empty: bool)
        ensures
            empty == self.none_held(),
    {
        let empty = !self.left && !self.right && !self.middle && !self.x1 && !self.x2;
        proof {
            if !empty {
                assert(self.has(MouseButton::Left) || self.has(MouseButton::Right) || self.has(
                    MouseButton::Middle,
                ) || self.has(MouseButton::X1) || self.has(MouseButton::X2));
            }
        }
        empty
    }
}

/// The button that the platform numbers `button`, if it is one that is
/// known.
pub open spec fn button_numbered(button: i64) -> Option<MouseButton> {
    if button == 0 {
        Some(MouseButton::Left)
    } else if button == 1 {
        Some(MouseButton::Right)
    } else if button == 2 {
        Some(MouseButton::Middle)
    } else if button == 3 {
        Some(MouseButton::X1)
    } else if button == 4 {
        Some(MouseButton::X2)
    } else {
        None
    }
}

/// Computes [`button_numbered`].
pub fn get_mouse_button(button: i64) -> (known: Option<MouseButton>)
    ensures
        known == button_numbered(button),
{
    match button {
        0 => Some(MouseButton::Left),
        1 => Some(MouseButton::Right),
        2 => Some(MouseButton::Middle),
        3 => Some(MouseButton::X1),
        4 => Some(MouseButton::X2),
        _ => None,
    }
}

/// The buttons that the platform's mask of pressed buttons names: one bit
/// for each, in the order of their numbers.
pub open spec fn buttons_in(mask: u64) -> MouseButtons {
    MouseButtons {
        left: mask & 1 != 0,
        right: mask & 2 != 0,
        middle: mask & 4 != 0,
        x1: mask & 8 != 0,
        x2: mask & 16 != 0,
    }
}

/// Computes [`buttons_in`].
pub fn get_mouse_buttons(mask: u64) -> (buttons: MouseButtons)
    ensures
        buttons == buttons_in(mask),
{
    MouseButtons {
        left: mask & 1 != 0,
        right: mask & 2 != 0,
        middle: mask & 4 != 0,
        x1: mask & 8 != 0,
        x2: mask & 16 != 0,
    }
}

/// A native notification, with what routing reads of it.
#[derive(Debug, Clone, Copy, PartialEq, Eq, Structural)]
pub enum Notification {
    /// A click is about to make the window key.
    AcceptsFirstMouse,
    /// A button went down. `in_drag_region` says whether the pointer is
    /// inside one of the rectangles by which the window can be dragged.
    MouseDown { button: MouseButton, count: u8, in_drag_region: bool },
    /// A button that the platform only numbers went down.
    OtherMouseDown { number: i64, count: u8, in_drag_region: bool },
    /// A button went up. `pressed` is the platform's mask of the buttons
    /// that are still down.
    MouseUp { button: MouseButton, count: u8, pressed: u64 },
    /// A button that the platform only numbers went up.
    OtherMouseUp { number: i64, count: u8, pressed: u64 },
    /// The pointer moved, with or without a button down.
    MouseMoved,
    /// The pointer came into the view.
    MouseEntered,
    /// The pointer left the view.
    MouseExited,
    /// The wheel or the trackpad scrolled; a trackpad's deltas are precise.
    ScrollWheel { precise: bool },
    /// A pinch gesture.
    Magnify,
    /// A key went down.
    KeyDown,
    /// The handler has returned from a key-down, and has handled it or not.
    KeyDownReturned { handled: bool },
    /// A key went up.
    KeyUp,
    /// A modifier key went down or up.
    ModifiersChanged { down: bool },
    /// The window became key.
    BecameKey,
    /// The window is no longer key.
    ResignedKey,
    /// The user asked to close the window.
    ShouldClose,
    /// The window is closing.
    WillClose,
}

/// What is delivered: a call of the window's handler, or of the platform.
#[derive(Debug, Clone, Copy, PartialEq, Eq, Structural)]
pub enum Delivery {
    /// Ask the platform to drag the window with the event at hand.
    PerformWindowDrag,
    /// `mouse_down`, with these fields of the event.
    MouseDown { button: MouseButton, count: u8, focus: bool },
    /// `mouse_up`, with these fields of the event.
    MouseUp { button: MouseButton, count: u8, focus: bool },
    /// `mouse_move`.
    MouseMove,
    /// `mouse_leave`.
    MouseLeave,
    /// `wheel`, each delta multiplied by `factor` before.
    Wheel { factor: i32 },
    /// `zoom`, with the magnification of the gesture.
    Zoom,
    /// `key_down`.
    KeyDown,
    /// `key_up`.
    KeyUp,
    /// Hand the key event to the platform's input method.
    InterpretKeyEvents,
    /// `got_focus`.
    GotFocus,
    /// `lost_focus`.
    LostFocus,
    /// `request_close`; the platform is told not to close the window itself.
    RequestClose,
    /// `destroy`.
    Destroy,
}

/// By how much the deltas of a wheel are multiplied to come near those of a
/// trackpad.
pub const WHEEL_SCALE: i32 = 32;

/// The factor by which a scroll delta is multiplied: the direction is
/// turned, and a delta that is not precise is scaled.
pub open spec fn wheel_factor(precise: bool) -> int {
    if precise {
        -1
    } else {
        -32
    }
}

/// Computes [`wheel_factor`].
pub fn scroll_factor(precise: bool) -> (factor: i32)
    ensures
        factor == wheel_factor(precise),
{
    if precise {
        -1
    } else {
        -WHEEL_SCALE
    }
}

/// What routing remembers between two notifications.
#[derive(Debug, Clone, Copy, PartialEq, Eq, Structural)]
pub struct Router {
    /// A click has made the window key: the button-down and the button-up of
    /// the primary button that follow are that click.
    pub focus_click: bool,
    /// The pointer has left the view and has not come back.
    pub mouse_left: bool,
    /// The window is being dragged.
    pub drag_window: bool,
}

/// A button-down starts a drag: it is the first click of the primary button,
/// inside a drag region.
pub open spec fn starts_drag(button: MouseButton, count: u8, in_drag_region: bool) -> bool {
    count == 1 && button == MouseButton::Left && in_drag_region
}

impl Router {
    /// Routing as it begins, the pointer outside the view.
    pub open spec fn initial() -> Router {
        Router { focus_click: false, mouse_left: true, drag_window: false }
    }

    /// Routing as it begins.
    pub fn new() -> (router: Router)
        ensures
            router == Router::initial(),
    {
        Router { focus_click: false, mouse_left: true, drag_window: false }
    }

    /// Whether a drag of the window is going on.
    pub fn is_dragging(&self) -> (dragging: bool)
        ensures
            dragging == self.drag_window,
    {
        self.drag_window
    }

    /// What remains after a button-down, and what is delivered for it.
    pub open spec fn after_down(self, button: MouseButton, count: u8, in_drag_region: bool) -> (
        Router,
        Seq<Delivery>,
    ) {
        let focus = self.focus_click && button == MouseButton::Left;
        let down = Delivery::MouseDown { button, count, focus };
        if starts_drag(button, count, in_drag_region) {
            (Router { drag_window: true, ..self }, seq![Delivery::PerformWindowDrag, down])
        } else {
            (Router { drag_window: false, ..self }, seq![down])
        }
    }

    /// What remains after a button-up, and what is delivered for it. When
    /// the last button goes up after the pointer has left the view, no
    /// further mouse event will come, and the handler is told that the
    /// pointer has left.
    pub open spec fn after_up(self, button: MouseButton, count: u8, pressed: u64) -> (
        Router,
        Seq<Delivery>,
    ) {
        let focus = self.focus_click && button == MouseButton::Left;
        let up = Delivery::MouseUp { button, count, focus };
        let router = Router {
            drag_window: false,
            focus_click: self.focus_click && !focus,
            ..self
        };
        if self.mouse_left && buttons_in(pressed).none_held() {
            (router, seq![up, Delivery::MouseLeave])
        } else {
            (router, seq![up])
        }
    }

    /// What remains after `notification`, and what is delivered for it, in
    /// order.
    pub open spec fn next(self, notification: Notification) -> (Router, Seq<Delivery>) {
        match notification {
            Notification::AcceptsFirstMouse => (Router { focus_click: true, ..self }, seq![]),
            Notification::MouseDown { button, count, in_drag_region } => self.after_down(
                button,
                count,
                in_drag_region,
            ),
            Notification::OtherMouseDown { number, count, in_drag_region } => match button_numbered(
                number,
            ) {
                Some(button) => self.after_down(button, count, in_drag_region),
                None => (self, seq![]),
            },
            Notification::MouseUp { button, count, pressed } => self.after_up(
                button,
                count,
                pressed,
            ),
            Notification::OtherMouseUp { number, count, pressed } => match button_numbered(
                number,
            ) {
                Some(button) => self.after_up(button, count, pressed),
                None => (self, seq![]),
            },
            Notification::MouseMoved => if self.drag_window {
                (self, seq![])
            } else {
                (self, seq![Delivery::MouseMove])
            },
            Notification::MouseEntered => (
                Router { mouse_left: false, ..self },
                seq![Delivery::MouseMove],
            ),
            Notification::MouseExited => (
                Router { mouse_left: true, ..self },
                seq![Delivery::MouseLeave],
            ),
            Notification::ScrollWheel { precise } => (
                self,
                seq![Delivery::Wheel { factor: wheel_factor(precise) as i32 }],
            ),
            Notification::Magnify => (self, seq![Delivery::Zoom]),
            Notification::KeyDown => (self, seq![Delivery::KeyDown]),
            Notification::KeyDownReturned { handled } => if handled {
                (self, seq![])
            } else {
                (self, seq![Delivery::InterpretKeyEvents])
            },
            Notification::KeyUp => (self, seq![Delivery::KeyUp]),
            Notification::ModifiersChanged { down } => if down {
                (self, seq![Delivery::KeyDown])
            } else {
                (self, seq![Delivery::KeyUp])
            },
            Notification::BecameKey => (self, seq![Delivery::GotFocus]),
            Notification::ResignedKey => (self, seq![Delivery::LostFocus]),
            Notification::ShouldClose => (self, seq![Delivery::RequestClose]),
            Notification::WillClose => (self, seq![Delivery::Destroy]),
        }
    }

    /// Takes in a button-down. The first click of the primary button inside
    /// a drag region starts a drag of the window: the platform is asked once
    /// to drag it, before the handler sees the button-down. Any other
    /// button-down ends a drag, and the handler alone sees it.
    pub fn mouse_down(&mut self, button: MouseButton, count: u8, in_drag_region: bool) -> (out:
        Vec<Delivery>)
        ensures
            *final(self) == old(self).after_down(button, count, in_drag_region).0,
            out@ == old(self).after_down(button, count, in_drag_region).1,
            final(self).drag_window == starts_drag(button, count, in_drag_region),
            final(self).focus_click == old(self).focus_click,
            final(self).mouse_left == old(self).mouse_left,
            starts_drag(button, count, in_drag_region) ==> out@ == seq![
                Delivery::PerformWindowDrag,
                Delivery::MouseDown {
                    button,
                    count,
                    focus: old(self).focus_click && button == MouseButton::Left,
                },
            ],
            !starts_drag(button, count, in_drag_region) ==> out@ == seq![
                Delivery::MouseDown {
                    button,
                    count,
                    focus: old(self).focus_click && button == MouseButton::Left,
                },
            ],
    {
        let primary = match button {
            MouseButton::Left => true,
            _ => false,
        };
        let focus = self.focus_click && primary;
        let mut out: Vec<Delivery> = Vec::new();
        self.drag_window = false;
        if count == 1 && primary && in_drag_region {
            out.push(Delivery::PerformWindowDrag);
            self.drag_window = true;
        }
        out.push(Delivery::MouseDown { button, count, focus });
        assert(out@ =~= old(self).after_down(button, count, in_drag_region).1);
        out
    }

    /// Takes in a button-up. It ends a drag, and uses up the click that made
    /// the window key if it is that click's. When it lets go of the last
    /// button after the pointer has left the view, the handler is told of
    /// the button-up and then, once, that the pointer has left.
    pub fn mouse_up(&mut self, button: MouseButton, count: u8, pressed: u64) -> (out: Vec<
        Delivery,
    >)
        ensures
            *final(self) == old(self).after_up(button, count, pressed).0,
            out@ == old(self).after_up(button, count, pressed).1,
            !final(self).drag_window,
            final(self).mouse_left == old(self).mouse_left,
            final(self).focus_click == (old(self).focus_click && button != MouseButton::Left),
            old(self).mouse_left && buttons_in(pressed).none_held() ==> out@ == seq![
                Delivery::MouseUp {
                    button,
                    count,
                    focus: old(self).focus_click && button == MouseButton::Left,
                },
                Delivery::MouseLeave,
            ],
            !(old(self).mouse_left && buttons_in(pressed).none_held()) ==> out@ == seq![
                Delivery::MouseUp {
                    button,
                    count,
                    focus: old(self).focus_click && button == MouseButton::Left,
                },
            ],
    {
        let primary = match button {
            MouseButton::Left => true,
            _ => false,
        };
        self.drag_window = false;
        let focus = if self.focus_click && primary {
            self.focus_click = false;
            true
        } else {
            false
        };
        let mut out: Vec<Delivery> = Vec::new();
        out.push(Delivery::MouseUp { button, count, focus });
        // If the pointer has already left, events still come because some
        // button is held down. When the last one is released and the
        // pointer has not come back, nothing more will come.
        if self.mouse_left && get_mouse_buttons(pressed).is_empty() {
            out.push(Delivery::MouseLeave);
        }
        assert(out@ =~= old(self).after_up(button, count, pressed).1);
        out
    }

    fn deliver(delivery: Delivery) -> (out: Vec<Delivery>)
        ensures
            out@ == seq![delivery],
    {
        let mut out: Vec<Delivery> = Vec::new();
        out.push(delivery);
        out
    }

    /// Takes in a native notification, and says what to deliver for it, in
    /// order. A notification that names a button unknown to the library is
    /// dropped.
    pub fn route(&mut self, notification: Notification) -> (out: Vec<Delivery>)
        ensures
            *final(self) == old(self).next(notification).0,
            out@ == old(self).next(notification).1,
    {
        match notification {
            Notification::AcceptsFirstMouse => {
                self.focus_click = true;
                Vec::new()
            },
            Notification::MouseDown { button, count, in_drag_region } => self.mouse_down(
                button,
                count,
                in_drag_region,
            ),
            Notification::OtherMouseDown { number, count, in_drag_region } => {
                match get_mouse_button(number) {
                    Some(button) => self.mouse_down(button, count, in_drag_region),
                    None => Vec::new(),
                }
            },
            Notification::MouseUp { button, count, pressed } => self.mouse_up(
                button,
                count,
                pressed,
            ),
            Notification::OtherMouseUp { number, count, pressed } => {
                match get_mouse_button(number) {
                    Some(button) => self.mouse_up(button, count, pressed),
                    None => Vec::new(),
                }
            },
            Notification::MouseMoved => {
                if self.drag_window {
                    Vec::new()
                } else {
                    Router::deliver(Delivery::MouseMove)
                }
            },
            Notification::MouseEntered => {
                self.mouse_left = false;
                Router::deliver(Delivery::MouseMove)
            },
            Notification::MouseExited => {
                self.mouse_left = true;
                Router::deliver(Delivery::MouseLeave)
            },
            Notification::ScrollWheel { precise } => Router::deliver(
                Delivery::Wheel { factor: scroll_factor(precise) },
            ),
            Notification::Magnify => Router::deliver(Delivery::Zoom),
            Notification::KeyDown => Router::deliver(Delivery::KeyDown),
            Notification::KeyDownReturned { handled } => {
                if handled {
                    Vec::new()
                } else {
                    // Key down not handled: forward to the text input system.
                    Router::deliver(Delivery::InterpretKeyEvents)
                }
            },
            Notification::KeyUp => Router::deliver(Delivery::KeyUp),
            Notification::ModifiersChanged { down } => {
                if down {
                    Router::deliver(Delivery::KeyDown)
                } else {
                    Router::deliver(Delivery::KeyUp)
                }
            },
            Notification::BecameKey => Router::deliver(Delivery::GotFocus),
            Notification::ResignedKey => Router::deliver(Delivery::LostFocus),
            Notification::ShouldClose => Router::deliver(Delivery::RequestClose),
            Notification::WillClose => Router::deliver(Delivery::Destroy),
        }
    }
}

/// The first click of the primary button inside a drag region starts a drag:
/// the platform is asked to drag the window before the handler sees the
/// button-down, and the move that follows is not delivered.
pub proof fn lemma_drag_region_starts_drag(router: Router)
    ensures
        ({
            let down = Notification::MouseDown {
                button: MouseButton::Left,
                count: 1,
                in_drag_region: true,
            };
            let (dragging, delivered) = router.next(down);
            &&& dragging.drag_window
            &&& delivered.len() == 2
            &&& delivered[0] == Delivery::PerformWindowDrag
            &&& delivered[1] is MouseDown
            &&& dragging.next(Notification::MouseMoved).1 == Seq::<Delivery>::empty()
            &&& dragging.next(Notification::MouseMoved).0 == dragging
        }),
{
}

/// A button-down outside every drag region never starts a drag, whichever
/// button it is and however often it was clicked, and ends one that was
/// going on; the platform is not asked to drag the window.
pub proof fn lemma_no_drag_outside_regions(router: Router, button: MouseButton, count: u8)
    ensures
        ({
            let (after, delivered) = router.next(
                Notification::MouseDown { button, count, in_drag_region: false },
            );
            &&& !after.drag_window
            &&& delivered == seq![
                Delivery::MouseDown {
                    button,
                    count,
                    focus: router.focus_click && button == MouseButton::Left,
                },
            ]
        }),
{
}

/// Only the first click of the primary button starts a drag.
pub proof fn lemma_drag_needs_primary_single_click(
    router: Router,
    button: MouseButton,
    count: u8,
    in_drag_region: bool,
)
    ensures
        router.next(Notification::MouseDown { button, count, in_drag_region }).0.drag_window <==> (
        count == 1 && button == MouseButton::Left && in_drag_region),
{
}

/// A drag ends with the next button-up, after which moves are delivered
/// again.
pub proof fn lemma_button_up_ends_drag(router: Router, button: MouseButton, count: u8, pressed: u64)
    ensures
        ({
            let after = router.next(Notification::MouseUp { button, count, pressed }).0;
            &&& !after.drag_window
            &&& after.next(Notification::MouseMoved).1 == seq![Delivery::MouseMove]
        }),
{
}

/// When the pointer has left the view while a button was held, and the last
/// button goes up before the pointer comes back, exactly one leave is
/// delivered, right after the button-up. The button-down in between changes
/// nothing of that.
pub proof fn lemma_leave_follows_last_button_up(
    router: Router,
    down: MouseButton,
    down_count: u8,
    in_drag_region: bool,
    up: MouseButton,
    up_count: u8,
    pressed: u64,
)
    requires
        router.mouse_left,
        buttons_in(pressed).none_held(),
    ensures
        ({
            let held = router.next(
                Notification::MouseDown { button: down, count: down_count, in_drag_region },
            ).0;
            let delivered = held.next(
                Notification::MouseUp { button: up, count: up_count, pressed },
            ).1;
            &&& held.mouse_left
            &&& delivered.len() == 2
            &&& delivered[0] matches Delivery::MouseUp { button, count, .. } && button == up
                && count == up_count
            &&& delivered[1] == Delivery::MouseLeave
        }),
{
}

/// No leave is made up while a button is still held, or once the pointer has
/// come back into the view.
pub proof fn lemma_no_leave_otherwise(router: Router, button: MouseButton, count: u8, pressed: u64)
    requires
        !router.mouse_left || !buttons_in(pressed).none_held(),
    ensures
        router.next(Notification::MouseUp { button, count, pressed }).1 == seq![
            Delivery::MouseUp {
                button,
                count,
                focus: router.focus_click && button == MouseButton::Left,
            },
        ],
        router.next(Notification::MouseEntered).0.mouse_left == false,
{
}

/// The click that makes the window key is marked as such on its button-down
/// and on its button-up, and on no event after that.
pub proof fn lemma_focus_click_marked_once(router: Router, count: u8, pressed: u64)
    ensures
        ({
            let down = Notification::MouseDown {
                button: MouseButton::Left,
                count,
                in_drag_region: false,
            };
            let up = Notification::MouseUp { button: MouseButton::Left, count, pressed };
            let focused = router.next(Notification::AcceptsFirstMouse).0;
            let (pressed_down, first) = focused.next(down);
            let (released, second) = pressed_down.next(up);
            &&& first[0] == Delivery::MouseDown { button: MouseButton::Left, count, focus: true }
            &&& second[0] == Delivery::MouseUp { button: MouseButton::Left, count, focus: true }
            &&& !released.focus_click
            &&& released.next(down).1[0] == Delivery::MouseDown {
                button: MouseButton::Left,
                count,
                focus: false,
            }
            &&& released.next(up).1[0] == Delivery::MouseUp {
                button: MouseButton::Left,
                count,
                focus: false,
            }
        }),
{
}

/// A key-down that the handler did not handle goes to the input method; one
/// that it handled does not, and a key-up never does.
pub proof fn lemma_only_unhandled_key_down_is_interpreted(router: Router, n: Notification)
    ensures
        router.next(n).1.contains(Delivery::InterpretKeyEvents) <==> n
            == (Notification::KeyDownReturned { handled: false }),
{
    let delivered = router.next(n).1;
    if n == (Notification::KeyDownReturned { handled: false }) {
        assert(delivered[0] == Delivery::InterpretKeyEvents);
    }
    if delivered.contains(Delivery::InterpretKeyEvents) {
        let i = choose|i: int| 0 <= i < delivered.len() && delivered[i]
            == Delivery::InterpretKeyEvents;
        assert(delivered[i] == Delivery::InterpretKeyEvents);
    }
}

/// A wheel's delta is multiplied by 32, a trackpad's is not, and both are
/// turned around.
pub proof fn lemma_wheel_scaling(router: Router, precise: bool)
    ensures
        router.next(Notification::ScrollWheel { precise }).1 == seq![
            Delivery::Wheel { factor: if precise {
                (-1) as i32
            } else {
                (-32) as i32
            } },
        ],
        wheel_factor(false) == -WHEEL_SCALE,
        wheel_factor(true) == -1,
{
}

} // verus!
