//! What a window decides by itself: its level, its style, how it gets from
//! one state to another, and which text field has the keyboard.

use vstd::prelude::*;

verus! {

/// The level of an ordinary window.
pub const NS_NORMAL_WINDOW_LEVEL: i32 = 0;
/// The level of a window that floats above ordinary ones.
pub const NS_FLOATING_WINDOW_LEVEL: i32 = 3;
/// The level of a modal panel.
pub const NS_MODAL_PANEL_WINDOW_LEVEL: i32 = 8;

/// Levels in the window system: the `z` order of a window, and for every
/// level but the first the window that it belongs to.
#[derive(Debug)]
pub enum WindowLevel<H> {
    /// A top-level app window.
    AppWindow,
    /// A window that should stay above app windows, like a tooltip.
    Tooltip(H),
    /// A user-interface element such as a dropdown menu or a combo box.
    DropDown(H),
    /// A modal dialog.
    Modal(H),
}

impl<H> WindowLevel<H> {
    /// The level as the platform numbers it.
    pub open spec fn raw(self) -> i32 {
        match self {
            WindowLevel::AppWindow => NS_NORMAL_WINDOW_LEVEL,
            WindowLevel::Tooltip(_) => NS_FLOATING_WINDOW_LEVEL,
            WindowLevel::DropDown(_) => NS_FLOATING_WINDOW_LEVEL,
            WindowLevel::Modal(_) => NS_MODAL_PANEL_WINDOW_LEVEL,
        }
    }

    /// The window that this one belongs to, for every level but that of an
    /// app window.
    pub open spec fn owner(self) -> Option<H> {
        match self {
            WindowLevel::AppWindow => None,
            WindowLevel::Tooltip(parent) => Some(parent),
            WindowLevel::DropDown(parent) => Some(parent),
            WindowLevel::Modal(parent) => Some(parent),
        }
    }

    /// The window that this one belongs to: its position is counted from
    /// that window's.
    pub fn parent(&self) -> (parent: Option<&H>)
        ensures
            match parent {
                Some(p) => self.owner() == Some(*p),
                None => self.owner() is None,
            },
    {
        match self {
            WindowLevel::AppWindow => None,
            WindowLevel::Tooltip(parent) => Some(parent),
            WindowLevel::DropDown(parent) => Some(parent),
            WindowLevel::Modal(parent) => Some(parent),
        }
    }
}

/// The level of a window as the platform numbers it.
pub fn as_raw_window_level<H>(window_level: &WindowLevel<H>) -> (level: i32)
    ensures
        level == window_level.raw(),
{
    match window_level {
        WindowLevel::AppWindow => NS_NORMAL_WINDOW_LEVEL,
        WindowLevel::Tooltip(_) => NS_FLOATING_WINDOW_LEVEL,
        WindowLevel::DropDown(_) => NS_FLOATING_WINDOW_LEVEL,
        WindowLevel::Modal(_) => NS_MODAL_PANEL_WINDOW_LEVEL,
    }
}

/// Style: the window has a title bar.
pub const STYLE_TITLED: u64 = 0x1;
/// Style: the window can be closed.
pub const STYLE_CLOSABLE: u64 = 0x2;
/// Style: the window can be minimized.
pub const STYLE_MINIATURIZABLE: u64 = 0x4;
/// Style: the window can be resized.
pub const STYLE_RESIZABLE: u64 = 0x8;
/// Style: title bar and toolbar are one.
pub const STYLE_UNIFIED_TITLE_AND_TOOLBAR: u64 = 0x1000;
/// Style: the window fills the screen.
pub const STYLE_FULL_SCREEN: u64 = 0x4000;
/// Style: the content reaches under the title bar.
pub const STYLE_FULL_SIZE_CONTENT_VIEW: u64 = 0x8000;

/// The style of a new window: it can always be closed and minimized, and is
/// always titled; without a visible title bar its content reaches under the
/// title bar, which is one with the toolbar.
pub open spec fn style_mask(show_titlebar: bool, resizable: bool) -> u64 {
    if show_titlebar {
        if resizable {
            0xf
        } else {
            0x7
        }
    } else {
        if resizable {
            0x900f
        } else {
            0x9007
        }
    }
}

/// Computes [`style_mask`].
pub fn window_style_mask(show_titlebar: bool, resizable: bool) -> (mask: u64)
    ensures
        mask == style_mask(show_titlebar, resizable),
{
    let mut style: u64 = STYLE_CLOSABLE | STYLE_MINIATURIZABLE;
    if show_titlebar {
        style = style | STYLE_TITLED;
    } else {
        style = style | STYLE_TITLED | STYLE_FULL_SIZE_CONTENT_VIEW
            | STYLE_UNIFIED_TITLE_AND_TOOLBAR;
    }
    if resizable {
        style = style | STYLE_RESIZABLE;
    }
    assert(0x2u64 | 0x4 | 0x1 == 0x7) by (bit_vector);
    assert(0x2u64 | 0x4 | 0x1 | 0x8 == 0xf) by (bit_vector);
    assert(0x2u64 | 0x4 | 0x1 | 0x8000 | 0x1000 == 0x9007) by (bit_vector);
    assert(0x2u64 | 0x4 | 0x1 | 0x8000 | 0x1000 | 0x8 == 0x900f) by (bit_vector);
    style
}

/// The style `mask` with resizing turned on or off, and nothing else
/// changed.
pub fn with_resizable(mask: u64, resizable: bool) -> (changed: u64)
    ensures
        changed == if resizable {
            mask | STYLE_RESIZABLE
        } else {
            mask & !STYLE_RESIZABLE
        },
        (changed & STYLE_RESIZABLE != 0) == resizable,
        changed & !STYLE_RESIZABLE == mask & !STYLE_RESIZABLE,
{
    let changed = if resizable {
        mask | STYLE_RESIZABLE
    } else {
        mask & !STYLE_RESIZABLE
    };
    assert(((mask | 0x8) & 0x8 != 0) && ((mask & !0x8u64) & 0x8 == 0)) by (bit_vector);
    assert((mask | 0x8) & !0x8u64 == mask & !0x8u64 && (mask & !0x8u64) & !0x8u64 == mask & !0x8u64)
        by (bit_vector);
    changed
}

/// Whether a window of style `mask` fills the screen.
pub fn is_fullscreen(mask: u64) -> (full: bool)
    ensures
        full == (mask & STYLE_FULL_SCREEN == STYLE_FULL_SCREEN),
{
    mask & STYLE_FULL_SCREEN == STYLE_FULL_SCREEN
}

/// Contains the different states a window can be in.
#[derive(Debug, Clone, Copy, PartialEq, Eq, Structural)]
pub enum WindowState {
    Maximized,
    Minimized,
    Restored,
}

/// What the platform is asked to do to a window to change its state.
#[derive(Debug, Clone, Copy, PartialEq, Eq, Structural)]
pub enum StateChange {
    /// Minimize the window.
    Miniaturize,
    /// Zoom the window, or zoom it back.
    Zoom,
    /// Bring the window back from where it was minimized to.
    Deminiaturize,
}

/// The state of a window that the platform says is minimized or not, and
/// zoomed or not. A minimized window counts as minimized whether or not it
/// is zoomed.
pub fn get_window_state(is_miniaturized: bool, is_zoomed: bool) -> (state: WindowState)
    ensures
        state == if is_miniaturized {
            WindowState::Minimized
        } else if is_zoomed {
            WindowState::Maximized
        } else {
            WindowState::Restored
        },
{
    if is_miniaturized {
        return WindowState::Minimized;
    }
    if is_zoomed {
        return WindowState::Maximized;
    }
    WindowState::Restored
}

/// What brings a window from `current` to `target`: nothing where it is
/// there already; to restore a maximized window it is zoomed back.
pub open spec fn state_change(target: WindowState, current: WindowState) -> Option<StateChange> {
    if target == current {
        None
    } else {
        match target {
            WindowState::Minimized => Some(StateChange::Miniaturize),
            WindowState::Maximized => Some(StateChange::Zoom),
            WindowState::Restored => if current == WindowState::Maximized {
                Some(StateChange::Zoom)
            } else {
                Some(StateChange::Deminiaturize)
            },
        }
    }
}

/// Computes [`state_change`] for a window that is to be brought to `state`
/// and is in `cur_state`.
pub fn set_window_state(state: WindowState, cur_state: WindowState) -> (change: Option<
    StateChange,
>)
    ensures
        change == state_change(state, cur_state),
{
    match (state, cur_state) {
        (WindowState::Maximized, WindowState::Maximized) => None,
        (WindowState::Minimized, WindowState::Minimized) => None,
        (WindowState::Restored, WindowState::Restored) => None,
        (WindowState::Minimized, _) => Some(StateChange::Miniaturize),
        (WindowState::Maximized, _) => Some(StateChange::Zoom),
        (WindowState::Restored, WindowState::Maximized) => Some(StateChange::Zoom),
        (WindowState::Restored, WindowState::Minimized) => Some(StateChange::Deminiaturize),
    }
}

/// Uniquely identifies a text input field inside a window.
#[derive(Debug, Clone, Copy, PartialEq, Eq, Structural)]
pub struct TextFieldToken(pub u64);

/// What has changed about a text field.
#[derive(Debug, Clone, Copy, PartialEq, Eq, Structural)]
pub enum TextEvent {
    /// The layout of the text changed.
    LayoutChanged,
    /// The selection changed.
    SelectionChanged,
    /// The field is a different one now.
    Reset,
}

/// What the platform's input method is told of a change.
#[derive(Debug, Clone, Copy, PartialEq, Eq, Structural)]
pub enum InputContextUpdate {
    /// The positions of the characters are no longer what they were.
    InvalidateCharacterCoordinates,
    /// The composition that is open is given up: the marked text is
    /// discarded and the field's composition range is cleared under its
    /// lock.
    DiscardMarkedText,
}

/// Which text field of a window has the keyboard.
#[derive(Debug, Clone, Copy, PartialEq, Eq, Structural)]
pub struct TextFields {
    /// The field that key events and compositions go to.
    pub active_text_input: Option<TextFieldToken>,
}

impl TextFields {
    /// No field has the keyboard.
    pub fn new() -> (fields: TextFields)
        ensures
            fields.active_text_input is None,
    {
        TextFields { active_text_input: None }
    }

    /// The field to lock for an edit that comes from the input method, if
    /// one has the keyboard.
    pub fn with_edit_lock_from_window(&self) -> (token: Option<TextFieldToken>)
        ensures
            token == self.active_text_input,
    {
        self.active_text_input
    }

    /// Forgets `token`: if that field has the keyboard, none has it
    /// afterwards.
    pub fn remove_text_field(&mut self, token: TextFieldToken)
        ensures
            final(self).active_text_input == if old(self).active_text_input == Some(token) {
                None
            } else {
                old(self).active_text_input
            },
    {
        let active = match self.active_text_input {
            Some(t) => t.0 == token.0,
            None => false,
        };
        if active {
            self.active_text_input = None;
        }
    }

    /// What the input method is told when `update` happens to the field
    /// `token`: nothing unless that field has the keyboard.
    pub open spec fn update_for(self, token: TextFieldToken, update: TextEvent) -> Option<
        InputContextUpdate,
    > {
        if self.active_text_input != Some(token) {
            None
        } else if update == TextEvent::LayoutChanged {
            Some(InputContextUpdate::InvalidateCharacterCoordinates)
        } else {
            Some(InputContextUpdate::DiscardMarkedText)
        }
    }

    /// Computes [`TextFields::update_for`].
    pub fn update_text_field(&self, token: TextFieldToken, update: TextEvent) -> (told: Option<
        InputContextUpdate,
    >)
        ensures
            told == self.update_for(token, update),
    {
        let active = match self.active_text_input {
            Some(t) => t.0 == token.0,
            None => false,
        };
        if !active {
            return None;
        }
        match update {
            TextEvent::LayoutChanged => Some(InputContextUpdate::InvalidateCharacterCoordinates),
            TextEvent::Reset | TextEvent::SelectionChanged => Some(
                InputContextUpdate::DiscardMarkedText,
            ),
        }
    }

    /// Gives the keyboard to `active_field`. Returns the fields whose open
    /// composition is given up, in order: the one that had the keyboard,
    /// then the one that has it now.
    pub fn set_focused_text_field(&mut self, active_field: Option<TextFieldToken>) -> (reset: (
        Option<TextFieldToken>,
        Option<TextFieldToken>,
    ))
        ensures
            final(self).active_text_input == active_field,
            reset == (old(self).active_text_input, active_field),
    {
        let old_field = self.active_text_input;
        self.active_text_input = active_field;
        (old_field, active_field)
    }
}

/// The options that the platform is to use while a window fills the screen:
/// full screen, with menu bar and toolbar hidden until the pointer reaches
/// for them.
pub fn will_use_full_screen_presentation_options() -> (options: u64)
    ensures
        options == 0xc04,
{
    assert(1u64 << 11 | 1u64 << 2 | 1u64 << 10 == 0xc04) by (bit_vector);
    1u64 << 11 | 1u64 << 2 | 1u64 << 10
}

} // verus!
