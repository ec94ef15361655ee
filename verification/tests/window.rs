use druid_shell::icon::{CustomCursor, Icon, IconError, PlatformIcon};
use druid_shell::window::{
    as_raw_window_level, get_window_state, is_fullscreen, set_window_state,
    will_use_full_screen_presentation_options, window_style_mask, with_resizable,
    InputContextUpdate, StateChange, TextEvent, TextFieldToken, TextFields, WindowLevel,
    WindowState,
};

#[test]
fn raw_window_levels() {
    assert_eq!(as_raw_window_level(&WindowLevel::<u32>::AppWindow), 0);
    assert_eq!(as_raw_window_level(&WindowLevel::Tooltip(1u32)), 3);
    assert_eq!(as_raw_window_level(&WindowLevel::DropDown(1u32)), 3);
    assert_eq!(as_raw_window_level(&WindowLevel::Modal(1u32)), 8);
}

#[test]
fn parent_of_a_level() {
    assert_eq!(WindowLevel::<u32>::AppWindow.parent(), None);
    assert_eq!(WindowLevel::Tooltip(4u32).parent(), Some(&4));
    assert_eq!(WindowLevel::DropDown(5u32).parent(), Some(&5));
    assert_eq!(WindowLevel::Modal(6u32).parent(), Some(&6));
}

#[test]
fn style_masks() {
    assert_eq!(window_style_mask(true, true), 0xf);
    assert_eq!(window_style_mask(true, false), 0x7);
    assert_eq!(window_style_mask(false, true), 0x900f);
    assert_eq!(window_style_mask(false, false), 0x9007);
}

#[test]
fn resizable_bit_is_switched_alone() {
    assert_eq!(with_resizable(0x9007, true), 0x900f);
    assert_eq!(with_resizable(0x900f, true), 0x900f);
    assert_eq!(with_resizable(0x900f, false), 0x9007);
    assert_eq!(with_resizable(0x9007, false), 0x9007);
    assert_eq!(with_resizable(u64::MAX, false), u64::MAX - 8);
}

#[test]
fn fullscreen_is_read_from_the_style() {
    assert!(is_fullscreen(0x4000));
    assert!(is_fullscreen(0x400f));
    assert!(!is_fullscreen(0x900f));
    assert!(!is_fullscreen(0));
}

#[test]
fn presentation_options_in_full_screen() {
    assert_eq!(will_use_full_screen_presentation_options(), 1 << 11 | 1 << 2 | 1 << 10);
}

#[test]
fn window_state_from_the_platform() {
    assert_eq!(get_window_state(true, false), WindowState::Minimized);
    assert_eq!(get_window_state(true, true), WindowState::Minimized);
    assert_eq!(get_window_state(false, true), WindowState::Maximized);
    assert_eq!(get_window_state(false, false), WindowState::Restored);
}

#[test]
fn window_state_changes() {
    let maximized = WindowState::Maximized;
    let minimized = WindowState::Minimized;
    let restored = WindowState::Restored;
    assert_eq!(set_window_state(maximized, maximized), None);
    assert_eq!(set_window_state(minimized, minimized), None);
    assert_eq!(set_window_state(restored, restored), None);
    assert_eq!(set_window_state(minimized, maximized), Some(StateChange::Miniaturize));
    assert_eq!(set_window_state(minimized, restored), Some(StateChange::Miniaturize));
    assert_eq!(set_window_state(maximized, minimized), Some(StateChange::Zoom));
    assert_eq!(set_window_state(maximized, restored), Some(StateChange::Zoom));
    assert_eq!(set_window_state(restored, maximized), Some(StateChange::Zoom));
    assert_eq!(set_window_state(restored, minimized), Some(StateChange::Deminiaturize));
}

#[test]
fn no_field_has_the_keyboard_at_first() {
    let fields = TextFields::new();
    assert_eq!(fields.active_text_input, None);
    assert_eq!(fields.with_edit_lock_from_window(), None);
    assert_eq!(fields.update_text_field(TextFieldToken(1), TextEvent::Reset), None);
}

#[test]
fn focusing_resets_the_old_field_and_the_new() {
    let mut fields = TextFields::new();
    assert_eq!(fields.set_focused_text_field(Some(TextFieldToken(1))), (None, Some(TextFieldToken(1))));
    assert_eq!(fields.with_edit_lock_from_window(), Some(TextFieldToken(1)));
    assert_eq!(
        fields.set_focused_text_field(Some(TextFieldToken(2))),
        (Some(TextFieldToken(1)), Some(TextFieldToken(2)))
    );
    assert_eq!(fields.set_focused_text_field(None), (Some(TextFieldToken(2)), None));
    assert_eq!(fields.active_text_input, None);
}

#[test]
fn updates_reach_the_active_field_only() {
    let mut fields = TextFields::new();
    fields.set_focused_text_field(Some(TextFieldToken(1)));
    assert_eq!(
        fields.update_text_field(TextFieldToken(1), TextEvent::LayoutChanged),
        Some(InputContextUpdate::InvalidateCharacterCoordinates)
    );
    assert_eq!(
        fields.update_text_field(TextFieldToken(1), TextEvent::SelectionChanged),
        Some(InputContextUpdate::DiscardMarkedText)
    );
    assert_eq!(
        fields.update_text_field(TextFieldToken(1), TextEvent::Reset),
        Some(InputContextUpdate::DiscardMarkedText)
    );
    assert_eq!(fields.update_text_field(TextFieldToken(2), TextEvent::Reset), None);
}

#[test]
fn removing_a_field_takes_the_keyboard_from_it_alone() {
    let mut fields = TextFields::new();
    fields.set_focused_text_field(Some(TextFieldToken(1)));
    fields.remove_text_field(TextFieldToken(2));
    assert_eq!(fields.active_text_input, Some(TextFieldToken(1)));
    fields.remove_text_field(TextFieldToken(1));
    assert_eq!(fields.active_text_input, None);
    fields.remove_text_field(TextFieldToken(1));
    assert_eq!(fields.active_text_input, None);
}

#[test]
fn icons_are_not_supported() {
    assert_eq!(PlatformIcon::from_rgba(vec![0; 16], 2, 2), Err(IconError::NotSupported));
    assert_eq!(Icon::from_rgba(vec![0; 16], 2, 2), Err(IconError::NotSupported));
    assert_eq!(Icon::from_rgba(vec![0; 3], 2, 2), Err(IconError::NotSupported));
    assert_eq!(Icon::from_rgba(Vec::new(), 0, 0), Err(IconError::NotSupported));
}

#[test]
fn custom_cursors_are_all_alike() {
    assert_eq!(CustomCursor, CustomCursor);
}
