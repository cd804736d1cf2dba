use libghostty_vt_zed::focus::{encode_focus, FocusEvent};
use libghostty_vt_zed::key_input::{key_from_raw, KeyAction, KeyEncoder, KeyEvent, OptionAsAlt};
use libghostty_vt_zed::keys::{KEY_C, KEY_LAST, KEY_UNIDENTIFIED, MODIFIER_CONTROL, MODIFIER_SHIFT};
use libghostty_vt_zed::modes::TerminalInputOptions;
use libghostty_vt_zed::mouse::{
    MouseAction, MouseButton, MouseEncoder, MouseEncoderSize, MouseEvent, MouseFormat,
    MouseTrackingMode,
};

#[test]
fn key_mouse_and_focus_encoding_return_bytes() {
    let mut key_encoder = KeyEncoder::new();
    key_encoder.set_kitty_flags(0x1f);
    assert_eq!(key_encoder.kitty_flags, 0x1f);

    let mut key_event = KeyEvent::new();
    key_event.set_action(KeyAction::Press);
    key_event.set_key(KEY_C);
    key_event.set_mods(MODIFIER_CONTROL);
    assert_eq!(key_event.action, KeyAction::Press);
    assert_eq!(key_event.key, KEY_C);
    assert_eq!(key_event.mods, MODIFIER_CONTROL);

    let mut mouse_encoder = MouseEncoder::new();
    mouse_encoder.set_tracking_mode(MouseTrackingMode::Normal);
    mouse_encoder.set_format(MouseFormat::Sgr);
    let size = MouseEncoderSize {
        screen_width: 800,
        screen_height: 600,
        cell_width: 10,
        cell_height: 20,
        padding_top: 0,
        padding_bottom: 0,
        padding_right: 0,
        padding_left: 0,
    };
    mouse_encoder.set_size(size);
    assert_eq!(mouse_encoder.tracking_mode, MouseTrackingMode::Normal);
    assert_eq!(mouse_encoder.format, MouseFormat::Sgr);
    assert_eq!(mouse_encoder.size, size);

    let mut mouse_event = MouseEvent::new();
    mouse_event.set_action(MouseAction::Press);
    mouse_event.set_button(Some(MouseButton::Left));
    assert_eq!(mouse_event.action, MouseAction::Press);
    assert_eq!(mouse_event.button, Some(MouseButton::Left));

    let focus_in = encode_focus(FocusEvent::Gained);
    let focus_out = encode_focus(FocusEvent::Lost);
    assert_eq!(focus_in, b"\x1b[I".to_vec());
    assert_eq!(focus_out, b"\x1b[O".to_vec());
}

#[test]
fn raw_key_codes_outside_the_table_are_unidentified() {
    assert_eq!(key_from_raw(KEY_C), KEY_C);
    assert_eq!(key_from_raw(KEY_LAST), KEY_LAST);
    assert_eq!(key_from_raw(KEY_LAST + 1), KEY_UNIDENTIFIED);
    assert_eq!(key_from_raw(-1), KEY_UNIDENTIFIED);
    let mut event = KeyEvent::new();
    event.set_key(KEY_C);
    event.set_key(1000);
    assert_eq!(event.key, KEY_UNIDENTIFIED);
}

#[test]
fn key_event_setters_and_aliases() {
    let mut a = KeyEvent::new();
    assert_eq!(a.action, KeyAction::Release);
    assert_eq!(a.key, KEY_UNIDENTIFIED);
    assert_eq!(a.unshifted_codepoint, '\0');
    assert_eq!(a.utf8, None);
    a.set_modifiers(MODIFIER_SHIFT | 0x8000);
    assert_eq!(a.mods, MODIFIER_SHIFT | 0x8000);
    a.set_consumed_modifiers(MODIFIER_SHIFT);
    assert_eq!(a.consumed_mods, MODIFIER_SHIFT);
    a.set_consumed_mods(0);
    assert_eq!(a.consumed_mods, 0);
    a.set_composing(true);
    assert!(a.composing);
    a.set_unshifted_codepoint(u32::from('c'));
    assert_eq!(a.unshifted_codepoint, 'c');
    a.set_unshifted_codepoint(0xD800);
    assert_eq!(a.unshifted_codepoint, 'c');
    a.set_unshifted_codepoint(0x110000);
    assert_eq!(a.unshifted_codepoint, 'c');
    a.set_utf8("C");
    assert_eq!(a.utf8.as_deref(), Some("C"));
    a.set_action(KeyAction::Repeat);
    assert_eq!(a.action, KeyAction::Repeat);
}

#[test]
fn key_encoder_options() {
    let mut encoder = KeyEncoder::new();
    encoder.set_modify_other_keys_state_2(true);
    encoder.set_macos_option_as_alt(true);
    assert_eq!(encoder.macos_option_as_alt, OptionAsAlt::True);
    encoder.set_cursor_key_application(true);
    encoder.set_keypad_key_application(true);
    encoder.set_alt_esc_prefix(true);
    assert!(encoder.cursor_key_application && encoder.keypad_key_application && encoder.alt_esc_prefix);
    let options = TerminalInputOptions {
        cursor_key_application: false,
        keypad_key_application: true,
        alt_esc_prefix: false,
        kitty_flags: 3,
        mouse_tracking_mode: MouseTrackingMode::Any,
        mouse_format: MouseFormat::SgrPixels,
    };
    encoder.set_options(&options);
    assert!(!encoder.cursor_key_application);
    assert!(encoder.keypad_key_application);
    assert!(!encoder.alt_esc_prefix);
    assert_eq!(encoder.kitty_flags, 3);
    assert!(!encoder.modify_other_keys_state_2);
    assert_eq!(encoder.macos_option_as_alt, OptionAsAlt::False);
    encoder.set_macos_option_as_alt(false);
    assert_eq!(encoder.macos_option_as_alt, OptionAsAlt::False);

    let mut mouse = MouseEncoder::new();
    assert_eq!(mouse.tracking_mode, MouseTrackingMode::NoTracking);
    assert_eq!(mouse.format, MouseFormat::X10);
    mouse.set_options(&options);
    assert_eq!(mouse.tracking_mode, MouseTrackingMode::Any);
    assert_eq!(mouse.format, MouseFormat::SgrPixels);
}

#[test]
fn mouse_event_setters_and_aliases() {
    let mut event = MouseEvent::new();
    assert_eq!(event.action, MouseAction::Press);
    assert_eq!(event.button, None);
    event.set_button(Some(MouseButton::Five));
    event.clear_button();
    assert_eq!(event.button, None);
    event.set_modifiers(MODIFIER_CONTROL);
    assert_eq!(event.mods, MODIFIER_CONTROL);
    event.set_mods(0);
    assert_eq!(event.mods, 0);
    event.set_action(MouseAction::Motion);
    assert_eq!(event.action, MouseAction::Motion);
}

#[test]
fn focus_reports_differ() {
    assert_ne!(encode_focus(FocusEvent::Gained), encode_focus(FocusEvent::Lost));
    assert_eq!(encode_focus(FocusEvent::Gained).len(), 3);
}
