use vstd::prelude::*;

use crate::mouse::{MouseFormat, MouseTrackingMode};

verus! {

/// The terminal modes that input encoding depends on, as the terminal
/// reports them.
#[derive(Debug, Clone, Copy, PartialEq, Eq, Structural)]
pub struct TerminalModes {
    /// DEC mode 1 (DECCKM): cursor keys send application sequences.
    pub app_cursor: bool,
    /// DEC mode 66 (DECNKM): keypad sends application sequences.
    pub app_keypad: bool,
    /// DEC mode 1036: alt sends an escape prefix.
    pub alt_esc_prefix: bool,
    /// Active Kitty keyboard protocol flags.
    pub kitty_keyboard_flags: u8,
    /// DEC mode 9: X10 mouse reporting.
    pub x10_mouse: bool,
    /// DEC mode 1000: normal mouse reporting.
    pub normal_mouse: bool,
    /// DEC mode 1002: button-event mouse reporting.
    pub button_mouse: bool,
    /// DEC mode 1003: any-event mouse reporting.
    pub any_mouse: bool,
    /// DEC mode 1005: UTF-8 mouse format.
    pub utf8_mouse: bool,
    /// DEC mode 1006: SGR mouse format.
    pub sgr_mouse: bool,
    /// DEC mode 1015: URXVT mouse format.
    pub urxvt_mouse: bool,
    /// DEC mode 1016: SGR pixel mouse format.
    pub sgr_pixels_mouse: bool,
}

/// Shared terminal input options derived from terminal state.
#[derive(Debug, Clone, Copy, PartialEq, Eq, Structural)]
pub struct TerminalInputOptions {
    /// DEC mode 1: cursor key application mode.
    pub cursor_key_application: bool,
    /// DEC mode 66: keypad key application mode.
    pub keypad_key_application: bool,
    /// DEC mode 1036: alt sends escape prefix.
    pub alt_esc_prefix: bool,
    /// Active Kitty keyboard protocol flags.
    pub kitty_flags: u8,
    /// Active mouse tracking mode.
    pub mouse_tracking_mode: MouseTrackingMode,
    /// Active mouse reporting format.
    pub mouse_format: MouseFormat,
}

/// The tracking mode in force: the most inclusive enabled mouse mode wins,
/// any-event over button-event over normal over X10.
pub open spec fn mouse_tracking_mode_spec(modes: TerminalModes) -> MouseTrackingMode {
    if modes.any_mouse {
        MouseTrackingMode::Any
    } else if modes.button_mouse {
        MouseTrackingMode::Button
    } else if modes.normal_mouse {
        MouseTrackingMode::Normal
    } else if modes.x10_mouse {
        MouseTrackingMode::X10
    } else {
        MouseTrackingMode::NoTracking
    }
}

/// The report format in force: SGR pixels over SGR over URXVT over UTF-8,
/// and X10 when none of them is enabled.
pub open spec fn mouse_format_spec(modes: TerminalModes) -> MouseFormat {
    if modes.sgr_pixels_mouse {
        MouseFormat::SgrPixels
    } else if modes.sgr_mouse {
        MouseFormat::Sgr
    } else if modes.urxvt_mouse {
        MouseFormat::Urxvt
    } else if modes.utf8_mouse {
        MouseFormat::Utf8
    } else {
        MouseFormat::X10
    }
}

/// The input options that the terminal modes call for.
pub open spec fn terminal_input_options_spec(modes: TerminalModes) -> TerminalInputOptions {
    TerminalInputOptions {
        cursor_key_application: modes.app_cursor,
        keypad_key_application: modes.app_keypad,
        alt_esc_prefix: modes.alt_esc_prefix,
        kitty_flags: modes.kitty_keyboard_flags,
        mouse_tracking_mode: mouse_tracking_mode_spec(modes),
        mouse_format: mouse_format_spec(modes),
    }
}

/// Pick the mouse tracking mode from the terminal modes.
pub fn mouse_tracking_mode_for_terminal(modes: &TerminalModes) -> (mode: MouseTrackingMode)
    ensures
        mode == mouse_tracking_mode_spec(*modes),
        modes.any_mouse ==> mode == MouseTrackingMode::Any,
        !modes.any_mouse && modes.button_mouse ==> mode == MouseTrackingMode::Button,
        !modes.any_mouse && !modes.button_mouse && modes.normal_mouse ==> mode == MouseTrackingMode::Normal,
        !modes.any_mouse && !modes.button_mouse && !modes.normal_mouse && modes.x10_mouse ==> mode
            == MouseTrackingMode::X10,
        !modes.any_mouse && !modes.button_mouse && !modes.normal_mouse && !modes.x10_mouse ==> mode
            == MouseTrackingMode::NoTracking,
{
    if modes.any_mouse {
        MouseTrackingMode::Any
    } else if modes.button_mouse {
        MouseTrackingMode::Button
    } else if modes.normal_mouse {
        MouseTrackingMode::Normal
    } else if modes.x10_mouse {
        MouseTrackingMode::X10
    } else {
        MouseTrackingMode::NoTracking
    }
}

/// Pick the mouse report format from the terminal modes.
pub fn mouse_format_for_terminal(modes: &TerminalModes) -> (format: MouseFormat)
    ensures
        format == mouse_format_spec(*modes),
        modes.sgr_pixels_mouse ==> format == MouseFormat::SgrPixels,
        !modes.sgr_pixels_mouse && modes.sgr_mouse ==> format == MouseFormat::Sgr,
        !modes.sgr_pixels_mouse && !modes.sgr_mouse && modes.urxvt_mouse ==> format == MouseFormat::Urxvt,
        !modes.sgr_pixels_mouse && !modes.sgr_mouse && !modes.urxvt_mouse && modes.utf8_mouse ==> format
            == MouseFormat::Utf8,
        !modes.sgr_pixels_mouse && !modes.sgr_mouse && !modes.urxvt_mouse && !modes.utf8_mouse ==> format
            == MouseFormat::X10,
{
    if modes.sgr_pixels_mouse {
        MouseFormat::SgrPixels
    } else if modes.sgr_mouse {
        MouseFormat::Sgr
    } else if modes.urxvt_mouse {
        MouseFormat::Urxvt
    } else if modes.utf8_mouse {
        MouseFormat::Utf8
    } else {
        MouseFormat::X10
    }
}

/// Build shared terminal input options from the terminal modes.
pub fn terminal_input_options(modes: &TerminalModes) -> (options: TerminalInputOptions)
    ensures
        options == terminal_input_options_spec(*modes),
        options.cursor_key_application == modes.app_cursor,
        options.keypad_key_application == modes.app_keypad,
        options.alt_esc_prefix == modes.alt_esc_prefix,
        options.kitty_flags == modes.kitty_keyboard_flags,
        modes.any_mouse ==> options.mouse_tracking_mode == MouseTrackingMode::Any,
        !modes.any_mouse && modes.button_mouse ==> options.mouse_tracking_mode == MouseTrackingMode::Button,
        !modes.any_mouse && !modes.button_mouse && modes.normal_mouse ==> options.mouse_tracking_mode == MouseTrackingMode::Normal,
        !modes.any_mouse && !modes.button_mouse && !modes.normal_mouse && modes.x10_mouse ==> options.mouse_tracking_mode
            == MouseTrackingMode::X10,
        !modes.any_mouse && !modes.button_mouse && !modes.normal_mouse && !modes.x10_mouse ==> options.mouse_tracking_mode
            == MouseTrackingMode::NoTracking,
        modes.sgr_pixels_mouse ==> options.mouse_format == MouseFormat::SgrPixels,
        !modes.sgr_pixels_mouse && modes.sgr_mouse ==> options.mouse_format == MouseFormat::Sgr,
        !modes.sgr_pixels_mouse && !modes.sgr_mouse && modes.urxvt_mouse ==> options.mouse_format == MouseFormat::Urxvt,
        !modes.sgr_pixels_mouse && !modes.sgr_mouse && !modes.urxvt_mouse && modes.utf8_mouse ==> options.mouse_format
            == MouseFormat::Utf8,
        !modes.sgr_pixels_mouse && !modes.sgr_mouse && !modes.urxvt_mouse && !modes.utf8_mouse ==> options.mouse_format
            == MouseFormat::X10,
{
    TerminalInputOptions {
        cursor_key_application: modes.app_cursor,
        keypad_key_application: modes.app_keypad,
        alt_esc_prefix: modes.alt_esc_prefix,
        kitty_flags: modes.kitty_keyboard_flags,
        mouse_tracking_mode: mouse_tracking_mode_for_terminal(modes),
        mouse_format: mouse_format_for_terminal(modes),
    }
}

/// The most inclusive enabled mouse mode decides the tracking: any-event
/// (1003) over button-event (1002) over normal (1000) over X10 (9), and no
/// tracking when none of them is set.
pub proof fn law_mouse_tracking_precedence(modes: TerminalModes)
    ensures
        modes.any_mouse ==> mouse_tracking_mode_spec(modes) == MouseTrackingMode::Any,
        !modes.any_mouse && modes.button_mouse ==> mouse_tracking_mode_spec(modes) == MouseTrackingMode::Button,
        !modes.any_mouse && !modes.button_mouse && modes.normal_mouse ==> mouse_tracking_mode_spec(modes) == MouseTrackingMode::Normal,
        !modes.any_mouse && !modes.button_mouse && !modes.normal_mouse && modes.x10_mouse ==> mouse_tracking_mode_spec(modes)
            == MouseTrackingMode::X10,
        !modes.any_mouse && !modes.button_mouse && !modes.normal_mouse && !modes.x10_mouse ==> mouse_tracking_mode_spec(modes)
            == MouseTrackingMode::NoTracking,
{
}

/// The report format goes by precedence: SGR pixels (1016) over SGR (1006)
/// over URXVT (1015) over UTF-8 (1005), and X10 when none of them is set.
pub proof fn law_mouse_format_precedence(modes: TerminalModes)
    ensures
        modes.sgr_pixels_mouse ==> mouse_format_spec(modes) == MouseFormat::SgrPixels,
        !modes.sgr_pixels_mouse && modes.sgr_mouse ==> mouse_format_spec(modes) == MouseFormat::Sgr,
        !modes.sgr_pixels_mouse && !modes.sgr_mouse && modes.urxvt_mouse ==> mouse_format_spec(modes) == MouseFormat::Urxvt,
        !modes.sgr_pixels_mouse && !modes.sgr_mouse && !modes.urxvt_mouse && modes.utf8_mouse ==> mouse_format_spec(modes)
            == MouseFormat::Utf8,
        !modes.sgr_pixels_mouse && !modes.sgr_mouse && !modes.urxvt_mouse && !modes.utf8_mouse ==> mouse_format_spec(modes)
            == MouseFormat::X10,
{
}

/// The input options copy each keyboard mode under its own name and pick the
/// mouse tracking and format by their precedence.
pub proof fn law_terminal_input_options_follow_modes(modes: TerminalModes)
    ensures
        terminal_input_options_spec(modes).cursor_key_application == modes.app_cursor,
        terminal_input_options_spec(modes).keypad_key_application == modes.app_keypad,
        terminal_input_options_spec(modes).alt_esc_prefix == modes.alt_esc_prefix,
        terminal_input_options_spec(modes).kitty_flags == modes.kitty_keyboard_flags,
        modes.any_mouse ==> terminal_input_options_spec(modes).mouse_tracking_mode == MouseTrackingMode::Any,
        !modes.any_mouse && modes.button_mouse ==> terminal_input_options_spec(modes).mouse_tracking_mode == MouseTrackingMode::Button,
        !modes.any_mouse && !modes.button_mouse && modes.normal_mouse ==> terminal_input_options_spec(modes).mouse_tracking_mode == MouseTrackingMode::Normal,
        !modes.any_mouse && !modes.button_mouse && !modes.normal_mouse && modes.x10_mouse ==> terminal_input_options_spec(modes).mouse_tracking_mode
            == MouseTrackingMode::X10,
        !modes.any_mouse && !modes.button_mouse && !modes.normal_mouse && !modes.x10_mouse ==> terminal_input_options_spec(modes).mouse_tracking_mode
            == MouseTrackingMode::NoTracking,
        modes.sgr_pixels_mouse ==> terminal_input_options_spec(modes).mouse_format == MouseFormat::SgrPixels,
        !modes.sgr_pixels_mouse && modes.sgr_mouse ==> terminal_input_options_spec(modes).mouse_format == MouseFormat::Sgr,
        !modes.sgr_pixels_mouse && !modes.sgr_mouse && modes.urxvt_mouse ==> terminal_input_options_spec(modes).mouse_format == MouseFormat::Urxvt,
        !modes.sgr_pixels_mouse && !modes.sgr_mouse && !modes.urxvt_mouse && modes.utf8_mouse ==> terminal_input_options_spec(modes).mouse_format
            == MouseFormat::Utf8,
        !modes.sgr_pixels_mouse && !modes.sgr_mouse && !modes.urxvt_mouse && !modes.utf8_mouse ==> terminal_input_options_spec(modes).mouse_format
            == MouseFormat::X10,
{
    law_mouse_tracking_precedence(modes);
    law_mouse_format_precedence(modes);
}

/// Mouse reporting is off exactly when none of the four tracking modes is set.
pub proof fn law_mouse_reporting_off_iff_no_tracking_mode(modes: TerminalModes)
    ensures
        (mouse_tracking_mode_spec(modes) == MouseTrackingMode::NoTracking) <==> (!modes.any_mouse
            && !modes.button_mouse && !modes.normal_mouse && !modes.x10_mouse),
        (mouse_format_spec(modes) == MouseFormat::X10) <==> (!modes.sgr_pixels_mouse
            && !modes.sgr_mouse && !modes.urxvt_mouse && !modes.utf8_mouse),
{
}

/// Encoders configured with `set_options(&terminal_input_options(modes))`
/// agree with that terminal, whatever they were before: the key encoder
/// follows its keyboard modes and the mouse encoder its mouse modes, keeping
/// its geometry.
pub proof fn law_encoders_follow_terminal_modes(
    modes: TerminalModes,
    key_encoder: crate::key_input::KeyEncoder,
    mouse_encoder: crate::mouse::MouseEncoder,
)
    ensures
        ({
            let configured = key_encoder.with_options(terminal_input_options_spec(modes));
            &&& configured.cursor_key_application == modes.app_cursor
            &&& configured.keypad_key_application == modes.app_keypad
            &&& configured.alt_esc_prefix == modes.alt_esc_prefix
            &&& configured.kitty_flags == modes.kitty_keyboard_flags
            &&& !configured.modify_other_keys_state_2
        }),
        ({
            let configured = mouse_encoder.with_options(terminal_input_options_spec(modes));
            &&& configured.tracking_mode == mouse_tracking_mode_spec(modes)
            &&& configured.format == mouse_format_spec(modes)
            &&& configured.size == mouse_encoder.size
        }),
{
}

} // verus!
