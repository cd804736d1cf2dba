use libghostty_vt_zed::modes::{terminal_input_options, TerminalModes};
use libghostty_vt_zed::mouse::{MouseFormat, MouseTrackingMode};
use libghostty_vt_zed::style::{CellWide, StyleColor};
use libghostty_vt_zed::summary::{
    cursor_state, grid_cell, grid_row, scrollbar_state, RowSemanticPrompt, Screen,
};
use libghostty_vt_zed::vt::{
    VtCell, VtCellWide, VtCursor, VtGridRef, VtRow, VtRowSemanticPrompt, VtScrollbar, VtStyle,
    VtStyleColor,
};

fn plain_style() -> VtStyle {
    VtStyle {
        fg_color: VtStyleColor::NoColor,
        bg_color: VtStyleColor::NoColor,
        underline_color: VtStyleColor::NoColor,
        bold: false,
        italic: false,
        faint: false,
        blink: false,
        inverse: false,
        invisible: false,
        strikethrough: false,
        overline: false,
        underline: 0,
    }
}

fn modes_off() -> TerminalModes {
    TerminalModes {
        app_cursor: false,
        app_keypad: false,
        alt_esc_prefix: false,
        kitty_keyboard_flags: 0,
        x10_mouse: false,
        normal_mouse: false,
        button_mouse: false,
        any_mouse: false,
        utf8_mouse: false,
        sgr_mouse: false,
        urxvt_mouse: false,
        sgr_pixels_mouse: false,
    }
}

#[test]
fn cursor_and_scrollbar_summaries_match_terminal_state() {
    // A fresh 20x4 terminal with 128 lines of scrollback.
    let terminal_cursor = VtCursor {
        column: 0,
        row: 0,
        pending_wrap: false,
        visible: true,
        active_screen: 0,
        kitty_keyboard_flags: 0,
    };
    let terminal_scrollbar = VtScrollbar { total: 4, offset: 0, len: 4 };

    let cursor = cursor_state(&terminal_cursor);
    let scrollbar = scrollbar_state(&terminal_scrollbar);

    assert_eq!(cursor.column, 0);
    assert_eq!(cursor.row, 0);
    assert!(cursor.visible);
    assert_eq!(cursor.active_screen, Screen::Primary);
    assert_eq!(scrollbar.offset, 0);
    assert!(scrollbar.total >= scrollbar.len);
}

#[test]
fn alternate_screen_is_screen_one() {
    let mut terminal_cursor = VtCursor {
        column: 7,
        row: 3,
        pending_wrap: true,
        visible: false,
        active_screen: 1,
        kitty_keyboard_flags: 0x1f,
    };
    let cursor = cursor_state(&terminal_cursor);
    assert_eq!(cursor.active_screen, Screen::Alternate);
    assert_eq!((cursor.column, cursor.row, cursor.pending_wrap, cursor.visible), (7, 3, true, false));
    assert_eq!(cursor.kitty_flags, 0x1f);
    terminal_cursor.active_screen = 2;
    assert_eq!(cursor_state(&terminal_cursor).active_screen, Screen::Primary);
}

#[test]
fn grid_summaries_match_wrapped_prompt_content() {
    // The top-left cell of a terminal after "prompt\r\n" was written.
    let grid_ref = VtGridRef {
        row: VtRow {
            wrapped: false,
            wrap_continuation: false,
            has_grapheme_cluster: false,
            styled: false,
            has_hyperlink: false,
            semantic_prompt: VtRowSemanticPrompt::NoPrompt,
            has_kitty_virtual_placeholder: false,
            dirty: true,
        },
        cell: VtCell {
            raw: 1,
            has_text: true,
            codepoint: u32::from('p'),
            wide: VtCellWide::Narrow,
            has_hyperlink: false,
        },
        style: plain_style(),
    };
    let row = grid_row(&grid_ref);
    let cell = grid_cell(&grid_ref);

    assert!(!row.wrap_continuation);
    assert_eq!(row.semantic_prompt, RowSemanticPrompt::NoPrompt);
    assert_eq!(cell.codepoint, Some(u32::from('p')));
}

#[test]
fn grid_cell_without_text_has_no_codepoint() {
    let mut style = plain_style();
    style.underline_color = VtStyleColor::Palette(9);
    style.underline = 3;
    let grid_ref = VtGridRef {
        row: VtRow {
            wrapped: true,
            wrap_continuation: true,
            has_grapheme_cluster: false,
            styled: true,
            has_hyperlink: false,
            semantic_prompt: VtRowSemanticPrompt::Continuation,
            has_kitty_virtual_placeholder: false,
            dirty: false,
        },
        cell: VtCell { raw: 2, has_text: false, codepoint: 0x41, wide: VtCellWide::SpacerTail, has_hyperlink: false },
        style,
    };
    let row = grid_row(&grid_ref);
    let cell = grid_cell(&grid_ref);
    assert!(row.wrapped && row.wrap_continuation && row.is_styled);
    assert_eq!(row.semantic_prompt, RowSemanticPrompt::PromptContinuation);
    assert_eq!(cell.codepoint, None);
    assert_eq!(cell.wide, CellWide::SpacerTail);
    assert_eq!(cell.style.underline_color, StyleColor::Palette(9));
    assert_eq!(cell.style.underline, 3);
}

#[test]
fn terminal_input_options_follow_terminal_modes() {
    let mut modes = modes_off();
    modes.app_cursor = true; // DECCKM
    modes.sgr_mouse = true;
    modes.normal_mouse = true;
    modes.alt_esc_prefix = true;

    let options = terminal_input_options(&modes);
    assert!(options.cursor_key_application);
    assert!(options.alt_esc_prefix);
    assert_eq!(options.mouse_tracking_mode, MouseTrackingMode::Normal);
    assert_eq!(options.mouse_format, MouseFormat::Sgr);
}

#[test]
fn mouse_modes_pick_the_most_inclusive() {
    let mut modes = modes_off();
    assert_eq!(terminal_input_options(&modes).mouse_tracking_mode, MouseTrackingMode::NoTracking);
    assert_eq!(terminal_input_options(&modes).mouse_format, MouseFormat::X10);
    modes.x10_mouse = true;
    assert_eq!(terminal_input_options(&modes).mouse_tracking_mode, MouseTrackingMode::X10);
    modes.button_mouse = true;
    assert_eq!(terminal_input_options(&modes).mouse_tracking_mode, MouseTrackingMode::Button);
    modes.any_mouse = true;
    assert_eq!(terminal_input_options(&modes).mouse_tracking_mode, MouseTrackingMode::Any);
    modes.utf8_mouse = true;
    assert_eq!(terminal_input_options(&modes).mouse_format, MouseFormat::Utf8);
    modes.urxvt_mouse = true;
    assert_eq!(terminal_input_options(&modes).mouse_format, MouseFormat::Urxvt);
    modes.sgr_pixels_mouse = true;
    assert_eq!(terminal_input_options(&modes).mouse_format, MouseFormat::SgrPixels);
    modes.kitty_keyboard_flags = 5;
    modes.app_keypad = true;
    let options = terminal_input_options(&modes);
    assert_eq!(options.kitty_flags, 5);
    assert!(options.keypad_key_application);
}
