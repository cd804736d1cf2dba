use libghostty_vt_zed::render::{RenderDirty, RenderState};
use libghostty_vt_zed::style::{CellWide, RgbColor, StyleColor};
use libghostty_vt_zed::vt::{
    VtCell, VtCellWide, VtColors, VtDirty, VtRenderCell, VtRenderRow, VtRgbColor, VtRow,
    VtRowSemanticPrompt, VtSnapshot, VtStyle, VtStyleColor, VtViewportCursor,
};

fn plain_style() -> VtStyle {
    VtStyle {
        fg_color: VtStyleColor::NoColor,
        bg_color: VtStyleColor::NoColor,
        underline_color: VtStyleColor::NoColor,
        bold: false,
        italic: false,
        faint: false,
        blink: false,
        inverse: false,
        invisible: false,
        strikethrough: false,
        overline: false,
        underline: 0,
    }
}

fn plain_row() -> VtRow {
    VtRow {
        wrapped: false,
        wrap_continuation: false,
        has_grapheme_cluster: false,
        styled: false,
        has_hyperlink: false,
        semantic_prompt: VtRowSemanticPrompt::NoPrompt,
        has_kitty_virtual_placeholder: false,
        dirty: true,
    }
}

fn cell(codepoint: u32) -> VtRenderCell {
    VtRenderCell {
        raw_cell: VtCell {
            raw: u64::from(codepoint),
            has_text: codepoint != 0,
            codepoint,
            wide: VtCellWide::Narrow,
            has_hyperlink: false,
        },
        style: plain_style(),
        bg_color: None,
        fg_color: None,
        graphemes: char::from_u32(codepoint).filter(|c| *c != '\0').into_iter().collect(),
    }
}

/// A 20-column row holding `text` from the left edge.
fn text_row(text: &str) -> VtRenderRow {
    let mut cells: Vec<VtRenderCell> = text.chars().map(|c| cell(u32::from(c))).collect();
    while cells.len() < 20 {
        cells.push(cell(0));
    }
    VtRenderRow { dirty: true, raw_row: plain_row(), cells }
}

/// The render state of a 20x4 terminal after "abc\r\ndef\r\n" was written.
fn abc_def_frame() -> VtSnapshot {
    let white = VtRgbColor { r: 255, g: 255, b: 255 };
    let black = VtRgbColor { r: 0, g: 0, b: 0 };
    VtSnapshot {
        cols: 20,
        rows: 4,
        dirty: VtDirty::Full,
        cursor_visible: true,
        cursor_blinking: false,
        cursor_viewport: Some(VtViewportCursor { x: 0, y: 2 }),
        colors: VtColors { background: black, foreground: white, cursor: None, palette: vec![black, white] },
        row_data: vec![text_row("abc"), text_row("def"), text_row(""), text_row("")],
    }
}

#[test]
fn eager_render_snapshot_includes_text() {
    let mut render_state = RenderState::new();
    let snapshot = render_state.snapshot(abc_def_frame());

    assert_eq!(snapshot.columns, 20);
    assert_eq!(snapshot.rows, 4);
    assert!(matches!(
        snapshot.dirty,
        RenderDirty::Partial | RenderDirty::Full
    ));
    let combined = snapshot.plain_text_rows().join("\n");
    assert!(combined.contains("abc"));
    assert!(combined.contains("def"));
}

#[test]
fn snapshot_clears_dirty_state() {
    let mut render_state = RenderState::new();
    let first = render_state.update(abc_def_frame());
    assert_eq!(first.dirty, RenderDirty::Full);
    assert!(first.rows().iter().all(|row| row.dirty));
    let held = render_state.contents_ref().clone();
    assert_eq!(held.dirty, VtDirty::Clean);
    assert!(held.row_data.iter().all(|row| !row.dirty));
    let second = render_state.update(held);
    assert_eq!(second.dirty, RenderDirty::Clean);
    assert!(second.rows().iter().all(|row| !row.dirty));
    assert_eq!(second.plain_text_rows(), first.plain_text_rows());
}

#[test]
fn plain_text_rows_pad_empty_cells() {
    let mut render_state = RenderState::new();
    let snapshot = render_state.update(abc_def_frame());
    let rows = snapshot.plain_text_rows();
    assert_eq!(rows.len(), 4);
    assert_eq!(rows[0], format!("abc{}", " ".repeat(17)));
    assert_eq!(rows[2], " ".repeat(20));
}

#[test]
fn snapshot_converts_cells_cursor_and_colors() {
    let mut frame = abc_def_frame();
    frame.row_data[0].cells[1].style.fg_color = VtStyleColor::Palette(3);
    frame.row_data[0].cells[1].style.bold = true;
    frame.row_data[0].cells[1].bg_color = Some(VtRgbColor { r: 1, g: 2, b: 3 });
    frame.row_data[0].cells[2].raw_cell.wide = VtCellWide::Wide;
    frame.row_data[0].cells[2].graphemes = vec!['c', '\u{301}'];
    let mut render_state = RenderState::new();
    let snapshot = render_state.update(frame);

    let b = &snapshot.rows_data[0].cells[1];
    assert_eq!(b.codepoint, Some(u32::from('b')));
    assert_eq!(b.style.foreground, StyleColor::Palette(3));
    assert!(b.style.bold);
    assert_eq!(b.resolved_background, Some(RgbColor { red: 1, green: 2, blue: 3 }));
    let c = &snapshot.rows_data[0].cells[2];
    assert_eq!(c.wide, CellWide::Wide);
    assert_eq!(c.graphemes, vec![0x63, 0x301]);
    assert_eq!(snapshot.rows_data[2].cells[0].codepoint, None);

    assert!(snapshot.cursor.visible);
    assert!(snapshot.cursor.in_viewport);
    assert_eq!(snapshot.cursor.viewport_column, Some(0));
    assert_eq!(snapshot.cursor.viewport_row, Some(2));
    assert_eq!(snapshot.colors.background, RgbColor { red: 0, green: 0, blue: 0 });
    assert_eq!(snapshot.colors.palette.len(), 2);
    assert_eq!(snapshot.colors.palette[1], RgbColor { red: 255, green: 255, blue: 255 });
}

#[test]
fn invalid_codepoints_show_as_spaces() {
    let mut frame = abc_def_frame();
    frame.row_data[1].cells[0].raw_cell.codepoint = 0xD800;
    let mut render_state = RenderState::new();
    let snapshot = render_state.update(frame);
    assert_eq!(snapshot.rows_data[1].cells[0].codepoint, Some(0xD800));
    assert!(snapshot.plain_text_rows()[1].starts_with(" ef"));
}
