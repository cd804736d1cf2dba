use vstd::prelude::*;

use crate::style::{
    cell_style_from_wrapper, cell_style_spec, cell_wide_from_wrapper, cell_wide_spec, CellStyle,
    CellWide,
};
use crate::vt::{VtCell, VtCursor, VtGridRef, VtRow, VtRowSemanticPrompt, VtScrollbar, VtStyle};

verus! {

/// Shared screen identity used by summaries.
#[derive(Debug, Clone, Copy, PartialEq, Eq, Structural)]
pub enum Screen {
    /// Primary terminal screen.
    Primary,
    /// Alternate screen buffer.
    Alternate,
}

/// Cursor-related terminal state.
#[derive(Debug, Clone, Copy, PartialEq, Eq, Structural)]
pub struct CursorState {
    /// Cursor column position.
    pub column: u16,
    /// Cursor row position.
    pub row: u16,
    /// Whether the next printable character wraps first.
    pub pending_wrap: bool,
    /// Whether the cursor is visible.
    pub visible: bool,
    /// Active screen buffer.
    pub active_screen: Screen,
    /// Active Kitty keyboard flags as a raw bitset.
    pub kitty_flags: u8,
}

/// Scrollbar state.
#[derive(Debug, Clone, Copy, PartialEq, Eq, Structural)]
pub struct ScrollbarState {
    /// Total scrollable rows.
    pub total: u64,
    /// Current scroll offset.
    pub offset: u64,
    /// Visible scrollbar length.
    pub len: u64,
}

/// Prompt classification for a grid row.
#[derive(Debug, Clone, Copy, PartialEq, Eq, Structural)]
pub enum RowSemanticPrompt {
    /// No prompt cells in the row.
    NoPrompt,
    /// Prompt cells exist in the row.
    Prompt,
    /// Prompt continuation cells exist in the row.
    PromptContinuation,
}

/// Grid cell data.
#[derive(Debug, Clone, Copy, PartialEq, Eq, Structural)]
pub struct GridCell {
    /// Primary codepoint for the cell, if any.
    pub codepoint: Option<u32>,
    /// Width classification.
    pub wide: CellWide,
    /// Cell style metadata.
    pub style: CellStyle,
}

/// Grid row data.
#[derive(Debug, Clone, Copy, PartialEq, Eq, Structural)]
pub struct GridRow {
    /// Whether the row is soft-wrapped.
    pub wrapped: bool,
    /// Whether the row continues a wrapped line.
    pub wrap_continuation: bool,
    /// Whether any cells contain grapheme clusters.
    pub has_grapheme_cluster: bool,
    /// Whether any cells are styled.
    pub is_styled: bool,
    /// Whether any cells have hyperlinks.
    pub has_hyperlink: bool,
    /// Prompt metadata for the row.
    pub semantic_prompt: RowSemanticPrompt,
    /// Whether the row contains Kitty placeholder cells.
    pub has_kitty_virtual_placeholder: bool,
    /// Whether the row is dirty.
    pub is_dirty: bool,
}

/// The screen that a numeric screen key denotes: 1 is the alternate screen,
/// every other value the primary one.
pub open spec fn screen_spec(raw: i32) -> Screen {
    if raw == 1 {
        Screen::Alternate
    } else {
        Screen::Primary
    }
}

/// The prompt marking with the same meaning.
pub open spec fn row_semantic_prompt_spec(prompt: VtRowSemanticPrompt) -> RowSemanticPrompt {
    match prompt {
        VtRowSemanticPrompt::NoPrompt => RowSemanticPrompt::NoPrompt,
        VtRowSemanticPrompt::Prompt => RowSemanticPrompt::Prompt,
        VtRowSemanticPrompt::Continuation => RowSemanticPrompt::PromptContinuation,
    }
}

/// The cursor summary of a terminal cursor.
pub open spec fn cursor_state_spec(cursor: VtCursor) -> CursorState {
    CursorState {
        column: cursor.column,
        row: cursor.row,
        pending_wrap: cursor.pending_wrap,
        visible: cursor.visible,
        active_screen: screen_spec(cursor.active_screen),
        kitty_flags: cursor.kitty_keyboard_flags,
    }
}

/// The grid summary of a screen row.
pub open spec fn grid_row_spec(row: VtRow) -> GridRow {
    GridRow {
        wrapped: row.wrapped,
        wrap_continuation: row.wrap_continuation,
        has_grapheme_cluster: row.has_grapheme_cluster,
        is_styled: row.styled,
        has_hyperlink: row.has_hyperlink,
        semantic_prompt: row_semantic_prompt_spec(row.semantic_prompt),
        has_kitty_virtual_placeholder: row.has_kitty_virtual_placeholder,
        is_dirty: row.dirty,
    }
}

/// The grid summary of a screen cell: its codepoint only when it holds text.
pub open spec fn grid_cell_spec(cell: VtCell, style: VtStyle) -> GridCell {
    GridCell {
        codepoint: if cell.has_text {
            Some(cell.codepoint)
        } else {
            None
        },
        wide: cell_wide_spec(cell.wide),
        style: cell_style_spec(style),
    }
}

/// Screen key 1 is the alternate screen; every other key is the primary one.
pub proof fn law_screen_keys(raw: i32)
    ensures
        raw == 1 ==> screen_spec(raw) == Screen::Alternate,
        raw != 1 ==> screen_spec(raw) == Screen::Primary,
{
}

/// Each prompt marking converts to the marking of the same meaning.
pub proof fn law_row_semantic_prompt_keeps_its_meaning(prompt: VtRowSemanticPrompt)
    ensures
        prompt == VtRowSemanticPrompt::NoPrompt ==> row_semantic_prompt_spec(prompt) == RowSemanticPrompt::NoPrompt,
        prompt == VtRowSemanticPrompt::Prompt ==> row_semantic_prompt_spec(prompt) == RowSemanticPrompt::Prompt,
        prompt == VtRowSemanticPrompt::Continuation ==> row_semantic_prompt_spec(prompt) == RowSemanticPrompt::PromptContinuation,
{
}

/// The cursor summary keeps the position, the wrap and visibility flags and
/// the Kitty flags, and names the screen that the key denotes.
pub proof fn law_cursor_state_keeps_each_field(cursor: VtCursor)
    ensures
        cursor_state_spec(cursor).column == cursor.column,
        cursor_state_spec(cursor).row == cursor.row,
        cursor_state_spec(cursor).pending_wrap == cursor.pending_wrap,
        cursor_state_spec(cursor).visible == cursor.visible,
        cursor_state_spec(cursor).kitty_flags == cursor.kitty_keyboard_flags,
        cursor.active_screen == 1 ==> cursor_state_spec(cursor).active_screen == Screen::Alternate,
        cursor.active_screen != 1 ==> cursor_state_spec(cursor).active_screen == Screen::Primary,
{
}

/// The grid row summary carries each row flag under its own name, and the
/// prompt marking of the same meaning.
pub proof fn law_grid_row_keeps_each_flag(row: VtRow)
    ensures
        grid_row_spec(row).wrapped == row.wrapped,
        grid_row_spec(row).wrap_continuation == row.wrap_continuation,
        grid_row_spec(row).has_grapheme_cluster == row.has_grapheme_cluster,
        grid_row_spec(row).is_styled == row.styled,
        grid_row_spec(row).has_hyperlink == row.has_hyperlink,
        grid_row_spec(row).has_kitty_virtual_placeholder == row.has_kitty_virtual_placeholder,
        grid_row_spec(row).is_dirty == row.dirty,
        row.semantic_prompt == VtRowSemanticPrompt::NoPrompt ==> grid_row_spec(row).semantic_prompt == RowSemanticPrompt::NoPrompt,
        row.semantic_prompt == VtRowSemanticPrompt::Prompt ==> grid_row_spec(row).semantic_prompt == RowSemanticPrompt::Prompt,
        row.semantic_prompt == VtRowSemanticPrompt::Continuation ==> grid_row_spec(row).semantic_prompt == RowSemanticPrompt::PromptContinuation,
{
}

/// The grid cell summary has the cell's codepoint exactly when the cell
/// holds text, its width class and its style.
pub proof fn law_grid_cell_keeps_its_contents(cell: VtCell, style: VtStyle)
    ensures
        cell.has_text ==> grid_cell_spec(cell, style).codepoint == Some(cell.codepoint),
        !cell.has_text ==> grid_cell_spec(cell, style).codepoint is None,
        grid_cell_spec(cell, style).wide == cell_wide_spec(cell.wide),
        grid_cell_spec(cell, style).style == cell_style_spec(style),
{
}

/// Map a numeric screen key to a screen.
pub fn screen_from_raw(raw: i32) -> (screen: Screen)
    ensures
        screen == screen_spec(raw),
        raw == 1 ==> screen == Screen::Alternate,
        raw != 1 ==> screen == Screen::Primary,
{
    if raw == 1 {
        Screen::Alternate
    } else {
        Screen::Primary
    }
}

/// Convert a terminal prompt marking.
pub fn row_semantic_prompt_from_wrapper(prompt: VtRowSemanticPrompt) -> (converted:
    RowSemanticPrompt)
    ensures
        converted == row_semantic_prompt_spec(prompt),
        prompt == VtRowSemanticPrompt::NoPrompt ==> converted == RowSemanticPrompt::NoPrompt,
        prompt == VtRowSemanticPrompt::Prompt ==> converted == RowSemanticPrompt::Prompt,
        prompt == VtRowSemanticPrompt::Continuation ==> converted == RowSemanticPrompt::PromptContinuation,
{
    match prompt {
        VtRowSemanticPrompt::NoPrompt => RowSemanticPrompt::NoPrompt,
        VtRowSemanticPrompt::Prompt => RowSemanticPrompt::Prompt,
        VtRowSemanticPrompt::Continuation => RowSemanticPrompt::PromptContinuation,
    }
}

/// Build a cursor summary from the terminal cursor.
pub fn cursor_state(cursor: &VtCursor) -> (state: CursorState)
    ensures
        state == cursor_state_spec(*cursor),
        state.column == cursor.column,
        state.row == cursor.row,
        state.pending_wrap == cursor.pending_wrap,
        state.visible == cursor.visible,
        state.kitty_flags == cursor.kitty_keyboard_flags,
        cursor.active_screen == 1 ==> state.active_screen == Screen::Alternate,
        cursor.active_screen != 1 ==> state.active_screen == Screen::Primary,
{
    CursorState {
        column: cursor.column,
        row: cursor.row,
        pending_wrap: cursor.pending_wrap,
        visible: cursor.visible,
        active_screen: screen_from_raw(cursor.active_screen),
        kitty_flags: cursor.kitty_keyboard_flags,
    }
}

/// Build a scrollbar summary from the terminal scrollbar.
pub fn scrollbar_state(scrollbar: &VtScrollbar) -> (state: ScrollbarState)
    ensures
        state == (ScrollbarState {
            total: scrollbar.total,
            offset: scrollbar.offset,
            len: scrollbar.len,
        }),
{
    ScrollbarState { total: scrollbar.total, offset: scrollbar.offset, len: scrollbar.len }
}

/// Convert a terminal grid row.
pub fn grid_row_from_wrapper(row: VtRow) -> (converted: GridRow)
    ensures
        converted == grid_row_spec(row),
        converted.wrapped == row.wrapped,
        converted.wrap_continuation == row.wrap_continuation,
        converted.has_grapheme_cluster == row.has_grapheme_cluster,
        converted.is_styled == row.styled,
        converted.has_hyperlink == row.has_hyperlink,
        converted.has_kitty_virtual_placeholder == row.has_kitty_virtual_placeholder,
        converted.is_dirty == row.dirty,
        row.semantic_prompt == VtRowSemanticPrompt::NoPrompt ==> converted.semantic_prompt == RowSemanticPrompt::NoPrompt,
        row.semantic_prompt == VtRowSemanticPrompt::Prompt ==> converted.semantic_prompt == RowSemanticPrompt::Prompt,
        row.semantic_prompt == VtRowSemanticPrompt::Continuation ==> converted.semantic_prompt == RowSemanticPrompt::PromptContinuation,
{
    GridRow {
        wrapped: row.wrapped,
        wrap_continuation: row.wrap_continuation,
        has_grapheme_cluster: row.has_grapheme_cluster,
        is_styled: row.styled,
        has_hyperlink: row.has_hyperlink,
        semantic_prompt: row_semantic_prompt_from_wrapper(row.semantic_prompt),
        has_kitty_virtual_placeholder: row.has_kitty_virtual_placeholder,
        is_dirty: row.dirty,
    }
}

/// Convert a terminal grid cell and its style.
pub fn grid_cell_from_wrapper(cell: VtCell, style: VtStyle) -> (converted: GridCell)
    ensures
        converted == grid_cell_spec(cell, style),
        cell.has_text ==> converted.codepoint == Some(cell.codepoint),
        !cell.has_text ==> converted.codepoint is None,
        converted.wide == cell_wide_spec(cell.wide),
        converted.style == cell_style_spec(style),
{
    let codepoint = if cell.has_text {
        Some(cell.codepoint)
    } else {
        None
    };
    GridCell {
        codepoint,
        wide: cell_wide_from_wrapper(cell.wide),
        style: cell_style_from_wrapper(style),
    }
}

/// Resolve a grid row from a grid reference.
pub fn grid_row(grid_ref: &VtGridRef) -> (row: GridRow)
    ensures
        row == grid_row_spec(grid_ref.row),
        row.wrapped == grid_ref.row.wrapped,
        row.wrap_continuation == grid_ref.row.wrap_continuation,
        row.has_grapheme_cluster == grid_ref.row.has_grapheme_cluster,
        row.is_styled == grid_ref.row.styled,
        row.has_hyperlink == grid_ref.row.has_hyperlink,
        row.has_kitty_virtual_placeholder == grid_ref.row.has_kitty_virtual_placeholder,
        row.is_dirty == grid_ref.row.dirty,
        grid_ref.row.semantic_prompt == VtRowSemanticPrompt::NoPrompt ==> row.semantic_prompt == RowSemanticPrompt::NoPrompt,
        grid_ref.row.semantic_prompt == VtRowSemanticPrompt::Prompt ==> row.semantic_prompt == RowSemanticPrompt::Prompt,
        grid_ref.row.semantic_prompt == VtRowSemanticPrompt::Continuation ==> row.semantic_prompt == RowSemanticPrompt::PromptContinuation,
{
    grid_row_from_wrapper(grid_ref.row)
}

/// Resolve a grid cell from a grid reference.
pub fn grid_cell(grid_ref: &VtGridRef) -> (cell: GridCell)
    ensures
        cell == grid_cell_spec(grid_ref.cell, grid_ref.style),
        grid_ref.cell.has_text ==> cell.codepoint == Some(grid_ref.cell.codepoint),
        !grid_ref.cell.has_text ==> cell.codepoint is None,
        cell.wide == cell_wide_spec(grid_ref.cell.wide),
        cell.style == cell_style_spec(grid_ref.style),
{
    let style = grid_ref.style;
    let cell = grid_ref.cell;
    grid_cell_from_wrapper(cell, style)
}

} // verus!
