//! Plain values that the terminal and its render state report. The adapter
//! reads these and turns them into the editor-facing shapes.
use vstd::prelude::*;

verus! {

/// An RGB color as the terminal reports it.
#[derive(Debug, Clone, Copy, PartialEq, Eq, Structural)]
pub struct VtRgbColor {
    /// Red channel.
    pub r: u8,
    /// Green channel.
    pub g: u8,
    /// Blue channel.
    pub b: u8,
}

/// A style color as the terminal reports it.
#[derive(Debug, Clone, Copy, PartialEq, Eq, Structural)]
pub enum VtStyleColor {
    /// No color set.
    NoColor,
    /// An index into the 256-color palette.
    Palette(u8),
    /// A direct RGB color.
    Rgb(VtRgbColor),
}

/// A cell style as the terminal reports it.
#[derive(Debug, Clone, Copy, PartialEq, Eq, Structural)]
pub struct VtStyle {
    /// Foreground color.
    pub fg_color: VtStyleColor,
    /// Background color.
    pub bg_color: VtStyleColor,
    /// Underline color.
    pub underline_color: VtStyleColor,
    /// Bold flag.
    pub bold: bool,
    /// Italic flag.
    pub italic: bool,
    /// Faint flag.
    pub faint: bool,
    /// Blink flag.
    pub blink: bool,
    /// Inverse flag.
    pub inverse: bool,
    /// Invisible flag.
    pub invisible: bool,
    /// Strikethrough flag.
    pub strikethrough: bool,
    /// Overline flag.
    pub overline: bool,
    /// Underline style, by its numeric value.
    pub underline: i32,
}

/// Width class of a cell as the terminal reports it.
#[derive(Debug, Clone, Copy, PartialEq, Eq, Structural)]
pub enum VtCellWide {
    /// A single-column cell.
    Narrow,
    /// The leading half of a wide character.
    Wide,
    /// The trailing spacer half of a wide character.
    SpacerTail,
    /// A spacer at the end of a line before a wrapped wide character.
    SpacerHead,
}

/// Prompt marking of a row as the terminal reports it.
#[derive(Debug, Clone, Copy, PartialEq, Eq, Structural)]
pub enum VtRowSemanticPrompt {
    /// No prompt cells.
    NoPrompt,
    /// Prompt cells.
    Prompt,
    /// Prompt continuation cells.
    Continuation,
}

/// Dirty state of a render state.
#[derive(Debug, Clone, Copy, PartialEq, Eq, Structural)]
pub enum VtDirty {
    /// Nothing changed.
    Clean,
    /// Some rows changed.
    Partial,
    /// Everything must be redrawn.
    Full,
}

/// A screen cell as the terminal reports it.
#[derive(Debug, Clone, Copy, PartialEq, Eq, Structural)]
pub struct VtCell {
    /// Opaque handle of the cell.
    pub raw: u64,
    /// Whether the cell holds text.
    pub has_text: bool,
    /// Primary codepoint (0 for an empty cell).
    pub codepoint: u32,
    /// Width class.
    pub wide: VtCellWide,
    /// Whether the cell carries a hyperlink.
    pub has_hyperlink: bool,
}

/// A screen row as the terminal reports it.
#[derive(Debug, Clone, Copy, PartialEq, Eq, Structural)]
pub struct VtRow {
    /// Whether the row is soft-wrapped.
    pub wrapped: bool,
    /// Whether the row continues a wrapped line.
    pub wrap_continuation: bool,
    /// Whether any cell holds a grapheme cluster.
    pub has_grapheme_cluster: bool,
    /// Whether any cell is styled.
    pub styled: bool,
    /// Whether any cell has a hyperlink.
    pub has_hyperlink: bool,
    /// Prompt marking.
    pub semantic_prompt: VtRowSemanticPrompt,
    /// Whether the row holds Kitty virtual placeholder cells.
    pub has_kitty_virtual_placeholder: bool,
    /// Whether the row is dirty.
    pub dirty: bool,
}

/// What a grid reference into the screen resolves to.
#[derive(Debug, Clone, Copy, PartialEq, Eq, Structural)]
pub struct VtGridRef {
    /// The row holding the referenced cell.
    pub row: VtRow,
    /// The referenced cell.
    pub cell: VtCell,
    /// The style of the referenced cell.
    pub style: VtStyle,
}

/// The terminal cursor as the terminal reports it.
#[derive(Debug, Clone, Copy, PartialEq, Eq, Structural)]
pub struct VtCursor {
    /// Column of the cursor.
    pub column: u16,
    /// Row of the cursor.
    pub row: u16,
    /// Whether the next printable character wraps first.
    pub pending_wrap: bool,
    /// Whether the cursor is visible.
    pub visible: bool,
    /// Active screen, by its numeric key (1 is the alternate screen).
    pub active_screen: i32,
    /// Active Kitty keyboard flags.
    pub kitty_keyboard_flags: u8,
}

/// Scrollbar geometry as the terminal reports it.
#[derive(Debug, Clone, Copy, PartialEq, Eq, Structural)]
pub struct VtScrollbar {
    /// Total scrollable rows.
    pub total: u64,
    /// Current scroll offset.
    pub offset: u64,
    /// Visible length.
    pub len: u64,
}

/// Cursor position inside the viewport.
#[derive(Debug, Clone, Copy, PartialEq, Eq, Structural)]
pub struct VtViewportCursor {
    /// Viewport column.
    pub x: u16,
    /// Viewport row.
    pub y: u16,
}

/// The color table of a render state.
#[derive(Debug, Clone, PartialEq, Eq)]
pub struct VtColors {
    /// Default background color.
    pub background: VtRgbColor,
    /// Default foreground color.
    pub foreground: VtRgbColor,
    /// Cursor color, if set.
    pub cursor: Option<VtRgbColor>,
    /// The palette.
    pub palette: Vec<VtRgbColor>,
}

/// One cell of a render state row.
#[derive(Debug, Clone, PartialEq, Eq)]
pub struct VtRenderCell {
    /// The screen cell.
    pub raw_cell: VtCell,
    /// Its style.
    pub style: VtStyle,
    /// Resolved background color, if any.
    pub bg_color: Option<VtRgbColor>,
    /// Resolved foreground color, if any.
    pub fg_color: Option<VtRgbColor>,
    /// The cell's grapheme cluster.
    pub graphemes: Vec<char>,
}

/// One row of a render state.
#[derive(Debug, Clone, PartialEq, Eq)]
pub struct VtRenderRow {
    /// Whether the row is dirty in the render state.
    pub dirty: bool,
    /// The screen row.
    pub raw_row: VtRow,
    /// The row's cells.
    pub cells: Vec<VtRenderCell>,
}

/// The contents of a render state after it was updated from a terminal.
#[derive(Debug, Clone, PartialEq, Eq)]
pub struct VtSnapshot {
    /// Viewport columns.
    pub cols: u16,
    /// Viewport rows.
    pub rows: u16,
    /// Dirty state.
    pub dirty: VtDirty,
    /// Whether the cursor is visible.
    pub cursor_visible: bool,
    /// Whether the cursor blinks.
    pub cursor_blinking: bool,
    /// Cursor position, when the cursor lies in the viewport.
    pub cursor_viewport: Option<VtViewportCursor>,
    /// Color table.
    pub colors: VtColors,
    /// Rows, top to bottom.
    pub row_data: Vec<VtRenderRow>,
}

} // verus!
