use vstd::prelude::*;

use crate::style::{
    cell_style_from_wrapper, cell_style_spec, cell_wide_from_wrapper, cell_wide_spec,
    rgb_color_from_wrapper, rgb_color_spec, CellStyle, CellWide, RgbColor,
};
use crate::text::{char_from_u32, is_scalar_value, push_char};
use crate::vt::{
    VtColors, VtDirty, VtRenderCell, VtRenderRow, VtRgbColor, VtSnapshot, VtViewportCursor,
};

verus! {

/// Dirty state for a render snapshot.
#[derive(Debug, Clone, Copy, PartialEq, Eq, Structural)]
pub enum RenderDirty {
    /// The frame is clean.
    Clean,
    /// Some rows have changed.
    Partial,
    /// The whole frame should be treated as dirty.
    Full,
}

/// Rendered cell data.
#[derive(Debug, Clone, PartialEq, Eq)]
pub struct RenderCell {
    /// Raw cell handle.
    pub raw: u64,
    /// Primary codepoint for the cell, if any.
    pub codepoint: Option<u32>,
    /// Width classification for the cell.
    pub wide: CellWide,
    /// Resolved style metadata.
    pub style: CellStyle,
    /// Resolved background color, if available.
    pub resolved_background: Option<RgbColor>,
    /// Resolved foreground color, if available.
    pub resolved_foreground: Option<RgbColor>,
    /// Whether the cell has a hyperlink.
    pub has_hyperlink: bool,
    /// Full grapheme cluster codepoints for the cell.
    pub graphemes: Vec<u32>,
}

/// Rendered row data.
#[derive(Debug, Clone, PartialEq, Eq)]
pub struct RenderRow {
    /// Whether the row was dirty before snapshot adaptation cleared it.
    pub dirty: bool,
    /// Whether the row is soft-wrapped.
    pub wrapped: bool,
    /// Whether the row continues a wrapped line.
    pub wrap_continuation: bool,
    /// Whether the row contains a Kitty placeholder.
    pub has_kitty_virtual_placeholder: bool,
    /// Cells in the row.
    pub cells: Vec<RenderCell>,
}

/// Cursor information for a render snapshot.
#[derive(Debug, Clone, Copy, PartialEq, Eq, Structural)]
pub struct RenderCursor {
    /// Whether the cursor is visible.
    pub visible: bool,
    /// Whether the cursor is blinking.
    pub blinking: bool,
    /// Whether the cursor lies within the viewport.
    pub in_viewport: bool,
    /// Viewport column of the cursor, if visible in the viewport.
    pub viewport_column: Option<u16>,
    /// Viewport row of the cursor, if visible in the viewport.
    pub viewport_row: Option<u16>,
}

/// Color palette data for a render snapshot.
#[derive(Debug, Clone, PartialEq, Eq)]
pub struct RenderColors {
    /// Default background color.
    pub background: RgbColor,
    /// Default foreground color.
    pub foreground: RgbColor,
    /// Cursor color override, if present.
    pub cursor: Option<RgbColor>,
    /// Resolved palette colors.
    pub palette: Vec<RgbColor>,
}

/// Eager render snapshot.
#[derive(Debug, Clone, PartialEq, Eq)]
pub struct RenderSnapshot {
    /// Number of columns in the viewport.
    pub columns: u16,
    /// Number of rows in the viewport.
    pub rows: u16,
    /// Dirty state of the snapshot before it was cleared.
    pub dirty: RenderDirty,
    /// Cursor metadata.
    pub cursor: RenderCursor,
    /// Color metadata.
    pub colors: RenderColors,
    /// Materialized row data.
    pub rows_data: Vec<RenderRow>,
}

/// The dirty state with the same meaning.
pub open spec fn render_dirty_spec(dirty: VtDirty) -> RenderDirty {
    match dirty {
        VtDirty::Clean => RenderDirty::Clean,
        VtDirty::Partial => RenderDirty::Partial,
        VtDirty::Full => RenderDirty::Full,
    }
}

/// A converted optional color.
pub open spec fn optional_rgb_spec(color: Option<VtRgbColor>) -> Option<RgbColor> {
    match color {
        Some(c) => Some(rgb_color_spec(c)),
        None => None,
    }
}

/// The cursor summary of a render state.
pub open spec fn render_cursor_spec(snapshot: VtSnapshot) -> RenderCursor {
    RenderCursor {
        visible: snapshot.cursor_visible,
        blinking: snapshot.cursor_blinking,
        in_viewport: snapshot.cursor_viewport is Some,
        viewport_column: match snapshot.cursor_viewport {
            Some(c) => Some(c.x),
            None => None,
        },
        viewport_row: match snapshot.cursor_viewport {
            Some(c) => Some(c.y),
            None => None,
        },
    }
}

/// `out` is the color table `colors`, every color converted.
pub open spec fn colors_match(out: RenderColors, colors: VtColors) -> bool {
    &&& out.background == rgb_color_spec(colors.background)
    &&& out.foreground == rgb_color_spec(colors.foreground)
    &&& out.cursor == optional_rgb_spec(colors.cursor)
    &&& out.palette@ == colors.palette@.map_values(|c: VtRgbColor| rgb_color_spec(c))
}

/// `out` is the render cell `cell`: a zero codepoint means no codepoint, and
/// the grapheme cluster is kept as codepoints.
pub open spec fn render_cell_matches(out: RenderCell, cell: VtRenderCell) -> bool {
    &&& out.raw == cell.raw_cell.raw
    &&& out.codepoint == (if cell.raw_cell.codepoint != 0 {
        Some(cell.raw_cell.codepoint)
    } else {
        None
    })
    &&& out.wide == cell_wide_spec(cell.raw_cell.wide)
    &&& out.style == cell_style_spec(cell.style)
    &&& out.resolved_background == optional_rgb_spec(cell.bg_color)
    &&& out.resolved_foreground == optional_rgb_spec(cell.fg_color)
    &&& out.has_hyperlink == cell.raw_cell.has_hyperlink
    &&& out.graphemes@ == cell.graphemes@.map_values(|c: char| c as u32)
}

/// `out` is the render row `row`, cell by cell, with the dirty flag it had.
pub open spec fn render_row_matches(out: RenderRow, row: VtRenderRow) -> bool {
    &&& out.dirty == row.dirty
    &&& out.wrapped == row.raw_row.wrapped
    &&& out.wrap_continuation == row.raw_row.wrap_continuation
    &&& out.has_kitty_virtual_placeholder == row.raw_row.has_kitty_virtual_placeholder
    &&& out.cells@.len() == row.cells@.len()
    &&& forall|i: int|
        0 <= i < row.cells@.len() ==> render_cell_matches(#[trigger] out.cells@[i], row.cells@[i])
}

/// `out` is the snapshot of render state `snapshot`, as it was before the
/// dirty flags were cleared.
pub open spec fn snapshot_matches(out: RenderSnapshot, snapshot: VtSnapshot) -> bool {
    &&& out.columns == snapshot.cols
    &&& out.rows == snapshot.rows
    &&& out.dirty == render_dirty_spec(snapshot.dirty)
    &&& out.cursor == render_cursor_spec(snapshot)
    &&& colors_match(out.colors, snapshot.colors)
    &&& out.rows_data@.len() == snapshot.row_data@.len()
    &&& forall|i: int|
        0 <= i < snapshot.row_data@.len() ==> render_row_matches(
            #[trigger] out.rows_data@[i],
            snapshot.row_data@[i],
        )
}

/// `after` is `before` with its dirty state clean and every row clean.
pub open spec fn cleared(before: VtSnapshot, after: VtSnapshot) -> bool {
    &&& after.cols == before.cols
    &&& after.rows == before.rows
    &&& after.dirty == VtDirty::Clean
    &&& after.cursor_visible == before.cursor_visible
    &&& after.cursor_blinking == before.cursor_blinking
    &&& after.cursor_viewport == before.cursor_viewport
    &&& after.colors == before.colors
    &&& after.row_data@.len() == before.row_data@.len()
    &&& forall|i: int|
        0 <= i < before.row_data@.len() ==> #[trigger] after.row_data@[i] == (VtRenderRow {
            dirty: false,
            ..before.row_data@[i]
        })
}

/// The character shown for a cell: its codepoint when that is a Unicode
/// scalar value, a space otherwise.
pub open spec fn display_char(codepoint: Option<u32>) -> char {
    match codepoint {
        Some(u) => if is_scalar_value(u) {
            u as char
        } else {
            ' '
        },
        None => ' ',
    }
}

/// The text of a row: one character per cell.
pub open spec fn row_text(row: RenderRow) -> Seq<char> {
    row.cells@.map_values(|cell: RenderCell| display_char(cell.codepoint))
}

/// The text of a row has one character per cell: the character whose
/// codepoint the cell holds when that codepoint is a Unicode scalar value, and
/// a space when the cell holds none or one that no character has.
pub proof fn law_row_text_shows_each_cell(row: RenderRow)
    ensures
        row_text(row).len() == row.cells@.len(),
        forall|j: int|
            0 <= j < row.cells@.len() ==> (row.cells@[j].codepoint matches Some(u) ==> (u <= 0x10FFFF
                && !(0xD800 <= u && u <= 0xDFFF) ==> #[trigger] row_text(row)[j] == u as char)),
        forall|j: int|
            0 <= j < row.cells@.len() && !(row.cells@[j].codepoint matches Some(u) && u <= 0x10FFFF
                && !(0xD800 <= u && u <= 0xDFFF)) ==> #[trigger] row_text(row)[j] == ' ',
{
}

impl RenderSnapshot {
    /// Return rows as plain text, replacing empty cells with spaces.
    pub fn plain_text_rows(&self) -> (texts: Vec<String>)
        ensures
            texts@.len() == self.rows_data@.len(),
            forall|i: int|
                0 <= i < self.rows_data@.len() ==> (#[trigger] texts@[i])@ == row_text(
                    self.rows_data@[i],
                ),
            forall|i: int|
                0 <= i < self.rows_data@.len() ==> (#[trigger] texts@[i])@.len()
                    == self.rows_data@[i].cells@.len(),
            forall|i: int, j: int|
                0 <= i < self.rows_data@.len() && 0 <= j < self.rows_data@[i].cells@.len() ==> (
                self.rows_data@[i].cells@[j].codepoint matches Some(u) ==> (u <= 0x10FFFF && !(0xD800
                    <= u && u <= 0xDFFF) ==> #[trigger] texts@[i]@[j] == u as char)),
            forall|i: int, j: int|
                0 <= i < self.rows_data@.len() && 0 <= j < self.rows_data@[i].cells@.len() && !(
                self.rows_data@[i].cells@[j].codepoint matches Some(u) && u <= 0x10FFFF && !(0xD800
                    <= u && u <= 0xDFFF)) ==> #[trigger] texts@[i]@[j] == ' ',
    {
        let mut texts: Vec<String> = Vec::new();
        let n = self.rows_data.len();
        let mut i: usize = 0;
        while i < n
            invariant
                n == self.rows_data@.len(),
                i <= n,
                texts@.len() == i,
                forall|k: int| 0 <= k < i ==> (#[trigger] texts@[k])@ == row_text(self.rows_data@[k]),
            decreases n - i,
        {
            let row = &self.rows_data[i];
            let mut text = String::new();
            let m = row.cells.len();
            let mut j: usize = 0;
            while j < m
                invariant
                    m == row.cells@.len(),
                    j <= m,
                    text@ == row_text(*row).subrange(0, j as int),
                decreases m - j,
            {
                let shown = match row.cells[j].codepoint {
                    Some(u) => match char_from_u32(u) {
                        Some(c) => c,
                        None => ' ',
                    },
                    None => ' ',
                };
                push_char(&mut text, shown);
                assert(row_text(*row).subrange(0, j + 1) =~= row_text(*row).subrange(0, j as int).push(shown));
                j = j + 1;
            }
            assert(row_text(*row).subrange(0, m as int) =~= row_text(*row));
            texts.push(text);
            i = i + 1;
        }
        proof {
            assert forall|i: int| 0 <= i < self.rows_data@.len() implies (#[trigger] texts@[i])@.len()
                == self.rows_data@[i].cells@.len() by {
                law_row_text_shows_each_cell(self.rows_data@[i]);
            }
            assert forall|i: int, j: int|
                0 <= i < self.rows_data@.len() && 0 <= j < self.rows_data@[i].cells@.len() implies (
                self.rows_data@[i].cells@[j].codepoint matches Some(u) ==> (u <= 0x10FFFF && !(0xD800
                    <= u && u <= 0xDFFF) ==> #[trigger] texts@[i]@[j] == u as char)) by {
                law_row_text_shows_each_cell(self.rows_data@[i]);
            }
            assert forall|i: int, j: int|
                0 <= i < self.rows_data@.len() && 0 <= j < self.rows_data@[i].cells@.len() && !(
                self.rows_data@[i].cells@[j].codepoint matches Some(u) && u <= 0x10FFFF && !(0xD800
                    <= u && u <= 0xDFFF)) implies #[trigger] texts@[i]@[j] == ' ' by {
                law_row_text_shows_each_cell(self.rows_data@[i]);
            }
        }
        texts
    }

    /// Borrow the snapshot rows.
    pub fn rows(&self) -> (rows: &[RenderRow])
        ensures
            rows@ == self.rows_data@,
    {
        self.rows_data.as_slice()
    }
}

/// Convert a render-state dirty state.
pub fn render_dirty_from_wrapper(dirty: VtDirty) -> (converted: RenderDirty)
    ensures
        converted == render_dirty_spec(dirty),
        dirty == VtDirty::Clean ==> converted == RenderDirty::Clean,
        dirty == VtDirty::Partial ==> converted == RenderDirty::Partial,
        dirty == VtDirty::Full ==> converted == RenderDirty::Full,
{
    match dirty {
        VtDirty::Clean => RenderDirty::Clean,
        VtDirty::Partial => RenderDirty::Partial,
        VtDirty::Full => RenderDirty::Full,
    }
}

fn optional_rgb(color: Option<VtRgbColor>) -> (converted: Option<RgbColor>)
    ensures
        converted == optional_rgb_spec(color),
{
    match color {
        Some(c) => Some(rgb_color_from_wrapper(c)),
        None => None,
    }
}

/// Read the cursor summary of a render state.
pub fn render_cursor_from_wrapper(snapshot: &VtSnapshot) -> (cursor: RenderCursor)
    ensures
        cursor == render_cursor_spec(*snapshot),
        cursor.visible == snapshot.cursor_visible,
        cursor.blinking == snapshot.cursor_blinking,
        cursor.in_viewport == (snapshot.cursor_viewport is Some),
        forall|c: VtViewportCursor|
            snapshot.cursor_viewport == Some(c) ==> cursor.viewport_column == Some(c.x) && cursor.viewport_row
                == Some(c.y),
        snapshot.cursor_viewport is None ==> cursor.viewport_column is None && cursor.viewport_row is None,
{
    let viewport = snapshot.cursor_viewport;
    RenderCursor {
        visible: snapshot.cursor_visible,
        blinking: snapshot.cursor_blinking,
        in_viewport: viewport.is_some(),
        viewport_column: match viewport {
            Some(c) => Some(c.x),
            None => None,
        },
        viewport_row: match viewport {
            Some(c) => Some(c.y),
            None => None,
        },
    }
}

/// Convert a render-state color table.
pub fn render_colors_from_wrapper(colors: &VtColors) -> (converted: RenderColors)
    ensures
        colors_match(converted, *colors),
        converted.background == (RgbColor { red: colors.background.r, green: colors.background.g, blue: colors.background.b }),
        converted.foreground == (RgbColor { red: colors.foreground.r, green: colors.foreground.g, blue: colors.foreground.b }),
        forall|k: VtRgbColor|
            colors.cursor == Some(k) ==> converted.cursor == Some(RgbColor { red: k.r, green: k.g, blue: k.b }),
        colors.cursor is None ==> converted.cursor is None,
        converted.palette@.len() == colors.palette@.len(),
        forall|i: int|
            0 <= i < colors.palette@.len() ==> #[trigger] converted.palette@[i] == (RgbColor {
                red: colors.palette@[i].r,
                green: colors.palette@[i].g,
                blue: colors.palette@[i].b,
            }),
{
    let mut palette: Vec<RgbColor> = Vec::with_capacity(colors.palette.len());
    let n = colors.palette.len();
    let mut i: usize = 0;
    while i < n
        invariant
            n == colors.palette@.len(),
            i <= n,
            palette@ == colors.palette@.subrange(0, i as int).map_values(
                |c: VtRgbColor| rgb_color_spec(c),
            ),
        decreases n - i,
    {
        palette.push(rgb_color_from_wrapper(colors.palette[i]));
        assert(colors.palette@.subrange(0, i + 1) =~= colors.palette@.subrange(0, i as int).push(
            colors.palette@[i as int],
        ));
        i = i + 1;
    }
    assert(colors.palette@.subrange(0, n as int) =~= colors.palette@);
    RenderColors {
        background: rgb_color_from_wrapper(colors.background),
        foreground: rgb_color_from_wrapper(colors.foreground),
        cursor: optional_rgb(colors.cursor),
        palette,
    }
}

/// Convert one render-state cell.
pub fn render_cell_from_wrapper(cell: &VtRenderCell) -> (converted: RenderCell)
    ensures
        render_cell_matches(converted, *cell),
        converted.raw == cell.raw_cell.raw,
        cell.raw_cell.codepoint != 0 ==> converted.codepoint == Some(cell.raw_cell.codepoint),
        cell.raw_cell.codepoint == 0 ==> converted.codepoint is None,
        converted.wide == cell_wide_spec(cell.raw_cell.wide),
        converted.style == cell_style_spec(cell.style),
        converted.has_hyperlink == cell.raw_cell.has_hyperlink,
        converted.graphemes@.len() == cell.graphemes@.len(),
        forall|i: int|
            0 <= i < cell.graphemes@.len() ==> #[trigger] converted.graphemes@[i] == cell.graphemes@[i] as u32,
{
    let raw_cell = cell.raw_cell;
    let mut graphemes: Vec<u32> = Vec::with_capacity(cell.graphemes.len());
    let n = cell.graphemes.len();
    let mut i: usize = 0;
    while i < n
        invariant
            n == cell.graphemes@.len(),
            i <= n,
            graphemes@ == cell.graphemes@.subrange(0, i as int).map_values(|c: char| c as u32),
        decreases n - i,
    {
        let c = cell.graphemes[i];
        graphemes.push(c as u32);
        assert(cell.graphemes@.subrange(0, i + 1) =~= cell.graphemes@.subrange(0, i as int).push(c));
        i = i + 1;
    }
    assert(cell.graphemes@.subrange(0, n as int) =~= cell.graphemes@);
    let codepoint = if raw_cell.codepoint != 0 {
        Some(raw_cell.codepoint)
    } else {
        None
    };
    RenderCell {
        raw: raw_cell.raw,
        codepoint,
        wide: cell_wide_from_wrapper(raw_cell.wide),
        style: cell_style_from_wrapper(cell.style),
        resolved_background: optional_rgb(cell.bg_color),
        resolved_foreground: optional_rgb(cell.fg_color),
        has_hyperlink: raw_cell.has_hyperlink,
        graphemes,
    }
}

/// Convert one render-state row and then clear its dirty flag.
pub fn render_row_from_wrapper(row: &mut VtRenderRow, columns: u16) -> (converted: RenderRow)
    ensures
        render_row_matches(converted, *old(row)),
        converted.dirty == old(row).dirty,
        converted.wrapped == old(row).raw_row.wrapped,
        converted.wrap_continuation == old(row).raw_row.wrap_continuation,
        converted.has_kitty_virtual_placeholder == old(row).raw_row.has_kitty_virtual_placeholder,
        converted.cells@.len() == old(row).cells@.len(),
        *final(row) == (VtRenderRow { dirty: false, ..*old(row) }),
{
    let mut cells: Vec<RenderCell> = Vec::with_capacity(columns as usize);
    let n = row.cells.len();
    let mut i: usize = 0;
    while i < n
        invariant
            n == row.cells@.len(),
            i <= n,
            cells@.len() == i,
            forall|k: int| 0 <= k < i ==> render_cell_matches(#[trigger] cells@[k], row.cells@[k]),
        decreases n - i,
    {
        cells.push(render_cell_from_wrapper(&row.cells[i]));
        i = i + 1;
    }
    let converted = RenderRow {
        dirty: row.dirty,
        wrapped: row.raw_row.wrapped,
        wrap_continuation: row.raw_row.wrap_continuation,
        has_kitty_virtual_placeholder: row.raw_row.has_kitty_virtual_placeholder,
        cells,
    };
    row.dirty = false;
    converted
}

/// Turn a render state into an eager snapshot, then mark the render state
/// and all of its rows clean.
pub fn adapt_snapshot(snapshot: &mut VtSnapshot) -> (converted: RenderSnapshot)
    ensures
        snapshot_matches(converted, *old(snapshot)),
        cleared(*old(snapshot), *final(snapshot)),
        converted.columns == old(snapshot).cols,
        converted.rows == old(snapshot).rows,
        converted.colors.background == (RgbColor {
            red: old(snapshot).colors.background.r,
            green: old(snapshot).colors.background.g,
            blue: old(snapshot).colors.background.b,
        }),
        converted.colors.foreground == (RgbColor {
            red: old(snapshot).colors.foreground.r,
            green: old(snapshot).colors.foreground.g,
            blue: old(snapshot).colors.foreground.b,
        }),
{
    let columns = snapshot.cols;
    let rows = snapshot.rows;
    let dirty = render_dirty_from_wrapper(snapshot.dirty);
    let cursor = render_cursor_from_wrapper(snapshot);
    let colors = render_colors_from_wrapper(&snapshot.colors);
    let ghost before = *snapshot;
    let mut rows_data: Vec<RenderRow> = Vec::with_capacity(rows as usize);
    let n = snapshot.row_data.len();
    let mut i: usize = 0;
    while i < n
        invariant
            n == before.row_data@.len(),
            n == snapshot.row_data@.len(),
            i <= n,
            snapshot.cols == before.cols,
            snapshot.rows == before.rows,
            snapshot.dirty == before.dirty,
            snapshot.cursor_visible == before.cursor_visible,
            snapshot.cursor_blinking == before.cursor_blinking,
            snapshot.cursor_viewport == before.cursor_viewport,
            snapshot.colors == before.colors,
            rows_data@.len() == i,
            forall|k: int|
                0 <= k < i ==> render_row_matches(#[trigger] rows_data@[k], before.row_data@[k]),
            forall|k: int|
                0 <= k < i ==> #[trigger] snapshot.row_data@[k] == (VtRenderRow {
                    dirty: false,
                    ..before.row_data@[k]
                }),
            forall|k: int| i <= k < n ==> #[trigger] snapshot.row_data@[k] == before.row_data@[k],
        decreases n - i,
    {
        let converted_row = render_row_from_wrapper(&mut snapshot.row_data[i], columns);
        rows_data.push(converted_row);
        i = i + 1;
    }
    snapshot.dirty = VtDirty::Clean;
    RenderSnapshot { columns, rows, dirty, cursor, colors, rows_data }
}

/// Eager render-state adapter: it holds the render state's contents and
/// turns each update into a snapshot.
#[derive(Debug)]
pub struct RenderState {
    state: VtSnapshot,
}

impl RenderState {
    /// The render state's current contents.
    pub closed spec fn contents(&self) -> VtSnapshot {
        self.state
    }

    /// Create an empty render state: no viewport, clean, no cursor, black
    /// default colors and an empty palette.
    pub fn new() -> (render_state: Self)
        ensures
            render_state.contents().cols == 0,
            render_state.contents().rows == 0,
            render_state.contents().dirty == VtDirty::Clean,
            !render_state.contents().cursor_visible,
            !render_state.contents().cursor_blinking,
            render_state.contents().cursor_viewport is None,
            render_state.contents().colors.background == (VtRgbColor { r: 0, g: 0, b: 0 }),
            render_state.contents().colors.foreground == (VtRgbColor { r: 0, g: 0, b: 0 }),
            render_state.contents().colors.cursor is None,
            render_state.contents().colors.palette@.len() == 0,
            render_state.contents().row_data@.len() == 0,
    {
        let black = VtRgbColor { r: 0, g: 0, b: 0 };
        RenderState {
            state: VtSnapshot {
                cols: 0,
                rows: 0,
                dirty: VtDirty::Clean,
                cursor_visible: false,
                cursor_blinking: false,
                cursor_viewport: None,
                colors: VtColors {
                    background: black,
                    foreground: black,
                    cursor: None,
                    palette: Vec::new(),
                },
                row_data: Vec::new(),
            },
        }
    }

    /// Take the render state's contents after it was updated from the
    /// terminal, return them as an eager snapshot, and mark the render state
    /// and all of its rows clean.
    pub fn update(&mut self, updated: VtSnapshot) -> (snapshot: RenderSnapshot)
        ensures
            snapshot_matches(snapshot, updated),
            cleared(updated, final(self).contents()),
            snapshot.columns == updated.cols,
            snapshot.rows == updated.rows,
            snapshot.colors.background == (RgbColor {
                red: updated.colors.background.r,
                green: updated.colors.background.g,
                blue: updated.colors.background.b,
            }),
            snapshot.colors.foreground == (RgbColor {
                red: updated.colors.foreground.r,
                green: updated.colors.foreground.g,
                blue: updated.colors.foreground.b,
            }),
    {
        self.state = updated;
        let snapshot = adapt_snapshot(&mut self.state);
        proof {
            law_snapshot_reports_the_render_state(snapshot, updated);
        }
        snapshot
    }

    /// Alias for [`Self::update`].
    pub fn snapshot(&mut self, updated: VtSnapshot) -> (snapshot: RenderSnapshot)
        ensures
            snapshot_matches(snapshot, updated),
            cleared(updated, final(self).contents()),
            snapshot.columns == updated.cols,
            snapshot.rows == updated.rows,
            snapshot.colors.background == (RgbColor {
                red: updated.colors.background.r,
                green: updated.colors.background.g,
                blue: updated.colors.background.b,
            }),
            snapshot.colors.foreground == (RgbColor {
                red: updated.colors.foreground.r,
                green: updated.colors.foreground.g,
                blue: updated.colors.foreground.b,
            }),
    {
        self.update(updated)
    }

    /// Borrow the render state's current contents.
    pub fn contents_ref(&self) -> (contents: &VtSnapshot)
        ensures
            *contents == self.contents(),
    {
        &self.state
    }
}

/// A snapshot reports the render state it was taken from, field by field:
/// the viewport size, the dirty state of the same name, the cursor, each
/// default color channel by channel, the palette entry by entry, and for every
/// row its flags and for every cell its handle, its codepoint (none when the
/// cell holds 0), its hyperlink flag and its grapheme cluster as codepoints.
pub proof fn law_snapshot_reports_the_render_state(out: RenderSnapshot, snapshot: VtSnapshot)
    requires
        snapshot_matches(out, snapshot),
    ensures
        out.columns == snapshot.cols,
        out.rows == snapshot.rows,
        snapshot.dirty == VtDirty::Clean ==> out.dirty == RenderDirty::Clean,
        snapshot.dirty == VtDirty::Partial ==> out.dirty == RenderDirty::Partial,
        snapshot.dirty == VtDirty::Full ==> out.dirty == RenderDirty::Full,
        out.cursor.visible == snapshot.cursor_visible,
        out.cursor.blinking == snapshot.cursor_blinking,
        out.cursor.in_viewport == (snapshot.cursor_viewport is Some),
        forall|c: VtViewportCursor|
            snapshot.cursor_viewport == Some(c) ==> out.cursor.viewport_column == Some(c.x)
                && out.cursor.viewport_row == Some(c.y),
        out.colors.background == (RgbColor {
            red: snapshot.colors.background.r,
            green: snapshot.colors.background.g,
            blue: snapshot.colors.background.b,
        }),
        out.colors.foreground == (RgbColor {
            red: snapshot.colors.foreground.r,
            green: snapshot.colors.foreground.g,
            blue: snapshot.colors.foreground.b,
        }),
        forall|k: VtRgbColor|
            snapshot.colors.cursor == Some(k) ==> out.colors.cursor == Some(
                RgbColor { red: k.r, green: k.g, blue: k.b },
            ),
        snapshot.colors.cursor is None ==> out.colors.cursor is None,
        out.colors.palette@.len() == snapshot.colors.palette@.len(),
        forall|i: int|
            0 <= i < snapshot.colors.palette@.len() ==> #[trigger] out.colors.palette@[i] == (
            RgbColor {
                red: snapshot.colors.palette@[i].r,
                green: snapshot.colors.palette@[i].g,
                blue: snapshot.colors.palette@[i].b,
            }),
        out.rows_data@.len() == snapshot.row_data@.len(),
        forall|i: int|
            0 <= i < snapshot.row_data@.len() ==> {
                let row = #[trigger] out.rows_data@[i];
                let source = snapshot.row_data@[i];
                &&& row.dirty == source.dirty
                &&& row.wrapped == source.raw_row.wrapped
                &&& row.wrap_continuation == source.raw_row.wrap_continuation
                &&& row.has_kitty_virtual_placeholder == source.raw_row.has_kitty_virtual_placeholder
                &&& row.cells@.len() == source.cells@.len()
            },
        forall|i: int, j: int|
            0 <= i < snapshot.row_data@.len() && 0 <= j < snapshot.row_data@[i].cells@.len() ==> {
                let cell = #[trigger] out.rows_data@[i].cells@[j];
                let source = snapshot.row_data@[i].cells@[j];
                &&& cell.raw == source.raw_cell.raw
                &&& (source.raw_cell.codepoint != 0 ==> cell.codepoint == Some(
                    source.raw_cell.codepoint,
                ))
                &&& (source.raw_cell.codepoint == 0 ==> cell.codepoint is None)
                &&& cell.has_hyperlink == source.raw_cell.has_hyperlink
                &&& cell.graphemes@.len() == source.graphemes@.len()
                &&& forall|g: int|
                    0 <= g < source.graphemes@.len() ==> #[trigger] cell.graphemes@[g]
                        == source.graphemes@[g] as u32
            },
{
    assert forall|i: int, j: int|
        0 <= i < snapshot.row_data@.len() && 0 <= j < snapshot.row_data@[i].cells@.len() implies {
            let cell = #[trigger] out.rows_data@[i].cells@[j];
            let source = snapshot.row_data@[i].cells@[j];
            &&& cell.raw == source.raw_cell.raw
            &&& (source.raw_cell.codepoint != 0 ==> cell.codepoint == Some(source.raw_cell.codepoint))
            &&& (source.raw_cell.codepoint == 0 ==> cell.codepoint is None)
            &&& cell.has_hyperlink == source.raw_cell.has_hyperlink
            &&& cell.graphemes@.len() == source.graphemes@.len()
            &&& forall|g: int|
                0 <= g < source.graphemes@.len() ==> #[trigger] cell.graphemes@[g]
                    == source.graphemes@[g] as u32
        } by {
        assert(render_row_matches(out.rows_data@[i], snapshot.row_data@[i]));
        assert(render_cell_matches(out.rows_data@[i].cells@[j], snapshot.row_data@[i].cells@[j]));
    }
}

/// A snapshot tells which rows were dirty, and afterwards nothing is dirty:
/// adapting the cleared render state again reports a clean frame with clean
/// rows and the same contents.
pub proof fn law_snapshot_clears_dirty_state(
    updated: VtSnapshot,
    after: VtSnapshot,
    first: RenderSnapshot,
    second: RenderSnapshot,
)
    requires
        snapshot_matches(first, updated),
        cleared(updated, after),
        snapshot_matches(second, after),
    ensures
        first.dirty == render_dirty_spec(updated.dirty),
        second.dirty == RenderDirty::Clean,
        second.rows_data@.len() == first.rows_data@.len(),
        forall|i: int| 0 <= i < second.rows_data@.len() ==> !(#[trigger] second.rows_data@[i]).dirty,
        forall|i: int|
            0 <= i < first.rows_data@.len() ==> (#[trigger] first.rows_data@[i]).dirty
                == updated.row_data@[i].dirty,
{
    assert forall|i: int| 0 <= i < second.rows_data@.len() implies !(#[trigger] second.rows_data@[i]).dirty by {
        assert(render_row_matches(second.rows_data@[i], after.row_data@[i]));
        assert(after.row_data@[i] == (VtRenderRow { dirty: false, ..updated.row_data@[i] }));
    }
    assert forall|i: int| 0 <= i < first.rows_data@.len() implies (#[trigger] first.rows_data@[i]).dirty
        == updated.row_data@[i].dirty by {
        assert(render_row_matches(first.rows_data@[i], updated.row_data@[i]));
    }
}

/// `a` and `b` show the same picture: the same viewport size, cursor and
/// colors, and cell for cell the same codepoints. Dirty flags, cell handles
/// and styles may differ.
pub open spec fn same_display(a: VtSnapshot, b: VtSnapshot) -> bool {
    &&& a.cols == b.cols
    &&& a.rows == b.rows
    &&& a.cursor_visible == b.cursor_visible
    &&& a.cursor_blinking == b.cursor_blinking
    &&& a.cursor_viewport == b.cursor_viewport
    &&& a.colors.background == b.colors.background
    &&& a.colors.foreground == b.colors.foreground
    &&& a.colors.cursor == b.colors.cursor
    &&& a.colors.palette@ == b.colors.palette@
    &&& a.row_data@.len() == b.row_data@.len()
    &&& forall|i: int|
        0 <= i < a.row_data@.len() ==> (#[trigger] a.row_data@[i]).cells@.len()
            == b.row_data@[i].cells@.len()
    &&& forall|i: int, j: int|
        0 <= i < a.row_data@.len() && 0 <= j < a.row_data@[i].cells@.len() ==> (
        #[trigger] a.row_data@[i].cells@[j]).raw_cell.codepoint
            == b.row_data@[i].cells@[j].raw_cell.codepoint
}

/// Two snapshots of render states that show the same picture agree on the
/// viewport size, the cursor, the colors and the text of every row; only
/// dirty flags and cell handles can tell them apart. So updating twice from
/// a terminal whose contents did not change gives the same text.
pub proof fn law_same_display_gives_same_snapshot(
    a: VtSnapshot,
    b: VtSnapshot,
    snapshot_a: RenderSnapshot,
    snapshot_b: RenderSnapshot,
)
    requires
        same_display(a, b),
        snapshot_matches(snapshot_a, a),
        snapshot_matches(snapshot_b, b),
    ensures
        snapshot_a.columns == snapshot_b.columns,
        snapshot_a.rows == snapshot_b.rows,
        snapshot_a.cursor == snapshot_b.cursor,
        snapshot_a.colors.background == snapshot_b.colors.background,
        snapshot_a.colors.foreground == snapshot_b.colors.foreground,
        snapshot_a.colors.cursor == snapshot_b.colors.cursor,
        snapshot_a.colors.palette@ == snapshot_b.colors.palette@,
        snapshot_a.rows_data@.len() == snapshot_b.rows_data@.len(),
        forall|i: int|
            0 <= i < snapshot_a.rows_data@.len() ==> row_text(#[trigger] snapshot_a.rows_data@[i])
                == row_text(snapshot_b.rows_data@[i]),
{
    assert forall|i: int|
        0 <= i < snapshot_a.rows_data@.len() implies row_text(#[trigger] snapshot_a.rows_data@[i])
        == row_text(snapshot_b.rows_data@[i]) by {
        let ra = snapshot_a.rows_data@[i];
        let rb = snapshot_b.rows_data@[i];
        assert(render_row_matches(ra, a.row_data@[i]));
        assert(render_row_matches(rb, b.row_data@[i]));
        assert(a.row_data@[i].cells@.len() == b.row_data@[i].cells@.len());
        assert forall|j: int| 0 <= j < ra.cells@.len() implies (#[trigger] ra.cells@[j]).codepoint
            == rb.cells@[j].codepoint by {
            assert(render_cell_matches(ra.cells@[j], a.row_data@[i].cells@[j]));
            assert(render_cell_matches(rb.cells@[j], b.row_data@[i].cells@[j]));
            assert(a.row_data@[i].cells@[j].raw_cell.codepoint
                == b.row_data@[i].cells@[j].raw_cell.codepoint);
        }
        assert(row_text(ra) =~= row_text(rb));
    }
}

/// The plain text of a snapshot has one line per row and one character per
/// cell, and a cell without a codepoint shows as a space.
pub proof fn law_plain_text_shape(snapshot: RenderSnapshot, texts: Seq<Seq<char>>)
    requires
        texts.len() == snapshot.rows_data@.len(),
        forall|i: int| 0 <= i < texts.len() ==> #[trigger] texts[i] == row_text(snapshot.rows_data@[i]),
    ensures
        forall|i: int|
            0 <= i < texts.len() ==> (#[trigger] texts[i]).len() == snapshot.rows_data@[i].cells@.len(),
        forall|i: int, j: int|
            0 <= i < texts.len() && 0 <= j < snapshot.rows_data@[i].cells@.len()
                && snapshot.rows_data@[i].cells@[j].codepoint is None ==> #[trigger] texts[i][j] == ' ',
{
    assert forall|i: int, j: int|
        0 <= i < texts.len() && 0 <= j < snapshot.rows_data@[i].cells@.len()
            && snapshot.rows_data@[i].cells@[j].codepoint is None implies #[trigger] texts[i][j] == ' ' by {
        assert(texts[i] == row_text(snapshot.rows_data@[i]));
    }
}

} // verus!
