use vstd::prelude::*;

use crate::vt::{VtCellWide, VtRgbColor, VtStyle, VtStyleColor};

verus! {

/// Width classification for a cell.
#[derive(Debug, Clone, Copy, PartialEq, Eq, Structural)]
pub enum CellWide {
    /// A normal single-column cell.
    Narrow,
    /// The leading half of a wide character.
    Wide,
    /// The trailing spacer half of a wide character.
    SpacerTail,
    /// A leading spacer head marker.
    SpacerHead,
}

/// RGB color in the editor-facing shape.
#[derive(Debug, Clone, Copy, PartialEq, Eq, Structural)]
pub struct RgbColor {
    /// Red channel.
    pub red: u8,
    /// Green channel.
    pub green: u8,
    /// Blue channel.
    pub blue: u8,
}

/// Color reference used by editor-facing cells.
#[derive(Debug, Clone, Copy, PartialEq, Eq, Structural)]
pub enum StyleColor {
    /// No explicit color override.
    NoColor,
    /// Palette-indexed color.
    Palette(u8),
    /// Direct RGB color.
    Rgb(RgbColor),
}

/// Cell styling in the editor-facing shape.
#[derive(Debug, Clone, Copy, PartialEq, Eq, Structural)]
pub struct CellStyle {
    /// Foreground color.
    pub foreground: StyleColor,
    /// Background color.
    pub background: StyleColor,
    /// Underline color.
    pub underline_color: StyleColor,
    /// Bold flag.
    pub bold: bool,
    /// Italic flag.
    pub italic: bool,
    /// Faint flag.
    pub faint: bool,
    /// Blink flag.
    pub blink: bool,
    /// Inverse flag.
    pub inverse: bool,
    /// Invisible flag.
    pub invisible: bool,
    /// Strikethrough flag.
    pub strikethrough: bool,
    /// Overline flag.
    pub overline: bool,
    /// Raw underline style value.
    pub underline: i32,
}

/// The width class with the same meaning.
pub open spec fn cell_wide_spec(wide: VtCellWide) -> CellWide {
    match wide {
        VtCellWide::Narrow => CellWide::Narrow,
        VtCellWide::Wide => CellWide::Wide,
        VtCellWide::SpacerTail => CellWide::SpacerTail,
        VtCellWide::SpacerHead => CellWide::SpacerHead,
    }
}

/// The same color, channel by channel.
pub open spec fn rgb_color_spec(color: VtRgbColor) -> RgbColor {
    RgbColor { red: color.r, green: color.g, blue: color.b }
}

/// The same color reference.
pub open spec fn style_color_spec(color: VtStyleColor) -> StyleColor {
    match color {
        VtStyleColor::NoColor => StyleColor::NoColor,
        VtStyleColor::Palette(index) => StyleColor::Palette(index),
        VtStyleColor::Rgb(rgb) => StyleColor::Rgb(rgb_color_spec(rgb)),
    }
}

/// The same style: colors converted, flags and underline value copied.
pub open spec fn cell_style_spec(style: VtStyle) -> CellStyle {
    CellStyle {
        foreground: style_color_spec(style.fg_color),
        background: style_color_spec(style.bg_color),
        underline_color: style_color_spec(style.underline_color),
        bold: style.bold,
        italic: style.italic,
        faint: style.faint,
        blink: style.blink,
        inverse: style.inverse,
        invisible: style.invisible,
        strikethrough: style.strikethrough,
        overline: style.overline,
        underline: style.underline,
    }
}

/// Each width class converts to the class of the same name.
pub proof fn law_cell_wide_keeps_its_class(wide: VtCellWide)
    ensures
        wide == VtCellWide::Narrow ==> cell_wide_spec(wide) == CellWide::Narrow,
        wide == VtCellWide::Wide ==> cell_wide_spec(wide) == CellWide::Wide,
        wide == VtCellWide::SpacerTail ==> cell_wide_spec(wide) == CellWide::SpacerTail,
        wide == VtCellWide::SpacerHead ==> cell_wide_spec(wide) == CellWide::SpacerHead,
{
}

/// A color keeps each channel under its own name.
pub proof fn law_rgb_color_keeps_channels(color: VtRgbColor)
    ensures
        rgb_color_spec(color).red == color.r,
        rgb_color_spec(color).green == color.g,
        rgb_color_spec(color).blue == color.b,
{
}

/// A style color keeps its kind: no color stays none, a palette index stays
/// the same index, a direct color keeps each channel.
pub proof fn law_style_color_keeps_its_kind(color: VtStyleColor)
    ensures
        color == VtStyleColor::NoColor ==> style_color_spec(color) == StyleColor::NoColor,
        forall|index: u8|
            color == VtStyleColor::Palette(index) ==> style_color_spec(color) == StyleColor::Palette(index),
        forall|rgb: VtRgbColor|
            color == VtStyleColor::Rgb(rgb) ==> style_color_spec(color) == StyleColor::Rgb(
                RgbColor { red: rgb.r, green: rgb.g, blue: rgb.b },
            ),
{
}

/// A cell style keeps its foreground, background and underline colors each
/// in its own place, and every flag and the underline value under its own
/// name.
pub proof fn law_cell_style_keeps_each_field(style: VtStyle)
    ensures
        cell_style_spec(style).foreground == style_color_spec(style.fg_color),
        cell_style_spec(style).background == style_color_spec(style.bg_color),
        cell_style_spec(style).underline_color == style_color_spec(style.underline_color),
        cell_style_spec(style).bold == style.bold,
        cell_style_spec(style).italic == style.italic,
        cell_style_spec(style).faint == style.faint,
        cell_style_spec(style).blink == style.blink,
        cell_style_spec(style).inverse == style.inverse,
        cell_style_spec(style).invisible == style.invisible,
        cell_style_spec(style).strikethrough == style.strikethrough,
        cell_style_spec(style).overline == style.overline,
        cell_style_spec(style).underline == style.underline,
{
}

/// Convert a terminal width class.
pub fn cell_wide_from_wrapper(wide: VtCellWide) -> (converted: CellWide)
    ensures
        converted == cell_wide_spec(wide),
        wide == VtCellWide::Narrow ==> converted == CellWide::Narrow,
        wide == VtCellWide::Wide ==> converted == CellWide::Wide,
        wide == VtCellWide::SpacerTail ==> converted == CellWide::SpacerTail,
        wide == VtCellWide::SpacerHead ==> converted == CellWide::SpacerHead,
{
    match wide {
        VtCellWide::Narrow => CellWide::Narrow,
        VtCellWide::Wide => CellWide::Wide,
        VtCellWide::SpacerTail => CellWide::SpacerTail,
        VtCellWide::SpacerHead => CellWide::SpacerHead,
    }
}

/// Convert a terminal RGB color.
pub fn rgb_color_from_wrapper(color: VtRgbColor) -> (converted: RgbColor)
    ensures
        converted == rgb_color_spec(color),
        converted.red == color.r,
        converted.green == color.g,
        converted.blue == color.b,
{
    RgbColor { red: color.r, green: color.g, blue: color.b }
}

/// Convert a terminal style color.
pub fn style_color_from_wrapper(color: VtStyleColor) -> (converted: StyleColor)
    ensures
        converted == style_color_spec(color),
        color == VtStyleColor::NoColor ==> converted == StyleColor::NoColor,
        forall|index: u8|
            color == VtStyleColor::Palette(index) ==> converted == StyleColor::Palette(index),
        forall|rgb: VtRgbColor|
            color == VtStyleColor::Rgb(rgb) ==> converted == StyleColor::Rgb(
                RgbColor { red: rgb.r, green: rgb.g, blue: rgb.b },
            ),
{
    match color {
        VtStyleColor::NoColor => StyleColor::NoColor,
        VtStyleColor::Palette(index) => StyleColor::Palette(index),
        VtStyleColor::Rgb(rgb) => StyleColor::Rgb(rgb_color_from_wrapper(rgb)),
    }
}

/// Convert a terminal cell style.
pub fn cell_style_from_wrapper(style: VtStyle) -> (converted: CellStyle)
    ensures
        converted == cell_style_spec(style),
        converted.foreground == style_color_spec(style.fg_color),
        converted.background == style_color_spec(style.bg_color),
        converted.underline_color == style_color_spec(style.underline_color),
        converted.bold == style.bold,
        converted.italic == style.italic,
        converted.faint == style.faint,
        converted.blink == style.blink,
        converted.inverse == style.inverse,
        converted.invisible == style.invisible,
        converted.strikethrough == style.strikethrough,
        converted.overline == style.overline,
        converted.underline == style.underline,
{
    CellStyle {
        foreground: style_color_from_wrapper(style.fg_color),
        background: style_color_from_wrapper(style.bg_color),
        underline_color: style_color_from_wrapper(style.underline_color),
        bold: style.bold,
        italic: style.italic,
        faint: style.faint,
        blink: style.blink,
        inverse: style.inverse,
        invisible: style.invisible,
        strikethrough: style.strikethrough,
        overline: style.overline,
        underline: style.underline,
    }
}

} // verus!
