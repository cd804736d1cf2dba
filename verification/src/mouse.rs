use vstd::prelude::*;

use crate::modes::TerminalInputOptions;

verus! {

/// Mouse event action.
#[derive(Debug, Clone, Copy, PartialEq, Eq, Structural)]
pub enum MouseAction {
    /// Mouse press.
    Press,
    /// Mouse release.
    Release,
    /// Mouse motion.
    Motion,
}

/// Mouse button.
#[derive(Debug, Clone, Copy, PartialEq, Eq, Structural)]
pub enum MouseButton {
    /// Unknown button.
    Unknown,
    /// Left button.
    Left,
    /// Right button.
    Right,
    /// Middle button.
    Middle,
    /// Fourth auxiliary button.
    Four,
    /// Fifth auxiliary button.
    Five,
}

/// Mouse tracking mode.
#[derive(Debug, Clone, Copy, PartialEq, Eq, Structural)]
pub enum MouseTrackingMode {
    /// Mouse reporting disabled.
    NoTracking,
    /// X10 reporting.
    X10,
    /// Normal click reporting.
    Normal,
    /// Button tracking.
    Button,
    /// Motion tracking.
    Any,
}

/// Mouse report format.
#[derive(Debug, Clone, Copy, PartialEq, Eq, Structural)]
pub enum MouseFormat {
    /// X10 format.
    X10,
    /// UTF-8 format.
    Utf8,
    /// SGR format.
    Sgr,
    /// URXVT format.
    Urxvt,
    /// SGR pixels format.
    SgrPixels,
}

/// Mouse encoder geometry.
#[derive(Debug, Clone, Copy, PartialEq, Eq, Structural)]
pub struct MouseEncoderSize {
    /// Full screen width in pixels.
    pub screen_width: u32,
    /// Full screen height in pixels.
    pub screen_height: u32,
    /// Cell width in pixels.
    pub cell_width: u32,
    /// Cell height in pixels.
    pub cell_height: u32,
    /// Top padding in pixels.
    pub padding_top: u32,
    /// Bottom padding in pixels.
    pub padding_bottom: u32,
    /// Right padding in pixels.
    pub padding_right: u32,
    /// Left padding in pixels.
    pub padding_left: u32,
}

/// A mouse event as the mouse encoder reads it, apart from its surface
/// position, which is a pair of floats and travels beside it.
#[derive(Debug, Clone, Copy, PartialEq, Eq, Structural)]
pub struct MouseEvent {
    /// Press, release or motion.
    pub action: MouseAction,
    /// The button involved, if any.
    pub button: Option<MouseButton>,
    /// Modifier bits held during the event.
    pub mods: u16,
}

impl MouseEvent {
    /// Create a mouse event: a press with no button and no modifiers.
    pub fn new() -> (event: Self)
        ensures
            event == (MouseEvent { action: MouseAction::Press, button: None, mods: 0 }),
    {
        MouseEvent { action: MouseAction::Press, button: None, mods: 0 }
    }

    /// Set the action.
    pub fn set_action(&mut self, action: MouseAction)
        ensures
            *final(self) == (MouseEvent { action, ..*old(self) }),
    {
        self.action = action;
    }

    /// Set the button.
    pub fn set_button(&mut self, button: Option<MouseButton>)
        ensures
            *final(self) == (MouseEvent { button, ..*old(self) }),
    {
        self.button = button;
    }

    /// Clear the current button; the same as `set_button(None)`.
    pub fn clear_button(&mut self)
        ensures
            *final(self) == (MouseEvent { button: None, ..*old(self) }),
    {
        self.set_button(None);
    }

    /// Set modifier bits; all bits are kept as given.
    pub fn set_mods(&mut self, modifiers: u16)
        ensures
            *final(self) == (MouseEvent { mods: modifiers, ..*old(self) }),
    {
        self.mods = modifiers;
    }

    /// Alias for [`Self::set_mods`].
    pub fn set_modifiers(&mut self, modifiers: u16)
        ensures
            *final(self) == (MouseEvent { mods: modifiers, ..*old(self) }),
    {
        self.set_mods(modifiers);
    }
}

/// Mouse encoder configuration.
#[derive(Debug, Clone, Copy, PartialEq, Eq, Structural)]
pub struct MouseEncoder {
    /// Which events are reported.
    pub tracking_mode: MouseTrackingMode,
    /// How reports are written.
    pub format: MouseFormat,
    /// Screen and cell geometry used to turn positions into cells.
    pub size: MouseEncoderSize,
}

impl MouseEncoder {
    /// This encoder configured from terminal-derived input options: their
    /// tracking mode and format, the geometry kept.
    pub open spec fn with_options(self, options: TerminalInputOptions) -> MouseEncoder {
        MouseEncoder {
            tracking_mode: options.mouse_tracking_mode,
            format: options.mouse_format,
            ..self
        }
    }

    /// Create a mouse encoder: reporting off, X10 format, zero geometry.
    pub fn new() -> (encoder: Self)
        ensures
            encoder.tracking_mode == MouseTrackingMode::NoTracking,
            encoder.format == MouseFormat::X10,
            encoder.size == (MouseEncoderSize {
                screen_width: 0,
                screen_height: 0,
                cell_width: 0,
                cell_height: 0,
                padding_top: 0,
                padding_bottom: 0,
                padding_right: 0,
                padding_left: 0,
            }),
    {
        MouseEncoder {
            tracking_mode: MouseTrackingMode::NoTracking,
            format: MouseFormat::X10,
            size: MouseEncoderSize {
                screen_width: 0,
                screen_height: 0,
                cell_width: 0,
                cell_height: 0,
                padding_top: 0,
                padding_bottom: 0,
                padding_right: 0,
                padding_left: 0,
            },
        }
    }

    /// Apply terminal-derived input options: tracking mode and format.
    pub fn set_options(&mut self, options: &TerminalInputOptions)
        ensures
            *final(self) == old(self).with_options(*options),
            final(self).tracking_mode == options.mouse_tracking_mode,
            final(self).format == options.mouse_format,
            final(self).size == old(self).size,
    {
        self.tracking_mode = options.mouse_tracking_mode;
        self.format = options.mouse_format;
    }

    /// Set tracking mode.
    pub fn set_tracking_mode(&mut self, tracking_mode: MouseTrackingMode)
        ensures
            *final(self) == (MouseEncoder { tracking_mode, ..*old(self) }),
    {
        self.tracking_mode = tracking_mode;
    }

    /// Set output format.
    pub fn set_format(&mut self, format: MouseFormat)
        ensures
            *final(self) == (MouseEncoder { format, ..*old(self) }),
    {
        self.format = format;
    }

    /// Set encoder geometry.
    pub fn set_size(&mut self, size: MouseEncoderSize)
        ensures
            *final(self) == (MouseEncoder { size, ..*old(self) }),
    {
        self.size = size;
    }
}

} // verus!
