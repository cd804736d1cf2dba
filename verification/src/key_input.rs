use vstd::prelude::*;

use crate::keys::{is_key_code, KEY_LAST, KEY_UNIDENTIFIED};
use crate::text::{char_from_u32, is_scalar_value};

verus! {

/// Key event action type.
#[derive(Debug, Clone, Copy, PartialEq, Eq, Structural)]
pub enum KeyAction {
    /// Key release.
    Release,
    /// Key press.
    Press,
    /// Key repeat.
    Repeat,
}

/// The key code that a raw code selects: the code itself when it is an entry
/// of the key table, the unidentified key otherwise.
pub open spec fn key_from_raw_spec(code: i32) -> i32 {
    if is_key_code(code) {
        code
    } else {
        KEY_UNIDENTIFIED
    }
}

/// Map a raw key code onto the key table, falling back to the unidentified key.
pub fn key_from_raw(code: i32) -> (key: i32)
    ensures
        key == key_from_raw_spec(code),
        KEY_UNIDENTIFIED <= code <= KEY_LAST ==> key == code,
        code < KEY_UNIDENTIFIED || code > KEY_LAST ==> key == KEY_UNIDENTIFIED,
{
    if KEY_UNIDENTIFIED <= code && code <= KEY_LAST {
        code
    } else {
        KEY_UNIDENTIFIED
    }
}

/// A key event as the key encoder reads it.
#[derive(Debug, Clone)]
pub struct KeyEvent {
    /// Press, release or repeat.
    pub action: KeyAction,
    /// Key code from the key table.
    pub key: i32,
    /// Modifier bits held during the event.
    pub mods: u16,
    /// Modifier bits already used up in producing the event's text.
    pub consumed_mods: u16,
    /// Whether the event belongs to an IME composition.
    pub composing: bool,
    /// The codepoint the key produces without shift (NUL when unknown).
    pub unshifted_codepoint: char,
    /// UTF-8 text produced by the event, if any.
    pub utf8: Option<String>,
}

impl KeyEvent {
    /// The state of a freshly created event: a release of the unidentified
    /// key with no modifiers, no composition, no codepoint and no text.
    pub open spec fn is_fresh(&self) -> bool {
        &&& self.action == KeyAction::Release
        &&& self.key == KEY_UNIDENTIFIED
        &&& self.mods == 0
        &&& self.consumed_mods == 0
        &&& !self.composing
        &&& self.unshifted_codepoint == '\0'
        &&& self.utf8 is None
    }

    /// Create a key event.
    pub fn new() -> (event: Self)
        ensures
            event.is_fresh(),
    {
        KeyEvent {
            action: KeyAction::Release,
            key: KEY_UNIDENTIFIED,
            mods: 0,
            consumed_mods: 0,
            composing: false,
            unshifted_codepoint: '\0',
            utf8: None,
        }
    }

    /// Set the action.
    pub fn set_action(&mut self, action: KeyAction)
        ensures
            *final(self) == (KeyEvent { action, ..*old(self) }),
    {
        self.action = action;
    }

    /// Set the raw key code; codes outside the key table select the
    /// unidentified key.
    pub fn set_key(&mut self, key_code: i32)
        ensures
            *final(self) == (KeyEvent { key: key_from_raw_spec(key_code), ..*old(self) }),
            KEY_UNIDENTIFIED <= key_code <= KEY_LAST ==> final(self).key == key_code,
            key_code < KEY_UNIDENTIFIED || key_code > KEY_LAST ==> final(self).key == KEY_UNIDENTIFIED,
    {
        self.key = key_from_raw(key_code);
    }

    /// Set modifier bits; all bits are kept as given.
    pub fn set_mods(&mut self, modifiers: u16)
        ensures
            *final(self) == (KeyEvent { mods: modifiers, ..*old(self) }),
    {
        self.mods = modifiers;
    }

    /// Alias for [`Self::set_mods`].
    pub fn set_modifiers(&mut self, modifiers: u16)
        ensures
            *final(self) == (KeyEvent { mods: modifiers, ..*old(self) }),
    {
        self.set_mods(modifiers);
    }

    /// Set consumed modifier bits; all bits are kept as given.
    pub fn set_consumed_mods(&mut self, modifiers: u16)
        ensures
            *final(self) == (KeyEvent { consumed_mods: modifiers, ..*old(self) }),
    {
        self.consumed_mods = modifiers;
    }

    /// Alias for [`Self::set_consumed_mods`].
    pub fn set_consumed_modifiers(&mut self, modifiers: u16)
        ensures
            *final(self) == (KeyEvent { consumed_mods: modifiers, ..*old(self) }),
    {
        self.set_consumed_mods(modifiers);
    }

    /// Set composition state.
    pub fn set_composing(&mut self, composing: bool)
        ensures
            *final(self) == (KeyEvent { composing, ..*old(self) }),
    {
        self.composing = composing;
    }

    /// Set the unshifted Unicode codepoint; a value that is not a Unicode
    /// scalar value leaves the event unchanged.
    pub fn set_unshifted_codepoint(&mut self, codepoint: u32)
        ensures
            is_scalar_value(codepoint) ==> *final(self) == (KeyEvent {
                unshifted_codepoint: codepoint as char,
                ..*old(self)
            }),
            !is_scalar_value(codepoint) ==> *final(self) == *old(self),
    {
        if let Some(c) = char_from_u32(codepoint) {
            self.unshifted_codepoint = c;
        }
    }

    /// Set UTF-8 text for the event.
    pub fn set_utf8(&mut self, text: &str)
        ensures
            final(self).utf8 matches Some(t) && t@ == text@,
            final(self).action == old(self).action,
            final(self).key == old(self).key,
            final(self).mods == old(self).mods,
            final(self).consumed_mods == old(self).consumed_mods,
            final(self).composing == old(self).composing,
            final(self).unshifted_codepoint == old(self).unshifted_codepoint,
    {
        self.utf8 = Some(text.to_owned());
    }
}

/// How the macOS option key is treated by the key encoder.
#[derive(Debug, Clone, Copy, PartialEq, Eq, Structural)]
pub enum OptionAsAlt {
    /// Option produces its own characters.
    False,
    /// Both option keys act as alt.
    True,
    /// Only the left option key acts as alt.
    Left,
    /// Only the right option key acts as alt.
    Right,
}

/// Key encoder configuration.
#[derive(Debug, Clone, Copy, PartialEq, Eq, Structural)]
pub struct KeyEncoder {
    /// DEC mode 1: cursor key application mode.
    pub cursor_key_application: bool,
    /// DEC mode 66: keypad key application mode.
    pub keypad_key_application: bool,
    /// DEC mode 1036: alt sends an escape prefix.
    pub alt_esc_prefix: bool,
    /// Kitty keyboard protocol flags, all bits kept as given.
    pub kitty_flags: u8,
    /// xterm modifyOtherKeys mode 2.
    pub modify_other_keys_state_2: bool,
    /// macOS option-as-alt behavior.
    pub macos_option_as_alt: OptionAsAlt,
}

impl KeyEncoder {
    /// This encoder configured from terminal-derived input options:
    /// modifyOtherKeys and option-as-alt are off.
    pub open spec fn with_options(self, options: crate::modes::TerminalInputOptions) -> KeyEncoder {
        KeyEncoder {
            cursor_key_application: options.cursor_key_application,
            keypad_key_application: options.keypad_key_application,
            alt_esc_prefix: options.alt_esc_prefix,
            kitty_flags: options.kitty_flags,
            modify_other_keys_state_2: false,
            macos_option_as_alt: OptionAsAlt::False,
        }
    }

    /// Create a key encoder with every mode off and no Kitty flags.
    pub fn new() -> (encoder: Self)
        ensures
            encoder == (KeyEncoder {
                cursor_key_application: false,
                keypad_key_application: false,
                alt_esc_prefix: false,
                kitty_flags: 0,
                modify_other_keys_state_2: false,
                macos_option_as_alt: OptionAsAlt::False,
            }),
    {
        KeyEncoder {
            cursor_key_application: false,
            keypad_key_application: false,
            alt_esc_prefix: false,
            kitty_flags: 0,
            modify_other_keys_state_2: false,
            macos_option_as_alt: OptionAsAlt::False,
        }
    }

    /// Apply terminal-derived input options. modifyOtherKeys is not part of
    /// the options, so it is switched off, and option-as-alt is off.
    pub fn set_options(&mut self, options: &crate::modes::TerminalInputOptions)
        ensures
            *final(self) == old(self).with_options(*options),
            final(self).cursor_key_application == options.cursor_key_application,
            final(self).keypad_key_application == options.keypad_key_application,
            final(self).alt_esc_prefix == options.alt_esc_prefix,
            final(self).kitty_flags == options.kitty_flags,
            !final(self).modify_other_keys_state_2,
            final(self).macos_option_as_alt == OptionAsAlt::False,
    {
        self.cursor_key_application = options.cursor_key_application;
        self.keypad_key_application = options.keypad_key_application;
        self.alt_esc_prefix = options.alt_esc_prefix;
        self.kitty_flags = options.kitty_flags;
        self.macos_option_as_alt = OptionAsAlt::False;
        self.modify_other_keys_state_2 = false;
    }

    /// Set Kitty keyboard protocol flags.
    pub fn set_kitty_flags(&mut self, flags: u8)
        ensures
            *final(self) == (KeyEncoder { kitty_flags: flags, ..*old(self) }),
    {
        self.kitty_flags = flags;
    }

    /// Set cursor key application mode.
    pub fn set_cursor_key_application(&mut self, enabled: bool)
        ensures
            *final(self) == (KeyEncoder { cursor_key_application: enabled, ..*old(self) }),
    {
        self.cursor_key_application = enabled;
    }

    /// Set keypad key application mode.
    pub fn set_keypad_key_application(&mut self, enabled: bool)
        ensures
            *final(self) == (KeyEncoder { keypad_key_application: enabled, ..*old(self) }),
    {
        self.keypad_key_application = enabled;
    }

    /// Set alt-escape-prefix mode.
    pub fn set_alt_esc_prefix(&mut self, enabled: bool)
        ensures
            *final(self) == (KeyEncoder { alt_esc_prefix: enabled, ..*old(self) }),
    {
        self.alt_esc_prefix = enabled;
    }

    /// Set modifyOtherKeys mode 2.
    pub fn set_modify_other_keys_state_2(&mut self, enabled: bool)
        ensures
            *final(self) == (KeyEncoder { modify_other_keys_state_2: enabled, ..*old(self) }),
    {
        self.modify_other_keys_state_2 = enabled;
    }

    /// Set macOS option-as-alt behavior: both option keys, or neither.
    pub fn set_macos_option_as_alt(&mut self, enabled: bool)
        ensures
            *final(self) == (KeyEncoder {
                macos_option_as_alt: if enabled { OptionAsAlt::True } else { OptionAsAlt::False },
                ..*old(self)
            }),
    {
        let option = if enabled {
            OptionAsAlt::True
        } else {
            OptionAsAlt::False
        };
        self.macos_option_as_alt = option;
    }
}

} // verus!
