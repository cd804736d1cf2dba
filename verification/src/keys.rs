use vstd::prelude::*;

use crate::text::{parse_i32, parse_i32_spec, str_equal};

verus! {

// Key codes of the terminal's key table. The table follows the W3C
// "UI Events KeyboardEvent code" order, starting at 0 for an unidentified key.

/// Key code for an unidentified key.
pub const KEY_UNIDENTIFIED: i32 = 0;
/// Key code for the backquote key.
pub const KEY_BACKQUOTE: i32 = 1;
/// Key code for the backslash key.
pub const KEY_BACKSLASH: i32 = 2;
/// Key code for the left bracket key.
pub const KEY_BRACKET_LEFT: i32 = 3;
/// Key code for the right bracket key.
pub const KEY_BRACKET_RIGHT: i32 = 4;
/// Key code for the comma key.
pub const KEY_COMMA: i32 = 5;
/// Key code for the `0` digit key; the digits `1`..=`9` follow it.
pub const KEY_DIGIT_0: i32 = 6;
/// Key code for the equal key.
pub const KEY_EQUAL: i32 = 16;
/// Key code for the `A` key; the letters `B`..=`Z` follow it.
pub const KEY_A: i32 = 20;
/// Key code for the `C` key.
pub const KEY_C: i32 = 22;
/// Key code for the minus key.
pub const KEY_MINUS: i32 = 46;
/// Key code for the period key.
pub const KEY_PERIOD: i32 = 47;
/// Key code for the quote key.
pub const KEY_QUOTE: i32 = 48;
/// Key code for the semicolon key.
pub const KEY_SEMICOLON: i32 = 49;
/// Key code for the slash key.
pub const KEY_SLASH: i32 = 50;
/// Key code for the backspace key.
pub const KEY_BACKSPACE: i32 = 53;
/// Key code for the enter key.
pub const KEY_ENTER: i32 = 58;
/// Key code for the space key.
pub const KEY_SPACE: i32 = 63;
/// Key code for the tab key.
pub const KEY_TAB: i32 = 64;
/// Key code for the delete key.
pub const KEY_DELETE: i32 = 68;
/// Key code for the end key.
pub const KEY_END: i32 = 69;
/// Key code for the home key.
pub const KEY_HOME: i32 = 71;
/// Key code for the insert key.
pub const KEY_INSERT: i32 = 72;
/// Key code for the page down key.
pub const KEY_PAGE_DOWN: i32 = 73;
/// Key code for the page up key.
pub const KEY_PAGE_UP: i32 = 74;
/// Key code for the down arrow key.
pub const KEY_ARROW_DOWN: i32 = 75;
/// Key code for the left arrow key.
pub const KEY_ARROW_LEFT: i32 = 76;
/// Key code for the right arrow key.
pub const KEY_ARROW_RIGHT: i32 = 77;
/// Key code for the up arrow key.
pub const KEY_ARROW_UP: i32 = 78;
/// Key code for the escape key.
pub const KEY_ESCAPE: i32 = 120;
/// Key code for the first function key; `F2`..=`F25` follow it.
pub const KEY_F1: i32 = 121;
/// The highest code of the key table (the paste key).
pub const KEY_LAST: i32 = 175;

/// Shift modifier bit.
pub const MODIFIER_SHIFT: u16 = 1;
/// Control modifier bit.
pub const MODIFIER_CONTROL: u16 = 2;
/// Alt modifier bit.
pub const MODIFIER_ALT: u16 = 4;
/// Super/Command/Windows modifier bit.
pub const MODIFIER_SUPER: u16 = 8;

/// Whether `code` names an entry of the key table.
pub open spec fn is_key_code(code: i32) -> bool {
    KEY_UNIDENTIFIED <= code && code <= KEY_LAST
}

/// The key that a single character names: letters of either case, digits,
/// the US-layout symbols, each shifted symbol naming the key it is typed
/// with, and the space.
pub open spec fn key_for_char_spec(c: char) -> Option<i32> {
    let u = c as u32;
    if 0x61 <= u && u <= 0x7a {
        Some((KEY_A + (u - 0x61)) as i32)
    } else if 0x41 <= u && u <= 0x5a {
        Some((KEY_A + (u - 0x41)) as i32)
    } else if 0x30 <= u && u <= 0x39 {
        Some((KEY_DIGIT_0 + (u - 0x30)) as i32)
    } else if c == '!' {
        Some((KEY_DIGIT_0 + 1) as i32)
    } else if c == '@' {
        Some((KEY_DIGIT_0 + 2) as i32)
    } else if c == '#' {
        Some((KEY_DIGIT_0 + 3) as i32)
    } else if c == '$' {
        Some((KEY_DIGIT_0 + 4) as i32)
    } else if c == '%' {
        Some((KEY_DIGIT_0 + 5) as i32)
    } else if c == '^' {
        Some((KEY_DIGIT_0 + 6) as i32)
    } else if c == '&' {
        Some((KEY_DIGIT_0 + 7) as i32)
    } else if c == '*' {
        Some((KEY_DIGIT_0 + 8) as i32)
    } else if c == '(' {
        Some((KEY_DIGIT_0 + 9) as i32)
    } else if c == ')' {
        Some(KEY_DIGIT_0)
    } else if c == '`' || c == '~' {
        Some(KEY_BACKQUOTE)
    } else if c == '-' || c == '_' {
        Some(KEY_MINUS)
    } else if c == '=' || c == '+' {
        Some(KEY_EQUAL)
    } else if c == '[' || c == '{' {
        Some(KEY_BRACKET_LEFT)
    } else if c == ']' || c == '}' {
        Some(KEY_BRACKET_RIGHT)
    } else if c == '\\' || c == '|' {
        Some(KEY_BACKSLASH)
    } else if c == ';' || c == ':' {
        Some(KEY_SEMICOLON)
    } else if c == '\'' || c == '"' {
        Some(KEY_QUOTE)
    } else if c == ',' || c == '<' {
        Some(KEY_COMMA)
    } else if c == '.' || c == '>' {
        Some(KEY_PERIOD)
    } else if c == '/' || c == '?' {
        Some(KEY_SLASH)
    } else if c == ' ' {
        Some(KEY_SPACE)
    } else {
        None
    }
}

/// The function key named by `f1` ..= `f20`: an `f` followed by text that
/// parses as an `i32` between 1 and 20.
pub open spec fn function_key_spec(name: Seq<char>) -> Option<i32> {
    if name.len() >= 1 && name[0] == 'f' {
        match parse_i32_spec(name.drop_first()) {
            Some(n) => if 1 <= n && n <= 20 {
                Some((KEY_F1 + n - 1) as i32)
            } else {
                None
            },
            None => None,
        }
    } else {
        None
    }
}

/// The key that a textual key name denotes.
pub open spec fn key_from_name_spec(name: Seq<char>) -> Option<i32> {
    if name == "tab"@ {
        Some(KEY_TAB)
    } else if name == "escape"@ {
        Some(KEY_ESCAPE)
    } else if name == "enter"@ {
        Some(KEY_ENTER)
    } else if name == "backspace"@ || name == "back"@ {
        Some(KEY_BACKSPACE)
    } else if name == "space"@ {
        Some(KEY_SPACE)
    } else if name == "home"@ {
        Some(KEY_HOME)
    } else if name == "end"@ {
        Some(KEY_END)
    } else if name == "pageup"@ {
        Some(KEY_PAGE_UP)
    } else if name == "pagedown"@ {
        Some(KEY_PAGE_DOWN)
    } else if name == "up"@ {
        Some(KEY_ARROW_UP)
    } else if name == "down"@ {
        Some(KEY_ARROW_DOWN)
    } else if name == "left"@ {
        Some(KEY_ARROW_LEFT)
    } else if name == "right"@ {
        Some(KEY_ARROW_RIGHT)
    } else if name == "insert"@ {
        Some(KEY_INSERT)
    } else if name == "delete"@ {
        Some(KEY_DELETE)
    } else if function_key_spec(name) is Some {
        function_key_spec(name)
    } else if name.len() == 1 {
        key_for_char_spec(name[0])
    } else {
        None
    }
}

fn key_for_char(c: char) -> (key: Option<i32>)
    ensures
        key == key_for_char_spec(c),
{
    let u = c as u32;
    if 0x61 <= u && u <= 0x7a {
        return Some(KEY_A + (u - 0x61) as i32);
    }
    if 0x41 <= u && u <= 0x5a {
        return Some(KEY_A + (u - 0x41) as i32);
    }
    if 0x30 <= u && u <= 0x39 {
        return Some(KEY_DIGIT_0 + (u - 0x30) as i32);
    }
    match c {
        '!' => Some(KEY_DIGIT_0 + 1),
        '@' => Some(KEY_DIGIT_0 + 2),
        '#' => Some(KEY_DIGIT_0 + 3),
        '$' => Some(KEY_DIGIT_0 + 4),
        '%' => Some(KEY_DIGIT_0 + 5),
        '^' => Some(KEY_DIGIT_0 + 6),
        '&' => Some(KEY_DIGIT_0 + 7),
        '*' => Some(KEY_DIGIT_0 + 8),
        '(' => Some(KEY_DIGIT_0 + 9),
        ')' => Some(KEY_DIGIT_0),
        '`' | '~' => Some(KEY_BACKQUOTE),
        '-' | '_' => Some(KEY_MINUS),
        '=' | '+' => Some(KEY_EQUAL),
        '[' | '{' => Some(KEY_BRACKET_LEFT),
        ']' | '}' => Some(KEY_BRACKET_RIGHT),
        '\\' | '|' => Some(KEY_BACKSLASH),
        ';' | ':' => Some(KEY_SEMICOLON),
        '\'' | '"' => Some(KEY_QUOTE),
        ',' | '<' => Some(KEY_COMMA),
        '.' | '>' => Some(KEY_PERIOD),
        '/' | '?' => Some(KEY_SLASH),
        ' ' => Some(KEY_SPACE),
        _ => None,
    }
}

fn function_key(name: &str) -> (key: Option<i32>)
    ensures
        key == function_key_spec(name@),
{
    let len = name.unicode_len();
    if len >= 1 && name.get_char(0) == 'f' {
        let suffix = name.substring_char(1, len);
        assert(suffix@ =~= name@.drop_first());
        match parse_i32(suffix) {
            Some(n) => {
                if 1 <= n && n <= 20 {
                    Some(KEY_F1 + n - 1)
                } else {
                    None
                }
            },
            None => None,
        }
    } else {
        None
    }
}

/// Resolve a key code from a textual key name.
pub fn key_from_name(name: &str) -> (key: Option<i32>)
    ensures
        key == key_from_name_spec(name@),
        name@ == "tab"@ ==> key == Some(KEY_TAB),
        name@ == "escape"@ ==> key == Some(KEY_ESCAPE),
        name@ == "enter"@ ==> key == Some(KEY_ENTER),
        name@ == "backspace"@ ==> key == Some(KEY_BACKSPACE),
        name@ == "back"@ ==> key == Some(KEY_BACKSPACE),
        name@ == "space"@ ==> key == Some(KEY_SPACE),
        name@ == "home"@ ==> key == Some(KEY_HOME),
        name@ == "end"@ ==> key == Some(KEY_END),
        name@ == "pageup"@ ==> key == Some(KEY_PAGE_UP),
        name@ == "pagedown"@ ==> key == Some(KEY_PAGE_DOWN),
        name@ == "up"@ ==> key == Some(KEY_ARROW_UP),
        name@ == "down"@ ==> key == Some(KEY_ARROW_DOWN),
        name@ == "left"@ ==> key == Some(KEY_ARROW_LEFT),
        name@ == "right"@ ==> key == Some(KEY_ARROW_RIGHT),
        name@ == "insert"@ ==> key == Some(KEY_INSERT),
        name@ == "delete"@ ==> key == Some(KEY_DELETE),
{
    proof {
        law_word_names_resolve_to_their_keys(name@);
    }
    if str_equal(name, "tab") {
        return Some(KEY_TAB);
    }
    if str_equal(name, "escape") {
        return Some(KEY_ESCAPE);
    }
    if str_equal(name, "enter") {
        return Some(KEY_ENTER);
    }
    if str_equal(name, "backspace") || str_equal(name, "back") {
        return Some(KEY_BACKSPACE);
    }
    if str_equal(name, "space") {
        return Some(KEY_SPACE);
    }
    if str_equal(name, "home") {
        return Some(KEY_HOME);
    }
    if str_equal(name, "end") {
        return Some(KEY_END);
    }
    if str_equal(name, "pageup") {
        return Some(KEY_PAGE_UP);
    }
    if str_equal(name, "pagedown") {
        return Some(KEY_PAGE_DOWN);
    }
    if str_equal(name, "up") {
        return Some(KEY_ARROW_UP);
    }
    if str_equal(name, "down") {
        return Some(KEY_ARROW_DOWN);
    }
    if str_equal(name, "left") {
        return Some(KEY_ARROW_LEFT);
    }
    if str_equal(name, "right") {
        return Some(KEY_ARROW_RIGHT);
    }
    if str_equal(name, "insert") {
        return Some(KEY_INSERT);
    }
    if str_equal(name, "delete") {
        return Some(KEY_DELETE);
    }
    let function = function_key(name);
    if function.is_some() {
        return function;
    }
    if name.unicode_len() == 1 {
        return key_for_char(name.get_char(0));
    }
    None
}

/// Each multi-letter key name resolves to its own key: `tab`, `escape`,
/// `enter`, `backspace` and `back`, `space`, `home`, `end`, `pageup`,
/// `pagedown`, the four arrows by their direction, `insert` and `delete`.
pub proof fn law_word_names_resolve_to_their_keys(name: Seq<char>)
    ensures
        name == "tab"@ ==> key_from_name_spec(name) == Some(KEY_TAB),
        name == "escape"@ ==> key_from_name_spec(name) == Some(KEY_ESCAPE),
        name == "enter"@ ==> key_from_name_spec(name) == Some(KEY_ENTER),
        name == "backspace"@ ==> key_from_name_spec(name) == Some(KEY_BACKSPACE),
        name == "back"@ ==> key_from_name_spec(name) == Some(KEY_BACKSPACE),
        name == "space"@ ==> key_from_name_spec(name) == Some(KEY_SPACE),
        name == "home"@ ==> key_from_name_spec(name) == Some(KEY_HOME),
        name == "end"@ ==> key_from_name_spec(name) == Some(KEY_END),
        name == "pageup"@ ==> key_from_name_spec(name) == Some(KEY_PAGE_UP),
        name == "pagedown"@ ==> key_from_name_spec(name) == Some(KEY_PAGE_DOWN),
        name == "up"@ ==> key_from_name_spec(name) == Some(KEY_ARROW_UP),
        name == "down"@ ==> key_from_name_spec(name) == Some(KEY_ARROW_DOWN),
        name == "left"@ ==> key_from_name_spec(name) == Some(KEY_ARROW_LEFT),
        name == "right"@ ==> key_from_name_spec(name) == Some(KEY_ARROW_RIGHT),
        name == "insert"@ ==> key_from_name_spec(name) == Some(KEY_INSERT),
        name == "delete"@ ==> key_from_name_spec(name) == Some(KEY_DELETE),
{
    reveal_strlit("tab");
    reveal_strlit("escape");
    reveal_strlit("enter");
    reveal_strlit("backspace");
    reveal_strlit("back");
    reveal_strlit("space");
    reveal_strlit("home");
    reveal_strlit("end");
    reveal_strlit("pageup");
    reveal_strlit("pagedown");
    reveal_strlit("up");
    reveal_strlit("down");
    reveal_strlit("left");
    reveal_strlit("right");
    reveal_strlit("insert");
    reveal_strlit("delete");
}

/// The character typed with the same key on a US layout without shift:
/// shifted symbols map to their base symbol, everything else to itself.
pub open spec fn unshifted_char(c: char) -> char {
    if c == '!' { '1' }
    else if c == '@' { '2' }
    else if c == '#' { '3' }
    else if c == '$' { '4' }
    else if c == '%' { '5' }
    else if c == '^' { '6' }
    else if c == '&' { '7' }
    else if c == '*' { '8' }
    else if c == '(' { '9' }
    else if c == ')' { '0' }
    else if c == '~' { '`' }
    else if c == '_' { '-' }
    else if c == '+' { '=' }
    else if c == '{' { '[' }
    else if c == '}' { ']' }
    else if c == '|' { '\\' }
    else if c == ':' { ';' }
    else if c == '"' { '\'' }
    else if c == '<' { ',' }
    else if c == '>' { '.' }
    else if c == '?' { '/' }
    else { c }
}

/// A one-character name is none of the multi-character key names.
proof fn lemma_single_char_is_not_a_word(c: char)
    ensures
        key_from_name_spec(seq![c]) == (if function_key_spec(seq![c]) is Some {
            function_key_spec(seq![c])
        } else {
            key_for_char_spec(c)
        }),
{
    reveal_strlit("tab");
    reveal_strlit("escape");
    reveal_strlit("enter");
    reveal_strlit("backspace");
    reveal_strlit("back");
    reveal_strlit("space");
    reveal_strlit("home");
    reveal_strlit("end");
    reveal_strlit("pageup");
    reveal_strlit("pagedown");
    reveal_strlit("up");
    reveal_strlit("down");
    reveal_strlit("left");
    reveal_strlit("right");
    reveal_strlit("insert");
    reveal_strlit("delete");
    let name = seq![c];
    assert(name.len() == 1);
    assert(name[0] == c);
}

/// A lone `f` is the letter key, not a function key.
proof fn lemma_single_char_is_not_a_function_key(c: char)
    ensures
        function_key_spec(seq![c]) is None,
{
    let name = seq![c];
    if name.len() >= 1 && name[0] == 'f' {
        assert(name.drop_first().len() == 0);
    }
}

/// A one-character name names the key that types it on a US layout: a digit
/// its digit key, an upper-case letter its letter key, each symbol and its
/// shifted companion the key that carries both, and the space the space bar.
pub proof fn law_character_names_resolve_to_their_keys(c: char)
    ensures
        0x30 <= (c as u32) <= 0x39 ==> key_from_name_spec(seq![c]) == Some((KEY_DIGIT_0 + ((c as u32) - 0x30)) as i32),
        0x41 <= (c as u32) <= 0x5a ==> key_from_name_spec(seq![c]) == Some((KEY_A + ((c as u32) - 0x41)) as i32),
        c == '`' ==> key_from_name_spec(seq![c]) == Some(KEY_BACKQUOTE),
        c == '-' ==> key_from_name_spec(seq![c]) == Some(KEY_MINUS),
        c == '=' ==> key_from_name_spec(seq![c]) == Some(KEY_EQUAL),
        c == '[' ==> key_from_name_spec(seq![c]) == Some(KEY_BRACKET_LEFT),
        c == ']' ==> key_from_name_spec(seq![c]) == Some(KEY_BRACKET_RIGHT),
        c == '\\' ==> key_from_name_spec(seq![c]) == Some(KEY_BACKSLASH),
        c == ';' ==> key_from_name_spec(seq![c]) == Some(KEY_SEMICOLON),
        c == '\'' ==> key_from_name_spec(seq![c]) == Some(KEY_QUOTE),
        c == ',' ==> key_from_name_spec(seq![c]) == Some(KEY_COMMA),
        c == '.' ==> key_from_name_spec(seq![c]) == Some(KEY_PERIOD),
        c == '/' ==> key_from_name_spec(seq![c]) == Some(KEY_SLASH),
        c == ' ' ==> key_from_name_spec(seq![c]) == Some(KEY_SPACE),
        c == '~' ==> key_from_name_spec(seq![c]) == Some(KEY_BACKQUOTE),
        c == '_' ==> key_from_name_spec(seq![c]) == Some(KEY_MINUS),
        c == '+' ==> key_from_name_spec(seq![c]) == Some(KEY_EQUAL),
        c == '{' ==> key_from_name_spec(seq![c]) == Some(KEY_BRACKET_LEFT),
        c == '}' ==> key_from_name_spec(seq![c]) == Some(KEY_BRACKET_RIGHT),
        c == '|' ==> key_from_name_spec(seq![c]) == Some(KEY_BACKSLASH),
        c == ':' ==> key_from_name_spec(seq![c]) == Some(KEY_SEMICOLON),
        c == '"' ==> key_from_name_spec(seq![c]) == Some(KEY_QUOTE),
        c == '<' ==> key_from_name_spec(seq![c]) == Some(KEY_COMMA),
        c == '>' ==> key_from_name_spec(seq![c]) == Some(KEY_PERIOD),
        c == '?' ==> key_from_name_spec(seq![c]) == Some(KEY_SLASH),
        c == ')' ==> key_from_name_spec(seq![c]) == Some(KEY_DIGIT_0),
        c == '!' ==> key_from_name_spec(seq![c]) == Some((KEY_DIGIT_0 + 1) as i32),
        c == '@' ==> key_from_name_spec(seq![c]) == Some((KEY_DIGIT_0 + 2) as i32),
        c == '#' ==> key_from_name_spec(seq![c]) == Some((KEY_DIGIT_0 + 3) as i32),
        c == '$' ==> key_from_name_spec(seq![c]) == Some((KEY_DIGIT_0 + 4) as i32),
        c == '%' ==> key_from_name_spec(seq![c]) == Some((KEY_DIGIT_0 + 5) as i32),
        c == '^' ==> key_from_name_spec(seq![c]) == Some((KEY_DIGIT_0 + 6) as i32),
        c == '&' ==> key_from_name_spec(seq![c]) == Some((KEY_DIGIT_0 + 7) as i32),
        c == '*' ==> key_from_name_spec(seq![c]) == Some((KEY_DIGIT_0 + 8) as i32),
        c == '(' ==> key_from_name_spec(seq![c]) == Some((KEY_DIGIT_0 + 9) as i32),
{
    lemma_single_char_is_not_a_word(c);
    lemma_single_char_is_not_a_function_key(c);
}

/// A name of two or more characters that is none of the key words and does
/// not start with `f` names no key, and neither does `f` followed by text
/// that is no number between 1 and 20.
pub proof fn law_other_names_resolve_to_nothing(name: Seq<char>)
    requires
        name.len() >= 2,
        name != "tab"@,
        name != "escape"@,
        name != "enter"@,
        name != "backspace"@,
        name != "back"@,
        name != "space"@,
        name != "home"@,
        name != "end"@,
        name != "pageup"@,
        name != "pagedown"@,
        name != "up"@,
        name != "down"@,
        name != "left"@,
        name != "right"@,
        name != "insert"@,
        name != "delete"@,
    ensures
        name[0] != 'f' ==> key_from_name_spec(name) is None,
        (name[0] == 'f' && !(parse_i32_spec(name.drop_first()) matches Some(n) && 1 <= n <= 20))
            ==> key_from_name_spec(name) is None,
{
}

/// A letter names the same key whatever its case.
pub proof fn law_letter_names_ignore_case(lower: char)
    requires
        0x61 <= (lower as u32) <= 0x7a,
    ensures
        key_from_name_spec(seq![lower]) == key_from_name_spec(seq![((lower as u32) - 0x20) as char]),
        key_from_name_spec(seq![lower]) == Some((KEY_A + ((lower as u32) - 0x61)) as i32),
{
    let upper = ((lower as u32) - 0x20) as char;
    lemma_single_char_is_not_a_word(lower);
    lemma_single_char_is_not_a_word(upper);
    lemma_single_char_is_not_a_function_key(lower);
    lemma_single_char_is_not_a_function_key(upper);
    assert((upper as u32) == (lower as u32) - 0x20);
}

/// A shifted symbol names the same key as the symbol typed on that key
/// without shift.
pub proof fn law_shifted_symbols_name_their_key(c: char)
    ensures
        key_from_name_spec(seq![c]) == key_from_name_spec(seq![unshifted_char(c)]),
{
    lemma_single_char_is_not_a_word(c);
    lemma_single_char_is_not_a_word(unshifted_char(c));
    lemma_single_char_is_not_a_function_key(c);
    lemma_single_char_is_not_a_function_key(unshifted_char(c));
}

/// `f` followed by the number of a function key between 1 and 20 names
/// that function key, whatever other digits or sign spell the number.
pub proof fn law_function_key_names(name: Seq<char>, n: i32)
    requires
        name.len() >= 1,
        name[0] == 'f',
        parse_i32_spec(name.drop_first()) == Some(n),
        1 <= n <= 20,
    ensures
        key_from_name_spec(name) == Some((KEY_F1 + n - 1) as i32),
{
    reveal_strlit("tab");
    reveal_strlit("escape");
    reveal_strlit("enter");
    reveal_strlit("backspace");
    reveal_strlit("back");
    reveal_strlit("space");
    reveal_strlit("home");
    reveal_strlit("end");
    reveal_strlit("pageup");
    reveal_strlit("pagedown");
    reveal_strlit("up");
    reveal_strlit("down");
    reveal_strlit("left");
    reveal_strlit("right");
    reveal_strlit("insert");
    reveal_strlit("delete");
    assert(name != "tab"@ && name != "escape"@ && name != "enter"@ && name != "backspace"@);
    assert(name != "back"@ && name != "space"@ && name != "home"@ && name != "end"@);
    assert(name != "pageup"@ && name != "pagedown"@ && name != "up"@ && name != "down"@);
    assert(name != "left"@ && name != "right"@ && name != "insert"@ && name != "delete"@);
}

/// Every key that a name resolves to is an identified entry of the key table.
pub proof fn law_named_keys_are_known(name: Seq<char>)
    ensures
        key_from_name_spec(name) matches Some(k) ==> is_key_code(k) && k != KEY_UNIDENTIFIED,
{
}

} // verus!
