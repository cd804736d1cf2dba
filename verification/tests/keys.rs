use libghostty_vt_zed::text::parse_i32;
use libghostty_vt_zed::keys::{
    key_from_name, KEY_A, KEY_ARROW_UP, KEY_BACKQUOTE, KEY_DIGIT_0, KEY_MINUS, KEY_SLASH,
    KEY_UNIDENTIFIED,
};

#[test]
fn key_from_name_handles_shifted_ascii_variants() {
    assert_eq!(key_from_name("A"), Some(KEY_A));
    assert_eq!(key_from_name("@"), Some(KEY_DIGIT_0 + 2));
    assert_eq!(key_from_name("_"), Some(KEY_MINUS));
    assert_eq!(key_from_name("?"), Some(KEY_SLASH));
    assert_eq!(key_from_name("~"), Some(KEY_BACKQUOTE));
    assert_eq!(key_from_name("up"), Some(KEY_ARROW_UP));
    assert_eq!(key_from_name("bogus-key"), None);
    assert_eq!(key_from_name("é"), None);
    assert_eq!(KEY_UNIDENTIFIED, 0);
}

use libghostty_vt_zed::keys::{
    KEY_BACKSPACE, KEY_C, KEY_ESCAPE, KEY_F1, KEY_LAST, KEY_PERIOD, KEY_SPACE, KEY_TAB,
};

#[test]
fn key_names_resolve_words_and_function_keys() {
    assert_eq!(key_from_name("tab"), Some(KEY_TAB));
    assert_eq!(key_from_name("escape"), Some(KEY_ESCAPE));
    assert_eq!(key_from_name("back"), Some(KEY_BACKSPACE));
    assert_eq!(key_from_name("backspace"), Some(KEY_BACKSPACE));
    assert_eq!(key_from_name("space"), Some(KEY_SPACE));
    assert_eq!(key_from_name(" "), Some(KEY_SPACE));
    assert_eq!(key_from_name("f1"), Some(KEY_F1));
    assert_eq!(key_from_name("f12"), Some(KEY_F1 + 11));
    assert_eq!(key_from_name("f20"), Some(KEY_F1 + 19));
    assert_eq!(key_from_name("f+5"), Some(KEY_F1 + 4));
    assert_eq!(key_from_name("f05"), Some(KEY_F1 + 4));
    assert_eq!(key_from_name("f21"), None);
    assert_eq!(key_from_name("f0"), None);
    assert_eq!(key_from_name("f-1"), None);
    assert_eq!(key_from_name("f"), Some(KEY_A + 5));
    assert_eq!(key_from_name("F1"), None);
    assert_eq!(key_from_name("Tab"), None);
    assert_eq!(key_from_name(""), None);
}

#[test]
fn letter_names_ignore_case() {
    for (lower, upper) in ('a'..='z').zip('A'..='Z') {
        let expected = KEY_A + (lower as i32 - 'a' as i32);
        assert_eq!(key_from_name(&lower.to_string()), Some(expected));
        assert_eq!(key_from_name(&upper.to_string()), Some(expected));
    }
    assert_eq!(key_from_name("c"), Some(KEY_C));
}

#[test]
fn shifted_symbols_name_their_key() {
    let pairs = [
        ('!', '1'), ('@', '2'), ('#', '3'), ('$', '4'), ('%', '5'), ('^', '6'), ('&', '7'),
        ('*', '8'), ('(', '9'), (')', '0'), ('~', '`'), ('_', '-'), ('+', '='), ('{', '['),
        ('}', ']'), ('|', '\\'), (':', ';'), ('"', '\''), ('<', ','), ('>', '.'), ('?', '/'),
    ];
    for (shifted, base) in pairs {
        let key = key_from_name(&shifted.to_string());
        assert!(key.is_some(), "{shifted:?}");
        assert_eq!(key, key_from_name(&base.to_string()), "{shifted:?}");
    }
    assert_eq!(key_from_name("."), Some(KEY_PERIOD));
    assert_eq!(key_from_name("0"), Some(KEY_DIGIT_0));
    assert_eq!(key_from_name("9"), Some(KEY_DIGIT_0 + 9));
}

#[test]
fn named_keys_are_known_codes() {
    let names = [
        "tab", "escape", "enter", "back", "space", "home", "end", "pageup", "pagedown", "up",
        "down", "left", "right", "insert", "delete", "f1", "f20", "a", "Z", "5", "~",
    ];
    for name in names {
        let key = key_from_name(name).expect(name);
        assert!(key > KEY_UNIDENTIFIED && key <= KEY_LAST, "{name}");
    }
}

#[test]
fn parse_i32_agrees_with_std() {
    let inputs = [
        "", "+", "-", "0", "-0", "+7", "12", "007", "2147483647", "2147483648", "-2147483648",
        "-2147483649", "99999999999999999999", "1a", "a1", " 1", "1 ", "1_000", "--1", "+-1", "٣",
    ];
    for input in inputs {
        assert_eq!(parse_i32(input), input.parse::<i32>().ok(), "{input:?}");
    }
}
