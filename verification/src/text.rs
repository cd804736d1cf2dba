use vstd::prelude::*;

verus! {

/// Whether `u` is a Unicode scalar value, i.e. a value that `char` can hold.
pub open spec fn is_scalar_value(u: u32) -> bool {
    u <= 0x10FFFF && !(0xD800 <= u && u <= 0xDFFF)
}

/// Whether `c` is one of the ASCII digits `0`..=`9`.
pub open spec fn is_ascii_digit(c: char) -> bool {
    0x30 <= (c as u32) && (c as u32) <= 0x39
}

/// The value of a sequence of ASCII decimal digits, most significant first.
pub open spec fn decimal_value(digits: Seq<char>) -> int
    decreases digits.len(),
{
    if digits.len() == 0 {
        0
    } else {
        decimal_value(digits.drop_last()) * 10 + ((digits.last() as u32) - 0x30)
    }
}

/// Every character of `digits` is an ASCII digit.
pub open spec fn all_ascii_digits(digits: Seq<char>) -> bool {
    forall|i: int| 0 <= i < digits.len() ==> is_ascii_digit(#[trigger] digits[i])
}

/// `s` without its leading `+` or `-` sign, if it has one.
pub open spec fn unsigned_part(s: Seq<char>) -> Seq<char> {
    if s.len() > 0 && (s[0] == '-' || s[0] == '+') {
        s.drop_first()
    } else {
        s
    }
}

/// What `str::parse::<i32>` accepts, as its documentation states it: an
/// optional `+` or `-` sign followed by one or more ASCII digits and nothing
/// else, whose value fits in an `i32`.
pub open spec fn parse_i32_spec(s: Seq<char>) -> Option<i32> {
    let negative = s.len() > 0 && s[0] == '-';
    let digits = unsigned_part(s);
    if digits.len() == 0 || !all_ascii_digits(digits) {
        None
    } else {
        let value = if negative { -decimal_value(digits) } else { decimal_value(digits) };
        if i32::MIN <= value && value <= i32::MAX {
            Some(value as i32)
        } else {
            None
        }
    }
}

/// `s` begins with `prefix`.
pub open spec fn seq_starts_with(s: Seq<char>, prefix: Seq<char>) -> bool {
    prefix.len() <= s.len() && s.subrange(0, prefix.len() as int) == prefix
}

/// `s` ends with `suffix`.
pub open spec fn seq_ends_with(s: Seq<char>, suffix: Seq<char>) -> bool {
    suffix.len() <= s.len() && s.subrange(s.len() - suffix.len(), s.len() as int) == suffix
}

/// A run of ASCII digits has a non-negative value, no smaller than that of
/// any of its prefixes.
proof fn lemma_decimal_value_grows(digits: Seq<char>, k: int)
    requires
        0 <= k <= digits.len(),
        all_ascii_digits(digits),
    ensures
        0 <= decimal_value(digits.take(k)) <= decimal_value(digits),
    decreases digits.len(),
{
    if k == digits.len() {
        assert(digits.take(k) =~= digits);
        if digits.len() > 0 {
            lemma_decimal_value_grows(digits.drop_last(), digits.len() - 1);
            assert(digits.drop_last().take(digits.len() - 1) =~= digits.drop_last());
            assert(is_ascii_digit(digits[digits.len() - 1]));
        }
    } else {
        let rest = digits.drop_last();
        lemma_decimal_value_grows(rest, k);
        lemma_decimal_value_grows(rest, rest.len() as int);
        assert(rest.take(rest.len() as int) =~= rest);
        assert(rest.take(k) =~= digits.take(k));
        assert(is_ascii_digit(digits[digits.len() - 1]));
    }
}

/// A sign changes only the sign: a run of ASCII digits parses as its
/// value when that fits, a `+` before it changes nothing, a `-` before it
/// negates it (down to `i32::MIN`), a value that does not fit parses as
/// nothing with or without a sign, and so do the empty text and a lone sign.
pub proof fn law_parse_i32_signs(digits: Seq<char>)
    requires
        digits.len() > 0,
        all_ascii_digits(digits),
    ensures
        decimal_value(digits) <= i32::MAX ==> parse_i32_spec(digits) == Some(
            decimal_value(digits) as i32,
        ),
        decimal_value(digits) <= i32::MAX ==> parse_i32_spec(seq!['+'] + digits) == Some(
            decimal_value(digits) as i32,
        ),
        decimal_value(digits) <= -(i32::MIN as int) ==> parse_i32_spec(seq!['-'] + digits) == Some(
            (-decimal_value(digits)) as i32,
        ),
        decimal_value(digits) > i32::MAX ==> parse_i32_spec(digits) is None && parse_i32_spec(
            seq!['+'] + digits,
        ) is None,
        decimal_value(digits) > -(i32::MIN as int) ==> parse_i32_spec(seq!['-'] + digits) is None,
        parse_i32_spec(Seq::empty()) is None,
        parse_i32_spec(seq!['+']) is None,
        parse_i32_spec(seq!['-']) is None,
{
    lemma_decimal_value_grows(digits, 0);
    assert(digits.take(0) =~= Seq::<char>::empty());
    let plus = seq!['+'] + digits;
    let minus = seq!['-'] + digits;
    assert(plus.drop_first() =~= digits);
    assert(minus.drop_first() =~= digits);
    assert(unsigned_part(plus) == digits);
    assert(unsigned_part(minus) == digits);
    assert(!is_ascii_digit('+') && !is_ascii_digit('-'));
    assert(!(digits[0] == '-' || digits[0] == '+'));
    assert(unsigned_part(digits) == digits);
    assert(seq!['+'].drop_first() =~= Seq::<char>::empty());
    assert(seq!['-'].drop_first() =~= Seq::<char>::empty());
}

/// Parse text as `str::parse::<i32>` does: an optional `+` or `-` sign
/// followed by one or more ASCII digits and nothing else, whose value fits
/// in an `i32`.
pub fn parse_i32(s: &str) -> (parsed: Option<i32>)
    ensures
        parsed == parse_i32_spec(s@),
{
    let n = s.unicode_len();
    let mut start: usize = 0;
    let mut negative = false;
    if n > 0 {
        let first = s.get_char(0);
        if first == '-' {
            negative = true;
            start = 1;
        } else if first == '+' {
            start = 1;
        }
    }
    let ghost digits = s@.subrange(start as int, n as int);
    proof {
        if start == 1 {
            assert(digits =~= s@.drop_first());
        } else {
            assert(digits =~= s@);
        }
        assert(digits == unsigned_part(s@));
    }
    if start == n {
        return None;
    }
    let mut value: u64 = 0;
    let mut i: usize = start;
    while i < n
        invariant
            n == s@.len(),
            start <= i <= n,
            digits == s@.subrange(start as int, n as int),
            digits == unsigned_part(s@),
            forall|k: int| 0 <= k < i - start ==> is_ascii_digit(#[trigger] digits[k]),
            value == decimal_value(digits.take(i - start)),
            value <= 2147483648,
        decreases n - i,
    {
        let c = s.get_char(i);
        let u = c as u32;
        assert(digits[i - start] == c);
        if u < 0x30 || u > 0x39 {
            assert(!is_ascii_digit(digits[i - start]));
            assert(!all_ascii_digits(digits));
            return None;
        }
        let ghost before = digits.take(i - start);
        proof {
            assert(digits.take(i - start + 1).drop_last() =~= before);
            assert(digits.take(i - start + 1).last() == c);
        }
        assert(decimal_value(digits.take(i - start + 1)) == decimal_value(before) * 10 + (u - 0x30));
        assert(value * 10 + (u - 0x30) <= 21474836489) by (nonlinear_arith)
            requires
                value <= 2147483648,
                u <= 0x39,
        ;
        value = value * 10 + (u - 0x30) as u64;
        if value > 2147483648 {
            proof {
                if all_ascii_digits(digits) {
                    lemma_decimal_value_grows(digits, i - start + 1);
                    assert(decimal_value(digits) > 2147483648);
                }
            }
            return None;
        }
        i = i + 1;
    }
    assert(digits.take(n - start) =~= digits);
    if negative {
        if value <= 2147483648 {
            let v: i64 = 0 - (value as i64);
            Some(v as i32)
        } else {
            None
        }
    } else if value <= 2147483647 {
        Some(value as i32)
    } else {
        None
    }
}

/// Calls `char::from_u32`, which is documented to return the `char` with the
/// given code point, or `None` for surrogates and values above `0x10FFFF`.
#[verifier::external_body]
pub(crate) fn char_from_u32(u: u32) -> (c: Option<char>)
    ensures
        is_scalar_value(u) ==> c == Some(u as char),
        !is_scalar_value(u) ==> c is None,
{
    char::from_u32(u)
}

/// Calls `String::push`, which appends one `char` to the end of the string.
#[verifier::external_body]
pub(crate) fn push_char(s: &mut String, c: char)
    ensures
        final(s)@ == old(s)@.push(c),
{
    s.push(c);
}

/// Whether two string slices hold the same characters.
pub fn str_equal(a: &str, b: &str) -> (equal: bool)
    ensures
        equal == (a@ == b@),
{
    let n = a.unicode_len();
    let m = b.unicode_len();
    if n != m {
        return false;
    }
    let mut i: usize = 0;
    while i < n
        invariant
            n == a@.len(),
            m == b@.len(),
            n == m,
            i <= n,
            forall|j: int| 0 <= j < i ==> a@[j] == b@[j],
        decreases n - i,
    {
        if a.get_char(i) != b.get_char(i) {
            return false;
        }
        i = i + 1;
    }
    assert(a@ =~= b@);
    true
}

/// Whether `s` begins with the characters of `prefix`.
pub fn str_starts_with(s: &str, prefix: &str) -> (starts: bool)
    ensures
        starts == seq_starts_with(s@, prefix@),
{
    let n = s.unicode_len();
    let m = prefix.unicode_len();
    if m > n {
        return false;
    }
    let mut i: usize = 0;
    while i < m
        invariant
            n == s@.len(),
            m == prefix@.len(),
            m <= n,
            i <= m,
            forall|j: int| 0 <= j < i ==> s@[j] == prefix@[j],
        decreases m - i,
    {
        if s.get_char(i) != prefix.get_char(i) {
            assert(s@.subrange(0, m as int)[i as int] != prefix@[i as int]);
            return false;
        }
        i = i + 1;
    }
    assert(s@.subrange(0, m as int) =~= prefix@);
    true
}

/// Whether `s` ends with the characters of `suffix`.
pub fn str_ends_with(s: &str, suffix: &str) -> (ends: bool)
    ensures
        ends == seq_ends_with(s@, suffix@),
{
    let n = s.unicode_len();
    let m = suffix.unicode_len();
    if m > n {
        return false;
    }
    let offset = n - m;
    let mut i: usize = 0;
    while i < m
        invariant
            n == s@.len(),
            m == suffix@.len(),
            m <= n,
            offset == n - m,
            i <= m,
            forall|j: int| 0 <= j < i ==> s@[offset + j] == suffix@[j],
        decreases m - i,
    {
        if s.get_char(offset + i) != suffix.get_char(i) {
            assert(s@.subrange(offset as int, n as int)[i as int] != suffix@[i as int]);
            return false;
        }
        i = i + 1;
    }
    assert(s@.subrange(offset as int, n as int) =~= suffix@);
    true
}

} // verus!
