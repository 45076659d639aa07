//! Building and comparing text: concatenation, decimal numbers, ASCII letter case.

use vstd::prelude::*;

verus! {

/// The character for a decimal digit below ten.
pub open spec fn digit_char(d: nat) -> char {
    if d == 0 {
        '0'
    } else if d == 1 {
        '1'
    } else if d == 2 {
        '2'
    } else if d == 3 {
        '3'
    } else if d == 4 {
        '4'
    } else if d == 5 {
        '5'
    } else if d == 6 {
        '6'
    } else if d == 7 {
        '7'
    } else if d == 8 {
        '8'
    } else {
        '9'
    }
}

/// The decimal numeral of a natural number, without leading zeros.
pub open spec fn decimal(n: nat) -> Seq<char>
    decreases n,
{
    if n < 10 {
        seq![digit_char(n)]
    } else {
        decimal(n / 10).push(digit_char(n % 10))
    }
}

/// The decimal numeral of an integer: a minus sign before a negative one.
pub open spec fn signed_decimal(n: int) -> Seq<char> {
    if n < 0 {
        seq!['-'] + decimal((-n) as nat)
    } else {
        decimal(n as nat)
    }
}

fn digit_str(d: u128) -> (r: &'static str)
    requires
        d < 10,
    ensures
        r@ == seq![digit_char(d as nat)],
{
    proof {
        reveal_strlit("0");
        reveal_strlit("1");
        reveal_strlit("2");
        reveal_strlit("3");
        reveal_strlit("4");
        reveal_strlit("5");
        reveal_strlit("6");
        reveal_strlit("7");
        reveal_strlit("8");
        reveal_strlit("9");
    }
    let r = if d == 0 {
        "0"
    } else if d == 1 {
        "1"
    } else if d == 2 {
        "2"
    } else if d == 3 {
        "3"
    } else if d == 4 {
        "4"
    } else if d == 5 {
        "5"
    } else if d == 6 {
        "6"
    } else if d == 7 {
        "7"
    } else if d == 8 {
        "8"
    } else {
        "9"
    };
    assert(r@ =~= seq![digit_char(d as nat)]);
    r
}

/// Writes a number in decimal.
pub fn decimal_string(n: u128) -> (r: String)
    ensures
        r@ == decimal(n as nat),
    decreases n,
{
    if n < 10 {
        String::from_str(digit_str(n))
    } else {
        let mut s = decimal_string(n / 10);
        s.append(digit_str(n % 10));
        assert(s@ =~= decimal((n / 10) as nat).push(digit_char((n % 10) as nat)));
        s
    }
}

/// Writes a signed number in decimal.
pub fn signed_decimal_string(n: i32) -> (r: String)
    ensures
        r@ == signed_decimal(n as int),
{
    if n < 0 {
        proof {
            reveal_strlit("-");
        }
        let magnitude: u128 = (-(n as i64)) as u128;
        let mut s = String::from_str("-");
        let digits = decimal_string(magnitude);
        s.append(digits.as_str());
        assert(s@ =~= seq!['-'] + decimal((-(n as int)) as nat));
        s
    } else {
        decimal_string(n as u128)
    }
}

/// Joins two strings.
pub fn concat2(a: &str, b: &str) -> (r: String)
    ensures
        r@ == a@ + b@,
{
    let mut s = String::from_str(a);
    s.append(b);
    s
}

/// Joins three strings.
pub fn concat3(a: &str, b: &str, c: &str) -> (r: String)
    ensures
        r@ == a@ + b@ + c@,
{
    let mut s = String::from_str(a);
    s.append(b);
    s.append(c);
    s
}

/// Whether two strings hold the same characters.
pub fn str_eq(a: &str, b: &str) -> (r: bool)
    ensures
        r == (a@ == b@),
{
    let x = a.to_owned();
    let y = b.to_owned();
    x == y
}

/// The bytes of a text of ASCII characters.
pub open spec fn ascii(s: Seq<char>) -> Seq<u8> {
    Seq::new(s.len(), |i: int| s[i] as u8)
}

/// Whether every character of a text is an ASCII character.
pub open spec fn all_ascii(s: Seq<char>) -> bool {
    vstd::utf8::is_ascii_chars(s)
}

/// The bytes of a text of ASCII characters.
pub(crate) fn ascii_bytes(s: &str) -> (r: &[u8])
    requires
        all_ascii(s@),
    ensures
        r@ == ascii(s@),
{
    broadcast use vstd::string::is_ascii_spec_bytes;

    assert(vstd::string::is_ascii(s));
    let r = s.as_bytes();
    assert(r@ =~= ascii(s@));
    r
}

/// Tests whether every character of a text is an ASCII character.
pub fn is_all_ascii(s: &str) -> (r: bool)
    ensures
        r == all_ascii(s@),
{
    s.is_ascii()
}

/// The lowercase form of an ASCII character: the letters `A` to `Z` become
/// `a` to `z`, and every other character stays.
pub open spec fn lower_char(c: char) -> char {
    if 'A' <= c <= 'Z' {
        ((c as u8) + 32) as char
    } else {
        c
    }
}

/// A text with each of its characters in its ASCII lowercase form.
pub open spec fn ascii_lowercase(s: Seq<char>) -> Seq<char> {
    Seq::new(s.len(), |i: int| lower_char(s[i]))
}

/// The lowercase form of a byte.
pub open spec fn lower_byte(b: u8) -> u8 {
    if 65 <= b <= 90 {
        (b + 32) as u8
    } else {
        b
    }
}

/// Whether the bytes of `text`, each in its lowercase form, are `lowered`.
pub open spec fn lowercase_is(text: Seq<u8>, lowered: Seq<u8>) -> bool {
    text.len() == lowered.len() && forall|i: int|
        0 <= i < text.len() ==> lower_byte(#[trigger] text[i]) == lowered[i]
}

/// Tests whether the bytes of `text`, each in its lowercase form, are `lowered`.
pub fn lowercase_matches(text: &[u8], lowered: &[u8]) -> (r: bool)
    ensures
        r == lowercase_is(text@, lowered@),
{
    let n = text.len();
    if lowered.len() != n {
        return false;
    }
    let mut i: usize = 0;
    while i < n
        invariant
            n == text@.len(),
            n == lowered@.len(),
            i <= n,
            forall|k: int| 0 <= k < i ==> lower_byte(#[trigger] text@[k]) == lowered@[k],
        decreases n - i,
    {
        let b = text[i];
        let low: u8 = if b >= 65 && b <= 90 {
            b + 32
        } else {
            b
        };
        if low != lowered[i] {
            return false;
        }
        i = i + 1;
    }
    true
}

/// For texts of ASCII characters, comparing bytes in lowercase form is
/// comparing the ASCII lowercase form of the text.
pub proof fn lemma_lowercase_is(text: Seq<char>, lowered: Seq<char>)
    requires
        all_ascii(text),
        all_ascii(lowered),
    ensures
        lowercase_is(ascii(text), ascii(lowered)) <==> ascii_lowercase(text) == lowered,
{
    if lowercase_is(ascii(text), ascii(lowered)) {
        assert forall|i: int| 0 <= i < text.len() implies lower_char(text[i]) == lowered[i] by {
            assert(lower_byte(ascii(text)[i]) == ascii(lowered)[i]);
            assert('\0' <= text[i] <= '\u{7f}');
            assert('\0' <= lowered[i] <= '\u{7f}');
        }
        assert(ascii_lowercase(text) =~= lowered);
    }
    if ascii_lowercase(text) == lowered {
        assert forall|i: int| 0 <= i < text.len() implies lower_byte(#[trigger] ascii(text)[i])
            == ascii(lowered)[i] by {
            assert(ascii_lowercase(text)[i] == lower_char(text[i]));
            assert('\0' <= text[i] <= '\u{7f}');
        }
    }
}

} // verus!
