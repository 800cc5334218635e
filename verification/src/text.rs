//! Character and string building blocks: ASCII case mapping, appending,
//! decimal numerals and alignment.
use vstd::prelude::*;

verus! {

/// `c` with an ASCII lowercase letter turned to uppercase; any other character unchanged.
pub open spec fn ascii_upper(c: char) -> char {
    if 'a' <= c && c <= 'z' {
        ((c as u32) - 32) as char
    } else {
        c
    }
}

/// `c` with an ASCII uppercase letter turned to lowercase; any other character unchanged.
pub open spec fn ascii_lower(c: char) -> char {
    if 'A' <= c && c <= 'Z' {
        ((c as u32) + 32) as char
    } else {
        c
    }
}

/// Every character of `s` through `ascii_lower`.
pub open spec fn ascii_lower_seq(s: Seq<char>) -> Seq<char> {
    Seq::new(s.len(), |i: int| ascii_lower(s[i]))
}

/// The decimal digit for `d < 10`.
pub open spec fn digit_char(d: nat) -> char {
    (d + 48) as char
}

/// The decimal numeral of `n`, without sign or leading zeroes.
pub open spec fn decimal(n: nat) -> Seq<char>
    decreases n,
{
    if n < 10 {
        seq![digit_char(n)]
    } else {
        decimal(n / 10).push(digit_char(n % 10))
    }
}

/// `len` copies of `c`.
pub open spec fn repeat_char(c: char, len: nat) -> Seq<char> {
    Seq::new(len, |_i: int| c)
}

/// `s` with `fill` put in front until it is `width` characters long.
pub open spec fn pad_left(s: Seq<char>, width: nat, fill: char) -> Seq<char> {
    if s.len() >= width {
        s
    } else {
        repeat_char(fill, (width - s.len()) as nat) + s
    }
}

/// `s` with spaces put after it until it is `width` characters long.
pub open spec fn pad_right(s: Seq<char>, width: nat) -> Seq<char> {
    if s.len() >= width {
        s
    } else {
        s + repeat_char(' ', (width - s.len()) as nat)
    }
}

/// Appends a character: a wrapper for `String::push`, which std documents as
/// appending the given `char` to the end of the `String`.
#[verifier::external_body]
pub(crate) fn push_char(s: &mut String, c: char)
    ensures
        final(s)@ == old(s)@.push(c),
{
    s.push(c);
}

/// Appends a string slice.
pub fn push_str(s: &mut String, t: &str)
    ensures
        final(s)@ == old(s)@ + t@,
{
    s.append(t);
}

/// ASCII uppercase of one character.
pub fn to_ascii_upper(c: char) -> (r: char)
    ensures
        r == ascii_upper(c),
{
    if 'a' <= c && c <= 'z' {
        ((c as u8) - 32) as char
    } else {
        c
    }
}

/// ASCII lowercase of one character.
pub fn to_ascii_lower(c: char) -> (r: char)
    ensures
        r == ascii_lower(c),
{
    if 'A' <= c && c <= 'Z' {
        ((c as u8) + 32) as char
    } else {
        c
    }
}

/// Whether two string slices hold the same characters.
pub fn str_eq(a: &str, b: &str) -> (r: bool)
    ensures
        r == (a@ == b@),
{
    let x = String::from_str(a);
    let y = String::from_str(b);
    x == y
}

/// Appends `len` copies of `c`.
pub fn push_repeat(s: &mut String, c: char, len: usize)
    ensures
        final(s)@ == old(s)@ + repeat_char(c, len as nat),
{
    let mut i: usize = 0;
    while i < len
        invariant
            i <= len,
            s@ == old(s)@ + repeat_char(c, i as nat),
        decreases len - i,
    {
        push_char(s, c);
        i = i + 1;
        assert(s@ =~= old(s)@ + repeat_char(c, i as nat));
    }
}

/// Appends the decimal numeral of `n`.
pub fn push_decimal(s: &mut String, n: u64)
    ensures
        final(s)@ == old(s)@ + decimal(n as nat),
    decreases n,
{
    if n >= 10 {
        push_decimal(s, n / 10);
    }
    let d = (n % 10) as u8;
    push_char(s, (d + 48) as char);
    assert(final(s)@ =~= old(s)@ + decimal(n as nat));
}

/// The decimal numeral of `n`.
pub fn decimal_string(n: u64) -> (r: String)
    ensures
        r@ == decimal(n as nat),
{
    let mut s = String::new();
    push_decimal(&mut s, n);
    assert(s@ =~= decimal(n as nat));
    s
}

/// Appends the numeral of `n`, right-aligned in `width` characters, the gap
/// filled with `fill`.
pub fn push_decimal_right(s: &mut String, n: u64, width: usize, fill: char)
    ensures
        final(s)@ == old(s)@ + pad_left(decimal(n as nat), width as nat, fill),
{
    let digits = decimal_string(n);
    let len = digits.as_str().unicode_len();
    if len < width {
        push_repeat(s, fill, width - len);
    }
    push_str(s, digits.as_str());
    assert(final(s)@ =~= old(s)@ + pad_left(decimal(n as nat), width as nat, fill));
}

/// Appends `t`, left-aligned in `width` characters, the gap filled with spaces.
pub fn push_str_left(s: &mut String, t: &str, width: usize)
    ensures
        final(s)@ == old(s)@ + pad_right(t@, width as nat),
{
    let len = t.unicode_len();
    push_str(s, t);
    if len < width {
        push_repeat(s, ' ', width - len);
    }
    assert(final(s)@ =~= old(s)@ + pad_right(t@, width as nat));
}

} // verus!
