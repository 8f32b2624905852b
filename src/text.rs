//! Text building blocks with exact specifications: decimal numbers,
//! lower-case hexadecimal and JSON string escaping.

use vstd::prelude::*;

verus! {

/// Relies on `String::push`: the character is appended at the end.
#[verifier::external_body]
pub(crate) fn push_char(s: &mut String, c: char)
    ensures
        final(s)@ == old(s)@.push(c),
{
    s.push(c);
}

/// The decimal digit character for a value below ten.
pub open spec fn digit_char(d: int) -> char {
    (d + 48) as char
}

/// The lower-case hexadecimal digit character for a value below sixteen.
pub open spec fn hex_char(d: int) -> char {
    if d < 10 {
        (d + 48) as char
    } else {
        (d + 87) as char
    }
}

/// The decimal representation of a natural number, without leading zeros.
pub open spec fn digits(n: nat) -> Seq<char>
    decreases n,
{
    if n < 10 {
        seq![digit_char(n as int)]
    } else {
        digits(n / 10).push(digit_char((n % 10) as int))
    }
}

/// The decimal representation of an integer, with a minus sign when negative.
pub open spec fn decimal(n: int) -> Seq<char> {
    if n < 0 {
        seq!['-'] + digits((-n) as nat)
    } else {
        digits(n as nat)
    }
}

/// Two lower-case hexadecimal digits for each byte, most significant first.
pub open spec fn hex_of(b: Seq<u8>) -> Seq<char>
    decreases b.len(),
{
    if b.len() == 0 {
        Seq::empty()
    } else {
        hex_of(b.drop_last()).push(hex_char(b.last() as int / 16)).push(hex_char(b.last() as int % 16))
    }
}

fn digit_of(d: u64) -> (c: char)
    requires
        d < 10,
    ensures
        c == digit_char(d as int),
{
    let b: u8 = 48u8 + d as u8;
    b as char
}

fn nibble_of(d: u8) -> (c: char)
    requires
        d < 16,
    ensures
        c == hex_char(d as int),
{
    if d < 10 {
        (48u8 + d) as char
    } else {
        (87u8 + d) as char
    }
}

/// Appends the decimal digits of `n`.
pub fn push_digits(s: &mut String, n: u64)
    ensures
        final(s)@ == old(s)@ + digits(n as nat),
    decreases n,
{
    if n >= 10 {
        push_digits(s, n / 10);
    }
    push_char(s, digit_of(n % 10));
    assert(final(s)@ =~= old(s)@ + digits(n as nat));
}

/// Appends the decimal representation of `n`.
pub fn push_decimal(s: &mut String, n: i64)
    ensures
        final(s)@ == old(s)@ + decimal(n as int),
{
    if n < 0 {
        push_char(s, '-');
        let m: u64 = (0i128 - n as i128) as u64;
        push_digits(s, m);
        assert(final(s)@ =~= old(s)@ + decimal(n as int));
    } else {
        push_digits(s, n as u64);
    }
}

/// Appends two lower-case hexadecimal digits for each byte of `b`.
pub fn push_hex(s: &mut String, b: &[u8])
    ensures
        final(s)@ == old(s)@ + hex_of(b@),
{
    let ghost start = s@;
    let mut i: usize = 0;
    assert(b@.subrange(0, 0) =~= Seq::<u8>::empty());
    while i < b.len()
        invariant
            0 <= i <= b@.len(),
            s@ == start + hex_of(b@.subrange(0, i as int)),
        decreases b@.len() - i,
    {
        let x = b[i];
        push_char(s, nibble_of(x / 16));
        push_char(s, nibble_of(x % 16));
        assert(b@.subrange(0, i + 1).drop_last() =~= b@.subrange(0, i as int));
        i = i + 1;
        assert(s@ =~= start + hex_of(b@.subrange(0, i as int)));
    }
    assert(b@.subrange(0, b@.len() as int) =~= b@);
}

/// How one character is written inside a JSON string: quotes, backslashes and
/// control characters are escaped, the short forms used where they exist.
pub open spec fn json_escape_char(c: char) -> Seq<char> {
    if c == '"' {
        seq!['\\', '"']
    } else if c == '\\' {
        seq!['\\', '\\']
    } else if c == '\u{8}' {
        seq!['\\', 'b']
    } else if c == '\t' {
        seq!['\\', 't']
    } else if c == '\n' {
        seq!['\\', 'n']
    } else if c == '\u{c}' {
        seq!['\\', 'f']
    } else if c == '\r' {
        seq!['\\', 'r']
    } else if (c as u32) < 32 {
        seq!['\\', 'u', '0', '0', hex_char(c as int / 16), hex_char(c as int % 16)]
    } else {
        seq![c]
    }
}

/// The body of a JSON string literal holding `s`.
pub open spec fn json_escaped(s: Seq<char>) -> Seq<char>
    decreases s.len(),
{
    if s.len() == 0 {
        Seq::empty()
    } else {
        json_escaped(s.drop_last()) + json_escape_char(s.last())
    }
}

fn push_escaped_char(s: &mut String, c: char)
    ensures
        final(s)@ == old(s)@ + json_escape_char(c),
{
    let ghost start = s@;
    if c == '"' || c == '\\' {
        push_char(s, '\\');
        push_char(s, c);
    } else if c == '\u{8}' {
        push_char(s, '\\');
        push_char(s, 'b');
    } else if c == '\t' {
        push_char(s, '\\');
        push_char(s, 't');
    } else if c == '\n' {
        push_char(s, '\\');
        push_char(s, 'n');
    } else if c == '\u{c}' {
        push_char(s, '\\');
        push_char(s, 'f');
    } else if c == '\r' {
        push_char(s, '\\');
        push_char(s, 'r');
    } else if (c as u32) < 32 {
        let v: u8 = c as u8;
        push_char(s, '\\');
        push_char(s, 'u');
        push_char(s, '0');
        push_char(s, '0');
        push_char(s, nibble_of(v / 16));
        push_char(s, nibble_of(v % 16));
    } else {
        push_char(s, c);
    }
    assert(s@ =~= start + json_escape_char(c));
}

/// Appends `t` escaped for use inside a JSON string literal.
pub fn push_json_escaped(s: &mut String, t: &str)
    ensures
        final(s)@ == old(s)@ + json_escaped(t@),
{
    let ghost start = s@;
    let n = t.unicode_len();
    let mut i: usize = 0;
    assert(t@.subrange(0, 0) =~= Seq::<char>::empty());
    while i < n
        invariant
            n == t@.len(),
            0 <= i <= n,
            s@ == start + json_escaped(t@.subrange(0, i as int)),
        decreases n - i,
    {
        push_escaped_char(s, t.get_char(i));
        assert(t@.subrange(0, i + 1).drop_last() =~= t@.subrange(0, i as int));
        i = i + 1;
        assert(s@ =~= start + json_escaped(t@.subrange(0, i as int)));
    }
    assert(t@.subrange(0, n as int) =~= t@);
}

} // verus!
