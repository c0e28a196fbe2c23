//! Verified text formatting: decimal and uppercase-hexadecimal renderings
//! of unsigned integers, with optional zero padding, and the printable-ASCII
//! projection used by the hex dump's character sidebar.

use vstd::prelude::*;

verus! {

/// Uppercase hexadecimal digit for a value below 16.
pub open spec fn spec_hex_digit(v: int) -> char {
    if v == 0 {
        '0'
    } else if v == 1 {
        '1'
    } else if v == 2 {
        '2'
    } else if v == 3 {
        '3'
    } else if v == 4 {
        '4'
    } else if v == 5 {
        '5'
    } else if v == 6 {
        '6'
    } else if v == 7 {
        '7'
    } else if v == 8 {
        '8'
    } else if v == 9 {
        '9'
    } else if v == 10 {
        'A'
    } else if v == 11 {
        'B'
    } else if v == 12 {
        'C'
    } else if v == 13 {
        'D'
    } else if v == 14 {
        'E'
    } else {
        'F'
    }
}

/// Shortest uppercase hexadecimal rendering of a non-negative value.
pub open spec fn spec_hex(n: int) -> Seq<char>
    decreases n,
{
    if n < 0 {
        Seq::empty()
    } else if n < 16 {
        seq![spec_hex_digit(n)]
    } else {
        spec_hex(n / 16) + seq![spec_hex_digit(n % 16)]
    }
}

/// Hexadecimal rendering zero-padded on the left to at least `width`
/// digits (the shape `{:0width$X}` takes for unsigned values).
pub open spec fn spec_hex_padded(n: int, width: int) -> Seq<char> {
    if spec_hex(n).len() >= width {
        spec_hex(n)
    } else {
        Seq::new((width - spec_hex(n).len()) as nat, |i: int| '0') + spec_hex(n)
    }
}

/// Shortest decimal rendering of a non-negative value. Digits below ten
/// coincide with the hexadecimal ones.
pub open spec fn spec_dec(n: int) -> Seq<char>
    decreases n,
{
    if n < 0 {
        Seq::empty()
    } else if n < 10 {
        seq![spec_hex_digit(n)]
    } else {
        spec_dec(n / 10) + seq![spec_hex_digit(n % 10)]
    }
}

/// Decimal rendering zero-padded on the left to at least `width` digits.
pub open spec fn spec_dec_padded(n: int, width: int) -> Seq<char> {
    if spec_dec(n).len() >= width {
        spec_dec(n)
    } else {
        Seq::new((width - spec_dec(n).len()) as nat, |i: int| '0') + spec_dec(n)
    }
}

/// The character sidebar's projection of one byte: printable ASCII shows
/// itself, everything else shows `.`.
pub open spec fn spec_ascii_display_char(b: u8) -> char {
    if 32 <= b <= 126 {
        b as char
    } else {
        '.'
    }
}

/// The character sidebar's projection of a byte sequence.
pub open spec fn spec_ascii_display(b: Seq<u8>) -> Seq<char> {
    Seq::new(b.len(), |i: int| spec_ascii_display_char(b[i]))
}

/// Relies on `String::push` of std: it appends exactly the one character.
#[verifier::external_body]
pub fn push_char(s: &mut String, c: char)
    ensures
        final(s)@ == old(s)@.push(c),
{
    s.push(c);
}

/// Uppercase hexadecimal digit character of `v`.
pub fn hex_digit(v: u8) -> (r: char)
    requires
        v < 16,
    ensures
        r == spec_hex_digit(v as int),
{
    match v {
        0 => '0',
        1 => '1',
        2 => '2',
        3 => '3',
        4 => '4',
        5 => '5',
        6 => '6',
        7 => '7',
        8 => '8',
        9 => '9',
        10 => 'A',
        11 => 'B',
        12 => 'C',
        13 => 'D',
        14 => 'E',
        _ => 'F',
    }
}

/// The two hexadecimal digits of one byte.
pub fn hex_byte(b: u8) -> (r: (char, char))
    ensures
        r.0 == spec_hex_digit(b as int / 16),
        r.1 == spec_hex_digit(b as int % 16),
{
    (hex_digit(b / 16), hex_digit(b % 16))
}

/// Sidebar character of one byte.
pub fn ascii_display_char(b: u8) -> (r: char)
    ensures
        r == spec_ascii_display_char(b),
{
    if 32 <= b && b <= 126 {
        b as char
    } else {
        '.'
    }
}

/// Append the hexadecimal digit characters of `n` to `v`.
fn hex_chars_into(v: &mut Vec<char>, n: u64)
    ensures
        final(v)@ == old(v)@ + spec_hex(n as int),
    decreases n,
{
    if n < 16 {
        v.push(hex_digit(n as u8));
        assert(v@ =~= old(v)@ + spec_hex(n as int));
    } else {
        hex_chars_into(v, n / 16);
        v.push(hex_digit((n % 16) as u8));
        assert(v@ =~= old(v)@ + spec_hex(n as int));
    }
}

/// Append the decimal digit characters of `n` to `v`.
fn dec_chars_into(v: &mut Vec<char>, n: u64)
    ensures
        final(v)@ == old(v)@ + spec_dec(n as int),
    decreases n,
{
    if n < 10 {
        v.push(hex_digit(n as u8));
        assert(v@ =~= old(v)@ + spec_dec(n as int));
    } else {
        dec_chars_into(v, n / 10);
        v.push(hex_digit((n % 10) as u8));
        assert(v@ =~= old(v)@ + spec_dec(n as int));
    }
}

/// Append every character of `v` to `s`.
fn push_chars(s: &mut String, v: &Vec<char>)
    ensures
        final(s)@ == old(s)@ + v@,
{
    let n = v.len();
    let mut i: usize = 0;
    while i < n
        invariant
            i <= n,
            n == v@.len(),
            s@ == old(s)@ + v@.take(i as int),
        decreases n - i,
    {
        push_char(s, v[i]);
        proof {
            assert(s@ =~= old(s)@ + v@.take(i + 1));
        }
        i = i + 1;
    }
    proof {
        assert(v@.take(n as int) =~= v@);
    }
}

/// Append `count` copies of `c` to `s`.
pub fn push_repeat(s: &mut String, c: char, count: usize)
    ensures
        final(s)@ == old(s)@ + Seq::new(count as nat, |i: int| c),
{
    let mut pad: usize = 0;
    while pad < count
        invariant
            pad <= count,
            s@ == old(s)@ + Seq::new(pad as nat, |i: int| c),
        decreases count - pad,
    {
        push_char(s, c);
        proof {
            assert(s@ =~= old(s)@ + Seq::new((pad + 1) as nat, |i: int| c));
        }
        pad = pad + 1;
    }
}

/// Append the shortest hexadecimal rendering of `n`.
pub fn push_hex(s: &mut String, n: u64)
    ensures
        final(s)@ == old(s)@ + spec_hex(n as int),
{
    let mut digits: Vec<char> = Vec::new();
    hex_chars_into(&mut digits, n);
    push_chars(s, &digits);
    assert(s@ =~= old(s)@ + spec_hex(n as int));
}

/// Append the shortest decimal rendering of `n`.
pub fn push_dec(s: &mut String, n: u64)
    ensures
        final(s)@ == old(s)@ + spec_dec(n as int),
{
    let mut digits: Vec<char> = Vec::new();
    dec_chars_into(&mut digits, n);
    push_chars(s, &digits);
    assert(s@ =~= old(s)@ + spec_dec(n as int));
}

/// Append zeros, then the hexadecimal rendering, so that at least `width`
/// characters are appended.
pub fn push_hex_padded(s: &mut String, n: u64, width: usize)
    ensures
        final(s)@ == old(s)@ + spec_hex_padded(n as int, width as int),
{
    let mut digits: Vec<char> = Vec::new();
    hex_chars_into(&mut digits, n);
    let count = digits.len();
    if count < width {
        push_repeat(s, '0', width - count);
    }
    push_chars(s, &digits);
    assert(s@ =~= old(s)@ + spec_hex_padded(n as int, width as int));
}

/// Append zeros, then the decimal rendering, so that at least `width`
/// characters are appended.
pub fn push_dec_padded(s: &mut String, n: u64, width: usize)
    ensures
        final(s)@ == old(s)@ + spec_dec_padded(n as int, width as int),
{
    let mut digits: Vec<char> = Vec::new();
    dec_chars_into(&mut digits, n);
    let count = digits.len();
    if count < width {
        push_repeat(s, '0', width - count);
    }
    push_chars(s, &digits);
    assert(s@ =~= old(s)@ + spec_dec_padded(n as int, width as int));
}

/// Append the sidebar projection of `data`.
pub fn push_ascii_display(s: &mut String, data: &[u8])
    ensures
        final(s)@ == old(s)@ + spec_ascii_display(data@),
{
    let n = data.len();
    let mut i: usize = 0;
    while i < n
        invariant
            i <= n,
            n == data@.len(),
            s@ == old(s)@ + spec_ascii_display(data@.take(i as int)),
        decreases n - i,
    {
        push_char(s, ascii_display_char(data[i]));
        proof {
            assert(s@ =~= old(s)@ + spec_ascii_display(data@.take(i + 1)));
        }
        i = i + 1;
    }
    proof {
        assert(data@.take(n as int) =~= data@);
    }
}

/// Printable-ASCII projection of a byte slice (the sidebar column on its
/// own).
pub fn display_raw_data_as_ascii(data: &[u8]) -> (r: String)
    ensures
        r@ == spec_ascii_display(data@),
{
    let mut s = String::new();
    push_ascii_display(&mut s, data);
    assert(s@ =~= spec_ascii_display(data@));
    s
}

} // verus!
