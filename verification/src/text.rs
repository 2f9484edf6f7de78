//! Rendering of numbers and byte strings as text.

use vstd::prelude::*;
use vstd::string::*;

verus! {

/// `String::push` appends one character.
pub assume_specification[ String::push ](s: &mut String, c: char)
    ensures
        final(s)@ == old(s)@.push(c),
;

/// The character for a digit below sixteen, letters in lower case.
pub open spec fn digit_of(n: int) -> char {
    if n == 0 {
        '0'
    } else if n == 1 {
        '1'
    } else if n == 2 {
        '2'
    } else if n == 3 {
        '3'
    } else if n == 4 {
        '4'
    } else if n == 5 {
        '5'
    } else if n == 6 {
        '6'
    } else if n == 7 {
        '7'
    } else if n == 8 {
        '8'
    } else if n == 9 {
        '9'
    } else if n == 10 {
        'a'
    } else if n == 11 {
        'b'
    } else if n == 12 {
        'c'
    } else if n == 13 {
        'd'
    } else if n == 14 {
        'e'
    } else {
        'f'
    }
}

/// The decimal digits of `n`, without leading zeros.
pub open spec fn decimal(n: nat) -> Seq<char>
    decreases n,
{
    if n < 10 {
        seq![digit_of(n as int)]
    } else {
        decimal(n / 10).push(digit_of((n % 10) as int))
    }
}

/// The hexadecimal digits of a byte; a byte below sixteen has one digit, or two
/// with `pad`.
pub open spec fn hex_byte(b: u8, pad: bool) -> Seq<char> {
    if b < 16 && !pad {
        seq![digit_of(b as int)]
    } else {
        seq![digit_of(b as int / 16), digit_of(b as int % 16)]
    }
}

/// The bytes in hexadecimal, separated by a comma and a space.
pub open spec fn hex_items(data: Seq<u8>, pad: bool) -> Seq<char>
    decreases data.len(),
{
    if data.len() == 0 {
        Seq::empty()
    } else if data.len() == 1 {
        hex_byte(data[0], pad)
    } else {
        hex_items(data.drop_last(), pad) + seq![',', ' '] + hex_byte(data.last(), pad)
    }
}

/// The bytes as a list in square brackets, as a debugging print shows them in
/// hexadecimal.
pub open spec fn hex_list(data: Seq<u8>, pad: bool) -> Seq<char> {
    seq!['['] + hex_items(data, pad) + seq![']']
}

/// The texts joined, with `sep` between each two.
pub open spec fn joined(parts: Seq<Seq<char>>, sep: Seq<char>) -> Seq<char>
    decreases parts.len(),
{
    if parts.len() == 0 {
        Seq::empty()
    } else if parts.len() == 1 {
        parts[0]
    } else {
        joined(parts.drop_last(), sep) + sep + parts.last()
    }
}

/// The views of the strings of a vector.
pub open spec fn texts_of(parts: Seq<String>) -> Seq<Seq<char>> {
    parts.map_values(|s: String| s@)
}

/// The character for a digit below sixteen.
pub fn digit(n: u8) -> (c: char)
    requires
        n < 16,
    ensures
        c == digit_of(n as int),
{
    match n {
        0 => '0',
        1 => '1',
        2 => '2',
        3 => '3',
        4 => '4',
        5 => '5',
        6 => '6',
        7 => '7',
        8 => '8',
        9 => '9',
        10 => 'a',
        11 => 'b',
        12 => 'c',
        13 => 'd',
        14 => 'e',
        _ => 'f',
    }
}

/// Appends the decimal digits of `n`.
pub fn push_decimal(out: &mut String, n: u64)
    ensures
        final(out)@ == old(out)@ + decimal(n as nat),
    decreases n,
{
    if n >= 10 {
        push_decimal(out, n / 10);
    }
    let d: u8 = (n % 10) as u8;
    out.push(digit(d));
    proof {
        if n >= 10 {
            assert(final(out)@ =~= old(out)@ + decimal(n as nat));
        } else {
            assert(final(out)@ =~= old(out)@ + decimal(n as nat));
        }
    }
}

/// The decimal digits of `n`.
pub fn decimal_string(n: u64) -> (r: String)
    ensures
        r@ == decimal(n as nat),
{
    let mut out = String::new();
    push_decimal(&mut out, n);
    assert(out@ =~= decimal(n as nat));
    out
}

/// Appends the hexadecimal digits of a byte.
pub fn push_hex_byte(out: &mut String, b: u8, pad: bool)
    ensures
        final(out)@ == old(out)@ + hex_byte(b, pad),
{
    if b < 16 && !pad {
        out.push(digit(b));
        assert(final(out)@ =~= old(out)@ + hex_byte(b, pad));
    } else {
        out.push(digit(b / 16));
        out.push(digit(b % 16));
        assert(final(out)@ =~= old(out)@ + hex_byte(b, pad));
    }
}

/// Appends the bytes as a list in square brackets.
pub fn push_hex_list(out: &mut String, data: &[u8], pad: bool)
    ensures
        final(out)@ == old(out)@ + hex_list(data@, pad),
{
    out.push('[');
    let mut i: usize = 0;
    while i < data.len()
        invariant
            i <= data.len(),
            out@ == old(out)@ + seq!['['] + hex_items(data@.take(i as int), pad),
        decreases data.len() - i,
    {
        let ghost before = out@;
        if i > 0 {
            out.push(',');
            out.push(' ');
        }
        push_hex_byte(out, data[i], pad);
        proof {
            let t = data@.take(i as int + 1);
            assert(t.drop_last() =~= data@.take(i as int));
            assert(t.last() == data@[i as int]);
            if i > 0 {
                assert(out@ =~= before + seq![',', ' '] + hex_byte(data@[i as int], pad));
            }
            assert(out@ =~= old(out)@ + seq!['['] + hex_items(t, pad));
        }
        i = i + 1;
    }
    out.push(']');
    proof {
        assert(data@.take(i as int) =~= data@);
        assert(final(out)@ =~= old(out)@ + hex_list(data@, pad));
    }
}

/// The texts joined, with `sep` between each two.
pub fn join(parts: &Vec<String>, sep: &str) -> (r: String)
    ensures
        r@ == joined(texts_of(parts@), sep@),
{
    let mut out = String::new();
    let mut i: usize = 0;
    while i < parts.len()
        invariant
            i <= parts.len(),
            out@ == joined(texts_of(parts@).take(i as int), sep@),
        decreases parts.len() - i,
    {
        let ghost before = out@;
        if i > 0 {
            out.append(sep);
        }
        out.append(parts[i].as_str());
        proof {
            let t = texts_of(parts@).take(i as int + 1);
            assert(t.drop_last() =~= texts_of(parts@).take(i as int));
            assert(t.last() == parts@[i as int]@);
            if i > 0 {
                assert(out@ =~= before + sep@ + parts@[i as int]@);
            } else {
                assert(out@ =~= parts@[i as int]@);
            }
        }
        i = i + 1;
    }
    proof {
        assert(texts_of(parts@).take(i as int) =~= texts_of(parts@));
    }
    out
}

/// `n` spaces.
pub open spec fn spaces(n: nat) -> Seq<char> {
    Seq::new(n, |i: int| ' ')
}

/// The text, followed by as many spaces as it lacks to the given width.
pub open spec fn padded(text: Seq<char>, width: nat) -> Seq<char> {
    if text.len() < width {
        text + spaces((width - text.len()) as nat)
    } else {
        text
    }
}

/// Appends the text, followed by as many spaces as it lacks to the given
/// width.
pub fn push_padded(out: &mut String, text: &str, width: usize)
    ensures
        final(out)@ == old(out)@ + padded(text@, width as nat),
{
    out.append(text);
    let ghost start = out@;
    let len = text.unicode_len();
    let mut i: usize = len;
    while i < width
        invariant
            len <= i,
            len < width ==> i <= width,
            len >= width ==> i == len,
            start == old(out)@ + text@,
            out@ == start + spaces((i - len) as nat),
        decreases width - i,
    {
        out.push(' ');
        proof {
            assert(out@ =~= start + spaces((i + 1 - len) as nat));
        }
        i = i + 1;
    }
    proof {
        if len < width {
            assert(out@ =~= old(out)@ + padded(text@, width as nat));
        } else {
            assert(spaces(0) =~= Seq::<char>::empty());
            assert(out@ =~= old(out)@ + padded(text@, width as nat));
        }
    }
}

} // verus!
