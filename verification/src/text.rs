//! Text fragments of the assembler output: upper-case hexadecimal and
//! decimal renderings of operand values, and the byte column of the
//! diagnostic table.

use vstd::prelude::*;
use vstd::string::StringExecFns;

verus! {

/// The upper-case hexadecimal digit of a value below 16.
pub open spec fn hex_digit(n: int) -> char {
    if n == 0 {
        '0'
    } else if n == 1 {
        '1'
    } else if n == 2 {
        '2'
    } else if n == 3 {
        '3'
    } else if n == 4 {
        '4'
    } else if n == 5 {
        '5'
    } else if n == 6 {
        '6'
    } else if n == 7 {
        '7'
    } else if n == 8 {
        '8'
    } else if n == 9 {
        '9'
    } else if n == 10 {
        'A'
    } else if n == 11 {
        'B'
    } else if n == 12 {
        'C'
    } else if n == 13 {
        'D'
    } else if n == 14 {
        'E'
    } else if n == 15 {
        'F'
    } else {
        arbitrary()
    }
}

/// Two hexadecimal digits of a byte value.
pub open spec fn hex2(n: int) -> Seq<char>
    recommends
        0 <= n < 256,
{
    seq![hex_digit(n / 16), hex_digit(n % 16)]
}

/// Four hexadecimal digits of a 16-bit value.
pub open spec fn hex4(n: int) -> Seq<char>
    recommends
        0 <= n < 0x10000,
{
    seq![hex_digit(n / 4096), hex_digit(n / 256 % 16), hex_digit(n / 16 % 16), hex_digit(n % 16)]
}

/// The decimal digits of a byte value, without leading zeros.
pub open spec fn dec3(n: int) -> Seq<char>
    recommends
        0 <= n < 256,
{
    if n < 10 {
        seq![hex_digit(n)]
    } else if n < 100 {
        seq![hex_digit(n / 10), hex_digit(n % 10)]
    } else {
        seq![hex_digit(n / 100), hex_digit(n / 10 % 10), hex_digit(n % 10)]
    }
}

/// The byte column of a diagnostic table row: each byte as two hexadecimal
/// digits followed by one space.
pub open spec fn hex_bytes(bytes: Seq<u8>) -> Seq<char>
    decreases bytes.len(),
{
    if bytes.len() == 0 {
        Seq::empty()
    } else {
        hex_bytes(bytes.drop_last()) + hex2(bytes.last() as int) + " "@
    }
}

fn digit_str(n: u8) -> (r: &'static str)
    requires
        n < 16,
    ensures
        r@ == seq![hex_digit(n as int)],
{
    proof {
        reveal_strlit("0");
        reveal_strlit("1");
        reveal_strlit("2");
        reveal_strlit("3");
        reveal_strlit("4");
        reveal_strlit("5");
        reveal_strlit("6");
        reveal_strlit("7");
        reveal_strlit("8");
        reveal_strlit("9");
        reveal_strlit("A");
        reveal_strlit("B");
        reveal_strlit("C");
        reveal_strlit("D");
        reveal_strlit("E");
        reveal_strlit("F");
    }
    match n {
        0 => "0",
        1 => "1",
        2 => "2",
        3 => "3",
        4 => "4",
        5 => "5",
        6 => "6",
        7 => "7",
        8 => "8",
        9 => "9",
        10 => "A",
        11 => "B",
        12 => "C",
        13 => "D",
        14 => "E",
        _ => "F",
    }
}

/// Appends the two hexadecimal digits of `n` to `out`.
pub fn append_hex_byte(out: &mut String, n: u8)
    ensures
        final(out)@ == old(out)@ + hex2(n as int),
{
    out.append(digit_str(n / 16));
    out.append(digit_str(n % 16));
    assert(out@ =~= old(out)@ + hex2(n as int));
}

/// Appends the four hexadecimal digits of `n` to `out`.
pub fn append_hex_word(out: &mut String, n: u16)
    ensures
        final(out)@ == old(out)@ + hex4(n as int),
{
    out.append(digit_str((n / 4096) as u8));
    out.append(digit_str((n / 256 % 16) as u8));
    out.append(digit_str((n / 16 % 16) as u8));
    out.append(digit_str((n % 16) as u8));
    assert(out@ =~= old(out)@ + hex4(n as int));
}

/// Appends the decimal digits of `n` to `out`.
pub fn append_dec_byte(out: &mut String, n: u8)
    ensures
        final(out)@ == old(out)@ + dec3(n as int),
{
    if n >= 100 {
        out.append(digit_str(n / 100));
    }
    if n >= 10 {
        out.append(digit_str(n / 10 % 10));
    }
    out.append(digit_str(n % 10));
    assert(out@ =~= old(out)@ + dec3(n as int));
}

/// What `str::to_uppercase` returns for a given character sequence.
pub uninterp spec fn upper_of(s: Seq<char>) -> Seq<char>;

/// Relies on str::to_uppercase: the result is the Unicode uppercase mapping
/// of the input and depends on the input characters alone.
#[verifier::external_body]
pub(crate) fn to_upper(s: &str) -> (r: String)
    ensures
        r@ == upper_of(s@),
{
    s.to_uppercase()
}

} // verus!
