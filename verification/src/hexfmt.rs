//! An opcode in capital hexadecimal digits, for the messages of the decoders.

use vstd::prelude::*;

verus! {

/// The character that stands for the hexadecimal digit `d`.
pub open spec fn hex_digit(d: int) -> char
    recommends
        0 <= d < 16,
{
    if d == 0 {
        '0'
    } else if d == 1 {
        '1'
    } else if d == 2 {
        '2'
    } else if d == 3 {
        '3'
    } else if d == 4 {
        '4'
    } else if d == 5 {
        '5'
    } else if d == 6 {
        '6'
    } else if d == 7 {
        '7'
    } else if d == 8 {
        '8'
    } else if d == 9 {
        '9'
    } else if d == 10 {
        'A'
    } else if d == 11 {
        'B'
    } else if d == 12 {
        'C'
    } else if d == 13 {
        'D'
    } else if d == 14 {
        'E'
    } else {
        'F'
    }
}

/// The hexadecimal digits of `n`, most significant first, without leading
/// zeros; zero is the single digit `0`.
pub open spec fn hex_digits(n: nat) -> Seq<char>
    decreases n,
{
    if n < 16 {
        seq![hex_digit(n as int)]
    } else {
        hex_digits(n / 16).push(hex_digit((n % 16) as int))
    }
}

fn digit_str(d: u16) -> (s: &'static str)
    requires
        d < 16,
    ensures
        s@ == seq![hex_digit(d as int)],
{
    proof {
        reveal_strlit("0");
        reveal_strlit("1");
        reveal_strlit("2");
        reveal_strlit("3");
        reveal_strlit("4");
        reveal_strlit("5");
        reveal_strlit("6");
        reveal_strlit("7");
        reveal_strlit("8");
        reveal_strlit("9");
        reveal_strlit("A");
        reveal_strlit("B");
        reveal_strlit("C");
        reveal_strlit("D");
        reveal_strlit("E");
        reveal_strlit("F");
    }
    let s = match d {
        0 => "0",
        1 => "1",
        2 => "2",
        3 => "3",
        4 => "4",
        5 => "5",
        6 => "6",
        7 => "7",
        8 => "8",
        9 => "9",
        10 => "A",
        11 => "B",
        12 => "C",
        13 => "D",
        14 => "E",
        _ => "F",
    };
    assert(s@ =~= seq![hex_digit(d as int)]);
    s
}

/// Writes `n` in capital hexadecimal digits.
pub fn upper_hex(n: u16) -> (text: String)
    ensures
        text@ == hex_digits(n as nat),
{
    let mut text = String::new();
    if n >= 0x1000 {
        text.append(digit_str(n / 0x1000));
    }
    if n >= 0x100 {
        text.append(digit_str((n / 0x100) % 16));
    }
    if n >= 0x10 {
        text.append(digit_str((n / 0x10) % 16));
    }
    text.append(digit_str(n % 16));
    proof {
        reveal_with_fuel(hex_digits, 4);
        assert(text@ =~= hex_digits(n as nat));
    }
    text
}

/// `prefix` followed by `n` in capital hexadecimal digits.
pub fn with_upper_hex(prefix: &str, n: u16) -> (text: String)
    ensures
        text@ == prefix@ + hex_digits(n as nat),
{
    let mut text = String::from_str(prefix);
    let digits = upper_hex(n);
    text.append(digits.as_str());
    text
}

} // verus!
