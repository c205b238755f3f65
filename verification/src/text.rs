//! Character-level building blocks shared by the formatter and the swatch
//! renderer: decimal and hexadecimal digit rendering, space padding, field
//! alignment, and the fixed ANSI escape fragments.

use vstd::prelude::*;
use vstd::string::*;

verus! {

/// The two characters that introduce every ANSI escape sequence: ESC `[`.
pub open spec fn code_start_chars() -> Seq<char> {
    seq!['\x1b', '[']
}

/// The bare reset sequence ESC `[m`.
pub open spec fn reset_chars() -> Seq<char> {
    seq!['\x1b', '[', 'm']
}

/// The character for a single digit, in base 10 or 16 (uppercase).
pub open spec fn digit_char(d: nat) -> char {
    if d == 0 { '0' }
    else if d == 1 { '1' }
    else if d == 2 { '2' }
    else if d == 3 { '3' }
    else if d == 4 { '4' }
    else if d == 5 { '5' }
    else if d == 6 { '6' }
    else if d == 7 { '7' }
    else if d == 8 { '8' }
    else if d == 9 { '9' }
    else if d == 10 { 'A' }
    else if d == 11 { 'B' }
    else if d == 12 { 'C' }
    else if d == 13 { 'D' }
    else if d == 14 { 'E' }
    else if d == 15 { 'F' }
    else { '?' }
}

/// Decimal rendering of a natural number, most significant digit first,
/// with no leading zeroes.
pub open spec fn dec_chars(n: nat) -> Seq<char>
    decreases n,
{
    if n < 10 {
        seq![digit_char(n)]
    } else {
        dec_chars(n / 10).push(digit_char(n % 10))
    }
}

/// Two uppercase hexadecimal digits for one byte value.
pub open spec fn hex_byte_chars(n: nat) -> Seq<char> {
    seq![digit_char(n / 16), digit_char(n % 16)]
}

/// `n` space characters.
pub open spec fn spaces(n: nat) -> Seq<char>
    decreases n,
{
    if n == 0 {
        Seq::empty()
    } else {
        spaces((n - 1) as nat).push(' ')
    }
}

/// `s` right-aligned in a field of `width` characters; unchanged when it
/// already fills the field.
pub open spec fn pad_left(s: Seq<char>, width: nat) -> Seq<char> {
    if s.len() >= width {
        s
    } else {
        spaces((width - s.len()) as nat) + s
    }
}

/// `s` centred in a field of `width` characters, the odd spare space going
/// to the right; unchanged when it already fills the field.
pub open spec fn centered(s: Seq<char>, width: nat) -> Seq<char> {
    if s.len() >= width {
        s
    } else {
        let pad = (width - s.len()) as nat;
        spaces(pad / 2) + s + spaces((pad - pad / 2) as nat)
    }
}

/// The one-character string for a single digit, in base 10 or 16.
pub fn digit_str(d: u8) -> (r: &'static str)
    requires
        d < 16,
    ensures
        r@ == seq![digit_char(d as nat)],
{
    match d {
        0 => { proof { reveal_strlit("0"); assert("0"@ =~= seq![digit_char(0)]); } "0" },
        1 => { proof { reveal_strlit("1"); assert("1"@ =~= seq![digit_char(1)]); } "1" },
        2 => { proof { reveal_strlit("2"); assert("2"@ =~= seq![digit_char(2)]); } "2" },
        3 => { proof { reveal_strlit("3"); assert("3"@ =~= seq![digit_char(3)]); } "3" },
        4 => { proof { reveal_strlit("4"); assert("4"@ =~= seq![digit_char(4)]); } "4" },
        5 => { proof { reveal_strlit("5"); assert("5"@ =~= seq![digit_char(5)]); } "5" },
        6 => { proof { reveal_strlit("6"); assert("6"@ =~= seq![digit_char(6)]); } "6" },
        7 => { proof { reveal_strlit("7"); assert("7"@ =~= seq![digit_char(7)]); } "7" },
        8 => { proof { reveal_strlit("8"); assert("8"@ =~= seq![digit_char(8)]); } "8" },
        9 => { proof { reveal_strlit("9"); assert("9"@ =~= seq![digit_char(9)]); } "9" },
        10 => { proof { reveal_strlit("A"); assert("A"@ =~= seq![digit_char(10)]); } "A" },
        11 => { proof { reveal_strlit("B"); assert("B"@ =~= seq![digit_char(11)]); } "B" },
        12 => { proof { reveal_strlit("C"); assert("C"@ =~= seq![digit_char(12)]); } "C" },
        13 => { proof { reveal_strlit("D"); assert("D"@ =~= seq![digit_char(13)]); } "D" },
        14 => { proof { reveal_strlit("E"); assert("E"@ =~= seq![digit_char(14)]); } "E" },
        _ => { proof { reveal_strlit("F"); assert("F"@ =~= seq![digit_char(15)]); } "F" },
    }
}

/// Appends the decimal rendering of `n` to `s`.
pub fn append_dec(s: &mut String, n: u16)
    ensures
        final(s)@ == old(s)@ + dec_chars(n as nat),
    decreases n,
{
    if n >= 10 {
        append_dec(s, n / 10);
        let d = digit_str((n % 10) as u8);
        s.append(d);
        proof {
            assert(s@ =~= old(s)@ + dec_chars(n as nat));
        }
    } else {
        let d = digit_str(n as u8);
        s.append(d);
        proof {
            assert(s@ =~= old(s)@ + dec_chars(n as nat));
        }
    }
}

/// Appends `n` spaces to `s`.
pub fn append_spaces(s: &mut String, n: usize)
    ensures
        final(s)@ == old(s)@ + spaces(n as nat),
{
    proof {
        assert(s@ =~= old(s)@ + spaces(0));
    }
    let mut i: usize = 0;
    while i < n
        invariant
            i <= n,
            s@ == old(s)@ + spaces(i as nat),
        decreases n - i,
    {
        s.append(" ");
        i = i + 1;
        proof {
            reveal_strlit(" ");
            assert(s@ =~= old(s)@ + spaces(i as nat));
        }
    }
}

/// Appends `t` right-aligned in a field of `width` characters.
pub fn append_pad_left(s: &mut String, t: &str, width: usize)
    ensures
        final(s)@ == old(s)@ + pad_left(t@, width as nat),
{
    let len = t.unicode_len();
    if len < width {
        append_spaces(s, width - len);
    }
    s.append(t);
    proof {
        assert(s@ =~= old(s)@ + pad_left(t@, width as nat));
    }
}

/// Appends `t` centred in a field of `width` characters.
pub fn append_centered(s: &mut String, t: &str, width: usize)
    ensures
        final(s)@ == old(s)@ + centered(t@, width as nat),
{
    let len = t.unicode_len();
    if len < width {
        let pad = width - len;
        append_spaces(s, pad / 2);
        s.append(t);
        append_spaces(s, pad - pad / 2);
        proof {
            assert(s@ =~= old(s)@ + centered(t@, width as nat));
        }
    } else {
        s.append(t);
        proof {
            assert(s@ =~= old(s)@ + centered(t@, width as nat));
        }
    }
}

/// Appends the bare reset sequence ESC `[m`.
pub fn append_reset(s: &mut String)
    ensures
        final(s)@ == old(s)@ + reset_chars(),
{
    s.append("\x1b[m");
    proof {
        reveal_strlit("\x1b[m");
        assert(s@ =~= old(s)@ + reset_chars());
    }
}

} // verus!
