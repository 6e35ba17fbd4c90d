//! Rendering integers as decimal text, with the character sequence
//! pinned down exactly by a recursive specification.

use vstd::prelude::*;

verus! {

/// The character for one decimal digit.
pub open spec fn digit_char(d: nat) -> char {
    if d == 0 {
        '0'
    } else if d == 1 {
        '1'
    } else if d == 2 {
        '2'
    } else if d == 3 {
        '3'
    } else if d == 4 {
        '4'
    } else if d == 5 {
        '5'
    } else if d == 6 {
        '6'
    } else if d == 7 {
        '7'
    } else if d == 8 {
        '8'
    } else {
        '9'
    }
}

/// The decimal digits of `n`, most significant first, with no leading
/// zeros except for `n == 0` itself.
pub open spec fn dec_digits(n: nat) -> Seq<char>
    decreases n,
{
    if n < 10 {
        seq![digit_char(n)]
    } else {
        dec_digits(n / 10) + seq![digit_char(n % 10)]
    }
}

/// The decimal rendering of a signed value: a minus sign and then the
/// digits of the magnitude.
pub open spec fn dec_int(x: int) -> Seq<char> {
    if x < 0 {
        seq!['-'] + dec_digits((-x) as nat)
    } else {
        dec_digits(x as nat)
    }
}

/// Appends the single digit `d` to `s`.
fn push_digit(s: &mut String, d: u32)
    requires
        d < 10,
    ensures
        final(s)@ == old(s)@ + seq![digit_char(d as nat)],
{
    proof {
        reveal_strlit("0");
        reveal_strlit("1");
        reveal_strlit("2");
        reveal_strlit("3");
        reveal_strlit("4");
        reveal_strlit("5");
        reveal_strlit("6");
        reveal_strlit("7");
        reveal_strlit("8");
        reveal_strlit("9");
    }
    if d == 0 {
        s.append("0");
    } else if d == 1 {
        s.append("1");
    } else if d == 2 {
        s.append("2");
    } else if d == 3 {
        s.append("3");
    } else if d == 4 {
        s.append("4");
    } else if d == 5 {
        s.append("5");
    } else if d == 6 {
        s.append("6");
    } else if d == 7 {
        s.append("7");
    } else if d == 8 {
        s.append("8");
    } else {
        s.append("9");
    }
    proof {
        assert(final(s)@ =~= old(s)@ + seq![digit_char(d as nat)]);
    }
}

/// Appends the decimal digits of `n` to `s`.
fn push_decimal(s: &mut String, n: u32)
    ensures
        final(s)@ == old(s)@ + dec_digits(n as nat),
    decreases n,
{
    if n < 10 {
        push_digit(s, n);
    } else {
        push_decimal(s, n / 10);
        push_digit(s, n % 10);
        proof {
            assert(final(s)@ =~= old(s)@ + dec_digits(n as nat));
        }
    }
}

/// Renders `n` in decimal.
pub fn u32_to_string(n: u32) -> (s: String)
    ensures
        s@ == dec_digits(n as nat),
{
    let mut s = String::new();
    push_decimal(&mut s, n);
    proof {
        assert(s@ =~= dec_digits(n as nat));
    }
    s
}

/// Renders `x` in decimal, with a leading minus sign when negative.
pub fn i32_to_string(x: i32) -> (s: String)
    ensures
        s@ == dec_int(x as int),
{
    if x >= 0 {
        u32_to_string(x as u32)
    } else {
        proof {
            reveal_strlit("-");
        }
        let mut s = String::from_str("-");
        let magnitude: u32 = (-(x as i64)) as u32;
        assert(magnitude == -(x as int)) by (bit_vector)
            requires
                x < 0,
                magnitude == (-(x as i64)) as u32,
        ;
        push_decimal(&mut s, magnitude);
        proof {
            assert(s@ =~= dec_int(x as int));
        }
        s
    }
}

} // verus!
