//! The score line the game draws each frame: both scores in decimal, parted
//! by a fixed ten-space gap. The formatter is verified down to the exact
//! sequence of characters.

use vstd::prelude::*;

verus! {

/// The character for one decimal digit.
pub open spec fn digit_char(d: nat) -> char {
    if d == 0 {
        '0'
    } else if d == 1 {
        '1'
    } else if d == 2 {
        '2'
    } else if d == 3 {
        '3'
    } else if d == 4 {
        '4'
    } else if d == 5 {
        '5'
    } else if d == 6 {
        '6'
    } else if d == 7 {
        '7'
    } else if d == 8 {
        '8'
    } else {
        '9'
    }
}

/// The decimal digits of `n`, most significant first, with no sign and no
/// leading zero (a single zero for `n == 0`).
pub open spec fn dec_digits(n: nat) -> Seq<char>
    decreases n,
{
    if n < 10 {
        seq![digit_char(n)]
    } else {
        dec_digits(n / 10).push(digit_char(n % 10))
    }
}

/// The gap drawn between the two scores.
pub open spec fn score_gap() -> Seq<char> {
    seq![' ', ' ', ' ', ' ', ' ', ' ', ' ', ' ', ' ', ' ']
}

/// The score line: player 1's points, the gap, player 2's points.
pub open spec fn score_line(p1: nat, p2: nat) -> Seq<char> {
    dec_digits(p1) + score_gap() + dec_digits(p2)
}

/// The character for one decimal digit, executably.
pub fn digit_char_exec(d: u16) -> (r: char)
    requires
        d < 10,
    ensures
        r == digit_char(d as nat),
{
    if d == 0 {
        '0'
    } else if d == 1 {
        '1'
    } else if d == 2 {
        '2'
    } else if d == 3 {
        '3'
    } else if d == 4 {
        '4'
    } else if d == 5 {
        '5'
    } else if d == 6 {
        '6'
    } else if d == 7 {
        '7'
    } else if d == 8 {
        '8'
    } else {
        '9'
    }
}

/// Appends the decimal digits of `n` to `out`.
pub fn push_dec_digits(n: u16, out: &mut Vec<char>)
    ensures
        final(out)@ == old(out)@ + dec_digits(n as nat),
    decreases n,
{
    if n >= 10 {
        push_dec_digits(n / 10, out);
    }
    out.push(digit_char_exec(n % 10));
    proof {
        if n < 10 {
            assert(n % 10 == n);
        }
        assert(out@ =~= old(out)@ + dec_digits(n as nat));
    }
}

/// The characters of the score line for the given points.
pub fn score_line_chars(p1: u16, p2: u16) -> (r: Vec<char>)
    ensures
        r@ == score_line(p1 as nat, p2 as nat),
{
    let mut out: Vec<char> = Vec::new();
    push_dec_digits(p1, &mut out);
    proof {
        assert(out@ =~= dec_digits(p1 as nat) + score_gap().take(0));
    }
    let mut gap: usize = 0;
    while gap < 10
        invariant
            gap <= 10,
            out@ == dec_digits(p1 as nat) + score_gap().take(gap as int),
        decreases 10 - gap,
    {
        out.push(' ');
        gap = gap + 1;
        proof {
            assert(score_gap().take(gap as int) =~= score_gap().take(gap as int - 1).push(' '));
        }
    }
    proof {
        assert(score_gap().take(10) =~= score_gap());
    }
    push_dec_digits(p2, &mut out);
    proof {
        assert(out@ =~= score_line(p1 as nat, p2 as nat));
    }
    out
}

} // verus!
