//! Disc time of a sector as minutes, seconds and frames.
use vstd::prelude::*;

use crate::layout::SECTORS_PER_SECOND;

verus! {

/// The decimal digit `d`.
pub open spec fn digit(d: nat) -> char {
    if d == 0 {
        '0'
    } else if d == 1 {
        '1'
    } else if d == 2 {
        '2'
    } else if d == 3 {
        '3'
    } else if d == 4 {
        '4'
    } else if d == 5 {
        '5'
    } else if d == 6 {
        '6'
    } else if d == 7 {
        '7'
    } else if d == 8 {
        '8'
    } else {
        '9'
    }
}

/// `n` in decimal, without leading zeros.
pub open spec fn decimal(n: nat) -> Seq<char>
    decreases n,
{
    if n < 10 {
        seq![digit(n)]
    } else {
        decimal(n / 10).push(digit(n % 10))
    }
}

/// `n` in decimal, padded with a zero to at least two digits.
pub open spec fn two_digits(n: nat) -> Seq<char> {
    if n < 10 {
        seq!['0', digit(n)]
    } else {
        decimal(n)
    }
}

/// `MM:SS.FF` for a sector counted at 75 frames per second.
pub open spec fn time_text(sector: nat) -> Seq<char> {
    let frames = sector % 75;
    let seconds = sector / 75;
    two_digits(seconds / 60) + seq![':'] + two_digits(seconds % 60) + seq!['.'] + two_digits(
        frames,
    )
}

fn digit_str(d: usize) -> (r: &'static str)
    requires
        d < 10,
    ensures
        r@ == seq![digit(d as nat)],
{
    proof {
        reveal_strlit("0");
        reveal_strlit("1");
        reveal_strlit("2");
        reveal_strlit("3");
        reveal_strlit("4");
        reveal_strlit("5");
        reveal_strlit("6");
        reveal_strlit("7");
        reveal_strlit("8");
        reveal_strlit("9");
    }
    let r = match d {
        0 => "0",
        1 => "1",
        2 => "2",
        3 => "3",
        4 => "4",
        5 => "5",
        6 => "6",
        7 => "7",
        8 => "8",
        _ => "9",
    };
    assert(r@ =~= seq![digit(d as nat)]);
    r
}

fn push_decimal(s: &mut String, n: usize)
    ensures
        final(s)@ == old(s)@ + decimal(n as nat),
    decreases n,
{
    if n >= 10 {
        push_decimal(s, n / 10);
    }
    s.append(digit_str(n % 10));
    proof {
        if n >= 10 {
            assert(final(s)@ =~= old(s)@ + decimal(n as nat));
        } else {
            assert(final(s)@ =~= old(s)@ + decimal(n as nat));
        }
    }
}

fn push_two_digits(s: &mut String, n: usize)
    ensures
        final(s)@ == old(s)@ + two_digits(n as nat),
{
    if n < 10 {
        proof {
            reveal_strlit("0");
        }
        s.append("0");
    }
    push_decimal(s, n);
    assert(final(s)@ =~= old(s)@ + two_digits(n as nat));
}

/// Formats a program-relative sector as `MM:SS.FF`.
pub fn format_time(sector: usize) -> (r: String)
    ensures
        r@ == time_text(sector as nat),
{
    let frames = sector % SECTORS_PER_SECOND;
    let seconds = sector / SECTORS_PER_SECOND;
    let minutes = seconds / 60;
    let seconds = seconds % 60;
    let mut s = String::new();
    push_two_digits(&mut s, minutes);
    proof {
        reveal_strlit(":");
        reveal_strlit(".");
    }
    s.append(":");
    push_two_digits(&mut s, seconds);
    s.append(".");
    push_two_digits(&mut s, frames);
    assert(s@ =~= time_text(sector as nat));
    s
}

} // verus!
