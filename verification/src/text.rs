//! Small text-building blocks shared by the status bar, the message bar
//! and the welcome banner: truncation, decimal numerals, and loops that
//! append characters.

use vstd::prelude::*;
use vstd::string::*;

verus! {

/// `s` cut to at most `n` characters: the first `n` of them when `s` is
/// longer, all of `s` otherwise.
pub open spec fn truncated(s: Seq<char>, n: int) -> Seq<char> {
    if n < s.len() {
        s.take(n)
    } else {
        s
    }
}

/// Addition as `usize::saturating_add` computes it.
pub open spec fn sat_add(a: int, b: int) -> int {
    if a + b > usize::MAX {
        usize::MAX as int
    } else {
        a + b
    }
}

/// Subtraction as `saturating_sub` computes it: zero instead of going
/// negative.
pub open spec fn sat_sub(a: int, b: int) -> int {
    if a - b < 0 {
        0
    } else {
        a - b
    }
}

/// The decimal digit `d`, `0` to `9`, as a character.
pub open spec fn digit_char(d: int) -> char {
    if d == 0 {
        '0'
    } else if d == 1 {
        '1'
    } else if d == 2 {
        '2'
    } else if d == 3 {
        '3'
    } else if d == 4 {
        '4'
    } else if d == 5 {
        '5'
    } else if d == 6 {
        '6'
    } else if d == 7 {
        '7'
    } else if d == 8 {
        '8'
    } else {
        '9'
    }
}

/// The decimal numeral of `n`, most significant digit first, without
/// leading zeros (`0` itself is the single digit `0`).
pub open spec fn dec_digits(n: int) -> Seq<char>
    decreases n,
{
    if n < 10 {
        seq![digit_char(n)]
    } else {
        dec_digits(n / 10).push(digit_char(n % 10))
    }
}

/// The character for one decimal digit.
fn digit_char_exec(d: usize) -> (c: char)
    requires
        d < 10,
    ensures
        c == digit_char(d as int),
{
    if d == 0 {
        '0'
    } else if d == 1 {
        '1'
    } else if d == 2 {
        '2'
    } else if d == 3 {
        '3'
    } else if d == 4 {
        '4'
    } else if d == 5 {
        '5'
    } else if d == 6 {
        '6'
    } else if d == 7 {
        '7'
    } else if d == 8 {
        '8'
    } else {
        '9'
    }
}

/// Appends the decimal numeral of `n` to `v`.
pub fn push_usize_decimal(v: &mut Vec<char>, n: usize)
    ensures
        final(v)@ == old(v)@ + dec_digits(n as int),
    decreases n,
{
    if n >= 10 {
        proof {
            assert(n / 10 < n) by (nonlinear_arith)
                requires
                    n >= 10,
            ;
        }
        push_usize_decimal(v, n / 10);
        v.push(digit_char_exec(n % 10));
        proof {
            assert(v@ =~= old(v)@ + dec_digits(n as int));
        }
    } else {
        v.push(digit_char_exec(n));
        proof {
            assert(v@ =~= old(v)@ + dec_digits(n as int));
        }
    }
}

/// Appends every character of the string slice `s` to `v`.
pub fn push_str_chars(v: &mut Vec<char>, s: &str)
    ensures
        final(v)@ == old(v)@ + s@,
{
    let n = s.unicode_len();
    let mut i: usize = 0;
    while i < n
        invariant
            i <= n,
            n == s@.len(),
            v@ == old(v)@ + s@.take(i as int),
        decreases n - i,
    {
        let c = s.get_char(i);
        v.push(c);
        i += 1;
        proof {
            assert(old(v)@ + s@.take(i as int) =~= (old(v)@ + s@.take(i - 1)).push(s@[i - 1]));
        }
    }
    proof {
        assert(old(v)@ + s@.take(n as int) =~= old(v)@ + s@);
    }
}

/// Appends every character of `other` to `v`.
pub fn append_chars(v: &mut Vec<char>, other: &Vec<char>)
    ensures
        final(v)@ == old(v)@ + other@,
{
    let mut i: usize = 0;
    while i < other.len()
        invariant
            i <= other@.len(),
            v@ == old(v)@ + other@.take(i as int),
        decreases other@.len() - i,
    {
        v.push(other[i]);
        i += 1;
        proof {
            assert(old(v)@ + other@.take(i as int) =~= (old(v)@ + other@.take(i - 1)).push(
                other@[i - 1],
            ));
        }
    }
    proof {
        assert(old(v)@ + other@.take(other@.len() as int) =~= old(v)@ + other@);
    }
}

/// Appends `n` spaces to `v`.
pub fn push_spaces(v: &mut Vec<char>, n: usize)
    ensures
        final(v)@ == old(v)@ + crate::row::spaces(n as nat),
{
    let mut i: usize = 0;
    while i < n
        invariant
            i <= n,
            v@ == old(v)@ + crate::row::spaces(i as nat),
        decreases n - i,
    {
        v.push(' ');
        i += 1;
        proof {
            assert(old(v)@ + crate::row::spaces(i as nat) =~= (old(v)@ + crate::row::spaces(
                (i - 1) as nat,
            )).push(' '));
        }
    }
}

/// The characters of a string slice, as a vector.
pub fn str_chars(s: &str) -> (v: Vec<char>)
    ensures
        v@ == s@,
{
    let mut v: Vec<char> = Vec::new();
    push_str_chars(&mut v, s);
    proof {
        assert(v@ =~= s@);
    }
    v
}

} // verus!
