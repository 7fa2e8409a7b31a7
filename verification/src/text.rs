//! Rendering numbers and small labels as text.

use vstd::prelude::*;
use crate::crypto::push_char;

verus! {

/// The character of a decimal digit.
pub open spec fn digit_char(d: int) -> char {
    (d + 48) as char
}

/// The decimal rendering of `n`, without sign or leading zeros.
pub open spec fn decimal(n: nat) -> Seq<char>
    decreases n,
{
    if n < 10 {
        seq![digit_char(n as int)]
    } else {
        decimal(n / 10).push(digit_char((n % 10) as int))
    }
}

/// `n` rendered with at least two digits, padded with a leading zero.
pub open spec fn two_digit(n: nat) -> Seq<char> {
    if n < 10 {
        seq!['0'] + decimal(n)
    } else {
        decimal(n)
    }
}

/// The dots that stand in for a hidden key: one per hex character, at most 64.
pub open spec fn mask_of(hex_len: nat) -> Seq<char> {
    Seq::new(if hex_len < 64 { hex_len } else { 64 }, |i: int| '\u{00B7}')
}

/// Appends the decimal rendering of `n` to `s`.
pub fn push_decimal(s: &mut String, n: u128)
    ensures
        final(s)@ == old(s)@ + decimal(n as nat),
    decreases n,
{
    if n >= 10 {
        push_decimal(s, n / 10);
    }
    let d = (n % 10) as u8;
    push_char(s, (d + 48) as char);
    assert(s@ =~= old(s)@ + decimal(n as nat)) by {
        if n >= 10 {
            assert(decimal(n as nat) == decimal((n / 10) as nat).push(digit_char((n % 10) as int)));
        }
    }
}

/// The decimal rendering of `n`.
pub fn decimal_string(n: u64) -> (s: String)
    ensures
        s@ == decimal(n as nat),
{
    let mut s = String::new();
    push_decimal(&mut s, n as u128);
    assert(s@ =~= decimal(n as nat));
    s
}

/// `n` with at least two digits, such as the `01` badge of the first key.
pub fn two_digit_string(n: u128) -> (s: String)
    ensures
        s@ == two_digit(n as nat),
{
    let mut s = String::new();
    if n < 10 {
        push_char(&mut s, '0');
    }
    push_decimal(&mut s, n);
    assert(s@ =~= two_digit(n as nat));
    s
}

/// The mask shown in place of a hidden key of `hex_len` characters.
pub fn mask_string(hex_len: usize) -> (s: String)
    ensures
        s@ == mask_of(hex_len as nat),
{
    let count = if hex_len < 64 {
        hex_len
    } else {
        64
    };
    let mut s = String::new();
    for i in 0..count
        invariant
            s@ == Seq::new(i as nat, |j: int| '\u{00B7}'),
    {
        push_char(&mut s, '\u{00B7}');
        assert(s@ =~= Seq::new((i + 1) as nat, |j: int| '\u{00B7}'));
    }
    assert(s@ =~= mask_of(hex_len as nat));
    s
}

} // verus!
