//! Rendering unsigned numbers as decimal text, proved against a recursive
//! definition of the numeral.

use vstd::prelude::*;

verus! {

/// The decimal digit character for `d`.
pub open spec fn digit_char(d: int) -> char {
    ((48 + d) as u8) as char
}

/// The decimal numeral of `n`, most significant digit first.
pub open spec fn dec_chars(n: int) -> Seq<char>
    decreases n,
{
    if n < 10 {
        seq![digit_char(n)]
    } else {
        dec_chars(n / 10) + seq![digit_char(n % 10)]
    }
}

/// Relies on String::push: appends exactly the given character.
#[verifier::external_body]
pub(crate) fn push_char(s: &mut String, c: char)
    ensures
        final(s)@ == old(s)@.push(c),
{
    s.push(c);
}

/// Appends the digit character for `d`.
pub(crate) fn push_digit(s: &mut String, d: u64)
    requires
        d < 10,
    ensures
        final(s)@ == old(s)@.push(digit_char(d as int)),
{
    let b: u8 = 48 + (d as u8);
    let c: char = b as char;
    proof {
        assert(c == digit_char(d as int));
    }
    push_char(s, c);
}

/// Appends the decimal numeral of `n`.
pub(crate) fn push_dec(s: &mut String, n: u64)
    ensures
        final(s)@ == old(s)@ + dec_chars(n as int),
    decreases n,
{
    if n < 10 {
        push_digit(s, n);
        proof {
            assert(old(s)@.push(digit_char(n as int)) =~= old(s)@ + dec_chars(n as int));
        }
    } else {
        push_dec(s, n / 10);
        push_digit(s, n % 10);
        proof {
            assert((old(s)@ + dec_chars(n as int / 10)).push(digit_char(n as int % 10)) =~= old(
                s,
            )@ + dec_chars(n as int));
        }
    }
}

/// The decimal numeral of `n` as a string.
pub fn dec_string(n: u64) -> (r: String)
    ensures
        r@ == dec_chars(n as int),
{
    let mut s = String::new();
    push_dec(&mut s, n);
    proof {
        assert(Seq::<char>::empty() + dec_chars(n as int) =~= dec_chars(n as int));
    }
    s
}

} // verus!
