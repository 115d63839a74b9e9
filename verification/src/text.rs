//! Text building blocks: the decimal rendering of integers and the appending
//! of literal pieces to a `String`.

use vstd::prelude::*;
use vstd::string::StrSliceExecFns;
use vstd::string::StringExecFns;

verus! {

/// The ASCII digit for `d` (`d` below ten).
pub open spec fn digit_char(d: nat) -> char {
    ((d + 48) as u32) as char
}

/// Whether `c` is one of the ASCII digits `0` to `9`.
pub open spec fn is_ascii_digit(c: char) -> bool {
    '0' <= c && c <= '9'
}

/// The decimal rendering of `n`, without leading zeros (`0` renders as `"0"`).
pub open spec fn decimal_text(n: nat) -> Seq<char>
    decreases n,
{
    if n < 10 {
        seq![digit_char(n)]
    } else {
        decimal_text(n / 10).push(digit_char(n % 10))
    }
}

/// A decimal rendering is never empty and begins with a digit.
pub proof fn lemma_decimal_text_starts_with_digit(n: nat)
    ensures
        decimal_text(n).len() > 0,
        is_ascii_digit(decimal_text(n)[0]),
    decreases n,
{
    if n >= 10 {
        lemma_decimal_text_starts_with_digit(n / 10);
    }
}

proof fn lemma_digit_literal(d: int)
    requires
        0 <= d < 10,
    ensures
        "0123456789"@[d] == digit_char(d as nat),
{
    reveal_strlit("0123456789");
    if d == 0 {
    } else if d == 1 {
    } else if d == 2 {
    } else if d == 3 {
    } else if d == 4 {
    } else if d == 5 {
    } else if d == 6 {
    } else if d == 7 {
    } else if d == 8 {
    } else {
    }
}

/// Appends the decimal rendering of `n` to `out`.
pub fn push_decimal(out: &mut String, n: u64)
    ensures
        final(out)@ == old(out)@ + decimal_text(n as nat),
    decreases n,
{
    if n >= 10 {
        push_decimal(out, n / 10);
    }
    let d = (n % 10) as usize;
    let digits = "0123456789";
    proof {
        reveal_strlit("0123456789");
        lemma_digit_literal(d as int);
    }
    let piece = digits.substring_char(d, d + 1);
    out.append(piece);
    assert(piece@ =~= seq![digit_char(d as nat)]);
    assert(out@ =~= old(out)@ + decimal_text(n as nat));
}

} // verus!
