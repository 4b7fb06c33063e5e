//! Decimal text of unsigned numbers.

use vstd::prelude::*;

verus! {

/// The character of one decimal digit, `'0'` for 0 up to `'9'` for 9.
pub open spec fn digit(d: nat) -> char
    recommends
        d < 10,
{
    (('0' as nat) + d) as char
}

/// The decimal numeral of `n`: most significant digit first, no sign, no
/// leading zero, and the single digit `0` for zero.
pub open spec fn decimal(n: nat) -> Seq<char>
    decreases n,
{
    if n < 10 {
        seq![digit(n)]
    } else {
        decimal(n / 10).push(digit(n % 10))
    }
}

/// Appends the decimal numeral of `n` to `text`.
///
/// Trusted: the body hands `n` to `ufmt`'s `uDisplay::fmt` for `u32`, with
/// `text` as the writer behind a `ufmt::Formatter`. That function fills a
/// buffer from its end with `n % 10`, `n / 10 % 10`, and so on until the
/// quotient is zero, and writes the filled part once; `ufmt`'s writer for
/// `String` appends what it is given and never fails. The contract claims
/// exactly that: `text` grows by `decimal(n)` and is otherwise unchanged.
#[verifier::external_body]
pub(crate) fn append_decimal(text: &mut String, n: u32)
    ensures
        final(text)@ == old(text)@ + decimal(n as nat),
{
    let _ = ufmt::uDisplay::fmt(&n, &mut ufmt::Formatter::new(text));
}

} // verus!
