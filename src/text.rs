//! Decimal text of numbers, as std writes it.
use vstd::prelude::*;

verus! {

/// The digit for `d` in 0..10.
pub open spec fn digit_char(d: int) -> char {
    seq!['0', '1', '2', '3', '4', '5', '6', '7', '8', '9'][d]
}

/// Decimal text of `n`, without leading zeros.
pub open spec fn decimal_of(n: nat) -> Seq<char>
    decreases n,
{
    if n < 10 {
        seq![digit_char(n as int)]
    } else {
        decimal_of(n / 10).push(digit_char((n % 10) as int))
    }
}

/// Decimal text of `n`, with a minus sign when it is negative.
pub open spec fn signed_decimal_of(n: int) -> Seq<char> {
    if n < 0 {
        seq!['-'] + decimal_of((-n) as nat)
    } else {
        decimal_of(n as nat)
    }
}

/// Relies on u64's `to_string` (its `Display`): the decimal digits, without
/// leading zeros.
#[verifier::external_body]
pub(crate) fn decimal_text(n: u64) -> (r: String)
    ensures
        r@ == decimal_of(n as nat),
{
    n.to_string()
}

/// Relies on i64's `to_string` (its `Display`): a minus sign when negative,
/// then the decimal digits, without leading zeros.
#[verifier::external_body]
pub(crate) fn signed_decimal_text(n: i64) -> (r: String)
    ensures
        r@ == signed_decimal_of(n as int),
{
    n.to_string()
}

} // verus!
