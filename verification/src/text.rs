//! Text that the settings are built from: lowercase forms and decimal numbers.
use vstd::prelude::*;

verus! {

/// The lowercase form that `str::to_lowercase` gives of a text (Unicode's
/// lowercase mapping, character by character, with its context rules).
pub uninterp spec fn lowercase(text: Seq<char>) -> Seq<char>;

/// Calls `str::to_lowercase`; its result is the lowercase form of `text`.
#[verifier::external_body]
pub(crate) fn to_lowercase(text: &str) -> (r: String)
    ensures
        r@ == lowercase(text@),
{
    text.to_lowercase()
}

/// The character of a decimal digit.
pub open spec fn digit_char(d: nat) -> char
    recommends
        d < 10,
{
    (48 + d) as char
}

/// The decimal digits of a natural number, most significant first, with no
/// leading zero.
pub open spec fn digits(n: nat) -> Seq<char>
    decreases n,
{
    if n < 10 {
        seq![digit_char(n)]
    } else {
        digits(n / 10).push(digit_char(n % 10))
    }
}

/// An integer written in decimal, with a leading `-` when it is negative.
pub open spec fn decimal(v: int) -> Seq<char> {
    if v < 0 {
        seq!['-'] + digits((-v) as nat)
    } else {
        digits(v as nat)
    }
}

/// Calls `i32::to_string` (std's `Display` for `i32`), which writes the number
/// in decimal, with a leading `-` when it is negative.
#[verifier::external_body]
pub(crate) fn i32_to_decimal(v: i32) -> (r: String)
    ensures
        r@ == decimal(v as int),
{
    v.to_string()
}

} // verus!
