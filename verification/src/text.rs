//! Decimal digits as text.

use vstd::prelude::*;

verus! {

/// The character of a decimal digit.
pub open spec fn digit_char(n: nat) -> char {
    if n == 0 {
        '0'
    } else if n == 1 {
        '1'
    } else if n == 2 {
        '2'
    } else if n == 3 {
        '3'
    } else if n == 4 {
        '4'
    } else if n == 5 {
        '5'
    } else if n == 6 {
        '6'
    } else if n == 7 {
        '7'
    } else if n == 8 {
        '8'
    } else {
        '9'
    }
}

/// The decimal notation of a natural number, without leading zeros.
pub open spec fn digits_of(n: nat) -> Seq<char>
    decreases n,
{
    if n < 10 {
        seq![digit_char(n)]
    } else {
        digits_of(n / 10).push(digit_char(n % 10))
    }
}

/// The last `width` decimal digits of `n`, with leading zeros.
pub open spec fn padded_digits(n: nat, width: nat) -> Seq<char>
    decreases width,
{
    if width == 0 {
        Seq::empty()
    } else {
        padded_digits(n / 10, (width - 1) as nat).push(digit_char(n % 10))
    }
}

/// The text of a truth value.
pub open spec fn bool_chars(b: bool) -> Seq<char> {
    if b {
        "true"@
    } else {
        "false"@
    }
}

/// `u64::to_string` of std: the decimal notation of the number.
#[verifier::external_body]
pub(crate) fn count_text(n: u64) -> (r: String)
    ensures
        r@ == digits_of(n as nat),
{
    n.to_string()
}

/// Whether a text holds another one.
pub open spec fn contains_part(text: Seq<char>, part: Seq<char>) -> bool {
    exists|i: int|
        0 <= i <= text.len() - part.len() && #[trigger] text.subrange(i, i + part.len()) == part
}

/// The text that std gives for a text in lower case.
pub uninterp spec fn lowercase_of(text: Seq<char>) -> Seq<char>;

/// `str::contains` of std: whether a text holds another one.
#[verifier::external_body]
pub(crate) fn text_contains(text: &str, part: &str) -> (r: bool)
    ensures
        r == contains_part(text@, part@),
{
    text.contains(part)
}

/// `str::to_lowercase` of std: the text in lower case, as Unicode defines it.
#[verifier::external_body]
pub(crate) fn lowercase(text: &str) -> (r: String)
    ensures
        r@ == lowercase_of(text@),
{
    text.to_lowercase()
}

/// Whether two texts are the same.
pub fn same_text(a: &str, b: &str) -> (r: bool)
    ensures
        r == (a@ == b@),
{
    a.to_string().eq(&b.to_string())
}

/// The text of a truth value.
pub fn bool_text(b: bool) -> (r: String)
    ensures
        r@ == bool_chars(b),
{
    if b {
        "true".to_string()
    } else {
        "false".to_string()
    }
}

/// Different numbers have different decimal notations.
pub proof fn digits_tell_numbers_apart(a: nat, b: nat)
    requires
        digits_of(a) == digits_of(b),
    ensures
        a == b,
    decreases a,
{
    digits_are_not_empty(a / 10);
    digits_are_not_empty(b / 10);
    assert(digits_of(a).last() == digit_char(a % 10));
    assert(digits_of(b).last() == digit_char(b % 10));
    assert(a % 10 == b % 10);
    if a >= 10 && b >= 10 {
        assert(digits_of(a).drop_last() =~= digits_of(a / 10));
        assert(digits_of(b).drop_last() =~= digits_of(b / 10));
        digits_tell_numbers_apart(a / 10, b / 10);
    } else if a >= 10 {
        assert(digits_of(a).len() == digits_of(a / 10).len() + 1);
    } else if b >= 10 {
        assert(digits_of(b).len() == digits_of(b / 10).len() + 1);
    }
}

/// A number has at least one digit.
proof fn digits_are_not_empty(n: nat)
    ensures
        digits_of(n).len() > 0,
{
}

} // verus!
