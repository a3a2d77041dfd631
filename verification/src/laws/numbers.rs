//! Numbers in laws.

use vstd::prelude::*;
use crate::decimal::Decimal;
use crate::decimal::{adds_exactly, dec, fits, kept_product_is_exact, kept_sum_is_exact, pow10};
use crate::decimal::{larger, saturating_difference, smaller};

verus! {

/// Whether two decimals are multiplied without rounding.
pub open spec fn multiplies_exactly(a: Decimal, b: Decimal) -> bool {
    a.is_decimal() && b.is_decimal() && a.keeps_product(b)
}

/// Whether the product of two decimals is added to a third without rounding.
pub open spec fn adds_product_exactly(total: Decimal, a: Decimal, b: Decimal) -> bool {
    multiplies_exactly(a, b) && (a.times(b) matches Some(product) ==> adds_exactly(total, product))
}

/// The larger of two numbers.
pub open spec fn max(a: real, b: real) -> real {
    if a < b {
        b
    } else {
        a
    }
}

/// The smaller of two numbers.
pub open spec fn min(a: real, b: real) -> real {
    if b < a {
        b
    } else {
        a
    }
}

/// A decimal with up to four places is its mantissa over a power of ten.
pub proof fn value_of(n: int, places: int)
    requires
        fits(n),
        0 <= places <= 4,
    ensures
        dec(n, places).is_decimal(),
        dec(n, places).mantissa_int() == n,
        places == 0 ==> dec(n, places)@ == n as real,
        places == 1 ==> dec(n, places)@ == n as real / 10real,
        places == 2 ==> dec(n, places)@ == n as real / 100real,
        places == 3 ==> dec(n, places)@ == n as real / 1000real,
        places == 4 ==> dec(n, places)@ == n as real / 10000real,
{
    broadcast use crate::decimal::parts_of_dec;

    assert(pow10(0) == 1 && pow10(1) == 10 && pow10(2) == 100 && pow10(3) == 1000 && pow10(4)
        == 10000) by {
        reveal_with_fuel(pow10, 5);
    }
    if places == 0 {
        crate::decimal::value_of_a_whole_number(dec(n, 0));
    }
}

/// The larger and the smaller of two decimals are one of them each, and have the larger and the smaller
/// value.
pub proof fn the_larger_and_the_smaller(a: Decimal, b: Decimal)
    ensures
        larger(a, b)@ == max(a@, b@),
        smaller(a, b)@ == min(a@, b@),
        larger(a, b) == a || larger(a, b) == b,
        smaller(a, b) == a || smaller(a, b) == b,
{
}

/// A saturating difference is the difference where there is one, and else as large or as small as a
/// decimal can be.
pub proof fn a_saturating_difference_is_bounded(a: Decimal, b: Decimal)
    ensures
        a.minus(b) matches Some(d) ==> saturating_difference(a, b) == d,
        a.minus(b) is None && 0real <= a@ ==> saturating_difference(a, b).mantissa_int()
            == 0xffff_ffff_ffff_ffff_ffff_ffff && saturating_difference(a, b).scale_nat() == 0,
        a.minus(b) is None && a@ < 0real ==> saturating_difference(a, b).mantissa_int()
            == -0xffff_ffff_ffff_ffff_ffff_ffff && saturating_difference(a, b).scale_nat() == 0,
{
    broadcast use {crate::decimal::parts_of_dec, crate::decimal::sign_is_that_of_the_mantissa};

}

/// A product that is added without rounding is added exactly.
pub proof fn products_add_up(total: Decimal, a: Decimal, b: Decimal)
    requires
        adds_product_exactly(total, a, b),
    ensures
        a.times(b) is Some,
        a.times(b)->0.is_decimal(),
        a.times(b)->0@ == a@ * b@,
        total.plus(a.times(b)->0) is Some,
        total.plus(a.times(b)->0)->0.is_decimal(),
        total.plus(a.times(b)->0)->0@ == total@ + a@ * b@,
{
    kept_product_is_exact(a, b);
    kept_sum_is_exact(total, a.times(b)->0);
}

} // verus!
