//! Decimal numbers of up to 96 bits and 28 decimal places.
//!
//! The arithmetic is that of the `rust_decimal` crate. A result that keeps all its digits is
//! given here in full. A result that must be rounded to fit, or that does not fit at all, is
//! given by name.

use vstd::prelude::*;
use crate::text::{digits_of, padded_digits};

verus! {

/// A decimal number: `mantissa / 10^scale`.
///
/// The mantissa has at most 96 bits and the scale is at most 28. The scale is part of the
/// number: `1.0` and `1.00` are equal, but they are written differently.
#[derive(Clone, Copy, Debug)]
pub struct Decimal {
    mantissa: i128,
    scale: u32,
}

/// No decimal holds the result: it is too large, or it is a quotient by zero.
#[derive(Clone, Copy, Debug, PartialEq, Eq, Structural)]
pub struct ArithmeticError;

/// Ten to the power of `n`.
pub open spec fn pow10(n: nat) -> int
    decreases n,
{
    if n == 0 {
        1
    } else {
        10 * pow10((n - 1) as nat)
    }
}

/// The first mantissa that is too large.
pub open spec fn mantissa_limit() -> int {
    0x1_0000_0000_0000_0000_0000_0000
}

/// The magnitude of an integer.
pub open spec fn magnitude(n: int) -> int {
    if n < 0 {
        -n
    } else {
        n
    }
}

/// Whether a mantissa of 96 bits holds `n`.
pub open spec fn fits(n: int) -> bool {
    magnitude(n) < mantissa_limit()
}

/// The sum that `rust_decimal` gives for two decimals, each given by mantissa and scale.
pub uninterp spec fn decimal_sum(m1: int, s1: int, m2: int, s2: int) -> Option<(int, int)>;

/// The difference that `rust_decimal` gives for two decimals.
pub uninterp spec fn decimal_difference(m1: int, s1: int, m2: int, s2: int) -> Option<(int, int)>;

/// The product that `rust_decimal` gives for two decimals.
pub uninterp spec fn decimal_product(m1: int, s1: int, m2: int, s2: int) -> Option<(int, int)>;

/// The quotient that `rust_decimal` gives for two decimals.
pub uninterp spec fn decimal_quotient(m1: int, s1: int, m2: int, s2: int) -> Option<(int, int)>;

/// The mantissa and scale that `rust_decimal` reads from a text.
pub uninterp spec fn decimal_of_text(text: Seq<char>) -> Option<(int, int)>;

/// The decimal with a given mantissa and scale.
pub closed spec fn dec(mantissa: int, scale: int) -> Decimal {
    Decimal { mantissa: mantissa as i128, scale: scale as u32 }
}

/// The decimal with a given pair of mantissa and scale.
pub open spec fn from_pair(pair: Option<(int, int)>) -> Option<Decimal> {
    match pair {
        Some((mantissa, scale)) => Some(dec(mantissa, scale)),
        None => None,
    }
}

impl View for Decimal {
    type V = real;

    /// The number itself.
    open spec fn view(&self) -> real {
        (self.mantissa_int() as real) / (pow10(self.scale_nat()) as real)
    }
}

impl Decimal {
    #[verifier::type_invariant]
    spec fn in_range(self) -> bool {
        fits(self.mantissa as int) && self.scale <= 28
    }

    /// The mantissa.
    pub closed spec fn mantissa_int(self) -> int {
        self.mantissa as int
    }

    /// The number of decimal places.
    pub closed spec fn scale_nat(self) -> nat {
        self.scale as nat
    }

    /// Whether the mantissa and the scale are in range, as they are for every number that a
    /// program holds.
    pub open spec fn is_decimal(self) -> bool {
        fits(self.mantissa_int()) && self.scale_nat() <= 28
    }

    /// The mantissa that the number has when written with `scale` places.
    pub open spec fn at_scale(self, scale: nat) -> int {
        self.mantissa_int() * pow10((scale - self.scale_nat()) as nat)
    }

    /// The larger of the two numbers of decimal places.
    pub open spec fn common_scale(self, other: Decimal) -> nat {
        if self.scale_nat() < other.scale_nat() {
            other.scale_nat()
        } else {
            self.scale_nat()
        }
    }

    /// Whether adding two numbers that give the mantissa `result` at their common scale keeps
    /// all digits.
    pub open spec fn keeps_sum(self, other: Decimal, result: int) -> bool {
        let scale = self.common_scale(other);
        ||| self.mantissa_int() == 0
        ||| other.mantissa_int() == 0
        ||| fits(self.at_scale(scale)) && fits(other.at_scale(scale)) && fits(result)
    }

    /// The mantissa of the sum at the common scale.
    pub open spec fn sum_mantissa(self, other: Decimal) -> int {
        self.at_scale(self.common_scale(other)) + other.at_scale(self.common_scale(other))
    }

    /// The mantissa of the difference at the common scale.
    pub open spec fn difference_mantissa(self, other: Decimal) -> int {
        self.at_scale(self.common_scale(other)) - other.at_scale(self.common_scale(other))
    }

    /// The mantissa of the product at the sum of the scales.
    pub open spec fn product_mantissa(self, other: Decimal) -> int {
        self.mantissa_int() * other.mantissa_int()
    }

    /// Whether the product keeps all digits.
    pub open spec fn keeps_product(self, other: Decimal) -> bool {
        ||| self.mantissa_int() == 0
        ||| other.mantissa_int() == 0
        ||| self.scale_nat() + other.scale_nat() <= 28 && fits(self.product_mantissa(other))
    }

    /// Whether the quotient of the mantissas is a whole number and needs no rescaling.
    pub open spec fn divides_evenly(self, other: Decimal) -> bool {
        ||| other.mantissa_int() == 0
        ||| self.mantissa_int() == 0
        ||| self.scale_nat() >= other.scale_nat() && self.mantissa_int() % other.mantissa_int()
            == 0
    }

    /// The sum.
    pub open spec fn plus(self, other: Decimal) -> Option<Decimal> {
        if !self.keeps_sum(other, self.sum_mantissa(other)) {
            from_pair(
                decimal_sum(
                    self.mantissa_int(),
                    self.scale_nat() as int,
                    other.mantissa_int(),
                    other.scale_nat() as int,
                ),
            )
        } else if self.mantissa_int() == 0 {
            Some(other)
        } else if other.mantissa_int() == 0 {
            Some(self)
        } else {
            Some(dec(self.sum_mantissa(other), self.common_scale(other) as int))
        }
    }

    /// The difference.
    pub open spec fn minus(self, other: Decimal) -> Option<Decimal> {
        if !self.keeps_sum(other, self.difference_mantissa(other)) {
            from_pair(
                decimal_difference(
                    self.mantissa_int(),
                    self.scale_nat() as int,
                    other.mantissa_int(),
                    other.scale_nat() as int,
                ),
            )
        } else if self.mantissa_int() == 0 {
            Some(other.negated())
        } else if other.mantissa_int() == 0 {
            Some(self)
        } else {
            Some(dec(self.difference_mantissa(other), self.common_scale(other) as int))
        }
    }

    /// The product.
    pub open spec fn times(self, other: Decimal) -> Option<Decimal> {
        if !self.keeps_product(other) {
            from_pair(
                decimal_product(
                    self.mantissa_int(),
                    self.scale_nat() as int,
                    other.mantissa_int(),
                    other.scale_nat() as int,
                ),
            )
        } else if self.mantissa_int() == 0 || other.mantissa_int() == 0 {
            Some(dec(0, 0))
        } else {
            Some(
                dec(
                    self.product_mantissa(other),
                    (self.scale_nat() + other.scale_nat()) as int,
                ),
            )
        }
    }

    /// The quotient.
    pub open spec fn over(self, other: Decimal) -> Option<Decimal> {
        if !self.divides_evenly(other) {
            from_pair(
                decimal_quotient(
                    self.mantissa_int(),
                    self.scale_nat() as int,
                    other.mantissa_int(),
                    other.scale_nat() as int,
                ),
            )
        } else if other.mantissa_int() == 0 {
            None
        } else if self.mantissa_int() == 0 {
            Some(dec(0, 0))
        } else {
            Some(
                dec(
                    self.mantissa_int() / other.mantissa_int(),
                    self.scale_nat() - other.scale_nat(),
                ),
            )
        }
    }

    /// The number with the opposite sign.
    pub open spec fn negated(self) -> Decimal {
        dec(-self.mantissa_int(), self.scale_nat() as int)
    }

    /// The number written with `places` decimal places. Further places are cut off.
    pub open spec fn fixed_chars(self, places: nat) -> Seq<char> {
        let size = magnitude(self.mantissa_int());
        let unit = pow10(self.scale_nat());
        let sign = if self.mantissa_int() < 0 {
            "-"@
        } else {
            ""@
        };
        let whole = digits_of((size / unit) as nat);
        let fraction = padded_digits(((size % unit) * pow10(places) / unit) as nat, places);
        if places == 0 {
            sign + whole
        } else {
            sign + whole + "."@ + fraction
        }
    }

    /// Whether the whole part has at most 27 digits, so that four decimal places can be written.
    pub open spec fn is_printable(self) -> bool {
        -1_000_000_000_000_000_000_000_000_000real < self@
            < 1_000_000_000_000_000_000_000_000_000real
    }

    /// The number written with its own decimal places.
    pub open spec fn chars(self) -> Seq<char> {
        self.fixed_chars(self.scale_nat())
    }
}

/// The sum of two numbers that may be missing.
pub open spec fn sum_of(a: Option<Decimal>, b: Option<Decimal>) -> Option<Decimal> {
    match (a, b) {
        (Some(x), Some(y)) => x.plus(y),
        _ => None,
    }
}

/// The difference of two numbers that may be missing.
pub open spec fn difference_of(a: Option<Decimal>, b: Option<Decimal>) -> Option<Decimal> {
    match (a, b) {
        (Some(x), Some(y)) => x.minus(y),
        _ => None,
    }
}

/// The product of two numbers that may be missing.
pub open spec fn product_of(a: Option<Decimal>, b: Option<Decimal>) -> Option<Decimal> {
    match (a, b) {
        (Some(x), Some(y)) => x.times(y),
        _ => None,
    }
}

/// The quotient of two numbers that may be missing.
pub open spec fn quotient_of(a: Option<Decimal>, b: Option<Decimal>) -> Option<Decimal> {
    match (a, b) {
        (Some(x), Some(y)) => x.over(y),
        _ => None,
    }
}

/// The difference, or the largest or smallest decimal if there is no decimal for it.
pub open spec fn saturating_difference(a: Decimal, b: Decimal) -> Decimal {
    match a.minus(b) {
        Some(d) => d,
        None => if a.mantissa_int() >= 0 {
            dec(mantissa_limit() - 1, 0)
        } else {
            dec(1 - mantissa_limit(), 0)
        },
    }
}

/// The larger of two numbers; the first if they are equal.
pub open spec fn larger(a: Decimal, b: Decimal) -> Decimal {
    if a@ < b@ {
        b
    } else {
        a
    }
}

/// The smaller of two numbers; the first if they are equal.
pub open spec fn smaller(a: Decimal, b: Decimal) -> Decimal {
    if b@ < a@ {
        b
    } else {
        a
    }
}

/// Whether two decimals are added without rounding.
pub open spec fn adds_exactly(a: Decimal, b: Decimal) -> bool {
    a.is_decimal() && b.is_decimal() && a.keeps_sum(b, a.sum_mantissa(b))
}

/// Whether two decimals are subtracted without rounding.
pub open spec fn subtracts_exactly(a: Decimal, b: Decimal) -> bool {
    a.is_decimal() && b.is_decimal() && a.keeps_sum(b, a.difference_mantissa(b))
}

/// Whether a number has a magnitude below 2^95, so that a decimal holds it once it is rounded.
pub open spec fn has_room(x: real) -> bool {
    -39_614_081_257_132_168_796_771_975_168real < x
        < 39_614_081_257_132_168_796_771_975_168real
}

/// How many units of the last decimal place, the 28th, are in one.
pub open spec fn units_in_one() -> real {
    10_000_000_000_000_000_000_000_000_000real
}

/// Whether a number is within 10^-28 of another, or within that part of it if it is larger than
/// one.
pub open spec fn is_close(d: real, x: real) -> bool {
    let most = if x < -1real {
        -x
    } else if x > 1real {
        x
    } else {
        1real
    };
    -most <= (d - x) * units_in_one() <= most
}

/// Whether a number is at most of a given magnitude.
pub open spec fn is_within(x: real, most: real) -> bool {
    -most <= x <= most
}

/// Whether a decimal is what a number is rounded to: it is close to the number, and no decimal lies
/// between the two.
#[verifier::opaque]
pub open spec fn is_rounded(d: Decimal, x: real) -> bool {
    &&& d.is_decimal()
    &&& is_close(d@, x)
    &&& forall|q: Decimal| #[trigger]
        q.is_decimal() ==> (q@ <= x ==> q@ <= d@) && (x <= q@ ==> d@ <= q@)
}

/// A rounded number is a decimal, and close to the number.
pub proof fn rounding_is_close(d: Decimal, x: real)
    requires
        is_rounded(d, x),
    ensures
        d.is_decimal(),
        is_close(d@, x),
{
    reveal(is_rounded);
}

/// A number that is not above a decimal is not rounded to one above it, and one that is not below
/// it not to one below it.
pub proof fn rounding_passes_no_decimal(d: Decimal, x: real, q: Decimal)
    requires
        is_rounded(d, x),
        q.is_decimal(),
    ensures
        q@ <= x ==> q@ <= d@,
        x <= q@ ==> d@ <= q@,
{
    reveal(is_rounded);
}

/// A number of a given magnitude is rounded with an error of at most 10^-28 of that magnitude.
pub proof fn rounding_errors_are_small(d: Decimal, x: real, most: real)
    requires
        is_rounded(d, x),
        -most <= x <= most,
        1real <= most,
    ensures
        -most <= (d@ - x) * units_in_one() <= most,
        -2real * most <= d@ <= 2real * most,
{
    reveal(is_rounded);
}

/// A power of ten is positive.
pub proof fn pow10_is_positive(n: nat)
    ensures
        0 < pow10(n),
    decreases n,
{
    if n > 0 {
        pow10_is_positive((n - 1) as nat);
    }
}

/// A decimal without places is its mantissa.
pub proof fn value_of_a_whole_number(d: Decimal)
    requires
        d.scale_nat() == 0,
    ensures
        d@ == d.mantissa_int() as real,
{
    let m = d.mantissa_int() as real;
    assert(pow10(0) as real == 1real);
    assert(m / 1real == m) by (nonlinear_arith);
}

/// A decimal is below, at or above zero as its mantissa is.
pub broadcast proof fn sign_is_that_of_the_mantissa(d: Decimal)
    ensures
        #![trigger d@]
        0real <= d@ <==> 0 <= d.mantissa_int(),
        0real < d@ <==> 0 < d.mantissa_int(),
{
    pow10_is_positive(d.scale_nat());
    let m = d.mantissa_int() as real;
    let p = pow10(d.scale_nat()) as real;
    assert(m / p * p == m) by (nonlinear_arith)
        requires
            p > 0real,
    ;
    assert((0real <= m / p <==> 0real <= m) && (0real < m / p <==> 0real < m)) by (nonlinear_arith)
        requires
            p > 0real,
            m / p * p == m,
    ;
}

/// The product of two powers of ten is a power of ten.
pub proof fn powers_of_ten_multiply(m: nat, n: nat)
    ensures
        pow10(m) * pow10(n) == pow10(m + n),
    decreases m,
{
    if m > 0 {
        powers_of_ten_multiply((m - 1) as nat, n);
        let k = pow10((m - 1) as nat);
        let p = pow10(n);
        assert((10 * k) * p == 10 * (k * p)) by (nonlinear_arith);
    }
}

/// Writing a decimal with more places does not change the number.
proof fn value_at_a_scale(d: Decimal, scale: nat)
    requires
        d.scale_nat() <= scale,
    ensures
        d@ * (pow10(scale) as real) == d.at_scale(scale) as real,
{
    let more = (scale - d.scale_nat()) as nat;
    pow10_is_positive(d.scale_nat());
    powers_of_ten_multiply(d.scale_nat(), more);
    let m = d.mantissa_int();
    let p = pow10(d.scale_nat());
    let q = pow10(more);
    assert((p * q) as real == (p as real) * (q as real)) by (nonlinear_arith);
    assert((m * q) as real == (m as real) * (q as real)) by (nonlinear_arith);
    let (mr, pr, qr) = (m as real, p as real, q as real);
    assert(mr / pr * (pr * qr) == mr * qr) by (nonlinear_arith)
        requires
            pr > 0real,
    ;
}

/// A sum that keeps all its digits is exact.
pub proof fn kept_sum_is_exact(a: Decimal, b: Decimal)
    requires
        a.is_decimal(),
        b.is_decimal(),
        a.keeps_sum(b, a.sum_mantissa(b)),
    ensures
        a.plus(b) is Some,
        a.plus(b)->0.is_decimal(),
        a.plus(b)->0@ == a@ + b@,
{
    broadcast use {sign_is_that_of_the_mantissa, parts_of_dec};

    if a.mantissa_int() != 0 && b.mantissa_int() != 0 {
        let scale = a.common_scale(b);
        value_at_a_scale(a, scale);
        value_at_a_scale(b, scale);
        let s = dec(a.sum_mantissa(b), scale as int);
        value_at_a_scale(s, scale);
        pow10_is_positive(scale);
        assert(s.at_scale(scale) == s.mantissa_int() * pow10(0));
        let (x, y, z, p) = (a@, b@, s@, pow10(scale) as real);
        assert(z == x + y) by (nonlinear_arith)
            requires
                z * p == x * p + y * p,
                p > 0real,
        ;
    }
}

/// A difference that keeps all its digits is exact.
pub proof fn kept_difference_is_exact(a: Decimal, b: Decimal)
    requires
        a.is_decimal(),
        b.is_decimal(),
        a.keeps_sum(b, a.difference_mantissa(b)),
    ensures
        a.minus(b) is Some,
        a.minus(b)->0.is_decimal(),
        a.minus(b)->0@ == a@ - b@,
{
    broadcast use {sign_is_that_of_the_mantissa, parts_of_dec};

    if b.mantissa_int() == 0 {
    } else if a.mantissa_int() == 0 {
        let m = b.mantissa_int() as real;
        let p = pow10(b.scale_nat()) as real;
        pow10_is_positive(b.scale_nat());
        assert((-m) / p == -(m / p)) by (nonlinear_arith)
            requires
                p > 0real,
        ;
    } else {
        let scale = a.common_scale(b);
        value_at_a_scale(a, scale);
        value_at_a_scale(b, scale);
        let s = dec(a.difference_mantissa(b), scale as int);
        value_at_a_scale(s, scale);
        pow10_is_positive(scale);
        assert(s.at_scale(scale) == s.mantissa_int() * pow10(0));
        let (x, y, z, p) = (a@, b@, s@, pow10(scale) as real);
        assert(z == x - y) by (nonlinear_arith)
            requires
                z * p == x * p - y * p,
                p > 0real,
        ;
    }
}

/// A product that keeps all its digits is exact.
pub proof fn kept_product_is_exact(a: Decimal, b: Decimal)
    requires
        a.keeps_product(b),
    ensures
        a.times(b) is Some,
        a.times(b)->0.is_decimal(),
        a.times(b)->0@ == a@ * b@,
{
    broadcast use {sign_is_that_of_the_mantissa, parts_of_dec};

    let (x, y) = (a@, b@);
    if a.mantissa_int() == 0 {
        assert(x * y == 0real) by (nonlinear_arith)
            requires
                x == 0real,
        ;
    } else if b.mantissa_int() == 0 {
        assert(x * y == 0real) by (nonlinear_arith)
            requires
                y == 0real,
        ;
    } else {
        pow10_is_positive(a.scale_nat());
        pow10_is_positive(b.scale_nat());
        powers_of_ten_multiply(a.scale_nat(), b.scale_nat());
        let (m, n) = (a.mantissa_int(), b.mantissa_int());
        let (p, q) = (pow10(a.scale_nat()), pow10(b.scale_nat()));
        assert((p * q) as real == (p as real) * (q as real)) by (nonlinear_arith);
        assert((m * n) as real == (m as real) * (n as real)) by (nonlinear_arith);
        let (mr, nr, pr, qr) = (m as real, n as real, p as real, q as real);
        assert((mr * nr) / (pr * qr) == (mr / pr) * (nr / qr)) by (nonlinear_arith)
            requires
                pr > 0real,
                qr > 0real,
        ;
    }
}

/// The opposite of a number is the number with the other sign.
pub proof fn opposites_differ_by_the_sign(d: Decimal)
    requires
        d.is_decimal(),
    ensures
        d.negated().is_decimal(),
        d.negated()@ == -d@,
{
    broadcast use parts_of_dec;

    let m = d.mantissa_int() as real;
    let p = pow10(d.scale_nat()) as real;
    pow10_is_positive(d.scale_nat());
    assert((-m) / p == -(m / p)) by (nonlinear_arith)
        requires
            p > 0real,
    ;
}

/// What was subtracted without rounding is added again without rounding.
pub proof fn an_exact_difference_is_undone(a: Decimal, b: Decimal)
    requires
        subtracts_exactly(a, b),
    ensures
        a.minus(b) is Some,
        adds_exactly(a.minus(b)->0, b),
{
    broadcast use parts_of_dec;

    kept_difference_is_exact(a, b);
    let d = a.minus(b)->0;
    if b.mantissa_int() == 0 {
    } else if a.mantissa_int() == 0 {
        assert(d.at_scale(b.scale_nat()) == -b.mantissa_int() * pow10(0));
        assert(b.at_scale(b.scale_nat()) == b.mantissa_int() * pow10(0));
    } else {
        let scale = a.common_scale(b);
        assert(d.at_scale(scale) == a.difference_mantissa(b) * pow10(0));
    }
}

/// What was added without rounding is subtracted again without rounding.
pub proof fn an_exact_sum_is_undone(a: Decimal, b: Decimal)
    requires
        adds_exactly(a, b),
    ensures
        a.plus(b) is Some,
        subtracts_exactly(a.plus(b)->0, b),
{
    broadcast use parts_of_dec;

    kept_sum_is_exact(a, b);
    let s = a.plus(b)->0;
    if b.mantissa_int() == 0 {
    } else if a.mantissa_int() == 0 {
        assert(b.at_scale(b.scale_nat()) == b.mantissa_int() * pow10(0));
    } else {
        let scale = a.common_scale(b);
        assert(s.at_scale(scale) == a.sum_mantissa(b) * pow10(0));
    }
}

/// A number less itself is zero.
pub proof fn nothing_is_left_of_a_whole(d: Decimal)
    requires
        d.is_decimal(),
    ensures
        d.minus(d) matches Some(left) && left.is_decimal() && left.mantissa_int() == 0 && left@
            == 0real,
{
    broadcast use {parts_of_dec, sign_is_that_of_the_mantissa};

    assert(d.at_scale(d.scale_nat()) == d.mantissa_int() * pow10(0));
}

/// Two numbers can be subtracted from each other without rounding both ways or neither way.
pub proof fn exact_differences_are_symmetric(a: Decimal, b: Decimal)
    requires
        subtracts_exactly(a, b),
    ensures
        subtracts_exactly(b, a),
{
}

/// What an exact difference leaves of the first number is the second one.
pub proof fn an_exact_difference_leaves_the_rest(a: Decimal, b: Decimal)
    requires
        subtracts_exactly(a, b),
        0real <= b@ <= a@,
    ensures
        a.minus(b) is Some,
        a.minus(a.minus(b)->0) matches Some(rest) && rest.is_decimal() && rest@ == b@,
{
    broadcast use {parts_of_dec, sign_is_that_of_the_mantissa};

    kept_difference_is_exact(a, b);
    let d = a.minus(b)->0;
    if a.mantissa_int() == 0 || b.mantissa_int() == 0 {
        nothing_is_left_of_a_whole(a);
    } else {
        let scale = a.common_scale(b);
        assert(d.at_scale(scale) == a.difference_mantissa(b) * pow10(0));
    }
    kept_difference_is_exact(a, d);
}

/// A power of ten that a decimal can have as unit is far from the first mantissa that is too large.
proof fn powers_of_ten_fit(n: nat)
    requires
        n <= 28,
    ensures
        2 * pow10(n) < mantissa_limit(),
{
    reveal_with_fuel(pow10, 29);
}

/// Numbers between minus one and one are added and subtracted without rounding.
pub proof fn small_numbers_are_exact(a: Decimal, b: Decimal)
    requires
        a.is_decimal(),
        b.is_decimal(),
        -1real <= a@ <= 1real,
        -1real <= b@ <= 1real,
    ensures
        adds_exactly(a, b),
        subtracts_exactly(a, b),
        a.plus(b) is Some,
        a.plus(b)->0.is_decimal(),
        a.plus(b)->0@ == a@ + b@,
        a.minus(b) is Some,
        a.minus(b)->0.is_decimal(),
        a.minus(b)->0@ == a@ - b@,
{
    let scale = a.common_scale(b);
    value_at_a_scale(a, scale);
    value_at_a_scale(b, scale);
    pow10_is_positive(scale);
    powers_of_ten_fit(scale);
    let (x, y, p) = (a@, b@, pow10(scale) as real);
    assert(-p <= x * p <= p && -p <= y * p <= p) by (nonlinear_arith)
        requires
            p > 0real,
            -1real <= x <= 1real,
            -1real <= y <= 1real,
    ;
    kept_sum_is_exact(a, b);
    kept_difference_is_exact(a, b);
}

/// The mantissa and the scale of a decimal given by both.
pub broadcast proof fn parts_of_dec(mantissa: int, scale: int)
    requires
        fits(mantissa),
        0 <= scale <= 28,
    ensures
        #![trigger dec(mantissa, scale)]
        dec(mantissa, scale).mantissa_int() == mantissa,
        dec(mantissa, scale).scale_nat() == scale,
{
}

impl Decimal {
    /// The number `num / 10^scale`.
    pub fn new(num: i64, scale: u32) -> (r: Decimal)
        requires
            scale <= 28,
        ensures
            r == dec(num as int, scale as int),
            r.mantissa_int() == num,
            r.scale_nat() == scale,
    {
        Decimal { mantissa: num as i128, scale }
    }

    /// The number with a given mantissa and scale, if they are in range.
    pub fn from_parts(mantissa: i128, scale: u32) -> (r: Option<Decimal>)
        ensures
            r is Some <==> fits(mantissa as int) && scale <= 28,
            r matches Some(d) ==> d == dec(mantissa as int, scale as int) && d.mantissa_int()
                == mantissa && d.scale_nat() == scale,
    {
        let limit: i128 = 0x1_0000_0000_0000_0000_0000_0000;
        if -limit < mantissa && mantissa < limit && scale <= 28 {
            Some(Decimal { mantissa, scale })
        } else {
            None
        }
    }

    /// A whole number.
    pub fn whole(n: i64) -> (r: Decimal)
        ensures
            r == dec(n as int, 0),
            r@ == n as real,
            r.mantissa_int() == n,
            r.scale_nat() == 0,
    {
        let r = Decimal { mantissa: n as i128, scale: 0 };
        proof {
            value_of_a_whole_number(r);
        }
        r
    }

    /// A whole number that is not negative.
    pub fn from_count(count: u64) -> (r: Decimal)
        ensures
            r == dec(count as int, 0),
            r.mantissa_int() == count,
            r.scale_nat() == 0,
    {
        Decimal { mantissa: count as i128, scale: 0 }
    }

    /// The number with the opposite sign.
    pub fn opposite(self) -> (r: Decimal)
        ensures
            r == self.negated(),
    {
        proof {
            use_type_invariant(&self);
        }
        Decimal { mantissa: -self.mantissa, scale: self.scale }
    }

    /// Whether the number is zero.
    pub fn is_zero(&self) -> (r: bool)
        ensures
            r == (self.mantissa_int() == 0),
    {
        self.mantissa == 0
    }

    /// The larger of two numbers; the first if they are equal.
    pub fn max(self, other: Decimal) -> (r: Decimal)
        ensures
            r == larger(self, other),
    {
        if self < other {
            other
        } else {
            self
        }
    }

    /// The smaller of two numbers; the first if they are equal.
    pub fn min(self, other: Decimal) -> (r: Decimal)
        ensures
            r == smaller(self, other),
    {
        if self > other {
            other
        } else {
            self
        }
    }

    /// The mantissa.
    pub fn mantissa(&self) -> (r: i128)
        ensures
            r == self.mantissa_int(),
            fits(r as int),
    {
        proof {
            use_type_invariant(self);
        }
        self.mantissa
    }

    /// The number of decimal places.
    pub fn scale(&self) -> (r: u32)
        ensures
            r == self.scale_nat(),
            r <= 28,
    {
        proof {
            use_type_invariant(self);
        }
        self.scale
    }
}

/// Whether `c` is a decimal and at most `b`, and is such that `a + c` is held wherever `a + b` is.
pub open spec fn lies_within_room(c: Decimal, a: Decimal, b: Decimal) -> bool {
    c.is_decimal() && c@ <= b@ && (0real <= c@ || has_room(a@ + c@))
}

/// Whether `q` is a decimal and exactly the quotient of `a` and `b`.
pub open spec fn is_quotient(q: Decimal, a: Decimal, b: Decimal) -> bool {
    q.is_decimal() && q@ * b@ == a@
}

impl Decimal {
    /// `Decimal::checked_add` of `rust_decimal`. With a zero operand the sum is the other
    /// operand. A sum that fits at the larger scale is exact and has that scale. Any other sum
    /// is rounded to fewer places, and is missing if it does not fit without any, which it always
    /// does below 2^95. It is rounded to the nearest number of the last place that is kept, so that
    /// the error is below 10^-28, or below that part of the sum, and no decimal is passed. Adding
    /// what is not negative gives no smaller number, and what is not positive no larger one. A
    /// smaller second operand gives no larger sum.
    #[verifier::external_body]
    pub(crate) fn checked_add(self, other: Decimal) -> (r: Result<Decimal, ArithmeticError>)
        ensures
            r.ok() == self.plus(other),
            !self.keeps_sum(other, self.sum_mantissa(other)) ==> r.ok() == from_pair(
                decimal_sum(
                    self.mantissa_int(),
                    self.scale_nat() as int,
                    other.mantissa_int(),
                    other.scale_nat() as int,
                ),
            ),
            has_room(self@ + other@) ==> r is Ok,
            r matches Ok(d) ==> self.is_decimal() && other.is_decimal() && is_rounded(
                d,
                self@ + other@,
            ),
            r matches Ok(d) ==> forall|c: Decimal| #[trigger]
                lies_within_room(c, self, other) ==> (self.plus(c) matches Some(s) && s@ <= d@),
            r matches Ok(d) ==> (0real <= other@ ==> self@ <= d@),
            r matches Ok(d) ==> (other@ <= 0real ==> d@ <= self@),
    {
        let a = rust_decimal::Decimal::from_i128_with_scale(self.mantissa, self.scale);
        let b = rust_decimal::Decimal::from_i128_with_scale(other.mantissa, other.scale);
        match a.checked_add(b) {
            Some(d) => Ok(Decimal { mantissa: d.mantissa(), scale: d.scale() }),
            None => Err(ArithmeticError),
        }
    }

    /// `Decimal::checked_sub` of `rust_decimal`. With a zero operand the difference is the first
    /// operand, or the second with the opposite sign. A difference that fits at the larger scale
    /// is exact and has that scale. Any other difference is rounded to fewer places, and is
    /// missing if it does not fit without any, which it always does below 2^95. It is rounded as a
    /// sum is. Rounding never changes the sign of a difference, and taking away what is not
    /// negative gives no larger number.
    #[verifier::external_body]
    pub(crate) fn checked_sub(self, other: Decimal) -> (r: Result<Decimal, ArithmeticError>)
        ensures
            r.ok() == self.minus(other),
            !self.keeps_sum(other, self.difference_mantissa(other)) ==> r.ok() == from_pair(
                decimal_difference(
                    self.mantissa_int(),
                    self.scale_nat() as int,
                    other.mantissa_int(),
                    other.scale_nat() as int,
                ),
            ),
            has_room(self@ - other@) ==> r is Ok,
            r matches Ok(d) ==> self.is_decimal() && other.is_decimal() && is_rounded(
                d,
                self@ - other@,
            ),
            r matches Ok(d) ==> (0real <= d@ <==> other@ <= self@),
            r matches Ok(d) ==> (0real < d@ <==> other@ < self@),
            r matches Ok(d) ==> (0real <= other@ ==> d@ <= self@),
    {
        let a = rust_decimal::Decimal::from_i128_with_scale(self.mantissa, self.scale);
        let b = rust_decimal::Decimal::from_i128_with_scale(other.mantissa, other.scale);
        match a.checked_sub(b) {
            Some(d) => Ok(Decimal { mantissa: d.mantissa(), scale: d.scale() }),
            None => Err(ArithmeticError),
        }
    }

    /// `Decimal::checked_mul` of `rust_decimal`. A zero operand gives the zero without decimal
    /// places. A product that fits at the sum of the scales is exact and has that scale. Any
    /// other product is rounded to fewer places, and is missing if it does not fit without any,
    /// which it always does below 2^95. It is rounded as a sum is. The product of numbers that are
    /// not negative is not negative.
    #[verifier::external_body]
    pub(crate) fn checked_mul(self, other: Decimal) -> (r: Result<Decimal, ArithmeticError>)
        ensures
            r.ok() == self.times(other),
            !self.keeps_product(other) ==> r.ok() == from_pair(
                decimal_product(
                    self.mantissa_int(),
                    self.scale_nat() as int,
                    other.mantissa_int(),
                    other.scale_nat() as int,
                ),
            ),
            has_room(self@ * other@) ==> r is Ok,
            r matches Ok(d) ==> self.is_decimal() && other.is_decimal() && is_rounded(
                d,
                self@ * other@,
            ),
            r matches Ok(d) ==> (0real <= self@ && 0real <= other@ ==> 0real <= d@),
    {
        let a = rust_decimal::Decimal::from_i128_with_scale(self.mantissa, self.scale);
        let b = rust_decimal::Decimal::from_i128_with_scale(other.mantissa, other.scale);
        match a.checked_mul(b) {
            Some(d) => Ok(Decimal { mantissa: d.mantissa(), scale: d.scale() }),
            None => Err(ArithmeticError),
        }
    }

    /// `Decimal::checked_div` of `rust_decimal`. There is no quotient by zero, and zero gives the
    /// zero without decimal places. Where the mantissas divide without remainder and the scale
    /// of the dividend is not the smaller one, the quotient is that of the mantissas. A quotient
    /// that some decimal holds exactly is exact, and any quotient below 2^95 by a number other than
    /// zero is there. It is rounded as a sum is, to 28 places at most. The quotient of numbers that
    /// are not negative is not negative. The sign is
    /// worked out apart from the digits: for the opposite dividend there is the opposite quotient,
    /// or none if there is none.
    #[verifier::external_body]
    pub(crate) fn checked_div(self, other: Decimal) -> (r: Result<Decimal, ArithmeticError>)
        ensures
            r.ok() == self.over(other),
            !self.divides_evenly(other) ==> r.ok() == from_pair(
                decimal_quotient(
                    self.mantissa_int(),
                    self.scale_nat() as int,
                    other.mantissa_int(),
                    other.scale_nat() as int,
                ),
            ),
            forall|q: Decimal| #[trigger]
                is_quotient(q, self, other) && other@ != 0real ==> r is Ok && r->Ok_0@ == q@,
            r matches Ok(d) ==> (0real <= self@ && 0real <= other@ ==> 0real <= d@),
            other@ != 0real && has_room(self@ / other@) ==> r is Ok,
            r matches Ok(d) ==> self.is_decimal() && other.is_decimal() && is_rounded(
                d,
                self@ / other@,
            ),
            r matches Ok(d) ==> self.negated().over(other) == Some(d.negated()),
            r is Err ==> self.negated().over(other) is None,
    {
        let a = rust_decimal::Decimal::from_i128_with_scale(self.mantissa, self.scale);
        let b = rust_decimal::Decimal::from_i128_with_scale(other.mantissa, other.scale);
        match a.checked_div(b) {
            Some(d) => Ok(Decimal { mantissa: d.mantissa(), scale: d.scale() }),
            None => Err(ArithmeticError),
        }
    }

    /// The order of `rust_decimal`, which is that of the numbers.
    #[verifier::external_body]
    fn is_below(self, other: Decimal) -> (r: bool)
        ensures
            r == (self@ < other@),
    {
        let a = rust_decimal::Decimal::from_i128_with_scale(self.mantissa, self.scale);
        let b = rust_decimal::Decimal::from_i128_with_scale(other.mantissa, other.scale);
        a < b
    }

    /// `Display` of `rust_decimal` with a precision: the sign, the whole part, and the given
    /// number of decimal places, with the places beyond them cut off and zeros for places that
    /// the number lacks. The outside function has room for 32 characters besides the sign.
    #[verifier::external_body]
    pub(crate) fn fixed_text(self, places: usize) -> (r: String)
        requires
            places <= 2 || places <= 4 && self.is_printable(),
        ensures
            r@ == self.fixed_chars(places as nat),
    {
        let d = rust_decimal::Decimal::from_i128_with_scale(self.mantissa, self.scale);
        format!("{:.*}", places, d)
    }

    /// `Display` of `rust_decimal`: the sign, the whole part and all decimal places.
    #[verifier::external_body]
    pub(crate) fn text(self) -> (r: String)
        ensures
            r@ == self.chars(),
    {
        rust_decimal::Decimal::from_i128_with_scale(self.mantissa, self.scale).to_string()
    }

    /// `FromStr` of `rust_decimal`: the number that a text writes, if it is one.
    #[verifier::external_body]
    pub(crate) fn parse(text: &str) -> (r: Option<Decimal>)
        ensures
            r == from_pair(decimal_of_text(text@)),
    {
        match text.parse::<rust_decimal::Decimal>() {
            Ok(d) => Some(Decimal { mantissa: d.mantissa(), scale: d.scale() }),
            Err(_) => None,
        }
    }
}

impl Decimal {
    /// The difference, or the largest or smallest decimal if there is no decimal for it.
    pub fn saturating_sub(self, other: Decimal) -> (r: Decimal)
        ensures
            r == saturating_difference(self, other),
    {
        match self.checked_sub(other) {
            Ok(d) => d,
            Err(_) => {
                let largest: i128 = 0xffff_ffff_ffff_ffff_ffff_ffff;
                if self.mantissa >= 0 {
                    Decimal { mantissa: largest, scale: 0 }
                } else {
                    Decimal { mantissa: -largest, scale: 0 }
                }
            },
        }
    }

    /// The number written with four decimal places, if its whole part is not too long.
    pub fn amount_text(self) -> (r: Result<String, ArithmeticError>)
        ensures
            r is Ok <==> self.is_printable(),
            r matches Ok(text) ==> text@ == self.fixed_chars(4),
    {
        let limit = Decimal { mantissa: 1_000_000_000_000_000_000_000_000_000, scale: 0 };
        let lower = limit.opposite();
        proof {
            value_of_a_whole_number(limit);
            value_of_a_whole_number(lower);
        }
        if lower.is_below(self) && self.is_below(limit) {
            Ok(self.fixed_text(4))
        } else {
            Err(ArithmeticError)
        }
    }
}

impl PartialEq for Decimal {
    /// Whether the numbers are equal, whatever their scales.
    fn eq(&self, other: &Decimal) -> (r: bool) {
        !self.is_below(*other) && !other.is_below(*self)
    }
}

impl vstd::std_specs::cmp::PartialEqSpecImpl for Decimal {
    open spec fn obeys_eq_spec() -> bool {
        true
    }

    open spec fn eq_spec(&self, other: &Decimal) -> bool {
        self@ == other@
    }
}

impl PartialOrd for Decimal {
    /// The order of the numbers, whatever their scales.
    fn partial_cmp(&self, other: &Decimal) -> (r: Option<core::cmp::Ordering>) {
        if self.is_below(*other) {
            Some(core::cmp::Ordering::Less)
        } else if other.is_below(*self) {
            Some(core::cmp::Ordering::Greater)
        } else {
            Some(core::cmp::Ordering::Equal)
        }
    }
}

impl vstd::std_specs::cmp::PartialOrdSpecImpl for Decimal {
    open spec fn obeys_partial_cmp_spec() -> bool {
        true
    }

    open spec fn partial_cmp_spec(&self, other: &Decimal) -> Option<core::cmp::Ordering> {
        if self@ < other@ {
            Some(core::cmp::Ordering::Less)
        } else if other@ < self@ {
            Some(core::cmp::Ordering::Greater)
        } else {
            Some(core::cmp::Ordering::Equal)
        }
    }
}

} // verus!
