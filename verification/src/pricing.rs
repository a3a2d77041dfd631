//! Pricing of five-minute binary options, sizing, and the volatility samples.
//!
//! The probability that the Up side wins comes from the Black-Scholes model, `N(d2)` with
//! `d2 = ln(S/K) / (sigma * sqrt(T))`. The model itself is computed outside this library, which
//! takes its result as an argument.

use vstd::prelude::*;
use std::collections::VecDeque;
use crate::decimal::{ArithmeticError, Decimal};
use crate::decimal::{dec, difference_of, larger, product_of, quotient_of, smaller};
use crate::decimal::{kept_difference_is_exact, pow10, pow10_is_positive, small_numbers_are_exact};
use crate::decimal::{is_rounded, rounding_passes_no_decimal};
use crate::decimal::{subtracts_exactly, value_of_a_whole_number};
use crate::types::PriceTick;

verus! {

/// What the model says of the Up side.
#[derive(Debug, Clone, Copy)]
pub enum ModelPrice {
    /// So little time is left that only the payoff counts.
    Expired,
    /// The probability that the Up side wins.
    Probability(Decimal),
    /// The model gave no number that a decimal holds.
    Undefined,
}

/// Pricer for binary options.
pub struct BinaryPricer {}

/// What an Up token pays: a dollar above the strike, nothing below, and half a dollar at the
/// strike.
pub open spec fn payoff_up(spot: Decimal, strike: Decimal) -> Decimal {
    if spot@ > strike@ {
        dec(1, 0)
    } else if spot@ < strike@ {
        dec(0, 0)
    } else {
        dec(5, 1)
    }
}

/// The fair value of the Up token.
pub open spec fn fair_up(
    spot: Decimal,
    strike: Decimal,
    sigma: Decimal,
    remaining_secs: u64,
    model: ModelPrice,
) -> Decimal {
    if remaining_secs == 0 {
        payoff_up(spot, strike)
    } else if strike.mantissa_int() == 0 || sigma.mantissa_int() == 0 {
        dec(5, 1)
    } else {
        match model {
            ModelPrice::Expired => payoff_up(spot, strike),
            ModelPrice::Probability(p) => p,
            ModelPrice::Undefined => dec(5, 1),
        }
    }
}

/// The fair value of the Down token, given that of the Up token.
pub open spec fn complement(up: Decimal) -> Option<Decimal> {
    dec(1, 0).minus(up)
}

impl BinaryPricer {
    /// A pricer.
    pub fn new() -> BinaryPricer {
        BinaryPricer {  }
    }

    /// What an Up token pays at expiry.
    pub fn payoff(&self, spot: Decimal, strike: Decimal) -> (r: Decimal)
        ensures
            r == payoff_up(spot, strike),
    {
        if spot > strike {
            Decimal::new(1, 0)
        } else if spot < strike {
            Decimal::new(0, 0)
        } else {
            Decimal::new(5, 1)
        }
    }

    /// Whether the fair value depends on the model.
    pub fn needs_model(&self, strike: Decimal, sigma: Decimal, remaining_secs: u64) -> (r: bool)
        ensures
            r == (remaining_secs != 0 && strike.mantissa_int() != 0 && sigma.mantissa_int() != 0),
            !r ==> forall|spot: Decimal, a: ModelPrice, b: ModelPrice|
                fair_up(spot, strike, sigma, remaining_secs, a) == fair_up(
                    spot,
                    strike,
                    sigma,
                    remaining_secs,
                    b,
                ),
    {
        remaining_secs != 0 && !strike.is_zero() && !sigma.is_zero()
    }

    /// The fair value of the Up token.
    ///
    /// - `spot`: Current BTC price
    /// - `strike`: BTC price at window open
    /// - `sigma`: Annualized volatility
    /// - `remaining_secs`: Seconds until the window closes
    /// - `model`: What the model says for these numbers
    pub fn fair_value_up(
        &self,
        spot: Decimal,
        strike: Decimal,
        sigma: Decimal,
        remaining_secs: u64,
        model: ModelPrice,
    ) -> (r: Decimal)
        ensures
            r == fair_up(spot, strike, sigma, remaining_secs, model),
    {
        if remaining_secs == 0 {
            return self.payoff(spot, strike);
        }
        if strike.is_zero() || sigma.is_zero() {
            return Decimal::new(5, 1);
        }
        match model {
            ModelPrice::Expired => self.payoff(spot, strike),
            ModelPrice::Probability(p) => p,
            ModelPrice::Undefined => Decimal::new(5, 1),
        }
    }

    /// The fair value of the Down token: a dollar less the fair value of the Up token.
    pub fn fair_value_down(
        &self,
        spot: Decimal,
        strike: Decimal,
        sigma: Decimal,
        remaining_secs: u64,
        model: ModelPrice,
    ) -> (r: Result<Decimal, ArithmeticError>)
        ensures
            r.ok() == complement(fair_up(spot, strike, sigma, remaining_secs, model)),
            r matches Ok(down) ==> is_rounded(
                down,
                1real - fair_up(spot, strike, sigma, remaining_secs, model)@,
            ),
    {
        proof {
            broadcast use crate::decimal::parts_of_dec;

            value_of_a_whole_number(dec(1, 0));
        }
        Decimal::new(1, 0).checked_sub(
            self.fair_value_up(spot, strike, sigma, remaining_secs, model),
        )
    }
}

/// Samples of the price for the estimate of the volatility.
pub struct VolatilityEstimator {
    /// Recent price observations (timestamp in seconds, price)
    observations: VecDeque<(u64, Decimal)>,
    /// Maximum number of observations to keep
    max_observations: usize,
    /// Sampling interval in seconds
    sample_interval_secs: u64,
    /// Last sample timestamp
    last_sample: u64,
}

/// The state of the samples.
pub ghost struct SampleState {
    pub observations: Seq<(u64, Decimal)>,
    pub max_observations: nat,
    pub interval: nat,
    pub last_sample: u64,
}

impl View for VolatilityEstimator {
    type V = SampleState;

    closed spec fn view(&self) -> SampleState {
        SampleState {
            observations: self.observations@,
            max_observations: self.max_observations as nat,
            interval: self.sample_interval_secs as nat,
            last_sample: self.last_sample,
        }
    }
}

/// The last `n` observations.
pub open spec fn newest(observations: Seq<(u64, Decimal)>, n: nat) -> Seq<(u64, Decimal)> {
    if observations.len() <= n {
        observations
    } else {
        observations.skip(observations.len() - n)
    }
}

impl SampleState {
    /// The state without observations. Prices are sampled once a minute.
    pub open spec fn initial(max_observations: nat) -> SampleState {
        SampleState { observations: Seq::empty(), max_observations, interval: 60, last_sample: 0 }
    }

    /// The state after a price was seen. It is recorded if there is none yet or if the last one
    /// is old enough.
    pub open spec fn after_price(self, timestamp_secs: u64, price: Decimal) -> SampleState {
        if timestamp_secs < self.last_sample + self.interval && self.observations.len() > 0 {
            self
        } else {
            SampleState {
                observations: newest(
                    self.observations.push((timestamp_secs, price)),
                    self.max_observations,
                ),
                last_sample: timestamp_secs,
                ..self
            }
        }
    }

    /// Whether the number of observations is within the limit, the observations are an interval
    /// apart, and the last sample is the last observation.
    pub open spec fn is_spaced(self) -> bool {
        &&& self.observations.len() <= self.max_observations
        &&& self.observations.len() > 0 ==> self.last_sample == self.observations.last().0
        &&& forall|i: int, j: int|
            0 <= i < j < self.observations.len() ==> (#[trigger] self.observations[i]).0
                + self.interval <= (#[trigger] self.observations[j]).0
    }
}

/// The second of a time in milliseconds, as an unsigned number.
pub open spec fn second_of(millis: i64) -> u64 {
    (millis as int / 1000) as i64 as u64
}

/// The second of a time in milliseconds, as an unsigned number.
fn whole_seconds(millis: i64) -> (r: u64)
    ensures
        r == second_of(millis),
{
    let seconds: i64 = if millis >= 0 {
        millis / 1000
    } else {
        -((-(millis + 1)) / 1000) - 1
    };
    #[verifier::truncate]
    (seconds as u64)
}

impl VolatilityEstimator {
    /// An estimator without observations.
    pub fn new(max_observations: usize) -> (r: VolatilityEstimator)
        ensures
            r@ == SampleState::initial(max_observations as nat),
    {
        VolatilityEstimator {
            observations: VecDeque::new(),
            max_observations,
            sample_interval_secs: 60,
            last_sample: 0,
        }
    }

    /// Adds a price observation. Only records at the sampling interval.
    pub fn add_price(&mut self, timestamp_secs: u64, price: Decimal)
        ensures
            final(self)@ == old(self)@.after_price(timestamp_secs, price),
    {
        let next: u128 = self.last_sample as u128 + self.sample_interval_secs as u128;
        if (timestamp_secs as u128) < next && self.observations.len() > 0 {
            return;
        }
        self.last_sample = timestamp_secs;
        self.observations.push_back((timestamp_secs, price));
        let ghost all = self.observations@;
        while self.observations.len() > self.max_observations
            invariant
                self@.observations == newest(all, self.observations@.len()),
                self.observations@.len() <= all.len(),
                all.len() > self.max_observations ==> self.observations@.len()
                    >= self.max_observations,
                all.len() <= self.max_observations ==> self.observations@ == all,
                self@ == (SampleState {
                    observations: self@.observations,
                    last_sample: timestamp_secs,
                    ..old(self)@
                }),
            decreases self.observations.len(),
        {
            let ghost before = self.observations@;
            let _ = self.observations.pop_front();
            assert(self.observations@ =~= newest(all, self.observations@.len()));
        }
        assert(self.observations@ =~= newest(all, self.max_observations as nat));
    }

    /// Adds the price of a tick.
    pub fn add_price_from_tick(&mut self, tick: &PriceTick)
        ensures
            final(self)@ == old(self)@.after_price(second_of(tick.timestamp), tick.price),
    {
        let seconds: u64 = whole_seconds(tick.timestamp);
        self.add_price(seconds, tick.price);
    }

    /// The prices of the observations, oldest first.
    pub fn prices(&self) -> (r: Vec<Decimal>)
        ensures
            r@ == self@.observations.map_values(|o: (u64, Decimal)| o.1),
    {
        let mut prices: Vec<Decimal> = Vec::new();
        let mut i: usize = 0;
        while i < self.observations.len()
            invariant
                i <= self.observations.len(),
                prices@ == self@.observations.take(i as int).map_values(|o: (u64, Decimal)| o.1),
            decreases self.observations.len() - i,
        {
            prices.push(self.observations[i].1);
            i = i + 1;
            assert(prices@ =~= self@.observations.take(i as int).map_values(
                |o: (u64, Decimal)| o.1,
            ));
        }
        assert(self@.observations.take(i as int) =~= self@.observations);
        prices
    }

    /// The annualized volatility, given what the observations give for it. There is none for fewer
    /// than ten observations.
    pub fn annualized_volatility(&self, estimate: Option<Decimal>) -> (r: Option<Decimal>)
        ensures
            r == if self@.observations.len() < 10 {
                None
            } else {
                estimate
            },
    {
        if self.observations.len() < 10 {
            None
        } else {
            estimate
        }
    }

    /// The volatility to use without enough data: 45% a year.
    pub fn default_volatility() -> (r: Decimal)
        ensures
            r == dec(45, 2),
    {
        Decimal::new(45, 2)
    }
}

/// A quarter of the Kelly fraction: `0.25 * (p - c) / (1 - c)`, and nothing without an edge.
pub open spec fn quarter_kelly(true_prob: Decimal, market_price: Decimal) -> Option<Decimal> {
    match true_prob.minus(market_price) {
        Some(edge) => if edge@ <= 0real || market_price@ >= 1real {
            Some(dec(0, 0))
        } else {
            product_of(
                quotient_of(Some(edge), dec(1, 0).minus(market_price)),
                Some(dec(25, 2)),
            )
        },
        None => None,
    }
}

/// The Kelly fraction for binary options, `(p - c) / (1 - c)`, of which a quarter is used for
/// safety.
pub fn kelly_fraction(true_prob: Decimal, market_price: Decimal) -> (r: Result<
    Decimal,
    ArithmeticError,
>)
    ensures
        r.ok() == quarter_kelly(true_prob, market_price),
        // Nothing is bet without an edge, and never less than nothing.
        r is Ok && (true_prob@ <= market_price@ || market_price@ >= 1real) ==> r->Ok_0 == dec(0, 0),
        r is Ok ==> 0real <= r->Ok_0@,
        // For a probability and a price from nothing to one there is a fraction, and it is a
        // quarter at most.
        0real <= true_prob@ <= 1real && 0real <= market_price@ <= 1real ==> r is Ok && r->Ok_0@
            <= dec(25, 2)@,
{
    broadcast use {crate::decimal::parts_of_dec, crate::decimal::sign_is_that_of_the_mantissa};

    proof {
        value_of_a_whole_number(dec(1, 0));
        assert(pow10(2) == 100) by {
            reveal_with_fuel(pow10, 3);
        }
        assert(dec(25, 2)@ == 25real / 100real);
    }
    let edge = true_prob.checked_sub(market_price)?;
    if edge <= Decimal::whole(0) || market_price >= Decimal::whole(1) {
        return Ok(Decimal::whole(0));
    }
    let rest = Decimal::whole(1).checked_sub(market_price)?;
    proof {
        if 0real <= true_prob@ <= 1real && 0real <= market_price@ <= 1real {
            small_numbers_are_exact(true_prob, market_price);
            small_numbers_are_exact(dec(1, 0), market_price);
            let (e, s) = (edge@, rest@);
            assert(0real <= e / s <= 1real) by (nonlinear_arith)
                requires
                    0real <= e <= s,
                    0real < s,
            ;
        }
    }
    let full_kelly = edge.checked_div(rest)?;
    proof {
        if 0real <= true_prob@ <= 1real && 0real <= market_price@ <= 1real {
            rounding_passes_no_decimal(full_kelly, edge@ / rest@, dec(1, 0));
        }
    }
    let fraction = full_kelly.checked_mul(Decimal::new(25, 2))?;
    proof {
        if 0real <= true_prob@ <= 1real && 0real <= market_price@ <= 1real {
            rounding_passes_no_decimal(fraction, full_kelly@ * dec(25, 2)@, dec(25, 2));
        }
    }
    Ok(fraction)
}

/// What is left for one side of a pair of which the other side costs `other_cost`, so that the
/// pair costs a dollar less `target_edge`.
pub open spec fn remaining_cost(other_cost: Decimal, target_edge: Decimal) -> Option<Decimal> {
    difference_of(dec(1, 0).minus(target_edge), Some(other_cost))
}

/// The price between one cent and 99 cents that is nearest to `price`.
pub open spec fn within_cents(price: Decimal) -> Decimal {
    smaller(larger(price, dec(1, 2)), dec(99, 2))
}

/// The limit order price for a side, given what the other side is expected to cost: the combined
/// cost is to be below a dollar by `target_edge`.
pub fn optimal_bid_price(other_side_expected_cost: Decimal, target_edge: Decimal) -> (r: Result<
    Decimal,
    ArithmeticError,
>)
    ensures
        r.ok() == match remaining_cost(other_side_expected_cost, target_edge) {
            Some(price) => Some(within_cents(price)),
            None => None,
        },
        r is Ok ==> dec(1, 2)@ <= r->Ok_0@ <= dec(99, 2)@,
{
    let target_combined = Decimal::new(1, 0).checked_sub(target_edge)?;
    let our_price = target_combined.checked_sub(other_side_expected_cost)?;
    proof {
        cents_are_ordered();
    }
    Ok(our_price.max(Decimal::new(1, 2)).min(Decimal::new(99, 2)))
}

/// One cent is less than 99 cents.
pub proof fn cents_are_ordered()
    ensures
        dec(1, 2)@ < dec(99, 2)@,
{
    broadcast use crate::decimal::parts_of_dec;

    pow10_is_positive(2);
    let p = pow10(2) as real;
    assert(1real / p < 99real / p) by (nonlinear_arith)
        requires
            p > 0real,
    ;
}

/// An Up and a Down token are together worth a dollar, unless the difference had to be rounded. It
/// never has to be for a fair value from nothing to a dollar.
pub proof fn up_and_down_are_worth_a_dollar(up: Decimal)
    requires
        up.is_decimal(),
        0real <= up@ <= 1real || subtracts_exactly(dec(1, 0), up),
    ensures
        complement(up) is Some,
        complement(up)->0@ + up@ == 1real,
        0real <= up@ <= 1real ==> 0real <= complement(up)->0@ <= 1real,
{
    broadcast use crate::decimal::parts_of_dec;

    let one = dec(1, 0);
    value_of_a_whole_number(one);
    if 0real <= up@ <= 1real {
        small_numbers_are_exact(one, up);
    }
    kept_difference_is_exact(one, up);
}

/// For any prices, volatility and time, the fair values of the Up and the Down token are together
/// a dollar, for what the model says unless the difference from it had to be rounded.
pub proof fn fair_values_are_together_a_dollar(
    spot: Decimal,
    strike: Decimal,
    sigma: Decimal,
    remaining_secs: u64,
    model: ModelPrice,
)
    requires
        model matches ModelPrice::Probability(p) ==> p.is_decimal() && (0real <= p@ <= 1real
            || subtracts_exactly(dec(1, 0), p)),
    ensures
        ({
            let up = fair_up(spot, strike, sigma, remaining_secs, model);
            complement(up) matches Some(down) && up@ + down@ == 1real
        }),
{
    broadcast use crate::decimal::parts_of_dec;

    let up = fair_up(spot, strike, sigma, remaining_secs, model);
    value_of_a_whole_number(dec(0, 0));
    value_of_a_whole_number(dec(1, 0));
    assert(pow10(1) == 10) by {
        reveal_with_fuel(pow10, 2);
    }
    assert(dec(5, 1)@ == 5real / 10real);
    up_and_down_are_worth_a_dollar(up);
}

/// The observations never exceed their limit and are always at least an interval apart.
pub proof fn samples_stay_an_interval_apart(
    state: SampleState,
    timestamp_secs: u64,
    price: Decimal,
    max_observations: nat,
)
    requires
        state.is_spaced(),
    ensures
        state.after_price(timestamp_secs, price).is_spaced(),
        SampleState::initial(max_observations).is_spaced(),
{
    if !(timestamp_secs < state.last_sample + state.interval && state.observations.len() > 0) {
        let all = state.observations.push((timestamp_secs, price));
        let after = state.after_price(timestamp_secs, price).observations;
        let gone = all.len() - after.len();
        assert forall|i: int, j: int| 0 <= i < j < after.len() implies (#[trigger] after[i]).0
            + state.interval <= (#[trigger] after[j]).0 by {
            assert(after[i] == all[i + gone] && after[j] == all[j + gone]);
        }
    }
}

/// A bid that was not raised to one cent keeps the combined cost at most a dollar less the target
/// edge. This holds unless a number on the way had to be rounded.
pub proof fn bids_leave_the_target_edge(other_cost: Decimal, target_edge: Decimal)
    requires
        other_cost.is_decimal(),
        target_edge.is_decimal(),
        dec(1, 0).keeps_sum(target_edge, dec(1, 0).difference_mantissa(target_edge)),
        dec(1, 0).minus(target_edge) matches Some(target) && target.keeps_sum(
            other_cost,
            target.difference_mantissa(other_cost),
        ),
        remaining_cost(other_cost, target_edge) matches Some(price) && dec(1, 2)@ <= price@,
    ensures
        within_cents(remaining_cost(other_cost, target_edge)->0)@ + other_cost@ <= 1real
            - target_edge@,
{
    broadcast use crate::decimal::parts_of_dec;

    let one = dec(1, 0);
    value_of_a_whole_number(one);
    kept_difference_is_exact(one, target_edge);
    kept_difference_is_exact(one.minus(target_edge)->0, other_cost);
}

} // verus!
