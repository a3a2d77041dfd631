//! What is bet, and what prices are sampled.

use vstd::prelude::*;
use crate::decimal::Decimal;
use crate::decimal::{dec, kept_difference_is_exact, kept_product_is_exact, small_numbers_are_exact};
use crate::decimal::subtracts_exactly;
use crate::laws::numbers::{max, min, multiplies_exactly, value_of};
use crate::pricing::{SampleState, quarter_kelly, remaining_cost, second_of, within_cents};

verus! {

/// A quarter of the Kelly fraction is bet where the probability is above the price: a quarter of the
/// edge over what can be won. Nothing is bet without an edge, or at a dollar and above.
pub proof fn a_quarter_of_the_kelly_fraction_is_bet(
    probability: Decimal,
    price: Decimal,
    fraction: Decimal,
)
    requires
        probability.is_decimal(),
        price.is_decimal(),
        0real <= probability@ <= 1real,
        0real <= price@ <= 1real,
        price@ < probability@ && price@ < 1real ==> probability.minus(price)->0.over(
            dec(1, 0).minus(price)->0,
        ) == Some(fraction) && multiplies_exactly(fraction, dec(25, 2)),
    ensures
        price@ < probability@ && price@ < 1real ==> (quarter_kelly(probability, price) matches Some(
            bet,
        ) && bet@ == fraction@ / 4real),
        probability@ <= price@ || 1real <= price@ ==> (quarter_kelly(
            probability,
            price,
        ) matches Some(bet) && bet@ == 0real),
        price@ < probability@ ==> probability.minus(price)->0@ == probability@ - price@
            && dec(1, 0).minus(price)->0@ == 1real - price@,
{
    value_of(0, 0);
    value_of(1, 0);
    value_of(25, 2);
    small_numbers_are_exact(probability, price);
    small_numbers_are_exact(dec(1, 0), price);
    if price@ < probability@ && price@ < 1real {
        kept_product_is_exact(fraction, dec(25, 2));
        let f = fraction@;
        assert(f * (25real / 100real) == f / 4real) by (nonlinear_arith);
    }
}

/// What is left to pay for a side is a dollar less the target edge and the cost of the other side. A
/// bid is that, but a cent at least and 99 cents at most.
pub proof fn a_bid_is_what_the_other_side_leaves(other_cost: Decimal, target_edge: Decimal)
    requires
        subtracts_exactly(dec(1, 0), target_edge),
        dec(1, 0).minus(target_edge) matches Some(target) ==> subtracts_exactly(target, other_cost),
    ensures
        remaining_cost(other_cost, target_edge) matches Some(price) && price@ == 1real
            - target_edge@ - other_cost@ && within_cents(price)@ == min(
            max(price@, 1real / 100real),
            99real / 100real,
        ),
{
    value_of(1, 0);
    value_of(1, 2);
    value_of(99, 2);
    kept_difference_is_exact(dec(1, 0), target_edge);
    kept_difference_is_exact(dec(1, 0).minus(target_edge)->0, other_cost);
}

/// A price is sampled if there is none yet, or if the last one is as old as the interval. It comes
/// last, and the oldest one goes if there are too many. Else nothing changes.
pub proof fn a_price_is_sampled_at_the_interval(
    state: SampleState,
    second: u64,
    price: Decimal,
)
    requires
        state.max_observations > 0,
        state.observations.len() <= state.max_observations,
    ensures
        ({
            let after = state.after_price(second, price);
            let due = state.observations.len() == 0 || state.last_sample + state.interval <= second;
            &&& !due ==> after == state
            &&& due ==> after.last_sample == second && after.observations.last() == (second, price)
            &&& due && state.observations.len() < state.max_observations ==> after.observations
                == state.observations.push((second, price))
            &&& due && state.observations.len() == state.max_observations
                ==> after.observations.len() == state.observations.len()
                && after.observations.drop_last() == state.observations.drop_first()
            &&& after.max_observations == state.max_observations && after.interval
                == state.interval
        }),
{
    let all = state.observations.push((second, price));
    let after = state.after_price(second, price);
    if state.observations.len() == state.max_observations && all.len() > state.max_observations {
        let kept = all.skip(1);
        assert(kept.drop_last() =~= state.observations.drop_first());
    }
}

/// Prices are sampled once a minute, and there are none at first.
pub proof fn sampling_starts_without_prices(max_observations: nat)
    ensures
        SampleState::initial(max_observations).observations.len() == 0,
        SampleState::initial(max_observations).max_observations == max_observations,
        SampleState::initial(max_observations).interval == 60,
        SampleState::initial(max_observations).last_sample == 0,
{
}

/// The second of a time is a thousandth of its milliseconds, rounded down.
pub proof fn seconds_are_whole(millis: i64)
    requires
        0 <= millis,
    ensures
        second_of(millis) * 1000 <= millis < (second_of(millis) + 1) * 1000,
{
}

} // verus!
