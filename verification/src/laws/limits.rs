//! What the risk manager allows and records.

use vstd::prelude::*;
use crate::decimal::Decimal;
use crate::decimal::{adds_exactly, dec, subtracts_exactly};
use crate::decimal::{kept_difference_is_exact, kept_product_is_exact, kept_sum_is_exact};
use crate::laws::numbers::{max, multiplies_exactly, value_of};
use crate::risk::RiskState;

verus! {

/// Whether the limits on an order are worked out without rounding.
pub open spec fn decides_exactly(state: RiskState, cost: Decimal) -> bool {
    &&& multiplies_exactly(state.starting_capital, state.daily_stop_loss_pct)
    &&& multiplies_exactly(state.starting_capital, state.max_position_pct)
    &&& adds_exactly(state.current_market_exposure, cost)
    &&& adds_exactly(state.window_total_invested, cost)
}

/// The part of the starting capital that may be lost in a day, and the part that an order may cost.
proof fn parts_of_the_capital(state: RiskState)
    requires
        multiplies_exactly(state.starting_capital, state.daily_stop_loss_pct),
    ensures
        state.starting_capital.times(state.daily_stop_loss_pct) matches Some(loss)
            && loss.negated()@ == -(state.starting_capital@ * state.daily_stop_loss_pct@),
{
    kept_product_is_exact(state.starting_capital, state.daily_stop_loss_pct);
    crate::decimal::opposites_differ_by_the_sign(
        state.starting_capital.times(state.daily_stop_loss_pct)->0,
    );
}

/// An order is allowed exactly if trading is not halted, the loss of the day is no more than its part
/// of the starting capital, there are fewer losses in a row than the limit, the order costs no more
/// than the available capital and than its part of the starting capital, the exposure of the market
/// and the investment of the window stay within their limits with it, and fewer orders are open than
/// the limit.
#[verifier::rlimit(40)]
pub proof fn orders_are_allowed_within_every_limit(
    state: RiskState,
    cost: Decimal,
    open_orders: usize,
)
    requires
        decides_exactly(state, cost),
    ensures
        state.verdict(cost, open_orders) == Some(Ok::<(), Seq<char>>(())) <==> {
            &&& !state.halted
            &&& -(state.starting_capital@ * state.daily_stop_loss_pct@) <= state.daily_pnl@
            &&& state.consecutive_losses < state.consecutive_loss_limit
            &&& cost@ <= state.available_capital@
            &&& cost@ <= state.starting_capital@ * state.max_position_pct@
            &&& state.current_market_exposure@ + cost@ <= state.max_exposure_per_market@
            &&& state.window_total_invested@ + cost@ <= state.max_window_investment@
            &&& open_orders < state.max_open_orders
        },
{
    parts_of_the_capital(state);
    kept_product_is_exact(state.starting_capital, state.max_position_pct);
    kept_sum_is_exact(state.current_market_exposure, cost);
    kept_sum_is_exact(state.window_total_invested, cost);
}

/// A session starts with all its capital available, without losses, exposure, investment and halt.
/// The investment of a window may be one and a half times the exposure of a market.
pub proof fn a_session_starts_with_its_capital(
    starting_capital: Decimal,
    max_position_pct: Decimal,
    daily_stop_loss_pct: Decimal,
    consecutive_loss_limit: u32,
    max_exposure_per_market: Decimal,
    max_open_orders: usize,
)
    requires
        multiplies_exactly(max_exposure_per_market, dec(15, 1)),
    ensures
        RiskState::initial(
            starting_capital,
            max_position_pct,
            daily_stop_loss_pct,
            consecutive_loss_limit,
            max_exposure_per_market,
            max_open_orders,
        ) matches Some(state) && {
            &&& state.starting_capital == starting_capital
            &&& state.available_capital == starting_capital
            &&& state.max_position_pct == max_position_pct
            &&& state.daily_stop_loss_pct == daily_stop_loss_pct
            &&& state.consecutive_loss_limit == consecutive_loss_limit
            &&& state.max_exposure_per_market == max_exposure_per_market
            &&& state.max_window_investment@ == max_exposure_per_market@ * (15real / 10real)
            &&& state.max_open_orders == max_open_orders
            &&& state.consecutive_losses == 0
            &&& state.daily_pnl@ == 0real
            &&& state.current_market_exposure@ == 0real
            &&& state.window_total_invested@ == 0real
            &&& !state.halted && state.halt_reason is None
        },
{
    value_of(0, 0);
    value_of(15, 1);
    kept_product_is_exact(max_exposure_per_market, dec(15, 1));
}

/// An order takes its cost from the capital and adds it to the exposure of the market and to the
/// investment of the window. Nothing else changes.
pub proof fn an_order_takes_its_cost(state: RiskState, cost: Decimal, after: RiskState)
    requires
        state.after_order(cost) == Some(after),
        subtracts_exactly(state.available_capital, cost),
        adds_exactly(state.current_market_exposure, cost),
        adds_exactly(state.window_total_invested, cost),
    ensures
        after.available_capital@ == state.available_capital@ - cost@,
        after.current_market_exposure@ == state.current_market_exposure@ + cost@,
        after.window_total_invested@ == state.window_total_invested@ + cost@,
        after == (RiskState {
            available_capital: after.available_capital,
            current_market_exposure: after.current_market_exposure,
            window_total_invested: after.window_total_invested,
            ..state
        }),
{
    kept_difference_is_exact(state.available_capital, cost);
    kept_sum_is_exact(state.current_market_exposure, cost);
    kept_sum_is_exact(state.window_total_invested, cost);
}

/// Whether some amount is taken off the exposure without rounding, as far as there is any.
pub open spec fn releases_exactly(exposure: Decimal, amount: Decimal) -> bool {
    exposure.is_decimal() && amount.is_decimal() && (amount@ <= exposure@ ==> subtracts_exactly(
        exposure,
        amount,
    ))
}

/// What is left of an exposure after a release.
proof fn a_release_stops_at_nothing(exposure: Decimal, amount: Decimal)
    requires
        releases_exactly(exposure, amount),
    ensures
        exposure.minus(crate::decimal::smaller(amount, exposure)) matches Some(left) && left@
            == max(exposure@ - amount@, 0real),
{
    if amount@ <= exposure@ {
        kept_difference_is_exact(exposure, amount);
    } else {
        crate::decimal::nothing_is_left_of_a_whole(exposure);
    }
}

/// What comes back from a sale or a cancelled order is capital again, and is taken off the exposure
/// of the market as far as there is any. Nothing else changes: the profit and loss of the day and the
/// investment of the window stay as they are.
pub proof fn what_comes_back_is_capital(state: RiskState, amount: Decimal, after: RiskState)
    requires
        state.after_return(amount) == Some(after),
        adds_exactly(state.available_capital, amount),
        releases_exactly(state.current_market_exposure, amount),
    ensures
        after.available_capital@ == state.available_capital@ + amount@,
        after.current_market_exposure@ == max(state.current_market_exposure@ - amount@, 0real),
        after == (RiskState {
            available_capital: after.available_capital,
            current_market_exposure: after.current_market_exposure,
            ..state
        }),
{
    kept_sum_is_exact(state.available_capital, amount);
    a_release_stops_at_nothing(state.current_market_exposure, amount);
}

/// A merge brings its cost and its profit back as capital, adds the profit to the profit and loss of
/// the day, and takes its cost off the exposure of the market as far as there is any. A profit ends a
/// series of losses, and any other merge adds one to it. Trading is halted exactly if it was before,
/// the series reaches its limit without a profit, or the loss of the day is more than its part of the
/// starting capital. Nothing else changes.
#[verifier::rlimit(40)]
pub proof fn a_merge_is_recorded(
    state: RiskState,
    profit: Decimal,
    cost: Decimal,
    after: RiskState,
)
    requires
        state.after_merge(profit, cost) == Some(after),
        multiplies_exactly(state.starting_capital, state.daily_stop_loss_pct),
        adds_exactly(state.daily_pnl, profit),
        adds_exactly(cost, profit),
        cost.plus(profit) matches Some(paid) ==> adds_exactly(state.available_capital, paid),
        releases_exactly(state.current_market_exposure, cost),
    ensures
        after.available_capital@ == state.available_capital@ + cost@ + profit@,
        after.daily_pnl@ == state.daily_pnl@ + profit@,
        after.current_market_exposure@ == max(state.current_market_exposure@ - cost@, 0real),
        after.consecutive_losses == if profit@ > 0real {
            0
        } else {
            state.consecutive_losses + 1
        },
        after.halted <==> state.halted || profit@ <= 0real && state.consecutive_losses + 1
            >= state.consecutive_loss_limit || after.daily_pnl@ < -(state.starting_capital@
            * state.daily_stop_loss_pct@),
        after == (RiskState {
            available_capital: after.available_capital,
            daily_pnl: after.daily_pnl,
            current_market_exposure: after.current_market_exposure,
            consecutive_losses: after.consecutive_losses,
            halted: after.halted,
            halt_reason: after.halt_reason,
            ..state
        }),
{
    parts_of_the_capital(state);
    kept_sum_is_exact(state.daily_pnl, profit);
    kept_sum_is_exact(cost, profit);
    kept_sum_is_exact(state.available_capital, cost.plus(profit)->0);
    a_release_stops_at_nothing(state.current_market_exposure, cost);
}

/// A halt for the loss of the day says so, and else one for a series of losses does. Without either
/// the reason of an earlier halt stays.
pub proof fn a_halt_says_why(state: RiskState, profit: Decimal, cost: Decimal, after: RiskState)
    requires
        state.after_merge(profit, cost) == Some(after),
        multiplies_exactly(state.starting_capital, state.daily_stop_loss_pct),
    ensures
        after.halt_reason == if after.daily_pnl@ < -(state.starting_capital@
            * state.daily_stop_loss_pct@) {
            Some("Daily stop loss exceeded"@)
        } else if profit@ <= 0real && state.consecutive_losses + 1 >= state.consecutive_loss_limit {
            Some("Circuit breaker triggered: too many consecutive losses"@)
        } else {
            state.halt_reason
        },
{
    parts_of_the_capital(state);
}

/// A halt gives its reason and changes nothing else.
pub proof fn a_halt_changes_nothing_else(state: RiskState, reason: Seq<char>)
    ensures
        state.with_halt(reason).halted,
        state.with_halt(reason).halt_reason == Some(reason),
        state.with_halt(reason) == (RiskState { halted: true, halt_reason: Some(reason), ..state }),
{
}

} // verus!
