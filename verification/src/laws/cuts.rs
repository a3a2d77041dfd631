//! What is sold and merged at the end of a tick.

use vstd::prelude::*;
use crate::decimal::Decimal;
use crate::decimal::{adds_exactly, dec, subtracts_exactly};
use crate::decimal::{an_exact_difference_leaves_the_rest, kept_difference_is_exact};
use crate::decimal::{kept_sum_is_exact, small_numbers_are_exact};
use crate::laws::numbers::{adds_product_exactly, max, products_add_up, value_of};
use crate::laws::orders::is_fair_value;
use crate::orders::OrdersState;
use crate::rules::MarketSnapshot;
use crate::strategy::{StrategyState, TickStart};
use crate::types::{Market, Side};

verus! {

/// A tick while trading is halted only counts: it says that trading is halted, lets no orders be
/// placed, and neither sells nor cancels anything.
pub proof fn a_halted_tick_only_counts(
    state: StrategyState,
    snapshot: MarketSnapshot,
    after: StrategyState,
    start: TickStart,
)
    requires
        state.after_tick_start(snapshot) == Some((after, start)),
        state.risk.halted,
    ensures
        start.halted,
        !start.may_order,
        start.cancelled == 0,
        after == (StrategyState { current_tick: (state.current_tick + 1) as u64, ..state }),
{
}

/// Without a bid for the side that is ahead, nothing is sold to cut a loss, and no order is
/// cancelled.
pub proof fn without_a_bid_no_loss_is_cut(
    state: StrategyState,
    snapshot: MarketSnapshot,
    after: StrategyState,
    start: TickStart,
)
    requires
        state.after_tick_start(snapshot) == Some((after, start)),
        subtracts_exactly(state.engine.up.shares, state.engine.down.shares),
        state.engine.down.shares@ < state.engine.up.shares@ ==> snapshot.up_best_bid is None,
        state.engine.up.shares@ < state.engine.down.shares@ ==> snapshot.down_best_bid is None,
    ensures
        start.cancelled == 0,
        after == (StrategyState { current_tick: (state.current_tick + 1) as u64, ..state }),
{
    let (up, down) = (state.engine.up.shares, state.engine.down.shares);
    kept_difference_is_exact(up, down);
    crate::decimal::exact_differences_are_symmetric(up, down);
    kept_difference_is_exact(down, up);
}

/// A sale brings its proceeds back as capital, and during the window as cash too, if there are any.
/// Nothing else of the strategy changes but the positions.
pub proof fn proceeds_are_capital_and_cash(
    state: StrategyState,
    side: Side,
    shares: Decimal,
    price: Decimal,
    after: StrategyState,
)
    requires
        state.after_cash_sale(side, shares, price) == Some(after),
    ensures
        state.engine.after_salvage(side, shares, price) matches Some((engine, proceeds)) && {
            &&& after.engine == engine
            &&& proceeds@ > 0real ==> state.risk.after_return(proceeds) == Some(after.risk)
            &&& proceeds@ > 0real && adds_exactly(state.window_cash_pnl, proceeds)
                ==> after.window_cash_pnl@ == state.window_cash_pnl@ + proceeds@
            &&& proceeds@ <= 0real ==> after.risk == state.risk && after.window_cash_pnl
                == state.window_cash_pnl
        },
        after == (StrategyState {
            engine: after.engine,
            risk: after.risk,
            window_cash_pnl: after.window_cash_pnl,
            ..state
        }),
{
    let (engine, proceeds) = state.engine.after_salvage(side, shares, price)->0;
    if adds_exactly(state.window_cash_pnl, proceeds) {
        kept_sum_is_exact(state.window_cash_pnl, proceeds);
    }
}

/// Whether the shares of a side are ahead of those of the other by more than an order, and their fair
/// value is below 30 cents, or below 40 cents with less than three minutes left.
pub open spec fn is_behind(
    own: Decimal,
    other: Decimal,
    per_order: Decimal,
    fair_value: Decimal,
    remaining_secs: u64,
) -> bool {
    &&& own@ > other@ + per_order@
    &&& fair_value@ < 30real / 100real || remaining_secs < 180 && fair_value@ < 40real / 100real
}

/// The limits of a stop loss.
proof fn limits_of_a_stop_loss(
    state: StrategyState,
    snapshot: MarketSnapshot,
    up: Decimal,
    down: Decimal,
)
    requires
        adds_exactly(up, state.config.shares_per_order),
        adds_exactly(down, state.config.shares_per_order),
        is_fair_value(snapshot.fair_value_up),
        is_fair_value(snapshot.fair_value_down),
    ensures
        up.plus(state.config.shares_per_order) matches Some(limit) && limit@ == up@
            + state.config.shares_per_order@,
        down.plus(state.config.shares_per_order) matches Some(limit) && limit@ == down@
            + state.config.shares_per_order@,
        dec(30, 2)@ == 30real / 100real,
        dec(40, 2)@ == 40real / 100real,
        dec(1, 2)@ == 1real / 100real,
        snapshot.fair_value_up.minus(dec(2, 2)) matches Some(bid) && bid@
            == snapshot.fair_value_up@ - 2real / 100real,
        snapshot.fair_value_down.minus(dec(2, 2)) matches Some(bid) && bid@
            == snapshot.fair_value_down@ - 2real / 100real,
{
    value_of(1, 2);
    value_of(2, 2);
    value_of(30, 2);
    value_of(40, 2);
    kept_sum_is_exact(up, state.config.shares_per_order);
    kept_sum_is_exact(down, state.config.shares_per_order);
    small_numbers_are_exact(snapshot.fair_value_up, dec(2, 2));
    small_numbers_are_exact(snapshot.fair_value_down, dec(2, 2));
}

/// A tick ends in four steps: stale orders are cancelled, orders are matched in dry-run mode and in no
/// other, the excess of a losing side is sold, and the pairs that there are are merged.
pub proof fn a_tick_ends_in_four_steps(
    state: StrategyState,
    market: Market,
    snapshot: MarketSnapshot,
    now: i64,
    after: StrategyState,
)
    requires
        state.after_tick_end(market, snapshot, now) == Some(after),
    ensures
        state.after_stale(snapshot, now) matches Some(fresh) && {
            &&& fresh == (StrategyState { orders: fresh.orders, risk: fresh.risk, ..state })
            &&& state.config.dry_run ==> (fresh.after_matching(market, snapshot) matches Some(
                filled,
            ) && (filled.after_stop_losses(snapshot) matches Some(sold) && sold.after_merge(now)
                == Some(after)))
            &&& !state.config.dry_run ==> (fresh.after_stop_losses(snapshot) matches Some(sold)
                && sold.after_merge(now) == Some(after))
        },
{
}

/// In the middle of a window, with more than 30 and less than 280 seconds left, the excess shares of
/// a side are sold once they are ahead by more than an order and the fair value of that side is
/// below 30 cents, or below 40 cents with less than three minutes left. They bring that fair value
/// less two cents each, and a cent at least. Both sides are then held alike, and the proceeds are
/// cash.
#[verifier::rlimit(40)]
pub proof fn a_losing_excess_is_sold(
    state: StrategyState,
    snapshot: MarketSnapshot,
    after: StrategyState,
    side: Side,
    excess: Decimal,
    price: Decimal,
)
    requires
        state.after_stop_losses(snapshot) == Some(after),
        30 < snapshot.remaining_secs < 280,
        is_fair_value(snapshot.fair_value_up),
        is_fair_value(snapshot.fair_value_down),
        0real <= state.config.shares_per_order@,
        ({
            let (own, other, fair_value) = match side {
                Side::Up => (
                    state.engine.up.shares,
                    state.engine.down.shares,
                    snapshot.fair_value_up,
                ),
                Side::Down => (
                    state.engine.down.shares,
                    state.engine.up.shares,
                    snapshot.fair_value_down,
                ),
            };
            &&& 0real <= other@
            &&& own@ > other@ + state.config.shares_per_order@
            &&& fair_value@ < 30real / 100real || snapshot.remaining_secs < 180 && fair_value@
                < 40real / 100real
            &&& adds_exactly(own, state.config.shares_per_order)
            &&& adds_exactly(other, state.config.shares_per_order)
            &&& subtracts_exactly(own, other)
            &&& own.minus(other) == Some(excess)
            &&& fair_value.minus(dec(2, 2)) matches Some(below) && price == (if below@ < 1real
                / 100real {
                dec(1, 2)
            } else {
                below
            })
            &&& adds_product_exactly(state.window_cash_pnl, excess, price)
        }),
    ensures
        match side {
            Side::Up => after.engine.up.shares@ == state.engine.down.shares@ && after.engine.down
                == state.engine.down && price@ == max(
                snapshot.fair_value_up@ - 2real / 100real,
                1real / 100real,
            ) && after.window_cash_pnl@ == state.window_cash_pnl@ + (state.engine.up.shares@
                - state.engine.down.shares@) * price@,
            Side::Down => after.engine.down.shares@ == state.engine.up.shares@ && after.engine.up
                == state.engine.up && price@ == max(
                snapshot.fair_value_down@ - 2real / 100real,
                1real / 100real,
            ) && after.window_cash_pnl@ == state.window_cash_pnl@ + (state.engine.down.shares@
                - state.engine.up.shares@) * price@,
        },
{
    let (up, down) = (state.engine.up, state.engine.down);
    let (own, other) = match side {
        Side::Up => (up.shares, down.shares),
        Side::Down => (down.shares, up.shares),
    };
    limits_of_a_stop_loss(state, snapshot, up.shares, down.shares);
    kept_difference_is_exact(own, other);
    an_exact_difference_leaves_the_rest(own, other);
    products_add_up(state.window_cash_pnl, excess, price);
    let (e, p) = (excess@, price@);
    assert(e * p > 0real) by (nonlinear_arith)
        requires
            e > 0real,
            p > 0real,
    ;
    let first = state.after_stop_loss(Side::Up, up, down, snapshot)->0;
    let sold = first.after_stop_loss(Side::Down, down, up, snapshot)->0;
    assert(after == sold);
    match side {
        Side::Up => {
            assert(sold == first);
            assert(state.after_cash_sale(Side::Up, excess, price) == Some(first));
        },
        Side::Down => {
            assert(first == state);
            assert(state.after_cash_sale(Side::Down, excess, price) == Some(sold));
        },
    }
}

/// Where neither side is ahead by more than an order at a low fair value, or the window is not in
/// its middle, nothing is sold at the end of a tick.
pub proof fn nothing_else_is_sold(
    state: StrategyState,
    snapshot: MarketSnapshot,
    after: StrategyState,
)
    requires
        state.after_stop_losses(snapshot) == Some(after),
        is_fair_value(snapshot.fair_value_up),
        is_fair_value(snapshot.fair_value_down),
        adds_exactly(state.engine.up.shares, state.config.shares_per_order),
        adds_exactly(state.engine.down.shares, state.config.shares_per_order),
        snapshot.remaining_secs <= 30 || 280 <= snapshot.remaining_secs || !is_behind(
            state.engine.up.shares,
            state.engine.down.shares,
            state.config.shares_per_order,
            snapshot.fair_value_up,
            snapshot.remaining_secs,
        ) && !is_behind(
            state.engine.down.shares,
            state.engine.up.shares,
            state.config.shares_per_order,
            snapshot.fair_value_down,
            snapshot.remaining_secs,
        ),
    ensures
        after == state,
{
    limits_of_a_stop_loss(state, snapshot, state.engine.up.shares, state.engine.down.shares);
}

/// A merge during the window is recorded with the risk manager. What it pays, its cost and its profit,
/// is cash, and its tick is remembered. Without a merge nothing changes.
pub proof fn a_merge_pays_cash(state: StrategyState, now: i64, after: StrategyState)
    requires
        state.after_merge(now) == Some(after),
    ensures
        match state.engine.after_merge(now) {
            Some((engine, Some(merge))) => {
                &&& after.engine == engine
                &&& after.last_merge_tick == state.current_tick
                &&& state.risk.after_merge(merge.profit, merge.total_cost) == Some(after.risk)
                &&& adds_exactly(merge.total_cost, merge.profit) && (merge.total_cost.plus(
                    merge.profit,
                ) matches Some(paid) && adds_exactly(state.window_cash_pnl, paid))
                    ==> after.window_cash_pnl@ == state.window_cash_pnl@ + merge.total_cost@
                    + merge.profit@
                &&& after == (StrategyState {
                    engine: after.engine,
                    risk: after.risk,
                    last_merge_tick: after.last_merge_tick,
                    window_cash_pnl: after.window_cash_pnl,
                    ..state
                })
            },
            Some((_, None)) => after == state,
            None => false,
        },
{
    if let Some((engine, Some(merge))) = state.engine.after_merge(now) {
        if adds_exactly(merge.total_cost, merge.profit) {
            kept_sum_is_exact(merge.total_cost, merge.profit);
            let paid = merge.total_cost.plus(merge.profit)->0;
            if adds_exactly(state.window_cash_pnl, paid) {
                kept_sum_is_exact(state.window_cash_pnl, paid);
            }
        }
    }
}

/// A window starts without cash, ticks and orders, and remembers how many pairs were merged before
/// it. The exposure and the investment of the market start at nothing. The orders and the samples
/// stay as they are.
pub proof fn a_window_starts_afresh(state: StrategyState, after: StrategyState)
    requires
        state.for_new_window() == Some(after),
    ensures
        after.window_cash_pnl@ == 0real,
        after.current_tick == 0,
        after.last_merge_tick == 0,
        after.window_orders == 0,
        after.pairs_before == state.engine.pnl.total_pairs,
        after.risk.current_market_exposure@ == 0real,
        after.risk.window_total_invested@ == 0real,
        after.risk == (crate::risk::RiskState {
            current_market_exposure: after.risk.current_market_exposure,
            window_total_invested: after.risk.window_total_invested,
            ..state.risk
        }),
        state.engine.for_new_window() == Some(after.engine),
        after.orders == state.orders,
        after.samples == state.samples,
        after.config == state.config,
{
    value_of(0, 0);
}

/// A session starts without cash, ticks, orders of the window and samples, of which it keeps 200.
pub proof fn a_strategy_starts_afresh(
    config: crate::config::Config,
    orders: OrdersState,
    engine: crate::merge::EngineState,
    risk: crate::risk::RiskState,
)
    ensures
        ({
            let state = StrategyState::initial(config, orders, engine, risk);
            &&& state.config == config && state.orders == orders && state.engine == engine
                && state.risk == risk
            &&& state.window_cash_pnl@ == 0real
            &&& state.current_tick == 0 && state.last_merge_tick == 0 && state.window_orders == 0
            &&& state.pairs_before == engine.pnl.total_pairs
            &&& state.samples.observations.len() == 0 && state.samples.max_observations == 200
                && state.samples.interval == 60
        }),
{
    value_of(0, 0);
}

/// A price is sampled with the second of its tick, and nothing but the samples changes.
pub proof fn prices_are_sampled(state: StrategyState, tick: crate::types::PriceTick)
    requires
        0 <= tick.timestamp,
    ensures
        state.after_price(tick) == (StrategyState {
            samples: state.samples.after_price((tick.timestamp / 1000) as u64, tick.price),
            ..state
        }),
{
}

/// The volatility is the estimate from ten samples on, and 45% a year with fewer or without one.
pub proof fn the_volatility_needs_ten_samples(state: StrategyState, estimate: Option<Decimal>)
    ensures
        match estimate {
            Some(sigma) if 10 <= state.samples.observations.len() => crate::strategy::volatility_of(
                state,
                estimate,
            ) == sigma,
            _ => crate::strategy::volatility_of(state, estimate)@ == 45real / 100real,
        },
{
    value_of(45, 2);
}

} // verus!
