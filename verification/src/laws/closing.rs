//! What the end of a window does.

use vstd::prelude::*;
use crate::decimal::Decimal;
use crate::decimal::{adds_exactly, dec, subtracts_exactly};
use crate::decimal::{kept_difference_is_exact, kept_sum_is_exact, nothing_is_left_of_a_whole};
use crate::decimal::{an_exact_difference_leaves_the_rest, small_numbers_are_exact};
use crate::laws::numbers::{adds_product_exactly, max, products_add_up, value_of};
use crate::laws::orders::is_fair_value;
use crate::laws::snapshots::quotes_lie_around;
use crate::laws::ticks::is_cancelled_from;
use crate::orders::{live_count, live_exposure};
use crate::rules::simulated_bid;
use crate::strategy::{StrategyState, WindowSummary, salvage_changes_no_orders};
use crate::types::Side;

verus! {

/// The last merge of a window where one side is held in excess of the other, of which there is
/// nothing or a pair at least: afterwards there is the excess of the one side, and nothing of the
/// other.
proof fn the_last_merge_leaves_the_excess(
    state: StrategyState,
    now: i64,
    merged: StrategyState,
    side: Side,
    excess: Decimal,
)
    requires
        state.after_last_merge(now) == Some(merged),
        ({
            let (own, other) = match side {
                Side::Up => (state.engine.up.shares, state.engine.down.shares),
                Side::Down => (state.engine.down.shares, state.engine.up.shares),
            };
            &&& subtracts_exactly(own, other)
            &&& own.minus(other) == Some(excess)
            &&& other@ < own@
            &&& other@ == 0real || 1real <= other@
        }),
    ensures
        match side {
            Side::Up => merged.engine.up.shares == excess && excess@ == state.engine.up.shares@
                - state.engine.down.shares@ && merged.engine.down.shares.mantissa_int() == 0
                && merged.engine.down.shares@ == 0real,
            Side::Down => merged.engine.down.shares == excess && excess@
                == state.engine.down.shares@ - state.engine.up.shares@
                && merged.engine.up.shares.mantissa_int() == 0 && merged.engine.up.shares@ == 0real,
        },
        excess.is_decimal(),
        0real < excess@,
        merged.engine.pnl.total_salvage_revenue == state.engine.pnl.total_salvage_revenue,
        merged.engine.pnl.total_salvage_shares == state.engine.pnl.total_salvage_shares,
        merged.orders == state.orders,
{
    broadcast use crate::decimal::sign_is_that_of_the_mantissa;

    let (own, other) = match side {
        Side::Up => (state.engine.up.shares, state.engine.down.shares),
        Side::Down => (state.engine.down.shares, state.engine.up.shares),
    };
    kept_difference_is_exact(own, other);
    nothing_is_left_of_a_whole(other);
}

/// What is left where one side is sold out and nothing is held of the other.
proof fn an_excess_is_sold_out(
    state: StrategyState,
    side: Side,
    excess: Decimal,
    bid: Decimal,
    after: StrategyState,
)
    requires
        match side {
            Side::Up => state.engine.up.shares == excess && state.engine.down.shares.mantissa_int()
                == 0 && state.engine.down.shares@ == 0real,
            Side::Down => state.engine.down.shares == excess
                && state.engine.up.shares.mantissa_int() == 0 && state.engine.up.shares@ == 0real,
        },
        excess.is_decimal(),
        0real < excess@,
        ({
            let none = match side {
                Side::Up => state.engine.down.shares,
                Side::Down => state.engine.up.shares,
            };
            state.after_excess_sale(side, excess, none, bid) == Some(after)
        }),
        adds_product_exactly(state.engine.pnl.total_salvage_revenue, excess, bid),
    ensures
        match side {
            Side::Up => after.engine.up.shares@ == 0real && after.engine.down == state.engine.down,
            Side::Down => after.engine.down.shares@ == 0real && after.engine.up == state.engine.up,
        },
        after.engine.pnl.total_salvage_revenue@ == state.engine.pnl.total_salvage_revenue@ + excess@
            * bid@,
        excess@ * bid@ > 0real ==> state.risk.after_return(excess.times(bid)->0) == Some(
            after.risk,
        ),
        after.orders == state.orders,
{
    broadcast use crate::decimal::sign_is_that_of_the_mantissa;

    let none = match side {
        Side::Up => state.engine.down.shares,
        Side::Down => state.engine.up.shares,
    };
    assert(excess.minus(none) == Some(excess));
    nothing_is_left_of_a_whole(excess);
    products_add_up(state.engine.pnl.total_salvage_revenue, excess, bid);
}

/// At the end of a window the Up shares in excess of the Down shares bring the fair value of Up less
/// two and a half cents each, and a cent at least. The pairs are merged before, and no shares are
/// left. This is said of windows in which nothing or a pair at least is held of the other side.
#[verifier::rlimit(40)]
pub proof fn excess_up_shares_bring_the_up_price(
    state: StrategyState,
    fair_value_up: Decimal,
    now: i64,
    after: StrategyState,
    summary: WindowSummary,
    excess: Decimal,
    price: Decimal,
)
    requires
        state.after_window(Some(fair_value_up), now) == Some((after, summary)),
        is_fair_value(fair_value_up),
        subtracts_exactly(state.engine.up.shares, state.engine.down.shares),
        state.engine.up.shares.minus(state.engine.down.shares) == Some(excess),
        state.engine.down.shares@ < state.engine.up.shares@,
        state.engine.down.shares@ == 0real || 1real <= state.engine.down.shares@,
        fair_value_up.minus(dec(25, 3)) matches Some(below) && price == (if below@ < 1real
            / 100real {
            dec(1, 2)
        } else {
            below
        }),
        adds_product_exactly(state.engine.pnl.total_salvage_revenue, excess, price),
    ensures
        price@ == max(fair_value_up@ - 25real / 1000real, 1real / 100real),
        after.engine.pnl.total_salvage_revenue@ == state.engine.pnl.total_salvage_revenue@ + (
        state.engine.up.shares@ - state.engine.down.shares@) * price@,
        after.engine.up.shares@ == 0real,
        after.engine.down.shares@ == 0real,
        summary.pnl.total_salvage_revenue == after.engine.pnl.total_salvage_revenue,
{
    value_of(1, 0);
    value_of(1, 2);
    value_of(25, 3);
    small_numbers_are_exact(dec(1, 0), fair_value_up);
    small_numbers_are_exact(fair_value_up, dec(25, 3));
    let fair_value_down = dec(1, 0).minus(fair_value_up)->0;
    quotes_lie_around(fair_value_up);
    quotes_lie_around(fair_value_down);
    let merged = state.after_last_merge(now)->0;
    the_last_merge_leaves_the_excess(state, now, merged, Side::Up, excess);
    let (up_bid, down_bid) = (simulated_bid(fair_value_up)->0, simulated_bid(fair_value_down)->0);
    assert(up_bid == price);
    let none = merged.engine.down.shares;
    let up_sold = merged.after_excess_sale(Side::Up, excess, none, up_bid)->0;
    an_excess_is_sold_out(merged, Side::Up, excess, up_bid, up_sold);
    assert(up_sold.after_excess_sale(Side::Down, none, excess, down_bid) == Some(up_sold));
    assert(up_sold.after_pair_sale(up_bid, down_bid) == Some(up_sold));
    assert(merged.after_salvage(Some(fair_value_up)) == Some(up_sold));
}

/// At the end of a window the Down shares in excess of the Up shares bring the fair value of Down, a
/// dollar less that of Up, less two and a half cents each, and a cent at least. The pairs are merged
/// before, and no shares are left. This is said of windows in which nothing or a pair at least is
/// held of the other side.
#[verifier::rlimit(40)]
pub proof fn excess_down_shares_bring_the_down_price(
    state: StrategyState,
    fair_value_up: Decimal,
    now: i64,
    after: StrategyState,
    summary: WindowSummary,
    excess: Decimal,
    price: Decimal,
)
    requires
        state.after_window(Some(fair_value_up), now) == Some((after, summary)),
        is_fair_value(fair_value_up),
        subtracts_exactly(state.engine.down.shares, state.engine.up.shares),
        state.engine.down.shares.minus(state.engine.up.shares) == Some(excess),
        state.engine.up.shares@ < state.engine.down.shares@,
        state.engine.up.shares@ == 0real || 1real <= state.engine.up.shares@,
        dec(1, 0).minus(fair_value_up) matches Some(fair_value_down) && (fair_value_down.minus(
            dec(25, 3),
        ) matches Some(below) && price == (if below@ < 1real / 100real {
            dec(1, 2)
        } else {
            below
        })),
        adds_product_exactly(state.engine.pnl.total_salvage_revenue, excess, price),
    ensures
        price@ == max(1real - fair_value_up@ - 25real / 1000real, 1real / 100real),
        after.engine.pnl.total_salvage_revenue@ == state.engine.pnl.total_salvage_revenue@ + (
        state.engine.down.shares@ - state.engine.up.shares@) * price@,
        after.engine.up.shares@ == 0real,
        after.engine.down.shares@ == 0real,
        summary.pnl.total_salvage_revenue == after.engine.pnl.total_salvage_revenue,
{
    value_of(1, 0);
    value_of(1, 2);
    value_of(25, 3);
    small_numbers_are_exact(dec(1, 0), fair_value_up);
    let fair_value_down = dec(1, 0).minus(fair_value_up)->0;
    small_numbers_are_exact(fair_value_down, dec(25, 3));
    quotes_lie_around(fair_value_up);
    quotes_lie_around(fair_value_down);
    let merged = state.after_last_merge(now)->0;
    the_last_merge_leaves_the_excess(state, now, merged, Side::Down, excess);
    let (up_bid, down_bid) = (simulated_bid(fair_value_up)->0, simulated_bid(fair_value_down)->0);
    assert(down_bid == price);
    let none = merged.engine.up.shares;
    assert(merged.after_excess_sale(Side::Up, none, excess, up_bid) == Some(merged));
    let down_sold = merged.after_excess_sale(Side::Down, excess, none, down_bid)->0;
    an_excess_is_sold_out(merged, Side::Down, excess, down_bid, down_sold);
    assert(down_sold.after_pair_sale(up_bid, down_bid) == Some(down_sold));
    assert(merged.after_salvage(Some(fair_value_up)) == Some(down_sold));
}

/// Where less than a pair is left of both sides alike, the Up shares bring the fair value of Up less
/// two and a half cents each, and the Down shares that of Down, and a cent at least.
#[verifier::rlimit(40)]
pub proof fn the_rest_of_a_pair_brings_both_prices(
    state: StrategyState,
    fair_value_up: Decimal,
    now: i64,
    after: StrategyState,
    summary: WindowSummary,
    up_price: Decimal,
    down_price: Decimal,
)
    requires
        state.after_window(Some(fair_value_up), now) == Some((after, summary)),
        is_fair_value(fair_value_up),
        state.engine.up.shares == state.engine.down.shares,
        state.engine.up.shares.is_decimal(),
        0real < state.engine.up.shares@ < 1real,
        simulated_bid(fair_value_up) == Some(up_price),
        dec(1, 0).minus(fair_value_up) matches Some(fair_value_down) && simulated_bid(
            fair_value_down,
        ) == Some(down_price),
        adds_product_exactly(
            state.engine.pnl.total_salvage_revenue,
            state.engine.up.shares,
            up_price,
        ),
        adds_product_exactly(
            state.engine.pnl.total_salvage_revenue.plus(
                state.engine.up.shares.times(up_price)->0,
            )->0,
            state.engine.up.shares,
            down_price,
        ),
    ensures
        up_price@ == max(fair_value_up@ - 25real / 1000real, 1real / 100real),
        down_price@ == max(1real - fair_value_up@ - 25real / 1000real, 1real / 100real),
        after.engine.pnl.total_salvage_revenue@ == state.engine.pnl.total_salvage_revenue@
            + state.engine.up.shares@ * up_price@ + state.engine.up.shares@ * down_price@,
        after.engine.up.shares@ == 0real,
        after.engine.down.shares@ == 0real,
{
    value_of(1, 0);
    small_numbers_are_exact(dec(1, 0), fair_value_up);
    let fair_value_down = dec(1, 0).minus(fair_value_up)->0;
    quotes_lie_around(fair_value_up);
    quotes_lie_around(fair_value_down);
    let shares = state.engine.up.shares;
    nothing_is_left_of_a_whole(shares);
    products_add_up(state.engine.pnl.total_salvage_revenue, shares, up_price);
    let part = state.engine.pnl.total_salvage_revenue.plus(shares.times(up_price)->0)->0;
    products_add_up(part, shares, down_price);
    let merged = state.after_last_merge(now)->0;
    assert(merged == StrategyState { engine: state.engine, ..state });
    assert(merged.after_salvage(Some(fair_value_up)) == merged.after_pair_sale(
        up_price,
        down_price,
    ));
}

/// Where less than a pair is held of one side and more of the other, the excess of that other side
/// brings its own price, and what is left of both sides brings the prices of both.
#[verifier::rlimit(40)]
pub proof fn an_excess_and_a_rest_bring_their_prices(
    state: StrategyState,
    fair_value_up: Decimal,
    now: i64,
    after: StrategyState,
    summary: WindowSummary,
    side: Side,
    excess: Decimal,
    rest: Decimal,
    up_price: Decimal,
    down_price: Decimal,
)
    requires
        state.after_window(Some(fair_value_up), now) == Some((after, summary)),
        is_fair_value(fair_value_up),
        simulated_bid(fair_value_up) == Some(up_price),
        dec(1, 0).minus(fair_value_up) matches Some(fair_value_down) && simulated_bid(
            fair_value_down,
        ) == Some(down_price),
        ({
            let (own, other, price) = match side {
                Side::Up => (state.engine.up.shares, state.engine.down.shares, up_price),
                Side::Down => (state.engine.down.shares, state.engine.up.shares, down_price),
            };
            let revenue = state.engine.pnl.total_salvage_revenue;
            let first = revenue.plus(excess.times(price)->0)->0;
            let second = first.plus(rest.times(up_price)->0)->0;
            &&& 0real < other@ < 1real
            &&& other@ < own@
            &&& subtracts_exactly(own, other)
            &&& own.minus(other) == Some(excess)
            &&& match side {
                Side::Up => own.minus(excess) == Some(rest),
                Side::Down => rest == other,
            }
            &&& adds_product_exactly(revenue, excess, price)
            &&& adds_product_exactly(first, rest, up_price)
            &&& adds_product_exactly(second, rest, down_price)
        }),
    ensures
        up_price@ == max(fair_value_up@ - 25real / 1000real, 1real / 100real),
        down_price@ == max(1real - fair_value_up@ - 25real / 1000real, 1real / 100real),
        ({
            let (up, down) = (state.engine.up.shares@, state.engine.down.shares@);
            after.engine.pnl.total_salvage_revenue@ == state.engine.pnl.total_salvage_revenue@
                + match side {
                Side::Up => (up - down) * up_price@ + down * up_price@ + down * down_price@,
                Side::Down => (down - up) * down_price@ + up * up_price@ + up * down_price@,
            }
        }),
{
    value_of(1, 0);
    small_numbers_are_exact(dec(1, 0), fair_value_up);
    let fair_value_down = dec(1, 0).minus(fair_value_up)->0;
    quotes_lie_around(fair_value_up);
    quotes_lie_around(fair_value_down);
    let (own, other, price) = match side {
        Side::Up => (state.engine.up.shares, state.engine.down.shares, up_price),
        Side::Down => (state.engine.down.shares, state.engine.up.shares, down_price),
    };
    kept_difference_is_exact(own, other);
    an_exact_difference_leaves_the_rest(own, other);
    let left = own.minus(excess)->0;
    let revenue = state.engine.pnl.total_salvage_revenue;
    products_add_up(revenue, excess, price);
    let first = revenue.plus(excess.times(price)->0)->0;
    products_add_up(first, rest, up_price);
    let second = first.plus(rest.times(up_price)->0)->0;
    products_add_up(second, rest, down_price);
    let merged = state.after_last_merge(now)->0;
    assert(merged == StrategyState { engine: state.engine, ..state });
    let (up, down) = (state.engine.up.shares, state.engine.down.shares);
    let up_sold = merged.after_excess_sale(Side::Up, up, down, up_price)->0;
    let sold = up_sold.after_excess_sale(Side::Down, down, up, down_price)->0;
    assert(sold.engine.pnl.total_salvage_revenue == first);
    match side {
        Side::Up => {
            assert(sold.engine.up.shares == rest && sold.engine.down.shares == down);
        },
        Side::Down => {
            assert(sold.engine.down.shares == left && sold.engine.up.shares == rest);
        },
    }
    assert(sold.engine.pairs() == rest);
    let done = sold.after_pair_sale(up_price, down_price)->0;
    assert(merged.after_salvage(Some(fair_value_up)) == Some(done));
    assert(done.engine.pnl.total_salvage_revenue@ == second@ + rest@ * down_price@);
}

/// At the end of a window the proceeds of a sale come back as capital, if there are any, and nothing
/// but the positions changes besides.
pub proof fn proceeds_are_capital(
    state: StrategyState,
    side: Side,
    own: Decimal,
    other: Decimal,
    bid: Decimal,
    after: StrategyState,
    excess: Decimal,
)
    requires
        state.after_excess_sale(side, own, other, bid) == Some(after),
        other@ < own@,
        own.minus(other) == Some(excess),
    ensures
        state.engine.after_salvage(side, excess, bid) matches Some((engine, proceeds)) && {
            &&& after.engine == engine
            &&& proceeds@ > 0real ==> state.risk.after_return(proceeds) == Some(after.risk)
            &&& proceeds@ <= 0real ==> after.risk == state.risk
        },
        after == (StrategyState { engine: after.engine, risk: after.risk, ..state }),
{
}

/// What both shares of the rest of a pair bring comes back as capital together.
#[verifier::rlimit(40)]
pub proof fn proceeds_of_both_sides_are_capital(
    state: StrategyState,
    up_price: Decimal,
    down_price: Decimal,
    after: StrategyState,
    up_sold: crate::merge::EngineState,
    up_proceeds: Decimal,
    down_proceeds: Decimal,
    pairs: Decimal,
)
    requires
        state.after_pair_sale(up_price, down_price) == Some(after),
        pairs == (if state.engine.down.shares@ < state.engine.up.shares@ {
            state.engine.down.shares
        } else {
            state.engine.up.shares
        }),
        0real < pairs@,
        state.engine.after_salvage(Side::Up, pairs, up_price) == Some((up_sold, up_proceeds)),
        up_sold.after_salvage(Side::Down, pairs, down_price) == Some((after.engine, down_proceeds)),
        adds_exactly(up_proceeds, down_proceeds),
        up_proceeds.plus(down_proceeds) matches Some(total) ==> adds_exactly(
            state.risk.available_capital,
            total,
        ),
    ensures
        0real < up_proceeds@ + down_proceeds@ ==> after.risk.available_capital@
            == state.risk.available_capital@ + up_proceeds@ + down_proceeds@,
        up_proceeds@ + down_proceeds@ <= 0real ==> after.risk == state.risk,
        after == (StrategyState { engine: after.engine, risk: after.risk, ..state }),
{
    kept_sum_is_exact(up_proceeds, down_proceeds);
    kept_sum_is_exact(state.risk.available_capital, up_proceeds.plus(down_proceeds)->0);
}

/// The end of a window cancels every order that can still be filled, and no other. Their number and
/// what their unfilled shares would have cost are part of the results.
pub proof fn the_end_of_a_window_cancels_all_orders(
    state: StrategyState,
    fair_value_up: Option<Decimal>,
    now: i64,
    after: StrategyState,
    summary: WindowSummary,
    i: int,
)
    requires
        state.after_window(fair_value_up, now) == Some((after, summary)),
        0 <= i < state.orders.orders.len(),
    ensures
        is_cancelled_from(state.orders.orders[i], after.orders.orders[i]),
        after.orders.orders.len() == state.orders.orders.len(),
        summary.cancelled == live_count(state.orders.orders),
        live_exposure(state.orders.orders) == Some(summary.released),
{
    let merged = state.after_last_merge(now)->0;
    salvage_changes_no_orders(merged, fair_value_up);
}

/// What the orders that are cancelled at the end of a window would have cost comes back as capital.
pub proof fn cancelled_orders_give_back_their_exposure(
    state: StrategyState,
    after: StrategyState,
    cancelled: u32,
    released: Decimal,
)
    requires
        state.after_closing_orders() == Some((after, cancelled, released)),
    ensures
        cancelled == live_count(state.orders.orders),
        live_exposure(state.orders.orders) == Some(released),
        cancelled > 0 ==> state.risk.after_return(released) == Some(after.risk),
        cancelled == 0 ==> after.risk == state.risk,
        after == (StrategyState { orders: after.orders, risk: after.risk, ..state }),
{
}

/// The results of a window: what is left unmerged cost what both positions cost; the salvage loss is
/// what the sold shares cost less what they brought; and the net profit and loss is the profit of the
/// merges less both. The pairs are those merged since the window started.
#[verifier::rlimit(40)]
pub proof fn the_results_add_up(
    state: StrategyState,
    fair_value_up: Option<Decimal>,
    now: i64,
    after: StrategyState,
    summary: WindowSummary,
)
    requires
        state.after_window(fair_value_up, now) == Some((after, summary)),
        adds_exactly(after.engine.up.total_cost, after.engine.down.total_cost),
        subtracts_exactly(
            after.engine.pnl.total_salvage_cost_basis,
            after.engine.pnl.total_salvage_revenue,
        ),
        subtracts_exactly(after.engine.pnl.total_pairs, state.pairs_before),
        subtracts_exactly(after.engine.pnl.total_profit, summary.salvage_loss),
        after.engine.pnl.total_profit.minus(summary.salvage_loss) matches Some(part)
            ==> subtracts_exactly(part, summary.unmerged_cost),
    ensures
        summary.unmerged_cost@ == after.engine.up.total_cost@ + after.engine.down.total_cost@,
        summary.salvage_loss@ == after.engine.pnl.total_salvage_cost_basis@
            - after.engine.pnl.total_salvage_revenue@,
        summary.net_pnl@ == after.engine.pnl.total_profit@ - summary.salvage_loss@
            - summary.unmerged_cost@,
        summary.pairs_merged@ == after.engine.pnl.total_pairs@ - state.pairs_before@,
        summary.orders_placed == state.window_orders,
        summary.up == after.engine.up,
        summary.down == after.engine.down,
        summary.pnl == after.engine.pnl,
{
    let pnl = after.engine.pnl;
    let merged = state.after_last_merge(now)->0;
    let sold = merged.after_salvage(fair_value_up)->0;
    salvage_changes_no_orders(merged, fair_value_up);
    salvage_keeps_the_start(merged, fair_value_up, sold);
    kept_sum_is_exact(after.engine.up.total_cost, after.engine.down.total_cost);
    kept_difference_is_exact(pnl.total_salvage_cost_basis, pnl.total_salvage_revenue);
    kept_difference_is_exact(pnl.total_pairs, state.pairs_before);
    kept_difference_is_exact(pnl.total_profit, summary.salvage_loss);
    kept_difference_is_exact(pnl.total_profit.minus(summary.salvage_loss)->0, summary.unmerged_cost);
}

/// Selling what is left does not change what was merged before the window, the ticks and the cash.
proof fn salvage_keeps_the_start(
    state: StrategyState,
    fair_value_up: Option<Decimal>,
    after: StrategyState,
)
    requires
        state.after_salvage(fair_value_up) == Some(after),
    ensures
        after.pairs_before == state.pairs_before,
        after.window_orders == state.window_orders,
        after.window_cash_pnl == state.window_cash_pnl,
        after.samples == state.samples,
        after.current_tick == state.current_tick,
        after.last_merge_tick == state.last_merge_tick,
{
    let (up, down) = (state.engine.up.shares, state.engine.down.shares);
    if let Some(fair) = fair_value_up {
        if up@ > 0real || down@ > 0real {
            let (up_bid, down_bid) = (
                simulated_bid(fair)->0,
                simulated_bid(dec(1, 0).minus(fair)->0)->0,
            );
            let up_sold = state.after_excess_sale(Side::Up, up, down, up_bid)->0;
            an_excess_sale_keeps_the_start(state, Side::Up, up, down, up_bid);
            let sold = up_sold.after_excess_sale(Side::Down, down, up, down_bid)->0;
            an_excess_sale_keeps_the_start(up_sold, Side::Down, down, up, down_bid);
        }
    }
}

/// Selling an excess does not change what was merged before the window, the ticks and the cash.
proof fn an_excess_sale_keeps_the_start(
    state: StrategyState,
    side: Side,
    own: Decimal,
    other: Decimal,
    bid: Decimal,
)
    ensures
        state.after_excess_sale(side, own, other, bid) matches Some(after) ==> after.pairs_before
            == state.pairs_before && after.window_orders == state.window_orders
            && after.window_cash_pnl == state.window_cash_pnl && after.samples == state.samples
            && after.current_tick == state.current_tick && after.last_merge_tick
            == state.last_merge_tick,
{
}

/// Without a fair value nothing is sold at the end of a window: what is left unmerged stays as the
/// last merge left it.
pub proof fn without_a_price_nothing_is_sold(
    state: StrategyState,
    now: i64,
    after: StrategyState,
    summary: WindowSummary,
)
    requires
        state.after_window(None, now) == Some((after, summary)),
    ensures
        state.engine.after_merge(now) matches Some((engine, _)) && after.engine == engine,
{
}

/// The last merge of a window is recorded with the risk manager as any other is.
pub proof fn the_last_merge_is_recorded(state: StrategyState, now: i64, merged: StrategyState)
    requires
        state.after_last_merge(now) == Some(merged),
    ensures
        match state.engine.after_merge(now) {
            Some((engine, Some(merge))) => merged.engine == engine && state.risk.after_merge(
                merge.profit,
                merge.total_cost,
            ) == Some(merged.risk),
            Some((engine, None)) => merged.engine == engine && merged.risk == state.risk,
            None => false,
        },
        merged == (StrategyState { engine: merged.engine, risk: merged.risk, ..state }),
{
}

} // verus!
