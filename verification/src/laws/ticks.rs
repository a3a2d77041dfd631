//! What a tick does.

use vstd::prelude::*;
use crate::decimal::Decimal;
use crate::decimal::{kept_difference_is_exact, subtracts_exactly};
use crate::laws::numbers::{adds_product_exactly, max, products_add_up, value_of};
use crate::orders::live_count;
use crate::rules::MarketSnapshot;
use crate::strategy::{StrategyState, TickStart};
use crate::types::{OrderState, OrderStatus};

verus! {

/// Whether cash and the worth of some Up and some Down shares are summed up without rounding.
pub open spec fn sums_up_exactly(
    cash: Decimal,
    up_shares: Decimal,
    up_value: Decimal,
    down_shares: Decimal,
    down_value: Decimal,
) -> bool {
    &&& adds_product_exactly(cash, up_shares, up_value)
    &&& up_shares.times(up_value) matches Some(up_worth) ==> (cash.plus(
        up_worth,
    ) matches Some(part) ==> adds_product_exactly(part, down_shares, down_value))
}

/// The mark-to-market of a window is its cash, with the Up shares at the fair value of Up and the
/// Down shares at the fair value of Down.
pub proof fn the_mark_is_cash_and_worth(state: StrategyState, snapshot: MarketSnapshot)
    requires
        sums_up_exactly(
            state.window_cash_pnl,
            state.engine.up.shares,
            snapshot.fair_value_up,
            state.engine.down.shares,
            snapshot.fair_value_down,
        ),
    ensures
        state.mark_to_market(snapshot) matches Some(mark) && mark@ == state.window_cash_pnl@
            + state.engine.up.shares@ * snapshot.fair_value_up@ + state.engine.down.shares@
            * snapshot.fair_value_down@,
{
    let (up, down) = (state.engine.up.shares, state.engine.down.shares);
    products_add_up(state.window_cash_pnl, up, snapshot.fair_value_up);
    let part = state.window_cash_pnl.plus(up.times(snapshot.fair_value_up)->0)->0;
    products_add_up(part, down, snapshot.fair_value_down);
}

/// Exchanging the two positions together with the two fair values leaves the mark-to-market as it
/// is.
pub proof fn both_sides_are_marked_alike(
    state: StrategyState,
    exchanged: StrategyState,
    snapshot: MarketSnapshot,
    mirrored: MarketSnapshot,
)
    requires
        exchanged.window_cash_pnl == state.window_cash_pnl,
        exchanged.engine.up.shares == state.engine.down.shares,
        exchanged.engine.down.shares == state.engine.up.shares,
        mirrored.fair_value_up == snapshot.fair_value_down,
        mirrored.fair_value_down == snapshot.fair_value_up,
        sums_up_exactly(
            state.window_cash_pnl,
            state.engine.up.shares,
            snapshot.fair_value_up,
            state.engine.down.shares,
            snapshot.fair_value_down,
        ),
        sums_up_exactly(
            state.window_cash_pnl,
            state.engine.down.shares,
            snapshot.fair_value_down,
            state.engine.up.shares,
            snapshot.fair_value_up,
        ),
    ensures
        state.mark_to_market(snapshot) matches Some(mark) && (exchanged.mark_to_market(
            mirrored,
        ) matches Some(other) && other@ == mark@),
{
    the_mark_is_cash_and_worth(state, snapshot);
    the_mark_is_cash_and_worth(exchanged, mirrored);
}

/// A tick that is not halted lets orders be placed exactly if the window is worth minus three
/// dollars or more and no merge was made in the tick before. The window is worth its cash, with the
/// Up shares at the fair value of Up and the Down shares at that of Down. Nothing is sold and no
/// order is cancelled unless the window is worth less, and at most 90 seconds are left.
pub proof fn a_loss_of_three_dollars_stops_orders(
    state: StrategyState,
    snapshot: MarketSnapshot,
    after: StrategyState,
    start: TickStart,
)
    requires
        state.after_tick_start(snapshot) == Some((after, start)),
        !state.risk.halted,
        sums_up_exactly(
            state.window_cash_pnl,
            state.engine.up.shares,
            snapshot.fair_value_up,
            state.engine.down.shares,
            snapshot.fair_value_down,
        ),
    ensures
        ({
            let worth = state.window_cash_pnl@ + state.engine.up.shares@ * snapshot.fair_value_up@
                + state.engine.down.shares@ * snapshot.fair_value_down@;
            let paused = state.last_merge_tick > 0 && state.current_tick + 1
                < state.last_merge_tick + 2;
            &&& start.may_order <==> -3real <= worth && !paused
            &&& -3real <= worth || 90 < snapshot.remaining_secs ==> start.cancelled == 0 && after
                == (StrategyState { current_tick: (state.current_tick + 1) as u64, ..state })
        }),
        !start.halted,
{
    the_mark_is_cash_and_worth(state, snapshot);
    let next = state.next_tick()->0;
    assert(next.mark_to_market(snapshot) == state.mark_to_market(snapshot));
    value_of(-3, 0);
}

/// An order as it is after all orders were cancelled.
pub open spec fn is_cancelled_from(before: OrderState, after: OrderState) -> bool {
    let live = before.status == OrderStatus::Open || before.status == OrderStatus::PartialFill;
    after == if live {
        OrderState { status: OrderStatus::Cancelled, ..before }
    } else {
        before
    }
}

/// With at most 90 seconds left and a worth below minus three dollars, the Up shares in excess of
/// the Down shares are sold at the best bid for Up, or at a cent if that is more. Both sides are
/// then held alike, the proceeds are cash, and all orders are cancelled.
#[verifier::rlimit(40)]
pub proof fn excess_up_shares_are_sold_at_the_up_bid(
    state: StrategyState,
    snapshot: MarketSnapshot,
    after: StrategyState,
    start: TickStart,
    bid: Decimal,
    excess: Decimal,
    price: Decimal,
)
    requires
        state.after_tick_start(snapshot) == Some((after, start)),
        !state.risk.halted,
        sums_up_exactly(
            state.window_cash_pnl,
            state.engine.up.shares,
            snapshot.fair_value_up,
            state.engine.down.shares,
            snapshot.fair_value_down,
        ),
        state.window_cash_pnl@ + state.engine.up.shares@ * snapshot.fair_value_up@
            + state.engine.down.shares@ * snapshot.fair_value_down@ < -3real,
        snapshot.remaining_secs <= 90,
        0real <= state.engine.down.shares@ < state.engine.up.shares@,
        snapshot.up_best_bid == Some(bid),
        subtracts_exactly(state.engine.up.shares, state.engine.down.shares),
        state.engine.up.shares.minus(state.engine.down.shares) == Some(excess),
        price == (if bid@ < 1real / 100real {
            crate::decimal::dec(1, 2)
        } else {
            bid
        }),
        adds_product_exactly(state.window_cash_pnl, excess, price),
    ensures
        excess@ == state.engine.up.shares@ - state.engine.down.shares@,
        price@ == max(bid@, 1real / 100real),
        after.engine.up.shares@ == state.engine.down.shares@,
        after.engine.down == state.engine.down,
        after.window_cash_pnl@ == state.window_cash_pnl@ + excess@ * price@,
        !start.may_order,
        start.cancelled == live_count(state.orders.orders),
        after.orders.orders.len() == state.orders.orders.len(),
        forall|i: int|
            0 <= i < state.orders.orders.len() ==> is_cancelled_from(
                state.orders.orders[i],
                #[trigger] after.orders.orders[i],
            ),
{
    a_loss_of_three_dollars_stops_orders(state, snapshot, after, start);
    the_mark_is_cash_and_worth(state, snapshot);
    value_of(-3, 0);
    value_of(1, 2);
    let next = state.next_tick()->0;
    assert(next.mark_to_market(snapshot) == state.mark_to_market(snapshot));
    kept_difference_is_exact(state.engine.up.shares, state.engine.down.shares);
    crate::decimal::an_exact_difference_leaves_the_rest(
        state.engine.up.shares,
        state.engine.down.shares,
    );
    products_add_up(state.window_cash_pnl, excess, price);
    assert(next.after_loss_cut(crate::types::Side::Up, excess, Some(bid)) is Some);
    let (e, p) = (excess@, price@);
    assert(e * p > 0real) by (nonlinear_arith)
        requires
            e > 0real,
            p > 0real,
    ;
}

/// With at most 90 seconds left and a worth below minus three dollars, the Down shares in excess of
/// the Up shares are sold at the best bid for Down, or at a cent if that is more. Both sides are
/// then held alike, the proceeds are cash, and all orders are cancelled.
#[verifier::rlimit(40)]
pub proof fn excess_down_shares_are_sold_at_the_down_bid(
    state: StrategyState,
    snapshot: MarketSnapshot,
    after: StrategyState,
    start: TickStart,
    bid: Decimal,
    excess: Decimal,
    price: Decimal,
)
    requires
        state.after_tick_start(snapshot) == Some((after, start)),
        !state.risk.halted,
        sums_up_exactly(
            state.window_cash_pnl,
            state.engine.up.shares,
            snapshot.fair_value_up,
            state.engine.down.shares,
            snapshot.fair_value_down,
        ),
        state.window_cash_pnl@ + state.engine.up.shares@ * snapshot.fair_value_up@
            + state.engine.down.shares@ * snapshot.fair_value_down@ < -3real,
        snapshot.remaining_secs <= 90,
        0real <= state.engine.up.shares@ < state.engine.down.shares@,
        snapshot.down_best_bid == Some(bid),
        subtracts_exactly(state.engine.down.shares, state.engine.up.shares),
        state.engine.down.shares.minus(state.engine.up.shares) == Some(excess),
        price == (if bid@ < 1real / 100real {
            crate::decimal::dec(1, 2)
        } else {
            bid
        }),
        adds_product_exactly(state.window_cash_pnl, excess, price),
    ensures
        excess@ == state.engine.down.shares@ - state.engine.up.shares@,
        price@ == max(bid@, 1real / 100real),
        after.engine.down.shares@ == state.engine.up.shares@,
        after.engine.up == state.engine.up,
        after.window_cash_pnl@ == state.window_cash_pnl@ + excess@ * price@,
        !start.may_order,
        start.cancelled == live_count(state.orders.orders),
        after.orders.orders.len() == state.orders.orders.len(),
        forall|i: int|
            0 <= i < state.orders.orders.len() ==> is_cancelled_from(
                state.orders.orders[i],
                #[trigger] after.orders.orders[i],
            ),
{
    a_loss_of_three_dollars_stops_orders(state, snapshot, after, start);
    the_mark_is_cash_and_worth(state, snapshot);
    value_of(-3, 0);
    value_of(1, 2);
    let next = state.next_tick()->0;
    assert(next.mark_to_market(snapshot) == state.mark_to_market(snapshot));
    let (up, down) = (state.engine.up.shares, state.engine.down.shares);
    kept_difference_is_exact(down, up);
    crate::decimal::exact_differences_are_symmetric(down, up);
    kept_difference_is_exact(up, down);
    crate::decimal::an_exact_difference_leaves_the_rest(down, up);
    products_add_up(state.window_cash_pnl, excess, price);
    assert(next.after_loss_cut(crate::types::Side::Down, excess, Some(bid)) is Some);
    let (e, p) = (excess@, price@);
    assert(e * p > 0real) by (nonlinear_arith)
        requires
            e > 0real,
            p > 0real,
    ;
}

} // verus!
