//! What becomes of orders.

use vstd::prelude::*;
use crate::decimal::Decimal;
use crate::decimal::{adds_exactly, dec, subtracts_exactly};
use crate::decimal::{kept_difference_is_exact, kept_product_is_exact, kept_sum_is_exact};
use crate::decimal::small_numbers_are_exact;
use crate::laws::numbers::{adds_product_exactly, min, multiplies_exactly, products_add_up, value_of};
use crate::laws::snapshots::quotes_lie_around;
use crate::orders::{OrdersState, StaleRule, distinct_ids, filled_ids, filled_totals, has_id};
use crate::orders::{an_id_has_a_first_order, index_of, is_fillable, is_first_with, live_count};
use crate::orders::{live_count_of, live_exposure, order_error, order_with, pending_shares};
use crate::orders::{OrderError, stale_orders_are_old};
use crate::rules::{MarketSnapshot, simulated_ask};
use crate::strategy::{OrderPlan, Proposal, StrategyState, a_stop_loss_changes_no_orders};
use crate::strategy::fills_change_positions_and_cash;
use crate::types::{Market, OrderState, OrderStatus, Side};

verus! {

/// Whether an order can still be filled: it is open, or filled in part.
pub open spec fn is_open(order: OrderState) -> bool {
    order.status == OrderStatus::Open || order.status == OrderStatus::PartialFill
}

/// Whether an order is past its use: it can still be filled, is older than a number of milliseconds,
/// and the given ask is missing or further above its price than a gap.
pub open spec fn is_past_use(
    order: OrderState,
    now: i64,
    millis: int,
    ask: Option<Decimal>,
    gap: real,
) -> bool {
    is_open(order) && now - order.created_at > millis && match ask {
        Some(price) => price@ > order.price@ + gap,
        None => true,
    }
}

/// Whether three cents are added to a price without rounding, as they are to every price that an
/// order may have.
pub open spec fn takes_three_cents(price: Decimal) -> bool {
    price.is_decimal() && 0real < price@ < 1real || adds_exactly(price, dec(3, 2))
}

/// Three cents above a price.
proof fn three_cents_above(price: Decimal)
    requires
        takes_three_cents(price),
    ensures
        price.plus(dec(3, 2)) matches Some(limit) && limit@ == price@ + 3real / 100real,
{
    value_of(3, 2);
    if 0real < price@ < 1real {
        if price.is_decimal() {
            small_numbers_are_exact(price, dec(3, 2));
        }
    }
    kept_sum_is_exact(price, dec(3, 2));
}

/// The orders after stale ones were cancelled at the end of a tick: an order is cancelled exactly if
/// it can still be filled, is older than 30 seconds, and the best ask of its own side is missing or
/// more than three cents above its price. All other orders stay as they are.
proof fn stale_orders_of_a_tick(
    state: StrategyState,
    snapshot: MarketSnapshot,
    now: i64,
    fresh: StrategyState,
    i: int,
)
    requires
        state.after_stale(snapshot, now) == Some(fresh),
        0 <= i < state.orders.orders.len(),
        takes_three_cents(state.orders.orders[i].price),
    ensures
        fresh.orders.orders.len() == state.orders.orders.len(),
        ({
            let order = state.orders.orders[i];
            let ask = match order.side {
                Side::Up => snapshot.up_best_ask,
                Side::Down => snapshot.down_best_ask,
            };
            fresh.orders.orders[i] == if is_past_use(order, now, 30_000, ask, 3real / 100real) {
                OrderState { status: OrderStatus::Cancelled, ..order }
            } else {
                order
            }
        }),
{
    let rule = StrategyState::stale_rule(snapshot, now);
    stale_orders_are_old(state.orders.orders, rule);
    three_cents_above(state.orders.orders[i].price);
}

/// What follows the stale orders in a tick leaves all orders as they are, but for those that are
/// filled in dry-run mode.
proof fn only_matching_changes_fresh_orders(
    state: StrategyState,
    market: Market,
    snapshot: MarketSnapshot,
    now: i64,
    after: StrategyState,
)
    requires
        state.after_tick_end(market, snapshot, now) == Some(after),
    ensures
        state.after_stale(snapshot, now) matches Some(fresh) && after.orders
            == if state.config.dry_run {
            fresh.orders.after_fills(
                market.up_token_id@,
                simulated_ask(snapshot.fair_value_up),
            ).after_fills(market.down_token_id@, simulated_ask(snapshot.fair_value_down))
        } else {
            fresh.orders
        },
{
    let fresh = state.after_stale(snapshot, now)->0;
    let filled = if state.config.dry_run {
        fresh.after_matching(market, snapshot)->0
    } else {
        fresh
    };
    if state.config.dry_run {
        assert forall|s: StrategyState, side: Side, ids: Seq<Seq<char>>|
            (#[trigger] s.after_fills(side, ids) matches Some(done) ==> done.orders
                == s.orders) by {
            if let Some(done) = s.after_fills(side, ids) {
                fills_change_positions_and_cash(s, side, ids, done);
            }
        }
    }
    a_stop_loss_changes_no_orders(filled, snapshot);
}

/// At the end of a tick an open order is cancelled exactly if it is older than 30 seconds and the
/// best ask of its own side is missing or more than three cents above its price. So an order whose
/// own side's ask is at or below its price is never cancelled. In live mode all other orders stay as
/// they are.
pub proof fn a_tick_cancels_stale_orders(
    state: StrategyState,
    market: Market,
    snapshot: MarketSnapshot,
    now: i64,
    after: StrategyState,
    i: int,
)
    requires
        state.after_tick_end(market, snapshot, now) == Some(after),
        0 <= i < state.orders.orders.len(),
        takes_three_cents(state.orders.orders[i].price),
    ensures
        after.orders.orders.len() == state.orders.orders.len(),
        ({
            let (order, now_is) = (state.orders.orders[i], after.orders.orders[i]);
            let ask = match order.side {
                Side::Up => snapshot.up_best_ask,
                Side::Down => snapshot.down_best_ask,
            };
            let old = is_open(order) && now - order.created_at > 30_000;
            let far = match ask {
                Some(price) => price@ > order.price@ + 3real / 100real,
                None => true,
            };
            &&& old && far ==> now_is == (OrderState { status: OrderStatus::Cancelled, ..order })
            &&& now_is.status == OrderStatus::Cancelled <==> order.status
                == OrderStatus::Cancelled || old && far
            &&& is_open(order) && (ask matches Some(price) && price@ <= order.price@)
                ==> now_is.status != OrderStatus::Cancelled
            &&& !is_open(order) ==> now_is == order
            &&& !state.config.dry_run && !(old && far) ==> now_is == order
        }),
{
    let fresh = state.after_stale(snapshot, now)->0;
    stale_orders_of_a_tick(state, snapshot, now, fresh, i);
    only_matching_changes_fresh_orders(state, market, snapshot, now, after);
}

/// Whether a fair value is one: from nothing to a dollar.
pub open spec fn is_fair_value(value: Decimal) -> bool {
    value.is_decimal() && 0real <= value@ <= 1real
}

/// In dry-run mode an order that stays open in a tick is filled exactly if two and a half cents above
/// the fair value of its own token, or 99 cents if that is less, is at or below its price. It is
/// filled in full, and at that ask.
#[verifier::rlimit(40)]
pub proof fn a_dry_run_fills_orders_at_the_ask(
    state: StrategyState,
    market: Market,
    snapshot: MarketSnapshot,
    now: i64,
    after: StrategyState,
    i: int,
)
    requires
        state.after_tick_end(market, snapshot, now) == Some(after),
        state.config.dry_run,
        0 <= i < state.orders.orders.len(),
        takes_three_cents(state.orders.orders[i].price),
        is_fair_value(snapshot.fair_value_up),
        is_fair_value(snapshot.fair_value_down),
        market.up_token_id@ != market.down_token_id@,
        ({
            let order = state.orders.orders[i];
            let ask = match order.side {
                Side::Up => snapshot.up_best_ask,
                Side::Down => snapshot.down_best_ask,
            };
            is_open(order) && !is_past_use(order, now, 30_000, ask, 3real / 100real)
        }),
    ensures
        ({
            let (order, now_is) = (state.orders.orders[i], after.orders.orders[i]);
            let up_ask = min(snapshot.fair_value_up@ + 25real / 1000real, 99real / 100real);
            let down_ask = min(snapshot.fair_value_down@ + 25real / 1000real, 99real / 100real);
            let is_up = order.token_id == market.up_token_id@;
            let is_down = order.token_id == market.down_token_id@;
            let ask = if is_up {
                up_ask
            } else {
                down_ask
            };
            if (is_up || is_down) && ask <= order.price@ {
                now_is.fill_price@ == ask && now_is == (OrderState {
                    status: OrderStatus::Filled,
                    filled: order.size,
                    fill_price: now_is.fill_price,
                    ..order
                })
            } else {
                now_is == order
            }
        }),
{
    let fresh = state.after_stale(snapshot, now)->0;
    stale_orders_of_a_tick(state, snapshot, now, fresh, i);
    only_matching_changes_fresh_orders(state, market, snapshot, now, after);
    quotes_lie_around(snapshot.fair_value_up);
    quotes_lie_around(snapshot.fair_value_down);
}

/// The IDs of the filled orders where just one can be filled.
proof fn one_order_is_filled(
    orders: Seq<OrderState>,
    token_id: Seq<char>,
    ask: Option<Decimal>,
    k: int,
)
    requires
        forall|i: int|
            0 <= i < orders.len() ==> (#[trigger] is_fillable(orders[i], token_id, ask) <==> i == k),
    ensures
        filled_ids(orders, token_id, ask) == if 0 <= k < orders.len() {
            seq![orders[k].id]
        } else {
            Seq::<Seq<char>>::empty()
        },
    decreases orders.len(),
{
    if orders.len() > 0 {
        let before = orders.drop_last();
        assert forall|i: int| 0 <= i < before.len() implies (#[trigger] is_fillable(
            before[i],
            token_id,
            ask,
        ) <==> i == k) by {
            assert(is_fillable(orders[i], token_id, ask) <==> i == k);
        }
        one_order_is_filled(before, token_id, ask, k);
        assert(is_fillable(orders[orders.len() - 1], token_id, ask) <==> orders.len() - 1 == k);
    }
}

/// Where orders have different IDs, each is found under its own.
proof fn orders_are_found_under_their_ids(orders: Seq<OrderState>, k: int)
    requires
        distinct_ids(orders),
        0 <= k < orders.len(),
    ensures
        order_with(orders, orders[k].id) == Some(orders[k]),
{
    let id = orders[k].id;
    assert forall|j: int| 0 <= j < k implies (#[trigger] orders[j]).id != id by {
        assert(orders[j].id != orders[k].id);
    }
    assert(is_first_with(orders, id, k));
    let i = index_of(orders, id);
    assert(is_first_with(orders, id, i));
    if i < k {
        assert(orders[i].id != orders[k].id);
    } else if k < i {
        assert(orders[k].id != orders[i].id);
    }
}

/// In dry-run mode an order for the Up token that is filled is recorded as a purchase of Up shares,
/// and one for the Down token as a purchase of Down shares, of the size of the order and at the
/// price of the fill. What they cost is cash that went out. This is said of a tick in which one
/// order is filled.
#[verifier::rlimit(40)]
pub proof fn a_filled_order_is_a_purchase_of_its_side(
    state: StrategyState,
    market: Market,
    snapshot: MarketSnapshot,
    after: StrategyState,
    k: int,
    is_up: bool,
    ask: Decimal,
)
    requires
        state.after_matching(market, snapshot) == Some(after),
        distinct_ids(state.orders.orders),
        market.up_token_id@ != market.down_token_id@,
        0 <= k < state.orders.orders.len(),
        is_fair_value(snapshot.fair_value_up),
        is_fair_value(snapshot.fair_value_down),
        is_open(state.orders.orders[k]),
        state.orders.orders[k].token_id == (if is_up {
            market.up_token_id@
        } else {
            market.down_token_id@
        }),
        Some(ask) == simulated_ask(
            if is_up {
                snapshot.fair_value_up
            } else {
                snapshot.fair_value_down
            },
        ),
        ask@ <= state.orders.orders[k].price@,
        forall|i: int|
            0 <= i < state.orders.orders.len() && i != k ==> !is_open(
                #[trigger] state.orders.orders[i],
            ),
        multiplies_exactly(state.orders.orders[k].size, ask),
        subtracts_exactly(state.window_cash_pnl, state.orders.orders[k].size.times(ask)->0),
    ensures
        state.engine.after_fill(
            if is_up {
                Side::Up
            } else {
                Side::Down
            },
            state.orders.orders[k].size,
            ask,
        ) == Some(after.engine),
        after.window_cash_pnl@ == state.window_cash_pnl@ - state.orders.orders[k].size@ * ask@,
        after.risk == state.risk,
        after.window_orders == state.window_orders,
        after.last_merge_tick == state.last_merge_tick,
{
    let orders = state.orders.orders;
    let order = orders[k];
    let (up_token, down_token) = (market.up_token_id@, market.down_token_id@);
    let up_ask = simulated_ask(snapshot.fair_value_up);
    let down_ask = simulated_ask(snapshot.fair_value_down);
    let up_done = state.orders.after_fills(up_token, up_ask);
    let done = up_done.after_fills(down_token, down_ask);
    let matched = StrategyState { orders: done, ..state };
    let (up_k, down_k) = if is_up {
        (k, -1int)
    } else {
        (-1int, k)
    };
    quotes_lie_around(snapshot.fair_value_up);
    quotes_lie_around(snapshot.fair_value_down);
    assert forall|i: int| 0 <= i < orders.len() implies (#[trigger] is_fillable(
        orders[i],
        up_token,
        up_ask,
    ) <==> i == up_k) by {
        if i != k {
            assert(!is_open(orders[i]));
        }
    }
    one_order_is_filled(orders, up_token, up_ask, up_k);
    assert forall|i: int| 0 <= i < up_done.orders.len() implies (#[trigger] is_fillable(
        up_done.orders[i],
        down_token,
        down_ask,
    ) <==> i == down_k) by {
        assert(up_done.orders[i] == crate::orders::filled(orders[i], up_token, up_ask));
        if i != k {
            assert(!is_open(orders[i]));
        }
    }
    one_order_is_filled(up_done.orders, down_token, down_ask, down_k);
    assert(distinct_ids(done.orders)) by {
        assert forall|i: int, j: int| 0 <= i < j < done.orders.len() implies (
        #[trigger] done.orders[i]).id != (#[trigger] done.orders[j]).id by {
            assert(done.orders[i].id == orders[i].id && done.orders[j].id == orders[j].id);
        }
    }
    orders_are_found_under_their_ids(done.orders, k);
    assert(done.orders[k].id == order.id);
    assert(done.orders[k].filled == order.size && done.orders[k].fill_price == ask);
    let side = if is_up {
        Side::Up
    } else {
        Side::Down
    };
    let ids = seq![order.id];
    assert(ids.drop_last() =~= Seq::<Seq<char>>::empty());
    reveal_with_fuel(StrategyState::after_fills, 2);
    assert(matched.after_fills(side, ids) == matched.after_fill(side, done.orders[k]));
    kept_product_is_exact(order.size, ask);
    kept_difference_is_exact(state.window_cash_pnl, order.size.times(ask)->0);
}

/// One more order is among the filled ones exactly if it is for the token, can still be filled, and
/// there is an ask at or below its price. It comes after those before it.
pub proof fn each_order_at_the_ask_is_filled(
    orders: Seq<OrderState>,
    order: OrderState,
    token_id: Seq<char>,
    ask: Option<Decimal>,
)
    ensures
        filled_ids(orders.push(order), token_id, ask) == if order.token_id == token_id && is_open(
            order,
        ) && (ask matches Some(price) && price@ <= order.price@) {
            filled_ids(orders, token_id, ask).push(order.id)
        } else {
            filled_ids(orders, token_id, ask)
        },
        filled_ids(Seq::empty(), token_id, ask).len() == 0,
{
    assert(orders.push(order).drop_last() =~= orders);
}

/// An order that is matched against an ask is filled in full at that ask exactly if it is for the
/// token, can still be filled, and its price is at or above the ask. All other orders stay as they are.
pub proof fn matching_fills_orders_at_the_ask(
    state: OrdersState,
    token_id: Seq<char>,
    ask: Option<Decimal>,
    i: int,
)
    requires
        0 <= i < state.orders.len(),
    ensures
        ({
            let order = state.orders[i];
            let after = state.after_fills(token_id, ask);
            &&& after.orders.len() == state.orders.len()
            &&& after == (OrdersState { orders: after.orders, ..state })
            &&& match ask {
                Some(price) if order.token_id == token_id && is_open(order) && price@
                    <= order.price@ => after.orders[i] == (OrderState {
                    status: OrderStatus::Filled,
                    filled: order.size,
                    fill_price: price,
                    ..order
                }),
                _ => after.orders[i] == order,
            }
        }),
{
}

/// Each order that was filled is recorded: as a purchase of the side, of its filled shares at the price
/// of the fill, which is cash that went out.
pub proof fn each_fill_is_recorded(
    state: StrategyState,
    side: Side,
    ids: Seq<Seq<char>>,
    id: Seq<char>,
    before: StrategyState,
    order: OrderState,
    after: StrategyState,
)
    requires
        state.after_fills(side, ids) == Some(before),
        order_with(before.orders.orders, id) == Some(order),
        state.after_fills(side, ids.push(id)) == Some(after),
        multiplies_exactly(order.filled, order.fill_price),
        order.filled.times(order.fill_price) matches Some(cost) ==> subtracts_exactly(
            before.window_cash_pnl,
            cost,
        ),
    ensures
        before.engine.after_fill(side, order.filled, order.fill_price) == Some(after.engine),
        after.window_cash_pnl@ == before.window_cash_pnl@ - order.filled@ * order.fill_price@,
        after == (StrategyState {
            engine: after.engine,
            window_cash_pnl: after.window_cash_pnl,
            ..before
        }),
        state.after_fills(side, Seq::empty()) == Some(state),
{
    assert(ids.push(id).drop_last() =~= ids);
    kept_product_is_exact(order.filled, order.fill_price);
    kept_difference_is_exact(before.window_cash_pnl, order.filled.times(order.fill_price)->0);
}

/// In dry-run mode the orders for the Up token that are filled are recorded as purchases of Up shares,
/// and then those for the Down token as purchases of Down shares, each matched against the simulated
/// ask for the fair value of its own token.
pub proof fn fills_are_recorded_for_their_sides(
    state: StrategyState,
    market: Market,
    snapshot: MarketSnapshot,
    after: StrategyState,
    up_ask: Decimal,
    down_ask: Decimal,
)
    requires
        state.after_matching(market, snapshot) == Some(after),
        simulated_ask(snapshot.fair_value_up) == Some(up_ask),
        simulated_ask(snapshot.fair_value_down) == Some(down_ask),
    ensures
        ({
            let (up, down) = (market.up_token_id@, market.down_token_id@);
            let up_done = state.orders.after_fills(up, Some(up_ask));
            let orders = up_done.after_fills(down, Some(down_ask));
            let matched = StrategyState { orders, ..state };
            let up_ids = filled_ids(state.orders.orders, up, Some(up_ask));
            let down_ids = filled_ids(up_done.orders, down, Some(down_ask));
            matched.after_fills(Side::Up, up_ids) matches Some(up_bought) && up_bought.after_fills(
                Side::Down,
                down_ids,
            ) == Some(after)
        }),
{
}

/// An order under a new ID comes after all others. One under an ID that there is takes the place of the
/// first order with it, and all others stay as they are.
pub proof fn an_order_is_added_once(state: OrdersState, order: OrderState, i: int)
    requires
        0 <= i < state.orders.len(),
    ensures
        ({
            let after = state.after_order(order);
            let replaced = state.orders[i].id == order.id && forall|j: int|
                0 <= j < i ==> (#[trigger] state.orders[j]).id != order.id;
            let known = exists|j: int|
                0 <= j < state.orders.len() && (#[trigger] state.orders[j]).id == order.id;
            &&& after.orders[i] == if replaced {
                order
            } else {
                state.orders[i]
            }
            &&& !known ==> after.orders == state.orders.push(order)
            &&& known ==> after.orders.len() == state.orders.len()
            &&& after == (OrdersState { orders: after.orders, ..state })
        }),
{
    if has_id(state.orders, order.id) {
        let k = index_of(state.orders, order.id);
        assert(is_first_with(state.orders, order.id, k));
        assert(state.orders[k].id == order.id);
    } else {
        assert forall|j: int| 0 <= j < state.orders.len() implies (#[trigger] state.orders[j]).id
            != order.id by {
            if state.orders[j].id == order.id {
                an_id_has_a_first_order(state.orders, order.id, j);
            }
        }
    }
}

/// An order manager starts without orders and credentials.
pub proof fn an_order_manager_starts_empty(dry_run: bool, clob_url: Seq<char>)
    ensures
        ({
            let state = OrdersState::initial(dry_run, clob_url);
            &&& state.orders.len() == 0
            &&& state.dry_run == dry_run && state.clob_url == clob_url
            &&& state.api_key is None && state.api_secret is None && state.passphrase is None
        }),
{
}

/// An order is refused exactly if it is for less than five shares, or its price is not above zero and
/// below a dollar.
pub proof fn small_and_mispriced_orders_are_refused(price: Decimal, size: Decimal)
    ensures
        match order_error(price, size) {
            Some(OrderError::TooSmall(s)) => s == size && size@ < 5real,
            Some(OrderError::InvalidPrice(p)) => p == price && 5real <= size@ && (price@ <= 0real
                || 1real <= price@),
            None => 5real <= size@ && 0real < price@ < 1real,
        },
{
}

/// An order that a proposal makes is for the token of its side, at the bid, for all the shares of
/// the proposal. It is open, with nothing filled.
pub proof fn orders_are_for_the_token_of_their_side(
    state: StrategyState,
    market: Market,
    side: Side,
    proposal: Proposal,
    id: Seq<char>,
    now: i64,
)
    ensures
        ({
            let order = state.order_of(market, side, proposal, id, now);
            &&& order.id == id
            &&& order.market_condition_id == market.condition_id@
            &&& order.token_id == match side {
                Side::Up => market.up_token_id@,
                Side::Down => market.down_token_id@,
            }
            &&& order.side == side
            &&& order.price == proposal.bid
            &&& order.fill_price == proposal.bid
            &&& order.size == proposal.shares
            &&& order.filled@ == 0real
            &&& order.status == OrderStatus::Open
            &&& order.created_at == now
            &&& order.is_dry_run == state.orders.dry_run
        }),
{
    value_of(0, 0);
}

/// In dry-run mode an order that a side gets is added to the orders, takes its cost from the
/// capital, and counts as one more order of the window. It is for the token of the side, at the bid
/// that was proposed. The positions, the cash and the samples stay as they are.
pub proof fn a_placed_order_takes_its_cost(
    state: StrategyState,
    market: Market,
    snapshot: MarketSnapshot,
    plan: OrderPlan,
    side: Side,
    placed: u64,
    id: Seq<char>,
    now: i64,
    after: StrategyState,
)
    requires
        state.after_side(market, snapshot, plan, side, placed, id, now) == Some((after, true)),
        !has_id(state.orders.orders, id),
    ensures
        state.proposal(plan, snapshot, side, placed) matches Some(Some(proposal)) && {
            let order = after.orders.orders.last();
            &&& after.orders.orders == state.orders.orders.push(order)
            &&& order.id == id && order.side == side && order.status == OrderStatus::Open
            &&& order.price == proposal.bid && order.size == proposal.shares
            &&& order.token_id == match side {
                Side::Up => market.up_token_id@,
                Side::Down => market.down_token_id@,
            }
            &&& 5real <= order.size@ && 0real < order.price@ < 1real
            &&& state.risk.after_order(proposal.cost) == Some(after.risk)
            &&& after == (StrategyState {
                orders: OrdersState { orders: after.orders.orders, ..state.orders },
                risk: after.risk,
                window_orders: (state.window_orders + 1) as u64,
                ..state
            })
        },
{
}

/// Where a side gets no order, nothing changes.
pub proof fn a_side_without_an_order_changes_nothing(
    state: StrategyState,
    market: Market,
    snapshot: MarketSnapshot,
    plan: OrderPlan,
    side: Side,
    placed: u64,
    id: Seq<char>,
    now: i64,
    after: StrategyState,
)
    requires
        state.after_side(market, snapshot, plan, side, placed, id, now) == Some((after, false)),
    ensures
        after == state,
{
}

/// An order that is found under an ID has that ID, and is the first one that has it. Where none is
/// found, no order has it.
pub proof fn orders_are_found_by_their_id(orders: Seq<OrderState>, id: Seq<char>)
    ensures
        match order_with(orders, id) {
            Some(order) => exists|i: int|
                0 <= i < orders.len() && #[trigger] orders[i] == order && order.id == id && forall|
                    j: int,
                |
                    0 <= j < i ==> (#[trigger] orders[j]).id != id,
            None => forall|i: int| 0 <= i < orders.len() ==> (#[trigger] orders[i]).id != id,
        },
{
    if has_id(orders, id) {
        let i = index_of(orders, id);
        assert(is_first_with(orders, id, i));
        assert(orders[i] == order_with(orders, id)->0);
    } else {
        assert forall|i: int| 0 <= i < orders.len() implies (#[trigger] orders[i]).id != id by {
            if orders[i].id == id {
                an_id_has_a_first_order(orders, id, i);
            }
        }
    }
}

/// Cancelling an order cancels the one with that ID if it can still be filled, and leaves all other
/// orders as they are. Cancelling all orders cancels every one that can still be filled.
pub proof fn cancelling_ends_open_orders(state: OrdersState, id: Seq<char>, i: int)
    requires
        distinct_ids(state.orders),
        0 <= i < state.orders.len(),
    ensures
        ({
            let order = state.orders[i];
            let ended = OrderState { status: OrderStatus::Cancelled, ..order };
            &&& state.after_cancel(id).orders[i] == if order.id == id && is_open(order) {
                ended
            } else {
                order
            }
            &&& state.after_cancel_all().orders[i] == if is_open(order) {
                ended
            } else {
                order
            }
        }),
        state.after_cancel(id).orders.len() == state.orders.len(),
        state.after_cancel_all().orders.len() == state.orders.len(),
        state.after_cancel(id) == (OrdersState { orders: state.after_cancel(id).orders, ..state }),
        state.after_cancel_all() == (OrdersState {
            orders: state.after_cancel_all().orders,
            ..state
        }),
{
    if state.orders[i].id == id {
        an_id_has_a_first_order(state.orders, id, i);
    }
    if has_id(state.orders, id) {
        let k = index_of(state.orders, id);
        assert(is_first_with(state.orders, id, k));
        if k != i && state.orders[i].id == id {
            if k < i {
                assert(state.orders[k].id != state.orders[i].id);
            } else {
                assert(state.orders[i].id != state.orders[k].id);
            }
        }
    }
}

/// The empty sequence of orders has nothing open, pending, exposed or filled.
pub proof fn no_orders_count_for_nothing(market: Seq<char>, side: Side)
    ensures
        ({
            let none = Seq::<OrderState>::empty();
            &&& live_count(none) == 0
            &&& live_count_of(none, side) == 0
            &&& pending_shares(none, side) matches Some(shares) && shares@ == 0real
            &&& live_exposure(none) matches Some(cost) && cost@ == 0real
            &&& filled_totals(none, market, side) matches Some((shares, cost)) && shares@ == 0real
                && cost@ == 0real
        }),
{
    value_of(0, 0);
}

/// One more order adds one to the open orders, and to those of its side, exactly if it can still be
/// filled.
pub proof fn each_open_order_counts(orders: Seq<OrderState>, order: OrderState, side: Side)
    ensures
        live_count(orders.push(order)) == live_count(orders) + if is_open(order) {
            1nat
        } else {
            0
        },
        live_count_of(orders.push(order), side) == live_count_of(orders, side) + if is_open(order)
            && order.side == side {
            1nat
        } else {
            0
        },
{
    assert(orders.push(order).drop_last() =~= orders);
}

/// One more order adds what is not yet filled of it to the pending shares of its side, and what that
/// would cost to the exposure, exactly if it can still be filled.
pub proof fn each_open_order_is_pending(
    orders: Seq<OrderState>,
    order: OrderState,
    side: Side,
    pending: Decimal,
    exposed: Decimal,
)
    requires
        pending_shares(orders, side) == Some(pending),
        live_exposure(orders) == Some(exposed),
        subtracts_exactly(order.size, order.filled),
        order.size.minus(order.filled) matches Some(left) ==> adds_exactly(pending, left)
            && adds_product_exactly(exposed, left, order.price),
    ensures
        pending_shares(orders.push(order), side) matches Some(shares) && shares@ == pending@
            + if is_open(order) && order.side == side {
            order.size@ - order.filled@
        } else {
            0real
        },
        live_exposure(orders.push(order)) matches Some(cost) && cost@ == exposed@ + if is_open(
            order,
        ) {
            (order.size@ - order.filled@) * order.price@
        } else {
            0real
        },
{
    assert(orders.push(order).drop_last() =~= orders);
    kept_difference_is_exact(order.size, order.filled);
    let left = order.size.minus(order.filled)->0;
    kept_sum_is_exact(pending, left);
    products_add_up(exposed, left, order.price);
}

/// One more order adds its filled shares, and what they cost at the price of the fill, to the totals
/// of a market and side, exactly if it is a filled one of that market and side.
pub proof fn each_filled_order_counts(
    orders: Seq<OrderState>,
    order: OrderState,
    market: Seq<char>,
    side: Side,
    shares: Decimal,
    cost: Decimal,
)
    requires
        filled_totals(orders, market, side) == Some((shares, cost)),
        adds_exactly(shares, order.filled),
        adds_product_exactly(cost, order.filled, order.fill_price),
    ensures
        ({
            let counts = order.market_condition_id == market && order.side == side && order.status
                == OrderStatus::Filled;
            filled_totals(orders.push(order), market, side) matches Some((more, dearer)) && more@
                == shares@ + (if counts {
                order.filled@
            } else {
                0real
            }) && dearer@ == cost@ + (if counts {
                order.filled@ * order.fill_price@
            } else {
                0real
            })
        }),
{
    assert(orders.push(order).drop_last() =~= orders);
    kept_sum_is_exact(shares, order.filled);
    products_add_up(cost, order.filled, order.fill_price);
}

/// One more order is cancelled as stale exactly if it can still be filled, is older than the rule
/// allows, and the best ask of its own side is missing or above its price by more than the gap. It
/// then counts as one, and what is not yet filled of it is released at its price.
pub proof fn each_stale_order_is_released(
    rule: StaleRule,
    orders: Seq<OrderState>,
    order: OrderState,
    before: Seq<OrderState>,
    count: nat,
    released: Decimal,
)
    requires
        rule.applied(orders) == Some((before, count, released)),
        adds_exactly(order.price, rule.min_gap),
        subtracts_exactly(order.size, order.filled),
        order.size.minus(order.filled) matches Some(left) ==> adds_product_exactly(
            released,
            left,
            order.price,
        ),
    ensures
        ({
            let ask = match order.side {
                Side::Up => rule.up_best_ask,
                Side::Down => rule.down_best_ask,
            };
            let stale = is_past_use(
                order,
                rule.now,
                rule.max_age_secs * 1000,
                ask,
                rule.min_gap@,
            );
            rule.applied(orders.push(order)) matches Some((after, more, total)) && if stale {
                &&& after == before.push(OrderState { status: OrderStatus::Cancelled, ..order })
                &&& more == count + 1
                &&& total@ == released@ + (order.size@ - order.filled@) * order.price@
            } else {
                after == before.push(order) && more == count && total == released
            }
        }),
{
    assert(orders.push(order).drop_last() =~= orders);
    kept_sum_is_exact(order.price, rule.min_gap);
    kept_difference_is_exact(order.size, order.filled);
    products_add_up(released, order.size.minus(order.filled)->0, order.price);
}

/// Without orders nothing is cancelled as stale, and nothing is released.
pub proof fn without_orders_nothing_is_released(rule: StaleRule)
    ensures
        rule.applied(Seq::<OrderState>::empty()) matches Some((after, count, released))
            && after.len() == 0 && count == 0 && released@ == 0real,
{
    value_of(0, 0);
}

/// The exposure of stale orders comes back as capital at the end of a tick, and nothing else of the
/// strategy changes when they are cancelled.
pub proof fn stale_orders_give_back_their_exposure(
    state: StrategyState,
    snapshot: MarketSnapshot,
    now: i64,
    fresh: StrategyState,
    orders: Seq<OrderState>,
    count: nat,
    released: Decimal,
)
    requires
        state.after_stale(snapshot, now) == Some(fresh),
        (StaleRule {
            now,
            max_age_secs: 30,
            up_best_ask: snapshot.up_best_ask,
            down_best_ask: snapshot.down_best_ask,
            min_gap: dec(3, 2),
        }).applied(state.orders.orders) == Some((orders, count, released)),
    ensures
        count == 0 ==> fresh.risk == state.risk,
        count > 0 ==> state.risk.after_return(released) == Some(fresh.risk),
        fresh == (StrategyState {
            orders: OrdersState { orders, ..state.orders },
            risk: fresh.risk,
            ..state
        }),
{
}

} // verus!
