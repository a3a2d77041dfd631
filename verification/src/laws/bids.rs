//! What is bid, and when.

use vstd::prelude::*;
use crate::config::Config;
use crate::decimal::Decimal;
use crate::decimal::{adds_exactly, dec, is_rounded, rounding_passes_no_decimal};
use crate::decimal::{kept_difference_is_exact, kept_product_is_exact, kept_sum_is_exact};
use crate::decimal::subtracts_exactly;
use crate::laws::numbers::{max, min, multiplies_exactly, value_of};
use crate::orders::{live_count, live_count_of, pending_shares};
use crate::rules::{MarketSnapshot, buys};
use crate::strategy::{OrderPlan, Proposal, StrategyState};
use crate::types::Side;

verus! {

/// Whether the numbers of a bid are worked out without rounding, given the fair value and the ask of
/// the side, what a pair may cost, and what the other side cost.
pub open spec fn bids_exactly(
    fair_value: Decimal,
    ask: Option<Decimal>,
    target: Decimal,
    other_cost: Decimal,
) -> bool {
    &&& adds_exactly(fair_value, dec(3, 2))
    &&& subtracts_exactly(fair_value, dec(2, 2))
    &&& subtracts_exactly(target, other_cost)
    &&& ask matches Some(price) ==> subtracts_exactly(price, dec(1, 2))
}

/// The bid for a side is the smallest of three: the limit for a single side; three cents above the
/// fair value of that side; and, once the other side is held, what a pair may cost less the average
/// cost of the other side. It is a cent at least. Where that is not below the ask of the side, the
/// bid is a cent below the ask.
#[verifier::rlimit(40)]
pub proof fn bids_are_for_the_own_side(
    plan: OrderPlan,
    config: Config,
    side: Side,
    snapshot: MarketSnapshot,
    bid: Decimal,
)
    requires
        plan.wanted_bid(config, side, snapshot) == Some(Some(bid)),
        side == Side::Up ==> bids_exactly(
            snapshot.fair_value_up,
            snapshot.up_best_ask,
            plan.target_combined,
            plan.down.avg_cost,
        ),
        side == Side::Down ==> bids_exactly(
            snapshot.fair_value_down,
            snapshot.down_best_ask,
            plan.target_combined,
            plan.up.avg_cost,
        ),
    ensures
        ({
            let (fair_value, best_ask, other, blocked, heavy) = match side {
                Side::Up => (
                    snapshot.fair_value_up,
                    snapshot.up_best_ask,
                    plan.down,
                    plan.up_blocked,
                    plan.up_heavy,
                ),
                Side::Down => (
                    snapshot.fair_value_down,
                    snapshot.down_best_ask,
                    plan.up,
                    plan.down_blocked,
                    plan.down_heavy,
                ),
            };
            let most = min(config.max_side_price@, fair_value@ + 3real / 100real);
            let limit = if other.shares@ > 0real {
                max(min(most, plan.target_combined@ - other.avg_cost@), 1real / 100real)
            } else {
                most
            };
            &&& best_ask matches Some(ask) && bid@ == (if limit < ask@ {
                limit
            } else {
                ask@ - 1real / 100real
            })
            &&& other.shares@ > 0real && 1real / 100real < bid@ ==> bid@ + other.avg_cost@
                <= plan.target_combined@
            &&& !blocked
            &&& !heavy
        }),
{
    value_of(1, 2);
    value_of(3, 2);
    value_of(99, 2);
    let (fair_value, ask, other) = match side {
        Side::Up => (snapshot.fair_value_up, snapshot.up_best_ask->0, plan.down),
        Side::Down => (snapshot.fair_value_down, snapshot.down_best_ask->0, plan.up),
    };
    kept_sum_is_exact(fair_value, dec(3, 2));
    kept_difference_is_exact(plan.target_combined, other.avg_cost);
    kept_difference_is_exact(ask, dec(1, 2));
    assert(buys(config, side, bid, snapshot) == Some(true));
}

/// While only one side is held, more of it is bid for only if the bid and the ask of the other side
/// are together at most a dollar and five cents.
pub proof fn the_other_side_stays_affordable(
    plan: OrderPlan,
    config: Config,
    side: Side,
    snapshot: MarketSnapshot,
    bid: Decimal,
    ask: Decimal,
)
    requires
        plan.wanted_bid(config, side, snapshot) == Some(Some(bid)),
        side == Side::Up ==> plan.up.shares@ > 0real && plan.down.shares.mantissa_int() == 0
            && snapshot.down_best_ask == Some(ask),
        side == Side::Down ==> plan.down.shares@ > 0real && plan.up.shares.mantissa_int() == 0
            && snapshot.up_best_ask == Some(ask),
        adds_exactly(bid, ask),
    ensures
        bid@ + ask@ <= 105real / 100real,
{
    value_of(105, 2);
    kept_sum_is_exact(bid, ask);
}

/// A side is bid for where nothing speaks against it: it is neither blocked nor heavy, the rules let it
/// be bought at that bid, and either not only that side is held, or the other side has no ask, or the
/// bid and the ask of the other side are together at most a dollar and five cents. The bid is the
/// smallest of the limit for a single side, three cents above the fair value of the side and, once the
/// other side is held, what a pair may cost less the average cost of the other side; it is a cent at
/// least, and a cent below the ask of the side where it would not be below that.
#[verifier::rlimit(40)]
pub proof fn a_side_is_bid_for(
    plan: OrderPlan,
    config: Config,
    side: Side,
    snapshot: MarketSnapshot,
    ask: Decimal,
    bid: Decimal,
)
    requires
        side == Side::Up ==> bids_exactly(
            snapshot.fair_value_up,
            snapshot.up_best_ask,
            plan.target_combined,
            plan.down.avg_cost,
        ),
        side == Side::Down ==> bids_exactly(
            snapshot.fair_value_down,
            snapshot.down_best_ask,
            plan.target_combined,
            plan.up.avg_cost,
        ),
        config.max_side_price.is_decimal(),
        buys(config, side, bid, snapshot) == Some(true),
        ({
            let (fair_value, best_ask, blocked, heavy, own, other, other_ask) = match side {
                Side::Up => (
                    snapshot.fair_value_up,
                    snapshot.up_best_ask,
                    plan.up_blocked,
                    plan.up_heavy,
                    plan.up,
                    plan.down,
                    snapshot.down_best_ask,
                ),
                Side::Down => (
                    snapshot.fair_value_down,
                    snapshot.down_best_ask,
                    plan.down_blocked,
                    plan.down_heavy,
                    plan.down,
                    plan.up,
                    snapshot.up_best_ask,
                ),
            };
            let most = min(config.max_side_price@, fair_value@ + 3real / 100real);
            let limit = if other.shares@ > 0real {
                max(min(most, plan.target_combined@ - other.avg_cost@), 1real / 100real)
            } else {
                most
            };
            &&& best_ask == Some(ask)
            &&& bid@ == if limit < ask@ {
                limit
            } else {
                ask@ - 1real / 100real
            }
            &&& !blocked
            &&& !heavy
            &&& own.shares@ <= 0real || other.shares@ != 0real || match other_ask {
                Some(price) => price.is_decimal() && 0real <= price@ <= 1real && bid@ + price@
                    <= 105real / 100real,
                None => true,
            }
        }),
    ensures
        plan.wanted_bid(config, side, snapshot) matches Some(Some(wanted)) && wanted@ == bid@,
{
    broadcast use crate::decimal::sign_is_that_of_the_mantissa;

    value_of(1, 2);
    value_of(3, 2);
    value_of(99, 2);
    value_of(105, 2);
    let (fair_value, other, other_ask) = match side {
        Side::Up => (snapshot.fair_value_up, plan.down, snapshot.down_best_ask),
        Side::Down => (snapshot.fair_value_down, plan.up, snapshot.up_best_ask),
    };
    kept_sum_is_exact(fair_value, dec(3, 2));
    kept_difference_is_exact(plan.target_combined, other.avg_cost);
    kept_difference_is_exact(ask, dec(1, 2));
    let wanted = plan.bid(config, side, ask, snapshot)->0;
    assert(wanted@ == bid@ && wanted.is_decimal());
    assert(buys(config, side, wanted, snapshot) == buys(config, side, bid, snapshot));
    if let Some(price) = other_ask {
        if price.is_decimal() && 0real <= price@ <= 1real {
            crate::decimal::small_numbers_are_exact(wanted, price);
        }
    }
}

/// A side that is blocked, heavy or without an ask is not bid for.
pub proof fn some_sides_are_not_bid_for(
    plan: OrderPlan,
    config: Config,
    side: Side,
    snapshot: MarketSnapshot,
    bid: Decimal,
)
    requires
        match side {
            Side::Up => plan.up_blocked || plan.up_heavy || snapshot.up_best_ask is None,
            Side::Down => plan.down_blocked || plan.down_heavy || snapshot.down_best_ask is None,
        },
    ensures
        plan.wanted_bid(config, side, snapshot) != Some(Some(bid)),
{
}

/// An order is proposed where a side is bid for and the risk manager allows its cost, with the orders
/// that are open and those placed before it in the tick. Else none is.
pub proof fn allowed_bids_are_proposed(
    state: StrategyState,
    plan: OrderPlan,
    snapshot: MarketSnapshot,
    side: Side,
    placed: u64,
    bid: Decimal,
    cost: Decimal,
)
    requires
        plan.wanted_bid(state.config, side, snapshot) == Some(Some(bid)),
        plan.shares.times(bid) == Some(cost),
        plan.open_orders + placed <= usize::MAX,
    ensures
        state.risk.verdict(cost, (plan.open_orders + placed) as usize) == Some(
            Ok::<(), Seq<char>>(()),
        ) ==> state.proposal(plan, snapshot, side, placed) == Some(
            Some(Proposal { bid, shares: plan.shares, cost }),
        ),
        (state.risk.verdict(cost, (plan.open_orders + placed) as usize) matches Some(Err(_)))
            ==> state.proposal(plan, snapshot, side, placed) == Some(None::<Proposal>),
{
}

/// In dry-run mode a tick looks at Up first, with no order placed before, and then at Down, with the
/// Up order if there was one. It counts the orders that it placed.
#[verifier::rlimit(40)]
pub proof fn a_tick_looks_at_both_sides(
    state: StrategyState,
    market: crate::types::Market,
    snapshot: MarketSnapshot,
    up_id: Seq<char>,
    down_id: Seq<char>,
    now: i64,
    after: StrategyState,
    placed: u64,
)
    requires
        state.after_orders(market, snapshot, up_id, down_id, now) == Some((after, placed)),
    ensures
        state.order_plan(snapshot) matches Some(plan) && (state.after_side(
            market,
            snapshot,
            plan,
            Side::Up,
            0,
            up_id,
            now,
        ) matches Some((up_done, up_placed)) && {
            let before: u64 = if up_placed {
                1
            } else {
                0
            };
            up_done.after_side(
                market,
                snapshot,
                plan,
                Side::Down,
                before,
                down_id,
                now,
            ) matches Some((done, down_placed)) && done == after && placed == before + (
            if down_placed {
                1int
            } else {
                0
            })
        }),
        after.window_orders == state.window_orders + placed,
{
}

/// Whether the numbers of a plan are worked out without rounding, given the unfilled shares of both
/// sides.
pub open spec fn plans_exactly(
    state: StrategyState,
    up_pending: Decimal,
    down_pending: Decimal,
) -> bool {
    let config = state.config;
    &&& subtracts_exactly(dec(1, 0), config.target_edge)
    &&& adds_exactly(state.engine.up.shares, up_pending)
    &&& adds_exactly(state.engine.down.shares, down_pending)
    &&& multiplies_exactly(config.shares_per_order, dec(2, 0))
    &&& match (
        state.engine.up.shares.plus(up_pending),
        state.engine.down.shares.plus(down_pending),
    ) {
        (Some(up), Some(down)) => multiplies_exactly(up, dec(20, 1)) && multiplies_exactly(
            down,
            dec(20, 1),
        ) && subtracts_exactly(up, down),
        _ => true,
    }
}

/// The orders of a tick depend on what is held of either side, with the unfilled shares of its open
/// orders. A side is blocked if it is ahead by the largest imbalance or has an open order. It is
/// heavy if there is more than twice as much of it as of the other side, and more than two orders.
/// A pair may cost a dollar less the target edge.
#[verifier::rlimit(40)]
pub proof fn plans_weigh_the_sides(
    state: StrategyState,
    snapshot: MarketSnapshot,
    plan: OrderPlan,
    up_pending: Decimal,
    down_pending: Decimal,
)
    requires
        state.order_plan(snapshot) == Some(plan),
        pending_shares(state.orders.orders, Side::Up) == Some(up_pending),
        pending_shares(state.orders.orders, Side::Down) == Some(down_pending),
        plans_exactly(state, up_pending, down_pending),
    ensures
        plan.up == state.engine.up,
        plan.down == state.engine.down,
        plan.open_orders == live_count(state.orders.orders) as usize,
        plan.target_combined.is_decimal(),
        plan.target_combined@ == 1real - state.config.target_edge@,
        ({
            let up = state.engine.up.shares@ + up_pending@;
            let down = state.engine.down.shares@ + down_pending@;
            let two_orders = 2real * state.config.shares_per_order@;
            let most = state.config.max_side_imbalance@;
            &&& plan.up_heavy <==> up > 2real * down && up > two_orders
            &&& plan.down_heavy <==> down > 2real * up && down > two_orders
            &&& plan.up_blocked <==> up - down >= most || live_count_of(
                state.orders.orders,
                Side::Up,
            ) > 0
            &&& plan.down_blocked <==> down - up >= most || live_count_of(
                state.orders.orders,
                Side::Down,
            ) > 0
        }),
{
    value_of(1, 0);
    value_of(2, 0);
    value_of(20, 1);
    let config = state.config;
    kept_difference_is_exact(dec(1, 0), config.target_edge);
    kept_sum_is_exact(state.engine.up.shares, up_pending);
    kept_sum_is_exact(state.engine.down.shares, down_pending);
    let up = state.engine.up.shares.plus(up_pending)->0;
    let down = state.engine.down.shares.plus(down_pending)->0;
    kept_product_is_exact(up, dec(20, 1));
    kept_product_is_exact(down, dec(20, 1));
    kept_product_is_exact(config.shares_per_order, dec(2, 0));
    kept_difference_is_exact(up, down);
    crate::decimal::exact_differences_are_symmetric(up, down);
    kept_difference_is_exact(down, up);
}

/// An order is for the shares that are configured. With less than two minutes left it is for half of
/// them, but for the smallest order at least.
pub proof fn late_orders_are_half_as_large(
    state: StrategyState,
    snapshot: MarketSnapshot,
    plan: OrderPlan,
    half: Decimal,
)
    requires
        state.order_plan(snapshot) == Some(plan),
        state.config.shares_per_order.over(dec(2, 0)) == Some(half),
        is_rounded(half, state.config.shares_per_order@ / 2real),
    ensures
        120 <= snapshot.remaining_secs ==> plan.shares == state.config.shares_per_order,
        snapshot.remaining_secs < 120 ==> plan.shares@ == max(
            half@,
            state.config.min_order_shares@,
        ),
{
}

/// For every order that a tick proposes, a pair costs at most a dollar less the target edge: where
/// the other side is held and the bid is above a cent, the bid and the average cost of the other
/// side are together no more. Where the other side is not held and the ask is above both limits, the
/// bid is the smaller of the limit for a single side and three cents above the fair value of that
/// same side. The order costs its shares times its bid.
pub proof fn proposals_keep_the_cost_of_a_pair(
    state: StrategyState,
    plan: OrderPlan,
    snapshot: MarketSnapshot,
    side: Side,
    placed: u64,
    proposal: Proposal,
)
    requires
        state.order_plan(snapshot) == Some(plan),
        state.proposal(plan, snapshot, side, placed) == Some(Some(proposal)),
        subtracts_exactly(dec(1, 0), state.config.target_edge),
        side == Side::Up ==> bids_exactly(
            snapshot.fair_value_up,
            snapshot.up_best_ask,
            plan.target_combined,
            state.engine.down.avg_cost,
        ),
        side == Side::Down ==> bids_exactly(
            snapshot.fair_value_down,
            snapshot.down_best_ask,
            plan.target_combined,
            state.engine.up.avg_cost,
        ),
        multiplies_exactly(plan.shares, proposal.bid),
    ensures
        ({
            let (fair_value, best_ask, other) = match side {
                Side::Up => (snapshot.fair_value_up, snapshot.up_best_ask, state.engine.down),
                Side::Down => (snapshot.fair_value_down, snapshot.down_best_ask, state.engine.up),
            };
            let most = min(state.config.max_side_price@, fair_value@ + 3real / 100real);
            &&& other.shares@ > 0real && 1real / 100real < proposal.bid@ ==> proposal.bid@
                + other.avg_cost@ <= 1real - state.config.target_edge@
            &&& other.shares@ <= 0real ==> (best_ask matches Some(ask) && (most < ask@
                ==> proposal.bid@ == most))
        }),
        proposal.shares == plan.shares,
        proposal.cost@ == proposal.shares@ * proposal.bid@,
{
    value_of(1, 0);
    kept_difference_is_exact(dec(1, 0), state.config.target_edge);
    bids_are_for_the_own_side(plan, state.config, side, snapshot, proposal.bid);
    kept_product_is_exact(plan.shares, proposal.bid);
}

/// The lowest fair value at which a side is bought with some seconds left, in thirds of a hundredth
/// of a cent: 20 cents with 300 seconds left or more, and 34 cents at the end.
pub open spec fn band_thirds(remaining_secs: u64) -> int {
    10200 - 14 * if remaining_secs < 300 {
        remaining_secs as int
    } else {
        300
    }
}

/// Whether a bid for a side with a given fair value may be made as far as prices and the time are
/// concerned: it is from one cent to 99 cents, at most the limit for a single side and at most three
/// cents above the fair value; the fair value is within the band; and a minute or more is left. In
/// the last 90 seconds the fair value is below 45 cents, and in the last two minutes the bid is more
/// than two cents below the fair value.
pub open spec fn may_bid(most: real, bid: real, fair_value: real, remaining_secs: u64) -> bool {
    &&& 1real / 100real <= bid <= 99real / 100real
    &&& bid <= most
    &&& bid <= fair_value + 3real / 100real
    &&& 60 <= remaining_secs
    &&& remaining_secs < 90 ==> fair_value < 45real / 100real
    &&& remaining_secs < 120 ==> bid < fair_value - 2real / 100real
    &&& is_near_the_band(fair_value, remaining_secs)
}

/// Whether a fair value is within the band, which is symmetric about half a dollar, to within a
/// hundredth of a cent.
pub open spec fn is_near_the_band(fair_value: real, remaining_secs: u64) -> bool {
    let low = band_thirds(remaining_secs) as real / 30000real;
    low - 1real / 10000real <= fair_value <= 1real - low + 1real / 10000real
}

/// Whether a fair value is within the band with a hundredth of a cent to spare.
pub open spec fn is_inside_the_band(fair_value: real, remaining_secs: u64) -> bool {
    let low = band_thirds(remaining_secs) as real / 30000real;
    low + 1real / 10000real <= fair_value <= 1real - low - 1real / 10000real
}

/// What is bought is within the limits of price and time. Where BTC rose by 0.03% or more, an Up bid
/// is more than two cents below the fair value of Up; where it fell by as much, a Down bid is more
/// than two cents below the fair value of Down.
#[verifier::rlimit(40)]
pub proof fn purchases_are_cheap(
    config: Config,
    side: Side,
    bid: Decimal,
    snapshot: MarketSnapshot,
    change: Decimal,
    delta: Decimal,
)
    requires
        buys(config, side, bid, snapshot) == Some(true),
        side == Side::Up ==> adds_exactly(snapshot.fair_value_up, dec(3, 2))
            && subtracts_exactly(snapshot.fair_value_up, dec(2, 2)),
        side == Side::Down ==> adds_exactly(snapshot.fair_value_down, dec(3, 2))
            && subtracts_exactly(snapshot.fair_value_down, dec(2, 2)),
        snapshot.opening_price@ > 0real,
        subtracts_exactly(snapshot.btc_price, snapshot.opening_price),
        snapshot.btc_price.minus(snapshot.opening_price) == Some(change),
        change.over(snapshot.opening_price) == Some(delta),
        is_rounded(delta, change@ / snapshot.opening_price@),
    ensures
        ({
            let fair_value = match side {
                Side::Up => snapshot.fair_value_up@,
                Side::Down => snapshot.fair_value_down@,
            };
            let moved = snapshot.btc_price@ - snapshot.opening_price@;
            let tolerated = snapshot.opening_price@ * (3real / 10000real);
            &&& may_bid(config.max_side_price@, bid@, fair_value, snapshot.remaining_secs)
            &&& side == Side::Up && moved >= tolerated ==> bid@ < fair_value - 2real / 100real
            &&& side == Side::Down && moved <= -tolerated ==> bid@ < fair_value - 2real / 100real
        }),
{
    prices_of_the_rules(snapshot);
    let fair_value = match side {
        Side::Up => snapshot.fair_value_up,
        Side::Down => snapshot.fair_value_down,
    };
    kept_sum_is_exact(fair_value, dec(3, 2));
    kept_difference_is_exact(fair_value, dec(2, 2));
    kept_difference_is_exact(snapshot.btc_price, snapshot.opening_price);
    value_of(0, 0);
    moves_are_relative(snapshot, change, delta, dec(0, 0));
}

/// A bid within the limits of price and time is made if BTC moved by less than 0.03% against the
/// side: an Up bid if BTC rose by less, and a Down bid if it fell by less. In any case it is made if
/// it is more than two cents below the fair value.
#[verifier::rlimit(40)]
pub proof fn cheap_sides_are_bought(
    config: Config,
    side: Side,
    bid: Decimal,
    snapshot: MarketSnapshot,
    change: Decimal,
    delta: Decimal,
    less: Decimal,
)
    requires
        side == Side::Up ==> adds_exactly(snapshot.fair_value_up, dec(3, 2))
            && subtracts_exactly(snapshot.fair_value_up, dec(2, 2)),
        side == Side::Down ==> adds_exactly(snapshot.fair_value_down, dec(3, 2))
            && subtracts_exactly(snapshot.fair_value_down, dec(2, 2)),
        snapshot.opening_price@ > 0real,
        subtracts_exactly(snapshot.btc_price, snapshot.opening_price),
        snapshot.btc_price.minus(snapshot.opening_price) == Some(change),
        change.over(snapshot.opening_price) == Some(delta),
        is_rounded(delta, change@ / snapshot.opening_price@),
        less.is_decimal(),
        less@ < 3real / 10000real,
        ({
            let fair_value = match side {
                Side::Up => snapshot.fair_value_up@,
                Side::Down => snapshot.fair_value_down@,
            };
            let moved = snapshot.btc_price@ - snapshot.opening_price@;
            let tolerated = snapshot.opening_price@ * less@;
            &&& may_bid(config.max_side_price@, bid@, fair_value, snapshot.remaining_secs)
            &&& is_inside_the_band(fair_value, snapshot.remaining_secs)
            &&& match side {
                Side::Up => moved <= tolerated,
                Side::Down => -tolerated <= moved,
            } || bid@ < fair_value - 2real / 100real
        }),
    ensures
        buys(config, side, bid, snapshot) == Some(true),
{
    prices_of_the_rules(snapshot);
    let fair_value = match side {
        Side::Up => snapshot.fair_value_up,
        Side::Down => snapshot.fair_value_down,
    };
    kept_sum_is_exact(fair_value, dec(3, 2));
    kept_difference_is_exact(fair_value, dec(2, 2));
    kept_difference_is_exact(snapshot.btc_price, snapshot.opening_price);
    moves_are_relative(snapshot, change, delta, less);
}

/// Without an opening price above zero both sides count as cheap: a bid within the limits of price
/// and time is made.
pub proof fn without_an_opening_price_both_sides_are_bought(
    config: Config,
    side: Side,
    bid: Decimal,
    snapshot: MarketSnapshot,
)
    requires
        side == Side::Up ==> adds_exactly(snapshot.fair_value_up, dec(3, 2))
            && subtracts_exactly(snapshot.fair_value_up, dec(2, 2)),
        side == Side::Down ==> adds_exactly(snapshot.fair_value_down, dec(3, 2))
            && subtracts_exactly(snapshot.fair_value_down, dec(2, 2)),
        snapshot.opening_price@ <= 0real,
        ({
            let fair_value = match side {
                Side::Up => snapshot.fair_value_up@,
                Side::Down => snapshot.fair_value_down@,
            };
            &&& may_bid(config.max_side_price@, bid@, fair_value, snapshot.remaining_secs)
            &&& is_inside_the_band(fair_value, snapshot.remaining_secs)
        }),
    ensures
        buys(config, side, bid, snapshot) == Some(true),
{
    prices_of_the_rules(snapshot);
    value_of(0, 0);
    let fair_value = match side {
        Side::Up => snapshot.fair_value_up,
        Side::Down => snapshot.fair_value_down,
    };
    kept_sum_is_exact(fair_value, dec(3, 2));
    kept_difference_is_exact(fair_value, dec(2, 2));
}

/// The prices that the rules speak of.
proof fn prices_of_the_rules(snapshot: MarketSnapshot)
    ensures
        dec(1, 2)@ == 1real / 100real,
        dec(2, 2)@ == 2real / 100real,
        dec(3, 2)@ == 3real / 100real,
        dec(45, 2)@ == 45real / 100real,
        dec(99, 2)@ == 99real / 100real,
        dec(3, 4)@ == 3real / 10000real,
        dec(-3, 4)@ == -3real / 10000real,
        ({
            let low = crate::rules::lowest_fair(snapshot.remaining_secs)@;
            let high = crate::rules::highest_fair(snapshot.remaining_secs)@;
            let line = band_thirds(snapshot.remaining_secs) as real / 30000real;
            &&& line - 1real / 10000real <= low <= line + 1real / 10000real
            &&& 1real - line - 1real / 10000real <= high <= 1real - line + 1real / 10000real
        }),
{
    value_of(1, 2);
    value_of(2, 2);
    value_of(3, 2);
    value_of(45, 2);
    value_of(99, 2);
    value_of(3, 4);
    value_of(-3, 4);
    let part = crate::rules::window_part(snapshot.remaining_secs);
    value_of((10201 - 14 * part) / 3, 4);
    value_of((19801 + 14 * part) / 3, 4);
}

/// How the relative move of BTC compares with 0.03%.
proof fn moves_are_relative(
    snapshot: MarketSnapshot,
    change: Decimal,
    delta: Decimal,
    less: Decimal,
)
    requires
        less.is_decimal(),
        snapshot.opening_price@ > 0real,
        change@ == snapshot.btc_price@ - snapshot.opening_price@,
        is_rounded(delta, change@ / snapshot.opening_price@),
    ensures
        ({
            let tolerated = snapshot.opening_price@ * (3real / 10000real);
            &&& tolerated <= change@ ==> 3real / 10000real <= delta@
            &&& change@ <= -tolerated ==> delta@ <= -3real / 10000real
            &&& change@ <= snapshot.opening_price@ * less@ ==> delta@ <= less@
            &&& -(snapshot.opening_price@ * less@) <= change@ ==> -less@ <= delta@
        }),
{
    value_of(3, 4);
    value_of(-3, 4);
    crate::decimal::opposites_differ_by_the_sign(less);
    let (c, o) = (change@, snapshot.opening_price@);
    let x = c / o;
    assert(x * o == c) by (nonlinear_arith)
        requires
            o > 0real,
            x == c / o,
    ;
    let t = 3real / 10000real;
    let l = less@;
    assert((o * t <= c ==> t <= x) && (c <= -(o * t) ==> x <= -t) && (c <= o * l ==> x <= l) && (
    -(o * l) <= c ==> -l <= x)) by (nonlinear_arith)
        requires
            x * o == c,
            o > 0real,
    ;
    rounding_passes_no_decimal(delta, x, dec(3, 4));
    rounding_passes_no_decimal(delta, x, dec(-3, 4));
    rounding_passes_no_decimal(delta, x, less);
    rounding_passes_no_decimal(delta, x, less.negated());
}

} // verus!
