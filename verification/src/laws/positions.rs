//! What purchases, sales and merges do to the positions and the totals.

use vstd::prelude::*;
use crate::decimal::Decimal;
use crate::decimal::{adds_exactly, dec, subtracts_exactly};
use crate::decimal::{kept_difference_is_exact, kept_product_is_exact, kept_sum_is_exact};
use crate::laws::numbers::{adds_product_exactly, min, multiplies_exactly, products_add_up, value_of};
use crate::merge::{EngineState, win_rate_after};
use crate::types::{MergeResult, PnlSnapshot, Position, Side};

verus! {

/// Whether a position is another one with some shares more, bought at a price.
pub open spec fn has_bought(before: Position, after: Position, shares: real, price: real) -> bool {
    &&& after.shares@ == before.shares@ + shares
    &&& after.total_cost@ == before.total_cost@ + shares * price
    &&& after.shares@ > 0real ==> after.total_cost.over(after.shares) == Some(after.avg_cost)
    &&& after.shares@ <= 0real ==> after.avg_cost@ == 0real
}

/// Whether a position is another one with some shares less, each at the average cost.
pub open spec fn has_lost(before: Position, after: Position, shares: real) -> bool {
    &&& after.shares@ == before.shares@ - shares
    &&& after.total_cost@ == before.total_cost@ - shares * before.avg_cost@
    &&& after.avg_cost == before.avg_cost
}

/// Whether the numbers of a purchase are worked out without rounding.
pub open spec fn buys_exactly(pos: Position, invested: Decimal, shares: Decimal, price: Decimal) -> bool {
    &&& adds_exactly(pos.shares, shares)
    &&& adds_product_exactly(pos.total_cost, shares, price)
    &&& adds_product_exactly(invested, shares, price)
}

/// A purchase adds the shares to the position of their side, and their price to its cost. The
/// average cost is the cost over the shares. What was invested grows by as much and the orders by
/// one; the other side, all other totals and the merges stay as they are.
pub proof fn a_purchase_goes_to_its_side(
    state: EngineState,
    side: Side,
    shares: Decimal,
    price: Decimal,
    after: EngineState,
)
    requires
        state.after_fill(side, shares, price) == Some(after),
        side == Side::Up ==> buys_exactly(state.up, state.pnl.total_invested, shares, price),
        side == Side::Down ==> buys_exactly(state.down, state.pnl.total_invested, shares, price),
    ensures
        match side {
            Side::Up => has_bought(state.up, after.up, shares@, price@) && after.down == state.down,
            Side::Down => has_bought(state.down, after.down, shares@, price@) && after.up
                == state.up,
        },
        after.pnl.total_invested@ == state.pnl.total_invested@ + shares@ * price@,
        after.pnl.total_orders == state.pnl.total_orders + 1,
        after.pnl == (PnlSnapshot {
            total_invested: after.pnl.total_invested,
            total_orders: after.pnl.total_orders,
            ..state.pnl
        }),
        after.history == state.history,
        after.dry_run == state.dry_run,
        after.earlier_merges == state.earlier_merges,
{
    value_of(0, 0);
    let pos = match side {
        Side::Up => state.up,
        Side::Down => state.down,
    };
    kept_sum_is_exact(pos.shares, shares);
    products_add_up(pos.total_cost, shares, price);
    products_add_up(state.pnl.total_invested, shares, price);
}

/// Whether the numbers of a sale are worked out without rounding.
pub open spec fn sells_exactly(pos: Position, pnl: PnlSnapshot, amount: Decimal, bid: Decimal) -> bool {
    &&& subtracts_exactly(pos.shares, amount)
    &&& multiplies_exactly(amount, pos.avg_cost)
    &&& amount.times(pos.avg_cost) matches Some(cost) ==> subtracts_exactly(pos.total_cost, cost)
    &&& adds_product_exactly(pnl.total_salvage_cost_basis, amount, pos.avg_cost)
    &&& adds_product_exactly(pnl.total_salvage_revenue, amount, bid)
    &&& adds_exactly(pnl.total_salvage_shares, amount)
}

/// A sale takes the shares from the position of their side, each at its average cost, and brings
/// their price. No more is sold than is held. The totals of sales grow by the price, the cost and
/// the number of the shares; the other side, all other totals and the merges stay as they are.
#[verifier::rlimit(40)]
pub proof fn a_sale_comes_from_its_side(
    state: EngineState,
    side: Side,
    shares: Decimal,
    bid: Decimal,
    after: EngineState,
    proceeds: Decimal,
    amount: Decimal,
)
    requires
        state.after_salvage(side, shares, bid) == Some((after, proceeds)),
        ({
            let pos = match side {
                Side::Up => state.up,
                Side::Down => state.down,
            };
            &&& 0real < shares@ && 0real < pos.shares@
            &&& amount == (if pos.shares@ < shares@ {
                pos.shares
            } else {
                shares
            })
            &&& sells_exactly(pos, state.pnl, amount, bid)
        }),
    ensures
        match side {
            Side::Up => amount@ == min(shares@, state.up.shares@) && has_lost(
                state.up,
                after.up,
                amount@,
            ) && after.down == state.down && after.pnl.total_salvage_cost_basis@
                == state.pnl.total_salvage_cost_basis@ + amount@ * state.up.avg_cost@,
            Side::Down => amount@ == min(shares@, state.down.shares@) && has_lost(
                state.down,
                after.down,
                amount@,
            ) && after.up == state.up && after.pnl.total_salvage_cost_basis@
                == state.pnl.total_salvage_cost_basis@ + amount@ * state.down.avg_cost@,
        },
        proceeds.is_decimal(),
        proceeds@ == amount@ * bid@,
        after.pnl.total_salvage_revenue@ == state.pnl.total_salvage_revenue@ + amount@ * bid@,
        after.pnl.total_salvage_shares@ == state.pnl.total_salvage_shares@ + amount@,
        after.pnl == (PnlSnapshot {
            total_salvage_revenue: after.pnl.total_salvage_revenue,
            total_salvage_cost_basis: after.pnl.total_salvage_cost_basis,
            total_salvage_shares: after.pnl.total_salvage_shares,
            ..state.pnl
        }),
        after.history == state.history,
        after.dry_run == state.dry_run,
        after.earlier_merges == state.earlier_merges,
{
    let pos = match side {
        Side::Up => state.up,
        Side::Down => state.down,
    };
    kept_difference_is_exact(pos.shares, amount);
    kept_product_is_exact(amount, pos.avg_cost);
    kept_difference_is_exact(pos.total_cost, amount.times(pos.avg_cost)->0);
    products_add_up(state.pnl.total_salvage_cost_basis, amount, pos.avg_cost);
    products_add_up(state.pnl.total_salvage_revenue, amount, bid);
    kept_sum_is_exact(state.pnl.total_salvage_shares, amount);
}

/// Where nothing is held of a side, or nothing is to be sold, a sale changes nothing and brings
/// nothing.
pub proof fn nothing_is_sold_of_nothing(
    state: EngineState,
    side: Side,
    shares: Decimal,
    bid: Decimal,
)
    requires
        shares@ <= 0real || match side {
            Side::Up => state.up.shares@ <= 0real,
            Side::Down => state.down.shares@ <= 0real,
        },
    ensures
        state.after_salvage(side, shares, bid) matches Some((after, proceeds)) && after == state
            && proceeds@ == 0real,
{
    value_of(0, 0);
}

/// Whether the numbers of a merge are worked out without rounding.
pub open spec fn merges_exactly(state: EngineState, pairs: Decimal) -> bool {
    &&& multiplies_exactly(state.up.avg_cost, pairs)
    &&& multiplies_exactly(state.down.avg_cost, pairs)
    &&& subtracts_exactly(state.up.shares, pairs)
    &&& subtracts_exactly(state.down.shares, pairs)
    &&& adds_exactly(state.pnl.total_merged_payout, pairs)
    &&& adds_exactly(state.pnl.total_pairs, pairs)
    &&& match (state.up.avg_cost.times(pairs), state.down.avg_cost.times(pairs)) {
        (Some(up_cost), Some(down_cost)) => {
            &&& subtracts_exactly(state.up.total_cost, up_cost)
            &&& subtracts_exactly(state.down.total_cost, down_cost)
            &&& adds_exactly(up_cost, down_cost)
            &&& up_cost.plus(down_cost) matches Some(cost) ==> subtracts_exactly(pairs, cost)
                && (pairs.minus(cost) matches Some(profit) ==> adds_exactly(
                state.pnl.total_profit,
                profit,
            ))
        },
        _ => true,
    }
}

/// Pairs are merged where at least one share of each side is held: as many as there are shares of
/// the side that is held less of. Each takes one share of either side, at its average cost, and pays
/// a dollar. The profit is what is paid less what both shares cost. The totals of merges grow by it,
/// by what is paid and by the pairs; all others stay as they are.
#[verifier::rlimit(40)]
pub proof fn a_merge_turns_a_pair_into_a_dollar(
    state: EngineState,
    now: i64,
    after: EngineState,
    merge: MergeResult,
    pairs: Decimal,
)
    requires
        state.after_merge(now) == Some((after, Some(merge))),
        pairs == (if state.down.shares@ < state.up.shares@ {
            state.down.shares
        } else {
            state.up.shares
        }),
        merges_exactly(state, pairs),
    ensures
        1real <= pairs@,
        merge.pairs_merged@ == min(state.up.shares@, state.down.shares@),
        merge.total_payout@ == merge.pairs_merged@,
        merge.total_cost@ == pairs@ * (state.up.avg_cost@ + state.down.avg_cost@),
        merge.profit@ == merge.total_payout@ - merge.total_cost@,
        merge.timestamp == now,
        has_lost(state.up, after.up, pairs@),
        has_lost(state.down, after.down, pairs@),
        after.pnl.total_merged_payout@ == state.pnl.total_merged_payout@ + pairs@,
        after.pnl.total_pairs@ == state.pnl.total_pairs@ + pairs@,
        after.pnl.total_profit@ == state.pnl.total_profit@ + merge.profit@,
        after.pnl.total_merges == state.pnl.total_merges + 1,
        after.pnl == (PnlSnapshot {
            total_merged_payout: after.pnl.total_merged_payout,
            total_profit: after.pnl.total_profit,
            total_merges: after.pnl.total_merges,
            total_pairs: after.pnl.total_pairs,
            win_rate: after.pnl.win_rate,
            ..state.pnl
        }),
        after.history == state.history.push(merge),
        after.dry_run == state.dry_run,
        after.earlier_merges == state.earlier_merges,
{
    let (u, d, p) = (state.up.avg_cost@, state.down.avg_cost@, pairs@);
    kept_product_is_exact(state.up.avg_cost, pairs);
    kept_product_is_exact(state.down.avg_cost, pairs);
    let up_cost = state.up.avg_cost.times(pairs)->0;
    let down_cost = state.down.avg_cost.times(pairs)->0;
    kept_difference_is_exact(state.up.shares, pairs);
    kept_difference_is_exact(state.down.shares, pairs);
    kept_difference_is_exact(state.up.total_cost, up_cost);
    kept_difference_is_exact(state.down.total_cost, down_cost);
    kept_sum_is_exact(up_cost, down_cost);
    let cost = up_cost.plus(down_cost)->0;
    kept_difference_is_exact(pairs, cost);
    kept_sum_is_exact(state.pnl.total_merged_payout, pairs);
    kept_sum_is_exact(state.pnl.total_pairs, pairs);
    kept_sum_is_exact(state.pnl.total_profit, merge.profit);
    assert(u * p + d * p == p * (u + d) && u * p == p * u && d * p == p * d) by (nonlinear_arith);
}

/// Where less than one share of a side is held, nothing is merged. Else there is a merge, unless a
/// number does not fit.
pub proof fn a_merge_needs_a_share_of_each_side(state: EngineState, now: i64)
    ensures
        match state.after_merge(now) {
            Some((after, None)) => after == state && (state.up.shares@ < 1real
                || state.down.shares@ < 1real),
            Some((_, Some(_))) => 1real <= state.up.shares@ && 1real <= state.down.shares@,
            None => 1real <= state.up.shares@ && 1real <= state.down.shares@,
        },
{
}

/// The profit of a merge in percent is a hundred times the profit over the cost, and nothing where
/// the pairs cost nothing.
pub proof fn the_percentage_is_of_the_cost(
    state: EngineState,
    now: i64,
    after: EngineState,
    merge: MergeResult,
    fraction: Decimal,
)
    requires
        state.after_merge(now) == Some((after, Some(merge))),
        merge.total_cost@ > 0real ==> merge.profit.over(merge.total_cost) == Some(fraction)
            && multiplies_exactly(fraction, dec(100, 0)),
    ensures
        merge.total_cost@ > 0real ==> merge.profit_pct@ == 100real * fraction@,
        merge.total_cost@ <= 0real ==> merge.profit_pct@ == 0real,
{
    value_of(0, 0);
    value_of(100, 0);
    if merge.total_cost@ > 0real {
        kept_product_is_exact(fraction, dec(100, 0));
    }
}

/// The win rate after a merge is the quotient of the wins and the merges, where the wins are what the
/// rate before stood for, and one more if the merge brought a profit.
pub proof fn the_win_rate_counts_profitable_merges(
    rate: Decimal,
    earlier_merges: u64,
    won: bool,
    after: Decimal,
    wins: Decimal,
)
    requires
        earlier_merges < u64::MAX,
        win_rate_after(rate, (earlier_merges + 1) as u64, won) == Some(after),
        multiplies_exactly(rate, dec(earlier_merges as int, 0)),
        rate.times(dec(earlier_merges as int, 0)) matches Some(before) && adds_exactly(
            before,
            dec(1, 0),
        ) && wins == (if won {
            before.plus(dec(1, 0))->0
        } else {
            before
        }),
    ensures
        wins@ == rate@ * (earlier_merges as real) + if won {
            1real
        } else {
            0real
        },
        wins.over(dec(earlier_merges + 1, 0)) == Some(after),
{
    broadcast use crate::decimal::parts_of_dec;

    value_of(1, 0);
    crate::decimal::value_of_a_whole_number(dec(earlier_merges as int, 0));
    kept_product_is_exact(rate, dec(earlier_merges as int, 0));
    kept_sum_is_exact(rate.times(dec(earlier_merges as int, 0))->0, dec(1, 0));
}

/// A merge counts as a win exactly if it brought a profit.
pub proof fn a_profit_is_a_win(
    state: EngineState,
    now: i64,
    after: EngineState,
    merge: MergeResult,
)
    requires
        state.after_merge(now) == Some((after, Some(merge))),
    ensures
        win_rate_after(
            state.pnl.win_rate,
            (state.pnl.total_merges + 1) as u64,
            merge.profit@ > 0real,
        ) == Some(after.pnl.win_rate),
{
}

/// A new window starts without shares, counts one more market, and shows none of the merges so far
/// as its own. All other totals and the merges stay as they are.
pub proof fn a_new_window_counts_a_market(state: EngineState, after: EngineState)
    requires
        state.for_new_window() == Some(after),
    ensures
        after.up.shares@ == 0real && after.up.avg_cost@ == 0real && after.up.total_cost@ == 0real,
        after.down.shares@ == 0real && after.down.avg_cost@ == 0real && after.down.total_cost@
            == 0real,
        after.pnl == (PnlSnapshot {
            markets_traded: (state.pnl.markets_traded + 1) as u64,
            ..state.pnl
        }),
        after.history == state.history,
        after.earlier_merges == state.history.len(),
        after.dry_run == state.dry_run,
{
    value_of(0, 0);
}

/// An engine starts without shares, totals and merges.
pub proof fn an_engine_starts_empty(dry_run: bool)
    ensures
        ({
            let state = EngineState::initial(dry_run);
            &&& state.up.shares@ == 0real && state.up.avg_cost@ == 0real && state.up.total_cost@
                == 0real
            &&& state.down.shares@ == 0real && state.down.avg_cost@ == 0real
                && state.down.total_cost@ == 0real
            &&& state.pnl.total_invested@ == 0real && state.pnl.total_merged_payout@ == 0real
            &&& state.pnl.total_profit@ == 0real && state.pnl.total_pairs@ == 0real
            &&& state.pnl.win_rate@ == 0real && state.pnl.total_salvage_revenue@ == 0real
            &&& state.pnl.total_salvage_cost_basis@ == 0real && state.pnl.total_salvage_shares@
                == 0real
            &&& state.pnl.total_merges == 0 && state.pnl.total_orders == 0
                && state.pnl.markets_traded == 0
            &&& state.history.len() == 0 && state.earlier_merges == 0
            &&& state.dry_run == dry_run
        }),
{
    value_of(0, 0);
}

/// A pair costs the average cost of an Up share and that of a Down share together, once both sides
/// have been bought.
pub proof fn a_pair_costs_both_averages(state: EngineState)
    requires
        adds_exactly(state.up.avg_cost, state.down.avg_cost),
    ensures
        state.up.avg_cost@ > 0real && state.down.avg_cost@ > 0real ==> (
        state.pair_cost() matches Some(Some(cost)) && cost@ == state.up.avg_cost@
            + state.down.avg_cost@),
        state.up.avg_cost@ <= 0real || state.down.avg_cost@ <= 0real ==> state.pair_cost() == Some(
            None::<Decimal>,
        ),
{
    kept_sum_is_exact(state.up.avg_cost, state.down.avg_cost);
}

} // verus!
