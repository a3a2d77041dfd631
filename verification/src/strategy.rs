//! Core merge arbitrage strategy.
//!
//! After an entry delay both sides of a market are bought at different times, each when it is
//! cheap, with limit orders. Pairs are merged for a dollar each.

use vstd::prelude::*;
use crate::config::Config;
use crate::decimal::{ArithmeticError, Decimal};
use crate::decimal::{an_exact_difference_leaves_the_rest, exact_differences_are_symmetric};
use crate::decimal::{dec, difference_of, larger, saturating_difference, sum_of};
use crate::decimal::{kept_difference_is_exact, nothing_is_left_of_a_whole};
use crate::decimal::{is_rounded, small_numbers_are_exact, subtracts_exactly};
use crate::decimal::value_of_a_whole_number;
use crate::feeds::polymarket::MarketBooks;
use crate::merge::MergeEngine;
use crate::merge::EngineState;
use crate::orders::{OrderManager, Placement, StaleRule};
use crate::orders::{OrdersState, live_count, live_count_of, live_exposure};
use crate::orders::{a_new_order_counts_once, an_id_has_a_first_order};
use crate::orders::{cancelling_all_leaves_no_live_order, has_id, index_of, is_first_with};
use crate::orders::{cancelling_gives_no_new_ids, no_new_ids};
use crate::orders::{filled_ids, new_order, order_error, order_with, pending_shares};
use crate::pricing::{BinaryPricer, ModelPrice, VolatilityEstimator};
use crate::pricing::{SampleState, complement, fair_up, second_of};
use crate::risk::RiskManager;
use crate::risk::{RiskState, allowed_orders_keep_the_limits};
use crate::rules::{MarketSnapshot, bid_for, calculate_bid_price, market_snapshot, should_buy};
use crate::rules::simulated_book;
use crate::rules::purchases_are_within_limits;
use crate::rules::{bid_price, buys, simulated_ask, simulated_bid, snapshot_of};
use crate::types::{Market, Order, PnlSnapshot, Position, PriceTick, Side};
use crate::types::OrderState;

verus! {

/// The ticks after a merge during which no orders are placed.
pub const POST_MERGE_COOLDOWN_TICKS: u64 = 2;

/// The merge arbitrage strategy.
pub struct MergeStrategy {
    config: Config,
    pricer: BinaryPricer,
    vol_estimator: VolatilityEstimator,
    order_manager: OrderManager,
    merge_engine: MergeEngine,
    risk_manager: RiskManager,
    /// The tick of the last merge
    last_merge_tick: u64,
    /// The current tick
    current_tick: u64,
    /// Cash that came in less cash that went out in the window
    window_cash_pnl: Decimal,
    /// Orders placed in the window
    window_orders: u64,
    /// Pairs that were merged before the window
    pairs_before: Decimal,
}

/// The state of a strategy.
pub ghost struct StrategyState {
    pub config: Config,
    pub samples: SampleState,
    pub orders: OrdersState,
    pub engine: EngineState,
    pub risk: RiskState,
    pub last_merge_tick: u64,
    pub current_tick: u64,
    pub window_cash_pnl: Decimal,
    pub window_orders: u64,
    pub pairs_before: Decimal,
}

impl View for MergeStrategy {
    type V = StrategyState;

    closed spec fn view(&self) -> StrategyState {
        StrategyState {
            config: self.config,
            samples: self.vol_estimator@,
            orders: self.order_manager@,
            engine: self.merge_engine@,
            risk: self.risk_manager@,
            last_merge_tick: self.last_merge_tick,
            current_tick: self.current_tick,
            window_cash_pnl: self.window_cash_pnl,
            window_orders: self.window_orders,
            pairs_before: self.pairs_before,
        }
    }
}

/// What the start of a tick gives.
#[derive(Debug, Clone, Copy)]
pub struct TickStart {
    /// Whether trading is halted, so that the window ends
    pub halted: bool,
    /// Whether orders may be placed
    pub may_order: bool,
    /// How many orders were cancelled to cut a loss
    pub cancelled: u32,
}

/// What the orders of a tick depend on, as it was before the first of them.
#[derive(Debug, Clone, Copy)]
pub struct OrderPlan {
    pub up: Position,
    pub down: Position,
    pub open_orders: usize,
    /// Shares per order
    pub shares: Decimal,
    /// What a pair may cost
    pub target_combined: Decimal,
    /// Whether there is far more of a side than of the other
    pub up_heavy: bool,
    pub down_heavy: bool,
    /// Whether a side is too far ahead, or has an open order
    pub up_blocked: bool,
    pub down_blocked: bool,
}

/// An order to be placed.
#[derive(Debug, Clone, Copy)]
pub struct Proposal {
    pub bid: Decimal,
    pub shares: Decimal,
    pub cost: Decimal,
}

/// What became of a side in a tick.
#[derive(Debug)]
pub enum SideOutcome {
    /// No order was placed.
    Nothing,
    /// An order was placed.
    Placed,
    /// An order of this cost has to be submitted, and accepted, before it is placed.
    Submit(Order, Decimal),
}

/// The results of a window.
#[derive(Debug, Clone, Copy)]
pub struct WindowSummary {
    /// Pairs merged in the window
    pub pairs_merged: Decimal,
    /// Orders placed in the window
    pub orders_placed: u64,
    /// Orders cancelled at the end
    pub cancelled: u32,
    /// What the unfilled shares of those would have cost
    pub released: Decimal,
    /// Totals of the session
    pub pnl: PnlSnapshot,
    /// What is left unmerged
    pub up: Position,
    pub down: Position,
    /// What the unmerged shares cost
    pub unmerged_cost: Decimal,
    /// What sold shares cost more than they brought
    pub salvage_loss: Decimal,
    /// The profit of the merges less the salvage loss and the unmerged cost
    pub net_pnl: Decimal,
}

/// Whether there are more than twice the shares of the other side, and more than two orders.
pub open spec fn is_heavy(shares: Decimal, other: Decimal, per_order: Decimal) -> Option<bool> {
    match other.times(dec(20, 1)) {
        Some(limit) => if shares@ > limit@ {
            match per_order.times(dec(2, 0)) {
                Some(two_orders) => Some(shares@ > two_orders@),
                None => None,
            }
        } else {
            Some(false)
        },
        None => None,
    }
}

/// The shares per order: half of them in the last two minutes, but not below the minimum.
pub open spec fn order_shares(config: Config, remaining_secs: u64) -> Option<Decimal> {
    if remaining_secs < 120 {
        match config.shares_per_order.over(dec(2, 0)) {
            Some(half) => Some(larger(half, config.min_order_shares)),
            None => None,
        }
    } else {
        Some(config.shares_per_order)
    }
}

impl OrderPlan {
    /// The position of a side.
    pub open spec fn position(self, side: Side) -> Position {
        match side {
            Side::Up => self.up,
            Side::Down => self.down,
        }
    }

    /// Whether there is far more of a side than of the other.
    pub open spec fn heavy(self, side: Side) -> bool {
        match side {
            Side::Up => self.up_heavy,
            Side::Down => self.down_heavy,
        }
    }

    /// Whether a side is too far ahead, or has an open order.
    pub open spec fn blocked(self, side: Side) -> bool {
        match side {
            Side::Up => self.up_blocked,
            Side::Down => self.down_blocked,
        }
    }

    /// Whether the other side can still be bought for a merge without loss, give or take five
    /// cents. It matters once only this side is held.
    pub open spec fn affordable(self, side: Side, bid: Decimal, snapshot: MarketSnapshot) -> Option<
        bool,
    > {
        if self.position(side).shares@ > 0real && self.position(
            side.other(),
        ).shares.mantissa_int() == 0 {
            match snapshot.ask(side.other()) {
                Some(ask) => match bid.plus(ask) {
                    Some(projected) => Some(projected@ <= dec(105, 2)@),
                    None => None,
                },
                None => Some(true),
            }
        } else {
            Some(true)
        }
    }

    /// The bid for a side: that of the rules if it is below the ask, and else a cent below the ask,
    /// so that the order is a maker order.
    pub open spec fn bid(
        self,
        config: Config,
        side: Side,
        ask: Decimal,
        snapshot: MarketSnapshot,
    ) -> Option<Decimal> {
        match bid_price(
            config,
            snapshot.fair(side),
            self.position(side.other()),
            self.target_combined,
        ) {
            Some(raw) => if raw@ >= ask@ {
                ask.minus(dec(1, 2))
            } else {
                Some(raw)
            },
            None => None,
        }
    }

    /// The bid for a side, if it is to be bought. Nothing is bought at the ask, not even where a
    /// cent is lost in rounding. The outer `None` stands for a number that does not fit.
    pub open spec fn wanted_bid(
        self,
        config: Config,
        side: Side,
        snapshot: MarketSnapshot,
    ) -> Option<Option<Decimal>> {
        if self.blocked(side) {
            Some(None)
        } else {
            match snapshot.ask(side) {
                Some(ask) => match self.bid(config, side, ask, snapshot) {
                    Some(bid) => match self.affordable(side, bid, snapshot) {
                        Some(affordable) => if bid@ < ask@ && !self.heavy(side) && affordable {
                            match buys(config, side, bid, snapshot) {
                                Some(buy) => if buy {
                                    Some(Some(bid))
                                } else {
                                    Some(None)
                                },
                                None => None,
                            }
                        } else {
                            Some(None)
                        },
                        None => None,
                    },
                    None => None,
                },
                None => Some(None),
            }
        }
    }
}

/// The volatility to use, given an estimate of it. The default is used without enough samples, and
/// without an estimate.
pub open spec fn volatility_of(state: StrategyState, estimate: Option<Decimal>) -> Decimal {
    match estimate {
        Some(sigma) if state.samples.observations.len() >= 10 => sigma,
        _ => dec(45, 2),
    }
}

/// Whether the shares of a side are worth so little that the excess is sold: below 30 cents, or
/// below 40 cents in the last three minutes.
pub open spec fn is_losing(fair_value: Decimal, remaining_secs: u64) -> bool {
    fair_value@ < dec(30, 2)@ || remaining_secs < 180 && fair_value@ < dec(40, 2)@
}

impl StrategyState {
    /// The state at the start of a session.
    pub open spec fn initial(
        config: Config,
        orders: OrdersState,
        engine: EngineState,
        risk: RiskState,
    ) -> StrategyState {
        StrategyState {
            config,
            samples: SampleState::initial(200),
            orders,
            engine,
            risk,
            last_merge_tick: 0,
            current_tick: 0,
            window_cash_pnl: dec(0, 0),
            window_orders: 0,
            pairs_before: engine.pnl.total_pairs,
        }
    }

    /// The state at the start of a window.
    pub open spec fn for_new_window(self) -> Option<StrategyState> {
        match self.engine.for_new_window() {
            Some(engine) => Some(
                StrategyState {
                    engine,
                    risk: self.risk.for_new_window(),
                    last_merge_tick: 0,
                    current_tick: 0,
                    window_cash_pnl: dec(0, 0),
                    window_orders: 0,
                    pairs_before: engine.pnl.total_pairs,
                    ..self
                },
            ),
            None => None,
        }
    }

    /// The state after a price was seen.
    pub open spec fn after_price(self, tick: PriceTick) -> StrategyState {
        StrategyState {
            samples: self.samples.after_price(second_of(tick.timestamp), tick.price),
            ..self
        }
    }

    /// The state after a sale of shares, with the proceeds. Those come back as capital.
    pub open spec fn after_sale(self, side: Side, shares: Decimal, price: Decimal) -> Option<
        (StrategyState, Decimal),
    > {
        match self.engine.after_salvage(side, shares, price) {
            Some((engine, proceeds)) => if proceeds@ > 0real {
                match self.risk.after_return(proceeds) {
                    Some(risk) => Some((StrategyState { engine, risk, ..self }, proceeds)),
                    None => None,
                }
            } else {
                Some((StrategyState { engine, ..self }, proceeds))
            },
            None => None,
        }
    }

    /// The state after a sale of shares during the window, the proceeds of which count as cash.
    pub open spec fn after_cash_sale(self, side: Side, shares: Decimal, price: Decimal) -> Option<
        StrategyState,
    > {
        match self.after_sale(side, shares, price) {
            Some((sold, proceeds)) => if proceeds@ > 0real {
                match self.window_cash_pnl.plus(proceeds) {
                    Some(cash) => Some(StrategyState { window_cash_pnl: cash, ..sold }),
                    None => None,
                }
            } else {
                Some(sold)
            },
            None => None,
        }
    }

    /// The cash of the window and what the held shares are worth.
    pub open spec fn mark_to_market(self, snapshot: MarketSnapshot) -> Option<Decimal> {
        sum_of(
            sum_of(
                Some(self.window_cash_pnl),
                self.engine.up.shares.times(snapshot.fair_value_up),
            ),
            self.engine.down.shares.times(snapshot.fair_value_down),
        )
    }

    /// Whether the mark-to-market loss is beyond three dollars, so that no orders are placed.
    pub open spec fn is_capped(mark: Decimal) -> bool {
        mark@ < dec(-3, 0)@
    }

    /// Whether the last merge is so recent that no orders are placed.
    pub open spec fn cools_down(self) -> bool {
        self.last_merge_tick > 0 && self.current_tick - self.last_merge_tick
            < POST_MERGE_COOLDOWN_TICKS
    }

    /// The state after the excess shares of a side were sold at the bid to cut a loss, and all
    /// orders cancelled. Without a bid nothing happens.
    pub open spec fn after_loss_cut(
        self,
        side: Side,
        excess: Decimal,
        best_bid: Option<Decimal>,
    ) -> Option<(StrategyState, u32)> {
        match best_bid {
            Some(bid) => match self.after_cash_sale(side, excess, larger(bid, dec(1, 2))) {
                Some(sold) => if live_count(sold.orders.orders) <= u32::MAX {
                    Some(
                        (
                            StrategyState { orders: sold.orders.after_cancel_all(), ..sold },
                            live_count(sold.orders.orders) as u32,
                        ),
                    )
                } else {
                    None
                },
                None => None,
            },
            None => Some((self, 0)),
        }
    }

    /// The state after the excess shares of either side were sold to cut a loss.
    pub open spec fn after_loss_cuts(self, snapshot: MarketSnapshot) -> Option<
        (StrategyState, u32),
    > {
        let excess_up = saturating_difference(self.engine.up.shares, self.engine.down.shares);
        let excess_down = saturating_difference(self.engine.down.shares, self.engine.up.shares);
        if excess_up@ > 0real {
            self.after_loss_cut(Side::Up, excess_up, snapshot.up_best_bid)
        } else if excess_down@ > 0real {
            self.after_loss_cut(Side::Down, excess_down, snapshot.down_best_bid)
        } else {
            Some((self, 0))
        }
    }

    /// The state with one more tick.
    pub open spec fn next_tick(self) -> Option<StrategyState> {
        if self.current_tick == u64::MAX {
            None
        } else {
            Some(StrategyState { current_tick: (self.current_tick + 1) as u64, ..self })
        }
    }

    /// The state after the start of a tick, and what it gives.
    pub open spec fn after_tick_start(self, snapshot: MarketSnapshot) -> Option<
        (StrategyState, TickStart),
    > {
        match self.next_tick() {
            Some(state) => if state.risk.halted {
                Some((state, TickStart { halted: true, may_order: false, cancelled: 0 }))
            } else {
                match state.mark_to_market(snapshot) {
                    Some(mark) => {
                        let cut = if Self::is_capped(mark) && snapshot.remaining_secs <= 90 {
                            state.after_loss_cuts(snapshot)
                        } else {
                            Some((state, 0))
                        };
                        match cut {
                            Some((after, cancelled)) => Some(
                                (
                                    after,
                                    TickStart {
                                        halted: false,
                                        may_order: !state.cools_down() && !Self::is_capped(mark),
                                        cancelled,
                                    },
                                ),
                            ),
                            None => None,
                        }
                    },
                    None => None,
                }
            },
            None => None,
        }
    }

    /// What the orders of a tick depend on. Unfilled shares of open orders count as held.
    pub open spec fn order_plan(self, snapshot: MarketSnapshot) -> Option<OrderPlan> {
        let up = self.engine.up;
        let down = self.engine.down;
        let orders = self.orders.orders;
        match (
            sum_of(Some(up.shares), pending_shares(orders, Side::Up)),
            sum_of(Some(down.shares), pending_shares(orders, Side::Down)),
            order_shares(self.config, snapshot.remaining_secs),
            dec(1, 0).minus(self.config.target_edge),
        ) {
            (Some(all_up), Some(all_down), Some(shares), Some(target_combined)) => match (
                is_heavy(all_up, all_down, self.config.shares_per_order),
                is_heavy(all_down, all_up, self.config.shares_per_order),
                all_up.minus(all_down),
                all_down.minus(all_up),
            ) {
                (Some(up_heavy), Some(down_heavy), Some(up_excess), Some(down_excess)) => Some(
                    OrderPlan {
                        up,
                        down,
                        open_orders: live_count(orders) as usize,
                        shares,
                        target_combined,
                        up_heavy,
                        down_heavy,
                        up_blocked: up_excess@ >= self.config.max_side_imbalance@ || live_count_of(
                            orders,
                            Side::Up,
                        ) >= 1,
                        down_blocked: down_excess@ >= self.config.max_side_imbalance@
                            || live_count_of(orders, Side::Down) >= 1,
                    },
                ),
                _ => None,
            },
            _ => None,
        }
    }

    /// The order for a side, if the rules and the risk limits allow one, after `placed` orders of
    /// the tick. The outer `None` stands for a number that does not fit.
    pub open spec fn proposal(
        self,
        plan: OrderPlan,
        snapshot: MarketSnapshot,
        side: Side,
        placed: u64,
    ) -> Option<Option<Proposal>> {
        match plan.wanted_bid(self.config, side, snapshot) {
            Some(Some(bid)) => match plan.shares.times(bid) {
                Some(cost) => if plan.open_orders + placed > usize::MAX {
                    None
                } else {
                    match self.risk.verdict(cost, (plan.open_orders + placed) as usize) {
                        Some(Ok(())) => Some(Some(Proposal { bid, shares: plan.shares, cost })),
                        Some(Err(_)) => Some(None),
                        None => None,
                    }
                },
                None => None,
            },
            Some(None) => Some(None),
            None => None,
        }
    }

    /// The order that a proposal makes.
    pub open spec fn order_of(
        self,
        market: Market,
        side: Side,
        proposal: Proposal,
        id: Seq<char>,
        now: i64,
    ) -> OrderState {
        new_order(
            id,
            market.condition_id@,
            market.token_of(side),
            side,
            proposal.bid,
            proposal.shares,
            now,
            self.orders.dry_run,
        )
    }

    /// The state after an order was placed.
    pub open spec fn after_order(self, order: OrderState, cost: Decimal) -> Option<StrategyState> {
        match self.risk.after_order(cost) {
            Some(risk) => if self.window_orders == u64::MAX {
                None
            } else {
                Some(
                    StrategyState {
                        orders: self.orders.after_order(order),
                        risk,
                        window_orders: (self.window_orders + 1) as u64,
                        ..self
                    },
                )
            },
            None => None,
        }
    }

    /// The state after a side was looked at in dry-run mode, and whether an order was placed.
    pub open spec fn after_side(
        self,
        market: Market,
        snapshot: MarketSnapshot,
        plan: OrderPlan,
        side: Side,
        placed: u64,
        id: Seq<char>,
        now: i64,
    ) -> Option<(StrategyState, bool)> {
        match self.proposal(plan, snapshot, side, placed) {
            Some(Some(proposal)) => if order_error(proposal.bid, proposal.shares) is Some {
                Some((self, false))
            } else {
                match self.after_order(
                    self.order_of(market, side, proposal, id, now),
                    proposal.cost,
                ) {
                    Some(state) => Some((state, true)),
                    None => None,
                }
            },
            Some(None) => Some((self, false)),
            None => None,
        }
    }

    /// The state after both sides were looked at in dry-run mode, and the number of orders placed.
    pub open spec fn after_orders(
        self,
        market: Market,
        snapshot: MarketSnapshot,
        up_id: Seq<char>,
        down_id: Seq<char>,
        now: i64,
    ) -> Option<(StrategyState, u64)> {
        match self.order_plan(snapshot) {
            Some(plan) => match self.after_side(market, snapshot, plan, Side::Up, 0, up_id, now) {
                Some((up_done, up_placed)) => {
                    let placed: u64 = if up_placed {
                        1
                    } else {
                        0
                    };
                    match up_done.after_side(
                        market,
                        snapshot,
                        plan,
                        Side::Down,
                        placed,
                        down_id,
                        now,
                    ) {
                        Some((done, down_placed)) => Some(
                            (
                                done,
                                if down_placed {
                                    (placed + 1) as u64
                                } else {
                                    placed
                                },
                            ),
                        ),
                        None => None,
                    }
                },
                None => None,
            },
            None => None,
        }
    }
}

impl StrategyState {
    /// The rule by which orders are stale in a tick: older than 30 seconds, and more than three
    /// cents below the ask.
    pub open spec fn stale_rule(snapshot: MarketSnapshot, now: i64) -> StaleRule {
        StaleRule {
            now,
            max_age_secs: 30,
            up_best_ask: snapshot.up_best_ask,
            down_best_ask: snapshot.down_best_ask,
            min_gap: dec(3, 2),
        }
    }

    /// The state after stale orders were cancelled, and their exposure released.
    pub open spec fn after_stale(self, snapshot: MarketSnapshot, now: i64) -> Option<
        StrategyState,
    > {
        match self.orders.after_stale(Self::stale_rule(snapshot, now)) {
            Some((orders, count, released)) => if count > 0 {
                match self.risk.after_return(released) {
                    Some(risk) => Some(StrategyState { orders, risk, ..self }),
                    None => None,
                }
            } else {
                Some(StrategyState { orders, ..self })
            },
            None => None,
        }
    }

    /// The state after an order of a side was filled: the shares are held, and their cost is cash
    /// that went out.
    pub open spec fn after_fill(self, side: Side, order: OrderState) -> Option<StrategyState> {
        match (
            self.engine.after_fill(side, order.filled, order.fill_price),
            difference_of(
                Some(self.window_cash_pnl),
                order.filled.times(order.fill_price),
            ),
        ) {
            (Some(engine), Some(cash)) => Some(
                StrategyState { engine, window_cash_pnl: cash, ..self },
            ),
            _ => None,
        }
    }

    /// The state after the orders with the given IDs were filled.
    pub open spec fn after_fills(self, side: Side, ids: Seq<Seq<char>>) -> Option<StrategyState>
        decreases ids.len(),
    {
        if ids.len() == 0 {
            Some(self)
        } else {
            match self.after_fills(side, ids.drop_last()) {
                Some(state) => match order_with(state.orders.orders, ids.last()) {
                    Some(order) => state.after_fill(side, order),
                    None => Some(state),
                },
                None => None,
            }
        }
    }

    /// The state after the orders of both sides were matched against the simulated books.
    pub open spec fn after_matching(self, market: Market, snapshot: MarketSnapshot) -> Option<
        StrategyState,
    > {
        match (
            simulated_ask(snapshot.fair_value_up),
            simulated_bid(snapshot.fair_value_up),
            simulated_ask(snapshot.fair_value_down),
            simulated_bid(snapshot.fair_value_down),
        ) {
            (Some(up_ask), Some(_), Some(down_ask), Some(_)) => {
                let up_token = market.token_of(Side::Up);
                let down_token = market.token_of(Side::Down);
                let up_matched = self.orders.after_fills(up_token, Some(up_ask));
                let matched = StrategyState {
                    orders: up_matched.after_fills(down_token, Some(down_ask)),
                    ..self
                };
                let up_ids = filled_ids(self.orders.orders, up_token, Some(up_ask));
                let down_ids = filled_ids(up_matched.orders, down_token, Some(down_ask));
                match matched.after_fills(Side::Up, up_ids) {
                    Some(state) => state.after_fills(Side::Down, down_ids),
                    None => None,
                }
            },
            _ => None,
        }
    }

    /// The state after the excess shares of a losing side were sold in the middle of the window,
    /// where `own` and `other` are the positions before.
    pub open spec fn after_stop_loss(
        self,
        side: Side,
        own: Position,
        other: Position,
        snapshot: MarketSnapshot,
    ) -> Option<StrategyState> {
        match other.shares.plus(self.config.shares_per_order) {
            Some(limit) => if own.shares@ > limit@ && is_losing(
                snapshot.fair(side),
                snapshot.remaining_secs,
            ) {
                match (own.shares.minus(other.shares), snapshot.fair(side).minus(dec(2, 2))) {
                    (Some(excess), Some(bid)) => self.after_cash_sale(
                        side,
                        excess,
                        larger(bid, dec(1, 2)),
                    ),
                    _ => None,
                }
            } else {
                Some(self)
            },
            None => None,
        }
    }

    /// The state after the excess shares of a losing side were sold, in the middle of the window.
    pub open spec fn after_stop_losses(self, snapshot: MarketSnapshot) -> Option<StrategyState> {
        if 30 < snapshot.remaining_secs < 280 {
            let up = self.engine.up;
            let down = self.engine.down;
            match self.after_stop_loss(Side::Up, up, down, snapshot) {
                Some(state) => state.after_stop_loss(Side::Down, down, up, snapshot),
                None => None,
            }
        } else {
            Some(self)
        }
    }

    /// The state after the pairs that there are were merged, in the middle of the window.
    pub open spec fn after_merge(self, now: i64) -> Option<StrategyState> {
        match self.engine.after_merge(now) {
            Some((engine, Some(merge))) => match (
                self.risk.after_merge(merge.profit, merge.total_cost),
                sum_of(Some(self.window_cash_pnl), merge.total_cost.plus(merge.profit)),
            ) {
                (Some(risk), Some(cash)) => Some(
                    StrategyState {
                        engine,
                        risk,
                        last_merge_tick: self.current_tick,
                        window_cash_pnl: cash,
                        ..self
                    },
                ),
                _ => None,
            },
            Some((engine, None)) => Some(StrategyState { engine, ..self }),
            None => None,
        }
    }

    /// The state after the end of a tick.
    pub open spec fn after_tick_end(
        self,
        market: Market,
        snapshot: MarketSnapshot,
        now: i64,
    ) -> Option<StrategyState> {
        match self.after_stale(snapshot, now) {
            Some(fresh) => {
                let matched = if self.config.dry_run {
                    fresh.after_matching(market, snapshot)
                } else {
                    Some(fresh)
                };
                match matched {
                    Some(filled) => match filled.after_stop_losses(snapshot) {
                        Some(sold) => sold.after_merge(now),
                        None => None,
                    },
                    None => None,
                }
            },
            None => None,
        }
    }

    /// The state after the last merge of a window.
    pub open spec fn after_last_merge(self, now: i64) -> Option<StrategyState> {
        match self.engine.after_merge(now) {
            Some((engine, Some(merge))) => match self.risk.after_merge(
                merge.profit,
                merge.total_cost,
            ) {
                Some(risk) => Some(StrategyState { engine, risk, ..self }),
                None => None,
            },
            Some((engine, None)) => Some(StrategyState { engine, ..self }),
            None => None,
        }
    }

    /// The state after the excess shares of a side were sold at the end of a window, where `own`
    /// and `other` are the shares before.
    pub open spec fn after_excess_sale(
        self,
        side: Side,
        own: Decimal,
        other: Decimal,
        bid: Decimal,
    ) -> Option<StrategyState> {
        if own@ > other@ {
            match own.minus(other) {
                Some(excess) => match self.after_sale(side, excess, bid) {
                    Some((state, _)) => Some(state),
                    None => None,
                },
                None => None,
            }
        } else {
            Some(self)
        }
    }

    /// The state after the pairs that are left at the end of a window were sold.
    pub open spec fn after_pair_sale(self, up_bid: Decimal, down_bid: Decimal) -> Option<
        StrategyState,
    > {
        let pairs = self.engine.pairs();
        if pairs@ > 0real {
            match self.engine.after_salvage(Side::Up, pairs, up_bid) {
                Some((up_sold, up_proceeds)) => match up_sold.after_salvage(
                    Side::Down,
                    pairs,
                    down_bid,
                ) {
                    Some((engine, down_proceeds)) => match up_proceeds.plus(down_proceeds) {
                        Some(total) => if total@ > 0real {
                            match self.risk.after_return(total) {
                                Some(risk) => Some(StrategyState { engine, risk, ..self }),
                                None => None,
                            }
                        } else {
                            Some(StrategyState { engine, ..self })
                        },
                        None => None,
                    },
                    None => None,
                },
                None => None,
            }
        } else {
            Some(self)
        }
    }

    /// The state after what is left unmerged was sold at the end of a window, for a fair value of
    /// the Up side. Without one nothing is sold.
    pub open spec fn after_salvage(self, fair_value_up: Option<Decimal>) -> Option<StrategyState> {
        let up = self.engine.up.shares;
        let down = self.engine.down.shares;
        match fair_value_up {
            Some(fair) if up@ > 0real || down@ > 0real => match complement(fair) {
                Some(fair_down) => match (simulated_bid(fair), simulated_bid(fair_down)) {
                    (Some(up_bid), Some(down_bid)) => match self.after_excess_sale(
                        Side::Up,
                        up,
                        down,
                        up_bid,
                    ) {
                        Some(up_sold) => match up_sold.after_excess_sale(
                            Side::Down,
                            down,
                            up,
                            down_bid,
                        ) {
                            Some(sold) => sold.after_pair_sale(up_bid, down_bid),
                            None => None,
                        },
                        None => None,
                    },
                    _ => None,
                },
                None => None,
            },
            _ => Some(self),
        }
    }

    /// The state after the open orders were cancelled at the end of a window, their number, and
    /// their exposure, which is released.
    pub open spec fn after_closing_orders(self) -> Option<(StrategyState, u32, Decimal)> {
        let count = live_count(self.orders.orders);
        match live_exposure(self.orders.orders) {
            Some(released) => {
                let orders = self.orders.after_cancel_all();
                if count > u32::MAX {
                    None
                } else if count > 0 {
                    match self.risk.after_return(released) {
                        Some(risk) => Some(
                            (StrategyState { orders, risk, ..self }, count as u32, released),
                        ),
                        None => None,
                    }
                } else {
                    Some((StrategyState { orders, ..self }, 0, released))
                }
            },
            None => None,
        }
    }

    /// The results of a window.
    pub open spec fn summary(self, cancelled: u32, released: Decimal) -> Option<WindowSummary> {
        let pnl = self.engine.pnl;
        let up = self.engine.up;
        let down = self.engine.down;
        match (
            up.total_cost.plus(down.total_cost),
            pnl.total_salvage_cost_basis.minus(pnl.total_salvage_revenue),
            pnl.total_pairs.minus(self.pairs_before),
        ) {
            (Some(unmerged_cost), Some(salvage_loss), Some(pairs_merged)) => match difference_of(
                pnl.total_profit.minus(salvage_loss),
                Some(unmerged_cost),
            ) {
                Some(net_pnl) => Some(
                    WindowSummary {
                        pairs_merged,
                        orders_placed: self.window_orders,
                        cancelled,
                        released,
                        pnl,
                        up,
                        down,
                        unmerged_cost,
                        salvage_loss,
                        net_pnl,
                    },
                ),
                None => None,
            },
            _ => None,
        }
    }

    /// The state after the end of a window, and its results.
    pub open spec fn after_window(self, fair_value_up: Option<Decimal>, now: i64) -> Option<
        (StrategyState, WindowSummary),
    > {
        match self.after_last_merge(now) {
            Some(merged) => match merged.after_salvage(fair_value_up) {
                Some(sold) => match sold.after_closing_orders() {
                    Some((closed, cancelled, released)) => match closed.summary(
                        cancelled,
                        released,
                    ) {
                        Some(summary) => Some((closed, summary)),
                        None => None,
                    },
                    None => None,
                },
                None => None,
            },
            None => None,
        }
    }
}

impl MergeStrategy {
    /// A strategy at the start of a session.
    pub fn new(
        config: Config,
        order_manager: OrderManager,
        merge_engine: MergeEngine,
        risk_manager: RiskManager,
    ) -> (r: MergeStrategy)
        ensures
            r@ == StrategyState::initial(config, order_manager@, merge_engine@, risk_manager@),
    {
        let pairs_before = merge_engine.pnl_snapshot().total_pairs;
        MergeStrategy {
            config,
            pricer: BinaryPricer::new(),
            vol_estimator: VolatilityEstimator::new(200),
            order_manager,
            merge_engine,
            risk_manager,
            last_merge_tick: 0,
            current_tick: 0,
            window_cash_pnl: Decimal::new(0, 0),
            window_orders: 0,
            pairs_before,
        }
    }

    /// The configuration.
    pub fn config(&self) -> (r: &Config)
        ensures
            *r == self@.config,
    {
        &self.config
    }

    /// The order manager.
    pub fn order_manager(&self) -> (r: &OrderManager)
        ensures
            r@ == self@.orders,
    {
        &self.order_manager
    }

    /// The merge engine.
    pub fn merge_engine(&self) -> (r: &MergeEngine)
        ensures
            r@ == self@.engine,
    {
        &self.merge_engine
    }

    /// The risk manager.
    pub fn risk_manager(&self) -> (r: &RiskManager)
        ensures
            r@ == self@.risk,
    {
        &self.risk_manager
    }

    /// The prices that the volatility is estimated from, oldest first.
    pub fn sampled_prices(&self) -> (r: Vec<Decimal>)
        ensures
            r@ == self@.samples.observations.map_values(|o: (u64, Decimal)| o.1),
    {
        self.vol_estimator.prices()
    }

    /// The cash that came in during the window less the cash that went out.
    pub fn window_cash_pnl(&self) -> (r: Decimal)
        ensures
            r == self@.window_cash_pnl,
    {
        self.window_cash_pnl
    }

    /// Starts a window. Returns the opening price: that of the market, or else the price of the
    /// tick. Without either the window is skipped, and nothing changes.
    pub fn begin_window(&mut self, market: &Market, tick: Option<PriceTick>) -> (r: Result<
        Option<Decimal>,
        ArithmeticError,
    >)
        ensures
            match (market.opening_price, tick) {
                (None, None) => r == Ok::<Option<Decimal>, ArithmeticError>(None) && final(self)@
                    == old(self)@,
                (opening, _) => match old(self)@.for_new_window() {
                    Some(state) => final(self)@ == state && r == Ok::<
                        Option<Decimal>,
                        ArithmeticError,
                    >(
                        match opening {
                            Some(price) => Some(price),
                            None => Some(tick->0.price),
                        },
                    ),
                    None => r is Err,
                },
            },
    {
        let opening = match market.opening_price {
            Some(price) => price,
            None => match tick {
                Some(t) => t.price,
                None => {
                    return Ok(None);
                },
            },
        };
        self.merge_engine.reset_for_new_window()?;
        self.risk_manager.reset_market_exposure();
        self.current_tick = 0;
        self.last_merge_tick = 0;
        self.window_cash_pnl = Decimal::new(0, 0);
        self.window_orders = 0;
        self.pairs_before = self.merge_engine.pnl_snapshot().total_pairs;
        Ok(Some(opening))
    }

    /// Whether so little time is left that trading stops.
    pub fn exit_reached(&self, remaining: i64) -> (r: bool)
        ensures
            r == (remaining <= self@.config.exit_buffer_secs as i64),
    {
        remaining <= self.config.exit_buffer_secs as i64
    }

    /// Adds a price to the samples for the volatility.
    pub fn observe(&mut self, tick: &PriceTick)
        ensures
            final(self)@ == old(self)@.after_price(*tick),
    {
        self.vol_estimator.add_price_from_tick(tick);
    }

    /// The volatility, given what the sampled prices give for it. The default is used without
    /// enough samples, and without an estimate.
    pub fn volatility(&self, estimate: Option<Decimal>) -> (r: Decimal)
        ensures
            r == volatility_of(self@, estimate),
    {
        match self.vol_estimator.annualized_volatility(estimate) {
            Some(sigma) => sigma,
            None => VolatilityEstimator::default_volatility(),
        }
    }

    /// The fair value of the Up side, given what the model says.
    pub fn fair_value_up(
        &self,
        btc_price: Decimal,
        opening_price: Decimal,
        sigma: Decimal,
        remaining_secs: u64,
        model: ModelPrice,
    ) -> (r: Decimal)
        ensures
            r == fair_up(btc_price, opening_price, sigma, remaining_secs, model),
    {
        self.pricer.fair_value_up(btc_price, opening_price, sigma, remaining_secs, model)
    }

    /// The state of the market for a fair value of the Up side.
    pub fn snapshot(
        &self,
        btc_price: Decimal,
        opening_price: Decimal,
        remaining_secs: u64,
        sigma: Decimal,
        fair_up: Decimal,
        books: &MarketBooks,
    ) -> (r: Result<MarketSnapshot, ArithmeticError>)
        ensures
            r.ok() == snapshot_of(
                self@.config.dry_run,
                btc_price,
                opening_price,
                remaining_secs,
                sigma,
                fair_up,
                *books,
            ),
    {
        market_snapshot(
            self.config.dry_run,
            btc_price,
            opening_price,
            remaining_secs,
            sigma,
            fair_up,
            books,
        )
    }

    /// Sells shares. The proceeds come back as capital.
    fn sell(&mut self, side: Side, shares: Decimal, price: Decimal) -> (r: Result<
        Decimal,
        ArithmeticError,
    >)
        ensures
            match old(self)@.after_sale(side, shares, price) {
                Some((state, proceeds)) => r == Ok::<Decimal, ArithmeticError>(proceeds)
                    && final(self)@ == state,
                None => r is Err,
            },
    {
        let proceeds = self.merge_engine.record_salvage(side, shares, price)?;
        if proceeds > Decimal::whole(0) {
            self.risk_manager.record_salvage_revenue(proceeds)?;
        }
        Ok(proceeds)
    }

    /// Sells shares during the window. The proceeds count as cash.
    fn sell_for_cash(&mut self, side: Side, shares: Decimal, price: Decimal) -> (r: Result<
        (),
        ArithmeticError,
    >)
        ensures
            match old(self)@.after_cash_sale(side, shares, price) {
                Some(state) => r is Ok && final(self)@ == state,
                None => r is Err,
            },
    {
        let proceeds = self.sell(side, shares, price)?;
        if proceeds > Decimal::whole(0) {
            self.window_cash_pnl = self.window_cash_pnl.checked_add(proceeds)?;
        }
        Ok(())
    }

    /// Sells the excess shares of a side at the bid, and cancels all orders.
    fn cut_loss(&mut self, side: Side, excess: Decimal, best_bid: Option<Decimal>) -> (r: Result<
        u32,
        ArithmeticError,
    >)
        ensures
            match old(self)@.after_loss_cut(side, excess, best_bid) {
                Some((state, cancelled)) => r == Ok::<u32, ArithmeticError>(cancelled)
                    && final(self)@ == state,
                None => r is Err,
            },
    {
        match best_bid {
            Some(bid) => {
                self.sell_for_cash(side, excess, bid.max(Decimal::new(1, 2)))?;
                self.order_manager.cancel_all()
            },
            None => Ok(0),
        }
    }

    /// Starts a tick: counts it, looks whether trading is halted, and cuts a loss near the end of
    /// the window.
    pub fn start_tick(&mut self, snapshot: &MarketSnapshot) -> (r: Result<
        TickStart,
        ArithmeticError,
    >)
        ensures
            match old(self)@.after_tick_start(*snapshot) {
                Some((state, start)) => r == Ok::<TickStart, ArithmeticError>(start)
                    && final(self)@ == state,
                None => r is Err,
            },
            // Orders may be placed unless a merge was just made or the window is worth less than
            // minus three dollars: its cash, with the Up shares at the fair value of Up and the Down
            // shares at that of Down, where each number is rounded once.
            r matches Ok(start) ==> !old(self)@.risk.halted ==> exists|
                up_worth: Decimal,
                down_worth: Decimal,
                part: Decimal,
                mark: Decimal,
            |
                #![trigger
                    is_rounded(up_worth, old(self)@.engine.up.shares@ * snapshot.fair_value_up@),
                    is_rounded(
                        down_worth,
                        old(self)@.engine.down.shares@ * snapshot.fair_value_down@,
                    ),
                    is_rounded(part, old(self)@.window_cash_pnl@ + up_worth@),
                    is_rounded(mark, part@ + down_worth@)
                ]
                is_rounded(up_worth, old(self)@.engine.up.shares@ * snapshot.fair_value_up@)
                    && is_rounded(
                    down_worth,
                    old(self)@.engine.down.shares@ * snapshot.fair_value_down@,
                ) && is_rounded(part, old(self)@.window_cash_pnl@ + up_worth@) && is_rounded(
                    mark,
                    part@ + down_worth@,
                ) && (start.may_order <==> -3real <= mark@ && (old(self)@.last_merge_tick == 0
                    || old(self)@.last_merge_tick + 2 <= old(self)@.current_tick + 1)),
    {
        if self.current_tick == u64::MAX {
            return Err(ArithmeticError);
        }
        self.current_tick = self.current_tick + 1;
        if self.risk_manager.is_halted() {
            return Ok(TickStart { halted: true, may_order: false, cancelled: 0 });
        }
        let (up, down) = self.merge_engine.positions();
        let up_mark = up.shares.checked_mul(snapshot.fair_value_up)?;
        let down_mark = down.shares.checked_mul(snapshot.fair_value_down)?;
        let mark = self.window_cash_pnl.checked_add(up_mark)?.checked_add(down_mark)?;
        let capped = mark < Decimal::new(-3, 0);
        proof {
            broadcast use crate::decimal::parts_of_dec;

            value_of_a_whole_number(dec(-3, 0));
            let part = old(self)@.window_cash_pnl.plus(up_mark)->0;
            assert(is_rounded(up_mark, old(self)@.engine.up.shares@ * snapshot.fair_value_up@));
            assert(is_rounded(part, old(self)@.window_cash_pnl@ + up_mark@));
            assert(is_rounded(mark, part@ + down_mark@));
        }
        let since_merge: u64 = if self.current_tick < self.last_merge_tick {
            0
        } else {
            self.current_tick - self.last_merge_tick
        };
        let cooling = self.last_merge_tick > 0 && since_merge < POST_MERGE_COOLDOWN_TICKS;
        let mut cancelled: u32 = 0;
        if capped && snapshot.remaining_secs <= 90 {
            let excess_up = up.shares.saturating_sub(down.shares);
            let excess_down = down.shares.saturating_sub(up.shares);
            if excess_up > Decimal::whole(0) {
                cancelled = self.cut_loss(Side::Up, excess_up, snapshot.up_best_bid)?;
            } else if excess_down > Decimal::whole(0) {
                cancelled = self.cut_loss(Side::Down, excess_down, snapshot.down_best_bid)?;
            }
        }
        Ok(TickStart { halted: false, may_order: !cooling && !capped, cancelled })
    }

    /// What the orders of a tick depend on.
    pub fn plan_orders(&self, snapshot: &MarketSnapshot) -> (r: Result<OrderPlan, ArithmeticError>)
        ensures
            r.ok() == self@.order_plan(*snapshot),
    {
        let (up, down) = self.merge_engine.positions();
        let open_orders: usize = self.order_manager.open_order_count();
        let (up_pending, down_pending) = self.order_manager.pending_shares_per_side()?;
        let (up_open, down_open) = self.order_manager.open_orders_per_side();
        let shares = if snapshot.remaining_secs < 120 {
            let half = self.config.shares_per_order.checked_div(Decimal::new(2, 0))?;
            half.max(self.config.min_order_shares)
        } else {
            self.config.shares_per_order
        };
        let all_up = up.shares.checked_add(up_pending)?;
        let all_down = down.shares.checked_add(down_pending)?;
        let up_heavy = heavy(all_up, all_down, self.config.shares_per_order)?;
        let down_heavy = heavy(all_down, all_up, self.config.shares_per_order)?;
        let target_combined = Decimal::new(1, 0).checked_sub(self.config.target_edge)?;
        let up_excess = all_up.checked_sub(all_down)?;
        let down_excess = all_down.checked_sub(all_up)?;
        Ok(
            OrderPlan {
                up,
                down,
                open_orders,
                shares,
                target_combined,
                up_heavy,
                down_heavy,
                up_blocked: up_excess >= self.config.max_side_imbalance || up_open >= 1,
                down_blocked: down_excess >= self.config.max_side_imbalance || down_open >= 1,
            },
        )
    }

    /// The order for a side, if the rules and the risk limits allow one, after `placed` orders of
    /// the tick.
    pub fn propose_order(
        &self,
        plan: &OrderPlan,
        snapshot: &MarketSnapshot,
        side: Side,
        placed: u64,
    ) -> (r: Result<Option<Proposal>, ArithmeticError>)
        ensures
            r.ok() == self@.proposal(*plan, *snapshot, side, placed),
    {
        let bid = match plan.choose_bid(&self.config, side, snapshot)? {
            Some(bid) => bid,
            None => {
                return Ok(None);
            },
        };
        let cost = plan.shares.checked_mul(bid)?;
        let room: usize = usize::MAX - plan.open_orders;
        if placed > room as u64 {
            return Err(ArithmeticError);
        }
        let open_orders: usize = plan.open_orders + placed as usize;
        match self.risk_manager.can_place_order(cost, open_orders)? {
            Ok(()) => Ok(Some(Proposal { bid, shares: plan.shares, cost })),
            Err(_) => Ok(None),
        }
    }

    /// Records an order that was placed.
    pub fn confirm_order(&mut self, order: Order, cost: Decimal) -> (r: Result<(), ArithmeticError>)
        ensures
            match old(self)@.after_order(order@, cost) {
                Some(state) => r is Ok && final(self)@ == state,
                None => r is Err,
            },
    {
        self.order_manager.accept_order(order);
        self.count_order(cost)
    }

    /// Records the cost of an order that was placed.
    fn count_order(&mut self, cost: Decimal) -> (r: Result<(), ArithmeticError>)
        ensures
            match old(self)@.risk.after_order(cost) {
                Some(risk) if old(self)@.window_orders < u64::MAX => r is Ok && final(self)@ == (
                StrategyState {
                    risk,
                    window_orders: (old(self)@.window_orders + 1) as u64,
                    ..old(self)@
                }),
                _ => r is Err,
            },
    {
        if self.window_orders == u64::MAX {
            return Err(ArithmeticError);
        }
        self.risk_manager.record_order(cost)?;
        self.window_orders = self.window_orders + 1;
        Ok(())
    }

    /// Looks at a side after `placed` orders of the tick, and places an order if the rules and the
    /// risk limits allow one, with a given ID and time. In live mode the order is returned instead,
    /// to be submitted and then confirmed.
    pub fn evaluate_side(
        &mut self,
        market: &Market,
        snapshot: &MarketSnapshot,
        plan: &OrderPlan,
        side: Side,
        placed: u64,
        id: &str,
        now: i64,
    ) -> (r: Result<SideOutcome, ArithmeticError>)
        ensures
            old(self)@.orders.dry_run ==> match old(self)@.after_side(
                *market,
                *snapshot,
                *plan,
                side,
                placed,
                id@,
                now,
            ) {
                Some((state, done)) => final(self)@ == state && match r {
                    Ok(SideOutcome::Placed) => done,
                    Ok(SideOutcome::Nothing) => !done,
                    _ => false,
                },
                None => r is Err,
            },
            !old(self)@.orders.dry_run ==> final(self)@ == old(self)@ && match old(self)@.proposal(
                *plan,
                *snapshot,
                side,
                placed,
            ) {
                Some(Some(proposal)) if order_error(proposal.bid, proposal.shares) is None => r matches Ok(
                    SideOutcome::Submit(order, cost),
                ) && order@ == old(self)@.order_of(*market, side, proposal, id@, now) && cost
                    == proposal.cost,
                Some(_) => r matches Ok(outcome) && outcome is Nothing,
                None => r is Err,
            },
            // An order that has to be submitted is a maker order: its price is below the ask.
            r matches Ok(SideOutcome::Submit(order, _)) ==> snapshot.ask(side) matches Some(ask)
                && order@.price@ < ask@,
    {
        let proposal = match self.propose_order(plan, snapshot, side, placed)? {
            Some(proposal) => proposal,
            None => {
                return Ok(SideOutcome::Nothing);
            },
        };
        let placement = self.order_manager.place_limit_buy_at(
            market.condition_id.as_str(),
            market.token_id(side),
            side,
            proposal.bid,
            proposal.shares,
            id,
            now,
        );
        match placement {
            Ok(Placement::Placed(_)) => {
                self.count_order(proposal.cost)?;
                Ok(SideOutcome::Placed)
            },
            Ok(Placement::Submit(order)) => {
                proof {
                    proposals_obey_the_rules(
                        old(self)@,
                        *plan,
                        *snapshot,
                        side,
                        placed,
                        proposal,
                    );
                }
                Ok(SideOutcome::Submit(order, proposal.cost))
            },
            Err(_) => Ok(SideOutcome::Nothing),
        }
    }

    /// Looks at both sides in dry-run mode, and places the orders that the rules and the risk
    /// limits allow, with given IDs and time. Returns the number of orders placed.
    pub fn evaluate_and_place_orders(
        &mut self,
        market: &Market,
        snapshot: &MarketSnapshot,
        up_id: &str,
        down_id: &str,
        now: i64,
    ) -> (r: Result<u64, ArithmeticError>)
        requires
            old(self)@.orders.dry_run,
        ensures
            match old(self)@.after_orders(*market, *snapshot, up_id@, down_id@, now) {
                Some((state, placed)) => r == Ok::<u64, ArithmeticError>(placed) && final(self)@
                    == state,
                None => r is Err,
            },
            // Every new order is a maker order: its price is below the ask.
            r is Ok ==> forall|i: int|
                0 <= i < final(self)@.orders.orders.len() && !old(self)@.orders.orders.contains(
                    #[trigger] final(self)@.orders.orders[i],
                ) ==> (snapshot.ask(final(self)@.orders.orders[i].side) matches Some(ask)
                    && final(self)@.orders.orders[i].price@ < ask@),
    {
        let plan = self.plan_orders(snapshot)?;
        let mut placed: u64 = 0;
        match self.evaluate_side(market, snapshot, &plan, Side::Up, 0, up_id, now)? {
            SideOutcome::Placed => {
                placed = 1;
            },
            _ => {},
        }
        match self.evaluate_side(market, snapshot, &plan, Side::Down, placed, down_id, now)? {
            SideOutcome::Placed => {
                placed = placed + 1;
            },
            _ => {},
        }
        proof {
            let (before, after) = (old(self)@, self@);
            assert forall|i: int|
                0 <= i < after.orders.orders.len() && !before.orders.orders.contains(
                    #[trigger] after.orders.orders[i],
                ) implies (snapshot.ask(after.orders.orders[i].side) matches Some(ask)
                && after.orders.orders[i].price@ < ask@) by {
                placed_orders_are_maker_orders(
                    before,
                    *market,
                    *snapshot,
                    up_id@,
                    down_id@,
                    now,
                    after,
                    placed,
                    i,
                );
            }
        }
        Ok(placed)
    }

    /// Cancels stale orders and releases their exposure.
    fn cancel_stale(&mut self, snapshot: &MarketSnapshot, now: i64) -> (r: Result<
        (),
        ArithmeticError,
    >)
        ensures
            match old(self)@.after_stale(*snapshot, now) {
                Some(state) => r is Ok && final(self)@ == state,
                None => r is Err,
            },
    {
        let rule = StaleRule {
            now,
            max_age_secs: 30,
            up_best_ask: snapshot.up_best_ask,
            down_best_ask: snapshot.down_best_ask,
            min_gap: Decimal::new(3, 2),
        };
        let (cancelled, released) = self.order_manager.cancel_stale_orders_at(&rule)?;
        if cancelled > 0 {
            self.risk_manager.release_cancelled_exposure(released)?;
        }
        Ok(())
    }

    /// Records the fills of orders with the given IDs.
    fn record_fills(&mut self, side: Side, ids: &Vec<String>) -> (r: Result<(), ArithmeticError>)
        ensures
            match old(self)@.after_fills(side, ids@.map_values(|id: String| id@)) {
                Some(state) => r is Ok && final(self)@ == state,
                None => r is Err,
            },
    {
        let ghost texts = ids@.map_values(|id: String| id@);
        let mut i: usize = 0;
        while i < ids.len()
            invariant
                i <= ids.len(),
                texts == ids@.map_values(|id: String| id@),
                old(self)@.after_fills(side, texts.take(i as int)) == Some(self@),
            decreases ids.len() - i,
        {
            proof {
                assert(texts.take(i + 1).drop_last() =~= texts.take(i as int));
                fills_prefix(old(self)@, side, texts, i + 1);
            }
            if let Some(order) = self.order_manager.order(ids[i].as_str()) {
                self.merge_engine.record_fill(side, order.filled, order.fill_price)?;
                let cost = order.filled.checked_mul(order.fill_price)?;
                self.window_cash_pnl = self.window_cash_pnl.checked_sub(cost)?;
            }
            i = i + 1;
        }
        assert(texts.take(i as int) =~= texts);
        Ok(())
    }

    /// Matches the orders of both sides against the simulated books.
    fn match_orders(&mut self, market: &Market, snapshot: &MarketSnapshot, now: i64) -> (r: Result<
        (),
        ArithmeticError,
    >)
        ensures
            match old(self)@.after_matching(*market, *snapshot) {
                Some(state) => r is Ok && final(self)@ == state,
                None => r is Err,
            },
    {
        let up_book = simulated_book(snapshot.fair_value_up, now)?;
        let down_book = simulated_book(snapshot.fair_value_down, now)?;
        let up_ids = self.order_manager.simulate_fills(&up_book, market.token_id(Side::Up));
        let down_ids = self.order_manager.simulate_fills(&down_book, market.token_id(Side::Down));
        self.record_fills(Side::Up, &up_ids)?;
        self.record_fills(Side::Down, &down_ids)
    }

    /// Sells the excess shares of a losing side in the middle of the window.
    fn stop_loss(
        &mut self,
        side: Side,
        own: &Position,
        other: &Position,
        snapshot: &MarketSnapshot,
    ) -> (r: Result<(), ArithmeticError>)
        ensures
            match old(self)@.after_stop_loss(side, *own, *other, *snapshot) {
                Some(state) => r is Ok && final(self)@ == state,
                None => r is Err,
            },
    {
        let fair_value = snapshot.fair_value(side);
        let losing = fair_value < Decimal::new(30, 2) || (snapshot.remaining_secs < 180
            && fair_value < Decimal::new(40, 2));
        let limit = other.shares.checked_add(self.config.shares_per_order)?;
        if own.shares > limit && losing {
            let excess = own.shares.checked_sub(other.shares)?;
            let bid = fair_value.checked_sub(Decimal::new(2, 2))?;
            self.sell_for_cash(side, excess, bid.max(Decimal::new(1, 2)))?;
        }
        Ok(())
    }

    /// Ends a tick at a given time: cancels stale orders, matches orders in dry-run mode, sells
    /// the excess of a losing side, and merges the pairs that there are.
    pub fn end_tick(&mut self, market: &Market, snapshot: &MarketSnapshot, now: i64) -> (r: Result<
        (),
        ArithmeticError,
    >)
        ensures
            match old(self)@.after_tick_end(*market, *snapshot, now) {
                Some(state) => r is Ok && final(self)@ == state,
                None => r is Err,
            },
    {
        self.cancel_stale(snapshot, now)?;
        if self.config.dry_run {
            self.match_orders(market, snapshot, now)?;
        }
        if snapshot.remaining_secs > 30 && snapshot.remaining_secs < 280 {
            let (up, down) = self.merge_engine.positions();
            self.stop_loss(Side::Up, &up, &down, snapshot)?;
            self.stop_loss(Side::Down, &down, &up, snapshot)?;
        }
        if let Some(merge) = self.merge_engine.try_merge_at(now)? {
            self.risk_manager.record_merge(merge.profit, merge.total_cost)?;
            self.last_merge_tick = self.current_tick;
            let paid = merge.total_cost.checked_add(merge.profit)?;
            self.window_cash_pnl = self.window_cash_pnl.checked_add(paid)?;
        }
        Ok(())
    }

    /// Sells the excess shares of a side at the end of a window.
    fn sell_excess(&mut self, side: Side, own: Decimal, other: Decimal, bid: Decimal) -> (r: Result<
        (),
        ArithmeticError,
    >)
        ensures
            match old(self)@.after_excess_sale(side, own, other, bid) {
                Some(state) => r is Ok && final(self)@ == state,
                None => r is Err,
            },
    {
        if own > other {
            let excess = own.checked_sub(other)?;
            let _ = self.sell(side, excess, bid)?;
        }
        Ok(())
    }

    /// Sells what is left unmerged at the end of a window.
    fn salvage(&mut self, fair_value_up: Option<Decimal>) -> (r: Result<(), ArithmeticError>)
        ensures
            match old(self)@.after_salvage(fair_value_up) {
                Some(state) => r is Ok && final(self)@ == state,
                None => r is Err,
            },
    {
        let (up, down) = self.merge_engine.positions();
        let zero = Decimal::whole(0);
        if !(up.shares > zero || down.shares > zero) {
            return Ok(());
        }
        let fair = match fair_value_up {
            Some(fair) => fair,
            None => {
                return Ok(());
            },
        };
        let fair_down = Decimal::new(1, 0).checked_sub(fair)?;
        let up_bid = bid_for(fair)?;
        let down_bid = bid_for(fair_down)?;
        self.sell_excess(Side::Up, up.shares, down.shares, up_bid)?;
        self.sell_excess(Side::Down, down.shares, up.shares, down_bid)?;
        let pairs = self.merge_engine.mergeable_pairs();
        if pairs > zero {
            let up_proceeds = self.merge_engine.record_salvage(Side::Up, pairs, up_bid)?;
            let down_proceeds = self.merge_engine.record_salvage(Side::Down, pairs, down_bid)?;
            let total = up_proceeds.checked_add(down_proceeds)?;
            if total > zero {
                self.risk_manager.record_salvage_revenue(total)?;
            }
        }
        Ok(())
    }

    /// Ends a window at a given time: merges the pairs that there are, sells what is left unmerged
    /// if there is a fair value of the Up side, and cancels all orders. Returns the results.
    pub fn close_window(&mut self, fair_value_up: Option<Decimal>, now: i64) -> (r: Result<
        WindowSummary,
        ArithmeticError,
    >)
        ensures
            match old(self)@.after_window(fair_value_up, now) {
                Some((state, summary)) => r == Ok::<WindowSummary, ArithmeticError>(summary)
                    && final(self)@ == state,
                None => r is Err,
            },
    {
        if let Some(merge) = self.merge_engine.try_merge_at(now)? {
            self.risk_manager.record_merge(merge.profit, merge.total_cost)?;
        }
        self.salvage(fair_value_up)?;
        let released = self.order_manager.open_exposure()?;
        let cancelled: u32 = self.order_manager.cancel_all()?;
        if cancelled > 0 {
            self.risk_manager.release_cancelled_exposure(released)?;
        }
        let pnl = self.merge_engine.pnl_snapshot();
        let (up, down) = self.merge_engine.positions();
        let unmerged_cost = up.total_cost.checked_add(down.total_cost)?;
        let salvage_loss = pnl.total_salvage_cost_basis.checked_sub(pnl.total_salvage_revenue)?;
        let pairs_merged = pnl.total_pairs.checked_sub(self.pairs_before)?;
        let net_pnl = pnl.total_profit.checked_sub(salvage_loss)?.checked_sub(unmerged_cost)?;
        Ok(
            WindowSummary {
                pairs_merged,
                orders_placed: self.window_orders,
                cancelled,
                released,
                pnl,
                up,
                down,
                unmerged_cost,
                salvage_loss,
                net_pnl,
            },
        )
    }
}

impl OrderPlan {
    /// Whether the other side can still be bought for a merge without loss, give or take five
    /// cents.
    fn can_afford(&self, side: Side, bid: Decimal, snapshot: &MarketSnapshot) -> (r: Result<
        bool,
        ArithmeticError,
    >)
        ensures
            r.ok() == self.affordable(side, bid, *snapshot),
    {
        let (own, other) = match side {
            Side::Up => (self.up, self.down),
            Side::Down => (self.down, self.up),
        };
        if own.shares > Decimal::whole(0) && other.shares.is_zero() {
            match snapshot.best_ask(side.opposite()) {
                Some(ask) => {
                    let projected = bid.checked_add(ask)?;
                    Ok(projected <= Decimal::new(105, 2))
                },
                None => Ok(true),
            }
        } else {
            Ok(true)
        }
    }

    /// The bid for a side, if it is to be bought.
    pub fn choose_bid(&self, config: &Config, side: Side, snapshot: &MarketSnapshot) -> (r: Result<
        Option<Decimal>,
        ArithmeticError,
    >)
        ensures
            r.ok() == self.wanted_bid(*config, side, *snapshot),
            r matches Ok(Some(bid)) ==> snapshot.ask(side) matches Some(ask) && bid@ < ask@,
            // Once the other side is held, a bid above a cent is at most what a pair may cost less
            // the average cost of the other side, rounded.
            r matches Ok(Some(bid)) ==> dec(1, 2)@ < bid@ ==> match side {
                Side::Up => self.down.shares@ > 0real ==> exists|limit: Decimal| #[trigger]
                    is_rounded(limit, self.target_combined@ - self.down.avg_cost@) && bid@
                        <= limit@,
                Side::Down => self.up.shares@ > 0real ==> exists|limit: Decimal| #[trigger]
                    is_rounded(limit, self.target_combined@ - self.up.avg_cost@) && bid@ <= limit@,
            },
    {
        let (blocked, heavy, other) = match side {
            Side::Up => (self.up_blocked, self.up_heavy, self.down),
            Side::Down => (self.down_blocked, self.down_heavy, self.up),
        };
        if blocked {
            return Ok(None);
        }
        let ask = match snapshot.best_ask(side) {
            Some(ask) => ask,
            None => {
                return Ok(None);
            },
        };
        let raw = calculate_bid_price(config, side, snapshot, &other, self.target_combined)?;
        let bid = if raw >= ask {
            ask.checked_sub(Decimal::new(1, 2))?
        } else {
            raw
        };
        let affordable = self.can_afford(side, bid, snapshot)?;
        if bid < ask && !heavy && affordable {
            if should_buy(config, side, bid, snapshot)? {
                return Ok(Some(bid));
            }
        }
        Ok(None)
    }
}

/// Whether there are more than twice the shares of the other side, and more than two orders.
fn heavy(shares: Decimal, other: Decimal, per_order: Decimal) -> (r: Result<bool, ArithmeticError>)
    ensures
        r.ok() == is_heavy(shares, other, per_order),
{
    let limit = other.checked_mul(Decimal::new(20, 1))?;
    if shares > limit {
        let two_orders = per_order.checked_mul(Decimal::new(2, 0))?;
        Ok(shares > two_orders)
    } else {
        Ok(false)
    }
}

/// Where the first `n` fills give a number that does not fit, all fills do.
proof fn fills_prefix(state: StrategyState, side: Side, ids: Seq<Seq<char>>, n: int)
    requires
        0 <= n <= ids.len(),
    ensures
        state.after_fills(side, ids.take(n)) is None ==> state.after_fills(side, ids) is None,
    decreases ids.len() - n,
{
    if n < ids.len() {
        assert(ids.take(n + 1).drop_last() =~= ids.take(n));
        fills_prefix(state, side, ids, n + 1);
    } else {
        assert(ids.take(n) =~= ids);
    }
}

/// Recording fills changes nothing but the positions and the cash.
pub proof fn fills_change_positions_and_cash(
    state: StrategyState,
    side: Side,
    ids: Seq<Seq<char>>,
    after: StrategyState,
)
    requires
        state.after_fills(side, ids) == Some(after),
    ensures
        after == (StrategyState {
            engine: after.engine,
            window_cash_pnl: after.window_cash_pnl,
            ..state
        }),
    decreases ids.len(),
{
    if ids.len() > 0 {
        let before = state.after_fills(side, ids.drop_last())->0;
        fills_change_positions_and_cash(state, side, ids.drop_last(), before);
    }
}

/// Whether two states have the same configuration, orders and number of placed orders.
pub open spec fn same_orders(a: StrategyState, b: StrategyState) -> bool {
    a.config == b.config && a.orders == b.orders && a.window_orders == b.window_orders
}

/// A sale changes no orders.
pub proof fn a_sale_changes_no_orders(
    state: StrategyState,
    side: Side,
    shares: Decimal,
    price: Decimal,
)
    ensures
        state.after_sale(side, shares, price) matches Some((after, _)) ==> same_orders(after, state),
        state.after_cash_sale(side, shares, price) matches Some(after) ==> same_orders(after, state),
{
}

/// Selling the excess of a losing side changes no orders.
pub proof fn a_stop_loss_changes_no_orders(state: StrategyState, snapshot: MarketSnapshot)
    ensures
        state.after_stop_losses(snapshot) matches Some(after) ==> same_orders(after, state),
{
    let (up, down) = (state.engine.up, state.engine.down);
    let first = state.after_stop_loss(Side::Up, up, down, snapshot);
    let up_excess = up.shares.minus(down.shares)->0;
    let up_bid = larger(snapshot.fair_value_up.minus(dec(2, 2))->0, dec(1, 2));
    a_sale_changes_no_orders(state, Side::Up, up_excess, up_bid);
    if let Some(middle) = first {
        let down_excess = down.shares.minus(up.shares)->0;
        let down_bid = larger(snapshot.fair_value_down.minus(dec(2, 2))->0, dec(1, 2));
        a_sale_changes_no_orders(middle, Side::Down, down_excess, down_bid);
    }
}

/// The end of a tick changes neither the configuration nor whether orders are simulated, and
/// places no orders.
pub proof fn the_end_of_a_tick_keeps_the_mode(
    state: StrategyState,
    market: Market,
    snapshot: MarketSnapshot,
    now: i64,
)
    ensures
        state.after_tick_end(market, snapshot, now) matches Some(after) ==> after.config
            == state.config && after.orders.dry_run == state.orders.dry_run && after.window_orders
            == state.window_orders,
{
    if let Some(fresh) = state.after_stale(snapshot, now) {
        stale_orders_keep_the_mode(state, snapshot, now);
        matching_keeps_the_mode(fresh, market, snapshot);
        if let Some(matched) = fresh.after_matching(market, snapshot) {
            selling_and_merging_keep_the_mode(matched, snapshot, now);
        }
        selling_and_merging_keep_the_mode(fresh, snapshot, now);
    }
}

/// Cancelling stale orders keeps the mode.
proof fn stale_orders_keep_the_mode(state: StrategyState, snapshot: MarketSnapshot, now: i64)
    ensures
        state.after_stale(snapshot, now) matches Some(after) ==> after.config == state.config
            && after.orders.dry_run == state.orders.dry_run && after.window_orders
            == state.window_orders,
{
}

/// Matching orders keeps the mode.
proof fn matching_keeps_the_mode(state: StrategyState, market: Market, snapshot: MarketSnapshot)
    ensures
        state.after_matching(market, snapshot) matches Some(after) ==> after.config == state.config
            && after.orders.dry_run == state.orders.dry_run && after.window_orders
            == state.window_orders,
{
    assert forall|s: StrategyState, side: Side, ids: Seq<Seq<char>>|
        (#[trigger] s.after_fills(side, ids) matches Some(after) ==> same_orders(after, s)) by {
        if let Some(after) = s.after_fills(side, ids) {
            fills_change_positions_and_cash(s, side, ids, after);
        }
    }
}

/// Selling the excess of a losing side, and merging, keep the mode.
proof fn selling_and_merging_keep_the_mode(
    state: StrategyState,
    snapshot: MarketSnapshot,
    now: i64,
)
    ensures
        state.after_stop_losses(snapshot) matches Some(sold) ==> same_orders(sold, state) && (
        sold.after_merge(now) matches Some(after) ==> same_orders(after, state)),
{
    a_stop_loss_changes_no_orders(state, snapshot);
}

/// Selling what is left unmerged changes no orders.
pub proof fn salvage_changes_no_orders(state: StrategyState, fair_value_up: Option<Decimal>)
    ensures
        state.after_salvage(fair_value_up) matches Some(after) ==> same_orders(after, state),
{
    let (up, down) = (state.engine.up.shares, state.engine.down.shares);
    if let Some(fair) = fair_value_up {
        let up_bid = simulated_bid(fair)->0;
        let down_bid = simulated_bid(complement(fair)->0)->0;
        an_excess_sale_changes_no_orders(state, Side::Up, up, down, up_bid);
        if let Some(up_sold) = state.after_excess_sale(Side::Up, up, down, up_bid) {
            an_excess_sale_changes_no_orders(up_sold, Side::Down, down, up, down_bid);
            if let Some(sold) = up_sold.after_excess_sale(Side::Down, down, up, down_bid) {
                a_pair_sale_changes_no_orders(sold, up_bid, down_bid);
            }
        }
    }
}

/// Selling the excess of a side changes no orders.
proof fn an_excess_sale_changes_no_orders(
    state: StrategyState,
    side: Side,
    own: Decimal,
    other: Decimal,
    bid: Decimal,
)
    ensures
        state.after_excess_sale(side, own, other, bid) matches Some(after) ==> same_orders(
            after,
            state,
        ),
{
    a_sale_changes_no_orders(state, side, own.minus(other)->0, bid);
}

/// Selling pairs changes no orders.
proof fn a_pair_sale_changes_no_orders(state: StrategyState, up_bid: Decimal, down_bid: Decimal)
    ensures
        state.after_pair_sale(up_bid, down_bid) matches Some(after) ==> same_orders(after, state),
{
}

/// After the end of a window no order is open and nothing is pending.
pub proof fn a_closed_window_has_no_open_orders(
    state: StrategyState,
    fair_value_up: Option<Decimal>,
    now: i64,
)
    ensures
        state.after_window(fair_value_up, now) matches Some((after, _)) ==> live_count(
            after.orders.orders,
        ) == 0 && live_exposure(after.orders.orders) == Some(dec(0, 0)) && pending_shares(
            after.orders.orders,
            Side::Up,
        ) == Some(dec(0, 0)) && pending_shares(after.orders.orders, Side::Down) == Some(dec(0, 0)),
        state.after_window(fair_value_up, now) matches Some((after, _)) ==> after.config
            == state.config && after.orders.dry_run == state.orders.dry_run && after.window_orders
            == state.window_orders,
{
    if let Some(merged) = state.after_last_merge(now) {
        the_last_merge_changes_no_orders(state, now);
        salvage_changes_no_orders(merged, fair_value_up);
        if let Some(sold) = merged.after_salvage(fair_value_up) {
            closing_leaves_no_orders(sold);
        }
    }
}

/// The last merge of a window changes no orders.
proof fn the_last_merge_changes_no_orders(state: StrategyState, now: i64)
    ensures
        state.after_last_merge(now) matches Some(after) ==> same_orders(after, state),
{
}

/// Closing the orders leaves none open.
proof fn closing_leaves_no_orders(state: StrategyState)
    ensures
        state.after_closing_orders() matches Some((after, _, _)) ==> live_count(
            after.orders.orders,
        ) == 0 && live_exposure(after.orders.orders) == Some(dec(0, 0)) && pending_shares(
            after.orders.orders,
            Side::Up,
        ) == Some(dec(0, 0)) && pending_shares(after.orders.orders, Side::Down) == Some(dec(0, 0))
            && after.config == state.config && after.orders.dry_run == state.orders.dry_run
            && after.window_orders == state.window_orders,
{
    cancelling_all_leaves_no_live_order(state.orders);
}

/// The start of a tick changes neither the configuration nor whether orders are simulated.
pub proof fn the_start_of_a_tick_keeps_the_mode(state: StrategyState, snapshot: MarketSnapshot)
    ensures
        state.after_tick_start(snapshot) matches Some((after, _)) ==> after.config == state.config
            && after.orders.dry_run == state.orders.dry_run,
{
    if let Some(next) = state.next_tick() {
        let excess_up = saturating_difference(next.engine.up.shares, next.engine.down.shares);
        let excess_down = saturating_difference(next.engine.down.shares, next.engine.up.shares);
        cutting_a_loss_keeps_the_mode(next, Side::Up, excess_up, snapshot.up_best_bid);
        cutting_a_loss_keeps_the_mode(next, Side::Down, excess_down, snapshot.down_best_bid);
    }
}

/// Cutting a loss keeps the mode.
proof fn cutting_a_loss_keeps_the_mode(
    state: StrategyState,
    side: Side,
    excess: Decimal,
    best_bid: Option<Decimal>,
)
    ensures
        state.after_loss_cut(side, excess, best_bid) matches Some((after, _)) ==> after.config
            == state.config && after.orders.dry_run == state.orders.dry_run,
{
    if let Some(bid) = best_bid {
        a_sale_changes_no_orders(state, side, excess, larger(bid, dec(1, 2)));
    }
}

/// Placing orders changes neither the configuration nor whether orders are simulated.
pub proof fn placing_orders_keeps_the_mode(
    state: StrategyState,
    market: Market,
    snapshot: MarketSnapshot,
    up_id: Seq<char>,
    down_id: Seq<char>,
    now: i64,
)
    ensures
        state.after_orders(market, snapshot, up_id, down_id, now) matches Some((after, _))
            ==> after.config == state.config && after.orders.dry_run == state.orders.dry_run,
{
    if let Some(plan) = state.order_plan(snapshot) {
        a_side_keeps_the_mode(state, market, snapshot, plan, Side::Up, 0, up_id, now);
        if let Some((up_done, up_placed)) = state.after_side(
            market,
            snapshot,
            plan,
            Side::Up,
            0,
            up_id,
            now,
        ) {
            let placed: u64 = if up_placed {
                1
            } else {
                0
            };
            a_side_keeps_the_mode(up_done, market, snapshot, plan, Side::Down, placed, down_id, now);
        }
    }
}

/// Looking at a side keeps the mode.
proof fn a_side_keeps_the_mode(
    state: StrategyState,
    market: Market,
    snapshot: MarketSnapshot,
    plan: OrderPlan,
    side: Side,
    placed: u64,
    id: Seq<char>,
    now: i64,
)
    ensures
        state.after_side(market, snapshot, plan, side, placed, id, now) matches Some((after, _))
            ==> after.config == state.config && after.orders.dry_run == state.orders.dry_run,
{
}

/// No orders are placed right after a merge, while the loss of the window is at its cap, or while
/// trading is halted.
pub proof fn ticks_hold_back_orders(
    state: StrategyState,
    snapshot: MarketSnapshot,
    after: StrategyState,
    start: TickStart,
)
    requires
        state.after_tick_start(snapshot) == Some((after, start)),
    ensures
        start.may_order ==> !state.risk.halted && !after.cools_down(),
        start.may_order ==> (state.mark_to_market(snapshot) matches Some(mark)
            && !StrategyState::is_capped(mark)),
        start.may_order ==> after.orders == state.orders && after.engine == state.engine
            && start.cancelled == 0,
        start.halted == state.risk.halted,
        after.current_tick == state.current_tick + 1,
{
}

/// After a merge no orders are placed in the next tick, and they are again in the one after that.
pub proof fn a_merge_is_followed_by_a_pause(
    state: StrategyState,
    now: i64,
    merged: StrategyState,
    next: StrategyState,
    second: StrategyState,
)
    requires
        state.current_tick > 0,
        state.engine.pairs()@ >= 1real,
        state.after_merge(now) == Some(merged),
        merged.next_tick() == Some(next),
        next.next_tick() == Some(second),
    ensures
        next.cools_down(),
        !second.cools_down(),
{
}

/// A side that has an open order, or is too far ahead, gets no other order.
pub proof fn blocked_sides_get_no_orders(
    state: StrategyState,
    snapshot: MarketSnapshot,
    plan: OrderPlan,
    side: Side,
    placed: u64,
)
    requires
        state.order_plan(snapshot) == Some(plan),
        live_count_of(state.orders.orders, side) >= 1,
    ensures
        state.proposal(plan, snapshot, side, placed) == Some(None::<Proposal>),
{
}

/// Selling keeps a halt and the orders.
proof fn a_sale_keeps_a_halt(state: StrategyState, side: Side, own: Decimal, other: Decimal, bid: Decimal)
    requires
        state.risk.halted,
    ensures
        state.after_excess_sale(side, own, other, bid) matches Some(after) ==> after.risk.halted
            && after.orders == state.orders,
{
}

/// What is sold at the end of a window keeps a halt and the orders.
proof fn salvage_keeps_a_halt(state: StrategyState, fair_value_up: Option<Decimal>)
    requires
        state.risk.halted,
    ensures
        state.after_salvage(fair_value_up) matches Some(after) ==> after.risk.halted && after.orders
            == state.orders,
{
    let (up, down) = (state.engine.up.shares, state.engine.down.shares);
    if let Some(fair) = fair_value_up {
        if let Some(fair_down) = complement(fair) {
            let (up_bid, down_bid) = (simulated_bid(fair)->0, simulated_bid(fair_down)->0);
            a_sale_keeps_a_halt(state, Side::Up, up, down, up_bid);
            if let Some(up_sold) = state.after_excess_sale(Side::Up, up, down, up_bid) {
                a_sale_keeps_a_halt(up_sold, Side::Down, down, up, down_bid);
            }
        }
    }
}

/// Trading that is halted stays halted when a window is closed, and no order is added.
pub proof fn closing_a_window_keeps_a_halt(
    state: StrategyState,
    fair_value_up: Option<Decimal>,
    now: i64,
)
    requires
        state.risk.halted,
    ensures
        state.after_window(fair_value_up, now) matches Some((after, _)) ==> after.risk.halted
            && no_new_ids(state.orders.orders, after.orders.orders),
{
    if let Some(merged) = state.after_last_merge(now) {
        assert(merged.risk.halted && merged.orders == state.orders);
        salvage_keeps_a_halt(merged, fair_value_up);
        cancelling_gives_no_new_ids(state.orders);
    }
}

/// A sale of shares that are held leaves the others.
proof fn a_sale_leaves_the_rest(
    engine: EngineState,
    side: Side,
    shares: Decimal,
    bid: Decimal,
    after: EngineState,
    proceeds: Decimal,
)
    requires
        engine.after_salvage(side, shares, bid) == Some((after, proceeds)),
        0real < shares@ <= engine.position(side).shares@,
    ensures
        engine.position(side).shares.minus(shares) == Some(after.position(side).shares),
        after.position(side.other()) == engine.position(side.other()),
{
}

/// The last merge of a window leaves less than a pair.
proof fn the_last_merge_leaves_no_pair(state: StrategyState, now: i64, merged: StrategyState)
    requires
        state.after_last_merge(now) == Some(merged),
        state.engine.has_no_debt(),
        subtracts_exactly(state.engine.up.shares, state.engine.down.shares),
    ensures
        merged.engine.has_no_debt(),
        subtracts_exactly(merged.engine.up.shares, merged.engine.down.shares),
        merged.engine.pairs()@ < 1real,
{
    broadcast use crate::decimal::sign_is_that_of_the_mantissa;

    let (up, down) = (state.engine.up.shares, state.engine.down.shares);
    exact_differences_are_symmetric(up, down);
    if state.engine.pairs()@ >= 1real {
        nothing_is_left_of_a_whole(up);
        nothing_is_left_of_a_whole(down);
        kept_difference_is_exact(up, down);
        kept_difference_is_exact(down, up);
    }
}

/// Selling the excess of a side leaves as much of it as of the other side.
proof fn the_excess_is_sold(
    state: StrategyState,
    side: Side,
    bid: Decimal,
    after: StrategyState,
)
    requires
        ({
            let (own, other) = (
                state.engine.position(side).shares,
                state.engine.position(side.other()).shares,
            );
            state.after_excess_sale(side, own, other, bid) == Some(after) && subtracts_exactly(
                own,
                other,
            ) && other@ < own@
        }),
        state.engine.has_no_debt(),
    ensures
        after.engine.position(side).shares.is_decimal(),
        after.engine.position(side).shares@ == state.engine.position(side.other()).shares@,
        after.engine.position(side.other()) == state.engine.position(side.other()),
{
    let (own, other) = (
        state.engine.position(side).shares,
        state.engine.position(side.other()).shares,
    );
    kept_difference_is_exact(own, other);
    an_exact_difference_leaves_the_rest(own, other);
    let excess = own.minus(other)->0;
    let (sold, proceeds) = state.engine.after_salvage(side, excess, bid)->0;
    a_sale_leaves_the_rest(state.engine, side, excess, bid, sold, proceeds);
}

/// Selling the pairs that are left leaves nothing, where both sides are held alike.
proof fn the_pairs_are_sold(
    state: StrategyState,
    up_bid: Decimal,
    down_bid: Decimal,
    after: StrategyState,
)
    requires
        state.after_pair_sale(up_bid, down_bid) == Some(after),
        state.engine.has_no_debt(),
        state.engine.up.shares.is_decimal(),
        state.engine.down.shares.is_decimal(),
        state.engine.up.shares@ == state.engine.down.shares@,
        state.engine.up.shares@ < 1real,
    ensures
        after.engine.up.shares@ == 0real,
        after.engine.down.shares@ == 0real,
{
    let (up, down) = (state.engine.up.shares, state.engine.down.shares);
    if up@ > 0real {
        nothing_is_left_of_a_whole(up);
        small_numbers_are_exact(down, up);
        let (up_sold, up_proceeds) = state.engine.after_salvage(Side::Up, up, up_bid)->0;
        a_sale_leaves_the_rest(state.engine, Side::Up, up, up_bid, up_sold, up_proceeds);
        let (sold, proceeds) = up_sold.after_salvage(Side::Down, up, down_bid)->0;
        a_sale_leaves_the_rest(up_sold, Side::Down, up, down_bid, sold, proceeds);
    }
}

/// A window that is closed with a price leaves no shares on either side. This holds unless the
/// difference of the two sides had to be rounded.
pub proof fn a_window_closed_with_a_price_leaves_no_shares(
    state: StrategyState,
    fair_value_up: Decimal,
    now: i64,
    after: StrategyState,
    summary: WindowSummary,
)
    requires
        state.after_window(Some(fair_value_up), now) == Some((after, summary)),
        state.engine.has_no_debt(),
        subtracts_exactly(state.engine.up.shares, state.engine.down.shares),
    ensures
        after.engine.up.shares@ == 0real,
        after.engine.down.shares@ == 0real,
        summary.up.shares@ == 0real,
        summary.down.shares@ == 0real,
{
    let merged = state.after_last_merge(now)->0;
    the_last_merge_leaves_no_pair(state, now, merged);
    let sold = merged.after_salvage(Some(fair_value_up))->0;
    let (up, down) = (merged.engine.up.shares, merged.engine.down.shares);
    exact_differences_are_symmetric(up, down);
    if up@ > 0real || down@ > 0real {
        let fair_down = complement(fair_value_up)->0;
        let (up_bid, down_bid) = (simulated_bid(fair_value_up)->0, simulated_bid(fair_down)->0);
        let up_sold = merged.after_excess_sale(Side::Up, up, down, up_bid)->0;
        let even = up_sold.after_excess_sale(Side::Down, down, up, down_bid)->0;
        if down@ < up@ {
            the_excess_is_sold(merged, Side::Up, up_bid, up_sold);
        } else if up@ < down@ {
            the_excess_is_sold(merged, Side::Down, down_bid, even);
        }
        the_pairs_are_sold(even, up_bid, down_bid, sold);
    }
}

/// Every order that a tick places is a maker order: its price is below the best ask of its side.
pub proof fn placed_orders_are_maker_orders(
    state: StrategyState,
    market: Market,
    snapshot: MarketSnapshot,
    up_id: Seq<char>,
    down_id: Seq<char>,
    now: i64,
    after: StrategyState,
    placed: u64,
    i: int,
)
    requires
        state.after_orders(market, snapshot, up_id, down_id, now) == Some((after, placed)),
        0 <= i < after.orders.orders.len(),
        !state.orders.orders.contains(after.orders.orders[i]),
    ensures
        snapshot.ask(after.orders.orders[i].side) matches Some(ask)
            && after.orders.orders[i].price@ < ask@,
{
    let plan = state.order_plan(snapshot)->0;
    let (up_done, up_placed) = state.after_side(market, snapshot, plan, Side::Up, 0, up_id, now)->0;
    let count: u64 = if up_placed {
        1
    } else {
        0
    };
    let order = after.orders.orders[i];
    if !up_done.orders.orders.contains(order) {
        a_placed_order_is_a_maker_order(
            up_done,
            market,
            snapshot,
            plan,
            Side::Down,
            count,
            down_id,
            now,
            i,
        );
    } else {
        let k = up_done.orders.orders.index_of(order);
        a_placed_order_is_a_maker_order(
            state,
            market,
            snapshot,
            plan,
            Side::Up,
            0,
            up_id,
            now,
            k,
        );
    }
}

/// An order that is placed for a side is a maker order.
proof fn a_placed_order_is_a_maker_order(
    state: StrategyState,
    market: Market,
    snapshot: MarketSnapshot,
    plan: OrderPlan,
    side: Side,
    placed: u64,
    id: Seq<char>,
    now: i64,
    i: int,
)
    requires
        state.after_side(market, snapshot, plan, side, placed, id, now) matches Some((after, _))
            && 0 <= i < after.orders.orders.len() && !state.orders.orders.contains(
            after.orders.orders[i],
        ),
    ensures
        ({
            let after = (state.after_side(market, snapshot, plan, side, placed, id, now)->0).0;
            let order = after.orders.orders[i];
            snapshot.ask(order.side) matches Some(ask) && order.price@ < ask@
        }),
{
    let after = (state.after_side(market, snapshot, plan, side, placed, id, now)->0).0;
    if let Some(Some(proposal)) = state.proposal(plan, snapshot, side, placed) {
        proposals_obey_the_rules(state, plan, snapshot, side, placed, proposal);
        let order = state.order_of(market, side, proposal, id, now);
        if after.orders.orders[i] != order {
            assert(after.orders.orders[i] == state.orders.orders[i]);
        }
    }
}

/// An order that is proposed obeys the rules and the risk limits: its bid is below the ask and at
/// most the limit for a single side, and the risk manager allows its cost.
pub proof fn proposals_obey_the_rules(
    state: StrategyState,
    plan: OrderPlan,
    snapshot: MarketSnapshot,
    side: Side,
    placed: u64,
    proposal: Proposal,
)
    requires
        state.proposal(plan, snapshot, side, placed) == Some(Some(proposal)),
    ensures
        snapshot.ask(side) matches Some(ask) && proposal.bid@ < ask@,
        proposal.bid@ <= state.config.max_side_price@,
        buys(state.config, side, proposal.bid, snapshot) == Some(true),
        plan.shares.times(proposal.bid) == Some(proposal.cost),
        state.risk.verdict(proposal.cost, (plan.open_orders + placed) as usize) == Some(
            Ok::<(), Seq<char>>(()),
        ),
        !state.risk.halted,
        !plan.blocked(side),
        !plan.heavy(side),
{
    purchases_are_within_limits(state.config, side, proposal.bid, snapshot);
}

/// A side that is ahead by the largest imbalance, or more, gets no order. Unfilled shares of open
/// orders count as held.
pub proof fn sides_far_ahead_get_no_orders(
    state: StrategyState,
    snapshot: MarketSnapshot,
    plan: OrderPlan,
    side: Side,
    placed: u64,
    own: Decimal,
    other: Decimal,
    excess: Decimal,
)
    requires
        state.order_plan(snapshot) == Some(plan),
        sum_of(
            Some(state.engine.position(side).shares),
            pending_shares(state.orders.orders, side),
        ) == Some(own),
        sum_of(
            Some(state.engine.position(side.other()).shares),
            pending_shares(state.orders.orders, side.other()),
        ) == Some(other),
        own.minus(other) == Some(excess),
        state.config.max_side_imbalance@ <= excess@,
    ensures
        state.proposal(plan, snapshot, side, placed) == Some(None::<Proposal>),
{
}

/// An order that is placed keeps the limits of the risk manager: on its own cost, on the capital,
/// on the exposure of the market, on the investment of the window, and on the open orders.
pub proof fn placed_orders_keep_the_risk_limits(
    state: StrategyState,
    plan: OrderPlan,
    snapshot: MarketSnapshot,
    side: Side,
    placed: u64,
    proposal: Proposal,
    order: OrderState,
    after: StrategyState,
)
    requires
        state.proposal(plan, snapshot, side, placed) == Some(Some(proposal)),
        state.after_order(order, proposal.cost) == Some(after),
    ensures
        proposal.cost@ <= state.risk.available_capital@,
        state.risk.max_order() matches Some(most) && proposal.cost@ <= most@,
        after.risk.current_market_exposure@ <= after.risk.max_exposure_per_market@,
        after.risk.window_total_invested@ <= after.risk.max_window_investment@,
        plan.open_orders + placed < state.risk.max_open_orders,
{
    allowed_orders_keep_the_limits(
        state.risk,
        proposal.cost,
        (plan.open_orders + placed) as usize,
        after.risk,
    );
}

/// A tick in dry-run mode places at most one order for each side, so that with new IDs no side ever
/// has more than one open order.
pub proof fn a_side_has_one_open_order_at_most(
    state: StrategyState,
    market: Market,
    snapshot: MarketSnapshot,
    up_id: Seq<char>,
    down_id: Seq<char>,
    now: i64,
    after: StrategyState,
    placed: u64,
)
    requires
        live_count_of(state.orders.orders, Side::Up) <= 1,
        live_count_of(state.orders.orders, Side::Down) <= 1,
        !has_id(state.orders.orders, up_id),
        !has_id(state.orders.orders, down_id),
        up_id != down_id,
        state.after_orders(market, snapshot, up_id, down_id, now) == Some((after, placed)),
    ensures
        live_count_of(after.orders.orders, Side::Up) <= 1,
        live_count_of(after.orders.orders, Side::Down) <= 1,
        placed <= 2,
        after.orders.orders.len() == state.orders.orders.len() + placed,
{
    let plan = state.order_plan(snapshot)->0;
    let (up_done, up_placed) = state.after_side(
        market,
        snapshot,
        plan,
        Side::Up,
        0,
        up_id,
        now,
    )->0;
    if live_count_of(state.orders.orders, Side::Up) >= 1 {
        blocked_sides_get_no_orders(state, snapshot, plan, Side::Up, 0);
    }
    if up_placed {
        let proposal = state.proposal(plan, snapshot, Side::Up, 0)->0->0;
        let order = state.order_of(market, Side::Up, proposal, up_id, now);
        a_new_order_counts_once(state.orders, order);
        assert(!has_id(up_done.orders.orders, down_id)) by {
            if has_id(up_done.orders.orders, down_id) {
                let i = index_of(up_done.orders.orders, down_id);
                assert(is_first_with(up_done.orders.orders, down_id, i));
                assert(state.orders.orders[i].id == down_id);
                an_id_has_a_first_order(state.orders.orders, down_id, i);
            }
        }
    }
    let count: u64 = if up_placed {
        1
    } else {
        0
    };
    if live_count_of(state.orders.orders, Side::Down) >= 1 {
        assert(plan.blocked(Side::Down));
    }
    let (_, down_placed) = up_done.after_side(
        market,
        snapshot,
        plan,
        Side::Down,
        count,
        down_id,
        now,
    )->0;
    if down_placed {
        let proposal = up_done.proposal(plan, snapshot, Side::Down, count)->0->0;
        let order = up_done.order_of(market, Side::Down, proposal, down_id, now);
        a_new_order_counts_once(up_done.orders, order);
    }
}

} // verus!
