//! Risk management: circuit breakers, position limits, daily stop loss.

use vstd::prelude::*;
use vstd::string::*;
use crate::decimal::{ArithmeticError, Decimal};
use crate::decimal::{dec, has_room, is_rounded, is_within, lies_within_room, smaller, sum_of};
use crate::decimal::{rounding_errors_are_small, rounding_passes_no_decimal, units_in_one};
use crate::decimal::{adds_exactly, subtracts_exactly};
use crate::decimal::{an_exact_difference_is_undone, an_exact_sum_is_undone};
use crate::decimal::{kept_difference_is_exact, kept_sum_is_exact};
use crate::text::{bool_text, count_text};
use crate::text::{bool_chars, digits_of};

verus! {

/// Risk manager enforces trading limits.
pub struct RiskManager {
    /// Starting capital for the session
    starting_capital: Decimal,
    /// Current available capital
    available_capital: Decimal,
    /// Maximum position as fraction of capital
    max_position_pct: Decimal,
    /// Daily stop loss threshold (fraction)
    daily_stop_loss_pct: Decimal,
    /// Maximum consecutive losses before the circuit breaker
    consecutive_loss_limit: u32,
    /// Current consecutive losses
    consecutive_losses: u32,
    /// Total profit and loss of the day
    daily_pnl: Decimal,
    /// Maximum exposure per market window
    max_exposure_per_market: Decimal,
    /// Current market window exposure
    current_market_exposure: Decimal,
    /// Total invested this window (not reduced by merges)
    window_total_invested: Decimal,
    /// Maximum total investment per window
    max_window_investment: Decimal,
    /// Maximum open orders
    max_open_orders: usize,
    /// Whether trading is halted
    halted: bool,
    /// Halt reason
    halt_reason: Option<String>,
}

/// The state of a risk manager.
pub ghost struct RiskState {
    pub starting_capital: Decimal,
    pub available_capital: Decimal,
    pub max_position_pct: Decimal,
    pub daily_stop_loss_pct: Decimal,
    pub consecutive_loss_limit: u32,
    pub consecutive_losses: u32,
    pub daily_pnl: Decimal,
    pub max_exposure_per_market: Decimal,
    pub current_market_exposure: Decimal,
    pub window_total_invested: Decimal,
    pub max_window_investment: Decimal,
    pub max_open_orders: usize,
    pub halted: bool,
    pub halt_reason: Option<Seq<char>>,
}

impl View for RiskManager {
    type V = RiskState;

    closed spec fn view(&self) -> RiskState {
        RiskState {
            starting_capital: self.starting_capital,
            available_capital: self.available_capital,
            max_position_pct: self.max_position_pct,
            daily_stop_loss_pct: self.daily_stop_loss_pct,
            consecutive_loss_limit: self.consecutive_loss_limit,
            consecutive_losses: self.consecutive_losses,
            daily_pnl: self.daily_pnl,
            max_exposure_per_market: self.max_exposure_per_market,
            current_market_exposure: self.current_market_exposure,
            window_total_invested: self.window_total_invested,
            max_window_investment: self.max_window_investment,
            max_open_orders: self.max_open_orders,
            halted: self.halted,
            halt_reason: match self.halt_reason {
                Some(reason) => Some(reason@),
                None => None,
            },
        }
    }
}

/// What a request for an order is answered: allowed, or refused for a reason.
pub type OrderVerdict = Result<(), Seq<char>>;

/// The answer as text.
pub open spec fn verdict_chars(r: Result<(), String>) -> OrderVerdict {
    match r {
        Ok(()) => Ok(()),
        Err(reason) => Err(reason@),
    }
}

impl RiskState {
    /// The state at the start of a session.
    pub open spec fn initial(
        starting_capital: Decimal,
        max_position_pct: Decimal,
        daily_stop_loss_pct: Decimal,
        consecutive_loss_limit: u32,
        max_exposure_per_market: Decimal,
        max_open_orders: usize,
    ) -> Option<RiskState> {
        match max_exposure_per_market.times(dec(15, 1)) {
            Some(max_window_investment) => Some(
                RiskState {
                    starting_capital,
                    available_capital: starting_capital,
                    max_position_pct,
                    daily_stop_loss_pct,
                    consecutive_loss_limit,
                    consecutive_losses: 0,
                    daily_pnl: dec(0, 0),
                    max_exposure_per_market,
                    current_market_exposure: dec(0, 0),
                    window_total_invested: dec(0, 0),
                    max_window_investment,
                    max_open_orders,
                    halted: false,
                    halt_reason: None,
                },
            ),
            None => None,
        }
    }

    /// The loss of the day beyond which trading stops.
    pub open spec fn stop_loss(self) -> Option<Decimal> {
        self.starting_capital.times(self.daily_stop_loss_pct)
    }

    /// Whether the loss of the day is beyond a given loss.
    pub open spec fn lost_more_than(self, loss: Decimal) -> bool {
        self.daily_pnl@ < loss.negated()@
    }

    /// The most that one order may cost.
    pub open spec fn max_order(self) -> Option<Decimal> {
        self.starting_capital.times(self.max_position_pct)
    }

    pub open spec fn halted_chars(self) -> Seq<char> {
        "Trading halted: "@ + match self.halt_reason {
            Some(reason) => reason,
            None => "unknown"@,
        }
    }

    /// The answer to a request for an order. The outer `None` stands for a number that does not
    /// fit.
    pub open spec fn verdict(self, cost: Decimal, open_orders: usize) -> Option<OrderVerdict> {
        if self.halted {
            Some(Err(self.halted_chars()))
        } else {
            match self.stop_loss() {
                Some(loss) => if self.lost_more_than(loss) {
                    match self.daily_stop_loss_pct.times(dec(100, 0)) {
                        Some(percent) => Some(
                            Err(
                                "Daily stop loss hit: P&L $"@ + self.daily_pnl.fixed_chars(2)
                                    + " exceeds "@ + percent.fixed_chars(0) + "% limit"@,
                            ),
                        ),
                        None => None,
                    }
                } else if self.consecutive_losses >= self.consecutive_loss_limit {
                    Some(
                        Err(
                            "Circuit breaker: "@ + digits_of(self.consecutive_losses as nat)
                                + " consecutive losses (limit: "@ + digits_of(
                                self.consecutive_loss_limit as nat,
                            ) + ")"@,
                        ),
                    )
                } else if cost@ > self.available_capital@ {
                    Some(
                        Err(
                            "Insufficient capital: need $"@ + cost.fixed_chars(2) + ", have $"@
                                + self.available_capital.fixed_chars(2),
                        ),
                    )
                } else {
                    self.size_verdict(cost, open_orders)
                },
                None => None,
            }
        }
    }

    /// The answer of the limits on the size of an order, the exposure and the investment.
    pub open spec fn size_verdict(self, cost: Decimal, open_orders: usize) -> Option<
        OrderVerdict,
    > {
        match self.max_order() {
            Some(max_order) => if cost@ > max_order@ {
                match self.max_position_pct.times(dec(100, 0)) {
                    Some(percent) => Some(
                        Err(
                            "Order $"@ + cost.fixed_chars(2) + " exceeds max position "@
                                + percent.fixed_chars(0) + "% = $"@ + max_order.fixed_chars(2),
                        ),
                    ),
                    None => None,
                }
            } else {
                match self.current_market_exposure.plus(cost) {
                    Some(exposure) => if exposure@ > self.max_exposure_per_market@ {
                        Some(
                            Err(
                                "Market exposure $"@ + self.current_market_exposure.fixed_chars(2)
                                    + " + $"@ + cost.fixed_chars(2) + " would exceed limit $"@
                                    + self.max_exposure_per_market.fixed_chars(2),
                            ),
                        )
                    } else {
                        self.window_verdict(cost, open_orders)
                    },
                    None => None,
                }
            },
            None => None,
        }
    }

    /// The answer of the limits on the investment of a window and on the open orders.
    pub open spec fn window_verdict(self, cost: Decimal, open_orders: usize) -> Option<
        OrderVerdict,
    > {
        match self.window_total_invested.plus(cost) {
            Some(invested) => if invested@ > self.max_window_investment@ {
                Some(
                    Err(
                        "Window total investment $"@ + self.window_total_invested.fixed_chars(2)
                            + " + $"@ + cost.fixed_chars(2) + " would exceed limit $"@
                            + self.max_window_investment.fixed_chars(2),
                    ),
                )
            } else if open_orders >= self.max_open_orders {
                Some(
                    Err(
                        "Too many open orders: "@ + digits_of(open_orders as nat) + " (limit: "@
                            + digits_of(self.max_open_orders as nat) + ")"@,
                    ),
                )
            } else {
                Some(Ok(()))
            },
            None => None,
        }
    }

    /// The state with trading halted.
    pub open spec fn with_halt(self, reason: Seq<char>) -> RiskState {
        RiskState { halted: true, halt_reason: Some(reason), ..self }
    }

    /// The state after the capital of an order was taken.
    pub open spec fn after_order(self, cost: Decimal) -> Option<RiskState> {
        match (
            self.available_capital.minus(cost),
            self.current_market_exposure.plus(cost),
            self.window_total_invested.plus(cost),
        ) {
            (Some(available), Some(exposure), Some(invested)) => Some(
                RiskState {
                    available_capital: available,
                    current_market_exposure: exposure,
                    window_total_invested: invested,
                    ..self
                },
            ),
            _ => None,
        }
    }

    /// The state after `amount` came back: as capital, and off the exposure as far as there is
    /// any.
    pub open spec fn after_return(self, amount: Decimal) -> Option<RiskState> {
        let release = smaller(amount, self.current_market_exposure);
        match (
            self.available_capital.plus(amount),
            self.current_market_exposure.minus(release),
        ) {
            (Some(available), Some(exposure)) => Some(
                RiskState {
                    available_capital: available,
                    current_market_exposure: exposure,
                    ..self
                },
            ),
            _ => None,
        }
    }

    /// The state after a merge, before the loss of the day is looked at.
    pub open spec fn after_payout(self, profit: Decimal, cost_returned: Decimal) -> Option<
        RiskState,
    > {
        let release = smaller(cost_returned, self.current_market_exposure);
        match (
            self.daily_pnl.plus(profit),
            sum_of(Some(self.available_capital), cost_returned.plus(profit)),
            self.current_market_exposure.minus(release),
        ) {
            (Some(daily_pnl), Some(available), Some(exposure)) => {
                let paid = RiskState {
                    daily_pnl,
                    available_capital: available,
                    current_market_exposure: exposure,
                    ..self
                };
                if profit@ > 0real {
                    Some(RiskState { consecutive_losses: 0, ..paid })
                } else if self.consecutive_losses == u32::MAX {
                    None
                } else {
                    let losses = (self.consecutive_losses + 1) as u32;
                    let counted = RiskState { consecutive_losses: losses, ..paid };
                    if losses >= self.consecutive_loss_limit {
                        Some(
                            counted.with_halt(
                                "Circuit breaker triggered: too many consecutive losses"@,
                            ),
                        )
                    } else {
                        Some(counted)
                    }
                }
            },
            _ => None,
        }
    }

    /// The state after a merge.
    pub open spec fn after_merge(self, profit: Decimal, cost_returned: Decimal) -> Option<
        RiskState,
    > {
        match (self.after_payout(profit, cost_returned), self.stop_loss()) {
            (Some(paid), Some(loss)) => if paid.lost_more_than(loss) {
                Some(paid.with_halt("Daily stop loss exceeded"@))
            } else {
                Some(paid)
            },
            _ => None,
        }
    }

    /// The state at the start of a window.
    pub open spec fn for_new_window(self) -> RiskState {
        RiskState {
            current_market_exposure: dec(0, 0),
            window_total_invested: dec(0, 0),
            ..self
        }
    }

    /// The summary line.
    pub open spec fn summary_chars(self) -> Seq<char> {
        "Capital: $"@ + self.available_capital.fixed_chars(2) + " | Daily P&L: $"@
            + self.daily_pnl.fixed_chars(2) + " | Market Exp: $"@
            + self.current_market_exposure.fixed_chars(2) + " | Window Invested: $"@
            + self.window_total_invested.fixed_chars(2) + "/"@
            + self.max_window_investment.fixed_chars(2) + " | Consec Losses: "@ + digits_of(
            self.consecutive_losses as nat,
        ) + " | Halted: "@ + bool_chars(self.halted)
    }
}

impl RiskManager {
    /// A risk manager at the start of a session. The investment of a window may be one and a half
    /// times the exposure, so that merges free some capital but not without end.
    pub fn new(
        starting_capital: Decimal,
        max_position_pct: Decimal,
        daily_stop_loss_pct: Decimal,
        consecutive_loss_limit: u32,
        max_exposure_per_market: Decimal,
        max_open_orders: usize,
    ) -> (r: Result<RiskManager, ArithmeticError>)
        ensures
            match RiskState::initial(
                starting_capital,
                max_position_pct,
                daily_stop_loss_pct,
                consecutive_loss_limit,
                max_exposure_per_market,
                max_open_orders,
            ) {
                Some(state) => r is Ok && r->Ok_0@ == state,
                None => r is Err,
            },
    {
        let max_window_investment = max_exposure_per_market.checked_mul(Decimal::new(15, 1))?;
        Ok(
            RiskManager {
                starting_capital,
                available_capital: starting_capital,
                max_position_pct,
                daily_stop_loss_pct,
                consecutive_loss_limit,
                consecutive_losses: 0,
                daily_pnl: Decimal::new(0, 0),
                max_exposure_per_market,
                current_market_exposure: Decimal::new(0, 0),
                window_total_invested: Decimal::new(0, 0),
                max_window_investment,
                max_open_orders,
                halted: false,
                halt_reason: None,
            },
        )
    }

    /// Whether a new order is allowed, and if not, why.
    pub fn can_place_order(&self, order_cost: Decimal, current_open_orders: usize) -> (r: Result<
        Result<(), String>,
        ArithmeticError,
    >)
        ensures
            match self@.verdict(order_cost, current_open_orders) {
                Some(verdict) => r is Ok && verdict_chars(r->Ok_0) == verdict,
                None => r is Err,
            },
            // A cheaper order with no more open orders is never refused where this one is allowed.
            r == Ok::<Result<(), String>, ArithmeticError>(Ok(())) ==> forall|
                cheaper: Decimal,
                fewer_orders: usize,
            |
                lies_within_room(cheaper, self@.current_market_exposure, order_cost)
                    && lies_within_room(cheaper, self@.window_total_invested, order_cost)
                    && fewer_orders <= current_open_orders ==> #[trigger] self@.verdict(
                    cheaper,
                    fewer_orders,
                ) == Some(Ok::<(), Seq<char>>(())),
    {
        if self.halted {
            let text = "Trading halted: ".to_string();
            return match &self.halt_reason {
                Some(reason) => Ok(Err(text.concat(reason.as_str()))),
                None => Ok(Err(text.concat("unknown"))),
            };
        }
        let stop_loss = self.starting_capital.checked_mul(self.daily_stop_loss_pct)?;
        if self.daily_pnl < stop_loss.opposite() {
            let percent = self.daily_stop_loss_pct.checked_mul(Decimal::new(100, 0))?;
            return Ok(
                Err(
                    "Daily stop loss hit: P&L $".to_string().concat(
                        self.daily_pnl.fixed_text(2).as_str(),
                    ).concat(" exceeds ").concat(percent.fixed_text(0).as_str()).concat("% limit"),
                ),
            );
        }
        if self.consecutive_losses >= self.consecutive_loss_limit {
            return Ok(
                Err(
                    "Circuit breaker: ".to_string().concat(
                        count_text(self.consecutive_losses as u64).as_str(),
                    ).concat(" consecutive losses (limit: ").concat(
                        count_text(self.consecutive_loss_limit as u64).as_str(),
                    ).concat(")"),
                ),
            );
        }
        if order_cost > self.available_capital {
            return Ok(
                Err(
                    "Insufficient capital: need $".to_string().concat(
                        order_cost.fixed_text(2).as_str(),
                    ).concat(", have $").concat(self.available_capital.fixed_text(2).as_str()),
                ),
            );
        }
        let max_order = self.starting_capital.checked_mul(self.max_position_pct)?;
        if order_cost > max_order {
            let percent = self.max_position_pct.checked_mul(Decimal::new(100, 0))?;
            return Ok(
                Err(
                    "Order $".to_string().concat(order_cost.fixed_text(2).as_str()).concat(
                        " exceeds max position ",
                    ).concat(percent.fixed_text(0).as_str()).concat("% = $").concat(
                        max_order.fixed_text(2).as_str(),
                    ),
                ),
            );
        }
        let exposure = self.current_market_exposure.checked_add(order_cost)?;
        if exposure > self.max_exposure_per_market {
            return Ok(
                Err(
                    "Market exposure $".to_string().concat(
                        self.current_market_exposure.fixed_text(2).as_str(),
                    ).concat(" + $").concat(order_cost.fixed_text(2).as_str()).concat(
                        " would exceed limit $",
                    ).concat(self.max_exposure_per_market.fixed_text(2).as_str()),
                ),
            );
        }
        let invested = self.window_total_invested.checked_add(order_cost)?;
        if invested > self.max_window_investment {
            return Ok(
                Err(
                    "Window total investment $".to_string().concat(
                        self.window_total_invested.fixed_text(2).as_str(),
                    ).concat(" + $").concat(order_cost.fixed_text(2).as_str()).concat(
                        " would exceed limit $",
                    ).concat(self.max_window_investment.fixed_text(2).as_str()),
                ),
            );
        }
        if current_open_orders >= self.max_open_orders {
            return Ok(
                Err(
                    "Too many open orders: ".to_string().concat(
                        count_text(current_open_orders as u64).as_str(),
                    ).concat(" (limit: ").concat(
                        count_text(self.max_open_orders as u64).as_str(),
                    ).concat(")"),
                ),
            );
        }
        Ok(Ok(()))
    }

    /// Records the capital that an order takes.
    pub fn record_order(&mut self, cost: Decimal) -> (r: Result<(), ArithmeticError>)
        ensures
            match old(self)@.after_order(cost) {
                Some(state) => r is Ok && final(self)@ == state,
                None => r is Err && final(self)@ == old(self)@,
            },
            has_room(old(self)@.available_capital@ - cost@) && has_room(
                old(self)@.current_market_exposure@ + cost@,
            ) && has_room(old(self)@.window_total_invested@ + cost@) ==> r is Ok,
            r is Ok ==> {
                &&& is_rounded(
                    final(self)@.available_capital,
                    old(self)@.available_capital@ - cost@,
                )
                &&& is_rounded(
                    final(self)@.current_market_exposure,
                    old(self)@.current_market_exposure@ + cost@,
                )
                &&& is_rounded(
                    final(self)@.window_total_invested,
                    old(self)@.window_total_invested@ + cost@,
                )
            },
            // An order never takes more than there is, and the investment of the window only grows.
            r is Ok ==> (0real <= final(self)@.available_capital@ <==> cost@
                <= old(self)@.available_capital@),
            r is Ok && 0real <= cost@ ==> old(self)@.window_total_invested@
                <= final(self)@.window_total_invested@,
            r is Ok && 0real <= cost@ ==> old(self)@.current_market_exposure@
                <= final(self)@.current_market_exposure@,
    {
        let available = self.available_capital.checked_sub(cost)?;
        let exposure = self.current_market_exposure.checked_add(cost)?;
        let invested = self.window_total_invested.checked_add(cost)?;
        self.available_capital = available;
        self.current_market_exposure = exposure;
        self.window_total_invested = invested;
        Ok(())
    }

    /// Records a merge. The exposure of the merged cost is released.
    pub fn record_merge(&mut self, profit: Decimal, cost_returned: Decimal) -> (r: Result<
        (),
        ArithmeticError,
    >)
        ensures
            match old(self)@.after_merge(profit, cost_returned) {
                Some(state) => r is Ok && final(self)@ == state,
                None => r is Err && final(self)@ == old(self)@,
            },
            // The exposure never falls below zero, and a merge never adds to it.
            r is Ok ==> 0real <= final(self)@.current_market_exposure@,
            r is Ok && 0real <= cost_returned@ && 0real <= old(self)@.current_market_exposure@
                ==> final(self)@.current_market_exposure@ <= old(self)@.current_market_exposure@,
            // The profit is part of the profit and loss of the day, and the cost and the profit come
            // back as capital, where each number is rounded once.
            r is Ok ==> is_rounded(final(self)@.daily_pnl, old(self)@.daily_pnl@ + profit@),
            r is Ok ==> exists|paid: Decimal| #[trigger]
                is_rounded(paid, cost_returned@ + profit@) && is_rounded(
                    final(self)@.available_capital,
                    old(self)@.available_capital@ + paid@,
                ),
            r is Ok && 0real < profit@ ==> final(self)@.consecutive_losses == 0,
            r is Ok && profit@ <= 0real ==> final(self)@.consecutive_losses
                == old(self)@.consecutive_losses + 1,
    {
        broadcast use crate::decimal::sign_is_that_of_the_mantissa;

        let daily_pnl = self.daily_pnl.checked_add(profit)?;
        let returned = cost_returned.checked_add(profit)?;
        let available = self.available_capital.checked_add(returned)?;
        let release = cost_returned.min(self.current_market_exposure);
        let exposure = self.current_market_exposure.checked_sub(release)?;
        let profitable = profit > Decimal::new(0, 0);
        let losses: u32 = if profitable {
            0
        } else {
            if self.consecutive_losses == u32::MAX {
                return Err(ArithmeticError);
            }
            self.consecutive_losses + 1
        };
        let stop_loss = self.starting_capital.checked_mul(self.daily_stop_loss_pct)?;
        self.daily_pnl = daily_pnl;
        self.available_capital = available;
        self.current_market_exposure = exposure;
        self.consecutive_losses = losses;
        if !profitable && losses >= self.consecutive_loss_limit {
            self.halt("Circuit breaker triggered: too many consecutive losses");
        }
        if self.daily_pnl < stop_loss.opposite() {
            self.halt("Daily stop loss exceeded");
        }
        Ok(())
    }

    /// Records what the sale of unmerged shares brought in.
    pub fn record_salvage_revenue(&mut self, proceeds: Decimal) -> (r: Result<(), ArithmeticError>)
        ensures
            match old(self)@.after_return(proceeds) {
                Some(state) => r is Ok && final(self)@ == state,
                None => r is Err && final(self)@ == old(self)@,
            },
            has_room(old(self)@.available_capital@ + proceeds@) && has_room(
                old(self)@.current_market_exposure@ - smaller(
                    proceeds,
                    old(self)@.current_market_exposure,
                )@,
            ) ==> r is Ok,
            r is Ok ==> {
                &&& is_rounded(
                    final(self)@.available_capital,
                    old(self)@.available_capital@ + proceeds@,
                )
                &&& is_rounded(
                    final(self)@.current_market_exposure,
                    old(self)@.current_market_exposure@ - smaller(
                        proceeds,
                        old(self)@.current_market_exposure,
                    )@,
                )
            },
            r is Ok ==> 0real <= final(self)@.current_market_exposure@,
    {
        let available = self.available_capital.checked_add(proceeds)?;
        let release = proceeds.min(self.current_market_exposure);
        let exposure = self.current_market_exposure.checked_sub(release)?;
        self.available_capital = available;
        self.current_market_exposure = exposure;
        Ok(())
    }

    /// Releases the exposure of cancelled orders that were never filled.
    pub fn release_cancelled_exposure(&mut self, cost: Decimal) -> (r: Result<(), ArithmeticError>)
        ensures
            match old(self)@.after_return(cost) {
                Some(state) => r is Ok && final(self)@ == state,
                None => r is Err && final(self)@ == old(self)@,
            },
            has_room(old(self)@.available_capital@ + cost@) && has_room(
                old(self)@.current_market_exposure@ - smaller(
                    cost,
                    old(self)@.current_market_exposure,
                )@,
            ) ==> r is Ok,
            r is Ok ==> {
                &&& is_rounded(
                    final(self)@.available_capital,
                    old(self)@.available_capital@ + cost@,
                )
                &&& is_rounded(
                    final(self)@.current_market_exposure,
                    old(self)@.current_market_exposure@ - smaller(
                        cost,
                        old(self)@.current_market_exposure,
                    )@,
                )
            },
            r is Ok ==> 0real <= final(self)@.current_market_exposure@,
    {
        let release = cost.min(self.current_market_exposure);
        let exposure = self.current_market_exposure.checked_sub(release)?;
        let available = self.available_capital.checked_add(cost)?;
        self.current_market_exposure = exposure;
        self.available_capital = available;
        Ok(())
    }

    /// Resets the exposure and the investment for a new market window.
    pub fn reset_market_exposure(&mut self)
        ensures
            final(self)@ == old(self)@.for_new_window(),
    {
        self.current_market_exposure = Decimal::new(0, 0);
        self.window_total_invested = Decimal::new(0, 0);
    }

    /// Halts trading.
    pub fn halt(&mut self, reason: &str)
        ensures
            final(self)@ == old(self)@.with_halt(reason@),
    {
        self.halted = true;
        self.halt_reason = Some(reason.to_string());
    }

    /// Whether trading is halted.
    pub fn is_halted(&self) -> (r: bool)
        ensures
            r == self@.halted,
    {
        self.halted
    }

    /// Why trading is halted.
    pub fn halt_reason(&self) -> (r: Option<&str>)
        ensures
            match r {
                Some(reason) => self@.halt_reason == Some(reason@),
                None => self@.halt_reason is None,
            },
    {
        match &self.halt_reason {
            Some(reason) => Some(reason.as_str()),
            None => None,
        }
    }

    /// The capital that is available.
    pub fn available_capital(&self) -> (r: Decimal)
        ensures
            r == self@.available_capital,
    {
        self.available_capital
    }

    /// The profit and loss of the day.
    pub fn daily_pnl(&self) -> (r: Decimal)
        ensures
            r == self@.daily_pnl,
    {
        self.daily_pnl
    }

    /// The exposure of the current market window.
    pub fn market_exposure(&self) -> (r: Decimal)
        ensures
            r == self@.current_market_exposure,
    {
        self.current_market_exposure
    }

    /// A summary line.
    pub fn summary(&self) -> (r: String)
        ensures
            r@ == self@.summary_chars(),
    {
        "Capital: $".to_string().concat(self.available_capital.fixed_text(2).as_str()).concat(
            " | Daily P&L: $",
        ).concat(self.daily_pnl.fixed_text(2).as_str()).concat(" | Market Exp: $").concat(
            self.current_market_exposure.fixed_text(2).as_str(),
        ).concat(" | Window Invested: $").concat(
            self.window_total_invested.fixed_text(2).as_str(),
        ).concat("/").concat(self.max_window_investment.fixed_text(2).as_str()).concat(
            " | Consec Losses: ",
        ).concat(count_text(self.consecutive_losses as u64).as_str()).concat(
            " | Halted: ",
        ).concat(bool_text(self.halted).as_str())
    }
}

/// The state after a sequence of merges, each given by its profit and the cost that it returned.
pub open spec fn after_merges(state: RiskState, merges: Seq<(Decimal, Decimal)>) -> Option<
    RiskState,
>
    decreases merges.len(),
{
    if merges.len() == 0 {
        Some(state)
    } else {
        match after_merges(state, merges.drop_last()) {
            Some(before) => before.after_merge(merges.last().0, merges.last().1),
            None => None,
        }
    }
}

/// An order that is allowed keeps every limit once it is recorded: it costs no more than the
/// available capital and the largest order, and afterwards neither the exposure of the market nor
/// the investment of the window is above its limit.
pub proof fn allowed_orders_keep_the_limits(
    state: RiskState,
    cost: Decimal,
    open_orders: usize,
    after: RiskState,
)
    requires
        state.verdict(cost, open_orders) == Some(Ok::<(), Seq<char>>(())),
        state.after_order(cost) == Some(after),
    ensures
        !state.halted,
        open_orders < state.max_open_orders,
        state.consecutive_losses < state.consecutive_loss_limit,
        cost@ <= state.available_capital@,
        state.max_order() is Some && cost@ <= state.max_order()->0@,
        state.stop_loss() is Some && !state.lost_more_than(state.stop_loss()->0),
        after.current_market_exposure@ <= after.max_exposure_per_market@,
        after.window_total_invested@ <= after.max_window_investment@,
{
}

/// While trading is halted every order is refused, with the reason of the halt.
pub proof fn halted_trading_refuses_every_order(
    state: RiskState,
    cost: Decimal,
    open_orders: usize,
)
    requires
        state.halted,
    ensures
        state.verdict(cost, open_orders) == Some(Err::<(), Seq<char>>(state.halted_chars())),
{
}

/// Once halted, trading stays halted: nothing that is recorded afterwards ends a halt.
pub proof fn a_halt_is_final(
    state: RiskState,
    amount: Decimal,
    profit: Decimal,
    reason: Seq<char>,
)
    requires
        state.halted,
    ensures
        state.after_order(amount) matches Some(after) ==> after.halted,
        state.after_merge(profit, amount) matches Some(after) ==> after.halted,
        state.after_return(amount) matches Some(after) ==> after.halted,
        state.for_new_window().halted,
        state.with_halt(reason).halted,
{
}

/// The investment of a window is reduced by nothing but the start of a new window: merges, sales
/// and cancelled orders leave it as it is.
pub proof fn returned_capital_leaves_the_window_investment(
    state: RiskState,
    amount: Decimal,
    profit: Decimal,
)
    ensures
        state.after_merge(profit, amount) matches Some(after) ==> after.window_total_invested
            == state.window_total_invested,
        state.after_return(amount) matches Some(after) ==> after.window_total_invested
            == state.window_total_invested,
        state.for_new_window().window_total_invested == dec(0, 0),
{
}

/// After every merge trading is halted or the loss of the day is within the stop loss.
pub proof fn the_stop_loss_halts_trading(
    state: RiskState,
    profit: Decimal,
    cost_returned: Decimal,
    after: RiskState,
)
    requires
        state.after_merge(profit, cost_returned) == Some(after),
    ensures
        after.stop_loss() == state.stop_loss(),
        after.stop_loss() is Some,
        after.halted || !after.lost_more_than(after.stop_loss()->0),
{
}

/// A profitable merge ends a series of losses.
pub proof fn a_profit_ends_the_losses(
    state: RiskState,
    profit: Decimal,
    cost_returned: Decimal,
    after: RiskState,
)
    requires
        state.after_merge(profit, cost_returned) == Some(after),
        0real < profit@,
    ensures
        after.consecutive_losses == 0,
{
}

/// A series of merges without profit that reaches the loss limit halts trading.
pub proof fn consecutive_losses_halt_trading(
    state: RiskState,
    merges: Seq<(Decimal, Decimal)>,
    after: RiskState,
)
    requires
        after_merges(state, merges) == Some(after),
        merges.len() > 0,
        forall|i: int| 0 <= i < merges.len() ==> (#[trigger] merges[i]).0@ <= 0real,
        state.consecutive_losses + merges.len() >= state.consecutive_loss_limit,
    ensures
        after.halted,
        after.consecutive_losses == state.consecutive_losses + merges.len(),
{
    losses_add_up(state, merges.drop_last());
}

/// Each merge without profit adds one to the series of losses.
proof fn losses_add_up(state: RiskState, merges: Seq<(Decimal, Decimal)>)
    requires
        forall|i: int| 0 <= i < merges.len() ==> (#[trigger] merges[i]).0@ <= 0real,
    ensures
        after_merges(state, merges) matches Some(after) ==> after.consecutive_losses
            == state.consecutive_losses + merges.len() && after.consecutive_loss_limit
            == state.consecutive_loss_limit,
    decreases merges.len(),
{
    if merges.len() > 0 {
        losses_add_up(state, merges.drop_last());
    }
}

/// A cheaper order with no more open orders is never refused where a dearer one was allowed. This
/// holds unless a sum had to be rounded.
pub proof fn cheaper_orders_are_allowed_too(
    state: RiskState,
    dearer: Decimal,
    cheaper: Decimal,
    open_orders: usize,
    fewer_orders: usize,
)
    requires
        state.verdict(dearer, open_orders) == Some(Ok::<(), Seq<char>>(())),
        cheaper@ <= dearer@,
        fewer_orders <= open_orders,
        adds_exactly(state.current_market_exposure, dearer),
        adds_exactly(state.current_market_exposure, cheaper),
        adds_exactly(state.window_total_invested, dearer),
        adds_exactly(state.window_total_invested, cheaper),
    ensures
        state.verdict(cheaper, fewer_orders) == Some(Ok::<(), Seq<char>>(())),
{
    kept_sum_is_exact(state.current_market_exposure, dearer);
    kept_sum_is_exact(state.current_market_exposure, cheaper);
    kept_sum_is_exact(state.window_total_invested, dearer);
    kept_sum_is_exact(state.window_total_invested, cheaper);
}

/// An order that is cancelled before it is filled gives back its capital and its exposure, but
/// stays part of the investment of the window. The profit and loss, the losses and a halt stay as
/// they are. This holds to the last digit unless the order itself had to be rounded.
pub proof fn a_cancelled_order_gives_back_its_capital(
    state: RiskState,
    cost: Decimal,
    ordered: RiskState,
    after: RiskState,
)
    requires
        0real <= cost@,
        0real <= state.current_market_exposure@,
        state.after_order(cost) == Some(ordered),
        ordered.after_return(cost) == Some(after),
        subtracts_exactly(state.available_capital, cost),
        adds_exactly(state.current_market_exposure, cost),
    ensures
        after.available_capital@ == state.available_capital@,
        after.current_market_exposure@ == state.current_market_exposure@,
        state.window_total_invested.plus(cost) == Some(after.window_total_invested),
        adds_exactly(state.window_total_invested, cost) ==> after.window_total_invested@
            == state.window_total_invested@ + cost@,
        after.daily_pnl == state.daily_pnl,
        after.consecutive_losses == state.consecutive_losses,
        after.halted == state.halted,
        after.halt_reason == state.halt_reason,
{
    an_exact_difference_is_undone(state.available_capital, cost);
    an_exact_sum_is_undone(state.current_market_exposure, cost);
    if adds_exactly(state.window_total_invested, cost) {
        kept_sum_is_exact(state.window_total_invested, cost);
    }
    kept_difference_is_exact(state.available_capital, cost);
    kept_sum_is_exact(state.current_market_exposure, cost);
    kept_sum_is_exact(ordered.available_capital, cost);
    kept_difference_is_exact(ordered.current_market_exposure, cost);
}

/// Where an order or its cancellation has to be rounded, the capital that comes back is that before
/// the order up to two rounding errors, and so is the exposure.
pub proof fn a_cancelled_order_is_undone_up_to_rounding(
    capital: Decimal,
    exposure: Decimal,
    cost: Decimal,
    capital_left: Decimal,
    exposure_with: Decimal,
    capital_after: Decimal,
    exposure_after: Decimal,
    most: real,
)
    requires
        1real <= most,
        0real <= cost@,
        0real <= exposure@,
        is_rounded(capital_left, capital@ - cost@),
        is_rounded(exposure_with, exposure@ + cost@),
        is_rounded(capital_after, capital_left@ + cost@),
        is_rounded(exposure_after, exposure_with@ - smaller(cost, exposure_with)@),
        cost.is_decimal(),
        is_within(capital@ - cost@, most),
        is_within(capital_left@ + cost@, most),
        is_within(exposure@ + cost@, most),
        is_within(exposure_with@ - cost@, most),
    ensures
        is_within((capital_after@ - capital@) * units_in_one(), 2real * most),
        is_within((exposure_after@ - exposure@) * units_in_one(), 2real * most),
{
    rounding_errors_are_small(capital_left, capital@ - cost@, most);
    rounding_errors_are_small(capital_after, capital_left@ + cost@, most);
    rounding_errors_are_small(exposure_with, exposure@ + cost@, most);
    rounding_passes_no_decimal(exposure_with, exposure@ + cost@, cost);
    rounding_errors_are_small(exposure_after, exposure_with@ - cost@, most);
}

/// A merge pays out its cost and its profit, and releases the exposure of its cost.
proof fn a_merge_pays_out(state: RiskState, profit: Decimal, cost: Decimal, after: RiskState)
    requires
        state.after_merge(profit, cost) == Some(after),
    ensures
        cost.plus(profit) is Some,
        state.available_capital.plus(cost.plus(profit)->0) == Some(after.available_capital),
        state.current_market_exposure.minus(smaller(cost, state.current_market_exposure)) == Some(
            after.current_market_exposure,
        ),
        state.daily_pnl.plus(profit) == Some(after.daily_pnl),
{
}

/// Shares that are bought and merged leave the capital larger by the profit of the merge, and the
/// exposure as it was. This holds to the last digit unless a number on the way had to be rounded.
pub proof fn a_merge_adds_its_profit_to_the_capital(
    state: RiskState,
    cost: Decimal,
    profit: Decimal,
    ordered: RiskState,
    after: RiskState,
)
    requires
        0real <= cost@,
        0real <= state.current_market_exposure@,
        state.after_order(cost) == Some(ordered),
        ordered.after_merge(profit, cost) == Some(after),
        subtracts_exactly(state.available_capital, cost),
        adds_exactly(state.current_market_exposure, cost),
        adds_exactly(cost, profit),
        adds_exactly(ordered.available_capital, cost.plus(profit)->0),
        adds_exactly(state.daily_pnl, profit),
        subtracts_exactly(ordered.current_market_exposure, cost),
    ensures
        after.available_capital@ == state.available_capital@ + profit@,
        after.current_market_exposure@ == state.current_market_exposure@,
        after.daily_pnl@ == state.daily_pnl@ + profit@,
{
    a_merge_pays_out(ordered, profit, cost, after);
    kept_difference_is_exact(state.available_capital, cost);
    kept_sum_is_exact(state.current_market_exposure, cost);
    kept_sum_is_exact(cost, profit);
    kept_sum_is_exact(ordered.available_capital, cost.plus(profit)->0);
    kept_sum_is_exact(state.daily_pnl, profit);
    kept_difference_is_exact(ordered.current_market_exposure, cost);
}

} // verus!
