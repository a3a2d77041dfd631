//! The run of the strategy through one market window.
//!
//! The run decides what to do next and takes what came of it: it asks for pauses, prices, model
//! results and submissions, which are done outside, and is told the outcome.

use vstd::prelude::*;
use crate::clock::now_millis;
use crate::decimal::{ArithmeticError, Decimal};
use crate::decimal::dec;
use crate::feeds::polymarket::MarketBooks;
use crate::orders::new_order_id;
use crate::orders::{live_count, no_new_ids, order_error, pending_shares};
use crate::pricing::ModelPrice;
use crate::pricing::fair_up;
use crate::rules::MarketSnapshot;
use crate::rules::snapshot_of;
use crate::strategy::{MergeStrategy, OrderPlan, SideOutcome, WindowSummary};
use crate::strategy::{StrategyState, volatility_of};
use crate::strategy::{a_closed_window_has_no_open_orders, placing_orders_keeps_the_mode};
use crate::strategy::{closing_a_window_keeps_a_halt, proposals_obey_the_rules};
use crate::strategy::{the_end_of_a_tick_keeps_the_mode, the_start_of_a_tick_keeps_the_mode};
use crate::types::{Market, Order, PriceTick, Side};
use crate::types::OrderState;

verus! {

/// What is to be done next.
#[derive(Debug)]
pub enum Action {
    /// Sleep for this many milliseconds.
    Sleep(u64),
    /// Read the seconds that are left of the window.
    ReadClock,
    /// Read the latest BTC price.
    ReadPrice,
    /// Estimate the volatility from the sampled prices.
    Estimate,
    /// Ask the model for the probability that the Up side wins.
    Model { spot: Decimal, strike: Decimal, sigma: Decimal, remaining_secs: u64 },
    /// Submit an order.
    Submit(Order),
    /// Submit that all orders are cancelled.
    CancelAll,
    /// The window is over. There are no results if it was skipped.
    Finish(Option<WindowSummary>),
}

/// What is to be done next, with texts as character sequences.
pub ghost enum ActionState {
    Sleep(u64),
    ReadClock,
    ReadPrice,
    Estimate,
    Model { spot: Decimal, strike: Decimal, sigma: Decimal, remaining_secs: u64 },
    Submit(OrderState),
    CancelAll,
    Finish(Option<WindowSummary>),
}

impl View for Action {
    type V = ActionState;

    open spec fn view(&self) -> ActionState {
        match *self {
            Action::Sleep(millis) => ActionState::Sleep(millis),
            Action::ReadClock => ActionState::ReadClock,
            Action::ReadPrice => ActionState::ReadPrice,
            Action::Estimate => ActionState::Estimate,
            Action::Model { spot, strike, sigma, remaining_secs } => ActionState::Model {
                spot,
                strike,
                sigma,
                remaining_secs,
            },
            Action::Submit(order) => ActionState::Submit(order@),
            Action::CancelAll => ActionState::CancelAll,
            Action::Finish(summary) => ActionState::Finish(summary),
        }
    }
}

/// What came of an action.
#[derive(Debug, Clone, Copy)]
pub enum Event {
    /// The window starts, at this many seconds after its beginning.
    Started(u64),
    /// The pause is over, or the cancellation was submitted.
    Done,
    /// The seconds that are left.
    Remaining(i64),
    /// The latest BTC price, if there is one.
    Price(Option<PriceTick>),
    /// The estimate of the volatility, if there is one.
    Estimate(Option<Decimal>),
    /// What the model says.
    Model(ModelPrice),
    /// Whether the submitted order was accepted.
    Submitted(bool),
}

/// How far the run is.
#[derive(Debug, Clone, Copy)]
pub enum Phase {
    /// The window has not started.
    Start,
    /// The entry delay passes.
    Entering,
    /// The opening price is read.
    Opening,
    /// A tick begins with the time.
    Clock,
    /// The pause between ticks.
    Pause { remaining_secs: u64 },
    /// The price of a tick is read.
    Price { remaining_secs: u64 },
    /// The pause after a tick without a price.
    Retry,
    /// The volatility is estimated.
    Estimate { remaining_secs: u64, price: Decimal },
    /// The model is asked.
    Model { remaining_secs: u64, price: Decimal, sigma: Decimal },
    /// The cancellation of all orders is submitted.
    Cancel { snapshot: MarketSnapshot, may_order: bool },
    /// An Up order is submitted.
    SubmitUp { snapshot: MarketSnapshot, plan: OrderPlan },
    /// A Down order is submitted.
    SubmitDown { snapshot: MarketSnapshot },
    /// The window ends with the time.
    LastClock,
    /// The last price is read.
    LastPrice { remaining_secs: u64 },
    /// The volatility is estimated for the last time.
    LastEstimate { remaining_secs: u64, price: Decimal },
    /// The model is asked for the last time.
    LastModel { remaining_secs: u64, price: Decimal, sigma: Decimal },
    /// The cancellation of the orders that were left is submitted.
    Closing { summary: WindowSummary },
    /// The window is over.
    Finished,
}

/// Why a step was not made.
#[derive(Debug, Clone, Copy, PartialEq, Eq, Structural)]
pub enum WindowError {
    /// A number does not fit.
    Arithmetic,
    /// The event is none that the phase waits for.
    UnexpectedEvent,
}

/// The run of the strategy through one window.
pub struct WindowRun {
    phase: Phase,
    /// The BTC price at the opening of the window
    opening_price: Decimal,
    /// The order that is submitted, with its cost
    pending: Option<(Order, Decimal)>,
}

/// The state of a run.
pub ghost struct RunState {
    pub phase: Phase,
    pub opening_price: Decimal,
    pub pending: Option<(OrderState, Decimal)>,
}

impl View for WindowRun {
    type V = RunState;

    closed spec fn view(&self) -> RunState {
        RunState {
            phase: self.phase,
            opening_price: self.opening_price,
            pending: match self.pending {
                Some((order, cost)) => Some((order@, cost)),
                None => None,
            },
        }
    }
}

/// A run, the strategy that it runs, and what is to be done next.
pub ghost struct Step {
    pub run: RunState,
    pub strategy: StrategyState,
    pub action: ActionState,
}

/// What a step does not change: the market, the books, the IDs of new orders and the time (Unix
/// milliseconds).
pub struct Inputs<'a> {
    pub market: &'a Market,
    pub books: &'a MarketBooks,
    pub up_id: &'a str,
    pub down_id: &'a str,
    pub now: i64,
}

impl View for Inputs<'_> {
    type V = Surroundings;

    open spec fn view(&self) -> Surroundings {
        Surroundings {
            market: *self.market,
            books: *self.books,
            up_id: self.up_id@,
            down_id: self.down_id@,
            now: self.now,
        }
    }
}

/// What a step does not change, with texts as character sequences.
pub ghost struct Surroundings {
    pub market: Market,
    pub books: MarketBooks,
    pub up_id: Seq<char>,
    pub down_id: Seq<char>,
    pub now: i64,
}

/// Whether a phase waits for an event.
pub open spec fn expects(phase: Phase, event: Event) -> bool {
    match phase {
        Phase::Start => event is Started,
        Phase::Entering
        | Phase::Pause { .. }
        | Phase::Retry
        | Phase::Cancel { .. }
        | Phase::Closing { .. } => event is Done,
        Phase::Opening | Phase::Price { .. } | Phase::LastPrice { .. } => event is Price,
        Phase::Clock | Phase::LastClock => event is Remaining,
        Phase::Estimate { .. } | Phase::LastEstimate { .. } => event is Estimate,
        Phase::Model { .. } | Phase::LastModel { .. } => event is Model,
        Phase::SubmitUp { .. } | Phase::SubmitDown { .. } => event is Submitted,
        Phase::Finished => false,
    }
}

/// Whether a run takes an event. After the submission of an Up order orders have to be submitted.
pub open spec fn accepts(run: RunState, strategy: StrategyState, event: Event) -> bool {
    expects(run.phase, event) && (run.phase is SubmitUp ==> !strategy.orders.dry_run)
}

/// The milliseconds of a number of seconds, if they fit.
pub open spec fn millis_of(secs: int) -> Option<u64> {
    if secs * 1000 <= u64::MAX {
        Some((secs * 1000) as u64)
    } else {
        None
    }
}

/// The seconds that are left, if any.
pub open spec fn not_negative(remaining: i64) -> u64 {
    if remaining < 0 {
        0
    } else {
        remaining as u64
    }
}

impl RunState {
    /// The run before the window starts.
    pub open spec fn initial() -> RunState {
        RunState { phase: Phase::Start, opening_price: dec(0, 0), pending: None }
    }

    /// The run in another phase, with what is to be done.
    pub open spec fn to(self, phase: Phase, strategy: StrategyState, action: ActionState) -> Step {
        Step { run: RunState { phase, ..self }, strategy, action }
    }

    /// The start of the window: the rest of the entry delay passes first.
    pub open spec fn start(self, strategy: StrategyState, elapsed: u64) -> Option<Step> {
        let delay = strategy.config.entry_delay_secs;
        if elapsed < delay {
            match millis_of(delay - elapsed) {
                Some(millis) => Some(
                    self.to(Phase::Entering, strategy, ActionState::Sleep(millis)),
                ),
                None => None,
            }
        } else {
            Some(self.to(Phase::Opening, strategy, ActionState::ReadPrice))
        }
    }

    /// The opening of the window. Without an opening price the window is skipped.
    pub open spec fn open(self, strategy: StrategyState, market: Market, tick: Option<PriceTick>) -> Option<
        Step,
    > {
        let opening = match (market.opening_price, tick) {
            (Some(price), _) => Some(price),
            (None, Some(t)) => Some(t.price),
            (None, None) => None,
        };
        match opening {
            Some(price) => match strategy.for_new_window() {
                Some(ready) => {
                    let opened = RunState { opening_price: price, ..self };
                    Some(opened.to(Phase::Clock, ready, ActionState::ReadClock))
                },
                None => None,
            },
            None => Some(self.to(Phase::Finished, strategy, ActionState::Finish(None))),
        }
    }

    /// The beginning of a tick, or the end of trading.
    pub open spec fn look_at_clock(self, strategy: StrategyState, remaining: i64) -> Step {
        if remaining <= strategy.config.exit_buffer_secs as i64 {
            self.to(Phase::LastClock, strategy, ActionState::ReadClock)
        } else {
            self.to(
                Phase::Pause { remaining_secs: remaining as u64 },
                strategy,
                ActionState::Sleep(strategy.config.order_interval),
            )
        }
    }

    /// The price of a tick. Without one the next tick begins after half a second.
    pub open spec fn look_at_price(
        self,
        strategy: StrategyState,
        remaining_secs: u64,
        tick: Option<PriceTick>,
    ) -> Step {
        match tick {
            Some(t) => self.to(
                Phase::Estimate { remaining_secs, price: t.price },
                strategy.after_price(t),
                ActionState::Estimate,
            ),
            None => self.to(Phase::Retry, strategy, ActionState::Sleep(500)),
        }
    }

    /// The end of a tick.
    pub open spec fn end_tick(
        self,
        strategy: StrategyState,
        snapshot: MarketSnapshot,
        around: Surroundings,
    ) -> Option<Step> {
        match strategy.after_tick_end(around.market, snapshot, around.now) {
            Some(after) => Some(self.to(Phase::Clock, after, ActionState::ReadClock)),
            None => None,
        }
    }

    /// The Down order of a tick in live mode, after `placed` orders.
    pub open spec fn order_down(
        self,
        strategy: StrategyState,
        snapshot: MarketSnapshot,
        plan: OrderPlan,
        placed: u64,
        around: Surroundings,
    ) -> Option<Step> {
        match strategy.proposal(plan, snapshot, Side::Down, placed) {
            Some(Some(proposal)) if order_error(proposal.bid, proposal.shares) is None => {
                let order = strategy.order_of(
                    around.market,
                    Side::Down,
                    proposal,
                    around.down_id,
                    around.now,
                );
                let waiting = RunState { pending: Some((order, proposal.cost)), ..self };
                Some(
                    waiting.to(
                        Phase::SubmitDown { snapshot },
                        strategy,
                        ActionState::Submit(order),
                    ),
                )
            },
            Some(_) => self.end_tick(strategy, snapshot, around),
            None => None,
        }
    }

    /// The orders of a tick, and its end.
    pub open spec fn order(
        self,
        strategy: StrategyState,
        snapshot: MarketSnapshot,
        may_order: bool,
        around: Surroundings,
    ) -> Option<Step> {
        if !may_order {
            self.end_tick(strategy, snapshot, around)
        } else if strategy.orders.dry_run {
            match strategy.after_orders(
                around.market,
                snapshot,
                around.up_id,
                around.down_id,
                around.now,
            ) {
                Some((after, _)) => self.end_tick(after, snapshot, around),
                None => None,
            }
        } else {
            match strategy.order_plan(snapshot) {
                Some(plan) => match strategy.proposal(plan, snapshot, Side::Up, 0) {
                    Some(Some(proposal)) if order_error(proposal.bid, proposal.shares) is None => {
                        let order = strategy.order_of(
                            around.market,
                            Side::Up,
                            proposal,
                            around.up_id,
                            around.now,
                        );
                        let waiting = RunState { pending: Some((order, proposal.cost)), ..self };
                        Some(
                            waiting.to(
                                Phase::SubmitUp { snapshot, plan },
                                strategy,
                                ActionState::Submit(order),
                            ),
                        )
                    },
                    Some(_) => self.order_down(strategy, snapshot, plan, 0, around),
                    None => None,
                },
                None => None,
            }
        }
    }

    /// The decisions of a tick, once the fair value of the Up side is known.
    pub open spec fn decide(
        self,
        strategy: StrategyState,
        remaining_secs: u64,
        price: Decimal,
        sigma: Decimal,
        model: ModelPrice,
        around: Surroundings,
    ) -> Option<Step> {
        let fair = fair_up(price, self.opening_price, sigma, remaining_secs, model);
        match snapshot_of(
            strategy.config.dry_run,
            price,
            self.opening_price,
            remaining_secs,
            sigma,
            fair,
            around.books,
        ) {
            Some(snapshot) => match strategy.after_tick_start(snapshot) {
                Some((begun, start)) => if start.halted {
                    Some(self.to(Phase::LastClock, begun, ActionState::ReadClock))
                } else if start.cancelled > 0 && !begun.orders.dry_run {
                    Some(
                        self.to(
                            Phase::Cancel { snapshot, may_order: start.may_order },
                            begun,
                            ActionState::CancelAll,
                        ),
                    )
                } else {
                    self.order(begun, snapshot, start.may_order, around)
                },
                None => None,
            },
            None => None,
        }
    }

    /// The strategy after the outcome of a submission, and whether the order was placed.
    pub open spec fn settled(self, strategy: StrategyState, accepted: bool) -> Option<
        (StrategyState, u64),
    > {
        match self.pending {
            Some((order, cost)) if accepted => match strategy.after_order(order, cost) {
                Some(after) => Some((after, 1)),
                None => None,
            },
            _ => Some((strategy, 0)),
        }
    }

    /// The end of the window. In live mode the cancellation of orders that were left is submitted.
    pub open spec fn finish(
        self,
        strategy: StrategyState,
        fair_value_up: Option<Decimal>,
        now: i64,
    ) -> Option<Step> {
        match strategy.after_window(fair_value_up, now) {
            Some((after, summary)) => if summary.cancelled > 0 && !after.orders.dry_run {
                Some(self.to(Phase::Closing { summary }, after, ActionState::CancelAll))
            } else {
                Some(self.to(Phase::Finished, after, ActionState::Finish(Some(summary))))
            },
            None => None,
        }
    }

    /// The run after an event that its phase waits for.
    pub open spec fn next(self, strategy: StrategyState, event: Event, around: Surroundings) -> Option<
        Step,
    > {
        match (self.phase, event) {
            (Phase::Start, Event::Started(elapsed)) => self.start(strategy, elapsed),
            (Phase::Entering, _) => Some(
                self.to(Phase::Opening, strategy, ActionState::ReadPrice),
            ),
            (Phase::Opening, Event::Price(tick)) => self.open(strategy, around.market, tick),
            (Phase::Clock, Event::Remaining(remaining)) => Some(
                self.look_at_clock(strategy, remaining),
            ),
            (Phase::Pause { remaining_secs }, _) => Some(
                self.to(Phase::Price { remaining_secs }, strategy, ActionState::ReadPrice),
            ),
            (Phase::Price { remaining_secs }, Event::Price(tick)) => Some(
                self.look_at_price(strategy, remaining_secs, tick),
            ),
            (Phase::Retry, _) => Some(self.to(Phase::Clock, strategy, ActionState::ReadClock)),
            (Phase::Estimate { remaining_secs, price }, Event::Estimate(estimate)) => {
                let sigma = volatility_of(strategy, estimate);
                Some(
                    self.to(
                        Phase::Model { remaining_secs, price, sigma },
                        strategy,
                        ActionState::Model {
                            spot: price,
                            strike: self.opening_price,
                            sigma,
                            remaining_secs,
                        },
                    ),
                )
            },
            (Phase::Model { remaining_secs, price, sigma }, Event::Model(model)) => self.decide(
                strategy,
                remaining_secs,
                price,
                sigma,
                model,
                around,
            ),
            (Phase::Cancel { snapshot, may_order }, _) => self.order(
                strategy,
                snapshot,
                may_order,
                around,
            ),
            (Phase::Closing { summary }, _) => Some(
                self.to(Phase::Finished, strategy, ActionState::Finish(Some(summary))),
            ),
            (Phase::SubmitUp { snapshot, plan }, Event::Submitted(accepted)) => match self.settled(
                strategy,
                accepted,
            ) {
                Some((after, placed)) => RunState { pending: None, ..self }.order_down(
                    after,
                    snapshot,
                    plan,
                    placed,
                    around,
                ),
                None => None,
            },
            (Phase::SubmitDown { snapshot }, Event::Submitted(accepted)) => match self.settled(
                strategy,
                accepted,
            ) {
                Some((after, _)) => RunState { pending: None, ..self }.end_tick(
                    after,
                    snapshot,
                    around,
                ),
                None => None,
            },
            (Phase::LastClock, Event::Remaining(remaining)) => Some(
                self.to(
                    Phase::LastPrice { remaining_secs: not_negative(remaining) },
                    strategy,
                    ActionState::ReadPrice,
                ),
            ),
            (Phase::LastPrice { remaining_secs }, Event::Price(tick)) => match tick {
                Some(t) => Some(
                    self.to(
                        Phase::LastEstimate { remaining_secs, price: t.price },
                        strategy,
                        ActionState::Estimate,
                    ),
                ),
                None => self.finish(strategy, None, around.now),
            },
            (Phase::LastEstimate { remaining_secs, price }, Event::Estimate(estimate)) => {
                let sigma = volatility_of(strategy, estimate);
                Some(
                    self.to(
                        Phase::LastModel { remaining_secs, price, sigma },
                        strategy,
                        ActionState::Model {
                            spot: price,
                            strike: self.opening_price,
                            sigma,
                            remaining_secs,
                        },
                    ),
                )
            },
            (Phase::LastModel { remaining_secs, price, sigma }, Event::Model(model)) => self.finish(
                strategy,
                Some(fair_up(price, self.opening_price, sigma, remaining_secs, model)),
                around.now,
            ),
            _ => None,
        }
    }
}

/// Whether a phase waits for an event.
fn is_expected(phase: &Phase, event: &Event) -> (r: bool)
    ensures
        r == expects(*phase, *event),
{
    match (phase, event) {
        (Phase::Start, Event::Started(_)) => true,
        (Phase::Entering, Event::Done) => true,
        (Phase::Pause { .. }, Event::Done) => true,
        (Phase::Retry, Event::Done) => true,
        (Phase::Cancel { .. }, Event::Done) => true,
        (Phase::Closing { .. }, Event::Done) => true,
        (Phase::Opening, Event::Price(_)) => true,
        (Phase::Price { .. }, Event::Price(_)) => true,
        (Phase::LastPrice { .. }, Event::Price(_)) => true,
        (Phase::Clock, Event::Remaining(_)) => true,
        (Phase::LastClock, Event::Remaining(_)) => true,
        (Phase::Estimate { .. }, Event::Estimate(_)) => true,
        (Phase::LastEstimate { .. }, Event::Estimate(_)) => true,
        (Phase::Model { .. }, Event::Model(_)) => true,
        (Phase::LastModel { .. }, Event::Model(_)) => true,
        (Phase::SubmitUp { .. }, Event::Submitted(_)) => true,
        (Phase::SubmitDown { .. }, Event::Submitted(_)) => true,
        _ => false,
    }
}

impl WindowRun {
    /// A run before the window starts.
    pub fn new() -> (r: WindowRun)
        ensures
            r@ == RunState::initial(),
    {
        WindowRun { phase: Phase::Start, opening_price: Decimal::new(0, 0), pending: None }
    }

    /// How far the run is.
    pub fn phase(&self) -> (r: Phase)
        ensures
            r == self@.phase,
    {
        self.phase
    }

    /// Ends a tick.
    fn end_tick(
        &mut self,
        strategy: &mut MergeStrategy,
        snapshot: &MarketSnapshot,
        inputs: &Inputs,
    ) -> (r: Result<Action, ArithmeticError>)
        ensures
            step_made(
                old(self)@.end_tick(old(strategy)@, *snapshot, inputs@),
                final(self)@,
                final(strategy)@,
                r,
            ),
    {
        strategy.end_tick(inputs.market, snapshot, inputs.now)?;
        self.phase = Phase::Clock;
        Ok(Action::ReadClock)
    }

    /// Places the Down order of a tick in live mode.
    fn order_down(
        &mut self,
        strategy: &mut MergeStrategy,
        snapshot: &MarketSnapshot,
        plan: &OrderPlan,
        placed: u64,
        inputs: &Inputs,
    ) -> (r: Result<Action, ArithmeticError>)
        requires
            !old(strategy)@.orders.dry_run,
        ensures
            step_made(
                old(self)@.order_down(old(strategy)@, *snapshot, *plan, placed, inputs@),
                final(self)@,
                final(strategy)@,
                r,
            ),
    {
        let outcome = strategy.evaluate_side(
            inputs.market,
            snapshot,
            plan,
            Side::Down,
            placed,
            inputs.down_id,
            inputs.now,
        )?;
        match outcome {
            SideOutcome::Submit(order, cost) => {
                let submitted = order.clone();
                self.pending = Some((order, cost));
                self.phase = Phase::SubmitDown { snapshot: *snapshot };
                Ok(Action::Submit(submitted))
            },
            _ => self.end_tick(strategy, snapshot, inputs),
        }
    }

    /// Places the orders of a tick, and ends it.
    fn order(
        &mut self,
        strategy: &mut MergeStrategy,
        snapshot: &MarketSnapshot,
        may_order: bool,
        inputs: &Inputs,
    ) -> (r: Result<Action, ArithmeticError>)
        ensures
            step_made(
                old(self)@.order(old(strategy)@, *snapshot, may_order, inputs@),
                final(self)@,
                final(strategy)@,
                r,
            ),
    {
        if !may_order {
            return self.end_tick(strategy, snapshot, inputs);
        }
        if strategy.order_manager().is_dry_run() {
            let _ = strategy.evaluate_and_place_orders(
                inputs.market,
                snapshot,
                inputs.up_id,
                inputs.down_id,
                inputs.now,
            )?;
            return self.end_tick(strategy, snapshot, inputs);
        }
        let plan = strategy.plan_orders(snapshot)?;
        let outcome = strategy.evaluate_side(
            inputs.market,
            snapshot,
            &plan,
            Side::Up,
            0,
            inputs.up_id,
            inputs.now,
        )?;
        match outcome {
            SideOutcome::Submit(order, cost) => {
                let submitted = order.clone();
                self.pending = Some((order, cost));
                self.phase = Phase::SubmitUp { snapshot: *snapshot, plan };
                Ok(Action::Submit(submitted))
            },
            _ => self.order_down(strategy, snapshot, &plan, 0, inputs),
        }
    }

    /// Makes the decisions of a tick, once the model has answered.
    fn decide(
        &mut self,
        strategy: &mut MergeStrategy,
        remaining_secs: u64,
        price: Decimal,
        sigma: Decimal,
        model: ModelPrice,
        inputs: &Inputs,
    ) -> (r: Result<Action, ArithmeticError>)
        ensures
            step_made(
                old(self)@.decide(
                    old(strategy)@,
                    remaining_secs,
                    price,
                    sigma,
                    model,
                    inputs@,
                ),
                final(self)@,
                final(strategy)@,
                r,
            ),
    {
        let fair = strategy.fair_value_up(price, self.opening_price, sigma, remaining_secs, model);
        let snapshot = strategy.snapshot(
            price,
            self.opening_price,
            remaining_secs,
            sigma,
            fair,
            inputs.books,
        )?;
        let start = strategy.start_tick(&snapshot)?;
        if start.halted {
            self.phase = Phase::LastClock;
            return Ok(Action::ReadClock);
        }
        if start.cancelled > 0 && !strategy.order_manager().is_dry_run() {
            self.phase = Phase::Cancel { snapshot, may_order: start.may_order };
            return Ok(Action::CancelAll);
        }
        self.order(strategy, &snapshot, start.may_order, inputs)
    }

    /// Takes the outcome of a submission. Returns the number of orders placed.
    fn settle(&mut self, strategy: &mut MergeStrategy, accepted: bool) -> (r: Result<
        u64,
        ArithmeticError,
    >)
        ensures
            match old(self)@.settled(old(strategy)@, accepted) {
                Some((after, placed)) => r == Ok::<u64, ArithmeticError>(placed) && final(strategy)@
                    == after && final(self)@ == (RunState { pending: None, ..old(self)@ }),
                None => r is Err,
            },
            r is Ok ==> final(strategy)@.orders.dry_run == old(strategy)@.orders.dry_run,
    {
        match self.pending.take() {
            Some((order, cost)) => {
                if accepted {
                    strategy.confirm_order(order, cost)?;
                    Ok(1)
                } else {
                    Ok(0)
                }
            },
            None => Ok(0),
        }
    }

    /// Ends the window.
    fn finish(
        &mut self,
        strategy: &mut MergeStrategy,
        fair_value_up: Option<Decimal>,
        now: i64,
    ) -> (r: Result<Action, ArithmeticError>)
        ensures
            step_made(
                old(self)@.finish(old(strategy)@, fair_value_up, now),
                final(self)@,
                final(strategy)@,
                r,
            ),
    {
        let summary = strategy.close_window(fair_value_up, now)?;
        if summary.cancelled > 0 && !strategy.order_manager().is_dry_run() {
            self.phase = Phase::Closing { summary };
            return Ok(Action::CancelAll);
        }
        self.phase = Phase::Finished;
        Ok(Action::Finish(Some(summary)))
    }

    /// Makes a step on an event that the phase waits for.
    fn advance(&mut self, strategy: &mut MergeStrategy, event: Event, inputs: &Inputs) -> (r: Result<
        Action,
        ArithmeticError,
    >)
        requires
            accepts(old(self)@, old(strategy)@, event),
        ensures
            step_made(
                old(self)@.next(old(strategy)@, event, inputs@),
                final(self)@,
                final(strategy)@,
                r,
            ),
    {
        match (self.phase, event) {
            (Phase::Start, Event::Started(elapsed)) => {
                let delay: u64 = strategy.config().entry_delay_secs;
                if elapsed < delay {
                    let wait: u64 = delay - elapsed;
                    if wait > u64::MAX / 1000 {
                        return Err(ArithmeticError);
                    }
                    self.phase = Phase::Entering;
                    Ok(Action::Sleep(wait * 1000))
                } else {
                    self.phase = Phase::Opening;
                    Ok(Action::ReadPrice)
                }
            },
            (Phase::Entering, _) => {
                self.phase = Phase::Opening;
                Ok(Action::ReadPrice)
            },
            (Phase::Opening, Event::Price(tick)) => {
                match strategy.begin_window(inputs.market, tick)? {
                    Some(price) => {
                        self.opening_price = price;
                        self.phase = Phase::Clock;
                        Ok(Action::ReadClock)
                    },
                    None => {
                        self.phase = Phase::Finished;
                        Ok(Action::Finish(None))
                    },
                }
            },
            (Phase::Clock, Event::Remaining(remaining)) => {
                if strategy.exit_reached(remaining) {
                    self.phase = Phase::LastClock;
                    Ok(Action::ReadClock)
                } else {
                    self.phase = Phase::Pause { remaining_secs: remaining as u64 };
                    Ok(Action::Sleep(strategy.config().order_interval))
                }
            },
            (Phase::Pause { remaining_secs }, _) => {
                self.phase = Phase::Price { remaining_secs };
                Ok(Action::ReadPrice)
            },
            (Phase::Price { remaining_secs }, Event::Price(tick)) => {
                match tick {
                    Some(t) => {
                        strategy.observe(&t);
                        self.phase = Phase::Estimate { remaining_secs, price: t.price };
                        Ok(Action::Estimate)
                    },
                    None => {
                        self.phase = Phase::Retry;
                        Ok(Action::Sleep(500))
                    },
                }
            },
            (Phase::Retry, _) => {
                self.phase = Phase::Clock;
                Ok(Action::ReadClock)
            },
            (Phase::Estimate { remaining_secs, price }, Event::Estimate(estimate)) => {
                let sigma = strategy.volatility(estimate);
                self.phase = Phase::Model { remaining_secs, price, sigma };
                Ok(
                    Action::Model {
                        spot: price,
                        strike: self.opening_price,
                        sigma,
                        remaining_secs,
                    },
                )
            },
            (Phase::Model { remaining_secs, price, sigma }, Event::Model(model)) => {
                self.decide(strategy, remaining_secs, price, sigma, model, inputs)
            },
            (Phase::Cancel { snapshot, may_order }, _) => {
                self.order(strategy, &snapshot, may_order, inputs)
            },
            (Phase::Closing { summary }, _) => {
                self.phase = Phase::Finished;
                Ok(Action::Finish(Some(summary)))
            },
            (Phase::SubmitUp { snapshot, plan }, Event::Submitted(accepted)) => {
                let placed: u64 = self.settle(strategy, accepted)?;
                self.order_down(strategy, &snapshot, &plan, placed, inputs)
            },
            (Phase::SubmitDown { snapshot }, Event::Submitted(accepted)) => {
                let _ = self.settle(strategy, accepted)?;
                self.end_tick(strategy, &snapshot, inputs)
            },
            (Phase::LastClock, Event::Remaining(remaining)) => {
                let remaining_secs: u64 = if remaining < 0 {
                    0
                } else {
                    remaining as u64
                };
                self.phase = Phase::LastPrice { remaining_secs };
                Ok(Action::ReadPrice)
            },
            (Phase::LastPrice { remaining_secs }, Event::Price(tick)) => {
                match tick {
                    Some(t) => {
                        self.phase = Phase::LastEstimate { remaining_secs, price: t.price };
                        Ok(Action::Estimate)
                    },
                    None => self.finish(strategy, None, inputs.now),
                }
            },
            (Phase::LastEstimate { remaining_secs, price }, Event::Estimate(estimate)) => {
                let sigma = strategy.volatility(estimate);
                self.phase = Phase::LastModel { remaining_secs, price, sigma };
                Ok(
                    Action::Model {
                        spot: price,
                        strike: self.opening_price,
                        sigma,
                        remaining_secs,
                    },
                )
            },
            (Phase::LastModel { remaining_secs, price, sigma }, Event::Model(model)) => {
                let fair = strategy.fair_value_up(
                    price,
                    self.opening_price,
                    sigma,
                    remaining_secs,
                    model,
                );
                self.finish(strategy, Some(fair), inputs.now)
            },
            _ => Err(ArithmeticError),
        }
    }

    /// Makes a step, with given IDs for new orders and a given time. Returns what is to be done
    /// next.
    pub fn step_at(&mut self, strategy: &mut MergeStrategy, event: Event, inputs: &Inputs) -> (r: Result<
        Action,
        WindowError,
    >)
        ensures
            !accepts(old(self)@, old(strategy)@, event) ==> r == Err::<Action, WindowError>(
                WindowError::UnexpectedEvent,
            ) && final(self)@ == old(self)@ && final(strategy)@ == old(strategy)@,
            accepts(old(self)@, old(strategy)@, event) ==> match old(self)@.next(
                old(strategy)@,
                event,
                inputs@,
            ) {
                Some(step) => final(self)@ == step.run && final(strategy)@ == step.strategy
                    && r is Ok && r->Ok_0@ == step.action,
                None => r == Err::<Action, WindowError>(WindowError::Arithmetic),
            },
    {
        let submits_up = match self.phase {
            Phase::SubmitUp { .. } => true,
            _ => false,
        };
        if !is_expected(&self.phase, &event) || (submits_up
            && strategy.order_manager().is_dry_run()) {
            return Err(WindowError::UnexpectedEvent);
        }
        match self.advance(strategy, event, inputs) {
            Ok(action) => Ok(action),
            Err(_) => Err(WindowError::Arithmetic),
        }
    }

    /// Makes a step. Returns what is to be done next.
    pub fn step(
        &mut self,
        strategy: &mut MergeStrategy,
        event: Event,
        market: &Market,
        books: &MarketBooks,
    ) -> (r: Result<Action, WindowError>)
        ensures
            !accepts(old(self)@, old(strategy)@, event) ==> r == Err::<Action, WindowError>(
                WindowError::UnexpectedEvent,
            ) && final(self)@ == old(self)@ && final(strategy)@ == old(strategy)@,
            accepts(old(self)@, old(strategy)@, event) ==> exists|
                up_id: Seq<char>,
                down_id: Seq<char>,
                now: i64,
            |
                match #[trigger] old(self)@.next(
                    old(strategy)@,
                    event,
                    (Surroundings { market: *market, books: *books, up_id, down_id, now }),
                ) {
                    Some(step) => final(self)@ == step.run && final(strategy)@ == step.strategy
                        && r is Ok && r->Ok_0@ == step.action,
                    None => r == Err::<Action, WindowError>(WindowError::Arithmetic),
                },
    {
        let up_id = new_order_id();
        let down_id = new_order_id();
        let now: i64 = now_millis();
        let inputs = Inputs {
            market,
            books,
            up_id: up_id.as_str(),
            down_id: down_id.as_str(),
            now,
        };
        self.step_at(strategy, event, &inputs)
    }
}

/// Whether a step was made as it should be.
pub open spec fn step_made(
    step: Option<Step>,
    run: RunState,
    strategy: StrategyState,
    r: Result<Action, ArithmeticError>,
) -> bool {
    match step {
        Some(s) => run == s.run && strategy == s.strategy && r is Ok && r->Ok_0@ == s.action,
        None => r is Err,
    }
}

/// Whether a step keeps the configuration and whether orders are simulated.
spec fn keeps_mode(step: Option<Step>, strategy: StrategyState) -> bool {
    step matches Some(s) ==> {
        &&& s.strategy.config == strategy.config
        &&& s.strategy.orders.dry_run == strategy.orders.dry_run
    }
}

/// Whether a step does not end the window.
spec fn goes_on(step: Option<Step>) -> bool {
    step matches Some(s) ==> s.action !is Finish
}

/// Whether a step submits nothing.
spec fn submits_nothing(step: Option<Step>) -> bool {
    step matches Some(s) ==> s.action !is Submit && s.action !is CancelAll
}

/// The end of a tick keeps the mode and submits nothing.
proof fn ending_a_tick_keeps_the_mode(
    run: RunState,
    strategy: StrategyState,
    snapshot: MarketSnapshot,
    around: Surroundings,
)
    ensures
        keeps_mode(run.end_tick(strategy, snapshot, around), strategy),
        submits_nothing(run.end_tick(strategy, snapshot, around)),
        goes_on(run.end_tick(strategy, snapshot, around)),
{
    the_end_of_a_tick_keeps_the_mode(strategy, around.market, snapshot, around.now);
}

/// The Down order of a tick keeps the mode.
proof fn ordering_down_keeps_the_mode(
    run: RunState,
    strategy: StrategyState,
    snapshot: MarketSnapshot,
    plan: OrderPlan,
    placed: u64,
    around: Surroundings,
)
    ensures
        keeps_mode(run.order_down(strategy, snapshot, plan, placed, around), strategy),
        goes_on(run.order_down(strategy, snapshot, plan, placed, around)),
{
    ending_a_tick_keeps_the_mode(run, strategy, snapshot, around);
}

/// The orders of a tick keep the mode, and submit nothing where orders are simulated.
proof fn ordering_keeps_the_mode(
    run: RunState,
    strategy: StrategyState,
    snapshot: MarketSnapshot,
    may_order: bool,
    around: Surroundings,
)
    ensures
        keeps_mode(run.order(strategy, snapshot, may_order, around), strategy),
        goes_on(run.order(strategy, snapshot, may_order, around)),
        strategy.orders.dry_run ==> submits_nothing(
            run.order(strategy, snapshot, may_order, around),
        ),
{
    ending_a_tick_keeps_the_mode(run, strategy, snapshot, around);
    placing_orders_keeps_the_mode(
        strategy,
        around.market,
        snapshot,
        around.up_id,
        around.down_id,
        around.now,
    );
    if let Some((after, _)) = strategy.after_orders(
        around.market,
        snapshot,
        around.up_id,
        around.down_id,
        around.now,
    ) {
        ending_a_tick_keeps_the_mode(run, after, snapshot, around);
    }
    if let Some(plan) = strategy.order_plan(snapshot) {
        ordering_down_keeps_the_mode(run, strategy, snapshot, plan, 0, around);
    }
}

/// The decisions of a tick keep the mode, and submit nothing where orders are simulated.
proof fn deciding_keeps_the_mode(
    run: RunState,
    strategy: StrategyState,
    remaining_secs: u64,
    price: Decimal,
    sigma: Decimal,
    model: ModelPrice,
    around: Surroundings,
)
    ensures
        keeps_mode(
            run.decide(strategy, remaining_secs, price, sigma, model, around),
            strategy,
        ),
        goes_on(run.decide(strategy, remaining_secs, price, sigma, model, around)),
        strategy.orders.dry_run ==> submits_nothing(
            run.decide(strategy, remaining_secs, price, sigma, model, around),
        ),
{
    let fair = fair_up(price, run.opening_price, sigma, remaining_secs, model);
    if let Some(snapshot) = snapshot_of(
        strategy.config.dry_run,
        price,
        run.opening_price,
        remaining_secs,
        sigma,
        fair,
        around.books,
    ) {
        the_start_of_a_tick_keeps_the_mode(strategy, snapshot);
        if let Some((begun, start)) = strategy.after_tick_start(snapshot) {
            ordering_keeps_the_mode(run, begun, snapshot, start.may_order, around);
        }
    }
}

/// The end of a window keeps the mode, and submits nothing where orders are simulated.
proof fn finishing_keeps_the_mode(
    run: RunState,
    strategy: StrategyState,
    fair_value_up: Option<Decimal>,
    now: i64,
)
    ensures
        keeps_mode(run.finish(strategy, fair_value_up, now), strategy),
        strategy.orders.dry_run ==> submits_nothing(run.finish(strategy, fair_value_up, now)),
        run.finish(strategy, fair_value_up, now) matches Some(step)
            ==> step.strategy.window_orders == strategy.window_orders && step.action !is Submit && (
        step.run.phase is Finished || step.run.phase is Closing),
{
    a_closed_window_has_no_open_orders(strategy, fair_value_up, now);
}

/// A step changes neither the configuration nor whether orders are simulated.
pub proof fn steps_keep_the_mode(
    run: RunState,
    strategy: StrategyState,
    event: Event,
    around: Surroundings,
    step: Step,
)
    requires
        accepts(run, strategy, event),
        run.next(strategy, event, around) == Some(step),
    ensures
        step.strategy.config == strategy.config,
        step.strategy.orders.dry_run == strategy.orders.dry_run,
{
    every_step_keeps_the_mode(run, strategy, event, around);
}

/// A decision keeps the mode.
proof fn a_decision_keeps_the_mode(
    run: RunState,
    strategy: StrategyState,
    event: Event,
    around: Surroundings,
)
    requires
        run.phase is Model,
        accepts(run, strategy, event),
    ensures
        keeps_mode(run.next(strategy, event, around), strategy),
        goes_on(run.next(strategy, event, around)),
        strategy.orders.dry_run ==> submits_nothing(run.next(strategy, event, around)),
{
    if let Phase::Model { remaining_secs, price, sigma } = run.phase {
        let model = event->Model_0;
        assert(run.next(strategy, event, around) == run.decide(
            strategy,
            remaining_secs,
            price,
            sigma,
            model,
            around,
        ));
        deciding_keeps_the_mode(run, strategy, remaining_secs, price, sigma, model, around);
    }
}

/// What follows a cancellation keeps the mode.
proof fn a_cancellation_keeps_the_mode(
    run: RunState,
    strategy: StrategyState,
    event: Event,
    around: Surroundings,
)
    requires
        run.phase is Cancel,
        accepts(run, strategy, event),
    ensures
        keeps_mode(run.next(strategy, event, around), strategy),
        goes_on(run.next(strategy, event, around)),
        strategy.orders.dry_run ==> submits_nothing(run.next(strategy, event, around)),
{
    if let Phase::Cancel { snapshot, may_order } = run.phase {
        assert(run.next(strategy, event, around) == run.order(
            strategy,
            snapshot,
            may_order,
            around,
        ));
        ordering_keeps_the_mode(run, strategy, snapshot, may_order, around);
    }
}

/// What follows a submission keeps the mode.
proof fn a_submission_keeps_the_mode(
    run: RunState,
    strategy: StrategyState,
    event: Event,
    around: Surroundings,
)
    requires
        run.phase is SubmitUp || run.phase is SubmitDown,
        accepts(run, strategy, event),
    ensures
        keeps_mode(run.next(strategy, event, around), strategy),
        goes_on(run.next(strategy, event, around)),
        strategy.orders.dry_run ==> submits_nothing(run.next(strategy, event, around)),
{
    let settled = RunState { pending: None, ..run };
    if let Some((after, placed)) = run.settled(strategy, event->Submitted_0) {
        assert(after.config == strategy.config && after.orders.dry_run == strategy.orders.dry_run);
        if let Phase::SubmitUp { snapshot, plan } = run.phase {
            assert(run.next(strategy, event, around) == settled.order_down(
                after,
                snapshot,
                plan,
                placed,
                around,
            ));
            ordering_down_keeps_the_mode(settled, after, snapshot, plan, placed, around);
        }
        if let Phase::SubmitDown { snapshot } = run.phase {
            assert(run.next(strategy, event, around) == settled.end_tick(after, snapshot, around));
            ending_a_tick_keeps_the_mode(settled, after, snapshot, around);
        }
    }
}

/// The last steps of a window keep the mode.
proof fn the_last_steps_keep_the_mode(
    run: RunState,
    strategy: StrategyState,
    event: Event,
    around: Surroundings,
)
    requires
        run.phase is LastPrice || run.phase is LastModel,
        accepts(run, strategy, event),
    ensures
        keeps_mode(run.next(strategy, event, around), strategy),
        strategy.orders.dry_run ==> submits_nothing(run.next(strategy, event, around)),
{
    finishing_keeps_the_mode(run, strategy, None, around.now);
    if let Phase::LastModel { remaining_secs, price, sigma } = run.phase {
        let fair = fair_up(price, run.opening_price, sigma, remaining_secs, event->Model_0);
        finishing_keeps_the_mode(run, strategy, Some(fair), around.now);
    }
}

/// A step without orders keeps the mode.
proof fn a_plain_step_keeps_the_mode(
    run: RunState,
    strategy: StrategyState,
    event: Event,
    around: Surroundings,
)
    requires
        !(run.phase is Model || run.phase is Cancel || run.phase is SubmitUp || run.phase
            is SubmitDown || run.phase is LastPrice || run.phase is LastModel),
        accepts(run, strategy, event),
    ensures
        keeps_mode(run.next(strategy, event, around), strategy),
        strategy.orders.dry_run ==> submits_nothing(run.next(strategy, event, around)),
{
}

/// A step keeps the mode, and submits nothing where orders are simulated.
proof fn every_step_keeps_the_mode(
    run: RunState,
    strategy: StrategyState,
    event: Event,
    around: Surroundings,
)
    requires
        accepts(run, strategy, event),
    ensures
        keeps_mode(run.next(strategy, event, around), strategy),
        strategy.orders.dry_run ==> submits_nothing(run.next(strategy, event, around)),
{
    if run.phase is Model {
        a_decision_keeps_the_mode(run, strategy, event, around);
    } else if run.phase is Cancel {
        a_cancellation_keeps_the_mode(run, strategy, event, around);
    } else if run.phase is SubmitUp || run.phase is SubmitDown {
        a_submission_keeps_the_mode(run, strategy, event, around);
    } else if run.phase is LastPrice || run.phase is LastModel {
        the_last_steps_keep_the_mode(run, strategy, event, around);
    } else {
        a_plain_step_keeps_the_mode(run, strategy, event, around);
    }
}

/// In dry-run mode nothing is ever submitted: no order, and no cancellation.
pub proof fn a_dry_run_submits_nothing(
    run: RunState,
    strategy: StrategyState,
    event: Event,
    around: Surroundings,
    step: Step,
)
    requires
        strategy.orders.dry_run,
        accepts(run, strategy, event),
        run.next(strategy, event, around) == Some(step),
    ensures
        step.action !is Submit,
        step.action !is CancelAll,
        step.strategy.orders.dry_run,
{
    every_step_keeps_the_mode(run, strategy, event, around);
}

/// Whether an order that is to be submitted has a price below the best ask of its side.
pub open spec fn submits_below_the_ask(step: Step) -> bool {
    step.action matches ActionState::Submit(order) ==> match step.run.phase {
        Phase::SubmitUp { snapshot, .. } | Phase::SubmitDown { snapshot } => snapshot.ask(
            order.side,
        ) matches Some(ask) && order.price@ < ask@,
        _ => false,
    }
}

/// A Down order is submitted below the ask.
proof fn down_orders_are_below_the_ask(
    run: RunState,
    strategy: StrategyState,
    snapshot: MarketSnapshot,
    plan: OrderPlan,
    placed: u64,
    around: Surroundings,
)
    ensures
        run.order_down(strategy, snapshot, plan, placed, around) matches Some(step)
            ==> submits_below_the_ask(step),
{
    if let Some(Some(proposal)) = strategy.proposal(plan, snapshot, Side::Down, placed) {
        proposals_obey_the_rules(strategy, plan, snapshot, Side::Down, placed, proposal);
    }
}

/// The orders of a tick are submitted below the ask.
proof fn orders_are_below_the_ask(
    run: RunState,
    strategy: StrategyState,
    snapshot: MarketSnapshot,
    may_order: bool,
    around: Surroundings,
)
    ensures
        run.order(strategy, snapshot, may_order, around) matches Some(step)
            ==> submits_below_the_ask(step),
{
    if let Some(plan) = strategy.order_plan(snapshot) {
        down_orders_are_below_the_ask(run, strategy, snapshot, plan, 0, around);
        if let Some(Some(proposal)) = strategy.proposal(plan, snapshot, Side::Up, 0) {
            proposals_obey_the_rules(strategy, plan, snapshot, Side::Up, 0, proposal);
        }
    }
}

/// Every order that a run submits is a maker order: its price is below the best ask of its side.
pub proof fn submitted_orders_are_maker_orders(
    run: RunState,
    strategy: StrategyState,
    event: Event,
    around: Surroundings,
    step: Step,
)
    requires
        run.next(strategy, event, around) == Some(step),
    ensures
        submits_below_the_ask(step),
{
    match (run.phase, event) {
        (Phase::Model { remaining_secs, price, sigma }, Event::Model(model)) => {
            let fair = fair_up(price, run.opening_price, sigma, remaining_secs, model);
            let snapshot = snapshot_of(
                strategy.config.dry_run,
                price,
                run.opening_price,
                remaining_secs,
                sigma,
                fair,
                around.books,
            )->0;
            let (begun, start) = strategy.after_tick_start(snapshot)->0;
            orders_are_below_the_ask(run, begun, snapshot, start.may_order, around);
        },
        (Phase::Cancel { snapshot, may_order }, _) => {
            orders_are_below_the_ask(run, strategy, snapshot, may_order, around);
        },
        (Phase::SubmitUp { snapshot, plan }, Event::Submitted(accepted)) => {
            let (after, placed) = run.settled(strategy, accepted)->0;
            let settled = RunState { pending: None, ..run };
            down_orders_are_below_the_ask(settled, after, snapshot, plan, placed, around);
        },
        _ => {},
    }
}

/// Once trading is halted a tick places no orders: the window ends.
pub proof fn a_halt_ends_the_window(
    run: RunState,
    strategy: StrategyState,
    event: Event,
    around: Surroundings,
    step: Step,
)
    requires
        strategy.risk.halted,
        run.phase is Model,
        expects(run.phase, event),
        run.next(strategy, event, around) == Some(step),
    ensures
        step.run.phase is LastClock,
        step.action is ReadClock,
        step.strategy.orders == strategy.orders,
        step.strategy.engine == strategy.engine,
{
}

/// Whether a phase is one in which orders are cancelled or submitted.
pub open spec fn is_ordering(phase: Phase) -> bool {
    phase is Cancel || phase is SubmitUp || phase is SubmitDown
}

/// With trading halted a run, unless it is cancelling or submitting orders, stays halted, submits
/// no order, and adds none: it goes on to the end of the window.
pub proof fn a_halted_run_places_no_orders(
    run: RunState,
    strategy: StrategyState,
    event: Event,
    around: Surroundings,
    step: Step,
)
    requires
        strategy.risk.halted,
        !is_ordering(run.phase),
        run.next(strategy, event, around) == Some(step),
    ensures
        step.strategy.risk.halted,
        !is_ordering(step.run.phase),
        step.action !is Submit,
        no_new_ids(strategy.orders.orders, step.strategy.orders.orders),
{
    match (run.phase, event) {
        (Phase::LastPrice { .. }, Event::Price(None)) => {
            closing_a_window_keeps_a_halt(strategy, None, around.now);
        },
        (Phase::LastModel { remaining_secs, price, sigma }, Event::Model(model)) => {
            let fair = fair_up(price, run.opening_price, sigma, remaining_secs, model);
            closing_a_window_keeps_a_halt(strategy, Some(fair), around.now);
        },
        (Phase::Model { .. }, _) => {
            a_halt_ends_the_window(run, strategy, event, around, step);
        },
        _ => {},
    }
}

/// Whether a phase is one before the opening of the window.
pub open spec fn is_before_the_opening(phase: Phase) -> bool {
    phase is Start || phase is Entering || phase is Opening
}

/// No order is placed before the window is opened, and the opening waits for the rest of the entry
/// delay: a window that starts within the delay asks for a pause of exactly what is left of it, and
/// another for the opening price at once.
pub proof fn the_entry_delay_passes_first(
    run: RunState,
    strategy: StrategyState,
    event: Event,
    around: Surroundings,
    step: Step,
)
    requires
        is_before_the_opening(run.phase),
        accepts(run, strategy, event),
        run.next(strategy, event, around) == Some(step),
    ensures
        step.strategy.orders == strategy.orders,
        step.action !is Submit,
        run.phase is Start ==> ({
            let elapsed = event->Started_0;
            let delay = strategy.config.entry_delay_secs;
            &&& step.strategy == strategy
            &&& elapsed < delay ==> step.run.phase is Entering && (
            step.action matches ActionState::Sleep(millis) && millis == (delay - elapsed) * 1000)
            &&& elapsed >= delay ==> step.run.phase is Opening && step.action is ReadPrice
        }),
        run.phase is Entering ==> step.strategy == strategy && step.run.phase is Opening
            && step.action is ReadPrice,
        run.phase is Opening ==> step.run.phase is Clock || step.run.phase is Finished,
{
}

/// Within the exit buffer trading ends, and from then on no order is placed or submitted until the
/// window is over.
pub proof fn the_exit_buffer_ends_trading(
    run: RunState,
    strategy: StrategyState,
    event: Event,
    around: Surroundings,
    step: Step,
)
    requires
        expects(run.phase, event),
        run.next(strategy, event, around) == Some(step),
    ensures
        run.phase is Clock && event->Remaining_0 <= strategy.config.exit_buffer_secs as i64
            ==> step.run.phase is LastClock,
        run.phase is LastClock ==> step.run.phase is LastPrice,
        run.phase is LastPrice ==> step.run.phase is LastEstimate || step.run.phase is Closing
            || step.run.phase is Finished,
        run.phase is LastEstimate ==> step.run.phase is LastModel,
        run.phase is LastModel ==> step.run.phase is Closing || step.run.phase is Finished,
        run.phase is Closing ==> step.run.phase is Finished && step.strategy == strategy,
        run.phase is LastClock || run.phase is LastPrice || run.phase is LastEstimate
            || run.phase is LastModel || run.phase is Closing ==> step.action !is Submit
            && step.strategy.window_orders == strategy.window_orders,
{
    if let Phase::LastModel { remaining_secs, price, sigma } = run.phase {
        let fair = fair_up(price, run.opening_price, sigma, remaining_secs, event->Model_0);
        finishing_keeps_the_mode(run, strategy, Some(fair), around.now);
    }
    finishing_keeps_the_mode(run, strategy, None, around.now);
}

/// When trading has ended and the window is closed, no order is open and nothing is pending.
pub proof fn a_closed_window_leaves_no_open_orders(
    run: RunState,
    strategy: StrategyState,
    event: Event,
    around: Surroundings,
    step: Step,
)
    requires
        run.phase is LastPrice || run.phase is LastModel,
        expects(run.phase, event),
        run.next(strategy, event, around) == Some(step),
        step.run.phase is Closing || step.run.phase is Finished,
    ensures
        live_count(step.strategy.orders.orders) == 0,
        pending_shares(step.strategy.orders.orders, Side::Up) == Some(dec(0, 0)),
        pending_shares(step.strategy.orders.orders, Side::Down) == Some(dec(0, 0)),
{
    a_closed_window_has_no_open_orders(strategy, None, around.now);
    if let Phase::LastModel { remaining_secs, price, sigma } = run.phase {
        let fair = fair_up(price, run.opening_price, sigma, remaining_secs, event->Model_0);
        a_closed_window_has_no_open_orders(strategy, Some(fair), around.now);
    }
}

/// Results of a window come only after all its orders were closed: from the last price or model
/// answer, or after the cancellation of the orders that were left.
pub proof fn results_come_at_the_end(
    run: RunState,
    strategy: StrategyState,
    event: Event,
    around: Surroundings,
    step: Step,
)
    requires
        accepts(run, strategy, event),
        run.next(strategy, event, around) == Some(step),
        step.action matches ActionState::Finish(summary) && summary is Some,
    ensures
        run.phase is LastPrice || run.phase is LastModel || run.phase is Closing,
        step.run.phase is Finished,
{
    if run.phase is Model {
        a_decision_keeps_the_mode(run, strategy, event, around);
    } else if run.phase is Cancel {
        a_cancellation_keeps_the_mode(run, strategy, event, around);
    } else if run.phase is SubmitUp || run.phase is SubmitDown {
        a_submission_keeps_the_mode(run, strategy, event, around);
    }
}

/// A window that is over takes no further event.
pub proof fn a_finished_window_stays_finished(
    run: RunState,
    strategy: StrategyState,
    event: Event,
)
    requires
        run.phase is Finished,
    ensures
        !accepts(run, strategy, event),
{
}

} // verus!
