//! How a run goes through a window.

use vstd::prelude::*;
use crate::decimal::Decimal;
use crate::orders::order_error;
use crate::pricing::{ModelPrice, fair_up};
use crate::rules::{MarketSnapshot, snapshot_of};
use crate::strategy::{OrderPlan, StrategyState, volatility_of};
use crate::types::{OrderState, PriceTick, Side};
use crate::window::{ActionState, Event, Phase, RunState, Step, Surroundings, expects};

verus! {

/// A run starts before its window, without an order that waits.
pub proof fn a_run_starts_before_its_window()
    ensures
        RunState::initial().phase is Start,
        RunState::initial().pending is None,
{
}

/// Each phase waits for its own event: the start of the window, the end of a pause or a cancellation,
/// a price, the time, an estimate, an answer of the model, or the outcome of a submission. A window
/// that is over waits for none.
pub proof fn phases_wait_for_their_events(phase: Phase, event: Event)
    ensures
        expects(phase, event) <==> match event {
            Event::Started(_) => phase is Start,
            Event::Done => phase is Entering || phase is Pause || phase is Retry || phase is Cancel
                || phase is Closing,
            Event::Remaining(_) => phase is Clock || phase is LastClock,
            Event::Price(_) => phase is Opening || phase is Price || phase is LastPrice,
            Event::Estimate(_) => phase is Estimate || phase is LastEstimate,
            Event::Model(_) => phase is Model || phase is LastModel,
            Event::Submitted(_) => phase is SubmitUp || phase is SubmitDown,
        },
{
}

/// A window opens at the price of its market, or else at that of the latest tick. Without either it
/// is skipped: it ends without results, and the strategy stays as it is.
pub proof fn a_window_opens_at_a_price(
    run: RunState,
    strategy: StrategyState,
    tick: Option<PriceTick>,
    around: Surroundings,
    step: Step,
)
    requires
        run.phase is Opening,
        run.next(strategy, Event::Price(tick), around) == Some(step),
    ensures
        around.market.opening_price matches Some(price) ==> step.run.opening_price == price,
        around.market.opening_price is None ==> (tick matches Some(t) ==> step.run.opening_price
            == t.price),
        around.market.opening_price is Some || tick is Some ==> step.run.phase is Clock
            && step.action is ReadClock && strategy.for_new_window() == Some(step.strategy),
        around.market.opening_price is None && tick is None ==> step.run.phase is Finished
            && step.action == ActionState::Finish(None) && step.strategy == strategy,
        step.run.pending == run.pending,
{
}

/// A tick begins with the time that is left. Where that is more than the exit buffer there is a pause
/// of the order interval, and then the price is read. Else trading ends. The strategy stays as it is.
pub proof fn a_tick_begins_with_a_pause(
    run: RunState,
    strategy: StrategyState,
    remaining: i64,
    around: Surroundings,
    step: Step,
)
    requires
        run.phase is Clock,
        strategy.config.exit_buffer_secs <= i64::MAX,
        run.next(strategy, Event::Remaining(remaining), around) == Some(step),
    ensures
        step.strategy == strategy,
        step.run.opening_price == run.opening_price,
        remaining <= strategy.config.exit_buffer_secs ==> step.run.phase is LastClock && step.action
            is ReadClock,
        remaining > strategy.config.exit_buffer_secs ==> step.run.phase == (Phase::Pause {
            remaining_secs: remaining as u64,
        }) && step.action == ActionState::Sleep(strategy.config.order_interval),
{
}

/// After the pause the price is read, with the same time left.
pub proof fn a_pause_ends_with_a_price(
    run: RunState,
    strategy: StrategyState,
    remaining_secs: u64,
    around: Surroundings,
)
    requires
        run.phase == (Phase::Pause { remaining_secs }),
    ensures
        run.next(strategy, Event::Done, around) == Some(
            (Step {
                run: RunState { phase: Phase::Price { remaining_secs }, ..run },
                strategy,
                action: ActionState::ReadPrice,
            }),
        ),
{
}

/// A price is sampled, and the volatility is estimated next. Without a price the next tick begins
/// after half a second.
pub proof fn a_price_is_sampled_once(
    run: RunState,
    strategy: StrategyState,
    remaining_secs: u64,
    tick: Option<PriceTick>,
    around: Surroundings,
    step: Step,
)
    requires
        run.phase == (Phase::Price { remaining_secs }),
        run.next(strategy, Event::Price(tick), around) == Some(step),
    ensures
        match tick {
            Some(t) => step.run.phase == (Phase::Estimate { remaining_secs, price: t.price })
                && step.strategy == strategy.after_price(t) && step.action is Estimate,
            None => step.run.phase is Retry && step.strategy == strategy && step.action
                == ActionState::Sleep(500),
        },
        step.run.opening_price == run.opening_price,
{
}

/// After a tick without a price the next one begins with the time.
pub proof fn a_retry_begins_a_tick(run: RunState, strategy: StrategyState, around: Surroundings)
    requires
        run.phase is Retry,
    ensures
        run.next(strategy, Event::Done, around) == Some(
            (Step {
                run: RunState { phase: Phase::Clock, ..run },
                strategy,
                action: ActionState::ReadClock,
            }),
        ),
{
}

/// The model is asked for the price of the tick against the opening price, with the volatility of the
/// estimate and the time that is left, in a tick as at the end of the window.
pub proof fn the_model_is_asked_for_the_tick(
    run: RunState,
    strategy: StrategyState,
    remaining_secs: u64,
    price: Decimal,
    estimate: Option<Decimal>,
    around: Surroundings,
    step: Step,
)
    requires
        run.phase == (Phase::Estimate { remaining_secs, price }) || run.phase == (
        Phase::LastEstimate { remaining_secs, price }),
        run.next(strategy, Event::Estimate(estimate), around) == Some(step),
    ensures
        ({
            let sigma = volatility_of(strategy, estimate);
            &&& step.action == ActionState::Model {
                spot: price,
                strike: run.opening_price,
                sigma,
                remaining_secs,
            }
            &&& run.phase is Estimate ==> step.run.phase == (Phase::Model {
                remaining_secs,
                price,
                sigma,
            })
            &&& run.phase is LastEstimate ==> step.run.phase == (Phase::LastModel {
                remaining_secs,
                price,
                sigma,
            })
        }),
        step.strategy == strategy,
        step.run.opening_price == run.opening_price,
{
}

/// The snapshot of a tick.
pub open spec fn snapshot_in(
    run: RunState,
    strategy: StrategyState,
    remaining_secs: u64,
    price: Decimal,
    sigma: Decimal,
    model: ModelPrice,
    around: Surroundings,
) -> Option<MarketSnapshot> {
    snapshot_of(
        strategy.config.dry_run,
        price,
        run.opening_price,
        remaining_secs,
        sigma,
        fair_up(price, run.opening_price, sigma, remaining_secs, model),
        around.books,
    )
}

/// In dry-run mode a tick starts, places orders exactly if its start lets orders be placed, and ends,
/// all with the same snapshot, in which the fair value of Up is what the model said. While trading is
/// halted it only starts, and the window ends.
#[verifier::rlimit(40)]
pub proof fn a_dry_run_tick_starts_orders_and_ends(
    run: RunState,
    strategy: StrategyState,
    remaining_secs: u64,
    price: Decimal,
    sigma: Decimal,
    model: ModelPrice,
    around: Surroundings,
    step: Step,
)
    requires
        run.phase == (Phase::Model { remaining_secs, price, sigma }),
        strategy.orders.dry_run,
        run.next(strategy, Event::Model(model), around) == Some(step),
    ensures
        snapshot_in(run, strategy, remaining_secs, price, sigma, model, around) matches Some(
            snapshot,
        ) && (strategy.after_tick_start(snapshot) matches Some((begun, start)) && {
            &&& start.halted ==> step.strategy == begun && step.run.phase is LastClock
            &&& !start.halted ==> step.run.phase is Clock
            &&& !start.halted && !start.may_order ==> begun.after_tick_end(
                around.market,
                snapshot,
                around.now,
            ) == Some(step.strategy)
            &&& !start.halted && start.may_order ==> (begun.after_orders(
                around.market,
                snapshot,
                around.up_id,
                around.down_id,
                around.now,
            ) matches Some((ordered, _)) && ordered.after_tick_end(
                around.market,
                snapshot,
                around.now,
            ) == Some(step.strategy))
        }),
        step.action is ReadClock,
{
    let snapshot = snapshot_in(run, strategy, remaining_secs, price, sigma, model, around)->0;
    crate::strategy::the_start_of_a_tick_keeps_the_mode(strategy, snapshot);
}

/// Whether a step submits an order for a side: one of the proposal, with the ID that was given for
/// that side. It waits with its cost, and the strategy stays as it is until the order is accepted.
pub open spec fn submits_for(
    step: Step,
    strategy: StrategyState,
    plan: OrderPlan,
    snapshot: MarketSnapshot,
    side: Side,
    placed: u64,
    around: Surroundings,
) -> bool {
    strategy.proposal(plan, snapshot, side, placed) matches Some(Some(proposal)) && {
        &&& step.strategy == strategy
        &&& step.action matches ActionState::Submit(order) && {
            &&& step.run.pending == Some((order, proposal.cost))
            &&& order.side == side
            &&& order.price == proposal.bid && order.size == proposal.shares
            &&& match side {
                Side::Up => order.token_id == around.market.up_token_id@ && order.id
                    == around.up_id,
                Side::Down => order.token_id == around.market.down_token_id@ && order.id
                    == around.down_id,
            }
        }
    }
}

/// Whether a step takes the orders of a tick in turn: the order for Up comes first, if there is one, and
/// is submitted. Without one the order for Down is, and without that the tick ends.
pub open spec fn takes_orders_in_turn(
    step: Step,
    strategy: StrategyState,
    snapshot: MarketSnapshot,
    around: Surroundings,
) -> bool {
    strategy.order_plan(snapshot) matches Some(plan) && match step.run.phase {
        Phase::SubmitUp { snapshot: shown, plan: planned } => shown == snapshot && planned == plan
            && submits_for(step, strategy, plan, snapshot, Side::Up, 0, around),
        Phase::SubmitDown { snapshot: shown } => shown == snapshot && submits_for(
            step,
            strategy,
            plan,
            snapshot,
            Side::Down,
            0,
            around,
        ) && (strategy.proposal(plan, snapshot, Side::Up, 0) matches Some(Some(proposal))
            ==> order_error(proposal.bid, proposal.shares) is Some),
        Phase::Clock => strategy.after_tick_end(around.market, snapshot, around.now) == Some(
            step.strategy,
        ) && (strategy.proposal(plan, snapshot, Side::Up, 0) matches Some(Some(proposal))
            ==> order_error(proposal.bid, proposal.shares) is Some) && (strategy.proposal(
            plan,
            snapshot,
            Side::Down,
            0,
        ) matches Some(Some(proposal)) ==> order_error(proposal.bid, proposal.shares) is Some),
        _ => false,
    }
}

/// In live mode a tick whose start cancelled orders asks for their cancellation. Else, if orders may
/// not be placed, it ends; and if they may, they are submitted one by one.
#[verifier::rlimit(40)]
pub proof fn a_live_tick_cancels_or_ends(
    run: RunState,
    strategy: StrategyState,
    remaining_secs: u64,
    price: Decimal,
    sigma: Decimal,
    model: ModelPrice,
    around: Surroundings,
    step: Step,
)
    requires
        run.phase == (Phase::Model { remaining_secs, price, sigma }),
        !strategy.orders.dry_run,
        run.next(strategy, Event::Model(model), around) == Some(step),
    ensures
        snapshot_in(run, strategy, remaining_secs, price, sigma, model, around) matches Some(
            snapshot,
        ) && (strategy.after_tick_start(snapshot) matches Some((begun, start)) && {
            &&& start.halted ==> step.strategy == begun && step.run.phase is LastClock
                && step.action is ReadClock
            &&& !start.halted && start.cancelled > 0 ==> step.strategy == begun && step.action
                is CancelAll && step.run.phase == (Phase::Cancel {
                snapshot,
                may_order: start.may_order,
            })
            &&& !start.halted && start.cancelled == 0 && !start.may_order ==> begun.after_tick_end(
                around.market,
                snapshot,
                around.now,
            ) == Some(step.strategy) && step.run.phase is Clock
            &&& !start.halted && start.cancelled == 0 && start.may_order ==> takes_orders_in_turn(
                step,
                begun,
                snapshot,
                around,
            )
        }),
{
    let snapshot = snapshot_in(run, strategy, remaining_secs, price, sigma, model, around)->0;
    crate::strategy::the_start_of_a_tick_keeps_the_mode(strategy, snapshot);
}

/// After a cancellation the orders of a tick in live mode are submitted one by one, if orders may be
/// placed.
pub proof fn live_orders_follow_a_cancellation(
    run: RunState,
    strategy: StrategyState,
    snapshot: MarketSnapshot,
    around: Surroundings,
    step: Step,
)
    requires
        run.phase == (Phase::Cancel { snapshot, may_order: true }),
        !strategy.orders.dry_run,
        run.next(strategy, Event::Done, around) == Some(step),
    ensures
        takes_orders_in_turn(step, strategy, snapshot, around),
{
}

/// Where orders may not be placed the tick ends after a cancellation.
pub proof fn a_cancellation_without_orders_ends_the_tick(
    run: RunState,
    strategy: StrategyState,
    snapshot: MarketSnapshot,
    around: Surroundings,
    step: Step,
)
    requires
        run.phase == (Phase::Cancel { snapshot, may_order: false }),
        run.next(strategy, Event::Done, around) == Some(step),
    ensures
        strategy.after_tick_end(around.market, snapshot, around.now) == Some(step.strategy),
        step.run.phase is Clock,
        step.action is ReadClock,
{
}

/// An Up order that was submitted is recorded with its cost exactly if it was accepted. The order for
/// Down follows, if there is one, which counts the accepted order; else the tick ends.
#[verifier::rlimit(40)]
pub proof fn an_accepted_up_order_is_recorded(
    run: RunState,
    strategy: StrategyState,
    snapshot: MarketSnapshot,
    plan: OrderPlan,
    order: OrderState,
    cost: Decimal,
    accepted: bool,
    around: Surroundings,
    step: Step,
    recorded: StrategyState,
)
    requires
        run.phase == (Phase::SubmitUp { snapshot, plan }),
        run.pending == Some((order, cost)),
        run.next(strategy, Event::Submitted(accepted), around) == Some(step),
        accepted ==> strategy.after_order(order, cost) == Some(recorded),
        !accepted ==> recorded == strategy,
    ensures
        match step.run.phase {
            Phase::SubmitDown { snapshot: shown } => shown == snapshot && submits_for(
                step,
                recorded,
                plan,
                snapshot,
                Side::Down,
                if accepted {
                    1
                } else {
                    0
                },
                around,
            ),
            Phase::Clock => recorded.after_tick_end(around.market, snapshot, around.now) == Some(
                step.strategy,
            ) && step.run.pending is None,
            _ => false,
        },
{
}

/// A Down order that was submitted is recorded with its cost exactly if it was accepted, and the tick
/// ends.
pub proof fn an_accepted_down_order_is_recorded(
    run: RunState,
    strategy: StrategyState,
    snapshot: MarketSnapshot,
    order: OrderState,
    cost: Decimal,
    accepted: bool,
    around: Surroundings,
    step: Step,
    recorded: StrategyState,
)
    requires
        run.phase == (Phase::SubmitDown { snapshot }),
        run.pending == Some((order, cost)),
        run.next(strategy, Event::Submitted(accepted), around) == Some(step),
        accepted ==> strategy.after_order(order, cost) == Some(recorded),
        !accepted ==> recorded == strategy,
    ensures
        recorded.after_tick_end(around.market, snapshot, around.now) == Some(step.strategy),
        step.run.phase is Clock,
        step.run.pending is None,
{
}

/// At the end of a window the time that is left is read once more, none if it is over, and the last
/// price, which is not sampled.
pub proof fn the_last_price_is_not_sampled(
    run: RunState,
    strategy: StrategyState,
    remaining: i64,
    tick: PriceTick,
    around: Surroundings,
    step: Step,
)
    requires
        run.phase is LastClock && run.next(strategy, Event::Remaining(remaining), around) == Some(
            step,
        ) || run.phase is LastPrice && run.next(strategy, Event::Price(Some(tick)), around) == Some(
            step,
        ),
    ensures
        step.strategy == strategy,
        step.run.opening_price == run.opening_price,
        run.phase is LastClock ==> step.run.phase == (Phase::LastPrice {
            remaining_secs: if remaining < 0 {
                0
            } else {
                remaining as u64
            },
        }),
        run.phase matches Phase::LastPrice { remaining_secs } ==> step.run.phase == (
        Phase::LastEstimate { remaining_secs, price: tick.price }),
{
}

/// A window is closed with the fair value of the last price, or without one where there is no last
/// price. Its results are handed out at once, or after the cancellation of the orders that were left
/// is submitted in live mode.
pub proof fn a_window_is_closed_with_the_last_price(
    run: RunState,
    strategy: StrategyState,
    event: Event,
    around: Surroundings,
    step: Step,
    fair_value_up: Option<Decimal>,
)
    requires
        run.next(strategy, event, around) == Some(step),
        match (run.phase, event) {
            (Phase::LastPrice { .. }, Event::Price(None)) => fair_value_up is None,
            (Phase::LastModel { remaining_secs, price, sigma }, Event::Model(model)) => fair_value_up
                == Some(fair_up(price, run.opening_price, sigma, remaining_secs, model)),
            _ => false,
        },
    ensures
        strategy.after_window(fair_value_up, around.now) matches Some((closed, summary)) && {
            &&& step.strategy == closed
            &&& summary.cancelled > 0 && !closed.orders.dry_run ==> step.action is CancelAll
                && step.run.phase == (Phase::Closing { summary })
            &&& summary.cancelled == 0 || closed.orders.dry_run ==> step.action
                == ActionState::Finish(Some(summary)) && step.run.phase is Finished
        },
{
}

/// The results of a window that waited for a cancellation are handed out as they were.
pub proof fn results_are_handed_out(
    run: RunState,
    strategy: StrategyState,
    summary: crate::strategy::WindowSummary,
    around: Surroundings,
)
    requires
        run.phase == (Phase::Closing { summary }),
    ensures
        run.next(strategy, Event::Done, around) matches Some(step) && step.strategy == strategy
            && step.action == ActionState::Finish(Some(summary)) && step.run.phase is Finished,
{
}

} // verus!
