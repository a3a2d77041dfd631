//! What is said of refusals, positions and totals.

use vstd::prelude::*;
use crate::config::{Config, ConfigError};
use crate::decimal::Decimal;
use crate::decimal::{dec, kept_product_is_exact, kept_sum_is_exact};
use crate::json::Json;
use crate::laws::limits::decides_exactly;
use crate::laws::numbers::{multiplies_exactly, value_of};
use crate::merge::EngineState;
use crate::orders::OrderError;
use crate::risk::RiskState;
use crate::text::{bool_chars, digits_of};
use crate::types::{OrderState, OrderStatus, PnlSnapshot, Side};

verus! {

/// An order is refused for the first limit that it breaks, in this order: a halt, the loss of the day,
/// the losses in a row, the capital, the largest order, the exposure of the market, the investment of
/// the window, and the open orders. The refusal names the amounts.
#[verifier::rlimit(40)]
pub proof fn refusals_say_why(
    state: RiskState,
    cost: Decimal,
    open_orders: usize,
    percent: Decimal,
    largest: Decimal,
    largest_percent: Decimal,
)
    requires
        decides_exactly(state, cost),
        multiplies_exactly(state.daily_stop_loss_pct, dec(100, 0)),
        state.daily_stop_loss_pct.times(dec(100, 0)) == Some(percent),
        multiplies_exactly(state.max_position_pct, dec(100, 0)),
        state.max_position_pct.times(dec(100, 0)) == Some(largest_percent),
        state.starting_capital.times(state.max_position_pct) == Some(largest),
    ensures
        percent@ == 100real * state.daily_stop_loss_pct@,
        largest_percent@ == 100real * state.max_position_pct@,
        largest@ == state.starting_capital@ * state.max_position_pct@,
        ({
            let verdict = state.verdict(cost, open_orders);
            let too_much_lost = state.daily_pnl@ < -(state.starting_capital@
                * state.daily_stop_loss_pct@);
            let too_many_losses = state.consecutive_losses >= state.consecutive_loss_limit;
            let exposed = state.current_market_exposure@ + cost@ > state.max_exposure_per_market@;
            let invested = state.window_total_invested@ + cost@ > state.max_window_investment@;
            if state.halted {
                verdict == Some(
                    Err::<(), Seq<char>>(
                        "Trading halted: "@ + match state.halt_reason {
                            Some(reason) => reason,
                            None => "unknown"@,
                        },
                    ),
                )
            } else if too_much_lost {
                verdict == Some(
                    Err::<(), Seq<char>>(
                        "Daily stop loss hit: P&L $"@ + state.daily_pnl.fixed_chars(2)
                            + " exceeds "@ + percent.fixed_chars(0) + "% limit"@,
                    ),
                )
            } else if too_many_losses {
                verdict == Some(
                    Err::<(), Seq<char>>(
                        "Circuit breaker: "@ + digits_of(state.consecutive_losses as nat)
                            + " consecutive losses (limit: "@ + digits_of(
                            state.consecutive_loss_limit as nat,
                        ) + ")"@,
                    ),
                )
            } else if cost@ > state.available_capital@ {
                verdict == Some(
                    Err::<(), Seq<char>>(
                        "Insufficient capital: need $"@ + cost.fixed_chars(2) + ", have $"@
                            + state.available_capital.fixed_chars(2),
                    ),
                )
            } else if cost@ > largest@ {
                verdict == Some(
                    Err::<(), Seq<char>>(
                        "Order $"@ + cost.fixed_chars(2) + " exceeds max position "@
                            + largest_percent.fixed_chars(0) + "% = $"@ + largest.fixed_chars(2),
                    ),
                )
            } else if exposed {
                verdict == Some(
                    Err::<(), Seq<char>>(
                        "Market exposure $"@ + state.current_market_exposure.fixed_chars(2)
                            + " + $"@ + cost.fixed_chars(2) + " would exceed limit $"@
                            + state.max_exposure_per_market.fixed_chars(2),
                    ),
                )
            } else if invested {
                verdict == Some(
                    Err::<(), Seq<char>>(
                        "Window total investment $"@ + state.window_total_invested.fixed_chars(2)
                            + " + $"@ + cost.fixed_chars(2) + " would exceed limit $"@
                            + state.max_window_investment.fixed_chars(2),
                    ),
                )
            } else if open_orders >= state.max_open_orders {
                verdict == Some(
                    Err::<(), Seq<char>>(
                        "Too many open orders: "@ + digits_of(open_orders as nat) + " (limit: "@
                            + digits_of(state.max_open_orders as nat) + ")"@,
                    ),
                )
            } else {
                verdict == Some(Ok::<(), Seq<char>>(()))
            }
        }),
{
    value_of(100, 0);
    kept_product_is_exact(state.starting_capital, state.daily_stop_loss_pct);
    crate::decimal::opposites_differ_by_the_sign(
        state.starting_capital.times(state.daily_stop_loss_pct)->0,
    );
    kept_product_is_exact(state.daily_stop_loss_pct, dec(100, 0));
    kept_product_is_exact(state.max_position_pct, dec(100, 0));
    kept_product_is_exact(state.starting_capital, state.max_position_pct);
    kept_sum_is_exact(state.current_market_exposure, cost);
    kept_sum_is_exact(state.window_total_invested, cost);
}

/// The summary of the risk manager gives the capital, the profit and loss of the day, the exposure,
/// the investment of the window and its limit, the losses in a row, and whether trading is halted.
pub proof fn the_summary_names_its_amounts(state: RiskState)
    ensures
        state.summary_chars() == "Capital: $"@ + state.available_capital.fixed_chars(2)
            + " | Daily P&L: $"@ + state.daily_pnl.fixed_chars(2) + " | Market Exp: $"@
            + state.current_market_exposure.fixed_chars(2) + " | Window Invested: $"@
            + state.window_total_invested.fixed_chars(2) + "/"@
            + state.max_window_investment.fixed_chars(2) + " | Consec Losses: "@ + digits_of(
            state.consecutive_losses as nat,
        ) + " | Halted: "@ + bool_chars(state.halted),
        bool_chars(true) == "true"@,
        bool_chars(false) == "false"@,
{
}

/// The report on a window gives its number, the market and the time, then the positions, the merges
/// and the totals. It says so where nothing was merged.
pub proof fn the_report_has_four_parts(
    state: EngineState,
    market_slug: Seq<char>,
    window_num: u64,
    time: Seq<char>,
)
    ensures
        state.report_chars(market_slug, window_num, time) == state.report_title(
            market_slug,
            window_num,
            time,
        ) + state.report_positions() + state.report_merges() + state.report_totals(),
        state.report_title(market_slug, window_num, time)
            == "═══════════════════════════════════════════\n"@ + "  MERGE BOT — Window #"@
            + digits_of(window_num as nat) + " Report\n"@ + "  Market: "@ + market_slug + "\n"@
            + "  Time:   "@ + time + " UTC\n"@ + "═══════════════════════════════════════════\n\n"@,
        state.report_merges() == "MERGES THIS WINDOW:\n"@ + (if state.window_merges().len() == 0 {
            "  No merges executed\n"@
        } else {
            crate::merge::merges_chars(state.window_merges())
        }) + "\n"@,
{
}

/// The report on a window gives the shares and the average cost of Up under Up, and those of Down
/// under Down, and what a pair cost once both were bought.
pub proof fn the_report_names_both_positions(state: EngineState)
    ensures
        state.report_positions() == "POSITIONS AT WINDOW END:\n"@ + ("  Up:   "@
            + state.up.shares.chars() + " shares @ avg $"@ + state.up.avg_cost.fixed_chars(4)
            + "\n"@) + ("  Down: "@ + state.down.shares.chars() + " shares @ avg $"@
            + state.down.avg_cost.fixed_chars(4) + "\n"@) + match state.pair_cost() {
            Some(Some(cost)) => "  Combined avg cost/pair: $"@ + cost.fixed_chars(4) + "\n"@,
            _ => Seq::empty(),
        } + "\n"@,
{
}

/// The report on a window numbers its merges from one, and gives the pairs, the cost, the payout, the
/// profit and the percentage of each, one after the other.
pub proof fn the_report_lists_each_merge(
    history: Seq<crate::types::MergeResult>,
    merge: crate::types::MergeResult,
)
    ensures
        crate::merge::merges_chars(history.push(merge)) == crate::merge::merges_chars(history) + (
        "  #"@ + digits_of(history.len() + 1) + ": "@ + merge.pairs_merged.chars()
            + " pairs | cost $"@ + merge.total_cost.fixed_chars(4) + " | payout $"@
            + merge.total_payout.fixed_chars(4) + " | profit $"@ + merge.profit.fixed_chars(4)
            + " ("@ + merge.profit_pct.fixed_chars(2) + "%)\n"@),
        crate::merge::merges_chars(Seq::empty()).len() == 0,
{
    assert(history.push(merge).drop_last() =~= history);
}

/// The merges of a window are those since it started.
pub proof fn the_report_lists_the_merges_of_the_window(state: EngineState, i: int)
    requires
        state.earlier_merges <= state.history.len(),
        0 <= i < state.window_merges().len(),
    ensures
        state.window_merges().len() == state.history.len() - state.earlier_merges,
        state.window_merges()[i] == state.history[state.earlier_merges + i],
{
}

/// The report on a window gives the totals of the session under their names.
pub proof fn the_report_names_the_totals(state: EngineState, percent: Decimal)
    requires
        state.pnl.win_rate.times(dec(100, 0)) == Some(percent),
    ensures
        state.report_totals() == "SESSION TOTALS:\n"@ + "  Total orders:       "@ + digits_of(
            state.pnl.total_orders as nat,
        ) + "\n"@ + "  Total merges:       "@ + digits_of(state.pnl.total_merges as nat) + "\n"@
            + "  Total pairs merged: "@ + state.pnl.total_pairs.chars() + "\n"@
            + "  Total invested:     $"@ + state.pnl.total_invested.fixed_chars(4) + "\n"@
            + "  Total payout:       $"@ + state.pnl.total_merged_payout.fixed_chars(4) + "\n"@
            + "  Total profit:       $"@ + state.pnl.total_profit.fixed_chars(4) + "\n"@
            + "  Win rate:           "@ + percent.fixed_chars(1) + "%\n"@
            + "  Markets traded:     "@ + digits_of(state.pnl.markets_traded as nat) + "\n"@
            + "═══════════════════════════════════════════\n"@,
{
}

/// The final report gives the totals of the session under their names, line by line.
pub proof fn the_final_report_names_the_totals(
    pnl: PnlSnapshot,
    daily_pnl: Decimal,
    final_capital: Decimal,
    percent: Decimal,
)
    requires
        pnl.win_rate.times(dec(100, 0)) == Some(percent),
    ensures
        ({
            let lines = crate::session::final_report_lines(pnl, daily_pnl, final_capital);
            &&& lines.len() == 10
            &&& lines[0] == "Total orders:         "@ + digits_of(pnl.total_orders as nat)
            &&& lines[1] == "Total merges:         "@ + digits_of(pnl.total_merges as nat)
            &&& lines[2] == "Total pairs merged:   "@ + pnl.total_pairs.chars()
            &&& lines[3] == "Total invested:       $"@ + pnl.total_invested.fixed_chars(4)
            &&& lines[4] == "Total merge payout:   $"@ + pnl.total_merged_payout.fixed_chars(4)
            &&& lines[5] == "Total profit:         $"@ + pnl.total_profit.fixed_chars(4)
            &&& lines[6] == "Win rate:             "@ + percent.fixed_chars(1) + "%"@
            &&& lines[7] == "Markets traded:       "@ + digits_of(pnl.markets_traded as nat)
            &&& lines[8] == "Daily P&L:            $"@ + daily_pnl.fixed_chars(4)
            &&& lines[9] == "Final capital:        $"@ + final_capital.fixed_chars(4)
        }),
{
}

/// A side, and a state of an order, is written as its own name.
pub proof fn names_are_written(side: Side, status: OrderStatus)
    ensures
        side.chars() == match side {
            Side::Up => "UP"@,
            Side::Down => "DOWN"@,
        },
        status.chars() == match status {
            OrderStatus::Pending => "PENDING"@,
            OrderStatus::Open => "OPEN"@,
            OrderStatus::PartialFill => "PARTIAL"@,
            OrderStatus::Filled => "FILLED"@,
            OrderStatus::Cancelled => "CANCELLED"@,
            OrderStatus::Rejected => "REJECTED"@,
        },
{
}

/// The message that submits an order names its token, its price and its size, in this order, and that
/// it buys until it is cancelled.
pub proof fn a_submission_names_its_order(value: Json, order: OrderState)
    ensures
        crate::orders::is_order_payload(value, order) <==> (value matches Json::Object(fields) && {
            &&& fields@.len() == 5
            &&& fields@[0].0@ == "tokenID"@ && (fields@[0].1 matches Json::Text(t) && t@
                == order.token_id)
            &&& fields@[1].0@ == "price"@ && (fields@[1].1 matches Json::Text(t) && t@
                == order.price.chars())
            &&& fields@[2].0@ == "size"@ && (fields@[2].1 matches Json::Text(t) && t@
                == order.size.chars())
            &&& fields@[3].0@ == "side"@ && (fields@[3].1 matches Json::Text(t) && t@ == "BUY"@)
            &&& fields@[4].0@ == "type"@ && (fields@[4].1 matches Json::Text(t) && t@ == "GTC"@)
        }),
{
}

/// A header is its name and its value, and a credential is its text.
pub proof fn headers_are_names_and_values(
    header: (String, String),
    name: Seq<char>,
    value: Seq<char>,
    credential: String,
)
    ensures
        crate::orders::is_header(header, name, value) <==> header.0@ == name && header.1@ == value,
        crate::orders::optional_chars(Some(credential)) == Some(credential@),
        crate::orders::optional_chars(None) is None,
{
}

/// An error says what is wrong: the size or the price of an order, or the credential that live trading
/// lacks.
pub proof fn errors_say_what_is_wrong(error: OrderError, lacking: ConfigError)
    ensures
        error.chars() == match error {
            OrderError::TooSmall(size) => "Order size "@ + size.chars()
                + " below minimum of 5 shares"@,
            OrderError::InvalidPrice(price) => "Invalid price: "@ + price.chars()
                + " (must be 0 < p < 1)"@,
        },
        lacking.chars() == match lacking {
            ConfigError::ApiKey => "POLYMARKET_API_KEY required for live trading"@,
            ConfigError::ApiSecret => "POLYMARKET_API_SECRET required for live trading"@,
            ConfigError::Passphrase => "POLYMARKET_PASSPHRASE required for live trading"@,
            ConfigError::PrivateKey => "POLYGON_PRIVATE_KEY required for live trading"@,
        },
{
}

/// Live trading is refused for the first credential that it lacks: the key, the secret, the passphrase,
/// and the private key.
pub proof fn live_trading_names_what_it_lacks(config: Config)
    ensures
        config.dry_run ==> config.lacks() is None,
        !config.dry_run ==> config.lacks() == if config.polymarket_api_key is None {
            Some(ConfigError::ApiKey)
        } else if config.polymarket_api_secret is None {
            Some(ConfigError::ApiSecret)
        } else if config.polymarket_passphrase is None {
            Some(ConfigError::Passphrase)
        } else if config.polygon_private_key is None {
            Some(ConfigError::PrivateKey)
        } else {
            None
        },
{
}

} // verus!
