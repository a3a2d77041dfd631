//! The session: what follows a window, simulated markets, and the final report.

use vstd::prelude::*;
use vstd::string::*;
use crate::clock::now_millis;
use crate::decimal::{ArithmeticError, Decimal};
use crate::decimal::dec;
use crate::market::MarketDiscovery;
use crate::market::{slug_of, window_at};
use crate::text::count_text;
use crate::text::digits_of;
use crate::types::{Market, PnlSnapshot};
use crate::types::MarketState;

verus! {

/// What follows a window.
#[derive(Debug, Clone, Copy, PartialEq, Eq, Structural)]
pub enum NextWindow {
    /// The session ends, since it traded as many windows as it should.
    LimitReached,
    /// The session ends, since trading is halted.
    Halted,
    /// The next window is traded after this many seconds.
    After(u64),
}

/// What follows a window, given the windows traded so far (0 as a limit means no limit), whether
/// trading is halted, and the seconds that are left of the window.
pub open spec fn next_window_after(
    max_windows: u64,
    windows_traded: u64,
    halted: bool,
    remaining: i64,
) -> NextWindow {
    if max_windows > 0 && windows_traded >= max_windows {
        NextWindow::LimitReached
    } else if halted {
        NextWindow::Halted
    } else if remaining > 0 {
        NextWindow::After(remaining as u64)
    } else {
        NextWindow::After(0)
    }
}

/// What follows a window.
pub fn after_window(max_windows: u64, windows_traded: u64, halted: bool, remaining: i64) -> (r:
    NextWindow)
    ensures
        r == next_window_after(max_windows, windows_traded, halted, remaining),
{
    if max_windows > 0 && windows_traded >= max_windows {
        return NextWindow::LimitReached;
    }
    if halted {
        return NextWindow::Halted;
    }
    if remaining > 0 {
        NextWindow::After(remaining as u64)
    } else {
        NextWindow::After(0)
    }
}

/// The seconds to wait for the next window where no market was found: until a second after the end
/// of the current one.
pub open spec fn wait_after(window_end: u64, now: u64) -> u64 {
    if window_end > now {
        (window_end - now + 1) as u64
    } else {
        0
    }
}

/// The seconds to wait for the next window where no market was found.
pub fn retry_wait(window_end: u64, now: u64) -> (r: u64)
    requires
        window_end - now < u64::MAX,
    ensures
        r == wait_after(window_end, now),
{
    if window_end > now {
        window_end - now + 1
    } else {
        0
    }
}

/// What came of the search for a market, or of a window.
#[derive(Debug, Clone, Copy)]
pub enum SessionEvent {
    /// A window was traded. Trading is halted or not, and this many seconds are left of the window.
    Traded { halted: bool, remaining: i64 },
    /// No market was found, with the end of the current window and the time (Unix seconds).
    NoMarket { window_end: u64, now: u64 },
}

/// A session: how many windows it trades at most (0 = unlimited), and how many it has traded.
pub struct Session {
    max_windows: u64,
    windows_traded: u64,
}

/// The state of a session.
pub ghost struct SessionState {
    pub max_windows: u64,
    pub windows_traded: u64,
}

impl View for Session {
    type V = SessionState;

    closed spec fn view(&self) -> SessionState {
        SessionState { max_windows: self.max_windows, windows_traded: self.windows_traded }
    }
}

impl SessionState {
    /// The state before the first window.
    pub open spec fn initial(max_windows: u64) -> SessionState {
        SessionState { max_windows, windows_traded: 0 }
    }

    /// The state after an event, and what follows. A window that was traded counts; where no market
    /// was found nothing counts, and the next window is waited for. `None` stands for a number that
    /// does not fit.
    pub open spec fn after(self, event: SessionEvent) -> Option<(SessionState, NextWindow)> {
        match event {
            SessionEvent::Traded { halted, remaining } => if self.windows_traded == u64::MAX {
                None
            } else {
                let windows_traded = (self.windows_traded + 1) as u64;
                Some(
                    (
                        SessionState { windows_traded, ..self },
                        next_window_after(self.max_windows, windows_traded, halted, remaining),
                    ),
                )
            },
            SessionEvent::NoMarket { window_end, now } => if window_end - now >= u64::MAX {
                None
            } else {
                Some((self, NextWindow::After(wait_after(window_end, now))))
            },
        }
    }

    /// The state after a sequence of events, as long as the session goes on after each of them.
    pub open spec fn going_on(self, events: Seq<SessionEvent>) -> Option<SessionState>
        decreases events.len(),
    {
        if events.len() == 0 {
            Some(self)
        } else {
            match self.going_on(events.drop_last()) {
                Some(state) => match state.after(events.last()) {
                    Some((after, NextWindow::After(_))) => Some(after),
                    _ => None,
                },
                None => None,
            }
        }
    }
}

/// How many windows were traded in a sequence of events.
pub open spec fn windows_in(events: Seq<SessionEvent>) -> nat
    decreases events.len(),
{
    if events.len() == 0 {
        0
    } else if events.last() is Traded {
        windows_in(events.drop_last()) + 1
    } else {
        windows_in(events.drop_last())
    }
}

impl Session {
    /// A session that has traded no window.
    pub fn new(max_windows: u64) -> (r: Session)
        ensures
            r@ == SessionState::initial(max_windows),
    {
        Session { max_windows, windows_traded: 0 }
    }

    /// How many windows were traded.
    pub fn windows_traded(&self) -> (r: u64)
        ensures
            r == self@.windows_traded,
    {
        self.windows_traded
    }

    /// Takes an event. Returns what follows, or nothing if a number does not fit.
    pub fn step(&mut self, event: SessionEvent) -> (r: Option<NextWindow>)
        ensures
            match old(self)@.after(event) {
                Some((state, next)) => r == Some(next) && final(self)@ == state,
                None => r is None && final(self)@ == old(self)@,
            },
    {
        match event {
            SessionEvent::Traded { halted, remaining } => {
                if self.windows_traded == u64::MAX {
                    return None;
                }
                self.windows_traded = self.windows_traded + 1;
                Some(after_window(self.max_windows, self.windows_traded, halted, remaining))
            },
            SessionEvent::NoMarket { window_end, now } => {
                if window_end > now && window_end - now == u64::MAX {
                    return None;
                }
                Some(NextWindow::After(retry_wait(window_end, now)))
            },
        }
    }
}

/// The seconds of a simulated window: at least one.
pub open spec fn window_length(window_secs: u64) -> u64 {
    if window_secs == 0 {
        1
    } else {
        window_secs
    }
}

/// The simulated window that a time (Unix seconds) is in, by its start and its end. It starts at a
/// multiple of its length.
pub open spec fn simulated_window_of(now: u64, window_secs: u64) -> (int, int) {
    let start = now - now % window_length(window_secs);
    (start, start + window_length(window_secs))
}

/// The simulated window that a time (Unix seconds) is in, by its start and its end, unless the end
/// is out of range. A window that should take less than a second takes one.
pub fn simulated_window_at(now: u64, window_secs: u64) -> (r: Option<(u64, u64)>)
    ensures
        r is Some <==> simulated_window_of(now, window_secs).1 <= u64::MAX,
        r matches Some((start, end)) ==> {
            &&& (start as int, end as int) == simulated_window_of(now, window_secs)
            &&& start <= now < end
            &&& end - start == window_length(window_secs)
            &&& window_secs > 0 ==> end - start == window_secs
        },
{
    let length: u64 = if window_secs == 0 {
        1
    } else {
        window_secs
    };
    assert(now % length < length && now % length <= now) by (nonlinear_arith)
        requires
            length > 0,
    ;
    let start: u64 = now - now % length;
    if start > u64::MAX - length {
        return None;
    }
    Some((start, start + length))
}

/// The current simulated window, by its start and its end, unless the end is out of range.
pub fn simulated_window(window_secs: u64) -> (r: Option<(u64, u64)>)
    ensures
        exists|now: u64|
            now <= i64::MAX && match r {
                Some((start, end)) => (start as int, end as int)
                    == #[trigger] simulated_window_of(now, window_secs),
                None => simulated_window_of(now, window_secs).1 > u64::MAX,
            },
{
    let now: u64 = (now_millis() / 1000) as u64;
    simulated_window_at(now, window_secs)
}

/// A simulated window of 300 seconds is that of the markets.
pub proof fn simulated_windows_at_normal_speed(now: u64)
    ensures
        simulated_window_of(now, 300) == window_at(now),
{
}

/// The simulated market of a window.
pub open spec fn simulated_market_of(
    window_start: u64,
    window_end: u64,
    opening_price: Option<Decimal>,
) -> MarketState {
    let number = digits_of(window_start as nat);
    MarketState {
        condition_id: "sim-condition-"@ + number,
        slug: slug_of(window_start),
        up_token_id: "sim-up-"@ + number,
        down_token_id: "sim-down-"@ + number,
        window_start,
        window_end,
        opening_price,
        active: true,
    }
}

/// The simulated market of a window.
pub fn simulated_market(window_start: u64, window_end: u64, opening_price: Option<Decimal>) -> (r:
    Market)
    ensures
        r@ == simulated_market_of(window_start, window_end, opening_price),
{
    let number = count_text(window_start);
    Market {
        condition_id: "sim-condition-".to_string().concat(number.as_str()),
        slug: MarketDiscovery::expected_slug(window_start),
        up_token_id: "sim-up-".to_string().concat(number.as_str()),
        down_token_id: "sim-down-".to_string().concat(number.as_str()),
        window_start,
        window_end,
        opening_price,
        active: true,
    }
}

/// Whether all amounts of the final report fit and can be written with four decimal places.
pub open spec fn final_report_fits(
    pnl: PnlSnapshot,
    daily_pnl: Decimal,
    final_capital: Decimal,
) -> bool {
    pnl.total_invested.is_printable() && pnl.total_merged_payout.is_printable()
        && pnl.total_profit.is_printable() && pnl.win_rate.times(dec(100, 0)) is Some
        && daily_pnl.is_printable() && final_capital.is_printable()
}

/// The lines of the final report that give the totals of the session.
pub open spec fn final_report_lines(
    pnl: PnlSnapshot,
    daily_pnl: Decimal,
    final_capital: Decimal,
) -> Seq<Seq<char>> {
    seq![
        "Total orders:         "@ + digits_of(pnl.total_orders as nat),
        "Total merges:         "@ + digits_of(pnl.total_merges as nat),
        "Total pairs merged:   "@ + pnl.total_pairs.chars(),
        "Total invested:       $"@ + pnl.total_invested.fixed_chars(4),
        "Total merge payout:   $"@ + pnl.total_merged_payout.fixed_chars(4),
        "Total profit:         $"@ + pnl.total_profit.fixed_chars(4),
        "Win rate:             "@ + pnl.win_rate.times(dec(100, 0))->0.fixed_chars(1) + "%"@,
        "Markets traded:       "@ + digits_of(pnl.markets_traded as nat),
        "Daily P&L:            $"@ + daily_pnl.fixed_chars(4),
        "Final capital:        $"@ + final_capital.fixed_chars(4),
    ]
}

/// The lines of the final report that give the totals of the session.
pub fn final_report(pnl: &PnlSnapshot, daily_pnl: Decimal, final_capital: Decimal) -> (r: Result<
    Vec<String>,
    ArithmeticError,
>)
    ensures
        r is Ok <==> final_report_fits(*pnl, daily_pnl, final_capital),
        r matches Ok(lines) ==> lines@.map_values(|line: String| line@) == final_report_lines(
            *pnl,
            daily_pnl,
            final_capital,
        ),
{
    let invested = pnl.total_invested.amount_text()?;
    let payout = pnl.total_merged_payout.amount_text()?;
    let profit = pnl.total_profit.amount_text()?;
    let percent = pnl.win_rate.checked_mul(Decimal::new(100, 0))?;
    let daily = daily_pnl.amount_text()?;
    let capital = final_capital.amount_text()?;
    let mut lines: Vec<String> = Vec::new();
    lines.push(
        "Total orders:         ".to_string().concat(count_text(pnl.total_orders).as_str()),
    );
    lines.push(
        "Total merges:         ".to_string().concat(count_text(pnl.total_merges).as_str()),
    );
    lines.push("Total pairs merged:   ".to_string().concat(pnl.total_pairs.text().as_str()));
    lines.push("Total invested:       $".to_string().concat(invested.as_str()));
    lines.push("Total merge payout:   $".to_string().concat(payout.as_str()));
    lines.push("Total profit:         $".to_string().concat(profit.as_str()));
    lines.push(
        "Win rate:             ".to_string().concat(percent.fixed_text(1).as_str()).concat("%"),
    );
    lines.push(
        "Markets traded:       ".to_string().concat(count_text(pnl.markets_traded).as_str()),
    );
    lines.push("Daily P&L:            $".to_string().concat(daily.as_str()));
    lines.push("Final capital:        $".to_string().concat(capital.as_str()));
    assert(lines@.map_values(|line: String| line@) =~= final_report_lines(
        *pnl,
        daily_pnl,
        final_capital,
    ));
    Ok(lines)
}

/// A session counts the windows that it has traded, and no others. As long as it goes on it has
/// traded fewer windows than its limit.
pub proof fn sessions_count_their_windows(
    max_windows: u64,
    events: Seq<SessionEvent>,
    state: SessionState,
)
    requires
        SessionState::initial(max_windows).going_on(events) == Some(state),
    ensures
        state.max_windows == max_windows,
        state.windows_traded == windows_in(events),
        max_windows > 0 ==> windows_in(events) < max_windows,
    decreases events.len(),
{
    if events.len() > 0 {
        let before = SessionState::initial(max_windows).going_on(events.drop_last())->0;
        sessions_count_their_windows(max_windows, events.drop_last(), before);
    }
}

/// A session that ends at its limit has traded exactly as many windows as the limit says, and a
/// session with a limit ends with that window at the latest. Without a market no window counts, and
/// the session goes on.
pub proof fn a_session_trades_exactly_its_limit(
    max_windows: u64,
    events: Seq<SessionEvent>,
    state: SessionState,
    event: SessionEvent,
    after: SessionState,
    next: NextWindow,
)
    requires
        SessionState::initial(max_windows).going_on(events) == Some(state),
        state.after(event) == Some((after, next)),
    ensures
        next is LimitReached <==> max_windows > 0 && windows_in(events.push(event)) == max_windows
            && event is Traded,
        event is NoMarket ==> next is After && after == state,
        after.windows_traded == windows_in(events.push(event)),
{
    sessions_count_their_windows(max_windows, events, state);
    assert(events.push(event).drop_last() =~= events);
}

/// A session without a limit ends only when trading is halted, and one with a limit trades no more
/// windows than that.
pub proof fn sessions_keep_their_limit(
    max_windows: u64,
    windows_traded: u64,
    halted: bool,
    remaining: i64,
)
    ensures
        max_windows == 0 ==> next_window_after(max_windows, windows_traded, halted, remaining)
            != NextWindow::LimitReached,
        next_window_after(max_windows, windows_traded, halted, remaining) is After
            ==> !halted && (max_windows == 0 || windows_traded < max_windows),
{
}

/// The Up and the Down token of a simulated market are different.
pub proof fn simulated_tokens_differ(
    window_start: u64,
    window_end: u64,
    opening_price: Option<Decimal>,
)
    ensures
        simulated_market_of(window_start, window_end, opening_price).up_token_id
            != simulated_market_of(window_start, window_end, opening_price).down_token_id,
{
    reveal_strlit("sim-up-");
    reveal_strlit("sim-down-");
    let number = digits_of(window_start as nat);
    assert(("sim-up-"@ + number)[4] == 'u');
    assert(("sim-down-"@ + number)[4] == 'd');
}

} // verus!
