use merge_bot::decimal::Decimal;
use merge_bot::session::{after_window, final_report, retry_wait, NextWindow};
use merge_bot::session::{simulated_market, simulated_window, simulated_window_at};
use merge_bot::session::{Session, SessionEvent};
use merge_bot::text::{bool_text, same_text};
use merge_bot::types::{BookLevel, Market, MergeResult, OrderBook, OrderStatus, PnlSnapshot};
use merge_bot::types::{Position, Side};

fn d(num: i64, scale: u32) -> Decimal {
    Decimal::new(num, scale)
}

#[test]
fn sides_have_opposites_and_names() {
    for side in [Side::Up, Side::Down] {
        assert_ne!(side.opposite(), side);
        assert_eq!(side.opposite().opposite(), side);
    }
    assert_eq!(Side::Up.text(), "UP");
    assert_eq!(Side::Down.text(), "DOWN");
}

#[test]
fn order_states_have_names() {
    let names = [
        (OrderStatus::Pending, "PENDING", false),
        (OrderStatus::Open, "OPEN", true),
        (OrderStatus::PartialFill, "PARTIAL", true),
        (OrderStatus::Filled, "FILLED", false),
        (OrderStatus::Cancelled, "CANCELLED", false),
        (OrderStatus::Rejected, "REJECTED", false),
    ];
    for (status, name, live) in names {
        assert_eq!(status.text(), name);
        assert_eq!(status.can_fill(), live);
    }
}

#[test]
fn windows_have_elapsed_and_remaining_seconds() {
    let market = simulated_market(300, 600, None);
    assert_eq!(market.seconds_remaining_at(300), 300);
    assert_eq!(market.seconds_remaining_at(599), 1);
    assert_eq!(market.seconds_remaining_at(600), 0);
    assert_eq!(market.seconds_remaining_at(700), 0);
    assert_eq!(market.seconds_remaining_at(0), 600);
    assert_eq!(market.seconds_elapsed_at(299), 0);
    assert_eq!(market.seconds_elapsed_at(300), 0);
    assert_eq!(market.seconds_elapsed_at(450), 150);
    assert_eq!(market.seconds_remaining(), 0);
    assert!(market.seconds_elapsed() > 1_600_000_000);
}

#[test]
fn books_have_a_middle_and_a_spread() {
    let level = |price: Decimal| BookLevel { price, size: d(1, 0) };
    let book = |bids: Vec<Decimal>, asks: Vec<Decimal>| OrderBook {
        bids: bids.into_iter().map(level).collect(),
        asks: asks.into_iter().map(level).collect(),
        timestamp: None,
    };
    let both = book(vec![d(45, 2), d(44, 2)], vec![d(48, 2)]);
    assert_eq!(both.best_bid(), Some(d(45, 2)));
    assert_eq!(both.best_ask(), Some(d(48, 2)));
    assert_eq!(both.midpoint().unwrap(), Some(d(465, 3)));
    assert_eq!(both.spread().unwrap(), Some(d(3, 2)));
    let mixed = book(vec![d(44, 2), d(45, 2)], vec![d(49, 2), d(48, 2), d(50, 2)]);
    assert_eq!((mixed.best_bid(), mixed.best_ask()), (Some(d(45, 2)), Some(d(48, 2))));
    assert_eq!(book(vec![d(45, 2)], vec![]).midpoint().unwrap(), Some(d(45, 2)));
    assert_eq!(book(vec![], vec![d(48, 2)]).midpoint().unwrap(), Some(d(48, 2)));
    assert_eq!(book(vec![], vec![d(48, 2)]).spread().unwrap(), None);
    assert_eq!(OrderBook::default().midpoint().unwrap(), None);
    let huge = Decimal::from_parts(0xffff_ffff_ffff_ffff_ffff_ffff, 0).unwrap();
    assert!(book(vec![huge], vec![huge]).midpoint().is_err());
    assert!(book(vec![huge], vec![huge.opposite()]).spread().is_err());
}

#[test]
fn defaults_are_zero() {
    let position = Position::default();
    assert!(position.shares.is_zero() && position.avg_cost.is_zero());
    let pnl = PnlSnapshot::default();
    assert!(pnl.total_profit.is_zero() && pnl.win_rate.is_zero());
    assert_eq!((pnl.total_merges, pnl.total_orders, pnl.markets_traded), (0, 0, 0));
}

#[test]
fn copies_are_equal() {
    let market: Market = simulated_market(300, 600, Some(d(97000, 0)));
    let copy = market.clone();
    assert_eq!(copy.condition_id, market.condition_id);
    assert_eq!(copy.opening_price, Some(d(97000, 0)));
    let merge = MergeResult {
        pairs_merged: d(1, 0),
        total_cost: d(9, 1),
        total_payout: d(1, 0),
        profit: d(1, 1),
        profit_pct: d(11, 0),
        timestamp: 5,
    };
    assert_eq!(merge.clone().timestamp, 5);
}

#[test]
fn decimals_compare_by_value() {
    assert_eq!(d(10, 1), d(1, 0));
    assert!(d(11, 1) > d(1, 0));
    assert!(d(-1, 0) < d(0, 0));
    assert_eq!(d(1, 0).max(d(100, 2)).scale(), 0);
    assert_eq!(d(1, 0).min(d(100, 2)).scale(), 0);
    assert_eq!(d(1, 0).max(d(2, 0)), d(2, 0));
    assert_eq!(d(1, 0).min(d(2, 0)), d(1, 0));
    assert!(d(0, 5).is_zero() && !d(1, 5).is_zero());
    assert_eq!(d(15, 1).opposite(), d(-15, 1));
}

#[test]
fn decimals_have_a_range() {
    let limit: i128 = 0x1_0000_0000_0000_0000_0000_0000;
    assert!(Decimal::from_parts(limit, 0).is_none());
    assert!(Decimal::from_parts(-limit, 0).is_none());
    assert!(Decimal::from_parts(1, 29).is_none());
    let largest = Decimal::from_parts(limit - 1, 28).unwrap();
    assert_eq!((largest.mantissa(), largest.scale()), (limit - 1, 28));
    assert_eq!(Decimal::from_count(u64::MAX).mantissa(), u64::MAX as i128);
    assert_eq!(Decimal::whole(-7), d(-7, 0));
}

#[test]
fn differences_saturate() {
    let largest = Decimal::from_parts(0xffff_ffff_ffff_ffff_ffff_ffff, 0).unwrap();
    assert_eq!(d(5, 0).saturating_sub(d(75, 1)), d(-25, 1));
    assert_eq!(largest.saturating_sub(largest.opposite()), largest);
    assert_eq!(largest.opposite().saturating_sub(largest), largest.opposite());
}

#[test]
fn amounts_have_four_places() {
    assert_eq!(d(123456, 5).amount_text().unwrap(), "1.2345");
    assert_eq!(d(-5, 1).amount_text().unwrap(), "-0.5000");
    let long = Decimal::from_parts(999_999_999_999_999_999_999_999_999, 0).unwrap();
    assert_eq!(long.amount_text().unwrap(), "999999999999999999999999999.0000");
    let longer = Decimal::from_parts(1_000_000_000_000_000_000_000_000_000, 0).unwrap();
    assert!(longer.amount_text().is_err());
    assert!(longer.opposite().amount_text().is_err());
}

#[test]
fn texts_compare_by_characters() {
    assert!(same_text("a", "a"));
    assert!(!same_text("a", "A"));
    assert_eq!(bool_text(true), "true");
    assert_eq!(bool_text(false), "false");
}

#[test]
fn sessions_end_at_their_limit() {
    assert_eq!(after_window(3, 3, false, 10), NextWindow::LimitReached);
    assert_eq!(after_window(3, 2, false, 10), NextWindow::After(10));
    assert_eq!(after_window(0, 99, false, 0), NextWindow::After(0));
    assert_eq!(after_window(0, 99, true, 10), NextWindow::Halted);
    assert_eq!(after_window(0, 1, false, -5), NextWindow::After(0));
    assert_eq!(retry_wait(600, 590), 11);
    assert_eq!(retry_wait(600, 600), 0);
}

#[test]
fn simulated_markets_are_named_after_their_window() {
    let market = simulated_market(1_700_000_100, 1_700_000_400, Some(d(97000, 0)));
    assert_eq!(market.condition_id, "sim-condition-1700000100");
    assert_eq!(market.slug, "btc-updown-5m-1700000100");
    assert_eq!(market.up_token_id, "sim-up-1700000100");
    assert_eq!(market.down_token_id, "sim-down-1700000100");
    assert_ne!(market.up_token_id, market.down_token_id);
    assert!(market.active);
}

#[test]
fn the_final_report_lists_the_session() {
    let mut pnl = PnlSnapshot::default();
    pnl.total_orders = 12;
    pnl.total_merges = 3;
    pnl.total_pairs = d(15, 0);
    pnl.total_invested = d(14250, 3);
    pnl.total_merged_payout = d(15, 0);
    pnl.total_profit = d(75, 2);
    pnl.win_rate = d(6666, 4);
    pnl.markets_traded = 2;
    let lines = final_report(&pnl, d(75, 2), d(21575, 2)).unwrap();
    assert_eq!(
        lines,
        vec![
            "Total orders:         12",
            "Total merges:         3",
            "Total pairs merged:   15",
            "Total invested:       $14.2500",
            "Total merge payout:   $15.0000",
            "Total profit:         $0.7500",
            "Win rate:             66.6%",
            "Markets traded:       2",
            "Daily P&L:            $0.7500",
            "Final capital:        $215.7500",
        ]
    );
    let long = Decimal::from_parts(1_000_000_000_000_000_000_000_000_000, 0).unwrap();
    assert!(final_report(&pnl, long, d(1, 0)).is_err());
}

#[test]
fn simulated_windows_have_their_own_length() {
    assert_eq!(simulated_window_at(1_700_000_123, 300), Some((1_700_000_100, 1_700_000_400)));
    assert_eq!(simulated_window_at(1_700_000_123, 30), Some((1_700_000_100, 1_700_000_130)));
    assert_eq!(simulated_window_at(7, 0), Some((7, 8)));
    assert_eq!(simulated_window_at(u64::MAX, 300), None);
    let (start, end) = simulated_window(30).unwrap();
    assert!(start > 1_700_000_000 && end == start + 30);
}

#[test]
fn a_session_trades_exactly_its_windows() {
    let mut session = Session::new(3);
    let traded = SessionEvent::Traded { halted: false, remaining: 12 };
    let none = SessionEvent::NoMarket { window_end: 600, now: 590 };
    assert_eq!(session.step(none), Some(NextWindow::After(11)));
    assert_eq!(session.step(traded), Some(NextWindow::After(12)));
    assert_eq!(session.step(none), Some(NextWindow::After(11)));
    assert_eq!(session.windows_traded(), 1);
    assert_eq!(session.step(traded), Some(NextWindow::After(12)));
    assert_eq!(session.step(traded), Some(NextWindow::LimitReached));
    assert_eq!(session.windows_traded(), 3);
    let mut endless = Session::new(0);
    for _ in 0..100 {
        assert_eq!(endless.step(traded), Some(NextWindow::After(12)));
    }
    let halted = SessionEvent::Traded { halted: true, remaining: 12 };
    assert_eq!(endless.step(halted), Some(NextWindow::Halted));
    let too_long = SessionEvent::NoMarket { window_end: u64::MAX, now: 0 };
    assert_eq!(endless.step(too_long), None);
    assert_eq!(endless.windows_traded(), 101);
}
