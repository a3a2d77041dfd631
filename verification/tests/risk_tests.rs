use merge_bot::decimal::Decimal;
use merge_bot::risk::RiskManager;

fn d(num: i64, scale: u32) -> Decimal {
    Decimal::new(num, scale)
}

/// 215 dollars, 10% for an order, 15% stop loss, five losses, 50 dollars for a market.
fn manager() -> RiskManager {
    RiskManager::new(d(215, 0), d(10, 2), d(15, 2), 5, d(50, 0), 10).unwrap()
}

fn refusal(risk: &RiskManager, cost: Decimal, open_orders: usize) -> String {
    risk.can_place_order(cost, open_orders).unwrap().unwrap_err()
}

#[test]
fn orders_within_the_limits_are_allowed() {
    let risk = manager();
    assert_eq!(risk.can_place_order(d(215, 1), 9), Ok(Ok(())));
}

#[test]
fn one_order_takes_a_tenth_of_the_capital_at_most() {
    assert_eq!(
        refusal(&manager(), d(2151, 2), 0),
        "Order $21.51 exceeds max position 10% = $21.50"
    );
}

#[test]
fn orders_need_capital() {
    assert_eq!(
        refusal(&manager(), d(21501, 2), 0),
        "Insufficient capital: need $215.01, have $215.00"
    );
}

#[test]
fn open_orders_are_limited() {
    assert_eq!(refusal(&manager(), d(1, 0), 10), "Too many open orders: 10 (limit: 10)");
}

#[test]
fn the_exposure_of_a_market_is_limited() {
    let mut risk = manager();
    for _ in 0..2 {
        risk.record_order(d(20, 0)).unwrap();
    }
    assert_eq!(risk.market_exposure(), d(40, 0));
    assert_eq!(risk.available_capital(), d(175, 0));
    assert_eq!(risk.can_place_order(d(10, 0), 0), Ok(Ok(())));
    assert_eq!(
        refusal(&risk, d(1001, 2), 0),
        "Market exposure $40.00 + $10.01 would exceed limit $50.00"
    );
}

#[test]
fn the_investment_of_a_window_is_limited() {
    let mut risk = manager();
    for _ in 0..4 {
        risk.record_order(d(15, 0)).unwrap();
        risk.record_merge(d(1, 0), d(15, 0)).unwrap();
    }
    assert!(risk.market_exposure().is_zero());
    assert_eq!(risk.can_place_order(d(15, 0), 0), Ok(Ok(())));
    assert_eq!(
        refusal(&risk, d(1501, 2), 0),
        "Window total investment $60.00 + $15.01 would exceed limit $75.00"
    );
    risk.reset_market_exposure();
    assert_eq!(risk.can_place_order(d(1501, 2), 0), Ok(Ok(())));
}

#[test]
fn five_losses_in_a_row_halt_trading() {
    let mut risk = manager();
    for _ in 0..4 {
        risk.record_merge(d(0, 0), d(1, 0)).unwrap();
    }
    risk.record_merge(d(1, 1), d(1, 0)).unwrap();
    for _ in 0..4 {
        risk.record_merge(d(-1, 1), d(1, 0)).unwrap();
    }
    assert!(!risk.is_halted());
    assert_eq!(risk.halt_reason(), None);
    risk.record_merge(d(-1, 1), d(1, 0)).unwrap();
    assert!(risk.is_halted());
    let reason = "Circuit breaker triggered: too many consecutive losses";
    assert_eq!(risk.halt_reason(), Some(reason));
    assert_eq!(refusal(&risk, d(1, 0), 0), format!("Trading halted: {}", reason));
    risk.record_merge(d(1, 0), d(1, 0)).unwrap();
    risk.reset_market_exposure();
    assert!(risk.is_halted());
}

#[test]
fn the_stop_loss_halts_after_15_percent() {
    let mut risk = manager();
    risk.record_merge(d(-3225, 2), d(50, 0)).unwrap();
    assert!(!risk.is_halted());
    risk.record_merge(d(-1, 2), d(50, 0)).unwrap();
    assert_eq!(risk.halt_reason(), Some("Daily stop loss exceeded"));
    assert_eq!(risk.daily_pnl(), d(-3226, 2));
}

#[test]
fn a_loss_limit_of_nothing_refuses_every_order() {
    let risk = RiskManager::new(d(100, 0), d(10, 2), d(15, 2), 0, d(50, 0), 10).unwrap();
    assert_eq!(
        refusal(&risk, d(1, 0), 0),
        "Circuit breaker: 0 consecutive losses (limit: 0)"
    );
}

#[test]
fn a_negative_stop_loss_refuses_every_order() {
    let risk = RiskManager::new(d(100, 0), d(10, 2), d(-15, 2), 5, d(50, 0), 10).unwrap();
    assert_eq!(
        refusal(&risk, d(1, 0), 0),
        "Daily stop loss hit: P&L $0.00 exceeds -15% limit"
    );
}

#[test]
fn capital_comes_back() {
    let mut risk = manager();
    risk.record_order(d(10, 0)).unwrap();
    risk.release_cancelled_exposure(d(10, 0)).unwrap();
    assert_eq!(risk.available_capital(), d(215, 0));
    assert!(risk.market_exposure().is_zero());
    risk.record_order(d(10, 0)).unwrap();
    risk.record_merge(d(5, 1), d(10, 0)).unwrap();
    assert_eq!(risk.available_capital(), d(2155, 1));
    assert_eq!(risk.daily_pnl(), d(5, 1));
    risk.record_order(d(10, 0)).unwrap();
    risk.record_salvage_revenue(d(12, 0)).unwrap();
    assert_eq!(risk.available_capital(), d(2175, 1));
    assert!(risk.market_exposure().is_zero());
    assert_eq!(risk.daily_pnl(), d(5, 1));
}

#[test]
fn the_summary_names_the_state() {
    let mut risk = manager();
    risk.record_order(d(12345, 3)).unwrap();
    assert_eq!(
        risk.summary(),
        "Capital: $202.65 | Daily P&L: $0.00 | Market Exp: $12.34 | Window Invested: $12.34/75.00 \
         | Consec Losses: 0 | Halted: false"
    );
    risk.halt("maintenance");
    assert_eq!(risk.halt_reason(), Some("maintenance"));
    assert!(risk.summary().ends_with("Halted: true"));
}

#[test]
fn amounts_that_do_not_fit_are_errors() {
    let huge = Decimal::from_parts(0xffff_ffff_ffff_ffff_ffff_ffff, 0).unwrap();
    assert!(RiskManager::new(d(1, 0), d(1, 1), d(1, 1), 5, huge, 10).is_err());
    let mut risk = manager();
    assert!(risk.record_order(huge.opposite()).is_err());
    assert_eq!(risk.available_capital(), d(215, 0));
    assert!(risk.record_merge(huge, huge).is_err());
    assert!(risk.record_salvage_revenue(huge).is_err());
    assert!(risk.release_cancelled_exposure(huge).is_err());
}

#[test]
fn cheaper_orders_are_allowed_where_dearer_ones_are() {
    let mut risk = manager();
    risk.record_order(d(21, 0)).unwrap();
    risk.record_order(d(15, 0)).unwrap();
    assert_eq!(risk.can_place_order(d(14, 0), 9), Ok(Ok(())));
    for cents in 0..1401 {
        assert_eq!(risk.can_place_order(d(cents, 2), 9), Ok(Ok(())));
    }
    assert!(risk.can_place_order(d(1401, 2), 9).unwrap().is_err());
}

#[test]
fn a_cancelled_order_is_undone_but_counts_for_the_window() {
    let mut risk = manager();
    for _ in 0..4 {
        risk.record_order(d(16, 0)).unwrap();
        risk.release_cancelled_exposure(d(16, 0)).unwrap();
        assert_eq!((risk.available_capital(), risk.market_exposure()), (d(215, 0), d(0, 0)));
    }
    assert_eq!(risk.daily_pnl(), d(0, 0));
    assert_eq!(
        refusal(&risk, d(16, 0), 0),
        "Window total investment $64.00 + $16.00 would exceed limit $75.00"
    );
}
