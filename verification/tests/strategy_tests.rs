use merge_bot::config::{CliArgs, Config, Credentials};
use merge_bot::decimal::Decimal;
use merge_bot::feeds::polymarket::MarketBooks;
use merge_bot::merge::MergeEngine;
use merge_bot::orders::OrderManager;
use merge_bot::risk::RiskManager;
use merge_bot::rules::MarketSnapshot;
use merge_bot::session::simulated_market;
use merge_bot::strategy::{MergeStrategy, SideOutcome};
use merge_bot::types::{Market, PriceSource, PriceTick, Side};

fn d(num: i64, scale: u32) -> Decimal {
    Decimal::new(num, scale)
}

fn config(live: bool, shares_per_order: u64) -> Config {
    let args = CliArgs {
        dry_run: true,
        live,
        capital: Some(d(215, 0)),
        log_level: "info".to_string(),
        max_windows: 0,
        target_edge: Some(d(3, 2)),
        shares_per_order,
        json_logs: false,
        log_dir: String::new(),
        entry_delay: 90,
        exit_buffer: 30,
        sim_speed: 1,
    };
    let none = Credentials {
        polymarket_api_key: None,
        polymarket_api_secret: None,
        polymarket_passphrase: None,
        polygon_private_key: None,
    };
    Config::from_args(&args, none)
}

fn risk(config: &Config) -> RiskManager {
    RiskManager::new(
        config.initial_capital,
        config.max_position_pct,
        config.daily_stop_loss_pct,
        config.consecutive_loss_limit,
        config.max_exposure_per_market,
        config.max_open_orders,
    )
    .unwrap()
}

fn strategy_with(engine: MergeEngine, live: bool, shares_per_order: u64) -> MergeStrategy {
    let config = config(live, shares_per_order);
    let risk = risk(&config);
    let orders = OrderManager::new(!live, "https://clob");
    MergeStrategy::new(config, orders, engine, risk)
}

fn strategy(shares_per_order: u64) -> MergeStrategy {
    strategy_with(MergeEngine::new(true), false, shares_per_order)
}

fn market() -> Market {
    simulated_market(1_700_000_100, 1_700_000_400, Some(d(97000, 0)))
}

fn at(strategy: &MergeStrategy, fair_up: Decimal, remaining: u64) -> MarketSnapshot {
    let books = MarketBooks::default();
    strategy.snapshot(d(97000, 0), d(97000, 0), remaining, d(45, 2), fair_up, &books).unwrap()
}

/// Makes a tick at a given second. Returns the number of orders placed.
fn tick(strategy: &mut MergeStrategy, fair_up: Decimal, remaining: u64, second: i64) -> u64 {
    let snapshot = at(strategy, fair_up, remaining);
    let start = strategy.start_tick(&snapshot).unwrap();
    let up_id = format!("up {}", second);
    let down_id = format!("down {}", second);
    let placed = if start.may_order {
        strategy
            .evaluate_and_place_orders(&market(), &snapshot, &up_id, &down_id, second * 1000)
            .unwrap()
    } else {
        0
    };
    strategy.end_tick(&market(), &snapshot, second * 1000).unwrap();
    placed
}

#[test]
fn both_sides_are_bought_and_merged() {
    let mut strategy = strategy(5);
    assert_eq!(strategy.begin_window(&market(), None).unwrap(), Some(d(97000, 0)));
    assert_eq!(tick(&mut strategy, d(50, 2), 200, 0), 2);
    assert_eq!(strategy.order_manager().open_orders_per_side(), (1, 1));
    assert_eq!(strategy.risk_manager().market_exposure(), d(48, 1));
    // The Up order is filled at the ask of 46.5 cents.
    assert_eq!(tick(&mut strategy, d(44, 2), 198, 2), 0);
    let (up, down) = strategy.merge_engine().positions();
    assert_eq!((up.shares, up.avg_cost, down.shares), (d(5, 0), d(465, 3), d(0, 0)));
    assert_eq!(strategy.window_cash_pnl(), d(-2325, 3));
    // Up is bought again. The Down order is filled too, and the pairs are merged.
    assert_eq!(tick(&mut strategy, d(56, 2), 196, 4), 1);
    let pnl = strategy.merge_engine().pnl_snapshot();
    assert_eq!(pnl.total_merges, 1);
    assert_eq!(pnl.total_pairs, d(5, 0));
    assert_eq!(pnl.total_profit, d(35, 2));
    assert_eq!(strategy.window_cash_pnl(), d(35, 2));
    assert_eq!(strategy.risk_manager().daily_pnl(), d(35, 2));
    let summary = strategy.close_window(None, 6000).unwrap();
    assert_eq!(summary.pairs_merged, d(5, 0));
    assert_eq!(summary.orders_placed, 3);
    assert_eq!(summary.cancelled, 1);
    assert_eq!(summary.net_pnl, d(35, 2));
    assert!(summary.unmerged_cost.is_zero());
}

#[test]
fn a_merge_is_followed_by_a_tick_without_orders() {
    let mut strategy = strategy(5);
    strategy.begin_window(&market(), None).unwrap();
    tick(&mut strategy, d(50, 2), 200, 0);
    tick(&mut strategy, d(44, 2), 198, 2);
    tick(&mut strategy, d(56, 2), 196, 4);
    let snapshot = at(&strategy, d(50, 2), 194);
    let start = strategy.start_tick(&snapshot).unwrap();
    assert!(!start.may_order && !start.halted);
    let start = strategy.start_tick(&snapshot).unwrap();
    assert!(start.may_order);
}

#[test]
fn pairs_are_counted_for_each_window() {
    let mut strategy = strategy(5);
    for window in 0..2 {
        strategy.begin_window(&market(), None).unwrap();
        let second = window * 100;
        tick(&mut strategy, d(50, 2), 200, second);
        tick(&mut strategy, d(44, 2), 198, second + 2);
        tick(&mut strategy, d(56, 2), 196, second + 4);
        let summary = strategy.close_window(None, 0).unwrap();
        assert_eq!(summary.pairs_merged, d(5, 0));
        assert_eq!(summary.pnl.total_merges, window as u64 + 1);
    }
}

#[test]
fn a_window_without_a_price_is_skipped() {
    let mut strategy = strategy(5);
    let mut unknown = market();
    unknown.opening_price = None;
    assert_eq!(strategy.begin_window(&unknown, None).unwrap(), None);
    assert_eq!(strategy.merge_engine().pnl_snapshot().markets_traded, 0);
    let first = PriceTick { price: d(96500, 0), timestamp: 0, source: PriceSource::Binance };
    assert_eq!(strategy.begin_window(&unknown, Some(first)).unwrap(), Some(d(96500, 0)));
    assert_eq!(strategy.begin_window(&market(), Some(first)).unwrap(), Some(d(97000, 0)));
    assert_eq!(strategy.merge_engine().pnl_snapshot().markets_traded, 2);
}

#[test]
fn a_side_with_an_open_order_is_blocked() {
    let mut strategy = strategy(5);
    strategy.begin_window(&market(), None).unwrap();
    tick(&mut strategy, d(50, 2), 200, 0);
    let snapshot = at(&strategy, d(50, 2), 198);
    let plan = strategy.plan_orders(&snapshot).unwrap();
    assert!(plan.up_blocked && plan.down_blocked);
    assert_eq!(plan.open_orders, 2);
    assert_eq!(plan.target_combined, d(97, 2));
    assert!(strategy.propose_order(&plan, &snapshot, Side::Up, 0).unwrap().is_none());
}

#[test]
fn a_side_far_ahead_is_blocked() {
    let mut engine = MergeEngine::new(true);
    engine.record_fill(Side::Up, d(30, 0), d(45, 2)).unwrap();
    let strategy = strategy_with(engine, false, 5);
    let snapshot = at(&strategy, d(50, 2), 200);
    let plan = strategy.plan_orders(&snapshot).unwrap();
    assert!(plan.up_blocked && plan.up_heavy);
    assert!(!plan.down_blocked && !plan.down_heavy);
    assert!(plan.choose_bid(strategy.config(), Side::Up, &snapshot).unwrap().is_none());
    let down = strategy.propose_order(&plan, &snapshot, Side::Down, 0).unwrap().unwrap();
    assert_eq!((down.bid, down.shares, down.cost), (d(48, 2), d(5, 0), d(24, 1)));
}

#[test]
fn the_other_side_has_to_be_affordable() {
    let mut engine = MergeEngine::new(true);
    engine.record_fill(Side::Up, d(4, 0), d(45, 2)).unwrap();
    let strategy = strategy_with(engine, false, 5);
    let mut snapshot = at(&strategy, d(47, 2), 200);
    let plan = strategy.plan_orders(&snapshot).unwrap();
    snapshot.down_best_ask = Some(d(57, 2));
    assert_eq!(plan.choose_bid(strategy.config(), Side::Up, &snapshot).unwrap(), Some(d(48, 2)));
    snapshot.down_best_ask = Some(d(571, 3));
    assert_eq!(plan.choose_bid(strategy.config(), Side::Up, &snapshot).unwrap(), None);
    snapshot.down_best_ask = None;
    assert_eq!(plan.choose_bid(strategy.config(), Side::Up, &snapshot).unwrap(), Some(d(48, 2)));
    snapshot.up_best_ask = Some(d(40, 2));
    assert_eq!(plan.choose_bid(strategy.config(), Side::Up, &snapshot).unwrap(), Some(d(39, 2)));
    snapshot.up_best_ask = None;
    assert_eq!(plan.choose_bid(strategy.config(), Side::Up, &snapshot).unwrap(), None);
}

#[test]
fn orders_are_halved_near_the_end() {
    let strategy = strategy(20);
    let late = strategy.plan_orders(&at(&strategy, d(50, 2), 119)).unwrap();
    assert_eq!(late.shares, d(10, 0));
    let early = strategy.plan_orders(&at(&strategy, d(50, 2), 120)).unwrap();
    assert_eq!(early.shares, d(20, 0));
    let small = strategy_with(MergeEngine::new(true), false, 6);
    let least = small.plan_orders(&at(&small, d(50, 2), 60)).unwrap();
    assert_eq!(least.shares, d(5, 0));
}

#[test]
fn risk_limits_refuse_orders() {
    let strategy = strategy(100);
    let snapshot = at(&strategy, d(50, 2), 200);
    let plan = strategy.plan_orders(&snapshot).unwrap();
    // 100 shares at 48 cents are more than a tenth of the capital.
    assert!(strategy.propose_order(&plan, &snapshot, Side::Up, 0).unwrap().is_none());
}

#[test]
fn a_large_loss_is_cut_near_the_end() {
    let mut strategy = strategy(20);
    strategy.begin_window(&market(), None).unwrap();
    assert_eq!(tick(&mut strategy, d(50, 2), 200, 0), 2);
    tick(&mut strategy, d(44, 2), 198, 2);
    assert_eq!(strategy.window_cash_pnl(), d(-93, 1));
    let early = at(&strategy, d(30, 2), 91);
    let start = strategy.start_tick(&early).unwrap();
    assert!(!start.may_order && start.cancelled == 0);
    assert_eq!(strategy.merge_engine().positions().0.shares, d(20, 0));
    let late = at(&strategy, d(30, 2), 90);
    let start = strategy.start_tick(&late).unwrap();
    assert!(!start.may_order);
    assert_eq!(start.cancelled, 1);
    assert!(strategy.merge_engine().positions().0.shares.is_zero());
    assert_eq!(strategy.window_cash_pnl(), d(-38, 1));
    assert_eq!(strategy.order_manager().open_order_count(), 0);
}

#[test]
fn a_small_loss_is_kept() {
    let mut strategy = strategy(20);
    strategy.begin_window(&market(), None).unwrap();
    tick(&mut strategy, d(50, 2), 200, 0);
    tick(&mut strategy, d(44, 2), 198, 2);
    let start = strategy.start_tick(&at(&strategy, d(315, 3), 90)).unwrap();
    assert!(start.may_order);
    assert_eq!(start.cancelled, 0);
    assert_eq!(strategy.merge_engine().positions().0.shares, d(20, 0));
}

#[test]
fn losing_excess_is_sold_in_the_middle() {
    let prepared = || {
        let mut engine = MergeEngine::new(true);
        engine.record_fill(Side::Down, d(12, 0), d(45, 2)).unwrap();
        strategy_with(engine, false, 5)
    };
    let end = |strategy: &mut MergeStrategy, fair_up: Decimal, remaining: u64| {
        let snapshot = at(strategy, fair_up, remaining);
        strategy.end_tick(&market(), &snapshot, 0).unwrap();
        strategy.merge_engine().positions().1.shares
    };
    assert_eq!(end(&mut prepared(), d(71, 2), 200), d(0, 0));
    assert_eq!(end(&mut prepared(), d(70, 2), 200), d(12, 0));
    assert_eq!(end(&mut prepared(), d(61, 2), 179), d(0, 0));
    assert_eq!(end(&mut prepared(), d(61, 2), 180), d(12, 0));
    assert_eq!(end(&mut prepared(), d(99, 2), 280), d(12, 0));
    assert_eq!(end(&mut prepared(), d(99, 2), 30), d(12, 0));
    let mut strategy = prepared();
    end(&mut strategy, d(71, 2), 200);
    assert_eq!(strategy.window_cash_pnl(), d(324, 2));
    assert_eq!(strategy.merge_engine().pnl_snapshot().total_salvage_revenue, d(324, 2));
}

#[test]
fn what_is_left_is_sold_at_the_end() {
    let mut engine = MergeEngine::new(true);
    engine.record_fill(Side::Up, d(10, 0), d(47, 2)).unwrap();
    engine.record_fill(Side::Down, d(35, 1), d(45, 2)).unwrap();
    let mut strategy = strategy_with(engine, false, 5);
    let summary = strategy.close_window(Some(d(40, 2)), 0).unwrap();
    assert_eq!(summary.pairs_merged, d(35, 1));
    assert!(summary.up.shares.is_zero() && summary.down.shares.is_zero());
    // 6.5 shares at 37.5 cents.
    assert_eq!(summary.pnl.total_salvage_revenue, d(24375, 4));
    assert_eq!(summary.salvage_loss, d(6175, 4));
    assert_eq!(summary.net_pnl, d(-3375, 4));
}

#[test]
fn less_than_a_pair_is_sold_on_both_sides() {
    let mut engine = MergeEngine::new(true);
    engine.record_fill(Side::Up, d(5, 1), d(47, 2)).unwrap();
    engine.record_fill(Side::Down, d(5, 1), d(45, 2)).unwrap();
    let mut strategy = strategy_with(engine, false, 5);
    let summary = strategy.close_window(Some(d(50, 2)), 0).unwrap();
    assert!(summary.pairs_merged.is_zero());
    assert!(summary.up.shares.is_zero() && summary.down.shares.is_zero());
    assert_eq!(summary.pnl.total_salvage_revenue, d(475, 3));
    assert_eq!(strategy.risk_manager().available_capital(), d(215475, 3));
}

#[test]
fn without_a_price_shares_expire() {
    let mut engine = MergeEngine::new(true);
    engine.record_fill(Side::Up, d(10, 0), d(47, 2)).unwrap();
    let mut strategy = strategy_with(engine, false, 5);
    let summary = strategy.close_window(None, 0).unwrap();
    assert_eq!(summary.up.shares, d(10, 0));
    assert_eq!(summary.unmerged_cost, d(47, 1));
    assert_eq!(summary.net_pnl, d(-47, 1));
}

#[test]
fn open_orders_are_cancelled_at_the_end() {
    let mut strategy = strategy(5);
    strategy.begin_window(&market(), None).unwrap();
    tick(&mut strategy, d(50, 2), 200, 0);
    assert_eq!(strategy.risk_manager().available_capital(), d(2102, 1));
    let summary = strategy.close_window(None, 0).unwrap();
    assert_eq!(summary.cancelled, 2);
    assert_eq!(summary.released, d(48, 1));
    assert_eq!(strategy.order_manager().open_order_count(), 0);
    assert_eq!(strategy.risk_manager().available_capital(), d(215, 0));
    assert!(strategy.risk_manager().market_exposure().is_zero());
}

#[test]
fn stale_orders_give_back_their_exposure() {
    let mut strategy = strategy(5);
    strategy.begin_window(&market(), None).unwrap();
    tick(&mut strategy, d(50, 2), 250, 0);
    // The ask of 52.5 cents is 4.5 cents above the bid of 48.
    let snapshot = at(&strategy, d(50, 2), 220);
    strategy.end_tick(&market(), &snapshot, 30_000).unwrap();
    assert_eq!(strategy.order_manager().open_order_count(), 2);
    strategy.end_tick(&market(), &snapshot, 30_001).unwrap();
    assert_eq!(strategy.order_manager().open_order_count(), 0);
    assert!(strategy.risk_manager().market_exposure().is_zero());
}

#[test]
fn live_orders_are_counted_once_confirmed() {
    let mut strategy = strategy_with(MergeEngine::new(false), true, 5);
    let snapshot = MarketSnapshot {
        up_best_ask: Some(d(52, 2)),
        ..at(&strategy, d(50, 2), 200)
    };
    let plan = strategy.plan_orders(&snapshot).unwrap();
    let outcome = strategy
        .evaluate_side(&market(), &snapshot, &plan, Side::Up, 0, "id", 77)
        .unwrap();
    let (order, cost) = match outcome {
        SideOutcome::Submit(order, cost) => (order, cost),
        other => panic!("{:?}", other),
    };
    assert_eq!((order.price, order.size, cost), (d(48, 2), d(5, 0), d(24, 1)));
    assert_eq!(order.token_id, "sim-up-1700000100");
    assert_eq!(order.market_condition_id, "sim-condition-1700000100");
    assert_eq!(order.created_at, 77);
    assert!(strategy.risk_manager().market_exposure().is_zero());
    strategy.confirm_order(order, cost).unwrap();
    assert_eq!(strategy.risk_manager().market_exposure(), d(24, 1));
    assert_eq!(strategy.order_manager().open_order_count(), 1);
    let none = strategy
        .evaluate_side(&market(), &snapshot, &plan, Side::Down, 1, "id", 77)
        .unwrap();
    assert!(matches!(none, SideOutcome::Nothing));
}

#[test]
fn the_volatility_has_a_default() {
    let mut strategy = strategy(5);
    assert_eq!(strategy.volatility(Some(d(8, 1))), d(45, 2));
    for minute in 0..10 {
        let price = PriceTick {
            price: d(97000 + minute, 0),
            timestamp: minute * 60_000,
            source: PriceSource::Simulated,
        };
        strategy.observe(&price);
    }
    assert_eq!(strategy.volatility(Some(d(8, 1))), d(8, 1));
    assert_eq!(strategy.volatility(None), d(45, 2));
    assert_eq!(strategy.sampled_prices().len(), 10);
    assert_eq!(strategy.sampled_prices()[9], d(97009, 0));
}

#[test]
fn trading_stops_at_the_exit_buffer() {
    let strategy = strategy(5);
    assert!(strategy.exit_reached(30));
    assert!(strategy.exit_reached(0));
    assert!(!strategy.exit_reached(31));
}

#[test]
fn orders_are_placed_below_the_ask() {
    let mut strategy = strategy(5);
    let mut snapshot = at(&strategy, d(50, 2), 200);
    snapshot.up_best_ask = Some(d(46, 2));
    snapshot.down_best_ask = Some(d(48, 2));
    let market = market();
    assert_eq!(strategy.evaluate_and_place_orders(&market, &snapshot, "a", "b", 0).unwrap(), 2);
    let orders = strategy.order_manager().all_orders();
    assert_eq!((orders[0].side, orders[0].price), (Side::Up, d(45, 2)));
    assert_eq!((orders[1].side, orders[1].price), (Side::Down, d(47, 2)));
}

#[test]
fn nothing_is_bought_at_an_ask_of_one_cent() {
    let strategy = strategy(5);
    let mut snapshot = at(&strategy, d(50, 2), 200);
    let plan = strategy.plan_orders(&snapshot).unwrap();
    snapshot.up_best_ask = Some(d(1, 2));
    assert_eq!(plan.choose_bid(strategy.config(), Side::Up, &snapshot).unwrap(), None);
    snapshot.up_best_ask = Some(d(2, 2));
    assert_eq!(plan.choose_bid(strategy.config(), Side::Up, &snapshot).unwrap(), Some(d(1, 2)));
}

#[test]
fn a_window_closed_with_a_price_sells_everything() {
    for (up, down) in [(d(75, 2), d(25, 2)), (d(5, 1), d(50, 2)), (d(3, 0), d(15, 1)), (d(0, 0), d(2, 0))] {
        let mut engine = MergeEngine::new(true);
        engine.record_fill(Side::Up, up, d(45, 2)).unwrap();
        engine.record_fill(Side::Down, down, d(45, 2)).unwrap();
        let mut strategy = strategy_with(engine, false, 5);
        let summary = strategy.close_window(Some(d(50, 2)), 0).unwrap();
        assert!(summary.up.shares.is_zero() && summary.down.shares.is_zero());
    }
}
