use merge_bot::config::{CliArgs, Config, Credentials};
use merge_bot::decimal::Decimal;
use merge_bot::feeds::polymarket::MarketBooks;
use merge_bot::rules::{calculate_bid_price, market_snapshot, should_buy, simulated_book};
use merge_bot::rules::{MarketSnapshot, ask_for, bid_for};
use merge_bot::types::{Position, Side};

fn d(num: i64, scale: u32) -> Decimal {
    Decimal::new(num, scale)
}

fn config() -> Config {
    let args = CliArgs {
        dry_run: true,
        live: false,
        capital: Some(d(215, 0)),
        log_level: "info".to_string(),
        max_windows: 0,
        target_edge: Some(d(3, 2)),
        shares_per_order: 5,
        json_logs: false,
        log_dir: String::new(),
        entry_delay: 90,
        exit_buffer: 30,
        sim_speed: 1,
    };
    let none = Credentials {
        polymarket_api_key: None,
        polymarket_api_secret: None,
        polymarket_passphrase: None,
        polygon_private_key: None,
    };
    Config::from_args(&args, none)
}

fn at(fair_up: Decimal, remaining: u64, btc: i64) -> MarketSnapshot {
    let books = MarketBooks::default();
    market_snapshot(true, d(btc, 0), d(97000, 0), remaining, d(45, 2), fair_up, &books).unwrap()
}

fn buys(side: Side, bid: Decimal, snapshot: &MarketSnapshot) -> bool {
    should_buy(&config(), side, bid, snapshot).unwrap()
}

#[test]
fn simulated_quotes_stay_in_range() {
    assert_eq!(ask_for(d(50, 2)).unwrap(), d(525, 3));
    assert_eq!(bid_for(d(50, 2)).unwrap(), d(475, 3));
    assert_eq!(ask_for(d(98, 2)).unwrap(), d(99, 2));
    assert_eq!(bid_for(d(2, 2)).unwrap(), d(1, 2));
    let book = simulated_book(d(50, 2), 9).unwrap();
    assert_eq!(book.best_ask(), Some(d(525, 3)));
    assert_eq!(book.best_bid(), Some(d(475, 3)));
    assert_eq!(book.asks[0].size, d(500, 0));
    assert_eq!(book.timestamp, Some(9));
}

#[test]
fn live_snapshots_take_the_books() {
    let books = MarketBooks::default();
    let live = market_snapshot(false, d(1, 0), d(1, 0), 5, d(45, 2), d(40, 2), &books).unwrap();
    assert_eq!(live.up_best_ask, None);
    assert_eq!(live.down_best_bid, None);
    assert_eq!(live.fair_value_down, d(60, 2));
    let dry = at(d(40, 2), 5, 97000);
    assert_eq!(dry.up_best_ask, Some(d(425, 3)));
    assert_eq!(dry.down_best_ask, Some(d(625, 3)));
    assert_eq!(dry.up_best_bid, Some(d(375, 3)));
    assert_eq!(dry.down_best_bid, Some(d(575, 3)));
}

#[test]
fn bids_follow_the_fair_value_and_the_limits() {
    let config = config();
    let none = Position::default();
    let held = Position { shares: d(5, 0), avg_cost: d(55, 2), total_cost: d(275, 2) };
    let target = d(97, 2);
    let bid = |fair: Decimal, other: &Position| {
        calculate_bid_price(&config, Side::Up, &at(fair, 200, 97000), other, target).unwrap()
    };
    assert_eq!(bid(d(40, 2), &none), d(43, 2));
    assert_eq!(bid(d(47, 2), &none), d(48, 2));
    assert_eq!(bid(d(47, 2), &held), d(42, 2));
    assert_eq!(bid(d(30, 2), &held), d(33, 2));
    assert_eq!(bid(d(-10, 2), &none), d(1, 2));
    let dear = Position { shares: d(5, 0), avg_cost: d(99, 2), total_cost: d(495, 2) };
    assert_eq!(bid(d(47, 2), &dear), d(1, 2));
}

#[test]
fn bids_out_of_range_are_not_placed() {
    let snapshot = at(d(47, 2), 200, 97000);
    assert!(buys(Side::Up, d(47, 2), &snapshot));
    assert!(!buys(Side::Up, d(9, 3), &snapshot));
    assert!(!buys(Side::Up, d(991, 3), &snapshot));
    assert!(!buys(Side::Up, d(481, 3), &snapshot));
    assert!(buys(Side::Up, d(48, 2), &at(d(45, 2), 200, 97000)));
    assert!(!buys(Side::Up, d(48, 2), &at(d(449, 3), 200, 97000)));
}

#[test]
fn the_band_of_fair_values_narrows() {
    let low = |remaining: u64, fair: Decimal| buys(Side::Up, d(10, 2), &at(fair, remaining, 97000));
    assert!(low(300, d(2000, 4)));
    assert!(!low(300, d(1999, 4)));
    assert!(low(1000, d(2000, 4)));
    // 0.34 - 0.14 * 200 / 300 = 0.24666...
    assert!(low(200, d(2467, 4)));
    assert!(!low(200, d(2466, 4)));
    assert!(low(200, d(7533, 4)));
    assert!(!low(200, d(7534, 4)));
    // 0.34 - 0.14 * 250 / 300 = 0.22333...
    assert!(low(250, d(2233, 4)));
    assert!(!low(250, d(2232, 4)));
    assert!(low(250, d(7767, 4)));
    assert!(!low(250, d(7768, 4)));
}

#[test]
fn trading_winds_down() {
    assert!(!buys(Side::Up, d(30, 2), &at(d(40, 2), 59, 97000)));
    assert!(buys(Side::Up, d(30, 2), &at(d(40, 2), 60, 97000)));
    assert!(!buys(Side::Up, d(30, 2), &at(d(45, 2), 89, 97000)));
    assert!(buys(Side::Up, d(30, 2), &at(d(45, 2), 90, 97000)));
    assert!(!buys(Side::Up, d(43, 2), &at(d(45, 2), 119, 97000)));
    assert!(buys(Side::Up, d(42, 2), &at(d(45, 2), 119, 97000)));
    assert!(buys(Side::Up, d(43, 2), &at(d(45, 2), 120, 97000)));
}

#[test]
fn the_cheap_side_is_bought() {
    // A move of 0.03% of 97000 is 29.1.
    let bid = d(45, 2);
    assert!(buys(Side::Up, bid, &at(d(46, 2), 200, 97029)));
    assert!(!buys(Side::Up, bid, &at(d(46, 2), 200, 97030)));
    assert!(buys(Side::Up, d(43, 2), &at(d(46, 2), 200, 97030)));
    assert!(buys(Side::Down, bid, &at(d(54, 2), 200, 96971)));
    assert!(!buys(Side::Down, bid, &at(d(54, 2), 200, 96970)));
    assert!(buys(Side::Down, d(43, 2), &at(d(54, 2), 200, 96970)));
}

#[test]
fn without_an_opening_price_both_sides_are_cheap() {
    let books = MarketBooks::default();
    let snapshot =
        market_snapshot(true, d(97000, 0), d(0, 0), 200, d(45, 2), d(50, 2), &books).unwrap();
    assert!(buys(Side::Up, d(48, 2), &snapshot));
    assert!(buys(Side::Down, d(48, 2), &snapshot));
}

#[test]
fn snapshots_of_numbers_that_do_not_fit_are_errors() {
    let huge = Decimal::from_parts(-0xffff_ffff_ffff_ffff_ffff_ffff, 0).unwrap();
    let books = MarketBooks::default();
    let result = market_snapshot(true, d(1, 0), d(1, 0), 5, d(45, 2), huge, &books);
    assert!(result.is_err());
}

#[test]
fn both_sides_are_treated_alike() {
    for cents in 15..86 {
        for btc in [96900, 96980, 97000, 97020, 97100] {
            for remaining in [50, 80, 110, 200] {
                let snapshot = at(d(cents, 2), remaining, btc);
                let mirrored = at(d(100 - cents, 2), remaining, 2 * 97000 - btc);
                for bid in [d(30, 2), d(44, 2), d(48, 2)] {
                    assert_eq!(
                        buys(Side::Up, bid, &snapshot),
                        buys(Side::Down, bid, &mirrored)
                    );
                }
            }
        }
    }
}
