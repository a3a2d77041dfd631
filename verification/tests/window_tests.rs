use merge_bot::config::{CliArgs, Config, Credentials};
use merge_bot::decimal::Decimal;
use merge_bot::feeds::polymarket::MarketBooks;
use merge_bot::merge::MergeEngine;
use merge_bot::orders::OrderManager;
use merge_bot::pricing::ModelPrice;
use merge_bot::risk::RiskManager;
use merge_bot::session::simulated_market;
use merge_bot::strategy::MergeStrategy;
use merge_bot::types::{BookLevel, Market, PriceSource, PriceTick};
use merge_bot::window::{Action, Event, Inputs, Phase, WindowError, WindowRun};

fn d(num: i64, scale: u32) -> Decimal {
    Decimal::new(num, scale)
}

fn strategy(live: bool, shares_per_order: u64) -> MergeStrategy {
    let args = CliArgs {
        dry_run: true,
        live,
        capital: Some(d(215, 0)),
        log_level: "info".to_string(),
        max_windows: 0,
        target_edge: Some(d(3, 2)),
        shares_per_order,
        json_logs: false,
        log_dir: String::new(),
        entry_delay: 90,
        exit_buffer: 30,
        sim_speed: 1,
    };
    let none = Credentials {
        polymarket_api_key: None,
        polymarket_api_secret: None,
        polymarket_passphrase: None,
        polygon_private_key: None,
    };
    let config = Config::from_args(&args, none);
    let risk = RiskManager::new(d(215, 0), d(10, 2), d(15, 2), 5, d(50, 0), 10).unwrap();
    MergeStrategy::new(config, OrderManager::new(!live, ""), MergeEngine::new(!live), risk)
}

fn market() -> Market {
    simulated_market(1_700_000_100, 1_700_000_400, Some(d(97000, 0)))
}

fn price(value: i64) -> Event {
    Event::Price(Some(PriceTick {
        price: d(value, 0),
        timestamp: 0,
        source: PriceSource::Simulated,
    }))
}

fn books() -> MarketBooks {
    let mut books = MarketBooks::default();
    books.up_book.asks.push(BookLevel { price: d(52, 2), size: d(500, 0) });
    books.up_book.bids.push(BookLevel { price: d(20, 2), size: d(500, 0) });
    books.down_book.asks.push(BookLevel { price: d(52, 2), size: d(500, 0) });
    books
}

struct Bench {
    run: WindowRun,
    strategy: MergeStrategy,
    market: Market,
    books: MarketBooks,
    steps: u64,
}

impl Bench {
    fn new(live: bool, shares_per_order: u64) -> Bench {
        Bench {
            run: WindowRun::new(),
            strategy: strategy(live, shares_per_order),
            market: market(),
            books: books(),
            steps: 0,
        }
    }

    fn try_step(&mut self, event: Event) -> Result<Action, WindowError> {
        self.steps += 1;
        let (up_id, down_id) = (format!("up {}", self.steps), format!("down {}", self.steps));
        let inputs = Inputs {
            market: &self.market,
            books: &self.books,
            up_id: &up_id,
            down_id: &down_id,
            now: self.steps as i64,
        };
        self.run.step_at(&mut self.strategy, event, &inputs)
    }

    fn step(&mut self, event: Event) -> Action {
        self.try_step(event).unwrap()
    }

    fn open(&mut self) {
        assert!(matches!(self.step(Event::Started(90)), Action::ReadPrice));
        assert!(matches!(self.step(price(97000)), Action::ReadClock));
    }

    /// Makes a tick up to the answer of the model.
    fn tick(&mut self, remaining: i64, probability: Decimal) -> Action {
        assert!(matches!(self.step(Event::Remaining(remaining)), Action::Sleep(2000)));
        assert!(matches!(self.step(Event::Done), Action::ReadPrice));
        assert!(matches!(self.step(price(97000)), Action::Estimate));
        match self.step(Event::Estimate(None)) {
            Action::Model { spot, strike, sigma, remaining_secs } => {
                assert_eq!((spot, strike, sigma), (d(97000, 0), d(97000, 0), d(45, 2)));
                assert_eq!(remaining_secs, remaining as u64);
            },
            other => panic!("{:?}", other),
        }
        self.step(Event::Model(ModelPrice::Probability(probability)))
    }

    fn finish(&mut self, probability: Decimal) -> Action {
        assert!(matches!(self.step(Event::Remaining(20)), Action::ReadPrice));
        assert!(matches!(self.step(price(97000)), Action::Estimate));
        assert!(matches!(self.step(Event::Estimate(None)), Action::Model { .. }));
        self.step(Event::Model(ModelPrice::Probability(probability)))
    }
}

#[test]
fn a_dry_run_goes_through_a_window() {
    let mut bench = Bench::new(false, 5);
    assert!(matches!(bench.step(Event::Started(30)), Action::Sleep(60_000)));
    assert!(matches!(bench.step(Event::Done), Action::ReadPrice));
    assert!(matches!(bench.step(price(97000)), Action::ReadClock));
    for (remaining, probability) in [(200, d(50, 2)), (198, d(44, 2)), (196, d(56, 2))] {
        assert!(matches!(bench.tick(remaining, probability), Action::ReadClock));
    }
    assert!(matches!(bench.step(Event::Remaining(30)), Action::ReadClock));
    match bench.finish(d(50, 2)) {
        Action::Finish(Some(summary)) => {
            assert_eq!(summary.pairs_merged, d(5, 0));
            assert_eq!(summary.pnl.total_profit, d(35, 2));
            assert_eq!(summary.orders_placed, 3);
        },
        other => panic!("{:?}", other),
    }
    assert_eq!(bench.strategy.order_manager().open_order_count(), 0);
    assert!(matches!(bench.run.phase(), Phase::Finished));
    assert_eq!(bench.try_step(Event::Done).unwrap_err(), WindowError::UnexpectedEvent);
}

#[test]
fn a_missing_price_delays_the_tick() {
    let mut bench = Bench::new(false, 5);
    bench.open();
    bench.step(Event::Remaining(200));
    bench.step(Event::Done);
    assert!(matches!(bench.step(Event::Price(None)), Action::Sleep(500)));
    assert!(matches!(bench.step(Event::Done), Action::ReadClock));
    assert!(matches!(bench.step(Event::Remaining(-1)), Action::ReadClock));
    assert!(matches!(bench.step(Event::Remaining(-1)), Action::ReadPrice));
    assert!(matches!(bench.step(Event::Price(None)), Action::Finish(Some(_))));
}

#[test]
fn a_window_without_an_opening_price_is_over() {
    let mut bench = Bench::new(false, 5);
    bench.market.opening_price = None;
    bench.step(Event::Started(90));
    assert!(matches!(bench.step(Event::Price(None)), Action::Finish(None)));
    assert_eq!(bench.strategy.merge_engine().pnl_snapshot().markets_traded, 0);
}

#[test]
fn live_orders_are_submitted_one_after_the_other() {
    let mut bench = Bench::new(true, 5);
    bench.open();
    let up = match bench.tick(200, d(50, 2)) {
        Action::Submit(order) => order,
        other => panic!("{:?}", other),
    };
    assert_eq!(up.token_id, "sim-up-1700000100");
    assert_eq!(bench.strategy.order_manager().open_order_count(), 0);
    let down = match bench.step(Event::Submitted(true)) {
        Action::Submit(order) => order,
        other => panic!("{:?}", other),
    };
    assert_eq!(down.token_id, "sim-down-1700000100");
    assert_eq!(bench.strategy.order_manager().open_orders_per_side(), (1, 0));
    assert!(matches!(bench.step(Event::Submitted(false)), Action::ReadClock));
    assert_eq!(bench.strategy.order_manager().open_orders_per_side(), (1, 0));
    assert_eq!(bench.strategy.risk_manager().market_exposure(), d(24, 1));
    // The Up order is still open, so that only Down is tried again.
    match bench.tick(198, d(50, 2)) {
        Action::Submit(order) => assert_eq!(order.token_id, "sim-down-1700000100"),
        other => panic!("{:?}", other),
    }
    assert!(matches!(bench.step(Event::Submitted(true)), Action::ReadClock));
    assert_eq!(bench.strategy.order_manager().open_orders_per_side(), (1, 1));
    // At the end the cancellation of both is submitted before the window is over.
    assert!(matches!(bench.step(Event::Remaining(30)), Action::ReadClock));
    assert!(matches!(bench.finish(d(50, 2)), Action::CancelAll));
    assert_eq!(bench.strategy.order_manager().open_order_count(), 0);
    match bench.step(Event::Done) {
        Action::Finish(Some(summary)) => assert_eq!(summary.cancelled, 2),
        other => panic!("{:?}", other),
    }
}

#[test]
fn events_have_to_fit_the_phase() {
    let mut bench = Bench::new(false, 5);
    for event in [Event::Done, Event::Remaining(5), Event::Submitted(true), price(1)] {
        assert_eq!(bench.try_step(event).unwrap_err(), WindowError::UnexpectedEvent);
        assert!(matches!(bench.run.phase(), Phase::Start));
    }
    bench.open();
    assert_eq!(bench.try_step(Event::Started(0)).unwrap_err(), WindowError::UnexpectedEvent);
    assert!(matches!(bench.run.phase(), Phase::Clock));
}

#[test]
fn numbers_that_do_not_fit_stop_the_run() {
    let mut bench = Bench::new(false, 5);
    bench.open();
    bench.step(Event::Remaining(200));
    bench.step(Event::Done);
    bench.step(price(97000));
    bench.step(Event::Estimate(None));
    let huge = Decimal::from_parts(-0xffff_ffff_ffff_ffff_ffff_ffff, 0).unwrap();
    let result = bench.try_step(Event::Model(ModelPrice::Probability(huge)));
    assert_eq!(result.unwrap_err(), WindowError::Arithmetic);
}

#[test]
fn steps_find_their_own_ids_and_time() {
    let mut bench = Bench::new(false, 5);
    bench.open();
    bench.step(Event::Remaining(200));
    bench.step(Event::Done);
    bench.step(price(97000));
    bench.step(Event::Estimate(None));
    let model = Event::Model(ModelPrice::Probability(d(50, 2)));
    let action = bench.run.step(&mut bench.strategy, model, &bench.market, &bench.books).unwrap();
    assert!(matches!(action, Action::ReadClock));
    let orders = bench.strategy.order_manager().all_orders();
    assert_eq!(orders.len(), 2);
    assert_ne!(orders[0].id, orders[1].id);
    assert!(orders[0].created_at > 1_700_000_000_000);
}

#[test]
fn a_halted_run_goes_to_its_end_without_orders() {
    let mut bench = Bench::new(false, 5);
    let mut risk = RiskManager::new(d(215, 0), d(10, 2), d(15, 2), 5, d(50, 0), 10).unwrap();
    risk.halt("enough");
    let config = Config::from_args(
        &CliArgs::default(),
        Credentials {
            polymarket_api_key: None,
            polymarket_api_secret: None,
            polymarket_passphrase: None,
            polygon_private_key: None,
        },
    );
    bench.strategy =
        MergeStrategy::new(config, OrderManager::new(true, ""), MergeEngine::new(true), risk);
    bench.open();
    assert!(matches!(bench.tick(200, d(50, 2)), Action::ReadClock));
    assert!(matches!(bench.run.phase(), Phase::LastClock));
    assert!(matches!(bench.finish(d(50, 2)), Action::Finish(Some(_))));
    assert!(bench.strategy.order_manager().all_orders().is_empty());
    assert!(bench.strategy.risk_manager().is_halted());
}

#[test]
fn the_rest_of_the_entry_delay_passes_before_the_opening() {
    for (elapsed, millis) in [(0, 90_000), (89, 1000)] {
        let mut bench = Bench::new(true, 5);
        match bench.step(Event::Started(elapsed)) {
            Action::Sleep(pause) => assert_eq!(pause, millis),
            other => panic!("{:?}", other),
        }
        assert!(matches!(bench.step(Event::Done), Action::ReadPrice));
        assert!(bench.strategy.order_manager().all_orders().is_empty());
    }
    let mut late = Bench::new(true, 5);
    assert!(matches!(late.step(Event::Started(90)), Action::ReadPrice));
}
