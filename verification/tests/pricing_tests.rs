use merge_bot::decimal::Decimal;
use merge_bot::pricing::{kelly_fraction, optimal_bid_price};
use merge_bot::pricing::{BinaryPricer, ModelPrice, VolatilityEstimator};
use merge_bot::types::{PriceSource, PriceTick};

fn d(num: i64, scale: u32) -> Decimal {
    Decimal::new(num, scale)
}

#[test]
fn test_fair_value_at_expiry() {
    let pricer = BinaryPricer::new();
    let fv_itm = pricer.fair_value_up(d(97001, 0), d(97000, 0), d(50, 2), 0, ModelPrice::Undefined);
    assert_eq!(fv_itm, d(1, 0));

    let fv_otm = pricer.fair_value_up(d(96999, 0), d(97000, 0), d(50, 2), 0, ModelPrice::Undefined);
    assert_eq!(fv_otm, d(0, 0));
}

#[test]
fn test_kelly() {
    let f = kelly_fraction(d(645, 3), d(58, 2)).unwrap();
    assert!(f > d(3, 2) && f < d(5, 2), "Kelly fraction: {:?}", f);
}

#[test]
fn fair_value_at_the_strike_is_a_half() {
    let pricer = BinaryPricer::new();
    let price = d(97000, 0);
    assert_eq!(pricer.fair_value_up(price, price, d(50, 2), 0, ModelPrice::Undefined), d(5, 1));
    assert_eq!(pricer.fair_value_up(price, d(0, 0), d(50, 2), 60, ModelPrice::Expired), d(5, 1));
    assert_eq!(pricer.fair_value_up(price, price, d(0, 0), 60, ModelPrice::Expired), d(5, 1));
}

#[test]
fn fair_value_follows_the_model() {
    let pricer = BinaryPricer::new();
    let (spot, strike, sigma) = (d(97200, 0), d(97000, 0), d(50, 2));
    let p = ModelPrice::Probability(d(6789, 4));
    assert_eq!(pricer.fair_value_up(spot, strike, sigma, 150, p), d(6789, 4));
    assert_eq!(pricer.fair_value_down(spot, strike, sigma, 150, p).unwrap(), d(3211, 4));
    assert_eq!(pricer.fair_value_up(spot, strike, sigma, 150, ModelPrice::Undefined), d(5, 1));
    assert_eq!(pricer.fair_value_up(spot, strike, sigma, 150, ModelPrice::Expired), d(1, 0));
}

#[test]
fn the_model_is_needed_between_opening_and_expiry() {
    let pricer = BinaryPricer::new();
    assert!(pricer.needs_model(d(97000, 0), d(50, 2), 1));
    assert!(!pricer.needs_model(d(97000, 0), d(50, 2), 0));
    assert!(!pricer.needs_model(d(0, 1), d(50, 2), 1));
    assert!(!pricer.needs_model(d(97000, 0), d(0, 2), 1));
}

#[test]
fn kelly_is_exact_and_never_negative() {
    // 0.25 * (0.75 - 0.5) / (1 - 0.5)
    assert_eq!(kelly_fraction(d(75, 2), d(5, 1)).unwrap(), d(125, 3));
    assert_eq!(kelly_fraction(d(5, 1), d(5, 1)).unwrap(), d(0, 0));
    assert_eq!(kelly_fraction(d(4, 1), d(5, 1)).unwrap(), d(0, 0));
    assert_eq!(kelly_fraction(d(12, 1), d(11, 1)).unwrap(), d(0, 0));
}

#[test]
fn optimal_bids_are_between_one_and_99_cents() {
    assert_eq!(optimal_bid_price(d(50, 2), d(3, 2)).unwrap(), d(47, 2));
    assert_eq!(optimal_bid_price(d(99, 2), d(3, 2)).unwrap(), d(1, 2));
    assert_eq!(optimal_bid_price(d(-50, 2), d(3, 2)).unwrap(), d(99, 2));
}

#[test]
fn kelly_of_numbers_that_do_not_fit_is_an_error() {
    let huge = Decimal::from_parts(0xffff_ffff_ffff_ffff_ffff_ffff, 0).unwrap();
    assert!(kelly_fraction(huge, huge.opposite()).is_err());
}

#[test]
fn prices_are_sampled_once_a_minute() {
    let mut estimator = VolatilityEstimator::new(3);
    estimator.add_price(1000, d(97000, 0));
    estimator.add_price(1059, d(97001, 0));
    estimator.add_price(1060, d(97002, 0));
    estimator.add_price(900, d(97003, 0));
    assert_eq!(estimator.prices(), vec![d(97000, 0), d(97002, 0)]);
    estimator.add_price(1120, d(97004, 0));
    estimator.add_price(1180, d(97005, 0));
    assert_eq!(estimator.prices(), vec![d(97002, 0), d(97004, 0), d(97005, 0)]);
}

#[test]
fn ticks_are_sampled_by_their_second() {
    let mut estimator = VolatilityEstimator::new(10);
    let tick = |timestamp: i64, price: i64| PriceTick {
        price: d(price, 0),
        timestamp,
        source: PriceSource::Binance,
    };
    estimator.add_price_from_tick(&tick(60_999, 1));
    estimator.add_price_from_tick(&tick(119_999, 2));
    estimator.add_price_from_tick(&tick(120_000, 3));
    assert_eq!(estimator.prices(), vec![d(1, 0), d(3, 0)]);
}

#[test]
fn volatility_needs_ten_samples() {
    let mut estimator = VolatilityEstimator::new(20);
    for i in 0..9 {
        estimator.add_price(60 * i, d(97000, 0));
    }
    assert_eq!(estimator.annualized_volatility(Some(d(6, 1))), None);
    estimator.add_price(540, d(97000, 0));
    assert_eq!(estimator.annualized_volatility(Some(d(6, 1))), Some(d(6, 1)));
    assert_eq!(estimator.annualized_volatility(None), None);
    assert_eq!(VolatilityEstimator::default_volatility(), d(45, 2));
}

#[test]
fn the_kelly_fraction_is_a_quarter_at_most() {
    for p in 0..101 {
        for c in 0..101 {
            let f = kelly_fraction(d(p, 2), d(c, 2)).unwrap();
            assert!(d(0, 0) <= f && f <= d(25, 2));
        }
    }
    assert_eq!(kelly_fraction(d(1, 0), d(1, 28)).unwrap(), d(25, 2));
}
