use merge_bot::config::{CliArgs, Config, ConfigError, Credentials};
use merge_bot::decimal::Decimal;

fn d(num: i64, scale: u32) -> Decimal {
    Decimal::new(num, scale)
}

fn arguments(live: bool, sim_speed: u64) -> CliArgs {
    CliArgs {
        dry_run: true,
        live,
        capital: Some(d(500, 0)),
        log_level: "info".to_string(),
        max_windows: 3,
        target_edge: None,
        shares_per_order: 20,
        json_logs: true,
        log_dir: "logs".to_string(),
        entry_delay: 90,
        exit_buffer: 30,
        sim_speed,
    }
}

fn credentials(count: usize) -> Credentials {
    let nth = |n: usize| if count > n { Some(format!("secret {}", n)) } else { None };
    Credentials {
        polymarket_api_key: nth(0),
        polymarket_api_secret: nth(1),
        polymarket_passphrase: nth(2),
        polygon_private_key: nth(3),
    }
}

#[test]
fn the_configuration_follows_the_arguments() {
    let config = Config::from_args(&arguments(false, 1), credentials(1));
    assert!(config.dry_run);
    assert_eq!(config.initial_capital, d(500, 0));
    assert_eq!(config.target_edge, d(3, 2));
    assert_eq!(config.shares_per_order, d(20, 0));
    assert_eq!(config.min_order_shares, d(5, 0));
    assert_eq!(config.entry_delay_secs, 90);
    assert_eq!(config.exit_buffer_secs, 30);
    assert_eq!(config.order_interval, 2000);
    assert_eq!(config.max_position_pct, d(10, 2));
    assert_eq!(config.daily_stop_loss_pct, d(15, 2));
    assert_eq!(config.consecutive_loss_limit, 5);
    assert_eq!(config.max_open_orders, 10);
    assert_eq!(config.max_exposure_per_market, d(50, 0));
    assert_eq!(config.max_side_price, d(48, 2));
    assert_eq!(config.min_side_price, d(1, 2));
    assert_eq!(config.max_side_imbalance, d(5, 0));
    assert_eq!(config.window_secs, 300);
    assert_eq!(config.sim_speed, 1);
    assert_eq!(config.max_windows, 3);
    assert!(config.json_logs);
    assert_eq!(config.log_dir, Some("logs".to_string()));
    assert_eq!(config.polymarket_api_key, Some("secret 0".to_string()));
    assert_eq!(config.polymarket_api_secret, None);
    assert_eq!(config.clob_url, "https://clob.polymarket.com");
    assert_eq!(config.gamma_url, "https://gamma-api.polymarket.com");
    assert_eq!(config.clob_ws_url, "wss://ws-subscriptions-clob.polymarket.com/ws/market");
    assert_eq!(config.binance_ws_url, "wss://stream.binance.com:9443/ws/btcusdt@trade");
}

#[test]
fn simulation_is_faster_within_bounds() {
    let config = Config::from_args(&arguments(false, 10), credentials(0));
    assert_eq!(config.entry_delay_secs, 9);
    assert_eq!(config.exit_buffer_secs, 3);
    assert_eq!(config.order_interval, 200);
    assert_eq!(config.window_secs, 30);
    let fast = Config::from_args(&arguments(false, 1000), credentials(0));
    assert_eq!(fast.exit_buffer_secs, 1);
    assert_eq!(fast.order_interval, 200);
    assert_eq!(fast.window_secs, 0);
    let none = Config::from_args(&arguments(false, 0), credentials(0));
    assert_eq!(none.sim_speed, 1);
    assert_eq!(none.order_interval, 2000);
}

#[test]
fn arguments_that_are_no_numbers_have_defaults() {
    let mut args = arguments(false, 1);
    args.capital = None;
    args.target_edge = Some(d(5, 2));
    args.log_dir = String::new();
    let config = Config::from_args(&args, credentials(0));
    assert_eq!(config.initial_capital, d(215, 0));
    assert_eq!(config.target_edge, d(5, 2));
    assert_eq!(config.log_dir, None);
}

#[test]
fn live_mode_needs_credentials() {
    let errors = [
        (ConfigError::ApiKey, "POLYMARKET_API_KEY required for live trading"),
        (ConfigError::ApiSecret, "POLYMARKET_API_SECRET required for live trading"),
        (ConfigError::Passphrase, "POLYMARKET_PASSPHRASE required for live trading"),
        (ConfigError::PrivateKey, "POLYGON_PRIVATE_KEY required for live trading"),
    ];
    for (count, (error, message)) in errors.iter().enumerate() {
        let live = Config::from_args(&arguments(true, 1), credentials(count));
        assert!(!live.dry_run);
        assert_eq!(live.validate_live_mode(), Err(*error));
        assert_eq!(error.text(), *message);
        let dry = Config::from_args(&arguments(false, 1), credentials(count));
        assert_eq!(dry.validate_live_mode(), Ok(()));
    }
    let live = Config::from_args(&arguments(true, 1), credentials(4));
    assert_eq!(live.validate_live_mode(), Ok(()));
}

#[test]
fn defaults_are_those_of_the_command_line() {
    let args = CliArgs::default();
    assert!(args.dry_run && !args.live && !args.json_logs);
    assert_eq!((args.capital, args.target_edge), (Some(d(215, 0)), Some(d(3, 2))));
    assert_eq!((args.shares_per_order, args.max_windows, args.sim_speed), (20, 0, 1));
    assert_eq!((args.entry_delay, args.exit_buffer), (90, 30));
    assert_eq!((args.log_level.as_str(), args.log_dir.as_str()), ("info", ""));
    let config = Config::from_args(&args, credentials(0));
    assert!(config.dry_run && config.log_dir.is_none());
    assert_eq!(config.initial_capital, d(215, 0));
}
