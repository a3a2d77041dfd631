//! Command line arguments and configuration.

use vstd::prelude::*;
use crate::decimal::Decimal;
use crate::decimal::dec;

verus! {

/// The command line arguments.
#[derive(Debug)]
pub struct CliArgs {
    /// Run in dry-run mode (paper trading, no real transactions)
    pub dry_run: bool,
    /// Run in live mode (real transactions)
    pub live: bool,
    /// Initial capital in dollars, if the argument was a number that a decimal holds
    pub capital: Option<Decimal>,
    /// Log level (trace, debug, info, warn, error)
    pub log_level: String,
    /// Number of market windows to trade (0 = unlimited)
    pub max_windows: u64,
    /// Target edge per merge pair, if the argument was a number that a decimal holds
    pub target_edge: Option<Decimal>,
    /// Shares per order
    pub shares_per_order: u64,
    /// Output JSON logs
    pub json_logs: bool,
    /// Directory to write per-window log files
    pub log_dir: String,
    /// Entry delay in seconds (wait after the market opens before trading)
    pub entry_delay: u64,
    /// Exit buffer in seconds (stop trading this many seconds before the window closes)
    pub exit_buffer: u64,
    /// Simulation speed multiplier (dry-run only)
    pub sim_speed: u64,
}

impl Default for CliArgs {
    /// The arguments of a command line without any: a dry run with 215 dollars, a target edge of
    /// three cents and 20 shares per order, without an end.
    fn default() -> (r: CliArgs)
        ensures
            r.dry_run,
            !r.live,
            r.capital == Some(dec(215, 0)),
            r.log_level@ == "info"@,
            r.max_windows == 0,
            r.target_edge == Some(dec(3, 2)),
            r.shares_per_order == 20,
            !r.json_logs,
            r.log_dir@ == ""@,
            r.entry_delay == 90,
            r.exit_buffer == 30,
            r.sim_speed == 1,
    {
        CliArgs {
            dry_run: true,
            live: false,
            capital: Some(Decimal::new(215, 0)),
            log_level: "info".to_string(),
            max_windows: 0,
            target_edge: Some(Decimal::new(3, 2)),
            shares_per_order: 20,
            json_logs: false,
            log_dir: "".to_string(),
            entry_delay: 90,
            exit_buffer: 30,
            sim_speed: 1,
        }
    }
}

/// API credentials, as far as the environment has them.
#[derive(Debug)]
pub struct Credentials {
    pub polymarket_api_key: Option<String>,
    pub polymarket_api_secret: Option<String>,
    pub polymarket_passphrase: Option<String>,
    pub polygon_private_key: Option<String>,
}

/// Full configuration, derived from the arguments and the credentials.
#[derive(Debug)]
pub struct Config {
    /// Whether orders are simulated
    pub dry_run: bool,
    /// Initial capital in dollars
    pub initial_capital: Decimal,
    /// Largest order as fraction of the capital
    pub max_position_pct: Decimal,
    /// Target edge per pair (how far below a dollar the combined cost should be)
    pub target_edge: Decimal,
    /// Shares per individual order
    pub shares_per_order: Decimal,
    /// Minimum order size
    pub min_order_shares: Decimal,
    /// Delay after the window opens before starting (seconds)
    pub entry_delay_secs: u64,
    /// Stop trading this many seconds before the window closes
    pub exit_buffer_secs: u64,
    /// Interval between order placement attempts (milliseconds)
    pub order_interval: u64,
    /// Most to pay for any single side
    pub max_side_price: Decimal,
    /// Least to pay for any single side
    pub min_side_price: Decimal,
    /// How many shares one side may be ahead of the other
    pub max_side_imbalance: Decimal,
    /// Loss of the day that stops trading, as fraction of the capital
    pub daily_stop_loss_pct: Decimal,
    /// Losses in a row that stop trading
    pub consecutive_loss_limit: u32,
    /// Most open orders at a time
    pub max_open_orders: usize,
    /// Most exposure per market window in dollars
    pub max_exposure_per_market: Decimal,
    pub polymarket_api_key: Option<String>,
    pub polymarket_api_secret: Option<String>,
    pub polymarket_passphrase: Option<String>,
    pub polygon_private_key: Option<String>,
    pub clob_url: String,
    pub gamma_url: String,
    pub clob_ws_url: String,
    pub binance_ws_url: String,
    /// Number of market windows to trade (0 = unlimited)
    pub max_windows: u64,
    pub json_logs: bool,
    /// Simulation speed multiplier
    pub sim_speed: u64,
    /// Effective window duration in seconds
    pub window_secs: u64,
    /// Directory of the per-window log files
    pub log_dir: Option<String>,
}

/// What live trading lacks.
#[derive(Debug, Clone, Copy, PartialEq, Eq, Structural)]
pub enum ConfigError {
    ApiKey,
    ApiSecret,
    Passphrase,
    PrivateKey,
}

impl ConfigError {
    /// The message of the error.
    pub open spec fn chars(self) -> Seq<char> {
        match self {
            ConfigError::ApiKey => "POLYMARKET_API_KEY required for live trading"@,
            ConfigError::ApiSecret => "POLYMARKET_API_SECRET required for live trading"@,
            ConfigError::Passphrase => "POLYMARKET_PASSPHRASE required for live trading"@,
            ConfigError::PrivateKey => "POLYGON_PRIVATE_KEY required for live trading"@,
        }
    }

    /// The message of the error.
    pub fn text(&self) -> (r: String)
        ensures
            r@ == self.chars(),
    {
        match self {
            ConfigError::ApiKey => "POLYMARKET_API_KEY required for live trading".to_string(),
            ConfigError::ApiSecret => "POLYMARKET_API_SECRET required for live trading".to_string(),
            ConfigError::Passphrase => "POLYMARKET_PASSPHRASE required for live trading".to_string(),
            ConfigError::PrivateKey => "POLYGON_PRIVATE_KEY required for live trading".to_string(),
        }
    }
}

/// The larger of two numbers.
pub open spec fn at_least(n: u64, least: u64) -> u64 {
    if n < least {
        least
    } else {
        n
    }
}

impl CliArgs {
    /// The simulation speed that is used: one at least.
    pub open spec fn speed(self) -> u64 {
        at_least(self.sim_speed, 1)
    }
}

impl Config {
    /// The first credential that live trading lacks.
    pub open spec fn lacks(self) -> Option<ConfigError> {
        if self.dry_run {
            None
        } else if self.polymarket_api_key is None {
            Some(ConfigError::ApiKey)
        } else if self.polymarket_api_secret is None {
            Some(ConfigError::ApiSecret)
        } else if self.polymarket_passphrase is None {
            Some(ConfigError::Passphrase)
        } else if self.polygon_private_key is None {
            Some(ConfigError::PrivateKey)
        } else {
            None
        }
    }

    /// The configuration for given arguments and credentials. Trading is simulated unless live
    /// mode is asked for.
    pub fn from_args(args: &CliArgs, credentials: Credentials) -> (r: Config)
        ensures
            r.dry_run == !args.live,
            r.initial_capital == match args.capital {
                Some(capital) => capital,
                None => dec(2150, 1),
            },
            r.max_position_pct == dec(10, 2),
            r.target_edge == match args.target_edge {
                Some(edge) => edge,
                None => dec(3, 2),
            },
            r.shares_per_order == dec(args.shares_per_order as int, 0),
            r.min_order_shares == dec(5, 0),
            r.entry_delay_secs == args.entry_delay / args.speed(),
            r.exit_buffer_secs == at_least(args.exit_buffer / args.speed(), 1),
            r.order_interval == at_least(2000u64 / args.speed(), 200),
            r.max_side_price == dec(48, 2),
            r.min_side_price == dec(1, 2),
            r.max_side_imbalance == dec(5, 0),
            r.daily_stop_loss_pct == dec(15, 2),
            r.consecutive_loss_limit == 5,
            r.max_open_orders == 10,
            r.max_exposure_per_market == dec(500, 1),
            r.polymarket_api_key == credentials.polymarket_api_key,
            r.polymarket_api_secret == credentials.polymarket_api_secret,
            r.polymarket_passphrase == credentials.polymarket_passphrase,
            r.polygon_private_key == credentials.polygon_private_key,
            r.clob_url@ == "https://clob.polymarket.com"@,
            r.gamma_url@ == "https://gamma-api.polymarket.com"@,
            r.clob_ws_url@ == "wss://ws-subscriptions-clob.polymarket.com/ws/market"@,
            r.binance_ws_url@ == "wss://stream.binance.com:9443/ws/btcusdt@trade"@,
            r.max_windows == args.max_windows,
            r.json_logs == args.json_logs,
            r.sim_speed == args.speed(),
            r.window_secs == 300u64 / args.speed(),
            match r.log_dir {
                Some(dir) => args.log_dir@.len() > 0 && dir@ == args.log_dir@,
                None => args.log_dir@.len() == 0,
            },
            // Trading always stops before the window closes, and orders are at least a fifth of a
            // second and at most two seconds apart.
            1 <= r.exit_buffer_secs,
            200 <= r.order_interval <= 2000,
            r.window_secs <= 300,
    {
        let sim_speed: u64 = if args.sim_speed < 1 {
            1
        } else {
            args.sim_speed
        };
        let exit_buffer: u64 = args.exit_buffer / sim_speed;
        let interval: u64 = 2000 / sim_speed;
        assert(2000u64 / sim_speed <= 2000 && 300u64 / sim_speed <= 300) by (nonlinear_arith)
            requires
                sim_speed >= 1,
        ;
        Config {
            dry_run: !args.live,
            initial_capital: match args.capital {
                Some(capital) => capital,
                None => Decimal::new(2150, 1),
            },
            max_position_pct: Decimal::new(10, 2),
            target_edge: match args.target_edge {
                Some(edge) => edge,
                None => Decimal::new(3, 2),
            },
            shares_per_order: Decimal::from_count(args.shares_per_order),
            min_order_shares: Decimal::new(5, 0),
            entry_delay_secs: args.entry_delay / sim_speed,
            exit_buffer_secs: if exit_buffer < 1 {
                1
            } else {
                exit_buffer
            },
            order_interval: if interval < 200 {
                200
            } else {
                interval
            },
            max_side_price: Decimal::new(48, 2),
            min_side_price: Decimal::new(1, 2),
            max_side_imbalance: Decimal::new(5, 0),
            daily_stop_loss_pct: Decimal::new(15, 2),
            consecutive_loss_limit: 5,
            max_open_orders: 10,
            max_exposure_per_market: Decimal::new(500, 1),
            polymarket_api_key: credentials.polymarket_api_key,
            polymarket_api_secret: credentials.polymarket_api_secret,
            polymarket_passphrase: credentials.polymarket_passphrase,
            polygon_private_key: credentials.polygon_private_key,
            clob_url: "https://clob.polymarket.com".to_string(),
            gamma_url: "https://gamma-api.polymarket.com".to_string(),
            clob_ws_url: "wss://ws-subscriptions-clob.polymarket.com/ws/market".to_string(),
            binance_ws_url: "wss://stream.binance.com:9443/ws/btcusdt@trade".to_string(),
            max_windows: args.max_windows,
            json_logs: args.json_logs,
            sim_speed,
            window_secs: 300 / sim_speed,
            log_dir: if args.log_dir.as_str().is_empty() {
                None
            } else {
                Some(args.log_dir.clone())
            },
        }
    }

    /// Checks that live mode has all credentials that it needs.
    pub fn validate_live_mode(&self) -> (r: Result<(), ConfigError>)
        ensures
            match self.lacks() {
                Some(error) => r == Err::<(), ConfigError>(error),
                None => r is Ok,
            },
    {
        if !self.dry_run {
            if self.polymarket_api_key.is_none() {
                return Err(ConfigError::ApiKey);
            }
            if self.polymarket_api_secret.is_none() {
                return Err(ConfigError::ApiSecret);
            }
            if self.polymarket_passphrase.is_none() {
                return Err(ConfigError::Passphrase);
            }
            if self.polygon_private_key.is_none() {
                return Err(ConfigError::PrivateKey);
            }
        }
        Ok(())
    }
}

/// Dry-run mode needs no credentials, and live mode needs all four.
pub proof fn live_mode_needs_every_credential(config: Config)
    ensures
        config.lacks() is None <==> config.dry_run || config.polymarket_api_key is Some
            && config.polymarket_api_secret is Some && config.polymarket_passphrase is Some
            && config.polygon_private_key is Some,
{
}

} // verus!
