//! BTC price feed.

use vstd::prelude::*;
use crate::clock::{now_millis, time_from_millis};
use crate::clock::is_time;
use crate::decimal::{ArithmeticError, Decimal};
use crate::decimal::{dec, decimal_of_text, from_pair};
use crate::types::{PriceSource, PriceTick};

verus! {

/// What a message of the trade stream says.
#[derive(Debug)]
pub struct TradeMessage {
    /// Price of the trade, as text
    pub price: String,
    /// Time of the trade (Unix milliseconds)
    pub trade_time: u64,
}

/// A price that is no decimal number.
#[derive(Debug, Clone, Copy, PartialEq, Eq, Structural)]
pub struct PriceError;

/// The state of the BTC price feed.
pub struct BinanceFeed {
    /// Latest BTC price
    price: Option<PriceTick>,
    /// WebSocket URL
    ws_url: String,
}

/// The latest price of a feed, and its URL.
pub ghost struct FeedState {
    pub price: Option<PriceTick>,
    pub ws_url: Seq<char>,
}

impl View for BinanceFeed {
    type V = FeedState;

    closed spec fn view(&self) -> FeedState {
        FeedState { price: self.price, ws_url: self.ws_url@ }
    }
}

/// The tick of a trade. A time that is out of range is replaced by the current one.
pub open spec fn trade_tick(price: Decimal, trade_time: u64, now: i64) -> PriceTick {
    PriceTick {
        price,
        timestamp: if is_time(trade_time as i64) {
            trade_time as i64
        } else {
            now
        },
        source: PriceSource::Binance,
    }
}

impl BinanceFeed {
    /// A feed without a price.
    pub fn new(ws_url: &str) -> (r: BinanceFeed)
        ensures
            r@ == (FeedState { price: None, ws_url: ws_url@ }),
    {
        BinanceFeed { price: None, ws_url: ws_url.to_string() }
    }

    /// The WebSocket URL.
    pub fn ws_url(&self) -> (r: &str)
        ensures
            r@ == self@.ws_url,
    {
        self.ws_url.as_str()
    }

    /// The current BTC price.
    pub fn current_price(&self) -> (r: Option<PriceTick>)
        ensures
            r == self@.price,
    {
        self.price
    }

    /// Records the price of a trade, at a given time. Returns the tick.
    pub fn record_trade(&mut self, price: Decimal, trade_time: u64, now: i64) -> (r: PriceTick)
        ensures
            r == trade_tick(price, trade_time, now),
            final(self)@ == (FeedState { price: Some(r), ..old(self)@ }),
    {
        let timestamp: i64 = match time_from_millis(trade_time as i64) {
            Some(time) => time,
            None => now,
        };
        let tick = PriceTick { price, timestamp, source: PriceSource::Binance };
        self.price = Some(tick);
        tick
    }

    /// Takes a message of the trade stream. Returns the tick.
    pub fn handle_message(&mut self, trade: &TradeMessage) -> (r: Result<PriceTick, PriceError>)
        ensures
            match from_pair(decimal_of_text(trade.price@)) {
                Some(price) => exists|now: i64|
                    {
                        let tick = #[trigger] trade_tick(price, trade.trade_time, now);
                        r == Ok::<PriceTick, PriceError>(tick) && final(self)@ == (FeedState {
                            price: Some(tick),
                            ..old(self)@
                        })
                    },
                None => r == Err::<PriceTick, PriceError>(PriceError) && final(self)@ == old(self)@,
            },
    {
        match Decimal::parse(trade.price.as_str()) {
            Some(price) => {
                let now: i64 = now_millis();
                Ok(self.record_trade(price, trade.trade_time, now))
            },
            None => Err(PriceError),
        }
    }
}

/// The state of the simulated BTC price feed.
pub struct SimulatedBinanceFeed {
    price: Option<PriceTick>,
    initial_price: Decimal,
}

/// The latest price of a simulated feed, and its initial price.
pub ghost struct SimulationState {
    pub price: Option<PriceTick>,
    pub initial_price: Decimal,
}

impl View for SimulatedBinanceFeed {
    type V = SimulationState;

    closed spec fn view(&self) -> SimulationState {
        SimulationState { price: self.price, initial_price: self.initial_price }
    }
}

/// The simulated price for a deviation from the initial price. Without one it is the initial price.
pub open spec fn simulated_price(initial_price: Decimal, deviation: Option<Decimal>) -> Option<
    Decimal,
> {
    initial_price.plus(
        match deviation {
            Some(delta) => delta,
            None => dec(0, 0),
        },
    )
}

impl SimulatedBinanceFeed {
    /// A feed without a price.
    pub fn new(initial_price: Decimal) -> (r: SimulatedBinanceFeed)
        ensures
            r@ == (SimulationState { price: None, initial_price }),
    {
        SimulatedBinanceFeed { price: None, initial_price }
    }

    /// The current simulated price.
    pub fn current_price(&self) -> (r: Option<PriceTick>)
        ensures
            r == self@.price,
    {
        self.price
    }

    /// Moves to a deviation from the initial price. Returns the tick, which has the current time.
    pub fn advance(&mut self, deviation: Option<Decimal>) -> (r: Result<PriceTick, ArithmeticError>)
        ensures
            match simulated_price(old(self)@.initial_price, deviation) {
                Some(price) => r is Ok && r->Ok_0.price == price && r->Ok_0.source
                    == PriceSource::Simulated && final(self)@ == (SimulationState {
                    price: Some(r->Ok_0),
                    ..old(self)@
                }),
                None => r is Err && final(self)@ == old(self)@,
            },
    {
        let now: i64 = now_millis();
        self.advance_at(deviation, now)
    }

    /// Moves to a deviation from the initial price, at a given time. Returns the tick.
    pub fn advance_at(&mut self, deviation: Option<Decimal>, now: i64) -> (r: Result<
        PriceTick,
        ArithmeticError,
    >)
        ensures
            match simulated_price(old(self)@.initial_price, deviation) {
                Some(price) => {
                    let tick = PriceTick {
                        price,
                        timestamp: now,
                        source: PriceSource::Simulated,
                    };
                    r == Ok::<PriceTick, ArithmeticError>(tick) && final(self)@ == (
                    SimulationState { price: Some(tick), ..old(self)@ })
                },
                None => r is Err && final(self)@ == old(self)@,
            },
    {
        let delta = match deviation {
            Some(delta) => delta,
            None => Decimal::new(0, 0),
        };
        let price = self.initial_price.checked_add(delta)?;
        let tick = PriceTick { price, timestamp: now, source: PriceSource::Simulated };
        self.price = Some(tick);
        Ok(tick)
    }
}

} // verus!
