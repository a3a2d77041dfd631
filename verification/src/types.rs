//! Core types: sides, markets, order books, orders, positions and price ticks.

use vstd::prelude::*;
use crate::clock::now_millis;
use crate::decimal::{ArithmeticError, Decimal};
use crate::decimal::{dec, larger, quotient_of, smaller};

verus! {

/// Which side of the binary option.
#[derive(Debug, Clone, Copy, PartialEq, Eq, Hash, Structural)]
pub enum Side {
    Up,
    Down,
}

impl Side {
    /// The other side.
    pub open spec fn other(self) -> Side {
        match self {
            Side::Up => Side::Down,
            Side::Down => Side::Up,
        }
    }

    /// The name of the side.
    pub open spec fn chars(self) -> Seq<char> {
        match self {
            Side::Up => "UP"@,
            Side::Down => "DOWN"@,
        }
    }

    /// The other side.
    pub fn opposite(&self) -> (r: Side)
        ensures
            r == self.other(),
            r != *self,
    {
        match self {
            Side::Up => Side::Down,
            Side::Down => Side::Up,
        }
    }

    /// The name of the side.
    pub fn text(&self) -> (r: String)
        ensures
            r@ == self.chars(),
    {
        match self {
            Side::Up => "UP".to_string(),
            Side::Down => "DOWN".to_string(),
        }
    }
}

/// The opposite of the opposite side is the side itself.
pub proof fn opposite_is_an_involution(side: Side)
    ensures
        side.other().other() == side,
        side.other() != side,
{
}

/// A BTC five-minute binary market.
#[derive(Debug)]
pub struct Market {
    /// Condition ID of the market
    pub condition_id: String,
    /// Question or slug
    pub slug: String,
    /// Token ID for the Up outcome
    pub up_token_id: String,
    /// Token ID for the Down outcome
    pub down_token_id: String,
    /// Window start timestamp (Unix seconds)
    pub window_start: u64,
    /// Window end timestamp (Unix seconds)
    pub window_end: u64,
    /// BTC opening price for this window
    pub opening_price: Option<Decimal>,
    /// Whether the market is still active
    pub active: bool,
}

/// A market with its texts as character sequences.
pub ghost struct MarketState {
    pub condition_id: Seq<char>,
    pub slug: Seq<char>,
    pub up_token_id: Seq<char>,
    pub down_token_id: Seq<char>,
    pub window_start: u64,
    pub window_end: u64,
    pub opening_price: Option<Decimal>,
    pub active: bool,
}

impl View for Market {
    type V = MarketState;

    open spec fn view(&self) -> MarketState {
        MarketState {
            condition_id: self.condition_id@,
            slug: self.slug@,
            up_token_id: self.up_token_id@,
            down_token_id: self.down_token_id@,
            window_start: self.window_start,
            window_end: self.window_end,
            opening_price: self.opening_price,
            active: self.active,
        }
    }
}

impl Clone for Market {
    /// A copy of the market.
    fn clone(&self) -> (r: Market)
        ensures
            r@ == self@,
    {
        Market {
            condition_id: self.condition_id.clone(),
            slug: self.slug.clone(),
            up_token_id: self.up_token_id.clone(),
            down_token_id: self.down_token_id.clone(),
            window_start: self.window_start,
            window_end: self.window_end,
            opening_price: self.opening_price,
            active: self.active,
        }
    }
}

impl Market {
    /// The seconds that are left of the window at a given time.
    pub open spec fn remaining_at(self, now: u64) -> i64 {
        if now >= self.window_end {
            0
        } else {
            (self.window_end - now) as i64
        }
    }

    /// The seconds since the start of the window at a given time.
    pub open spec fn elapsed_at(self, now: u64) -> u64 {
        if now <= self.window_start {
            0
        } else {
            (now - self.window_start) as u64
        }
    }

    /// The seconds that are left of the window at a given time (Unix seconds).
    pub fn seconds_remaining_at(&self, now: u64) -> (r: i64)
        ensures
            r == self.remaining_at(now),
    {
        if now >= self.window_end {
            0
        } else {
            (self.window_end - now) as i64
        }
    }

    /// The seconds since the start of the window at a given time (Unix seconds).
    pub fn seconds_elapsed_at(&self, now: u64) -> (r: u64)
        ensures
            r == self.elapsed_at(now),
    {
        if now <= self.window_start {
            0
        } else {
            now - self.window_start
        }
    }

    /// Seconds remaining until the window closes.
    pub fn seconds_remaining(&self) -> (r: i64)
        ensures
            exists|now: u64| now <= i64::MAX && r == #[trigger] self.remaining_at(now),
    {
        let now: u64 = (now_millis() / 1000) as u64;
        self.seconds_remaining_at(now)
    }

    /// Seconds elapsed since the window opened.
    pub fn seconds_elapsed(&self) -> (r: u64)
        ensures
            exists|now: u64| now <= i64::MAX && r == #[trigger] self.elapsed_at(now),
    {
        let now: u64 = (now_millis() / 1000) as u64;
        self.seconds_elapsed_at(now)
    }

    /// The token ID of a side.
    pub open spec fn token_of(self, side: Side) -> Seq<char> {
        match side {
            Side::Up => self.up_token_id@,
            Side::Down => self.down_token_id@,
        }
    }

    /// The token ID of a side.
    pub fn token_id(&self, side: Side) -> (r: &str)
        ensures
            r@ == self.token_of(side),
    {
        match side {
            Side::Up => self.up_token_id.as_str(),
            Side::Down => self.down_token_id.as_str(),
        }
    }
}

/// An order book level (price and size).
#[derive(Debug, Clone, Copy)]
pub struct BookLevel {
    pub price: Decimal,
    pub size: Decimal,
}

/// The order book for one side of a market.
#[derive(Debug)]
pub struct OrderBook {
    pub bids: Vec<BookLevel>,
    pub asks: Vec<BookLevel>,
    /// When the book was read (Unix milliseconds)
    pub timestamp: Option<i64>,
}

/// The highest price of the levels, in the form in which the first of them has it.
pub open spec fn highest_price(levels: Seq<BookLevel>) -> Option<Decimal>
    decreases levels.len(),
{
    if levels.len() == 0 {
        None
    } else {
        match highest_price(levels.drop_last()) {
            Some(price) => Some(larger(price, levels.last().price)),
            None => Some(levels.last().price),
        }
    }
}

/// The lowest price of the levels, in the form in which the first of them has it.
pub open spec fn lowest_price(levels: Seq<BookLevel>) -> Option<Decimal>
    decreases levels.len(),
{
    if levels.len() == 0 {
        None
    } else {
        match lowest_price(levels.drop_last()) {
            Some(price) => Some(smaller(price, levels.last().price)),
            None => Some(levels.last().price),
        }
    }
}

/// The highest price is that of a level, and no level has a higher one. Levels without a highest
/// price are none.
pub proof fn no_price_is_higher(levels: Seq<BookLevel>)
    ensures
        highest_price(levels) is None <==> levels.len() == 0,
        highest_price(levels) matches Some(price) ==> {
            &&& exists|i: int| 0 <= i < levels.len() && (#[trigger] levels[i]).price == price
            &&& forall|i: int| 0 <= i < levels.len() ==> (#[trigger] levels[i]).price@ <= price@
        },
    decreases levels.len(),
{
    if levels.len() > 0 {
        let before = levels.drop_last();
        no_price_is_higher(before);
        assert forall|i: int| 0 <= i < levels.len() implies (#[trigger] levels[i]).price@
            <= highest_price(levels)->0@ by {
            if i < before.len() {
                assert(before[i] == levels[i]);
            }
        }
        if before.len() == 0 || highest_price(before)->0@ < levels.last().price@ {
            assert(levels[levels.len() - 1].price == highest_price(levels)->0);
        } else {
            let i = choose|i: int|
                0 <= i < before.len() && (#[trigger] before[i]).price == highest_price(before)->0;
            assert(levels[i].price == highest_price(levels)->0);
        }
    }
}

/// The lowest price is that of a level, and no level has a lower one. Levels without a lowest
/// price are none.
pub proof fn no_price_is_lower(levels: Seq<BookLevel>)
    ensures
        lowest_price(levels) is None <==> levels.len() == 0,
        lowest_price(levels) matches Some(price) ==> {
            &&& exists|i: int| 0 <= i < levels.len() && (#[trigger] levels[i]).price == price
            &&& forall|i: int| 0 <= i < levels.len() ==> price@ <= (#[trigger] levels[i]).price@
        },
    decreases levels.len(),
{
    if levels.len() > 0 {
        let before = levels.drop_last();
        no_price_is_lower(before);
        assert forall|i: int| 0 <= i < levels.len() implies lowest_price(levels)->0@ <= (
        #[trigger] levels[i]).price@ by {
            if i < before.len() {
                assert(before[i] == levels[i]);
            }
        }
        if before.len() == 0 || levels.last().price@ < lowest_price(before)->0@ {
            assert(levels[levels.len() - 1].price == lowest_price(levels)->0);
        } else {
            let i = choose|i: int|
                0 <= i < before.len() && (#[trigger] before[i]).price == lowest_price(before)->0;
            assert(levels[i].price == lowest_price(levels)->0);
        }
    }
}

impl OrderBook {
    /// The best bid: the highest.
    pub open spec fn bid(self) -> Option<Decimal> {
        highest_price(self.bids@)
    }

    /// The best ask: the lowest.
    pub open spec fn ask(self) -> Option<Decimal> {
        lowest_price(self.asks@)
    }

    /// The middle of the best bid and the best ask, or the one of them that there is. The outer
    /// `None` stands for a number that does not fit.
    pub open spec fn middle(self) -> Option<Option<Decimal>> {
        match (self.bid(), self.ask()) {
            (Some(bid), Some(ask)) => match quotient_of(bid.plus(ask), Some(dec(2, 0))) {
                Some(mid) => Some(Some(mid)),
                None => None,
            },
            (Some(bid), None) => Some(Some(bid)),
            (None, Some(ask)) => Some(Some(ask)),
            (None, None) => Some(None),
        }
    }

    /// The distance from the best bid to the best ask, where there are both. The outer `None`
    /// stands for a number that does not fit.
    pub open spec fn gap(self) -> Option<Option<Decimal>> {
        match (self.bid(), self.ask()) {
            (Some(bid), Some(ask)) => match ask.minus(bid) {
                Some(gap) => Some(Some(gap)),
                None => None,
            },
            _ => Some(None),
        }
    }

    /// Best bid price (highest buy order).
    pub fn best_bid(&self) -> (r: Option<Decimal>)
        ensures
            r == self.bid(),
            r is None <==> self.bids@.len() == 0,
            r matches Some(price) ==> forall|i: int|
                0 <= i < self.bids@.len() ==> (#[trigger] self.bids@[i]).price@ <= price@,
    {
        let mut best: Option<Decimal> = None;
        let mut i: usize = 0;
        while i < self.bids.len()
            invariant
                i <= self.bids.len(),
                best == highest_price(self.bids@.take(i as int)),
            decreases self.bids.len() - i,
        {
            assert(self.bids@.take(i + 1).drop_last() =~= self.bids@.take(i as int));
            let price = self.bids[i].price;
            best = match best {
                Some(other) => Some(other.max(price)),
                None => Some(price),
            };
            i = i + 1;
        }
        proof {
            assert(self.bids@.take(i as int) =~= self.bids@);
            no_price_is_higher(self.bids@);
        }
        best
    }

    /// Best ask price (lowest sell order).
    pub fn best_ask(&self) -> (r: Option<Decimal>)
        ensures
            r == self.ask(),
            r is None <==> self.asks@.len() == 0,
            r matches Some(price) ==> forall|i: int|
                0 <= i < self.asks@.len() ==> price@ <= (#[trigger] self.asks@[i]).price@,
    {
        let mut best: Option<Decimal> = None;
        let mut i: usize = 0;
        while i < self.asks.len()
            invariant
                i <= self.asks.len(),
                best == lowest_price(self.asks@.take(i as int)),
            decreases self.asks.len() - i,
        {
            assert(self.asks@.take(i + 1).drop_last() =~= self.asks@.take(i as int));
            let price = self.asks[i].price;
            best = match best {
                Some(other) => Some(other.min(price)),
                None => Some(price),
            };
            i = i + 1;
        }
        proof {
            assert(self.asks@.take(i as int) =~= self.asks@);
            no_price_is_lower(self.asks@);
        }
        best
    }

    /// Midpoint price.
    pub fn midpoint(&self) -> (r: Result<Option<Decimal>, ArithmeticError>)
        ensures
            r.ok() == self.middle(),
    {
        match (self.best_bid(), self.best_ask()) {
            (Some(bid), Some(ask)) => {
                let total = bid.checked_add(ask)?;
                let mid = total.checked_div(Decimal::new(2, 0))?;
                Ok(Some(mid))
            },
            (Some(bid), None) => Ok(Some(bid)),
            (None, Some(ask)) => Ok(Some(ask)),
            (None, None) => Ok(None),
        }
    }

    /// Spread in absolute terms.
    pub fn spread(&self) -> (r: Result<Option<Decimal>, ArithmeticError>)
        ensures
            r.ok() == self.gap(),
            r matches Ok(Some(gap)) ==> (0real <= gap@ <==> self.bid()->0@ <= self.ask()->0@),
    {
        match (self.best_bid(), self.best_ask()) {
            (Some(bid), Some(ask)) => {
                let gap = ask.checked_sub(bid)?;
                Ok(Some(gap))
            },
            _ => Ok(None),
        }
    }
}

impl Default for OrderBook {
    /// A book without levels.
    fn default() -> (r: OrderBook)
        ensures
            r.bids@ == Seq::<BookLevel>::empty(),
            r.asks@ == Seq::<BookLevel>::empty(),
            r.timestamp is None,
    {
        OrderBook { bids: Vec::new(), asks: Vec::new(), timestamp: None }
    }
}

/// A trade order (placed or simulated).
#[derive(Debug)]
pub struct Order {
    pub id: String,
    pub market_condition_id: String,
    pub token_id: String,
    pub side: Side,
    /// The limit price
    pub price: Decimal,
    /// The price of the fill; the limit price until the order is filled
    pub fill_price: Decimal,
    pub size: Decimal,
    pub filled: Decimal,
    pub status: OrderStatus,
    /// When the order was made (Unix milliseconds)
    pub created_at: i64,
    pub is_dry_run: bool,
}

/// The state of an order.
#[derive(Debug, Clone, Copy, PartialEq, Eq, Structural)]
pub enum OrderStatus {
    Pending,
    Open,
    PartialFill,
    Filled,
    Cancelled,
    Rejected,
}

impl OrderStatus {
    /// The name of the state.
    pub open spec fn chars(self) -> Seq<char> {
        match self {
            OrderStatus::Pending => "PENDING"@,
            OrderStatus::Open => "OPEN"@,
            OrderStatus::PartialFill => "PARTIAL"@,
            OrderStatus::Filled => "FILLED"@,
            OrderStatus::Cancelled => "CANCELLED"@,
            OrderStatus::Rejected => "REJECTED"@,
        }
    }

    /// Whether the order can still be filled.
    pub open spec fn is_live(self) -> bool {
        self == OrderStatus::Open || self == OrderStatus::PartialFill
    }

    /// The name of the state.
    pub fn text(&self) -> (r: String)
        ensures
            r@ == self.chars(),
    {
        match self {
            OrderStatus::Pending => "PENDING".to_string(),
            OrderStatus::Open => "OPEN".to_string(),
            OrderStatus::PartialFill => "PARTIAL".to_string(),
            OrderStatus::Filled => "FILLED".to_string(),
            OrderStatus::Cancelled => "CANCELLED".to_string(),
            OrderStatus::Rejected => "REJECTED".to_string(),
        }
    }

    /// Whether the order can still be filled.
    pub fn can_fill(&self) -> (r: bool)
        ensures
            r == self.is_live(),
    {
        *self == OrderStatus::Open || *self == OrderStatus::PartialFill
    }
}

/// An order with its texts as character sequences.
pub ghost struct OrderState {
    pub id: Seq<char>,
    pub market_condition_id: Seq<char>,
    pub token_id: Seq<char>,
    pub side: Side,
    pub price: Decimal,
    pub fill_price: Decimal,
    pub size: Decimal,
    pub filled: Decimal,
    pub status: OrderStatus,
    pub created_at: i64,
    pub is_dry_run: bool,
}

impl View for Order {
    type V = OrderState;

    open spec fn view(&self) -> OrderState {
        OrderState {
            id: self.id@,
            market_condition_id: self.market_condition_id@,
            token_id: self.token_id@,
            side: self.side,
            price: self.price,
            fill_price: self.fill_price,
            size: self.size,
            filled: self.filled,
            status: self.status,
            created_at: self.created_at,
            is_dry_run: self.is_dry_run,
        }
    }
}

impl Clone for Order {
    /// A copy of the order.
    fn clone(&self) -> (r: Order)
        ensures
            r@ == self@,
    {
        Order {
            id: self.id.clone(),
            market_condition_id: self.market_condition_id.clone(),
            token_id: self.token_id.clone(),
            side: self.side,
            price: self.price,
            fill_price: self.fill_price,
            size: self.size,
            filled: self.filled,
            status: self.status,
            created_at: self.created_at,
            is_dry_run: self.is_dry_run,
        }
    }
}

/// Position for one side of a market.
#[derive(Debug, Clone, Copy)]
pub struct Position {
    pub shares: Decimal,
    pub avg_cost: Decimal,
    pub total_cost: Decimal,
}

/// No shares.
pub open spec fn no_position() -> Position {
    Position { shares: dec(0, 0), avg_cost: dec(0, 0), total_cost: dec(0, 0) }
}

impl Default for Position {
    /// No shares.
    fn default() -> (r: Position)
        ensures
            r == no_position(),
    {
        Position {
            shares: Decimal::new(0, 0),
            avg_cost: Decimal::new(0, 0),
            total_cost: Decimal::new(0, 0),
        }
    }
}

/// Merge result: one Up and one Down share give one dollar.
#[derive(Debug, Clone, Copy)]
pub struct MergeResult {
    pub pairs_merged: Decimal,
    pub total_cost: Decimal,
    pub total_payout: Decimal,
    pub profit: Decimal,
    pub profit_pct: Decimal,
    /// When the pairs were merged (Unix milliseconds)
    pub timestamp: i64,
}

/// Running profit and loss.
#[derive(Debug, Clone, Copy)]
pub struct PnlSnapshot {
    pub total_invested: Decimal,
    pub total_merged_payout: Decimal,
    pub total_profit: Decimal,
    pub total_merges: u64,
    pub total_pairs: Decimal,
    pub total_orders: u64,
    pub markets_traded: u64,
    pub win_rate: Decimal,
    /// What excess shares were sold for
    pub total_salvage_revenue: Decimal,
    /// What those shares had cost
    pub total_salvage_cost_basis: Decimal,
    /// How many of them were sold
    pub total_salvage_shares: Decimal,
}

/// The snapshot at the start of a session.
pub open spec fn no_pnl() -> PnlSnapshot {
    PnlSnapshot {
        total_invested: dec(0, 0),
        total_merged_payout: dec(0, 0),
        total_profit: dec(0, 0),
        total_merges: 0,
        total_pairs: dec(0, 0),
        total_orders: 0,
        markets_traded: 0,
        win_rate: dec(0, 0),
        total_salvage_revenue: dec(0, 0),
        total_salvage_cost_basis: dec(0, 0),
        total_salvage_shares: dec(0, 0),
    }
}

impl Default for PnlSnapshot {
    /// The snapshot at the start of a session.
    fn default() -> (r: PnlSnapshot)
        ensures
            r == no_pnl(),
    {
        PnlSnapshot {
            total_invested: Decimal::new(0, 0),
            total_merged_payout: Decimal::new(0, 0),
            total_profit: Decimal::new(0, 0),
            total_merges: 0,
            total_pairs: Decimal::new(0, 0),
            total_orders: 0,
            markets_traded: 0,
            win_rate: Decimal::new(0, 0),
            total_salvage_revenue: Decimal::new(0, 0),
            total_salvage_cost_basis: Decimal::new(0, 0),
            total_salvage_shares: Decimal::new(0, 0),
        }
    }
}

/// BTC price tick from a feed.
#[derive(Debug, Clone, Copy)]
pub struct PriceTick {
    pub price: Decimal,
    /// When the price was seen (Unix milliseconds)
    pub timestamp: i64,
    pub source: PriceSource,
}

/// Where a price comes from.
#[derive(Debug, Clone, Copy, PartialEq, Eq, Structural)]
pub enum PriceSource {
    Binance,
    Chainlink,
    Simulated,
}

} // verus!
