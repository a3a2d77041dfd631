//! Order books of the Up and the Down token.

use vstd::prelude::*;
use crate::clock::now_millis;
use crate::decimal::{ArithmeticError, Decimal};
use crate::decimal::{dec, decimal_of_text, from_pair, larger, smaller};
use crate::decimal::{pow10, small_numbers_are_exact};
use crate::json::Json;
use crate::json::is_text;
use crate::market::level_of;
use crate::market::{ascending, descending, level_with};
use crate::pricing::{BinaryPricer, ModelPrice, VolatilityEstimator};
use crate::pricing::{complement, fair_up};
use crate::text::same_text;
use crate::types::{BookLevel, OrderBook, Side};
use crate::types::{highest_price, lowest_price};

verus! {

/// The order books of both sides of a market.
#[derive(Debug)]
pub struct MarketBooks {
    pub up_book: OrderBook,
    pub down_book: OrderBook,
}

/// Whether a book has no levels and no time.
pub open spec fn is_empty_book(book: OrderBook) -> bool {
    book.bids@.len() == 0 && book.asks@.len() == 0 && book.timestamp is None
}

impl Default for MarketBooks {
    /// Books without levels.
    fn default() -> (r: MarketBooks)
        ensures
            is_empty_book(r.up_book),
            is_empty_book(r.down_book),
    {
        MarketBooks { up_book: OrderBook::default(), down_book: OrderBook::default() }
    }
}

impl MarketBooks {
    /// The book of a side.
    pub open spec fn book(self, side: Side) -> OrderBook {
        match side {
            Side::Up => self.up_book,
            Side::Down => self.down_book,
        }
    }
}

/// A level of an order book, as text.
#[derive(Debug)]
pub struct TextLevel {
    pub price: String,
    pub size: String,
}

/// What a message of the order book stream says.
#[derive(Debug)]
pub struct BookMessage {
    /// The token that the message is about
    pub asset_id: String,
    pub bids: Vec<TextLevel>,
    pub asks: Vec<TextLevel>,
}

/// The levels that texts describe. Those without a price and a size that are numbers are left out.
pub open spec fn read_levels(levels: Seq<TextLevel>) -> Seq<BookLevel>
    decreases levels.len(),
{
    if levels.len() == 0 {
        Seq::empty()
    } else {
        let before = read_levels(levels.drop_last());
        match level_with(
            from_pair(decimal_of_text(levels.last().price@)),
            from_pair(decimal_of_text(levels.last().size@)),
        ) {
            Some(level) => before.push(level),
            None => before,
        }
    }
}

/// The levels that texts describe.
fn parse_levels(levels: &Vec<TextLevel>) -> (r: Vec<BookLevel>)
    ensures
        r@ == read_levels(levels@),
{
    let mut found: Vec<BookLevel> = Vec::new();
    let mut i: usize = 0;
    while i < levels.len()
        invariant
            i <= levels.len(),
            found@ == read_levels(levels@.take(i as int)),
        decreases levels.len() - i,
    {
        assert(levels@.take(i + 1).drop_last() =~= levels@.take(i as int));
        let price = Decimal::parse(levels[i].price.as_str());
        let size = Decimal::parse(levels[i].size.as_str());
        if let Some(level) = level_of(price, size) {
            found.push(level);
        }
        i = i + 1;
    }
    assert(levels@.take(i as int) =~= levels@);
    found
}

/// The state of the order book feed.
pub struct PolymarketFeed {
    /// Order books
    books: MarketBooks,
    /// WebSocket URL
    ws_url: String,
    /// Up token ID
    up_token_id: String,
    /// Down token ID
    down_token_id: String,
}

/// The state of an order book feed.
pub ghost struct BookFeedState {
    pub books: MarketBooks,
    pub ws_url: Seq<char>,
    pub up_token_id: Seq<char>,
    pub down_token_id: Seq<char>,
}

impl View for PolymarketFeed {
    type V = BookFeedState;

    closed spec fn view(&self) -> BookFeedState {
        BookFeedState {
            books: self.books,
            ws_url: self.ws_url@,
            up_token_id: self.up_token_id@,
            down_token_id: self.down_token_id@,
        }
    }
}

impl BookFeedState {
    /// The side that a token is for.
    pub open spec fn side_of(self, token_id: Seq<char>) -> Option<Side> {
        if token_id == self.up_token_id {
            Some(Side::Up)
        } else if token_id == self.down_token_id {
            Some(Side::Down)
        } else {
            None
        }
    }
}

impl PolymarketFeed {
    /// A feed for two tokens, without levels.
    pub fn new(ws_url: &str, up_token_id: &str, down_token_id: &str) -> (r: PolymarketFeed)
        ensures
            r@.ws_url == ws_url@,
            r@.up_token_id == up_token_id@,
            r@.down_token_id == down_token_id@,
            is_empty_book(r@.books.up_book),
            is_empty_book(r@.books.down_book),
    {
        PolymarketFeed {
            books: MarketBooks::default(),
            ws_url: ws_url.to_string(),
            up_token_id: up_token_id.to_string(),
            down_token_id: down_token_id.to_string(),
        }
    }

    /// The WebSocket URL.
    pub fn ws_url(&self) -> (r: &str)
        ensures
            r@ == self@.ws_url,
    {
        self.ws_url.as_str()
    }

    /// The order books.
    pub fn books(&self) -> (r: &MarketBooks)
        ensures
            *r == self@.books,
    {
        &self.books
    }

    fn book(&self, side: Side) -> (r: &OrderBook)
        ensures
            *r == self@.books.book(side),
    {
        match side {
            Side::Up => &self.books.up_book,
            Side::Down => &self.books.down_book,
        }
    }

    /// The best ask (lowest sell price) of a side.
    pub fn best_ask(&self, side: Side) -> (r: Option<Decimal>)
        ensures
            r == self@.books.book(side).ask(),
            r is None <==> self@.books.book(side).asks@.len() == 0,
            r matches Some(price) ==> forall|i: int|
                0 <= i < self@.books.book(side).asks@.len() ==> price@ <= (
                #[trigger] self@.books.book(side).asks@[i]).price@,
    {
        self.book(side).best_ask()
    }

    /// The best bid (highest buy price) of a side.
    pub fn best_bid(&self, side: Side) -> (r: Option<Decimal>)
        ensures
            r == self@.books.book(side).bid(),
            r is None <==> self@.books.book(side).bids@.len() == 0,
            r matches Some(price) ==> forall|i: int|
                0 <= i < self@.books.book(side).bids@.len() ==> (
                #[trigger] self@.books.book(side).bids@[i]).price@ <= price@,
    {
        self.book(side).best_bid()
    }

    /// The midpoint price of a side.
    pub fn midpoint(&self, side: Side) -> (r: Result<Option<Decimal>, ArithmeticError>)
        ensures
            r.ok() == self@.books.book(side).middle(),
    {
        self.book(side).midpoint()
    }

    /// The message that subscribes to both order books.
    pub fn subscription(&self) -> (r: Json)
        ensures
            r matches Json::Object(entries) && entries@.len() == 2 && entries@[0].0@ == "type"@
                && is_text(entries@[0].1, "subscribe"@) && entries@[1].0@ == "assets_ids"@ && (
            entries@[1].1 matches Json::Array(ids) && ids@.len() == 2 && is_text(
                ids@[0],
                self@.up_token_id,
            ) && is_text(ids@[1], self@.down_token_id)),
    {
        let mut ids: Vec<Json> = Vec::new();
        ids.push(Json::Text(self.up_token_id.clone()));
        ids.push(Json::Text(self.down_token_id.clone()));
        let mut entries: Vec<(String, Json)> = Vec::new();
        entries.push(("type".to_string(), Json::Text("subscribe".to_string())));
        entries.push(("assets_ids".to_string(), Json::Array(ids)));
        Json::Object(entries)
    }

    /// Takes a message of the order book stream. The book of the side that it is about is replaced,
    /// with the levels in the order of the message, and with the current time. Returns that side.
    pub fn handle_message(&mut self, message: &BookMessage) -> (r: Option<Side>)
        ensures
            r == old(self)@.side_of(message.asset_id@),
            final(self)@ == (BookFeedState { books: final(self)@.books, ..old(self)@ }),
            match r {
                Some(side) => {
                    let book = final(self)@.books.book(side);
                    &&& book.bids@ == read_levels(message.bids@)
                    &&& book.asks@ == read_levels(message.asks@)
                    &&& book.bid() == highest_price(read_levels(message.bids@))
                    &&& book.ask() == lowest_price(read_levels(message.asks@))
                    &&& book.timestamp is Some
                    &&& final(self)@.books.book(side.other()) == old(self)@.books.book(side.other())
                },
                None => final(self)@ == old(self)@,
            },
    {
        let now: i64 = now_millis();
        self.handle_message_at(message, now)
    }

    /// Takes a message of the order book stream, at a given time. The book of the side that it is
    /// about is replaced, with the levels in the order of the message. Returns that side.
    pub fn handle_message_at(&mut self, message: &BookMessage, now: i64) -> (r: Option<Side>)
        ensures
            r == old(self)@.side_of(message.asset_id@),
            final(self)@ == (BookFeedState { books: final(self)@.books, ..old(self)@ }),
            match r {
                Some(side) => {
                    let book = final(self)@.books.book(side);
                    &&& book.bids@ == read_levels(message.bids@)
                    &&& book.asks@ == read_levels(message.asks@)
                    &&& book.bid() == highest_price(read_levels(message.bids@))
                    &&& book.ask() == lowest_price(read_levels(message.asks@))
                    &&& book.timestamp == Some(now)
                    &&& final(self)@.books.book(side.other()) == old(self)@.books.book(side.other())
                },
                None => final(self)@ == old(self)@,
            },
    {
        let side = if same_text(message.asset_id.as_str(), self.up_token_id.as_str()) {
            Side::Up
        } else if same_text(message.asset_id.as_str(), self.down_token_id.as_str()) {
            Side::Down
        } else {
            return None;
        };
        let bids = parse_levels(&message.bids);
        let asks = parse_levels(&message.asks);
        let book = OrderBook { bids, asks, timestamp: Some(now) };
        match side {
            Side::Up => {
                self.books.up_book = book;
            },
            Side::Down => {
                self.books.down_book = book;
            },
        }
        Some(side)
    }
}

/// The simulated bid at a distance below a fair value: at least one cent.
pub open spec fn bid_below(fair: Decimal, distance: Decimal) -> Option<Decimal> {
    match fair.minus(distance) {
        Some(price) => Some(larger(price, dec(1, 2))),
        None => None,
    }
}

/// The simulated ask at a distance above a fair value: at most 99 cents.
pub open spec fn ask_above(fair: Decimal, distance: Decimal) -> Option<Decimal> {
    match fair.plus(distance) {
        Some(price) => Some(smaller(price, dec(99, 2))),
        None => None,
    }
}

/// Three levels with the sizes 50, 150 and 300, if there are prices for all of them.
pub open spec fn three_levels(
    first: Option<Decimal>,
    second: Option<Decimal>,
    third: Option<Decimal>,
) -> Option<Seq<BookLevel>> {
    match (first, second, third) {
        (Some(a), Some(b), Some(c)) => Some(
            seq![
                BookLevel { price: a, size: dec(50, 0) },
                BookLevel { price: b, size: dec(150, 0) },
                BookLevel { price: c, size: dec(300, 0) },
            ],
        ),
        _ => None,
    }
}

/// The simulated bids for a fair value: 2.5, 4 and 6 cents below it.
pub open spec fn simulated_bids(fair: Decimal) -> Option<Seq<BookLevel>> {
    three_levels(
        bid_below(fair, dec(25, 3)),
        bid_below(fair, dec(4, 2)),
        bid_below(fair, dec(6, 2)),
    )
}

/// The simulated asks for a fair value: 2.5, 4 and 6 cents above it.
pub open spec fn simulated_asks(fair: Decimal) -> Option<Seq<BookLevel>> {
    three_levels(
        ask_above(fair, dec(25, 3)),
        ask_above(fair, dec(4, 2)),
        ask_above(fair, dec(6, 2)),
    )
}

/// Whether a book is the simulated one for a fair value.
pub open spec fn is_simulated(book: OrderBook, fair: Decimal, now: i64) -> bool {
    simulated_bids(fair) == Some(book.bids@) && simulated_asks(fair) == Some(book.asks@)
        && book.timestamp == Some(now)
}

/// For a fair value from nothing to a dollar the simulated bids fall and the asks rise, all prices
/// are from one cent to 99 cents, and the best bid is below the best ask.
pub proof fn simulated_books_are_in_order(book: OrderBook, fair: Decimal, now: i64)
    requires
        is_simulated(book, fair, now),
        fair.is_decimal(),
        0real <= fair@ <= 1real,
    ensures
        descending(book.bids@),
        ascending(book.asks@),
        book.bids@.len() == 3 && book.asks@.len() == 3,
        forall|i: int|
            0 <= i < 3 ==> dec(1, 2)@ <= (#[trigger] book.bids@[i]).price@ <= dec(99, 2)@,
        forall|i: int|
            0 <= i < 3 ==> dec(1, 2)@ <= (#[trigger] book.asks@[i]).price@ <= dec(99, 2)@,
        book.bid() == Some(book.bids@[0].price),
        book.ask() == Some(book.asks@[0].price),
        book.bid()->0@ < book.ask()->0@,
{
    broadcast use crate::decimal::parts_of_dec;

    let (near, middle, far) = (dec(25, 3), dec(4, 2), dec(6, 2));
    assert(pow10(2) == 100 && pow10(3) == 1000) by {
        reveal_with_fuel(pow10, 4);
    }
    assert(near@ == 25real / 1000real && middle@ == 4real / 100real && far@ == 6real / 100real);
    assert(dec(1, 2)@ == 1real / 100real && dec(99, 2)@ == 99real / 100real);
    small_numbers_are_exact(fair, near);
    small_numbers_are_exact(fair, middle);
    small_numbers_are_exact(fair, far);
    let (bids, asks) = (book.bids@, book.asks@);
    assert(bids.drop_last().drop_last().drop_last() =~= Seq::empty());
    assert(asks.drop_last().drop_last().drop_last() =~= Seq::empty());
    reveal_with_fuel(highest_price, 4);
    reveal_with_fuel(lowest_price, 4);
}

/// Three levels with the sizes 50, 150 and 300.
fn levels_of(first: Decimal, second: Decimal, third: Decimal) -> (r: Vec<BookLevel>)
    ensures
        Some(r@) == three_levels(Some(first), Some(second), Some(third)),
{
    let mut levels: Vec<BookLevel> = Vec::new();
    levels.push(BookLevel { price: first, size: Decimal::new(50, 0) });
    levels.push(BookLevel { price: second, size: Decimal::new(150, 0) });
    levels.push(BookLevel { price: third, size: Decimal::new(300, 0) });
    assert(levels@ =~= three_levels(Some(first), Some(second), Some(third))->0);
    levels
}

/// The simulated bid at a distance below a fair value.
fn lower_bid(fair: Decimal, distance: Decimal) -> (r: Result<Decimal, ArithmeticError>)
    ensures
        r.ok() == bid_below(fair, distance),
{
    Ok(fair.checked_sub(distance)?.max(Decimal::new(1, 2)))
}

/// The simulated ask at a distance above a fair value.
fn higher_ask(fair: Decimal, distance: Decimal) -> (r: Result<Decimal, ArithmeticError>)
    ensures
        r.ok() == ask_above(fair, distance),
{
    Ok(fair.checked_add(distance)?.min(Decimal::new(99, 2)))
}

/// The simulated book for a fair value.
fn book_around(fair: Decimal, now: i64) -> (r: Result<OrderBook, ArithmeticError>)
    ensures
        r is Ok <==> simulated_bids(fair) is Some && simulated_asks(fair) is Some,
        r matches Ok(book) ==> is_simulated(book, fair, now),
{
    let bids = levels_of(
        lower_bid(fair, Decimal::new(25, 3))?,
        lower_bid(fair, Decimal::new(4, 2))?,
        lower_bid(fair, Decimal::new(6, 2))?,
    );
    let asks = levels_of(
        higher_ask(fair, Decimal::new(25, 3))?,
        higher_ask(fair, Decimal::new(4, 2))?,
        higher_ask(fair, Decimal::new(6, 2))?,
    );
    Ok(OrderBook { bids, asks, timestamp: Some(now) })
}

/// The state of the simulated order book feed.
pub struct SimulatedPolymarketFeed {
    books: MarketBooks,
    /// BTC opening price of the window
    opening_price: Decimal,
}

/// The state of a simulated order book feed.
pub ghost struct SimulatedBooksState {
    pub books: MarketBooks,
    pub opening_price: Decimal,
}

impl View for SimulatedPolymarketFeed {
    type V = SimulatedBooksState;

    closed spec fn view(&self) -> SimulatedBooksState {
        SimulatedBooksState { books: self.books, opening_price: self.opening_price }
    }
}

/// Whether the books were set for a BTC price. They are unless a price does not fit, and nothing
/// changes then.
pub open spec fn books_updated(
    before: SimulatedBooksState,
    after: SimulatedBooksState,
    btc_price: Decimal,
    remaining_secs: u64,
    model: ModelPrice,
    now: i64,
    result: Result<(), ArithmeticError>,
) -> bool {
    let done = result is Ok;
    let fair = fair_up(btc_price, before.opening_price, dec(45, 2), remaining_secs, model);
    &&& after.opening_price == before.opening_price
    &&& !done ==> after == before
    &&& match complement(fair) {
        Some(fair_down) => {
            &&& done <==> simulated_bids(fair) is Some && simulated_asks(fair) is Some
                && simulated_bids(fair_down) is Some && simulated_asks(fair_down) is Some
            &&& done ==> is_simulated(after.books.up_book, fair, now) && is_simulated(
                after.books.down_book,
                fair_down,
                now,
            )
        },
        None => !done,
    }
}

impl SimulatedPolymarketFeed {
    /// A feed without levels.
    pub fn new(opening_price: Decimal) -> (r: SimulatedPolymarketFeed)
        ensures
            r@.opening_price == opening_price,
            is_empty_book(r@.books.up_book),
            is_empty_book(r@.books.down_book),
    {
        SimulatedPolymarketFeed { books: MarketBooks::default(), opening_price }
    }

    /// The order books.
    pub fn books(&self) -> (r: &MarketBooks)
        ensures
            *r == self@.books,
    {
        &self.books
    }

    /// The BTC opening price of the window.
    pub fn opening_price(&self) -> (r: Decimal)
        ensures
            r == self@.opening_price,
    {
        self.opening_price
    }

    /// Sets the opening price at the start of a window.
    pub fn set_opening_price(&mut self, price: Decimal)
        ensures
            final(self)@ == (SimulatedBooksState { opening_price: price, ..old(self)@ }),
    {
        self.opening_price = price;
    }

    /// Sets the books for a BTC price, given what the model says for it with the default
    /// volatility. The books have the current time.
    pub fn update_from_btc_price(
        &mut self,
        btc_price: Decimal,
        remaining_secs: u64,
        model: ModelPrice,
    ) -> (r: Result<(), ArithmeticError>)
        ensures
            exists|now: i64|
                #[trigger] books_updated(
                    old(self)@,
                    final(self)@,
                    btc_price,
                    remaining_secs,
                    model,
                    now,
                    r,
                ),
    {
        let now: i64 = now_millis();
        self.update_from_btc_price_at(btc_price, remaining_secs, model, now)
    }

    /// Sets the books for a BTC price at a given time, given what the model says for it with the
    /// default volatility.
    pub fn update_from_btc_price_at(
        &mut self,
        btc_price: Decimal,
        remaining_secs: u64,
        model: ModelPrice,
        now: i64,
    ) -> (r: Result<(), ArithmeticError>)
        ensures
            books_updated(
                old(self)@,
                final(self)@,
                btc_price,
                remaining_secs,
                model,
                now,
                r,
            ),
    {
        let pricer = BinaryPricer::new();
        let sigma = VolatilityEstimator::default_volatility();
        let fair = pricer.fair_value_up(btc_price, self.opening_price, sigma, remaining_secs, model);
        let fair_down = Decimal::new(1, 0).checked_sub(fair)?;
        let up_book = book_around(fair, now)?;
        let down_book = book_around(fair_down, now)?;
        self.books = MarketBooks { up_book, down_book };
        Ok(())
    }
}

} // verus!
