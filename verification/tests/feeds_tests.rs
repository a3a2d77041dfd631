use merge_bot::decimal::Decimal;
use merge_bot::feeds::binance::{BinanceFeed, PriceError, SimulatedBinanceFeed, TradeMessage};
use merge_bot::feeds::polymarket::{BookMessage, PolymarketFeed, SimulatedPolymarketFeed, TextLevel};
use merge_bot::json::Json;
use merge_bot::pricing::ModelPrice;
use merge_bot::types::{OrderBook, PriceSource, Side};

fn d(num: i64, scale: u32) -> Decimal {
    Decimal::new(num, scale)
}

fn trade(price: &str, trade_time: u64) -> TradeMessage {
    TradeMessage { price: price.to_string(), trade_time }
}

#[test]
fn trades_give_ticks() {
    let mut feed = BinanceFeed::new("wss://feed");
    assert_eq!(feed.ws_url(), "wss://feed");
    assert!(feed.current_price().is_none());
    let tick = feed.handle_message(&trade("97123.45000000", 1_700_000_000_123)).unwrap();
    assert_eq!(tick.price, d(9712345, 2));
    assert_eq!(tick.price.scale(), 8);
    assert_eq!(tick.timestamp, 1_700_000_000_123);
    assert_eq!(tick.source, PriceSource::Binance);
    assert_eq!(feed.current_price().unwrap().price, d(9712345, 2));
    assert_eq!(feed.handle_message(&trade("a lot", 1)).unwrap_err(), PriceError);
    assert_eq!(feed.current_price().unwrap().price, d(9712345, 2));
}

#[test]
fn times_out_of_range_are_replaced() {
    let mut feed = BinanceFeed::new("");
    let last: u64 = 8_210_266_876_799_999;
    assert_eq!(feed.record_trade(d(1, 0), last, 5).timestamp, last as i64);
    assert_eq!(feed.record_trade(d(1, 0), last + 1, 5).timestamp, 5);
    let first: i64 = -8_334_601_228_800_000;
    assert_eq!(feed.record_trade(d(1, 0), first as u64, 5).timestamp, first);
    assert_eq!(feed.record_trade(d(1, 0), (first - 1) as u64, 5).timestamp, 5);
    let replaced = feed.handle_message(&trade("1", last + 1)).unwrap();
    assert!(replaced.timestamp > 1_700_000_000_000 && replaced.timestamp < last as i64);
}

#[test]
fn simulated_prices_deviate_from_the_first() {
    let mut feed = SimulatedBinanceFeed::new(d(97000, 0));
    assert!(feed.current_price().is_none());
    let tick = feed.advance_at(Some(d(-125, 1)), 77).unwrap();
    assert_eq!(tick.price, d(969875, 1));
    assert_eq!(tick.timestamp, 77);
    assert_eq!(tick.source, PriceSource::Simulated);
    assert_eq!(feed.advance_at(None, 78).unwrap().price, d(97000, 0));
    assert_eq!(feed.current_price().unwrap().timestamp, 78);
    let huge = Decimal::from_parts(0xffff_ffff_ffff_ffff_ffff_ffff, 0).unwrap();
    assert!(feed.advance(Some(huge)).is_err());
    assert_eq!(feed.current_price().unwrap().timestamp, 78);
    assert!(feed.advance(None).unwrap().timestamp > 1_700_000_000_000);
}

fn levels(list: &[(&str, &str)]) -> Vec<TextLevel> {
    list.iter()
        .map(|(price, size)| TextLevel { price: price.to_string(), size: size.to_string() })
        .collect()
}

#[test]
fn book_messages_replace_one_book() {
    let mut feed = PolymarketFeed::new("wss://books", "u", "w");
    let message = BookMessage {
        asset_id: "w".to_string(),
        bids: levels(&[("0.44", "10"), ("x", "10"), ("0.43", "")]),
        asks: levels(&[("0.46", "20")]),
    };
    assert_eq!(feed.handle_message_at(&message, 3), Some(Side::Down));
    assert_eq!(feed.best_bid(Side::Down), Some(d(44, 2)));
    assert_eq!(feed.best_ask(Side::Down), Some(d(46, 2)));
    assert_eq!(feed.midpoint(Side::Down).unwrap(), Some(d(45, 2)));
    assert_eq!(feed.books().down_book.bids.len(), 1);
    assert_eq!(feed.books().down_book.timestamp, Some(3));
    assert_eq!(feed.best_ask(Side::Up), None);
    let unknown = BookMessage { asset_id: "z".to_string(), bids: levels(&[]), asks: levels(&[]) };
    assert_eq!(feed.handle_message(&unknown), None);
    assert_eq!(feed.best_bid(Side::Down), Some(d(44, 2)));
    let up = BookMessage { asset_id: "u".to_string(), bids: levels(&[]), asks: levels(&[("0.5", "1")]) };
    assert_eq!(feed.handle_message(&up), Some(Side::Up));
    assert_eq!(feed.midpoint(Side::Up).unwrap(), Some(d(5, 1)));
    assert!(feed.books().up_book.timestamp.unwrap() > 1_700_000_000_000);
    assert_eq!(feed.best_bid(Side::Down), Some(d(44, 2)));
}

#[test]
fn the_subscription_names_both_tokens() {
    let feed = PolymarketFeed::new("", "u", "w");
    assert_eq!(feed.ws_url(), "");
    let message = feed.subscription();
    assert!(matches!(message.get("type"), Some(Json::Text(text)) if text == "subscribe"));
    match message.get("assets_ids") {
        Some(Json::Array(ids)) => {
            assert_eq!(ids.len(), 2);
            assert!(matches!(&ids[0], Json::Text(text) if text == "u"));
            assert!(matches!(&ids[1], Json::Text(text) if text == "w"));
        },
        other => panic!("{:?}", other),
    }
}

#[test]
fn simulated_books_surround_the_fair_value() {
    let mut feed = SimulatedPolymarketFeed::new(d(97000, 0));
    assert_eq!(feed.opening_price(), d(97000, 0));
    let model = ModelPrice::Probability(d(40, 2));
    feed.update_from_btc_price_at(d(96900, 0), 150, model, 8).unwrap();
    let prices = |book: &OrderBook| -> (Vec<Decimal>, Vec<Decimal>) {
        let bids = book.bids.iter().map(|level| level.price).collect();
        let asks = book.asks.iter().map(|level| level.price).collect();
        (bids, asks)
    };
    let (bids, asks) = prices(&feed.books().up_book);
    assert_eq!(bids, vec![d(375, 3), d(36, 2), d(34, 2)]);
    assert_eq!(asks, vec![d(425, 3), d(44, 2), d(46, 2)]);
    let (bids, asks) = prices(&feed.books().down_book);
    assert_eq!(bids, vec![d(575, 3), d(56, 2), d(54, 2)]);
    assert_eq!(asks, vec![d(625, 3), d(64, 2), d(66, 2)]);
    assert_eq!(feed.books().up_book.asks[2].size, d(300, 0));
    assert_eq!(feed.books().down_book.timestamp, Some(8));
    // At expiry the model does not matter: BTC is above the opening price.
    feed.set_opening_price(d(96000, 0));
    feed.update_from_btc_price(d(96900, 0), 0, model).unwrap();
    let (bids, asks) = prices(&feed.books().up_book);
    assert_eq!(bids, vec![d(975, 3), d(96, 2), d(94, 2)]);
    assert_eq!(asks, vec![d(99, 2), d(99, 2), d(99, 2)]);
    let (bids, _) = prices(&feed.books().down_book);
    assert_eq!(bids, vec![d(1, 2), d(1, 2), d(1, 2)]);
}

#[test]
fn the_best_ask_is_the_lowest_and_the_best_bid_the_highest() {
    let mut feed = PolymarketFeed::new("ws", "u", "d");
    let message = BookMessage {
        asset_id: "u".to_string(),
        bids: levels(&[("0.40", "1"), ("0.45", "2"), ("0.42", "3")]),
        asks: levels(&[("0.60", "1"), ("0.55", "1"), ("0.58", "1")]),
    };
    assert_eq!(feed.handle_message(&message), Some(Side::Up));
    assert_eq!(feed.best_ask(Side::Up), Some(d(55, 2)));
    assert_eq!(feed.best_bid(Side::Up), Some(d(45, 2)));
    assert_eq!(feed.best_ask(Side::Down), None);
    let book = &feed.books().up_book;
    let bids: Vec<Decimal> = book.bids.iter().map(|level| level.price).collect();
    let asks: Vec<Decimal> = book.asks.iter().map(|level| level.price).collect();
    assert_eq!(bids, vec![d(40, 2), d(45, 2), d(42, 2)]);
    assert_eq!(asks, vec![d(60, 2), d(55, 2), d(58, 2)]);
}

#[test]
fn simulated_books_are_never_crossed() {
    let mut feed = SimulatedPolymarketFeed::new(d(97000, 0));
    for cents in 0..101 {
        let model = ModelPrice::Probability(d(cents, 2));
        feed.update_from_btc_price(d(97000, 0), 150, model).unwrap();
        for book in [&feed.books().up_book, &feed.books().down_book] {
            assert!(book.best_bid().unwrap() < book.best_ask().unwrap());
            assert!(book.bids[0].price >= book.bids[1].price);
            assert!(book.asks[0].price <= book.asks[1].price);
            assert!(book.bids.iter().all(|level| level.price >= d(1, 2)));
            assert!(book.asks.iter().all(|level| level.price <= d(99, 2)));
        }
    }
}
