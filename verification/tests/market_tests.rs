use merge_bot::decimal::Decimal;
use merge_bot::json::{Json, bool_or, number, text_or_empty};
use merge_bot::market::{choose_token_ids, level_of, side_of_outcome, sorted};
use merge_bot::market::{after_lookup, Lookup, LookupOutcome, NextLookup};
use merge_bot::market::{MarketDiscovery, ShapeError};
use merge_bot::types::{BookLevel, Side};

fn d(num: i64, scale: u32) -> Decimal {
    Decimal::new(num, scale)
}

fn text(value: &str) -> Json {
    Json::Text(value.to_string())
}

fn object(entries: Vec<(&str, Json)>) -> Json {
    Json::Object(entries.into_iter().map(|(key, value)| (key.to_string(), value)).collect())
}

fn token(outcome: &str, id: &str) -> Json {
    object(vec![("outcome", text(outcome)), ("token_id", text(id))])
}

fn market(slug: &str) -> Json {
    object(vec![
        ("condition_id", text("0xabc")),
        ("slug", text(slug)),
        ("tokens", Json::Array(vec![token("Up", "1"), token("DOWN", "2")])),
    ])
}

#[test]
fn windows_last_five_minutes() {
    assert_eq!(MarketDiscovery::current_window_at(1_700_000_123), (1_700_000_100, 1_700_000_400));
    assert_eq!(MarketDiscovery::current_window_at(1_700_000_100), (1_700_000_100, 1_700_000_400));
    assert_eq!(MarketDiscovery::current_window_at(1_700_000_399), (1_700_000_100, 1_700_000_400));
    let (start, end) = MarketDiscovery::current_window();
    assert_eq!(start % 300, 0);
    assert_eq!(end, start + 300);
    assert!(start > 1_700_000_000);
    let (next_start, next_end) = MarketDiscovery::next_window();
    assert!(next_start >= end && next_end == next_start + 300);
}

#[test]
fn slugs_hold_the_window_start() {
    assert_eq!(MarketDiscovery::expected_slug(1_700_000_100), "btc-updown-5m-1700000100");
    assert_eq!(MarketDiscovery::expected_slug(0), "btc-updown-5m-0");
}

#[test]
fn lookups_are_for_the_window_itself() {
    let lookups = MarketDiscovery::lookups(1_700_000_100).unwrap();
    assert_eq!(lookups.len(), 2);
    match &lookups[0] {
        Lookup::Slug { slug, window_start, window_end } => {
            assert_eq!(slug, "btc-updown-5m-1700000100");
            assert_eq!((*window_start, *window_end), (1_700_000_100, 1_700_000_400));
        },
        other => panic!("{:?}", other),
    }
    assert!(matches!(
        &lookups[1],
        Lookup::Search { window_start: 1_700_000_100, window_end: 1_700_000_400 }
    ));
    assert_eq!(MarketDiscovery::lookups(0).unwrap().len(), 2);
    assert!(MarketDiscovery::lookups(u64::MAX - 300).is_some());
    assert!(MarketDiscovery::lookups(u64::MAX - 299).is_none());
}

#[test]
fn the_search_follows_a_failed_slug_lookup() {
    assert!(matches!(after_lookup(2, 0, LookupOutcome::Failed), NextLookup::Try(1)));
    assert!(matches!(after_lookup(2, 0, LookupOutcome::NotFound), NextLookup::Try(1)));
    assert!(matches!(after_lookup(2, 1, LookupOutcome::Failed), NextLookup::Failed));
    assert!(matches!(after_lookup(2, 1, LookupOutcome::NotFound), NextLookup::Nothing));
    assert!(matches!(after_lookup(2, usize::MAX, LookupOutcome::NotFound), NextLookup::Nothing));
    let found = MarketDiscovery::parse_market_response(&market("btc-updown-5m-300"), 300, 600);
    match after_lookup(2, 0, LookupOutcome::Found(found.unwrap())) {
        NextLookup::Done(market) => assert_eq!(market.slug, "btc-updown-5m-300"),
        other => panic!("{:?}", other),
    }
}

#[test]
fn urls_name_the_apis() {
    let discovery = MarketDiscovery::new("https://gamma", "https://clob");
    assert_eq!(discovery.slug_url("s"), "https://gamma/markets?slug=s");
    assert_eq!(
        discovery.search_url(),
        "https://gamma/markets?active=true&closed=false&limit=20&tag=btc&order=startDate&ascending=false"
    );
    assert_eq!(discovery.book_url("7"), "https://clob/book?token_id=7");
    assert_eq!(discovery.price_url("7"), "https://clob/price?token_id=7&side=BUY");
}

#[test]
fn markets_are_read_from_json() {
    let found = MarketDiscovery::parse_market_response(&market("btc-updown-5m-300"), 300, 600);
    let found = found.unwrap();
    assert_eq!(found.condition_id, "0xabc");
    assert_eq!(found.slug, "btc-updown-5m-300");
    assert_eq!(found.up_token_id, "1");
    assert_eq!(found.down_token_id, "2");
    assert_eq!((found.window_start, found.window_end), (300, 600));
    assert_eq!(found.opening_price, None);
    assert!(found.active);
    assert_eq!(found.token_id(Side::Up), "1");
    assert_eq!(found.token_id(Side::Down), "2");
}

#[test]
fn other_field_names_are_read_too() {
    let json = object(vec![
        ("conditionId", text("c")),
        (
            "tokens",
            Json::Array(vec![
                object(vec![("outcome", text("Maybe")), ("tokenId", text("a"))]),
                object(vec![("outcome", text("Else")), ("tokenId", text("b"))]),
            ]),
        ),
        ("active", Json::Bool(true)),
        ("closed", Json::Null),
    ]);
    let found = MarketDiscovery::parse_market_response(&json, 0, 300).unwrap();
    assert_eq!((found.up_token_id.as_str(), found.down_token_id.as_str()), ("a", "b"));
    assert_eq!(found.slug, "");
}

#[test]
fn incomplete_and_closed_markets_are_left_out() {
    let parse = |json: &Json| MarketDiscovery::parse_market_response(json, 0, 300);
    assert!(parse(&Json::Null).is_none());
    assert!(parse(&object(vec![("condition_id", text("c"))])).is_none());
    let with = |key: &str, value: bool| {
        let mut json = market("s");
        if let Json::Object(entries) = &mut json {
            entries.push((key.to_string(), Json::Bool(value)));
        }
        json
    };
    assert!(parse(&with("closed", true)).is_none());
    assert!(parse(&with("active", false)).is_none());
    assert!(parse(&with("closed", false)).is_some());
    let number = object(vec![("condition_id", Json::Number(Some(d(1, 0)))), ("conditionId", text("c"))]);
    assert!(parse(&number).is_none());
}

#[test]
fn outcomes_name_sides() {
    assert_eq!(side_of_outcome("up"), Some(Side::Up));
    assert_eq!(side_of_outcome("yes"), Some(Side::Up));
    assert_eq!(side_of_outcome("much higher"), Some(Side::Up));
    assert_eq!(side_of_outcome("down"), Some(Side::Down));
    assert_eq!(side_of_outcome("no"), Some(Side::Down));
    assert_eq!(side_of_outcome("lower"), Some(Side::Down));
    assert_eq!(side_of_outcome("UP"), None);
    assert_eq!(side_of_outcome(""), None);
}

#[test]
fn the_last_token_of_a_side_counts() {
    let tokens = |list: &[(Option<Side>, &str)]| {
        let list: Vec<(Option<Side>, String)> =
            list.iter().map(|(side, id)| (*side, id.to_string())).collect();
        choose_token_ids(&list)
    };
    let pair = |up: &str, down: &str| Some((up.to_string(), down.to_string()));
    assert_eq!(
        tokens(&[(Some(Side::Up), "1"), (Some(Side::Up), "2"), (Some(Side::Down), "3")]),
        pair("2", "3")
    );
    assert_eq!(tokens(&[(Some(Side::Down), "1"), (None, "2")]), pair("1", "2"));
    assert_eq!(tokens(&[(Some(Side::Up), "1"), (None, "2")]), None);
    assert_eq!(tokens(&[(Some(Side::Up), "1")]), None);
    assert_eq!(tokens(&[]), None);
}

#[test]
fn searches_take_the_first_five_minute_market() {
    let list = vec![
        market("eth-updown-5m-300"),
        object(vec![("slug", text("btc-updown-5m-0"))]),
        market("btc-updown-5m-300"),
        market("btc-updown-5m-600"),
    ];
    let body = object(vec![("data", Json::Array(list))]);
    let found = MarketDiscovery::search_result(&body, 300, 600).unwrap().unwrap();
    assert_eq!(found.slug, "btc-updown-5m-300");
    let single = MarketDiscovery::search_result(&market("btc-updown-5m-900"), 300, 600);
    assert_eq!(single.unwrap().unwrap().slug, "btc-updown-5m-900");
    let array = Json::Array(vec![market("btc-hourly")]);
    assert!(MarketDiscovery::search_result(&array, 300, 600).unwrap().is_none());
    let odd = object(vec![("data", Json::Null)]);
    assert_eq!(MarketDiscovery::search_result(&odd, 300, 600).unwrap_err(), ShapeError);
}

#[test]
fn order_books_are_sorted() {
    let level = |price: Json, size: Json| object(vec![("price", price), ("size", size)]);
    let body = object(vec![
        (
            "bids",
            Json::Array(vec![
                level(text("0.40"), text("1")),
                level(text("0.45"), Json::Number(Some(d(2, 0)))),
                level(text("oops"), text("3")),
                level(Json::Number(None), text("4")),
                level(text("0.4"), text("5")),
            ]),
        ),
        (
            "asks",
            Json::Array(vec![level(text("0.52"), text("6")), level(text("0.50"), text("7"))]),
        ),
    ]);
    let book = MarketDiscovery::parse_order_book(&body);
    let levels = |levels: &Vec<BookLevel>| -> Vec<(Decimal, Decimal)> {
        levels.iter().map(|level| (level.price, level.size)).collect()
    };
    assert_eq!(
        levels(&book.bids),
        vec![(d(45, 2), d(2, 0)), (d(40, 2), d(1, 0)), (d(40, 2), d(5, 0))]
    );
    assert_eq!(levels(&book.asks), vec![(d(50, 2), d(7, 0)), (d(52, 2), d(6, 0))]);
    assert!(book.timestamp.unwrap() > 1_700_000_000_000);
    assert_eq!(book.midpoint().unwrap(), Some(d(475, 3)));
    assert_eq!(book.spread().unwrap(), Some(d(5, 2)));
    let empty = MarketDiscovery::parse_order_book(&Json::Null);
    assert_eq!(empty.best_bid(), None);
    assert_eq!(empty.midpoint().unwrap(), None);
    assert_eq!(empty.spread().unwrap(), None);
}

#[test]
fn sorting_keeps_equal_prices_in_order() {
    let level = |price: i64, size: i64| BookLevel { price: d(price, 1), size: d(size, 0) };
    let levels = vec![level(2, 1), level(1, 2), level(2, 3), level(3, 4), level(1, 5)];
    let sizes = |levels: Vec<BookLevel>| -> Vec<i128> {
        levels.iter().map(|level| level.size.mantissa()).collect()
    };
    assert_eq!(sizes(sorted(levels.clone(), true)), vec![4, 1, 3, 2, 5]);
    assert_eq!(sizes(sorted(levels, false)), vec![2, 5, 1, 3, 4]);
}

#[test]
fn prices_are_numbers_or_texts() {
    let price = |value: Json| MarketDiscovery::parse_price(&object(vec![("price", value)]));
    assert_eq!(price(text("0.515")), Some(d(515, 3)));
    assert_eq!(price(Json::Number(Some(d(5, 1)))), Some(d(5, 1)));
    assert_eq!(price(text("half")), None);
    assert_eq!(price(Json::Bool(true)), None);
    assert_eq!(MarketDiscovery::parse_price(&Json::Null), None);
}

#[test]
fn json_fields_are_found_by_key() {
    let json = object(vec![("a", text("x")), ("b", Json::Bool(true)), ("a", text("y"))]);
    assert_eq!(text_or_empty(json.get("a")), "x");
    assert_eq!(text_or_empty(json.get("b")), "");
    assert_eq!(text_or_empty(json.get_either("z", "a")), "x");
    assert!(json.get("c").is_none());
    assert!(text("a").get("a").is_none());
    assert!(bool_or(json.get("b"), false));
    assert!(bool_or(json.get("a"), true));
    assert_eq!(number(None), None);
    assert!(level_of(Some(d(1, 0)), None).is_none());
    assert!(level_of(Some(d(1, 0)), Some(d(2, 0))).is_some());
}
