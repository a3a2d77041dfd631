//! Market discovery: windows, slugs, and the answers of the market APIs.
//!
//! Markets have the slug `btc-updown-5m-{unix_timestamp}`, aligned to 300 seconds.

use vstd::prelude::*;
use vstd::string::*;
use crate::clock::now_millis;
use crate::decimal::Decimal;
use crate::json::{Json, bool_or, number, text_or_empty};
use crate::json::{bool_of, items_of, number_of, text_of};
use crate::text::{count_text, lowercase, text_contains};
use crate::text::{contains_part, digits_of, digits_tell_numbers_apart, lowercase_of};
use crate::types::{BookLevel, Market, OrderBook, Side};
use crate::types::{MarketState, highest_price, lowest_price, no_price_is_higher, no_price_is_lower};

verus! {

/// Discovers five-minute markets.
pub struct MarketDiscovery {
    gamma_url: String,
    clob_url: String,
}

/// The URLs of a market discovery.
pub ghost struct DiscoveryState {
    pub gamma_url: Seq<char>,
    pub clob_url: Seq<char>,
}

impl View for MarketDiscovery {
    type V = DiscoveryState;

    closed spec fn view(&self) -> DiscoveryState {
        DiscoveryState { gamma_url: self.gamma_url@, clob_url: self.clob_url@ }
    }
}

/// How to look for the market of a window.
#[derive(Debug)]
pub enum Lookup {
    /// By slug.
    Slug { slug: String, window_start: u64, window_end: u64 },
    /// Among the active markets.
    Search { window_start: u64, window_end: u64 },
}

/// How to look for the market of a window, with the slug as a character sequence.
pub ghost enum LookupState {
    Slug { slug: Seq<char>, window_start: u64, window_end: u64 },
    Search { window_start: u64, window_end: u64 },
}

impl View for Lookup {
    type V = LookupState;

    open spec fn view(&self) -> LookupState {
        match *self {
            Lookup::Slug { slug, window_start, window_end } => LookupState::Slug {
                slug: slug@,
                window_start,
                window_end,
            },
            Lookup::Search { window_start, window_end } => LookupState::Search {
                window_start,
                window_end,
            },
        }
    }
}

/// An answer that has another shape than expected.
#[derive(Debug, Clone, Copy, PartialEq, Eq, Structural)]
pub struct ShapeError;

/// The window that a time (Unix seconds) is in, by its start and its end.
pub open spec fn window_at(now: u64) -> (int, int) {
    (now - now % 300, now - now % 300 + 300)
}

/// The slug of the market of a window.
pub open spec fn slug_of(window_start: u64) -> Seq<char> {
    "btc-updown-5m-"@ + digits_of(window_start as nat)
}

/// The lookups for the market of a window, in the order in which they are made: its slug, and then
/// the active markets.
pub open spec fn lookups_for(window_start: u64) -> Seq<LookupState> {
    let window_end = (window_start + 300) as u64;
    seq![
        LookupState::Slug { slug: slug_of(window_start), window_start, window_end },
        LookupState::Search { window_start, window_end },
    ]
}

/// What came of a lookup.
#[derive(Debug)]
pub enum LookupOutcome {
    /// The market was found.
    Found(Market),
    /// There is no such market.
    NotFound,
    /// The lookup failed.
    Failed,
}

/// What follows a lookup.
#[derive(Debug)]
pub enum NextLookup {
    /// The market is found.
    Done(Market),
    /// The lookup with this index is made.
    Try(usize),
    /// There is no market.
    Nothing,
    /// The last lookup failed, and with it the search for the market.
    Failed,
}

/// The lookups with their slugs as character sequences.
pub open spec fn lookup_states(lookups: Seq<Lookup>) -> Seq<LookupState> {
    lookups.map_values(|lookup: Lookup| lookup@)
}

/// The side that an outcome in lower case is for.
pub open spec fn side_of(outcome: Seq<char>) -> Option<Side> {
    if contains_part(outcome, "up"@) || contains_part(outcome, "yes"@) || contains_part(
        outcome,
        "higher"@,
    ) {
        Some(Side::Up)
    } else if contains_part(outcome, "down"@) || contains_part(outcome, "no"@) || contains_part(
        outcome,
        "lower"@,
    ) {
        Some(Side::Down)
    } else {
        None
    }
}

/// A token: the side that its outcome is for, and its ID.
pub type TokenState = (Option<Side>, Seq<char>);

/// The tokens with their IDs as character sequences.
pub open spec fn token_states(tokens: Seq<(Option<Side>, String)>) -> Seq<TokenState> {
    tokens.map_values(|token: (Option<Side>, String)| (token.0, token.1@))
}

/// The ID of the last token for a side, or no text.
pub open spec fn last_id(tokens: Seq<TokenState>, side: Side) -> Seq<char>
    decreases tokens.len(),
{
    if tokens.len() == 0 {
        Seq::empty()
    } else if tokens.last().0 == Some(side) {
        tokens.last().1
    } else {
        last_id(tokens.drop_last(), side)
    }
}

/// The IDs of the Up and the Down token: those that the outcomes give, or else the first two. Both
/// have to be there.
pub open spec fn chosen_ids(tokens: Seq<TokenState>) -> Option<(Seq<char>, Seq<char>)> {
    let named = (last_id(tokens, Side::Up), last_id(tokens, Side::Down));
    let ids = if named.0.len() == 0 && tokens.len() >= 2 {
        (tokens[0].1, tokens[1].1)
    } else {
        named
    };
    if ids.0.len() == 0 || ids.1.len() == 0 {
        None
    } else {
        Some(ids)
    }
}

/// The token that a JSON value describes.
pub open spec fn token_of(token: Json) -> TokenState {
    (
        side_of(lowercase_of(text_of(token.field("outcome"@)))),
        text_of(token.either("token_id"@, "tokenId"@)),
    )
}

/// The active market that a JSON value describes, for a given window.
pub open spec fn market_in(json: Json, window_start: u64, window_end: u64) -> Option<MarketState> {
    let condition_id = text_of(json.either("condition_id"@, "conditionId"@));
    let tokens = items_of(json.field("tokens"@)).map_values(|token: Json| token_of(token));
    match chosen_ids(tokens) {
        Some((up_token_id, down_token_id)) if condition_id.len() > 0 && bool_of(
            json.field("active"@),
            true,
        ) && !bool_of(json.field("closed"@), false) => Some(
            MarketState {
                condition_id,
                slug: text_of(json.field("slug"@)),
                up_token_id,
                down_token_id,
                window_start,
                window_end,
                opening_price: None,
                active: true,
            },
        ),
        _ => None,
    }
}

/// Whether a JSON value describes a five-minute BTC market, by its slug.
pub open spec fn has_market_slug(json: Json) -> bool {
    contains_part(text_of(json.field("slug"@)), "btc"@) && contains_part(
        text_of(json.field("slug"@)),
        "5m"@,
    )
}

/// The first active five-minute BTC market of a list, for a given window.
pub open spec fn first_market(list: Seq<Json>, window_start: u64, window_end: u64) -> Option<
    MarketState,
>
    decreases list.len(),
{
    if list.len() == 0 {
        None
    } else {
        match market_in(list[0], window_start, window_end) {
            Some(market) if has_market_slug(list[0]) => Some(market),
            _ => first_market(list.skip(1), window_start, window_end),
        }
    }
}

/// The markets of an answer: an array of them, an array under `data`, or a single one.
pub open spec fn listed(body: Json) -> Option<Seq<Json>> {
    match body {
        Json::Array(items) => Some(items@),
        _ => match body.field("data"@) {
            Some(Json::Array(items)) => Some(items@),
            Some(_) => None,
            None => Some(seq![body]),
        },
    }
}

/// The level of an order book with a given price and size, if there are both.
pub open spec fn level_with(price: Option<Decimal>, size: Option<Decimal>) -> Option<BookLevel> {
    match (price, size) {
        (Some(price), Some(size)) => Some(BookLevel { price, size }),
        _ => None,
    }
}

/// The levels that a list of JSON values describes. Values that describe none are left out.
pub open spec fn levels_in(list: Seq<Json>) -> Seq<BookLevel>
    decreases list.len(),
{
    if list.len() == 0 {
        Seq::empty()
    } else {
        let before = levels_in(list.drop_last());
        match level_with(
            number_of(list.last().field("price"@)),
            number_of(list.last().field("size"@)),
        ) {
            Some(level) => before.push(level),
            None => before,
        }
    }
}

/// Whether a level has a given price.
pub open spec fn has_price(price: real) -> spec_fn(BookLevel) -> bool {
    |level: BookLevel| level.price@ == price
}

/// The levels with a given price, in their order.
pub open spec fn levels_at(levels: Seq<BookLevel>, price: real) -> Seq<BookLevel> {
    levels.filter(has_price(price))
}

/// Whether two sequences hold the same levels, and those with the same price in the same order.
pub open spec fn same_levels(a: Seq<BookLevel>, b: Seq<BookLevel>) -> bool {
    forall|price: real| #[trigger] levels_at(a, price) == levels_at(b, price)
}

/// Whether prices never rise.
pub open spec fn descending(levels: Seq<BookLevel>) -> bool {
    forall|i: int, j: int|
        0 <= i < j < levels.len() ==> (#[trigger] levels[i]).price@ >= (
        #[trigger] levels[j]).price@
}

/// Whether prices never fall.
pub open spec fn ascending(levels: Seq<BookLevel>) -> bool {
    forall|i: int, j: int|
        0 <= i < j < levels.len() ==> (#[trigger] levels[i]).price@ <= (
        #[trigger] levels[j]).price@
}

impl MarketDiscovery {
    /// A market discovery with given API URLs.
    pub fn new(gamma_url: &str, clob_url: &str) -> (r: MarketDiscovery)
        ensures
            r@ == (DiscoveryState { gamma_url: gamma_url@, clob_url: clob_url@ }),
    {
        MarketDiscovery { gamma_url: gamma_url.to_string(), clob_url: clob_url.to_string() }
    }

    /// The window that a time (Unix seconds) is in, by its start and its end.
    pub fn current_window_at(now: u64) -> (r: (u64, u64))
        requires
            window_at(now).1 <= u64::MAX,
        ensures
            (r.0 as int, r.1 as int) == window_at(now),
    {
        let window_start: u64 = now - (now % 300);
        (window_start, window_start + 300)
    }

    /// The current five-minute window, by its start and its end.
    pub fn current_window() -> (r: (u64, u64))
        ensures
            exists|now: u64| now <= i64::MAX && (r.0 as int, r.1 as int) == #[trigger] window_at(now),
    {
        let now: u64 = (now_millis() / 1000) as u64;
        Self::current_window_at(now)
    }

    /// The next five-minute window, by its start and its end.
    pub fn next_window() -> (r: (u64, u64))
        ensures
            exists|now: u64|
                now <= i64::MAX && r.0 == (#[trigger] window_at(now)).1 && r.1 == r.0 + 300,
    {
        let now: u64 = (now_millis() / 1000) as u64;
        let (_, current_end) = Self::current_window_at(now);
        (current_end, current_end + 300)
    }

    /// The slug of the market of a window.
    pub fn expected_slug(window_start: u64) -> (r: String)
        ensures
            r@ == slug_of(window_start),
    {
        "btc-updown-5m-".to_string().concat(count_text(window_start).as_str())
    }

    /// The lookups for the market of a window, in the order in which they are made, unless the end
    /// of the window is out of range.
    pub fn lookups(window_start: u64) -> (r: Option<Vec<Lookup>>)
        ensures
            r is Some <==> window_start + 300 <= u64::MAX,
            r matches Some(lookups) ==> lookup_states(lookups@) == lookups_for(window_start),
    {
        if window_start > u64::MAX - 300 {
            return None;
        }
        let window_end: u64 = window_start + 300;
        let mut list: Vec<Lookup> = Vec::new();
        list.push(
            Lookup::Slug { slug: Self::expected_slug(window_start), window_start, window_end },
        );
        list.push(Lookup::Search { window_start, window_end });
        assert(lookup_states(list@) =~= lookups_for(window_start));
        Some(list)
    }

    /// The URL to look up a market by its slug.
    pub fn slug_url(&self, slug: &str) -> (r: String)
        ensures
            r@ == self@.gamma_url + "/markets?slug="@ + slug@,
    {
        self.gamma_url.clone().concat("/markets?slug=").concat(slug)
    }

    /// The URL to search the active markets.
    pub fn search_url(&self) -> (r: String)
        ensures
            r@ == self@.gamma_url
                + "/markets?active=true&closed=false&limit=20&tag=btc&order=startDate&ascending=false"@,
    {
        self.gamma_url.clone().concat(
            "/markets?active=true&closed=false&limit=20&tag=btc&order=startDate&ascending=false",
        )
    }

    /// The URL of the order book of a token.
    pub fn book_url(&self, token_id: &str) -> (r: String)
        ensures
            r@ == self@.clob_url + "/book?token_id="@ + token_id@,
    {
        self.clob_url.clone().concat("/book?token_id=").concat(token_id)
    }

    /// The URL of the buy price of a token.
    pub fn price_url(&self, token_id: &str) -> (r: String)
        ensures
            r@ == self@.clob_url + "/price?token_id="@ + token_id@ + "&side=BUY"@,
    {
        self.clob_url.clone().concat("/price?token_id=").concat(token_id).concat("&side=BUY")
    }

    /// The active market that an answer describes, for a given window.
    pub fn parse_market_response(json: &Json, window_start: u64, window_end: u64) -> (r: Option<
        Market,
    >)
        ensures
            match r {
                Some(market) => market_in(*json, window_start, window_end) == Some(market@),
                None => market_in(*json, window_start, window_end) is None,
            },
    {
        let condition_id = text_or_empty(json.get_either("condition_id", "conditionId"));
        if condition_id.as_str().is_empty() {
            return None;
        }
        let slug = text_or_empty(json.get("slug"));
        let tokens = tokens_in(json.get("tokens"));
        let (up_token_id, down_token_id) = match choose_token_ids(&tokens) {
            Some(ids) => ids,
            None => {
                return None;
            },
        };
        let active = bool_or(json.get("active"), true);
        let closed = bool_or(json.get("closed"), false);
        if closed || !active {
            return None;
        }
        Some(
            Market {
                condition_id,
                slug,
                up_token_id,
                down_token_id,
                window_start,
                window_end,
                opening_price: None,
                active: true,
            },
        )
    }

    /// The first active five-minute BTC market of a list, for a given window.
    pub fn first_match(list: &[Json], window_start: u64, window_end: u64) -> (r: Option<Market>)
        ensures
            match r {
                Some(market) => first_market(list@, window_start, window_end) == Some(market@),
                None => first_market(list@, window_start, window_end) is None,
            },
    {
        let mut i: usize = 0;
        assert(list@.skip(0) =~= list@);
        while i < list.len()
            invariant
                i <= list.len(),
                first_market(list@, window_start, window_end) == first_market(
                    list@.skip(i as int),
                    window_start,
                    window_end,
                ),
            decreases list.len() - i,
        {
            assert(list@.skip(i as int).skip(1) =~= list@.skip(i + 1));
            let slug = text_or_empty(list[i].get("slug"));
            if text_contains(slug.as_str(), "btc") && text_contains(slug.as_str(), "5m") {
                let found = Self::parse_market_response(&list[i], window_start, window_end);
                if found.is_some() {
                    return found;
                }
            }
            i = i + 1;
        }
        None
    }

    /// The first active five-minute BTC market of an answer to a search, for a given window.
    pub fn search_result(body: &Json, window_start: u64, window_end: u64) -> (r: Result<
        Option<Market>,
        ShapeError,
    >)
        ensures
            match listed(*body) {
                Some(list) => match r {
                    Ok(Some(market)) => first_market(list, window_start, window_end) == Some(market@),
                    Ok(None) => first_market(list, window_start, window_end) is None,
                    Err(_) => false,
                },
                None => r is Err,
            },
    {
        match body {
            Json::Array(items) => Ok(Self::first_match(items.as_slice(), window_start, window_end)),
            _ => match body.get("data") {
                Some(Json::Array(items)) => Ok(
                    Self::first_match(items.as_slice(), window_start, window_end),
                ),
                Some(_) => Err(ShapeError),
                None => {
                    proof {
                        assert(seq![*body].skip(1) =~= Seq::empty());
                        reveal_with_fuel(first_market, 2);
                    }
                    let slug = text_or_empty(body.get("slug"));
                    if text_contains(slug.as_str(), "btc") && text_contains(slug.as_str(), "5m") {
                        Ok(Self::parse_market_response(body, window_start, window_end))
                    } else {
                        Ok(None)
                    }
                },
            },
        }
    }

    /// The order book that an answer describes, with the bids from the highest and the asks from
    /// the lowest. Levels with the same price stay in their order. The book has the current time.
    pub fn parse_order_book(body: &Json) -> (r: OrderBook)
        ensures
            descending(r.bids@),
            same_levels(r.bids@, levels_in(items_of(body.field("bids"@)))),
            ascending(r.asks@),
            same_levels(r.asks@, levels_in(items_of(body.field("asks"@)))),
            r.bid() == highest_price(levels_in(items_of(body.field("bids"@)))),
            r.ask() == lowest_price(levels_in(items_of(body.field("asks"@)))),
            r.timestamp is Some,
    {
        let now: i64 = now_millis();
        let bids = sorted(levels(body.get("bids")), true);
        let asks = sorted(levels(body.get("asks")), false);
        proof {
            the_order_keeps_the_best_prices(bids@, levels_in(items_of(body.field("bids"@))));
            the_order_keeps_the_best_prices(asks@, levels_in(items_of(body.field("asks"@))));
        }
        OrderBook { bids, asks, timestamp: Some(now) }
    }

    /// The price that an answer gives.
    pub fn parse_price(body: &Json) -> (r: Option<Decimal>)
        ensures
            r == number_of(body.field("price"@)),
    {
        number(body.get("price"))
    }
}

/// What follows the lookup with a given index, of `count` lookups: the market that was found, or
/// else the next lookup, also after a failure. A failure of the last lookup is handed on.
pub fn after_lookup(count: usize, at: usize, outcome: LookupOutcome) -> (r: NextLookup)
    ensures
        match outcome {
            LookupOutcome::Found(market) => r == NextLookup::Done(market),
            LookupOutcome::NotFound => r == if at + 1 < count {
                NextLookup::Try((at + 1) as usize)
            } else {
                NextLookup::Nothing
            },
            LookupOutcome::Failed => r == if at + 1 < count {
                NextLookup::Try((at + 1) as usize)
            } else {
                NextLookup::Failed
            },
        },
{
    let more = at < count && at + 1 < count;
    match outcome {
        LookupOutcome::Found(market) => NextLookup::Done(market),
        LookupOutcome::NotFound => if more {
            NextLookup::Try(at + 1)
        } else {
            NextLookup::Nothing
        },
        LookupOutcome::Failed => if more {
            NextLookup::Try(at + 1)
        } else {
            NextLookup::Failed
        },
    }
}

/// The side that an outcome in lower case is for.
pub fn side_of_outcome(outcome: &str) -> (r: Option<Side>)
    ensures
        r == side_of(outcome@),
{
    if text_contains(outcome, "up") || text_contains(outcome, "yes") || text_contains(
        outcome,
        "higher",
    ) {
        Some(Side::Up)
    } else if text_contains(outcome, "down") || text_contains(outcome, "no") || text_contains(
        outcome,
        "lower",
    ) {
        Some(Side::Down)
    } else {
        None
    }
}

/// The tokens that a JSON value lists.
fn tokens_in(value: Option<&Json>) -> (r: Vec<(Option<Side>, String)>)
    ensures
        token_states(r@) == items_of(crate::json::deref(value)).map_values(
            |token: Json| token_of(token),
        ),
{
    let mut tokens: Vec<(Option<Side>, String)> = Vec::new();
    if let Some(Json::Array(items)) = value {
        let mut i: usize = 0;
        while i < items.len()
            invariant
                i <= items.len(),
                token_states(tokens@) == items@.take(i as int).map_values(
                    |token: Json| token_of(token),
                ),
            decreases items.len() - i,
        {
            let outcome = text_or_empty(items[i].get("outcome"));
            let side = side_of_outcome(lowercase(outcome.as_str()).as_str());
            let id = text_or_empty(items[i].get_either("token_id", "tokenId"));
            let ghost before = token_states(tokens@);
            tokens.push((side, id));
            assert(token_states(tokens@) =~= before.push(token_of(items@[i as int])));
            i = i + 1;
            assert(token_states(tokens@) =~= items@.take(i as int).map_values(
                |token: Json| token_of(token),
            ));
        }
        assert(items@.take(i as int) =~= items@);
    } else {
        assert(token_states(tokens@) =~= Seq::<Json>::empty().map_values(
            |token: Json| token_of(token),
        ));
    }
    tokens
}

/// The IDs of the Up and the Down token: those that the outcomes give, or else the first two. Both
/// have to be there.
pub fn choose_token_ids(tokens: &Vec<(Option<Side>, String)>) -> (r: Option<(String, String)>)
    ensures
        match r {
            Some((up, down)) => chosen_ids(token_states(tokens@)) == Some((up@, down@)),
            None => chosen_ids(token_states(tokens@)) is None,
        },
{
    let ghost states = token_states(tokens@);
    let mut up = String::new();
    let mut down = String::new();
    let mut i: usize = 0;
    while i < tokens.len()
        invariant
            i <= tokens.len(),
            states == token_states(tokens@),
            up@ == last_id(states.take(i as int), Side::Up),
            down@ == last_id(states.take(i as int), Side::Down),
        decreases tokens.len() - i,
    {
        proof {
            assert(states.take(i + 1).drop_last() =~= states.take(i as int));
            assert(states[i as int] == (tokens@[i as int].0, tokens@[i as int].1@));
        }
        match tokens[i].0 {
            Some(Side::Up) => {
                up = tokens[i].1.clone();
            },
            Some(Side::Down) => {
                down = tokens[i].1.clone();
            },
            None => {},
        }
        i = i + 1;
    }
    assert(states.take(i as int) =~= states);
    if up.as_str().is_empty() && tokens.len() >= 2 {
        up = tokens[0].1.clone();
        down = tokens[1].1.clone();
    }
    if up.as_str().is_empty() || down.as_str().is_empty() {
        return None;
    }
    Some((up, down))
}

/// The level of an order book with a given price and size, if there are both.
pub fn level_of(price: Option<Decimal>, size: Option<Decimal>) -> (r: Option<BookLevel>)
    ensures
        r == level_with(price, size),
{
    match (price, size) {
        (Some(price), Some(size)) => Some(BookLevel { price, size }),
        _ => None,
    }
}

/// The levels that a JSON value lists.
fn levels(value: Option<&Json>) -> (r: Vec<BookLevel>)
    ensures
        r@ == levels_in(items_of(crate::json::deref(value))),
{
    let mut found: Vec<BookLevel> = Vec::new();
    if let Some(Json::Array(items)) = value {
        let mut i: usize = 0;
        while i < items.len()
            invariant
                i <= items.len(),
                found@ == levels_in(items@.take(i as int)),
            decreases items.len() - i,
        {
            assert(items@.take(i + 1).drop_last() =~= items@.take(i as int));
            if let Some(level) = level_of(number(items[i].get("price")), number(items[i].get("size"))) {
                found.push(level);
            }
            i = i + 1;
        }
        assert(items@.take(i as int) =~= items@);
    }
    found
}

/// Without a level at a price there is none.
proof fn no_levels_at(levels: Seq<BookLevel>, price: real)
    requires
        forall|i: int| 0 <= i < levels.len() ==> (#[trigger] levels[i]).price@ != price,
    ensures
        levels_at(levels, price) == Seq::<BookLevel>::empty(),
    decreases levels.len(),
{
    reveal(Seq::filter);
    if levels.len() > 0 {
        no_levels_at(levels.drop_last(), price);
    }
}

/// Inserting a level before levels of other prices keeps the levels at every price in their order,
/// with the new one last.
proof fn insertion_keeps_levels(levels: Seq<BookLevel>, k: int, level: BookLevel, price: real)
    requires
        0 <= k <= levels.len(),
        forall|j: int| k <= j < levels.len() ==> (#[trigger] levels[j]).price@ != level.price@,
    ensures
        levels_at(levels.insert(k, level), price) == levels_at(levels.push(level), price),
{
    let pred = has_price(price);
    let (a, b) = (levels.take(k), levels.skip(k));
    assert(levels =~= a + b);
    assert(levels.insert(k, level) =~= a.push(level) + b);
    Seq::filter_distributes_over_add(a.push(level), b, pred);
    Seq::filter_distributes_over_add(a, b, pred);
    a.lemma_filter_push(level, pred);
    levels.lemma_filter_push(level, pred);
    if level.price@ == price {
        no_levels_at(b, price);
        assert(levels_at(b, price) =~= Seq::empty());
        assert(a.filter(pred) + b.filter(pred) =~= a.filter(pred));
        assert(a.filter(pred).push(level) + b.filter(pred) =~= a.filter(pred).push(level));
    }
}

/// Whether levels are in order.
pub open spec fn in_order(levels: Seq<BookLevel>, down: bool) -> bool {
    if down {
        descending(levels)
    } else {
        ascending(levels)
    }
}

/// The levels by price: from the highest if `down`, else from the lowest. Levels with the same
/// price stay in their order.
pub fn sorted(levels: Vec<BookLevel>, down: bool) -> (r: Vec<BookLevel>)
    ensures
        in_order(r@, down),
        same_levels(r@, levels@),
        r@.len() == levels@.len(),
{
    let mut result: Vec<BookLevel> = Vec::new();
    let mut i: usize = 0;
    assert(levels@.take(0) =~= result@);
    while i < levels.len()
        invariant
            i <= levels.len(),
            result.len() == i,
            in_order(result@, down),
            same_levels(result@, levels@.take(i as int)),
        decreases levels.len() - i,
    {
        let level = levels[i];
        let ghost before = result@;
        let mut k: usize = result.len();
        while k > 0 && ((down && result[k - 1].price < level.price) || (!down && result[k - 1].price
            > level.price))
            invariant
                k <= result.len(),
                result@ == before,
                forall|j: int|
                    k <= j < before.len() ==> if down {
                        (#[trigger] before[j]).price@ < level.price@
                    } else {
                        before[j].price@ > level.price@
                    },
            decreases k,
        {
            k = k - 1;
        }
        result.insert(k, level);
        proof {
            let all = levels@.take(i as int);
            assert(levels@.take(i + 1) =~= all.push(level));
            assert forall|price: real| #[trigger] levels_at(result@, price) == levels_at(
                levels@.take(i + 1),
                price,
            ) by {
                insertion_keeps_levels(before, k as int, level, price);
                assert(levels_at(before, price) == levels_at(all, price));
                before.lemma_filter_push(level, has_price(price));
                all.lemma_filter_push(level, has_price(price));
            }
        }
        i = i + 1;
    }
    assert(levels@.take(i as int) =~= levels@);
    result
}

/// A level has one with the same price among levels that are the same but for their order.
proof fn a_level_is_found(a: Seq<BookLevel>, b: Seq<BookLevel>, i: int) -> (k: int)
    requires
        same_levels(a, b),
        0 <= i < a.len(),
    ensures
        0 <= k < b.len(),
        b[k].price@ == a[i].price@,
{
    let price = a[i].price@;
    a.lemma_filter_contains(has_price(price), i);
    assert(levels_at(a, price) == levels_at(b, price));
    b.lemma_filter_contains_rev(has_price(price), a[i]);
    choose|k: int| 0 <= k < b.len() && b[k] == a[i]
}

/// The highest price is that of the first of the levels that have it.
proof fn the_highest_price_comes_first(levels: Seq<BookLevel>)
    ensures
        highest_price(levels) matches Some(price) ==> levels_at(levels, price@).len() > 0 && levels_at(
            levels,
            price@,
        )[0].price == price,
    decreases levels.len(),
{
    if levels.len() > 0 {
        let before = levels.drop_last();
        let price = highest_price(levels)->0;
        the_highest_price_comes_first(before);
        no_price_is_higher(before);
        assert(levels =~= before.push(levels.last()));
        before.lemma_filter_push(levels.last(), has_price(price@));
        if before.len() == 0 || highest_price(before)->0@ < levels.last().price@ {
            no_levels_at(before, price@);
        }
    }
}

/// Levels that are the same but for their order have the same highest price.
proof fn the_order_keeps_the_highest_price(a: Seq<BookLevel>, b: Seq<BookLevel>)
    requires
        same_levels(a, b),
    ensures
        highest_price(a) == highest_price(b),
{
    the_highest_price_comes_first(a);
    the_highest_price_comes_first(b);
    no_price_is_higher(a);
    no_price_is_higher(b);
    if a.len() > 0 && b.len() > 0 {
        let (p, q) = (highest_price(a)->0, highest_price(b)->0);
        let i = choose|i: int| 0 <= i < a.len() && (#[trigger] a[i]).price == p;
        let j = choose|j: int| 0 <= j < b.len() && (#[trigger] b[j]).price == q;
        let k = a_level_is_found(a, b, i);
        let n = a_level_is_found(b, a, j);
        assert(p@ == q@);
        assert(levels_at(a, p@) == levels_at(b, p@));
    } else if a.len() > 0 {
        let k = a_level_is_found(a, b, 0);
    } else if b.len() > 0 {
        let n = a_level_is_found(b, a, 0);
    }
}

/// The lowest price is that of the first of the levels that have it.
proof fn the_lowest_price_comes_first(levels: Seq<BookLevel>)
    ensures
        lowest_price(levels) matches Some(price) ==> levels_at(levels, price@).len() > 0 && levels_at(
            levels,
            price@,
        )[0].price == price,
    decreases levels.len(),
{
    if levels.len() > 0 {
        let before = levels.drop_last();
        let price = lowest_price(levels)->0;
        the_lowest_price_comes_first(before);
        no_price_is_lower(before);
        assert(levels =~= before.push(levels.last()));
        before.lemma_filter_push(levels.last(), has_price(price@));
        if before.len() == 0 || levels.last().price@ < lowest_price(before)->0@ {
            no_levels_at(before, price@);
        }
    }
}

/// Levels that are the same but for their order have the same lowest price.
proof fn the_order_keeps_the_lowest_price(a: Seq<BookLevel>, b: Seq<BookLevel>)
    requires
        same_levels(a, b),
    ensures
        lowest_price(a) == lowest_price(b),
{
    the_lowest_price_comes_first(a);
    the_lowest_price_comes_first(b);
    no_price_is_lower(a);
    no_price_is_lower(b);
    if a.len() > 0 && b.len() > 0 {
        let (p, q) = (lowest_price(a)->0, lowest_price(b)->0);
        let i = choose|i: int| 0 <= i < a.len() && (#[trigger] a[i]).price == p;
        let j = choose|j: int| 0 <= j < b.len() && (#[trigger] b[j]).price == q;
        let k = a_level_is_found(a, b, i);
        let n = a_level_is_found(b, a, j);
        assert(p@ == q@);
        assert(levels_at(a, p@) == levels_at(b, p@));
    } else if a.len() > 0 {
        let k = a_level_is_found(a, b, 0);
    } else if b.len() > 0 {
        let n = a_level_is_found(b, a, 0);
    }
}

/// The best prices of a book stay the same, whatever the order of its levels.
pub proof fn the_order_keeps_the_best_prices(a: Seq<BookLevel>, b: Seq<BookLevel>)
    requires
        same_levels(a, b),
    ensures
        highest_price(a) == highest_price(b),
        lowest_price(a) == lowest_price(b),
{
    the_order_keeps_the_highest_price(a, b);
    the_order_keeps_the_lowest_price(a, b);
}

/// A window starts at a multiple of 300 seconds, lasts 300 seconds, and holds the time that it is
/// the window of. Every time that it holds has the same window.
pub proof fn windows_are_aligned(now: u64, other: u64)
    ensures
        window_at(now).0 % 300 == 0,
        window_at(now).1 == window_at(now).0 + 300,
        0 <= window_at(now).0 <= now < window_at(now).1,
        window_at(now).0 <= other < window_at(now).1 ==> window_at(other) == window_at(now),
{
}

/// The next window starts where the current one ends.
pub proof fn windows_follow_each_other(now: u64, later: u64)
    requires
        later == window_at(now).1,
    ensures
        window_at(later).0 == window_at(now).1,
{
}

/// Different windows have different slugs.
pub proof fn slugs_tell_windows_apart(a: u64, b: u64)
    requires
        slug_of(a) == slug_of(b),
    ensures
        a == b,
{
    let prefix = "btc-updown-5m-"@;
    let (x, y) = (digits_of(a as nat), digits_of(b as nat));
    assert((prefix + x).skip(prefix.len() as int) =~= x);
    assert((prefix + y).skip(prefix.len() as int) =~= y);
    digits_tell_numbers_apart(a as nat, b as nat);
}

/// Every lookup for the market of a window is for that window, the one that holds the time.
pub proof fn lookups_are_for_the_window(now: u64, window_start: u64, i: int)
    requires
        window_start == window_at(now).0,
        window_at(now).1 <= u64::MAX,
        0 <= i < lookups_for(window_start).len(),
    ensures
        match lookups_for(window_start)[i] {
            LookupState::Slug { slug, window_start: start, window_end } => slug == slug_of(
                window_start,
            ) && start == window_start && window_end == window_at(now).1,
            LookupState::Search { window_start: start, window_end } => start == window_start
                && window_end == window_at(now).1,
        },
{
}

/// The search follows a failed lookup by slug, and nothing follows the search.
pub proof fn the_search_follows_the_slug(window_start: u64)
    ensures
        lookups_for(window_start).len() == 2,
        lookups_for(window_start)[0] is Slug,
        lookups_for(window_start)[1] is Search,
{
}

/// A market that is found has all its IDs, and is active and not closed.
pub proof fn found_markets_are_active(
    json: Json,
    window_start: u64,
    window_end: u64,
    market: MarketState,
)
    requires
        market_in(json, window_start, window_end) == Some(market),
    ensures
        market.condition_id.len() > 0,
        market.up_token_id.len() > 0,
        market.down_token_id.len() > 0,
        market.active,
        bool_of(json.field("active"@), true),
        !bool_of(json.field("closed"@), false),
        market.window_start == window_start,
        market.window_end == window_end,
{
}

/// A market that a search finds is one of the list, and has a slug of a five-minute BTC market.
pub proof fn searches_find_five_minute_markets(
    list: Seq<Json>,
    window_start: u64,
    window_end: u64,
    market: MarketState,
)
    requires
        first_market(list, window_start, window_end) == Some(market),
    ensures
        exists|i: int|
            0 <= i < list.len() && has_market_slug(#[trigger] list[i]) && market_in(
                list[i],
                window_start,
                window_end,
            ) == Some(market),
    decreases list.len(),
{
    let here = market_in(list[0], window_start, window_end);
    if here is Some && has_market_slug(list[0]) {
        assert(here == Some(market));
    } else {
        searches_find_five_minute_markets(list.skip(1), window_start, window_end, market);
        let i = choose|i: int|
            0 <= i < list.skip(1).len() && has_market_slug(#[trigger] list.skip(1)[i]) && market_in(
                list.skip(1)[i],
                window_start,
                window_end,
            ) == Some(market);
        assert(list[i + 1] == list.skip(1)[i]);
    }
}

} // verus!
