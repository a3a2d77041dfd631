//! What is found of markets, books and prices, and what follows a window.

use vstd::prelude::*;
use crate::config::CliArgs;
use crate::decimal::Decimal;
use crate::decimal::{adds_exactly, dec, kept_sum_is_exact, small_numbers_are_exact};
use crate::feeds::binance::simulated_price;
use crate::feeds::polymarket::{BookFeedState, MarketBooks, SimulatedBooksState, TextLevel};
use crate::feeds::polymarket::{books_updated, is_simulated, read_levels};
use crate::json::{Json, bool_of, items_of, number_of, text_of, value_at};
use crate::laws::numbers::{max, min, value_of};
use crate::laws::orders::is_fair_value;
use crate::market::{TokenState, chosen_ids, first_market, has_market_slug, last_id, levels_in};
use crate::market::{listed, market_in, side_of, token_of};
use crate::pricing::{ModelPrice, fair_up};
use crate::session::{NextWindow, next_window_after, simulated_market_of, simulated_window_of};
use crate::session::wait_after;
use crate::text::contains_part;
use crate::types::{BookLevel, Market, MarketState, OrderBook, Side};

verus! {

/// The window of a market lasts from its start to its end: what is left of it and what has passed of
/// it at a time between the two are together its length.
pub proof fn time_passes_in_a_window(market: Market, now: u64)
    requires
        market.window_end <= i64::MAX,
    ensures
        now >= market.window_end ==> market.remaining_at(now) == 0,
        now <= market.window_start ==> market.elapsed_at(now) == 0,
        market.window_start <= now <= market.window_end ==> market.remaining_at(now)
            + market.elapsed_at(now) == market.window_end - market.window_start,
        now < market.window_end ==> now + market.remaining_at(now) == market.window_end,
        now > market.window_start ==> market.window_start + market.elapsed_at(now) == now,
{
}

/// Either side has its own token and its own book, and the other side is the other one.
pub proof fn either_side_has_its_own(market: Market, books: MarketBooks, feed: BookFeedState)
    ensures
        market.token_of(Side::Up) == market.up_token_id@,
        market.token_of(Side::Down) == market.down_token_id@,
        books.book(Side::Up) == books.up_book,
        books.book(Side::Down) == books.down_book,
        feed.side_of(feed.up_token_id) == Some(Side::Up),
        feed.up_token_id != feed.down_token_id ==> feed.side_of(feed.down_token_id) == Some(
            Side::Down,
        ),
        forall|token: Seq<char>|
            token != feed.up_token_id && token != feed.down_token_id ==> #[trigger] feed.side_of(
                token,
            ) is None,
        Side::Up.other() == Side::Down,
        Side::Down.other() == Side::Up,
{
}

/// A snapshot shows the values of either side under that side.
pub proof fn snapshots_tell_the_sides_apart(snapshot: crate::rules::MarketSnapshot)
    ensures
        snapshot.fair(Side::Up) == snapshot.fair_value_up,
        snapshot.fair(Side::Down) == snapshot.fair_value_down,
        snapshot.ask(Side::Up) == snapshot.up_best_ask,
        snapshot.ask(Side::Down) == snapshot.down_best_ask,
        snapshot.bid(Side::Up) == snapshot.up_best_bid,
        snapshot.bid(Side::Down) == snapshot.down_best_bid,
{
}

/// One more text level adds a level with its price and its size exactly if both are numbers, after
/// the levels before it.
pub proof fn each_text_level_is_read(levels: Seq<TextLevel>, level: TextLevel)
    ensures
        ({
            let price = crate::decimal::from_pair(crate::decimal::decimal_of_text(level.price@));
            let size = crate::decimal::from_pair(crate::decimal::decimal_of_text(level.size@));
            read_levels(levels.push(level)) == match (price, size) {
                (Some(p), Some(s)) => read_levels(levels).push(BookLevel { price: p, size: s }),
                _ => read_levels(levels),
            }
        }),
        read_levels(Seq::empty()).len() == 0,
{
    assert(levels.push(level).drop_last() =~= levels);
}

/// One more item of a list adds a level with its `price` and its `size` exactly if both are numbers,
/// after the levels before it.
pub proof fn each_listed_level_is_read(list: Seq<Json>, item: Json)
    ensures
        levels_in(list.push(item)) == match (
            number_of(item.field("price"@)),
            number_of(item.field("size"@)),
        ) {
            (Some(p), Some(s)) => levels_in(list).push(BookLevel { price: p, size: s }),
            _ => levels_in(list),
        },
        levels_in(Seq::empty()).len() == 0,
{
    assert(list.push(item).drop_last() =~= list);
}

/// The value of a field is that of the first entry with its key. Where there is none, no entry has
/// the key.
pub proof fn fields_are_found_by_their_key(entries: Seq<(String, Json)>, key: Seq<char>)
    ensures
        match value_at(entries, key) {
            Some(value) => exists|i: int|
                0 <= i < entries.len() && (#[trigger] entries[i]).0@ == key && entries[i].1 == value
                    && forall|j: int| 0 <= j < i ==> (#[trigger] entries[j]).0@ != key,
            None => forall|i: int| 0 <= i < entries.len() ==> (#[trigger] entries[i]).0@ != key,
        },
    decreases entries.len(),
{
    if entries.len() > 0 {
        if entries[0].0@ == key {
            assert(entries[0].1 == value_at(entries, key)->0);
        } else {
            let rest = entries.skip(1);
            fields_are_found_by_their_key(rest, key);
            if let Some(value) = value_at(rest, key) {
                let i = choose|i: int|
                    0 <= i < rest.len() && (#[trigger] rest[i]).0@ == key && rest[i].1 == value
                        && forall|j: int| 0 <= j < i ==> (#[trigger] rest[j]).0@ != key;
                assert(entries[i + 1] == rest[i]);
                assert forall|j: int| 0 <= j < i + 1 implies (#[trigger] entries[j]).0@ != key by {
                    if j > 0 {
                        assert(rest[j - 1] == entries[j]);
                    }
                }
            } else {
                assert forall|i: int| 0 <= i < entries.len() implies (#[trigger] entries[i]).0@
                    != key by {
                    if i > 0 {
                        assert(rest[i - 1] == entries[i]);
                    }
                }
            }
        }
    }
}

/// A field may be missing where another one is there, and only objects have fields.
pub proof fn a_second_key_is_used_without_the_first(json: Json, key: Seq<char>, other: Seq<char>)
    ensures
        json.field(key) is Some ==> json.either(key, other) == json.field(key),
        json.field(key) is None ==> json.either(key, other) == json.field(other),
        json matches Json::Object(entries) ==> json.field(key) == value_at(entries@, key),
        json !is Object ==> json.field(key) is None,
{
}

/// A text, a truth value, a number and a list are read as what they are, and any other value as no
/// text, as the default, as no number and as no items.
pub proof fn values_are_read_as_what_they_are(
    text: String,
    flag: bool,
    number: Option<Decimal>,
    items: Vec<Json>,
    default: bool,
)
    ensures
        text_of(Some(Json::Text(text))) == text@,
        bool_of(Some(Json::Bool(flag)), default) == flag,
        number_of(Some(Json::Number(number))) == number,
        number_of(Some(Json::Text(text))) == crate::decimal::from_pair(
            crate::decimal::decimal_of_text(text@),
        ),
        items_of(Some(Json::Array(items))) == items@,
        text_of(None).len() == 0 && text_of(Some(Json::Bool(flag))).len() == 0 && text_of(
            Some(Json::Number(number)),
        ).len() == 0,
        bool_of(None, default) == default && bool_of(Some(Json::Text(text)), default) == default,
        number_of(None) is None && number_of(Some(Json::Bool(flag))) is None,
        items_of(None).len() == 0 && items_of(Some(Json::Text(text))).len() == 0,
{
}

/// An outcome is for Up if it says up, yes or higher, and else for Down if it says down, no or lower.
/// Any other is for neither.
pub proof fn outcomes_name_their_side(outcome: Seq<char>)
    ensures
        ({
            let up = contains_part(outcome, "up"@) || contains_part(outcome, "yes"@)
                || contains_part(outcome, "higher"@);
            let down = contains_part(outcome, "down"@) || contains_part(outcome, "no"@)
                || contains_part(outcome, "lower"@);
            &&& up ==> side_of(outcome) == Some(Side::Up)
            &&& !up && down ==> side_of(outcome) == Some(Side::Down)
            &&& !up && !down ==> side_of(outcome) is None
        }),
{
}

/// The ID for a side is that of the last token that is for it. Without such a token there is none.
pub proof fn the_last_token_of_a_side_counts(tokens: Seq<TokenState>, side: Side)
    ensures
        (forall|i: int| 0 <= i < tokens.len() ==> (#[trigger] tokens[i]).0 != Some(side)) ==> last_id(
            tokens,
            side,
        ).len() == 0,
        forall|i: int|
            #![trigger tokens[i]]
            0 <= i < tokens.len() && tokens[i].0 == Some(side) && (forall|j: int|
                i < j < tokens.len() ==> (#[trigger] tokens[j]).0 != Some(side)) ==> last_id(
                tokens,
                side,
            ) == tokens[i].1,
    decreases tokens.len(),
{
    if tokens.len() > 0 {
        let before = tokens.drop_last();
        the_last_token_of_a_side_counts(before, side);
        assert forall|i: int|
            #![trigger tokens[i]]
            0 <= i < tokens.len() && tokens[i].0 == Some(side) && (forall|j: int|
                i < j < tokens.len() ==> (#[trigger] tokens[j]).0 != Some(side)) implies last_id(
            tokens,
            side,
        ) == tokens[i].1 by {
            if i < tokens.len() - 1 {
                assert(tokens[tokens.len() - 1].0 != Some(side));
                assert(before[i] == tokens[i]);
                assert forall|j: int| i < j < before.len() implies (#[trigger] before[j]).0 != Some(
                    side,
                ) by {
                    assert(before[j] == tokens[j]);
                }
            }
        }
        if forall|i: int| 0 <= i < tokens.len() ==> (#[trigger] tokens[i]).0 != Some(side) {
            assert(tokens[tokens.len() - 1].0 != Some(side));
            assert forall|i: int| 0 <= i < before.len() implies (#[trigger] before[i]).0 != Some(
                side,
            ) by {
                assert(before[i] == tokens[i]);
            }
        }
    }
}

/// Of two tokens, one for Up and one for Down, each is taken for its side, in whatever order they
/// come. Two tokens for neither side are taken as Up and Down in their order.
pub proof fn two_tokens_are_taken_for_their_sides(
    first: TokenState,
    second: TokenState,
)
    requires
        first.1.len() > 0,
        second.1.len() > 0,
    ensures
        first.0 == Some(Side::Up) && second.0 == Some(Side::Down) ==> chosen_ids(
            seq![first, second],
        ) == Some((first.1, second.1)),
        first.0 == Some(Side::Down) && second.0 == Some(Side::Up) ==> chosen_ids(
            seq![first, second],
        ) == Some((second.1, first.1)),
        first.0 is None && second.0 is None ==> chosen_ids(seq![first, second]) == Some(
            (first.1, second.1),
        ),
        chosen_ids(seq![first]) is None,
        chosen_ids(Seq::empty()) is None,
{
    let (both, one) = (seq![first, second], seq![first]);
    assert(both.drop_last() =~= one);
    assert(one.drop_last() =~= Seq::empty());
    reveal_with_fuel(last_id, 3);
}

/// A market that an answer describes has the condition ID, the slug and the tokens of the answer, the
/// window that it was looked for, and no opening price.
pub proof fn markets_are_read_from_their_fields(
    json: Json,
    window_start: u64,
    window_end: u64,
    market: MarketState,
)
    requires
        market_in(json, window_start, window_end) == Some(market),
    ensures
        json.field("condition_id"@) is Some ==> market.condition_id == text_of(
            json.field("condition_id"@),
        ),
        json.field("condition_id"@) is None ==> market.condition_id == text_of(
            json.field("conditionId"@),
        ),
        market.slug == text_of(json.field("slug"@)),
        chosen_ids(
            items_of(json.field("tokens"@)).map_values(|token: Json| token_of(token)),
        ) == Some((market.up_token_id, market.down_token_id)),
        market.window_start == window_start,
        market.window_end == window_end,
        market.opening_price is None,
        market.active,
        json.field("active"@) != Some(Json::Bool(false)),
        json.field("closed"@) != Some(Json::Bool(true)),
{
}

/// A token has the side of its outcome in lower case, and the ID under either name.
pub proof fn tokens_are_read_from_their_fields(token: Json)
    ensures
        token_of(token).0 == side_of(
            crate::text::lowercase_of(text_of(token.field("outcome"@))),
        ),
        token.field("token_id"@) is Some ==> token_of(token).1 == text_of(token.field("token_id"@)),
        token.field("token_id"@) is None ==> token_of(token).1 == text_of(token.field("tokenId"@)),
{
}

/// A search finds the first market of the list that is an active five-minute BTC market: none before
/// it is one. Where it finds none, none of the list is one.
pub proof fn a_search_finds_the_first_market(list: Seq<Json>, window_start: u64, window_end: u64)
    ensures
        match first_market(list, window_start, window_end) {
            Some(market) => exists|i: int|
                0 <= i < list.len() && has_market_slug(#[trigger] list[i]) && market_in(
                    list[i],
                    window_start,
                    window_end,
                ) == Some(market) && forall|j: int|
                    0 <= j < i ==> !has_market_slug(#[trigger] list[j]) || market_in(
                        list[j],
                        window_start,
                        window_end,
                    ) is None,
            None => forall|i: int|
                0 <= i < list.len() ==> !has_market_slug(#[trigger] list[i]) || market_in(
                    list[i],
                    window_start,
                    window_end,
                ) is None,
        },
    decreases list.len(),
{
    if list.len() > 0 {
        let here = market_in(list[0], window_start, window_end);
        if here is Some && has_market_slug(list[0]) {
            assert(here == first_market(list, window_start, window_end));
        } else {
            let rest = list.skip(1);
            a_search_finds_the_first_market(rest, window_start, window_end);
            if let Some(market) = first_market(rest, window_start, window_end) {
                let i = choose|i: int|
                    0 <= i < rest.len() && has_market_slug(#[trigger] rest[i]) && market_in(
                        rest[i],
                        window_start,
                        window_end,
                    ) == Some(market) && forall|j: int|
                        0 <= j < i ==> !has_market_slug(#[trigger] rest[j]) || market_in(
                            rest[j],
                            window_start,
                            window_end,
                        ) is None;
                assert(list[i + 1] == rest[i]);
                assert forall|j: int| 0 <= j < i + 1 implies !has_market_slug(#[trigger] list[j])
                    || market_in(list[j], window_start, window_end) is None by {
                    if j > 0 {
                        assert(rest[j - 1] == list[j]);
                    }
                }
            } else {
                assert forall|i: int| 0 <= i < list.len() implies !has_market_slug(
                    #[trigger] list[i],
                ) || market_in(list[i], window_start, window_end) is None by {
                    if i > 0 {
                        assert(rest[i - 1] == list[i]);
                    }
                }
            }
        }
    }
}

/// The slug of a five-minute BTC market says both.
pub proof fn market_slugs_say_btc_and_5m(json: Json)
    ensures
        has_market_slug(json) <==> contains_part(text_of(json.field("slug"@)), "btc"@)
            && contains_part(text_of(json.field("slug"@)), "5m"@),
{
}

/// The markets of an answer are those of an array, or of an array under `data`. Without `data` the
/// answer is itself the only market, and with anything else under it there is an error.
pub proof fn answers_list_their_markets(body: Json)
    ensures
        body matches Json::Array(items) ==> listed(body) == Some(items@),
        body !is Array ==> (body.field("data"@) matches Some(Json::Array(items)) ==> listed(body)
            == Some(items@)),
        body !is Array && body.field("data"@) is None ==> listed(body) == Some(seq![body]),
        body !is Array && body.field("data"@) is Some && body.field("data"@)->0 !is Array
            ==> listed(body) is None,
{
}

/// Whether the three levels of a book lie at given distances from a fair value.
proof fn simulated_levels(fair: Decimal)
    requires
        is_fair_value(fair),
    ensures
        fair.plus(dec(25, 3)) matches Some(p) && p@ == fair@ + 25real / 1000real,
        fair.plus(dec(4, 2)) matches Some(p) && p@ == fair@ + 4real / 100real,
        fair.plus(dec(6, 2)) matches Some(p) && p@ == fair@ + 6real / 100real,
        fair.minus(dec(25, 3)) matches Some(p) && p@ == fair@ - 25real / 1000real,
        fair.minus(dec(4, 2)) matches Some(p) && p@ == fair@ - 4real / 100real,
        fair.minus(dec(6, 2)) matches Some(p) && p@ == fair@ - 6real / 100real,
        dec(1, 2)@ == 1real / 100real,
        dec(99, 2)@ == 99real / 100real,
        dec(50, 0)@ == 50real && dec(150, 0)@ == 150real && dec(300, 0)@ == 300real,
{
    value_of(25, 3);
    value_of(4, 2);
    value_of(6, 2);
    value_of(1, 2);
    value_of(99, 2);
    value_of(50, 0);
    value_of(150, 0);
    value_of(300, 0);
    small_numbers_are_exact(fair, dec(25, 3));
    small_numbers_are_exact(fair, dec(4, 2));
    small_numbers_are_exact(fair, dec(6, 2));
}

/// A simulated book has three bids and three asks, 2.5, 4 and 6 cents from the fair value, for 50, 150
/// and 300 shares. No bid is below a cent, and no ask above 99 cents.
pub proof fn simulated_books_lie_around_the_fair_value(book: OrderBook, fair: Decimal, now: i64)
    requires
        is_simulated(book, fair, now),
        is_fair_value(fair),
    ensures
        book.bids@.len() == 3 && book.asks@.len() == 3,
        book.bids@[0].price@ == max(fair@ - 25real / 1000real, 1real / 100real),
        book.bids@[1].price@ == max(fair@ - 4real / 100real, 1real / 100real),
        book.bids@[2].price@ == max(fair@ - 6real / 100real, 1real / 100real),
        book.asks@[0].price@ == min(fair@ + 25real / 1000real, 99real / 100real),
        book.asks@[1].price@ == min(fair@ + 4real / 100real, 99real / 100real),
        book.asks@[2].price@ == min(fair@ + 6real / 100real, 99real / 100real),
        book.bids@[0].size@ == 50real && book.asks@[0].size@ == 50real,
        book.bids@[1].size@ == 150real && book.asks@[1].size@ == 150real,
        book.bids@[2].size@ == 300real && book.asks@[2].size@ == 300real,
        book.timestamp == Some(now),
{
    simulated_levels(fair);
}

/// The simulated books for a BTC price lie around the fair values of their own sides: the Up book
/// around the fair value of Up, and the Down book around a dollar less that.
pub proof fn simulated_books_are_for_their_sides(
    before: SimulatedBooksState,
    after: SimulatedBooksState,
    btc_price: Decimal,
    remaining_secs: u64,
    model: ModelPrice,
    now: i64,
    fair: Decimal,
)
    requires
        books_updated(before, after, btc_price, remaining_secs, model, now, Ok(())),
        fair == fair_up(btc_price, before.opening_price, dec(45, 2), remaining_secs, model),
        is_fair_value(fair),
    ensures
        after.books.up_book.bids@[0].price@ == max(fair@ - 25real / 1000real, 1real / 100real),
        after.books.up_book.asks@[0].price@ == min(fair@ + 25real / 1000real, 99real / 100real),
        after.books.down_book.bids@[0].price@ == max(
            1real - fair@ - 25real / 1000real,
            1real / 100real,
        ),
        after.books.down_book.asks@[0].price@ == min(
            1real - fair@ + 25real / 1000real,
            99real / 100real,
        ),
        after.opening_price == before.opening_price,
{
    value_of(1, 0);
    small_numbers_are_exact(dec(1, 0), fair);
    let fair_down = dec(1, 0).minus(fair)->0;
    simulated_books_lie_around_the_fair_value(after.books.up_book, fair, now);
    simulated_books_lie_around_the_fair_value(after.books.down_book, fair_down, now);
}

/// The tick of a trade has the price of the trade and comes from Binance. It has the time of the trade,
/// unless that is out of range.
pub proof fn trades_become_ticks(price: Decimal, trade_time: u64, now: i64)
    ensures
        ({
            let tick = crate::feeds::binance::trade_tick(price, trade_time, now);
            &&& tick.price == price
            &&& tick.source == crate::types::PriceSource::Binance
            &&& tick.timestamp == if crate::clock::is_time(trade_time as i64) {
                trade_time as i64
            } else {
                now
            }
        }),
{
}

/// A simulated price is the initial price with the deviation, and the initial price without one.
pub proof fn simulated_prices_deviate_from_the_first(initial: Decimal, deviation: Option<Decimal>)
    requires
        deviation matches Some(delta) ==> adds_exactly(initial, delta),
        initial.is_decimal(),
    ensures
        simulated_price(initial, deviation) matches Some(price) && price@ == initial@
            + match deviation {
            Some(delta) => delta@,
            None => 0real,
        },
{
    value_of(0, 0);
    if let Some(delta) = deviation {
        kept_sum_is_exact(initial, delta);
    } else {
        kept_sum_is_exact(initial, dec(0, 0));
    }
}

/// A session ends once it traded as many windows as it should, if there is such a limit, and else
/// when trading is halted. Otherwise the next window follows when the time that is left has passed.
pub proof fn the_next_window_follows_the_last(
    max_windows: u64,
    windows_traded: u64,
    halted: bool,
    remaining: i64,
)
    ensures
        match next_window_after(max_windows, windows_traded, halted, remaining) {
            NextWindow::LimitReached => max_windows > 0 && windows_traded >= max_windows,
            NextWindow::Halted => halted && (max_windows == 0 || windows_traded < max_windows),
            NextWindow::After(secs) => !halted && (max_windows == 0 || windows_traded < max_windows)
                && secs == if remaining > 0 {
                remaining as int
            } else {
                0
            },
        },
{
}

/// Where no market was found, the wait reaches a second beyond the end of the window.
pub proof fn a_retry_waits_for_the_next_window(window_end: u64, now: u64)
    requires
        window_end - now < u64::MAX,
    ensures
        now < window_end ==> now + wait_after(window_end, now) == window_end + 1,
        window_end <= now ==> wait_after(window_end, now) == 0,
{
}

/// A simulated window holds the time that it is for, starts at a multiple of its length, and lasts as
/// long as asked for, but a second at least.
pub proof fn simulated_windows_hold_the_time(now: u64, window_secs: u64)
    ensures
        ({
            let (start, end) = simulated_window_of(now, window_secs);
            let length = if window_secs == 0 {
                1int
            } else {
                window_secs as int
            };
            &&& start <= now < end
            &&& end - start == length
            &&& start % length == 0
        }),
{
    let length = if window_secs == 0 {
        1int
    } else {
        window_secs as int
    };
    let n = now as int;
    assert(0 <= n % length < length && (n - n % length) % length == 0) by (nonlinear_arith)
        requires
            length > 0,
            n >= 0,
    {
        vstd::arithmetic::div_mod::lemma_fundamental_div_mod(n, length);
        vstd::arithmetic::div_mod::lemma_mod_multiples_basic(n / length, length);
        assert(n - n % length == (n / length) * length) by (nonlinear_arith)
            requires
                n == length * (n / length) + n % length,
        ;
    }
}

/// A simulated market is active, for its window and with the opening price that is given.
pub proof fn simulated_markets_are_for_their_window(
    window_start: u64,
    window_end: u64,
    opening_price: Option<Decimal>,
)
    ensures
        ({
            let market = simulated_market_of(window_start, window_end, opening_price);
            let number = crate::text::digits_of(window_start as nat);
            &&& market.window_start == window_start && market.window_end == window_end
            &&& market.opening_price == opening_price && market.active
            &&& market.slug == "btc-updown-5m-"@ + number
            &&& market.condition_id == "sim-condition-"@ + number
            &&& market.up_token_id == "sim-up-"@ + number
            &&& market.down_token_id == "sim-down-"@ + number
        }),
{
}

/// The speed of a simulation is the one that is asked for, but one at least.
pub proof fn a_simulation_is_not_slowed_down(args: CliArgs)
    ensures
        args.sim_speed >= 1 ==> args.speed() == args.sim_speed,
        args.sim_speed == 0 ==> args.speed() == 1,
{
}

} // verus!
