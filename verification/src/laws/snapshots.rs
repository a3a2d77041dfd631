//! What a snapshot of the market shows, and what order books say.

use vstd::prelude::*;
use crate::decimal::Decimal;
use crate::decimal::{adds_exactly, dec, subtracts_exactly};
use crate::decimal::{kept_difference_is_exact, kept_sum_is_exact};
use crate::feeds::polymarket::MarketBooks;
use crate::laws::numbers::{max, min, value_of};
use crate::pricing::{ModelPrice, fair_up};
use crate::rules::{MarketSnapshot, snapshot_of};
use crate::types::{BookLevel, OrderBook, no_price_is_higher, no_price_is_lower};

verus! {

/// Whether a price is the lowest of some levels. Without levels there is none.
pub open spec fn is_lowest(price: Option<Decimal>, levels: Seq<BookLevel>) -> bool {
    match price {
        Some(best) => (exists|i: int| 0 <= i < levels.len() && (#[trigger] levels[i]).price == best)
            && forall|i: int| 0 <= i < levels.len() ==> best@ <= (#[trigger] levels[i]).price@,
        None => levels.len() == 0,
    }
}

/// Whether a price is the highest of some levels. Without levels there is none.
pub open spec fn is_highest(price: Option<Decimal>, levels: Seq<BookLevel>) -> bool {
    match price {
        Some(best) => (exists|i: int| 0 <= i < levels.len() && (#[trigger] levels[i]).price == best)
            && forall|i: int| 0 <= i < levels.len() ==> (#[trigger] levels[i]).price@ <= best@,
        None => levels.len() == 0,
    }
}

/// The best ask of a book is its lowest ask, and the best bid its highest bid. The middle lies
/// halfway between the two, and the spread is the distance between them.
pub proof fn books_show_their_best_prices(book: OrderBook)
    ensures
        is_lowest(book.ask(), book.asks@),
        is_highest(book.bid(), book.bids@),
        book.asks@.len() == 0 && book.bids@.len() == 0 ==> book.middle() == Some(None::<Decimal>),
        book.asks@.len() == 0 ==> book.middle() == Some(book.bid()) && book.gap() == Some(
            None::<Decimal>,
        ),
        book.bids@.len() == 0 ==> book.middle() == Some(book.ask()) && book.gap() == Some(
            None::<Decimal>,
        ),
{
    no_price_is_lower(book.asks@);
    no_price_is_higher(book.bids@);
}

/// Where a book has bids and asks, the spread is the best ask less the best bid, and the middle is
/// as far from the one as from the other.
pub proof fn the_middle_lies_between_bid_and_ask(
    book: OrderBook,
    bid: Decimal,
    ask: Decimal,
    middle: Decimal,
    gap: Decimal,
)
    requires
        is_highest(Some(bid), book.bids@),
        is_lowest(Some(ask), book.asks@),
        book.bid() == Some(bid),
        book.ask() == Some(ask),
        adds_exactly(bid, ask),
        subtracts_exactly(ask, bid),
        bid.plus(ask) matches Some(total) && total.divides_evenly(dec(2, 0)),
        book.middle() == Some(Some(middle)),
        book.gap() == Some(Some(gap)),
    ensures
        gap@ == ask@ - bid@,
        middle@ - bid@ == ask@ - middle@,
{
    broadcast use crate::decimal::parts_of_dec;

    value_of(2, 0);
    value_of(0, 0);
    kept_sum_is_exact(bid, ask);
    kept_difference_is_exact(ask, bid);
    let total = bid.plus(ask)->0;
    if total.mantissa_int() != 0 {
        let (m, p) = (total.mantissa_int(), crate::decimal::pow10(total.scale_nat()) as real);
        crate::decimal::pow10_is_positive(total.scale_nat());
        assert(m == 2 * (m / 2));
        let half = (m / 2) as real;
        assert(m as real == 2real * half);
        assert((2real * half) / p == 2real * (half / p)) by (nonlinear_arith)
            requires
                p > 0real,
        ;
    } else {
        crate::decimal::sign_is_that_of_the_mantissa(total);
    }
}

/// In live mode the best ask and the best bid of each side in a snapshot are the lowest ask and the
/// highest bid of that same side's own book.
pub proof fn live_snapshots_show_the_own_books(
    btc_price: Decimal,
    opening_price: Decimal,
    remaining_secs: u64,
    sigma: Decimal,
    fair_value_up: Decimal,
    books: MarketBooks,
    snapshot: MarketSnapshot,
)
    requires
        snapshot_of(
            false,
            btc_price,
            opening_price,
            remaining_secs,
            sigma,
            fair_value_up,
            books,
        ) == Some(snapshot),
    ensures
        is_lowest(snapshot.up_best_ask, books.up_book.asks@),
        is_highest(snapshot.up_best_bid, books.up_book.bids@),
        is_lowest(snapshot.down_best_ask, books.down_book.asks@),
        is_highest(snapshot.down_best_bid, books.down_book.bids@),
{
    books_show_their_best_prices(books.up_book);
    books_show_their_best_prices(books.down_book);
}

/// A snapshot shows the prices, the time and the volatility that it is made of, and fair values of
/// both sides that are together a dollar.
pub proof fn snapshots_show_what_they_are_made_of(
    dry_run: bool,
    btc_price: Decimal,
    opening_price: Decimal,
    remaining_secs: u64,
    sigma: Decimal,
    fair_value_up: Decimal,
    books: MarketBooks,
    snapshot: MarketSnapshot,
)
    requires
        snapshot_of(
            dry_run,
            btc_price,
            opening_price,
            remaining_secs,
            sigma,
            fair_value_up,
            books,
        ) == Some(snapshot),
        subtracts_exactly(dec(1, 0), fair_value_up),
    ensures
        snapshot.btc_price == btc_price,
        snapshot.opening_price == opening_price,
        snapshot.remaining_secs == remaining_secs,
        snapshot.sigma == sigma,
        snapshot.fair_value_up == fair_value_up,
        snapshot.fair_value_up@ + snapshot.fair_value_down@ == 1real,
{
    value_of(1, 0);
    kept_difference_is_exact(dec(1, 0), fair_value_up);
}

/// In dry-run mode the best ask of each side is two and a half cents above the fair value of that
/// same side, and 99 cents at most; the best bid is two and a half cents below it, and a cent at
/// least. The books do not matter.
pub proof fn dry_run_snapshots_quote_around_the_fair_values(
    btc_price: Decimal,
    opening_price: Decimal,
    remaining_secs: u64,
    sigma: Decimal,
    fair_value_up: Decimal,
    books: MarketBooks,
    snapshot: MarketSnapshot,
)
    requires
        snapshot_of(
            true,
            btc_price,
            opening_price,
            remaining_secs,
            sigma,
            fair_value_up,
            books,
        ) == Some(snapshot),
        fair_value_up.is_decimal(),
        0real <= fair_value_up@ <= 1real,
    ensures
        ({
            let (up, down) = (fair_value_up@, 1real - fair_value_up@);
            let spread = 25real / 1000real;
            &&& snapshot.up_best_ask matches Some(ask) && ask@ == min(up + spread, 99real / 100real)
            &&& snapshot.down_best_ask matches Some(ask) && ask@ == min(
                down + spread,
                99real / 100real,
            )
            &&& snapshot.up_best_bid matches Some(bid) && bid@ == max(up - spread, 1real / 100real)
            &&& snapshot.down_best_bid matches Some(bid) && bid@ == max(
                down - spread,
                1real / 100real,
            )
        }),
{
    value_of(1, 0);
    crate::decimal::small_numbers_are_exact(dec(1, 0), fair_value_up);
    let fair_value_down = dec(1, 0).minus(fair_value_up)->0;
    quotes_lie_around(fair_value_up);
    quotes_lie_around(fair_value_down);
}

/// The simulated quotes for a fair value from nothing to a dollar.
pub proof fn quotes_lie_around(fair_value: Decimal)
    requires
        fair_value.is_decimal(),
        0real <= fair_value@ <= 1real,
    ensures
        crate::rules::simulated_ask(fair_value) matches Some(ask) && ask.is_decimal() && ask@
            == min(fair_value@ + 25real / 1000real, 99real / 100real),
        crate::rules::simulated_bid(fair_value) matches Some(bid) && bid.is_decimal() && bid@
            == max(fair_value@ - 25real / 1000real, 1real / 100real),
{
    value_of(1, 2);
    value_of(25, 3);
    value_of(99, 2);
    crate::decimal::small_numbers_are_exact(fair_value, dec(25, 3));
}

/// The fair value of Up is what the model says of it. Once no time is left, or the model says that
/// so little is left that only the payoff counts, it is a dollar if BTC is above the opening price,
/// nothing if it is below, and half a dollar if it is at that price. Without an opening price, a
/// volatility or a number from the model, it is half a dollar.
pub proof fn the_fair_value_is_the_probability(
    spot: Decimal,
    strike: Decimal,
    sigma: Decimal,
    remaining_secs: u64,
    model: ModelPrice,
)
    ensures
        ({
            let fair_value = fair_up(spot, strike, sigma, remaining_secs, model);
            let payoff = if spot@ > strike@ {
                1real
            } else if spot@ < strike@ {
                0real
            } else {
                1real / 2real
            };
            &&& remaining_secs == 0 ==> fair_value@ == payoff
            &&& remaining_secs > 0 && (strike@ == 0real || sigma@ == 0real) ==> fair_value@ == 1real
                / 2real
            &&& remaining_secs > 0 && strike@ != 0real && sigma@ != 0real ==> match model {
                ModelPrice::Expired => fair_value@ == payoff,
                ModelPrice::Probability(p) => fair_value == p,
                ModelPrice::Undefined => fair_value@ == 1real / 2real,
            }
        }),
{
    broadcast use crate::decimal::sign_is_that_of_the_mantissa;

    value_of(0, 0);
    value_of(1, 0);
    value_of(5, 1);
    assert(5real / 10real == 1real / 2real);
}

} // verus!
