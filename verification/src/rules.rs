//! The trading rules: what to bid, and when to buy.

use vstd::prelude::*;
use crate::config::Config;
use crate::decimal::{ArithmeticError, Decimal};
use crate::decimal::{dec, has_room, larger, quotient_of, smaller};
use crate::decimal::{kept_difference_is_exact, opposites_differ_by_the_sign, pow10};
use crate::decimal::{is_rounded, rounding_is_close, subtracts_exactly};
use crate::feeds::polymarket::MarketBooks;
use crate::pricing::complement;
use crate::types::{BookLevel, OrderBook, Position, Side};
use crate::types::{highest_price, lowest_price};

verus! {

/// The state of the market at a moment.
#[derive(Debug, Clone, Copy)]
pub struct MarketSnapshot {
    pub btc_price: Decimal,
    pub opening_price: Decimal,
    pub remaining_secs: u64,
    pub up_best_ask: Option<Decimal>,
    pub down_best_ask: Option<Decimal>,
    pub up_best_bid: Option<Decimal>,
    pub down_best_bid: Option<Decimal>,
    pub fair_value_up: Decimal,
    pub fair_value_down: Decimal,
    pub sigma: Decimal,
}

impl MarketSnapshot {
    /// The fair value of a side.
    pub open spec fn fair(self, side: Side) -> Decimal {
        match side {
            Side::Up => self.fair_value_up,
            Side::Down => self.fair_value_down,
        }
    }

    /// The best ask of a side.
    pub open spec fn ask(self, side: Side) -> Option<Decimal> {
        match side {
            Side::Up => self.up_best_ask,
            Side::Down => self.down_best_ask,
        }
    }

    /// The best bid of a side.
    pub open spec fn bid(self, side: Side) -> Option<Decimal> {
        match side {
            Side::Up => self.up_best_bid,
            Side::Down => self.down_best_bid,
        }
    }

    /// The fair value of a side.
    pub fn fair_value(&self, side: Side) -> (r: Decimal)
        ensures
            r == self.fair(side),
    {
        match side {
            Side::Up => self.fair_value_up,
            Side::Down => self.fair_value_down,
        }
    }

    /// The best ask of a side.
    pub fn best_ask(&self, side: Side) -> (r: Option<Decimal>)
        ensures
            r == self.ask(side),
    {
        match side {
            Side::Up => self.up_best_ask,
            Side::Down => self.down_best_ask,
        }
    }

    /// The best bid of a side.
    pub fn best_bid(&self, side: Side) -> (r: Option<Decimal>)
        ensures
            r == self.bid(side),
    {
        match side {
            Side::Up => self.up_best_bid,
            Side::Down => self.down_best_bid,
        }
    }
}

/// The simulated ask for a fair value: a little above it, and at most 99 cents.
pub open spec fn simulated_ask(fair: Decimal) -> Option<Decimal> {
    match fair.plus(dec(25, 3)) {
        Some(ask) => Some(smaller(ask, dec(99, 2))),
        None => None,
    }
}

/// The simulated bid for a fair value: a little below it, and at least one cent.
pub open spec fn simulated_bid(fair: Decimal) -> Option<Decimal> {
    match fair.minus(dec(25, 3)) {
        Some(bid) => Some(larger(bid, dec(1, 2))),
        None => None,
    }
}

/// The simulated ask for a fair value.
pub fn ask_for(fair: Decimal) -> (r: Result<Decimal, ArithmeticError>)
    ensures
        r.ok() == simulated_ask(fair),
        has_room(fair@ + dec(25, 3)@) ==> r is Ok,
{
    Ok(fair.checked_add(Decimal::new(25, 3))?.min(Decimal::new(99, 2)))
}

/// The simulated bid for a fair value.
pub fn bid_for(fair: Decimal) -> (r: Result<Decimal, ArithmeticError>)
    ensures
        r.ok() == simulated_bid(fair),
        has_room(fair@ - dec(25, 3)@) ==> r is Ok,
{
    Ok(fair.checked_sub(Decimal::new(25, 3))?.max(Decimal::new(1, 2)))
}

/// The state of the market for a fair value of the Up side. In dry-run mode the asks and bids
/// follow from the fair values; else they are those of the books.
pub open spec fn snapshot_of(
    dry_run: bool,
    btc_price: Decimal,
    opening_price: Decimal,
    remaining_secs: u64,
    sigma: Decimal,
    fair_up: Decimal,
    books: MarketBooks,
) -> Option<MarketSnapshot> {
    match complement(fair_up) {
        Some(fair_down) => {
            let base = MarketSnapshot {
                btc_price,
                opening_price,
                remaining_secs,
                up_best_ask: books.up_book.ask(),
                down_best_ask: books.down_book.ask(),
                up_best_bid: books.up_book.bid(),
                down_best_bid: books.down_book.bid(),
                fair_value_up: fair_up,
                fair_value_down: fair_down,
                sigma,
            };
            if !dry_run {
                Some(base)
            } else {
                match (
                    simulated_ask(fair_up),
                    simulated_ask(fair_down),
                    simulated_bid(fair_up),
                    simulated_bid(fair_down),
                ) {
                    (Some(up_ask), Some(down_ask), Some(up_bid), Some(down_bid)) => Some(
                        MarketSnapshot {
                            up_best_ask: Some(up_ask),
                            down_best_ask: Some(down_ask),
                            up_best_bid: Some(up_bid),
                            down_best_bid: Some(down_bid),
                            ..base
                        },
                    ),
                    _ => None,
                }
            }
        },
        None => None,
    }
}

/// The state of the market for a fair value of the Up side.
pub fn market_snapshot(
    dry_run: bool,
    btc_price: Decimal,
    opening_price: Decimal,
    remaining_secs: u64,
    sigma: Decimal,
    fair_up: Decimal,
    books: &MarketBooks,
) -> (r: Result<MarketSnapshot, ArithmeticError>)
    ensures
        r.ok() == snapshot_of(
            dry_run,
            btc_price,
            opening_price,
            remaining_secs,
            sigma,
            fair_up,
            *books,
        ),
{
    let fair_down = Decimal::new(1, 0).checked_sub(fair_up)?;
    if dry_run {
        let up_ask = ask_for(fair_up)?;
        let down_ask = ask_for(fair_down)?;
        let up_bid = bid_for(fair_up)?;
        let down_bid = bid_for(fair_down)?;
        Ok(
            MarketSnapshot {
                btc_price,
                opening_price,
                remaining_secs,
                up_best_ask: Some(up_ask),
                down_best_ask: Some(down_ask),
                up_best_bid: Some(up_bid),
                down_best_bid: Some(down_bid),
                fair_value_up: fair_up,
                fair_value_down: fair_down,
                sigma,
            },
        )
    } else {
        Ok(
            MarketSnapshot {
                btc_price,
                opening_price,
                remaining_secs,
                up_best_ask: books.up_book.best_ask(),
                down_best_ask: books.down_book.best_ask(),
                up_best_bid: books.up_book.best_bid(),
                down_best_bid: books.down_book.best_bid(),
                fair_value_up: fair_up,
                fair_value_down: fair_down,
                sigma,
            },
        )
    }
}

/// A simulated order book with one level on each side.
pub fn simulated_book(fair: Decimal, now: i64) -> (r: Result<OrderBook, ArithmeticError>)
    ensures
        match (simulated_bid(fair), simulated_ask(fair)) {
            (Some(bid), Some(ask)) => r is Ok && r->Ok_0.bids@ == seq![
                BookLevel { price: bid, size: dec(500, 0) },
            ] && r->Ok_0.asks@ == seq![BookLevel { price: ask, size: dec(500, 0) }]
                && r->Ok_0.timestamp == Some(now) && r->Ok_0.bid() == Some(bid) && r->Ok_0.ask()
                == Some(ask),
            _ => r is Err,
        },
{
    let bid = bid_for(fair)?;
    let ask = ask_for(fair)?;
    let mut bids: Vec<BookLevel> = Vec::new();
    bids.push(BookLevel { price: bid, size: Decimal::new(500, 0) });
    let mut asks: Vec<BookLevel> = Vec::new();
    asks.push(BookLevel { price: ask, size: Decimal::new(500, 0) });
    proof {
        reveal_with_fuel(highest_price, 2);
        reveal_with_fuel(lowest_price, 2);
    }
    Ok(OrderBook { bids, asks, timestamp: Some(now) })
}

/// The most to bid for a side. Once the other side is held, it is what the target leaves after the
/// average cost of the other side; before, it is the limit for a single side.
pub open spec fn bid_limit(config: Config, other: Position, target_combined: Decimal) -> Option<
    Decimal,
> {
    if other.shares@ > 0real {
        target_combined.minus(other.avg_cost)
    } else {
        Some(config.max_side_price)
    }
}

/// The bid for a side: up to three cents above the fair value, within the limit, and between one
/// cent and the limit for a single side.
pub open spec fn bid_price(
    config: Config,
    fair_value: Decimal,
    other: Position,
    target_combined: Decimal,
) -> Option<Decimal> {
    match (bid_limit(config, other, target_combined), fair_value.plus(dec(3, 2))) {
        (Some(limit), Some(most)) => Some(
            smaller(larger(smaller(limit, most), dec(1, 2)), config.max_side_price),
        ),
        _ => None,
    }
}

/// The limit bid price for a side, given the position of the other side.
pub fn calculate_bid_price(
    config: &Config,
    side: Side,
    snapshot: &MarketSnapshot,
    other_side_pos: &Position,
    target_combined: Decimal,
) -> (r: Result<Decimal, ArithmeticError>)
    ensures
        r.ok() == bid_price(*config, snapshot.fair(side), *other_side_pos, target_combined),
        r matches Ok(bid) ==> bid@ <= config.max_side_price@,
        r matches Ok(bid) ==> other_side_pos.shares@ > 0real && dec(1, 2)@ < bid@ ==> exists|
            limit: Decimal,
        | #[trigger]
            is_rounded(limit, target_combined@ - other_side_pos.avg_cost@) && bid@ <= limit@,
        r matches Ok(bid) ==> dec(1, 2)@ < bid@ ==> match side {
            Side::Up => exists|most: Decimal| #[trigger]
                is_rounded(most, snapshot.fair_value_up@ + dec(3, 2)@) && bid@ <= most@,
            Side::Down => exists|most: Decimal| #[trigger]
                is_rounded(most, snapshot.fair_value_down@ + dec(3, 2)@) && bid@ <= most@,
        },
{
    let fair_value = snapshot.fair_value(side);
    let max_bid = if other_side_pos.shares > Decimal::whole(0) {
        target_combined.checked_sub(other_side_pos.avg_cost)?
    } else {
        config.max_side_price
    };
    let most = fair_value.checked_add(Decimal::new(3, 2))?;
    let bid = max_bid.min(most);
    Ok(bid.max(Decimal::new(1, 2)).min(config.max_side_price))
}

/// The seconds that are left, of at most the 300 of a window.
pub open spec fn window_part(remaining_secs: u64) -> int {
    if remaining_secs < 300 {
        remaining_secs as int
    } else {
        300
    }
}

/// The lowest fair value at which a side is bought: 20 cents at the start of a window, rising
/// linearly to 34 cents at its end, rounded to the hundredth of a cent.
pub open spec fn lowest_fair(remaining_secs: u64) -> Decimal {
    dec((10201 - 14 * window_part(remaining_secs)) / 3, 4)
}

/// The highest fair value at which a side is bought: 80 cents at the start of a window, falling
/// linearly to 66 cents at its end, rounded to the hundredth of a cent.
pub open spec fn highest_fair(remaining_secs: u64) -> Decimal {
    dec((19801 + 14 * window_part(remaining_secs)) / 3, 4)
}

/// The relative move of BTC since the opening.
pub open spec fn btc_move(snapshot: MarketSnapshot) -> Option<Decimal> {
    if snapshot.opening_price@ > 0real {
        quotient_of(
            snapshot.btc_price.minus(snapshot.opening_price),
            Some(snapshot.opening_price),
        )
    } else {
        Some(dec(0, 0))
    }
}

/// A difference with the opposite sign, if there is one.
pub open spec fn opposite_of(a: Option<Decimal>) -> Option<Decimal> {
    match a {
        Some(d) => Some(d.negated()),
        None => None,
    }
}

/// Whether two states of the market mirror each other: the fair values are exchanged, BTC moved by
/// as much in the other direction, and the opening price and the time are the same. Without an
/// opening price above zero the move of BTC does not matter.
pub open spec fn mirrors(a: MarketSnapshot, b: MarketSnapshot) -> bool {
    &&& a.fair_value_up == b.fair_value_down
    &&& a.fair_value_down == b.fair_value_up
    &&& a.opening_price == b.opening_price
    &&& a.remaining_secs == b.remaining_secs
    &&& a.opening_price@ <= 0real || a.btc_price.minus(a.opening_price) == opposite_of(
        b.btc_price.minus(b.opening_price),
    )
}

/// Whether a side is the cheap one: Up unless BTC rose, and Down unless BTC fell, by 0.03% or more.
pub open spec fn is_cheap(side: Side, delta: Decimal) -> bool {
    match side {
        Side::Up => delta@ < dec(3, 4)@,
        Side::Down => delta@ > dec(-3, 4)@,
    }
}

/// Whether a bid is more than two cents below the fair value.
pub open spec fn is_bargain(bid: Decimal, fair_value: Decimal) -> Option<bool> {
    match fair_value.minus(dec(2, 2)) {
        Some(limit) => Some(bid@ < limit@),
        None => None,
    }
}

/// Whether the price of a bid is one that may be paid at all.
pub open spec fn is_payable(config: Config, bid: Decimal) -> bool {
    dec(1, 2)@ <= bid@ && bid@ <= dec(99, 2)@ && bid@ <= config.max_side_price@
}

/// Whether a fair value is within the band for the time that is left.
pub open spec fn is_in_band(fair_value: Decimal, remaining_secs: u64) -> bool {
    lowest_fair(remaining_secs)@ <= fair_value@ && fair_value@ <= highest_fair(remaining_secs)@
}

/// Whether to buy as far as the end of the window allows: not in the last 60 seconds, in the last
/// 90 only the side below 45 cents, and in the last 120 only bargains.
pub open spec fn winds_down(fair_value: Decimal, bid: Decimal, remaining_secs: u64) -> Option<
    bool,
> {
    if remaining_secs < 60 {
        Some(true)
    } else if remaining_secs < 90 && fair_value@ >= dec(45, 2)@ {
        Some(true)
    } else if remaining_secs < 120 {
        match is_bargain(bid, fair_value) {
            Some(bargain) => Some(!bargain),
            None => None,
        }
    } else {
        Some(false)
    }
}

/// Whether to buy a side at a given bid. `None` stands for a number that does not fit.
pub open spec fn buys(config: Config, side: Side, bid: Decimal, snapshot: MarketSnapshot) -> Option<
    bool,
> {
    let fair_value = snapshot.fair(side);
    if !is_payable(config, bid) {
        Some(false)
    } else {
        match fair_value.plus(dec(3, 2)) {
            Some(most) => if bid@ > most@ || !is_in_band(fair_value, snapshot.remaining_secs) {
                Some(false)
            } else {
                match winds_down(fair_value, bid, snapshot.remaining_secs) {
                    Some(stops) => if stops {
                        Some(false)
                    } else {
                        match btc_move(snapshot) {
                            Some(delta) => if is_cheap(side, delta) {
                                Some(true)
                            } else {
                                is_bargain(bid, fair_value)
                            },
                            None => None,
                        }
                    },
                    None => None,
                }
            },
            None => None,
        }
    }
}

/// The relative move of BTC since the opening.
fn btc_delta(snapshot: &MarketSnapshot) -> (r: Result<Decimal, ArithmeticError>)
    ensures
        r.ok() == btc_move(*snapshot),
        r matches Ok(delta) ==> delta.is_decimal(),
        forall|mirrored: MarketSnapshot| #[trigger]
            mirrors(mirrored, *snapshot) ==> btc_move(mirrored) == opposite_of(r.ok()),
{
    broadcast use crate::decimal::parts_of_dec;

    if snapshot.opening_price > Decimal::whole(0) {
        let change = snapshot.btc_price.checked_sub(snapshot.opening_price)?;
        let delta = change.checked_div(snapshot.opening_price)?;
        proof {
            rounding_is_close(delta, change@ / snapshot.opening_price@);
        }
        Ok(delta)
    } else {
        Ok(Decimal::whole(0))
    }
}

/// A side is cheap after a move exactly if the other side is after the opposite move.
proof fn cheapness_is_mirrored(side: Side, delta: Decimal)
    requires
        delta.is_decimal(),
    ensures
        is_cheap(side.other(), delta.negated()) == is_cheap(side, delta),
{
    broadcast use crate::decimal::parts_of_dec;

    opposites_differ_by_the_sign(delta);
    opposites_differ_by_the_sign(dec(3, 4));
    assert(dec(3, 4).negated() == dec(-3, 4));
}

/// A price that lies as far from the opening price on the other side, twice the opening price less
/// the price, moved by as much in the other direction. This holds unless that price is zero or a
/// number on the way had to be rounded.
pub proof fn mirrored_prices_move_the_other_way(
    btc_price: Decimal,
    opening_price: Decimal,
    twice: Decimal,
    mirrored: Decimal,
)
    requires
        0real < opening_price@,
        mirrored@ != 0real,
        opening_price.is_decimal(),
        opening_price.keeps_product(dec(2, 0)),
        opening_price.times(dec(2, 0)) == Some(twice),
        subtracts_exactly(twice, btc_price),
        twice.minus(btc_price) == Some(mirrored),
        subtracts_exactly(btc_price, opening_price),
    ensures
        mirrored.minus(opening_price) == opposite_of(btc_price.minus(opening_price)),
{
    broadcast use {crate::decimal::parts_of_dec, crate::decimal::sign_is_that_of_the_mantissa};

    assert(twice.scale_nat() == opening_price.scale_nat());
    if btc_price.mantissa_int() == 0 {
        let own = opening_price.scale_nat();
        assert(mirrored.at_scale(own) == 2 * opening_price.mantissa_int() * pow10(0));
        assert(opening_price.at_scale(own) == opening_price.mantissa_int() * pow10(0));
    } else {
        let scale = btc_price.common_scale(opening_price);
        let m = opening_price.mantissa_int();
        let p = pow10((scale - opening_price.scale_nat()) as nat);
        assert((2 * m) * p == 2 * (m * p)) by (nonlinear_arith);
        assert(twice.at_scale(scale) == 2 * opening_price.at_scale(scale));
        assert(mirrored.at_scale(scale) == mirrored.mantissa_int() * pow10(0));
    }
}

/// Whether to place a buy order for a side at a given bid, which is below the ask.
pub fn should_buy(config: &Config, side: Side, our_bid: Decimal, snapshot: &MarketSnapshot) -> (r: Result<
    bool,
    ArithmeticError,
>)
    ensures
        r.ok() == buys(*config, side, our_bid, *snapshot),
        // Both sides are treated alike.
        forall|mirrored: MarketSnapshot| #[trigger]
            mirrors(mirrored, *snapshot) ==> buys(*config, side.other(), our_bid, mirrored)
                == r.ok(),
{
    if our_bid < Decimal::new(1, 2) || our_bid > Decimal::new(99, 2) {
        return Ok(false);
    }
    if our_bid > config.max_side_price {
        return Ok(false);
    }
    let fair_value = snapshot.fair_value(side);
    let most = fair_value.checked_add(Decimal::new(3, 2))?;
    if our_bid > most {
        return Ok(false);
    }
    let part: i64 = if snapshot.remaining_secs < 300 {
        snapshot.remaining_secs as i64
    } else {
        300
    };
    let min_fv = Decimal::new((10201 - 14 * part) / 3, 4);
    let max_fv = Decimal::new((19801 + 14 * part) / 3, 4);
    if fair_value > max_fv || fair_value < min_fv {
        return Ok(false);
    }
    if snapshot.remaining_secs < 60 {
        return Ok(false);
    }
    if snapshot.remaining_secs < 90 {
        if fair_value >= Decimal::new(45, 2) {
            return Ok(false);
        }
    }
    if snapshot.remaining_secs < 120 {
        let bargain = fair_value.checked_sub(Decimal::new(2, 2))?;
        if our_bid >= bargain {
            return Ok(false);
        }
    }
    let delta = btc_delta(snapshot)?;
    proof {
        cheapness_is_mirrored(side, delta);
    }
    let cheap_side = match side {
        Side::Up => delta < Decimal::new(3, 4),
        Side::Down => delta > Decimal::new(-3, 4),
    };
    if !cheap_side {
        let bargain = fair_value.checked_sub(Decimal::new(2, 2))?;
        return Ok(our_bid < bargain);
    }
    Ok(true)
}

/// Nothing is bought in the last minute, outside the price range, above the limit for a single
/// side, or more than three cents above the fair value.
pub proof fn purchases_are_within_limits(
    config: Config,
    side: Side,
    bid: Decimal,
    snapshot: MarketSnapshot,
)
    requires
        buys(config, side, bid, snapshot) == Some(true),
    ensures
        60 <= snapshot.remaining_secs,
        dec(1, 2)@ <= bid@ <= dec(99, 2)@,
        bid@ <= config.max_side_price@,
        snapshot.fair(side).plus(dec(3, 2)) matches Some(most) && bid@ <= most@,
        is_in_band(snapshot.fair(side), snapshot.remaining_secs),
        snapshot.remaining_secs < 90 ==> snapshot.fair(side)@ < dec(45, 2)@,
        snapshot.remaining_secs < 120 ==> is_bargain(bid, snapshot.fair(side)) == Some(true),
{
}

/// The band of fair values is the line from 20 to 34 cents, and that from 80 to 66 cents, to within
/// half a unit of the last place, and it is symmetric about half a dollar.
pub proof fn the_band_is_symmetric(remaining_secs: u64)
    ensures
        ({
            let low = lowest_fair(remaining_secs).mantissa_int();
            let high = highest_fair(remaining_secs).mantissa_int();
            let left = 300 - window_part(remaining_secs);
            &&& low + high == 10000
            &&& -1 <= 3 * low - (6000 + 14 * left) <= 1
            &&& -1 <= 3 * high - (24000 - 14 * left) <= 1
            &&& 2000 <= low <= 3400
            &&& 6600 <= high <= 8000
        }),
        lowest_fair(remaining_secs).scale_nat() == 4,
        highest_fair(remaining_secs).scale_nat() == 4,
{
    broadcast use crate::decimal::parts_of_dec;

}

/// The band never widens as time passes.
pub proof fn the_band_narrows(earlier: u64, later: u64)
    requires
        later <= earlier,
    ensures
        lowest_fair(earlier).mantissa_int() <= lowest_fair(later).mantissa_int(),
        highest_fair(later).mantissa_int() <= highest_fair(earlier).mantissa_int(),
{
    broadcast use crate::decimal::parts_of_dec;

}

/// Once the other side is held, a bid that was not raised to one cent keeps the combined cost of a
/// pair within the target. This holds unless the difference had to be rounded.
pub proof fn bids_keep_the_combined_cost(
    config: Config,
    fair_value: Decimal,
    other: Position,
    target_combined: Decimal,
    bid: Decimal,
)
    requires
        target_combined.is_decimal(),
        other.avg_cost.is_decimal(),
        other.shares@ > 0real,
        target_combined.keeps_sum(
            other.avg_cost,
            target_combined.difference_mantissa(other.avg_cost),
        ),
        bid_price(config, fair_value, other, target_combined) == Some(bid),
        dec(1, 2)@ < bid@,
    ensures
        bid@ + other.avg_cost@ <= target_combined@,
{
    kept_difference_is_exact(target_combined, other.avg_cost);
}

/// When BTC has hardly moved, both sides count as cheap; else exactly the one that BTC moved away
/// from.
pub proof fn one_side_is_cheap(delta: Decimal)
    ensures
        is_cheap(Side::Up, delta) || is_cheap(Side::Down, delta),
        dec(3, 4)@ <= delta@ ==> !is_cheap(Side::Up, delta) && is_cheap(Side::Down, delta),
        delta@ <= dec(-3, 4)@ ==> is_cheap(Side::Up, delta) && !is_cheap(Side::Down, delta),
{
    broadcast use {crate::decimal::parts_of_dec, crate::decimal::sign_is_that_of_the_mantissa};

    assert(0real < dec(3, 4)@);
    assert(!(0real <= dec(-3, 4)@));
}

} // verus!
