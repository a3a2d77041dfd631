//! Merge engine: converts matched Up and Down positions into dollars.
//!
//! One Up share and one Down share give one dollar. If both together cost less than that, the
//! difference is profit.

use vstd::prelude::*;
use vstd::string::*;
use crate::clock::{now_millis, now_text};
use crate::decimal::{ArithmeticError, Decimal};
use crate::decimal::{adds_exactly, is_quotient, subtracts_exactly, value_of_a_whole_number};
use crate::decimal::{is_rounded, is_within, rounding_errors_are_small, units_in_one};
use crate::decimal::{kept_difference_is_exact, kept_product_is_exact, kept_sum_is_exact};
use crate::decimal::{dec, difference_of, has_room, product_of, quotient_of, smaller, sum_of};
use crate::text::count_text;
use crate::text::digits_of;
use crate::types::{MergeResult, PnlSnapshot, Position, Side};
use crate::types::{no_pnl, no_position};

verus! {

/// The merge engine tracks positions and executes merges.
pub struct MergeEngine {
    /// Current position in Up shares
    up_position: Position,
    /// Current position in Down shares
    down_position: Position,
    /// Running profit and loss
    pnl: PnlSnapshot,
    /// Whether orders are simulated
    dry_run: bool,
    /// All merge results for this session
    merge_history: Vec<MergeResult>,
    /// How many of them are from earlier windows
    earlier_merges: usize,
}

/// The state of a merge engine.
pub ghost struct EngineState {
    pub up: Position,
    pub down: Position,
    pub pnl: PnlSnapshot,
    pub dry_run: bool,
    pub history: Seq<MergeResult>,
    pub earlier_merges: nat,
}

impl View for MergeEngine {
    type V = EngineState;

    closed spec fn view(&self) -> EngineState {
        EngineState {
            up: self.up_position,
            down: self.down_position,
            pnl: self.pnl,
            dry_run: self.dry_run,
            history: self.merge_history@,
            earlier_merges: self.earlier_merges as nat,
        }
    }
}

/// Whether a position is another one with some shares more, bought at a price, where each number is
/// rounded once.
pub open spec fn is_purchase(before: Position, after: Position, shares: real, price: real) -> bool {
    &&& is_rounded(after.shares, before.shares@ + shares)
    &&& exists|cost: Decimal| #[trigger]
        is_rounded(cost, shares * price) && is_rounded(after.total_cost, before.total_cost@ + cost@)
    &&& after.shares@ > 0real ==> is_rounded(after.avg_cost, after.total_cost@ / after.shares@)
}

/// Whether a position is another one with some shares less, each at the average cost, where each
/// number is rounded once.
pub open spec fn is_reduction(before: Position, after: Position, shares: real) -> bool {
    &&& is_rounded(after.shares, before.shares@ - shares)
    &&& exists|cost: Decimal| #[trigger]
        is_rounded(cost, shares * before.avg_cost@) && is_rounded(
            after.total_cost,
            before.total_cost@ - cost@,
        )
    &&& after.avg_cost == before.avg_cost
}

/// A position after a purchase. The average cost is that of all shares together.
pub open spec fn bought(pos: Position, shares: Decimal, price: Decimal) -> Option<Position> {
    match (pos.shares.plus(shares), sum_of(Some(pos.total_cost), shares.times(price))) {
        (Some(total_shares), Some(total_cost)) => {
            let average = if total_shares@ > 0real {
                total_cost.over(total_shares)
            } else {
                Some(dec(0, 0))
            };
            match average {
                Some(avg_cost) => Some(Position { shares: total_shares, avg_cost, total_cost }),
                None => None,
            }
        },
        _ => None,
    }
}

/// A position after `shares` of it are gone, at its average cost.
pub open spec fn reduced(pos: Position, shares: Decimal) -> Option<Position> {
    match (
        pos.shares.minus(shares),
        difference_of(Some(pos.total_cost), pos.avg_cost.times(shares)),
    ) {
        (Some(left), Some(total_cost)) => Some(
            Position { shares: left, avg_cost: pos.avg_cost, total_cost },
        ),
        _ => None,
    }
}

/// A position after a sale of `shares`. The cost of the shares is taken off at the average cost.
pub open spec fn sold(pos: Position, shares: Decimal) -> Option<Position> {
    match (
        pos.shares.minus(shares),
        difference_of(Some(pos.total_cost), shares.times(pos.avg_cost)),
    ) {
        (Some(left), Some(total_cost)) => Some(
            Position { shares: left, avg_cost: pos.avg_cost, total_cost },
        ),
        _ => None,
    }
}

/// What merging `pairs` pairs gives: one dollar for each, less what they cost on average.
pub open spec fn merge_of(up: Position, down: Position, pairs: Decimal, now: i64) -> Option<
    MergeResult,
> {
    match sum_of(up.avg_cost.times(pairs), down.avg_cost.times(pairs)) {
        Some(total_cost) => match pairs.minus(total_cost) {
            Some(profit) => {
                let percent = if total_cost@ > 0real {
                    product_of(profit.over(total_cost), Some(dec(100, 0)))
                } else {
                    Some(dec(0, 0))
                };
                match percent {
                    Some(profit_pct) => Some(
                        MergeResult {
                            pairs_merged: pairs,
                            total_cost,
                            total_payout: pairs,
                            profit,
                            profit_pct,
                            timestamp: now,
                        },
                    ),
                    None => None,
                }
            },
            None => None,
        },
        None => None,
    }
}

/// The share of profitable merges once `merges` merges were made, given the share before the last
/// of them and whether it was profitable.
pub open spec fn win_rate_after(rate: Decimal, merges: u64, won: bool) -> Option<Decimal> {
    let earlier = rate.times(dec(merges - 1, 0));
    let wins = if won {
        sum_of(earlier, Some(dec(1, 0)))
    } else {
        earlier
    };
    quotient_of(wins, Some(dec(merges as int, 0)))
}

/// The totals after a merge.
pub open spec fn pnl_after_merge(pnl: PnlSnapshot, merge: MergeResult) -> Option<PnlSnapshot> {
    if pnl.total_merges == u64::MAX {
        None
    } else {
        let merges = (pnl.total_merges + 1) as u64;
        match (
            pnl.total_merged_payout.plus(merge.total_payout),
            pnl.total_profit.plus(merge.profit),
            pnl.total_pairs.plus(merge.pairs_merged),
            win_rate_after(pnl.win_rate, merges, merge.profit@ > 0real),
        ) {
            (Some(payout), Some(profit), Some(pairs), Some(win_rate)) => Some(
                PnlSnapshot {
                    total_merged_payout: payout,
                    total_profit: profit,
                    total_merges: merges,
                    total_pairs: pairs,
                    win_rate,
                    ..pnl
                },
            ),
            _ => None,
        }
    }
}

/// The totals after a sale.
pub open spec fn pnl_after_sale(
    pnl: PnlSnapshot,
    proceeds: Decimal,
    cost_basis: Decimal,
    shares: Decimal,
) -> Option<PnlSnapshot> {
    match (
        pnl.total_salvage_revenue.plus(proceeds),
        pnl.total_salvage_cost_basis.plus(cost_basis),
        pnl.total_salvage_shares.plus(shares),
    ) {
        (Some(revenue), Some(basis), Some(total)) => Some(
            PnlSnapshot {
                total_salvage_revenue: revenue,
                total_salvage_cost_basis: basis,
                total_salvage_shares: total,
                ..pnl
            },
        ),
        _ => None,
    }
}

/// The line of a report on one side.
pub open spec fn position_chars(label: Seq<char>, pos: Position) -> Seq<char> {
    label + pos.shares.chars() + " shares @ avg $"@ + pos.avg_cost.fixed_chars(4) + "\n"@
}

/// The line of a report on the merge with a given number.
pub open spec fn merge_chars(number: nat, merge: MergeResult) -> Seq<char> {
    "  #"@ + digits_of(number) + ": "@ + merge.pairs_merged.chars() + " pairs | cost $"@
        + merge.total_cost.fixed_chars(4) + " | payout $"@ + merge.total_payout.fixed_chars(4)
        + " | profit $"@ + merge.profit.fixed_chars(4) + " ("@ + merge.profit_pct.fixed_chars(2)
        + "%)\n"@
}

/// The lines of a report on a sequence of merges, numbered from one.
pub open spec fn merges_chars(history: Seq<MergeResult>) -> Seq<char>
    decreases history.len(),
{
    if history.len() == 0 {
        Seq::empty()
    } else {
        merges_chars(history.drop_last()) + merge_chars(history.len(), history.last())
    }
}

/// Whether the amounts of a merge can be written with four decimal places.
pub open spec fn is_printable_merge(merge: MergeResult) -> bool {
    merge.total_cost.is_printable() && merge.total_payout.is_printable()
        && merge.profit.is_printable()
}

impl EngineState {
    /// An engine without positions.
    pub open spec fn initial(dry_run: bool) -> EngineState {
        EngineState {
            up: no_position(),
            down: no_position(),
            pnl: no_pnl(),
            dry_run,
            history: Seq::empty(),
            earlier_merges: 0,
        }
    }

    /// The position of a side.
    pub open spec fn position(self, side: Side) -> Position {
        match side {
            Side::Up => self.up,
            Side::Down => self.down,
        }
    }

    /// The state with another position of a side.
    pub open spec fn with_position(self, side: Side, pos: Position) -> EngineState {
        match side {
            Side::Up => EngineState { up: pos, ..self },
            Side::Down => EngineState { down: pos, ..self },
        }
    }

    /// Whether neither side has less than no shares.
    pub open spec fn has_no_debt(self) -> bool {
        0real <= self.up.shares@ && 0real <= self.down.shares@
    }

    /// The number of pairs that can be merged.
    pub open spec fn pairs(self) -> Decimal {
        smaller(self.up.shares, self.down.shares)
    }

    /// The state after a purchase.
    pub open spec fn after_fill(self, side: Side, shares: Decimal, price: Decimal) -> Option<
        EngineState,
    > {
        match (
            bought(self.position(side), shares, price),
            sum_of(Some(self.pnl.total_invested), shares.times(price)),
        ) {
            (Some(pos), Some(total_invested)) => if self.pnl.total_orders == u64::MAX {
                None
            } else {
                let pnl = PnlSnapshot {
                    total_invested,
                    total_orders: (self.pnl.total_orders + 1) as u64,
                    ..self.pnl
                };
                Some(EngineState { pnl, ..self.with_position(side, pos) })
            },
            _ => None,
        }
    }

    /// Whether every number of a purchase is small enough to be held.
    pub open spec fn has_room_for(self, side: Side, shares: Decimal, price: Decimal) -> bool {
        let pos = self.position(side);
        &&& self.pnl.total_orders < u64::MAX
        &&& has_room(shares@ * price@)
        &&& has_room(pos.shares@ + shares@)
        &&& shares.times(price) matches Some(cost) ==> {
            &&& has_room(pos.total_cost@ + cost@)
            &&& has_room(self.pnl.total_invested@ + cost@)
            &&& match (pos.total_cost.plus(cost), pos.shares.plus(shares)) {
                (Some(total_cost), Some(total_shares)) => total_shares@ > 0real ==> has_room(
                    total_cost@ / total_shares@,
                ),
                _ => true,
            }
        }
    }

    /// The state after all pairs are merged, with the merge. There is no merge for less than one
    /// pair.
    pub open spec fn after_merge(self, now: i64) -> Option<(EngineState, Option<MergeResult>)> {
        let pairs = self.pairs();
        if pairs@ < 1real {
            Some((self, None))
        } else {
            match (
                merge_of(self.up, self.down, pairs, now),
                reduced(self.up, pairs),
                reduced(self.down, pairs),
            ) {
                (Some(merge), Some(up), Some(down)) => match pnl_after_merge(self.pnl, merge) {
                    Some(pnl) => Some(
                        (
                            EngineState { up, down, pnl, history: self.history.push(merge), ..self },
                            Some(merge),
                        ),
                    ),
                    None => None,
                },
                _ => None,
            }
        }
    }

    /// The state after a sale of at most the shares that are held, with the proceeds.
    pub open spec fn after_salvage(self, side: Side, shares: Decimal, bid: Decimal) -> Option<
        (EngineState, Decimal),
    > {
        let pos = self.position(side);
        let amount = smaller(shares, pos.shares);
        if amount@ <= 0real {
            Some((self, dec(0, 0)))
        } else {
            match (amount.times(bid), amount.times(pos.avg_cost), sold(pos, amount)) {
                (Some(proceeds), Some(basis), Some(left)) => match pnl_after_sale(
                    self.pnl,
                    proceeds,
                    basis,
                    amount,
                ) {
                    Some(pnl) => Some(
                        (EngineState { pnl, ..self.with_position(side, left) }, proceeds),
                    ),
                    None => None,
                },
                _ => None,
            }
        }
    }

    /// The state at the start of a window.
    pub open spec fn for_new_window(self) -> Option<EngineState> {
        if self.pnl.markets_traded == u64::MAX {
            None
        } else {
            let pnl = PnlSnapshot {
                markets_traded: (self.pnl.markets_traded + 1) as u64,
                ..self.pnl
            };
            Some(
                EngineState {
                    up: no_position(),
                    down: no_position(),
                    pnl,
                    earlier_merges: self.history.len(),
                    ..self
                },
            )
        }
    }

    /// The average cost of a pair, once both sides have been bought. The outer `None` stands for
    /// a number that does not fit.
    pub open spec fn pair_cost(self) -> Option<Option<Decimal>> {
        if self.up.avg_cost@ > 0real && self.down.avg_cost@ > 0real {
            match self.up.avg_cost.plus(self.down.avg_cost) {
                Some(cost) => Some(Some(cost)),
                None => None,
            }
        } else {
            Some(None)
        }
    }

    /// The merges of the window, oldest first.
    pub open spec fn window_merges(self) -> Seq<MergeResult> {
        if self.earlier_merges <= self.history.len() {
            self.history.skip(self.earlier_merges as int)
        } else {
            Seq::empty()
        }
    }

    /// Whether all amounts of a report fit and can be written with four decimal places.
    pub open spec fn report_fits(self) -> bool {
        &&& self.up.avg_cost.is_printable()
        &&& self.down.avg_cost.is_printable()
        &&& self.pair_cost() matches Some(cost) && (cost matches Some(c) ==> c.is_printable())
        &&& forall|i: int|
            0 <= i < self.window_merges().len() ==> #[trigger] is_printable_merge(
                self.window_merges()[i],
            )
        &&& self.pnl.total_invested.is_printable()
        &&& self.pnl.total_merged_payout.is_printable()
        &&& self.pnl.total_profit.is_printable()
        &&& self.pnl.win_rate.times(dec(100, 0)) is Some
    }

    /// The title of a report.
    pub open spec fn report_title(
        self,
        market_slug: Seq<char>,
        window_num: u64,
        time: Seq<char>,
    ) -> Seq<char> {
        "═══════════════════════════════════════════\n"@ + "  MERGE BOT — Window #"@ + digits_of(window_num as nat)
            + " Report\n"@ + "  Market: "@ + market_slug + "\n"@ + "  Time:   "@ + time + " UTC\n"@
            + "═══════════════════════════════════════════\n\n"@
    }

    /// The positions of a report.
    pub open spec fn report_positions(self) -> Seq<char> {
        "POSITIONS AT WINDOW END:\n"@ + position_chars("  Up:   "@, self.up) + position_chars(
            "  Down: "@,
            self.down,
        ) + match self.pair_cost() {
            Some(Some(cost)) => "  Combined avg cost/pair: $"@ + cost.fixed_chars(4) + "\n"@,
            _ => Seq::empty(),
        } + "\n"@
    }

    /// The merges of a report.
    pub open spec fn report_merges(self) -> Seq<char> {
        "MERGES THIS WINDOW:\n"@ + if self.window_merges().len() == 0 {
            "  No merges executed\n"@
        } else {
            merges_chars(self.window_merges())
        } + "\n"@
    }

    /// The totals of a report.
    pub open spec fn report_totals(self) -> Seq<char> {
        "SESSION TOTALS:\n"@ + "  Total orders:       "@ + digits_of(self.pnl.total_orders as nat)
            + "\n"@ + "  Total merges:       "@ + digits_of(self.pnl.total_merges as nat) + "\n"@
            + "  Total pairs merged: "@ + self.pnl.total_pairs.chars() + "\n"@
            + "  Total invested:     $"@ + self.pnl.total_invested.fixed_chars(4) + "\n"@
            + "  Total payout:       $"@ + self.pnl.total_merged_payout.fixed_chars(4) + "\n"@
            + "  Total profit:       $"@ + self.pnl.total_profit.fixed_chars(4) + "\n"@
            + "  Win rate:           "@ + self.pnl.win_rate.times(dec(100, 0))->0.fixed_chars(1)
            + "%\n"@ + "  Markets traded:     "@ + digits_of(self.pnl.markets_traded as nat)
            + "\n"@ + "═══════════════════════════════════════════\n"@
    }

    /// The report on a window, at a given time.
    pub open spec fn report_chars(
        self,
        market_slug: Seq<char>,
        window_num: u64,
        time: Seq<char>,
    ) -> Seq<char> {
        self.report_title(market_slug, window_num, time) + self.report_positions()
            + self.report_merges() + self.report_totals()
    }
}

impl MergeEngine {
    /// An engine without positions.
    pub fn new(dry_run: bool) -> (r: MergeEngine)
        ensures
            r@ == EngineState::initial(dry_run),
            r@.has_no_debt(),
    {
        broadcast use {
            crate::decimal::parts_of_dec,
            crate::decimal::sign_is_that_of_the_mantissa,
        };

        MergeEngine {
            up_position: Position::default(),
            down_position: Position::default(),
            pnl: PnlSnapshot::default(),
            dry_run,
            merge_history: Vec::new(),
            earlier_merges: 0,
        }
    }

    fn position(&self, side: Side) -> (r: Position)
        ensures
            r == self@.position(side),
    {
        match side {
            Side::Up => self.up_position,
            Side::Down => self.down_position,
        }
    }

    fn set_position(&mut self, side: Side, pos: Position)
        ensures
            final(self)@ == old(self)@.with_position(side, pos),
    {
        match side {
            Side::Up => {
                self.up_position = pos;
            },
            Side::Down => {
                self.down_position = pos;
            },
        }
    }

    /// Records a fill: shares bought at a given price.
    pub fn record_fill(&mut self, side: Side, shares: Decimal, price: Decimal) -> (r: Result<
        (),
        ArithmeticError,
    >)
        ensures
            match old(self)@.after_fill(side, shares, price) {
                Some(state) => r is Ok && final(self)@ == state,
                None => r is Err && final(self)@ == old(self)@,
            },
            old(self)@.has_room_for(side, shares, price) ==> r is Ok,
            // What was invested stays in balance, up to two rounding errors.
            r is Ok ==> forall|most: real, errors: nat| #[trigger]
                old(self)@.balances(most, errors) && old(self)@.fill_is_within(
                    side,
                    shares,
                    price,
                    most,
                ) ==> final(self)@.balances(most, errors + 2),
            // Buying never takes shares away, and touches one side only.
            r is Ok && 0real <= shares@ ==> old(self)@.position(side).shares@
                <= final(self)@.position(side).shares@,
            final(self)@.position(side.other()) == old(self)@.position(side.other()),
            old(self)@.has_no_debt() && 0real <= shares@ ==> final(self)@.has_no_debt(),
            // The shares and their price are added to the position of their own side, whose average
            // cost is its cost over its shares, where each number is rounded once.
            r is Ok ==> match side {
                Side::Up => is_purchase(old(self)@.up, final(self)@.up, shares@, price@)
                    && final(self)@.down == old(self)@.down,
                Side::Down => is_purchase(old(self)@.down, final(self)@.down, shares@, price@)
                    && final(self)@.up == old(self)@.up,
            },
    {
        broadcast use crate::decimal::sign_is_that_of_the_mantissa;

        let cost = shares.checked_mul(price)?;
        let pos = self.position(side);
        let total_shares = pos.shares.checked_add(shares)?;
        let total_cost = pos.total_cost.checked_add(cost)?;
        let avg_cost = if total_shares > Decimal::new(0, 0) {
            total_cost.checked_div(total_shares)?
        } else {
            Decimal::new(0, 0)
        };
        let total_invested = self.pnl.total_invested.checked_add(cost)?;
        if self.pnl.total_orders == u64::MAX {
            return Err(ArithmeticError);
        }
        self.set_position(side, Position { shares: total_shares, avg_cost, total_cost });
        self.pnl.total_invested = total_invested;
        self.pnl.total_orders = self.pnl.total_orders + 1;
        proof {
            let (before, after) = (old(self)@, self@);
            assert forall|most: real, errors: nat| #[trigger]
                before.balances(most, errors) && before.fill_is_within(
                    side,
                    shares,
                    price,
                    most,
                ) implies after.balances(most, errors + 2) by {
                a_fill_keeps_the_balance(
                    before,
                    side,
                    shares,
                    price,
                    cost,
                    after,
                    most,
                    errors,
                );
            }
        }
        Ok(())
    }

    /// Merges all pairs, if there is at least one, at a given time (Unix milliseconds).
    pub fn try_merge_at(&mut self, now: i64) -> (r: Result<Option<MergeResult>, ArithmeticError>)
        ensures
            match old(self)@.after_merge(now) {
                Some((state, merge)) => r == Ok::<Option<MergeResult>, ArithmeticError>(merge)
                    && final(self)@ == state,
                None => r is Err && final(self)@ == old(self)@,
            },
            // A merge pays one dollar for a pair, and is profitable exactly if the pairs cost less.
            r matches Ok(Some(merge)) ==> merge.total_payout == merge.pairs_merged && (0real
                < merge.profit@ <==> merge.total_cost@ < merge.total_payout@),
            // Nothing is left to merge, and no side is left below zero.
            r matches Ok(Some(merge)) ==> final(self)@.pairs()@ == 0real,
            r matches Ok(Some(merge)) || old(self)@.has_no_debt() ==> final(self)@.has_no_debt(),
            // The win rate is the share of profitable merges, if a decimal holds that share and the
            // rate before was exact.
            r matches Ok(Some(merge)) && old(self)@.counts_wins_exactly() ==> forall|q: Decimal|
                #[trigger] is_share(q, wins_of(final(self)@.history), final(self)@.history.len())
                    ==> final(self)@.pnl.win_rate@ == q@,
            // Ordinary amounts are always merged.
            old(self)@.is_ordinary() ==> r is Ok,
            // What was invested and the profit stay in balance, up to three rounding errors, and the
            // win rate stays the share of the profitable merges, up to eight for each merge.
            r matches Ok(Some(merge)) ==> forall|most: real, errors: nat| #[trigger]
                old(self)@.balances(most, errors) && old(self)@.merge_is_within(most)
                    ==> final(self)@.balances(most, errors + 3),
            r matches Ok(Some(merge)) ==> forall|errors: nat| #[trigger]
                old(self)@.win_rate_is_within(errors) && errors as real <= units_in_one()
                    ==> final(self)@.win_rate_is_within(errors + 8 * final(self)@.history.len()),
    {
        broadcast use crate::decimal::sign_is_that_of_the_mantissa;

        let up = self.up_position;
        let down = self.down_position;
        let pairs = up.shares.min(down.shares);
        let one = Decimal::new(1, 0);
        proof {
            crate::decimal::value_of_a_whole_number(one);
        }
        if pairs < one {
            return Ok(None);
        }
        let up_cost = side_cost(&up, pairs)?;
        let down_cost = side_cost(&down, pairs)?;
        let merge = merge_at(&up, &down, pairs, up_cost, down_cost, now)?;
        let up_left = reduce(&up, pairs, up_cost)?;
        let down_left = reduce(&down, pairs, down_cost)?;
        let pnl = pnl_with_merge(&self.pnl, &merge)?;
        self.up_position = up_left;
        self.down_position = down_left;
        self.pnl = pnl;
        self.merge_history.push(merge);
        proof {
            let (state, after) = (old(self)@, self@);
            assert(after.history.drop_last() =~= state.history);
            assert forall|most: real, errors: nat| #[trigger]
                state.balances(most, errors) && state.merge_is_within(
                    most,
                ) implies after.balances(most, errors + 3) by {
                a_merge_keeps_the_balance(
                    state,
                    now,
                    up_cost,
                    down_cost,
                    after,
                    merge,
                    most,
                    errors,
                );
            }
            assert forall|errors: nat| #[trigger]
                state.win_rate_is_within(errors) && errors as real
                    <= units_in_one() implies after.win_rate_is_within(
                errors + 8 * after.history.len(),
            ) by {
                wins_are_merges(state.history);
                assert(is_share_within(
                    state.pnl.win_rate,
                    wins_of(state.history),
                    state.pnl.total_merges as nat,
                    errors,
                ));
            }
            if old(self)@.counts_wins_exactly() {
                let before = wins_of(old(self)@.history);
                assert(is_share(old(self)@.pnl.win_rate, before, old(self)@.pnl.total_merges as nat));
                assert forall|q: Decimal| #[trigger]
                    is_share(
                        q,
                        wins_of(self@.history),
                        self@.history.len(),
                    ) implies self@.pnl.win_rate@ == q@ by {
                    assert(is_share_of_next(
                        q,
                        before,
                        is_win(merge),
                        old(self)@.pnl.total_merges as nat,
                    ));
                }
            }
        }
        Ok(Some(merge))
    }

    /// Merges all pairs, if there is at least one. Returns the merge.
    pub fn try_merge(&mut self) -> (r: Result<Option<MergeResult>, ArithmeticError>)
        ensures
            exists|now: i64|
                match #[trigger] old(self)@.after_merge(now) {
                    Some((state, merge)) => r == Ok::<Option<MergeResult>, ArithmeticError>(merge)
                        && final(self)@ == state,
                    None => r is Err && final(self)@ == old(self)@,
                },
            r matches Ok(Some(merge)) ==> merge.total_payout == merge.pairs_merged && (0real
                < merge.profit@ <==> merge.total_cost@ < merge.total_payout@),
            r matches Ok(Some(merge)) ==> final(self)@.pairs()@ == 0real,
            r matches Ok(Some(merge)) || old(self)@.has_no_debt() ==> final(self)@.has_no_debt(),
            r matches Ok(Some(merge)) && old(self)@.counts_wins_exactly() ==> forall|q: Decimal|
                #[trigger] is_share(q, wins_of(final(self)@.history), final(self)@.history.len())
                    ==> final(self)@.pnl.win_rate@ == q@,
            old(self)@.is_ordinary() ==> r is Ok,
            r matches Ok(Some(merge)) ==> forall|most: real, errors: nat| #[trigger]
                old(self)@.balances(most, errors) && old(self)@.merge_is_within(most)
                    ==> final(self)@.balances(most, errors + 3),
            r matches Ok(Some(merge)) ==> forall|errors: nat| #[trigger]
                old(self)@.win_rate_is_within(errors) && errors as real <= units_in_one()
                    ==> final(self)@.win_rate_is_within(errors + 8 * final(self)@.history.len()),
    {
        let now: i64 = now_millis();
        self.try_merge_at(now)
    }

    /// The Up and the Down position.
    pub fn positions(&self) -> (r: (Position, Position))
        ensures
            r == (self@.up, self@.down),
    {
        (self.up_position, self.down_position)
    }

    /// The running profit and loss.
    pub fn pnl_snapshot(&self) -> (r: PnlSnapshot)
        ensures
            r == self@.pnl,
    {
        self.pnl
    }

    /// The number of pairs that can be merged.
    pub fn mergeable_pairs(&self) -> (r: Decimal)
        ensures
            r == self@.pairs(),
    {
        self.up_position.shares.min(self.down_position.shares)
    }

    /// The average cost of a pair, once both sides have been bought.
    pub fn avg_pair_cost(&self) -> (r: Result<Option<Decimal>, ArithmeticError>)
        ensures
            r.ok() == self@.pair_cost(),
    {
        broadcast use crate::decimal::sign_is_that_of_the_mantissa;

        let zero = Decimal::new(0, 0);
        if self.up_position.avg_cost > zero && self.down_position.avg_cost > zero {
            let cost = self.up_position.avg_cost.checked_add(self.down_position.avg_cost)?;
            Ok(Some(cost))
        } else {
            Ok(None)
        }
    }

    /// Records the sale of excess shares at the bid price before the window closes. No more is
    /// sold than is held. Returns the proceeds.
    pub fn record_salvage(&mut self, side: Side, shares: Decimal, bid_price: Decimal) -> (r: Result<
        Decimal,
        ArithmeticError,
    >)
        ensures
            match old(self)@.after_salvage(side, shares, bid_price) {
                Some((state, proceeds)) => r == Ok::<Decimal, ArithmeticError>(proceeds)
                    && final(self)@ == state,
                None => r is Err && final(self)@ == old(self)@,
            },
            // A sale leaves the average cost as it is, never more shares than there were, and
            // never fewer than none.
            final(self)@.position(side).avg_cost == old(self)@.position(side).avg_cost,
            final(self)@.position(side).shares@ <= old(self)@.position(side).shares@,
            0real <= old(self)@.position(side).shares@ ==> 0real <= final(self)@.position(
                side,
            ).shares@,
            final(self)@.position(side.other()) == old(self)@.position(side.other()),
            old(self)@.has_no_debt() ==> final(self)@.has_no_debt(),
            // What was invested stays in balance, up to two rounding errors.
            r is Ok ==> forall|most: real, errors: nat| #[trigger]
                old(self)@.balances(most, errors) && old(self)@.sale_is_within(side, shares, most)
                    ==> final(self)@.balances(most, errors + 2),
            // What is sold of a side, at most what is held of it, is taken from its own position, and
            // brings the bid, where each number is rounded once.
            r matches Ok(proceeds) ==> match side {
                Side::Up => 0real < shares@ && 0real < old(self)@.up.shares@ ==> {
                    let amount = smaller(shares, old(self)@.up.shares)@;
                    &&& is_reduction(old(self)@.up, final(self)@.up, amount)
                    &&& is_rounded(proceeds, amount * bid_price@)
                    &&& final(self)@.down == old(self)@.down
                },
                Side::Down => 0real < shares@ && 0real < old(self)@.down.shares@ ==> {
                    let amount = smaller(shares, old(self)@.down.shares)@;
                    &&& is_reduction(old(self)@.down, final(self)@.down, amount)
                    &&& is_rounded(proceeds, amount * bid_price@)
                    &&& final(self)@.up == old(self)@.up
                },
            },
            r matches Ok(proceeds) ==> proceeds@ != 0real ==> is_rounded(
                final(self)@.pnl.total_salvage_revenue,
                old(self)@.pnl.total_salvage_revenue@ + proceeds@,
            ),
    {
        broadcast use crate::decimal::sign_is_that_of_the_mantissa;

        let pos = self.position(side);
        let amount = shares.min(pos.shares);
        let zero = Decimal::new(0, 0);
        if amount <= zero {
            proof {
                let state = self@;
                assert forall|most: real, errors: nat| #[trigger]
                    state.balances(most, errors) implies state.balances(most, errors + 2) by {
                    a_balance_allows_more_errors(state, most, errors, errors + 2);
                }
            }
            return Ok(zero);
        }
        let proceeds = amount.checked_mul(bid_price)?;
        let cost_basis = amount.checked_mul(pos.avg_cost)?;
        let left = pos.shares.checked_sub(amount)?;
        let total_cost = pos.total_cost.checked_sub(cost_basis)?;
        let revenue = self.pnl.total_salvage_revenue.checked_add(proceeds)?;
        let basis = self.pnl.total_salvage_cost_basis.checked_add(cost_basis)?;
        let total = self.pnl.total_salvage_shares.checked_add(amount)?;
        self.set_position(side, Position { shares: left, avg_cost: pos.avg_cost, total_cost });
        self.pnl.total_salvage_revenue = revenue;
        self.pnl.total_salvage_cost_basis = basis;
        self.pnl.total_salvage_shares = total;
        proof {
            let (before, after) = (old(self)@, self@);
            assert forall|most: real, errors: nat| #[trigger]
                before.balances(most, errors) && before.sale_is_within(
                    side,
                    shares,
                    most,
                ) implies after.balances(most, errors + 2) by {
                a_sale_keeps_the_balance(
                    before,
                    side,
                    shares,
                    bid_price,
                    cost_basis,
                    after,
                    proceeds,
                    most,
                    errors,
                );
            }
        }
        Ok(proceeds)
    }

    /// Drops all positions and counts one more market. The merges so far are those of earlier
    /// windows.
    pub fn reset_for_new_window(&mut self) -> (r: Result<(), ArithmeticError>)
        ensures
            match old(self)@.for_new_window() {
                Some(state) => r is Ok && final(self)@ == state,
                None => r is Err && final(self)@ == old(self)@,
            },
            old(self)@.has_no_debt() ==> final(self)@.has_no_debt(),
    {
        broadcast use {
            crate::decimal::parts_of_dec,
            crate::decimal::sign_is_that_of_the_mantissa,
        };

        if self.pnl.markets_traded == u64::MAX {
            return Err(ArithmeticError);
        }
        self.up_position = Position::default();
        self.down_position = Position::default();
        self.pnl.markets_traded = self.pnl.markets_traded + 1;
        self.earlier_merges = self.merge_history.len();
        Ok(())
    }

    /// All merges of the session, oldest first.
    pub fn merge_history(&self) -> (r: Vec<MergeResult>)
        ensures
            r@ == self@.history,
    {
        self.merge_history.clone()
    }

    /// The merges of a report: those of the window.
    fn merges_text(&self) -> (r: Result<String, ArithmeticError>)
        ensures
            r is Ok <==> (forall|i: int|
                0 <= i < self@.window_merges().len() ==> #[trigger] is_printable_merge(
                    self@.window_merges()[i],
                )),
            r matches Ok(text) ==> text@ == merges_chars(self@.window_merges()),
    {
        let ghost merges = self@.window_merges();
        let mut text = String::new();
        if self.earlier_merges > self.merge_history.len() {
            return Ok(text);
        }
        let count: usize = self.merge_history.len() - self.earlier_merges;
        let mut i: usize = 0;
        while i < count
            invariant
                i <= count,
                self.earlier_merges + count == self.merge_history.len(),
                merges == self.merge_history@.skip(self.earlier_merges as int),
                merges == self@.window_merges(),
                text@ == merges_chars(merges.take(i as int)),
                forall|j: int| 0 <= j < i ==> #[trigger] is_printable_merge(merges[j]),
            decreases count - i,
        {
            let merge = &self.merge_history[self.earlier_merges + i];
            proof {
                assert(merges[i as int] == merge);
                assert(is_printable_merge(*merge) == is_printable_merge(merges[i as int]));
                assert(merges.take(i + 1).drop_last() == merges.take(i as int));
            }
            let cost = merge.total_cost.amount_text()?;
            let payout = merge.total_payout.amount_text()?;
            let profit = merge.profit.amount_text()?;
            let line = "  #".to_string().concat(count_text(i as u64 + 1).as_str()).concat(
                ": ",
            ).concat(merge.pairs_merged.text().as_str()).concat(" pairs | cost $").concat(
                cost.as_str(),
            ).concat(" | payout $").concat(payout.as_str()).concat(" | profit $").concat(
                profit.as_str(),
            ).concat(" (").concat(merge.profit_pct.fixed_text(2).as_str()).concat("%)\n");
            text = text.concat(line.as_str());
            i = i + 1;
        }
        proof {
            assert(merges.take(i as int) == merges);
        }
        Ok(text)
    }

    /// The summary report on a window, with a given text for the time.
    pub fn window_report_at(&self, market_slug: &str, window_num: u64, time: &str) -> (r: Result<
        String,
        ArithmeticError,
    >)
        ensures
            r is Ok <==> self@.report_fits(),
            r matches Ok(text) ==> text@ == self@.report_chars(market_slug@, window_num, time@),
    {
        let title = "═══════════════════════════════════════════\n".to_string().concat(
            "  MERGE BOT — Window #",
        ).concat(count_text(window_num).as_str()).concat(" Report\n").concat("  Market: ").concat(
            market_slug,
        ).concat("\n").concat("  Time:   ").concat(time).concat(" UTC\n").concat(
            "═══════════════════════════════════════════\n\n",
        );
        let up_cost = self.up_position.avg_cost.amount_text()?;
        let down_cost = self.down_position.avg_cost.amount_text()?;
        let up = "  Up:   ".to_string().concat(self.up_position.shares.text().as_str()).concat(
            " shares @ avg $",
        ).concat(up_cost.as_str()).concat("\n");
        let down = "  Down: ".to_string().concat(self.down_position.shares.text().as_str()).concat(
            " shares @ avg $",
        ).concat(down_cost.as_str()).concat("\n");
        let pair = match self.avg_pair_cost()? {
            Some(cost) => "  Combined avg cost/pair: $".to_string().concat(
                cost.amount_text()?.as_str(),
            ).concat("\n"),
            None => String::new(),
        };
        let positions = "POSITIONS AT WINDOW END:\n".to_string().concat(up.as_str()).concat(
            down.as_str(),
        ).concat(pair.as_str()).concat("\n");
        assert(positions@ == self@.report_positions());
        let listed = self.merges_text()?;
        let lines = if self.merge_history.len() <= self.earlier_merges {
            "  No merges executed\n".to_string()
        } else {
            listed
        };
        let merges = "MERGES THIS WINDOW:\n".to_string().concat(lines.as_str()).concat("\n");
        let invested = self.pnl.total_invested.amount_text()?;
        let payout = self.pnl.total_merged_payout.amount_text()?;
        let profit = self.pnl.total_profit.amount_text()?;
        let percent = self.pnl.win_rate.checked_mul(Decimal::new(100, 0))?;
        let totals = "SESSION TOTALS:\n".to_string().concat("  Total orders:       ").concat(
            count_text(self.pnl.total_orders).as_str(),
        ).concat("\n").concat("  Total merges:       ").concat(
            count_text(self.pnl.total_merges).as_str(),
        ).concat("\n").concat("  Total pairs merged: ").concat(
            self.pnl.total_pairs.text().as_str(),
        ).concat("\n").concat("  Total invested:     $").concat(invested.as_str()).concat(
            "\n",
        ).concat("  Total payout:       $").concat(payout.as_str()).concat("\n").concat(
            "  Total profit:       $",
        ).concat(profit.as_str()).concat("\n").concat("  Win rate:           ").concat(
            percent.fixed_text(1).as_str(),
        ).concat("%\n").concat("  Markets traded:     ").concat(
            count_text(self.pnl.markets_traded).as_str(),
        ).concat("\n").concat("═══════════════════════════════════════════\n");
        assert(totals@ == self@.report_totals());
        Ok(
            title.concat(positions.as_str()).concat(merges.as_str()).concat(totals.as_str()),
        )
    }

    /// The summary report on a window. It gives the time at which it is made.
    pub fn window_report(&self, market_slug: &str, window_num: u64) -> (r: Result<
        String,
        ArithmeticError,
    >)
        ensures
            r is Ok <==> self@.report_fits(),
            r matches Ok(text) ==> exists|time: Seq<char>|
                text@ == #[trigger] self@.report_chars(market_slug@, window_num, time),
    {
        let time = now_text();
        self.window_report_at(market_slug, window_num, time.as_str())
    }
}

/// The number of profitable merges.
pub open spec fn wins_of(history: Seq<MergeResult>) -> nat
    decreases history.len(),
{
    if history.len() == 0 {
        0
    } else if history.last().profit@ > 0real {
        wins_of(history.drop_last()) + 1
    } else {
        wins_of(history.drop_last())
    }
}

/// Whether a decimal is exactly the share that `part` is of `total`.
pub open spec fn is_share(q: Decimal, part: nat, total: nat) -> bool {
    q.is_decimal() && q@ * (total as real) == part as real
}

/// Whether the number of wins that a rate stands for, and one more, keep all their digits.
pub open spec fn gives_wins_exactly(rate: Decimal, merges: u64) -> bool {
    rate.keeps_product(dec(merges as int, 0)) && match rate.times(dec(merges as int, 0)) {
        Some(wins) => wins.keeps_sum(dec(1, 0), wins.sum_mantissa(dec(1, 0))),
        None => false,
    }
}

impl EngineState {
    /// Whether the win rate is exactly the share of the profitable merges, and the number of wins
    /// comes out of it without rounding.
    pub open spec fn counts_wins_exactly(self) -> bool {
        &&& self.history.len() == self.pnl.total_merges
        &&& is_share(self.pnl.win_rate, wins_of(self.history), self.history.len())
        &&& gives_wins_exactly(self.pnl.win_rate, self.pnl.total_merges)
    }
}

/// Whether a decimal is the share that `part` is of `total`, up to a number of units of the 28th
/// place, counted on the whole.
pub open spec fn is_share_within(q: Decimal, part: nat, total: nat, errors: nat) -> bool {
    is_within((q@ * (total as real) - part as real) * units_in_one(), errors as real)
}

/// The share of profitable merges after one more, given the share and the number of merges before
/// it and whether it was profitable.
fn next_win_rate(rate: Decimal, merges: u64, won: bool) -> (r: Result<Decimal, ArithmeticError>)
    requires
        merges < u64::MAX,
    ensures
        r.ok() == win_rate_after(rate, (merges + 1) as u64, won),
        is_within(rate@, 2real) && merges < 1_000_000_000_000 ==> r is Ok,
        gives_wins_exactly(rate, merges) && r is Ok ==> forall|before: nat, q: Decimal|
            #[trigger] is_share(rate, before, merges as nat) && #[trigger] is_share_of_next(
                q,
                before,
                won,
                merges as nat,
            ) ==> r->Ok_0@ == q@,
        r is Ok ==> forall|before: nat, errors: nat|
            #[trigger] is_share_within(rate, before, merges as nat, errors) && before <= merges
                && errors as real <= units_in_one() ==> is_share_within(
                r->Ok_0,
                with_win(before, won),
                (merges + 1) as nat,
                errors + 8 * (merges + 1) as nat,
            ),
{
    let count = Decimal::from_count(merges);
    let total = Decimal::from_count(merges + 1);
    let ghost m = merges as real;
    proof {
        broadcast use crate::decimal::parts_of_dec;

        value_of_a_whole_number(dec(merges as int, 0));
        value_of_a_whole_number(dec(1, 0));
        value_of_a_whole_number(dec(merges + 1, 0));
        if is_within(rate@, 2real) && merges < 1_000_000_000_000 {
            let x = rate@;
            assert(is_within(x * m, 2_000_000_000_000real)) by (nonlinear_arith)
                requires
                    -2real <= x <= 2real,
                    0real <= m <= 1_000_000_000_000real,
            ;
        }
    }
    let earlier = rate.checked_mul(count)?;
    proof {
        if is_within(rate@, 2real) && merges < 1_000_000_000_000 {
            rounding_errors_are_small(earlier, rate@ * m, 2_000_000_000_000real);
        }
    }
    let wins = if won {
        earlier.checked_add(Decimal::new(1, 0))?
    } else {
        earlier
    };
    proof {
        if is_within(rate@, 2real) && merges < 1_000_000_000_000 {
            if won {
                rounding_errors_are_small(wins, earlier@ + 1real, 5_000_000_000_000real);
            }
            let (w, t) = (wins@, m + 1real);
            assert(is_within(w / t, 10_000_000_000_000real)) by (nonlinear_arith)
                requires
                    is_within(w, 10_000_000_000_000real),
                    t >= 1real,
            ;
        }
    }
    let win_rate = wins.checked_div(total)?;
    proof {
        broadcast use crate::decimal::parts_of_dec;

        if gives_wins_exactly(rate, merges) {
            kept_product_is_exact(rate, dec(merges as int, 0));
            kept_sum_is_exact(earlier, dec(1, 0));
            assert forall|before: nat, q: Decimal|
                #[trigger] is_share(rate, before, merges as nat) && #[trigger] is_share_of_next(
                    q,
                    before,
                    won,
                    merges as nat,
                ) implies win_rate@ == q@ by {
                assert(is_quotient(q, wins, total));
            }
        }
        assert forall|before: nat, errors: nat|
            #[trigger] is_share_within(rate, before, merges as nat, errors) && before <= merges
                && errors as real <= units_in_one() implies is_share_within(
            win_rate,
            with_win(before, won),
            (merges + 1) as nat,
            errors + 8 * (merges + 1) as nat,
        ) by {
            win_rate_errors_add_up(
                rate@,
                m,
                before as real,
                errors as real,
                won,
                earlier,
                wins,
                win_rate,
            );
        }
    }
    Ok(win_rate)
}

/// Whether a merge was profitable.
pub open spec fn is_win(merge: MergeResult) -> bool {
    merge.profit@ > 0real
}

/// The number of wins with one more, if it is one.
pub open spec fn with_win(wins: nat, won: bool) -> nat {
    if won {
        wins + 1
    } else {
        wins
    }
}

/// Whether a decimal is exactly the share of the profitable merges after one more.
pub open spec fn is_share_of_next(q: Decimal, wins: nat, won: bool, merges: nat) -> bool {
    is_share(q, with_win(wins, won), merges + 1)
}

/// The errors of a win rate, on the whole, grow by eight units for each merge at most.
proof fn win_rate_errors_add_up(
    rate: real,
    merges: real,
    before: real,
    errors: real,
    won: bool,
    earlier: Decimal,
    wins: Decimal,
    win_rate: Decimal,
)
    requires
        0real <= before <= merges <= 18_446_744_073_709_551_615real,
        0real <= errors <= units_in_one(),
        is_within((rate * merges - before) * units_in_one(), errors),
        is_rounded(earlier, rate * merges),
        won ==> is_rounded(wins, earlier@ + 1real),
        !won ==> wins == earlier,
        is_rounded(win_rate, wins@ / (merges + 1real)),
    ensures
        ({
            let after = if won {
                before + 1real
            } else {
                before
            };
            is_within(
                (win_rate@ * (merges + 1real) - after) * units_in_one(),
                errors + 8real * (merges + 1real),
            )
        }),
{
    let (e, t) = (units_in_one(), merges + 1real);
    rounding_errors_are_small(earlier, rate * merges, merges + 1real);
    if won {
        rounding_errors_are_small(wins, earlier@ + 1real, merges + 3real);
    }
    let (w, q) = (wins@, wins@ / t);
    assert(q * t == w) by (nonlinear_arith)
        requires
            q == w / t,
            t >= 1real,
    ;
    assert(is_within(w, merges + 4real));
    assert(is_within(q, 4real)) by (nonlinear_arith)
        requires
            q * t == w,
            is_within(w, merges + 4real),
            t == merges + 1real,
            t >= 1real,
    ;
    rounding_errors_are_small(win_rate, q, 4real);
    let d = win_rate@ - q;
    assert(is_within(d * e * t, 4real * t)) by (nonlinear_arith)
        requires
            -4real <= d * e <= 4real,
            t >= 1real,
    ;
    assert(win_rate@ * t == w + d * t) by (nonlinear_arith)
        requires
            q * t == w,
            d == win_rate@ - q,
    ;
    assert(d * t * e == d * e * t) by (nonlinear_arith);
}

/// The totals after a merge.
fn pnl_with_merge(pnl: &PnlSnapshot, merge: &MergeResult) -> (r: Result<
    PnlSnapshot,
    ArithmeticError,
>)
    ensures
        r.ok() == pnl_after_merge(*pnl, *merge),
        r matches Ok(after) ==> {
            &&& is_rounded(after.total_merged_payout, pnl.total_merged_payout@ + merge.total_payout@)
            &&& is_rounded(after.total_profit, pnl.total_profit@ + merge.profit@)
        },
        is_ordinary_pnl(*pnl) && is_within(merge.total_payout@, 1_000_000_000real) && is_within(
            merge.profit@,
            100_000_000_000_000real,
        ) && merge.pairs_merged == merge.total_payout ==> r is Ok,
        gives_wins_exactly(pnl.win_rate, pnl.total_merges) && r is Ok ==> forall|
            before: nat,
            q: Decimal,
        |
            #[trigger] is_share(pnl.win_rate, before, pnl.total_merges as nat)
                && #[trigger] is_share_of_next(
                q,
                before,
                is_win(*merge),
                pnl.total_merges as nat,
            ) ==> r->Ok_0.win_rate@ == q@,
        r is Ok ==> forall|before: nat, errors: nat|
            #[trigger] is_share_within(pnl.win_rate, before, pnl.total_merges as nat, errors)
                && before <= pnl.total_merges && errors as real <= units_in_one()
                ==> is_share_within(
                r->Ok_0.win_rate,
                with_win(before, is_win(*merge)),
                (pnl.total_merges + 1) as nat,
                errors + 8 * (pnl.total_merges + 1) as nat,
            ),
{
    broadcast use crate::decimal::sign_is_that_of_the_mantissa;

    if pnl.total_merges == u64::MAX {
        return Err(ArithmeticError);
    }
    let payout = pnl.total_merged_payout.checked_add(merge.total_payout)?;
    let profit = pnl.total_profit.checked_add(merge.profit)?;
    let pairs = pnl.total_pairs.checked_add(merge.pairs_merged)?;
    let won = merge.profit > Decimal::new(0, 0);
    let win_rate = next_win_rate(pnl.win_rate, pnl.total_merges, won)?;
    Ok(
        PnlSnapshot {
            total_invested: pnl.total_invested,
            total_merged_payout: payout,
            total_profit: profit,
            total_merges: pnl.total_merges + 1,
            total_pairs: pairs,
            total_orders: pnl.total_orders,
            markets_traded: pnl.markets_traded,
            win_rate,
            total_salvage_revenue: pnl.total_salvage_revenue,
            total_salvage_cost_basis: pnl.total_salvage_cost_basis,
            total_salvage_shares: pnl.total_salvage_shares,
        },
    )
}

/// Whether the totals that a merge changes are of an ordinary size: amounts up to 10^15, and up to
/// 10^12 merges.
pub open spec fn is_ordinary_pnl(pnl: PnlSnapshot) -> bool {
    &&& is_within(pnl.total_merged_payout@, 1_000_000_000_000_000real)
    &&& is_within(pnl.total_profit@, 1_000_000_000_000_000real)
    &&& is_within(pnl.total_pairs@, 1_000_000_000_000_000real)
    &&& is_within(pnl.win_rate@, 2real)
    &&& pnl.total_merges < 1_000_000_000_000
}

/// Whether a position is of an ordinary size: up to 10^9 shares that cost from a tenth of a cent to
/// 1000 dollars each, and 10^12 dollars together.
pub open spec fn is_ordinary_position(pos: Position) -> bool {
    &&& 0real <= pos.shares@ <= 1_000_000_000real
    &&& 1real / 1000real <= pos.avg_cost@ <= 1000real
    &&& is_within(pos.total_cost@, 1_000_000_000_000real)
}

/// What the merged shares of a side cost on average.
fn side_cost(pos: &Position, pairs: Decimal) -> (r: Result<Decimal, ArithmeticError>)
    ensures
        r.ok() == pos.avg_cost.times(pairs),
        is_ordinary_position(*pos) && 1real <= pairs@ <= 1_000_000_000real ==> r is Ok && 1real
            / 2000real <= r->Ok_0@ <= 2_000_000_000_000real,
{
    proof {
        let (a, p) = (pos.avg_cost@, pairs@);
        if is_ordinary_position(*pos) && 1real <= p <= 1_000_000_000real {
            assert(1real / 1000real <= a * p <= 1_000_000_000_000real) by (nonlinear_arith)
                requires
                    1real / 1000real <= a <= 1000real,
                    1real <= p <= 1_000_000_000real,
            ;
        }
    }
    let cost = pos.avg_cost.checked_mul(pairs)?;
    proof {
        if is_ordinary_position(*pos) && 1real <= pairs@ <= 1_000_000_000real {
            rounding_errors_are_small(cost, pos.avg_cost@ * pairs@, 1_000_000_000_000real);
        }
    }
    Ok(cost)
}

/// The merge of pairs that cost `up_cost` and `down_cost`.
fn merge_at(
    up: &Position,
    down: &Position,
    pairs: Decimal,
    up_cost: Decimal,
    down_cost: Decimal,
    now: i64,
) -> (r: Result<MergeResult, ArithmeticError>)
    requires
        up.avg_cost.times(pairs) == Some(up_cost),
        down.avg_cost.times(pairs) == Some(down_cost),
    ensures
        r.ok() == merge_of(*up, *down, pairs, now),
        r matches Ok(merge) ==> {
            &&& up_cost.plus(down_cost) == Some(merge.total_cost)
            &&& pairs.minus(merge.total_cost) == Some(merge.profit)
            &&& is_rounded(merge.total_cost, up_cost@ + down_cost@)
            &&& is_rounded(merge.profit, pairs@ - merge.total_cost@)
            &&& 0real < merge.profit@ <==> merge.total_cost@ < pairs@
        },
        1real <= pairs@ <= 1_000_000_000real && 1real / 2000real <= up_cost@
            <= 2_000_000_000_000real && 1real / 2000real <= down_cost@ <= 2_000_000_000_000real
            ==> r is Ok && is_within(r->Ok_0.profit@, 100_000_000_000_000real),
{
    broadcast use {crate::decimal::parts_of_dec, crate::decimal::sign_is_that_of_the_mantissa};

    let ghost ordinary = 1real <= pairs@ <= 1_000_000_000real && 1real / 2000real <= up_cost@
        <= 2_000_000_000_000real && 1real / 2000real <= down_cost@ <= 2_000_000_000_000real;
    let total_cost = up_cost.checked_add(down_cost)?;
    proof {
        if ordinary {
            rounding_errors_are_small(total_cost, up_cost@ + down_cost@, 4_000_000_000_000real);
        }
    }
    let profit = pairs.checked_sub(total_cost)?;
    proof {
        if ordinary {
            rounding_errors_are_small(profit, pairs@ - total_cost@, 10_000_000_000_000real);
            let (p, c) = (profit@, total_cost@);
            assert(is_within(p / c, 40_000_000_000_000_000real)) by (nonlinear_arith)
                requires
                    is_within(p, 20_000_000_000_000real),
                    1real / 2000real <= c,
            ;
        }
        value_of_a_whole_number(dec(100, 0));
    }
    let profit_pct = if total_cost > Decimal::new(0, 0) {
        let fraction = profit.checked_div(total_cost)?;
        proof {
            if ordinary {
                rounding_errors_are_small(
                    fraction,
                    profit@ / total_cost@,
                    40_000_000_000_000_000real,
                );
                assert(fraction@ * dec(100, 0)@ == fraction@ * 100real);
            }
        }
        fraction.checked_mul(Decimal::new(100, 0))?
    } else {
        Decimal::new(0, 0)
    };
    Ok(
        MergeResult {
            pairs_merged: pairs,
            total_cost,
            total_payout: pairs,
            profit,
            profit_pct,
            timestamp: now,
        },
    )
}

/// The position of a side after `pairs` of its shares, which cost `cost`, are merged.
fn reduce(pos: &Position, pairs: Decimal, cost: Decimal) -> (r: Result<Position, ArithmeticError>)
    requires
        pos.avg_cost.times(pairs) == Some(cost),
    ensures
        r.ok() == reduced(*pos, pairs),
        r matches Ok(left) ==> {
            &&& is_rounded(left.total_cost, pos.total_cost@ - cost@)
            &&& 0real <= left.shares@ <==> pairs@ <= pos.shares@
            &&& 0real < left.shares@ <==> pairs@ < pos.shares@
        },
        is_ordinary_position(*pos) && 1real <= pairs@ <= 1_000_000_000real && 1real / 2000real
            <= cost@ <= 2_000_000_000_000real ==> r is Ok,
{
    let shares = pos.shares.checked_sub(pairs)?;
    let total_cost = pos.total_cost.checked_sub(cost)?;
    Ok(Position { shares, avg_cost: pos.avg_cost, total_cost })
}

/// Whether every number that a merge of `pairs` pairs computes keeps all its digits.
pub open spec fn merges_exactly(up: Position, down: Position, pairs: Decimal) -> bool {
    &&& up.avg_cost.keeps_product(pairs)
    &&& down.avg_cost.keeps_product(pairs)
    &&& match (up.avg_cost.times(pairs), down.avg_cost.times(pairs)) {
        (Some(up_cost), Some(down_cost)) => {
            &&& up_cost.keeps_sum(down_cost, up_cost.sum_mantissa(down_cost))
            &&& up_cost.plus(down_cost) matches Some(total) && pairs.keeps_sum(
                total,
                pairs.difference_mantissa(total),
            )
        },
        _ => false,
    }
}

/// The profit of a merge is one dollar for each pair, less the average cost of an Up share and
/// that of a Down share. This holds to the last digit unless a number on the way had to be rounded.
pub proof fn profit_is_a_dollar_less_the_cost_of_both_shares(
    up: Position,
    down: Position,
    pairs: Decimal,
    now: i64,
    merge: MergeResult,
)
    requires
        pairs.is_decimal(),
        merge_of(up, down, pairs, now) == Some(merge),
        merges_exactly(up, down, pairs),
    ensures
        merge.total_payout == pairs,
        merge.total_cost@ == (up.avg_cost@ + down.avg_cost@) * pairs@,
        merge.profit@ == pairs@ * (1real - (up.avg_cost@ + down.avg_cost@)),
{
    kept_product_is_exact(up.avg_cost, pairs);
    kept_product_is_exact(down.avg_cost, pairs);
    let up_cost = up.avg_cost.times(pairs)->0;
    let down_cost = down.avg_cost.times(pairs)->0;
    kept_sum_is_exact(up_cost, down_cost);
    kept_difference_is_exact(pairs, merge.total_cost);
    let (u, d, p) = (up.avg_cost@, down.avg_cost@, pairs@);
    assert(u * p + d * p == (u + d) * p) by (nonlinear_arith);
    assert(p - (u + d) * p == p * (1real - (u + d))) by (nonlinear_arith);
}

/// Pairs that cost less than a dollar together are merged at a profit, and pairs that cost more at
/// a loss.
pub proof fn cheap_pairs_give_a_profit(
    up: Position,
    down: Position,
    pairs: Decimal,
    now: i64,
    merge: MergeResult,
)
    requires
        pairs.is_decimal(),
        0real < pairs@,
        merge_of(up, down, pairs, now) == Some(merge),
        merges_exactly(up, down, pairs),
    ensures
        0real < merge.profit@ <==> up.avg_cost@ + down.avg_cost@ < 1real,
        merge.profit@ < 0real <==> 1real < up.avg_cost@ + down.avg_cost@,
{
    profit_is_a_dollar_less_the_cost_of_both_shares(up, down, pairs, now, merge);
    let (c, p) = (up.avg_cost@ + down.avg_cost@, pairs@);
    assert((0real < p * (1real - c) <==> c < 1real) && (p * (1real - c) < 0real <==> 1real < c))
        by (nonlinear_arith)
        requires
            0real < p,
    ;
}

/// A merge takes the same number of shares from both sides and leaves their average costs as they
/// are. It is written at the end of the history, and nothing is taken out of the history.
pub proof fn a_merge_takes_both_sides_equally(
    state: EngineState,
    now: i64,
    after: EngineState,
    merge: MergeResult,
)
    requires
        state.after_merge(now) == Some((after, Some(merge))),
    ensures
        merge.pairs_merged == state.pairs(),
        1real <= merge.pairs_merged@,
        state.up.shares.minus(merge.pairs_merged) == Some(after.up.shares),
        state.down.shares.minus(merge.pairs_merged) == Some(after.down.shares),
        after.up.avg_cost == state.up.avg_cost,
        after.down.avg_cost == state.down.avg_cost,
        after.history == state.history.push(merge),
        after.pnl.total_invested == state.pnl.total_invested,
{
}

/// Less than one pair is never merged: nothing changes then.
pub proof fn less_than_a_pair_is_not_merged(state: EngineState, now: i64)
    requires
        state.up.shares@ < 1real || state.down.shares@ < 1real,
    ensures
        state.after_merge(now) == Some((state, None::<MergeResult>)),
{
}

/// The payouts of a sequence of merges.
pub open spec fn payouts_of(history: Seq<MergeResult>) -> Option<Decimal>
    decreases history.len(),
{
    if history.len() == 0 {
        Some(dec(0, 0))
    } else {
        sum_of(payouts_of(history.drop_last()), Some(history.last().total_payout))
    }
}

/// The profits of a sequence of merges.
pub open spec fn profits_of(history: Seq<MergeResult>) -> Option<Decimal>
    decreases history.len(),
{
    if history.len() == 0 {
        Some(dec(0, 0))
    } else {
        sum_of(profits_of(history.drop_last()), Some(history.last().profit))
    }
}

/// The pairs of a sequence of merges.
pub open spec fn pairs_of(history: Seq<MergeResult>) -> Option<Decimal>
    decreases history.len(),
{
    if history.len() == 0 {
        Some(dec(0, 0))
    } else {
        sum_of(pairs_of(history.drop_last()), Some(history.last().pairs_merged))
    }
}

/// What the merges of a sequence cost.
pub open spec fn costs_of(history: Seq<MergeResult>) -> real
    decreases history.len(),
{
    if history.len() == 0 {
        0real
    } else {
        costs_of(history.drop_last()) + history.last().total_cost@
    }
}

impl EngineState {
    /// Whether the totals of the session are those of the merges in the history.
    pub open spec fn totals_match(self) -> bool {
        &&& self.earlier_merges <= self.history.len()
        &&& self.history.len() == self.pnl.total_merges
        &&& payouts_of(self.history) == Some(self.pnl.total_merged_payout)
        &&& profits_of(self.history) == Some(self.pnl.total_profit)
        &&& pairs_of(self.history) == Some(self.pnl.total_pairs)
        &&& self.pnl.total_pairs == self.pnl.total_merged_payout
    }

    /// Whether what was invested is what the held, the merged and the sold shares cost, and the
    /// profit is what the merges paid less what they cost.
    pub open spec fn costs_match(self) -> bool {
        &&& self.pnl.total_invested@ == self.up.total_cost@ + self.down.total_cost@ + costs_of(
            self.history,
        ) + self.pnl.total_salvage_cost_basis@
        &&& self.pnl.total_profit@ == self.pnl.total_merged_payout@ - costs_of(self.history)
    }

    /// Whether the sums of a purchase keep all their digits.
    pub open spec fn fills_exactly(self, side: Side, shares: Decimal, price: Decimal) -> bool {
        shares.times(price) matches Some(cost) ==> adds_exactly(
            self.position(side).total_cost,
            cost,
        ) && adds_exactly(self.pnl.total_invested, cost)
    }

    /// Whether the sums of a merge keep all their digits.
    pub open spec fn merges_exactly(self) -> bool {
        let pairs = self.pairs();
        match (self.up.avg_cost.times(pairs), self.down.avg_cost.times(pairs)) {
            (Some(up_cost), Some(down_cost)) => {
                &&& adds_exactly(up_cost, down_cost)
                &&& subtracts_exactly(self.up.total_cost, up_cost)
                &&& subtracts_exactly(self.down.total_cost, down_cost)
                &&& up_cost.plus(down_cost) matches Some(cost) ==> subtracts_exactly(pairs, cost)
                    && (pairs.minus(cost) matches Some(profit) ==> adds_exactly(
                    self.pnl.total_profit,
                    profit,
                ))
                &&& adds_exactly(self.pnl.total_merged_payout, pairs)
            },
            _ => true,
        }
    }

    /// Whether the sums of a sale keep all their digits.
    pub open spec fn sells_exactly(self, side: Side, shares: Decimal) -> bool {
        let pos = self.position(side);
        smaller(shares, pos.shares).times(pos.avg_cost) matches Some(basis) ==> subtracts_exactly(
            pos.total_cost,
            basis,
        ) && adds_exactly(self.pnl.total_salvage_cost_basis, basis)
    }
}

impl EngineState {
    /// How far what was invested is from what the held, the merged and the sold shares cost.
    pub open spec fn cost_gap(self) -> real {
        self.pnl.total_invested@ - (self.up.total_cost@ + self.down.total_cost@ + costs_of(
            self.history,
        ) + self.pnl.total_salvage_cost_basis@)
    }

    /// How far the profit is from what the merges paid less what they cost.
    pub open spec fn profit_gap(self) -> real {
        self.pnl.total_profit@ - (self.pnl.total_merged_payout@ - costs_of(self.history))
    }

    /// Whether both gaps are no larger than a number of rounding errors, for amounts up to `most`.
    pub open spec fn balances(self, most: real, errors: nat) -> bool {
        &&& 1real <= most
        &&& is_within(self.cost_gap() * units_in_one(), (errors as real) * most)
        &&& is_within(self.profit_gap() * units_in_one(), (errors as real) * most)
    }

    /// Whether the sums of a purchase are of at most a given magnitude.
    pub open spec fn fill_is_within(
        self,
        side: Side,
        shares: Decimal,
        price: Decimal,
        most: real,
    ) -> bool {
        shares.times(price) matches Some(cost) ==> is_within(
            self.position(side).total_cost@ + cost@,
            most,
        ) && is_within(self.pnl.total_invested@ + cost@, most)
    }

    /// Whether the sums of a merge are of at most a given magnitude.
    pub open spec fn merge_is_within(self, most: real) -> bool {
        let pairs = self.pairs();
        match (self.up.avg_cost.times(pairs), self.down.avg_cost.times(pairs)) {
            (Some(up_cost), Some(down_cost)) => {
                &&& is_within(up_cost@ + down_cost@, most)
                &&& is_within(self.up.total_cost@ - up_cost@, most)
                &&& is_within(self.down.total_cost@ - down_cost@, most)
                &&& up_cost.plus(down_cost) matches Some(cost) ==> is_within(
                    pairs@ - cost@,
                    most,
                ) && (pairs.minus(cost) matches Some(profit) ==> is_within(
                    self.pnl.total_profit@ + profit@,
                    most,
                ))
                &&& is_within(self.pnl.total_merged_payout@ + pairs@, most)
            },
            _ => true,
        }
    }

    /// Whether the sums of a sale are of at most a given magnitude.
    pub open spec fn sale_is_within(self, side: Side, shares: Decimal, most: real) -> bool {
        let pos = self.position(side);
        smaller(shares, pos.shares).times(pos.avg_cost) matches Some(basis) ==> is_within(
            pos.total_cost@ - basis@,
            most,
        ) && is_within(self.pnl.total_salvage_cost_basis@ + basis@, most)
    }

    /// Whether the win rate is the share of the profitable merges, up to a number of units of the
    /// 28th place, counted on the whole.
    pub open spec fn win_rate_is_within(self, errors: nat) -> bool {
        self.history.len() == self.pnl.total_merges && is_share_within(
            self.pnl.win_rate,
            wins_of(self.history),
            self.history.len(),
            errors,
        )
    }

    /// Whether all amounts that a merge takes into account are of an ordinary size.
    pub open spec fn is_ordinary(self) -> bool {
        is_ordinary_position(self.up) && is_ordinary_position(self.down) && is_ordinary_pnl(self.pnl)
    }
}

/// There are at most as many wins as merges.
proof fn wins_are_merges(history: Seq<MergeResult>)
    ensures
        wins_of(history) <= history.len(),
    decreases history.len(),
{
    if history.len() > 0 {
        wins_are_merges(history.drop_last());
    }
}

/// A purchase adds two rounding errors to the balance at most.
proof fn a_fill_keeps_the_balance(
    state: EngineState,
    side: Side,
    shares: Decimal,
    price: Decimal,
    cost: Decimal,
    after: EngineState,
    most: real,
    errors: nat,
)
    requires
        shares.times(price) == Some(cost),
        state.after_fill(side, shares, price) == Some(after),
        is_rounded(after.position(side).total_cost, state.position(side).total_cost@ + cost@),
        is_rounded(after.pnl.total_invested, state.pnl.total_invested@ + cost@),
        state.balances(most, errors),
        state.fill_is_within(side, shares, price, most),
    ensures
        after.balances(most, errors + 2),
{
    rounding_errors_are_small(
        after.position(side).total_cost,
        state.position(side).total_cost@ + cost@,
        most,
    );
    rounding_errors_are_small(
        after.pnl.total_invested,
        state.pnl.total_invested@ + cost@,
        most,
    );
    assert(after.position(side.other()) == state.position(side.other()));
    let n = errors as real;
    assert((n + 2real) * most == n * most + 2real * most) by (nonlinear_arith);
}

/// A sale adds two rounding errors to the balance at most.
proof fn a_sale_keeps_the_balance(
    state: EngineState,
    side: Side,
    shares: Decimal,
    bid: Decimal,
    basis: Decimal,
    after: EngineState,
    proceeds: Decimal,
    most: real,
    errors: nat,
)
    requires
        state.after_salvage(side, shares, bid) == Some((after, proceeds)),
        smaller(shares, state.position(side).shares)@ > 0real,
        smaller(shares, state.position(side).shares).times(state.position(side).avg_cost) == Some(
            basis,
        ),
        is_rounded(after.position(side).total_cost, state.position(side).total_cost@ - basis@),
        is_rounded(
            after.pnl.total_salvage_cost_basis,
            state.pnl.total_salvage_cost_basis@ + basis@,
        ),
        state.balances(most, errors),
        state.sale_is_within(side, shares, most),
    ensures
        after.balances(most, errors + 2),
{
    rounding_errors_are_small(
        after.position(side).total_cost,
        state.position(side).total_cost@ - basis@,
        most,
    );
    rounding_errors_are_small(
        after.pnl.total_salvage_cost_basis,
        state.pnl.total_salvage_cost_basis@ + basis@,
        most,
    );
    assert(after.position(side.other()) == state.position(side.other()));
    let n = errors as real;
    assert((n + 2real) * most == n * most + 2real * most) by (nonlinear_arith);
}

/// A merge adds three rounding errors to the balance at most.
proof fn a_merge_keeps_the_balance(
    state: EngineState,
    now: i64,
    up_cost: Decimal,
    down_cost: Decimal,
    after: EngineState,
    merge: MergeResult,
    most: real,
    errors: nat,
)
    requires
        state.after_merge(now) == Some((after, Some(merge))),
        state.up.avg_cost.times(state.pairs()) == Some(up_cost),
        state.down.avg_cost.times(state.pairs()) == Some(down_cost),
        up_cost.plus(down_cost) == Some(merge.total_cost),
        state.pairs().minus(merge.total_cost) == Some(merge.profit),
        is_rounded(merge.total_cost, up_cost@ + down_cost@),
        is_rounded(merge.profit, state.pairs()@ - merge.total_cost@),
        is_rounded(after.up.total_cost, state.up.total_cost@ - up_cost@),
        is_rounded(after.down.total_cost, state.down.total_cost@ - down_cost@),
        is_rounded(
            after.pnl.total_merged_payout,
            state.pnl.total_merged_payout@ + state.pairs()@,
        ),
        is_rounded(after.pnl.total_profit, state.pnl.total_profit@ + merge.profit@),
        state.balances(most, errors),
        state.merge_is_within(most),
    ensures
        after.balances(most, errors + 3),
{
    let pairs = state.pairs();
    rounding_errors_are_small(merge.total_cost, up_cost@ + down_cost@, most);
    rounding_errors_are_small(merge.profit, pairs@ - merge.total_cost@, most);
    rounding_errors_are_small(after.up.total_cost, state.up.total_cost@ - up_cost@, most);
    rounding_errors_are_small(after.down.total_cost, state.down.total_cost@ - down_cost@, most);
    rounding_errors_are_small(
        after.pnl.total_merged_payout,
        state.pnl.total_merged_payout@ + pairs@,
        most,
    );
    rounding_errors_are_small(
        after.pnl.total_profit,
        state.pnl.total_profit@ + merge.profit@,
        most,
    );
    assert(after.history.drop_last() =~= state.history);
    let n = errors as real;
    assert((n + 3real) * most == n * most + 3real * most) by (nonlinear_arith);
}

/// What is in balance up to some rounding errors is so up to more of them.
pub proof fn a_balance_allows_more_errors(state: EngineState, most: real, fewer: nat, more: nat)
    requires
        state.balances(most, fewer),
        fewer <= more,
    ensures
        state.balances(most, more),
{
    let (a, b) = (fewer as real, more as real);
    assert(a * most <= b * most) by (nonlinear_arith)
        requires
            a <= b,
            1real <= most,
    ;
}

/// Over a session the balance is off by three rounding errors for each purchase, merge and sale at
/// most, if each of them adds no more than it does according to the contracts of the engine.
pub proof fn rounding_errors_add_up(states: Seq<EngineState>, most: real)
    requires
        states.len() > 0,
        states[0].balances(most, 0),
        forall|i: int, errors: nat|
            0 <= i < states.len() - 1 && #[trigger] states[i].balances(most, errors)
                ==> states[i + 1].balances(most, errors + 3),
    ensures
        states.last().balances(most, (3 * (states.len() - 1)) as nat),
    decreases states.len(),
{
    if states.len() > 1 {
        let before = states.drop_last();
        assert forall|i: int, errors: nat|
            0 <= i < before.len() - 1 && #[trigger] before[i].balances(
                most,
                errors,
            ) implies before[i + 1].balances(most, errors + 3) by {
            assert(states[i].balances(most, errors));
        }
        rounding_errors_add_up(before, most);
        assert(states[states.len() - 2].balances(most, (3 * (states.len() - 2)) as nat));
    }
}

/// A session starts in balance.
pub proof fn a_session_starts_in_balance(dry_run: bool, most: real)
    requires
        1real <= most,
    ensures
        EngineState::initial(dry_run).balances(most, 0),
        EngineState::initial(dry_run).win_rate_is_within(0),
{
    broadcast use {crate::decimal::parts_of_dec, crate::decimal::sign_is_that_of_the_mantissa};

    assert(dec(0, 0)@ == 0real);
}

/// The totals of the session are those of the merges in the history, whatever is done: their
/// number, payouts, profits and pairs.
pub proof fn the_history_holds_every_merge(
    state: EngineState,
    side: Side,
    shares: Decimal,
    price: Decimal,
    now: i64,
    dry_run: bool,
)
    requires
        state.totals_match(),
    ensures
        EngineState::initial(dry_run).totals_match(),
        state.after_fill(side, shares, price) matches Some(after) ==> after.totals_match(),
        state.after_merge(now) matches Some((after, _)) ==> after.totals_match(),
        state.after_salvage(side, shares, price) matches Some((after, _)) ==> after.totals_match(),
        state.for_new_window() matches Some(after) ==> after.totals_match(),
{
    if let Some((after, Some(merge))) = state.after_merge(now) {
        assert(after.history.drop_last() =~= state.history);
    }
}

/// What was invested is what the held, the merged and the sold shares cost, and the profit is what
/// the merges paid less what they cost. This holds after purchases, merges and sales, unless a sum
/// had to be rounded, and after a new window that drops nothing.
pub proof fn every_cost_is_accounted_for(
    state: EngineState,
    side: Side,
    shares: Decimal,
    price: Decimal,
    now: i64,
    dry_run: bool,
)
    requires
        state.costs_match(),
    ensures
        EngineState::initial(dry_run).costs_match(),
        state.fills_exactly(side, shares, price) ==> (state.after_fill(
            side,
            shares,
            price,
        ) matches Some(after) ==> after.costs_match()),
        state.merges_exactly() ==> (state.after_merge(now) matches Some((after, _))
            ==> after.costs_match()),
        state.sells_exactly(side, shares) ==> (state.after_salvage(
            side,
            shares,
            price,
        ) matches Some((after, _)) ==> after.costs_match()),
        state.up.total_cost@ == 0real && state.down.total_cost@ == 0real ==> (
        state.for_new_window() matches Some(after) ==> after.costs_match()),
{
    broadcast use {crate::decimal::parts_of_dec, crate::decimal::sign_is_that_of_the_mantissa};

    let pairs = state.pairs();
    let amount = smaller(shares, state.position(side).shares);
    assert(dec(0, 0)@ == 0real);
    if state.after_fill(side, shares, price) is Some && state.fills_exactly(side, shares, price) {
        let cost = shares.times(price)->0;
        kept_sum_is_exact(state.position(side).total_cost, cost);
        kept_sum_is_exact(state.pnl.total_invested, cost);
    }
    if let Some((after, Some(merge))) = state.after_merge(now) {
        if state.merges_exactly() {
            let up_cost = state.up.avg_cost.times(pairs)->0;
            let down_cost = state.down.avg_cost.times(pairs)->0;
            kept_sum_is_exact(up_cost, down_cost);
            kept_difference_is_exact(state.up.total_cost, up_cost);
            kept_difference_is_exact(state.down.total_cost, down_cost);
            kept_difference_is_exact(pairs, merge.total_cost);
            kept_sum_is_exact(state.pnl.total_profit, merge.profit);
            kept_sum_is_exact(state.pnl.total_merged_payout, pairs);
            assert(after.history.drop_last() =~= state.history);
        }
    }
    if state.after_salvage(side, shares, price) is Some && state.sells_exactly(side, shares) && amount@
        > 0real {
        let basis = amount.times(state.position(side).avg_cost)->0;
        kept_difference_is_exact(state.position(side).total_cost, basis);
        kept_sum_is_exact(state.pnl.total_salvage_cost_basis, basis);
    }
}

/// At the start of a session the win rate is exact.
pub proof fn the_first_win_rate_is_exact(dry_run: bool)
    ensures
        EngineState::initial(dry_run).counts_wins_exactly(),
{
    broadcast use {crate::decimal::parts_of_dec, crate::decimal::sign_is_that_of_the_mantissa};

    assert(dec(0, 0)@ == 0real);
}

/// A new window starts without shares and merges, and keeps the totals and the history of the session.
pub proof fn a_new_window_starts_without_shares(state: EngineState, after: EngineState)
    requires
        state.for_new_window() == Some(after),
    ensures
        after.up == no_position(),
        after.down == no_position(),
        after.history == state.history,
        after.window_merges().len() == 0,
        after.pnl.total_profit == state.pnl.total_profit,
        after.pnl.total_merges == state.pnl.total_merges,
        after.pnl.markets_traded == state.pnl.markets_traded + 1,
{
}

/// A sale never sells more than is held, and leaves the other side, the profit of the merges and
/// the history as they are.
pub proof fn a_sale_sells_what_is_held(
    state: EngineState,
    side: Side,
    shares: Decimal,
    bid: Decimal,
    after: EngineState,
    proceeds: Decimal,
)
    requires
        state.after_salvage(side, shares, bid) == Some((after, proceeds)),
    ensures
        after.position(side.other()) == state.position(side.other()),
        after.pnl.total_profit == state.pnl.total_profit,
        after.history == state.history,
        state.position(side).shares@ <= 0real ==> after == state && proceeds == dec(0, 0),
        after == state || smaller(shares, state.position(side).shares).times(bid) == Some(
            proceeds,
        ) && state.position(side).shares.minus(smaller(shares, state.position(side).shares))
            == Some(after.position(side).shares),
{
}

} // verus!
