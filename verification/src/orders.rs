//! Order management: order creation, placement, cancellation and fill tracking.
//!
//! In dry-run mode orders are matched against a given order book.

use vstd::prelude::*;
use vstd::string::*;
use crate::clock::now_millis;
use crate::decimal::{ArithmeticError, Decimal};
use crate::decimal::{dec, product_of, sum_of};
use crate::json::Json;
use crate::json::is_text;
use crate::text::same_text;
use crate::types::{Order, OrderBook, OrderState, OrderStatus, Side};

verus! {

/// Order manager handles all order operations.
pub struct OrderManager {
    /// All orders, in the order in which they were placed
    orders: Vec<Order>,
    /// Whether orders are simulated
    dry_run: bool,
    /// URL of the order book API (for live mode)
    clob_url: String,
    /// API credentials (live mode)
    api_key: Option<String>,
    api_secret: Option<String>,
    passphrase: Option<String>,
}

/// The state of an order manager.
pub ghost struct OrdersState {
    pub orders: Seq<OrderState>,
    pub dry_run: bool,
    pub clob_url: Seq<char>,
    pub api_key: Option<Seq<char>>,
    pub api_secret: Option<Seq<char>>,
    pub passphrase: Option<Seq<char>>,
}

/// A text that may be missing.
pub open spec fn optional_chars(text: Option<String>) -> Option<Seq<char>> {
    match text {
        Some(t) => Some(t@),
        None => None,
    }
}

/// The orders with their texts as character sequences.
pub open spec fn states(orders: Seq<Order>) -> Seq<OrderState> {
    orders.map_values(|order: Order| order@)
}

impl View for OrderManager {
    type V = OrdersState;

    closed spec fn view(&self) -> OrdersState {
        OrdersState {
            orders: states(self.orders@),
            dry_run: self.dry_run,
            clob_url: self.clob_url@,
            api_key: optional_chars(self.api_key),
            api_secret: optional_chars(self.api_secret),
            passphrase: optional_chars(self.passphrase),
        }
    }
}

/// Why an order is not placed.
#[derive(Debug, Clone, Copy)]
pub enum OrderError {
    /// The order is below the minimum of five shares.
    TooSmall(Decimal),
    /// The price is not between zero and one dollar.
    InvalidPrice(Decimal),
}

impl OrderError {
    /// The message of the error.
    pub open spec fn chars(self) -> Seq<char> {
        match self {
            OrderError::TooSmall(size) => "Order size "@ + size.chars()
                + " below minimum of 5 shares"@,
            OrderError::InvalidPrice(price) => "Invalid price: "@ + price.chars()
                + " (must be 0 < p < 1)"@,
        }
    }

    /// The message of the error.
    pub fn text(&self) -> (r: String)
        ensures
            r@ == self.chars(),
    {
        match self {
            OrderError::TooSmall(size) => "Order size ".to_string().concat(
                size.text().as_str(),
            ).concat(" below minimum of 5 shares"),
            OrderError::InvalidPrice(price) => "Invalid price: ".to_string().concat(
                price.text().as_str(),
            ).concat(" (must be 0 < p < 1)"),
        }
    }
}

/// What becomes of an order that is valid.
#[derive(Debug)]
pub enum Placement {
    /// The order with this ID was placed.
    Placed(String),
    /// The order has to be submitted, and accepted, before it is placed.
    Submit(Order),
}

/// Why an order of a given price and size is not placed, if it is not.
pub open spec fn order_error(price: Decimal, size: Decimal) -> Option<OrderError> {
    if size@ < 5real {
        Some(OrderError::TooSmall(size))
    } else if price@ <= 0real || 1real <= price@ {
        Some(OrderError::InvalidPrice(price))
    } else {
        None
    }
}

/// A new order: open, with nothing filled.
pub open spec fn new_order(
    id: Seq<char>,
    market_condition_id: Seq<char>,
    token_id: Seq<char>,
    side: Side,
    price: Decimal,
    size: Decimal,
    now: i64,
    is_dry_run: bool,
) -> OrderState {
    OrderState {
        id,
        market_condition_id,
        token_id,
        side,
        price,
        fill_price: price,
        size,
        filled: dec(0, 0),
        status: OrderStatus::Open,
        created_at: now,
        is_dry_run,
    }
}

/// Whether `i` is the first position of the order with a given ID.
pub open spec fn is_first_with(orders: Seq<OrderState>, id: Seq<char>, i: int) -> bool {
    &&& 0 <= i < orders.len()
    &&& orders[i].id == id
    &&& forall|j: int| 0 <= j < i ==> (#[trigger] orders[j]).id != id
}

/// Whether there is an order with a given ID.
pub open spec fn has_id(orders: Seq<OrderState>, id: Seq<char>) -> bool {
    exists|i: int| is_first_with(orders, id, i)
}

/// The position of the order with a given ID.
pub open spec fn index_of(orders: Seq<OrderState>, id: Seq<char>) -> int {
    choose|i: int| is_first_with(orders, id, i)
}

/// The order with a given ID.
pub open spec fn order_with(orders: Seq<OrderState>, id: Seq<char>) -> Option<OrderState> {
    if has_id(orders, id) {
        Some(orders[index_of(orders, id)])
    } else {
        None
    }
}

/// The orders with one more. It takes the place of an order with the same ID.
pub open spec fn with_order(orders: Seq<OrderState>, order: OrderState) -> Seq<OrderState> {
    if has_id(orders, order.id) {
        orders.update(index_of(orders, order.id), order)
    } else {
        orders.push(order)
    }
}

/// Whether no two orders have the same ID.
pub open spec fn distinct_ids(orders: Seq<OrderState>) -> bool {
    forall|i: int, j: int|
        0 <= i < j < orders.len() ==> (#[trigger] orders[i]).id != (#[trigger] orders[j]).id
}

/// The order, cancelled if it was live.
pub open spec fn cancelled(order: OrderState) -> OrderState {
    if order.status.is_live() {
        OrderState { status: OrderStatus::Cancelled, ..order }
    } else {
        order
    }
}

/// Whether every ID of the second orders is one of the first.
pub open spec fn no_new_ids(before: Seq<OrderState>, after: Seq<OrderState>) -> bool {
    forall|id: Seq<char>| #[trigger] has_id(after, id) ==> has_id(before, id)
}

/// Cancelling all orders gives no new IDs.
pub proof fn cancelling_gives_no_new_ids(state: OrdersState)
    ensures
        no_new_ids(state.orders, state.after_cancel_all().orders),
{
    let after = state.after_cancel_all().orders;
    assert forall|id: Seq<char>| #[trigger] has_id(after, id) implies has_id(state.orders, id) by {
        let i = choose|i: int| is_first_with(after, id, i);
        assert forall|j: int| 0 <= j < i implies (#[trigger] state.orders[j]).id != id by {
            assert(after[j].id != id);
        }
        assert(is_first_with(state.orders, id, i));
    }
}

/// The number of live orders.
pub open spec fn live_count(orders: Seq<OrderState>) -> nat
    decreases orders.len(),
{
    if orders.len() == 0 {
        0
    } else {
        live_count(orders.drop_last()) + if orders.last().status.is_live() {
            1nat
        } else {
            0
        }
    }
}

/// The number of live orders of a side.
pub open spec fn live_count_of(orders: Seq<OrderState>, side: Side) -> nat
    decreases orders.len(),
{
    if orders.len() == 0 {
        0
    } else {
        live_count_of(orders.drop_last(), side) + if orders.last().status.is_live()
            && orders.last().side == side {
            1nat
        } else {
            0
        }
    }
}

/// What is not yet filled of an order.
pub open spec fn unfilled(order: OrderState) -> Option<Decimal> {
    order.size.minus(order.filled)
}

/// What the unfilled shares of an order would cost.
pub open spec fn exposure(order: OrderState) -> Option<Decimal> {
    product_of(unfilled(order), Some(order.price))
}

/// The unfilled shares of the live orders of a side.
pub open spec fn pending_shares(orders: Seq<OrderState>, side: Side) -> Option<Decimal>
    decreases orders.len(),
{
    if orders.len() == 0 {
        Some(dec(0, 0))
    } else {
        let before = pending_shares(orders.drop_last(), side);
        if orders.last().status.is_live() && orders.last().side == side {
            sum_of(before, unfilled(orders.last()))
        } else {
            before
        }
    }
}

/// What the unfilled shares of all live orders would cost.
pub open spec fn live_exposure(orders: Seq<OrderState>) -> Option<Decimal>
    decreases orders.len(),
{
    if orders.len() == 0 {
        Some(dec(0, 0))
    } else {
        let before = live_exposure(orders.drop_last());
        if orders.last().status.is_live() {
            sum_of(before, exposure(orders.last()))
        } else {
            before
        }
    }
}

/// Whether an order is a filled one of a given market and side.
pub open spec fn is_filled_of(order: OrderState, market: Seq<char>, side: Side) -> bool {
    order.market_condition_id == market && order.side == side && order.status
        == OrderStatus::Filled
}

/// The shares of the filled orders of a market and side, and what they cost.
pub open spec fn filled_totals(orders: Seq<OrderState>, market: Seq<char>, side: Side) -> Option<
    (Decimal, Decimal),
>
    decreases orders.len(),
{
    if orders.len() == 0 {
        Some((dec(0, 0), dec(0, 0)))
    } else {
        let before = filled_totals(orders.drop_last(), market, side);
        let order = orders.last();
        if is_filled_of(order, market, side) {
            match before {
                Some((shares, cost)) => match (
                    shares.plus(order.filled),
                    sum_of(Some(cost), order.filled.times(order.fill_price)),
                ) {
                    (Some(more_shares), Some(more_cost)) => Some((more_shares, more_cost)),
                    _ => None,
                },
                None => None,
            }
        } else {
            before
        }
    }
}

/// When an order is stale.
pub struct StaleRule {
    /// The current time (Unix milliseconds)
    pub now: i64,
    /// How old an order may get
    pub max_age_secs: u64,
    pub up_best_ask: Option<Decimal>,
    pub down_best_ask: Option<Decimal>,
    /// How far the ask may be above the price
    pub min_gap: Decimal,
}

impl StaleRule {
    /// The best ask of a side.
    pub open spec fn ask(self, side: Side) -> Option<Decimal> {
        match side {
            Side::Up => self.up_best_ask,
            Side::Down => self.down_best_ask,
        }
    }

    /// Whether an order is older than it may get.
    pub open spec fn is_old(self, order: OrderState) -> bool {
        self.now - order.created_at > self.max_age_secs * 1000
    }

    /// Whether an order is live, old, and far below the ask, or without an ask. `None` stands for
    /// a number that does not fit.
    pub open spec fn is_stale(self, order: OrderState) -> Option<bool> {
        if !order.status.is_live() || !self.is_old(order) {
            Some(false)
        } else {
            match self.ask(order.side) {
                Some(ask) => match order.price.plus(self.min_gap) {
                    Some(limit) => Some(ask@ > limit@),
                    None => None,
                },
                None => Some(true),
            }
        }
    }

    /// The orders with the stale ones cancelled, the number of those, and what their unfilled
    /// shares would have cost.
    pub open spec fn applied(self, orders: Seq<OrderState>) -> Option<
        (Seq<OrderState>, nat, Decimal),
    >
        decreases orders.len(),
    {
        if orders.len() == 0 {
            Some((Seq::empty(), 0, dec(0, 0)))
        } else {
            match (self.applied(orders.drop_last()), self.is_stale(orders.last())) {
                (Some((before, count, released)), Some(stale)) => if stale {
                    match sum_of(Some(released), exposure(orders.last())) {
                        Some(more) => Some(
                            (before.push(cancelled(orders.last())), count + 1, more),
                        ),
                        None => None,
                    }
                } else {
                    Some((before.push(orders.last()), count, released))
                },
                _ => None,
            }
        }
    }
}

/// Whether an order for a token is filled at a given best ask.
pub open spec fn is_fillable(order: OrderState, token_id: Seq<char>, best_ask: Option<Decimal>) -> bool {
    order.token_id == token_id && order.status.is_live() && match best_ask {
        Some(ask) => ask@ <= order.price@,
        None => false,
    }
}

/// The order, filled in full at the best ask if that is at or below its price.
pub open spec fn filled(order: OrderState, token_id: Seq<char>, best_ask: Option<Decimal>) -> OrderState {
    if is_fillable(order, token_id, best_ask) {
        OrderState {
            filled: order.size,
            fill_price: best_ask->0,
            status: OrderStatus::Filled,
            ..order
        }
    } else {
        order
    }
}

/// The IDs of the orders that are filled.
pub open spec fn filled_ids(
    orders: Seq<OrderState>,
    token_id: Seq<char>,
    best_ask: Option<Decimal>,
) -> Seq<Seq<char>>
    decreases orders.len(),
{
    if orders.len() == 0 {
        Seq::empty()
    } else {
        let before = filled_ids(orders.drop_last(), token_id, best_ask);
        if is_fillable(orders.last(), token_id, best_ask) {
            before.push(orders.last().id)
        } else {
            before
        }
    }
}

impl OrdersState {
    /// The state without orders and credentials.
    pub open spec fn initial(dry_run: bool, clob_url: Seq<char>) -> OrdersState {
        OrdersState {
            orders: Seq::empty(),
            dry_run,
            clob_url,
            api_key: None,
            api_secret: None,
            passphrase: None,
        }
    }

    /// The state with one more order.
    pub open spec fn after_order(self, order: OrderState) -> OrdersState {
        OrdersState { orders: with_order(self.orders, order), ..self }
    }

    /// The state with an order cancelled, if it was live.
    pub open spec fn after_cancel(self, id: Seq<char>) -> OrdersState {
        if has_id(self.orders, id) {
            let i = index_of(self.orders, id);
            OrdersState { orders: self.orders.update(i, cancelled(self.orders[i])), ..self }
        } else {
            self
        }
    }

    /// The state with all live orders cancelled.
    pub open spec fn after_cancel_all(self) -> OrdersState {
        OrdersState { orders: self.orders.map_values(|order: OrderState| cancelled(order)), ..self }
    }

    /// The state with the stale orders cancelled, the number of those, and the exposure that they
    /// release.
    pub open spec fn after_stale(self, rule: StaleRule) -> Option<(OrdersState, u32, Decimal)> {
        match rule.applied(self.orders) {
            Some((orders, count, released)) => if count <= u32::MAX {
                Some((OrdersState { orders, ..self }, count as u32, released))
            } else {
                None
            },
            None => None,
        }
    }

    /// The state after the orders for a token were matched against a best ask.
    pub open spec fn after_fills(self, token_id: Seq<char>, best_ask: Option<Decimal>) -> OrdersState {
        OrdersState {
            orders: self.orders.map_values(|order: OrderState| filled(order, token_id, best_ask)),
            ..self
        }
    }
}

/// `Uuid::new_v4().to_string()` of `uuid`: a new ID for an order. Nothing is known of the text,
/// since it is drawn at random.
#[verifier::external_body]
pub(crate) fn new_order_id() -> String {
    uuid::Uuid::new_v4().to_string()
}

impl OrderManager {
    /// An order manager without orders.
    pub fn new(dry_run: bool, clob_url: &str) -> (r: OrderManager)
        ensures
            r@ == OrdersState::initial(dry_run, clob_url@),
    {
        let r = OrderManager {
            orders: Vec::new(),
            dry_run,
            clob_url: clob_url.to_string(),
            api_key: None,
            api_secret: None,
            passphrase: None,
        };
        assert(r@.orders =~= Seq::empty());
        r
    }

    /// Sets the API credentials for live mode.
    pub fn with_credentials(
        self,
        api_key: Option<String>,
        api_secret: Option<String>,
        passphrase: Option<String>,
    ) -> (r: OrderManager)
        ensures
            r@ == (OrdersState {
                api_key: optional_chars(api_key),
                api_secret: optional_chars(api_secret),
                passphrase: optional_chars(passphrase),
                ..self@
            }),
    {
        OrderManager {
            orders: self.orders,
            dry_run: self.dry_run,
            clob_url: self.clob_url,
            api_key,
            api_secret,
            passphrase,
        }
    }

    /// Whether orders are simulated.
    pub fn is_dry_run(&self) -> (r: bool)
        ensures
            r == self@.dry_run,
    {
        self.dry_run
    }

    /// The position of the order with a given ID.
    fn find(&self, id: &str) -> (r: Option<usize>)
        ensures
            match r {
                Some(i) => has_id(self@.orders, id@) && index_of(self@.orders, id@) == i && i
                    < self.orders.len(),
                None => !has_id(self@.orders, id@),
            },
    {
        let mut i: usize = 0;
        while i < self.orders.len()
            invariant
                i <= self.orders.len(),
                forall|j: int| 0 <= j < i ==> (#[trigger] self@.orders[j]).id != id@,
            decreases self.orders.len() - i,
        {
            assert(self@.orders[i as int] == self.orders[i as int]@);
            if same_text(self.orders[i].id.as_str(), id) {
                assert(is_first_with(self@.orders, id@, i as int));
                return Some(i);
            }
            i = i + 1;
        }
        None
    }

    /// Adds an order. It takes the place of an order with the same ID.
    pub fn accept_order(&mut self, order: Order)
        ensures
            final(self)@ == old(self)@.after_order(order@),
    {
        match self.find(order.id.as_str()) {
            Some(i) => {
                self.orders[i] = order;
            },
            None => {
                self.orders.push(order);
            },
        }
        assert(self@.orders =~= with_order(old(self)@.orders, order@));
    }

    /// Places a limit buy order for a side, with a given ID and time. In live mode the order is
    /// returned instead, to be submitted and then accepted.
    pub fn place_limit_buy_at(
        &mut self,
        market_condition_id: &str,
        token_id: &str,
        side: Side,
        price: Decimal,
        size: Decimal,
        id: &str,
        now: i64,
    ) -> (r: Result<Placement, OrderError>)
        ensures
            match order_error(price, size) {
                Some(error) => r == Err::<Placement, OrderError>(error) && final(self)@ == old(self)@,
                None => {
                    let order = new_order(
                        id@,
                        market_condition_id@,
                        token_id@,
                        side,
                        price,
                        size,
                        now,
                        old(self)@.dry_run,
                    );
                    match r {
                        Ok(Placement::Placed(placed)) => old(self)@.dry_run && placed@ == id@
                            && final(self)@ == old(self)@.after_order(order),
                        Ok(Placement::Submit(submitted)) => !old(self)@.dry_run && submitted@
                            == order && final(self)@ == old(self)@,
                        Err(_) => false,
                    }
                },
            },
    {
        if size < Decimal::whole(5) {
            return Err(OrderError::TooSmall(size));
        }
        if price <= Decimal::whole(0) || price >= Decimal::whole(1) {
            return Err(OrderError::InvalidPrice(price));
        }
        let order = Order {
            id: id.to_string(),
            market_condition_id: market_condition_id.to_string(),
            token_id: token_id.to_string(),
            side,
            price,
            fill_price: price,
            size,
            filled: Decimal::whole(0),
            status: OrderStatus::Open,
            created_at: now,
            is_dry_run: self.dry_run,
        };
        if self.dry_run {
            self.accept_order(order);
            Ok(Placement::Placed(id.to_string()))
        } else {
            Ok(Placement::Submit(order))
        }
    }

    /// Places a limit buy order for a side, under a new ID. In live mode the order is returned
    /// instead, to be submitted and then accepted.
    pub fn place_limit_buy(
        &mut self,
        market_condition_id: &str,
        token_id: &str,
        side: Side,
        price: Decimal,
        size: Decimal,
    ) -> (r: Result<Placement, OrderError>)
        ensures
            match order_error(price, size) {
                Some(error) => r == Err::<Placement, OrderError>(error) && final(self)@ == old(self)@,
                None => exists|id: Seq<char>, now: i64|
                    {
                        let order = #[trigger] new_order(
                            id,
                            market_condition_id@,
                            token_id@,
                            side,
                            price,
                            size,
                            now,
                            old(self)@.dry_run,
                        );
                        match r {
                            Ok(Placement::Placed(placed)) => old(self)@.dry_run && placed@ == id
                                && final(self)@ == old(self)@.after_order(order),
                            Ok(Placement::Submit(submitted)) => !old(self)@.dry_run && submitted@
                                == order && final(self)@ == old(self)@,
                            Err(_) => false,
                        }
                    },
            },
    {
        let id = new_order_id();
        let now: i64 = now_millis();
        self.place_limit_buy_at(
            market_condition_id,
            token_id,
            side,
            price,
            size,
            id.as_str(),
            now,
        )
    }

    /// Cancels an order, if it is live.
    pub fn cancel_order(&mut self, order_id: &str)
        ensures
            final(self)@ == old(self)@.after_cancel(order_id@),
    {
        if let Some(i) = self.find(order_id) {
            if self.orders[i].status.can_fill() {
                self.orders[i].status = OrderStatus::Cancelled;
            }
            assert(self@.orders =~= old(self)@.after_cancel(order_id@).orders);
        }
    }

    /// The number of live orders.
    pub fn open_order_count(&self) -> (r: usize)
        ensures
            r == live_count(self@.orders),
    {
        let mut count: usize = 0;
        let mut i: usize = 0;
        while i < self.orders.len()
            invariant
                i <= self.orders.len(),
                count <= i,
                count == live_count(self@.orders.take(i as int)),
            decreases self.orders.len() - i,
        {
            proof {
                assert(self@.orders.take(i + 1).drop_last() =~= self@.orders.take(i as int));
            }
            if self.orders[i].status.can_fill() {
                count = count + 1;
            }
            i = i + 1;
        }
        assert(self@.orders.take(i as int) =~= self@.orders);
        count
    }

    /// Cancels all live orders. Returns their number.
    pub fn cancel_all(&mut self) -> (r: Result<u32, ArithmeticError>)
        ensures
            match r {
                Ok(count) => count == live_count(old(self)@.orders) && final(self)@
                    == old(self)@.after_cancel_all(),
                Err(_) => live_count(old(self)@.orders) > u32::MAX && final(self)@ == old(self)@,
            },
    {
        let count: usize = self.open_order_count();
        if count > u32::MAX as usize {
            return Err(ArithmeticError);
        }
        let mut i: usize = 0;
        while i < self.orders.len()
            invariant
                i <= self.orders.len(),
                self.orders.len() == old(self)@.orders.len(),
                self@ == (OrdersState { orders: self@.orders, ..old(self)@ }),
                forall|j: int|
                    0 <= j < self.orders.len() ==> #[trigger] self@.orders[j] == if j < i {
                        cancelled(old(self)@.orders[j])
                    } else {
                        old(self)@.orders[j]
                    },
            decreases self.orders.len() - i,
        {
            assert(self@.orders[i as int] == self.orders[i as int]@);
            let ghost before = self@.orders;
            if self.orders[i].status.can_fill() {
                self.orders[i].status = OrderStatus::Cancelled;
            }
            assert(self@.orders =~= before.update(i as int, cancelled(before[i as int])));
            i = i + 1;
        }
        assert(self@.orders =~= old(self)@.after_cancel_all().orders);
        Ok(count as u32)
    }

    /// Cancels the stale orders at a given time.
    ///
    /// An order is stale if it has been open for more than `max_age_secs` seconds and the best ask
    /// of its side is more than `min_gap` above its price, or there is no ask. Returns the number
    /// of cancelled orders, and what their unfilled shares would have cost.
    pub fn cancel_stale_orders_at(&mut self, rule: &StaleRule) -> (r: Result<
        (u32, Decimal),
        ArithmeticError,
    >)
        ensures
            match old(self)@.after_stale(*rule) {
                Some((state, count, released)) => r == Ok::<(u32, Decimal), ArithmeticError>(
                    (count, released),
                ) && final(self)@ == state,
                None => r is Err && final(self)@ == old(self)@,
            },
    {
        let mut stale: Vec<bool> = Vec::new();
        let mut count: usize = 0;
        let mut released = Decimal::whole(0);
        let mut i: usize = 0;
        while i < self.orders.len()
            invariant
                i <= self.orders.len(),
                self@ == old(self)@,
                stale.len() == i,
                count <= i,
                rule.applied(self@.orders.take(i as int)) matches Some((orders, n, amount)) && n
                    == count && amount == released && orders.len() == i && forall|j: int|
                    0 <= j < i ==> #[trigger] orders[j] == if stale[j] {
                        cancelled(self@.orders[j])
                    } else {
                        self@.orders[j]
                    },
            decreases self.orders.len() - i,
        {
            proof {
                assert(self@.orders.take(i + 1).drop_last() =~= self@.orders.take(i as int));
                assert(self@.orders[i as int] == self.orders[i as int]@);
                applied_prefix(*rule, self@.orders, i + 1);
            }
            let is_stale = rule.check(&self.orders[i])?;
            if is_stale {
                let order = &self.orders[i];
                let amount = order.size.checked_sub(order.filled)?.checked_mul(order.price)?;
                released = released.checked_add(amount)?;
                count = count + 1;
            }
            stale.push(is_stale);
            i = i + 1;
        }
        assert(self@.orders.take(i as int) =~= self@.orders);
        if count > u32::MAX as usize {
            return Err(ArithmeticError);
        }
        let mut k: usize = 0;
        while k < self.orders.len()
            invariant
                k <= self.orders.len(),
                self.orders.len() == old(self)@.orders.len(),
                stale.len() == self.orders.len(),
                self@ == (OrdersState { orders: self@.orders, ..old(self)@ }),
                forall|j: int|
                    0 <= j < self.orders.len() ==> #[trigger] self@.orders[j] == if j < k
                        && stale[j] {
                        cancelled(old(self)@.orders[j])
                    } else {
                        old(self)@.orders[j]
                    },
            decreases self.orders.len() - k,
        {
            assert(self@.orders[k as int] == self.orders[k as int]@);
            let ghost before = self@.orders;
            if stale[k] && self.orders[k].status.can_fill() {
                self.orders[k].status = OrderStatus::Cancelled;
            }
            assert(self@.orders =~= before.update(
                k as int,
                if stale[k as int] {
                    cancelled(before[k as int])
                } else {
                    before[k as int]
                },
            ));
            k = k + 1;
        }
        assert(self@.orders =~= (rule.applied(old(self)@.orders)->0).0);
        Ok((count as u32, released))
    }

    /// Cancels the stale orders, those that are unlikely to be filled.
    ///
    /// An order is stale if it has been open for more than `max_age_secs` seconds and the best ask
    /// of its side is more than `min_gap` above its price, or there is no ask. Returns the number
    /// of cancelled orders, and what their unfilled shares would have cost.
    pub fn cancel_stale_orders(
        &mut self,
        max_age_secs: u64,
        up_best_ask: Option<Decimal>,
        down_best_ask: Option<Decimal>,
        min_gap: Decimal,
    ) -> (r: Result<(u32, Decimal), ArithmeticError>)
        ensures
            exists|now: i64|
                match #[trigger] old(self)@.after_stale(
                    (StaleRule { now, max_age_secs, up_best_ask, down_best_ask, min_gap }),
                ) {
                    Some((state, count, released)) => r == Ok::<(u32, Decimal), ArithmeticError>(
                        (count, released),
                    ) && final(self)@ == state,
                    None => r is Err && final(self)@ == old(self)@,
                },
    {
        let rule = StaleRule {
            now: now_millis(),
            max_age_secs,
            up_best_ask,
            down_best_ask,
            min_gap,
        };
        self.cancel_stale_orders_at(&rule)
    }

    /// Matches the orders for a token against an order book. An order is filled in full, at the
    /// best ask, if that is at or below its price. Returns the IDs of the filled orders.
    pub fn simulate_fills(&mut self, book: &OrderBook, token_id: &str) -> (r: Vec<String>)
        ensures
            final(self)@ == old(self)@.after_fills(token_id@, book.ask()),
            r@.map_values(|id: String| id@) == filled_ids(
                old(self)@.orders,
                token_id@,
                book.ask(),
            ),
    {
        let mut ids: Vec<String> = Vec::new();
        let best_ask = book.best_ask();
        let mut i: usize = 0;
        while i < self.orders.len()
            invariant
                i <= self.orders.len(),
                best_ask == book.ask(),
                self.orders.len() == old(self)@.orders.len(),
                self@ == (OrdersState { orders: self@.orders, ..old(self)@ }),
                forall|j: int|
                    0 <= j < self.orders.len() ==> #[trigger] self@.orders[j] == if j < i {
                        filled(old(self)@.orders[j], token_id@, best_ask)
                    } else {
                        old(self)@.orders[j]
                    },
                ids@.map_values(|id: String| id@) == filled_ids(
                    old(self)@.orders.take(i as int),
                    token_id@,
                    best_ask,
                ),
            decreases self.orders.len() - i,
        {
            let ghost before = self@.orders;
            let ghost texts = ids@.map_values(|id: String| id@);
            proof {
                assert(before[i as int] == self.orders[i as int]@);
                assert(old(self)@.orders.take(i + 1).drop_last() =~= old(self)@.orders.take(
                    i as int,
                ));
            }
            let fills = match best_ask {
                Some(ask) => same_text(self.orders[i].token_id.as_str(), token_id)
                    && self.orders[i].status.can_fill() && ask <= self.orders[i].price,
                None => false,
            };
            if fills {
                if let Some(ask) = best_ask {
                    let size = self.orders[i].size;
                    self.orders[i].filled = size;
                    self.orders[i].fill_price = ask;
                    self.orders[i].status = OrderStatus::Filled;
                }
                let id = self.orders[i].id.clone();
                ids.push(id);
                assert(ids@.map_values(|id: String| id@) =~= texts.push(before[i as int].id));
            }
            assert(self@.orders =~= before.update(
                i as int,
                filled(before[i as int], token_id@, best_ask),
            ));
            i = i + 1;
        }
        assert(self@.orders =~= old(self)@.after_fills(token_id@, book.ask()).orders);
        assert(old(self)@.orders.take(i as int) =~= old(self)@.orders);
        ids
    }

    /// The shares of the filled orders of a market and side, and what they cost.
    pub fn filled_shares(&self, market_condition_id: &str, side: Side) -> (r: Result<
        (Decimal, Decimal),
        ArithmeticError,
    >)
        ensures
            r.ok() == filled_totals(self@.orders, market_condition_id@, side),
    {
        let mut total_shares = Decimal::whole(0);
        let mut total_cost = Decimal::whole(0);
        let mut i: usize = 0;
        while i < self.orders.len()
            invariant
                i <= self.orders.len(),
                filled_totals(self@.orders.take(i as int), market_condition_id@, side) == Some(
                    (total_shares, total_cost),
                ),
            decreases self.orders.len() - i,
        {
            let order = &self.orders[i];
            proof {
                assert(self@.orders.take(i + 1).drop_last() =~= self@.orders.take(i as int));
                assert(self@.orders[i as int] == order@);
                filled_prefix(self@.orders, market_condition_id@, side, i + 1);
            }
            if same_text(order.market_condition_id.as_str(), market_condition_id) && order.side
                == side && order.status == OrderStatus::Filled {
                total_shares = total_shares.checked_add(order.filled)?;
                let cost = order.filled.checked_mul(order.fill_price)?;
                total_cost = total_cost.checked_add(cost)?;
            }
            i = i + 1;
        }
        assert(self@.orders.take(i as int) =~= self@.orders);
        Ok((total_shares, total_cost))
    }

    /// The unfilled shares of the live orders: those of the Up side and those of the Down side.
    pub fn pending_shares_per_side(&self) -> (r: Result<(Decimal, Decimal), ArithmeticError>)
        ensures
            match (pending_shares(self@.orders, Side::Up), pending_shares(self@.orders, Side::Down)) {
                (Some(up), Some(down)) => r == Ok::<(Decimal, Decimal), ArithmeticError>(
                    (up, down),
                ),
                _ => r is Err,
            },
    {
        let mut up_pending = Decimal::whole(0);
        let mut down_pending = Decimal::whole(0);
        let mut i: usize = 0;
        while i < self.orders.len()
            invariant
                i <= self.orders.len(),
                pending_shares(self@.orders.take(i as int), Side::Up) == Some(up_pending),
                pending_shares(self@.orders.take(i as int), Side::Down) == Some(down_pending),
            decreases self.orders.len() - i,
        {
            let order = &self.orders[i];
            proof {
                assert(self@.orders.take(i + 1).drop_last() =~= self@.orders.take(i as int));
                assert(self@.orders[i as int] == order@);
                pending_prefix(self@.orders, Side::Up, i + 1);
                pending_prefix(self@.orders, Side::Down, i + 1);
            }
            if order.status.can_fill() {
                let remaining = order.size.checked_sub(order.filled)?;
                match order.side {
                    Side::Up => {
                        up_pending = up_pending.checked_add(remaining)?;
                    },
                    Side::Down => {
                        down_pending = down_pending.checked_add(remaining)?;
                    },
                }
            }
            i = i + 1;
        }
        assert(self@.orders.take(i as int) =~= self@.orders);
        Ok((up_pending, down_pending))
    }

    /// The number of live orders: those of the Up side and those of the Down side.
    pub fn open_orders_per_side(&self) -> (r: (usize, usize))
        ensures
            r.0 == live_count_of(self@.orders, Side::Up),
            r.1 == live_count_of(self@.orders, Side::Down),
    {
        let mut up_count: usize = 0;
        let mut down_count: usize = 0;
        let mut i: usize = 0;
        while i < self.orders.len()
            invariant
                i <= self.orders.len(),
                up_count <= i,
                down_count <= i,
                up_count == live_count_of(self@.orders.take(i as int), Side::Up),
                down_count == live_count_of(self@.orders.take(i as int), Side::Down),
            decreases self.orders.len() - i,
        {
            proof {
                assert(self@.orders.take(i + 1).drop_last() =~= self@.orders.take(i as int));
                assert(self@.orders[i as int] == self.orders[i as int]@);
            }
            if self.orders[i].status.can_fill() {
                match self.orders[i].side {
                    Side::Up => {
                        up_count = up_count + 1;
                    },
                    Side::Down => {
                        down_count = down_count + 1;
                    },
                }
            }
            i = i + 1;
        }
        assert(self@.orders.take(i as int) =~= self@.orders);
        (up_count, down_count)
    }

    /// What the unfilled shares of all live orders would cost.
    pub fn open_exposure(&self) -> (r: Result<Decimal, ArithmeticError>)
        ensures
            r.ok() == live_exposure(self@.orders),
    {
        let mut total = Decimal::whole(0);
        let mut i: usize = 0;
        while i < self.orders.len()
            invariant
                i <= self.orders.len(),
                live_exposure(self@.orders.take(i as int)) == Some(total),
            decreases self.orders.len() - i,
        {
            let order = &self.orders[i];
            proof {
                assert(self@.orders.take(i + 1).drop_last() =~= self@.orders.take(i as int));
                assert(self@.orders[i as int] == order@);
                exposure_prefix(self@.orders, i + 1);
            }
            if order.status.can_fill() {
                let amount = order.size.checked_sub(order.filled)?.checked_mul(order.price)?;
                total = total.checked_add(amount)?;
            }
            i = i + 1;
        }
        assert(self@.orders.take(i as int) =~= self@.orders);
        Ok(total)
    }

    /// All orders, in the order in which they were placed.
    pub fn all_orders(&self) -> (r: Vec<Order>)
        ensures
            states(r@) == self@.orders,
    {
        let mut all: Vec<Order> = Vec::new();
        let mut i: usize = 0;
        while i < self.orders.len()
            invariant
                i <= self.orders.len(),
                states(all@) == self@.orders.take(i as int),
            decreases self.orders.len() - i,
        {
            let ghost before = states(all@);
            let order = self.orders[i].clone();
            all.push(order);
            assert(states(all@) =~= before.push(order@));
            assert(self@.orders.take(i + 1) =~= self@.orders.take(i as int).push(
                self@.orders[i as int],
            ));
            i = i + 1;
        }
        assert(self@.orders.take(i as int) =~= self@.orders);
        all
    }

    /// The order with a given ID.
    pub fn order(&self, id: &str) -> (r: Option<Order>)
        ensures
            match r {
                Some(order) => order_with(self@.orders, id@) == Some(order@),
                None => order_with(self@.orders, id@) is None,
            },
    {
        match self.find(id) {
            Some(i) => Some(self.orders[i].clone()),
            None => None,
        }
    }
}

impl OrderManager {
    /// The URL to submit an order to.
    pub fn order_url(&self) -> (r: String)
        ensures
            r@ == self@.clob_url + "/order"@,
    {
        self.clob_url.clone().concat("/order")
    }

    /// The URL to cancel an order with.
    pub fn cancel_url(&self, order_id: &str) -> (r: String)
        ensures
            r@ == self@.clob_url + "/order/"@ + order_id@,
    {
        self.clob_url.clone().concat("/order/").concat(order_id)
    }

    /// The URL to cancel all orders with.
    pub fn cancel_all_url(&self) -> (r: String)
        ensures
            r@ == self@.clob_url + "/cancel-all"@,
    {
        self.clob_url.clone().concat("/cancel-all")
    }

    /// Whether the cancellation of an order has to be submitted: in live mode, if it is live.
    pub fn needs_cancel_request(&self, order_id: &str) -> (r: bool)
        ensures
            r == (!self@.dry_run && (order_with(self@.orders, order_id@) matches Some(order)
                && order.status.is_live())),
    {
        match self.find(order_id) {
            Some(i) => !self.dry_run && self.orders[i].status.can_fill(),
            None => false,
        }
    }

    /// The headers that authenticate a request, if there are all three credentials.
    pub fn auth_headers(&self) -> (r: Option<Vec<(String, String)>>)
        ensures
            match (self@.api_key, self@.api_secret, self@.passphrase) {
                (Some(key), Some(secret), Some(passphrase)) => r matches Some(headers) && headers@.len() == 3
                    && is_header(headers@[0], "POLY_API_KEY"@, key) && is_header(
                    headers@[1],
                    "POLY_API_SECRET"@,
                    secret,
                ) && is_header(headers@[2], "POLY_PASSPHRASE"@, passphrase),
                _ => r is None,
            },
    {
        match (&self.api_key, &self.api_secret, &self.passphrase) {
            (Some(key), Some(secret), Some(passphrase)) => {
                let mut headers: Vec<(String, String)> = Vec::new();
                headers.push(("POLY_API_KEY".to_string(), key.clone()));
                headers.push(("POLY_API_SECRET".to_string(), secret.clone()));
                headers.push(("POLY_PASSPHRASE".to_string(), passphrase.clone()));
                Some(headers)
            },
            _ => None,
        }
    }

    /// The message that submits an order.
    pub fn order_payload(order: &Order) -> (r: Json)
        ensures
            r matches Json::Object(entries) && entries@.len() == 1 && entries@[0].0@ == "order"@
                && is_order_payload(entries@[0].1, order@),
    {
        let mut fields: Vec<(String, Json)> = Vec::new();
        fields.push(("tokenID".to_string(), Json::Text(order.token_id.clone())));
        fields.push(("price".to_string(), Json::Text(order.price.text())));
        fields.push(("size".to_string(), Json::Text(order.size.text())));
        fields.push(("side".to_string(), Json::Text("BUY".to_string())));
        fields.push(("type".to_string(), Json::Text("GTC".to_string())));
        let mut entries: Vec<(String, Json)> = Vec::new();
        entries.push(("order".to_string(), Json::Object(fields)));
        Json::Object(entries)
    }
}

/// Whether a header has a given name and value.
pub open spec fn is_header(header: (String, String), name: Seq<char>, value: Seq<char>) -> bool {
    header.0@ == name && header.1@ == value
}

/// Whether an entry of a JSON object has a given key and text.
pub open spec fn is_text_entry(entry: (String, Json), key: Seq<char>, text: Seq<char>) -> bool {
    entry.0@ == key && is_text(entry.1, text)
}

/// Whether a JSON value describes an order: its token, price and size, and that it buys until it is
/// cancelled.
pub open spec fn is_order_payload(value: Json, order: OrderState) -> bool {
    value matches Json::Object(fields) && fields@.len() == 5 && is_text_entry(
        fields@[0],
        "tokenID"@,
        order.token_id,
    ) && is_text_entry(fields@[1], "price"@, order.price.chars()) && is_text_entry(
        fields@[2],
        "size"@,
        order.size.chars(),
    ) && is_text_entry(fields@[3], "side"@, "BUY"@) && is_text_entry(fields@[4], "type"@, "GTC"@)
}

impl StaleRule {
    /// Whether an order is live, old, and far below the ask, or without an ask.
    pub fn check(&self, order: &Order) -> (r: Result<bool, ArithmeticError>)
        ensures
            r.ok() == self.is_stale(order@),
    {
        let age: i128 = self.now as i128 - order.created_at as i128;
        if !order.status.can_fill() || age <= self.max_age_secs as i128 * 1000 {
            return Ok(false);
        }
        let ask = match order.side {
            Side::Up => self.up_best_ask,
            Side::Down => self.down_best_ask,
        };
        match ask {
            Some(best) => {
                let limit = order.price.checked_add(self.min_gap)?;
                Ok(best > limit)
            },
            None => Ok(true),
        }
    }
}

/// Where the first `n` orders give a number that does not fit, all orders do.
proof fn applied_prefix(rule: StaleRule, orders: Seq<OrderState>, n: int)
    requires
        0 <= n <= orders.len(),
    ensures
        rule.applied(orders.take(n)) is None ==> rule.applied(orders) is None,
    decreases orders.len() - n,
{
    if n < orders.len() {
        assert(orders.take(n + 1).drop_last() =~= orders.take(n));
        applied_prefix(rule, orders, n + 1);
    } else {
        assert(orders.take(n) =~= orders);
    }
}

/// Where the first `n` orders give a number that does not fit, all orders do.
proof fn filled_prefix(orders: Seq<OrderState>, market: Seq<char>, side: Side, n: int)
    requires
        0 <= n <= orders.len(),
    ensures
        filled_totals(orders.take(n), market, side) is None ==> filled_totals(
            orders,
            market,
            side,
        ) is None,
    decreases orders.len() - n,
{
    if n < orders.len() {
        assert(orders.take(n + 1).drop_last() =~= orders.take(n));
        filled_prefix(orders, market, side, n + 1);
    } else {
        assert(orders.take(n) =~= orders);
    }
}

/// Where the first `n` orders give a number that does not fit, all orders do.
proof fn pending_prefix(orders: Seq<OrderState>, side: Side, n: int)
    requires
        0 <= n <= orders.len(),
    ensures
        pending_shares(orders.take(n), side) is None ==> pending_shares(orders, side) is None,
    decreases orders.len() - n,
{
    if n < orders.len() {
        assert(orders.take(n + 1).drop_last() =~= orders.take(n));
        pending_prefix(orders, side, n + 1);
    } else {
        assert(orders.take(n) =~= orders);
    }
}

/// Where the first `n` orders give a number that does not fit, all orders do.
proof fn exposure_prefix(orders: Seq<OrderState>, n: int)
    requires
        0 <= n <= orders.len(),
    ensures
        live_exposure(orders.take(n)) is None ==> live_exposure(orders) is None,
    decreases orders.len() - n,
{
    if n < orders.len() {
        assert(orders.take(n + 1).drop_last() =~= orders.take(n));
        exposure_prefix(orders, n + 1);
    } else {
        assert(orders.take(n) =~= orders);
    }
}

/// Cancelling all orders leaves none live and no exposure, and a second time changes nothing.
pub proof fn cancelling_all_leaves_no_live_order(state: OrdersState)
    ensures
        live_count(state.after_cancel_all().orders) == 0,
        live_exposure(state.after_cancel_all().orders) == Some(dec(0, 0)),
        pending_shares(state.after_cancel_all().orders, Side::Up) == Some(dec(0, 0)),
        pending_shares(state.after_cancel_all().orders, Side::Down) == Some(dec(0, 0)),
        state.after_cancel_all().after_cancel_all() == state.after_cancel_all(),
        state.after_cancel_all().orders.len() == state.orders.len(),
{
    let after = state.after_cancel_all().orders;
    assert forall|i: int| 0 <= i < after.len() implies !(#[trigger] after[i]).status.is_live() by {
        assert(after[i] == cancelled(state.orders[i]));
    }
    without_live_orders(after);
    assert(state.after_cancel_all().after_cancel_all().orders =~= after);
}

/// Without live orders there is nothing open, pending or exposed.
proof fn without_live_orders(orders: Seq<OrderState>)
    requires
        forall|i: int| 0 <= i < orders.len() ==> !(#[trigger] orders[i]).status.is_live(),
    ensures
        live_count(orders) == 0,
        live_exposure(orders) == Some(dec(0, 0)),
        pending_shares(orders, Side::Up) == Some(dec(0, 0)),
        pending_shares(orders, Side::Down) == Some(dec(0, 0)),
    decreases orders.len(),
{
    if orders.len() > 0 {
        without_live_orders(orders.drop_last());
    }
}

/// Every live order is of one side.
pub proof fn live_orders_are_up_or_down(orders: Seq<OrderState>)
    ensures
        live_count(orders) == live_count_of(orders, Side::Up) + live_count_of(orders, Side::Down),
        live_count(orders) <= orders.len(),
    decreases orders.len(),
{
    if orders.len() > 0 {
        live_orders_are_up_or_down(orders.drop_last());
    }
}

/// An order that is filled is filled in full, and never above its limit price.
pub proof fn fills_never_exceed_the_limit_price(
    state: OrdersState,
    token_id: Seq<char>,
    best_ask: Option<Decimal>,
    i: int,
)
    requires
        0 <= i < state.orders.len(),
        state.orders[i].status.is_live(),
        state.after_fills(token_id, best_ask).orders[i].status == OrderStatus::Filled,
    ensures
        state.after_fills(token_id, best_ask).orders[i].fill_price@ <= state.orders[i].price@,
        state.after_fills(token_id, best_ask).orders[i].filled == state.orders[i].size,
        state.after_fills(token_id, best_ask).orders[i].price == state.orders[i].price,
        state.orders[i].token_id == token_id,
{
}

/// Matching leaves no live order for the token at or above the ask, so that a second time nothing
/// is filled.
pub proof fn matching_twice_fills_nothing_more(
    state: OrdersState,
    token_id: Seq<char>,
    best_ask: Option<Decimal>,
)
    ensures
        filled_ids(state.after_fills(token_id, best_ask).orders, token_id, best_ask) == Seq::<
            Seq<char>,
        >::empty(),
        state.after_fills(token_id, best_ask).after_fills(token_id, best_ask) == state.after_fills(
            token_id,
            best_ask,
        ),
{
    let after = state.after_fills(token_id, best_ask).orders;
    assert forall|i: int| 0 <= i < after.len() implies !#[trigger] is_fillable(
        after[i],
        token_id,
        best_ask,
    ) by {
        assert(after[i] == filled(state.orders[i], token_id, best_ask));
    }
    nothing_to_fill(after, token_id, best_ask);
    assert(state.after_fills(token_id, best_ask).after_fills(token_id, best_ask).orders =~= after);
}

/// Without orders that can be filled, none is.
proof fn nothing_to_fill(
    orders: Seq<OrderState>,
    token_id: Seq<char>,
    best_ask: Option<Decimal>,
)
    requires
        forall|i: int|
            0 <= i < orders.len() ==> !#[trigger] is_fillable(orders[i], token_id, best_ask),
    ensures
        filled_ids(orders, token_id, best_ask) == Seq::<Seq<char>>::empty(),
    decreases orders.len(),
{
    if orders.len() > 0 {
        assert(!is_fillable(orders[orders.len() - 1], token_id, best_ask));
        assert forall|i: int| 0 <= i < orders.drop_last().len() implies !#[trigger] is_fillable(
            orders.drop_last()[i],
            token_id,
            best_ask,
        ) by {
            assert(!is_fillable(orders[i], token_id, best_ask));
        }
        nothing_to_fill(orders.drop_last(), token_id, best_ask);
    }
}

/// An order that is filled, cancelled or rejected stays as it is, whatever is cancelled or matched.
pub proof fn finished_orders_stay_as_they_are(
    state: OrdersState,
    i: int,
    id: Seq<char>,
    rule: StaleRule,
    token_id: Seq<char>,
    best_ask: Option<Decimal>,
)
    requires
        0 <= i < state.orders.len(),
        !state.orders[i].status.is_live(),
    ensures
        state.after_cancel(id).orders[i] == state.orders[i],
        state.after_cancel_all().orders[i] == state.orders[i],
        state.after_stale(rule) matches Some((after, _, _)) ==> after.orders[i] == state.orders[i],
        state.after_fills(token_id, best_ask).orders[i] == state.orders[i],
{
    stale_orders_are_old(state.orders, rule);
}

/// Cancelling stale orders cancels those that are live, older than the limit and far below the
/// ask, and leaves all others as they are. A cancelled order keeps everything but its status.
pub proof fn stale_orders_are_old(orders: Seq<OrderState>, rule: StaleRule)
    ensures
        rule.applied(orders) matches Some((after, count, _)) ==> after.len() == orders.len()
            && count <= orders.len() && forall|i: int|
            0 <= i < orders.len() ==> #[trigger] after[i] == if rule.is_stale(orders[i]) == Some(
                true,
            ) {
                cancelled(orders[i])
            } else {
                orders[i]
            },
    decreases orders.len(),
{
    if orders.len() > 0 {
        stale_orders_are_old(orders.drop_last(), rule);
        if let Some((before, _, _)) = rule.applied(orders.drop_last()) {
            assert(orders.drop_last().len() == before.len());
            if let Some((after, _, _)) = rule.applied(orders) {
                assert forall|i: int| 0 <= i < orders.len() implies #[trigger] after[i] == if rule.is_stale(
                    orders[i],
                ) == Some(true) {
                    cancelled(orders[i])
                } else {
                    orders[i]
                } by {
                    if i < orders.len() - 1 {
                        assert(after[i] == before[i]);
                        assert(orders.drop_last()[i] == orders[i]);
                    }
                }
            }
        }
    }
}

/// No two orders ever have the same ID.
pub proof fn ids_stay_distinct(
    state: OrdersState,
    order: OrderState,
    id: Seq<char>,
    rule: StaleRule,
    token_id: Seq<char>,
    best_ask: Option<Decimal>,
)
    requires
        distinct_ids(state.orders),
    ensures
        distinct_ids(state.after_order(order).orders),
        distinct_ids(state.after_cancel(id).orders),
        distinct_ids(state.after_cancel_all().orders),
        state.after_stale(rule) matches Some((after, _, _)) ==> distinct_ids(after.orders),
        distinct_ids(state.after_fills(token_id, best_ask).orders),
{
    stale_orders_are_old(state.orders, rule);
    let added = state.after_order(order).orders;
    if has_id(state.orders, order.id) {
        assert(is_first_with(state.orders, order.id, index_of(state.orders, order.id)));
    } else {
        assert forall|i: int| 0 <= i < state.orders.len() implies (#[trigger] state.orders[i]).id
            != order.id by {
            if state.orders[i].id == order.id {
                an_id_has_a_first_order(state.orders, order.id, i);
            }
        }
    }
}

/// Where an order has an ID, there is a first one that has it.
pub proof fn an_id_has_a_first_order(orders: Seq<OrderState>, id: Seq<char>, i: int)
    requires
        0 <= i < orders.len(),
        orders[i].id == id,
    ensures
        has_id(orders, id),
    decreases i,
{
    if !is_first_with(orders, id, i) {
        let j = choose|j: int| 0 <= j < i && (#[trigger] orders[j]).id == id;
        an_id_has_a_first_order(orders, id, j);
    }
}

/// An order that was just placed is found under its ID.
pub proof fn a_placed_order_is_found(state: OrdersState, order: OrderState)
    ensures
        order_with(state.after_order(order).orders, order.id) == Some(order),
{
    let after = state.after_order(order).orders;
    if has_id(state.orders, order.id) {
        let i = index_of(state.orders, order.id);
        assert(is_first_with(after, order.id, i));
        assert(is_first_with(after, order.id, index_of(after, order.id)));
    } else {
        let i = state.orders.len() as int;
        assert forall|j: int| 0 <= j < i implies (#[trigger] after[j]).id != order.id by {
            if state.orders[j].id == order.id {
                an_id_has_a_first_order(state.orders, order.id, j);
            }
        }
        assert(is_first_with(after, order.id, i));
        assert(is_first_with(after, order.id, index_of(after, order.id)));
    }
}

/// Placing an order under a new ID adds one to the live orders of its side.
pub proof fn a_new_order_counts_once(
    state: OrdersState,
    order: OrderState,
)
    requires
        !has_id(state.orders, order.id),
        order.status.is_live(),
    ensures
        live_count(state.after_order(order).orders) == live_count(state.orders) + 1,
        live_count_of(state.after_order(order).orders, order.side) == live_count_of(
            state.orders,
            order.side,
        ) + 1,
        live_count_of(state.after_order(order).orders, order.side.other()) == live_count_of(
            state.orders,
            order.side.other(),
        ),
{
    assert(state.orders.push(order).drop_last() =~= state.orders);
}

} // verus!
