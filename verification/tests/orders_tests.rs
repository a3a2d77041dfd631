use merge_bot::decimal::Decimal;
use merge_bot::json::Json;
use merge_bot::orders::{OrderError, OrderManager, Placement, StaleRule};
use merge_bot::types::{BookLevel, Order, OrderBook, OrderStatus, Side};

fn d(num: i64, scale: u32) -> Decimal {
    Decimal::new(num, scale)
}

fn place(orders: &mut OrderManager, id: &str, side: Side, price: Decimal, size: Decimal, now: i64) {
    let token = match side {
        Side::Up => "up",
        Side::Down => "down",
    };
    match orders.place_limit_buy_at("market", token, side, price, size, id, now) {
        Ok(Placement::Placed(placed)) => assert_eq!(placed, id),
        other => panic!("not placed: {:?}", other),
    }
}

fn book(ask: Option<Decimal>) -> OrderBook {
    let mut book = OrderBook::default();
    if let Some(price) = ask {
        book.asks.push(BookLevel { price, size: d(500, 0) });
    }
    book
}

fn status(orders: &OrderManager, id: &str) -> OrderStatus {
    orders.order(id).unwrap().status
}

#[test]
fn orders_are_checked() {
    let mut orders = OrderManager::new(true, "url");
    let small = orders.place_limit_buy("m", "t", Side::Up, d(45, 2), d(499, 2));
    match small {
        Err(error) => {
            assert!(matches!(error, OrderError::TooSmall(_)));
            assert_eq!(error.text(), "Order size 4.99 below minimum of 5 shares");
        },
        other => panic!("{:?}", other),
    }
    for price in [d(0, 0), d(-1, 0), d(1, 0), d(100, 2)] {
        let result = orders.place_limit_buy("m", "t", Side::Up, price, d(5, 0));
        assert!(matches!(result, Err(OrderError::InvalidPrice(_))));
    }
    assert_eq!(OrderError::InvalidPrice(d(100, 2)).text(), "Invalid price: 1.00 (must be 0 < p < 1)");
    assert_eq!(orders.open_order_count(), 0);
}

#[test]
fn placed_orders_are_open() {
    let mut orders = OrderManager::new(true, "url");
    let id = match orders.place_limit_buy("market", "token", Side::Down, d(45, 2), d(5, 0)) {
        Ok(Placement::Placed(id)) => id,
        other => panic!("{:?}", other),
    };
    assert_eq!(id.len(), 36);
    let order = orders.order(&id).unwrap();
    assert_eq!(order.id, id);
    assert_eq!(order.market_condition_id, "market");
    assert_eq!(order.token_id, "token");
    assert_eq!(order.side, Side::Down);
    assert_eq!(order.price, d(45, 2));
    assert_eq!(order.fill_price, d(45, 2));
    assert_eq!(order.size, d(5, 0));
    assert!(order.filled.is_zero());
    assert_eq!(order.status, OrderStatus::Open);
    assert!(order.created_at > 1_700_000_000_000);
    assert!(order.is_dry_run);
    assert_eq!(orders.all_orders().len(), 1);
    assert!(orders.order("other").is_none());
}

#[test]
fn two_orders_get_different_ids() {
    let mut orders = OrderManager::new(true, "url");
    for _ in 0..2 {
        orders.place_limit_buy("m", "t", Side::Up, d(45, 2), d(5, 0)).unwrap();
    }
    let all = orders.all_orders();
    assert_eq!(all.len(), 2);
    assert_ne!(all[0].id, all[1].id);
}

#[test]
fn live_orders_are_submitted_first() {
    let mut orders = OrderManager::new(false, "url");
    let order = match orders.place_limit_buy("m", "t", Side::Up, d(45, 2), d(5, 0)) {
        Ok(Placement::Submit(order)) => order,
        other => panic!("{:?}", other),
    };
    assert!(!order.is_dry_run);
    assert_eq!(orders.open_order_count(), 0);
    orders.accept_order(order.clone());
    assert_eq!(orders.open_order_count(), 1);
    assert!(orders.needs_cancel_request(&order.id));
    orders.cancel_order(&order.id);
    assert!(!orders.needs_cancel_request(&order.id));
}

#[test]
fn an_order_with_the_same_id_replaces_the_first() {
    let mut orders = OrderManager::new(true, "url");
    place(&mut orders, "a", Side::Up, d(45, 2), d(5, 0), 0);
    place(&mut orders, "b", Side::Up, d(45, 2), d(6, 0), 0);
    place(&mut orders, "a", Side::Down, d(40, 2), d(7, 0), 0);
    let all = orders.all_orders();
    assert_eq!(all.len(), 2);
    assert_eq!(all[0].size, d(7, 0));
    assert_eq!(all[1].id, "b");
}

#[test]
fn cancelling_twice_changes_nothing() {
    let mut orders = OrderManager::new(true, "url");
    place(&mut orders, "a", Side::Up, d(45, 2), d(5, 0), 0);
    place(&mut orders, "b", Side::Down, d(45, 2), d(5, 0), 0);
    place(&mut orders, "c", Side::Down, d(45, 2), d(5, 0), 0);
    orders.cancel_order("a");
    orders.cancel_order("missing");
    assert_eq!(status(&orders, "a"), OrderStatus::Cancelled);
    assert_eq!(orders.open_orders_per_side(), (0, 2));
    assert_eq!(orders.cancel_all().unwrap(), 2);
    assert_eq!(orders.cancel_all().unwrap(), 0);
    assert_eq!(orders.open_order_count(), 0);
    assert_eq!(orders.open_exposure().unwrap(), d(0, 0));
    assert!(!orders.needs_cancel_request("a"));
}

#[test]
fn fills_are_at_the_ask() {
    let mut orders = OrderManager::new(true, "url");
    place(&mut orders, "cheap", Side::Up, d(39, 2), d(5, 0), 0);
    place(&mut orders, "high", Side::Up, d(48, 2), d(5, 0), 0);
    place(&mut orders, "exact", Side::Up, d(40, 2), d(6, 0), 0);
    place(&mut orders, "other", Side::Down, d(48, 2), d(5, 0), 0);
    assert!(orders.simulate_fills(&book(None), "up").is_empty());
    assert_eq!(orders.simulate_fills(&book(Some(d(40, 2))), "up"), vec!["high", "exact"]);
    assert!(orders.simulate_fills(&book(Some(d(40, 2))), "up").is_empty());
    let high = orders.order("high").unwrap();
    assert_eq!(high.status, OrderStatus::Filled);
    assert_eq!(high.filled, d(5, 0));
    assert_eq!(high.fill_price, d(40, 2));
    assert_eq!(high.price, d(48, 2));
    assert_eq!(status(&orders, "cheap"), OrderStatus::Open);
    assert_eq!(status(&orders, "other"), OrderStatus::Open);
    assert_eq!(orders.filled_shares("market", Side::Up).unwrap(), (d(11, 0), d(44, 1)));
    assert_eq!(orders.filled_shares("market", Side::Down).unwrap(), (d(0, 0), d(0, 0)));
    assert_eq!(orders.filled_shares("elsewhere", Side::Up).unwrap(), (d(0, 0), d(0, 0)));
    orders.cancel_order("high");
    assert_eq!(status(&orders, "high"), OrderStatus::Filled);
    assert_eq!(orders.pending_shares_per_side().unwrap(), (d(5, 0), d(5, 0)));
}

#[test]
fn stale_orders_are_old_and_far_from_the_ask() {
    let rule = |now: i64| StaleRule {
        now,
        max_age_secs: 30,
        up_best_ask: Some(d(48, 2)),
        down_best_ask: None,
        min_gap: d(3, 2),
    };
    let mut orders = OrderManager::new(true, "url");
    place(&mut orders, "far", Side::Up, d(44, 2), d(5, 0), 1_000);
    place(&mut orders, "near", Side::Up, d(45, 2), d(5, 0), 1_000);
    place(&mut orders, "no ask", Side::Down, d(47, 2), d(10, 0), 1_000);
    place(&mut orders, "young", Side::Up, d(10, 2), d(5, 0), 20_000);
    assert_eq!(orders.cancel_stale_orders_at(&rule(31_000)).unwrap(), (0, d(0, 0)));
    assert_eq!(orders.cancel_stale_orders_at(&rule(31_001)).unwrap(), (2, d(69, 1)));
    assert_eq!(status(&orders, "far"), OrderStatus::Cancelled);
    assert_eq!(status(&orders, "near"), OrderStatus::Open);
    assert_eq!(status(&orders, "no ask"), OrderStatus::Cancelled);
    assert_eq!(status(&orders, "young"), OrderStatus::Open);
    assert_eq!(orders.cancel_stale_orders_at(&rule(31_001)).unwrap(), (0, d(0, 0)));
}

#[test]
fn new_orders_are_not_stale() {
    let mut orders = OrderManager::new(true, "url");
    orders.place_limit_buy("m", "t", Side::Up, d(45, 2), d(5, 0)).unwrap();
    place(&mut orders, "old", Side::Up, d(45, 2), d(5, 0), 0);
    let (count, released) = orders.cancel_stale_orders(30, None, None, d(3, 2)).unwrap();
    assert_eq!((count, released), (1, d(225, 2)));
    assert_eq!(status(&orders, "old"), OrderStatus::Cancelled);
}

#[test]
fn a_gap_that_does_not_fit_is_an_error() {
    let mut orders = OrderManager::new(true, "url");
    place(&mut orders, "a", Side::Up, d(99, 2), d(5, 0), 0);
    let huge = Decimal::from_parts(0xffff_ffff_ffff_ffff_ffff_ffff, 0).unwrap();
    let result = orders.cancel_stale_orders(0, Some(huge), None, huge);
    assert!(result.is_err());
    assert_eq!(status(&orders, "a"), OrderStatus::Open);
}

#[test]
fn requests_name_the_order_api() {
    let orders = OrderManager::new(false, "https://clob");
    assert_eq!(orders.order_url(), "https://clob/order");
    assert_eq!(orders.cancel_url("7"), "https://clob/order/7");
    assert_eq!(orders.cancel_all_url(), "https://clob/cancel-all");
    assert!(orders.auth_headers().is_none());
    let partly = OrderManager::new(false, "").with_credentials(Some("k".to_string()), None, None);
    assert!(partly.auth_headers().is_none());
    let orders = orders.with_credentials(
        Some("key".to_string()),
        Some("secret".to_string()),
        Some("pass".to_string()),
    );
    let headers = orders.auth_headers().unwrap();
    let expected: Vec<(String, String)> = vec![
        ("POLY_API_KEY".to_string(), "key".to_string()),
        ("POLY_API_SECRET".to_string(), "secret".to_string()),
        ("POLY_PASSPHRASE".to_string(), "pass".to_string()),
    ];
    assert_eq!(headers, expected);
    assert!(!orders.is_dry_run());
}

#[test]
fn the_order_payload_holds_texts() {
    let order = Order {
        id: "id".to_string(),
        market_condition_id: "m".to_string(),
        token_id: "token".to_string(),
        side: Side::Up,
        price: d(450, 3),
        fill_price: d(450, 3),
        size: d(5, 0),
        filled: d(0, 0),
        status: OrderStatus::Open,
        created_at: 0,
        is_dry_run: false,
    };
    let payload = OrderManager::order_payload(&order);
    let inner = payload.get("order").unwrap();
    let text = |key: &str| match inner.get(key) {
        Some(Json::Text(text)) => text.clone(),
        other => panic!("{}: {:?}", key, other),
    };
    assert_eq!(text("tokenID"), "token");
    assert_eq!(text("price"), "0.450");
    assert_eq!(text("size"), "5");
    assert_eq!(text("side"), "BUY");
    assert_eq!(text("type"), "GTC");
}
