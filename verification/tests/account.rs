use binance_account::{
    sign, AccountClient, Decimal, Error, Method, OrderRespType, Side, TimeInForce, Variant,
    BINANCE_URL, BINANCE_US_URL, ID,
};

const API_KEY: &str = "vmPUZE6mv9SD5VNHk4HlWFsOr6aKE2zvsw0MuIgwCIPy6utIco14y7Ju91duEh8A";
const SECRET: &str = "NhqPtmdSJYdKjVHjA7PZj4Mge3R5YNiP1e3UZjInClVN65XAbvqqM6A7H5fATj0j";

fn client() -> AccountClient {
    AccountClient::connect(API_KEY, SECRET, BINANCE_US_URL).unwrap()
}

fn signed(query: &str) -> String {
    format!("{}&signature={}", query, sign(SECRET.as_bytes(), query.as_bytes()))
}

#[test]
fn connect_accepts_an_absolute_url() {
    let c = AccountClient::connect("key", "secret", BINANCE_URL).unwrap();
    assert_eq!(c.api_key(), "key");
    assert_eq!(c.url().to_text(), "https://api.binance.com/");
}

#[test]
fn connect_rejects_a_malformed_url() {
    assert!(matches!(AccountClient::connect("k", "s", "not a url"), Err(Error::UrlParseError)));
    assert!(matches!(AccountClient::connect("k", "s", ""), Err(Error::UrlParseError)));
    assert!(matches!(
        AccountClient::connect("k", "s", "/api/v3/order"),
        Err(Error::UrlParseError)
    ));
}

#[test]
fn limit_order_as_test_order_end_to_end() {
    let c = client();
    let request = c
        .place_limit_order("BNBUSDT", Side::Sell, Decimal::new(2000, 2), Decimal::new(500, 2), false)
        .prepare(1499827319559)
        .unwrap();
    assert_eq!(request.method, Method::Post);
    assert_eq!(request.url, "https://api.binance.us/api/v3/order/test");
    let plain =
        "symbol=BNBUSDT&side=SELL&type=LIMIT&price=20&quantity=5&timeInForce=GTC&timestamp=1499827319559";
    assert_eq!(request.query, signed(plain));
    assert_eq!(request.query.len(), plain.len() + "&signature=".len() + 64);
    assert_eq!(request.api_key, Some(API_KEY));
    assert_eq!(
        request.target(),
        format!("https://api.binance.us/api/v3/order/test?{}", signed(plain))
    );
}

#[test]
fn signature_matches_the_documented_example() {
    let query = "symbol=LTCBTC&side=BUY&type=LIMIT&timeInForce=GTC&quantity=1&price=0.1&recvWindow=5000&timestamp=1499827319559";
    assert_eq!(
        sign(SECRET.as_bytes(), query.as_bytes()),
        "c8db56825ae71d6d79447849e617115f4a920fa2acdcab2b053c4b2838bd6b71"
    );
}

#[test]
fn limit_order_for_execution_goes_to_the_order_endpoint() {
    let c = client();
    let request = c
        .place_limit_order("BNBUSDT", Side::Buy, Decimal::new(1, 1), Decimal::whole(1), true)
        .prepare(1)
        .unwrap();
    assert_eq!(request.url, "https://api.binance.us/api/v3/order");
    assert_eq!(
        request.query,
        signed("symbol=BNBUSDT&side=BUY&type=LIMIT&price=0.1&quantity=1&timeInForce=GTC&timestamp=1")
    );
}

#[test]
fn market_order() {
    let c = client();
    let b = c.place_market_order("BNBUSDT", Side::Sell, Decimal::new(500, 2), false);
    assert_eq!(b.variant(), Variant::Market);
    let request = b.prepare(42).unwrap();
    assert_eq!(request.method, Method::Post);
    assert_eq!(request.url, "https://api.binance.us/api/v3/order/test");
    assert_eq!(request.query, signed("symbol=BNBUSDT&side=SELL&type=MARKET&quantity=5&timestamp=42"));
    let live = c.place_market_order("BNBUSDT", Side::Sell, Decimal::new(500, 2), true);
    assert_eq!(live.prepare(42).unwrap().url, "https://api.binance.us/api/v3/order");
}

#[test]
fn get_order_by_client_id_omits_order_id() {
    let c = client();
    let request = c.get_order("BNBUSDT", ID::ClientOId("abc")).prepare(5).unwrap();
    assert_eq!(request.method, Method::Get);
    assert_eq!(request.url, "https://api.binance.us/api/v3/order");
    assert_eq!(request.query, signed("symbol=BNBUSDT&origClientOrderId=abc&timestamp=5"));
    assert!(request.query.contains("origClientOrderId=abc"));
    assert!(!request.query.contains("orderId="));
}

#[test]
fn get_order_by_order_id_omits_client_id() {
    let c = client();
    let request = c.get_order("BNBUSDT", ID::OrderId(5)).prepare(5).unwrap();
    assert_eq!(request.query, signed("symbol=BNBUSDT&orderId=5&timestamp=5"));
    assert!(request.query.contains("orderId=5"));
    assert!(!request.query.contains("origClientOrderId"));
}

#[test]
fn cancel_order_names_one_id() {
    let c = client();
    let by_id = c.cancel_order("BNBUSDT", ID::OrderId(77)).prepare(9).unwrap();
    assert_eq!(by_id.method, Method::Delete);
    assert_eq!(by_id.url, "https://api.binance.us/api/v3/order");
    assert_eq!(by_id.query, signed("symbol=BNBUSDT&orderId=77&timestamp=9"));
    let by_client = c.cancel_order("BNBUSDT", ID::ClientOId("my id")).prepare(9).unwrap();
    assert_eq!(by_client.query, signed("symbol=BNBUSDT&origClientOrderId=my+id&timestamp=9"));
}

#[test]
fn open_orders_can_be_narrowed_to_a_symbol() {
    let c = client();
    let all = c.get_open_orders().prepare(3).unwrap();
    assert_eq!(all.method, Method::Get);
    assert_eq!(all.url, "https://api.binance.us/api/v3/openOrders");
    assert_eq!(all.query, signed("timestamp=3"));
    let one = c.get_open_orders().with_symbol("BNBUSDT").with_recv_window(8000).prepare(3).unwrap();
    assert_eq!(one.query, signed("symbol=BNBUSDT&recvWindow=8000&timestamp=3"));
}

#[test]
fn all_orders_with_filters() {
    let c = client();
    let request = c
        .get_all_orders("BNBUSDT")
        .with_start_time(1000)
        .with_end_time(2000)
        .with_limit(100)
        .with_recv_window(8000)
        .prepare(2500)
        .unwrap();
    assert_eq!(request.method, Method::Get);
    assert_eq!(request.url, "https://api.binance.us/api/v3/allOrders");
    assert_eq!(
        request.query,
        signed("symbol=BNBUSDT&startTime=1000&endTime=2000&limit=100&recvWindow=8000&timestamp=2500")
    );
    let by_id = c.get_all_orders("BNBUSDT").with_order_id(1230494).prepare(1).unwrap();
    assert_eq!(by_id.query, signed("symbol=BNBUSDT&orderId=1230494&timestamp=1"));
}

#[test]
fn oco_order_with_every_option() {
    let c = client();
    let request = c
        .place_oco_order(
            "BNBUSDT",
            Side::Sell,
            Decimal::new(3000, 2),
            Decimal::new(2000, 2),
            Decimal::new(500, 2),
        )
        .with_list_client_order_id("list")
        .with_limit_client_order_id("limit")
        .with_limit_iceberg_qty(Decimal::new(100, 2))
        .with_stop_client_order_id("stop")
        .with_stop_limit_price(Decimal::new(1900, 2), TimeInForce::Gtc)
        .with_stop_iceberg_qty(Decimal::new(100, 2))
        .with_new_order_resp_type(OrderRespType::Full)
        .with_recv_window(8000)
        .prepare(10)
        .unwrap();
    assert_eq!(request.method, Method::Post);
    assert_eq!(request.url, "https://api.binance.us/api/v3/order/oco");
    assert_eq!(
        request.query,
        signed(
            "symbol=BNBUSDT&side=SELL&price=30&stopPrice=20&quantity=5&listClientOrderId=list&limitClientOrderId=limit&limitIcebergQty=1&stopClientOrderId=stop&stopLimitPrice=19&stopLimitTimeInForce=GTC&stopIcebergQty=1&newOrderRespType=FULL&recvWindow=8000&timestamp=10"
        )
    );
}

#[test]
fn cancel_oco_order_names_one_id() {
    let c = client();
    let by_id = c.cancel_oco_order("BNBUSDT", ID::OrderId(3)).prepare(1).unwrap();
    assert_eq!(by_id.method, Method::Delete);
    assert_eq!(by_id.url, "https://api.binance.us/api/v3/orderList");
    assert_eq!(by_id.query, signed("symbol=BNBUSDT&orderListId=3&timestamp=1"));
    let by_client = c
        .cancel_oco_order("BNBUSDT", ID::ClientOId("abc"))
        .with_new_client_order_id("new")
        .prepare(1)
        .unwrap();
    assert_eq!(
        by_client.query,
        signed("symbol=BNBUSDT&listClientOrderId=abc&newClientOrderId=new&timestamp=1")
    );
    assert!(!by_client.query.contains("orderListId"));
}

#[test]
fn get_oco_order_names_one_id() {
    let c = client();
    let by_id = c.get_oco_order(ID::OrderId(3)).prepare(1).unwrap();
    assert_eq!(by_id.method, Method::Get);
    assert_eq!(by_id.url, "https://api.binance.us/api/v3/orderList");
    assert_eq!(by_id.query, signed("orderListId=3&timestamp=1"));
    assert!(!by_id.query.contains("listClientOrderId"));
    let by_client = c.get_oco_order(ID::ClientOId("abc")).prepare(1).unwrap();
    assert_eq!(by_client.query, signed("listClientOrderId=abc&timestamp=1"));
    assert!(!by_client.query.contains("orderListId"));
    assert!(!by_client.query.contains("origClientOrderId"));
}

#[test]
fn oco_listings() {
    let c = client();
    let all = c.get_all_oco_orders().with_from_id(1230494).with_limit(100).prepare(1).unwrap();
    assert_eq!(all.method, Method::Get);
    assert_eq!(all.url, "https://api.binance.us/api/v3/allOrderList");
    assert_eq!(all.query, signed("fromId=1230494&limit=100&timestamp=1"));
    let open = c.get_open_oco_orders().with_recv_window(8000).prepare(1).unwrap();
    assert_eq!(open.method, Method::Get);
    assert_eq!(open.url, "https://api.binance.us/api/v3/openOrderList");
    assert_eq!(open.query, signed("recvWindow=8000&timestamp=1"));
}

#[test]
fn account_and_trades() {
    let c = client();
    let account = c.get_account().prepare(1).unwrap();
    assert_eq!(account.method, Method::Get);
    assert_eq!(account.url, "https://api.binance.us/api/v3/account");
    assert_eq!(account.query, signed("timestamp=1"));
    let trades = c.get_account_trades("BNBUSDT").with_from_id(9).prepare(1).unwrap();
    assert_eq!(trades.method, Method::Get);
    assert_eq!(trades.url, "https://api.binance.us/api/v3/myTrades");
    assert_eq!(trades.query, signed("symbol=BNBUSDT&fromId=9&timestamp=1"));
}

#[test]
fn cancel_all_orders_is_a_delete_of_open_orders() {
    let c = client();
    let b = c.cancel_all_orders("BNBUSDT");
    assert_eq!(b.variant(), Variant::CancelAllOrders);
    let request = b.prepare(1).unwrap();
    assert_eq!(request.method, Method::Delete);
    assert_eq!(request.url, "https://api.binance.us/api/v3/openOrders");
    assert_eq!(request.query, signed("symbol=BNBUSDT&timestamp=1"));
}

#[test]
fn endpoint_path_replaces_the_path_of_the_base_url() {
    let c = AccountClient::connect("k", "s", "http://localhost:8080/base/").unwrap();
    let request = c.get_account().prepare(1).unwrap();
    assert_eq!(request.url, "http://localhost:8080/api/v3/account");
}

#[test]
fn base_that_cannot_hold_a_path_fails_when_prepared() {
    let c = AccountClient::connect("k", "s", "mailto:someone@example.com").unwrap();
    assert!(matches!(c.get_account().prepare(1), Err(Error::UrlParseError)));
    assert!(matches!(c.get_account().validate(), Err(Error::UrlParseError)));
}

#[test]
fn role_clients_share_credentials_and_url() {
    let c = client();
    let w = c.to_withdraw_client();
    assert_eq!(w.api_key, API_KEY);
    assert_eq!(w.secret_key, SECRET);
    assert_eq!(w.url.to_text(), "https://api.binance.us/");
    let m = c.to_market_data_client();
    assert_eq!(m.api_key, API_KEY);
    assert_eq!(m.url.to_text(), "https://api.binance.us/");
    let g = c.to_general_client();
    assert_eq!(g.url.to_text(), "https://api.binance.us/");
    let u = c.to_user_data_client();
    assert_eq!(u.api_key, API_KEY);
    assert_eq!(u.url.to_text(), "https://api.binance.us/");
    let copy = c.clone();
    assert_eq!(copy.api_key(), API_KEY);
    assert_eq!(copy.url().to_text(), "https://api.binance.us/");
}
