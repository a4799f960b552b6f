use binance_account::encode::{push_decimal, push_encoded, push_number, query_string};
use binance_account::{
    Decimal, Field, OrderRespType, OrderType, Parameters, Side, TimeInForce, Value,
};

fn encoded(text: &str) -> String {
    let mut out = String::new();
    push_encoded(&mut out, text.as_bytes());
    out
}

fn decimal(units: u64, scale: u8) -> String {
    let mut out = String::new();
    push_decimal(&mut out, units, scale);
    out
}

fn number(n: u64) -> String {
    let mut out = String::new();
    push_number(&mut out, n);
    out
}

#[test]
fn empty_parameter_set_has_empty_query() {
    let params = Parameters::new();
    assert_eq!(params.len(), 0);
    assert_eq!(query_string(&params), "");
}

#[test]
fn single_parameter_has_no_separator() {
    let mut params = Parameters::new();
    params.set(Field::Symbol, Value::Text("BNBUSDT"));
    assert_eq!(query_string(&params), "symbol=BNBUSDT");
}

#[test]
fn parameters_are_serialised_in_insertion_order() {
    let mut params = Parameters::new();
    params.set(Field::Timestamp, Value::Number(7));
    params.set(Field::Symbol, Value::Text("LTCBTC"));
    params.set(Field::Side, Value::Side(Side::Buy));
    assert_eq!(query_string(&params), "timestamp=7&symbol=LTCBTC&side=BUY");
}

#[test]
fn setting_a_field_again_keeps_its_place() {
    let mut params = Parameters::new();
    params.set(Field::Symbol, Value::Text("LTCBTC"));
    params.set(Field::TimeInForce, Value::TimeInForce(TimeInForce::Fok));
    params.set(Field::Limit, Value::Number(10));
    params.set(Field::TimeInForce, Value::TimeInForce(TimeInForce::Gtc));
    assert_eq!(params.len(), 3);
    assert_eq!(query_string(&params), "symbol=LTCBTC&timeInForce=GTC&limit=10");
}

#[test]
fn unset_field_never_appears() {
    let mut params = Parameters::new();
    params.set(Field::Symbol, Value::Text("LTCBTC"));
    params.set(Field::Price, Value::Amount(Decimal::new(1, 1)));
    let query = query_string(&params);
    assert_eq!(query, "symbol=LTCBTC&price=0.1");
    for name in [
        "side", "type", "timeInForce", "quantity", "quoteOrderQty", "newClientOrderId",
        "stopPrice", "icebergQty", "newOrderRespType", "recvWindow", "timestamp", "orderId",
        "origClientOrderId", "startTime", "endTime", "limit", "fromId", "listClientOrderId",
        "limitClientOrderId", "limitIcebergQty", "stopClientOrderId", "stopLimitPrice",
        "stopLimitTimeInForce", "stopIcebergQty", "orderListId",
    ] {
        assert!(!query.contains(&format!("{}=", name)), "{} appears", name);
    }
}

#[test]
fn removed_field_no_longer_appears() {
    let mut params = Parameters::new();
    params.set(Field::Symbol, Value::Text("LTCBTC"));
    params.set(Field::TimeInForce, Value::TimeInForce(TimeInForce::Gtc));
    params.set(Field::Limit, Value::Number(3));
    params.unset(Field::TimeInForce);
    assert!(!params.is_set(Field::TimeInForce));
    assert_eq!(query_string(&params), "symbol=LTCBTC&limit=3");
    params.unset(Field::Price);
    assert_eq!(query_string(&params), "symbol=LTCBTC&limit=3");
}

#[test]
fn get_and_find_report_what_is_set() {
    let mut params = Parameters::new();
    params.set(Field::Symbol, Value::Text("LTCBTC"));
    params.set(Field::OrderId, Value::Number(11));
    assert_eq!(params.find(Field::Symbol), Some(0));
    assert_eq!(params.find(Field::OrderId), Some(1));
    assert_eq!(params.find(Field::Price), None);
    assert!(params.is_set(Field::OrderId));
    assert!(matches!(params.get(Field::OrderId), Some(Value::Number(11))));
    assert!(matches!(params.get(Field::Symbol), Some(Value::Text("LTCBTC"))));
    assert!(params.get(Field::Limit).is_none());
    assert_eq!(params.entry(1).field, Field::OrderId);
}

#[test]
fn every_field_has_its_wire_name() {
    let expected = [
        (Field::Symbol, "symbol"),
        (Field::Side, "side"),
        (Field::Type, "type"),
        (Field::TimeInForce, "timeInForce"),
        (Field::Quantity, "quantity"),
        (Field::QuoteOrderQty, "quoteOrderQty"),
        (Field::Price, "price"),
        (Field::NewClientOrderId, "newClientOrderId"),
        (Field::StopPrice, "stopPrice"),
        (Field::IcebergQty, "icebergQty"),
        (Field::NewOrderRespType, "newOrderRespType"),
        (Field::RecvWindow, "recvWindow"),
        (Field::Timestamp, "timestamp"),
        (Field::OrderId, "orderId"),
        (Field::OrigClientOrderId, "origClientOrderId"),
        (Field::StartTime, "startTime"),
        (Field::EndTime, "endTime"),
        (Field::Limit, "limit"),
        (Field::FromId, "fromId"),
        (Field::ListClientOrderId, "listClientOrderId"),
        (Field::LimitClientOrderId, "limitClientOrderId"),
        (Field::LimitIcebergQty, "limitIcebergQty"),
        (Field::StopClientOrderId, "stopClientOrderId"),
        (Field::StopLimitPrice, "stopLimitPrice"),
        (Field::StopLimitTimeInForce, "stopLimitTimeInForce"),
        (Field::StopIcebergQty, "stopIcebergQty"),
        (Field::OrderListId, "orderListId"),
    ];
    for (field, name) in expected {
        assert_eq!(field.as_str(), name);
    }
}

#[test]
fn enumerated_values_have_their_wire_names() {
    assert_eq!(Side::Buy.as_str(), "BUY");
    assert_eq!(Side::Sell.as_str(), "SELL");
    assert_eq!(OrderType::Limit.as_str(), "LIMIT");
    assert_eq!(OrderType::Market.as_str(), "MARKET");
    assert_eq!(OrderType::StopLoss.as_str(), "STOP_LOSS");
    assert_eq!(OrderType::StopLossLimit.as_str(), "STOP_LOSS_LIMIT");
    assert_eq!(OrderType::TakeProfit.as_str(), "TAKE_PROFIT");
    assert_eq!(OrderType::TakeProfitLimit.as_str(), "TAKE_PROFIT_LIMIT");
    assert_eq!(OrderType::LimitMaker.as_str(), "LIMIT_MAKER");
    assert_eq!(TimeInForce::Gtc.as_str(), "GTC");
    assert_eq!(TimeInForce::Ioc.as_str(), "IOC");
    assert_eq!(TimeInForce::Fok.as_str(), "FOK");
    assert_eq!(OrderRespType::Ack.as_str(), "ACK");
    assert_eq!(OrderRespType::Result.as_str(), "RESULT");
    assert_eq!(OrderRespType::Full.as_str(), "FULL");
}

#[test]
fn every_kind_of_value_is_serialised() {
    let mut params = Parameters::new();
    params.set(Field::Symbol, Value::Text("BNBUSDT"));
    params.set(Field::Side, Value::Side(Side::Sell));
    params.set(Field::Type, Value::Type(OrderType::StopLossLimit));
    params.set(Field::TimeInForce, Value::TimeInForce(TimeInForce::Ioc));
    params.set(Field::NewOrderRespType, Value::RespType(OrderRespType::Full));
    params.set(Field::Price, Value::Amount(Decimal::new(2050, 2)));
    params.set(Field::RecvWindow, Value::Number(8000));
    assert_eq!(
        query_string(&params),
        "symbol=BNBUSDT&side=SELL&type=STOP_LOSS_LIMIT&timeInForce=IOC&newOrderRespType=FULL&price=20.5&recvWindow=8000"
    );
}

#[test]
fn text_is_form_encoded() {
    assert_eq!(encoded("BNBUSDT"), "BNBUSDT");
    assert_eq!(encoded("azAZ09*-._"), "azAZ09*-._");
    assert_eq!(encoded("a b"), "a+b");
    assert_eq!(encoded("a&b=c"), "a%26b%3Dc");
    assert_eq!(encoded("a+b%c"), "a%2Bb%25c");
    assert_eq!(encoded("~/?#"), "%7E%2F%3F%23");
    assert_eq!(encoded(""), "");
}

#[test]
fn text_outside_ascii_is_encoded_byte_by_byte() {
    assert_eq!(encoded("\u{e9}"), "%C3%A9");
    assert_eq!(encoded("\u{20ac}"), "%E2%82%AC");
    assert_eq!(encoded("\u{1f600}"), "%F0%9F%98%80");
    assert_eq!(encoded("\n"), "%0A");
}

#[test]
fn a_value_cannot_smuggle_in_a_parameter() {
    let mut params = Parameters::new();
    params.set(Field::NewClientOrderId, Value::Text("x&orderId=5"));
    assert_eq!(query_string(&params), "newClientOrderId=x%26orderId%3D5");
}

#[test]
fn numbers_are_written_in_decimal() {
    assert_eq!(number(0), "0");
    assert_eq!(number(7), "7");
    assert_eq!(number(10), "10");
    assert_eq!(number(60000), "60000");
    assert_eq!(number(1499827319559), "1499827319559");
    assert_eq!(number(u64::MAX), "18446744073709551615");
}

#[test]
fn decimals_drop_trailing_zeros() {
    assert_eq!(decimal(2000, 2), "20");
    assert_eq!(decimal(500, 2), "5");
    assert_eq!(decimal(150, 2), "1.5");
    assert_eq!(decimal(2050, 2), "20.5");
    assert_eq!(decimal(2005, 2), "20.05");
    assert_eq!(decimal(0, 0), "0");
    assert_eq!(decimal(0, 8), "0");
    assert_eq!(decimal(20, 0), "20");
    assert_eq!(decimal(200, 0), "200");
}

#[test]
fn decimals_below_one_start_with_zero() {
    assert_eq!(decimal(1, 1), "0.1");
    assert_eq!(decimal(5, 3), "0.005");
    assert_eq!(decimal(10000000, 8), "0.1");
    assert_eq!(decimal(1, 8), "0.00000001");
    assert_eq!(decimal(123, 3), "0.123");
    assert_eq!(decimal(1234, 3), "1.234");
}

#[test]
fn decimals_with_extreme_scale() {
    assert_eq!(decimal(u64::MAX, 0), "18446744073709551615");
    assert_eq!(decimal(u64::MAX, 19), "1.8446744073709551615");
    assert_eq!(decimal(u64::MAX, 20), "0.18446744073709551615");
    assert_eq!(decimal(1, 25), "0.0000000000000000000000001");
    let smallest = decimal(1, 255);
    assert_eq!(smallest.len(), 257);
    assert!(smallest.starts_with("0.000"));
    assert!(smallest.ends_with("01"));
}

#[test]
fn decimal_constructors_keep_their_arguments() {
    let d = Decimal::new(2050, 2);
    assert_eq!((d.units, d.scale), (2050, 2));
    let w = Decimal::whole(7);
    assert_eq!((w.units, w.scale), (7, 0));
}
