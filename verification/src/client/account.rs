//! The account client: one method per trading operation, each of which picks
//! the HTTP verb, the endpoint and the initial parameters of a request.

use crate::address::{parsed_url, resolved_url, Address};
use crate::builder::{BuilderView, ParamBuilder};
use crate::client::{GeneralClient, MarketDataClient, UserDataClient, WithdrawalClient};
use crate::error::Error;
use crate::param::{
    law_lookup_at, present, Decimal, Field, OrderType, Parameters, Side, TimeInForce, Value, ValueView, ID,
};
use crate::request::Method;
use crate::variant::{coherent, fields_within, Variant};
use vstd::prelude::*;
use vstd::string::*;

verus! {

/// Client for dealing with orders.
pub struct AccountClient {
    api_key: String,
    secret_key: String,
    url: Address,
}

/// What an [`AccountClient`] stands for in specifications.
pub struct AccountClientView {
    pub api_key: Seq<char>,
    pub secret_key: Seq<char>,
    /// The serialisation of the base URL.
    pub url: Seq<char>,
}

impl View for AccountClient {
    type V = AccountClientView;

    closed spec fn view(&self) -> AccountClientView {
        AccountClientView { api_key: self.api_key@, secret_key: self.secret_key@, url: self.url@ }
    }
}

impl Clone for AccountClient {
    fn clone(&self) -> (copy: Self)
        ensures
            copy@ == self@,
    {
        AccountClient {
            api_key: self.api_key.clone(),
            secret_key: self.secret_key.clone(),
            url: self.url.clone(),
        }
    }
}

/// The parameter that names an order by one of its two ids.
pub open spec fn order_id_entry(id: ID) -> (Field, ValueView) {
    match id {
        ID::OrderId(n) => (Field::OrderId, ValueView::Number(n)),
        ID::ClientOId(s) => (Field::OrigClientOrderId, ValueView::Text(s@)),
    }
}

/// The parameter that names an order list by one of its two ids.
pub open spec fn list_id_entry(id: ID) -> (Field, ValueView) {
    match id {
        ID::OrderId(n) => (Field::OrderListId, ValueView::Number(n)),
        ID::ClientOId(s) => (Field::ListClientOrderId, ValueView::Text(s@)),
    }
}

impl AccountClientView {
    /// The builder that an endpoint method hands out: signed with the
    /// client's credentials and aimed at `path` below the base URL.
    pub open spec fn request(
        self,
        variant: Variant,
        method: Method,
        path: Seq<char>,
        params: Seq<(Field, ValueView)>,
    ) -> BuilderView {
        BuilderView {
            params,
            variant,
            rejected: false,
            method,
            url: resolved_url(self.url, path),
            api_key: Some(self.api_key),
            secret_key: Some(self.secret_key),
        }
    }
}

impl AccountClient {
    /// Creates a client for the exchange at `url`, which must be an absolute
    /// URL; fails with `UrlParseError` otherwise.
    pub fn connect(api_key: &str, secret_key: &str, url: &str) -> (r: Result<Self, Error>)
        ensures
            match r {
                Ok(client) => parsed_url(url@) == Some(client@.url) && client@.api_key
                    == api_key@ && client@.secret_key == secret_key@,
                Err(e) => e == Error::UrlParseError && parsed_url(url@) is None,
            },
    {
        match Address::parse(url) {
            Ok(address) => Ok(
                AccountClient {
                    api_key: api_key.to_owned(),
                    secret_key: secret_key.to_owned(),
                    url: address,
                },
            ),
            Err(e) => Err(e),
        }
    }

    fn start<'a>(
        &self,
        variant: Variant,
        method: Method,
        path: &str,
        params: Parameters<'a>,
    ) -> (b: ParamBuilder<'a, '_>)
        requires
            params.wf(),
            fields_within(params@, variant),
            coherent(params@, variant),
        ensures
            b.wf(),
            b@ == self@.request(variant, method, path@, params@),
    {
        ParamBuilder::new(
            variant,
            method,
            self.url.join(path),
            params,
            Some(self.api_key.as_str()),
            Some(self.secret_key.as_str()),
        )
    }

    /// Place a new limit order, good till cancelled unless set otherwise.
    /// With `execute` false the order goes to the test endpoint.
    pub fn place_limit_order<'a>(
        &self,
        symbol: &'a str,
        side: Side,
        price: Decimal,
        quantity: Decimal,
        execute: bool,
    ) -> (b: ParamBuilder<'a, '_>)
        ensures
            b.wf(),
            b@ == self@.request(
                Variant::Limit,
                Method::Post,
                if execute {
                    "/api/v3/order"@
                } else {
                    "/api/v3/order/test"@
                },
                seq![
                    (Field::Symbol, ValueView::Text(symbol@)),
                    (Field::Side, ValueView::Side(side)),
                    (Field::Type, ValueView::Type(OrderType::Limit)),
                    (Field::Price, ValueView::Amount(price)),
                    (Field::Quantity, ValueView::Amount(quantity)),
                    (Field::TimeInForce, ValueView::TimeInForce(TimeInForce::Gtc)),
                ],
            ),
    {
        let path = if execute {
            "/api/v3/order"
        } else {
            "/api/v3/order/test"
        };
        let mut params = Parameters::new();
        params.add(Field::Symbol, Value::Text(symbol));
        params.add(Field::Side, Value::Side(side));
        params.add(Field::Type, Value::Type(OrderType::Limit));
        params.add(Field::Price, Value::Amount(price));
        params.add(Field::Quantity, Value::Amount(quantity));
        params.add(Field::TimeInForce, Value::TimeInForce(TimeInForce::Gtc));
        assert(params@ =~= seq![
            (Field::Symbol, ValueView::Text(symbol@)),
            (Field::Side, ValueView::Side(side)),
            (Field::Type, ValueView::Type(OrderType::Limit)),
            (Field::Price, ValueView::Amount(price)),
            (Field::Quantity, ValueView::Amount(quantity)),
            (Field::TimeInForce, ValueView::TimeInForce(TimeInForce::Gtc)),
        ]);
        proof {
            law_lookup_at(params@, 2);
        }
        self.start(Variant::Limit, Method::Post, path, params)
    }

    /// Place a new market order. With `execute` false the order goes to the
    /// test endpoint.
    pub fn place_market_order<'a>(
        &self,
        symbol: &'a str,
        side: Side,
        quantity: Decimal,
        execute: bool,
    ) -> (b: ParamBuilder<'a, '_>)
        ensures
            b.wf(),
            b@ == self@.request(
                Variant::Market,
                Method::Post,
                if execute {
                    "/api/v3/order"@
                } else {
                    "/api/v3/order/test"@
                },
                seq![
                    (Field::Symbol, ValueView::Text(symbol@)),
                    (Field::Side, ValueView::Side(side)),
                    (Field::Type, ValueView::Type(OrderType::Market)),
                    (Field::Quantity, ValueView::Amount(quantity)),
                ],
            ),
    {
        let path = if execute {
            "/api/v3/order"
        } else {
            "/api/v3/order/test"
        };
        let mut params = Parameters::new();
        params.add(Field::Symbol, Value::Text(symbol));
        params.add(Field::Side, Value::Side(side));
        params.add(Field::Type, Value::Type(OrderType::Market));
        params.add(Field::Quantity, Value::Amount(quantity));
        assert(params@ =~= seq![
            (Field::Symbol, ValueView::Text(symbol@)),
            (Field::Side, ValueView::Side(side)),
            (Field::Type, ValueView::Type(OrderType::Market)),
            (Field::Quantity, ValueView::Amount(quantity)),
        ]);
        proof {
            law_lookup_at(params@, 2);
        }
        self.start(Variant::Market, Method::Post, path, params)
    }

    /// Get order, named by the exchange's id or by the client's.
    pub fn get_order<'a>(&self, symbol: &'a str, id: ID<'a>) -> (b: ParamBuilder<'a, '_>)
        ensures
            b.wf(),
            b@ == self@.request(
                Variant::OrderStatus,
                Method::Get,
                "/api/v3/order"@,
                seq![(Field::Symbol, ValueView::Text(symbol@)), order_id_entry(id)],
            ),
    {
        let mut params = Parameters::new();
        params.add(Field::Symbol, Value::Text(symbol));
        match id {
            ID::OrderId(n) => params.add(Field::OrderId, Value::Number(n)),
            ID::ClientOId(s) => params.add(Field::OrigClientOrderId, Value::Text(s)),
        }
        assert(params@ =~= seq![(Field::Symbol, ValueView::Text(symbol@)), order_id_entry(id)]);
        self.start(Variant::OrderStatus, Method::Get, "/api/v3/order", params)
    }

    /// Cancel order, named by the exchange's id or by the client's.
    pub fn cancel_order<'a>(&self, symbol: &'a str, id: ID<'a>) -> (b: ParamBuilder<'a, '_>)
        ensures
            b.wf(),
            b@ == self@.request(
                Variant::CancelOrder,
                Method::Delete,
                "/api/v3/order"@,
                seq![(Field::Symbol, ValueView::Text(symbol@)), order_id_entry(id)],
            ),
    {
        let mut params = Parameters::new();
        params.add(Field::Symbol, Value::Text(symbol));
        match id {
            ID::OrderId(n) => params.add(Field::OrderId, Value::Number(n)),
            ID::ClientOId(s) => params.add(Field::OrigClientOrderId, Value::Text(s)),
        }
        assert(params@ =~= seq![(Field::Symbol, ValueView::Text(symbol@)), order_id_entry(id)]);
        self.start(Variant::CancelOrder, Method::Delete, "/api/v3/order", params)
    }

    /// Get open orders, of all symbols unless narrowed to one.
    pub fn get_open_orders(&self) -> (b: ParamBuilder<'_, '_>)
        ensures
            b.wf(),
            b@ == self@.request(
                Variant::OpenOrders,
                Method::Get,
                "/api/v3/openOrders"@,
                Seq::empty(),
            ),
    {
        self.start(Variant::OpenOrders, Method::Get, "/api/v3/openOrders", Parameters::new())
    }

    /// Get all orders of a symbol.
    pub fn get_all_orders<'a>(&self, symbol: &'a str) -> (b: ParamBuilder<'a, '_>)
        ensures
            b.wf(),
            b@ == self@.request(
                Variant::AllOrders,
                Method::Get,
                "/api/v3/allOrders"@,
                seq![(Field::Symbol, ValueView::Text(symbol@))],
            ),
    {
        let mut params = Parameters::new();
        params.add(Field::Symbol, Value::Text(symbol));
        assert(params@ =~= seq![(Field::Symbol, ValueView::Text(symbol@))]);
        self.start(Variant::AllOrders, Method::Get, "/api/v3/allOrders", params)
    }

    /// Place a new one-cancels-the-other order: a limit leg at `price` and a
    /// stop leg that triggers at `stop_price`.
    pub fn place_oco_order<'a>(
        &self,
        symbol: &'a str,
        side: Side,
        price: Decimal,
        stop_price: Decimal,
        quantity: Decimal,
    ) -> (b: ParamBuilder<'a, '_>)
        ensures
            b.wf(),
            b@ == self@.request(
                Variant::Oco,
                Method::Post,
                "/api/v3/order/oco"@,
                seq![
                    (Field::Symbol, ValueView::Text(symbol@)),
                    (Field::Side, ValueView::Side(side)),
                    (Field::Price, ValueView::Amount(price)),
                    (Field::StopPrice, ValueView::Amount(stop_price)),
                    (Field::Quantity, ValueView::Amount(quantity)),
                ],
            ),
    {
        let mut params = Parameters::new();
        params.add(Field::Symbol, Value::Text(symbol));
        params.add(Field::Side, Value::Side(side));
        params.add(Field::Price, Value::Amount(price));
        params.add(Field::StopPrice, Value::Amount(stop_price));
        params.add(Field::Quantity, Value::Amount(quantity));
        assert(params@ =~= seq![
            (Field::Symbol, ValueView::Text(symbol@)),
            (Field::Side, ValueView::Side(side)),
            (Field::Price, ValueView::Amount(price)),
            (Field::StopPrice, ValueView::Amount(stop_price)),
            (Field::Quantity, ValueView::Amount(quantity)),
        ]);
        self.start(Variant::Oco, Method::Post, "/api/v3/order/oco", params)
    }

    /// Cancel a one-cancels-the-other order, named by the exchange's list id
    /// or by the client's.
    pub fn cancel_oco_order<'a>(&self, symbol: &'a str, id: ID<'a>) -> (b: ParamBuilder<'a, '_>)
        ensures
            b.wf(),
            b@ == self@.request(
                Variant::CancelOco,
                Method::Delete,
                "/api/v3/orderList"@,
                seq![(Field::Symbol, ValueView::Text(symbol@)), list_id_entry(id)],
            ),
    {
        let mut params = Parameters::new();
        params.add(Field::Symbol, Value::Text(symbol));
        match id {
            ID::OrderId(n) => params.add(Field::OrderListId, Value::Number(n)),
            ID::ClientOId(s) => params.add(Field::ListClientOrderId, Value::Text(s)),
        }
        assert(params@ =~= seq![
            (Field::Symbol, ValueView::Text(symbol@)),
            list_id_entry(id),
        ]);
        self.start(Variant::CancelOco, Method::Delete, "/api/v3/orderList", params)
    }

    /// Get a one-cancels-the-other order, named by the exchange's list id or
    /// by the client's.
    pub fn get_oco_order<'a>(&self, id: ID<'a>) -> (b: ParamBuilder<'a, '_>)
        ensures
            b.wf(),
            b@ == self@.request(
                Variant::OcoStatus,
                Method::Get,
                "/api/v3/orderList"@,
                seq![list_id_entry(id)],
            ),
    {
        let mut params = Parameters::new();
        match id {
            ID::OrderId(n) => params.add(Field::OrderListId, Value::Number(n)),
            ID::ClientOId(s) => params.add(Field::ListClientOrderId, Value::Text(s)),
        }
        assert(params@ =~= seq![list_id_entry(id)]);
        self.start(Variant::OcoStatus, Method::Get, "/api/v3/orderList", params)
    }

    /// Get all one-cancels-the-other orders.
    pub fn get_all_oco_orders(&self) -> (b: ParamBuilder<'_, '_>)
        ensures
            b.wf(),
            b@ == self@.request(
                Variant::AllOco,
                Method::Get,
                "/api/v3/allOrderList"@,
                Seq::empty(),
            ),
    {
        self.start(Variant::AllOco, Method::Get, "/api/v3/allOrderList", Parameters::new())
    }

    /// Get open one-cancels-the-other orders.
    pub fn get_open_oco_orders(&self) -> (b: ParamBuilder<'_, '_>)
        ensures
            b.wf(),
            b@ == self@.request(
                Variant::OpenOco,
                Method::Get,
                "/api/v3/openOrderList"@,
                Seq::empty(),
            ),
    {
        self.start(Variant::OpenOco, Method::Get, "/api/v3/openOrderList", Parameters::new())
    }

    /// Get current account information.
    pub fn get_account(&self) -> (b: ParamBuilder<'_, '_>)
        ensures
            b.wf(),
            b@ == self@.request(
                Variant::Account,
                Method::Get,
                "/api/v3/account"@,
                Seq::empty(),
            ),
    {
        self.start(Variant::Account, Method::Get, "/api/v3/account", Parameters::new())
    }

    /// Get trades for a specific account and symbol.
    pub fn get_account_trades<'a>(&self, symbol: &'a str) -> (b: ParamBuilder<'a, '_>)
        ensures
            b.wf(),
            b@ == self@.request(
                Variant::AccountTrades,
                Method::Get,
                "/api/v3/myTrades"@,
                seq![(Field::Symbol, ValueView::Text(symbol@))],
            ),
    {
        let mut params = Parameters::new();
        params.add(Field::Symbol, Value::Text(symbol));
        assert(params@ =~= seq![(Field::Symbol, ValueView::Text(symbol@))]);
        self.start(Variant::AccountTrades, Method::Get, "/api/v3/myTrades", params)
    }

    /// Cancel all open orders on a symbol. The exchange answers with status
    /// 400 when there is nothing to cancel.
    pub fn cancel_all_orders<'a>(&self, symbol: &'a str) -> (b: ParamBuilder<'a, '_>)
        ensures
            b.wf(),
            b@ == self@.request(
                Variant::CancelAllOrders,
                Method::Delete,
                "/api/v3/openOrders"@,
                seq![(Field::Symbol, ValueView::Text(symbol@))],
            ),
    {
        let mut params = Parameters::new();
        params.add(Field::Symbol, Value::Text(symbol));
        assert(params@ =~= seq![(Field::Symbol, ValueView::Text(symbol@))]);
        self.start(Variant::CancelAllOrders, Method::Delete, "/api/v3/openOrders", params)
    }

    /// Helper method for getting a withdraw client instance with the same
    /// credentials and base URL.
    pub fn to_withdraw_client(&self) -> (c: WithdrawalClient)
        ensures
            c.api_key@ == self@.api_key,
            c.secret_key@ == self@.secret_key,
            c.url@ == self@.url,
    {
        WithdrawalClient {
            api_key: self.api_key.clone(),
            secret_key: self.secret_key.clone(),
            url: self.url.clone(),
        }
    }

    /// Helper method for getting a market client instance with the same API
    /// key and base URL.
    pub fn to_market_data_client(&self) -> (c: MarketDataClient)
        ensures
            c.api_key@ == self@.api_key,
            c.url@ == self@.url,
    {
        MarketDataClient { api_key: self.api_key.clone(), url: self.url.clone() }
    }

    /// Helper method for getting a general client instance with the same
    /// base URL.
    pub fn to_general_client(&self) -> (c: GeneralClient)
        ensures
            c.url@ == self@.url,
    {
        GeneralClient { url: self.url.clone() }
    }

    /// Helper method for getting a user data client instance with the same
    /// API key and base URL.
    pub fn to_user_data_client(&self) -> (c: UserDataClient)
        ensures
            c.api_key@ == self@.api_key,
            c.url@ == self@.url,
    {
        UserDataClient { api_key: self.api_key.clone(), url: self.url.clone() }
    }

    /// The API key.
    pub fn api_key(&self) -> (s: &str)
        ensures
            s@ == self@.api_key,
    {
        self.api_key.as_str()
    }

    /// The base URL.
    pub fn url(&self) -> (a: &Address)
        ensures
            a@ == self@.url,
    {
        &self.url
    }
}

/// An order is named by exactly one of its two ids: of `orderId` and
/// `origClientOrderId`, the initial parameters of `get_order` and
/// `cancel_order` hold one and not the other.
pub proof fn law_one_order_id(symbol: Seq<char>, id: ID)
    ensures
        present(seq![(Field::Symbol, ValueView::Text(symbol)), order_id_entry(id)], Field::OrderId)
            != present(
            seq![(Field::Symbol, ValueView::Text(symbol)), order_id_entry(id)],
            Field::OrigClientOrderId,
        ),
        present(seq![(Field::Symbol, ValueView::Text(symbol)), order_id_entry(id)], Field::OrderId)
            == (id is OrderId),
{
    let s = seq![(Field::Symbol, ValueView::Text(symbol)), order_id_entry(id)];
    assert(s[1].0 == order_id_entry(id).0);
}

/// An order list is named by exactly one of its two ids: of `orderListId`
/// and `listClientOrderId`, the initial parameters of `cancel_oco_order` and
/// of `get_oco_order` hold one and not the other.
pub proof fn law_one_list_id(symbol: Seq<char>, id: ID)
    ensures
        present(
            seq![(Field::Symbol, ValueView::Text(symbol)), list_id_entry(id)],
            Field::OrderListId,
        ) != present(
            seq![(Field::Symbol, ValueView::Text(symbol)), list_id_entry(id)],
            Field::ListClientOrderId,
        ),
        present(seq![list_id_entry(id)], Field::OrderListId) != present(
            seq![list_id_entry(id)],
            Field::ListClientOrderId,
        ),
        present(seq![list_id_entry(id)], Field::OrderListId) == (id is OrderId),
{
    let s = seq![(Field::Symbol, ValueView::Text(symbol)), list_id_entry(id)];
    assert(s[1].0 == list_id_entry(id).0);
    let t = seq![list_id_entry(id)];
    assert(t[0].0 == list_id_entry(id).0);
}

} // verus!
