//! The request builder: a parameter set together with its request variant,
//! the setters that change it, and the step that turns it into a signed
//! request.

use crate::address::Address;
use crate::canonical::{
    all_plain, has_part, law_set_field_serialised, law_unset_field_not_named,
    lemma_attached_keeps_parts, lemma_attached_part, lemma_field_name_plain,
    lemma_signature_is_no_field, names_parameter, starts_parameter,
};
use crate::encode::{canonical_query, pair_text, query_string};
use crate::error::Error;
use crate::param::{
    distinct, index_of, law_put_keeps_distinct, law_put_keeps_others, law_put_then_lookup,
    law_without, lookup, present, put, without, Decimal, Field, OrderRespType, OrderType,
    Parameters, TimeInForce, Value, ValueView,
};
use crate::request::{Method, SignedRequest, SignedRequestView};
use crate::sign::{hmac_sha256, law_hex_text_shape, sign, signature};
use crate::variant::{
    coherent, fields_within, law_setter_writes_legal_fields, law_upgrade_keeps_fields, Setter,
    Variant,
};
use vstd::prelude::*;
use vstd::string::*;
use vstd::utf8::encode_utf8;

verus! {

/// The largest `recvWindow` the exchange accepts, in milliseconds.
pub const MAX_RECV_WINDOW: u64 = 60000;

/// A request under construction.
pub struct ParamBuilder<'a, 'b> {
    params: Parameters<'a>,
    variant: Variant,
    rejected: bool,
    method: Method,
    url: Option<Address>,
    api_key: Option<&'b str>,
    secret_key: Option<&'b str>,
}

/// What a [`ParamBuilder`] stands for in specifications.
pub struct BuilderView {
    /// The parameters set so far, in insertion order.
    pub params: Seq<(Field, ValueView)>,
    /// The current request variant.
    pub variant: Variant,
    /// True once a setter was used that the variant did not offer.
    pub rejected: bool,
    pub method: Method,
    /// The absolute URL of the endpoint, or `None` where it could not be formed.
    pub url: Option<Seq<char>>,
    pub api_key: Option<Seq<char>>,
    pub secret_key: Option<Seq<char>>,
}

impl BuilderView {
    /// Well-formed: no parameter occurs twice, and unless the builder is
    /// rejected, every parameter is one that its variant may carry and the
    /// parameters agree with the variant.
    pub open spec fn wf(self) -> bool {
        distinct(self.params) && (self.rejected || (fields_within(self.params, self.variant)
            && coherent(self.params, self.variant)))
    }

    /// The builder after `setter` was called, where `params` is what the
    /// setter makes of the parameters when it is legal. An illegal setter
    /// marks the builder as rejected and changes nothing else; a rejected
    /// builder stays as it is.
    pub open spec fn apply(self, setter: Setter, params: Seq<(Field, ValueView)>) -> BuilderView {
        if self.rejected || !self.variant.allows(setter) {
            BuilderView { rejected: true, ..self }
        } else {
            BuilderView { variant: self.variant.after(setter), params, ..self }
        }
    }
}

/// True if `recvWindow` is set above the exchange's limit.
pub open spec fn window_out_of_range(params: Seq<(Field, ValueView)>) -> bool {
    lookup(params, Field::RecvWindow) matches Some(ValueView::Number(n)) && n > MAX_RECV_WINDOW
}

/// True if an id filter and a time range are both set.
pub open spec fn filters_conflict(params: Seq<(Field, ValueView)>) -> bool {
    (present(params, Field::OrderId) || present(params, Field::FromId)) && (present(
        params,
        Field::StartTime,
    ) || present(params, Field::EndTime))
}

/// The failure that stops a builder before anything is sent, if there is one.
pub open spec fn refusal(b: BuilderView) -> Option<Error> {
    if b.rejected {
        Some(Error::InvalidStateTransition)
    } else if window_out_of_range(b.params) {
        Some(Error::ParameterOutOfRange)
    } else if filters_conflict(b.params) {
        Some(Error::ConflictingParameters)
    } else if b.url is None {
        Some(Error::UrlParseError)
    } else {
        None
    }
}

/// The parameters with the timestamp stamped on.
pub open spec fn stamped(params: Seq<(Field, ValueView)>, timestamp: u64) -> Seq<
    (Field, ValueView),
> {
    put(params, Field::Timestamp, ValueView::Number(timestamp))
}

/// The query string with the signature attached as the last parameter.
pub open spec fn signed_query(query: Seq<char>, secret_key: Seq<char>) -> Seq<char> {
    query + "&signature="@ + signature(encode_utf8(secret_key), encode_utf8(query))
}

/// The query string that goes out: the canonical query string of the stamped
/// parameters, signed where the builder holds a secret key.
pub open spec fn outgoing_query(b: BuilderView, timestamp: u64) -> Seq<char> {
    let query = canonical_query(stamped(b.params, timestamp));
    match b.secret_key {
        Some(key) => signed_query(query, key),
        None => query,
    }
}

/// The request that a builder without a refusal turns into.
pub open spec fn outgoing(b: BuilderView, timestamp: u64) -> SignedRequestView {
    SignedRequestView {
        method: b.method,
        url: b.url->0,
        query: outgoing_query(b, timestamp),
        api_key: b.api_key,
    }
}

impl<'a, 'b> View for ParamBuilder<'a, 'b> {
    type V = BuilderView;

    closed spec fn view(&self) -> BuilderView {
        BuilderView {
            params: self.params@,
            variant: self.variant,
            rejected: self.rejected,
            method: self.method,
            url: match self.url {
                Some(address) => Some(address@),
                None => None,
            },
            api_key: match self.api_key {
                Some(k) => Some(k@),
                None => None,
            },
            secret_key: match self.secret_key {
                Some(k) => Some(k@),
                None => None,
            },
        }
    }
}

impl<'a, 'b> ParamBuilder<'a, 'b> {
    /// Well-formed: see [`BuilderView::wf`].
    pub open spec fn wf(&self) -> bool {
        self@.wf()
    }

    /// A builder of the given variant over an initial parameter set. Where
    /// the set holds a field that the variant may not carry, or does not
    /// agree with the variant, the builder starts out rejected.
    pub fn new(
        variant: Variant,
        method: Method,
        url: Option<Address>,
        params: Parameters<'a>,
        api_key: Option<&'b str>,
        secret_key: Option<&'b str>,
    ) -> (b: Self)
        requires
            params.wf(),
        ensures
            b.wf(),
            b@ == (BuilderView {
                params: params@,
                variant,
                rejected: !(fields_within(params@, variant) && coherent(params@, variant)),
                method,
                url: match url {
                    Some(address) => Some(address@),
                    None => None,
                },
                api_key: match api_key {
                    Some(k) => Some(k@),
                    None => None,
                },
                secret_key: match secret_key {
                    Some(k) => Some(k@),
                    None => None,
                },
            }),
    {
        let mut legal = true;
        let mut i: usize = 0;
        while i < params.len()
            invariant
                i <= params@.len(),
                legal == (forall|k: int| 0 <= k < i ==> variant.takes((#[trigger] params@[k]).0)),
            decreases params@.len() - i,
        {
            if !variant.accepts(params.entry(i).field) {
                legal = false;
            }
            i += 1;
        }
        let agrees = match variant.type_value() {
            Some(expected) => {
                let typed = match params.get(Field::Type) {
                    Some(Value::Type(found)) => found == expected,
                    _ => false,
                };
                typed && params.is_set(Field::StopPrice) == variant.triggers()
            },
            None => true,
        };
        ParamBuilder {
            params,
            variant,
            rejected: !(legal && agrees),
            method,
            url,
            api_key,
            secret_key,
        }
    }

    /// The current request variant.
    pub fn variant(&self) -> (v: Variant)
        ensures
            v == self@.variant,
    {
        self.variant
    }

    /// Whether a setter was used that the variant did not offer.
    pub fn is_rejected(&self) -> (r: bool)
        ensures
            r == self@.rejected,
    {
        self.rejected
    }

    /// The parameters set so far.
    pub fn params(&self) -> (p: &Parameters<'a>)
        ensures
            p@ == self@.params,
            self.wf() ==> p.wf(),
    {
        &self.params
    }

    /// Records the use of `setter`: moves to the variant it leads to and
    /// returns true if it is legal, marks the builder as rejected otherwise.
    /// The parameters are left for the caller to set.
    fn enter(&mut self, setter: Setter) -> (legal: bool)
        ensures
            legal == (!old(self)@.rejected && old(self)@.variant.allows(setter)),
            final(self)@ == old(self)@.apply(setter, old(self)@.params),
            final(self).params == old(self).params,
    {
        if self.rejected || !self.variant.permits(setter) {
            self.rejected = true;
            false
        } else {
            self.variant = self.variant.upgraded(setter);
            true
        }
    }

    /// Sets one field where `setter`, which is no upgrade, is legal.
    fn with(self, setter: Setter, field: Field, value: Value<'a>) -> (r: Self)
        requires
            self.wf(),
            setter.writes(field),
            !setter.is_upgrade(),
        ensures
            r.wf(),
            r@ == self@.apply(setter, put(self@.params, field, value@)),
    {
        let ghost before = self@;
        let mut b = self;
        if b.enter(setter) {
            b.params.set(field, value);
            proof {
                lemma_within_after(before.params, before.variant, setter);
                law_setter_writes_legal_fields(before.variant, setter, field);
                lemma_put_within(before.params, before.variant.after(setter), field, value@);
                lemma_put_keeps_coherent(before.params, before.variant, field, value@);
            }
        }
        b
    }

    /// Sets two fields where `setter`, which leaves `type` and the stop
    /// price alone, is legal.
    fn with_two(
        self,
        setter: Setter,
        first: Field,
        first_value: Value<'a>,
        second: Field,
        second_value: Value<'a>,
    ) -> (r: Self)
        requires
            self.wf(),
            setter.writes(first),
            setter.writes(second),
            setter == Setter::IcebergQty || setter == Setter::StopLimitPrice,
        ensures
            r.wf(),
            r@ == self@.apply(
                setter,
                put(put(self@.params, first, first_value@), second, second_value@),
            ),
    {
        let ghost before = self@;
        let mut b = self;
        if b.enter(setter) {
            b.params.set(first, first_value);
            b.params.set(second, second_value);
            proof {
                let v = before.variant.after(setter);
                lemma_within_after(before.params, before.variant, setter);
                law_setter_writes_legal_fields(before.variant, setter, first);
                law_setter_writes_legal_fields(before.variant, setter, second);
                lemma_put_within(before.params, v, first, first_value@);
                lemma_put_within(
                    put(before.params, first, first_value@),
                    v,
                    second,
                    second_value@,
                );
                lemma_put_keeps_coherent(before.params, before.variant, first, first_value@);
                law_put_keeps_distinct(before.params, first, first_value@);
                lemma_put_keeps_coherent(
                    put(before.params, first, first_value@),
                    before.variant,
                    second,
                    second_value@,
                );
            }
        }
        b
    }
}

/// Setting a field other than `type` and the stop price keeps the parameters
/// in agreement with the variant.
proof fn lemma_put_keeps_coherent(s: Seq<(Field, ValueView)>, v: Variant, f: Field, x: ValueView)
    requires
        distinct(s),
        coherent(s, v),
        f != Field::Type,
        f != Field::StopPrice,
    ensures
        coherent(put(s, f, x), v),
{
    law_put_keeps_others(s, f, x, Field::Type);
    law_put_keeps_others(s, f, x, Field::StopPrice);
}

/// Setting a field that the variant may carry keeps the parameters within
/// the variant.
proof fn lemma_put_within(s: Seq<(Field, ValueView)>, v: Variant, f: Field, x: ValueView)
    requires
        fields_within(s, v),
        v.takes(f),
    ensures
        fields_within(put(s, f, x), v),
{
    let t = put(s, f, x);
    assert forall|i: int| 0 <= i < t.len() implies v.takes((#[trigger] t[i]).0) by {
        if i < s.len() {
            assert(t[i].0 == s[i].0 || t[i].0 == f);
        }
    }
}

/// Parameters within a variant stay within the variant that a legal setter
/// leads to, but for the limit-maker upgrade, which drops a field.
proof fn lemma_within_after(s: Seq<(Field, ValueView)>, v: Variant, setter: Setter)
    requires
        fields_within(s, v),
        v.allows(setter),
        setter != Setter::LimitMaker,
    ensures
        fields_within(s, v.after(setter)),
{
    assert forall|i: int| 0 <= i < s.len() implies v.after(setter).takes((#[trigger] s[i]).0) by {
        law_upgrade_keeps_fields(v, setter, s[i].0);
    }
}

/// Taking a field out keeps the parameters within the variant.
proof fn lemma_without_within(s: Seq<(Field, ValueView)>, v: Variant, f: Field)
    requires
        fields_within(s, v),
    ensures
        fields_within(without(s, f), v),
{
    let t = without(s, f);
    if present(s, f) {
        let x = index_of(s, f);
        assert forall|i: int| 0 <= i < t.len() implies v.takes((#[trigger] t[i]).0) by {
            assert(t[i] == s[if i < x {
                i
            } else {
                i + 1
            }]);
        }
    }
}

impl<'a, 'b> ParamBuilder<'a, 'b> {
    /// Sets `recvWindow`, the time in milliseconds for which the exchange
    /// accepts the request. A value above [`MAX_RECV_WINDOW`] is refused when
    /// the request is prepared.
    pub fn with_recv_window(self, recv_window: u64) -> (r: Self)
        requires
            self.wf(),
        ensures
            r.wf(),
            r@ == self@.apply(
                Setter::RecvWindow,
                put(self@.params, Field::RecvWindow, ValueView::Number(recv_window)),
            ),
    {
        self.with(Setter::RecvWindow, Field::RecvWindow, Value::Number(recv_window))
    }

    /// Sets `newClientOrderId`, the client's own id for the order.
    pub fn with_new_client_order_id(self, id: &'a str) -> (r: Self)
        requires
            self.wf(),
        ensures
            r.wf(),
            r@ == self@.apply(
                Setter::NewClientOrderId,
                put(self@.params, Field::NewClientOrderId, ValueView::Text(id@)),
            ),
    {
        self.with(Setter::NewClientOrderId, Field::NewClientOrderId, Value::Text(id))
    }

    /// Sets `timeInForce`.
    pub fn with_time_in_force(self, time_in_force: TimeInForce) -> (r: Self)
        requires
            self.wf(),
        ensures
            r.wf(),
            r@ == self@.apply(
                Setter::TimeInForce,
                put(self@.params, Field::TimeInForce, ValueView::TimeInForce(time_in_force)),
            ),
    {
        self.with(Setter::TimeInForce, Field::TimeInForce, Value::TimeInForce(time_in_force))
    }

    /// Sets `icebergQty` and, as an iceberg order must be good till
    /// cancelled, sets `timeInForce` to `GTC` whatever it was.
    pub fn with_iceberg_qty(self, iceberg_qty: Decimal) -> (r: Self)
        requires
            self.wf(),
        ensures
            r.wf(),
            r@ == with_iceberg(self@, iceberg_qty),
    {
        self.with_two(
            Setter::IcebergQty,
            Field::IcebergQty,
            Value::Amount(iceberg_qty),
            Field::TimeInForce,
            Value::TimeInForce(TimeInForce::Gtc),
        )
    }

    /// Sets `newOrderRespType`, the verbosity of the response.
    pub fn with_new_order_resp_type(self, resp_type: OrderRespType) -> (r: Self)
        requires
            self.wf(),
        ensures
            r.wf(),
            r@ == self@.apply(
                Setter::NewOrderRespType,
                put(self@.params, Field::NewOrderRespType, ValueView::RespType(resp_type)),
            ),
    {
        self.with(Setter::NewOrderRespType, Field::NewOrderRespType, Value::RespType(resp_type))
    }

    /// Sets the stop price and turns the order into `order_type`, the type
    /// of the variant that `setter` leads to.
    fn with_trigger(self, setter: Setter, stop_price: Decimal, order_type: OrderType) -> (r: Self)
        requires
            self.wf(),
            setter == Setter::StopLossLimit || setter == Setter::TakeProfitLimit || setter
                == Setter::StopLoss || setter == Setter::TakeProfit,
            self@.variant.after(setter).order_type() == Some(order_type),
        ensures
            r.wf(),
            r@ == self@.apply(
                setter,
                put(
                    put(self@.params, Field::StopPrice, ValueView::Amount(stop_price)),
                    Field::Type,
                    ValueView::Type(order_type),
                ),
            ),
    {
        let ghost before = self@;
        let mut b = self;
        if b.enter(setter) {
            b.params.set(Field::StopPrice, Value::Amount(stop_price));
            b.params.set(Field::Type, Value::Type(order_type));
            proof {
                let v = before.variant.after(setter);
                let price = ValueView::Amount(stop_price);
                let kind = ValueView::Type(order_type);
                let priced = put(before.params, Field::StopPrice, price);
                lemma_within_after(before.params, before.variant, setter);
                law_setter_writes_legal_fields(before.variant, setter, Field::StopPrice);
                law_setter_writes_legal_fields(before.variant, setter, Field::Type);
                lemma_put_within(before.params, v, Field::StopPrice, price);
                lemma_put_within(priced, v, Field::Type, kind);
                law_put_keeps_distinct(before.params, Field::StopPrice, price);
                law_put_then_lookup(before.params, Field::StopPrice, price);
                law_put_then_lookup(priced, Field::Type, kind);
                law_put_keeps_others(priced, Field::Type, kind, Field::StopPrice);
            }
        }
        b
    }

    /// Turns a limit order into a stop-loss-limit order that triggers at
    /// `stop_price`.
    pub fn with_stop_loss_limit(self, stop_price: Decimal) -> (r: Self)
        requires
            self.wf(),
        ensures
            r.wf(),
            r@ == self@.apply(
                Setter::StopLossLimit,
                put(
                    put(self@.params, Field::StopPrice, ValueView::Amount(stop_price)),
                    Field::Type,
                    ValueView::Type(OrderType::StopLossLimit),
                ),
            ),
    {
        self.with_trigger(Setter::StopLossLimit, stop_price, OrderType::StopLossLimit)
    }

    /// Turns a limit order into a take-profit-limit order that triggers at
    /// `stop_price`.
    pub fn with_take_profit_limit(self, stop_price: Decimal) -> (r: Self)
        requires
            self.wf(),
        ensures
            r.wf(),
            r@ == self@.apply(
                Setter::TakeProfitLimit,
                put(
                    put(self@.params, Field::StopPrice, ValueView::Amount(stop_price)),
                    Field::Type,
                    ValueView::Type(OrderType::TakeProfitLimit),
                ),
            ),
    {
        self.with_trigger(Setter::TakeProfitLimit, stop_price, OrderType::TakeProfitLimit)
    }

    /// Turns a limit order into a limit-maker order, which carries no
    /// `timeInForce`.
    pub fn into_limit_maker_order(self) -> (r: Self)
        requires
            self.wf(),
        ensures
            r.wf(),
            r@ == self@.apply(
                Setter::LimitMaker,
                without(
                    put(self@.params, Field::Type, ValueView::Type(OrderType::LimitMaker)),
                    Field::TimeInForce,
                ),
            ),
    {
        let ghost before = self@;
        let mut b = self;
        if b.enter(Setter::LimitMaker) {
            b.params.set(Field::Type, Value::Type(OrderType::LimitMaker));
            b.params.unset(Field::TimeInForce);
            proof {
                let maker = ValueView::Type(OrderType::LimitMaker);
                let typed = put(before.params, Field::Type, maker);
                lemma_put_within(before.params, Variant::Limit, Field::Type, maker);
                law_put_keeps_distinct(before.params, Field::Type, maker);
                lemma_without_within(typed, Variant::Limit, Field::TimeInForce);
                law_without(typed, Field::TimeInForce, Field::Type);
                let left = without(typed, Field::TimeInForce);
                assert forall|i: int| 0 <= i < left.len() implies Variant::LimitMaker.takes(
                    (#[trigger] left[i]).0,
                ) by {
                    assert(left[i].0 != Field::TimeInForce);
                }
                assert(coherent(left, Variant::LimitMaker)) by {
                    law_put_then_lookup(before.params, Field::Type, maker);
                    law_put_keeps_others(before.params, Field::Type, maker, Field::StopPrice);
                    law_without(typed, Field::TimeInForce, Field::StopPrice);
                }
            }
        }
        b
    }

    /// Turns a market order into a stop-loss order that triggers at
    /// `stop_price`.
    pub fn with_stop_loss(self, stop_price: Decimal) -> (r: Self)
        requires
            self.wf(),
        ensures
            r.wf(),
            r@ == self@.apply(
                Setter::StopLoss,
                put(
                    put(self@.params, Field::StopPrice, ValueView::Amount(stop_price)),
                    Field::Type,
                    ValueView::Type(OrderType::StopLoss),
                ),
            ),
    {
        self.with_trigger(Setter::StopLoss, stop_price, OrderType::StopLoss)
    }

    /// Turns a market order into a take-profit order that triggers at
    /// `stop_price`.
    pub fn with_take_profit(self, stop_price: Decimal) -> (r: Self)
        requires
            self.wf(),
        ensures
            r.wf(),
            r@ == self@.apply(
                Setter::TakeProfit,
                put(
                    put(self@.params, Field::StopPrice, ValueView::Amount(stop_price)),
                    Field::Type,
                    ValueView::Type(OrderType::TakeProfit),
                ),
            ),
    {
        self.with_trigger(Setter::TakeProfit, stop_price, OrderType::TakeProfit)
    }

    /// Narrows a listing of open orders to one symbol.
    pub fn with_symbol(self, symbol: &'a str) -> (r: Self)
        requires
            self.wf(),
        ensures
            r.wf(),
            r@ == self@.apply(
                Setter::Symbol,
                put(self@.params, Field::Symbol, ValueView::Text(symbol@)),
            ),
    {
        self.with(Setter::Symbol, Field::Symbol, Value::Text(symbol))
    }

    /// Lists orders from `order_id` on. The exchange does not take it
    /// together with a time range: the combination is refused when the
    /// request is prepared.
    pub fn with_order_id(self, order_id: u64) -> (r: Self)
        requires
            self.wf(),
        ensures
            r.wf(),
            r@ == self@.apply(
                Setter::OrderId,
                put(self@.params, Field::OrderId, ValueView::Number(order_id)),
            ),
    {
        self.with(Setter::OrderId, Field::OrderId, Value::Number(order_id))
    }

    /// Lists entries from `from_id` on. The exchange does not take it
    /// together with a time range: the combination is refused when the
    /// request is prepared.
    pub fn with_from_id(self, from_id: u64) -> (r: Self)
        requires
            self.wf(),
        ensures
            r.wf(),
            r@ == self@.apply(
                Setter::FromId,
                put(self@.params, Field::FromId, ValueView::Number(from_id)),
            ),
    {
        self.with(Setter::FromId, Field::FromId, Value::Number(from_id))
    }

    /// Sets the start of the time range, in milliseconds since the epoch.
    pub fn with_start_time(self, start_time: u64) -> (r: Self)
        requires
            self.wf(),
        ensures
            r.wf(),
            r@ == self@.apply(
                Setter::StartTime,
                put(self@.params, Field::StartTime, ValueView::Number(start_time)),
            ),
    {
        self.with(Setter::StartTime, Field::StartTime, Value::Number(start_time))
    }

    /// Sets the end of the time range, in milliseconds since the epoch.
    pub fn with_end_time(self, end_time: u64) -> (r: Self)
        requires
            self.wf(),
        ensures
            r.wf(),
            r@ == self@.apply(
                Setter::EndTime,
                put(self@.params, Field::EndTime, ValueView::Number(end_time)),
            ),
    {
        self.with(Setter::EndTime, Field::EndTime, Value::Number(end_time))
    }

    /// Sets the largest number of entries to list.
    pub fn with_limit(self, limit: u64) -> (r: Self)
        requires
            self.wf(),
        ensures
            r.wf(),
            r@ == self@.apply(
                Setter::Limit,
                put(self@.params, Field::Limit, ValueView::Number(limit)),
            ),
    {
        self.with(Setter::Limit, Field::Limit, Value::Number(limit))
    }

    /// Sets `listClientOrderId`, the client's id for the whole order list.
    pub fn with_list_client_order_id(self, id: &'a str) -> (r: Self)
        requires
            self.wf(),
        ensures
            r.wf(),
            r@ == self@.apply(
                Setter::ListClientOrderId,
                put(self@.params, Field::ListClientOrderId, ValueView::Text(id@)),
            ),
    {
        self.with(Setter::ListClientOrderId, Field::ListClientOrderId, Value::Text(id))
    }

    /// Sets `limitClientOrderId`, the client's id for the limit leg.
    pub fn with_limit_client_order_id(self, id: &'a str) -> (r: Self)
        requires
            self.wf(),
        ensures
            r.wf(),
            r@ == self@.apply(
                Setter::LimitClientOrderId,
                put(self@.params, Field::LimitClientOrderId, ValueView::Text(id@)),
            ),
    {
        self.with(Setter::LimitClientOrderId, Field::LimitClientOrderId, Value::Text(id))
    }

    /// Sets `limitIcebergQty`, which splits the quantity of the limit leg.
    pub fn with_limit_iceberg_qty(self, qty: Decimal) -> (r: Self)
        requires
            self.wf(),
        ensures
            r.wf(),
            r@ == self@.apply(
                Setter::LimitIcebergQty,
                put(self@.params, Field::LimitIcebergQty, ValueView::Amount(qty)),
            ),
    {
        self.with(Setter::LimitIcebergQty, Field::LimitIcebergQty, Value::Amount(qty))
    }

    /// Sets `stopClientOrderId`, the client's id for the stop leg.
    pub fn with_stop_client_order_id(self, id: &'a str) -> (r: Self)
        requires
            self.wf(),
        ensures
            r.wf(),
            r@ == self@.apply(
                Setter::StopClientOrderId,
                put(self@.params, Field::StopClientOrderId, ValueView::Text(id@)),
            ),
    {
        self.with(Setter::StopClientOrderId, Field::StopClientOrderId, Value::Text(id))
    }

    /// Turns the stop leg of a one-cancels-the-other order into a stop-limit
    /// leg with the given limit price and lifetime.
    pub fn with_stop_limit_price(self, price: Decimal, time_in_force: TimeInForce) -> (r: Self)
        requires
            self.wf(),
        ensures
            r.wf(),
            r@ == self@.apply(
                Setter::StopLimitPrice,
                put(
                    put(self@.params, Field::StopLimitPrice, ValueView::Amount(price)),
                    Field::StopLimitTimeInForce,
                    ValueView::TimeInForce(time_in_force),
                ),
            ),
    {
        self.with_two(
            Setter::StopLimitPrice,
            Field::StopLimitPrice,
            Value::Amount(price),
            Field::StopLimitTimeInForce,
            Value::TimeInForce(time_in_force),
        )
    }

    /// Sets `stopIcebergQty`, which splits the quantity of the stop leg.
    pub fn with_stop_iceberg_qty(self, qty: Decimal) -> (r: Self)
        requires
            self.wf(),
        ensures
            r.wf(),
            r@ == self@.apply(
                Setter::StopIcebergQty,
                put(self@.params, Field::StopIcebergQty, ValueView::Amount(qty)),
            ),
    {
        self.with(Setter::StopIcebergQty, Field::StopIcebergQty, Value::Amount(qty))
    }

    /// Validates the builder without consuming it: the failure that would
    /// stop it from being sent, if there is one.
    pub fn validate(&self) -> (r: Result<(), Error>)
        requires
            self.wf(),
        ensures
            match refusal(self@) {
                Some(e) => r == Err::<(), Error>(e),
                None => r is Ok,
            },
    {
        if self.rejected {
            return Err(Error::InvalidStateTransition);
        }
        match self.params.get(Field::RecvWindow) {
            Some(Value::Number(n)) => {
                if n > MAX_RECV_WINDOW {
                    return Err(Error::ParameterOutOfRange);
                }
            },
            _ => {},
        }
        let id_filter = self.params.is_set(Field::OrderId) || self.params.is_set(Field::FromId);
        let time_range = self.params.is_set(Field::StartTime) || self.params.is_set(
            Field::EndTime,
        );
        if id_filter && time_range {
            return Err(Error::ConflictingParameters);
        }
        if self.url.is_none() {
            return Err(Error::UrlParseError);
        }
        Ok(())
    }

    /// Finishes the request at time `timestamp` (milliseconds since the
    /// epoch). A builder with a refusal fails with it and nothing else
    /// happens. Otherwise the timestamp is stamped on, the parameters are
    /// serialised in insertion order, and where the builder holds a secret
    /// key the signature of that query string is attached as its last
    /// parameter.
    pub fn prepare(self, timestamp: u64) -> (r: Result<SignedRequest<'b>, Error>)
        requires
            self.wf(),
        ensures
            match refusal(self@) {
                Some(e) => r == Err::<SignedRequest<'b>, Error>(e),
                None => r matches Ok(request) && request@ == outgoing(self@, timestamp),
            },
    {
        match self.validate() {
            Err(e) => {
                return Err(e);
            },
            Ok(_) => {},
        }
        let url = match &self.url {
            Some(address) => address.to_text(),
            None => {
                return Err(Error::UrlParseError);
            },
        };
        let mut params = self.params;
        params.set(Field::Timestamp, Value::Number(timestamp));
        let mut query = query_string(&params);
        match self.secret_key {
            Some(key) => {
                let sig = sign(key.as_bytes(), query.as_str().as_bytes());
                query.append("&signature=");
                query.append(sig.as_str());
            },
            None => {},
        }
        Ok(SignedRequest { method: self.method, url, query, api_key: self.api_key })
    }
}

/// Along every chain of setters, the `type` of an order is the type of its
/// variant, and it carries a stop price exactly when the variant has a
/// trigger: every constructor and every setter keeps the builder
/// well-formed, and a well-formed builder that is not rejected says so. A
/// limit order, upgraded or not, has one of the four types `LIMIT`,
/// `STOP_LOSS_LIMIT`, `TAKE_PROFIT_LIMIT` and `LIMIT_MAKER`.
pub proof fn law_type_follows_variant(b: BuilderView)
    requires
        b.wf(),
        !b.rejected,
        b.variant.order_type() is Some,
    ensures
        lookup(b.params, Field::Type) == Some(ValueView::Type(b.variant.order_type()->0)),
        present(b.params, Field::StopPrice) == b.variant.has_trigger(),
        b.variant.is_limit_family() ==> (b.variant.order_type()->0 == OrderType::Limit
            || b.variant.order_type()->0 == OrderType::StopLossLimit
            || b.variant.order_type()->0 == OrderType::TakeProfitLimit
            || b.variant.order_type()->0 == OrderType::LimitMaker),
        b.variant.is_limit_family() ==> (present(b.params, Field::StopPrice) <==> b.variant
            == Variant::StopLossLimit || b.variant == Variant::TakeProfitLimit),
{
}

/// The `type` that goes out is the type of the variant.
pub proof fn law_type_sent(b: BuilderView, timestamp: u64)
    requires
        b.wf(),
        !b.rejected,
        b.variant.order_type() is Some,
    ensures
        has_part(
            outgoing_query(b, timestamp),
            pair_text((Field::Type, ValueView::Type(b.variant.order_type()->0))),
        ),
{
    law_set_field_sent(b, timestamp, Field::Type);
}

/// What is sent names only fields that the request variant may carry.
pub proof fn law_sent_fields_are_legal(b: BuilderView, timestamp: u64, f: Field)
    requires
        b.wf(),
        !b.rejected,
        !b.variant.takes(f),
    ensures
        !names_parameter(outgoing_query(b, timestamp), f.wire()),
{
    if present(b.params, f) {
        let i = index_of(b.params, f);
        assert(b.variant.takes(b.params[i].0));
    }
    law_unset_field_not_sent(b, timestamp, f);
}

/// Upgrade paths exclude each other: whatever the builder, once one upgrade
/// was asked for, a second one marks the builder as rejected, and it is
/// refused with `InvalidStateTransition` when the request is prepared. So a
/// limit order that became a stop-loss-limit order cannot become a
/// limit-maker order as well.
pub proof fn law_second_upgrade_rejected(
    b: BuilderView,
    first: Setter,
    first_params: Seq<(Field, ValueView)>,
    second: Setter,
    second_params: Seq<(Field, ValueView)>,
)
    requires
        first.is_upgrade(),
        second.is_upgrade(),
    ensures
        b.apply(first, first_params).apply(second, second_params).rejected,
        refusal(b.apply(first, first_params).apply(second, second_params)) == Some(
            Error::InvalidStateTransition,
        ),
{
}

/// A rejected builder takes no further change, and nothing is partially
/// applied: an illegal setter leaves the parameters as they were.
pub proof fn law_rejection_changes_nothing(
    b: BuilderView,
    setter: Setter,
    params: Seq<(Field, ValueView)>,
)
    requires
        b.rejected || !b.variant.allows(setter),
    ensures
        b.apply(setter, params).params == b.params,
        b.apply(setter, params).variant == b.variant,
        b.apply(setter, params).rejected,
        refusal(b.apply(setter, params)) == Some(Error::InvalidStateTransition),
{
}

/// The builder after `with_iceberg_qty`.
pub open spec fn with_iceberg(b: BuilderView, iceberg_qty: Decimal) -> BuilderView {
    b.apply(
        Setter::IcebergQty,
        put(
            put(b.params, Field::IcebergQty, ValueView::Amount(iceberg_qty)),
            Field::TimeInForce,
            ValueView::TimeInForce(TimeInForce::Gtc),
        ),
    )
}

/// An iceberg order is good till cancelled: where `with_iceberg_qty` is
/// legal, the request that goes out says `timeInForce=GTC`, whatever the
/// time in force was before.
pub proof fn law_iceberg_is_good_till_cancelled(
    b: BuilderView,
    iceberg_qty: Decimal,
    timestamp: u64,
)
    requires
        distinct(b.params),
        !b.rejected,
        b.variant.allows(Setter::IcebergQty),
    ensures
        lookup(with_iceberg(b, iceberg_qty).params, Field::TimeInForce) == Some(
            ValueView::TimeInForce(TimeInForce::Gtc),
        ),
        has_part(outgoing_query(with_iceberg(b, iceberg_qty), timestamp), "timeInForce=GTC"@),
{
    let r = with_iceberg(b, iceberg_qty);
    let gtc = ValueView::TimeInForce(TimeInForce::Gtc);
    let p1 = put(b.params, Field::IcebergQty, ValueView::Amount(iceberg_qty));
    law_put_keeps_distinct(b.params, Field::IcebergQty, ValueView::Amount(iceberg_qty));
    law_put_then_lookup(p1, Field::TimeInForce, gtc);
    law_put_keeps_distinct(p1, Field::TimeInForce, gtc);
    assert(r.params == put(p1, Field::TimeInForce, gtc));
    law_set_field_sent(r, timestamp, Field::TimeInForce);
    reveal_strlit("timeInForce=GTC");
    reveal_strlit("timeInForce");
    reveal_strlit("GTC");
    assert("timeInForce=GTC"@ =~= pair_text((Field::TimeInForce, gtc)));
}

/// Stamping the timestamp on sets no other field.
proof fn lemma_stamp_sets_no_other(params: Seq<(Field, ValueView)>, timestamp: u64, f: Field)
    requires
        !present(params, f),
        f != Field::Timestamp,
    ensures
        !present(stamped(params, timestamp), f),
{
    let s = stamped(params, timestamp);
    if present(s, f) {
        let k = index_of(s, f);
        if present(params, Field::Timestamp) {
            assert(s[k].0 == params[k].0 || s[k].0 == Field::Timestamp);
        } else if k < params.len() {
            assert(s[k] == params[k]);
        }
    }
}

/// The signature is a text without separators.
proof fn lemma_signature_plain(secret_key: Seq<u8>, message: Seq<u8>)
    ensures
        all_plain(signature(secret_key, message)),
{
    law_hex_text_shape(hmac_sha256(secret_key, message));
}

/// A signed query string is the query string with `&`, the name `signature`,
/// `=` and the signature attached.
proof fn lemma_signed_query_shape(query: Seq<char>, secret_key: Seq<char>)
    ensures
        signed_query(query, secret_key) == query + seq!['&'] + ("signature"@ + seq!['=']
            + signature(encode_utf8(secret_key), encode_utf8(query))),
{
    reveal_strlit("&signature=");
    reveal_strlit("signature");
    let sig = signature(encode_utf8(secret_key), encode_utf8(query));
    assert(signed_query(query, secret_key) =~= query + seq!['&'] + ("signature"@ + seq!['=']
        + sig));
}

/// Attaching the signature names no field: a signed query string names a
/// field only if the query string did.
proof fn lemma_signing_names_no_field(query: Seq<char>, secret_key: Seq<char>, f: Field)
    requires
        !names_parameter(query, f.wire()),
    ensures
        !names_parameter(signed_query(query, secret_key), f.wire()),
{
    let out = signed_query(query, secret_key);
    if names_parameter(out, f.wire()) {
        let i = choose|i: int| starts_parameter(out, i, f.wire());
        let sig = signature(encode_utf8(secret_key), encode_utf8(query));
        lemma_signature_plain(encode_utf8(secret_key), encode_utf8(query));
        lemma_signature_is_no_field(f);
        lemma_field_name_plain(f);
        lemma_signed_query_shape(query, secret_key);
        lemma_attached_part(query, "signature"@, sig, i, f.wire());
    }
}

/// What is sent names no field that is not set: apart from the timestamp,
/// which every request carries, a field that was never set appears nowhere
/// in the outgoing query string, signed or not.
pub proof fn law_unset_field_not_sent(b: BuilderView, timestamp: u64, f: Field)
    requires
        !present(b.params, f),
        f != Field::Timestamp,
    ensures
        !names_parameter(outgoing_query(b, timestamp), f.wire()),
{
    let s = stamped(b.params, timestamp);
    lemma_stamp_sets_no_other(b.params, timestamp, f);
    law_unset_field_not_named(s, f);
    match b.secret_key {
        Some(key) => {
            lemma_signing_names_no_field(canonical_query(s), key, f);
        },
        None => {},
    }
}

/// Signing a query string keeps its parts.
proof fn lemma_signing_keeps_parts(b: BuilderView, timestamp: u64, text: Seq<char>)
    requires
        has_part(canonical_query(stamped(b.params, timestamp)), text),
    ensures
        has_part(outgoing_query(b, timestamp), text),
{
    let q = canonical_query(stamped(b.params, timestamp));
    match b.secret_key {
        Some(key) => {
            let tail = "&signature="@ + signature(encode_utf8(key), encode_utf8(q));
            assert(tail.len() > 0 && tail[0] == '&') by {
                reveal_strlit("&signature=");
            }
            assert(outgoing_query(b, timestamp) =~= q + tail);
            lemma_attached_keeps_parts(q, tail, text);
        },
        None => {},
    }
}

/// What is sent holds every field that is set, as `name=value` with the
/// value it holds.
pub proof fn law_set_field_sent(b: BuilderView, timestamp: u64, f: Field)
    requires
        distinct(b.params),
        present(b.params, f),
        f != Field::Timestamp,
    ensures
        has_part(outgoing_query(b, timestamp), pair_text((f, lookup(b.params, f)->0))),
{
    let s = stamped(b.params, timestamp);
    let stamp = ValueView::Number(timestamp);
    assert(distinct(s) && present(s, f) && lookup(s, f) == lookup(b.params, f)) by {
        law_put_keeps_distinct(b.params, Field::Timestamp, stamp);
        law_put_keeps_others(b.params, Field::Timestamp, stamp, f);
    }
    let text = pair_text((f, lookup(s, f)->0));
    assert(has_part(canonical_query(s), text)) by {
        law_set_field_serialised(s, f);
    }
    lemma_signing_keeps_parts(b, timestamp, text);
}

/// The timestamp that a request is prepared with is what it carries,
/// whatever stood there before.
pub proof fn law_timestamp_sent(b: BuilderView, timestamp: u64)
    requires
        distinct(b.params),
    ensures
        has_part(
            outgoing_query(b, timestamp),
            pair_text((Field::Timestamp, ValueView::Number(timestamp))),
        ),
{
    let s = stamped(b.params, timestamp);
    let stamp = ValueView::Number(timestamp);
    assert(distinct(s) && present(s, Field::Timestamp) && lookup(s, Field::Timestamp) == Some(
        stamp,
    )) by {
        law_put_keeps_distinct(b.params, Field::Timestamp, stamp);
        law_put_then_lookup(b.params, Field::Timestamp, stamp);
    }
    let text = pair_text((Field::Timestamp, stamp));
    assert(has_part(canonical_query(s), text)) by {
        law_set_field_serialised(s, Field::Timestamp);
    }
    lemma_signing_keeps_parts(b, timestamp, text);
}

/// The limit on `recvWindow` is inclusive: the largest accepted value passes,
/// the next one is refused.
pub proof fn law_recv_window_limit(params: Seq<(Field, ValueView)>, recv_window: u64)
    requires
        distinct(params),
    ensures
        window_out_of_range(put(params, Field::RecvWindow, ValueView::Number(recv_window)))
            <==> recv_window > 60000,
{
    law_put_then_lookup(params, Field::RecvWindow, ValueView::Number(recv_window));
}

} // verus!
