//! The parameter set: field names, typed values and the insertion-ordered record.

use vstd::prelude::*;

verus! {

/// Direction of an order.
#[derive(Clone, Copy, Debug, PartialEq, Eq, Structural)]
pub enum Side {
    Buy,
    Sell,
}

impl Side {
    /// The text the exchange expects for this side.
    pub open spec fn wire(self) -> Seq<char> {
        match self {
            Side::Buy => "BUY"@,
            Side::Sell => "SELL"@,
        }
    }

    pub fn as_str(&self) -> (s: &'static str)
        ensures
            s@ == self.wire(),
    {
        match self {
            Side::Buy => "BUY",
            Side::Sell => "SELL",
        }
    }
}

/// Order type as serialised in the `type` parameter.
#[derive(Clone, Copy, Debug, PartialEq, Eq, Structural)]
pub enum OrderType {
    Limit,
    Market,
    StopLoss,
    StopLossLimit,
    TakeProfit,
    TakeProfitLimit,
    LimitMaker,
}

impl OrderType {
    pub open spec fn wire(self) -> Seq<char> {
        match self {
            OrderType::Limit => "LIMIT"@,
            OrderType::Market => "MARKET"@,
            OrderType::StopLoss => "STOP_LOSS"@,
            OrderType::StopLossLimit => "STOP_LOSS_LIMIT"@,
            OrderType::TakeProfit => "TAKE_PROFIT"@,
            OrderType::TakeProfitLimit => "TAKE_PROFIT_LIMIT"@,
            OrderType::LimitMaker => "LIMIT_MAKER"@,
        }
    }

    pub fn as_str(&self) -> (s: &'static str)
        ensures
            s@ == self.wire(),
    {
        match self {
            OrderType::Limit => "LIMIT",
            OrderType::Market => "MARKET",
            OrderType::StopLoss => "STOP_LOSS",
            OrderType::StopLossLimit => "STOP_LOSS_LIMIT",
            OrderType::TakeProfit => "TAKE_PROFIT",
            OrderType::TakeProfitLimit => "TAKE_PROFIT_LIMIT",
            OrderType::LimitMaker => "LIMIT_MAKER",
        }
    }
}

/// How long an order stays active.
#[derive(Clone, Copy, Debug, PartialEq, Eq, Structural)]
pub enum TimeInForce {
    Gtc,
    Ioc,
    Fok,
}

impl TimeInForce {
    pub open spec fn wire(self) -> Seq<char> {
        match self {
            TimeInForce::Gtc => "GTC"@,
            TimeInForce::Ioc => "IOC"@,
            TimeInForce::Fok => "FOK"@,
        }
    }

    pub fn as_str(&self) -> (s: &'static str)
        ensures
            s@ == self.wire(),
    {
        match self {
            TimeInForce::Gtc => "GTC",
            TimeInForce::Ioc => "IOC",
            TimeInForce::Fok => "FOK",
        }
    }
}

/// Verbosity of the response to a new order.
#[derive(Clone, Copy, Debug, PartialEq, Eq, Structural)]
pub enum OrderRespType {
    Ack,
    Result,
    Full,
}

impl OrderRespType {
    pub open spec fn wire(self) -> Seq<char> {
        match self {
            OrderRespType::Ack => "ACK"@,
            OrderRespType::Result => "RESULT"@,
            OrderRespType::Full => "FULL"@,
        }
    }

    pub fn as_str(&self) -> (s: &'static str)
        ensures
            s@ == self.wire(),
    {
        match self {
            OrderRespType::Ack => "ACK",
            OrderRespType::Result => "RESULT",
            OrderRespType::Full => "FULL",
        }
    }
}

/// Identifies an order (or an order list) either by the id the exchange
/// assigned or by the id the client chose. Exactly one of the two is given.
#[derive(Clone, Copy, Debug)]
pub enum ID<'a> {
    OrderId(u64),
    ClientOId(&'a str),
}

/// A non-negative decimal number `units / 10^scale`, used for prices and
/// quantities.
#[derive(Clone, Copy, Debug, PartialEq, Eq, Structural)]
pub struct Decimal {
    pub units: u64,
    pub scale: u8,
}

impl Decimal {
    pub fn new(units: u64, scale: u8) -> (d: Decimal)
        ensures
            d.units == units,
            d.scale == scale,
    {
        Decimal { units, scale }
    }

    /// A whole number.
    pub fn whole(units: u64) -> (d: Decimal)
        ensures
            d.units == units,
            d.scale == 0,
    {
        Decimal { units, scale: 0 }
    }
}

/// Every parameter the exchange knows, one variant per parameter name.
#[derive(Clone, Copy, Debug, PartialEq, Eq, Structural)]
pub enum Field {
    Symbol,
    Side,
    Type,
    TimeInForce,
    Quantity,
    QuoteOrderQty,
    Price,
    NewClientOrderId,
    StopPrice,
    IcebergQty,
    NewOrderRespType,
    RecvWindow,
    Timestamp,
    OrderId,
    OrigClientOrderId,
    StartTime,
    EndTime,
    Limit,
    FromId,
    ListClientOrderId,
    LimitClientOrderId,
    LimitIcebergQty,
    StopClientOrderId,
    StopLimitPrice,
    StopLimitTimeInForce,
    StopIcebergQty,
    OrderListId,
}

impl Field {
    /// The parameter name as it appears in a query string.
    pub open spec fn wire(self) -> Seq<char> {
        match self {
            Field::Symbol => "symbol"@,
            Field::Side => "side"@,
            Field::Type => "type"@,
            Field::TimeInForce => "timeInForce"@,
            Field::Quantity => "quantity"@,
            Field::QuoteOrderQty => "quoteOrderQty"@,
            Field::Price => "price"@,
            Field::NewClientOrderId => "newClientOrderId"@,
            Field::StopPrice => "stopPrice"@,
            Field::IcebergQty => "icebergQty"@,
            Field::NewOrderRespType => "newOrderRespType"@,
            Field::RecvWindow => "recvWindow"@,
            Field::Timestamp => "timestamp"@,
            Field::OrderId => "orderId"@,
            Field::OrigClientOrderId => "origClientOrderId"@,
            Field::StartTime => "startTime"@,
            Field::EndTime => "endTime"@,
            Field::Limit => "limit"@,
            Field::FromId => "fromId"@,
            Field::ListClientOrderId => "listClientOrderId"@,
            Field::LimitClientOrderId => "limitClientOrderId"@,
            Field::LimitIcebergQty => "limitIcebergQty"@,
            Field::StopClientOrderId => "stopClientOrderId"@,
            Field::StopLimitPrice => "stopLimitPrice"@,
            Field::StopLimitTimeInForce => "stopLimitTimeInForce"@,
            Field::StopIcebergQty => "stopIcebergQty"@,
            Field::OrderListId => "orderListId"@,
        }
    }

    pub fn as_str(&self) -> (s: &'static str)
        ensures
            s@ == self.wire(),
    {
        match self {
            Field::Symbol => "symbol",
            Field::Side => "side",
            Field::Type => "type",
            Field::TimeInForce => "timeInForce",
            Field::Quantity => "quantity",
            Field::QuoteOrderQty => "quoteOrderQty",
            Field::Price => "price",
            Field::NewClientOrderId => "newClientOrderId",
            Field::StopPrice => "stopPrice",
            Field::IcebergQty => "icebergQty",
            Field::NewOrderRespType => "newOrderRespType",
            Field::RecvWindow => "recvWindow",
            Field::Timestamp => "timestamp",
            Field::OrderId => "orderId",
            Field::OrigClientOrderId => "origClientOrderId",
            Field::StartTime => "startTime",
            Field::EndTime => "endTime",
            Field::Limit => "limit",
            Field::FromId => "fromId",
            Field::ListClientOrderId => "listClientOrderId",
            Field::LimitClientOrderId => "limitClientOrderId",
            Field::LimitIcebergQty => "limitIcebergQty",
            Field::StopClientOrderId => "stopClientOrderId",
            Field::StopLimitPrice => "stopLimitPrice",
            Field::StopLimitTimeInForce => "stopLimitTimeInForce",
            Field::StopIcebergQty => "stopIcebergQty",
            Field::OrderListId => "orderListId",
        }
    }
}

/// The value of one parameter.
#[derive(Clone, Copy, Debug)]
pub enum Value<'a> {
    Text(&'a str),
    Side(Side),
    Type(OrderType),
    TimeInForce(TimeInForce),
    RespType(OrderRespType),
    Amount(Decimal),
    Number(u64),
}

/// What a [`Value`] stands for in specifications.
pub enum ValueView {
    Text(Seq<char>),
    Side(Side),
    Type(OrderType),
    TimeInForce(TimeInForce),
    RespType(OrderRespType),
    Amount(Decimal),
    Number(u64),
}

impl<'a> View for Value<'a> {
    type V = ValueView;

    open spec fn view(&self) -> ValueView {
        match *self {
            Value::Text(s) => ValueView::Text(s@),
            Value::Side(s) => ValueView::Side(s),
            Value::Type(t) => ValueView::Type(t),
            Value::TimeInForce(t) => ValueView::TimeInForce(t),
            Value::RespType(r) => ValueView::RespType(r),
            Value::Amount(d) => ValueView::Amount(d),
            Value::Number(n) => ValueView::Number(n),
        }
    }
}

/// True if some entry of `s` belongs to field `f`.
pub open spec fn present(s: Seq<(Field, ValueView)>, f: Field) -> bool {
    exists|i: int| 0 <= i < s.len() && (#[trigger] s[i]).0 == f
}

/// An index at which `f` stands in `s`, if there is one.
pub open spec fn index_of(s: Seq<(Field, ValueView)>, f: Field) -> int {
    choose|i: int| 0 <= i < s.len() && (#[trigger] s[i]).0 == f
}

/// The value that `s` holds for `f`.
pub open spec fn lookup(s: Seq<(Field, ValueView)>, f: Field) -> Option<ValueView> {
    if present(s, f) {
        Some(s[index_of(s, f)].1)
    } else {
        None
    }
}

/// `s` with field `f` set to `v`: in place if `f` was set before, at the end
/// otherwise.
pub open spec fn put(s: Seq<(Field, ValueView)>, f: Field, v: ValueView) -> Seq<
    (Field, ValueView),
> {
    if present(s, f) {
        s.update(index_of(s, f), (f, v))
    } else {
        s.push((f, v))
    }
}

/// `s` with field `f` taken out.
pub open spec fn without(s: Seq<(Field, ValueView)>, f: Field) -> Seq<(Field, ValueView)> {
    if present(s, f) {
        s.remove(index_of(s, f))
    } else {
        s
    }
}

/// No field occurs twice.
pub open spec fn distinct(s: Seq<(Field, ValueView)>) -> bool {
    forall|i: int, j: int| 0 <= i < j < s.len() ==> (#[trigger] s[i]).0 != (#[trigger] s[j]).0
}

/// One parameter: a field and its value.
#[derive(Clone, Copy, Debug)]
pub struct Param<'a> {
    pub field: Field,
    pub value: Value<'a>,
}

impl<'a> View for Param<'a> {
    type V = (Field, ValueView);

    open spec fn view(&self) -> (Field, ValueView) {
        (self.field, self.value@)
    }
}

/// The parameters of one request, in the order in which they were first set.
/// A field that was never set has no entry.
#[derive(Debug)]
pub struct Parameters<'a> {
    entries: Vec<Param<'a>>,
}

impl<'a> View for Parameters<'a> {
    type V = Seq<(Field, ValueView)>;

    closed spec fn view(&self) -> Seq<(Field, ValueView)> {
        self.entries@.map_values(|p: Param<'a>| p@)
    }
}

impl<'a> Parameters<'a> {
    /// Well-formed: no field occurs twice.
    pub open spec fn wf(&self) -> bool {
        distinct(self@)
    }

    /// The empty parameter set.
    pub fn new() -> (p: Self)
        ensures
            p@ == Seq::<(Field, ValueView)>::empty(),
            p.wf(),
    {
        let p = Parameters { entries: Vec::new() };
        assert(p@ =~= Seq::<(Field, ValueView)>::empty());
        p
    }

    /// Number of fields that are set.
    pub fn len(&self) -> (n: usize)
        ensures
            n == self@.len(),
    {
        self.entries.len()
    }

    /// The entry at position `i` in insertion order.
    pub fn entry(&self, i: usize) -> (p: Param<'a>)
        requires
            i < self@.len(),
        ensures
            p@ == self@[i as int],
    {
        self.entries[i]
    }

    /// Position of `field`, if it is set.
    pub fn find(&self, field: Field) -> (r: Option<usize>)
        ensures
            r is Some <==> present(self@, field),
            r matches Some(i) ==> i < self@.len() && self@[i as int].0 == field && (self.wf()
                ==> i == index_of(self@, field)),
            r matches Some(i) ==> forall|k: int| 0 <= k < i ==> (#[trigger] self@[k]).0 != field,
    {
        let mut i: usize = 0;
        while i < self.entries.len()
            invariant
                i <= self.entries.len(),
                forall|k: int| 0 <= k < i ==> (#[trigger] self@[k]).0 != field,
            decreases self.entries.len() - i,
        {
            if self.entries[i].field == field {
                return Some(i);
            }
            i += 1;
        }
        None
    }

    /// Whether `field` is set.
    pub fn is_set(&self, field: Field) -> (b: bool)
        ensures
            b == present(self@, field),
    {
        self.find(field).is_some()
    }

    /// The value of `field`, if it is set.
    pub fn get(&self, field: Field) -> (r: Option<Value<'a>>)
        requires
            self.wf(),
        ensures
            r is Some <==> present(self@, field),
            r matches Some(v) ==> Some(v@) == lookup(self@, field),
    {
        match self.find(field) {
            Some(i) => Some(self.entries[i].value),
            None => None,
        }
    }

    /// Sets `field` to `value`. A field that is already set keeps its place.
    pub fn set(&mut self, field: Field, value: Value<'a>)
        requires
            old(self).wf(),
        ensures
            final(self)@ == put(old(self)@, field, value@),
            final(self).wf(),
    {
        match self.find(field) {
            Some(i) => {
                self.entries.set(i, Param { field, value });
                assert(self@ =~= put(old(self)@, field, value@));
            },
            None => {
                self.entries.push(Param { field, value });
                assert(self@ =~= put(old(self)@, field, value@));
            },
        }
    }

    /// Adds `field`, which is not set yet, at the end.
    pub fn add(&mut self, field: Field, value: Value<'a>)
        requires
            old(self).wf(),
            !present(old(self)@, field),
        ensures
            final(self)@ == old(self)@.push((field, value@)),
            final(self).wf(),
    {
        self.entries.push(Param { field, value });
        assert(self@ =~= old(self)@.push((field, value@)));
    }

    /// Takes `field` out, if it is set.
    pub fn unset(&mut self, field: Field)
        requires
            old(self).wf(),
        ensures
            final(self)@ == without(old(self)@, field),
            final(self).wf(),
    {
        match self.find(field) {
            Some(i) => {
                self.entries.remove(i);
                assert(self@ =~= without(old(self)@, field));
            },
            None => {},
        }
    }
}

/// In a parameter set without duplicates, the field at a position is set
/// and holds the value at that position.
pub proof fn law_lookup_at(s: Seq<(Field, ValueView)>, i: int)
    requires
        distinct(s),
        0 <= i < s.len(),
    ensures
        present(s, s[i].0),
        lookup(s, s[i].0) == Some(s[i].1),
{
    let k = index_of(s, s[i].0);
    assert(s[k].0 == s[i].0);
}

/// A field that was just set holds the value it was set to.
pub proof fn law_put_then_lookup(s: Seq<(Field, ValueView)>, f: Field, v: ValueView)
    requires
        distinct(s),
    ensures
        present(put(s, f, v), f),
        lookup(put(s, f, v), f) == Some(v),
{
    let t = put(s, f, v);
    law_put_keeps_distinct(s, f, v);
    if present(s, f) {
        assert(t[index_of(s, f)].0 == f);
    } else {
        assert(t[s.len() as int].0 == f);
    }
    let k = index_of(t, f);
    if present(s, f) {
        assert(t[index_of(s, f)].0 == t[k].0);
    } else {
        assert(t[s.len() as int].0 == t[k].0);
    }
}

/// Setting one field leaves every other field as it was.
pub proof fn law_put_keeps_others(s: Seq<(Field, ValueView)>, f: Field, v: ValueView, g: Field)
    requires
        distinct(s),
        g != f,
    ensures
        present(put(s, f, v), g) == present(s, g),
        lookup(put(s, f, v), g) == lookup(s, g),
{
    let t = put(s, f, v);
    law_put_keeps_distinct(s, f, v);
    if present(s, g) {
        let i = index_of(s, g);
        assert(t[i] == s[i]);
        assert(t[i].0 == g);
        let k = index_of(t, g);
        assert(t[k].0 == t[i].0);
    }
    if present(t, g) {
        let k = index_of(t, g);
        assert(k < s.len());
        assert(s[k].0 == g);
    }
}

/// Setting a field keeps the parameter set free of duplicates.
pub proof fn law_put_keeps_distinct(s: Seq<(Field, ValueView)>, f: Field, v: ValueView)
    requires
        distinct(s),
    ensures
        distinct(put(s, f, v)),
{
    let t = put(s, f, v);
    assert forall|i: int, j: int| 0 <= i < j < t.len() implies (#[trigger] t[i]).0 != (
    #[trigger] t[j]).0 by {
        if present(s, f) {
            assert(t[i].0 == s[i].0);
            assert(t[j].0 == s[j].0);
        } else {
            if j == s.len() {
                assert(t[i] == s[i]);
            } else {
                assert(t[i] == s[i] && t[j] == s[j]);
            }
        }
    }
}

/// Setting a field moves no other parameter: one that is already set keeps
/// its place, a new one goes to the end.
pub proof fn law_put_keeps_order(s: Seq<(Field, ValueView)>, f: Field, v: ValueView)
    ensures
        put(s, f, v).len() == if present(s, f) {
            s.len()
        } else {
            s.len() + 1
        },
        forall|i: int| 0 <= i < s.len() ==> (#[trigger] put(s, f, v)[i]).0 == s[i].0,
{
}

/// A field that was taken out is no longer set, and the others stay.
pub proof fn law_without(s: Seq<(Field, ValueView)>, f: Field, g: Field)
    requires
        distinct(s),
    ensures
        distinct(without(s, f)),
        !present(without(s, f), f),
        g != f ==> lookup(without(s, f), g) == lookup(s, g),
        g != f ==> present(without(s, f), g) == present(s, g),
{
    let t = without(s, f);
    if present(s, f) {
        let x = index_of(s, f);
        assert forall|i: int| 0 <= i < t.len() implies #[trigger] t[i] == s[if i < x {
            i
        } else {
            i + 1
        }] by {}
        assert forall|i: int, j: int| 0 <= i < j < t.len() implies (#[trigger] t[i]).0 != (
        #[trigger] t[j]).0 by {
            let a = if i < x { i } else { i + 1 };
            let b = if j < x { j } else { j + 1 };
            assert(t[i] == s[a] && t[j] == s[b]);
        }
        if present(t, f) {
            let k = index_of(t, f);
            let a = if k < x { k } else { k + 1 };
            assert(t[k] == s[a]);
            assert(s[a].0 == s[x].0);
        }
        if g != f {
            if present(s, g) {
                let i = index_of(s, g);
                let k = if i < x { i } else { i - 1 };
                assert(t[k] == s[i]);
                assert(t[k].0 == g);
                let m = index_of(t, g);
                assert(t[m].0 == t[k].0);
            }
            if present(t, g) {
                let k = index_of(t, g);
                let a = if k < x { k } else { k + 1 };
                assert(t[k] == s[a]);
                assert(s[a].0 == g);
            }
        }
    }
}

} // verus!
