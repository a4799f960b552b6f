//! Request variants: which fields a request may carry, which setters it
//! offers, and which variant a setter leads to.

use crate::param::{lookup, present, Field, OrderType, ValueView};
use vstd::prelude::*;

verus! {

/// Which kind of request a builder holds. The six variants after
/// `CancelAllOrders` are reached only by an upgrade from `Limit`, `Market` or
/// `Oco`.
#[derive(Clone, Copy, Debug, PartialEq, Eq, Structural)]
pub enum Variant {
    Limit,
    Market,
    OrderStatus,
    CancelOrder,
    OpenOrders,
    AllOrders,
    Oco,
    CancelOco,
    OcoStatus,
    AllOco,
    OpenOco,
    Account,
    AccountTrades,
    CancelAllOrders,
    StopLossLimit,
    TakeProfitLimit,
    LimitMaker,
    StopLoss,
    TakeProfit,
    StopLimit,
}

/// The setters a builder offers, one per `with_*` / `into_*` method.
#[derive(Clone, Copy, Debug, PartialEq, Eq, Structural)]
pub enum Setter {
    RecvWindow,
    NewClientOrderId,
    TimeInForce,
    IcebergQty,
    NewOrderRespType,
    StopLossLimit,
    TakeProfitLimit,
    LimitMaker,
    StopLoss,
    TakeProfit,
    Symbol,
    OrderId,
    FromId,
    StartTime,
    EndTime,
    Limit,
    ListClientOrderId,
    LimitClientOrderId,
    LimitIcebergQty,
    StopClientOrderId,
    StopLimitPrice,
    StopIcebergQty,
}

/// The fields that every order to be placed may carry.
pub open spec fn is_order_field(f: Field) -> bool {
    f == Field::Symbol || f == Field::Side || f == Field::Type || f == Field::Quantity || f
        == Field::NewClientOrderId || f == Field::NewOrderRespType
}

/// The fields that narrow a listing.
pub open spec fn is_range_field(f: Field) -> bool {
    f == Field::StartTime || f == Field::EndTime || f == Field::Limit
}

/// The fields that a one-cancels-the-other order may carry.
pub open spec fn is_oco_field(f: Field) -> bool {
    f == Field::Symbol || f == Field::Side || f == Field::Quantity || f == Field::Price || f
        == Field::StopPrice || f == Field::ListClientOrderId || f == Field::LimitClientOrderId
        || f == Field::LimitIcebergQty || f == Field::StopClientOrderId || f
        == Field::StopIcebergQty || f == Field::NewOrderRespType
}

/// Every field of `s` is one that a request of variant `v` may carry.
pub open spec fn fields_within(s: Seq<(Field, ValueView)>, v: Variant) -> bool {
    forall|i: int| 0 <= i < s.len() ==> v.takes((#[trigger] s[i]).0)
}

/// The parameters agree with the variant: an order to be placed carries the
/// `type` of its variant, and a stop price exactly when the variant has a
/// trigger.
pub open spec fn coherent(s: Seq<(Field, ValueView)>, v: Variant) -> bool {
    v.order_type() matches Some(t) ==> lookup(s, Field::Type) == Some(ValueView::Type(t))
        && present(s, Field::StopPrice) == v.has_trigger()
}

impl Setter {
    /// Whether the setter writes the field.
    pub open spec fn writes(self, f: Field) -> bool {
        match self {
            Setter::RecvWindow => f == Field::RecvWindow,
            Setter::NewClientOrderId => f == Field::NewClientOrderId,
            Setter::TimeInForce => f == Field::TimeInForce,
            Setter::IcebergQty => f == Field::IcebergQty || f == Field::TimeInForce,
            Setter::NewOrderRespType => f == Field::NewOrderRespType,
            Setter::StopLossLimit
            | Setter::TakeProfitLimit
            | Setter::StopLoss
            | Setter::TakeProfit => f == Field::StopPrice || f == Field::Type,
            Setter::LimitMaker => f == Field::Type,
            Setter::Symbol => f == Field::Symbol,
            Setter::OrderId => f == Field::OrderId,
            Setter::FromId => f == Field::FromId,
            Setter::StartTime => f == Field::StartTime,
            Setter::EndTime => f == Field::EndTime,
            Setter::Limit => f == Field::Limit,
            Setter::ListClientOrderId => f == Field::ListClientOrderId,
            Setter::LimitClientOrderId => f == Field::LimitClientOrderId,
            Setter::LimitIcebergQty => f == Field::LimitIcebergQty,
            Setter::StopClientOrderId => f == Field::StopClientOrderId,
            Setter::StopLimitPrice => f == Field::StopLimitPrice || f
                == Field::StopLimitTimeInForce,
            Setter::StopIcebergQty => f == Field::StopIcebergQty,
        }
    }

    /// True for the setters that turn a request into another variant.
    pub open spec fn is_upgrade(self) -> bool {
        self == Setter::StopLossLimit || self == Setter::TakeProfitLimit || self
            == Setter::LimitMaker || self == Setter::StopLoss || self == Setter::TakeProfit
            || self == Setter::StopLimitPrice
    }
}

impl Variant {
    /// A limit order, upgraded or not.
    pub open spec fn is_limit_family(self) -> bool {
        self == Variant::Limit || self == Variant::StopLossLimit || self
            == Variant::TakeProfitLimit || self == Variant::LimitMaker
    }

    /// A market order, upgraded or not.
    pub open spec fn is_market_family(self) -> bool {
        self == Variant::Market || self == Variant::StopLoss || self == Variant::TakeProfit
    }

    /// A one-cancels-the-other order, upgraded or not.
    pub open spec fn is_oco_family(self) -> bool {
        self == Variant::Oco || self == Variant::StopLimit
    }

    /// A listing that can be narrowed to a time range.
    pub open spec fn is_history(self) -> bool {
        self == Variant::AllOrders || self == Variant::AllOco || self == Variant::AccountTrades
    }

    /// True for the variants that only an upgrade reaches.
    pub open spec fn is_upgraded(self) -> bool {
        self == Variant::StopLossLimit || self == Variant::TakeProfitLimit || self
            == Variant::LimitMaker || self == Variant::StopLoss || self == Variant::TakeProfit
            || self == Variant::StopLimit
    }

    /// The `type` that an order of this variant carries, or `None` for a
    /// request that carries no `type`.
    pub open spec fn order_type(self) -> Option<OrderType> {
        match self {
            Variant::Limit => Some(OrderType::Limit),
            Variant::Market => Some(OrderType::Market),
            Variant::StopLossLimit => Some(OrderType::StopLossLimit),
            Variant::TakeProfitLimit => Some(OrderType::TakeProfitLimit),
            Variant::LimitMaker => Some(OrderType::LimitMaker),
            Variant::StopLoss => Some(OrderType::StopLoss),
            Variant::TakeProfit => Some(OrderType::TakeProfit),
            _ => None,
        }
    }

    /// Computes [`Variant::order_type`].
    pub fn type_value(&self) -> (r: Option<OrderType>)
        ensures
            r == self.order_type(),
    {
        match self {
            Variant::Limit => Some(OrderType::Limit),
            Variant::Market => Some(OrderType::Market),
            Variant::StopLossLimit => Some(OrderType::StopLossLimit),
            Variant::TakeProfitLimit => Some(OrderType::TakeProfitLimit),
            Variant::LimitMaker => Some(OrderType::LimitMaker),
            Variant::StopLoss => Some(OrderType::StopLoss),
            Variant::TakeProfit => Some(OrderType::TakeProfit),
            _ => None,
        }
    }

    /// An order that waits for a trigger price.
    pub open spec fn has_trigger(self) -> bool {
        self == Variant::StopLossLimit || self == Variant::TakeProfitLimit || self
            == Variant::StopLoss || self == Variant::TakeProfit
    }

    /// Computes [`Variant::has_trigger`].
    pub fn triggers(&self) -> (r: bool)
        ensures
            r == self.has_trigger(),
    {
        matches!(
            self,
            Variant::StopLossLimit | Variant::TakeProfitLimit | Variant::StopLoss
                | Variant::TakeProfit
        )
    }

    /// Whether a request of this variant may carry the field. Every request
    /// may carry `timestamp` and `recvWindow`.
    pub open spec fn takes(self, f: Field) -> bool {
        ||| f == Field::Timestamp
        ||| f == Field::RecvWindow
        ||| match self {
            Variant::Limit => is_order_field(f) || f == Field::Price || f == Field::IcebergQty
                || f == Field::TimeInForce,
            Variant::StopLossLimit | Variant::TakeProfitLimit => is_order_field(f) || f
                == Field::Price || f == Field::IcebergQty || f == Field::TimeInForce || f
                == Field::StopPrice,
            Variant::LimitMaker => is_order_field(f) || f == Field::Price || f
                == Field::IcebergQty,
            Variant::Market => is_order_field(f) || f == Field::QuoteOrderQty,
            Variant::StopLoss | Variant::TakeProfit => is_order_field(f) || f
                == Field::QuoteOrderQty || f == Field::StopPrice,
            Variant::OrderStatus => f == Field::Symbol || f == Field::OrderId || f
                == Field::OrigClientOrderId,
            Variant::CancelOrder => f == Field::Symbol || f == Field::OrderId || f
                == Field::OrigClientOrderId || f == Field::NewClientOrderId,
            Variant::OpenOrders | Variant::CancelAllOrders => f == Field::Symbol,
            Variant::AllOrders => f == Field::Symbol || f == Field::OrderId || is_range_field(f),
            Variant::Oco => is_oco_field(f),
            Variant::StopLimit => is_oco_field(f) || f == Field::StopLimitPrice || f
                == Field::StopLimitTimeInForce,
            Variant::CancelOco => f == Field::Symbol || f == Field::OrderListId || f
                == Field::ListClientOrderId || f == Field::NewClientOrderId,
            Variant::OcoStatus => f == Field::OrderListId || f == Field::ListClientOrderId,
            Variant::AllOco => f == Field::FromId || is_range_field(f),
            Variant::OpenOco | Variant::Account => false,
            Variant::AccountTrades => f == Field::Symbol || f == Field::FromId || is_range_field(
                f,
            ),
        }
    }

    /// Computes [`Variant::takes`].
    pub fn accepts(&self, f: Field) -> (r: bool)
        ensures
            r == self.takes(f),
    {
        let order_field = matches!(
            f,
            Field::Symbol | Field::Side | Field::Type | Field::Quantity | Field::NewClientOrderId
                | Field::NewOrderRespType
        );
        let range_field = matches!(f, Field::StartTime | Field::EndTime | Field::Limit);
        let oco_field = matches!(
            f,
            Field::Symbol | Field::Side | Field::Quantity | Field::Price | Field::StopPrice
                | Field::ListClientOrderId | Field::LimitClientOrderId | Field::LimitIcebergQty
                | Field::StopClientOrderId | Field::StopIcebergQty | Field::NewOrderRespType
        );
        if matches!(f, Field::Timestamp | Field::RecvWindow) {
            return true;
        }
        match self {
            Variant::Limit => order_field || matches!(
                f,
                Field::Price | Field::IcebergQty | Field::TimeInForce
            ),
            Variant::StopLossLimit | Variant::TakeProfitLimit => order_field || matches!(
                f,
                Field::Price | Field::IcebergQty | Field::TimeInForce | Field::StopPrice
            ),
            Variant::LimitMaker => order_field || matches!(f, Field::Price | Field::IcebergQty),
            Variant::Market => order_field || matches!(f, Field::QuoteOrderQty),
            Variant::StopLoss | Variant::TakeProfit => order_field || matches!(
                f,
                Field::QuoteOrderQty | Field::StopPrice
            ),
            Variant::OrderStatus => matches!(
                f,
                Field::Symbol | Field::OrderId | Field::OrigClientOrderId
            ),
            Variant::CancelOrder => matches!(
                f,
                Field::Symbol | Field::OrderId | Field::OrigClientOrderId
                    | Field::NewClientOrderId
            ),
            Variant::OpenOrders | Variant::CancelAllOrders => matches!(f, Field::Symbol),
            Variant::AllOrders => range_field || matches!(f, Field::Symbol | Field::OrderId),
            Variant::Oco => oco_field,
            Variant::StopLimit => oco_field || matches!(
                f,
                Field::StopLimitPrice | Field::StopLimitTimeInForce
            ),
            Variant::CancelOco => matches!(
                f,
                Field::Symbol | Field::OrderListId | Field::ListClientOrderId
                    | Field::NewClientOrderId
            ),
            Variant::OcoStatus => matches!(f, Field::OrderListId | Field::ListClientOrderId),
            Variant::AllOco => range_field || matches!(f, Field::FromId),
            Variant::OpenOco | Variant::Account => false,
            Variant::AccountTrades => range_field || matches!(f, Field::Symbol | Field::FromId),
        }
    }

    /// Whether a request of this variant offers the setter.
    pub open spec fn allows(self, setter: Setter) -> bool {
        match setter {
            Setter::RecvWindow => true,
            Setter::NewClientOrderId => self.is_limit_family() || self.is_market_family() || self
                == Variant::CancelOrder || self == Variant::CancelOco,
            Setter::TimeInForce | Setter::IcebergQty => self.is_limit_family() && self
                != Variant::LimitMaker,
            Setter::NewOrderRespType => self.is_limit_family() || self.is_market_family()
                || self.is_oco_family(),
            Setter::StopLossLimit | Setter::TakeProfitLimit | Setter::LimitMaker => self
                == Variant::Limit,
            Setter::StopLoss | Setter::TakeProfit => self == Variant::Market,
            Setter::Symbol => self == Variant::OpenOrders,
            Setter::OrderId => self == Variant::AllOrders,
            Setter::FromId => self == Variant::AllOco || self == Variant::AccountTrades,
            Setter::StartTime | Setter::EndTime | Setter::Limit => self.is_history(),
            Setter::ListClientOrderId
            | Setter::LimitClientOrderId
            | Setter::LimitIcebergQty
            | Setter::StopClientOrderId
            | Setter::StopIcebergQty => self.is_oco_family(),
            Setter::StopLimitPrice => self == Variant::Oco,
        }
    }

    /// The variant of the request once the setter has been applied.
    pub open spec fn after(self, setter: Setter) -> Variant {
        match setter {
            Setter::StopLossLimit => Variant::StopLossLimit,
            Setter::TakeProfitLimit => Variant::TakeProfitLimit,
            Setter::LimitMaker => Variant::LimitMaker,
            Setter::StopLoss => Variant::StopLoss,
            Setter::TakeProfit => Variant::TakeProfit,
            Setter::StopLimitPrice => Variant::StopLimit,
            _ => self,
        }
    }

    /// Computes [`Variant::allows`].
    pub fn permits(&self, setter: Setter) -> (r: bool)
        ensures
            r == self.allows(setter),
    {
        let limit_family = matches!(
            self,
            Variant::Limit | Variant::StopLossLimit | Variant::TakeProfitLimit
                | Variant::LimitMaker
        );
        let market_family = matches!(
            self,
            Variant::Market | Variant::StopLoss | Variant::TakeProfit
        );
        let oco_family = matches!(self, Variant::Oco | Variant::StopLimit);
        let history = matches!(
            self,
            Variant::AllOrders | Variant::AllOco | Variant::AccountTrades
        );
        match setter {
            Setter::RecvWindow => true,
            Setter::NewClientOrderId => limit_family || market_family || matches!(
                self,
                Variant::CancelOrder | Variant::CancelOco
            ),
            Setter::TimeInForce | Setter::IcebergQty => limit_family && !matches!(
                self,
                Variant::LimitMaker
            ),
            Setter::NewOrderRespType => limit_family || market_family || oco_family,
            Setter::StopLossLimit | Setter::TakeProfitLimit | Setter::LimitMaker => matches!(
                self,
                Variant::Limit
            ),
            Setter::StopLoss | Setter::TakeProfit => matches!(self, Variant::Market),
            Setter::Symbol => matches!(self, Variant::OpenOrders),
            Setter::OrderId => matches!(self, Variant::AllOrders),
            Setter::FromId => matches!(self, Variant::AllOco | Variant::AccountTrades),
            Setter::StartTime | Setter::EndTime | Setter::Limit => history,
            Setter::ListClientOrderId
            | Setter::LimitClientOrderId
            | Setter::LimitIcebergQty
            | Setter::StopClientOrderId
            | Setter::StopIcebergQty => oco_family,
            Setter::StopLimitPrice => matches!(self, Variant::Oco),
        }
    }

    /// Computes [`Variant::after`].
    pub fn upgraded(&self, setter: Setter) -> (r: Variant)
        ensures
            r == self.after(setter),
    {
        match setter {
            Setter::StopLossLimit => Variant::StopLossLimit,
            Setter::TakeProfitLimit => Variant::TakeProfitLimit,
            Setter::LimitMaker => Variant::LimitMaker,
            Setter::StopLoss => Variant::StopLoss,
            Setter::TakeProfit => Variant::TakeProfit,
            Setter::StopLimitPrice => Variant::StopLimit,
            _ => *self,
        }
    }
}

/// A legal setter writes only fields that the variant it leads to may carry.
pub proof fn law_setter_writes_legal_fields(v: Variant, setter: Setter, f: Field)
    requires
        v.allows(setter),
        setter.writes(f),
    ensures
        v.after(setter).takes(f),
{
}

/// What a request may carry it may still carry after a legal setter, with
/// one exception: a limit-maker order carries no `timeInForce`.
pub proof fn law_upgrade_keeps_fields(v: Variant, setter: Setter, f: Field)
    requires
        v.allows(setter),
        v.takes(f),
        !(setter == Setter::LimitMaker && f == Field::TimeInForce),
    ensures
        v.after(setter).takes(f),
{
}

/// An upgrade goes one way: it starts from a base variant, ends in an
/// upgraded one, and an upgraded variant is never left again.
pub proof fn law_upgrade_one_way(v: Variant, setter: Setter)
    requires
        v.allows(setter),
    ensures
        setter.is_upgrade() ==> !v.is_upgraded() && v.after(setter).is_upgraded(),
        !setter.is_upgrade() ==> v.after(setter) == v,
        v.is_upgraded() ==> v.after(setter) == v,
{
}

} // verus!
