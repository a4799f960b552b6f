//! Typed request builder and signing pipeline for an exchange's trading REST API.
//!
//! A request is accumulated as an insertion-ordered set of parameters, checked
//! against the rules of its request variant, serialised into a canonical query
//! string and signed with HMAC-SHA256. Sending the request is left to the caller.

pub mod address;
pub mod builder;
pub mod canonical;
pub mod client;
pub mod encode;
pub mod error;
pub mod param;
pub mod request;
pub mod response;
pub mod sign;
pub mod variant;

pub use address::Address;
pub use builder::{ParamBuilder, MAX_RECV_WINDOW};
pub use client::account::AccountClient;
pub use client::{GeneralClient, MarketDataClient, UserDataClient, WithdrawalClient};
pub use error::Error;
pub use param::{
    Decimal, Field, OrderRespType, OrderType, Param, Parameters, Side, TimeInForce, Value, ID,
};
pub use request::{Method, SignedRequest};
pub use response::{settle, ErrorEnvelope, Reply};
pub use sign::sign;
pub use variant::{Setter, Variant};

use vstd::prelude::*;

verus! {

/// Base URL of the main exchange.
pub const BINANCE_URL: &'static str = "https://api.binance.com";

/// Base URL of the exchange for the United States.
pub const BINANCE_US_URL: &'static str = "https://api.binance.us";

} // verus!
