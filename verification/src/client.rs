//! The clients, one per role. Each holds the credentials its role needs and
//! the base URL of the exchange.

pub mod account;

use crate::address::Address;
use vstd::prelude::*;

verus! {

/// Client for withdrawals: API key, secret key and base URL.
pub struct WithdrawalClient {
    pub api_key: String,
    pub secret_key: String,
    pub url: Address,
}

/// Client for market data: API key and base URL.
pub struct MarketDataClient {
    pub api_key: String,
    pub url: Address,
}

/// Client for the general endpoints: the base URL alone.
pub struct GeneralClient {
    pub url: Address,
}

/// Client for user data streams: API key and base URL.
pub struct UserDataClient {
    pub api_key: String,
    pub url: Address,
}

} // verus!
