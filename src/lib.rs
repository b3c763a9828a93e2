//! Verified core of a thin adapter over a Hyperliquid exchange client: the
//! error taxonomy, the reading of signing keys and account addresses, the
//! session's task runner, the fixed order policy, bulk-cancel planning and
//! the reading of venue side codes.

pub mod account;
pub mod context;
pub mod error;
pub mod hex_text;
pub mod network;
pub mod orders;

pub use account::{parse_account_address, prepare_exchange, wallet_address_for_key};
pub use context::ExecutionContext;
pub use error::HyperliquidError;
pub use network::BaseUrl;
pub use orders::{
    bulk_cancel_requests, is_buy_side, order_terms, CancelRequest, OrderTerms, TimeInForce,
    ALL_ORDERS_OID,
};
