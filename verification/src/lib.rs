//! Validated value types and validation errors for a trading platform's REST API.

pub mod client_id;
pub mod cross_leverage;
pub mod decimal;
pub mod double_bits;
pub mod error;
pub mod trade_request;

pub use client_id::ClientId;
pub use cross_leverage::CrossLeverage;
pub use error::{
    ClientIdValidationError, CrossLeverageValidationError,
    FuturesIsolatedTradeRequestValidationError, QuantityValidationError,
};
pub use trade_request::{check_prices, OrderType};
