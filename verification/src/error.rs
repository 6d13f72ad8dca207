//! Why a value or a request was rejected.
//!
//! Every error is plain data: it names the rule that failed and carries the
//! offending value, so that callers branch on the variant and never on text.
//! `message` gives the human-readable line for each.

use crate::client_id::ClientId;
use crate::decimal::{decimal, decimal_string};
use vstd::prelude::*;
use vstd::std_specs::convert::FromSpecImpl;
use vstd::string::*;

verus! {

/// A string was refused as a client identifier.
#[derive(Debug)]
pub enum ClientIdValidationError {
    /// The string has fewer than `ClientId::MIN_LEN` bytes; `len` is its length.
    TooShort { len: usize },
    /// The string has more than `ClientId::MAX_LEN` bytes; `len` is its length.
    TooLong { len: usize },
}

impl ClientIdValidationError {
    /// The text of `message`.
    pub open spec fn message_text(self) -> Seq<char> {
        match self {
            ClientIdValidationError::TooShort { len } => "Client ID must be at least "@ + decimal(
                ClientId::MIN_LEN as nat,
            ) + " character(s). Length: "@ + decimal(len as nat),
            ClientIdValidationError::TooLong { len } => "Client ID must be at most "@ + decimal(
                ClientId::MAX_LEN as nat,
            ) + " characters. Length: "@ + decimal(len as nat),
        }
    }

    /// The diagnostic line for this error: the bound that was broken and the
    /// length that broke it, both in decimal.
    pub fn message(&self) -> (res: String)
        ensures
            res@ == self.message_text(),
    {
        match self {
            ClientIdValidationError::TooShort { len } => {
                let mut text = String::from_str("Client ID must be at least ");
                text.append(decimal_string(ClientId::MIN_LEN as u64).as_str());
                text.append(" character(s). Length: ");
                text.append(decimal_string(*len as u64).as_str());
                text
            },
            ClientIdValidationError::TooLong { len } => {
                let mut text = String::from_str("Client ID must be at most ");
                text.append(decimal_string(ClientId::MAX_LEN as u64).as_str());
                text.append(" characters. Length: ");
                text.append(decimal_string(*len as u64).as_str());
                text
            },
        }
    }
}

/// A number was refused as a cross leverage.
#[derive(Debug)]
pub enum CrossLeverageValidationError {
    /// The value is below `CrossLeverage::MIN`.
    TooLow { value: u64 },
    /// The value is above `CrossLeverage::MAX`.
    TooHigh { value: u64 },
    /// The number has a fractional part. It is kept as the bit pattern of its
    /// IEEE 754 double-precision form, which identifies it exactly.
    NotAnInteger { value_bits: u64 },
}

/// A quantity was refused. The rules on quantities are not part of this
/// crate; of their failure it keeps the diagnostic line, which is all that a
/// trade request reads of it.
#[derive(Debug)]
pub struct QuantityValidationError {
    message: String,
}

impl View for QuantityValidationError {
    type V = Seq<char>;

    closed spec fn view(&self) -> Seq<char> {
        self.message@
    }
}

impl QuantityValidationError {
    /// A quantity failure with the given diagnostic line.
    pub fn new(message: String) -> (res: Self)
        ensures
            res@ == message@,
    {
        QuantityValidationError { message }
    }

    /// The diagnostic line of this failure.
    pub fn message(&self) -> (res: String)
        ensures
            res@ == self@,
    {
        self.message.clone()
    }
}

/// A request to open an isolated futures trade was refused.
#[derive(Debug)]
pub enum FuturesIsolatedTradeRequestValidationError {
    /// A market order came with a price.
    PriceSetForMarketOrder,
    /// A limit order came without a price.
    MissingPriceForLimitOrder,
    /// The quantity of the request was refused; the inner error says why.
    QuantityValidation(QuantityValidationError),
    /// The stop loss is not strictly below the entry price.
    StopLossHigherThanPrice,
    /// The take profit is not strictly above the entry price.
    TakeProfitLowerThanPrice,
}

impl FuturesIsolatedTradeRequestValidationError {
    /// The text of `message`. A quantity failure keeps its own line, behind a
    /// tag that names where it came from.
    pub open spec fn message_text(self) -> Seq<char> {
        match self {
            FuturesIsolatedTradeRequestValidationError::PriceSetForMarketOrder => {
                "Price cannot be set for market orders"@
            },
            FuturesIsolatedTradeRequestValidationError::MissingPriceForLimitOrder => {
                "Price must be set for limit orders"@
            },
            FuturesIsolatedTradeRequestValidationError::QuantityValidation(inner) => {
                "[QuantityValidation] "@ + inner@
            },
            FuturesIsolatedTradeRequestValidationError::StopLossHigherThanPrice => {
                "Stop loss must be lower than the entry price"@
            },
            FuturesIsolatedTradeRequestValidationError::TakeProfitLowerThanPrice => {
                "Take profit must be higher than the entry price"@
            },
        }
    }

    /// The diagnostic line for this error.
    pub fn message(&self) -> (res: String)
        ensures
            res@ == self.message_text(),
    {
        match self {
            FuturesIsolatedTradeRequestValidationError::PriceSetForMarketOrder => {
                String::from_str("Price cannot be set for market orders")
            },
            FuturesIsolatedTradeRequestValidationError::MissingPriceForLimitOrder => {
                String::from_str("Price must be set for limit orders")
            },
            FuturesIsolatedTradeRequestValidationError::QuantityValidation(inner) => {
                let mut text = String::from_str("[QuantityValidation] ");
                text.append(inner.message().as_str());
                text
            },
            FuturesIsolatedTradeRequestValidationError::StopLossHigherThanPrice => {
                String::from_str("Stop loss must be lower than the entry price")
            },
            FuturesIsolatedTradeRequestValidationError::TakeProfitLowerThanPrice => {
                String::from_str("Take profit must be higher than the entry price")
            },
        }
    }
}

impl From<QuantityValidationError> for FuturesIsolatedTradeRequestValidationError {
    /// A quantity failure, passed on unchanged as the failure of the request.
    fn from(inner: QuantityValidationError) -> (res: Self) {
        FuturesIsolatedTradeRequestValidationError::QuantityValidation(inner)
    }
}

impl FromSpecImpl<QuantityValidationError> for FuturesIsolatedTradeRequestValidationError {
    open spec fn obeys_from_spec() -> bool {
        true
    }

    open spec fn from_spec(inner: QuantityValidationError) -> Self {
        FuturesIsolatedTradeRequestValidationError::QuantityValidation(inner)
    }
}

} // verus!
