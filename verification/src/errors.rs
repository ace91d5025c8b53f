//! Error types for the Lighter Protocol SDK
//!
//! Errors raised by outside libraries (hex decoding, HTTP, JSON) are carried
//! here by their message text; the application layer keeps the original
//! error values.

use vstd::prelude::*;

verus! {

/// Result type alias using LighterError
pub type Result<T> = core::result::Result<T, LighterError>;

/// Main error type for the Lighter SDK
#[derive(Debug)]
pub enum LighterError {
    // Account and API Key Errors
    AccountIndexTooLow(i64),
    AccountIndexTooHigh(i64),
    ApiKeyIndexTooLow(u8),
    ApiKeyIndexTooHigh(u8),

    // Market Errors
    MarketIndexTooLow(i16),
    MarketIndexTooHigh(i16),
    MarketIndexMismatch,

    // Order Errors
    ClientOrderIndexTooLow(i64),
    ClientOrderIndexTooHigh(i64),
    ClientOrderIndexNotNil,
    OrderIndexTooLow(i64),
    OrderIndexTooHigh(i64),
    BaseAmountTooLow(i64),
    BaseAmountTooHigh(i64),
    BaseAmountsNotEqual,
    BaseAmountNotNil,
    PriceTooLow(u32),
    PriceTooHigh(u32),
    IsAskInvalid,
    OrderTypeInvalid,
    OrderTimeInForceInvalid,
    OrderReduceOnlyInvalid,
    OrderTriggerPriceInvalid,
    OrderExpiryInvalid,
    GroupingTypeInvalid,
    OrderGroupSizeInvalid,

    // Pool Errors
    PublicPoolIndexTooLow(i64),
    PublicPoolIndexTooHigh(i64),
    InvalidPoolOperatorFee,
    InvalidPoolStatus,
    PoolInitialTotalSharesTooLow(i64),
    PoolInitialTotalSharesTooHigh(i64),
    PoolMinOperatorShareRateTooLow,
    PoolMinOperatorShareRateTooHigh,
    PoolMintShareAmountTooLow(i64),
    PoolMintShareAmountTooHigh(i64),
    PoolBurnShareAmountTooLow(i64),
    PoolBurnShareAmountTooHigh(i64),

    // Transfer and Withdrawal Errors
    WithdrawalAmountTooLow(u64),
    WithdrawalAmountTooHigh(u64),
    TransferAmountTooLow(i64),
    TransferAmountTooHigh(i64),
    TransferFeeNegative,
    TransferFeeTooHigh,
    ToAccountIndexTooLow(i64),
    ToAccountIndexTooHigh(i64),
    FromAccountIndexTooLow(i64),
    FromAccountIndexTooHigh(i64),

    // Margin Errors
    InitialMarginFractionTooLow,
    InitialMarginFractionTooHigh(u16),
    InvalidMarginMode,
    InvalidUpdateMarginDirection,

    // General Errors
    NonceTooLow(i64),
    ExpiredAtInvalid,
    PubKeyInvalid,
    InvalidSignature,
    InvalidCancelAllTimeInForce,
    CancelAllTimeIsNotInRange,
    CancelAllTimeIsNotNil,
    CancelModeInvalid,

    // Cryptographic Errors
    InvalidPrivateKeyLength { expected: usize, actual: usize },
    InvalidPublicKeyLength { expected: usize, actual: usize },
    /// A hex decoding failure, by its message.
    HexParseError(String),
    CryptoError(String),

    // HTTP and Network Errors
    /// A failed HTTP request, by its message.
    HttpError(String),
    ApiError(String),
    InvalidResponse(String),
    Timeout,

    // JSON Errors
    /// A JSON (de)serialization failure, by its message.
    JsonError(String),

    // Generic Errors
    MissingField(String),
    InvalidConfiguration(String),
    ValidationError(String),
    Other(String),
}

} // verus!
