//! Validation utilities for transaction types

use vstd::prelude::*;

use crate::constants::{MAX_ACCOUNT_INDEX, MAX_API_KEY_INDEX, MAX_MARKET_INDEX, MIN_ACCOUNT_INDEX};
use crate::errors::{LighterError, Result};

verus! {

/// Validate account index: it must lie in `MIN_ACCOUNT_INDEX..=MAX_ACCOUNT_INDEX`.
pub fn validate_account_index(index: i64) -> (r: Result<()>)
    ensures
        index < MIN_ACCOUNT_INDEX ==> r == Err::<(), LighterError>(LighterError::AccountIndexTooLow(index)),
        index > MAX_ACCOUNT_INDEX ==> r == Err::<(), LighterError>(LighterError::AccountIndexTooHigh(index)),
        (MIN_ACCOUNT_INDEX <= index <= MAX_ACCOUNT_INDEX) <==> r is Ok,
{
    if index < MIN_ACCOUNT_INDEX {
        return Err(LighterError::AccountIndexTooLow(index));
    }
    if index > MAX_ACCOUNT_INDEX {
        return Err(LighterError::AccountIndexTooHigh(index));
    }
    Ok(())
}

/// Validate API key index: it must not exceed `MAX_API_KEY_INDEX`.
pub fn validate_api_key_index(index: u8) -> (r: Result<()>)
    ensures
        index > MAX_API_KEY_INDEX ==> r == Err::<(), LighterError>(LighterError::ApiKeyIndexTooHigh(index)),
        index <= MAX_API_KEY_INDEX <==> r is Ok,
{
    if index > MAX_API_KEY_INDEX {
        return Err(LighterError::ApiKeyIndexTooHigh(index));
    }
    Ok(())
}

/// Validate market index: it must not exceed `MAX_MARKET_INDEX`.
pub fn validate_market_index(index: i16) -> (r: Result<()>)
    ensures
        index > MAX_MARKET_INDEX ==> r == Err::<(), LighterError>(LighterError::MarketIndexTooHigh(index)),
        index <= MAX_MARKET_INDEX <==> r is Ok,
{
    if index > MAX_MARKET_INDEX {
        return Err(LighterError::MarketIndexTooHigh(index));
    }
    Ok(())
}

} // verus!
