//! Transaction types, their validation and their hashing.

use vstd::prelude::*;

pub mod orders;
pub mod validation;

pub use orders::{
    default_order_info, CancelAllOrdersTxReq, CancelOrderTxReq, CreateGroupedOrdersTxReq,
    CreateOrderTxReq, L2CancelAllOrdersTxInfo, L2CancelOrderTxInfo, L2CreateGroupedOrdersTxInfo,
    L2CreateOrderTxInfo, L2ModifyOrderTxInfo, ModifyOrderTxReq,
};
pub use validation::{validate_account_index, validate_api_key_index, validate_market_index};

use crate::errors::LighterError;

verus! {

/// The order part of a create-order transaction.
#[derive(Debug, Clone)]
pub struct OrderInfo {
    pub market_index: i16,
    pub client_order_index: i64,
    pub base_amount: i64,
    pub price: u32,
    pub is_ask: u8,
    pub order_type: u8,
    pub time_in_force: u8,
    pub reduce_only: u8,
    pub trigger_price: u32,
    pub order_expiry: i64,
}

/// Options common to every transaction: who sends it, with which API key,
/// which nonce, and until when it is valid.
#[derive(Debug, Clone)]
pub struct TransactOpts {
    pub from_account_index: Option<i64>,
    pub api_key_index: Option<u8>,
    pub expired_at: i64,
    pub nonce: Option<i64>,
}

impl TransactOpts {
    /// All the options are set: sender, API key and nonce.
    pub open spec fn is_complete(self) -> bool {
        &&& self.from_account_index is Some
        &&& self.api_key_index is Some
        &&& self.nonce is Some
    }
}

impl Default for TransactOpts {
    /// No option set, and no expiry.
    fn default() -> (r: Self)
        ensures
            r == (TransactOpts { from_account_index: None, api_key_index: None, expired_at: 0, nonce: None }),
    {
        TransactOpts { from_account_index: None, api_key_index: None, expired_at: 0, nonce: None }
    }
}

/// The outcome of a validation: the first failed check, if any.
pub open spec fn check_outcome(failure: Option<LighterError>) -> core::result::Result<(), LighterError> {
    match failure {
        Some(e) => Err(e),
        None => Ok(()),
    }
}

} // verus!

verus! {

/// Update Leverage Transaction Request
#[derive(Debug, Clone)]
pub struct UpdateLeverageTxReq {
    pub market_index: i16,
    pub initial_margin_fraction: u16,
    pub margin_mode: u8,
}

} // verus!
