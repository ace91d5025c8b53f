//! Order-related transaction types

use vstd::prelude::*;

use super::{check_outcome, OrderInfo};
use crate::constants::{
    MAX_ACCOUNT_INDEX, MAX_API_KEY_INDEX, MAX_GROUPED_ORDER_COUNT, MAX_MARKET_INDEX,
    MIN_ACCOUNT_INDEX, MIN_NONCE, MIN_ORDER_PRICE, TX_TYPE_L2_CANCEL_ALL_ORDERS,
    TX_TYPE_L2_CANCEL_ORDER, TX_TYPE_L2_CREATE_GROUPED_ORDERS, TX_TYPE_L2_CREATE_ORDER,
    TX_TYPE_L2_MODIFY_ORDER,
};
use crate::crypto::{canonical_elements, poseidon2_hash, poseidon2_quintic_bytes};
use crate::errors::{LighterError, Result};
use crate::text::{hex_encode, hex_lower};

verus! {

/// Create Order Transaction Request
#[derive(Debug, Clone)]
pub struct CreateOrderTxReq {
    pub market_index: i16,
    pub client_order_index: i64,
    pub base_amount: i64,
    pub price: u32,
    pub is_ask: u8,
    pub order_type: u8,
    pub time_in_force: u8,
    pub reduce_only: u8,
    pub trigger_price: u32,
    pub order_expiry: i64,
}

/// L2 Create Order Transaction Info: the order fields flattened next to the
/// account fields, as they are signed and sent.
#[derive(Debug, Clone)]
pub struct L2CreateOrderTxInfo {
    pub account_index: i64,
    pub api_key_index: u8,
    pub market_index: i16,
    pub client_order_index: i64,
    pub base_amount: i64,
    pub price: u32,
    pub is_ask: u8,
    pub order_type: u8,
    pub time_in_force: u8,
    pub reduce_only: u8,
    pub trigger_price: u32,
    pub order_expiry: i64,
    pub expired_at: i64,
    pub nonce: i64,
    pub sig: Option<Vec<u8>>,
    pub signed_hash: Option<String>,
    /// The order as it was requested, kept for internal use.
    pub order_info: OrderInfo,
}

/// The order info that deserialization falls back to: every field zero.
pub fn default_order_info() -> (r: OrderInfo)
    ensures
        r == (OrderInfo {
            market_index: 0,
            client_order_index: 0,
            base_amount: 0,
            price: 0,
            is_ask: 0,
            order_type: 0,
            time_in_force: 0,
            reduce_only: 0,
            trigger_price: 0,
            order_expiry: 0,
        }),
{
    OrderInfo {
        market_index: 0,
        client_order_index: 0,
        base_amount: 0,
        price: 0,
        is_ask: 0,
        order_type: 0,
        time_in_force: 0,
        reduce_only: 0,
        trigger_price: 0,
        order_expiry: 0,
    }
}

impl OrderInfo {
    /// The order info of a create-order request, field by field.
    pub fn from_request(req: &CreateOrderTxReq) -> (r: OrderInfo)
        ensures
            r == OrderInfo::of_request(*req),
    {
        OrderInfo {
            market_index: req.market_index,
            client_order_index: req.client_order_index,
            base_amount: req.base_amount,
            price: req.price,
            is_ask: req.is_ask,
            order_type: req.order_type,
            time_in_force: req.time_in_force,
            reduce_only: req.reduce_only,
            trigger_price: req.trigger_price,
            order_expiry: req.order_expiry,
        }
    }

    pub open spec fn of_request(req: CreateOrderTxReq) -> OrderInfo {
        OrderInfo {
            market_index: req.market_index,
            client_order_index: req.client_order_index,
            base_amount: req.base_amount,
            price: req.price,
            is_ask: req.is_ask,
            order_type: req.order_type,
            time_in_force: req.time_in_force,
            reduce_only: req.reduce_only,
            trigger_price: req.trigger_price,
            order_expiry: req.order_expiry,
        }
    }
}

/// Forty zero bytes: the hash of the transaction kinds whose hashing is not
/// implemented yet.
pub open spec fn zero_hash() -> Seq<u8> {
    Seq::new(40, |i: int| 0u8)
}

fn zero_hash_bytes() -> (r: Vec<u8>)
    ensures
        r@ == zero_hash(),
{
    let mut v: Vec<u8> = Vec::new();
    let mut i: usize = 0;
    while i < 40
        invariant
            i <= 40,
            v@ == Seq::new(i as nat, |k: int| 0u8),
        decreases 40 - i,
    {
        v.push(0u8);
        i = i + 1;
        assert(v@ =~= Seq::new(i as nat, |k: int| 0u8));
    }
    v
}

/// A copy of an optional string, equal to it.
pub(crate) fn copy_opt_string(s: &Option<String>) -> (r: Option<String>)
    ensures
        r == *s,
{
    match s {
        Some(h) => Some(h.clone()),
        None => None,
    }
}

impl L2CreateOrderTxInfo {
    /// The first check that the transaction fails, in the order in which
    /// `validate` makes them.
    pub open spec fn first_failure(self) -> Option<LighterError> {
        if self.account_index < MIN_ACCOUNT_INDEX {
            Some(LighterError::AccountIndexTooLow(self.account_index))
        } else if self.account_index > MAX_ACCOUNT_INDEX {
            Some(LighterError::AccountIndexTooHigh(self.account_index))
        } else if self.api_key_index > MAX_API_KEY_INDEX {
            Some(LighterError::ApiKeyIndexTooHigh(self.api_key_index))
        } else if self.market_index > MAX_MARKET_INDEX {
            Some(LighterError::MarketIndexTooHigh(self.market_index))
        } else if self.price < MIN_ORDER_PRICE {
            Some(LighterError::PriceTooLow(self.price))
        } else if self.is_ask != 0 && self.is_ask != 1 {
            Some(LighterError::IsAskInvalid)
        } else if self.nonce < MIN_NONCE {
            Some(LighterError::NonceTooLow(self.nonce))
        } else {
            None
        }
    }

    /// The field elements that are hashed, in the order of the protocol:
    /// chain id, type, nonce and expiry before the account fields, then the
    /// order fields.
    pub open spec fn hash_input(self, chain_id: u32) -> Seq<u64> {
        seq![
            chain_id as u64,
            TX_TYPE_L2_CREATE_ORDER as u64,
            self.nonce as u64,
            self.expired_at as u64,
            self.account_index as u64,
            self.api_key_index as u64,
            self.market_index as u64,
            self.client_order_index as u64,
            self.base_amount as u64,
            self.price as u64,
            self.is_ask as u64,
            self.order_type as u64,
            self.time_in_force as u64,
            self.reduce_only as u64,
            self.trigger_price as u64,
            self.order_expiry as u64,
        ]
    }

    pub fn get_tx_type(&self) -> (r: u8)
        ensures
            r == TX_TYPE_L2_CREATE_ORDER,
    {
        TX_TYPE_L2_CREATE_ORDER
    }

    /// The hex hash that the transaction was signed over, if it was signed.
    pub fn get_tx_hash(&self) -> (r: Option<String>)
        ensures
            r == self.signed_hash,
    {
        copy_opt_string(&self.signed_hash)
    }

    pub fn validate(&self) -> (r: Result<()>)
        ensures
            r == check_outcome(self.first_failure()),
    {
        if self.account_index < MIN_ACCOUNT_INDEX {
            return Err(LighterError::AccountIndexTooLow(self.account_index));
        }
        if self.account_index > MAX_ACCOUNT_INDEX {
            return Err(LighterError::AccountIndexTooHigh(self.account_index));
        }
        if self.api_key_index > MAX_API_KEY_INDEX {
            return Err(LighterError::ApiKeyIndexTooHigh(self.api_key_index));
        }
        self.validate_order_info()?;
        if self.nonce < MIN_NONCE {
            return Err(LighterError::NonceTooLow(self.nonce));
        }
        Ok(())
    }

    fn validate_order_info(&self) -> (r: Result<()>)
        ensures
            r == check_outcome(
                if self.market_index > MAX_MARKET_INDEX {
                    Some(LighterError::MarketIndexTooHigh(self.market_index))
                } else if self.price < MIN_ORDER_PRICE {
                    Some(LighterError::PriceTooLow(self.price))
                } else if self.is_ask != 0 && self.is_ask != 1 {
                    Some(LighterError::IsAskInvalid)
                } else {
                    None
                },
            ),
    {
        if self.market_index > MAX_MARKET_INDEX {
            return Err(LighterError::MarketIndexTooHigh(self.market_index));
        }
        if self.price < MIN_ORDER_PRICE {
            return Err(LighterError::PriceTooLow(self.price));
        }
        if self.is_ask != 0 && self.is_ask != 1 {
            return Err(LighterError::IsAskInvalid);
        }
        Ok(())
    }

    /// The field elements that `hash` hashes.
    pub fn hash_elements(&self, lighter_chain_id: u32) -> (r: Vec<u64>)
        ensures
            r@ == self.hash_input(lighter_chain_id),
    {
        let mut e: Vec<u64> = Vec::new();
        e.push(lighter_chain_id as u64);
        e.push(TX_TYPE_L2_CREATE_ORDER as u64);
        e.push(self.nonce as u64);
        e.push(self.expired_at as u64);
        e.push(self.account_index as u64);
        e.push(self.api_key_index as u64);
        e.push(self.market_index as u64);
        e.push(self.client_order_index as u64);
        e.push(self.base_amount as u64);
        e.push(self.price as u64);
        e.push(self.is_ask as u64);
        e.push(self.order_type as u64);
        e.push(self.time_in_force as u64);
        e.push(self.reduce_only as u64);
        e.push(self.trigger_price as u64);
        e.push(self.order_expiry as u64);
        assert(e@ =~= self.hash_input(lighter_chain_id));
        e
    }

    /// The Poseidon2 hash of the transaction, 40 bytes.
    pub fn hash(&self, lighter_chain_id: u32) -> (r: Result<Vec<u8>>)
        requires
            canonical_elements(self.hash_input(lighter_chain_id)),
        ensures
            r matches Ok(h) && h@ == poseidon2_quintic_bytes(self.hash_input(lighter_chain_id)) && h@.len() == 40,
    {
        let elements = self.hash_elements(lighter_chain_id);
        Ok(poseidon2_hash(&elements))
    }
}

/// Cancel Order Transaction Request
#[derive(Debug, Clone)]
pub struct CancelOrderTxReq {
    pub market_index: i16,
    pub index: i64,
}

/// Modify Order Transaction Request
#[derive(Debug, Clone)]
pub struct ModifyOrderTxReq {
    pub market_index: i16,
    pub index: i64,
    pub base_amount: i64,
    pub price: u32,
    pub trigger_price: u32,
}

/// Cancel All Orders Transaction Request
#[derive(Debug, Clone)]
pub struct CancelAllOrdersTxReq {
    pub time_in_force: u8,
    pub time: i64,
}

/// Create Grouped Orders Transaction Request
#[derive(Debug, Clone)]
pub struct CreateGroupedOrdersTxReq {
    pub grouping_type: u8,
    pub orders: Vec<CreateOrderTxReq>,
}

/// L2 Cancel Order Transaction Info
#[derive(Debug, Clone)]
pub struct L2CancelOrderTxInfo {
    pub account_index: i64,
    pub api_key_index: u8,
    pub market_index: i16,
    pub index: i64,
    pub expired_at: i64,
    pub nonce: i64,
    pub sig: Option<Vec<u8>>,
    pub signed_hash: Option<String>,
}

impl L2CancelOrderTxInfo {
    /// The first check that the transaction fails. An account index out of
    /// range on either side is reported as `AccountIndexTooLow`.
    pub open spec fn first_failure(self) -> Option<LighterError> {
        if self.account_index < MIN_ACCOUNT_INDEX || self.account_index > MAX_ACCOUNT_INDEX {
            Some(LighterError::AccountIndexTooLow(self.account_index))
        } else if self.market_index > MAX_MARKET_INDEX {
            Some(LighterError::MarketIndexTooHigh(self.market_index))
        } else if self.nonce < MIN_NONCE {
            Some(LighterError::NonceTooLow(self.nonce))
        } else {
            None
        }
    }

    pub open spec fn hash_input(self, chain_id: u32) -> Seq<u64> {
        seq![
            chain_id as u64,
            TX_TYPE_L2_CANCEL_ORDER as u64,
            self.nonce as u64,
            self.expired_at as u64,
            self.account_index as u64,
            self.api_key_index as u64,
            self.market_index as u64,
            self.index as u64,
        ]
    }

    pub fn get_tx_type(&self) -> (r: u8)
        ensures
            r == TX_TYPE_L2_CANCEL_ORDER,
    {
        TX_TYPE_L2_CANCEL_ORDER
    }

    pub fn get_tx_hash(&self) -> (r: Option<String>)
        ensures
            r == self.signed_hash,
    {
        copy_opt_string(&self.signed_hash)
    }

    pub fn validate(&self) -> (r: Result<()>)
        ensures
            r == check_outcome(self.first_failure()),
    {
        if self.account_index < MIN_ACCOUNT_INDEX || self.account_index > MAX_ACCOUNT_INDEX {
            return Err(LighterError::AccountIndexTooLow(self.account_index));
        }
        if self.market_index > MAX_MARKET_INDEX {
            return Err(LighterError::MarketIndexTooHigh(self.market_index));
        }
        if self.nonce < MIN_NONCE {
            return Err(LighterError::NonceTooLow(self.nonce));
        }
        Ok(())
    }

    pub fn hash_elements(&self, lighter_chain_id: u32) -> (r: Vec<u64>)
        ensures
            r@ == self.hash_input(lighter_chain_id),
    {
        let mut e: Vec<u64> = Vec::new();
        e.push(lighter_chain_id as u64);
        e.push(TX_TYPE_L2_CANCEL_ORDER as u64);
        e.push(self.nonce as u64);
        e.push(self.expired_at as u64);
        e.push(self.account_index as u64);
        e.push(self.api_key_index as u64);
        e.push(self.market_index as u64);
        e.push(self.index as u64);
        assert(e@ =~= self.hash_input(lighter_chain_id));
        e
    }

    pub fn hash(&self, lighter_chain_id: u32) -> (r: Result<Vec<u8>>)
        requires
            canonical_elements(self.hash_input(lighter_chain_id)),
        ensures
            r matches Ok(h) && h@ == poseidon2_quintic_bytes(self.hash_input(lighter_chain_id)) && h@.len() == 40,
    {
        let elements = self.hash_elements(lighter_chain_id);
        Ok(poseidon2_hash(&elements))
    }
}

/// L2 Modify Order Transaction Info
#[derive(Debug, Clone)]
pub struct L2ModifyOrderTxInfo {
    pub account_index: i64,
    pub api_key_index: u8,
    pub market_index: i16,
    pub index: i64,
    pub base_amount: i64,
    pub price: u32,
    pub trigger_price: u32,
    pub expired_at: i64,
    pub nonce: i64,
    pub sig: Option<Vec<u8>>,
    pub signed_hash: Option<String>,
}

impl L2ModifyOrderTxInfo {
    pub open spec fn first_failure(self) -> Option<LighterError> {
        if self.account_index < MIN_ACCOUNT_INDEX || self.account_index > MAX_ACCOUNT_INDEX {
            Some(LighterError::AccountIndexTooLow(self.account_index))
        } else if self.nonce < MIN_NONCE {
            Some(LighterError::NonceTooLow(self.nonce))
        } else {
            None
        }
    }

    pub open spec fn hash_input(self, chain_id: u32) -> Seq<u64> {
        seq![
            chain_id as u64,
            TX_TYPE_L2_MODIFY_ORDER as u64,
            self.nonce as u64,
            self.expired_at as u64,
            self.account_index as u64,
            self.api_key_index as u64,
            self.market_index as u64,
            self.index as u64,
            self.base_amount as u64,
            self.price as u64,
            self.trigger_price as u64,
        ]
    }

    pub fn get_tx_type(&self) -> (r: u8)
        ensures
            r == TX_TYPE_L2_MODIFY_ORDER,
    {
        TX_TYPE_L2_MODIFY_ORDER
    }

    pub fn get_tx_hash(&self) -> (r: Option<String>)
        ensures
            r == self.signed_hash,
    {
        copy_opt_string(&self.signed_hash)
    }

    pub fn validate(&self) -> (r: Result<()>)
        ensures
            r == check_outcome(self.first_failure()),
    {
        if self.account_index < MIN_ACCOUNT_INDEX || self.account_index > MAX_ACCOUNT_INDEX {
            return Err(LighterError::AccountIndexTooLow(self.account_index));
        }
        if self.nonce < MIN_NONCE {
            return Err(LighterError::NonceTooLow(self.nonce));
        }
        Ok(())
    }

    pub fn hash_elements(&self, lighter_chain_id: u32) -> (r: Vec<u64>)
        ensures
            r@ == self.hash_input(lighter_chain_id),
    {
        let mut e: Vec<u64> = Vec::new();
        e.push(lighter_chain_id as u64);
        e.push(TX_TYPE_L2_MODIFY_ORDER as u64);
        e.push(self.nonce as u64);
        e.push(self.expired_at as u64);
        e.push(self.account_index as u64);
        e.push(self.api_key_index as u64);
        e.push(self.market_index as u64);
        e.push(self.index as u64);
        e.push(self.base_amount as u64);
        e.push(self.price as u64);
        e.push(self.trigger_price as u64);
        assert(e@ =~= self.hash_input(lighter_chain_id));
        e
    }

    pub fn hash(&self, lighter_chain_id: u32) -> (r: Result<Vec<u8>>)
        requires
            canonical_elements(self.hash_input(lighter_chain_id)),
        ensures
            r matches Ok(h) && h@ == poseidon2_quintic_bytes(self.hash_input(lighter_chain_id)) && h@.len() == 40,
    {
        let elements = self.hash_elements(lighter_chain_id);
        Ok(poseidon2_hash(&elements))
    }
}

/// L2 Cancel All Orders Transaction Info
#[derive(Debug, Clone)]
pub struct L2CancelAllOrdersTxInfo {
    pub account_index: i64,
    pub api_key_index: u8,
    pub time_in_force: u8,
    pub time: i64,
    pub expired_at: i64,
    pub nonce: i64,
    pub sig: Option<Vec<u8>>,
    pub signed_hash: Option<String>,
}

impl L2CancelAllOrdersTxInfo {
    pub open spec fn first_failure(self) -> Option<LighterError> {
        if self.account_index < MIN_ACCOUNT_INDEX || self.account_index > MAX_ACCOUNT_INDEX {
            Some(LighterError::AccountIndexTooLow(self.account_index))
        } else if self.nonce < MIN_NONCE {
            Some(LighterError::NonceTooLow(self.nonce))
        } else {
            None
        }
    }

    pub fn get_tx_type(&self) -> (r: u8)
        ensures
            r == TX_TYPE_L2_CANCEL_ALL_ORDERS,
    {
        TX_TYPE_L2_CANCEL_ALL_ORDERS
    }

    pub fn get_tx_hash(&self) -> (r: Option<String>)
        ensures
            r == self.signed_hash,
    {
        copy_opt_string(&self.signed_hash)
    }

    pub fn validate(&self) -> (r: Result<()>)
        ensures
            r == check_outcome(self.first_failure()),
    {
        if self.account_index < MIN_ACCOUNT_INDEX || self.account_index > MAX_ACCOUNT_INDEX {
            return Err(LighterError::AccountIndexTooLow(self.account_index));
        }
        if self.nonce < MIN_NONCE {
            return Err(LighterError::NonceTooLow(self.nonce));
        }
        Ok(())
    }

    /// Hashing of this transaction kind is not implemented: the hash is
    /// forty zero bytes.
    pub fn hash(&self, _lighter_chain_id: u32) -> (r: Result<Vec<u8>>)
        ensures
            r matches Ok(h) && h@ == zero_hash(),
    {
        Ok(zero_hash_bytes())
    }
}

/// The first validation failure of a grouped-orders transaction from its
/// sender, number of orders and nonce.
pub open spec fn grouped_failure(account_index: i64, order_count: nat, nonce: i64) -> Option<LighterError> {
    if account_index < MIN_ACCOUNT_INDEX || account_index > MAX_ACCOUNT_INDEX {
        Some(LighterError::AccountIndexTooLow(account_index))
    } else if order_count > MAX_GROUPED_ORDER_COUNT {
        Some(LighterError::OrderGroupSizeInvalid)
    } else if nonce < MIN_NONCE {
        Some(LighterError::NonceTooLow(nonce))
    } else {
        None
    }
}

/// L2 Create Grouped Orders Transaction Info
#[derive(Debug, Clone)]
pub struct L2CreateGroupedOrdersTxInfo {
    pub account_index: i64,
    pub api_key_index: u8,
    pub grouping_type: u8,
    pub orders: Vec<OrderInfo>,
    pub expired_at: i64,
    pub nonce: i64,
    pub sig: Option<Vec<u8>>,
    pub signed_hash: Option<String>,
}

impl L2CreateGroupedOrdersTxInfo {
    pub open spec fn first_failure(self) -> Option<LighterError> {
        grouped_failure(self.account_index, self.orders@.len(), self.nonce)
    }

    pub fn get_tx_type(&self) -> (r: u8)
        ensures
            r == TX_TYPE_L2_CREATE_GROUPED_ORDERS,
    {
        TX_TYPE_L2_CREATE_GROUPED_ORDERS
    }

    pub fn get_tx_hash(&self) -> (r: Option<String>)
        ensures
            r == self.signed_hash,
    {
        copy_opt_string(&self.signed_hash)
    }

    pub fn validate(&self) -> (r: Result<()>)
        ensures
            r == check_outcome(self.first_failure()),
    {
        if self.account_index < MIN_ACCOUNT_INDEX || self.account_index > MAX_ACCOUNT_INDEX {
            return Err(LighterError::AccountIndexTooLow(self.account_index));
        }
        if self.orders.len() > MAX_GROUPED_ORDER_COUNT as usize {
            return Err(LighterError::OrderGroupSizeInvalid);
        }
        if self.nonce < MIN_NONCE {
            return Err(LighterError::NonceTooLow(self.nonce));
        }
        Ok(())
    }

    /// Hashing of this transaction kind is not implemented: the hash is
    /// forty zero bytes.
    pub fn hash(&self, _lighter_chain_id: u32) -> (r: Result<Vec<u8>>)
        ensures
            r matches Ok(h) && h@ == zero_hash(),
    {
        Ok(zero_hash_bytes())
    }
}

} // verus!

verus! {

/// `h` is the lowercase hex of `hash`.
pub open spec fn is_hex_of(h: Option<String>, hash: Seq<u8>) -> bool {
    h matches Some(s) && s@ == hex_lower(hash)
}

impl L2CreateOrderTxInfo {
    /// Sets the signature and, as the signed hash, the hex of the message
    /// hash; every other field stays.
    pub fn attach_signature(&mut self, signature: Vec<u8>, msg_hash: &[u8])
        ensures
            final(self).sig == Some(signature),
            is_hex_of(final(self).signed_hash, msg_hash@),
            *final(self) == (L2CreateOrderTxInfo { sig: final(self).sig, signed_hash: final(self).signed_hash, ..*old(self) }),
    {
        self.sig = Some(signature);
        self.signed_hash = Some(hex_encode(msg_hash));
    }
}

impl L2CancelOrderTxInfo {
    /// Sets the signature and, as the signed hash, the hex of the message
    /// hash; every other field stays.
    pub fn attach_signature(&mut self, signature: Vec<u8>, msg_hash: &[u8])
        ensures
            final(self).sig == Some(signature),
            is_hex_of(final(self).signed_hash, msg_hash@),
            *final(self) == (L2CancelOrderTxInfo { sig: final(self).sig, signed_hash: final(self).signed_hash, ..*old(self) }),
    {
        self.sig = Some(signature);
        self.signed_hash = Some(hex_encode(msg_hash));
    }
}

impl L2ModifyOrderTxInfo {
    /// Sets the signature and, as the signed hash, the hex of the message
    /// hash; every other field stays.
    pub fn attach_signature(&mut self, signature: Vec<u8>, msg_hash: &[u8])
        ensures
            final(self).sig == Some(signature),
            is_hex_of(final(self).signed_hash, msg_hash@),
            *final(self) == (L2ModifyOrderTxInfo { sig: final(self).sig, signed_hash: final(self).signed_hash, ..*old(self) }),
    {
        self.sig = Some(signature);
        self.signed_hash = Some(hex_encode(msg_hash));
    }
}

impl L2CancelAllOrdersTxInfo {
    /// Sets the signature and, as the signed hash, the hex of the message
    /// hash; every other field stays.
    pub fn attach_signature(&mut self, signature: Vec<u8>, msg_hash: &[u8])
        ensures
            final(self).sig == Some(signature),
            is_hex_of(final(self).signed_hash, msg_hash@),
            *final(self) == (L2CancelAllOrdersTxInfo { sig: final(self).sig, signed_hash: final(self).signed_hash, ..*old(self) }),
    {
        self.sig = Some(signature);
        self.signed_hash = Some(hex_encode(msg_hash));
    }
}

impl L2CreateGroupedOrdersTxInfo {
    /// Sets the signature and, as the signed hash, the hex of the message
    /// hash; every other field stays.
    pub fn attach_signature(&mut self, signature: Vec<u8>, msg_hash: &[u8])
        ensures
            final(self).sig == Some(signature),
            is_hex_of(final(self).signed_hash, msg_hash@),
            *final(self) == (L2CreateGroupedOrdersTxInfo { sig: final(self).sig, signed_hash: final(self).signed_hash, ..*old(self) }),
    {
        self.sig = Some(signature);
        self.signed_hash = Some(hex_encode(msg_hash));
    }
}

} // verus!
