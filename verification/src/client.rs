//! Transaction client: fills in transaction options, builds, validates,
//! hashes and signs transactions, and frames the requests of the HTTP API.
//!
//! The network round trips themselves are made by the application layer,
//! which hands the results back to these functions.

use vstd::prelude::*;
use vstd::string::StringExecFns;

use crate::constants::{
    ORDER_TYPE_LIMIT, ORDER_TYPE_MARKET, ORDER_TYPE_STOP_LOSS, ORDER_TYPE_STOP_LOSS_LIMIT,
    ORDER_TYPE_TAKE_PROFIT, ORDER_TYPE_TAKE_PROFIT_LIMIT, TIME_IN_FORCE_GOOD_TILL_TIME,
    TIME_IN_FORCE_IMMEDIATE_OR_CANCEL,
};
use crate::crypto::{canonical_elements, poseidon2_quintic_bytes};
use crate::errors::{LighterError, Result};
use crate::text::{decimal_of_int, decimal_of_nat, i64_to_decimal, u64_to_decimal};
use crate::types::{
    check_outcome, CancelAllOrdersTxReq, CancelOrderTxReq, CreateGroupedOrdersTxReq,
    CreateOrderTxReq, L2CancelAllOrdersTxInfo, L2CancelOrderTxInfo, L2CreateGroupedOrdersTxInfo,
    L2CreateOrderTxInfo, L2ModifyOrderTxInfo, ModifyOrderTxReq, OrderInfo, TransactOpts,
    UpdateLeverageTxReq,
};
use crate::types::orders::{grouped_failure, is_hex_of, zero_hash};

verus! {

/// Response from the send-transaction API call
#[derive(Debug, Clone)]
pub struct TxResponse {
    pub code: u16,
    pub tx_hash: Option<String>,
    pub message: Option<String>,
}

/// The URL of the next-nonce query of an account and API key.
pub open spec fn next_nonce_url_of(endpoint: Seq<char>, account_index: i64, api_key_index: u8) -> Seq<char> {
    endpoint + "/api/v1/nextNonce?account_index="@ + decimal_of_int(account_index as int)
        + "&api_key_index="@ + decimal_of_nat(api_key_index as nat)
}

/// The URL of the next-nonce query of an account and API key.
pub fn next_nonce_url(endpoint: &str, account_index: i64, api_key_index: u8) -> (r: String)
    ensures
        r@ == next_nonce_url_of(endpoint@, account_index, api_key_index),
{
    let mut url = String::from_str(endpoint);
    url.append("/api/v1/nextNonce?account_index=");
    let account = i64_to_decimal(account_index);
    url.append(account.as_str());
    url.append("&api_key_index=");
    let key = u64_to_decimal(api_key_index as u64);
    url.append(key.as_str());
    url
}

/// The URL transactions are posted to.
pub fn send_tx_url(endpoint: &str) -> (r: String)
    ensures
        r@ == endpoint@ + "/api/v1/sendTx"@,
{
    let mut url = String::from_str(endpoint);
    url.append("/api/v1/sendTx");
    url
}

/// The form fields of a send-transaction request: the type in decimal, the
/// transaction JSON and, under fat finger protection, the price protection
/// flag.
pub fn send_tx_form(tx_type: u8, tx_info: &str, price_protection: bool) -> (r: Vec<(String, String)>)
    ensures
        r@.len() == if price_protection { 3int } else { 2int },
        r@[0].0@ == "tx_type"@,
        r@[0].1@ == decimal_of_nat(tx_type as nat),
        r@[1].0@ == "tx_info"@,
        r@[1].1@ == tx_info@,
        price_protection ==> r@[2].0@ == "price_protection"@ && r@[2].1@ == "true"@,
{
    let mut form: Vec<(String, String)> = Vec::new();
    form.push((String::from_str("tx_type"), u64_to_decimal(tx_type as u64)));
    form.push((String::from_str("tx_info"), String::from_str(tx_info)));
    if price_protection {
        form.push((String::from_str("price_protection"), String::from_str("true")));
    }
    form
}

/// Whether an HTTP status is a success: 200 to 299.
pub fn is_success_status(status: u16) -> (r: bool)
    ensures
        r == (200 <= status && status <= 299),
{
    200 <= status && status <= 299
}

/// The error of a next-nonce request that the API refused, from the reply's
/// status as shown.
pub fn nonce_refusal(status: &str) -> (r: LighterError)
    ensures
        r matches LighterError::ApiError(m) && m@ == "Failed to get nonce: "@ + status@,
{
    let mut m = String::from_str("Failed to get nonce: ");
    m.append(status);
    LighterError::ApiError(m)
}

/// The error of a send-transaction request that the API refused: the
/// reply's body, or `Unknown error` where the body could not be read.
pub fn send_tx_refusal(body: Option<String>) -> (r: LighterError)
    ensures
        r matches LighterError::ApiError(m) && m@ == "Failed to send transaction: "@ + match body {
            Some(b) => b@,
            None => "Unknown error"@,
        },
{
    let mut m = String::from_str("Failed to send transaction: ");
    match body {
        Some(b) => m.append(b.as_str()),
        None => m.append("Unknown error"),
    }
    LighterError::ApiError(m)
}

/// Signs transaction hashes. The key that signs is the signer's own.
///
/// An implementation says which signatures are its own and when it refuses
/// by overriding `signs` and `refuses`; callers generic over the signer learn
/// of them only what `sign` ensures. By default a signer owns no signature
/// and may refuse any message.
pub trait Signer {
    /// `sig` is a signature of this signer over `msg`.
    closed spec fn signs(&self, msg: Seq<u8>, sig: Seq<u8>) -> bool {
        false
    }

    /// This signer refuses to sign `msg`, with the error `err`.
    closed spec fn refuses(&self, msg: Seq<u8>, err: LighterError) -> bool {
        true
    }

    /// Signs a message hash: the signature is over exactly the bytes given,
    /// and a refusal is reported as the signer's own error.
    fn sign(&self, msg_hash: &[u8]) -> (r: Result<Vec<u8>>)
        ensures
            r matches Ok(s) ==> self.signs(msg_hash@, s@),
            r matches Err(e) ==> self.refuses(msg_hash@, e);
}

/// `sig` is a signature of `signer` over `hash`, and `signed_hash` the hex
/// of `hash`.
pub open spec fn signed_over<S: Signer>(sig: Option<Vec<u8>>, signed_hash: Option<String>, hash: Seq<u8>, signer: S) -> bool {
    &&& sig matches Some(s) && signer.signs(hash, s@)
    &&& is_hex_of(signed_hash, hash)
}

/// Where filling in the transaction options stands.
#[derive(Debug, Clone)]
pub enum OptsStep {
    /// Every option is set.
    Ready(TransactOpts),
    /// Every option but the nonce is set; the next nonce of the sender and
    /// API key has to be fetched from the API.
    FetchNonce(TransactOpts),
}

/// The options, or the default options when none are given.
pub open spec fn opts_or_default(opts: Option<TransactOpts>) -> TransactOpts {
    match opts {
        Some(o) => o,
        None => TransactOpts { from_account_index: None, api_key_index: None, expired_at: 0, nonce: None },
    }
}

/// The expiry given to a transaction that has none: ten minutes from
/// `now_millis`, less one second.
pub open spec fn default_expiry(now_millis: i64) -> int {
    (now_millis + 600_000) - 1000
}

/// Options with the defaults filled in: the expiry, the sender and the API
/// key; the nonce is left as it is.
pub open spec fn with_defaults(opts: TransactOpts, now_millis: i64, account_index: i64, api_key_index: u8) -> TransactOpts {
    TransactOpts {
        from_account_index: match opts.from_account_index {
            Some(a) => Some(a),
            None => Some(account_index),
        },
        api_key_index: match opts.api_key_index {
            Some(k) => Some(k),
            None => Some(api_key_index),
        },
        expired_at: if opts.expired_at == 0 { default_expiry(now_millis) as i64 } else { opts.expired_at },
        nonce: opts.nonce,
    }
}

/// The options with the nonce set.
pub fn supply_nonce(opts: TransactOpts, nonce: i64) -> (r: TransactOpts)
    ensures
        r == (TransactOpts { nonce: Some(nonce), ..opts }),
{
    TransactOpts { nonce: Some(nonce), ..opts }
}

/// The create-order transaction of a request and complete options, before
/// it is signed.
pub open spec fn create_order_tx(req: CreateOrderTxReq, opts: TransactOpts) -> L2CreateOrderTxInfo {
    L2CreateOrderTxInfo {
        account_index: opts.from_account_index->Some_0,
        api_key_index: opts.api_key_index->Some_0,
        market_index: req.market_index,
        client_order_index: req.client_order_index,
        base_amount: req.base_amount,
        price: req.price,
        is_ask: req.is_ask,
        order_type: req.order_type,
        time_in_force: req.time_in_force,
        reduce_only: req.reduce_only,
        trigger_price: req.trigger_price,
        order_expiry: req.order_expiry,
        expired_at: opts.expired_at,
        nonce: opts.nonce->Some_0,
        sig: None,
        signed_hash: None,
        order_info: OrderInfo::of_request(req),
    }
}

/// The cancel-order transaction of a request and complete options.
pub open spec fn cancel_order_tx(req: CancelOrderTxReq, opts: TransactOpts) -> L2CancelOrderTxInfo {
    L2CancelOrderTxInfo {
        account_index: opts.from_account_index->Some_0,
        api_key_index: opts.api_key_index->Some_0,
        market_index: req.market_index,
        index: req.index,
        expired_at: opts.expired_at,
        nonce: opts.nonce->Some_0,
        sig: None,
        signed_hash: None,
    }
}

/// The modify-order transaction of a request and complete options.
pub open spec fn modify_order_tx(req: ModifyOrderTxReq, opts: TransactOpts) -> L2ModifyOrderTxInfo {
    L2ModifyOrderTxInfo {
        account_index: opts.from_account_index->Some_0,
        api_key_index: opts.api_key_index->Some_0,
        market_index: req.market_index,
        index: req.index,
        base_amount: req.base_amount,
        price: req.price,
        trigger_price: req.trigger_price,
        expired_at: opts.expired_at,
        nonce: opts.nonce->Some_0,
        sig: None,
        signed_hash: None,
    }
}

/// The cancel-all-orders transaction of a request and complete options.
pub open spec fn cancel_all_orders_tx(req: CancelAllOrdersTxReq, opts: TransactOpts) -> L2CancelAllOrdersTxInfo {
    L2CancelAllOrdersTxInfo {
        account_index: opts.from_account_index->Some_0,
        api_key_index: opts.api_key_index->Some_0,
        time_in_force: req.time_in_force,
        time: req.time,
        expired_at: opts.expired_at,
        nonce: opts.nonce->Some_0,
        sig: None,
        signed_hash: None,
    }
}

/// The first validation failure of the grouped-orders transaction of a
/// request and complete options.
pub open spec fn grouped_orders_failure(req: CreateGroupedOrdersTxReq, opts: TransactOpts) -> Option<LighterError> {
    grouped_failure(opts.from_account_index->Some_0, req.orders@.len(), opts.nonce->Some_0)
}

/// `tx` is the grouped-orders transaction of a request and complete
/// options, before it is signed.
pub open spec fn is_grouped_orders_tx(tx: L2CreateGroupedOrdersTxInfo, req: CreateGroupedOrdersTxReq, opts: TransactOpts) -> bool {
    &&& tx.account_index == opts.from_account_index->Some_0
    &&& tx.api_key_index == opts.api_key_index->Some_0
    &&& tx.grouping_type == req.grouping_type
    &&& tx.orders@ == req.orders@.map_values(|o: CreateOrderTxReq| OrderInfo::of_request(o))
    &&& tx.expired_at == opts.expired_at
    &&& tx.nonce == opts.nonce->Some_0
    &&& tx.sig is None
    &&& tx.signed_hash is None
}

} // verus!

verus! {

/// `tx` is `unsigned` with the signature of `signer` over `hash` and, as
/// its signed hash, the hex of `hash`.
pub open spec fn signed_create_order<S: Signer>(tx: L2CreateOrderTxInfo, unsigned: L2CreateOrderTxInfo, hash: Seq<u8>, signer: S) -> bool {
    &&& tx == (L2CreateOrderTxInfo { sig: tx.sig, signed_hash: tx.signed_hash, ..unsigned })
    &&& signed_over(tx.sig, tx.signed_hash, hash, signer)
}

/// What `create_order` returns for a request and complete options: the
/// first validation failure; else the transaction signed by `signer` over
/// its hash, or the error with which `signer` refused that hash.
pub open spec fn create_order_outcome<S: Signer>(r: Result<L2CreateOrderTxInfo>, req: CreateOrderTxReq, opts: TransactOpts, chain_id: u32, signer: S) -> bool {
    let unsigned = create_order_tx(req, opts);
    let hash = poseidon2_quintic_bytes(unsigned.hash_input(chain_id));
    match unsigned.first_failure() {
        Some(e) => r == Err::<L2CreateOrderTxInfo, LighterError>(e),
        None => match r {
            Ok(tx) => signed_create_order(tx, unsigned, hash, signer),
            Err(e) => signer.refuses(hash, e),
        },
    }
}

/// Where the create-order transaction of a request passes validation, it
/// can be hashed under a chain id.
pub open spec fn order_hashable(req: CreateOrderTxReq, opts: TransactOpts, chain_id: u32) -> bool {
    create_order_tx(req, opts).first_failure() is None
        ==> canonical_elements(create_order_tx(req, opts).hash_input(chain_id))
}

/// The create-order transaction of a request and complete options, unsigned.
pub fn build_create_order(req: &CreateOrderTxReq, opts: &TransactOpts) -> (r: L2CreateOrderTxInfo)
    requires
        opts.is_complete(),
    ensures
        r == create_order_tx(*req, *opts),
        r.market_index == req.market_index
            && r.client_order_index == req.client_order_index
            && r.base_amount == req.base_amount
            && r.price == req.price
            && r.is_ask == req.is_ask
            && r.order_type == req.order_type
            && r.time_in_force == req.time_in_force
            && r.reduce_only == req.reduce_only
            && r.trigger_price == req.trigger_price
            && r.order_expiry == req.order_expiry
            && r.order_info.market_index == req.market_index
            && r.order_info.client_order_index == req.client_order_index
            && r.order_info.base_amount == req.base_amount
            && r.order_info.price == req.price
            && r.order_info.is_ask == req.is_ask
            && r.order_info.order_type == req.order_type
            && r.order_info.time_in_force == req.time_in_force
            && r.order_info.reduce_only == req.reduce_only
            && r.order_info.trigger_price == req.trigger_price
            && r.order_info.order_expiry == req.order_expiry
            && Some(r.account_index) == opts.from_account_index
            && Some(r.api_key_index) == opts.api_key_index
            && r.expired_at == opts.expired_at
            && Some(r.nonce) == opts.nonce,
        r.sig is None && r.signed_hash is None,
{
    let order_info = OrderInfo::from_request(req);
    let tx_info = L2CreateOrderTxInfo {
        account_index: opts.from_account_index.unwrap(),
        api_key_index: opts.api_key_index.unwrap(),
        market_index: req.market_index,
        client_order_index: req.client_order_index,
        base_amount: req.base_amount,
        price: req.price,
        is_ask: req.is_ask,
        order_type: req.order_type,
        time_in_force: req.time_in_force,
        reduce_only: req.reduce_only,
        trigger_price: req.trigger_price,
        order_expiry: req.order_expiry,
        expired_at: opts.expired_at,
        nonce: opts.nonce.unwrap(),
        sig: None,
        signed_hash: None,
        order_info,
    };
    tx_info
}

/// The cancel-order transaction of a request and complete options, unsigned.
pub fn build_cancel_order(req: &CancelOrderTxReq, opts: &TransactOpts) -> (r: L2CancelOrderTxInfo)
    requires
        opts.is_complete(),
    ensures
        r == cancel_order_tx(*req, *opts),
        r.market_index == req.market_index
            && r.index == req.index
            && Some(r.account_index) == opts.from_account_index
            && Some(r.api_key_index) == opts.api_key_index
            && r.expired_at == opts.expired_at
            && Some(r.nonce) == opts.nonce,
{
    let tx_info = L2CancelOrderTxInfo {
        account_index: opts.from_account_index.unwrap(),
        api_key_index: opts.api_key_index.unwrap(),
        market_index: req.market_index,
        index: req.index,
        expired_at: opts.expired_at,
        nonce: opts.nonce.unwrap(),
        sig: None,
        signed_hash: None,
    };
    tx_info
}

/// The modify-order transaction of a request and complete options, unsigned.
pub fn build_modify_order(req: &ModifyOrderTxReq, opts: &TransactOpts) -> (r: L2ModifyOrderTxInfo)
    requires
        opts.is_complete(),
    ensures
        r == modify_order_tx(*req, *opts),
        r.market_index == req.market_index
            && r.index == req.index
            && r.base_amount == req.base_amount
            && r.price == req.price
            && r.trigger_price == req.trigger_price
            && Some(r.account_index) == opts.from_account_index
            && Some(r.api_key_index) == opts.api_key_index
            && r.expired_at == opts.expired_at
            && Some(r.nonce) == opts.nonce,
{
    let tx_info = L2ModifyOrderTxInfo {
        account_index: opts.from_account_index.unwrap(),
        api_key_index: opts.api_key_index.unwrap(),
        market_index: req.market_index,
        index: req.index,
        base_amount: req.base_amount,
        price: req.price,
        trigger_price: req.trigger_price,
        expired_at: opts.expired_at,
        nonce: opts.nonce.unwrap(),
        sig: None,
        signed_hash: None,
    };
    tx_info
}

/// Transaction Client for signing transactions
pub struct TxClient<S> {
    key_manager: S,
    chain_id: u32,
    account_index: i64,
    api_key_index: u8,
}

impl<S: Signer> TxClient<S> {
    pub closed spec fn chain(&self) -> u32 {
        self.chain_id
    }

    pub closed spec fn account(&self) -> i64 {
        self.account_index
    }

    pub closed spec fn api_key(&self) -> u8 {
        self.api_key_index
    }

    pub closed spec fn signer(&self) -> S {
        self.key_manager
    }

    /// Create a new transaction client that signs with `key_manager`.
    pub fn new(key_manager: S, account_index: i64, api_key_index: u8, chain_id: u32) -> (r: Self)
        ensures
            r.signer() == key_manager,
            r.account() == account_index,
            r.api_key() == api_key_index,
            r.chain() == chain_id,
    {
        TxClient { key_manager, chain_id, account_index, api_key_index }
    }

    /// Get the account index
    pub fn account_index(&self) -> (r: i64)
        ensures
            r == self.account(),
    {
        self.account_index
    }

    /// Get the API key index
    pub fn api_key_index(&self) -> (r: u8)
        ensures
            r == self.api_key(),
    {
        self.api_key_index
    }

    /// Get the chain id
    pub fn chain_id(&self) -> (r: u32)
        ensures
            r == self.chain(),
    {
        self.chain_id
    }

    /// Get a reference to the key manager
    pub fn key_manager(&self) -> (r: &S)
        ensures
            *r == self.signer(),
    {
        &self.key_manager
    }

    /// Switch to a different API key
    pub fn switch_api_key(&mut self, api_key: u8)
        ensures
            final(self).api_key() == api_key,
            final(self).account() == old(self).account(),
            final(self).chain() == old(self).chain(),
            final(self).signer() == old(self).signer(),
    {
        self.api_key_index = api_key;
    }

    /// Fill in default transaction options: the expiry (ten minutes from
    /// `now_millis`, less a second) when it is zero, this client's account
    /// and API key when they are missing. A missing nonce has to be fetched,
    /// which needs an HTTP client.
    pub fn fill_default_opts(&self, opts: Option<TransactOpts>, now_millis: i64, has_http_client: bool) -> (r: Result<OptsStep>)
        requires
            opts_or_default(opts).expired_at == 0 ==> now_millis <= i64::MAX - 600_000,
        ensures
            ({
                let filled = with_defaults(opts_or_default(opts), now_millis, self.account(), self.api_key());
                match r {
                    Ok(OptsStep::Ready(o)) => o == filled && filled.nonce is Some,
                    Ok(OptsStep::FetchNonce(o)) => o == filled && filled.nonce is None && has_http_client,
                    Err(LighterError::MissingField(m)) => filled.nonce is None && !has_http_client
                        && m@ == "nonce was not provided and HTTPClient is not available"@,
                    Err(_) => false,
                }
            }),
            opts_or_default(opts).nonce is Some ==> r is Ok && r->Ok_0 is Ready,
            opts_or_default(opts).nonce is None && has_http_client ==> r is Ok && r->Ok_0 is FetchNonce,
    {
        let mut opts = match opts {
            Some(o) => o,
            None => TransactOpts::default(),
        };
        if opts.expired_at == 0 {
            opts.expired_at = (now_millis + 600_000) - 1000;
        }
        if opts.from_account_index.is_none() {
            opts.from_account_index = Some(self.account_index);
        }
        if opts.api_key_index.is_none() {
            opts.api_key_index = Some(self.api_key_index);
        }
        if opts.nonce.is_none() {
            if has_http_client {
                return Ok(OptsStep::FetchNonce(opts));
            } else {
                return Err(LighterError::MissingField(
                    String::from_str("nonce was not provided and HTTPClient is not available"),
                ));
            }
        }
        Ok(OptsStep::Ready(opts))
    }

    /// Construct and sign a create order transaction
    pub fn create_order(&self, req: &CreateOrderTxReq, opts: &TransactOpts) -> (r: Result<L2CreateOrderTxInfo>)
        requires
            opts.is_complete(),
            order_hashable(*req, *opts, self.chain()),
        ensures
            create_order_outcome(r, *req, *opts, self.chain(), self.signer()),
            r matches Ok(tx) ==> tx.market_index == req.market_index
                && tx.client_order_index == req.client_order_index
                && tx.base_amount == req.base_amount
                && tx.price == req.price
                && tx.is_ask == req.is_ask
                && tx.order_type == req.order_type
                && tx.time_in_force == req.time_in_force
                && tx.reduce_only == req.reduce_only
                && tx.trigger_price == req.trigger_price
                && tx.order_expiry == req.order_expiry
                && tx.order_info.market_index == req.market_index
                && tx.order_info.client_order_index == req.client_order_index
                && tx.order_info.base_amount == req.base_amount
                && tx.order_info.price == req.price
                && tx.order_info.is_ask == req.is_ask
                && tx.order_info.order_type == req.order_type
                && tx.order_info.time_in_force == req.time_in_force
                && tx.order_info.reduce_only == req.reduce_only
                && tx.order_info.trigger_price == req.trigger_price
                && tx.order_info.order_expiry == req.order_expiry
                && Some(tx.account_index) == opts.from_account_index
                && Some(tx.api_key_index) == opts.api_key_index
                && tx.expired_at == opts.expired_at
                && Some(tx.nonce) == opts.nonce
                && (tx.sig matches Some(sig)
                    && self.signer().signs(poseidon2_quintic_bytes(tx.hash_input(self.chain())), sig@))
                && is_hex_of(tx.signed_hash, poseidon2_quintic_bytes(tx.hash_input(self.chain()))),
    {
        let mut tx_info = build_create_order(req, opts);
        tx_info.validate()?;
        let msg_hash = tx_info.hash(self.chain_id)?;
        let signature = match self.key_manager.sign(msg_hash.as_slice()) {
            Ok(s) => s,
            Err(e) => return Err(e),
        };
        tx_info.attach_signature(signature, msg_hash.as_slice());
        Ok(tx_info)
    }

    /// Construct and sign a cancel order transaction
    pub fn cancel_order(&self, req: &CancelOrderTxReq, opts: &TransactOpts) -> (r: Result<L2CancelOrderTxInfo>)
        requires
            opts.is_complete(),
            cancel_order_tx(*req, *opts).first_failure() is None
                ==> canonical_elements(cancel_order_tx(*req, *opts).hash_input(self.chain())),
        ensures
            ({
                let unsigned = cancel_order_tx(*req, *opts);
                let hash = poseidon2_quintic_bytes(unsigned.hash_input(self.chain()));
                match unsigned.first_failure() {
                    Some(e) => r == Err::<L2CancelOrderTxInfo, LighterError>(e),
                    None => match r {
                        Ok(tx) => tx == (L2CancelOrderTxInfo { sig: tx.sig, signed_hash: tx.signed_hash, ..unsigned })
                            && signed_over(tx.sig, tx.signed_hash, hash, self.signer()),
                        Err(e) => self.signer().refuses(hash, e),
                    },
                }
            }),
            r matches Ok(tx) ==> tx.market_index == req.market_index
                && tx.index == req.index
                && Some(tx.account_index) == opts.from_account_index
                && Some(tx.api_key_index) == opts.api_key_index
                && tx.expired_at == opts.expired_at
                && Some(tx.nonce) == opts.nonce
                && (tx.sig matches Some(sig)
                    && self.signer().signs(poseidon2_quintic_bytes(tx.hash_input(self.chain())), sig@))
                && is_hex_of(tx.signed_hash, poseidon2_quintic_bytes(tx.hash_input(self.chain()))),
    {
        let mut tx_info = build_cancel_order(req, opts);
        tx_info.validate()?;
        let msg_hash = tx_info.hash(self.chain_id)?;
        let signature = match self.key_manager.sign(msg_hash.as_slice()) {
            Ok(s) => s,
            Err(e) => return Err(e),
        };
        tx_info.attach_signature(signature, msg_hash.as_slice());
        Ok(tx_info)
    }

    /// Construct and sign a modify order transaction
    pub fn modify_order(&self, req: &ModifyOrderTxReq, opts: &TransactOpts) -> (r: Result<L2ModifyOrderTxInfo>)
        requires
            opts.is_complete(),
            modify_order_tx(*req, *opts).first_failure() is None
                ==> canonical_elements(modify_order_tx(*req, *opts).hash_input(self.chain())),
        ensures
            ({
                let unsigned = modify_order_tx(*req, *opts);
                let hash = poseidon2_quintic_bytes(unsigned.hash_input(self.chain()));
                match unsigned.first_failure() {
                    Some(e) => r == Err::<L2ModifyOrderTxInfo, LighterError>(e),
                    None => match r {
                        Ok(tx) => tx == (L2ModifyOrderTxInfo { sig: tx.sig, signed_hash: tx.signed_hash, ..unsigned })
                            && signed_over(tx.sig, tx.signed_hash, hash, self.signer()),
                        Err(e) => self.signer().refuses(hash, e),
                    },
                }
            }),
            r matches Ok(tx) ==> tx.market_index == req.market_index
                && tx.index == req.index
                && tx.base_amount == req.base_amount
                && tx.price == req.price
                && tx.trigger_price == req.trigger_price
                && Some(tx.account_index) == opts.from_account_index
                && Some(tx.api_key_index) == opts.api_key_index
                && tx.expired_at == opts.expired_at
                && Some(tx.nonce) == opts.nonce
                && (tx.sig matches Some(sig)
                    && self.signer().signs(poseidon2_quintic_bytes(tx.hash_input(self.chain())), sig@))
                && is_hex_of(tx.signed_hash, poseidon2_quintic_bytes(tx.hash_input(self.chain()))),
    {
        let mut tx_info = build_modify_order(req, opts);
        tx_info.validate()?;
        let msg_hash = tx_info.hash(self.chain_id)?;
        let signature = match self.key_manager.sign(msg_hash.as_slice()) {
            Ok(s) => s,
            Err(e) => return Err(e),
        };
        tx_info.attach_signature(signature, msg_hash.as_slice());
        Ok(tx_info)
    }

    /// Construct and sign a cancel all orders transaction
    pub fn cancel_all_orders(&self, req: &CancelAllOrdersTxReq, opts: &TransactOpts) -> (r: Result<L2CancelAllOrdersTxInfo>)
        requires
            opts.is_complete(),
        ensures
            ({
                let unsigned = cancel_all_orders_tx(*req, *opts);
                match unsigned.first_failure() {
                    Some(e) => r == Err::<L2CancelAllOrdersTxInfo, LighterError>(e),
                    None => match r {
                        Ok(tx) => tx == (L2CancelAllOrdersTxInfo { sig: tx.sig, signed_hash: tx.signed_hash, ..unsigned })
                            && signed_over(tx.sig, tx.signed_hash, zero_hash(), self.signer()),
                        Err(e) => self.signer().refuses(zero_hash(), e),
                    },
                }
            }),
            r matches Ok(tx) ==> tx.time_in_force == req.time_in_force
                && tx.time == req.time
                && Some(tx.account_index) == opts.from_account_index
                && Some(tx.api_key_index) == opts.api_key_index
                && tx.expired_at == opts.expired_at
                && Some(tx.nonce) == opts.nonce,
    {
        let mut tx_info = L2CancelAllOrdersTxInfo {
            account_index: opts.from_account_index.unwrap(),
            api_key_index: opts.api_key_index.unwrap(),
            time_in_force: req.time_in_force,
            time: req.time,
            expired_at: opts.expired_at,
            nonce: opts.nonce.unwrap(),
            sig: None,
            signed_hash: None,
        };
        assert(tx_info == cancel_all_orders_tx(*req, *opts));
        tx_info.validate()?;
        let msg_hash = tx_info.hash(self.chain_id)?;
        let signature = match self.key_manager.sign(msg_hash.as_slice()) {
            Ok(s) => s,
            Err(e) => return Err(e),
        };
        tx_info.attach_signature(signature, msg_hash.as_slice());
        Ok(tx_info)
    }

    /// Construct and sign a create grouped orders transaction
    pub fn create_grouped_orders(&self, req: &CreateGroupedOrdersTxReq, opts: &TransactOpts) -> (r: Result<L2CreateGroupedOrdersTxInfo>)
        requires
            opts.is_complete(),
        ensures
            match grouped_orders_failure(*req, *opts) {
                Some(e) => r == Err::<L2CreateGroupedOrdersTxInfo, LighterError>(e),
                None => match r {
                    Ok(tx) => is_grouped_orders_tx(L2CreateGroupedOrdersTxInfo { sig: None, signed_hash: None, ..tx }, *req, *opts)
                        && signed_over(tx.sig, tx.signed_hash, zero_hash(), self.signer()),
                    Err(e) => self.signer().refuses(zero_hash(), e),
                },
            },
            r matches Ok(tx) ==> tx.grouping_type == req.grouping_type
                && tx.orders@.len() == req.orders@.len()
                && Some(tx.account_index) == opts.from_account_index
                && Some(tx.api_key_index) == opts.api_key_index
                && tx.expired_at == opts.expired_at
                && Some(tx.nonce) == opts.nonce
                && (forall|i: int| 0 <= i < tx.orders@.len() ==> {
                    let o = #[trigger] tx.orders@[i];
                    let q = req.orders@[i];
                    &&& o.market_index == q.market_index && o.client_order_index == q.client_order_index
                    &&& o.base_amount == q.base_amount && o.price == q.price && o.is_ask == q.is_ask
                    &&& o.order_type == q.order_type && o.time_in_force == q.time_in_force
                    &&& o.reduce_only == q.reduce_only && o.trigger_price == q.trigger_price
                    &&& o.order_expiry == q.order_expiry
                }),
    {
        let mut orders: Vec<OrderInfo> = Vec::new();
        let n = req.orders.len();
        let mut i: usize = 0;
        while i < n
            invariant
                n == req.orders@.len(),
                i <= n,
                orders@ == req.orders@.take(i as int).map_values(|o: CreateOrderTxReq| OrderInfo::of_request(o)),
            decreases n - i,
        {
            let info = OrderInfo::from_request(&req.orders[i]);
            orders.push(info);
            i = i + 1;
            assert(req.orders@.take(i as int).drop_last() =~= req.orders@.take(i - 1));
            assert(orders@ =~= req.orders@.take(i as int).map_values(|o: CreateOrderTxReq| OrderInfo::of_request(o)));
        }
        assert(req.orders@.take(n as int) =~= req.orders@);
        let mut tx_info = L2CreateGroupedOrdersTxInfo {
            account_index: opts.from_account_index.unwrap(),
            api_key_index: opts.api_key_index.unwrap(),
            grouping_type: req.grouping_type,
            orders,
            expired_at: opts.expired_at,
            nonce: opts.nonce.unwrap(),
            sig: None,
            signed_hash: None,
        };
        assert(is_grouped_orders_tx(tx_info, *req, *opts));
        let ghost unsigned = tx_info;
        assert(unsigned.first_failure() == grouped_orders_failure(*req, *opts));
        tx_info.validate()?;
        let msg_hash = tx_info.hash(self.chain_id)?;
        let signature = match self.key_manager.sign(msg_hash.as_slice()) {
            Ok(s) => s,
            Err(e) => return Err(e),
        };
        tx_info.attach_signature(signature, msg_hash.as_slice());
        assert((L2CreateGroupedOrdersTxInfo { sig: None, signed_hash: None, ..tx_info }) == unsigned);
        Ok(tx_info)
    }
}

} // verus!

verus! {

/// A create-order request; the reduce-only flag is `1` when set, `0` when
/// not.
pub open spec fn order_request(
    market_index: i16,
    client_order_index: i64,
    base_amount: i64,
    price: u32,
    is_ask: u8,
    order_type: u8,
    time_in_force: u8,
    reduce_only: bool,
    trigger_price: u32,
    order_expiry: i64,
) -> CreateOrderTxReq {
    CreateOrderTxReq {
        market_index,
        client_order_index,
        base_amount,
        price,
        is_ask,
        order_type,
        time_in_force,
        reduce_only: if reduce_only { 1 } else { 0 },
        trigger_price,
        order_expiry,
    }
}

/// The default expiry of a limit order: 28 days after `now_millis`.
pub open spec fn limit_order_expiry(now_millis: i64) -> int {
    now_millis + 2_419_200_000
}

fn reduce_only_flag(reduce_only: bool) -> (r: u8)
    ensures
        r == if reduce_only { 1u8 } else { 0u8 },
{
    if reduce_only { 1 } else { 0 }
}

/// The request of a limit order: good till time, expiring 28 days after
/// `now_millis`.
pub fn limit_order_request(market_index: i16, client_order_index: i64, base_amount: i64, price: u32, is_ask: u8, reduce_only: bool, now_millis: i64) -> (r: CreateOrderTxReq)
    requires
        limit_order_expiry(now_millis) <= i64::MAX,
    ensures
        r == order_request(market_index, client_order_index, base_amount, price, is_ask,
            ORDER_TYPE_LIMIT, TIME_IN_FORCE_GOOD_TILL_TIME, reduce_only, 0, limit_order_expiry(now_millis) as i64),
{
    let default_expiry = now_millis + 2_419_200_000;
    CreateOrderTxReq {
        market_index,
        client_order_index,
        base_amount,
        price,
        is_ask,
        order_type: ORDER_TYPE_LIMIT,
        time_in_force: TIME_IN_FORCE_GOOD_TILL_TIME,
        reduce_only: reduce_only_flag(reduce_only),
        trigger_price: 0,
        order_expiry: default_expiry,
    }
}

/// The request of a market order: immediate or cancel, no expiry.
pub fn market_order_request(market_index: i16, client_order_index: i64, base_amount: i64, price: u32, is_ask: u8, reduce_only: bool) -> (r: CreateOrderTxReq)
    ensures
        r == order_request(market_index, client_order_index, base_amount, price, is_ask,
            ORDER_TYPE_MARKET, TIME_IN_FORCE_IMMEDIATE_OR_CANCEL, reduce_only, 0, 0),
{
    CreateOrderTxReq {
        market_index,
        client_order_index,
        base_amount,
        price,
        is_ask,
        order_type: ORDER_TYPE_MARKET,
        time_in_force: TIME_IN_FORCE_IMMEDIATE_OR_CANCEL,
        reduce_only: reduce_only_flag(reduce_only),
        trigger_price: 0,
        order_expiry: 0,
    }
}

/// The request of a triggered order of a given type and time in force, with
/// no expiry.
fn triggered_order_request(market_index: i16, client_order_index: i64, base_amount: i64, trigger_price: u32, price: u32, is_ask: u8, reduce_only: bool, order_type: u8, time_in_force: u8) -> (r: CreateOrderTxReq)
    ensures
        r == order_request(market_index, client_order_index, base_amount, price, is_ask,
            order_type, time_in_force, reduce_only, trigger_price, 0),
{
    CreateOrderTxReq {
        market_index,
        client_order_index,
        base_amount,
        price,
        is_ask,
        order_type,
        time_in_force,
        reduce_only: reduce_only_flag(reduce_only),
        trigger_price,
        order_expiry: 0,
    }
}

/// The request of a take profit order: immediate or cancel.
pub fn tp_order_request(market_index: i16, client_order_index: i64, base_amount: i64, trigger_price: u32, price: u32, is_ask: u8, reduce_only: bool) -> (r: CreateOrderTxReq)
    ensures
        r == order_request(market_index, client_order_index, base_amount, price, is_ask,
            ORDER_TYPE_TAKE_PROFIT, TIME_IN_FORCE_IMMEDIATE_OR_CANCEL, reduce_only, trigger_price, 0),
{
    triggered_order_request(market_index, client_order_index, base_amount, trigger_price, price, is_ask, reduce_only,
        ORDER_TYPE_TAKE_PROFIT, TIME_IN_FORCE_IMMEDIATE_OR_CANCEL)
}

/// The request of a take profit limit order: good till time.
pub fn tp_limit_order_request(market_index: i16, client_order_index: i64, base_amount: i64, trigger_price: u32, price: u32, is_ask: u8, reduce_only: bool) -> (r: CreateOrderTxReq)
    ensures
        r == order_request(market_index, client_order_index, base_amount, price, is_ask,
            ORDER_TYPE_TAKE_PROFIT_LIMIT, TIME_IN_FORCE_GOOD_TILL_TIME, reduce_only, trigger_price, 0),
{
    triggered_order_request(market_index, client_order_index, base_amount, trigger_price, price, is_ask, reduce_only,
        ORDER_TYPE_TAKE_PROFIT_LIMIT, TIME_IN_FORCE_GOOD_TILL_TIME)
}

/// The request of a stop loss order: immediate or cancel.
pub fn sl_order_request(market_index: i16, client_order_index: i64, base_amount: i64, trigger_price: u32, price: u32, is_ask: u8, reduce_only: bool) -> (r: CreateOrderTxReq)
    ensures
        r == order_request(market_index, client_order_index, base_amount, price, is_ask,
            ORDER_TYPE_STOP_LOSS, TIME_IN_FORCE_IMMEDIATE_OR_CANCEL, reduce_only, trigger_price, 0),
{
    triggered_order_request(market_index, client_order_index, base_amount, trigger_price, price, is_ask, reduce_only,
        ORDER_TYPE_STOP_LOSS, TIME_IN_FORCE_IMMEDIATE_OR_CANCEL)
}

/// The request of a stop loss limit order: good till time.
pub fn sl_limit_order_request(market_index: i16, client_order_index: i64, base_amount: i64, trigger_price: u32, price: u32, is_ask: u8, reduce_only: bool) -> (r: CreateOrderTxReq)
    ensures
        r == order_request(market_index, client_order_index, base_amount, price, is_ask,
            ORDER_TYPE_STOP_LOSS_LIMIT, TIME_IN_FORCE_GOOD_TILL_TIME, reduce_only, trigger_price, 0),
{
    triggered_order_request(market_index, client_order_index, base_amount, trigger_price, price, is_ask, reduce_only,
        ORDER_TYPE_STOP_LOSS_LIMIT, TIME_IN_FORCE_GOOD_TILL_TIME)
}

/// The update-leverage request for a leverage multiplier: the initial
/// margin fraction is `10_000 / leverage`; a zero leverage is refused.
pub fn update_leverage_request(market_index: i16, leverage: u16, margin_mode: u8) -> (r: Result<UpdateLeverageTxReq>)
    ensures
        leverage == 0 ==> (r matches Err(LighterError::ValidationError(m)) && m@ == "Leverage must be greater than 0"@),
        leverage != 0 ==> r == Ok::<UpdateLeverageTxReq, LighterError>(UpdateLeverageTxReq {
            market_index,
            initial_margin_fraction: (10_000u16 / leverage) as u16,
            margin_mode,
        }),
{
    if leverage == 0 {
        return Err(LighterError::ValidationError(String::from_str("Leverage must be greater than 0")));
    }
    let initial_margin_fraction = 10_000 / leverage;
    Ok(UpdateLeverageTxReq { market_index, initial_margin_fraction, margin_mode })
}

impl<S: Signer> TxClient<S> {
    /// Create and sign a limit order: good till time, expiring 28 days after
    /// `now_millis`.
    pub fn create_limit_order(&self, market_index: i16, client_order_index: i64, base_amount: i64, price: u32, is_ask: u8, reduce_only: bool, opts: &TransactOpts, now_millis: i64) -> (r: Result<L2CreateOrderTxInfo>)
        requires
            limit_order_expiry(now_millis) <= i64::MAX,
            opts.is_complete(),
            order_hashable(order_request(market_index, client_order_index, base_amount, price, is_ask,
                ORDER_TYPE_LIMIT, TIME_IN_FORCE_GOOD_TILL_TIME, reduce_only, 0, limit_order_expiry(now_millis) as i64), *opts, self.chain()),
        ensures
            create_order_outcome(r, order_request(market_index, client_order_index, base_amount, price, is_ask,
                ORDER_TYPE_LIMIT, TIME_IN_FORCE_GOOD_TILL_TIME, reduce_only, 0, limit_order_expiry(now_millis) as i64), *opts, self.chain(), self.signer()),
            r matches Ok(tx) ==> tx.market_index == market_index
                && tx.client_order_index == client_order_index
                && tx.base_amount == base_amount
                && tx.price == price
                && tx.is_ask == is_ask
                && tx.order_type == ORDER_TYPE_LIMIT
                && tx.time_in_force == TIME_IN_FORCE_GOOD_TILL_TIME
                && tx.reduce_only == (if reduce_only { 1u8 } else { 0u8 })
                && tx.trigger_price == 0
                && tx.order_expiry == limit_order_expiry(now_millis)
                && Some(tx.account_index) == opts.from_account_index
                && Some(tx.nonce) == opts.nonce,
    {
        let req = limit_order_request(market_index, client_order_index, base_amount, price, is_ask, reduce_only, now_millis);
        self.create_order(&req, opts)
    }

    /// Create and sign a market order: immediate or cancel.
    pub fn create_market_order(&self, market_index: i16, client_order_index: i64, base_amount: i64, price: u32, is_ask: u8, reduce_only: bool, opts: &TransactOpts) -> (r: Result<L2CreateOrderTxInfo>)
        requires
            opts.is_complete(),
            order_hashable(order_request(market_index, client_order_index, base_amount, price, is_ask,
                ORDER_TYPE_MARKET, TIME_IN_FORCE_IMMEDIATE_OR_CANCEL, reduce_only, 0, 0), *opts, self.chain()),
        ensures
            create_order_outcome(r, order_request(market_index, client_order_index, base_amount, price, is_ask,
                ORDER_TYPE_MARKET, TIME_IN_FORCE_IMMEDIATE_OR_CANCEL, reduce_only, 0, 0), *opts, self.chain(), self.signer()),
            r matches Ok(tx) ==> tx.market_index == market_index
                && tx.client_order_index == client_order_index
                && tx.base_amount == base_amount
                && tx.price == price
                && tx.is_ask == is_ask
                && tx.order_type == ORDER_TYPE_MARKET
                && tx.time_in_force == TIME_IN_FORCE_IMMEDIATE_OR_CANCEL
                && tx.reduce_only == (if reduce_only { 1u8 } else { 0u8 })
                && tx.trigger_price == 0
                && tx.order_expiry == 0
                && Some(tx.account_index) == opts.from_account_index
                && Some(tx.nonce) == opts.nonce,
    {
        let req = market_order_request(market_index, client_order_index, base_amount, price, is_ask, reduce_only);
        self.create_order(&req, opts)
    }

    /// Create and sign a take profit order.
    pub fn create_tp_order(&self, market_index: i16, client_order_index: i64, base_amount: i64, trigger_price: u32, price: u32, is_ask: u8, reduce_only: bool, opts: &TransactOpts) -> (r: Result<L2CreateOrderTxInfo>)
        requires
            opts.is_complete(),
            order_hashable(order_request(market_index, client_order_index, base_amount, price, is_ask,
                ORDER_TYPE_TAKE_PROFIT, TIME_IN_FORCE_IMMEDIATE_OR_CANCEL, reduce_only, trigger_price, 0), *opts, self.chain()),
        ensures
            create_order_outcome(r, order_request(market_index, client_order_index, base_amount, price, is_ask,
                ORDER_TYPE_TAKE_PROFIT, TIME_IN_FORCE_IMMEDIATE_OR_CANCEL, reduce_only, trigger_price, 0), *opts, self.chain(), self.signer()),
            r matches Ok(tx) ==> tx.market_index == market_index
                && tx.client_order_index == client_order_index
                && tx.base_amount == base_amount
                && tx.price == price
                && tx.is_ask == is_ask
                && tx.order_type == ORDER_TYPE_TAKE_PROFIT
                && tx.time_in_force == TIME_IN_FORCE_IMMEDIATE_OR_CANCEL
                && tx.reduce_only == (if reduce_only { 1u8 } else { 0u8 })
                && tx.trigger_price == trigger_price
                && tx.order_expiry == 0
                && Some(tx.account_index) == opts.from_account_index
                && Some(tx.nonce) == opts.nonce,
    {
        let req = tp_order_request(market_index, client_order_index, base_amount, trigger_price, price, is_ask, reduce_only);
        self.create_order(&req, opts)
    }

    /// Create and sign a take profit limit order.
    pub fn create_tp_limit_order(&self, market_index: i16, client_order_index: i64, base_amount: i64, trigger_price: u32, price: u32, is_ask: u8, reduce_only: bool, opts: &TransactOpts) -> (r: Result<L2CreateOrderTxInfo>)
        requires
            opts.is_complete(),
            order_hashable(order_request(market_index, client_order_index, base_amount, price, is_ask,
                ORDER_TYPE_TAKE_PROFIT_LIMIT, TIME_IN_FORCE_GOOD_TILL_TIME, reduce_only, trigger_price, 0), *opts, self.chain()),
        ensures
            create_order_outcome(r, order_request(market_index, client_order_index, base_amount, price, is_ask,
                ORDER_TYPE_TAKE_PROFIT_LIMIT, TIME_IN_FORCE_GOOD_TILL_TIME, reduce_only, trigger_price, 0), *opts, self.chain(), self.signer()),
            r matches Ok(tx) ==> tx.market_index == market_index
                && tx.client_order_index == client_order_index
                && tx.base_amount == base_amount
                && tx.price == price
                && tx.is_ask == is_ask
                && tx.order_type == ORDER_TYPE_TAKE_PROFIT_LIMIT
                && tx.time_in_force == TIME_IN_FORCE_GOOD_TILL_TIME
                && tx.reduce_only == (if reduce_only { 1u8 } else { 0u8 })
                && tx.trigger_price == trigger_price
                && tx.order_expiry == 0
                && Some(tx.account_index) == opts.from_account_index
                && Some(tx.nonce) == opts.nonce,
    {
        let req = tp_limit_order_request(market_index, client_order_index, base_amount, trigger_price, price, is_ask, reduce_only);
        self.create_order(&req, opts)
    }

    /// Create and sign a stop loss order.
    pub fn create_sl_order(&self, market_index: i16, client_order_index: i64, base_amount: i64, trigger_price: u32, price: u32, is_ask: u8, reduce_only: bool, opts: &TransactOpts) -> (r: Result<L2CreateOrderTxInfo>)
        requires
            opts.is_complete(),
            order_hashable(order_request(market_index, client_order_index, base_amount, price, is_ask,
                ORDER_TYPE_STOP_LOSS, TIME_IN_FORCE_IMMEDIATE_OR_CANCEL, reduce_only, trigger_price, 0), *opts, self.chain()),
        ensures
            create_order_outcome(r, order_request(market_index, client_order_index, base_amount, price, is_ask,
                ORDER_TYPE_STOP_LOSS, TIME_IN_FORCE_IMMEDIATE_OR_CANCEL, reduce_only, trigger_price, 0), *opts, self.chain(), self.signer()),
            r matches Ok(tx) ==> tx.market_index == market_index
                && tx.client_order_index == client_order_index
                && tx.base_amount == base_amount
                && tx.price == price
                && tx.is_ask == is_ask
                && tx.order_type == ORDER_TYPE_STOP_LOSS
                && tx.time_in_force == TIME_IN_FORCE_IMMEDIATE_OR_CANCEL
                && tx.reduce_only == (if reduce_only { 1u8 } else { 0u8 })
                && tx.trigger_price == trigger_price
                && tx.order_expiry == 0
                && Some(tx.account_index) == opts.from_account_index
                && Some(tx.nonce) == opts.nonce,
    {
        let req = sl_order_request(market_index, client_order_index, base_amount, trigger_price, price, is_ask, reduce_only);
        self.create_order(&req, opts)
    }

    /// Create and sign a stop loss limit order.
    pub fn create_sl_limit_order(&self, market_index: i16, client_order_index: i64, base_amount: i64, trigger_price: u32, price: u32, is_ask: u8, reduce_only: bool, opts: &TransactOpts) -> (r: Result<L2CreateOrderTxInfo>)
        requires
            opts.is_complete(),
            order_hashable(order_request(market_index, client_order_index, base_amount, price, is_ask,
                ORDER_TYPE_STOP_LOSS_LIMIT, TIME_IN_FORCE_GOOD_TILL_TIME, reduce_only, trigger_price, 0), *opts, self.chain()),
        ensures
            create_order_outcome(r, order_request(market_index, client_order_index, base_amount, price, is_ask,
                ORDER_TYPE_STOP_LOSS_LIMIT, TIME_IN_FORCE_GOOD_TILL_TIME, reduce_only, trigger_price, 0), *opts, self.chain(), self.signer()),
            r matches Ok(tx) ==> tx.market_index == market_index
                && tx.client_order_index == client_order_index
                && tx.base_amount == base_amount
                && tx.price == price
                && tx.is_ask == is_ask
                && tx.order_type == ORDER_TYPE_STOP_LOSS_LIMIT
                && tx.time_in_force == TIME_IN_FORCE_GOOD_TILL_TIME
                && tx.reduce_only == (if reduce_only { 1u8 } else { 0u8 })
                && tx.trigger_price == trigger_price
                && tx.order_expiry == 0
                && Some(tx.account_index) == opts.from_account_index
                && Some(tx.nonce) == opts.nonce,
    {
        let req = sl_limit_order_request(market_index, client_order_index, base_amount, trigger_price, price, is_ask, reduce_only);
        self.create_order(&req, opts)
    }
}

} // verus!

verus! {

/// Signing a create-order transaction changes neither what it is validated
/// on nor what is hashed: the signature does not cover itself.
pub proof fn lemma_signing_keeps_validation_and_hash<S: Signer>(tx: L2CreateOrderTxInfo, unsigned: L2CreateOrderTxInfo, hash: Seq<u8>, chain_id: u32, signer: S)
    requires
        signed_create_order(tx, unsigned, hash, signer),
    ensures
        tx.first_failure() == unsigned.first_failure(),
        tx.hash_input(chain_id) == unsigned.hash_input(chain_id),
{
}

/// Every order transaction the client builds and signs passes its own
/// validation.
pub proof fn lemma_created_order_passes_validation<S: Signer>(r: Result<L2CreateOrderTxInfo>, req: CreateOrderTxReq, opts: TransactOpts, chain_id: u32, signer: S)
    requires
        create_order_outcome(r, req, opts, chain_id, signer),
        r is Ok,
    ensures
        check_outcome(r->Ok_0.first_failure()) == Ok::<(), LighterError>(()),
{
}

/// Filling in defaults keeps every option that was given: a sender, an API
/// key, a non-zero expiry and the nonce.
pub proof fn lemma_defaults_keep_given_options(opts: TransactOpts, now_millis: i64, account_index: i64, api_key_index: u8)
    ensures
        opts.from_account_index is Some ==> with_defaults(opts, now_millis, account_index, api_key_index).from_account_index == opts.from_account_index,
        opts.api_key_index is Some ==> with_defaults(opts, now_millis, account_index, api_key_index).api_key_index == opts.api_key_index,
        opts.expired_at != 0 ==> with_defaults(opts, now_millis, account_index, api_key_index).expired_at == opts.expired_at,
        with_defaults(opts, now_millis, account_index, api_key_index).nonce == opts.nonce,
        opts.is_complete() && opts.expired_at != 0 ==> with_defaults(opts, now_millis, account_index, api_key_index) == opts,
{
}

/// Once the defaults are filled in and a nonce is supplied, the options are
/// complete, as building a transaction needs.
pub proof fn lemma_supplied_nonce_completes(opts: TransactOpts, now_millis: i64, account_index: i64, api_key_index: u8, nonce: i64)
    ensures
        (TransactOpts { nonce: Some(nonce), ..with_defaults(opts, now_millis, account_index, api_key_index) }).is_complete(),
{
}

} // verus!

verus! {

/// A created order carries every field of its request and the sender, API
/// key, expiry and nonce of its options unchanged, and is signed by the
/// signer over the hash of its own fields, so the signature covers every
/// order field as requested.
pub proof fn lemma_created_order_carries_request<S: Signer>(r: Result<L2CreateOrderTxInfo>, req: CreateOrderTxReq, opts: TransactOpts, chain_id: u32, signer: S)
    requires
        opts.is_complete(),
        create_order_outcome(r, req, opts, chain_id, signer),
        r is Ok,
    ensures
        r->Ok_0.market_index == req.market_index,
        r->Ok_0.client_order_index == req.client_order_index,
        r->Ok_0.base_amount == req.base_amount,
        r->Ok_0.price == req.price,
        r->Ok_0.is_ask == req.is_ask,
        r->Ok_0.order_type == req.order_type,
        r->Ok_0.time_in_force == req.time_in_force,
        r->Ok_0.reduce_only == req.reduce_only,
        r->Ok_0.trigger_price == req.trigger_price,
        r->Ok_0.order_expiry == req.order_expiry,
        r->Ok_0.order_info.market_index == req.market_index,
        r->Ok_0.order_info.client_order_index == req.client_order_index,
        r->Ok_0.order_info.base_amount == req.base_amount,
        r->Ok_0.order_info.price == req.price,
        r->Ok_0.order_info.is_ask == req.is_ask,
        r->Ok_0.order_info.order_type == req.order_type,
        r->Ok_0.order_info.time_in_force == req.time_in_force,
        r->Ok_0.order_info.reduce_only == req.reduce_only,
        r->Ok_0.order_info.trigger_price == req.trigger_price,
        r->Ok_0.order_info.order_expiry == req.order_expiry,
        Some(r->Ok_0.account_index) == opts.from_account_index,
        Some(r->Ok_0.api_key_index) == opts.api_key_index,
        r->Ok_0.expired_at == opts.expired_at,
        Some(r->Ok_0.nonce) == opts.nonce,
        r->Ok_0.sig matches Some(sig) && signer.signs(poseidon2_quintic_bytes(r->Ok_0.hash_input(chain_id)), sig@),
        is_hex_of(r->Ok_0.signed_hash, poseidon2_quintic_bytes(r->Ok_0.hash_input(chain_id))),
{
}

/// An order request built from its parts carries each part unchanged; the
/// reduce-only flag is `1` exactly when reduce-only is asked.
pub proof fn lemma_order_request_fields(
    market_index: i16,
    client_order_index: i64,
    base_amount: i64,
    price: u32,
    is_ask: u8,
    order_type: u8,
    time_in_force: u8,
    reduce_only: bool,
    trigger_price: u32,
    order_expiry: i64,
)
    ensures
        ({
            let q = order_request(market_index, client_order_index, base_amount, price, is_ask, order_type,
                time_in_force, reduce_only, trigger_price, order_expiry);
            &&& q.market_index == market_index && q.client_order_index == client_order_index
            &&& q.base_amount == base_amount && q.price == price && q.is_ask == is_ask
            &&& q.order_type == order_type && q.time_in_force == time_in_force
            &&& (q.reduce_only == 1 <==> reduce_only) && (q.reduce_only == 0 <==> !reduce_only)
            &&& q.trigger_price == trigger_price && q.order_expiry == order_expiry
        }),
{
}

/// A cancel-order transaction names the market and order of its request,
/// with the options' sender, API key, expiry and nonce.
pub proof fn lemma_cancel_order_tx_carries_request(req: CancelOrderTxReq, opts: TransactOpts)
    requires
        opts.is_complete(),
    ensures
        cancel_order_tx(req, opts).market_index == req.market_index,
        cancel_order_tx(req, opts).index == req.index,
        Some(cancel_order_tx(req, opts).account_index) == opts.from_account_index,
        Some(cancel_order_tx(req, opts).api_key_index) == opts.api_key_index,
        cancel_order_tx(req, opts).expired_at == opts.expired_at,
        Some(cancel_order_tx(req, opts).nonce) == opts.nonce,
{
}

/// A modify-order transaction carries the market, order, amount, price and
/// trigger price of its request, with the options' sender, API key, expiry
/// and nonce.
pub proof fn lemma_modify_order_tx_carries_request(req: ModifyOrderTxReq, opts: TransactOpts)
    requires
        opts.is_complete(),
    ensures
        modify_order_tx(req, opts).market_index == req.market_index,
        modify_order_tx(req, opts).index == req.index,
        modify_order_tx(req, opts).base_amount == req.base_amount,
        modify_order_tx(req, opts).price == req.price,
        modify_order_tx(req, opts).trigger_price == req.trigger_price,
        Some(modify_order_tx(req, opts).account_index) == opts.from_account_index,
        Some(modify_order_tx(req, opts).api_key_index) == opts.api_key_index,
        modify_order_tx(req, opts).expired_at == opts.expired_at,
        Some(modify_order_tx(req, opts).nonce) == opts.nonce,
{
}

/// A cancel-all transaction carries the time in force and time of its
/// request, so a scheduled cancellation stays scheduled, with the options'
/// sender, API key, expiry and nonce.
pub proof fn lemma_cancel_all_orders_tx_carries_request(req: CancelAllOrdersTxReq, opts: TransactOpts)
    requires
        opts.is_complete(),
    ensures
        cancel_all_orders_tx(req, opts).time_in_force == req.time_in_force,
        cancel_all_orders_tx(req, opts).time == req.time,
        Some(cancel_all_orders_tx(req, opts).account_index) == opts.from_account_index,
        Some(cancel_all_orders_tx(req, opts).api_key_index) == opts.api_key_index,
        cancel_all_orders_tx(req, opts).expired_at == opts.expired_at,
        Some(cancel_all_orders_tx(req, opts).nonce) == opts.nonce,
{
}

/// A grouped-orders transaction keeps the grouping type of its request, and
/// its orders are the request's orders, one for one and in order.
pub proof fn lemma_grouped_orders_tx_carries_request(tx: L2CreateGroupedOrdersTxInfo, req: CreateGroupedOrdersTxReq, opts: TransactOpts)
    requires
        opts.is_complete(),
        is_grouped_orders_tx(tx, req, opts),
    ensures
        tx.grouping_type == req.grouping_type,
        tx.orders@.len() == req.orders@.len(),
        forall|i: int| 0 <= i < tx.orders@.len() ==> {
            let o = #[trigger] tx.orders@[i];
            let q = req.orders@[i];
            &&& o.market_index == q.market_index && o.client_order_index == q.client_order_index
            &&& o.base_amount == q.base_amount && o.price == q.price && o.is_ask == q.is_ask
            &&& o.order_type == q.order_type && o.time_in_force == q.time_in_force
            &&& o.reduce_only == q.reduce_only && o.trigger_price == q.trigger_price
            &&& o.order_expiry == q.order_expiry
        },
        Some(tx.account_index) == opts.from_account_index,
        Some(tx.api_key_index) == opts.api_key_index,
        tx.expired_at == opts.expired_at,
        Some(tx.nonce) == opts.nonce,
{
}

} // verus!
