use std::cell::Cell;

use lighter_rs::client::{
    market_order_request, next_nonce_url, send_tx_form, send_tx_url, supply_nonce,
    update_leverage_request, limit_order_request, sl_limit_order_request, tp_order_request,
    OptsStep, Signer, TxClient, is_success_status, nonce_refusal, send_tx_refusal,
};
use lighter_rs::constants::{
    ORDER_TYPE_LIMIT, ORDER_TYPE_MARKET, ORDER_TYPE_STOP_LOSS_LIMIT, ORDER_TYPE_TAKE_PROFIT,
    TIME_IN_FORCE_GOOD_TILL_TIME, TIME_IN_FORCE_IMMEDIATE_OR_CANCEL,
};
use lighter_rs::errors::{LighterError, Result};
use lighter_rs::types::{
    CancelAllOrdersTxReq, CancelOrderTxReq, CreateGroupedOrdersTxReq, CreateOrderTxReq,
    ModifyOrderTxReq, TransactOpts,
};

/// Signs by reversing the hash, and counts its calls.
struct ReverseSigner {
    calls: Cell<usize>,
}

impl Signer for ReverseSigner {
    fn sign(&self, msg_hash: &[u8]) -> Result<Vec<u8>> {
        self.calls.set(self.calls.get() + 1);
        Ok(msg_hash.iter().rev().cloned().collect())
    }
}

struct FailingSigner;

impl Signer for FailingSigner {
    fn sign(&self, _msg_hash: &[u8]) -> Result<Vec<u8>> {
        Err(LighterError::CryptoError("no key".to_string()))
    }
}

fn client() -> TxClient<ReverseSigner> {
    TxClient::new(ReverseSigner { calls: Cell::new(0) }, 12345, 2, 304)
}

fn full_opts() -> TransactOpts {
    TransactOpts { from_account_index: Some(12345), api_key_index: Some(2), expired_at: 1_700_000_600_000, nonce: Some(7) }
}

fn order_req() -> CreateOrderTxReq {
    CreateOrderTxReq {
        market_index: 0,
        client_order_index: 42,
        base_amount: 100_000,
        price: 300_000,
        is_ask: 0,
        order_type: ORDER_TYPE_MARKET,
        time_in_force: TIME_IN_FORCE_IMMEDIATE_OR_CANCEL,
        reduce_only: 0,
        trigger_price: 0,
        order_expiry: 0,
    }
}

#[test]
fn nonce_url_and_form_are_framed() {
    assert_eq!(
        next_nonce_url("https://api.lighter.xyz", 12345, 3),
        "https://api.lighter.xyz/api/v1/nextNonce?account_index=12345&api_key_index=3"
    );
    assert_eq!(
        next_nonce_url("http://h", -20, 255),
        "http://h/api/v1/nextNonce?account_index=-20&api_key_index=255"
    );
    assert_eq!(send_tx_url("http://h"), "http://h/api/v1/sendTx");
    let form = send_tx_form(14, "{\"a\":1}", false);
    assert_eq!(
        form,
        vec![("tx_type".to_string(), "14".to_string()), ("tx_info".to_string(), "{\"a\":1}".to_string())]
    );
    let form = send_tx_form(7, "x", true);
    assert_eq!(form.len(), 3);
    assert_eq!(form[0].1, "7");
    assert_eq!(form[2], ("price_protection".to_string(), "true".to_string()));
}

#[test]
fn default_options_are_filled_in() {
    let c = client();
    match c.fill_default_opts(None, 1_000_000, true).unwrap() {
        OptsStep::FetchNonce(o) => {
            assert_eq!(o.expired_at, 1_000_000 + 600_000 - 1000);
            assert_eq!(o.from_account_index, Some(12345));
            assert_eq!(o.api_key_index, Some(2));
            assert_eq!(o.nonce, None);
            let o = supply_nonce(o, 11);
            assert_eq!(o.nonce, Some(11));
            assert_eq!(o.from_account_index, Some(12345));
        }
        OptsStep::Ready(_) => panic!("nonce should be fetched"),
    }
    match c.fill_default_opts(None, 1_000_000, false) {
        Err(LighterError::MissingField(m)) => {
            assert_eq!(m, "nonce was not provided and HTTPClient is not available")
        }
        other => panic!("unexpected {:?}", other),
    }
}

#[test]
fn given_options_are_kept() {
    let c = client();
    let opts = TransactOpts { from_account_index: Some(9), api_key_index: Some(4), expired_at: 55, nonce: Some(3) };
    match c.fill_default_opts(Some(opts), 1_000_000, false).unwrap() {
        OptsStep::Ready(o) => {
            assert_eq!(o.from_account_index, Some(9));
            assert_eq!(o.api_key_index, Some(4));
            assert_eq!(o.expired_at, 55);
            assert_eq!(o.nonce, Some(3));
        }
        OptsStep::FetchNonce(_) => panic!("nonce was given"),
    }
}

#[test]
fn created_order_is_signed_over_its_hash() {
    let c = client();
    let tx = c.create_order(&order_req(), &full_opts()).unwrap();
    assert_eq!(tx.account_index, 12345);
    assert_eq!(tx.api_key_index, 2);
    assert_eq!(tx.nonce, 7);
    assert_eq!(tx.expired_at, 1_700_000_600_000);
    assert_eq!(tx.client_order_index, 42);
    assert_eq!(tx.order_info.client_order_index, 42);
    assert!(tx.validate().is_ok());
    let mut unsigned = tx.clone();
    unsigned.sig = None;
    unsigned.signed_hash = None;
    let hash = unsigned.hash(304).unwrap();
    let signed_hash = tx.get_tx_hash().unwrap();
    assert_eq!(signed_hash.len(), 80);
    assert_eq!(signed_hash, hex::encode(&hash));
    let mut reversed = hash.clone();
    reversed.reverse();
    assert_eq!(tx.sig, Some(reversed));
    assert_eq!(c.key_manager().calls.get(), 1);
}

#[test]
fn invalid_order_is_refused_before_signing() {
    let c = client();
    let mut req = order_req();
    req.price = 0;
    assert!(matches!(c.create_order(&req, &full_opts()), Err(LighterError::PriceTooLow(0))));
    assert_eq!(c.key_manager().calls.get(), 0);
}

#[test]
fn signer_failure_is_returned() {
    let c = TxClient::new(FailingSigner, 1, 0, 300);
    let opts = TransactOpts { from_account_index: Some(1), api_key_index: Some(0), expired_at: 10, nonce: Some(0) };
    assert!(matches!(c.create_order(&order_req(), &opts), Err(LighterError::CryptoError(_))));
}

#[test]
fn other_transactions_are_built_and_signed() {
    let c = client();
    let tx = c.cancel_order(&CancelOrderTxReq { market_index: 1, index: 77 }, &full_opts()).unwrap();
    assert_eq!(tx.index, 77);
    assert_eq!(tx.get_tx_hash().unwrap().len(), 80);
    let req = ModifyOrderTxReq { market_index: 1, index: 77, base_amount: 5, price: 6, trigger_price: 0 };
    let tx = c.modify_order(&req, &full_opts()).unwrap();
    assert_eq!(tx.price, 6);
    assert!(tx.sig.is_some());
    let tx = c.cancel_all_orders(&CancelAllOrdersTxReq { time_in_force: 0, time: 0 }, &full_opts()).unwrap();
    assert_eq!(tx.get_tx_hash().unwrap(), "0".repeat(80));
    let req = CreateGroupedOrdersTxReq { grouping_type: 2, orders: vec![order_req(), order_req()] };
    let tx = c.create_grouped_orders(&req, &full_opts()).unwrap();
    assert_eq!(tx.orders.len(), 2);
    assert_eq!(tx.orders[1].client_order_index, 42);
    let req = CreateGroupedOrdersTxReq { grouping_type: 2, orders: vec![order_req(); 4] };
    assert!(matches!(c.create_grouped_orders(&req, &full_opts()), Err(LighterError::OrderGroupSizeInvalid)));
    let req = CancelOrderTxReq { market_index: 16_383, index: 1 };
    assert!(matches!(c.cancel_order(&req, &full_opts()), Err(LighterError::MarketIndexTooHigh(16_383))));
}

#[test]
fn order_helpers_set_type_and_time_in_force() {
    let r = limit_order_request(3, 1, 10, 20, 1, true, 1_000);
    assert_eq!(r.order_type, ORDER_TYPE_LIMIT);
    assert_eq!(r.time_in_force, TIME_IN_FORCE_GOOD_TILL_TIME);
    assert_eq!(r.reduce_only, 1);
    assert_eq!(r.order_expiry, 1_000 + 28 * 24 * 60 * 60 * 1000);
    let r = market_order_request(3, 1, 10, 20, 0, false);
    assert_eq!(r.order_type, ORDER_TYPE_MARKET);
    assert_eq!(r.time_in_force, TIME_IN_FORCE_IMMEDIATE_OR_CANCEL);
    assert_eq!(r.reduce_only, 0);
    assert_eq!(r.order_expiry, 0);
    let r = tp_order_request(3, 1, 10, 15, 20, 0, false);
    assert_eq!(r.order_type, ORDER_TYPE_TAKE_PROFIT);
    assert_eq!(r.trigger_price, 15);
    assert_eq!(r.time_in_force, TIME_IN_FORCE_IMMEDIATE_OR_CANCEL);
    let r = sl_limit_order_request(3, 1, 10, 15, 20, 0, false);
    assert_eq!(r.order_type, ORDER_TYPE_STOP_LOSS_LIMIT);
    assert_eq!(r.time_in_force, TIME_IN_FORCE_GOOD_TILL_TIME);
    let c = client();
    let tx = c.create_market_order(0, 5, 100, 300, 1, true, &full_opts()).unwrap();
    assert_eq!(tx.order_type, ORDER_TYPE_MARKET);
    assert_eq!(tx.reduce_only, 1);
    let tx = c.create_limit_order(0, 5, 100, 300, 1, false, &full_opts(), 2_000).unwrap();
    assert_eq!(tx.order_expiry, 2_000 + 2_419_200_000);
}

#[test]
fn leverage_becomes_initial_margin_fraction() {
    let r = update_leverage_request(1, 5, 0).unwrap();
    assert_eq!(r.initial_margin_fraction, 2_000);
    let r = update_leverage_request(1, 3, 1).unwrap();
    assert_eq!(r.initial_margin_fraction, 3_333);
    assert_eq!(r.margin_mode, 1);
    assert!(matches!(update_leverage_request(1, 0, 0), Err(LighterError::ValidationError(m)) if m == "Leverage must be greater than 0"));
}

#[test]
fn api_key_can_be_switched() {
    let mut c = client();
    assert_eq!(c.api_key_index(), 2);
    c.switch_api_key(9);
    assert_eq!(c.api_key_index(), 9);
    assert_eq!(c.account_index(), 12345);
    assert_eq!(c.chain_id(), 304);
}

#[test]
fn http_statuses_and_refusals() {
    assert!(is_success_status(200));
    assert!(is_success_status(299));
    assert!(!is_success_status(199));
    assert!(!is_success_status(300));
    assert!(!is_success_status(404));
    assert!(matches!(nonce_refusal("404 Not Found"), LighterError::ApiError(m) if m == "Failed to get nonce: 404 Not Found"));
    assert!(matches!(send_tx_refusal(Some("bad nonce".to_string())), LighterError::ApiError(m) if m == "Failed to send transaction: bad nonce"));
    assert!(matches!(send_tx_refusal(None), LighterError::ApiError(m) if m == "Failed to send transaction: Unknown error"));
}

#[test]
fn negative_sender_or_nonce_is_refused_by_validation() {
    let c = client();
    let opts = TransactOpts { from_account_index: Some(-1), api_key_index: Some(2), expired_at: 1_700_000_600_000, nonce: Some(7) };
    assert!(matches!(c.create_order(&order_req(), &opts), Err(LighterError::AccountIndexTooLow(-1))));
    let opts = TransactOpts { nonce: Some(-1), ..full_opts() };
    assert!(matches!(c.create_order(&order_req(), &opts), Err(LighterError::NonceTooLow(-1))));
    let req = ModifyOrderTxReq { market_index: 1, index: 77, base_amount: 5, price: 6, trigger_price: 0 };
    assert!(matches!(c.modify_order(&req, &opts), Err(LighterError::NonceTooLow(-1))));
    assert!(matches!(c.cancel_order(&CancelOrderTxReq { market_index: 1, index: 77 }, &opts), Err(LighterError::NonceTooLow(-1))));
    assert_eq!(c.key_manager().calls.get(), 0);
}
