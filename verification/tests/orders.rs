use lighter_rs::constants::{
    CANCEL_ALL_IMMEDIATE, GROUPING_TYPE_ONE_CANCELS_THE_OTHER, ORDER_TYPE_LIMIT,
    TIME_IN_FORCE_GOOD_TILL_TIME, TX_TYPE_L2_CANCEL_ALL_ORDERS, TX_TYPE_L2_CANCEL_ORDER,
    TX_TYPE_L2_CREATE_GROUPED_ORDERS, TX_TYPE_L2_CREATE_ORDER, TX_TYPE_L2_MODIFY_ORDER,
};
use lighter_rs::errors::LighterError;
use lighter_rs::types::{
    default_order_info, validate_account_index, validate_api_key_index, validate_market_index,
    L2CancelAllOrdersTxInfo, L2CancelOrderTxInfo, L2CreateGroupedOrdersTxInfo, L2CreateOrderTxInfo,
    L2ModifyOrderTxInfo, OrderInfo,
};

fn create_valid_order_info() -> OrderInfo {
    OrderInfo {
        market_index: 0,
        client_order_index: 1,
        base_amount: 1000000,
        price: 100000000,
        is_ask: 0,
        order_type: ORDER_TYPE_LIMIT,
        time_in_force: TIME_IN_FORCE_GOOD_TILL_TIME,
        reduce_only: 0,
        trigger_price: 0,
        order_expiry: 0,
    }
}

fn create_test_tx_info_with_account(
    order_info: OrderInfo,
    account_index: i64,
    api_key_index: u8,
    nonce: i64,
) -> L2CreateOrderTxInfo {
    L2CreateOrderTxInfo {
        account_index,
        api_key_index,
        market_index: order_info.market_index,
        client_order_index: order_info.client_order_index,
        base_amount: order_info.base_amount,
        price: order_info.price,
        is_ask: order_info.is_ask,
        order_type: order_info.order_type,
        time_in_force: order_info.time_in_force,
        reduce_only: order_info.reduce_only,
        trigger_price: order_info.trigger_price,
        order_expiry: order_info.order_expiry,
        expired_at: 1000000,
        nonce,
        sig: None,
        signed_hash: None,
        order_info,
    }
}

fn create_test_tx_info(order_info: OrderInfo) -> L2CreateOrderTxInfo {
    create_test_tx_info_with_account(order_info, 12345, 0, 1)
}

#[test]
fn test_create_order_validation_success() {
    let tx_info = create_test_tx_info(create_valid_order_info());
    assert!(tx_info.validate().is_ok());
}

#[test]
fn test_create_order_account_index_too_low() {
    let tx_info = create_test_tx_info_with_account(create_valid_order_info(), -1, 0, 1);

    let result = tx_info.validate();
    assert!(result.is_err());
    assert!(matches!(
        result.unwrap_err(),
        LighterError::AccountIndexTooLow(_)
    ));
}

#[test]
fn test_create_order_account_index_too_high() {
    let tx_info = create_test_tx_info_with_account(create_valid_order_info(), 12345, 255, 1);

    let result = tx_info.validate();
    assert!(result.is_err());
    assert!(matches!(
        result.unwrap_err(),
        LighterError::ApiKeyIndexTooHigh(_)
    ));
}

#[test]
fn test_create_order_price_too_low() {
    let mut order_info = create_valid_order_info();
    order_info.price = 0;

    let tx_info = create_test_tx_info_with_account(create_valid_order_info(), 12345, 0, -1);

    let result = tx_info.validate();
    assert!(result.is_err());
    assert!(matches!(result.unwrap_err(), LighterError::NonceTooLow(_)));
}

#[test]
fn test_create_order_tx_type() {
    let tx_info = create_test_tx_info_with_account(create_valid_order_info(), 12345, 0, 1);

    assert_eq!(tx_info.get_tx_type(), TX_TYPE_L2_CREATE_ORDER);
}

#[test]
fn test_cancel_order_validation_success() {
    let tx_info = L2CancelOrderTxInfo {
        account_index: 12345,
        api_key_index: 0,
        market_index: 0,
        index: 123456,
        expired_at: 1000000,
        nonce: 1,
        sig: None,
        signed_hash: None,
    };

    assert!(tx_info.validate().is_ok());
    assert_eq!(tx_info.get_tx_type(), TX_TYPE_L2_CANCEL_ORDER);
}

#[test]
fn test_cancel_order_market_index_too_high() {
    let tx_info = L2CancelOrderTxInfo {
        account_index: 12345,
        api_key_index: 0,
        market_index: 1 << 14,
        index: 123456,
        expired_at: 1000000,
        nonce: 1,
        sig: None,
        signed_hash: None,
    };

    let result = tx_info.validate();
    assert!(result.is_err());
    assert!(matches!(
        result.unwrap_err(),
        LighterError::MarketIndexTooHigh(_)
    ));
}

#[test]
fn test_modify_order_validation_success() {
    let tx_info = L2ModifyOrderTxInfo {
        account_index: 12345,
        api_key_index: 0,
        market_index: 0,
        index: 123456,
        base_amount: 2000000,
        price: 105000000,
        trigger_price: 0,
        expired_at: 1000000,
        nonce: 1,
        sig: None,
        signed_hash: None,
    };

    assert!(tx_info.validate().is_ok());
    assert_eq!(tx_info.get_tx_type(), TX_TYPE_L2_MODIFY_ORDER);
}

#[test]
fn test_cancel_all_orders_validation_success() {
    let tx_info = L2CancelAllOrdersTxInfo {
        account_index: 12345,
        api_key_index: 0,
        time_in_force: CANCEL_ALL_IMMEDIATE,
        time: 1000000,
        expired_at: 1000000,
        nonce: 1,
        sig: None,
        signed_hash: None,
    };

    assert!(tx_info.validate().is_ok());
    assert_eq!(tx_info.get_tx_type(), TX_TYPE_L2_CANCEL_ALL_ORDERS);
}

#[test]
fn test_create_grouped_orders_validation_success() {
    let tx_info = L2CreateGroupedOrdersTxInfo {
        account_index: 12345,
        api_key_index: 0,
        grouping_type: GROUPING_TYPE_ONE_CANCELS_THE_OTHER,
        orders: vec![create_valid_order_info(), create_valid_order_info()],
        expired_at: 1000000,
        nonce: 1,
        sig: None,
        signed_hash: None,
    };

    assert!(tx_info.validate().is_ok());
    assert_eq!(tx_info.get_tx_type(), TX_TYPE_L2_CREATE_GROUPED_ORDERS);
}

#[test]
fn test_create_grouped_orders_too_many_orders() {
    let tx_info = L2CreateGroupedOrdersTxInfo {
        account_index: 12345,
        api_key_index: 0,
        grouping_type: GROUPING_TYPE_ONE_CANCELS_THE_OTHER,
        orders: vec![
            create_valid_order_info(),
            create_valid_order_info(),
            create_valid_order_info(),
            create_valid_order_info(),
        ],
        expired_at: 1000000,
        nonce: 1,
        sig: None,
        signed_hash: None,
    };

    let result = tx_info.validate();
    assert!(result.is_err());
    assert!(matches!(
        result.unwrap_err(),
        LighterError::OrderGroupSizeInvalid
    ));
}

#[test]
fn create_order_checks_in_order() {
    let tx = create_test_tx_info_with_account(create_valid_order_info(), (1i64 << 48) - 1, 0, 1);
    assert!(matches!(tx.validate().unwrap_err(), LighterError::AccountIndexTooHigh(v) if v == (1i64 << 48) - 1));

    let mut info = create_valid_order_info();
    info.market_index = 16_383;
    let tx = create_test_tx_info(info);
    assert!(matches!(tx.validate().unwrap_err(), LighterError::MarketIndexTooHigh(16_383)));

    let mut info = create_valid_order_info();
    info.price = 0;
    let tx = create_test_tx_info(info);
    assert!(matches!(tx.validate().unwrap_err(), LighterError::PriceTooLow(0)));

    let mut info = create_valid_order_info();
    info.is_ask = 2;
    let tx = create_test_tx_info(info);
    assert!(matches!(tx.validate().unwrap_err(), LighterError::IsAskInvalid));

    // An account index that is too low is reported before a bad price.
    let mut info = create_valid_order_info();
    info.price = 0;
    let tx = create_test_tx_info_with_account(info, -5, 0, 1);
    assert!(matches!(tx.validate().unwrap_err(), LighterError::AccountIndexTooLow(-5)));
}

#[test]
fn short_transactions_report_account_out_of_range_as_too_low() {
    let tx = L2CancelOrderTxInfo {
        account_index: 1i64 << 48,
        api_key_index: 0,
        market_index: 0,
        index: 1,
        expired_at: 0,
        nonce: 0,
        sig: None,
        signed_hash: None,
    };
    assert!(matches!(tx.validate().unwrap_err(), LighterError::AccountIndexTooLow(v) if v == 1i64 << 48));

    let tx = L2ModifyOrderTxInfo {
        account_index: 1,
        api_key_index: 0,
        market_index: 0,
        index: 1,
        base_amount: 1,
        price: 1,
        trigger_price: 0,
        expired_at: 0,
        nonce: -3,
        sig: None,
        signed_hash: None,
    };
    assert!(matches!(tx.validate().unwrap_err(), LighterError::NonceTooLow(-3)));

    let tx = L2CancelAllOrdersTxInfo {
        account_index: -1,
        api_key_index: 0,
        time_in_force: 0,
        time: 0,
        expired_at: 0,
        nonce: 0,
        sig: None,
        signed_hash: None,
    };
    assert!(matches!(tx.validate().unwrap_err(), LighterError::AccountIndexTooLow(-1)));
}

#[test]
fn validators_accept_exactly_their_ranges() {
    assert!(validate_account_index(0).is_ok());
    assert!(validate_account_index((1i64 << 48) - 2).is_ok());
    assert!(matches!(validate_account_index(-1), Err(LighterError::AccountIndexTooLow(-1))));
    assert!(matches!(
        validate_account_index((1i64 << 48) - 1),
        Err(LighterError::AccountIndexTooHigh(_))
    ));
    assert!(validate_api_key_index(254).is_ok());
    assert!(matches!(validate_api_key_index(255), Err(LighterError::ApiKeyIndexTooHigh(255))));
    assert!(validate_market_index(16_382).is_ok());
    assert!(validate_market_index(-7).is_ok());
    assert!(matches!(validate_market_index(16_383), Err(LighterError::MarketIndexTooHigh(16_383))));
}

#[test]
fn unimplemented_hashes_are_forty_zero_bytes() {
    let tx = L2CancelAllOrdersTxInfo {
        account_index: 1,
        api_key_index: 0,
        time_in_force: 0,
        time: 0,
        expired_at: 0,
        nonce: 0,
        sig: None,
        signed_hash: None,
    };
    assert_eq!(tx.hash(304).unwrap(), vec![0u8; 40]);
    let tx = L2CreateGroupedOrdersTxInfo {
        account_index: 1,
        api_key_index: 0,
        grouping_type: 0,
        orders: vec![],
        expired_at: 0,
        nonce: 0,
        sig: None,
        signed_hash: None,
    };
    assert_eq!(tx.hash(304).unwrap(), vec![0u8; 40]);
}

#[test]
fn create_order_hash_is_poseidon_of_its_fields() {
    let tx = create_test_tx_info(create_valid_order_info());
    let elements = tx.hash_elements(304);
    assert_eq!(
        elements,
        vec![304, 14, 1, 1000000, 12345, 0, 0, 1, 1000000, 100000000, 0, 0, 1, 0, 0, 0]
    );
    let field: Vec<poseidon_hash::Goldilocks> =
        elements.iter().map(|v| poseidon_hash::Goldilocks::from(*v)).collect();
    let expected = poseidon_hash::hash_to_quintic_extension(&field).to_bytes_le().to_vec();
    let hash = tx.hash(304).unwrap();
    assert_eq!(hash.len(), 40);
    assert_eq!(hash, expected);
    // A different chain gives a different hash.
    assert_ne!(tx.hash(300).unwrap(), hash);
}

#[test]
fn cancel_and_modify_hash_inputs_follow_the_protocol_order() {
    let tx = L2CancelOrderTxInfo {
        account_index: 7,
        api_key_index: 3,
        market_index: 2,
        index: 99,
        expired_at: 1000,
        nonce: 5,
        sig: None,
        signed_hash: None,
    };
    assert_eq!(tx.hash_elements(300), vec![300, 15, 5, 1000, 7, 3, 2, 99]);
    assert_eq!(tx.hash(300).unwrap().len(), 40);
    let tx = L2ModifyOrderTxInfo {
        account_index: 7,
        api_key_index: 3,
        market_index: 2,
        index: 99,
        base_amount: 10,
        price: 20,
        trigger_price: 30,
        expired_at: 1000,
        nonce: 5,
        sig: None,
        signed_hash: None,
    };
    assert_eq!(tx.hash_elements(300), vec![300, 17, 5, 1000, 7, 3, 2, 99, 10, 20, 30]);
}

#[test]
fn signature_is_attached_with_hex_of_hash() {
    let mut tx = create_test_tx_info(create_valid_order_info());
    tx.attach_signature(vec![9, 8, 7], &[0x0a, 0xff, 0x10]);
    assert_eq!(tx.sig, Some(vec![9, 8, 7]));
    assert_eq!(tx.get_tx_hash(), Some("0aff10".to_string()));
    assert_eq!(tx.price, 100000000);
}

#[test]
fn default_order_info_is_all_zero() {
    let info = default_order_info();
    assert_eq!(info.market_index, 0);
    assert_eq!(info.client_order_index, 0);
    assert_eq!(info.base_amount, 0);
    assert_eq!(info.price, 0);
    assert_eq!(info.order_expiry, 0);
    assert_eq!(info.trigger_price, 0);
}
