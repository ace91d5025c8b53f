use lighter_rs::constants::{
    API_MAX_ORDER_TYPE, MAX_ACCOUNT_INDEX, MAX_API_KEY_INDEX, MAX_CLIENT_ORDER_INDEX, MAX_MARKET_INDEX,
    MIN_ORDER_INDEX, NIL_API_KEY_INDEX, ORDER_TYPE_LIMIT, ORDER_TYPE_MARKET, ORDER_TYPE_TWAP,
    MAX_INITIAL_TOTAL_SHARES, MIN_INITIAL_TOTAL_SHARES, MAX_WITHDRAWAL_AMOUNT, MAX_EXCHANGE_USDC,
};

#[test]
fn test_order_types() {
    assert_eq!(ORDER_TYPE_LIMIT, 0);
    assert_eq!(ORDER_TYPE_MARKET, 1);
    assert_eq!(API_MAX_ORDER_TYPE, ORDER_TYPE_TWAP);
}

#[test]
fn limits_match_their_bit_widths() {
    assert_eq!(MAX_ACCOUNT_INDEX, (1i64 << 48) - 2);
    assert_eq!(MAX_API_KEY_INDEX as i32, (1 << 8) - 2);
    assert_eq!(NIL_API_KEY_INDEX, MAX_API_KEY_INDEX + 1);
    assert_eq!(MAX_MARKET_INDEX, (1i16 << 14) - 2);
    assert_eq!(MAX_CLIENT_ORDER_INDEX, (1i64 << 48) - 1);
    assert_eq!(MIN_ORDER_INDEX, MAX_CLIENT_ORDER_INDEX + 1);
    assert_eq!(MIN_INITIAL_TOTAL_SHARES, 1_000 * (1_000_000 / 1_000));
    assert_eq!(MAX_INITIAL_TOTAL_SHARES, 1_000_000_000 * (1_000_000 / 1_000));
    assert_eq!(MAX_WITHDRAWAL_AMOUNT, MAX_EXCHANGE_USDC as u64);
}
