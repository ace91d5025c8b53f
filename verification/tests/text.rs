use lighter_rs::text::{channel_key, i64_to_decimal, u64_to_decimal};

#[test]
fn decimals_are_written_like_display() {
    assert_eq!(u64_to_decimal(0), "0");
    assert_eq!(u64_to_decimal(10), "10");
    assert_eq!(u64_to_decimal(u64::MAX), u64::MAX.to_string());
    assert_eq!(i64_to_decimal(-1234), "-1234");
    assert_eq!(i64_to_decimal(i64::MIN), i64::MIN.to_string());
    assert_eq!(i64_to_decimal(i64::MAX), i64::MAX.to_string());
}

#[test]
fn channel_key_is_second_field() {
    assert_eq!(channel_key("order_book:3"), "3");
    assert_eq!(channel_key("account_all:12345:x"), "12345");
    assert_eq!(channel_key("market_stats:"), "");
    assert_eq!(channel_key("order_book/3"), "unknown");
    assert_eq!(channel_key(""), "unknown");
}
