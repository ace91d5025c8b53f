use lighter_rs::errors::LighterError;
use lighter_rs::ws_client::{
    frame_action, FrameAction, LevelUpdate, MarketStates, OrderBook, PriceLevel, WsClient,
    WsClientBuilder, WsMessageType,
};

fn level(price: &str, size: &str) -> PriceLevel {
    PriceLevel { price: price.to_string(), size: size.to_string() }
}

fn update(price: &str, size: &str, positive: bool) -> LevelUpdate {
    LevelUpdate { price: price.to_string(), size: size.to_string(), size_positive: positive }
}

#[test]
fn test_ws_client_builder() {
    let client = WsClient::builder()
        .order_books(vec![0, 1])
        .accounts(vec![12345])
        .build();

    assert!(client.is_ok());
}

#[test]
fn test_ws_client_builder_no_subscriptions() {
    let client = WsClient::builder().build();

    assert!(client.is_err());
    assert!(matches!(
        client.unwrap_err(),
        LighterError::ValidationError(_)
    ));
}

#[test]
fn test_update_price_levels() {
    let mut levels = vec![
        PriceLevel {
            price: "100.0".to_string(),
            size: "10.0".to_string(),
        },
        PriceLevel {
            price: "101.0".to_string(),
            size: "5.0".to_string(),
        },
    ];

    WsClient::update_price_levels(&mut levels, &"100.0".to_string(), &"15.0".to_string(), true).unwrap();

    assert_eq!(levels[0].size, "15.0");
    assert_eq!(levels.len(), 2);
}

#[test]
fn test_update_price_levels_new_level() {
    let mut levels = vec![PriceLevel {
        price: "100.0".to_string(),
        size: "10.0".to_string(),
    }];

    WsClient::update_price_levels(&mut levels, &"102.0".to_string(), &"8.0".to_string(), true).unwrap();

    assert_eq!(levels.len(), 2);
    assert_eq!(levels[1].price, "102.0");
    assert_eq!(levels[1].size, "8.0");
}

#[test]
fn new_level_with_zero_size_is_not_added() {
    let mut levels = vec![level("100.0", "10.0")];
    WsClient::update_price_levels(&mut levels, &"99.0".to_string(), &"0".to_string(), false).unwrap();
    assert_eq!(levels.len(), 1);
    // An existing level takes the new size whatever it is.
    WsClient::update_price_levels(&mut levels, &"100.0".to_string(), &"0".to_string(), false).unwrap();
    assert_eq!(levels[0].size, "0");
}

#[test]
fn builder_makes_url_and_channels() {
    let c = WsClientBuilder::default().markets(vec![7]).order_books(vec![0, 1]).accounts(vec![-2, 12345]).build().unwrap();
    assert_eq!(c.base_url(), "wss://api-testnet.lighter.xyz/stream");
    assert_eq!(
        c.subscription_channels(),
        vec!["order_book/7", "order_book/0", "order_book/1", "account_all/-2", "account_all/12345"]
    );
    let c = WsClient::builder().host("example.org").path("/ws").markets(vec![1]).build().unwrap();
    assert_eq!(c.base_url(), "wss://example.org/ws");
    assert!(matches!(
        WsClient::builder().host("x").build(),
        Err(LighterError::ValidationError(m)) if m == "At least one subscription (order_book or account) is required"
    ));
}

#[test]
fn message_types_are_named_on_the_wire() {
    assert_eq!(WsMessageType::from_wire_name("connected"), Some(WsMessageType::Connected));
    assert_eq!(WsMessageType::from_wire_name("update/order_book"), Some(WsMessageType::UpdateOrderBook));
    assert_eq!(WsMessageType::from_wire_name("subscribed/account_all"), Some(WsMessageType::SubscribedAccount));
    assert_eq!(WsMessageType::from_wire_name("update/market_stats"), Some(WsMessageType::UpdateMarket));
    assert_eq!(WsMessageType::from_wire_name("ping"), None);
}

#[test]
fn order_book_is_kept_and_updated() {
    let mut c = WsClient::builder().order_books(vec![0]).build().unwrap();
    let book = OrderBook { asks: vec![level("101", "2"), level("102", "3")], bids: vec![level("99", "1")] };
    let (key, reported) = c.on_order_book_snapshot("order_book:0", book, vec![true, true], vec![true]);
    assert_eq!(key, "0");
    assert_eq!(reported.asks.len(), 2);
    let kept = c.get_order_book("0").unwrap();
    assert_eq!(kept.asks[1].price, "102");
    assert!(c.get_order_book("1").is_none());

    // Change one ask, remove another, add a bid, and ignore a zero-size new bid.
    let asks = vec![update("101", "5", true), update("102", "0", false)];
    let bids = vec![update("98", "4", true), update("97", "0", false)];
    let (key, reported) = c.on_order_book_update("order_book:0", asks, bids).unwrap();
    assert_eq!(key, "0");
    assert_eq!(reported.asks.len(), 1);
    assert_eq!(reported.asks[0].price, "101");
    assert_eq!(reported.asks[0].size, "5");
    assert_eq!(reported.bids.len(), 2);
    assert_eq!(reported.bids[1].price, "98");
    let kept = c.get_order_book("0").unwrap();
    assert_eq!(kept.asks.len(), 1);
    assert_eq!(kept.bids.len(), 2);

    // A book that is not kept is not updated.
    assert!(c.on_order_book_update("order_book:5", vec![update("1", "1", true)], vec![]).is_none());
    assert!(c.get_order_book("5").is_none());
}

#[test]
fn market_and_account_states_are_kept() {
    let mut c = WsClient::builder().markets(vec![0]).accounts(vec![12345]).build().unwrap();
    let stats = MarketStates {
        market_id: 0,
        index_price: "3000.5".to_string(),
        current_funding_rate: "0.01".to_string(),
        funding_rate: "0.02".to_string(),
        funding_timestamp: 1_700_000_000,
    };
    assert_eq!(c.on_market_stats("market_stats:0", stats), "0");
    assert_eq!(c.get_market("0").unwrap().index_price, "3000.5");
    assert!(c.get_market("1").is_none());

    let key = c.on_account("account_all:12345", "{\"type\":\"update/account_all\"}".to_string());
    assert_eq!(key, "12345");
    assert_eq!(c.get_account("12345").unwrap(), "{\"type\":\"update/account_all\"}");
    c.on_account("account_all:12345", "{}".to_string());
    assert_eq!(c.get_account("12345").unwrap(), "{}");
    assert!(c.get_account("unknown").is_none());
}

#[test]
fn repeated_updates_keep_one_level_per_price() {
    let mut c = WsClient::builder().order_books(vec![2]).build().unwrap();
    c.on_order_book_snapshot("order_book:2", OrderBook { asks: vec![], bids: vec![] }, vec![], vec![]);
    let asks = vec![update("10", "1", true), update("10", "2", true), update("11", "1", true), update("10", "3", true)];
    let (_, book) = c.on_order_book_update("order_book:2", asks, vec![]).unwrap();
    assert_eq!(book.asks.len(), 2);
    assert_eq!(book.asks[0].price, "10");
    assert_eq!(book.asks[0].size, "3");
    assert_eq!(book.asks[1].price, "11");
}

#[test]
fn payload_fields_by_message_type() {
    assert_eq!(WsMessageType::SubscribedMarket.payload_field(), Some("market_stats"));
    assert_eq!(WsMessageType::UpdateMarket.payload_field(), Some("market_stats"));
    assert_eq!(WsMessageType::SubscribedOrderBook.payload_field(), Some("order_book"));
    assert_eq!(WsMessageType::UpdateOrderBook.payload_field(), Some("order_book"));
    assert_eq!(WsMessageType::Connected.payload_field(), None);
    assert_eq!(WsMessageType::UpdateAccount.payload_field(), None);
}

#[test]
fn frames_are_dispatched_by_type_channel_and_payload() {
    assert_eq!(frame_action(Some(WsMessageType::Connected), false, false), FrameAction::Subscribe);
    assert_eq!(frame_action(Some(WsMessageType::UpdateMarket), true, true), FrameAction::StoreMarketStats);
    assert_eq!(frame_action(Some(WsMessageType::SubscribedOrderBook), true, true), FrameAction::StoreBookSnapshot);
    assert_eq!(frame_action(Some(WsMessageType::UpdateOrderBook), true, true), FrameAction::ApplyBookUpdate);
    assert_eq!(frame_action(Some(WsMessageType::SubscribedAccount), true, false), FrameAction::StoreAccount);
}

#[test]
fn frames_without_channel_payload_or_known_type_are_skipped() {
    assert_eq!(frame_action(None, true, true), FrameAction::Skip);
    assert_eq!(frame_action(Some(WsMessageType::UpdateAccount), false, true), FrameAction::Skip);
    assert_eq!(frame_action(Some(WsMessageType::UpdateOrderBook), false, true), FrameAction::Skip);
    assert_eq!(frame_action(Some(WsMessageType::UpdateOrderBook), true, false), FrameAction::Skip);
    assert_eq!(frame_action(Some(WsMessageType::SubscribedMarket), true, false), FrameAction::Skip);
}
