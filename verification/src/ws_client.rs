//! WebSocket streams of the Lighter Protocol: subscriptions, and the market,
//! order book and account state kept from the messages received.
//!
//! The connection and its message loop belong to the application layer;
//! each decoded message is handed to a `WsClient` method, which updates the
//! state and says what is to be reported.

use vstd::prelude::*;
use vstd::pervasive::VecAdditionalExecFns;
use vstd::string::StringExecFns;

use crate::errors::{LighterError, Result};
use crate::text::{channel_key, channel_key_of, decimal_of_int, i64_to_decimal};

verus! {

/// WebSocket message types, by the `type` field of a message.
#[derive(Debug, Clone, Copy, PartialEq, Eq, Structural)]
pub enum WsMessageType {
    Connected,
    SubscribedMarket,
    UpdateMarket,
    SubscribedOrderBook,
    UpdateOrderBook,
    SubscribedAccount,
    UpdateAccount,
}

impl WsMessageType {
    /// The `type` field that names each message type.
    pub open spec fn wire_name(self) -> Seq<char> {
        match self {
            WsMessageType::Connected => "connected"@,
            WsMessageType::SubscribedMarket => "subscribed/market_stats"@,
            WsMessageType::UpdateMarket => "update/market_stats"@,
            WsMessageType::SubscribedOrderBook => "subscribed/order_book"@,
            WsMessageType::UpdateOrderBook => "update/order_book"@,
            WsMessageType::SubscribedAccount => "subscribed/account_all"@,
            WsMessageType::UpdateAccount => "update/account_all"@,
        }
    }

    /// The message type a `type` field names, if any.
    pub fn from_wire_name(name: &str) -> (r: Option<WsMessageType>)
        ensures
            r matches Some(t) ==> t.wire_name() == name@,
            r is None ==> forall|t: WsMessageType| t.wire_name() != name@,
            (r == Some(WsMessageType::Connected)) <==> name@ == "connected"@,
            (r == Some(WsMessageType::SubscribedMarket)) <==> name@ == "subscribed/market_stats"@,
            (r == Some(WsMessageType::UpdateMarket)) <==> name@ == "update/market_stats"@,
            (r == Some(WsMessageType::SubscribedOrderBook)) <==> name@ == "subscribed/order_book"@,
            (r == Some(WsMessageType::UpdateOrderBook)) <==> name@ == "update/order_book"@,
            (r == Some(WsMessageType::SubscribedAccount)) <==> name@ == "subscribed/account_all"@,
            (r == Some(WsMessageType::UpdateAccount)) <==> name@ == "update/account_all"@,
    {
        proof {
            lemma_wire_name_lengths();
        }
        let n = String::from_str(name);
        if n == String::from_str("connected") {
            Some(WsMessageType::Connected)
        } else if n == String::from_str("subscribed/market_stats") {
            Some(WsMessageType::SubscribedMarket)
        } else if n == String::from_str("update/market_stats") {
            Some(WsMessageType::UpdateMarket)
        } else if n == String::from_str("subscribed/order_book") {
            Some(WsMessageType::SubscribedOrderBook)
        } else if n == String::from_str("update/order_book") {
            Some(WsMessageType::UpdateOrderBook)
        } else if n == String::from_str("subscribed/account_all") {
            Some(WsMessageType::SubscribedAccount)
        } else if n == String::from_str("update/account_all") {
            Some(WsMessageType::UpdateAccount)
        } else {
            None
        }
    }
}

/// The protocol strings of the message types have different lengths, so no
/// two of them are equal.
proof fn lemma_wire_name_lengths()
    ensures
        "connected"@.len() == 9,
        "subscribed/market_stats"@.len() == 23,
        "update/market_stats"@.len() == 19,
        "subscribed/order_book"@.len() == 21,
        "update/order_book"@.len() == 17,
        "subscribed/account_all"@.len() == 22,
        "update/account_all"@.len() == 18,
{
    reveal_strlit("connected");
    reveal_strlit("subscribed/market_stats");
    reveal_strlit("update/market_stats");
    reveal_strlit("subscribed/order_book");
    reveal_strlit("update/order_book");
    reveal_strlit("subscribed/account_all");
    reveal_strlit("update/account_all");
}

/// Each message type is named on the wire by its protocol string: the
/// connection message, the market statistics, order book and account
/// streams, each as subscribed and as updated; no two types share a name.
pub proof fn lemma_wire_names_are_protocol_strings()
    ensures
        WsMessageType::Connected.wire_name() == "connected"@,
        WsMessageType::SubscribedMarket.wire_name() == "subscribed/market_stats"@,
        WsMessageType::UpdateMarket.wire_name() == "update/market_stats"@,
        WsMessageType::SubscribedOrderBook.wire_name() == "subscribed/order_book"@,
        WsMessageType::UpdateOrderBook.wire_name() == "update/order_book"@,
        WsMessageType::SubscribedAccount.wire_name() == "subscribed/account_all"@,
        WsMessageType::UpdateAccount.wire_name() == "update/account_all"@,
        forall|a: WsMessageType, b: WsMessageType| #[trigger] a.wire_name() == #[trigger] b.wire_name() ==> a == b,
{
    lemma_wire_name_lengths();
    reveal_strlit("connected");
    reveal_strlit("subscribed/market_stats");
    reveal_strlit("update/market_stats");
    reveal_strlit("subscribed/order_book");
    reveal_strlit("update/order_book");
    reveal_strlit("subscribed/account_all");
    reveal_strlit("update/account_all");
}

impl WsMessageType {
    /// The field of a message of this type that its content is decoded
    /// from, for the types whose content is one field.
    pub open spec fn payload_field_spec(self) -> Option<Seq<char>> {
        match self {
            WsMessageType::SubscribedMarket | WsMessageType::UpdateMarket => Some("market_stats"@),
            WsMessageType::SubscribedOrderBook | WsMessageType::UpdateOrderBook => Some("order_book"@),
            _ => None,
        }
    }

    /// The field of a message of this type that its content is decoded
    /// from, for the types whose content is one field.
    pub fn payload_field(&self) -> (r: Option<&'static str>)
        ensures
            match r {
                Some(f) => self.payload_field_spec() == Some(f@),
                None => self.payload_field_spec() is None,
            },
    {
        match self {
            WsMessageType::SubscribedMarket | WsMessageType::UpdateMarket => Some("market_stats"),
            WsMessageType::SubscribedOrderBook | WsMessageType::UpdateOrderBook => Some("order_book"),
            _ => None,
        }
    }
}

/// What a stream message asks of the client.
#[derive(Debug, Clone, Copy, PartialEq, Eq, Structural)]
pub enum FrameAction {
    /// Send the subscriptions.
    Subscribe,
    /// Keep the market statistics of the message.
    StoreMarketStats,
    /// Keep the whole book of the message and report it.
    StoreBookSnapshot,
    /// Apply the level updates of the message to the book kept, and report
    /// the book.
    ApplyBookUpdate,
    /// Keep the account message and report it.
    StoreAccount,
    /// Nothing: the message is skipped.
    Skip,
}

/// What a message asks of the client, from its type (`None` when the type
/// is missing or not handled), whether it names a channel and whether it
/// has the field its content is decoded from.
pub open spec fn frame_action_of(t: Option<WsMessageType>, has_channel: bool, has_payload: bool) -> FrameAction {
    match t {
        None => FrameAction::Skip,
        Some(WsMessageType::Connected) => FrameAction::Subscribe,
        Some(WsMessageType::SubscribedMarket) | Some(WsMessageType::UpdateMarket) =>
            if has_channel && has_payload { FrameAction::StoreMarketStats } else { FrameAction::Skip },
        Some(WsMessageType::SubscribedOrderBook) =>
            if has_channel && has_payload { FrameAction::StoreBookSnapshot } else { FrameAction::Skip },
        Some(WsMessageType::UpdateOrderBook) =>
            if has_channel && has_payload { FrameAction::ApplyBookUpdate } else { FrameAction::Skip },
        Some(WsMessageType::SubscribedAccount) | Some(WsMessageType::UpdateAccount) =>
            if has_channel { FrameAction::StoreAccount } else { FrameAction::Skip },
    }
}

/// What a message asks of the client, from its type (`None` when the type
/// is missing or not handled), whether it names a channel and whether it
/// has the field its content is decoded from.
pub fn frame_action(t: Option<WsMessageType>, has_channel: bool, has_payload: bool) -> (r: FrameAction)
    ensures
        r == frame_action_of(t, has_channel, has_payload),
{
    match t {
        None => FrameAction::Skip,
        Some(WsMessageType::Connected) => FrameAction::Subscribe,
        Some(WsMessageType::SubscribedMarket) | Some(WsMessageType::UpdateMarket) => {
            if has_channel && has_payload { FrameAction::StoreMarketStats } else { FrameAction::Skip }
        },
        Some(WsMessageType::SubscribedOrderBook) => {
            if has_channel && has_payload { FrameAction::StoreBookSnapshot } else { FrameAction::Skip }
        },
        Some(WsMessageType::UpdateOrderBook) => {
            if has_channel && has_payload { FrameAction::ApplyBookUpdate } else { FrameAction::Skip }
        },
        Some(WsMessageType::SubscribedAccount) | Some(WsMessageType::UpdateAccount) => {
            if has_channel { FrameAction::StoreAccount } else { FrameAction::Skip }
        },
    }
}

/// What a message asks follows the protocol string of its type: the
/// connection message subscribes; a message that names a channel and has
/// its content is kept as market statistics for the market-statistics
/// streams, as a whole book when the order book is subscribed, as level
/// updates when it is updated, and as an account message for the account
/// streams; and the content of the market-statistics streams is read from
/// `market_stats`, that of the order-book streams from `order_book`.
pub proof fn lemma_frame_actions_follow_wire_names(t: WsMessageType, has_channel: bool, has_payload: bool)
    ensures
        t.wire_name() == "connected"@ ==> frame_action_of(Some(t), has_channel, has_payload) == FrameAction::Subscribe,
        has_channel && has_payload ==> {
            &&& (t.wire_name() == "subscribed/market_stats"@ || t.wire_name() == "update/market_stats"@)
                ==> frame_action_of(Some(t), has_channel, has_payload) == FrameAction::StoreMarketStats
            &&& t.wire_name() == "subscribed/order_book"@
                ==> frame_action_of(Some(t), has_channel, has_payload) == FrameAction::StoreBookSnapshot
            &&& t.wire_name() == "update/order_book"@
                ==> frame_action_of(Some(t), has_channel, has_payload) == FrameAction::ApplyBookUpdate
            &&& (t.wire_name() == "subscribed/account_all"@ || t.wire_name() == "update/account_all"@)
                ==> frame_action_of(Some(t), has_channel, has_payload) == FrameAction::StoreAccount
        },
        (t.wire_name() == "subscribed/market_stats"@ || t.wire_name() == "update/market_stats"@)
            ==> t.payload_field_spec() == Some("market_stats"@),
        (t.wire_name() == "subscribed/order_book"@ || t.wire_name() == "update/order_book"@)
            ==> t.payload_field_spec() == Some("order_book"@),
{
    lemma_wire_names_are_protocol_strings();
}

/// A message is skipped exactly when its type is missing or not handled,
/// or it names no channel (the connection message aside), or it lacks the
/// field its content is decoded from.
pub proof fn lemma_skipped_frames(t: Option<WsMessageType>, has_channel: bool, has_payload: bool)
    ensures
        (frame_action_of(t, has_channel, has_payload) == FrameAction::Skip) <==> {
            ||| t is None
            ||| (t != Some(WsMessageType::Connected) && !has_channel)
            ||| (t matches Some(m) && m.payload_field_spec() is Some && !has_payload)
        },
{
}

/// Market states data structure
#[derive(Debug, Clone)]
pub struct MarketStates {
    pub market_id: u32,
    pub index_price: String,
    pub current_funding_rate: String,
    pub funding_rate: String,
    pub funding_timestamp: u64,
}

impl MarketStates {
    /// A copy, equal to the original.
    pub fn copy(&self) -> (r: MarketStates)
        ensures
            r == *self,
    {
        MarketStates {
            market_id: self.market_id,
            index_price: self.index_price.clone(),
            current_funding_rate: self.current_funding_rate.clone(),
            funding_rate: self.funding_rate.clone(),
            funding_timestamp: self.funding_timestamp,
        }
    }
}

/// Order book data structure
#[derive(Debug, Clone)]
pub struct OrderBook {
    pub asks: Vec<PriceLevel>,
    pub bids: Vec<PriceLevel>,
}

/// Price level in order book
#[derive(Debug, Clone)]
pub struct PriceLevel {
    pub price: String,
    pub size: String,
}

/// A copy of a list of price levels, equal to it.
fn copy_levels(levels: &Vec<PriceLevel>) -> (r: Vec<PriceLevel>)
    ensures
        r@ == levels@,
{
    let mut out: Vec<PriceLevel> = Vec::new();
    let n = levels.len();
    let mut i: usize = 0;
    while i < n
        invariant
            n == levels@.len(),
            i <= n,
            out@ == levels@.take(i as int),
        decreases n - i,
    {
        let level = PriceLevel { price: levels[i].price.clone(), size: levels[i].size.clone() };
        out.push(level);
        i = i + 1;
        assert(out@ =~= levels@.take(i as int));
    }
    assert(levels@.take(n as int) =~= levels@);
    out
}

/// A copy of a list of flags, equal to it.
fn copy_flags(flags: &Vec<bool>) -> (r: Vec<bool>)
    ensures
        r@ == flags@,
{
    let mut out: Vec<bool> = Vec::new();
    let n = flags.len();
    let mut i: usize = 0;
    while i < n
        invariant
            n == flags@.len(),
            i <= n,
            out@ == flags@.take(i as int),
        decreases n - i,
    {
        out.push(flags[i]);
        i = i + 1;
        assert(out@ =~= flags@.take(i as int));
    }
    assert(flags@.take(n as int) =~= flags@);
    out
}

impl OrderBook {
    /// A copy, equal to the original.
    pub fn copy(&self) -> (r: OrderBook)
        ensures
            r.asks@ == self.asks@,
            r.bids@ == self.bids@,
    {
        OrderBook { asks: copy_levels(&self.asks), bids: copy_levels(&self.bids) }
    }
}

/// The position of the first level at `price`, or the number of levels
/// when there is none.
pub open spec fn level_position(levels: Seq<PriceLevel>, price: Seq<char>) -> nat
    decreases levels.len(),
{
    if levels.len() == 0 {
        0
    } else if levels[0].price@ == price {
        0
    } else {
        1 + level_position(levels.drop_first(), price)
    }
}

proof fn lemma_level_position(levels: Seq<PriceLevel>, price: Seq<char>, k: int)
    requires
        0 <= k <= levels.len(),
        forall|i: int| 0 <= i < k ==> levels[i].price@ != price,
        k == levels.len() || levels[k].price@ == price,
    ensures
        level_position(levels, price) == k,
    decreases levels.len(),
{
    if levels.len() > 0 && k > 0 {
        assert forall|i: int| 0 <= i < k - 1 implies levels.drop_first()[i].price@ != price by {
            assert(levels.drop_first()[i] == levels[i + 1]);
        }
        lemma_level_position(levels.drop_first(), price, k - 1);
    }
}

/// The levels after an update of the level at `price`: the first level at
/// that price takes the new size; when there is none, a level is added at
/// the end if the new size is positive.
pub open spec fn updated_levels(levels: Seq<PriceLevel>, price: String, size: String, size_positive: bool) -> Seq<PriceLevel> {
    let k = level_position(levels, price@);
    if k < levels.len() {
        levels.update(k as int, PriceLevel { price: levels[k as int].price, size })
    } else if size_positive {
        levels.push(PriceLevel { price, size })
    } else {
        levels
    }
}

/// Updates the level at `price`, and returns the position of the level
/// that took the new size, if one did.
fn apply_level_update(levels: &mut Vec<PriceLevel>, price: &String, size: &String, size_positive: bool) -> (r: Option<usize>)
    ensures
        final(levels)@ == updated_levels(old(levels)@, *price, *size, size_positive),
        r matches Some(k) ==> k == level_position(old(levels)@, price@) && k < old(levels)@.len(),
        r is None ==> level_position(old(levels)@, price@) >= old(levels)@.len(),
{
    let n = levels.len();
    let ghost original = levels@;
    let mut i: usize = 0;
    while i < n
        invariant
            levels@ == original,
            original == old(levels)@,
            n == levels@.len(),
            i <= n,
            forall|j: int| 0 <= j < i ==> levels@[j].price@ != price@,
        decreases n - i,
    {
        if levels[i].price == *price {
            proof {
                lemma_level_position(levels@, price@, i as int);
            }
            let kept_price = levels[i].price.clone();
            levels.set(i, PriceLevel { price: kept_price, size: size.clone() });
            return Some(i);
        }
        i = i + 1;
    }
    proof {
        lemma_level_position(levels@, price@, n as int);
    }
    if size_positive {
        levels.push(PriceLevel { price: price.clone(), size: size.clone() });
    }
    None
}

/// No two levels have the same price.
pub open spec fn distinct_prices(levels: Seq<PriceLevel>) -> bool {
    forall|i: int, j: int| 0 <= i < levels.len() && 0 <= j < levels.len() && i != j
        ==> levels[i].price@ != levels[j].price@
}

} // verus!

verus! {

/// An update of one price level, as a stream message carries it; whether
/// the new size is a positive number is decided where the message is read.
#[derive(Debug, Clone)]
pub struct LevelUpdate {
    pub price: String,
    pub size: String,
    pub size_positive: bool,
}

/// The flags of the levels after an update of the level at `price`: the
/// level that takes the new size takes its sign too.
pub open spec fn updated_flags(levels: Seq<PriceLevel>, flags: Seq<bool>, price: Seq<char>, size_positive: bool) -> Seq<bool> {
    let k = level_position(levels, price);
    if k < levels.len() {
        flags.update(k as int, size_positive)
    } else if size_positive {
        flags.push(true)
    } else {
        flags
    }
}

/// One side of a book, with the flags of which sizes are positive, after a
/// list of updates applied in order.
pub open spec fn side_after(levels: Seq<PriceLevel>, flags: Seq<bool>, updates: Seq<LevelUpdate>) -> (Seq<PriceLevel>, Seq<bool>)
    decreases updates.len(),
{
    if updates.len() == 0 {
        (levels, flags)
    } else {
        let (l, f) = side_after(levels, flags, updates.drop_last());
        let u = updates.last();
        (updated_levels(l, u.price, u.size, u.size_positive), updated_flags(l, f, u.price@, u.size_positive))
    }
}

/// The levels whose flag is set, in order.
pub open spec fn kept_levels(levels: Seq<PriceLevel>, flags: Seq<bool>) -> Seq<PriceLevel>
    decreases levels.len(),
{
    if levels.len() == 0 {
        Seq::empty()
    } else {
        let rest = kept_levels(levels.drop_last(), flags.take(levels.len() - 1));
        if flags[levels.len() - 1] {
            rest.push(levels.last())
        } else {
            rest
        }
    }
}

/// An order book, with a flag for each level that says whether its size is
/// a positive number.
#[derive(Debug)]
pub struct BookState {
    book: OrderBook,
    ask_positive: Vec<bool>,
    bid_positive: Vec<bool>,
}

impl BookState {
    /// Each level has its flag.
    pub closed spec fn wf(&self) -> bool {
        &&& self.ask_positive@.len() == self.book.asks@.len()
        &&& self.bid_positive@.len() == self.book.bids@.len()
    }

    pub closed spec fn asks(&self) -> Seq<PriceLevel> {
        self.book.asks@
    }

    pub closed spec fn bids(&self) -> Seq<PriceLevel> {
        self.book.bids@
    }

    pub closed spec fn ask_flags(&self) -> Seq<bool> {
        self.ask_positive@
    }

    pub closed spec fn bid_flags(&self) -> Seq<bool> {
        self.bid_positive@
    }

    /// The state of a book received whole, with the sign of each level's size.
    pub fn new(book: OrderBook, ask_positive: Vec<bool>, bid_positive: Vec<bool>) -> (r: BookState)
        requires
            ask_positive@.len() == book.asks@.len(),
            bid_positive@.len() == book.bids@.len(),
        ensures
            r.wf(),
            r.asks() == book.asks@,
            r.bids() == book.bids@,
            r.ask_flags() == ask_positive@,
            r.bid_flags() == bid_positive@,
    {
        BookState { book, ask_positive, bid_positive }
    }

    /// A copy of the book.
    pub fn book(&self) -> (r: OrderBook)
        ensures
            r.asks@ == self.asks(),
            r.bids@ == self.bids(),
    {
        self.book.copy()
    }

    fn duplicate(&self) -> (r: BookState)
        ensures
            r.asks() == self.asks(),
            r.bids() == self.bids(),
            r.ask_flags() == self.ask_flags(),
            r.bid_flags() == self.bid_flags(),
    {
        BookState {
            book: self.book.copy(),
            ask_positive: copy_flags(&self.ask_positive),
            bid_positive: copy_flags(&self.bid_positive),
        }
    }

    /// Applies the level updates of one side, in order.
    fn update_side(levels: &mut Vec<PriceLevel>, flags: &mut Vec<bool>, updates: &Vec<LevelUpdate>)
        requires
            old(flags)@.len() == old(levels)@.len(),
        ensures
            (final(levels)@, final(flags)@) == side_after(old(levels)@, old(flags)@, updates@),
            final(flags)@.len() == final(levels)@.len(),
    {
        let ghost l0 = levels@;
        let ghost f0 = flags@;
        let n = updates.len();
        let mut i: usize = 0;
        while i < n
            invariant
                n == updates@.len(),
                i <= n,
                (levels@, flags@) == side_after(l0, f0, updates@.take(i as int)),
                flags@.len() == levels@.len(),
            decreases n - i,
        {
            let u = &updates[i];
            let ghost before = levels@;
            let found = apply_level_update(levels, &u.price, &u.size, u.size_positive);
            match found {
                Some(k) => {
                    flags.set(k, u.size_positive);
                },
                None => {
                    if u.size_positive {
                        flags.push(true);
                    }
                },
            }
            proof {
                assert(updates@.take(i + 1).drop_last() =~= updates@.take(i as int));
                assert(updates@.take(i + 1).last() == updates@[i as int]);
            }
            i = i + 1;
        }
        assert(updates@.take(n as int) =~= updates@);
    }

    /// Keeps the levels whose flag is set.
    fn retain_positive(levels: &mut Vec<PriceLevel>, flags: &mut Vec<bool>)
        requires
            old(flags)@.len() == old(levels)@.len(),
        ensures
            final(levels)@ == kept_levels(old(levels)@, old(flags)@),
            final(flags)@ == Seq::new(final(levels)@.len(), |i: int| true),
    {
        let mut kept: Vec<PriceLevel> = Vec::new();
        let mut kept_flags: Vec<bool> = Vec::new();
        let n = levels.len();
        let mut i: usize = 0;
        while i < n
            invariant
                n == levels@.len(),
                flags@.len() == n,
                i <= n,
                kept@ == kept_levels(levels@.take(i as int), flags@.take(i as int)),
                kept_flags@ == Seq::new(kept@.len(), |j: int| true),
            decreases n - i,
        {
            proof {
                assert(levels@.take(i + 1).drop_last() =~= levels@.take(i as int));
                assert(flags@.take(i + 1).take(i as int) =~= flags@.take(i as int));
            }
            if flags[i] {
                let level = PriceLevel { price: levels[i].price.clone(), size: levels[i].size.clone() };
                kept.push(level);
                kept_flags.push(true);
            }
            i = i + 1;
            assert(kept_flags@ =~= Seq::new(kept@.len(), |j: int| true));
        }
        proof {
            assert(levels@.take(n as int) =~= levels@);
            assert(flags@.take(n as int) =~= flags@);
        }
        *levels = kept;
        *flags = kept_flags;
    }

    /// Applies the updates of a book: first the asks, then the bids, each
    /// in order; then drops every level whose size is not positive.
    pub fn apply_update(&mut self, asks: &Vec<LevelUpdate>, bids: &Vec<LevelUpdate>)
        requires
            old(self).wf(),
        ensures
            final(self).wf(),
            final(self).asks() == kept_levels(side_after(old(self).asks(), old(self).ask_flags(), asks@).0,
                side_after(old(self).asks(), old(self).ask_flags(), asks@).1),
            final(self).bids() == kept_levels(side_after(old(self).bids(), old(self).bid_flags(), bids@).0,
                side_after(old(self).bids(), old(self).bid_flags(), bids@).1),
            final(self).ask_flags() == Seq::new(final(self).asks().len(), |i: int| true),
            final(self).bid_flags() == Seq::new(final(self).bids().len(), |i: int| true),
    {
        BookState::update_side(&mut self.book.asks, &mut self.ask_positive, asks);
        BookState::update_side(&mut self.book.bids, &mut self.bid_positive, bids);
        BookState::retain_positive(&mut self.book.asks, &mut self.ask_positive);
        BookState::retain_positive(&mut self.book.bids, &mut self.bid_positive);
    }
}

} // verus!

verus! {

/// Values kept by string key; a later value for a key replaces the earlier.
#[derive(Debug)]
pub struct KeyedStore<T> {
    entries: Vec<(String, T)>,
}

impl<T> KeyedStore<T> {
    /// No key is held twice.
    pub closed spec fn wf(&self) -> bool {
        forall|i: int, j: int| 0 <= i < self.entries@.len() && 0 <= j < self.entries@.len() && i != j
            ==> self.entries@[i].0@ != self.entries@[j].0@
    }

    pub closed spec fn holds(&self, key: Seq<char>) -> bool {
        exists|i: int| 0 <= i < self.entries@.len() && self.entries@[i].0@ == key
    }

    closed spec fn index_of(&self, key: Seq<char>) -> int {
        choose|i: int| 0 <= i < self.entries@.len() && self.entries@[i].0@ == key
    }

    /// The value kept for a key.
    pub closed spec fn value(&self, key: Seq<char>) -> T {
        self.entries@[self.index_of(key)].1
    }

    /// The keys and values kept.
    pub open spec fn as_map(&self) -> Map<Seq<char>, T> {
        Map::new(|k: Seq<char>| self.holds(k), |k: Seq<char>| self.value(k))
    }

    /// An empty store.
    pub fn new() -> (r: KeyedStore<T>)
        ensures
            r.wf(),
            r.as_map() == Map::<Seq<char>, T>::empty(),
    {
        let r = KeyedStore { entries: Vec::new() };
        assert(r.as_map() =~= Map::<Seq<char>, T>::empty());
        r
    }

    fn find(&self, key: &String) -> (r: Option<usize>)
        requires
            self.wf(),
        ensures
            r matches Some(i) ==> i < self.entries@.len() && self.entries@[i as int].0@ == key@
                && self.index_of(key@) == i,
            r is None ==> !self.holds(key@),
    {
        let n = self.entries.len();
        let mut i: usize = 0;
        while i < n
            invariant
                self.wf(),
                n == self.entries@.len(),
                i <= n,
                forall|j: int| 0 <= j < i ==> self.entries@[j].0@ != key@,
            decreases n - i,
        {
            if self.entries[i].0 == *key {
                proof {
                    assert(self.holds(key@));
                    let c = self.index_of(key@);
                    assert(0 <= c < n && self.entries@[c].0@ == key@);
                    assert(self.entries@[i as int].0@ == key@);
                    if c != i as int {
                        assert(self.entries@[c].0@ != self.entries@[i as int].0@);
                    }
                }
                return Some(i);
            }
            i = i + 1;
        }
        None
    }

    /// The value kept for a key, if there is one.
    pub fn get(&self, key: &String) -> (r: Option<&T>)
        requires
            self.wf(),
        ensures
            r matches Some(v) ==> self.as_map().contains_key(key@) && *v == self.as_map()[key@],
            r is None ==> !self.as_map().contains_key(key@),
    {
        match self.find(key) {
            Some(i) => Some(&self.entries[i].1),
            None => None,
        }
    }

    /// Keeps `value` for `key`, in place of any earlier value.
    pub fn insert(&mut self, key: String, value: T)
        requires
            old(self).wf(),
        ensures
            final(self).wf(),
            final(self).as_map() == old(self).as_map().insert(key@, value),
    {
        let ghost old_map = self.as_map();
        let ghost k = key@;
        match self.find(&key) {
            Some(i) => {
                self.entries.set(i, (key, value));
                proof {
                    assert forall|kk: Seq<char>| #[trigger] self.holds(kk) == old(self).holds(kk) by {
                        if old(self).holds(kk) {
                            let w = choose|j: int| 0 <= j < old(self).entries@.len() && old(self).entries@[j].0@ == kk;
                            assert(self.entries@[w].0@ == kk);
                        }
                        if self.holds(kk) {
                            let w = choose|j: int| 0 <= j < self.entries@.len() && self.entries@[j].0@ == kk;
                            assert(old(self).entries@[w].0@ == kk);
                        }
                    }
                    assert forall|kk: Seq<char>| self.holds(kk) && kk != k implies #[trigger] self.value(kk) == old(self).value(kk) by {
                        let a = self.index_of(kk);
                        let b = old(self).index_of(kk);
                        assert(old(self).entries@[a].0@ == kk);
                    }
                    assert(self.entries@[i as int].0@ == k);
                    assert(self.holds(k));
                    let c = self.index_of(k);
                    assert(0 <= c < self.entries@.len() && self.entries@[c].0@ == k);
                    assert(self.index_of(k) == i);
                    assert(self.as_map() =~= old_map.insert(k, value));
                }
            },
            None => {
                self.entries.push((key, value));
                proof {
                    let n = old(self).entries@.len();
                    assert(self.entries@[n as int].0@ == k);
                    assert forall|kk: Seq<char>| #[trigger] self.holds(kk) == (old(self).holds(kk) || kk == k) by {
                        if old(self).holds(kk) {
                            let w = choose|j: int| 0 <= j < old(self).entries@.len() && old(self).entries@[j].0@ == kk;
                            assert(self.entries@[w].0@ == kk);
                        }
                        if self.holds(kk) && kk != k {
                            let w = choose|j: int| 0 <= j < self.entries@.len() && self.entries@[j].0@ == kk;
                            assert(w != n);
                            assert(old(self).entries@[w].0@ == kk);
                        }
                    }
                    assert forall|kk: Seq<char>| self.holds(kk) && kk != k implies #[trigger] self.value(kk) == old(self).value(kk) by {
                        let a = self.index_of(kk);
                        assert(a != n);
                        assert(old(self).entries@[a].0@ == kk);
                    }
                    assert(self.holds(k));
                    let c = self.index_of(k);
                    assert(0 <= c < self.entries@.len() && self.entries@[c].0@ == k);
                    assert(self.index_of(k) == n);
                    assert(self.as_map() =~= old_map.insert(k, value));
                }
            },
        }
    }
}

} // verus!

verus! {

/// WebSocket client configuration
#[derive(Debug)]
pub struct WsClientBuilder {
    host: Option<String>,
    path: String,
    market_ids: Vec<u32>,
    order_book_ids: Vec<u32>,
    account_ids: Vec<i64>,
}

impl WsClientBuilder {
    pub closed spec fn host_opt(&self) -> Option<Seq<char>> {
        match self.host {
            Some(h) => Some(h@),
            None => None,
        }
    }

    pub closed spec fn path_spec(&self) -> Seq<char> {
        self.path@
    }

    pub closed spec fn markets_spec(&self) -> Seq<u32> {
        self.market_ids@
    }

    pub closed spec fn order_books_spec(&self) -> Seq<u32> {
        self.order_book_ids@
    }

    pub closed spec fn accounts_spec(&self) -> Seq<i64> {
        self.account_ids@
    }

    /// Create a new WebSocket client builder: default host, path `/stream`,
    /// no subscription.
    pub fn new() -> (r: Self)
        ensures
            r.host_opt() is None,
            r.path_spec() == "/stream"@,
            r.markets_spec() == Seq::<u32>::empty(),
            r.order_books_spec() == Seq::<u32>::empty(),
            r.accounts_spec() == Seq::<i64>::empty(),
    {
        WsClientBuilder {
            host: None,
            path: String::from_str("/stream"),
            market_ids: Vec::new(),
            order_book_ids: Vec::new(),
            account_ids: Vec::new(),
        }
    }

    /// Set the WebSocket host (defaults to testnet)
    pub fn host(self, host: &str) -> (r: Self)
        ensures
            r.host_opt() == Some(host@),
            r.path_spec() == self.path_spec(),
            r.markets_spec() == self.markets_spec(),
            r.order_books_spec() == self.order_books_spec(),
            r.accounts_spec() == self.accounts_spec(),
    {
        WsClientBuilder { host: Some(String::from_str(host)), ..self }
    }

    /// Set the WebSocket path (defaults to "/stream")
    pub fn path(self, path: &str) -> (r: Self)
        ensures
            r.host_opt() == self.host_opt(),
            r.path_spec() == path@,
            r.markets_spec() == self.markets_spec(),
            r.order_books_spec() == self.order_books_spec(),
            r.accounts_spec() == self.accounts_spec(),
    {
        WsClientBuilder { path: String::from_str(path), ..self }
    }

    /// Subscribe to order book updates for specific markets
    pub fn markets(self, ids: Vec<u32>) -> (r: Self)
        ensures
            r.host_opt() == self.host_opt(),
            r.path_spec() == self.path_spec(),
            r.markets_spec() == ids@,
            r.order_books_spec() == self.order_books_spec(),
            r.accounts_spec() == self.accounts_spec(),
    {
        WsClientBuilder { market_ids: ids, ..self }
    }

    /// Subscribe to order book updates for specific markets
    pub fn order_books(self, ids: Vec<u32>) -> (r: Self)
        ensures
            r.host_opt() == self.host_opt(),
            r.path_spec() == self.path_spec(),
            r.markets_spec() == self.markets_spec(),
            r.order_books_spec() == ids@,
            r.accounts_spec() == self.accounts_spec(),
    {
        WsClientBuilder { order_book_ids: ids, ..self }
    }

    /// Subscribe to account updates for specific accounts
    pub fn accounts(self, ids: Vec<i64>) -> (r: Self)
        ensures
            r.host_opt() == self.host_opt(),
            r.path_spec() == self.path_spec(),
            r.markets_spec() == self.markets_spec(),
            r.order_books_spec() == self.order_books_spec(),
            r.accounts_spec() == ids@,
    {
        WsClientBuilder { account_ids: ids, ..self }
    }

    /// Build the WebSocket client. At least one subscription is required;
    /// the URL is `wss://`, the host (testnet by default), then the path.
    pub fn build(self) -> (r: Result<WsClient>)
        ensures
            (self.markets_spec().len() == 0 && self.order_books_spec().len() == 0 && self.accounts_spec().len() == 0)
                ==> (r matches Err(LighterError::ValidationError(m))
                    && m@ == "At least one subscription (order_book or account) is required"@),
            (self.markets_spec().len() > 0 || self.order_books_spec().len() > 0 || self.accounts_spec().len() > 0)
                ==> (r matches Ok(c) && {
                    &&& c.wf()
                    &&& c.url() == "wss://"@ + match self.host_opt() {
                        Some(h) => h,
                        None => "api-testnet.lighter.xyz"@,
                    } + self.path_spec()
                    &&& c.markets_spec() == self.markets_spec()
                    &&& c.order_books_spec() == self.order_books_spec()
                    &&& c.accounts_spec() == self.accounts_spec()
                    &&& c.market_states() == Map::<Seq<char>, MarketStates>::empty()
                    &&& c.book_states() == Map::<Seq<char>, BookState>::empty()
                    &&& c.account_states() == Map::<Seq<char>, String>::empty()
                }),
    {
        if self.order_book_ids.len() == 0 && self.account_ids.len() == 0 && self.market_ids.len() == 0 {
            return Err(LighterError::ValidationError(
                String::from_str("At least one subscription (order_book or account) is required"),
            ));
        }
        let host = match self.host {
            Some(h) => h,
            None => String::from_str("api-testnet.lighter.xyz"),
        };
        let mut base_url = String::from_str("wss://");
        base_url.append(host.as_str());
        base_url.append(self.path.as_str());
        Ok(WsClient {
            base_url,
            market_ids: self.market_ids,
            order_book_ids: self.order_book_ids,
            account_ids: self.account_ids,
            market_states: KeyedStore::new(),
            order_book_states: KeyedStore::new(),
            account_states: KeyedStore::new(),
        })
    }
}

impl Default for WsClientBuilder {
    fn default() -> (r: Self)
        ensures
            r.host_opt() is None,
            r.path_spec() == "/stream"@,
            r.markets_spec() == Seq::<u32>::empty(),
            r.order_books_spec() == Seq::<u32>::empty(),
            r.accounts_spec() == Seq::<i64>::empty(),
    {
        Self::new()
    }
}

/// WebSocket client state for Lighter Protocol streams
#[derive(Debug)]
pub struct WsClient {
    base_url: String,
    market_ids: Vec<u32>,
    order_book_ids: Vec<u32>,
    account_ids: Vec<i64>,
    market_states: KeyedStore<MarketStates>,
    order_book_states: KeyedStore<BookState>,
    account_states: KeyedStore<String>,
}

/// The channel names of a list of ids: the stream's prefix, then the id in
/// decimal.
pub open spec fn channels(prefix: Seq<char>, ids: Seq<int>) -> Seq<Seq<char>> {
    ids.map_values(|id: int| prefix + decimal_of_int(id))
}

impl WsClient {
    /// The stores are well formed, and each kept book has a flag per level.
    pub closed spec fn wf(&self) -> bool {
        &&& self.market_states.wf()
        &&& self.order_book_states.wf()
        &&& self.account_states.wf()
        &&& forall|k: Seq<char>| #[trigger] self.order_book_states.as_map().contains_key(k)
            ==> self.order_book_states.as_map()[k].wf()
    }

    pub closed spec fn url(&self) -> Seq<char> {
        self.base_url@
    }

    pub closed spec fn markets_spec(&self) -> Seq<u32> {
        self.market_ids@
    }

    pub closed spec fn order_books_spec(&self) -> Seq<u32> {
        self.order_book_ids@
    }

    pub closed spec fn accounts_spec(&self) -> Seq<i64> {
        self.account_ids@
    }

    /// The latest market statistics, by market key.
    pub closed spec fn market_states(&self) -> Map<Seq<char>, MarketStates> {
        self.market_states.as_map()
    }

    /// The books kept, by market key.
    pub closed spec fn book_states(&self) -> Map<Seq<char>, BookState> {
        self.order_book_states.as_map()
    }

    /// The latest account messages, by account key.
    pub closed spec fn account_states(&self) -> Map<Seq<char>, String> {
        self.account_states.as_map()
    }

    /// Create a new WebSocket client builder
    pub fn builder() -> (r: WsClientBuilder)
        ensures
            r.host_opt() is None,
            r.path_spec() == "/stream"@,
            r.markets_spec() == Seq::<u32>::empty(),
            r.order_books_spec() == Seq::<u32>::empty(),
            r.accounts_spec() == Seq::<i64>::empty(),
    {
        WsClientBuilder::new()
    }

    /// The URL to connect to.
    pub fn base_url(&self) -> (r: &String)
        ensures
            r@ == self.url(),
    {
        &self.base_url
    }

    /// The channels to subscribe to once connected: the order book of each
    /// market given to `markets`, then of each market given to
    /// `order_books`, then each account, each in the order given.
    pub fn subscription_channels(&self) -> (r: Vec<String>)
        ensures
            r@.map_values(|s: String| s@)
                == channels("order_book/"@, self.markets_spec().map_values(|id: u32| id as int))
                + channels("order_book/"@, self.order_books_spec().map_values(|id: u32| id as int))
                + channels("account_all/"@, self.accounts_spec().map_values(|id: i64| id as int)),
    {
        let mut out: Vec<String> = Vec::new();
        let ghost markets = channels("order_book/"@, self.market_ids@.map_values(|id: u32| id as int));
        let ghost books = channels("order_book/"@, self.order_book_ids@.map_values(|id: u32| id as int));
        let ghost accounts = channels("account_all/"@, self.account_ids@.map_values(|id: i64| id as int));
        let n = self.market_ids.len();
        let mut i: usize = 0;
        while i < n
            invariant
                n == self.market_ids@.len(),
                i <= n,
                markets == channels("order_book/"@, self.market_ids@.map_values(|id: u32| id as int)),
                out@.map_values(|s: String| s@) == markets.take(i as int),
            decreases n - i,
        {
            let mut ch = String::from_str("order_book/");
            let id = i64_to_decimal(self.market_ids[i] as i64);
            ch.append(id.as_str());
            let ghost before = out@;
            proof {
                assert(markets[i as int] == ch@);
            }
            out.push(ch);
            proof {
                assert(out@.map_values(|s: String| s@) =~= before.map_values(|s: String| s@).push(markets[i as int]));
            }
            i = i + 1;
            assert(out@.map_values(|s: String| s@) =~= markets.take(i as int));
        }
        assert(markets.take(n as int) =~= markets);
        let m = self.order_book_ids.len();
        let mut j: usize = 0;
        while j < m
            invariant
                m == self.order_book_ids@.len(),
                j <= m,
                books == channels("order_book/"@, self.order_book_ids@.map_values(|id: u32| id as int)),
                out@.map_values(|s: String| s@) == markets + books.take(j as int),
            decreases m - j,
        {
            let mut ch = String::from_str("order_book/");
            let id = i64_to_decimal(self.order_book_ids[j] as i64);
            ch.append(id.as_str());
            let ghost before = out@;
            proof {
                assert(books[j as int] == ch@);
            }
            out.push(ch);
            proof {
                assert(out@.map_values(|s: String| s@) =~= before.map_values(|s: String| s@).push(books[j as int]));
            }
            j = j + 1;
            assert(out@.map_values(|s: String| s@) =~= markets + books.take(j as int));
        }
        assert(books.take(m as int) =~= books);
        let p = self.account_ids.len();
        let mut k: usize = 0;
        while k < p
            invariant
                p == self.account_ids@.len(),
                k <= p,
                accounts == channels("account_all/"@, self.account_ids@.map_values(|id: i64| id as int)),
                out@.map_values(|s: String| s@) == markets + books + accounts.take(k as int),
            decreases p - k,
        {
            let mut ch = String::from_str("account_all/");
            let id = i64_to_decimal(self.account_ids[k]);
            ch.append(id.as_str());
            let ghost before = out@;
            proof {
                assert(accounts[k as int] == ch@);
            }
            out.push(ch);
            proof {
                assert(out@.map_values(|s: String| s@) =~= before.map_values(|s: String| s@).push(accounts[k as int]));
            }
            k = k + 1;
            assert(out@.map_values(|s: String| s@) =~= markets + books + accounts.take(k as int));
        }
        assert(accounts.take(p as int) =~= accounts);
        out
    }
}

} // verus!

verus! {

impl WsClient {
    /// The two clients subscribe to the same streams at the same URL.
    pub open spec fn same_config(&self, other: &WsClient) -> bool {
        &&& self.url() == other.url()
        &&& self.markets_spec() == other.markets_spec()
        &&& self.order_books_spec() == other.order_books_spec()
        &&& self.accounts_spec() == other.accounts_spec()
    }

    /// Update a specific price level: the first level at `price` takes the
    /// new size; when there is none, a level is added if the size is
    /// positive.
    pub fn update_price_levels(levels: &mut Vec<PriceLevel>, price: &String, size: &String, size_positive: bool) -> (r: Result<()>)
        ensures
            final(levels)@ == updated_levels(old(levels)@, *price, *size, size_positive),
            r is Ok,
    {
        let _ = apply_level_update(levels, price, size, size_positive);
        Ok(())
    }

    /// Keeps the market statistics of a market-stats message (subscribed or
    /// update) under the channel's key, and returns the key.
    pub fn on_market_stats(&mut self, channel: &str, stats: MarketStates) -> (key: String)
        requires
            old(self).wf(),
        ensures
            final(self).wf(),
            final(self).same_config(&*old(self)),
            key@ == channel_key_of(channel@),
            final(self).market_states() == old(self).market_states().insert(key@, stats),
            final(self).book_states() == old(self).book_states(),
            final(self).account_states() == old(self).account_states(),
    {
        let key = channel_key(channel);
        self.market_states.insert(key.clone(), stats);
        key
    }

    /// Keeps the whole book of an order-book subscription message under the
    /// channel's key, with the sign of each level's size, and returns the
    /// key and the book to report.
    pub fn on_order_book_snapshot(&mut self, channel: &str, book: OrderBook, ask_positive: Vec<bool>, bid_positive: Vec<bool>) -> (r: (String, OrderBook))
        requires
            old(self).wf(),
            ask_positive@.len() == book.asks@.len(),
            bid_positive@.len() == book.bids@.len(),
        ensures
            final(self).wf(),
            final(self).same_config(&*old(self)),
            r.0@ == channel_key_of(channel@),
            final(self).book_states() == old(self).book_states().insert(r.0@, final(self).book_states()[r.0@]),
            final(self).book_states()[r.0@].asks() == book.asks@,
            final(self).book_states()[r.0@].bids() == book.bids@,
            final(self).book_states()[r.0@].ask_flags() == ask_positive@,
            final(self).book_states()[r.0@].bid_flags() == bid_positive@,
            r.1.asks@ == book.asks@,
            r.1.bids@ == book.bids@,
            final(self).market_states() == old(self).market_states(),
            final(self).account_states() == old(self).account_states(),
    {
        let key = channel_key(channel);
        let report = book.copy();
        let state = BookState::new(book, ask_positive, bid_positive);
        self.order_book_states.insert(key.clone(), state);
        proof {
            assert(self.book_states() =~= old(self).book_states().insert(key@, self.book_states()[key@]));
        }
        (key, report)
    }

    /// Applies the level updates of an order-book update message to the
    /// book kept under the channel's key, and returns the key and the
    /// updated book to report. A message for a book not kept changes
    /// nothing and reports nothing.
    pub fn on_order_book_update(&mut self, channel: &str, asks: Vec<LevelUpdate>, bids: Vec<LevelUpdate>) -> (r: Option<(String, OrderBook)>)
        requires
            old(self).wf(),
        ensures
            final(self).wf(),
            final(self).same_config(&*old(self)),
            final(self).market_states() == old(self).market_states(),
            final(self).account_states() == old(self).account_states(),
            !old(self).book_states().contains_key(channel_key_of(channel@)) ==> r is None
                && final(self).book_states() == old(self).book_states(),
            old(self).book_states().contains_key(channel_key_of(channel@)) ==> (r matches Some(p) && {
                let key = channel_key_of(channel@);
                let before = old(self).book_states()[key];
                let after = final(self).book_states()[key];
                &&& p.0@ == key
                &&& final(self).book_states() == old(self).book_states().insert(key, after)
                &&& after.asks() == kept_levels(side_after(before.asks(), before.ask_flags(), asks@).0,
                    side_after(before.asks(), before.ask_flags(), asks@).1)
                &&& after.bids() == kept_levels(side_after(before.bids(), before.bid_flags(), bids@).0,
                    side_after(before.bids(), before.bid_flags(), bids@).1)
                &&& after.ask_flags() == Seq::new(after.asks().len(), |i: int| true)
                &&& after.bid_flags() == Seq::new(after.bids().len(), |i: int| true)
                &&& p.1.asks@ == after.asks()
                &&& p.1.bids@ == after.bids()
            }),
    {
        let key = channel_key(channel);
        let mut state = match self.order_book_states.get(&key) {
            Some(existing) => {
                proof {
                    assert(self.order_book_states.as_map().contains_key(key@));
                }
                existing.duplicate()
            },
            None => {
                return None;
            },
        };
        state.apply_update(&asks, &bids);
        let report = state.book();
        self.order_book_states.insert(key.clone(), state);
        proof {
            assert(self.book_states() =~= old(self).book_states().insert(key@, self.book_states()[key@]));
        }
        Some((key, report))
    }

    /// Keeps an account message under the channel's key, and returns the key.
    pub fn on_account(&mut self, channel: &str, message: String) -> (key: String)
        requires
            old(self).wf(),
        ensures
            final(self).wf(),
            final(self).same_config(&*old(self)),
            key@ == channel_key_of(channel@),
            final(self).account_states() == old(self).account_states().insert(key@, message),
            final(self).market_states() == old(self).market_states(),
            final(self).book_states() == old(self).book_states(),
    {
        let key = channel_key(channel);
        self.account_states.insert(key.clone(), message);
        key
    }

    /// Get the current market statistics of a market
    pub fn get_market(&self, market_id: &str) -> (r: Option<MarketStates>)
        requires
            self.wf(),
        ensures
            r matches Some(m) ==> self.market_states().contains_key(market_id@) && m == self.market_states()[market_id@],
            r is None ==> !self.market_states().contains_key(market_id@),
    {
        let key = String::from_str(market_id);
        match self.market_states.get(&key) {
            Some(m) => Some(m.copy()),
            None => None,
        }
    }

    /// Get the current order book state of a market
    pub fn get_order_book(&self, market_id: &str) -> (r: Option<OrderBook>)
        requires
            self.wf(),
        ensures
            r matches Some(b) ==> self.book_states().contains_key(market_id@)
                && b.asks@ == self.book_states()[market_id@].asks()
                && b.bids@ == self.book_states()[market_id@].bids(),
            r is None ==> !self.book_states().contains_key(market_id@),
    {
        let key = String::from_str(market_id);
        match self.order_book_states.get(&key) {
            Some(s) => Some(s.book()),
            None => None,
        }
    }

    /// Get the current account state, as the message that carried it
    pub fn get_account(&self, account_id: &str) -> (r: Option<String>)
        requires
            self.wf(),
        ensures
            r matches Some(a) ==> self.account_states().contains_key(account_id@) && a == self.account_states()[account_id@],
            r is None ==> !self.account_states().contains_key(account_id@),
    {
        let key = String::from_str(account_id);
        match self.account_states.get(&key) {
            Some(a) => Some(a.clone()),
            None => None,
        }
    }
}

} // verus!

verus! {

/// A price level update keeps the prices of a side distinct.
pub proof fn lemma_update_keeps_prices_distinct(levels: Seq<PriceLevel>, price: String, size: String, size_positive: bool)
    requires
        distinct_prices(levels),
    ensures
        distinct_prices(updated_levels(levels, price, size, size_positive)),
{
    let k = level_position(levels, price@);
    if k >= levels.len() {
        lemma_level_position_absent(levels, price@);
    }
}

proof fn lemma_level_position_absent(levels: Seq<PriceLevel>, price: Seq<char>)
    requires
        level_position(levels, price) >= levels.len(),
    ensures
        forall|i: int| 0 <= i < levels.len() ==> levels[i].price@ != price,
    decreases levels.len(),
{
    if levels.len() > 0 {
        lemma_level_position_absent(levels.drop_first(), price);
        assert forall|i: int| 0 <= i < levels.len() implies levels[i].price@ != price by {
            if i > 0 {
                assert(levels[i] == levels.drop_first()[i - 1]);
            }
        }
    }
}

/// An update at a price already on the side changes that level's size and
/// nothing else; an update at a new price adds a level at the end when its
/// size is positive and changes nothing otherwise.
pub proof fn lemma_update_effect(levels: Seq<PriceLevel>, price: String, size: String, size_positive: bool)
    ensures
        (exists|i: int| 0 <= i < levels.len() && levels[i].price@ == price@) ==> {
            let after = updated_levels(levels, price, size, size_positive);
            let k = level_position(levels, price@) as int;
            &&& after.len() == levels.len()
            &&& after[k].price == levels[k].price
            &&& after[k].size == size
            &&& forall|j: int| 0 <= j < levels.len() && j != k ==> after[j] == levels[j]
        },
        (forall|i: int| 0 <= i < levels.len() ==> levels[i].price@ != price@) ==>
            updated_levels(levels, price, size, size_positive)
                == if size_positive { levels.push(PriceLevel { price, size }) } else { levels },
{
    if forall|i: int| 0 <= i < levels.len() ==> levels[i].price@ != price@ {
        lemma_level_position(levels, price@, levels.len() as int);
    }
    if exists|i: int| 0 <= i < levels.len() && levels[i].price@ == price@ {
        if level_position(levels, price@) >= levels.len() {
            lemma_level_position_absent(levels, price@);
        }
    }
}

/// After an order book update, every level left has a positive size.
pub proof fn lemma_update_leaves_only_positive_sizes(levels: Seq<PriceLevel>, flags: Seq<bool>)
    requires
        flags.len() == levels.len(),
    ensures
        kept_levels(levels, flags).len() <= levels.len(),
        forall|i: int| 0 <= i < kept_levels(levels, flags).len() ==>
            exists|j: int| 0 <= j < levels.len() && flags[j] && #[trigger] kept_levels(levels, flags)[i] == levels[j],
    decreases levels.len(),
{
    if levels.len() > 0 {
        let n = levels.len() - 1;
        lemma_update_leaves_only_positive_sizes(levels.drop_last(), flags.take(n as int));
        let rest = kept_levels(levels.drop_last(), flags.take(n as int));
        assert forall|i: int| 0 <= i < kept_levels(levels, flags).len() implies
            exists|j: int| 0 <= j < levels.len() && flags[j] && #[trigger] kept_levels(levels, flags)[i] == levels[j] by {
            if i < rest.len() {
                let j = choose|j: int| 0 <= j < levels.drop_last().len() && flags.take(n as int)[j] && rest[i] == levels.drop_last()[j];
                assert(kept_levels(levels, flags)[i] == rest[i]);
                assert(levels.drop_last()[j] == levels[j]);
            } else {
                assert(kept_levels(levels, flags)[i] == levels[n as int]);
            }
        }
    }
}

} // verus!

verus! {

proof fn lemma_side_after_lengths(levels: Seq<PriceLevel>, flags: Seq<bool>, updates: Seq<LevelUpdate>)
    requires
        flags.len() == levels.len(),
    ensures
        side_after(levels, flags, updates).1.len() == side_after(levels, flags, updates).0.len(),
    decreases updates.len(),
{
    if updates.len() > 0 {
        lemma_side_after_lengths(levels, flags, updates.drop_last());
    }
}

proof fn lemma_side_after_distinct(levels: Seq<PriceLevel>, flags: Seq<bool>, updates: Seq<LevelUpdate>)
    requires
        distinct_prices(levels),
    ensures
        distinct_prices(side_after(levels, flags, updates).0),
    decreases updates.len(),
{
    if updates.len() > 0 {
        lemma_side_after_distinct(levels, flags, updates.drop_last());
        let (l, f) = side_after(levels, flags, updates.drop_last());
        let u = updates.last();
        lemma_update_keeps_prices_distinct(l, u.price, u.size, u.size_positive);
    }
}

proof fn lemma_kept_distinct(levels: Seq<PriceLevel>, flags: Seq<bool>)
    requires
        flags.len() == levels.len(),
        distinct_prices(levels),
    ensures
        distinct_prices(kept_levels(levels, flags)),
    decreases levels.len(),
{
    if levels.len() > 0 {
        let n = levels.len() - 1;
        let init = levels.drop_last();
        assert(distinct_prices(init)) by {
            assert forall|i: int, j: int| 0 <= i < init.len() && 0 <= j < init.len() && i != j
                implies init[i].price@ != init[j].price@ by {
                assert(init[i] == levels[i] && init[j] == levels[j]);
            }
        }
        lemma_kept_distinct(init, flags.take(n as int));
        lemma_update_leaves_only_positive_sizes(init, flags.take(n as int));
        let rest = kept_levels(init, flags.take(n as int));
        if flags[n as int] {
            let all = rest.push(levels.last());
            assert forall|i: int, j: int| 0 <= i < all.len() && 0 <= j < all.len() && i != j
                implies all[i].price@ != all[j].price@ by {
                if i < rest.len() && j < rest.len() {
                    assert(all[i] == rest[i] && all[j] == rest[j]);
                } else if i < rest.len() {
                    let a = choose|a: int| 0 <= a < init.len() && flags.take(n as int)[a] && rest[i] == init[a];
                    assert(init[a] == levels[a]);
                    assert(all[j] == levels[n as int]);
                } else {
                    let a = choose|a: int| 0 <= a < init.len() && flags.take(n as int)[a] && rest[j] == init[a];
                    assert(init[a] == levels[a]);
                    assert(all[i] == levels[n as int]);
                }
            }
        }
    }
}

/// An order book update keeps the prices of a side distinct: at most one
/// level per price.
pub proof fn lemma_book_update_keeps_prices_distinct(levels: Seq<PriceLevel>, flags: Seq<bool>, updates: Seq<LevelUpdate>)
    requires
        flags.len() == levels.len(),
        distinct_prices(levels),
    ensures
        distinct_prices(kept_levels(side_after(levels, flags, updates).0, side_after(levels, flags, updates).1)),
{
    lemma_side_after_lengths(levels, flags, updates);
    lemma_side_after_distinct(levels, flags, updates);
    lemma_kept_distinct(side_after(levels, flags, updates).0, side_after(levels, flags, updates).1);
}

} // verus!
