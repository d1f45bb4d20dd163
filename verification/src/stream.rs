//! What a recording covers: its venues, and the feeds that each venue gives.

use vstd::prelude::*;

use crate::deribit::DeribitInstrumentKind;
use crate::heartbeat::HeartbeatPolicy;
use crate::json;
use crate::json::Json;
use crate::json::JsonTree;
use crate::text::is_empty_text;
use crate::text::joined3;
use crate::text::same_text;

verus! {

pub const DEFAULT_SYMBOL: &'static str = "tBTCUSD";

pub const DEFAULT_WS_HEARTBEAT_SECS: u64 = 20;

pub const DEFAULT_WS_OUTPUT_DIR: &'static str = "/mnt/burner-archive/ws_raw";

pub const DEFAULT_EXTENDED_MARKET: &'static str = "BTC-USD";

pub const DEFAULT_EXTENDED_SPOT_MARKET: &'static str = "BTCSPOT-USD";

pub const DEFAULT_HIBACHI_SYMBOL: &'static str = "BTC/USDT-P";

pub const DEFAULT_DERIBIT_TRADES_INTERVAL: &'static str = "100ms";

pub const DEFAULT_DERIBIT_WS_URL: &'static str = "wss://www.deribit.com/ws/api/v2";

pub const DEFAULT_HIBACHI_MARKET_WS_URL: &'static str =
    "wss://data-api.hibachi.xyz/ws/market?hibachiClient=modl/0.1.0";

/// The venues that can be recorded.
#[derive(Clone, Copy, Debug, PartialEq, Eq, Structural)]
pub enum StreamVenue {
    Bitfinex,
    Extended,
    Hibachi,
    Deribit,
    Hyperliquid,
}

/// How a feed is run.
#[derive(Clone, Copy, Debug, PartialEq, Eq, Structural)]
pub enum FeedBehavior {
    Static,
    DeribitInstrumentDiscovery,
    HyperliquidSpot,
}

/// What to record, and how.
#[derive(Clone, Debug)]
pub struct StreamArgs {
    pub venues: Vec<StreamVenue>,
    pub output_dir: String,
    pub bitfinex_symbol: String,
    pub extended_market: String,
    pub extended_spot_market: String,
    pub hibachi_symbol: String,
    pub hibachi_url: String,
    pub deribit_url: String,
    pub deribit_kinds: Vec<DeribitInstrumentKind>,
    pub deribit_trades_interval: String,
    pub hyperliquid_spot_coin: Option<String>,
    pub zstd_level: i32,
    pub max_messages: Option<usize>,
    pub reconnect_delay_secs: u64,
    pub heartbeat_secs: u64,
}

/// What the recording of the stable BTC venues leaves open.
#[derive(Clone, Debug)]
pub struct BtcArgs {
    pub output_dir: String,
    pub zstd_level: i32,
    pub max_messages: Option<usize>,
    pub reconnect_delay_secs: u64,
    pub heartbeat_secs: u64,
    pub hibachi_url: String,
    pub deribit_url: String,
    pub hyperliquid_spot_coin: Option<String>,
}

/// The recording of the stable BTC venues: all but Extended, with the default markets.
pub fn btc_stream_args(args: BtcArgs) -> (r: StreamArgs)
    ensures
        r.venues@ == seq![
            StreamVenue::Bitfinex,
            StreamVenue::Hibachi,
            StreamVenue::Deribit,
            StreamVenue::Hyperliquid,
        ],
        r.output_dir == args.output_dir,
        r.bitfinex_symbol@ == DEFAULT_SYMBOL@,
        r.extended_market@ == DEFAULT_EXTENDED_MARKET@,
        r.extended_spot_market@ == DEFAULT_EXTENDED_SPOT_MARKET@,
        r.hibachi_symbol@ == DEFAULT_HIBACHI_SYMBOL@,
        r.hibachi_url == args.hibachi_url,
        r.deribit_url == args.deribit_url,
        r.deribit_kinds@ == seq![DeribitInstrumentKind::Future, DeribitInstrumentKind::Option],
        r.deribit_trades_interval@ == DEFAULT_DERIBIT_TRADES_INTERVAL@,
        r.hyperliquid_spot_coin == args.hyperliquid_spot_coin,
        r.zstd_level == args.zstd_level,
        r.max_messages == args.max_messages,
        r.reconnect_delay_secs == args.reconnect_delay_secs,
        r.heartbeat_secs == args.heartbeat_secs,
{
    StreamArgs {
        venues: vec![
            StreamVenue::Bitfinex,
            StreamVenue::Hibachi,
            StreamVenue::Deribit,
            StreamVenue::Hyperliquid,
        ],
        output_dir: args.output_dir,
        bitfinex_symbol: DEFAULT_SYMBOL.to_owned(),
        extended_market: DEFAULT_EXTENDED_MARKET.to_owned(),
        extended_spot_market: DEFAULT_EXTENDED_SPOT_MARKET.to_owned(),
        hibachi_symbol: DEFAULT_HIBACHI_SYMBOL.to_owned(),
        hibachi_url: args.hibachi_url,
        deribit_url: args.deribit_url,
        deribit_kinds: vec![DeribitInstrumentKind::Future, DeribitInstrumentKind::Option],
        deribit_trades_interval: DEFAULT_DERIBIT_TRADES_INTERVAL.to_owned(),
        hyperliquid_spot_coin: args.hyperliquid_spot_coin,
        zstd_level: args.zstd_level,
        max_messages: args.max_messages,
        reconnect_delay_secs: args.reconnect_delay_secs,
        heartbeat_secs: args.heartbeat_secs,
    }
}

/// Why a recording cannot be started.
#[derive(Clone, Copy, Debug, PartialEq, Eq, Structural)]
pub enum StreamArgsError {
    NoVenue,
    EmptyBitfinexSymbol,
    EmptyExtendedMarket,
    EmptyExtendedSpotMarket,
    EmptyHibachiSymbol,
    EmptyDeribitUrl,
    NoDeribitKind,
    EmptyHyperliquidCoin,
    ZeroMaxMessages,
}

impl StreamArgsError {
    pub open spec fn text(self) -> Seq<char> {
        match self {
            StreamArgsError::NoVenue => "at least one --venue is required"@,
            StreamArgsError::EmptyBitfinexSymbol => "bitfinex symbol cannot be empty"@,
            StreamArgsError::EmptyExtendedMarket => "extended market cannot be empty"@,
            StreamArgsError::EmptyExtendedSpotMarket => "extended spot market cannot be empty"@,
            StreamArgsError::EmptyHibachiSymbol => "hibachi symbol cannot be empty"@,
            StreamArgsError::EmptyDeribitUrl => "deribit URL cannot be empty"@,
            StreamArgsError::NoDeribitKind => "at least one --deribit-kind is required"@,
            StreamArgsError::EmptyHyperliquidCoin => "hyperliquid spot coin cannot be empty"@,
            StreamArgsError::ZeroMaxMessages => "max-messages must be greater than zero"@,
        }
    }

    /// The error in words.
    pub fn message(self) -> (words: &'static str)
        ensures
            words@ == self.text(),
    {
        match self {
            StreamArgsError::NoVenue => "at least one --venue is required",
            StreamArgsError::EmptyBitfinexSymbol => "bitfinex symbol cannot be empty",
            StreamArgsError::EmptyExtendedMarket => "extended market cannot be empty",
            StreamArgsError::EmptyExtendedSpotMarket => "extended spot market cannot be empty",
            StreamArgsError::EmptyHibachiSymbol => "hibachi symbol cannot be empty",
            StreamArgsError::EmptyDeribitUrl => "deribit URL cannot be empty",
            StreamArgsError::NoDeribitKind => "at least one --deribit-kind is required",
            StreamArgsError::EmptyHyperliquidCoin => "hyperliquid spot coin cannot be empty",
            StreamArgsError::ZeroMaxMessages => "max-messages must be greater than zero",
        }
    }
}

/// The first thing that is wrong with the arguments of a recording.
pub open spec fn stream_args_error(args: StreamArgs) -> Option<StreamArgsError> {
    if args.venues@.len() == 0 {
        Some(StreamArgsError::NoVenue)
    } else if args.bitfinex_symbol@.len() == 0 {
        Some(StreamArgsError::EmptyBitfinexSymbol)
    } else if args.extended_market@.len() == 0 {
        Some(StreamArgsError::EmptyExtendedMarket)
    } else if args.extended_spot_market@.len() == 0 {
        Some(StreamArgsError::EmptyExtendedSpotMarket)
    } else if args.hibachi_symbol@.len() == 0 {
        Some(StreamArgsError::EmptyHibachiSymbol)
    } else if args.deribit_url@.len() == 0 {
        Some(StreamArgsError::EmptyDeribitUrl)
    } else if args.deribit_kinds@.len() == 0 {
        Some(StreamArgsError::NoDeribitKind)
    } else if args.hyperliquid_spot_coin is Some && args.hyperliquid_spot_coin->Some_0@.len()
        == 0 {
        Some(StreamArgsError::EmptyHyperliquidCoin)
    } else if args.max_messages == Some(0usize) {
        Some(StreamArgsError::ZeroMaxMessages)
    } else {
        None
    }
}

/// Checks the arguments of a recording.
pub fn validate_stream_args(args: &StreamArgs) -> (r: Result<(), StreamArgsError>)
    ensures
        r == match stream_args_error(*args) {
            None => Ok::<(), StreamArgsError>(()),
            Some(error) => Err(error),
        },
{
    if args.venues.len() == 0 {
        return Err(StreamArgsError::NoVenue);
    }
    if is_empty_text(args.bitfinex_symbol.as_str()) {
        return Err(StreamArgsError::EmptyBitfinexSymbol);
    }
    if is_empty_text(args.extended_market.as_str()) {
        return Err(StreamArgsError::EmptyExtendedMarket);
    }
    if is_empty_text(args.extended_spot_market.as_str()) {
        return Err(StreamArgsError::EmptyExtendedSpotMarket);
    }
    if is_empty_text(args.hibachi_symbol.as_str()) {
        return Err(StreamArgsError::EmptyHibachiSymbol);
    }
    if is_empty_text(args.deribit_url.as_str()) {
        return Err(StreamArgsError::EmptyDeribitUrl);
    }
    if args.deribit_kinds.len() == 0 {
        return Err(StreamArgsError::NoDeribitKind);
    }
    if let Some(coin) = &args.hyperliquid_spot_coin {
        if is_empty_text(coin.as_str()) {
            return Err(StreamArgsError::EmptyHyperliquidCoin);
        }
    }
    if let Some(max) = args.max_messages {
        if max == 0 {
            return Err(StreamArgsError::ZeroMaxMessages);
        }
    }
    Ok(())
}

/// The trade intervals that Deribit knows.
pub open spec fn is_trades_interval(value: Seq<char>) -> bool {
    value == "raw"@ || value == "100ms"@ || value == "agg2"@
}

/// Reads a Deribit trade interval.
pub fn parse_deribit_trades_interval(value: &str) -> (r: Result<String, String>)
    ensures
        is_trades_interval(value@) ==> r is Ok && r->Ok_0@ == value@,
        !is_trades_interval(value@) ==> r is Err && r->Err_0@
            == "Deribit trades interval must be one of: raw, 100ms, agg2"@,
{
    if same_text(value, "raw") || same_text(value, "100ms") || same_text(value, "agg2") {
        Ok(value.to_owned())
    } else {
        Err("Deribit trades interval must be one of: raw, 100ms, agg2".to_owned())
    }
}

/// What a feed is.
#[verifier::ext_equal]
pub ghost struct Feed {
    pub exchange: Seq<char>,
    pub symbol: Seq<char>,
    pub channel: Seq<char>,
    pub connection_id: Seq<char>,
    pub url: Seq<char>,
    pub subscribe_messages: Seq<JsonTree>,
    pub behavior: FeedBehavior,
    pub heartbeat_policy: HeartbeatPolicy,
}

/// One feed of a recording.
#[derive(Debug)]
pub struct FeedSpec {
    pub exchange: &'static str,
    pub symbol: String,
    pub channel: &'static str,
    pub connection_id: String,
    pub url: String,
    pub subscribe_messages: Vec<Json>,
    pub behavior: FeedBehavior,
    pub heartbeat_policy: HeartbeatPolicy,
}

impl View for FeedSpec {
    type V = Feed;

    open spec fn view(&self) -> Feed {
        Feed {
            exchange: self.exchange@,
            symbol: self.symbol@,
            channel: self.channel@,
            connection_id: self.connection_id@,
            url: self.url@,
            subscribe_messages: self.subscribe_messages@.map_values(|j: Json| j@),
            behavior: self.behavior,
            heartbeat_policy: self.heartbeat_policy,
        }
    }
}

/// The feeds of a list.
pub open spec fn feeds(specs: Seq<FeedSpec>) -> Seq<Feed> {
    specs.map_values(|s: FeedSpec| s@)
}

/// The Bitfinex subscription to the 25 best levels of the book.
pub open spec fn bitfinex_book_subscription(symbol: Seq<char>) -> JsonTree {
    JsonTree::Object(
        map![
            "event"@ => JsonTree::Text("subscribe"@),
            "channel"@ => JsonTree::Text("book"@),
            "symbol"@ => JsonTree::Text(symbol),
            "prec"@ => JsonTree::Text("P0"@),
            "freq"@ => JsonTree::Text("F0"@),
            "len"@ => JsonTree::Text("25"@),
        ],
    )
}

/// The Bitfinex subscription to trades.
pub open spec fn bitfinex_trades_subscription(symbol: Seq<char>) -> JsonTree {
    JsonTree::Object(
        map![
            "event"@ => JsonTree::Text("subscribe"@),
            "channel"@ => JsonTree::Text("trades"@),
            "symbol"@ => JsonTree::Text(symbol),
        ],
    )
}

/// A Bitfinex feed.
pub open spec fn bitfinex_feed(
    symbol: Seq<char>,
    channel: Seq<char>,
    subscription: JsonTree,
) -> Feed {
    Feed {
        exchange: "bitfinex"@,
        symbol,
        channel,
        connection_id: "bitfinex-"@ + symbol + "-"@ + channel,
        url: "wss://api-pub.bitfinex.com/ws/2"@,
        subscribe_messages: seq![subscription],
        behavior: FeedBehavior::Static,
        heartbeat_policy: HeartbeatPolicy::Required,
    }
}

/// The Bitfinex feeds: book and trades.
pub open spec fn bitfinex_feeds(symbol: Seq<char>) -> Seq<Feed> {
    seq![
        bitfinex_feed(symbol, "book_l25"@, bitfinex_book_subscription(symbol)),
        bitfinex_feed(symbol, "trades"@, bitfinex_trades_subscription(symbol)),
    ]
}

fn bitfinex_stream_spec(symbol: &str, channel: &'static str, subscription: Json) -> (spec: FeedSpec)
    ensures
        spec@ == bitfinex_feed(symbol@, channel@, subscription@),
{
    let mut connection_id = joined3("bitfinex-", symbol, "-");
    connection_id.append(channel);
    let subscribe_messages: Vec<Json> = vec![subscription];
    assert(subscribe_messages@.map_values(|j: Json| j@) =~= seq![subscription@]);
    FeedSpec {
        exchange: "bitfinex",
        symbol: symbol.to_owned(),
        channel,
        connection_id,
        url: "wss://api-pub.bitfinex.com/ws/2".to_owned(),
        subscribe_messages,
        behavior: FeedBehavior::Static,
        heartbeat_policy: HeartbeatPolicy::Required,
    }
}

/// The Bitfinex feeds: book and trades.
pub fn bitfinex_stream_specs(symbol: &str) -> (specs: Vec<FeedSpec>)
    ensures
        feeds(specs@) == bitfinex_feeds(symbol@),
{
    let book = json::object_of("event", json::text_value("subscribe"));
    let book = json::with_entry(book, "channel", json::text_value("book"));
    let book = json::with_entry(book, "symbol", json::text_value(symbol));
    let book = json::with_entry(book, "prec", json::text_value("P0"));
    let book = json::with_entry(book, "freq", json::text_value("F0"));
    let book = json::with_entry(book, "len", json::text_value("25"));
    let trades = json::object_of("event", json::text_value("subscribe"));
    let trades = json::with_entry(trades, "channel", json::text_value("trades"));
    let trades = json::with_entry(trades, "symbol", json::text_value(symbol));
    let specs: Vec<FeedSpec> = vec![
        bitfinex_stream_spec(symbol, "book_l25", book),
        bitfinex_stream_spec(symbol, "trades", trades),
    ];
    assert(feeds(specs@) =~= bitfinex_feeds(symbol@));
    specs
}

/// An Extended feed.
pub open spec fn extended_feed(market: Seq<char>, channel: Seq<char>, path: Seq<char>) -> Feed {
    Feed {
        exchange: "extended"@,
        symbol: market,
        channel,
        connection_id: "extended-"@ + market + "-"@ + channel,
        url: "wss://api.starknet.extended.exchange/stream.extended.exchange/v1/"@ + path + market,
        subscribe_messages: seq![],
        behavior: FeedBehavior::Static,
        heartbeat_policy: HeartbeatPolicy::BestEffort,
    }
}

/// The Extended feeds of a perpetual market.
pub open spec fn extended_feeds(market: Seq<char>) -> Seq<Feed> {
    seq![
        extended_feed(market, "orderbook"@, "orderbooks/"@),
        extended_feed(market, "trades"@, "publicTrades/"@),
        extended_feed(market, "funding"@, "funding/"@),
        extended_feed(market, "mark_price"@, "prices/mark/"@),
        extended_feed(market, "index_price"@, "prices/index/"@),
    ]
}

/// The Extended feeds of a spot market.
pub open spec fn extended_spot_feeds(market: Seq<char>) -> Seq<Feed> {
    seq![
        extended_feed(market, "orderbook"@, "orderbooks/"@),
        extended_feed(market, "trades"@, "publicTrades/"@),
    ]
}

fn extended_stream_spec(market: &str, channel: &'static str, path: &str) -> (spec: FeedSpec)
    ensures
        spec@ == extended_feed(market@, channel@, path@),
{
    let mut connection_id = joined3("extended-", market, "-");
    connection_id.append(channel);
    let subscribe_messages: Vec<Json> = Vec::new();
    assert(subscribe_messages@.map_values(|j: Json| j@) =~= seq![]);
    FeedSpec {
        exchange: "extended",
        symbol: market.to_owned(),
        channel,
        connection_id,
        url: joined3(
            "wss://api.starknet.extended.exchange/stream.extended.exchange/v1/",
            path,
            market,
        ),
        subscribe_messages,
        behavior: FeedBehavior::Static,
        heartbeat_policy: HeartbeatPolicy::BestEffort,
    }
}

/// The Extended feeds of a perpetual market.
pub fn extended_stream_specs(market: &str) -> (specs: Vec<FeedSpec>)
    ensures
        feeds(specs@) == extended_feeds(market@),
{
    let specs: Vec<FeedSpec> = vec![
        extended_stream_spec(market, "orderbook", "orderbooks/"),
        extended_stream_spec(market, "trades", "publicTrades/"),
        extended_stream_spec(market, "funding", "funding/"),
        extended_stream_spec(market, "mark_price", "prices/mark/"),
        extended_stream_spec(market, "index_price", "prices/index/"),
    ];
    assert(feeds(specs@) =~= extended_feeds(market@));
    specs
}

/// The Extended feeds of a spot market.
pub fn extended_spot_stream_specs(market: &str) -> (specs: Vec<FeedSpec>)
    ensures
        feeds(specs@) == extended_spot_feeds(market@),
{
    let specs: Vec<FeedSpec> = vec![
        extended_stream_spec(market, "orderbook", "orderbooks/"),
        extended_stream_spec(market, "trades", "publicTrades/"),
    ];
    assert(feeds(specs@) =~= extended_spot_feeds(market@));
    specs
}

/// One topic of the Hibachi subscription.
pub open spec fn hibachi_topic(symbol: Seq<char>, topic: Seq<char>) -> JsonTree {
    JsonTree::Object(
        map!["symbol"@ => JsonTree::Text(symbol), "topic"@ => JsonTree::Text(topic)],
    )
}

/// The Hibachi subscription: six topics of a market.
pub open spec fn hibachi_subscription(symbol: Seq<char>) -> JsonTree {
    JsonTree::Object(
        map![
            "method"@ => JsonTree::Text("subscribe"@),
            "parameters"@ => JsonTree::Object(
                map![
                    "subscriptions"@ => JsonTree::Array(
                        seq![
                            hibachi_topic(symbol, "mark_price"@),
                            hibachi_topic(symbol, "spot_price"@),
                            hibachi_topic(symbol, "funding_rate_estimation"@),
                            hibachi_topic(symbol, "trades"@),
                            hibachi_topic(symbol, "orderbook"@),
                            hibachi_topic(symbol, "ask_bid_price"@),
                        ],
                    ),
                ],
            ),
        ],
    )
}

/// The Hibachi feed.
pub open spec fn hibachi_feed(symbol: Seq<char>, url: Seq<char>) -> Feed {
    Feed {
        exchange: "hibachi"@,
        symbol,
        channel: "market_data"@,
        connection_id: "hibachi-"@ + symbol + "-market_data"@,
        url,
        subscribe_messages: seq![hibachi_subscription(symbol)],
        behavior: FeedBehavior::Static,
        heartbeat_policy: HeartbeatPolicy::Required,
    }
}

fn hibachi_topic_value(symbol: &str, topic: &str) -> (r: Json)
    ensures
        r@ == hibachi_topic(symbol@, topic@),
{
    let of_symbol = json::object_of("symbol", json::text_value(symbol));
    json::with_entry(of_symbol, "topic", json::text_value(topic))
}

/// The Hibachi feed.
pub fn hibachi_stream_spec(args: &StreamArgs) -> (spec: FeedSpec)
    ensures
        spec@ == hibachi_feed(args.hibachi_symbol@, args.hibachi_url@),
{
    let symbol = args.hibachi_symbol.as_str();
    let topics: Vec<Json> = vec![
        hibachi_topic_value(symbol, "mark_price"),
        hibachi_topic_value(symbol, "spot_price"),
        hibachi_topic_value(symbol, "funding_rate_estimation"),
        hibachi_topic_value(symbol, "trades"),
        hibachi_topic_value(symbol, "orderbook"),
        hibachi_topic_value(symbol, "ask_bid_price"),
    ];
    proof {
        json::array_holds_its_items(topics);
        assert(Json::Array(topics)@->Array_0 =~= seq![
            hibachi_topic(symbol@, "mark_price"@),
            hibachi_topic(symbol@, "spot_price"@),
            hibachi_topic(symbol@, "funding_rate_estimation"@),
            hibachi_topic(symbol@, "trades"@),
            hibachi_topic(symbol@, "orderbook"@),
            hibachi_topic(symbol@, "ask_bid_price"@),
        ]);
    }
    let parameters = json::object_of("subscriptions", Json::Array(topics));
    let method = json::object_of("method", json::text_value("subscribe"));
    let subscription = json::with_entry(method, "parameters", parameters);
    let subscribe_messages: Vec<Json> = vec![subscription];
    assert(subscribe_messages@.map_values(|j: Json| j@) =~= seq![hibachi_subscription(symbol@)]);
    FeedSpec {
        exchange: "hibachi",
        symbol: args.hibachi_symbol.clone(),
        channel: "market_data",
        connection_id: joined3("hibachi-", symbol, "-market_data"),
        url: args.hibachi_url.clone(),
        subscribe_messages,
        behavior: FeedBehavior::Static,
        heartbeat_policy: HeartbeatPolicy::Required,
    }
}

/// The Deribit feed.
pub open spec fn deribit_feed(url: Seq<char>) -> Feed {
    Feed {
        exchange: "deribit"@,
        symbol: "BTC"@,
        channel: "instrument_lifecycle"@,
        connection_id: "deribit-BTC-instruments"@,
        url,
        subscribe_messages: seq![],
        behavior: FeedBehavior::DeribitInstrumentDiscovery,
        heartbeat_policy: HeartbeatPolicy::BestEffort,
    }
}

/// The Deribit feed.
pub fn deribit_stream_spec(args: &StreamArgs) -> (spec: FeedSpec)
    ensures
        spec@ == deribit_feed(args.deribit_url@),
{
    let subscribe_messages: Vec<Json> = Vec::new();
    assert(subscribe_messages@.map_values(|j: Json| j@) =~= seq![]);
    FeedSpec {
        exchange: "deribit",
        symbol: "BTC".to_owned(),
        channel: "instrument_lifecycle",
        connection_id: "deribit-BTC-instruments".to_owned(),
        url: args.deribit_url.clone(),
        subscribe_messages,
        behavior: FeedBehavior::DeribitInstrumentDiscovery,
        heartbeat_policy: HeartbeatPolicy::BestEffort,
    }
}

/// The Hyperliquid feed.
pub open spec fn hyperliquid_feed() -> Feed {
    Feed {
        exchange: "hyperliquid"@,
        symbol: "spot_btc"@,
        channel: "spot_market_data"@,
        connection_id: "hyperliquid-spot-btc"@,
        url: ""@,
        subscribe_messages: seq![],
        behavior: FeedBehavior::HyperliquidSpot,
        heartbeat_policy: HeartbeatPolicy::Required,
    }
}

/// The Hyperliquid feed.
pub fn hyperliquid_stream_spec() -> (spec: FeedSpec)
    ensures
        spec@ == hyperliquid_feed(),
{
    let subscribe_messages: Vec<Json> = Vec::new();
    assert(subscribe_messages@.map_values(|j: Json| j@) =~= seq![]);
    FeedSpec {
        exchange: "hyperliquid",
        symbol: "spot_btc".to_owned(),
        channel: "spot_market_data",
        connection_id: "hyperliquid-spot-btc".to_owned(),
        url: "".to_owned(),
        subscribe_messages,
        behavior: FeedBehavior::HyperliquidSpot,
        heartbeat_policy: HeartbeatPolicy::Required,
    }
}

/// The feeds of a venue.
pub open spec fn venue_feeds(args: StreamArgs, venue: StreamVenue) -> Seq<Feed> {
    match venue {
        StreamVenue::Bitfinex => bitfinex_feeds(args.bitfinex_symbol@),
        StreamVenue::Extended => extended_feeds(args.extended_market@) + extended_spot_feeds(
            args.extended_spot_market@,
        ),
        StreamVenue::Hibachi => seq![hibachi_feed(args.hibachi_symbol@, args.hibachi_url@)],
        StreamVenue::Deribit => seq![deribit_feed(args.deribit_url@)],
        StreamVenue::Hyperliquid => seq![hyperliquid_feed()],
    }
}

/// The feeds of a list of venues, one venue behind the other.
pub open spec fn stream_feeds(args: StreamArgs, venues: Seq<StreamVenue>) -> Seq<Feed>
    decreases venues.len(),
{
    if venues.len() == 0 {
        Seq::empty()
    } else {
        stream_feeds(args, venues.drop_last()) + venue_feeds(args, venues.last())
    }
}

fn venue_stream_specs(args: &StreamArgs, venue: StreamVenue) -> (specs: Vec<FeedSpec>)
    ensures
        feeds(specs@) == venue_feeds(*args, venue),
{
    match venue {
        StreamVenue::Bitfinex => bitfinex_stream_specs(args.bitfinex_symbol.as_str()),
        StreamVenue::Extended => {
            let mut specs = extended_stream_specs(args.extended_market.as_str());
            let mut spot = extended_spot_stream_specs(args.extended_spot_market.as_str());
            let ghost front = specs@;
            let ghost back = spot@;
            specs.append(&mut spot);
            assert(feeds(specs@) =~= feeds(front) + feeds(back));
            specs
        },
        StreamVenue::Hibachi => {
            let specs: Vec<FeedSpec> = vec![hibachi_stream_spec(args)];
            assert(feeds(specs@) =~= venue_feeds(*args, venue));
            specs
        },
        StreamVenue::Deribit => {
            let specs: Vec<FeedSpec> = vec![deribit_stream_spec(args)];
            assert(feeds(specs@) =~= venue_feeds(*args, venue));
            specs
        },
        StreamVenue::Hyperliquid => {
            let specs: Vec<FeedSpec> = vec![hyperliquid_stream_spec()];
            assert(feeds(specs@) =~= venue_feeds(*args, venue));
            specs
        },
    }
}

/// The feeds of a recording.
pub fn stream_specs(args: &StreamArgs) -> (specs: Vec<FeedSpec>)
    ensures
        feeds(specs@) == stream_feeds(*args, args.venues@),
{
    let mut specs: Vec<FeedSpec> = Vec::new();
    assert(feeds(specs@) =~= stream_feeds(*args, args.venues@.take(0)));
    let mut i: usize = 0;
    while i < args.venues.len()
        invariant
            i <= args.venues@.len(),
            feeds(specs@) == stream_feeds(*args, args.venues@.take(i as int)),
        decreases args.venues@.len() - i,
    {
        let mut more = venue_stream_specs(args, args.venues[i]);
        let ghost front = specs@;
        let ghost back = more@;
        specs.append(&mut more);
        assert(feeds(specs@) =~= feeds(front) + feeds(back));
        assert(args.venues@.take(i + 1).drop_last() =~= args.venues@.take(i as int));
        i = i + 1;
    }
    assert(args.venues@.take(i as int) =~= args.venues@);
    specs
}

/// The feeds of a recording that may be started: there is at least one.
pub fn selected_feeds(args: &StreamArgs) -> (r: Result<Vec<FeedSpec>, StreamArgsError>)
    ensures
        match stream_args_error(*args) {
            None => {
                &&& r is Ok
                &&& feeds(r->Ok_0@) == stream_feeds(*args, args.venues@)
                &&& r->Ok_0@.len() > 0
            },
            Some(error) => r is Err && r->Err_0 == error,
        },
{
    match validate_stream_args(args) {
        Err(error) => Err(error),
        Ok(()) => {
            let specs = stream_specs(args);
            proof {
                valid_recordings_have_feeds(*args);
                assert(feeds(specs@).len() == specs@.len());
            }
            Ok(specs)
        },
    }
}

/// A recording with valid arguments has at least one feed.
pub proof fn valid_recordings_have_feeds(args: StreamArgs)
    requires
        stream_args_error(args) is None,
    ensures
        stream_feeds(args, args.venues@).len() > 0,
{
    assert(venue_feeds(args, args.venues@.last()).len() > 0);
}

/// The exchange under whose name the feeds of a venue are recorded.
pub open spec fn exchange_of(venue: StreamVenue) -> Seq<char> {
    match venue {
        StreamVenue::Bitfinex => "bitfinex"@,
        StreamVenue::Extended => "extended"@,
        StreamVenue::Hibachi => "hibachi"@,
        StreamVenue::Deribit => "deribit"@,
        StreamVenue::Hyperliquid => "hyperliquid"@,
    }
}

/// Which venues must answer pings: Extended sends its own, and Deribit has a heartbeat of its own.
pub open spec fn policy_of(venue: StreamVenue) -> HeartbeatPolicy {
    if venue == StreamVenue::Extended || venue == StreamVenue::Deribit {
        HeartbeatPolicy::BestEffort
    } else {
        HeartbeatPolicy::Required
    }
}

/// Every feed of a recording belongs to one of its venues: it is recorded under the name of that
/// venue's exchange, and missing pongs end its connection only where that venue must answer pings.
pub proof fn feeds_belong_to_their_venues(args: StreamArgs, venues: Seq<StreamVenue>, i: int)
    requires
        0 <= i < stream_feeds(args, venues).len(),
    ensures
        exists|v: int|
            0 <= v < venues.len() && venue_feeds(args, #[trigger] venues[v]).contains(
                stream_feeds(args, venues)[i],
            ) && stream_feeds(args, venues)[i].exchange == exchange_of(venues[v])
                && stream_feeds(args, venues)[i].heartbeat_policy == policy_of(venues[v]),
    decreases venues.len(),
{
    let front = venues.drop_last();
    let earlier = stream_feeds(args, front);
    let feed = stream_feeds(args, venues)[i];
    if i < earlier.len() {
        feeds_belong_to_their_venues(args, front, i);
        let v = choose|v: int|
            0 <= v < front.len() && venue_feeds(args, #[trigger] front[v]).contains(earlier[i])
                && earlier[i].exchange == exchange_of(front[v]) && earlier[i].heartbeat_policy
                == policy_of(front[v]);
        assert(venues[v] == front[v]);
    } else {
        let last = venues.len() - 1;
        let own = venue_feeds(args, venues[last]);
        let k = i - earlier.len();
        assert(own[k] == feed);
        assert(own.contains(feed));
        lemma_venue_feed(args, venues[last], k);
    }
}

proof fn lemma_venue_feed(args: StreamArgs, venue: StreamVenue, k: int)
    requires
        0 <= k < venue_feeds(args, venue).len(),
    ensures
        venue_feeds(args, venue)[k].exchange == exchange_of(venue),
        venue_feeds(args, venue)[k].heartbeat_policy == policy_of(venue),
{
}

/// The recording of the stable venues has no feed of Extended.
pub proof fn stable_recordings_leave_extended_out(args: StreamArgs, i: int)
    requires
        args.venues@ == seq![
            StreamVenue::Bitfinex,
            StreamVenue::Hibachi,
            StreamVenue::Deribit,
            StreamVenue::Hyperliquid,
        ],
        0 <= i < stream_feeds(args, args.venues@).len(),
    ensures
        stream_feeds(args, args.venues@)[i].exchange != exchange_of(StreamVenue::Extended),
{
    feeds_belong_to_their_venues(args, args.venues@, i);
    reveal_strlit("bitfinex");
    reveal_strlit("extended");
    reveal_strlit("hibachi");
    reveal_strlit("deribit");
    reveal_strlit("hyperliquid");
    assert("bitfinex"@[0] != "extended"@[0]);
    assert("hibachi"@[0] != "extended"@[0]);
    assert("deribit"@[0] != "extended"@[0]);
    assert("hyperliquid"@[0] != "extended"@[0]);
}

} // verus!
