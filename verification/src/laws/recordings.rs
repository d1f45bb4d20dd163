//! Recordings: which feeds are run, what an envelope holds, and where it is written.

use vstd::prelude::*;

use crate::calendar::CivilDate;
use crate::calendar::UtcTime;
use crate::capture::CaptureChange;
use crate::capture::DailyCapture;
use crate::capture::RawWsEvent;
use crate::capture::binary_event;
use crate::capture::deribit_output_spec;
use crate::capture::hyperliquid_output_spec;
use crate::capture::text_event;
use crate::capture;
use crate::deribit::DeribitInstrumentKind;
use crate::heartbeat::HeartbeatPolicy;
use crate::json::JsonTree;
use crate::json;
use crate::paths::daily_file_name;
use crate::paths::daily_stream_file_name;
use crate::paths::normalized_file_name;
use crate::paths::parquet_tmp_name;
use crate::paths::symbol_partition_name;
use crate::paths;
use crate::stream::BtcArgs;
use crate::stream::Feed;
use crate::stream::FeedBehavior;
use crate::stream::FeedSpec;
use crate::stream::StreamArgs;
use crate::stream::StreamArgsError;
use crate::stream::StreamVenue;
use crate::stream::bitfinex_stream_specs;
use crate::stream::btc_stream_args;
use crate::stream::deribit_stream_spec;
use crate::stream::extended_spot_stream_specs;
use crate::stream::extended_stream_specs;
use crate::stream::hibachi_stream_spec;
use crate::stream::hyperliquid_stream_spec;
use crate::stream::parse_deribit_trades_interval;
use crate::stream::selected_feeds;
use crate::stream;
use crate::text;

verus! {

/// The envelope of a text message holds the very text; that of a binary message a text from which
/// every byte is read back. Both name the feed and the instant.
pub proof fn envelopes_hold_the_message(
    spec: &FeedSpec,
    received: &UtcTime,
    contents: &str,
    bytes: &[u8],
    of_text: RawWsEvent,
    of_bytes: RawWsEvent,
    written_at: String,
)
    requires
        call_ensures(text_event, (spec, received, contents), of_text),
        call_ensures(binary_event, (spec, received, bytes), of_bytes),
        call_ensures(UtcTime::millis_text, (received,), written_at),
    ensures
        of_text.payload_text is Some && of_text.payload_text->Some_0@ == contents@,
        of_text.payload_base64 is None,
        of_bytes.payload_text is None,
        of_bytes.payload_base64 is Some,
        capture::base64_bytes(of_bytes.payload_base64->Some_0@) == bytes@,
        names(of_text, *spec, received.millis(), written_at@),
        names(of_bytes, *spec, received.millis(), written_at@),
{
    capture::recorded_bytes_are_read_back(bytes@);
}

/// The envelope names the feed and the instant, in milliseconds and in words.
pub open spec fn names(event: RawWsEvent, spec: FeedSpec, mts: i64, at: Seq<char>) -> bool {
    &&& event.exchange@ == spec.exchange@
    &&& event.symbol@ == spec.symbol@
    &&& event.channel@ == spec.channel@
    &&& event.connection_id@ == spec.connection_id@
    &&& event.received_mts == mts
    &&& event.received_at@ == at
}

/// The files of a day's messages lie below exchange, symbol and channel, and the file that is opened
/// for a message is that of the message's day; one that is open for the day stays open.
pub proof fn messages_are_written_to_their_days_file(
    exchange: &str,
    symbol: &str,
    channel: &str,
    made: Result<DailyCapture, String>,
    first: &mut DailyCapture,
    second: &mut DailyCapture,
    a: CivilDate,
    b: CivilDate,
    opening: CaptureChange,
    change: CaptureChange,
    dir: Vec<String>,
    exchange_name: Result<String, String>,
    symbol_name: Result<String, String>,
    channel_name: Result<String, String>,
    symbol_part: &str,
    channel_part: &str,
    name: String,
)
    requires
        call_ensures(DailyCapture::create, (exchange, symbol, channel), made),
        made is Ok,
        *old(first) == made->Ok_0,
        call_ensures(DailyCapture::write_event, (first, a), opening),
        *old(second) == *final(first),
        call_ensures(DailyCapture::write_event, (second, b), change),
        call_ensures(DailyCapture::partition_dir, (&*final(second),), dir),
        call_ensures(symbol_partition_name, (exchange,), exchange_name),
        call_ensures(symbol_partition_name, (symbol,), symbol_name),
        call_ensures(symbol_partition_name, (channel,), channel_name),
        exchange_name is Ok && symbol_name is Ok && channel_name is Ok,
        b.valid(),
        symbol_part@ == symbol_name->Ok_0@,
        channel_part@ == channel_name->Ok_0@,
        call_ensures(daily_stream_file_name, (symbol_part, channel_part, b), name),
    ensures
        !opening.finish && opening.open is Some,
        dir@.len() == 3,
        dir@[0]@ == exchange_name->Ok_0@,
        dir@[1]@ == symbol_name->Ok_0@,
        dir@[2]@ == channel_name->Ok_0@,
        a == b ==> !change.finish && change.open is None,
        a != b ==> change.finish && change.open is Some && change.open->Some_0@ == name@,
{
    let texts = text::texts(dir@);
    assert(texts.len() == 3);
    assert(texts[0] == dir@[0]@ && texts[1] == dir@[1]@ && texts[2] == dir@[2]@);
}

/// Closing finishes the file that is open, if one is, and leaves none open.
pub proof fn closing_finishes_the_open_file(capture: &mut DailyCapture, finish: bool)
    requires
        call_ensures(DailyCapture::close, (capture,), finish),
    ensures
        finish <==> old(capture).current_date is Some,
        final(capture).current_date is None,
        final(capture).directory() == old(capture).directory(),
{
    assert(final(capture).directory() =~= old(capture).directory());
}

/// A part of a path keeps every letter, in lower case, every digit, `-` and `_`, each in its place;
/// anything else is an underscore.
pub proof fn path_parts_keep_their_characters(symbol: &str, r: Result<String, String>, i: int)
    requires
        call_ensures(symbol_partition_name, (symbol,), r),
        0 <= i < symbol@.len(),
    ensures
        r is Ok,
        r->Ok_0@.len() == symbol@.len(),
        ({
            let c = symbol@[i];
            let p = r->Ok_0@[i];
            &&& 'a' <= c <= 'z' || '0' <= c <= '9' || c == '-' || c == '_' ==> p == c
            &&& 'A' <= c <= 'Z' ==> p as int == c as int + 32
            &&& !('a' <= c <= 'z' || '0' <= c <= '9' || c == '-' || c == '_' || 'A' <= c <= 'Z')
                ==> p == '_'
        }),
{
    assert(r->Ok_0@[i] == paths::path_char(symbol@[i]));
}

/// The files of a day are named after symbol, dataset or channel, and day; a file that is not
/// complete has another name.
pub proof fn files_are_named_after_their_day(
    symbol_name: &str,
    part: &str,
    date: CivilDate,
    label: String,
    trades: String,
    raw: String,
    rows: String,
    complete: &str,
    unfinished: String,
)
    requires
        call_ensures(crate::calendar::date_label, (date,), label),
        call_ensures(daily_file_name, (symbol_name, date), trades),
        call_ensures(daily_stream_file_name, (symbol_name, part, date), raw),
        call_ensures(normalized_file_name, (symbol_name, part, date), rows),
        complete@ == rows@,
        call_ensures(parquet_tmp_name, (complete,), unfinished),
    ensures
        trades@ == symbol_name@ + seq!['_'] + label@ + ".parquet"@,
        raw@ == symbol_name@ + seq!['_'] + part@ + seq!['_'] + label@ + ".jsonl.zst"@,
        rows@ == symbol_name@ + seq!['_'] + part@ + seq!['_'] + label@ + ".parquet"@,
        rows@.is_prefix_of(unfinished@),
        unfinished@ != rows@,
{
    reveal_strlit("_");
    reveal_strlit(".tmp");
    assert("_"@ =~= seq!['_']);
    assert(unfinished@.len() == rows@.len() + 4);
    assert(rows@.is_prefix_of(unfinished@));
}

/// The feed of Bitfinex subscribes to the book and to the trades of the symbol: each message says
/// what the channel is for, and names the symbol.
pub proof fn bitfinex_is_subscribed_to(symbol: &str, specs: Vec<FeedSpec>, i: int)
    requires
        call_ensures(bitfinex_stream_specs, (symbol,), specs),
        0 <= i < specs@.len(),
    ensures
        specs@.len() == 2,
        specs@[i].exchange@ == "bitfinex"@,
        specs@[i].symbol@ == symbol@,
        specs@[i].behavior == FeedBehavior::Static,
        specs@[i].heartbeat_policy == HeartbeatPolicy::Required,
        specs@[i].url@ == "wss://api-pub.bitfinex.com/ws/2"@,
        specs@[i].connection_id@ == "bitfinex-"@ + symbol@ + "-"@ + specs@[i].channel@,
        specs@[i].subscribe_messages@.len() == 1,
        ({
            let sent = specs@[i].subscribe_messages@[0]@;
            &&& sent.field("event"@) == Some(JsonTree::Text("subscribe"@))
            &&& sent.field("symbol"@) == Some(JsonTree::Text(symbol@))
            &&& i == 0 ==> specs@[i].channel@ == "book_l25"@ && sent.field("channel"@) == Some(
                JsonTree::Text("book"@),
            ) && sent.field("len"@) == Some(JsonTree::Text("25"@)) && sent.field("prec"@) == Some(
                JsonTree::Text("P0"@),
            ) && sent.field("freq"@) == Some(JsonTree::Text("F0"@))
            &&& i == 1 ==> specs@[i].channel@ == "trades"@ && sent.field("channel"@) == Some(
                JsonTree::Text(specs@[i].channel@),
            )
        }),
{
    let all = stream::feeds(specs@);
    assert(all.len() == specs@.len());
    assert(all[i] == specs@[i]@);
    assert(all[i].subscribe_messages.len() == 1);
    assert(all[i].subscribe_messages[0] == specs@[i].subscribe_messages@[0]@);
    reveal_strlit("event");
    reveal_strlit("channel");
    reveal_strlit("symbol");
    reveal_strlit("prec");
    reveal_strlit("freq");
    reveal_strlit("len");
    assert("event"@.len() == 5 && "channel"@.len() == 7 && "symbol"@.len() == 6 && "prec"@.len()
        == 4 && "len"@.len() == 3);
    assert("prec"@[0] != "freq"@[0]);
}

/// The feeds of an Extended market end in the market itself, each under a path of its own; the spot
/// market has those for book and trades. None of them is ended by a missing pong.
pub proof fn extended_markets_are_read(
    market: &str,
    specs: Vec<FeedSpec>,
    spot: Vec<FeedSpec>,
    i: int,
)
    requires
        call_ensures(extended_stream_specs, (market,), specs),
        call_ensures(extended_spot_stream_specs, (market,), spot),
        0 <= i < specs@.len(),
    ensures
        specs@.len() == 5,
        spot@.len() == 2,
        i < 2 ==> spot@[i]@ == specs@[i]@,
        specs@[i].exchange@ == "extended"@,
        specs@[i].symbol@ == market@,
        specs@[i].heartbeat_policy == HeartbeatPolicy::BestEffort,
        specs@[i].behavior == FeedBehavior::Static,
        specs@[i].subscribe_messages@.len() == 0,
        specs@[i].connection_id@ == "extended-"@ + market@ + "-"@ + specs@[i].channel@,
        specs@[i].url@
            == "wss://api.starknet.extended.exchange/stream.extended.exchange/v1/"@ + (
        if specs@[i].channel@ == "orderbook"@ {
            "orderbooks/"@
        } else if specs@[i].channel@ == "trades"@ {
            "publicTrades/"@
        } else if specs@[i].channel@ == "funding"@ {
            "funding/"@
        } else if specs@[i].channel@ == "mark_price"@ {
            "prices/mark/"@
        } else {
            "prices/index/"@
        }) + market@,
        specs@[i].channel@ == seq![
            "orderbook"@,
            "trades"@,
            "funding"@,
            "mark_price"@,
            "index_price"@,
        ][i],
{
    let all = stream::feeds(specs@);
    let short = stream::feeds(spot@);
    assert(all.len() == specs@.len() && short.len() == spot@.len());
    assert(all[i] == specs@[i]@);
    assert(all[i].subscribe_messages.len() == specs@[i].subscribe_messages@.len());
    if i < 2 {
        assert(short[i] == spot@[i]@);
    }
    reveal_strlit("orderbook");
    reveal_strlit("trades");
    reveal_strlit("funding");
    reveal_strlit("mark_price");
    reveal_strlit("index_price");
    assert("orderbook"@.len() == 9 && "trades"@.len() == 6 && "funding"@.len() == 7
        && "mark_price"@.len() == 10 && "index_price"@.len() == 11);
}

/// The Hibachi feed subscribes to its topics for the symbol, all in one message.
pub proof fn hibachi_is_subscribed_to(args: &StreamArgs, spec: FeedSpec, i: int)
    requires
        call_ensures(hibachi_stream_spec, (args,), spec),
        0 <= i < 6,
    ensures
        spec.exchange@ == "hibachi"@,
        spec.symbol@ == args.hibachi_symbol@,
        spec.url@ == args.hibachi_url@,
        spec.channel@ == "market_data"@,
        spec.connection_id@ == "hibachi-"@ + spec.symbol@ + "-"@ + spec.channel@,
        spec.heartbeat_policy == HeartbeatPolicy::Required,
        spec.behavior == FeedBehavior::Static,
        spec.subscribe_messages@.len() == 1,
        ({
            let sent = spec.subscribe_messages@[0]@;
            let topics = json::array_of(
                json::under(sent.field("parameters"@), "subscriptions"@),
            );
            &&& sent.field("method"@) == Some(JsonTree::Text("subscribe"@))
            &&& topics is Some
            &&& topics->Some_0.len() == 6
            &&& topics->Some_0[i].field("symbol"@) == Some(JsonTree::Text(spec.symbol@))
            &&& topics->Some_0[i].field("topic"@) == Some(
                JsonTree::Text(
                    seq![
                        "mark_price"@,
                        "spot_price"@,
                        "funding_rate_estimation"@,
                        "trades"@,
                        "orderbook"@,
                        "ask_bid_price"@,
                    ][i],
                ),
            )
        }),
{
    let feed = spec@;
    assert(feed.subscribe_messages.len() == 1);
    assert(feed.subscribe_messages[0] == spec.subscribe_messages@[0]@);
    reveal_strlit("parameters");
    reveal_strlit("subscriptions");
    reveal_strlit("method");
    reveal_strlit("symbol");
    reveal_strlit("topic");
    reveal_strlit("-market_data");
    reveal_strlit("market_data");
    reveal_strlit("-");
    assert("parameters"@.len() == 10 && "method"@.len() == 6);
    assert("symbol"@.len() == 6 && "topic"@.len() == 5);
    assert("-market_data"@ =~= "-"@ + "market_data"@);
    assert("hibachi-"@ + spec.symbol@ + "-market_data"@ =~= "hibachi-"@ + spec.symbol@ + "-"@
        + "market_data"@);
}

/// Deribit messages are recorded under the exchange, the symbol and the connection of the Deribit
/// feed, and Hyperliquid messages under those of the Hyperliquid feed with the market's symbol.
pub proof fn outputs_belong_to_their_feeds(
    args: &StreamArgs,
    deribit: FeedSpec,
    hyperliquid: FeedSpec,
    channel: &'static str,
    market: &str,
    deribit_output: FeedSpec,
    hyperliquid_output: FeedSpec,
)
    requires
        call_ensures(deribit_stream_spec, (args,), deribit),
        call_ensures(hyperliquid_stream_spec, (), hyperliquid),
        call_ensures(deribit_output_spec, (channel,), deribit_output),
        call_ensures(hyperliquid_output_spec, (market, channel), hyperliquid_output),
    ensures
        deribit.exchange@ == "deribit"@,
        deribit.symbol@ == "BTC"@,
        deribit.url@ == args.deribit_url@,
        deribit.behavior == FeedBehavior::DeribitInstrumentDiscovery,
        deribit.heartbeat_policy == HeartbeatPolicy::BestEffort,
        deribit_output.exchange@ == deribit.exchange@,
        deribit_output.symbol@ == deribit.symbol@,
        deribit_output.connection_id@ == deribit.connection_id@,
        deribit_output.channel@ == channel@,
        hyperliquid.exchange@ == "hyperliquid"@,
        hyperliquid.behavior == FeedBehavior::HyperliquidSpot,
        hyperliquid_output.exchange@ == hyperliquid.exchange@,
        hyperliquid_output.connection_id@ == hyperliquid.connection_id@,
        hyperliquid_output.symbol@ == market@,
        hyperliquid_output.channel@ == channel@,
        deribit.connection_id@ != hyperliquid.connection_id@,
{
    reveal_strlit("deribit-BTC-instruments");
    reveal_strlit("hyperliquid-spot-btc");
    assert("deribit-BTC-instruments"@[0] != "hyperliquid-spot-btc"@[0]);
}

/// A recording runs the feeds of its venues, one venue behind the other: what is recorded of two
/// lists of venues is what is recorded of the first and then of the second.
pub proof fn venues_are_recorded_one_behind_the_other(
    both: &StreamArgs,
    one: &StreamArgs,
    other: &StreamArgs,
    all: Vec<FeedSpec>,
    front: Vec<FeedSpec>,
    back: Vec<FeedSpec>,
)
    requires
        both.venues@ == one.venues@ + other.venues@,
        same_markets(*both, *one),
        same_markets(*both, *other),
        call_ensures(stream::stream_specs, (both,), all),
        call_ensures(stream::stream_specs, (one,), front),
        call_ensures(stream::stream_specs, (other,), back),
    ensures
        stream::feeds(all@) == stream::feeds(front@) + stream::feeds(back@),
{
    lemma_same_markets(*both, *one, one.venues@);
    lemma_same_markets(*both, *other, other.venues@);
    lemma_feeds_join(*both, one.venues@, other.venues@);
}

/// The two recordings are of the same markets.
pub open spec fn same_markets(a: StreamArgs, b: StreamArgs) -> bool {
    &&& a.bitfinex_symbol@ == b.bitfinex_symbol@
    &&& a.extended_market@ == b.extended_market@
    &&& a.extended_spot_market@ == b.extended_spot_market@
    &&& a.hibachi_symbol@ == b.hibachi_symbol@
    &&& a.hibachi_url@ == b.hibachi_url@
    &&& a.deribit_url@ == b.deribit_url@
}

proof fn lemma_same_markets(a: StreamArgs, b: StreamArgs, venues: Seq<StreamVenue>)
    requires
        same_markets(a, b),
    ensures
        stream::stream_feeds(a, venues) == stream::stream_feeds(b, venues),
    decreases venues.len(),
{
    if venues.len() > 0 {
        lemma_same_markets(a, b, venues.drop_last());
    }
}

proof fn lemma_feeds_join(args: StreamArgs, front: Seq<StreamVenue>, back: Seq<StreamVenue>)
    ensures
        stream::stream_feeds(args, front + back) == stream::stream_feeds(args, front)
            + stream::stream_feeds(args, back),
    decreases back.len(),
{
    if back.len() == 0 {
        assert(front + back =~= front);
    } else {
        assert((front + back).drop_last() =~= front + back.drop_last());
        lemma_feeds_join(args, front, back.drop_last());
    }
    assert(stream::stream_feeds(args, front + back) =~= stream::stream_feeds(args, front)
        + stream::stream_feeds(args, back));
}

/// A recording of one venue runs just the feeds of that venue.
pub proof fn a_venue_is_recorded_by_its_feeds(
    args: &StreamArgs,
    all: Vec<FeedSpec>,
    symbol: &str,
    market: &str,
    spot_market: &str,
    bitfinex: Vec<FeedSpec>,
    extended: Vec<FeedSpec>,
    spot: Vec<FeedSpec>,
    hibachi: FeedSpec,
    deribit: FeedSpec,
    hyperliquid: FeedSpec,
)
    requires
        args.venues@.len() == 1,
        call_ensures(stream::stream_specs, (args,), all),
        symbol@ == args.bitfinex_symbol@,
        market@ == args.extended_market@,
        spot_market@ == args.extended_spot_market@,
        call_ensures(bitfinex_stream_specs, (symbol,), bitfinex),
        call_ensures(extended_stream_specs, (market,), extended),
        call_ensures(extended_spot_stream_specs, (spot_market,), spot),
        call_ensures(hibachi_stream_spec, (args,), hibachi),
        call_ensures(deribit_stream_spec, (args,), deribit),
        call_ensures(hyperliquid_stream_spec, (), hyperliquid),
    ensures
        stream::feeds(all@) == match args.venues@[0] {
            StreamVenue::Bitfinex => stream::feeds(bitfinex@),
            StreamVenue::Extended => stream::feeds(extended@) + stream::feeds(spot@),
            StreamVenue::Hibachi => seq![hibachi@],
            StreamVenue::Deribit => seq![deribit@],
            StreamVenue::Hyperliquid => seq![hyperliquid@],
        },
{
    reveal_with_fuel(stream::stream_feeds, 2);
    assert(args.venues@.drop_last() =~= Seq::empty());
    assert(stream::feeds(all@) =~= stream::venue_feeds(*args, args.venues@[0]));
}

/// The arguments of a recording are accepted just where every market, URL and list that a feed may
/// need is there; and the feeds are then those of the recording.
pub proof fn accepted_recordings_can_be_run(
    args: &StreamArgs,
    r: Result<Vec<FeedSpec>, StreamArgsError>,
    specs: Vec<FeedSpec>,
)
    requires
        call_ensures(selected_feeds, (args,), r),
        call_ensures(stream::stream_specs, (args,), specs),
    ensures
        r is Ok <==> {
            &&& args.venues@.len() > 0
            &&& args.bitfinex_symbol@.len() > 0
            &&& args.extended_market@.len() > 0
            &&& args.extended_spot_market@.len() > 0
            &&& args.hibachi_symbol@.len() > 0
            &&& args.deribit_url@.len() > 0
            &&& args.deribit_kinds@.len() > 0
            &&& args.hyperliquid_spot_coin matches Some(coin) ==> coin@.len() > 0
            &&& args.max_messages matches Some(max) ==> max > 0
        },
        r is Ok ==> r->Ok_0@.len() > 0 && stream::feeds(r->Ok_0@) == stream::feeds(specs@),
{
}

/// The recording of the stable venues takes over what it is given, and records futures and options
/// of Deribit; Extended is the one venue that it leaves out.
pub proof fn stable_recordings_take_over_their_arguments(args: BtcArgs, r: StreamArgs)
    requires
        call_ensures(btc_stream_args, (args,), r),
    ensures
        r.venues@.contains(StreamVenue::Bitfinex),
        r.venues@.contains(StreamVenue::Hibachi),
        r.venues@.contains(StreamVenue::Deribit),
        r.venues@.contains(StreamVenue::Hyperliquid),
        !r.venues@.contains(StreamVenue::Extended),
        r.venues@.no_duplicates(),
        r.deribit_kinds@.contains(DeribitInstrumentKind::Future),
        r.deribit_kinds@.contains(DeribitInstrumentKind::Option),
        r.output_dir@ == args.output_dir@,
        r.hibachi_url@ == args.hibachi_url@,
        r.deribit_url@ == args.deribit_url@,
        r.hyperliquid_spot_coin == args.hyperliquid_spot_coin,
        r.zstd_level == args.zstd_level,
        r.max_messages == args.max_messages,
        r.reconnect_delay_secs == args.reconnect_delay_secs,
        r.heartbeat_secs == args.heartbeat_secs,
        r.bitfinex_symbol@ == "tBTCUSD"@,
        r.hibachi_symbol@ == "BTC/USDT-P"@,
        r.deribit_trades_interval@ == "100ms"@,
{
    let v = r.venues@;
    assert(v[0] == StreamVenue::Bitfinex && v[1] == StreamVenue::Hibachi && v[2]
        == StreamVenue::Deribit && v[3] == StreamVenue::Hyperliquid);
    assert(r.deribit_kinds@[0] == DeribitInstrumentKind::Future && r.deribit_kinds@[1]
        == DeribitInstrumentKind::Option);
}

/// A trade interval is taken as it is, or refused; the default is one that is taken.
pub proof fn trade_intervals_are_taken_as_they_are(value: &str, r: Result<String, String>)
    requires
        call_ensures(parse_deribit_trades_interval, (value,), r),
    ensures
        r is Ok ==> r->Ok_0@ == value@,
        r is Ok <==> value@ == "raw"@ || value@ == stream::DEFAULT_DERIBIT_TRADES_INTERVAL@
            || value@ == "agg2"@,
{
}

/// What is refused is what is wrong: each error names what is missing.
pub proof fn refused_recordings_lack_something(
    args: &StreamArgs,
    r: Result<(), StreamArgsError>,
)
    requires
        call_ensures(stream::validate_stream_args, (args,), r),
    ensures
        r is Err ==> match r->Err_0 {
            StreamArgsError::NoVenue => args.venues@.len() == 0,
            StreamArgsError::EmptyBitfinexSymbol => args.bitfinex_symbol@.len() == 0,
            StreamArgsError::EmptyExtendedMarket => args.extended_market@.len() == 0,
            StreamArgsError::EmptyExtendedSpotMarket => args.extended_spot_market@.len() == 0,
            StreamArgsError::EmptyHibachiSymbol => args.hibachi_symbol@.len() == 0,
            StreamArgsError::EmptyDeribitUrl => args.deribit_url@.len() == 0,
            StreamArgsError::NoDeribitKind => args.deribit_kinds@.len() == 0,
            StreamArgsError::EmptyHyperliquidCoin => args.hyperliquid_spot_coin is Some
                && args.hyperliquid_spot_coin->Some_0@.len() == 0,
            StreamArgsError::ZeroMaxMessages => args.max_messages == Some(0usize),
        },
{
}

} // verus!
