use modl::deribit::{
    deribit_created_instrument_name, deribit_heartbeat_type,
    deribit_instrument_names_from_get_instruments_response, deribit_output_channel,
    deribit_response_id, DeribitInstrumentKind,
};
use modl::deribit_feed::{
    answer_deribit_heartbeat_test_request, deribit_follow_up, deribit_get_instruments_request,
    deribit_initial_channels, deribit_instrument_channels, deribit_lifecycle_channels,
    deribit_opening_request, deribit_public_test_request, deribit_set_heartbeat_request, deribit_subscribe_request,
    maybe_answer_deribit_heartbeat_test_request, maybe_subscribe_deribit_created_instrument,
    maybe_subscribe_deribit_get_instruments, FeedRuntimeState, FollowUp, FollowUpStep,
    OpeningPurpose,
};
use modl::feed::{
    after_feed_run, deribit_channel_for, end_turn, feed_turn, is_expected_websocket_reconnect_error,
    is_remote_ping_timeout_close, message_limit_reached, reconnects_after_signal, shutdown_event,
    websocket_close_report, CloseFrame, FeedRunStatus, FeedTurn, IoErrorKind, LoopStep,
    MessageAction, NextWebsocketEvent, ProtocolError, WsError, WsMessage,
};
use modl::heartbeat::{
    heartbeat_payload, websocket_heartbeat_duration, HeartbeatPolicy, HeartbeatState,
};
use modl::hyperliquid::{
    configured_hyperliquid_target, end_hyperliquid_turn, handle_hyperliquid_event,
    hyperliquid_output_channel, hyperliquid_turn, resolve_hyperliquid_spot_target,
    HyperliquidEvent, HyperliquidIncoming, HyperliquidTurn, NextHyperliquidEvent, SpotMarket,
};
use modl::json::Json;
use modl::number::JsonNumber;
use modl::stream::{
    bitfinex_stream_specs, btc_stream_args, deribit_stream_spec, extended_spot_stream_specs,
    extended_stream_specs, hibachi_stream_spec, hyperliquid_stream_spec,
    parse_deribit_trades_interval, selected_feeds, stream_specs, validate_stream_args, BtcArgs,
    FeedBehavior, StreamArgs, StreamArgsError, StreamVenue, DEFAULT_DERIBIT_TRADES_INTERVAL,
    DEFAULT_DERIBIT_WS_URL, DEFAULT_EXTENDED_MARKET, DEFAULT_EXTENDED_SPOT_MARKET,
    DEFAULT_HIBACHI_MARKET_WS_URL, DEFAULT_HIBACHI_SYMBOL, DEFAULT_SYMBOL,
    DEFAULT_WS_HEARTBEAT_SECS,
};
use modl::wire::{json_document, parse_json};

fn value(document: &str) -> Json {
    parse_json(document).expect("valid JSON")
}

fn sample_args(venues: Vec<StreamVenue>) -> StreamArgs {
    StreamArgs {
        venues,
        output_dir: "/tmp/modl-ws".to_owned(),
        bitfinex_symbol: DEFAULT_SYMBOL.to_owned(),
        extended_market: DEFAULT_EXTENDED_MARKET.to_owned(),
        extended_spot_market: DEFAULT_EXTENDED_SPOT_MARKET.to_owned(),
        hibachi_symbol: DEFAULT_HIBACHI_SYMBOL.to_owned(),
        hibachi_url: DEFAULT_HIBACHI_MARKET_WS_URL.to_owned(),
        deribit_url: DEFAULT_DERIBIT_WS_URL.to_owned(),
        deribit_kinds: vec![DeribitInstrumentKind::Future, DeribitInstrumentKind::Option],
        deribit_trades_interval: DEFAULT_DERIBIT_TRADES_INTERVAL.to_owned(),
        hyperliquid_spot_coin: None,
        zstd_level: 6,
        max_messages: None,
        reconnect_delay_secs: 5,
        heartbeat_secs: DEFAULT_WS_HEARTBEAT_SECS,
    }
}

#[test]
fn builds_stream_presets() {
    let bitfinex = bitfinex_stream_specs("tBTCUSD");
    assert_eq!(bitfinex.len(), 2);
    assert_eq!(bitfinex[0].channel, "book_l25");
    assert_eq!(bitfinex[1].channel, "trades");

    let extended = extended_stream_specs("BTC-USD");
    assert_eq!(extended.len(), 5);
    assert!(extended.iter().any(|spec| spec.channel == "orderbook"));
    assert!(extended.iter().any(|spec| spec.channel == "mark_price"));
    assert!(extended
        .iter()
        .all(|spec| spec.heartbeat_policy == HeartbeatPolicy::BestEffort));

    let extended_spot = extended_spot_stream_specs("BTCSPOT-USD");
    assert_eq!(extended_spot.len(), 2);
    assert!(extended_spot.iter().any(|spec| spec.channel == "orderbook"));
    assert!(extended_spot.iter().any(|spec| spec.channel == "trades"));
    assert!(extended_spot
        .iter()
        .all(|spec| spec.heartbeat_policy == HeartbeatPolicy::BestEffort));

    let deribit = deribit_stream_spec(&sample_args(vec![StreamVenue::Deribit]));
    assert_eq!(deribit.exchange, "deribit");
    assert_eq!(deribit.heartbeat_policy, HeartbeatPolicy::BestEffort);

    let hyperliquid = hyperliquid_stream_spec();
    assert_eq!(hyperliquid.exchange, "hyperliquid");
    assert_eq!(hyperliquid.behavior, FeedBehavior::HyperliquidSpot);
}

#[test]
fn subscribes_to_books_trades_and_topics() {
    let bitfinex = bitfinex_stream_specs("tBTCUSD");
    let book = &bitfinex[0].subscribe_messages[0];
    assert_eq!(book.get("channel").and_then(Json::as_str), Some("book"));
    assert_eq!(book.get("len").and_then(Json::as_str), Some("25"));
    assert_eq!(book.get("symbol").and_then(Json::as_str), Some("tBTCUSD"));
    let trades = &bitfinex[1].subscribe_messages[0];
    assert_eq!(trades.get("channel").and_then(Json::as_str), Some("trades"));

    let hibachi = hibachi_stream_spec(&sample_args(vec![StreamVenue::Hibachi]));
    assert_eq!(hibachi.channel, "market_data");
    assert_eq!(hibachi.url, DEFAULT_HIBACHI_MARKET_WS_URL);
    assert_eq!(hibachi.heartbeat_policy, HeartbeatPolicy::Required);
    assert_eq!(hibachi.subscribe_messages.len(), 1);
    assert!(deribit_stream_spec(&sample_args(vec![StreamVenue::Deribit]))
        .subscribe_messages
        .is_empty());
}

#[test]
fn btc_shortcut_expands_to_all_btc_streams() {
    let args = btc_stream_args(BtcArgs {
        output_dir: "/tmp/modl-btc".to_owned(),
        zstd_level: 6,
        max_messages: Some(1),
        reconnect_delay_secs: 5,
        heartbeat_secs: DEFAULT_WS_HEARTBEAT_SECS,
        hibachi_url: DEFAULT_HIBACHI_MARKET_WS_URL.to_owned(),
        deribit_url: DEFAULT_DERIBIT_WS_URL.to_owned(),
        hyperliquid_spot_coin: None,
    });

    assert_eq!(
        args.venues,
        vec![
            StreamVenue::Bitfinex,
            StreamVenue::Hibachi,
            StreamVenue::Deribit,
            StreamVenue::Hyperliquid,
        ]
    );
    assert_eq!(args.output_dir, "/tmp/modl-btc");
    assert_eq!(args.extended_spot_market, DEFAULT_EXTENDED_SPOT_MARKET);
    assert_eq!(stream_specs(&args).len(), 5);
}

#[test]
fn the_stable_recording_has_no_extended_feed() {
    let args = btc_stream_args(BtcArgs {
        output_dir: "/tmp/modl-btc".to_owned(),
        zstd_level: 6,
        max_messages: None,
        reconnect_delay_secs: 5,
        heartbeat_secs: 20,
        hibachi_url: DEFAULT_HIBACHI_MARKET_WS_URL.to_owned(),
        deribit_url: DEFAULT_DERIBIT_WS_URL.to_owned(),
        hyperliquid_spot_coin: None,
    });
    assert!(stream_specs(&args).iter().all(|spec| spec.exchange != "extended"));
}

#[test]
fn every_feed_belongs_to_a_selected_venue() {
    let args = sample_args(vec![
        StreamVenue::Bitfinex,
        StreamVenue::Extended,
        StreamVenue::Hibachi,
        StreamVenue::Deribit,
        StreamVenue::Hyperliquid,
    ]);
    let feeds = selected_feeds(&args).expect("valid arguments");
    assert_eq!(feeds.len(), 12);
    for feed in &feeds {
        let best_effort = feed.exchange == "extended" || feed.exchange == "deribit";
        assert_eq!(feed.heartbeat_policy == HeartbeatPolicy::BestEffort, best_effort);
    }
}

#[test]
fn checks_the_arguments_of_a_recording() {
    let valid = || sample_args(vec![StreamVenue::Bitfinex]);
    assert_eq!(validate_stream_args(&valid()), Ok(()));
    let mut cases: Vec<(StreamArgs, StreamArgsError, &str)> = Vec::new();
    cases.push((
        sample_args(Vec::new()),
        StreamArgsError::NoVenue,
        "at least one --venue is required",
    ));
    let mut args = valid();
    args.bitfinex_symbol = String::new();
    cases.push((args, StreamArgsError::EmptyBitfinexSymbol, "bitfinex symbol cannot be empty"));
    let mut args = valid();
    args.extended_market = String::new();
    cases.push((args, StreamArgsError::EmptyExtendedMarket, "extended market cannot be empty"));
    let mut args = valid();
    args.extended_spot_market = String::new();
    cases.push((
        args,
        StreamArgsError::EmptyExtendedSpotMarket,
        "extended spot market cannot be empty",
    ));
    let mut args = valid();
    args.hibachi_symbol = String::new();
    cases.push((args, StreamArgsError::EmptyHibachiSymbol, "hibachi symbol cannot be empty"));
    let mut args = valid();
    args.deribit_url = String::new();
    cases.push((args, StreamArgsError::EmptyDeribitUrl, "deribit URL cannot be empty"));
    let mut args = valid();
    args.deribit_kinds = Vec::new();
    cases.push((
        args,
        StreamArgsError::NoDeribitKind,
        "at least one --deribit-kind is required",
    ));
    let mut args = valid();
    args.hyperliquid_spot_coin = Some(String::new());
    cases.push((
        args,
        StreamArgsError::EmptyHyperliquidCoin,
        "hyperliquid spot coin cannot be empty",
    ));
    let mut args = valid();
    args.max_messages = Some(0);
    cases.push((
        args,
        StreamArgsError::ZeroMaxMessages,
        "max-messages must be greater than zero",
    ));
    for (args, error, words) in cases {
        assert_eq!(validate_stream_args(&args), Err(error));
        assert_eq!(selected_feeds(&args).err(), Some(error));
        assert_eq!(error.message(), words);
    }
}

#[test]
fn knows_the_deribit_trade_intervals() {
    for interval in ["raw", "100ms", "agg2"] {
        assert_eq!(parse_deribit_trades_interval(interval).as_deref(), Ok(interval));
    }
    assert_eq!(
        parse_deribit_trades_interval("1s").expect_err("no interval"),
        "Deribit trades interval must be one of: raw, 100ms, agg2"
    );
}

#[test]
fn builds_deribit_subscription_channels() {
    let channels = deribit_lifecycle_channels(&[
        DeribitInstrumentKind::Future,
        DeribitInstrumentKind::Option,
    ]);
    assert_eq!(
        channels,
        vec![
            "instrument.creation.future.BTC",
            "instrument.state.future.BTC",
            "instrument.creation.option.BTC",
            "instrument.state.option.BTC",
        ]
    );

    assert_eq!(
        deribit_instrument_channels("BTC-PERPETUAL", "100ms"),
        vec![
            "incremental_ticker.BTC-PERPETUAL",
            "trades.BTC-PERPETUAL.100ms",
        ]
    );
}

#[test]
fn routes_deribit_messages_to_output_channels() {
    assert_eq!(
        deribit_output_channel(
            r#"{"jsonrpc":"2.0","method":"subscription","params":{"channel":"instrument.creation.future.BTC","data":{}}}"#
        ),
        "instrument_creation"
    );
    assert_eq!(
        deribit_output_channel(
            r#"{"jsonrpc":"2.0","method":"subscription","params":{"channel":"instrument.state.option.BTC","data":{}}}"#
        ),
        "instrument_state"
    );
    assert_eq!(
        deribit_output_channel(
            r#"{"jsonrpc":"2.0","method":"subscription","params":{"channel":"incremental_ticker.BTC-PERPETUAL","data":{}}}"#
        ),
        "incremental_ticker"
    );
    assert_eq!(
        deribit_output_channel(
            r#"{"jsonrpc":"2.0","method":"subscription","params":{"channel":"trades.BTC-PERPETUAL.100ms","data":[]}}"#
        ),
        "trades"
    );
    assert_eq!(
        deribit_output_channel(r#"{"jsonrpc":"2.0","id":1}"#),
        "control"
    );
}

#[test]
fn detects_deribit_created_btc_future_or_option() {
    let allowed = [DeribitInstrumentKind::Future, DeribitInstrumentKind::Option];
    let message = value(
        r#"{
            "jsonrpc": "2.0",
            "method": "subscription",
            "params": {
                "channel": "instrument.creation.option.BTC",
                "data": {
                    "kind": "option",
                    "base_currency": "BTC",
                    "instrument_name": "BTC-13JAN23-16000-P"
                }
            }
        }"#,
    );
    assert_eq!(
        deribit_created_instrument_name(&message, &allowed).as_deref(),
        Some("BTC-13JAN23-16000-P")
    );

    let eth_message = value(
        r#"{
            "params": {
                "channel": "instrument.creation.option.ETH",
                "data": {
                    "kind": "option",
                    "base_currency": "ETH",
                    "instrument_name": "ETH-13JAN23-16000-P"
                }
            }
        }"#,
    );
    assert_eq!(
        deribit_created_instrument_name(&eth_message, &allowed),
        None
    );
}

const CURRENT_INSTRUMENTS: &str = r#"{
    "jsonrpc": "2.0",
    "id": 2,
    "result": [
        {
            "kind": "future",
            "base_currency": "BTC",
            "instrument_name": "BTC-PERPETUAL",
            "is_active": true
        },
        {
            "kind": "option",
            "base_currency": "BTC",
            "instrument_name": "BTC-13JAN23-16000-P",
            "is_active": true
        },
        {
            "kind": "option",
            "base_currency": "ETH",
            "instrument_name": "ETH-13JAN23-16000-P",
            "is_active": true
        },
        {
            "kind": "future",
            "base_currency": "BTC",
            "instrument_name": "BTC-INACTIVE",
            "is_active": false
        },
        {
            "kind": "spot",
            "base_currency": "BTC",
            "instrument_name": "BTC_USDC",
            "is_active": true
        }
    ]
}"#;

#[test]
fn extracts_current_deribit_btc_instruments() {
    let allowed = [DeribitInstrumentKind::Future, DeribitInstrumentKind::Option];
    let message = value(CURRENT_INSTRUMENTS);

    assert_eq!(
        deribit_instrument_names_from_get_instruments_response(&message, &allowed),
        vec!["BTC-PERPETUAL", "BTC-13JAN23-16000-P"]
    );
    assert_eq!(deribit_response_id(&message), Some(2));
}

#[test]
fn follows_each_instrument_once() {
    let allowed = [DeribitInstrumentKind::Future, DeribitInstrumentKind::Option];
    let mut state = FeedRuntimeState::new();
    let first = deribit_get_instruments_request(&mut state, &allowed, 0).expect("a request");
    assert_eq!(first.pause_millis, 1000);
    let second = deribit_get_instruments_request(&mut state, &allowed, 1).expect("a request");
    assert!(second.message.contains(r#""kind":"option""#));
    assert!(deribit_get_instruments_request(&mut state, &allowed, 2).is_none());
    assert_eq!(state.request_id, 2);

    let channels =
        maybe_subscribe_deribit_get_instruments(CURRENT_INSTRUMENTS, &allowed, "100ms", &mut state)
            .expect("an answer");
    assert_eq!(
        channels,
        vec![
            "incremental_ticker.BTC-PERPETUAL",
            "trades.BTC-PERPETUAL.100ms",
            "incremental_ticker.BTC-13JAN23-16000-P",
            "trades.BTC-13JAN23-16000-P.100ms",
        ]
    );
    let again =
        maybe_subscribe_deribit_get_instruments(CURRENT_INSTRUMENTS, &allowed, "100ms", &mut state)
            .expect("an answer that was seen");
    assert!(again.is_empty());

    let created = r#"{"params":{"channel":"instrument.creation.option.BTC","data":{"kind":"option","base_currency":"BTC","instrument_name":"BTC-13JAN23-16000-P"}}}"#;
    assert!(
        maybe_subscribe_deribit_created_instrument(created, &allowed, "100ms", &mut state)
            .is_empty()
    );
    let fresh = created.replace("16000", "17000");
    assert_eq!(
        maybe_subscribe_deribit_created_instrument(&fresh, &allowed, "raw", &mut state),
        vec![
            "incremental_ticker.BTC-13JAN23-17000-P",
            "trades.BTC-13JAN23-17000-P.raw"
        ]
    );
    assert_eq!(state.instruments.len(), 3);
    assert_eq!(deribit_initial_channels(&state, &allowed, "raw").len(), 4 + 2 * 3);
}

#[test]
fn reports_an_error_answer_to_a_request_for_instruments() {
    let allowed = [DeribitInstrumentKind::Future];
    let mut state = FeedRuntimeState::new();
    deribit_get_instruments_request(&mut state, &allowed, 0).expect("a request");
    let refused = maybe_subscribe_deribit_get_instruments(
        r#"{"id":1,"error":{"code":1}}"#,
        &allowed,
        "100ms",
        &mut state,
    );
    assert!(refused.is_err());
    let unasked = maybe_subscribe_deribit_get_instruments(
        r#"{"id":7,"error":{"code":1}}"#,
        &allowed,
        "100ms",
        &mut state,
    );
    assert_eq!(unasked, Ok(Vec::new()));
    let nonsense =
        maybe_subscribe_deribit_get_instruments("nonsense", &allowed, "100ms", &mut state);
    assert_eq!(nonsense, Ok(Vec::new()));
}

#[test]
fn subscriptions_come_in_chunks() {
    let channels: Vec<String> = (0..450).map(|i| format!("c{i}")).collect();
    let mut state = FeedRuntimeState::new();
    let mut named: Vec<String> = Vec::new();
    let mut index = 0;
    while let Some(request) = deribit_subscribe_request(&mut state, &channels, index) {
        assert_eq!(request.pause_millis, if index < 2 { 250 } else { 0 });
        let message = value(&request.message);
        assert_eq!(
            message.get("method").and_then(Json::as_str),
            Some("public/subscribe")
        );
        let list = message
            .get("params")
            .and_then(|params| params.get("channels"))
            .and_then(Json::as_array)
            .expect("channels");
        assert!(list.len() <= 200);
        named.extend(list.iter().map(|name| name.as_str().expect("a name").to_owned()));
        index += 1;
    }
    assert_eq!(index, 3);
    assert_eq!(named, channels);
    assert_eq!(state.request_id, 3);
}

#[test]
fn a_deribit_connection_opens_in_order() {
    let kinds = [DeribitInstrumentKind::Future, DeribitInstrumentKind::Option];
    let channels: Vec<String> = (0..201).map(|i| format!("c{i}")).collect();
    for (heartbeat_secs, heartbeats) in [(20, 1), (0, 0)] {
        let mut state = FeedRuntimeState::new();
        let mut opened = Vec::new();
        while let Some(opening) =
            deribit_opening_request(&mut state, heartbeat_secs, &channels, &kinds, opened.len())
        {
            let message = value(&opening.request.message);
            assert_eq!(deribit_response_id(&message), Some(opened.len() as u64 + 1));
            let method = message.get("method").and_then(Json::as_str).expect("a method");
            opened.push((opening.purpose, opening.request.pause_millis, method.to_owned()));
        }
        let mut expected = vec![(OpeningPurpose::Heartbeat, 0, "public/set_heartbeat".to_owned())];
        expected.truncate(heartbeats);
        expected.extend([
            (OpeningPurpose::Subscribe(0), 250, "public/subscribe".to_owned()),
            (OpeningPurpose::Subscribe(1), 0, "public/subscribe".to_owned()),
            (OpeningPurpose::GetInstruments(0), 1000, "public/get_instruments".to_owned()),
            (OpeningPurpose::GetInstruments(1), 0, "public/get_instruments".to_owned()),
        ]);
        assert_eq!(opened, expected);
        assert_eq!(state.get_instruments_request_ids.len(), 2);
    }
}

#[test]
fn a_deribit_message_is_followed_up_in_order() {
    let kinds = [DeribitInstrumentKind::Future, DeribitInstrumentKind::Option];
    let mut state = FeedRuntimeState::new();
    deribit_get_instruments_request(&mut state, &kinds, 0).expect("a request");
    deribit_get_instruments_request(&mut state, &kinds, 1).expect("a request");
    let mut initial = deribit_initial_channels(&state, &kinds, "raw");
    let created = r#"{"params":{"channel":"instrument.creation.option.BTC","data":{"kind":"option","base_currency":"BTC","instrument_name":"BTC-NEW"}}}"#;
    for (document, counts) in [(CURRENT_INSTRUMENTS, [4, 0]), (created, [0, 2]), ("nonsense", [0, 0])] {
        let mut step = FollowUpStep::AnswerTest;
        let mut seen = Vec::new();
        while step != FollowUpStep::Done {
            let follow_up = deribit_follow_up(document, &kinds, "raw", &mut state, &mut step);
            match follow_up.expect("a step") {
                FollowUp::Answer(answer) => assert_eq!(answer, None),
                FollowUp::Subscribe(channels) => {
                    seen.push(channels.len());
                    initial.extend(channels);
                }
                FollowUp::Nothing => unreachable!(),
            }
        }
        assert_eq!(seen, counts);
        assert_eq!(deribit_initial_channels(&state, &kinds, "raw"), initial);
        let after = deribit_follow_up(document, &kinds, "raw", &mut state, &mut step);
        assert!(matches!(after, Ok(FollowUp::Nothing)));
    }
    let asked = r#"{"method":"heartbeat","params":{"type":"test_request"}}"#;
    let mut step = FollowUpStep::AnswerTest;
    let answer = deribit_follow_up(asked, &kinds, "raw", &mut state, &mut step);
    assert!(matches!(answer, Ok(FollowUp::Answer(Some(_)))));
    deribit_get_instruments_request(&mut state, &kinds, 0).expect("a request");
    let refused = format!(r#"{{"id":{},"error":{{"code":1}}}}"#, state.request_id);
    let mut step = FollowUpStep::FollowCurrent;
    assert_eq!(
        deribit_follow_up(&refused, &kinds, "raw", &mut state, &mut step).expect_err("an error"),
        r#"Deribit get_instruments failed: {"code":1}"#
    );
}

#[test]
fn detects_deribit_heartbeat_test_request() {
    let test_request = value(
        r#"{
            "jsonrpc": "2.0",
            "method": "heartbeat",
            "params": {
                "type": "test_request"
            }
        }"#,
    );
    assert_eq!(deribit_heartbeat_type(&test_request), Some("test_request"));

    let heartbeat = value(
        r#"{
            "jsonrpc": "2.0",
            "method": "heartbeat",
            "params": {
                "type": "heartbeat"
            }
        }"#,
    );
    assert_eq!(deribit_heartbeat_type(&heartbeat), Some("heartbeat"));

    let subscription = value(
        r#"{
            "method": "subscription",
            "params": {
                "channel": "trades.BTC-PERPETUAL.100ms"
            }
        }"#,
    );
    assert_eq!(deribit_heartbeat_type(&subscription), None);
}

#[test]
fn answers_deribit_heartbeat_tests() {
    let mut state = FeedRuntimeState::new();
    let asked = r#"{"method":"heartbeat","params":{"type":"test_request"}}"#;
    let answer =
        maybe_answer_deribit_heartbeat_test_request(asked, &mut state).expect("an answer");
    assert_eq!(
        answer,
        r#"{"id":1,"jsonrpc":"2.0","method":"public/test","params":{}}"#
    );
    assert!(maybe_answer_deribit_heartbeat_test_request("nonsense", &mut state).is_none());
    assert!(answer_deribit_heartbeat_test_request(&value("{}"), &mut state).is_none());
    assert!(deribit_public_test_request(&mut state).contains(r#""id":2"#));
}

#[test]
fn sets_the_deribit_heartbeat_unless_it_is_off() {
    let mut state = FeedRuntimeState::new();
    assert_eq!(deribit_set_heartbeat_request(&mut state, 0), None);
    assert_eq!(state.request_id, 0);
    let short = deribit_set_heartbeat_request(&mut state, 3).expect("a request");
    assert!(short.contains(r#""interval":10"#));
    let long = deribit_set_heartbeat_request(&mut state, 20).expect("a request");
    assert!(long.contains(r#""interval":20"#));
    assert!(long.contains(r#""method":"public/set_heartbeat""#));
}

#[test]
fn treats_websocket_reset_without_close_as_reconnect() {
    assert!(is_expected_websocket_reconnect_error(&WsError::Protocol(
        ProtocolError::ResetWithoutClosingHandshake
    )));
    assert!(is_expected_websocket_reconnect_error(&WsError::Io(
        IoErrorKind::ConnectionReset
    )));
    assert!(!is_expected_websocket_reconnect_error(&WsError::Protocol(
        ProtocolError::Other
    )));
}

#[test]
fn routes_hyperliquid_messages_to_output_channels() {
    assert_eq!(
        hyperliquid_output_channel(&HyperliquidIncoming::Trades),
        "trades"
    );
}

#[test]
fn records_hyperliquid_events() {
    assert_eq!(hyperliquid_output_channel(&HyperliquidIncoming::L2Book), "book");
    assert_eq!(hyperliquid_output_channel(&HyperliquidIncoming::Other), "control");
    assert_eq!(
        handle_hyperliquid_event(HyperliquidEvent::Connected),
        ("control", r#"{"event":"connected"}"#.to_owned())
    );
    assert_eq!(
        handle_hyperliquid_event(HyperliquidEvent::Disconnected),
        ("control", r#"{"event":"disconnected"}"#.to_owned())
    );
    assert_eq!(
        handle_hyperliquid_event(HyperliquidEvent::Message(
            HyperliquidIncoming::Trades,
            "{}".to_owned()
        )),
        ("trades", "{}".to_owned())
    );
}

#[test]
fn a_hyperliquid_connection_ends_complete() {
    let signal = |closed, requested| {
        hyperliquid_turn(NextHyperliquidEvent::Signal { closed, requested })
    };
    assert!(matches!(signal(false, false), HyperliquidTurn::Again));
    for turn in [
        signal(true, false),
        signal(false, true),
        hyperliquid_turn(NextHyperliquidEvent::Ended),
    ] {
        assert!(matches!(turn, HyperliquidTurn::Finish(FeedRunStatus::Complete)));
    }
    match hyperliquid_turn(NextHyperliquidEvent::Event(HyperliquidEvent::Connected)) {
        HyperliquidTurn::Record(channel, text) => {
            assert_eq!(channel, "control");
            assert_eq!(text, r#"{"event":"connected"}"#);
        }
        other => panic!("{other:?}"),
    }
    let mut total: usize = 0;
    assert_eq!(end_hyperliquid_turn(&mut total, Some(2)), None);
    assert_eq!(end_hyperliquid_turn(&mut total, Some(2)), Some(FeedRunStatus::Complete));
    assert_eq!(end_hyperliquid_turn(&mut total, None), None);
    assert_eq!(total, 3);
}

fn market(base: &str, quote: &str, name: &str) -> SpotMarket {
    SpotMarket {
        base: base.to_owned(),
        quote: quote.to_owned(),
        name: name.to_owned(),
        symbol: format!("{base}/{quote}"),
    }
}

#[test]
fn finds_the_btc_spot_market() {
    let markets = vec![market("ETH", "USDC", "@1"), market("UBTC", "USDC", "@142")];
    let target = resolve_hyperliquid_spot_target(&markets).expect("a market");
    assert_eq!(target.subscription_coin, "@142");
    assert_eq!(target.output_symbol, "UBTC/USDC");
    assert_eq!(
        resolve_hyperliquid_spot_target(&vec![market("ETH", "USDC", "@1")])
            .expect_err("no market"),
        "failed to resolve Hyperliquid BTC spot market"
    );
    let set = configured_hyperliquid_target(&Some("@7".to_owned())).expect("a target");
    assert_eq!(set.subscription_coin, "@7");
    assert_eq!(set.output_symbol, "@7");
    assert!(configured_hyperliquid_target(&None).is_none());
}

#[test]
fn classifies_remote_ping_timeout_close_frames() {
    let ping_timeout = CloseFrame {
        code: 1011,
        reason: "Ping timeout".to_owned(),
    };
    assert!(is_remote_ping_timeout_close(&ping_timeout));

    let normal = CloseFrame {
        code: 1000,
        reason: "Normal closure".to_owned(),
    };
    assert!(!is_remote_ping_timeout_close(&normal));
}

#[test]
fn reports_why_a_connection_was_closed() {
    assert_eq!(
        websocket_close_report("feed", &None),
        "feed websocket closed without a close frame"
    );
    assert_eq!(
        websocket_close_report(
            "feed",
            &Some(CloseFrame { code: 1000, reason: "Normal closure".to_owned() })
        ),
        "feed websocket closed: code=1000 reason=\"Normal closure\""
    );
    assert_eq!(
        websocket_close_report(
            "feed",
            &Some(CloseFrame { code: 1011, reason: "ping TIMEOUT".to_owned() })
        ),
        "feed websocket closed: code=1011 reason=\"ping TIMEOUT\"; remote server did not receive our pong before its ping timeout"
    );
}

#[test]
fn builds_websocket_heartbeat_config() {
    assert_eq!(
        websocket_heartbeat_duration(DEFAULT_WS_HEARTBEAT_SECS),
        Some(DEFAULT_WS_HEARTBEAT_SECS)
    );
    assert_eq!(websocket_heartbeat_duration(0), None);

    let payload = heartbeat_payload(42);
    assert_eq!(payload.as_slice(), b"modl:000000000000002a");
    assert!(payload.len() <= 125);

    let mut required = HeartbeatState {
        enabled: false,
        sequence: 0,
        awaiting_pong: Some(heartbeat_payload(1)),
        interval_secs: DEFAULT_WS_HEARTBEAT_SECS,
        policy: HeartbeatPolicy::Required,
    };
    assert!(required.clear_stale_pong_or_timeout("required").is_err());

    let mut best_effort = HeartbeatState {
        enabled: false,
        sequence: 0,
        awaiting_pong: Some(heartbeat_payload(1)),
        interval_secs: DEFAULT_WS_HEARTBEAT_SECS,
        policy: HeartbeatPolicy::BestEffort,
    };
    assert!(best_effort.clear_stale_pong_or_timeout("extended").is_ok());
    assert_eq!(best_effort.awaiting_pong, None);
}

#[test]
fn an_answered_ping_allows_the_next_one() {
    let mut heartbeat = HeartbeatState::new(20, HeartbeatPolicy::Required);
    assert!(heartbeat.is_enabled());
    let first = heartbeat.begin_ping("feed").expect("a ping");
    heartbeat.ping_sent(first.clone());
    heartbeat.observe_pong(b"something else");
    assert_eq!(
        heartbeat.begin_ping("feed").expect_err("no answer"),
        "feed heartbeat pong timeout after 20 seconds"
    );
    heartbeat.observe_pong(&first);
    let second = heartbeat.begin_ping("feed").expect("a ping");
    assert_ne!(first, second);
}

#[test]
fn a_heartbeat_that_is_off_sends_nothing() {
    let mut off = HeartbeatState::new(0, HeartbeatPolicy::Required);
    assert!(!off.is_enabled());
    assert_eq!(
        off.begin_ping("feed").expect_err("no heartbeat"),
        "heartbeat tick requested while heartbeat is disabled"
    );
}

#[test]
fn a_best_effort_heartbeat_goes_on_without_answers() {
    let mut heartbeat = HeartbeatState::new(20, HeartbeatPolicy::BestEffort);
    for _ in 0..5 {
        let ping = heartbeat.begin_ping("feed").expect("a ping");
        heartbeat.ping_sent(ping);
    }
    assert_eq!(heartbeat.sequence, 5);
}

#[test]
fn turns_follow_the_events_of_a_connection() {
    let mut heartbeat = HeartbeatState::new(20, HeartbeatPolicy::Required);
    assert!(matches!(
        feed_turn(NextWebsocketEvent::Shutdown, &mut heartbeat),
        FeedTurn::Finish(FeedRunStatus::Complete)
    ));
    assert!(matches!(
        feed_turn(NextWebsocketEvent::Closed, &mut heartbeat),
        FeedTurn::Finish(FeedRunStatus::Reconnect)
    ));
    assert!(matches!(
        feed_turn(NextWebsocketEvent::HeartbeatSent, &mut heartbeat),
        FeedTurn::Again
    ));
    assert!(matches!(
        feed_turn(
            NextWebsocketEvent::Message(Err(WsError::Io(IoErrorKind::ConnectionReset))),
            &mut heartbeat
        ),
        FeedTurn::Finish(FeedRunStatus::Reconnect)
    ));
    assert!(matches!(
        feed_turn(
            NextWebsocketEvent::Message(Err(WsError::Protocol(ProtocolError::Other))),
            &mut heartbeat
        ),
        FeedTurn::Fail(_)
    ));
    assert!(matches!(
        feed_turn(NextWebsocketEvent::Message(Ok(WsMessage::Ping(Vec::new()))), &mut heartbeat),
        FeedTurn::Act(MessageAction::FlushPong)
    ));
    let ping = heartbeat.begin_ping("feed").expect("a ping");
    heartbeat.ping_sent(ping.clone());
    assert!(matches!(
        feed_turn(NextWebsocketEvent::Message(Ok(WsMessage::Pong(ping))), &mut heartbeat),
        FeedTurn::Act(MessageAction::Ignore)
    ));
    assert_eq!(heartbeat.awaiting_pong, None);
}

#[test]
fn signals_end_a_feed() {
    assert!(matches!(shutdown_event(true, false), NextWebsocketEvent::Shutdown));
    assert!(matches!(shutdown_event(false, true), NextWebsocketEvent::Shutdown));
    assert!(matches!(shutdown_event(false, false), NextWebsocketEvent::HeartbeatSent));
    assert!(reconnects_after_signal(false, false));
    assert!(!reconnects_after_signal(true, false));
    assert!(!reconnects_after_signal(false, true));
}

#[test]
fn a_limited_feed_records_no_more_than_its_limit() {
    let mut total: usize = 0;
    let mut statuses = Vec::new();
    for _ in 0..3 {
        let action = MessageAction::RecordText("{}".to_owned());
        statuses.push(end_turn(&action, &mut total, Some(3)));
        let pong = MessageAction::FlushPong;
        if total < 3 {
            assert_eq!(end_turn(&pong, &mut total, Some(3)), None);
        }
    }
    assert_eq!(statuses, vec![None, None, Some(FeedRunStatus::Complete)]);
    assert_eq!(total, 3);
    assert!(message_limit_reached(Some(3), total));
    assert!(!message_limit_reached(None, total));
    let closed = MessageAction::Reconnect(None);
    assert_eq!(end_turn(&closed, &mut total, Some(9)), Some(FeedRunStatus::Reconnect));
    assert_eq!(total, 3);
}

#[test]
fn an_unlimited_feed_goes_on() {
    let mut total: usize = 0;
    for _ in 0..100 {
        let action = MessageAction::RecordBinary(vec![1]);
        assert_eq!(end_turn(&action, &mut total, None), None);
    }
    assert_eq!(total, 100);
}

#[test]
fn a_feed_connects_again_until_it_is_done() {
    assert_eq!(
        after_feed_run(Some(FeedRunStatus::Complete), 0, None, 5),
        LoopStep::Stop
    );
    assert_eq!(
        after_feed_run(Some(FeedRunStatus::Reconnect), 2, Some(2), 5),
        LoopStep::Stop
    );
    assert_eq!(
        after_feed_run(Some(FeedRunStatus::Reconnect), 1, Some(2), 5),
        LoopStep::WaitSecs(5)
    );
    assert_eq!(after_feed_run(None, 1, Some(2), 7), LoopStep::WaitSecs(7));
}

#[test]
fn deribit_bytes_are_recorded_as_control() {
    assert_eq!(deribit_channel_for(&MessageAction::RecordBinary(vec![1])), "control");
    assert_eq!(
        deribit_channel_for(&MessageAction::RecordText(
            r#"{"params":{"channel":"trades.X.raw"}}"#.to_owned()
        )),
        "trades"
    );
    assert_eq!(
        deribit_channel_for(&MessageAction::RecordText("nonsense".to_owned())),
        "control"
    );
}

#[test]
fn documents_are_written_as_they_were_read() {
    let document = r#"{"a":[1,2.50,-3e+4,true,null],"b":{"c":"x\"y"}}"#;
    assert_eq!(json_document(&value(document)), document);
    assert!(parse_json("{").is_err());
}

#[test]
fn numbers_are_kept_as_text() {
    let text_of = |number: &str| JsonNumber::parse(number).map(|n| n.as_text().to_owned());
    assert_eq!(text_of("-3e4").as_deref(), Some("-3e+4"));
    assert_eq!(text_of("0.1000").as_deref(), Some("0.1000"));
    assert_eq!(
        text_of("123456789012345678901234567890").as_deref(),
        Some("123456789012345678901234567890")
    );
    assert_eq!(text_of("x"), None);
    assert_eq!(text_of("01"), None);
    assert_eq!(JsonNumber::from_u64(u64::MAX).as_text(), "18446744073709551615");
    assert_eq!(value("7").as_i64(), Some(7));
    assert_eq!(value("-7").as_u64(), None);
    assert_eq!(value("7.0").as_i64(), None);
    assert_eq!(value("18446744073709551615").as_u64(), Some(u64::MAX));
    assert_eq!(value("18446744073709551616").as_u64(), None);
}
