use modl::batch::BatchBuffer;
use modl::bitfinex_rows::{
    bitfinex_book_columns, bitfinex_book_rows_from_message, bitfinex_book_schema,
    bitfinex_trade_rows_from_message, bitfinex_trade_schema,
};
use modl::deribit_rows::{
    collect_created_instrument, collect_listed_instruments, deribit_instrument_columns,
    deribit_instrument_meta_from_value, deribit_instrument_schema,
    deribit_instrument_state_row_from_message, deribit_quote_columns,
    deribit_quote_row_from_message, deribit_quote_schema, deribit_trade_rows_from_message,
    InstrumentTable,
};
use modl::events::{
    base_event_fields, is_recoverable_zstd_read_error, line_step, take_payload_text, LineStep,
    RawLine, RawWsEventOwned,
};
use modl::hibachi_rows::{
    hibachi_dataset, hibachi_funding_row_from_message, hibachi_orderbook_rows_from_message,
    hibachi_price_row_from_message, hibachi_quote_row_from_message, hibachi_trade_row_from_message,
    HibachiDataset,
};
use modl::hyperliquid_rows::{
    hyperliquid_book_rows_from_message, hyperliquid_control_row_from_message,
    hyperliquid_trade_rows_from_message,
};
use modl::json::Json;
use modl::normalize::{
    collect_deribit_instruments, instrument_sources, write_bitfinex_book_event,
    write_bitfinex_trade_event, write_deribit_quote_event, write_deribit_state_event,
    write_deribit_trade_event, write_hibachi_event, write_hyperliquid_book_event,
    write_hyperliquid_control_event, write_hyperliquid_trade_event, HibachiWriters,
    InstrumentSource, NORMALIZE_BATCH_SIZE,
};
use modl::sides::{abs_decimal_string, canonical_buy_sell_side, signed_amount_side};
use modl::table::{Cell, ColumnKind};
use modl::wire::parse_json;

fn value(document: &str) -> Json {
    parse_json(document).expect("valid JSON")
}

fn sample_event_owned(exchange: &str, symbol: &str, channel: &str) -> RawWsEventOwned {
    RawWsEventOwned {
        received_at: "2026-06-29T22:17:08.192Z".to_owned(),
        received_mts: 1_782_771_428_192,
        exchange: exchange.to_owned(),
        symbol: symbol.to_owned(),
        channel: channel.to_owned(),
        connection_id: format!("{exchange}-{symbol}-{channel}"),
        payload_text: None,
    }
}

fn deribit_event() -> RawWsEventOwned {
    RawWsEventOwned {
        received_at: "2026-06-29T22:17:08.192Z".to_owned(),
        received_mts: 1_782_771_428_192,
        exchange: "deribit".to_owned(),
        symbol: "BTC".to_owned(),
        channel: "incremental_ticker".to_owned(),
        connection_id: "deribit-BTC-instruments".to_owned(),
        payload_text: None,
    }
}

const INSTRUMENT: &str = r#"{
    "instrument_name": "BTC-31JUL26-60000-P",
    "kind": "option",
    "base_currency": "BTC",
    "quote_currency": "BTC",
    "settlement_currency": "BTC",
    "expiration_timestamp": 1785484800000,
    "creation_timestamp": 1777993440000,
    "strike": 60000.0,
    "option_type": "put",
    "settlement_period": "month",
    "is_active": true
}"#;

const TICKER: &str = r#"{
    "jsonrpc": "2.0",
    "method": "subscription",
    "params": {
        "channel": "incremental_ticker.BTC-31JUL26-60000-P",
        "data": {
            "timestamp": 1782771427066,
            "type": "snapshot",
            "instrument_name": "BTC-31JUL26-60000-P",
            "mark_price": 0.0434492,
            "stats": {"volume": 5.0, "volume_usd": 300000.0}
        }
    }
}"#;

const TRADES: &str = r#"{
    "jsonrpc": "2.0",
    "method": "subscription",
    "params": {
        "channel": "trades.BTC-31JUL26-60000-P.100ms",
        "data": [{
            "timestamp": 1782772067807,
            "iv": 41.51,
            "price": 0.044,
            "amount": 0.9,
            "direction": "buy",
            "index_price": 60377.86,
            "instrument_name": "BTC-31JUL26-60000-P",
            "trade_seq": 2265,
            "mark_price": 0.0434492,
            "tick_direction": 2,
            "contracts": 0.9,
            "trade_id": "436176324"
        }]
    }
}"#;

const STATE: &str = r#"{
    "jsonrpc": "2.0",
    "method": "subscription",
    "params": {
        "channel": "instrument.state.BTC-PERPETUAL.raw",
        "data": {
            "timestamp": 1782772068000,
            "instrument_name": "BTC-PERPETUAL",
            "kind": "future",
            "state": "open"
        }
    }
}"#;

fn sample_instruments() -> InstrumentTable {
    let meta =
        deribit_instrument_meta_from_value(&value(INSTRUMENT)).expect("instrument metadata");
    let mut instruments = InstrumentTable::new();
    instruments.insert(meta);
    instruments
}

#[test]
fn lib_normalizes_deribit_quote_and_trade_metadata() {
    let instruments = sample_instruments();
    let event = deribit_event();

    let quote = deribit_quote_row_from_message(&event, &value(TICKER), &instruments)
        .expect("ticker row");
    assert_eq!(quote.kind.as_deref(), Some("option"));
    assert_eq!(quote.strike.as_deref(), Some("60000.0"));
    assert_eq!(quote.option_type.as_deref(), Some("put"));
    assert_eq!(quote.mark_price.as_deref(), Some("0.0434492"));
    assert_eq!(quote.stats_volume.as_deref(), Some("5.0"));

    let trade_rows = deribit_trade_rows_from_message(&event, &value(TRADES), &instruments);
    assert_eq!(trade_rows.len(), 1);
    assert_eq!(trade_rows[0].kind.as_deref(), Some("option"));
    assert_eq!(trade_rows[0].strike.as_deref(), Some("60000.0"));
    assert_eq!(trade_rows[0].price.as_deref(), Some("0.044"));
    assert_eq!(trade_rows[0].trade_id.as_deref(), Some("436176324"));
}

#[test]
fn normalizer_normalizes_deribit_quote_and_trade_metadata() {
    let instruments = sample_instruments();
    let event = deribit_event();

    let quote = deribit_quote_row_from_message(&event, &value(TICKER), &instruments)
        .expect("ticker row");
    assert_eq!(quote.kind.as_deref(), Some("option"));
    assert_eq!(quote.strike.as_deref(), Some("60000.0"));
    assert_eq!(quote.option_type.as_deref(), Some("put"));
    assert_eq!(quote.mark_price.as_deref(), Some("0.0434492"));
    assert_eq!(quote.stats_volume.as_deref(), Some("5.0"));

    let trade_rows = deribit_trade_rows_from_message(&event, &value(TRADES), &instruments);
    assert_eq!(trade_rows.len(), 1);
    assert_eq!(trade_rows[0].kind.as_deref(), Some("option"));
    assert_eq!(trade_rows[0].strike.as_deref(), Some("60000.0"));
    assert_eq!(trade_rows[0].price.as_deref(), Some("0.044"));
    assert_eq!(trade_rows[0].trade_id.as_deref(), Some("436176324"));

    let state_row =
        deribit_instrument_state_row_from_message(&event, &value(STATE)).expect("state row");
    assert_eq!(state_row.instrument_name.as_deref(), Some("BTC-PERPETUAL"));
    assert_eq!(state_row.kind.as_deref(), Some("future"));
    assert_eq!(state_row.timestamp, Some(1_782_772_068_000));
    assert_eq!(state_row.state.as_deref(), Some("open"));
}

#[test]
fn normalizes_bitfinex_trade_and_book_messages() {
    let event = sample_event_owned("bitfinex", "tBTCUSD", "trades");
    let snapshot = value(
        "[278551, [
            [1942614150, 1782761937606, -0.0002, 60357],
            [1942614136, 1782761920198, 0.00598, 60376]
        ]]",
    );
    let rows = bitfinex_trade_rows_from_message(&event, &snapshot);
    assert_eq!(rows.len(), 2);
    assert_eq!(rows[0].event_type, "snapshot");
    assert!(rows[0].is_final);
    assert_eq!(rows[0].side.as_deref(), Some("sell"));
    assert_eq!(rows[0].amount_abs.as_deref(), Some("0.0002"));
    assert_eq!(rows[1].side.as_deref(), Some("buy"));

    let execution = value(r#"[278551, "te", [1942614151, 1782761937607, 0.1, 60358]]"#);
    let execution_rows = bitfinex_trade_rows_from_message(&event, &execution);
    assert_eq!(execution_rows.len(), 1);
    assert_eq!(execution_rows[0].event_type, "te");
    assert!(!execution_rows[0].is_final);

    let update = value(r#"[278551, "tu", [1942614151, 1782761937607, -0.1, 60358]]"#);
    let update_rows = bitfinex_trade_rows_from_message(&event, &update);
    assert_eq!(update_rows.len(), 1);
    assert_eq!(update_rows[0].event_type, "tu");
    assert!(update_rows[0].is_final);
    assert_eq!(update_rows[0].side.as_deref(), Some("sell"));

    let book_event = sample_event_owned("bitfinex", "tBTCUSD", "book_l25");
    let book_snapshot = value("[1372681, [[60360, 1, 0.08283631], [60368, 1, -0.00022001]]]");
    let book_rows = bitfinex_book_rows_from_message(&book_event, &book_snapshot);
    assert_eq!(book_rows.len(), 2);
    assert_eq!(book_rows[0].event_type, "snapshot");
    assert_eq!(book_rows[0].level_index, Some(0));
    assert_eq!(book_rows[0].side.as_deref(), Some("bid"));
    assert_eq!(book_rows[1].side.as_deref(), Some("ask"));

    let book_update = value("[1372681, [60361, 1, -0.1088155]]");
    let update_rows = bitfinex_book_rows_from_message(&book_event, &book_update);
    assert_eq!(update_rows.len(), 1);
    assert_eq!(update_rows[0].event_type, "update");
    assert_eq!(update_rows[0].side.as_deref(), Some("ask"));
}

#[test]
fn bitfinex_heartbeats_and_replies_have_no_rows() {
    let event = sample_event_owned("bitfinex", "tBTCUSD", "trades");
    for message in [r#"[1, "hb"]"#, r#"{"event":"subscribed"}"#, "[1]", "7"] {
        assert!(bitfinex_trade_rows_from_message(&event, &value(message)).is_empty());
        assert!(bitfinex_book_rows_from_message(&event, &value(message)).is_empty());
    }
    for message in ["[1372681, []]", r#"[1, "cs", 123]"#, r#"[1, {"a": 1}]"#, "[1, 7]", "[1, null]"] {
        assert!(bitfinex_book_rows_from_message(&event, &value(message)).is_empty());
    }
}

#[test]
fn normalizes_hibachi_market_data_topics() {
    let event = sample_event_owned("hibachi", "BTC/USDT-P", "market_data");
    let trade = value(
        r#"{
            "data": {
                "trade": {
                    "price": "60351.00000",
                    "quantity": "0.0000222946",
                    "takerSide": "Buy",
                    "timestamp": 1782761952
                }
            },
            "symbol": "BTC/USDT-P",
            "topic": "trades"
        }"#,
    );
    let trade_row = hibachi_trade_row_from_message(&event, &trade).expect("trade row");
    assert_eq!(trade_row.trade_timestamp, Some(1_782_761_952));
    assert_eq!(trade_row.taker_side.as_deref(), Some("buy"));
    assert_eq!(trade_row.raw_taker_side.as_deref(), Some("Buy"));
    assert_eq!(trade_row.price.as_deref(), Some("60351.00000"));

    let orderbook = value(
        r#"{
            "data": {
                "ask": {
                    "endPrice": "60357.4",
                    "levels": [{"price": "60339.9", "quantity": "0.0074449901"}],
                    "startPrice": "60339.9"
                },
                "bid": {
                    "endPrice": "60323.5",
                    "levels": [
                        {"price": "60339.8", "quantity": "0.0166066700"},
                        {"price": "60339.7", "quantity": "0.0100000000"}
                    ],
                    "startPrice": "60339.8"
                }
            },
            "depth": 20,
            "granularity": "0.1",
            "messageType": "Snapshot",
            "timestamp_ms": 1782761945377,
            "topic": "orderbook"
        }"#,
    );
    let book_rows = hibachi_orderbook_rows_from_message(&event, &orderbook);
    assert_eq!(book_rows.len(), 3);
    assert_eq!(book_rows[0].side, "bid");
    assert_eq!(book_rows[0].level_index, 0);
    assert_eq!(book_rows[1].side, "bid");
    assert_eq!(book_rows[1].level_index, 1);
    assert_eq!(book_rows[2].side, "ask");
    assert_eq!(book_rows[2].price.as_deref(), Some("60339.9"));

    let quote = value(
        r#"{
            "data": {
                "askPrice": "60339.90000",
                "askSize": "0.0074449901",
                "bidPrice": "60339.80000",
                "bidSize": "0.0166066700"
            },
            "topic": "ask_bid_price"
        }"#,
    );
    let quote_row = hibachi_quote_row_from_message(&event, &quote).expect("quote row");
    assert_eq!(quote_row.bid_price.as_deref(), Some("60339.80000"));
    assert_eq!(quote_row.ask_size.as_deref(), Some("0.0074449901"));

    let mark = value(r#"{"data":{"markPrice":"60339.90000"},"topic":"mark_price"}"#);
    let mark_row = hibachi_price_row_from_message(&event, &mark).expect("mark row");
    assert_eq!(mark_row.price_type, "mark_price");
    assert_eq!(mark_row.price.as_deref(), Some("60339.90000"));

    let funding = value(
        r#"{
            "data": {
                "fundingRateEstimation": {
                    "estimatedFundingRate": "0.000036",
                    "nextFundingTimestamp": 1782763200
                }
            },
            "topic": "funding_rate_estimation"
        }"#,
    );
    let funding_row = hibachi_funding_row_from_message(&event, &funding).expect("funding row");
    assert_eq!(
        funding_row.estimated_funding_rate.as_deref(),
        Some("0.000036")
    );
    assert_eq!(funding_row.next_funding_timestamp, Some(1_782_763_200));
}

#[test]
fn normalizes_hyperliquid_messages() {
    let event = sample_event_owned("hyperliquid", "UBTC/USDC", "trades");
    let trades = value(
        r#"{
            "channel": "trades",
            "data": [
                {
                    "coin": "@142",
                    "side": "B",
                    "px": "60196.0",
                    "sz": "0.00126",
                    "time": 1782767091000,
                    "hash": "0x0",
                    "tid": 1034424858715071,
                    "users": ["0xa", "0xb"]
                },
                {
                    "coin": "@142",
                    "side": "A",
                    "px": "60187.0",
                    "sz": "0.00026",
                    "time": 1782767137928,
                    "hash": "0x1",
                    "tid": 1111024960583881,
                    "users": ["0xc", "0xd"]
                }
            ]
        }"#,
    );
    let trade_rows = hyperliquid_trade_rows_from_message(&event, &trades);
    assert_eq!(trade_rows.len(), 2);
    assert_eq!(trade_rows[0].side.as_deref(), Some("buy"));
    assert_eq!(trade_rows[0].raw_side.as_deref(), Some("B"));
    assert_eq!(trade_rows[0].user_0.as_deref(), Some("0xa"));
    assert_eq!(trade_rows[1].side.as_deref(), Some("sell"));
    assert_eq!(trade_rows[1].raw_side.as_deref(), Some("A"));

    let book_event = sample_event_owned("hyperliquid", "UBTC/USDC", "book");
    let book = value(
        r#"{
            "channel": "l2Book",
            "data": {
                "coin": "@142",
                "time": 1782767204732,
                "snapshot": false,
                "levels": [
                    [{"px": "60212.0", "sz": "0.83902", "n": 2}],
                    [{"px": "60213.0", "sz": "0.67412", "n": 8}]
                ]
            }
        }"#,
    );
    let book_rows = hyperliquid_book_rows_from_message(&book_event, &book);
    assert_eq!(book_rows.len(), 2);
    assert_eq!(book_rows[0].side, "bid");
    assert_eq!(book_rows[0].order_count, Some(2));
    assert_eq!(book_rows[1].side, "ask");
    assert_eq!(book_rows[1].price.as_deref(), Some("60213.0"));

    let control_event = sample_event_owned("hyperliquid", "UBTC/USDC", "control");
    let control_text = r#"{"channel":"subscriptionResponse","data":{"method":"subscribe","subscription":{"type":"trades","coin":"@142"}}}"#;
    let control = value(control_text);
    let control_row =
        hyperliquid_control_row_from_message(&control_event, &control, control_text);
    assert_eq!(
        control_row.message_channel.as_deref(),
        Some("subscriptionResponse")
    );
    assert_eq!(control_row.method.as_deref(), Some("subscribe"));
    assert_eq!(control_row.subscription_type.as_deref(), Some("trades"));
    assert_eq!(control_row.coin.as_deref(), Some("@142"));
    assert_eq!(control_row.payload_json, control_text);
}

#[test]
fn deribit_messages_fill_their_datasets() {
    let control = format!(r#"{{"jsonrpc":"2.0","id":2,"result":[{INSTRUMENT}]}}"#);
    let mut instruments = InstrumentTable::new();
    collect_deribit_instruments(InstrumentSource::Control, &control, &mut instruments)
        .expect("a control message");
    let columns = deribit_instrument_columns("btc", &instruments);
    assert_eq!(columns.len(), deribit_instrument_schema().len());
    assert!(columns.iter().all(|column| column.len() == 1));

    let event = deribit_event();
    let mut quotes = BatchBuffer::create(NORMALIZE_BATCH_SIZE).expect("a buffer");
    write_deribit_quote_event(&event, TICKER, &instruments, &mut quotes).expect("a quote");
    let (rows, count) = quotes.close();
    assert_eq!(count, 1);
    assert_eq!(rows.expect("a batch")[0].kind.as_deref(), Some("option"));
    let mut trades = BatchBuffer::create(NORMALIZE_BATCH_SIZE).expect("a buffer");
    write_deribit_trade_event(&event, TRADES, &instruments, &mut trades).expect("a trade");
    assert_eq!(trades.close().1, 1);
    let mut states = BatchBuffer::create(NORMALIZE_BATCH_SIZE).expect("a buffer");
    write_deribit_state_event(&event, STATE, &mut states).expect("a state");
    assert_eq!(states.close().1, 1);
}

#[test]
fn venue_messages_fill_their_datasets() {
    let bitfinex = sample_event_owned("bitfinex", "tBTCUSD", "trades");
    let mut trades = BatchBuffer::create(1000).expect("a buffer");
    write_bitfinex_trade_event(
        &bitfinex,
        "[278551,[[1942614150,1782761937606,-0.0002,60357],[1942614136,1782761920198,0.00598,60376]]]",
        &mut trades,
    )
    .expect("trades");
    assert_eq!(trades.close().1, 2);
    let mut book = BatchBuffer::create(2).expect("a buffer");
    let full = write_bitfinex_book_event(
        &bitfinex,
        "[1372681,[[60360,1,0.08283631],[60368,1,-0.00022001]]]",
        &mut book,
    )
    .expect("levels");
    assert_eq!(full.len(), 1);
    let none =
        write_bitfinex_book_event(&bitfinex, "[1372681,[60361,1,0.1088155]]", &mut book)
            .expect("a level");
    assert!(none.is_empty());
    let (rest, count) = book.close();
    assert_eq!(rest.map(|rows| rows.len()), Some(1));
    assert_eq!(count, 3);

    let hyperliquid = sample_event_owned("hyperliquid", "UBTC/USDC", "trades");
    let mut trades = BatchBuffer::create(1000).expect("a buffer");
    write_hyperliquid_trade_event(
        &hyperliquid,
        r#"{"channel":"trades","data":[{"coin":"@142"},{"coin":"@142"}]}"#,
        &mut trades,
    )
    .expect("trades");
    assert_eq!(trades.close().1, 2);
    let mut book = BatchBuffer::create(1000).expect("a buffer");
    write_hyperliquid_book_event(
        &hyperliquid,
        r#"{"channel":"l2Book","data":{"coin":"@142","time":1782767204732,"snapshot":false,"levels":[[{"px":"60212.0","sz":"0.83902","n":2}],[{"px":"60213.0","sz":"0.67412","n":8}]]}}"#,
        &mut book,
    )
    .expect("levels");
    assert_eq!(book.close().1, 2);
    let mut control = BatchBuffer::create(1000).expect("a buffer");
    write_hyperliquid_control_event(&hyperliquid, r#"{"channel":"pong"}"#, &mut control)
        .expect("a message");
    assert_eq!(control.close().1, 1);
    let mut bad = BatchBuffer::create(1000).expect("a buffer");
    assert!(write_hyperliquid_control_event(&hyperliquid, "nonsense", &mut bad).is_err());
}

#[test]
fn hibachi_messages_are_split_by_topic() {
    let event = sample_event_owned("hibachi", "BTC/USDT-P", "market_data");
    let mut writers = HibachiWriters {
        trades: BatchBuffer::create(1000).expect("a buffer"),
        orderbook: BatchBuffer::create(1000).expect("a buffer"),
        quotes: BatchBuffer::create(1000).expect("a buffer"),
        prices: BatchBuffer::create(1000).expect("a buffer"),
        funding: BatchBuffer::create(1000).expect("a buffer"),
    };
    let payloads = [
        r#"{"data":{"trade":{"price":"60351.00000","quantity":"0.0000222946","takerSide":"Buy","timestamp":1782761952}},"symbol":"BTC/USDT-P","topic":"trades"}"#,
        r#"{"data":{"ask":{"endPrice":"60357.4","levels":[{"price":"60339.9","quantity":"0.0074449901"}],"startPrice":"60339.9"},"bid":{"endPrice":"60323.5","levels":[{"price":"60339.8","quantity":"0.0166066700"}],"startPrice":"60339.8"}},"depth":20,"granularity":"0.1","messageType":"Snapshot","symbol":"BTC/USDT-P","timestamp_ms":1782761945377,"topic":"orderbook"}"#,
        r#"{"data":{"askPrice":"60339.90000","askSize":"0.0074449901","bidPrice":"60339.80000","bidSize":"0.0166066700"},"symbol":"BTC/USDT-P","topic":"ask_bid_price"}"#,
        r#"{"data":{"markPrice":"60339.90000"},"symbol":"BTC/USDT-P","topic":"mark_price"}"#,
        r#"{"data":{"spotPrice":"60325.66597"},"symbol":"BTC/USDT-P","topic":"spot_price"}"#,
        r#"{"data":{"fundingRateEstimation":{"estimatedFundingRate":"0.000036","nextFundingTimestamp":1782763200}},"symbol":"BTC/USDT-P","topic":"funding_rate_estimation"}"#,
        r#"{"topic":"unheard_of","data":{}}"#,
    ];
    for payload in payloads {
        write_hibachi_event(&event, payload, &mut writers).expect("a message");
    }
    assert_eq!(writers.trades.close().1, 1);
    assert_eq!(writers.orderbook.close().1, 2);
    assert_eq!(writers.quotes.close().1, 1);
    assert_eq!(writers.prices.close().1, 2);
    assert_eq!(writers.funding.close().1, 1);
    assert_eq!(
        hibachi_dataset(&value(r#"{"topic":"spot_price"}"#)),
        Some(HibachiDataset::Prices)
    );
    assert_eq!(hibachi_dataset(&value(r#"{"topic":"unheard_of"}"#)), None);
}

#[test]
fn the_last_description_of_an_instrument_counts() {
    let mut instruments = InstrumentTable::new();
    collect_listed_instruments(&value(&format!(r#"{{"result":[{INSTRUMENT}]}}"#)), &mut instruments);
    let changed = INSTRUMENT.replace("60000.0", "61000.0");
    collect_listed_instruments(&value(&format!(r#"{{"result":[{changed}]}}"#)), &mut instruments);
    assert_eq!(
        instruments.get("BTC-31JUL26-60000-P").and_then(|meta| meta.strike.as_deref()),
        Some("61000.0")
    );
    let created = format!(
        r#"{{"params":{{"channel":"instrument.creation.option.BTC","data":{{"instrument_name":"A","kind":"option"}}}}}}"#
    );
    collect_created_instrument(&value(&created), &mut instruments);
    let replaced = format!(r#"{{"params":{{"data":{}}}}}"#, INSTRUMENT.replace("60000.0", "62000.0"));
    collect_created_instrument(&value(&replaced), &mut instruments);
    assert_eq!(
        instruments.get("BTC-31JUL26-60000-P").and_then(|meta| meta.strike.as_deref()),
        Some("62000.0")
    );
    let columns = deribit_instrument_columns("btc", &instruments);
    assert!(columns.iter().all(|column| column.len() == 2));
    assert!(instruments.get("A").is_some());
    assert!(instruments.get("B").is_none());
    let names: Vec<&str> = instrument_sources().iter().map(|s| s.channel_name()).collect();
    assert_eq!(names, vec!["control", "instrument_creation"]);
}

#[test]
fn rows_fit_the_schemas_of_their_tables() {
    let instruments = sample_instruments();
    let event = deribit_event();
    let quote = deribit_quote_row_from_message(&event, &value(TICKER), &instruments)
        .expect("ticker row");
    let schema = deribit_quote_schema();
    let columns = deribit_quote_columns(&vec![quote]);
    assert_eq!(columns.len(), schema.len());
    for (field, column) in schema.iter().zip(&columns) {
        match &column[0] {
            Cell::Null => assert!(field.nullable, "{}", field.name),
            Cell::Text(_) => assert_eq!(field.kind, ColumnKind::Utf8, "{}", field.name),
            Cell::Int(_) => assert_eq!(field.kind, ColumnKind::Int64, "{}", field.name),
            Cell::Bool(_) => assert_eq!(field.kind, ColumnKind::Boolean, "{}", field.name),
        }
    }
    let first: Vec<&str> = base_event_fields().iter().map(|field| field.name).collect();
    for schema in [bitfinex_trade_schema(), bitfinex_book_schema()] {
        let names: Vec<&str> = schema.iter().map(|field| field.name).take(first.len()).collect();
        assert_eq!(names, first);
    }
    assert!(bitfinex_book_columns(&Vec::new()).iter().all(Vec::is_empty));
}

#[test]
fn lines_are_decoded_skipped_or_end_the_file() {
    assert!(matches!(line_step(&RawLine::Line("  \t".to_owned())), LineStep::Skip));
    assert!(matches!(line_step(&RawLine::Line("{}".to_owned())), LineStep::Decode));
    assert!(matches!(
        line_step(&RawLine::Unreadable { unexpected_eof: true, message: String::new() }),
        LineStep::Stop
    ));
    assert!(matches!(
        line_step(&RawLine::Unreadable {
            unexpected_eof: false,
            message: "permission denied".to_owned()
        }),
        LineStep::Fail
    ));
    assert!(is_recoverable_zstd_read_error(true, ""));
    let mut event = deribit_event();
    assert_eq!(take_payload_text(&mut event), None);
    event.payload_text = Some("{}".to_owned());
    assert_eq!(take_payload_text(&mut event).as_deref(), Some("{}"));
    assert_eq!(event.payload_text, None);
}

#[test]
fn sides_are_canonical() {
    for (token, side) in [
        ("B", "buy"),
        (" Bid ", "buy"),
        ("BUY", "buy"),
        ("a", "sell"),
        ("Ask", "sell"),
        ("S", "sell"),
        ("sell", "sell"),
        (" Other ", "other"),
    ] {
        let word = canonical_buy_sell_side(token);
        assert_eq!(word, side);
        assert_eq!(canonical_buy_sell_side(&word), word);
    }
    assert_eq!(signed_amount_side(Some(" -1"), "bid", "ask").as_deref(), Some("ask"));
    assert_eq!(signed_amount_side(Some("1"), "bid", "ask").as_deref(), Some("bid"));
    assert_eq!(signed_amount_side(None, "bid", "ask"), None);
    assert_eq!(abs_decimal_string("-0.0002"), "0.0002");
    assert_eq!(abs_decimal_string("0.00598"), "0.00598");
    assert_eq!(abs_decimal_string("-nonsense"), "nonsense");
}

#[test]
fn batches_hold_the_rows_in_order() {
    let mut buffer: BatchBuffer<u8> = BatchBuffer::create(2).expect("a buffer");
    assert_eq!(buffer.write(1), None);
    assert_eq!(buffer.write(2), Some(vec![1, 2]));
    assert_eq!(buffer.write(3), None);
    assert_eq!(buffer.close(), (Some(vec![3]), 3));
    assert!(BatchBuffer::<u8>::create(0).is_err());
}
