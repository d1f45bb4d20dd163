use modl::calendar::{date_label, date_text, parse_date, parse_mts, read_rfc3339, CivilDate, UtcTime};
use modl::checkpoint::{
    history_plan, planned_start, resolve_start, Checkpoint, CheckpointStore, CheckpointTrade, DailyTrades,
    HistoryPlan, CHECKPOINT_VERSION,
};
use modl::decimal::{decimal_string, DecimalValue};
use modl::history::{
    forward_page_query, is_bitfinex_rate_limit_body, is_retryable, limit_remaining,
    parse_positive_usize, pull_forward_page, read_trades_response, recent_page_query, retry_after,
    retry_delay, trades_to_write, validate_args, ForwardNext, HistoryArgs, HistoryArgsError,
    SortOrder, TradeQuery, TradesResponse, RATE_LIMIT_PAUSE_SECS,
};
use modl::json::Json;
use modl::paths::{
    daily_file_name, daily_stream_file_name, normalized_file_name, parquet_tmp_name,
    symbol_partition_name,
};
use modl::table::{Cell, ColumnKind};
use modl::trade_order::sort_trades;
use modl::trade_table::{parquet_schema, trade_columns};
use modl::trades::{parse_trade, parse_trades, Trade, TradeSide};
use modl::wire::parse_json;

fn value(document: &str) -> Json {
    parse_json(document).expect("valid JSON")
}

fn sample_trade() -> Trade {
    sample_trade_at(1_781_472_895_818)
}

fn sample_trade_at(mts: i64) -> Trade {
    let row = value(&format!(
        r#"[1936324137, {mts}, "-0.00012155", "64883"]"#
    ));
    parse_trade("tBTCUSD", 0, &row).expect("valid trade")
}

fn trade_with(id: i64, mts: i64) -> Trade {
    let row = value(&format!(r#"[{id}, {mts}, "1", "2"]"#));
    parse_trade("tBTCUSD", 0, &row).expect("valid trade")
}

fn sample_checkpoint() -> Checkpoint {
    Checkpoint {
        version: CHECKPOINT_VERSION,
        exchange: "bitfinex".to_owned(),
        symbol: "tBTCUSD".to_owned(),
        symbol_partition: "tbtcusd".to_owned(),
        last_completed_date: "2026-06-14".to_owned(),
        last_trade_mts: 1_781_452_800_000,
        last_trade_id: 1,
        next_start_mts: 1_781_452_800_001,
        updated_at: "2026-06-14T00:00:00Z".to_owned(),
    }
}

fn sample_args() -> HistoryArgs {
    HistoryArgs {
        symbol: "tBTCUSD".to_owned(),
        start: None,
        end: None,
        limit: 10_000,
        rpm: 10,
        max_trades: None,
        output_dir: ".".to_owned(),
        batch_size: 10_000,
        ignore_checkpoint: false,
    }
}

fn day(year: i32, month: u32, day: u32) -> CivilDate {
    CivilDate { year, month, day }
}

#[test]
fn parses_rfc3339_as_milliseconds() {
    let parsed = parse_mts("2026-06-14T00:00:00Z").expect("valid timestamp");
    assert_eq!(parsed, 1_781_395_200_000);
}

#[test]
fn reads_offsets_and_fractions_of_timestamps() {
    assert_eq!(parse_mts("1970-01-01T00:00:00.001Z"), Ok(1));
    assert_eq!(parse_mts("1970-01-01T01:00:00+01:00"), Ok(0));
    assert_eq!(parse_mts("1969-12-31T23:59:59.999Z"), Ok(-1));
}

#[test]
fn reports_invalid_timestamps() {
    let error = parse_mts("yesterday").expect_err("no timestamp");
    assert!(error.starts_with("expected Unix milliseconds or RFC3339 timestamp: "));
    assert_eq!(parse_mts("1781395200000"), Ok(1_781_395_200_000));
    assert_eq!(
        parse_mts("99999999999999999999"),
        Err("invalid Unix millisecond timestamp: number too large to fit in target type".to_owned())
    );
    assert_eq!(
        parse_mts(""),
        Err("invalid Unix millisecond timestamp: cannot parse integer from empty string".to_owned())
    );
    assert_eq!(read_rfc3339(Ok(7)), Ok(7));
    assert_eq!(
        read_rfc3339(Err("reason".to_owned())),
        Err("expected Unix milliseconds or RFC3339 timestamp: reason".to_owned())
    );
}

#[test]
fn parses_trade_row_without_float_conversion() {
    let trade = sample_trade();

    assert_eq!(trade.id, 1_936_324_137);
    assert_eq!(trade.mts, 1_781_472_895_818);
    assert!(matches!(trade.side, TradeSide::Sell));
    assert_eq!(trade.amount.to_text(), "-0.00012155");
    assert_eq!(trade.amount_abs.to_text(), "0.00012155");
    assert_eq!(trade.price.to_text(), "64883");
}

#[test]
fn keeps_every_digit_of_a_number() {
    let row = value("[1, 2, 0.1000000000000000055511151231, 12345678901234567890.25]");
    let trade = parse_trade("tBTCUSD", 0, &row).expect("valid trade");
    assert_eq!(trade.amount.to_text(), "0.1000000000000000055511151231");
    assert_eq!(trade.price.to_text(), "12345678901234567890.25");
    assert_eq!(trade.side, TradeSide::Buy);
    assert_eq!(trade.exchange, "bitfinex");
    assert_eq!(trade.symbol, "tBTCUSD");
    assert_eq!(trade.timestamp.timestamp_millis(), 2);
}

#[test]
fn a_zero_amount_has_the_side_of_its_sign() {
    let positive = parse_trade("t", 0, &value(r#"[1, 2, "0", "1"]"#)).expect("valid trade");
    assert_eq!(positive.side.as_str(), "buy");
}

#[test]
fn reports_malformed_trade_rows() {
    assert!(parse_trade("t", 3, &value("{}")).is_err());
    assert!(parse_trade("t", 3, &value("[1, 2, 3]")).is_err());
    assert!(parse_trade("t", 3, &value(r#"["x", 2, 3, 4]"#)).is_err());
    assert!(parse_trade("t", 3, &value(r#"[1, 2, "x", 4]"#)).is_err());
    assert!(parse_trade("t", 3, &value("[1, 9223372036854775807, 3, 4]")).is_err());
    assert!(parse_trades("t", &value("{}")).is_err());
    assert_eq!(parse_trades("t", &value("[]")).expect("no trades").len(), 0);
    assert_eq!(
        parse_trades("t", &value("[[1,2,3,4],[5,6,-7,8]]"))
            .expect("two trades")
            .iter()
            .map(|trade| trade.id)
            .collect::<Vec<_>>(),
        vec![1, 5]
    );
}

#[test]
fn detects_bitfinex_rate_limit_body() {
    assert!(is_bitfinex_rate_limit_body(r#"{"error":"ERR_RATE_LIMIT"}"#));
    assert!(!is_bitfinex_rate_limit_body(r"[]"));
}

#[test]
fn reads_answers_by_limit_status_and_document() {
    assert!(matches!(
        read_trades_response("t", 429, "429 Too Many Requests", "[]"),
        TradesResponse::RateLimited
    ));
    assert!(matches!(
        read_trades_response("t", 200, "200 OK", r#"{"error":"ERR_RATE_LIMIT"}"#),
        TradesResponse::RateLimited
    ));
    match read_trades_response("t", 503, "503 Service Unavailable", "busy") {
        TradesResponse::Failed(error) => {
            assert_eq!(
                error,
                "retryable: Bitfinex returned HTTP 503 Service Unavailable: busy"
            );
            assert!(is_retryable(&error));
        }
        other => panic!("{other:?}"),
    }
    match read_trades_response("t", 404, "404 Not Found", "no") {
        TradesResponse::Failed(error) => {
            assert_eq!(error, "Bitfinex returned HTTP 404 Not Found: no");
            assert!(!is_retryable(&error));
        }
        other => panic!("{other:?}"),
    }
    match read_trades_response("t", 200, "200 OK", "nonsense") {
        TradesResponse::Failed(error) => assert!(error.starts_with("invalid JSON: nonsense: ")),
        other => panic!("{other:?}"),
    }
    match read_trades_response("t", 200, "200 OK", "[[1,2,3,4]]") {
        TradesResponse::Trades(trades) => assert_eq!(trades.len(), 1),
        other => panic!("{other:?}"),
    }
}

#[test]
fn retries_only_what_may_pass() {
    assert_eq!(retry_after("retryable: busy", 1), Some(2));
    assert_eq!(retry_after("request failed: retryable: busy", 5), Some(30));
    assert_eq!(retry_after("retryable: busy", 6), None);
    assert_eq!(retry_after("not found", 1), None);
    assert_eq!(RATE_LIMIT_PAUSE_SECS, 65);
    let delays: Vec<u64> = [0, 1, 2, 3, 4, 5, 63].map(retry_delay).to_vec();
    assert_eq!(delays, vec![1, 2, 4, 8, 16, 30, 30]);
}

#[test]
fn normalizes_symbol_for_partition_paths() -> Result<(), String> {
    assert_eq!(symbol_partition_name("tBTCUSD")?, "tbtcusd");
    assert_eq!(symbol_partition_name("tBTC:F0:USTF0")?, "tbtc_f0_ustf0");
    Ok(())
}

#[test]
fn partition_names_do_not_change_again() {
    for symbol in ["tBTCUSD", "BTC/USDT-P", "UBTC/USDC", "\u{e9}t\u{e9} 1.5"] {
        let name = symbol_partition_name(symbol).expect("a name");
        assert_eq!(symbol_partition_name(&name).as_deref(), Ok(name.as_str()));
    }
    assert_eq!(symbol_partition_name("BTC/USDT-P").as_deref(), Ok("btc_usdt-p"));
    assert_eq!(
        symbol_partition_name("").expect_err("no symbol"),
        "symbol cannot be empty after path normalization"
    );
}

#[test]
fn names_files_by_symbol_and_day() {
    let date = day(2026, 6, 14);
    assert_eq!(daily_file_name("tbtcusd", date), "tbtcusd_26-06-14.parquet");
    assert_eq!(
        daily_stream_file_name("tbtcusd", "book_l25", date),
        "tbtcusd_book_l25_26-06-14.jsonl.zst"
    );
    assert_eq!(
        normalized_file_name("btc", "instruments", date),
        "btc_instruments_26-06-14.parquet"
    );
    assert!(parquet_tmp_name("btc_instruments_26-06-14.parquet")
        .starts_with("btc_instruments_26-06-14.parquet"));
}

#[test]
fn days_are_read_and_written() {
    assert_eq!(parse_date("2026-06-29"), Ok(day(2026, 6, 29)));
    assert!(parse_date("2026-02-30").is_err());
    assert!(parse_date("June").is_err());
    assert_eq!(date_text(day(2026, 6, 29)), "2026-06-29");
    assert_eq!(date_label(day(2026, 6, 29)), "26-06-29");
    let leap = UtcTime::from_timestamp_millis(1_709_164_800_000).expect("in range");
    assert_eq!(leap.date(), day(2024, 2, 29));
    assert_eq!(leap.millis_text(), "2024-02-29T00:00:00.000Z");
    assert_eq!(leap.secs_text(), "2024-02-29T00:00:00Z");
    let before = UtcTime::from_timestamp_millis(-1).expect("in range");
    assert_eq!(before.date(), day(1969, 12, 31));
    assert_eq!(before.millis_text(), "1969-12-31T23:59:59.999Z");
    assert!(UtcTime::from_timestamp_millis(i64::MAX).is_none());
}

#[test]
fn resolves_start_from_checkpoint() {
    let checkpoint = Checkpoint {
        version: CHECKPOINT_VERSION,
        exchange: "bitfinex".to_owned(),
        symbol: "tBTCUSD".to_owned(),
        symbol_partition: "tbtcusd".to_owned(),
        last_completed_date: "2026-06-14".to_owned(),
        last_trade_mts: 1_781_452_800_000,
        last_trade_id: 1,
        next_start_mts: 1_781_452_800_001,
        updated_at: "2026-06-14T00:00:00Z".to_owned(),
    };

    assert_eq!(
        resolve_start(None, Some(&checkpoint)),
        Some(1_781_452_800_001)
    );
    assert_eq!(
        resolve_start(Some(1_700_000_000_000), Some(&checkpoint)),
        Some(1_781_452_800_001)
    );
    assert_eq!(
        resolve_start(Some(1_900_000_000_000), Some(&checkpoint)),
        Some(1_900_000_000_000)
    );
    assert_eq!(resolve_start(Some(42), None), Some(42));
}

#[test]
fn plans_a_pull_from_its_start() {
    let checkpoint = sample_checkpoint();
    assert_eq!(history_plan(None, None, None), HistoryPlan::Recent);
    assert_eq!(history_plan(Some(5), Some(5), None), HistoryPlan::Forward(5));
    assert_eq!(
        history_plan(Some(5), Some(6), Some(&checkpoint)),
        HistoryPlan::Nothing(1_781_452_800_001)
    );
}

#[test]
fn a_checkpoint_may_be_ignored() {
    let checkpoint = sample_checkpoint();
    let mut args = sample_args();
    args.start = Some(5);
    assert_eq!(
        planned_start(&args, Some(&checkpoint)),
        HistoryPlan::Forward(1_781_452_800_001)
    );
    args.ignore_checkpoint = true;
    assert_eq!(planned_start(&args, Some(&checkpoint)), HistoryPlan::Forward(5));
    args.start = None;
    assert_eq!(planned_start(&args, Some(&checkpoint)), HistoryPlan::Recent);
}

#[test]
fn checks_whose_checkpoint_it_is() {
    assert_eq!(sample_checkpoint().validate("tBTCUSD", "tbtcusd"), Ok(()));
    let mut old = sample_checkpoint();
    old.version = 0;
    assert!(old.validate("tBTCUSD", "tbtcusd").is_err());
    let mut other = sample_checkpoint();
    other.exchange = "kraken".to_owned();
    assert!(other.validate("tBTCUSD", "tbtcusd").is_err());
    assert!(sample_checkpoint().validate("tETHUSD", "tbtcusd").is_err());
    assert!(sample_checkpoint().validate("tBTCUSD", "tethusd").is_err());
    let store = CheckpointStore::new("tBTCUSD".to_owned(), "tbtcusd".to_owned());
    assert_eq!(store.file, ".checkpoint.json");
    assert_ne!(store.tmp_file, store.file);
}

#[test]
fn a_checkpoint_follows_the_last_trade_of_its_day() {
    let now = UtcTime::from_timestamp_millis(1_781_452_800_123).expect("in range");
    let last = CheckpointTrade { mts: 1_781_452_800_000, id: 9 };
    let checkpoint = Checkpoint::new("tBTCUSD", "tbtcusd", day(2026, 6, 14), last, &now)
        .expect("a checkpoint");
    assert_eq!(checkpoint.last_completed_date, "2026-06-14");
    assert_eq!(checkpoint.last_trade_mts, 1_781_452_800_000);
    assert_eq!(checkpoint.next_start_mts, 1_781_452_800_001);
    assert_eq!(checkpoint.last_trade_id, 9);
    assert_eq!(checkpoint.updated_at, now.secs_text());
    assert_eq!(checkpoint.validate("tBTCUSD", "tbtcusd"), Ok(()));
    let never = CheckpointTrade { mts: i64::MAX, id: 9 };
    assert_eq!(
        Checkpoint::new("t", "t", day(2026, 6, 14), never, &now).expect_err("no room"),
        "checkpoint timestamp overflow"
    );
}

#[test]
fn a_day_is_completed_by_the_next_one() {
    let mut days = DailyTrades::new();
    let first = days.write_trade(&sample_trade_at(1_781_452_800_000));
    assert_eq!(first.completed, None);
    assert_eq!(first.opened, Some(day(2026, 6, 14)));
    let same = days.write_trade(&sample_trade_at(1_781_452_800_001));
    assert_eq!(same.completed, None);
    assert_eq!(same.opened, None);
    let next = days.write_trade(&sample_trade_at(1_781_539_200_000));
    assert_eq!(
        next.completed,
        Some((
            day(2026, 6, 14),
            CheckpointTrade { mts: 1_781_452_800_001, id: 1_936_324_137 }
        ))
    );
    assert_eq!(next.opened, Some(day(2026, 6, 15)));
    assert_eq!(days.close(), Some(day(2026, 6, 15)));
    assert_eq!(DailyTrades::new().close(), None);
}

#[test]
fn resuming_repeats_no_trade_of_a_completed_day() {
    let mut days = DailyTrades::new();
    days.write_trade(&sample_trade_at(1_781_452_800_000));
    let change = days.write_trade(&sample_trade_at(1_781_539_200_000));
    let (date, last) = change.completed.expect("a completed day");
    let now = UtcTime::from_timestamp_millis(0).expect("in range");
    let checkpoint =
        Checkpoint::new("tBTCUSD", "tbtcusd", date, last, &now).expect("a checkpoint");
    let start = resolve_start(Some(0), Some(&checkpoint)).expect("a start");
    assert!(start > 1_781_452_800_000);
    assert!(start <= 1_781_539_200_000);
}

#[test]
fn checks_the_arguments_of_a_pull() {
    assert_eq!(validate_args(&sample_args()), Ok(()));
    let mut unnamed = sample_args();
    unnamed.symbol = String::new();
    assert_eq!(validate_args(&unnamed), Err(HistoryArgsError::EmptySymbol));
    assert_eq!(HistoryArgsError::EmptySymbol.message(), "symbol cannot be empty");
    let mut backward = sample_args();
    backward.start = Some(2);
    backward.end = Some(1);
    assert_eq!(validate_args(&backward), Err(HistoryArgsError::StartBehindEnd));
    assert_eq!(
        HistoryArgsError::StartBehindEnd.message(),
        "start must be less than or equal to end"
    );
    let mut none = sample_args();
    none.max_trades = Some(0);
    assert_eq!(validate_args(&none), Err(HistoryArgsError::ZeroMaxTrades));
    assert_eq!(
        HistoryArgsError::ZeroMaxTrades.message(),
        "max-trades must be greater than zero"
    );
}

#[test]
fn reads_positive_numbers() {
    assert_eq!(parse_positive_usize("17"), Ok(17));
    assert_eq!(parse_positive_usize("+3"), Ok(3));
    assert_eq!(
        parse_positive_usize("0"),
        Err("expected positive integer greater than zero".to_owned())
    );
    for bad in ["", "-1", "x", "99999999999999999999999"] {
        let reason = bad.parse::<usize>().expect_err("no number");
        assert_eq!(
            parse_positive_usize(bad),
            Err(format!("expected positive integer: {reason}"))
        );
    }
}

#[test]
fn asks_for_pages_by_url() {
    let query = TradeQuery {
        symbol: "tBTCUSD",
        start: Some(1),
        end: Some(2),
        limit: 3,
        sort: SortOrder::Ascending,
    };
    assert_eq!(
        query.url().as_deref(),
        Ok("https://api-pub.bitfinex.com/v2/trades/tBTCUSD/hist?limit=3&sort=1&start=1&end=2")
    );
    let recent = TradeQuery {
        symbol: "tBTCUSD",
        start: None,
        end: None,
        limit: 3,
        sort: SortOrder::Descending,
    };
    assert_eq!(
        recent.url().as_deref(),
        Ok("https://api-pub.bitfinex.com/v2/trades/tBTCUSD/hist?limit=3&sort=-1")
    );
}

#[test]
fn pages_are_asked_for_newest_first_or_from_a_cursor() {
    let mut args = sample_args();
    args.end = Some(99);
    let recent = recent_page_query(&args);
    assert_eq!(recent.sort, SortOrder::Descending);
    assert_eq!(recent.limit, args.limit);
    let forward = forward_page_query(&args, 7);
    assert_eq!(forward.sort, SortOrder::Ascending);
    assert_eq!(forward.start, Some(7));
    assert_eq!(forward.end, Some(99));
}

#[test]
fn a_pull_goes_on_behind_the_latest_trade() {
    let page = vec![trade_with(1, 30), trade_with(2, 10), trade_with(3, 20)];
    let (chosen, next) = pull_forward_page(page, 5, 0, 3, None);
    assert_eq!(
        chosen.iter().map(|trade| trade.mts).collect::<Vec<_>>(),
        vec![10, 20, 30]
    );
    assert!(matches!(next, ForwardNext::Page(31)));
}

#[test]
fn a_pull_ends_where_there_is_no_more() {
    let (none, next) = pull_forward_page(Vec::new(), 5, 0, 3, None);
    assert!(none.is_empty());
    assert!(matches!(next, ForwardNext::Done));
    let (short, next) = pull_forward_page(vec![trade_with(1, 30)], 5, 0, 3, None);
    assert_eq!(short.len(), 1);
    assert!(matches!(next, ForwardNext::Done));
    let (limited, next) =
        pull_forward_page(vec![trade_with(1, 30), trade_with(2, 10)], 5, 4, 2, Some(5));
    assert_eq!(limited.len(), 1);
    assert_eq!(limited[0].mts, 10);
    assert!(matches!(next, ForwardNext::Done));
    let (_, stuck) = pull_forward_page(vec![trade_with(1, 3)], 5, 0, 1, None);
    match stuck {
        ForwardNext::Failed(error) => assert_eq!(error, "cursor did not advance past 5"),
        other => panic!("{other:?}"),
    }
}

#[test]
fn pages_are_written_up_to_the_limit_of_a_pull() {
    for (max_trades, expected) in [(None, 6), (Some(4), 4), (Some(9), 6)] {
        let mut written = 0;
        let mut cursor = 0;
        for page in 0..3 {
            let trades = vec![trade_with(1, 100 * page + 10), trade_with(2, 100 * page + 20)];
            let (chosen, next) = pull_forward_page(trades, cursor, written, 2, max_trades);
            written += chosen.len();
            match next {
                ForwardNext::Page(start) => {
                    assert_eq!(start, 100 * page + 21);
                    cursor = start;
                }
                ForwardNext::Done => break,
                ForwardNext::Failed(error) => panic!("{error}"),
            }
        }
        assert_eq!(written, expected);
    }
}

#[test]
fn trades_are_written_in_time_order() {
    let sorted = sort_trades(vec![trade_with(2, 10), trade_with(1, 10), trade_with(3, 5)]);
    assert_eq!(
        sorted.iter().map(|trade| (trade.mts, trade.id)).collect::<Vec<_>>(),
        vec![(5, 3), (10, 1), (10, 2)]
    );
    let chosen = trades_to_write(vec![trade_with(2, 10), trade_with(1, 5)], Some(3), 2);
    assert_eq!(chosen.len(), 1);
    assert_eq!(chosen[0].id, 1);
    assert_eq!(limit_remaining(None, 7), usize::MAX);
    assert_eq!(limit_remaining(Some(9), 7), 2);
    assert_eq!(limit_remaining(Some(5), 7), 0);
}

#[test]
fn decimals_keep_their_value_and_lose_trailing_zeros() {
    let value = DecimalValue::parse("1.2300").expect("a decimal");
    assert_eq!(value.to_text(), "1.2300");
    assert_eq!(decimal_string(&value), "1.23");
    let negative = DecimalValue::parse("-0.50").expect("a decimal");
    assert!(!negative.is_sign_positive());
    assert_eq!(negative.abs().to_text(), "0.50");
    assert_eq!(decimal_string(&negative), "-0.5");
    assert_eq!(
        decimal_string(&DecimalValue::parse("100").expect("a decimal")),
        "100"
    );
    assert!(DecimalValue::parse("x").is_err());
    let parts = DecimalValue::from_parts(true, 1230, 3).expect("in range");
    assert_eq!(parts.to_text(), "-1.230");
    assert!(DecimalValue::from_parts(false, u128::MAX, 0).is_none());
    assert!(DecimalValue::from_parts(false, 1, 29).is_none());
}

#[test]
fn trades_fill_the_columns_of_their_table() {
    let names: Vec<&str> = parquet_schema().iter().map(|field| field.name).collect();
    assert_eq!(
        names,
        vec![
            "exchange", "symbol", "id", "mts", "timestamp", "side", "amount", "amount_abs", "price"
        ]
    );
    let kinds: Vec<ColumnKind> = parquet_schema().iter().map(|field| field.kind).collect();
    assert_eq!(kinds[2], ColumnKind::Int64);
    assert!(parquet_schema().iter().all(|field| !field.nullable));
    let columns = trade_columns(&vec![sample_trade(), sample_trade()]);
    assert_eq!(columns.len(), 9);
    assert!(columns.iter().all(|column| column.len() == 2));
    assert_eq!(columns[0][0], Cell::Text("bitfinex".to_owned()));
    assert_eq!(columns[2][1], Cell::Int(1_936_324_137));
    assert_eq!(
        columns[4][0],
        Cell::Text("2026-06-14T21:34:55.818Z".to_owned())
    );
    assert_eq!(columns[5][0], Cell::Text("sell".to_owned()));
    assert_eq!(columns[6][0], Cell::Text("-0.00012155".to_owned()));
    assert_eq!(columns[7][0], Cell::Text("0.00012155".to_owned()));
    assert_eq!(columns[8][0], Cell::Text("64883".to_owned()));
}
