use base64::Engine;
use modl::calendar::{CivilDate, UtcTime};
use modl::capture::{
    binary_event, deribit_output_spec, hyperliquid_output_spec, text_event, DailyCapture,
};
use modl::plan::{
    normalized_parquet_path, raw_channel_file_path, raw_channels, run_normalize_cli,
    source_channel, venue_symbol_dirs, NormalizeArgs, NormalizeJob, NormalizedVenue, RawArchive,
    SymbolFiles, DEFAULT_NORMALIZED_OUTPUT_DIR,
};
use modl::stream::bitfinex_stream_specs;
use modl::tui::{
    answer_or_default, answer_u64_or_default, display_command, edit_markets, menu_turn,
    recorder_binary, shell_quote, stop_step, MarketAnswers, MenuAction, StopStep, TuiState,
    VenueId,
};

fn day() -> CivilDate {
    CivilDate { year: 2026, month: 6, day: 29 }
}

fn files(symbol: &str, channels: &[&str]) -> SymbolFiles {
    SymbolFiles {
        symbol: symbol.to_owned(),
        channels: channels.iter().map(|channel| (*channel).to_owned()).collect(),
    }
}

fn empty_archive() -> RawArchive {
    RawArchive {
        deribit: Vec::new(),
        bitfinex: Vec::new(),
        hibachi: Vec::new(),
        hyperliquid: Vec::new(),
    }
}

fn sample_normalize_args() -> NormalizeArgs {
    NormalizeArgs {
        date: day(),
        input_dir: "/raw".to_owned(),
        output_dir: DEFAULT_NORMALIZED_OUTPUT_DIR.to_owned(),
    }
}

#[test]
fn envelopes_hold_the_raw_message() {
    let spec = &bitfinex_stream_specs("tBTCUSD")[1];
    let received = UtcTime::from_timestamp_millis(1_782_771_428_192).expect("in range");
    let event = text_event(spec, &received, r#"{"event":"test"}"#);
    assert_eq!(event.received_at, "2026-06-29T22:17:08.192Z");
    assert_eq!(event.received_mts, 1_782_771_428_192);
    assert_eq!(event.exchange, "bitfinex");
    assert_eq!(event.symbol, "tBTCUSD");
    assert_eq!(event.channel, "trades");
    assert_eq!(event.connection_id, spec.connection_id);
    assert_eq!(event.payload_text.as_deref(), Some(r#"{"event":"test"}"#));
    assert_eq!(event.payload_base64, None);

    let bytes = binary_event(spec, &received, b"Man is");
    assert_eq!(bytes.payload_text, None);
    assert_eq!(bytes.payload_base64.as_deref(), Some("TWFuIGlz"));
    let encoded = |payload: &[u8]| binary_event(spec, &received, payload).payload_base64;
    assert_eq!(encoded(b"").as_deref(), Some(""));
    assert_eq!(encoded(b"M").as_deref(), Some("TQ=="));
    assert_eq!(encoded(b"Ma").as_deref(), Some("TWE="));
    assert_eq!(encoded(&[0xfb, 0xff]).as_deref(), Some("+/8="));
}

#[test]
fn recorded_bytes_can_be_decoded() {
    let spec = &bitfinex_stream_specs("tBTCUSD")[0];
    let received = UtcTime::from_timestamp_millis(0).expect("in range");
    for length in 0..20_u8 {
        let payload: Vec<u8> = (0..length).map(|i| i.wrapping_mul(37).wrapping_add(200)).collect();
        let encoded = binary_event(spec, &received, &payload).payload_base64.expect("a payload");
        let decoded = base64::engine::general_purpose::STANDARD.decode(encoded);
        assert_eq!(decoded.expect("valid base64"), payload);
    }
}

#[test]
fn a_file_is_opened_for_every_day() {
    let mut files = DailyCapture::create("bitfinex", "tBTCUSD", "trades").expect("names");
    assert_eq!(files.partition_dir(), vec!["bitfinex", "tbtcusd", "trades"]);
    let first = files.write_event(day());
    assert!(!first.finish);
    assert_eq!(first.open.as_deref(), Some("tbtcusd_trades_26-06-29.jsonl.zst"));
    let same = files.write_event(day());
    assert!(!same.finish);
    assert_eq!(same.open, None);
    let next = files.write_event(CivilDate { year: 2026, month: 6, day: 30 });
    assert!(next.finish);
    assert_eq!(next.open.as_deref(), Some("tbtcusd_trades_26-06-30.jsonl.zst"));
    assert!(files.close());
    assert!(!files.close());
    assert_eq!(
        DailyCapture::create("bitfinex", "", "trades").expect_err("no symbol"),
        "symbol cannot be empty after path normalization"
    );
}

/// Writes a series the way a recorder does: each message goes to the end of the file that is open.
fn record(
    capture: &mut DailyCapture,
    files: &mut Vec<(String, Vec<u32>)>,
    series: &[(CivilDate, u32)],
) {
    let mut open = String::new();
    for (date, message) in series {
        if let Some(name) = capture.write_event(*date).open {
            open = format!("{}/{}", capture.partition_dir().join("/"), name);
        }
        match files.iter_mut().find(|(path, _)| *path == open) {
            Some((_, lines)) => lines.push(*message),
            None => files.push((open.clone(), vec![*message])),
        }
    }
    capture.close();
}

#[test]
fn raw_files_of_two_recorders_are_appended_to() {
    let next = CivilDate { year: 2026, month: 6, day: 30 };
    let mut files: Vec<(String, Vec<u32>)> = Vec::new();
    let mut first = DailyCapture::create("bitfinex", "tBTCUSD", "trades").expect("names");
    record(&mut first, &mut files, &[(day(), 1), (day(), 2), (next, 3)]);
    let mut second = DailyCapture::create("bitfinex", "tBTCUSD", "trades").expect("names");
    record(&mut second, &mut files, &[(next, 4), (day(), 5), (next, 6)]);
    assert_eq!(
        files,
        vec![
            ("bitfinex/tbtcusd/trades/tbtcusd_trades_26-06-29.jsonl.zst".to_owned(), vec![1, 2, 5]),
            ("bitfinex/tbtcusd/trades/tbtcusd_trades_26-06-30.jsonl.zst".to_owned(), vec![3, 4, 6]),
        ]
    );
}

#[test]
fn two_digits_of_the_year_name_a_file() {
    let mut files = DailyCapture::create("deribit", "BTC", "trades").expect("names");
    let last = CivilDate { year: 2026, month: 6, day: 29 };
    let century_before = CivilDate { year: 1926, month: 6, day: 29 };
    let name = files.write_event(last).open;
    assert_eq!(files.write_event(century_before).open, name);
    assert_ne!(files.write_event(CivilDate { year: 2027, month: 6, day: 29 }).open, name);
}

#[test]
fn the_normalizer_looks_where_the_recorder_wrote() {
    let mut files = DailyCapture::create("hibachi", "BTC/USDT-P", "market_data").expect("names");
    let written = files.write_event(day()).open.expect("a file");
    let dir = files.partition_dir();
    let (channel_dir, name) =
        raw_channel_file_path(&dir[1], "market_data", day()).expect("a path");
    assert_eq!(channel_dir, dir[2]);
    assert_eq!(name, written);
    assert_eq!(name, "btc_usdt-p_market_data_26-06-29.jsonl.zst");
    assert!(raw_channel_file_path("btc", "", day()).is_err());
}

#[test]
fn output_feeds_name_their_connections() {
    let deribit = deribit_output_spec("trades");
    assert_eq!(deribit.exchange, "deribit");
    assert_eq!(deribit.symbol, "BTC");
    assert_eq!(deribit.connection_id, "deribit-BTC-instruments");
    let hyperliquid = hyperliquid_output_spec("UBTC/USDC", "book");
    assert_eq!(hyperliquid.symbol, "UBTC/USDC");
    assert_eq!(hyperliquid.channel, "book");
    assert_eq!(hyperliquid.connection_id, "hyperliquid-spot-btc");
}

#[test]
fn plans_a_dataset_for_every_raw_file() {
    let mut archive = empty_archive();
    archive.deribit = vec![files("btc", &["control", "incremental_ticker", "trades"])];
    archive.bitfinex = vec![files("tbtcusd", &["trades", "book_l25"])];
    archive.hibachi = vec![files("btc_usdt-p", &["market_data"])];
    archive.hyperliquid = vec![files("ubtc_usdc", &["book"])];
    let jobs = run_normalize_cli(&sample_normalize_args(), &archive).expect("jobs");
    let deribit: Vec<&str> =
        jobs.iter().filter(|job| job.venue == "deribit").map(|job| job.dataset).collect();
    assert!(deribit.contains(&"instruments"));
    assert!(deribit.contains(&"incremental_ticker"));
    assert!(deribit.contains(&"trades"));
    assert!(!deribit.contains(&"instrument_state"));
    let hibachi: Vec<&str> =
        jobs.iter().filter(|job| job.venue == "hibachi").map(|job| job.dataset).collect();
    for dataset in ["trades", "orderbook", "quotes", "prices", "funding"] {
        assert!(hibachi.contains(&dataset));
    }
    assert_eq!(jobs.iter().filter(|job| job.venue == "bitfinex").count(), 2);
    assert_eq!(jobs.iter().filter(|job| job.venue == "hyperliquid").count(), 1);
}

#[test]
fn reports_a_day_without_raw_files() {
    let mut archive = empty_archive();
    archive.bitfinex = vec![files("tbtcusd", &["unheard_of"])];
    assert_eq!(
        run_normalize_cli(&sample_normalize_args(), &archive).expect_err("nothing to do"),
        "no supported non-Extended raw files found for 2026-06-29 under /raw"
    );
}

#[test]
fn names_the_files_of_datasets() {
    let job = NormalizeJob {
        venue: "hibachi",
        symbol: "btc_usdt-p".to_owned(),
        dataset: "funding",
    };
    assert_eq!(
        normalized_parquet_path(&job, day()),
        vec![
            "hibachi",
            "btc_usdt-p",
            "funding",
            "btc_usdt-p_funding_26-06-29.parquet"
        ]
    );
    assert_eq!(source_channel(&job), "market_data");
    let book = NormalizeJob { venue: "bitfinex", symbol: "tbtcusd".to_owned(), dataset: "book_l25" };
    assert_eq!(source_channel(&book), "book_l25");
    assert_eq!(
        raw_channels(NormalizedVenue::Deribit),
        vec!["control", "instrument_creation", "instrument_state", "incremental_ticker", "trades"]
    );
    assert_eq!(raw_channels(NormalizedVenue::Bitfinex), vec!["book_l25", "trades"]);
    assert_eq!(raw_channels(NormalizedVenue::Hibachi), vec!["market_data"]);
    assert_eq!(raw_channels(NormalizedVenue::Hyperliquid), vec!["book", "trades", "control"]);
    assert_eq!(
        venue_symbol_dirs(vec!["b".to_owned(), "a".to_owned(), "ab".to_owned()]),
        vec!["a", "ab", "b"]
    );
}

#[test]
fn the_menu_shows_its_settings() {
    let lines = TuiState::default().render();
    assert_eq!(lines[0], "MODL Pi recorder");
    assert_eq!(lines[2], "Output dir: /mnt/burner-archive/ws_raw");
    assert_eq!(lines[3], "Heartbeat: 20s");
    assert_eq!(lines[4], "Progress: every 100 messages per feed");
    assert_eq!(lines[7], "  1) [x] Bitfinex     symbol=tBTCUSD");
    assert_eq!(
        lines[8],
        "  2) [ ] Extended     perp=BTC-USD spot=BTCSPOT-USD"
    );
    assert_eq!(lines[9], "  3) [ ] Hibachi      symbol=BTC/USDT-P");
    assert_eq!(lines[10], "  4) [x] Deribit      currency=BTC");
    assert_eq!(lines[11], "  5) [x] Hyperliquid  spot=auto BTC/USDC");
    assert_eq!(lines.len(), 18);
}

#[test]
fn commands_change_the_venues() {
    let mut state = TuiState::default();
    assert!(matches!(menu_turn(&mut state, " 2\n"), MenuAction::Show));
    assert_eq!(
        state.enabled_venues(),
        vec![
            VenueId::Bitfinex,
            VenueId::Extended,
            VenueId::Deribit,
            VenueId::Hyperliquid
        ]
    );
    menu_turn(&mut state, "2");
    assert_eq!(state.venues, TuiState::default().venues);
    menu_turn(&mut state, "N");
    assert!(state.enabled_venues().is_empty());
    assert_eq!(
        state.recorder_args().expect_err("no venue"),
        "select at least one venue before running the recorder"
    );
    menu_turn(&mut state, "a");
    assert_eq!(state.enabled_venues().len(), 5);
    assert!(matches!(menu_turn(&mut state, "m"), MenuAction::EditMarkets));
    assert!(matches!(menu_turn(&mut state, "O"), MenuAction::AskOutputDir));
    assert!(matches!(menu_turn(&mut state, "h"), MenuAction::AskHeartbeat));
    assert!(matches!(menu_turn(&mut state, "r"), MenuAction::Run));
    assert!(matches!(menu_turn(&mut state, "Q"), MenuAction::Quit));
    assert!(matches!(menu_turn(&mut state, "  "), MenuAction::Show));
    match menu_turn(&mut state, "6") {
        MenuAction::Report(message) => assert_eq!(message, "unknown command: 6"),
        other => panic!("{other:?}"),
    }
}

#[test]
fn settings_become_arguments() {
    let mut state = TuiState::default();
    state.deribit_currency = " btc ".to_owned();
    state.hyperliquid_spot_coin = " @142 ".to_owned();
    let args = state.recorder_args().expect("arguments");
    assert_eq!(
        args,
        vec![
            "stream",
            "--venue",
            "bitfinex,deribit,hyperliquid",
            "--output-dir",
            "/mnt/burner-archive/ws_raw",
            "--bitfinex-symbol",
            "tBTCUSD",
            "--extended-market",
            "BTC-USD",
            "--extended-spot-market",
            "BTCSPOT-USD",
            "--hibachi-symbol",
            "BTC/USDT-P",
            "--deribit-currency",
            "BTC",
            "--heartbeat-secs",
            "20",
            "--progress-every",
            "100",
            "--hyperliquid-spot-coin",
            "@142",
        ]
    );
    state.hyperliquid_spot_coin = "  ".to_owned();
    assert_eq!(state.recorder_args().expect("arguments").len(), 19);
}

#[test]
fn blank_answers_keep_what_was_set() {
    assert_eq!(answer_or_default(" \n", "old"), "old");
    assert_eq!(answer_or_default(" new \n", "old"), "new");
    assert_eq!(answer_u64_or_default("\n", 20), Ok(20));
    assert_eq!(answer_u64_or_default(" 35 ", 20), Ok(35));
    let reason = "x".parse::<u64>().expect_err("no number");
    assert_eq!(
        answer_u64_or_default("x", 20),
        Err(format!("invalid number: {reason}"))
    );
    let mut state = TuiState::default();
    edit_markets(
        &mut state,
        &MarketAnswers {
            bitfinex_symbol: "tETHUSD\n".to_owned(),
            extended_market: "\n".to_owned(),
            extended_spot_market: "\n".to_owned(),
            hibachi_symbol: "\n".to_owned(),
            deribit_currency: "eth\n".to_owned(),
            hyperliquid_spot_coin: "\n".to_owned(),
        },
    );
    assert_eq!(state.bitfinex_symbol, "tETHUSD");
    assert_eq!(state.extended_market, "BTC-USD");
    assert_eq!(state.deribit_currency, "ETH");
    assert_eq!(state.hyperliquid_spot_coin, "");
}

#[test]
fn commands_are_shown_quoted() {
    assert_eq!(shell_quote("/usr/bin/modl-1.0,a:b=c_d"), "/usr/bin/modl-1.0,a:b=c_d");
    assert_eq!(shell_quote("two words"), "'two words'");
    assert_eq!(shell_quote("it's"), r"'it'\''s'");
    assert_eq!(shell_quote(""), "");
    assert_eq!(
        display_command("modl", &vec!["stream".to_owned(), "a b".to_owned()]),
        "modl stream 'a b'"
    );
}

#[test]
fn a_recorder_is_interrupted_then_killed() {
    assert_eq!(stop_step(0, true), StopStep::Done);
    assert_eq!(stop_step(0, false), StopStep::Interrupt);
    assert_eq!(stop_step(1, false), StopStep::WaitMillis(250));
    assert_eq!(stop_step(40, false), StopStep::WaitMillis(250));
    assert_eq!(stop_step(40, true), StopStep::Done);
    assert_eq!(stop_step(41, false), StopStep::Kill);
    assert_eq!(
        recorder_binary(Some("/opt/modl".to_owned()), "/bin/modl".to_owned(), true, "modl"),
        "/opt/modl"
    );
    assert_eq!(
        recorder_binary(None, "/bin/modl".to_owned(), true, "modl"),
        "/bin/modl"
    );
    assert_eq!(recorder_binary(None, "/bin/modl".to_owned(), false, "modl"), "modl");
}
