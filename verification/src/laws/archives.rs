//! Archives: what a table of trades holds, which lines of a raw file are read, and which files of a
//! day are normalized.

use vstd::prelude::*;

use crate::calendar::CivilDate;
use crate::calendar::UtcTime;
use crate::capture::DailyCapture;
use crate::decimal::DecimalParts;
use crate::decimal::DecimalValue;
use crate::decimal::decimal_string;
use crate::decimal::normalizing_keeps_the_value;
use crate::decimal::point_text;
use crate::events::LineStep;
use crate::events::RawLine;
use crate::events::RawWsEventOwned;
use crate::events::line_step;
use crate::events::take_payload_text;
use crate::laws::columns::at;
use crate::order;
use crate::order::text_before;
use crate::paths::normalized_file_name;
use crate::plan;
use crate::plan::Job;
use crate::plan::NormalizeArgs;
use crate::plan::NormalizeJob;
use crate::plan::NormalizedVenue;
use crate::plan::RawArchive;
use crate::plan::SymbolFiles;
use crate::plan::normalized_parquet_path;
use crate::plan::raw_channel_file_path;
use crate::plan::raw_channels;
use crate::plan::run_normalize_cli;
use crate::plan::source_channel;
use crate::plan::venue_symbol_dirs;
use crate::table::CellView;
use crate::table::TableRow;
use crate::text;
use crate::text::IntError;
use crate::trades::Trade;
use crate::trades::TradeSide;

verus! {

/// A line of the trade history holds the trade: id and time as integers, the time in words, the
/// side in a word, and the amount, the amount without its sign and the price in digits.
pub proof fn history_tables_hold_their_trades(
    trade: Trade,
    at_words: String,
    amount: String,
    amount_abs: String,
    price: String,
)
    requires
        call_ensures(UtcTime::millis_text, (&trade.timestamp,), at_words),
        call_ensures(decimal_string, (&trade.amount,), amount),
        call_ensures(decimal_string, (&trade.amount_abs,), amount_abs),
        call_ensures(decimal_string, (&trade.price,), price),
    ensures
        at(trade, "exchange"@, CellView::Text(trade.exchange@)),
        at(trade, "symbol"@, CellView::Text(trade.symbol@)),
        at(trade, "id"@, CellView::Int(trade.id)),
        at(trade, "mts"@, CellView::Int(trade.mts)),
        at(trade, "timestamp"@, CellView::Text(at_words@)),
        at(
            trade,
            "side"@,
            CellView::Text(
                match trade.side {
                    TradeSide::Buy => "buy"@,
                    TradeSide::Sell => "sell"@,
                    TradeSide::Unknown => "unknown"@,
                },
            ),
        ),
        at(trade, "amount"@, CellView::Text(amount@)),
        at(trade, "amount_abs"@, CellView::Text(amount_abs@)),
        at(trade, "price"@, CellView::Text(price@)),
        <Trade as TableRow>::schema().len() == 9,
{
    let schema = <Trade as TableRow>::schema();
    let cells = trade.cells();
    assert(schema[0].name == "exchange"@ && cells[0] == CellView::Text(trade.exchange@));
    assert(schema[1].name == "symbol"@ && cells[1] == CellView::Text(trade.symbol@));
    assert(schema[2].name == "id"@ && cells[2] == CellView::Int(trade.id));
    assert(schema[3].name == "mts"@ && cells[3] == CellView::Int(trade.mts));
    assert(schema[4].name == "timestamp"@ && cells[4] == CellView::Text(at_words@));
    assert(schema[5].name == "side"@ && cells[5] == CellView::Text(trade.side.name()));
    assert(schema[6].name == "amount"@ && cells[6] == CellView::Text(amount@));
    assert(schema[7].name == "amount_abs"@ && cells[7] == CellView::Text(amount_abs@));
    assert(schema[8].name == "price"@ && cells[8] == CellView::Text(price@));
}

/// The digits write the decimal number: behind the sign they are those of the mantissa, with a point
/// in front of as many of them as the scale says.
pub open spec fn digits_write(s: Seq<char>, parts: DecimalParts) -> bool {
    let from: int = if parts.negative {
        1
    } else {
        0
    };
    let point = s.len() - parts.scale - 1;
    &&& parts.negative ==> s.len() > 0 && s[0] == '-'
    &&& parts.scale == 0 ==> text::parsed_int(
        s.subrange(from, s.len() as int),
        0,
        parts.mantissa as int,
    ) == Ok::<int, IntError>(parts.mantissa as int)
    &&& parts.scale > 0 ==> from < point && s[point] == '.' && text::parsed_int(
        s.subrange(from, point) + s.skip(point + 1),
        0,
        parts.mantissa as int,
    ) == Ok::<int, IntError>(parts.mantissa as int)
}

/// A decimal number is written in all its digits.
pub proof fn decimals_are_written_whole(value: &DecimalValue, words: String)
    requires
        call_ensures(DecimalValue::to_text, (value,), words),
    ensures
        digits_write(words@, value@),
{
    lemma_digits_write(value@);
}

proof fn lemma_digits_write(parts: DecimalParts)
    ensures
        digits_write(parts.text(), parts),
{
    let s = parts.text();
    let plain = point_text(parts.mantissa, parts.scale);
    let digits = text::padded(parts.mantissa, parts.scale + 1);
    text::padded_numbers_are_read_back(parts.mantissa, parts.scale + 1, parts.mantissa as int);
    reveal_strlit("-");
    reveal_strlit(".");
    let from: int = if parts.negative {
        1
    } else {
        0
    };
    assert(s.subrange(from, s.len() as int) =~= plain);
    if parts.scale > 0 {
        let point = s.len() - parts.scale - 1;
        let cut = digits.len() - parts.scale;
        assert(s.subrange(from, point) =~= digits.take(cut));
        assert(s.skip(point + 1) =~= digits.skip(cut));
        assert(digits.take(cut) + digits.skip(cut) =~= digits);
    }
}

/// In a table a decimal number is written with the same value, without zeros at the end of its
/// fraction.
pub proof fn tables_keep_the_value_of_decimals(value: &DecimalValue, words: String)
    requires
        call_ensures(decimal_string, (value,), words),
    ensures
        exists|short: DecimalParts| #[trigger]
            digits_write(words@, short) && short.scale <= value@.scale && short.mantissa
                * vstd::arithmetic::power::pow(10, (value@.scale - short.scale) as nat)
                == value@.mantissa && (short.scale > 0 ==> short.mantissa % 10 != 0) && (
            value@.mantissa > 0 ==> short.negative == value@.negative) && (value@.mantissa == 0
                ==> !short.negative),
{
    let short = value@.normalized();
    lemma_digits_write(short);
    normalizing_keeps_the_value(value@);
    crate::decimal::normalized_has_no_trailing_zero(value@);
    if value@.mantissa == 0 {
        assert(short.mantissa == 0 && short.scale == 0);
        assert(0 * vstd::arithmetic::power::pow(10, (value@.scale - short.scale) as nat) == 0);
    }
    assert(digits_write(words@, short));
}

/// The amount without its sign has the same digits, and is never negative; parts make the number
/// that has them.
pub proof fn decimals_keep_their_parts(
    value: &DecimalValue,
    size: DecimalValue,
    positive: bool,
    negative: bool,
    mantissa: u128,
    scale: u32,
    made: Option<DecimalValue>,
)
    requires
        call_ensures(DecimalValue::abs, (value,), size),
        call_ensures(DecimalValue::is_sign_positive, (value,), positive),
        call_ensures(DecimalValue::from_parts, (negative, mantissa, scale), made),
    ensures
        !size@.negative && size@.mantissa == value@.mantissa && size@.scale == value@.scale,
        positive <==> !value@.negative,
        made is Some ==> made->Some_0@.negative == negative && made->Some_0@.mantissa == mantissa
            && made->Some_0@.scale == scale,
        mantissa < 0x1_0000_0000_0000_0000_0000_0000 && scale <= 28 <==> made is Some,
{
}

/// Every line of a raw file that holds anything is read; a blank one is passed over.
pub proof fn lines_are_read_unless_blank(contents: String, step: LineStep, i: int)
    requires
        call_ensures(line_step, (&RawLine::Line(contents),), step),
    ensures
        0 <= i < contents@.len() && !text::is_space(contents@[i]) ==> step is Decode,
        (forall|k: int| 0 <= k < contents@.len() ==> text::is_space(#[trigger] contents@[k]))
            ==> step is Skip,
{
    text::blank_texts_are_all_space(contents@);
}

/// A raw file that ends in the middle is read up to there: the end of the file and a damaged tail
/// stop the reading, and any other error fails it.
pub proof fn broken_tails_are_left_out(
    unexpected_eof: bool,
    message: String,
    step: LineStep,
    at: int,
)
    requires
        call_ensures(line_step, (&RawLine::Unreadable { unexpected_eof, message },), step),
    ensures
        step is Stop || step is Fail,
        unexpected_eof ==> step is Stop,
        text::stands_at(message@, "incomplete frame"@, at) ==> step is Stop,
        text::stands_at(message@, "Data corruption detected"@, at) ==> step is Stop,
        step is Stop ==> unexpected_eof || text::contains(message@, "incomplete frame"@)
            || text::contains(message@, "Data corruption detected"@),
{
}

/// The text of a message is taken out of it, and nothing else.
pub proof fn payloads_are_taken_whole(event: &mut RawWsEventOwned, payload: Option<String>)
    requires
        call_ensures(take_payload_text, (event,), payload),
    ensures
        payload == old(event).payload_text,
        final(event).exchange@ == old(event).exchange@,
        final(event).symbol@ == old(event).symbol@,
        final(event).channel@ == old(event).channel@,
        final(event).connection_id@ == old(event).connection_id@,
        final(event).received_at@ == old(event).received_at@,
        final(event).received_mts == old(event).received_mts,
{
}

/// Texts are ordered by the first character in which they differ; one that ends where another goes
/// on comes first.
pub proof fn texts_are_ordered_by_their_first_difference(
    a: &str,
    b: &str,
    common: Seq<char>,
    rest_a: Seq<char>,
    rest_b: Seq<char>,
    yes: bool,
)
    requires
        call_ensures(text_before, (a, b), yes),
        a@ == common + rest_a,
        b@ == common + rest_b,
    ensures
        rest_a.len() > 0 && rest_b.len() > 0 && rest_a[0] != rest_b[0] ==> (yes <==> rest_a[0]
            < rest_b[0]),
        rest_a.len() == 0 ==> (yes <==> rest_b.len() > 0),
        rest_b.len() == 0 ==> !yes,
    decreases common.len(),
{
    lemma_first_difference(common, rest_a, rest_b);
}

proof fn lemma_first_difference(common: Seq<char>, rest_a: Seq<char>, rest_b: Seq<char>)
    ensures
        order::text_less(common + rest_a, common + rest_b) == order::text_less(rest_a, rest_b),
    decreases common.len(),
{
    let a = common + rest_a;
    let b = common + rest_b;
    if common.len() > 0 {
        let less = common.subrange(1, common.len() as int);
        assert(a.subrange(1, a.len() as int) =~= less + rest_a);
        assert(b.subrange(1, b.len() as int) =~= less + rest_b);
        lemma_first_difference(less, rest_a, rest_b);
    } else {
        assert(a =~= rest_a);
        assert(b =~= rest_b);
    }
}

/// The symbols of a venue are sorted: none is lost or doubled, and none stands behind one that
/// comes after it.
pub proof fn symbols_are_sorted(
    names: Vec<String>,
    sorted: Vec<String>,
    i: int,
    j: int,
    a: &str,
    b: &str,
    yes: bool,
)
    requires
        call_ensures(venue_symbol_dirs, (names,), sorted),
        0 <= i < j < sorted@.len(),
        a@ == sorted@[i]@,
        b@ == sorted@[j]@,
        call_ensures(text_before, (b, a), yes),
    ensures
        !yes,
        text::texts(sorted@).to_multiset() == text::texts(names@).to_multiset(),
{
    let all = text::texts(sorted@);
    assert(all[i] == a@ && all[j] == b@);
}

/// The files of a venue.
pub open spec fn files_of(archive: RawArchive, venue: NormalizedVenue) -> Seq<SymbolFiles> {
    match venue {
        NormalizedVenue::Deribit => archive.deribit@,
        NormalizedVenue::Bitfinex => archive.bitfinex@,
        NormalizedVenue::Hibachi => archive.hibachi@,
        NormalizedVenue::Hyperliquid => archive.hyperliquid@,
    }
}

/// The name of a venue, as its exchange is recorded.
pub open spec fn name_of(venue: NormalizedVenue) -> Seq<char> {
    match venue {
        NormalizedVenue::Deribit => "deribit"@,
        NormalizedVenue::Bitfinex => "bitfinex"@,
        NormalizedVenue::Hibachi => "hibachi"@,
        NormalizedVenue::Hyperliquid => "hyperliquid"@,
    }
}

/// Among the jobs is one for the dataset of the symbol.
pub open spec fn has_job(
    jobs: Seq<NormalizeJob>,
    venue: NormalizedVenue,
    symbol: Seq<char>,
    dataset: Seq<char>,
) -> bool {
    exists|k: int|
        0 <= k < jobs.len() && (#[trigger] jobs[k]).venue@ == name_of(venue) && jobs[k].symbol@
            == symbol && jobs[k].dataset@ == dataset
}

/// Every raw file of a day is normalized: where there is a file of a channel of Bitfinex or
/// Hyperliquid, its dataset is written; where there is the one file of Hibachi, all datasets of
/// Hibachi are; and where there is any file of Deribit that counts, its instruments, tickers and
/// trades are, and its states where there are any.
pub proof fn every_raw_file_is_normalized(
    args: &NormalizeArgs,
    archive: &RawArchive,
    r: Result<Vec<NormalizeJob>, String>,
    venue: NormalizedVenue,
    i: int,
    channel: Seq<char>,
)
    requires
        call_ensures(run_normalize_cli, (args, archive), r),
        0 <= i < files_of(*archive, venue).len(),
        files_of(*archive, venue)[i].has(channel),
    ensures
        ({
            let symbol = files_of(*archive, venue)[i].symbol@;
            &&& venue == NormalizedVenue::Bitfinex && (channel == "book_l25"@ || channel
                == "trades"@) ==> r is Ok && has_job(r->Ok_0@, venue, symbol, channel)
            &&& venue == NormalizedVenue::Hyperliquid && (channel == "book"@ || channel == "trades"@
                || channel == "control"@) ==> r is Ok && has_job(
                r->Ok_0@,
                venue,
                symbol,
                channel,
            )
            &&& venue == NormalizedVenue::Hibachi && channel == "market_data"@ ==> {
                &&& r is Ok
                &&& has_job(r->Ok_0@, venue, symbol, "trades"@)
                &&& has_job(r->Ok_0@, venue, symbol, "orderbook"@)
                &&& has_job(r->Ok_0@, venue, symbol, "quotes"@)
                &&& has_job(r->Ok_0@, venue, symbol, "prices"@)
                &&& has_job(r->Ok_0@, venue, symbol, "funding"@)
            }
            &&& venue == NormalizedVenue::Deribit && (channel == "control"@ || channel
                == "instrument_creation"@ || channel == "instrument_state"@ || channel
                == "incremental_ticker"@ || channel == "trades"@) ==> {
                &&& r is Ok
                &&& has_job(r->Ok_0@, venue, symbol, "instruments"@)
                &&& has_job(r->Ok_0@, venue, symbol, "incremental_ticker"@)
                &&& has_job(r->Ok_0@, venue, symbol, "trades"@)
                &&& channel == "instrument_state"@ ==> has_job(
                    r->Ok_0@,
                    venue,
                    symbol,
                    "instrument_state"@,
                )
            }
        }),
{
    let files = files_of(*archive, venue)[i];
    match venue {
        NormalizedVenue::Bitfinex => {
            if channel == "book_l25"@ || channel == "trades"@ {
                lemma_wanted(*archive, venue, i, channel, r);
            }
        },
        NormalizedVenue::Hyperliquid => {
            if channel == "book"@ || channel == "trades"@ || channel == "control"@ {
                lemma_wanted(*archive, venue, i, channel, r);
            }
        },
        NormalizedVenue::Hibachi => {
            if channel == "market_data"@ {
                lemma_wanted(*archive, venue, i, "trades"@, r);
                lemma_wanted(*archive, venue, i, "orderbook"@, r);
                lemma_wanted(*archive, venue, i, "quotes"@, r);
                lemma_wanted(*archive, venue, i, "prices"@, r);
                lemma_wanted(*archive, venue, i, "funding"@, r);
            }
        },
        NormalizedVenue::Deribit => {
            if channel == "control"@ || channel == "instrument_creation"@ || channel
                == "instrument_state"@ || channel == "incremental_ticker"@ || channel
                == "trades"@ {
                reveal_strlit("instrument_state");
                reveal_strlit("instruments");
                reveal_strlit("incremental_ticker");
                reveal_strlit("trades");
                assert("instrument_state"@.len() == 16 && "instruments"@.len() == 11
                    && "incremental_ticker"@.len() == 18 && "trades"@.len() == 6);
                lemma_wanted(*archive, venue, i, "instruments"@, r);
                lemma_wanted(*archive, venue, i, "incremental_ticker"@, r);
                lemma_wanted(*archive, venue, i, "trades"@, r);
                if channel == "instrument_state"@ {
                    lemma_wanted(*archive, venue, i, "instrument_state"@, r);
                }
            }
        },
    }
}

/// The dataset is wanted for the files of a symbol.
pub open spec fn is_wanted(venue: NormalizedVenue, files: SymbolFiles, dataset: Seq<char>) -> bool {
    match venue {
        NormalizedVenue::Bitfinex => (dataset == "book_l25"@ || dataset == "trades"@) && files.has(
            dataset,
        ),
        NormalizedVenue::Hyperliquid => (dataset == "book"@ || dataset == "trades"@ || dataset
            == "control"@) && files.has(dataset),
        NormalizedVenue::Hibachi => (dataset == "trades"@ || dataset == "orderbook"@ || dataset
            == "quotes"@ || dataset == "prices"@ || dataset == "funding"@) && files.has(
            "market_data"@,
        ),
        NormalizedVenue::Deribit => if dataset == "instrument_state"@ {
            files.has(dataset)
        } else {
            (dataset == "instruments"@ || dataset == "incremental_ticker"@ || dataset == "trades"@)
                && (files.has("control"@) || files.has("instrument_creation"@) || files.has(
                "instrument_state"@,
            ) || files.has("incremental_ticker"@) || files.has("trades"@))
        },
    }
}

proof fn lemma_either(front: Seq<Job>, back: Seq<Job>, job: Job)
    ensures
        (front + back).contains(job) <==> front.contains(job) || back.contains(job),
{
    let both = front + back;
    if front.contains(job) {
        let k = choose|k: int| 0 <= k < front.len() && front[k] == job;
        assert(both[k] == job);
    }
    if back.contains(job) {
        let k = choose|k: int| 0 <= k < back.len() && back[k] == job;
        assert(both[front.len() + k] == job);
    }
    if both.contains(job) {
        let k = choose|k: int| 0 <= k < both.len() && both[k] == job;
        if k < front.len() {
            assert(front[k] == job);
        } else {
            assert(back[k - front.len()] == job);
        }
    }
}

proof fn lemma_if(
    wanted: bool,
    venue: Seq<char>,
    symbol: Seq<char>,
    dataset: Seq<char>,
    job: Job,
)
    ensures
        plan::job_if(wanted, venue, symbol, dataset).contains(job) <==> wanted && job == (Job {
            venue,
            symbol,
            dataset,
        }),
{
    if wanted {
        assert(plan::job_if(wanted, venue, symbol, dataset)[0] == (Job { venue, symbol, dataset }));
    }
}

proof fn lemma_symbol_jobs(venue: NormalizedVenue, files: SymbolFiles, job: Job)
    ensures
        plan::symbol_jobs(venue, files).contains(job) <==> job.venue == name_of(venue) && job.symbol
            == files.symbol@ && is_wanted(venue, files, job.dataset),
{
    let symbol = files.symbol@;
    match venue {
        NormalizedVenue::Bitfinex => {
            let v = "bitfinex"@;
            let book = files.has("book_l25"@);
            let trades = files.has("trades"@);
            lemma_if(book, v, symbol, "book_l25"@, job);
            lemma_if(trades, v, symbol, "trades"@, job);
            lemma_either(
                plan::job_if(book, v, symbol, "book_l25"@),
                plan::job_if(trades, v, symbol, "trades"@),
                job,
            );
        },
        NormalizedVenue::Hyperliquid => {
            let v = "hyperliquid"@;
            let a = plan::job_if(files.has("book"@), v, symbol, "book"@);
            let b = plan::job_if(files.has("trades"@), v, symbol, "trades"@);
            let c = plan::job_if(files.has("control"@), v, symbol, "control"@);
            lemma_if(files.has("book"@), v, symbol, "book"@, job);
            lemma_if(files.has("trades"@), v, symbol, "trades"@, job);
            lemma_if(files.has("control"@), v, symbol, "control"@, job);
            lemma_either(a, b, job);
            lemma_either(a + b, c, job);
        },
        NormalizedVenue::Hibachi => {
            let v = "hibachi"@;
            let any = files.has("market_data"@);
            let a = plan::job_if(any, v, symbol, "trades"@);
            let b = plan::job_if(any, v, symbol, "orderbook"@);
            let c = plan::job_if(any, v, symbol, "quotes"@);
            let d = plan::job_if(any, v, symbol, "prices"@);
            let e = plan::job_if(any, v, symbol, "funding"@);
            lemma_if(any, v, symbol, "trades"@, job);
            lemma_if(any, v, symbol, "orderbook"@, job);
            lemma_if(any, v, symbol, "quotes"@, job);
            lemma_if(any, v, symbol, "prices"@, job);
            lemma_if(any, v, symbol, "funding"@, job);
            lemma_either(a, b, job);
            lemma_either(a + b, c, job);
            lemma_either(a + b + c, d, job);
            lemma_either(a + b + c + d, e, job);
        },
        NormalizedVenue::Deribit => {
            let v = "deribit"@;
            let any = files.has("control"@) || files.has("instrument_creation"@) || files.has(
                "instrument_state"@,
            ) || files.has("incremental_ticker"@) || files.has("trades"@);
            let states = files.has("instrument_state"@);
            let a = plan::job_if(any, v, symbol, "instruments"@);
            let b = plan::job_if(any, v, symbol, "incremental_ticker"@);
            let c = plan::job_if(any, v, symbol, "trades"@);
            let d = plan::job_if(states, v, symbol, "instrument_state"@);
            lemma_if(any, v, symbol, "instruments"@, job);
            lemma_if(any, v, symbol, "incremental_ticker"@, job);
            lemma_if(any, v, symbol, "trades"@, job);
            lemma_if(states, v, symbol, "instrument_state"@, job);
            lemma_either(a, b, job);
            lemma_either(a + b, c, job);
            lemma_either(a + b + c, d, job);
            reveal_strlit("instrument_state");
            reveal_strlit("instruments");
            reveal_strlit("incremental_ticker");
            reveal_strlit("trades");
            assert("instrument_state"@.len() == 16 && "instruments"@.len() == 11
                && "incremental_ticker"@.len() == 18 && "trades"@.len() == 6);
        },
    }
}

proof fn lemma_venue_jobs(venue: NormalizedVenue, symbols: Seq<SymbolFiles>, job: Job)
    ensures
        plan::venue_jobs(venue, symbols).contains(job) <==> exists|i: int|
            0 <= i < symbols.len() && plan::symbol_jobs(venue, #[trigger] symbols[i]).contains(job),
    decreases symbols.len(),
{
    if symbols.len() > 0 {
        let front = symbols.drop_last();
        let last = symbols.len() - 1;
        lemma_venue_jobs(venue, front, job);
        lemma_either(
            plan::venue_jobs(venue, front),
            plan::symbol_jobs(venue, symbols.last()),
            job,
        );
        assert(symbols[last] == symbols.last());
        if exists|i: int|
            0 <= i < front.len() && plan::symbol_jobs(venue, #[trigger] front[i]).contains(job) {
            let i = choose|i: int|
                0 <= i < front.len() && plan::symbol_jobs(venue, #[trigger] front[i]).contains(job);
            assert(symbols[i] == front[i]);
        }
        if exists|i: int|
            0 <= i < symbols.len() && plan::symbol_jobs(venue, #[trigger] symbols[i]).contains(
                job,
            ) {
            let i = choose|i: int|
                0 <= i < symbols.len() && plan::symbol_jobs(venue, #[trigger] symbols[i]).contains(
                    job,
                );
            if i < last {
                assert(front[i] == symbols[i]);
            }
        }
    }
}

proof fn lemma_day_jobs(archive: RawArchive, job: Job)
    ensures
        plan::day_jobs(archive).contains(job) <==> plan::venue_jobs(
            NormalizedVenue::Deribit,
            archive.deribit@,
        ).contains(job) || plan::venue_jobs(NormalizedVenue::Bitfinex, archive.bitfinex@).contains(
            job,
        ) || plan::venue_jobs(NormalizedVenue::Hibachi, archive.hibachi@).contains(job)
            || plan::venue_jobs(NormalizedVenue::Hyperliquid, archive.hyperliquid@).contains(job),
{
    let a = plan::venue_jobs(NormalizedVenue::Deribit, archive.deribit@);
    let b = plan::venue_jobs(NormalizedVenue::Bitfinex, archive.bitfinex@);
    let c = plan::venue_jobs(NormalizedVenue::Hibachi, archive.hibachi@);
    let d = plan::venue_jobs(NormalizedVenue::Hyperliquid, archive.hyperliquid@);
    lemma_either(a, b, job);
    lemma_either(a + b, c, job);
    lemma_either(a + b + c, d, job);
}

proof fn lemma_wanted(
    archive: RawArchive,
    venue: NormalizedVenue,
    i: int,
    dataset: Seq<char>,
    r: Result<Vec<NormalizeJob>, String>,
)
    requires
        r is Ok ==> plan::job_views(r->Ok_0@) == plan::day_jobs(archive),
        r is Err ==> plan::day_jobs(archive).len() == 0,
        0 <= i < files_of(archive, venue).len(),
        is_wanted(venue, files_of(archive, venue)[i], dataset),
    ensures
        r is Ok,
        has_job(r->Ok_0@, venue, files_of(archive, venue)[i].symbol@, dataset),
{
    let files = files_of(archive, venue)[i];
    let job = Job { venue: name_of(venue), symbol: files.symbol@, dataset };
    lemma_symbol_jobs(venue, files, job);
    lemma_venue_jobs(venue, files_of(archive, venue), job);
    lemma_day_jobs(archive, job);
    assert(plan::day_jobs(archive).contains(job));
    let all = plan::job_views(r->Ok_0@);
    let k = choose|k: int| 0 <= k < all.len() && all[k] == job;
    assert(r->Ok_0@[k]@ == job);
    assert(r->Ok_0@[k].venue@ == name_of(venue));
}

/// Nothing is normalized that was not recorded: every job is one of a symbol of its venue, and the
/// raw file that it reads is there; for Deribit, a file that counts.
pub proof fn nothing_else_is_normalized(
    args: &NormalizeArgs,
    archive: &RawArchive,
    r: Result<Vec<NormalizeJob>, String>,
    k: int,
    channel: &'static str,
)
    requires
        call_ensures(run_normalize_cli, (args, archive), r),
        r is Ok,
        0 <= k < r->Ok_0@.len(),
        call_ensures(source_channel, (&r->Ok_0@[k],), channel),
    ensures
        r->Ok_0@.len() > 0,
        exists|venue: NormalizedVenue, i: int|
            0 <= i < files_of(*archive, venue).len() && r->Ok_0@[k].venue@ == name_of(venue)
                && r->Ok_0@[k].symbol@ == (#[trigger] files_of(*archive, venue)[i]).symbol@
                && is_wanted(venue, files_of(*archive, venue)[i], r->Ok_0@[k].dataset@) && (venue
                != NormalizedVenue::Deribit ==> files_of(*archive, venue)[i].has(channel@)),
{
    let job = r->Ok_0@[k]@;
    let all = plan::job_views(r->Ok_0@);
    assert(all[k] == job);
    assert(all.contains(job));
    lemma_day_jobs(*archive, job);
    let venue = if plan::venue_jobs(NormalizedVenue::Deribit, archive.deribit@).contains(job) {
        NormalizedVenue::Deribit
    } else if plan::venue_jobs(NormalizedVenue::Bitfinex, archive.bitfinex@).contains(job) {
        NormalizedVenue::Bitfinex
    } else if plan::venue_jobs(NormalizedVenue::Hibachi, archive.hibachi@).contains(job) {
        NormalizedVenue::Hibachi
    } else {
        NormalizedVenue::Hyperliquid
    };
    let symbols = files_of(*archive, venue);
    lemma_venue_jobs(venue, symbols, job);
    let i = choose|i: int|
        0 <= i < symbols.len() && plan::symbol_jobs(venue, #[trigger] symbols[i]).contains(job);
    lemma_symbol_jobs(venue, symbols[i], job);
    reveal_strlit("hibachi");
    reveal_strlit("bitfinex");
    reveal_strlit("hyperliquid");
    assert("hibachi"@.len() == 7 && "bitfinex"@.len() == 8 && "hyperliquid"@.len() == 11);
    assert(files_of(*archive, venue)[i].symbol@ == r->Ok_0@[k].symbol@);
}

/// The channels that are normalized are those under which the feeds are recorded.
pub proof fn recorded_channels_are_normalized(
    venue: NormalizedVenue,
    channels: Vec<&'static str>,
)
    requires
        call_ensures(raw_channels, (venue,), channels),
    ensures
        ({
            let all = channels@.map_values(|c: &'static str| c@);
            &&& venue == NormalizedVenue::Bitfinex ==> all == seq!["book_l25"@, "trades"@]
            &&& venue == NormalizedVenue::Hibachi ==> all == seq!["market_data"@]
            &&& venue == NormalizedVenue::Hyperliquid ==> all.contains("book"@) && all.contains(
                "trades"@,
            ) && all.contains("control"@) && all.len() == 3
            &&& venue == NormalizedVenue::Deribit ==> all.contains("control"@) && all.contains(
                "instrument_creation"@,
            ) && all.contains("instrument_state"@) && all.contains("incremental_ticker"@)
                && all.contains("trades"@) && all.len() == 5
        }),
{
    let all = channels@.map_values(|c: &'static str| c@);
    if venue == NormalizedVenue::Hyperliquid {
        assert(all[0] == "book"@ && all[1] == "trades"@ && all[2] == "control"@);
    }
    if venue == NormalizedVenue::Deribit {
        assert(all[0] == "control"@ && all[1] == "instrument_creation"@ && all[2]
            == "instrument_state"@ && all[3] == "incremental_ticker"@ && all[4] == "trades"@);
    }
}

/// The normalizer looks for the messages of a day where the recorder wrote them: in the directory of
/// the channel, under the name of the file that the recorder opens for that day.
pub proof fn raw_files_are_found_where_they_were_written(
    exchange: &str,
    symbol: &str,
    channel: &str,
    made: Result<DailyCapture, String>,
    capture: &mut DailyCapture,
    date: CivilDate,
    change: crate::capture::CaptureChange,
    dir: Vec<String>,
    symbol_dir: &str,
    r: Result<(String, String), String>,
)
    requires
        call_ensures(DailyCapture::create, (exchange, symbol, channel), made),
        made is Ok,
        *old(capture) == made->Ok_0,
        call_ensures(DailyCapture::write_event, (capture, date), change),
        call_ensures(DailyCapture::partition_dir, (&made->Ok_0,), dir),
        symbol_dir@ == dir@[1]@,
        call_ensures(raw_channel_file_path, (symbol_dir, channel, date), r),
    ensures
        r is Ok,
        dir@.len() == 3,
        r->Ok_0.0@ == dir@[2]@,
        change.open is Some,
        r->Ok_0.1@ == change.open->Some_0@,
{
    let segments = text::texts(dir@);
    assert(segments.len() == dir@.len());
    assert(segments[1] == dir@[1]@ && segments[2] == dir@[2]@);
}

/// The rows of a job are written below venue, symbol and dataset, under the name of the dataset's
/// file of the day.
pub proof fn rows_are_written_below_their_dataset(
    job: &NormalizeJob,
    date: CivilDate,
    segments: Vec<String>,
    symbol: &str,
    name: String,
)
    requires
        call_ensures(normalized_parquet_path, (job, date), segments),
        symbol@ == job.symbol@,
        call_ensures(normalized_file_name, (symbol, job.dataset, date), name),
    ensures
        segments@.len() == 4,
        segments@[0]@ == job.venue@,
        segments@[1]@ == job.symbol@,
        segments@[2]@ == job.dataset@,
        segments@[3]@ == name@,
{
    let all = text::texts(segments@);
    assert(all.len() == segments@.len());
    assert(all[0] == segments@[0]@ && all[1] == segments@[1]@ && all[2] == segments@[2]@ && all[3]
        == segments@[3]@);
}

/// The datasets of each venue can be planned for themselves, and together they are those of the day.
pub proof fn a_day_is_its_venues(
    args: &NormalizeArgs,
    archive: &RawArchive,
    r: Result<Vec<NormalizeJob>, String>,
    deribit: Vec<NormalizeJob>,
    bitfinex: Vec<NormalizeJob>,
    hibachi: Vec<NormalizeJob>,
    hyperliquid: Vec<NormalizeJob>,
)
    requires
        call_ensures(run_normalize_cli, (args, archive), r),
        call_ensures(plan::normalize_deribit_day, (&archive.deribit,), deribit),
        call_ensures(plan::normalize_bitfinex_day, (&archive.bitfinex,), bitfinex),
        call_ensures(plan::normalize_hibachi_day, (&archive.hibachi,), hibachi),
        call_ensures(plan::normalize_hyperliquid_day, (&archive.hyperliquid,), hyperliquid),
    ensures
        r is Err <==> deribit@.len() + bitfinex@.len() + hibachi@.len() + hyperliquid@.len() == 0,
        r is Ok ==> plan::job_views(r->Ok_0@) == plan::job_views(deribit@) + plan::job_views(
            bitfinex@,
        ) + plan::job_views(hibachi@) + plan::job_views(hyperliquid@),
{
    assert(plan::job_views(deribit@).len() == deribit@.len());
    assert(plan::job_views(bitfinex@).len() == bitfinex@.len());
    assert(plan::job_views(hibachi@).len() == hibachi@.len());
    assert(plan::job_views(hyperliquid@).len() == hyperliquid@.len());
    if r is Ok {
        assert(plan::job_views(r->Ok_0@).len() == r->Ok_0@.len());
    }
}

} // verus!
