//! One recorded message: read, turned into rows, and handed to the batches of its dataset.

use vstd::prelude::*;

use crate::batch;
use crate::batch::BatchBuffer;
use crate::batch::buffer_rows;
use crate::bitfinex_rows;
use crate::bitfinex_rows::BitfinexBookLevelRow;
use crate::bitfinex_rows::BitfinexTradeRow;
use crate::deribit;
use crate::deribit_rows;
use crate::deribit_rows::DeribitInstrumentStateRow;
use crate::deribit_rows::DeribitQuoteRow;
use crate::deribit_rows::DeribitTradeRow;
use crate::deribit_rows::InstrumentTable;
use crate::events::RawWsEventOwned;
use crate::hibachi_rows;
use crate::hibachi_rows::HibachiBookLevelRow;
use crate::hibachi_rows::HibachiDataset;
use crate::hibachi_rows::HibachiFundingRow;
use crate::hibachi_rows::HibachiPriceRow;
use crate::hibachi_rows::HibachiQuoteRow;
use crate::hibachi_rows::HibachiTradeRow;
use crate::hyperliquid_rows;
use crate::hyperliquid_rows::HyperliquidBookLevelRow;
use crate::hyperliquid_rows::HyperliquidControlRow;
use crate::hyperliquid_rows::HyperliquidTradeRow;
use crate::json;
use crate::json::Json;
use crate::json::JsonTree;
use crate::wire;

verus! {

/// How many rows are written at a time.
pub const NORMALIZE_BATCH_SIZE: usize = 25_000;

/// What is reported of a payload that is no JSON document.
pub open spec fn invalid_payload(what: Seq<char>, error: Seq<char>) -> Seq<char> {
    what + ": "@ + error
}

/// Reads the payload of a message.
fn parse_payload(payload: &str, what: &str) -> (r: Result<Json, String>)
    ensures
        match wire::parsed_document(payload@) {
            Ok(tree) => r is Ok && r->Ok_0@ == tree,
            Err(error) => r is Err && r->Err_0@ == invalid_payload(what@, error),
        },
{
    match wire::parse_json(payload) {
        Ok(message) => Ok(message),
        Err(error) => {
            let mut report = what.to_owned();
            report.append(": ");
            report.append(error.as_str());
            Err(report)
        },
    }
}

/// The rows that an optional row gives.
fn one_row<R>(row: Option<R>) -> (rows: Vec<R>)
    ensures
        match row {
            Some(r) => rows@ == seq![r],
            None => rows@ == Seq::<R>::empty(),
        },
{
    let mut rows: Vec<R> = Vec::new();
    if let Some(r) = row {
        rows.push(r);
    }
    rows
}

/// The row of a ticker message: one where its data name an instrument.
pub open spec fn quote_rows(
    rows: Seq<DeribitQuoteRow>,
    event: RawWsEventOwned,
    message: JsonTree,
    instruments: InstrumentTable,
) -> bool {
    match deribit_rows::named_data(deribit::message_data(message)) {
        None => rows.len() == 0,
        Some((data, name)) => rows.len() == 1 && rows[0].says(
            event,
            message,
            data,
            instruments.lookup(name),
        ),
    }
}

/// The ticker of a recorded message.
pub fn write_deribit_quote_event(
    event: &RawWsEventOwned,
    payload: &str,
    instruments: &InstrumentTable,
    writer: &mut BatchBuffer<DeribitQuoteRow>,
) -> (r: Result<Vec<Vec<DeribitQuoteRow>>, String>)
    requires
        instruments.well_formed(),
    ensures
        match wire::parsed_document(payload@) {
            Err(error) => {
                &&& r is Err
                &&& r->Err_0@ == invalid_payload("invalid Deribit ticker JSON"@, error)
                &&& *final(writer) == *old(writer)
            },
            Ok(message) => {
                &&& r is Ok
                &&& exists|rows: Seq<DeribitQuoteRow>| #[trigger]
                    quote_rows(rows, *event, message, *instruments) && batch::buffered(
                        *old(writer),
                        *final(writer),
                        rows,
                        r->Ok_0@,
                    )
            },
        },
{
    match parse_payload(payload, "invalid Deribit ticker JSON") {
        Ok(message) => {
            let rows = one_row(
                deribit_rows::deribit_quote_row_from_message(event, &message, instruments),
            );
            assert(quote_rows(rows@, *event, message@, *instruments));
            Ok(buffer_rows(writer, rows))
        },
        Err(error) => Err(error),
    }
}

/// The rows of a trade message.
pub open spec fn deribit_trade_rows(
    rows: Seq<DeribitTradeRow>,
    event: RawWsEventOwned,
    message: JsonTree,
    instruments: InstrumentTable,
) -> bool {
    deribit_rows::rows_say(
        rows,
        event,
        message,
        deribit_rows::named_trades(deribit::message_data(message)),
        instruments,
    )
}

/// The trades of a recorded message.
pub fn write_deribit_trade_event(
    event: &RawWsEventOwned,
    payload: &str,
    instruments: &InstrumentTable,
    writer: &mut BatchBuffer<DeribitTradeRow>,
) -> (r: Result<Vec<Vec<DeribitTradeRow>>, String>)
    requires
        instruments.well_formed(),
    ensures
        match wire::parsed_document(payload@) {
            Err(error) => {
                &&& r is Err
                &&& r->Err_0@ == invalid_payload("invalid Deribit trades JSON"@, error)
                &&& *final(writer) == *old(writer)
            },
            Ok(message) => {
                &&& r is Ok
                &&& exists|rows: Seq<DeribitTradeRow>| #[trigger]
                    deribit_trade_rows(rows, *event, message, *instruments) && batch::buffered(
                        *old(writer),
                        *final(writer),
                        rows,
                        r->Ok_0@,
                    )
            },
        },
{
    match parse_payload(payload, "invalid Deribit trades JSON") {
        Ok(message) => {
            let rows = deribit_rows::deribit_trade_rows_from_message(event, &message, instruments);
            assert(deribit_trade_rows(rows@, *event, message@, *instruments));
            Ok(buffer_rows(writer, rows))
        },
        Err(error) => Err(error),
    }
}

/// The row of a state message: one where it has data.
pub open spec fn state_rows(
    rows: Seq<DeribitInstrumentStateRow>,
    event: RawWsEventOwned,
    message: JsonTree,
) -> bool {
    match deribit::message_data(message) {
        None => rows.len() == 0,
        Some(data) => rows.len() == 1 && rows[0].says(event, message, data),
    }
}

/// The instrument state of a recorded message.
pub fn write_deribit_state_event(
    event: &RawWsEventOwned,
    payload: &str,
    writer: &mut BatchBuffer<DeribitInstrumentStateRow>,
) -> (r: Result<Vec<Vec<DeribitInstrumentStateRow>>, String>)
    ensures
        match wire::parsed_document(payload@) {
            Err(error) => {
                &&& r is Err
                &&& r->Err_0@ == invalid_payload("invalid Deribit instrument state JSON"@, error)
                &&& *final(writer) == *old(writer)
            },
            Ok(message) => {
                &&& r is Ok
                &&& exists|rows: Seq<DeribitInstrumentStateRow>| #[trigger]
                    state_rows(rows, *event, message) && batch::buffered(
                        *old(writer),
                        *final(writer),
                        rows,
                        r->Ok_0@,
                    )
            },
        },
{
    match parse_payload(payload, "invalid Deribit instrument state JSON") {
        Ok(message) => {
            let rows = one_row(
                deribit_rows::deribit_instrument_state_row_from_message(event, &message),
            );
            assert(state_rows(rows@, *event, message@));
            Ok(buffer_rows(writer, rows))
        },
        Err(error) => Err(error),
    }
}

/// The rows of a book message.
pub open spec fn bitfinex_book_rows(
    rows: Seq<BitfinexBookLevelRow>,
    event: RawWsEventOwned,
    message: JsonTree,
) -> bool {
    bitfinex_rows::book_rows_say(
        rows,
        event,
        json::i64_of(message.item(0)),
        bitfinex_rows::book_entries(message).0,
        bitfinex_rows::book_entries(message).1,
    )
}

/// The book levels of a recorded message.
pub fn write_bitfinex_book_event(
    event: &RawWsEventOwned,
    payload: &str,
    writer: &mut BatchBuffer<BitfinexBookLevelRow>,
) -> (r: Result<Vec<Vec<BitfinexBookLevelRow>>, String>)
    ensures
        match wire::parsed_document(payload@) {
            Err(error) => {
                &&& r is Err
                &&& r->Err_0@ == invalid_payload("invalid Bitfinex book JSON"@, error)
                &&& *final(writer) == *old(writer)
            },
            Ok(message) => {
                &&& r is Ok
                &&& exists|rows: Seq<BitfinexBookLevelRow>| #[trigger]
                    bitfinex_book_rows(rows, *event, message) && batch::buffered(
                        *old(writer),
                        *final(writer),
                        rows,
                        r->Ok_0@,
                    )
            },
        },
{
    match parse_payload(payload, "invalid Bitfinex book JSON") {
        Ok(message) => {
            let rows = bitfinex_rows::bitfinex_book_rows_from_message(event, &message);
            assert(bitfinex_book_rows(rows@, *event, message@));
            Ok(buffer_rows(writer, rows))
        },
        Err(error) => Err(error),
    }
}

/// The rows of a trade message.
pub open spec fn bitfinex_trade_rows(
    rows: Seq<BitfinexTradeRow>,
    event: RawWsEventOwned,
    message: JsonTree,
) -> bool {
    bitfinex_rows::trade_rows_say(
        rows,
        event,
        json::i64_of(message.item(0)),
        bitfinex_rows::trade_entries(message).0,
        bitfinex_rows::trade_entries(message).1,
    )
}

/// The trades of a recorded message.
pub fn write_bitfinex_trade_event(
    event: &RawWsEventOwned,
    payload: &str,
    writer: &mut BatchBuffer<BitfinexTradeRow>,
) -> (r: Result<Vec<Vec<BitfinexTradeRow>>, String>)
    ensures
        match wire::parsed_document(payload@) {
            Err(error) => {
                &&& r is Err
                &&& r->Err_0@ == invalid_payload("invalid Bitfinex trades JSON"@, error)
                &&& *final(writer) == *old(writer)
            },
            Ok(message) => {
                &&& r is Ok
                &&& exists|rows: Seq<BitfinexTradeRow>| #[trigger]
                    bitfinex_trade_rows(rows, *event, message) && batch::buffered(
                        *old(writer),
                        *final(writer),
                        rows,
                        r->Ok_0@,
                    )
            },
        },
{
    match parse_payload(payload, "invalid Bitfinex trades JSON") {
        Ok(message) => {
            let rows = bitfinex_rows::bitfinex_trade_rows_from_message(event, &message);
            assert(bitfinex_trade_rows(rows@, *event, message@));
            Ok(buffer_rows(writer, rows))
        },
        Err(error) => Err(error),
    }
}

/// The rows of a book message: bids, then asks.
pub open spec fn hyperliquid_book_rows(
    rows: Seq<HyperliquidBookLevelRow>,
    event: RawWsEventOwned,
    message: JsonTree,
) -> bool {
    let bids = hyperliquid_rows::side_levels(message, 0);
    let asks = hyperliquid_rows::side_levels(message, 1);
    &&& rows.len() == bids.len() + asks.len()
    &&& hyperliquid_rows::side_rows_say(
        rows,
        0,
        event,
        message,
        "bid"@,
        bids,
        bids.len() as int,
    )
    &&& hyperliquid_rows::side_rows_say(
        rows,
        bids.len() as int,
        event,
        message,
        "ask"@,
        asks,
        asks.len() as int,
    )
}

/// The book levels of a recorded message.
pub fn write_hyperliquid_book_event(
    event: &RawWsEventOwned,
    payload: &str,
    writer: &mut BatchBuffer<HyperliquidBookLevelRow>,
) -> (r: Result<Vec<Vec<HyperliquidBookLevelRow>>, String>)
    ensures
        match wire::parsed_document(payload@) {
            Err(error) => {
                &&& r is Err
                &&& r->Err_0@ == invalid_payload("invalid Hyperliquid book JSON"@, error)
                &&& *final(writer) == *old(writer)
            },
            Ok(message) => {
                &&& r is Ok
                &&& exists|rows: Seq<HyperliquidBookLevelRow>| #[trigger]
                    hyperliquid_book_rows(rows, *event, message) && batch::buffered(
                        *old(writer),
                        *final(writer),
                        rows,
                        r->Ok_0@,
                    )
            },
        },
{
    match parse_payload(payload, "invalid Hyperliquid book JSON") {
        Ok(message) => {
            let rows = hyperliquid_rows::hyperliquid_book_rows_from_message(event, &message);
            assert(hyperliquid_book_rows(rows@, *event, message@));
            Ok(buffer_rows(writer, rows))
        },
        Err(error) => Err(error),
    }
}

/// The rows of a trade message.
pub open spec fn hyperliquid_trade_rows(
    rows: Seq<HyperliquidTradeRow>,
    event: RawWsEventOwned,
    message: JsonTree,
) -> bool {
    let trades = hyperliquid_rows::message_trades(message);
    &&& rows.len() == trades.len()
    &&& forall|i: int| 0 <= i < rows.len() ==> (#[trigger] rows[i]).says(event, trades[i])
}

/// The trades of a recorded message.
pub fn write_hyperliquid_trade_event(
    event: &RawWsEventOwned,
    payload: &str,
    writer: &mut BatchBuffer<HyperliquidTradeRow>,
) -> (r: Result<Vec<Vec<HyperliquidTradeRow>>, String>)
    ensures
        match wire::parsed_document(payload@) {
            Err(error) => {
                &&& r is Err
                &&& r->Err_0@ == invalid_payload("invalid Hyperliquid trades JSON"@, error)
                &&& *final(writer) == *old(writer)
            },
            Ok(message) => {
                &&& r is Ok
                &&& exists|rows: Seq<HyperliquidTradeRow>| #[trigger]
                    hyperliquid_trade_rows(rows, *event, message) && batch::buffered(
                        *old(writer),
                        *final(writer),
                        rows,
                        r->Ok_0@,
                    )
            },
        },
{
    match parse_payload(payload, "invalid Hyperliquid trades JSON") {
        Ok(message) => {
            let rows = hyperliquid_rows::hyperliquid_trade_rows_from_message(event, &message);
            assert(hyperliquid_trade_rows(rows@, *event, message@));
            Ok(buffer_rows(writer, rows))
        },
        Err(error) => Err(error),
    }
}

/// The control row of a recorded message.
pub fn write_hyperliquid_control_event(
    event: &RawWsEventOwned,
    payload: &str,
    writer: &mut BatchBuffer<HyperliquidControlRow>,
) -> (r: Result<Vec<Vec<HyperliquidControlRow>>, String>)
    ensures
        match wire::parsed_document(payload@) {
            Err(error) => {
                &&& r is Err
                &&& r->Err_0@ == invalid_payload("invalid Hyperliquid control JSON"@, error)
                &&& *final(writer) == *old(writer)
            },
            Ok(message) => {
                &&& r is Ok
                &&& exists|row: HyperliquidControlRow| #[trigger]
                    row.says(*event, message, payload@) && batch::buffered(
                        *old(writer),
                        *final(writer),
                        seq![row],
                        r->Ok_0@,
                    )
            },
        },
{
    match parse_payload(payload, "invalid Hyperliquid control JSON") {
        Ok(message) => {
            let row = hyperliquid_rows::hyperliquid_control_row_from_message(
                event,
                &message,
                payload,
            );
            let rows = one_row(Some(row));
            assert(row.says(*event, message@, payload@));
            Ok(buffer_rows(writer, rows))
        },
        Err(error) => Err(error),
    }
}

/// The batches of the Hibachi datasets.
#[derive(Debug)]
pub struct HibachiWriters {
    pub trades: BatchBuffer<HibachiTradeRow>,
    pub orderbook: BatchBuffer<HibachiBookLevelRow>,
    pub quotes: BatchBuffer<HibachiQuoteRow>,
    pub prices: BatchBuffer<HibachiPriceRow>,
    pub funding: BatchBuffer<HibachiFundingRow>,
}

/// The batches that one message completed, in the dataset to which it belongs.
#[derive(Debug)]
pub enum HibachiBatches {
    Trades(Vec<Vec<HibachiTradeRow>>),
    Orderbook(Vec<Vec<HibachiBookLevelRow>>),
    Quotes(Vec<Vec<HibachiQuoteRow>>),
    Prices(Vec<Vec<HibachiPriceRow>>),
    Funding(Vec<Vec<HibachiFundingRow>>),
    Other,
}

/// The row of a trade message: one where the message holds a trade.
pub open spec fn hibachi_trade_rows(
    rows: Seq<HibachiTradeRow>,
    event: RawWsEventOwned,
    message: JsonTree,
) -> bool {
    match json::under(message.field("data"@), "trade"@) {
        None => rows.len() == 0,
        Some(trade) => rows.len() == 1 && rows[0].says(event, trade),
    }
}

/// The rows of a book message: bids, then asks.
pub open spec fn hibachi_book_rows(
    rows: Seq<HibachiBookLevelRow>,
    event: RawWsEventOwned,
    message: JsonTree,
) -> bool {
    let bid = hibachi_rows::bid_side(message);
    let ask = hibachi_rows::ask_side(message);
    let bids = hibachi_rows::side_levels(bid).len() as int;
    let asks = hibachi_rows::side_levels(ask).len() as int;
    &&& rows.len() == bids + asks
    &&& hibachi_rows::side_rows_say(rows, 0, event, message, "bid"@, bid, bids)
    &&& hibachi_rows::side_rows_say(rows, bids, event, message, "ask"@, ask, asks)
}

/// The row of a quote message: one where it has data.
pub open spec fn hibachi_quote_rows(
    rows: Seq<HibachiQuoteRow>,
    event: RawWsEventOwned,
    message: JsonTree,
) -> bool {
    match message.field("data"@) {
        None => rows.len() == 0,
        Some(data) => rows.len() == 1 && rows[0].says(event, data),
    }
}

/// The row of a price message: one where it has a topic and data.
pub open spec fn hibachi_price_rows(
    rows: Seq<HibachiPriceRow>,
    event: RawWsEventOwned,
    message: JsonTree,
) -> bool {
    match (json::string_of(message.field("topic"@)), message.field("data"@)) {
        (Some(topic), Some(data)) => rows.len() == 1 && rows[0].says(event, topic, data),
        _ => rows.len() == 0,
    }
}

/// The row of a funding message: one where it holds an estimate.
pub open spec fn hibachi_funding_rows(
    rows: Seq<HibachiFundingRow>,
    event: RawWsEventOwned,
    message: JsonTree,
) -> bool {
    match json::under(message.field("data"@), "fundingRateEstimation"@) {
        None => rows.len() == 0,
        Some(funding) => rows.len() == 1 && rows[0].says(event, funding),
    }
}

/// A message went to the dataset of its topic, and to no other.
pub open spec fn hibachi_routed(
    event: RawWsEventOwned,
    message: JsonTree,
    before: HibachiWriters,
    after: HibachiWriters,
    done: HibachiBatches,
) -> bool {
    let dataset = hibachi_rows::dataset_of(json::string_of(message.field("topic"@)));
    &&& if dataset == Some(HibachiDataset::Trades) {
        &&& done is Trades
        &&& exists|rows: Seq<HibachiTradeRow>| #[trigger]
            hibachi_trade_rows(rows, event, message) && batch::buffered(
                before.trades,
                after.trades,
                rows,
                done->Trades_0@,
            )
    } else {
        !(done is Trades) && after.trades == before.trades
    }
    &&& if dataset == Some(HibachiDataset::Orderbook) {
        &&& done is Orderbook
        &&& exists|rows: Seq<HibachiBookLevelRow>| #[trigger]
            hibachi_book_rows(rows, event, message) && batch::buffered(
                before.orderbook,
                after.orderbook,
                rows,
                done->Orderbook_0@,
            )
    } else {
        !(done is Orderbook) && after.orderbook == before.orderbook
    }
    &&& if dataset == Some(HibachiDataset::Quotes) {
        &&& done is Quotes
        &&& exists|rows: Seq<HibachiQuoteRow>| #[trigger]
            hibachi_quote_rows(rows, event, message) && batch::buffered(
                before.quotes,
                after.quotes,
                rows,
                done->Quotes_0@,
            )
    } else {
        !(done is Quotes) && after.quotes == before.quotes
    }
    &&& if dataset == Some(HibachiDataset::Prices) {
        &&& done is Prices
        &&& exists|rows: Seq<HibachiPriceRow>| #[trigger]
            hibachi_price_rows(rows, event, message) && batch::buffered(
                before.prices,
                after.prices,
                rows,
                done->Prices_0@,
            )
    } else {
        !(done is Prices) && after.prices == before.prices
    }
    &&& if dataset == Some(HibachiDataset::Funding) {
        &&& done is Funding
        &&& exists|rows: Seq<HibachiFundingRow>| #[trigger]
            hibachi_funding_rows(rows, event, message) && batch::buffered(
                before.funding,
                after.funding,
                rows,
                done->Funding_0@,
            )
    } else {
        !(done is Funding) && after.funding == before.funding
    }
}

/// Hands a message to the dataset of its topic.
pub fn route_hibachi_message(
    event: &RawWsEventOwned,
    message: &Json,
    writers: &mut HibachiWriters,
) -> (done: HibachiBatches)
    ensures
        hibachi_routed(*event, message@, *old(writers), *final(writers), done),
{
    match hibachi_rows::hibachi_dataset(message) {
        Some(HibachiDataset::Trades) => {
            let rows = one_row(hibachi_rows::hibachi_trade_row_from_message(event, message));
            assert(hibachi_trade_rows(rows@, *event, message@));
            HibachiBatches::Trades(buffer_rows(&mut writers.trades, rows))
        },
        Some(HibachiDataset::Orderbook) => {
            let rows = hibachi_rows::hibachi_orderbook_rows_from_message(event, message);
            assert(hibachi_book_rows(rows@, *event, message@));
            HibachiBatches::Orderbook(buffer_rows(&mut writers.orderbook, rows))
        },
        Some(HibachiDataset::Quotes) => {
            let rows = one_row(hibachi_rows::hibachi_quote_row_from_message(event, message));
            assert(hibachi_quote_rows(rows@, *event, message@));
            HibachiBatches::Quotes(buffer_rows(&mut writers.quotes, rows))
        },
        Some(HibachiDataset::Prices) => {
            let rows = one_row(hibachi_rows::hibachi_price_row_from_message(event, message));
            assert(hibachi_price_rows(rows@, *event, message@));
            HibachiBatches::Prices(buffer_rows(&mut writers.prices, rows))
        },
        Some(HibachiDataset::Funding) => {
            let rows = one_row(hibachi_rows::hibachi_funding_row_from_message(event, message));
            assert(hibachi_funding_rows(rows@, *event, message@));
            HibachiBatches::Funding(buffer_rows(&mut writers.funding, rows))
        },
        None => HibachiBatches::Other,
    }
}

/// Hands a recorded message to the dataset of its topic.
pub fn write_hibachi_event(
    event: &RawWsEventOwned,
    payload: &str,
    writers: &mut HibachiWriters,
) -> (r: Result<HibachiBatches, String>)
    ensures
        match wire::parsed_document(payload@) {
            Err(error) => {
                &&& r is Err
                &&& r->Err_0@ == invalid_payload("invalid Hibachi market data JSON"@, error)
                &&& *final(writers) == *old(writers)
            },
            Ok(message) => {
                &&& r is Ok
                &&& hibachi_routed(*event, message, *old(writers), *final(writers), r->Ok_0)
            },
        },
{
    match parse_payload(payload, "invalid Hibachi market data JSON") {
        Ok(message) => Ok(route_hibachi_message(event, &message, writers)),
        Err(error) => Err(error),
    }
}

/// The files that describe the instruments of a day, in the order in which they are read.
#[derive(Clone, Copy, Debug, PartialEq, Eq, Structural)]
pub enum InstrumentSource {
    Control,
    Creation,
}

impl InstrumentSource {
    pub open spec fn channel(self) -> Seq<char> {
        match self {
            InstrumentSource::Control => "control"@,
            InstrumentSource::Creation => "instrument_creation"@,
        }
    }

    /// The descriptions in a message of the file.
    pub open spec fn descriptions(self, message: JsonTree) -> Seq<JsonTree> {
        match self {
            InstrumentSource::Control => deribit_rows::control_descriptions(message),
            InstrumentSource::Creation => deribit_rows::creation_descriptions(message),
        }
    }

    /// What is reported of a payload of the file that is no JSON document.
    pub open spec fn complaint(self) -> Seq<char> {
        match self {
            InstrumentSource::Control => "invalid Deribit control JSON"@,
            InstrumentSource::Creation => "invalid Deribit creation JSON"@,
        }
    }

    /// The channel under which the file is recorded.
    pub fn channel_name(self) -> (name: &'static str)
        ensures
            name@ == self.channel(),
    {
        match self {
            InstrumentSource::Control => "control",
            InstrumentSource::Creation => "instrument_creation",
        }
    }
}

/// Both files, in the order in which they are read: an announcement counts more than a list.
pub fn instrument_sources() -> (sources: Vec<InstrumentSource>)
    ensures
        sources@ == seq![InstrumentSource::Control, InstrumentSource::Creation],
{
    vec![InstrumentSource::Control, InstrumentSource::Creation]
}

/// Notes the instruments that a message describes.
pub fn collect_deribit_instruments(
    source: InstrumentSource,
    payload: &str,
    instruments: &mut InstrumentTable,
) -> (r: Result<(), String>)
    requires
        old(instruments).well_formed(),
    ensures
        final(instruments).well_formed(),
        match wire::parsed_document(payload@) {
            Err(error) => {
                &&& r is Err
                &&& r->Err_0@ == invalid_payload(source.complaint(), error)
                &&& *final(instruments) == *old(instruments)
            },
            Ok(message) => {
                &&& r is Ok
                &&& deribit_rows::described_after(
                    *old(instruments),
                    *final(instruments),
                    source.descriptions(message),
                )
            },
        },
{
    let what = match source {
        InstrumentSource::Control => "invalid Deribit control JSON",
        InstrumentSource::Creation => "invalid Deribit creation JSON",
    };
    match parse_payload(payload, what) {
        Ok(message) => {
            match source {
                InstrumentSource::Control => deribit_rows::collect_listed_instruments(
                    &message,
                    instruments,
                ),
                InstrumentSource::Creation => deribit_rows::collect_created_instrument(
                    &message,
                    instruments,
                ),
            }
            Ok(())
        },
        Err(error) => Err(error),
    }
}

} // verus!
