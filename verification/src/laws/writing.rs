//! Writing the rows of recorded messages: every message gives its rows to the writer of its dataset,
//! and none is lost on the way.

use vstd::prelude::*;

use crate::batch;
use crate::batch::BatchBuffer;
use crate::bitfinex_rows;
use crate::bitfinex_rows::BitfinexBookLevelRow;
use crate::bitfinex_rows::BitfinexTradeRow;
use crate::deribit_rows;
use crate::deribit_rows::DeribitInstrumentStateRow;
use crate::deribit_rows::DeribitQuoteRow;
use crate::deribit_rows::DeribitTradeRow;
use crate::deribit_rows::InstrumentTable;
use crate::events::RawWsEventOwned;
use crate::hibachi_rows;
use crate::hibachi_rows::HibachiBookLevelRow;
use crate::hibachi_rows::HibachiDataset;
use crate::hibachi_rows::HibachiFundingRow;
use crate::hibachi_rows::HibachiPriceRow;
use crate::hibachi_rows::HibachiQuoteRow;
use crate::hibachi_rows::HibachiTradeRow;
use crate::hyperliquid_rows;
use crate::hyperliquid_rows::HyperliquidBookLevelRow;
use crate::hyperliquid_rows::HyperliquidControlRow;
use crate::hyperliquid_rows::HyperliquidTradeRow;
use crate::json;
use crate::json::JsonTree;
use crate::laws::bitfinex_tables;
use crate::laws::columns;
use crate::laws::deribit_tables;
use crate::laws::hibachi_tables;
use crate::laws::hyperliquid_tables;
use crate::normalize;
use crate::normalize::HibachiBatches;
use crate::normalize::HibachiWriters;
use crate::normalize::InstrumentSource;
use crate::normalize::collect_deribit_instruments;
use crate::normalize::instrument_sources;
use crate::normalize::write_bitfinex_book_event;
use crate::normalize::write_bitfinex_trade_event;
use crate::normalize::write_deribit_quote_event;
use crate::normalize::write_deribit_state_event;
use crate::normalize::write_deribit_trade_event;
use crate::normalize::write_hibachi_event;
use crate::normalize::write_hyperliquid_book_event;
use crate::normalize::write_hyperliquid_control_event;
use crate::normalize::write_hyperliquid_trade_event;
use crate::wire;

verus! {

/// Nothing that a writer took is lost: its batches, one behind the other, and what waits behind them
/// are what waited before and then the rows, in their order.
pub open spec fn took<R>(
    before: BatchBuffer<R>,
    after: BatchBuffer<R>,
    done: Seq<Vec<R>>,
    rows: Seq<R>,
) -> bool {
    batch::joined(done.map_values(|b: Vec<R>| b@)) + after.waiting() == before.waiting() + rows
}

/// A writer that buffered rows took them.
pub proof fn lemma_took<R>(
    before: BatchBuffer<R>,
    after: BatchBuffer<R>,
    done: Seq<Vec<R>>,
    rows: Seq<R>,
)
    requires
        batch::buffered(before, after, rows, done),
        before.waiting().len() < before.size(),
    ensures
        took(before, after, done, rows),
{
    batch::batches_hold_all_rows(before.waiting(), rows, before.size() as nat);
    assert(batch::batch_rows(done) =~= done.map_values(|b: Vec<R>| b@));
}

/// A ticker message gives its row to the writer, and a payload that is no document gives nothing.
pub proof fn write_deribit_quote_event_keeps_its_rows(
    event: &RawWsEventOwned,
    payload: &str,
    instruments: &InstrumentTable,
    writer: &mut BatchBuffer<DeribitQuoteRow>,
    r: Result<Vec<Vec<DeribitQuoteRow>>, String>,
    message: JsonTree,
    data: JsonTree,
)
    requires
        call_ensures(write_deribit_quote_event, (event, payload, instruments, writer), r),
        old(writer).waiting().len() < old(writer).size(),
    ensures
        wire::parsed_document(payload@) is Err ==> r is Err && *final(writer) == *old(writer),
        wire::parsed_document(payload@) == Ok::<JsonTree, Seq<char>>(message) ==> r is Ok && exists|
            rows: Seq<DeribitQuoteRow>,
        | #[trigger]
            took(*old(writer), *final(writer), r->Ok_0@, rows) && (deribit_tables::carries(
                message,
                data,
            ) ==> (if deribit_tables::has_name(data) {
                rows.len() == 1 && deribit_tables::ticker_kept(
                    rows[0],
                    *event,
                    message,
                    data,
                    instruments.lookup(data.field("instrument_name"@)->Some_0->Text_0),
                )
            } else {
                rows.len() == 0
            })),
{
    if wire::parsed_document(payload@) == Ok::<JsonTree, Seq<char>>(message) {
        let rows = choose|rows: Seq<DeribitQuoteRow>| #[trigger]
            normalize::quote_rows(rows, *event, message, *instruments) && batch::buffered(
                *old(writer),
                *final(writer),
                rows,
                r->Ok_0@,
            );
        assert(normalize::quote_rows(rows, *event, message, *instruments));
        lemma_took(*old(writer), *final(writer), r->Ok_0@, rows);
        if deribit_tables::carries(message, data) && deribit_tables::has_name(data) {
            let known = instruments.lookup(data.field("instrument_name"@)->Some_0->Text_0);
            deribit_tables::lemma_ticker(rows[0], *event, message, data, known);
        }
    }
}

/// A trade message gives a row for each trade that names an instrument to the writer, in their order.
pub proof fn write_deribit_trade_event_keeps_its_rows(
    event: &RawWsEventOwned,
    payload: &str,
    instruments: &InstrumentTable,
    writer: &mut BatchBuffer<DeribitTradeRow>,
    r: Result<Vec<Vec<DeribitTradeRow>>, String>,
    message: JsonTree,
    list: Seq<JsonTree>,
    i: int,
)
    requires
        call_ensures(write_deribit_trade_event, (event, payload, instruments, writer), r),
        old(writer).waiting().len() < old(writer).size(),
    ensures
        wire::parsed_document(payload@) is Err ==> r is Err && *final(writer) == *old(writer),
        wire::parsed_document(payload@) == Ok::<JsonTree, Seq<char>>(message) ==> r is Ok && exists|
            rows: Seq<DeribitTradeRow>,
        | #[trigger]
            took(*old(writer), *final(writer), r->Ok_0@, rows) && (deribit_tables::carries(
                message,
                JsonTree::Array(list),
            ) ==> rows.len() == list.filter(|t: JsonTree| deribit_tables::has_name(t)).len() && (0
                <= i < rows.len() ==> deribit_tables::deribit_trade_kept(
                rows[i],
                *event,
                message,
                list.filter(|t: JsonTree| deribit_tables::has_name(t))[i],
                instruments.lookup(
                    list.filter(|t: JsonTree| deribit_tables::has_name(t))[i].field(
                        "instrument_name"@,
                    )->Some_0->Text_0,
                ),
            ))),
{
    if wire::parsed_document(payload@) == Ok::<JsonTree, Seq<char>>(message) {
        let rows = choose|rows: Seq<DeribitTradeRow>| #[trigger]
            normalize::deribit_trade_rows(rows, *event, message, *instruments) && batch::buffered(
                *old(writer),
                *final(writer),
                rows,
                r->Ok_0@,
            );
        assert(normalize::deribit_trade_rows(rows, *event, message, *instruments));
        lemma_took(*old(writer), *final(writer), r->Ok_0@, rows);
        if deribit_tables::carries(message, JsonTree::Array(list)) {
            let named = list.filter(|t: JsonTree| deribit_tables::has_name(t));
            assert((|t: JsonTree| deribit_tables::has_name(t)) =~= (|t: JsonTree|
                deribit_rows::names_instrument(t)));
            if 0 <= i < rows.len() {
                list.lemma_filter_pred(|t: JsonTree| deribit_tables::has_name(t), i);
                let known = instruments.lookup(
                    named[i].field("instrument_name"@)->Some_0->Text_0,
                );
                assert(rows[i].says(*event, message, named[i], known));
                deribit_tables::lemma_trade(rows[i], *event, message, named[i], known);
            }
        }
    }
}

/// A state message gives its row to the writer.
pub proof fn write_deribit_state_event_keeps_its_rows(
    event: &RawWsEventOwned,
    payload: &str,
    writer: &mut BatchBuffer<DeribitInstrumentStateRow>,
    r: Result<Vec<Vec<DeribitInstrumentStateRow>>, String>,
    message: JsonTree,
    data: JsonTree,
)
    requires
        call_ensures(write_deribit_state_event, (event, payload, writer), r),
        old(writer).waiting().len() < old(writer).size(),
    ensures
        wire::parsed_document(payload@) is Err ==> r is Err && *final(writer) == *old(writer),
        wire::parsed_document(payload@) == Ok::<JsonTree, Seq<char>>(message) ==> r is Ok && exists|
            rows: Seq<DeribitInstrumentStateRow>,
        | #[trigger]
            took(*old(writer), *final(writer), r->Ok_0@, rows) && (deribit_tables::carries(
                message,
                data,
            ) ==> rows.len() == 1 && deribit_tables::state_kept(rows[0], *event, message, data)),
{
    if wire::parsed_document(payload@) == Ok::<JsonTree, Seq<char>>(message) {
        let rows = choose|rows: Seq<DeribitInstrumentStateRow>| #[trigger]
            normalize::state_rows(rows, *event, message) && batch::buffered(
                *old(writer),
                *final(writer),
                rows,
                r->Ok_0@,
            );
        assert(normalize::state_rows(rows, *event, message));
        lemma_took(*old(writer), *final(writer), r->Ok_0@, rows);
        if deribit_tables::carries(message, data) {
            deribit_tables::lemma_state(rows[0], *event, message, data);
        }
    }
}

/// A trade message gives a row for each of its trades to the writer, in their order.
pub proof fn write_bitfinex_trade_event_keeps_its_rows(
    event: &RawWsEventOwned,
    payload: &str,
    writer: &mut BatchBuffer<BitfinexTradeRow>,
    r: Result<Vec<Vec<BitfinexTradeRow>>, String>,
    message: JsonTree,
    items: Seq<JsonTree>,
    i: int,
    event_type: Seq<char>,
    trade: JsonTree,
)
    requires
        call_ensures(write_bitfinex_trade_event, (event, payload, writer), r),
        old(writer).waiting().len() < old(writer).size(),
    ensures
        wire::parsed_document(payload@) is Err ==> r is Err && *final(writer) == *old(writer),
        wire::parsed_document(payload@) == Ok::<JsonTree, Seq<char>>(message) ==> r is Ok && exists|
            rows: Seq<BitfinexTradeRow>,
        | #[trigger]
            took(*old(writer), *final(writer), r->Ok_0@, rows) && ((
            message.item(1) == Some(JsonTree::Array(items)) && items.len() > 0 && items[0] is Array
                ==> rows.len() == items.len() && (0 <= i < items.len()
                ==> bitfinex_tables::bitfinex_trade_kept(
                rows[i],
                *event,
                bitfinex_tables::head(message),
                "snapshot"@,
                items[i],
            ))) && (message.item(1) == Some(JsonTree::Text(event_type)) && event_type != "hb"@
                && message.item(2) == Some(trade) ==> rows.len() == 1
                && bitfinex_tables::bitfinex_trade_kept(
                rows[0],
                *event,
                bitfinex_tables::head(message),
                event_type,
                trade,
            ))),
{
    if wire::parsed_document(payload@) == Ok::<JsonTree, Seq<char>>(message) {
        let rows = choose|rows: Seq<BitfinexTradeRow>| #[trigger]
            normalize::bitfinex_trade_rows(rows, *event, message) && batch::buffered(
                *old(writer),
                *final(writer),
                rows,
                r->Ok_0@,
            );
        assert(normalize::bitfinex_trade_rows(rows, *event, message));
        lemma_took(*old(writer), *final(writer), r->Ok_0@, rows);
        let head = bitfinex_tables::head(message);
        assert(head == json::i64_of(message.item(0)));
        if message.item(1) == Some(JsonTree::Array(items)) && items.len() > 0 && items[0] is Array {
            assert(bitfinex_rows::trade_entries(message) == ("snapshot"@, items));
            if 0 <= i < items.len() {
                assert(rows[i].says(*event, head, "snapshot"@, items[i]));
                bitfinex_tables::lemma_trade(rows[i], *event, head, "snapshot"@, items[i]);
            }
        }
        if message.item(1) == Some(JsonTree::Text(event_type)) && event_type != "hb"@
            && message.item(2) == Some(trade) {
            assert(rows[0].says(*event, head, event_type, trade));
            bitfinex_tables::lemma_trade(rows[0], *event, head, event_type, trade);
        }
    }
}

/// A book message gives a row for each of its levels to the writer, in their order.
pub proof fn write_bitfinex_book_event_keeps_its_rows(
    event: &RawWsEventOwned,
    payload: &str,
    writer: &mut BatchBuffer<BitfinexBookLevelRow>,
    r: Result<Vec<Vec<BitfinexBookLevelRow>>, String>,
    message: JsonTree,
    items: Seq<JsonTree>,
    i: int,
)
    requires
        call_ensures(write_bitfinex_book_event, (event, payload, writer), r),
        old(writer).waiting().len() < old(writer).size(),
    ensures
        wire::parsed_document(payload@) is Err ==> r is Err && *final(writer) == *old(writer),
        wire::parsed_document(payload@) == Ok::<JsonTree, Seq<char>>(message) ==> r is Ok && exists|
            rows: Seq<BitfinexBookLevelRow>,
        | #[trigger]
            took(*old(writer), *final(writer), r->Ok_0@, rows) && ((
            message.item(1) == Some(JsonTree::Array(items)) && items.len() > 0 && items[0] is Array
                ==> rows.len() == items.len() && (0 <= i < items.len() && i <= i64::MAX
                ==> bitfinex_tables::bitfinex_level_kept(
                rows[i],
                *event,
                bitfinex_tables::head(message),
                "snapshot"@,
                Some(i as i64),
                items[i],
            ))) && (message.item(1) == Some(JsonTree::Array(items)) && items.len() > 0 && !(
            items[0] is Array) ==> rows.len() == 1 && bitfinex_tables::bitfinex_level_kept(
                rows[0],
                *event,
                bitfinex_tables::head(message),
                "update"@,
                Some(0i64),
                JsonTree::Array(items),
            ))),
{
    if wire::parsed_document(payload@) == Ok::<JsonTree, Seq<char>>(message) {
        let rows = choose|rows: Seq<BitfinexBookLevelRow>| #[trigger]
            normalize::bitfinex_book_rows(rows, *event, message) && batch::buffered(
                *old(writer),
                *final(writer),
                rows,
                r->Ok_0@,
            );
        assert(normalize::bitfinex_book_rows(rows, *event, message));
        lemma_took(*old(writer), *final(writer), r->Ok_0@, rows);
        let head = bitfinex_tables::head(message);
        assert(head == json::i64_of(message.item(0)));
        if message.item(1) == Some(JsonTree::Array(items)) && items.len() > 0 {
            if items[0] is Array {
                assert(bitfinex_rows::book_entries(message) == ("snapshot"@, items));
                if 0 <= i < items.len() && i <= i64::MAX {
                    assert(rows[i].says(*event, head, "snapshot"@, Some(i as i64), items[i]));
                    bitfinex_tables::lemma_level(
                        rows[i],
                        *event,
                        head,
                        "snapshot"@,
                        Some(i as i64),
                        items[i],
                    );
                }
            } else {
                let level = JsonTree::Array(items);
                assert(rows[0].says(*event, head, "update"@, Some(0i64), level));
                bitfinex_tables::lemma_level(
                    rows[0],
                    *event,
                    head,
                    "update"@,
                    Some(0i64),
                    level,
                );
            }
        }
    }
}

/// A trade message gives a row for each of its trades to the writer, in their order.
pub proof fn write_hyperliquid_trade_event_keeps_its_rows(
    event: &RawWsEventOwned,
    payload: &str,
    writer: &mut BatchBuffer<HyperliquidTradeRow>,
    r: Result<Vec<Vec<HyperliquidTradeRow>>, String>,
    message: JsonTree,
    list: Seq<JsonTree>,
    i: int,
)
    requires
        call_ensures(write_hyperliquid_trade_event, (event, payload, writer), r),
        old(writer).waiting().len() < old(writer).size(),
    ensures
        wire::parsed_document(payload@) is Err ==> r is Err && *final(writer) == *old(writer),
        wire::parsed_document(payload@) == Ok::<JsonTree, Seq<char>>(message) ==> r is Ok && exists|
            rows: Seq<HyperliquidTradeRow>,
        | #[trigger]
            took(*old(writer), *final(writer), r->Ok_0@, rows) && (message.field("data"@) == Some(
                JsonTree::Array(list),
            ) ==> rows.len() == list.len() && (0 <= i < list.len()
                ==> hyperliquid_tables::hyperliquid_trade_kept(rows[i], *event, list[i]))),
{
    if wire::parsed_document(payload@) == Ok::<JsonTree, Seq<char>>(message) {
        let rows = choose|rows: Seq<HyperliquidTradeRow>| #[trigger]
            normalize::hyperliquid_trade_rows(rows, *event, message) && batch::buffered(
                *old(writer),
                *final(writer),
                rows,
                r->Ok_0@,
            );
        assert(normalize::hyperliquid_trade_rows(rows, *event, message));
        lemma_took(*old(writer), *final(writer), r->Ok_0@, rows);
        if message.field("data"@) == Some(JsonTree::Array(list)) && 0 <= i < list.len() {
            assert(rows[i].says(*event, list[i]));
            hyperliquid_tables::lemma_hyperliquid_trade_kept(rows[i], *event, list[i]);
        }
    }
}

/// A book message gives a row for each of its levels to the writer, the bids and then the asks.
pub proof fn write_hyperliquid_book_event_keeps_its_rows(
    event: &RawWsEventOwned,
    payload: &str,
    writer: &mut BatchBuffer<HyperliquidBookLevelRow>,
    r: Result<Vec<Vec<HyperliquidBookLevelRow>>, String>,
    message: JsonTree,
    data: JsonTree,
    i: int,
)
    requires
        call_ensures(write_hyperliquid_book_event, (event, payload, writer), r),
        old(writer).waiting().len() < old(writer).size(),
        hyperliquid_tables::levels_at(data, 0).len() <= i64::MAX,
        hyperliquid_tables::levels_at(data, 1).len() <= i64::MAX,
    ensures
        wire::parsed_document(payload@) is Err ==> r is Err && *final(writer) == *old(writer),
        wire::parsed_document(payload@) == Ok::<JsonTree, Seq<char>>(message) ==> r is Ok && exists|
            rows: Seq<HyperliquidBookLevelRow>,
        | #[trigger]
            took(*old(writer), *final(writer), r->Ok_0@, rows) && (message.field("data"@) == Some(data)
                ==> rows.len() == hyperliquid_tables::levels_at(data, 0).len()
                + hyperliquid_tables::levels_at(data, 1).len() && (0 <= i
                < hyperliquid_tables::levels_at(data, 0).len()
                ==> hyperliquid_tables::hyperliquid_level_kept(
                rows[i],
                *event,
                data,
                "bid"@,
                i,
                hyperliquid_tables::levels_at(data, 0)[i],
            )) && (0 <= i < hyperliquid_tables::levels_at(data, 1).len()
                ==> hyperliquid_tables::hyperliquid_level_kept(
                rows[hyperliquid_tables::levels_at(data, 0).len() + i],
                *event,
                data,
                "ask"@,
                i,
                hyperliquid_tables::levels_at(data, 1)[i],
            ))),
{
    if wire::parsed_document(payload@) == Ok::<JsonTree, Seq<char>>(message) {
        let rows = choose|rows: Seq<HyperliquidBookLevelRow>| #[trigger]
            normalize::hyperliquid_book_rows(rows, *event, message) && batch::buffered(
                *old(writer),
                *final(writer),
                rows,
                r->Ok_0@,
            );
        assert(normalize::hyperliquid_book_rows(rows, *event, message));
        lemma_took(*old(writer), *final(writer), r->Ok_0@, rows);
        if message.field("data"@) == Some(data) {
            let bids = hyperliquid_tables::levels_at(data, 0);
            let asks = hyperliquid_tables::levels_at(data, 1);
            assert(hyperliquid_rows::side_levels(message, 0) == bids);
            assert(hyperliquid_rows::side_levels(message, 1) == asks);
            if 0 <= i < bids.len() {
                assert(rows[0 + i].says(*event, data, "bid"@, i, bids[i]));
                hyperliquid_tables::lemma_hyperliquid_level_kept(
                    rows[i],
                    *event,
                    data,
                    "bid"@,
                    i,
                    bids[i],
                );
            }
            if 0 <= i < asks.len() {
                let k = bids.len() + i;
                assert(rows[k].says(*event, data, "ask"@, i, asks[i]));
                hyperliquid_tables::lemma_hyperliquid_level_kept(
                    rows[k],
                    *event,
                    data,
                    "ask"@,
                    i,
                    asks[i],
                );
            }
        }
    }
}

/// A control message gives its row to the writer, with the payload whole.
pub proof fn write_hyperliquid_control_event_keeps_its_rows(
    event: &RawWsEventOwned,
    payload: &str,
    writer: &mut BatchBuffer<HyperliquidControlRow>,
    r: Result<Vec<Vec<HyperliquidControlRow>>, String>,
    message: JsonTree,
)
    requires
        call_ensures(write_hyperliquid_control_event, (event, payload, writer), r),
        old(writer).waiting().len() < old(writer).size(),
    ensures
        wire::parsed_document(payload@) is Err ==> r is Err && *final(writer) == *old(writer),
        wire::parsed_document(payload@) == Ok::<JsonTree, Seq<char>>(message) ==> r is Ok && exists|
            rows: Seq<HyperliquidControlRow>,
        | #[trigger]
            took(*old(writer), *final(writer), r->Ok_0@, rows) && (rows.len() == 1
                && hyperliquid_tables::hyperliquid_control_kept(rows[0], *event, message, payload@)),
{
    if wire::parsed_document(payload@) == Ok::<JsonTree, Seq<char>>(message) {
        let row = choose|row: HyperliquidControlRow| #[trigger]
            row.says(*event, message, payload@) && batch::buffered(
                *old(writer),
                *final(writer),
                seq![row],
                r->Ok_0@,
            );
        let rows = seq![row];
        assert(row.says(*event, message, payload@));
        lemma_took(*old(writer), *final(writer), r->Ok_0@, rows);
        hyperliquid_tables::lemma_hyperliquid_control_kept(rows[0], *event, message, payload@);
    }
}

/// A Hibachi message on trades gives its rows to the writer of that dataset.
pub proof fn hibachi_trades_are_written(
    event: &RawWsEventOwned,
    payload: &str,
    writers: &mut HibachiWriters,
    r: Result<HibachiBatches, String>,
    message: JsonTree,
    trade: JsonTree,
)
    requires
        call_ensures(write_hibachi_event, (event, payload, writers), r),
        old(writers).trades.waiting().len() < old(writers).trades.size(),
    ensures
        wire::parsed_document(payload@) is Err ==> r is Err && *final(writers) == *old(writers),
        wire::parsed_document(payload@) == Ok::<JsonTree, Seq<char>>(message) ==> r is Ok,
        wire::parsed_document(payload@) == Ok::<JsonTree, Seq<char>>(message) && message.field("topic"@) == Some(JsonTree::Text("trades"@)) && columns::below(message, "data"@, "trade"@) == Some(trade) ==> r->Ok_0 is Trades && exists|rows: Seq<HibachiTradeRow>| #[trigger]
            took(old(writers).trades, final(writers).trades, r->Ok_0->Trades_0@, rows) && rows.len() == 1 && hibachi_tables::hibachi_trade_kept(rows[0], *event, trade),
{
    reveal_strlit("trades");
    reveal_strlit("orderbook");
    reveal_strlit("ask_bid_price");
    reveal_strlit("mark_price");
    reveal_strlit("spot_price");
    reveal_strlit("funding_rate_estimation");
    assert("trades"@.len() == 6 && "orderbook"@.len() == 9 && "ask_bid_price"@.len() == 13
        && "mark_price"@.len() == 10 && "spot_price"@.len() == 10
        && "funding_rate_estimation"@.len() == 23);
    if wire::parsed_document(payload@) == Ok::<JsonTree, Seq<char>>(message) && message.field("topic"@) == Some(JsonTree::Text("trades"@)) && columns::below(message, "data"@, "trade"@) == Some(trade) {
        assert(hibachi_rows::dataset_of(json::string_of(message.field("topic"@))) == Some(HibachiDataset::Trades));
        let rows = choose|rows: Seq<HibachiTradeRow>| #[trigger]
            normalize::hibachi_trade_rows(rows, *event, message) && batch::buffered(
                old(writers).trades,
                final(writers).trades,
                rows,
                r->Ok_0->Trades_0@,
            );
        assert(normalize::hibachi_trade_rows(rows, *event, message));
        lemma_took(old(writers).trades, final(writers).trades, r->Ok_0->Trades_0@, rows);
        hibachi_tables::lemma_hibachi_trade_kept(rows[0], *event, trade);
    }
}

/// A Hibachi message on quotes gives its rows to the writer of that dataset.
pub proof fn hibachi_quotes_are_written(
    event: &RawWsEventOwned,
    payload: &str,
    writers: &mut HibachiWriters,
    r: Result<HibachiBatches, String>,
    message: JsonTree,
    data: JsonTree,
)
    requires
        call_ensures(write_hibachi_event, (event, payload, writers), r),
        old(writers).quotes.waiting().len() < old(writers).quotes.size(),
    ensures
        wire::parsed_document(payload@) is Err ==> r is Err && *final(writers) == *old(writers),
        wire::parsed_document(payload@) == Ok::<JsonTree, Seq<char>>(message) ==> r is Ok,
        wire::parsed_document(payload@) == Ok::<JsonTree, Seq<char>>(message) && message.field("topic"@) == Some(JsonTree::Text("ask_bid_price"@)) && message.field("data"@) == Some(data) ==> r->Ok_0 is Quotes && exists|rows: Seq<HibachiQuoteRow>| #[trigger]
            took(old(writers).quotes, final(writers).quotes, r->Ok_0->Quotes_0@, rows) && rows.len() == 1 && hibachi_tables::hibachi_quote_kept(rows[0], *event, data),
{
    reveal_strlit("trades");
    reveal_strlit("orderbook");
    reveal_strlit("ask_bid_price");
    reveal_strlit("mark_price");
    reveal_strlit("spot_price");
    reveal_strlit("funding_rate_estimation");
    assert("trades"@.len() == 6 && "orderbook"@.len() == 9 && "ask_bid_price"@.len() == 13
        && "mark_price"@.len() == 10 && "spot_price"@.len() == 10
        && "funding_rate_estimation"@.len() == 23);
    if wire::parsed_document(payload@) == Ok::<JsonTree, Seq<char>>(message) && message.field("topic"@) == Some(JsonTree::Text("ask_bid_price"@)) && message.field("data"@) == Some(data) {
        assert(hibachi_rows::dataset_of(json::string_of(message.field("topic"@))) == Some(HibachiDataset::Quotes));
        let rows = choose|rows: Seq<HibachiQuoteRow>| #[trigger]
            normalize::hibachi_quote_rows(rows, *event, message) && batch::buffered(
                old(writers).quotes,
                final(writers).quotes,
                rows,
                r->Ok_0->Quotes_0@,
            );
        assert(normalize::hibachi_quote_rows(rows, *event, message));
        lemma_took(old(writers).quotes, final(writers).quotes, r->Ok_0->Quotes_0@, rows);
        hibachi_tables::lemma_hibachi_quote_kept(rows[0], *event, data);
    }
}

/// A Hibachi message on prices gives its rows to the writer of that dataset.
pub proof fn hibachi_prices_are_written(
    event: &RawWsEventOwned,
    payload: &str,
    writers: &mut HibachiWriters,
    r: Result<HibachiBatches, String>,
    message: JsonTree,
    topic: Seq<char>,
    data: JsonTree,
)
    requires
        call_ensures(write_hibachi_event, (event, payload, writers), r),
        old(writers).prices.waiting().len() < old(writers).prices.size(),
    ensures
        wire::parsed_document(payload@) is Err ==> r is Err && *final(writers) == *old(writers),
        wire::parsed_document(payload@) == Ok::<JsonTree, Seq<char>>(message) ==> r is Ok,
        wire::parsed_document(payload@) == Ok::<JsonTree, Seq<char>>(message) && (topic == "mark_price"@ || topic == "spot_price"@) && message.field("topic"@) == Some(JsonTree::Text(topic)) && message.field("data"@) == Some(data) ==> r->Ok_0 is Prices && exists|rows: Seq<HibachiPriceRow>| #[trigger]
            took(old(writers).prices, final(writers).prices, r->Ok_0->Prices_0@, rows) && rows.len() == 1 && hibachi_tables::hibachi_price_kept(rows[0], *event, topic, data),
{
    reveal_strlit("trades");
    reveal_strlit("orderbook");
    reveal_strlit("ask_bid_price");
    reveal_strlit("mark_price");
    reveal_strlit("spot_price");
    reveal_strlit("funding_rate_estimation");
    assert("trades"@.len() == 6 && "orderbook"@.len() == 9 && "ask_bid_price"@.len() == 13
        && "mark_price"@.len() == 10 && "spot_price"@.len() == 10
        && "funding_rate_estimation"@.len() == 23);
    if wire::parsed_document(payload@) == Ok::<JsonTree, Seq<char>>(message) && (topic == "mark_price"@ || topic == "spot_price"@) && message.field("topic"@) == Some(JsonTree::Text(topic)) && message.field("data"@) == Some(data) {
        assert(hibachi_rows::dataset_of(json::string_of(message.field("topic"@))) == Some(HibachiDataset::Prices));
        let rows = choose|rows: Seq<HibachiPriceRow>| #[trigger]
            normalize::hibachi_price_rows(rows, *event, message) && batch::buffered(
                old(writers).prices,
                final(writers).prices,
                rows,
                r->Ok_0->Prices_0@,
            );
        assert(normalize::hibachi_price_rows(rows, *event, message));
        lemma_took(old(writers).prices, final(writers).prices, r->Ok_0->Prices_0@, rows);
        hibachi_tables::lemma_hibachi_price_kept(rows[0], *event, topic, data);
    }
}

/// A Hibachi message on funding gives its rows to the writer of that dataset.
pub proof fn hibachi_funding_are_written(
    event: &RawWsEventOwned,
    payload: &str,
    writers: &mut HibachiWriters,
    r: Result<HibachiBatches, String>,
    message: JsonTree,
    funding: JsonTree,
)
    requires
        call_ensures(write_hibachi_event, (event, payload, writers), r),
        old(writers).funding.waiting().len() < old(writers).funding.size(),
    ensures
        wire::parsed_document(payload@) is Err ==> r is Err && *final(writers) == *old(writers),
        wire::parsed_document(payload@) == Ok::<JsonTree, Seq<char>>(message) ==> r is Ok,
        wire::parsed_document(payload@) == Ok::<JsonTree, Seq<char>>(message) && message.field("topic"@) == Some(JsonTree::Text("funding_rate_estimation"@)) && columns::below(message, "data"@, "fundingRateEstimation"@) == Some(funding) ==> r->Ok_0 is Funding && exists|rows: Seq<HibachiFundingRow>| #[trigger]
            took(old(writers).funding, final(writers).funding, r->Ok_0->Funding_0@, rows) && rows.len() == 1 && hibachi_tables::hibachi_funding_kept(rows[0], *event, funding),
{
    reveal_strlit("trades");
    reveal_strlit("orderbook");
    reveal_strlit("ask_bid_price");
    reveal_strlit("mark_price");
    reveal_strlit("spot_price");
    reveal_strlit("funding_rate_estimation");
    assert("trades"@.len() == 6 && "orderbook"@.len() == 9 && "ask_bid_price"@.len() == 13
        && "mark_price"@.len() == 10 && "spot_price"@.len() == 10
        && "funding_rate_estimation"@.len() == 23);
    if wire::parsed_document(payload@) == Ok::<JsonTree, Seq<char>>(message) && message.field("topic"@) == Some(JsonTree::Text("funding_rate_estimation"@)) && columns::below(message, "data"@, "fundingRateEstimation"@) == Some(funding) {
        assert(hibachi_rows::dataset_of(json::string_of(message.field("topic"@))) == Some(HibachiDataset::Funding));
        let rows = choose|rows: Seq<HibachiFundingRow>| #[trigger]
            normalize::hibachi_funding_rows(rows, *event, message) && batch::buffered(
                old(writers).funding,
                final(writers).funding,
                rows,
                r->Ok_0->Funding_0@,
            );
        assert(normalize::hibachi_funding_rows(rows, *event, message));
        lemma_took(old(writers).funding, final(writers).funding, r->Ok_0->Funding_0@, rows);
        hibachi_tables::lemma_hibachi_funding_kept(rows[0], *event, funding);
    }
}

/// A Hibachi message on orderbook gives its rows to the writer of that dataset.
pub proof fn hibachi_orderbook_are_written(
    event: &RawWsEventOwned,
    payload: &str,
    writers: &mut HibachiWriters,
    r: Result<HibachiBatches, String>,
    message: JsonTree,
    i: int,
)
    requires
        call_ensures(write_hibachi_event, (event, payload, writers), r),
        old(writers).orderbook.waiting().len() < old(writers).orderbook.size(),
    ensures
        wire::parsed_document(payload@) is Err ==> r is Err && *final(writers) == *old(writers),
        wire::parsed_document(payload@) == Ok::<JsonTree, Seq<char>>(message) ==> r is Ok,
        wire::parsed_document(payload@) == Ok::<JsonTree, Seq<char>>(message) && message.field("topic"@) == Some(JsonTree::Text("orderbook"@)) && hibachi_tables::levels_of(message, "bid"@).len() <= i64::MAX && hibachi_tables::levels_of(message, "ask"@).len() <= i64::MAX ==> r->Ok_0 is Orderbook && exists|rows: Seq<HibachiBookLevelRow>| #[trigger]
            took(old(writers).orderbook, final(writers).orderbook, r->Ok_0->Orderbook_0@, rows) && rows.len() == hibachi_tables::levels_of(message, "bid"@).len() + hibachi_tables::levels_of(message, "ask"@).len() && (0 <= i < hibachi_tables::levels_of(message, "bid"@).len() ==> hibachi_tables::hibachi_level_kept(rows[i], *event, message, "bid"@, columns::below(message, "data"@, "bid"@)->Some_0, i, hibachi_tables::levels_of(message, "bid"@)[i])) && (0 <= i < hibachi_tables::levels_of(message, "ask"@).len() ==> hibachi_tables::hibachi_level_kept(rows[hibachi_tables::levels_of(message, "bid"@).len() + i], *event, message, "ask"@, columns::below(message, "data"@, "ask"@)->Some_0, i, hibachi_tables::levels_of(message, "ask"@)[i])),
{
    reveal_strlit("trades");
    reveal_strlit("orderbook");
    reveal_strlit("ask_bid_price");
    reveal_strlit("mark_price");
    reveal_strlit("spot_price");
    reveal_strlit("funding_rate_estimation");
    assert("trades"@.len() == 6 && "orderbook"@.len() == 9 && "ask_bid_price"@.len() == 13
        && "mark_price"@.len() == 10 && "spot_price"@.len() == 10
        && "funding_rate_estimation"@.len() == 23);
    if wire::parsed_document(payload@) == Ok::<JsonTree, Seq<char>>(message) && message.field("topic"@) == Some(JsonTree::Text("orderbook"@)) && hibachi_tables::levels_of(message, "bid"@).len() <= i64::MAX && hibachi_tables::levels_of(message, "ask"@).len() <= i64::MAX {
        assert(hibachi_rows::dataset_of(json::string_of(message.field("topic"@))) == Some(HibachiDataset::Orderbook));
        let rows = choose|rows: Seq<HibachiBookLevelRow>| #[trigger]
            normalize::hibachi_book_rows(rows, *event, message) && batch::buffered(
                old(writers).orderbook,
                final(writers).orderbook,
                rows,
                r->Ok_0->Orderbook_0@,
            );
        assert(normalize::hibachi_book_rows(rows, *event, message));
        lemma_took(old(writers).orderbook, final(writers).orderbook, r->Ok_0->Orderbook_0@, rows);
        let bids = hibachi_tables::levels_of(message, "bid"@);
        let asks = hibachi_tables::levels_of(message, "ask"@);
        let bid = columns::below(message, "data"@, "bid"@)->Some_0;
        let ask = columns::below(message, "data"@, "ask"@)->Some_0;
        assert(hibachi_rows::side_levels(hibachi_rows::bid_side(message)) == bids);
        assert(hibachi_rows::side_levels(hibachi_rows::ask_side(message)) == asks);
        if 0 <= i < bids.len() {
            assert(rows[0 + i].says(*event, message, "bid"@, bid, i, bids[i]));
            hibachi_tables::lemma_hibachi_level_kept(
                rows[i],
                *event,
                message,
                "bid"@,
                bid,
                i,
                bids[i],
            );
        }
        if 0 <= i < asks.len() {
            let k = bids.len() + i;
            assert(rows[k].says(*event, message, "ask"@, ask, i, asks[i]));
            hibachi_tables::lemma_hibachi_level_kept(
                rows[k],
                *event,
                message,
                "ask"@,
                ask,
                i,
                asks[i],
            );
        }
    }
}

/// The instruments of a day are those that the files describe: what the control file lists, and
/// behind it what the creation file announces, as a message of that file is read. A payload that is
/// no document changes nothing.
pub proof fn instrument_files_are_collected(
    source: InstrumentSource,
    payload: &str,
    instruments: &mut InstrumentTable,
    r: Result<(), String>,
    message: JsonTree,
    data: JsonTree,
    list: Seq<JsonTree>,
    name: Seq<char>,
    sources: Vec<InstrumentSource>,
    channel: &'static str,
)
    requires
        call_ensures(collect_deribit_instruments, (source, payload, instruments), r),
        call_ensures(instrument_sources, (), sources),
        call_ensures(InstrumentSource::channel_name, (source,), channel),
    ensures
        r is Ok <==> wire::parsed_document(payload@) is Ok,
        r is Err ==> *final(instruments) == *old(instruments),
        wire::parsed_document(payload@) == Ok::<JsonTree, Seq<char>>(message) && source
            == InstrumentSource::Creation && deribit_tables::carries(message, data) && data.field(
            "instrument_name"@,
        ) == Some(JsonTree::Text(name)) ==> final(instruments).lookup(name) is Some && final(
            instruments
        ).lookup(name)->Some_0.described_by(data),
        wire::parsed_document(payload@) == Ok::<JsonTree, Seq<char>>(message) && source
            == InstrumentSource::Control && message.field("result"@) == Some(
            JsonTree::Array(list),
        ) && list.len() > 0 && list.last().field("instrument_name"@) == Some(
            JsonTree::Text(name),
        ) ==> final(instruments).lookup(name) is Some && final(instruments).lookup(
            name,
        )->Some_0.described_by(list.last()),
        sources@.len() == 2,
        sources@[0] == InstrumentSource::Control,
        sources@[1] == InstrumentSource::Creation,
        source == InstrumentSource::Control ==> channel@ == "control"@,
        source == InstrumentSource::Creation ==> channel@ == "instrument_creation"@,
{
    if wire::parsed_document(payload@) == Ok::<JsonTree, Seq<char>>(message) {
        let found = source.descriptions(message);
        if source == InstrumentSource::Creation && deribit_tables::carries(message, data)
            && data.field("instrument_name"@) == Some(JsonTree::Text(name)) {
            assert(found == seq![data]);
            assert(found.last() == data);
            assert(deribit_rows::last_description(found, name) == Some(data));
            assert(final(instruments).lookup(name) is Some);
        }
        if source == InstrumentSource::Control && message.field("result"@) == Some(
            JsonTree::Array(list),
        ) && list.len() > 0 && list.last().field("instrument_name"@) == Some(JsonTree::Text(name)) {
            assert(found == list);
            assert(deribit_rows::last_description(found, name) == Some(list.last()));
            assert(final(instruments).lookup(name) is Some);
        }
    }
}

} // verus!
