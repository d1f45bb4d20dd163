//! The tables of Deribit: tickers, trades, states and instruments keep what the messages say.

use vstd::prelude::*;

use crate::deribit;
use crate::deribit_rows;
use crate::deribit_rows::DeribitInstrumentMeta;
use crate::deribit_rows::DeribitInstrumentRow;
use crate::deribit_rows::DeribitInstrumentStateRow;
use crate::deribit_rows::DeribitQuoteRow;
use crate::deribit_rows::DeribitTradeRow;
use crate::deribit_rows::InstrumentTable;
use crate::deribit_rows::collect_created_instrument;
use crate::deribit_rows::collect_listed_instruments;
use crate::deribit_rows::deribit_instrument_columns;
use crate::deribit_rows::deribit_instrument_meta_from_value;
use crate::deribit_rows::deribit_instrument_state_row_from_message;
use crate::deribit_rows::deribit_quote_row_from_message;
use crate::deribit_rows::deribit_trade_row_from_value;
use crate::deribit_rows::deribit_trade_rows_from_message;
use crate::events::RawWsEventOwned;
use crate::json::Json;
use crate::json::JsonTree;
use crate::laws::columns::at;
use crate::laws::columns::below;
use crate::laws::columns::int_cell;
use crate::laws::columns::keeps;
use crate::laws::columns::keeps_int;
use crate::laws::columns::names_event;
use crate::laws::columns::scalar_cell;
use crate::laws::columns::truth_cell;
use crate::sides;
use crate::table;
use crate::table::Cell;
use crate::table::CellView;
use crate::table::TableRow;
use crate::wire;

verus! {

/// The data of a message: those of its `params`, or else its own.
pub open spec fn carries(message: JsonTree, data: JsonTree) -> bool {
    ||| below(message, "params"@, "data"@) == Some(data)
    ||| below(message, "params"@, "data"@) is None && message.field("data"@) == Some(data)
}

/// The subscription that a message comes from, or else the channel under which it was recorded.
pub open spec fn subscription(message: JsonTree, recorded: Seq<char>) -> Seq<char> {
    match below(message, "params"@, "channel"@) {
        Some(JsonTree::Text(channel)) => channel,
        _ => recorded,
    }
}

/// The column holds what the table of instruments holds of the instrument in the column of the same
/// name; nothing where the instrument is not known.
pub open spec fn joined<R: TableRow>(
    row: R,
    known: Option<DeribitInstrumentMeta>,
    name: Seq<char>,
) -> bool {
    match known {
        Some(meta) => exists|cell: CellView| #[trigger]
            at(row, name, cell) && at(
                DeribitInstrumentRow { symbol: "", meta: &meta },
                name,
                cell,
            ),
        None => at(row, name, CellView::Null),
    }
}

/// A ticker row holds the data of its message, each in the column of its own name, joined with what
/// is known of the instrument.
pub open spec fn ticker_kept(row: DeribitQuoteRow, event: RawWsEventOwned, message: JsonTree, data: JsonTree, known: Option<DeribitInstrumentMeta>) -> bool {
    &&& names_event(row, event)
    &&& at(row, "subscription_channel"@, CellView::Text(subscription(message, event.channel@)))
    &&& keeps(row, data, "instrument_name"@)
    &&& at(row, "ticker_timestamp"@, int_cell(data.field("timestamp"@)))
    &&& at(row, "ticker_type"@, scalar_cell(data.field("type"@)))
    &&& keeps(row, data, "state"@)
    &&& keeps(row, data, "best_bid_price"@)
    &&& keeps(row, data, "best_bid_amount"@)
    &&& keeps(row, data, "best_ask_price"@)
    &&& keeps(row, data, "best_ask_amount"@)
    &&& keeps(row, data, "index_price"@)
    &&& keeps(row, data, "mark_price"@)
    &&& keeps(row, data, "last_price"@)
    &&& keeps(row, data, "underlying_price"@)
    &&& keeps(row, data, "underlying_index"@)
    &&& keeps(row, data, "open_interest"@)
    &&& keeps(row, data, "settlement_price"@)
    &&& keeps(row, data, "estimated_delivery_price"@)
    &&& keeps(row, data, "min_price"@)
    &&& keeps(row, data, "max_price"@)
    &&& keeps(row, data, "bid_iv"@)
    &&& keeps(row, data, "ask_iv"@)
    &&& keeps(row, data, "mark_iv"@)
    &&& keeps(row, data, "funding_8h"@)
    &&& keeps(row, data, "current_funding"@)
    &&& at(row, "stats_volume"@, scalar_cell(below(data, "stats"@, "volume"@)))
    &&& at(row, "stats_volume_usd"@, scalar_cell(below(data, "stats"@, "volume_usd"@)))
    &&& at(row, "stats_volume_notional"@, scalar_cell(below(data, "stats"@, "volume_notional"@)))
    &&& at(row, "stats_high"@, scalar_cell(below(data, "stats"@, "high"@)))
    &&& at(row, "stats_low"@, scalar_cell(below(data, "stats"@, "low"@)))
    &&& at(row, "stats_price_change"@, scalar_cell(below(data, "stats"@, "price_change"@)))
    &&& at(row, "delta"@, scalar_cell(below(data, "greeks"@, "delta"@)))
    &&& at(row, "gamma"@, scalar_cell(below(data, "greeks"@, "gamma"@)))
    &&& at(row, "theta"@, scalar_cell(below(data, "greeks"@, "theta"@)))
    &&& at(row, "vega"@, scalar_cell(below(data, "greeks"@, "vega"@)))
    &&& at(row, "rho"@, scalar_cell(below(data, "greeks"@, "rho"@)))
    &&& joined(row, known, "kind"@)
    &&& joined(row, known, "expiration_timestamp"@)
    &&& joined(row, known, "strike"@)
    &&& joined(row, known, "option_type"@)
    &&& joined(row, known, "settlement_period"@)
}

proof fn lemma_joined<R: TableRow>(
    row: R,
    known: Option<DeribitInstrumentMeta>,
    name: Seq<char>,
    c: int,
    d: int,
)
    requires
        0 <= c < R::schema().len(),
        R::schema()[c].name == name,
        0 <= d < 21,
        <DeribitInstrumentRow<'static> as TableRow>::schema()[d].name == name,
        known is None ==> row.cells()[c] == CellView::Null,
        known is Some ==> row.cells()[c] == (DeribitInstrumentRow {
            symbol: "",
            meta: &known->Some_0,
        }).cells()[d],
    ensures
        joined(row, known, name),
{
    if known is Some {
        let listed = DeribitInstrumentRow { symbol: "", meta: &known->Some_0 };
        assert(at(row, name, row.cells()[c]));
        assert(at(listed, name, listed.cells()[d]));
    }
}

/// Every column of a ticker row holds what the ticker says under the column's own name: the bid
/// under the bid, the ask under the ask. There is a row just where the data name an instrument, and
/// it is joined with that instrument.
#[verifier::rlimit(60)]
pub proof fn tickers_keep_their_fields(
    event: &RawWsEventOwned,
    message: &Json,
    instruments: &InstrumentTable,
    row: Option<DeribitQuoteRow>,
    data: JsonTree,
)
    requires
        call_ensures(deribit_quote_row_from_message, (event, message, instruments), row),
        carries(message@, data),
    ensures
        row is Some <==> data.field("instrument_name"@) is Some && data.field(
            "instrument_name"@,
        )->Some_0 is Text,
        row is Some ==> ticker_kept(
            row->Some_0,
            *event,
            message@,
            data,
            instruments.lookup(data.field("instrument_name"@)->Some_0->Text_0),
        ),
        row is Some ==> <DeribitQuoteRow as TableRow>::schema().len() == 45,
{
    if row is Some {
        let known = instruments.lookup(data.field("instrument_name"@)->Some_0->Text_0);
        lemma_ticker(row->Some_0, *event, message@, data, known);
    }
}

/// A row that says what a ticker says keeps the ticker.
pub proof fn lemma_ticker(
    row: DeribitQuoteRow,
    event: RawWsEventOwned,
    message: JsonTree,
    data: JsonTree,
    known: Option<DeribitInstrumentMeta>,
)
    requires
        row.says(event, message, data, known),
        data.field("instrument_name"@) is Some,
    ensures
        ticker_kept(row, event, message, data, known),
{
    let cells = row.cells();
    assert(<DeribitQuoteRow as TableRow>::schema()[0].name == "exchange"@ && cells[0] == CellView::Text(event.exchange@));
    assert(<DeribitQuoteRow as TableRow>::schema()[1].name == "symbol"@ && cells[1] == CellView::Text(event.symbol@));
    assert(<DeribitQuoteRow as TableRow>::schema()[2].name == "received_at"@ && cells[2] == CellView::Text(event.received_at@));
    assert(<DeribitQuoteRow as TableRow>::schema()[3].name == "received_mts"@ && cells[3] == CellView::Int(event.received_mts));
    assert(<DeribitQuoteRow as TableRow>::schema()[4].name == "connection_id"@ && cells[4] == CellView::Text(event.connection_id@));
    assert(<DeribitQuoteRow as TableRow>::schema()[5].name == "subscription_channel"@ && cells[5] == CellView::Text(subscription(message, event.channel@)));
    assert(<DeribitQuoteRow as TableRow>::schema()[6].name == "instrument_name"@ && cells[6] == scalar_cell(data.field("instrument_name"@)));
    assert(<DeribitQuoteRow as TableRow>::schema()[12].name == "ticker_timestamp"@ && cells[12] == int_cell(data.field("timestamp"@)));
    assert(<DeribitQuoteRow as TableRow>::schema()[13].name == "ticker_type"@ && cells[13] == scalar_cell(data.field("type"@)));
    assert(<DeribitQuoteRow as TableRow>::schema()[14].name == "state"@ && cells[14] == scalar_cell(data.field("state"@)));
    assert(<DeribitQuoteRow as TableRow>::schema()[15].name == "best_bid_price"@ && cells[15] == scalar_cell(data.field("best_bid_price"@)));
    assert(<DeribitQuoteRow as TableRow>::schema()[16].name == "best_bid_amount"@ && cells[16] == scalar_cell(data.field("best_bid_amount"@)));
    assert(<DeribitQuoteRow as TableRow>::schema()[17].name == "best_ask_price"@ && cells[17] == scalar_cell(data.field("best_ask_price"@)));
    assert(<DeribitQuoteRow as TableRow>::schema()[18].name == "best_ask_amount"@ && cells[18] == scalar_cell(data.field("best_ask_amount"@)));
    assert(<DeribitQuoteRow as TableRow>::schema()[19].name == "index_price"@ && cells[19] == scalar_cell(data.field("index_price"@)));
    assert(<DeribitQuoteRow as TableRow>::schema()[20].name == "mark_price"@ && cells[20] == scalar_cell(data.field("mark_price"@)));
    assert(<DeribitQuoteRow as TableRow>::schema()[21].name == "last_price"@ && cells[21] == scalar_cell(data.field("last_price"@)));
    assert(<DeribitQuoteRow as TableRow>::schema()[22].name == "underlying_price"@ && cells[22] == scalar_cell(data.field("underlying_price"@)));
    assert(<DeribitQuoteRow as TableRow>::schema()[23].name == "underlying_index"@ && cells[23] == scalar_cell(data.field("underlying_index"@)));
    assert(<DeribitQuoteRow as TableRow>::schema()[24].name == "open_interest"@ && cells[24] == scalar_cell(data.field("open_interest"@)));
    assert(<DeribitQuoteRow as TableRow>::schema()[25].name == "settlement_price"@ && cells[25] == scalar_cell(data.field("settlement_price"@)));
    assert(<DeribitQuoteRow as TableRow>::schema()[26].name == "estimated_delivery_price"@ && cells[26] == scalar_cell(data.field("estimated_delivery_price"@)));
    assert(<DeribitQuoteRow as TableRow>::schema()[27].name == "min_price"@ && cells[27] == scalar_cell(data.field("min_price"@)));
    assert(<DeribitQuoteRow as TableRow>::schema()[28].name == "max_price"@ && cells[28] == scalar_cell(data.field("max_price"@)));
    assert(<DeribitQuoteRow as TableRow>::schema()[29].name == "bid_iv"@ && cells[29] == scalar_cell(data.field("bid_iv"@)));
    assert(<DeribitQuoteRow as TableRow>::schema()[30].name == "ask_iv"@ && cells[30] == scalar_cell(data.field("ask_iv"@)));
    assert(<DeribitQuoteRow as TableRow>::schema()[31].name == "mark_iv"@ && cells[31] == scalar_cell(data.field("mark_iv"@)));
    assert(<DeribitQuoteRow as TableRow>::schema()[32].name == "funding_8h"@ && cells[32] == scalar_cell(data.field("funding_8h"@)));
    assert(<DeribitQuoteRow as TableRow>::schema()[33].name == "current_funding"@ && cells[33] == scalar_cell(data.field("current_funding"@)));
    assert(<DeribitQuoteRow as TableRow>::schema()[34].name == "stats_volume"@ && cells[34] == scalar_cell(below(data, "stats"@, "volume"@)));
    assert(<DeribitQuoteRow as TableRow>::schema()[35].name == "stats_volume_usd"@ && cells[35] == scalar_cell(below(data, "stats"@, "volume_usd"@)));
    assert(<DeribitQuoteRow as TableRow>::schema()[36].name == "stats_volume_notional"@ && cells[36] == scalar_cell(below(data, "stats"@, "volume_notional"@)));
    assert(<DeribitQuoteRow as TableRow>::schema()[37].name == "stats_high"@ && cells[37] == scalar_cell(below(data, "stats"@, "high"@)));
    assert(<DeribitQuoteRow as TableRow>::schema()[38].name == "stats_low"@ && cells[38] == scalar_cell(below(data, "stats"@, "low"@)));
    assert(<DeribitQuoteRow as TableRow>::schema()[39].name == "stats_price_change"@ && cells[39] == scalar_cell(below(data, "stats"@, "price_change"@)));
    assert(<DeribitQuoteRow as TableRow>::schema()[40].name == "delta"@ && cells[40] == scalar_cell(below(data, "greeks"@, "delta"@)));
    assert(<DeribitQuoteRow as TableRow>::schema()[41].name == "gamma"@ && cells[41] == scalar_cell(below(data, "greeks"@, "gamma"@)));
    assert(<DeribitQuoteRow as TableRow>::schema()[42].name == "theta"@ && cells[42] == scalar_cell(below(data, "greeks"@, "theta"@)));
    assert(<DeribitQuoteRow as TableRow>::schema()[43].name == "vega"@ && cells[43] == scalar_cell(below(data, "greeks"@, "vega"@)));
    assert(<DeribitQuoteRow as TableRow>::schema()[44].name == "rho"@ && cells[44] == scalar_cell(below(data, "greeks"@, "rho"@)));
    lemma_joined(row, known, "kind"@, 7, 3);
    lemma_joined(row, known, "expiration_timestamp"@, 8, 17);
    lemma_joined(row, known, "strike"@, 9, 14);
    lemma_joined(row, known, "option_type"@, 10, 12);
    lemma_joined(row, known, "settlement_period"@, 11, 11);
}

/// A trade row holds the trade, each value in the column of its own name, the side in its canonical
/// word, joined with what is known of the instrument.
pub open spec fn deribit_trade_kept(row: DeribitTradeRow, event: RawWsEventOwned, message: JsonTree, trade: JsonTree, known: Option<DeribitInstrumentMeta>) -> bool {
    &&& names_event(row, event)
    &&& at(row, "subscription_channel"@, CellView::Text(subscription(message, event.channel@)))
    &&& keeps(row, trade, "instrument_name"@)
    &&& at(row, "trade_timestamp"@, int_cell(trade.field("timestamp"@)))
    &&& keeps(row, trade, "price"@)
    &&& keeps(row, trade, "amount"@)
    &&& keeps(row, trade, "contracts"@)
    &&& keeps(row, trade, "mark_price"@)
    &&& keeps(row, trade, "index_price"@)
    &&& keeps(row, trade, "iv"@)
    &&& keeps(row, trade, "liquidation"@)
    &&& keeps(row, trade, "block_trade_id"@)
    &&& keeps(row, trade, "combo_id"@)
    &&& keeps(row, trade, "combo_trade_id"@)
    &&& keeps(row, trade, "trade_id"@)
    &&& keeps_int(row, trade, "trade_seq"@)
    &&& keeps_int(row, trade, "tick_direction"@)
    &&& keeps_int(row, trade, "block_rfq_id"@)
    &&& at(row, "direction"@, side_cell(trade.field("direction"@)))
    &&& joined(row, known, "kind"@)
    &&& joined(row, known, "expiration_timestamp"@)
    &&& joined(row, known, "strike"@)
    &&& joined(row, known, "option_type"@)
    &&& joined(row, known, "settlement_period"@)
}

/// The canonical word for the side that a venue writes.
pub open spec fn side_cell(value: Option<JsonTree>) -> CellView {
    match scalar_cell(value) {
        CellView::Text(token) => CellView::Text(sides::canonical_side(token)),
        other => other,
    }
}

/// Every column of a trade row holds what the trade says under the column's own name. There is a row
/// just where the trade names an instrument, and it is joined with that instrument.
pub proof fn deribit_trades_keep_their_fields(
    event: &RawWsEventOwned,
    message: &Json,
    trade: &Json,
    instruments: &InstrumentTable,
    row: Option<DeribitTradeRow>,
)
    requires
        call_ensures(deribit_trade_row_from_value, (event, message, trade, instruments), row),
    ensures
        row is Some <==> trade@.field("instrument_name"@) is Some && trade@.field(
            "instrument_name"@,
        )->Some_0 is Text,
        row is Some ==> deribit_trade_kept(
            row->Some_0,
            *event,
            message@,
            trade@,
            instruments.lookup(trade@.field("instrument_name"@)->Some_0->Text_0),
        ),
        <DeribitTradeRow as TableRow>::schema().len() == 28,
{
    if row is Some {
        let known = instruments.lookup(trade@.field("instrument_name"@)->Some_0->Text_0);
        lemma_trade(row->Some_0, *event, message@, trade@, known);
    }
}

/// A row that says what a trade says keeps the trade.
#[verifier::rlimit(60)]
pub proof fn lemma_trade(
    row: DeribitTradeRow,
    event: RawWsEventOwned,
    message: JsonTree,
    trade: JsonTree,
    known: Option<DeribitInstrumentMeta>,
)
    requires
        row.says(event, message, trade, known),
        trade.field("instrument_name"@) is Some,
    ensures
        deribit_trade_kept(row, event, message, trade, known),
{
    let cells = row.cells();
    assert(<DeribitTradeRow as TableRow>::schema()[0].name == "exchange"@ && cells[0] == CellView::Text(event.exchange@));
    assert(<DeribitTradeRow as TableRow>::schema()[1].name == "symbol"@ && cells[1] == CellView::Text(event.symbol@));
    assert(<DeribitTradeRow as TableRow>::schema()[2].name == "received_at"@ && cells[2] == CellView::Text(event.received_at@));
    assert(<DeribitTradeRow as TableRow>::schema()[3].name == "received_mts"@ && cells[3] == CellView::Int(event.received_mts));
    assert(<DeribitTradeRow as TableRow>::schema()[4].name == "connection_id"@ && cells[4] == CellView::Text(event.connection_id@));
    assert(<DeribitTradeRow as TableRow>::schema()[5].name == "subscription_channel"@ && cells[5] == CellView::Text(subscription(message, event.channel@)));
    assert(<DeribitTradeRow as TableRow>::schema()[6].name == "instrument_name"@ && cells[6] == scalar_cell(trade.field("instrument_name"@)));
    assert(<DeribitTradeRow as TableRow>::schema()[12].name == "trade_timestamp"@ && cells[12] == int_cell(trade.field("timestamp"@)));
    assert(<DeribitTradeRow as TableRow>::schema()[17].name == "price"@ && cells[17] == scalar_cell(trade.field("price"@)));
    assert(<DeribitTradeRow as TableRow>::schema()[18].name == "amount"@ && cells[18] == scalar_cell(trade.field("amount"@)));
    assert(<DeribitTradeRow as TableRow>::schema()[19].name == "contracts"@ && cells[19] == scalar_cell(trade.field("contracts"@)));
    assert(<DeribitTradeRow as TableRow>::schema()[20].name == "mark_price"@ && cells[20] == scalar_cell(trade.field("mark_price"@)));
    assert(<DeribitTradeRow as TableRow>::schema()[21].name == "index_price"@ && cells[21] == scalar_cell(trade.field("index_price"@)));
    assert(<DeribitTradeRow as TableRow>::schema()[22].name == "iv"@ && cells[22] == scalar_cell(trade.field("iv"@)));
    assert(<DeribitTradeRow as TableRow>::schema()[23].name == "liquidation"@ && cells[23] == scalar_cell(trade.field("liquidation"@)));
    assert(<DeribitTradeRow as TableRow>::schema()[24].name == "block_trade_id"@ && cells[24] == scalar_cell(trade.field("block_trade_id"@)));
    assert(<DeribitTradeRow as TableRow>::schema()[25].name == "combo_id"@ && cells[25] == scalar_cell(trade.field("combo_id"@)));
    assert(<DeribitTradeRow as TableRow>::schema()[26].name == "combo_trade_id"@ && cells[26] == scalar_cell(trade.field("combo_trade_id"@)));
    assert(<DeribitTradeRow as TableRow>::schema()[13].name == "trade_id"@ && cells[13] == scalar_cell(trade.field("trade_id"@)));
    assert(<DeribitTradeRow as TableRow>::schema()[14].name == "trade_seq"@ && cells[14] == int_cell(trade.field("trade_seq"@)));
    assert(<DeribitTradeRow as TableRow>::schema()[16].name == "tick_direction"@ && cells[16] == int_cell(trade.field("tick_direction"@)));
    assert(<DeribitTradeRow as TableRow>::schema()[27].name == "block_rfq_id"@ && cells[27] == int_cell(trade.field("block_rfq_id"@)));
    assert(<DeribitTradeRow as TableRow>::schema()[15].name == "direction"@ && cells[15] == side_cell(trade.field("direction"@)));
    lemma_joined(row, known, "kind"@, 7, 3);
    lemma_joined(row, known, "expiration_timestamp"@, 8, 17);
    lemma_joined(row, known, "strike"@, 9, 14);
    lemma_joined(row, known, "option_type"@, 10, 12);
    lemma_joined(row, known, "settlement_period"@, 11, 11);
}

/// The value names an instrument.
pub open spec fn has_name(value: JsonTree) -> bool {
    value.field("instrument_name"@) is Some && value.field("instrument_name"@)->Some_0 is Text
}

/// There is a row for each trade of a message that names an instrument, in their order; a single
/// trade gives a single row.
pub proof fn deribit_messages_keep_their_trades(
    event: &RawWsEventOwned,
    message: &Json,
    instruments: &InstrumentTable,
    rows: Vec<DeribitTradeRow>,
    data: JsonTree,
    i: int,
)
    requires
        call_ensures(deribit_trade_rows_from_message, (event, message, instruments), rows),
        carries(message@, data),
    ensures
        data is Array ==> ({
            let named = data->Array_0.filter(|t: JsonTree| has_name(t));
            &&& rows@.len() == named.len()
            &&& 0 <= i < rows@.len() ==> deribit_trade_kept(
                rows@[i],
                *event,
                message@,
                named[i],
                instruments.lookup(named[i].field("instrument_name"@)->Some_0->Text_0),
            )
        }),
        data is Object && has_name(data) ==> rows@.len() == 1 && deribit_trade_kept(
            rows@[0],
            *event,
            message@,
            data,
            instruments.lookup(data.field("instrument_name"@)->Some_0->Text_0),
        ),
        !(data is Array) && !has_name(data) ==> rows@.len() == 0,
{
    assert(deribit::message_data(message@) == Some(data));
    if data is Array {
        let list = data->Array_0;
        let named = list.filter(|t: JsonTree| has_name(t));
        assert((|t: JsonTree| has_name(t)) =~= (|t: JsonTree| deribit_rows::names_instrument(t)));
        if 0 <= i < rows@.len() {
            list.lemma_filter_pred(|t: JsonTree| has_name(t), i);
            let known = instruments.lookup(named[i].field("instrument_name"@)->Some_0->Text_0);
            assert(rows@[i].says(*event, message@, named[i], known));
            lemma_trade(rows@[i], *event, message@, named[i], known);
        }
    } else if has_name(data) {
        let known = instruments.lookup(data.field("instrument_name"@)->Some_0->Text_0);
        assert(rows@[0].says(*event, message@, data, known));
        lemma_trade(rows@[0], *event, message@, data, known);
    }
}

/// A state row holds the data of its message, each in the column of its own name, and the data whole.
pub open spec fn state_kept(row: DeribitInstrumentStateRow, event: RawWsEventOwned, message: JsonTree, data: JsonTree) -> bool {
    &&& names_event(row, event)
    &&& at(row, "subscription_channel"@, CellView::Text(subscription(message, event.channel@)))
    &&& keeps(row, data, "instrument_name"@)
    &&& keeps(row, data, "kind"@)
    &&& keeps(row, data, "state"@)
    &&& keeps_int(row, data, "timestamp"@)
    &&& at(row, "raw_data"@, CellView::Text(wire::written_document(data)))
}

/// A row that says what a state message says keeps it.
pub proof fn lemma_state(
    row: DeribitInstrumentStateRow,
    event: RawWsEventOwned,
    message: JsonTree,
    data: JsonTree,
)
    requires
        row.says(event, message, data),
    ensures
        state_kept(row, event, message, data),
{
    let cells = row.cells();
    assert(<DeribitInstrumentStateRow as TableRow>::schema()[0].name == "exchange"@ && cells[0] == CellView::Text(event.exchange@));
    assert(<DeribitInstrumentStateRow as TableRow>::schema()[1].name == "symbol"@ && cells[1] == CellView::Text(event.symbol@));
    assert(<DeribitInstrumentStateRow as TableRow>::schema()[2].name == "received_at"@ && cells[2] == CellView::Text(event.received_at@));
    assert(<DeribitInstrumentStateRow as TableRow>::schema()[3].name == "received_mts"@ && cells[3] == CellView::Int(event.received_mts));
    assert(<DeribitInstrumentStateRow as TableRow>::schema()[4].name == "connection_id"@ && cells[4] == CellView::Text(event.connection_id@));
    assert(<DeribitInstrumentStateRow as TableRow>::schema()[5].name == "subscription_channel"@ && cells[5] == CellView::Text(subscription(message, event.channel@)));
    assert(<DeribitInstrumentStateRow as TableRow>::schema()[6].name == "instrument_name"@ && cells[6] == scalar_cell(data.field("instrument_name"@)));
    assert(<DeribitInstrumentStateRow as TableRow>::schema()[7].name == "kind"@ && cells[7] == scalar_cell(data.field("kind"@)));
    assert(<DeribitInstrumentStateRow as TableRow>::schema()[9].name == "state"@ && cells[9] == scalar_cell(data.field("state"@)));
    assert(<DeribitInstrumentStateRow as TableRow>::schema()[8].name == "timestamp"@ && cells[8] == int_cell(data.field("timestamp"@)));
    assert(<DeribitInstrumentStateRow as TableRow>::schema()[10].name == "raw_data"@ && cells[10] == CellView::Text(wire::written_document(data)));
}

/// Every column of a state row holds what the message says under the column's own name, and the data
/// are kept whole. There is a row just where the message has data.
pub proof fn states_keep_their_fields(
    event: &RawWsEventOwned,
    message: &Json,
    row: Option<DeribitInstrumentStateRow>,
    data: JsonTree,
)
    requires
        call_ensures(deribit_instrument_state_row_from_message, (event, message), row),
    ensures
        carries(message@, data) ==> row is Some && state_kept(
            row->Some_0,
            *event,
            message@,
            data,
        ),
        below(message@, "params"@, "data"@) is None && message@.field("data"@) is None ==> row
            is None,
        <DeribitInstrumentStateRow as TableRow>::schema().len() == 11,
{
    if carries(message@, data) {
        assert(deribit::message_data(message@) == Some(data));
        lemma_state(row->Some_0, *event, message@, data);
    }
}

/// An instrument row holds the description of the instrument, each value in the column of its own
/// name.
pub open spec fn instrument_kept(row: DeribitInstrumentRow<'_>, value: JsonTree) -> bool {
    &&& at(row, "exchange"@, CellView::Text("deribit"@))
    &&& at(row, "symbol"@, CellView::Text(row.symbol@))
    &&& keeps(row, value, "instrument_name"@)
    &&& keeps(row, value, "kind"@)
    &&& keeps(row, value, "state"@)
    &&& keeps(row, value, "base_currency"@)
    &&& keeps(row, value, "quote_currency"@)
    &&& keeps(row, value, "settlement_currency"@)
    &&& keeps(row, value, "counter_currency"@)
    &&& keeps(row, value, "instrument_type"@)
    &&& keeps(row, value, "future_type"@)
    &&& keeps(row, value, "settlement_period"@)
    &&& keeps(row, value, "option_type"@)
    &&& keeps(row, value, "price_index"@)
    &&& keeps(row, value, "strike"@)
    &&& keeps(row, value, "contract_size"@)
    &&& keeps(row, value, "tick_size"@)
    &&& keeps_int(row, value, "expiration_timestamp"@)
    &&& keeps_int(row, value, "creation_timestamp"@)
    &&& keeps_int(row, value, "instrument_id"@)
    &&& at(row, "is_active"@, truth_cell(value.field("is_active"@)))
}

/// Every column of an instrument row holds what the description says under the column's own name;
/// there is an instrument just where the description names one.
pub proof fn instruments_keep_their_fields(
    value: &Json,
    meta: Option<DeribitInstrumentMeta>,
    symbol: &str,
)
    requires
        call_ensures(deribit_instrument_meta_from_value, (value,), meta),
    ensures
        meta is Some <==> has_name(value@),
        meta is Some ==> instrument_kept(
            DeribitInstrumentRow { symbol, meta: &meta->Some_0 },
            value@,
        ),
        <DeribitInstrumentRow<'static> as TableRow>::schema().len() == 21,
{
    if meta is Some {
        lemma_instrument(DeribitInstrumentRow { symbol, meta: &meta->Some_0 }, value@);
    }
}

#[verifier::rlimit(60)]
proof fn lemma_instrument(row: DeribitInstrumentRow<'_>, value: JsonTree)
    requires
        row.meta.described_by(value),
    ensures
        instrument_kept(row, value),
{
    let cells = row.cells();
    assert(<DeribitInstrumentRow<'static> as TableRow>::schema()[0].name == "exchange"@ && cells[0] == CellView::Text("deribit"@));
    assert(<DeribitInstrumentRow<'static> as TableRow>::schema()[1].name == "symbol"@ && cells[1] == CellView::Text(row.symbol@));
    assert(<DeribitInstrumentRow<'static> as TableRow>::schema()[2].name == "instrument_name"@ && cells[2] == scalar_cell(value.field("instrument_name"@)));
    assert(<DeribitInstrumentRow<'static> as TableRow>::schema()[3].name == "kind"@ && cells[3] == scalar_cell(value.field("kind"@)));
    assert(<DeribitInstrumentRow<'static> as TableRow>::schema()[4].name == "state"@ && cells[4] == scalar_cell(value.field("state"@)));
    assert(<DeribitInstrumentRow<'static> as TableRow>::schema()[5].name == "base_currency"@ && cells[5] == scalar_cell(value.field("base_currency"@)));
    assert(<DeribitInstrumentRow<'static> as TableRow>::schema()[6].name == "quote_currency"@ && cells[6] == scalar_cell(value.field("quote_currency"@)));
    assert(<DeribitInstrumentRow<'static> as TableRow>::schema()[7].name == "settlement_currency"@ && cells[7] == scalar_cell(value.field("settlement_currency"@)));
    assert(<DeribitInstrumentRow<'static> as TableRow>::schema()[8].name == "counter_currency"@ && cells[8] == scalar_cell(value.field("counter_currency"@)));
    assert(<DeribitInstrumentRow<'static> as TableRow>::schema()[9].name == "instrument_type"@ && cells[9] == scalar_cell(value.field("instrument_type"@)));
    assert(<DeribitInstrumentRow<'static> as TableRow>::schema()[10].name == "future_type"@ && cells[10] == scalar_cell(value.field("future_type"@)));
    assert(<DeribitInstrumentRow<'static> as TableRow>::schema()[11].name == "settlement_period"@ && cells[11] == scalar_cell(value.field("settlement_period"@)));
    assert(<DeribitInstrumentRow<'static> as TableRow>::schema()[12].name == "option_type"@ && cells[12] == scalar_cell(value.field("option_type"@)));
    assert(<DeribitInstrumentRow<'static> as TableRow>::schema()[13].name == "price_index"@ && cells[13] == scalar_cell(value.field("price_index"@)));
    assert(<DeribitInstrumentRow<'static> as TableRow>::schema()[14].name == "strike"@ && cells[14] == scalar_cell(value.field("strike"@)));
    assert(<DeribitInstrumentRow<'static> as TableRow>::schema()[15].name == "contract_size"@ && cells[15] == scalar_cell(value.field("contract_size"@)));
    assert(<DeribitInstrumentRow<'static> as TableRow>::schema()[16].name == "tick_size"@ && cells[16] == scalar_cell(value.field("tick_size"@)));
    assert(<DeribitInstrumentRow<'static> as TableRow>::schema()[17].name == "expiration_timestamp"@ && cells[17] == int_cell(value.field("expiration_timestamp"@)));
    assert(<DeribitInstrumentRow<'static> as TableRow>::schema()[18].name == "creation_timestamp"@ && cells[18] == int_cell(value.field("creation_timestamp"@)));
    assert(<DeribitInstrumentRow<'static> as TableRow>::schema()[19].name == "instrument_id"@ && cells[19] == int_cell(value.field("instrument_id"@)));
    assert(<DeribitInstrumentRow<'static> as TableRow>::schema()[20].name == "is_active"@ && cells[20] == truth_cell(value.field("is_active"@)));
}

/// What a message of the control channel lists last of an instrument is what the table of
/// instruments holds of it; an instrument that is not listed is known as before.
pub proof fn listed_instruments_are_known(
    message: &Json,
    instruments: &mut InstrumentTable,
    list: Seq<JsonTree>,
    i: int,
    symbol: &str,
    other: Seq<char>,
)
    requires
        call_ensures(collect_listed_instruments, (message, instruments), ()),
        message@.field("result"@) == Some(JsonTree::Array(list)),
        0 <= i < list.len(),
        has_name(list[i]),
        forall|k: int|
            i < k < list.len() ==> (#[trigger] list[k]).field("instrument_name"@) != list[i].field(
                "instrument_name"@,
            ),
    ensures
        ({
            let known = final(instruments).lookup(
                list[i].field("instrument_name"@)->Some_0->Text_0,
            );
            known is Some && instrument_kept(
                DeribitInstrumentRow { symbol, meta: &known->Some_0 },
                list[i],
            )
        }),
        (forall|k: int|
            0 <= k < list.len() ==> (#[trigger] list[k]).field("instrument_name"@) != Some(
                JsonTree::Text(other),
            )) ==> final(instruments).lookup(other) == old(instruments).lookup(other),
{
    let name = list[i].field("instrument_name"@)->Some_0->Text_0;
    lemma_last(list, i, name);
    let known = final(instruments).lookup(name);
    assert(known is Some && known->Some_0.described_by(list[i]));
    lemma_instrument(DeribitInstrumentRow { symbol, meta: &known->Some_0 }, list[i]);
    if forall|k: int|
        0 <= k < list.len() ==> (#[trigger] list[k]).field("instrument_name"@) != Some(
            JsonTree::Text(other),
        ) {
        lemma_not_described(list, other);
        assert(final(instruments).lookup(other) == old(instruments).lookup(other));
    }
}

proof fn lemma_last(list: Seq<JsonTree>, i: int, name: Seq<char>)
    requires
        0 <= i < list.len(),
        list[i].field("instrument_name"@) == Some(JsonTree::Text(name)),
        forall|k: int|
            i < k < list.len() ==> (#[trigger] list[k]).field("instrument_name"@) != Some(
                JsonTree::Text(name),
            ),
    ensures
        deribit_rows::last_description(list, name) == Some(list[i]),
    decreases list.len(),
{
    if i < list.len() - 1 {
        let front = list.drop_last();
        assert(list[list.len() - 1] == list.last());
        assert forall|k: int| i < k < front.len() implies (#[trigger] front[k]).field(
            "instrument_name"@,
        ) != Some(JsonTree::Text(name)) by {
            assert(front[k] == list[k]);
        }
        lemma_last(front, i, name);
    }
}

proof fn lemma_not_described(list: Seq<JsonTree>, name: Seq<char>)
    requires
        forall|k: int|
            0 <= k < list.len() ==> (#[trigger] list[k]).field("instrument_name"@) != Some(
                JsonTree::Text(name),
            ),
    ensures
        deribit_rows::last_description(list, name) is None,
    decreases list.len(),
{
    if list.len() > 0 {
        let front = list.drop_last();
        assert(list[list.len() - 1] == list.last());
        assert forall|k: int| 0 <= k < front.len() implies (#[trigger] front[k]).field(
            "instrument_name"@,
        ) != Some(JsonTree::Text(name)) by {
            assert(front[k] == list[k]);
        }
        lemma_not_described(front, name);
    }
}

/// What a message announces of an instrument is what the table of instruments holds of it; every
/// other instrument is known as before.
pub proof fn created_instruments_are_known(
    message: &Json,
    instruments: &mut InstrumentTable,
    data: JsonTree,
    symbol: &str,
    other: Seq<char>,
)
    requires
        call_ensures(collect_created_instrument, (message, instruments), ()),
        carries(message@, data),
        has_name(data),
    ensures
        ({
            let known = final(instruments).lookup(data.field("instrument_name"@)->Some_0->Text_0);
            known is Some && instrument_kept(
                DeribitInstrumentRow { symbol, meta: &known->Some_0 },
                data,
            )
        }),
        data.field("instrument_name"@) != Some(JsonTree::Text(other)) ==> final(instruments).lookup(
            other,
        ) == old(instruments).lookup(other),
{
    let list = seq![data];
    let name = data.field("instrument_name"@)->Some_0->Text_0;
    assert(deribit_rows::creation_descriptions(message@) == list);
    lemma_last(list, 0, name);
    let known = final(instruments).lookup(name);
    assert(known is Some && known->Some_0.described_by(data));
    lemma_instrument(DeribitInstrumentRow { symbol, meta: &known->Some_0 }, data);
    if data.field("instrument_name"@) != Some(JsonTree::Text(other)) {
        assert forall|k: int| 0 <= k < list.len() implies (#[trigger] list[k]).field(
            "instrument_name"@,
        ) != Some(JsonTree::Text(other)) by {
            assert(list[k] == data);
        }
        lemma_not_described(list, other);
        assert(final(instruments).lookup(other) == old(instruments).lookup(other));
    }
}

/// The table of a day's instruments has a line for each instrument, in the order of their names.
pub proof fn instrument_tables_hold_every_instrument(
    symbol_name: &str,
    instruments: &InstrumentTable,
    columns: Vec<Vec<Cell>>,
    i: int,
    c: int,
    listed: DeribitInstrumentRow<'_>,
)
    requires
        call_ensures(deribit_instrument_columns, (symbol_name, instruments), columns),
        0 <= i < instruments.entries@.len(),
        0 <= c < 21,
        listed.symbol@ == symbol_name@,
        *listed.meta == instruments.entries@[i],
    ensures
        columns@.len() == 21,
        columns@[c]@.len() == instruments.entries@.len(),
        columns@[c]@[i]@ == listed.cells()[c],
{
    let rows = choose|rows: Seq<DeribitInstrumentRow<'_>>| #[trigger]
        deribit_rows::instrument_rows(rows, symbol_name@, instruments.entries@)
            && table::holds_rows(columns@, rows);
    assert(rows[i].symbol@ == symbol_name@ && *rows[i].meta == instruments.entries@[i]);
    assert(rows[i].cells() =~= listed.cells());
    assert(columns@[c]@[i]@ == rows[i].cells()[c]);
}

/// What is noted of an instrument is found under its name, and nothing else is changed; an empty
/// table knows nothing.
pub proof fn noted_instruments_are_found(
    empty: InstrumentTable,
    instruments: &mut InstrumentTable,
    meta: DeribitInstrumentMeta,
    name: &str,
    found: Option<&DeribitInstrumentMeta>,
    other: Seq<char>,
)
    requires
        call_ensures(InstrumentTable::new, (), empty),
        call_ensures(InstrumentTable::insert, (instruments, meta), ()),
        call_ensures(InstrumentTable::get, (&*final(instruments), name), found),
    ensures
        empty.lookup(other) is None,
        name@ == meta.instrument_name@ ==> found is Some && *found->Some_0 == meta,
        name@ != meta.instrument_name@ ==> (found is Some <==> old(instruments).lookup(name@)
            is Some),
        found is Some && name@ != meta.instrument_name@ ==> old(instruments).lookup(name@) == Some(
            *found->Some_0,
        ),
        other != meta.instrument_name@ ==> final(instruments).lookup(other) == old(
            instruments,
        ).lookup(other),
{
}


} // verus!
