//! The tables of Hibachi: trades, books, quotes, prices and funding keep what the messages say.

use vstd::prelude::*;

use crate::events::RawWsEventOwned;
use crate::hibachi_rows;
use crate::hibachi_rows::HibachiBookLevelRow;
use crate::hibachi_rows::HibachiDataset;
use crate::hibachi_rows::HibachiFundingRow;
use crate::hibachi_rows::HibachiPriceRow;
use crate::hibachi_rows::HibachiQuoteRow;
use crate::hibachi_rows::HibachiTradeRow;
use crate::hibachi_rows::hibachi_dataset;
use crate::hibachi_rows::hibachi_funding_row_from_message;
use crate::hibachi_rows::hibachi_orderbook_rows_from_message;
use crate::hibachi_rows::hibachi_price_row_from_message;
use crate::hibachi_rows::hibachi_quote_row_from_message;
use crate::hibachi_rows::hibachi_trade_row_from_message;
use crate::json::Json;
use crate::json::JsonTree;
use crate::laws::columns::at;
use crate::laws::columns::below;
use crate::laws::columns::int_cell;
use crate::laws::columns::keeps;
use crate::laws::columns::keeps_int;
use crate::laws::columns::names_event;
use crate::laws::columns::scalar_cell;
use crate::normalize::HibachiBatches;
use crate::normalize::HibachiWriters;
use crate::normalize::route_hibachi_message;
use crate::sides;
use crate::table::CellView;
use crate::table::TableRow;

verus! {

/// A trade row holds the trade, with the side in its canonical word beside the token of the venue.
pub open spec fn hibachi_trade_kept(row: HibachiTradeRow, event: RawWsEventOwned, trade: JsonTree) -> bool {
    &&& names_event(row, event)
    &&& at(row, "channel"@, CellView::Text(event.channel@))
    &&& at(row, "trade_timestamp"@, int_cell(trade.field("timestamp"@)))
    &&& at(row, "taker_side"@, word_of(scalar_cell(trade.field("takerSide"@))))
    &&& at(row, "raw_taker_side"@, scalar_cell(trade.field("takerSide"@)))
    &&& keeps(row, trade, "price"@)
    &&& keeps(row, trade, "quantity"@)
}

/// A row that says what the message says keeps it.
pub proof fn lemma_hibachi_trade_kept(row: HibachiTradeRow, event: RawWsEventOwned, trade: JsonTree)
    requires
        row.says(event, trade),
    ensures
        hibachi_trade_kept(row, event, trade),
{
    let cells = row.cells();
    assert(<HibachiTradeRow as TableRow>::schema()[0].name == "exchange"@ && cells[0] == CellView::Text(event.exchange@));
    assert(<HibachiTradeRow as TableRow>::schema()[1].name == "symbol"@ && cells[1] == CellView::Text(event.symbol@));
    assert(<HibachiTradeRow as TableRow>::schema()[2].name == "received_at"@ && cells[2] == CellView::Text(event.received_at@));
    assert(<HibachiTradeRow as TableRow>::schema()[3].name == "received_mts"@ && cells[3] == CellView::Int(event.received_mts));
    assert(<HibachiTradeRow as TableRow>::schema()[4].name == "connection_id"@ && cells[4] == CellView::Text(event.connection_id@));
    assert(<HibachiTradeRow as TableRow>::schema()[5].name == "channel"@ && cells[5] == CellView::Text(event.channel@));
    assert(<HibachiTradeRow as TableRow>::schema()[6].name == "trade_timestamp"@ && cells[6] == int_cell(trade.field("timestamp"@)));
    assert(<HibachiTradeRow as TableRow>::schema()[7].name == "taker_side"@ && cells[7] == word_of(scalar_cell(trade.field("takerSide"@))));
    assert(<HibachiTradeRow as TableRow>::schema()[8].name == "raw_taker_side"@ && cells[8] == scalar_cell(trade.field("takerSide"@)));
    assert(<HibachiTradeRow as TableRow>::schema()[9].name == "price"@ && cells[9] == scalar_cell(trade.field("price"@)));
    assert(<HibachiTradeRow as TableRow>::schema()[10].name == "quantity"@ && cells[10] == scalar_cell(trade.field("quantity"@)));
}

/// The canonical word for the token of a side.
pub open spec fn word_of(token: CellView) -> CellView {
    match token {
        CellView::Text(t) => CellView::Text(sides::canonical_side(t)),
        other => other,
    }
}

/// A trade row keeps its trade; there is one just where the message holds a trade.
pub proof fn hibachi_trades_keep_their_fields(
    event: &RawWsEventOwned,
    message: &Json,
    row: Option<HibachiTradeRow>,
)
    requires
        call_ensures(hibachi_trade_row_from_message, (event, message), row),
    ensures
        row is Some <==> below(message@, "data"@, "trade"@) is Some,
        row is Some ==> hibachi_trade_kept(
            row->Some_0,
            *event,
            below(message@, "data"@, "trade"@)->Some_0,
        ),
{
    if row is Some {
        lemma_hibachi_trade_kept(
            row->Some_0,
            *event,
            below(message@, "data"@, "trade"@)->Some_0,
        );
    }
}

/// A quote row holds bid and ask, price and size, each in its own column.
pub open spec fn hibachi_quote_kept(row: HibachiQuoteRow, event: RawWsEventOwned, data: JsonTree) -> bool {
    &&& names_event(row, event)
    &&& at(row, "channel"@, CellView::Text(event.channel@))
    &&& at(row, "bid_price"@, scalar_cell(data.field("bidPrice"@)))
    &&& at(row, "bid_size"@, scalar_cell(data.field("bidSize"@)))
    &&& at(row, "ask_price"@, scalar_cell(data.field("askPrice"@)))
    &&& at(row, "ask_size"@, scalar_cell(data.field("askSize"@)))
}

/// A row that says what the message says keeps it.
pub proof fn lemma_hibachi_quote_kept(row: HibachiQuoteRow, event: RawWsEventOwned, data: JsonTree)
    requires
        row.says(event, data),
    ensures
        hibachi_quote_kept(row, event, data),
{
    let cells = row.cells();
    assert(<HibachiQuoteRow as TableRow>::schema()[0].name == "exchange"@ && cells[0] == CellView::Text(event.exchange@));
    assert(<HibachiQuoteRow as TableRow>::schema()[1].name == "symbol"@ && cells[1] == CellView::Text(event.symbol@));
    assert(<HibachiQuoteRow as TableRow>::schema()[2].name == "received_at"@ && cells[2] == CellView::Text(event.received_at@));
    assert(<HibachiQuoteRow as TableRow>::schema()[3].name == "received_mts"@ && cells[3] == CellView::Int(event.received_mts));
    assert(<HibachiQuoteRow as TableRow>::schema()[4].name == "connection_id"@ && cells[4] == CellView::Text(event.connection_id@));
    assert(<HibachiQuoteRow as TableRow>::schema()[5].name == "channel"@ && cells[5] == CellView::Text(event.channel@));
    assert(<HibachiQuoteRow as TableRow>::schema()[6].name == "bid_price"@ && cells[6] == scalar_cell(data.field("bidPrice"@)));
    assert(<HibachiQuoteRow as TableRow>::schema()[7].name == "bid_size"@ && cells[7] == scalar_cell(data.field("bidSize"@)));
    assert(<HibachiQuoteRow as TableRow>::schema()[8].name == "ask_price"@ && cells[8] == scalar_cell(data.field("askPrice"@)));
    assert(<HibachiQuoteRow as TableRow>::schema()[9].name == "ask_size"@ && cells[9] == scalar_cell(data.field("askSize"@)));
}

/// A quote row keeps bid and ask apart; there is one just where the message has data.
pub proof fn hibachi_quotes_keep_their_fields(
    event: &RawWsEventOwned,
    message: &Json,
    row: Option<HibachiQuoteRow>,
)
    requires
        call_ensures(hibachi_quote_row_from_message, (event, message), row),
    ensures
        row is Some <==> message@.field("data"@) is Some,
        row is Some ==> hibachi_quote_kept(
            row->Some_0,
            *event,
            message@.field("data"@)->Some_0,
        ),
{
    if row is Some {
        lemma_hibachi_quote_kept(row->Some_0, *event, message@.field("data"@)->Some_0);
    }
}

/// A funding row holds the estimated rate and the time of the next funding.
pub open spec fn hibachi_funding_kept(row: HibachiFundingRow, event: RawWsEventOwned, funding: JsonTree) -> bool {
    &&& names_event(row, event)
    &&& at(row, "channel"@, CellView::Text(event.channel@))
    &&& at(row, "estimated_funding_rate"@, scalar_cell(funding.field("estimatedFundingRate"@)))
    &&& at(row, "next_funding_timestamp"@, int_cell(funding.field("nextFundingTimestamp"@)))
}

/// A row that says what the message says keeps it.
pub proof fn lemma_hibachi_funding_kept(row: HibachiFundingRow, event: RawWsEventOwned, funding: JsonTree)
    requires
        row.says(event, funding),
    ensures
        hibachi_funding_kept(row, event, funding),
{
    let cells = row.cells();
    assert(<HibachiFundingRow as TableRow>::schema()[0].name == "exchange"@ && cells[0] == CellView::Text(event.exchange@));
    assert(<HibachiFundingRow as TableRow>::schema()[1].name == "symbol"@ && cells[1] == CellView::Text(event.symbol@));
    assert(<HibachiFundingRow as TableRow>::schema()[2].name == "received_at"@ && cells[2] == CellView::Text(event.received_at@));
    assert(<HibachiFundingRow as TableRow>::schema()[3].name == "received_mts"@ && cells[3] == CellView::Int(event.received_mts));
    assert(<HibachiFundingRow as TableRow>::schema()[4].name == "connection_id"@ && cells[4] == CellView::Text(event.connection_id@));
    assert(<HibachiFundingRow as TableRow>::schema()[5].name == "channel"@ && cells[5] == CellView::Text(event.channel@));
    assert(<HibachiFundingRow as TableRow>::schema()[6].name == "estimated_funding_rate"@ && cells[6] == scalar_cell(funding.field("estimatedFundingRate"@)));
    assert(<HibachiFundingRow as TableRow>::schema()[7].name == "next_funding_timestamp"@ && cells[7] == int_cell(funding.field("nextFundingTimestamp"@)));
}

/// A funding row keeps its estimate; there is one just where the message holds an estimate.
pub proof fn hibachi_funding_keeps_its_fields(
    event: &RawWsEventOwned,
    message: &Json,
    row: Option<HibachiFundingRow>,
)
    requires
        call_ensures(hibachi_funding_row_from_message, (event, message), row),
    ensures
        row is Some <==> below(message@, "data"@, "fundingRateEstimation"@) is Some,
        row is Some ==> hibachi_funding_kept(
            row->Some_0,
            *event,
            below(message@, "data"@, "fundingRateEstimation"@)->Some_0,
        ),
{
    if row is Some {
        lemma_hibachi_funding_kept(
            row->Some_0,
            *event,
            below(message@, "data"@, "fundingRateEstimation"@)->Some_0,
        );
    }
}

/// A price row holds the price of its topic, under the name of the topic.
pub open spec fn hibachi_price_kept(row: HibachiPriceRow, event: RawWsEventOwned, topic: Seq<char>, data: JsonTree) -> bool {
    &&& names_event(row, event)
    &&& at(row, "channel"@, CellView::Text(event.channel@))
    &&& at(row, "price_type"@, CellView::Text(topic))
    &&& at(row, "price"@, price_of(topic, data))
}

/// A row that says what the message says keeps it.
pub proof fn lemma_hibachi_price_kept(row: HibachiPriceRow, event: RawWsEventOwned, topic: Seq<char>, data: JsonTree)
    requires
        row.says(event, topic, data),
    ensures
        hibachi_price_kept(row, event, topic, data),
{
    let cells = row.cells();
    assert(<HibachiPriceRow as TableRow>::schema()[0].name == "exchange"@ && cells[0] == CellView::Text(event.exchange@));
    assert(<HibachiPriceRow as TableRow>::schema()[1].name == "symbol"@ && cells[1] == CellView::Text(event.symbol@));
    assert(<HibachiPriceRow as TableRow>::schema()[2].name == "received_at"@ && cells[2] == CellView::Text(event.received_at@));
    assert(<HibachiPriceRow as TableRow>::schema()[3].name == "received_mts"@ && cells[3] == CellView::Int(event.received_mts));
    assert(<HibachiPriceRow as TableRow>::schema()[4].name == "connection_id"@ && cells[4] == CellView::Text(event.connection_id@));
    assert(<HibachiPriceRow as TableRow>::schema()[5].name == "channel"@ && cells[5] == CellView::Text(event.channel@));
    assert(<HibachiPriceRow as TableRow>::schema()[6].name == "price_type"@ && cells[6] == CellView::Text(topic));
    assert(<HibachiPriceRow as TableRow>::schema()[7].name == "price"@ && cells[7] == price_of(topic, data));
}

/// The price of a topic: the mark price of the one, the spot price of the other.
pub open spec fn price_of(topic: Seq<char>, data: JsonTree) -> CellView {
    if topic == "mark_price"@ {
        scalar_cell(data.field("markPrice"@))
    } else if topic == "spot_price"@ {
        scalar_cell(data.field("spotPrice"@))
    } else {
        CellView::Null
    }
}

/// A price row keeps the price of its topic; there is one just where the message has a topic and
/// data.
pub proof fn hibachi_prices_keep_their_fields(
    event: &RawWsEventOwned,
    message: &Json,
    row: Option<HibachiPriceRow>,
    topic: Seq<char>,
    data: JsonTree,
)
    requires
        call_ensures(hibachi_price_row_from_message, (event, message), row),
    ensures
        message@.field("topic"@) == Some(JsonTree::Text(topic)) && message@.field("data"@) == Some(
            data,
        ) ==> row is Some && hibachi_price_kept(row->Some_0, *event, topic, data),
        message@.field("topic"@) is None || message@.field("data"@) is None ==> row is None,
{
    if message@.field("topic"@) == Some(JsonTree::Text(topic)) && message@.field("data"@) == Some(
        data,
    ) {
        lemma_hibachi_price_kept(row->Some_0, *event, topic, data);
    }
}

/// A level row holds the level with its side and its position there, and what the message says of the
/// whole book.
pub open spec fn hibachi_level_kept(row: HibachiBookLevelRow, event: RawWsEventOwned, message: JsonTree, side: Seq<char>, book_side: JsonTree, level_index: int, level: JsonTree) -> bool {
    &&& names_event(row, event)
    &&& at(row, "channel"@, CellView::Text(event.channel@))
    &&& at(row, "message_type"@, scalar_cell(message.field("messageType"@)))
    &&& at(row, "book_timestamp_ms"@, int_cell(message.field("timestamp_ms"@)))
    &&& keeps_int(row, message, "depth"@)
    &&& keeps(row, message, "granularity"@)
    &&& at(row, "side"@, CellView::Text(side))
    &&& at(row, "level_index"@, CellView::Int(level_index as i64))
    &&& keeps(row, level, "price"@)
    &&& keeps(row, level, "quantity"@)
    &&& at(row, "start_price"@, scalar_cell(book_side.field("startPrice"@)))
    &&& at(row, "end_price"@, scalar_cell(book_side.field("endPrice"@)))
}

/// A row that says what the message says keeps it.
pub proof fn lemma_hibachi_level_kept(row: HibachiBookLevelRow, event: RawWsEventOwned, message: JsonTree, side: Seq<char>, book_side: JsonTree, level_index: int, level: JsonTree)
    requires
        row.says(event, message, side, book_side, level_index, level),
    ensures
        hibachi_level_kept(row, event, message, side, book_side, level_index, level),
{
    let cells = row.cells();
    assert(<HibachiBookLevelRow as TableRow>::schema()[0].name == "exchange"@ && cells[0] == CellView::Text(event.exchange@));
    assert(<HibachiBookLevelRow as TableRow>::schema()[1].name == "symbol"@ && cells[1] == CellView::Text(event.symbol@));
    assert(<HibachiBookLevelRow as TableRow>::schema()[2].name == "received_at"@ && cells[2] == CellView::Text(event.received_at@));
    assert(<HibachiBookLevelRow as TableRow>::schema()[3].name == "received_mts"@ && cells[3] == CellView::Int(event.received_mts));
    assert(<HibachiBookLevelRow as TableRow>::schema()[4].name == "connection_id"@ && cells[4] == CellView::Text(event.connection_id@));
    assert(<HibachiBookLevelRow as TableRow>::schema()[5].name == "channel"@ && cells[5] == CellView::Text(event.channel@));
    assert(<HibachiBookLevelRow as TableRow>::schema()[6].name == "message_type"@ && cells[6] == scalar_cell(message.field("messageType"@)));
    assert(<HibachiBookLevelRow as TableRow>::schema()[7].name == "book_timestamp_ms"@ && cells[7] == int_cell(message.field("timestamp_ms"@)));
    assert(<HibachiBookLevelRow as TableRow>::schema()[8].name == "depth"@ && cells[8] == int_cell(message.field("depth"@)));
    assert(<HibachiBookLevelRow as TableRow>::schema()[9].name == "granularity"@ && cells[9] == scalar_cell(message.field("granularity"@)));
    assert(<HibachiBookLevelRow as TableRow>::schema()[10].name == "side"@ && cells[10] == CellView::Text(side));
    assert(<HibachiBookLevelRow as TableRow>::schema()[11].name == "level_index"@ && cells[11] == CellView::Int(level_index as i64));
    assert(<HibachiBookLevelRow as TableRow>::schema()[12].name == "price"@ && cells[12] == scalar_cell(level.field("price"@)));
    assert(<HibachiBookLevelRow as TableRow>::schema()[13].name == "quantity"@ && cells[13] == scalar_cell(level.field("quantity"@)));
    assert(<HibachiBookLevelRow as TableRow>::schema()[14].name == "start_price"@ && cells[14] == scalar_cell(book_side.field("startPrice"@)));
    assert(<HibachiBookLevelRow as TableRow>::schema()[15].name == "end_price"@ && cells[15] == scalar_cell(book_side.field("endPrice"@)));
}

/// The levels of a side of the book.
pub open spec fn levels_of(message: JsonTree, side: Seq<char>) -> Seq<JsonTree> {
    match below(message, "data"@, side) {
        Some(book_side) => match book_side.field("levels"@) {
            Some(JsonTree::Array(levels)) => levels,
            _ => Seq::empty(),
        },
        None => Seq::empty(),
    }
}

/// A book message gives a row for each level: first the bids, marked as bids, then the asks, marked
/// as asks, each numbered on its own side.
pub proof fn hibachi_books_keep_their_levels(
    event: &RawWsEventOwned,
    message: &Json,
    rows: Vec<HibachiBookLevelRow>,
    i: int,
)
    requires
        call_ensures(hibachi_orderbook_rows_from_message, (event, message), rows),
        levels_of(message@, "bid"@).len() <= i64::MAX,
        levels_of(message@, "ask"@).len() <= i64::MAX,
    ensures
        rows@.len() == levels_of(message@, "bid"@).len() + levels_of(message@, "ask"@).len(),
        0 <= i < levels_of(message@, "bid"@).len() ==> hibachi_level_kept(
            rows@[i],
            *event,
            message@,
            "bid"@,
            below(message@, "data"@, "bid"@)->Some_0,
            i,
            levels_of(message@, "bid"@)[i],
        ),
        0 <= i < levels_of(message@, "ask"@).len() ==> hibachi_level_kept(
            rows@[levels_of(message@, "bid"@).len() + i],
            *event,
            message@,
            "ask"@,
            below(message@, "data"@, "ask"@)->Some_0,
            i,
            levels_of(message@, "ask"@)[i],
        ),
{
    let bids = levels_of(message@, "bid"@);
    let asks = levels_of(message@, "ask"@);
    let bid = below(message@, "data"@, "bid"@);
    let ask = below(message@, "data"@, "ask"@);
    assert(hibachi_rows::side_levels(hibachi_rows::bid_side(message@)) == bids);
    assert(hibachi_rows::side_levels(hibachi_rows::ask_side(message@)) == asks);
    if 0 <= i < bids.len() {
        assert(rows@[0 + i].says(*event, message@, "bid"@, bid->Some_0, i, bids[i]));
        lemma_hibachi_level_kept(
            rows@[i],
            *event,
            message@,
            "bid"@,
            bid->Some_0,
            i,
            bids[i],
        );
    }
    if 0 <= i < asks.len() {
        let k = bids.len() + i;
        assert(rows@[k].says(*event, message@, "ask"@, ask->Some_0, i, asks[i]));
        lemma_hibachi_level_kept(
            rows@[k],
            *event,
            message@,
            "ask"@,
            ask->Some_0,
            i,
            asks[i],
        );
    }
}

/// Every topic that the feed subscribes to has its dataset, and no other has one.
pub proof fn subscribed_topics_have_a_dataset(
    message: &Json,
    dataset: Option<HibachiDataset>,
    topic: Seq<char>,
)
    requires
        call_ensures(hibachi_dataset, (message,), dataset),
        message@.field("topic"@) == Some(JsonTree::Text(topic)),
    ensures
        topic == "trades"@ <==> dataset == Some(HibachiDataset::Trades),
        topic == "orderbook"@ <==> dataset == Some(HibachiDataset::Orderbook),
        topic == "ask_bid_price"@ <==> dataset == Some(HibachiDataset::Quotes),
        topic == "mark_price"@ || topic == "spot_price"@ <==> dataset == Some(
            HibachiDataset::Prices,
        ),
        topic == "funding_rate_estimation"@ <==> dataset == Some(HibachiDataset::Funding),
{
    reveal_strlit("trades");
    reveal_strlit("orderbook");
    reveal_strlit("ask_bid_price");
    reveal_strlit("mark_price");
    reveal_strlit("spot_price");
    reveal_strlit("funding_rate_estimation");
    assert("trades"@.len() == 6 && "orderbook"@.len() == 9 && "ask_bid_price"@.len() == 13
        && "mark_price"@.len() == 10 && "spot_price"@.len() == 10
        && "funding_rate_estimation"@.len() == 23);
}

/// A message goes to the dataset of its topic, and every other dataset stays as it is.
pub proof fn hibachi_messages_go_to_their_dataset(
    event: &RawWsEventOwned,
    message: &Json,
    writers: &mut HibachiWriters,
    done: HibachiBatches,
    dataset: Option<HibachiDataset>,
)
    requires
        call_ensures(route_hibachi_message, (event, message, writers), done),
        call_ensures(hibachi_dataset, (message,), dataset),
    ensures
        dataset == Some(HibachiDataset::Trades) <==> done is Trades,
        dataset == Some(HibachiDataset::Orderbook) <==> done is Orderbook,
        dataset == Some(HibachiDataset::Quotes) <==> done is Quotes,
        dataset == Some(HibachiDataset::Prices) <==> done is Prices,
        dataset == Some(HibachiDataset::Funding) <==> done is Funding,
        !(done is Trades) ==> final(writers).trades == old(writers).trades,
        !(done is Orderbook) ==> final(writers).orderbook == old(writers).orderbook,
        !(done is Quotes) ==> final(writers).quotes == old(writers).quotes,
        !(done is Prices) ==> final(writers).prices == old(writers).prices,
        !(done is Funding) ==> final(writers).funding == old(writers).funding,
{
}

} // verus!
