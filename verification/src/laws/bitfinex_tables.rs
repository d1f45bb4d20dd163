//! The tables of Bitfinex: trades and book levels keep what stands at each position of a message.

use vstd::prelude::*;

use crate::bitfinex_rows;
use crate::bitfinex_rows::BitfinexBookLevelRow;
use crate::bitfinex_rows::BitfinexTradeRow;
use crate::bitfinex_rows::bitfinex_book_row_from_value;
use crate::bitfinex_rows::bitfinex_book_rows_from_message;
use crate::bitfinex_rows::bitfinex_trade_row_from_value;
use crate::bitfinex_rows::bitfinex_trade_rows_from_message;
use crate::events::RawWsEventOwned;
use crate::json;
use crate::json::Json;
use crate::json::JsonTree;
use crate::laws::columns::at;
use crate::laws::columns::int_cell;
use crate::laws::columns::is_minus;
use crate::laws::columns::is_plain;
use crate::laws::columns::names_event;
use crate::laws::columns::scalar_cell;
use crate::sides;
use crate::table::CellView;
use crate::table::TableRow;
use crate::text;

verus! {

/// The cell of an integer that may be missing.
pub open spec fn maybe_int(n: Option<i64>) -> CellView {
    match n {
        Some(value) => CellView::Int(value),
        None => CellView::Null,
    }
}

/// The side of a signed amount: the one for a minus sign, the other without.
pub open spec fn side_of(amount: CellView, positive: Seq<char>, negative: Seq<char>) -> CellView {
    match amount {
        CellView::Text(a) => CellView::Text(
            if is_minus(a) {
                negative
            } else {
                positive
            },
        ),
        other => other,
    }
}

/// The signed amount without its sign.
pub open spec fn size_of(amount: CellView) -> CellView {
    match amount {
        CellView::Text(a) => CellView::Text(
            if is_minus(a) {
                a.skip(1)
            } else {
                a
            },
        ),
        other => other,
    }
}

/// The amount has no white space in front.
pub open spec fn is_plain_cell(amount: CellView) -> bool {
    amount is Text ==> is_plain(amount->Text_0)
}

proof fn lemma_plain(amount: Option<Seq<char>>, positive: Seq<char>, negative: Seq<char>)
    requires
        amount is Some ==> is_plain(amount->Some_0),
    ensures
        amount is Some ==> text::trimmed_start(amount->Some_0) == amount->Some_0
            && sides::abs_text(amount->Some_0) == if is_minus(amount->Some_0) {
            amount->Some_0.skip(1)
        } else {
            amount->Some_0
        } && sides::is_negative_amount(amount->Some_0) == is_minus(amount->Some_0),
{
    if amount is Some {
        assert(text::trimmed_start(amount->Some_0) == amount->Some_0);
        if is_minus(amount->Some_0) {
            assert(sides::abs_text(amount->Some_0) =~= amount->Some_0.skip(1));
        }
    }
}

/// A trade row holds the trade position by position: id, time, amount and price; the side and the
/// amount without a sign follow from the sign of the amount.
pub open spec fn bitfinex_trade_kept(row: BitfinexTradeRow, event: RawWsEventOwned, channel_id: Option<i64>, event_type: Seq<char>, trade: JsonTree) -> bool {
    &&& names_event(row, event)
    &&& at(row, "channel"@, CellView::Text(event.channel@))
    &&& at(row, "bitfinex_channel_id"@, maybe_int(channel_id))
    &&& at(row, "event_type"@, CellView::Text(event_type))
    &&& at(row, "is_final"@, CellView::Bool(event_type == "snapshot"@ || event_type == "tu"@))
    &&& at(row, "trade_id"@, int_cell(trade.item(0)))
    &&& at(row, "trade_mts"@, int_cell(trade.item(1)))
    &&& at(row, "amount"@, scalar_cell(trade.item(2)))
    &&& at(row, "price"@, scalar_cell(trade.item(3)))
    &&& is_plain_cell(scalar_cell(trade.item(2))) ==> at(
        row,
        "side"@,
        side_of(scalar_cell(trade.item(2)), "buy"@, "sell"@),
    ) && at(row, "amount_abs"@, size_of(scalar_cell(trade.item(2))))
}

/// A row keeps its trade: id, time, amount and price are those at the four positions of the trade.
pub proof fn bitfinex_trades_keep_their_items(
    event: &RawWsEventOwned,
    channel_id: Option<i64>,
    event_type: &str,
    trade: &Json,
    row: BitfinexTradeRow,
)
    requires
        call_ensures(
            bitfinex_trade_row_from_value,
            (event, channel_id, event_type, trade),
            row,
        ),
    ensures
        bitfinex_trade_kept(row, *event, channel_id, event_type@, trade@),
        <BitfinexTradeRow as TableRow>::schema().len() == 15,
{
    lemma_trade(row, *event, channel_id, event_type@, trade@);
}

/// A row that says what a trade says keeps the trade.
pub proof fn lemma_trade(
    row: BitfinexTradeRow,
    event: RawWsEventOwned,
    channel_id: Option<i64>,
    event_type: Seq<char>,
    trade: JsonTree,
)
    requires
        row.says(event, channel_id, event_type, trade),
    ensures
        bitfinex_trade_kept(row, event, channel_id, event_type, trade),
{
    let cells = row.cells();
    assert(<BitfinexTradeRow as TableRow>::schema()[0].name == "exchange"@ && cells[0] == CellView::Text(event.exchange@));
    assert(<BitfinexTradeRow as TableRow>::schema()[1].name == "symbol"@ && cells[1] == CellView::Text(event.symbol@));
    assert(<BitfinexTradeRow as TableRow>::schema()[2].name == "received_at"@ && cells[2] == CellView::Text(event.received_at@));
    assert(<BitfinexTradeRow as TableRow>::schema()[3].name == "received_mts"@ && cells[3] == CellView::Int(event.received_mts));
    assert(<BitfinexTradeRow as TableRow>::schema()[4].name == "connection_id"@ && cells[4] == CellView::Text(event.connection_id@));
    assert(<BitfinexTradeRow as TableRow>::schema()[5].name == "channel"@ && cells[5] == CellView::Text(event.channel@));
    assert(<BitfinexTradeRow as TableRow>::schema()[6].name == "bitfinex_channel_id"@ && cells[6] == maybe_int(channel_id));
    assert(<BitfinexTradeRow as TableRow>::schema()[7].name == "event_type"@ && cells[7] == CellView::Text(event_type));
    assert(<BitfinexTradeRow as TableRow>::schema()[8].name == "is_final"@ && cells[8] == CellView::Bool(event_type == "snapshot"@ || event_type == "tu"@));
    assert(<BitfinexTradeRow as TableRow>::schema()[9].name == "trade_id"@ && cells[9] == int_cell(trade.item(0)));
    assert(<BitfinexTradeRow as TableRow>::schema()[10].name == "trade_mts"@ && cells[10] == int_cell(trade.item(1)));
    assert(<BitfinexTradeRow as TableRow>::schema()[12].name == "amount"@ && cells[12] == scalar_cell(trade.item(2)));
    assert(<BitfinexTradeRow as TableRow>::schema()[14].name == "price"@ && cells[14] == scalar_cell(trade.item(3)));
    if is_plain_cell(scalar_cell(trade.item(2))) {
        lemma_plain(json::scalar_of(trade.item(2)), "buy"@, "sell"@);
        assert(<BitfinexTradeRow as TableRow>::schema()[11].name == "side"@ && cells[11] == side_of(scalar_cell(trade.item(2)), "buy"@, "sell"@));
        assert(<BitfinexTradeRow as TableRow>::schema()[13].name == "amount_abs"@ && cells[13] == size_of(scalar_cell(trade.item(2))));
    }
}

/// Trades that differ in price have rows that differ in price, and so for the amount.
pub proof fn different_trades_have_different_rows(
    event: &RawWsEventOwned,
    channel_id: Option<i64>,
    event_type: &str,
    a: &Json,
    b: &Json,
    row: BitfinexTradeRow,
    other: BitfinexTradeRow,
)
    requires
        call_ensures(bitfinex_trade_row_from_value, (event, channel_id, event_type, a), row),
        call_ensures(bitfinex_trade_row_from_value, (event, channel_id, event_type, b), other),
    ensures
        scalar_cell(a@.item(3)) != scalar_cell(b@.item(3)) ==> json::opt_text(row.price)
            != json::opt_text(other.price),
        scalar_cell(a@.item(2)) != scalar_cell(b@.item(2)) ==> json::opt_text(row.amount)
            != json::opt_text(other.amount),
        int_cell(a@.item(1)) != int_cell(b@.item(1)) ==> row.trade_mts != other.trade_mts,
        int_cell(a@.item(0)) != int_cell(b@.item(0)) ==> row.trade_id != other.trade_id,
{
}

/// The integer at the head of a message: the number of its channel.
pub open spec fn head(message: JsonTree) -> Option<i64> {
    match int_cell(message.item(0)) {
        CellView::Int(n) => Some(n),
        _ => None,
    }
}

/// A snapshot gives a row for each of its trades, in their order; an execution or update gives one,
/// under the name of its event; a heartbeat gives none.
pub proof fn bitfinex_messages_keep_their_trades(
    event: &RawWsEventOwned,
    message: &Json,
    rows: Vec<BitfinexTradeRow>,
    items: Seq<JsonTree>,
    event_type: Seq<char>,
    trade: JsonTree,
    i: int,
)
    requires
        call_ensures(bitfinex_trade_rows_from_message, (event, message), rows),
    ensures
        message@.item(1) == Some(JsonTree::Array(items)) && items.len() > 0 && items[0] is Array ==> {
            &&& rows@.len() == items.len()
            &&& 0 <= i < items.len() ==> bitfinex_trade_kept(
                rows@[i],
                *event,
                head(message@),
                "snapshot"@,
                items[i],
            )
        },
        message@.item(1) == Some(JsonTree::Text(event_type)) && event_type != "hb"@
            && message@.item(2) == Some(trade) ==> rows@.len() == 1 && bitfinex_trade_kept(
            rows@[0],
            *event,
            head(message@),
            event_type,
            trade,
        ),
        message@.item(1) == Some(JsonTree::Text("hb"@)) ==> rows@.len() == 0,
        message@.item(1) is None || message@.item(1)->Some_0 is Object ==> rows@.len() == 0,
{
    assert(head(message@) == json::i64_of(message@.item(0)));
    if message@.item(1) == Some(JsonTree::Array(items)) && items.len() > 0 && items[0] is Array {
        assert(bitfinex_rows::trade_entries(message@) == ("snapshot"@, items));
        if 0 <= i < items.len() {
            assert(rows@[i].says(*event, head(message@), "snapshot"@, items[i]));
            lemma_trade(rows@[i], *event, head(message@), "snapshot"@, items[i]);
        }
    }
    if message@.item(1) == Some(JsonTree::Text(event_type)) && event_type != "hb"@ && message@.item(
        2,
    ) == Some(trade) {
        assert(bitfinex_rows::trade_entries(message@).1.len() == 1);
        assert(rows@[0].says(*event, head(message@), event_type, trade));
        lemma_trade(rows@[0], *event, head(message@), event_type, trade);
    }
}

/// A level row holds the level position by position: price, count and amount; the side and the amount
/// without a sign follow from the sign of the amount.
pub open spec fn bitfinex_level_kept(row: BitfinexBookLevelRow, event: RawWsEventOwned, channel_id: Option<i64>, event_type: Seq<char>, level_index: Option<i64>, level: JsonTree) -> bool {
    &&& names_event(row, event)
    &&& at(row, "channel"@, CellView::Text(event.channel@))
    &&& at(row, "bitfinex_channel_id"@, maybe_int(channel_id))
    &&& at(row, "event_type"@, CellView::Text(event_type))
    &&& at(row, "level_index"@, maybe_int(level_index))
    &&& at(row, "price"@, scalar_cell(level.item(0)))
    &&& at(row, "count"@, int_cell(level.item(1)))
    &&& at(row, "amount"@, scalar_cell(level.item(2)))
    &&& is_plain_cell(scalar_cell(level.item(2))) ==> at(
        row,
        "side"@,
        side_of(scalar_cell(level.item(2)), "bid"@, "ask"@),
    ) && at(row, "amount_abs"@, size_of(scalar_cell(level.item(2))))
}

/// A row keeps its level: price, count and amount are those at the three positions of the level.
pub proof fn bitfinex_levels_keep_their_items(
    event: &RawWsEventOwned,
    channel_id: Option<i64>,
    event_type: &str,
    level_index: Option<i64>,
    level: &Json,
    row: BitfinexBookLevelRow,
)
    requires
        call_ensures(
            bitfinex_book_row_from_value,
            (event, channel_id, event_type, level_index, level),
            row,
        ),
    ensures
        bitfinex_level_kept(row, *event, channel_id, event_type@, level_index, level@),
        <BitfinexBookLevelRow as TableRow>::schema().len() == 14,
{
    lemma_level(row, *event, channel_id, event_type@, level_index, level@);
}

/// A row that says what a level says keeps the level.
pub proof fn lemma_level(
    row: BitfinexBookLevelRow,
    event: RawWsEventOwned,
    channel_id: Option<i64>,
    event_type: Seq<char>,
    level_index: Option<i64>,
    level: JsonTree,
)
    requires
        row.says(event, channel_id, event_type, level_index, level),
    ensures
        bitfinex_level_kept(row, event, channel_id, event_type, level_index, level),
{
    let cells = row.cells();
    assert(<BitfinexBookLevelRow as TableRow>::schema()[0].name == "exchange"@ && cells[0] == CellView::Text(event.exchange@));
    assert(<BitfinexBookLevelRow as TableRow>::schema()[1].name == "symbol"@ && cells[1] == CellView::Text(event.symbol@));
    assert(<BitfinexBookLevelRow as TableRow>::schema()[2].name == "received_at"@ && cells[2] == CellView::Text(event.received_at@));
    assert(<BitfinexBookLevelRow as TableRow>::schema()[3].name == "received_mts"@ && cells[3] == CellView::Int(event.received_mts));
    assert(<BitfinexBookLevelRow as TableRow>::schema()[4].name == "connection_id"@ && cells[4] == CellView::Text(event.connection_id@));
    assert(<BitfinexBookLevelRow as TableRow>::schema()[5].name == "channel"@ && cells[5] == CellView::Text(event.channel@));
    assert(<BitfinexBookLevelRow as TableRow>::schema()[6].name == "bitfinex_channel_id"@ && cells[6] == maybe_int(channel_id));
    assert(<BitfinexBookLevelRow as TableRow>::schema()[7].name == "event_type"@ && cells[7] == CellView::Text(event_type));
    assert(<BitfinexBookLevelRow as TableRow>::schema()[8].name == "level_index"@ && cells[8] == maybe_int(level_index));
    assert(<BitfinexBookLevelRow as TableRow>::schema()[9].name == "price"@ && cells[9] == scalar_cell(level.item(0)));
    assert(<BitfinexBookLevelRow as TableRow>::schema()[10].name == "count"@ && cells[10] == int_cell(level.item(1)));
    assert(<BitfinexBookLevelRow as TableRow>::schema()[11].name == "amount"@ && cells[11] == scalar_cell(level.item(2)));
    if is_plain_cell(scalar_cell(level.item(2))) {
        lemma_plain(json::scalar_of(level.item(2)), "bid"@, "ask"@);
        assert(<BitfinexBookLevelRow as TableRow>::schema()[13].name == "side"@ && cells[13] == side_of(scalar_cell(level.item(2)), "bid"@, "ask"@));
        assert(<BitfinexBookLevelRow as TableRow>::schema()[12].name == "amount_abs"@ && cells[12] == size_of(scalar_cell(level.item(2))));
    }
}

/// A snapshot gives a row for each of its levels, numbered in their order; an update gives one; and
/// a message without a level, such as a heartbeat, gives none.
pub proof fn bitfinex_messages_keep_their_levels(
    event: &RawWsEventOwned,
    message: &Json,
    rows: Vec<BitfinexBookLevelRow>,
    items: Seq<JsonTree>,
    i: int,
)
    requires
        call_ensures(bitfinex_book_rows_from_message, (event, message), rows),
    ensures
        message@.item(1) == Some(JsonTree::Array(items)) && items.len() > 0 && items[0] is Array ==> {
            &&& rows@.len() == items.len()
            &&& 0 <= i < items.len() && i <= i64::MAX ==> bitfinex_level_kept(
                rows@[i],
                *event,
                head(message@),
                "snapshot"@,
                Some(i as i64),
                items[i],
            )
        },
        message@.item(1) == Some(JsonTree::Array(items)) && items.len() > 0 && !(items[0] is Array)
            ==> rows@.len() == 1 && bitfinex_level_kept(
            rows@[0],
            *event,
            head(message@),
            "update"@,
            Some(0i64),
            JsonTree::Array(items),
        ),
        message@.item(1) == Some(JsonTree::Array(Seq::<JsonTree>::empty())) ==> rows@.len() == 0,
        message@.item(1) is None || !(message@.item(1)->Some_0 is Array) ==> rows@.len() == 0,
{
    assert(head(message@) == json::i64_of(message@.item(0)));
    let h = head(message@);
    if message@.item(1) == Some(JsonTree::Array(items)) && items.len() > 0 {
        if items[0] is Array {
            assert(bitfinex_rows::book_entries(message@) == ("snapshot"@, items));
            if 0 <= i < items.len() && i <= i64::MAX {
                assert(rows@[i].says(*event, h, "snapshot"@, Some(i as i64), items[i]));
                lemma_level(rows@[i], *event, h, "snapshot"@, Some(i as i64), items[i]);
            }
        } else {
            let level = JsonTree::Array(items);
            assert(bitfinex_rows::book_entries(message@).1.len() == 1);
            assert(rows@[0].says(*event, h, "update"@, Some(0i64), level));
            lemma_level(rows@[0], *event, h, "update"@, Some(0i64), level);
        }
    }
}

} // verus!
