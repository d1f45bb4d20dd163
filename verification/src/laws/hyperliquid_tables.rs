//! The tables of Hyperliquid: trades, books and control messages keep what the messages say; and
//! which market is followed.

use vstd::prelude::*;

use crate::events::RawWsEventOwned;
use crate::hyperliquid;
use crate::hyperliquid::HyperliquidSpotTarget;
use crate::hyperliquid::SpotMarket;
use crate::hyperliquid::configured_hyperliquid_target;
use crate::hyperliquid::resolve_hyperliquid_spot_target;
use crate::hyperliquid_rows;
use crate::hyperliquid_rows::HyperliquidBookLevelRow;
use crate::hyperliquid_rows::HyperliquidControlRow;
use crate::hyperliquid_rows::HyperliquidTradeRow;
use crate::hyperliquid_rows::hyperliquid_book_rows_from_message;
use crate::hyperliquid_rows::hyperliquid_control_row_from_message;
use crate::hyperliquid_rows::hyperliquid_trade_rows_from_message;
use crate::json::Json;
use crate::json::JsonTree;
use crate::laws::columns::at;
use crate::laws::columns::below;
use crate::laws::columns::int_cell;
use crate::laws::columns::item_below;
use crate::laws::columns::keeps;
use crate::laws::columns::names_event;
use crate::laws::columns::scalar_cell;
use crate::laws::columns::truth_cell;
use crate::sides;
use crate::table::CellView;
use crate::table::TableRow;
use crate::text;

verus! {

/// The canonical word for the token of a side.
pub open spec fn word_of(token: CellView) -> CellView {
    match token {
        CellView::Text(t) => CellView::Text(sides::canonical_side(t)),
        other => other,
    }
}

/// A trade row holds the trade, with the side in its canonical word beside the token of the venue.
pub open spec fn hyperliquid_trade_kept(row: HyperliquidTradeRow, event: RawWsEventOwned, trade: JsonTree) -> bool {
    &&& names_event(row, event)
    &&& at(row, "channel"@, CellView::Text(event.channel@))
    &&& keeps(row, trade, "coin"@)
    &&& at(row, "side"@, word_of(scalar_cell(trade.field("side"@))))
    &&& at(row, "raw_side"@, scalar_cell(trade.field("side"@)))
    &&& at(row, "price"@, scalar_cell(trade.field("px"@)))
    &&& at(row, "size"@, scalar_cell(trade.field("sz"@)))
    &&& at(row, "trade_timestamp"@, int_cell(trade.field("time"@)))
    &&& keeps(row, trade, "hash"@)
    &&& at(row, "trade_id"@, int_cell(trade.field("tid"@)))
    &&& at(row, "user_0"@, scalar_cell(item_below(trade, "users"@, 0)))
    &&& at(row, "user_1"@, scalar_cell(item_below(trade, "users"@, 1)))
}

/// A row that says what the message says keeps it.
pub proof fn lemma_hyperliquid_trade_kept(row: HyperliquidTradeRow, event: RawWsEventOwned, trade: JsonTree)
    requires
        row.says(event, trade),
    ensures
        hyperliquid_trade_kept(row, event, trade),
{
    let cells = row.cells();
    assert(<HyperliquidTradeRow as TableRow>::schema()[0].name == "exchange"@ && cells[0] == CellView::Text(event.exchange@));
    assert(<HyperliquidTradeRow as TableRow>::schema()[1].name == "symbol"@ && cells[1] == CellView::Text(event.symbol@));
    assert(<HyperliquidTradeRow as TableRow>::schema()[2].name == "received_at"@ && cells[2] == CellView::Text(event.received_at@));
    assert(<HyperliquidTradeRow as TableRow>::schema()[3].name == "received_mts"@ && cells[3] == CellView::Int(event.received_mts));
    assert(<HyperliquidTradeRow as TableRow>::schema()[4].name == "connection_id"@ && cells[4] == CellView::Text(event.connection_id@));
    assert(<HyperliquidTradeRow as TableRow>::schema()[5].name == "channel"@ && cells[5] == CellView::Text(event.channel@));
    assert(<HyperliquidTradeRow as TableRow>::schema()[6].name == "coin"@ && cells[6] == scalar_cell(trade.field("coin"@)));
    assert(<HyperliquidTradeRow as TableRow>::schema()[7].name == "side"@ && cells[7] == word_of(scalar_cell(trade.field("side"@))));
    assert(<HyperliquidTradeRow as TableRow>::schema()[8].name == "raw_side"@ && cells[8] == scalar_cell(trade.field("side"@)));
    assert(<HyperliquidTradeRow as TableRow>::schema()[9].name == "price"@ && cells[9] == scalar_cell(trade.field("px"@)));
    assert(<HyperliquidTradeRow as TableRow>::schema()[10].name == "size"@ && cells[10] == scalar_cell(trade.field("sz"@)));
    assert(<HyperliquidTradeRow as TableRow>::schema()[11].name == "trade_timestamp"@ && cells[11] == int_cell(trade.field("time"@)));
    assert(<HyperliquidTradeRow as TableRow>::schema()[12].name == "hash"@ && cells[12] == scalar_cell(trade.field("hash"@)));
    assert(<HyperliquidTradeRow as TableRow>::schema()[13].name == "trade_id"@ && cells[13] == int_cell(trade.field("tid"@)));
    assert(<HyperliquidTradeRow as TableRow>::schema()[14].name == "user_0"@ && cells[14] == scalar_cell(item_below(trade, "users"@, 0)));
    assert(<HyperliquidTradeRow as TableRow>::schema()[15].name == "user_1"@ && cells[15] == scalar_cell(item_below(trade, "users"@, 1)));
}

/// A message gives a row for each of its trades, in their order.
pub proof fn hyperliquid_messages_keep_their_trades(
    event: &RawWsEventOwned,
    message: &Json,
    rows: Vec<HyperliquidTradeRow>,
    list: Seq<JsonTree>,
    i: int,
)
    requires
        call_ensures(hyperliquid_trade_rows_from_message, (event, message), rows),
    ensures
        message@.field("data"@) == Some(JsonTree::Array(list)) ==> rows@.len() == list.len() && (0
            <= i < list.len() ==> hyperliquid_trade_kept(rows@[i], *event, list[i])),
        message@.field("data"@) is None || !(message@.field("data"@)->Some_0 is Array)
            ==> rows@.len() == 0,
{
    if message@.field("data"@) == Some(JsonTree::Array(list)) && 0 <= i < list.len() {
        assert(rows@[i].says(*event, list[i]));
        lemma_hyperliquid_trade_kept(rows@[i], *event, list[i]);
    }
}

/// A level row holds the level with its side and its position there, and what the message says of the
/// whole book.
pub open spec fn hyperliquid_level_kept(row: HyperliquidBookLevelRow, event: RawWsEventOwned, data: JsonTree, side: Seq<char>, level_index: int, level: JsonTree) -> bool {
    &&& names_event(row, event)
    &&& at(row, "channel"@, CellView::Text(event.channel@))
    &&& keeps(row, data, "coin"@)
    &&& at(row, "book_timestamp"@, int_cell(data.field("time"@)))
    &&& at(row, "snapshot"@, truth_cell(data.field("snapshot"@)))
    &&& at(row, "side"@, CellView::Text(side))
    &&& at(row, "level_index"@, CellView::Int(level_index as i64))
    &&& at(row, "price"@, scalar_cell(level.field("px"@)))
    &&& at(row, "size"@, scalar_cell(level.field("sz"@)))
    &&& at(row, "order_count"@, int_cell(level.field("n"@)))
}

/// A row that says what the message says keeps it.
pub proof fn lemma_hyperliquid_level_kept(row: HyperliquidBookLevelRow, event: RawWsEventOwned, data: JsonTree, side: Seq<char>, level_index: int, level: JsonTree)
    requires
        row.says(event, data, side, level_index, level),
    ensures
        hyperliquid_level_kept(row, event, data, side, level_index, level),
{
    let cells = row.cells();
    assert(<HyperliquidBookLevelRow as TableRow>::schema()[0].name == "exchange"@ && cells[0] == CellView::Text(event.exchange@));
    assert(<HyperliquidBookLevelRow as TableRow>::schema()[1].name == "symbol"@ && cells[1] == CellView::Text(event.symbol@));
    assert(<HyperliquidBookLevelRow as TableRow>::schema()[2].name == "received_at"@ && cells[2] == CellView::Text(event.received_at@));
    assert(<HyperliquidBookLevelRow as TableRow>::schema()[3].name == "received_mts"@ && cells[3] == CellView::Int(event.received_mts));
    assert(<HyperliquidBookLevelRow as TableRow>::schema()[4].name == "connection_id"@ && cells[4] == CellView::Text(event.connection_id@));
    assert(<HyperliquidBookLevelRow as TableRow>::schema()[5].name == "channel"@ && cells[5] == CellView::Text(event.channel@));
    assert(<HyperliquidBookLevelRow as TableRow>::schema()[6].name == "coin"@ && cells[6] == scalar_cell(data.field("coin"@)));
    assert(<HyperliquidBookLevelRow as TableRow>::schema()[7].name == "book_timestamp"@ && cells[7] == int_cell(data.field("time"@)));
    assert(<HyperliquidBookLevelRow as TableRow>::schema()[8].name == "snapshot"@ && cells[8] == truth_cell(data.field("snapshot"@)));
    assert(<HyperliquidBookLevelRow as TableRow>::schema()[9].name == "side"@ && cells[9] == CellView::Text(side));
    assert(<HyperliquidBookLevelRow as TableRow>::schema()[10].name == "level_index"@ && cells[10] == CellView::Int(level_index as i64));
    assert(<HyperliquidBookLevelRow as TableRow>::schema()[11].name == "price"@ && cells[11] == scalar_cell(level.field("px"@)));
    assert(<HyperliquidBookLevelRow as TableRow>::schema()[12].name == "size"@ && cells[12] == scalar_cell(level.field("sz"@)));
    assert(<HyperliquidBookLevelRow as TableRow>::schema()[13].name == "order_count"@ && cells[13] == int_cell(level.field("n"@)));
}

/// The levels at a position of the book: the bids come first, then the asks.
pub open spec fn levels_at(data: JsonTree, index: int) -> Seq<JsonTree> {
    match item_below(data, "levels"@, index) {
        Some(JsonTree::Array(levels)) => levels,
        _ => Seq::empty(),
    }
}

/// A book message gives a row for each level: first the bids, marked as bids, then the asks, marked
/// as asks, each numbered on its own side.
pub proof fn hyperliquid_books_keep_their_levels(
    event: &RawWsEventOwned,
    message: &Json,
    rows: Vec<HyperliquidBookLevelRow>,
    data: JsonTree,
    i: int,
)
    requires
        call_ensures(hyperliquid_book_rows_from_message, (event, message), rows),
        message@.field("data"@) == Some(data),
        levels_at(data, 0).len() <= i64::MAX,
        levels_at(data, 1).len() <= i64::MAX,
    ensures
        rows@.len() == levels_at(data, 0).len() + levels_at(data, 1).len(),
        0 <= i < levels_at(data, 0).len() ==> hyperliquid_level_kept(
            rows@[i],
            *event,
            data,
            "bid"@,
            i,
            levels_at(data, 0)[i],
        ),
        0 <= i < levels_at(data, 1).len() ==> hyperliquid_level_kept(
            rows@[levels_at(data, 0).len() + i],
            *event,
            data,
            "ask"@,
            i,
            levels_at(data, 1)[i],
        ),
{
    let bids = levels_at(data, 0);
    let asks = levels_at(data, 1);
    assert(hyperliquid_rows::side_levels(message@, 0) == bids);
    assert(hyperliquid_rows::side_levels(message@, 1) == asks);
    if 0 <= i < bids.len() {
        assert(rows@[0 + i].says(*event, data, "bid"@, i, bids[i]));
        lemma_hyperliquid_level_kept(rows@[i], *event, data, "bid"@, i, bids[i]);
    }
    if 0 <= i < asks.len() {
        let k = bids.len() + i;
        assert(rows@[k].says(*event, data, "ask"@, i, asks[i]));
        lemma_hyperliquid_level_kept(rows@[k], *event, data, "ask"@, i, asks[i]);
    }
}

/// What a control message says of a subscription.
pub open spec fn subscription_field(message: JsonTree, key: Seq<char>) -> Option<JsonTree> {
    match below(message, "data"@, "subscription"@) {
        Some(subscription) => subscription.field(key),
        None => None,
    }
}

/// A control row holds what the message says of itself and of a subscription, and the message whole.
pub open spec fn hyperliquid_control_kept(row: HyperliquidControlRow, event: RawWsEventOwned, message: JsonTree, payload: Seq<char>) -> bool {
    &&& names_event(row, event)
    &&& at(row, "channel"@, CellView::Text(event.channel@))
    &&& keeps(row, message, "event"@)
    &&& at(row, "message_channel"@, scalar_cell(message.field("channel"@)))
    &&& at(row, "method"@, scalar_cell(below(message, "data"@, "method"@)))
    &&& at(row, "subscription_type"@, scalar_cell(subscription_field(message, "type"@)))
    &&& at(row, "coin"@, scalar_cell(subscription_field(message, "coin"@)))
    &&& at(row, "payload_json"@, CellView::Text(payload))
}

/// A row that says what the message says keeps it.
pub proof fn lemma_hyperliquid_control_kept(row: HyperliquidControlRow, event: RawWsEventOwned, message: JsonTree, payload: Seq<char>)
    requires
        row.says(event, message, payload),
    ensures
        hyperliquid_control_kept(row, event, message, payload),
{
    let cells = row.cells();
    assert(<HyperliquidControlRow as TableRow>::schema()[0].name == "exchange"@ && cells[0] == CellView::Text(event.exchange@));
    assert(<HyperliquidControlRow as TableRow>::schema()[1].name == "symbol"@ && cells[1] == CellView::Text(event.symbol@));
    assert(<HyperliquidControlRow as TableRow>::schema()[2].name == "received_at"@ && cells[2] == CellView::Text(event.received_at@));
    assert(<HyperliquidControlRow as TableRow>::schema()[3].name == "received_mts"@ && cells[3] == CellView::Int(event.received_mts));
    assert(<HyperliquidControlRow as TableRow>::schema()[4].name == "connection_id"@ && cells[4] == CellView::Text(event.connection_id@));
    assert(<HyperliquidControlRow as TableRow>::schema()[5].name == "channel"@ && cells[5] == CellView::Text(event.channel@));
    assert(<HyperliquidControlRow as TableRow>::schema()[6].name == "event"@ && cells[6] == scalar_cell(message.field("event"@)));
    assert(<HyperliquidControlRow as TableRow>::schema()[7].name == "message_channel"@ && cells[7] == scalar_cell(message.field("channel"@)));
    assert(<HyperliquidControlRow as TableRow>::schema()[8].name == "method"@ && cells[8] == scalar_cell(below(message, "data"@, "method"@)));
    assert(<HyperliquidControlRow as TableRow>::schema()[9].name == "subscription_type"@ && cells[9] == scalar_cell(subscription_field(message, "type"@)));
    assert(<HyperliquidControlRow as TableRow>::schema()[10].name == "coin"@ && cells[10] == scalar_cell(subscription_field(message, "coin"@)));
    assert(<HyperliquidControlRow as TableRow>::schema()[11].name == "payload_json"@ && cells[11] == CellView::Text(payload));
}

/// A control row keeps its message.
pub proof fn hyperliquid_controls_keep_their_fields(
    event: &RawWsEventOwned,
    message: &Json,
    payload: &str,
    row: HyperliquidControlRow,
)
    requires
        call_ensures(hyperliquid_control_row_from_message, (event, message, payload), row),
    ensures
        hyperliquid_control_kept(row, *event, message@, payload@),
{
    lemma_hyperliquid_control_kept(row, *event, message@, payload@);
}

/// A market with the tokens of wrapped BTC against USDC is followed before any other, the first of
/// them; a market of another name is followed only where none has these tokens. What is subscribed
/// to is the name of the followed market, and it is recorded under the market's symbol.
pub proof fn the_btc_market_is_followed(
    markets: &Vec<SpotMarket>,
    r: Result<HyperliquidSpotTarget, String>,
    i: int,
)
    requires
        call_ensures(resolve_hyperliquid_spot_target, (markets,), r),
        0 <= i < markets@.len(),
    ensures
        markets@[i].base@ == "UBTC"@ && markets@[i].quote@ == "USDC"@ && (forall|k: int|
            0 <= k < i ==> (#[trigger] markets@[k]).base@ != "UBTC"@ || markets@[k].quote@
                != "USDC"@) ==> r is Ok && r->Ok_0.subscription_coin@ == markets@[i].name@
            && r->Ok_0.output_symbol@ == markets@[i].symbol@,
        markets@[i].symbol@ == "BTC/USDC"@ ==> r is Ok,
        r is Ok ==> exists|k: int|
            0 <= k < markets@.len() && r->Ok_0.subscription_coin@ == (
            #[trigger] markets@[k]).name@ && r->Ok_0.output_symbol@ == markets@[k].symbol@ && ((
            markets@[k].base@ == "UBTC"@ && markets@[k].quote@ == "USDC"@) || text::lower(
                markets@[k].symbol@,
            ) == text::lower("BTC/USDC"@) || text::contains(markets@[k].symbol@, "BTC/USDC"@)),
{
    if r is Ok {
        let j = choose|j: int| #[trigger]
            hyperliquid::is_btc_market(markets@, j) && r->Ok_0.subscription_coin@
                == markets@[j].name@ && r->Ok_0.output_symbol@ == markets@[j].symbol@;
        assert(hyperliquid::is_btc_market(markets@, j));
        assert(0 <= j < markets@.len());
        let m = markets@[j];
        if hyperliquid::has_btc_tokens(markets@[i]) && (forall|k: int|
            0 <= k < i ==> (#[trigger] markets@[k]).base@ != "UBTC"@ || markets@[k].quote@
                != "USDC"@) {
            assert(j == i) by {
                let tokens = |m: SpotMarket| hyperliquid::has_btc_tokens(m);
                assert(tokens(markets@[i]));
                if j < i {
                    assert(!hyperliquid::has_btc_tokens(markets@[j]));
                }
            }
        }
    } else {
        let tokens = |m: SpotMarket| hyperliquid::has_btc_tokens(m);
        let symbol = |m: SpotMarket| hyperliquid::has_btc_symbol(m);
        assert(!tokens(markets@[i]));
        assert(!symbol(markets@[i]));
    }
}

/// Where no market has the tokens, the first whose symbol is that of BTC against USDC, in any case,
/// is followed before one that only mentions it.
pub proof fn the_named_market_comes_before_mentions(
    markets: &Vec<SpotMarket>,
    r: Result<HyperliquidSpotTarget, String>,
    i: int,
)
    requires
        call_ensures(resolve_hyperliquid_spot_target, (markets,), r),
        0 <= i < markets@.len(),
        forall|k: int|
            0 <= k < markets@.len() ==> (#[trigger] markets@[k]).base@ != "UBTC"@
                || markets@[k].quote@ != "USDC"@,
        text::lower(markets@[i].symbol@) == text::lower("BTC/USDC"@),
        forall|k: int|
            0 <= k < i ==> text::lower((#[trigger] markets@[k]).symbol@) != text::lower(
                "BTC/USDC"@,
            ),
    ensures
        r is Ok,
        r->Ok_0.subscription_coin@ == markets@[i].name@,
        r->Ok_0.output_symbol@ == markets@[i].symbol@,
{
    let tokens = |m: SpotMarket| hyperliquid::has_btc_tokens(m);
    let symbol = |m: SpotMarket| hyperliquid::has_btc_symbol(m);
    assert(symbol(markets@[i]));
    if r is Ok {
        let j = choose|j: int| #[trigger]
            hyperliquid::is_btc_market(markets@, j) && r->Ok_0.subscription_coin@
                == markets@[j].name@ && r->Ok_0.output_symbol@ == markets@[j].symbol@;
        assert(hyperliquid::is_btc_market(markets@, j));
        assert(!tokens(markets@[j]));
        if j < i {
            assert(!hyperliquid::has_btc_symbol(markets@[j]));
        }
        assert(j == i);
    }
}

/// A coin that is given is followed and recorded under its own name.
pub proof fn given_coins_are_followed(
    coin: &Option<String>,
    target: Option<HyperliquidSpotTarget>,
)
    requires
        call_ensures(configured_hyperliquid_target, (coin,), target),
    ensures
        target is Some <==> coin is Some,
        target is Some ==> target->Some_0.subscription_coin@ == coin->Some_0@
            && target->Some_0.output_symbol@ == coin->Some_0@,
{
}

} // verus!
