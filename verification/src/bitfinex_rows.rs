//! Bitfinex messages as rows: trades and book levels.

use vstd::prelude::*;

use crate::events;
use crate::events::NormalizedEventFields;
use crate::events::RawWsEventOwned;
use crate::events::base_event_fields;
use crate::json;
use crate::json::Json;
use crate::json::JsonTree;
use crate::json::json_array_i64;
use crate::json::json_array_string;
use crate::sides;
use crate::table;
use crate::table::Cell;
use crate::table::CellView;
use crate::table::ColumnField;
use crate::table::FieldView;
use crate::table::TableRow;
use crate::table::bool_field;
use crate::table::columns_of;
use crate::table::opt_int_cell;
use crate::table::opt_int_field;
use crate::table::opt_text_cell;
use crate::table::opt_text_field;
use crate::table::text_cell;
use crate::table::text_field;
use crate::text::same_text;

verus! {

/// One trade of a message.
#[derive(Clone, Debug)]
pub struct BitfinexTradeRow {
    pub base: NormalizedEventFields,
    pub bitfinex_channel_id: Option<i64>,
    pub event_type: String,
    pub is_final: bool,
    pub trade_id: Option<i64>,
    pub trade_mts: Option<i64>,
    pub side: Option<String>,
    pub amount: Option<String>,
    pub amount_abs: Option<String>,
    pub price: Option<String>,
}

impl TableRow for BitfinexTradeRow {
    open spec fn schema() -> Seq<FieldView> {
        events::base_schema() + seq![
            table::opt_int_column("bitfinex_channel_id"@),
            table::text_column("event_type"@),
            table::bool_column("is_final"@),
            table::opt_int_column("trade_id"@),
            table::opt_int_column("trade_mts"@),
            table::opt_text_column("side"@),
            table::opt_text_column("amount"@),
            table::opt_text_column("amount_abs"@),
            table::opt_text_column("price"@),
        ]
    }

    open spec fn cells(self) -> Seq<CellView> {
        self.base.cells() + seq![
            table::opt_int_view(self.bitfinex_channel_id),
            CellView::Text(self.event_type@),
            CellView::Bool(self.is_final),
            table::opt_int_view(self.trade_id),
            table::opt_int_view(self.trade_mts),
            table::opt_text_view(self.side),
            table::opt_text_view(self.amount),
            table::opt_text_view(self.amount_abs),
            table::opt_text_view(self.price),
        ]
    }

    proof fn cells_fit_schema(self) {
    }

    fn fields() -> (fields: Vec<ColumnField>) {
        let mut fields = base_event_fields();
        fields.push(opt_int_field("bitfinex_channel_id"));
        fields.push(text_field("event_type"));
        fields.push(bool_field("is_final"));
        fields.push(opt_int_field("trade_id"));
        fields.push(opt_int_field("trade_mts"));
        fields.push(opt_text_field("side"));
        fields.push(opt_text_field("amount"));
        fields.push(opt_text_field("amount_abs"));
        fields.push(opt_text_field("price"));
        assert(table::field_views(fields@) =~= Self::schema());
        fields
    }

    fn row_cells(&self) -> (cells: Vec<Cell>) {
        let mut cells = self.base.base_cells();
        cells.push(opt_int_cell(self.bitfinex_channel_id));
        cells.push(text_cell(self.event_type.as_str()));
        cells.push(Cell::Bool(self.is_final));
        cells.push(opt_int_cell(self.trade_id));
        cells.push(opt_int_cell(self.trade_mts));
        cells.push(opt_text_cell(&self.side));
        cells.push(opt_text_cell(&self.amount));
        cells.push(opt_text_cell(&self.amount_abs));
        cells.push(opt_text_cell(&self.price));
        assert(table::cell_views(cells@) =~= self.cells());
        cells
    }
}

/// The columns of the Bitfinex trades.
pub fn bitfinex_trade_schema() -> (fields: Vec<ColumnField>)
    ensures
        table::field_views(fields@) == <BitfinexTradeRow as TableRow>::schema(),
{
    <BitfinexTradeRow as TableRow>::fields()
}

/// The columns of a list of rows of the Bitfinex trades.
pub fn bitfinex_trade_columns(rows: &Vec<BitfinexTradeRow>) -> (columns: Vec<Vec<Cell>>)
    ensures
        table::holds_rows(columns@, rows@),
{
    columns_of(rows)
}

/// One level of a book message.
#[derive(Clone, Debug)]
pub struct BitfinexBookLevelRow {
    pub base: NormalizedEventFields,
    pub bitfinex_channel_id: Option<i64>,
    pub event_type: String,
    pub level_index: Option<i64>,
    pub price: Option<String>,
    pub count: Option<i64>,
    pub amount: Option<String>,
    pub amount_abs: Option<String>,
    pub side: Option<String>,
}

impl TableRow for BitfinexBookLevelRow {
    open spec fn schema() -> Seq<FieldView> {
        events::base_schema() + seq![
            table::opt_int_column("bitfinex_channel_id"@),
            table::text_column("event_type"@),
            table::opt_int_column("level_index"@),
            table::opt_text_column("price"@),
            table::opt_int_column("count"@),
            table::opt_text_column("amount"@),
            table::opt_text_column("amount_abs"@),
            table::opt_text_column("side"@),
        ]
    }

    open spec fn cells(self) -> Seq<CellView> {
        self.base.cells() + seq![
            table::opt_int_view(self.bitfinex_channel_id),
            CellView::Text(self.event_type@),
            table::opt_int_view(self.level_index),
            table::opt_text_view(self.price),
            table::opt_int_view(self.count),
            table::opt_text_view(self.amount),
            table::opt_text_view(self.amount_abs),
            table::opt_text_view(self.side),
        ]
    }

    proof fn cells_fit_schema(self) {
    }

    fn fields() -> (fields: Vec<ColumnField>) {
        let mut fields = base_event_fields();
        fields.push(opt_int_field("bitfinex_channel_id"));
        fields.push(text_field("event_type"));
        fields.push(opt_int_field("level_index"));
        fields.push(opt_text_field("price"));
        fields.push(opt_int_field("count"));
        fields.push(opt_text_field("amount"));
        fields.push(opt_text_field("amount_abs"));
        fields.push(opt_text_field("side"));
        assert(table::field_views(fields@) =~= Self::schema());
        fields
    }

    fn row_cells(&self) -> (cells: Vec<Cell>) {
        let mut cells = self.base.base_cells();
        cells.push(opt_int_cell(self.bitfinex_channel_id));
        cells.push(text_cell(self.event_type.as_str()));
        cells.push(opt_int_cell(self.level_index));
        cells.push(opt_text_cell(&self.price));
        cells.push(opt_int_cell(self.count));
        cells.push(opt_text_cell(&self.amount));
        cells.push(opt_text_cell(&self.amount_abs));
        cells.push(opt_text_cell(&self.side));
        assert(table::cell_views(cells@) =~= self.cells());
        cells
    }
}

/// The columns of the Bitfinex book levels.
pub fn bitfinex_book_schema() -> (fields: Vec<ColumnField>)
    ensures
        table::field_views(fields@) == <BitfinexBookLevelRow as TableRow>::schema(),
{
    <BitfinexBookLevelRow as TableRow>::fields()
}

/// The columns of a list of rows of the Bitfinex book levels.
pub fn bitfinex_book_columns(rows: &Vec<BitfinexBookLevelRow>) -> (columns: Vec<Vec<Cell>>)
    ensures
        table::holds_rows(columns@, rows@),
{
    columns_of(rows)
}

impl BitfinexTradeRow {
    /// The row says what a trade of a message says. It is final where it comes from a snapshot or
    /// is an update; the side and the absolute amount follow from the signed amount.
    pub open spec fn says(
        self,
        event: RawWsEventOwned,
        channel_id: Option<i64>,
        event_type: Seq<char>,
        trade: JsonTree,
    ) -> bool {
        let amount = json::scalar_of(trade.item(2));
        &&& self.base.taken_from(event)
        &&& self.bitfinex_channel_id == channel_id
        &&& self.event_type@ == event_type
        &&& self.is_final == (event_type == "snapshot"@ || event_type == "tu"@)
        &&& self.trade_id == json::i64_of(trade.item(0))
        &&& self.trade_mts == json::i64_of(trade.item(1))
        &&& json::opt_text(self.side) == sides::amount_side(amount, "buy"@, "sell"@)
        &&& json::opt_text(self.amount) == amount
        &&& json::opt_text(self.amount_abs) == sides::abs_of(amount)
        &&& json::opt_text(self.price) == json::scalar_of(trade.item(3))
    }
}

fn as_opt_str(contents: &Option<String>) -> (r: Option<&str>)
    ensures
        json::opt_str(r) == json::opt_text(*contents),
{
    match contents {
        Some(s) => Some(s.as_str()),
        None => None,
    }
}

/// The row of a trade.
pub fn bitfinex_trade_row_from_value(
    event: &RawWsEventOwned,
    channel_id: Option<i64>,
    event_type: &str,
    trade: &Json,
) -> (row: BitfinexTradeRow)
    ensures
        row.says(*event, channel_id, event_type@, trade@),
{
    let amount = json_array_string(trade, 2);
    BitfinexTradeRow {
        base: NormalizedEventFields::from_raw(event),
        bitfinex_channel_id: channel_id,
        event_type: event_type.to_owned(),
        is_final: same_text(event_type, "snapshot") || same_text(event_type, "tu"),
        trade_id: json_array_i64(trade, 0),
        trade_mts: json_array_i64(trade, 1),
        side: sides::signed_amount_side(as_opt_str(&amount), "buy", "sell"),
        amount_abs: sides::abs_decimal_of(&amount),
        amount,
        price: json_array_string(trade, 3),
    }
}

/// The items of a snapshot: a list whose first item is a list itself.
pub open spec fn snapshot_items(payload: JsonTree) -> Option<Seq<JsonTree>> {
    match payload {
        JsonTree::Array(items) => if items.len() > 0 && items[0] is Array {
            Some(items)
        } else {
            None
        },
        _ => None,
    }
}

/// What a message of a Bitfinex channel brings: entries under an event type.
pub open spec fn trade_entries(message: JsonTree) -> (Seq<char>, Seq<JsonTree>) {
    match message.item(1) {
        None => (""@, Seq::empty()),
        Some(payload) => match snapshot_items(payload) {
            Some(items) => ("snapshot"@, items),
            None => match (payload.string(), message.item(2)) {
                (Some(event_type), Some(trade)) => if event_type == "hb"@ {
                    (""@, Seq::empty())
                } else {
                    (event_type, seq![trade])
                },
                _ => (""@, Seq::empty()),
            },
        },
    }
}

/// Where a payload is a snapshot, its items.
fn snapshot_of(payload: &Json) -> (items: Option<&Vec<Json>>)
    ensures
        match items {
            Some(v) => snapshot_items(payload@) matches Some(trees) && trees.len() == v@.len() && (
            forall|i: int| 0 <= i < v@.len() ==> #[trigger] trees[i] == v@[i]@),
            None => snapshot_items(payload@) is None,
        },
{
    match payload.as_array() {
        Some(items) => {
            if items.len() == 0 {
                return None;
            }
            assert(payload@->Array_0[0] == items@[0]@);
            match &items[0] {
                Json::Array(_) => Some(items),
                _ => None,
            }
        },
        None => None,
    }
}

/// Each row says what its entry says.
pub open spec fn trade_rows_say(
    rows: Seq<BitfinexTradeRow>,
    event: RawWsEventOwned,
    channel_id: Option<i64>,
    event_type: Seq<char>,
    entries: Seq<JsonTree>,
) -> bool {
    &&& rows.len() == entries.len()
    &&& forall|i: int|
        0 <= i < rows.len() ==> (#[trigger] rows[i]).says(event, channel_id, event_type, entries[i])
}

/// The rows of the trades of a message: those of a snapshot, or the one under the name of an event,
/// such as an execution or update; none of a heartbeat.
pub fn bitfinex_trade_rows_from_message(event: &RawWsEventOwned, message: &Json) -> (rows: Vec<
    BitfinexTradeRow,
>)
    ensures
        trade_rows_say(
            rows@,
            *event,
            json::i64_of(message@.item(0)),
            trade_entries(message@).0,
            trade_entries(message@).1,
        ),
{
    let mut rows: Vec<BitfinexTradeRow> = Vec::new();
    let channel_id = json_array_i64(message, 0);
    let payload = match message.at(1) {
        Some(payload) => payload,
        None => return rows,
    };
    if let Some(trades) = snapshot_of(payload) {
        let ghost trees = trade_entries(message@).1;
        let mut i: usize = 0;
        while i < trades.len()
            invariant
                i <= trades@.len(),
                trees.len() == trades@.len(),
                forall|j: int| 0 <= j < trees.len() ==> #[trigger] trees[j] == trades@[j]@,
                trade_rows_say(rows@, *event, channel_id, "snapshot"@, trees.take(i as int)),
            decreases trades@.len() - i,
        {
            assert(trees[i as int] == trades@[i as int]@);
            rows.push(bitfinex_trade_row_from_value(event, channel_id, "snapshot", &trades[i]));
            i = i + 1;
        }
        assert(trees.take(i as int) =~= trees);
        return rows;
    }
    let event_type = match payload.as_str() {
        Some(event_type) => event_type,
        None => return rows,
    };
    if same_text(event_type, "hb") {
        return rows;
    }
    let trade = match message.at(2) {
        Some(trade) => trade,
        None => return rows,
    };
    rows.push(bitfinex_trade_row_from_value(event, channel_id, event_type, trade));
    rows
}

impl BitfinexBookLevelRow {
    /// The row says what a level of a message says; the side and the absolute amount follow from
    /// the signed amount.
    pub open spec fn says(
        self,
        event: RawWsEventOwned,
        channel_id: Option<i64>,
        event_type: Seq<char>,
        level_index: Option<i64>,
        level: JsonTree,
    ) -> bool {
        let amount = json::scalar_of(level.item(2));
        &&& self.base.taken_from(event)
        &&& self.bitfinex_channel_id == channel_id
        &&& self.event_type@ == event_type
        &&& self.level_index == level_index
        &&& json::opt_text(self.price) == json::scalar_of(level.item(0))
        &&& self.count == json::i64_of(level.item(1))
        &&& json::opt_text(self.amount) == amount
        &&& json::opt_text(self.amount_abs) == sides::abs_of(amount)
        &&& json::opt_text(self.side) == sides::amount_side(amount, "bid"@, "ask"@)
    }
}

/// The row of a book level.
pub fn bitfinex_book_row_from_value(
    event: &RawWsEventOwned,
    channel_id: Option<i64>,
    event_type: &str,
    level_index: Option<i64>,
    level: &Json,
) -> (row: BitfinexBookLevelRow)
    ensures
        row.says(*event, channel_id, event_type@, level_index, level@),
{
    let amount = json_array_string(level, 2);
    BitfinexBookLevelRow {
        base: NormalizedEventFields::from_raw(event),
        bitfinex_channel_id: channel_id,
        event_type: event_type.to_owned(),
        level_index,
        price: json_array_string(level, 0),
        count: json_array_i64(level, 1),
        side: sides::signed_amount_side(as_opt_str(&amount), "bid", "ask"),
        amount_abs: sides::abs_decimal_of(&amount),
        amount,
    }
}

/// The levels that a book message brings, under an event type: those of a snapshot, or the one of
/// an update; none where the payload is an empty list or no list, as that of a heartbeat.
pub open spec fn book_entries(message: JsonTree) -> (Seq<char>, Seq<JsonTree>) {
    match message.item(1) {
        None => (""@, Seq::empty()),
        Some(payload) => match snapshot_items(payload) {
            Some(items) => ("snapshot"@, items),
            None => match payload {
                JsonTree::Array(items) => if items.len() > 0 {
                    ("update"@, seq![payload])
                } else {
                    (""@, Seq::empty())
                },
                _ => (""@, Seq::empty()),
            },
        },
    }
}

/// The position as a cell holds it; there is none beyond the integers of a cell.
pub open spec fn index_cell(index: int) -> Option<i64> {
    if index <= i64::MAX {
        Some(index as i64)
    } else {
        None
    }
}

fn index_of(index: usize) -> (r: Option<i64>)
    ensures
        r == index_cell(index as int),
{
    if table::fits_cell(index) {
        Some(index as i64)
    } else {
        None
    }
}

/// Each row says what its level says, with its position in the message.
pub open spec fn book_rows_say(
    rows: Seq<BitfinexBookLevelRow>,
    event: RawWsEventOwned,
    channel_id: Option<i64>,
    event_type: Seq<char>,
    levels: Seq<JsonTree>,
) -> bool {
    &&& rows.len() == levels.len()
    &&& forall|i: int|
        0 <= i < rows.len() ==> (#[trigger] rows[i]).says(
            event,
            channel_id,
            event_type,
            index_cell(i),
            levels[i],
        )
}

/// The rows of the levels of a book message: one for each level.
pub fn bitfinex_book_rows_from_message(event: &RawWsEventOwned, message: &Json) -> (rows: Vec<
    BitfinexBookLevelRow,
>)
    ensures
        book_rows_say(
            rows@,
            *event,
            json::i64_of(message@.item(0)),
            book_entries(message@).0,
            book_entries(message@).1,
        ),
{
    let mut rows: Vec<BitfinexBookLevelRow> = Vec::new();
    let channel_id = json_array_i64(message, 0);
    let payload = match message.at(1) {
        Some(payload) => payload,
        None => return rows,
    };
    if let Some(levels) = snapshot_of(payload) {
        let ghost trees = book_entries(message@).1;
        let mut i: usize = 0;
        while i < levels.len()
            invariant
                i <= levels@.len(),
                trees.len() == levels@.len(),
                forall|j: int| 0 <= j < trees.len() ==> #[trigger] trees[j] == levels@[j]@,
                book_rows_say(rows@, *event, channel_id, "snapshot"@, trees.take(i as int)),
            decreases levels@.len() - i,
        {
            assert(trees[i as int] == levels@[i as int]@);
            let level_index = index_of(i);
            rows.push(
                bitfinex_book_row_from_value(
                    event,
                    channel_id,
                    "snapshot",
                    level_index,
                    &levels[i],
                ),
            );
            i = i + 1;
        }
        assert(trees.take(i as int) =~= trees);
        return rows;
    }
    if let Some(level) = payload.as_array() {
        if level.len() > 0 {
            rows.push(
                bitfinex_book_row_from_value(event, channel_id, "update", Some(0), payload),
            );
        }
    }
    rows
}

} // verus!
