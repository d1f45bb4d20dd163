//! Hyperliquid messages as rows: trades, book levels and control messages.

use vstd::prelude::*;

use crate::events;
use crate::events::NormalizedEventFields;
use crate::events::RawWsEventOwned;
use crate::events::base_event_fields;
use crate::json;
use crate::json::Json;
use crate::json::JsonTree;
use crate::json::json_array_string;
use crate::json::json_field_i64;
use crate::json::json_field_string;
use crate::json::json_pointer_string;
use crate::json::json_value_string;
use crate::sides;
use crate::table;
use crate::table::Cell;
use crate::table::CellView;
use crate::table::ColumnField;
use crate::table::FieldView;
use crate::table::TableRow;
use crate::table::columns_of;
use crate::table::int_field;
use crate::table::opt_bool_cell;
use crate::table::opt_bool_field;
use crate::table::opt_int_cell;
use crate::table::opt_int_field;
use crate::table::opt_text_cell;
use crate::table::opt_text_field;
use crate::table::text_cell;
use crate::table::text_field;

verus! {

/// One trade.
#[derive(Clone, Debug)]
pub struct HyperliquidTradeRow {
    pub base: NormalizedEventFields,
    pub coin: Option<String>,
    pub side: Option<String>,
    pub raw_side: Option<String>,
    pub price: Option<String>,
    pub size: Option<String>,
    pub trade_timestamp: Option<i64>,
    pub hash: Option<String>,
    pub trade_id: Option<i64>,
    pub user_0: Option<String>,
    pub user_1: Option<String>,
}

impl TableRow for HyperliquidTradeRow {
    open spec fn schema() -> Seq<FieldView> {
        events::base_schema() + seq![
            table::opt_text_column("coin"@),
            table::opt_text_column("side"@),
            table::opt_text_column("raw_side"@),
            table::opt_text_column("price"@),
            table::opt_text_column("size"@),
            table::opt_int_column("trade_timestamp"@),
            table::opt_text_column("hash"@),
            table::opt_int_column("trade_id"@),
            table::opt_text_column("user_0"@),
            table::opt_text_column("user_1"@),
        ]
    }

    open spec fn cells(self) -> Seq<CellView> {
        self.base.cells() + seq![
            table::opt_text_view(self.coin),
            table::opt_text_view(self.side),
            table::opt_text_view(self.raw_side),
            table::opt_text_view(self.price),
            table::opt_text_view(self.size),
            table::opt_int_view(self.trade_timestamp),
            table::opt_text_view(self.hash),
            table::opt_int_view(self.trade_id),
            table::opt_text_view(self.user_0),
            table::opt_text_view(self.user_1),
        ]
    }

    proof fn cells_fit_schema(self) {
    }

    fn fields() -> (fields: Vec<ColumnField>) {
        let mut fields = base_event_fields();
        fields.push(opt_text_field("coin"));
        fields.push(opt_text_field("side"));
        fields.push(opt_text_field("raw_side"));
        fields.push(opt_text_field("price"));
        fields.push(opt_text_field("size"));
        fields.push(opt_int_field("trade_timestamp"));
        fields.push(opt_text_field("hash"));
        fields.push(opt_int_field("trade_id"));
        fields.push(opt_text_field("user_0"));
        fields.push(opt_text_field("user_1"));
        assert(table::field_views(fields@) =~= Self::schema());
        fields
    }

    fn row_cells(&self) -> (cells: Vec<Cell>) {
        let mut cells = self.base.base_cells();
        cells.push(opt_text_cell(&self.coin));
        cells.push(opt_text_cell(&self.side));
        cells.push(opt_text_cell(&self.raw_side));
        cells.push(opt_text_cell(&self.price));
        cells.push(opt_text_cell(&self.size));
        cells.push(opt_int_cell(self.trade_timestamp));
        cells.push(opt_text_cell(&self.hash));
        cells.push(opt_int_cell(self.trade_id));
        cells.push(opt_text_cell(&self.user_0));
        cells.push(opt_text_cell(&self.user_1));
        assert(table::cell_views(cells@) =~= self.cells());
        cells
    }
}

/// The columns of the Hyperliquid trades.
pub fn hyperliquid_trade_schema() -> (fields: Vec<ColumnField>)
    ensures
        table::field_views(fields@) == <HyperliquidTradeRow as TableRow>::schema(),
{
    <HyperliquidTradeRow as TableRow>::fields()
}

/// The columns of a list of rows of the Hyperliquid trades.
pub fn hyperliquid_trade_columns(rows: &Vec<HyperliquidTradeRow>) -> (columns: Vec<Vec<Cell>>)
    ensures
        table::holds_rows(columns@, rows@),
{
    columns_of(rows)
}

/// One level of the book.
#[derive(Clone, Debug)]
pub struct HyperliquidBookLevelRow {
    pub base: NormalizedEventFields,
    pub coin: Option<String>,
    pub book_timestamp: Option<i64>,
    pub snapshot: Option<bool>,
    pub side: String,
    pub level_index: i64,
    pub price: Option<String>,
    pub size: Option<String>,
    pub order_count: Option<i64>,
}

impl TableRow for HyperliquidBookLevelRow {
    open spec fn schema() -> Seq<FieldView> {
        events::base_schema() + seq![
            table::opt_text_column("coin"@),
            table::opt_int_column("book_timestamp"@),
            table::opt_bool_column("snapshot"@),
            table::text_column("side"@),
            table::int_column("level_index"@),
            table::opt_text_column("price"@),
            table::opt_text_column("size"@),
            table::opt_int_column("order_count"@),
        ]
    }

    open spec fn cells(self) -> Seq<CellView> {
        self.base.cells() + seq![
            table::opt_text_view(self.coin),
            table::opt_int_view(self.book_timestamp),
            table::opt_bool_view(self.snapshot),
            CellView::Text(self.side@),
            CellView::Int(self.level_index),
            table::opt_text_view(self.price),
            table::opt_text_view(self.size),
            table::opt_int_view(self.order_count),
        ]
    }

    proof fn cells_fit_schema(self) {
    }

    fn fields() -> (fields: Vec<ColumnField>) {
        let mut fields = base_event_fields();
        fields.push(opt_text_field("coin"));
        fields.push(opt_int_field("book_timestamp"));
        fields.push(opt_bool_field("snapshot"));
        fields.push(text_field("side"));
        fields.push(int_field("level_index"));
        fields.push(opt_text_field("price"));
        fields.push(opt_text_field("size"));
        fields.push(opt_int_field("order_count"));
        assert(table::field_views(fields@) =~= Self::schema());
        fields
    }

    fn row_cells(&self) -> (cells: Vec<Cell>) {
        let mut cells = self.base.base_cells();
        cells.push(opt_text_cell(&self.coin));
        cells.push(opt_int_cell(self.book_timestamp));
        cells.push(opt_bool_cell(self.snapshot));
        cells.push(text_cell(self.side.as_str()));
        cells.push(Cell::Int(self.level_index));
        cells.push(opt_text_cell(&self.price));
        cells.push(opt_text_cell(&self.size));
        cells.push(opt_int_cell(self.order_count));
        assert(table::cell_views(cells@) =~= self.cells());
        cells
    }
}

/// The columns of the Hyperliquid book levels.
pub fn hyperliquid_book_schema() -> (fields: Vec<ColumnField>)
    ensures
        table::field_views(fields@) == <HyperliquidBookLevelRow as TableRow>::schema(),
{
    <HyperliquidBookLevelRow as TableRow>::fields()
}

/// The columns of a list of rows of the Hyperliquid book levels.
pub fn hyperliquid_book_columns(rows: &Vec<HyperliquidBookLevelRow>) -> (columns: Vec<Vec<Cell>>)
    ensures
        table::holds_rows(columns@, rows@),
{
    columns_of(rows)
}

/// One control message.
#[derive(Clone, Debug)]
pub struct HyperliquidControlRow {
    pub base: NormalizedEventFields,
    pub event: Option<String>,
    pub message_channel: Option<String>,
    pub method: Option<String>,
    pub subscription_type: Option<String>,
    pub coin: Option<String>,
    pub payload_json: String,
}

impl TableRow for HyperliquidControlRow {
    open spec fn schema() -> Seq<FieldView> {
        events::base_schema() + seq![
            table::opt_text_column("event"@),
            table::opt_text_column("message_channel"@),
            table::opt_text_column("method"@),
            table::opt_text_column("subscription_type"@),
            table::opt_text_column("coin"@),
            table::text_column("payload_json"@),
        ]
    }

    open spec fn cells(self) -> Seq<CellView> {
        self.base.cells() + seq![
            table::opt_text_view(self.event),
            table::opt_text_view(self.message_channel),
            table::opt_text_view(self.method),
            table::opt_text_view(self.subscription_type),
            table::opt_text_view(self.coin),
            CellView::Text(self.payload_json@),
        ]
    }

    proof fn cells_fit_schema(self) {
    }

    fn fields() -> (fields: Vec<ColumnField>) {
        let mut fields = base_event_fields();
        fields.push(opt_text_field("event"));
        fields.push(opt_text_field("message_channel"));
        fields.push(opt_text_field("method"));
        fields.push(opt_text_field("subscription_type"));
        fields.push(opt_text_field("coin"));
        fields.push(text_field("payload_json"));
        assert(table::field_views(fields@) =~= Self::schema());
        fields
    }

    fn row_cells(&self) -> (cells: Vec<Cell>) {
        let mut cells = self.base.base_cells();
        cells.push(opt_text_cell(&self.event));
        cells.push(opt_text_cell(&self.message_channel));
        cells.push(opt_text_cell(&self.method));
        cells.push(opt_text_cell(&self.subscription_type));
        cells.push(opt_text_cell(&self.coin));
        cells.push(text_cell(self.payload_json.as_str()));
        assert(table::cell_views(cells@) =~= self.cells());
        cells
    }
}

/// The columns of the Hyperliquid control messages.
pub fn hyperliquid_control_schema() -> (fields: Vec<ColumnField>)
    ensures
        table::field_views(fields@) == <HyperliquidControlRow as TableRow>::schema(),
{
    <HyperliquidControlRow as TableRow>::fields()
}

/// The columns of a list of rows of the Hyperliquid control messages.
pub fn hyperliquid_control_columns(rows: &Vec<HyperliquidControlRow>) -> (columns: Vec<Vec<Cell>>)
    ensures
        table::holds_rows(columns@, rows@),
{
    columns_of(rows)
}

impl HyperliquidTradeRow {
    /// The row says what a trade says; the side is canonical, beside the venue's token.
    pub open spec fn says(self, event: RawWsEventOwned, trade: JsonTree) -> bool {
        let side = json::scalar_of(trade.field("side"@));
        &&& self.base.taken_from(event)
        &&& json::opt_text(self.coin) == json::scalar_of(trade.field("coin"@))
        &&& json::opt_text(self.side) == sides::canonical_of(side)
        &&& json::opt_text(self.raw_side) == side
        &&& json::opt_text(self.price) == json::scalar_of(trade.field("px"@))
        &&& json::opt_text(self.size) == json::scalar_of(trade.field("sz"@))
        &&& self.trade_timestamp == json::i64_of(trade.field("time"@))
        &&& json::opt_text(self.hash) == json::scalar_of(trade.field("hash"@))
        &&& self.trade_id == json::i64_of(trade.field("tid"@))
        &&& json::opt_text(self.user_0) == json::scalar_of(
            json::item_of(trade.field("users"@), 0),
        )
        &&& json::opt_text(self.user_1) == json::scalar_of(
            json::item_of(trade.field("users"@), 1),
        )
    }
}

/// The scalar text at a position of an array, where there is a value.
fn array_string_of(value: Option<&Json>, index: usize) -> (r: Option<String>)
    ensures
        json::opt_text(r) == json::scalar_of(json::item_of(json::tree_of(value), index as int)),
{
    match value {
        Some(v) => json_array_string(v, index),
        None => None,
    }
}

fn hyperliquid_trade_row_from_value(event: &RawWsEventOwned, trade: &Json) -> (row:
    HyperliquidTradeRow)
    ensures
        row.says(*event, trade@),
{
    let users = trade.get("users");
    let raw_side = json_field_string(trade, "side");
    HyperliquidTradeRow {
        base: NormalizedEventFields::from_raw(event),
        coin: json_field_string(trade, "coin"),
        side: sides::canonical_side_of(&raw_side),
        raw_side,
        price: json_field_string(trade, "px"),
        size: json_field_string(trade, "sz"),
        trade_timestamp: json_field_i64(trade, "time"),
        hash: json_field_string(trade, "hash"),
        trade_id: json_field_i64(trade, "tid"),
        user_0: array_string_of(users, 0),
        user_1: array_string_of(users, 1),
    }
}

/// The trades of a message.
pub open spec fn message_trades(message: JsonTree) -> Seq<JsonTree> {
    match json::array_of(message.field("data"@)) {
        Some(trades) => trades,
        None => Seq::empty(),
    }
}

/// The rows of the trades of a message.
pub fn hyperliquid_trade_rows_from_message(event: &RawWsEventOwned, message: &Json) -> (rows: Vec<
    HyperliquidTradeRow,
>)
    ensures
        rows@.len() == message_trades(message@).len(),
        forall|i: int|
            0 <= i < rows@.len() ==> (#[trigger] rows@[i]).says(
                *event,
                message_trades(message@)[i],
            ),
{
    let mut rows: Vec<HyperliquidTradeRow> = Vec::new();
    let list = match message.get("data") {
        Some(data) => data.as_array(),
        None => None,
    };
    let trades = match list {
        Some(trades) => trades,
        None => return rows,
    };
    let ghost trees = message_trades(message@);
    let mut i: usize = 0;
    while i < trades.len()
        invariant
            i <= trades@.len(),
            trees.len() == trades@.len(),
            forall|j: int| 0 <= j < trees.len() ==> #[trigger] trees[j] == trades@[j]@,
            rows@.len() == i,
            forall|j: int| 0 <= j < i ==> (#[trigger] rows@[j]).says(*event, trees[j]),
        decreases trades@.len() - i,
    {
        assert(trees[i as int] == trades@[i as int]@);
        rows.push(hyperliquid_trade_row_from_value(event, &trades[i]));
        i = i + 1;
    }
    rows
}

impl HyperliquidBookLevelRow {
    /// The row says what a level of one side of the book says.
    pub open spec fn says(
        self,
        event: RawWsEventOwned,
        data: JsonTree,
        side: Seq<char>,
        level_index: int,
        level: JsonTree,
    ) -> bool {
        &&& self.base.taken_from(event)
        &&& json::opt_text(self.coin) == json::scalar_of(data.field("coin"@))
        &&& self.book_timestamp == json::i64_of(data.field("time"@))
        &&& self.snapshot == json::truth_of(data.field("snapshot"@))
        &&& self.side@ == side
        &&& self.level_index == level_index
        &&& json::opt_text(self.price) == json::scalar_of(level.field("px"@))
        &&& json::opt_text(self.size) == json::scalar_of(level.field("sz"@))
        &&& self.order_count == json::i64_of(level.field("n"@))
    }
}

/// The levels of the side at a position of a book message, as far as their positions fit a cell.
pub open spec fn side_levels(message: JsonTree, side_index: int) -> Seq<JsonTree> {
    match json::array_of(
        json::item_of(json::under(message.field("data"@), "levels"@), side_index),
    ) {
        Some(levels) => table::numbered(levels),
        None => Seq::empty(),
    }
}

/// The rows from `from` on say what the levels of one side of the book say.
pub open spec fn side_rows_say(
    rows: Seq<HyperliquidBookLevelRow>,
    from: int,
    event: RawWsEventOwned,
    message: JsonTree,
    side: Seq<char>,
    levels: Seq<JsonTree>,
    count: int,
) -> bool {
    forall|i: int|
        0 <= i < count ==> (#[trigger] rows[from + i]).says(
            event,
            message.field("data"@)->Some_0,
            side,
            i,
            levels[i],
        )
}

fn push_side_rows(
    rows: &mut Vec<HyperliquidBookLevelRow>,
    event: &RawWsEventOwned,
    message: &Json,
    side_index: usize,
    side: &str,
)
    ensures
        final(rows)@.len() == old(rows)@.len() + side_levels(message@, side_index as int).len(),
        final(rows)@.take(old(rows)@.len() as int) == old(rows)@,
        side_rows_say(
            final(rows)@,
            old(rows)@.len() as int,
            *event,
            message@,
            side@,
            side_levels(message@, side_index as int),
            side_levels(message@, side_index as int).len() as int,
        ),
{
    assert(rows@.take(rows@.len() as int) =~= rows@);
    let data = match message.get("data") {
        Some(data) => data,
        None => return ,
    };
    let sides = match data.get("levels") {
        Some(sides) => sides,
        None => return ,
    };
    let list = match sides.at(side_index) {
        Some(levels) => levels.as_array(),
        None => None,
    };
    let levels = match list {
        Some(levels) => levels,
        None => return ,
    };
    let ghost trees = side_levels(message@, side_index as int);
    let ghost start = rows@.len();
    let mut i: usize = 0;
    while i < levels.len() && table::fits_cell(i)
        invariant
            i <= levels@.len(),
            i <= trees.len(),
            message@.field("data"@) == Some(data@),
            trees.len() == if levels@.len() <= i64::MAX + 1 {
                levels@.len() as int
            } else {
                i64::MAX + 1
            },
            forall|j: int| 0 <= j < trees.len() ==> #[trigger] trees[j] == levels@[j]@,
            start == old(rows)@.len(),
            rows@.len() == start + i,
            rows@.take(start as int) == old(rows)@,
            side_rows_say(rows@, start as int, *event, message@, side@, trees, i as int),
        decreases levels@.len() - i,
    {
        let ghost before = rows@;
        assert(trees[i as int] == levels@[i as int]@);
        let level = &levels[i];
        rows.push(
            HyperliquidBookLevelRow {
                base: NormalizedEventFields::from_raw(event),
                coin: json_field_string(data, "coin"),
                book_timestamp: json_field_i64(data, "time"),
                snapshot: json::bool_of(data.get("snapshot")),
                side: side.to_owned(),
                level_index: i as i64,
                price: json_field_string(level, "px"),
                size: json_field_string(level, "sz"),
                order_count: json_field_i64(level, "n"),
            },
        );
        assert(rows@.take(start as int) =~= before.take(start as int));
        assert forall|j: int| 0 <= j < i + 1 implies (#[trigger] rows@[start + j]).says(
            *event,
            message@.field("data"@)->Some_0,
            side@,
            j,
            trees[j],
        ) by {
            if j < i {
                assert(rows@[start + j] == before[start + j]);
            }
        }
        i = i + 1;
    }
}

/// The rows of a book message: the levels of the bid side, then those of the ask side, each with
/// its position on its side.
pub fn hyperliquid_book_rows_from_message(event: &RawWsEventOwned, message: &Json) -> (rows: Vec<
    HyperliquidBookLevelRow,
>)
    ensures
        rows@.len() == side_levels(message@, 0).len() + side_levels(message@, 1).len(),
        side_rows_say(
            rows@,
            0,
            *event,
            message@,
            "bid"@,
            side_levels(message@, 0),
            side_levels(message@, 0).len() as int,
        ),
        side_rows_say(
            rows@,
            side_levels(message@, 0).len() as int,
            *event,
            message@,
            "ask"@,
            side_levels(message@, 1),
            side_levels(message@, 1).len() as int,
        ),
{
    let mut rows: Vec<HyperliquidBookLevelRow> = Vec::new();
    push_side_rows(&mut rows, event, message, 0, "bid");
    let ghost bids = rows@;
    push_side_rows(&mut rows, event, message, 1, "ask");
    assert forall|i: int| 0 <= i < bids.len() implies (#[trigger] rows@[0 + i]).says(
        *event,
        message@.field("data"@)->Some_0,
        "bid"@,
        i,
        side_levels(message@, 0)[i],
    ) by {
        assert(rows@.take(bids.len() as int)[i] == bids[0 + i]);
    }
    rows
}

impl HyperliquidControlRow {
    /// The row says what a control message says, and keeps the message whole.
    pub open spec fn says(self, event: RawWsEventOwned, message: JsonTree, payload: Seq<char>) -> bool {
        let data = message.field("data"@);
        let subscription = json::under(data, "subscription"@);
        &&& self.base.taken_from(event)
        &&& json::opt_text(self.event) == json::scalar_of(message.field("event"@))
        &&& json::opt_text(self.message_channel) == json::scalar_of(message.field("channel"@))
        &&& json::opt_text(self.method) == json::scalar_of(json::under(data, "method"@))
        &&& json::opt_text(self.subscription_type) == json::scalar_of(
            json::under(subscription, "type"@),
        )
        &&& json::opt_text(self.coin) == json::scalar_of(json::under(subscription, "coin"@))
        &&& self.payload_json@ == payload
    }
}

/// The row of a control message, with the message whole.
pub fn hyperliquid_control_row_from_message(
    event: &RawWsEventOwned,
    message: &Json,
    payload: &str,
) -> (row: HyperliquidControlRow)
    ensures
        row.says(*event, message@, payload@),
{
    let subscription = json::get_under(message.get("data"), "subscription");
    HyperliquidControlRow {
        base: NormalizedEventFields::from_raw(event),
        event: json_field_string(message, "event"),
        message_channel: json_field_string(message, "channel"),
        method: json_pointer_string(message, "data", "method"),
        subscription_type: scalar_under(subscription, "type"),
        coin: scalar_under(subscription, "coin"),
        payload_json: payload.to_owned(),
    }
}

/// The scalar text under a key, where there is a value.
fn scalar_under(value: Option<&Json>, key: &str) -> (r: Option<String>)
    ensures
        json::opt_text(r) == json::scalar_of(json::under(json::tree_of(value), key@)),
{
    match json::get_under(value, key) {
        Some(v) => json_value_string(v),
        None => None,
    }
}

} // verus!
