//! Hibachi messages as rows, split by topic.

use vstd::prelude::*;

use crate::events;
use crate::events::NormalizedEventFields;
use crate::events::RawWsEventOwned;
use crate::events::base_event_fields;
use crate::json;
use crate::json::Json;
use crate::json::JsonTree;
use crate::json::json_field_i64;
use crate::json::json_field_string;
use crate::sides;
use crate::table;
use crate::table::Cell;
use crate::table::CellView;
use crate::table::ColumnField;
use crate::table::FieldView;
use crate::table::TableRow;
use crate::table::columns_of;
use crate::table::int_field;
use crate::table::opt_int_cell;
use crate::table::opt_int_field;
use crate::table::opt_text_cell;
use crate::table::opt_text_field;
use crate::table::text_cell;
use crate::table::text_field;
use crate::text::same_text;

verus! {

/// One trade.
#[derive(Clone, Debug)]
pub struct HibachiTradeRow {
    pub base: NormalizedEventFields,
    pub trade_timestamp: Option<i64>,
    pub taker_side: Option<String>,
    pub raw_taker_side: Option<String>,
    pub price: Option<String>,
    pub quantity: Option<String>,
}

impl TableRow for HibachiTradeRow {
    open spec fn schema() -> Seq<FieldView> {
        events::base_schema() + seq![
            table::opt_int_column("trade_timestamp"@),
            table::opt_text_column("taker_side"@),
            table::opt_text_column("raw_taker_side"@),
            table::opt_text_column("price"@),
            table::opt_text_column("quantity"@),
        ]
    }

    open spec fn cells(self) -> Seq<CellView> {
        self.base.cells() + seq![
            table::opt_int_view(self.trade_timestamp),
            table::opt_text_view(self.taker_side),
            table::opt_text_view(self.raw_taker_side),
            table::opt_text_view(self.price),
            table::opt_text_view(self.quantity),
        ]
    }

    proof fn cells_fit_schema(self) {
    }

    fn fields() -> (fields: Vec<ColumnField>) {
        let mut fields = base_event_fields();
        fields.push(opt_int_field("trade_timestamp"));
        fields.push(opt_text_field("taker_side"));
        fields.push(opt_text_field("raw_taker_side"));
        fields.push(opt_text_field("price"));
        fields.push(opt_text_field("quantity"));
        assert(table::field_views(fields@) =~= Self::schema());
        fields
    }

    fn row_cells(&self) -> (cells: Vec<Cell>) {
        let mut cells = self.base.base_cells();
        cells.push(opt_int_cell(self.trade_timestamp));
        cells.push(opt_text_cell(&self.taker_side));
        cells.push(opt_text_cell(&self.raw_taker_side));
        cells.push(opt_text_cell(&self.price));
        cells.push(opt_text_cell(&self.quantity));
        assert(table::cell_views(cells@) =~= self.cells());
        cells
    }
}

/// The columns of the Hibachi trades.
pub fn hibachi_trade_schema() -> (fields: Vec<ColumnField>)
    ensures
        table::field_views(fields@) == <HibachiTradeRow as TableRow>::schema(),
{
    <HibachiTradeRow as TableRow>::fields()
}

/// The columns of a list of rows of the Hibachi trades.
pub fn hibachi_trade_columns(rows: &Vec<HibachiTradeRow>) -> (columns: Vec<Vec<Cell>>)
    ensures
        table::holds_rows(columns@, rows@),
{
    columns_of(rows)
}

/// One level of the order book.
#[derive(Clone, Debug)]
pub struct HibachiBookLevelRow {
    pub base: NormalizedEventFields,
    pub message_type: Option<String>,
    pub book_timestamp_ms: Option<i64>,
    pub depth: Option<i64>,
    pub granularity: Option<String>,
    pub side: String,
    pub level_index: i64,
    pub price: Option<String>,
    pub quantity: Option<String>,
    pub start_price: Option<String>,
    pub end_price: Option<String>,
}

impl TableRow for HibachiBookLevelRow {
    open spec fn schema() -> Seq<FieldView> {
        events::base_schema() + seq![
            table::opt_text_column("message_type"@),
            table::opt_int_column("book_timestamp_ms"@),
            table::opt_int_column("depth"@),
            table::opt_text_column("granularity"@),
            table::text_column("side"@),
            table::int_column("level_index"@),
            table::opt_text_column("price"@),
            table::opt_text_column("quantity"@),
            table::opt_text_column("start_price"@),
            table::opt_text_column("end_price"@),
        ]
    }

    open spec fn cells(self) -> Seq<CellView> {
        self.base.cells() + seq![
            table::opt_text_view(self.message_type),
            table::opt_int_view(self.book_timestamp_ms),
            table::opt_int_view(self.depth),
            table::opt_text_view(self.granularity),
            CellView::Text(self.side@),
            CellView::Int(self.level_index),
            table::opt_text_view(self.price),
            table::opt_text_view(self.quantity),
            table::opt_text_view(self.start_price),
            table::opt_text_view(self.end_price),
        ]
    }

    proof fn cells_fit_schema(self) {
    }

    fn fields() -> (fields: Vec<ColumnField>) {
        let mut fields = base_event_fields();
        fields.push(opt_text_field("message_type"));
        fields.push(opt_int_field("book_timestamp_ms"));
        fields.push(opt_int_field("depth"));
        fields.push(opt_text_field("granularity"));
        fields.push(text_field("side"));
        fields.push(int_field("level_index"));
        fields.push(opt_text_field("price"));
        fields.push(opt_text_field("quantity"));
        fields.push(opt_text_field("start_price"));
        fields.push(opt_text_field("end_price"));
        assert(table::field_views(fields@) =~= Self::schema());
        fields
    }

    fn row_cells(&self) -> (cells: Vec<Cell>) {
        let mut cells = self.base.base_cells();
        cells.push(opt_text_cell(&self.message_type));
        cells.push(opt_int_cell(self.book_timestamp_ms));
        cells.push(opt_int_cell(self.depth));
        cells.push(opt_text_cell(&self.granularity));
        cells.push(text_cell(self.side.as_str()));
        cells.push(Cell::Int(self.level_index));
        cells.push(opt_text_cell(&self.price));
        cells.push(opt_text_cell(&self.quantity));
        cells.push(opt_text_cell(&self.start_price));
        cells.push(opt_text_cell(&self.end_price));
        assert(table::cell_views(cells@) =~= self.cells());
        cells
    }
}

/// The columns of the Hibachi order book levels.
pub fn hibachi_orderbook_schema() -> (fields: Vec<ColumnField>)
    ensures
        table::field_views(fields@) == <HibachiBookLevelRow as TableRow>::schema(),
{
    <HibachiBookLevelRow as TableRow>::fields()
}

/// The columns of a list of rows of the Hibachi order book levels.
pub fn hibachi_orderbook_columns(rows: &Vec<HibachiBookLevelRow>) -> (columns: Vec<Vec<Cell>>)
    ensures
        table::holds_rows(columns@, rows@),
{
    columns_of(rows)
}

/// The best bid and ask.
#[derive(Clone, Debug)]
pub struct HibachiQuoteRow {
    pub base: NormalizedEventFields,
    pub bid_price: Option<String>,
    pub bid_size: Option<String>,
    pub ask_price: Option<String>,
    pub ask_size: Option<String>,
}

impl TableRow for HibachiQuoteRow {
    open spec fn schema() -> Seq<FieldView> {
        events::base_schema() + seq![
            table::opt_text_column("bid_price"@),
            table::opt_text_column("bid_size"@),
            table::opt_text_column("ask_price"@),
            table::opt_text_column("ask_size"@),
        ]
    }

    open spec fn cells(self) -> Seq<CellView> {
        self.base.cells() + seq![
            table::opt_text_view(self.bid_price),
            table::opt_text_view(self.bid_size),
            table::opt_text_view(self.ask_price),
            table::opt_text_view(self.ask_size),
        ]
    }

    proof fn cells_fit_schema(self) {
    }

    fn fields() -> (fields: Vec<ColumnField>) {
        let mut fields = base_event_fields();
        fields.push(opt_text_field("bid_price"));
        fields.push(opt_text_field("bid_size"));
        fields.push(opt_text_field("ask_price"));
        fields.push(opt_text_field("ask_size"));
        assert(table::field_views(fields@) =~= Self::schema());
        fields
    }

    fn row_cells(&self) -> (cells: Vec<Cell>) {
        let mut cells = self.base.base_cells();
        cells.push(opt_text_cell(&self.bid_price));
        cells.push(opt_text_cell(&self.bid_size));
        cells.push(opt_text_cell(&self.ask_price));
        cells.push(opt_text_cell(&self.ask_size));
        assert(table::cell_views(cells@) =~= self.cells());
        cells
    }
}

/// The columns of the Hibachi quotes.
pub fn hibachi_quote_schema() -> (fields: Vec<ColumnField>)
    ensures
        table::field_views(fields@) == <HibachiQuoteRow as TableRow>::schema(),
{
    <HibachiQuoteRow as TableRow>::fields()
}

/// The columns of a list of rows of the Hibachi quotes.
pub fn hibachi_quote_columns(rows: &Vec<HibachiQuoteRow>) -> (columns: Vec<Vec<Cell>>)
    ensures
        table::holds_rows(columns@, rows@),
{
    columns_of(rows)
}

/// A mark or spot price.
#[derive(Clone, Debug)]
pub struct HibachiPriceRow {
    pub base: NormalizedEventFields,
    pub price_type: String,
    pub price: Option<String>,
}

impl TableRow for HibachiPriceRow {
    open spec fn schema() -> Seq<FieldView> {
        events::base_schema() + seq![
            table::text_column("price_type"@),
            table::opt_text_column("price"@),
        ]
    }

    open spec fn cells(self) -> Seq<CellView> {
        self.base.cells() + seq![
            CellView::Text(self.price_type@),
            table::opt_text_view(self.price),
        ]
    }

    proof fn cells_fit_schema(self) {
    }

    fn fields() -> (fields: Vec<ColumnField>) {
        let mut fields = base_event_fields();
        fields.push(text_field("price_type"));
        fields.push(opt_text_field("price"));
        assert(table::field_views(fields@) =~= Self::schema());
        fields
    }

    fn row_cells(&self) -> (cells: Vec<Cell>) {
        let mut cells = self.base.base_cells();
        cells.push(text_cell(self.price_type.as_str()));
        cells.push(opt_text_cell(&self.price));
        assert(table::cell_views(cells@) =~= self.cells());
        cells
    }
}

/// The columns of the Hibachi prices.
pub fn hibachi_price_schema() -> (fields: Vec<ColumnField>)
    ensures
        table::field_views(fields@) == <HibachiPriceRow as TableRow>::schema(),
{
    <HibachiPriceRow as TableRow>::fields()
}

/// The columns of a list of rows of the Hibachi prices.
pub fn hibachi_price_columns(rows: &Vec<HibachiPriceRow>) -> (columns: Vec<Vec<Cell>>)
    ensures
        table::holds_rows(columns@, rows@),
{
    columns_of(rows)
}

/// An estimate of the funding rate.
#[derive(Clone, Debug)]
pub struct HibachiFundingRow {
    pub base: NormalizedEventFields,
    pub estimated_funding_rate: Option<String>,
    pub next_funding_timestamp: Option<i64>,
}

impl TableRow for HibachiFundingRow {
    open spec fn schema() -> Seq<FieldView> {
        events::base_schema() + seq![
            table::opt_text_column("estimated_funding_rate"@),
            table::opt_int_column("next_funding_timestamp"@),
        ]
    }

    open spec fn cells(self) -> Seq<CellView> {
        self.base.cells() + seq![
            table::opt_text_view(self.estimated_funding_rate),
            table::opt_int_view(self.next_funding_timestamp),
        ]
    }

    proof fn cells_fit_schema(self) {
    }

    fn fields() -> (fields: Vec<ColumnField>) {
        let mut fields = base_event_fields();
        fields.push(opt_text_field("estimated_funding_rate"));
        fields.push(opt_int_field("next_funding_timestamp"));
        assert(table::field_views(fields@) =~= Self::schema());
        fields
    }

    fn row_cells(&self) -> (cells: Vec<Cell>) {
        let mut cells = self.base.base_cells();
        cells.push(opt_text_cell(&self.estimated_funding_rate));
        cells.push(opt_int_cell(self.next_funding_timestamp));
        assert(table::cell_views(cells@) =~= self.cells());
        cells
    }
}

/// The columns of the Hibachi funding rates.
pub fn hibachi_funding_schema() -> (fields: Vec<ColumnField>)
    ensures
        table::field_views(fields@) == <HibachiFundingRow as TableRow>::schema(),
{
    <HibachiFundingRow as TableRow>::fields()
}

/// The columns of a list of rows of the Hibachi funding rates.
pub fn hibachi_funding_columns(rows: &Vec<HibachiFundingRow>) -> (columns: Vec<Vec<Cell>>)
    ensures
        table::holds_rows(columns@, rows@),
{
    columns_of(rows)
}

impl HibachiTradeRow {
    /// The row says what a trade says; the taker's side is canonical, beside the venue's token.
    pub open spec fn says(self, event: RawWsEventOwned, trade: JsonTree) -> bool {
        let side = json::scalar_of(trade.field("takerSide"@));
        &&& self.base.taken_from(event)
        &&& self.trade_timestamp == json::i64_of(trade.field("timestamp"@))
        &&& json::opt_text(self.taker_side) == sides::canonical_of(side)
        &&& json::opt_text(self.raw_taker_side) == side
        &&& json::opt_text(self.price) == json::scalar_of(trade.field("price"@))
        &&& json::opt_text(self.quantity) == json::scalar_of(trade.field("quantity"@))
    }
}

/// The row of a trade message; there is one where the message holds a trade.
pub fn hibachi_trade_row_from_message(event: &RawWsEventOwned, message: &Json) -> (row: Option<
    HibachiTradeRow,
>)
    ensures
        match json::under(message@.field("data"@), "trade"@) {
            None => row is None,
            Some(trade) => row is Some && row->Some_0.says(*event, trade),
        },
{
    let trade = match json::get_under(message.get("data"), "trade") {
        Some(trade) => trade,
        None => return None,
    };
    let raw_taker_side = json_field_string(trade, "takerSide");
    Some(
        HibachiTradeRow {
            base: NormalizedEventFields::from_raw(event),
            trade_timestamp: json_field_i64(trade, "timestamp"),
            taker_side: sides::canonical_side_of(&raw_taker_side),
            raw_taker_side,
            price: json_field_string(trade, "price"),
            quantity: json_field_string(trade, "quantity"),
        },
    )
}

impl HibachiBookLevelRow {
    /// The row says what a level of one side of the book says.
    pub open spec fn says(
        self,
        event: RawWsEventOwned,
        message: JsonTree,
        side: Seq<char>,
        book_side: JsonTree,
        level_index: int,
        level: JsonTree,
    ) -> bool {
        &&& self.base.taken_from(event)
        &&& json::opt_text(self.message_type) == json::scalar_of(message.field("messageType"@))
        &&& self.book_timestamp_ms == json::i64_of(message.field("timestamp_ms"@))
        &&& self.depth == json::i64_of(message.field("depth"@))
        &&& json::opt_text(self.granularity) == json::scalar_of(message.field("granularity"@))
        &&& self.side@ == side
        &&& self.level_index == level_index
        &&& json::opt_text(self.price) == json::scalar_of(level.field("price"@))
        &&& json::opt_text(self.quantity) == json::scalar_of(level.field("quantity"@))
        &&& json::opt_text(self.start_price) == json::scalar_of(book_side.field("startPrice"@))
        &&& json::opt_text(self.end_price) == json::scalar_of(book_side.field("endPrice"@))
    }
}

/// The levels of one side of a book, as far as their positions fit a cell.
pub open spec fn side_levels(book_side: Option<JsonTree>) -> Seq<JsonTree> {
    match json::array_of(json::under(book_side, "levels"@)) {
        Some(levels) => table::numbered(levels),
        None => Seq::empty(),
    }
}

/// The rows from `from` on say what the levels of one side of the book say.
pub open spec fn side_rows_say(
    rows: Seq<HibachiBookLevelRow>,
    from: int,
    event: RawWsEventOwned,
    message: JsonTree,
    side: Seq<char>,
    book_side: Option<JsonTree>,
    count: int,
) -> bool {
    forall|i: int|
        0 <= i < count ==> (#[trigger] rows[from + i]).says(
            event,
            message,
            side,
            book_side->Some_0,
            i,
            side_levels(book_side)[i],
        )
}

fn push_side_rows(
    rows: &mut Vec<HibachiBookLevelRow>,
    event: &RawWsEventOwned,
    message: &Json,
    side: &str,
    book_side: Option<&Json>,
)
    ensures
        final(rows)@.len() == old(rows)@.len() + side_levels(json::tree_of(book_side)).len(),
        final(rows)@.take(old(rows)@.len() as int) == old(rows)@,
        side_rows_say(
            final(rows)@,
            old(rows)@.len() as int,
            *event,
            message@,
            side@,
            json::tree_of(book_side),
            side_levels(json::tree_of(book_side)).len() as int,
        ),
{
    assert(rows@.take(rows@.len() as int) =~= rows@);
    let found = match book_side {
        Some(found) => found,
        None => return ,
    };
    let list = match found.get("levels") {
        Some(value) => value.as_array(),
        None => None,
    };
    let levels = match list {
        Some(levels) => levels,
        None => return ,
    };
    let ghost trees = side_levels(json::tree_of(book_side));
    let ghost start = rows@.len();
    let mut i: usize = 0;
    while i < levels.len() && table::fits_cell(i)
        invariant
            i <= levels@.len(),
            i <= trees.len(),
            book_side == Some(found),
            trees == side_levels(json::tree_of(book_side)),
            trees.len() == if levels@.len() <= i64::MAX + 1 {
                levels@.len() as int
            } else {
                i64::MAX + 1
            },
            forall|j: int| 0 <= j < trees.len() ==> #[trigger] trees[j] == levels@[j]@,
            start == old(rows)@.len(),
            rows@.len() == start + i,
            rows@.take(start as int) == old(rows)@,
            side_rows_say(
                rows@,
                start as int,
                *event,
                message@,
                side@,
                json::tree_of(book_side),
                i as int,
            ),
        decreases levels@.len() - i,
    {
        let ghost before = rows@;
        assert(trees[i as int] == levels@[i as int]@);
        let level = &levels[i];
        rows.push(
            HibachiBookLevelRow {
                base: NormalizedEventFields::from_raw(event),
                message_type: json_field_string(message, "messageType"),
                book_timestamp_ms: json_field_i64(message, "timestamp_ms"),
                depth: json_field_i64(message, "depth"),
                granularity: json_field_string(message, "granularity"),
                side: side.to_owned(),
                level_index: i as i64,
                price: json_field_string(level, "price"),
                quantity: json_field_string(level, "quantity"),
                start_price: json_field_string(found, "startPrice"),
                end_price: json_field_string(found, "endPrice"),
            },
        );
        assert(rows@.take(start as int) =~= before.take(start as int));
        assert forall|j: int| 0 <= j < i + 1 implies (#[trigger] rows@[start + j]).says(
            *event,
            message@,
            side@,
            json::tree_of(book_side)->Some_0,
            j,
            trees[j],
        ) by {
            if j < i {
                assert(rows@[start + j] == before[start + j]);
            }
        }
        i = i + 1;
    }
}

/// The bid side of a book message.
pub open spec fn bid_side(message: JsonTree) -> Option<JsonTree> {
    json::under(message.field("data"@), "bid"@)
}

/// The ask side of a book message.
pub open spec fn ask_side(message: JsonTree) -> Option<JsonTree> {
    json::under(message.field("data"@), "ask"@)
}

/// The rows of a book message: the levels of the bid side, then those of the ask side, each with
/// its position on its side.
pub fn hibachi_orderbook_rows_from_message(event: &RawWsEventOwned, message: &Json) -> (rows: Vec<
    HibachiBookLevelRow,
>)
    ensures
        rows@.len() == side_levels(bid_side(message@)).len() + side_levels(ask_side(message@)).len(),
        side_rows_say(
            rows@,
            0,
            *event,
            message@,
            "bid"@,
            bid_side(message@),
            side_levels(bid_side(message@)).len() as int,
        ),
        side_rows_say(
            rows@,
            side_levels(bid_side(message@)).len() as int,
            *event,
            message@,
            "ask"@,
            ask_side(message@),
            side_levels(ask_side(message@)).len() as int,
        ),
{
    let mut rows: Vec<HibachiBookLevelRow> = Vec::new();
    let bid = json::get_under(message.get("data"), "bid");
    push_side_rows(&mut rows, event, message, "bid", bid);
    let ghost bids = rows@;
    let ask = json::get_under(message.get("data"), "ask");
    push_side_rows(&mut rows, event, message, "ask", ask);
    assert forall|i: int| 0 <= i < bids.len() implies (#[trigger] rows@[0 + i]).says(
        *event,
        message@,
        "bid"@,
        bid_side(message@)->Some_0,
        i,
        side_levels(bid_side(message@))[i],
    ) by {
        assert(rows@.take(bids.len() as int)[i] == bids[0 + i]);
    }
    rows
}

impl HibachiQuoteRow {
    /// The row says what the data of a quote say.
    pub open spec fn says(self, event: RawWsEventOwned, data: JsonTree) -> bool {
        &&& self.base.taken_from(event)
        &&& json::opt_text(self.bid_price) == json::scalar_of(data.field("bidPrice"@))
        &&& json::opt_text(self.bid_size) == json::scalar_of(data.field("bidSize"@))
        &&& json::opt_text(self.ask_price) == json::scalar_of(data.field("askPrice"@))
        &&& json::opt_text(self.ask_size) == json::scalar_of(data.field("askSize"@))
    }
}

/// The row of a quote message; there is one where it has data.
pub fn hibachi_quote_row_from_message(event: &RawWsEventOwned, message: &Json) -> (row: Option<
    HibachiQuoteRow,
>)
    ensures
        match message@.field("data"@) {
            None => row is None,
            Some(data) => row is Some && row->Some_0.says(*event, data),
        },
{
    let data = match message.get("data") {
        Some(data) => data,
        None => return None,
    };
    Some(
        HibachiQuoteRow {
            base: NormalizedEventFields::from_raw(event),
            bid_price: json_field_string(data, "bidPrice"),
            bid_size: json_field_string(data, "bidSize"),
            ask_price: json_field_string(data, "askPrice"),
            ask_size: json_field_string(data, "askSize"),
        },
    )
}

/// The price that the data of a price topic hold.
pub open spec fn topic_price(topic: Seq<char>, data: JsonTree) -> Option<Seq<char>> {
    if topic == "mark_price"@ {
        json::scalar_of(data.field("markPrice"@))
    } else if topic == "spot_price"@ {
        json::scalar_of(data.field("spotPrice"@))
    } else {
        None
    }
}

impl HibachiPriceRow {
    /// The row says what the data of a price topic say.
    pub open spec fn says(self, event: RawWsEventOwned, topic: Seq<char>, data: JsonTree) -> bool {
        &&& self.base.taken_from(event)
        &&& self.price_type@ == topic
        &&& json::opt_text(self.price) == topic_price(topic, data)
    }
}

/// The row of a price message, named by its topic; there is one where the message has a topic and
/// data.
pub fn hibachi_price_row_from_message(event: &RawWsEventOwned, message: &Json) -> (row: Option<
    HibachiPriceRow,
>)
    ensures
        match (json::string_of(message@.field("topic"@)), message@.field("data"@)) {
            (Some(topic), Some(data)) => row is Some && row->Some_0.says(*event, topic, data),
            _ => row is None,
        },
{
    let topic = match json::str_of(message.get("topic")) {
        Some(topic) => topic,
        None => return None,
    };
    let data = match message.get("data") {
        Some(data) => data,
        None => return None,
    };
    let price = if same_text(topic, "mark_price") {
        json_field_string(data, "markPrice")
    } else if same_text(topic, "spot_price") {
        json_field_string(data, "spotPrice")
    } else {
        None
    };
    Some(
        HibachiPriceRow {
            base: NormalizedEventFields::from_raw(event),
            price_type: topic.to_owned(),
            price,
        },
    )
}

impl HibachiFundingRow {
    /// The row says what an estimate says.
    pub open spec fn says(self, event: RawWsEventOwned, funding: JsonTree) -> bool {
        &&& self.base.taken_from(event)
        &&& json::opt_text(self.estimated_funding_rate) == json::scalar_of(
            funding.field("estimatedFundingRate"@),
        )
        &&& self.next_funding_timestamp == json::i64_of(funding.field("nextFundingTimestamp"@))
    }
}

/// The row of a funding message; there is one where the message holds an estimate.
pub fn hibachi_funding_row_from_message(event: &RawWsEventOwned, message: &Json) -> (row: Option<
    HibachiFundingRow,
>)
    ensures
        match json::under(message@.field("data"@), "fundingRateEstimation"@) {
            None => row is None,
            Some(funding) => row is Some && row->Some_0.says(*event, funding),
        },
{
    let funding = match json::get_under(message.get("data"), "fundingRateEstimation") {
        Some(funding) => funding,
        None => return None,
    };
    Some(
        HibachiFundingRow {
            base: NormalizedEventFields::from_raw(event),
            estimated_funding_rate: json_field_string(funding, "estimatedFundingRate"),
            next_funding_timestamp: json_field_i64(funding, "nextFundingTimestamp"),
        },
    )
}

/// The datasets of the Hibachi stream.
#[derive(Clone, Copy, Debug, PartialEq, Eq, Structural)]
pub enum HibachiDataset {
    Trades,
    Orderbook,
    Quotes,
    Prices,
    Funding,
}

/// The dataset to which the messages of a topic belong.
pub open spec fn dataset_of(topic: Option<Seq<char>>) -> Option<HibachiDataset> {
    match topic {
        Some(t) => if t == "trades"@ {
            Some(HibachiDataset::Trades)
        } else if t == "orderbook"@ {
            Some(HibachiDataset::Orderbook)
        } else if t == "ask_bid_price"@ {
            Some(HibachiDataset::Quotes)
        } else if t == "mark_price"@ || t == "spot_price"@ {
            Some(HibachiDataset::Prices)
        } else if t == "funding_rate_estimation"@ {
            Some(HibachiDataset::Funding)
        } else {
            None
        },
        None => None,
    }
}

/// The dataset to which a message belongs, by its topic.
pub fn hibachi_dataset(message: &Json) -> (dataset: Option<HibachiDataset>)
    ensures
        dataset == dataset_of(json::string_of(message@.field("topic"@))),
{
    match json::str_of(message.get("topic")) {
        Some(topic) => if same_text(topic, "trades") {
            Some(HibachiDataset::Trades)
        } else if same_text(topic, "orderbook") {
            Some(HibachiDataset::Orderbook)
        } else if same_text(topic, "ask_bid_price") {
            Some(HibachiDataset::Quotes)
        } else if same_text(topic, "mark_price") || same_text(topic, "spot_price") {
            Some(HibachiDataset::Prices)
        } else if same_text(topic, "funding_rate_estimation") {
            Some(HibachiDataset::Funding)
        } else {
            None
        },
        None => None,
    }
}

} // verus!
