//! The table of the trade history.

use vstd::prelude::*;

use crate::calendar;
use crate::decimal::decimal_string;
use crate::table;
use crate::table::Cell;
use crate::table::CellView;
use crate::table::ColumnField;
use crate::table::FieldView;
use crate::table::TableRow;
use crate::table::columns_of;
use crate::table::int_field;
use crate::table::text_cell;
use crate::table::text_field;
use crate::trades::Trade;

verus! {

impl TableRow for Trade {
    open spec fn schema() -> Seq<FieldView> {
        seq![
            table::text_column("exchange"@),
            table::text_column("symbol"@),
            table::int_column("id"@),
            table::int_column("mts"@),
            table::text_column("timestamp"@),
            table::text_column("side"@),
            table::text_column("amount"@),
            table::text_column("amount_abs"@),
            table::text_column("price"@),
        ]
    }

    open spec fn cells(self) -> Seq<CellView> {
        seq![
            CellView::Text(self.exchange@),
            CellView::Text(self.symbol@),
            CellView::Int(self.id),
            CellView::Int(self.mts),
            CellView::Text(calendar::millis_text(self.timestamp.millis() as int)),
            CellView::Text(self.side.name()),
            CellView::Text(self.amount@.normalized().text()),
            CellView::Text(self.amount_abs@.normalized().text()),
            CellView::Text(self.price@.normalized().text()),
        ]
    }

    proof fn cells_fit_schema(self) {
    }

    fn fields() -> (fields: Vec<ColumnField>) {
        let fields: Vec<ColumnField> = vec![
            text_field("exchange"),
            text_field("symbol"),
            int_field("id"),
            int_field("mts"),
            text_field("timestamp"),
            text_field("side"),
            text_field("amount"),
            text_field("amount_abs"),
            text_field("price"),
        ];
        assert(table::field_views(fields@) =~= Self::schema());
        fields
    }

    fn row_cells(&self) -> (cells: Vec<Cell>) {
        let cells: Vec<Cell> = vec![
            text_cell(self.exchange),
            text_cell(self.symbol.as_str()),
            Cell::Int(self.id),
            Cell::Int(self.mts),
            text_cell(self.timestamp.millis_text().as_str()),
            text_cell(self.side.as_str()),
            text_cell(decimal_string(&self.amount).as_str()),
            text_cell(decimal_string(&self.amount_abs).as_str()),
            text_cell(decimal_string(&self.price).as_str()),
        ];
        assert(table::cell_views(cells@) =~= self.cells());
        cells
    }
}

/// The columns of the trade history.
pub fn parquet_schema() -> (fields: Vec<ColumnField>)
    ensures
        table::field_views(fields@) == <Trade as TableRow>::schema(),
{
    <Trade as TableRow>::fields()
}

/// The columns of a list of trades.
pub fn trade_columns(trades: &Vec<Trade>) -> (columns: Vec<Vec<Cell>>)
    ensures
        table::holds_rows(columns@, trades@),
{
    columns_of(trades)
}

} // verus!
