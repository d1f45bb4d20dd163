//! The tables: columns and lines are those of the rows.

use vstd::prelude::*;

use crate::bitfinex_rows::BitfinexBookLevelRow;
use crate::bitfinex_rows::BitfinexTradeRow;
use crate::bitfinex_rows::bitfinex_book_columns;
use crate::bitfinex_rows::bitfinex_book_schema;
use crate::bitfinex_rows::bitfinex_trade_columns;
use crate::bitfinex_rows::bitfinex_trade_schema;
use crate::deribit_rows::DeribitInstrumentRow;
use crate::deribit_rows::DeribitInstrumentStateRow;
use crate::deribit_rows::DeribitQuoteRow;
use crate::deribit_rows::DeribitTradeRow;
use crate::deribit_rows::deribit_instrument_schema;
use crate::deribit_rows::deribit_instrument_state_columns;
use crate::deribit_rows::deribit_instrument_state_schema;
use crate::deribit_rows::deribit_quote_columns;
use crate::deribit_rows::deribit_quote_schema;
use crate::deribit_rows::deribit_trade_columns;
use crate::deribit_rows::deribit_trade_schema;
use crate::hibachi_rows::HibachiBookLevelRow;
use crate::hibachi_rows::HibachiFundingRow;
use crate::hibachi_rows::HibachiPriceRow;
use crate::hibachi_rows::HibachiQuoteRow;
use crate::hibachi_rows::HibachiTradeRow;
use crate::hibachi_rows::hibachi_funding_columns;
use crate::hibachi_rows::hibachi_funding_schema;
use crate::hibachi_rows::hibachi_orderbook_columns;
use crate::hibachi_rows::hibachi_orderbook_schema;
use crate::hibachi_rows::hibachi_price_columns;
use crate::hibachi_rows::hibachi_price_schema;
use crate::hibachi_rows::hibachi_quote_columns;
use crate::hibachi_rows::hibachi_quote_schema;
use crate::hibachi_rows::hibachi_trade_columns;
use crate::hibachi_rows::hibachi_trade_schema;
use crate::hyperliquid_rows::HyperliquidBookLevelRow;
use crate::hyperliquid_rows::HyperliquidControlRow;
use crate::hyperliquid_rows::HyperliquidTradeRow;
use crate::hyperliquid_rows::hyperliquid_book_columns;
use crate::hyperliquid_rows::hyperliquid_book_schema;
use crate::hyperliquid_rows::hyperliquid_control_columns;
use crate::hyperliquid_rows::hyperliquid_control_schema;
use crate::hyperliquid_rows::hyperliquid_trade_columns;
use crate::hyperliquid_rows::hyperliquid_trade_schema;
use crate::table;
use crate::table::Cell;
use crate::table::ColumnField;
use crate::table::ColumnKind;
use crate::table::FieldView;
use crate::table::TableRow;
use crate::trade_table::parquet_schema;
use crate::trade_table::trade_columns;
use crate::trades::Trade;

verus! {

/// The table has the columns of the rows, and in each line the cells of one row, in the order of the
/// rows.
pub open spec fn is_table<R: TableRow>(
    rows: Seq<R>,
    columns: Seq<Vec<Cell>>,
    fields: Seq<ColumnField>,
) -> bool {
    &&& fields.len() == R::schema().len()
    &&& columns.len() == fields.len()
    &&& forall|c: int|
        0 <= c < fields.len() ==> (#[trigger] fields[c]).name@ == R::schema()[c].name
            && fields[c].kind == R::schema()[c].kind && fields[c].nullable
            == R::schema()[c].nullable && columns[c]@.len() == rows.len()
    &&& forall|c: int, r: int|
        0 <= c < columns.len() && 0 <= r < rows.len() ==> (#[trigger] columns[c]@[r])@
            == rows[r].cells()[c]
}

/// The columns at the given positions are always filled, the others may be empty.
pub open spec fn is_filled(schema: Seq<FieldView>, filled: Seq<int>) -> bool {
    forall|c: int|
        0 <= c < schema.len() ==> ((#[trigger] schema[c]).nullable <==> !filled.contains(c))
}

/// The columns of integers and those of truth values; all others hold texts.
pub open spec fn has_kinds(schema: Seq<FieldView>, integers: Seq<int>, truths: Seq<int>) -> bool {
    forall|c: int|
        0 <= c < schema.len() ==> ((#[trigger] schema[c]).kind == ColumnKind::Int64
            <==> integers.contains(c)) && (schema[c].kind == ColumnKind::Boolean
            <==> truths.contains(c))
}

proof fn lemma_fields(fields: Seq<ColumnField>, schema: Seq<FieldView>)
    requires
        table::field_views(fields) == schema,
    ensures
        fields.len() == schema.len(),
        forall|c: int|
            0 <= c < fields.len() ==> (#[trigger] fields[c]).name@ == schema[c].name
                && fields[c].kind == schema[c].kind && fields[c].nullable == schema[c].nullable,
{
    assert forall|c: int| 0 <= c < fields.len() implies (#[trigger] fields[c]).name@
        == schema[c].name && fields[c].kind == schema[c].kind && fields[c].nullable
        == schema[c].nullable by {
        assert(table::field_views(fields)[c] == fields[c]@);
    }
}

/// The table of the trades of Bitfinex has the columns of its rows and holds each row in a line; which columns
/// are always filled and which hold integers or truth values is the same for every row.
#[verifier::rlimit(60)]
pub proof fn bitfinex_trade_tables_hold_their_rows(
    rows: &Vec<BitfinexTradeRow>,
    columns: Vec<Vec<Cell>>,
    fields: Vec<ColumnField>,
)
    requires
        call_ensures(bitfinex_trade_schema, (), fields),
        call_ensures(bitfinex_trade_columns, (rows,), columns),
    ensures
        is_table(rows@, columns@, fields@),
        fields@.len() == 15,
        is_filled(
            <BitfinexTradeRow as TableRow>::schema(),
            seq![0, 1, 2, 3, 4, 5, 7, 8],
        ),
        has_kinds(
            <BitfinexTradeRow as TableRow>::schema(),
            seq![3, 6, 9, 10],
            seq![8],
        ),
{
    let schema = <BitfinexTradeRow as TableRow>::schema();
    let filled: Seq<int> = seq![0, 1, 2, 3, 4, 5, 7, 8];
    let integers: Seq<int> = seq![3, 6, 9, 10];
    let truths: Seq<int> = seq![8];
    lemma_fields(fields@, schema);
    assert(schema[0].nullable == false && schema[0].kind == ColumnKind::Utf8);
    assert(schema[1].nullable == false && schema[1].kind == ColumnKind::Utf8);
    assert(schema[2].nullable == false && schema[2].kind == ColumnKind::Utf8);
    assert(schema[3].nullable == false && schema[3].kind == ColumnKind::Int64);
    assert(schema[4].nullable == false && schema[4].kind == ColumnKind::Utf8);
    assert(schema[5].nullable == false && schema[5].kind == ColumnKind::Utf8);
    assert(schema[6].nullable == true && schema[6].kind == ColumnKind::Int64);
    assert(schema[7].nullable == false && schema[7].kind == ColumnKind::Utf8);
    assert(schema[8].nullable == false && schema[8].kind == ColumnKind::Boolean);
    assert(schema[9].nullable == true && schema[9].kind == ColumnKind::Int64);
    assert(schema[10].nullable == true && schema[10].kind == ColumnKind::Int64);
    assert(schema[11].nullable == true && schema[11].kind == ColumnKind::Utf8);
    assert(schema[12].nullable == true && schema[12].kind == ColumnKind::Utf8);
    assert(schema[13].nullable == true && schema[13].kind == ColumnKind::Utf8);
    assert(schema[14].nullable == true && schema[14].kind == ColumnKind::Utf8);
    assert(filled[0] == 0);
    assert(filled[1] == 1);
    assert(filled[2] == 2);
    assert(filled[3] == 3);
    assert(filled[4] == 4);
    assert(filled[5] == 5);
    assert(filled[6] == 7);
    assert(filled[7] == 8);
    assert(integers[0] == 3);
    assert(integers[1] == 6);
    assert(integers[2] == 9);
    assert(integers[3] == 10);
    assert(truths[0] == 8);
}

/// The table of the book levels of Bitfinex has the columns of its rows and holds each row in a line; which columns
/// are always filled and which hold integers or truth values is the same for every row.
#[verifier::rlimit(60)]
pub proof fn bitfinex_book_tables_hold_their_rows(
    rows: &Vec<BitfinexBookLevelRow>,
    columns: Vec<Vec<Cell>>,
    fields: Vec<ColumnField>,
)
    requires
        call_ensures(bitfinex_book_schema, (), fields),
        call_ensures(bitfinex_book_columns, (rows,), columns),
    ensures
        is_table(rows@, columns@, fields@),
        fields@.len() == 14,
        is_filled(
            <BitfinexBookLevelRow as TableRow>::schema(),
            seq![0, 1, 2, 3, 4, 5, 7],
        ),
        has_kinds(
            <BitfinexBookLevelRow as TableRow>::schema(),
            seq![3, 6, 8, 10],
            Seq::<int>::empty(),
        ),
{
    let schema = <BitfinexBookLevelRow as TableRow>::schema();
    let filled: Seq<int> = seq![0, 1, 2, 3, 4, 5, 7];
    let integers: Seq<int> = seq![3, 6, 8, 10];
    let truths: Seq<int> = Seq::<int>::empty();
    lemma_fields(fields@, schema);
    assert(schema[0].nullable == false && schema[0].kind == ColumnKind::Utf8);
    assert(schema[1].nullable == false && schema[1].kind == ColumnKind::Utf8);
    assert(schema[2].nullable == false && schema[2].kind == ColumnKind::Utf8);
    assert(schema[3].nullable == false && schema[3].kind == ColumnKind::Int64);
    assert(schema[4].nullable == false && schema[4].kind == ColumnKind::Utf8);
    assert(schema[5].nullable == false && schema[5].kind == ColumnKind::Utf8);
    assert(schema[6].nullable == true && schema[6].kind == ColumnKind::Int64);
    assert(schema[7].nullable == false && schema[7].kind == ColumnKind::Utf8);
    assert(schema[8].nullable == true && schema[8].kind == ColumnKind::Int64);
    assert(schema[9].nullable == true && schema[9].kind == ColumnKind::Utf8);
    assert(schema[10].nullable == true && schema[10].kind == ColumnKind::Int64);
    assert(schema[11].nullable == true && schema[11].kind == ColumnKind::Utf8);
    assert(schema[12].nullable == true && schema[12].kind == ColumnKind::Utf8);
    assert(schema[13].nullable == true && schema[13].kind == ColumnKind::Utf8);
    assert(filled[0] == 0);
    assert(filled[1] == 1);
    assert(filled[2] == 2);
    assert(filled[3] == 3);
    assert(filled[4] == 4);
    assert(filled[5] == 5);
    assert(filled[6] == 7);
    assert(integers[0] == 3);
    assert(integers[1] == 6);
    assert(integers[2] == 8);
    assert(integers[3] == 10);
}

/// The table of the tickers of Deribit has the columns of its rows and holds each row in a line; which columns
/// are always filled and which hold integers or truth values is the same for every row.
#[verifier::rlimit(60)]
pub proof fn deribit_quote_tables_hold_their_rows(
    rows: &Vec<DeribitQuoteRow>,
    columns: Vec<Vec<Cell>>,
    fields: Vec<ColumnField>,
)
    requires
        call_ensures(deribit_quote_schema, (), fields),
        call_ensures(deribit_quote_columns, (rows,), columns),
    ensures
        is_table(rows@, columns@, fields@),
        fields@.len() == 45,
        is_filled(
            <DeribitQuoteRow as TableRow>::schema(),
            seq![0, 1, 2, 3, 4, 5, 6],
        ),
        has_kinds(
            <DeribitQuoteRow as TableRow>::schema(),
            seq![3, 8, 12],
            Seq::<int>::empty(),
        ),
{
    let schema = <DeribitQuoteRow as TableRow>::schema();
    let filled: Seq<int> = seq![0, 1, 2, 3, 4, 5, 6];
    let integers: Seq<int> = seq![3, 8, 12];
    let truths: Seq<int> = Seq::<int>::empty();
    lemma_fields(fields@, schema);
    assert(schema[0].nullable == false && schema[0].kind == ColumnKind::Utf8);
    assert(schema[1].nullable == false && schema[1].kind == ColumnKind::Utf8);
    assert(schema[2].nullable == false && schema[2].kind == ColumnKind::Utf8);
    assert(schema[3].nullable == false && schema[3].kind == ColumnKind::Int64);
    assert(schema[4].nullable == false && schema[4].kind == ColumnKind::Utf8);
    assert(schema[5].nullable == false && schema[5].kind == ColumnKind::Utf8);
    assert(schema[6].nullable == false && schema[6].kind == ColumnKind::Utf8);
    assert(schema[7].nullable == true && schema[7].kind == ColumnKind::Utf8);
    assert(schema[8].nullable == true && schema[8].kind == ColumnKind::Int64);
    assert(schema[9].nullable == true && schema[9].kind == ColumnKind::Utf8);
    assert(schema[10].nullable == true && schema[10].kind == ColumnKind::Utf8);
    assert(schema[11].nullable == true && schema[11].kind == ColumnKind::Utf8);
    assert(schema[12].nullable == true && schema[12].kind == ColumnKind::Int64);
    assert(schema[13].nullable == true && schema[13].kind == ColumnKind::Utf8);
    assert(schema[14].nullable == true && schema[14].kind == ColumnKind::Utf8);
    assert(schema[15].nullable == true && schema[15].kind == ColumnKind::Utf8);
    assert(schema[16].nullable == true && schema[16].kind == ColumnKind::Utf8);
    assert(schema[17].nullable == true && schema[17].kind == ColumnKind::Utf8);
    assert(schema[18].nullable == true && schema[18].kind == ColumnKind::Utf8);
    assert(schema[19].nullable == true && schema[19].kind == ColumnKind::Utf8);
    assert(schema[20].nullable == true && schema[20].kind == ColumnKind::Utf8);
    assert(schema[21].nullable == true && schema[21].kind == ColumnKind::Utf8);
    assert(schema[22].nullable == true && schema[22].kind == ColumnKind::Utf8);
    assert(schema[23].nullable == true && schema[23].kind == ColumnKind::Utf8);
    assert(schema[24].nullable == true && schema[24].kind == ColumnKind::Utf8);
    assert(schema[25].nullable == true && schema[25].kind == ColumnKind::Utf8);
    assert(schema[26].nullable == true && schema[26].kind == ColumnKind::Utf8);
    assert(schema[27].nullable == true && schema[27].kind == ColumnKind::Utf8);
    assert(schema[28].nullable == true && schema[28].kind == ColumnKind::Utf8);
    assert(schema[29].nullable == true && schema[29].kind == ColumnKind::Utf8);
    assert(schema[30].nullable == true && schema[30].kind == ColumnKind::Utf8);
    assert(schema[31].nullable == true && schema[31].kind == ColumnKind::Utf8);
    assert(schema[32].nullable == true && schema[32].kind == ColumnKind::Utf8);
    assert(schema[33].nullable == true && schema[33].kind == ColumnKind::Utf8);
    assert(schema[34].nullable == true && schema[34].kind == ColumnKind::Utf8);
    assert(schema[35].nullable == true && schema[35].kind == ColumnKind::Utf8);
    assert(schema[36].nullable == true && schema[36].kind == ColumnKind::Utf8);
    assert(schema[37].nullable == true && schema[37].kind == ColumnKind::Utf8);
    assert(schema[38].nullable == true && schema[38].kind == ColumnKind::Utf8);
    assert(schema[39].nullable == true && schema[39].kind == ColumnKind::Utf8);
    assert(schema[40].nullable == true && schema[40].kind == ColumnKind::Utf8);
    assert(schema[41].nullable == true && schema[41].kind == ColumnKind::Utf8);
    assert(schema[42].nullable == true && schema[42].kind == ColumnKind::Utf8);
    assert(schema[43].nullable == true && schema[43].kind == ColumnKind::Utf8);
    assert(schema[44].nullable == true && schema[44].kind == ColumnKind::Utf8);
    assert(filled[0] == 0);
    assert(filled[1] == 1);
    assert(filled[2] == 2);
    assert(filled[3] == 3);
    assert(filled[4] == 4);
    assert(filled[5] == 5);
    assert(filled[6] == 6);
    assert(integers[0] == 3);
    assert(integers[1] == 8);
    assert(integers[2] == 12);
}

/// The table of the trades of Deribit has the columns of its rows and holds each row in a line; which columns
/// are always filled and which hold integers or truth values is the same for every row.
#[verifier::rlimit(60)]
pub proof fn deribit_trade_tables_hold_their_rows(
    rows: &Vec<DeribitTradeRow>,
    columns: Vec<Vec<Cell>>,
    fields: Vec<ColumnField>,
)
    requires
        call_ensures(deribit_trade_schema, (), fields),
        call_ensures(deribit_trade_columns, (rows,), columns),
    ensures
        is_table(rows@, columns@, fields@),
        fields@.len() == 28,
        is_filled(
            <DeribitTradeRow as TableRow>::schema(),
            seq![0, 1, 2, 3, 4, 5, 6],
        ),
        has_kinds(
            <DeribitTradeRow as TableRow>::schema(),
            seq![3, 8, 12, 14, 16, 27],
            Seq::<int>::empty(),
        ),
{
    let schema = <DeribitTradeRow as TableRow>::schema();
    let filled: Seq<int> = seq![0, 1, 2, 3, 4, 5, 6];
    let integers: Seq<int> = seq![3, 8, 12, 14, 16, 27];
    let truths: Seq<int> = Seq::<int>::empty();
    lemma_fields(fields@, schema);
    assert(schema[0].nullable == false && schema[0].kind == ColumnKind::Utf8);
    assert(schema[1].nullable == false && schema[1].kind == ColumnKind::Utf8);
    assert(schema[2].nullable == false && schema[2].kind == ColumnKind::Utf8);
    assert(schema[3].nullable == false && schema[3].kind == ColumnKind::Int64);
    assert(schema[4].nullable == false && schema[4].kind == ColumnKind::Utf8);
    assert(schema[5].nullable == false && schema[5].kind == ColumnKind::Utf8);
    assert(schema[6].nullable == false && schema[6].kind == ColumnKind::Utf8);
    assert(schema[7].nullable == true && schema[7].kind == ColumnKind::Utf8);
    assert(schema[8].nullable == true && schema[8].kind == ColumnKind::Int64);
    assert(schema[9].nullable == true && schema[9].kind == ColumnKind::Utf8);
    assert(schema[10].nullable == true && schema[10].kind == ColumnKind::Utf8);
    assert(schema[11].nullable == true && schema[11].kind == ColumnKind::Utf8);
    assert(schema[12].nullable == true && schema[12].kind == ColumnKind::Int64);
    assert(schema[13].nullable == true && schema[13].kind == ColumnKind::Utf8);
    assert(schema[14].nullable == true && schema[14].kind == ColumnKind::Int64);
    assert(schema[15].nullable == true && schema[15].kind == ColumnKind::Utf8);
    assert(schema[16].nullable == true && schema[16].kind == ColumnKind::Int64);
    assert(schema[17].nullable == true && schema[17].kind == ColumnKind::Utf8);
    assert(schema[18].nullable == true && schema[18].kind == ColumnKind::Utf8);
    assert(schema[19].nullable == true && schema[19].kind == ColumnKind::Utf8);
    assert(schema[20].nullable == true && schema[20].kind == ColumnKind::Utf8);
    assert(schema[21].nullable == true && schema[21].kind == ColumnKind::Utf8);
    assert(schema[22].nullable == true && schema[22].kind == ColumnKind::Utf8);
    assert(schema[23].nullable == true && schema[23].kind == ColumnKind::Utf8);
    assert(schema[24].nullable == true && schema[24].kind == ColumnKind::Utf8);
    assert(schema[25].nullable == true && schema[25].kind == ColumnKind::Utf8);
    assert(schema[26].nullable == true && schema[26].kind == ColumnKind::Utf8);
    assert(schema[27].nullable == true && schema[27].kind == ColumnKind::Int64);
    assert(filled[0] == 0);
    assert(filled[1] == 1);
    assert(filled[2] == 2);
    assert(filled[3] == 3);
    assert(filled[4] == 4);
    assert(filled[5] == 5);
    assert(filled[6] == 6);
    assert(integers[0] == 3);
    assert(integers[1] == 8);
    assert(integers[2] == 12);
    assert(integers[3] == 14);
    assert(integers[4] == 16);
    assert(integers[5] == 27);
}

/// The table of the instrument states of Deribit has the columns of its rows and holds each row in a line; which columns
/// are always filled and which hold integers or truth values is the same for every row.
#[verifier::rlimit(60)]
pub proof fn deribit_instrument_state_tables_hold_their_rows(
    rows: &Vec<DeribitInstrumentStateRow>,
    columns: Vec<Vec<Cell>>,
    fields: Vec<ColumnField>,
)
    requires
        call_ensures(deribit_instrument_state_schema, (), fields),
        call_ensures(deribit_instrument_state_columns, (rows,), columns),
    ensures
        is_table(rows@, columns@, fields@),
        fields@.len() == 11,
        is_filled(
            <DeribitInstrumentStateRow as TableRow>::schema(),
            seq![0, 1, 2, 3, 4, 5],
        ),
        has_kinds(
            <DeribitInstrumentStateRow as TableRow>::schema(),
            seq![3, 8],
            Seq::<int>::empty(),
        ),
{
    let schema = <DeribitInstrumentStateRow as TableRow>::schema();
    let filled: Seq<int> = seq![0, 1, 2, 3, 4, 5];
    let integers: Seq<int> = seq![3, 8];
    let truths: Seq<int> = Seq::<int>::empty();
    lemma_fields(fields@, schema);
    assert(schema[0].nullable == false && schema[0].kind == ColumnKind::Utf8);
    assert(schema[1].nullable == false && schema[1].kind == ColumnKind::Utf8);
    assert(schema[2].nullable == false && schema[2].kind == ColumnKind::Utf8);
    assert(schema[3].nullable == false && schema[3].kind == ColumnKind::Int64);
    assert(schema[4].nullable == false && schema[4].kind == ColumnKind::Utf8);
    assert(schema[5].nullable == false && schema[5].kind == ColumnKind::Utf8);
    assert(schema[6].nullable == true && schema[6].kind == ColumnKind::Utf8);
    assert(schema[7].nullable == true && schema[7].kind == ColumnKind::Utf8);
    assert(schema[8].nullable == true && schema[8].kind == ColumnKind::Int64);
    assert(schema[9].nullable == true && schema[9].kind == ColumnKind::Utf8);
    assert(schema[10].nullable == true && schema[10].kind == ColumnKind::Utf8);
    assert(filled[0] == 0);
    assert(filled[1] == 1);
    assert(filled[2] == 2);
    assert(filled[3] == 3);
    assert(filled[4] == 4);
    assert(filled[5] == 5);
    assert(integers[0] == 3);
    assert(integers[1] == 8);
}

/// The table of the trades of Hibachi has the columns of its rows and holds each row in a line; which columns
/// are always filled and which hold integers or truth values is the same for every row.
#[verifier::rlimit(60)]
pub proof fn hibachi_trade_tables_hold_their_rows(
    rows: &Vec<HibachiTradeRow>,
    columns: Vec<Vec<Cell>>,
    fields: Vec<ColumnField>,
)
    requires
        call_ensures(hibachi_trade_schema, (), fields),
        call_ensures(hibachi_trade_columns, (rows,), columns),
    ensures
        is_table(rows@, columns@, fields@),
        fields@.len() == 11,
        is_filled(
            <HibachiTradeRow as TableRow>::schema(),
            seq![0, 1, 2, 3, 4, 5],
        ),
        has_kinds(
            <HibachiTradeRow as TableRow>::schema(),
            seq![3, 6],
            Seq::<int>::empty(),
        ),
{
    let schema = <HibachiTradeRow as TableRow>::schema();
    let filled: Seq<int> = seq![0, 1, 2, 3, 4, 5];
    let integers: Seq<int> = seq![3, 6];
    let truths: Seq<int> = Seq::<int>::empty();
    lemma_fields(fields@, schema);
    assert(schema[0].nullable == false && schema[0].kind == ColumnKind::Utf8);
    assert(schema[1].nullable == false && schema[1].kind == ColumnKind::Utf8);
    assert(schema[2].nullable == false && schema[2].kind == ColumnKind::Utf8);
    assert(schema[3].nullable == false && schema[3].kind == ColumnKind::Int64);
    assert(schema[4].nullable == false && schema[4].kind == ColumnKind::Utf8);
    assert(schema[5].nullable == false && schema[5].kind == ColumnKind::Utf8);
    assert(schema[6].nullable == true && schema[6].kind == ColumnKind::Int64);
    assert(schema[7].nullable == true && schema[7].kind == ColumnKind::Utf8);
    assert(schema[8].nullable == true && schema[8].kind == ColumnKind::Utf8);
    assert(schema[9].nullable == true && schema[9].kind == ColumnKind::Utf8);
    assert(schema[10].nullable == true && schema[10].kind == ColumnKind::Utf8);
    assert(filled[0] == 0);
    assert(filled[1] == 1);
    assert(filled[2] == 2);
    assert(filled[3] == 3);
    assert(filled[4] == 4);
    assert(filled[5] == 5);
    assert(integers[0] == 3);
    assert(integers[1] == 6);
}

/// The table of the book levels of Hibachi has the columns of its rows and holds each row in a line; which columns
/// are always filled and which hold integers or truth values is the same for every row.
#[verifier::rlimit(60)]
pub proof fn hibachi_orderbook_tables_hold_their_rows(
    rows: &Vec<HibachiBookLevelRow>,
    columns: Vec<Vec<Cell>>,
    fields: Vec<ColumnField>,
)
    requires
        call_ensures(hibachi_orderbook_schema, (), fields),
        call_ensures(hibachi_orderbook_columns, (rows,), columns),
    ensures
        is_table(rows@, columns@, fields@),
        fields@.len() == 16,
        is_filled(
            <HibachiBookLevelRow as TableRow>::schema(),
            seq![0, 1, 2, 3, 4, 5, 10, 11],
        ),
        has_kinds(
            <HibachiBookLevelRow as TableRow>::schema(),
            seq![3, 7, 8, 11],
            Seq::<int>::empty(),
        ),
{
    let schema = <HibachiBookLevelRow as TableRow>::schema();
    let filled: Seq<int> = seq![0, 1, 2, 3, 4, 5, 10, 11];
    let integers: Seq<int> = seq![3, 7, 8, 11];
    let truths: Seq<int> = Seq::<int>::empty();
    lemma_fields(fields@, schema);
    assert(schema[0].nullable == false && schema[0].kind == ColumnKind::Utf8);
    assert(schema[1].nullable == false && schema[1].kind == ColumnKind::Utf8);
    assert(schema[2].nullable == false && schema[2].kind == ColumnKind::Utf8);
    assert(schema[3].nullable == false && schema[3].kind == ColumnKind::Int64);
    assert(schema[4].nullable == false && schema[4].kind == ColumnKind::Utf8);
    assert(schema[5].nullable == false && schema[5].kind == ColumnKind::Utf8);
    assert(schema[6].nullable == true && schema[6].kind == ColumnKind::Utf8);
    assert(schema[7].nullable == true && schema[7].kind == ColumnKind::Int64);
    assert(schema[8].nullable == true && schema[8].kind == ColumnKind::Int64);
    assert(schema[9].nullable == true && schema[9].kind == ColumnKind::Utf8);
    assert(schema[10].nullable == false && schema[10].kind == ColumnKind::Utf8);
    assert(schema[11].nullable == false && schema[11].kind == ColumnKind::Int64);
    assert(schema[12].nullable == true && schema[12].kind == ColumnKind::Utf8);
    assert(schema[13].nullable == true && schema[13].kind == ColumnKind::Utf8);
    assert(schema[14].nullable == true && schema[14].kind == ColumnKind::Utf8);
    assert(schema[15].nullable == true && schema[15].kind == ColumnKind::Utf8);
    assert(filled[0] == 0);
    assert(filled[1] == 1);
    assert(filled[2] == 2);
    assert(filled[3] == 3);
    assert(filled[4] == 4);
    assert(filled[5] == 5);
    assert(filled[6] == 10);
    assert(filled[7] == 11);
    assert(integers[0] == 3);
    assert(integers[1] == 7);
    assert(integers[2] == 8);
    assert(integers[3] == 11);
}

/// The table of the quotes of Hibachi has the columns of its rows and holds each row in a line; which columns
/// are always filled and which hold integers or truth values is the same for every row.
#[verifier::rlimit(60)]
pub proof fn hibachi_quote_tables_hold_their_rows(
    rows: &Vec<HibachiQuoteRow>,
    columns: Vec<Vec<Cell>>,
    fields: Vec<ColumnField>,
)
    requires
        call_ensures(hibachi_quote_schema, (), fields),
        call_ensures(hibachi_quote_columns, (rows,), columns),
    ensures
        is_table(rows@, columns@, fields@),
        fields@.len() == 10,
        is_filled(
            <HibachiQuoteRow as TableRow>::schema(),
            seq![0, 1, 2, 3, 4, 5],
        ),
        has_kinds(
            <HibachiQuoteRow as TableRow>::schema(),
            seq![3],
            Seq::<int>::empty(),
        ),
{
    let schema = <HibachiQuoteRow as TableRow>::schema();
    let filled: Seq<int> = seq![0, 1, 2, 3, 4, 5];
    let integers: Seq<int> = seq![3];
    let truths: Seq<int> = Seq::<int>::empty();
    lemma_fields(fields@, schema);
    assert(schema[0].nullable == false && schema[0].kind == ColumnKind::Utf8);
    assert(schema[1].nullable == false && schema[1].kind == ColumnKind::Utf8);
    assert(schema[2].nullable == false && schema[2].kind == ColumnKind::Utf8);
    assert(schema[3].nullable == false && schema[3].kind == ColumnKind::Int64);
    assert(schema[4].nullable == false && schema[4].kind == ColumnKind::Utf8);
    assert(schema[5].nullable == false && schema[5].kind == ColumnKind::Utf8);
    assert(schema[6].nullable == true && schema[6].kind == ColumnKind::Utf8);
    assert(schema[7].nullable == true && schema[7].kind == ColumnKind::Utf8);
    assert(schema[8].nullable == true && schema[8].kind == ColumnKind::Utf8);
    assert(schema[9].nullable == true && schema[9].kind == ColumnKind::Utf8);
    assert(filled[0] == 0);
    assert(filled[1] == 1);
    assert(filled[2] == 2);
    assert(filled[3] == 3);
    assert(filled[4] == 4);
    assert(filled[5] == 5);
    assert(integers[0] == 3);
}

/// The table of the prices of Hibachi has the columns of its rows and holds each row in a line; which columns
/// are always filled and which hold integers or truth values is the same for every row.
#[verifier::rlimit(60)]
pub proof fn hibachi_price_tables_hold_their_rows(
    rows: &Vec<HibachiPriceRow>,
    columns: Vec<Vec<Cell>>,
    fields: Vec<ColumnField>,
)
    requires
        call_ensures(hibachi_price_schema, (), fields),
        call_ensures(hibachi_price_columns, (rows,), columns),
    ensures
        is_table(rows@, columns@, fields@),
        fields@.len() == 8,
        is_filled(
            <HibachiPriceRow as TableRow>::schema(),
            seq![0, 1, 2, 3, 4, 5, 6],
        ),
        has_kinds(
            <HibachiPriceRow as TableRow>::schema(),
            seq![3],
            Seq::<int>::empty(),
        ),
{
    let schema = <HibachiPriceRow as TableRow>::schema();
    let filled: Seq<int> = seq![0, 1, 2, 3, 4, 5, 6];
    let integers: Seq<int> = seq![3];
    let truths: Seq<int> = Seq::<int>::empty();
    lemma_fields(fields@, schema);
    assert(schema[0].nullable == false && schema[0].kind == ColumnKind::Utf8);
    assert(schema[1].nullable == false && schema[1].kind == ColumnKind::Utf8);
    assert(schema[2].nullable == false && schema[2].kind == ColumnKind::Utf8);
    assert(schema[3].nullable == false && schema[3].kind == ColumnKind::Int64);
    assert(schema[4].nullable == false && schema[4].kind == ColumnKind::Utf8);
    assert(schema[5].nullable == false && schema[5].kind == ColumnKind::Utf8);
    assert(schema[6].nullable == false && schema[6].kind == ColumnKind::Utf8);
    assert(schema[7].nullable == true && schema[7].kind == ColumnKind::Utf8);
    assert(filled[0] == 0);
    assert(filled[1] == 1);
    assert(filled[2] == 2);
    assert(filled[3] == 3);
    assert(filled[4] == 4);
    assert(filled[5] == 5);
    assert(filled[6] == 6);
    assert(integers[0] == 3);
}

/// The table of the funding estimates of Hibachi has the columns of its rows and holds each row in a line; which columns
/// are always filled and which hold integers or truth values is the same for every row.
#[verifier::rlimit(60)]
pub proof fn hibachi_funding_tables_hold_their_rows(
    rows: &Vec<HibachiFundingRow>,
    columns: Vec<Vec<Cell>>,
    fields: Vec<ColumnField>,
)
    requires
        call_ensures(hibachi_funding_schema, (), fields),
        call_ensures(hibachi_funding_columns, (rows,), columns),
    ensures
        is_table(rows@, columns@, fields@),
        fields@.len() == 8,
        is_filled(
            <HibachiFundingRow as TableRow>::schema(),
            seq![0, 1, 2, 3, 4, 5],
        ),
        has_kinds(
            <HibachiFundingRow as TableRow>::schema(),
            seq![3, 7],
            Seq::<int>::empty(),
        ),
{
    let schema = <HibachiFundingRow as TableRow>::schema();
    let filled: Seq<int> = seq![0, 1, 2, 3, 4, 5];
    let integers: Seq<int> = seq![3, 7];
    let truths: Seq<int> = Seq::<int>::empty();
    lemma_fields(fields@, schema);
    assert(schema[0].nullable == false && schema[0].kind == ColumnKind::Utf8);
    assert(schema[1].nullable == false && schema[1].kind == ColumnKind::Utf8);
    assert(schema[2].nullable == false && schema[2].kind == ColumnKind::Utf8);
    assert(schema[3].nullable == false && schema[3].kind == ColumnKind::Int64);
    assert(schema[4].nullable == false && schema[4].kind == ColumnKind::Utf8);
    assert(schema[5].nullable == false && schema[5].kind == ColumnKind::Utf8);
    assert(schema[6].nullable == true && schema[6].kind == ColumnKind::Utf8);
    assert(schema[7].nullable == true && schema[7].kind == ColumnKind::Int64);
    assert(filled[0] == 0);
    assert(filled[1] == 1);
    assert(filled[2] == 2);
    assert(filled[3] == 3);
    assert(filled[4] == 4);
    assert(filled[5] == 5);
    assert(integers[0] == 3);
    assert(integers[1] == 7);
}

/// The table of the trades of Hyperliquid has the columns of its rows and holds each row in a line; which columns
/// are always filled and which hold integers or truth values is the same for every row.
#[verifier::rlimit(60)]
pub proof fn hyperliquid_trade_tables_hold_their_rows(
    rows: &Vec<HyperliquidTradeRow>,
    columns: Vec<Vec<Cell>>,
    fields: Vec<ColumnField>,
)
    requires
        call_ensures(hyperliquid_trade_schema, (), fields),
        call_ensures(hyperliquid_trade_columns, (rows,), columns),
    ensures
        is_table(rows@, columns@, fields@),
        fields@.len() == 16,
        is_filled(
            <HyperliquidTradeRow as TableRow>::schema(),
            seq![0, 1, 2, 3, 4, 5],
        ),
        has_kinds(
            <HyperliquidTradeRow as TableRow>::schema(),
            seq![3, 11, 13],
            Seq::<int>::empty(),
        ),
{
    let schema = <HyperliquidTradeRow as TableRow>::schema();
    let filled: Seq<int> = seq![0, 1, 2, 3, 4, 5];
    let integers: Seq<int> = seq![3, 11, 13];
    let truths: Seq<int> = Seq::<int>::empty();
    lemma_fields(fields@, schema);
    assert(schema[0].nullable == false && schema[0].kind == ColumnKind::Utf8);
    assert(schema[1].nullable == false && schema[1].kind == ColumnKind::Utf8);
    assert(schema[2].nullable == false && schema[2].kind == ColumnKind::Utf8);
    assert(schema[3].nullable == false && schema[3].kind == ColumnKind::Int64);
    assert(schema[4].nullable == false && schema[4].kind == ColumnKind::Utf8);
    assert(schema[5].nullable == false && schema[5].kind == ColumnKind::Utf8);
    assert(schema[6].nullable == true && schema[6].kind == ColumnKind::Utf8);
    assert(schema[7].nullable == true && schema[7].kind == ColumnKind::Utf8);
    assert(schema[8].nullable == true && schema[8].kind == ColumnKind::Utf8);
    assert(schema[9].nullable == true && schema[9].kind == ColumnKind::Utf8);
    assert(schema[10].nullable == true && schema[10].kind == ColumnKind::Utf8);
    assert(schema[11].nullable == true && schema[11].kind == ColumnKind::Int64);
    assert(schema[12].nullable == true && schema[12].kind == ColumnKind::Utf8);
    assert(schema[13].nullable == true && schema[13].kind == ColumnKind::Int64);
    assert(schema[14].nullable == true && schema[14].kind == ColumnKind::Utf8);
    assert(schema[15].nullable == true && schema[15].kind == ColumnKind::Utf8);
    assert(filled[0] == 0);
    assert(filled[1] == 1);
    assert(filled[2] == 2);
    assert(filled[3] == 3);
    assert(filled[4] == 4);
    assert(filled[5] == 5);
    assert(integers[0] == 3);
    assert(integers[1] == 11);
    assert(integers[2] == 13);
}

/// The table of the book levels of Hyperliquid has the columns of its rows and holds each row in a line; which columns
/// are always filled and which hold integers or truth values is the same for every row.
#[verifier::rlimit(60)]
pub proof fn hyperliquid_book_tables_hold_their_rows(
    rows: &Vec<HyperliquidBookLevelRow>,
    columns: Vec<Vec<Cell>>,
    fields: Vec<ColumnField>,
)
    requires
        call_ensures(hyperliquid_book_schema, (), fields),
        call_ensures(hyperliquid_book_columns, (rows,), columns),
    ensures
        is_table(rows@, columns@, fields@),
        fields@.len() == 14,
        is_filled(
            <HyperliquidBookLevelRow as TableRow>::schema(),
            seq![0, 1, 2, 3, 4, 5, 9, 10],
        ),
        has_kinds(
            <HyperliquidBookLevelRow as TableRow>::schema(),
            seq![3, 7, 10, 13],
            seq![8],
        ),
{
    let schema = <HyperliquidBookLevelRow as TableRow>::schema();
    let filled: Seq<int> = seq![0, 1, 2, 3, 4, 5, 9, 10];
    let integers: Seq<int> = seq![3, 7, 10, 13];
    let truths: Seq<int> = seq![8];
    lemma_fields(fields@, schema);
    assert(schema[0].nullable == false && schema[0].kind == ColumnKind::Utf8);
    assert(schema[1].nullable == false && schema[1].kind == ColumnKind::Utf8);
    assert(schema[2].nullable == false && schema[2].kind == ColumnKind::Utf8);
    assert(schema[3].nullable == false && schema[3].kind == ColumnKind::Int64);
    assert(schema[4].nullable == false && schema[4].kind == ColumnKind::Utf8);
    assert(schema[5].nullable == false && schema[5].kind == ColumnKind::Utf8);
    assert(schema[6].nullable == true && schema[6].kind == ColumnKind::Utf8);
    assert(schema[7].nullable == true && schema[7].kind == ColumnKind::Int64);
    assert(schema[8].nullable == true && schema[8].kind == ColumnKind::Boolean);
    assert(schema[9].nullable == false && schema[9].kind == ColumnKind::Utf8);
    assert(schema[10].nullable == false && schema[10].kind == ColumnKind::Int64);
    assert(schema[11].nullable == true && schema[11].kind == ColumnKind::Utf8);
    assert(schema[12].nullable == true && schema[12].kind == ColumnKind::Utf8);
    assert(schema[13].nullable == true && schema[13].kind == ColumnKind::Int64);
    assert(filled[0] == 0);
    assert(filled[1] == 1);
    assert(filled[2] == 2);
    assert(filled[3] == 3);
    assert(filled[4] == 4);
    assert(filled[5] == 5);
    assert(filled[6] == 9);
    assert(filled[7] == 10);
    assert(integers[0] == 3);
    assert(integers[1] == 7);
    assert(integers[2] == 10);
    assert(integers[3] == 13);
    assert(truths[0] == 8);
}

/// The table of the control messages of Hyperliquid has the columns of its rows and holds each row in a line; which columns
/// are always filled and which hold integers or truth values is the same for every row.
#[verifier::rlimit(60)]
pub proof fn hyperliquid_control_tables_hold_their_rows(
    rows: &Vec<HyperliquidControlRow>,
    columns: Vec<Vec<Cell>>,
    fields: Vec<ColumnField>,
)
    requires
        call_ensures(hyperliquid_control_schema, (), fields),
        call_ensures(hyperliquid_control_columns, (rows,), columns),
    ensures
        is_table(rows@, columns@, fields@),
        fields@.len() == 12,
        is_filled(
            <HyperliquidControlRow as TableRow>::schema(),
            seq![0, 1, 2, 3, 4, 5, 11],
        ),
        has_kinds(
            <HyperliquidControlRow as TableRow>::schema(),
            seq![3],
            Seq::<int>::empty(),
        ),
{
    let schema = <HyperliquidControlRow as TableRow>::schema();
    let filled: Seq<int> = seq![0, 1, 2, 3, 4, 5, 11];
    let integers: Seq<int> = seq![3];
    let truths: Seq<int> = Seq::<int>::empty();
    lemma_fields(fields@, schema);
    assert(schema[0].nullable == false && schema[0].kind == ColumnKind::Utf8);
    assert(schema[1].nullable == false && schema[1].kind == ColumnKind::Utf8);
    assert(schema[2].nullable == false && schema[2].kind == ColumnKind::Utf8);
    assert(schema[3].nullable == false && schema[3].kind == ColumnKind::Int64);
    assert(schema[4].nullable == false && schema[4].kind == ColumnKind::Utf8);
    assert(schema[5].nullable == false && schema[5].kind == ColumnKind::Utf8);
    assert(schema[6].nullable == true && schema[6].kind == ColumnKind::Utf8);
    assert(schema[7].nullable == true && schema[7].kind == ColumnKind::Utf8);
    assert(schema[8].nullable == true && schema[8].kind == ColumnKind::Utf8);
    assert(schema[9].nullable == true && schema[9].kind == ColumnKind::Utf8);
    assert(schema[10].nullable == true && schema[10].kind == ColumnKind::Utf8);
    assert(schema[11].nullable == false && schema[11].kind == ColumnKind::Utf8);
    assert(filled[0] == 0);
    assert(filled[1] == 1);
    assert(filled[2] == 2);
    assert(filled[3] == 3);
    assert(filled[4] == 4);
    assert(filled[5] == 5);
    assert(filled[6] == 11);
    assert(integers[0] == 3);
}

/// The table of the trade history has the columns of its rows and holds each row in a line; which columns
/// are always filled and which hold integers or truth values is the same for every row.
#[verifier::rlimit(60)]
pub proof fn history_tables_hold_their_rows(
    rows: &Vec<Trade>,
    columns: Vec<Vec<Cell>>,
    fields: Vec<ColumnField>,
)
    requires
        call_ensures(parquet_schema, (), fields),
        call_ensures(trade_columns, (rows,), columns),
    ensures
        is_table(rows@, columns@, fields@),
        fields@.len() == 9,
        is_filled(
            <Trade as TableRow>::schema(),
            seq![0, 1, 2, 3, 4, 5, 6, 7, 8],
        ),
        has_kinds(
            <Trade as TableRow>::schema(),
            seq![2, 3],
            Seq::<int>::empty(),
        ),
{
    let schema = <Trade as TableRow>::schema();
    let filled: Seq<int> = seq![0, 1, 2, 3, 4, 5, 6, 7, 8];
    let integers: Seq<int> = seq![2, 3];
    let truths: Seq<int> = Seq::<int>::empty();
    lemma_fields(fields@, schema);
    assert(schema[0].nullable == false && schema[0].kind == ColumnKind::Utf8);
    assert(schema[1].nullable == false && schema[1].kind == ColumnKind::Utf8);
    assert(schema[2].nullable == false && schema[2].kind == ColumnKind::Int64);
    assert(schema[3].nullable == false && schema[3].kind == ColumnKind::Int64);
    assert(schema[4].nullable == false && schema[4].kind == ColumnKind::Utf8);
    assert(schema[5].nullable == false && schema[5].kind == ColumnKind::Utf8);
    assert(schema[6].nullable == false && schema[6].kind == ColumnKind::Utf8);
    assert(schema[7].nullable == false && schema[7].kind == ColumnKind::Utf8);
    assert(schema[8].nullable == false && schema[8].kind == ColumnKind::Utf8);
    assert(filled[0] == 0);
    assert(filled[1] == 1);
    assert(filled[2] == 2);
    assert(filled[3] == 3);
    assert(filled[4] == 4);
    assert(filled[5] == 5);
    assert(filled[6] == 6);
    assert(filled[7] == 7);
    assert(filled[8] == 8);
    assert(integers[0] == 2);
    assert(integers[1] == 3);
}

/// The table of the instruments of Deribit has the columns of its rows and holds each row in a line; which columns
/// are always filled and which hold integers or truth values is the same for every row.
#[verifier::rlimit(60)]
pub proof fn deribit_instrument_tables_hold_their_rows(
    fields: Vec<ColumnField>,
)
    requires
        call_ensures(deribit_instrument_schema, (), fields),
    ensures
        table::field_views(fields@) == <DeribitInstrumentRow<'static> as TableRow>::schema(),
        fields@.len() == 21,
        is_filled(
            <DeribitInstrumentRow<'static> as TableRow>::schema(),
            seq![0, 1, 2],
        ),
        has_kinds(
            <DeribitInstrumentRow<'static> as TableRow>::schema(),
            seq![17, 18, 19],
            seq![20],
        ),
{
    let schema = <DeribitInstrumentRow<'static> as TableRow>::schema();
    let filled: Seq<int> = seq![0, 1, 2];
    let integers: Seq<int> = seq![17, 18, 19];
    let truths: Seq<int> = seq![20];
    lemma_fields(fields@, schema);
    assert(schema[0].nullable == false && schema[0].kind == ColumnKind::Utf8);
    assert(schema[1].nullable == false && schema[1].kind == ColumnKind::Utf8);
    assert(schema[2].nullable == false && schema[2].kind == ColumnKind::Utf8);
    assert(schema[3].nullable == true && schema[3].kind == ColumnKind::Utf8);
    assert(schema[4].nullable == true && schema[4].kind == ColumnKind::Utf8);
    assert(schema[5].nullable == true && schema[5].kind == ColumnKind::Utf8);
    assert(schema[6].nullable == true && schema[6].kind == ColumnKind::Utf8);
    assert(schema[7].nullable == true && schema[7].kind == ColumnKind::Utf8);
    assert(schema[8].nullable == true && schema[8].kind == ColumnKind::Utf8);
    assert(schema[9].nullable == true && schema[9].kind == ColumnKind::Utf8);
    assert(schema[10].nullable == true && schema[10].kind == ColumnKind::Utf8);
    assert(schema[11].nullable == true && schema[11].kind == ColumnKind::Utf8);
    assert(schema[12].nullable == true && schema[12].kind == ColumnKind::Utf8);
    assert(schema[13].nullable == true && schema[13].kind == ColumnKind::Utf8);
    assert(schema[14].nullable == true && schema[14].kind == ColumnKind::Utf8);
    assert(schema[15].nullable == true && schema[15].kind == ColumnKind::Utf8);
    assert(schema[16].nullable == true && schema[16].kind == ColumnKind::Utf8);
    assert(schema[17].nullable == true && schema[17].kind == ColumnKind::Int64);
    assert(schema[18].nullable == true && schema[18].kind == ColumnKind::Int64);
    assert(schema[19].nullable == true && schema[19].kind == ColumnKind::Int64);
    assert(schema[20].nullable == true && schema[20].kind == ColumnKind::Boolean);
    assert(filled[0] == 0);
    assert(filled[1] == 1);
    assert(filled[2] == 2);
    assert(integers[0] == 17);
    assert(integers[1] == 18);
    assert(integers[2] == 19);
    assert(truths[0] == 20);
}

} // verus!
