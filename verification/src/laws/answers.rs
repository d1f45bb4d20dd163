//! Reading an answer of the trade history: each row is a trade, read position by position.

use vstd::prelude::*;

use crate::calendar;
use crate::decimal::DecimalParts;
use crate::decimal;
use crate::history::TradesResponse;
use crate::history::is_bitfinex_rate_limit_body;
use crate::history::read_trades_response;
use crate::history::retry_after;
use crate::history;
use crate::json::Json;
use crate::json::JsonTree;
use crate::text::IntError;
use crate::text;
use crate::trades::Trade;
use crate::trades::TradeSide;
use crate::trades::parse_decimal;
use crate::trades::parse_i64;
use crate::trades::parse_trade;
use crate::trades::trade_from_fields;
use crate::trades;
use crate::wire;

verus! {

/// The characters of a number or of a string.
pub open spec fn written(value: JsonTree) -> Option<Seq<char>> {
    match value {
        JsonTree::Number(digits) => Some(digits),
        JsonTree::Text(digits) => Some(digits),
        _ => None,
    }
}

/// The value writes the integer.
pub open spec fn writes_int(value: JsonTree, n: i64) -> bool {
    written(value) is Some && text::parsed_int(
        written(value)->Some_0,
        -0x8000_0000_0000_0000,
        0x7fff_ffff_ffff_ffff,
    ) == Ok::<int, IntError>(n as int)
}

/// The value writes the decimal number.
pub open spec fn writes_decimal(value: JsonTree, parts: DecimalParts) -> bool {
    written(value) is Some && match decimal::parsed_decimal(written(value)->Some_0) {
        Ok((negative, mantissa, scale)) => parts.negative == negative && parts.mantissa == mantissa
            && parts.scale == scale,
        Err(_) => false,
    }
}

/// The row writes the trade: id, time, amount and price, in this order. The side and the amount
/// without a sign follow from the sign of the amount: what is sold has a minus sign.
pub open spec fn writes_trade(row: JsonTree, symbol: Seq<char>, trade: Trade) -> bool {
    &&& row is Array
    &&& row->Array_0.len() >= 4
    &&& writes_int(row->Array_0[0], trade.id)
    &&& writes_int(row->Array_0[1], trade.mts)
    &&& writes_decimal(row->Array_0[2], trade.amount@)
    &&& writes_decimal(row->Array_0[3], trade.price@)
    &&& trade.symbol@ == symbol
    &&& trade.exchange@ == "bitfinex"@
    &&& trade.timestamp.millis() == trade.mts
    &&& trade.side == TradeSide::Sell <==> trade.amount@.negative
    &&& trade.side == TradeSide::Buy <==> !trade.amount@.negative
    &&& !trade.amount_abs@.negative
    &&& trade.amount_abs@.mantissa == trade.amount@.mantissa
    &&& trade.amount_abs@.scale == trade.amount@.scale
}

/// Something that can be read as a trade on a day of the calendar.
pub open spec fn readable(row: JsonTree) -> bool {
    &&& row is Array
    &&& row->Array_0.len() >= 4
    &&& exists|id: i64| #[trigger] writes_int(row->Array_0[0], id)
    &&& exists|mts: i64| #[trigger]
        writes_int(row->Array_0[1], mts) && calendar::day_in_range(mts as int / 86_400_000)
    &&& exists|amount: DecimalParts| #[trigger] writes_decimal(row->Array_0[2], amount)
    &&& exists|price: DecimalParts| #[trigger] writes_decimal(row->Array_0[3], price)
}

/// A row is read as the trade that it writes, and every readable row is read.
pub proof fn rows_are_read_as_the_trades_they_write(
    symbol: &str,
    index: usize,
    row: &Json,
    r: Result<Trade, String>,
)
    requires
        call_ensures(parse_trade, (symbol, index, row), r),
    ensures
        r is Ok ==> writes_trade(row@, symbol@, r->Ok_0),
        readable(row@) ==> r is Ok,
{
    lemma_row(symbol@, index as int, row@, r);
}

proof fn lemma_row(symbol: Seq<char>, index: int, row: JsonTree, r: Result<Trade, String>)
    requires
        trades::facts_of(r) == trades::trade_of(symbol, index, row),
        r is Ok ==> r->Ok_0.well_formed(),
    ensures
        r is Ok ==> writes_trade(row, symbol, r->Ok_0),
        readable(row) ==> r is Ok,
{
    if row is Array && row->Array_0.len() >= 4 {
        lemma_int(row->Array_0[0], "ID"@);
        lemma_int(row->Array_0[1], "MTS"@);
        lemma_decimal(row->Array_0[2], "AMOUNT"@);
        lemma_decimal(row->Array_0[3], "PRICE"@);
    }
}

proof fn lemma_int(value: JsonTree, field: Seq<char>)
    ensures
        forall|n: i64| #[trigger]
            writes_int(value, n) <==> trades::i64_field(value, field) == Ok::<i64, Seq<char>>(n),
{
}

proof fn lemma_decimal(value: JsonTree, field: Seq<char>)
    ensures
        forall|parts: DecimalParts| #[trigger]
            writes_decimal(value, parts) <==> trades::decimal_field(value, field) == Ok::<
                DecimalParts,
                Seq<char>,
            >(parts),
{
}

/// The trades of an answer are its rows, one for one and in their order; and where the request was
/// successful and every row can be read, the answer is its trades.
pub proof fn answers_are_read_row_by_row(
    symbol: &str,
    status: u16,
    status_line: &str,
    body: &str,
    r: TradesResponse,
    rows: Seq<JsonTree>,
)
    requires
        call_ensures(read_trades_response, (symbol, status, status_line, body), r),
        wire::parsed_document(body@) == Ok::<JsonTree, Seq<char>>(JsonTree::Array(rows)),
    ensures
        r is Trades ==> r->Trades_0@.len() == rows.len() && forall|i: int|
            0 <= i < rows.len() ==> writes_trade(
                #[trigger] rows[i],
                symbol@,
                r->Trades_0@[i],
            ),
        200 <= status <= 299 && (forall|i: int|
            0 <= i < rows.len() ==> readable(#[trigger] rows[i])) ==> r is Trades,
        r is Trades ==> 200 <= status <= 299,
{
    if r is Trades {
        assert forall|i: int| 0 <= i < rows.len() implies writes_trade(
            #[trigger] rows[i],
            symbol@,
            r->Trades_0@[i],
        ) by {
            let trade = r->Trades_0@[i];
            assert(trade.well_formed());
            lemma_row(symbol@, i, rows[i], Ok(trade));
        }
    }
    if 200 <= status <= 299 && (forall|i: int|
        0 <= i < rows.len() ==> readable(#[trigger] rows[i])) && r is Failed {
        let index = choose|index: int| #[trigger] trades::first_bad_row(symbol@, rows, index);
        let row = rows[index];
        assert(readable(row));
        lemma_int(row->Array_0[0], "ID"@);
        lemma_int(row->Array_0[1], "MTS"@);
        lemma_decimal(row->Array_0[2], "AMOUNT"@);
        lemma_decimal(row->Array_0[3], "PRICE"@);
    }
}

/// The rate limit is met where the status says so, or the document under `error`, whatever the
/// status; and nowhere else.
pub proof fn the_rate_limit_is_recognised(
    symbol: &str,
    status: u16,
    status_line: &str,
    body: &str,
    r: TradesResponse,
    limited: bool,
    code: JsonTree,
)
    requires
        call_ensures(read_trades_response, (symbol, status, status_line, body), r),
        call_ensures(is_bitfinex_rate_limit_body, (body,), limited),
    ensures
        status == 429 ==> r is RateLimited,
        limited ==> r is RateLimited,
        r is RateLimited ==> status == 429 || limited,
        limited ==> wire::parsed_document(body@) is Ok
            && wire::parsed_document(body@)->Ok_0.field("error"@) == Some(
            JsonTree::Text("ERR_RATE_LIMIT"@),
        ),
        wire::parsed_document(body@) is Ok && wire::parsed_document(body@)->Ok_0.field("error"@)
            == Some(JsonTree::Text("ERR_RATE_LIMIT"@)) ==> limited,
{
}

/// What cannot be answered is reported: an answer without success is a failure, and its report
/// holds the status and the body. A failure of the server may be sent again.
pub proof fn failures_are_reported(
    symbol: &str,
    status: u16,
    status_line: &str,
    body: &str,
    r: TradesResponse,
    error: &str,
    attempt: u8,
    secs: Option<u64>,
)
    requires
        call_ensures(read_trades_response, (symbol, status, status_line, body), r),
        !(r is RateLimited),
        status < 200 || status > 299,
        r is Failed ==> error@ == r->Failed_0@,
        call_ensures(retry_after, (error, attempt), secs),
    ensures
        r is Failed,
        text::contains(error@, status_line@),
        exists|front: Seq<char>| error@ == #[trigger] (front + body@),
        500 <= status <= 599 && attempt <= 5 ==> secs is Some,
{
    history::overload_is_retryable(status, status_line@, body@);
    let head = if 500 <= status < 600 {
        "retryable: "@ + "Bitfinex returned HTTP "@
    } else {
        "Bitfinex returned HTTP "@
    };
    assert(error@ =~= (head + status_line@ + ": "@) + body@);
    assert(error@.subrange(head.len() as int, (head.len() + status_line@.len()) as int)
        =~= status_line@);
    assert(text::stands_at(error@, status_line@, head.len() as int));
}

/// An integer is read back from a number and from a string of its digits.
pub proof fn integers_are_read_back(value: &Json, field: &str, r: Result<i64, String>, n: i64)
    requires
        call_ensures(parse_i64, (value, field), r),
        written(value@) == Some(text::int_text(n as int)),
    ensures
        r is Ok && r->Ok_0 == n,
{
    text::printed_integers_are_read_back(
        n as int,
        -0x8000_0000_0000_0000,
        0x7fff_ffff_ffff_ffff,
    );
    lemma_int(value@, field@);
    assert(writes_int(value@, n));
}

/// A decimal number is read from its own characters, whether it stands as a number or as a string.
pub proof fn decimals_are_read_from_their_text(
    value: &Json,
    field: &str,
    r: Result<decimal::DecimalValue, String>,
)
    requires
        call_ensures(parse_decimal, (value, field), r),
    ensures
        r is Ok ==> writes_decimal(value@, r->Ok_0@),
        (exists|parts: DecimalParts| #[trigger] writes_decimal(value@, parts)) ==> r is Ok,
{
    lemma_decimal(value@, field@);
}

/// A trade keeps what it is made of, and there is one just where its time lies on a day of the
/// calendar.
pub proof fn trades_keep_what_they_are_made_of(
    symbol: &str,
    id: i64,
    mts: i64,
    amount: decimal::DecimalValue,
    price: decimal::DecimalValue,
    r: Result<Trade, String>,
)
    requires
        call_ensures(trade_from_fields, (symbol, id, mts, amount, price), r),
    ensures
        r is Ok <==> calendar::day_in_range(mts as int / 86_400_000),
        r is Ok ==> {
            let trade = r->Ok_0;
            &&& trade.symbol@ == symbol@
            &&& trade.id == id
            &&& trade.mts == mts
            &&& trade.timestamp.millis() == mts
            &&& trade.amount@ == amount@
            &&& trade.price@ == price@
            &&& trade.side == TradeSide::Sell <==> amount@.negative
            &&& trade.side == TradeSide::Buy <==> !amount@.negative
            &&& trade.amount_abs@.mantissa == amount@.mantissa
            &&& trade.amount_abs@.scale == amount@.scale
            &&& !trade.amount_abs@.negative
        },
{
}

/// Only a list is read as trades: any other document, and a text that is none, is a failure.
pub proof fn only_lists_are_trades(
    symbol: &str,
    status: u16,
    status_line: &str,
    body: &str,
    r: TradesResponse,
)
    requires
        call_ensures(read_trades_response, (symbol, status, status_line, body), r),
    ensures
        r is Trades ==> wire::parsed_document(body@) is Ok && wire::parsed_document(
            body@,
        )->Ok_0 is Array,
        wire::parsed_document(body@) is Err && status != 429 ==> r is Failed,
{
}

/// An answer that cannot be read is reported by the first row that cannot be read: every row before
/// it can be.
pub proof fn the_first_bad_row_is_reported(
    symbol: &str,
    value: &Json,
    r: Result<Vec<Trade>, String>,
    rows: Seq<JsonTree>,
)
    requires
        call_ensures(trades::parse_trades, (symbol, value), r),
        value@ == JsonTree::Array(rows),
    ensures
        r is Ok ==> r->Ok_0@.len() == rows.len() && forall|i: int|
            0 <= i < rows.len() ==> writes_trade(#[trigger] rows[i], symbol@, r->Ok_0@[i]),
        r is Err ==> exists|i: int|
            0 <= i < rows.len() && !readable(#[trigger] rows[i]),
{
    if r is Ok {
        assert forall|i: int| 0 <= i < rows.len() implies writes_trade(
            #[trigger] rows[i],
            symbol@,
            r->Ok_0@[i],
        ) by {
            assert(r->Ok_0@[i].well_formed());
            lemma_row(symbol@, i, rows[i], Ok(r->Ok_0@[i]));
        }
    } else {
        let index = choose|index: int| #[trigger] trades::first_bad_row(symbol@, rows, index);
        let row = rows[index];
        if readable(row) {
            lemma_int(row->Array_0[0], "ID"@);
            lemma_int(row->Array_0[1], "MTS"@);
            lemma_decimal(row->Array_0[2], "AMOUNT"@);
            lemma_decimal(row->Array_0[3], "PRICE"@);
        }
        assert(!readable(rows[index]));
    }
}

} // verus!
