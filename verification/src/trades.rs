//! Trades of the Bitfinex history, and how the answer of the exchange is read.

use vstd::prelude::*;

use crate::calendar;
use crate::calendar::UtcTime;
use crate::decimal;
use crate::decimal::DecimalParts;
use crate::decimal::DecimalValue;
use crate::json;
use crate::json::Json;
use crate::json::JsonTree;
use crate::text;
use crate::text::joined3;
use crate::wire;

verus! {

/// The side of the taker.
#[derive(Clone, Copy, Debug, PartialEq, Eq, Structural)]
pub enum TradeSide {
    Buy,
    Sell,
    Unknown,
}

impl TradeSide {
    pub open spec fn name(self) -> Seq<char> {
        match self {
            TradeSide::Buy => "buy"@,
            TradeSide::Sell => "sell"@,
            TradeSide::Unknown => "unknown"@,
        }
    }

    /// The side in words.
    pub fn as_str(self) -> (name: &'static str)
        ensures
            name@ == self.name(),
    {
        match self {
            TradeSide::Buy => "buy",
            TradeSide::Sell => "sell",
            TradeSide::Unknown => "unknown",
        }
    }
}

/// A trade.
#[derive(Clone, Debug)]
pub struct Trade {
    pub exchange: &'static str,
    pub symbol: String,
    pub id: i64,
    pub mts: i64,
    pub timestamp: UtcTime,
    pub side: TradeSide,
    pub amount: DecimalValue,
    pub amount_abs: DecimalValue,
    pub price: DecimalValue,
}

/// What determines a trade: the rest of it follows.
pub ghost struct TradeFacts {
    pub symbol: Seq<char>,
    pub id: i64,
    pub mts: i64,
    pub amount: DecimalParts,
    pub price: DecimalParts,
}

impl Trade {
    /// The instant, the side and the absolute amount follow from time stamp and amount.
    pub open spec fn well_formed(self) -> bool {
        &&& self.exchange@ == "bitfinex"@
        &&& calendar::day_in_range(calendar::day_of(self.mts as int))
        &&& self.timestamp.millis() == self.mts
        &&& self.side == if self.amount@.negative {
            TradeSide::Sell
        } else {
            TradeSide::Buy
        }
        &&& self.amount_abs@ == (DecimalParts { negative: false, ..self.amount@ })
    }

    pub open spec fn facts(self) -> TradeFacts {
        TradeFacts {
            symbol: self.symbol@,
            id: self.id,
            mts: self.mts,
            amount: self.amount@,
            price: self.price@,
        }
    }
}

/// The taker's side: a negative amount is sold.
pub fn trade_side(amount: &DecimalValue) -> (side: TradeSide)
    ensures
        side == if amount@.negative {
            TradeSide::Sell
        } else {
            TradeSide::Buy
        },
{
    if amount.is_sign_positive() {
        TradeSide::Buy
    } else {
        TradeSide::Sell
    }
}

/// A field that should hold an integer.
pub open spec fn i64_field(value: JsonTree, field: Seq<char>) -> Result<i64, Seq<char>> {
    match value {
        JsonTree::Number(_) => match json::i64_of(Some(value)) {
            Some(n) => Ok(n),
            None => Err(field + " is not an i64: "@ + wire::written_document(value)),
        },
        JsonTree::Text(digits) => match text::parsed_int(digits, i64::MIN as int, i64::MAX as int) {
            Ok(n) => Ok(n as i64),
            Err(error) => Err(field + " is not an i64: "@ + digits + ": "@ + error.text()),
        },
        _ => Err(field + " has unexpected JSON type: "@ + wire::written_document(value)),
    }
}

/// Reads a field that should hold an integer: a number, or a text of digits.
pub fn parse_i64(value: &Json, field: &str) -> (r: Result<i64, String>)
    ensures
        text::error_text(r) == i64_field(value@, field@),
{
    match value {
        Json::Number(_) => match value.as_i64() {
            Some(n) => Ok(n),
            None => Err(joined3(field, " is not an i64: ", wire::json_document(value).as_str())),
        },
        Json::Text(digits) => match text::parse_i64_text(digits.as_str()) {
            Ok(n) => Ok(n),
            Err(error) => {
                let mut report = joined3(field, " is not an i64: ", digits.as_str());
                report.append(": ");
                report.append(error.message().as_str());
                Err(report)
            },
        },
        _ => Err(
            joined3(field, " has unexpected JSON type: ", wire::json_document(value).as_str()),
        ),
    }
}

/// What the result of reading a decimal number means for a field.
pub open spec fn decimal_read(
    parsed: Result<DecimalParts, Seq<char>>,
    field: Seq<char>,
    number: Seq<char>,
) -> Result<DecimalParts, Seq<char>> {
    match parsed {
        Ok(parts) => Ok(parts),
        Err(error) => Err(field + " is not a decimal: "@ + number + ": "@ + error),
    }
}

/// What the result of reading a decimal number means for a field.
pub fn read_decimal(parsed: Result<DecimalValue, String>, field: &str, number: &str) -> (r: Result<
    DecimalValue,
    String,
>)
    ensures
        decimal::decimal_view(r) == decimal_read(decimal::decimal_view(parsed), field@, number@),
{
    match parsed {
        Ok(value) => Ok(value),
        Err(error) => {
            let mut report = joined3(field, " is not a decimal: ", number);
            report.append(": ");
            report.append(error.as_str());
            Err(report)
        },
    }
}

/// A field that should hold a decimal number.
pub open spec fn decimal_field(value: JsonTree, field: Seq<char>) -> Result<
    DecimalParts,
    Seq<char>,
> {
    match value {
        JsonTree::Number(number) => decimal_read(
            decimal::as_parts(decimal::parsed_decimal(number)),
            field,
            number,
        ),
        JsonTree::Text(number) => decimal_read(
            decimal::as_parts(decimal::parsed_decimal(number)),
            field,
            number,
        ),
        _ => Err(field + " has unexpected JSON type: "@ + wire::written_document(value)),
    }
}

/// Reads a field that should hold a decimal number, from the very text of the number.
pub fn parse_decimal(value: &Json, field: &str) -> (r: Result<DecimalValue, String>)
    ensures
        decimal::decimal_view(r) == decimal_field(value@, field@),
{
    let number: &str = match value {
        Json::Number(number) => number.as_text(),
        Json::Text(number) => number.as_str(),
        _ => {
            return Err(
                joined3(field, " has unexpected JSON type: ", wire::json_document(value).as_str()),
            );
        },
    };
    read_decimal(DecimalValue::parse(number), field, number)
}

/// The trade with the given facts, or why there is none.
pub open spec fn dated(facts: TradeFacts) -> Result<TradeFacts, Seq<char>> {
    if calendar::day_in_range(calendar::day_of(facts.mts as int)) {
        Ok(facts)
    } else {
        Err("invalid MTS "@ + text::int_text(facts.mts as int))
    }
}

/// What a result holds.
pub open spec fn facts_of(r: Result<Trade, String>) -> Result<TradeFacts, Seq<char>> {
    match r {
        Ok(trade) => Ok(trade.facts()),
        Err(error) => Err(error@),
    }
}

/// Puts a trade together; the time stamp must be one that the calendar can represent.
pub fn trade_from_fields(
    symbol: &str,
    id: i64,
    mts: i64,
    amount: DecimalValue,
    price: DecimalValue,
) -> (r: Result<Trade, String>)
    ensures
        facts_of(r) == dated(
            TradeFacts { symbol: symbol@, id, mts, amount: amount@, price: price@ },
        ),
        r is Ok ==> r->Ok_0.well_formed(),
{
    match UtcTime::from_timestamp_millis(mts) {
        Some(timestamp) => Ok(
            Trade {
                exchange: "bitfinex",
                symbol: symbol.to_owned(),
                id,
                mts,
                timestamp,
                side: trade_side(&amount),
                amount,
                amount_abs: amount.abs(),
                price,
            },
        ),
        None => {
            let mut report = "invalid MTS ".to_owned();
            report.append(text::i64_text(mts).as_str());
            Err(report)
        },
    }
}

/// The trade of one row of an answer: id, time stamp, amount and price, in this order; or the
/// first thing that is wrong with it.
pub open spec fn trade_of(symbol: Seq<char>, index: int, row: JsonTree) -> Result<
    TradeFacts,
    Seq<char>,
> {
    match row {
        JsonTree::Array(fields) => if fields.len() < 4 {
            Err(
                "trade row "@ + text::nat_text(index as nat) + " has "@ + text::nat_text(
                    fields.len(),
                ) + " fields, expected 4"@,
            )
        } else {
            match i64_field(fields[0], "ID"@) {
                Err(error) => Err(error),
                Ok(id) => match i64_field(fields[1], "MTS"@) {
                    Err(error) => Err(error),
                    Ok(mts) => match decimal_field(fields[2], "AMOUNT"@) {
                        Err(error) => Err(error),
                        Ok(amount) => match decimal_field(fields[3], "PRICE"@) {
                            Err(error) => Err(error),
                            Ok(price) => dated(TradeFacts { symbol, id, mts, amount, price }),
                        },
                    },
                },
            }
        },
        _ => Err(
            "trade row "@ + text::nat_text(index as nat) + " is not an array: "@
                + wire::written_document(row),
        ),
    }
}

/// Reads one row of an answer.
pub fn parse_trade(symbol: &str, index: usize, row: &Json) -> (r: Result<Trade, String>)
    ensures
        facts_of(r) == trade_of(symbol@, index as int, row@),
        r is Ok ==> r->Ok_0.well_formed(),
{
    let fields = match row.as_array() {
        Some(fields) => fields,
        None => {
            let mut report = joined3(
                "trade row ",
                text::u64_text(index as u64).as_str(),
                " is not an array: ",
            );
            report.append(wire::json_document(row).as_str());
            return Err(report);
        },
    };
    if fields.len() < 4 {
        let mut report = joined3("trade row ", text::u64_text(index as u64).as_str(), " has ");
        report.append(text::u64_text(fields.len() as u64).as_str());
        report.append(" fields, expected 4");
        return Err(report);
    }
    let ghost trees = row@->Array_0;
    assert(trees[0] == fields@[0]@ && trees[1] == fields@[1]@ && trees[2] == fields@[2]@ && trees[3]
        == fields@[3]@);
    let id = match parse_i64(&fields[0], "ID") {
        Ok(id) => id,
        Err(error) => return Err(error),
    };
    let mts = match parse_i64(&fields[1], "MTS") {
        Ok(mts) => mts,
        Err(error) => return Err(error),
    };
    let amount = match parse_decimal(&fields[2], "AMOUNT") {
        Ok(amount) => amount,
        Err(error) => return Err(error),
    };
    let price = match parse_decimal(&fields[3], "PRICE") {
        Ok(price) => price,
        Err(error) => return Err(error),
    };
    trade_from_fields(symbol, id, mts, amount, price)
}

/// Every trade of a list is well-formed.
pub open spec fn all_well_formed(trades: Seq<Trade>) -> bool {
    forall|i: int| 0 <= i < trades.len() ==> (#[trigger] trades[i]).well_formed()
}

/// The row at `index` is the first that cannot be read.
pub open spec fn first_bad_row(symbol: Seq<char>, rows: Seq<JsonTree>, index: int) -> bool {
    &&& 0 <= index < rows.len()
    &&& trade_of(symbol, index, rows[index]) is Err
    &&& forall|i: int| 0 <= i < index ==> trade_of(symbol, i, #[trigger] rows[i]) is Ok
}

/// Reads an answer: all of its rows, or the error of the first row that cannot be read.
pub fn parse_trades(symbol: &str, value: &Json) -> (r: Result<Vec<Trade>, String>)
    ensures
        match value@.array() {
            None => r is Err && r->Err_0@ == "expected Bitfinex trade response array, got "@
                + wire::written_document(value@),
            Some(rows) => match r {
                Ok(trades) => {
                    &&& all_well_formed(trades@)
                    &&& trades@.len() == rows.len()
                    &&& forall|i: int|
                        0 <= i < rows.len() ==> trade_of(symbol@, i, #[trigger] rows[i]) == Ok::<
                            TradeFacts,
                            Seq<char>,
                        >(trades@[i].facts())
                },
                Err(error) => exists|index: int| #[trigger]
                    first_bad_row(symbol@, rows, index) && trade_of(symbol@, index, rows[index])
                        == Err::<TradeFacts, Seq<char>>(error@),
            },
        },
{
    let rows = match value.as_array() {
        Some(rows) => rows,
        None => {
            let mut report = "expected Bitfinex trade response array, got ".to_owned();
            report.append(wire::json_document(value).as_str());
            return Err(report);
        },
    };
    let ghost trees = value@.array()->Some_0;
    let mut trades: Vec<Trade> = Vec::new();
    let mut i: usize = 0;
    while i < rows.len()
        invariant
            i <= rows@.len(),
            value@.array() == Some(trees),
            trees.len() == rows@.len(),
            forall|j: int| 0 <= j < trees.len() ==> #[trigger] trees[j] == rows@[j]@,
            trades@.len() == i,
            all_well_formed(trades@),
            forall|j: int|
                0 <= j < i ==> trade_of(symbol@, j, #[trigger] trees[j]) == Ok::<
                    TradeFacts,
                    Seq<char>,
                >(trades@[j].facts()),
        decreases rows@.len() - i,
    {
        assert(trees[i as int] == rows@[i as int]@);
        match parse_trade(symbol, i, &rows[i]) {
            Ok(trade) => trades.push(trade),
            Err(error) => {
                assert(first_bad_row(symbol@, trees, i as int));
                return Err(error);
            },
        }
        i = i + 1;
    }
    Ok(trades)
}

} // verus!
