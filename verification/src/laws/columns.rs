//! The columns of tables: a column holds what the message says under the column's own name.

use vstd::prelude::*;

use crate::events::NormalizedEventFields;
use crate::events::RawWsEventOwned;
use crate::json::Json;
use crate::json::JsonTree;
use crate::json::json_array_i64;
use crate::json::json_array_string;
use crate::json::json_field_i64;
use crate::json::json_field_string;
use crate::json::json_pointer_string;
use crate::sides::abs_decimal_string;
use crate::sides::canonical_buy_sell_side;
use crate::sides::signed_amount_side;
use crate::table::CellView;
use crate::table::TableRow;
use crate::text;

verus! {

/// The row holds the cell in a column of that name.
pub open spec fn at<R: TableRow>(row: R, name: Seq<char>, cell: CellView) -> bool {
    exists|c: int|
        0 <= c < R::schema().len() && (#[trigger] R::schema()[c]).name == name && row.cells()[c]
            == cell
}

/// The cell of a string, a number or a truth value, with its own characters; anything else leaves
/// the cell empty.
pub open spec fn scalar_cell(value: Option<JsonTree>) -> CellView {
    match value {
        Some(JsonTree::Text(contents)) => CellView::Text(contents),
        Some(JsonTree::Number(digits)) => CellView::Text(digits),
        Some(JsonTree::Bool(true)) => CellView::Text("true"@),
        Some(JsonTree::Bool(false)) => CellView::Text("false"@),
        _ => CellView::Null,
    }
}

/// The cell of a number that is written as an integer; anything else leaves the cell empty.
pub open spec fn int_cell(value: Option<JsonTree>) -> CellView {
    match value {
        Some(JsonTree::Number(digits)) => match text::parsed_int(
            digits,
            -0x8000_0000_0000_0000,
            0x7fff_ffff_ffff_ffff,
        ) {
            Ok(n) => CellView::Int(n as i64),
            Err(_) => CellView::Null,
        },
        _ => CellView::Null,
    }
}

/// The cell of a truth value; anything else leaves the cell empty.
pub open spec fn truth_cell(value: Option<JsonTree>) -> CellView {
    match value {
        Some(JsonTree::Bool(b)) => CellView::Bool(b),
        _ => CellView::Null,
    }
}

/// The value under a key of the object under another key.
pub open spec fn below(data: JsonTree, outer: Seq<char>, inner: Seq<char>) -> Option<JsonTree> {
    match data.field(outer) {
        Some(object) => object.field(inner),
        None => None,
    }
}

/// The item at a position of the array under a key.
pub open spec fn item_below(data: JsonTree, key: Seq<char>, index: int) -> Option<JsonTree> {
    match data.field(key) {
        Some(array) => array.item(index),
        None => None,
    }
}

/// The column holds the scalar that the data have under the column's own name.
pub open spec fn keeps<R: TableRow>(row: R, data: JsonTree, name: Seq<char>) -> bool {
    at(row, name, scalar_cell(data.field(name)))
}

/// The column holds the integer that the data have under the column's own name.
pub open spec fn keeps_int<R: TableRow>(row: R, data: JsonTree, name: Seq<char>) -> bool {
    at(row, name, int_cell(data.field(name)))
}

/// The row names the exchange, the symbol, the instant and the connection of its message.
pub open spec fn names_event<R: TableRow>(row: R, event: RawWsEventOwned) -> bool {
    &&& at(row, "exchange"@, CellView::Text(event.exchange@))
    &&& at(row, "symbol"@, CellView::Text(event.symbol@))
    &&& at(row, "received_at"@, CellView::Text(event.received_at@))
    &&& at(row, "received_mts"@, CellView::Int(event.received_mts))
    &&& at(row, "connection_id"@, CellView::Text(event.connection_id@))
}

/// The amount is negative: its text begins with a minus sign.
pub open spec fn is_minus(amount: Seq<char>) -> bool {
    amount.len() > 0 && amount[0] == '-'
}

/// The amount is written without white space in front, as a number is.
pub open spec fn is_plain(amount: Seq<char>) -> bool {
    amount.len() > 0 && !text::is_space(amount[0])
}

/// What a message says of itself is taken over unchanged.
pub proof fn events_are_taken_over(event: &RawWsEventOwned, fields: NormalizedEventFields)
    requires
        call_ensures(NormalizedEventFields::from_raw, (event,), fields),
    ensures
        fields.exchange@ == event.exchange@,
        fields.symbol@ == event.symbol@,
        fields.received_at@ == event.received_at@,
        fields.received_mts == event.received_mts,
        fields.connection_id@ == event.connection_id@,
        fields.channel@ == event.channel@,
{
}

/// A scalar is taken with its own characters, wherever it stands.
pub proof fn scalars_keep_their_characters(
    value: &Json,
    outer: &str,
    inner: &str,
    index: usize,
    field: Option<String>,
    nested: Option<String>,
    item: Option<String>,
)
    requires
        call_ensures(json_field_string, (value, inner), field),
        call_ensures(json_pointer_string, (value, outer, inner), nested),
        call_ensures(json_array_string, (value, index), item),
    ensures
        crate::table::opt_text_view(field) == scalar_cell(value@.field(inner@)),
        crate::table::opt_text_view(nested) == scalar_cell(below(value@, outer@, inner@)),
        crate::table::opt_text_view(item) == scalar_cell(value@.item(index as int)),
{
}

/// An integer is read back from the number that writes it, wherever it stands; a string of digits,
/// or a number that is no integer, is none.
pub proof fn integers_keep_their_value(
    value: &Json,
    key: &str,
    index: usize,
    field: Option<i64>,
    item: Option<i64>,
    n: i64,
)
    requires
        call_ensures(json_field_i64, (value, key), field),
        call_ensures(json_array_i64, (value, index), item),
    ensures
        value@.field(key@) == Some(JsonTree::Number(text::int_text(n as int))) ==> field == Some(n),
        value@.item(index as int) == Some(JsonTree::Number(text::int_text(n as int))) ==> item
            == Some(n),
        field is Some ==> value@.field(key@) is Some && value@.field(key@)->Some_0 is Number,
        item is Some ==> value@.item(index as int) is Some && value@.item(index as int)->Some_0
            is Number,
{
    text::printed_integers_are_read_back(n as int, i64::MIN as int, i64::MAX as int);
}

/// A signed amount has the one side where it is negative and the other where it is not, and its
/// text without the sign is what stands behind the sign.
pub proof fn signs_give_sides(
    amount: &str,
    positive: &str,
    negative: &str,
    side: Option<String>,
    size: String,
)
    requires
        is_plain(amount@),
        call_ensures(signed_amount_side, (Some(amount), positive, negative), side),
        call_ensures(abs_decimal_string, (amount,), size),
    ensures
        side is Some,
        is_minus(amount@) ==> side->Some_0@ == negative@ && amount@ == seq!['-'] + size@,
        !is_minus(amount@) ==> side->Some_0@ == positive@ && amount@ == size@,
{
    assert(text::trimmed_start(amount@) == amount@);
    if is_minus(amount@) {
        assert(amount@ =~= seq!['-'] + size@);
    }
}

/// Every token that a venue uses for a side has the word of that side, and tokens that differ only
/// in case or in white space around them have the same word.
pub proof fn tokens_have_the_word_of_their_side(
    token: &str,
    other: &str,
    word: String,
    same: String,
)
    requires
        call_ensures(canonical_buy_sell_side, (token,), word),
        call_ensures(canonical_buy_sell_side, (other,), same),
        text::lower(text::trimmed(token@)) == text::lower(text::trimmed(other@)),
    ensures
        word@ == same@,
        token@ == "buy"@ || token@ == "b"@ || token@ == "bid"@ ==> word@ == "buy"@,
        token@ == "sell"@ || token@ == "s"@ || token@ == "ask"@ || token@ == "a"@ ==> word@
            == "sell"@,
        token@ == "B"@ ==> word@ == "buy"@,
        token@ == "A"@ ==> word@ == "sell"@,
{
    reveal_strlit("buy");
    reveal_strlit("b");
    reveal_strlit("bid");
    reveal_strlit("sell");
    reveal_strlit("s");
    reveal_strlit("ask");
    reveal_strlit("a");
    reveal_strlit("B");
    reveal_strlit("A");
    if token@ == "buy"@ || token@ == "b"@ || token@ == "bid"@ || token@ == "sell"@ || token@
        == "s"@ || token@ == "ask"@ || token@ == "a"@ {
        text::lemma_trimmed_is_kept(token@);
        assert(text::lower(token@) =~= token@);
        assert("buy"@[0] != "sell"@[0] && "buy"@[0] != "ask"@[0] && "buy"@[0] != "a"@[0]
            && "buy"@[0] != "s"@[0]);
        assert("bid"@[0] != "sell"@[0] && "bid"@[0] != "ask"@[0] && "bid"@[0] != "a"@[0]
            && "bid"@[0] != "s"@[0]);
        assert("b"@[0] != "sell"@[0] && "b"@[0] != "ask"@[0] && "b"@[0] != "a"@[0] && "b"@[0]
            != "s"@[0]);
    }
    if token@ == "B"@ {
        text::lemma_trimmed_is_kept(token@);
        assert(text::lower(token@) =~= "b"@);
        assert("b"@[0] != "sell"@[0] && "b"@[0] != "ask"@[0] && "b"@[0] != "a"@[0] && "b"@[0]
            != "s"@[0]);
    }
    if token@ == "A"@ {
        text::lemma_trimmed_is_kept(token@);
        assert(text::lower(token@) =~= "a"@);
    }
}

} // verus!
