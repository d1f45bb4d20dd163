//! Sides of trades and book levels.

use vstd::prelude::*;

use crate::json;
use crate::text;
use crate::text::same_text;

verus! {

/// A signed amount is negative: behind white space it begins with a minus sign.
pub open spec fn is_negative_amount(amount: Seq<char>) -> bool {
    text::trimmed_start(amount).len() > 0 && text::trimmed_start(amount)[0] == '-'
}

/// The side of a signed amount.
pub open spec fn amount_side(
    amount: Option<Seq<char>>,
    positive: Seq<char>,
    negative: Seq<char>,
) -> Option<Seq<char>> {
    match amount {
        Some(a) => Some(
            if is_negative_amount(a) {
                negative
            } else {
                positive
            },
        ),
        None => None,
    }
}

/// The side of a signed amount.
pub fn signed_amount_side(amount: Option<&str>, positive_side: &str, negative_side: &str) -> (side:
    Option<String>)
    ensures
        json::opt_text(side) == amount_side(json::opt_str(amount), positive_side@, negative_side@),
{
    match amount {
        Some(a) => {
            let chars = text::text_chars(text::trim_start(a).as_str());
            if chars.len() > 0 && chars[0] == '-' {
                Some(negative_side.to_owned())
            } else {
                Some(positive_side.to_owned())
            }
        },
        None => None,
    }
}

/// The canonical word for a side token: `sell` and `buy` for the tokens that venues use, in any
/// case and with white space around them; any other token in lower case.
pub open spec fn canonical_side(side: Seq<char>) -> Seq<char> {
    let token = text::lower(text::trimmed(side));
    if token == "a"@ || token == "ask"@ || token == "s"@ || token == "sell"@ {
        "sell"@
    } else if token == "b"@ || token == "bid"@ || token == "buy"@ {
        "buy"@
    } else {
        token
    }
}

/// The canonical word for a side token.
pub fn canonical_buy_sell_side(side: &str) -> (word: String)
    ensures
        word@ == canonical_side(side@),
{
    let token = text::to_lower(text::trim(side).as_str());
    let t = token.as_str();
    if same_text(t, "a") || same_text(t, "ask") || same_text(t, "s") || same_text(t, "sell") {
        "sell".to_owned()
    } else if same_text(t, "b") || same_text(t, "bid") || same_text(t, "buy") {
        "buy".to_owned()
    } else {
        token
    }
}

/// The canonical word for a side token, where there is one.
pub open spec fn canonical_of(side: Option<Seq<char>>) -> Option<Seq<char>> {
    match side {
        Some(s) => Some(canonical_side(s)),
        None => None,
    }
}

/// The canonical word for a side token, where there is one.
pub fn canonical_side_of(side: &Option<String>) -> (word: Option<String>)
    ensures
        json::opt_text(word) == canonical_of(json::opt_text(*side)),
{
    match side {
        Some(s) => Some(canonical_buy_sell_side(s.as_str())),
        None => None,
    }
}

/// A decimal text without its minus sign and the white space before it.
pub open spec fn abs_text(value: Seq<char>) -> Seq<char> {
    let start = text::trimmed_start(value);
    if start.len() > 0 && start[0] == '-' {
        start.subrange(1, start.len() as int)
    } else {
        start
    }
}

/// A decimal text without its minus sign and the white space before it.
pub fn abs_decimal_string(value: &str) -> (r: String)
    ensures
        r@ == abs_text(value@),
{
    let start = text::trim_start(value);
    let chars = text::text_chars(start.as_str());
    if chars.len() > 0 && chars[0] == '-' {
        text::chars_text(&chars, 1, chars.len())
    } else {
        start
    }
}

/// The text without its sign, where there is one.
pub open spec fn abs_of(value: Option<Seq<char>>) -> Option<Seq<char>> {
    match value {
        Some(v) => Some(abs_text(v)),
        None => None,
    }
}

/// The text without its sign, where there is one.
pub fn abs_decimal_of(value: &Option<String>) -> (r: Option<String>)
    ensures
        json::opt_text(r) == abs_of(json::opt_text(*value)),
{
    match value {
        Some(v) => Some(abs_decimal_string(v.as_str())),
        None => None,
    }
}

/// A canonical word stays as it is when it is made canonical again.
pub proof fn canonical_words_are_stable(side: Seq<char>)
    ensures
        canonical_side(canonical_side(side)) == canonical_side(side),
{
    let token = text::lower(text::trimmed(side));
    text::lemma_trimmed_ends(side);
    text::lemma_lower_is_stable(text::trimmed(side));
    text::lemma_trimmed_is_kept(token);
    assert forall|w: Seq<char>| w == "sell"@ || w == "buy"@ implies #[trigger] canonical_side(w)
        == w by {
        reveal_strlit("sell");
        reveal_strlit("buy");
        reveal_strlit("a");
        reveal_strlit("ask");
        reveal_strlit("s");
        reveal_strlit("b");
        reveal_strlit("bid");
        text::lemma_trimmed_is_kept(w);
        assert(text::lower(w) =~= w);
        assert("buy"@[0] != "sell"@[0]);
        assert("buy"@[0] != "ask"@[0]);
    }
}

} // verus!
