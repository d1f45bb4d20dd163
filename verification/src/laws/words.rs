//! Texts and JSON values: what is put in is what is found.

use vstd::prelude::*;

use crate::json;
use crate::json::Json;
use crate::json::JsonTree;
use crate::sides::canonical_buy_sell_side;
use crate::text;
use crate::text::IntError;
use crate::wire;

verus! {

/// A trimmed text is the middle of the text: what is cut off at both ends is white space, and the
/// middle neither begins nor ends with it.
pub proof fn trimming_cuts_off_white_space(s: &str, middle: String)
    requires
        call_ensures(text::trim, (s,), middle),
    ensures
        exists|front: Seq<char>, back: Seq<char>|
            s@ == #[trigger] (front + middle@ + back) && all_space(front) && all_space(back),
        middle@.len() > 0 ==> !text::is_space(middle@[0]) && !text::is_space(middle@.last()),
{
    text::lemma_trimmed_ends(s@);
    let start = text::trimmed_start(s@);
    let front = lemma_cut_front(s@);
    let back = lemma_cut_back(start);
    assert(s@ =~= front + middle@ + back);
}

/// Every character is white space.
pub open spec fn all_space(s: Seq<char>) -> bool {
    forall|i: int| 0 <= i < s.len() ==> text::is_space(#[trigger] s[i])
}

proof fn lemma_cut_front(s: Seq<char>) -> (front: Seq<char>)
    ensures
        s == front + text::trimmed_start(s),
        all_space(front),
    decreases s.len(),
{
    if s.len() > 0 && text::is_space(s[0]) {
        let rest = s.subrange(1, s.len() as int);
        let less = lemma_cut_front(rest);
        let front = seq![s[0]] + less;
        assert(s =~= seq![s[0]] + rest);
        assert(s =~= front + text::trimmed_start(s));
        front
    } else {
        assert(s =~= Seq::<char>::empty() + s);
        Seq::empty()
    }
}

proof fn lemma_cut_back(s: Seq<char>) -> (back: Seq<char>)
    ensures
        s == text::trimmed_end(s) + back,
        all_space(back),
    decreases s.len(),
{
    if s.len() > 0 && text::is_space(s[s.len() - 1]) {
        let rest = s.subrange(0, s.len() - 1);
        let less = lemma_cut_back(rest);
        let back = less.push(s[s.len() - 1]);
        assert(s =~= rest.push(s[s.len() - 1]));
        assert(s =~= text::trimmed_end(s) + back);
        back
    } else {
        assert(s =~= s + Seq::<char>::empty());
        Seq::empty()
    }
}

/// Blanks, tabs and ends of lines are white space; letters, digits and signs are not.
pub proof fn white_space_is_what_separates_words(c: char)
    ensures
        c == ' ' || c == '\t' || c == '\n' || c == '\r' ==> text::is_space(c),
        '!' <= c <= '~' ==> !text::is_space(c),
{
}

/// A text begins with another where it is that one and more, and contains it where it is something,
/// that one and something more.
pub proof fn parts_are_found(
    whole: &str,
    part: &str,
    begins: bool,
    contains: bool,
    front: Seq<char>,
    back: Seq<char>,
)
    requires
        call_ensures(text::starts_with, (whole, part), begins),
        call_ensures(text::contains_text, (whole, part), contains),
    ensures
        whole@ == part@ + back ==> begins,
        begins ==> exists|rest: Seq<char>| whole@ == #[trigger] (part@ + rest),
        whole@ == front + part@ + back ==> contains,
        contains ==> exists|a: Seq<char>, b: Seq<char>| whole@ == #[trigger] (a + part@ + b),
{
    if begins {
        let rest = whole@.skip(part@.len() as int);
        assert(whole@ =~= part@ + rest);
    }
    if whole@ == front + part@ + back {
        let at = front.len() as int;
        assert(whole@.subrange(at, at + part@.len()) =~= part@);
        assert(text::stands_at(whole@, part@, at));
    }
    if contains {
        let at = choose|at: int| text::stands_at(whole@, part@, at);
        assert(text::stands_at(whole@, part@, at));
        let a = whole@.take(at);
        let b = whole@.skip(at + part@.len());
        assert(whole@ =~= a + part@ + b) by {
            assert(whole@.subrange(at, at + part@.len()) == part@);
            assert forall|i: int| at <= i < at + part@.len() implies whole@[i] == part@[i
                - at] by {
                assert(whole@.subrange(at, at + part@.len())[i - at] == whole@[i]);
            }
        }
    }
}

/// Letters change their case and nothing else does; texts are the same but for their case where
/// their letters are.
pub proof fn only_letters_change_their_case(
    s: &str,
    low: String,
    high: String,
    other: &str,
    same: bool,
    i: int,
)
    requires
        call_ensures(text::to_lower, (s,), low),
        call_ensures(text::to_upper, (s,), high),
        call_ensures(text::same_ignoring_case, (s, other), same),
        0 <= i < s@.len(),
    ensures
        low@.len() == s@.len() && high@.len() == s@.len(),
        'A' <= s@[i] <= 'Z' ==> low@[i] as int == s@[i] as int + 32 && high@[i] == s@[i],
        'a' <= s@[i] <= 'z' ==> high@[i] as int == s@[i] as int - 32 && low@[i] == s@[i],
        !('A' <= s@[i] <= 'Z') && !('a' <= s@[i] <= 'z') ==> low@[i] == s@[i] && high@[i] == s@[i],
        other@ == low@ || other@ == high@ || other@ == s@ ==> same,
        same ==> other@.len() == s@.len(),
{
    text::lemma_lower_is_stable(s@);
    assert(text::lower(text::upper(s@)) =~= text::lower(s@));
    assert(text::lower(s@).len() == s@.len());
    assert(text::lower(other@).len() == other@.len());
}

/// An integer is read from digits behind an optional sign and from nothing else, and it is the one
/// that they write.
pub proof fn integers_are_read_from_digits(
    s: &str,
    n: i64,
    signed: Result<i64, IntError>,
    unsigned: Result<u64, IntError>,
    size: Result<usize, IntError>,
)
    requires
        call_ensures(text::parse_i64_text, (s,), signed),
        call_ensures(text::parse_u64_text, (s,), unsigned),
        call_ensures(text::parse_usize_text, (s,), size),
    ensures
        s@ == text::int_text(n as int) ==> signed == Ok::<i64, IntError>(n),
        n >= 0 && s@ == text::nat_text(n as nat) ==> unsigned is Ok && unsigned->Ok_0 == n,
        n >= 0 && n <= usize::MAX && s@ == text::nat_text(n as nat) ==> size is Ok && size->Ok_0
            == n,
        s@.len() == 0 ==> signed is Err && unsigned is Err && size is Err,
        unsigned is Ok && s@.len() > 0 && s@[0] != '+' ==> text::is_digit(s@[0]),
        signed is Ok && s@.len() > 0 ==> text::is_digit(s@[0]) || s@[0] == '+' || s@[0] == '-',
{
    text::printed_integers_are_read_back(n as int, i64::MIN as int, i64::MAX as int);
    if n >= 0 {
        text::printed_numbers_are_read_back(n as nat, u64::MAX as int);
        if n <= usize::MAX {
            text::printed_numbers_are_read_back(n as nat, usize::MAX as int);
        }
    }
}

/// Numbers are written so that they are read back, in decimal digits.
pub proof fn numbers_are_written_in_digits(n: u64, m: i64, natural: String, signed: String)
    requires
        call_ensures(text::u64_text, (n,), natural),
        call_ensures(text::i64_text, (m,), signed),
    ensures
        text::parsed_int(natural@, 0, u64::MAX as int) == Ok::<int, IntError>(n as int),
        text::parsed_int(signed@, i64::MIN as int, i64::MAX as int) == Ok::<int, IntError>(
            m as int,
        ),
        m < 0 <==> signed@[0] == '-',
{
    text::printed_numbers_are_read_back(n as nat, u64::MAX as int);
    text::printed_integers_are_read_back(m as int, i64::MIN as int, i64::MAX as int);
    if m >= 0 {
        text::digits_of_numbers(m as nat);
    }
}

/// What digits write is counted digit by digit.
pub proof fn digits_count_by_tens(s: Seq<char>, d: int)
    requires
        0 <= d <= 9,
    ensures
        text::digits_value(s.push(text::digit_char(d))) == 10 * text::digits_value(s) + d,
        text::digit_char(d) as int == '0' as int + d,
        text::digits_value(Seq::empty()) == 0,
{
    let more = s.push(text::digit_char(d));
    assert(more.drop_last() =~= s);
}

/// A value that is put under a key of an object is found there, and every other key keeps its value.
pub proof fn values_are_found_under_their_key(
    object: Json,
    key: &str,
    value: Json,
    r: Json,
    alone: Json,
    other: &str,
    found: Option<&Json>,
    kept: Option<&Json>,
    single: Option<&Json>,
)
    requires
        object@ is Object,
        call_ensures(json::with_entry, (object, key, value), r),
        call_ensures(json::object_of, (key, value), alone),
        call_ensures(Json::get, (&r, key), found),
        call_ensures(Json::get, (&r, other), kept),
        call_ensures(Json::get, (&alone, key), single),
        other@ != key@,
    ensures
        found is Some && found->Some_0@ == value@,
        single is Some && single->Some_0@ == value@,
        json::tree_of(kept) == object@.field(other@),
{
}

/// An array of texts has each of them in its place.
pub proof fn texts_keep_their_place(
    list: &Vec<String>,
    from: usize,
    to: usize,
    r: Json,
    index: usize,
    found: Option<&Json>,
)
    requires
        from <= to <= list@.len(),
        call_ensures(json::text_array, (list, from, to), r),
        call_ensures(Json::at, (&r, index), found),
    ensures
        index < to - from ==> found is Some && found->Some_0@ == JsonTree::Text(
            list@[from + index]@,
        ),
        index >= to - from ==> found is None,
{
    let part = text::texts(list@.subrange(from as int, to as int));
    if index < to - from {
        assert(part[index as int] == list@[from + index]@);
    }
}

/// A value is what it is made of: a text is the text, a number reads back, an empty object has
/// nothing in it.
pub proof fn values_are_what_they_are_made_of(
    contents: &str,
    n: u64,
    words: Json,
    number: Json,
    empty: Json,
    key: &str,
    read: Option<&str>,
    back: Option<u64>,
    nothing: Option<&Json>,
)
    requires
        call_ensures(json::text_value, (contents,), words),
        call_ensures(json::number_value, (n,), number),
        call_ensures(json::empty_object, (), empty),
        call_ensures(Json::as_str, (&words,), read),
        call_ensures(Json::as_u64, (&number,), back),
        call_ensures(Json::get, (&empty, key), nothing),
    ensures
        read is Some && read->Some_0@ == contents@,
        back == Some(n),
        nothing is None,
{
    text::printed_numbers_are_read_back(n as nat, u64::MAX as int);
}

/// A document is read as what it holds, and a value is written as its own document.
pub proof fn documents_are_read_as_they_are(
    document: &str,
    r: Result<Json, String>,
    value: &Json,
    written: String,
)
    requires
        call_ensures(wire::parse_json, (document,), r),
        call_ensures(wire::json_document, (value,), written),
    ensures
        r is Ok <==> wire::parsed_document(document@) is Ok,
        r is Ok ==> r->Ok_0@ == wire::parsed_document(document@)->Ok_0,
        r is Err ==> r->Err_0@ == wire::parsed_document(document@)->Err_0,
        written@ == wire::written_document(value@),
{
}

/// A token that stands for neither side is kept, in lower case and without white space around it.
pub proof fn other_tokens_are_kept(token: &str, word: String, plain: Seq<char>)
    requires
        call_ensures(canonical_buy_sell_side, (token,), word),
        plain == text::lower(text::trimmed(token@)),
    ensures
        word@ == plain || word@ == "buy"@ || word@ == "sell"@,
        word@ == "buy"@ ==> plain == "b"@ || plain == "bid"@ || plain == "buy"@,
        word@ == "sell"@ ==> plain == "a"@ || plain == "ask"@ || plain == "s"@ || plain == "sell"@,
{
    reveal_strlit("buy");
    reveal_strlit("sell");
    assert("buy"@.len() == 3 && "sell"@.len() == 4);
}

} // verus!
