//! Text as sequences of characters: comparison, trimming, case, digits and parsing.

use vstd::prelude::*;

verus! {

/// `String::push`: the character is added behind the text.
pub assume_specification[ String::push ](buffer: &mut String, c: char)
    ensures
        final(buffer)@ == old(buffer)@.push(c),
;

/// The characters of a text.
pub fn text_chars(text: &str) -> (chars: Vec<char>)
    ensures
        chars@ == text@,
{
    let mut chars: Vec<char> = Vec::new();
    for c in it: text.chars()
        invariant
            chars@ == text@.take(it.index()),
            it.seq() == text@,
    {
        chars.push(c);
    }
    chars
}

/// The characters from `from` up to `to`, as a text.
pub fn chars_text(chars: &Vec<char>, from: usize, to: usize) -> (text: String)
    requires
        from <= to <= chars@.len(),
    ensures
        text@ == chars@.subrange(from as int, to as int),
{
    let mut text = String::new();
    let mut i: usize = from;
    while i < to
        invariant
            from <= i <= to <= chars@.len(),
            text@ == chars@.subrange(from as int, i as int),
        decreases to - i,
    {
        text.push(chars[i]);
        i = i + 1;
    }
    text
}

/// The characters of each text of a list.
pub open spec fn texts(list: Seq<String>) -> Seq<Seq<char>> {
    list.map_values(|s: String| s@)
}

/// Three texts in a row.
pub fn joined3(a: &str, b: &str, c: &str) -> (r: String)
    ensures
        r@ == a@ + b@ + c@,
{
    let mut r = a.to_owned();
    r.append(b);
    r.append(c);
    r
}

/// Texts in a row, with a separator between each two.
pub open spec fn join(parts: Seq<Seq<char>>, separator: Seq<char>) -> Seq<char>
    decreases parts.len(),
{
    if parts.len() == 0 {
        Seq::empty()
    } else if parts.len() == 1 {
        parts[0]
    } else {
        join(parts.drop_last(), separator) + separator + parts.last()
    }
}

/// Texts in a row, with a separator between each two.
pub fn join_texts(parts: &Vec<String>, separator: &str) -> (r: String)
    ensures
        r@ == join(texts(parts@), separator@),
{
    let ghost all = texts(parts@);
    let mut r = String::new();
    let mut i: usize = 0;
    assert(join(all.take(0), separator@) =~= Seq::empty());
    while i < parts.len()
        invariant
            i <= parts@.len(),
            all == texts(parts@),
            r@ == join(all.take(i as int), separator@),
        decreases parts@.len() - i,
    {
        assert(all.take(i + 1).drop_last() =~= all.take(i as int));
        assert(all.take(i + 1).last() == parts@[i as int]@);
        if i > 0 {
            r.append(separator);
        }
        r.append(parts[i].as_str());
        assert(i == 0 ==> r@ =~= parts@[0]@);
        i = i + 1;
    }
    assert(all.take(i as int) =~= all);
    r
}

/// Whether a text has no characters.
pub fn is_empty_text(contents: &str) -> (yes: bool)
    ensures
        yes == (contents@.len() == 0),
{
    let yes = same_text(contents, "");
    proof {
        reveal_strlit("");
        assert(yes ==> contents@.len() == 0);
        assert(contents@.len() == 0 ==> contents@ =~= ""@);
    }
    yes
}

/// Whether two texts are the same.
pub fn same_text(left: &str, right: &str) -> (same: bool)
    ensures
        same == (left@ == right@),
{
    left.to_owned() == right.to_owned()
}

/// Whether `text` begins with `prefix`.
pub fn starts_with(text: &str, prefix: &str) -> (yes: bool)
    ensures
        yes == prefix@.is_prefix_of(text@),
{
    let t = text_chars(text);
    let p = text_chars(prefix);
    matches_at(&t, &p, 0)
}

/// `part` stands in `text` from position `at` on.
pub open spec fn stands_at(text: Seq<char>, part: Seq<char>, at: int) -> bool {
    &&& 0 <= at <= at + part.len() <= text.len()
    &&& text.subrange(at, at + part.len()) == part
}

/// `part` stands somewhere in `text`.
pub open spec fn contains(text: Seq<char>, part: Seq<char>) -> bool {
    exists|at: int| stands_at(text, part, at)
}

/// Whether `part` stands in `text` from position `at` on.
fn matches_at(text: &Vec<char>, part: &Vec<char>, at: usize) -> (yes: bool)
    requires
        at <= text@.len(),
    ensures
        yes == stands_at(text@, part@, at as int),
        at == 0 ==> yes == part@.is_prefix_of(text@),
{
    if text.len() - at < part.len() {
        return false;
    }
    let mut i: usize = 0;
    while i < part.len()
        invariant
            i <= part@.len(),
            at + part@.len() <= text.len(),
            forall|j: int| 0 <= j < i ==> text@[at + j] == part@[j],
        decreases part@.len() - i,
    {
        if text[at + i] != part[i] {
            assert(text@.subrange(at as int, at + part@.len())[i as int] != part@[i as int]);
            return false;
        }
        i = i + 1;
    }
    assert(text@.subrange(at as int, at + part@.len()) =~= part@);
    true
}

/// Whether `part` stands somewhere in `text`.
pub fn contains_text(text: &str, part: &str) -> (yes: bool)
    ensures
        yes == contains(text@, part@),
{
    let t = text_chars(text);
    let p = text_chars(part);
    let mut at: usize = 0;
    while at < t.len()
        invariant
            at <= t@.len(),
            t@ == text@,
            p@ == part@,
            forall|j: int| 0 <= j < at ==> !stands_at(t@, p@, j),
        decreases t@.len() - at,
    {
        if matches_at(&t, &p, at) {
            return true;
        }
        at = at + 1;
    }
    matches_at(&t, &p, at)
}

/// The characters that count as white space.
pub open spec fn is_space(c: char) -> bool {
    ||| '\u{9}' <= c <= '\u{d}'
    ||| c == '\u{20}'
    ||| c == '\u{85}'
    ||| c == '\u{a0}'
    ||| c == '\u{1680}'
    ||| '\u{2000}' <= c <= '\u{200a}'
    ||| c == '\u{2028}'
    ||| c == '\u{2029}'
    ||| c == '\u{202f}'
    ||| c == '\u{205f}'
    ||| c == '\u{3000}'
}

fn space_char(c: char) -> (yes: bool)
    ensures
        yes == is_space(c),
{
    ('\u{9}' <= c && c <= '\u{d}') || c == '\u{20}' || c == '\u{85}' || c == '\u{a0}' || c
        == '\u{1680}' || ('\u{2000}' <= c && c <= '\u{200a}') || c == '\u{2028}' || c == '\u{2029}'
        || c == '\u{202f}' || c == '\u{205f}' || c == '\u{3000}'
}

/// The text without the white space in front of it.
pub open spec fn trimmed_start(s: Seq<char>) -> Seq<char>
    decreases s.len(),
{
    if s.len() > 0 && is_space(s[0]) {
        trimmed_start(s.subrange(1, s.len() as int))
    } else {
        s
    }
}

/// The text without the white space behind it.
pub open spec fn trimmed_end(s: Seq<char>) -> Seq<char>
    decreases s.len(),
{
    if s.len() > 0 && is_space(s[s.len() - 1]) {
        trimmed_end(s.subrange(0, s.len() - 1))
    } else {
        s
    }
}

/// The text without the white space around it.
pub open spec fn trimmed(s: Seq<char>) -> Seq<char> {
    trimmed_end(trimmed_start(s))
}

proof fn lemma_trimmed_start(s: Seq<char>)
    ensures
        trimmed_start(s).len() > 0 ==> !is_space(trimmed_start(s)[0]),
    decreases s.len(),
{
    if s.len() > 0 && is_space(s[0]) {
        lemma_trimmed_start(s.subrange(1, s.len() as int));
    }
}

proof fn lemma_trimmed_end(s: Seq<char>)
    ensures
        trimmed_end(s).len() <= s.len(),
        trimmed_end(s) == s.take(trimmed_end(s).len() as int),
        trimmed_end(s).len() > 0 ==> !is_space(trimmed_end(s).last()),
    decreases s.len(),
{
    if s.len() > 0 && is_space(s[s.len() - 1]) {
        let front = s.subrange(0, s.len() - 1);
        lemma_trimmed_end(front);
        let n = trimmed_end(front).len() as int;
        assert(front.take(n) =~= s.take(n));
    } else {
        assert(s.take(s.len() as int) =~= s);
    }
}

/// A trimmed text has no white space at its ends.
pub proof fn lemma_trimmed_ends(s: Seq<char>)
    ensures
        trimmed(s).len() > 0 ==> !is_space(trimmed(s)[0]) && !is_space(trimmed(s).last()),
{
    lemma_trimmed_start(s);
    lemma_trimmed_end(trimmed_start(s));
}

/// Nothing is left of a text that is trimmed just where it is all white space.
pub proof fn blank_texts_are_all_space(s: Seq<char>)
    ensures
        trimmed(s).len() == 0 <==> forall|i: int|
            0 <= i < s.len() ==> is_space(#[trigger] s[i]),
    decreases s.len(),
{
    if s.len() > 0 && is_space(s[0]) {
        let rest = s.subrange(1, s.len() as int);
        blank_texts_are_all_space(rest);
        assert(trimmed(s) == trimmed(rest));
        assert forall|i: int| 0 <= i < s.len() && (forall|j: int|
            0 <= j < rest.len() ==> is_space(#[trigger] rest[j])) implies is_space(
            #[trigger] s[i],
        ) by {
            if i > 0 {
                assert(rest[i - 1] == s[i]);
            }
        }
        assert forall|j: int| 0 <= j < rest.len() && (forall|i: int|
            0 <= i < s.len() ==> is_space(#[trigger] s[i])) implies is_space(
            #[trigger] rest[j],
        ) by {
            assert(rest[j] == s[j + 1]);
        }
    } else if s.len() > 0 {
        assert(trimmed_start(s) == s);
        lemma_first_stays(s);
    }
}

proof fn lemma_first_stays(s: Seq<char>)
    requires
        s.len() > 0,
        !is_space(s[0]),
    ensures
        trimmed_end(s).len() > 0,
    decreases s.len(),
{
    if is_space(s[s.len() - 1]) {
        lemma_first_stays(s.subrange(0, s.len() - 1));
    }
}

/// A text without white space at its ends is trimmed.
pub proof fn lemma_trimmed_is_kept(s: Seq<char>)
    requires
        s.len() > 0 ==> !is_space(s[0]) && !is_space(s.last()),
    ensures
        trimmed(s) == s,
{
}

/// Removes the white space in front of a text.
pub fn trim_start(text: &str) -> (r: String)
    ensures
        r@ == trimmed_start(text@),
{
    let chars = text_chars(text);
    let mut from: usize = 0;
    assert(chars@.subrange(0, chars@.len() as int) =~= chars@);
    while from < chars.len() && space_char(chars[from])
        invariant
            from <= chars@.len(),
            trimmed_start(chars@) == trimmed_start(chars@.subrange(from as int, chars@.len() as int)),
        decreases chars@.len() - from,
    {
        let ghost rest = chars@.subrange(from as int, chars@.len() as int);
        assert(rest.subrange(1, rest.len() as int) =~= chars@.subrange(
            from + 1,
            chars@.len() as int,
        ));
        from = from + 1;
    }
    chars_text(&chars, from, chars.len())
}

/// Removes the white space around a text.
pub fn trim(text: &str) -> (r: String)
    ensures
        r@ == trimmed(text@),
{
    let start = trim_start(text);
    let chars = text_chars(start.as_str());
    let mut to: usize = chars.len();
    assert(chars@.subrange(0, chars@.len() as int) =~= chars@);
    while to > 0 && space_char(chars[to - 1])
        invariant
            to <= chars@.len(),
            trimmed_end(chars@) == trimmed_end(chars@.subrange(0, to as int)),
        decreases to,
    {
        let ghost rest = chars@.subrange(0, to as int);
        assert(rest.subrange(0, rest.len() - 1) =~= chars@.subrange(0, to - 1));
        to = to - 1;
    }
    chars_text(&chars, 0, to)
}

/// The lower-case form of an ASCII letter, every other character itself.
pub open spec fn ascii_lower(c: char) -> char {
    if 'A' <= c <= 'Z' {
        (c as int + 32) as char
    } else {
        c
    }
}

/// The upper-case form of an ASCII letter, every other character itself.
pub open spec fn ascii_upper(c: char) -> char {
    if 'a' <= c <= 'z' {
        (c as int - 32) as char
    } else {
        c
    }
}

/// The text with its ASCII letters in lower case.
pub open spec fn lower(s: Seq<char>) -> Seq<char> {
    s.map_values(|c: char| ascii_lower(c))
}

/// The text with its ASCII letters in upper case.
pub open spec fn upper(s: Seq<char>) -> Seq<char> {
    s.map_values(|c: char| ascii_upper(c))
}

/// A text in lower case stays as it is, and letters do not turn into white space.
pub proof fn lemma_lower_is_stable(s: Seq<char>)
    ensures
        lower(lower(s)) == lower(s),
        forall|i: int| 0 <= i < s.len() ==> is_space(#[trigger] lower(s)[i]) == is_space(s[i]),
{
    assert(lower(lower(s)) =~= lower(s));
}

pub fn lower_char(c: char) -> (r: char)
    ensures
        r == ascii_lower(c),
{
    if 'A' <= c && c <= 'Z' {
        ((c as u8) + 32) as char
    } else {
        c
    }
}

fn upper_char(c: char) -> (r: char)
    ensures
        r == ascii_upper(c),
{
    if 'a' <= c && c <= 'z' {
        ((c as u8) - 32) as char
    } else {
        c
    }
}

/// Puts the ASCII letters of a text in lower case.
pub fn to_lower(text: &str) -> (r: String)
    ensures
        r@ == lower(text@),
{
    let mut r = String::new();
    for c in it: text.chars()
        invariant
            r@ == lower(text@.take(it.index())),
            it.seq() == text@,
    {
        assert(lower(text@.take(it.index() + 1)) =~= lower(text@.take(it.index())).push(
            ascii_lower(c),
        ));
        r.push(lower_char(c));
    }
    r
}

/// Puts the ASCII letters of a text in upper case.
pub fn to_upper(text: &str) -> (r: String)
    ensures
        r@ == upper(text@),
{
    let mut r = String::new();
    for c in it: text.chars()
        invariant
            r@ == upper(text@.take(it.index())),
            it.seq() == text@,
    {
        assert(upper(text@.take(it.index() + 1)) =~= upper(text@.take(it.index())).push(
            ascii_upper(c),
        ));
        r.push(upper_char(c));
    }
    r
}

/// Whether two texts are the same but for the case of their ASCII letters.
pub fn same_ignoring_case(left: &str, right: &str) -> (same: bool)
    ensures
        same == (lower(left@) == lower(right@)),
{
    let l = to_lower(left);
    let r = to_lower(right);
    l == r
}

/// The character of a digit below 16.
pub open spec fn digit_char(digit: int) -> char {
    if digit < 10 {
        ('0' as int + digit) as char
    } else {
        ('a' as int + digit - 10) as char
    }
}

/// The decimal digits of a number, without leading zeros.
pub open spec fn nat_text(n: nat) -> Seq<char>
    decreases n,
{
    if n < 10 {
        seq![digit_char(n as int)]
    } else {
        nat_text(n / 10).push(digit_char((n % 10) as int))
    }
}

/// The decimal digits of a number, behind a minus sign where it is negative.
pub open spec fn int_text(n: int) -> Seq<char> {
    if n < 0 {
        seq!['-'] + nat_text((-n) as nat)
    } else {
        nat_text(n as nat)
    }
}

/// A number with leading zeros up to a width.
pub open spec fn padded(n: nat, width: nat) -> Seq<char> {
    let digits = nat_text(n);
    if digits.len() < width {
        Seq::new((width - digits.len()) as nat, |i: int| '0') + digits
    } else {
        digits
    }
}

fn digit(value: u8) -> (c: char)
    requires
        value < 16,
    ensures
        c == digit_char(value as int),
{
    if value < 10 {
        (48 + value) as char
    } else {
        (97 + (value - 10)) as char
    }
}

/// A number in decimal.
pub fn u64_text(n: u64) -> (text: String)
    ensures
        text@ == nat_text(n as nat),
    decreases n,
{
    let mut text = if n < 10 {
        String::new()
    } else {
        u64_text(n / 10)
    };
    let last: u8 = (n % 10) as u8;
    text.push(digit(last));
    assert(n < 10 ==> text@ =~= seq![digit_char(n as int)]);
    text
}

/// A number in decimal.
pub fn i64_text(n: i64) -> (text: String)
    ensures
        text@ == int_text(n as int),
{
    if n >= 0 {
        return u64_text(n as u64);
    }
    let magnitude: u64 = (-(n as i128)) as u64;
    let digits = u64_text(magnitude);
    let mut text = String::new();
    text.push('-');
    text.append(digits.as_str());
    assert(text@ =~= seq!['-'] + nat_text(magnitude as nat));
    text
}

/// The last `width` hexadecimal digits of a number, with leading zeros.
pub open spec fn hex_text(n: nat, width: nat) -> Seq<char>
    decreases width,
{
    if width == 0 {
        Seq::empty()
    } else {
        hex_text(n / 16, (width - 1) as nat).push(digit_char((n % 16) as int))
    }
}

/// The last `width` hexadecimal digits of a number, with leading zeros.
pub fn u64_hex(n: u64, width: usize) -> (text: String)
    ensures
        text@ == hex_text(n as nat, width as nat),
    decreases width,
{
    if width == 0 {
        return String::new();
    }
    let mut text = u64_hex(n / 16, width - 1);
    let last: u8 = (n % 16) as u8;
    text.push(digit(last));
    text
}

/// The characters of an error text.
pub open spec fn error_text<T>(r: Result<T, String>) -> Result<T, Seq<char>> {
    match r {
        Ok(value) => Ok(value),
        Err(error) => Err(error@),
    }
}

/// Why a text is not an integer of the wanted range.
#[derive(Clone, Copy, Debug, PartialEq, Eq, Structural)]
pub enum IntError {
    Empty,
    InvalidDigit,
    PosOverflow,
    NegOverflow,
}

impl IntError {
    pub open spec fn text(self) -> Seq<char> {
        match self {
            IntError::Empty => "cannot parse integer from empty string"@,
            IntError::InvalidDigit => "invalid digit found in string"@,
            IntError::PosOverflow => "number too large to fit in target type"@,
            IntError::NegOverflow => "number too small to fit in target type"@,
        }
    }

    /// The error in words.
    pub fn message(self) -> (text: String)
        ensures
            text@ == self.text(),
    {
        match self {
            IntError::Empty => "cannot parse integer from empty string".to_owned(),
            IntError::InvalidDigit => "invalid digit found in string".to_owned(),
            IntError::PosOverflow => "number too large to fit in target type".to_owned(),
            IntError::NegOverflow => "number too small to fit in target type".to_owned(),
        }
    }
}

pub open spec fn is_digit(c: char) -> bool {
    '0' <= c <= '9'
}

/// Whether a character is an ASCII digit.
pub fn digit_of(c: char) -> (yes: bool)
    ensures
        yes == is_digit(c),
{
    '0' <= c && c <= '9'
}

/// The position behind the digits that stand in `s` from `from` on.
pub open spec fn digits_end(s: Seq<char>, from: int) -> int
    decreases s.len() - from,
{
    if 0 <= from < s.len() && is_digit(s[from]) {
        digits_end(s, from + 1)
    } else {
        from
    }
}

/// The number that decimal digits write.
pub open spec fn digits_value(s: Seq<char>) -> nat
    decreases s.len(),
{
    if s.len() == 0 {
        0
    } else {
        digits_value(s.drop_last()) * 10 + (s.last() as int - '0' as int) as nat
    }
}

/// The integer between `min` and `max` that a text writes: digits behind an optional sign, where
/// a minus sign is accepted only if `min` is negative. A value out of range is reported before a
/// character that follows it and is no digit.
pub open spec fn parsed_int(s: Seq<char>, min: int, max: int) -> Result<int, IntError> {
    let negative = s.len() > 0 && s[0] == '-' && min < 0;
    let from: int = if negative || (s.len() > 0 && s[0] == '+') {
        1
    } else {
        0
    };
    let end = digits_end(s, from);
    let value = digits_value(s.subrange(from, end)) as int;
    if s.len() == 0 {
        Err(IntError::Empty)
    } else if negative && -value < min {
        Err(IntError::NegOverflow)
    } else if !negative && value > max {
        Err(IntError::PosOverflow)
    } else if end < s.len() || end == from {
        Err(IntError::InvalidDigit)
    } else if negative {
        Ok(-value)
    } else {
        Ok(value)
    }
}

proof fn lemma_digits_end(s: Seq<char>, from: int)
    requires
        0 <= from <= s.len(),
    ensures
        from <= digits_end(s, from) <= s.len(),
        forall|i: int| from <= i < digits_end(s, from) ==> is_digit(s[i]),
        digits_end(s, from) < s.len() ==> !is_digit(s[digits_end(s, from)]),
    decreases s.len() - from,
{
    if from < s.len() && is_digit(s[from]) {
        lemma_digits_end(s, from + 1);
    }
}

/// A longer run of digits writes at least as much.
proof fn lemma_digits_value_grows(s: Seq<char>, from: int, mid: int, end: int)
    requires
        0 <= from <= mid <= end <= s.len(),
        forall|i: int| from <= i < end ==> is_digit(s[i]),
    ensures
        digits_value(s.subrange(from, mid)) <= digits_value(s.subrange(from, end)),
    decreases end - mid,
{
    if mid < end {
        lemma_digits_value_grows(s, from, mid, end - 1);
        assert(s.subrange(from, end).drop_last() =~= s.subrange(from, end - 1));
    }
}

/// Reads an integer between `-below` and `max`, as magnitude and sign.
fn parse_magnitude(text: &str, below: u64, max: u64) -> (r: Result<(u64, bool), IntError>)
    ensures
        match parsed_int(text@, -(below as int), max as int) {
            Ok(value) => r matches Ok(m) && value == (if m.1 {
                -(m.0 as int)
            } else {
                m.0 as int
            }) && (m.1 ==> below > 0),
            Err(error) => r == Err::<(u64, bool), IntError>(error),
        },
{
    let chars = text_chars(text);
    if chars.len() == 0 {
        return Err(IntError::Empty);
    }
    let negative = chars[0] == '-' && below > 0;
    let from: usize = if negative || chars[0] == '+' {
        1
    } else {
        0
    };
    let limit: u64 = if negative {
        below
    } else {
        max
    };
    let mut i: usize = from;
    let mut value: u128 = 0;
    let ghost end = digits_end(chars@, from as int);
    proof {
        lemma_digits_end(chars@, from as int);
    }
    while i < chars.len() && digit_of(chars[i])
        invariant
            from <= i <= end <= chars@.len(),
            end == digits_end(chars@, from as int),
            forall|j: int| from <= j < end ==> is_digit(chars@[j]),
            end < chars@.len() ==> !is_digit(chars@[end]),
            value == digits_value(chars@.subrange(from as int, i as int)),
            value <= limit,
            limit == if negative { below } else { max },
            text@ == chars@,
            chars@.len() > 0,
            negative == (chars@[0] == '-' && below > 0),
            from == if negative || chars@[0] == '+' { 1int } else { 0int },
        decreases chars@.len() - i,
    {
        let ghost run = chars@.subrange(from as int, i + 1);
        assert(run.drop_last() =~= chars@.subrange(from as int, i as int));
        value = value * 10 + ((chars[i] as u8) - 48) as u128;
        assert(value == digits_value(run));
        if value > limit as u128 {
            proof {
                lemma_digits_value_grows(chars@, from as int, i + 1, end);
            }
            if negative {
                return Err(IntError::NegOverflow);
            }
            return Err(IntError::PosOverflow);
        }
        i = i + 1;
    }
    if i < chars.len() || i == from {
        return Err(IntError::InvalidDigit);
    }
    Ok((value as u64, negative))
}

/// Reads an `i64`.
pub fn parse_i64_text(text: &str) -> (r: Result<i64, IntError>)
    ensures
        match parsed_int(text@, i64::MIN as int, i64::MAX as int) {
            Ok(value) => r matches Ok(v) && v == value,
            Err(error) => r == Err::<i64, IntError>(error),
        },
{
    match parse_magnitude(text, 0x8000_0000_0000_0000, 0x7fff_ffff_ffff_ffff) {
        Ok((value, negative)) => if negative {
            Ok((-(value as i128)) as i64)
        } else {
            Ok(value as i64)
        },
        Err(error) => Err(error),
    }
}

/// Reads a `u64`.
pub fn parse_u64_text(text: &str) -> (r: Result<u64, IntError>)
    ensures
        match parsed_int(text@, 0, u64::MAX as int) {
            Ok(value) => r matches Ok(v) && v == value,
            Err(error) => r == Err::<u64, IntError>(error),
        },
{
    match parse_magnitude(text, 0, u64::MAX) {
        Ok((value, _)) => Ok(value),
        Err(error) => Err(error),
    }
}

/// Reads a `usize`.
pub fn parse_usize_text(text: &str) -> (r: Result<usize, IntError>)
    ensures
        match parsed_int(text@, 0, usize::MAX as int) {
            Ok(value) => r matches Ok(v) && v == value,
            Err(error) => r == Err::<usize, IntError>(error),
        },
{
    match parse_magnitude(text, 0, usize::MAX as u64) {
        Ok((value, _)) => Ok(value as usize),
        Err(error) => Err(error),
    }
}

/// A number is read back from its decimal digits.
pub proof fn printed_numbers_are_read_back(n: nat, max: int)
    requires
        n <= max,
    ensures
        parsed_int(nat_text(n), 0, max) == Ok::<int, IntError>(n as int),
{
    lemma_nat_text(n);
    let s = nat_text(n);
    lemma_all_digits_end(s, 0);
    assert(s.subrange(0, s.len() as int) =~= s);
}

/// An integer is read back from its digits and its sign.
pub proof fn printed_integers_are_read_back(n: int, min: int, max: int)
    requires
        min <= n <= max,
        min < 0 <= max,
    ensures
        parsed_int(int_text(n), min, max) == Ok::<int, IntError>(n),
{
    let magnitude: nat = if n < 0 {
        (-n) as nat
    } else {
        n as nat
    };
    let digits = nat_text(magnitude);
    let s = int_text(n);
    lemma_nat_text(magnitude);
    if n < 0 {
        reveal_strlit("-");
        assert(s[0] == '-');
        assert(s.subrange(1, s.len() as int) =~= digits);
        assert forall|i: int| 1 <= i < s.len() implies is_digit(#[trigger] s[i]) by {
            assert(s[i] == digits[i - 1]);
        }
        lemma_digits_reach_the_end(s, 1);
    } else {
        lemma_digits_reach_the_end(s, 0);
        assert(s.subrange(0, s.len() as int) =~= s);
        assert(is_digit(s[0]));
    }
}

proof fn lemma_digits_reach_the_end(s: Seq<char>, from: int)
    requires
        0 <= from <= s.len(),
        forall|i: int| from <= i < s.len() ==> is_digit(#[trigger] s[i]),
    ensures
        digits_end(s, from) == s.len(),
    decreases s.len() - from,
{
    if from < s.len() {
        lemma_digits_reach_the_end(s, from + 1);
    }
}

/// Digits with zeros in front write the number that is padded, in at least the given width.
pub proof fn padded_numbers_are_read_back(n: nat, width: nat, max: int)
    requires
        n <= max,
        width > 0,
    ensures
        parsed_int(padded(n, width), 0, max) == Ok::<int, IntError>(n as int),
        padded(n, width).len() >= width,
{
    lemma_nat_text(n);
    let digits = nat_text(n);
    let s = padded(n, width);
    if digits.len() < width {
        lemma_zeros_in_front(digits, (width - digits.len()) as nat);
    }
    assert forall|i: int| 0 <= i < s.len() implies is_digit(#[trigger] s[i]) by {
        if digits.len() < width && i >= width - digits.len() {
            assert(s[i] == digits[i - (width - digits.len())]);
        }
    }
    lemma_all_digits_end(s, 0);
    assert(s.subrange(0, s.len() as int) =~= s);
    assert(is_digit(s[0]));
}

/// The digits of a number are digits.
pub proof fn digits_of_numbers(n: nat)
    ensures
        nat_text(n).len() > 0,
        forall|i: int| 0 <= i < nat_text(n).len() ==> is_digit(#[trigger] nat_text(n)[i]),
{
    lemma_nat_text(n);
}

/// A number below a hundred takes two digits.
pub proof fn two_digits(n: nat)
    requires
        n < 100,
    ensures
        padded(n, 2).len() == 2,
{
    reveal_with_fuel(nat_text, 3);
}

/// A number below a thousand takes three digits.
pub proof fn three_digits(n: nat)
    requires
        n < 1000,
    ensures
        padded(n, 3).len() == 3,
{
    reveal_with_fuel(nat_text, 4);
}

/// A number below ten thousand takes four digits.
pub proof fn four_digits(n: nat)
    requires
        n < 10000,
    ensures
        padded(n, 4).len() == 4,
{
    reveal_with_fuel(nat_text, 5);
}

proof fn lemma_zeros_in_front(digits: Seq<char>, zeros: nat)
    ensures
        digits_value(Seq::new(zeros, |i: int| '0') + digits) == digits_value(digits),
    decreases digits.len(),
{
    let s = Seq::new(zeros, |i: int| '0') + digits;
    if digits.len() > 0 {
        assert(s.drop_last() =~= Seq::new(zeros, |i: int| '0') + digits.drop_last());
        lemma_zeros_in_front(digits.drop_last(), zeros);
    } else {
        lemma_only_zeros(s);
    }
}

proof fn lemma_only_zeros(s: Seq<char>)
    requires
        forall|i: int| 0 <= i < s.len() ==> #[trigger] s[i] == '0',
    ensures
        digits_value(s) == 0,
    decreases s.len(),
{
    if s.len() > 0 {
        assert(s.last() == s[s.len() - 1]);
        assert forall|i: int| 0 <= i < s.drop_last().len() implies #[trigger] s.drop_last()[i]
            == '0' by {
            assert(s.drop_last()[i] == s[i]);
        }
        lemma_only_zeros(s.drop_last());
    }
}

proof fn lemma_nat_text(n: nat)
    ensures
        nat_text(n).len() > 0,
        forall|i: int| 0 <= i < nat_text(n).len() ==> is_digit(#[trigger] nat_text(n)[i]),
        digits_value(nat_text(n)) == n,
    decreases n,
{
    let s = nat_text(n);
    if n >= 10 {
        lemma_nat_text(n / 10);
        assert(s.drop_last() =~= nat_text(n / 10));
    } else {
        assert(s.drop_last() =~= Seq::empty());
        reveal_with_fuel(digits_value, 2);
    }
}

proof fn lemma_all_digits_end(s: Seq<char>, from: int)
    requires
        0 <= from <= s.len(),
        forall|i: int| 0 <= i < s.len() ==> is_digit(#[trigger] s[i]),
    ensures
        digits_end(s, from) == s.len(),
    decreases s.len() - from,
{
    if from < s.len() {
        lemma_all_digits_end(s, from + 1);
    }
}

} // verus!
