//! Numbers of JSON documents, kept as text.

use vstd::prelude::*;

use crate::text;

verus! {

/// The text that `serde_json` keeps of a number text; nothing where the text is no JSON number.
pub uninterp spec fn number_kept(number: Seq<char>) -> Option<Seq<char>>;

/// Digits without a leading zero: the way JSON writes a whole number.
pub open spec fn is_plain_number(number: Seq<char>) -> bool {
    &&& number.len() > 0
    &&& forall|i: int| 0 <= i < number.len() ==> text::is_digit(#[trigger] number[i])
    &&& number.len() > 1 ==> number[0] != '0'
}

/// `FromStr` of `serde_json::Number`, and the text that the number then has. The text is kept
/// again as it is, and so are digits without a leading zero.
#[verifier::external_body]
fn kept_number(number: &str) -> (r: Option<String>)
    ensures
        match r {
            Some(kept) => number_kept(number@) == Some(kept@) && number_kept(kept@) == Some(kept@),
            None => number_kept(number@) is None,
        },
        is_plain_number(number@) ==> (r is Some && r->Some_0@ == number@),
{
    number.parse::<serde_json::Number>().ok().map(|kept| kept.to_string())
}

/// A number of a JSON document: a text that `serde_json` keeps as it is.
#[derive(Debug)]
pub struct JsonNumber {
    digits: String,
}

impl View for JsonNumber {
    type V = Seq<char>;

    closed spec fn view(&self) -> Seq<char> {
        self.digits@
    }
}

impl JsonNumber {
    #[verifier::type_invariant]
    spec fn well_formed(self) -> bool {
        number_kept(self.digits@) == Some(self.digits@)
    }

    /// The number that a text writes.
    pub fn parse(number: &str) -> (r: Option<JsonNumber>)
        ensures
            match r {
                Some(n) => number_kept(number@) == Some(n@),
                None => number_kept(number@) is None,
            },
            is_plain_number(number@) ==> (r is Some && r->Some_0@ == number@),
    {
        match kept_number(number) {
            Some(digits) => Some(JsonNumber { digits }),
            None => None,
        }
    }

    /// The number with a text that is kept as it is.
    pub(crate) fn from_kept(digits: String) -> (r: JsonNumber)
        requires
            number_kept(digits@) == Some(digits@),
        ensures
            r@ == digits@,
    {
        JsonNumber { digits }
    }

    /// A whole number.
    pub fn from_u64(n: u64) -> (r: JsonNumber)
        ensures
            r@ == text::nat_text(n as nat),
    {
        let digits = text::u64_text(n);
        proof {
            lemma_nat_text_is_plain(n as nat);
        }
        JsonNumber::parse(digits.as_str()).unwrap()
    }

    /// The text of the number.
    pub fn as_text(&self) -> (r: &str)
        ensures
            r@ == self@,
            number_kept(self@) == Some(self@),
    {
        proof {
            use_type_invariant(self);
        }
        self.digits.as_str()
    }
}

proof fn lemma_nat_text_is_plain(n: nat)
    ensures
        is_plain_number(text::nat_text(n)),
        n > 0 ==> text::nat_text(n)[0] != '0',
    decreases n,
{
    if n >= 10 {
        lemma_nat_text_is_plain(n / 10);
    }
}

} // verus!
