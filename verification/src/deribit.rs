//! Deribit messages: channels, instruments and where a message is recorded.

use vstd::prelude::*;

use crate::json;
use crate::json::Json;
use crate::json::JsonTree;
use crate::text;
use crate::text::same_text;
use crate::wire;

verus! {

/// The kinds of Deribit instruments that are followed.
#[derive(Clone, Copy, Debug, PartialEq, Eq, Structural)]
pub enum DeribitInstrumentKind {
    Future,
    Option,
}

impl DeribitInstrumentKind {
    pub open spec fn name(self) -> Seq<char> {
        match self {
            DeribitInstrumentKind::Future => "future"@,
            DeribitInstrumentKind::Option => "option"@,
        }
    }

    /// The kind as Deribit writes it.
    pub fn as_str(self) -> (name: &'static str)
        ensures
            name@ == self.name(),
    {
        match self {
            DeribitInstrumentKind::Future => "future",
            DeribitInstrumentKind::Option => "option",
        }
    }
}

/// The subscription channel that a message names.
pub open spec fn message_channel(message: JsonTree) -> Option<Seq<char>> {
    json::string_of(json::under(message.field("params"@), "channel"@))
}

/// The data of a message: that of its `params`, else its own.
pub open spec fn message_data(message: JsonTree) -> Option<JsonTree> {
    match json::under(message.field("params"@), "data"@) {
        Some(data) => Some(data),
        None => message.field("data"@),
    }
}

/// The subscription channel that a message names.
pub fn deribit_message_channel(message: &Json) -> (channel: Option<&str>)
    ensures
        json::opt_str(channel) == message_channel(message@),
{
    json::str_of(json::get_under(message.get("params"), "channel"))
}

/// The data of a message: that of its `params`, else its own.
pub fn deribit_message_data(message: &Json) -> (data: Option<&Json>)
    ensures
        json::tree_of(data) == message_data(message@),
{
    match json::get_under(message.get("params"), "data") {
        Some(data) => Some(data),
        None => message.get("data"),
    }
}

/// The output channel for the messages of a subscription channel.
pub open spec fn output_channel(channel: Option<Seq<char>>) -> Seq<char> {
    match channel {
        Some(name) => if "instrument.creation."@.is_prefix_of(name) {
            "instrument_creation"@
        } else if "instrument.state."@.is_prefix_of(name) {
            "instrument_state"@
        } else if "incremental_ticker."@.is_prefix_of(name) {
            "incremental_ticker"@
        } else if "trades."@.is_prefix_of(name) {
            "trades"@
        } else {
            "control"@
        },
        None => "control"@,
    }
}

/// The output channel of a message.
pub fn deribit_output_channel_of(message: &Json) -> (channel: &'static str)
    ensures
        channel@ == output_channel(message_channel(message@)),
{
    match deribit_message_channel(message) {
        Some(name) => if text::starts_with(name, "instrument.creation.") {
            "instrument_creation"
        } else if text::starts_with(name, "instrument.state.") {
            "instrument_state"
        } else if text::starts_with(name, "incremental_ticker.") {
            "incremental_ticker"
        } else if text::starts_with(name, "trades.") {
            "trades"
        } else {
            "control"
        },
        None => "control",
    }
}

/// The output channel of a text message; one that is no JSON document goes to `control`.
pub fn deribit_output_channel(message: &str) -> (channel: &'static str)
    ensures
        channel@ == match wire::parsed_document(message@) {
            Ok(tree) => output_channel(message_channel(tree)),
            Err(_) => "control"@,
        },
{
    match wire::parse_json(message) {
        Ok(value) => deribit_output_channel_of(&value),
        Err(_) => "control",
    }
}

/// The type of a heartbeat message; nothing for any other message.
pub open spec fn heartbeat_type(message: JsonTree) -> Option<Seq<char>> {
    if json::string_of(message.field("method"@)) == Some("heartbeat"@) {
        json::string_of(json::under(message.field("params"@), "type"@))
    } else {
        None
    }
}

/// The type of a heartbeat message; nothing for any other message.
pub fn deribit_heartbeat_type(message: &Json) -> (kind: Option<&str>)
    ensures
        json::opt_str(kind) == heartbeat_type(message@),
{
    match json::str_of(message.get("method")) {
        Some(method) => if same_text(method, "heartbeat") {
            json::str_of(json::get_under(message.get("params"), "type"))
        } else {
            None
        },
        None => None,
    }
}

/// The id of the request that a message answers.
pub fn deribit_response_id(message: &Json) -> (id: Option<u64>)
    ensures
        id == json::u64_of(message@.field("id"@)),
{
    match message.get("id") {
        Some(value) => value.as_u64(),
        None => None,
    }
}

/// One of the kinds has the name.
pub open spec fn kind_allowed(kinds: Seq<DeribitInstrumentKind>, name: Seq<char>) -> bool {
    exists|i: int| 0 <= i < kinds.len() && (#[trigger] kinds[i]).name() == name
}

fn is_kind_allowed(kinds: &[DeribitInstrumentKind], name: &str) -> (yes: bool)
    ensures
        yes == kind_allowed(kinds@, name@),
{
    let mut i: usize = 0;
    while i < kinds.len()
        invariant
            i <= kinds@.len(),
            forall|j: int| 0 <= j < i ==> (#[trigger] kinds@[j]).name() != name@,
        decreases kinds@.len() - i,
    {
        if same_text(kinds[i].as_str(), name) {
            return true;
        }
        i = i + 1;
    }
    false
}

/// The instrument that a creation message announces: one of BTC where the message names a base
/// currency, and of a wanted kind where it names a kind.
pub open spec fn created_instrument(
    message: JsonTree,
    kinds: Seq<DeribitInstrumentKind>,
) -> Option<Seq<char>> {
    match (message_channel(message), message_data(message)) {
        (Some(channel), Some(data)) => {
            let currency = json::string_of(data.field("base_currency"@));
            let kind = json::string_of(data.field("kind"@));
            if !"instrument.creation."@.is_prefix_of(channel) {
                None
            } else if currency is Some && currency->Some_0 != "BTC"@ {
                None
            } else if kind is Some && !kind_allowed(kinds, kind->Some_0) {
                None
            } else {
                json::string_of(data.field("instrument_name"@))
            }
        },
        _ => None,
    }
}

/// The instrument that a creation message announces, where it is a wanted one.
pub fn deribit_created_instrument_name(
    message: &Json,
    allowed_kinds: &[DeribitInstrumentKind],
) -> (name: Option<String>)
    ensures
        json::opt_text(name) == created_instrument(message@, allowed_kinds@),
{
    let channel = match deribit_message_channel(message) {
        Some(channel) => channel,
        None => return None,
    };
    if !text::starts_with(channel, "instrument.creation.") {
        return None;
    }
    let data = match deribit_message_data(message) {
        Some(data) => data,
        None => return None,
    };
    if let Some(currency) = json::str_of(data.get("base_currency")) {
        if !same_text(currency, "BTC") {
            return None;
        }
    }
    if let Some(kind) = json::str_of(data.get("kind")) {
        if !is_kind_allowed(allowed_kinds, kind) {
            return None;
        }
    }
    match json::str_of(data.get("instrument_name")) {
        Some(name) => Some(name.to_owned()),
        None => None,
    }
}

/// The name of a listed instrument that is followed: of a wanted kind, of BTC by its base
/// currency or product group, not inactive.
pub open spec fn listed_instrument(
    instrument: JsonTree,
    kinds: Seq<DeribitInstrumentKind>,
) -> Option<Seq<char>> {
    let kind = json::string_of(instrument.field("kind"@));
    if kind is Some && kind_allowed(kinds, kind->Some_0) && (json::string_of(
        instrument.field("base_currency"@),
    ) == Some("BTC"@) || json::string_of(instrument.field("product_group"@)) == Some("BTC"@))
        && json::truth_of(instrument.field("is_active"@)) != Some(false) {
        json::string_of(instrument.field("instrument_name"@))
    } else {
        None
    }
}

/// The names of the followed instruments of a list, in its order.
pub open spec fn listed_instruments(
    list: Seq<JsonTree>,
    kinds: Seq<DeribitInstrumentKind>,
) -> Seq<Seq<char>>
    decreases list.len(),
{
    if list.len() == 0 {
        Seq::empty()
    } else {
        let front = listed_instruments(list.drop_last(), kinds);
        match listed_instrument(list.last(), kinds) {
            Some(name) => front.push(name),
            None => front,
        }
    }
}

/// Whether there is a string and it is the given one.
fn is_text(value: Option<&str>, wanted: &str) -> (yes: bool)
    ensures
        yes == (json::opt_str(value) == Some(wanted@)),
{
    match value {
        Some(s) => same_text(s, wanted),
        None => false,
    }
}

fn listed_instrument_name(
    instrument: &Json,
    allowed_kinds: &[DeribitInstrumentKind],
) -> (name: Option<String>)
    ensures
        json::opt_text(name) == listed_instrument(instrument@, allowed_kinds@),
{
    match json::str_of(instrument.get("kind")) {
        Some(kind) => if !is_kind_allowed(allowed_kinds, kind) {
            return None;
        },
        None => return None,
    }
    let is_btc = is_text(json::str_of(instrument.get("base_currency")), "BTC") || is_text(
        json::str_of(instrument.get("product_group")),
        "BTC",
    );
    if !is_btc {
        return None;
    }
    if let Some(is_active) = json::bool_of(instrument.get("is_active")) {
        if !is_active {
            return None;
        }
    }
    match json::str_of(instrument.get("instrument_name")) {
        Some(name) => Some(name.to_owned()),
        None => None,
    }
}

/// The names of the followed instruments in the answer to a request for the current instruments.
pub fn deribit_instrument_names_from_get_instruments_response(
    message: &Json,
    allowed_kinds: &[DeribitInstrumentKind],
) -> (found: Vec<String>)
    ensures
        text::texts(found@) == match json::array_of(message@.field("result"@)) {
            Some(list) => listed_instruments(list, allowed_kinds@),
            None => Seq::empty(),
        },
{
    let mut found: Vec<String> = Vec::new();
    let list = match message.get("result") {
        Some(result) => result.as_array(),
        None => None,
    };
    let instruments = match list {
        Some(instruments) => instruments,
        None => {
            assert(text::texts(found@) =~= Seq::empty());
            return found;
        },
    };
    let ghost trees = json::array_of(message@.field("result"@))->Some_0;
    let mut i: usize = 0;
    while i < instruments.len()
        invariant
            i <= instruments@.len(),
            trees.len() == instruments@.len(),
            forall|j: int| 0 <= j < trees.len() ==> #[trigger] trees[j] == instruments@[j]@,
            text::texts(found@) == listed_instruments(trees.take(i as int), allowed_kinds@),
        decreases instruments@.len() - i,
    {
        assert(trees.take(i + 1).drop_last() =~= trees.take(i as int));
        assert(trees.take(i + 1).last() == instruments@[i as int]@);
        if let Some(name) = listed_instrument_name(&instruments[i], allowed_kinds) {
            let ghost before = text::texts(found@);
            found.push(name);
            assert(text::texts(found@) =~= before.push(name@));
        }
        i = i + 1;
    }
    assert(trees.take(i as int) =~= trees);
    found
}

} // verus!
