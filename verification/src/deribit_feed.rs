//! The conversation with Deribit: what is requested, and how messages change what is followed.

use std::collections::HashSet;

use vstd::prelude::*;

use crate::deribit;
use crate::deribit::DeribitInstrumentKind;
use crate::json;
use crate::json::Json;
use crate::json::JsonTree;
use crate::text;
use crate::text::same_text;
use crate::wire;

verus! {

broadcast use vstd::std_specs::hash::group_hash_axioms;

/// How many channels one subscription request names at most.
pub const DERIBIT_SUBSCRIBE_CHUNK_SIZE: usize = 200;

/// The pause between two subscription requests, in milliseconds.
pub const DERIBIT_SUBSCRIBE_CHUNK_DELAY_MILLIS: u64 = 250;

/// The pause between two requests for current instruments, in milliseconds.
pub const DERIBIT_GET_INSTRUMENTS_DELAY_MILLIS: u64 = 1000;

/// What a feed remembers from one connection to the next.
pub struct FeedRuntimeState {
    /// The instruments that are followed, each once, in the order in which they were found.
    pub instruments: Vec<String>,
    /// The requests for current instruments that were not answered yet.
    pub get_instruments_request_ids: HashSet<u64>,
    /// The id of the last request.
    pub request_id: u64,
}

/// No text stands in the list twice.
pub open spec fn all_different(list: Seq<Seq<char>>) -> bool {
    forall|i: int, j: int| 0 <= i < j < list.len() ==> list[i] != list[j]
}

impl FeedRuntimeState {
    /// Each instrument is held once.
    pub open spec fn well_formed(self) -> bool {
        all_different(text::texts(self.instruments@))
    }

    /// The state before the first connection.
    pub fn new() -> (state: FeedRuntimeState)
        ensures
            state.well_formed(),
            state.instruments@.len() == 0,
            state.get_instruments_request_ids@ == Set::<u64>::empty(),
            state.request_id == 0,
    {
        FeedRuntimeState {
            instruments: Vec::new(),
            get_instruments_request_ids: HashSet::new(),
            request_id: 0,
        }
    }

    /// A new request id; the largest one is used again.
    pub fn next_deribit_request_id(&mut self) -> (id: u64)
        ensures
            id == next_id(old(self).request_id),
            final(self).request_id == id,
            final(self).instruments == old(self).instruments,
            final(self).get_instruments_request_ids == old(self).get_instruments_request_ids,
    {
        self.request_id = self.request_id.saturating_add(1);
        self.request_id
    }
}

/// The id that follows an id.
pub open spec fn next_id(id: u64) -> u64 {
    if id == u64::MAX {
        u64::MAX
    } else {
        (id + 1) as u64
    }
}

/// Everything but the request id is as it was.
pub open spec fn only_id_changed(before: FeedRuntimeState, after: FeedRuntimeState) -> bool {
    &&& after.instruments == before.instruments
    &&& after.get_instruments_request_ids == before.get_instruments_request_ids
}

/// The channels on which new instruments and state changes of the kinds are announced.
pub open spec fn lifecycle_channels(kinds: Seq<DeribitInstrumentKind>) -> Seq<Seq<char>> {
    Seq::new(
        2 * kinds.len(),
        |i: int|
            if i % 2 == 0 {
                "instrument.creation."@ + kinds[i / 2].name() + ".BTC"@
            } else {
                "instrument.state."@ + kinds[i / 2].name() + ".BTC"@
            },
    )
}

/// The ticker and the trade channel of each instrument.
pub open spec fn instrument_channels(
    instruments: Seq<Seq<char>>,
    trades_interval: Seq<char>,
) -> Seq<Seq<char>> {
    Seq::new(
        2 * instruments.len(),
        |i: int|
            if i % 2 == 0 {
                "incremental_ticker."@ + instruments[i / 2]
            } else {
                "trades."@ + instruments[i / 2] + "."@ + trades_interval
            },
    )
}

/// The channels on which new instruments and state changes of the kinds are announced.
pub fn deribit_lifecycle_channels(kinds: &[DeribitInstrumentKind]) -> (channels: Vec<String>)
    ensures
        text::texts(channels@) == lifecycle_channels(kinds@),
{
    let mut channels: Vec<String> = Vec::new();
    let mut i: usize = 0;
    while i < kinds.len()
        invariant
            i <= kinds@.len(),
            text::texts(channels@) == lifecycle_channels(kinds@.take(i as int)),
        decreases kinds@.len() - i,
    {
        let name = kinds[i].as_str();
        let mut creation = "instrument.creation.".to_owned();
        creation.append(name);
        creation.append(".BTC");
        let mut state = "instrument.state.".to_owned();
        state.append(name);
        state.append(".BTC");
        let ghost before = text::texts(channels@);
        channels.push(creation);
        channels.push(state);
        assert(text::texts(channels@) =~= before.push(creation@).push(state@));
        assert(lifecycle_channels(kinds@.take(i + 1)) =~= before.push(creation@).push(state@));
        i = i + 1;
    }
    assert(kinds@.take(i as int) =~= kinds@);
    channels
}

/// The ticker and the trade channel of an instrument.
pub fn deribit_instrument_channels(instrument_name: &str, trades_interval: &str) -> (channels: Vec<
    String,
>)
    ensures
        text::texts(channels@) == instrument_channels(seq![instrument_name@], trades_interval@),
{
    let mut ticker = "incremental_ticker.".to_owned();
    ticker.append(instrument_name);
    let mut trades = "trades.".to_owned();
    trades.append(instrument_name);
    trades.append(".");
    trades.append(trades_interval);
    let mut channels: Vec<String> = Vec::new();
    channels.push(ticker);
    channels.push(trades);
    assert(text::texts(channels@) =~= instrument_channels(
        seq![instrument_name@],
        trades_interval@,
    ));
    channels
}

/// The channels of a connection's first subscription: the lifecycle channels, then those of the
/// instruments that are followed already.
pub open spec fn initial_channels(
    kinds: Seq<DeribitInstrumentKind>,
    instruments: Seq<Seq<char>>,
    trades_interval: Seq<char>,
) -> Seq<Seq<char>> {
    lifecycle_channels(kinds) + instrument_channels(instruments, trades_interval)
}

/// The channels of a connection's first subscription.
pub fn deribit_initial_channels(
    state: &FeedRuntimeState,
    kinds: &[DeribitInstrumentKind],
    trades_interval: &str,
) -> (channels: Vec<String>)
    ensures
        text::texts(channels@) == initial_channels(
            kinds@,
            text::texts(state.instruments@),
            trades_interval@,
        ),
{
    let mut channels = deribit_lifecycle_channels(kinds);
    let ghost lifecycle = text::texts(channels@);
    let ghost known = text::texts(state.instruments@);
    let mut i: usize = 0;
    while i < state.instruments.len()
        invariant
            i <= state.instruments@.len(),
            known == text::texts(state.instruments@),
            lifecycle == lifecycle_channels(kinds@),
            text::texts(channels@) == lifecycle + instrument_channels(
                known.take(i as int),
                trades_interval@,
            ),
        decreases state.instruments@.len() - i,
    {
        let mut more = deribit_instrument_channels(
            state.instruments[i].as_str(),
            trades_interval,
        );
        let ghost before = channels@;
        let ghost added = more@;
        channels.append(&mut more);
        proof {
            assert(text::texts(channels@) =~= text::texts(before) + text::texts(added));
            assert(known.take(i + 1) =~= known.take(i as int) + seq![known[i as int]]);
            lemma_channels_join(known.take(i as int), seq![known[i as int]], trades_interval@);
        }
        i = i + 1;
    }
    assert(known.take(i as int) =~= known);
    channels
}

/// The channels of two lists of instruments, one behind the other.
proof fn lemma_channels_join(
    front: Seq<Seq<char>>,
    back: Seq<Seq<char>>,
    trades_interval: Seq<char>,
)
    ensures
        instrument_channels(front + back, trades_interval) == instrument_channels(
            front,
            trades_interval,
        ) + instrument_channels(back, trades_interval),
{
    let both = instrument_channels(front + back, trades_interval);
    let split = instrument_channels(front, trades_interval) + instrument_channels(
        back,
        trades_interval,
    );
    assert(both.len() == split.len());
    assert forall|i: int| 0 <= i < both.len() implies both[i] == split[i] by {
        if i >= 2 * front.len() {
            assert((i - 2 * front.len()) / 2 == i / 2 - front.len());
            assert((i - 2 * front.len()) % 2 == i % 2);
        }
    }
    assert(both =~= split);
}

/// A JSON-RPC request.
pub open spec fn request_tree(method: Seq<char>, id: u64, params: JsonTree) -> JsonTree {
    JsonTree::Object(
        map![
            "jsonrpc"@ => JsonTree::Text("2.0"@),
            "method"@ => JsonTree::Text(method),
            "id"@ => JsonTree::Number(text::nat_text(id as nat)),
            "params"@ => params,
        ],
    )
}

fn request(method: &str, id: u64, params: Json) -> (r: Json)
    ensures
        r@ == request_tree(method@, id, params@),
{
    let versioned = json::object_of("jsonrpc", json::text_value("2.0"));
    let named = json::with_entry(versioned, "method", json::text_value(method));
    let numbered = json::with_entry(named, "id", json::number_value(id));
    json::with_entry(numbered, "params", params)
}

/// The request for heartbeats every `interval` seconds.
pub open spec fn set_heartbeat_tree(id: u64, interval: u64) -> JsonTree {
    request_tree(
        "public/set_heartbeat"@,
        id,
        JsonTree::Object(
            map!["interval"@ => JsonTree::Number(text::nat_text(interval as nat))],
        ),
    )
}

/// The request for heartbeats, at least ten seconds apart; nothing where they are switched off.
pub fn deribit_set_heartbeat_request(
    state: &mut FeedRuntimeState,
    heartbeat_secs: u64,
) -> (message: Option<String>)
    ensures
        only_id_changed(*old(state), *final(state)),
        heartbeat_secs == 0 ==> message is None && final(state).request_id == old(
            state,
        ).request_id,
        heartbeat_secs > 0 ==> {
            let interval: u64 = if heartbeat_secs < 10 {
                10
            } else {
                heartbeat_secs
            };
            &&& final(state).request_id == next_id(old(state).request_id)
            &&& json::opt_text(message) == Some(
                wire::written_document(set_heartbeat_tree(final(state).request_id, interval)),
            )
        },
{
    if heartbeat_secs == 0 {
        return None;
    }
    let interval: u64 = if heartbeat_secs < 10 {
        10
    } else {
        heartbeat_secs
    };
    let id = state.next_deribit_request_id();
    let params = json::object_of("interval", json::number_value(interval));
    Some(wire::json_document(&request("public/set_heartbeat", id, params)))
}

/// A request, and how long to wait behind it before the next of its series is sent.
pub struct DeribitRequest {
    pub message: String,
    pub pause_millis: u64,
}

/// The request to subscribe to channels.
pub open spec fn subscribe_tree(id: u64, channels: Seq<Seq<char>>) -> JsonTree {
    request_tree(
        "public/subscribe"@,
        id,
        JsonTree::Object(
            map![
                "channels"@ => JsonTree::Array(
                    channels.map_values(|s: Seq<char>| JsonTree::Text(s)),
                ),
            ],
        ),
    )
}

/// How many requests it takes to subscribe to `count` channels.
pub open spec fn chunk_count(count: nat) -> nat {
    (count + DERIBIT_SUBSCRIBE_CHUNK_SIZE as nat - 1) as nat / DERIBIT_SUBSCRIBE_CHUNK_SIZE as nat
}

/// The channels that the request at a position of the series names.
pub open spec fn chunk(channels: Seq<Seq<char>>, index: nat) -> Seq<Seq<char>> {
    let from = index * DERIBIT_SUBSCRIBE_CHUNK_SIZE;
    let to = from + DERIBIT_SUBSCRIBE_CHUNK_SIZE;
    channels.subrange(
        from,
        if to < channels.len() {
            to
        } else {
            channels.len() as int
        },
    )
}

/// The channels that the first `n` requests of the series name.
pub open spec fn chunks_joined(channels: Seq<Seq<char>>, n: nat) -> Seq<Seq<char>>
    decreases n,
{
    if n == 0 {
        Seq::empty()
    } else {
        chunks_joined(channels, (n - 1) as nat) + chunk(channels, (n - 1) as nat)
    }
}

/// The requests of a series name every channel once, in order, and none of them names no channel
/// or more than the allowed number.
pub proof fn subscription_series_covers_channels(channels: Seq<Seq<char>>)
    ensures
        chunks_joined(channels, chunk_count(channels.len())) == channels,
        forall|i: nat|
            i < chunk_count(channels.len()) ==> 1 <= (#[trigger] chunk(channels, i)).len()
                <= DERIBIT_SUBSCRIBE_CHUNK_SIZE,
{
    lemma_chunks_joined(channels, chunk_count(channels.len()));
}

proof fn lemma_chunks_joined(channels: Seq<Seq<char>>, n: nat)
    requires
        n <= chunk_count(channels.len()),
    ensures
        chunks_joined(channels, n) == channels.take(
            if n * DERIBIT_SUBSCRIBE_CHUNK_SIZE < channels.len() {
                n * DERIBIT_SUBSCRIBE_CHUNK_SIZE
            } else {
                channels.len() as int
            },
        ),
    decreases n,
{
    if n > 0 {
        lemma_chunks_joined(channels, (n - 1) as nat);
        assert(chunks_joined(channels, n) =~= channels.take(
            if n * DERIBIT_SUBSCRIBE_CHUNK_SIZE < channels.len() {
                n * DERIBIT_SUBSCRIBE_CHUNK_SIZE
            } else {
                channels.len() as int
            },
        ));
    } else {
        assert(chunks_joined(channels, 0) =~= channels.take(0));
    }
}

fn subscribe_request_count(channel_count: usize) -> (count: usize)
    ensures
        count == chunk_count(channel_count as nat),
{
    channel_count / DERIBIT_SUBSCRIBE_CHUNK_SIZE + if channel_count % DERIBIT_SUBSCRIBE_CHUNK_SIZE
        == 0 {
        0
    } else {
        1
    }
}

/// The request at a position of the series that subscribes to `channels`; nothing behind the
/// last one.
pub fn deribit_subscribe_request(
    state: &mut FeedRuntimeState,
    channels: &Vec<String>,
    index: usize,
) -> (r: Option<DeribitRequest>)
    ensures
        only_id_changed(*old(state), *final(state)),
        index >= chunk_count(channels@.len()) ==> r is None && final(state).request_id == old(
            state,
        ).request_id,
        index < chunk_count(channels@.len()) ==> {
            &&& final(state).request_id == next_id(old(state).request_id)
            &&& r is Some
            &&& r->Some_0.message@ == wire::written_document(
                subscribe_tree(
                    final(state).request_id,
                    chunk(text::texts(channels@), index as nat),
                ),
            )
            &&& r->Some_0.pause_millis == if index + 1 < chunk_count(channels@.len()) {
                DERIBIT_SUBSCRIBE_CHUNK_DELAY_MILLIS
            } else {
                0
            }
        },
{
    let count = subscribe_request_count(channels.len());
    if index >= count {
        return None;
    }
    let from: usize = index * DERIBIT_SUBSCRIBE_CHUNK_SIZE;
    let to: usize = if channels.len() - from > DERIBIT_SUBSCRIBE_CHUNK_SIZE {
        from + DERIBIT_SUBSCRIBE_CHUNK_SIZE
    } else {
        channels.len()
    };
    let id = state.next_deribit_request_id();
    let list = json::text_array(channels, from, to);
    assert(text::texts(channels@.subrange(from as int, to as int)) =~= chunk(
        text::texts(channels@),
        index as nat,
    ));
    let params = json::object_of("channels", list);
    let message = wire::json_document(&request("public/subscribe", id, params));
    let pause_millis: u64 = if index + 1 < count {
        DERIBIT_SUBSCRIBE_CHUNK_DELAY_MILLIS
    } else {
        0
    };
    Some(DeribitRequest { message, pause_millis })
}

/// The request for the current BTC instruments of a kind.
pub open spec fn get_instruments_tree(id: u64, kind: DeribitInstrumentKind) -> JsonTree {
    request_tree(
        "public/get_instruments"@,
        id,
        JsonTree::Object(
            map![
                "currency"@ => JsonTree::Text("BTC"@),
                "kind"@ => JsonTree::Text(kind.name()),
                "expired"@ => JsonTree::Bool(false),
            ],
        ),
    )
}

/// The request at a position of the series that asks for the current instruments of each kind;
/// nothing behind the last one. Its id is remembered until it is answered.
pub fn deribit_get_instruments_request(
    state: &mut FeedRuntimeState,
    kinds: &[DeribitInstrumentKind],
    index: usize,
) -> (r: Option<DeribitRequest>)
    ensures
        final(state).instruments == old(state).instruments,
        index >= kinds@.len() ==> r is None && *final(state) == *old(state),
        index < kinds@.len() ==> {
            &&& final(state).request_id == next_id(old(state).request_id)
            &&& final(state).get_instruments_request_ids@ == old(
                state,
            ).get_instruments_request_ids@.insert(final(state).request_id)
            &&& r is Some
            &&& r->Some_0.message@ == wire::written_document(
                get_instruments_tree(final(state).request_id, kinds@[index as int]),
            )
            &&& r->Some_0.pause_millis == if index + 1 < kinds@.len() {
                DERIBIT_GET_INSTRUMENTS_DELAY_MILLIS
            } else {
                0
            }
        },
{
    if index >= kinds.len() {
        return None;
    }
    let id = state.next_deribit_request_id();
    state.get_instruments_request_ids.insert(id);
    let currency = json::object_of("currency", json::text_value("BTC"));
    let kind = json::with_entry(currency, "kind", json::text_value(kinds[index].as_str()));
    let params = json::with_entry(kind, "expired", Json::Bool(false));
    let message = wire::json_document(&request("public/get_instruments", id, params));
    let pause_millis: u64 = if index + 1 < kinds.len() {
        DERIBIT_GET_INSTRUMENTS_DELAY_MILLIS
    } else {
        0
    };
    Some(DeribitRequest { message, pause_millis })
}

/// The answer to a heartbeat test.
pub open spec fn public_test_tree(id: u64) -> JsonTree {
    request_tree("public/test"@, id, JsonTree::Object(Map::empty()))
}

/// The answer to a heartbeat test.
pub fn deribit_public_test_request(state: &mut FeedRuntimeState) -> (message: String)
    ensures
        only_id_changed(*old(state), *final(state)),
        final(state).request_id == next_id(old(state).request_id),
        message@ == wire::written_document(public_test_tree(final(state).request_id)),
{
    let id = state.next_deribit_request_id();
    wire::json_document(&request("public/test", id, json::empty_object()))
}

/// The tree of a document, where it is a JSON document.
pub open spec fn document_tree(document: Seq<char>) -> Option<JsonTree> {
    match wire::parsed_document(document) {
        Ok(tree) => Some(tree),
        Err(_) => None,
    }
}

/// A message that asks for a heartbeat test is answered, with a new request id; any other message
/// changes nothing.
pub open spec fn test_answered(
    message: Option<JsonTree>,
    before: FeedRuntimeState,
    after: FeedRuntimeState,
    answer: Option<Seq<char>>,
) -> bool {
    &&& only_id_changed(before, after)
    &&& if message is Some && deribit::heartbeat_type(message->Some_0) == Some("test_request"@) {
        &&& after.request_id == next_id(before.request_id)
        &&& answer == Some(wire::written_document(public_test_tree(after.request_id)))
    } else {
        &&& after.request_id == before.request_id
        &&& answer is None
    }
}

/// Answers a message that asks for a heartbeat test; any other message changes nothing.
pub fn answer_deribit_heartbeat_test_request(
    message: &Json,
    state: &mut FeedRuntimeState,
) -> (answer: Option<String>)
    ensures
        test_answered(Some(message@), *old(state), *final(state), json::opt_text(answer)),
{
    match deribit::deribit_heartbeat_type(message) {
        Some(kind) => if same_text(kind, "test_request") {
            Some(deribit_public_test_request(state))
        } else {
            None
        },
        None => None,
    }
}

/// Answers a text message that asks for a heartbeat test; any other text, one that is no JSON
/// document among them, changes nothing.
pub fn maybe_answer_deribit_heartbeat_test_request(
    document: &str,
    state: &mut FeedRuntimeState,
) -> (answer: Option<String>)
    ensures
        test_answered(
            document_tree(document@),
            *old(state),
            *final(state),
            json::opt_text(answer),
        ),
{
    match wire::parse_json(document) {
        Ok(message) => answer_deribit_heartbeat_test_request(&message, state),
        Err(_) => None,
    }
}

/// The texts of `found` that are not in `known`, each once, in their order.
pub open spec fn added(known: Seq<Seq<char>>, found: Seq<Seq<char>>) -> Seq<Seq<char>>
    decreases found.len(),
{
    if found.len() == 0 {
        Seq::empty()
    } else {
        let front = added(known, found.drop_last());
        if known.contains(found.last()) || front.contains(found.last()) {
            front
        } else {
            front.push(found.last())
        }
    }
}

impl FeedRuntimeState {
    /// Adds an instrument that is not followed yet; says whether it was new.
    pub fn insert_instrument(&mut self, name: &str) -> (new: bool)
        requires
            old(self).well_formed(),
        ensures
            final(self).well_formed(),
            new == !text::texts(old(self).instruments@).contains(name@),
            text::texts(final(self).instruments@) == if new {
                text::texts(old(self).instruments@).push(name@)
            } else {
                text::texts(old(self).instruments@)
            },
            final(self).get_instruments_request_ids == old(self).get_instruments_request_ids,
            final(self).request_id == old(self).request_id,
    {
        let ghost known = text::texts(self.instruments@);
        let mut i: usize = 0;
        while i < self.instruments.len()
            invariant
                i <= self.instruments@.len(),
                *self == *old(self),
                self.well_formed(),
                known == text::texts(self.instruments@),
                forall|j: int| 0 <= j < i ==> known[j] != name@,
            decreases self.instruments@.len() - i,
        {
            if same_text(self.instruments[i].as_str(), name) {
                assert(known[i as int] == name@);
                return false;
            }
            i = i + 1;
        }
        self.instruments.push(name.to_owned());
        assert(text::texts(self.instruments@) =~= known.push(name@));
        true
    }
}

/// What the answer to a request for current instruments names.
pub open spec fn answered_instruments(
    message: JsonTree,
    kinds: Seq<DeribitInstrumentKind>,
) -> Seq<Seq<char>> {
    match json::array_of(message.field("result"@)) {
        Some(list) => deribit::listed_instruments(list, kinds),
        None => Seq::empty(),
    }
}

/// The id of a request for current instruments that a message answers, where it answers one.
pub open spec fn answered_request(message: JsonTree, pending: Set<u64>) -> Option<u64> {
    match json::u64_of(message.field("id"@)) {
        Some(id) => if pending.contains(id) {
            Some(id)
        } else {
            None
        },
        None => None,
    }
}

/// After a message that answers a pending request for current instruments the request is no longer
/// pending, the wanted instruments that it names and that were not known join the known ones, and
/// the result is their channels; an answer that reports an error gives the error and adds none. Any
/// other message changes nothing, and its result is empty.
pub open spec fn current_instruments_followed(
    message: Option<JsonTree>,
    kinds: Seq<DeribitInstrumentKind>,
    trades_interval: Seq<char>,
    before: FeedRuntimeState,
    after: FeedRuntimeState,
    r: Result<Vec<String>, String>,
) -> bool {
    let pending = before.get_instruments_request_ids@;
    let known = text::texts(before.instruments@);
    let answered = match message {
        Some(tree) => answered_request(tree, pending),
        None => None,
    };
    &&& after.request_id == before.request_id
    &&& match answered {
        None => {
            &&& after.instruments == before.instruments
            &&& after.get_instruments_request_ids@ == pending
            &&& r is Ok
            &&& r->Ok_0@.len() == 0
        },
        Some(id) => {
            &&& after.get_instruments_request_ids@ == pending.remove(id)
            &&& match message->Some_0.field("error"@) {
                Some(error) => {
                    &&& r is Err
                    &&& r->Err_0@ == "Deribit get_instruments failed: "@ + wire::written_document(
                        error,
                    )
                    &&& after.instruments == before.instruments
                },
                None => {
                    let new = added(known, answered_instruments(message->Some_0, kinds));
                    &&& r is Ok
                    &&& text::texts(after.instruments@) == known + new
                    &&& text::texts(r->Ok_0@) == instrument_channels(new, trades_interval)
                },
            }
        },
    }
}

/// The new channels after a message that answers a request for current instruments.
pub fn subscribe_deribit_get_instruments(
    message: &Json,
    kinds: &[DeribitInstrumentKind],
    trades_interval: &str,
    state: &mut FeedRuntimeState,
) -> (r: Result<Vec<String>, String>)
    requires
        old(state).well_formed(),
    ensures
        final(state).well_formed(),
        current_instruments_followed(
            Some(message@),
            kinds@,
            trades_interval@,
            *old(state),
            *final(state),
            r,
        ),
{
    let mut channels: Vec<String> = Vec::new();
    let id = match deribit::deribit_response_id(message) {
        Some(id) => id,
        None => return Ok(channels),
    };
    if !state.get_instruments_request_ids.remove(&id) {
        assert(state.get_instruments_request_ids@ =~= old(state).get_instruments_request_ids@);
        return Ok(channels);
    }
    if let Some(error) = message.get("error") {
        let mut report = "Deribit get_instruments failed: ".to_owned();
        report.append(wire::json_document(error).as_str());
        return Err(report);
    }
    let found = deribit::deribit_instrument_names_from_get_instruments_response(message, kinds);
    let ghost known = text::texts(state.instruments@);
    let ghost all = text::texts(found@);
    let ghost pending = state.get_instruments_request_ids;
    assert(known + added(known, all.take(0)) =~= known);
    assert(text::texts(channels@) =~= instrument_channels(
        added(known, all.take(0)),
        trades_interval@,
    ));
    let mut i: usize = 0;
    while i < found.len()
        invariant
            i <= found@.len(),
            all == text::texts(found@),
            state.well_formed(),
            state.request_id == old(state).request_id,
            state.get_instruments_request_ids == pending,
            text::texts(state.instruments@) == known + added(known, all.take(i as int)),
            text::texts(channels@) == instrument_channels(
                added(known, all.take(i as int)),
                trades_interval@,
            ),
        decreases found@.len() - i,
    {
        let ghost front = added(known, all.take(i as int));
        assert(all.take(i + 1).drop_last() =~= all.take(i as int));
        assert(all.take(i + 1).last() == found@[i as int]@);
        proof {
            lemma_contained_in_either(known, front, found@[i as int]@);
        }
        if state.insert_instrument(found[i].as_str()) {
            let mut more = deribit_instrument_channels(found[i].as_str(), trades_interval);
            let ghost before = channels@;
            let ghost new = more@;
            channels.append(&mut more);
            proof {
                assert(text::texts(channels@) =~= text::texts(before) + text::texts(new));
                lemma_channels_join(front, seq![found@[i as int]@], trades_interval@);
                assert(front + seq![found@[i as int]@] =~= front.push(found@[i as int]@));
                assert((known + front).push(found@[i as int]@) =~= known + front.push(
                    found@[i as int]@,
                ));
            }
        }
        i = i + 1;
    }
    assert(all.take(i as int) =~= all);
    Ok(channels)
}

proof fn lemma_contained_in_either(front: Seq<Seq<char>>, back: Seq<Seq<char>>, item: Seq<char>)
    ensures
        (front + back).contains(item) == (front.contains(item) || back.contains(item)),
{
    let both = front + back;
    if front.contains(item) {
        let i = choose|i: int| 0 <= i < front.len() && front[i] == item;
        assert(both[i] == item);
    }
    if back.contains(item) {
        let i = choose|i: int| 0 <= i < back.len() && back[i] == item;
        assert(both[front.len() + i] == item);
    }
    if both.contains(item) {
        let i = choose|i: int| 0 <= i < both.len() && both[i] == item;
        if i < front.len() {
            assert(front[i] == item);
        } else {
            assert(back[i - front.len()] == item);
        }
    }
}

/// The new channels after a text message that answers a request for current instruments; a text
/// that is no JSON document changes nothing.
pub fn maybe_subscribe_deribit_get_instruments(
    document: &str,
    kinds: &[DeribitInstrumentKind],
    trades_interval: &str,
    state: &mut FeedRuntimeState,
) -> (r: Result<Vec<String>, String>)
    requires
        old(state).well_formed(),
    ensures
        final(state).well_formed(),
        current_instruments_followed(
            document_tree(document@),
            kinds@,
            trades_interval@,
            *old(state),
            *final(state),
            r,
        ),
{
    match wire::parse_json(document) {
        Ok(message) => subscribe_deribit_get_instruments(&message, kinds, trades_interval, state),
        Err(_) => Ok(Vec::new()),
    }
}

/// The new channels after a message that announces an instrument: those of a wanted instrument
/// that was not followed yet.
pub fn subscribe_deribit_created_instrument(
    message: &Json,
    kinds: &[DeribitInstrumentKind],
    trades_interval: &str,
    state: &mut FeedRuntimeState,
) -> (channels: Vec<String>)
    requires
        old(state).well_formed(),
    ensures
        final(state).well_formed(),
        final(state).request_id == old(state).request_id,
        final(state).get_instruments_request_ids == old(state).get_instruments_request_ids,
        created_instrument_followed(
            deribit::created_instrument(message@, kinds@),
            text::texts(old(state).instruments@),
            text::texts(final(state).instruments@),
            text::texts(channels@),
            trades_interval@,
        ),
{
    if let Some(name) = deribit::deribit_created_instrument_name(message, kinds) {
        if state.insert_instrument(name.as_str()) {
            return deribit_instrument_channels(name.as_str(), trades_interval);
        }
    }
    Vec::new()
}

/// The instrument that a message announces, where there is a message.
pub open spec fn announced_instrument(
    message: Option<JsonTree>,
    kinds: Seq<DeribitInstrumentKind>,
) -> Option<Seq<char>> {
    match message {
        Some(tree) => deribit::created_instrument(tree, kinds),
        None => None,
    }
}

/// An announced instrument that is not among the known ones joins them, and its channels are the
/// new ones; otherwise nothing is new.
pub open spec fn created_instrument_followed(
    announced: Option<Seq<char>>,
    known: Seq<Seq<char>>,
    followed: Seq<Seq<char>>,
    channels: Seq<Seq<char>>,
    trades_interval: Seq<char>,
) -> bool {
    if announced is Some && !known.contains(announced->Some_0) {
        &&& followed == known.push(announced->Some_0)
        &&& channels == instrument_channels(seq![announced->Some_0], trades_interval)
    } else {
        &&& followed == known
        &&& channels.len() == 0
    }
}

/// The new channels after a text message that announces an instrument; a text that is no JSON
/// document changes nothing.
pub fn maybe_subscribe_deribit_created_instrument(
    document: &str,
    kinds: &[DeribitInstrumentKind],
    trades_interval: &str,
    state: &mut FeedRuntimeState,
) -> (channels: Vec<String>)
    requires
        old(state).well_formed(),
    ensures
        final(state).well_formed(),
        final(state).request_id == old(state).request_id,
        final(state).get_instruments_request_ids == old(state).get_instruments_request_ids,
        created_instrument_followed(
            announced_instrument(document_tree(document@), kinds@),
            text::texts(old(state).instruments@),
            text::texts(final(state).instruments@),
            text::texts(channels@),
            trades_interval@,
        ),
{
    match wire::parse_json(document) {
        Ok(message) => subscribe_deribit_created_instrument(
            &message,
            kinds,
            trades_interval,
            state,
        ),
        Err(_) => Vec::new(),
    }
}

/// Only new instruments are added: what is added was not known, stands once, and was found; and
/// afterwards everything found is known.
pub proof fn added_instruments_are_new(known: Seq<Seq<char>>, found: Seq<Seq<char>>)
    ensures
        all_different(added(known, found)),
        forall|name: Seq<char>| #[trigger]
            added(known, found).contains(name) <==> found.contains(name) && !known.contains(name),
    decreases found.len(),
{
    if found.len() > 0 {
        let last = found.last();
        let front = added(known, found.drop_last());
        added_instruments_are_new(known, found.drop_last());
        assert(found =~= found.drop_last().push(last));
        assert forall|name: Seq<char>| #[trigger] added(known, found).contains(name) <==> (
        found.contains(name) && !known.contains(name)) by {
            lemma_contained_in_either(found.drop_last(), seq![last], name);
            assert(found =~= found.drop_last() + seq![last]);
            assert(seq![last].contains(name) == (name == last)) by {
                if name == last {
                    assert(seq![last][0] == name);
                }
            }
            if !(known.contains(last) || front.contains(last)) {
                lemma_contained_in_either(front, seq![last], name);
                assert(front.push(last) =~= front + seq![last]);
            }
        }
    }
}

/// A message is answered once: after the answer to a request was handled, the same message
/// changes nothing more.
pub proof fn answers_count_once(message: JsonTree, pending: Set<u64>, id: u64)
    requires
        answered_request(message, pending) == Some(id),
    ensures
        answered_request(message, pending.remove(id)) is None,
{
}

/// What a request of a new connection is for.
#[derive(Clone, Copy, Debug, PartialEq, Eq, Structural)]
pub enum OpeningPurpose {
    /// Heartbeats are switched on.
    Heartbeat,
    /// The chunk of channels at the position is subscribed to.
    Subscribe(usize),
    /// The current instruments of the kind at the position are asked for.
    GetInstruments(usize),
}

/// What the request at a position of the opening series is for: heartbeats first, unless they are
/// off, then the chunks of channels, then the kinds of instruments.
pub open spec fn opening_purpose(
    index: int,
    heartbeat_secs: u64,
    channel_count: nat,
    kind_count: nat,
) -> Option<OpeningPurpose> {
    let behind_heartbeat = if heartbeat_secs > 0 {
        index - 1
    } else {
        index
    };
    let behind_channels = behind_heartbeat - chunk_count(channel_count);
    if behind_heartbeat < 0 {
        Some(OpeningPurpose::Heartbeat)
    } else if behind_channels < 0 {
        Some(OpeningPurpose::Subscribe(behind_heartbeat as usize))
    } else if behind_channels < kind_count {
        Some(OpeningPurpose::GetInstruments(behind_channels as usize))
    } else {
        None
    }
}

/// A request of the opening series, and what it is for.
pub struct DeribitOpening {
    pub purpose: OpeningPurpose,
    pub request: DeribitRequest,
}

/// The request for a purpose.
pub open spec fn opening_tree(
    purpose: OpeningPurpose,
    id: u64,
    heartbeat_secs: u64,
    channels: Seq<Seq<char>>,
    kinds: Seq<DeribitInstrumentKind>,
) -> JsonTree {
    match purpose {
        OpeningPurpose::Heartbeat => set_heartbeat_tree(
            id,
            if heartbeat_secs < 10 {
                10
            } else {
                heartbeat_secs
            },
        ),
        OpeningPurpose::Subscribe(i) => subscribe_tree(id, chunk(channels, i as nat)),
        OpeningPurpose::GetInstruments(i) => get_instruments_tree(id, kinds[i as int]),
    }
}

/// The pause behind a request: between two chunks and between two kinds there is one.
pub open spec fn opening_pause(
    purpose: OpeningPurpose,
    channel_count: nat,
    kind_count: nat,
) -> u64 {
    match purpose {
        OpeningPurpose::Heartbeat => 0,
        OpeningPurpose::Subscribe(i) => if i + 1 < chunk_count(channel_count) {
            DERIBIT_SUBSCRIBE_CHUNK_DELAY_MILLIS
        } else {
            0
        },
        OpeningPurpose::GetInstruments(i) => if i + 1 < kind_count {
            DERIBIT_GET_INSTRUMENTS_DELAY_MILLIS
        } else {
            0
        },
    }
}

/// The request at a position of the series that opens a connection, given the channels of its
/// first subscription; nothing behind the last one. The ids of requests for instruments are
/// remembered until they are answered.
pub fn deribit_opening_request(
    state: &mut FeedRuntimeState,
    heartbeat_secs: u64,
    channels: &Vec<String>,
    kinds: &[DeribitInstrumentKind],
    index: usize,
) -> (r: Option<DeribitOpening>)
    ensures
        final(state).instruments == old(state).instruments,
        match opening_purpose(index as int, heartbeat_secs, channels@.len(), kinds@.len()) {
            None => r is None && *final(state) == *old(state),
            Some(purpose) => {
                &&& r is Some
                &&& r->Some_0.purpose == purpose
                &&& r->Some_0.request.message@ == wire::written_document(
                    opening_tree(
                        purpose,
                        final(state).request_id,
                        heartbeat_secs,
                        text::texts(channels@),
                        kinds@,
                    ),
                )
                &&& r->Some_0.request.pause_millis == opening_pause(
                    purpose,
                    channels@.len(),
                    kinds@.len(),
                )
                &&& final(state).request_id == next_id(old(state).request_id)
                &&& final(state).get_instruments_request_ids@ == if purpose is GetInstruments {
                    old(state).get_instruments_request_ids@.insert(final(state).request_id)
                } else {
                    old(state).get_instruments_request_ids@
                }
            },
        },
{
    let mut position: usize = index;
    if heartbeat_secs > 0 {
        if index == 0 {
            return match deribit_set_heartbeat_request(state, heartbeat_secs) {
                Some(message) => Some(
                    DeribitOpening {
                        purpose: OpeningPurpose::Heartbeat,
                        request: DeribitRequest { message, pause_millis: 0 },
                    },
                ),
                None => None,
            };
        }
        position = index - 1;
    }
    let count = subscribe_request_count(channels.len());
    if position < count {
        return match deribit_subscribe_request(state, channels, position) {
            Some(request) => Some(
                DeribitOpening { purpose: OpeningPurpose::Subscribe(position), request },
            ),
            None => None,
        };
    }
    let kind: usize = position - count;
    match deribit_get_instruments_request(state, kinds, kind) {
        Some(request) => Some(
            DeribitOpening { purpose: OpeningPurpose::GetInstruments(kind), request },
        ),
        None => None,
    }
}

/// What follows a recorded text message, one after the other.
#[derive(Clone, Copy, Debug, PartialEq, Eq, Structural)]
pub enum FollowUpStep {
    AnswerTest,
    FollowCurrent,
    FollowCreated,
    Done,
}

impl FollowUpStep {
    pub open spec fn following(self) -> FollowUpStep {
        match self {
            FollowUpStep::AnswerTest => FollowUpStep::FollowCurrent,
            FollowUpStep::FollowCurrent => FollowUpStep::FollowCreated,
            FollowUpStep::FollowCreated => FollowUpStep::Done,
            FollowUpStep::Done => FollowUpStep::Done,
        }
    }
}

/// What is sent at a step: a message, or the requests that subscribe to channels.
#[derive(Clone, Debug)]
pub enum FollowUp {
    Answer(Option<String>),
    Subscribe(Vec<String>),
    Nothing,
}

/// Carries out the step at which a text message is, and moves on: a heartbeat test is answered,
/// then the current instruments that the message brings are followed, then the one that it
/// announces. What is sent at a step is sent before the next one. An error ends the connection.
pub fn deribit_follow_up(
    document: &str,
    kinds: &[DeribitInstrumentKind],
    trades_interval: &str,
    state: &mut FeedRuntimeState,
    step: &mut FollowUpStep,
) -> (r: Result<FollowUp, String>)
    requires
        old(state).well_formed(),
    ensures
        final(state).well_formed(),
        *final(step) == old(step).following(),
        match *old(step) {
            FollowUpStep::AnswerTest => {
                &&& r is Ok
                &&& r->Ok_0 is Answer
                &&& test_answered(
                    document_tree(document@),
                    *old(state),
                    *final(state),
                    json::opt_text(r->Ok_0->Answer_0),
                )
            },
            FollowUpStep::FollowCurrent => {
                &&& r is Ok ==> r->Ok_0 is Subscribe
                &&& current_instruments_followed(
                    document_tree(document@),
                    kinds@,
                    trades_interval@,
                    *old(state),
                    *final(state),
                    match r {
                        Ok(follow_up) => Ok(follow_up->Subscribe_0),
                        Err(error) => Err(error),
                    },
                )
            },
            FollowUpStep::FollowCreated => {
                &&& r is Ok
                &&& r->Ok_0 is Subscribe
                &&& final(state).request_id == old(state).request_id
                &&& final(state).get_instruments_request_ids == old(
                    state,
                ).get_instruments_request_ids
                &&& created_instrument_followed(
                    announced_instrument(document_tree(document@), kinds@),
                    text::texts(old(state).instruments@),
                    text::texts(final(state).instruments@),
                    text::texts(r->Ok_0->Subscribe_0@),
                    trades_interval@,
                )
            },
            FollowUpStep::Done => {
                &&& r is Ok
                &&& r->Ok_0 is Nothing
                &&& *final(state) == *old(state)
            },
        },
{
    match *step {
        FollowUpStep::AnswerTest => {
            *step = FollowUpStep::FollowCurrent;
            Ok(FollowUp::Answer(maybe_answer_deribit_heartbeat_test_request(document, state)))
        },
        FollowUpStep::FollowCurrent => {
            *step = FollowUpStep::FollowCreated;
            match maybe_subscribe_deribit_get_instruments(
                document,
                kinds,
                trades_interval,
                state,
            ) {
                Ok(channels) => Ok(FollowUp::Subscribe(channels)),
                Err(error) => Err(error),
            }
        },
        FollowUpStep::FollowCreated => {
            *step = FollowUpStep::Done;
            Ok(
                FollowUp::Subscribe(
                    maybe_subscribe_deribit_created_instrument(
                        document,
                        kinds,
                        trades_interval,
                        state,
                    ),
                ),
            )
        },
        FollowUpStep::Done => Ok(FollowUp::Nothing),
    }
}

/// What is followed is subscribed to: behind a message that brings current instruments, a new
/// connection would subscribe to the channels of before and those that the message gave, no more
/// and no less.
pub proof fn current_instruments_are_subscribed(
    message: Option<JsonTree>,
    kinds: Seq<DeribitInstrumentKind>,
    trades_interval: Seq<char>,
    before: FeedRuntimeState,
    after: FeedRuntimeState,
    channels: Vec<String>,
)
    requires
        current_instruments_followed(
            message,
            kinds,
            trades_interval,
            before,
            after,
            Ok(channels),
        ),
    ensures
        initial_channels(kinds, text::texts(after.instruments@), trades_interval)
            == initial_channels(kinds, text::texts(before.instruments@), trades_interval)
            + text::texts(channels@),
{
    let known = text::texts(before.instruments@);
    if message is Some && answered_request(
        message->Some_0,
        before.get_instruments_request_ids@,
    ) is Some {
        let new = added(known, answered_instruments(message->Some_0, kinds));
        lemma_channels_join(known, new, trades_interval);
    }
    assert(initial_channels(kinds, text::texts(after.instruments@), trades_interval)
        =~= initial_channels(kinds, known, trades_interval) + text::texts(channels@));
}

/// What is followed is subscribed to: behind a message that announces an instrument, a new
/// connection would subscribe to the channels of before and those that the message gave, no more
/// and no less.
pub proof fn announced_instruments_are_subscribed(
    announced: Option<Seq<char>>,
    known: Seq<Seq<char>>,
    followed: Seq<Seq<char>>,
    channels: Seq<Seq<char>>,
    kinds: Seq<DeribitInstrumentKind>,
    trades_interval: Seq<char>,
)
    requires
        created_instrument_followed(announced, known, followed, channels, trades_interval),
    ensures
        initial_channels(kinds, followed, trades_interval) == initial_channels(
            kinds,
            known,
            trades_interval,
        ) + channels,
{
    if announced is Some && !known.contains(announced->Some_0) {
        lemma_channels_join(known, seq![announced->Some_0], trades_interval);
        assert(known.push(announced->Some_0) =~= known + seq![announced->Some_0]);
    }
    assert(initial_channels(kinds, followed, trades_interval) =~= initial_channels(
        kinds,
        known,
        trades_interval,
    ) + channels);
}

} // verus!
