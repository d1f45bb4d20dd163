//! Discovering the instruments of Deribit: the current ones are asked for, each is subscribed to
//! once, and new ones are followed.

use vstd::prelude::*;

use crate::deribit::DeribitInstrumentKind;
use crate::deribit::deribit_output_channel;
use crate::deribit;
use crate::deribit_feed::DeribitOpening;
use crate::deribit_feed::DeribitRequest;
use crate::deribit_feed::FeedRuntimeState;
use crate::deribit_feed::FollowUp;
use crate::deribit_feed::FollowUpStep;
use crate::deribit_feed::OpeningPurpose;
use crate::deribit_feed::answer_deribit_heartbeat_test_request;
use crate::deribit_feed::deribit_follow_up;
use crate::deribit_feed::deribit_get_instruments_request;
use crate::deribit_feed::deribit_initial_channels;
use crate::deribit_feed::deribit_instrument_channels;
use crate::deribit_feed::deribit_lifecycle_channels;
use crate::deribit_feed::deribit_opening_request;
use crate::deribit_feed::deribit_set_heartbeat_request;
use crate::deribit_feed::deribit_subscribe_request;
use crate::deribit_feed::maybe_answer_deribit_heartbeat_test_request;
use crate::deribit_feed::maybe_subscribe_deribit_created_instrument;
use crate::deribit_feed::maybe_subscribe_deribit_get_instruments;
use crate::deribit_feed::subscribe_deribit_created_instrument;
use crate::deribit_feed::subscribe_deribit_get_instruments;
use crate::deribit_feed;
use crate::json::Json;
use crate::json::JsonTree;
use crate::json;
use crate::text;
use crate::wire;

verus! {

/// The document is a JSON-RPC request of the method, under the id.
pub open spec fn is_request(sent: JsonTree, method: Seq<char>, id: u64) -> bool {
    &&& sent.field("jsonrpc"@) == Some(JsonTree::Text("2.0"@))
    &&& sent.field("method"@) == Some(JsonTree::Text(method))
    &&& json::u64_of(sent.field("id"@)) == Some(id)
    &&& sent.field("params"@) is Some
}

/// A parameter of a request.
pub open spec fn param(sent: JsonTree, key: Seq<char>) -> Option<JsonTree> {
    match sent.field("params"@) {
        Some(params) => params.field(key),
        None => None,
    }
}

proof fn lemma_request(method: Seq<char>, id: u64, params: JsonTree)
    ensures
        is_request(deribit_feed::request_tree(method, id, params), method, id),
        deribit_feed::request_tree(method, id, params).field("params"@) == Some(params),
{
    reveal_strlit("jsonrpc");
    reveal_strlit("method");
    reveal_strlit("id");
    reveal_strlit("params");
    assert("jsonrpc"@.len() == 7 && "method"@.len() == 6 && "id"@.len() == 2 && "params"@.len()
        == 6);
    assert("method"@[0] != "params"@[0]);
    text::printed_numbers_are_read_back(id as nat, u64::MAX as int);
}

/// The request asks for the instruments of a kind on BTC that are not expired.
pub open spec fn asks_for_current(
    sent: JsonTree,
    id: u64,
    kind: DeribitInstrumentKind,
) -> bool {
    &&& is_request(sent, "public/get_instruments"@, id)
    &&& param(sent, "currency"@) == Some(JsonTree::Text("BTC"@))
    &&& param(sent, "expired"@) == Some(JsonTree::Bool(false))
    &&& param(sent, "kind"@) == Some(
        JsonTree::Text(
            match kind {
                DeribitInstrumentKind::Future => "future"@,
                DeribitInstrumentKind::Option => "option"@,
            },
        ),
    )
}

proof fn lemma_asks_for_current(id: u64, kind: DeribitInstrumentKind)
    ensures
        asks_for_current(deribit_feed::get_instruments_tree(id, kind), id, kind),
{
    let sent = deribit_feed::get_instruments_tree(id, kind);
    let params = sent->Object_0["params"@];
    lemma_request("public/get_instruments"@, id, params);
    reveal_strlit("currency");
    reveal_strlit("kind");
    reveal_strlit("expired");
    assert("currency"@.len() == 8 && "kind"@.len() == 4 && "expired"@.len() == 7);
}

/// Discovery asks for the current instruments: for every kind in turn a request is sent for the
/// instruments of that kind on BTC that are not expired, under a new id that is awaited from then
/// on; behind the last kind there is none.
pub proof fn current_instruments_are_asked_for(
    state: &mut FeedRuntimeState,
    kinds: &[DeribitInstrumentKind],
    index: usize,
    r: Option<DeribitRequest>,
)
    requires
        call_ensures(deribit_get_instruments_request, (state, kinds, index), r),
    ensures
        r is Some <==> index < kinds@.len(),
        r is Some ==> {
            &&& exists|sent: JsonTree|
                #![trigger wire::written_document(sent)]
                r->Some_0.message@ == wire::written_document(sent) && asks_for_current(
                    sent,
                    final(state).request_id,
                    kinds@[index as int],
                )
            &&& old(state).request_id < u64::MAX ==> final(state).request_id > old(state).request_id
            &&& final(state).get_instruments_request_ids@.contains(final(state).request_id)
            &&& forall|id: u64|
                old(state).get_instruments_request_ids@.contains(id)
                    ==> #[trigger] final(state).get_instruments_request_ids@.contains(id)
            &&& r->Some_0.pause_millis == if index + 1 < kinds@.len() {
                1000u64
            } else {
                0
            }
        },
        r is None ==> *final(state) == *old(state),
        final(state).instruments == old(state).instruments,
{
    if index < kinds@.len() {
        lemma_asks_for_current(final(state).request_id, kinds@[index as int]);
        assert(r->Some_0.message@ == wire::written_document(
            deribit_feed::get_instruments_tree(final(state).request_id, kinds@[index as int]),
        ));
    }
}

/// The instrument is one of those that were asked for: its kind is one of the kinds, its currency or
/// its product group is BTC, and it is not inactive.
pub open spec fn was_asked_for(
    instrument: JsonTree,
    kinds: Seq<DeribitInstrumentKind>,
    name: Seq<char>,
) -> bool {
    &&& instrument.field("instrument_name"@) == Some(JsonTree::Text(name))
    &&& instrument.field("base_currency"@) == Some(JsonTree::Text("BTC"@)) || instrument.field(
        "product_group"@,
    ) == Some(JsonTree::Text("BTC"@))
    &&& instrument.field("is_active"@) != Some(JsonTree::Bool(false))
    &&& (instrument.field("kind"@) == Some(JsonTree::Text("future"@)) && kinds.contains(
        DeribitInstrumentKind::Future,
    )) || (instrument.field("kind"@) == Some(JsonTree::Text("option"@)) && kinds.contains(
        DeribitInstrumentKind::Option,
    ))
}

/// The instrument is none of BTC, of none of the kinds, or inactive.
pub open spec fn is_foreign(instrument: JsonTree, kinds: Seq<DeribitInstrumentKind>) -> bool {
    ||| instrument.field("is_active"@) == Some(JsonTree::Bool(false))
    ||| instrument.field("kind"@) == Some(JsonTree::Text("future"@)) && !kinds.contains(
        DeribitInstrumentKind::Future,
    )
    ||| instrument.field("kind"@) == Some(JsonTree::Text("option"@)) && !kinds.contains(
        DeribitInstrumentKind::Option,
    )
    ||| instrument.field("kind"@) is None
    ||| instrument.field("base_currency"@) != Some(JsonTree::Text("BTC"@)) && instrument.field(
        "product_group"@,
    ) != Some(JsonTree::Text("BTC"@))
}

proof fn lemma_kind_names(kinds: Seq<DeribitInstrumentKind>)
    ensures
        deribit::kind_allowed(kinds, "future"@) == kinds.contains(DeribitInstrumentKind::Future),
        deribit::kind_allowed(kinds, "option"@) == kinds.contains(DeribitInstrumentKind::Option),
{
    reveal_strlit("future");
    reveal_strlit("option");
    assert("future"@[0] != "option"@[0]);
    if kinds.contains(DeribitInstrumentKind::Future) {
        let i = choose|i: int|
            0 <= i < kinds.len() && kinds[i] == DeribitInstrumentKind::Future;
        assert(kinds[i].name() == "future"@);
    }
    if kinds.contains(DeribitInstrumentKind::Option) {
        let i = choose|i: int|
            0 <= i < kinds.len() && kinds[i] == DeribitInstrumentKind::Option;
        assert(kinds[i].name() == "option"@);
    }
}

proof fn lemma_listed(list: Seq<JsonTree>, kinds: Seq<DeribitInstrumentKind>, name: Seq<char>)
    ensures
        deribit::listed_instruments(list, kinds).contains(name) <==> exists|i: int|
            0 <= i < list.len() && deribit::listed_instrument(#[trigger] list[i], kinds) == Some(
                name,
            ),
    decreases list.len(),
{
    let found = deribit::listed_instruments(list, kinds);
    if list.len() > 0 {
        let front = list.drop_last();
        let before = deribit::listed_instruments(front, kinds);
        lemma_listed(front, kinds, name);
        let last = list.len() - 1;
        assert(list[last] == list.last());
        if found.contains(name) {
            if before.contains(name) {
                let i = choose|i: int|
                    0 <= i < front.len() && deribit::listed_instrument(#[trigger] front[i], kinds)
                        == Some(name);
                assert(list[i] == front[i]);
            } else {
                let k = choose|k: int| 0 <= k < found.len() && found[k] == name;
                assert(k == before.len()) by {
                    if k < before.len() {
                        assert(before[k] == name);
                    }
                }
                assert(deribit::listed_instrument(list[last], kinds) == Some(name));
            }
        }
        if exists|i: int|
            0 <= i < list.len() && deribit::listed_instrument(#[trigger] list[i], kinds) == Some(
                name,
            ) {
            let i = choose|i: int|
                0 <= i < list.len() && deribit::listed_instrument(#[trigger] list[i], kinds)
                    == Some(name);
            if i < last {
                assert(front[i] == list[i]);
                let k = choose|k: int| 0 <= k < before.len() && before[k] == name;
                assert(found[k] == name);
            } else {
                assert(found[before.len() as int] == name);
            }
        }
    }
}

/// What was asked for is followed: behind the answer to a request every instrument of the answer
/// that was asked for is among those that are followed, and where it is new its ticker and its
/// trades are subscribed to. Nothing that was followed is given up, each is followed once, and an
/// instrument that is new stands in the answer.
pub proof fn current_instruments_are_followed(
    message: &Json,
    kinds: &[DeribitInstrumentKind],
    trades_interval: &str,
    state: &mut FeedRuntimeState,
    r: Result<Vec<String>, String>,
    id: u64,
    list: Seq<JsonTree>,
    i: int,
    name: Seq<char>,
)
    requires
        call_ensures(
            subscribe_deribit_get_instruments,
            (message, kinds, trades_interval, state),
            r,
        ),
        json::u64_of(message@.field("id"@)) == Some(id),
        old(state).get_instruments_request_ids@.contains(id),
        message@.field("error"@) is None,
        message@.field("result"@) == Some(JsonTree::Array(list)),
        0 <= i < list.len(),
    ensures
        r is Ok,
        was_asked_for(list[i], kinds@, name) ==> text::texts(
            final(state).instruments@,
        ).contains(name),
        was_asked_for(list[i], kinds@, name) && !text::texts(old(state).instruments@).contains(name)
            ==> text::texts(r->Ok_0@).contains("incremental_ticker."@ + name) && text::texts(
            r->Ok_0@,
        ).contains("trades."@ + name + "."@ + trades_interval@),
        text::texts(old(state).instruments@).is_prefix_of(text::texts(final(state).instruments@)),
        text::texts(final(state).instruments@).contains(name) && !text::texts(
            old(state).instruments@,
        ).contains(name) ==> exists|k: int|
            0 <= k < list.len() && !is_foreign(#[trigger] list[k], kinds@) && list[k].field(
                "instrument_name"@,
            ) == Some(JsonTree::Text(name)),
        r->Ok_0@.len() == 2 * (final(state).instruments@.len() - old(state).instruments@.len()),
        !final(state).get_instruments_request_ids@.contains(id),
{
    let known = text::texts(old(state).instruments@);
    let found = deribit_feed::answered_instruments(message@, kinds@);
    let new = deribit_feed::added(known, found);
    let after = text::texts(final(state).instruments@);
    assert(found == deribit::listed_instruments(list, kinds@));
    deribit_feed::added_instruments_are_new(known, found);
    lemma_kind_names(kinds@);
    lemma_listed(list, kinds@, name);
    assert(after == known + new);
    assert(known.is_prefix_of(after));
    assert(text::texts(r->Ok_0@).len() == r->Ok_0@.len());
    assert(after.len() == final(state).instruments@.len());
    if was_asked_for(list[i], kinds@, name) {
        assert(deribit::listed_instrument(list[i], kinds@) == Some(name));
        assert(found.contains(name));
        if known.contains(name) {
            let k = choose|k: int| 0 <= k < known.len() && known[k] == name;
            assert(after[k] == name);
        } else {
            assert(new.contains(name));
            let k = choose|k: int| 0 <= k < new.len() && new[k] == name;
            assert(after[known.len() + k] == name);
            let channels = deribit_feed::instrument_channels(new, trades_interval@);
            assert(channels[2 * k] == "incremental_ticker."@ + name);
            assert(channels[2 * k + 1] == "trades."@ + name + "."@ + trades_interval@);
        }
    }
    if after.contains(name) && !known.contains(name) {
        let k = choose|k: int| 0 <= k < after.len() && after[k] == name;
        if k < known.len() {
            assert(known[k] == name);
        }
        assert(new[k - known.len()] == name);
        assert(new.contains(name));
        assert(found.contains(name));
        let j = choose|j: int|
            0 <= j < list.len() && deribit::listed_instrument(#[trigger] list[j], kinds@) == Some(
                name,
            );
        assert(!is_foreign(list[j], kinds@));
    }
}

/// A message that answers no awaited request, or answers it with an error, makes nothing followed;
/// the error is reported.
pub proof fn other_messages_change_nothing(
    message: &Json,
    kinds: &[DeribitInstrumentKind],
    trades_interval: &str,
    state: &mut FeedRuntimeState,
    r: Result<Vec<String>, String>,
)
    requires
        call_ensures(
            subscribe_deribit_get_instruments,
            (message, kinds, trades_interval, state),
            r,
        ),
    ensures
        json::u64_of(message@.field("id"@)) is None || !old(
            state,
        ).get_instruments_request_ids@.contains(json::u64_of(message@.field("id"@))->Some_0) ==> r
            is Ok && r->Ok_0@.len() == 0 && final(state).instruments == old(state).instruments,
        r is Err ==> message@.field("error"@) is Some && final(state).instruments == old(
            state,
        ).instruments,
        json::u64_of(message@.field("id"@)) is Some && old(
            state,
        ).get_instruments_request_ids@.contains(json::u64_of(message@.field("id"@))->Some_0)
            && message@.field("error"@) is Some ==> r is Err,
{
}

/// The document says what the message says, however it is handed over; a text that is no document
/// changes nothing.
pub proof fn documents_are_followed_like_messages(
    document: &str,
    kinds: &[DeribitInstrumentKind],
    trades_interval: &str,
    first: &mut FeedRuntimeState,
    second: &mut FeedRuntimeState,
    current: Result<Vec<String>, String>,
    created: Vec<String>,
)
    requires
        call_ensures(
            maybe_subscribe_deribit_get_instruments,
            (document, kinds, trades_interval, first),
            current,
        ),
        call_ensures(
            maybe_subscribe_deribit_created_instrument,
            (document, kinds, trades_interval, second),
            created,
        ),
        wire::parsed_document(document@) is Err,
    ensures
        current is Ok && current->Ok_0@.len() == 0,
        final(first).instruments == old(first).instruments,
        created@.len() == 0,
        text::texts(final(second).instruments@) == text::texts(old(second).instruments@),
{
}

/// The announcement says of nothing that it is of another currency or another kind.
pub open spec fn is_welcome(data: JsonTree, kinds: Seq<DeribitInstrumentKind>) -> bool {
    &&& data.field("base_currency"@) is None || data.field("base_currency"@) == Some(
        JsonTree::Text("BTC"@),
    )
    &&& data.field("kind"@) is None || (data.field("kind"@) == Some(JsonTree::Text("future"@))
        && kinds.contains(DeribitInstrumentKind::Future)) || (data.field("kind"@) == Some(
        JsonTree::Text("option"@),
    ) && kinds.contains(DeribitInstrumentKind::Option))
}

/// An instrument that is announced on a creation channel is followed from then on, with its ticker
/// and its trades, unless it says that it is none of BTC or of none of the kinds; one that is
/// followed already is not subscribed to again.
pub proof fn announced_instruments_are_followed(
    message: &Json,
    kinds: &[DeribitInstrumentKind],
    trades_interval: &str,
    state: &mut FeedRuntimeState,
    channels: Vec<String>,
    kind: DeribitInstrumentKind,
    data: JsonTree,
    name: Seq<char>,
    subscribed: Seq<char>,
)
    requires
        call_ensures(
            subscribe_deribit_created_instrument,
            (message, kinds, trades_interval, state),
            channels,
        ),
        message@.field("params"@) is Some,
        message@.field("params"@)->Some_0.field("channel"@) == Some(JsonTree::Text(subscribed)),
        message@.field("params"@)->Some_0.field("data"@) == Some(data),
        subscribed == "instrument.creation."@ + kind.name() + ".BTC"@,
        data.field("instrument_name"@) == Some(JsonTree::Text(name)),
    ensures
        is_welcome(data, kinds@) ==> text::texts(final(state).instruments@).contains(name),
        is_welcome(data, kinds@) && !text::texts(old(state).instruments@).contains(name)
            ==> text::texts(channels@) == seq![
            "incremental_ticker."@ + name,
            "trades."@ + name + "."@ + trades_interval@,
        ],
        text::texts(old(state).instruments@).contains(name) ==> channels@.len() == 0,
        data.field("base_currency"@) is Some && data.field("base_currency"@)->Some_0 is Text
            && data.field("base_currency"@)->Some_0 != JsonTree::Text("BTC"@) ==> channels@.len()
            == 0 && text::texts(final(state).instruments@) == text::texts(old(state).instruments@),
        data.field("kind"@) == Some(JsonTree::Text("option"@)) && !kinds@.contains(
            DeribitInstrumentKind::Option,
        ) ==> channels@.len() == 0,
        data.field("kind"@) == Some(JsonTree::Text("future"@)) && !kinds@.contains(
            DeribitInstrumentKind::Future,
        ) ==> channels@.len() == 0,
        text::texts(old(state).instruments@).is_prefix_of(text::texts(final(state).instruments@)),
{
    lemma_kind_names(kinds@);
    let known = text::texts(old(state).instruments@);
    let after = text::texts(final(state).instruments@);
    assert("instrument.creation."@.is_prefix_of(subscribed)) by {
        assert(subscribed =~= "instrument.creation."@ + (kind.name() + ".BTC"@));
    }
    assert(text::texts(channels@).len() == channels@.len());
    assert(known.is_prefix_of(after));
    if is_welcome(data, kinds@) {
        assert(deribit::created_instrument(message@, kinds@) == Some(name));
        if known.contains(name) {
            let k = choose|k: int| 0 <= k < known.len() && known[k] == name;
            assert(after[k] == name);
        }
        if !known.contains(name) {
            assert(after[known.len() as int] == name);
            let own = deribit_feed::instrument_channels(seq![name], trades_interval@);
            assert(own =~= seq![
                "incremental_ticker."@ + name,
                "trades."@ + name + "."@ + trades_interval@,
            ]);
        }
    }
}

/// The heartbeats of Deribit are requested unless they are switched off, at the wanted interval but
/// at least ten seconds apart.
pub proof fn heartbeats_are_requested(
    state: &mut FeedRuntimeState,
    heartbeat_secs: u64,
    message: Option<String>,
)
    requires
        call_ensures(deribit_set_heartbeat_request, (state, heartbeat_secs), message),
    ensures
        message is None <==> heartbeat_secs == 0,
        message is Some ==> exists|sent: JsonTree|
            #![trigger wire::written_document(sent)]
            message->Some_0@ == wire::written_document(sent) && is_request(
                sent,
                "public/set_heartbeat"@,
                final(state).request_id,
            ) && (heartbeat_secs >= 10 ==> json::u64_of(param(sent, "interval"@)) == Some(
                heartbeat_secs,
            )) && (heartbeat_secs < 10 ==> json::u64_of(param(sent, "interval"@)) == Some(10u64)),
        final(state).instruments == old(state).instruments,
        final(state).get_instruments_request_ids == old(state).get_instruments_request_ids,
{
    if heartbeat_secs > 0 {
        let interval: u64 = if heartbeat_secs < 10 {
            10
        } else {
            heartbeat_secs
        };
        let sent = deribit_feed::set_heartbeat_tree(final(state).request_id, interval);
        lemma_request(
            "public/set_heartbeat"@,
            final(state).request_id,
            sent->Object_0["params"@],
        );
        text::printed_numbers_are_read_back(interval as nat, u64::MAX as int);
        assert(message->Some_0@ == wire::written_document(sent));
    }
}

/// Every channel is subscribed to: the channel at a position stands in the request at a two
/// hundredth of the position, at its place there. Behind the last channel there is no request, and
/// no request names more than two hundred.
pub proof fn every_channel_is_subscribed_to(
    state: &mut FeedRuntimeState,
    channels: &Vec<String>,
    index: usize,
    r: Option<DeribitRequest>,
    position: int,
)
    requires
        call_ensures(deribit_subscribe_request, (state, channels, index), r),
        0 <= position < channels@.len(),
    ensures
        r is Some <==> index * 200 < channels@.len(),
        r is Some ==> exists|sent: JsonTree|
            #![trigger wire::written_document(sent)]
            r->Some_0.message@ == wire::written_document(sent) && is_request(
                sent,
                "public/subscribe"@,
                final(state).request_id,
            ) && (position / 200 == index ==> json::item_of(
                param(sent, "channels"@),
                position % 200,
            ) == Some(JsonTree::Text(channels@[position]@))) && json::array_of(
                param(sent, "channels"@),
            ) is Some && 1 <= json::array_of(param(sent, "channels"@))->Some_0.len() <= 200,
        r is Some ==> r->Some_0.pause_millis == if (index + 1) * 200 < channels@.len() {
            250u64
        } else {
            0
        },
        r is None ==> final(state).request_id == old(state).request_id,
        final(state).instruments == old(state).instruments,
        final(state).get_instruments_request_ids == old(state).get_instruments_request_ids,
{
    let all = text::texts(channels@);
    assert(all.len() == channels@.len());
    if index * 200 < channels@.len() {
        let part = deribit_feed::chunk(all, index as nat);
        let sent = deribit_feed::subscribe_tree(final(state).request_id, part);
        lemma_request("public/subscribe"@, final(state).request_id, sent->Object_0["params"@]);
        assert(r->Some_0.message@ == wire::written_document(sent));
        let named = param(sent, "channels"@);
        assert(named == Some(
            JsonTree::Array(part.map_values(|s: Seq<char>| JsonTree::Text(s))),
        ));
        if position / 200 == index {
            assert(part[position % 200] == all[position]);
        }
    }
}

/// A heartbeat test is answered by a test request under a new id; nothing else is answered.
pub proof fn heartbeat_tests_are_answered(
    message: &Json,
    state: &mut FeedRuntimeState,
    answer: Option<String>,
    asked: bool,
)
    requires
        call_ensures(answer_deribit_heartbeat_test_request, (message, state), answer),
        asked == (message@.field("method"@) == Some(JsonTree::Text("heartbeat"@)) && message@.field(
            "params"@,
        ) is Some && message@.field("params"@)->Some_0.field("type"@) == Some(
            JsonTree::Text("test_request"@),
        )),
    ensures
        answer is Some <==> asked,
        answer is Some ==> exists|sent: JsonTree|
            #![trigger wire::written_document(sent)]
            answer->Some_0@ == wire::written_document(sent) && is_request(
                sent,
                "public/test"@,
                final(state).request_id,
            ),
        answer is Some && old(state).request_id < u64::MAX ==> final(state).request_id > old(
            state,
        ).request_id,
        answer is None ==> final(state).request_id == old(state).request_id,
        final(state).instruments == old(state).instruments,
{
    if asked {
        let sent = deribit_feed::public_test_tree(final(state).request_id);
        lemma_request("public/test"@, final(state).request_id, sent->Object_0["params"@]);
        assert(answer->Some_0@ == wire::written_document(sent));
    }
}

/// A text that is no document is not answered.
pub proof fn broken_documents_are_not_answered(
    document: &str,
    state: &mut FeedRuntimeState,
    answer: Option<String>,
)
    requires
        call_ensures(maybe_answer_deribit_heartbeat_test_request, (document, state), answer),
        wire::parsed_document(document@) is Err,
    ensures
        answer is None,
        final(state).request_id == old(state).request_id,
{
}

/// What is announced on the lifecycle channels of a kind is recorded as creations and as states, and
/// what comes on the channels of an instrument as tickers and as trades.
pub proof fn subscriptions_are_recorded_apart(
    kinds: &[DeribitInstrumentKind],
    lifecycle: Vec<String>,
    instrument_name: &str,
    trades_interval: &str,
    own: Vec<String>,
    document: &str,
    tree: JsonTree,
    output: &'static str,
    k: int,
)
    requires
        call_ensures(deribit_lifecycle_channels, (kinds,), lifecycle),
        call_ensures(deribit_instrument_channels, (instrument_name, trades_interval), own),
        call_ensures(deribit_output_channel, (document,), output),
        wire::parsed_document(document@) == Ok::<JsonTree, Seq<char>>(tree),
        tree.field("params"@) is Some,
        tree.field("params"@)->Some_0.field("channel"@) is Some,
        0 <= k < kinds@.len(),
    ensures
        lifecycle@.len() == 2 * kinds@.len(),
        own@.len() == 2,
        own@[0]@ == "incremental_ticker."@ + instrument_name@,
        own@[1]@ == "trades."@ + instrument_name@ + "."@ + trades_interval@,
        ({
            let subscribed = tree.field("params"@)->Some_0.field("channel"@)->Some_0;
            &&& subscribed == JsonTree::Text(lifecycle@[2 * k]@) ==> output@
                == "instrument_creation"@
            &&& subscribed == JsonTree::Text(lifecycle@[2 * k + 1]@) ==> output@
                == "instrument_state"@
            &&& subscribed == JsonTree::Text(own@[0]@) ==> output@ == "incremental_ticker"@
            &&& subscribed == JsonTree::Text(own@[1]@) ==> output@ == "trades"@
        }),
        lifecycle@[2 * k]@ == "instrument.creation."@ + (match kinds@[k] {
            DeribitInstrumentKind::Future => "future"@,
            DeribitInstrumentKind::Option => "option"@,
        }) + ".BTC"@,
        lifecycle@[2 * k + 1]@ == "instrument.state."@ + (match kinds@[k] {
            DeribitInstrumentKind::Future => "future"@,
            DeribitInstrumentKind::Option => "option"@,
        }) + ".BTC"@,
{
    let channels = deribit_feed::lifecycle_channels(kinds@);
    let pair = deribit_feed::instrument_channels(seq![instrument_name@], trades_interval@);
    assert(text::texts(lifecycle@).len() == lifecycle@.len());
    assert(text::texts(own@).len() == own@.len());
    assert(channels[2 * k] == lifecycle@[2 * k]@);
    assert(channels[2 * k + 1] == lifecycle@[2 * k + 1]@);
    assert(pair[0] == own@[0]@ && pair[1] == own@[1]@);
    let creation = "instrument.creation."@;
    let state = "instrument.state."@;
    let ticker = "incremental_ticker."@;
    let trades = "trades."@;
    reveal_strlit("instrument.creation.");
    reveal_strlit("instrument.state.");
    reveal_strlit("incremental_ticker.");
    reveal_strlit("trades.");
    let a = lifecycle@[2 * k]@;
    let b = lifecycle@[2 * k + 1]@;
    let c = own@[0]@;
    let d = own@[1]@;
    assert(creation.is_prefix_of(a)) by {
        assert(a =~= creation + (kinds@[k].name() + ".BTC"@));
    }
    assert(state.is_prefix_of(b)) by {
        assert(b =~= state + (kinds@[k].name() + ".BTC"@));
    }
    assert(ticker.is_prefix_of(c)) by {
        assert(c =~= ticker + instrument_name@);
    }
    assert(trades.is_prefix_of(d)) by {
        assert(d =~= trades + (instrument_name@ + "."@ + trades_interval@));
    }
    assert(b[11] == 's' && creation[11] == 'c');
    assert(!creation.is_prefix_of(b)) by {
        if creation.is_prefix_of(b) {
            assert(b.subrange(0, creation.len() as int)[11] == b[11]);
        }
    }
    assert(c[2] == 'c' && creation[2] == 's' && state[2] == 's');
    assert(!creation.is_prefix_of(c)) by {
        if creation.is_prefix_of(c) {
            assert(c.subrange(0, creation.len() as int)[2] == c[2]);
        }
    }
    assert(!state.is_prefix_of(c)) by {
        if state.is_prefix_of(c) {
            assert(c.subrange(0, state.len() as int)[2] == c[2]);
        }
    }
    assert(d[0] == 't' && creation[0] == 'i' && state[0] == 'i' && ticker[0] == 'i');
    assert(!creation.is_prefix_of(d)) by {
        if creation.is_prefix_of(d) {
            assert(d.subrange(0, creation.len() as int)[0] == d[0]);
        }
    }
    assert(!state.is_prefix_of(d)) by {
        if state.is_prefix_of(d) {
            assert(d.subrange(0, state.len() as int)[0] == d[0]);
        }
    }
    assert(!ticker.is_prefix_of(d)) by {
        if ticker.is_prefix_of(d) {
            assert(d.subrange(0, ticker.len() as int)[0] == d[0]);
        }
    }
}

/// A connection first subscribes to the lifecycle channels, then to the channels of every instrument
/// that is followed already.
pub proof fn connections_subscribe_to_what_is_followed(
    state: &FeedRuntimeState,
    kinds: &[DeribitInstrumentKind],
    trades_interval: &str,
    channels: Vec<String>,
    lifecycle: Vec<String>,
    k: int,
)
    requires
        call_ensures(deribit_initial_channels, (state, kinds, trades_interval), channels),
        call_ensures(deribit_lifecycle_channels, (kinds,), lifecycle),
        0 <= k < state.instruments@.len(),
    ensures
        text::texts(lifecycle@).is_prefix_of(text::texts(channels@)),
        channels@.len() == 2 * kinds@.len() + 2 * state.instruments@.len(),
        channels@[2 * kinds@.len() + 2 * k]@ == "incremental_ticker."@
            + state.instruments@[k]@,
        channels@[2 * kinds@.len() + 2 * k + 1]@ == "trades."@ + state.instruments@[k]@ + "."@
            + trades_interval@,
{
    let all = text::texts(channels@);
    let first = text::texts(lifecycle@);
    let known = text::texts(state.instruments@);
    let rest = deribit_feed::instrument_channels(known, trades_interval@);
    assert(all.len() == channels@.len());
    assert(all == first + rest);
    assert(first.is_prefix_of(all));
    let at = 2 * kinds@.len() + 2 * k;
    assert(first.len() == 2 * kinds@.len());
    assert(rest[2 * k] == "incremental_ticker."@ + known[k]);
    assert(rest[2 * k + 1] == "trades."@ + known[k] + "."@ + trades_interval@);
    assert(all[at] == rest[2 * k] && all[at + 1] == rest[2 * k + 1]);
    assert(all[at] == channels@[at]@ && all[at + 1] == channels@[at + 1]@);
}

/// A connection opens in order: heartbeats first, where they are on, then every channel, then a
/// request for every kind; each of these is the request that stands for itself.
pub proof fn connections_open_in_order(
    state: &mut FeedRuntimeState,
    heartbeat_secs: u64,
    channels: &Vec<String>,
    kinds: &[DeribitInstrumentKind],
    index: usize,
    r: Option<DeribitOpening>,
    chunk: int,
    kind: int,
)
    requires
        call_ensures(
            deribit_opening_request,
            (state, heartbeat_secs, channels, kinds, index),
            r,
        ),
        0 <= chunk <= usize::MAX,
        0 <= kind < kinds@.len(),
    ensures
        heartbeat_secs > 0 && index == 0 <==> r is Some && r->Some_0.purpose is Heartbeat,
        index == chunk + (if heartbeat_secs > 0 {
            1int
        } else {
            0
        }) && chunk * 200 < channels@.len() ==> r is Some && r->Some_0.purpose
            == OpeningPurpose::Subscribe(chunk as usize),
        index == kind + (channels@.len() + 199) / 200 + (if heartbeat_secs > 0 {
            1int
        } else {
            0
        }) ==> r is Some && r->Some_0.purpose == OpeningPurpose::GetInstruments(kind as usize)
            && exists|sent: JsonTree|
            #![trigger wire::written_document(sent)]
            r->Some_0.request.message@ == wire::written_document(sent) && asks_for_current(
                sent,
                final(state).request_id,
                kinds@[kind],
            ) && final(state).get_instruments_request_ids@.contains(final(state).request_id),
        r is None <==> index >= kinds@.len() + (channels@.len() + 199) / 200 + (if heartbeat_secs
            > 0 {
            1int
        } else {
            0
        }),
        final(state).instruments == old(state).instruments,
{
    lemma_asks_for_current(final(state).request_id, kinds@[kind]);
    if index == kind + (channels@.len() + 199) / 200 + (if heartbeat_secs > 0 {
        1int
    } else {
        0
    }) {
        assert(r->Some_0.request.message@ == wire::written_document(
            deribit_feed::get_instruments_tree(final(state).request_id, kinds@[kind]),
        ));
    }
}

/// A text message goes through its steps one after the other: a test is answered, then what is
/// current is followed, then what is new; then nothing is left to do.
pub proof fn messages_are_followed_up_in_order(
    document: &str,
    kinds: &[DeribitInstrumentKind],
    trades_interval: &str,
    state: &mut FeedRuntimeState,
    step: &mut FollowUpStep,
    r: Result<FollowUp, String>,
)
    requires
        call_ensures(deribit_follow_up, (document, kinds, trades_interval, state, step), r),
    ensures
        *old(step) == FollowUpStep::AnswerTest ==> *final(step) == FollowUpStep::FollowCurrent && r
            is Ok && r->Ok_0 is Answer,
        *old(step) == FollowUpStep::FollowCurrent ==> *final(step) == FollowUpStep::FollowCreated
            && (r is Ok ==> r->Ok_0 is Subscribe),
        *old(step) == FollowUpStep::FollowCreated ==> *final(step) == FollowUpStep::Done && r is Ok
            && r->Ok_0 is Subscribe,
        *old(step) == FollowUpStep::Done ==> *final(step) == FollowUpStep::Done && r is Ok
            && r->Ok_0 is Nothing && *final(state) == *old(state),
        r is Err ==> wire::parsed_document(document@) is Ok
            && wire::parsed_document(document@)->Ok_0.field("error"@) is Some,
{
}

/// Ids grow as long as there are larger ones, and nothing else changes with them.
pub proof fn request_ids_grow(state: &mut FeedRuntimeState, id: u64)
    requires
        call_ensures(FeedRuntimeState::next_deribit_request_id, (state,), id),
    ensures
        old(state).request_id < u64::MAX ==> id == old(state).request_id + 1,
        final(state).request_id == id,
        final(state).instruments == old(state).instruments,
{
}

/// An instrument is new just where it was not followed; it is followed then, behind the others.
pub proof fn instruments_are_followed_once(
    state: &mut FeedRuntimeState,
    name: &str,
    new: bool,
)
    requires
        call_ensures(FeedRuntimeState::insert_instrument, (state, name), new),
    ensures
        new <==> !text::texts(old(state).instruments@).contains(name@),
        text::texts(final(state).instruments@).contains(name@),
        new ==> text::texts(final(state).instruments@) == text::texts(
            old(state).instruments@,
        ).push(name@),
        !new ==> text::texts(final(state).instruments@) == text::texts(old(state).instruments@),
{
    if new {
        let after = text::texts(final(state).instruments@);
        assert(after[after.len() - 1] == name@);
    }
}

/// What is not announced on a creation channel announces nothing.
pub proof fn other_channels_announce_nothing(
    message: &Json,
    kinds: &[DeribitInstrumentKind],
    trades_interval: &str,
    state: &mut FeedRuntimeState,
    channels: Vec<String>,
    subscribed: Seq<char>,
)
    requires
        call_ensures(
            subscribe_deribit_created_instrument,
            (message, kinds, trades_interval, state),
            channels,
        ),
        message@.field("params"@) is None || (message@.field("params"@)->Some_0.field("channel"@)
            == Some(JsonTree::Text(subscribed)) && !"instrument.creation."@.is_prefix_of(
            subscribed,
        )),
    ensures
        channels@.len() == 0,
        text::texts(final(state).instruments@) == text::texts(old(state).instruments@),
{
}

/// Messages are recorded as creations, states, tickers or trades only where they come from such a
/// subscription; all others are recorded as control messages.
pub proof fn other_messages_are_control_messages(
    document: &str,
    output: &'static str,
    tree: JsonTree,
    subscribed: Seq<char>,
)
    requires
        call_ensures(deribit_output_channel, (document,), output),
    ensures
        wire::parsed_document(document@) is Err ==> output@ == "control"@,
        wire::parsed_document(document@) == Ok::<JsonTree, Seq<char>>(tree) && tree.field(
            "params"@,
        ) is None ==> output@ == "control"@,
        wire::parsed_document(document@) == Ok::<JsonTree, Seq<char>>(tree) && tree.field(
            "params"@,
        ) is Some && tree.field("params"@)->Some_0.field("channel"@) == Some(
            JsonTree::Text(subscribed),
        ) ==> {
            &&& output@ == "instrument_creation"@ ==> "instrument.creation."@.is_prefix_of(
                subscribed,
            )
            &&& output@ == "instrument_state"@ ==> "instrument.state."@.is_prefix_of(subscribed)
            &&& output@ == "incremental_ticker"@ ==> "incremental_ticker."@.is_prefix_of(
                subscribed,
            )
            &&& output@ == "trades"@ ==> "trades."@.is_prefix_of(subscribed)
            &&& output@ == "instrument_creation"@ || output@ == "instrument_state"@ || output@
                == "incremental_ticker"@ || output@ == "trades"@ || output@ == "control"@
        },
{
    reveal_strlit("instrument_creation");
    reveal_strlit("instrument_state");
    reveal_strlit("incremental_ticker");
    reveal_strlit("trades");
    reveal_strlit("control");
    assert("instrument_creation"@.len() == 19 && "instrument_state"@.len() == 16
        && "incremental_ticker"@.len() == 18 && "trades"@.len() == 6 && "control"@.len() == 7);
}

} // verus!
