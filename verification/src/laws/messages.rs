//! What a feed does about its messages: every text and every binary message is recorded whole and
//! counted once, and nothing else is.

use vstd::prelude::*;

use crate::deribit::deribit_output_channel;
use crate::feed::CloseFrame;
use crate::feed::FeedRunStatus;
use crate::feed::FeedTurn;
use crate::feed::IoErrorKind;
use crate::feed::LoopStep;
use crate::feed::MessageAction;
use crate::feed::NextWebsocketEvent;
use crate::feed::ProtocolError;
use crate::feed::WsError;
use crate::feed::WsMessage;
use crate::feed::after_feed_run;
use crate::feed::deribit_channel_for;
use crate::feed::end_turn;
use crate::feed::feed_turn;
use crate::feed::handle_websocket_message;
use crate::feed::is_expected_websocket_reconnect_error;
use crate::feed::message_limit_reached;
use crate::feed::reconnects_after_signal;
use crate::feed::shutdown_event;
use crate::feed::websocket_close_report;
use crate::feed::websocket_message_event;
use crate::feed::websocket_message_or_reconnect;
use crate::feed;
use crate::heartbeat::HeartbeatState;
use crate::hyperliquid::HyperliquidEvent;
use crate::hyperliquid::HyperliquidIncoming;
use crate::hyperliquid::HyperliquidTurn;
use crate::hyperliquid::NextHyperliquidEvent;
use crate::hyperliquid::end_hyperliquid_turn;
use crate::hyperliquid::hyperliquid_turn;
use crate::text;

verus! {

/// What a message carries.
pub ghost enum Payload {
    Text(Seq<char>),
    Binary(Seq<u8>),
}

/// The payload that a message brings: that of a text or a binary message; control messages bring
/// none.
pub open spec fn brought(message: WsMessage) -> Option<Payload> {
    match message {
        WsMessage::Text(contents) => Some(Payload::Text(contents@)),
        WsMessage::Binary(bytes) => Some(Payload::Binary(bytes@)),
        _ => None,
    }
}

/// The payload that an action records.
pub open spec fn kept(action: MessageAction) -> Option<Payload> {
    match action {
        MessageAction::RecordText(contents) => Some(Payload::Text(contents@)),
        MessageAction::RecordBinary(bytes) => Some(Payload::Binary(bytes@)),
        _ => None,
    }
}

/// The payloads of a list of messages, in their order.
pub open spec fn all_brought(messages: Seq<WsMessage>) -> Seq<Payload>
    decreases messages.len(),
{
    if messages.len() == 0 {
        Seq::empty()
    } else {
        let front = all_brought(messages.drop_last());
        match brought(messages.last()) {
            Some(payload) => front.push(payload),
            None => front,
        }
    }
}

/// The payloads that a list of actions records, in their order.
pub open spec fn all_kept(actions: Seq<MessageAction>) -> Seq<Payload>
    decreases actions.len(),
{
    if actions.len() == 0 {
        Seq::empty()
    } else {
        let front = all_kept(actions.drop_last());
        match kept(actions.last()) {
            Some(payload) => front.push(payload),
            None => front,
        }
    }
}

/// Every data message is recorded whole: the action about a message records just the payload that
/// the message brings. A closed connection is renewed, and nothing else renews it.
pub proof fn messages_are_recorded_whole(
    message: WsMessage,
    heartbeat: &mut HeartbeatState,
    action: MessageAction,
)
    requires
        call_ensures(handle_websocket_message, (message, heartbeat), action),
    ensures
        kept(action) == brought(message),
        message is Close <==> action is Reconnect,
        message is Close ==> action->Reconnect_0 == message->Close_0,
        message is Ping <==> action is FlushPong,
        !(message is Pong) ==> final(heartbeat)@ == old(heartbeat)@,
{
}

/// The feed decided on the action about the message.
pub open spec fn decided(message: WsMessage, action: MessageAction) -> bool {
    exists|heartbeat: &mut HeartbeatState| #[trigger]
        call_ensures(
            feed_turn,
            (NextWebsocketEvent::Message(Ok(message)), heartbeat),
            FeedTurn::Act(action),
        )
}

/// Over any series of messages what a feed records is what it received: the text and binary payloads,
/// each once, in their order.
pub proof fn series_are_recorded_whole(messages: Seq<WsMessage>, actions: Seq<MessageAction>)
    requires
        messages.len() == actions.len(),
        forall|i: int| 0 <= i < messages.len() ==> decided(#[trigger] messages[i], actions[i]),
    ensures
        all_kept(actions) == all_brought(messages),
    decreases messages.len(),
{
    if messages.len() > 0 {
        let m = messages.drop_last();
        let a = actions.drop_last();
        assert forall|i: int| 0 <= i < m.len() implies decided(#[trigger] m[i], a[i]) by {
            assert(m[i] == messages[i] && a[i] == actions[i]);
            assert(decided(messages[i], actions[i]));
        }
        series_are_recorded_whole(m, a);
        assert(decided(messages[messages.len() - 1], actions[actions.len() - 1]));
        assert(kept(actions.last()) == brought(messages.last()));
    }
}

/// The turn of a message acts on it; a feed is complete with a shutdown and with nothing else; and
/// the end of the stream, or an error that means no more than that, renews the connection.
pub proof fn turns_follow_their_events(
    event: NextWebsocketEvent,
    heartbeat: &mut HeartbeatState,
    turn: FeedTurn,
)
    requires
        call_ensures(feed_turn, (event, heartbeat), turn),
    ensures
        turn == FeedTurn::Finish(FeedRunStatus::Complete) <==> event is Shutdown,
        event is Closed ==> turn == FeedTurn::Finish(FeedRunStatus::Reconnect),
        event is HeartbeatSent <==> turn is Again,
        turn is Act <==> event is Message && event->Message_0 is Ok,
        turn is Act ==> kept(turn->Act_0) == brought(event->Message_0->Ok_0),
        turn is Fail ==> event is Message && event->Message_0 == Err::<WsMessage, WsError>(
            turn->Fail_0,
        ),
        event is Message && event->Message_0 is Err ==> (turn is Fail <==> (
        event->Message_0->Err_0 == WsError::Other || event->Message_0->Err_0 == WsError::Protocol(
            ProtocolError::Other,
        ) || event->Message_0->Err_0 == WsError::Io(IoErrorKind::Other))),
{
}

/// A recorded message counts once, any other not at all; the feed is complete just when the limit is
/// reached, and a closed connection is renewed.
pub proof fn recorded_messages_count_once(
    message: WsMessage,
    heartbeat: &mut HeartbeatState,
    action: MessageAction,
    total: &mut usize,
    max_messages: Option<usize>,
    status: Option<FeedRunStatus>,
)
    requires
        call_ensures(handle_websocket_message, (message, heartbeat), action),
        call_ensures(end_turn, (&action, total, max_messages), status),
        *old(total) < usize::MAX,
    ensures
        brought(message) is Some ==> *final(total) == *old(total) + 1,
        brought(message) is None ==> *final(total) == *old(total),
        message is Close <==> status == Some(FeedRunStatus::Reconnect),
        status == Some(FeedRunStatus::Complete) <==> !(message is Close) && max_messages is Some
            && *final(total) >= max_messages->Some_0,
{
}

/// A feed stops where its run is complete, and it is connected again, after the given wait, where
/// its connection ended before the limit was reached.
pub proof fn feeds_stop_when_they_are_complete(
    action: &MessageAction,
    total: &mut usize,
    max_messages: Option<usize>,
    status: Option<FeedRunStatus>,
    delay_secs: u64,
    step: LoopStep,
)
    requires
        call_ensures(end_turn, (action, total, max_messages), status),
        *old(total) < usize::MAX,
        status is Some,
        call_ensures(after_feed_run, (status, *final(total), max_messages, delay_secs), step),
    ensures
        step == LoopStep::Stop || step == LoopStep::WaitSecs(delay_secs),
        status == Some(FeedRunStatus::Complete) ==> step == LoopStep::Stop,
        action is Reconnect && max_messages is None ==> step == LoopStep::WaitSecs(delay_secs),
        action is Reconnect && max_messages is Some && *final(total) < max_messages->Some_0
            ==> step == LoopStep::WaitSecs(delay_secs),
        max_messages is Some && *final(total) >= max_messages->Some_0 ==> step == LoopStep::Stop,
{
}

/// A connection that failed is renewed unless the limit is reached.
pub proof fn failed_connections_are_renewed(
    total: usize,
    max_messages: Option<usize>,
    delay_secs: u64,
    reached: bool,
    step: LoopStep,
)
    requires
        call_ensures(message_limit_reached, (max_messages, total), reached),
        call_ensures(after_feed_run, (None, total, max_messages, delay_secs), step),
    ensures
        reached <==> max_messages is Some && total >= max_messages->Some_0,
        reached ==> step == LoopStep::Stop,
        !reached ==> step == LoopStep::WaitSecs(delay_secs),
{
}

/// A signal ends a feed just where it requests a shutdown or nobody can request one any more,
/// whether the feed is connected or waits to be.
pub proof fn signals_end_feeds_alike(
    closed: bool,
    requested: bool,
    event: NextWebsocketEvent,
    heartbeat: &mut HeartbeatState,
    turn: FeedTurn,
    again: bool,
    other: HyperliquidTurn,
)
    requires
        call_ensures(shutdown_event, (closed, requested), event),
        call_ensures(feed_turn, (event, heartbeat), turn),
        call_ensures(reconnects_after_signal, (closed, requested), again),
        call_ensures(
            hyperliquid_turn,
            (NextHyperliquidEvent::Signal { closed, requested },),
            other,
        ),
    ensures
        closed || requested ==> turn == FeedTurn::Finish(FeedRunStatus::Complete) && !again
            && other == HyperliquidTurn::Finish(FeedRunStatus::Complete),
        !closed && !requested ==> turn is Again && again && other is Again,
{
}

/// What is read from a stream is what the feed gets; the end of the stream renews the connection.
pub proof fn streams_are_read_to_their_end(
    message: Option<Result<WsMessage, WsError>>,
    event: NextWebsocketEvent,
    heartbeat: &mut HeartbeatState,
    turn: FeedTurn,
)
    requires
        call_ensures(websocket_message_event, (message,), event),
        call_ensures(feed_turn, (event, heartbeat), turn),
    ensures
        message is Some && message->Some_0 is Ok ==> turn is Act && kept(turn->Act_0) == brought(
            message->Some_0->Ok_0,
        ),
        message is None ==> turn == FeedTurn::Finish(FeedRunStatus::Reconnect),
{
}

/// The report of a closed connection names the connection, and where there is a close frame its code
/// and its reason; that the server missed a pong is said just where the reason is a ping timeout.
pub proof fn closes_are_reported(
    connection_id: &str,
    frame: &Option<CloseFrame>,
    line: String,
    timeout_note: Seq<char>,
)
    requires
        call_ensures(websocket_close_report, (connection_id, frame), line),
        timeout_note == "; remote server did not receive our pong before its ping timeout"@,
    ensures
        connection_id@.is_prefix_of(line@),
        frame is Some ==> {
            let code = text::nat_text(frame->Some_0.code as nat);
            let reason = frame->Some_0.reason@;
            let plain = connection_id@ + " websocket closed: code="@ + code + " reason=\""@ + reason
                + "\""@;
            if text::lower(reason) == text::lower("Ping timeout"@) {
                line@ == plain + timeout_note
            } else {
                line@ == plain
            }
        },
        frame is None ==> line@ == connection_id@ + " websocket closed without a close frame"@,
{
    if frame is Some {
        let f = frame->Some_0;
        let plain = connection_id@ + " websocket closed: code="@ + text::nat_text(f.code as nat)
            + " reason=\""@ + f.reason@ + "\""@;
        assert(connection_id@.is_prefix_of(plain));
    }
}

/// Every report of a Hyperliquid connection is recorded and counted once: a message with its own
/// document, under the channel of its kind.
pub proof fn reports_are_recorded_whole(
    report: HyperliquidEvent,
    turn: HyperliquidTurn,
    total: &mut usize,
    max_messages: Option<usize>,
    status: Option<FeedRunStatus>,
)
    requires
        call_ensures(hyperliquid_turn, (NextHyperliquidEvent::Event(report),), turn),
        call_ensures(end_hyperliquid_turn, (total, max_messages), status),
        *old(total) < usize::MAX,
    ensures
        turn is Record,
        report is Message ==> turn->Record_1@ == report->Message_1@,
        report is Message && report->Message_0 == HyperliquidIncoming::Trades ==> turn->Record_0@
            == "trades"@,
        report is Message && report->Message_0 == HyperliquidIncoming::L2Book ==> turn->Record_0@
            == "book"@,
        !(report is Message) || report->Message_0 == HyperliquidIncoming::Other ==> turn->Record_0@
            == "control"@,
        *final(total) == *old(total) + 1,
        status is None || status == Some(FeedRunStatus::Complete),
        status is Some <==> max_messages is Some && *final(total) >= max_messages->Some_0,
{
}

/// The end of a Hyperliquid stream completes the feed.
pub proof fn ended_streams_complete_the_feed(turn: HyperliquidTurn)
    requires
        call_ensures(hyperliquid_turn, (NextHyperliquidEvent::Ended,), turn),
    ensures
        turn == HyperliquidTurn::Finish(FeedRunStatus::Complete),
{
}

/// A reset of the connection brings no message and no error; every other error is handed on.
pub proof fn resets_are_no_errors(
    message: Result<WsMessage, WsError>,
    r: Result<Option<WsMessage>, WsError>,
    error: WsError,
    expected: bool,
)
    requires
        call_ensures(websocket_message_or_reconnect, (message,), r),
        call_ensures(is_expected_websocket_reconnect_error, (&error,), expected),
    ensures
        message is Ok ==> r == Ok::<Option<WsMessage>, WsError>(Some(message->Ok_0)),
        message is Err ==> r == Ok::<Option<WsMessage>, WsError>(None) || r == Err::<
            Option<WsMessage>,
            WsError,
        >(message->Err_0),
        message == Err::<WsMessage, WsError>(error) ==> (expected <==> r is Ok),
        error == WsError::ConnectionClosed ==> expected,
        error == WsError::Io(IoErrorKind::ConnectionReset) ==> expected,
        error == WsError::Io(IoErrorKind::ConnectionAborted) ==> expected,
        error == WsError::Io(IoErrorKind::UnexpectedEof) ==> expected,
        error == WsError::Protocol(ProtocolError::ResetWithoutClosingHandshake) ==> expected,
        error == WsError::Other || error == WsError::Io(IoErrorKind::Other) || error
            == WsError::Protocol(ProtocolError::Other) ==> !expected,
{
}

/// A Deribit text is recorded under the channel of its subscription, anything else under `control`.
pub proof fn deribit_messages_have_their_channel(
    action: &MessageAction,
    channel: &'static str,
    document: &str,
    own: &'static str,
)
    requires
        call_ensures(deribit_channel_for, (action,), channel),
        call_ensures(deribit_output_channel, (document,), own),
    ensures
        action is RecordText && action->RecordText_0@ == document@ ==> channel@ == own@,
        !(action is RecordText) ==> channel@ == "control"@,
{
}

} // verus!
