//! One websocket feed: what each event means for the recording.

use vstd::prelude::*;

use crate::deribit;
use crate::heartbeat::HeartbeatState;
use crate::text;
use crate::wire;

verus! {

/// The close frame of a websocket.
#[derive(Debug)]
pub struct CloseFrame {
    pub code: u16,
    pub reason: String,
}

/// A websocket message.
#[derive(Debug)]
pub enum WsMessage {
    Text(String),
    Binary(Vec<u8>),
    Ping(Vec<u8>),
    Pong(Vec<u8>),
    Frame,
    Close(Option<CloseFrame>),
}

/// The kinds of I/O errors that matter to a feed.
#[derive(Clone, Copy, Debug, PartialEq, Eq, Structural)]
pub enum IoErrorKind {
    ConnectionReset,
    ConnectionAborted,
    UnexpectedEof,
    Other,
}

/// The kinds of protocol errors that matter to a feed.
#[derive(Clone, Copy, Debug, PartialEq, Eq, Structural)]
pub enum ProtocolError {
    ResetWithoutClosingHandshake,
    Other,
}

/// Why a websocket could not be read.
#[derive(Clone, Copy, Debug, PartialEq, Eq, Structural)]
pub enum WsError {
    ConnectionClosed,
    Protocol(ProtocolError),
    Io(IoErrorKind),
    Other,
}

/// What a feed waits for.
#[derive(Debug)]
pub enum NextWebsocketEvent {
    Message(Result<WsMessage, WsError>),
    HeartbeatSent,
    Shutdown,
    Closed,
}

/// How one connection of a feed ended.
#[derive(Clone, Copy, Debug, PartialEq, Eq, Structural)]
pub enum FeedRunStatus {
    Complete,
    Reconnect,
}

/// The event of a change of the shutdown signal: a shutdown where one is requested or nobody can
/// request one any more.
pub fn shutdown_event(shutdown_closed: bool, shutdown_requested: bool) -> (event:
    NextWebsocketEvent)
    ensures
        event == if shutdown_closed || shutdown_requested {
            NextWebsocketEvent::Shutdown
        } else {
            NextWebsocketEvent::HeartbeatSent
        },
{
    if !shutdown_closed && !shutdown_requested {
        return NextWebsocketEvent::HeartbeatSent;
    }
    NextWebsocketEvent::Shutdown
}

/// The event of a read: the stream has ended where there is nothing.
pub fn websocket_message_event(message: Option<Result<WsMessage, WsError>>) -> (event:
    NextWebsocketEvent)
    ensures
        event == match message {
            Some(m) => NextWebsocketEvent::Message(m),
            None => NextWebsocketEvent::Closed,
        },
{
    match message {
        Some(m) => NextWebsocketEvent::Message(m),
        None => NextWebsocketEvent::Closed,
    }
}

/// The errors after which a feed reconnects without complaint.
pub open spec fn reconnect_error(error: WsError) -> bool {
    ||| error == WsError::ConnectionClosed
    ||| error == WsError::Protocol(ProtocolError::ResetWithoutClosingHandshake)
    ||| error == WsError::Io(IoErrorKind::ConnectionReset)
    ||| error == WsError::Io(IoErrorKind::ConnectionAborted)
    ||| error == WsError::Io(IoErrorKind::UnexpectedEof)
}

/// Whether an error only means that the connection was reset.
pub fn is_expected_websocket_reconnect_error(error: &WsError) -> (yes: bool)
    ensures
        yes == reconnect_error(*error),
{
    match error {
        WsError::ConnectionClosed => true,
        WsError::Protocol(kind) => match kind {
            ProtocolError::ResetWithoutClosingHandshake => true,
            ProtocolError::Other => false,
        },
        WsError::Io(kind) => match kind {
            IoErrorKind::ConnectionReset => true,
            IoErrorKind::ConnectionAborted => true,
            IoErrorKind::UnexpectedEof => true,
            IoErrorKind::Other => false,
        },
        WsError::Other => false,
    }
}

/// The message of a read; nothing where the connection was reset.
pub fn websocket_message_or_reconnect(message: Result<WsMessage, WsError>) -> (r: Result<
    Option<WsMessage>,
    WsError,
>)
    ensures
        r == match message {
            Ok(m) => Ok::<Option<WsMessage>, WsError>(Some(m)),
            Err(error) => if reconnect_error(error) {
                Ok(None)
            } else {
                Err(error)
            },
        },
{
    match message {
        Ok(m) => Ok(Some(m)),
        Err(error) => if is_expected_websocket_reconnect_error(&error) {
            Ok(None)
        } else {
            Err(error)
        },
    }
}

/// Whether a close frame says that our pong came too late for the server.
pub fn is_remote_ping_timeout_close(frame: &CloseFrame) -> (yes: bool)
    ensures
        yes == (text::lower(frame.reason@) == text::lower("Ping timeout"@)),
{
    text::same_ignoring_case(frame.reason.as_str(), "Ping timeout")
}

/// The line that reports how a websocket was closed.
pub open spec fn close_report(connection_id: Seq<char>, frame: Option<CloseFrame>) -> Seq<char> {
    match frame {
        Some(f) => {
            let line = connection_id + " websocket closed: code="@ + text::nat_text(f.code as nat)
                + " reason=\""@ + f.reason@ + "\""@;
            if text::lower(f.reason@) == text::lower("Ping timeout"@) {
                line + "; remote server did not receive our pong before its ping timeout"@
            } else {
                line
            }
        },
        None => connection_id + " websocket closed without a close frame"@,
    }
}

/// The line that reports how a websocket was closed.
pub fn websocket_close_report(connection_id: &str, frame: &Option<CloseFrame>) -> (line: String)
    ensures
        line@ == close_report(connection_id@, *frame),
{
    let mut line = connection_id.to_owned();
    match frame {
        Some(f) => {
            line.append(" websocket closed: code=");
            line.append(text::u64_text(f.code as u64).as_str());
            line.append(" reason=\"");
            line.append(f.reason.as_str());
            line.append("\"");
            if is_remote_ping_timeout_close(f) {
                line.append("; remote server did not receive our pong before its ping timeout");
            }
        },
        None => line.append(" websocket closed without a close frame"),
    }
    line
}

/// What is to be done about a message.
#[derive(Debug)]
pub enum MessageAction {
    /// The text is recorded, and counts.
    RecordText(String),
    /// The bytes are recorded, and count.
    RecordBinary(Vec<u8>),
    /// The queued answer to a ping is sent.
    FlushPong,
    /// Nothing.
    Ignore,
    /// The close is reported, and the feed reconnects.
    Reconnect(Option<CloseFrame>),
}

/// What is to be done about a message of a feed.
pub open spec fn action_for(message: WsMessage) -> MessageAction {
    match message {
        WsMessage::Text(contents) => MessageAction::RecordText(contents),
        WsMessage::Binary(bytes) => MessageAction::RecordBinary(bytes),
        WsMessage::Ping(_) => MessageAction::FlushPong,
        WsMessage::Pong(_) => MessageAction::Ignore,
        WsMessage::Frame => MessageAction::Ignore,
        WsMessage::Close(frame) => MessageAction::Reconnect(frame),
    }
}

/// Decides what is to be done about a message, and notes a pong.
pub fn handle_websocket_message(message: WsMessage, heartbeat: &mut HeartbeatState) -> (action:
    MessageAction)
    ensures
        action == action_for(message),
        final(heartbeat)@ == match message {
            WsMessage::Pong(payload) => old(heartbeat)@.ponged(payload@),
            _ => old(heartbeat)@,
        },
{
    match message {
        WsMessage::Text(contents) => MessageAction::RecordText(contents),
        WsMessage::Binary(bytes) => MessageAction::RecordBinary(bytes),
        WsMessage::Ping(_) => MessageAction::FlushPong,
        WsMessage::Pong(payload) => {
            heartbeat.observe_pong(payload.as_slice());
            MessageAction::Ignore
        },
        WsMessage::Frame => MessageAction::Ignore,
        WsMessage::Close(frame) => MessageAction::Reconnect(frame),
    }
}

/// The next step of a feed after an event.
#[derive(Debug)]
pub enum FeedTurn {
    /// Wait for the next event.
    Again,
    /// The connection is over.
    Finish(FeedRunStatus),
    /// Act on a message, then count it and go on.
    Act(MessageAction),
    /// Reading failed.
    Fail(WsError),
}

/// The next step after an event.
pub open spec fn turn_for(event: NextWebsocketEvent) -> FeedTurn {
    match event {
        NextWebsocketEvent::HeartbeatSent => FeedTurn::Again,
        NextWebsocketEvent::Shutdown => FeedTurn::Finish(FeedRunStatus::Complete),
        NextWebsocketEvent::Closed => FeedTurn::Finish(FeedRunStatus::Reconnect),
        NextWebsocketEvent::Message(Ok(message)) => FeedTurn::Act(action_for(message)),
        NextWebsocketEvent::Message(Err(error)) => if reconnect_error(error) {
            FeedTurn::Finish(FeedRunStatus::Reconnect)
        } else {
            FeedTurn::Fail(error)
        },
    }
}

/// Decides the next step of a feed after an event, and notes a pong.
pub fn feed_turn(event: NextWebsocketEvent, heartbeat: &mut HeartbeatState) -> (turn: FeedTurn)
    ensures
        turn == turn_for(event),
        final(heartbeat)@ == match event {
            NextWebsocketEvent::Message(Ok(WsMessage::Pong(payload))) => old(heartbeat)@.ponged(
                payload@,
            ),
            _ => old(heartbeat)@,
        },
{
    match event {
        NextWebsocketEvent::HeartbeatSent => FeedTurn::Again,
        NextWebsocketEvent::Shutdown => FeedTurn::Finish(FeedRunStatus::Complete),
        NextWebsocketEvent::Closed => FeedTurn::Finish(FeedRunStatus::Reconnect),
        NextWebsocketEvent::Message(message) => match websocket_message_or_reconnect(message) {
            Ok(Some(m)) => FeedTurn::Act(handle_websocket_message(m, heartbeat)),
            Ok(None) => FeedTurn::Finish(FeedRunStatus::Reconnect),
            Err(error) => FeedTurn::Fail(error),
        },
    }
}

/// The actions whose messages count toward the limit.
pub open spec fn is_recorded(action: MessageAction) -> bool {
    action is RecordText || action is RecordBinary
}

/// The channel under which a Deribit message is recorded.
pub open spec fn deribit_record_channel(action: MessageAction) -> Seq<char> {
    match action {
        MessageAction::RecordText(contents) => match wire::parsed_document(contents@) {
            Ok(message) => deribit::output_channel(deribit::message_channel(message)),
            Err(_) => "control"@,
        },
        _ => "control"@,
    }
}

/// The channel under which a Deribit message is recorded: a text by what it says, bytes under
/// `control`.
pub fn deribit_channel_for(action: &MessageAction) -> (channel: &'static str)
    ensures
        channel@ == deribit_record_channel(*action),
{
    match action {
        MessageAction::RecordText(contents) => deribit::deribit_output_channel(contents.as_str()),
        _ => "control",
    }
}

/// The limit on the number of messages is reached.
pub open spec fn limit_reached(max_messages: Option<usize>, total_messages: nat) -> bool {
    max_messages is Some && total_messages >= max_messages->Some_0
}

/// Whether the limit on the number of messages is reached.
pub fn message_limit_reached(max_messages: Option<usize>, total_messages: usize) -> (yes: bool)
    ensures
        yes == limit_reached(max_messages, total_messages as nat),
{
    match max_messages {
        Some(max) => total_messages >= max,
        None => false,
    }
}

/// The number of recorded messages after an action.
pub open spec fn total_after(action: MessageAction, total_messages: nat) -> nat {
    if is_recorded(action) {
        total_messages + 1
    } else {
        total_messages
    }
}

/// How a connection ends with an action, if it does.
pub open spec fn status_after(
    action: MessageAction,
    total_messages: nat,
    max_messages: Option<usize>,
) -> Option<FeedRunStatus> {
    if action is Reconnect {
        Some(FeedRunStatus::Reconnect)
    } else if limit_reached(max_messages, total_messages) {
        Some(FeedRunStatus::Complete)
    } else {
        None
    }
}

/// Ends a turn whose action was carried out: a recorded message is counted, a closed connection
/// ends with a new one, and the feed is complete once the limit is reached.
pub fn end_turn(
    action: &MessageAction,
    total_messages: &mut usize,
    max_messages: Option<usize>,
) -> (status: Option<FeedRunStatus>)
    requires
        is_recorded(*action) ==> *old(total_messages) < usize::MAX,
    ensures
        *final(total_messages) == total_after(*action, *old(total_messages) as nat),
        status == status_after(*action, *final(total_messages) as nat, max_messages),
{
    match action {
        MessageAction::Reconnect(_) => return Some(FeedRunStatus::Reconnect),
        MessageAction::RecordText(_) => {
            *total_messages = *total_messages + 1;
        },
        MessageAction::RecordBinary(_) => {
            *total_messages = *total_messages + 1;
        },
        MessageAction::FlushPong => {},
        MessageAction::Ignore => {},
    }
    if message_limit_reached(max_messages, *total_messages) {
        Some(FeedRunStatus::Complete)
    } else {
        None
    }
}

/// What follows when a connection is over.
#[derive(Clone, Copy, Debug, PartialEq, Eq, Structural)]
pub enum LoopStep {
    /// The feed is done.
    Stop,
    /// Wait that many seconds, then connect again.
    WaitSecs(u64),
}

/// Decides whether a feed connects again: not when it is complete and not once the limit is
/// reached; a failed connection (`None`) counts as one to be renewed.
pub fn after_feed_run(
    outcome: Option<FeedRunStatus>,
    total_messages: usize,
    max_messages: Option<usize>,
    reconnect_delay_secs: u64,
) -> (step: LoopStep)
    ensures
        step == if outcome == Some(FeedRunStatus::Complete) || limit_reached(
            max_messages,
            total_messages as nat,
        ) {
            LoopStep::Stop
        } else {
            LoopStep::WaitSecs(reconnect_delay_secs)
        },
{
    if let Some(status) = outcome {
        if status == FeedRunStatus::Complete {
            return LoopStep::Stop;
        }
    }
    if message_limit_reached(max_messages, total_messages) {
        return LoopStep::Stop;
    }
    LoopStep::WaitSecs(reconnect_delay_secs)
}

/// Whether a feed connects again after its wait ended with a change of the shutdown signal.
pub fn reconnects_after_signal(shutdown_closed: bool, shutdown_requested: bool) -> (yes: bool)
    ensures
        yes == (!shutdown_closed && !shutdown_requested),
{
    !shutdown_closed && !shutdown_requested
}

/// The number of recorded messages, and how a connection ends, after a series of actions of which
/// those behind its end are not carried out.
pub open spec fn connection_run(
    actions: Seq<MessageAction>,
    total_messages: nat,
    max_messages: Option<usize>,
) -> (nat, Option<FeedRunStatus>)
    decreases actions.len(),
{
    if actions.len() == 0 {
        (total_messages, None)
    } else {
        let total = total_after(actions[0], total_messages);
        let status = status_after(actions[0], total, max_messages);
        if status is Some {
            (total, status)
        } else {
            connection_run(actions.skip(1), total, max_messages)
        }
    }
}

/// A feed with a limit never records more messages than that, over any series of actions: a
/// connection that begins below the limit completes with exactly that many, or ends below it.
pub proof fn limits_are_kept(actions: Seq<MessageAction>, total_messages: nat, max: usize)
    requires
        total_messages < max,
    ensures
        ({
            let (total, status) = connection_run(actions, total_messages, Some(max));
            &&& total_messages <= total <= max
            &&& status == Some(FeedRunStatus::Complete) <==> total == max
        }),
    decreases actions.len(),
{
    if actions.len() > 0 {
        let total = total_after(actions[0], total_messages);
        if status_after(actions[0], total, Some(max)) is None {
            limits_are_kept(actions.skip(1), total, max);
        }
    }
}

/// A feed without a limit never completes by itself.
pub proof fn unlimited_feeds_go_on(actions: Seq<MessageAction>, total_messages: nat)
    ensures
        connection_run(actions, total_messages, None).1 != Some(FeedRunStatus::Complete),
    decreases actions.len(),
{
    if actions.len() > 0 {
        unlimited_feeds_go_on(actions.skip(1), total_after(actions[0], total_messages));
    }
}

} // verus!
