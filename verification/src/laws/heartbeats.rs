//! Heartbeats: a connection that answers its pings lives, and one that does not is given up.

use vstd::prelude::*;

use crate::heartbeat;
use crate::heartbeat::HeartbeatPolicy;
use crate::heartbeat::HeartbeatState;
use crate::heartbeat::heartbeat_payload;
use crate::heartbeat::websocket_heartbeat_duration;

verus! {

/// A ping that is answered by its own payload allows the next one; a required ping that was answered
/// by any other payload, or not at all, leads to an error at the next one. A best-effort ping never
/// does.
pub proof fn answered_pings_keep_a_connection(
    first: &mut HeartbeatState,
    sent: &mut HeartbeatState,
    answered: &mut HeartbeatState,
    second: &mut HeartbeatState,
    connection_id: &str,
    ping: Result<Vec<u8>, String>,
    pong: &[u8],
    next: Result<Vec<u8>, String>,
)
    requires
        call_ensures(HeartbeatState::begin_ping, (first, connection_id), ping),
        ping is Ok,
        *old(sent) == *final(first),
        call_ensures(HeartbeatState::ping_sent, (sent, ping->Ok_0), ()),
        *old(answered) == *final(sent),
        call_ensures(HeartbeatState::observe_pong, (answered, pong), ()),
        *old(second) == *final(answered),
        call_ensures(HeartbeatState::begin_ping, (second, connection_id), next),
    ensures
        pong@ == ping->Ok_0@ ==> next is Ok,
        pong@ != ping->Ok_0@ ==> (next is Ok <==> old(first)@.policy
            == HeartbeatPolicy::BestEffort),
        next is Ok ==> next->Ok_0@ != ping->Ok_0@,
{
    if next is Ok && next->Ok_0@ == ping->Ok_0@ {
        heartbeat::ping_payloads_are_different(
            old(first)@.next_sequence(),
            old(second)@.next_sequence(),
        );
    }
}

/// A new connection may ping at once where pings are switched on, and never where they are off.
pub proof fn pings_can_be_switched_off(
    interval_secs: u64,
    policy: HeartbeatPolicy,
    state: HeartbeatState,
    used: &mut HeartbeatState,
    connection_id: &str,
    ping: Result<Vec<u8>, String>,
    secs: Option<u64>,
    enabled: bool,
)
    requires
        call_ensures(HeartbeatState::new, (interval_secs, policy), state),
        call_ensures(HeartbeatState::is_enabled, (&state,), enabled),
        *old(used) == state,
        call_ensures(HeartbeatState::begin_ping, (used, connection_id), ping),
        call_ensures(websocket_heartbeat_duration, (interval_secs,), secs),
    ensures
        ping is Ok <==> interval_secs > 0,
        enabled <==> interval_secs > 0,
        secs is Some <==> interval_secs > 0,
        secs is Some ==> secs->Some_0 == interval_secs,
{
}

/// The payload of a ping fits into a control frame, and no two pings have the same one.
pub proof fn payloads_tell_pings_apart(a: u64, b: u64, one: Vec<u8>, other: Vec<u8>)
    requires
        call_ensures(heartbeat_payload, (a,), one),
        call_ensures(heartbeat_payload, (b,), other),
    ensures
        one@.len() <= 125,
        one@ == other@ <==> a == b,
{
    if one@ == other@ {
        heartbeat::ping_payloads_are_different(a, b);
    }
}

/// A timeout is an error that names the connection, and changes nothing; where the pong need not
/// come, it is given up.
pub proof fn timeouts_name_their_connection(
    state: &mut HeartbeatState,
    connection_id: &str,
    r: Result<(), String>,
)
    requires
        call_ensures(HeartbeatState::clear_stale_pong_or_timeout, (state, connection_id), r),
    ensures
        r is Err <==> old(state).awaiting_pong is Some && old(state).policy
            == HeartbeatPolicy::Required,
        r is Err ==> connection_id@.is_prefix_of(r->Err_0@) && *final(state) == *old(state),
        r is Ok ==> final(state).awaiting_pong is None && final(state).sequence == old(
            state,
        ).sequence && final(state).enabled == old(state).enabled && final(state).policy == old(
            state,
        ).policy,
{
}

} // verus!
