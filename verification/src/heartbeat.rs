//! Client pings on a websocket, and what a missing pong means.

use vstd::prelude::*;

use crate::text;
use crate::text::text_chars;

verus! {

/// Whether a ping must be answered before the next one.
#[derive(Clone, Copy, Debug, PartialEq, Eq, Structural)]
pub enum HeartbeatPolicy {
    Required,
    BestEffort,
}

/// The seconds between two pings; nothing where pings are switched off.
pub fn websocket_heartbeat_duration(heartbeat_secs: u64) -> (secs: Option<u64>)
    ensures
        secs == if heartbeat_secs > 0 {
            Some(heartbeat_secs)
        } else {
            None
        },
{
    if heartbeat_secs > 0 {
        Some(heartbeat_secs)
    } else {
        None
    }
}

/// The bytes of an ASCII text.
pub open spec fn ascii_bytes(s: Seq<char>) -> Seq<u8> {
    s.map_values(|c: char| c as u8)
}

/// The payload of the ping with a sequence number.
pub open spec fn ping_payload(sequence: u64) -> Seq<u8> {
    ascii_bytes("modl:"@ + text::hex_text(sequence as nat, 16))
}

proof fn lemma_hex_text(n: nat, width: nat)
    ensures
        text::hex_text(n, width).len() == width,
        forall|i: int| 0 <= i < width ==> '0' <= (#[trigger] text::hex_text(n, width)[i]) < '\u{80}',
    decreases width,
{
    if width > 0 {
        lemma_hex_text(n / 16, (width - 1) as nat);
    }
}

/// The payload of the ping with a sequence number: it fits into a control frame.
pub fn heartbeat_payload(sequence: u64) -> (payload: Vec<u8>)
    ensures
        payload@ == ping_payload(sequence),
        payload@.len() == 21,
{
    let mut label = "modl:".to_owned();
    let digits = text::u64_hex(sequence, 16);
    label.append(digits.as_str());
    proof {
        reveal_strlit("modl:");
        lemma_hex_text(sequence as nat, 16);
    }
    let chars = text_chars(label.as_str());
    let mut payload: Vec<u8> = Vec::new();
    let mut i: usize = 0;
    while i < chars.len()
        invariant
            i <= chars@.len(),
            payload@ == ascii_bytes(chars@.take(i as int)),
            forall|j: int| 0 <= j < chars@.len() ==> (#[trigger] chars@[j]) < '\u{80}',
        decreases chars@.len() - i,
    {
        payload.push(chars[i] as u8);
        assert(ascii_bytes(chars@.take(i + 1)) =~= ascii_bytes(chars@.take(i as int)).push(
            chars@[i as int] as u8,
        ));
        i = i + 1;
    }
    assert(chars@.take(i as int) =~= chars@);
    payload
}

/// Two numbers with the same last hexadecimal digits agree up to a multiple of that power.
proof fn lemma_hex_text_injective(a: nat, b: nat, width: nat, bound: nat)
    requires
        text::hex_text(a, width) == text::hex_text(b, width),
        bound == vstd::arithmetic::power::pow(16, width),
        a < bound,
        b < bound,
    ensures
        a == b,
    decreases width,
{
    vstd::arithmetic::power::lemma_pow0(16);
    if width > 0 {
        let less = (width - 1) as nat;
        vstd::arithmetic::power::lemma_pow_adds(16, less, 1);
        vstd::arithmetic::power::lemma_pow1(16);
        vstd::arithmetic::power::lemma_pow_positive(16, less);
        let ta = text::hex_text(a, width);
        let tb = text::hex_text(b, width);
        assert(ta.drop_last() =~= text::hex_text(a / 16, less));
        assert(tb.drop_last() =~= text::hex_text(b / 16, less));
        assert(ta.last() == tb.last());
        lemma_hex_text_injective(
            a / 16,
            b / 16,
            less,
            vstd::arithmetic::power::pow(16, less) as nat,
        );
    }
}

/// Pings with different sequence numbers have different payloads.
pub proof fn ping_payloads_are_different(a: u64, b: u64)
    requires
        ping_payload(a) == ping_payload(b),
    ensures
        a == b,
{
    let ta = text::hex_text(a as nat, 16);
    let tb = text::hex_text(b as nat, 16);
    lemma_hex_text(a as nat, 16);
    lemma_hex_text(b as nat, 16);
    reveal_strlit("modl:");
    assert forall|i: int| 0 <= i < 16 implies ta[i] == tb[i] by {
        assert('0' <= ta[i] < '\u{80}' && '0' <= tb[i] < '\u{80}');
        assert(ping_payload(a)[5 + i] == ta[i] as u8);
        assert(ping_payload(b)[5 + i] == tb[i] as u8);
    }
    assert(ta =~= tb);
    assert(vstd::arithmetic::power::pow(16, 16) == 0x1_0000_0000_0000_0000) by {
        reveal_with_fuel(vstd::arithmetic::power::pow, 17);
    }
    lemma_hex_text_injective(a as nat, b as nat, 16, 0x1_0000_0000_0000_0000);
}

/// What a heartbeat holds: whether pings are sent, the number of the last ping, and the payload
/// that a pong must bring back.
pub ghost struct Heartbeat {
    pub enabled: bool,
    pub sequence: u64,
    pub awaiting: Option<Seq<u8>>,
    pub interval_secs: u64,
    pub policy: HeartbeatPolicy,
}

impl Heartbeat {
    /// A new ping may be sent: the last one was answered, or need not be.
    pub open spec fn may_ping(self) -> bool {
        self.awaiting is None || self.policy == HeartbeatPolicy::BestEffort
    }

    /// The number of the next ping.
    pub open spec fn next_sequence(self) -> u64 {
        if self.sequence == u64::MAX {
            0
        } else {
            (self.sequence + 1) as u64
        }
    }

    /// The heartbeat before a new ping: what was awaited is given up.
    pub open spec fn cleared(self) -> Heartbeat {
        Heartbeat { awaiting: None, ..self }
    }

    /// The heartbeat whose next ping is about to be sent.
    pub open spec fn pinging(self) -> Heartbeat {
        Heartbeat { awaiting: None, sequence: self.next_sequence(), ..self }
    }

    /// The heartbeat behind a ping.
    pub open spec fn pinged(self, payload: Seq<u8>) -> Heartbeat {
        Heartbeat { awaiting: Some(payload), ..self }
    }

    /// The heartbeat behind a pong.
    pub open spec fn ponged(self, payload: Seq<u8>) -> Heartbeat {
        if self.awaiting == Some(payload) {
            Heartbeat { awaiting: None, ..self }
        } else {
            self
        }
    }

    /// One whole ping: the next number, its payload awaited.
    pub open spec fn after_ping(self) -> Heartbeat {
        self.pinging().pinged(ping_payload(self.next_sequence()))
    }
}

/// The heartbeat of a connection.
#[derive(Debug)]
pub struct HeartbeatState {
    pub enabled: bool,
    pub sequence: u64,
    pub awaiting_pong: Option<Vec<u8>>,
    pub interval_secs: u64,
    pub policy: HeartbeatPolicy,
}

impl View for HeartbeatState {
    type V = Heartbeat;

    open spec fn view(&self) -> Heartbeat {
        Heartbeat {
            enabled: self.enabled,
            sequence: self.sequence,
            awaiting: match self.awaiting_pong {
                Some(payload) => Some(payload@),
                None => None,
            },
            interval_secs: self.interval_secs,
            policy: self.policy,
        }
    }
}

/// What is reported where a ping was not answered in time.
pub open spec fn timeout_report(connection_id: Seq<char>, interval_secs: u64) -> Seq<char> {
    connection_id + " heartbeat pong timeout after "@ + text::nat_text(interval_secs as nat)
        + " seconds"@
}

impl HeartbeatState {
    /// The heartbeat of a new connection.
    pub fn new(interval_secs: u64, policy: HeartbeatPolicy) -> (state: HeartbeatState)
        ensures
            state@ == (Heartbeat {
                enabled: interval_secs > 0,
                sequence: 0,
                awaiting: None,
                interval_secs,
                policy,
            }),
    {
        HeartbeatState {
            enabled: websocket_heartbeat_duration(interval_secs).is_some(),
            sequence: 0,
            awaiting_pong: None,
            interval_secs,
            policy,
        }
    }

    /// Whether pings are sent.
    pub fn is_enabled(&self) -> (yes: bool)
        ensures
            yes == self@.enabled,
    {
        self.enabled
    }

    /// Gives up an awaited pong, or reports the timeout where the pong was required.
    pub fn clear_stale_pong_or_timeout(&mut self, connection_id: &str) -> (r: Result<(), String>)
        ensures
            r is Ok <==> old(self)@.may_ping(),
            r is Ok ==> final(self)@ == old(self)@.cleared(),
            r is Err ==> *final(self) == *old(self) && r->Err_0@ == timeout_report(
                connection_id@,
                old(self).interval_secs,
            ),
    {
        if self.awaiting_pong.is_none() {
            return Ok(());
        }
        match self.policy {
            HeartbeatPolicy::Required => {
                let mut report = connection_id.to_owned();
                report.append(" heartbeat pong timeout after ");
                report.append(text::u64_text(self.interval_secs).as_str());
                report.append(" seconds");
                Err(report)
            },
            HeartbeatPolicy::BestEffort => {
                self.awaiting_pong = None;
                Ok(())
            },
        }
    }

    /// The payload of the ping that is due, or why none is sent.
    pub fn begin_ping(&mut self, connection_id: &str) -> (r: Result<Vec<u8>, String>)
        ensures
            r is Ok <==> old(self)@.enabled && old(self)@.may_ping(),
            r is Ok ==> r->Ok_0@ == ping_payload(old(self)@.next_sequence()) && final(self)@ == old(
                self,
            )@.pinging(),
            r is Err ==> *final(self) == *old(self) && r->Err_0@ == if old(self)@.enabled {
                timeout_report(connection_id@, old(self).interval_secs)
            } else {
                "heartbeat tick requested while heartbeat is disabled"@
            },
    {
        if !self.enabled {
            return Err("heartbeat tick requested while heartbeat is disabled".to_owned());
        }
        match self.clear_stale_pong_or_timeout(connection_id) {
            Ok(()) => {},
            Err(report) => return Err(report),
        }
        self.sequence = self.sequence.wrapping_add(1);
        Ok(heartbeat_payload(self.sequence))
    }

    /// A ping with the payload was sent.
    pub fn ping_sent(&mut self, payload: Vec<u8>)
        ensures
            final(self)@ == old(self)@.pinged(payload@),
    {
        self.awaiting_pong = Some(payload);
    }

    /// A pong arrived: it answers the awaited ping if it brings back its payload.
    pub fn observe_pong(&mut self, payload: &[u8])
        ensures
            final(self)@ == old(self)@.ponged(payload@),
    {
        let answered = match &self.awaiting_pong {
            Some(expected) => same_bytes(expected, payload),
            None => false,
        };
        if answered {
            self.awaiting_pong = None;
        }
    }
}

fn same_bytes(left: &Vec<u8>, right: &[u8]) -> (same: bool)
    ensures
        same == (left@ == right@),
{
    if left.len() != right.len() {
        return false;
    }
    let mut i: usize = 0;
    while i < left.len()
        invariant
            i <= left@.len(),
            left@.len() == right@.len(),
            forall|j: int| 0 <= j < i ==> left@[j] == right@[j],
        decreases left@.len() - i,
    {
        if left[i] != right[i] {
            return false;
        }
        i = i + 1;
    }
    assert(left@ =~= right@);
    true
}

/// A ping that was answered never leads to a timeout.
pub proof fn answered_ping_allows_the_next(heartbeat: Heartbeat)
    ensures
        heartbeat.after_ping().ponged(ping_payload(heartbeat.next_sequence())).may_ping(),
{
}

/// A required ping that was not answered before the next one is due leads to a timeout, whatever
/// other pongs arrived.
pub proof fn unanswered_ping_times_out(heartbeat: Heartbeat, other: Seq<u8>)
    requires
        heartbeat.policy == HeartbeatPolicy::Required,
        other != ping_payload(heartbeat.next_sequence()),
    ensures
        !heartbeat.after_ping().ponged(other).may_ping(),
{
}

/// A pong that answers the last ping does not answer the one behind it.
pub proof fn late_pong_does_not_answer(heartbeat: Heartbeat)
    requires
        heartbeat.policy == HeartbeatPolicy::Required,
    ensures
        !heartbeat.after_ping().ponged(ping_payload(heartbeat.sequence)).may_ping(),
{
    if ping_payload(heartbeat.sequence) == ping_payload(heartbeat.next_sequence()) {
        ping_payloads_are_different(heartbeat.sequence, heartbeat.next_sequence());
    }
}

/// A best-effort heartbeat never times out.
pub proof fn best_effort_never_times_out(heartbeat: Heartbeat)
    requires
        heartbeat.policy == HeartbeatPolicy::BestEffort,
    ensures
        heartbeat.may_ping(),
        heartbeat.after_ping().may_ping(),
{
}

} // verus!
