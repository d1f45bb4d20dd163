//! Recorded messages: their envelopes, and the daily files that hold them.

use base64::Engine;
use vstd::prelude::*;

use crate::calendar;
use crate::calendar::CivilDate;
use crate::calendar::UtcTime;
use crate::heartbeat::HeartbeatPolicy;
use crate::json;
use crate::json::Json;
use crate::json::JsonTree;
use crate::paths;
use crate::paths::daily_stream_file_name;
use crate::paths::symbol_partition_name;
use crate::stream::Feed;
use crate::stream::FeedBehavior;
use crate::stream::FeedSpec;
use crate::text;

verus! {

/// The character of a base64 digit.
pub open spec fn base64_char(digit: int) -> char {
    if digit < 26 {
        ('A' as int + digit) as char
    } else if digit < 52 {
        ('a' as int + digit - 26) as char
    } else if digit < 62 {
        ('0' as int + digit - 52) as char
    } else if digit == 62 {
        '+'
    } else {
        '/'
    }
}

/// The base64 text of bytes: four digits for every three bytes, the last group filled up with `=`.
pub open spec fn base64_text(bytes: Seq<u8>) -> Seq<char>
    decreases bytes.len(),
{
    if bytes.len() == 0 {
        Seq::empty()
    } else if bytes.len() == 1 {
        let n = bytes[0] * 65536;
        seq![base64_char(n / 262144), base64_char(n / 4096 % 64), '=', '=']
    } else if bytes.len() == 2 {
        let n = bytes[0] * 65536 + bytes[1] * 256;
        seq![
            base64_char(n / 262144),
            base64_char(n / 4096 % 64),
            base64_char(n / 64 % 64),
            '=',
        ]
    } else {
        let n = bytes[0] * 65536 + bytes[1] * 256 + bytes[2];
        seq![
            base64_char(n / 262144),
            base64_char(n / 4096 % 64),
            base64_char(n / 64 % 64),
            base64_char(n % 64),
        ] + base64_text(bytes.subrange(3, bytes.len() as int))
    }
}

/// `STANDARD.encode` of the `base64` crate: the standard alphabet, with padding.
#[verifier::external_body]
fn encode_base64(bytes: &[u8]) -> (r: String)
    ensures
        r@ == base64_text(bytes@),
{
    base64::engine::general_purpose::STANDARD.encode(bytes)
}

/// The envelope of a recorded message. It holds the raw text, or the raw bytes as base64.
#[derive(Clone, Debug)]
pub struct RawWsEvent {
    pub received_at: String,
    pub received_mts: i64,
    pub exchange: String,
    pub symbol: String,
    pub channel: String,
    pub connection_id: String,
    pub payload_text: Option<String>,
    pub payload_base64: Option<String>,
}

impl RawWsEvent {
    /// The envelope names the feed and the instant.
    pub open spec fn envelops(self, feed: Feed, received_mts: i64) -> bool {
        &&& self.received_at@ == calendar::millis_text(received_mts as int)
        &&& self.received_mts == received_mts
        &&& self.exchange@ == feed.exchange
        &&& self.symbol@ == feed.symbol
        &&& self.channel@ == feed.channel
        &&& self.connection_id@ == feed.connection_id
    }
}

fn envelope(spec: &FeedSpec, received: &UtcTime) -> (event: RawWsEvent)
    ensures
        event.envelops(spec@, received.millis()),
        event.payload_text is None,
        event.payload_base64 is None,
{
    RawWsEvent {
        received_at: received.millis_text(),
        received_mts: received.timestamp_millis(),
        exchange: spec.exchange.to_owned(),
        symbol: spec.symbol.clone(),
        channel: spec.channel.to_owned(),
        connection_id: spec.connection_id.clone(),
        payload_text: None,
        payload_base64: None,
    }
}

/// The envelope of a text message: it holds the very text.
pub fn text_event(spec: &FeedSpec, received: &UtcTime, payload: &str) -> (event: RawWsEvent)
    ensures
        event.envelops(spec@, received.millis()),
        event.payload_text is Some && event.payload_text->Some_0@ == payload@,
        event.payload_base64 is None,
{
    let mut event = envelope(spec, received);
    event.payload_text = Some(payload.to_owned());
    event
}

/// The envelope of a binary message.
pub fn binary_event(spec: &FeedSpec, received: &UtcTime, payload: &[u8]) -> (event: RawWsEvent)
    ensures
        event.envelops(spec@, received.millis()),
        event.payload_text is None,
        event.payload_base64 is Some && event.payload_base64->Some_0@ == base64_text(payload@),
{
    let mut event = envelope(spec, received);
    event.payload_base64 = Some(encode_base64(payload));
    event
}

/// Where the files of a channel lie, and the day whose file is open.
#[derive(Debug)]
pub struct DailyCapture {
    pub exchange_name: String,
    pub symbol_name: String,
    pub channel_name: String,
    pub current_date: Option<CivilDate>,
}

/// What recording a message asks for, before the message itself is written.
#[derive(Debug)]
pub struct CaptureChange {
    /// The file that is open is finished.
    pub finish: bool,
    /// The file with this name is opened, to be appended to.
    pub open: Option<String>,
}

impl DailyCapture {
    /// The files are those of the exchange, the symbol and the channel.
    pub open spec fn made_for(
        self,
        exchange: Seq<char>,
        symbol: Seq<char>,
        channel: Seq<char>,
    ) -> bool {
        &&& self.exchange_name@ == paths::partition_name(exchange)
        &&& self.symbol_name@ == paths::partition_name(symbol)
        &&& self.channel_name@ == paths::partition_name(channel)
    }

    /// The directory of the files below the output root.
    pub open spec fn directory(self) -> Seq<Seq<char>> {
        seq![self.exchange_name@, self.symbol_name@, self.channel_name@]
    }

    /// The name of the file of a day.
    pub open spec fn file_name(self, date: CivilDate) -> Seq<char> {
        paths::raw_file_name(self.symbol_name@, self.channel_name@, date)
    }

    /// The path of the file of a day below the output root.
    pub open spec fn path(self, date: CivilDate) -> Seq<Seq<char>> {
        self.directory().push(self.file_name(date))
    }
}

/// The file that is opened for a message of a day: that of the day, unless it is open already.
pub open spec fn opened_file(
    capture: DailyCapture,
    current: Option<CivilDate>,
    date: CivilDate,
) -> Option<Seq<char>> {
    if current == Some(date) {
        None
    } else {
        Some(capture.file_name(date))
    }
}

impl DailyCapture {
    /// The files of a channel; exchange, symbol and channel must not be empty.
    pub fn create(exchange: &str, symbol: &str, channel: &str) -> (r: Result<DailyCapture, String>)
        ensures
            r is Ok <==> exchange@.len() > 0 && symbol@.len() > 0 && channel@.len() > 0,
            r is Err ==> r->Err_0@ == "symbol cannot be empty after path normalization"@,
            r is Ok ==> r->Ok_0.made_for(exchange@, symbol@, channel@)
                && r->Ok_0.current_date is None,
    {
        let exchange_name = match symbol_partition_name(exchange) {
            Ok(name) => name,
            Err(error) => return Err(error),
        };
        let symbol_name = match symbol_partition_name(symbol) {
            Ok(name) => name,
            Err(error) => return Err(error),
        };
        let channel_name = match symbol_partition_name(channel) {
            Ok(name) => name,
            Err(error) => return Err(error),
        };
        Ok(DailyCapture { exchange_name, symbol_name, channel_name, current_date: None })
    }

    /// The directory of the files below the output root: exchange, symbol and channel.
    pub fn partition_dir(&self) -> (segments: Vec<String>)
        ensures
            text::texts(segments@) == self.directory(),
    {
        let segments: Vec<String> = vec![
            self.exchange_name.clone(),
            self.symbol_name.clone(),
            self.channel_name.clone(),
        ];
        assert(text::texts(segments@) =~= seq![
            self.exchange_name@,
            self.symbol_name@,
            self.channel_name@,
        ]);
        segments
    }

    /// A message of a day is recorded: where another day's file is open it is finished, and the
    /// file of the day is opened.
    pub fn write_event(&mut self, date: CivilDate) -> (change: CaptureChange)
        requires
            date.valid(),
        ensures
            final(self).exchange_name == old(self).exchange_name,
            final(self).symbol_name == old(self).symbol_name,
            final(self).channel_name == old(self).channel_name,
            final(self).current_date == Some(date),
            change.finish == (old(self).current_date is Some && old(self).current_date != Some(
                date,
            )),
            json::opt_text(change.open) == opened_file(*old(self), old(self).current_date, date),
    {
        let same_day = match self.current_date {
            Some(current) => current == date,
            None => false,
        };
        if same_day {
            return CaptureChange { finish: false, open: None };
        }
        let finish = self.current_date.is_some();
        self.current_date = Some(date);
        let name = daily_stream_file_name(
            self.symbol_name.as_str(),
            self.channel_name.as_str(),
            date,
        );
        CaptureChange { finish, open: Some(name) }
    }

    /// The file that is open is finished: none is open behind it.
    pub fn close(&mut self) -> (finish: bool)
        ensures
            finish == (old(self).current_date is Some),
            final(self).current_date is None,
            final(self).exchange_name == old(self).exchange_name,
            final(self).symbol_name == old(self).symbol_name,
            final(self).channel_name == old(self).channel_name,
    {
        let finish = self.current_date.is_some();
        self.current_date = None;
        finish
    }
}

/// A feed of recorded messages only: what its envelopes name.
pub open spec fn output_feed(
    exchange: Seq<char>,
    symbol: Seq<char>,
    channel: Seq<char>,
    connection_id: Seq<char>,
) -> Feed {
    Feed {
        exchange,
        symbol,
        channel,
        connection_id,
        url: ""@,
        subscribe_messages: seq![],
        behavior: FeedBehavior::Static,
        heartbeat_policy: HeartbeatPolicy::Required,
    }
}

fn output_spec(
    exchange: &'static str,
    symbol: &str,
    channel: &'static str,
    connection_id: &str,
) -> (spec: FeedSpec)
    ensures
        spec@ == output_feed(exchange@, symbol@, channel@, connection_id@),
{
    let subscribe_messages: Vec<Json> = Vec::new();
    assert(subscribe_messages@.map_values(|j: Json| j@) =~= Seq::<JsonTree>::empty());
    FeedSpec {
        exchange,
        symbol: symbol.to_owned(),
        channel,
        connection_id: connection_id.to_owned(),
        url: "".to_owned(),
        subscribe_messages,
        behavior: FeedBehavior::Static,
        heartbeat_policy: HeartbeatPolicy::Required,
    }
}

/// The feed under which Deribit messages of an output channel are recorded.
pub fn deribit_output_spec(channel: &'static str) -> (spec: FeedSpec)
    ensures
        spec@ == output_feed("deribit"@, "BTC"@, channel@, "deribit-BTC-instruments"@),
{
    output_spec("deribit", "BTC", channel, "deribit-BTC-instruments")
}

/// The feed under which Hyperliquid messages of an output channel are recorded.
pub fn hyperliquid_output_spec(symbol: &str, channel: &'static str) -> (spec: FeedSpec)
    ensures
        spec@ == output_feed("hyperliquid"@, symbol@, channel@, "hyperliquid-spot-btc"@),
{
    output_spec("hyperliquid", symbol, channel, "hyperliquid-spot-btc")
}

/// The normalizer looks for a message where the recorder put it: below the directory of the symbol
/// both use the same channel directory and the same file name, and a partition name that is read
/// from disk is not changed any more.
pub proof fn recorded_files_are_found(symbol: Seq<char>, channel: Seq<char>, date: CivilDate)
    ensures
        paths::raw_file_name(
            paths::partition_name(paths::partition_name(symbol)),
            paths::partition_name(paths::partition_name(channel)),
            date,
        ) == paths::raw_file_name(
            paths::partition_name(symbol),
            paths::partition_name(channel),
            date,
        ),
{
    paths::partition_names_are_stable(symbol);
    paths::partition_names_are_stable(channel);
}

/// The base64 digit of a character.
pub open spec fn base64_digit(c: char) -> int {
    if 'A' <= c <= 'Z' {
        c as int - 'A' as int
    } else if 'a' <= c <= 'z' {
        c as int - 'a' as int + 26
    } else if '0' <= c <= '9' {
        c as int - '0' as int + 52
    } else if c == '+' {
        62
    } else {
        63
    }
}

/// The bytes that a base64 text stands for, group by group.
pub open spec fn base64_bytes(encoded: Seq<char>) -> Seq<u8>
    decreases encoded.len(),
{
    if encoded.len() < 4 {
        Seq::empty()
    } else {
        let a = base64_digit(encoded[0]);
        let b = base64_digit(encoded[1]);
        let c = base64_digit(encoded[2]);
        let d = base64_digit(encoded[3]);
        let first = (a * 4 + b / 16) as u8;
        let second = (b % 16 * 16 + c / 4) as u8;
        let third = (c % 4 * 64 + d) as u8;
        if encoded[2] == '=' {
            seq![first]
        } else if encoded[3] == '=' {
            seq![first, second]
        } else {
            seq![first, second, third] + base64_bytes(encoded.skip(4))
        }
    }
}

proof fn lemma_base64_digit(digit: int)
    requires
        0 <= digit < 64,
    ensures
        base64_digit(base64_char(digit)) == digit,
        base64_char(digit) != '=',
{
}

/// The four digits of three bytes, and how the bytes follow from them.
proof fn lemma_base64_group(x: int, y: int, z: int)
    requires
        0 <= x < 256,
        0 <= y < 256,
        0 <= z < 256,
    ensures
        ({
            let n = x * 65536 + y * 256 + z;
            let a = n / 262144;
            let b = n / 4096 % 64;
            let c = n / 64 % 64;
            let d = n % 64;
            &&& 0 <= a < 64 && 0 <= b < 64 && 0 <= c < 64 && 0 <= d < 64
            &&& a * 4 + b / 16 == x
            &&& b % 16 * 16 + c / 4 == y
            &&& c % 4 * 64 + d == z
        }),
{
    let n = x * 65536 + y * 256 + z;
    assert(n / 262144 == x / 4);
    assert(n / 4096 == x * 16 + y / 16);
    assert(n / 64 == x * 1024 + y * 4 + z / 64);
    assert(n % 64 == z % 64);
    assert(n / 4096 % 64 == x % 4 * 16 + y / 16);
    assert(n / 64 % 64 == y % 16 * 4 + z / 64);
}

/// No byte of a recorded binary message is lost: its base64 text stands for just the bytes that
/// were received.
pub proof fn recorded_bytes_are_read_back(bytes: Seq<u8>)
    ensures
        base64_bytes(base64_text(bytes)) == bytes,
    decreases bytes.len(),
{
    let encoded = base64_text(bytes);
    if bytes.len() > 0 {
        let x = bytes[0] as int;
        let y = if bytes.len() > 1 {
            bytes[1] as int
        } else {
            0
        };
        let z = if bytes.len() > 2 {
            bytes[2] as int
        } else {
            0
        };
        let n = x * 65536 + y * 256 + z;
        lemma_base64_group(x, y, z);
        lemma_base64_digit(n / 262144);
        lemma_base64_digit(n / 4096 % 64);
        lemma_base64_digit(n / 64 % 64);
        lemma_base64_digit(n % 64);
        assert(encoded[0] == base64_char(n / 262144));
        assert(encoded[1] == base64_char(n / 4096 % 64));
        if bytes.len() > 2 {
            let rest = bytes.subrange(3, bytes.len() as int);
            recorded_bytes_are_read_back(rest);
            assert(encoded.skip(4) =~= base64_text(rest));
            assert(base64_bytes(encoded) == seq![bytes[0], bytes[1], bytes[2]] + rest);
            assert(bytes =~= seq![bytes[0], bytes[1], bytes[2]] + rest);
        } else {
            assert(base64_bytes(encoded) =~= bytes);
        }
    } else {
        assert(base64_bytes(encoded) =~= bytes);
    }
}

/// A message and the UTC day on which it was received.
pub ghost struct DatedEvent {
    pub date: CivilDate,
    pub event: RawWsEvent,
}

/// The raw files by their paths, each with the events of its lines, and the one that a recorder has
/// open.
pub ghost struct RawFiles {
    pub current: Option<CivilDate>,
    pub open: Option<Seq<Seq<char>>>,
    pub lines: Map<Seq<Seq<char>>, Seq<RawWsEvent>>,
}

impl RawFiles {
    /// The events of the lines of a file; a file that does not exist has none.
    pub open spec fn events(self, path: Seq<Seq<char>>) -> Seq<RawWsEvent> {
        if self.lines.contains_key(path) {
            self.lines[path]
        } else {
            Seq::empty()
        }
    }

    /// The files behind a recorder that was closed.
    pub open spec fn closed(self) -> RawFiles {
        RawFiles { current: None, open: None, ..self }
    }

    /// The files after a message: where a file is to be opened it is opened at its end, and the
    /// event becomes a line at the end of the file that is open then.
    pub open spec fn written(self, capture: DailyCapture, message: DatedEvent) -> RawFiles {
        let open = match opened_file(capture, self.current, message.date) {
            Some(name) => Some(capture.directory().push(name)),
            None => self.open,
        };
        RawFiles {
            current: Some(message.date),
            open,
            lines: self.lines.insert(
                open->Some_0,
                self.events(open->Some_0).push(message.event),
            ),
        }
    }

    /// The files after a series of messages.
    pub open spec fn recorded(self, capture: DailyCapture, series: Seq<DatedEvent>) -> RawFiles
        decreases series.len(),
    {
        if series.len() == 0 {
            self
        } else {
            self.recorded(capture, series.drop_last()).written(capture, series.last())
        }
    }
}

/// The events of a series whose day has its file at a path, in their order.
pub open spec fn events_of_file(
    capture: DailyCapture,
    series: Seq<DatedEvent>,
    path: Seq<Seq<char>>,
) -> Seq<RawWsEvent>
    decreases series.len(),
{
    if series.len() == 0 {
        Seq::empty()
    } else {
        let front = events_of_file(capture, series.drop_last(), path);
        if capture.path(series.last().date) == path {
            front.push(series.last().event)
        } else {
            front
        }
    }
}

/// Whoever records the same exchange, symbol and channel uses the same file on the same day.
pub proof fn recorders_share_their_files(
    a: DailyCapture,
    b: DailyCapture,
    exchange: Seq<char>,
    symbol: Seq<char>,
    channel: Seq<char>,
    date: CivilDate,
)
    requires
        a.made_for(exchange, symbol, channel),
        b.made_for(exchange, symbol, channel),
    ensures
        a.directory() == b.directory(),
        a.file_name(date) == b.file_name(date),
        a.path(date) == b.path(date),
{
    assert(a.directory() =~= b.directory());
}

/// Every message goes to the end of its own day's file: over any series of days a recorder adds to
/// each file just the events of that file's day, in their order, and keeps what the file held.
pub proof fn messages_go_to_their_days_files(
    capture: DailyCapture,
    files: RawFiles,
    series: Seq<DatedEvent>,
    path: Seq<Seq<char>>,
)
    requires
        files.current is None,
    ensures
        files.recorded(capture, series).events(path) == files.events(path) + events_of_file(
            capture,
            series,
            path,
        ),
        series.len() > 0 ==> files.recorded(capture, series).open == Some(
            capture.path(series.last().date),
        ) && files.recorded(capture, series).current == Some(series.last().date),
    decreases series.len(),
{
    if series.len() == 0 {
        assert(files.events(path) + Seq::<RawWsEvent>::empty() =~= files.events(path));
    } else {
        let front = series.drop_last();
        let last = series.last();
        let before = files.recorded(capture, front);
        messages_go_to_their_days_files(capture, files, front, path);
        let after = before.written(capture, last);
        assert(after.open == Some(capture.path(last.date)));
        let own = events_of_file(capture, front, path);
        if capture.path(last.date) == path {
            assert((files.events(path) + own).push(last.event) =~= files.events(path) + own.push(
                last.event,
            ));
        }
    }
}

proof fn lemma_events_of_file(
    capture: DailyCapture,
    first: Seq<DatedEvent>,
    second: Seq<DatedEvent>,
    path: Seq<Seq<char>>,
)
    ensures
        events_of_file(capture, first + second, path) == events_of_file(capture, first, path)
            + events_of_file(capture, second, path),
    decreases second.len(),
{
    if second.len() == 0 {
        assert(first + second =~= first);
    } else {
        assert((first + second).drop_last() =~= first + second.drop_last());
        lemma_events_of_file(capture, first, second.drop_last(), path);
    }
    assert(events_of_file(capture, first + second, path) =~= events_of_file(capture, first, path)
        + events_of_file(capture, second, path));
}

/// Raw files that are opened at their ends are only appended to: where one recorder is closed and
/// another one follows for the same exchange, symbol and channel, a file holds what it held before,
/// then the events of its day from the first recorder, then those from the second, as if one
/// recorder had written them all.
pub proof fn raw_files_are_only_appended_to(
    a: DailyCapture,
    b: DailyCapture,
    exchange: Seq<char>,
    symbol: Seq<char>,
    channel: Seq<char>,
    files: RawFiles,
    first: Seq<DatedEvent>,
    second: Seq<DatedEvent>,
    path: Seq<Seq<char>>,
)
    requires
        a.made_for(exchange, symbol, channel),
        b.made_for(exchange, symbol, channel),
        files.current is None,
    ensures
        files.recorded(a, first).closed().recorded(b, second).events(path) == files.events(path)
            + events_of_file(a, first, path) + events_of_file(a, second, path),
        files.recorded(a, first).closed().recorded(b, second).events(path) == files.recorded(
            a,
            first + second,
        ).events(path),
{
    let between = files.recorded(a, first).closed();
    messages_go_to_their_days_files(a, files, first, path);
    messages_go_to_their_days_files(b, between, second, path);
    messages_go_to_their_days_files(a, files, first + second, path);
    lemma_events_of_file(a, first, second, path);
    lemma_same_events(a, b, exchange, symbol, channel, second, path);
    let held = files.events(path);
    let one = events_of_file(a, first, path);
    let two = events_of_file(a, second, path);
    assert(held + (one + two) =~= held + one + two);
}

proof fn lemma_same_events(
    a: DailyCapture,
    b: DailyCapture,
    exchange: Seq<char>,
    symbol: Seq<char>,
    channel: Seq<char>,
    series: Seq<DatedEvent>,
    path: Seq<Seq<char>>,
)
    requires
        a.made_for(exchange, symbol, channel),
        b.made_for(exchange, symbol, channel),
    ensures
        events_of_file(a, series, path) == events_of_file(b, series, path),
    decreases series.len(),
{
    if series.len() > 0 {
        lemma_same_events(a, b, exchange, symbol, channel, series.drop_last(), path);
        recorders_share_their_files(a, b, exchange, symbol, channel, series.last().date);
    }
}

proof fn lemma_two_digits(m: nat, n: nat)
    requires
        m < 100,
        n < 100,
    ensures
        text::padded(m, 2).len() == 2,
        text::padded(m, 2) == text::padded(n, 2) ==> m == n,
{
    reveal_with_fuel(text::nat_text, 3);
    assert(text::padded(m, 2)[0] == text::digit_char((m / 10) as int));
    assert(text::padded(m, 2)[1] == text::digit_char((m % 10) as int));
    assert(text::padded(n, 2)[0] == text::digit_char((n / 10) as int));
    assert(text::padded(n, 2)[1] == text::digit_char((n % 10) as int));
}

/// Each day of a century has a file of its own. (File names hold two digits of the year.)
pub proof fn days_have_files_of_their_own(capture: DailyCapture, a: CivilDate, b: CivilDate)
    requires
        a.valid(),
        b.valid(),
        a.year as int / 100 == b.year as int / 100,
    ensures
        capture.path(a) == capture.path(b) <==> a == b,
{
    if capture.path(a) == capture.path(b) {
        assert(capture.path(a).last() == capture.path(b).last());
        let ya = (a.year as int % 100) as nat;
        let yb = (b.year as int % 100) as nat;
        lemma_two_digits(ya, yb);
        lemma_two_digits(yb, ya);
        lemma_two_digits(a.month as nat, b.month as nat);
        lemma_two_digits(b.month as nat, a.month as nat);
        lemma_two_digits(a.day as nat, b.day as nat);
        lemma_two_digits(b.day as nat, a.day as nat);
        reveal_strlit("-");
        reveal_strlit("_");
        let head = capture.symbol_name@ + "_"@ + capture.channel_name@ + "_"@;
        let from = head.len() as int;
        let name_a = capture.file_name(a);
        let name_b = capture.file_name(b);
        assert(a.label().len() == 8 && b.label().len() == 8);
        assert(name_a.subrange(from, from + 8) =~= a.label());
        assert(name_b.subrange(from, from + 8) =~= b.label());
        assert(a.label() == b.label());
        assert(a.label().subrange(0, 2) =~= text::padded(ya, 2));
        assert(b.label().subrange(0, 2) =~= text::padded(yb, 2));
        assert(a.label().subrange(3, 5) =~= text::padded(a.month as nat, 2));
        assert(b.label().subrange(3, 5) =~= text::padded(b.month as nat, 2));
        assert(a.label().subrange(6, 8) =~= text::padded(a.day as nat, 2));
        assert(b.label().subrange(6, 8) =~= text::padded(b.day as nat, 2));
    }
}

} // verus!
