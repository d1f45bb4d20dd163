//! Hyperliquid: which spot market is followed, and where its messages are recorded.

use vstd::prelude::*;

use crate::feed;
use crate::feed::FeedRunStatus;
use crate::feed::message_limit_reached;
use crate::json;
use crate::json::JsonTree;
use crate::text;
use crate::text::same_text;
use crate::wire;

verus! {

/// A spot market.
#[derive(Clone, Debug)]
pub struct SpotMarket {
    pub base: String,
    pub quote: String,
    pub name: String,
    pub symbol: String,
}

/// What is subscribed to, and under which symbol it is recorded.
#[derive(Clone, Debug)]
pub struct HyperliquidSpotTarget {
    pub subscription_coin: String,
    pub output_symbol: String,
}

/// The ways in which a market can be the BTC spot market, best first.
#[derive(Clone, Copy, Debug, PartialEq, Eq, Structural)]
enum MarketMatch {
    Tokens,
    Symbol,
    Part,
}

/// The tokens of the market are those of wrapped BTC against USDC.
pub open spec fn has_btc_tokens(market: SpotMarket) -> bool {
    market.base@ == "UBTC"@ && market.quote@ == "USDC"@
}

/// The market's symbol is `BTC/USDC`, in any case.
pub open spec fn has_btc_symbol(market: SpotMarket) -> bool {
    text::lower(market.symbol@) == text::lower("BTC/USDC"@)
}

/// The market's symbol has `BTC/USDC` in it.
pub open spec fn mentions_btc(market: SpotMarket) -> bool {
    text::contains(market.symbol@, "BTC/USDC"@)
}

/// The market at `i` is the first for which `wanted` holds.
pub open spec fn is_first(
    markets: Seq<SpotMarket>,
    i: int,
    wanted: spec_fn(SpotMarket) -> bool,
) -> bool {
    &&& 0 <= i < markets.len()
    &&& wanted(markets[i])
    &&& forall|j: int| 0 <= j < i ==> !wanted(#[trigger] markets[j])
}

/// No market is wanted.
pub open spec fn none_is(markets: Seq<SpotMarket>, wanted: spec_fn(SpotMarket) -> bool) -> bool {
    forall|j: int| 0 <= j < markets.len() ==> !wanted(#[trigger] markets[j])
}

/// The market at `i` is the BTC spot market: the first with the tokens; where there is none, the
/// first with the symbol; where there is none either, the first that mentions it.
pub open spec fn is_btc_market(markets: Seq<SpotMarket>, i: int) -> bool {
    let tokens = |m: SpotMarket| has_btc_tokens(m);
    let symbol = |m: SpotMarket| has_btc_symbol(m);
    let part = |m: SpotMarket| mentions_btc(m);
    ||| is_first(markets, i, tokens)
    ||| none_is(markets, tokens) && is_first(markets, i, symbol)
    ||| none_is(markets, tokens) && none_is(markets, symbol) && is_first(markets, i, part)
}

/// No market is the BTC spot market.
pub open spec fn no_btc_market(markets: Seq<SpotMarket>) -> bool {
    &&& none_is(markets, |m: SpotMarket| has_btc_tokens(m))
    &&& none_is(markets, |m: SpotMarket| has_btc_symbol(m))
    &&& none_is(markets, |m: SpotMarket| mentions_btc(m))
}

fn market_matches(market: &SpotMarket, how: MarketMatch) -> (yes: bool)
    ensures
        yes == matches_how(*market, how),
{
    match how {
        MarketMatch::Tokens => same_text(market.base.as_str(), "UBTC") && same_text(
            market.quote.as_str(),
            "USDC",
        ),
        MarketMatch::Symbol => text::same_ignoring_case(market.symbol.as_str(), "BTC/USDC"),
        MarketMatch::Part => text::contains_text(market.symbol.as_str(), "BTC/USDC"),
    }
}

spec fn matches_how(market: SpotMarket, how: MarketMatch) -> bool {
    match how {
        MarketMatch::Tokens => has_btc_tokens(market),
        MarketMatch::Symbol => has_btc_symbol(market),
        MarketMatch::Part => mentions_btc(market),
    }
}

fn first_market(markets: &Vec<SpotMarket>, how: MarketMatch) -> (r: Option<usize>)
    ensures
        match r {
            Some(i) => i < markets@.len() && matches_how(markets@[i as int], how) && (forall|j: int|
                0 <= j < i ==> !matches_how(#[trigger] markets@[j], how)),
            None => forall|j: int|
                0 <= j < markets@.len() ==> !matches_how(#[trigger] markets@[j], how),
        },
{
    let mut i: usize = 0;
    while i < markets.len()
        invariant
            i <= markets@.len(),
            forall|j: int| 0 <= j < i ==> !matches_how(#[trigger] markets@[j], how),
        decreases markets@.len() - i,
    {
        if market_matches(&markets[i], how) {
            return Some(i);
        }
        i = i + 1;
    }
    None
}

/// The target that the arguments name; nothing where the market is to be looked up.
pub fn configured_hyperliquid_target(coin: &Option<String>) -> (target: Option<
    HyperliquidSpotTarget,
>)
    ensures
        match coin {
            Some(c) => {
                &&& target is Some
                &&& target->Some_0.subscription_coin@ == c@
                &&& target->Some_0.output_symbol@ == c@
            },
            None => target is None,
        },
{
    match coin {
        Some(c) => Some(
            HyperliquidSpotTarget { subscription_coin: c.clone(), output_symbol: c.clone() },
        ),
        None => None,
    }
}

/// The BTC spot market among the markets of the exchange.
pub fn resolve_hyperliquid_spot_target(markets: &Vec<SpotMarket>) -> (r: Result<
    HyperliquidSpotTarget,
    String,
>)
    ensures
        match r {
            Ok(target) => exists|i: int| #[trigger]
                is_btc_market(markets@, i) && target.subscription_coin@ == markets@[i].name@
                    && target.output_symbol@ == markets@[i].symbol@,
            Err(error) => no_btc_market(markets@) && error@
                == "failed to resolve Hyperliquid BTC spot market"@,
        },
{
    let found = match first_market(markets, MarketMatch::Tokens) {
        Some(i) => Some(i),
        None => match first_market(markets, MarketMatch::Symbol) {
            Some(i) => Some(i),
            None => first_market(markets, MarketMatch::Part),
        },
    };
    match found {
        Some(i) => {
            assert(is_btc_market(markets@, i as int));
            Ok(
                HyperliquidSpotTarget {
                    subscription_coin: markets[i].name.clone(),
                    output_symbol: markets[i].symbol.clone(),
                },
            )
        },
        None => Err("failed to resolve Hyperliquid BTC spot market".to_owned()),
    }
}

/// The kinds of messages that are told apart.
#[derive(Clone, Copy, Debug, PartialEq, Eq, Structural)]
pub enum HyperliquidIncoming {
    Trades,
    L2Book,
    Other,
}

/// The output channel of a kind of messages.
pub open spec fn incoming_channel(message: HyperliquidIncoming) -> Seq<char> {
    match message {
        HyperliquidIncoming::Trades => "trades"@,
        HyperliquidIncoming::L2Book => "book"@,
        HyperliquidIncoming::Other => "control"@,
    }
}

/// The output channel of a message.
pub fn hyperliquid_output_channel(message: &HyperliquidIncoming) -> (channel: &'static str)
    ensures
        channel@ == incoming_channel(*message),
{
    match message {
        HyperliquidIncoming::Trades => "trades",
        HyperliquidIncoming::L2Book => "book",
        HyperliquidIncoming::Other => "control",
    }
}

/// What the connection reports: that it is up or down, or a message with its document.
#[derive(Clone, Debug)]
pub enum HyperliquidEvent {
    Connected,
    Disconnected,
    Message(HyperliquidIncoming, String),
}

/// Where an event is recorded, and with which text.
pub open spec fn event_record(event: HyperliquidEvent) -> (Seq<char>, Seq<char>) {
    match event {
        HyperliquidEvent::Connected => (
            "control"@,
            wire::written_document(
                JsonTree::Object(map!["event"@ => JsonTree::Text("connected"@)]),
            ),
        ),
        HyperliquidEvent::Disconnected => (
            "control"@,
            wire::written_document(
                JsonTree::Object(map!["event"@ => JsonTree::Text("disconnected"@)]),
            ),
        ),
        HyperliquidEvent::Message(kind, document) => (incoming_channel(kind), document@),
    }
}

/// Decides where an event is recorded, and with which text: a message with its own document, a
/// change of the connection with a short one.
pub fn handle_hyperliquid_event(event: HyperliquidEvent) -> (record: (&'static str, String))
    ensures
        (record.0@, record.1@) == event_record(event),
{
    match event {
        HyperliquidEvent::Connected => {
            let report = json::object_of("event", json::text_value("connected"));
            ("control", wire::json_document(&report))
        },
        HyperliquidEvent::Disconnected => {
            let report = json::object_of("event", json::text_value("disconnected"));
            ("control", wire::json_document(&report))
        },
        HyperliquidEvent::Message(kind, document) => {
            (hyperliquid_output_channel(&kind), document)
        },
    }
}

/// What a Hyperliquid feed waits for.
#[derive(Clone, Debug)]
pub enum NextHyperliquidEvent {
    /// The shutdown signal changed: whether nobody can request a shutdown any more, and whether one
    /// is requested.
    Signal { closed: bool, requested: bool },
    /// The stream of events is over.
    Ended,
    /// The connection reports something.
    Event(HyperliquidEvent),
}

/// The next step of a Hyperliquid feed.
#[derive(Clone, Debug)]
pub enum HyperliquidTurn {
    /// Wait for the next event.
    Again,
    /// The connection is over.
    Finish(FeedRunStatus),
    /// Record a text under a channel, then count it and go on.
    Record(&'static str, String),
}

/// Decides the next step of a Hyperliquid feed: the feed is complete with a shutdown and with the
/// end of the stream, as the connection renews itself; every report of the connection is recorded.
pub fn hyperliquid_turn(event: NextHyperliquidEvent) -> (turn: HyperliquidTurn)
    ensures
        match event {
            NextHyperliquidEvent::Signal { closed, requested } => if closed || requested {
                turn is Finish && turn->Finish_0 == FeedRunStatus::Complete
            } else {
                turn is Again
            },
            NextHyperliquidEvent::Ended => turn is Finish && turn->Finish_0
                == FeedRunStatus::Complete,
            NextHyperliquidEvent::Event(report) => turn is Record && (
                turn->Record_0@,
                turn->Record_1@,
            ) == event_record(report),
        },
{
    match event {
        NextHyperliquidEvent::Signal { closed, requested } => {
            if closed || requested {
                HyperliquidTurn::Finish(FeedRunStatus::Complete)
            } else {
                HyperliquidTurn::Again
            }
        },
        NextHyperliquidEvent::Ended => HyperliquidTurn::Finish(FeedRunStatus::Complete),
        NextHyperliquidEvent::Event(report) => {
            let (channel, contents) = handle_hyperliquid_event(report);
            HyperliquidTurn::Record(channel, contents)
        },
    }
}

/// Counts a recorded report; the feed is complete once the limit is reached.
pub fn end_hyperliquid_turn(total_messages: &mut usize, max_messages: Option<usize>) -> (status:
    Option<FeedRunStatus>)
    requires
        *old(total_messages) < usize::MAX,
    ensures
        *final(total_messages) == *old(total_messages) + 1,
        status == if feed::limit_reached(max_messages, *final(total_messages) as nat) {
            Some(FeedRunStatus::Complete)
        } else {
            None
        },
{
    *total_messages = *total_messages + 1;
    if message_limit_reached(max_messages, *total_messages) {
        Some(FeedRunStatus::Complete)
    } else {
        None
    }
}

} // verus!
