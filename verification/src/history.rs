//! The trade history of Bitfinex: what is requested, what an answer means, and how the pages of
//! a pull follow each other.

use vstd::prelude::*;

use crate::json;
use crate::json::Json;
use crate::json::JsonTree;
use crate::text;
use crate::text::joined3;
use crate::text::same_text;
use crate::trade_order;
use crate::trade_order::sort_trades;
use crate::trades;
use crate::trades::Trade;
use crate::wire;

verus! {

pub const API_BASE: &'static str = "https://api-pub.bitfinex.com/v2/";

/// The most records that one request may ask for.
pub const MAX_LIMIT: u16 = 10_000;

/// How long a rate-limited client pauses, in seconds.
pub const RATE_LIMIT_PAUSE_SECS: u64 = 65;

/// How often a request is sent at most.
pub const MAX_ATTEMPTS: u8 = 6;

/// What to pull, and how.
#[derive(Clone, Debug)]
pub struct HistoryArgs {
    pub symbol: String,
    pub start: Option<i64>,
    pub end: Option<i64>,
    pub limit: u16,
    pub rpm: u32,
    pub max_trades: Option<usize>,
    pub output_dir: String,
    pub batch_size: usize,
    pub ignore_checkpoint: bool,
}

/// Why a pull cannot be started.
#[derive(Clone, Copy, Debug, PartialEq, Eq, Structural)]
pub enum HistoryArgsError {
    EmptySymbol,
    StartBehindEnd,
    ZeroMaxTrades,
}

impl HistoryArgsError {
    pub open spec fn text(self) -> Seq<char> {
        match self {
            HistoryArgsError::EmptySymbol => "symbol cannot be empty"@,
            HistoryArgsError::StartBehindEnd => "start must be less than or equal to end"@,
            HistoryArgsError::ZeroMaxTrades => "max-trades must be greater than zero"@,
        }
    }

    /// The error in words.
    pub fn message(self) -> (words: &'static str)
        ensures
            words@ == self.text(),
    {
        match self {
            HistoryArgsError::EmptySymbol => "symbol cannot be empty",
            HistoryArgsError::StartBehindEnd => "start must be less than or equal to end",
            HistoryArgsError::ZeroMaxTrades => "max-trades must be greater than zero",
        }
    }
}

/// The first thing that is wrong with the arguments of a pull.
pub open spec fn history_args_error(args: HistoryArgs) -> Option<HistoryArgsError> {
    if args.symbol@.len() == 0 {
        Some(HistoryArgsError::EmptySymbol)
    } else if args.start is Some && args.end is Some && args.start->Some_0 > args.end->Some_0 {
        Some(HistoryArgsError::StartBehindEnd)
    } else if args.max_trades == Some(0usize) {
        Some(HistoryArgsError::ZeroMaxTrades)
    } else {
        None
    }
}

/// Checks the arguments of a pull.
pub fn validate_args(args: &HistoryArgs) -> (r: Result<(), HistoryArgsError>)
    ensures
        r == match history_args_error(*args) {
            None => Ok::<(), HistoryArgsError>(()),
            Some(error) => Err(error),
        },
{
    if text::is_empty_text(args.symbol.as_str()) {
        return Err(HistoryArgsError::EmptySymbol);
    }
    if let (Some(start), Some(end)) = (args.start, args.end) {
        if start > end {
            return Err(HistoryArgsError::StartBehindEnd);
        }
    }
    if let Some(max) = args.max_trades {
        if max == 0 {
            return Err(HistoryArgsError::ZeroMaxTrades);
        }
    }
    Ok(())
}

/// The order in which trades are asked for.
#[derive(Clone, Copy, Debug, PartialEq, Eq, Structural)]
pub enum SortOrder {
    Ascending,
    Descending,
}

impl SortOrder {
    pub open spec fn query_value(self) -> Seq<char> {
        match self {
            SortOrder::Ascending => "1"@,
            SortOrder::Descending => "-1"@,
        }
    }

    /// The order as a query names it.
    pub fn as_query_value(self) -> (value: &'static str)
        ensures
            value@ == self.query_value(),
    {
        match self {
            SortOrder::Ascending => "1",
            SortOrder::Descending => "-1",
        }
    }
}

/// A request for one page of trades.
#[derive(Clone, Copy, Debug)]
pub struct TradeQuery<'a> {
    pub symbol: &'a str,
    pub start: Option<i64>,
    pub end: Option<i64>,
    pub limit: u16,
    pub sort: SortOrder,
}

/// The URL that `path` names relative to `base`, with the pairs in its query, as the `url` crate
/// writes it; or the text of its error.
pub uninterp spec fn url_text(
    base: Seq<char>,
    path: Seq<char>,
    pairs: Seq<(Seq<char>, Seq<char>)>,
) -> Result<Seq<char>, Seq<char>>;

/// The characters of each pair of a list.
pub open spec fn pair_texts(pairs: Seq<(String, String)>) -> Seq<(Seq<char>, Seq<char>)> {
    pairs.map_values(|p: (String, String)| (p.0@, p.1@))
}

/// The characters of a text or of an error.
pub open spec fn text_or_error(r: Result<String, String>) -> Result<Seq<char>, Seq<char>> {
    match r {
        Ok(value) => Ok(value@),
        Err(error) => Err(error@),
    }
}

/// `Url::parse` of the base, `Url::join` of the path, and the pairs appended to the query, in
/// their order; with the error of the first two as text.
#[verifier::external_body]
fn query_url(base: &str, path: &str, pairs: &Vec<(String, String)>) -> (r: Result<String, String>)
    ensures
        text_or_error(r) == url_text(base@, path@, pair_texts(pairs@)),
{
    let joined = reqwest::Url::parse(base).and_then(|base| base.join(path));
    let mut url = joined.map_err(|error| error.to_string())?;
    url.query_pairs_mut().extend_pairs(pairs);
    Ok(url.to_string())
}

/// The path of a request, relative to the base.
pub open spec fn trades_path(symbol: Seq<char>) -> Seq<char> {
    "trades/"@ + symbol + "/hist"@
}

/// One pair where there is a value, none otherwise.
pub open spec fn bound_pair(key: Seq<char>, value: Option<i64>) -> Seq<(Seq<char>, Seq<char>)> {
    match value {
        Some(mts) => seq![(key, text::int_text(mts as int))],
        None => Seq::empty(),
    }
}

impl<'a> TradeQuery<'a> {
    /// The pairs of the query: limit and order, then the bounds that there are.
    pub open spec fn pairs(self) -> Seq<(Seq<char>, Seq<char>)> {
        seq![
            ("limit"@, text::nat_text(self.limit as nat)),
            ("sort"@, self.sort.query_value()),
        ] + bound_pair("start"@, self.start) + bound_pair("end"@, self.end)
    }

    /// The URL of the request.
    pub fn url(&self) -> (r: Result<String, String>)
        ensures
            text_or_error(r) == match url_text(API_BASE@, trades_path(self.symbol@), self.pairs()) {
                Ok(url) => Ok(url),
                Err(error) => Err(
                    "invalid Bitfinex trades path: "@ + trades_path(self.symbol@) + ": "@ + error,
                ),
            },
    {
        let path = joined3("trades/", self.symbol, "/hist");
        let mut pairs: Vec<(String, String)> = Vec::new();
        pairs.push(("limit".to_owned(), text::u64_text(self.limit as u64)));
        pairs.push(("sort".to_owned(), self.sort.as_query_value().to_owned()));
        if let Some(start) = self.start {
            pairs.push(("start".to_owned(), text::i64_text(start)));
        }
        if let Some(end) = self.end {
            pairs.push(("end".to_owned(), text::i64_text(end)));
        }
        assert(pair_texts(pairs@) =~= self.pairs());
        match query_url(API_BASE, path.as_str(), &pairs) {
            Ok(url) => Ok(url),
            Err(error) => {
                let mut report = joined3("invalid Bitfinex trades path: ", path.as_str(), ": ");
                report.append(error.as_str());
                Err(report)
            },
        }
    }
}

/// A document that reports the rate limit.
pub open spec fn rate_limit_report(document: Result<JsonTree, Seq<char>>) -> bool {
    match document {
        Ok(tree) => json::string_of(tree.field("error"@)) == Some("ERR_RATE_LIMIT"@),
        Err(_) => false,
    }
}

/// Whether a value reports the rate limit.
pub fn reports_rate_limit(value: &Json) -> (yes: bool)
    ensures
        yes == (json::string_of(value@.field("error"@)) == Some("ERR_RATE_LIMIT"@)),
{
    match json::str_of(value.get("error")) {
        Some(error) => same_text(error, "ERR_RATE_LIMIT"),
        None => false,
    }
}

/// Whether the body of an answer reports the rate limit.
pub fn is_bitfinex_rate_limit_body(body: &str) -> (yes: bool)
    ensures
        yes == rate_limit_report(wire::parsed_document(body@)),
{
    match wire::parse_json(body) {
        Ok(value) => reports_rate_limit(&value),
        Err(_) => false,
    }
}

/// What an answer means.
#[derive(Debug)]
pub enum TradesResponse {
    /// The client must pause, then may ask again.
    RateLimited,
    /// The request failed.
    Failed(String),
    /// The trades of the page.
    Trades(Vec<Trade>),
}

/// What is reported of an answer with an HTTP status other than success.
pub open spec fn status_report(status: u16, status_line: Seq<char>, body: Seq<char>) -> Seq<char> {
    let report = "Bitfinex returned HTTP "@ + status_line + ": "@ + body;
    if 500 <= status < 600 {
        "retryable: "@ + report
    } else {
        report
    }
}

/// Reads the answer to a request for trades: the rate limit first, then the status, then the
/// document.
pub fn read_trades_response(symbol: &str, status: u16, status_line: &str, body: &str) -> (r:
    TradesResponse)
    ensures
        r is RateLimited <==> (status == 429 || rate_limit_report(wire::parsed_document(body@))),
        !(r is RateLimited) && !(200 <= status < 300) ==> r is Failed && r->Failed_0@
            == status_report(status, status_line@, body@),
        !(r is RateLimited) && 200 <= status < 300 ==> match wire::parsed_document(body@) {
            Err(error) => r is Failed && r->Failed_0@ == "invalid JSON: "@ + body@ + ": "@ + error,
            Ok(tree) => read_as(symbol@, tree, r),
        },
{
    let parsed = wire::parse_json(body);
    let limited = match &parsed {
        Ok(value) => reports_rate_limit(value),
        Err(_) => false,
    };
    if status == 429 || limited {
        return TradesResponse::RateLimited;
    }
    if status < 200 || status >= 300 {
        let mut report = if 500 <= status && status < 600 {
            "retryable: Bitfinex returned HTTP ".to_owned()
        } else {
            "Bitfinex returned HTTP ".to_owned()
        };
        report.append(status_line);
        report.append(": ");
        report.append(body);
        proof {
            reveal_strlit("retryable: ");
            reveal_strlit("Bitfinex returned HTTP ");
            reveal_strlit("retryable: Bitfinex returned HTTP ");
            assert("retryable: "@ + "Bitfinex returned HTTP "@
                =~= "retryable: Bitfinex returned HTTP "@);
            assert(report@ =~= status_report(status, status_line@, body@));
        }
        return TradesResponse::Failed(report);
    }
    match parsed {
        Err(error) => {
            let mut report = joined3("invalid JSON: ", body, ": ");
            report.append(error.as_str());
            TradesResponse::Failed(report)
        },
        Ok(value) => trades_of_document(symbol, &value),
    }
}

/// The response holds the trades of the document, or the error of reading them.
pub open spec fn read_as(symbol: Seq<char>, tree: JsonTree, r: TradesResponse) -> bool {
    match tree.array() {
        None => r is Failed && r->Failed_0@ == "expected Bitfinex trade response array, got "@
            + wire::written_document(tree),
        Some(rows) => match r {
            TradesResponse::Trades(list) => {
                &&& trades::all_well_formed(list@)
                &&& list@.len() == rows.len()
                &&& forall|i: int|
                    0 <= i < rows.len() ==> trades::trade_of(symbol, i, #[trigger] rows[i])
                        == Ok::<trades::TradeFacts, Seq<char>>(list@[i].facts())
            },
            TradesResponse::Failed(error) => exists|index: int| #[trigger]
                trades::first_bad_row(symbol, rows, index) && trades::trade_of(
                    symbol,
                    index,
                    rows[index],
                ) == Err::<trades::TradeFacts, Seq<char>>(error@),
            TradesResponse::RateLimited => false,
        },
    }
}

/// Reads the document of a successful answer.
pub fn trades_of_document(symbol: &str, value: &Json) -> (r: TradesResponse)
    ensures
        read_as(symbol@, value@, r),
{
    match trades::parse_trades(symbol, value) {
        Ok(list) => TradesResponse::Trades(list),
        Err(error) => TradesResponse::Failed(error),
    }
}

/// Whether an error is marked as one after which the request may be sent again.
pub fn is_retryable(error: &str) -> (yes: bool)
    ensures
        yes == text::contains(error@, "retryable:"@),
{
    text::contains_text(error, "retryable:")
}

/// Two to a power.
pub open spec fn power_of_two(exponent: nat) -> nat
    decreases exponent,
{
    if exponent == 0 {
        1
    } else {
        2 * power_of_two((exponent - 1) as nat)
    }
}

/// The pause before the next attempt, in seconds: two to the number of attempts, at most 30.
pub fn retry_delay(attempt: u8) -> (secs: u64)
    requires
        attempt < 64,
    ensures
        secs == if power_of_two(attempt as nat) < 30 {
            power_of_two(attempt as nat)
        } else {
            30
        },
{
    proof {
        reveal_with_fuel(power_of_two, 6);
        if attempt >= 5 {
            lemma_power_grows(5, attempt as nat);
        }
    }
    if attempt == 0 {
        1
    } else if attempt == 1 {
        2
    } else if attempt == 2 {
        4
    } else if attempt == 3 {
        8
    } else if attempt == 4 {
        16
    } else {
        30
    }
}

proof fn lemma_power_grows(small: nat, large: nat)
    requires
        small <= large,
    ensures
        power_of_two(small) <= power_of_two(large),
    decreases large,
{
    if small < large {
        lemma_power_grows(small, (large - 1) as nat);
    }
}

/// A power of two is positive, and the next one is twice as large.
pub proof fn powers_of_two_are_positive(exponent: nat)
    ensures
        power_of_two(exponent) > 0,
        power_of_two(exponent + 1) == 2 * power_of_two(exponent),
    decreases exponent,
{
    if exponent > 0 {
        powers_of_two_are_positive((exponent - 1) as nat);
    }
}

/// The pause before a failed request is sent again, in seconds; nothing where it is given up: the
/// error does not allow it, or `attempt` was the last one.
pub fn retry_after(error: &str, attempt: u8) -> (secs: Option<u64>)
    ensures
        secs is Some <==> text::contains(error@, "retryable:"@) && attempt < MAX_ATTEMPTS,
        secs is Some ==> secs->Some_0 == if power_of_two(attempt as nat) < 30 {
            power_of_two(attempt as nat)
        } else {
            30
        },
{
    if is_retryable(error) && attempt < MAX_ATTEMPTS {
        Some(retry_delay(attempt))
    } else {
        None
    }
}

/// How many trades may still be written.
pub fn limit_remaining(max_trades: Option<usize>, written: usize) -> (remaining: usize)
    ensures
        remaining == remaining_trades(max_trades, written),
{
    match max_trades {
        Some(max) => max.saturating_sub(written),
        None => usize::MAX,
    }
}

/// How many trades may still be written.
pub open spec fn remaining_trades(max_trades: Option<usize>, written: usize) -> usize {
    match max_trades {
        Some(max) => if written < max {
            (max - written) as usize
        } else {
            0
        },
        None => usize::MAX,
    }
}

/// The error under which a rate-limited request is repeated.
pub const RATE_LIMIT_ERROR: &'static str = "retryable: Bitfinex rate limit";

/// A request that met the rate limit or a server error may be sent again.
pub proof fn overload_is_retryable(status: u16, status_line: Seq<char>, body: Seq<char>)
    ensures
        text::contains(RATE_LIMIT_ERROR@, "retryable:"@),
        500 <= status < 600 ==> text::contains(
            status_report(status, status_line, body),
            "retryable:"@,
        ),
{
    reveal_strlit("retryable: Bitfinex rate limit");
    reveal_strlit("retryable:");
    reveal_strlit("retryable: ");
    assert(RATE_LIMIT_ERROR@.subrange(0, 10) =~= "retryable:"@);
    assert(text::stands_at(RATE_LIMIT_ERROR@, "retryable:"@, 0));
    if 500 <= status < 600 {
        let report = status_report(status, status_line, body);
        assert(report.subrange(0, 10) =~= "retryable:"@);
        assert(text::stands_at(report, "retryable:"@, 0));
    }
}

/// The first `remaining` trades of a page, in time order: `chosen` holds them, out of some
/// arrangement of the page in time order.
pub open spec fn first_in_time(page: Seq<Trade>, remaining: usize, chosen: Seq<Trade>) -> bool {
    exists|sorted: Seq<Trade>| #[trigger]
        trade_order::in_time_order(sorted) && sorted.to_multiset() == page.to_multiset()
            && sorted.len() == page.len() && chosen == if remaining < sorted.len() {
            sorted.take(remaining as int)
        } else {
            sorted
        }
}

/// The trades of a page that are written: in time order, as many as may still be written.
pub fn trades_to_write(page: Vec<Trade>, max_trades: Option<usize>, written: usize) -> (chosen: Vec<
    Trade,
>)
    ensures
        first_in_time(page@, remaining_trades(max_trades, written), chosen@),
        trade_order::in_time_order(chosen@),
        chosen@.len() == if remaining_trades(max_trades, written) < page@.len() {
            remaining_trades(max_trades, written) as nat
        } else {
            page@.len()
        },
        trades::all_well_formed(page@) ==> trades::all_well_formed(chosen@),
{
    let sorted = sort_trades(page);
    let ghost all = sorted@;
    let remaining = limit_remaining(max_trades, written);
    let mut chosen = sorted;
    if remaining < chosen.len() {
        chosen.truncate(remaining);
    }
    assert(first_in_time(page@, remaining, chosen@)) by {
        assert(trade_order::in_time_order(all));
        assert(remaining < all.len() ==> chosen@ =~= all.take(remaining as int));
    }
    chosen
}

/// The request for the most recent page.
pub fn recent_page_query<'a>(args: &'a HistoryArgs) -> (query: TradeQuery<'a>)
    ensures
        query.symbol@ == args.symbol@,
        query.start is None,
        query.end == args.end,
        query.limit == args.limit,
        query.sort == SortOrder::Descending,
{
    TradeQuery {
        symbol: args.symbol.as_str(),
        start: None,
        end: args.end,
        limit: args.limit,
        sort: SortOrder::Descending,
    }
}

/// The request for the page that begins at `cursor`.
pub fn forward_page_query<'a>(args: &'a HistoryArgs, cursor: i64) -> (query: TradeQuery<'a>)
    ensures
        query.symbol@ == args.symbol@,
        query.start == Some(cursor),
        query.end == args.end,
        query.limit == args.limit,
        query.sort == SortOrder::Ascending,
{
    TradeQuery {
        symbol: args.symbol.as_str(),
        start: Some(cursor),
        end: args.end,
        limit: args.limit,
        sort: SortOrder::Ascending,
    }
}

/// What follows a page of a forward pull.
#[derive(Debug)]
pub enum ForwardNext {
    /// The pull is over.
    Done,
    /// The next page begins at the cursor.
    Page(i64),
    /// The pull cannot go on.
    Failed(String),
}

/// The latest time stamp of a page.
pub open spec fn is_latest(page: Seq<Trade>, mts: i64) -> bool {
    &&& exists|i: int| 0 <= i < page.len() && (#[trigger] page[i]).mts == mts
    &&& forall|i: int| 0 <= i < page.len() ==> (#[trigger] page[i]).mts <= mts
}

/// The latest time stamp of a page.
pub open spec fn latest(page: Seq<Trade>) -> i64 {
    choose|mts: i64| is_latest(page, mts)
}

/// What follows a page of a forward pull after which `written` trades were written in all: it is
/// over where the page is empty, the limit on trades is reached or the page is short; otherwise
/// the next page begins one millisecond behind the latest trade, which must be behind the cursor.
pub open spec fn forward_next(
    page: Seq<Trade>,
    cursor: i64,
    written: usize,
    limit: u16,
    max_trades: Option<usize>,
) -> Result<Option<i64>, Seq<char>> {
    if page.len() == 0 || (max_trades is Some && written >= max_trades->Some_0) || page.len()
        < limit {
        Ok(None)
    } else if latest(page) == i64::MAX {
        Err("trade timestamp overflow while advancing cursor"@)
    } else if latest(page) + 1 <= cursor {
        Err("cursor did not advance past "@ + text::int_text(cursor as int))
    } else {
        Ok(Some((latest(page) + 1) as i64))
    }
}

/// What a step holds.
pub open spec fn next_of(next: ForwardNext) -> Result<Option<i64>, Seq<char>> {
    match next {
        ForwardNext::Done => Ok(None),
        ForwardNext::Page(cursor) => Ok(Some(cursor)),
        ForwardNext::Failed(error) => Err(error@),
    }
}

fn latest_mts(page: &Vec<Trade>) -> (mts: i64)
    requires
        page@.len() > 0,
    ensures
        is_latest(page@, mts),
        mts == latest(page@),
{
    let mut mts: i64 = page[0].mts;
    let mut i: usize = 1;
    while i < page.len()
        invariant
            1 <= i <= page@.len(),
            exists|j: int| 0 <= j < i && (#[trigger] page@[j]).mts == mts,
            forall|j: int| 0 <= j < i ==> (#[trigger] page@[j]).mts <= mts,
        decreases page@.len() - i,
    {
        if page[i].mts > mts {
            mts = page[i].mts;
        }
        i = i + 1;
    }
    assert(is_latest(page@, mts));
    proof {
        let other = latest(page@);
        let j = choose|j: int| 0 <= j < page@.len() && (#[trigger] page@[j]).mts == other;
        let k = choose|k: int| 0 <= k < page@.len() && (#[trigger] page@[k]).mts == mts;
        assert(page@[j].mts <= mts && page@[k].mts <= other);
    }
    mts
}

/// A page that is not empty has a latest time stamp.
pub proof fn lemma_latest_exists(page: Seq<Trade>)
    requires
        page.len() > 0,
    ensures
        is_latest(page, latest(page)),
    decreases page.len(),
{
    let last = page.last();
    if page.len() == 1 {
        assert(page[0].mts == last.mts);
        assert(is_latest(page, last.mts));
    } else {
        let front = page.drop_last();
        lemma_latest_exists(front);
        let before = latest(front);
        let mts = if before < last.mts {
            last.mts
        } else {
            before
        };
        let k = choose|k: int| 0 <= k < front.len() && (#[trigger] front[k]).mts == before;
        assert(page[k] == front[k]);
        assert(page[page.len() - 1].mts == last.mts);
        assert forall|i: int| 0 <= i < page.len() implies (#[trigger] page[i]).mts <= mts by {
            if i < front.len() {
                assert(front[i] == page[i]);
            }
        }
        assert(is_latest(page, mts));
    }
}

/// A pull moves forward: the next page begins behind the cursor and behind every trade of the
/// page, so that no trade is asked for twice.
pub proof fn next_page_is_behind_all_trades(
    page: Seq<Trade>,
    cursor: i64,
    written: usize,
    limit: u16,
    max_trades: Option<usize>,
    next: i64,
)
    requires
        forward_next(page, cursor, written, limit, max_trades) == Ok::<Option<i64>, Seq<char>>(
            Some(next),
        ),
    ensures
        next > cursor,
        forall|i: int| 0 <= i < page.len() ==> (#[trigger] page[i]).mts < next,
{
    lemma_latest_exists(page);
}

/// One page of a forward pull: the trades that are written, and what follows once they are.
/// `written` counts the trades written before; behind the page it is `written` plus the number of
/// the chosen trades.
pub fn pull_forward_page(
    page: Vec<Trade>,
    cursor: i64,
    written: usize,
    limit: u16,
    max_trades: Option<usize>,
) -> (r: (Vec<Trade>, ForwardNext))
    requires
        written + page@.len() <= usize::MAX,
    ensures
        first_in_time(page@, remaining_trades(max_trades, written), r.0@),
        trade_order::in_time_order(r.0@),
        trades::all_well_formed(page@) ==> trades::all_well_formed(r.0@),
        r.0@.len() == if remaining_trades(max_trades, written) < page@.len() {
            remaining_trades(max_trades, written) as nat
        } else {
            page@.len()
        },
        next_of(r.1) == forward_next(
            page@,
            cursor,
            (written + r.0@.len()) as usize,
            limit,
            max_trades,
        ),
        max_trades is Some && written <= max_trades->Some_0 ==> written + r.0@.len()
            <= max_trades->Some_0,
        r.1 is Page ==> r.1->Page_0 > cursor,
{
    let page_len = page.len();
    if page_len == 0 {
        return (trades_to_write(page, max_trades, written), ForwardNext::Done);
    }
    let max_mts = latest_mts(&page);
    let chosen = trades_to_write(page, max_trades, written);
    let total: usize = written + chosen.len();
    let reached = match max_trades {
        Some(max) => total >= max,
        None => false,
    };
    if reached || page_len < limit as usize {
        return (chosen, ForwardNext::Done);
    }
    if max_mts == i64::MAX {
        return (
            chosen,
            ForwardNext::Failed("trade timestamp overflow while advancing cursor".to_owned()),
        );
    }
    let next_cursor: i64 = max_mts + 1;
    if next_cursor <= cursor {
        let mut report = "cursor did not advance past ".to_owned();
        report.append(text::i64_text(cursor).as_str());
        return (chosen, ForwardNext::Failed(report));
    }
    (chosen, ForwardNext::Page(next_cursor))
}

/// Reads a number that must be positive.
pub fn parse_positive_usize(value: &str) -> (r: Result<usize, String>)
    ensures
        match text::parsed_int(value@, 0, usize::MAX as int) {
            Err(error) => r is Err && r->Err_0@ == "expected positive integer: "@ + error.text(),
            Ok(n) => if n == 0 {
                r is Err && r->Err_0@ == "expected positive integer greater than zero"@
            } else {
                r is Ok && r->Ok_0 == n
            },
        },
{
    match text::parse_usize_text(value) {
        Err(error) => {
            let mut report = "expected positive integer: ".to_owned();
            report.append(error.message().as_str());
            Err(report)
        },
        Ok(n) => {
            if n == 0 {
                Err("expected positive integer greater than zero".to_owned())
            } else {
                Ok(n)
            }
        },
    }
}

/// The number of trades on pages of the given sizes.
pub open spec fn trades_on(sizes: Seq<nat>) -> nat
    decreases sizes.len(),
{
    if sizes.len() == 0 {
        0
    } else {
        trades_on(sizes.drop_last()) + sizes.last()
    }
}

/// The number of trades that are written of pages of the given sizes, each as far as the limit
/// leaves room for it.
pub open spec fn written_of(sizes: Seq<nat>, max_trades: Option<usize>) -> nat
    decreases sizes.len(),
{
    if sizes.len() == 0 {
        0
    } else {
        let before = written_of(sizes.drop_last(), max_trades);
        let room = remaining_trades(max_trades, before as usize) as nat;
        before + if sizes.last() <= room {
            sizes.last()
        } else {
            room
        }
    }
}

/// However a pull is cut into pages, it writes all trades, or just as many as its limit allows.
pub proof fn pages_are_written_up_to_the_limit(sizes: Seq<nat>, max_trades: Option<usize>)
    requires
        trades_on(sizes) <= usize::MAX,
    ensures
        written_of(sizes, max_trades) == match max_trades {
            Some(max) => if trades_on(sizes) <= max {
                trades_on(sizes)
            } else {
                max as nat
            },
            None => trades_on(sizes),
        },
    decreases sizes.len(),
{
    if sizes.len() > 0 {
        pages_are_written_up_to_the_limit(sizes.drop_last(), max_trades);
    }
}

} // verus!
