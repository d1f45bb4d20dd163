//! Pulling a trade history page by page: no trade is lost between pages, none is asked for twice.

use vstd::prelude::*;

use crate::history::ForwardNext;
use crate::history::HistoryArgs;
use crate::history::SortOrder;
use crate::history::TradeQuery;
use crate::history::forward_page_query;
use crate::history::limit_remaining;
use crate::history::parse_positive_usize;
use crate::history::pull_forward_page;
use crate::history::recent_page_query;
use crate::history::retry_after;
use crate::history::retry_delay;
use crate::history::trades_to_write;
use crate::history::validate_args;
use crate::history;
use crate::text::IntError;
use crate::text;
use crate::trade_order::sort_trades;
use crate::trade_order;
use crate::trades::Trade;

verus! {

/// No trade is skipped between pages, and none is asked for twice: where a page is followed by
/// another one, the request for that one begins behind every trade of the page, and any time behind
/// all of them lies in what is asked for. It goes on with the same symbol, end and page size, in
/// ascending time.
pub proof fn pages_meet_without_a_gap<'a>(
    page: Vec<Trade>,
    cursor: i64,
    written: usize,
    max_trades: Option<usize>,
    r: (Vec<Trade>, ForwardNext),
    args: &'a HistoryArgs,
    query: TradeQuery<'a>,
    mts: i64,
)
    requires
        call_ensures(pull_forward_page, (page, cursor, written, args.limit, max_trades), r),
        r.1 is Page,
        call_ensures(forward_page_query, (args, r.1->Page_0), query),
    ensures
        query.start is Some,
        query.start->Some_0 > cursor,
        forall|i: int| 0 <= i < page@.len() ==> (#[trigger] page@[i]).mts < query.start->Some_0,
        (forall|i: int| 0 <= i < page@.len() ==> (#[trigger] page@[i]).mts < mts) ==> mts
            >= query.start->Some_0,
        query.end == args.end,
        query.symbol@ == args.symbol@,
        query.limit == args.limit,
        query.sort == SortOrder::Ascending,
{
    let next = r.1->Page_0;
    history::next_page_is_behind_all_trades(
        page@,
        cursor,
        (written + r.0@.len()) as usize,
        args.limit,
        max_trades,
        next,
    );
    assert(page@.len() > 0);
    history::lemma_latest_exists(page@);
    let i = choose|i: int| 0 <= i < page@.len() && (#[trigger] page@[i]).mts == history::latest(
        page@,
    );
    assert(page@[i].mts < next);
}

/// A pull ends with a page only where nothing more can follow: the page is empty or shorter than
/// what was asked for, or as many trades are written as are wanted. It fails only where no time
/// follows the latest trade, or where the page brought nothing from the cursor on.
pub proof fn pulls_end_only_for_a_reason(
    page: Vec<Trade>,
    cursor: i64,
    written: usize,
    limit: u16,
    max_trades: Option<usize>,
    r: (Vec<Trade>, ForwardNext),
)
    requires
        call_ensures(pull_forward_page, (page, cursor, written, limit, max_trades), r),
        written + page@.len() <= usize::MAX,
    ensures
        r.1 is Done <==> (page@.len() == 0 || page@.len() < limit || (max_trades is Some
            && max_trades->Some_0 <= written + r.0@.len())),
        r.1 is Failed ==> (exists|i: int|
            0 <= i < page@.len() && (#[trigger] page@[i]).mts == i64::MAX) || (forall|i: int|
            0 <= i < page@.len() ==> (#[trigger] page@[i]).mts < cursor),
{
    if page@.len() > 0 {
        history::lemma_latest_exists(page@);
    }
}

/// The trades of a page are written in time order, and each of them as often as the page holds it;
/// where the number of trades is limited, those that are left out come behind those that are
/// written, and just as many are written as the limit leaves room for.
pub proof fn pages_are_written_in_time_order(
    page: Vec<Trade>,
    cursor: i64,
    written: usize,
    limit: u16,
    max_trades: Option<usize>,
    r: (Vec<Trade>, ForwardNext),
    left_out: Trade,
)
    requires
        call_ensures(pull_forward_page, (page, cursor, written, limit, max_trades), r),
    ensures
        forall|i: int, j: int|
            0 <= i < j < r.0@.len() ==> (#[trigger] r.0@[i]).mts < (#[trigger] r.0@[j]).mts || (
            r.0@[i].mts == r.0@[j].mts && r.0@[i].id <= r.0@[j].id),
        r.0@.to_multiset().subset_of(page@.to_multiset()),
        max_trades is None && page@.len() <= usize::MAX ==> r.0@.to_multiset()
            == page@.to_multiset(),
        max_trades is Some && written + page@.len() <= max_trades->Some_0 ==> r.0@.to_multiset()
            == page@.to_multiset(),
        max_trades is Some && max_trades->Some_0 < written + page@.len() ==> r.0@.len() == (
        if written < max_trades->Some_0 {
            max_trades->Some_0 - written
        } else {
            0
        }),
        page@.to_multiset().count(left_out) > r.0@.to_multiset().count(left_out) ==> forall|i: int|
            0 <= i < r.0@.len() ==> (#[trigger] r.0@[i]).mts < left_out.mts || (r.0@[i].mts
                == left_out.mts && r.0@[i].id <= left_out.id),
{
    lemma_first_in_time(
        page@,
        history::remaining_trades(max_trades, written),
        r.0@,
        left_out,
    );
    assert forall|i: int, j: int| 0 <= i < j < r.0@.len() implies (#[trigger] r.0@[i]).mts < (
    #[trigger] r.0@[j]).mts || (r.0@[i].mts == r.0@[j].mts && r.0@[i].id <= r.0@[j].id) by {
        assert(!trade_order::earlier(r.0@[j], r.0@[i]));
    }
}

proof fn lemma_first_in_time(
    page: Seq<Trade>,
    remaining: usize,
    chosen: Seq<Trade>,
    left_out: Trade,
)
    requires
        history::first_in_time(page, remaining, chosen),
    ensures
        chosen.to_multiset().subset_of(page.to_multiset()),
        page.len() <= remaining ==> chosen.to_multiset() == page.to_multiset(),
        page.to_multiset().count(left_out) > chosen.to_multiset().count(left_out) ==> forall|i: int|
            0 <= i < chosen.len() ==> (#[trigger] chosen[i]).mts < left_out.mts || (chosen[i].mts
                == left_out.mts && chosen[i].id <= left_out.id),
{
    let sorted = choose|sorted: Seq<Trade>| #[trigger]
        trade_order::in_time_order(sorted) && sorted.to_multiset() == page.to_multiset()
            && sorted.len() == page.len() && chosen == if remaining < sorted.len() {
            sorted.take(remaining as int)
        } else {
            sorted
        };
    if remaining < sorted.len() {
        let rest = sorted.skip(remaining as int);
        assert(sorted =~= chosen + rest);
        vstd::seq_lib::lemma_multiset_commutative(chosen, rest);
        if page.to_multiset().count(left_out) > chosen.to_multiset().count(left_out) {
            assert(rest.to_multiset().count(left_out) > 0);
            vstd::seq_lib::to_multiset_contains(rest, left_out);
            let k = choose|k: int| 0 <= k < rest.len() && rest[k] == left_out;
            assert forall|i: int| 0 <= i < chosen.len() implies (#[trigger] chosen[i]).mts
                < left_out.mts || (chosen[i].mts == left_out.mts && chosen[i].id
                <= left_out.id) by {
                assert(chosen[i] == sorted[i]);
                assert(sorted[remaining + k] == left_out);
                assert(!trade_order::earlier(sorted[remaining + k], sorted[i]));
            }
        }
    }
}

/// Of the most recent page the same holds: it is written in time order, and no trade of it is lost
/// unless the number of trades is limited.
pub proof fn recent_pages_are_written_in_time_order(
    page: Vec<Trade>,
    max_trades: Option<usize>,
    written: usize,
    chosen: Vec<Trade>,
    left_out: Trade,
)
    requires
        call_ensures(trades_to_write, (page, max_trades, written), chosen),
    ensures
        forall|i: int, j: int|
            0 <= i < j < chosen@.len() ==> (#[trigger] chosen@[i]).mts < (
            #[trigger] chosen@[j]).mts || (chosen@[i].mts == chosen@[j].mts && chosen@[i].id
                <= chosen@[j].id),
        chosen@.to_multiset().subset_of(page@.to_multiset()),
        max_trades is None && page@.len() <= usize::MAX ==> chosen@.to_multiset()
            == page@.to_multiset(),
        max_trades is Some && written + page@.len() <= max_trades->Some_0 ==> chosen@.to_multiset()
            == page@.to_multiset(),
        max_trades is Some && max_trades->Some_0 < written + page@.len() ==> chosen@.len() == (
        if written < max_trades->Some_0 {
            max_trades->Some_0 - written
        } else {
            0
        }),
        page@.to_multiset().count(left_out) > chosen@.to_multiset().count(left_out) ==> forall|
            i: int,
        |
            0 <= i < chosen@.len() ==> (#[trigger] chosen@[i]).mts < left_out.mts || (chosen@[i].mts
                == left_out.mts && chosen@[i].id <= left_out.id),
{
    lemma_first_in_time(
        page@,
        history::remaining_trades(max_trades, written),
        chosen@,
        left_out,
    );
    assert forall|i: int, j: int| 0 <= i < j < chosen@.len() implies (#[trigger] chosen@[i]).mts < (
    #[trigger] chosen@[j]).mts || (chosen@[i].mts == chosen@[j].mts && chosen@[i].id
        <= chosen@[j].id) by {
        assert(!trade_order::earlier(chosen@[j], chosen@[i]));
    }
}

/// Sorting trades loses and doubles none, and leaves no trade before an earlier one.
pub proof fn sorting_keeps_the_trades(trades: Vec<Trade>, sorted: Vec<Trade>)
    requires
        call_ensures(sort_trades, (trades,), sorted),
    ensures
        sorted@.to_multiset() == trades@.to_multiset(),
        forall|i: int, j: int|
            0 <= i < j < sorted@.len() ==> (#[trigger] sorted@[i]).mts < (
            #[trigger] sorted@[j]).mts || (sorted@[i].mts == sorted@[j].mts && sorted@[i].id
                <= sorted@[j].id),
{
    assert forall|i: int, j: int| 0 <= i < j < sorted@.len() implies (#[trigger] sorted@[i]).mts < (
    #[trigger] sorted@[j]).mts || (sorted@[i].mts == sorted@[j].mts && sorted@[i].id
        <= sorted@[j].id) by {
        assert(!trade_order::earlier(sorted@[j], sorted@[i]));
    }
}

/// The most recent trades are those asked for in descending time, from the end backwards: without a
/// start, so that no trade before the end is ruled out.
pub proof fn recent_trades_are_asked_for_backwards<'a>(
    args: &'a HistoryArgs,
    query: TradeQuery<'a>,
)
    requires
        call_ensures(recent_page_query, (args,), query),
    ensures
        query.start is None,
        query.end == args.end,
        query.symbol@ == args.symbol@,
        query.limit == args.limit,
        query.sort == SortOrder::Descending,
{
}

/// What may still be written and what was written add up to the limit; without a limit every page
/// fits.
pub proof fn room_and_written_make_the_limit(
    max_trades: Option<usize>,
    written: usize,
    remaining: usize,
    page_len: usize,
)
    requires
        call_ensures(limit_remaining, (max_trades, written), remaining),
    ensures
        max_trades is Some && written <= max_trades->Some_0 ==> written + remaining
            == max_trades->Some_0,
        max_trades is Some && written > max_trades->Some_0 ==> remaining == 0,
        max_trades is None ==> page_len <= remaining,
{
}

/// The arguments of a pull are accepted just where they can be met: there is a symbol, the end is
/// not before the start, and at least one trade is wanted.
pub proof fn accepted_arguments_can_be_met(
    args: &HistoryArgs,
    r: Result<(), history::HistoryArgsError>,
)
    requires
        call_ensures(validate_args, (args,), r),
    ensures
        r is Ok <==> {
            &&& args.symbol@ != Seq::<char>::empty()
            &&& args.start matches Some(start) ==> args.end matches Some(end) ==> start <= end
            &&& args.max_trades matches Some(max) ==> max >= 1
        },
{
    assert(args.symbol@.len() == 0 ==> args.symbol@ =~= Seq::<char>::empty());
}

/// A pause before another attempt is twice the one before it, until half a minute is reached; it is
/// never shorter than a second, and never longer than half a minute.
pub proof fn retries_back_off(attempt: u8, secs: u64, later: u64)
    requires
        attempt < 63,
        call_ensures(retry_delay, (attempt,), secs),
        call_ensures(retry_delay, ((attempt + 1) as u8,), later),
    ensures
        1 <= secs <= 30,
        attempt == 0 ==> secs == 1,
        later == 2 * secs || (later == 30 && 2 * secs > 30),
        secs <= later,
{
    history::powers_of_two_are_positive(attempt as nat);
}

/// A failed request is sent again after the pause of its attempt, at most five times, and only where
/// its error is marked for it.
pub proof fn marked_failures_are_retried(
    error: &str,
    attempt: u8,
    secs: Option<u64>,
    delay: u64,
)
    requires
        call_ensures(retry_after, (error, attempt), secs),
        attempt < 64,
        call_ensures(retry_delay, (attempt,), delay),
    ensures
        secs is Some ==> secs == Some(delay) && attempt <= 5,
        attempt >= 6 ==> secs is None,
        error@ == history::RATE_LIMIT_ERROR@ && attempt <= 5 ==> secs is Some,
        attempt <= 5 ==> (secs is Some <==> exists|at: int|
            0 <= at <= error@.len() - 10 && #[trigger] error@.subrange(at, at + 10)
                == "retryable:"@),
{
    history::overload_is_retryable(500, Seq::empty(), Seq::empty());
    reveal_strlit("retryable:");
    if attempt <= 5 {
        if secs is Some {
            let at = choose|at: int| text::stands_at(error@, "retryable:"@, at);
            assert(text::stands_at(error@, "retryable:"@, at));
            assert(error@.subrange(at, at + 10) =~= "retryable:"@);
        }
        if exists|at: int|
            0 <= at <= error@.len() - 10 && #[trigger] error@.subrange(at, at + 10)
                == "retryable:"@ {
            let at = choose|at: int|
                0 <= at <= error@.len() - 10 && #[trigger] error@.subrange(at, at + 10)
                    == "retryable:"@;
            assert(text::stands_at(error@, "retryable:"@, at));
        }
    }
}

/// A positive number is read back from its digits; zero is refused.
pub proof fn positive_numbers_are_read_back(value: &str, n: usize, r: Result<usize, String>)
    requires
        call_ensures(parse_positive_usize, (value,), r),
        value@ == text::nat_text(n as nat),
    ensures
        n > 0 ==> r is Ok && r->Ok_0 == n,
        n == 0 ==> r is Err,
{
    text::printed_numbers_are_read_back(n as nat, usize::MAX as int);
}

/// The pairs of a query hold the integer under the key, and under that key nothing else.
pub open spec fn reads(pairs: Seq<(Seq<char>, Seq<char>)>, key: Seq<char>, n: int) -> bool {
    &&& exists|k: int| 0 <= k < pairs.len() && (#[trigger] pairs[k]).0 == key
    &&& forall|k: int|
        0 <= k < pairs.len() && (#[trigger] pairs[k]).0 == key ==> text::parsed_int(
            pairs[k].1,
            -0x8000_0000_0000_0000,
            0x7fff_ffff_ffff_ffff,
        ) == Ok::<int, IntError>(n)
}

/// The pairs of a query hold nothing under the key.
pub open spec fn lacks(pairs: Seq<(Seq<char>, Seq<char>)>, key: Seq<char>) -> bool {
    forall|k: int| 0 <= k < pairs.len() ==> (#[trigger] pairs[k]).0 != key
}

/// The URL of a request asks for what the request says: the trades of its symbol, as many as its
/// limit, in its order, between its bounds where it has them.
pub proof fn urls_ask_for_what_is_wanted<'a>(query: &TradeQuery<'a>, r: Result<String, String>)
    requires
        call_ensures(TradeQuery::<'a>::url, (query,), r),
        r is Ok,
    ensures
        exists|pairs: Seq<(Seq<char>, Seq<char>)>|
            #![trigger history::url_text(
                "https://api-pub.bitfinex.com/v2/"@,
                "trades/"@ + query.symbol@ + "/hist"@,
                pairs,
            )]
            history::url_text(
                "https://api-pub.bitfinex.com/v2/"@,
                "trades/"@ + query.symbol@ + "/hist"@,
                pairs,
            ) == Ok::<Seq<char>, Seq<char>>(r->Ok_0@) && reads(
                pairs,
                "limit"@,
                query.limit as int,
            ) && reads(
                pairs,
                "sort"@,
                if query.sort == SortOrder::Ascending {
                    1
                } else {
                    -1
                },
            ) && (query.start is Some ==> reads(pairs, "start"@, query.start->Some_0 as int)) && (
            query.start is None ==> lacks(pairs, "start"@)) && (query.end is Some ==> reads(
                pairs,
                "end"@,
                query.end->Some_0 as int,
            )) && (query.end is None ==> lacks(pairs, "end"@)),
{
    let pairs = query.pairs();
    let min = -0x8000_0000_0000_0000int;
    let max = 0x7fff_ffff_ffff_ffffint;
    reveal_strlit("limit");
    reveal_strlit("sort");
    reveal_strlit("start");
    reveal_strlit("end");
    reveal_strlit("1");
    reveal_strlit("-1");
    assert("limit"@.len() == 5 && "sort"@.len() == 4 && "start"@.len() == 5 && "end"@.len() == 3);
    assert("limit"@[0] != "start"@[0]);
    text::printed_integers_are_read_back(query.limit as int, min, max);
    text::printed_integers_are_read_back(1, min, max);
    text::printed_integers_are_read_back(-1, min, max);
    reveal_with_fuel(text::nat_text, 2);
    assert("1"@ =~= text::int_text(1));
    assert("-1"@ =~= text::int_text(-1));
    if query.start is Some {
        text::printed_integers_are_read_back(query.start->Some_0 as int, min, max);
    }
    if query.end is Some {
        text::printed_integers_are_read_back(query.end->Some_0 as int, min, max);
    }
    assert(pairs[0].0 == "limit"@ && pairs[1].0 == "sort"@);
    if query.start is Some {
        assert(pairs[2].0 == "start"@);
    }
    if query.end is Some {
        assert(pairs[pairs.len() - 1].0 == "end"@);
    }
    assert(history::url_text(
        "https://api-pub.bitfinex.com/v2/"@,
        "trades/"@ + query.symbol@ + "/hist"@,
        pairs,
    ) == Ok::<Seq<char>, Seq<char>>(r->Ok_0@));
}

/// What is refused is what is wrong: each error names an argument that cannot be met.
pub proof fn refused_arguments_are_wrong(
    args: &HistoryArgs,
    r: Result<(), history::HistoryArgsError>,
)
    requires
        call_ensures(validate_args, (args,), r),
    ensures
        r is Err && r->Err_0 == history::HistoryArgsError::EmptySymbol <==> args.symbol@.len() == 0,
        r is Err && r->Err_0 == history::HistoryArgsError::StartBehindEnd ==> args.start is Some
            && args.end is Some && args.start->Some_0 > args.end->Some_0,
        r is Err && r->Err_0 == history::HistoryArgsError::ZeroMaxTrades ==> args.max_trades
            == Some(0usize),
{
}

} // verus!
