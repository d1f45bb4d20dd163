//! Resuming a pull: what is on disk is not pulled again, and what is not is not passed over.

use vstd::prelude::*;

use crate::calendar::CivilDate;
use crate::calendar::UtcTime;
use crate::calendar::date_text;
use crate::checkpoint::Checkpoint;
use crate::checkpoint::CheckpointStore;
use crate::checkpoint::CheckpointTrade;
use crate::checkpoint::DailyTrades;
use crate::checkpoint::DayChange;
use crate::checkpoint::HistoryPlan;
use crate::checkpoint::history_plan;
use crate::checkpoint::planned_start;
use crate::checkpoint::resolve_start;
use crate::history::HistoryArgs;
use crate::trades::Trade;

verus! {

/// A pull that resumes at a checkpoint begins right behind the last trade of the completed day:
/// behind that trade, and at or before every later time, where no later start is wanted.
pub proof fn pulls_resume_behind_the_last_trade(
    symbol: &str,
    symbol_name: &str,
    completed_date: CivilDate,
    last_trade: CheckpointTrade,
    now: &UtcTime,
    r: Result<Checkpoint, String>,
    wanted: Option<i64>,
    start: Option<i64>,
    mts: i64,
)
    requires
        call_ensures(Checkpoint::new, (symbol, symbol_name, completed_date, last_trade, now), r),
        r is Ok,
        wanted matches Some(w) ==> w <= last_trade.mts,
        call_ensures(resolve_start, (wanted, Some(&r->Ok_0)), start),
    ensures
        start is Some,
        start->Some_0 > last_trade.mts,
        mts > last_trade.mts ==> start->Some_0 <= mts,
        r->Ok_0.last_trade_mts == last_trade.mts,
        r->Ok_0.last_trade_id == last_trade.id,
{
}

/// There is a checkpoint behind every trade that a later millisecond follows.
pub proof fn checkpoints_are_there(
    symbol: &str,
    symbol_name: &str,
    completed_date: CivilDate,
    last_trade: CheckpointTrade,
    now: &UtcTime,
    r: Result<Checkpoint, String>,
    later: i64,
    day: String,
    written_at: String,
)
    requires
        call_ensures(Checkpoint::new, (symbol, symbol_name, completed_date, last_trade, now), r),
        later > last_trade.mts,
        call_ensures(date_text, (completed_date,), day),
        call_ensures(UtcTime::secs_text, (now,), written_at),
    ensures
        r is Ok,
        r->Ok_0.last_completed_date@ == day@,
        r->Ok_0.updated_at@ == written_at@,
        r->Ok_0.symbol@ == symbol@,
        r->Ok_0.symbol_partition@ == symbol_name@,
{
}

/// A checkpoint is accepted for the symbol and the partition that it was made for, and refused for
/// every other.
pub proof fn checkpoints_belong_to_their_symbol(
    symbol: &str,
    symbol_name: &str,
    completed_date: CivilDate,
    last_trade: CheckpointTrade,
    now: &UtcTime,
    r: Result<Checkpoint, String>,
    other: &str,
    other_name: &str,
    accepted: Result<(), String>,
)
    requires
        call_ensures(Checkpoint::new, (symbol, symbol_name, completed_date, last_trade, now), r),
        r is Ok,
        call_ensures(Checkpoint::validate, (&r->Ok_0, other, other_name), accepted),
    ensures
        accepted is Ok <==> other@ == symbol@ && other_name@ == symbol_name@,
{
}

/// A checkpoint that does not point behind its last trade, or is of another exchange or version, is
/// never accepted.
pub proof fn damaged_checkpoints_are_refused(
    found: &Checkpoint,
    symbol: &str,
    symbol_name: &str,
    accepted: Result<(), String>,
)
    requires
        call_ensures(Checkpoint::validate, (found, symbol, symbol_name), accepted),
    ensures
        accepted is Ok ==> found.next_start_mts > found.last_trade_mts && found.version == 1
            && found.exchange@ == "bitfinex"@ && found.symbol@ == symbol@,
{
}

/// A pull starts no earlier than what is wanted and no earlier than its checkpoint, and at one of
/// the two; it has a start where there is one of them.
pub proof fn pulls_start_at_the_later_one(
    wanted: Option<i64>,
    found: Option<&Checkpoint>,
    start: Option<i64>,
)
    requires
        call_ensures(resolve_start, (wanted, found), start),
    ensures
        start is None <==> wanted is None && found is None,
        wanted matches Some(w) ==> start->Some_0 >= w,
        found matches Some(c) ==> start->Some_0 >= c.next_start_mts,
        start is Some ==> start == wanted || (found is Some && start->Some_0
            == found->Some_0.next_start_mts),
{
}

/// A pull goes forward from its start where that is not behind its end; where it is, there is
/// nothing to pull; and the most recent page is fetched just where there is no start.
pub proof fn pulls_go_forward_from_their_start(
    wanted: Option<i64>,
    end: Option<i64>,
    found: Option<&Checkpoint>,
    start: Option<i64>,
    plan: HistoryPlan,
)
    requires
        call_ensures(resolve_start, (wanted, found), start),
        call_ensures(history_plan, (wanted, end, found), plan),
    ensures
        start is None <==> plan == HistoryPlan::Recent,
        plan matches HistoryPlan::Forward(first) ==> start == Some(first) && (end matches Some(
            last,
        ) ==> first <= last),
        plan matches HistoryPlan::Nothing(first) ==> start == Some(first) && end is Some && first
            > end->Some_0,
{
}

/// Where the checkpoint is to be ignored, a pull proceeds as if there were none; else as the
/// checkpoint says.
pub proof fn checkpoints_can_be_ignored(
    args: &HistoryArgs,
    found: Option<&Checkpoint>,
    plan: HistoryPlan,
    without: HistoryPlan,
    with: HistoryPlan,
)
    requires
        call_ensures(planned_start, (args, found), plan),
        call_ensures(history_plan, (args.start, args.end, None), without),
        call_ensures(history_plan, (args.start, args.end, found), with),
    ensures
        args.ignore_checkpoint ==> plan == without,
        !args.ignore_checkpoint ==> plan == with,
{
}

/// A day is completed just where a trade of another day follows, and by its last trade; the file of
/// each trade's own day is open when it is written; and the pull that resumes at the completed day
/// begins behind that last trade and not behind the trade that follows.
pub proof fn days_are_completed_by_the_next_one(
    first: &mut DailyTrades,
    second: &mut DailyTrades,
    a: &Trade,
    b: &Trade,
    opening: DayChange,
    change: DayChange,
    symbol: &str,
    symbol_name: &str,
    now: &UtcTime,
    r: Result<Checkpoint, String>,
    start: Option<i64>,
)
    requires
        call_ensures(DailyTrades::write_trade, (first, a), opening),
        *old(second) == *final(first),
        call_ensures(DailyTrades::write_trade, (second, b), change),
        a.well_formed(),
        b.well_formed(),
        a.mts <= b.mts,
        change.completed is Some ==> call_ensures(
            Checkpoint::new,
            (symbol, symbol_name, change.completed->Some_0.0, change.completed->Some_0.1, now),
            r,
        ),
        r is Ok ==> call_ensures(resolve_start, (None, Some(&r->Ok_0)), start),
    ensures
        change.completed is Some <==> a.mts as int / 86_400_000 != b.mts as int / 86_400_000,
        change.opened is Some <==> change.completed is Some,
        change.completed is Some ==> {
            &&& change.completed->Some_0.0.number() == a.mts as int / 86_400_000
            &&& change.completed->Some_0.1.mts == a.mts
            &&& change.completed->Some_0.1.id == a.id
            &&& change.opened->Some_0.number() == b.mts as int / 86_400_000
            &&& r is Ok
            &&& start is Some
            &&& a.mts < start->Some_0 <= b.mts
        },
{
}

/// The first trade of a pull opens the file of its day; a trade opens no other file than that of its
/// own day; and at the end the file of the last trade's day is closed.
pub proof fn trades_go_to_their_own_day(
    days: &mut DailyTrades,
    trade: &Trade,
    change: DayChange,
    closed: Option<CivilDate>,
)
    requires
        call_ensures(DailyTrades::write_trade, (days, trade), change),
        trade.well_formed(),
        call_ensures(DailyTrades::close, (*final(days),), closed),
    ensures
        old(days).open_day() is None ==> change.opened is Some && change.completed is None,
        change.opened is Some ==> change.opened->Some_0.number() == trade.mts as int / 86_400_000,
        closed is Some,
        closed->Some_0.number() == trade.mts as int / 86_400_000,
{
}

/// The checkpoint of a symbol is written beside the one that is read, under another name.
pub proof fn checkpoints_are_written_aside(
    symbol: String,
    symbol_name: String,
    store: CheckpointStore,
)
    requires
        call_ensures(CheckpointStore::new, (symbol, symbol_name), store),
    ensures
        store.symbol == symbol,
        store.symbol_name == symbol_name,
        store.file@ == ".checkpoint.json"@,
        store.tmp_file@ == ".checkpoint.json.tmp"@,
        store.file@ != store.tmp_file@,
{
    reveal_strlit(".checkpoint.json");
    reveal_strlit(".checkpoint.json.tmp");
    assert(".checkpoint.json"@.len() == 16 && ".checkpoint.json.tmp"@.len() == 20);
}

} // verus!
