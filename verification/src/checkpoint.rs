//! Daily trade files and the checkpoint behind the last completed day.

use vstd::prelude::*;

use crate::calendar;
use crate::calendar::CivilDate;
use crate::calendar::UtcTime;
use crate::calendar::date_text;
use crate::history::HistoryArgs;
use crate::text;
use crate::text::joined3;
use crate::text::same_text;
use crate::trade_order;
use crate::trades::Trade;

verus! {

pub const CHECKPOINT_FILE: &'static str = ".checkpoint.json";

pub const CHECKPOINT_TMP_FILE: &'static str = ".checkpoint.json.tmp";

pub const CHECKPOINT_VERSION: u8 = 1;

/// The last trade of a day.
#[derive(Clone, Copy, Debug, PartialEq, Eq, Structural)]
pub struct CheckpointTrade {
    pub mts: i64,
    pub id: i64,
}

/// How far a pull has come: every day up to `last_completed_date` is on disk.
#[derive(Clone, Debug)]
pub struct Checkpoint {
    pub version: u8,
    pub exchange: String,
    pub symbol: String,
    pub symbol_partition: String,
    pub last_completed_date: String,
    pub last_trade_mts: i64,
    pub last_trade_id: i64,
    pub next_start_mts: i64,
    pub updated_at: String,
}

/// What is wrong with a checkpoint that is to be used for a symbol.
pub open spec fn checkpoint_error(
    checkpoint: Checkpoint,
    symbol: Seq<char>,
    symbol_name: Seq<char>,
) -> Option<Seq<char>> {
    if checkpoint.version != CHECKPOINT_VERSION {
        Some(
            "unsupported checkpoint version "@ + text::nat_text(checkpoint.version as nat) + " in "@
                + CHECKPOINT_FILE@,
        )
    } else if checkpoint.exchange@ != "bitfinex"@ {
        Some("checkpoint exchange mismatch: "@ + checkpoint.exchange@)
    } else if checkpoint.symbol@ != symbol {
        Some("checkpoint symbol mismatch: "@ + checkpoint.symbol@ + " != "@ + symbol)
    } else if checkpoint.symbol_partition@ != symbol_name {
        Some(
            "checkpoint symbol partition mismatch: "@ + checkpoint.symbol_partition@ + " != "@
                + symbol_name,
        )
    } else if checkpoint.next_start_mts <= checkpoint.last_trade_mts {
        Some("checkpoint next_start_mts must be after last_trade_mts"@)
    } else {
        None
    }
}

impl Checkpoint {
    /// The checkpoint behind a completed day; there is none where no millisecond follows the last
    /// trade.
    pub fn new(
        symbol: &str,
        symbol_name: &str,
        completed_date: CivilDate,
        last_trade: CheckpointTrade,
        now: &UtcTime,
    ) -> (r: Result<Checkpoint, String>)
        requires
            completed_date.valid(),
        ensures
            r is Ok <==> last_trade.mts < i64::MAX,
            r is Err ==> r->Err_0@ == "checkpoint timestamp overflow"@,
            r is Ok ==> {
                let checkpoint = r->Ok_0;
                &&& checkpoint.version == CHECKPOINT_VERSION
                &&& checkpoint.exchange@ == "bitfinex"@
                &&& checkpoint.symbol@ == symbol@
                &&& checkpoint.symbol_partition@ == symbol_name@
                &&& checkpoint.last_completed_date@ == completed_date.iso()
                &&& checkpoint.last_trade_mts == last_trade.mts
                &&& checkpoint.last_trade_id == last_trade.id
                &&& checkpoint.next_start_mts == last_trade.mts + 1
                &&& checkpoint.updated_at@ == calendar::secs_text(now.millis() as int)
                &&& checkpoint_error(checkpoint, symbol@, symbol_name@) is None
            },
    {
        if last_trade.mts == i64::MAX {
            return Err("checkpoint timestamp overflow".to_owned());
        }
        Ok(
            Checkpoint {
                version: CHECKPOINT_VERSION,
                exchange: "bitfinex".to_owned(),
                symbol: symbol.to_owned(),
                symbol_partition: symbol_name.to_owned(),
                last_completed_date: date_text(completed_date),
                last_trade_mts: last_trade.mts,
                last_trade_id: last_trade.id,
                next_start_mts: last_trade.mts + 1,
                updated_at: now.secs_text(),
            },
        )
    }

    /// Checks that a checkpoint belongs to a symbol and points behind its last trade.
    pub fn validate(&self, symbol: &str, symbol_name: &str) -> (r: Result<(), String>)
        ensures
            match checkpoint_error(*self, symbol@, symbol_name@) {
                None => r is Ok,
                Some(error) => r is Err && r->Err_0@ == error,
            },
    {
        if self.version != CHECKPOINT_VERSION {
            let mut report = joined3(
                "unsupported checkpoint version ",
                text::u64_text(self.version as u64).as_str(),
                " in ",
            );
            report.append(CHECKPOINT_FILE);
            return Err(report);
        }
        if !same_text(self.exchange.as_str(), "bitfinex") {
            let mut report = "checkpoint exchange mismatch: ".to_owned();
            report.append(self.exchange.as_str());
            return Err(report);
        }
        if !same_text(self.symbol.as_str(), symbol) {
            let mut report = joined3(
                "checkpoint symbol mismatch: ",
                self.symbol.as_str(),
                " != ",
            );
            report.append(symbol);
            return Err(report);
        }
        if !same_text(self.symbol_partition.as_str(), symbol_name) {
            let mut report = joined3(
                "checkpoint symbol partition mismatch: ",
                self.symbol_partition.as_str(),
                " != ",
            );
            report.append(symbol_name);
            return Err(report);
        }
        if self.next_start_mts <= self.last_trade_mts {
            return Err("checkpoint next_start_mts must be after last_trade_mts".to_owned());
        }
        Ok(())
    }
}

/// Where a pull starts: at the later of the wanted start and the checkpoint.
pub open spec fn resolved_start(start: Option<i64>, next_start: Option<i64>) -> Option<i64> {
    match (start, next_start) {
        (Some(a), Some(b)) => Some(
            if a < b {
                b
            } else {
                a
            },
        ),
        (None, Some(b)) => Some(b),
        (a, None) => a,
    }
}

/// The start that a checkpoint gives.
pub open spec fn next_start(checkpoint: Option<&Checkpoint>) -> Option<i64> {
    match checkpoint {
        Some(c) => Some(c.next_start_mts),
        None => None,
    }
}

/// Where a pull starts: at the later of the wanted start and the checkpoint.
pub fn resolve_start(cli_start: Option<i64>, checkpoint: Option<&Checkpoint>) -> (start: Option<
    i64,
>)
    ensures
        start == resolved_start(cli_start, next_start(checkpoint)),
{
    match (cli_start, checkpoint) {
        (Some(start), Some(c)) => Some(
            if start < c.next_start_mts {
                c.next_start_mts
            } else {
                start
            },
        ),
        (None, Some(c)) => Some(c.next_start_mts),
        (start, None) => start,
    }
}

/// How a pull proceeds.
#[derive(Clone, Copy, Debug, PartialEq, Eq, Structural)]
pub enum HistoryPlan {
    /// Page forward from the start.
    Forward(i64),
    /// The start is behind the end: there is nothing to pull.
    Nothing(i64),
    /// Fetch the most recent page.
    Recent,
}

/// How a pull proceeds from its wanted start and end and the start that a checkpoint gives.
pub open spec fn plan_for(
    start: Option<i64>,
    end: Option<i64>,
    next_start: Option<i64>,
) -> HistoryPlan {
    match resolved_start(start, next_start) {
        None => HistoryPlan::Recent,
        Some(first) => if end is Some && first > end->Some_0 {
            HistoryPlan::Nothing(first)
        } else {
            HistoryPlan::Forward(first)
        },
    }
}

/// Decides how a pull proceeds.
pub fn history_plan(
    cli_start: Option<i64>,
    end: Option<i64>,
    checkpoint: Option<&Checkpoint>,
) -> (plan: HistoryPlan)
    ensures
        plan == plan_for(cli_start, end, next_start(checkpoint)),
{
    match resolve_start(cli_start, checkpoint) {
        None => HistoryPlan::Recent,
        Some(start) => match end {
            Some(last) => if start > last {
                HistoryPlan::Nothing(start)
            } else {
                HistoryPlan::Forward(start)
            },
            None => HistoryPlan::Forward(start),
        },
    }
}

/// Decides how a pull proceeds by its arguments: from the wanted start alone where the checkpoint is
/// to be ignored, else from the later of the wanted start and the checkpoint.
pub fn planned_start(args: &HistoryArgs, checkpoint: Option<&Checkpoint>) -> (plan: HistoryPlan)
    ensures
        args.ignore_checkpoint ==> plan == plan_for(args.start, args.end, None),
        !args.ignore_checkpoint ==> plan == plan_for(args.start, args.end, next_start(checkpoint)),
{
    if args.ignore_checkpoint {
        history_plan(args.start, args.end, None)
    } else {
        history_plan(args.start, args.end, checkpoint)
    }
}

/// Names of the checkpoint's files, and whose checkpoint it is.
#[derive(Debug)]
pub struct CheckpointStore {
    pub file: &'static str,
    pub tmp_file: &'static str,
    pub symbol: String,
    pub symbol_name: String,
}

impl CheckpointStore {
    /// The checkpoint of a symbol.
    pub fn new(symbol: String, symbol_name: String) -> (store: CheckpointStore)
        ensures
            store.file@ == CHECKPOINT_FILE@,
            store.tmp_file@ == CHECKPOINT_TMP_FILE@,
            store.symbol == symbol,
            store.symbol_name == symbol_name,
    {
        CheckpointStore {
            file: CHECKPOINT_FILE,
            tmp_file: CHECKPOINT_TMP_FILE,
            symbol,
            symbol_name,
        }
    }
}

/// A day of which trades are being written, and the last of them.
pub ghost struct OpenDay {
    pub date: CivilDate,
    pub last_trade: CheckpointTrade,
}

/// The day that is being written.
#[derive(Debug)]
pub struct DailyTrades {
    current: Option<(CivilDate, CheckpointTrade)>,
}

/// What writing a trade asks for, before the trade itself is written.
#[derive(Debug)]
pub struct DayChange {
    /// The day whose file is closed and whose checkpoint is saved.
    pub completed: Option<(CivilDate, CheckpointTrade)>,
    /// The day whose file is opened.
    pub opened: Option<CivilDate>,
}

/// The UTC day of an instant.
pub open spec fn date_of(mts: i64) -> CivilDate {
    calendar::civil_date(calendar::day_of(mts as int))
}

impl DailyTrades {
    #[verifier::type_invariant]
    spec fn well_formed(self) -> bool {
        self.current is Some ==> self.current->Some_0.0.valid()
    }

    /// The day that is being written.
    pub closed spec fn open_day(self) -> Option<OpenDay> {
        match self.current {
            Some((date, last_trade)) => Some(OpenDay { date, last_trade }),
            None => None,
        }
    }

    /// No day is being written.
    pub fn new() -> (days: DailyTrades)
        ensures
            days.open_day() is None,
    {
        DailyTrades { current: None }
    }

    /// A trade is written: where it falls on another day than the one that is being written, that
    /// day is completed and a file for the trade's day is opened.
    pub fn write_trade(&mut self, trade: &Trade) -> (change: DayChange)
        requires
            trade.well_formed(),
        ensures
            final(self).open_day() == Some(
                OpenDay {
                    date: date_of(trade.mts),
                    last_trade: CheckpointTrade { mts: trade.mts, id: trade.id },
                },
            ),
            change.completed == match old(self).open_day() {
                Some(day) => if day.date != date_of(trade.mts) {
                    Some((day.date, day.last_trade))
                } else {
                    None
                },
                None => None,
            },
            change.completed is Some ==> change.completed->Some_0.0.valid(),
            change.opened == match old(self).open_day() {
                Some(day) => if day.date != date_of(trade.mts) {
                    Some(date_of(trade.mts))
                } else {
                    None
                },
                None => Some(date_of(trade.mts)),
            },
            date_of(trade.mts).valid(),
            date_of(trade.mts).number() == calendar::day_of(trade.mts as int),
    {
        proof {
            use_type_invariant(&*self);
        }
        let date = trade.timestamp.date();
        let last_trade = CheckpointTrade { mts: trade.mts, id: trade.id };
        let before = self.current;
        self.current = Some((date, last_trade));
        match before {
            Some((day, last)) => if day == date {
                DayChange { completed: None, opened: None }
            } else {
                DayChange { completed: Some((day, last)), opened: Some(date) }
            },
            None => DayChange { completed: None, opened: Some(date) },
        }
    }

    /// The pull is over: the file of the day that is being written is closed, without a
    /// checkpoint, as more of its trades may follow.
    pub fn close(self) -> (day: Option<CivilDate>)
        ensures
            day == match self.open_day() {
                Some(d) => Some(d.date),
                None => None,
            },
    {
        match self.current {
            Some((date, _)) => Some(date),
            None => None,
        }
    }
}

/// Resuming behind a completed day loses no trade and repeats none: of trades in time order, where
/// the day changes behind trade `k`, just the trades up to `k` lie before the start that the
/// checkpoint of that day gives.
pub proof fn resuming_splits_at_the_day(trades: Seq<Trade>, k: int, wanted: Option<i64>)
    requires
        trade_order::in_time_order(trades),
        0 <= k < trades.len() - 1,
        date_of(trades[k].mts) != date_of(trades[k + 1].mts),
        wanted is Some ==> wanted->Some_0 <= trades[k].mts + 1,
    ensures
        resolved_start(wanted, Some((trades[k].mts + 1) as i64)) == Some(
            (trades[k].mts + 1) as i64,
        ),
        forall|i: int| 0 <= i <= k ==> (#[trigger] trades[i]).mts < trades[k].mts + 1,
        forall|i: int|
            k < i < trades.len() ==> (#[trigger] trades[i]).mts >= trades[k].mts + 1,
{
    assert(!trade_order::earlier(trades[k + 1], trades[k]));
    assert forall|i: int| 0 <= i <= k implies (#[trigger] trades[i]).mts < trades[k].mts + 1 by {
        if i < k {
            assert(!trade_order::earlier(trades[k], trades[i]));
        }
    }
    assert forall|i: int| k < i < trades.len() implies (#[trigger] trades[i]).mts >= trades[k].mts
        + 1 by {
        if i > k + 1 {
            assert(!trade_order::earlier(trades[i], trades[k + 1]));
        }
    }
}

} // verus!
