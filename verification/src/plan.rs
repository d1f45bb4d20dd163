//! What the normalization of a day reads and writes.

use vstd::prelude::*;

use crate::calendar::CivilDate;
use crate::calendar::date_text;
use crate::order;
use crate::order::sort_texts;
use crate::paths;
use crate::paths::daily_stream_file_name;
use crate::paths::normalized_file_name;
use crate::paths::symbol_partition_name;
use crate::text;
use crate::text::joined3;
use crate::text::same_text;

verus! {

pub const DEFAULT_NORMALIZED_OUTPUT_DIR: &'static str = "/mnt/burner-archive/ws_normalized";

/// The day to normalize, and the roots of the raw and the normalized archive.
#[derive(Clone, Debug)]
pub struct NormalizeArgs {
    pub date: CivilDate,
    pub input_dir: String,
    pub output_dir: String,
}

/// The raw files of a symbol that exist for the day, by their channels.
#[derive(Clone, Debug)]
pub struct SymbolFiles {
    pub symbol: String,
    pub channels: Vec<String>,
}

impl SymbolFiles {
    /// There is a raw file of the channel.
    pub open spec fn has(self, channel: Seq<char>) -> bool {
        exists|i: int| 0 <= i < self.channels@.len() && (#[trigger] self.channels@[i])@ == channel
    }

    fn has_channel(&self, channel: &str) -> (yes: bool)
        ensures
            yes == self.has(channel@),
    {
        let mut i: usize = 0;
        while i < self.channels.len()
            invariant
                i <= self.channels@.len(),
                forall|j: int| 0 <= j < i ==> (#[trigger] self.channels@[j])@ != channel@,
            decreases self.channels@.len() - i,
        {
            if same_text(self.channels[i].as_str(), channel) {
                return true;
            }
            i = i + 1;
        }
        false
    }
}

/// The raw files of a day, by venue; Extended is recorded, but not normalized.
#[derive(Clone, Debug)]
pub struct RawArchive {
    pub deribit: Vec<SymbolFiles>,
    pub bitfinex: Vec<SymbolFiles>,
    pub hibachi: Vec<SymbolFiles>,
    pub hyperliquid: Vec<SymbolFiles>,
}

/// The venues that are normalized.
#[derive(Clone, Copy, Debug, PartialEq, Eq, Structural)]
pub enum NormalizedVenue {
    Deribit,
    Bitfinex,
    Hibachi,
    Hyperliquid,
}

/// The channels whose raw files the normalizer of a venue reads.
pub open spec fn venue_channels(venue: NormalizedVenue) -> Seq<Seq<char>> {
    match venue {
        NormalizedVenue::Deribit => seq![
            "control"@,
            "instrument_creation"@,
            "instrument_state"@,
            "incremental_ticker"@,
            "trades"@,
        ],
        NormalizedVenue::Bitfinex => seq!["book_l25"@, "trades"@],
        NormalizedVenue::Hibachi => seq!["market_data"@],
        NormalizedVenue::Hyperliquid => seq!["book"@, "trades"@, "control"@],
    }
}

/// The channels whose raw files the normalizer of a venue reads.
pub fn raw_channels(venue: NormalizedVenue) -> (channels: Vec<&'static str>)
    ensures
        channels@.map_values(|c: &'static str| c@) == venue_channels(venue),
{
    let channels: Vec<&'static str> = match venue {
        NormalizedVenue::Deribit => vec![
            "control",
            "instrument_creation",
            "instrument_state",
            "incremental_ticker",
            "trades",
        ],
        NormalizedVenue::Bitfinex => vec!["book_l25", "trades"],
        NormalizedVenue::Hibachi => vec!["market_data"],
        NormalizedVenue::Hyperliquid => vec!["book", "trades", "control"],
    };
    assert(channels@.map_values(|c: &'static str| c@) =~= venue_channels(venue));
    channels
}

/// One dataset to write: of which venue and symbol.
#[derive(Clone, Debug)]
pub struct NormalizeJob {
    pub venue: &'static str,
    pub symbol: String,
    pub dataset: &'static str,
}

/// What a job is.
pub ghost struct Job {
    pub venue: Seq<char>,
    pub symbol: Seq<char>,
    pub dataset: Seq<char>,
}

impl View for NormalizeJob {
    type V = Job;

    open spec fn view(&self) -> Job {
        Job { venue: self.venue@, symbol: self.symbol@, dataset: self.dataset@ }
    }
}

/// What the jobs of a list are.
pub open spec fn job_views(jobs: Seq<NormalizeJob>) -> Seq<Job> {
    jobs.map_values(|j: NormalizeJob| j@)
}

/// The job of a dataset where there is a raw file for it.
pub open spec fn job_if(wanted: bool, venue: Seq<char>, symbol: Seq<char>, dataset: Seq<char>) -> Seq<
    Job,
> {
    if wanted {
        seq![Job { venue, symbol, dataset }]
    } else {
        Seq::empty()
    }
}

/// The Deribit datasets of a symbol: instruments, tickers and trades where there is any raw file,
/// and the instrument states where there is one of these.
pub open spec fn deribit_jobs(files: SymbolFiles) -> Seq<Job> {
    let any = files.has("control"@) || files.has("instrument_creation"@) || files.has(
        "instrument_state"@,
    ) || files.has("incremental_ticker"@) || files.has("trades"@);
    job_if(any, "deribit"@, files.symbol@, "instruments"@) + job_if(
        any,
        "deribit"@,
        files.symbol@,
        "incremental_ticker"@,
    ) + job_if(any, "deribit"@, files.symbol@, "trades"@) + job_if(
        files.has("instrument_state"@),
        "deribit"@,
        files.symbol@,
        "instrument_state"@,
    )
}

/// The Bitfinex datasets of a symbol: one for each raw file.
pub open spec fn bitfinex_jobs(files: SymbolFiles) -> Seq<Job> {
    job_if(files.has("book_l25"@), "bitfinex"@, files.symbol@, "book_l25"@) + job_if(
        files.has("trades"@),
        "bitfinex"@,
        files.symbol@,
        "trades"@,
    )
}

/// The Hibachi datasets of a symbol: all five of the one raw file.
pub open spec fn hibachi_jobs(files: SymbolFiles) -> Seq<Job> {
    let any = files.has("market_data"@);
    job_if(any, "hibachi"@, files.symbol@, "trades"@) + job_if(
        any,
        "hibachi"@,
        files.symbol@,
        "orderbook"@,
    ) + job_if(any, "hibachi"@, files.symbol@, "quotes"@) + job_if(
        any,
        "hibachi"@,
        files.symbol@,
        "prices"@,
    ) + job_if(any, "hibachi"@, files.symbol@, "funding"@)
}

/// The Hyperliquid datasets of a symbol: one for each raw file.
pub open spec fn hyperliquid_jobs(files: SymbolFiles) -> Seq<Job> {
    job_if(files.has("book"@), "hyperliquid"@, files.symbol@, "book"@) + job_if(
        files.has("trades"@),
        "hyperliquid"@,
        files.symbol@,
        "trades"@,
    ) + job_if(files.has("control"@), "hyperliquid"@, files.symbol@, "control"@)
}

/// The datasets of a symbol of a venue.
pub open spec fn symbol_jobs(venue: NormalizedVenue, files: SymbolFiles) -> Seq<Job> {
    match venue {
        NormalizedVenue::Deribit => deribit_jobs(files),
        NormalizedVenue::Bitfinex => bitfinex_jobs(files),
        NormalizedVenue::Hibachi => hibachi_jobs(files),
        NormalizedVenue::Hyperliquid => hyperliquid_jobs(files),
    }
}

/// The datasets of the symbols of a venue, one symbol behind the other.
pub open spec fn venue_jobs(venue: NormalizedVenue, symbols: Seq<SymbolFiles>) -> Seq<Job>
    decreases symbols.len(),
{
    if symbols.len() == 0 {
        Seq::empty()
    } else {
        venue_jobs(venue, symbols.drop_last()) + symbol_jobs(venue, symbols.last())
    }
}

/// The datasets of a day.
pub open spec fn day_jobs(archive: RawArchive) -> Seq<Job> {
    venue_jobs(NormalizedVenue::Deribit, archive.deribit@) + venue_jobs(
        NormalizedVenue::Bitfinex,
        archive.bitfinex@,
    ) + venue_jobs(NormalizedVenue::Hibachi, archive.hibachi@) + venue_jobs(
        NormalizedVenue::Hyperliquid,
        archive.hyperliquid@,
    )
}

fn push_job_if(
    jobs: &mut Vec<NormalizeJob>,
    wanted: bool,
    venue: &'static str,
    symbol: &String,
    dataset: &'static str,
)
    ensures
        job_views(final(jobs)@) == job_views(old(jobs)@) + job_if(
            wanted,
            venue@,
            symbol@,
            dataset@,
        ),
{
    let ghost before = jobs@;
    if wanted {
        jobs.push(NormalizeJob { venue, symbol: symbol.clone(), dataset });
    }
    assert(job_views(jobs@) =~= job_views(before) + job_if(wanted, venue@, symbol@, dataset@));
}

fn push_symbol_jobs(jobs: &mut Vec<NormalizeJob>, venue: NormalizedVenue, files: &SymbolFiles)
    ensures
        job_views(final(jobs)@) == job_views(old(jobs)@) + symbol_jobs(venue, *files),
{
    let ghost before = job_views(jobs@);
    let symbol = &files.symbol;
    match venue {
        NormalizedVenue::Deribit => {
            let any = files.has_channel("control") || files.has_channel("instrument_creation")
                || files.has_channel("instrument_state") || files.has_channel(
                "incremental_ticker",
            ) || files.has_channel("trades");
            push_job_if(jobs, any, "deribit", symbol, "instruments");
            push_job_if(jobs, any, "deribit", symbol, "incremental_ticker");
            push_job_if(jobs, any, "deribit", symbol, "trades");
            let states = files.has_channel("instrument_state");
            push_job_if(jobs, states, "deribit", symbol, "instrument_state");
        },
        NormalizedVenue::Bitfinex => {
            let book = files.has_channel("book_l25");
            push_job_if(jobs, book, "bitfinex", symbol, "book_l25");
            let trades = files.has_channel("trades");
            push_job_if(jobs, trades, "bitfinex", symbol, "trades");
        },
        NormalizedVenue::Hibachi => {
            let any = files.has_channel("market_data");
            push_job_if(jobs, any, "hibachi", symbol, "trades");
            push_job_if(jobs, any, "hibachi", symbol, "orderbook");
            push_job_if(jobs, any, "hibachi", symbol, "quotes");
            push_job_if(jobs, any, "hibachi", symbol, "prices");
            push_job_if(jobs, any, "hibachi", symbol, "funding");
        },
        NormalizedVenue::Hyperliquid => {
            let book = files.has_channel("book");
            push_job_if(jobs, book, "hyperliquid", symbol, "book");
            let trades = files.has_channel("trades");
            push_job_if(jobs, trades, "hyperliquid", symbol, "trades");
            let control = files.has_channel("control");
            push_job_if(jobs, control, "hyperliquid", symbol, "control");
        },
    }
    assert(job_views(jobs@) =~= before + symbol_jobs(venue, *files));
}

fn normalize_venue_day(venue: NormalizedVenue, symbols: &Vec<SymbolFiles>) -> (jobs: Vec<
    NormalizeJob,
>)
    ensures
        job_views(jobs@) == venue_jobs(venue, symbols@),
{
    let mut jobs: Vec<NormalizeJob> = Vec::new();
    assert(job_views(jobs@) =~= venue_jobs(venue, symbols@.take(0)));
    let mut i: usize = 0;
    while i < symbols.len()
        invariant
            i <= symbols@.len(),
            job_views(jobs@) == venue_jobs(venue, symbols@.take(i as int)),
        decreases symbols@.len() - i,
    {
        push_symbol_jobs(&mut jobs, venue, &symbols[i]);
        assert(symbols@.take(i + 1).drop_last() =~= symbols@.take(i as int));
        i = i + 1;
    }
    assert(symbols@.take(i as int) =~= symbols@);
    jobs
}

/// The Deribit datasets of a day.
pub fn normalize_deribit_day(symbols: &Vec<SymbolFiles>) -> (jobs: Vec<NormalizeJob>)
    ensures
        job_views(jobs@) == venue_jobs(NormalizedVenue::Deribit, symbols@),
{
    normalize_venue_day(NormalizedVenue::Deribit, symbols)
}

/// The Bitfinex datasets of a day.
pub fn normalize_bitfinex_day(symbols: &Vec<SymbolFiles>) -> (jobs: Vec<NormalizeJob>)
    ensures
        job_views(jobs@) == venue_jobs(NormalizedVenue::Bitfinex, symbols@),
{
    normalize_venue_day(NormalizedVenue::Bitfinex, symbols)
}

/// The Hibachi datasets of a day.
pub fn normalize_hibachi_day(symbols: &Vec<SymbolFiles>) -> (jobs: Vec<NormalizeJob>)
    ensures
        job_views(jobs@) == venue_jobs(NormalizedVenue::Hibachi, symbols@),
{
    normalize_venue_day(NormalizedVenue::Hibachi, symbols)
}

/// The Hyperliquid datasets of a day.
pub fn normalize_hyperliquid_day(symbols: &Vec<SymbolFiles>) -> (jobs: Vec<NormalizeJob>)
    ensures
        job_views(jobs@) == venue_jobs(NormalizedVenue::Hyperliquid, symbols@),
{
    normalize_venue_day(NormalizedVenue::Hyperliquid, symbols)
}

fn append_jobs(jobs: &mut Vec<NormalizeJob>, more: Vec<NormalizeJob>)
    ensures
        job_views(final(jobs)@) == job_views(old(jobs)@) + job_views(more@),
{
    let ghost before = jobs@;
    let ghost added = more@;
    let mut rest = more;
    jobs.append(&mut rest);
    assert(job_views(jobs@) =~= job_views(before) + job_views(added));
}

/// What is reported where there is nothing to normalize.
pub open spec fn nothing_to_normalize(date: CivilDate, input_dir: Seq<char>) -> Seq<char> {
    "no supported non-Extended raw files found for "@ + date.iso() + " under "@ + input_dir
}

/// Plans the normalization of a day: the datasets of Deribit, Bitfinex, Hibachi and Hyperliquid, in
/// this order; an error where there is none.
pub fn run_normalize_cli(args: &NormalizeArgs, archive: &RawArchive) -> (r: Result<
    Vec<NormalizeJob>,
    String,
>)
    requires
        args.date.valid(),
    ensures
        match r {
            Ok(jobs) => job_views(jobs@) == day_jobs(*archive) && jobs@.len() > 0,
            Err(error) => day_jobs(*archive).len() == 0 && error@ == nothing_to_normalize(
                args.date,
                args.input_dir@,
            ),
        },
{
    let mut jobs = normalize_deribit_day(&archive.deribit);
    append_jobs(&mut jobs, normalize_bitfinex_day(&archive.bitfinex));
    append_jobs(&mut jobs, normalize_hibachi_day(&archive.hibachi));
    append_jobs(&mut jobs, normalize_hyperliquid_day(&archive.hyperliquid));
    assert(job_views(jobs@).len() == jobs@.len());
    if jobs.len() == 0 {
        let mut report = joined3(
            "no supported non-Extended raw files found for ",
            date_text(args.date).as_str(),
            " under ",
        );
        report.append(args.input_dir.as_str());
        return Err(report);
    }
    Ok(jobs)
}

/// The symbols of a venue, in order.
pub fn venue_symbol_dirs(names: Vec<String>) -> (sorted: Vec<String>)
    ensures
        order::in_text_order(text::texts(sorted@)),
        text::texts(sorted@).to_multiset() == text::texts(names@).to_multiset(),
{
    sort_texts(names)
}

/// Where a raw file lies below the directory of its symbol: the channel's directory and the name
/// of the file.
pub fn raw_channel_file_path(symbol_name: &str, channel: &str, date: CivilDate) -> (r: Result<
    (String, String),
    String,
>)
    requires
        date.valid(),
    ensures
        r is Ok <==> channel@.len() > 0,
        r is Ok ==> r->Ok_0.0@ == paths::partition_name(channel@) && r->Ok_0.1@
            == paths::raw_file_name(symbol_name@, paths::partition_name(channel@), date),
        r is Err ==> r->Err_0@ == "symbol cannot be empty after path normalization"@,
{
    match symbol_partition_name(channel) {
        Ok(channel_name) => {
            let file = daily_stream_file_name(symbol_name, channel_name.as_str(), date);
            Ok((channel_name, file))
        },
        Err(error) => Err(error),
    }
}

/// Where the rows of a job are written below the output root: venue, symbol, dataset and the name
/// of the file.
pub fn normalized_parquet_path(job: &NormalizeJob, date: CivilDate) -> (segments: Vec<String>)
    requires
        date.valid(),
    ensures
        text::texts(segments@) == seq![
            job@.venue,
            job@.symbol,
            job@.dataset,
            paths::dataset_file_name(job@.symbol, job@.dataset, date),
        ],
{
    let segments: Vec<String> = vec![
        job.venue.to_owned(),
        job.symbol.clone(),
        job.dataset.to_owned(),
        normalized_file_name(job.symbol.as_str(), job.dataset, date),
    ];
    assert(text::texts(segments@) =~= seq![
        job@.venue,
        job@.symbol,
        job@.dataset,
        paths::dataset_file_name(job@.symbol, job@.dataset, date),
    ]);
    segments
}

/// The raw channel whose messages become the rows of a job: Hibachi has one for all its datasets,
/// elsewhere a dataset is named like its channel. The instruments of Deribit are the exception:
/// they are collected from other channels.
pub fn source_channel(job: &NormalizeJob) -> (channel: &'static str)
    ensures
        channel@ == if job@.venue == "hibachi"@ {
            "market_data"@
        } else {
            job@.dataset
        },
{
    if same_text(job.venue, "hibachi") {
        "market_data"
    } else {
        job.dataset
    }
}

/// A symbol has a raw file that the normalizer of the venue reads.
pub open spec fn has_supported_file(venue: NormalizedVenue, files: SymbolFiles) -> bool {
    exists|c: int|
        0 <= c < venue_channels(venue).len() && files.has(#[trigger] venue_channels(venue)[c])
}

proof fn lemma_symbol_jobs(venue: NormalizedVenue, files: SymbolFiles)
    ensures
        symbol_jobs(venue, files).len() > 0 <==> has_supported_file(venue, files),
{
    let channels = venue_channels(venue);
    match venue {
        NormalizedVenue::Deribit => {
            assert(channels[0] == "control"@ && channels[1] == "instrument_creation"@
                && channels[2] == "instrument_state"@ && channels[3] == "incremental_ticker"@
                && channels[4] == "trades"@);
        },
        NormalizedVenue::Bitfinex => {
            assert(channels[0] == "book_l25"@ && channels[1] == "trades"@);
        },
        NormalizedVenue::Hibachi => {
            assert(channels[0] == "market_data"@);
        },
        NormalizedVenue::Hyperliquid => {
            assert(channels[0] == "book"@ && channels[1] == "trades"@ && channels[2]
                == "control"@);
        },
    }
}

/// Some symbol of a venue has a raw file that its normalizer reads.
pub open spec fn venue_has_file(venue: NormalizedVenue, symbols: Seq<SymbolFiles>) -> bool {
    exists|i: int| 0 <= i < symbols.len() && has_supported_file(venue, #[trigger] symbols[i])
}

proof fn lemma_venue_jobs(venue: NormalizedVenue, symbols: Seq<SymbolFiles>)
    ensures
        venue_jobs(venue, symbols).len() > 0 <==> venue_has_file(venue, symbols),
    decreases symbols.len(),
{
    if symbols.len() > 0 {
        let front = symbols.drop_last();
        lemma_venue_jobs(venue, front);
        lemma_symbol_jobs(venue, symbols.last());
        if venue_has_file(venue, symbols) {
            let i = choose|i: int|
                0 <= i < symbols.len() && has_supported_file(venue, #[trigger] symbols[i]);
            if i < front.len() {
                assert(front[i] == symbols[i]);
            }
        }
        if venue_has_file(venue, front) {
            let i = choose|i: int|
                0 <= i < front.len() && has_supported_file(venue, #[trigger] front[i]);
            assert(symbols[i] == front[i]);
        }
        if has_supported_file(venue, symbols.last()) {
            assert(has_supported_file(venue, symbols[symbols.len() - 1]));
        }
    }
}

/// There is something to normalize just where there is a raw file of a supported channel.
pub proof fn a_day_is_normalized_where_files_exist(archive: RawArchive)
    ensures
        day_jobs(archive).len() > 0 <==> {
            ||| venue_has_file(NormalizedVenue::Deribit, archive.deribit@)
            ||| venue_has_file(NormalizedVenue::Bitfinex, archive.bitfinex@)
            ||| venue_has_file(NormalizedVenue::Hibachi, archive.hibachi@)
            ||| venue_has_file(NormalizedVenue::Hyperliquid, archive.hyperliquid@)
        },
{
    lemma_venue_jobs(NormalizedVenue::Deribit, archive.deribit@);
    lemma_venue_jobs(NormalizedVenue::Bitfinex, archive.bitfinex@);
    lemma_venue_jobs(NormalizedVenue::Hibachi, archive.hibachi@);
    lemma_venue_jobs(NormalizedVenue::Hyperliquid, archive.hyperliquid@);
}

} // verus!
