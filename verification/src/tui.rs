//! The menu of the recorder: venues, settings, commands, and the command line they give.

use vstd::prelude::*;

use crate::text;
use crate::text::joined3;
use crate::text::same_text;

verus! {

/// The venues of the menu.
#[derive(Clone, Copy, Debug, PartialEq, Eq, Structural)]
pub enum VenueId {
    Bitfinex,
    Extended,
    Hibachi,
    Deribit,
    Hyperliquid,
}

impl VenueId {
    pub open spec fn cli_text(self) -> Seq<char> {
        match self {
            VenueId::Bitfinex => "bitfinex"@,
            VenueId::Extended => "extended"@,
            VenueId::Hibachi => "hibachi"@,
            VenueId::Deribit => "deribit"@,
            VenueId::Hyperliquid => "hyperliquid"@,
        }
    }

    pub open spec fn title(self) -> Seq<char> {
        match self {
            VenueId::Bitfinex => "Bitfinex"@,
            VenueId::Extended => "Extended"@,
            VenueId::Hibachi => "Hibachi"@,
            VenueId::Deribit => "Deribit"@,
            VenueId::Hyperliquid => "Hyperliquid"@,
        }
    }

    /// The venue as the command line names it.
    pub fn cli_value(self) -> (value: &'static str)
        ensures
            value@ == self.cli_text(),
    {
        match self {
            VenueId::Bitfinex => "bitfinex",
            VenueId::Extended => "extended",
            VenueId::Hibachi => "hibachi",
            VenueId::Deribit => "deribit",
            VenueId::Hyperliquid => "hyperliquid",
        }
    }

    /// The venue as the menu names it.
    pub fn name(self) -> (value: &'static str)
        ensures
            value@ == self.title(),
    {
        match self {
            VenueId::Bitfinex => "Bitfinex",
            VenueId::Extended => "Extended",
            VenueId::Hibachi => "Hibachi",
            VenueId::Deribit => "Deribit",
            VenueId::Hyperliquid => "Hyperliquid",
        }
    }
}

/// A venue of the menu, and whether it is recorded.
#[derive(Clone, Copy, Debug, PartialEq, Eq, Structural)]
pub struct VenueSelection {
    pub id: VenueId,
    pub enabled: bool,
}

/// The settings of the menu.
#[derive(Clone, Debug)]
pub struct TuiState {
    pub output_dir: String,
    pub bitfinex_symbol: String,
    pub extended_market: String,
    pub extended_spot_market: String,
    pub hibachi_symbol: String,
    pub deribit_currency: String,
    pub hyperliquid_spot_coin: String,
    pub heartbeat_secs: u64,
    pub progress_every: usize,
    pub venues: Vec<VenueSelection>,
}

/// The venues of a menu in its order, with whether each is recorded.
pub open spec fn selection(enabled: Seq<bool>) -> Seq<VenueSelection> {
    seq![
        VenueSelection { id: VenueId::Bitfinex, enabled: enabled[0] },
        VenueSelection { id: VenueId::Extended, enabled: enabled[1] },
        VenueSelection { id: VenueId::Hibachi, enabled: enabled[2] },
        VenueSelection { id: VenueId::Deribit, enabled: enabled[3] },
        VenueSelection { id: VenueId::Hyperliquid, enabled: enabled[4] },
    ]
}

impl TuiState {
    /// The menu holds each venue once, in its place.
    pub open spec fn well_formed(self) -> bool {
        self.venues@ == selection(self.venues@.map_values(|v: VenueSelection| v.enabled))
    }

    /// The settings but for the venues are as before.
    pub open spec fn only_venues_changed(self, before: TuiState) -> bool {
        &&& self.output_dir == before.output_dir
        &&& self.bitfinex_symbol == before.bitfinex_symbol
        &&& self.extended_market == before.extended_market
        &&& self.extended_spot_market == before.extended_spot_market
        &&& self.hibachi_symbol == before.hibachi_symbol
        &&& self.deribit_currency == before.deribit_currency
        &&& self.hyperliquid_spot_coin == before.hyperliquid_spot_coin
        &&& self.heartbeat_secs == before.heartbeat_secs
        &&& self.progress_every == before.progress_every
    }
}

impl Default for TuiState {
    fn default() -> (state: TuiState)
        ensures
            state.well_formed(),
            state.output_dir@ == "/mnt/burner-archive/ws_raw"@,
            state.bitfinex_symbol@ == "tBTCUSD"@,
            state.extended_market@ == "BTC-USD"@,
            state.extended_spot_market@ == "BTCSPOT-USD"@,
            state.hibachi_symbol@ == "BTC/USDT-P"@,
            state.deribit_currency@ == "BTC"@,
            state.hyperliquid_spot_coin@ == ""@,
            state.heartbeat_secs == 20,
            state.progress_every == 100,
            state.venues@ == selection(seq![true, false, false, true, true]),
    {
        let venues: Vec<VenueSelection> = vec![
            VenueSelection { id: VenueId::Bitfinex, enabled: true },
            VenueSelection { id: VenueId::Extended, enabled: false },
            VenueSelection { id: VenueId::Hibachi, enabled: false },
            VenueSelection { id: VenueId::Deribit, enabled: true },
            VenueSelection { id: VenueId::Hyperliquid, enabled: true },
        ];
        assert(venues@ =~= selection(seq![true, false, false, true, true]));
        assert(venues@ =~= selection(venues@.map_values(|v: VenueSelection| v.enabled)));
        TuiState {
            output_dir: "/mnt/burner-archive/ws_raw".to_owned(),
            bitfinex_symbol: "tBTCUSD".to_owned(),
            extended_market: "BTC-USD".to_owned(),
            extended_spot_market: "BTCSPOT-USD".to_owned(),
            hibachi_symbol: "BTC/USDT-P".to_owned(),
            deribit_currency: "BTC".to_owned(),
            hyperliquid_spot_coin: "".to_owned(),
            heartbeat_secs: 20,
            progress_every: 100,
            venues,
        }
    }
}

impl TuiState {
    /// What the menu says of a venue.
    pub open spec fn detail(self, venue: VenueId) -> Seq<char> {
        match venue {
            VenueId::Bitfinex => "symbol="@ + self.bitfinex_symbol@,
            VenueId::Extended => "perp="@ + self.extended_market@ + " spot="@
                + self.extended_spot_market@,
            VenueId::Hibachi => "symbol="@ + self.hibachi_symbol@,
            VenueId::Deribit => "currency="@ + self.deribit_currency@,
            VenueId::Hyperliquid => if text::trimmed(self.hyperliquid_spot_coin@).len() == 0 {
                "spot=auto BTC/USDC"@
            } else {
                "spot_coin="@ + self.hyperliquid_spot_coin@
            },
        }
    }

    /// What the menu says of a venue.
    pub fn venue_detail(&self, venue: VenueId) -> (line: String)
        ensures
            line@ == self.detail(venue),
    {
        match venue {
            VenueId::Bitfinex => {
                let mut line = "symbol=".to_owned();
                line.append(self.bitfinex_symbol.as_str());
                line
            },
            VenueId::Extended => {
                let mut line = joined3("perp=", self.extended_market.as_str(), " spot=");
                line.append(self.extended_spot_market.as_str());
                line
            },
            VenueId::Hibachi => {
                let mut line = "symbol=".to_owned();
                line.append(self.hibachi_symbol.as_str());
                line
            },
            VenueId::Deribit => {
                let mut line = "currency=".to_owned();
                line.append(self.deribit_currency.as_str());
                line
            },
            VenueId::Hyperliquid => {
                let coin = self.hyperliquid_spot_coin.as_str();
                if text::is_empty_text(text::trim(coin).as_str()) {
                    "spot=auto BTC/USDC".to_owned()
                } else {
                    let mut line = "spot_coin=".to_owned();
                    line.append(coin);
                    line
                }
            },
        }
    }

    /// Switches a venue on or off; a position outside the menu changes nothing.
    pub fn toggle_venue(&mut self, menu_index: usize)
        requires
            old(self).well_formed(),
        ensures
            final(self).well_formed(),
            final(self).only_venues_changed(*old(self)),
            final(self).venues@ == if menu_index < 5 {
                let venue = old(self).venues@[menu_index as int];
                old(self).venues@.update(
                    menu_index as int,
                    VenueSelection { id: venue.id, enabled: !venue.enabled },
                )
            } else {
                old(self).venues@
            },
    {
        if menu_index < self.venues.len() {
            let venue = self.venues[menu_index];
            self.venues[menu_index] = VenueSelection { id: venue.id, enabled: !venue.enabled };
        }
        assert(self.venues@ =~= selection(
            self.venues@.map_values(|v: VenueSelection| v.enabled),
        ));
    }

    /// Switches every venue on, or every venue off.
    pub fn set_all_venues(&mut self, enabled: bool)
        requires
            old(self).well_formed(),
        ensures
            final(self).well_formed(),
            final(self).only_venues_changed(*old(self)),
            final(self).venues@ == selection(seq![enabled, enabled, enabled, enabled, enabled]),
    {
        let ghost before = *self;
        let mut i: usize = 0;
        while i < self.venues.len()
            invariant
                i <= self.venues@.len(),
                before.well_formed(),
                self.only_venues_changed(before),
                self.venues@.len() == before.venues@.len(),
                forall|j: int|
                    0 <= j < i ==> #[trigger] self.venues@[j] == (VenueSelection {
                        id: before.venues@[j].id,
                        enabled,
                    }),
                forall|j: int|
                    i <= j < self.venues@.len() ==> #[trigger] self.venues@[j] == before.venues@[j],
            decreases self.venues@.len() - i,
        {
            let id = self.venues[i].id;
            self.venues[i] = VenueSelection { id, enabled };
            i = i + 1;
        }
        assert(self.venues@ =~= selection(seq![enabled, enabled, enabled, enabled, enabled]));
        assert(self.venues@ =~= selection(
            self.venues@.map_values(|v: VenueSelection| v.enabled),
        ));
    }

    /// The venues that are recorded, in the order of the menu.
    pub fn enabled_venues(&self) -> (ids: Vec<VenueId>)
        ensures
            ids@ == recorded(self.venues@),
    {
        let mut ids: Vec<VenueId> = Vec::new();
        let mut i: usize = 0;
        while i < self.venues.len()
            invariant
                i <= self.venues@.len(),
                ids@ == recorded(self.venues@.take(i as int)),
            decreases self.venues@.len() - i,
        {
            assert(self.venues@.take(i + 1).drop_last() =~= self.venues@.take(i as int));
            if self.venues[i].enabled {
                ids.push(self.venues[i].id);
            }
            i = i + 1;
        }
        assert(self.venues@.take(i as int) =~= self.venues@);
        ids
    }
}

/// The venues of a list that are recorded.
pub open spec fn recorded(venues: Seq<VenueSelection>) -> Seq<VenueId>
    decreases venues.len(),
{
    if venues.len() == 0 {
        Seq::empty()
    } else {
        let front = recorded(venues.drop_last());
        if venues.last().enabled {
            front.push(venues.last().id)
        } else {
            front
        }
    }
}

/// The names of venues as the command line takes them.
pub open spec fn cli_texts(ids: Seq<VenueId>) -> Seq<Seq<char>> {
    ids.map_values(|id: VenueId| id.cli_text())
}

/// The arguments with which the recorder is started.
pub open spec fn recorder_arguments(state: TuiState) -> Seq<Seq<char>> {
    let coin = text::trimmed(state.hyperliquid_spot_coin@);
    seq![
        "stream"@,
        "--venue"@,
        text::join(cli_texts(recorded(state.venues@)), ","@),
        "--output-dir"@,
        state.output_dir@,
        "--bitfinex-symbol"@,
        state.bitfinex_symbol@,
        "--extended-market"@,
        state.extended_market@,
        "--extended-spot-market"@,
        state.extended_spot_market@,
        "--hibachi-symbol"@,
        state.hibachi_symbol@,
        "--deribit-currency"@,
        text::upper(text::trimmed(state.deribit_currency@)),
        "--heartbeat-secs"@,
        text::nat_text(state.heartbeat_secs as nat),
        "--progress-every"@,
        text::nat_text(state.progress_every as nat),
    ] + if coin.len() == 0 {
        Seq::empty()
    } else {
        seq!["--hyperliquid-spot-coin"@, coin]
    }
}

impl TuiState {
    /// The arguments with which the recorder is started; at least one venue must be switched on.
    pub fn recorder_args(&self) -> (r: Result<Vec<String>, String>)
        ensures
            r is Ok <==> recorded(self.venues@).len() > 0,
            r is Ok ==> text::texts(r->Ok_0@) == recorder_arguments(*self),
            r is Err ==> r->Err_0@ == "select at least one venue before running the recorder"@,
    {
        let ids = self.enabled_venues();
        if ids.len() == 0 {
            return Err("select at least one venue before running the recorder".to_owned());
        }
        let mut names: Vec<String> = Vec::new();
        let mut i: usize = 0;
        while i < ids.len()
            invariant
                i <= ids@.len(),
                names@.len() == i,
                forall|j: int| 0 <= j < i ==> (#[trigger] names@[j])@ == ids@[j].cli_text(),
            decreases ids@.len() - i,
        {
            names.push(ids[i].cli_value().to_owned());
            i = i + 1;
        }
        assert(text::texts(names@) =~= cli_texts(ids@));
        let mut args: Vec<String> = vec![
            "stream".to_owned(),
            "--venue".to_owned(),
            text::join_texts(&names, ","),
            "--output-dir".to_owned(),
            self.output_dir.clone(),
            "--bitfinex-symbol".to_owned(),
            self.bitfinex_symbol.clone(),
            "--extended-market".to_owned(),
            self.extended_market.clone(),
            "--extended-spot-market".to_owned(),
            self.extended_spot_market.clone(),
            "--hibachi-symbol".to_owned(),
            self.hibachi_symbol.clone(),
            "--deribit-currency".to_owned(),
            text::to_upper(text::trim(self.deribit_currency.as_str()).as_str()),
            "--heartbeat-secs".to_owned(),
            text::u64_text(self.heartbeat_secs),
            "--progress-every".to_owned(),
            text::u64_text(self.progress_every as u64),
        ];
        let coin = text::trim(self.hyperliquid_spot_coin.as_str());
        if !text::is_empty_text(coin.as_str()) {
            args.push("--hyperliquid-spot-coin".to_owned());
            args.push(coin);
        }
        assert(text::texts(args@) =~= recorder_arguments(*self));
        Ok(args)
    }
}

/// A command of the menu.
#[derive(Clone, Debug)]
pub enum MenuCommand {
    Toggle(usize),
    AllOn,
    AllOff,
    EditMarkets,
    EditOutputDir,
    EditHeartbeat,
    Run,
    Quit,
    Nothing,
    Unknown(String),
}

/// What a command is.
pub ghost enum Command {
    Toggle(usize),
    AllOn,
    AllOff,
    EditMarkets,
    EditOutputDir,
    EditHeartbeat,
    Run,
    Quit,
    Nothing,
    Unknown(Seq<char>),
}

impl View for MenuCommand {
    type V = Command;

    open spec fn view(&self) -> Command {
        match *self {
            MenuCommand::Toggle(i) => Command::Toggle(i),
            MenuCommand::AllOn => Command::AllOn,
            MenuCommand::AllOff => Command::AllOff,
            MenuCommand::EditMarkets => Command::EditMarkets,
            MenuCommand::EditOutputDir => Command::EditOutputDir,
            MenuCommand::EditHeartbeat => Command::EditHeartbeat,
            MenuCommand::Run => Command::Run,
            MenuCommand::Quit => Command::Quit,
            MenuCommand::Nothing => Command::Nothing,
            MenuCommand::Unknown(word) => Command::Unknown(word@),
        }
    }
}

/// The command that an input names: the digits 1 to 5 for the venues, a letter in either case for
/// the rest.
pub open spec fn command_of(input: Seq<char>) -> Command {
    let word = text::trimmed(input);
    if word == "1"@ {
        Command::Toggle(0)
    } else if word == "2"@ {
        Command::Toggle(1)
    } else if word == "3"@ {
        Command::Toggle(2)
    } else if word == "4"@ {
        Command::Toggle(3)
    } else if word == "5"@ {
        Command::Toggle(4)
    } else if word == "a"@ || word == "A"@ {
        Command::AllOn
    } else if word == "n"@ || word == "N"@ {
        Command::AllOff
    } else if word == "m"@ || word == "M"@ {
        Command::EditMarkets
    } else if word == "o"@ || word == "O"@ {
        Command::EditOutputDir
    } else if word == "h"@ || word == "H"@ {
        Command::EditHeartbeat
    } else if word == "r"@ || word == "R"@ {
        Command::Run
    } else if word == "q"@ || word == "Q"@ {
        Command::Quit
    } else if word.len() == 0 {
        Command::Nothing
    } else {
        Command::Unknown(word)
    }
}

fn is_either(word: &str, a: &str, b: &str) -> (yes: bool)
    ensures
        yes == (word@ == a@ || word@ == b@),
{
    same_text(word, a) || same_text(word, b)
}

/// Reads a command.
pub fn menu_command(input: &str) -> (command: MenuCommand)
    ensures
        command@ == command_of(input@),
{
    let trimmed = text::trim(input);
    let word = trimmed.as_str();
    if same_text(word, "1") {
        MenuCommand::Toggle(0)
    } else if same_text(word, "2") {
        MenuCommand::Toggle(1)
    } else if same_text(word, "3") {
        MenuCommand::Toggle(2)
    } else if same_text(word, "4") {
        MenuCommand::Toggle(3)
    } else if same_text(word, "5") {
        MenuCommand::Toggle(4)
    } else if is_either(word, "a", "A") {
        MenuCommand::AllOn
    } else if is_either(word, "n", "N") {
        MenuCommand::AllOff
    } else if is_either(word, "m", "M") {
        MenuCommand::EditMarkets
    } else if is_either(word, "o", "O") {
        MenuCommand::EditOutputDir
    } else if is_either(word, "h", "H") {
        MenuCommand::EditHeartbeat
    } else if is_either(word, "r", "R") {
        MenuCommand::Run
    } else if is_either(word, "q", "Q") {
        MenuCommand::Quit
    } else if text::is_empty_text(word) {
        MenuCommand::Nothing
    } else {
        MenuCommand::Unknown(trimmed)
    }
}

/// An answer, or the current value where the answer is blank.
pub open spec fn answered(input: Seq<char>, current: Seq<char>) -> Seq<char> {
    if text::trimmed(input).len() == 0 {
        current
    } else {
        text::trimmed(input)
    }
}

/// An answer, or the current value where the answer is blank.
pub fn answer_or_default(input: &str, current: &str) -> (value: String)
    ensures
        value@ == answered(input@, current@),
{
    let trimmed = text::trim(input);
    if text::is_empty_text(trimmed.as_str()) {
        current.to_owned()
    } else {
        trimmed
    }
}

/// Reads the answer to a question for a number; a blank answer keeps the current one.
pub fn answer_u64_or_default(input: &str, current: u64) -> (r: Result<u64, String>)
    ensures
        match text::parsed_int(
            answered(input@, text::nat_text(current as nat)),
            0,
            u64::MAX as int,
        ) {
            Ok(value) => r is Ok && r->Ok_0 == value,
            Err(error) => r is Err && r->Err_0@ == "invalid number: "@ + error.text(),
        },
        text::trimmed(input@).len() == 0 ==> r == Ok::<u64, String>(current),
{
    let value = answer_or_default(input, text::u64_text(current).as_str());
    proof {
        text::printed_numbers_are_read_back(current as nat, u64::MAX as int);
    }
    match text::parse_u64_text(value.as_str()) {
        Ok(n) => Ok(n),
        Err(error) => {
            let mut report = "invalid number: ".to_owned();
            report.append(error.message().as_str());
            Err(report)
        },
    }
}

/// The answers to the questions for the markets.
#[derive(Clone, Debug)]
pub struct MarketAnswers {
    pub bitfinex_symbol: String,
    pub extended_market: String,
    pub extended_spot_market: String,
    pub hibachi_symbol: String,
    pub deribit_currency: String,
    pub hyperliquid_spot_coin: String,
}

/// Takes over the answers for the markets; a blank answer keeps the current value. The currency is
/// kept in upper case.
pub fn edit_markets(state: &mut TuiState, answers: &MarketAnswers)
    ensures
        final(state).venues == old(state).venues,
        final(state).output_dir == old(state).output_dir,
        final(state).heartbeat_secs == old(state).heartbeat_secs,
        final(state).progress_every == old(state).progress_every,
        final(state).bitfinex_symbol@ == answered(
            answers.bitfinex_symbol@,
            old(state).bitfinex_symbol@,
        ),
        final(state).extended_market@ == answered(
            answers.extended_market@,
            old(state).extended_market@,
        ),
        final(state).extended_spot_market@ == answered(
            answers.extended_spot_market@,
            old(state).extended_spot_market@,
        ),
        final(state).hibachi_symbol@ == answered(
            answers.hibachi_symbol@,
            old(state).hibachi_symbol@,
        ),
        final(state).deribit_currency@ == text::upper(
            answered(answers.deribit_currency@, old(state).deribit_currency@),
        ),
        final(state).hyperliquid_spot_coin@ == answered(
            answers.hyperliquid_spot_coin@,
            old(state).hyperliquid_spot_coin@,
        ),
{
    state.bitfinex_symbol = answer_or_default(
        answers.bitfinex_symbol.as_str(),
        state.bitfinex_symbol.as_str(),
    );
    state.extended_market = answer_or_default(
        answers.extended_market.as_str(),
        state.extended_market.as_str(),
    );
    state.extended_spot_market = answer_or_default(
        answers.extended_spot_market.as_str(),
        state.extended_spot_market.as_str(),
    );
    state.hibachi_symbol = answer_or_default(
        answers.hibachi_symbol.as_str(),
        state.hibachi_symbol.as_str(),
    );
    let currency = answer_or_default(
        answers.deribit_currency.as_str(),
        state.deribit_currency.as_str(),
    );
    state.deribit_currency = text::to_upper(currency.as_str());
    state.hyperliquid_spot_coin = answer_or_default(
        answers.hyperliquid_spot_coin.as_str(),
        state.hyperliquid_spot_coin.as_str(),
    );
}

/// A character that needs no quotes in a command line.
pub open spec fn is_plain(c: char) -> bool {
    ||| 'a' <= c <= 'z'
    ||| 'A' <= c <= 'Z'
    ||| '0' <= c <= '9'
    ||| c == '/'
    ||| c == '.'
    ||| c == '_'
    ||| c == '-'
    ||| c == ','
    ||| c == ':'
    ||| c == '='
}

/// Every character is plain.
pub open spec fn all_plain(value: Seq<char>) -> bool {
    forall|i: int| 0 <= i < value.len() ==> is_plain(#[trigger] value[i])
}

/// A text with each quote replaced by one that closes the quotes, is escaped and opens them again.
pub open spec fn escaped(value: Seq<char>) -> Seq<char>
    decreases value.len(),
{
    if value.len() == 0 {
        Seq::empty()
    } else {
        let front = escaped(value.drop_last());
        if value.last() == '\'' {
            front.push('\'').push('\\').push('\'').push('\'')
        } else {
            front.push(value.last())
        }
    }
}

/// A text as it stands in a command line: as it is where it is plain, else in single quotes.
pub open spec fn quoted(value: Seq<char>) -> Seq<char> {
    if all_plain(value) {
        value
    } else {
        seq!['\''] + escaped(value) + seq!['\'']
    }
}

fn plain_char(c: char) -> (yes: bool)
    ensures
        yes == is_plain(c),
{
    ('a' <= c && c <= 'z') || ('A' <= c && c <= 'Z') || ('0' <= c && c <= '9') || c == '/' || c
        == '.' || c == '_' || c == '-' || c == ',' || c == ':' || c == '='
}

/// A text as it stands in a command line.
pub fn shell_quote(value: &str) -> (r: String)
    ensures
        r@ == quoted(value@),
{
    let chars = text::text_chars(value);
    let mut plain = true;
    let mut i: usize = 0;
    while i < chars.len()
        invariant
            i <= chars@.len(),
            chars@ == value@,
            plain == forall|j: int| 0 <= j < i ==> is_plain(#[trigger] chars@[j]),
        decreases chars@.len() - i,
    {
        if !plain_char(chars[i]) {
            plain = false;
        }
        i = i + 1;
    }
    if plain {
        return value.to_owned();
    }
    let mut body = String::new();
    let mut k: usize = 0;
    assert(chars@.take(0) =~= Seq::empty());
    while k < chars.len()
        invariant
            k <= chars@.len(),
            body@ == escaped(chars@.take(k as int)),
        decreases chars@.len() - k,
    {
        assert(chars@.take(k + 1).drop_last() =~= chars@.take(k as int));
        if chars[k] == '\'' {
            body.push('\'');
            body.push('\\');
            body.push('\'');
            body.push('\'');
        } else {
            body.push(chars[k]);
        }
        k = k + 1;
    }
    assert(chars@.take(k as int) =~= value@);
    let mut r = String::new();
    r.push('\'');
    r.append(body.as_str());
    r.push('\'');
    assert(r@ =~= seq!['\''] + escaped(value@) + seq!['\'']);
    r
}

/// The words of a command line, each quoted.
pub open spec fn quoted_words(program: Seq<char>, args: Seq<Seq<char>>) -> Seq<Seq<char>> {
    seq![quoted(program)] + args.map_values(|a: Seq<char>| quoted(a))
}

/// A command line as it is shown.
pub fn display_command(program: &str, args: &Vec<String>) -> (line: String)
    ensures
        line@ == text::join(quoted_words(program@, text::texts(args@)), " "@),
{
    let mut words: Vec<String> = Vec::new();
    words.push(shell_quote(program));
    let mut i: usize = 0;
    while i < args.len()
        invariant
            i <= args@.len(),
            words@.len() == i + 1,
            words@[0]@ == quoted(program@),
            forall|j: int| 0 <= j < i ==> (#[trigger] words@[j + 1])@ == quoted(args@[j]@),
        decreases args@.len() - i,
    {
        words.push(shell_quote(args[i].as_str()));
        i = i + 1;
    }
    proof {
        let shown = text::texts(words@);
        let wanted = quoted_words(program@, text::texts(args@));
        assert forall|j: int| 0 <= j < shown.len() implies shown[j] == wanted[j] by {
            if j > 0 {
                assert(words@[(j - 1) + 1]@ == quoted(args@[j - 1]@));
            }
        }
        assert(shown =~= wanted);
    }
    text::join_texts(&words, " ")
}

/// A text followed by as many spaces as bring it to a width.
pub open spec fn widened(value: Seq<char>, width: nat) -> Seq<char> {
    if value.len() >= width {
        value
    } else {
        value + Seq::new((width - value.len()) as nat, |i: int| ' ')
    }
}

fn widen(value: &str, width: usize) -> (r: String)
    ensures
        r@ == widened(value@, width as nat),
{
    let chars = text::text_chars(value);
    let mut r = value.to_owned();
    let mut i: usize = chars.len();
    while i < width
        invariant
            chars@ == value@,
            chars@.len() <= i,
            i <= width || i == chars@.len(),
            r@ == value@ + Seq::new((i - value@.len()) as nat, |j: int| ' '),
        decreases width - i,
    {
        r.push(' ');
        i = i + 1;
        assert(r@ =~= value@ + Seq::new((i - value@.len()) as nat, |j: int| ' '));
    }
    assert(r@ =~= widened(value@, width as nat));
    r
}

impl TuiState {
    /// The line of the menu for a venue: its number, whether it is recorded, its name and markets.
    pub open spec fn venue_line(self, index: int) -> Seq<char> {
        let venue = self.venues@[index];
        "  "@ + text::nat_text((index + 1) as nat) + ") ["@ + (if venue.enabled {
            "x"@
        } else {
            " "@
        }) + "] "@ + widened(venue.id.title(), 12) + " "@ + self.detail(venue.id)
    }

    /// The lines of the menu above the venues.
    pub open spec fn head_lines(self) -> Seq<Seq<char>> {
        seq![
            "MODL Pi recorder"@,
            "================="@,
            "Output dir: "@ + self.output_dir@,
            "Heartbeat: "@ + text::nat_text(self.heartbeat_secs as nat) + "s"@,
            "Progress: every "@ + text::nat_text(self.progress_every as nat)
                + " messages per feed"@,
            ""@,
            "Venues"@,
        ]
    }

    /// The lines of the menu.
    pub open spec fn lines(self) -> Seq<Seq<char>> {
        self.head_lines() + Seq::new(self.venues@.len(), |i: int| self.venue_line(i)) + seq![
            ""@,
            "Commands"@,
            "  1-5 toggle venue   a all venues on   n all venues off"@,
            "  m edit market symbols   o edit output dir   h edit heartbeat"@,
            "  r run recorder      q quit"@,
            ""@,
        ]
    }

    /// The lines of the menu.
    pub fn render(&self) -> (r: Vec<String>)
        ensures
            text::texts(r@) == self.lines(),
    {
        let mut dir_line = "Output dir: ".to_owned();
        dir_line.append(self.output_dir.as_str());
        let mut r: Vec<String> = vec![
            "MODL Pi recorder".to_owned(),
            "=================".to_owned(),
            dir_line,
            joined3("Heartbeat: ", text::u64_text(self.heartbeat_secs).as_str(), "s"),
            joined3(
                "Progress: every ",
                text::u64_text(self.progress_every as u64).as_str(),
                " messages per feed",
            ),
            "".to_owned(),
            "Venues".to_owned(),
        ];
        let ghost head = text::texts(r@);
        assert(head =~= self.head_lines());
        let mut i: usize = 0;
        while i < self.venues.len()
            invariant
                i <= self.venues@.len(),
                text::texts(r@) == head + Seq::new(i as nat, |j: int| self.venue_line(j)),
            decreases self.venues@.len() - i,
        {
            let venue = self.venues[i];
            let mut line = joined3("  ", text::u64_text(i as u64 + 1).as_str(), ") [");
            line.append(if venue.enabled { "x" } else { " " });
            line.append("] ");
            line.append(widen(venue.id.name(), 12).as_str());
            line.append(" ");
            line.append(self.venue_detail(venue.id).as_str());
            let ghost before = r@;
            r.push(line);
            i = i + 1;
            assert(text::texts(r@) =~= text::texts(before).push(line@));
            assert(text::texts(r@) =~= head + Seq::new(i as nat, |j: int| self.venue_line(j)));
        }
        let ghost body = text::texts(r@);
        r.push("".to_owned());
        r.push("Commands".to_owned());
        r.push("  1-5 toggle venue   a all venues on   n all venues off".to_owned());
        r.push("  m edit market symbols   o edit output dir   h edit heartbeat".to_owned());
        r.push("  r run recorder      q quit".to_owned());
        r.push("".to_owned());
        assert(text::texts(r@) =~= body + seq![
            ""@,
            "Commands"@,
            "  1-5 toggle venue   a all venues on   n all venues off"@,
            "  m edit market symbols   o edit output dir   h edit heartbeat"@,
            "  r run recorder      q quit"@,
            ""@,
        ]);
        r
    }
}

/// What is left to do after a command.
#[derive(Clone, Debug)]
pub enum MenuAction {
    Show,
    EditMarkets,
    AskOutputDir,
    AskHeartbeat,
    Run,
    Quit,
    Report(String),
}

/// Carries out a command as far as it changes the venues, and says what is left to do.
pub fn menu_turn(state: &mut TuiState, input: &str) -> (action: MenuAction)
    requires
        old(state).well_formed(),
    ensures
        final(state).well_formed(),
        match command_of(input@) {
            Command::Toggle(i) => {
                let venue = old(state).venues@[i as int];
                &&& action is Show
                &&& final(state).only_venues_changed(*old(state))
                &&& final(state).venues@ == old(state).venues@.update(
                    i as int,
                    (VenueSelection { id: venue.id, enabled: !venue.enabled }),
                )
            },
            Command::AllOn => {
                &&& action is Show
                &&& final(state).only_venues_changed(*old(state))
                &&& final(state).venues@ == selection(seq![true, true, true, true, true])
            },
            Command::AllOff => {
                &&& action is Show
                &&& final(state).only_venues_changed(*old(state))
                &&& final(state).venues@ == selection(seq![false, false, false, false, false])
            },
            Command::EditMarkets => action is EditMarkets && *final(state) == *old(state),
            Command::EditOutputDir => action is AskOutputDir && *final(state) == *old(state),
            Command::EditHeartbeat => action is AskHeartbeat && *final(state) == *old(state),
            Command::Run => action is Run && *final(state) == *old(state),
            Command::Quit => action is Quit && *final(state) == *old(state),
            Command::Nothing => action is Show && *final(state) == *old(state),
            Command::Unknown(word) => {
                &&& action is Report
                &&& action->Report_0@ == "unknown command: "@ + word
                &&& *final(state) == *old(state)
            },
        },
{
    match menu_command(input) {
        MenuCommand::Toggle(i) => {
            state.toggle_venue(i);
            MenuAction::Show
        },
        MenuCommand::AllOn => {
            state.set_all_venues(true);
            MenuAction::Show
        },
        MenuCommand::AllOff => {
            state.set_all_venues(false);
            MenuAction::Show
        },
        MenuCommand::EditMarkets => MenuAction::EditMarkets,
        MenuCommand::EditOutputDir => MenuAction::AskOutputDir,
        MenuCommand::EditHeartbeat => MenuAction::AskHeartbeat,
        MenuCommand::Run => MenuAction::Run,
        MenuCommand::Quit => MenuAction::Quit,
        MenuCommand::Nothing => MenuAction::Show,
        MenuCommand::Unknown(word) => {
            let mut report = "unknown command: ".to_owned();
            report.append(word.as_str());
            MenuAction::Report(report)
        },
    }
}

/// A word that has grown by a character.
pub open spec fn grown(word: Option<Seq<char>>, c: char) -> Option<Seq<char>> {
    match word {
        Some(w) => Some(w.push(c)),
        None => Some(seq![c]),
    }
}

/// A list of words behind a first word.
pub open spec fn behind(
    first: Seq<Seq<char>>,
    rest: Option<Seq<Seq<char>>>,
) -> Option<Seq<Seq<char>>> {
    match rest {
        Some(words) => Some(first + words),
        None => None,
    }
}

/// The words that a shell reads from a line, given the word that it is in, and whether that word is
/// inside single quotes. There is no result for a line that is not made of plain characters,
/// spaces, escaped characters and quoted text.
pub open spec fn shell_words(
    line: Seq<char>,
    quotes: bool,
    word: Option<Seq<char>>,
) -> Option<Seq<Seq<char>>>
    decreases line.len(),
{
    if line.len() == 0 {
        match (quotes, word) {
            (true, _) => None,
            (false, None) => Some(Seq::empty()),
            (false, Some(w)) => Some(seq![w]),
        }
    } else {
        let c = line[0];
        let rest = line.skip(1);
        if quotes {
            if c == '\'' {
                shell_words(rest, false, word)
            } else {
                shell_words(rest, true, grown(word, c))
            }
        } else if c == ' ' {
            match word {
                None => shell_words(rest, false, None),
                Some(w) => behind(seq![w], shell_words(rest, false, None)),
            }
        } else if c == '\'' {
            shell_words(rest, true, match word {
                None => Some(Seq::empty()),
                Some(w) => Some(w),
            })
        } else if c == '\\' {
            if rest.len() == 0 {
                None
            } else {
                shell_words(rest.skip(1), false, grown(word, rest[0]))
            }
        } else if is_plain(c) {
            shell_words(rest, false, grown(word, c))
        } else {
            None
        }
    }
}

proof fn lemma_plain_is_read(value: Seq<char>, tail: Seq<char>, word: Seq<char>)
    requires
        all_plain(value),
    ensures
        shell_words(value + tail, false, Some(word)) == shell_words(
            tail,
            false,
            Some(word + value),
        ),
    decreases value.len(),
{
    if value.len() == 0 {
        assert(value + tail =~= tail);
        assert(word + value =~= word);
    } else {
        let c = value[0];
        let rest = value.skip(1);
        assert((value + tail).skip(1) =~= rest + tail);
        lemma_plain_is_read(rest, tail, word.push(c));
        assert(word.push(c) + rest =~= word + value);
    }
}

proof fn lemma_escaped_is_read(value: Seq<char>, tail: Seq<char>, word: Seq<char>)
    ensures
        shell_words(escaped(value) + tail, true, Some(word)) == shell_words(
            tail,
            true,
            Some(word + value),
        ),
    decreases value.len(),
{
    if value.len() == 0 {
        assert(escaped(value) + tail =~= tail);
        assert(word + value =~= word);
    } else {
        let front = value.drop_last();
        let c = value.last();
        let read = word + front;
        assert(read.push(c) =~= word + value);
        if c == '\'' {
            let piece = seq!['\'', '\\', '\'', '\''] + tail;
            assert(escaped(value) + tail =~= escaped(front) + piece);
            lemma_escaped_is_read(front, piece, word);
            let second = piece.skip(1);
            let third = second.skip(1).skip(1);
            assert(second[0] == '\\' && second.skip(1)[0] == '\'');
            assert(third[0] == '\'');
            assert(third.skip(1) =~= tail);
            assert(shell_words(piece, true, Some(read)) == shell_words(second, false, Some(read)));
            assert(shell_words(second, false, Some(read)) == shell_words(
                third,
                false,
                Some(read.push(c)),
            ));
        } else {
            let piece = seq![c] + tail;
            assert(escaped(value) + tail =~= escaped(front) + piece);
            lemma_escaped_is_read(front, piece, word);
            assert(piece.skip(1) =~= tail);
        }
    }
}

proof fn lemma_quoted_is_read(value: Seq<char>, tail: Seq<char>)
    requires
        value.len() > 0,
    ensures
        shell_words(quoted(value) + tail, false, None) == shell_words(tail, false, Some(value)),
{
    let line = quoted(value) + tail;
    if all_plain(value) {
        assert(is_plain(value[0]));
        assert(line.skip(1) =~= value.skip(1) + tail);
        lemma_plain_is_read(value.skip(1), tail, seq![value[0]]);
        assert(seq![value[0]] + value.skip(1) =~= value);
    } else {
        let close = seq!['\''] + tail;
        assert(line.skip(1) =~= escaped(value) + close);
        lemma_escaped_is_read(value, close, Seq::empty());
        assert(Seq::<char>::empty() + value =~= value);
        assert(close.skip(1) =~= tail);
    }
}

proof fn lemma_words_are_read(words: Seq<Seq<char>>, tail: Seq<char>)
    requires
        words.len() > 0,
        forall|i: int| 0 <= i < words.len() ==> (#[trigger] words[i]).len() > 0,
    ensures
        shell_words(
            text::join(words.map_values(|w: Seq<char>| quoted(w)), " "@) + tail,
            false,
            None,
        ) == behind(words.drop_last(), shell_words(tail, false, Some(words.last()))),
    decreases words.len(),
{
    let shown = words.map_values(|w: Seq<char>| quoted(w));
    let last = words.last();
    if words.len() == 1 {
        lemma_quoted_is_read(last, tail);
        if let Some(read) = shell_words(tail, false, Some(last)) {
            assert(words.drop_last() + read =~= read);
        }
    } else {
        reveal_strlit(" ");
        let front = words.drop_last();
        let rest = seq![' '] + quoted(last) + tail;
        assert(shown.drop_last() =~= front.map_values(|w: Seq<char>| quoted(w)));
        assert(text::join(shown, " "@) + tail =~= text::join(shown.drop_last(), " "@) + rest);
        assert forall|i: int| 0 <= i < front.len() implies (#[trigger] front[i]).len() > 0 by {
            assert(front[i] == words[i]);
        }
        lemma_words_are_read(front, rest);
        assert(rest.skip(1) =~= quoted(last) + tail);
        lemma_quoted_is_read(last, tail);
        if let Some(read) = shell_words(tail, false, Some(last)) {
            assert(front.drop_last() + (seq![front.last()] + read) =~= front + read);
        }
    }
}

/// A command line is shown so that a shell reads it back into the same program and arguments,
/// whatever characters they hold, as long as none of them is empty.
pub proof fn shown_commands_are_read_back(program: Seq<char>, args: Seq<Seq<char>>)
    requires
        program.len() > 0,
        forall|i: int| 0 <= i < args.len() ==> (#[trigger] args[i]).len() > 0,
    ensures
        shell_words(text::join(quoted_words(program, args), " "@), false, None) == Some(
            seq![program] + args,
        ),
{
    let words = seq![program] + args;
    assert forall|i: int| 0 <= i < words.len() implies (#[trigger] words[i]).len() > 0 by {
        if i > 0 {
            assert(words[i] == args[i - 1]);
        }
    }
    let shown = words.map_values(|w: Seq<char>| quoted(w));
    assert(shown =~= quoted_words(program, args));
    lemma_words_are_read(words, Seq::empty());
    assert(text::join(shown, " "@) + Seq::<char>::empty() =~= text::join(shown, " "@));
    assert(words.drop_last() + seq![words.last()] =~= words);
}

/// A venue that is switched twice is as it was, and so are all others.
pub proof fn switching_twice_restores(venues: Seq<VenueSelection>, index: int)
    requires
        0 <= index < venues.len(),
    ensures
        ({
            let once = venues.update(
                index,
                (VenueSelection { id: venues[index].id, enabled: !venues[index].enabled }),
            );
            once.update(
                index,
                (VenueSelection { id: once[index].id, enabled: !once[index].enabled }),
            ) == venues
        }),
{
    let once = venues.update(
        index,
        VenueSelection { id: venues[index].id, enabled: !venues[index].enabled },
    );
    assert(once.update(
        index,
        VenueSelection { id: once[index].id, enabled: !once[index].enabled },
    ) =~= venues);
}

/// How often a recorder that was told to stop is looked at before it is killed.
pub const STOP_CHECKS: u32 = 40;

/// The pause between two looks at a recorder that was told to stop.
pub const STOP_PAUSE_MILLIS: u64 = 250;

/// The next step in stopping a recorder.
#[derive(Clone, Copy, Debug, PartialEq, Eq, Structural)]
pub enum StopStep {
    /// The recorder has ended.
    Done,
    /// Tell it to stop.
    Interrupt,
    /// Wait that many milliseconds, then look again.
    WaitMillis(u64),
    /// Kill it.
    Kill,
}

/// Decides how a recorder is stopped, from the number of looks before this one and whether it has
/// ended: it is told to stop once, looked at forty times, and then killed.
pub fn stop_step(looks: u32, ended: bool) -> (step: StopStep)
    ensures
        step == if ended && looks <= STOP_CHECKS {
            StopStep::Done
        } else if looks == 0 {
            StopStep::Interrupt
        } else if looks <= STOP_CHECKS {
            StopStep::WaitMillis(STOP_PAUSE_MILLIS)
        } else {
            StopStep::Kill
        },
{
    if looks > STOP_CHECKS {
        StopStep::Kill
    } else if ended {
        StopStep::Done
    } else if looks == 0 {
        StopStep::Interrupt
    } else {
        StopStep::WaitMillis(STOP_PAUSE_MILLIS)
    }
}

/// The recorder that is started: the one that was set, else the one beside the menu where there is
/// one, else the one that the system finds by name.
pub fn recorder_binary(
    configured: Option<String>,
    sibling: String,
    sibling_exists: bool,
    binary_name: &str,
) -> (program: String)
    ensures
        program@ == match configured {
            Some(path) => path@,
            None => if sibling_exists {
                sibling@
            } else {
                binary_name@
            },
        },
{
    match configured {
        Some(path) => path,
        None => {
            if sibling_exists {
                sibling
            } else {
                binary_name.to_owned()
            }
        },
    }
}

} // verus!
