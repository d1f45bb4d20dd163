//! The menu of the recorder: what is chosen is what is run and what is shown.

use vstd::prelude::*;

use crate::stream;
use crate::stream::StreamVenue;
use crate::text;
use crate::tui;
use crate::tui::MarketAnswers;
use crate::tui::MenuAction;
use crate::tui::MenuCommand;
use crate::tui::StopStep;
use crate::tui::TuiState;
use crate::tui::VenueId;
use crate::tui::VenueSelection;
use crate::tui::answer_or_default;
use crate::tui::answer_u64_or_default;
use crate::tui::display_command;
use crate::tui::edit_markets;
use crate::tui::menu_command;
use crate::tui::menu_turn;
use crate::tui::recorder_binary;
use crate::tui::stop_step;

verus! {

/// A venue is switched alone, and switched twice it is as it was.
pub proof fn venues_are_switched_alone(
    first: &mut TuiState,
    second: &mut TuiState,
    index: usize,
    i: int,
)
    requires
        call_ensures(TuiState::toggle_venue, (first, index), ()),
        *old(second) == *final(first),
        call_ensures(TuiState::toggle_venue, (second, index), ()),
        old(first).venues@.len() == 5,
        0 <= i < 5,
    ensures
        final(first).venues@[i].id == old(first).venues@[i].id,
        final(first).venues@[i].enabled == (if i == index {
            !old(first).venues@[i].enabled
        } else {
            old(first).venues@[i].enabled
        }),
        final(second).venues@ == old(first).venues@,
        index >= 5 ==> final(first).venues@ == old(first).venues@,
        final(first).output_dir == old(first).output_dir,
{
    assert(final(second).venues@ =~= old(first).venues@);
}

/// All venues are switched on or off at once, and keep their places.
pub proof fn all_venues_are_switched_at_once(state: &mut TuiState, enabled: bool, i: int)
    requires
        call_ensures(TuiState::set_all_venues, (state, enabled), ()),
        old(state).well_formed(),
        0 <= i < 5,
    ensures
        final(state).venues@.len() == 5,
        final(state).venues@[i].enabled == enabled,
        final(state).venues@[i].id == old(state).venues@[i].id,
        final(state).output_dir == old(state).output_dir,
        final(state).heartbeat_secs == old(state).heartbeat_secs,
{
}

proof fn lemma_recorded(venues: Seq<VenueSelection>, id: VenueId)
    ensures
        tui::recorded(venues).contains(id) <==> exists|i: int|
            0 <= i < venues.len() && (#[trigger] venues[i]).enabled && venues[i].id == id,
        tui::recorded(venues).len() <= venues.len(),
    decreases venues.len(),
{
    if venues.len() > 0 {
        let front = venues.drop_last();
        let last = venues.len() - 1;
        let before = tui::recorded(front);
        let all = tui::recorded(venues);
        lemma_recorded(front, id);
        assert(venues[last] == venues.last());
        if all.contains(id) {
            let k = choose|k: int| 0 <= k < all.len() && all[k] == id;
            if k < before.len() {
                assert(before[k] == id);
                let i = choose|i: int|
                    0 <= i < front.len() && (#[trigger] front[i]).enabled && front[i].id == id;
                assert(venues[i] == front[i]);
            } else {
                assert(venues[last].enabled && venues[last].id == id);
            }
        }
        if exists|i: int|
            0 <= i < venues.len() && (#[trigger] venues[i]).enabled && venues[i].id == id {
            let i = choose|i: int|
                0 <= i < venues.len() && (#[trigger] venues[i]).enabled && venues[i].id == id;
            if i < last {
                assert(front[i] == venues[i]);
                let k = choose|k: int| 0 <= k < before.len() && before[k] == id;
                assert(all[k] == id);
            } else {
                assert(all[before.len() as int] == id);
            }
        }
    }
}

/// The venues that are recorded are those that are switched on.
pub proof fn enabled_venues_are_recorded(state: &TuiState, ids: Vec<VenueId>, id: VenueId)
    requires
        call_ensures(TuiState::enabled_venues, (state,), ids),
    ensures
        ids@.contains(id) <==> exists|i: int|
            0 <= i < state.venues@.len() && (#[trigger] state.venues@[i]).enabled
                && state.venues@[i].id == id,
{
    lemma_recorded(state.venues@, id);
}

/// The arguments hold the option with the value behind it.
pub open spec fn has_option(args: Seq<String>, name: Seq<char>, value: Seq<char>) -> bool {
    exists|k: int|
        0 <= k < args.len() - 1 && (#[trigger] args[k])@ == name && args[k + 1]@ == value
}

proof fn lemma_option(args: Seq<String>, k: int, name: Seq<char>, value: Seq<char>)
    requires
        0 <= k < args.len() - 1,
        args[k]@ == name,
        args[k + 1]@ == value,
    ensures
        has_option(args, name, value),
{
}

/// The recorder is started with what the menu holds: each setting behind its own option, and the
/// names of the venues that are switched on, one behind the other; there must be one.
pub proof fn the_recorder_runs_what_is_chosen(
    state: &TuiState,
    r: Result<Vec<String>, String>,
    ids: Vec<VenueId>,
    coin: Seq<char>,
)
    requires
        call_ensures(TuiState::recorder_args, (state,), r),
        call_ensures(TuiState::enabled_venues, (state,), ids),
        coin == text::trimmed(state.hyperliquid_spot_coin@),
    ensures
        r is Ok <==> ids@.len() > 0,
        r is Ok ==> {
            let args = r->Ok_0@;
            &&& args[0]@ == "stream"@
            &&& has_option(
                args,
                "--venue"@,
                text::join(ids@.map_values(|id: VenueId| id.cli_text()), ","@),
            )
            &&& has_option(args, "--output-dir"@, state.output_dir@)
            &&& has_option(args, "--bitfinex-symbol"@, state.bitfinex_symbol@)
            &&& has_option(args, "--extended-market"@, state.extended_market@)
            &&& has_option(args, "--extended-spot-market"@, state.extended_spot_market@)
            &&& has_option(args, "--hibachi-symbol"@, state.hibachi_symbol@)
            &&& has_option(
                args,
                "--deribit-currency"@,
                text::upper(text::trimmed(state.deribit_currency@)),
            )
            &&& has_option(
                args,
                "--heartbeat-secs"@,
                text::nat_text(state.heartbeat_secs as nat),
            )
            &&& has_option(
                args,
                "--progress-every"@,
                text::nat_text(state.progress_every as nat),
            )
            &&& coin.len() > 0 ==> has_option(args, "--hyperliquid-spot-coin"@, coin)
                && args.len() == 21
            &&& coin.len() == 0 ==> args.len() == 19
        },
{
    if r is Ok {
        let args = r->Ok_0@;
        let all = text::texts(args);
        assert(all.len() == args.len());
        assert(all[0] == args[0]@);
        assert(all[1] == args[1]@ && all[2] == args[2]@);
        assert(all[3] == args[3]@ && all[4] == args[4]@);
        assert(all[5] == args[5]@ && all[6] == args[6]@);
        assert(all[7] == args[7]@ && all[8] == args[8]@);
        assert(all[9] == args[9]@ && all[10] == args[10]@);
        assert(all[11] == args[11]@ && all[12] == args[12]@);
        assert(all[13] == args[13]@ && all[14] == args[14]@);
        assert(all[15] == args[15]@ && all[16] == args[16]@);
        assert(all[17] == args[17]@ && all[18] == args[18]@);
        lemma_option(args, 1, "--venue"@, all[2]);
        lemma_option(args, 3, "--output-dir"@, all[4]);
        lemma_option(args, 5, "--bitfinex-symbol"@, all[6]);
        lemma_option(args, 7, "--extended-market"@, all[8]);
        lemma_option(args, 9, "--extended-spot-market"@, all[10]);
        lemma_option(args, 11, "--hibachi-symbol"@, all[12]);
        lemma_option(args, 13, "--deribit-currency"@, all[14]);
        lemma_option(args, 15, "--heartbeat-secs"@, all[16]);
        lemma_option(args, 17, "--progress-every"@, all[18]);
        if coin.len() > 0 {
            assert(all[19] == args[19]@ && all[20] == args[20]@);
            lemma_option(args, 19, "--hyperliquid-spot-coin"@, all[20]);
        }
    }
}

/// Names in a row are read apart: a list of one name is the name, and a longer one is the shorter
/// one, the separator and the last name.
pub proof fn joined_texts_follow_each_other(
    parts: &Vec<String>,
    front: &Vec<String>,
    separator: &str,
    all: String,
    before: String,
)
    requires
        parts@.len() > 0,
        text::texts(front@) == text::texts(parts@).drop_last(),
        call_ensures(text::join_texts, (parts, separator), all),
        call_ensures(text::join_texts, (front, separator), before),
    ensures
        parts@.len() == 1 ==> all@ == parts@[0]@,
        parts@.len() > 1 ==> all@ == before@ + separator@ + parts@.last()@,
{
    let list = text::texts(parts@);
    assert(list.len() == parts@.len());
    assert(list[0] == parts@[0]@);
    assert(list.last() == parts@.last()@);
}

/// The command line names a venue as its exchange is recorded, and the menu in the same word but for
/// its case.
pub proof fn venues_are_named_alike(
    id: VenueId,
    venue: StreamVenue,
    value: &'static str,
    name: &'static str,
)
    requires
        call_ensures(VenueId::cli_value, (id,), value),
        call_ensures(VenueId::name, (id,), name),
        id == VenueId::Bitfinex <==> venue == StreamVenue::Bitfinex,
        id == VenueId::Extended <==> venue == StreamVenue::Extended,
        id == VenueId::Hibachi <==> venue == StreamVenue::Hibachi,
        id == VenueId::Deribit <==> venue == StreamVenue::Deribit,
        id == VenueId::Hyperliquid <==> venue == StreamVenue::Hyperliquid,
    ensures
        value@ == stream::exchange_of(venue),
        text::lower(name@) == value@,
{
    reveal_strlit("bitfinex");
    reveal_strlit("extended");
    reveal_strlit("hibachi");
    reveal_strlit("deribit");
    reveal_strlit("hyperliquid");
    reveal_strlit("Bitfinex");
    reveal_strlit("Extended");
    reveal_strlit("Hibachi");
    reveal_strlit("Deribit");
    reveal_strlit("Hyperliquid");
    assert(text::lower(name@) =~= value@);
}

/// A command is the same in either case and with white space around it; a number switches the venue
/// at its place; what is blank is no command; and a word of no command is reported as it is.
pub proof fn commands_are_read_in_either_case(
    input: &str,
    other: &str,
    command: MenuCommand,
    same: MenuCommand,
    d: int,
)
    requires
        call_ensures(menu_command, (input,), command),
        call_ensures(menu_command, (other,), same),
        text::trimmed(input@).len() == 1,
        text::trimmed(other@) == text::upper(text::trimmed(input@)),
        1 <= d <= 5,
    ensures
        !(command is Unknown) ==> same@ == command@,
        text::trimmed(input@)[0] as int == '0' as int + d ==> command is Toggle
            && command->Toggle_0 == d - 1,
        text::trimmed(input@)[0] == 'a' ==> command is AllOn,
        text::trimmed(input@)[0] == 'n' ==> command is AllOff,
        text::trimmed(input@)[0] == 'm' ==> command is EditMarkets,
        text::trimmed(input@)[0] == 'o' ==> command is EditOutputDir,
        text::trimmed(input@)[0] == 'h' ==> command is EditHeartbeat,
        text::trimmed(input@)[0] == 'r' ==> command is Run,
        text::trimmed(input@)[0] == 'q' ==> command is Quit,
        command is Unknown ==> command->Unknown_0@ == text::trimmed(input@),
{
    let word = text::trimmed(input@);
    let upper = text::upper(word);
    lemma_letters();
    assert(word =~= seq![word[0]]);
    assert(upper =~= seq![text::ascii_upper(word[0])]);
}

proof fn lemma_letters()
    ensures
        "1"@ == seq!['1'] && "2"@ == seq!['2'] && "3"@ == seq!['3'] && "4"@ == seq!['4'] && "5"@
            == seq!['5'],
        "a"@ == seq!['a'] && "A"@ == seq!['A'] && "n"@ == seq!['n'] && "N"@ == seq!['N'],
        "m"@ == seq!['m'] && "M"@ == seq!['M'] && "o"@ == seq!['o'] && "O"@ == seq!['O'],
        "h"@ == seq!['h'] && "H"@ == seq!['H'] && "r"@ == seq!['r'] && "R"@ == seq!['R'],
        "q"@ == seq!['q'] && "Q"@ == seq!['Q'],
        forall|a: char, b: char| #[trigger] seq![a] == #[trigger] seq![b] ==> a == b,
{
    reveal_strlit("1");
    reveal_strlit("2");
    reveal_strlit("3");
    reveal_strlit("4");
    reveal_strlit("5");
    reveal_strlit("a");
    reveal_strlit("A");
    reveal_strlit("n");
    reveal_strlit("N");
    reveal_strlit("m");
    reveal_strlit("M");
    reveal_strlit("o");
    reveal_strlit("O");
    reveal_strlit("h");
    reveal_strlit("H");
    reveal_strlit("r");
    reveal_strlit("R");
    reveal_strlit("q");
    reveal_strlit("Q");
    assert("1"@ =~= seq!['1'] && "2"@ =~= seq!['2'] && "3"@ =~= seq!['3'] && "4"@ =~= seq!['4']
        && "5"@ =~= seq!['5']);
    assert("a"@ =~= seq!['a'] && "A"@ =~= seq!['A'] && "n"@ =~= seq!['n'] && "N"@ =~= seq!['N']);
    assert("m"@ =~= seq!['m'] && "M"@ =~= seq!['M'] && "o"@ =~= seq!['o'] && "O"@ =~= seq!['O']);
    assert("h"@ =~= seq!['h'] && "H"@ =~= seq!['H'] && "r"@ =~= seq!['r'] && "R"@ =~= seq!['R']);
    assert("q"@ =~= seq!['q'] && "Q"@ =~= seq!['Q']);
    assert forall|a: char, b: char| #[trigger] seq![a] == #[trigger] seq![b] implies a == b by {
        assert(seq![a][0] == a && seq![b][0] == b);
    }
}

/// A turn of the menu carries out the command that was read: it switches what the command switches,
/// and leaves everything else to be done as the command says.
pub proof fn turns_carry_out_their_commands(
    state: &mut TuiState,
    input: &str,
    action: MenuAction,
    command: MenuCommand,
    i: int,
)
    requires
        call_ensures(menu_turn, (state, input), action),
        call_ensures(menu_command, (input,), command),
        old(state).well_formed(),
        0 <= i < 5,
    ensures
        final(state).venues@.len() == 5,
        final(state).venues@[i].id == old(state).venues@[i].id,
        final(state).venues@[i].enabled == (match command {
            MenuCommand::Toggle(k) => if k == i {
                !old(state).venues@[i].enabled
            } else {
                old(state).venues@[i].enabled
            },
            MenuCommand::AllOn => true,
            MenuCommand::AllOff => false,
            _ => old(state).venues@[i].enabled,
        }),
        final(state).output_dir == old(state).output_dir,
        final(state).heartbeat_secs == old(state).heartbeat_secs,
        command is Run <==> action is Run,
        command is Quit <==> action is Quit,
        command is EditMarkets <==> action is EditMarkets,
        command is EditOutputDir <==> action is AskOutputDir,
        command is EditHeartbeat <==> action is AskHeartbeat,
        command is Unknown <==> action is Report,
{
}

/// A blank answer keeps what there was; any other answer counts, without the white space around it.
pub proof fn blank_answers_keep_what_there_was(
    input: &str,
    current: &str,
    value: String,
    number: u64,
    n: u64,
    r: Result<u64, String>,
)
    requires
        call_ensures(answer_or_default, (input, current), value),
        call_ensures(answer_u64_or_default, (input, number), r),
    ensures
        (forall|k: int| 0 <= k < input@.len() ==> text::is_space(#[trigger] input@[k])) ==> value@
            == current@ && r is Ok && r->Ok_0 == number,
        !(forall|k: int| 0 <= k < input@.len() ==> text::is_space(#[trigger] input@[k])) ==> value@
            == text::trimmed(input@),
        input@ == text::nat_text(n as nat) ==> r is Ok && r->Ok_0 == n,
{
    text::blank_texts_are_all_space(input@);
    text::printed_numbers_are_read_back(n as nat, u64::MAX as int);
    text::digits_of_numbers(n as nat);
    if input@ == text::nat_text(n as nat) {
        assert(text::is_digit(input@[0]) && text::is_digit(input@[input@.len() - 1]));
        text::lemma_trimmed_is_kept(input@);
    }
}

/// Each answer for a market goes to its own setting, a blank one to none; nothing else changes.
pub proof fn answers_go_to_their_own_market(
    state: &mut TuiState,
    answers: &MarketAnswers,
)
    requires
        call_ensures(edit_markets, (state, answers), ()),
    ensures
        takes(answers.bitfinex_symbol@, old(state).bitfinex_symbol@, final(state).bitfinex_symbol@),
        takes(answers.extended_market@, old(state).extended_market@, final(state).extended_market@),
        takes(
            answers.extended_spot_market@,
            old(state).extended_spot_market@,
            final(state).extended_spot_market@,
        ),
        takes(answers.hibachi_symbol@, old(state).hibachi_symbol@, final(state).hibachi_symbol@),
        takes(
            answers.hyperliquid_spot_coin@,
            old(state).hyperliquid_spot_coin@,
            final(state).hyperliquid_spot_coin@,
        ),
        text::trimmed(answers.deribit_currency@).len() > 0 ==> final(state).deribit_currency@
            == text::upper(text::trimmed(answers.deribit_currency@)),
        text::trimmed(answers.deribit_currency@).len() == 0 ==> final(state).deribit_currency@
            == text::upper(old(state).deribit_currency@),
        final(state).venues == old(state).venues,
        final(state).output_dir == old(state).output_dir,
        final(state).heartbeat_secs == old(state).heartbeat_secs,
        final(state).progress_every == old(state).progress_every,
{
}

/// An answer that is not blank is taken, without the white space around it.
pub open spec fn takes(answer: Seq<char>, before: Seq<char>, after: Seq<char>) -> bool {
    if text::trimmed(answer).len() > 0 {
        after == text::trimmed(answer)
    } else {
        after == before
    }
}

/// A shell reads the shown command back into the program and its arguments.
pub proof fn shown_commands_can_be_run(program: &str, args: &Vec<String>, line: String)
    requires
        call_ensures(display_command, (program, args), line),
        program@.len() > 0,
        forall|i: int| 0 <= i < args@.len() ==> (#[trigger] args@[i])@.len() > 0,
    ensures
        tui::shell_words(line@, false, None) == Some(seq![program@] + text::texts(args@)),
{
    let all = text::texts(args@);
    assert forall|i: int| 0 <= i < all.len() implies (#[trigger] all[i]).len() > 0 by {
        assert(all[i] == args@[i]@);
    }
    tui::shown_commands_are_read_back(program@, all);
}

/// A recorder is told to stop once, at the first look, waited for ten seconds in all, and killed
/// only then; one that has ended in time is left alone.
pub proof fn recorders_are_stopped_gently(looks: u32, ended: bool, step: StopStep)
    requires
        call_ensures(stop_step, (looks, ended), step),
    ensures
        looks <= 40 && ended ==> step == StopStep::Done,
        step == StopStep::Interrupt <==> looks == 0 && !ended,
        1 <= looks <= 40 && !ended ==> step is WaitMillis && 40 * step->WaitMillis_0 == 10_000,
        step == StopStep::Kill <==> looks > 40,
{
}

/// The recorder that was set is started before any other, then the one beside the menu.
pub proof fn the_set_recorder_is_started(
    configured: Option<String>,
    sibling: String,
    sibling_exists: bool,
    binary_name: &str,
    program: String,
)
    requires
        call_ensures(recorder_binary, (configured, sibling, sibling_exists, binary_name), program),
    ensures
        configured is Some ==> program@ == configured->Some_0@,
        configured is None && sibling_exists ==> program@ == sibling@,
        configured is None && !sibling_exists ==> program@ == binary_name@,
{
}

/// The menu shows a line for every venue, with its number, a mark where it is recorded, and what is
/// said of it at the end; and it shows where the output goes.
pub proof fn the_menu_shows_what_is_chosen(
    state: &TuiState,
    shown: Vec<String>,
    i: int,
    detail: String,
)
    requires
        call_ensures(TuiState::render, (state,), shown),
        state.well_formed(),
        0 <= i < 5,
        call_ensures(TuiState::venue_detail, (state, state.venues@[i].id), detail),
    ensures
        shown@.len() == 18,
        shown@[2]@ == "Output dir: "@ + state.output_dir@,
        shown@[7 + i]@.len() > 6,
        shown@[7 + i]@[2] as int == '1' as int + i,
        shown@[7 + i]@[6] == (if state.venues@[i].enabled {
            'x'
        } else {
            ' '
        }),
        detail@.len() <= shown@[7 + i]@.len(),
        shown@[7 + i]@.skip(shown@[7 + i]@.len() - detail@.len()) == detail@,
{
    let all = text::texts(shown@);
    assert(all.len() == shown@.len());
    assert(state.venues@.len() == 5);
    assert(all[2] == shown@[2]@);
    assert(all[7 + i] == shown@[7 + i]@);
    let line = state.venue_line(i);
    assert(all[7 + i] == line);
    reveal_strlit("  ");
    reveal_strlit(") [");
    reveal_strlit("x");
    reveal_strlit(" ");
    let number = text::nat_text((i + 1) as nat);
    assert(number.len() == 1 && number[0] as int == '1' as int + i);
    assert(line[2] == number[0]);
    assert(line.skip(line.len() - detail@.len()) =~= detail@);
}

/// What the menu says of a venue ends in the market that would be recorded.
pub proof fn details_name_the_market(state: &TuiState, id: VenueId, detail: String)
    requires
        call_ensures(TuiState::venue_detail, (state, id), detail),
    ensures
        id == VenueId::Bitfinex ==> text::contains(detail@, state.bitfinex_symbol@),
        id == VenueId::Extended ==> text::contains(detail@, state.extended_market@)
            && text::contains(detail@, state.extended_spot_market@),
        id == VenueId::Hibachi ==> text::contains(detail@, state.hibachi_symbol@),
        id == VenueId::Deribit ==> text::contains(detail@, state.deribit_currency@),
        id == VenueId::Hyperliquid && text::trimmed(state.hyperliquid_spot_coin@).len() > 0
            ==> text::contains(detail@, state.hyperliquid_spot_coin@),
{
    let d = detail@;
    match id {
        VenueId::Bitfinex => lemma_ends_in(d, "symbol="@, state.bitfinex_symbol@),
        VenueId::Extended => {
            lemma_ends_in(
                d,
                "perp="@ + state.extended_market@ + " spot="@,
                state.extended_spot_market@,
            );
            let from = "perp="@.len() as int;
            assert(d.subrange(from, from + state.extended_market@.len())
                =~= state.extended_market@);
            assert(text::stands_at(d, state.extended_market@, from));
        },
        VenueId::Hibachi => lemma_ends_in(d, "symbol="@, state.hibachi_symbol@),
        VenueId::Deribit => lemma_ends_in(d, "currency="@, state.deribit_currency@),
        VenueId::Hyperliquid => {
            if text::trimmed(state.hyperliquid_spot_coin@).len() > 0 {
                lemma_ends_in(d, "spot_coin="@, state.hyperliquid_spot_coin@);
            }
        },
    }
}

proof fn lemma_ends_in(whole: Seq<char>, front: Seq<char>, end: Seq<char>)
    requires
        whole == front + end,
    ensures
        text::contains(whole, end),
{
    assert(whole.subrange(front.len() as int, whole.len() as int) =~= end);
    assert(text::stands_at(whole, end, front.len() as int));
}

} // verus!
