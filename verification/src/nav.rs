//! The navigation state of the viewer and what each input does to it.
//!
//! The program around the library waits for an input, hands it to
//! [`App::update`], carries out the [`Action`] that comes back, and hands the
//! answer of the remote service to [`App::receive`].

use crate::fetch::{FetchError, FetchOutcome, FetchOutcomeView};
use crate::game::{GameData, GameDataView};
use crate::moment::{
    day_of, lemma_shift_moves_day, nanos_per_day, representable, shifted, Moment,
};
use vstd::prelude::*;

verus! {

/// How long one wait for an input may last, in milliseconds.
pub const POLL_TIMEOUT_MS: u64 = 250;

/// The key of a key event, as far as the viewer tells keys apart.
#[derive(Clone, Copy, Debug, PartialEq, Eq)]
pub enum KeyCode {
    /// A key that stands for a character.
    Char(char),
    /// Any other key.
    Other,
}

/// What happened to the key of a key event.
#[derive(Clone, Copy, Debug, PartialEq, Eq)]
pub enum KeyKind {
    Press,
    Repeat,
    Release,
}

/// What one wait for the terminal brought.
#[derive(Clone, Copy, Debug, PartialEq, Eq)]
pub enum Input {
    /// Nothing happened within the time allowed.
    Timeout,
    /// A key event.
    Key { code: KeyCode, kind: KeyKind },
    /// An event that is no key event.
    Other,
}

/// What an input asks of the viewer.
#[derive(Clone, Copy, Debug, PartialEq, Eq)]
pub enum Command {
    /// Nothing.
    Ignore,
    /// Move the selected date by this many days.
    Shift(i64),
    /// Select the present moment.
    Today,
    /// Leave.
    Quit,
}

/// The command that a character key gives when pressed: `h` and `j` move
/// forward by a week and a day, `l` and `k` back by a week and a day.
pub open spec fn command_for_char(c: char) -> Command {
    if c == 'h' {
        Command::Shift(7)
    } else if c == 'j' {
        Command::Shift(1)
    } else if c == 'k' {
        Command::Shift(-1i64)
    } else if c == 'l' {
        Command::Shift(-7i64)
    } else if c == 't' {
        Command::Today
    } else if c == 'q' {
        Command::Quit
    } else {
        Command::Ignore
    }
}

/// The command that an input gives. Only the press of a character key gives
/// one; a repeat, a release, another key, another event or none give nothing.
pub open spec fn command_for(input: Input) -> Command {
    match input {
        Input::Key { code: KeyCode::Char(c), kind: KeyKind::Press } => command_for_char(c),
        _ => Command::Ignore,
    }
}

/// The command that `input` gives.
pub fn command(input: Input) -> (given: Command)
    ensures
        given == command_for(input),
{
    match input {
        Input::Key { code: KeyCode::Char(c), kind: KeyKind::Press } => {
            if c == 'h' {
                Command::Shift(7)
            } else if c == 'j' {
                Command::Shift(1)
            } else if c == 'k' {
                Command::Shift(-1)
            } else if c == 'l' {
                Command::Shift(-7)
            } else if c == 't' {
                Command::Today
            } else if c == 'q' {
                Command::Quit
            } else {
                Command::Ignore
            }
        },
        _ => Command::Ignore,
    }
}

/// What the program is to do after an input was handled.
#[derive(Clone, Copy, Debug, PartialEq, Eq)]
pub enum Action {
    /// Nothing but to draw again.
    Idle,
    /// Ask the remote service for the games of this moment's day, then hand
    /// the outcome to [`App::receive`].
    Fetch(Moment),
}

impl View for Action {
    type V = Option<int>;

    open spec fn view(&self) -> Option<int> {
        match self {
            Action::Idle => None,
            Action::Fetch(day) => Some(day@),
        }
    }
}

/// The state of the viewer.
#[derive(Clone, Debug, PartialEq, Eq)]
pub struct App {
    /// The selected date: a moment of its day.
    pub day: Moment,
    /// Set when the user asked to leave; never cleared.
    pub should_quit: bool,
    /// The games last received, if any were.
    pub game_data: Option<GameData>,
}

/// What an [`App`] holds, as plain values.
pub struct AppView {
    pub day: int,
    pub should_quit: bool,
    pub game_data: Option<GameDataView>,
}

impl View for App {
    type V = AppView;

    open spec fn view(&self) -> AppView {
        AppView {
            day: self.day@,
            should_quit: self.should_quit,
            game_data: match self.game_data {
                Some(data) => Some(data@),
                None => None,
            },
        }
    }
}

/// The state after `input` was handled at the moment `now`.
pub open spec fn after_input(app: AppView, input: Input, now: int) -> AppView {
    match command_for(input) {
        Command::Ignore => app,
        Command::Shift(days) => AppView { day: shifted(app.day, days as int), ..app },
        Command::Today => AppView { day: now, ..app },
        Command::Quit => AppView { should_quit: true, ..app },
    }
}

/// The date to ask the remote service for after `input` was handled at the
/// moment `now`: the newly selected one, where the input selected a date, and
/// none otherwise.
pub open spec fn action_for(app: AppView, input: Input, now: int) -> Option<int> {
    match command_for(input) {
        Command::Shift(_) | Command::Today => Some(after_input(app, input, now).day),
        Command::Ignore | Command::Quit => None,
    }
}

/// The state after the outcome of a request was taken in: games that came
/// replace what was held, an unreadable answer leaves nothing, and after a
/// failure what was held stays.
pub open spec fn after_fetch(app: AppView, outcome: FetchOutcomeView) -> AppView {
    match outcome {
        FetchOutcomeView::Success(data) => AppView { game_data: Some(data), ..app },
        FetchOutcomeView::Empty => AppView { game_data: None, ..app },
        FetchOutcomeView::TransientError(_) => app,
    }
}

impl App {
    /// The state at the start, at the moment `now`: today is selected, no
    /// games are held, and the first request is for yesterday's games.
    pub fn start(now: Moment) -> (begun: (App, Action))
        requires
            representable(shifted(now@, -1)),
        ensures
            begun.0@ == (AppView { day: now@, should_quit: false, game_data: None }),
            begun.1@ == Some(shifted(now@, -1)),
    {
        let app = App { day: now, should_quit: false, game_data: None };
        (app, Action::Fetch(now.add_days(-1)))
    }

    /// Whether `input` can be handled in this state: whether the date that it
    /// selects, if it moves the date, is one that the calendar names.
    pub fn can_update(&self, input: Input) -> (ok: bool)
        ensures
            ok == (command_for(input) matches Command::Shift(days) ==> representable(
                shifted(self@.day, days as int),
            )),
    {
        match command(input) {
            Command::Shift(days) => self.day.checked_add_days(days).is_some(),
            _ => true,
        }
    }

    /// Handles one input at the moment `now`, and says what is to be done
    /// next.
    pub fn update(&mut self, input: Input, now: Moment) -> (action: Action)
        requires
            command_for(input) matches Command::Shift(days) ==> representable(
                shifted(old(self)@.day, days as int),
            ),
        ensures
            final(self)@ == after_input(old(self)@, input, now@),
            action@ == action_for(old(self)@, input, now@),
    {
        match command(input) {
            Command::Ignore => Action::Idle,
            Command::Shift(days) => {
                let day = self.day.add_days(days);
                self.day = day;
                Action::Fetch(day)
            },
            Command::Today => {
                self.day = now;
                Action::Fetch(now)
            },
            Command::Quit => {
                self.should_quit = true;
                Action::Idle
            },
        }
    }

    /// Whether the loop is to end once the panel has been drawn.
    pub fn finished(&self) -> (done: bool)
        ensures
            done == self@.should_quit,
    {
        self.should_quit
    }

    /// Takes in the outcome of a request.
    pub fn receive(&mut self, outcome: FetchOutcome)
        ensures
            final(self)@ == after_fetch(old(self)@, outcome@),
    {
        match outcome {
            FetchOutcome::Success(data) => {
                self.game_data = Some(data);
            },
            FetchOutcome::Empty => {
                self.game_data = None;
            },
            FetchOutcome::TransientError(_) => {},
        }
    }
}

/// One turn of the loop: the input that came, and the moment at which it was
/// handled.
pub struct Turn {
    pub input: Input,
    pub now: int,
}

/// The state after the inputs of `turns` were handled one after the other.
pub open spec fn after_turns(app: AppView, turns: Seq<Turn>) -> AppView
    decreases turns.len(),
{
    if turns.len() == 0 {
        app
    } else {
        after_input(after_turns(app, turns.drop_last()), turns.last().input, turns.last().now)
    }
}

/// The days by which a command moves the selected date.
pub open spec fn day_offset(command: Command) -> int {
    match command {
        Command::Shift(days) => days as int,
        _ => 0,
    }
}

/// The sum of the days by which the inputs of `turns` move the selected date.
pub open spec fn total_offset(turns: Seq<Turn>) -> int
    decreases turns.len(),
{
    if turns.len() == 0 {
        0
    } else {
        total_offset(turns.drop_last()) + day_offset(command_for(turns.last().input))
    }
}

/// Handling one run of inputs and then another is handling the two runs as
/// one.
pub proof fn lemma_turns_in_two_runs(app: AppView, first: Seq<Turn>, second: Seq<Turn>)
    ensures
        after_turns(app, first + second) == after_turns(after_turns(app, first), second),
    decreases second.len(),
{
    if second.len() > 0 {
        lemma_turns_in_two_runs(app, first, second.drop_last());
        assert((first + second).drop_last() =~= first + second.drop_last());
    }
}

/// Whatever inputs come, as long as none of them selects the present moment,
/// the selected date moves by exactly the sum of the days that the
/// navigation keys among them stand for, and keeps its time of day; every
/// other input leaves it alone.
pub proof fn lemma_date_moves_by_offsets(app: AppView, turns: Seq<Turn>)
    requires
        forall|i: int| 0 <= i < turns.len() ==> !(command_for(#[trigger] turns[i].input) is Today),
    ensures
        after_turns(app, turns).day == shifted(app.day, total_offset(turns)),
        day_of(after_turns(app, turns).day) == day_of(app.day) + total_offset(turns),
    decreases turns.len(),
{
    assert(nanos_per_day() == 86_400_000_000_000);
    if turns.len() > 0 {
        lemma_date_moves_by_offsets(app, turns.drop_last());
    }
    lemma_shift_moves_day(app.day, total_offset(turns));
}

/// An input that selects no date leaves the selected date as it was, and asks
/// for no request.
pub proof fn lemma_other_inputs_keep_date(app: AppView, input: Input, now: int)
    requires
        !(command_for(input) is Shift),
        !(command_for(input) is Today),
    ensures
        after_input(app, input, now).day == app.day,
        after_input(app, input, now).game_data == app.game_data,
        action_for(app, input, now) is None,
{
}

/// The key for today selects the moment at which it is handled, whatever was
/// selected before and however the selection got there, and asks for the
/// games of that moment's day.
pub proof fn lemma_today_selects_now(app: AppView, turns: Seq<Turn>, last: Turn)
    requires
        command_for(last.input) is Today,
    ensures
        after_turns(app, turns.push(last)).day == last.now,
        action_for(after_turns(app, turns), last.input, last.now) == Some(last.now),
{
}

/// After the key for today, the inputs that follow count from the moment at
/// which that key was handled: what came before it no longer bears on the
/// selected date.
pub proof fn lemma_date_counts_from_today(
    app: AppView,
    before: Seq<Turn>,
    today: Turn,
    since: Seq<Turn>,
)
    requires
        command_for(today.input) is Today,
        forall|i: int| 0 <= i < since.len() ==> !(command_for(#[trigger] since[i].input) is Today),
    ensures
        after_turns(app, before.push(today) + since).day == shifted(today.now, total_offset(since)),
{
    lemma_turns_in_two_runs(app, before.push(today), since);
    lemma_today_selects_now(app, before, today);
    lemma_date_moves_by_offsets(after_turns(app, before.push(today)), since);
}

/// The key for leaving sets the flag for leaving and nothing else, and asks
/// for no request.
pub proof fn lemma_quit_sets_flag_only(app: AppView, input: Input, now: int)
    requires
        command_for(input) is Quit,
    ensures
        after_input(app, input, now) == (AppView { should_quit: true, ..app }),
        action_for(app, input, now) is None,
{
}

/// Once set, the flag for leaving stays set, whatever inputs come.
pub proof fn lemma_quit_is_final(app: AppView, turns: Seq<Turn>)
    requires
        app.should_quit,
    ensures
        after_turns(app, turns).should_quit,
    decreases turns.len(),
{
    if turns.len() > 0 {
        lemma_quit_is_final(app, turns.drop_last());
    }
}

/// No input changes the games that are held: only the outcome of a request
/// does.
pub proof fn lemma_inputs_keep_games(app: AppView, turns: Seq<Turn>)
    ensures
        after_turns(app, turns).game_data == app.game_data,
    decreases turns.len(),
{
    if turns.len() > 0 {
        lemma_inputs_keep_games(app, turns.drop_last());
    }
}

/// A request that failed changes nothing: the games held before are held
/// after, and neither the date nor the flag for leaving moves.
pub proof fn lemma_failure_keeps_state(app: AppView, why: FetchError)
    ensures
        after_fetch(app, FetchOutcomeView::TransientError(why)) == app,
{
}

/// The outcome of a request moves neither the selected date nor the flag for
/// leaving.
pub proof fn lemma_fetch_keeps_date(app: AppView, outcome: FetchOutcomeView)
    ensures
        after_fetch(app, outcome).day == app.day,
        after_fetch(app, outcome).should_quit == app.should_quit,
{
}

} // verus!
