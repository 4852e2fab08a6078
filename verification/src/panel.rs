//! What the viewer shows: a panel with a title and a body of text.

use crate::game::display_lines;
use crate::moment::{date_text, day_of, Moment};
use crate::nav::{App, AppView};
use vstd::prelude::*;
use vstd::string::StringExecFns;

verus! {

/// The text under the games: a line feed that sets it apart, then the keys.
pub open spec fn legend() -> Seq<char> {
    "\nNavigation:\none day: j|k\none week: h|l\ntoday: t\nquit: q"@
}

/// The title above the games of the day written as `date`.
pub open spec fn results_title(date: Seq<char>) -> Seq<char> {
    "NBA Game results of: "@ + date
}

/// The title for a day that has not come yet, written as `date`.
pub open spec fn future_title(date: Seq<char>) -> Seq<char> {
    date + " is in the future."@
}

/// The keys of the viewer, to be shown under the games.
pub fn gen_navigation_paragraph() -> (text: &'static str)
    ensures
        text@ == legend(),
{
    "\nNavigation:\none day: j|k\none week: h|l\ntoday: t\nquit: q"
}

/// A bordered panel that fills the terminal.
#[derive(Clone, Debug, PartialEq, Eq)]
pub struct Panel {
    /// The text in the upper border; empty where the panel has no title.
    pub title: String,
    /// The text inside the border.
    pub body: String,
}

/// What a [`Panel`] holds, as plain values.
pub struct PanelView {
    pub title: Seq<char>,
    pub body: Seq<char>,
}

impl View for Panel {
    type V = PanelView;

    open spec fn view(&self) -> PanelView {
        PanelView { title: self.title@, body: self.body@ }
    }
}

/// The panel for the state `app` at the moment `now`, where `date` is the
/// selected date as written.
///
/// As long as no games were ever received, the panel is bare. After that, a
/// selected date that lies after `now` is announced as a future one and
/// nothing is shown for it, whatever is held; any other date gets the games
/// that are held, one line each and in their order, and the legend.
pub open spec fn panel_for(app: AppView, now: int, date: Seq<char>) -> PanelView {
    match app.game_data {
        None => PanelView { title: Seq::empty(), body: Seq::empty() },
        Some(held) => if app.day > now {
            PanelView { title: future_title(date), body: Seq::empty() }
        } else {
            PanelView { title: results_title(date), body: display_lines(held.data) + legend() }
        },
    }
}

/// The panel for `app` at the moment `now`, with the selected date written as
/// `date`.
pub fn compose(app: &App, now: Moment, date: &str) -> (panel: Panel)
    ensures
        panel@ == panel_for(app@, now@, date@),
{
    match &app.game_data {
        None => Panel { title: String::new(), body: String::new() },
        Some(held) => {
            if app.day.is_after(&now) {
                let mut title = String::from_str(date);
                title.append(" is in the future.");
                Panel { title, body: String::new() }
            } else {
                let mut title = String::from_str("NBA Game results of: ");
                title.append(date);
                let mut body = held.display_lines();
                body.append(gen_navigation_paragraph());
                Panel { title, body }
            }
        },
    }
}

/// The panel for `app` at the moment `now`: [`compose`] with the selected
/// date written as its UTC calendar day, `YYYY-MM-DD`.
pub fn ui(app: &App, now: Moment) -> (panel: Panel)
    ensures
        panel@ == panel_for(app@, now@, date_text(day_of(app@.day))),
{
    let date = app.day.day_text();
    compose(app, now, date.as_str())
}

/// A selected date after the present moment shows as a future date with
/// nothing under it, whatever games are held.
pub proof fn lemma_future_date_shows_nothing(app: AppView, now: int, date: Seq<char>)
    requires
        app.game_data is Some,
        app.day > now,
    ensures
        panel_for(app, now, date) == (PanelView {
            title: future_title(date),
            body: Seq::empty(),
        }),
{
}

/// Where the games held are none and the selected date is not a future one,
/// the body is the legend and nothing else.
pub proof fn lemma_no_games_shows_legend(app: AppView, now: int, date: Seq<char>)
    requires
        app.game_data matches Some(held) && held.data.len() == 0,
        app.day <= now,
    ensures
        panel_for(app, now, date).body == legend(),
        panel_for(app, now, date).title == results_title(date),
{
}

} // verus!
