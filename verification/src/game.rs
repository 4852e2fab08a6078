//! The games of one day as the remote service describes them, and the line of
//! text that shows one game.

use crate::text::{append_decimal, decimal_digits};
use vstd::prelude::*;
use vstd::string::StringExecFns;

verus! {

/// One of the two teams of a game.
#[derive(Clone, Debug, PartialEq, Eq)]
pub struct Team {
    pub id: u32,
    pub abbreviation: String,
    pub city: String,
    pub conference: String,
    pub division: String,
    pub full_name: String,
    pub name: String,
}

/// What a [`Team`] holds, as plain values.
pub struct TeamView {
    pub id: nat,
    pub abbreviation: Seq<char>,
    pub city: Seq<char>,
    pub conference: Seq<char>,
    pub division: Seq<char>,
    pub full_name: Seq<char>,
    pub name: Seq<char>,
}

impl View for Team {
    type V = TeamView;

    open spec fn view(&self) -> TeamView {
        TeamView {
            id: self.id as nat,
            abbreviation: self.abbreviation@,
            city: self.city@,
            conference: self.conference@,
            division: self.division@,
            full_name: self.full_name@,
            name: self.name@,
        }
    }
}

/// One game: who played, and the score.
#[derive(Clone, Debug, PartialEq, Eq)]
pub struct Game {
    pub id: u32,
    pub date: String,
    pub home_team: Team,
    pub home_team_score: u32,
    pub period: u32,
    pub postseason: bool,
    pub season: u32,
    pub status: String,
    pub time: Option<String>,
    pub visitor_team: Team,
    pub visitor_team_score: u32,
}

/// What a [`Game`] holds, as plain values.
pub struct GameView {
    pub id: nat,
    pub date: Seq<char>,
    pub home_team: TeamView,
    pub home_team_score: nat,
    pub period: nat,
    pub postseason: bool,
    pub season: nat,
    pub status: Seq<char>,
    pub time: Option<Seq<char>>,
    pub visitor_team: TeamView,
    pub visitor_team_score: nat,
}

impl View for Game {
    type V = GameView;

    open spec fn view(&self) -> GameView {
        GameView {
            id: self.id as nat,
            date: self.date@,
            home_team: self.home_team@,
            home_team_score: self.home_team_score as nat,
            period: self.period as nat,
            postseason: self.postseason,
            season: self.season as nat,
            status: self.status@,
            time: match self.time {
                Some(t) => Some(t@),
                None => None,
            },
            visitor_team: self.visitor_team@,
            visitor_team_score: self.visitor_team_score as nat,
        }
    }
}

impl GameView {
    /// Home team, both scores, visiting team: `LAL 101:99 BOS`.
    pub open spec fn score_line(self) -> Seq<char> {
        self.home_team.abbreviation + seq![' '] + decimal_digits(self.home_team_score) + seq![':']
            + decimal_digits(self.visitor_team_score) + seq![' '] + self.visitor_team.abbreviation
    }

    /// The score line, closed by a line feed.
    pub open spec fn display_line(self) -> Seq<char> {
        self.score_line() + seq!['\n']
    }
}

/// The display lines of `games`, one after the other in the order given.
pub open spec fn display_lines(games: Seq<GameView>) -> Seq<char>
    decreases games.len(),
{
    if games.len() == 0 {
        Seq::empty()
    } else {
        display_lines(games.drop_last()) + games.last().display_line()
    }
}

impl Game {
    /// The game in one line, without a line end.
    pub fn score_line(&self) -> (line: String)
        ensures
            line@ == self@.score_line(),
    {
        proof {
            reveal_strlit(" ");
            reveal_strlit(":");
        }
        let mut line = String::new();
        line.append(self.home_team.abbreviation.as_str());
        line.append(" ");
        append_decimal(&mut line, self.home_team_score);
        line.append(":");
        append_decimal(&mut line, self.visitor_team_score);
        line.append(" ");
        line.append(self.visitor_team.abbreviation.as_str());
        line
    }

    /// The game in one line of the panel, line feed included.
    pub fn get_display_line(&self) -> (line: String)
        ensures
            line@ == self@.display_line(),
    {
        proof {
            reveal_strlit("\n");
        }
        let mut line = self.score_line();
        line.append("\n");
        line
    }
}

/// Where a page of results stands among the pages of its day.
#[derive(Clone, Debug, PartialEq, Eq)]
pub struct Meta {
    pub current_page: u32,
    pub next_page: Option<u32>,
    pub per_page: u32,
}

/// What a [`Meta`] holds, as plain values.
pub struct MetaView {
    pub current_page: nat,
    pub next_page: Option<nat>,
    pub per_page: nat,
}

impl View for Meta {
    type V = MetaView;

    open spec fn view(&self) -> MetaView {
        MetaView {
            current_page: self.current_page as nat,
            next_page: match self.next_page {
                Some(p) => Some(p as nat),
                None => None,
            },
            per_page: self.per_page as nat,
        }
    }
}

/// The games of one day, in the order the service sent them, and the paging
/// data that came with them. Only the first page is ever asked for.
#[derive(Clone, Debug, PartialEq, Eq)]
pub struct GameData {
    pub data: Vec<Game>,
    pub meta: Meta,
}

/// What a [`GameData`] holds, as plain values.
pub struct GameDataView {
    pub data: Seq<GameView>,
    pub meta: MetaView,
}

impl View for GameData {
    type V = GameDataView;

    open spec fn view(&self) -> GameDataView {
        GameDataView { data: self.data@.map_values(|g: Game| g@), meta: self.meta@ }
    }
}

impl GameData {
    /// The score lines of all games, one string each, in their order.
    pub fn score_lines(&self) -> (lines: Vec<String>)
        ensures
            lines@.len() == self@.data.len(),
            forall|i: int|
                0 <= i < lines@.len() ==> (#[trigger] lines@[i])@ == self@.data[i].score_line(),
    {
        let mut lines: Vec<String> = Vec::new();
        let mut i: usize = 0;
        while i < self.data.len()
            invariant
                i <= self.data.len(),
                lines@.len() == i,
                forall|k: int|
                    0 <= k < i ==> (#[trigger] lines@[k])@ == self@.data[k].score_line(),
            decreases self.data.len() - i,
        {
            lines.push(self.data[i].score_line());
            i += 1;
        }
        lines
    }

    /// The display lines of all games, in their order.
    pub fn display_lines(&self) -> (text: String)
        ensures
            text@ == display_lines(self@.data),
    {
        let mut text = String::new();
        let mut i: usize = 0;
        while i < self.data.len()
            invariant
                i <= self.data.len(),
                text@ == display_lines(self@.data.take(i as int)),
            decreases self.data.len() - i,
        {
            let line = self.data[i].get_display_line();
            text.append(line.as_str());
            assert(self@.data.take(i + 1).drop_last() =~= self@.data.take(i as int));
            i += 1;
        }
        assert(self@.data.take(i as int) =~= self@.data);
        text
    }
}

} // verus!
