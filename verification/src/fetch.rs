//! The request for one day's games, and the ways in which asking can end.

use crate::game::GameData;
use crate::moment::{date_text, day_of, Moment};
use vstd::prelude::*;
use vstd::string::StringExecFns;

verus! {

/// The address that answers with the games of the day written as `date`: the
/// games endpoint with the one query parameter `dates[]`.
pub open spec fn games_url(date: Seq<char>) -> Seq<char> {
    "https://www.balldontlie.io/api/v1/games/"@ + "?dates[]="@ + date
}

/// The address to ask for the games of the day written as `date`
/// (`YYYY-MM-DD`).
pub fn url_for_date(date: &str) -> (url: String)
    ensures
        url@ == games_url(date@),
{
    let mut url = String::from_str("https://www.balldontlie.io/api/v1/games/");
    url.append("?dates[]=");
    url.append(date);
    url
}

/// The address to ask for the games of the UTC calendar day of `day`.
pub fn request_url(day: &Moment) -> (url: String)
    ensures
        url@ == games_url(date_text(day_of(day@))),
{
    let date = day.day_text();
    url_for_date(date.as_str())
}

/// Whether a response with the HTTP status `status` is one that succeeded:
/// whether the status is one of the 2xx.
pub fn is_success(status: u16) -> (ok: bool)
    ensures
        ok == (200 <= status < 300),
{
    200 <= status && status < 300
}

/// Why a request brought no answer that could be used.
#[derive(Clone, Copy, Debug, PartialEq, Eq)]
pub enum FetchError {
    /// The request could not be sent, or no response came.
    Network,
    /// The response was not the JSON that the service documents.
    Decode,
}

/// How asking for one day's games ended.
#[derive(Clone, Debug, PartialEq, Eq)]
pub enum FetchOutcome {
    /// The games of the day; there may be none.
    Success(GameData),
    /// A response came, but its body could not be read: there is nothing to
    /// show for that day.
    Empty,
    /// The attempt failed in a way that may pass; what was shown before stays.
    TransientError(FetchError),
}

/// What a [`FetchOutcome`] holds, as plain values.
pub enum FetchOutcomeView {
    Success(crate::game::GameDataView),
    Empty,
    TransientError(FetchError),
}

impl View for FetchOutcome {
    type V = FetchOutcomeView;

    open spec fn view(&self) -> FetchOutcomeView {
        match self {
            FetchOutcome::Success(data) => FetchOutcomeView::Success(data@),
            FetchOutcome::Empty => FetchOutcomeView::Empty,
            FetchOutcome::TransientError(why) => FetchOutcomeView::TransientError(*why),
        }
    }
}

} // verus!
