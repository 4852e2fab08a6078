use nba_results::fetch::{is_success, request_url, url_for_date};
use nba_results::game::{Game, GameData, Meta, Team};
use nba_results::moment::Moment;
use nba_results::text::{append_decimal, decimal_string};

fn team_named(abbreviation: &str) -> Team {
    Team {
        id: 14,
        abbreviation: abbreviation.to_string(),
        city: "Somewhere".to_string(),
        conference: "West".to_string(),
        division: "Pacific".to_string(),
        full_name: format!("Somewhere {}", abbreviation),
        name: abbreviation.to_string(),
    }
}

fn game_between(home: &str, home_score: u32, visitor: &str, visitor_score: u32) -> Game {
    Game {
        id: 857_611,
        date: "2023-01-15T00:00:00.000Z".to_string(),
        home_team: team_named(home),
        home_team_score: home_score,
        period: 4,
        postseason: false,
        season: 2022,
        status: "Final".to_string(),
        time: None,
        visitor_team: team_named(visitor),
        visitor_team_score: visitor_score,
    }
}

fn page_of(games: Vec<Game>) -> GameData {
    GameData { data: games, meta: Meta { current_page: 1, next_page: None, per_page: 25 } }
}

#[test]
fn decimal_string_of_small_numbers() {
    assert_eq!(decimal_string(0), "0");
    assert_eq!(decimal_string(7), "7");
    assert_eq!(decimal_string(9), "9");
    assert_eq!(decimal_string(10), "10");
    assert_eq!(decimal_string(99), "99");
    assert_eq!(decimal_string(100), "100");
    assert_eq!(decimal_string(101), "101");
}

#[test]
fn decimal_string_of_large_numbers() {
    assert_eq!(decimal_string(1_000_000), "1000000");
    assert_eq!(decimal_string(1_234_567_890), "1234567890");
    assert_eq!(decimal_string(u32::MAX), "4294967295");
}

#[test]
fn decimal_string_agrees_with_the_standard_formatting() {
    let mut n: u32 = 1;
    for _ in 0..40 {
        assert_eq!(decimal_string(n), n.to_string());
        assert_eq!(decimal_string(n - 1), (n - 1).to_string());
        n = n.wrapping_mul(7).wrapping_add(3);
        if n == 0 {
            n = 1;
        }
    }
}

#[test]
fn append_decimal_writes_after_what_is_there() {
    let mut out = String::from("score: ");
    append_decimal(&mut out, 120);
    assert_eq!(out, "score: 120");
    append_decimal(&mut out, 0);
    assert_eq!(out, "score: 1200");
}

#[test]
fn display_line_of_one_game() {
    let game = game_between("LAL", 101, "BOS", 99);
    assert_eq!(game.get_display_line(), "LAL 101:99 BOS\n");
}

#[test]
fn display_line_before_the_game_started() {
    let game = game_between("NYK", 0, "MIA", 0);
    assert_eq!(game.get_display_line(), "NYK 0:0 MIA\n");
}

#[test]
fn display_line_takes_abbreviations_as_they_are() {
    let game = game_between("", 5, "a b", 150);
    assert_eq!(game.get_display_line(), " 5:150 a b\n");
}

#[test]
fn score_line_has_no_line_end() {
    let game = game_between("LAL", 101, "BOS", 99);
    assert_eq!(game.score_line(), "LAL 101:99 BOS");
    assert_eq!(format!("{}\n", game.score_line()), game.get_display_line());
}

#[test]
fn display_lines_keep_the_order_of_the_games() {
    let page = page_of(vec![
        game_between("LAL", 101, "BOS", 99),
        game_between("GSW", 88, "DEN", 120),
        game_between("CHI", 97, "ATL", 97),
    ]);
    assert_eq!(page.display_lines(), "LAL 101:99 BOS\nGSW 88:120 DEN\nCHI 97:97 ATL\n");
}

#[test]
fn display_lines_of_no_games_are_empty() {
    assert_eq!(page_of(Vec::new()).display_lines(), "");
}

#[test]
fn display_lines_are_the_display_lines_joined() {
    let games = vec![game_between("PHX", 111, "SAC", 109), game_between("UTA", 90, "POR", 91)];
    let joined: String = games.iter().map(|g| g.get_display_line()).collect::<Vec<String>>().join("");
    assert_eq!(page_of(games).display_lines(), joined);
}

#[test]
fn url_for_date_puts_the_date_in_the_query() {
    assert_eq!(
        url_for_date("2023-01-15"),
        "https://www.balldontlie.io/api/v1/games/?dates[]=2023-01-15"
    );
}

#[test]
fn url_for_date_takes_the_date_as_written() {
    assert_eq!(url_for_date(""), "https://www.balldontlie.io/api/v1/games/?dates[]=");
    assert_eq!(
        url_for_date("yesterday"),
        "https://www.balldontlie.io/api/v1/games/?dates[]=yesterday"
    );
}

#[test]
fn request_url_names_the_utc_day() {
    let noon = Moment::from_timestamp(1_673_740_800 + 43_200, 5).unwrap();
    assert_eq!(request_url(&noon), "https://www.balldontlie.io/api/v1/games/?dates[]=2023-01-15");
    let last_second = Moment::from_timestamp(1_673_740_800 + 86_399, 0).unwrap();
    assert_eq!(
        request_url(&last_second),
        "https://www.balldontlie.io/api/v1/games/?dates[]=2023-01-15"
    );
    let leap_day = Moment::from_timestamp(1_709_164_800, 0).unwrap();
    assert_eq!(
        request_url(&leap_day),
        "https://www.balldontlie.io/api/v1/games/?dates[]=2024-02-29"
    );
}

#[test]
fn score_lines_give_one_line_for_each_game() {
    let page = page_of(vec![
        game_between("LAL", 101, "BOS", 99),
        game_between("GSW", 88, "DEN", 120),
    ]);
    assert_eq!(page.score_lines(), vec!["LAL 101:99 BOS".to_string(), "GSW 88:120 DEN".to_string()]);
    assert_eq!(page_of(Vec::new()).score_lines(), Vec::<String>::new());
}

#[test]
fn success_is_a_status_of_the_two_hundreds() {
    assert!(is_success(200));
    assert!(is_success(204));
    assert!(is_success(299));
    assert!(!is_success(199));
    assert!(!is_success(300));
    assert!(!is_success(404));
    assert!(!is_success(500));
    assert!(!is_success(0));
    assert!(!is_success(u16::MAX));
}
