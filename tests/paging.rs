use twitch_client::links::LinkMap;
use twitch_client::model::game::TopGames;
use twitch_client::paging::{parse_bounded, Paged, Paging, PagingError};

#[test]
fn link_with_limit_and_offset_gives_that_page() {
    let p = Paging::from_url("https://api.twitch.tv/kraken/games/top?limit=2&offset=0");
    assert_eq!(p, Ok(Some(Paging::Page { offset: 0, limit: 2 })));
}

#[test]
fn link_with_limit_only_defaults_offset_to_zero() {
    let p = Paging::from_url("https://api.twitch.tv/kraken/games/top?limit=10");
    assert_eq!(p, Ok(Some(Paging::Page { offset: 0, limit: 10 })));
}

#[test]
fn link_with_offset_only_is_not_paginated() {
    let p = Paging::from_url("https://api.twitch.tv/kraken/games/top?offset=5");
    assert_eq!(p, Ok(None));
}

#[test]
fn malformed_link_is_invalid() {
    assert_eq!(Paging::from_url("not a url"), Err(PagingError::InvalidUrl));
}

#[test]
fn encoded_link_values_are_decoded() {
    let p = Paging::from_url(
        "https://api.twitch.tv/kraken/streams?game=StarCraft+II%3A+Heart&limit=100&offset=%31%30",
    );
    assert_eq!(p, Ok(Some(Paging::Page { offset: 10, limit: 100 })));
}

#[test]
fn later_pairs_win() {
    let pairs = vec![
        ("limit".to_string(), "5".to_string()),
        ("offset".to_string(), "3".to_string()),
        ("limit".to_string(), "7".to_string()),
    ];
    assert_eq!(Paging::from_query_pairs(&pairs), Some(Paging::Page { offset: 3, limit: 7 }));
}

#[test]
fn unparsable_limit_is_not_paginated_and_bad_offset_is_zero() {
    let bad_limit = vec![("limit".to_string(), "300".to_string())];
    assert_eq!(Paging::from_query_pairs(&bad_limit), None);
    let bad_offset = vec![
        ("limit".to_string(), "+4".to_string()),
        ("offset".to_string(), "-1".to_string()),
    ];
    assert_eq!(Paging::from_query_pairs(&bad_offset), Some(Paging::Page { offset: 0, limit: 4 }));
}

#[test]
fn limit_bounds_are_checked() {
    assert_eq!(Paging::new(0, 0), Err(PagingError::OutOfRange));
    assert_eq!(Paging::new(0, 101), Err(PagingError::OutOfRange));
    assert_eq!(Paging::new(3, 1), Ok(Paging::Page { offset: 3, limit: 1 }));
    assert_eq!(Paging::new(3, 100), Ok(Paging::Page { offset: 3, limit: 100 }));
}

#[test]
fn default_cursor_has_no_values() {
    let d = Paging::default();
    assert!(d.is_default());
    assert_eq!(d.limit(), None);
    assert_eq!(d.offset(), None);
    let p = Paging::new(20, 10).unwrap();
    assert!(!p.is_default());
    assert_eq!(p.limit(), Some(10));
    assert_eq!(p.offset(), Some(20));
}

#[test]
fn bounded_parse_follows_decimal_rules() {
    assert_eq!(parse_bounded("255", 255), Some(255));
    assert_eq!(parse_bounded("256", 255), None);
    assert_eq!(parse_bounded("+7", 255), Some(7));
    assert_eq!(parse_bounded("+", 255), None);
    assert_eq!(parse_bounded("", 255), None);
    assert_eq!(parse_bounded("-1", 255), None);
    assert_eq!(parse_bounded("007", 255), Some(7));
    assert_eq!(parse_bounded("4294967295", 4_294_967_295), Some(4_294_967_295));
    assert_eq!(parse_bounded("99999999999999999999", 4_294_967_295), None);
    assert_eq!(parse_bounded("1a", 255), None);
}

fn top_games(self_link: &str, next_link: &str) -> TopGames {
    let mut links = LinkMap::new();
    links.insert("self".to_string(), self_link.to_string());
    links.insert("next".to_string(), next_link.to_string());
    TopGames { links, total: 322, top: Vec::new() }
}

#[test]
fn paged_response_reads_its_cursor() {
    let games = top_games(
        "https://api.twitch.tv/kraken/games/top?limit=2&offset=0",
        "https://api.twitch.tv/kraken/games/top?limit=2&offset=2",
    );
    assert_eq!(games.paging(), Ok(Paging::Page { offset: 0, limit: 2 }));
    assert_eq!(games.current_page_link(), "https://api.twitch.tv/kraken/games/top?limit=2&offset=0");
    assert_eq!(games.next_page_link(), "https://api.twitch.tv/kraken/games/top?limit=2&offset=2");
    assert_eq!(games.link_self(), "https://api.twitch.tv/kraken/games/top?limit=2&offset=0");
    assert_eq!(games.link_next(), "https://api.twitch.tv/kraken/games/top?limit=2&offset=2");
    assert_eq!(games.total(), 322);
    assert!(games.top().is_empty());
}

#[test]
fn paged_response_without_limit_is_not_paginated() {
    let games = top_games("https://api.twitch.tv/kraken/games/top?offset=5", "x");
    assert_eq!(games.paging(), Err(PagingError::NotPaginated));
    let broken = top_games("::", "x");
    assert_eq!(broken.paging(), Err(PagingError::InvalidUrl));
}
