use twitch_client::error::Error;
use twitch_client::http::{
    classify_status, interpret_response, status_class, ResponseKind, StatusClass, TwitchHttpClient,
    ACCEPT_MEDIA_TYPE, BASE_URL,
};
use twitch_client::param::{ToQueryString, TopGamesParams};

#[test]
fn ok_response_gives_body_unchanged() {
    let body = "{\"_total\": 1}".to_string();
    let r = interpret_response("https://x/y", 200, body.clone());
    assert_eq!(r, Ok(body));
}

#[test]
fn unauthorized_response_carries_url() {
    let r = interpret_response("https://api.twitch.tv/kraken/user", 401, String::new());
    assert_eq!(r, Err(Error::Unauthorized("https://api.twitch.tv/kraken/user".to_string())));
}

#[test]
fn server_error_carries_status_and_body() {
    let r = interpret_response("https://x/y", 503, "down".to_string());
    assert_eq!(r, Err(Error::UpstreamServerError { status: 503, body: "down".to_string() }));
}

#[test]
fn statuses_are_classified() {
    assert_eq!(classify_status(200), ResponseKind::Content);
    assert_eq!(classify_status(204), ResponseKind::UnhandledSuccess);
    assert_eq!(classify_status(401), ResponseKind::Unauthorized);
    assert_eq!(classify_status(404), ResponseKind::UnhandledClientError);
    assert_eq!(classify_status(500), ResponseKind::ServerError);
    assert_eq!(classify_status(599), ResponseKind::ServerError);
    assert_eq!(classify_status(302), ResponseKind::UnhandledStatus);
    assert_eq!(classify_status(600), ResponseKind::UnhandledStatus);
    assert_eq!(status_class(99), StatusClass::NoClass);
    assert_eq!(status_class(100), StatusClass::Informational);
    assert_eq!(status_class(399), StatusClass::Redirection);
}

#[test]
fn url_is_base_plus_relative_path() {
    let client = TwitchHttpClient::new(None);
    assert_eq!(client.create_url_string("/ingests"), "https://api.twitch.tv/kraken/ingests");
    assert_eq!(BASE_URL, "https://api.twitch.tv/kraken");
}

#[test]
fn end_to_end_url_of_top_games() {
    let params = TopGamesParams::new().with_offset(0).with_limit(2);
    let query = params.to_query_string();
    assert_eq!(query, "?offset=0&limit=2");
    let client = TwitchHttpClient::new(Some("id".to_string()));
    assert_eq!(
        client.create_url_with_query("/games/top", &query),
        "https://api.twitch.tv/kraken/games/top?offset=0&limit=2"
    );
}

#[test]
fn custom_base_url_is_used() {
    let client = TwitchHttpClient::with_base_url(None, "http://localhost:8080");
    assert_eq!(client.create_url_with_query("/a", "?b=c"), "http://localhost:8080/a?b=c");
}

#[test]
fn headers_carry_accept_and_client_id() {
    let anonymous = TwitchHttpClient::new(None);
    assert_eq!(
        anonymous.create_default_headers(),
        vec![("Accept".to_string(), ACCEPT_MEDIA_TYPE.to_string())]
    );
    let mut client = TwitchHttpClient::new(None);
    client.set_client_id("my-app");
    assert_eq!(
        client.create_default_headers(),
        vec![
            ("Accept".to_string(), "application/vnd.twitchtv.v3+json".to_string()),
            ("Client-ID".to_string(), "my-app".to_string()),
        ]
    );
}

#[test]
fn error_descriptions() {
    assert_eq!(Error::Transport("reset".to_string()).description(), "reset");
    assert_eq!(Error::Deserialization("eof".to_string()).description(), "eof");
    assert_eq!(
        Error::Unauthorized("u".to_string()).description(),
        "Tried to access a secured resource prior to authentication"
    );
}
