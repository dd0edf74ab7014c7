use twitch_client::param::{
    FeaturedStreamsParams, IntoQueryString, StreamType, StreamsParams, StreamsSummaryParams,
    ToQueryString, TopGamesParams, TopGamesParamsBuilder,
};

#[test]
fn test_default_params_query_string_should_be_empty_to_use_twitch_default() {
    let params = TopGamesParams::default();
    assert_eq!(params.into_query_string(), "");
}

#[test]
fn test_one_param_should_only_set_one_query_value() {
    let params = TopGamesParams::new().with_limit(10);
    assert_eq!(params.into_query_string(), "?limit=10");
}

#[test]
fn test_multiple_params_should_concatenate_query_string_values_correctly() {
    let params = TopGamesParams::new().with_offset(5).with_limit(10);
    assert_eq!(params.into_query_string(), "?offset=5&limit=10");
}

#[test]
fn test_string_params_should_be_escaped_correctly() {
    let params = StreamsParams::new().with_game("StarCraft II: Heart of the Swarm");
    assert_eq!(params.into_query_string(), "?game=StarCraft%20II%3A%20Heart%20of%20the%20Swarm");
}

#[test]
fn test_empty_vec_query_string_should_be_empty_to_use_twitch_default() {
    let params = StreamsParams::default();
    assert_eq!(params.into_query_string(), "");
}

#[test]
fn test_strings_in_vec_should_be_concatenated_and_escaped_correctly() {
    let params = StreamsParams::new()
        .with_channel("StarCraft I")
        .with_channel("StarCraft II");
    assert_eq!(params.into_query_string(), "?channel=StarCraft%20I%2CStarCraft%20II");
}

#[test]
fn test_stream_type_should_set_correctly() {
    let params = StreamsParams::new().with_stream_type(StreamType::All);
    assert_eq!(params.into_query_string(), "?stream_type=all");
}

#[test]
fn builder_sets_offset_and_limit() {
    let params = TopGamesParamsBuilder::default().offset(0).limit(2).build();
    assert_eq!(params.offset(), Some(0));
    assert_eq!(params.limit(), Some(2));
    assert_eq!(params.to_query_string(), "?offset=0&limit=2");
}

#[test]
fn default_builder_builds_default_params() {
    let params = TopGamesParamsBuilder::new().build();
    assert_eq!(params, TopGamesParams::default());
    assert_eq!(params.to_query_string(), "");
}

#[test]
fn large_offset_is_rendered_in_decimal() {
    let params = TopGamesParams::new().with_offset(4_294_967_295);
    assert_eq!(params.to_query_string(), "?offset=4294967295");
}

#[test]
fn all_stream_params_keep_declaration_order() {
    let params = StreamsParams::new()
        .with_stream_type(StreamType::Live)
        .with_client_id("abc")
        .with_limit(25)
        .with_offset(50)
        .with_channel("one")
        .with_game("Go");
    assert_eq!(
        params.to_query_string(),
        "?game=Go&channel=one&offset=50&limit=25&client_id=abc&stream_type=live"
    );
    assert_eq!(params.to_query_string().matches('&').count(), 5);
}

#[test]
fn empty_channel_list_restores_default() {
    let params = StreamsParams::new().with_channel("a").with_channels(Vec::new());
    assert_eq!(params.to_query_string(), "");
}

#[test]
fn channel_list_replaces_earlier_channels() {
    let params = StreamsParams::new()
        .with_channel("a")
        .with_channels(vec!["b".to_string(), "c d".to_string()]);
    assert_eq!(params.into_query_string(), "?channel=b%2Cc%20d");
}

#[test]
fn stream_type_values_are_lower_case() {
    assert_eq!(StreamType::All.to_query_string_value(), "all");
    assert_eq!(StreamType::Playlist.to_query_string_value(), "playlist");
    assert_eq!(StreamType::Live.to_query_string_value(), "live");
}

#[test]
fn featured_streams_params_render_offset_and_limit() {
    assert_eq!(FeaturedStreamsParams::default().to_query_string(), "");
    let params = FeaturedStreamsParams::new().with_offset(5).with_limit(5);
    assert_eq!(params.into_query_string(), "?offset=5&limit=5");
}

#[test]
fn streams_summary_params_escape_the_game() {
    assert_eq!(StreamsSummaryParams::default().to_query_string(), "");
    let params = StreamsSummaryParams::new().with_game("Heart of the Swarm");
    assert_eq!(params.into_query_string(), "?game=Heart%20of%20the%20Swarm");
}

#[test]
fn game_with_separators_cannot_forge_a_channel() {
    let params = StreamsParams::new().with_game("x&channel=y");
    assert_eq!(params.to_query_string(), "?game=x%26channel%3Dy");
    assert!(!params.to_query_string().contains("channel="));
}
