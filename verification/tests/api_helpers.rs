use spoty::albums::settings_top_items_error_message;
use spoty::albums::settings_top_items_url;
use spoty::query_builder::QueryBuilder;
use spoty::recommendations::{
    PrimaryRecommendationsClient, RecommendationSeeds, RecommendationsClient, select_seed_tracks,
};
use spoty::settings::Settings;
use spoty::top_tracks::{TimeRange, TopItemType, top_items_error_message, top_items_request_url};

#[test]
fn test_time_range_string_conversion() {
    assert_eq!(TimeRange::LongTerm.as_str(), "long_term");
    assert_eq!(TimeRange::MediumTerm.as_str(), "medium_term");
    assert_eq!(TimeRange::ShortTerm.as_str(), "short_term");
}

#[test]
fn test_top_item_type_string_conversion() {
    assert_eq!(TopItemType::Artists.as_str(), "artists");
    assert_eq!(TopItemType::Tracks.as_str(), "tracks");
}

#[test]
fn test_recommendation_seeds() {
    let seeds = RecommendationSeeds::new()
        .add_track("4NHQUGzhtTLFvgF5SZesLK")
        .add_track("0c6xIDDpzE81m2q797ordA");

    assert_eq!(seeds.seeds.len(), 2);
    assert!(seeds.is_valid());
}

#[test]
fn test_invalid_seeds() {
    let empty_seeds = RecommendationSeeds::new();
    assert!(!empty_seeds.is_valid());

    let mut too_many_seeds = RecommendationSeeds::new();
    for i in 0..6 {
        too_many_seeds = too_many_seeds.add_track(&format!("track_{}", i));
    }
    assert!(!too_many_seeds.is_valid());
}

#[test]
fn test_recommendations_client_creation() {
    let _client = RecommendationsClient::new();
    assert!(true);
}

#[test]
fn test_primary_recommendations_client_creation() {
    let _client = PrimaryRecommendationsClient::new();
    assert!(true);
}

#[test]
fn test_primary_recommendations_client_methods_exist() {
    let _client = PrimaryRecommendationsClient::new();
    assert!(true);
}

#[test]
fn query_builder_renders_params_in_order() {
    let params = QueryBuilder::new()
        .add_u32("size", 20)
        .add_string_vec("seeds", vec!["track1".to_string(), "track2".to_string()])
        .add_optional_i32("key", Some(5))
        .add_optional_i32("energy", None)
        .add_optional_u32("popularity", Some(80))
        .add_optional_string("market", Some("US".to_string()))
        .build();

    assert_eq!(params, "size=20&seeds=track1,track2&key=5&popularity=80&market=US");
}

#[test]
fn query_builder_skips_empty_vec_and_none() {
    let params = QueryBuilder::new()
        .add_string_vec("seeds", Vec::new())
        .add_optional_u32("limit", None)
        .add_optional_string("market", None)
        .build();
    assert_eq!(params, "");
}

#[test]
fn query_builder_negative_values_render_signed() {
    let params = QueryBuilder::new().add_optional_i32("key", Some(-7)).build();
    assert_eq!(params, "key=-7");
}

#[test]
fn build_with_url_percent_encodes_keys_and_values() {
    let url = QueryBuilder::new()
        .add_param("q", "a b&c=d".to_string())
        .build_with_url("https://example.test/search");
    assert_eq!(url, "https://example.test/search?q=a%20b%26c%3Dd");
}

#[test]
fn build_with_url_without_params_is_base() {
    let url = QueryBuilder::new().build_with_url("https://example.test/search");
    assert_eq!(url, "https://example.test/search");
}

#[test]
fn top_items_url_carries_all_params() {
    let url = top_items_request_url(
        &TopItemType::Tracks,
        Some(&TimeRange::ShortTerm),
        Some(10),
        Some(4),
    );
    assert_eq!(
        url,
        "https://api.spotify.com/v1/me/top/tracks?time_range=short_term&limit=10&offset=4"
    );
}

#[test]
fn top_items_url_clamps_limit() {
    let low = top_items_request_url(&TopItemType::Artists, None, Some(0), None);
    assert_eq!(low, "https://api.spotify.com/v1/me/top/artists?limit=1");
    let high = top_items_request_url(&TopItemType::Artists, None, Some(100), None);
    assert_eq!(high, "https://api.spotify.com/v1/me/top/artists?limit=50");
}

#[test]
fn top_items_url_without_params_has_no_query() {
    let url = top_items_request_url(&TopItemType::Tracks, None, None, None);
    assert_eq!(url, "https://api.spotify.com/v1/me/top/tracks");
}

#[test]
fn top_items_error_messages_by_status() {
    assert_eq!(
        top_items_error_message(401, ""),
        "Authentication failed - your access token may be expired or invalid. Please re-authenticate."
    );
    assert_eq!(
        top_items_error_message(403, ""),
        "Forbidden - insufficient permissions. Ensure you have the 'user-top-read' scope."
    );
    assert_eq!(
        top_items_error_message(429, ""),
        "Rate limit exceeded - too many requests. Please wait a moment and try again."
    );
    assert_eq!(
        top_items_error_message(503, ""),
        "Spotify API server error - please try again later."
    );
    assert_eq!(
        top_items_error_message(404, "gone"),
        "API request failed with status: 404 - gone"
    );
}

#[test]
fn settings_url_uses_limit_from_settings() {
    let settings = Settings { limit: 7, market: "US".to_string() };
    let url = settings_top_items_url(&settings, "tracks", "medium_term", 14);
    assert_eq!(
        url,
        "https://api.spotify.com/v1/me/top/tracks?limit=7&offset=14&time_range=medium_term"
    );
}

#[test]
fn settings_default_values() {
    let settings = Settings::default();
    assert_eq!(settings.limit, 5);
    assert_eq!(settings.market, "US");
}

#[test]
fn settings_error_message_distinguishes_scope() {
    assert_eq!(
        settings_top_items_error_message(403, "error: Insufficient client scope for this"),
        "Insufficient permissions - your access token doesn't have the required scope. You need 'user-top-read' scope to access top items. Please re-authenticate with the correct scopes."
    );
    assert_eq!(
        settings_top_items_error_message(403, "no such user"),
        "Forbidden - no such user"
    );
}

#[test]
fn recommendations_url_encodes_seed_list() {
    let client = RecommendationsClient::new();
    let seeds = RecommendationSeeds::new().add_track("track1").add_track("track2");
    let url = client.recommendations_request_url(&seeds, 10).unwrap();
    assert_eq!(
        url,
        "https://api.reccobeats.com/v1/track/recommendation?size=10&seeds=track1%2Ctrack2"
    );
}

#[test]
fn recommendations_url_refuses_empty_and_oversized_seeds() {
    let client = RecommendationsClient::new();
    let empty = RecommendationSeeds::new();
    assert_eq!(
        client.recommendations_request_url(&empty, 10).unwrap_err(),
        "Invalid seeds: must have 1 seed at least"
    );
    let mut six = RecommendationSeeds::new();
    for i in 0..6 {
        six = six.add_track(&format!("t{}", i));
    }
    assert!(client.recommendations_request_url(&six, 10).is_err());
}

#[test]
fn seed_selection_keeps_first_occurrences_top_first() {
    let top = vec!["a".to_string(), "b".to_string(), "a".to_string()];
    let recent = vec!["b".to_string(), "c".to_string(), "a".to_string(), "d".to_string()];
    let merged = select_seed_tracks(&top, &recent);
    assert_eq!(merged, vec!["a", "b", "c", "d"]);
}

#[test]
fn primary_request_cuts_seeds_to_five() {
    let client = PrimaryRecommendationsClient::new();
    let top: Vec<String> = (0..8).map(|i| format!("top{}", i)).collect();
    let recent: Vec<String> = vec!["r1".to_string()];
    let url = client.plan_primary_request(&top, &recent, None).unwrap();
    assert_eq!(
        url,
        "https://api.reccobeats.com/v1/track/recommendation?size=10&seeds=top0%2Ctop1%2Ctop2%2Ctop3%2Ctop4"
    );
}

#[test]
fn primary_request_without_history_fails() {
    let client = PrimaryRecommendationsClient::new();
    let none: Vec<String> = Vec::new();
    let r = client.plan_primary_request(&none, &none, Some(5));
    assert_eq!(r.unwrap_err(), "Invalid seeds: must have 1 seed at least");
}
