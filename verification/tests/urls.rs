//! URL construction tests: exact text, host, ordering and omission of
//! query parameters.

use twitch_helix::api_url::{oauth_url, ApiBase, ApiUrl};
use twitch_helix::request::analytics::ReportType;
use twitch_helix::request::analytics_extensions;
use twitch_helix::request::analytics_games;
use twitch_helix::request::bits_cheermotes;
use twitch_helix::request::channel_info;
use twitch_helix::request::channels_commercial::{Length, Request as CommercialRequest};
use twitch_helix::request::channels_info;
use twitch_helix::request::games_info;
use twitch_helix::request::oauth_validate;
use twitch_helix::request::search_channel;
use twitch_helix::timestamp::Timestamp;
use twitch_helix::{HelixRequest, HttpMethod, OAuthRequest};

#[test]
fn helix_url() {
    let segments = vec!["example".to_string(), "request".to_string()];
    let url = twitch_helix::api_url::helix_url(&segments);
    assert_eq!(url.as_str(), "https://api.twitch.tv/helix/example/request");
    assert_eq!(url.host_str(), Some("api.twitch.tv"));
}

#[test]
fn helix_url_no_segments() {
    let url = twitch_helix::api_url::helix_url(&Vec::new());
    assert_eq!(url.as_str(), "https://api.twitch.tv/helix");
}

#[test]
fn oauth_url_segments() {
    let segments = vec!["my".to_string(), "page".to_string()];
    let url = oauth_url(&segments);
    assert_eq!(url.as_str(), "https://id.twitch.tv/my/page");
    assert_eq!(url.host_str(), Some("id.twitch.tv"));
}

#[test]
fn query_pair_encoding() {
    let mut url = ApiUrl::new(ApiBase::Helix);
    url.push_segment("search");
    url.push_pair("query", "a b&c");
    assert_eq!(
        url.as_str(),
        "https://api.twitch.tv/helix/search?query=a+b%26c"
    );
}

#[test]
fn oauth_validate_url() {
    let request = oauth_validate::Request;
    let url = request.url();
    assert_eq!(url.as_str(), "https://id.twitch.tv/oauth2/validate");
    assert_eq!(url.host_str(), Some("id.twitch.tv"));
}

#[test]
fn channel_lookup_url() {
    let request = channel_info::Request::new("44322889".to_string());
    let url = request.url();
    assert_eq!(
        url.as_str(),
        "https://api.twitch.tv/helix/channels?broadcaster_id=44322889"
    );
    assert_eq!(request.http_method(), HttpMethod::Get);
}

#[test]
fn channels_info_url() {
    let request = channels_info::Request::new("my-channel-id".to_string());
    let url = request.url();
    assert_eq!(url.host_str(), Some("api.twitch.tv"));
    assert_eq!(
        url.as_str(),
        "https://api.twitch.tv/helix/channels?broadcaster_id=my-channel-id"
    );
    assert_eq!(request.http_method(), HttpMethod::Get);
}

#[test]
fn commercial_url() {
    let request = CommercialRequest::new("my-channel-id".to_string(), Length::Seconds30);
    let url = request.url();
    assert_eq!(
        url.as_str(),
        "https://api.twitch.tv/helix/channels/commercial?broadcaster_id=my-channel-id&length=30"
    );
    assert_eq!(request.http_method(), HttpMethod::Post);
}

#[test]
fn games_info_urls() {
    let by_id = games_info::Request::Id("my-game-id".to_string());
    assert_eq!(
        by_id.url().as_str(),
        "https://api.twitch.tv/helix/games?id=my-game-id"
    );
    let by_name = games_info::Request::Name("my-game-name".to_string());
    assert_eq!(
        by_name.url().as_str(),
        "https://api.twitch.tv/helix/games?name=my-game-name"
    );
    assert_eq!(by_id.http_method(), HttpMethod::Get);
}

#[test]
fn cheermotes_url() {
    let request = bits_cheermotes::Request::new("my-channel-id".to_string());
    let url = request.url();
    assert_eq!(
        url.as_str(),
        "https://api.twitch.tv/helix/bits/cheermotes?broadcaster_id=my-channel-id"
    );
    assert_eq!(request.http_method(), HttpMethod::Get);
}

#[test]
fn search_url_minimal() {
    let request = search_channel::Request::new("my-channel".to_string());
    let url = request.url();
    assert_eq!(url.host_str(), Some("api.twitch.tv"));
    assert_eq!(
        url.as_str(),
        "https://api.twitch.tv/helix/search/channels?query=my-channel"
    );
}

#[test]
fn search_url_all_arguments() {
    let request = search_channel::Request::new("my-channel".to_string())
        .with_first(100)
        .with_after("my-cursor".to_string())
        .with_live_only(true);
    let url = request.url();
    assert_eq!(
        url.as_str(),
        "https://api.twitch.tv/helix/search/channels?query=my-channel&first=100&after=my-cursor&live_only=true"
    );
}

#[test]
fn search_url_single_optional() {
    let request = search_channel::Request::new("q".to_string()).with_live_only(false);
    assert_eq!(
        request.url().as_str(),
        "https://api.twitch.tv/helix/search/channels?query=q&live_only=false"
    );
}

#[test]
fn analytics_extensions_url_empty() {
    let request = analytics_extensions::Request::new();
    assert_eq!(
        request.url().as_str(),
        "https://api.twitch.tv/helix/analytics/extensions?"
    );
    assert_eq!(request.http_method(), HttpMethod::Get);
}

#[test]
fn analytics_extensions_url_full() {
    let started = Timestamp::new(2020, 7, 23, 14, 49, 33).unwrap();
    let ended = Timestamp::new(2021, 1, 2, 3, 4, 5).unwrap();
    let request = analytics_extensions::Request::new()
        .with_after("my-cursor".to_string())
        .with_ended_at(ended)
        .with_extension_id("my-extension".to_string())
        .with_first(7)
        .with_started_at(started)
        .with_report_type(ReportType::OverviewV2);
    assert_eq!(
        request.url().as_str(),
        "https://api.twitch.tv/helix/analytics/extensions?after=my-cursor&ended_at=2021-01-02T03%3A04%3A05%2B00%3A00&extension_id=my-extension&first=7&started_at=2020-07-23T14%3A49%3A33%2B00%3A00&type=overview_v2"
    );
}

#[test]
fn analytics_games_url_empty() {
    let request = analytics_games::Request::new();
    assert_eq!(
        request.url().as_str(),
        "https://api.twitch.tv/helix/analytics/games?"
    );
}

#[test]
fn analytics_games_url_single() {
    let request = analytics_games::Request::new().with_game_id("493057".to_string());
    assert_eq!(
        request.url().as_str(),
        "https://api.twitch.tv/helix/analytics/games?game_id=493057"
    );
}

#[test]
fn url_is_idempotent() {
    let request = search_channel::Request::new("Same Query".to_string())
        .with_first(25)
        .with_live_only(true);
    let first = request.url();
    let second = request.url();
    assert_eq!(first.as_str(), second.as_str());

    let request = analytics_games::Request::new().with_after("cursor".to_string());
    assert_eq!(request.url().as_str(), request.url().as_str());
}
