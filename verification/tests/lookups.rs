//! Lookup helper tests: first case-insensitive match, empty inputs, and
//! the end-to-end channel lookup example.

use twitch_helix::request::analytics::ReportType;
use twitch_helix::request::analytics_extensions;
use twitch_helix::request::channel_info;
use twitch_helix::request::games_info;
use twitch_helix::request::search_channel;
use twitch_helix::timestamp::Timestamp;
use twitch_helix::HelixRequest;

fn make_channel(broadcast_id: &str, title: &str) -> channel_info::Channel {
    channel_info::Channel {
        status: "live".to_string(),
        broadcast_id: broadcast_id.to_string(),
        game_id: "123".to_string(),
        broadcaster_language: "en".to_string(),
        title: title.to_string(),
        description: "d".to_string(),
    }
}

#[test]
fn channel_lookup_end_to_end() {
    let request = channel_info::Request::new("44322889".to_string());
    assert_eq!(
        request.url().as_str(),
        "https://api.twitch.tv/helix/channels?broadcaster_id=44322889"
    );
    let channels = vec![
        make_channel("12345", "other"),
        make_channel("44322889", "dallas"),
    ];
    let found = request.channel(channels).expect("expected a matching channel");
    assert_eq!(found.broadcast_id, "44322889");
    assert_eq!(found.title, "dallas");
}

#[test]
fn channel_lookup_is_case_insensitive() {
    let request = channel_info::Request::new("AbCdE".to_string());
    let channels = vec![make_channel("abcde", "match")];
    let found = request.channel(channels).expect("expected a matching channel");
    assert_eq!(found.title, "match");
}

#[test]
fn channel_lookup_empty_and_no_match() {
    let request = channel_info::Request::new("wanted".to_string());
    assert!(request.channel(Vec::new()).is_none());
    assert!(request.channel_ref(&[]).is_none());
    let channels = vec![make_channel("other", "t")];
    assert!(request.channel(channels).is_none());
}

#[test]
fn channel_lookup_returns_first_match() {
    let request = channel_info::Request::new("twin".to_string());
    let channels = vec![
        make_channel("miss", "zero"),
        make_channel("TWIN", "first"),
        make_channel("twin", "second"),
    ];
    let found = request.channel(channels.clone()).unwrap();
    assert_eq!(found.title, "first");
    let found_ref = request.channel_ref(&channels).unwrap();
    assert_eq!(found_ref.title, "first");
}

#[test]
fn game_lookup_by_id_and_name() {
    let games = [
        games_info::Game {
            box_art_url: "u1".to_string(),
            id: "493057".to_string(),
            name: "PUBG".to_string(),
        },
        games_info::Game {
            box_art_url: "u2".to_string(),
            id: "12345".to_string(),
            name: "Other Game".to_string(),
        },
    ];
    let by_id = games_info::Request::Id("493057".to_string());
    assert_eq!(by_id.game(&games).unwrap().name, "PUBG");
    let by_name = games_info::Request::Name("other game".to_string());
    assert_eq!(by_name.game(&games).unwrap().id, "12345");
    let no_match = games_info::Request::Name("missing".to_string());
    assert!(no_match.game(&games).is_none());
    assert!(by_id.game(&[]).is_none());
}

fn make_report(extension_id: &str) -> analytics_extensions::Report {
    analytics_extensions::Report {
        extension_id: extension_id.to_string(),
        date_range: analytics_extensions::DateRange {
            started_at: Timestamp::new(2020, 1, 1, 0, 0, 0).unwrap(),
            ended_at: Timestamp::new(2020, 2, 1, 0, 0, 0).unwrap(),
        },
        report_type: ReportType::OverviewV1,
        url: "https://example.invalid/report".to_string(),
    }
}

#[test]
fn extension_lookup() {
    let request = analytics_extensions::Request::new().with_extension_id("ABC123".to_string());
    let reports = vec![make_report("zzz"), make_report("abc123")];
    let found = request.extension(reports.clone()).unwrap();
    assert_eq!(found.extension_id, "abc123");
    let found_ref = request.extension_ref(&reports).unwrap();
    assert_eq!(found_ref.extension_id, "abc123");
}

#[test]
fn extension_lookup_without_id_or_match() {
    let without_id = analytics_extensions::Request::new();
    assert!(without_id.extension(vec![make_report("abc")]).is_none());
    assert!(without_id.extension_ref(&[make_report("abc")]).is_none());

    let request = analytics_extensions::Request::new().with_extension_id("nope".to_string());
    assert!(request.extension(Vec::new()).is_none());
    assert!(request.extension(vec![make_report("abc")]).is_none());
}

#[test]
fn search_channel_lookup() {
    let request = search_channel::Request::new("My-Channel".to_string());
    let channels = [search_channel::Channel {
        broadcaster_language: "en".to_string(),
        display_name: "my-channel".to_string(),
        game_id: "1".to_string(),
        id: "2".to_string(),
        is_live: true,
        tag_ids: Vec::new(),
        thumbnail_url: "t".to_string(),
        title: "T".to_string(),
        started_at: Some(Timestamp::new(2020, 7, 23, 14, 49, 33).unwrap()),
    }];
    let found = request.channel(&channels).expect("expected a matching channel");
    assert_eq!(found.id, "2");
    assert!(request.channel(&[]).is_none());
}
