use std::collections::HashMap;

use live_recorder::detect::{live_video, resolve_channel_id, DetectError};
use live_recorder::inspect::{is_already_recording, recorder_binary, ProcessInfo};
use live_recorder::model::{
    Id, Item, PageInfo, Snippet, UserRespItem, UserResponse, YoutubeSearchListResponse,
};
use live_recorder::supervise::{decide, Decision};
use live_recorder::tick::{
    start, step, Config, FetchError, TickAction, TickError, TickEvent, TickOutcome, TickPhase,
};
use live_recorder::urls::{user_search, video_search, youtube_live_link};

fn page() -> PageInfo {
    PageInfo { total_results: 1, results_per_page: 5 }
}

fn user_response(ids: &[&str]) -> UserResponse {
    UserResponse {
        kind: "youtube#channelListResponse".to_string(),
        etag: "e1".to_string(),
        page_info: page(),
        items: ids
            .iter()
            .map(|id| UserRespItem {
                kind: "youtube#channel".to_string(),
                etag: "e2".to_string(),
                id: id.to_string(),
            })
            .collect(),
    }
}

fn item(video_id: &str, title: &str) -> Item {
    Item {
        kind: "youtube#searchResult".to_string(),
        etag: "e3".to_string(),
        id: Id { kind: "youtube#video".to_string(), video_id: video_id.to_string() },
        snippet: Snippet {
            published_at: "2024-01-01T00:00:00Z".to_string(),
            channel_id: "UC123".to_string(),
            title: title.to_string(),
            description: "d".to_string(),
            thumbnails: HashMap::new(),
            channel_title: "Acme".to_string(),
            live_broadcast_content: "live".to_string(),
            publish_time: "2024-01-01T00:00:00Z".to_string(),
        },
    }
}

fn search_response(items: Vec<Item>) -> YoutubeSearchListResponse {
    YoutubeSearchListResponse {
        kind: "youtube#searchListResponse".to_string(),
        etag: "e4".to_string(),
        page_info: page(),
        items,
    }
}

fn process(name: &str, args: &[&str]) -> ProcessInfo {
    ProcessInfo { name: name.to_string(), cmd: args.iter().map(|a| a.to_string()).collect() }
}

fn acme() -> Config {
    Config::new("KEY".to_string(), "Acme".to_string(), false)
}

/// Runs a tick up to the process scan for channel "Acme" live with `abcXYZ`.
fn tick_to_scan(config: &Config) -> TickPhase {
    let (phase, action) = start(config);
    match action {
        TickAction::FetchUser(url) => assert_eq!(
            url,
            "https://www.googleapis.com/youtube/v3/channels?key=KEY&forUsername=Acme&part=id"
        ),
        other => panic!("unexpected action {:?}", other),
    }
    let (phase, action) = step(config, phase, TickEvent::UserFetched(Ok(user_response(&["UC123"]))));
    match action {
        TickAction::FetchSearch(url) => assert_eq!(
            url,
            "https://www.googleapis.com/youtube/v3/search?part=snippet&channelId=UC123&type=video&eventType=live&key=KEY"
        ),
        other => panic!("unexpected action {:?}", other),
    }
    let search = search_response(vec![item("abcXYZ", "Live now")]);
    let (phase, action) = step(config, phase, TickEvent::SearchFetched(Ok(search)));
    assert!(matches!(action, TickAction::ScanProcesses));
    phase
}

#[test]
fn url_builders() {
    let key = "K1".to_string();
    assert_eq!(
        user_search(&key, &"chan".to_string()),
        "https://www.googleapis.com/youtube/v3/channels?key=K1&forUsername=chan&part=id"
    );
    assert_eq!(
        video_search(&key, &"UCx".to_string()),
        "https://www.googleapis.com/youtube/v3/search?part=snippet&channelId=UCx&type=video&eventType=live&key=K1"
    );
    assert_eq!(youtube_live_link(&"v1".to_string()), "https://www.youtube.com/watch?v=v1");
}

#[test]
fn recorder_name_by_platform() {
    assert_eq!(recorder_binary(false), "yt-dlp");
    assert_eq!(recorder_binary(true), "yt-dlp.exe");
    assert_eq!(Config::new("k".to_string(), "c".to_string(), true).recorder, "yt-dlp.exe");
}

#[test]
fn channel_id_is_first_result() {
    assert_eq!(resolve_channel_id(&user_response(&["UC1", "UC2"])), Ok("UC1".to_string()));
    assert_eq!(resolve_channel_id(&user_response(&[])), Err(DetectError::ChannelNotFound));
}

#[test]
fn live_video_is_first_result() {
    let search = search_response(vec![item("first", "One"), item("second", "Two")]);
    let v = live_video(&search).unwrap();
    assert_eq!(v.video_id, "first");
    assert_eq!(v.title, "One");
    assert_eq!(v.channel_title, "Acme");
    assert_eq!(v.channel_id, "UC123");
    assert_eq!(v.published_at, "2024-01-01T00:00:00Z");
}

#[test]
fn empty_search_is_not_live() {
    assert!(live_video(&search_response(vec![])).is_none());
}

#[test]
fn detection_twice_gives_same_result() {
    let search = search_response(vec![item("abcXYZ", "Live now")]);
    let a = live_video(&search).unwrap();
    let b = live_video(&search).unwrap();
    assert_eq!(a.video_id, b.video_id);
    assert_eq!(a.title, b.title);
    assert!(live_video(&search_response(vec![])).is_none());
    assert!(live_video(&search_response(vec![])).is_none());
}

#[test]
fn already_recording_needs_name_and_whole_argument() {
    let url = "https://www.youtube.com/watch?v=abcXYZ".to_string();
    let name = "yt-dlp".to_string();
    let running = vec![process("bash", &[]), process("yt-dlp", &["yt-dlp", &url])];
    assert!(is_already_recording(&running, &name, &url));
    let other_name = vec![process("vlc", &["vlc", &url])];
    assert!(!is_already_recording(&other_name, &name, &url));
    let other_url = vec![process("yt-dlp", &["yt-dlp", "https://www.youtube.com/watch?v=abc"])];
    assert!(!is_already_recording(&other_url, &name, &url));
    let longer = vec![process("yt-dlp", &["yt-dlp", "https://www.youtube.com/watch?v=abcXYZ2"])];
    assert!(!is_already_recording(&longer, &name, &url));
    assert!(!is_already_recording(&vec![], &name, &url));
}

#[test]
fn decide_covers_three_cases() {
    let name = "yt-dlp".to_string();
    assert!(matches!(decide(&None, &vec![], &name), Decision::NotLive));
    let v = live_video(&search_response(vec![item("abcXYZ", "t")]));
    match decide(&v, &vec![], &name) {
        Decision::Record(url) => assert_eq!(url, "https://www.youtube.com/watch?v=abcXYZ"),
        other => panic!("unexpected decision {:?}", other),
    }
    let running = vec![process("yt-dlp", &["https://www.youtube.com/watch?v=abcXYZ"])];
    assert!(matches!(decide(&v, &running, &name), Decision::AlreadyRecording(_)));
}

#[test]
fn live_and_unrecorded_spawns_recorder() {
    let config = acme();
    let phase = tick_to_scan(&config);
    let others = vec![process("bash", &["bash"])];
    let (phase, action) = step(&config, phase, TickEvent::ProcessesScanned(others));
    match action {
        TickAction::Spawn { program, url } => {
            assert_eq!(program, "yt-dlp");
            assert_eq!(url, "https://www.youtube.com/watch?v=abcXYZ");
        }
        other => panic!("unexpected action {:?}", other),
    }
    let (phase, action) = step(&config, phase, TickEvent::RecorderExited(Some(0)));
    assert!(matches!(phase, TickPhase::Done));
    assert!(matches!(action, TickAction::Finish(TickOutcome::Recorded(Some(0)))));
}

#[test]
fn running_recorder_prevents_spawn() {
    let config = acme();
    let phase = tick_to_scan(&config);
    let running = vec![process("yt-dlp", &["yt-dlp", "https://www.youtube.com/watch?v=abcXYZ"])];
    let (phase, action) = step(&config, phase, TickEvent::ProcessesScanned(running));
    assert!(matches!(phase, TickPhase::Done));
    assert!(matches!(action, TickAction::Finish(TickOutcome::AlreadyRecording)));
}

#[test]
fn zero_items_ends_tick_not_live() {
    let config = acme();
    let (phase, _) = start(&config);
    let (phase, _) = step(&config, phase, TickEvent::UserFetched(Ok(user_response(&["UC123"]))));
    let (phase, action) = step(&config, phase, TickEvent::SearchFetched(Ok(search_response(vec![]))));
    assert!(matches!(phase, TickPhase::Done));
    assert!(matches!(action, TickAction::Finish(TickOutcome::NotLive)));
}

#[test]
fn unknown_channel_ends_tick() {
    let config = acme();
    let (phase, _) = start(&config);
    let (phase, action) = step(&config, phase, TickEvent::UserFetched(Ok(user_response(&[]))));
    assert!(matches!(phase, TickPhase::Done));
    assert!(matches!(action, TickAction::Finish(TickOutcome::Failed(TickError::ChannelNotFound))));
}

#[test]
fn fetch_errors_end_tick() {
    let config = acme();
    let (phase, _) = start(&config);
    let (_, action) = step(&config, phase, TickEvent::UserFetched(Err(FetchError::Status(403))));
    assert!(matches!(
        action,
        TickAction::Finish(TickOutcome::Failed(TickError::Fetch(FetchError::Status(403))))
    ));
    let (phase, _) = step(&config, TickPhase::AwaitUser, TickEvent::UserFetched(Ok(user_response(&["UC1"]))));
    let (_, action) = step(&config, phase, TickEvent::SearchFetched(Err(FetchError::Decode)));
    assert!(matches!(
        action,
        TickAction::Finish(TickOutcome::Failed(TickError::Fetch(FetchError::Decode)))
    ));
    let (_, action) = step(&config, TickPhase::AwaitUser, TickEvent::UserFetched(Err(FetchError::Network)));
    assert!(matches!(
        action,
        TickAction::Finish(TickOutcome::Failed(TickError::Fetch(FetchError::Network)))
    ));
}

#[test]
fn launch_failure_ends_tick() {
    let config = acme();
    let phase = TickPhase::AwaitExit("https://www.youtube.com/watch?v=abcXYZ".to_string());
    let (phase, action) = step(&config, phase, TickEvent::RecorderFailed);
    assert!(matches!(phase, TickPhase::Done));
    assert!(matches!(action, TickAction::Finish(TickOutcome::Failed(TickError::Launch))));
}

#[test]
fn event_out_of_order_ends_tick() {
    let config = acme();
    let (_, action) = step(&config, TickPhase::AwaitUser, TickEvent::ProcessesScanned(vec![]));
    assert!(matches!(action, TickAction::Finish(TickOutcome::Failed(TickError::OutOfOrder))));
    let (_, action) = step(&config, TickPhase::Done, TickEvent::RecorderExited(None));
    assert!(matches!(action, TickAction::Finish(TickOutcome::Failed(TickError::OutOfOrder))));
}
