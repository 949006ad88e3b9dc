use ani_cli::domain::PlayerType;
use ani_cli::json::{JsonNumber, JsonValue};
use ani_cli::presence::{
    apply_mpv_message, apply_property_change, apply_property_reply, build_activity, build_large_text, build_state,
    build_timestamps, parse_presence_metadata, should_emit_timeline, PlayerActivityMonitor, PresenceAction,
    MpvMessage, PresenceCommand, PresenceMetadata, PresencePlayback, PresenceWorker, TimelineState,
};

fn playback(token: u64, total: Option<u32>, metadata: Option<PresenceMetadata>) -> PresencePlayback {
    PresencePlayback {
        token,
        anime_title: "Frieren".to_string(),
        episode: "3".to_string(),
        total_episodes: total,
        player: PlayerType::Mpv,
        mode: "sub".to_string(),
        quality: "1080p".to_string(),
        started_at_unix: 500,
        metadata,
    }
}

fn meta() -> PresenceMetadata {
    PresenceMetadata {
        canonical_title: Some("Sousou no Frieren".to_string()),
        image_url: Some("https://img".to_string()),
        external_url: Some("https://mal".to_string()),
        media_type: Some("TV".to_string()),
        episode_count: Some(28),
        score_label: Some("9.3".to_string()),
        season: Some("fall".to_string()),
        year: Some(2023),
    }
}

fn number(floor: i64, ceil: i64) -> JsonValue {
    JsonValue::Number(JsonNumber { as_u64: None, as_i64: None, floor, ceil, one_decimal: format!("{}.0", floor) })
}

fn object(fields: Vec<(&str, JsonValue)>) -> JsonValue {
    JsonValue::Object(fields.into_iter().map(|(k, v)| (k.to_string(), v)).collect())
}

#[test]
fn worker_follows_only_the_active_token() {
    let mut w = PresenceWorker::new();
    let monitor = Some(PlayerActivityMonitor::Mpv { endpoint: "/tmp/mpv.sock".to_string() });
    let actions = w.handle(PresenceCommand::Start(playback(7, None, None), monitor));
    assert_eq!(actions.len(), 2);
    assert!(matches!(&actions[0], PresenceAction::Show { playback, timeline } if playback.token == 7 && timeline.position_secs.is_none()));
    assert!(matches!(&actions[1], PresenceAction::Watch { token: 7, endpoint } if endpoint == "/tmp/mpv.sock"));
    assert_eq!(w.active_token, Some(7));
    assert!(w.handle(PresenceCommand::Stop(6)).is_empty());
    assert!(w.handle(PresenceCommand::Ended(8)).is_empty());
    assert_eq!(w.active_token, Some(7));
    let t = TimelineState { position_secs: Some(10), duration_secs: Some(100), paused: false };
    let shown = w.handle(PresenceCommand::Timeline { token: 7, timeline: t });
    assert!(matches!(&shown[0], PresenceAction::Show { timeline, .. } if timeline.position_secs == Some(10)));
    let t = TimelineState { position_secs: Some(10), duration_secs: Some(100), paused: false };
    assert!(w.handle(PresenceCommand::Timeline { token: 1, timeline: t }).is_empty());
    let cleared = w.handle(PresenceCommand::Stop(7));
    assert!(matches!(cleared[..], [PresenceAction::Clear]));
    assert_eq!(w.active_token, None);
    assert!(w.active_playback.is_none());
    let last = w.handle(PresenceCommand::Shutdown);
    assert!(matches!(last[..], [PresenceAction::Clear, PresenceAction::Close]));
}

#[test]
fn property_changes_update_the_timeline() {
    let mut t = TimelineState::new();
    assert!(apply_property_change(&mut t, &object(vec![("event", JsonValue::String("property-change".into())), ("name", JsonValue::String("time-pos".into())), ("data", number(12, 13))])));
    assert_eq!(t.position_secs, Some(12));
    assert!(apply_property_change(&mut t, &object(vec![("name", JsonValue::String("duration".into())), ("data", number(1440, 1441))])));
    assert_eq!(t.duration_secs, Some(1441));
    assert!(apply_property_change(&mut t, &object(vec![("name", JsonValue::String("pause".into())), ("data", JsonValue::Bool(true))])));
    assert!(t.paused);
    assert!(apply_property_change(&mut t, &object(vec![("name", JsonValue::String("pause".into())), ("data", JsonValue::Null)])));
    assert!(!t.paused);
    assert!(apply_property_change(&mut t, &object(vec![("name", JsonValue::String("time-pos".into())), ("data", JsonValue::Null)])));
    assert_eq!(t.position_secs, None);
    assert!(!apply_property_change(&mut t, &object(vec![("name", JsonValue::String("volume".into())), ("data", number(1, 1))])));
    assert!(!apply_property_change(&mut t, &object(vec![])));
}

#[test]
fn property_replies_fill_position_then_duration() {
    let mut t = TimelineState::new();
    assert!(apply_property_reply(&mut t, &object(vec![("data", number(5, 6))])));
    assert!(apply_property_reply(&mut t, &object(vec![("data", number(99, 100))])));
    assert_eq!(t.position_secs, Some(5));
    assert_eq!(t.duration_secs, Some(100));
    assert!(apply_property_reply(&mut t, &object(vec![("data", JsonValue::Bool(true))])));
    assert!(t.paused);
    assert!(!apply_property_reply(&mut t, &object(vec![("data", JsonValue::Null)])));
}

#[test]
fn timeline_updates_are_debounced() {
    let mut last = 0u64;
    assert!(should_emit_timeline(&mut last, 900));
    assert_eq!(last, 900);
    assert!(!should_emit_timeline(&mut last, 1_799));
    assert_eq!(last, 900);
    assert!(should_emit_timeline(&mut last, 1_800));
    assert!(!should_emit_timeline(&mut last, 10));
}

#[test]
fn state_line() {
    assert_eq!(build_state(&playback(1, Some(12), None)), "Episode 3/12 • SUB • 1080p • mpv");
    let mut p = playback(1, None, None);
    p.mode = "dub".into();
    p.player = PlayerType::Vlc;
    assert_eq!(build_state(&p), "Episode 3 • DUB • 1080p • vlc");
}

#[test]
fn hover_text() {
    assert_eq!(build_large_text(&meta()), "TV • 28 eps • Score 9.3 • fall 2023");
    let mut m = meta();
    m.media_type = None;
    m.season = None;
    assert_eq!(build_large_text(&m), "28 eps • Score 9.3 • 2023");
    let empty = PresenceMetadata { canonical_title: None, image_url: None, external_url: None, media_type: None, episode_count: None, score_label: None, season: None, year: None };
    assert_eq!(build_large_text(&empty), "");
    let mut neg = empty;
    neg.year = Some(-5);
    assert_eq!(build_large_text(&neg), "-5");
}

#[test]
fn timestamps_follow_progress() {
    let p = playback(1, None, None);
    assert_eq!(build_timestamps(&p, &TimelineState::new(), 1_000), (500, None));
    let t = TimelineState { position_secs: Some(30), duration_secs: Some(1_441), paused: false };
    assert_eq!(build_timestamps(&p, &t, 1_000), (970, Some(2_411)));
    let t = TimelineState { position_secs: Some(30), duration_secs: Some(1_441), paused: true };
    assert_eq!(build_timestamps(&p, &t, 1_000), (970, None));
    let t = TimelineState { position_secs: Some(i64::MIN), duration_secs: Some(10), paused: false };
    assert_eq!(build_timestamps(&p, &t, 1_000), (i64::MAX, Some(i64::MAX)));
}

#[test]
fn activity_uses_metadata() {
    let a = build_activity(&playback(1, Some(28), Some(meta())), &TimelineState::new(), 1_000);
    assert_eq!(a.details, "Sousou no Frieren");
    assert_eq!(a.state, "Episode 3/28 • SUB • 1080p • mpv");
    assert_eq!((a.start, a.end), (500, None));
    assert_eq!(a.large_image.as_deref(), Some("https://img"));
    assert_eq!(a.large_text.as_deref(), Some("TV • 28 eps • Score 9.3 • fall 2023"));
    assert_eq!(a.details_url.as_deref(), Some("https://mal"));
    let plain = build_activity(&playback(1, None, None), &TimelineState::new(), 1_000);
    assert_eq!(plain.details, "Frieren");
    assert!(plain.large_image.is_none() && plain.large_text.is_none());
}

fn whole(v: u64) -> JsonValue {
    JsonValue::Number(JsonNumber { as_u64: Some(v), as_i64: Some(v as i64), floor: v as i64, ceil: v as i64, one_decimal: format!("{}.0", v) })
}

fn text(s: &str) -> JsonValue {
    JsonValue::String(s.to_string())
}

#[test]
fn presence_metadata_from_jikan_search() {
    let images = object(vec![
        ("jpg", object(vec![("image_url", text("https://jpg")), ("large_image_url", text("https://jpg-large"))])),
        ("webp", object(vec![("image_url", text("https://webp"))])),
    ]);
    let hit = object(vec![
        ("title", text("Sousou no Frieren")),
        ("images", images),
        ("url", text("https://mal/1")),
        ("type", text("TV")),
        ("episodes", whole(28)),
        ("score", JsonValue::Number(JsonNumber { as_u64: None, as_i64: None, floor: 9, ceil: 10, one_decimal: "9.3".into() })),
        ("season", text("fall")),
        ("year", whole(2023)),
    ]);
    let json = object(vec![("data", JsonValue::Array(vec![hit]))]);
    let m = parse_presence_metadata(&json, Some(12)).unwrap();
    assert_eq!(m.canonical_title.as_deref(), Some("Sousou no Frieren"));
    assert_eq!(m.image_url.as_deref(), Some("https://jpg-large"));
    assert_eq!(m.external_url.as_deref(), Some("https://mal/1"));
    assert_eq!(m.media_type.as_deref(), Some("TV"));
    assert_eq!(m.episode_count, Some(28));
    assert_eq!(m.score_label.as_deref(), Some("9.3"));
    assert_eq!(m.season.as_deref(), Some("Fall"));
    assert_eq!(m.year, Some(2023));
    let bare = object(vec![("data", JsonValue::Array(vec![object(vec![("title_english", text("Frieren"))])]))]);
    let m = parse_presence_metadata(&bare, Some(12)).unwrap();
    assert_eq!(m.canonical_title.as_deref(), Some("Frieren"));
    assert_eq!(m.episode_count, Some(12));
    assert!(m.image_url.is_none() && m.season.is_none() && m.year.is_none());
    assert!(parse_presence_metadata(&object(vec![("data", JsonValue::Array(vec![]))]), None).is_none());
    assert!(parse_presence_metadata(&object(vec![]), None).is_none());
}

#[test]
fn mpv_messages_drive_the_timeline() {
    let s = |t: &str| JsonValue::String(t.to_string());
    let mut t = TimelineState::new();
    let change = object(vec![("event", s("property-change")), ("name", s("time-pos")), ("data", number(42, 43))]);
    assert_eq!(apply_mpv_message(&mut t, &change), MpvMessage::Timeline(true));
    assert_eq!(t.position_secs, Some(42));
    let reply = object(vec![("error", s("success")), ("data", number(1400, 1401))]);
    assert_eq!(apply_mpv_message(&mut t, &reply), MpvMessage::Timeline(true));
    assert_eq!(t.duration_secs, Some(1401));
    let failed = object(vec![("error", s("property unavailable")), ("data", JsonValue::Bool(true))]);
    assert_eq!(apply_mpv_message(&mut t, &failed), MpvMessage::Timeline(false));
    assert!(!t.paused);
    let other = object(vec![("event", s("seek"))]);
    assert_eq!(apply_mpv_message(&mut t, &other), MpvMessage::Timeline(false));
    let end = object(vec![("event", s("end-file"))]);
    assert_eq!(apply_mpv_message(&mut t, &end), MpvMessage::Ended);
    assert_eq!(t.position_secs, Some(42));
}
