use ani_cli::avatar::{
    greeting_for_hour, message_for_detail, message_for_help, message_for_history,
    message_for_playing, message_for_search_state, Expression,
};
use ani_cli::config::{default_discord_client_id, doctor_report};
use ani_cli::layout::calculate_grid_cols;
use ani_cli::mascot::{mochi_for_tick, mochi_mood, wordmark_rows_revealed, Mood};
use ani_cli::theme::{now_clock, pad_right, spinner_frame, truncate};
use ani_cli::updater::{
    detect_install_source, direct_update_outcome, managed_update_outcome, normalize_tag,
    release_asset, release_update, should_check, ArchiveKind, InstallSource,
};

#[test]
fn greetings_by_hour() {
    assert_eq!(greeting_for_hour(6), (Expression::Sleepy, "Early bird~ Let's find something cozy…"));
    assert_eq!(greeting_for_hour(10).0, Expression::Waving);
    assert_eq!(greeting_for_hour(13).0, Expression::Happy);
    assert_eq!(greeting_for_hour(16).0, Expression::Idle);
    assert_eq!(greeting_for_hour(19), (Expression::Excited, "Prime time! The stage is set."));
    assert_eq!(greeting_for_hour(22).1, "Late night session? I'm right here~");
    assert_eq!(greeting_for_hour(2).1, "Up past midnight… one more episode?");
    assert_eq!(greeting_for_hour(99).0, Expression::Sleepy);
}

#[test]
fn screen_messages() {
    assert_eq!(message_for_search_state(true, true, 5).0, Expression::Searching);
    assert_eq!(message_for_search_state(true, false, 5).1, "Found some good ones!");
    assert_eq!(message_for_search_state(false, false, 2).0, Expression::Sad);
    assert_eq!(message_for_search_state(false, false, 1).1, "Type a title and I'll find it~");
    assert_eq!(message_for_detail(true, false).1, "Fetching episodes…");
    assert_eq!(message_for_detail(false, false).0, Expression::Thinking);
    assert_eq!(message_for_detail(false, true).1, "Pick an episode!");
    assert_eq!(message_for_playing(), (Expression::Watching, "Enjoy the show~"));
    assert_eq!(message_for_history(true).0, Expression::Thinking);
    assert_eq!(message_for_history(false).1, "Everything you've screened~");
    assert_eq!(message_for_help(), (Expression::Waving, "Here's everything I know!"));
}

#[test]
fn mascot_frames() {
    assert_eq!(mochi_for_tick(Mood::Happy, 0)[1], " (- ˕ -7 ");
    assert_eq!(mochi_for_tick(Mood::Happy, 51)[1], " (- ˕ -7 ");
    assert_eq!(mochi_for_tick(Mood::Happy, 2)[1], " (^ ω ^7 ");
    assert_eq!(mochi_for_tick(Mood::Idle, 10)[0], "  ╱|、   ");
    assert_eq!(mochi_for_tick(Mood::Thinking, 10)[3], " じしˍ,)ノ");
    assert_eq!(mochi_mood(0, 50), Mood::Thinking);
    assert_eq!(mochi_mood(0, 150), Mood::Happy);
    assert_eq!(mochi_mood(3, 150), Mood::Idle);
    assert_eq!(mochi_mood(3, 850), Mood::Thinking);
    assert_eq!(wordmark_rows_revealed(0), 2);
    assert_eq!(wordmark_rows_revealed(1), 2);
    assert_eq!(wordmark_rows_revealed(2), 4);
    assert_eq!(wordmark_rows_revealed(5), 6);
    assert_eq!(wordmark_rows_revealed(6), 7);
    assert_eq!(wordmark_rows_revealed(100), 7);
}

#[test]
fn grid_columns() {
    assert_eq!(calculate_grid_cols(120), 7);
    assert_eq!(calculate_grid_cols(80), 4);
    assert_eq!(calculate_grid_cols(0), 1);
    assert_eq!(calculate_grid_cols(20), 1);
    for w in 0..=u16::MAX {
        let float = (((w as f32 * 0.6) as u16).saturating_sub(4) as usize / 9).max(1);
        assert_eq!(calculate_grid_cols(w), float);
    }
}

#[test]
fn text_helpers() {
    assert_eq!(truncate("hello", 10), "hello");
    assert_eq!(truncate("hello world", 6), "hello…");
    assert_eq!(truncate("hello", 1), "…");
    assert_eq!(pad_right("ab", 4), "ab  ");
    assert_eq!(pad_right("abcdef", 4), "abc…");
    assert_eq!(spinner_frame(0), "⠋");
    assert_eq!(spinner_frame(11), "⠙");
    assert_eq!(now_clock(0), "00:00");
    assert_eq!(now_clock(3600 * 13 + 60 * 7 + 59), "13:07");
    assert_eq!(now_clock(86_400 + 60), "00:01");
}

#[test]
fn discord_client_id() {
    assert_eq!(default_discord_client_id().as_deref(), Some("1499484972929646702"));
}

#[test]
fn update_checks() {
    assert!(should_check(None, 0));
    assert!(!should_check(Some(1_000), 1_000 + 86_399));
    assert!(should_check(Some(1_000), 1_000 + 86_400));
    assert!(!should_check(Some(10), 5));
    assert_eq!(normalize_tag("v1.2.3"), "1.2.3");
    assert_eq!(normalize_tag("vv2.0.0"), "2.0.0");
    assert_eq!(normalize_tag("1.0.0"), "1.0.0");
}

#[test]
fn release_comparison() {
    let newer = release_update("v9.0.0", "https://rel", "0.1.0").ok().unwrap().unwrap();
    assert_eq!(newer.latest_version, "9.0.0");
    assert_eq!(newer.release_url, "https://rel");
    assert!(release_update("v0.1.0", "u", "0.1.0").ok().unwrap().is_none());
    assert!(release_update("v0.0.9", "u", "0.1.0").ok().unwrap().is_none());
    assert!(release_update("v1.0.0", "u", "not a version").ok().unwrap().is_some());
    assert_eq!(release_update("vnope", "u", "0.1.0").err().as_deref(), Some("unable to parse latest version: nope"));
}

#[test]
fn install_sources() {
    assert_eq!(detect_install_source(Some("brew"), None, None), InstallSource::Homebrew);
    assert_eq!(detect_install_source(Some("cargo"), Some("/opt/homebrew/Cellar/x"), None), InstallSource::Cargo);
    assert_eq!(detect_install_source(Some("other"), Some("/usr/local/Cellar/ani-cli/bin/ani-cli"), None), InstallSource::Homebrew);
    assert_eq!(detect_install_source(None, Some("/home/u/.cargo/bin/ani-cli"), None), InstallSource::Cargo);
    assert_eq!(detect_install_source(None, Some("/opt/cargo/bin/ani-cli"), Some("/opt/cargo")), InstallSource::Cargo);
    assert_eq!(detect_install_source(None, Some("/usr/bin/ani-cli"), Some("/opt/cargo")), InstallSource::Direct);
    assert_eq!(detect_install_source(None, None, None), InstallSource::Direct);
}

#[test]
fn update_outcome_messages() {
    assert_eq!(managed_update_outcome(InstallSource::Homebrew).message, "updated via brew");
    assert_eq!(managed_update_outcome(InstallSource::Cargo).message, "updated via cargo");
    let o = direct_update_outcome("1.2.0", true);
    assert_eq!(o.message, "update scheduled to v1.2.0 — close app to finish");
    assert!(o.restart_required);
    assert_eq!(direct_update_outcome("1.2.0", false).message, "updated to v1.2.0");
}

#[test]
fn doctor_report_mentions_key_fields() {
    let players = vec![("mpv", Some("/usr/bin/mpv".to_string())), ("iina", None), ("vlc", None)];
    let report = doctor_report("0.1.0", "mpv", &players, "/home/u/.local/share", "/home/u/.local/share/ani-cli/history.db", None);
    assert!(report.contains("ani-cli doctor"));
    assert!(report.contains("version:"));
    assert!(report.contains("history db:"));
    assert!(report.contains("data dir:"));
    assert_eq!(
        report,
        "ani-cli doctor\nversion: 0.1.0\ndetected player: mpv\nplayer  mpv: ok (/usr/bin/mpv)\nplayer iina: missing\nplayer  vlc: missing\ndata dir: /home/u/.local/share\nhistory db: /home/u/.local/share/ani-cli/history.db\napi debug env: unset\n"
    );
}

#[test]
fn release_assets_per_platform() {
    let linux = release_asset("linux", "x86_64").ok().unwrap();
    assert_eq!(linux.asset_name, "ani-cli-linux-x86_64.tar.gz");
    assert_eq!(linux.binary_name, "ani-cli");
    assert_eq!(linux.archive_kind, ArchiveKind::TarGz);
    assert_eq!(release_asset("macos", "aarch64").ok().unwrap().asset_name, "ani-cli-macos-aarch64.tar.gz");
    assert_eq!(release_asset("macos", "x86_64").ok().unwrap().asset_name, "ani-cli-macos-x86_64.tar.gz");
    let win = release_asset("windows", "x86_64").ok().unwrap();
    assert_eq!(win.binary_name, "ani-cli.exe");
    assert_eq!(win.archive_kind, ArchiveKind::Zip);
    assert_eq!(
        release_asset("linux", "aarch64").err().as_deref(),
        Some("self-upgrade is not supported on this platform yet")
    );
}
