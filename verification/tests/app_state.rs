use ani_cli::app::{App, AppOptions, CatalogEntry, HomeFocus, Screen};
use ani_cli::domain::{AnimeResult, EpisodeUrl, Mode, PlayerType, WatchEntry};
use ani_cli::jikan::{JikanImageUrls, JikanImages};
use ani_cli::runtime::{
    can_update, detail_provider_id, stream_message, begin_playback, complete_playback, handle_global, stop_active_watch_session, today_day_name,
    update, Cmd, Key, KeyCode, Msg, PlaybackData,
};
use ani_cli::updater::{UpdateInfo, UpdateOutcome};

type TestApp = App<u32, String>;

fn app() -> TestApp {
    App::new(PlayerType::Mpv, vec![], vec![])
}

fn key(c: char) -> Msg<u32, String> {
    Msg::Key(Key { code: KeyCode::Char(c), ctrl: false })
}

fn code(k: KeyCode) -> Msg<u32, String> {
    Msg::Key(Key { code: k, ctrl: false })
}

fn entry(id: i64, anime: &str, title: &str, ep: &str) -> WatchEntry {
    WatchEntry {
        id,
        anime_id: anime.to_string(),
        title: title.to_string(),
        episode: ep.to_string(),
        total_episodes: Some(12),
        watched_at: "2024-01-01T00:00:00Z".to_string(),
    }
}

fn no_images() -> JikanImages {
    let none = || JikanImageUrls { image_url: None, small_image_url: None, large_image_url: None };
    JikanImages { jpg: none(), webp: none() }
}

fn card(mal_id: u32, title: &str) -> CatalogEntry<u32> {
    CatalogEntry { mal_id, title: title.to_string(), episodes: Some(24), images: no_images(), record: mal_id }
}

fn toast_texts(a: &TestApp) -> Vec<String> {
    a.status.toasts.iter().map(|t| t.message.clone()).collect()
}

fn step(a: &mut TestApp, m: Msg<u32, String>) -> Vec<Cmd> {
    update(a, m, 4, 1_000, "2024-05-01T10:00:00Z")
}

#[test]
fn fresh_app_uses_options() {
    let opts = AppOptions { player_type: Some(PlayerType::Vlc), mode: Some(Mode::Dub), discord_client_id: Some("id".to_string()) };
    let a: TestApp = App::with_options(opts, PlayerType::Mpv, vec![], vec![]);
    assert_eq!(a.playback.player_type, PlayerType::Vlc);
    assert_eq!(a.playback.mode, Mode::Dub);
    assert!(a.playback.presence_enabled);
    assert_eq!(a.playback.quality, "best");
    let d: TestApp = App::with_options(AppOptions::default(), PlayerType::Iina, vec![], vec![]);
    assert_eq!(d.playback.player_type, PlayerType::Iina);
    assert_eq!(d.playback.mode, Mode::Sub);
    assert!(!d.playback.presence_enabled);
    assert_eq!(d.nav.screen, Screen::Home);
    assert_eq!(d.home.schedule_day, "monday");
}

#[test]
fn navigate_then_go_back_restores_screen() {
    let mut a = app();
    a.navigate(Screen::Search);
    a.navigate(Screen::AnimeDetail);
    assert_eq!(a.nav.screen_stack, vec![Screen::Home, Screen::Search]);
    a.go_back();
    assert_eq!(a.nav.screen, Screen::Search);
    a.go_back();
    assert_eq!(a.nav.screen, Screen::Home);
    assert!(a.nav.screen_stack.is_empty());
    a.navigate(Screen::Home);
    assert!(a.nav.screen_stack.is_empty());
    a.nav.screen = Screen::Help;
    a.go_back();
    assert_eq!(a.nav.screen, Screen::Home);
}

#[test]
fn toggle_mode_twice_restores_mode() {
    let mut a = app();
    a.toggle_mode();
    assert_eq!(a.playback.mode, Mode::Dub);
    a.toggle_mode();
    assert_eq!(a.playback.mode, Mode::Sub);
}

#[test]
fn toasts_keep_the_newest_six() {
    let mut a = app();
    for i in 0..8 {
        a.toast(format!("t{}", i), false, i);
    }
    assert_eq!(toast_texts(&a), vec!["t2", "t3", "t4", "t5", "t6", "t7"]);
}

#[test]
fn tick_expires_old_toasts_and_key_sequences() {
    let mut a = app();
    a.toast("old".to_string(), false, 0);
    a.toast("new".to_string(), true, 2_000);
    a.nav.key_seq = Some(('g', 3_000));
    a.tick_spinner(3_000);
    assert_eq!(toast_texts(&a), vec!["new"]);
    assert_eq!(a.nav.key_seq, Some(('g', 3_000)));
    assert_eq!(a.status.spinner_tick, 1);
    assert_eq!(a.status.splash_tick, 1);
    a.tick_spinner(3_601);
    assert_eq!(a.nav.key_seq, None);
    assert_eq!(toast_texts(&a), vec!["new"]);
    a.tick_spinner(4_500);
    assert!(a.status.toasts.is_empty());
}

#[test]
fn refresh_history_clamps_queue_cursor() {
    let mut a = app();
    a.home.home_selected = 5;
    a.refresh_history(vec![entry(1, "a", "A", "1")], vec![entry(1, "a", "A", "1"), entry(2, "b", "B", "2")]);
    assert_eq!(a.home.home_selected, 1);
    a.refresh_history(vec![], vec![]);
    assert_eq!(a.home.home_selected, 0);
}

#[test]
fn navigate_home_fetches_lists_under_new_session() {
    let mut a = app();
    let cmds = step(&mut a, Msg::Navigate(Screen::Home));
    assert_eq!(a.nav.current_session_id, 1);
    assert!(a.home.airing_today_loading && a.home.top_loading);
    assert_eq!(cmds.len(), 2);
    assert!(matches!(cmds[0], Cmd::FetchAiringToday(1)));
    assert!(matches!(cmds[1], Cmd::FetchTopAiring(1)));
    let cmds = step(&mut a, Msg::Navigate(Screen::Search));
    assert!(cmds.is_empty());
    assert_eq!(a.nav.screen, Screen::Search);
}

#[test]
fn stale_replies_are_ignored() {
    let mut a = app();
    step(&mut a, Msg::Navigate(Screen::Search));
    a.search.search_loading = true;
    let res = vec![AnimeResult { id: "x".into(), title: "X".into(), episode_count: 1 }];
    let cmds = step(&mut a, Msg::SearchLoaded(Ok(res), 0));
    assert!(cmds.is_empty());
    assert!(a.search.search_results.is_empty());
    assert!(a.search.search_loading);
    let res = vec![AnimeResult { id: "x".into(), title: "X".into(), episode_count: 1 }];
    step(&mut a, Msg::SearchLoaded(Ok(res), 1));
    assert_eq!(a.search.search_results.len(), 1);
    assert!(!a.search.search_loading);
    step(&mut a, Msg::SearchLoaded(Err("boom".into()), 1));
    assert_eq!(toast_texts(&a), vec!["boom"]);
    assert!(a.status.toasts[0].is_error);
}

#[test]
fn typing_searches_from_two_bytes() {
    let mut a = app();
    a.nav.screen = Screen::Search;
    assert!(step(&mut a, key('a')).is_empty());
    let cmds = step(&mut a, key('b'));
    assert_eq!(a.search.search_input, "ab");
    assert_eq!(cmds.len(), 1);
    match &cmds[0] {
        Cmd::SearchAnime(q, sid) => {
            assert_eq!(q, "ab");
            assert_eq!(*sid, 1);
        }
        _ => panic!("expected a search"),
    }
    a.search.search_results = vec![AnimeResult { id: "x".into(), title: "X".into(), episode_count: 1 }];
    let cmds = step(&mut a, code(KeyCode::Backspace));
    assert_eq!(a.search.search_input, "a");
    assert!(cmds.is_empty());
    assert!(a.search.search_results.is_empty());
    let ctrl = Msg::Key(Key { code: KeyCode::Char('x'), ctrl: true });
    assert!(step(&mut a, ctrl).is_empty());
    assert_eq!(a.search.search_input, "a");
    // One non-ASCII character is already two bytes.
    a.search.search_input.clear();
    assert_eq!(step(&mut a, key('é')).len(), 1);
}

#[test]
fn search_enter_opens_detail() {
    let mut a = app();
    a.nav.screen = Screen::Search;
    a.search.search_results = vec![AnimeResult { id: "abc".into(), title: "Show".into(), episode_count: 3 }];
    let cmds = step(&mut a, code(KeyCode::Enter));
    assert_eq!(a.nav.screen, Screen::AnimeDetail);
    assert_eq!(a.nav.screen_stack, vec![Screen::Search]);
    assert!(a.detail.episodes_loading && a.detail.jikan_loading);
    match &cmds[0] {
        Cmd::FetchAnimeDetail { provider_id, title, session_id } => {
            assert_eq!(provider_id.as_deref(), Some("abc"));
            assert_eq!(title, "Show");
            assert_eq!(*session_id, 1);
        }
        _ => panic!("expected detail fetch"),
    }
}

#[test]
fn home_queue_enter_resumes_or_says_nothing() {
    let mut a = app();
    let cmds = step(&mut a, code(KeyCode::Enter));
    assert!(cmds.is_empty());
    assert_eq!(toast_texts(&a), vec!["nothing to resume"]);
    a.history.continue_watching = vec![entry(7, "show-1", "Test Show", "3")];
    let cmds = step(&mut a, key('p'));
    assert!(matches!(&cmds[0], Cmd::LaunchPlayer(w) if w.episode == "3" && w.anime_id == "show-1"));
    assert_eq!(a.detail.target_episode.as_deref(), Some("3"));
    assert_eq!(a.detail.selected_anime.as_ref().map(|s| s.episode_count), Some(12));
    assert_eq!(toast_texts(&a).last().unwrap(), "resuming Test Show ep 3...");
}

#[test]
fn home_airing_enter_opens_by_title() {
    let mut a = app();
    a.home.home_focus = HomeFocus::Airing;
    a.home.airing_today = vec![card(21, "One Piece")];
    let cmds = step(&mut a, code(KeyCode::Enter));
    let s = a.detail.selected_anime.as_ref().unwrap();
    assert_eq!(s.id, "21");
    assert_eq!(s.episode_count, 24);
    assert!(a.detail.cover_art_loading);
    assert!(matches!(&cmds[0], Cmd::FetchAnimeDetail { provider_id: None, title, session_id: 1 } if title == "One Piece"));
}

#[test]
fn home_focus_cycles() {
    let mut a = app();
    step(&mut a, code(KeyCode::Tab));
    assert_eq!(a.home.home_focus, HomeFocus::Airing);
    step(&mut a, code(KeyCode::Tab));
    assert_eq!(a.home.home_focus, HomeFocus::Trending);
    step(&mut a, code(KeyCode::BackTab));
    assert_eq!(a.home.home_focus, HomeFocus::Airing);
    step(&mut a, code(KeyCode::Down));
    assert_eq!(a.home.home_focus, HomeFocus::Queue);
    step(&mut a, key('k'));
    assert_eq!(a.home.home_focus, HomeFocus::Airing);
}

#[test]
fn gg_jumps_to_top() {
    let mut a = app();
    a.nav.screen = Screen::WatchHistory;
    a.history.history = vec![entry(1, "a", "A", "1"), entry(2, "b", "B", "2")];
    a.history.history_selected = 1;
    step(&mut a, key('g'));
    assert_eq!(a.nav.key_seq, Some(('g', 1_000)));
    step(&mut a, key('g'));
    assert_eq!(a.history.history_selected, 0);
    assert_eq!(a.nav.key_seq, None);
}

#[test]
fn episodes_loaded_selects_target() {
    let mut a = app();
    a.detail.selected_anime = Some(AnimeResult { id: "old".into(), title: "T".into(), episode_count: 3 });
    a.detail.target_episode = Some("2".into());
    let eps = vec!["1".to_string(), "2".to_string(), "3".to_string()];
    step(&mut a, Msg::EpisodesLoaded(Ok((eps, "new-id".into())), 0));
    assert_eq!(a.detail.episode_selected, 1);
    assert_eq!(a.detail.selected_anime.as_ref().unwrap().id, "new-id");
    assert_eq!(a.detail.target_episode, None);
}

#[test]
fn detail_keys_move_in_grid_and_launch() {
    let mut a = app();
    a.nav.screen = Screen::AnimeDetail;
    a.detail.selected_anime = Some(AnimeResult { id: "s".into(), title: "Show".into(), episode_count: 10 });
    a.detail.episodes = (1..=10).map(|i| i.to_string()).collect();
    step(&mut a, code(KeyCode::Down));
    assert_eq!(a.detail.episode_selected, 4);
    step(&mut a, key('l'));
    assert_eq!(a.detail.episode_selected, 5);
    step(&mut a, key('k'));
    assert_eq!(a.detail.episode_selected, 1);
    step(&mut a, code(KeyCode::Up));
    assert_eq!(a.detail.episode_selected, 1);
    let cmds = step(&mut a, code(KeyCode::Enter));
    match &cmds[0] {
        Cmd::LaunchPlayer(w) => {
            assert_eq!(w.id, 0);
            assert_eq!(w.episode, "2");
            assert_eq!(w.total_episodes, Some(10));
            assert_eq!(w.watched_at, "2024-05-01T10:00:00Z");
        }
        _ => panic!("expected a launch"),
    }
    step(&mut a, key('J'));
    step(&mut a, key('K'));
    step(&mut a, key('K'));
    assert_eq!(a.detail.synopsis_scroll, 0);
}

#[test]
fn playing_keys_step_through_episodes() {
    let mut a = app();
    a.nav.screen = Screen::NowPlaying;
    a.detail.selected_anime = Some(AnimeResult { id: "s".into(), title: "Show".into(), episode_count: 2 });
    a.detail.episodes = vec!["1".into(), "2".into()];
    let cmds = step(&mut a, key('n'));
    assert!(matches!(&cmds[0], Cmd::LaunchPlayer(w) if w.episode == "2"));
    let cmds = step(&mut a, key('n'));
    assert!(cmds.is_empty());
    assert_eq!(toast_texts(&a), vec!["no more episodes"]);
    step(&mut a, key('p'));
    let cmds = step(&mut a, key('h'));
    assert!(cmds.is_empty());
    assert_eq!(toast_texts(&a).last().unwrap(), "first episode");
}

#[test]
fn leaving_playback_stops_session() {
    let mut a = app();
    a.navigate(Screen::NowPlaying);
    a.playback.active_watch_session_id = Some(9);
    a.playback.active_presence_token = Some(4);
    a.playback.presence_enabled = true;
    let cmds = step(&mut a, code(KeyCode::Esc));
    assert_eq!(a.nav.screen, Screen::Home);
    assert_eq!(a.playback.active_watch_session_id, None);
    assert_eq!(a.playback.active_presence_token, None);
    assert!(matches!(cmds[0], Cmd::StopWatchSession(9)));
    assert!(matches!(cmds[1], Cmd::ReloadHistory));
    assert!(matches!(cmds[2], Cmd::StopPresence(4)));
    assert!(stop_active_watch_session(&mut a).is_empty());
}

#[test]
fn history_delete_asks_for_removal() {
    let mut a = app();
    a.nav.screen = Screen::WatchHistory;
    a.history.history = vec![entry(42, "a", "A", "1")];
    let cmds = step(&mut a, key('D'));
    assert!(matches!(cmds[0], Cmd::DeleteHistoryEntry(42)));
}

#[test]
fn metadata_with_cover_requests_image() {
    let mut a = app();
    let mut c = card(5, "Show");
    c.images.jpg.image_url = Some("https://img/5.jpg".into());
    let cmds = step(&mut a, Msg::MetadataLoaded(Some(c), 0));
    assert!(!a.detail.jikan_loading);
    assert!(a.detail.cover_art_loading);
    assert!(matches!(&cmds[0], Cmd::FetchImage(u, 0) if u == "https://img/5.jpg"));
    step(&mut a, Msg::ImageLoaded(Some("cover".into()), 0));
    assert!(!a.detail.cover_art_loading);
    assert_eq!(a.detail.cover_art, None);
    a.detail.has_image_picker = true;
    step(&mut a, Msg::ImageLoaded(Some("cover".into()), 0));
    assert_eq!(a.detail.cover_art.as_deref(), Some("cover"));
}

#[test]
fn stream_ready_hands_over_to_player() {
    let mut a = app();
    let data = PlaybackData {
        url: EpisodeUrl { url: "https://v".into(), quality: "1080".into(), referer: None, subtitle: None },
        entry: entry(0, "s", "S", "2"),
        metadata: None,
        episodes: Some(vec!["1".into(), "2".into()]),
    };
    let cmds = step(&mut a, Msg::StreamReady(Box::new(data)));
    assert_eq!(a.detail.episode_selected, 1);
    assert_eq!(a.playback.episode_url.as_ref().unwrap().quality, "1080");
    assert!(matches!(cmds[0], Cmd::ExecutePlayer(_)));
}

#[test]
fn update_messages_report_progress() {
    let mut a = app();
    let cmds = step(&mut a, Msg::TriggerUpdate);
    assert!(a.updates.update_in_progress);
    assert!(matches!(cmds[0], Cmd::PerformUpdate));
    step(&mut a, Msg::UpdateStatus(Ok(UpdateOutcome { message: "updated".into(), restart_required: true })));
    assert!(!a.updates.update_in_progress);
    assert_eq!(toast_texts(&a), vec!["updated", "restart required to finish update"]);
    step(&mut a, Msg::UpdateStatus(Err("net".into())));
    assert_eq!(toast_texts(&a).last().unwrap(), "update failed: net");
    a.updates.update_check_manual = true;
    let cmds = step(&mut a, Msg::UpdateCheckResult(Ok(None)));
    assert!(matches!(cmds[0], Cmd::RecordUpdateCheck));
    assert_eq!(toast_texts(&a).last().unwrap(), "app is up to date");
    assert!(!a.updates.update_check_manual);
    let info = UpdateInfo { latest_version: "9.9.9".into(), release_url: "u".into() };
    step(&mut a, Msg::UpdateCheckResult(Ok(Some(info))));
    assert!(a.updates.update_popup_visible);
    step(&mut a, Msg::UpdateCheckResult(Err("x".into())));
    assert_eq!(toast_texts(&a).last().unwrap(), "update check failed: x");
}

#[test]
fn global_keys() {
    let mut a = app();
    let q = handle_global(&a, Key { code: KeyCode::Char('c'), ctrl: true });
    assert!(matches!(q[..], [Msg::Quit]));
    assert!(matches!(handle_global(&a, Key { code: KeyCode::Char('?'), ctrl: false })[..], [Msg::Navigate(Screen::Help)]));
    assert!(handle_global(&a, Key { code: KeyCode::Char('x'), ctrl: false }).is_empty());
    a.nav.key_seq = Some(('g', 0));
    let w = handle_global(&a, Key { code: KeyCode::Char('w'), ctrl: false });
    assert!(matches!(w[..], [Msg::RefreshHistory, Msg::Navigate(Screen::WatchHistory)]));
    a.nav.key_seq = None;
    a.updates.update_available = Some(UpdateInfo { latest_version: "2".into(), release_url: "u".into() });
    let u = handle_global(&a, Key { code: KeyCode::Char('U'), ctrl: false });
    assert!(matches!(&u[..], [Msg::Toast(t, false), Msg::TriggerUpdate] if t == "updating..."));
}

#[test]
fn begin_and_complete_playback() {
    let mut a = app();
    assert_eq!(begin_playback(&mut a).err().as_deref(), Some("No anime selected"));
    a.detail.selected_anime = Some(AnimeResult { id: "s1".into(), title: "Show".into(), episode_count: 12 });
    assert_eq!(begin_playback(&mut a).err().as_deref(), Some("No episode selected"));
    a.detail.episodes = vec!["1".into(), "2".into()];
    a.detail.episode_selected = 1;
    a.playback.active_watch_session_id = Some(3);
    let start = begin_playback(&mut a).ok().unwrap();
    assert_eq!(start.title, "Show - Episode 2");
    assert_eq!(start.session.player, "mpv");
    assert_eq!(start.session.mode, "sub");
    assert_eq!(start.session.quality, "best");
    assert!(matches!(start.stop[0], Cmd::StopWatchSession(3)));
    assert_eq!(a.playback.current_episode.as_deref(), Some("2"));
    let cmds = complete_playback(&mut a, 11, Some(5));
    assert!(matches!(cmds[0], Cmd::ReloadHistory));
    assert_eq!(a.nav.screen, Screen::NowPlaying);
    assert_eq!(a.playback.active_watch_session_id, Some(11));
    assert_eq!(a.playback.active_presence_token, Some(5));
}

#[test]
fn weekday_names() {
    assert_eq!(today_day_name(0), "monday");
    assert_eq!(today_day_name(3), "thursday");
    assert_eq!(today_day_name(6), "sunday");
}

#[test]
fn documented_shortcuts() {
    let mut a = app();
    a.nav.key_seq = Some(('g', 0));
    assert!(matches!(handle_global(&a, Key { code: KeyCode::Char('s'), ctrl: false })[..], [Msg::Navigate(Screen::Search)]));
    assert!(matches!(handle_global(&a, Key { code: KeyCode::Char('p'), ctrl: false })[..], [Msg::Navigate(Screen::NowPlaying)]));
    a.nav.key_seq = None;
    a.history.continue_watching = vec![entry(1, "a", "A", "1"), entry(2, "b", "B", "2")];
    step(&mut a, key('G'));
    assert_eq!(a.home.home_selected, 1);
    let cmds = step(&mut a, key('r'));
    assert!(matches!(&cmds[0], Cmd::LaunchPlayer(w) if w.anime_id == "b"));
    a.nav.screen = Screen::WatchHistory;
    a.history.history = vec![entry(5, "a", "A", "1"), entry(6, "b", "B", "2")];
    step(&mut a, key('G'));
    assert_eq!(a.history.history_selected, 1);
    assert!(matches!(step(&mut a, key('x'))[0], Cmd::DeleteHistoryEntry(6)));
    assert!(matches!(step(&mut a, key('X'))[0], Cmd::ClearHistory));
    a.nav.screen = Screen::Search;
    step(&mut a, key('G'));
    assert_eq!(a.search.search_input, "G");
}

#[test]
fn stream_results_become_messages() {
    let url = EpisodeUrl { url: "u".into(), quality: "720".into(), referer: None, subtitle: None };
    let m: Msg<u32, String> = stream_message(Ok(url), entry(0, "a", "A", "1"), None, Some(vec!["1".into()]));
    assert!(matches!(&m, Msg::StreamReady(d) if d.url.quality == "720" && d.episodes.as_ref().map(|e| e.len()) == Some(1)));
    let m: Msg<u32, String> = stream_message(Err("gone".into()), entry(0, "a", "A", "1"), None, None);
    assert!(matches!(&m, Msg::Toast(t, true) if t == "stream error: gone"));
    assert_eq!(detail_provider_id(Some("x".into()), None).as_deref(), Some("x"));
    let hits = vec![AnimeResult { id: "first".into(), title: "F".into(), episode_count: 1 }, AnimeResult { id: "second".into(), title: "S".into(), episode_count: 1 }];
    assert_eq!(detail_provider_id(None, Some(hits)).as_deref(), Some("first"));
    assert_eq!(detail_provider_id(None, Some(vec![])), None);
    assert_eq!(detail_provider_id(None, None), None);
}

#[test]
fn watched_episodes_of_selected_show() {
    let history = vec![
        entry(1, "show-a", "A", "3"),
        entry(2, "show-b", "B", "1"),
        entry(3, "show-a", "A", "1"),
    ];
    let mut a: TestApp = App::new(PlayerType::Mpv, history, vec![]);
    assert!(a.watched_episodes().is_empty());
    a.detail.selected_anime = Some(AnimeResult { id: "show-a".to_string(), title: "A".to_string(), episode_count: 12 });
    assert_eq!(a.watched_episodes(), vec!["3".to_string(), "1".to_string()]);
    a.detail.selected_anime = Some(AnimeResult { id: "show-c".to_string(), title: "C".to_string(), episode_count: 1 });
    assert!(a.watched_episodes().is_empty());
}

#[test]
fn counter_limit_only_guards_messages_that_start_requests() {
    let mut a = app();
    a.nav.current_session_id = u64::MAX;
    let stale: Msg<u32, String> = Msg::SearchLoaded(Ok(vec![]), 7);
    assert!(can_update(&a, &stale));
    assert!(step(&mut a, stale).is_empty());
    assert_eq!(a.nav.current_session_id, u64::MAX);
    assert!(can_update(&a, &Msg::Tick));
    assert!(!can_update(&a, &Msg::Navigate(Screen::Search)));
    assert!(!can_update(&a, &key('s')));
    assert!(can_update(&a, &key('j')));
    a.nav.screen = Screen::AnimeDetail;
    a.detail.episodes = vec!["1".to_string(), "2".to_string(), "3".to_string()];
    for c in ['l', 'j', 'h', 'k'] {
        assert!(can_update(&a, &key(c)));
    }
    assert!(step(&mut a, key('l')).is_empty());
    assert_eq!(a.detail.episode_selected, 1);
    assert!(!can_update(&a, &code(KeyCode::Enter)));
}

#[test]
fn now_playing_keys_past_the_list_are_refused() {
    let mut a = app();
    a.nav.screen = Screen::NowPlaying;
    a.detail.selected_anime = Some(AnimeResult { id: "s".into(), title: "S".into(), episode_count: 1 });
    a.detail.episodes = vec!["1".to_string()];
    a.detail.episode_selected = 1;
    assert!(!can_update(&a, &key('r')));
    assert!(can_update(&a, &key('p')));
    a.detail.episode_selected = 2;
    assert!(!can_update(&a, &key('h')));
}

#[test]
fn detail_grid_moves_stay_inside_the_list() {
    let mut a = app();
    a.nav.screen = Screen::AnimeDetail;
    a.detail.episodes = (1..=10).map(|i| i.to_string()).collect();
    let mv = |a: &mut TestApp, c: char| {
        assert!(update(a, key(c), 4, 0, "t").is_empty());
        a.detail.episode_selected
    };
    assert_eq!(mv(&mut a, 'j'), 4);
    assert_eq!(mv(&mut a, 'j'), 8);
    assert_eq!(mv(&mut a, 'j'), 8);
    assert_eq!(mv(&mut a, 'l'), 9);
    assert_eq!(mv(&mut a, 'l'), 9);
    assert_eq!(mv(&mut a, 'k'), 5);
    assert_eq!(mv(&mut a, 'h'), 4);
}
