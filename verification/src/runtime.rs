//! The client's event handling: keys and loaded data come in as messages,
//! the state is updated, and background work goes out as commands. Replies
//! tagged with a session id older than the current one are ignored.

use vstd::prelude::*;

use crate::app::{
    App, CatalogEntry, DetailState, HistoryState, HomeFocus, HomeState, Navigation, PlaybackState,
    Screen, SearchState, StatusState, UpdateState, gone_back, navigated, toasted,
};
use crate::domain::{
    AnimeResult, EpisodeUrl, NewWatchSession, WatchEntry, mode_text, player_name, toggled,
};
use crate::jikan::{JikanRecommendation, best_image};
use crate::jikan::byte_len;
use crate::presence::{PresenceMetadata, PresencePlayback};
use crate::text::{decimal, decimal_text, join_str};
use crate::updater::{UpdateInfo, UpdateOutcome};

verus! {

/// A key as the client reads it.
#[derive(Debug, PartialEq, Eq, Structural, Clone, Copy)]
pub enum KeyCode {
    Char(char),
    Enter,
    Esc,
    Tab,
    BackTab,
    Backspace,
    Up,
    Down,
    Left,
    Right,
    Other,
}

/// A key press, with whether Control was held.
#[derive(Debug, PartialEq, Eq, Structural, Clone, Copy)]
pub struct Key {
    pub code: KeyCode,
    pub ctrl: bool,
}

/// A stream ready to play, with what came with it.
pub struct PlaybackData {
    pub url: EpisodeUrl,
    pub entry: WatchEntry,
    pub metadata: Option<PresenceMetadata>,
    pub episodes: Option<Vec<String>>,
}

/// Events for the state machine.
pub enum Msg<J, C> {
    Key(Key),
    Tick,
    Navigate(Screen),
    Back,
    FetchHomeData,
    HomeAiringLoaded(Result<Vec<CatalogEntry<J>>, String>, u64),
    HomeTopLoaded(Result<Vec<CatalogEntry<J>>, String>, u64),
    PerformSearch(String),
    SearchLoaded(Result<Vec<AnimeResult>, String>, u64),
    FetchDetail(String),
    /// The episode list and the provider id it was found under.
    EpisodesLoaded(Result<(Vec<String>, String), String>, u64),
    MetadataLoaded(Option<CatalogEntry<J>>, u64),
    /// A cover image, already prepared for display when there was one.
    ImageLoaded(Option<C>, u64),
    RecommendationsLoaded(Result<Vec<JikanRecommendation>, String>, u64),
    PlayEpisode(WatchEntry),
    StreamReady(Box<PlaybackData>),
    PlayerFinished,
    Toast(String, bool),
    Quit,
    RefreshHistory,
    ToggleUpdatePopup(bool),
    TriggerUpdate,
    UpdateStatus(Result<UpdateOutcome, String>),
    UpdateCheckResult(Result<Option<UpdateInfo>, String>),
}

/// Work for the host to do.
pub enum Cmd {
    FetchAiringToday(u64),
    FetchTopAiring(u64),
    SearchAnime(String, u64),
    FetchAnimeDetail { provider_id: Option<String>, title: String, session_id: u64 },
    FetchImage(String, u64),
    FetchRecommendations(u32, u64),
    LaunchPlayer(WatchEntry),
    ExecutePlayer(Box<PlaybackData>),
    PerformUpdate,
    /// Read the history and continue-watching lists again and hand them to
    /// `App::refresh_history`.
    ReloadHistory,
    /// Delete this history row, then reload the history.
    DeleteHistoryEntry(i64),
    /// Delete all history, then reload it.
    ClearHistory,
    /// Close this recorded watch session.
    StopWatchSession(i64),
    /// Tell the presence worker that this playback stopped.
    StopPresence(u64),
    /// Store the time of this update check.
    RecordUpdateCheck,
}

// ---------------------------------------------------------------------------
// Small specification helpers.

/// The text `resuming TITLE ep EPISODE...`.
pub open spec fn resuming_text(title: Seq<char>, episode: Seq<char>) -> Seq<char> {
    "resuming "@ + title + " ep "@ + episode + "..."@
}

/// The first index of an episode named `t` at or after `i`.
pub open spec fn position_from(eps: Seq<String>, t: Seq<char>, i: int) -> Option<int>
    decreases eps.len() - i,
{
    if i < 0 || i >= eps.len() {
        None
    } else if eps[i]@ == t {
        Some(i)
    } else {
        position_from(eps, t, i + 1)
    }
}

/// The index of the first episode named `t`, or 0 when there is none.
pub open spec fn position_or_zero(eps: Seq<String>, t: Seq<char>) -> usize {
    match position_from(eps, t, 0) {
        Some(i) => i as usize,
        None => 0,
    }
}

/// The state after the session id is bumped.
pub open spec fn bumped(n: Navigation) -> Navigation {
    Navigation { current_session_id: (n.current_session_id + 1) as u64, ..n }
}

/// A show summary made from a catalog entry: its MyAnimeList id in decimal,
/// its title and its episode count (0 when unknown).
pub open spec fn summary_of_entry<J>(e: CatalogEntry<J>, r: AnimeResult) -> bool {
    &&& r.id@ == decimal(e.mal_id as nat)
    &&& r.title@ == e.title@
    &&& r.episode_count == (match e.episodes {
        Some(n) => n,
        None => 0,
    })
}

/// A show summary made from a history row.
pub open spec fn summary_of_watch(w: WatchEntry, r: AnimeResult) -> bool {
    &&& r.id@ == w.anime_id@
    &&& r.title@ == w.title@
    &&& r.episode_count == (match w.total_episodes {
        Some(n) => n,
        None => 0,
    })
}

/// The history row that asks to play `episode` of `anime`.
pub open spec fn launch_entry(anime: AnimeResult, episode: Seq<char>, stamp: Seq<char>, w: WatchEntry) -> bool {
    &&& w.id == 0
    &&& w.anime_id@ == anime.id@
    &&& w.title@ == anime.title@
    &&& w.episode@ == episode
    &&& w.total_episodes == Some(anime.episode_count)
    &&& w.watched_at@ == stamp
}

/// Whether the message is a reply whose session id is not the current one.
pub open spec fn is_stale<J, C>(a: App<J, C>, msg: Msg<J, C>) -> bool {
    match msg {
        Msg::HomeAiringLoaded(_, sid) => sid != a.nav.current_session_id,
        Msg::HomeTopLoaded(_, sid) => sid != a.nav.current_session_id,
        Msg::SearchLoaded(_, sid) => sid != a.nav.current_session_id,
        Msg::EpisodesLoaded(_, sid) => sid != a.nav.current_session_id,
        Msg::MetadataLoaded(_, sid) => sid != a.nav.current_session_id,
        Msg::ImageLoaded(_, sid) => sid != a.nav.current_session_id,
        Msg::RecommendationsLoaded(_, sid) => sid != a.nav.current_session_id,
        _ => false,
    }
}

/// Opening the detail screen for a show: a new session, the detail screen,
/// and empty episode and recommendation lists marked as loading, with the
/// cover cleared and loading.
pub open spec fn opened_detail<J, C>(
    a: App<J, C>,
    b: App<J, C>,
    anime: AnimeResult,
    reset_cover: bool,
) -> bool {
    &&& navigated(bumped(a.nav), b.nav, Screen::AnimeDetail)
    &&& b.detail.episodes@.len() == 0
    &&& b.detail.recommendations@.len() == 0
    &&& b.detail == DetailState {
        selected_anime: Some(anime),
        episodes: b.detail.episodes,
        recommendations: b.detail.recommendations,
        episodes_loading: true,
        jikan_loading: true,
        cover_art: if reset_cover {
            None
        } else {
            a.detail.cover_art
        },
        cover_art_loading: if reset_cover {
            true
        } else {
            a.detail.cover_art_loading
        },
        ..a.detail
    }
    &&& b == App { nav: b.nav, detail: b.detail, ..a }
}

// ---------------------------------------------------------------------------
// Home screen keys.

/// The next panel on Tab: queue, airing, trending, queue.
pub open spec fn focus_next(f: HomeFocus) -> HomeFocus {
    match f {
        HomeFocus::Queue => HomeFocus::Airing,
        HomeFocus::Airing => HomeFocus::Trending,
        HomeFocus::Trending => HomeFocus::Queue,
    }
}

/// The previous panel on Shift-Tab.
pub open spec fn focus_prev(f: HomeFocus) -> HomeFocus {
    match f {
        HomeFocus::Queue => HomeFocus::Trending,
        HomeFocus::Trending => HomeFocus::Airing,
        HomeFocus::Airing => HomeFocus::Queue,
    }
}

/// The home cursor after a move key (`up`, `down`, `left`, `right`); the
/// trending list shows at most five shows.
pub open spec fn home_moved<J>(h: HomeState<J>, queue_len: nat, dir: KeyCode) -> HomeState<J> {
    match dir {
        KeyCode::Up => if h.home_focus == HomeFocus::Queue {
            if h.home_selected > 0 {
                HomeState { home_selected: (h.home_selected - 1) as usize, ..h }
            } else {
                HomeState { home_focus: HomeFocus::Airing, ..h }
            }
        } else if h.home_focus == HomeFocus::Trending {
            if h.top_selected > 0 {
                HomeState { top_selected: (h.top_selected - 1) as usize, ..h }
            } else {
                HomeState { home_focus: HomeFocus::Airing, ..h }
            }
        } else {
            h
        },
        KeyCode::Down => if h.home_focus == HomeFocus::Queue {
            if h.home_selected + 1 < queue_len {
                HomeState { home_selected: (h.home_selected + 1) as usize, ..h }
            } else {
                h
            }
        } else if h.home_focus == HomeFocus::Trending {
            if h.top_selected + 1 < (if h.top_anime@.len() < 5 {
                h.top_anime@.len()
            } else {
                5
            }) {
                HomeState { top_selected: (h.top_selected + 1) as usize, ..h }
            } else {
                h
            }
        } else {
            HomeState { home_focus: HomeFocus::Queue, ..h }
        },
        KeyCode::Left => if h.home_focus == HomeFocus::Airing {
            if h.home_airing_selected > 0 {
                let s = (h.home_airing_selected - 1) as usize;
                HomeState {
                    home_airing_selected: s,
                    home_airing_offset: if s < h.home_airing_offset {
                        s
                    } else {
                        h.home_airing_offset
                    },
                    ..h
                }
            } else {
                h
            }
        } else {
            HomeState { home_focus: HomeFocus::Queue, ..h }
        },
        KeyCode::Right => if h.home_focus == HomeFocus::Airing {
            if h.home_airing_selected + 1 < h.airing_today@.len() {
                let s = (h.home_airing_selected + 1) as usize;
                HomeState {
                    home_airing_selected: s,
                    home_airing_offset: if s >= h.home_airing_offset + 5 {
                        (h.home_airing_offset + 1) as usize
                    } else {
                        h.home_airing_offset
                    },
                    ..h
                }
            } else {
                h
            }
        } else if h.home_focus == HomeFocus::Queue {
            HomeState { home_focus: HomeFocus::Trending, ..h }
        } else {
            HomeState { home_focus: HomeFocus::Airing, ..h }
        },
        _ => h,
    }
}

/// The direction a home key moves in, if it is a move key.
pub open spec fn home_direction(c: KeyCode) -> Option<KeyCode> {
    match c {
        KeyCode::Up | KeyCode::Char('k') => Some(KeyCode::Up),
        KeyCode::Down | KeyCode::Char('j') => Some(KeyCode::Down),
        KeyCode::Left | KeyCode::Char('h') => Some(KeyCode::Left),
        KeyCode::Right | KeyCode::Char('l') => Some(KeyCode::Right),
        _ => None,
    }
}

/// Selecting a listed show on the home screen opens it, asking for its
/// details by title.
pub open spec fn opened_listed<J, C>(
    a: App<J, C>,
    b: App<J, C>,
    e: CatalogEntry<J>,
    cmds: Seq<Cmd>,
) -> bool {
    &&& b.detail.selected_anime matches Some(s) && summary_of_entry(e, s)
    &&& opened_detail(a, b, b.detail.selected_anime->Some_0, true)
    &&& cmds.len() == 1
    &&& cmds[0] matches Cmd::FetchAnimeDetail { provider_id, title, session_id } && provider_id
        is None && title@ == e.title@ && session_id == b.nav.current_session_id
}

/// Resuming a history row: it becomes the selected show, its episode the
/// target, a toast says so, and the player is asked for.
pub open spec fn resumed<J, C>(
    a: App<J, C>,
    b: App<J, C>,
    w: WatchEntry,
    now: u64,
    cmds: Seq<Cmd>,
) -> bool {
    &&& b.detail.selected_anime matches Some(s) && summary_of_watch(w, s)
    &&& b.detail.target_episode matches Some(t) && t@ == w.episode@
    &&& b.detail == DetailState {
        selected_anime: b.detail.selected_anime,
        target_episode: b.detail.target_episode,
        ..a.detail
    }
    &&& toasted(a.status, b.status, resuming_text(w.title@, w.episode@), false, now)
    &&& b == App { detail: b.detail, status: b.status, ..a }
    &&& cmds == seq![Cmd::LaunchPlayer(w)]
}

/// The home screen's reaction to a key.
pub open spec fn home_key<J, C>(a: App<J, C>, b: App<J, C>, key: Key, now: u64, cmds: Seq<Cmd>) -> bool {
    match key.code {
        KeyCode::Char('q') => b == App { nav: Navigation { running: false, ..a.nav }, ..a } && cmds.len()
            == 0,
        KeyCode::Char('s') => navigated(bumped(a.nav), b.nav, Screen::Search) && b == App {
            nav: b.nav,
            ..a
        } && cmds.len() == 0,
        KeyCode::Char('w') => navigated(bumped(a.nav), b.nav, Screen::WatchHistory) && b == App {
            nav: b.nav,
            history: HistoryState { history_selected: 0, ..a.history },
            ..a
        } && cmds == seq![Cmd::ReloadHistory],
        KeyCode::Char('d') => b == App {
            playback: PlaybackState { mode: toggled(a.playback.mode), ..a.playback },
            ..a
        } && cmds.len() == 0,
        KeyCode::Tab => b == App {
            home: HomeState { home_focus: focus_next(a.home.home_focus), ..a.home },
            ..a
        } && cmds.len() == 0,
        KeyCode::BackTab => b == App {
            home: HomeState { home_focus: focus_prev(a.home.home_focus), ..a.home },
            ..a
        } && cmds.len() == 0,
        KeyCode::Enter | KeyCode::Char('p') | KeyCode::Char('r') => match a.home.home_focus {
            HomeFocus::Airing => if a.home.home_airing_selected < a.home.airing_today@.len() {
                opened_listed(a, b, a.home.airing_today@[a.home.home_airing_selected as int], cmds)
            } else {
                b == a && cmds.len() == 0
            },
            HomeFocus::Trending => if a.home.top_selected < a.home.top_anime@.len() {
                opened_listed(a, b, a.home.top_anime@[a.home.top_selected as int], cmds)
            } else {
                b == a && cmds.len() == 0
            },
            HomeFocus::Queue => if a.home.home_selected < a.history.continue_watching@.len() {
                resumed(a, b, a.history.continue_watching@[a.home.home_selected as int], now, cmds)
            } else {
                toasted(a.status, b.status, "nothing to resume"@, false, now) && b == App {
                    status: b.status,
                    ..a
                } && cmds.len() == 0
            },
        },
        _ => match home_direction(key.code) {
            Some(d) => b == App {
                home: home_moved(a.home, a.history.continue_watching@.len(), d),
                ..a
            } && cmds.len() == 0,
            None => b == a && cmds.len() == 0,
        },
    }
}

// ---------------------------------------------------------------------------
// Search screen keys.

/// A query is sent once the input is at least two bytes long.
pub open spec fn query_ready(s: Seq<char>) -> bool {
    byte_len(s) >= 2
}

/// After the input changed to `input`: a long enough input starts a search
/// under a new session id.
pub open spec fn input_changed<J, C>(
    a: App<J, C>,
    b: App<J, C>,
    input: Seq<char>,
    clear_when_short: bool,
    cmds: Seq<Cmd>,
) -> bool {
    &&& b.search.search_input@ == input
    &&& if query_ready(input) {
        &&& b.nav == bumped(a.nav)
        &&& b.search == SearchState { search_input: b.search.search_input, ..a.search }
        &&& cmds.len() == 1
        &&& cmds[0] matches Cmd::SearchAnime(q, sid) && q@ == input && sid
            == b.nav.current_session_id
    } else {
        &&& b.nav == a.nav
        &&& if clear_when_short {
            &&& b.search.search_results@.len() == 0
            &&& b.search == SearchState {
                search_input: b.search.search_input,
                search_results: b.search.search_results,
                ..a.search
            }
        } else {
            b.search == SearchState { search_input: b.search.search_input, ..a.search }
        }
        &&& cmds.len() == 0
    }
    &&& b == App { nav: b.nav, search: b.search, ..a }
}

/// The search screen's reaction to a key.
pub open spec fn search_key<J, C>(a: App<J, C>, b: App<J, C>, key: Key, cmds: Seq<Cmd>) -> bool {
    let s = a.search;
    if key.code == KeyCode::Esc {
        gone_back(a.nav, b.nav) && b == App { nav: b.nav, ..a } && cmds.len() == 0
    } else if key.code == KeyCode::Up && s.search_selected > 0 {
        b == App {
            search: SearchState { search_selected: (s.search_selected - 1) as usize, ..s },
            ..a
        } && cmds.len() == 0
    } else if key.code == KeyCode::Down && s.search_selected + 1 < s.search_results@.len() {
        b == App {
            search: SearchState { search_selected: (s.search_selected + 1) as usize, ..s },
            ..a
        } && cmds.len() == 0
    } else if key.code == KeyCode::Backspace {
        input_changed(
            a,
            b,
            if s.search_input@.len() > 0 {
                s.search_input@.drop_last()
            } else {
                s.search_input@
            },
            true,
            cmds,
        )
    } else if key.code == KeyCode::Enter {
        if s.search_selected < s.search_results@.len() {
            let r = s.search_results@[s.search_selected as int];
            &&& b.detail.selected_anime == Some(r)
            &&& opened_detail(a, b, r, false)
            &&& cmds.len() == 1
            &&& cmds[0] matches Cmd::FetchAnimeDetail { provider_id, title, session_id }
                && (provider_id matches Some(p) && p@ == r.id@) && title@ == r.title@ && session_id
                == b.nav.current_session_id
        } else {
            b == a && cmds.len() == 0
        }
    } else if key.code is Char && !key.ctrl {
        input_changed(a, b, s.search_input@.push(key.code->Char_0), false, cmds)
    } else {
        b == a && cmds.len() == 0
    }
}

// ---------------------------------------------------------------------------
// Detail screen keys.

/// The episode cursor moved by `delta`.
pub open spec fn episode_stepped<J, C>(a: App<J, C>, b: App<J, C>, delta: int, cmds: Seq<Cmd>) -> bool {
    cmds.len() == 0 && b == App {
        detail: DetailState { episode_selected: (a.detail.episode_selected + delta) as usize, ..a.detail },
        ..a
    }
}

/// The detail screen's reaction to a key, with `cols` episode columns.
pub open spec fn detail_key<J, C>(
    a: App<J, C>,
    b: App<J, C>,
    key: Key,
    cols: usize,
    stamp: Seq<char>,
    cmds: Seq<Cmd>,
) -> bool {
    let d = a.detail;
    let n = d.episodes@.len();
    if (key.code == KeyCode::Left || key.code == KeyCode::Char('h')) && !d.show_recommendations
        && d.episode_selected > 0 {
        episode_stepped(a, b, -1, cmds)
    } else if (key.code == KeyCode::Right || key.code == KeyCode::Char('l'))
        && !d.show_recommendations && d.episode_selected + 1 < n {
        episode_stepped(a, b, 1, cmds)
    } else {
    match key.code {
        KeyCode::Esc => gone_back(a.nav, b.nav) && b == App { nav: b.nav, ..a } && cmds.len() == 0,
        KeyCode::Up | KeyCode::Char('k') => cmds.len() == 0 && b == App {
            detail: if d.show_recommendations {
                if d.recommendations_selected > 0 {
                    DetailState {
                        recommendations_selected: (d.recommendations_selected - 1) as usize,
                        ..d
                    }
                } else {
                    d
                }
            } else if d.episode_selected >= cols {
                DetailState { episode_selected: (d.episode_selected - cols) as usize, ..d }
            } else {
                d
            },
            ..a
        },
        KeyCode::Down | KeyCode::Char('j') => cmds.len() == 0 && b == App {
            detail: if d.show_recommendations {
                if d.recommendations_selected + 1 < d.recommendations@.len() {
                    DetailState {
                        recommendations_selected: (d.recommendations_selected + 1) as usize,
                        ..d
                    }
                } else {
                    d
                }
            } else if d.episode_selected + cols < n {
                DetailState { episode_selected: (d.episode_selected + cols) as usize, ..d }
            } else {
                d
            },
            ..a
        },
        KeyCode::Char('K') => cmds.len() == 0 && b == App {
            detail: DetailState {
                synopsis_scroll: if d.synopsis_scroll > 0 {
                    (d.synopsis_scroll - 1) as usize
                } else {
                    0
                },
                ..d
            },
            ..a
        },
        KeyCode::Char('J') => cmds.len() == 0 && b == App {
            detail: DetailState {
                synopsis_scroll: if d.synopsis_scroll < usize::MAX {
                    (d.synopsis_scroll + 1) as usize
                } else {
                    usize::MAX
                },
                ..d
            },
            ..a
        },
        KeyCode::Char('d') => match d.selected_anime {
            Some(anime) => {
                &&& b == App {
                    playback: PlaybackState { mode: toggled(a.playback.mode), ..a.playback },
                    detail: DetailState { episodes_loading: true, ..d },
                    ..a
                }
                &&& cmds.len() == 1
                &&& cmds[0] matches Cmd::FetchAnimeDetail { provider_id, title, session_id }
                    && (provider_id matches Some(p) && p@ == anime.id@) && title@ == anime.title@
                    && session_id == a.nav.current_session_id
            },
            None => cmds.len() == 0 && b == App {
                playback: PlaybackState { mode: toggled(a.playback.mode), ..a.playback },
                ..a
            },
        },
        KeyCode::Char('r') => {
            let shown = !d.show_recommendations;
            if shown && d.recommendations@.len() == 0 && d.jikan_anime is Some {
                &&& b == App {
                    detail: DetailState {
                        show_recommendations: shown,
                        recommendations_loading: true,
                        ..d
                    },
                    ..a
                }
                &&& cmds == seq![
                    Cmd::FetchRecommendations(
                        d.jikan_anime->Some_0.mal_id,
                        a.nav.current_session_id,
                    ),
                ]
            } else {
                b == App { detail: DetailState { show_recommendations: shown, ..d }, ..a }
                    && cmds.len() == 0
            }
        },
        KeyCode::Enter | KeyCode::Char('p') => if d.show_recommendations {
            if d.recommendations_selected < d.recommendations@.len() {
                let rec = d.recommendations@[d.recommendations_selected as int];
                &&& b == App {
                    nav: bumped(a.nav),
                    detail: DetailState { loading: true, ..d },
                    ..a
                }
                &&& cmds.len() == 1
                &&& cmds[0] matches Cmd::FetchAnimeDetail { provider_id, title, session_id }
                    && provider_id is None && title@ == (match rec.entry.title {
                    Some(t) => t@,
                    None => Seq::<char>::empty(),
                }) && session_id == b.nav.current_session_id
            } else {
                b == a && cmds.len() == 0
            }
        } else {
            match d.selected_anime {
                Some(anime) => if d.episode_selected < n {
                    &&& b == a
                    &&& cmds.len() == 1
                    &&& cmds[0] matches Cmd::LaunchPlayer(w) && launch_entry(
                        anime,
                        d.episodes@[d.episode_selected as int]@,
                        stamp,
                        w,
                    )
                } else {
                    b == a && cmds.len() == 0
                },
                None => b == a && cmds.len() == 0,
            }
        },
        _ => b == a && cmds.len() == 0,
    }
    }
}

// ---------------------------------------------------------------------------
// Now-playing keys.

/// Stopping the active watch session: it is closed and the history reloaded;
/// the presence worker is told when presence is on.
pub open spec fn session_stopped<J, C>(a: App<J, C>, b: App<J, C>, cmds: Seq<Cmd>) -> bool {
    let first = match a.playback.active_watch_session_id {
        Some(id) => seq![Cmd::StopWatchSession(id), Cmd::ReloadHistory],
        None => Seq::<Cmd>::empty(),
    };
    let second = match a.playback.active_presence_token {
        Some(t) => if a.playback.presence_enabled {
            seq![Cmd::StopPresence(t)]
        } else {
            Seq::<Cmd>::empty()
        },
        None => Seq::<Cmd>::empty(),
    };
    &&& cmds == first + second
    &&& b == App {
        playback: PlaybackState {
            active_watch_session_id: None,
            active_presence_token: None,
            ..a.playback
        },
        ..a
    }
}

/// Whether a key on `screen` may start a new batch of background requests
/// (and so advance the request id): the home screen's `s`, `w` and open keys
/// (Enter, `p`, `r`), every search-screen key but Esc, Up and Down, and the
/// detail screen's open keys (Enter, `p`).
pub open spec fn key_starts_request(screen: Screen, key: Key) -> bool {
    match screen {
        Screen::Home => key.code == KeyCode::Char('s') || key.code == KeyCode::Char('w')
            || key.code == KeyCode::Enter || key.code == KeyCode::Char('p') || key.code
            == KeyCode::Char('r'),
        Screen::Search => !(key.code == KeyCode::Esc || key.code == KeyCode::Up || key.code
            == KeyCode::Down),
        Screen::AnimeDetail => key.code == KeyCode::Enter || key.code == KeyCode::Char('p'),
        _ => false,
    }
}

/// Whether a message may start a new batch of background requests: moving
/// to a screen, a search, or a key for which `key_starts_request` holds.
/// Replies, ticks and the other messages never do.
pub open spec fn starts_request<J, C>(a: App<J, C>, msg: Msg<J, C>) -> bool {
    match msg {
        Msg::Navigate(_) => true,
        Msg::PerformSearch(_) => true,
        Msg::Key(k) => key_starts_request(a.nav.screen, k),
        _ => false,
    }
}

/// What `update` needs of the state and the message: a request id left to
/// advance to when the message may start requests, and no now-playing key
/// that would read past the episode list.
pub open spec fn update_allowed<J, C>(a: App<J, C>, msg: Msg<J, C>) -> bool {
    &&& starts_request(a, msg) ==> a.nav.current_session_id < u64::MAX
    &&& !(msg matches Msg::Key(k) && playing_out_of_range(a, k))
}

/// Whether replaying (`r`) or stepping back (`p`, `h`) on the now-playing
/// screen would read past the end of the episode list, which the client does
/// not handle (the cursor is kept inside the list by every other step).
pub open spec fn playing_out_of_range<J, C>(a: App<J, C>, key: Key) -> bool {
    &&& a.nav.screen == Screen::NowPlaying
    &&& a.detail.selected_anime is Some
    &&& (key.code == KeyCode::Char('r') && a.detail.episode_selected >= a.detail.episodes@.len()
        || (key.code == KeyCode::Char('p') || key.code == KeyCode::Char('h'))
        && a.detail.episode_selected > a.detail.episodes@.len())
}

/// Playing the episode under the cursor of `b` (after a move).
pub open spec fn plays_selected<J, C>(b: App<J, C>, stamp: Seq<char>, cmds: Seq<Cmd>) -> bool {
    match b.detail.selected_anime {
        Some(anime) => cmds.len() == 1 && (cmds[0] matches Cmd::LaunchPlayer(w) && launch_entry(
            anime,
            b.detail.episodes@[b.detail.episode_selected as int]@,
            stamp,
            w,
        )),
        None => cmds.len() == 0,
    }
}

/// The now-playing screen's reaction to a key.
pub open spec fn playing_key<J, C>(
    a: App<J, C>,
    b: App<J, C>,
    key: Key,
    now: u64,
    stamp: Seq<char>,
    cmds: Seq<Cmd>,
) -> bool {
    let d = a.detail;
    match key.code {
        KeyCode::Esc | KeyCode::Char('q') => {
            &&& gone_back(a.nav, b.nav)
            &&& b.playback == PlaybackState {
                active_watch_session_id: None,
                active_presence_token: None,
                ..a.playback
            }
            &&& b == App { nav: b.nav, playback: b.playback, ..a }
            &&& session_stopped(a, App { nav: a.nav, ..b }, cmds)
        },
        KeyCode::Char('n') | KeyCode::Char('l') => if d.episode_selected + 1 < d.episodes@.len() {
            &&& b == App {
                detail: DetailState { episode_selected: (d.episode_selected + 1) as usize, ..d },
                ..a
            }
            &&& plays_selected(b, stamp, cmds)
        } else {
            toasted(a.status, b.status, "no more episodes"@, false, now) && b == App {
                status: b.status,
                ..a
            } && cmds.len() == 0
        },
        KeyCode::Char('p') | KeyCode::Char('h') => if d.episode_selected > 0 {
            &&& b == App {
                detail: DetailState { episode_selected: (d.episode_selected - 1) as usize, ..d },
                ..a
            }
            &&& plays_selected(b, stamp, cmds)
        } else {
            toasted(a.status, b.status, "first episode"@, false, now) && b == App {
                status: b.status,
                ..a
            } && cmds.len() == 0
        },
        KeyCode::Char('r') => b == a && plays_selected(a, stamp, cmds),
        KeyCode::Char('s') => navigated(a.nav, b.nav, Screen::AnimeDetail) && b == App {
            nav: b.nav,
            ..a
        } && cmds.len() == 0,
        _ => b == a && cmds.len() == 0,
    }
}

// ---------------------------------------------------------------------------
// History screen keys.

/// The history screen's reaction to a key.
pub open spec fn history_key<J, C>(a: App<J, C>, b: App<J, C>, key: Key, now: u64, cmds: Seq<Cmd>) -> bool {
    let h = a.history;
    match key.code {
        KeyCode::Esc => gone_back(a.nav, b.nav) && b == App { nav: b.nav, ..a } && cmds.len() == 0,
        KeyCode::Up | KeyCode::Char('k') => cmds.len() == 0 && b == App {
            history: if h.history_selected > 0 {
                HistoryState { history_selected: (h.history_selected - 1) as usize, ..h }
            } else {
                h
            },
            ..a
        },
        KeyCode::Down | KeyCode::Char('j') => cmds.len() == 0 && b == App {
            history: if h.history_selected + 1 < h.history@.len() {
                HistoryState { history_selected: (h.history_selected + 1) as usize, ..h }
            } else {
                h
            },
            ..a
        },
        KeyCode::Enter | KeyCode::Char('p') => if h.history_selected < h.history@.len() {
            resumed(a, b, h.history@[h.history_selected as int], now, cmds)
        } else {
            b == a && cmds.len() == 0
        },
        KeyCode::Char('D') | KeyCode::Char('x') => b == a && cmds == (if h.history_selected
            < h.history@.len() {
            seq![Cmd::DeleteHistoryEntry(h.history@[h.history_selected as int].id)]
        } else {
            Seq::<Cmd>::empty()
        }),
        KeyCode::Char('X') => b == a && cmds == seq![Cmd::ClearHistory],
        _ => b == a && cmds.len() == 0,
    }
}

// ---------------------------------------------------------------------------
// Any key.

/// The index of the last of `len` entries (0 when there are none).
pub open spec fn last_index(len: nat) -> usize {
    if len > 0 {
        (len - 1) as usize
    } else {
        0
    }
}

/// A key press: `g` starts a two-key sequence; a second `g` jumps to the top
/// of the current list and `G` to its bottom; any other key ends a pending
/// sequence; `U` asks for an update check unless one is running or known;
/// otherwise the current screen handles the key.
pub open spec fn key_step<J, C>(
    a: App<J, C>,
    b: App<J, C>,
    key: Key,
    cols: usize,
    now: u64,
    stamp: Seq<char>,
    cmds: Seq<Cmd>,
) -> bool {
    if key.code == KeyCode::Char('g') && a.nav.key_seq is None {
        b == App { nav: Navigation { key_seq: Some(('g', now)), ..a.nav }, ..a } && cmds.len() == 0
    } else {
        let a1 = App { nav: Navigation { key_seq: None, ..a.nav }, ..a };
        if a.nav.key_seq matches Some((first, _)) && first == 'g' && key.code == KeyCode::Char(
            'g',
        ) {
            cmds.len() == 0 && b == (match a.nav.screen {
                Screen::Home => App { home: HomeState { home_selected: 0, ..a1.home }, ..a1 },
                Screen::AnimeDetail => App {
                    detail: DetailState { episode_selected: 0, ..a1.detail },
                    ..a1
                },
                Screen::WatchHistory => App {
                    history: HistoryState { history_selected: 0, ..a1.history },
                    ..a1
                },
                _ => a1,
            })
        } else if key.code == KeyCode::Char('G') && (a.nav.screen == Screen::Home || a.nav.screen
            == Screen::AnimeDetail || a.nav.screen == Screen::WatchHistory) {
            cmds.len() == 0 && b == (match a.nav.screen {
                Screen::Home => App {
                    home: HomeState {
                        home_selected: last_index(a.history.continue_watching@.len()),
                        ..a1.home
                    },
                    ..a1
                },
                Screen::AnimeDetail => App {
                    detail: DetailState {
                        episode_selected: last_index(a.detail.episodes@.len()),
                        ..a1.detail
                    },
                    ..a1
                },
                _ => App {
                    history: HistoryState {
                        history_selected: last_index(a.history.history@.len()),
                        ..a1.history
                    },
                    ..a1
                },
            })
        } else if key.code == KeyCode::Char('U') {
            cmds.len() == 0 && b == (if !a.updates.update_in_progress
                && a.updates.update_available is None {
                App {
                    updates: UpdateState {
                        update_check_in_progress: true,
                        update_check_manual: true,
                        update_requested: false,
                        ..a.updates
                    },
                    ..a1
                }
            } else {
                a1
            })
        } else {
            match a.nav.screen {
                Screen::Home => home_key(a1, b, key, now, cmds),
                Screen::AnimeDetail => detail_key(a1, b, key, cols, stamp, cmds),
                Screen::Search => search_key(a1, b, key, cmds),
                Screen::NowPlaying => playing_key(a1, b, key, now, stamp, cmds),
                Screen::WatchHistory => history_key(a1, b, key, now, cmds),
                _ => b == a1 && cmds.len() == 0,
            }
        }
    }
}

// ---------------------------------------------------------------------------
// Data and control messages.

/// A reply for the current session: loading ends and the data is stored, or
/// the error is shown.
pub open spec fn loaded<J, C, T>(
    a: App<J, C>,
    b: App<J, C>,
    res: Result<T, String>,
    now: u64,
    stored: spec_fn(App<J, C>, T) -> App<J, C>,
    done: App<J, C>,
) -> bool {
    match res {
        Ok(data) => b == stored(done, data),
        Err(e) => toasted(done.status, b.status, e@, true, now) && b == App {
            status: b.status,
            ..done
        },
    }
}

/// What a message does to the state and which commands it issues.
pub open spec fn step<J, C>(
    a: App<J, C>,
    b: App<J, C>,
    msg: Msg<J, C>,
    cols: usize,
    now: u64,
    stamp: Seq<char>,
    cmds: Seq<Cmd>,
) -> bool {
    if is_stale(a, msg) {
        b == a && cmds.len() == 0
    } else {
        match msg {
            Msg::Tick => cmds.len() == 0 && b == App {
                status: StatusState {
                    spinner_tick: if a.status.spinner_tick == usize::MAX {
                        0
                    } else {
                        (a.status.spinner_tick + 1) as usize
                    },
                    ..a.status
                },
                ..a
            },
            Msg::Navigate(screen) => {
                let n1 = Navigation { key_seq: None, ..bumped(a.nav) };
                let sid = n1.current_session_id;
                &&& navigated(n1, b.nav, screen)
                &&& if screen == Screen::Home {
                    &&& b == App {
                        nav: b.nav,
                        home: HomeState { airing_today_loading: true, top_loading: true, ..a.home },
                        ..a
                    }
                    &&& cmds == seq![Cmd::FetchAiringToday(sid), Cmd::FetchTopAiring(sid)]
                } else {
                    b == App { nav: b.nav, ..a } && cmds.len() == 0
                }
            },
            Msg::Back => gone_back(a.nav, b.nav) && b == App { nav: b.nav, ..a } && cmds.len() == 0,
            Msg::Toast(m, is_err) => toasted(a.status, b.status, m@, is_err, now) && b == App {
                status: b.status,
                ..a
            } && cmds.len() == 0,
            Msg::Key(key) => key_step(a, b, key, cols, now, stamp, cmds),
            Msg::PerformSearch(query) => if query_ready(query@) {
                &&& b == App {
                    nav: bumped(a.nav),
                    search: SearchState { search_loading: true, ..a.search },
                    ..a
                }
                &&& cmds == seq![Cmd::SearchAnime(query, b.nav.current_session_id)]
            } else {
                &&& b.search.search_results@.len() == 0
                &&& b == App {
                    search: SearchState { search_results: b.search.search_results, ..a.search },
                    ..a
                }
                &&& cmds.len() == 0
            },
            Msg::SearchLoaded(res, _) => cmds.len() == 0 && loaded(
                a,
                b,
                res,
                now,
                |x: App<J, C>, rs: Vec<AnimeResult>|
                    App {
                        search: SearchState { search_results: rs, search_selected: 0, ..x.search },
                        ..x
                    },
                App { search: SearchState { search_loading: false, ..a.search }, ..a },
            ),
            Msg::HomeAiringLoaded(res, _) => cmds.len() == 0 && loaded(
                a,
                b,
                res,
                now,
                |x: App<J, C>, d: Vec<CatalogEntry<J>>|
                    App { home: HomeState { airing_today: d, ..x.home }, ..x },
                App { home: HomeState { airing_today_loading: false, ..a.home }, ..a },
            ),
            Msg::HomeTopLoaded(res, _) => cmds.len() == 0 && loaded(
                a,
                b,
                res,
                now,
                |x: App<J, C>, d: Vec<CatalogEntry<J>>|
                    App { home: HomeState { top_anime: d, ..x.home }, ..x },
                App { home: HomeState { top_loading: false, ..a.home }, ..a },
            ),
            Msg::EpisodesLoaded(res, _) => {
                let done = App { detail: DetailState { episodes_loading: false, ..a.detail }, ..a };
                &&& cmds.len() == 0
                &&& match res {
                    Ok((eps, id)) => {
                        &&& b.detail.selected_anime == (match done.detail.selected_anime {
                            Some(s) => Some(AnimeResult { id, ..s }),
                            None => None,
                        })
                        &&& b == App {
                            detail: DetailState {
                                episodes: eps,
                                selected_anime: b.detail.selected_anime,
                                target_episode: None,
                                episode_selected: match done.detail.target_episode {
                                    Some(t) => position_or_zero(eps@, t@),
                                    None => done.detail.episode_selected,
                                },
                                ..done.detail
                            },
                            ..done
                        }
                    },
                    Err(e) => toasted(done.status, b.status, e@, true, now) && b == App {
                        status: b.status,
                        ..done
                    },
                }
            },
            Msg::MetadataLoaded(data, sid) => {
                let done = App {
                    detail: DetailState { jikan_anime: data, jikan_loading: false, ..a.detail },
                    ..a
                };
                match data {
                    Some(j) => match best_image(j.images) {
                        Some(url) => {
                            &&& b == App {
                                detail: DetailState { cover_art_loading: true, ..done.detail },
                                ..done
                            }
                            &&& cmds.len() == 1
                            &&& cmds[0] matches Cmd::FetchImage(u, s) && u@ == url && s == sid
                        },
                        None => b == done && cmds.len() == 0,
                    },
                    None => b == done && cmds.len() == 0,
                }
            },
            Msg::ImageLoaded(img, _) => cmds.len() == 0 && b == App {
                detail: DetailState {
                    cover_art_loading: false,
                    cover_art: if a.detail.has_image_picker && img is Some {
                        img
                    } else {
                        a.detail.cover_art
                    },
                    ..a.detail
                },
                ..a
            },
            Msg::StreamReady(data) => {
                &&& cmds == seq![Cmd::ExecutePlayer(data)]
                &&& b.playback == PlaybackState {
                    episode_url: Some(data.url),
                    active_presence_metadata: data.metadata,
                    ..a.playback
                }
                &&& match data.episodes {
                    Some(eps) => {
                        &&& b.detail.episodes@ == eps@
                        &&& b.detail == DetailState {
                            episodes: b.detail.episodes,
                            episode_selected: position_or_zero(eps@, data.entry.episode@),
                            ..a.detail
                        }
                    },
                    None => b.detail == a.detail,
                }
                &&& b == App { playback: b.playback, detail: b.detail, ..a }
            },
            Msg::RecommendationsLoaded(res, _) => cmds.len() == 0 && loaded(
                a,
                b,
                res,
                now,
                |x: App<J, C>, d: Vec<JikanRecommendation>|
                    App {
                        detail: DetailState {
                            recommendations: d,
                            recommendations_selected: 0,
                            ..x.detail
                        },
                        ..x
                    },
                App { detail: DetailState { recommendations_loading: false, ..a.detail }, ..a },
            ),
            Msg::RefreshHistory => b == a && cmds == seq![Cmd::ReloadHistory],
            Msg::Quit => b == App { nav: Navigation { running: false, ..a.nav }, ..a } && cmds.len()
                == 0,
            Msg::ToggleUpdatePopup(v) => b == App {
                updates: UpdateState { update_popup_visible: v, ..a.updates },
                ..a
            } && cmds.len() == 0,
            Msg::TriggerUpdate => b == App {
                updates: UpdateState { update_in_progress: true, ..a.updates },
                ..a
            } && cmds == seq![Cmd::PerformUpdate],
            Msg::UpdateStatus(res) => {
                &&& cmds.len() == 0
                &&& match res {
                    Ok(outcome) => {
                        &&& b.updates == UpdateState {
                            update_in_progress: false,
                            update_available: None,
                            update_popup_visible: false,
                            ..a.updates
                        }
                        &&& if outcome.restart_required {
                            exists|s: StatusState|
                                toasted(a.status, s, outcome.message@, false, now) && toasted(
                                    s,
                                    b.status,
                                    "restart required to finish update"@,
                                    false,
                                    now,
                                )
                        } else {
                            toasted(a.status, b.status, outcome.message@, false, now)
                        }
                        &&& b == App { updates: b.updates, status: b.status, ..a }
                    },
                    Err(e) => {
                        &&& b.updates == UpdateState { update_in_progress: false, ..a.updates }
                        &&& toasted(a.status, b.status, "update failed: "@ + e@, true, now)
                        &&& b == App { updates: b.updates, status: b.status, ..a }
                    },
                }
            },
            Msg::UpdateCheckResult(res) => {
                &&& cmds == seq![Cmd::RecordUpdateCheck]
                &&& b.updates == UpdateState {
                    update_check_in_progress: false,
                    update_requested: false,
                    update_check_manual: false,
                    update_available: match res {
                        Ok(Some(info)) => Some(info),
                        _ => a.updates.update_available,
                    },
                    update_popup_visible: match res {
                        Ok(Some(_)) => true,
                        _ => a.updates.update_popup_visible,
                    },
                    ..a.updates
                }
                &&& match res {
                    Ok(Some(_)) => b.status == a.status,
                    Ok(None) => if a.updates.update_check_manual {
                        toasted(a.status, b.status, "app is up to date"@, false, now)
                    } else {
                        b.status == a.status
                    },
                    Err(e) => toasted(a.status, b.status, "update check failed: "@ + e@, true, now),
                }
                &&& b == App { updates: b.updates, status: b.status, ..a }
            },
            _ => b == a && cmds.len() == 0,
        }
    }
}

// ---------------------------------------------------------------------------
// The handlers.

fn bump_session(nav: &mut Navigation) -> (sid: u64)
    requires
        old(nav).current_session_id < u64::MAX,
    ensures
        *final(nav) == bumped(*old(nav)),
        sid == final(nav).current_session_id,
{
    nav.current_session_id = nav.current_session_id + 1;
    nav.current_session_id
}

fn resuming_message(title: &str, episode: &str) -> (r: String)
    ensures
        r@ == resuming_text(title@, episode@),
{
    let a = join_str("resuming ", title);
    let b = join_str(a.as_str(), " ep ");
    let c = join_str(b.as_str(), episode);
    let r = join_str(c.as_str(), "...");
    assert(r@ =~= resuming_text(title@, episode@));
    r
}

/// The index of the first episode named `target`, or 0.
fn episode_position(eps: &Vec<String>, target: &String) -> (r: usize)
    ensures
        r == position_or_zero(eps@, target@),
{
    let mut i: usize = 0;
    while i < eps.len()
        invariant
            i <= eps@.len(),
            position_from(eps@, target@, 0) == position_from(eps@, target@, i as int),
        decreases eps@.len() - i,
    {
        if eps[i] == *target {
            return i;
        }
        i += 1;
    }
    0
}

fn summary_from_watch(w: &WatchEntry) -> (r: AnimeResult)
    ensures
        summary_of_watch(*w, r),
{
    AnimeResult {
        id: w.anime_id.clone(),
        title: w.title.clone(),
        episode_count: match w.total_episodes {
            Some(n) => n,
            None => 0,
        },
    }
}

fn launch_request(anime: &AnimeResult, episode: &String, stamp: &str) -> (r: Cmd)
    ensures
        r matches Cmd::LaunchPlayer(w) && launch_entry(*anime, episode@, stamp@, w),
{
    Cmd::LaunchPlayer(
        WatchEntry {
            id: 0,
            anime_id: anime.id.clone(),
            title: anime.title.clone(),
            episode: episode.clone(),
            total_episodes: Some(anime.episode_count),
            watched_at: stamp.to_owned(),
        },
    )
}

fn open_detail<J, C>(app: &mut App<J, C>, anime: AnimeResult, reset_cover: bool) -> (sid: u64)
    requires
        old(app).nav.current_session_id < u64::MAX,
    ensures
        opened_detail(*old(app), *final(app), anime, reset_cover),
        sid == final(app).nav.current_session_id,
{
    app.detail.selected_anime = Some(anime);
    let sid = bump_session(&mut app.nav);
    app.nav.navigate(Screen::AnimeDetail);
    app.detail.episodes.clear();
    app.detail.recommendations.clear();
    app.detail.episodes_loading = true;
    app.detail.jikan_loading = true;
    if reset_cover {
        app.detail.cover_art = None;
        app.detail.cover_art_loading = true;
    }
    sid
}

fn resume<J, C>(app: &mut App<J, C>, w: WatchEntry, now_ms: u64) -> (cmds: Vec<Cmd>)
    ensures
        resumed(*old(app), *final(app), w, now_ms, cmds@),
{
    app.detail.selected_anime = Some(summary_from_watch(&w));
    app.detail.target_episode = Some(w.episode.clone());
    let msg = resuming_message(w.title.as_str(), w.episode.as_str());
    app.status.toast(msg, false, now_ms);
    let mut cmds: Vec<Cmd> = Vec::new();
    cmds.push(Cmd::LaunchPlayer(w));
    cmds
}

fn open_listed<J, C>(app: &mut App<J, C>, trending: bool) -> (cmds: Vec<Cmd>)
    requires
        old(app).nav.current_session_id < u64::MAX,
        trending ==> old(app).home.top_selected < old(app).home.top_anime@.len(),
        !trending ==> old(app).home.home_airing_selected < old(app).home.airing_today@.len(),
    ensures
        opened_listed(
            *old(app),
            *final(app),
            if trending {
                old(app).home.top_anime@[old(app).home.top_selected as int]
            } else {
                old(app).home.airing_today@[old(app).home.home_airing_selected as int]
            },
            cmds@,
        ),
{
    let (summary, title) = {
        let e = if trending {
            &app.home.top_anime[app.home.top_selected]
        } else {
            &app.home.airing_today[app.home.home_airing_selected]
        };
        (
            AnimeResult {
                id: decimal_text(e.mal_id as u64),
                title: e.title.clone(),
                episode_count: match e.episodes {
                    Some(n) => n,
                    None => 0,
                },
            },
            e.title.clone(),
        )
    };
    let sid = open_detail(app, summary, true);
    let mut cmds: Vec<Cmd> = Vec::new();
    cmds.push(Cmd::FetchAnimeDetail { provider_id: None, title, session_id: sid });
    cmds
}

/// Handles a key on the home screen.
fn home_update<J, C>(app: &mut App<J, C>, key: Key, now_ms: u64) -> (cmds: Vec<Cmd>)
    requires
        key_starts_request(Screen::Home, key) ==> old(app).nav.current_session_id < u64::MAX,
    ensures
        home_key(*old(app), *final(app), key, now_ms, cmds@),
{
    let mut cmds: Vec<Cmd> = Vec::new();
    match key.code {
        KeyCode::Char('q') => {
            app.nav.running = false;
        },
        KeyCode::Char('s') => {
            bump_session(&mut app.nav);
            app.nav.navigate(Screen::Search);
        },
        KeyCode::Char('w') => {
            bump_session(&mut app.nav);
            app.history.history_selected = 0;
            app.nav.navigate(Screen::WatchHistory);
            cmds.push(Cmd::ReloadHistory);
        },
        KeyCode::Char('d') => {
            app.toggle_mode();
        },
        KeyCode::Tab => {
            app.home.home_focus = match app.home.home_focus {
                HomeFocus::Queue => HomeFocus::Airing,
                HomeFocus::Airing => HomeFocus::Trending,
                HomeFocus::Trending => HomeFocus::Queue,
            };
        },
        KeyCode::BackTab => {
            app.home.home_focus = match app.home.home_focus {
                HomeFocus::Queue => HomeFocus::Trending,
                HomeFocus::Trending => HomeFocus::Airing,
                HomeFocus::Airing => HomeFocus::Queue,
            };
        },
        KeyCode::Up | KeyCode::Char('k') => {
            if app.home.home_focus == HomeFocus::Queue {
                if app.home.home_selected > 0 {
                    app.home.home_selected = app.home.home_selected - 1;
                } else {
                    app.home.home_focus = HomeFocus::Airing;
                }
            } else if app.home.home_focus == HomeFocus::Trending {
                if app.home.top_selected > 0 {
                    app.home.top_selected = app.home.top_selected - 1;
                } else {
                    app.home.home_focus = HomeFocus::Airing;
                }
            }
        },
        KeyCode::Down | KeyCode::Char('j') => {
            if app.home.home_focus == HomeFocus::Queue {
                let n = app.history.continue_watching.len();
                if n > 0 && app.home.home_selected < n - 1 {
                    app.home.home_selected = app.home.home_selected + 1;
                }
            } else if app.home.home_focus == HomeFocus::Trending {
                let len = app.home.top_anime.len();
                let shown = if len < 5 {
                    len
                } else {
                    5
                };
                if shown > 0 && app.home.top_selected < shown - 1 {
                    app.home.top_selected = app.home.top_selected + 1;
                }
            } else {
                app.home.home_focus = HomeFocus::Queue;
            }
        },
        KeyCode::Left | KeyCode::Char('h') => {
            if app.home.home_focus == HomeFocus::Airing {
                if app.home.home_airing_selected > 0 {
                    app.home.home_airing_selected = app.home.home_airing_selected - 1;
                    if app.home.home_airing_selected < app.home.home_airing_offset {
                        app.home.home_airing_offset = app.home.home_airing_selected;
                    }
                }
            } else {
                app.home.home_focus = HomeFocus::Queue;
            }
        },
        KeyCode::Right | KeyCode::Char('l') => {
            if app.home.home_focus == HomeFocus::Airing {
                let n = app.home.airing_today.len();
                if n > 0 && app.home.home_airing_selected < n - 1 {
                    app.home.home_airing_selected = app.home.home_airing_selected + 1;
                    if app.home.home_airing_offset <= usize::MAX - 5
                        && app.home.home_airing_selected >= app.home.home_airing_offset + 5 {
                        app.home.home_airing_offset = app.home.home_airing_offset + 1;
                    }
                }
            } else if app.home.home_focus == HomeFocus::Queue {
                app.home.home_focus = HomeFocus::Trending;
            } else {
                app.home.home_focus = HomeFocus::Airing;
            }
        },
        KeyCode::Enter | KeyCode::Char('p') | KeyCode::Char('r') => {
            match app.home.home_focus {
                HomeFocus::Airing => {
                    if app.home.home_airing_selected < app.home.airing_today.len() {
                        return open_listed(app, false);
                    }
                },
                HomeFocus::Trending => {
                    if app.home.top_selected < app.home.top_anime.len() {
                        return open_listed(app, true);
                    }
                },
                HomeFocus::Queue => {
                    if app.home.home_selected < app.history.continue_watching.len() {
                        let w = app.history.continue_watching[app.home.home_selected].duplicate();
                        return resume(app, w, now_ms);
                    } else {
                        app.status.toast("nothing to resume".to_owned(), false, now_ms);
                    }
                },
            }
        },
        _ => {},
    }
    cmds
}

fn set_search_input(search: &mut SearchState, v: &Vec<char>)
    ensures
        final(search).search_input@ == v@,
        *final(search) == (SearchState { search_input: final(search).search_input, ..*old(search) }),
{
    search.search_input = crate::text::string_of(v.as_slice());
}

/// Sends a query for the current input when it is long enough.
fn after_input_change<J, C>(app: &mut App<J, C>, clear_when_short: bool) -> (cmds: Vec<Cmd>)
    requires
        old(app).nav.current_session_id < u64::MAX,
    ensures
        query_ready(old(app).search.search_input@) ==> {
            &&& final(app).nav == bumped(old(app).nav)
            &&& final(app).search == old(app).search
            &&& cmds@.len() == 1
            &&& cmds@[0] matches Cmd::SearchAnime(q, sid) && q@ == old(app).search.search_input@
                && sid == final(app).nav.current_session_id
        },
        !query_ready(old(app).search.search_input@) ==> {
            &&& final(app).nav == old(app).nav
            &&& if clear_when_short {
                &&& final(app).search.search_results@.len() == 0
                &&& final(app).search == SearchState {
                    search_results: final(app).search.search_results,
                    ..old(app).search
                }
            } else {
                final(app).search == old(app).search
            }
            &&& cmds@.len() == 0
        },
        *final(app) == (App { nav: final(app).nav, search: final(app).search, ..*old(app) }),
{
    let mut cmds: Vec<Cmd> = Vec::new();
    if app.search.search_input.as_str().len() >= 2 {
        let sid = bump_session(&mut app.nav);
        cmds.push(Cmd::SearchAnime(app.search.search_input.clone(), sid));
    } else if clear_when_short {
        app.search.search_results.clear();
    }
    cmds
}

/// Handles a key on the search screen.
fn search_update<J, C>(app: &mut App<J, C>, key: Key) -> (cmds: Vec<Cmd>)
    requires
        key_starts_request(Screen::Search, key) ==> old(app).nav.current_session_id < u64::MAX,
    ensures
        search_key(*old(app), *final(app), key, cmds@),
{
    let n = app.search.search_results.len();
    if key.code == KeyCode::Esc {
        app.nav.go_back();
        Vec::new()
    } else if key.code == KeyCode::Up && app.search.search_selected > 0 {
        app.search.search_selected = app.search.search_selected - 1;
        Vec::new()
    } else if key.code == KeyCode::Down && n > 0 && app.search.search_selected < n - 1 {
        app.search.search_selected = app.search.search_selected + 1;
        Vec::new()
    } else if key.code == KeyCode::Backspace {
        let mut v = crate::text::chars_of(app.search.search_input.as_str());
        v.pop();
        set_search_input(&mut app.search, &v);
        after_input_change(app, true)
    } else if key.code == KeyCode::Enter {
        if app.search.search_selected < n {
            let r = app.search.search_results[app.search.search_selected].duplicate();
            let provider_id = r.id.clone();
            let title = r.title.clone();
            let sid = open_detail(app, r, false);
            let mut cmds: Vec<Cmd> = Vec::new();
            cmds.push(
                Cmd::FetchAnimeDetail { provider_id: Some(provider_id), title, session_id: sid },
            );
            cmds
        } else {
            Vec::new()
        }
    } else {
        match key.code {
            KeyCode::Char(c) => {
                if !key.ctrl {
                    let mut v = crate::text::chars_of(app.search.search_input.as_str());
                    v.push(c);
                    set_search_input(&mut app.search, &v);
                    after_input_change(app, false)
                } else {
                    Vec::new()
                }
            },
            _ => Vec::new(),
        }
    }
}

/// Handles a key on the detail screen laid out in `cols` columns.
#[verifier::rlimit(50)]
fn detail_update<J, C>(app: &mut App<J, C>, key: Key, cols: usize, stamp: &str) -> (cmds: Vec<Cmd>)
    requires
        key_starts_request(Screen::AnimeDetail, key) ==> old(app).nav.current_session_id
            < u64::MAX,
    ensures
        detail_key(*old(app), *final(app), key, cols, stamp@, cmds@),
{
    let n = app.detail.episodes.len();
    let show = app.detail.show_recommendations;
    let mut cmds: Vec<Cmd> = Vec::new();
    if (key.code == KeyCode::Left || key.code == KeyCode::Char('h')) && !show
        && app.detail.episode_selected > 0 {
        app.detail.episode_selected = app.detail.episode_selected - 1;
        return cmds;
    }
    if (key.code == KeyCode::Right || key.code == KeyCode::Char('l')) && !show && n > 0
        && app.detail.episode_selected < n - 1 {
        app.detail.episode_selected = app.detail.episode_selected + 1;
        return cmds;
    }
    match key.code {
        KeyCode::Esc => {
            app.nav.go_back();
        },
        KeyCode::Up | KeyCode::Char('k') => {
            if show {
                if app.detail.recommendations_selected > 0 {
                    app.detail.recommendations_selected = app.detail.recommendations_selected - 1;
                }
            } else if app.detail.episode_selected >= cols {
                app.detail.episode_selected = app.detail.episode_selected - cols;
            }
        },
        KeyCode::Down | KeyCode::Char('j') => {
            if show {
                let r = app.detail.recommendations.len();
                if r > 0 && app.detail.recommendations_selected < r - 1 {
                    app.detail.recommendations_selected = app.detail.recommendations_selected + 1;
                }
            } else if app.detail.episode_selected < n && cols < n - app.detail.episode_selected {
                app.detail.episode_selected = app.detail.episode_selected + cols;
            }
        },
        KeyCode::Char('K') => {
            app.detail.synopsis_scroll = app.detail.synopsis_scroll.saturating_sub(1);
        },
        KeyCode::Char('J') => {
            app.detail.synopsis_scroll = app.detail.synopsis_scroll.saturating_add(1);
        },
        KeyCode::Char('d') => {
            app.toggle_mode();
            match &app.detail.selected_anime {
                Some(anime) => {
                    let provider_id = anime.id.clone();
                    let title = anime.title.clone();
                    app.detail.episodes_loading = true;
                    cmds.push(
                        Cmd::FetchAnimeDetail {
                            provider_id: Some(provider_id),
                            title,
                            session_id: app.nav.current_session_id,
                        },
                    );
                },
                None => {},
            }
        },
        KeyCode::Char('r') => {
            app.detail.show_recommendations = !app.detail.show_recommendations;
            if app.detail.show_recommendations && app.detail.recommendations.len() == 0 {
                match &app.detail.jikan_anime {
                    Some(j) => {
                        let id = j.mal_id;
                        app.detail.recommendations_loading = true;
                        cmds.push(Cmd::FetchRecommendations(id, app.nav.current_session_id));
                    },
                    None => {},
                }
            }
        },
        KeyCode::Enter | KeyCode::Char('p') => {
            if show {
                if app.detail.recommendations_selected < app.detail.recommendations.len() {
                    let title = match &app.detail.recommendations[app.detail.recommendations_selected].entry.title {
                        Some(t) => t.clone(),
                        None => String::new(),
                    };
                    app.detail.loading = true;
                    let sid = bump_session(&mut app.nav);
                    cmds.push(Cmd::FetchAnimeDetail { provider_id: None, title, session_id: sid });
                }
            } else {
                match &app.detail.selected_anime {
                    Some(anime) => {
                        if app.detail.episode_selected < n {
                            let c = launch_request(
                                anime,
                                &app.detail.episodes[app.detail.episode_selected],
                                stamp,
                            );
                            cmds.push(c);
                        }
                    },
                    None => {},
                }
            }
        },
        _ => {},
    }
    cmds
}

/// Closes the active watch session and presence, returning the commands that
/// do it.
pub fn stop_active_watch_session<J, C>(app: &mut App<J, C>) -> (cmds: Vec<Cmd>)
    ensures
        session_stopped(*old(app), *final(app), cmds@),
{
    let mut cmds: Vec<Cmd> = Vec::new();
    match app.playback.active_watch_session_id {
        Some(id) => {
            app.playback.active_watch_session_id = None;
            cmds.push(Cmd::StopWatchSession(id));
            cmds.push(Cmd::ReloadHistory);
        },
        None => {},
    }
    let ghost first = cmds@;
    assert(first =~= match old(app).playback.active_watch_session_id {
        Some(id) => seq![Cmd::StopWatchSession(id), Cmd::ReloadHistory],
        None => Seq::<Cmd>::empty(),
    });
    match app.playback.active_presence_token {
        Some(t) => {
            app.playback.active_presence_token = None;
            if app.playback.presence_enabled {
                cmds.push(Cmd::StopPresence(t));
            }
        },
        None => {},
    }
    assert(cmds@ =~= first + match old(app).playback.active_presence_token {
        Some(t) => if old(app).playback.presence_enabled {
            seq![Cmd::StopPresence(t)]
        } else {
            Seq::<Cmd>::empty()
        },
        None => Seq::<Cmd>::empty(),
    });
    cmds
}

fn play_selected<J, C>(app: &App<J, C>, stamp: &str) -> (cmds: Vec<Cmd>)
    requires
        app.detail.selected_anime is Some ==> app.detail.episode_selected
            < app.detail.episodes@.len(),
    ensures
        plays_selected(*app, stamp@, cmds@),
{
    let mut cmds: Vec<Cmd> = Vec::new();
    match &app.detail.selected_anime {
        Some(anime) => {
            let c = launch_request(anime, &app.detail.episodes[app.detail.episode_selected], stamp);
            cmds.push(c);
        },
        None => {},
    }
    cmds
}

/// Handles a key on the now-playing screen.
fn playing_update<J, C>(app: &mut App<J, C>, key: Key, now_ms: u64, stamp: &str) -> (cmds: Vec<
    Cmd,
>)
    requires
        !playing_out_of_range(App { nav: Navigation { screen: Screen::NowPlaying, ..old(app).nav }, ..*old(app) }, key),
    ensures
        playing_key(*old(app), *final(app), key, now_ms, stamp@, cmds@),
{
    match key.code {
        KeyCode::Esc | KeyCode::Char('q') => {
            let cmds = stop_active_watch_session(app);
            app.nav.go_back();
            cmds
        },
        KeyCode::Char('n') | KeyCode::Char('l') => {
            if app.next_episode() {
                play_selected(app, stamp)
            } else {
                app.status.toast("no more episodes".to_owned(), false, now_ms);
                Vec::new()
            }
        },
        KeyCode::Char('p') | KeyCode::Char('h') => {
            if app.previous_episode() {
                play_selected(app, stamp)
            } else {
                app.status.toast("first episode".to_owned(), false, now_ms);
                Vec::new()
            }
        },
        KeyCode::Char('r') => play_selected(app, stamp),
        KeyCode::Char('s') => {
            app.nav.navigate(Screen::AnimeDetail);
            Vec::new()
        },
        _ => Vec::new(),
    }
}

/// Handles a key on the history screen.
fn history_update<J, C>(app: &mut App<J, C>, key: Key, now_ms: u64) -> (cmds: Vec<Cmd>)
    ensures
        history_key(*old(app), *final(app), key, now_ms, cmds@),
{
    let mut cmds: Vec<Cmd> = Vec::new();
    match key.code {
        KeyCode::Esc => {
            app.nav.go_back();
        },
        KeyCode::Up | KeyCode::Char('k') => {
            if app.history.history_selected > 0 {
                app.history.history_selected = app.history.history_selected - 1;
            }
        },
        KeyCode::Down | KeyCode::Char('j') => {
            let n = app.history.history.len();
            if n > 0 && app.history.history_selected < n - 1 {
                app.history.history_selected = app.history.history_selected + 1;
            }
        },
        KeyCode::Enter | KeyCode::Char('p') => {
            if app.history.history_selected < app.history.history.len() {
                let w = app.history.history[app.history.history_selected].duplicate();
                return resume(app, w, now_ms);
            }
        },
        KeyCode::Char('D') | KeyCode::Char('x') => {
            if app.history.history_selected < app.history.history.len() {
                cmds.push(Cmd::DeleteHistoryEntry(app.history.history[app.history.history_selected].id));
            }
        },
        KeyCode::Char('X') => {
            cmds.push(Cmd::ClearHistory);
        },
        _ => {},
    }
    cmds
}

/// Handles a key press (see `key_step`).
fn key_update<J, C>(app: &mut App<J, C>, key: Key, cols: usize, now_ms: u64, stamp: &str) -> (cmds:
    Vec<Cmd>)
    requires
        key_starts_request(old(app).nav.screen, key) ==> old(app).nav.current_session_id
            < u64::MAX,
        !playing_out_of_range(*old(app), key),
    ensures
        key_step(*old(app), *final(app), key, cols, now_ms, stamp@, cmds@),
{
    if key.code == KeyCode::Char('g') && app.nav.key_seq.is_none() {
        app.nav.key_seq = Some(('g', now_ms));
        return Vec::new();
    }
    let pending = app.nav.key_seq;
    app.nav.key_seq = None;
    match pending {
        Some((first, _)) => {
            if first == 'g' && key.code == KeyCode::Char('g') {
                match app.nav.screen {
                    Screen::Home => {
                        app.home.home_selected = 0;
                    },
                    Screen::AnimeDetail => {
                        app.detail.episode_selected = 0;
                    },
                    Screen::WatchHistory => {
                        app.history.history_selected = 0;
                    },
                    _ => {},
                }
                return Vec::new();
            }
        },
        None => {},
    }
    if key.code == KeyCode::Char('G') {
        match app.nav.screen {
            Screen::Home => {
                let n = app.history.continue_watching.len();
                app.home.home_selected = if n > 0 {
                    n - 1
                } else {
                    0
                };
                return Vec::new();
            },
            Screen::AnimeDetail => {
                let n = app.detail.episodes.len();
                app.detail.episode_selected = if n > 0 {
                    n - 1
                } else {
                    0
                };
                return Vec::new();
            },
            Screen::WatchHistory => {
                let n = app.history.history.len();
                app.history.history_selected = if n > 0 {
                    n - 1
                } else {
                    0
                };
                return Vec::new();
            },
            _ => {},
        }
    }
    if key.code == KeyCode::Char('U') {
        if !app.updates.update_in_progress && app.updates.update_available.is_none() {
            app.updates.update_check_in_progress = true;
            app.updates.update_check_manual = true;
            app.updates.update_requested = false;
        }
        return Vec::new();
    }
    match app.nav.screen {
        Screen::Home => home_update(app, key, now_ms),
        Screen::AnimeDetail => detail_update(app, key, cols, stamp),
        Screen::Search => search_update(app, key),
        Screen::NowPlaying => playing_update(app, key, now_ms, stamp),
        Screen::WatchHistory => history_update(app, key, now_ms),
        _ => Vec::new(),
    }
}

fn take_string(o: &mut Option<String>) -> (r: Option<String>)
    ensures
        r == *old(o),
        *final(o) is None,
{
    let mut out: Option<String> = None;
    std::mem::swap(&mut out, o);
    out
}

fn copy_episodes(v: &Vec<String>) -> (r: Vec<String>)
    ensures
        r@ == v@,
{
    let mut out: Vec<String> = Vec::new();
    let mut i: usize = 0;
    while i < v.len()
        invariant
            i <= v@.len(),
            out@ == v@.take(i as int),
        decreases v@.len() - i,
    {
        out.push(v[i].clone());
        i += 1;
        assert(out@ =~= v@.take(i as int));
    }
    assert(v@.take(v@.len() as int) =~= v@);
    out
}

/// The handler family of a message.
#[derive(PartialEq, Eq, Structural, Clone, Copy)]
enum MsgKind {
    Key,
    Control,
    ListReply,
    DetailReply,
    UpdateReply,
}

spec fn msg_kind<J, C>(msg: Msg<J, C>) -> MsgKind {
    match msg {
        Msg::Key(_) => MsgKind::Key,
        Msg::SearchLoaded(..) | Msg::HomeAiringLoaded(..) | Msg::HomeTopLoaded(..)
        | Msg::RecommendationsLoaded(..) => MsgKind::ListReply,
        Msg::EpisodesLoaded(..) | Msg::MetadataLoaded(..) | Msg::ImageLoaded(..)
        | Msg::StreamReady(..) => MsgKind::DetailReply,
        Msg::UpdateStatus(..) | Msg::UpdateCheckResult(..) => MsgKind::UpdateReply,
        _ => MsgKind::Control,
    }
}

fn kind_of<J, C>(msg: &Msg<J, C>) -> (r: MsgKind)
    ensures
        r == msg_kind(*msg),
{
    match msg {
        Msg::Key(_) => MsgKind::Key,
        Msg::SearchLoaded(..) | Msg::HomeAiringLoaded(..) | Msg::HomeTopLoaded(..)
        | Msg::RecommendationsLoaded(..) => MsgKind::ListReply,
        Msg::EpisodesLoaded(..) | Msg::MetadataLoaded(..) | Msg::ImageLoaded(..)
        | Msg::StreamReady(..) => MsgKind::DetailReply,
        Msg::UpdateStatus(..) | Msg::UpdateCheckResult(..) => MsgKind::UpdateReply,
        _ => MsgKind::Control,
    }
}

fn control_update<J, C>(app: &mut App<J, C>, msg: Msg<J, C>, now_ms: u64) -> (cmds: Vec<Cmd>)
    requires
        (msg is Navigate || msg is PerformSearch) ==> old(app).nav.current_session_id < u64::MAX,
        msg_kind(msg) == MsgKind::Control,
    ensures
        step(*old(app), *final(app), msg, 0, now_ms, Seq::empty(), cmds@),
{
    let cur = app.nav.current_session_id;
    let mut cmds: Vec<Cmd> = Vec::new();
    match msg {
        Msg::Tick => {
            app.status.spinner_tick = app.status.spinner_tick.wrapping_add(1);
        },
        Msg::Navigate(screen) => {
            let sid = bump_session(&mut app.nav);
            app.nav.key_seq = None;
            app.nav.navigate(screen);
            if screen == Screen::Home {
                app.home.airing_today_loading = true;
                app.home.top_loading = true;
                cmds.push(Cmd::FetchAiringToday(sid));
                cmds.push(Cmd::FetchTopAiring(sid));
                assert(cmds@ =~= seq![Cmd::FetchAiringToday(sid), Cmd::FetchTopAiring(sid)]);
            }
        },
        Msg::Back => {
            app.nav.go_back();
        },
        Msg::Toast(m, is_err) => {
            app.status.toast(m, is_err, now_ms);
        },
        Msg::PerformSearch(query) => {
            if query.as_str().len() >= 2 {
                let sid = bump_session(&mut app.nav);
                app.search.search_loading = true;
                cmds.push(Cmd::SearchAnime(query, sid));
            } else {
                app.search.search_results.clear();
            }
        },
        Msg::RefreshHistory => {
            cmds.push(Cmd::ReloadHistory);
        },
        Msg::Quit => {
            app.nav.running = false;
        },
        Msg::ToggleUpdatePopup(v) => {
            app.updates.update_popup_visible = v;
        },
        Msg::TriggerUpdate => {
            app.updates.update_in_progress = true;
            cmds.push(Cmd::PerformUpdate);
        },
        _ => {},
    }
    cmds
}

fn list_reply_update<J, C>(app: &mut App<J, C>, msg: Msg<J, C>, now_ms: u64) -> (cmds: Vec<Cmd>)
    requires
        msg_kind(msg) == MsgKind::ListReply,
    ensures
        step(*old(app), *final(app), msg, 0, now_ms, Seq::empty(), cmds@),
{
    let cur = app.nav.current_session_id;
    let mut cmds: Vec<Cmd> = Vec::new();
    match msg {
        Msg::SearchLoaded(res, sid) => {
            if sid == cur {
                app.search.search_loading = false;
                match res {
                    Ok(results) => {
                        app.search.search_results = results;
                        app.search.search_selected = 0;
                    },
                    Err(e) => app.status.toast(e, true, now_ms),
                }
            }
        },
        Msg::HomeAiringLoaded(res, sid) => {
            if sid == cur {
                app.home.airing_today_loading = false;
                match res {
                    Ok(data) => {
                        app.home.airing_today = data;
                    },
                    Err(e) => app.status.toast(e, true, now_ms),
                }
            }
        },
        Msg::HomeTopLoaded(res, sid) => {
            if sid == cur {
                app.home.top_loading = false;
                match res {
                    Ok(data) => {
                        app.home.top_anime = data;
                    },
                    Err(e) => app.status.toast(e, true, now_ms),
                }
            }
        },
        Msg::RecommendationsLoaded(res, sid) => {
            if sid == cur {
                app.detail.recommendations_loading = false;
                match res {
                    Ok(data) => {
                        app.detail.recommendations = data;
                        app.detail.recommendations_selected = 0;
                    },
                    Err(e) => app.status.toast(e, true, now_ms),
                }
            }
        },
        _ => {},
    }
    cmds
}

fn detail_reply_update<J, C>(app: &mut App<J, C>, msg: Msg<J, C>, now_ms: u64) -> (cmds: Vec<Cmd>)
    requires
        msg_kind(msg) == MsgKind::DetailReply,
    ensures
        step(*old(app), *final(app), msg, 0, now_ms, Seq::empty(), cmds@),
{
    let cur = app.nav.current_session_id;
    let mut cmds: Vec<Cmd> = Vec::new();
    match msg {
        Msg::EpisodesLoaded(res, sid) => {
            if sid == cur {
                app.detail.episodes_loading = false;
                match res {
                    Ok((eps, id)) => {
                        app.detail.episodes = eps;
                        let mut sel: Option<AnimeResult> = None;
                        std::mem::swap(&mut sel, &mut app.detail.selected_anime);
                        app.detail.selected_anime = match sel {
                            Some(s) => Some(
                                AnimeResult { id, title: s.title, episode_count: s.episode_count },
                            ),
                            None => None,
                        };
                        let target = take_string(&mut app.detail.target_episode);
                        match target {
                            Some(t) => {
                                app.detail.episode_selected = episode_position(
                                    &app.detail.episodes,
                                    &t,
                                );
                            },
                            None => {},
                        }
                    },
                    Err(e) => app.status.toast(e, true, now_ms),
                }
            }
        },
        Msg::MetadataLoaded(data, sid) => {
            if sid == cur {
                app.detail.jikan_anime = data;
                app.detail.jikan_loading = false;
                let url = match &app.detail.jikan_anime {
                    Some(j) => match j.images.best_url() {
                        Some(u) => Some(u.to_owned()),
                        None => None,
                    },
                    None => None,
                };
                match url {
                    Some(u) => {
                        app.detail.cover_art_loading = true;
                        cmds.push(Cmd::FetchImage(u, sid));
                    },
                    None => {},
                }
            }
        },
        Msg::ImageLoaded(img, sid) => {
            if sid == cur {
                app.detail.cover_art_loading = false;
                if app.detail.has_image_picker && img.is_some() {
                    app.detail.cover_art = img;
                }
            }
        },
        Msg::StreamReady(data) => {
            match &data.episodes {
                Some(eps) => {
                    app.detail.episodes = copy_episodes(eps);
                    app.detail.episode_selected = episode_position(
                        &app.detail.episodes,
                        &data.entry.episode,
                    );
                },
                None => {},
            }
            app.playback.episode_url = Some(data.url.duplicate());
            app.playback.active_presence_metadata = match &data.metadata {
                Some(m) => Some(m.duplicate()),
                None => None,
            };
            cmds.push(Cmd::ExecutePlayer(data));
        },
        _ => {},
    }
    cmds
}

fn update_reply_update<J, C>(app: &mut App<J, C>, msg: Msg<J, C>, now_ms: u64) -> (cmds: Vec<Cmd>)
    requires
        msg_kind(msg) == MsgKind::UpdateReply,
    ensures
        step(*old(app), *final(app), msg, 0, now_ms, Seq::empty(), cmds@),
{
    let cur = app.nav.current_session_id;
    let mut cmds: Vec<Cmd> = Vec::new();
    match msg {
        Msg::UpdateStatus(res) => {
            app.updates.update_in_progress = false;
            match res {
                Ok(outcome) => {
                    let restart = outcome.restart_required;
                    app.status.toast(outcome.message, false, now_ms);
                    let ghost mid = app.status;
                    if restart {
                        app.status.toast(
                            "restart required to finish update".to_owned(),
                            false,
                            now_ms,
                        );
                    }
                    app.updates.update_available = None;
                    app.updates.update_popup_visible = false;
                    proof {
                        if restart {
                            assert(toasted(old(app).status, mid, outcome.message@, false, now_ms));
                        }
                    }
                },
                Err(e) => {
                    let m = join_str("update failed: ", e.as_str());
                    app.status.toast(m, true, now_ms);
                },
            }
        },
        Msg::UpdateCheckResult(res) => {
            app.updates.update_check_in_progress = false;
            app.updates.update_requested = false;
            match res {
                Ok(Some(info)) => {
                    app.updates.update_available = Some(info);
                    app.updates.update_popup_visible = true;
                },
                Ok(None) => {
                    if app.updates.update_check_manual {
                        app.status.toast("app is up to date".to_owned(), false, now_ms);
                    }
                },
                Err(e) => {
                    let m = join_str("update check failed: ", e.as_str());
                    app.status.toast(m, true, now_ms);
                },
            }
            app.updates.update_check_manual = false;
            cmds.push(Cmd::RecordUpdateCheck);
        },
        _ => {},
    }
    cmds
}

fn key_may_start_request(screen: Screen, key: Key) -> (r: bool)
    ensures
        r == key_starts_request(screen, key),
{
    match screen {
        Screen::Home => key.code == KeyCode::Char('s') || key.code == KeyCode::Char('w')
            || key.code == KeyCode::Enter || key.code == KeyCode::Char('p') || key.code
            == KeyCode::Char('r'),
        Screen::Search => !(key.code == KeyCode::Esc || key.code == KeyCode::Up || key.code
            == KeyCode::Down),
        Screen::AnimeDetail => key.code == KeyCode::Enter || key.code == KeyCode::Char('p'),
        _ => false,
    }
}

/// Whether `update` may be applied to this state and message (see
/// `update_allowed`); a host tests it before each call.
pub fn can_update<J, C>(app: &App<J, C>, msg: &Msg<J, C>) -> (r: bool)
    ensures
        r == update_allowed(*app, *msg),
{
    let starts = match msg {
        Msg::Navigate(_) => true,
        Msg::PerformSearch(_) => true,
        Msg::Key(k) => key_may_start_request(app.nav.screen, *k),
        _ => false,
    };
    if starts && app.nav.current_session_id == u64::MAX {
        return false;
    }
    match msg {
        Msg::Key(k) => {
            let n = app.detail.episodes.len();
            let i = app.detail.episode_selected;
            let out = app.nav.screen == Screen::NowPlaying && app.detail.selected_anime.is_some()
                && (k.code == KeyCode::Char('r') && i >= n || (k.code == KeyCode::Char('p')
                || k.code == KeyCode::Char('h')) && i > n);
            !out
        },
        _ => true,
    }
}

/// Applies one message to the state and returns the background work it
/// asks for. `now_ms` is the current time in milliseconds and `stamp` its
/// RFC 3339 text (for history rows made here). `can_update` tells whether
/// the message may be applied.
pub fn update<J, C>(app: &mut App<J, C>, msg: Msg<J, C>, cols: usize, now_ms: u64, stamp: &str) -> (cmds: Vec<Cmd>)
    requires
        update_allowed(*old(app), msg),
    ensures
        step(*old(app), *final(app), msg, cols, now_ms, stamp@, cmds@),
{
    match kind_of(&msg) {
        MsgKind::Key => match msg {
            Msg::Key(key) => key_update(app, key, cols, now_ms, stamp),
            _ => Vec::new(),
        },
        MsgKind::Control => control_update(app, msg, now_ms),
        MsgKind::ListReply => list_reply_update(app, msg, now_ms),
        MsgKind::DetailReply => detail_reply_update(app, msg, now_ms),
        MsgKind::UpdateReply => update_reply_update(app, msg, now_ms),
    }
}

// ---------------------------------------------------------------------------
// Keys that work on every screen.

/// Whether `m` is a toast with this text, not marked as an error.
pub open spec fn is_info_toast<J, C>(m: Msg<J, C>, text: Seq<char>) -> bool {
    m matches Msg::Toast(t, e) && t@ == text && !e
}

/// The messages a key produces before the current screen sees it: Ctrl-C
/// quits; after `g`, `h` goes home, `s` opens search, `p` the now-playing
/// screen, `w` reloads and opens the history, and `g` passes on; `U` reports on or starts an update; Esc closes the update
/// popup; `?`, `/` and `Q` open help, open search and quit. No message means
/// the key goes to the screen.
pub open spec fn global_msgs<J, C>(a: App<J, C>, key: Key, r: Seq<Msg<J, C>>) -> bool {
    let after_g = a.nav.key_seq matches Some((first, _)) && first == 'g';
    if key.code == KeyCode::Char('c') && key.ctrl {
        r == seq![Msg::<J, C>::Quit]
    } else if after_g && key.code == KeyCode::Char('h') {
        r == seq![Msg::<J, C>::Navigate(Screen::Home)]
    } else if after_g && key.code == KeyCode::Char('w') {
        r == seq![Msg::<J, C>::RefreshHistory, Msg::<J, C>::Navigate(Screen::WatchHistory)]
    } else if after_g && key.code == KeyCode::Char('s') {
        r == seq![Msg::<J, C>::Navigate(Screen::Search)]
    } else if after_g && key.code == KeyCode::Char('p') {
        r == seq![Msg::<J, C>::Navigate(Screen::NowPlaying)]
    } else if key.code == KeyCode::Char('g') {
        r == seq![Msg::<J, C>::Key(key)]
    } else if key.code == KeyCode::Char('U') {
        if a.updates.update_in_progress {
            r.len() == 1 && is_info_toast(r[0], "update already running"@)
        } else if a.updates.update_available is Some {
            r.len() == 2 && is_info_toast(r[0], "updating..."@) && r[1] is TriggerUpdate
        } else {
            r.len() == 1 && is_info_toast(r[0], "checking for updates..."@)
        }
    } else if key.code == KeyCode::Esc && a.updates.update_popup_visible {
        r == seq![Msg::<J, C>::ToggleUpdatePopup(false)]
    } else if key.code == KeyCode::Char('?') {
        r == seq![Msg::<J, C>::Navigate(Screen::Help)]
    } else if key.code == KeyCode::Char('Q') {
        r == seq![Msg::<J, C>::Quit]
    } else if key.code == KeyCode::Char('/') {
        r == seq![Msg::<J, C>::Navigate(Screen::Search)]
    } else {
        r.len() == 0
    }
}

/// The messages for a key that every screen shares (see `global_msgs`); an
/// empty list means the key is for the current screen.
pub fn handle_global<J, C>(app: &App<J, C>, key: Key) -> (r: Vec<Msg<J, C>>)
    ensures
        global_msgs(*app, key, r@),
{
    let mut r: Vec<Msg<J, C>> = Vec::new();
    let after_g = match app.nav.key_seq {
        Some((first, _)) => first == 'g',
        None => false,
    };
    if key.code == KeyCode::Char('c') && key.ctrl {
        r.push(Msg::Quit);
    } else if after_g && key.code == KeyCode::Char('h') {
        r.push(Msg::Navigate(Screen::Home));
    } else if after_g && key.code == KeyCode::Char('w') {
        r.push(Msg::RefreshHistory);
        r.push(Msg::Navigate(Screen::WatchHistory));
        assert(r@ =~= seq![Msg::<J, C>::RefreshHistory, Msg::<J, C>::Navigate(Screen::WatchHistory)]);
    } else if after_g && key.code == KeyCode::Char('s') {
        r.push(Msg::Navigate(Screen::Search));
    } else if after_g && key.code == KeyCode::Char('p') {
        r.push(Msg::Navigate(Screen::NowPlaying));
    } else if key.code == KeyCode::Char('g') {
        r.push(Msg::Key(key));
    } else if key.code == KeyCode::Char('U') {
        if app.updates.update_in_progress {
            r.push(Msg::Toast("update already running".to_owned(), false));
        } else if app.updates.update_available.is_some() {
            r.push(Msg::Toast("updating...".to_owned(), false));
            r.push(Msg::TriggerUpdate);
        } else {
            r.push(Msg::Toast("checking for updates...".to_owned(), false));
        }
    } else if key.code == KeyCode::Esc && app.updates.update_popup_visible {
        r.push(Msg::ToggleUpdatePopup(false));
    } else if key.code == KeyCode::Char('?') {
        r.push(Msg::Navigate(Screen::Help));
    } else if key.code == KeyCode::Char('Q') {
        r.push(Msg::Quit);
    } else if key.code == KeyCode::Char('/') {
        r.push(Msg::Navigate(Screen::Search));
    }
    r
}

/// The lower-case English name of a weekday, counted from Monday as 0.
pub open spec fn weekday(index: u32) -> Seq<char> {
    if index == 0 {
        "monday"@
    } else if index == 1 {
        "tuesday"@
    } else if index == 2 {
        "wednesday"@
    } else if index == 3 {
        "thursday"@
    } else if index == 4 {
        "friday"@
    } else if index == 5 {
        "saturday"@
    } else {
        "sunday"@
    }
}

/// The schedule day for a weekday counted from Monday (0) to Sunday (6).
pub fn today_day_name(days_from_monday: u32) -> (r: &'static str)
    requires
        days_from_monday < 7,
    ensures
        r@ == weekday(days_from_monday),
{
    if days_from_monday == 0 {
        "monday"
    } else if days_from_monday == 1 {
        "tuesday"
    } else if days_from_monday == 2 {
        "wednesday"
    } else if days_from_monday == 3 {
        "thursday"
    } else if days_from_monday == 4 {
        "friday"
    } else if days_from_monday == 5 {
        "saturday"
    } else {
        "sunday"
    }
}

// ---------------------------------------------------------------------------
// Laws of the state machine.

/// A reply tagged with an old session id changes nothing and asks for
/// nothing.
pub proof fn lemma_stale_reply_ignored<J, C>(
    a: App<J, C>,
    b: App<J, C>,
    msg: Msg<J, C>,
    cols: usize,
    now: u64,
    stamp: Seq<char>,
    cmds: Seq<Cmd>,
)
    requires
        is_stale(a, msg),
        step(a, b, msg, cols, now, stamp, cmds),
    ensures
        b == a,
        cmds.len() == 0,
{
}

/// Opening a screen and then going back returns to the screen the client was
/// on, with the same navigation stack.
pub proof fn lemma_navigate_then_back<J, C>(
    a: App<J, C>,
    b: App<J, C>,
    c: App<J, C>,
    screen: Screen,
    now: u64,
    stamp: Seq<char>,
    cmds1: Seq<Cmd>,
    cmds2: Seq<Cmd>,
)
    requires
        a.nav.screen != screen,
        step(a, b, Msg::Navigate(screen), 0, now, stamp, cmds1),
        step(b, c, Msg::Back, 0, now, stamp, cmds2),
    ensures
        c.nav.screen == a.nav.screen,
        c.nav.screen_stack@ == a.nav.screen_stack@,
{
    assert(b.nav.screen_stack@.drop_last() =~= a.nav.screen_stack@);
}

/// The session id never decreases: a reply tagged with an id once current
/// can only go stale, never become current again.
pub proof fn lemma_session_monotone<J, C>(
    a: App<J, C>,
    b: App<J, C>,
    msg: Msg<J, C>,
    cols: usize,
    now: u64,
    stamp: Seq<char>,
    cmds: Seq<Cmd>,
)
    requires
        starts_request(a, msg) ==> a.nav.current_session_id < u64::MAX,
        step(a, b, msg, cols, now, stamp, cmds),
    ensures
        b.nav.current_session_id >= a.nav.current_session_id,
{
}

/// The grid keys of the detail screen (`h`, `l`, `k`, `j`: one episode left
/// or right, one row of `cols` up or down) move the cursor only where the
/// target exists, ask for nothing, and keep the cursor inside the episode
/// list (or at 0 when it is empty).
pub proof fn lemma_detail_grid_moves<J, C>(
    a: App<J, C>,
    b: App<J, C>,
    c: char,
    cols: usize,
    now: u64,
    stamp: Seq<char>,
    cmds: Seq<Cmd>,
)
    requires
        a.nav.screen == Screen::AnimeDetail,
        !a.detail.show_recommendations,
        a.nav.key_seq is None,
        cols >= 1,
        c == 'h' || c == 'j' || c == 'k' || c == 'l',
        a.detail.episodes@.len() <= usize::MAX,
        a.detail.episode_selected < a.detail.episodes@.len() || a.detail.episode_selected == 0,
        step(a, b, Msg::Key(Key { code: KeyCode::Char(c), ctrl: false }), cols, now, stamp, cmds),
    ensures
        cmds.len() == 0,
        b == (App { detail: DetailState { episode_selected: b.detail.episode_selected, ..a.detail }, ..a }),
        ({
            let i = a.detail.episode_selected as int;
            let n = a.detail.episodes@.len() as int;
            b.detail.episode_selected == if c == 'l' && i + 1 < n {
                i + 1
            } else if c == 'h' && i > 0 {
                i - 1
            } else if c == 'j' && i + cols < n {
                i + cols
            } else if c == 'k' && i >= cols {
                i - cols
            } else {
                i
            }
        }),
        b.detail.episode_selected < a.detail.episodes@.len() || b.detail.episode_selected == 0,
{
    let key = Key { code: KeyCode::Char(c), ctrl: false };
    assert(!is_stale(a, Msg::Key(key)));
    assert(key_step(a, b, key, cols, now, stamp, cmds));
    assert(App { nav: Navigation { key_seq: None, ..a.nav }, ..a } == a);
    assert(detail_key(a, b, key, cols, stamp, cmds));
}

/// Every message leaves at most six toasts when there were at most six.
pub proof fn lemma_toasts_stay_capped<J, C>(
    a: App<J, C>,
    b: App<J, C>,
    msg: Msg<J, C>,
    cols: usize,
    now: u64,
    stamp: Seq<char>,
    cmds: Seq<Cmd>,
)
    requires
        a.status.toasts@.len() <= crate::app::MAX_TOASTS,
        step(a, b, msg, cols, now, stamp, cmds),
    ensures
        b.status.toasts@.len() <= crate::app::MAX_TOASTS,
{
    if let Msg::UpdateStatus(Ok(o)) = msg {
        if o.restart_required {
            let s = choose|s: StatusState|
            toasted(a.status, s, o.message@, false, now) && toasted(
                s,
                b.status,
                "restart required to finish update"@,
                false,
                now,
            );
            assert(crate::app::toast_views(s.toasts@).len() == s.toasts@.len());
            assert(crate::app::toast_views(b.status.toasts@).len() == b.status.toasts@.len());
        }
    }
    if b.status != a.status {
        assert(crate::app::toast_views(b.status.toasts@).len() == b.status.toasts@.len());
    }
}

// ---------------------------------------------------------------------------
// Starting playback of the selected episode.

/// What starting the selected episode needs: the session to record, the
/// window title, and the commands that close the previous session.
pub struct PlaybackStart {
    pub session: NewWatchSession,
    pub title: String,
    pub stop: Vec<Cmd>,
}

/// The window title of an episode: `TITLE - Episode EP`.
pub open spec fn playing_title_text(title: Seq<char>, episode: Seq<char>) -> Seq<char> {
    title + " - Episode "@ + episode
}

/// Prepares to play the selected episode: it fails when no show or no
/// episode is selected; otherwise the episode and title become current, the
/// previous session is closed, and the session to record is returned.
pub fn begin_playback<J, C>(app: &mut App<J, C>) -> (r: Result<PlaybackStart, String>)
    ensures
        old(app).detail.selected_anime is None ==> (r matches Err(e) && e@ == "No anime selected"@
            && *final(app) == *old(app)),
        old(app).detail.selected_anime is Some && old(app).detail.episode_selected
            >= old(app).detail.episodes@.len() ==> (r matches Err(e) && e@
            == "No episode selected"@ && *final(app) == *old(app)),
        old(app).detail.selected_anime is Some && old(app).detail.episode_selected
            < old(app).detail.episodes@.len() ==> ({
            let anime = old(app).detail.selected_anime->Some_0;
            let ep = old(app).detail.episodes@[old(app).detail.episode_selected as int]@;
            &&& r matches Ok(start)
            &&& start.title@ == playing_title_text(anime.title@, ep)
            &&& start.session.anime_id@ == anime.id@
            &&& start.session.title@ == anime.title@
            &&& start.session.episode@ == ep
            &&& start.session.total_episodes == Some(anime.episode_count)
            &&& start.session.player@ == player_name(old(app).playback.player_type)
            &&& start.session.mode@ == mode_text(old(app).playback.mode)
            &&& start.session.quality@ == old(app).playback.quality@
            &&& final(app).playback.current_episode matches Some(c) && c@ == ep
            &&& final(app).playback.playing_title matches Some(t) && t@ == start.title@
            &&& session_stopped(
                App {
                    playback: PlaybackState {
                        current_episode: final(app).playback.current_episode,
                        playing_title: final(app).playback.playing_title,
                        ..old(app).playback
                    },
                    ..*old(app)
                },
                *final(app),
                start.stop@,
            )
        }),
{
    let (anime_id, anime_title, count) = match &app.detail.selected_anime {
        Some(a) => (a.id.clone(), a.title.clone(), a.episode_count),
        None => {
            return Err("No anime selected".to_owned());
        },
    };
    if app.detail.episode_selected >= app.detail.episodes.len() {
        return Err("No episode selected".to_owned());
    }
    let ep = app.detail.episodes[app.detail.episode_selected].clone();
    let t1 = join_str(anime_title.as_str(), " - Episode ");
    let title = join_str(t1.as_str(), ep.as_str());
    app.playback.current_episode = Some(ep.clone());
    app.playback.playing_title = Some(title.clone());
    let stop = stop_active_watch_session(app);
    let session = NewWatchSession {
        anime_id,
        title: anime_title,
        episode: ep,
        total_episodes: Some(count),
        player: app.playback.player_type.name().to_owned(),
        mode: app.playback.mode.as_str().to_owned(),
        quality: app.playback.quality.clone(),
    };
    Ok(PlaybackStart { session, title, stop })
}

/// The presence announcement for the episode being started: the show's
/// title, the current episode, the show's count, the player and mode in use,
/// the stream's quality and the session's start time; `None` when no show or
/// episode is current.
pub fn presence_playback<J, C>(app: &App<J, C>, token: u64, quality: &str, started_at_unix: i64) -> (r:
    Option<PresencePlayback>)
    ensures
        (app.detail.selected_anime is Some && app.playback.current_episode is Some) == r is Some,
        r matches Some(p) ==> {
            &&& p.token == token
            &&& p.anime_title@ == app.detail.selected_anime->Some_0.title@
            &&& p.episode@ == app.playback.current_episode->Some_0@
            &&& p.total_episodes == Some(app.detail.selected_anime->Some_0.episode_count)
            &&& p.player == app.playback.player_type
            &&& p.mode@ == mode_text(app.playback.mode)
            &&& p.quality@ == quality@
            &&& p.started_at_unix == started_at_unix
            &&& p.metadata == app.playback.active_presence_metadata
        },
{
    match (&app.detail.selected_anime, &app.playback.current_episode) {
        (Some(anime), Some(ep)) => Some(
            PresencePlayback {
                token,
                anime_title: anime.title.clone(),
                episode: ep.clone(),
                total_episodes: Some(anime.episode_count),
                player: app.playback.player_type,
                mode: app.playback.mode.as_str().to_owned(),
                quality: quality.to_owned(),
                started_at_unix,
                metadata: match &app.playback.active_presence_metadata {
                    Some(m) => Some(m.duplicate()),
                    None => None,
                },
            },
        ),
        _ => None,
    }
}

/// Finishes starting playback once the session `session_id` is recorded and
/// the player runs (announced to presence under `presence_token`, if at
/// all): both are remembered, the history is reloaded and the now-playing
/// screen opens.
pub fn complete_playback<J, C>(app: &mut App<J, C>, session_id: i64, presence_token: Option<u64>) -> (cmds:
    Vec<Cmd>)
    ensures
        cmds@ == seq![Cmd::ReloadHistory],
        navigated(old(app).nav, final(app).nav, Screen::NowPlaying),
        *final(app) == (App {
            nav: final(app).nav,
            playback: PlaybackState {
                active_watch_session_id: Some(session_id),
                active_presence_token: match presence_token {
                    Some(t) => Some(t),
                    None => old(app).playback.active_presence_token,
                },
                ..old(app).playback
            },
            ..*old(app)
        }),
{
    app.playback.active_watch_session_id = Some(session_id);
    match presence_token {
        Some(t) => {
            app.playback.active_presence_token = Some(t);
        },
        None => {},
    }
    app.nav.navigate(Screen::NowPlaying);
    let mut cmds: Vec<Cmd> = Vec::new();
    cmds.push(Cmd::ReloadHistory);
    assert(cmds@ =~= seq![Cmd::ReloadHistory]);
    cmds
}

/// The message that answers a request to play an episode: the stream with
/// what came with it, or a toast naming the stream error.
pub fn stream_message<J, C>(
    stream: Result<EpisodeUrl, String>,
    entry: WatchEntry,
    metadata: Option<PresenceMetadata>,
    episodes: Option<Vec<String>>,
) -> (r: Msg<J, C>)
    ensures
        stream matches Ok(url) ==> (r matches Msg::StreamReady(d) && d.url == url && d.entry == entry
            && d.metadata == metadata && d.episodes == episodes),
        stream matches Err(e) ==> (r matches Msg::Toast(t, is_err) && t@ == "stream error: "@ + e@
            && is_err),
{
    match stream {
        Ok(url) => Msg::StreamReady(Box::new(PlaybackData { url, entry, metadata, episodes })),
        Err(e) => Msg::Toast(join_str("stream error: ", e.as_str()), true),
    }
}

/// The provider id to load episodes for: the given one, else the first
/// search hit for the title (when the search succeeded).
pub fn detail_provider_id(given: Option<String>, search: Option<Vec<AnimeResult>>) -> (r: Option<String>)
    ensures
        given is Some ==> r == given,
        given is None ==> match search {
            Some(v) => if v@.len() > 0 {
                r matches Some(id) && id@ == v@[0].id@
            } else {
                r is None
            },
            None => r is None,
        },
{
    match given {
        Some(id) => Some(id),
        None => match search {
            Some(v) => if v.len() > 0 {
                Some(v[0].id.clone())
            } else {
                None
            },
            None => None,
        },
    }
}

} // verus!
