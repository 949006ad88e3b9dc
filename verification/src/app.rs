//! The application state: screens and their navigation stack, selections,
//! loaded data, toasts and the bookkeeping of playback and updates.
//!
//! The state is generic over two payloads it only carries: `J`, the full
//! catalog record behind each listed show, and `C`, the prepared cover art.

use vstd::prelude::*;

use crate::domain::{AnimeResult, EpisodeUrl, Mode, PlayerType, WatchEntry, toggled};
use crate::jikan::{JikanImages, JikanRecommendation};
use crate::player::texts;
use crate::presence::PresenceMetadata;
use crate::updater::UpdateInfo;

verus! {

/// How many toasts are kept on screen at once.
pub const MAX_TOASTS: usize = 6;

/// How long a toast stays up, in milliseconds.
pub const TOAST_LIFETIME_MS: u64 = 2500;

/// How long the first key of a two-key sequence waits, in milliseconds.
pub const KEY_SEQUENCE_TIMEOUT_MS: u64 = 600;

/// Start-up choices from the command line.
pub struct AppOptions {
    pub player_type: Option<PlayerType>,
    pub mode: Option<Mode>,
    pub discord_client_id: Option<String>,
}

impl Default for AppOptions {
    fn default() -> (r: AppOptions)
        ensures
            r.player_type is None,
            r.mode is None,
            r.discord_client_id is None,
    {
        AppOptions { player_type: None, mode: None, discord_client_id: None }
    }
}

/// The screens of the client.
#[derive(Debug, PartialEq, Eq, Structural, Clone, Copy)]
pub enum Screen {
    Home,
    Search,
    AnimeDetail,
    WatchHistory,
    NowPlaying,
    Help,
    SeasonBrowse,
    Schedule,
    TopAnime,
    GenreBrowse,
}

/// Which home-screen panel has the cursor.
#[derive(Debug, PartialEq, Eq, Structural, Clone, Copy)]
pub enum HomeFocus {
    Queue,
    Airing,
    Trending,
}

/// A transient message, stamped with the time (ms) it appeared.
pub struct Toast {
    pub message: String,
    pub is_error: bool,
    pub born_ms: u64,
}

/// A toast as the specifications see it.
pub ghost struct ToastView {
    pub message: Seq<char>,
    pub is_error: bool,
    pub born_ms: u64,
}

impl View for Toast {
    type V = ToastView;

    open spec fn view(&self) -> ToastView {
        ToastView { message: self.message@, is_error: self.is_error, born_ms: self.born_ms }
    }
}

/// A catalog show as the state machine reads it (MyAnimeList id, display
/// title, episode count, cover images), with the full record it came from.
pub struct CatalogEntry<J> {
    pub mal_id: u32,
    pub title: String,
    pub episodes: Option<u32>,
    pub images: JikanImages,
    pub record: J,
}

/// Which screen is shown, the screens to go back to, whether the client
/// runs, a pending two-key sequence (its first key and when it was pressed),
/// and the id that tags the current batch of background requests.
pub struct Navigation {
    pub screen: Screen,
    pub screen_stack: Vec<Screen>,
    pub running: bool,
    pub key_seq: Option<(char, u64)>,
    pub current_session_id: u64,
}

/// The home screen: the watch queue, today's airing shows and the trending
/// list, with their cursors, and the weekday the schedule screen shows.
pub struct HomeState<J> {
    pub home_selected: usize,
    pub home_focus: HomeFocus,
    pub home_airing_selected: usize,
    pub home_airing_offset: usize,
    pub airing_today: Vec<CatalogEntry<J>>,
    pub airing_today_loading: bool,
    pub top_anime: Vec<CatalogEntry<J>>,
    pub top_selected: usize,
    pub top_loading: bool,
    pub schedule_day: String,
}

/// The search screen.
pub struct SearchState {
    pub search_input: String,
    pub search_results: Vec<AnimeResult>,
    pub search_selected: usize,
    pub search_loading: bool,
    pub search_dirty: bool,
    pub search_debounce_deadline: Option<u64>,
}

/// The detail screen of one show: its episodes, catalog record, cover and
/// recommendations.
pub struct DetailState<J, C> {
    pub selected_anime: Option<AnimeResult>,
    pub episodes: Vec<String>,
    pub episode_selected: usize,
    pub episodes_loading: bool,
    pub jikan_anime: Option<CatalogEntry<J>>,
    pub jikan_loading: bool,
    pub synopsis_scroll: usize,
    pub cover_art: Option<C>,
    pub cover_art_loading: bool,
    pub has_image_picker: bool,
    pub recommendations: Vec<JikanRecommendation>,
    pub recommendations_loading: bool,
    pub recommendations_selected: usize,
    pub show_recommendations: bool,
    pub target_episode: Option<String>,
    pub loading: bool,
}

/// What plays and how: the episode, the stream, the recorded session, the
/// presence token, and the player, mode and quality in use.
pub struct PlaybackState {
    pub current_episode: Option<String>,
    pub playing_title: Option<String>,
    pub episode_url: Option<EpisodeUrl>,
    pub active_watch_session_id: Option<i64>,
    pub active_presence_token: Option<u64>,
    pub active_presence_metadata: Option<PresenceMetadata>,
    pub player_type: PlayerType,
    pub mode: Mode,
    pub quality: String,
    pub presence_enabled: bool,
}

/// Self-update progress.
pub struct UpdateState {
    pub update_available: Option<UpdateInfo>,
    pub update_check_in_progress: bool,
    pub update_popup_visible: bool,
    pub update_requested: bool,
    pub update_in_progress: bool,
    pub update_check_manual: bool,
}

/// Watch history and the continue-watching queue.
pub struct HistoryState {
    pub history: Vec<WatchEntry>,
    pub history_selected: usize,
    pub continue_watching: Vec<WatchEntry>,
}

/// Toasts and animation counters.
pub struct StatusState {
    pub toasts: Vec<Toast>,
    pub spinner_tick: usize,
    pub splash_tick: usize,
}

/// The whole client state.
pub struct App<J, C> {
    pub nav: Navigation,
    pub home: HomeState<J>,
    pub search: SearchState,
    pub detail: DetailState<J, C>,
    pub playback: PlaybackState,
    pub updates: UpdateState,
    pub history: HistoryState,
    pub status: StatusState,
}

/// The toasts of a state, as the specifications see them.
pub open spec fn toast_views(ts: Seq<Toast>) -> Seq<ToastView> {
    ts.map_values(|t: Toast| t@)
}

/// Moving to a screen: the current one is pushed unless it is the target.
pub open spec fn navigated(a: Navigation, b: Navigation, screen: Screen) -> bool {
    if a.screen != screen {
        &&& b.screen_stack@ == a.screen_stack@.push(a.screen)
        &&& b == Navigation { screen, screen_stack: b.screen_stack, ..a }
    } else {
        b == a
    }
}

/// Going back: the last pushed screen, or Home when the stack is empty.
pub open spec fn gone_back(a: Navigation, b: Navigation) -> bool {
    if a.screen_stack@.len() > 0 {
        &&& b.screen_stack@ == a.screen_stack@.drop_last()
        &&& b == Navigation { screen: a.screen_stack@.last(), screen_stack: b.screen_stack, ..a }
    } else {
        b == Navigation { screen: Screen::Home, ..a }
    }
}

/// The toasts after adding one: the newest last, the oldest dropped beyond
/// the cap.
pub open spec fn toasts_after(ts: Seq<ToastView>, t: ToastView) -> Seq<ToastView> {
    let all = ts.push(t);
    if all.len() > MAX_TOASTS {
        all.subrange(all.len() - MAX_TOASTS, all.len() as int)
    } else {
        all
    }
}

/// Showing a toast with `message` at time `now`.
pub open spec fn toasted(a: StatusState, b: StatusState, message: Seq<char>, is_error: bool, now: u64) -> bool {
    &&& toast_views(b.toasts@) == toasts_after(
        toast_views(a.toasts@),
        ToastView { message, is_error, born_ms: now },
    )
    &&& b == StatusState { toasts: b.toasts, ..a }
}

/// The queue cursor pulled back inside a queue of `len` entries (to 0 when it
/// is empty).
pub open spec fn clamped_selection(sel: usize, len: nat) -> usize {
    if sel >= len {
        if len > 0 {
            (len - 1) as usize
        } else {
            0
        }
    } else {
        sel
    }
}

/// Loading fresh history: the lists are replaced and the queue cursor kept
/// inside the queue.
pub open spec fn history_refreshed<J, C>(
    a: App<J, C>,
    b: App<J, C>,
    history: Seq<WatchEntry>,
    continue_watching: Seq<WatchEntry>,
) -> bool {
    &&& b.history.history@ == history
    &&& b.history.continue_watching@ == continue_watching
    &&& b.history == HistoryState {
        history: b.history.history,
        continue_watching: b.history.continue_watching,
        ..a.history
    }
    &&& b.home == HomeState {
        home_selected: clamped_selection(a.home.home_selected, continue_watching.len()),
        ..a.home
    }
    &&& b == App { history: b.history, home: b.home, ..a }
}

/// Whether a toast born at `born` is still up at `now`.
pub open spec fn toast_alive(born: u64, now: u64) -> bool {
    (if now >= born {
        now - born
    } else {
        0
    }) < TOAST_LIFETIME_MS
}

/// The toasts still up at `now`, in order.
pub open spec fn live_toasts(ts: Seq<ToastView>, now: u64) -> Seq<ToastView>
    decreases ts.len(),
{
    if ts.len() == 0 {
        ts
    } else {
        let rest = live_toasts(ts.drop_last(), now);
        if toast_alive(ts.last().born_ms, now) {
            rest.push(ts.last())
        } else {
            rest
        }
    }
}

/// The pending key sequence after a tick at `now`: dropped once older than
/// the timeout.
pub open spec fn key_seq_after_tick(k: Option<(char, u64)>, now: u64) -> Option<(char, u64)> {
    match k {
        Some((c, born)) => if (if now >= born {
            now - born
        } else {
            0
        }) > KEY_SEQUENCE_TIMEOUT_MS {
            None
        } else {
            Some((c, born))
        },
        None => None,
    }
}

/// One animation tick at `now`: both counters advance (the spinner wraps, the
/// splash counter saturates), expired toasts go, and a pending key sequence
/// older than the timeout is dropped.
pub open spec fn ticked<J, C>(a: App<J, C>, b: App<J, C>, now: u64) -> bool {
    &&& toast_views(b.status.toasts@) == live_toasts(toast_views(a.status.toasts@), now)
    &&& b.status == StatusState {
        spinner_tick: if a.status.spinner_tick == usize::MAX {
            0
        } else {
            (a.status.spinner_tick + 1) as usize
        },
        splash_tick: if a.status.splash_tick == usize::MAX {
            usize::MAX
        } else {
            (a.status.splash_tick + 1) as usize
        },
        toasts: b.status.toasts,
    }
    &&& b.nav == Navigation { key_seq: key_seq_after_tick(a.nav.key_seq, now), ..a.nav }
    &&& b == App { status: b.status, nav: b.nav, ..a }
}

/// The state a fresh client starts in.
pub open spec fn initial_state<J, C>(
    options: AppOptions,
    has_image_picker: bool,
    detected_player: PlayerType,
    history: Seq<WatchEntry>,
    continue_watching: Seq<WatchEntry>,
    v: App<J, C>,
) -> bool {
    &&& v.nav.screen == Screen::Home
    &&& v.nav.screen_stack@.len() == 0
    &&& v.nav.running
    &&& v.nav.key_seq is None
    &&& v.nav.current_session_id == 0
    &&& v.home.home_selected == 0
    &&& v.home.home_focus == HomeFocus::Queue
    &&& v.home.home_airing_selected == 0
    &&& v.home.home_airing_offset == 0
    &&& v.home.airing_today@.len() == 0
    &&& !v.home.airing_today_loading
    &&& v.home.top_anime@.len() == 0
    &&& v.home.top_selected == 0
    &&& !v.home.top_loading
    &&& v.home.schedule_day@ == "monday"@
    &&& v.search.search_input@.len() == 0
    &&& v.search.search_results@.len() == 0
    &&& v.search.search_selected == 0
    &&& !v.search.search_loading
    &&& !v.search.search_dirty
    &&& v.search.search_debounce_deadline is None
    &&& v.detail.selected_anime is None
    &&& v.detail.episodes@.len() == 0
    &&& v.detail.episode_selected == 0
    &&& !v.detail.episodes_loading
    &&& v.detail.jikan_anime is None
    &&& !v.detail.jikan_loading
    &&& v.detail.synopsis_scroll == 0
    &&& v.detail.cover_art is None
    &&& !v.detail.cover_art_loading
    &&& v.detail.has_image_picker == has_image_picker
    &&& v.detail.recommendations@.len() == 0
    &&& !v.detail.recommendations_loading
    &&& v.detail.recommendations_selected == 0
    &&& !v.detail.show_recommendations
    &&& v.detail.target_episode is None
    &&& !v.detail.loading
    &&& v.playback.current_episode is None
    &&& v.playback.playing_title is None
    &&& v.playback.episode_url is None
    &&& v.playback.active_watch_session_id is None
    &&& v.playback.active_presence_token is None
    &&& v.playback.active_presence_metadata is None
    &&& v.playback.player_type == (match options.player_type {
        Some(p) => p,
        None => detected_player,
    })
    &&& v.playback.mode == (match options.mode {
        Some(m) => m,
        None => Mode::Sub,
    })
    &&& v.playback.quality@ == "best"@
    &&& v.playback.presence_enabled == (options.discord_client_id is Some)
    &&& v.updates.update_available is None
    &&& !v.updates.update_check_in_progress
    &&& !v.updates.update_popup_visible
    &&& !v.updates.update_requested
    &&& !v.updates.update_in_progress
    &&& !v.updates.update_check_manual
    &&& v.history.history@ == history
    &&& v.history.history_selected == 0
    &&& v.history.continue_watching@ == continue_watching
    &&& v.status.toasts@.len() == 0
    &&& v.status.spinner_tick == 0
    &&& v.status.splash_tick == 0
}

impl Navigation {
    /// Opens `screen`, remembering the current screen unless it is the same.
    pub fn navigate(&mut self, screen: Screen)
        ensures
            navigated(*old(self), *final(self), screen),
    {
        if self.screen != screen {
            let cur = self.screen;
            self.screen_stack.push(cur);
            self.screen = screen;
        }
    }

    /// Returns to the previous screen, or to Home when there is none.
    pub fn go_back(&mut self)
        ensures
            gone_back(*old(self), *final(self)),
    {
        if self.screen_stack.len() > 0 {
            let prev = self.screen_stack.pop().unwrap();
            self.screen = prev;
        } else {
            self.screen = Screen::Home;
        }
    }
}

impl StatusState {
    /// Shows a toast born at `now_ms`, keeping at most the six newest.
    pub fn toast(&mut self, message: String, is_error: bool, now_ms: u64)
        ensures
            toasted(*old(self), *final(self), message@, is_error, now_ms),
            final(self).toasts@.len() <= MAX_TOASTS,
    {
        let ghost before = toast_views(self.toasts@);
        self.toasts.push(Toast { message, is_error, born_ms: now_ms });
        let ghost pushed = toast_views(self.toasts@);
        assert(pushed =~= before.push(ToastView { message: message@, is_error, born_ms: now_ms }));
        let len = self.toasts.len();
        if len > MAX_TOASTS {
            let kept = self.toasts.split_off(len - MAX_TOASTS);
            self.toasts = kept;
            assert(toast_views(self.toasts@) =~= pushed.subrange(
                pushed.len() - MAX_TOASTS,
                pushed.len() as int,
            ));
        }
    }

    /// The toasts still up at `now_ms`, in order.
    fn expire_toasts(&mut self, now_ms: u64)
        ensures
            toast_views(final(self).toasts@) == live_toasts(toast_views(old(self).toasts@), now_ms),
            final(self).spinner_tick == old(self).spinner_tick,
            final(self).splash_tick == old(self).splash_tick,
    {
        let mut rest: Vec<Toast> = Vec::new();
        std::mem::swap(&mut rest, &mut self.toasts);
        let ghost all = toast_views(rest@);
        let n = rest.len();
        let mut kept: Vec<Toast> = Vec::new();
        let mut i: usize = 0;
        assert(all.skip(0) =~= all);
        assert(all.take(0) =~= Seq::<ToastView>::empty());
        assert(toast_views(kept@) =~= Seq::<ToastView>::empty());
        while i < n
            invariant
                i <= n,
                n == all.len(),
                toast_views(rest@) == all.skip(i as int),
                toast_views(kept@) == live_toasts(all.take(i as int), now_ms),
            decreases n - i,
        {
            let ghost before_rest = rest@;
            assert(toast_views(before_rest).len() == n - i);
            let t = rest.remove(0);
            assert(t@ == all[i as int]) by {
                assert(toast_views(before_rest)[0] == before_rest[0]@);
                assert(toast_views(before_rest)[0] == all.skip(i as int)[0]);
                assert(all.skip(i as int)[0] == all[i as int]);
            }
            assert(rest@ =~= before_rest.skip(1));
            assert(toast_views(before_rest.skip(1)) =~= toast_views(before_rest).skip(1));
            assert(all.skip(i as int).skip(1) =~= all.skip(i + 1));
            assert(toast_views(rest@) =~= all.skip(i + 1));
            assert(all.take(i + 1).drop_last() =~= all.take(i as int));
            assert(all.take(i + 1).last() == all[i as int]);
            let age = if now_ms >= t.born_ms {
                now_ms - t.born_ms
            } else {
                0
            };
            if age < TOAST_LIFETIME_MS {
                let ghost before = toast_views(kept@);
                kept.push(t);
                assert(toast_views(kept@) =~= before.push(all[i as int]));
            }
            i += 1;
        }
        assert(all.take(n as int) =~= all);
        self.toasts = kept;
    }
}

impl<J, C> App<J, C> {
    /// A fresh client on the home screen with the default options.
    pub fn new(
        detected_player: PlayerType,
        history: Vec<WatchEntry>,
        continue_watching: Vec<WatchEntry>,
    ) -> (r: App<J, C>)
        ensures
            initial_state(
                AppOptions { player_type: None, mode: None, discord_client_id: None },
                false,
                detected_player,
                history@,
                continue_watching@,
                r,
            ),
    {
        Self::with_options(
            AppOptions { player_type: None, mode: None, discord_client_id: None },
            detected_player,
            history,
            continue_watching,
        )
    }

    /// A fresh client with the given options and no image support.
    pub fn with_options(
        options: AppOptions,
        detected_player: PlayerType,
        history: Vec<WatchEntry>,
        continue_watching: Vec<WatchEntry>,
    ) -> (r: App<J, C>)
        ensures
            initial_state(options, false, detected_player, history@, continue_watching@, r),
    {
        Self::with_options_and_picker(options, false, detected_player, history, continue_watching)
    }

    /// A fresh client on the home screen: the player is the chosen one or
    /// else the detected one, the mode the chosen one or else subtitled,
    /// quality "best", presence on when a Discord client id is given, the
    /// schedule on Monday, the history and queue as loaded, and everything
    /// else empty.
    pub fn with_options_and_picker(
        options: AppOptions,
        has_image_picker: bool,
        detected_player: PlayerType,
        history: Vec<WatchEntry>,
        continue_watching: Vec<WatchEntry>,
    ) -> (r: App<J, C>)
        ensures
            initial_state(
                options,
                has_image_picker,
                detected_player,
                history@,
                continue_watching@,
                r,
            ),
    {
        let player_type = match options.player_type {
            Some(p) => p,
            None => detected_player,
        };
        let mode = match options.mode {
            Some(m) => m,
            None => Mode::Sub,
        };
        let quality = "best".to_owned();
        let presence_enabled = options.discord_client_id.is_some();
        App {
            nav: Navigation {
                screen: Screen::Home,
                screen_stack: Vec::new(),
                running: true,
                key_seq: None,
                current_session_id: 0,
            },
            home: HomeState {
                home_selected: 0,
                home_focus: HomeFocus::Queue,
                home_airing_selected: 0,
                home_airing_offset: 0,
                airing_today: Vec::new(),
                airing_today_loading: false,
                top_anime: Vec::new(),
                top_selected: 0,
                top_loading: false,
                schedule_day: "monday".to_owned(),
            },
            search: SearchState {
                search_input: String::new(),
                search_results: Vec::new(),
                search_selected: 0,
                search_loading: false,
                search_dirty: false,
                search_debounce_deadline: None,
            },
            detail: DetailState {
                selected_anime: None,
                episodes: Vec::new(),
                episode_selected: 0,
                episodes_loading: false,
                jikan_anime: None,
                jikan_loading: false,
                synopsis_scroll: 0,
                cover_art: None,
                cover_art_loading: false,
                has_image_picker,
                recommendations: Vec::new(),
                recommendations_loading: false,
                recommendations_selected: 0,
                show_recommendations: false,
                target_episode: None,
                loading: false,
            },
            playback: PlaybackState {
                current_episode: None,
                playing_title: None,
                episode_url: None,
                active_watch_session_id: None,
                active_presence_token: None,
                active_presence_metadata: None,
                player_type,
                mode,
                quality,
                presence_enabled,
            },
            updates: UpdateState {
                update_available: None,
                update_check_in_progress: false,
                update_popup_visible: false,
                update_requested: false,
                update_in_progress: false,
                update_check_manual: false,
            },
            history: HistoryState { history, history_selected: 0, continue_watching },
            status: StatusState { toasts: Vec::new(), spinner_tick: 0, splash_tick: 0 },
        }
    }

    /// Opens `screen`, remembering the current screen unless it is the same.
    pub fn navigate(&mut self, screen: Screen)
        ensures
            navigated(old(self).nav, final(self).nav, screen),
            *final(self) == (App { nav: final(self).nav, ..*old(self) }),
    {
        self.nav.navigate(screen);
    }

    /// Returns to the previous screen, or to Home when there is none.
    pub fn go_back(&mut self)
        ensures
            gone_back(old(self).nav, final(self).nav),
            *final(self) == (App { nav: final(self).nav, ..*old(self) }),
    {
        self.nav.go_back();
    }

    /// Switches between subtitled and dubbed episodes.
    pub fn toggle_mode(&mut self)
        ensures
            *final(self) == (App {
                playback: PlaybackState { mode: toggled(old(self).playback.mode), ..old(self).playback },
                ..*old(self)
            }),
    {
        self.playback.mode = match self.playback.mode {
            Mode::Sub => Mode::Dub,
            Mode::Dub => Mode::Sub,
        };
    }

    /// Marks the search input as changed and due for a query at
    /// `now_ms + delay_ms`.
    pub fn schedule_search(&mut self, delay_ms: u64, now_ms: u64)
        requires
            now_ms + delay_ms <= u64::MAX,
        ensures
            *final(self) == (App {
                search: SearchState {
                    search_dirty: true,
                    search_debounce_deadline: Some((now_ms + delay_ms) as u64),
                    ..old(self).search
                },
                ..*old(self)
            }),
    {
        self.search.search_dirty = true;
        self.search.search_debounce_deadline = Some(now_ms + delay_ms);
    }

    /// Drops a pending debounced search.
    pub fn cancel_search_schedule(&mut self)
        ensures
            *final(self) == (App {
                search: SearchState {
                    search_dirty: false,
                    search_debounce_deadline: None,
                    ..old(self).search
                },
                ..*old(self)
            }),
    {
        self.search.search_dirty = false;
        self.search.search_debounce_deadline = None;
    }

    /// Shows a toast born at `now_ms`, keeping at most the six newest.
    pub fn toast(&mut self, message: String, is_error: bool, now_ms: u64)
        ensures
            toasted(old(self).status, final(self).status, message@, is_error, now_ms),
            *final(self) == (App { status: final(self).status, ..*old(self) }),
    {
        self.status.toast(message, is_error, now_ms);
    }

    /// Replaces the history and continue-watching lists with freshly loaded
    /// ones, keeping the queue selection inside the queue.
    pub fn refresh_history(&mut self, history: Vec<WatchEntry>, continue_watching: Vec<WatchEntry>)
        ensures
            history_refreshed(*old(self), *final(self), history@, continue_watching@),
    {
        let n = continue_watching.len();
        self.history.history = history;
        self.history.continue_watching = continue_watching;
        if self.home.home_selected >= n {
            self.home.home_selected = if n > 0 {
                n - 1
            } else {
                0
            };
        }
    }

    /// Moves to the next episode; false (and no change) on the last one.
    pub fn next_episode(&mut self) -> (r: bool)
        ensures
            r == (old(self).detail.episode_selected + 1 < old(self).detail.episodes@.len()),
            r ==> *final(self) == (App {
                detail: DetailState {
                    episode_selected: (old(self).detail.episode_selected + 1) as usize,
                    ..old(self).detail
                },
                ..*old(self)
            }),
            !r ==> *final(self) == *old(self),
    {
        let n = self.detail.episodes.len();
        if n > 0 && self.detail.episode_selected < n - 1 {
            self.detail.episode_selected = self.detail.episode_selected + 1;
            true
        } else {
            false
        }
    }

    /// Moves to the previous episode; false (and no change) on the first one.
    pub fn previous_episode(&mut self) -> (r: bool)
        ensures
            r == (old(self).detail.episode_selected > 0),
            r ==> *final(self) == (App {
                detail: DetailState {
                    episode_selected: (old(self).detail.episode_selected - 1) as usize,
                    ..old(self).detail
                },
                ..*old(self)
            }),
            !r ==> *final(self) == *old(self),
    {
        if self.detail.episode_selected > 0 {
            self.detail.episode_selected = self.detail.episode_selected - 1;
            true
        } else {
            false
        }
    }

    /// Advances the animation counters and expires old toasts and key
    /// sequences, as of `now_ms`.
    pub fn tick_spinner(&mut self, now_ms: u64)
        ensures
            ticked(*old(self), *final(self), now_ms),
    {
        self.status.spinner_tick = self.status.spinner_tick.wrapping_add(1);
        self.status.splash_tick = self.status.splash_tick.saturating_add(1);
        self.status.expire_toasts(now_ms);
        match self.nav.key_seq {
            Some((c, born)) => {
                let age = if now_ms >= born {
                    now_ms - born
                } else {
                    0
                };
                if age > KEY_SEQUENCE_TIMEOUT_MS {
                    self.nav.key_seq = None;
                }
            },
            None => {},
        }
    }

    /// The episodes of the selected show that the history holds, in history
    /// order; none when no show is selected.
    pub fn watched_episodes(&self) -> (r: Vec<String>)
        ensures
            texts(r@) == match self.detail.selected_anime {
                Some(a) => watched_in(self.history.history@, a.id@),
                None => Seq::empty(),
            },
    {
        let id = match &self.detail.selected_anime {
            Some(a) => a.id.as_str(),
            None => {
                return Vec::new();
            },
        };
        let h = &self.history.history;
        let mut out: Vec<String> = Vec::new();
        let mut i: usize = 0;
        while i < h.len()
            invariant
                i <= h@.len(),
                texts(out@) == watched_in(h@.take(i as int), id@),
            decreases h@.len() - i,
        {
            let ghost before = out@;
            if crate::text::text_eq(h[i].anime_id.as_str(), id) {
                out.push(h[i].episode.clone());
                assert(texts(out@) =~= texts(before).push(h@[i as int].episode@));
            }
            assert(h@.take(i + 1).drop_last() =~= h@.take(i as int));
            i += 1;
        }
        assert(h@.take(h@.len() as int) =~= h@);
        out
    }
}

/// The episodes of show `id` in a history, in history order.
pub open spec fn watched_in(history: Seq<WatchEntry>, id: Seq<char>) -> Seq<Seq<char>>
    decreases history.len(),
{
    if history.len() == 0 {
        Seq::empty()
    } else {
        let e = history.last();
        watched_in(history.drop_last(), id) + if e.anime_id@ == id {
            seq![e.episode@]
        } else {
            Seq::empty()
        }
    }
}

/// Going back after moving to a different screen returns to where the
/// client was, with the navigation stack as it was.
pub proof fn lemma_navigate_then_back(a: Navigation, b: Navigation, c: Navigation, screen: Screen)
    requires
        a.screen != screen,
        navigated(a, b, screen),
        gone_back(b, c),
    ensures
        c.screen == a.screen,
        c.screen_stack@ == a.screen_stack@,
        c == (Navigation { screen_stack: c.screen_stack, ..a }),
{
    assert(b.screen_stack@.drop_last() =~= a.screen_stack@);
}

/// Toggling the mode twice restores it.
pub proof fn lemma_toggle_mode_involution(m: Mode)
    ensures
        toggled(toggled(m)) == m,
{
}

/// After any toast there are at most six, the new one last.
pub proof fn lemma_toasts_capped(ts: Seq<ToastView>, t: ToastView)
    ensures
        toasts_after(ts, t).len() <= MAX_TOASTS,
        toasts_after(ts, t).last() == t,
{
}

} // verus!
