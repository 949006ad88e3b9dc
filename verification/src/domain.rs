//! Shared domain types: search results, stream URLs, translation mode,
//! player kinds and watch-history records.

use vstd::prelude::*;

verus! {

/// A show as a provider search lists it.
#[derive(Debug)]
pub struct AnimeResult {
    pub id: String,
    pub title: String,
    pub episode_count: u32,
}

/// What the state machine remembers of a show: its provider id, title and
/// episode count.
pub ghost struct AnimeSummary {
    pub id: Seq<char>,
    pub title: Seq<char>,
    pub episode_count: u32,
}

impl View for AnimeResult {
    type V = AnimeSummary;

    open spec fn view(&self) -> AnimeSummary {
        AnimeSummary { id: self.id@, title: self.title@, episode_count: self.episode_count }
    }
}

impl AnimeResult {
    /// A field-by-field copy.
    pub fn duplicate(&self) -> (r: AnimeResult)
        ensures
            r == *self,
    {
        AnimeResult {
            id: self.id.clone(),
            title: self.title.clone(),
            episode_count: self.episode_count,
        }
    }
}

/// A resolved stream for one episode.
#[derive(Debug)]
pub struct EpisodeUrl {
    pub url: String,
    pub quality: String,
    pub referer: Option<String>,
    pub subtitle: Option<String>,
}

impl EpisodeUrl {
    /// A field-by-field copy.
    pub fn duplicate(&self) -> (r: EpisodeUrl)
        ensures
            r == *self,
    {
        EpisodeUrl {
            url: self.url.clone(),
            quality: self.quality.clone(),
            referer: self.referer.clone(),
            subtitle: self.subtitle.clone(),
        }
    }
}

/// Subtitled or dubbed episodes.
#[derive(Debug, PartialEq, Eq, Structural, Clone, Copy)]
pub enum Mode {
    Sub,
    Dub,
}

/// The provider's name for a mode.
pub open spec fn mode_text(m: Mode) -> Seq<char> {
    match m {
        Mode::Sub => seq!['s', 'u', 'b'],
        Mode::Dub => seq!['d', 'u', 'b'],
    }
}

/// The other mode.
pub open spec fn toggled(m: Mode) -> Mode {
    match m {
        Mode::Sub => Mode::Dub,
        Mode::Dub => Mode::Sub,
    }
}

impl Mode {
    /// `"sub"` or `"dub"`.
    pub fn as_str(&self) -> (r: &'static str)
        ensures
            r@ == mode_text(*self),
    {
        match self {
            Mode::Sub => {
                let r = "sub";
                proof {
                    reveal_strlit("sub");
                }
                assert(r@ =~= mode_text(*self));
                r
            },
            Mode::Dub => {
                let r = "dub";
                proof {
                    reveal_strlit("dub");
                }
                assert(r@ =~= mode_text(*self));
                r
            },
        }
    }
}

/// The external players the client can hand a stream to.
#[derive(Debug, PartialEq, Eq, Structural, Clone, Copy)]
pub enum PlayerType {
    Mpv,
    Iina,
    Vlc,
}

/// The command-line name of a player.
pub open spec fn player_name(p: PlayerType) -> Seq<char> {
    match p {
        PlayerType::Mpv => seq!['m', 'p', 'v'],
        PlayerType::Iina => seq!['i', 'i', 'n', 'a'],
        PlayerType::Vlc => seq!['v', 'l', 'c'],
    }
}

impl PlayerType {
    /// Every player, in detection-report order.
    pub fn all() -> (r: [PlayerType; 3])
        ensures
            r@ == seq![PlayerType::Mpv, PlayerType::Iina, PlayerType::Vlc],
    {
        let r = [PlayerType::Mpv, PlayerType::Iina, PlayerType::Vlc];
        assert(r@ =~= seq![PlayerType::Mpv, PlayerType::Iina, PlayerType::Vlc]);
        r
    }

    /// `"mpv"`, `"iina"` or `"vlc"`.
    pub fn name(&self) -> (r: &'static str)
        ensures
            r@ == player_name(*self),
    {
        match self {
            PlayerType::Mpv => {
                let r = "mpv";
                proof {
                    reveal_strlit("mpv");
                }
                assert(r@ =~= player_name(*self));
                r
            },
            PlayerType::Iina => {
                let r = "iina";
                proof {
                    reveal_strlit("iina");
                }
                assert(r@ =~= player_name(*self));
                r
            },
            PlayerType::Vlc => {
                let r = "vlc";
                proof {
                    reveal_strlit("vlc");
                }
                assert(r@ =~= player_name(*self));
                r
            },
        }
    }
}

/// One row of watch history.
#[derive(Debug)]
pub struct WatchEntry {
    pub id: i64,
    pub anime_id: String,
    pub title: String,
    pub episode: String,
    pub total_episodes: Option<u32>,
    pub watched_at: String,
}

impl WatchEntry {
    /// A field-by-field copy.
    pub fn duplicate(&self) -> (r: WatchEntry)
        ensures
            r == *self,
    {
        WatchEntry {
            id: self.id,
            anime_id: self.anime_id.clone(),
            title: self.title.clone(),
            episode: self.episode.clone(),
            total_episodes: self.total_episodes,
            watched_at: self.watched_at.clone(),
        }
    }
}

/// One recorded viewing of an episode.
#[derive(Debug)]
pub struct WatchSession {
    pub id: i64,
    pub anime_id: String,
    pub episode: String,
    pub started_at: String,
    pub stopped_at: Option<String>,
}

/// A watch session to record: the show, the episode, and how it is played.
#[derive(Debug)]
pub struct NewWatchSession {
    pub anime_id: String,
    pub title: String,
    pub episode: String,
    pub total_episodes: Option<u32>,
    pub player: String,
    pub mode: String,
    pub quality: String,
}

} // verus!
