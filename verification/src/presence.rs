//! Discord rich-presence decisions: what the presence worker does with each
//! command, how player progress reports update the timeline, when an update
//! is sent, and what the activity shows.

use vstd::prelude::*;

use crate::domain::{PlayerType, player_name};
use crate::jikan::opt_view;
use crate::json::JsonValue;
use crate::text::{decimal, decimal_text, text_eq, to_uppercase, uppercase};

verus! {

/// Minimum time between two timeline updates sent to Discord (ms).
pub const DISCORD_UPDATE_DEBOUNCE_MS: u64 = 900;

/// Catalog facts shown in the presence card. The score is kept as the text
/// shown for it (one decimal).
#[derive(Debug)]
pub struct PresenceMetadata {
    pub canonical_title: Option<String>,
    pub image_url: Option<String>,
    pub external_url: Option<String>,
    pub media_type: Option<String>,
    pub episode_count: Option<u32>,
    pub score_label: Option<String>,
    pub season: Option<String>,
    pub year: Option<i32>,
}

impl PresenceMetadata {
    /// A field-by-field copy.
    pub fn duplicate(&self) -> (r: PresenceMetadata)
        ensures
            r == *self,
    {
        PresenceMetadata {
            canonical_title: self.canonical_title.clone(),
            image_url: self.image_url.clone(),
            external_url: self.external_url.clone(),
            media_type: self.media_type.clone(),
            episode_count: self.episode_count,
            score_label: self.score_label.clone(),
            season: self.season.clone(),
            year: self.year,
        }
    }
}

/// What is playing, as announced to the presence worker.
#[derive(Debug)]
pub struct PresencePlayback {
    pub token: u64,
    pub anime_title: String,
    pub episode: String,
    pub total_episodes: Option<u32>,
    pub player: PlayerType,
    pub mode: String,
    pub quality: String,
    pub started_at_unix: i64,
    pub metadata: Option<PresenceMetadata>,
}

impl PresencePlayback {
    /// A field-by-field copy.
    pub fn duplicate(&self) -> (r: PresencePlayback)
        ensures
            r == *self,
    {
        PresencePlayback {
            token: self.token,
            anime_title: self.anime_title.clone(),
            episode: self.episode.clone(),
            total_episodes: self.total_episodes,
            player: self.player,
            mode: self.mode.clone(),
            quality: self.quality.clone(),
            started_at_unix: self.started_at_unix,
            metadata: match &self.metadata {
                Some(m) => Some(m.duplicate()),
                None => None,
            },
        }
    }
}

/// How the worker can follow a running player.
pub enum PlayerActivityMonitor {
    /// mpv's JSON IPC socket or pipe.
    Mpv { endpoint: String },
}

/// Playback progress as the player reports it: the position rounded down and
/// the duration rounded up to whole seconds, and whether it is paused.
#[derive(Debug)]
pub struct TimelineState {
    pub position_secs: Option<i64>,
    pub duration_secs: Option<i64>,
    pub paused: bool,
}

impl TimelineState {
    /// Nothing reported yet.
    pub fn new() -> (r: TimelineState)
        ensures
            r.position_secs is None,
            r.duration_secs is None,
            !r.paused,
    {
        TimelineState { position_secs: None, duration_secs: None, paused: false }
    }

    /// A copy.
    pub fn duplicate(&self) -> (r: TimelineState)
        ensures
            r == *self,
    {
        TimelineState {
            position_secs: self.position_secs,
            duration_secs: self.duration_secs,
            paused: self.paused,
        }
    }
}

/// Messages to the presence worker.
pub enum PresenceCommand {
    Start(PresencePlayback, Option<PlayerActivityMonitor>),
    Stop(u64),
    Timeline { token: u64, timeline: TimelineState },
    Ended(u64),
    Shutdown,
}

/// What the worker asks its Discord connection (or the host) to do.
pub enum PresenceAction {
    /// Show the activity for this playback and progress.
    Show { playback: PresencePlayback, timeline: TimelineState },
    /// Follow the player on this endpoint, tagging reports with the token.
    Watch { token: u64, endpoint: String },
    /// Clear the shown activity.
    Clear,
    /// Close the connection and stop.
    Close,
}

/// The worker's memory: the token and playback it is showing, if any.
pub struct PresenceWorker {
    pub active_token: Option<u64>,
    pub active_playback: Option<PresencePlayback>,
}

/// The worker state after a command (the state only; see `handle`).
pub open spec fn worker_after(
    token: Option<u64>,
    playback: Option<PresencePlayback>,
    cmd: PresenceCommand,
) -> (Option<u64>, Option<PresencePlayback>) {
    match cmd {
        PresenceCommand::Start(p, _) => (Some(p.token), Some(p)),
        PresenceCommand::Stop(t) => if token == Some(t) {
            (None, None)
        } else {
            (token, playback)
        },
        PresenceCommand::Ended(t) => if token == Some(t) {
            (None, None)
        } else {
            (token, playback)
        },
        _ => (token, playback),
    }
}

impl PresenceWorker {
    /// A worker showing nothing.
    pub fn new() -> (r: PresenceWorker)
        ensures
            r.active_token is None,
            r.active_playback is None,
    {
        PresenceWorker { active_token: None, active_playback: None }
    }

    /// Handles one command. Starting shows the playback (and follows the
    /// player when a monitor is given); progress and stop/end reports count
    /// only for the active token; shutting down clears and closes.
    pub fn handle(&mut self, cmd: PresenceCommand) -> (r: Vec<PresenceAction>)
        ensures
            (final(self).active_token, final(self).active_playback) == worker_after(
                old(self).active_token,
                old(self).active_playback,
                cmd,
            ),
            cmd matches PresenceCommand::Start(p, m) ==> r@.len() == (if m is Some {
                2int
            } else {
                1int
            }) && r@[0] == (PresenceAction::Show { playback: p, timeline: TimelineState {
                position_secs: None,
                duration_secs: None,
                paused: false,
            } }) && (m matches Some(PlayerActivityMonitor::Mpv { endpoint }) ==> r@[1] == (
            PresenceAction::Watch { token: p.token, endpoint })),
            cmd matches PresenceCommand::Timeline { token, timeline } ==> if old(self).active_token
                == Some(token) && old(self).active_playback is Some {
                r@ == seq![
                    PresenceAction::Show {
                        playback: old(self).active_playback->Some_0,
                        timeline,
                    },
                ]
            } else {
                r@.len() == 0
            },
            cmd matches PresenceCommand::Stop(t) ==> r@ == (if old(self).active_token == Some(t) {
                seq![PresenceAction::Clear]
            } else {
                Seq::<PresenceAction>::empty()
            }),
            cmd matches PresenceCommand::Ended(t) ==> r@ == (if old(self).active_token == Some(t) {
                seq![PresenceAction::Clear]
            } else {
                Seq::<PresenceAction>::empty()
            }),
            cmd is Shutdown ==> r@ == seq![PresenceAction::Clear, PresenceAction::Close],
    {
        let mut out: Vec<PresenceAction> = Vec::new();
        match cmd {
            PresenceCommand::Start(playback, monitor) => {
                self.active_token = Some(playback.token);
                let shown = playback.duplicate();
                let token = playback.token;
                self.active_playback = Some(playback);
                out.push(PresenceAction::Show { playback: shown, timeline: TimelineState::new() });
                match monitor {
                    Some(PlayerActivityMonitor::Mpv { endpoint }) => {
                        out.push(PresenceAction::Watch { token, endpoint });
                    },
                    None => {},
                }
            },
            PresenceCommand::Timeline { token, timeline } => {
                if self.active_token == Some(token) {
                    match &self.active_playback {
                        Some(p) => {
                            out.push(PresenceAction::Show { playback: p.duplicate(), timeline });
                        },
                        None => {},
                    }
                }
            },
            PresenceCommand::Stop(t) => {
                if self.active_token == Some(t) {
                    self.active_token = None;
                    self.active_playback = None;
                    out.push(PresenceAction::Clear);
                }
            },
            PresenceCommand::Ended(t) => {
                if self.active_token == Some(t) {
                    self.active_token = None;
                    self.active_playback = None;
                    out.push(PresenceAction::Clear);
                }
            },
            PresenceCommand::Shutdown => {
                out.push(PresenceAction::Clear);
                out.push(PresenceAction::Close);
            },
        }
        out
    }
}

/// A stop or end report for a token other than the active one changes
/// nothing.
pub proof fn lemma_foreign_stop_ignored(
    token: Option<u64>,
    playback: Option<PresencePlayback>,
    t: u64,
)
    requires
        token != Some(t),
    ensures
        worker_after(token, playback, PresenceCommand::Stop(t)) == (token, playback),
        worker_after(token, playback, PresenceCommand::Ended(t)) == (token, playback),
{
}

/// Starting a playback and then stopping its token leaves the worker idle,
/// whatever it showed before.
pub proof fn lemma_start_then_stop_idles(
    token: Option<u64>,
    playback: Option<PresencePlayback>,
    p: PresencePlayback,
    m: Option<PlayerActivityMonitor>,
)
    ensures
        ({
            let s = worker_after(token, playback, PresenceCommand::Start(p, m));
            worker_after(s.0, s.1, PresenceCommand::Stop(p.token))
        }) == (None::<u64>, None::<PresencePlayback>),
{
}

/// A `property-change` event applied to the timeline: `time-pos` and
/// `duration` set the position or duration from a numeric `data` (clearing it
/// otherwise), `pause` sets the paused flag from a boolean `data` (false
/// otherwise); any other property is not applied.
pub open spec fn property_change(t: TimelineState, name: Option<Seq<char>>, data: Option<JsonValue>) -> (
    TimelineState,
    bool,
) {
    if name == Some("time-pos"@) {
        (
            TimelineState {
                position_secs: match data {
                    Some(JsonValue::Number(n)) => Some(n.floor),
                    _ => None,
                },
                ..t
            },
            true,
        )
    } else if name == Some("duration"@) {
        (
            TimelineState {
                duration_secs: match data {
                    Some(JsonValue::Number(n)) => Some(n.ceil),
                    _ => None,
                },
                ..t
            },
            true,
        )
    } else if name == Some("pause"@) {
        (
            TimelineState {
                paused: match data {
                    Some(JsonValue::Bool(b)) => b,
                    _ => false,
                },
                ..t
            },
            true,
        )
    } else {
        (t, false)
    }
}

/// The text of an optional JSON string member.
pub open spec fn str_member(v: Option<JsonValue>) -> Option<Seq<char>> {
    match v {
        Some(JsonValue::String(s)) => Some(s@),
        _ => None,
    }
}

/// Applies an mpv `property-change` event to the timeline; true when the
/// property was one of those followed.
pub fn apply_property_change(timeline: &mut TimelineState, value: &JsonValue) -> (r: bool)
    ensures
        (*final(timeline), r) == property_change(
            *old(timeline),
            str_member(crate::json::json_get(*value, "name"@)),
            crate::json::json_get(*value, "data"@),
        ),
{
    let name = match value.get("name") {
        Some(JsonValue::String(s)) => Some(s),
        _ => None,
    };
    let data = value.get("data");
    match name {
        Some(n) => {
            if text_eq(n.as_str(), "time-pos") {
                timeline.position_secs = match data {
                    Some(JsonValue::Number(x)) => Some(x.floor),
                    _ => None,
                };
                true
            } else if text_eq(n.as_str(), "duration") {
                timeline.duration_secs = match data {
                    Some(JsonValue::Number(x)) => Some(x.ceil),
                    _ => None,
                };
                true
            } else if text_eq(n.as_str(), "pause") {
                timeline.paused = match data {
                    Some(JsonValue::Bool(b)) => *b,
                    _ => false,
                };
                true
            } else {
                false
            }
        },
        None => false,
    }
}

/// A reply to a `get_property` request applied to the timeline: a boolean is
/// the paused flag; a number fills the position if it is unknown, else the
/// duration if that is unknown; anything else is not applied.
pub open spec fn property_reply(t: TimelineState, data: Option<JsonValue>) -> (TimelineState, bool) {
    match data {
        Some(JsonValue::Bool(b)) => (TimelineState { paused: b, ..t }, true),
        Some(JsonValue::Number(n)) => if t.position_secs is None {
            (TimelineState { position_secs: Some(n.floor), ..t }, true)
        } else if t.duration_secs is None {
            (TimelineState { duration_secs: Some(n.ceil), ..t }, true)
        } else {
            (t, true)
        },
        _ => (t, false),
    }
}

/// Applies a successful `get_property` reply; true when it carried a boolean
/// or a number.
pub fn apply_property_reply(timeline: &mut TimelineState, value: &JsonValue) -> (r: bool)
    ensures
        (*final(timeline), r) == property_reply(*old(timeline), crate::json::json_get(*value, "data"@)),
{
    match value.get("data") {
        Some(JsonValue::Bool(b)) => {
            timeline.paused = *b;
            true
        },
        Some(JsonValue::Number(n)) => {
            if timeline.position_secs.is_none() {
                timeline.position_secs = Some(n.floor);
            } else if timeline.duration_secs.is_none() {
                timeline.duration_secs = Some(n.ceil);
            }
            true
        },
        _ => false,
    }
}

/// What one message from mpv meant for the followed playback.
#[derive(Debug, PartialEq, Eq, Structural, Clone, Copy)]
pub enum MpvMessage {
    /// The file ended: stop following.
    Ended,
    /// The message was read; true when it changed the timeline.
    Timeline(bool),
}

/// One message from mpv's IPC applied to the timeline: `end-file` ends the
/// playback, `property-change` is applied as such, any other event is
/// ignored, and a message without an event is a `get_property` reply, applied
/// when its `error` is `success`.
pub open spec fn mpv_message(t: TimelineState, value: JsonValue) -> (TimelineState, MpvMessage) {
    let event = str_member(crate::json::json_get(value, "event"@));
    if event == Some("end-file"@) {
        (t, MpvMessage::Ended)
    } else if event == Some("property-change"@) {
        let (next, changed) = property_change(
            t,
            str_member(crate::json::json_get(value, "name"@)),
            crate::json::json_get(value, "data"@),
        );
        (next, MpvMessage::Timeline(changed))
    } else if event is Some {
        (t, MpvMessage::Timeline(false))
    } else if str_member(crate::json::json_get(value, "error"@)) == Some("success"@) {
        let (next, changed) = property_reply(t, crate::json::json_get(value, "data"@));
        (next, MpvMessage::Timeline(changed))
    } else {
        (t, MpvMessage::Timeline(false))
    }
}

/// Reads one message from mpv into the timeline (see `mpv_message`).
pub fn apply_mpv_message(timeline: &mut TimelineState, value: &JsonValue) -> (r: MpvMessage)
    ensures
        (*final(timeline), r) == mpv_message(*old(timeline), *value),
{
    let event = match value.get("event") {
        Some(JsonValue::String(s)) => Some(s),
        _ => None,
    };
    match event {
        Some(e) => {
            if text_eq(e.as_str(), "end-file") {
                MpvMessage::Ended
            } else if text_eq(e.as_str(), "property-change") {
                MpvMessage::Timeline(apply_property_change(timeline, value))
            } else {
                MpvMessage::Timeline(false)
            }
        },
        None => {
            let success = match value.get("error") {
                Some(JsonValue::String(s)) => text_eq(s.as_str(), "success"),
                _ => false,
            };
            if success {
                MpvMessage::Timeline(apply_property_reply(timeline, value))
            } else {
                MpvMessage::Timeline(false)
            }
        },
    }
}

/// Whether a timeline update may go out at `now_ms` after the last one at
/// `*last_emit_ms`; when it may, `now_ms` becomes the last one. A clock that
/// went backwards counts as no time elapsed.
pub fn should_emit_timeline(last_emit_ms: &mut u64, now_ms: u64) -> (r: bool)
    ensures
        r == (now_ms >= *old(last_emit_ms) && now_ms - *old(last_emit_ms)
            >= DISCORD_UPDATE_DEBOUNCE_MS),
        *final(last_emit_ms) == (if r {
            now_ms
        } else {
            *old(last_emit_ms)
        }),
{
    let elapsed = if now_ms >= *last_emit_ms {
        now_ms - *last_emit_ms
    } else {
        0
    };
    if elapsed >= DISCORD_UPDATE_DEBOUNCE_MS {
        *last_emit_ms = now_ms;
        true
    } else {
        false
    }
}

/// The state line: `Episode E/T` (or `Episode E`), the mode upper-cased, the
/// quality and the player, joined by ` • `.
pub open spec fn state_line(p: PresencePlayback) -> Seq<char> {
    let episode = match p.total_episodes {
        Some(t) => "Episode "@ + p.episode@ + "/"@ + decimal(t as nat),
        None => "Episode "@ + p.episode@,
    };
    episode + " • "@ + uppercase(p.mode@) + " • "@ + p.quality@ + " • "@ + player_name(p.player)
}

fn concat(a: String, b: &str) -> (r: String)
    ensures
        r@ == a@ + b@,
{
    crate::text::join_str(a.as_str(), b)
}

/// The activity's state line for a playback.
pub fn build_state(playback: &PresencePlayback) -> (r: String)
    ensures
        r@ == state_line(*playback),
{
    let mut s = concat("Episode ".to_owned(), playback.episode.as_str());
    match playback.total_episodes {
        Some(t) => {
            s = concat(s, "/");
            let d = decimal_text(t as u64);
            s = concat(s, d.as_str());
        },
        None => {},
    }
    s = concat(s, " • ");
    let m = to_uppercase(playback.mode.as_str());
    s = concat(s, m.as_str());
    s = concat(s, " • ");
    s = concat(s, playback.quality.as_str());
    s = concat(s, " • ");
    s = concat(s, playback.player.name());
    proof {
        reveal_strlit("Episode ");
        reveal_strlit("/");
        reveal_strlit(" • ");
    }
    assert(s@ =~= state_line(*playback));
    s
}

/// `x` clamped to the `i64` range.
pub open spec fn clamp_i64(x: int) -> i64 {
    if x < i64::MIN {
        i64::MIN
    } else if x > i64::MAX {
        i64::MAX
    } else {
        x as i64
    }
}

/// The activity's start and end (Unix seconds): with a known position and
/// duration the start is `now - position` and the end `start + duration`
/// (saturating), and a paused player shows no end; otherwise the start is
/// when the session began and there is no end.
pub open spec fn timestamps(started_at: i64, t: TimelineState, now: i64) -> (i64, Option<i64>) {
    match (t.position_secs, t.duration_secs) {
        (Some(pos), Some(dur)) => {
            let start = clamp_i64(now - pos);
            if t.paused {
                (start, None)
            } else {
                (start, Some(clamp_i64(start + dur)))
            }
        },
        _ => (started_at, None),
    }
}

fn saturating_sub_i64(a: i64, b: i64) -> (r: i64)
    ensures
        r == clamp_i64(a - b),
{
    match a.checked_sub(b) {
        Some(v) => v,
        None => if b > 0 {
            i64::MIN
        } else {
            i64::MAX
        },
    }
}

fn saturating_add_i64(a: i64, b: i64) -> (r: i64)
    ensures
        r == clamp_i64(a + b),
{
    match a.checked_add(b) {
        Some(v) => v,
        None => if b > 0 {
            i64::MAX
        } else {
            i64::MIN
        },
    }
}

/// The activity's start and optional end at Unix time `now`.
pub fn build_timestamps(playback: &PresencePlayback, timeline: &TimelineState, now: i64) -> (r: (
    i64,
    Option<i64>,
))
    ensures
        r == timestamps(playback.started_at_unix, *timeline, now),
{
    match (timeline.position_secs, timeline.duration_secs) {
        (Some(pos), Some(dur)) => {
            let start = saturating_sub_i64(now, pos);
            if timeline.paused {
                (start, None)
            } else {
                (start, Some(saturating_add_i64(start, dur)))
            }
        },
        _ => (playback.started_at_unix, None),
    }
}

/// The hover text of the cover: media type, `N eps`, `Score S`, and the
/// season with its year (or either alone), those present joined by ` • `.
pub open spec fn large_text(m: PresenceMetadata) -> Seq<char> {
    let parts = Seq::<Seq<char>>::empty();
    let parts = match m.media_type {
        Some(t) => parts.push(t@),
        None => parts,
    };
    let parts = match m.episode_count {
        Some(e) => parts.push(decimal(e as nat) + " eps"@),
        None => parts,
    };
    let parts = match m.score_label {
        Some(s) => parts.push("Score "@ + s@),
        None => parts,
    };
    let parts = match (m.season, m.year) {
        (Some(s), Some(y)) => parts.push(s@ + " "@ + signed_decimal(y as int)),
        (Some(s), None) => parts.push(s@),
        (None, Some(y)) => parts.push(signed_decimal(y as int)),
        (None, None) => parts,
    };
    joined(parts, " • "@)
}

/// The decimal text of a signed number.
pub open spec fn signed_decimal(n: int) -> Seq<char> {
    if n < 0 {
        "-"@ + decimal((-n) as nat)
    } else {
        decimal(n as nat)
    }
}

/// The parts joined with `sep` between them.
pub open spec fn joined(parts: Seq<Seq<char>>, sep: Seq<char>) -> Seq<char>
    decreases parts.len(),
{
    if parts.len() == 0 {
        Seq::empty()
    } else if parts.len() == 1 {
        parts[0]
    } else {
        joined(parts.drop_last(), sep) + sep + parts.last()
    }
}

fn signed_decimal_text(n: i32) -> (r: String)
    ensures
        r@ == signed_decimal(n as int),
{
    if n < 0 {
        let m: u64 = (0i64 - n as i64) as u64;
        let d = decimal_text(m);
        proof {
            reveal_strlit("-");
        }
        crate::text::join_str("-", d.as_str())
    } else {
        decimal_text(n as u64)
    }
}

fn push_part(out: &mut String, count: &mut usize, part: &str, Ghost(parts): Ghost<Seq<Seq<char>>>)
    requires
        old(out)@ == joined(parts, " • "@),
        *old(count) == parts.len(),
        parts.len() < usize::MAX,
    ensures
        final(out)@ == joined(parts.push(part@), " • "@),
        *final(count) == parts.len() + 1,
{
    let ghost ps = parts.push(part@);
    assert(ps.drop_last() =~= parts);
    if *count == 0 {
        *out = part.to_owned();
    } else {
        proof {
            reveal_strlit(" • ");
        }
        let with_sep = crate::text::join_str(out.as_str(), " • ");
        *out = crate::text::join_str(with_sep.as_str(), part);
    }
    *count = *count + 1;
}

/// The hover text for the cover image.
pub fn build_large_text(metadata: &PresenceMetadata) -> (r: String)
    ensures
        r@ == large_text(*metadata),
{
    let mut out = String::new();
    let mut count: usize = 0;
    let ghost mut parts = Seq::<Seq<char>>::empty();
    match &metadata.media_type {
        Some(t) => {
            push_part(&mut out, &mut count, t.as_str(), Ghost(parts));
            proof {
                parts = parts.push(t@);
            }
        },
        None => {},
    }
    match metadata.episode_count {
        Some(e) => {
            let d = decimal_text(e as u64);
            proof {
                reveal_strlit(" eps");
            }
            let p = crate::text::join_str(d.as_str(), " eps");
            push_part(&mut out, &mut count, p.as_str(), Ghost(parts));
            proof {
                parts = parts.push(p@);
            }
        },
        None => {},
    }
    match &metadata.score_label {
        Some(s) => {
            proof {
                reveal_strlit("Score ");
            }
            let p = crate::text::join_str("Score ", s.as_str());
            push_part(&mut out, &mut count, p.as_str(), Ghost(parts));
            proof {
                parts = parts.push(p@);
            }
        },
        None => {},
    }
    match (&metadata.season, metadata.year) {
        (Some(s), Some(y)) => {
            proof {
                reveal_strlit(" ");
            }
            let a = crate::text::join_str(s.as_str(), " ");
            let yd = signed_decimal_text(y);
            let p = crate::text::join_str(a.as_str(), yd.as_str());
            push_part(&mut out, &mut count, p.as_str(), Ghost(parts));
            proof {
                parts = parts.push(p@);
            }
        },
        (Some(s), None) => {
            push_part(&mut out, &mut count, s.as_str(), Ghost(parts));
            proof {
                parts = parts.push(s@);
            }
        },
        (None, Some(y)) => {
            let yd = signed_decimal_text(y);
            push_part(&mut out, &mut count, yd.as_str(), Ghost(parts));
            proof {
                parts = parts.push(yd@);
            }
        },
        (None, None) => {},
    }
    assert(parts =~= {
        let q = Seq::<Seq<char>>::empty();
        let q = match metadata.media_type {
            Some(t) => q.push(t@),
            None => q,
        };
        let q = match metadata.episode_count {
            Some(e) => q.push(decimal(e as nat) + " eps"@),
            None => q,
        };
        let q = match metadata.score_label {
            Some(s) => q.push("Score "@ + s@),
            None => q,
        };
        match (metadata.season, metadata.year) {
            (Some(s), Some(y)) => q.push(s@ + " "@ + signed_decimal(y as int)),
            (Some(s), None) => q.push(s@),
            (None, Some(y)) => q.push(signed_decimal(y as int)),
            (None, None) => q,
        }
    });
    out
}

/// What a Discord activity shows for a playback.
#[derive(Debug)]
pub struct ActivityPlan {
    pub details: String,
    pub state: String,
    pub start: i64,
    pub end: Option<i64>,
    pub large_image: Option<String>,
    pub large_text: Option<String>,
    pub large_url: Option<String>,
    pub details_url: Option<String>,
}

/// The activity for a playback and timeline at Unix time `now`: the catalog
/// title (else the show's title) as details, the state line, the timestamps,
/// and from the metadata the cover, its non-empty hover text and the link.
pub open spec fn activity_for(p: PresencePlayback, t: TimelineState, now: i64, a: ActivityPlan) -> bool {
    &&& a.details@ == (match p.metadata {
        Some(m) => match m.canonical_title {
            Some(c) => c@,
            None => p.anime_title@,
        },
        None => p.anime_title@,
    })
    &&& a.state@ == state_line(p)
    &&& (a.start, a.end) == timestamps(p.started_at_unix, t, now)
    &&& match p.metadata {
        Some(m) => {
            &&& opt_view(a.large_image) == opt_view(m.image_url)
            &&& opt_view(a.large_text) == (if large_text(m).len() > 0 {
                Some(large_text(m))
            } else {
                None
            })
            &&& opt_view(a.large_url) == opt_view(m.external_url)
            &&& opt_view(a.details_url) == opt_view(m.external_url)
        },
        None => {
            &&& a.large_image is None
            &&& a.large_text is None
            &&& a.large_url is None
            &&& a.details_url is None
        },
    }
}

/// Plans the Discord activity for a playback at Unix time `now`.
pub fn build_activity(playback: &PresencePlayback, timeline: &TimelineState, now: i64) -> (r:
    ActivityPlan)
    ensures
        activity_for(*playback, *timeline, now, r),
{
    let details = match &playback.metadata {
        Some(m) => match &m.canonical_title {
            Some(c) => c.clone(),
            None => playback.anime_title.clone(),
        },
        None => playback.anime_title.clone(),
    };
    let state = build_state(playback);
    let (start, end) = build_timestamps(playback, timeline, now);
    match &playback.metadata {
        Some(m) => {
            let hover = build_large_text(m);
            let large_text = if hover.as_str().is_empty() {
                None
            } else {
                Some(hover)
            };
            ActivityPlan {
                details,
                state,
                start,
                end,
                large_image: m.image_url.clone(),
                large_text,
                large_url: m.external_url.clone(),
                details_url: m.external_url.clone(),
            }
        },
        None => ActivityPlan {
            details,
            state,
            start,
            end,
            large_image: None,
            large_text: None,
            large_url: None,
            details_url: None,
        },
    }
}

/// The text member `key` of a JSON object, if it is a string.
pub open spec fn text_at(v: JsonValue, key: Seq<char>) -> Option<Seq<char>> {
    crate::json::json_str(crate::json::json_get(v, key))
}

/// The text at a path of object keys, if it is a string.
pub open spec fn text_at_path(v: JsonValue, keys: Seq<Seq<char>>) -> Option<Seq<char>> {
    crate::json::json_str(crate::json::json_path(v, keys))
}

/// The first of two optional texts that is present.
pub open spec fn or_text(a: Option<Seq<char>>, b: Option<Seq<char>>) -> Option<Seq<char>> {
    if a is Some {
        a
    } else {
        b
    }
}

/// The first entry of a Jikan search response's `data` array.
pub open spec fn first_hit(json: JsonValue) -> Option<JsonValue> {
    match crate::json::json_array(crate::json::json_get(json, "data"@)) {
        Some(items) => if items.len() > 0 {
            Some(items[0])
        } else {
            None
        },
        None => None,
    }
}

/// The presence facts read from a Jikan entry: English title (else the
/// title), the large WebP cover (else large JPEG, else JPEG), the page URL,
/// the media type, the episode count (else the hint), the score to one
/// decimal, the season capitalized, and the year.
pub open spec fn metadata_from(e: JsonValue, hint: Option<u32>, m: PresenceMetadata) -> bool {
    &&& opt_view(m.canonical_title) == or_text(text_at(e, "title_english"@), text_at(e, "title"@))
    &&& opt_view(m.image_url) == or_text(
        text_at_path(e, seq!["images"@, "webp"@, "large_image_url"@]),
        or_text(
            text_at_path(e, seq!["images"@, "jpg"@, "large_image_url"@]),
            text_at_path(e, seq!["images"@, "jpg"@, "image_url"@]),
        ),
    )
    &&& opt_view(m.external_url) == text_at(e, "url"@)
    &&& opt_view(m.media_type) == text_at(e, "type"@)
    &&& m.episode_count == match crate::json::json_u64(crate::json::json_get(e, "episodes"@)) {
        Some(v) => Some(v as u32),
        None => hint,
    }
    &&& opt_view(m.score_label) == match crate::json::json_get(e, "score"@) {
        Some(JsonValue::Number(n)) => Some(n.one_decimal@),
        _ => None,
    }
    &&& opt_view(m.season) == match text_at(e, "season"@) {
        Some(t) => Some(crate::jikan::capitalized(t)),
        None => None,
    }
    &&& m.year == match crate::json::json_i64(crate::json::json_get(e, "year"@)) {
        Some(v) => Some(v as i32),
        None => None,
    }
}

fn text_member(v: &JsonValue, key: &str) -> (r: Option<String>)
    ensures
        opt_view(r) == crate::json::json_str(crate::json::json_get(*v, key@)),
{
    match v.get(key) {
        Some(JsonValue::String(s)) => Some(s.clone()),
        _ => None,
    }
}

fn text_path3(v: &JsonValue, a: &str, b: &str, c: &str) -> (r: Option<String>)
    ensures
        opt_view(r) == text_at_path(*v, seq![a@, b@, c@]),
{
    proof {
        reveal_with_fuel(crate::json::json_path, 4);
        let keys = seq![a@, b@, c@];
        assert(keys.skip(1) =~= seq![b@, c@]);
        assert(keys.skip(1).skip(1) =~= seq![c@]);
        assert(keys.skip(1).skip(1).skip(1) =~= Seq::<Seq<char>>::empty());
    }
    match v.get(a) {
        Some(x) => match x.get(b) {
            Some(y) => text_member(y, c),
            None => None,
        },
        None => None,
    }
}

/// Reads the presence facts of the first hit of a Jikan anime search;
/// `None` when the response has no hit.
pub fn parse_presence_metadata(json: &JsonValue, episode_count_hint: Option<u32>) -> (r: Option<
    PresenceMetadata,
>)
    ensures
        first_hit(*json) is None ==> r is None,
        first_hit(*json) matches Some(e) ==> (r matches Some(m) && metadata_from(
            e,
            episode_count_hint,
            m,
        )),
{
    let first = match json.get("data") {
        Some(JsonValue::Array(items)) => {
            if items.len() == 0 {
                return None;
            }
            &items[0]
        },
        _ => {
            return None;
        },
    };
    let canonical_title = match text_member(first, "title_english") {
        Some(t) => Some(t),
        None => text_member(first, "title"),
    };
    let image_url = match text_path3(first, "images", "webp", "large_image_url") {
        Some(u) => Some(u),
        None => match text_path3(first, "images", "jpg", "large_image_url") {
            Some(u) => Some(u),
            None => text_path3(first, "images", "jpg", "image_url"),
        },
    };
    let external_url = text_member(first, "url");
    let media_type = text_member(first, "type");
    let episode_count = match first.get("episodes") {
        Some(e) => match e.as_u64() {
            Some(v) => Some(v as u32),
            None => episode_count_hint,
        },
        None => episode_count_hint,
    };
    let score_label = match first.get("score") {
        Some(JsonValue::Number(n)) => Some(n.one_decimal.clone()),
        _ => None,
    };
    let season = match text_member(first, "season") {
        Some(t) => Some(crate::jikan::capitalize_first(t.as_str())),
        None => None,
    };
    let year = match first.get("year") {
        Some(y) => match y.as_i64() {
            Some(v) => Some(v as i32),
            None => None,
        },
        None => None,
    };
    Some(
        PresenceMetadata {
            canonical_title,
            image_url,
            external_url,
            media_type,
            episode_count,
            score_label,
            season,
            year,
        },
    )
}

} // verus!
