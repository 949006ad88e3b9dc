//! Built-in configuration values.

use vstd::prelude::*;

use crate::text::{trim_space, trim_text};

verus! {

/// The Discord application id used for rich presence unless one is given.
pub const DEFAULT_DISCORD_CLIENT_ID: &'static str = "1499484972929646702";

/// The built-in Discord client id, trimmed; `None` when it is blank.
pub fn default_discord_client_id() -> (r: Option<String>)
    ensures
        trim_space(DEFAULT_DISCORD_CLIENT_ID@).len() == 0 ==> r is None,
        trim_space(DEFAULT_DISCORD_CLIENT_ID@).len() > 0 ==> (r matches Some(id) && id@
            == trim_space(DEFAULT_DISCORD_CLIENT_ID@)),
{
    let id = trim_text(DEFAULT_DISCORD_CLIENT_ID);
    if id.as_str().is_empty() {
        None
    } else {
        Some(id)
    }
}

/// `s` right-aligned in `width` characters (`{:>width$}`).
pub open spec fn right_aligned(s: Seq<char>, width: nat) -> Seq<char> {
    if s.len() >= width {
        s
    } else {
        Seq::new((width - s.len()) as nat, |i: int| ' ') + s
    }
}

/// One line of the player section of the report.
pub open spec fn player_line(name: Seq<char>, path: Option<Seq<char>>) -> Seq<char> {
    "player "@ + right_aligned(name, 4) + ": "@ + match path {
        Some(p) => "ok ("@ + p + ")"@,
        None => "missing"@,
    } + "\n"@
}

/// The player section: one line per player, in order.
pub open spec fn player_lines(players: Seq<(Seq<char>, Option<Seq<char>>)>) -> Seq<char>
    decreases players.len(),
{
    if players.len() == 0 {
        Seq::empty()
    } else {
        player_lines(players.drop_last()) + player_line(players.last().0, players.last().1)
    }
}

/// The names and found paths of players, as texts.
pub open spec fn player_views(players: Seq<(&str, Option<String>)>) -> Seq<(Seq<char>, Option<Seq<char>>)> {
    players.map_values(|p: (&str, Option<String>)| (p.0@, match p.1 {
        Some(x) => Some(x@),
        None => None,
    }))
}

/// The `doctor` report: version, detected player, each player's location,
/// the data directory, the history database and the API debug setting.
pub open spec fn doctor_text(
    version: Seq<char>,
    detected: Seq<char>,
    players: Seq<(Seq<char>, Option<Seq<char>>)>,
    data_dir: Seq<char>,
    history_db: Seq<char>,
    debug_env: Option<Seq<char>>,
) -> Seq<char> {
    "ani-cli doctor\n"@ + "version: "@ + version + "\n"@ + "detected player: "@ + detected + "\n"@
        + player_lines(players) + "data dir: "@ + data_dir + "\n"@ + "history db: "@ + history_db
        + "\n"@ + "api debug env: "@ + match debug_env {
        Some(v) => v,
        None => "unset"@,
    } + "\n"@
}

fn right_align(s: &str, width: usize) -> (r: String)
    ensures
        r@ == right_aligned(s@, width as nat),
{
    let cs = crate::text::chars_of(s);
    if cs.len() >= width {
        return crate::text::string_of(cs.as_slice());
    }
    let mut out: Vec<char> = Vec::new();
    let pad = width - cs.len();
    let mut i: usize = 0;
    while i < pad
        invariant
            i <= pad,
            out@ == Seq::new(i as nat, |k: int| ' '),
        decreases pad - i,
    {
        out.push(' ');
        i += 1;
        assert(out@ =~= Seq::new(i as nat, |k: int| ' '));
    }
    crate::text::extend_range(&mut out, &cs, 0, cs.len());
    assert(cs@.subrange(0, cs@.len() as int) =~= cs@);
    crate::text::string_of(out.as_slice())
}

fn cat(a: String, b: &str) -> (r: String)
    ensures
        r@ == a@ + b@,
{
    crate::text::join_str(a.as_str(), b)
}

/// Writes the `doctor` report from what was found on this machine.
pub fn doctor_report(
    version: &str,
    detected: &str,
    players: &Vec<(&str, Option<String>)>,
    data_dir: &str,
    history_db: &str,
    debug_env: Option<&str>,
) -> (r: String)
    ensures
        r@ == doctor_text(
            version@,
            detected@,
            player_views(players@),
            data_dir@,
            history_db@,
            match debug_env {
                Some(v) => Some(v@),
                None => None,
            },
        ),
{
    let mut out = cat("ani-cli doctor\n".to_owned(), "version: ");
    out = cat(out, version);
    out = cat(out, "\n");
    out = cat(out, "detected player: ");
    out = cat(out, detected);
    out = cat(out, "\n");
    let ghost head = out@;
    let ghost pv = player_views(players@);
    let mut i: usize = 0;
    assert(pv.take(0) =~= Seq::<(Seq<char>, Option<Seq<char>>)>::empty());
    while i < players.len()
        invariant
            i <= players@.len(),
            pv == player_views(players@),
            pv.len() == players@.len(),
            out@ == head + player_lines(pv.take(i as int)),
        decreases players@.len() - i,
    {
        let (name, path) = &players[i];
        let mut line = cat("player ".to_owned(), right_align(name, 4).as_str());
        line = cat(line, ": ");
        match path {
            Some(p) => {
                line = cat(line, "ok (");
                line = cat(line, p.as_str());
                line = cat(line, ")");
            },
            None => {
                line = cat(line, "missing");
            },
        }
        line = cat(line, "\n");
        proof {
            reveal_strlit("\n");
        }
        assert(pv[i as int] == (name@, match path {
            Some(x) => Some(x@),
            None => None,
        }));
        assert(line@ =~= player_line(pv[i as int].0, pv[i as int].1));
        assert(pv.take(i + 1).drop_last() =~= pv.take(i as int));
        out = cat(out, line.as_str());
        i += 1;
    }
    assert(pv.take(players@.len() as int) =~= pv);
    out = cat(out, "data dir: ");
    out = cat(out, data_dir);
    out = cat(out, "\n");
    out = cat(out, "history db: ");
    out = cat(out, history_db);
    out = cat(out, "\n");
    out = cat(out, "api debug env: ");
    match debug_env {
        Some(v) => {
            out = cat(out, v);
        },
        None => {
            out = cat(out, "unset");
        },
    }
    out = cat(out, "\n");
    out
}

} // verus!
