//! Choosing an external player and the command line that hands it a stream.

use vstd::prelude::*;

use crate::domain::PlayerType;
use crate::presence::joined;
use crate::text::{chars_of, join_str, replace_all, string_of, vec_replace_all};

verus! {

/// Where IINA's command-line tool is installed on macOS.
pub const IINA_CLI_PATH: &'static str = "/Applications/IINA.app/Contents/MacOS/iina-cli";

/// The player to use: IINA when its command-line tool is installed (checked
/// on macOS only), else mpv when it is found, else VLC when it is found, else
/// mpv.
pub open spec fn detected(iina: bool, mpv: bool, vlc: bool) -> PlayerType {
    if iina {
        PlayerType::Iina
    } else if mpv {
        PlayerType::Mpv
    } else if vlc {
        PlayerType::Vlc
    } else {
        PlayerType::Mpv
    }
}

impl PlayerType {
    /// Picks the player from what was found installed.
    pub fn detect(iina_available: bool, mpv_available: bool, vlc_available: bool) -> (r:
        PlayerType)
        ensures
            r == detected(iina_available, mpv_available, vlc_available),
    {
        if iina_available {
            PlayerType::Iina
        } else if mpv_available {
            PlayerType::Mpv
        } else if vlc_available {
            PlayerType::Vlc
        } else {
            PlayerType::Mpv
        }
    }
}

/// The executable names searched for on `PATH`, in order.
pub open spec fn binary_candidates(player: PlayerType, windows: bool) -> Seq<Seq<char>> {
    match player {
        PlayerType::Mpv => if windows {
            seq!["mpv.exe"@, "mpv.com"@, "mpv"@]
        } else {
            seq!["mpv"@]
        },
        PlayerType::Vlc => if windows {
            seq!["vlc.exe"@, "vlc"@]
        } else {
            seq!["vlc"@]
        },
        PlayerType::Iina => seq!["iina-cli"@],
    }
}

/// The file names to look for when locating `player`.
pub fn player_binary_candidates(player: PlayerType, windows: bool) -> (r: Vec<&'static str>)
    ensures
        r@.len() == binary_candidates(player, windows).len(),
        forall|i: int| 0 <= i < r@.len() ==> #[trigger] r@[i]@ == binary_candidates(player, windows)[i],
{
    let mut r: Vec<&'static str> = Vec::new();
    match player {
        PlayerType::Mpv => {
            if windows {
                r.push("mpv.exe");
                r.push("mpv.com");
            }
            r.push("mpv");
        },
        PlayerType::Vlc => {
            if windows {
                r.push("vlc.exe");
            }
            r.push("vlc");
        },
        PlayerType::Iina => {
            r.push("iina-cli");
        },
    }
    r
}

/// `[prefix + v]` when there is a value, else nothing.
pub open spec fn opt_arg(prefix: Seq<char>, v: Option<Seq<char>>) -> Seq<Seq<char>> {
    match v {
        Some(x) => seq![prefix + x],
        None => Seq::empty(),
    }
}

/// The view of an optional text.
pub open spec fn opt_str(v: Option<&str>) -> Option<Seq<char>> {
    match v {
        Some(x) => Some(x@),
        None => None,
    }
}

/// The arguments each player is started with: the title, referrer and
/// subtitle options it knows (VLC takes no subtitle), IINA's `--keep-running`
/// unless it already runs, and the stream URL last.
pub open spec fn launch_args(
    player: PlayerType,
    iina_running: bool,
    url: Seq<char>,
    title: Seq<char>,
    referer: Option<Seq<char>>,
    subtitle: Option<Seq<char>>,
) -> Seq<Seq<char>> {
    match player {
        PlayerType::Iina => seq!["--no-stdin"@, "--mpv-force-media-title="@ + title] + opt_arg(
            "--mpv-referrer="@,
            referer,
        ) + opt_arg("--mpv-sub-file="@, subtitle) + (if iina_running {
            Seq::empty()
        } else {
            seq!["--keep-running"@]
        }) + seq![url],
        PlayerType::Mpv => seq!["--force-media-title="@ + title] + opt_arg("--referrer="@, referer)
            + opt_arg("--sub-file="@, subtitle) + seq![url],
        PlayerType::Vlc => seq!["--play-and-exit"@, "--meta-title="@ + title] + opt_arg(
            "--http-referrer="@,
            referer,
        ) + seq![url],
    }
}

/// The texts of a list of strings.
pub open spec fn texts(v: Seq<String>) -> Seq<Seq<char>> {
    v.map_values(|s: String| s@)
}

/// A program and its arguments.
#[derive(Debug)]
pub struct LaunchPlan {
    pub program: String,
    pub args: Vec<String>,
}

fn push_text(args: &mut Vec<String>, s: String)
    ensures
        texts(final(args)@) == texts(old(args)@).push(s@),
{
    let ghost before = texts(args@);
    args.push(s);
    assert(texts(args@) =~= before.push(s@));
}

fn push_opt(args: &mut Vec<String>, prefix: &str, v: Option<&str>)
    ensures
        texts(final(args)@) == texts(old(args)@) + opt_arg(prefix@, opt_str(v)),
{
    let ghost before = texts(args@);
    match v {
        Some(x) => {
            push_text(args, join_str(prefix, x));
            assert(texts(args@) =~= before + opt_arg(prefix@, opt_str(v)));
        },
        None => {
            assert(texts(args@) =~= before + opt_arg(prefix@, opt_str(v)));
        },
    }
}

/// The arguments to start `player` on a stream.
pub fn player_args(
    player: PlayerType,
    iina_running: bool,
    url: &str,
    title: &str,
    referer: Option<&str>,
    subtitle: Option<&str>,
) -> (r: Vec<String>)
    ensures
        texts(r@) == launch_args(player, iina_running, url@, title@, opt_str(referer), opt_str(subtitle)),
{
    let mut args: Vec<String> = Vec::new();
    assert(texts(args@) =~= Seq::<Seq<char>>::empty());
    match player {
        PlayerType::Iina => {
            push_text(&mut args, "--no-stdin".to_owned());
            push_text(&mut args, join_str("--mpv-force-media-title=", title));
            push_opt(&mut args, "--mpv-referrer=", referer);
            push_opt(&mut args, "--mpv-sub-file=", subtitle);
            let ghost mid = texts(args@);
            if !iina_running {
                push_text(&mut args, "--keep-running".to_owned());
            }
            assert(texts(args@) =~= mid + (if iina_running {
                Seq::<Seq<char>>::empty()
            } else {
                seq!["--keep-running"@]
            }));
            push_text(&mut args, url.to_owned());
        },
        PlayerType::Mpv => {
            push_text(&mut args, join_str("--force-media-title=", title));
            push_opt(&mut args, "--referrer=", referer);
            push_opt(&mut args, "--sub-file=", subtitle);
            push_text(&mut args, url.to_owned());
        },
        PlayerType::Vlc => {
            push_text(&mut args, "--play-and-exit".to_owned());
            push_text(&mut args, join_str("--meta-title=", title));
            push_opt(&mut args, "--http-referrer=", referer);
            push_text(&mut args, url.to_owned());
        },
    }
    assert(texts(args@) =~= launch_args(
        player,
        iina_running,
        url@,
        title@,
        opt_str(referer),
        opt_str(subtitle),
    ));
    args
}

/// Why a player cannot be started, when it cannot: IINA only on macOS, and
/// each player only when its program was found.
pub open spec fn launch_error(player: PlayerType, found: bool, is_macos: bool) -> Option<Seq<char>> {
    match player {
        PlayerType::Iina => if !is_macos {
            Some("IINA is only supported on macOS"@)
        } else if !found {
            Some("IINA not found"@)
        } else {
            None
        },
        PlayerType::Mpv => if !found {
            Some("mpv not found"@)
        } else {
            None
        },
        PlayerType::Vlc => if !found {
            Some("VLC not found"@)
        } else {
            None
        },
    }
}

/// The command that starts `player` (found at `program`, if it was) on a
/// stream, or why it cannot be started.
pub fn plan_launch(
    player: PlayerType,
    program: Option<&str>,
    is_macos: bool,
    iina_running: bool,
    url: &str,
    title: &str,
    referer: Option<&str>,
    subtitle: Option<&str>,
) -> (r: Result<LaunchPlan, String>)
    ensures
        launch_error(player, program is Some, is_macos) matches Some(e) ==> (r matches Err(m)
            && m@ == e),
        launch_error(player, program is Some, is_macos) is None ==> (r matches Ok(plan)
            && program matches Some(p) && plan.program@ == p@ && texts(plan.args@) == launch_args(
            player,
            iina_running,
            url@,
            title@,
            opt_str(referer),
            opt_str(subtitle),
        )),
{
    match player {
        PlayerType::Iina => {
            if !is_macos {
                return Err("IINA is only supported on macOS".to_owned());
            }
        },
        _ => {},
    }
    match program {
        None => match player {
            PlayerType::Iina => Err("IINA not found".to_owned()),
            PlayerType::Mpv => Err("mpv not found".to_owned()),
            PlayerType::Vlc => Err("VLC not found".to_owned()),
        },
        Some(p) => Ok(
            LaunchPlan {
                program: p.to_owned(),
                args: player_args(player, iina_running, url, title, referer, subtitle),
            },
        ),
    }
}

/// `s` in single quotes for `sh`, each `'` inside written as `'\''`.
pub open spec fn shell_quoted(s: Seq<char>) -> Seq<char> {
    seq!['\''] + replace_all(s, seq!['\''], seq!['\'', '\\', '\'', '\'']) + seq!['\'']
}

/// Quotes a text for a POSIX shell command line.
pub fn shell_escape(s: &str) -> (r: String)
    ensures
        r@ == shell_quoted(s@),
{
    let cs = chars_of(s);
    let pat = vec!['\''];
    let rep = vec!['\'', '\\', '\'', '\''];
    assert(pat@ =~= seq!['\'']);
    assert(rep@ =~= seq!['\'', '\\', '\'', '\'']);
    let body = vec_replace_all(&cs, &pat, &rep);
    let mut out: Vec<char> = Vec::new();
    out.push('\'');
    let mut i: usize = 0;
    while i < body.len()
        invariant
            i <= body@.len(),
            out@ == seq!['\''] + body@.take(i as int),
        decreases body@.len() - i,
    {
        out.push(body[i]);
        i += 1;
        assert(out@ =~= seq!['\''] + body@.take(i as int));
    }
    out.push('\'');
    assert(body@.take(body@.len() as int) =~= body@);
    assert(out@ =~= shell_quoted(s@));
    string_of(out.as_slice())
}

/// The arguments of the detached shell launch, each value shell-quoted.
pub open spec fn shell_args(
    player: PlayerType,
    iina_running: bool,
    url: Seq<char>,
    title: Seq<char>,
    referer: Option<Seq<char>>,
    subtitle: Option<Seq<char>>,
) -> Seq<Seq<char>> {
    let q = |o: Option<Seq<char>>|
        match o {
            Some(x) => Some(shell_quoted(x)),
            None => None,
        };
    launch_args(player, iina_running, shell_quoted(url), shell_quoted(title), q(referer), q(subtitle))
}

/// The whole `sh -c` command line: `nohup`, the player (IINA by its quoted
/// path), the quoted arguments separated by spaces, output discarded, in the
/// background.
pub open spec fn shell_line(
    player: PlayerType,
    iina_running: bool,
    url: Seq<char>,
    title: Seq<char>,
    referer: Option<Seq<char>>,
    subtitle: Option<Seq<char>>,
) -> Seq<char> {
    let prog = match player {
        PlayerType::Iina => "'"@ + IINA_CLI_PATH@ + "'"@,
        PlayerType::Mpv => "mpv"@,
        PlayerType::Vlc => "vlc"@,
    };
    "nohup "@ + prog + " "@ + joined(
        shell_args(player, iina_running, url, title, referer, subtitle),
        " "@,
    ) + " >/dev/null 2>&1 &"@
}

fn join_args(args: &Vec<String>) -> (r: String)
    ensures
        r@ == joined(texts(args@), " "@),
{
    let mut out = String::new();
    let mut i: usize = 0;
    while i < args.len()
        invariant
            i <= args@.len(),
            out@ == joined(texts(args@).take(i as int), " "@),
        decreases args@.len() - i,
    {
        let ghost parts = texts(args@).take(i as int);
        assert(texts(args@).take(i + 1).drop_last() =~= parts);
        if i == 0 {
            out = args[i].clone();
        } else {
            let with_sep = join_str(out.as_str(), " ");
            out = join_str(with_sep.as_str(), args[i].as_str());
        }
        i += 1;
    }
    assert(texts(args@).take(args@.len() as int) =~= texts(args@));
    out
}

/// The shell command line that starts `player` detached from the terminal.
pub fn shell_command_line(
    player: PlayerType,
    iina_running: bool,
    url: &str,
    title: &str,
    referer: Option<&str>,
    subtitle: Option<&str>,
) -> (r: String)
    ensures
        r@ == shell_line(player, iina_running, url@, title@, opt_str(referer), opt_str(subtitle)),
{
    let u = shell_escape(url);
    let t = shell_escape(title);
    let re = match referer {
        Some(x) => Some(shell_escape(x)),
        None => None,
    };
    let su = match subtitle {
        Some(x) => Some(shell_escape(x)),
        None => None,
    };
    let re_ref = match &re {
        Some(x) => Some(x.as_str()),
        None => None,
    };
    let su_ref = match &su {
        Some(x) => Some(x.as_str()),
        None => None,
    };
    let args = player_args(player, iina_running, u.as_str(), t.as_str(), re_ref, su_ref);
    let joined_args = join_args(&args);
    let prog = match player {
        PlayerType::Iina => {
            let a = join_str("'", IINA_CLI_PATH);
            join_str(a.as_str(), "'")
        },
        PlayerType::Mpv => "mpv".to_owned(),
        PlayerType::Vlc => "vlc".to_owned(),
    };
    let a = join_str("nohup ", prog.as_str());
    let b = join_str(a.as_str(), " ");
    let c = join_str(b.as_str(), joined_args.as_str());
    join_str(c.as_str(), " >/dev/null 2>&1 &")
}

/// The folders, under each Windows install root, that may hold the player.
pub open spec fn windows_subdirs(player: PlayerType) -> Seq<Seq<char>> {
    match player {
        PlayerType::Mpv => seq!["mpv"@, "mpv.net"@, "Programs\\mpv"@],
        PlayerType::Vlc => seq!["VideoLAN\\VLC"@, "VLC"@],
        PlayerType::Iina => Seq::empty(),
    }
}

/// The program files looked for in those folders.
pub open spec fn windows_exe_names(player: PlayerType) -> Seq<Seq<char>> {
    match player {
        PlayerType::Mpv => seq!["mpv.exe"@, "mpv.com"@],
        PlayerType::Vlc => seq!["vlc.exe"@],
        PlayerType::Iina => Seq::empty(),
    }
}

/// Every `(root, folder, file)` to probe under one root: the folders in
/// order, each with every file name in order.
pub open spec fn probes_under(root: Seq<char>, dirs: Seq<Seq<char>>, names: Seq<Seq<char>>) -> Seq<
    (Seq<char>, Seq<char>, Seq<char>),
>
    decreases dirs.len(),
{
    if dirs.len() == 0 {
        Seq::empty()
    } else {
        probes_under(root, dirs.drop_last(), names) + names.map_values(
            |n: Seq<char>| (root, dirs.last(), n),
        )
    }
}

/// Every `(root, folder, file)` to probe for `player` on Windows, root by
/// root in order.
pub open spec fn windows_probes(player: PlayerType, roots: Seq<Seq<char>>) -> Seq<
    (Seq<char>, Seq<char>, Seq<char>),
>
    decreases roots.len(),
{
    if roots.len() == 0 {
        Seq::empty()
    } else {
        windows_probes(player, roots.drop_last()) + probes_under(
            roots.last(),
            windows_subdirs(player),
            windows_exe_names(player),
        )
    }
}

/// The texts of a list of string slices.
pub open spec fn str_views(v: Seq<&'static str>) -> Seq<Seq<char>> {
    v.map_values(|s: &'static str| s@)
}

/// The texts of a list of probes.
pub open spec fn probe_views(v: Seq<(String, &'static str, &'static str)>) -> Seq<
    (Seq<char>, Seq<char>, Seq<char>),
> {
    v.map_values(|p: (String, &'static str, &'static str)| (p.0@, p.1@, p.2@))
}

fn windows_install_dirs(player: PlayerType) -> (r: Vec<&'static str>)
    ensures
        str_views(r@) == windows_subdirs(player),
{
    let r = match player {
        PlayerType::Mpv => vec!["mpv", "mpv.net", "Programs\\mpv"],
        PlayerType::Vlc => vec!["VideoLAN\\VLC", "VLC"],
        PlayerType::Iina => Vec::new(),
    };
    assert(str_views(r@) =~= windows_subdirs(player));
    r
}

fn windows_exe_files(player: PlayerType) -> (r: Vec<&'static str>)
    ensures
        str_views(r@) == windows_exe_names(player),
{
    let r = match player {
        PlayerType::Mpv => vec!["mpv.exe", "mpv.com"],
        PlayerType::Vlc => vec!["vlc.exe"],
        PlayerType::Iina => Vec::new(),
    };
    assert(str_views(r@) =~= windows_exe_names(player));
    r
}

/// The places to look for `player` on Windows under the given install roots
/// (`ProgramFiles`, `ProgramFiles(x86)` and `LocalAppData`, as set): each
/// root joined with each of the player's folders and then each of its
/// program files, in that order; nothing for IINA.
pub fn windows_player_candidates(player: PlayerType, roots: &Vec<String>) -> (r: Vec<
    (String, &'static str, &'static str),
>)
    ensures
        probe_views(r@) == windows_probes(player, texts(roots@)),
{
    let dirs = windows_install_dirs(player);
    let names = windows_exe_files(player);
    let ghost rv = texts(roots@);
    let ghost dv = windows_subdirs(player);
    let ghost nv = windows_exe_names(player);
    let mut out: Vec<(String, &'static str, &'static str)> = Vec::new();
    let mut i: usize = 0;
    assert(rv.take(0) =~= Seq::<Seq<char>>::empty());
    assert(probe_views(out@) =~= Seq::empty());
    while i < roots.len()
        invariant
            i <= roots@.len(),
            rv == texts(roots@),
            str_views(dirs@) == dv,
            str_views(names@) == nv,
            dv == windows_subdirs(player),
            nv == windows_exe_names(player),
            probe_views(out@) == windows_probes(player, rv.take(i as int)),
        decreases roots@.len() - i,
    {
        let ghost before = probe_views(out@);
        let ghost root = rv[i as int];
        let mut j: usize = 0;
        assert(dv.take(0) =~= Seq::<Seq<char>>::empty());
        assert(before + probes_under(root, dv.take(0), nv) =~= before);
        while j < dirs.len()
            invariant
                i < roots@.len(),
                j <= dirs@.len(),
                rv == texts(roots@),
                root == rv[i as int],
                str_views(dirs@) == dv,
                str_views(names@) == nv,
                probe_views(out@) == before + probes_under(root, dv.take(j as int), nv),
            decreases dirs@.len() - j,
        {
            let ghost mid = probe_views(out@);
            let mut k: usize = 0;
            assert(mid + nv.take(0).map_values(|n: Seq<char>| (root, dv[j as int], n)) =~= mid);
            while k < names.len()
                invariant
                    i < roots@.len(),
                    j < dirs@.len(),
                    k <= names@.len(),
                    rv == texts(roots@),
                    root == rv[i as int],
                    str_views(dirs@) == dv,
                    str_views(names@) == nv,
                    probe_views(out@) == mid + nv.take(k as int).map_values(
                        |n: Seq<char>| (root, dv[j as int], n),
                    ),
                decreases names@.len() - k,
            {
                let item = (roots[i].clone(), dirs[j], names[k]);
                let ghost prev = out@;
                out.push(item);
                assert(probe_views(out@) =~= probe_views(prev).push((root, dv[j as int], nv[k as int])));
                assert(nv.take(k + 1).map_values(|n: Seq<char>| (root, dv[j as int], n))
                    =~= nv.take(k as int).map_values(|n: Seq<char>| (root, dv[j as int], n)).push(
                    (root, dv[j as int], nv[k as int]),
                ));
                k += 1;
            }
            assert(nv.take(nv.len() as int) =~= nv);
            assert(dv.take(j + 1).drop_last() =~= dv.take(j as int));
            assert(dv.take(j + 1).last() == dv[j as int]);
            j += 1;
        }
        assert(dv.take(dv.len() as int) =~= dv);
        assert(rv.take(i + 1).drop_last() =~= rv.take(i as int));
        i += 1;
    }
    assert(rv.take(rv.len() as int) =~= rv);
    out
}

/// The option that hands a player the HTTP referer.
pub open spec fn referrer_option(player: PlayerType) -> Seq<char> {
    match player {
        PlayerType::Iina => "--mpv-referrer="@,
        PlayerType::Mpv => "--referrer="@,
        PlayerType::Vlc => "--http-referrer="@,
    }
}

/// Every player is started with the stream URL as its last argument, with
/// its title option before it, and, when a referer is given,
/// that player's referrer option carrying exactly that referer, placed
/// before the URL; mpv and IINA also get a given subtitle file.
pub proof fn lemma_launch_args_carry_stream_facts(
    player: PlayerType,
    iina_running: bool,
    url: Seq<char>,
    title: Seq<char>,
    referer: Option<Seq<char>>,
    subtitle: Option<Seq<char>>,
)
    ensures
        ({
            let args = launch_args(player, iina_running, url, title, referer, subtitle);
            &&& args.len() >= 2
            &&& args.last() == url
            &&& referer matches Some(r) ==> exists|i: int|
                0 <= i < args.len() - 1 && args[i] == referrer_option(player) + r
            &&& exists|i: int| 0 <= i < args.len() - 1 && args[i] == match player {
                PlayerType::Iina => "--mpv-force-media-title="@ + title,
                PlayerType::Mpv => "--force-media-title="@ + title,
                PlayerType::Vlc => "--meta-title="@ + title,
            }
            &&& (player != PlayerType::Vlc && subtitle is Some) ==> exists|i: int|
                0 <= i < args.len() - 1 && args[i] == (if player == PlayerType::Iina {
                    "--mpv-sub-file="@
                } else {
                    "--sub-file="@
                }) + subtitle->Some_0
        }),
{
    let args = launch_args(player, iina_running, url, title, referer, subtitle);
    match player {
        PlayerType::Iina => {
            let ka: Seq<Seq<char>> = if iina_running { Seq::empty() } else { seq!["--keep-running"@] };
            let ra = opt_arg("--mpv-referrer="@, referer);
            let sa = opt_arg("--mpv-sub-file="@, subtitle);
            assert(args == seq!["--no-stdin"@, "--mpv-force-media-title="@ + title] + ra + sa + ka + seq![url]);
            assert(args[1] == "--mpv-force-media-title="@ + title);
            if let Some(r) = referer {
                assert(args[2] == referrer_option(player) + r);
            }
            if let Some(t) = subtitle {
                assert(args[2 + ra.len() as int] == "--mpv-sub-file="@ + t);
            }
        },
        PlayerType::Mpv => {
            let ra = opt_arg("--referrer="@, referer);
            let sa = opt_arg("--sub-file="@, subtitle);
            assert(args == seq!["--force-media-title="@ + title] + ra + sa + seq![url]);
            assert(args[0] == "--force-media-title="@ + title);
            if let Some(r) = referer {
                assert(args[1] == referrer_option(player) + r);
            }
            if let Some(t) = subtitle {
                assert(args[1 + ra.len() as int] == "--sub-file="@ + t);
            }
        },
        PlayerType::Vlc => {
            let ra = opt_arg("--http-referrer="@, referer);
            assert(args == seq!["--play-and-exit"@, "--meta-title="@ + title] + ra + seq![url]);
            assert(args[1] == "--meta-title="@ + title);
            if let Some(r) = referer {
                assert(args[2] == referrer_option(player) + r);
            }
        },
    }
}

} // verus!
