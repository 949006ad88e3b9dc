use ani_cli::domain::PlayerType;
use ani_cli::player::{
    plan_launch, player_args, player_binary_candidates, shell_command_line, shell_escape,
    windows_player_candidates,
};

#[test]
fn detect_prefers_iina_then_mpv_then_vlc() {
    assert_eq!(PlayerType::detect(true, true, true), PlayerType::Iina);
    assert_eq!(PlayerType::detect(false, true, true), PlayerType::Mpv);
    assert_eq!(PlayerType::detect(false, false, true), PlayerType::Vlc);
    assert_eq!(PlayerType::detect(false, false, false), PlayerType::Mpv);
}

#[test]
fn names_and_order() {
    let all = PlayerType::all();
    let names: Vec<&str> = all.iter().map(|p| p.name()).collect();
    assert_eq!(names, vec!["mpv", "iina", "vlc"]);
}

#[test]
fn binary_candidates_per_platform() {
    assert_eq!(player_binary_candidates(PlayerType::Mpv, true), vec!["mpv.exe", "mpv.com", "mpv"]);
    assert_eq!(player_binary_candidates(PlayerType::Mpv, false), vec!["mpv"]);
    assert_eq!(player_binary_candidates(PlayerType::Vlc, true), vec!["vlc.exe", "vlc"]);
    assert_eq!(player_binary_candidates(PlayerType::Iina, false), vec!["iina-cli"]);
}

#[test]
fn mpv_arguments() {
    let args = player_args(PlayerType::Mpv, false, "https://s/v.m3u8", "Show - Episode 1", Some("https://ref/"), Some("subs.vtt"));
    assert_eq!(
        args,
        vec![
            "--force-media-title=Show - Episode 1",
            "--referrer=https://ref/",
            "--sub-file=subs.vtt",
            "https://s/v.m3u8"
        ]
    );
}

#[test]
fn vlc_ignores_subtitles_and_iina_keeps_running() {
    let vlc = player_args(PlayerType::Vlc, false, "u", "t", None, Some("s"));
    assert_eq!(vlc, vec!["--play-and-exit", "--meta-title=t", "u"]);
    let iina = player_args(PlayerType::Iina, false, "u", "t", Some("r"), None);
    assert_eq!(iina, vec!["--no-stdin", "--mpv-force-media-title=t", "--mpv-referrer=r", "--keep-running", "u"]);
    let running = player_args(PlayerType::Iina, true, "u", "t", None, None);
    assert_eq!(running, vec!["--no-stdin", "--mpv-force-media-title=t", "u"]);
}

#[test]
fn launch_plan_errors() {
    assert_eq!(plan_launch(PlayerType::Iina, Some("/x"), false, false, "u", "t", None, None).err().as_deref(), Some("IINA is only supported on macOS"));
    assert_eq!(plan_launch(PlayerType::Iina, None, true, false, "u", "t", None, None).err().as_deref(), Some("IINA not found"));
    assert_eq!(plan_launch(PlayerType::Mpv, None, false, false, "u", "t", None, None).err().as_deref(), Some("mpv not found"));
    assert_eq!(plan_launch(PlayerType::Vlc, None, true, false, "u", "t", None, None).err().as_deref(), Some("VLC not found"));
    let plan = plan_launch(PlayerType::Mpv, Some("/usr/bin/mpv"), false, false, "u", "t", None, None).ok().unwrap();
    assert_eq!(plan.program, "/usr/bin/mpv");
    assert_eq!(plan.args, vec!["--force-media-title=t", "u"]);
}

#[test]
fn shell_escape_quotes() {
    assert_eq!(shell_escape("plain"), "'plain'");
    assert_eq!(shell_escape("it's"), "'it'\\''s'");
    assert_eq!(shell_escape(""), "''");
}

#[test]
fn shell_command_lines() {
    assert_eq!(
        shell_command_line(PlayerType::Mpv, false, "http://u", "T's", Some("r"), None),
        "nohup mpv --force-media-title='T'\\''s' --referrer='r' 'http://u' >/dev/null 2>&1 &"
    );
    assert_eq!(
        shell_command_line(PlayerType::Iina, true, "u", "t", None, None),
        "nohup '/Applications/IINA.app/Contents/MacOS/iina-cli' --no-stdin --mpv-force-media-title='t' 'u' >/dev/null 2>&1 &"
    );
}

#[test]
fn windows_candidates_cover_roots_folders_and_files_in_order() {
    let roots = vec!["C:\\Program Files".to_string(), "D:\\Apps".to_string()];
    let mpv = windows_player_candidates(PlayerType::Mpv, &roots);
    assert_eq!(mpv.len(), 12);
    assert_eq!(mpv[0], ("C:\\Program Files".to_string(), "mpv", "mpv.exe"));
    assert_eq!(mpv[1], ("C:\\Program Files".to_string(), "mpv", "mpv.com"));
    assert_eq!(mpv[2], ("C:\\Program Files".to_string(), "mpv.net", "mpv.exe"));
    assert_eq!(mpv[5], ("C:\\Program Files".to_string(), "Programs\\mpv", "mpv.com"));
    assert_eq!(mpv[6], ("D:\\Apps".to_string(), "mpv", "mpv.exe"));
    let vlc = windows_player_candidates(PlayerType::Vlc, &roots);
    assert_eq!(vlc, vec![
        ("C:\\Program Files".to_string(), "VideoLAN\\VLC", "vlc.exe"),
        ("C:\\Program Files".to_string(), "VLC", "vlc.exe"),
        ("D:\\Apps".to_string(), "VideoLAN\\VLC", "vlc.exe"),
        ("D:\\Apps".to_string(), "VLC", "vlc.exe"),
    ]);
    assert!(windows_player_candidates(PlayerType::Iina, &roots).is_empty());
    assert!(windows_player_candidates(PlayerType::Mpv, &Vec::new()).is_empty());
}
