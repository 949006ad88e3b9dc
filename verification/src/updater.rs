//! Self-update decisions: when to check, how to read a release tag, whether a
//! release is newer, how the binary was installed, and what to report.

use vstd::prelude::*;

use crate::text::{
    chars_of, contains, join_str, str_contains, string_of, trim_start_char, vec_trim_start_char,
};

verus! {

/// Hours between automatic update checks.
pub const UPDATE_INTERVAL_HOURS: i64 = 24;

/// A newer release than the running one.
#[derive(Debug)]
pub struct UpdateInfo {
    pub latest_version: String,
    pub release_url: String,
}

/// How an update attempt ended.
#[derive(Debug)]
pub struct UpdateOutcome {
    pub message: String,
    pub restart_required: bool,
}

/// How the running binary was installed, which decides how it is updated.
#[derive(Debug, PartialEq, Eq, Structural, Clone, Copy)]
pub enum InstallSource {
    Homebrew,
    Cargo,
    Direct,
}

/// Whether an automatic check is due at `now` (Unix seconds): always when
/// none was recorded, else once a day has passed since the last one.
pub open spec fn check_due(last_checked: Option<i64>, now: i64) -> bool {
    match last_checked {
        None => true,
        Some(ts) => now - ts >= UPDATE_INTERVAL_HOURS * 3600,
    }
}

/// Whether to check for updates now.
pub fn should_check(last_checked: Option<i64>, now: i64) -> (r: bool)
    ensures
        r == check_due(last_checked, now),
{
    match last_checked {
        None => true,
        Some(ts) => {
            let elapsed: i128 = now as i128 - ts as i128;
            elapsed >= (UPDATE_INTERVAL_HOURS * 3600) as i128
        },
    }
}

/// A release tag without its leading `v`s (`"v1.2.0"` reads `"1.2.0"`).
pub fn normalize_tag(tag: &str) -> (r: String)
    ensures
        r@ == trim_start_char(tag@, 'v'),
{
    let cs = chars_of(tag);
    let t = vec_trim_start_char(&cs, 'v');
    string_of(t.as_slice())
}

/// Whether a text is a semantic version as the `semver` crate reads it.
pub uninterp spec fn semver_parses(s: Seq<char>) -> bool;

/// Whether the first version is greater than the second in the order of
/// `semver::Version` (both parsed by the `semver` crate): major, minor and
/// patch, then pre-release, then build metadata, field by field.
pub uninterp spec fn semver_greater(a: Seq<char>, b: Seq<char>) -> bool;

/// Whether `semver::Version::parse` accepts the text.
#[verifier::external_body]
fn version_parses(s: &str) -> (r: bool)
    ensures
        r == semver_parses(s@),
{
    semver::Version::parse(s).is_ok()
}

/// Parses both texts with `semver::Version::parse` and compares them with
/// `>`; `None` when either does not parse.
#[verifier::external_body]
fn version_greater(a: &str, b: &str) -> (r: Option<bool>)
    ensures
        r.is_some() == (semver_parses(a@) && semver_parses(b@)),
        r matches Some(g) ==> g == semver_greater(a@, b@),
{
    match (semver::Version::parse(a), semver::Version::parse(b)) {
        (Ok(x), Ok(y)) => Some(x > y),
        _ => None,
    }
}

/// The version the running binary is compared as: its own when it parses,
/// else `0.0.0`.
pub open spec fn effective_current(current: Seq<char>) -> Seq<char> {
    if semver_parses(current) {
        current
    } else {
        "0.0.0"@
    }
}

/// Judges a release: its tag (without leading `v`) must parse, else the error
/// names it; the release is offered when it is newer than the running
/// version `current` (read as `0.0.0` when it does not parse).
pub fn release_update(tag: &str, release_url: &str, current: &str) -> (r: Result<
    Option<UpdateInfo>,
    String,
>)
    ensures
        !semver_parses(trim_start_char(tag@, 'v')) ==> (r matches Err(e) && e@
            == "unable to parse latest version: "@ + trim_start_char(tag@, 'v')),
        semver_parses(trim_start_char(tag@, 'v')) && semver_parses(effective_current(current@))
            ==> (r matches Ok(o) && (o is Some <==> semver_greater(
            trim_start_char(tag@, 'v'),
            effective_current(current@),
        )) && (o matches Some(info) ==> info.latest_version@ == trim_start_char(tag@, 'v')
            && info.release_url@ == release_url@)),
        semver_parses(trim_start_char(tag@, 'v')) && !semver_parses(effective_current(current@))
            ==> r matches Ok(None),
{
    let latest = normalize_tag(tag);
    if !version_parses(latest.as_str()) {
        proof {
            reveal_strlit("unable to parse latest version: ");
        }
        return Err(join_str("unable to parse latest version: ", latest.as_str()));
    }
    let base = if version_parses(current) {
        current
    } else {
        "0.0.0"
    };
    match version_greater(latest.as_str(), base) {
        Some(true) => Ok(Some(UpdateInfo { latest_version: latest, release_url: release_url.to_owned() })),
        _ => Ok(None),
    }
}

/// The install source: an explicit override (`brew`, `cargo` or `direct`)
/// wins; else a path under a Homebrew cellar; else one under `.cargo/bin`
/// or under `CARGO_HOME`; else a direct download.
pub open spec fn install_source(
    override_: Option<Seq<char>>,
    exe: Option<Seq<char>>,
    cargo_home: Option<Seq<char>>,
) -> InstallSource {
    if override_ == Some("brew"@) {
        InstallSource::Homebrew
    } else if override_ == Some("cargo"@) {
        InstallSource::Cargo
    } else if override_ == Some("direct"@) {
        InstallSource::Direct
    } else {
        match exe {
            Some(p) => if contains(p, "/Cellar/"@) || contains(p, "/Homebrew/Cellar/"@) {
                InstallSource::Homebrew
            } else if contains(p, "/.cargo/bin/"@) {
                InstallSource::Cargo
            } else if cargo_home matches Some(h) && contains(p, h) {
                InstallSource::Cargo
            } else {
                InstallSource::Direct
            },
            None => InstallSource::Direct,
        }
    }
}

/// Decides how the binary was installed, from the `ANI_CLI_UPDATE_SOURCE`
/// override, the executable's path and `CARGO_HOME` (each when known).
pub fn detect_install_source(
    override_: Option<&str>,
    exe_path: Option<&str>,
    cargo_home: Option<&str>,
) -> (r: InstallSource)
    ensures
        r == install_source(
            match override_ {
                Some(o) => Some(o@),
                None => None,
            },
            match exe_path {
                Some(p) => Some(p@),
                None => None,
            },
            match cargo_home {
                Some(h) => Some(h@),
                None => None,
            },
        ),
{
    match override_ {
        Some(o) => {
            if crate::text::text_eq(o, "brew") {
                return InstallSource::Homebrew;
            } else if crate::text::text_eq(o, "cargo") {
                return InstallSource::Cargo;
            } else if crate::text::text_eq(o, "direct") {
                return InstallSource::Direct;
            }
        },
        None => {},
    }
    match exe_path {
        Some(p) => {
            if str_contains(p, "/Cellar/") || str_contains(p, "/Homebrew/Cellar/") {
                InstallSource::Homebrew
            } else if str_contains(p, "/.cargo/bin/") {
                InstallSource::Cargo
            } else {
                match cargo_home {
                    Some(h) => if str_contains(p, h) {
                        InstallSource::Cargo
                    } else {
                        InstallSource::Direct
                    },
                    None => InstallSource::Direct,
                }
            }
        },
        None => InstallSource::Direct,
    }
}

/// The report after a package manager updated the binary.
pub fn managed_update_outcome(source: InstallSource) -> (r: UpdateOutcome)
    ensures
        !r.restart_required,
        source == InstallSource::Homebrew ==> r.message@ == "updated via brew"@,
        source != InstallSource::Homebrew ==> r.message@ == "updated via cargo"@,
{
    match source {
        InstallSource::Homebrew => UpdateOutcome {
            message: "updated via brew".to_owned(),
            restart_required: false,
        },
        _ => UpdateOutcome { message: "updated via cargo".to_owned(), restart_required: false },
    }
}

/// The report after replacing the binary with release `latest`: a pending
/// replacement asks to close the app.
pub fn direct_update_outcome(latest: &str, restart_required: bool) -> (r: UpdateOutcome)
    ensures
        r.restart_required == restart_required,
        restart_required ==> r.message@ == "update scheduled to v"@ + latest@
            + " — close app to finish"@,
        !restart_required ==> r.message@ == "updated to v"@ + latest@,
{
    if restart_required {
        let a = join_str("update scheduled to v", latest);
        UpdateOutcome { message: join_str(a.as_str(), " — close app to finish"), restart_required }
    } else {
        UpdateOutcome { message: join_str("updated to v", latest), restart_required }
    }
}

/// How a release archive is packed.
#[derive(Debug, PartialEq, Eq, Structural, Clone, Copy)]
pub enum ArchiveKind {
    TarGz,
    Zip,
}

/// The release file for one platform: the archive's name, the binary inside
/// it, and how it is packed.
#[derive(Debug)]
pub struct ReleaseAssetSpec {
    pub asset_name: &'static str,
    pub binary_name: &'static str,
    pub archive_kind: ArchiveKind,
}

/// The release file published for an operating system and architecture (as
/// `std::env::consts` names them), if there is one.
pub open spec fn release_asset_for(os: Seq<char>, arch: Seq<char>) -> Option<
    (Seq<char>, Seq<char>, ArchiveKind),
> {
    if os == "linux"@ && arch == "x86_64"@ {
        Some(("ani-cli-linux-x86_64.tar.gz"@, "ani-cli"@, ArchiveKind::TarGz))
    } else if os == "macos"@ && arch == "x86_64"@ {
        Some(("ani-cli-macos-x86_64.tar.gz"@, "ani-cli"@, ArchiveKind::TarGz))
    } else if os == "macos"@ && arch == "aarch64"@ {
        Some(("ani-cli-macos-aarch64.tar.gz"@, "ani-cli"@, ArchiveKind::TarGz))
    } else if os == "windows"@ && arch == "x86_64"@ {
        Some(("ani-cli-windows-x86_64.zip"@, "ani-cli.exe"@, ArchiveKind::Zip))
    } else {
        None
    }
}

/// The release file to download on this platform, or an error where none is
/// published.
pub fn release_asset(os: &str, arch: &str) -> (r: Result<ReleaseAssetSpec, String>)
    ensures
        match release_asset_for(os@, arch@) {
            Some((name, binary, kind)) => r matches Ok(spec) && spec.asset_name@ == name
                && spec.binary_name@ == binary && spec.archive_kind == kind,
            None => r matches Err(e) && e@ == "self-upgrade is not supported on this platform yet"@,
        },
{
    let linux = crate::text::text_eq(os, "linux");
    let macos = crate::text::text_eq(os, "macos");
    let windows = crate::text::text_eq(os, "windows");
    let x86_64 = crate::text::text_eq(arch, "x86_64");
    let aarch64 = crate::text::text_eq(arch, "aarch64");
    if linux && x86_64 {
        Ok(ReleaseAssetSpec {
            asset_name: "ani-cli-linux-x86_64.tar.gz",
            binary_name: "ani-cli",
            archive_kind: ArchiveKind::TarGz,
        })
    } else if macos && x86_64 {
        Ok(ReleaseAssetSpec {
            asset_name: "ani-cli-macos-x86_64.tar.gz",
            binary_name: "ani-cli",
            archive_kind: ArchiveKind::TarGz,
        })
    } else if macos && aarch64 {
        Ok(ReleaseAssetSpec {
            asset_name: "ani-cli-macos-aarch64.tar.gz",
            binary_name: "ani-cli",
            archive_kind: ArchiveKind::TarGz,
        })
    } else if windows && x86_64 {
        Ok(ReleaseAssetSpec {
            asset_name: "ani-cli-windows-x86_64.zip",
            binary_name: "ani-cli.exe",
            archive_kind: ArchiveKind::Zip,
        })
    } else {
        Err("self-upgrade is not supported on this platform yet".to_owned())
    }
}

} // verus!
