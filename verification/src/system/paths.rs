//! Where FindApps keeps its files, and where AppImages are looked for.

use vstd::prelude::*;

use crate::text::{chars_of, copy_string, ends_with, starts_with, str_ends_with, str_starts_with};

verus! {

/// The user's home directory (`dirs::home_dir`), as text. It depends on the
/// environment, so nothing is stated of it.
#[verifier::external_body]
fn home_dir() -> (r: Option<String>) {
    dirs::home_dir().map(|p| p.to_string_lossy().to_string())
}

/// The user's configuration directory (`dirs::config_dir`), as text. It
/// depends on the environment, so nothing is stated of it.
#[verifier::external_body]
fn base_config_dir() -> (r: Option<String>) {
    dirs::config_dir().map(|p| p.to_string_lossy().to_string())
}

/// The user's local data directory (`dirs::data_local_dir`), as text. It
/// depends on the environment, so nothing is stated of it.
#[verifier::external_body]
fn base_data_dir() -> (r: Option<String>) {
    dirs::data_local_dir().map(|p| p.to_string_lossy().to_string())
}

/// `Path::join` of text paths: an absolute `rel` replaces `base`; otherwise
/// `rel` is appended after a `/`, unless `base` is empty or already ends in
/// `/`.
pub open spec fn joined(base: Seq<char>, rel: Seq<char>) -> Seq<char> {
    if starts_with(rel, "/"@) {
        rel
    } else if base.len() == 0 || ends_with(base, "/"@) {
        base + rel
    } else {
        base + "/"@ + rel
    }
}

/// `Path::join` of text paths.
pub fn join_path(base: &str, rel: &str) -> (r: String)
    ensures
        r@ == joined(base@, rel@),
{
    if str_starts_with(rel, "/") {
        return copy_string(rel);
    }
    let mut out = copy_string(base);
    if !base.is_empty() && !str_ends_with(base, "/") {
        out.append("/");
    }
    out.append(rel);
    out
}

fn or_default(base: Option<String>, fallback: &str) -> (r: String)
    ensures
        r@ == (match base {
            Some(b) => b@,
            None => fallback@,
        }),
{
    match base {
        Some(b) => b,
        None => copy_string(fallback),
    }
}

/// The configuration directory under a user configuration directory (or
/// `./.config` when there is none).
pub open spec fn config_dir_in(base: Option<Seq<char>>) -> Seq<char> {
    joined(
        match base {
            Some(b) => b,
            None => joined("."@, ".config"@),
        },
        "findapps"@,
    )
}

/// The data directory under a user local data directory (or
/// `./.local/share` when there is none).
pub open spec fn data_dir_in(base: Option<Seq<char>>) -> Seq<char> {
    joined(
        match base {
            Some(b) => b,
            None => joined(joined("."@, ".local"@), "share"@),
        },
        "findapps"@,
    )
}

/// The configuration directory of FindApps.
pub fn config_dir() -> (r: String)
    ensures
        exists|b: Option<Seq<char>>| r@ == config_dir_in(b),
{
    let base = base_config_dir();
    let ghost bv = crate::text::opt_view(base);
    let fallback = join_path(".", ".config");
    let b = or_default(base, fallback.as_str());
    let r = join_path(b.as_str(), "findapps");
    assert(r@ == config_dir_in(bv));
    r
}

/// The data directory of FindApps.
pub fn data_dir() -> (r: String)
    ensures
        exists|b: Option<Seq<char>>| r@ == data_dir_in(b),
{
    let base = base_data_dir();
    let ghost bv = crate::text::opt_view(base);
    let local = join_path(".", ".local");
    let fallback = join_path(local.as_str(), "share");
    let b = or_default(base, fallback.as_str());
    let r = join_path(b.as_str(), "findapps");
    assert(r@ == data_dir_in(bv));
    r
}

/// The directory of the log files.
pub fn log_dir() -> (r: String)
    ensures
        exists|b: Option<Seq<char>>| r@ == joined(data_dir_in(b), "logs"@),
{
    let d = data_dir();
    join_path(d.as_str(), "logs")
}

/// The configuration file.
pub fn config_file() -> (r: String)
    ensures
        exists|b: Option<Seq<char>>| r@ == joined(config_dir_in(b), "config.toml"@),
{
    let d = config_dir();
    join_path(d.as_str(), "config.toml")
}

/// The directories searched for AppImages: `Applications`, `AppImages`,
/// `Downloads` and `.local/bin` of the home directory, when there is one,
/// then `/opt`.
pub open spec fn appimage_dirs_in(home: Option<Seq<char>>) -> Seq<Seq<char>> {
    match home {
        Some(h) => seq![
            joined(h, "Applications"@),
            joined(h, "AppImages"@),
            joined(h, "Downloads"@),
            joined(joined(h, ".local"@), "bin"@),
            "/opt"@,
        ],
        None => seq!["/opt"@],
    }
}

/// The AppImage directories for a given home directory.
pub fn appimage_dirs_for(home: Option<&str>) -> (r: Vec<String>)
    ensures
        crate::text::views(r@) == appimage_dirs_in(match home {
            Some(h) => Some(h@),
            None => None,
        }),
{
    let mut dirs: Vec<String> = Vec::new();
    if let Some(h) = home {
        dirs.push(join_path(h, "Applications"));
        dirs.push(join_path(h, "AppImages"));
        dirs.push(join_path(h, "Downloads"));
        let local = join_path(h, ".local");
        dirs.push(join_path(local.as_str(), "bin"));
    }
    dirs.push(copy_string("/opt"));
    let ghost hv = match home {
        Some(h) => Some(h@),
        None => None,
    };
    assert(crate::text::views(dirs@) =~= appimage_dirs_in(hv));
    dirs
}

/// The default AppImage directories of this user.
pub fn default_appimage_dirs() -> (r: Vec<String>)
    ensures
        exists|h: Option<Seq<char>>| crate::text::views(r@) == appimage_dirs_in(h),
{
    let home = home_dir();
    match home {
        Some(h) => appimage_dirs_for(Some(h.as_str())),
        None => appimage_dirs_for(None),
    }
}

/// The home directory of this user, when it is known.
pub fn user_home() -> (r: Option<String>) {
    home_dir()
}

} // verus!
