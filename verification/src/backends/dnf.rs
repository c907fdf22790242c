//! DNF backend (Fedora, RHEL and derivatives): what `rpm -qa` reports, read
//! into application records.

use vstd::prelude::*;

use crate::backends::apt::{contains_string, humanize_name, humanized, is_named_like, named_like};
use crate::models::{is_new_app, AppInfo, InstallMethod};
use crate::text::{
    contains_seq, copy_string, ends_with, lines, opt_view, parse_u64, split_by, starts_with,
    str_contains, str_ends_with, str_lines, str_parse_u64, str_split_char, str_starts_with,
    str_trim, trim, views,
};

verus! {

/// The DNF backend.
pub struct DnfBackend;

impl DnfBackend {
    pub fn new() -> (r: Self) {
        DnfBackend
    }

    pub fn id(&self) -> (r: InstallMethod)
        ensures
            r == InstallMethod::Dnf,
    {
        InstallMethod::Dnf
    }
}

/// RPM packages recognised as applications by name.
pub open spec fn known_dnf_apps() -> Seq<Seq<char>> {
    seq![
        "firefox"@,
        "chromium"@,
        "thunderbird"@,
        "gimp"@,
        "vlc"@,
        "libreoffice"@,
        "code"@,
        "discord"@,
        "spotify"@,
        "steam"@,
        "inkscape"@,
        "blender"@,
    ]
}

/// Library, development, debug-information and library-split packages.
pub open spec fn is_rpm_library_name(name: Seq<char>) -> bool {
    starts_with(name, "lib"@) || starts_with(name, "python3-"@) || ends_with(name, "-devel"@)
        || ends_with(name, "-libs"@) || ends_with(name, "-debuginfo"@)
}

/// Whether an RPM package is a library or another non-application package.
pub fn is_rpm_library(name: &str) -> (r: bool)
    ensures
        r == is_rpm_library_name(name@),
{
    str_starts_with(name, "lib") || str_starts_with(name, "python3-") || str_ends_with(
        name,
        "-devel",
    ) || str_ends_with(name, "-libs") || str_ends_with(name, "-debuginfo")
}

/// Whether an RPM package looks like an application by its name.
pub fn looks_like_app(name: &str) -> (r: bool)
    ensures
        r == named_like(name@, known_dnf_apps()),
{
    let known = [
        "firefox",
        "chromium",
        "thunderbird",
        "gimp",
        "vlc",
        "libreoffice",
        "code",
        "discord",
        "spotify",
        "steam",
        "inkscape",
        "blender",
    ];
    let r = is_named_like(name, &known);
    assert(known@.map_values(|k: &str| k@) =~= known_dnf_apps());
    r
}

/// A readable title for a package name.
pub fn humanize(pkg: &str) -> (r: String)
    ensures
        r@ == humanized(pkg@),
{
    humanize_name(pkg)
}

/// A listing row is kept when it has five tab-separated fields and the
/// package owns a desktop entry, or looks like an application and is not a
/// library.
pub open spec fn rpm_row_kept(parts: Seq<Seq<char>>, desktop_names: Seq<Seq<char>>) -> bool {
    &&& parts.len() >= 5
    &&& !(is_rpm_library_name(parts[0]) && !desktop_names.contains(parts[0]))
    &&& (desktop_names.contains(parts[0]) || named_like(parts[0], known_dnf_apps()))
}

/// The kept rows of an `rpm -qa` listing, split into fields, in order.
pub open spec fn rpm_rows(ls: Seq<Seq<char>>, desktop_names: Seq<Seq<char>>) -> Seq<Seq<Seq<char>>>
    decreases ls.len(),
{
    if ls.len() == 0 {
        Seq::empty()
    } else {
        let rows = rpm_rows(ls.drop_last(), desktop_names);
        let parts = split_by(ls.last(), '\t');
        if rpm_row_kept(parts, desktop_names) {
            rows.push(parts)
        } else {
            rows
        }
    }
}

/// The record of a kept row: package, humanized name, version-release,
/// architecture, size in bytes, summary as description, origin
/// `Repositório DNF/RPM` and the package as icon name.
pub open spec fn is_rpm_app(a: AppInfo, parts: Seq<Seq<char>>) -> bool {
    &&& parts.len() >= 5
    &&& is_new_app(
        AppInfo {
            version: None,
            architecture: None,
            size_bytes: None,
            description: None,
            origin: None,
            icon_name: None,
            ..a
        },
        InstallMethod::Dnf,
        parts[0],
        humanized(parts[0]),
    )
    &&& opt_view(a.version) == Some(parts[1])
    &&& opt_view(a.architecture) == Some(parts[2])
    &&& a.size_bytes == parse_u64(parts[3])
    &&& opt_view(a.description) == Some(parts[4])
    &&& opt_view(a.origin) == Some("Repositório DNF/RPM"@)
    &&& opt_view(a.icon_name) == Some(parts[0])
}

fn rpm_app(parts: &Vec<String>) -> (r: AppInfo)
    requires
        parts@.len() >= 5,
    ensures
        is_rpm_app(r, views(parts@)),
{
    let name = parts[0].as_str();
    let title = humanize(name);
    let mut app = AppInfo::new(InstallMethod::Dnf, name, title.as_str());
    app.version = Some(parts[1].clone());
    app.architecture = Some(parts[2].clone());
    app.size_bytes = str_parse_u64(parts[3].as_str());
    app.description = Some(parts[4].clone());
    app.origin = Some(copy_string("Repositório DNF/RPM"));
    app.icon_name = Some(copy_string(name));
    app
}

/// The applications of an `rpm -qa` listing
/// (`name, version-release, architecture, size, summary` separated by
/// tabs), given the packages that own desktop entries: one per kept row, in
/// order.
pub fn parse_rpm_listing(output: &str, desktop_names: &Vec<String>) -> (r: Vec<AppInfo>)
    ensures
        ({
            let rows = rpm_rows(lines(output@), views(desktop_names@));
            &&& r@.len() == rows.len()
            &&& forall|i: int| 0 <= i < r@.len() ==> is_rpm_app(#[trigger] r@[i], rows[i])
        }),
{
    let ls = str_lines(output);
    let ghost lv = views(ls@);
    let ghost dv = views(desktop_names@);
    let n = ls.len();
    let mut apps: Vec<AppInfo> = Vec::new();
    for i in 0..n
        invariant
            n == ls@.len(),
            lv == views(ls@),
            lv == lines(output@),
            dv == views(desktop_names@),
            apps@.len() == rpm_rows(lv.take(i as int), dv).len(),
            forall|j: int|
                0 <= j < apps@.len() ==> is_rpm_app(
                    #[trigger] apps@[j],
                    rpm_rows(lv.take(i as int), dv)[j],
                ),
    {
        assert(lv.take(i + 1).drop_last() =~= lv.take(i as int));
        assert(lv.take(i + 1).last() == ls@[i as int]@);
        let parts = str_split_char(ls[i].as_str(), '\t');
        if parts.len() >= 5 {
            let name = parts[0].as_str();
            let in_desktop = contains_string(desktop_names, name);
            let kept = !(is_rpm_library(name) && !in_desktop) && (in_desktop || looks_like_app(
                name,
            ));
            if kept {
                let app = rpm_app(&parts);
                apps.push(app);
            }
        }
    }
    assert(lv.take(n as int) =~= lv);
    apps
}

/// The package named by `rpm -qf --qf '%{NAME}\n' <file>`: the trimmed
/// output, unless it is empty or says the file is not owned.
pub open spec fn rpm_owner_of(output: Seq<char>) -> Option<Seq<char>> {
    let name = trim(output);
    if name.len() > 0 && !contains_seq(name, "not owned"@) {
        Some(name)
    } else {
        None
    }
}

/// Reads the package that owns a desktop file from `rpm -qf`.
pub fn rpm_owner(output: &str) -> (r: Option<String>)
    ensures
        opt_view(r) == rpm_owner_of(output@),
{
    let name = str_trim(output);
    if !name.as_str().is_empty() && !str_contains(name.as_str(), "not owned") {
        Some(name)
    } else {
        None
    }
}

} // verus!
