//! Flatpak backend: what `flatpak list` reports, read into application
//! records.

use vstd::prelude::*;

use crate::models::{is_new_app, AppInfo, InstallMethod};
use crate::text::{
    copy_string, join, join_strings, lines, opt_view, parse_u64, replace_char, split_by,
    str_lines, str_parse_u64, str_replace_char, str_split_char, str_strip_suffix, str_trim,
    strip_suffix, trim, views,
};
use crate::util::decimal::{parse_scaled, scaled_decimal};

verus! {

/// The Flatpak backend.
pub struct FlatpakBackend;

impl FlatpakBackend {
    pub fn new() -> (r: Self) {
        FlatpakBackend
    }

    pub fn id(&self) -> (r: InstallMethod)
        ensures
            r == InstallMethod::Flatpak,
    {
        InstallMethod::Flatpak
    }
}

/// The number and unit of a size column: `GB`/`G`, `MB`/`M`, `kB`/`k`
/// (powers of 1024) or `B`, tried in that order; `None` without a unit.
pub open spec fn size_parts(u: Seq<char>) -> Option<(Seq<char>, nat)> {
    if strip_suffix(u, "GB"@) is Some {
        Some((trim(strip_suffix(u, "GB"@)->0), 0x4000_0000))
    } else if strip_suffix(u, "G"@) is Some {
        Some((trim(strip_suffix(u, "G"@)->0), 0x4000_0000))
    } else if strip_suffix(u, "MB"@) is Some {
        Some((trim(strip_suffix(u, "MB"@)->0), 0x10_0000))
    } else if strip_suffix(u, "M"@) is Some {
        Some((trim(strip_suffix(u, "M"@)->0), 0x10_0000))
    } else if strip_suffix(u, "kB"@) is Some {
        Some((trim(strip_suffix(u, "kB"@)->0), 0x400))
    } else if strip_suffix(u, "k"@) is Some {
        Some((trim(strip_suffix(u, "k"@)->0), 0x400))
    } else if strip_suffix(u, "B"@) is Some {
        Some((trim(strip_suffix(u, "B"@)->0), 1))
    } else {
        None
    }
}

/// The size in bytes of a `flatpak list` size column (`245 MB`, `1,5 GB`):
/// a decimal comma counts as a point; a number with a unit is scaled and
/// truncated; a bare number must be a whole number of bytes.
pub open spec fn flatpak_size(s: Seq<char>) -> Option<u64> {
    let u = replace_char(trim(s), ',', '.');
    match size_parts(u) {
        Some((num, unit)) => parse_scaled(num, unit),
        None => parse_u64(u),
    }
}

fn strip_unit(u: &str, long: &str, short: &str) -> (r: Option<String>)
    ensures
        opt_view(r) == (if strip_suffix(u@, long@) is Some {
            Some(trim(strip_suffix(u@, long@)->0))
        } else if strip_suffix(u@, short@) is Some {
            Some(trim(strip_suffix(u@, short@)->0))
        } else {
            None
        }),
{
    match str_strip_suffix(u, long) {
        Some(n) => Some(str_trim(n.as_str())),
        None => match str_strip_suffix(u, short) {
            Some(n) => Some(str_trim(n.as_str())),
            None => None,
        },
    }
}

/// Reads the size column of `flatpak list`.
pub fn parse_flatpak_size(s: &str) -> (r: Option<u64>)
    ensures
        r == flatpak_size(s@),
{
    let t = str_trim(s);
    let u = str_replace_char(t.as_str(), ',', '.');
    if let Some(num) = strip_unit(u.as_str(), "GB", "G") {
        return scaled_decimal(num.as_str(), 0x4000_0000);
    }
    if let Some(num) = strip_unit(u.as_str(), "MB", "M") {
        return scaled_decimal(num.as_str(), 0x10_0000);
    }
    if let Some(num) = strip_unit(u.as_str(), "kB", "k") {
        return scaled_decimal(num.as_str(), 0x400);
    }
    if let Some(num) = str_strip_suffix(u.as_str(), "B") {
        let n = str_trim(num.as_str());
        return scaled_decimal(n.as_str(), 1);
    }
    str_parse_u64(u.as_str())
}

/// The developer shown for an application id: its first two dot-separated
/// parts (`org.mozilla` of `org.mozilla.firefox`).
pub open spec fn id_vendor(id: Seq<char>) -> Seq<char> {
    let ps = split_by(id, '.');
    join(
        if ps.len() >= 2 {
            ps.take(2)
        } else {
            ps
        },
        "."@,
    )
}

fn vendor_of(id: &str) -> (r: String)
    ensures
        r@ == id_vendor(id@),
{
    let mut ps = str_split_char(id, '.');
    let ghost pv = views(ps@);
    if ps.len() >= 2 {
        ps.truncate(2);
        assert(views(ps@) =~= pv.take(2));
    }
    join_strings(&ps, ".")
}

/// A row of `flatpak list` is kept when its first column, the application
/// id, is not empty.
pub open spec fn flatpak_rows(ls: Seq<Seq<char>>) -> Seq<Seq<Seq<char>>>
    decreases ls.len(),
{
    if ls.len() == 0 {
        Seq::empty()
    } else {
        let rows = flatpak_rows(ls.drop_last());
        let parts = split_by(ls.last(), '\t');
        if parts.len() > 0 && parts[0].len() > 0 {
            rows.push(parts)
        } else {
            rows
        }
    }
}

/// The column at `i`, when the row has it.
pub open spec fn column(parts: Seq<Seq<char>>, i: int) -> Option<Seq<char>> {
    if i < parts.len() {
        Some(parts[i])
    } else {
        None
    }
}

/// The record of a kept row (`application, name, version, branch, origin,
/// installation, size, arch` separated by tabs): the name defaults to the
/// id; an empty version is no version; the installation becomes
/// `flatpak:<installation>`; the id is the icon name and its first two
/// parts the developer.
pub open spec fn is_flatpak_app(a: AppInfo, parts: Seq<Seq<char>>) -> bool {
    let id = parts[0];
    let name = if parts.len() > 1 && parts[1].len() > 0 {
        parts[1]
    } else {
        id
    };
    &&& parts.len() > 0
    &&& is_new_app(
        AppInfo {
            version: None,
            origin: None,
            install_path: None,
            size_bytes: None,
            architecture: None,
            icon_name: None,
            developer: None,
            ..a
        },
        InstallMethod::Flatpak,
        id,
        name,
    )
    &&& opt_view(a.version) == (if parts.len() > 2 && parts[2].len() > 0 {
        Some(parts[2])
    } else {
        None
    })
    &&& opt_view(a.origin) == column(parts, 4)
    &&& opt_view(a.install_path) == (match column(parts, 5) {
        Some(inst) => Some("flatpak:"@ + inst),
        None => None,
    })
    &&& a.size_bytes == (match column(parts, 6) {
        Some(sz) => flatpak_size(sz),
        None => None,
    })
    &&& opt_view(a.architecture) == column(parts, 7)
    &&& opt_view(a.icon_name) == Some(id)
    &&& opt_view(a.developer) == Some(id_vendor(id))
}

fn flatpak_app(parts: &Vec<String>) -> (r: AppInfo)
    requires
        parts@.len() > 0,
        parts@[0]@.len() > 0,
    ensures
        is_flatpak_app(r, views(parts@)),
{
    let ghost pv = views(parts@);
    let id = parts[0].as_str();
    let name: &str = if parts.len() > 1 && !parts[1].as_str().is_empty() {
        parts[1].as_str()
    } else {
        id
    };
    let mut app = AppInfo::new(InstallMethod::Flatpak, id, name);
    if parts.len() > 2 && !parts[2].as_str().is_empty() {
        app.version = Some(parts[2].clone());
    }
    if parts.len() > 4 {
        app.origin = Some(parts[4].clone());
    }
    if parts.len() > 5 {
        let mut p = copy_string("flatpak:");
        p.append(parts[5].as_str());
        app.install_path = Some(p);
    }
    if parts.len() > 6 {
        app.size_bytes = parse_flatpak_size(parts[6].as_str());
    }
    if parts.len() > 7 {
        app.architecture = Some(parts[7].clone());
    }
    app.icon_name = Some(copy_string(id));
    app.developer = Some(vendor_of(id));
    app
}

/// The applications of a `flatpak list` output: one per kept row, in order.
pub fn parse_flatpak_list(output: &str) -> (r: Vec<AppInfo>)
    ensures
        ({
            let rows = flatpak_rows(lines(output@));
            &&& r@.len() == rows.len()
            &&& forall|i: int| 0 <= i < r@.len() ==> is_flatpak_app(#[trigger] r@[i], rows[i])
        }),
{
    let ls = str_lines(output);
    let ghost lv = views(ls@);
    let n = ls.len();
    let mut apps: Vec<AppInfo> = Vec::new();
    for i in 0..n
        invariant
            n == ls@.len(),
            lv == views(ls@),
            lv == lines(output@),
            apps@.len() == flatpak_rows(lv.take(i as int)).len(),
            forall|j: int|
                0 <= j < apps@.len() ==> is_flatpak_app(
                    #[trigger] apps@[j],
                    flatpak_rows(lv.take(i as int))[j],
                ),
    {
        assert(lv.take(i + 1).drop_last() =~= lv.take(i as int));
        assert(lv.take(i + 1).last() == ls@[i as int]@);
        let parts = str_split_char(ls[i].as_str(), '\t');
        if parts.len() > 0 && !parts[0].as_str().is_empty() {
            let app = flatpak_app(&parts);
            apps.push(app);
        }
    }
    assert(lv.take(n as int) =~= lv);
    apps
}

/// The version reported by `flatpak --version`, trimmed.
pub fn flatpak_version(output: &str) -> (r: String)
    ensures
        r@ == trim(output@),
{
    str_trim(output)
}

} // verus!
