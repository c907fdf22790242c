//! Snap backend: what `snap list` and `snap version` report, read into
//! application records.

use vstd::prelude::*;

use crate::backends::apt::{humanize_name, humanized};
use crate::models::{is_new_app, AppInfo, InstallMethod};
use crate::text::{
    copy_string, join, join_strings, lines, opt_view, replace_all, split_whitespace, starts_with,
    str_eq, str_lines, str_replace, str_split_whitespace, str_starts_with, str_trim, trim, views,
};

verus! {

/// The Snap backend.
pub struct SnapBackend;

impl SnapBackend {
    pub fn new() -> (r: Self) {
        SnapBackend
    }

    pub fn id(&self) -> (r: InstallMethod)
        ensures
            r == InstallMethod::Snap,
    {
        InstallMethod::Snap
    }
}

/// A readable title for a snap name.
pub fn humanize(pkg: &str) -> (r: String)
    ensures
        r@ == humanized(pkg@),
{
    humanize_name(pkg)
}

/// Base snaps that are not applications: `core*`, `snapd` and `bare`.
pub open spec fn is_base_snap(name: Seq<char>) -> bool {
    name == "core"@ || starts_with(name, "core"@) || name == "snapd"@ || name == "bare"@
}

/// A row of `snap list` (after the header) is kept when it has at least
/// three columns and is not a base snap.
pub open spec fn snap_row_kept(parts: Seq<Seq<char>>) -> bool {
    parts.len() >= 3 && !is_base_snap(parts[0])
}

/// The kept rows of `snap list`, split into columns, in order; the first
/// line is the header.
pub open spec fn snap_rows(ls: Seq<Seq<char>>) -> Seq<Seq<Seq<char>>>
    decreases ls.len(),
{
    if ls.len() <= 1 {
        Seq::empty()
    } else {
        let rows = snap_rows(ls.drop_last());
        let parts = split_whitespace(ls.last());
        if snap_row_kept(parts) {
            rows.push(parts)
        } else {
            rows
        }
    }
}

/// The publisher of a row: the columns from the fifth on, joined by spaces,
/// without the `*` verification marks.
pub open spec fn snap_publisher(parts: Seq<Seq<char>>) -> Seq<char> {
    replace_all(join(parts.skip(4), " "@), "*"@, ""@)
}

/// The record of a kept row: name, humanized title, version, tracking
/// channel as origin (fourth column), publisher as developer (fifth column
/// on), install path `/snap/<name>` and the name as icon name.
pub open spec fn is_snap_app(a: AppInfo, parts: Seq<Seq<char>>) -> bool {
    &&& parts.len() >= 3
    &&& is_new_app(
        AppInfo {
            version: None,
            origin: None,
            developer: None,
            install_path: None,
            icon_name: None,
            ..a
        },
        InstallMethod::Snap,
        parts[0],
        humanized(parts[0]),
    )
    &&& opt_view(a.version) == Some(parts[1])
    &&& opt_view(a.origin) == (if parts.len() > 3 {
        Some(parts[3])
    } else {
        None
    })
    &&& opt_view(a.developer) == (if parts.len() > 4 {
        Some(snap_publisher(parts))
    } else {
        None
    })
    &&& opt_view(a.install_path) == Some("/snap/"@ + parts[0])
    &&& opt_view(a.icon_name) == Some(parts[0])
}

fn snap_app(parts: &Vec<String>) -> (r: AppInfo)
    requires
        parts@.len() >= 3,
    ensures
        is_snap_app(r, views(parts@)),
{
    let ghost pv = views(parts@);
    let name = parts[0].as_str();
    let title = humanize(name);
    let mut app = AppInfo::new(InstallMethod::Snap, name, title.as_str());
    app.version = Some(parts[1].clone());
    if parts.len() > 3 {
        app.origin = Some(parts[3].clone());
    }
    if parts.len() > 4 {
        let mut rest: Vec<String> = Vec::new();
        let n = parts.len();
        for j in 4..n
            invariant
                n == parts@.len(),
                4 <= n,
                pv == views(parts@),
                views(rest@) == pv.subrange(4, j as int),
        {
            let ghost before = views(rest@);
            let c = parts[j].clone();
            assert(c@ == pv[j as int]);
            rest.push(c);
            assert(views(rest@) =~= before.push(pv[j as int]));
            assert(pv.subrange(4, j + 1) =~= pv.subrange(4, j as int).push(pv[j as int]));
        }
        assert(pv.subrange(4, n as int) =~= pv.skip(4));
        let joined = join_strings(&rest, " ");
        proof {
            reveal_strlit("*");
        }
        app.developer = Some(str_replace(joined.as_str(), "*", ""));
    }
    let mut path = copy_string("/snap/");
    path.append(name);
    app.install_path = Some(path);
    app.icon_name = Some(copy_string(name));
    app
}

/// The applications of a `snap list` output: one per kept row, in order.
pub fn parse_snap_list(output: &str) -> (r: Vec<AppInfo>)
    ensures
        ({
            let rows = snap_rows(lines(output@));
            &&& r@.len() == rows.len()
            &&& forall|i: int| 0 <= i < r@.len() ==> is_snap_app(#[trigger] r@[i], rows[i])
        }),
{
    let ls = str_lines(output);
    let ghost lv = views(ls@);
    let n = ls.len();
    let mut apps: Vec<AppInfo> = Vec::new();
    for i in 0..n
        invariant
            n == ls@.len(),
            lv == views(ls@),
            lv == lines(output@),
            apps@.len() == snap_rows(lv.take(i as int)).len(),
            forall|j: int|
                0 <= j < apps@.len() ==> is_snap_app(
                    #[trigger] apps@[j],
                    snap_rows(lv.take(i as int))[j],
                ),
    {
        assert(lv.take(i + 1).drop_last() =~= lv.take(i as int));
        assert(lv.take(i + 1).last() == ls@[i as int]@);
        if i > 0 {
            let parts = str_split_whitespace(ls[i].as_str());
            if parts.len() >= 3 {
                let name = parts[0].as_str();
                let base = str_eq(name, "core") || str_starts_with(name, "core") || str_eq(
                    name,
                    "snapd",
                ) || str_eq(name, "bare");
                if !base {
                    let app = snap_app(&parts);
                    apps.push(app);
                }
            }
        }
    }
    assert(lv.take(n as int) =~= lv);
    apps
}

/// Position of the first line starting with `snap `, or -1.
pub open spec fn snap_line_pos(ls: Seq<Seq<char>>) -> int
    decreases ls.len(),
{
    if ls.len() == 0 {
        -1
    } else if starts_with(ls[0], "snap "@) {
        0
    } else if snap_line_pos(ls.drop_first()) >= 0 {
        snap_line_pos(ls.drop_first()) + 1
    } else {
        -1
    }
}

proof fn lemma_snap_line_pos(ls: Seq<Seq<char>>)
    ensures
        -1 <= snap_line_pos(ls) < ls.len(),
    decreases ls.len(),
{
    if ls.len() > 0 {
        lemma_snap_line_pos(ls.drop_first());
    }
}

/// The version reported by `snap version`: the line starting with `snap `,
/// trimmed, or else the first line.
pub open spec fn snap_version_of(output: Seq<char>) -> Option<Seq<char>> {
    let ls = lines(output);
    let p = snap_line_pos(ls);
    if p >= 0 {
        Some(trim(ls[p]))
    } else if ls.len() > 0 {
        Some(ls[0])
    } else {
        None
    }
}

/// Reads the version from the output of `snap version`.
pub fn snap_version(output: &str) -> (r: Option<String>)
    ensures
        opt_view(r) == snap_version_of(output@),
{
    let ls = str_lines(output);
    let ghost lv = views(ls@);
    let n = ls.len();
    proof {
        lemma_snap_line_pos(lv);
    }
    assert(lv.skip(0) =~= lv);
    for i in 0..n
        invariant
            n == ls@.len(),
            lv == views(ls@),
            lv == lines(output@),
            snap_line_pos(lv) == (if snap_line_pos(lv.skip(i as int)) >= 0 {
                snap_line_pos(lv.skip(i as int)) + i
            } else {
                -1
            }),
    {
        assert(lv.skip(i as int)[0] == ls@[i as int]@);
        assert(lv.skip(i as int).drop_first() =~= lv.skip(i + 1));
        assert(lv[i as int] == ls@[i as int]@);
        if str_starts_with(ls[i].as_str(), "snap ") {
            return Some(str_trim(ls[i].as_str()));
        }
    }
    assert(lv.skip(n as int) =~= Seq::<Seq<char>>::empty());
    if n > 0 {
        assert(lv[0] == ls@[0]@);
        Some(ls[0].clone())
    } else {
        None
    }
}

} // verus!
