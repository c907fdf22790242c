//! APT backend (Debian, Ubuntu and derivatives): what `dpkg-query` and
//! `apt-cache` report, read into application records.

use vstd::prelude::*;

use crate::backends::desktop::{
    desktop_key, desktop_localized, desktop_localized_value, desktop_value, file_name_of,
    path_file_name,
};
use crate::keyed::{
    entries_view, find_entry, key_pos, lemma_key_pos, lemma_key_pos_same_keys, pairs_view, put,
    put_pair,
};
use crate::models::{is_new_app, AppInfo, InstallMethod};
use crate::text::{
    char_to_uppercase, char_uppercase, chars_of, contains_seq, copy_string, join, join_strings,
    lines, opt_view, replace_char, split_by, split_once, split_whitespace, starts_with,
    str_contains, str_lines, str_replace_char, str_split_char, str_split_once,
    str_split_whitespace, str_starts_with, str_strip_prefix, str_trim, strip_prefix, trim, views,
    parse_u64, str_parse_u64,
};

verus! {

/// The APT backend.
pub struct AptBackend;

impl AptBackend {
    pub fn new() -> (r: Self) {
        AptBackend
    }

    pub fn id(&self) -> (r: InstallMethod)
        ensures
            r == InstallMethod::Apt,
    {
        InstallMethod::Apt
    }
}

// ---------------------------------------------------------------------------
// Package names.
// ---------------------------------------------------------------------------

/// Application packages recognised by name even without a desktop entry.
pub open spec fn known_apt_apps() -> Seq<Seq<char>> {
    seq![
        "firefox"@,
        "chromium"@,
        "thunderbird"@,
        "gimp"@,
        "vlc"@,
        "libreoffice"@,
        "code"@,
        "discord"@,
        "spotify"@,
        "steam"@,
        "inkscape"@,
        "blender"@,
        "audacity"@,
        "obs-studio"@,
        "transmission"@,
        "filezilla"@,
    ]
}

/// `pkg` is one of `known` or starts with one of them followed by `-`.
pub open spec fn named_like(pkg: Seq<char>, known: Seq<Seq<char>>) -> bool {
    exists|i: int|
        0 <= i < known.len() && (pkg == #[trigger] known[i] || starts_with(
            pkg,
            known[i] + seq!['-'],
        ))
}

pub(crate) fn is_named_like(pkg: &str, known: &[&str]) -> (r: bool)
    ensures
        r == named_like(pkg@, known@.map_values(|k: &str| k@)),
{
    let n = known.len();
    let ghost kv = known@.map_values(|k: &str| k@);
    for i in 0..n
        invariant
            n == known@.len(),
            kv == known@.map_values(|k: &str| k@),
            forall|j: int|
                0 <= j < i ==> !(pkg@ == #[trigger] kv[j] || starts_with(pkg@, kv[j] + seq!['-'])),
    {
        let mut dashed = copy_string(known[i]);
        crate::text::push_char(&mut dashed, '-');
        assert(kv[i as int] == known@[i as int]@);
        assert(dashed@ =~= kv[i as int] + seq!['-']);
        if crate::text::str_eq(pkg, known[i]) || str_starts_with(pkg, dashed.as_str()) {
            assert(pkg@ == kv[i as int] || starts_with(pkg@, kv[i as int] + seq!['-']));
            return true;
        }
    }
    false
}

/// Whether a package looks like an application by its name.
pub fn looks_like_app_package(pkg: &str) -> (r: bool)
    ensures
        r == named_like(pkg@, known_apt_apps()),
{
    let known = [
        "firefox",
        "chromium",
        "thunderbird",
        "gimp",
        "vlc",
        "libreoffice",
        "code",
        "discord",
        "spotify",
        "steam",
        "inkscape",
        "blender",
        "audacity",
        "obs-studio",
        "transmission",
        "filezilla",
    ];
    let r = is_named_like(pkg, &known);
    assert(known@.map_values(|k: &str| k@) =~= known_apt_apps());
    r
}

/// Library, development, documentation and data packages.
pub open spec fn is_library_name(pkg: Seq<char>) -> bool {
    starts_with(pkg, "lib"@) || starts_with(pkg, "python3-"@) || starts_with(pkg, "gir1.2-"@)
        || crate::text::ends_with(pkg, "-dev"@) || crate::text::ends_with(pkg, "-doc"@)
        || crate::text::ends_with(pkg, "-common"@) || crate::text::ends_with(pkg, "-data"@)
        || contains_seq(pkg, "-dbg"@)
}

/// Whether a package is a library or other non-application package.
pub fn is_library_package(pkg: &str) -> (r: bool)
    ensures
        r == is_library_name(pkg@),
{
    str_starts_with(pkg, "lib") || str_starts_with(pkg, "python3-") || str_starts_with(
        pkg,
        "gir1.2-",
    ) || crate::text::str_ends_with(pkg, "-dev") || crate::text::str_ends_with(pkg, "-doc")
        || crate::text::str_ends_with(pkg, "-common") || crate::text::str_ends_with(pkg, "-data")
        || str_contains(pkg, "-dbg")
}

/// A word with its first character uppercased.
pub open spec fn capitalized(w: Seq<char>) -> Seq<char> {
    if w.len() == 0 {
        w
    } else {
        char_uppercase(w[0]) + w.drop_first()
    }
}

/// A package name as a title: `-` become spaces, words are capitalised and
/// joined by single spaces.
pub open spec fn humanized(pkg: Seq<char>) -> Seq<char> {
    join(
        split_whitespace(replace_char(pkg, '-', ' ')).map_values(|w: Seq<char>| capitalized(w)),
        " "@,
    )
}

fn capitalize(w: &str) -> (r: String)
    ensures
        r@ == capitalized(w@),
{
    let x = chars_of(w);
    if x.len() == 0 {
        return String::new();
    }
    let up = char_to_uppercase(x[0]);
    let mut out = crate::text::string_of(&up);
    let rest = crate::text::string_of_range(&x, 1, x.len());
    out.append(rest.as_str());
    assert(x@.drop_first() =~= x@.subrange(1, x@.len() as int));
    out
}

/// A readable title for a package name.
pub fn humanize_name(pkg: &str) -> (r: String)
    ensures
        r@ == humanized(pkg@),
{
    let spaced = str_replace_char(pkg, '-', ' ');
    let words = str_split_whitespace(spaced.as_str());
    let n = words.len();
    let mut caps: Vec<String> = Vec::new();
    let ghost wv = views(words@);
    for i in 0..n
        invariant
            n == words@.len(),
            wv == views(words@),
            views(caps@) == wv.take(i as int).map_values(|w: Seq<char>| capitalized(w)),
    {
        let c = capitalize(words[i].as_str());
        assert(wv[i as int] == words@[i as int]@);
        let ghost before = views(caps@);
        let ghost cv = c@;
        caps.push(c);
        assert(views(caps@) =~= before.push(cv));
        assert(wv.take(i + 1).map_values(|w: Seq<char>| capitalized(w)) =~= wv.take(
            i as int,
        ).map_values(|w: Seq<char>| capitalized(w)).push(capitalized(wv[i as int])));
    }
    assert(wv.take(n as int) =~= wv);
    join_strings(&caps, " ")
}

// ---------------------------------------------------------------------------
// `dpkg-query -S /usr/share/applications/*.desktop`
// ---------------------------------------------------------------------------

/// The desktop file and package of one `dpkg-query -S` line
/// (`pkg[, pkg2...]: /path`): the trimmed path and the trimmed first
/// package, when both are non-empty.
pub open spec fn desktop_owner_line(line: Seq<char>) -> Option<(Seq<char>, Seq<char>)> {
    match split_once(line, ':') {
        Some((pkgs, path)) => {
            let p = trim(path);
            let k = trim(split_by(pkgs, ',')[0]);
            if k.len() > 0 && p.len() > 0 {
                Some((p, k))
            } else {
                None
            }
        },
        None => None,
    }
}

/// The desktop file -> package table of the lines; a later line for the
/// same desktop file replaces the earlier one.
pub open spec fn desktop_owner_table(ls: Seq<Seq<char>>) -> Seq<(Seq<char>, Seq<char>)>
    decreases ls.len(),
{
    if ls.len() == 0 {
        Seq::empty()
    } else {
        let t = desktop_owner_table(ls.drop_last());
        match desktop_owner_line(ls.last()) {
            Some((p, k)) => put(t, p, k),
            None => t,
        }
    }
}

/// Reads the output of `dpkg-query -S` into a desktop file -> package
/// table.
pub fn parse_desktop_owners(output: &str) -> (r: Vec<(String, String)>)
    ensures
        pairs_view(r@) == desktop_owner_table(lines(output@)),
{
    let ls = str_lines(output);
    let ghost lv = views(ls@);
    let n = ls.len();
    let mut table: Vec<(String, String)> = Vec::new();
    assert(pairs_view(table@) =~= Seq::<(Seq<char>, Seq<char>)>::empty());
    for i in 0..n
        invariant
            n == ls@.len(),
            lv == views(ls@),
            lv == lines(output@),
            pairs_view(table@) == desktop_owner_table(lv.take(i as int)),
    {
        assert(lv.take(i + 1).drop_last() =~= lv.take(i as int));
        assert(lv.take(i + 1).last() == ls@[i as int]@);
        if let Some((pkgs, path)) = str_split_once(ls[i].as_str(), ':') {
            let p = str_trim(path.as_str());
            let firsts = str_split_char(pkgs.as_str(), ',');
            proof {
                crate::text::lemma_split_by_len(pkgs@, ',');
            }
            let k = str_trim(firsts[0].as_str());
            if k.as_str().is_empty() == false && p.as_str().is_empty() == false {
                put_pair(&mut table, p, k);
            }
        }
    }
    assert(lv.take(n as int) =~= lv);
    table
}

// ---------------------------------------------------------------------------
// `dpkg-query -W` listing.
// ---------------------------------------------------------------------------

/// A listing row is kept when it has five tab-separated fields, its status
/// says installed (and not not-installed) and the package has a desktop
/// entry, or looks like an application and is not a library.
pub open spec fn dpkg_row_kept(parts: Seq<Seq<char>>, desktop_pkgs: Seq<Seq<char>>) -> bool {
    &&& parts.len() >= 5
    &&& contains_seq(parts[4], "installed"@)
    &&& !contains_seq(parts[4], "not-installed"@)
    &&& (desktop_pkgs.contains(parts[0]) || named_like(parts[0], known_apt_apps()))
    &&& !(is_library_name(parts[0]) && !desktop_pkgs.contains(parts[0]))
}

/// The kept rows by package, a later row for the same package replacing the
/// earlier one.
pub open spec fn dpkg_table(ls: Seq<Seq<char>>, desktop_pkgs: Seq<Seq<char>>) -> Seq<
    (Seq<char>, Seq<Seq<char>>),
>
    decreases ls.len(),
{
    if ls.len() == 0 {
        Seq::empty()
    } else {
        let t = dpkg_table(ls.drop_last(), desktop_pkgs);
        let parts = split_by(ls.last(), '\t');
        if dpkg_row_kept(parts, desktop_pkgs) {
            put(t, parts[0], parts)
        } else {
            t
        }
    }
}

/// Size of an `Installed-Size` field (KiB) in bytes, wrapping at 2^64.
pub open spec fn kib_bytes(field: Seq<char>) -> Option<u64> {
    match parse_u64(field) {
        Some(k) => Some(((k as int * 1024) % 0x1_0000_0000_0000_0000) as u64),
        None => None,
    }
}

/// The record of a kept listing row: package, humanized name, version,
/// architecture, size, origin `Repositório APT`, install path `/usr` and the
/// package as icon name.
pub open spec fn is_dpkg_app(a: AppInfo, parts: Seq<Seq<char>>) -> bool {
    &&& parts.len() >= 5
    &&& is_new_app(
        AppInfo {
            version: None,
            architecture: None,
            size_bytes: None,
            origin: None,
            install_path: None,
            icon_name: None,
            ..a
        },
        InstallMethod::Apt,
        parts[0],
        humanized(parts[0]),
    )
    &&& opt_view(a.version) == Some(parts[1])
    &&& opt_view(a.architecture) == Some(parts[2])
    &&& a.size_bytes == kib_bytes(parts[3])
    &&& opt_view(a.origin) == Some("Repositório APT"@)
    &&& opt_view(a.install_path) == Some("/usr"@)
    &&& opt_view(a.icon_name) == Some(parts[0])
}

/// `es` holds, key by key and in order, records for the rows of `t`.
pub open spec fn records_for_rows(
    es: Seq<(String, AppInfo)>,
    t: Seq<(Seq<char>, Seq<Seq<char>>)>,
    row_app: spec_fn(AppInfo, Seq<Seq<char>>) -> bool,
) -> bool {
    &&& es.len() == t.len()
    &&& forall|i: int|
        0 <= i < es.len() ==> (#[trigger] es[i]).0@ == t[i].0 && row_app(es[i].1, t[i].1)
}

fn dpkg_app(parts: &Vec<String>) -> (r: AppInfo)
    requires
        parts@.len() >= 5,
    ensures
        is_dpkg_app(r, views(parts@)),
{
    let pkg = parts[0].as_str();
    let name = humanize_name(pkg);
    let mut app = AppInfo::new(InstallMethod::Apt, pkg, name.as_str());
    app.version = Some(parts[1].clone());
    app.architecture = Some(parts[2].clone());
    match str_parse_u64(parts[3].as_str()) {
        Some(kib) => {
            app.size_bytes = Some(kib.wrapping_mul(1024));
        },
        None => {},
    }
    app.origin = Some(copy_string("Repositório APT"));
    app.install_path = Some(copy_string("/usr"));
    app.icon_name = Some(copy_string(pkg));
    app
}

pub(crate) fn contains_string(v: &Vec<String>, s: &str) -> (r: bool)
    ensures
        r == views(v@).contains(s@),
{
    let n = v.len();
    for i in 0..n
        invariant
            n == v@.len(),
            forall|j: int| 0 <= j < i ==> v@[j]@ != s@,
    {
        if crate::text::str_eq(v[i].as_str(), s) {
            assert(views(v@)[i as int] == s@);
            return true;
        }
    }
    assert forall|j: int| 0 <= j < views(v@).len() implies views(v@)[j] != s@ by {
        assert(views(v@)[j] == v@[j]@);
    }
    false
}

fn put_record(
    es: &mut Vec<(String, AppInfo)>,
    k: String,
    a: AppInfo,
    Ghost(t): Ghost<Seq<(Seq<char>, Seq<Seq<char>>)>>,
    Ghost(row): Ghost<Seq<Seq<char>>>,
    Ghost(row_app): Ghost<spec_fn(AppInfo, Seq<Seq<char>>) -> bool>,
)
    requires
        records_for_rows(old(es)@, t, row_app),
        row_app(a, row),
    ensures
        records_for_rows(final(es)@, put(t, k@, row), row_app),
{
    let ghost kv = k@;
    proof {
        lemma_key_pos_same_keys(entries_view(es@), t, kv);
        lemma_key_pos(t, kv);
    }
    match find_entry(es, k.as_str()) {
        Some(i) => {
            es.set(i, (k, a));
            assert(records_for_rows(es@, put(t, kv, row), row_app));
        },
        None => {
            es.push((k, a));
            assert(records_for_rows(es@, put(t, kv, row), row_app));
        },
    }
}

pub open spec fn record_values(es: Seq<(String, AppInfo)>) -> Seq<AppInfo> {
    es.map_values(|e: (String, AppInfo)| e.1)
}

pub(crate) fn into_records(es: Vec<(String, AppInfo)>) -> (r: Vec<AppInfo>)
    ensures
        r@ == record_values(es@),
{
    let ghost orig = es@;
    let mut rest = es;
    let n = rest.len();
    let mut out: Vec<AppInfo> = Vec::new();
    let mut k: usize = 0;
    assert(orig.skip(0) =~= orig);
    while k < n
        invariant
            k <= n == orig.len(),
            rest@ == orig.skip(k as int),
            out@ == record_values(orig.take(k as int)),
        decreases n - k,
    {
        let e = rest.remove(0);
        assert(e == orig[k as int]);
        assert(orig.skip(k as int).remove(0) =~= orig.skip(k + 1));
        out.push(e.1);
        assert(out@ =~= record_values(orig.take(k + 1)));
        k = k + 1;
    }
    assert(orig.take(n as int) =~= orig);
    out
}

/// The row `package\tversion\tarchitecture\tsize\tstatus` of a
/// `dpkg-query -W` listing.
pub open spec fn dpkg_row(
    pkg: Seq<char>,
    version: Seq<char>,
    arch: Seq<char>,
    size: Seq<char>,
    status: Seq<char>,
) -> Seq<char> {
    pkg + seq!['\t'] + version + seq!['\t'] + arch + seq!['\t'] + size + seq!['\t'] + status
}

/// A field of a row: no tab, newline or carriage return.
pub open spec fn plain_field(f: Seq<char>) -> bool {
    !f.contains('\t') && !f.contains('\n') && !f.contains('\r')
}

/// The columns of a `dpkg-query -W` row: a listing made of one row
/// `package\tversion\tarchitecture\tsize\tstatus` (ending in a newline) that
/// is kept gives one entry, for that package, whose record (by the
/// listing's contract) has that package id, the second column as its
/// version and the third as its architecture.
pub proof fn lemma_dpkg_columns(
    pkg: Seq<char>,
    version: Seq<char>,
    arch: Seq<char>,
    size: Seq<char>,
    status: Seq<char>,
    desktop_pkgs: Seq<Seq<char>>,
    a: AppInfo,
)
    requires
        plain_field(pkg),
        plain_field(version),
        plain_field(arch),
        plain_field(size),
        plain_field(status),
        dpkg_row_kept(seq![pkg, version, arch, size, status], desktop_pkgs),
    ensures
        dpkg_table(lines(dpkg_row(pkg, version, arch, size, status).push('\n')), desktop_pkgs)
            == seq![(pkg, seq![pkg, version, arch, size, status])],
        is_dpkg_app(a, split_by(dpkg_row(pkg, version, arch, size, status), '\t')) ==> {
            &&& a.package_id@ == pkg
            &&& a.method == InstallMethod::Apt
            &&& opt_view(a.version) == Some(version)
            &&& opt_view(a.architecture) == Some(arch)
        },
{
    let row = dpkg_row(pkg, version, arch, size, status);
    crate::text::lemma_split_by_whole(pkg, '\t');
    crate::text::lemma_split_by_field(pkg, version, '\t');
    crate::text::lemma_split_by_field(pkg + seq!['\t'] + version, arch, '\t');
    crate::text::lemma_split_by_field(pkg + seq!['\t'] + version + seq!['\t'] + arch, size, '\t');
    crate::text::lemma_split_by_field(
        pkg + seq!['\t'] + version + seq!['\t'] + arch + seq!['\t'] + size,
        status,
        '\t',
    );
    let parts = seq![pkg, version, arch, size, status];
    assert(split_by(row, '\t') =~= parts);
    assert(!row.contains('\n') && !(row.len() > 0 && row.last() == '\r')) by {
        if row.contains('\n') {
            let i = choose|i: int| 0 <= i < row.len() && row[i] == '\n';
            let l1 = pkg.len();
            let l2 = l1 + 1 + version.len();
            let l3 = l2 + 1 + arch.len();
            let l4 = l3 + 1 + size.len();
            if i < l1 {
                assert(pkg[i] == '\n');
            } else if i == l1 || i == l2 || i == l3 || i == l4 {
            } else if i < l2 {
                assert(version[i - l1 - 1] == '\n');
            } else if i < l3 {
                assert(arch[i - l2 - 1] == '\n');
            } else if i < l4 {
                assert(size[i - l3 - 1] == '\n');
            } else {
                assert(status[i - l4 - 1] == '\n');
            }
        }
        if row.len() > 0 && row.last() == '\r' {
            if status.len() > 0 {
                assert(status[status.len() - 1] == '\r');
            }
        }
    }
    crate::text::lemma_split_by_whole(row, '\n');
    assert(row.push('\n').drop_last() =~= row);
    assert(lines(row.push('\n')) =~= seq![row]);
    let ls = seq![row];
    assert(ls.drop_last() =~= Seq::<Seq<char>>::empty());
    assert(ls.last() == row);
    let empty = Seq::<(Seq<char>, Seq<Seq<char>>)>::empty();
    assert(dpkg_table(ls.drop_last(), desktop_pkgs) == empty);
    assert(split_by(ls.last(), '\t') == parts);
    assert(parts[0] == pkg);
    assert(key_pos(empty, pkg) == -1);
    assert(put(empty, pkg, parts) =~= seq![(pkg, parts)]);
    assert(dpkg_table(ls, desktop_pkgs) == put(empty, pkg, parts));
}

/// The applications of a `dpkg-query -W` listing
/// (`package, version, architecture, installed size, status` separated by
/// tabs), one per kept package, in the order packages first appear.
pub fn parse_dpkg_listing(output: &str, desktop_pkgs: &Vec<String>) -> (r: Vec<AppInfo>)
    ensures
        ({
            let t = dpkg_table(lines(output@), views(desktop_pkgs@));
            &&& r@.len() == t.len()
            &&& forall|i: int| 0 <= i < r@.len() ==> is_dpkg_app(#[trigger] r@[i], t[i].1)
        }),
{
    let ls = str_lines(output);
    let ghost lv = views(ls@);
    let ghost dv = views(desktop_pkgs@);
    let ghost row_app = |a: AppInfo, p: Seq<Seq<char>>| is_dpkg_app(a, p);
    let n = ls.len();
    let mut es: Vec<(String, AppInfo)> = Vec::new();
    for i in 0..n
        invariant
            n == ls@.len(),
            lv == views(ls@),
            lv == lines(output@),
            dv == views(desktop_pkgs@),
            row_app == (|a: AppInfo, p: Seq<Seq<char>>| is_dpkg_app(a, p)),
            records_for_rows(es@, dpkg_table(lv.take(i as int), dv), row_app),
    {
        assert(lv.take(i + 1).drop_last() =~= lv.take(i as int));
        assert(lv.take(i + 1).last() == ls@[i as int]@);
        let parts = str_split_char(ls[i].as_str(), '\t');
        let ghost pv = views(parts@);
        if parts.len() >= 5 {
            let pkg = parts[0].as_str();
            let status = parts[4].as_str();
            let in_desktop = contains_string(desktop_pkgs, pkg);
            let kept = str_contains(status, "installed") && !str_contains(status, "not-installed")
                && (in_desktop || looks_like_app_package(pkg)) && !(is_library_package(pkg)
                && !in_desktop);
            if kept {
                let app = dpkg_app(&parts);
                let key = parts[0].clone();
                put_record(
                    &mut es,
                    key,
                    app,
                    Ghost(dpkg_table(lv.take(i as int), dv)),
                    Ghost(pv),
                    Ghost(row_app),
                );
            }
        }
    }
    assert(lv.take(n as int) =~= lv);
    let ghost t = dpkg_table(lv, dv);
    let ghost ev = es@;
    let r = into_records(es);
    assert forall|i: int| 0 <= i < r@.len() implies is_dpkg_app(#[trigger] r@[i], t[i].1) by {
        assert(r@[i] == ev[i].1);
        assert(row_app(ev[i].1, t[i].1));
    }
    r
}

// ---------------------------------------------------------------------------
// Desktop entries of packages.
// ---------------------------------------------------------------------------

/// First category of a `Categories=` value other than `Application`, or
/// `Aplicativo`.
pub open spec fn first_category(cats: Seq<char>) -> Seq<char> {
    first_real_category(split_by(cats, ';'))
}

pub open spec fn first_real_category(parts: Seq<Seq<char>>) -> Seq<char>
    decreases parts.len(),
{
    if parts.len() == 0 {
        "Aplicativo"@
    } else if parts[0].len() > 0 && parts[0] != "Application"@ {
        parts[0]
    } else {
        first_real_category(parts.drop_first())
    }
}

fn pick_category(cats: &str) -> (r: String)
    ensures
        r@ == first_category(cats@),
{
    let parts = str_split_char(cats, ';');
    let ghost pv = views(parts@);
    let n = parts.len();
    assert(pv.skip(0) =~= pv);
    for i in 0..n
        invariant
            n == parts@.len(),
            pv == views(parts@),
            first_category(cats@) == first_real_category(pv.skip(i as int)),
    {
        assert(pv.skip(i as int)[0] == parts@[i as int]@);
        assert(pv.skip(i as int).drop_first() =~= pv.skip(i + 1));
        let p = parts[i].as_str();
        if !p.is_empty() && !crate::text::str_eq(p, "Application") {
            return parts[i].clone();
        }
    }
    assert(pv.skip(n as int) =~= Seq::<Seq<char>>::empty());
    copy_string("Aplicativo")
}

/// Whether a desktop entry is hidden from menus.
pub open spec fn desktop_hidden(content: Seq<char>) -> bool {
    contains_seq(content, "NoDisplay=true"@) || contains_seq(content, "Hidden=true"@)
}

/// `b` is `a` enriched from the desktop file of its package at `path`: a
/// hidden entry changes nothing; otherwise the localized name replaces the
/// name, `Icon=` sets the icon path (absolute) or icon name, a missing
/// description comes from the localized comment, a missing category from
/// the first category, and the desktop id becomes the file name of `path`.
pub open spec fn enriched_from_desktop(a: AppInfo, b: AppInfo, path: Seq<char>, content: Seq<char>) -> bool {
    if desktop_hidden(content) {
        b == a
    } else {
        &&& b.name@ == (match desktop_localized_value(content, "Name"@) {
            Some(n) => n,
            None => a.name@,
        })
        &&& opt_view(b.icon_path) == (match desktop_value(content, "Icon"@) {
            Some(i) => if starts_with(i, "/"@) {
                Some(i)
            } else {
                opt_view(a.icon_path)
            },
            None => opt_view(a.icon_path),
        })
        &&& opt_view(b.icon_name) == (match desktop_value(content, "Icon"@) {
            Some(i) => if starts_with(i, "/"@) {
                opt_view(a.icon_name)
            } else {
                Some(i)
            },
            None => opt_view(a.icon_name),
        })
        &&& opt_view(b.description) == (if a.description is None {
            desktop_localized_value(content, "Comment"@)
        } else {
            opt_view(a.description)
        })
        &&& opt_view(b.category) == (if a.category is None {
            match desktop_value(content, "Categories"@) {
                Some(c) => Some(first_category(c)),
                None => None,
            }
        } else {
            opt_view(a.category)
        })
        &&& opt_view(b.desktop_id) == file_name_of(path)
        &&& b == AppInfo {
            name: b.name,
            icon_path: b.icon_path,
            icon_name: b.icon_name,
            description: b.description,
            category: b.category,
            desktop_id: b.desktop_id,
            ..a
        }
    }
}

/// Enriches an application from the desktop file of its package.
pub fn enrich_from_desktop_entry(app: &mut AppInfo, path: &str, content: &str)
    ensures
        enriched_from_desktop(*old(app), *final(app), path@, content@),
{
    if str_contains(content, "NoDisplay=true") || str_contains(content, "Hidden=true") {
        return;
    }
    if let Some(n) = desktop_localized(content, "Name") {
        app.name = n;
    }
    if let Some(icon) = desktop_key(content, "Icon") {
        if str_starts_with(icon.as_str(), "/") {
            app.icon_path = Some(icon);
        } else {
            app.icon_name = Some(icon);
        }
    }
    if app.description.is_none() {
        app.description = desktop_localized(content, "Comment");
    }
    if app.category.is_none() {
        app.category = match desktop_key(content, "Categories") {
            Some(c) => Some(pick_category(c.as_str())),
            None => None,
        };
    }
    app.desktop_id = path_file_name(path);
}

// ---------------------------------------------------------------------------
// `apt-cache show <package>`
// ---------------------------------------------------------------------------

/// What the `apt-cache show` reader tracks: developer, description,
/// category and origin of the record, the lines of the English description
/// read so far and whether the reader is inside that description.
pub type AptShow = (
    Option<Seq<char>>,
    Option<Seq<char>>,
    Option<Seq<char>>,
    Option<Seq<char>>,
    Seq<Seq<char>>,
    bool,
);

/// Origin given to records of the APT repositories.
pub open spec fn apt_origin() -> Seq<char> {
    "Repositório APT"@
}

/// The name of a `Maintainer:` value (`Name <email>`).
pub open spec fn maintainer_name(v: Seq<char>) -> Seq<char> {
    trim(split_by(v, '<')[0])
}

/// One line of `apt-cache show`: the first missing developer from
/// `Maintainer:`; the Brazilian Portuguese description from
/// `Description-pt_BR:`; the English description, with its indented
/// continuation lines (a lone `.` skipped), when no description is known;
/// the first missing category from `Section:`; and `APT · <homepage>` as
/// origin when the origin is still the repository's.
pub open spec fn apt_show_step(st: AptShow, line: Seq<char>) -> AptShow {
    let (dev, desc, cat, origin, dl, in_desc) = st;
    if let Some(v) = strip_prefix(line, "Maintainer: "@) {
        if dev is None {
            (Some(maintainer_name(v)), desc, cat, origin, dl, in_desc)
        } else {
            st
        }
    } else if let Some(v) = strip_prefix(line, "Description-pt_BR: "@) {
        (dev, Some(v), cat, origin, dl, false)
    } else if let Some(v) = strip_prefix(line, "Description: "@) {
        if desc is None {
            (dev, desc, cat, origin, seq![v], true)
        } else {
            st
        }
    } else if in_desc {
        if starts_with(line, " "@) || starts_with(line, "\t"@) {
            if trim(line) != "."@ {
                (dev, desc, cat, origin, dl.push(trim(line)), in_desc)
            } else {
                st
            }
        } else {
            (dev, desc, cat, origin, dl, false)
        }
    } else if let Some(v) = strip_prefix(line, "Section: "@) {
        if cat is None {
            (dev, desc, Some(v), origin, dl, in_desc)
        } else {
            st
        }
    } else if let Some(v) = strip_prefix(line, "Homepage: "@) {
        if origin == Some(apt_origin()) {
            (dev, desc, cat, Some("APT · "@ + v), dl, in_desc)
        } else {
            st
        }
    } else {
        st
    }
}

pub open spec fn apt_show_state(st: AptShow, ls: Seq<Seq<char>>) -> AptShow
    decreases ls.len(),
{
    if ls.len() == 0 {
        st
    } else {
        apt_show_step(apt_show_state(st, ls.drop_last()), ls.last())
    }
}

/// Developer, description, category and origin after reading the output:
/// a description still missing is the English description lines joined by
/// spaces.
pub open spec fn apt_show_result(a: AppInfo, output: Seq<char>) -> (
    Option<Seq<char>>,
    Option<Seq<char>>,
    Option<Seq<char>>,
    Option<Seq<char>>,
) {
    let init: AptShow = (
        opt_view(a.developer),
        opt_view(a.description),
        opt_view(a.category),
        opt_view(a.origin),
        Seq::empty(),
        false,
    );
    let (dev, desc, cat, origin, dl, _) = apt_show_state(init, lines(output));
    let desc = if desc is None && dl.len() > 0 {
        Some(join(dl, " "@))
    } else {
        desc
    };
    (dev, desc, cat, origin)
}

/// Fills developer, description, category and origin of an application
/// from the output of `apt-cache show` for its package.
pub fn enrich_from_apt_show(app: &mut AppInfo, output: &str)
    ensures
        ({
            let (dev, desc, cat, origin) = apt_show_result(*old(app), output@);
            &&& opt_view(final(app).developer) == dev
            &&& opt_view(final(app).description) == desc
            &&& opt_view(final(app).category) == cat
            &&& opt_view(final(app).origin) == origin
            &&& *final(app) == (AppInfo {
                developer: final(app).developer,
                description: final(app).description,
                category: final(app).category,
                origin: final(app).origin,
                ..*old(app)
            })
        }),
{
    let ghost a0 = *app;
    let ghost init: AptShow = (
        opt_view(a0.developer),
        opt_view(a0.description),
        opt_view(a0.category),
        opt_view(a0.origin),
        Seq::empty(),
        false,
    );
    let ls = str_lines(output);
    let ghost lv = views(ls@);
    let n = ls.len();
    let mut dl: Vec<String> = Vec::new();
    let mut in_desc = false;
    assert(views(dl@) =~= Seq::<Seq<char>>::empty());
    for i in 0..n
        invariant
            n == ls@.len(),
            lv == views(ls@),
            lv == lines(output@),
            (
                opt_view(app.developer),
                opt_view(app.description),
                opt_view(app.category),
                opt_view(app.origin),
                views(dl@),
                in_desc,
            ) == apt_show_state(init, lv.take(i as int)),
            *app == (AppInfo {
                developer: app.developer,
                description: app.description,
                category: app.category,
                origin: app.origin,
                ..a0
            }),
    {
        assert(lv.take(i + 1).drop_last() =~= lv.take(i as int));
        assert(lv.take(i + 1).last() == ls@[i as int]@);
        let line = ls[i].as_str();
        if let Some(v) = str_strip_prefix(line, "Maintainer: ") {
            if app.developer.is_none() {
                let parts = str_split_char(v.as_str(), '<');
                proof {
                    crate::text::lemma_split_by_len(v@, '<');
                }
                app.developer = Some(str_trim(parts[0].as_str()));
            }
        } else if let Some(v) = str_strip_prefix(line, "Description-pt_BR: ") {
            app.description = Some(v);
            in_desc = false;
        } else if let Some(v) = str_strip_prefix(line, "Description: ") {
            if app.description.is_none() {
                let ghost vv = v@;
                dl = Vec::new();
                dl.push(v);
                assert(views(dl@) =~= seq![vv]);
                in_desc = true;
            }
        } else if in_desc {
            if str_starts_with(line, " ") || str_starts_with(line, "\t") {
                let t = str_trim(line);
                if !crate::text::str_eq(t.as_str(), ".") {
                    let ghost before = views(dl@);
                    let ghost tv = t@;
                    dl.push(t);
                    assert(views(dl@) =~= before.push(tv));
                }
            } else {
                in_desc = false;
            }
        } else if let Some(v) = str_strip_prefix(line, "Section: ") {
            if app.category.is_none() {
                app.category = Some(v);
            }
        } else if let Some(v) = str_strip_prefix(line, "Homepage: ") {
            let is_repo = match &app.origin {
                Some(o) => crate::text::str_eq(o.as_str(), "Repositório APT"),
                None => false,
            };
            if is_repo {
                let mut o = copy_string("APT · ");
                o.append(v.as_str());
                app.origin = Some(o);
            }
        }
    }
    assert(lv.take(n as int) =~= lv);
    if app.description.is_none() && dl.len() > 0 {
        app.description = Some(join_strings(&dl, " "));
    }
}

/// The packages of the applications lacking a description or a developer,
/// in order.
pub open spec fn lacking_details(apps: Seq<AppInfo>) -> Seq<Seq<char>>
    decreases apps.len(),
{
    if apps.len() == 0 {
        Seq::empty()
    } else {
        let p = lacking_details(apps.drop_last());
        let a = apps.last();
        if a.description is None || a.developer is None {
            p.push(a.package_id@)
        } else {
            p
        }
    }
}

/// Most packages asked about with `apt-cache show` in one scan.
pub const APT_CACHE_BATCH: usize = 80;

/// The packages to ask `apt-cache show` about: the first
/// `APT_CACHE_BATCH` of those lacking a description or a developer.
pub fn apt_cache_candidates(apps: &Vec<AppInfo>) -> (r: Vec<String>)
    ensures
        views(r@) == (if lacking_details(apps@).len() <= APT_CACHE_BATCH {
            lacking_details(apps@)
        } else {
            lacking_details(apps@).take(APT_CACHE_BATCH as int)
        }),
{
    let n = apps.len();
    let mut out: Vec<String> = Vec::new();
    for i in 0..n
        invariant
            n == apps@.len(),
            views(out@) == (if lacking_details(apps@.take(i as int)).len() <= APT_CACHE_BATCH {
                lacking_details(apps@.take(i as int))
            } else {
                lacking_details(apps@.take(i as int)).take(APT_CACHE_BATCH as int)
            }),
    {
        assert(apps@.take(i + 1).drop_last() =~= apps@.take(i as int));
        let a = &apps[i];
        if a.description.is_none() || a.developer.is_none() {
            if out.len() < APT_CACHE_BATCH {
                let ghost before = views(out@);
                let k = a.package_id.clone();
                out.push(k);
                assert(views(out@) =~= before.push(apps@[i as int].package_id@));
            }
        }
        proof {
            let l0 = lacking_details(apps@.take(i as int));
            let l1 = lacking_details(apps@.take(i + 1));
            if l1.len() > APT_CACHE_BATCH && l0.len() >= APT_CACHE_BATCH {
                assert(l1.take(APT_CACHE_BATCH as int) =~= if l0.len() <= APT_CACHE_BATCH {
                    l0
                } else {
                    l0.take(APT_CACHE_BATCH as int)
                });
            }
        }
    }
    assert(apps@.take(n as int) =~= apps@);
    out
}

} // verus!
