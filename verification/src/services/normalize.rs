//! Normalisation after a scan: de-duplication keys, system classification,
//! icon name guesses and the removal of duplicates across backends.

use vstd::prelude::*;

use crate::keyed::{
    entries_view, find_entry, find_pair, key_pos, lemma_key_pos, lemma_key_pos_prefix,
    lemma_key_pos_same_keys, pairs_view, put, put_entry, put_pair,
};
use crate::models::{clone_opt_string, AppInfo, InstallMethod, SortBy};
use crate::text::opt_view;
use crate::sorting::{
    is_sorted_by, lemma_insert_sorted_shape, lemma_sorted_by, sort_apps, sorted_by,
};
use crate::system::paths::{join_path, joined};
use crate::text::{
    ascii_lower, is_ascii_alphanumeric, is_ascii_char, char_is_alphanumeric, char_lowercase, char_to_lowercase, chars_of, contains_seq, copy_string,
    ends_with, is_alphanumeric, lowercase, push_char, str_contains, str_eq, str_trim_end_matches,
    to_lowercase, trim_end_matches, views,
};

verus! {

// ---------------------------------------------------------------------------
// De-duplication key.
// ---------------------------------------------------------------------------

/// The alphanumeric characters of a name, each lowercased.
pub open spec fn normalized(s: Seq<char>) -> Seq<char>
    decreases s.len(),
{
    if s.len() == 0 {
        Seq::empty()
    } else {
        normalized(s.drop_last()) + if is_alphanumeric(s.last()) {
            char_lowercase(s.last())
        } else {
            Seq::empty()
        }
    }
}

/// On ASCII text: the ASCII letters and digits, capitals lowercased.
pub open spec fn ascii_key(s: Seq<char>) -> Seq<char>
    decreases s.len(),
{
    if s.len() == 0 {
        Seq::empty()
    } else {
        ascii_key(s.drop_last()) + if is_ascii_alphanumeric(s.last()) {
            seq![ascii_lower(s.last())]
        } else {
            Seq::empty()
        }
    }
}

/// De-duplication key of a name: its alphanumeric characters, lowercased.
pub fn normalize_key(name: &str) -> (r: String)
    ensures
        r@ == normalized(name@),
        vstd::utf8::is_ascii_chars(name@) ==> r@ == ascii_key(name@),
{
    let x = chars_of(name);
    let n = x.len();
    let mut out = String::new();
    for i in 0..n
        invariant
            n == x@.len(),
            x@ == name@,
            out@ == normalized(x@.take(i as int)),
            vstd::utf8::is_ascii_chars(x@) ==> out@ == ascii_key(x@.take(i as int)),
    {
        let c = x[i];
        assert(x@.take(i + 1).drop_last() =~= x@.take(i as int));
        assert(x@.take(i + 1).last() == c);
        assert(vstd::utf8::is_ascii_chars(x@) ==> is_ascii_char(c));
        if char_is_alphanumeric(c) {
            let low = char_to_lowercase(c);
            let m = low.len();
            let ghost before = out@;
            for j in 0..m
                invariant
                    m == low@.len(),
                    out@ == before + low@.take(j as int),
            {
                push_char(&mut out, low[j]);
                assert(low@.take(j + 1) =~= low@.take(j as int).push(low@[j as int]));
                assert(out@ =~= before + low@.take(j + 1));
            }
            assert(low@.take(m as int) =~= low@);
            assert(out@ =~= normalized(x@.take(i + 1)));
            assert(vstd::utf8::is_ascii_chars(x@) ==> out@ =~= ascii_key(x@.take(i + 1)));
        } else {
            assert(out@ =~= normalized(x@.take(i + 1)));
            assert(vstd::utf8::is_ascii_chars(x@) ==> out@ =~= ascii_key(x@.take(i + 1)));
        }
    }
    assert(x@.take(n as int) =~= x@);
    out
}

proof fn lemma_ascii_key_push(s: Seq<char>, c: char)
    ensures
        ascii_key(s.push(c)) == ascii_key(s) + if is_ascii_alphanumeric(c) {
            seq![ascii_lower(c)]
        } else {
            Seq::<char>::empty()
        },
{
    assert(s.push(c).drop_last() =~= s);
}

/// On ASCII text the key is ASCII, and the key of a key is itself: taking
/// the de-duplication key twice changes nothing.
pub proof fn lemma_ascii_key_idempotent(s: Seq<char>)
    requires
        vstd::utf8::is_ascii_chars(s),
    ensures
        vstd::utf8::is_ascii_chars(ascii_key(s)),
        ascii_key(ascii_key(s)) == ascii_key(s),
    decreases s.len(),
{
    if s.len() > 0 {
        let t = s.drop_last();
        let c = s.last();
        assert(vstd::utf8::is_ascii_chars(t)) by {
            assert forall|i: int| 0 <= i < t.len() implies '\0' <= #[trigger] t[i] <= '\u{7f}' by {
                assert(t[i] == s[i]);
            }
        }
        lemma_ascii_key_idempotent(t);
        let k = ascii_key(t);
        assert(s == t.push(c));
        if is_ascii_alphanumeric(c) {
            let d = ascii_lower(c);
            assert(is_ascii_alphanumeric(d) && ascii_lower(d) == d && '\0' <= d <= '\u{7f}');
            lemma_ascii_key_push(k, d);
            assert(ascii_key(s) == k.push(d));
            assert(vstd::utf8::is_ascii_chars(k.push(d))) by {
                assert forall|i: int| 0 <= i < k.push(d).len() implies '\0' <= #[trigger] k.push(
                    d,
                )[i] <= '\u{7f}' by {
                    if i < k.len() {
                        assert(k.push(d)[i] == k[i]);
                    }
                }
            }
        } else {
            assert(ascii_key(s) =~= k);
        }
    }
}

// ---------------------------------------------------------------------------
// System classification.
// ---------------------------------------------------------------------------

/// A category that names a system or settings component.
pub open spec fn is_system_category(category: Option<String>) -> bool {
    match category {
        Some(c) => {
            let l = lowercase(c@);
            contains_seq(l, "system"@) || contains_seq(l, "settings"@) || contains_seq(
                l,
                "desktopsettings"@,
            ) || contains_seq(l, "x-gnome-settings"@)
        },
        None => false,
    }
}

fn system_category(category: &Option<String>) -> (r: bool)
    ensures
        r == is_system_category(*category),
{
    match category {
        Some(c) => {
            let l = to_lowercase(c.as_str());
            str_contains(l.as_str(), "system") || str_contains(l.as_str(), "settings")
                || str_contains(l.as_str(), "desktopsettings") || str_contains(
                l.as_str(),
                "x-gnome-settings",
            )
        },
        None => false,
    }
}

pub open spec fn is_reclassified(a: AppInfo) -> bool {
    (a.method == InstallMethod::Apt || a.method == InstallMethod::Dnf || a.method
        == InstallMethod::Manual) && is_system_category(a.category)
}

/// Every field but method, id and origin agrees.
pub open spec fn same_but_method_id_origin(a: AppInfo, b: AppInfo) -> bool {
    &&& a.name == b.name
    &&& a.icon_name == b.icon_name
    &&& a.icon_path == b.icon_path
    &&& a.developer == b.developer
    &&& a.version == b.version
    &&& a.architecture == b.architecture
    &&& a.install_date == b.install_date
    &&& a.size_bytes == b.size_bytes
    &&& a.install_path == b.install_path
    &&& a.status == b.status
    &&& a.category == b.category
    &&& a.description == b.description
    &&& a.update_available == b.update_available
    &&& a.package_id == b.package_id
    &&& a.desktop_id == b.desktop_id
}

/// `b` is `a` after system classification: APT, DNF and manual applications
/// whose category is a system one move to the System method, their id
/// becomes `system:{package_id}` and a missing origin becomes the
/// system-component label; every other application is unchanged.
pub open spec fn classified_as(a: AppInfo, b: AppInfo) -> bool {
    if is_reclassified(a) {
        &&& b.method == InstallMethod::System
        &&& b.id@ == "system:"@ + a.package_id@
        &&& (a.origin is None ==> (b.origin matches Some(o) && o@ == "Componente do sistema"@))
        &&& (a.origin is Some ==> b.origin == a.origin)
        &&& same_but_method_id_origin(a, b)
    } else {
        b == a
    }
}

fn classify_one(a: AppInfo) -> (r: AppInfo)
    ensures
        classified_as(a, r),
{
    let eligible = match a.method {
        InstallMethod::Apt | InstallMethod::Dnf | InstallMethod::Manual => true,
        _ => false,
    };
    if eligible && system_category(&a.category) {
        let mut b = a;
        b.method = InstallMethod::System;
        let mut id = copy_string("system:");
        id.append(b.package_id.as_str());
        b.id = id;
        if b.origin.is_none() {
            b.origin = Some(copy_string("Componente do sistema"));
        }
        b
    } else {
        a
    }
}

/// Classifies system applications (Settings/System categories) for the
/// System filter.
pub fn classify_system_apps(apps: &mut Vec<AppInfo>)
    ensures
        final(apps)@.len() == old(apps)@.len(),
        forall|i: int| 0 <= i < old(apps)@.len() ==> classified_as(old(apps)@[i], final(apps)@[i]),
{
    let n = apps.len();
    let ghost orig = apps@;
    for i in 0..n
        invariant
            n == apps@.len() == orig.len(),
            forall|j: int| 0 <= j < i ==> classified_as(orig[j], apps@[j]),
            forall|j: int| i <= j < n ==> apps@[j] == orig[j],
    {
        let a = apps[i].clone();
        let b = classify_one(a);
        apps.set(i, b);
    }
}

// ---------------------------------------------------------------------------
// Icons.
// ---------------------------------------------------------------------------

/// The icon name guessed for an application that has none: Flatpak and Snap
/// apps use their package id; others the desktop file id without
/// `.desktop`, or else the package id.
pub open spec fn guessed_icon_name(a: AppInfo) -> Seq<char> {
    match a.method {
        InstallMethod::Flatpak | InstallMethod::Snap => a.package_id@,
        _ => match a.desktop_id {
            Some(d) => trim_end_matches(d@, ".desktop"@),
            None => a.package_id@,
        },
    }
}

/// Icon name guess for an application without one.
pub fn guess_icon_name(a: &AppInfo) -> (r: String)
    ensures
        r@ == guessed_icon_name(*a),
{
    match a.method {
        InstallMethod::Flatpak | InstallMethod::Snap => a.package_id.clone(),
        _ => match &a.desktop_id {
            Some(d) => {
                proof {
                    reveal_strlit(".desktop");
                }
                str_trim_end_matches(d.as_str(), ".desktop")
            },
            None => a.package_id.clone(),
        },
    }
}

/// `b` is `a` with a missing icon name replaced by its guess.
pub open spec fn icon_name_filled(a: AppInfo, b: AppInfo) -> bool {
    if a.icon_name is Some {
        b == a
    } else {
        &&& b == AppInfo { icon_name: b.icon_name, ..a }
        &&& (b.icon_name matches Some(n) && n@ == guessed_icon_name(a))
    }
}

/// An icon name without its `.png`, `.svg` or `.xpm` extension (each
/// removed repeatedly, in that order).
pub open spec fn icon_base(name: Seq<char>) -> Seq<char> {
    trim_end_matches(trim_end_matches(trim_end_matches(name, ".png"@), ".svg"@), ".xpm"@)
}

pub fn icon_base_name(name: &str) -> (r: String)
    ensures
        r@ == icon_base(name@),
{
    proof {
        reveal_strlit(".png");
        reveal_strlit(".svg");
        reveal_strlit(".xpm");
    }
    let a = str_trim_end_matches(name, ".png");
    let b = str_trim_end_matches(a.as_str(), ".svg");
    str_trim_end_matches(b.as_str(), ".xpm")
}

// ---------------------------------------------------------------------------
// Duplicates across backends.
// ---------------------------------------------------------------------------

/// Preference among methods when the same application is found twice:
/// Flatpak, then Snap, then APT/DNF, then AppImage, then manual, then system.
pub open spec fn dedup_priority(m: InstallMethod) -> int {
    match m {
        InstallMethod::Flatpak => 0,
        InstallMethod::Snap => 1,
        InstallMethod::Apt | InstallMethod::Dnf => 2,
        InstallMethod::AppImage => 3,
        InstallMethod::Manual => 4,
        InstallMethod::System => 5,
    }
}

fn priority(m: InstallMethod) -> (r: u8)
    ensures
        r == dedup_priority(m),
{
    match m {
        InstallMethod::Flatpak => 0,
        InstallMethod::Snap => 1,
        InstallMethod::Apt | InstallMethod::Dnf => 2,
        InstallMethod::AppImage => 3,
        InstallMethod::Manual => 4,
        InstallMethod::System => 5,
    }
}

/// Records kept so far, each under its key (normalised name, or id when the
/// normalised name is shorter than two bytes).
pub type Entries = Seq<(Seq<char>, AppInfo)>;

/// Desktop file ids seen so far, each with the id of the record that
/// claimed it.
pub type Desktops = Seq<(Seq<char>, Seq<char>)>;

/// Position of the first entry whose record has the id, or -1.
pub open spec fn id_pos(es: Entries, id: Seq<char>) -> int
    decreases es.len(),
{
    if es.len() == 0 {
        -1
    } else {
        let p = id_pos(es.drop_last(), id);
        if p >= 0 {
            p
        } else if es.last().1.id@ == id {
            es.len() - 1
        } else {
            -1
        }
    }
}

/// The entries whose record does not have the id.
pub open spec fn without_record_id(es: Entries, id: Seq<char>) -> Entries
    decreases es.len(),
{
    if es.len() == 0 {
        es
    } else {
        let p = without_record_id(es.drop_last(), id);
        if es.last().1.id@ == id {
            p
        } else {
            p.push(es.last())
        }
    }
}

/// Number of UTF-8 bytes of a text.
pub open spec fn utf8_len(s: Seq<char>) -> nat {
    vstd::utf8::encode_utf8(s).len()
}

/// `new` with its missing icon name, icon path and description taken from
/// `old`.
pub open spec fn merged(new: AppInfo, old: AppInfo) -> AppInfo {
    AppInfo {
        icon_name: if new.icon_name is None {
            old.icon_name
        } else {
            new.icon_name
        },
        icon_path: if new.icon_path is None {
            old.icon_path
        } else {
            new.icon_path
        },
        description: if new.description is None {
            old.description
        } else {
            new.description
        },
        ..new
    }
}

/// The desktop stage for a record: `None` when a preferred record already
/// claims its desktop file id; otherwise the entries without the record
/// that claimed it before, and the desktop id now claimed by this record.
pub open spec fn desktop_stage(es: Entries, ds: Desktops, a: AppInfo) -> Option<(Entries, Desktops)> {
    match a.desktop_id {
        None => Some((es, ds)),
        Some(d) => {
            let di = key_pos(ds, d@);
            if di >= 0 {
                let eid = ds[di].1;
                let vi = id_pos(es, eid);
                if vi >= 0 && dedup_priority(a.method) >= dedup_priority(es[vi].1.method) {
                    None
                } else {
                    Some((without_record_id(es, eid), put(ds, d@, a.id@)))
                }
            } else {
                Some((es, put(ds, d@, a.id@)))
            }
        },
    }
}

/// The name stage for a record: under its normalised name it replaces a
/// less preferred record (keeping that record's icon and description when
/// it has none) and yields to an equally or more preferred one; a record
/// with a normalised name shorter than two bytes is kept under its id.
pub open spec fn name_stage(es: Entries, a: AppInfo) -> Entries {
    let key = normalized(a.name@);
    if utf8_len(key) < 2 {
        put(es, a.id@, a)
    } else {
        let ki = key_pos(es, key);
        if ki >= 0 {
            if dedup_priority(a.method) >= dedup_priority(es[ki].1.method) {
                es
            } else {
                put(es, key, merged(a, es[ki].1))
            }
        } else {
            put(es, key, a)
        }
    }
}

pub open spec fn dedup_step(st: (Entries, Desktops), a: AppInfo) -> (Entries, Desktops) {
    match desktop_stage(st.0, st.1, a) {
        None => st,
        Some((es, ds)) => (name_stage(es, a), ds),
    }
}

/// The entries and desktop claims after looking at each record in order.
pub open spec fn dedup_state(apps: Seq<AppInfo>) -> (Entries, Desktops)
    decreases apps.len(),
{
    if apps.len() == 0 {
        (Seq::empty(), Seq::empty())
    } else {
        dedup_step(dedup_state(apps.drop_last()), apps.last())
    }
}

pub open spec fn entry_values(es: Entries) -> Seq<AppInfo> {
    es.map_values(|e: (Seq<char>, AppInfo)| e.1)
}

/// The records left by the de-duplication, sorted by lowercased name.
pub open spec fn deduplicated(apps: Seq<AppInfo>) -> Seq<AppInfo> {
    sorted_by(entry_values(dedup_state(apps).0), SortBy::Name)
}

proof fn lemma_id_pos(es: Entries, id: Seq<char>)
    ensures
        -1 <= id_pos(es, id) < es.len(),
        id_pos(es, id) >= 0 ==> es[id_pos(es, id)].1.id@ == id,
    decreases es.len(),
{
    if es.len() > 0 {
        lemma_id_pos(es.drop_last(), id);
    }
}

proof fn lemma_id_pos_prefix(es: Entries, id: Seq<char>, i: int)
    requires
        0 <= i <= es.len(),
        id_pos(es.take(i), id) >= 0,
    ensures
        id_pos(es, id) == id_pos(es.take(i), id),
    decreases es.len() - i,
{
    if i < es.len() {
        assert(es.take(i + 1).drop_last() =~= es.take(i));
        lemma_id_pos_prefix(es, id, i + 1);
    } else {
        assert(es.take(i) =~= es);
    }
}

fn find_record_id(es: &Vec<(String, AppInfo)>, id: &str) -> (r: Option<usize>)
    ensures
        r matches Some(i) ==> i as int == id_pos(entries_view(es@), id@),
        r is None ==> id_pos(entries_view(es@), id@) == -1,
{
    let n = es.len();
    let ghost v = entries_view(es@);
    for i in 0..n
        invariant
            n == es@.len(),
            v == entries_view(es@),
            id_pos(v.take(i as int), id@) == -1,
    {
        assert(v.take(i + 1).drop_last() =~= v.take(i as int));
        if str_eq(es[i].1.id.as_str(), id) {
            proof {
                lemma_id_pos_prefix(v, id@, i + 1);
            }
            return Some(i);
        }
    }
    assert(v.take(n as int) =~= v);
    None
}

fn remove_record_id(es: Vec<(String, AppInfo)>, id: &str) -> (r: Vec<(String, AppInfo)>)
    ensures
        entries_view(r@) == without_record_id(entries_view(es@), id@),
{
    let ghost raw = es@;
    let mut rest = es;
    let n = rest.len();
    let mut kept: Vec<(String, AppInfo)> = Vec::new();
    let mut k: usize = 0;
    assert(raw.skip(0) =~= raw);
    while k < n
        invariant
            k <= n == raw.len(),
            rest@ == raw.skip(k as int),
            entries_view(kept@) == without_record_id(entries_view(raw.take(k as int)), id@),
        decreases n - k,
    {
        let e = rest.remove(0);
        assert(e == raw[k as int]);
        assert(raw.skip(k as int).remove(0) =~= raw.skip(k + 1));
        assert(entries_view(raw.take(k + 1)).drop_last() =~= entries_view(raw.take(k as int)));
        assert(entries_view(raw.take(k + 1)).last() == (e.0@, e.1));
        if !str_eq(e.1.id.as_str(), id) {
            kept.push(e);
        }
        assert(entries_view(kept@) =~= without_record_id(entries_view(raw.take(k + 1)), id@));
        k = k + 1;
    }
    assert(raw.take(n as int) =~= raw);
    kept
}

fn merge_into(a: AppInfo, old: &AppInfo) -> (r: AppInfo)
    ensures
        r == merged(a, *old),
{
    let mut m = a;
    if m.icon_name.is_none() {
        m.icon_name = clone_opt_string(&old.icon_name);
    }
    if m.icon_path.is_none() {
        m.icon_path = clone_opt_string(&old.icon_path);
    }
    if m.description.is_none() {
        m.description = clone_opt_string(&old.description);
    }
    m
}

fn dedup_one(es: &mut Vec<(String, AppInfo)>, ds: &mut Vec<(String, String)>, a: AppInfo)
    ensures
        (entries_view(final(es)@), pairs_view(final(ds)@)) == dedup_step(
            (entries_view(old(es)@), pairs_view(old(ds)@)),
            a,
        ),
{
    // Desktop stage.
    match &a.desktop_id {
        None => {},
        Some(d) => {
            match find_pair(ds, d.as_str()) {
                Some(di) => {
                    proof {
                        lemma_key_pos(pairs_view(ds@), d@);
                    }
                    let eid = ds[di].1.clone();
                    match find_record_id(es, eid.as_str()) {
                        Some(vi) => {
                            proof {
                                lemma_id_pos(entries_view(es@), eid@);
                            }
                            if priority(a.method) >= priority(es[vi].1.method) {
                                return;
                            }
                        },
                        None => {},
                    }
                    let mut taken: Vec<(String, AppInfo)> = Vec::new();
                    std::mem::swap(&mut taken, es);
                    let kept = remove_record_id(taken, eid.as_str());
                    *es = kept;
                },
                None => {},
            }
            put_pair(ds, d.clone(), a.id.clone());
        },
    }
    // Name stage.
    let key = normalize_key(a.name.as_str());
    if key.as_str().as_bytes().len() < 2 {
        let id = a.id.clone();
        put_entry(es, id, a);
        return;
    }
    match find_entry(es, key.as_str()) {
        Some(ki) => {
            proof {
                lemma_key_pos(entries_view(es@), key@);
            }
            if priority(a.method) >= priority(es[ki].1.method) {
                return;
            }
            let m = merge_into(a, &es[ki].1);
            put_entry(es, key, m);
        },
        None => {
            put_entry(es, key, a);
        },
    }
}

/// Removes duplicates found by several backends. A record yields to an
/// equally or more preferred one that claims the same desktop file id or has
/// the same normalised name (preference: Flatpak, Snap, APT/DNF, AppImage,
/// manual, system); the result is sorted by lowercased name.
pub fn deduplicate_apps(apps: Vec<AppInfo>) -> (r: Vec<AppInfo>)
    ensures
        r@ == deduplicated(apps@),
{
    let ghost orig = apps@;
    let mut rest = apps;
    let n = rest.len();
    let mut es: Vec<(String, AppInfo)> = Vec::new();
    let mut ds: Vec<(String, String)> = Vec::new();
    let mut k: usize = 0;
    assert(orig.skip(0) =~= orig);
    assert(entries_view(es@) =~= Seq::<(Seq<char>, AppInfo)>::empty());
    assert(pairs_view(ds@) =~= Seq::<(Seq<char>, Seq<char>)>::empty());
    while k < n
        invariant
            k <= n == orig.len(),
            rest@ == orig.skip(k as int),
            (entries_view(es@), pairs_view(ds@)) == dedup_state(orig.take(k as int)),
        decreases n - k,
    {
        let a = rest.remove(0);
        assert(a == orig[k as int]);
        assert(orig.skip(k as int).remove(0) =~= orig.skip(k + 1));
        assert(orig.take(k + 1).drop_last() =~= orig.take(k as int));
        dedup_one(&mut es, &mut ds, a);
        k = k + 1;
    }
    assert(orig.take(n as int) =~= orig);
    let ghost ev = entries_view(es@);
    let m = es.len();
    let mut values: Vec<AppInfo> = Vec::new();
    let mut j: usize = 0;
    while j < m
        invariant
            j <= m,
            es@.len() == m - j,
            ev.len() == m,
            forall|i: int| 0 <= i < m - j ==> (#[trigger] es@[i]).1 == ev[i + j].1,
            values@ == entry_values(ev).take(j as int),
        decreases m - j,
    {
        let e = es.remove(0);
        values.push(e.1);
        assert(values@ =~= entry_values(ev).take(j + 1));
        j = j + 1;
    }
    assert(entry_values(ev).take(m as int) =~= entry_values(ev));
    sort_apps(values, SortBy::Name)
}

// ---------------------------------------------------------------------------
// What the de-duplication keeps.
// ---------------------------------------------------------------------------

/// The key under which the de-duplication keeps a record: its normalised
/// name, or its id when the normalised name is shorter than two bytes.
pub open spec fn dedup_key(a: AppInfo) -> Seq<char> {
    let key = normalized(a.name@);
    if utf8_len(key) < 2 {
        a.id@
    } else {
        key
    }
}

/// Two records do not name the same desktop file.
pub open spec fn desktops_differ(a: AppInfo, b: AppInfo) -> bool {
    match (a.desktop_id, b.desktop_id) {
        (Some(x), Some(y)) => x@ != y@,
        _ => true,
    }
}

/// Two records that the de-duplication would not keep together: different
/// keys and different desktop files.
pub open spec fn apart(a: AppInfo, b: AppInfo) -> bool {
    dedup_key(a) != dedup_key(b) && desktops_differ(a, b)
}

/// The desktop file of a kept record is claimed by that record's id.
spec fn claimed(ds: Desktops, a: AppInfo) -> bool {
    a.desktop_id matches Some(d) ==> key_pos(ds, d@) >= 0 && ds[key_pos(ds, d@)].1 == a.id@
}

/// What holds of the entries and claims after each record.
spec fn dedup_inv(es: Entries, ds: Desktops) -> bool {
    &&& forall|i: int| 0 <= i < es.len() ==> (#[trigger] es[i]).0 == dedup_key(es[i].1)
    &&& forall|i: int| 0 <= i < es.len() ==> claimed(ds, #[trigger] es[i].1)
    &&& forall|i: int, j: int|
        0 <= i < j < es.len() ==> apart(#[trigger] es[i].1, #[trigger] es[j].1)
}

proof fn lemma_key_pos_absent<V>(es: Seq<(Seq<char>, V)>, k: Seq<char>, i: int)
    requires
        key_pos(es, k) == -1,
        0 <= i < es.len(),
    ensures
        es[i].0 != k,
    decreases es.len(),
{
    if i < es.len() - 1 {
        lemma_key_pos_absent(es.drop_last(), k, i);
    }
}

/// Setting the entry of one key leaves the entries of the others.
proof fn lemma_put_keys<V>(ds: Seq<(Seq<char>, V)>, d: Seq<char>, id: V, d2: Seq<char>)
    ensures
        key_pos(put(ds, d, id), d) >= 0,
        put(ds, d, id)[key_pos(put(ds, d, id), d)].1 == id,
        d2 != d ==> key_pos(put(ds, d, id), d2) == key_pos(ds, d2),
        d2 != d && key_pos(ds, d2) >= 0 ==> put(ds, d, id)[key_pos(ds, d2)] == ds[key_pos(ds, d2)],
{
    lemma_key_pos(ds, d);
    lemma_key_pos(ds, d2);
    let p = key_pos(ds, d);
    let r = put(ds, d, id);
    if p >= 0 {
        lemma_key_pos_same_keys(ds, r, d);
        lemma_key_pos_same_keys(ds, r, d2);
    } else {
        assert(r.drop_last() =~= ds);
    }
}

proof fn lemma_without_record_id(es: Entries, ds: Desktops, id: Seq<char>)
    requires
        dedup_inv(es, ds),
    ensures
        dedup_inv(without_record_id(es, id), ds),
        forall|i: int|
            0 <= i < without_record_id(es, id).len() ==> (#[trigger] without_record_id(es, id)[i]).1.id@
                != id && exists|j: int| 0 <= j < es.len() && without_record_id(es, id)[i] == es[j],
    decreases es.len(),
{
    if es.len() > 0 {
        let t = es.drop_last();
        assert(dedup_inv(t, ds)) by {
            assert forall|i: int, j: int| 0 <= i < j < t.len() implies apart(
                #[trigger] t[i].1,
                #[trigger] t[j].1,
            ) by {
                assert(t[i] == es[i] && t[j] == es[j]);
            }
        }
        lemma_without_record_id(t, ds, id);
        let p = without_record_id(t, id);
        let r = without_record_id(es, id);
        assert forall|i: int| 0 <= i < p.len() implies exists|j: int|
            0 <= j < es.len() && #[trigger] p[i] == es[j] by {
            let j = choose|j: int| 0 <= j < t.len() && p[i] == t[j];
            assert(p[i] == es[j]);
        }
        if es.last().1.id@ != id {
            let n = es.len() - 1;
            assert forall|i: int, j: int| 0 <= i < j < r.len() implies apart(
                #[trigger] r[i].1,
                #[trigger] r[j].1,
            ) by {
                if j == p.len() {
                    let k = choose|k: int| 0 <= k < t.len() && p[i] == t[k];
                    assert(r[i] == es[k] && r[j] == es[n]);
                } else {
                    assert(r[i] == p[i] && r[j] == p[j]);
                }
            }
            assert forall|i: int| 0 <= i < r.len() implies (#[trigger] r[i]).1.id@ != id && exists|
                j: int,
            | 0 <= j < es.len() && r[i] == es[j] by {
                if i == p.len() {
                    assert(r[i] == es[n]);
                } else {
                    assert(r[i] == p[i]);
                }
            }
            assert forall|i: int| 0 <= i < r.len() implies (#[trigger] r[i]).0 == dedup_key(r[i].1)
                && claimed(ds, r[i].1) by {
                if i < p.len() {
                    assert(r[i] == p[i]);
                }
            }
        }
    }
}

/// The de-duplication of one more record keeps the entries keyed, claimed
/// and apart.
proof fn lemma_dedup_step(es: Entries, ds: Desktops, a: AppInfo)
    requires
        dedup_inv(es, ds),
    ensures
        dedup_inv(dedup_step((es, ds), a).0, dedup_step((es, ds), a).1),
{
    match desktop_stage(es, ds, a) {
        None => {},
        Some((es1, ds1)) => {
            // After the desktop stage: no entry names the record's desktop
            // file, and the claims cover every entry.
            assert(dedup_inv(es1, ds1) && forall|i: int|
                0 <= i < es1.len() ==> desktops_differ(a, #[trigger] es1[i].1)) by {
                match a.desktop_id {
                    None => {},
                    Some(d) => {
                        lemma_key_pos(ds, d@);
                        let di = key_pos(ds, d@);
                        let es0 = if di >= 0 {
                            without_record_id(es, ds[di].1)
                        } else {
                            es
                        };
                        if di >= 0 {
                            lemma_without_record_id(es, ds, ds[di].1);
                        }
                        assert(es1 == es0 && ds1 == put(ds, d@, a.id@));
                        assert forall|i: int| 0 <= i < es1.len() implies desktops_differ(
                            a,
                            #[trigger] es1[i].1,
                        ) && claimed(ds1, es1[i].1) by {
                            assert(claimed(ds, es1[i].1));
                            if let Some(d2) = es1[i].1.desktop_id {
                                if d2@ == d@ {
                                    assert(di >= 0);
                                }
                                lemma_put_keys(ds, d@, a.id@, d2@);
                            }
                        }
                    },
                }
            }
            let key = normalized(a.name@);
            let es2 = name_stage(es1, a);
            assert(a.desktop_id matches Some(d) ==> key_pos(ds1, d@) >= 0 && ds1[key_pos(
                ds1,
                d@,
            )].1 == a.id@) by {
                if let Some(d) = a.desktop_id {
                    lemma_put_keys(ds, d@, a.id@, d@);
                }
            }
            let k = dedup_key(a);
            lemma_key_pos(es1, k);
            let p = key_pos(es1, k);
            let v = if p >= 0 && utf8_len(key) >= 2 {
                merged(a, es1[p].1)
            } else {
                a
            };
            assert(dedup_key(v) == k && claimed(ds1, v) && v.desktop_id == a.desktop_id);
            if es2 != es1 {
                assert(es2 == put(es1, k, v));
                assert forall|i: int, j: int| 0 <= i < j < es2.len() implies apart(
                    #[trigger] es2[i].1,
                    #[trigger] es2[j].1,
                ) by {
                    if p >= 0 {
                        if i == p {
                            assert(apart(es1[p].1, es1[j].1));
                        } else if j == p {
                            assert(apart(es1[i].1, es1[p].1));
                        } else {
                            assert(es2[i] == es1[i] && es2[j] == es1[j]);
                        }
                    } else if j == es1.len() {
                        lemma_key_pos_absent(es1, k, i);
                        assert(es2[i] == es1[i]);
                    } else {
                        assert(es2[i] == es1[i] && es2[j] == es1[j]);
                    }
                }
                assert forall|i: int| 0 <= i < es2.len() implies (#[trigger] es2[i]).0 == dedup_key(
                    es2[i].1,
                ) && claimed(ds1, es2[i].1) by {
                    if !(i == p || i == es1.len()) {
                        assert(es2[i] == es1[i]);
                    }
                }
            }
        },
    }
}

proof fn lemma_dedup_state(apps: Seq<AppInfo>)
    ensures
        dedup_inv(dedup_state(apps).0, dedup_state(apps).1),
    decreases apps.len(),
{
    if apps.len() > 0 {
        lemma_dedup_state(apps.drop_last());
        let st = dedup_state(apps.drop_last());
        lemma_dedup_step(st.0, st.1, apps.last());
    }
}

/// The sort keeps records pairwise apart.
proof fn lemma_sorted_apart(s: Seq<AppInfo>, by: SortBy)
    requires
        forall|i: int, j: int| 0 <= i < j < s.len() ==> apart(#[trigger] s[i], #[trigger] s[j]),
    ensures
        forall|i: int, j: int|
            0 <= i < j < sorted_by(s, by).len() ==> apart(
                #[trigger] sorted_by(s, by)[i],
                #[trigger] sorted_by(s, by)[j],
            ),
    decreases s.len(),
{
    broadcast use vstd::seq_lib::group_to_multiset_ensures;

    if s.len() > 0 {
        let t = s.drop_last();
        let x = s.last();
        lemma_sorted_apart(t, by);
        lemma_sorted_by(t, by);
        let st = sorted_by(t, by);
        let k = lemma_insert_sorted_shape(st, x, by);
        let r = st.insert(k, x);
        assert forall|i: int| 0 <= i < st.len() implies apart(#[trigger] st[i], x) && apart(
            x,
            st[i],
        ) by {
            assert(st.to_multiset().count(st[i]) > 0);
            assert(t.contains(st[i]));
            let j = choose|j: int| 0 <= j < t.len() && t[j] == st[i];
            assert(apart(s[j], s[s.len() - 1]));
        }
        assert forall|i: int, j: int| 0 <= i < j < r.len() implies apart(
            #[trigger] r[i],
            #[trigger] r[j],
        ) by {
            if j < k {
                assert(r[i] == st[i] && r[j] == st[j]);
            } else if j == k {
                assert(r[i] == st[i]);
            } else if i == k {
                assert(r[j] == st[j - 1]);
            } else if i < k {
                assert(r[i] == st[i] && r[j] == st[j - 1]);
            } else {
                assert(r[i] == st[i - 1] && r[j] == st[j - 1]);
            }
        }
    }
}

/// No two records left by the de-duplication share a key (normalised name,
/// or id for a name with under two bytes of letters and digits) or a
/// desktop file id, and they come sorted by lowercased name.
pub proof fn lemma_deduplicated_apart(apps: Seq<AppInfo>)
    ensures
        forall|i: int, j: int|
            0 <= i < j < deduplicated(apps).len() ==> apart(
                #[trigger] deduplicated(apps)[i],
                #[trigger] deduplicated(apps)[j],
            ),
        is_sorted_by(deduplicated(apps), SortBy::Name),
{
    lemma_dedup_state(apps);
    let es = dedup_state(apps).0;
    let vs = entry_values(es);
    assert forall|i: int, j: int| 0 <= i < j < vs.len() implies apart(
        #[trigger] vs[i],
        #[trigger] vs[j],
    ) by {
        assert(vs[i] == es[i].1 && vs[j] == es[j].1);
    }
    lemma_sorted_apart(vs, SortBy::Name);
    lemma_sorted_by(vs, SortBy::Name);
}

/// `b` is `a`, but perhaps for its icon name, icon path and description.
pub open spec fn same_but_icon_and_description(a: AppInfo, b: AppInfo) -> bool {
    b == (AppInfo { icon_name: b.icon_name, icon_path: b.icon_path, description: b.description, ..a })
}

/// Every entry comes from one of the records.
spec fn entries_from(es: Entries, apps: Seq<AppInfo>) -> bool {
    forall|i: int|
        #![trigger es[i]]
        0 <= i < es.len() ==> exists|j: int|
            0 <= j < apps.len() && same_but_icon_and_description(#[trigger] apps[j], es[i].1)
}

proof fn lemma_dedup_from_inputs(apps: Seq<AppInfo>)
    ensures
        entries_from(dedup_state(apps).0, apps),
    decreases apps.len(),
{
    if apps.len() > 0 {
        let t = apps.drop_last();
        let a = apps.last();
        let n = apps.len() - 1;
        lemma_dedup_from_inputs(t);
        lemma_dedup_state(t);
        let es = dedup_state(t).0;
        let ds = dedup_state(t).1;
        assert forall|i: int| #![trigger es[i]] 0 <= i < es.len() implies exists|j: int|
            0 <= j < apps.len() && same_but_icon_and_description(#[trigger] apps[j], es[i].1) by {
            let j = choose|j: int| 0 <= j < t.len() && same_but_icon_and_description(t[j], es[i].1);
            assert(apps[j] == t[j]);
        }
        match desktop_stage(es, ds, a) {
            None => {},
            Some((es1, ds1)) => {
                // The desktop stage only drops entries.
                assert forall|i: int| #![trigger es1[i]] 0 <= i < es1.len() implies exists|j: int|
                    0 <= j < apps.len() && same_but_icon_and_description(
                        #[trigger] apps[j],
                        es1[i].1,
                    ) by {
                    if let Some(d) = a.desktop_id {
                        let di = key_pos(ds, d@);
                        if di >= 0 {
                            lemma_without_record_id(es, ds, ds[di].1);
                            let k = choose|k: int| 0 <= k < es.len() && es1[i] == es[k];
                            assert(es1[i] == es[k]);
                        }
                    }
                }
                let k = dedup_key(a);
                lemma_key_pos(es1, k);
                let p = key_pos(es1, k);
                let v = if p >= 0 && utf8_len(normalized(a.name@)) >= 2 {
                    merged(a, es1[p].1)
                } else {
                    a
                };
                assert(same_but_icon_and_description(apps[n], v));
                let es2 = name_stage(es1, a);
                if es2 != es1 {
                    assert(es2 == put(es1, k, v));
                    assert forall|i: int| #![trigger es2[i]] 0 <= i < es2.len() implies exists|j: int|
                        0 <= j < apps.len() && same_but_icon_and_description(
                            #[trigger] apps[j],
                            es2[i].1,
                        ) by {
                        if i == p || i == es1.len() {
                            assert(es2[i].1 == v);
                            assert(same_but_icon_and_description(apps[n], es2[i].1));
                        } else {
                            assert(es2[i] == es1[i]);
                        }
                    }
                }
            },
        }
    }
}

/// Every record the de-duplication keeps is one of the records it was
/// given, but perhaps for an icon or a description taken from a duplicate
/// it replaced.
pub proof fn lemma_deduplicated_from_inputs(apps: Seq<AppInfo>)
    ensures
        forall|i: int|
            #![trigger deduplicated(apps)[i]]
            0 <= i < deduplicated(apps).len() ==> exists|j: int|
                0 <= j < apps.len() && same_but_icon_and_description(
                    #[trigger] apps[j],
                    deduplicated(apps)[i],
                ),
{
    broadcast use vstd::seq_lib::group_to_multiset_ensures;

    lemma_dedup_from_inputs(apps);
    let es = dedup_state(apps).0;
    let vs = entry_values(es);
    lemma_sorted_by(vs, SortBy::Name);
    let r = sorted_by(vs, SortBy::Name);
    assert forall|i: int| #![trigger r[i]] 0 <= i < r.len() implies exists|j: int|
        0 <= j < apps.len() && same_but_icon_and_description(#[trigger] apps[j], r[i]) by {
        assert(r.to_multiset().count(r[i]) > 0);
        assert(vs.contains(r[i]));
        let k = choose|k: int| 0 <= k < vs.len() && vs[k] == r[i];
        assert(vs[k] == es[k].1);
    }
}

proof fn lemma_without_record_id_len(es: Entries, id: Seq<char>)
    ensures
        without_record_id(es, id).len() <= es.len(),
    decreases es.len(),
{
    if es.len() > 0 {
        lemma_without_record_id_len(es.drop_last(), id);
    }
}

proof fn lemma_dedup_state_len(apps: Seq<AppInfo>)
    ensures
        dedup_state(apps).0.len() <= apps.len(),
    decreases apps.len(),
{
    if apps.len() > 0 {
        let t = apps.drop_last();
        let a = apps.last();
        lemma_dedup_state_len(t);
        let es = dedup_state(t).0;
        let ds = dedup_state(t).1;
        if let Some(d) = a.desktop_id {
            let di = key_pos(ds, d@);
            if di >= 0 {
                lemma_without_record_id_len(es, ds[di].1);
            }
        }
        match desktop_stage(es, ds, a) {
            None => {},
            Some((es1, ds1)) => {
                let k = dedup_key(a);
                lemma_key_pos(es1, k);
            },
        }
    }
}

/// The de-duplication never gives more records than it was given.
pub proof fn lemma_deduplicated_len(apps: Seq<AppInfo>)
    ensures
        deduplicated(apps).len() <= apps.len(),
{
    lemma_dedup_state_len(apps);
    lemma_sorted_by(entry_values(dedup_state(apps).0), SortBy::Name);
}

/// Every record has a name with at least two bytes of letters and digits,
/// and none names a desktop file.
pub open spec fn plain_names(apps: Seq<AppInfo>) -> bool {
    forall|i: int|
        0 <= i < apps.len() ==> utf8_len(normalized((#[trigger] apps[i]).name@)) >= 2
            && apps[i].desktop_id is None
}

/// The entry kept for the key of each record seen is at least as preferred
/// as that record.
spec fn prefers_all(es: Entries, apps: Seq<AppInfo>) -> bool {
    forall|j: int|
        0 <= j < apps.len() ==> key_pos(es, dedup_key(#[trigger] apps[j])) >= 0 && dedup_priority(
            es[key_pos(es, dedup_key(apps[j]))].1.method,
        ) <= dedup_priority(apps[j].method)
}

proof fn lemma_dedup_prefers(apps: Seq<AppInfo>)
    requires
        plain_names(apps),
    ensures
        prefers_all(dedup_state(apps).0, apps),
    decreases apps.len(),
{
    if apps.len() > 0 {
        let t = apps.drop_last();
        let a = apps.last();
        let n = apps.len() - 1;
        assert(plain_names(t)) by {
            assert forall|i: int| 0 <= i < t.len() implies utf8_len(
                normalized((#[trigger] t[i]).name@),
            ) >= 2 && t[i].desktop_id is None by {
                assert(t[i] == apps[i]);
            }
        }
        lemma_dedup_prefers(t);
        let es = dedup_state(t).0;
        let ds = dedup_state(t).1;
        assert(apps[n] == a);
        assert(a.desktop_id is None);
        let key = normalized(a.name@);
        assert(dedup_key(a) == key);
        lemma_key_pos(es, key);
        let ki = key_pos(es, key);
        let es2 = dedup_state(apps).0;
        assert(es2 == name_stage(es, a));
        let v = if ki >= 0 {
            merged(a, es[ki].1)
        } else {
            a
        };
        if es2 != es {
            assert(es2 == put(es, key, v));
            lemma_put_keys(es, key, v, key);
        }
        assert forall|j: int| 0 <= j < apps.len() implies key_pos(
            es2,
            dedup_key(#[trigger] apps[j]),
        ) >= 0 && dedup_priority(es2[key_pos(es2, dedup_key(apps[j]))].1.method) <= dedup_priority(
            apps[j].method,
        ) by {
            let kj = dedup_key(apps[j]);
            if j < n {
                assert(apps[j] == t[j]);
                if es2 != es && kj != key {
                    lemma_put_keys(es, key, v, kj);
                }
            }
        }
    }
}

/// When every name has at least two bytes of letters and digits and no
/// record names a desktop file, the de-duplication keeps, for the key of
/// each record it was given, a record with that key that is at least as
/// preferred as that record (Flatpak, then Snap, then APT/DNF, then
/// AppImage, then manual, then system).
pub proof fn lemma_deduplicated_prefers(apps: Seq<AppInfo>)
    requires
        plain_names(apps),
    ensures
        forall|j: int|
            0 <= j < apps.len() ==> exists|i: int|
                0 <= i < deduplicated(apps).len() && dedup_key(#[trigger] deduplicated(apps)[i])
                    == dedup_key(#[trigger] apps[j]) && dedup_priority(deduplicated(apps)[i].method)
                    <= dedup_priority(apps[j].method),
{
    broadcast use vstd::seq_lib::group_to_multiset_ensures;

    lemma_dedup_prefers(apps);
    lemma_dedup_state(apps);
    let es = dedup_state(apps).0;
    let vs = entry_values(es);
    lemma_sorted_by(vs, SortBy::Name);
    let r = sorted_by(vs, SortBy::Name);
    assert(r == deduplicated(apps));
    assert forall|j: int| 0 <= j < apps.len() implies exists|i: int|
        0 <= i < deduplicated(apps).len() && dedup_key(#[trigger] deduplicated(apps)[i])
            == dedup_key(#[trigger] apps[j]) && dedup_priority(deduplicated(apps)[i].method)
            <= dedup_priority(apps[j].method) by {
        let p = key_pos(es, dedup_key(apps[j]));
        lemma_key_pos(es, dedup_key(apps[j]));
        let x = vs[p];
        assert(x == es[p].1);
        assert(vs.contains(x));
        assert(vs.to_multiset().count(x) > 0);
        assert(r.contains(x));
        let i = choose|i: int| 0 <= i < r.len() && r[i] == x;
        assert(deduplicated(apps)[i] == x);
        assert(dedup_key(deduplicated(apps)[i]) == dedup_key(apps[j]));
    }
}

/// The fixed preference among install methods: Flatpak, then Snap, then
/// APT and DNF, then AppImage, then manual, then system. `kept` comes no
/// later than `other` in that order.
pub open spec fn method_no_later(kept: InstallMethod, other: InstallMethod) -> bool {
    match other {
        InstallMethod::Flatpak => kept == InstallMethod::Flatpak,
        InstallMethod::Snap => kept == InstallMethod::Flatpak || kept == InstallMethod::Snap,
        InstallMethod::Apt | InstallMethod::Dnf => kept != InstallMethod::AppImage && kept
            != InstallMethod::Manual && kept != InstallMethod::System,
        InstallMethod::AppImage => kept != InstallMethod::Manual && kept != InstallMethod::System,
        InstallMethod::Manual => kept != InstallMethod::System,
        InstallMethod::System => true,
    }
}

/// When every name has at least two bytes of letters and digits and no
/// record names a desktop file, the de-duplication keeps exactly one record
/// for the key of each record it was given, and that record's method comes
/// no later than the given record's in the order Flatpak, Snap, APT/DNF,
/// AppImage, manual, system. So an AppImage and a manual entry of the same
/// name keep the AppImage.
pub proof fn lemma_deduplicated_method_order(apps: Seq<AppInfo>)
    requires
        plain_names(apps),
    ensures
        forall|j: int|
            0 <= j < apps.len() ==> exists|i: int|
                0 <= i < deduplicated(apps).len() && dedup_key(#[trigger] deduplicated(apps)[i])
                    == dedup_key(#[trigger] apps[j]) && method_no_later(
                    deduplicated(apps)[i].method,
                    apps[j].method,
                ),
        forall|i: int, k: int|
            0 <= i < k < deduplicated(apps).len() ==> dedup_key(#[trigger] deduplicated(apps)[i])
                != dedup_key(#[trigger] deduplicated(apps)[k]),
{
    lemma_deduplicated_prefers(apps);
    lemma_deduplicated_apart(apps);
    let d = deduplicated(apps);
    assert forall|j: int| 0 <= j < apps.len() implies exists|i: int|
        0 <= i < d.len() && dedup_key(#[trigger] d[i]) == dedup_key(#[trigger] apps[j])
            && method_no_later(d[i].method, apps[j].method) by {
        let i = choose|i: int|
            0 <= i < d.len() && dedup_key(#[trigger] d[i]) == dedup_key(apps[j]) && dedup_priority(
                d[i].method,
            ) <= dedup_priority(apps[j].method);
        assert(method_no_later(d[i].method, apps[j].method));
    }
    assert forall|i: int, k: int| 0 <= i < k < d.len() implies dedup_key(#[trigger] d[i])
        != dedup_key(#[trigger] d[k]) by {
        assert(apart(d[i], d[k]));
    }
}

// ---------------------------------------------------------------------------
// Icon files.
// ---------------------------------------------------------------------------

/// The icon themes searched, in order.
pub open spec fn icon_themes() -> Seq<Seq<char>> {
    seq!["hicolor"@, "Adwaita"@, "Yaru"@, "Papirus"@, "breeze"@]
}

/// The icon sizes searched in each theme, in order.
pub open spec fn icon_sizes() -> Seq<Seq<char>> {
    seq!["256x256"@, "128x128"@, "96x96"@, "64x64"@, "48x48"@, "32x32"@, "scalable"@]
}

/// `dir` + `base` + `.` + `ext`.
pub open spec fn icon_file(dir: Seq<char>, base: Seq<char>, ext: Seq<char>) -> Seq<char> {
    dir + base + "."@ + ext
}

/// The `apps` and `legacy` directories of a theme size.
pub open spec fn theme_dir(theme: Seq<char>, size: Seq<char>, kind: Seq<char>) -> Seq<char> {
    "/usr/share/icons/"@ + theme + "/"@ + size + "/"@ + kind + "/"@
}

/// The candidates of one size of a theme: `apps` then `legacy`, per
/// extension.
pub open spec fn size_block(theme: Seq<char>, size: Seq<char>, base: Seq<char>) -> Seq<Seq<char>> {
    let apps = theme_dir(theme, size, "apps"@);
    let legacy = theme_dir(theme, size, "legacy"@);
    seq![
        icon_file(apps, base, "png"@),
        icon_file(legacy, base, "png"@),
        icon_file(apps, base, "svg"@),
        icon_file(legacy, base, "svg"@),
        icon_file(apps, base, "xpm"@),
        icon_file(legacy, base, "xpm"@),
    ]
}

pub open spec fn theme_block(theme: Seq<char>, base: Seq<char>, sizes: Seq<Seq<char>>) -> Seq<Seq<char>>
    decreases sizes.len(),
{
    if sizes.len() == 0 {
        Seq::empty()
    } else {
        theme_block(theme, base, sizes.drop_last()) + size_block(theme, sizes.last(), base)
    }
}

pub open spec fn themes_block(base: Seq<char>, themes: Seq<Seq<char>>) -> Seq<Seq<char>>
    decreases themes.len(),
{
    if themes.len() == 0 {
        Seq::empty()
    } else {
        themes_block(base, themes.drop_last()) + theme_block(themes.last(), base, icon_sizes())
    }
}

/// Files named `base` with one extension in each of four directories.
pub open spec fn four(dirs: (Seq<char>, Seq<char>, Seq<char>, Seq<char>), base: Seq<char>, ext: Seq<char>) -> Seq<Seq<char>> {
    seq![
        icon_file(dirs.0, base, ext),
        icon_file(dirs.1, base, ext),
        icon_file(dirs.2, base, ext),
        icon_file(dirs.3, base, ext),
    ]
}

/// The user's icon directories.
pub open spec fn home_icon_dirs(h: Seq<char>) -> (Seq<char>, Seq<char>, Seq<char>, Seq<char>) {
    (
        joined(h, ".local/share/icons/hicolor/48x48/apps/"@),
        joined(h, ".local/share/icons/"@),
        joined(h, ".local/share/flatpak/exports/share/icons/hicolor/128x128/apps/"@),
        joined(h, ".local/share/flatpak/exports/share/icons/hicolor/scalable/apps/"@),
    )
}

/// The places looked at for the icon file `base`, in order: every size of
/// every theme, the pixmaps and scalable hicolor directories, the user's
/// icon and Flatpak export directories (when the home directory is known),
/// and the system Flatpak exports.
pub open spec fn icon_candidates(base: Seq<char>, home: Option<Seq<char>>) -> Seq<Seq<char>> {
    let shared = seq!["/usr/share/pixmaps/"@, "/usr/share/icons/hicolor/scalable/apps/"@];
    let exports = seq![
        "/var/lib/flatpak/exports/share/icons/hicolor/128x128/apps/"@,
        "/var/lib/flatpak/exports/share/icons/hicolor/scalable/apps/"@,
    ];
    themes_block(base, icon_themes()) + seq![
        icon_file(shared[0], base, "png"@),
        icon_file(shared[1], base, "png"@),
        icon_file(shared[0], base, "svg"@),
        icon_file(shared[1], base, "svg"@),
        icon_file(shared[0], base, "xpm"@),
        icon_file(shared[1], base, "xpm"@),
    ] + (match home {
        Some(h) => four(home_icon_dirs(h), base, "png"@) + four(home_icon_dirs(h), base, "svg"@)
            + four(home_icon_dirs(h), base, "xpm"@),
        None => Seq::empty(),
    }) + seq![
        icon_file(exports[0], base, "png"@),
        icon_file(exports[1], base, "png"@),
        icon_file(exports[0], base, "svg"@),
        icon_file(exports[1], base, "svg"@),
        icon_file(exports[0], base, "xpm"@),
        icon_file(exports[1], base, "xpm"@),
    ]
}

fn icon_file_text(dir: &str, base: &str, ext: &str) -> (r: String)
    ensures
        r@ == icon_file(dir@, base@, ext@),
{
    let mut s = copy_string(dir);
    s.append(base);
    s.append(".");
    s.append(ext);
    s
}

fn push_icon(out: &mut Vec<String>, dir: &str, base: &str, ext: &str)
    ensures
        views(final(out)@) == views(old(out)@).push(icon_file(dir@, base@, ext@)),
{
    let f = icon_file_text(dir, base, ext);
    out.push(f);
    assert(views(out@) =~= views(old(out)@).push(icon_file(dir@, base@, ext@)));
}

fn theme_dir_text(theme: &str, size: &str, kind: &str) -> (r: String)
    ensures
        r@ == theme_dir(theme@, size@, kind@),
{
    let mut s = copy_string("/usr/share/icons/");
    s.append(theme);
    s.append("/");
    s.append(size);
    s.append("/");
    s.append(kind);
    s.append("/");
    s
}

fn push_size_block(out: &mut Vec<String>, theme: &str, size: &str, base: &str)
    ensures
        views(final(out)@) == views(old(out)@) + size_block(theme@, size@, base@),
{
    let apps = theme_dir_text(theme, size, "apps");
    let legacy = theme_dir_text(theme, size, "legacy");
    push_icon(out, apps.as_str(), base, "png");
    push_icon(out, legacy.as_str(), base, "png");
    push_icon(out, apps.as_str(), base, "svg");
    push_icon(out, legacy.as_str(), base, "svg");
    push_icon(out, apps.as_str(), base, "xpm");
    push_icon(out, legacy.as_str(), base, "xpm");
    assert(views(out@) =~= views(old(out)@) + size_block(theme@, size@, base@));
}

fn push_theme_block(out: &mut Vec<String>, theme: &str, base: &str)
    ensures
        views(final(out)@) == views(old(out)@) + theme_block(theme@, base@, icon_sizes()),
{
    let sizes = ["256x256", "128x128", "96x96", "64x64", "48x48", "32x32", "scalable"];
    let ghost sv = sizes@.map_values(|s: &str| s@);
    assert(sv =~= icon_sizes());
    let ghost start = views(out@);
    assert(sv.take(0) =~= Seq::<Seq<char>>::empty());
    assert(start + theme_block(theme@, base@, sv.take(0)) =~= start);
    for i in 0..7
        invariant
            sizes@.len() == 7,
            sv == sizes@.map_values(|s: &str| s@),
            views(out@) == start + theme_block(theme@, base@, sv.take(i as int)),
    {
        assert(sv.take(i + 1).drop_last() =~= sv.take(i as int));
        assert(sv.take(i + 1).last() == sizes@[i as int]@);
        push_size_block(out, theme, sizes[i], base);
        assert(views(out@) =~= start + theme_block(theme@, base@, sv.take(i + 1)));
    }
    assert(sv.take(7) =~= sv);
}

fn push_four(out: &mut Vec<String>, dirs: &[String; 4], base: &str, ext: &str)
    ensures
        views(final(out)@) == views(old(out)@) + four(
            (dirs@[0]@, dirs@[1]@, dirs@[2]@, dirs@[3]@),
            base@,
            ext@,
        ),
{
    push_icon(out, dirs[0].as_str(), base, ext);
    push_icon(out, dirs[1].as_str(), base, ext);
    push_icon(out, dirs[2].as_str(), base, ext);
    push_icon(out, dirs[3].as_str(), base, ext);
    assert(views(out@) =~= views(old(out)@) + four(
        (dirs@[0]@, dirs@[1]@, dirs@[2]@, dirs@[3]@),
        base@,
        ext@,
    ));
}

/// The places looked at for the icon file `base`, in order.
pub fn icon_search_paths(base: &str, home: Option<&str>) -> (r: Vec<String>)
    ensures
        views(r@) == icon_candidates(
            base@,
            match home {
                Some(h) => Some(h@),
                None => None,
            },
        ),
{
    let mut out: Vec<String> = Vec::new();
    let themes = ["hicolor", "Adwaita", "Yaru", "Papirus", "breeze"];
    let ghost tv = themes@.map_values(|s: &str| s@);
    assert(tv =~= icon_themes());
    assert(tv.take(0) =~= Seq::<Seq<char>>::empty());
    assert(views(out@) =~= themes_block(base@, tv.take(0)));
    for i in 0..5
        invariant
            themes@.len() == 5,
            tv == themes@.map_values(|s: &str| s@),
            views(out@) == themes_block(base@, tv.take(i as int)),
    {
        assert(tv.take(i + 1).drop_last() =~= tv.take(i as int));
        assert(tv.take(i + 1).last() == themes@[i as int]@);
        push_theme_block(&mut out, themes[i], base);
    }
    assert(tv.take(5) =~= tv);
    let ghost t_part = views(out@);
    for e in 0..3
        invariant
            views(out@) == t_part + (if e == 0 {
                Seq::<Seq<char>>::empty()
            } else if e == 1 {
                seq![
                    icon_file("/usr/share/pixmaps/"@, base@, "png"@),
                    icon_file("/usr/share/icons/hicolor/scalable/apps/"@, base@, "png"@),
                ]
            } else if e == 2 {
                seq![
                    icon_file("/usr/share/pixmaps/"@, base@, "png"@),
                    icon_file("/usr/share/icons/hicolor/scalable/apps/"@, base@, "png"@),
                    icon_file("/usr/share/pixmaps/"@, base@, "svg"@),
                    icon_file("/usr/share/icons/hicolor/scalable/apps/"@, base@, "svg"@),
                ]
            } else {
                seq![
                    icon_file("/usr/share/pixmaps/"@, base@, "png"@),
                    icon_file("/usr/share/icons/hicolor/scalable/apps/"@, base@, "png"@),
                    icon_file("/usr/share/pixmaps/"@, base@, "svg"@),
                    icon_file("/usr/share/icons/hicolor/scalable/apps/"@, base@, "svg"@),
                    icon_file("/usr/share/pixmaps/"@, base@, "xpm"@),
                    icon_file("/usr/share/icons/hicolor/scalable/apps/"@, base@, "xpm"@),
                ]
            }),
    {
        let ext = if e == 0 {
            "png"
        } else if e == 1 {
            "svg"
        } else {
            "xpm"
        };
        let ghost before = views(out@);
        push_icon(&mut out, "/usr/share/pixmaps/", base, ext);
        push_icon(&mut out, "/usr/share/icons/hicolor/scalable/apps/", base, ext);
        proof {
            reveal_strlit("png");
            reveal_strlit("svg");
            reveal_strlit("xpm");
        }
        assert(views(out@) =~= before.push(icon_file("/usr/share/pixmaps/"@, base@, ext@)).push(
            icon_file("/usr/share/icons/hicolor/scalable/apps/"@, base@, ext@),
        ));
    }
    let ghost shared_part = views(out@);
    if let Some(h) = home {
        let dirs = [
            join_path(h, ".local/share/icons/hicolor/48x48/apps/"),
            join_path(h, ".local/share/icons/"),
            join_path(h, ".local/share/flatpak/exports/share/icons/hicolor/128x128/apps/"),
            join_path(h, ".local/share/flatpak/exports/share/icons/hicolor/scalable/apps/"),
        ];
        assert((dirs@[0]@, dirs@[1]@, dirs@[2]@, dirs@[3]@) == home_icon_dirs(h@));
        push_four(&mut out, &dirs, base, "png");
        push_four(&mut out, &dirs, base, "svg");
        push_four(&mut out, &dirs, base, "xpm");
    }
    let ghost home_part = views(out@);
    push_icon(&mut out, "/var/lib/flatpak/exports/share/icons/hicolor/128x128/apps/", base, "png");
    push_icon(&mut out, "/var/lib/flatpak/exports/share/icons/hicolor/scalable/apps/", base, "png");
    push_icon(&mut out, "/var/lib/flatpak/exports/share/icons/hicolor/128x128/apps/", base, "svg");
    push_icon(&mut out, "/var/lib/flatpak/exports/share/icons/hicolor/scalable/apps/", base, "svg");
    push_icon(&mut out, "/var/lib/flatpak/exports/share/icons/hicolor/128x128/apps/", base, "xpm");
    push_icon(&mut out, "/var/lib/flatpak/exports/share/icons/hicolor/scalable/apps/", base, "xpm");
    let ghost hv = match home {
        Some(h) => Some(h@),
        None => None,
    };
    assert(views(out@) =~= icon_candidates(base@, hv));
    out
}

/// The files looked at for an application's icon, in order: its icon
/// path, then its icon name when that is an absolute path, or else the
/// search places of the name without extension.
pub open spec fn icon_choices(
    icon_name: Option<Seq<char>>,
    icon_path: Option<Seq<char>>,
    home: Option<Seq<char>>,
) -> Seq<Seq<char>> {
    (match icon_path {
        Some(p) => seq![p],
        None => Seq::empty(),
    }) + (match icon_name {
        Some(n) => if crate::text::starts_with(n, "/"@) {
            seq![n]
        } else {
            icon_candidates(icon_base(n), home)
        },
        None => Seq::empty(),
    })
}

/// `r` is the first of `cs` for which `is_file` said yes, every earlier one
/// having been answered no; `None` when every one was answered no.
pub open spec fn first_found<F: Fn(&String) -> bool>(
    cs: Seq<String>,
    is_file: F,
    r: Option<String>,
) -> bool {
    match r {
        Some(p) => exists|k: int|
            0 <= k < cs.len() && cs[k] == p && is_file.ensures((&cs[k],), true) && forall|j: int|
                0 <= j < k ==> is_file.ensures((&cs[j],), false),
        None => forall|j: int| 0 <= j < cs.len() ==> is_file.ensures((&cs[j],), false),
    }
}

fn first_file<F: Fn(&String) -> bool>(cs: Vec<String>, is_file: &F) -> (r: Option<String>)
    requires
        forall|s: &String| #[trigger] is_file.requires((s,)),
    ensures
        first_found(cs@, *is_file, r),
{
    let n = cs.len();
    let mut i: usize = 0;
    while i < n
        invariant
            i <= n == cs@.len(),
            forall|s: &String| #[trigger] is_file.requires((s,)),
            forall|j: int| 0 <= j < i ==> is_file.ensures((&cs@[j],), false),
        decreases n - i,
    {
        let found = is_file(&cs[i]);
        if found {
            let p = cs[i].clone();
            assert(cs@[i as int] == p);
            return Some(p);
        }
        i = i + 1;
    }
    None
}

pub open spec fn opt_str_view(o: Option<&str>) -> Option<Seq<char>> {
    match o {
        Some(h) => Some(h@),
        None => None,
    }
}

/// Finds the file of an application's icon: the first of
/// `icon_choices` that `is_file` reports as a file.
pub fn resolve_icon_path<F: Fn(&String) -> bool>(
    icon_name: &Option<String>,
    icon_path: &Option<String>,
    home: Option<&str>,
    is_file: &F,
) -> (r: Option<String>)
    requires
        forall|s: &String| #[trigger] is_file.requires((s,)),
    ensures
        exists|cs: Seq<String>|
            views(cs) == icon_choices(opt_view(*icon_name), opt_view(*icon_path), opt_str_view(home))
                && first_found(cs, *is_file, r),
{
    let mut cs: Vec<String> = Vec::new();
    if let Some(p) = icon_path {
        cs.push(p.clone());
    }
    let ghost first = views(cs@);
    match icon_name {
        Some(name) => {
            if crate::text::str_starts_with(name.as_str(), "/") {
                cs.push(name.clone());
                assert(views(cs@) =~= first + seq![name@]);
            } else {
                let base = icon_base_name(name.as_str());
                let mut more = icon_search_paths(base.as_str(), home);
                cs.append(&mut more);
                assert(views(cs@) =~= first + icon_candidates(icon_base(name@), opt_str_view(home)));
            }
        },
        None => {
            assert(views(cs@) =~= first + Seq::<Seq<char>>::empty());
        },
    }
    assert(views(cs@) =~= icon_choices(opt_view(*icon_name), opt_view(*icon_path), opt_str_view(home)));
    let ghost all = cs@;
    let r = first_file(cs, is_file);
    assert(first_found(all, *is_file, r));
    r
}

/// `b` is `a` after its icon was looked up: either `is_file` confirmed the
/// icon path `a` had and nothing changed, or `is_file` denied that path (or
/// there was none), a missing icon name was guessed and the first icon file
/// found (if any) became the icon path.
pub open spec fn icon_enriched<F: Fn(&String) -> bool>(
    a: AppInfo,
    b: AppInfo,
    home: Option<Seq<char>>,
    is_file: F,
) -> bool {
    ||| (a.icon_path matches Some(p) && is_file.ensures((&p,), true) && b == a)
    ||| exists|mid: AppInfo, r: Option<String>, cs: Seq<String>|
        {
            &&& (a.icon_path matches Some(p) ==> is_file.ensures((&p,), false))
            &&& icon_name_filled(a, mid)
            &&& views(cs) == icon_choices(opt_view(mid.icon_name), opt_view(mid.icon_path), home)
            &&& first_found(cs, is_file, r)
            &&& b == (AppInfo {
                icon_path: match r {
                    Some(x) => Some(x),
                    None => mid.icon_path,
                },
                ..mid
            })
        }
}

pub open spec fn icons_enriched<F: Fn(&String) -> bool>(
    a: Seq<AppInfo>,
    b: Seq<AppInfo>,
    home: Option<Seq<char>>,
    is_file: F,
) -> bool {
    &&& a.len() == b.len()
    &&& forall|i: int| 0 <= i < a.len() ==> icon_enriched(a[i], #[trigger] b[i], home, is_file)
}

fn enrich_icon<F: Fn(&String) -> bool>(a: AppInfo, home: Option<&str>, is_file: &F) -> (r: AppInfo)
    requires
        forall|s: &String| #[trigger] is_file.requires((s,)),
    ensures
        icon_enriched(a, r, opt_str_view(home), *is_file),
{
    if let Some(p) = &a.icon_path {
        if is_file(p) {
            return a;
        }
    }
    assert(a.icon_path matches Some(p) ==> is_file.ensures((&p,), false));
    let mut b = a.clone();
    if b.icon_name.is_none() {
        b.icon_name = Some(guess_icon_name(&a));
    }
    let ghost mid = b;
    assert(icon_name_filled(a, mid));
    let found = resolve_icon_path(&b.icon_name, &b.icon_path, home, is_file);
    let ghost fv = found;
    if let Some(path) = found {
        b.icon_path = Some(path);
    }
    assert(b == (AppInfo {
        icon_path: match fv {
            Some(x) => Some(x),
            None => mid.icon_path,
        },
        ..mid
    }));
    b
}

/// Completes the icon names and looks up the icon file of every
/// application; `is_file` says whether a path names a file.
pub fn enrich_icons<F: Fn(&String) -> bool>(apps: &mut Vec<AppInfo>, home: Option<&str>, is_file: &F)
    requires
        forall|s: &String| #[trigger] is_file.requires((s,)),
    ensures
        icons_enriched(old(apps)@, final(apps)@, opt_str_view(home), *is_file),
{
    let n = apps.len();
    let ghost orig = apps@;
    for i in 0..n
        invariant
            n == apps@.len() == orig.len(),
            forall|s: &String| #[trigger] is_file.requires((s,)),
            forall|j: int|
                0 <= j < i ==> icon_enriched(orig[j], #[trigger] apps@[j], opt_str_view(home), *is_file),
            forall|j: int| i <= j < n ==> apps@[j] == orig[j],
    {
        let a = apps[i].clone();
        let b = enrich_icon(a, home, is_file);
        apps.set(i, b);
    }
}

/// The applications of a scan, ready to show: icons looked up, system
/// components classified, duplicates across backends removed (sorted by
/// name), and icons looked up again for what was kept.
pub fn finalize_apps<F: Fn(&String) -> bool>(apps: Vec<AppInfo>, home: Option<&str>, is_file: &F) -> (r: Vec<AppInfo>)
    requires
        forall|s: &String| #[trigger] is_file.requires((s,)),
    ensures
        exists|s1: Seq<AppInfo>, s2: Seq<AppInfo>|
            {
                &&& icons_enriched(apps@, s1, opt_str_view(home), *is_file)
                &&& s2.len() == s1.len()
                &&& (forall|i: int| 0 <= i < s1.len() ==> classified_as(s1[i], #[trigger] s2[i]))
                &&& icons_enriched(deduplicated(s2), r@, opt_str_view(home), *is_file)
            },
{
    let mut apps = apps;
    enrich_icons(&mut apps, home, is_file);
    let ghost s1 = apps@;
    classify_system_apps(&mut apps);
    let ghost s2 = apps@;
    let mut kept = deduplicate_apps(apps);
    enrich_icons(&mut kept, home, is_file);
    kept
}

/// Classifying twice changes nothing more than classifying once.
pub proof fn lemma_classify_idempotent(a: AppInfo, b: AppInfo, c: AppInfo)
    requires
        classified_as(a, b),
        classified_as(b, c),
    ensures
        c == b,
{
}

} // verus!
