//! Reading `.desktop` entries (freedesktop.org desktop files).

use vstd::prelude::*;

use crate::text::{
    chars_of, copy_string, find_last, lemma_find_last_bounds, lines, opt_view, push_char, split_whitespace, str_lines,
    str_split_whitespace, str_strip_prefix, str_trim, strip_prefix, trim,
};

verus! {

/// The final component of a path, as `std::path::Path::file_name` gives it.
pub uninterp spec fn file_name_of(path: Seq<char>) -> Option<Seq<char>>;

/// The text after the last `/` of a path.
pub open spec fn last_segment(p: Seq<char>) -> Seq<char> {
    p.skip(find_last(p, '/') + 1)
}

/// A path whose last segment is a plain name (not empty, `.` or `..`).
pub open spec fn ends_in_plain_name(p: Seq<char>) -> bool {
    let seg = last_segment(p);
    seg.len() > 0 && seg != "."@ && seg != ".."@
}

/// `Path::file_name` of a path given as text, converted back to text (the
/// conversion is exact for text paths). When the path ends in a plain name,
/// that name is the file name.
#[verifier::external_body]
pub(crate) fn path_file_name(p: &str) -> (r: Option<String>)
    ensures
        r matches Some(s) ==> file_name_of(p@) == Some(s@),
        r is None ==> file_name_of(p@) is None,
        r is None ==> !ends_in_plain_name(p@),
        r matches Some(s) ==> (ends_in_plain_name(p@) ==> s@ == last_segment(p@)),
{
    std::path::Path::new(p).file_name().map(|s| s.to_string_lossy().to_string())
}

/// `Path::file_stem` of a file name: the whole name when it has no `.`
/// after its first character, else the part before its last `.`.
pub open spec fn stem_of_name(name: Seq<char>) -> Seq<char> {
    let k = find_last(name, '.');
    if k <= 0 {
        name
    } else {
        name.take(k)
    }
}

/// `Path::extension` of a file name: none when it has no `.` after its
/// first character, else the part after its last `.`.
pub open spec fn extension_of_name(name: Seq<char>) -> Option<Seq<char>> {
    let k = find_last(name, '.');
    if k <= 0 {
        None
    } else {
        Some(name.skip(k + 1))
    }
}

/// `Path::file_stem` of a path given as text.
pub fn path_file_stem(p: &str) -> (r: Option<String>)
    ensures
        opt_view(r) == (match file_name_of(p@) {
            Some(n) => Some(stem_of_name(n)),
            None => None,
        }),
{
    match path_file_name(p) {
        Some(n) => {
            let x = chars_of(n.as_str());
            proof {
                lemma_find_last_bounds(x@, '.');
            }
            match crate::text::str_rsplit_once(n.as_str(), '.') {
                Some((before, _)) => {
                    if before.as_str().is_empty() {
                        Some(n)
                    } else {
                        Some(before)
                    }
                },
                None => Some(n),
            }
        },
        None => None,
    }
}

/// `Path::extension` of a path given as text.
pub fn path_extension(p: &str) -> (r: Option<String>)
    ensures
        opt_view(r) == (match file_name_of(p@) {
            Some(n) => extension_of_name(n),
            None => None,
        }),
{
    match path_file_name(p) {
        Some(n) => {
            let x = chars_of(n.as_str());
            proof {
                lemma_find_last_bounds(x@, '.');
            }
            match crate::text::str_rsplit_once(n.as_str(), '.') {
                Some((before, after)) => {
                    if before.as_str().is_empty() {
                        None
                    } else {
                        Some(after)
                    }
                },
                None => None,
            }
        },
        None => None,
    }
}

/// Whether a path's extension is `desktop`.
pub fn has_desktop_extension(p: &str) -> (r: bool)
    ensures
        r == (match file_name_of(p@) {
            Some(n) => extension_of_name(n) == Some("desktop"@),
            None => false,
        }),
{
    match path_extension(p) {
        Some(e) => crate::text::str_eq(e.as_str(), "desktop"),
        None => false,
    }
}

/// Whether `base` is a leading part of `path`, compared component by
/// component as `std::path::Path::starts_with` does.
pub uninterp spec fn path_prefix_of(path: Seq<char>, base: Seq<char>) -> bool;

/// `Path::starts_with`: component-wise prefix test of two text paths.
#[verifier::external_body]
pub(crate) fn path_starts_with(path: &str, base: &str) -> (r: bool)
    ensures
        r == path_prefix_of(path@, base@),
{
    std::path::Path::new(path).starts_with(base)
}

/// The trimmed value of the first line that starts with `prefix`.
pub open spec fn first_value(ls: Seq<Seq<char>>, prefix: Seq<char>) -> Option<Seq<char>>
    decreases ls.len(),
{
    if ls.len() == 0 {
        None
    } else {
        match strip_prefix(ls[0], prefix) {
            Some(v) => Some(trim(v)),
            None => first_value(ls.drop_first(), prefix),
        }
    }
}

/// The value of `key=` in a desktop entry: the first such line, trimmed.
pub open spec fn desktop_value(content: Seq<char>, key: Seq<char>) -> Option<Seq<char>> {
    first_value(lines(content), key + seq!['='])
}

/// The value of `key`, preferring `key[pt_BR]=`, then `key[pt]=`, then
/// `key=`.
pub open spec fn desktop_localized_value(content: Seq<char>, key: Seq<char>) -> Option<Seq<char>> {
    let br = first_value(lines(content), key + "[pt_BR]="@);
    let pt = first_value(lines(content), key + "[pt]="@);
    if br is Some {
        br
    } else if pt is Some {
        pt
    } else {
        desktop_value(content, key)
    }
}

/// The program of the `Exec=` line: its first whitespace-separated word.
pub open spec fn desktop_exec_value(content: Seq<char>) -> Option<Seq<char>> {
    match desktop_value(content, "Exec"@) {
        Some(e) => if split_whitespace(e).len() > 0 {
            Some(split_whitespace(e)[0])
        } else {
            None
        },
        None => None,
    }
}

fn first_line_value(ls: &Vec<String>, prefix: &str) -> (r: Option<String>)
    ensures
        r matches Some(v) ==> first_value(crate::text::views(ls@), prefix@) == Some(v@),
        r is None ==> first_value(crate::text::views(ls@), prefix@) is None,
{
    let n = ls.len();
    let ghost lv = crate::text::views(ls@);
    assert(lv.skip(0) =~= lv);
    for i in 0..n
        invariant
            n == ls@.len(),
            lv == crate::text::views(ls@),
            first_value(lv, prefix@) == first_value(lv.skip(i as int), prefix@),
    {
        assert(lv.skip(i as int)[0] == ls@[i as int]@);
        assert(lv.skip(i as int).drop_first() =~= lv.skip(i + 1));
        match str_strip_prefix(ls[i].as_str(), prefix) {
            Some(v) => {
                return Some(str_trim(v.as_str()));
            },
            None => {},
        }
    }
    assert(lv.skip(n as int) =~= Seq::<Seq<char>>::empty());
    None
}

fn key_prefix(key: &str, suffix: &str) -> (r: String)
    ensures
        r@ == key@ + suffix@,
{
    let mut s = copy_string(key);
    s.append(suffix);
    s
}

/// The value of `key=` in a desktop entry.
pub fn desktop_key(content: &str, key: &str) -> (r: Option<String>)
    ensures
        r matches Some(v) ==> desktop_value(content@, key@) == Some(v@),
        r is None ==> desktop_value(content@, key@) is None,
{
    let ls = str_lines(content);
    let mut prefix = copy_string(key);
    push_char(&mut prefix, '=');
    assert(prefix@ =~= key@ + seq!['=']);
    first_line_value(&ls, prefix.as_str())
}

/// The localized value of `key` (pt_BR, then pt, then unlocalized).
pub fn desktop_localized(content: &str, key: &str) -> (r: Option<String>)
    ensures
        r matches Some(v) ==> desktop_localized_value(content@, key@) == Some(v@),
        r is None ==> desktop_localized_value(content@, key@) is None,
{
    let ls = str_lines(content);
    let br = key_prefix(key, "[pt_BR]=");
    if let Some(v) = first_line_value(&ls, br.as_str()) {
        return Some(v);
    }
    let pt = key_prefix(key, "[pt]=");
    if let Some(v) = first_line_value(&ls, pt.as_str()) {
        return Some(v);
    }
    desktop_key(content, key)
}

/// The program an entry runs: the first word of `Exec=`.
pub fn desktop_exec(content: &str) -> (r: Option<String>)
    ensures
        r matches Some(v) ==> desktop_exec_value(content@) == Some(v@),
        r is None ==> desktop_exec_value(content@) is None,
{
    match desktop_key(content, "Exec") {
        Some(e) => {
            let mut words = str_split_whitespace(e.as_str());
            if words.len() > 0 {
                let w = words.remove(0);
                Some(w)
            } else {
                None
            }
        },
        None => None,
    }
}

} // verus!
