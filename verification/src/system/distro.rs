//! Linux distribution detection from the contents of `/etc/os-release`.

use vstd::prelude::*;

use crate::text::{
    copy_string, lines, opt_view, split_whitespace, str_lines, str_split_whitespace, str_strip_prefix,
    str_trim, str_trim_char, strip_prefix, trim, trim_char, views,
};

verus! {

/// Family of distributions, which decides the preferred package manager.
#[derive(Debug, Clone, Copy, PartialEq, Eq, Structural)]
pub enum DistroFamily {
    Debian,
    Fedora,
    Arch,
    Suse,
    Other,
}

/// What `/etc/os-release` says about the running distribution.
#[derive(Debug)]
pub struct DistroInfo {
    pub id: String,
    pub id_like: Vec<String>,
    pub name: String,
    pub version_id: Option<String>,
    pub family: DistroFamily,
}

/// A value without surrounding whitespace, then without surrounding double
/// quotes, then without surrounding single quotes.
pub open spec fn unquoted(s: Seq<char>) -> Seq<char> {
    trim_char(trim_char(trim(s), '"'), '\'')
}

fn unquote(s: &str) -> (r: String)
    ensures
        r@ == unquoted(s@),
{
    let a = str_trim(s);
    let b = str_trim_char(a.as_str(), '"');
    str_trim_char(b.as_str(), '\'')
}

/// The family a single distribution id belongs to, if it is a known one.
pub open spec fn token_family(t: Seq<char>) -> Option<DistroFamily> {
    if t == "debian"@ || t == "ubuntu"@ || t == "linuxmint"@ || t == "pop"@ || t
        == "elementary"@ || t == "zorin"@ || t == "raspbian"@ || t == "kali"@ || t == "mx"@ {
        Some(DistroFamily::Debian)
    } else if t == "fedora"@ || t == "rhel"@ || t == "centos"@ || t == "rocky"@ || t == "alma"@
        || t == "nobara"@ {
        Some(DistroFamily::Fedora)
    } else if t == "arch"@ || t == "manjaro"@ || t == "endeavouros"@ || t == "garuda"@ {
        Some(DistroFamily::Arch)
    } else if t == "suse"@ || t == "opensuse"@ || t == "opensuse-tumbleweed"@ || t
        == "opensuse-leap"@ {
        Some(DistroFamily::Suse)
    } else {
        None
    }
}

/// The family of the first known id among `tokens`, or Other.
pub open spec fn first_family(tokens: Seq<Seq<char>>) -> DistroFamily
    decreases tokens.len(),
{
    if tokens.len() == 0 {
        DistroFamily::Other
    } else {
        match token_family(tokens[0]) {
            Some(f) => f,
            None => first_family(tokens.drop_first()),
        }
    }
}

/// The family of a distribution: the id, then the ids it is like, in order.
pub open spec fn classify_family(id: Seq<char>, id_like: Seq<Seq<char>>) -> DistroFamily {
    first_family(seq![id] + id_like)
}

fn is_one_of(c: &str, options: &[&str]) -> (r: bool)
    ensures
        r == (exists|i: int| 0 <= i < options@.len() && c@ == (#[trigger] options@[i])@),
{
    let n = options.len();
    for i in 0..n
        invariant
            n == options@.len(),
            forall|j: int| 0 <= j < i ==> c@ != (#[trigger] options@[j])@,
    {
        if crate::text::str_eq(c, options[i]) {
            return true;
        }
    }
    false
}

fn family_of_token(t: &str) -> (r: Option<DistroFamily>)
    ensures
        r == token_family(t@),
{
    if is_one_of(
        t,
        &["debian", "ubuntu", "linuxmint", "pop", "elementary", "zorin", "raspbian", "kali", "mx"],
    ) {
        Some(DistroFamily::Debian)
    } else if is_one_of(t, &["fedora", "rhel", "centos", "rocky", "alma", "nobara"]) {
        Some(DistroFamily::Fedora)
    } else if is_one_of(t, &["arch", "manjaro", "endeavouros", "garuda"]) {
        Some(DistroFamily::Arch)
    } else if is_one_of(t, &["suse", "opensuse", "opensuse-tumbleweed", "opensuse-leap"]) {
        Some(DistroFamily::Suse)
    } else {
        None
    }
}

/// The family of a distribution from its id and the ids it is like.
pub fn classify(id: &str, id_like: &Vec<String>) -> (r: DistroFamily)
    ensures
        r == classify_family(id@, views(id_like@)),
{
    let ghost tokens = seq![id@] + views(id_like@);
    if let Some(f) = family_of_token(id) {
        return f;
    }
    assert(tokens.drop_first() =~= views(id_like@));
    assert(tokens[0] == id@);
    assert(views(id_like@).skip(0) =~= views(id_like@));
    let n = id_like.len();
    for i in 0..n
        invariant
            n == id_like@.len(),
            classify_family(id@, views(id_like@)) == first_family(views(id_like@).skip(i as int)),
    {
        assert(views(id_like@).skip(i as int)[0] == id_like@[i as int]@);
        assert(views(id_like@).skip(i as int).drop_first() =~= views(id_like@).skip(i + 1));
        if let Some(f) = family_of_token(id_like[i].as_str()) {
            return f;
        }
    }
    assert(views(id_like@).skip(n as int) =~= Seq::<Seq<char>>::empty());
    DistroFamily::Other
}

/// The fields read so far: id, the ids it is like, name, version id.
pub type OsReleaseFields = (Seq<char>, Seq<Seq<char>>, Seq<char>, Option<Seq<char>>);

/// One line of `os-release` applied to the fields read so far: `ID=`,
/// `ID_LIKE=` (split at whitespace), `NAME=` and `VERSION_ID=` set their
/// field to the unquoted value; other lines change nothing.
pub open spec fn os_release_line(f: OsReleaseFields, raw: Seq<char>) -> OsReleaseFields {
    let line = trim(raw);
    if let Some(v) = strip_prefix(line, "ID="@) {
        (unquoted(v), f.1, f.2, f.3)
    } else if let Some(v) = strip_prefix(line, "ID_LIKE="@) {
        (f.0, split_whitespace(unquoted(v)), f.2, f.3)
    } else if let Some(v) = strip_prefix(line, "NAME="@) {
        (f.0, f.1, unquoted(v), f.3)
    } else if let Some(v) = strip_prefix(line, "VERSION_ID="@) {
        (f.0, f.1, f.2, Some(unquoted(v)))
    } else {
        f
    }
}

/// The fields after reading the lines in order; before any line the id is
/// empty, there are no like-ids, the name is `Linux` and no version is known.
pub open spec fn os_release_fields(ls: Seq<Seq<char>>) -> OsReleaseFields
    decreases ls.len(),
{
    if ls.len() == 0 {
        (Seq::empty(), Seq::empty(), "Linux"@, None)
    } else {
        os_release_line(os_release_fields(ls.drop_last()), ls.last())
    }
}

/// The information `DistroInfo::from_os_release` gives for a file content.
pub open spec fn describes_os_release(d: DistroInfo, content: Seq<char>) -> bool {
    let f = os_release_fields(lines(content));
    &&& d.id@ == f.0
    &&& views(d.id_like@) == f.1
    &&& d.name@ == f.2
    &&& opt_view(d.version_id) == f.3
    &&& d.family == classify_family(f.0, f.1)
}

impl DistroInfo {
    /// The distribution described by an `os-release` file, or an unknown
    /// Linux when the file could not be read.
    pub fn detect(os_release: Option<&str>) -> (r: DistroInfo)
        ensures
            os_release matches Some(c) ==> describes_os_release(r, c@),
            os_release is None ==> r.id@ == "unknown"@ && r.id_like@.len() == 0 && r.name@
                == "Linux"@ && r.version_id is None && r.family == DistroFamily::Other,
    {
        match os_release {
            Some(content) => DistroInfo::from_os_release(content),
            None => DistroInfo {
                id: copy_string("unknown"),
                id_like: Vec::new(),
                name: copy_string("Linux"),
                version_id: None,
                family: DistroFamily::Other,
            },
        }
    }

    /// Reads the fields of an `os-release` file content.
    pub fn from_os_release(content: &str) -> (r: DistroInfo)
        ensures
            describes_os_release(r, content@),
    {
        let ls = str_lines(content);
        let mut id = String::new();
        let mut id_like: Vec<String> = Vec::new();
        let mut name = copy_string("Linux");
        let mut version_id: Option<String> = None;
        let n = ls.len();
        let ghost lv = views(ls@);
        assert(views(id_like@) =~= Seq::<Seq<char>>::empty());
        for i in 0..n
            invariant
                n == ls@.len(),
                lv == views(ls@),
                lv == lines(content@),
                (id@, views(id_like@), name@, opt_view(version_id)) == os_release_fields(
                    lv.take(i as int),
                ),
        {
            assert(lv.take(i + 1).drop_last() =~= lv.take(i as int));
            assert(lv.take(i + 1).last() == ls@[i as int]@);
            let line = str_trim(ls[i].as_str());
            if let Some(v) = str_strip_prefix(line.as_str(), "ID=") {
                id = unquote(v.as_str());
            } else if let Some(v) = str_strip_prefix(line.as_str(), "ID_LIKE=") {
                let u = unquote(v.as_str());
                id_like = str_split_whitespace(u.as_str());
            } else if let Some(v) = str_strip_prefix(line.as_str(), "NAME=") {
                name = unquote(v.as_str());
            } else if let Some(v) = str_strip_prefix(line.as_str(), "VERSION_ID=") {
                version_id = Some(unquote(v.as_str()));
            }
        }
        assert(lv.take(n as int) =~= lv);
        let family = classify(id.as_str(), &id_like);
        DistroInfo { id, id_like, name, version_id, family }
    }

    /// Debian-family systems prefer APT.
    pub fn prefers_apt(&self) -> (r: bool)
        ensures
            r == (self.family == DistroFamily::Debian),
    {
        match self.family {
            DistroFamily::Debian => true,
            _ => false,
        }
    }

    /// Fedora-family systems prefer DNF.
    pub fn prefers_dnf(&self) -> (r: bool)
        ensures
            r == (self.family == DistroFamily::Fedora),
    {
        match self.family {
            DistroFamily::Fedora => true,
            _ => false,
        }
    }
}

} // verus!
