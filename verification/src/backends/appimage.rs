//! AppImage backend: self-contained executables found in the user's
//! directories or named by desktop entries.

use vstd::prelude::*;

use crate::backends::desktop::{
    ends_in_plain_name, file_name_of, last_segment, path_file_name, path_file_stem,
    path_prefix_of, path_starts_with, stem_of_name,
};
use crate::models::{is_new_app, AppInfo, BackendError, BackendResult, InstallMethod};
use crate::services::normalize::opt_str_view;
use crate::system::paths::{default_appimage_dirs, join_path, joined};
use crate::text::{
    contains_seq, copy_string, ends_with, is_ascii_digit, lines, lowercase, opt_view,
    replace_char, rsplit_once, split_by, split_whitespace, starts_with, str_contains, str_lines,
    str_replace_char, str_rsplit_once, str_split_char, str_split_whitespace, str_starts_with,
    str_strip_prefix, str_trim_end_matches, strip_prefix, to_lowercase, trim_end_matches, views,
};
use crate::util::validation::{package_id_valid, rejected_with, validate_package_id};

verus! {

/// The AppImage backend and the directories it searches.
pub struct AppImageBackend {
    search_dirs: Vec<String>,
}

impl AppImageBackend {
    /// A backend searching the default directories of this user.
    pub fn new() -> (r: Self)
        ensures
            exists|h: Option<Seq<char>>|
                views(r.dirs()) == crate::system::paths::appimage_dirs_in(h),
    {
        AppImageBackend { search_dirs: default_appimage_dirs() }
    }

    /// A backend searching the given directories.
    pub fn with_dirs(dirs: Vec<String>) -> (r: Self)
        ensures
            r.dirs() == dirs@,
    {
        AppImageBackend { search_dirs: dirs }
    }

    pub closed spec fn dirs(&self) -> Seq<String> {
        self.search_dirs@
    }

    /// The directories searched.
    pub fn search_dirs(&self) -> (r: &Vec<String>)
        ensures
            r@ == self.dirs(),
    {
        &self.search_dirs
    }

    pub fn id(&self) -> (r: InstallMethod)
        ensures
            r == InstallMethod::AppImage,
    {
        InstallMethod::AppImage
    }
}

// ---------------------------------------------------------------------------
// Names and versions.
// ---------------------------------------------------------------------------

/// A file stem without its architecture and extension suffixes.
pub open spec fn cleaned_stem(stem: Seq<char>) -> Seq<char> {
    trim_end_matches(
        trim_end_matches(
            trim_end_matches(
                trim_end_matches(trim_end_matches(stem, "-x86_64"@), "-aarch64"@),
                "-arm64"@,
            ),
            ".AppImage"@,
        ),
        ".appimage"@,
    )
}

/// Name and version of an AppImage file stem (`Foo-1.2.3-x86_64`): the
/// text after the last `-` is the version when it starts with a digit; `-`
/// in the name become spaces.
pub open spec fn name_version(stem: Seq<char>) -> (Seq<char>, Option<Seq<char>>) {
    let c = cleaned_stem(stem);
    match rsplit_once(c, '-') {
        Some((name, ver)) => if ver.len() > 0 && is_ascii_digit(ver[0]) {
            (replace_char(name, '-', ' '), Some(ver))
        } else {
            (replace_char(c, '-', ' '), None)
        },
        None => (replace_char(c, '-', ' '), None),
    }
}

/// Splits an AppImage file stem into name and version.
pub fn split_name_version(stem: &str) -> (r: (String, Option<String>))
    ensures
        (r.0@, opt_view(r.1)) == name_version(stem@),
{
    proof {
        reveal_strlit("-x86_64");
        reveal_strlit("-aarch64");
        reveal_strlit("-arm64");
        reveal_strlit(".AppImage");
        reveal_strlit(".appimage");
    }
    let c1 = str_trim_end_matches(stem, "-x86_64");
    let c2 = str_trim_end_matches(c1.as_str(), "-aarch64");
    let c3 = str_trim_end_matches(c2.as_str(), "-arm64");
    let c4 = str_trim_end_matches(c3.as_str(), ".AppImage");
    let cleaned = str_trim_end_matches(c4.as_str(), ".appimage");
    if let Some((name, ver)) = str_rsplit_once(cleaned.as_str(), '-') {
        let starts_digit = match crate::text::chars_of(ver.as_str()).first() {
            Some(c) => '0' <= *c && *c <= '9',
            None => false,
        };
        if starts_digit {
            return (str_replace_char(name.as_str(), '-', ' '), Some(ver));
        }
    }
    (str_replace_char(cleaned.as_str(), '-', ' '), None)
}

// ---------------------------------------------------------------------------
// Files.
// ---------------------------------------------------------------------------

/// A path whose file name, lowercased, ends in `.appimage`.
pub open spec fn has_appimage_name(path: Seq<char>) -> bool {
    ends_with(
        lowercase(
            match file_name_of(path) {
                Some(n) => n,
                None => ""@,
            },
        ),
        ".appimage"@,
    )
}

/// The first bytes of an ELF executable.
pub open spec fn elf_magic() -> Seq<u8> {
    seq![0x7fu8, 0x45u8, 0x4cu8, 0x46u8]
}

/// An AppImage is a regular file named `*.AppImage` (any case), executable
/// by someone, that starts with the ELF magic number.
pub open spec fn is_appimage_file(
    path: Seq<char>,
    is_file: bool,
    mode: Option<u32>,
    magic: Option<Seq<u8>>,
) -> bool {
    &&& has_appimage_name(path)
    &&& is_file
    &&& (mode matches Some(m) && m & 0o111u32 != 0)
    &&& magic == Some(elf_magic())
}

/// Whether a file is a genuine AppImage, given what the file system says of
/// it: whether it is a regular file, its permission bits and its first four
/// bytes (`None` when they could not be read).
pub fn is_valid_appimage(path: &str, is_file: bool, mode: Option<u32>, magic: Option<[u8; 4]>) -> (r: bool)
    ensures
        r == is_appimage_file(
            path@,
            is_file,
            mode,
            match magic {
                Some(m) => Some(m@),
                None => None,
            },
        ),
{
    proof {
        reveal_strlit("");
    }
    let name = match path_file_name(path) {
        Some(n) => n,
        None => copy_string(""),
    };
    let lower = to_lowercase(name.as_str());
    if !crate::text::str_ends_with(lower.as_str(), ".appimage") {
        return false;
    }
    if !is_file {
        return false;
    }
    match mode {
        Some(m) => {
            if m & 0o111u32 == 0 {
                return false;
            }
        },
        None => {
            return false;
        },
    }
    match magic {
        Some(b) => {
            let ok = b[0] == 0x7fu8 && b[1] == 0x45u8 && b[2] == 0x4cu8 && b[3] == 0x46u8;
            assert(b@.len() == 4);
            assert(ok ==> b@ =~= elf_magic());
            assert(b@ =~= elf_magic() ==> b@[0] == 0x7fu8 && b@[1] == 0x45u8 && b@[2] == 0x4cu8
                && b@[3] == 0x46u8);
            assert(ok == (Some(b@) == Some(elf_magic())));
            ok
        },
        None => false,
    }
}

/// The record of an AppImage at `path`: the file stem (or `AppImage`) gives
/// name and version; the path is package id and install path; size and
/// modification time come from the file system; origin `Arquivo local` and
/// the machine's architecture.
pub open spec fn is_appimage_app(
    a: AppInfo,
    path: Seq<char>,
    size: Option<u64>,
    modified: Option<(i64, u32)>,
    arch: Seq<char>,
) -> bool {
    let stem = match file_name_of(path) {
        Some(n) => stem_of_name(n),
        None => "AppImage"@,
    };
    let (name, version) = name_version(stem);
    &&& is_new_app(
        AppInfo {
            version: None,
            install_path: None,
            size_bytes: None,
            install_date: None,
            origin: None,
            architecture: None,
            ..a
        },
        InstallMethod::AppImage,
        path,
        name,
    )
    &&& opt_view(a.version) == version
    &&& opt_view(a.install_path) == Some(path)
    &&& a.size_bytes == size
    &&& a.install_date == modified
    &&& opt_view(a.origin) == Some("Arquivo local"@)
    &&& opt_view(a.architecture) == Some(arch)
}

/// The record of the AppImage at `path`, given its size and modification
/// time (when the file system gave them) and the machine's architecture.
pub fn appinfo_from_path(
    path: &str,
    size: Option<u64>,
    modified: Option<(i64, u32)>,
    arch: &str,
) -> (r: AppInfo)
    ensures
        is_appimage_app(r, path@, size, modified, arch@),
{
    let stem = match path_file_stem(path) {
        Some(s) => s,
        None => copy_string("AppImage"),
    };
    let (name, version) = split_name_version(stem.as_str());
    let mut app = AppInfo::new(InstallMethod::AppImage, path, name.as_str());
    app.version = version;
    app.install_path = Some(copy_string(path));
    app.size_bytes = size;
    app.install_date = modified;
    app.origin = Some(copy_string("Arquivo local"));
    app.architecture = Some(copy_string(arch));
    app
}

// ---------------------------------------------------------------------------
// Desktop entries that launch AppImages.
// ---------------------------------------------------------------------------

/// The AppImage an entry launches: the first word of the first `Exec=` line
/// whose first word names an `.appimage` (any case); the search ends at an
/// `Exec=` line without words.
pub open spec fn appimage_exec_in(ls: Seq<Seq<char>>) -> Option<Seq<char>>
    decreases ls.len(),
{
    if ls.len() == 0 {
        None
    } else {
        match strip_prefix(ls[0], "Exec="@) {
            Some(v) => if split_whitespace(v).len() == 0 {
                None
            } else if contains_seq(lowercase(split_whitespace(v)[0]), ".appimage"@) {
                Some(split_whitespace(v)[0])
            } else {
                appimage_exec_in(ls.drop_first())
            },
            None => appimage_exec_in(ls.drop_first()),
        }
    }
}

/// The directories whose desktop entries may launch an AppImage: the
/// user's `.local/share/applications`, when there is a home directory, then
/// `/usr/share/applications` and `/usr/local/share/applications`.
pub open spec fn appimage_desktop_dirs_in(home: Option<Seq<char>>) -> Seq<Seq<char>> {
    let system = seq!["/usr/share/applications"@, "/usr/local/share/applications"@];
    match home {
        Some(h) => seq![joined(h, ".local/share/applications"@)] + system,
        None => system,
    }
}

/// The directories searched for desktop entries launching AppImages.
pub fn appimage_desktop_dirs(home: Option<&str>) -> (r: Vec<String>)
    ensures
        views(r@) == appimage_desktop_dirs_in(opt_str_view(home)),
{
    let mut dirs: Vec<String> = Vec::new();
    if let Some(h) = home {
        dirs.push(join_path(h, ".local/share/applications"));
    }
    dirs.push(copy_string("/usr/share/applications"));
    dirs.push(copy_string("/usr/local/share/applications"));
    assert(views(dirs@) =~= appimage_desktop_dirs_in(opt_str_view(home)));
    dirs
}

/// The AppImage a desktop entry launches, if any.
pub fn extract_appimage_exec(content: &str) -> (r: Option<String>)
    ensures
        opt_view(r) == appimage_exec_in(lines(content@)),
{
    let ls = str_lines(content);
    let ghost lv = views(ls@);
    let n = ls.len();
    assert(lv.skip(0) =~= lv);
    for i in 0..n
        invariant
            n == ls@.len(),
            lv == views(ls@),
            lv == lines(content@),
            appimage_exec_in(lv) == appimage_exec_in(lv.skip(i as int)),
    {
        assert(lv.skip(i as int)[0] == ls@[i as int]@);
        assert(lv.skip(i as int).drop_first() =~= lv.skip(i + 1));
        if let Some(v) = str_strip_prefix(ls[i].as_str(), "Exec=") {
            let mut words = str_split_whitespace(v.as_str());
            if words.len() == 0 {
                return None;
            }
            let lower = to_lowercase(words[0].as_str());
            if str_contains(lower.as_str(), ".appimage") {
                let w = words.remove(0);
                return Some(w);
            }
        }
    }
    assert(lv.skip(n as int) =~= Seq::<Seq<char>>::empty());
    None
}

/// The first non-empty entry of a `Categories=` value.
pub open spec fn first_nonempty(parts: Seq<Seq<char>>) -> Option<Seq<char>>
    decreases parts.len(),
{
    if parts.len() == 0 {
        None
    } else if parts[0].len() > 0 {
        Some(parts[0])
    } else {
        first_nonempty(parts.drop_first())
    }
}

fn pick_first_nonempty(v: &str) -> (r: Option<String>)
    ensures
        opt_view(r) == first_nonempty(split_by(v@, ';')),
{
    let parts = str_split_char(v, ';');
    let ghost pv = views(parts@);
    let n = parts.len();
    assert(pv.skip(0) =~= pv);
    for i in 0..n
        invariant
            n == parts@.len(),
            pv == views(parts@),
            pv == split_by(v@, ';'),
            first_nonempty(pv) == first_nonempty(pv.skip(i as int)),
    {
        assert(pv.skip(i as int)[0] == parts@[i as int]@);
        assert(pv.skip(i as int).drop_first() =~= pv.skip(i + 1));
        if !parts[i].as_str().is_empty() {
            return Some(parts[i].clone());
        }
    }
    assert(pv.skip(n as int) =~= Seq::<Seq<char>>::empty());
    None
}

/// Fields that the lines of an entry set: name, icon path, icon name,
/// description and category, starting from those of a record.
pub type DesktopFields = (
    Seq<char>,
    Option<Seq<char>>,
    Option<Seq<char>>,
    Option<Seq<char>>,
    Option<Seq<char>>,
);

pub open spec fn fields_of(a: AppInfo) -> DesktopFields {
    (
        a.name@,
        opt_view(a.icon_path),
        opt_view(a.icon_name),
        opt_view(a.description),
        opt_view(a.category),
    )
}

/// One line of a desktop entry read into the fields.
pub open spec fn fields_step(f: DesktopFields, line: Seq<char>) -> DesktopFields {
    let (name, icon_path, icon_name, desc, cat) = f;
    if let Some(v) = strip_prefix(line, "Name="@) {
        (v, icon_path, icon_name, desc, cat)
    } else if let Some(v) = strip_prefix(line, "Icon="@) {
        if starts_with(v, "/"@) {
            (name, Some(v), icon_name, desc, cat)
        } else {
            (name, icon_path, Some(v), desc, cat)
        }
    } else if let Some(v) = strip_prefix(line, "Comment="@) {
        (name, icon_path, icon_name, Some(v), cat)
    } else if let Some(v) = strip_prefix(line, "Categories="@) {
        (name, icon_path, icon_name, desc, first_nonempty(split_by(v, ';')))
    } else {
        f
    }
}

pub open spec fn fields_after(f: DesktopFields, ls: Seq<Seq<char>>) -> DesktopFields
    decreases ls.len(),
{
    if ls.len() == 0 {
        f
    } else {
        fields_step(fields_after(f, ls.drop_last()), ls.last())
    }
}

/// `b` is `a` with name, icon, description and category read from the
/// lines of an entry, and the entry's file name as desktop id.
pub open spec fn enriched_from_content(
    a: AppInfo,
    b: AppInfo,
    content: Seq<char>,
    desktop_path: Seq<char>,
) -> bool {
    &&& fields_of(b) == fields_after(fields_of(a), lines(content))
    &&& opt_view(b.desktop_id) == file_name_of(desktop_path)
    &&& b == (AppInfo {
        name: b.name,
        icon_path: b.icon_path,
        icon_name: b.icon_name,
        description: b.description,
        category: b.category,
        desktop_id: b.desktop_id,
        ..a
    })
}

/// Reads name, icon, description and category of an AppImage from the
/// desktop entry that launches it.
pub fn enrich_from_desktop_content(app: &mut AppInfo, content: &str, desktop_path: &str)
    ensures
        enriched_from_content(*old(app), *final(app), content@, desktop_path@),
{
    let ghost a0 = *app;
    let ls = str_lines(content);
    let ghost lv = views(ls@);
    let n = ls.len();
    for i in 0..n
        invariant
            n == ls@.len(),
            lv == views(ls@),
            lv == lines(content@),
            fields_of(*app) == fields_after(fields_of(a0), lv.take(i as int)),
            *app == (AppInfo {
                name: app.name,
                icon_path: app.icon_path,
                icon_name: app.icon_name,
                description: app.description,
                category: app.category,
                ..a0
            }),
    {
        assert(lv.take(i + 1).drop_last() =~= lv.take(i as int));
        assert(lv.take(i + 1).last() == ls@[i as int]@);
        let line = ls[i].as_str();
        if let Some(v) = str_strip_prefix(line, "Name=") {
            app.name = v;
        } else if let Some(v) = str_strip_prefix(line, "Icon=") {
            if str_starts_with(v.as_str(), "/") {
                app.icon_path = Some(v);
            } else {
                app.icon_name = Some(v);
            }
        } else if let Some(v) = str_strip_prefix(line, "Comment=") {
            app.description = Some(v);
        } else if let Some(v) = str_strip_prefix(line, "Categories=") {
            app.category = pick_first_nonempty(v.as_str());
        }
    }
    assert(lv.take(n as int) =~= lv);
    app.desktop_id = path_file_name(desktop_path);
}

// ---------------------------------------------------------------------------
// A scan.
// ---------------------------------------------------------------------------

/// The applications found by a scan, each under its own path.
pub struct AppImageScan {
    apps: Vec<AppInfo>,
}

/// No two records share a package id (their path).
pub open spec fn distinct_packages(apps: Seq<AppInfo>) -> bool {
    forall|i: int, j: int|
        0 <= i < j < apps.len() ==> (#[trigger] apps[i]).package_id@ != (#[trigger] apps[j]).package_id@
}

impl View for AppImageScan {
    type V = Seq<AppInfo>;

    closed spec fn view(&self) -> Seq<AppInfo> {
        self.apps@
    }
}

impl AppImageScan {
    #[verifier::type_invariant]
    spec fn paths_distinct(self) -> bool {
        distinct_packages(self.apps@)
    }

    /// An empty scan.
    pub fn new() -> (r: Self)
        ensures
            r@ == Seq::<AppInfo>::empty(),
    {
        AppImageScan { apps: Vec::new() }
    }

    /// Position of the record for a path.
    pub fn position(&self, path: &str) -> (r: Option<usize>)
        ensures
            r matches Some(i) ==> i < self@.len() && self@[i as int].package_id@ == path@,
            r is None ==> forall|i: int| 0 <= i < self@.len() ==> self@[i].package_id@ != path@,
    {
        let n = self.apps.len();
        for i in 0..n
            invariant
                n == self.apps@.len(),
                forall|j: int| 0 <= j < i ==> self.apps@[j].package_id@ != path@,
        {
            if crate::text::str_eq(self.apps[i].package_id.as_str(), path) {
                return Some(i);
            }
        }
        None
    }

    /// Whether a path was already seen.
    pub fn contains(&self, path: &str) -> (r: bool)
        ensures
            r == exists|i: int| 0 <= i < self@.len() && self@[i].package_id@ == path@,
    {
        self.position(path).is_some()
    }

    /// Adds a record found on disk, unless its path was already seen; says
    /// whether it was added.
    pub fn add_found(&mut self, app: AppInfo) -> (r: bool)
        ensures
            r == !exists|i: int|
                0 <= i < old(self)@.len() && old(self)@[i].package_id@ == app.package_id@,
            r ==> final(self)@ == old(self)@.push(app),
            !r ==> final(self)@ == old(self)@,
    {
        proof {
            use_type_invariant(&*self);
        }
        if self.contains(app.package_id.as_str()) {
            return false;
        }
        let mut apps: Vec<AppInfo> = Vec::new();
        std::mem::swap(&mut apps, &mut self.apps);
        apps.push(app);
        self.apps = apps;
        true
    }

    /// Handles a desktop entry launching the AppImage at `exec`: the record
    /// already found for that path is enriched from the entry; otherwise
    /// `fresh` (the record read from the file) is enriched and added.
    pub fn add_from_desktop(&mut self, fresh: AppInfo, content: &str, desktop_path: &str)
        ensures
            ({
                let found = exists|i: int|
                    0 <= i < old(self)@.len() && old(self)@[i].package_id@ == fresh.package_id@;
                &&& found ==> final(self)@.len() == old(self)@.len() && forall|i: int|
                    0 <= i < old(self)@.len() ==> if old(self)@[i].package_id@ == fresh.package_id@ {
                        enriched_from_content(old(self)@[i], final(self)@[i], content@, desktop_path@)
                    } else {
                        final(self)@[i] == old(self)@[i]
                    }
                &&& !found ==> final(self)@.len() == old(self)@.len() + 1 && final(self)@.take(
                    old(self)@.len() as int,
                ) == old(self)@ && enriched_from_content(
                    fresh,
                    final(self)@.last(),
                    content@,
                    desktop_path@,
                )
            }),
    {
        proof {
            use_type_invariant(&*self);
        }
        match self.position(fresh.package_id.as_str()) {
            Some(i) => {
                let mut app = self.apps[i].clone();
                enrich_from_desktop_content(&mut app, content, desktop_path);
                let ghost before = self.apps@;
                assert(app.package_id == before[i as int].package_id);
                let mut apps: Vec<AppInfo> = Vec::new();
                std::mem::swap(&mut apps, &mut self.apps);
                apps.set(i, app);
                self.apps = apps;
                assert forall|j: int| 0 <= j < before.len() && j != i implies before[j].package_id@
                    != fresh.package_id@ by {
                    if j < i {
                        assert(before[j].package_id@ != before[i as int].package_id@);
                    } else {
                        assert(before[i as int].package_id@ != before[j].package_id@);
                    }
                }
            },
            None => {
                let mut app = fresh;
                enrich_from_desktop_content(&mut app, content, desktop_path);
                let mut apps: Vec<AppInfo> = Vec::new();
                std::mem::swap(&mut apps, &mut self.apps);
                apps.push(app);
                self.apps = apps;
            },
        }
    }

    /// The records of the scan.
    pub fn into_apps(self) -> (r: Vec<AppInfo>)
        ensures
            r@ == self@,
    {
        self.apps
    }
}

// ---------------------------------------------------------------------------
// Removal.
// ---------------------------------------------------------------------------

/// Why an AppImage outside the home directory is not removed.
pub open spec fn outside_home_message() -> Seq<char> {
    "Remoção de AppImage fora do diretório do usuário requer autorização manual"@
}

/// Whether the AppImage `id` may be removed: the id must be a valid
/// AppImage id, the file must exist and lie under the home directory.
pub fn check_removal(id: &str, exists: bool, home: Option<&str>) -> (r: BackendResult<()>)
    ensures
        !package_id_valid(InstallMethod::AppImage, id@) ==> (r matches Err(e) && rejected_with(
            InstallMethod::AppImage,
            id@,
            e,
        )),
        package_id_valid(InstallMethod::AppImage, id@) ==> (if !exists {
            r matches Err(BackendError::NotFound(s)) && s@ == id@
        } else if !(home matches Some(h) && path_prefix_of(id@, h@)) {
            r matches Err(BackendError::PermissionDenied(s)) && s@ == outside_home_message()
        } else {
            r is Ok
        }),
{
    match validate_package_id(InstallMethod::AppImage, id) {
        Ok(()) => {},
        Err(e) => {
            return Err(e);
        },
    }
    if !exists {
        return Err(BackendError::NotFound(copy_string(id)));
    }
    let under_home = match home {
        Some(h) => path_starts_with(id, h),
        None => false,
    };
    if !under_home {
        return Err(
            BackendError::PermissionDenied(
                copy_string(
                    "Remoção de AppImage fora do diretório do usuário requer autorização manual",
                ),
            ),
        );
    }
    Ok(())
}

} // verus!
