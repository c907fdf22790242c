//! Domain models: installation methods, normalised application records,
//! backend statuses, errors, filters and sort orders.

use vstd::prelude::*;

use crate::catalog::{catalog, Msg};
use crate::i18n::{arg_views, fill, message, message_with, Language};
use crate::text::{contains_chars, chars_of, contains_seq, copy_string, lowercase, to_lowercase};

verus! {

// ---------------------------------------------------------------------------
// Installation methods.
// ---------------------------------------------------------------------------

/// How an application was installed (where it comes from).
#[derive(Debug, Clone, Copy, PartialEq, Eq, Hash, PartialOrd, Ord, Structural)]
pub enum InstallMethod {
    Apt,
    Dnf,
    Flatpak,
    Snap,
    AppImage,
    Manual,
    System,
}

/// The stable technical key of a method, used in application ids.
pub open spec fn method_key(m: InstallMethod) -> Seq<char> {
    match m {
        InstallMethod::Apt => "apt"@,
        InstallMethod::Dnf => "dnf"@,
        InstallMethod::Flatpak => "flatpak"@,
        InstallMethod::Snap => "snap"@,
        InstallMethod::AppImage => "appimage"@,
        InstallMethod::Manual => "manual"@,
        InstallMethod::System => "system"@,
    }
}

/// The display name of a method; only Manual and System are translated.
pub open spec fn method_label(m: InstallMethod, lang: Language) -> Seq<char> {
    match m {
        InstallMethod::Apt => "APT"@,
        InstallMethod::Dnf => "DNF"@,
        InstallMethod::Flatpak => "Flatpak"@,
        InstallMethod::Snap => "Snap"@,
        InstallMethod::AppImage => "AppImage"@,
        InstallMethod::Manual => catalog(lang, Msg::Manual),
        InstallMethod::System => catalog(lang, Msg::System),
    }
}

pub open spec fn method_css_class(m: InstallMethod) -> Seq<char> {
    match m {
        InstallMethod::Apt => "method-apt"@,
        InstallMethod::Dnf => "method-dnf"@,
        InstallMethod::Flatpak => "method-flatpak"@,
        InstallMethod::Snap => "method-snap"@,
        InstallMethod::AppImage => "method-appimage"@,
        InstallMethod::Manual => "method-manual"@,
        InstallMethod::System => "method-system"@,
    }
}

pub open spec fn method_icon_name(m: InstallMethod) -> Seq<char> {
    match m {
        InstallMethod::Apt => "package-x-generic-symbolic"@,
        InstallMethod::Dnf => "package-x-generic-symbolic"@,
        InstallMethod::Flatpak => "application-x-addon-symbolic"@,
        InstallMethod::Snap => "snap-symbolic"@,
        InstallMethod::AppImage => "application-x-executable-symbolic"@,
        InstallMethod::Manual => "folder-symbolic"@,
        InstallMethod::System => "computer-symbolic"@,
    }
}

pub open spec fn all_methods() -> Seq<InstallMethod> {
    seq![
        InstallMethod::Apt,
        InstallMethod::Dnf,
        InstallMethod::Flatpak,
        InstallMethod::Snap,
        InstallMethod::AppImage,
        InstallMethod::Manual,
        InstallMethod::System,
    ]
}

/// Position of a method in declaration order (the order `Ord` gives).
pub open spec fn method_rank(m: InstallMethod) -> int {
    match m {
        InstallMethod::Apt => 0,
        InstallMethod::Dnf => 1,
        InstallMethod::Flatpak => 2,
        InstallMethod::Snap => 3,
        InstallMethod::AppImage => 4,
        InstallMethod::Manual => 5,
        InstallMethod::System => 6,
    }
}

impl InstallMethod {
    /// Stable technical key (never translated; used in application ids).
    pub fn id_key(&self) -> (r: &'static str)
        ensures
            r@ == method_key(*self),
    {
        match self {
            InstallMethod::Apt => "apt",
            InstallMethod::Dnf => "dnf",
            InstallMethod::Flatpak => "flatpak",
            InstallMethod::Snap => "snap",
            InstallMethod::AppImage => "appimage",
            InstallMethod::Manual => "manual",
            InstallMethod::System => "system",
        }
    }

    /// Display name in the given language.
    pub fn as_str(&self, lang: Language) -> (r: String)
        ensures
            r@ == method_label(*self, lang),
    {
        match self {
            InstallMethod::Apt => copy_string("APT"),
            InstallMethod::Dnf => copy_string("DNF"),
            InstallMethod::Flatpak => copy_string("Flatpak"),
            InstallMethod::Snap => copy_string("Snap"),
            InstallMethod::AppImage => copy_string("AppImage"),
            InstallMethod::Manual => message(lang, Msg::Manual),
            InstallMethod::System => message(lang, Msg::System),
        }
    }

    pub fn css_class(&self) -> (r: &'static str)
        ensures
            r@ == method_css_class(*self),
    {
        match self {
            InstallMethod::Apt => "method-apt",
            InstallMethod::Dnf => "method-dnf",
            InstallMethod::Flatpak => "method-flatpak",
            InstallMethod::Snap => "method-snap",
            InstallMethod::AppImage => "method-appimage",
            InstallMethod::Manual => "method-manual",
            InstallMethod::System => "method-system",
        }
    }

    pub fn icon_name(&self) -> (r: &'static str)
        ensures
            r@ == method_icon_name(*self),
    {
        match self {
            InstallMethod::Apt => "package-x-generic-symbolic",
            InstallMethod::Dnf => "package-x-generic-symbolic",
            InstallMethod::Flatpak => "application-x-addon-symbolic",
            InstallMethod::Snap => "snap-symbolic",
            InstallMethod::AppImage => "application-x-executable-symbolic",
            InstallMethod::Manual => "folder-symbolic",
            InstallMethod::System => "computer-symbolic",
        }
    }

    /// Every method, in declaration order.
    pub fn all() -> (r: Vec<InstallMethod>)
        ensures
            r@ == all_methods(),
    {
        vec![
            InstallMethod::Apt,
            InstallMethod::Dnf,
            InstallMethod::Flatpak,
            InstallMethod::Snap,
            InstallMethod::AppImage,
            InstallMethod::Manual,
            InstallMethod::System,
        ]
    }
}

// ---------------------------------------------------------------------------
// Application status.
// ---------------------------------------------------------------------------

/// Status of an installed application.
#[derive(Debug, Clone, Copy, PartialEq, Eq, Structural)]
pub enum AppStatus {
    Installed,
    UpdateAvailable,
    Broken,
    Unknown,
}

impl Default for AppStatus {
    fn default() -> (r: Self)
        ensures
            r == AppStatus::Installed,
    {
        AppStatus::Installed
    }
}

pub open spec fn status_msg(s: AppStatus) -> Msg {
    match s {
        AppStatus::Installed => Msg::StatusInstalled,
        AppStatus::UpdateAvailable => Msg::StatusUpdate,
        AppStatus::Broken => Msg::StatusBroken,
        AppStatus::Unknown => Msg::StatusUnknown,
    }
}

impl AppStatus {
    /// Display name in the given language.
    pub fn as_str(&self, lang: Language) -> (r: String)
        ensures
            r@ == catalog(lang, status_msg(*self)),
    {
        match self {
            AppStatus::Installed => message(lang, Msg::StatusInstalled),
            AppStatus::UpdateAvailable => message(lang, Msg::StatusUpdate),
            AppStatus::Broken => message(lang, Msg::StatusBroken),
            AppStatus::Unknown => message(lang, Msg::StatusUnknown),
        }
    }
}

// ---------------------------------------------------------------------------
// Applications.
// ---------------------------------------------------------------------------

/// Normalised information about one installed application.
#[derive(Debug)]
pub struct AppInfo {
    /// Unique internal id: `{method}:{package_id}`.
    pub id: String,
    pub name: String,
    pub icon_name: Option<String>,
    pub icon_path: Option<String>,
    pub developer: Option<String>,
    pub version: Option<String>,
    pub method: InstallMethod,
    pub architecture: Option<String>,
    /// Install time as seconds and nanoseconds since the Unix epoch (UTC).
    pub install_date: Option<(i64, u32)>,
    pub size_bytes: Option<u64>,
    pub install_path: Option<String>,
    pub status: AppStatus,
    pub category: Option<String>,
    pub description: Option<String>,
    pub origin: Option<String>,
    /// Version available as an update.
    pub update_available: Option<String>,
    /// Native id of the backend (package name, flatpak ref, path...).
    pub package_id: String,
    pub desktop_id: Option<String>,
}

pub fn clone_opt_string(o: &Option<String>) -> (r: Option<String>)
    ensures
        r == *o,
{
    match o {
        Some(s) => Some(s.clone()),
        None => None,
    }
}

impl Clone for AppInfo {
    fn clone(&self) -> (r: Self)
        ensures
            r == *self,
    {
        AppInfo {
            id: self.id.clone(),
            name: self.name.clone(),
            icon_name: clone_opt_string(&self.icon_name),
            icon_path: clone_opt_string(&self.icon_path),
            developer: clone_opt_string(&self.developer),
            version: clone_opt_string(&self.version),
            method: self.method,
            architecture: clone_opt_string(&self.architecture),
            install_date: self.install_date,
            size_bytes: self.size_bytes,
            install_path: clone_opt_string(&self.install_path),
            status: self.status,
            category: clone_opt_string(&self.category),
            description: clone_opt_string(&self.description),
            origin: clone_opt_string(&self.origin),
            update_available: clone_opt_string(&self.update_available),
            package_id: self.package_id.clone(),
            desktop_id: clone_opt_string(&self.desktop_id),
        }
    }
}

/// The internal id of a package installed by a method.
pub open spec fn app_id(method: InstallMethod, package_id: Seq<char>) -> Seq<char> {
    method_key(method) + seq![':'] + package_id
}

/// A fresh record: only id, name, method and package id are set, and the
/// status is Installed.
pub open spec fn is_new_app(
    a: AppInfo,
    method: InstallMethod,
    package_id: Seq<char>,
    name: Seq<char>,
) -> bool {
    &&& a.id@ == app_id(method, package_id)
    &&& a.name@ == name
    &&& a.package_id@ == package_id
    &&& a.method == method
    &&& a.status == AppStatus::Installed
    &&& a.icon_name is None
    &&& a.icon_path is None
    &&& a.developer is None
    &&& a.version is None
    &&& a.architecture is None
    &&& a.install_date is None
    &&& a.size_bytes is None
    &&& a.install_path is None
    &&& a.category is None
    &&& a.description is None
    &&& a.origin is None
    &&& a.update_available is None
    &&& a.desktop_id is None
}

pub open spec fn opt_matches(o: Option<String>, q: Seq<char>) -> bool {
    match o {
        Some(d) => contains_seq(lowercase(d@), q),
        None => false,
    }
}

/// Whether an application matches a search query: the lowercased query is
/// empty or occurs in the lowercased name, developer, package id,
/// description or method name.
pub open spec fn query_matches(a: AppInfo, lang: Language, query: Seq<char>) -> bool {
    let q = lowercase(query);
    ||| q.len() == 0
    ||| contains_seq(lowercase(a.name@), q)
    ||| opt_matches(a.developer, q)
    ||| contains_seq(lowercase(a.package_id@), q)
    ||| opt_matches(a.description, q)
    ||| contains_seq(lowercase(method_label(a.method, lang)), q)
}

/// What the search covers: a record matches a query exactly when the query
/// lowercases to empty text, or the lowercased query occurs in the
/// lowercased name, developer, package id, description or method label.
pub proof fn lemma_query_fields(a: AppInfo, lang: Language, query: Seq<char>)
    ensures
        query_matches(a, lang, query) <==> ({
            let q = lowercase(query);
            ||| q.len() == 0
            ||| contains_seq(lowercase(a.name@), q)
            ||| (a.developer matches Some(d) && contains_seq(lowercase(d@), q))
            ||| contains_seq(lowercase(a.package_id@), q)
            ||| (a.description matches Some(d) && contains_seq(lowercase(d@), q))
            ||| contains_seq(lowercase(method_label(a.method, lang)), q)
        }),
{
}

fn lower_contains(s: &str, q: &Vec<char>) -> (r: bool)
    ensures
        r == contains_seq(lowercase(s@), q@),
{
    let l = to_lowercase(s);
    contains_chars(&chars_of(l.as_str()), q)
}

fn opt_lower_contains(o: &Option<String>, q: &Vec<char>) -> (r: bool)
    ensures
        r == opt_matches(*o, q@),
{
    match o {
        Some(d) => lower_contains(d.as_str(), q),
        None => false,
    }
}

impl AppInfo {
    /// A record with the given method, package id and name; every optional
    /// field is empty and the status is Installed.
    pub fn new(method: InstallMethod, package_id: &str, name: &str) -> (r: Self)
        ensures
            is_new_app(r, method, package_id@, name@),
    {
        let mut id = copy_string(method.id_key());
        crate::text::push_char(&mut id, ':');
        id.append(package_id);
        assert(id@ =~= app_id(method, package_id@));
        AppInfo {
            id,
            name: copy_string(name),
            icon_name: None,
            icon_path: None,
            developer: None,
            version: None,
            method,
            architecture: None,
            install_date: None,
            size_bytes: None,
            install_path: None,
            status: AppStatus::Installed,
            category: None,
            description: None,
            origin: None,
            update_available: None,
            package_id: copy_string(package_id),
            desktop_id: None,
        }
    }

    /// Whether the application matches a search query (case-insensitive).
    pub fn matches_query(&self, query: &str, lang: Language) -> (r: bool)
        ensures
            r == query_matches(*self, lang, query@),
    {
        let ql = to_lowercase(query);
        let q = chars_of(ql.as_str());
        if q.len() == 0 {
            return true;
        }
        lower_contains(self.name.as_str(), &q) || opt_lower_contains(&self.developer, &q)
            || lower_contains(self.package_id.as_str(), &q) || opt_lower_contains(
            &self.description,
            &q,
        ) || lower_contains(self.method.as_str(lang).as_str(), &q)
    }
}

// ---------------------------------------------------------------------------
// Backend status.
// ---------------------------------------------------------------------------

#[derive(Debug, Clone, Copy, PartialEq, Eq, Structural)]
pub enum BackendAvailability {
    Available,
    Unavailable,
    Detectable,
}

/// What a backend reported when it was detected.
#[derive(Debug)]
pub struct BackendStatus {
    pub method: InstallMethod,
    pub availability: BackendAvailability,
    pub message: String,
    pub version: Option<String>,
}

impl Clone for BackendStatus {
    fn clone(&self) -> (r: Self)
        ensures
            r == *self,
    {
        BackendStatus {
            method: self.method,
            availability: self.availability,
            message: self.message.clone(),
            version: clone_opt_string(&self.version),
        }
    }
}

/// The status message of a method, from a catalog template with `{method}`.
pub open spec fn status_message(lang: Language, m: Msg, method: InstallMethod) -> Seq<char> {
    fill(catalog(lang, m), seq![("method"@, method_label(method, lang))])
}

fn method_message(lang: Language, m: Msg, method: InstallMethod) -> (r: String)
    ensures
        r@ == status_message(lang, m, method),
{
    let label = method.as_str(lang);
    let args = [("method", label.as_str())];
    let r = message_with(lang, m, &args);
    assert(arg_views(args@) =~= seq![("method"@, method_label(method, lang))]);
    r
}

impl BackendStatus {
    /// The backend is installed and usable; `version` is what it reported.
    pub fn available(method: InstallMethod, version: Option<String>, lang: Language) -> (r: Self)
        ensures
            r.method == method,
            r.availability == BackendAvailability::Available,
            r.message@ == status_message(lang, Msg::BackendAvailable, method),
            r.version == version,
    {
        BackendStatus {
            method,
            availability: BackendAvailability::Available,
            message: method_message(lang, Msg::BackendAvailable, method),
            version,
        }
    }

    /// The backend is not installed on this system.
    pub fn unavailable(method: InstallMethod, lang: Language) -> (r: Self)
        ensures
            r.method == method,
            r.availability == BackendAvailability::Unavailable,
            r.message@ == status_message(lang, Msg::BackendUnavailable, method),
            r.version is None,
    {
        BackendStatus {
            method,
            availability: BackendAvailability::Unavailable,
            message: method_message(lang, Msg::BackendUnavailable, method),
            version: None,
        }
    }

    /// The backend needs no tool; its applications are found by scanning.
    pub fn detectable(method: InstallMethod, lang: Language) -> (r: Self)
        ensures
            r.method == method,
            r.availability == BackendAvailability::Detectable,
            r.message@ == status_message(lang, Msg::BackendDetectable, method),
            r.version is None,
    {
        BackendStatus {
            method,
            availability: BackendAvailability::Detectable,
            message: method_message(lang, Msg::BackendDetectable, method),
            version: None,
        }
    }

    /// Whether the backend can be scanned.
    pub fn is_usable(&self) -> (r: bool)
        ensures
            r == (self.availability != BackendAvailability::Unavailable),
    {
        match self.availability {
            BackendAvailability::Available | BackendAvailability::Detectable => true,
            BackendAvailability::Unavailable => false,
        }
    }
}

// ---------------------------------------------------------------------------
// Errors.
// ---------------------------------------------------------------------------

/// Why a backend operation failed.
#[derive(Debug)]
pub enum BackendError {
    Unavailable,
    Unsupported(String),
    NotFound(String),
    PermissionDenied(String),
    InvalidPackageId(String),
    CommandFailed(String),
    /// An input/output error, with its message.
    Io(String),
    Other(String),
}

pub type BackendResult<T> = Result<T, BackendError>;

// ---------------------------------------------------------------------------
// Filters and sort orders.
// ---------------------------------------------------------------------------

/// Which applications the list shows.
#[derive(Debug, Clone, Copy, PartialEq, Eq, Structural)]
pub enum AppFilter {
    Home,
    All,
    Method(InstallMethod),
    Applications,
    Settings,
}

impl Default for AppFilter {
    fn default() -> (r: Self)
        ensures
            r == AppFilter::Home,
    {
        AppFilter::Home
    }
}

pub open spec fn filter_accepts(f: AppFilter, method: InstallMethod) -> bool {
    match f {
        AppFilter::Home | AppFilter::Settings => false,
        AppFilter::All | AppFilter::Applications => true,
        AppFilter::Method(m) => m == method,
    }
}

pub open spec fn filter_title(f: AppFilter, lang: Language) -> Seq<char> {
    match f {
        AppFilter::Home => catalog(lang, Msg::Home),
        AppFilter::All => catalog(lang, Msg::AllApps),
        AppFilter::Method(m) => method_label(m, lang),
        AppFilter::Applications => catalog(lang, Msg::All),
        AppFilter::Settings => catalog(lang, Msg::Settings),
    }
}

impl AppFilter {
    /// Whether the filter shows applications installed by `method`.
    pub fn matches_method(&self, method: InstallMethod) -> (r: bool)
        ensures
            r == filter_accepts(*self, method),
    {
        match self {
            AppFilter::Home | AppFilter::Settings => false,
            AppFilter::All | AppFilter::Applications => true,
            AppFilter::Method(m) => *m == method,
        }
    }

    /// Title of the list in the given language.
    pub fn title(&self, lang: Language) -> (r: String)
        ensures
            r@ == filter_title(*self, lang),
    {
        match self {
            AppFilter::Home => message(lang, Msg::Home),
            AppFilter::All => message(lang, Msg::AllApps),
            AppFilter::Method(m) => m.as_str(lang),
            AppFilter::Applications => message(lang, Msg::All),
            AppFilter::Settings => message(lang, Msg::Settings),
        }
    }
}

/// Sort order of the application list.
#[derive(Debug, Clone, Copy, PartialEq, Eq, Structural)]
pub enum SortBy {
    Name,
    Size,
    InstallDate,
    Method,
    UpdateAvailable,
}

impl Default for SortBy {
    fn default() -> (r: Self)
        ensures
            r == SortBy::Name,
    {
        SortBy::Name
    }
}

pub open spec fn sort_label_msg(s: SortBy) -> Msg {
    match s {
        SortBy::Name => Msg::SortName,
        SortBy::Size => Msg::SortSize,
        SortBy::InstallDate => Msg::SortDate,
        SortBy::Method => Msg::SortMethod,
        SortBy::UpdateAvailable => Msg::SortUpdate,
    }
}

impl SortBy {
    /// Label of the sort order in the given language.
    pub fn label(&self, lang: Language) -> (r: String)
        ensures
            r@ == catalog(lang, sort_label_msg(*self)),
    {
        match self {
            SortBy::Name => message(lang, Msg::SortName),
            SortBy::Size => message(lang, Msg::SortSize),
            SortBy::InstallDate => message(lang, Msg::SortDate),
            SortBy::Method => message(lang, Msg::SortMethod),
            SortBy::UpdateAvailable => message(lang, Msg::SortUpdate),
        }
    }
}

/// An update available for a package (prepared for future versions).
#[derive(Debug)]
pub struct UpdateInfo {
    pub package_id: String,
    pub name: String,
    pub method: InstallMethod,
    pub current_version: String,
    pub available_version: String,
}

} // verus!
