//! The message catalog: every interface text in every supported language.

use vstd::prelude::*;

use crate::i18n::Language;

verus! {

/// The messages of the interface, one per catalog key.
#[derive(Debug, Clone, Copy, PartialEq, Eq, Hash, Structural)]
pub enum Msg {
    Home,
    All,
    AllApps,
    Settings,
    System,
    Manual,
    AppsInstalled,
    AppsCount,
    AppsCountParen,
    SearchingApps,
    SearchingMethod,
    MethodCount,
    ScanDoneToast,
    AppsFound,
    ByMethod,
    SpaceUsed,
    SearchPlaceholder,
    Sort,
    SortName,
    SortSize,
    SortDate,
    SortMethod,
    SortUpdate,
    NoApps,
    NoAppsMethod,
    NoAppsFilter,
    NoAppsSearch,
    Done,
    InProgress,
    Error,
    Unavailable,
    Pending,
    Details,
    Information,
    Installation,
    Version,
    Type,
    TypeApp,
    Architecture,
    Status,
    Category,
    Description,
    Method,
    Origin,
    Location,
    Size,
    Date,
    Package,
    Uninstall,
    UninstallConfirmTitle,
    UninstallConfirmBody,
    Cancel,
    Close,
    Uninstalled,
    Failure,
    Interrupted,
    About,
    AboutDesc,
    Identifier,
    License,
    Language,
    LanguageDesc,
    LanguageUpdated,
    Tagline,
    AboutBody,
    AboutFeatures,
    StatusInstalled,
    StatusUpdate,
    StatusBroken,
    StatusUnknown,
    BackendAvailable,
    BackendUnavailable,
    BackendDetectable,
}

/// The catalog key of a message.
pub open spec fn msg_key(m: Msg) -> Seq<char> {
    match m {
        Msg::Home => "home"@,
        Msg::All => "all"@,
        Msg::AllApps => "all_apps"@,
        Msg::Settings => "settings"@,
        Msg::System => "system"@,
        Msg::Manual => "manual"@,
        Msg::AppsInstalled => "apps_installed"@,
        Msg::AppsCount => "apps_count"@,
        Msg::AppsCountParen => "apps_count_paren"@,
        Msg::SearchingApps => "searching_apps"@,
        Msg::SearchingMethod => "searching_method"@,
        Msg::MethodCount => "method_count"@,
        Msg::ScanDoneToast => "scan_done_toast"@,
        Msg::AppsFound => "apps_found"@,
        Msg::ByMethod => "by_method"@,
        Msg::SpaceUsed => "space_used"@,
        Msg::SearchPlaceholder => "search_placeholder"@,
        Msg::Sort => "sort"@,
        Msg::SortName => "sort_name"@,
        Msg::SortSize => "sort_size"@,
        Msg::SortDate => "sort_date"@,
        Msg::SortMethod => "sort_method"@,
        Msg::SortUpdate => "sort_update"@,
        Msg::NoApps => "no_apps"@,
        Msg::NoAppsMethod => "no_apps_method"@,
        Msg::NoAppsFilter => "no_apps_filter"@,
        Msg::NoAppsSearch => "no_apps_search"@,
        Msg::Done => "done"@,
        Msg::InProgress => "in_progress"@,
        Msg::Error => "error"@,
        Msg::Unavailable => "unavailable"@,
        Msg::Pending => "pending"@,
        Msg::Details => "details"@,
        Msg::Information => "information"@,
        Msg::Installation => "installation"@,
        Msg::Version => "version"@,
        Msg::Type => "type"@,
        Msg::TypeApp => "type_app"@,
        Msg::Architecture => "architecture"@,
        Msg::Status => "status"@,
        Msg::Category => "category"@,
        Msg::Description => "description"@,
        Msg::Method => "method"@,
        Msg::Origin => "origin"@,
        Msg::Location => "location"@,
        Msg::Size => "size"@,
        Msg::Date => "date"@,
        Msg::Package => "package"@,
        Msg::Uninstall => "uninstall"@,
        Msg::UninstallConfirmTitle => "uninstall_confirm_title"@,
        Msg::UninstallConfirmBody => "uninstall_confirm_body"@,
        Msg::Cancel => "cancel"@,
        Msg::Close => "close"@,
        Msg::Uninstalled => "uninstalled"@,
        Msg::Failure => "failure"@,
        Msg::Interrupted => "interrupted"@,
        Msg::About => "about"@,
        Msg::AboutDesc => "about_desc"@,
        Msg::Identifier => "identifier"@,
        Msg::License => "license"@,
        Msg::Language => "language"@,
        Msg::LanguageDesc => "language_desc"@,
        Msg::LanguageUpdated => "language_updated"@,
        Msg::Tagline => "tagline"@,
        Msg::AboutBody => "about_body"@,
        Msg::AboutFeatures => "about_features"@,
        Msg::StatusInstalled => "status_installed"@,
        Msg::StatusUpdate => "status_update"@,
        Msg::StatusBroken => "status_broken"@,
        Msg::StatusUnknown => "status_unknown"@,
        Msg::BackendAvailable => "backend_available"@,
        Msg::BackendUnavailable => "backend_unavailable"@,
        Msg::BackendDetectable => "backend_detectable"@,
    }
}

/// The message whose catalog key is `key`, looked up in catalog order.
pub open spec fn msg_for_key(key: Seq<char>) -> Option<Msg> {
    if key == "home"@ {
        Some(Msg::Home)
    } else if key == "all"@ {
        Some(Msg::All)
    } else if key == "all_apps"@ {
        Some(Msg::AllApps)
    } else if key == "settings"@ {
        Some(Msg::Settings)
    } else if key == "system"@ {
        Some(Msg::System)
    } else if key == "manual"@ {
        Some(Msg::Manual)
    } else if key == "apps_installed"@ {
        Some(Msg::AppsInstalled)
    } else if key == "apps_count"@ {
        Some(Msg::AppsCount)
    } else if key == "apps_count_paren"@ {
        Some(Msg::AppsCountParen)
    } else if key == "searching_apps"@ {
        Some(Msg::SearchingApps)
    } else if key == "searching_method"@ {
        Some(Msg::SearchingMethod)
    } else if key == "method_count"@ {
        Some(Msg::MethodCount)
    } else if key == "scan_done_toast"@ {
        Some(Msg::ScanDoneToast)
    } else if key == "apps_found"@ {
        Some(Msg::AppsFound)
    } else if key == "by_method"@ {
        Some(Msg::ByMethod)
    } else if key == "space_used"@ {
        Some(Msg::SpaceUsed)
    } else if key == "search_placeholder"@ {
        Some(Msg::SearchPlaceholder)
    } else if key == "sort"@ {
        Some(Msg::Sort)
    } else if key == "sort_name"@ {
        Some(Msg::SortName)
    } else if key == "sort_size"@ {
        Some(Msg::SortSize)
    } else if key == "sort_date"@ {
        Some(Msg::SortDate)
    } else if key == "sort_method"@ {
        Some(Msg::SortMethod)
    } else if key == "sort_update"@ {
        Some(Msg::SortUpdate)
    } else if key == "no_apps"@ {
        Some(Msg::NoApps)
    } else if key == "no_apps_method"@ {
        Some(Msg::NoAppsMethod)
    } else if key == "no_apps_filter"@ {
        Some(Msg::NoAppsFilter)
    } else if key == "no_apps_search"@ {
        Some(Msg::NoAppsSearch)
    } else if key == "done"@ {
        Some(Msg::Done)
    } else if key == "in_progress"@ {
        Some(Msg::InProgress)
    } else if key == "error"@ {
        Some(Msg::Error)
    } else if key == "unavailable"@ {
        Some(Msg::Unavailable)
    } else if key == "pending"@ {
        Some(Msg::Pending)
    } else if key == "details"@ {
        Some(Msg::Details)
    } else if key == "information"@ {
        Some(Msg::Information)
    } else if key == "installation"@ {
        Some(Msg::Installation)
    } else if key == "version"@ {
        Some(Msg::Version)
    } else if key == "type"@ {
        Some(Msg::Type)
    } else if key == "type_app"@ {
        Some(Msg::TypeApp)
    } else if key == "architecture"@ {
        Some(Msg::Architecture)
    } else if key == "status"@ {
        Some(Msg::Status)
    } else if key == "category"@ {
        Some(Msg::Category)
    } else if key == "description"@ {
        Some(Msg::Description)
    } else if key == "method"@ {
        Some(Msg::Method)
    } else if key == "origin"@ {
        Some(Msg::Origin)
    } else if key == "location"@ {
        Some(Msg::Location)
    } else if key == "size"@ {
        Some(Msg::Size)
    } else if key == "date"@ {
        Some(Msg::Date)
    } else if key == "package"@ {
        Some(Msg::Package)
    } else if key == "uninstall"@ {
        Some(Msg::Uninstall)
    } else if key == "uninstall_confirm_title"@ {
        Some(Msg::UninstallConfirmTitle)
    } else if key == "uninstall_confirm_body"@ {
        Some(Msg::UninstallConfirmBody)
    } else if key == "cancel"@ {
        Some(Msg::Cancel)
    } else if key == "close"@ {
        Some(Msg::Close)
    } else if key == "uninstalled"@ {
        Some(Msg::Uninstalled)
    } else if key == "failure"@ {
        Some(Msg::Failure)
    } else if key == "interrupted"@ {
        Some(Msg::Interrupted)
    } else if key == "about"@ {
        Some(Msg::About)
    } else if key == "about_desc"@ {
        Some(Msg::AboutDesc)
    } else if key == "identifier"@ {
        Some(Msg::Identifier)
    } else if key == "license"@ {
        Some(Msg::License)
    } else if key == "language"@ {
        Some(Msg::Language)
    } else if key == "language_desc"@ {
        Some(Msg::LanguageDesc)
    } else if key == "language_updated"@ {
        Some(Msg::LanguageUpdated)
    } else if key == "tagline"@ {
        Some(Msg::Tagline)
    } else if key == "about_body"@ {
        Some(Msg::AboutBody)
    } else if key == "about_features"@ {
        Some(Msg::AboutFeatures)
    } else if key == "status_installed"@ {
        Some(Msg::StatusInstalled)
    } else if key == "status_update"@ {
        Some(Msg::StatusUpdate)
    } else if key == "status_broken"@ {
        Some(Msg::StatusBroken)
    } else if key == "status_unknown"@ {
        Some(Msg::StatusUnknown)
    } else if key == "backend_available"@ {
        Some(Msg::BackendAvailable)
    } else if key == "backend_unavailable"@ {
        Some(Msg::BackendUnavailable)
    } else if key == "backend_detectable"@ {
        Some(Msg::BackendDetectable)
    } else {
        None
    }
}

impl Msg {
    /// The catalog key of the message.
    pub fn key(self) -> (r: &'static str)
        ensures
            r@ == msg_key(self),
    {
        match self {
            Msg::Home => "home",
            Msg::All => "all",
            Msg::AllApps => "all_apps",
            Msg::Settings => "settings",
            Msg::System => "system",
            Msg::Manual => "manual",
            Msg::AppsInstalled => "apps_installed",
            Msg::AppsCount => "apps_count",
            Msg::AppsCountParen => "apps_count_paren",
            Msg::SearchingApps => "searching_apps",
            Msg::SearchingMethod => "searching_method",
            Msg::MethodCount => "method_count",
            Msg::ScanDoneToast => "scan_done_toast",
            Msg::AppsFound => "apps_found",
            Msg::ByMethod => "by_method",
            Msg::SpaceUsed => "space_used",
            Msg::SearchPlaceholder => "search_placeholder",
            Msg::Sort => "sort",
            Msg::SortName => "sort_name",
            Msg::SortSize => "sort_size",
            Msg::SortDate => "sort_date",
            Msg::SortMethod => "sort_method",
            Msg::SortUpdate => "sort_update",
            Msg::NoApps => "no_apps",
            Msg::NoAppsMethod => "no_apps_method",
            Msg::NoAppsFilter => "no_apps_filter",
            Msg::NoAppsSearch => "no_apps_search",
            Msg::Done => "done",
            Msg::InProgress => "in_progress",
            Msg::Error => "error",
            Msg::Unavailable => "unavailable",
            Msg::Pending => "pending",
            Msg::Details => "details",
            Msg::Information => "information",
            Msg::Installation => "installation",
            Msg::Version => "version",
            Msg::Type => "type",
            Msg::TypeApp => "type_app",
            Msg::Architecture => "architecture",
            Msg::Status => "status",
            Msg::Category => "category",
            Msg::Description => "description",
            Msg::Method => "method",
            Msg::Origin => "origin",
            Msg::Location => "location",
            Msg::Size => "size",
            Msg::Date => "date",
            Msg::Package => "package",
            Msg::Uninstall => "uninstall",
            Msg::UninstallConfirmTitle => "uninstall_confirm_title",
            Msg::UninstallConfirmBody => "uninstall_confirm_body",
            Msg::Cancel => "cancel",
            Msg::Close => "close",
            Msg::Uninstalled => "uninstalled",
            Msg::Failure => "failure",
            Msg::Interrupted => "interrupted",
            Msg::About => "about",
            Msg::AboutDesc => "about_desc",
            Msg::Identifier => "identifier",
            Msg::License => "license",
            Msg::Language => "language",
            Msg::LanguageDesc => "language_desc",
            Msg::LanguageUpdated => "language_updated",
            Msg::Tagline => "tagline",
            Msg::AboutBody => "about_body",
            Msg::AboutFeatures => "about_features",
            Msg::StatusInstalled => "status_installed",
            Msg::StatusUpdate => "status_update",
            Msg::StatusBroken => "status_broken",
            Msg::StatusUnknown => "status_unknown",
            Msg::BackendAvailable => "backend_available",
            Msg::BackendUnavailable => "backend_unavailable",
            Msg::BackendDetectable => "backend_detectable",
        }
    }

    /// The message whose catalog key is `key`.
    pub fn from_key(key: &str) -> (r: Option<Msg>)
        ensures
            r == msg_for_key(key@),
    {
        let k = crate::text::chars_of(key);
        if crate::text::chars_eq(&k, &crate::text::chars_of("home")) {
            return Some(Msg::Home);
        }
        if crate::text::chars_eq(&k, &crate::text::chars_of("all")) {
            return Some(Msg::All);
        }
        if crate::text::chars_eq(&k, &crate::text::chars_of("all_apps")) {
            return Some(Msg::AllApps);
        }
        if crate::text::chars_eq(&k, &crate::text::chars_of("settings")) {
            return Some(Msg::Settings);
        }
        if crate::text::chars_eq(&k, &crate::text::chars_of("system")) {
            return Some(Msg::System);
        }
        if crate::text::chars_eq(&k, &crate::text::chars_of("manual")) {
            return Some(Msg::Manual);
        }
        if crate::text::chars_eq(&k, &crate::text::chars_of("apps_installed")) {
            return Some(Msg::AppsInstalled);
        }
        if crate::text::chars_eq(&k, &crate::text::chars_of("apps_count")) {
            return Some(Msg::AppsCount);
        }
        if crate::text::chars_eq(&k, &crate::text::chars_of("apps_count_paren")) {
            return Some(Msg::AppsCountParen);
        }
        if crate::text::chars_eq(&k, &crate::text::chars_of("searching_apps")) {
            return Some(Msg::SearchingApps);
        }
        if crate::text::chars_eq(&k, &crate::text::chars_of("searching_method")) {
            return Some(Msg::SearchingMethod);
        }
        if crate::text::chars_eq(&k, &crate::text::chars_of("method_count")) {
            return Some(Msg::MethodCount);
        }
        if crate::text::chars_eq(&k, &crate::text::chars_of("scan_done_toast")) {
            return Some(Msg::ScanDoneToast);
        }
        if crate::text::chars_eq(&k, &crate::text::chars_of("apps_found")) {
            return Some(Msg::AppsFound);
        }
        if crate::text::chars_eq(&k, &crate::text::chars_of("by_method")) {
            return Some(Msg::ByMethod);
        }
        if crate::text::chars_eq(&k, &crate::text::chars_of("space_used")) {
            return Some(Msg::SpaceUsed);
        }
        if crate::text::chars_eq(&k, &crate::text::chars_of("search_placeholder")) {
            return Some(Msg::SearchPlaceholder);
        }
        if crate::text::chars_eq(&k, &crate::text::chars_of("sort")) {
            return Some(Msg::Sort);
        }
        if crate::text::chars_eq(&k, &crate::text::chars_of("sort_name")) {
            return Some(Msg::SortName);
        }
        if crate::text::chars_eq(&k, &crate::text::chars_of("sort_size")) {
            return Some(Msg::SortSize);
        }
        if crate::text::chars_eq(&k, &crate::text::chars_of("sort_date")) {
            return Some(Msg::SortDate);
        }
        if crate::text::chars_eq(&k, &crate::text::chars_of("sort_method")) {
            return Some(Msg::SortMethod);
        }
        if crate::text::chars_eq(&k, &crate::text::chars_of("sort_update")) {
            return Some(Msg::SortUpdate);
        }
        if crate::text::chars_eq(&k, &crate::text::chars_of("no_apps")) {
            return Some(Msg::NoApps);
        }
        if crate::text::chars_eq(&k, &crate::text::chars_of("no_apps_method")) {
            return Some(Msg::NoAppsMethod);
        }
        if crate::text::chars_eq(&k, &crate::text::chars_of("no_apps_filter")) {
            return Some(Msg::NoAppsFilter);
        }
        if crate::text::chars_eq(&k, &crate::text::chars_of("no_apps_search")) {
            return Some(Msg::NoAppsSearch);
        }
        if crate::text::chars_eq(&k, &crate::text::chars_of("done")) {
            return Some(Msg::Done);
        }
        if crate::text::chars_eq(&k, &crate::text::chars_of("in_progress")) {
            return Some(Msg::InProgress);
        }
        if crate::text::chars_eq(&k, &crate::text::chars_of("error")) {
            return Some(Msg::Error);
        }
        if crate::text::chars_eq(&k, &crate::text::chars_of("unavailable")) {
            return Some(Msg::Unavailable);
        }
        if crate::text::chars_eq(&k, &crate::text::chars_of("pending")) {
            return Some(Msg::Pending);
        }
        if crate::text::chars_eq(&k, &crate::text::chars_of("details")) {
            return Some(Msg::Details);
        }
        if crate::text::chars_eq(&k, &crate::text::chars_of("information")) {
            return Some(Msg::Information);
        }
        if crate::text::chars_eq(&k, &crate::text::chars_of("installation")) {
            return Some(Msg::Installation);
        }
        if crate::text::chars_eq(&k, &crate::text::chars_of("version")) {
            return Some(Msg::Version);
        }
        if crate::text::chars_eq(&k, &crate::text::chars_of("type")) {
            return Some(Msg::Type);
        }
        if crate::text::chars_eq(&k, &crate::text::chars_of("type_app")) {
            return Some(Msg::TypeApp);
        }
        if crate::text::chars_eq(&k, &crate::text::chars_of("architecture")) {
            return Some(Msg::Architecture);
        }
        if crate::text::chars_eq(&k, &crate::text::chars_of("status")) {
            return Some(Msg::Status);
        }
        if crate::text::chars_eq(&k, &crate::text::chars_of("category")) {
            return Some(Msg::Category);
        }
        if crate::text::chars_eq(&k, &crate::text::chars_of("description")) {
            return Some(Msg::Description);
        }
        if crate::text::chars_eq(&k, &crate::text::chars_of("method")) {
            return Some(Msg::Method);
        }
        if crate::text::chars_eq(&k, &crate::text::chars_of("origin")) {
            return Some(Msg::Origin);
        }
        if crate::text::chars_eq(&k, &crate::text::chars_of("location")) {
            return Some(Msg::Location);
        }
        if crate::text::chars_eq(&k, &crate::text::chars_of("size")) {
            return Some(Msg::Size);
        }
        if crate::text::chars_eq(&k, &crate::text::chars_of("date")) {
            return Some(Msg::Date);
        }
        if crate::text::chars_eq(&k, &crate::text::chars_of("package")) {
            return Some(Msg::Package);
        }
        if crate::text::chars_eq(&k, &crate::text::chars_of("uninstall")) {
            return Some(Msg::Uninstall);
        }
        if crate::text::chars_eq(&k, &crate::text::chars_of("uninstall_confirm_title")) {
            return Some(Msg::UninstallConfirmTitle);
        }
        if crate::text::chars_eq(&k, &crate::text::chars_of("uninstall_confirm_body")) {
            return Some(Msg::UninstallConfirmBody);
        }
        if crate::text::chars_eq(&k, &crate::text::chars_of("cancel")) {
            return Some(Msg::Cancel);
        }
        if crate::text::chars_eq(&k, &crate::text::chars_of("close")) {
            return Some(Msg::Close);
        }
        if crate::text::chars_eq(&k, &crate::text::chars_of("uninstalled")) {
            return Some(Msg::Uninstalled);
        }
        if crate::text::chars_eq(&k, &crate::text::chars_of("failure")) {
            return Some(Msg::Failure);
        }
        if crate::text::chars_eq(&k, &crate::text::chars_of("interrupted")) {
            return Some(Msg::Interrupted);
        }
        if crate::text::chars_eq(&k, &crate::text::chars_of("about")) {
            return Some(Msg::About);
        }
        if crate::text::chars_eq(&k, &crate::text::chars_of("about_desc")) {
            return Some(Msg::AboutDesc);
        }
        if crate::text::chars_eq(&k, &crate::text::chars_of("identifier")) {
            return Some(Msg::Identifier);
        }
        if crate::text::chars_eq(&k, &crate::text::chars_of("license")) {
            return Some(Msg::License);
        }
        if crate::text::chars_eq(&k, &crate::text::chars_of("language")) {
            return Some(Msg::Language);
        }
        if crate::text::chars_eq(&k, &crate::text::chars_of("language_desc")) {
            return Some(Msg::LanguageDesc);
        }
        if crate::text::chars_eq(&k, &crate::text::chars_of("language_updated")) {
            return Some(Msg::LanguageUpdated);
        }
        if crate::text::chars_eq(&k, &crate::text::chars_of("tagline")) {
            return Some(Msg::Tagline);
        }
        if crate::text::chars_eq(&k, &crate::text::chars_of("about_body")) {
            return Some(Msg::AboutBody);
        }
        if crate::text::chars_eq(&k, &crate::text::chars_of("about_features")) {
            return Some(Msg::AboutFeatures);
        }
        if crate::text::chars_eq(&k, &crate::text::chars_of("status_installed")) {
            return Some(Msg::StatusInstalled);
        }
        if crate::text::chars_eq(&k, &crate::text::chars_of("status_update")) {
            return Some(Msg::StatusUpdate);
        }
        if crate::text::chars_eq(&k, &crate::text::chars_of("status_broken")) {
            return Some(Msg::StatusBroken);
        }
        if crate::text::chars_eq(&k, &crate::text::chars_of("status_unknown")) {
            return Some(Msg::StatusUnknown);
        }
        if crate::text::chars_eq(&k, &crate::text::chars_of("backend_available")) {
            return Some(Msg::BackendAvailable);
        }
        if crate::text::chars_eq(&k, &crate::text::chars_of("backend_unavailable")) {
            return Some(Msg::BackendUnavailable);
        }
        if crate::text::chars_eq(&k, &crate::text::chars_of("backend_detectable")) {
            return Some(Msg::BackendDetectable);
        }
        None
    }
}

/// The English text of each message.
pub open spec fn text_en(m: Msg) -> Seq<char> {
    match m {
        Msg::Home => "Home"@,
        Msg::All => "All"@,
        Msg::AllApps => "All apps"@,
        Msg::Settings => "Settings"@,
        Msg::System => "System"@,
        Msg::Manual => "Manual"@,
        Msg::AppsInstalled => "Installed apps"@,
        Msg::AppsCount => "{n} apps"@,
        Msg::AppsCountParen => "{n} app(s)"@,
        Msg::SearchingApps => "Searching for apps..."@,
        Msg::SearchingMethod => "Searching: {method}..."@,
        Msg::MethodCount => "{method}: {n} app(s)"@,
        Msg::ScanDoneToast => "Scan complete: {n} apps"@,
        Msg::AppsFound => "{n} apps found"@,
        Msg::ByMethod => "By installation method"@,
        Msg::SpaceUsed => "Space used by apps"@,
        Msg::SearchPlaceholder => "Search apps..."@,
        Msg::Sort => "Sort:"@,
        Msg::SortName => "Name"@,
        Msg::SortSize => "Size"@,
        Msg::SortDate => "Install date"@,
        Msg::SortMethod => "Method"@,
        Msg::SortUpdate => "Update available"@,
        Msg::NoApps => "No apps"@,
        Msg::NoAppsMethod => "No {method} apps"@,
        Msg::NoAppsFilter => "No apps for this installation method."@,
        Msg::NoAppsSearch => "No results for the current search."@,
        Msg::Done => "Done"@,
        Msg::InProgress => "In progress..."@,
        Msg::Error => "Error"@,
        Msg::Unavailable => "Not available"@,
        Msg::Pending => "Waiting"@,
        Msg::Details => "Details"@,
        Msg::Information => "Information"@,
        Msg::Installation => "Installation"@,
        Msg::Version => "Version"@,
        Msg::Type => "Type"@,
        Msg::TypeApp => "Application"@,
        Msg::Architecture => "Architecture"@,
        Msg::Status => "Status"@,
        Msg::Category => "Category"@,
        Msg::Description => "Description"@,
        Msg::Method => "Method"@,
        Msg::Origin => "Origin"@,
        Msg::Location => "Location"@,
        Msg::Size => "Size"@,
        Msg::Date => "Date"@,
        Msg::Package => "Package"@,
        Msg::Uninstall => "Uninstall"@,
        Msg::UninstallConfirmTitle => "Uninstall {name}?"@,
        Msg::UninstallConfirmBody => "Uninstall {name}?\n\nThis app was installed via {method}.\n\n{details}"@,
        Msg::Cancel => "Cancel"@,
        Msg::Close => "Close"@,
        Msg::Uninstalled => "{name} uninstalled"@,
        Msg::Failure => "Failed: {error}"@,
        Msg::Interrupted => "Operation interrupted"@,
        Msg::About => "About"@,
        Msg::AboutDesc => "FindApps information"@,
        Msg::Identifier => "Identifier"@,
        Msg::License => "License"@,
        Msg::Language => "Language"@,
        Msg::LanguageDesc => "Interface language"@,
        Msg::LanguageUpdated => "Language updated"@,
        Msg::Tagline => "Universal Linux application manager"@,
        Msg::AboutBody => "FindApps detects and organizes programs installed on your system, \
regardless of how they were installed — APT, DNF, Flatpak, Snap, AppImage, \
or manual installation.\n\n\
With a simple interface, you can search, filter, view details, and \
uninstall apps safely — without using the terminal.\n\n\
Installing and updating packages is planned for future versions."@,
        Msg::AboutFeatures => "Backends · Search · Filters · Details · Safe uninstall"@,
        Msg::StatusInstalled => "Installed"@,
        Msg::StatusUpdate => "Update available"@,
        Msg::StatusBroken => "Broken"@,
        Msg::StatusUnknown => "Unknown"@,
        Msg::BackendAvailable => "{method} available"@,
        Msg::BackendUnavailable => "{method} not available"@,
        Msg::BackendDetectable => "{method} detectable"@,
    }
}

fn text_en_of(m: Msg) -> (r: &'static str)
    ensures
        r@ == text_en(m),
{
    match m {
        Msg::Home => "Home",
        Msg::All => "All",
        Msg::AllApps => "All apps",
        Msg::Settings => "Settings",
        Msg::System => "System",
        Msg::Manual => "Manual",
        Msg::AppsInstalled => "Installed apps",
        Msg::AppsCount => "{n} apps",
        Msg::AppsCountParen => "{n} app(s)",
        Msg::SearchingApps => "Searching for apps...",
        Msg::SearchingMethod => "Searching: {method}...",
        Msg::MethodCount => "{method}: {n} app(s)",
        Msg::ScanDoneToast => "Scan complete: {n} apps",
        Msg::AppsFound => "{n} apps found",
        Msg::ByMethod => "By installation method",
        Msg::SpaceUsed => "Space used by apps",
        Msg::SearchPlaceholder => "Search apps...",
        Msg::Sort => "Sort:",
        Msg::SortName => "Name",
        Msg::SortSize => "Size",
        Msg::SortDate => "Install date",
        Msg::SortMethod => "Method",
        Msg::SortUpdate => "Update available",
        Msg::NoApps => "No apps",
        Msg::NoAppsMethod => "No {method} apps",
        Msg::NoAppsFilter => "No apps for this installation method.",
        Msg::NoAppsSearch => "No results for the current search.",
        Msg::Done => "Done",
        Msg::InProgress => "In progress...",
        Msg::Error => "Error",
        Msg::Unavailable => "Not available",
        Msg::Pending => "Waiting",
        Msg::Details => "Details",
        Msg::Information => "Information",
        Msg::Installation => "Installation",
        Msg::Version => "Version",
        Msg::Type => "Type",
        Msg::TypeApp => "Application",
        Msg::Architecture => "Architecture",
        Msg::Status => "Status",
        Msg::Category => "Category",
        Msg::Description => "Description",
        Msg::Method => "Method",
        Msg::Origin => "Origin",
        Msg::Location => "Location",
        Msg::Size => "Size",
        Msg::Date => "Date",
        Msg::Package => "Package",
        Msg::Uninstall => "Uninstall",
        Msg::UninstallConfirmTitle => "Uninstall {name}?",
        Msg::UninstallConfirmBody => "Uninstall {name}?\n\nThis app was installed via {method}.\n\n{details}",
        Msg::Cancel => "Cancel",
        Msg::Close => "Close",
        Msg::Uninstalled => "{name} uninstalled",
        Msg::Failure => "Failed: {error}",
        Msg::Interrupted => "Operation interrupted",
        Msg::About => "About",
        Msg::AboutDesc => "FindApps information",
        Msg::Identifier => "Identifier",
        Msg::License => "License",
        Msg::Language => "Language",
        Msg::LanguageDesc => "Interface language",
        Msg::LanguageUpdated => "Language updated",
        Msg::Tagline => "Universal Linux application manager",
        Msg::AboutBody => "FindApps detects and organizes programs installed on your system, \
regardless of how they were installed — APT, DNF, Flatpak, Snap, AppImage, \
or manual installation.\n\n\
With a simple interface, you can search, filter, view details, and \
uninstall apps safely — without using the terminal.\n\n\
Installing and updating packages is planned for future versions.",
        Msg::AboutFeatures => "Backends · Search · Filters · Details · Safe uninstall",
        Msg::StatusInstalled => "Installed",
        Msg::StatusUpdate => "Update available",
        Msg::StatusBroken => "Broken",
        Msg::StatusUnknown => "Unknown",
        Msg::BackendAvailable => "{method} available",
        Msg::BackendUnavailable => "{method} not available",
        Msg::BackendDetectable => "{method} detectable",
    }
}

/// The Chinese text of each message.
pub open spec fn text_zh(m: Msg) -> Seq<char> {
    match m {
        Msg::Home => "主页"@,
        Msg::All => "全部"@,
        Msg::AllApps => "全部应用"@,
        Msg::Settings => "设置"@,
        Msg::System => "系统"@,
        Msg::Manual => "手动"@,
        Msg::AppsInstalled => "已安装的应用"@,
        Msg::AppsCount => "{n} 个应用"@,
        Msg::AppsCountParen => "{n} 个应用"@,
        Msg::SearchingApps => "正在查找应用..."@,
        Msg::SearchingMethod => "正在查找：{method}..."@,
        Msg::MethodCount => "{method}：{n} 个应用"@,
        Msg::ScanDoneToast => "扫描完成：{n} 个应用"@,
        Msg::AppsFound => "找到 {n} 个应用"@,
        Msg::ByMethod => "按安装方式"@,
        Msg::SpaceUsed => "应用占用空间"@,
        Msg::SearchPlaceholder => "搜索应用..."@,
        Msg::Sort => "排序："@,
        Msg::SortName => "名称"@,
        Msg::SortSize => "大小"@,
        Msg::SortDate => "安装日期"@,
        Msg::SortMethod => "方式"@,
        Msg::SortUpdate => "有可用更新"@,
        Msg::NoApps => "没有应用"@,
        Msg::NoAppsMethod => "没有 {method} 应用"@,
        Msg::NoAppsFilter => "此安装方式下没有应用。"@,
        Msg::NoAppsSearch => "当前搜索没有结果。"@,
        Msg::Done => "完成"@,
        Msg::InProgress => "进行中..."@,
        Msg::Error => "错误"@,
        Msg::Unavailable => "不可用"@,
        Msg::Pending => "等待中"@,
        Msg::Details => "详情"@,
        Msg::Information => "信息"@,
        Msg::Installation => "安装"@,
        Msg::Version => "版本"@,
        Msg::Type => "类型"@,
        Msg::TypeApp => "应用程序"@,
        Msg::Architecture => "架构"@,
        Msg::Status => "状态"@,
        Msg::Category => "类别"@,
        Msg::Description => "描述"@,
        Msg::Method => "方式"@,
        Msg::Origin => "来源"@,
        Msg::Location => "位置"@,
        Msg::Size => "大小"@,
        Msg::Date => "日期"@,
        Msg::Package => "软件包"@,
        Msg::Uninstall => "卸载"@,
        Msg::UninstallConfirmTitle => "卸载 {name}？"@,
        Msg::UninstallConfirmBody => "卸载 {name}？\n\n此应用通过 {method} 安装。\n\n{details}"@,
        Msg::Cancel => "取消"@,
        Msg::Close => "关闭"@,
        Msg::Uninstalled => "已卸载 {name}"@,
        Msg::Failure => "失败：{error}"@,
        Msg::Interrupted => "操作已中断"@,
        Msg::About => "关于"@,
        Msg::AboutDesc => "FindApps 信息"@,
        Msg::Identifier => "标识符"@,
        Msg::License => "许可证"@,
        Msg::Language => "语言"@,
        Msg::LanguageDesc => "界面语言"@,
        Msg::LanguageUpdated => "语言已更新"@,
        Msg::Tagline => "通用 Linux 应用管理器"@,
        Msg::AboutBody => "FindApps 可检测并整理系统中已安装的程序，\
无论通过 APT、DNF、Flatpak、Snap、AppImage 还是手动安装。\n\n\
界面简洁，可搜索、筛选、查看详情并安全卸载应用，无需使用终端。\n\n\
安装与更新功能将在后续版本中提供。"@,
        Msg::AboutFeatures => "后端 · 搜索 · 筛选 · 详情 · 安全卸载"@,
        Msg::StatusInstalled => "已安装"@,
        Msg::StatusUpdate => "有可用更新"@,
        Msg::StatusBroken => "已损坏"@,
        Msg::StatusUnknown => "未知"@,
        Msg::BackendAvailable => "{method} 可用"@,
        Msg::BackendUnavailable => "{method} 不可用"@,
        Msg::BackendDetectable => "{method} 可检测"@,
    }
}

fn text_zh_of(m: Msg) -> (r: &'static str)
    ensures
        r@ == text_zh(m),
{
    match m {
        Msg::Home => "主页",
        Msg::All => "全部",
        Msg::AllApps => "全部应用",
        Msg::Settings => "设置",
        Msg::System => "系统",
        Msg::Manual => "手动",
        Msg::AppsInstalled => "已安装的应用",
        Msg::AppsCount => "{n} 个应用",
        Msg::AppsCountParen => "{n} 个应用",
        Msg::SearchingApps => "正在查找应用...",
        Msg::SearchingMethod => "正在查找：{method}...",
        Msg::MethodCount => "{method}：{n} 个应用",
        Msg::ScanDoneToast => "扫描完成：{n} 个应用",
        Msg::AppsFound => "找到 {n} 个应用",
        Msg::ByMethod => "按安装方式",
        Msg::SpaceUsed => "应用占用空间",
        Msg::SearchPlaceholder => "搜索应用...",
        Msg::Sort => "排序：",
        Msg::SortName => "名称",
        Msg::SortSize => "大小",
        Msg::SortDate => "安装日期",
        Msg::SortMethod => "方式",
        Msg::SortUpdate => "有可用更新",
        Msg::NoApps => "没有应用",
        Msg::NoAppsMethod => "没有 {method} 应用",
        Msg::NoAppsFilter => "此安装方式下没有应用。",
        Msg::NoAppsSearch => "当前搜索没有结果。",
        Msg::Done => "完成",
        Msg::InProgress => "进行中...",
        Msg::Error => "错误",
        Msg::Unavailable => "不可用",
        Msg::Pending => "等待中",
        Msg::Details => "详情",
        Msg::Information => "信息",
        Msg::Installation => "安装",
        Msg::Version => "版本",
        Msg::Type => "类型",
        Msg::TypeApp => "应用程序",
        Msg::Architecture => "架构",
        Msg::Status => "状态",
        Msg::Category => "类别",
        Msg::Description => "描述",
        Msg::Method => "方式",
        Msg::Origin => "来源",
        Msg::Location => "位置",
        Msg::Size => "大小",
        Msg::Date => "日期",
        Msg::Package => "软件包",
        Msg::Uninstall => "卸载",
        Msg::UninstallConfirmTitle => "卸载 {name}？",
        Msg::UninstallConfirmBody => "卸载 {name}？\n\n此应用通过 {method} 安装。\n\n{details}",
        Msg::Cancel => "取消",
        Msg::Close => "关闭",
        Msg::Uninstalled => "已卸载 {name}",
        Msg::Failure => "失败：{error}",
        Msg::Interrupted => "操作已中断",
        Msg::About => "关于",
        Msg::AboutDesc => "FindApps 信息",
        Msg::Identifier => "标识符",
        Msg::License => "许可证",
        Msg::Language => "语言",
        Msg::LanguageDesc => "界面语言",
        Msg::LanguageUpdated => "语言已更新",
        Msg::Tagline => "通用 Linux 应用管理器",
        Msg::AboutBody => "FindApps 可检测并整理系统中已安装的程序，\
无论通过 APT、DNF、Flatpak、Snap、AppImage 还是手动安装。\n\n\
界面简洁，可搜索、筛选、查看详情并安全卸载应用，无需使用终端。\n\n\
安装与更新功能将在后续版本中提供。",
        Msg::AboutFeatures => "后端 · 搜索 · 筛选 · 详情 · 安全卸载",
        Msg::StatusInstalled => "已安装",
        Msg::StatusUpdate => "有可用更新",
        Msg::StatusBroken => "已损坏",
        Msg::StatusUnknown => "未知",
        Msg::BackendAvailable => "{method} 可用",
        Msg::BackendUnavailable => "{method} 不可用",
        Msg::BackendDetectable => "{method} 可检测",
    }
}

/// The Spanish text of each message.
pub open spec fn text_es(m: Msg) -> Seq<char> {
    match m {
        Msg::Home => "Inicio"@,
        Msg::All => "Todos"@,
        Msg::AllApps => "Todas las apps"@,
        Msg::Settings => "Configuración"@,
        Msg::System => "Sistema"@,
        Msg::Manual => "Manual"@,
        Msg::AppsInstalled => "Aplicaciones instaladas"@,
        Msg::AppsCount => "{n} aplicaciones"@,
        Msg::AppsCountParen => "{n} aplicación(es)"@,
        Msg::SearchingApps => "Buscando aplicaciones..."@,
        Msg::SearchingMethod => "Buscando: {method}..."@,
        Msg::MethodCount => "{method}: {n} aplicación(es)"@,
        Msg::ScanDoneToast => "Escaneo completado: {n} apps"@,
        Msg::AppsFound => "{n} aplicaciones encontradas"@,
        Msg::ByMethod => "Por método de instalación"@,
        Msg::SpaceUsed => "Espacio usado por apps"@,
        Msg::SearchPlaceholder => "Buscar aplicaciones..."@,
        Msg::Sort => "Ordenar:"@,
        Msg::SortName => "Nombre"@,
        Msg::SortSize => "Tamaño"@,
        Msg::SortDate => "Fecha de instalación"@,
        Msg::SortMethod => "Método"@,
        Msg::SortUpdate => "Actualización disponible"@,
        Msg::NoApps => "Sin aplicaciones"@,
        Msg::NoAppsMethod => "Sin apps {method}"@,
        Msg::NoAppsFilter => "No hay apps con este método de instalación."@,
        Msg::NoAppsSearch => "Sin resultados para la búsqueda actual."@,
        Msg::Done => "Listo"@,
        Msg::InProgress => "En curso..."@,
        Msg::Error => "Error"@,
        Msg::Unavailable => "No disponible"@,
        Msg::Pending => "Esperando"@,
        Msg::Details => "Detalles"@,
        Msg::Information => "Información"@,
        Msg::Installation => "Instalación"@,
        Msg::Version => "Versión"@,
        Msg::Type => "Tipo"@,
        Msg::TypeApp => "Aplicación"@,
        Msg::Architecture => "Arquitectura"@,
        Msg::Status => "Estado"@,
        Msg::Category => "Categoría"@,
        Msg::Description => "Descripción"@,
        Msg::Method => "Método"@,
        Msg::Origin => "Origen"@,
        Msg::Location => "Ubicación"@,
        Msg::Size => "Tamaño"@,
        Msg::Date => "Fecha"@,
        Msg::Package => "Paquete"@,
        Msg::Uninstall => "Desinstalar"@,
        Msg::UninstallConfirmTitle => "¿Desinstalar {name}?"@,
        Msg::UninstallConfirmBody => "¿Desinstalar {name}?\n\nEsta app se instaló vía {method}.\n\n{details}"@,
        Msg::Cancel => "Cancelar"@,
        Msg::Close => "Cerrar"@,
        Msg::Uninstalled => "{name} desinstalada"@,
        Msg::Failure => "Error: {error}"@,
        Msg::Interrupted => "Operación interrumpida"@,
        Msg::About => "Acerca de"@,
        Msg::AboutDesc => "Información de FindApps"@,
        Msg::Identifier => "Identificador"@,
        Msg::License => "Licencia"@,
        Msg::Language => "Idioma"@,
        Msg::LanguageDesc => "Idioma de la interfaz"@,
        Msg::LanguageUpdated => "Idioma actualizado"@,
        Msg::Tagline => "Gestor universal de aplicaciones Linux"@,
        Msg::AboutBody => "FindApps detecta y organiza los programas instalados en tu sistema, \
sin importar el método — APT, DNF, Flatpak, Snap, AppImage o instalación manual.\n\n\
Con una interfaz simple puedes buscar, filtrar, ver detalles y \
desinstalar de forma segura, sin usar la terminal.\n\n\
La instalación y actualización de paquetes están previstas para versiones futuras."@,
        Msg::AboutFeatures => "Backends · Búsqueda · Filtros · Detalles · Desinstalación segura"@,
        Msg::StatusInstalled => "Instalada"@,
        Msg::StatusUpdate => "Actualización disponible"@,
        Msg::StatusBroken => "Rota"@,
        Msg::StatusUnknown => "Desconocido"@,
        Msg::BackendAvailable => "{method} disponible"@,
        Msg::BackendUnavailable => "{method} no disponible"@,
        Msg::BackendDetectable => "{method} detectable"@,
    }
}

fn text_es_of(m: Msg) -> (r: &'static str)
    ensures
        r@ == text_es(m),
{
    match m {
        Msg::Home => "Inicio",
        Msg::All => "Todos",
        Msg::AllApps => "Todas las apps",
        Msg::Settings => "Configuración",
        Msg::System => "Sistema",
        Msg::Manual => "Manual",
        Msg::AppsInstalled => "Aplicaciones instaladas",
        Msg::AppsCount => "{n} aplicaciones",
        Msg::AppsCountParen => "{n} aplicación(es)",
        Msg::SearchingApps => "Buscando aplicaciones...",
        Msg::SearchingMethod => "Buscando: {method}...",
        Msg::MethodCount => "{method}: {n} aplicación(es)",
        Msg::ScanDoneToast => "Escaneo completado: {n} apps",
        Msg::AppsFound => "{n} aplicaciones encontradas",
        Msg::ByMethod => "Por método de instalación",
        Msg::SpaceUsed => "Espacio usado por apps",
        Msg::SearchPlaceholder => "Buscar aplicaciones...",
        Msg::Sort => "Ordenar:",
        Msg::SortName => "Nombre",
        Msg::SortSize => "Tamaño",
        Msg::SortDate => "Fecha de instalación",
        Msg::SortMethod => "Método",
        Msg::SortUpdate => "Actualización disponible",
        Msg::NoApps => "Sin aplicaciones",
        Msg::NoAppsMethod => "Sin apps {method}",
        Msg::NoAppsFilter => "No hay apps con este método de instalación.",
        Msg::NoAppsSearch => "Sin resultados para la búsqueda actual.",
        Msg::Done => "Listo",
        Msg::InProgress => "En curso...",
        Msg::Error => "Error",
        Msg::Unavailable => "No disponible",
        Msg::Pending => "Esperando",
        Msg::Details => "Detalles",
        Msg::Information => "Información",
        Msg::Installation => "Instalación",
        Msg::Version => "Versión",
        Msg::Type => "Tipo",
        Msg::TypeApp => "Aplicación",
        Msg::Architecture => "Arquitectura",
        Msg::Status => "Estado",
        Msg::Category => "Categoría",
        Msg::Description => "Descripción",
        Msg::Method => "Método",
        Msg::Origin => "Origen",
        Msg::Location => "Ubicación",
        Msg::Size => "Tamaño",
        Msg::Date => "Fecha",
        Msg::Package => "Paquete",
        Msg::Uninstall => "Desinstalar",
        Msg::UninstallConfirmTitle => "¿Desinstalar {name}?",
        Msg::UninstallConfirmBody => "¿Desinstalar {name}?\n\nEsta app se instaló vía {method}.\n\n{details}",
        Msg::Cancel => "Cancelar",
        Msg::Close => "Cerrar",
        Msg::Uninstalled => "{name} desinstalada",
        Msg::Failure => "Error: {error}",
        Msg::Interrupted => "Operación interrumpida",
        Msg::About => "Acerca de",
        Msg::AboutDesc => "Información de FindApps",
        Msg::Identifier => "Identificador",
        Msg::License => "Licencia",
        Msg::Language => "Idioma",
        Msg::LanguageDesc => "Idioma de la interfaz",
        Msg::LanguageUpdated => "Idioma actualizado",
        Msg::Tagline => "Gestor universal de aplicaciones Linux",
        Msg::AboutBody => "FindApps detecta y organiza los programas instalados en tu sistema, \
sin importar el método — APT, DNF, Flatpak, Snap, AppImage o instalación manual.\n\n\
Con una interfaz simple puedes buscar, filtrar, ver detalles y \
desinstalar de forma segura, sin usar la terminal.\n\n\
La instalación y actualización de paquetes están previstas para versiones futuras.",
        Msg::AboutFeatures => "Backends · Búsqueda · Filtros · Detalles · Desinstalación segura",
        Msg::StatusInstalled => "Instalada",
        Msg::StatusUpdate => "Actualización disponible",
        Msg::StatusBroken => "Rota",
        Msg::StatusUnknown => "Desconocido",
        Msg::BackendAvailable => "{method} disponible",
        Msg::BackendUnavailable => "{method} no disponible",
        Msg::BackendDetectable => "{method} detectable",
    }
}

/// The Hindi text of each message.
pub open spec fn text_hi(m: Msg) -> Seq<char> {
    match m {
        Msg::Home => "होम"@,
        Msg::All => "सभी"@,
        Msg::AllApps => "सभी ऐप्स"@,
        Msg::Settings => "सेटिंग्स"@,
        Msg::System => "सिस्टम"@,
        Msg::Manual => "मैनुअल"@,
        Msg::AppsInstalled => "इंस्टॉल किए गए ऐप्स"@,
        Msg::AppsCount => "{n} ऐप्स"@,
        Msg::AppsCountParen => "{n} ऐप"@,
        Msg::SearchingApps => "ऐप्स खोजे जा रहे हैं..."@,
        Msg::SearchingMethod => "खोज रहे हैं: {method}..."@,
        Msg::MethodCount => "{method}: {n} ऐप"@,
        Msg::ScanDoneToast => "स्कैन पूरा: {n} ऐप्स"@,
        Msg::AppsFound => "{n} ऐप्स मिले"@,
        Msg::ByMethod => "इंस्टॉल विधि के अनुसार"@,
        Msg::SpaceUsed => "ऐप्स द्वारा उपयोग स्थान"@,
        Msg::SearchPlaceholder => "ऐप्स खोजें..."@,
        Msg::Sort => "क्रमबद्ध करें:"@,
        Msg::SortName => "नाम"@,
        Msg::SortSize => "आकार"@,
        Msg::SortDate => "इंस्टॉल तिथि"@,
        Msg::SortMethod => "विधि"@,
        Msg::SortUpdate => "अपडेट उपलब्ध"@,
        Msg::NoApps => "कोई ऐप नहीं"@,
        Msg::NoAppsMethod => "कोई {method} ऐप नहीं"@,
        Msg::NoAppsFilter => "इस इंस्टॉल विधि में कोई ऐप नहीं है।"@,
        Msg::NoAppsSearch => "वर्तमान खोज के लिए कोई परिणाम नहीं।"@,
        Msg::Done => "पूर्ण"@,
        Msg::InProgress => "प्रगति में..."@,
        Msg::Error => "त्रुटि"@,
        Msg::Unavailable => "उपलब्ध नहीं"@,
        Msg::Pending => "प्रतीक्षा"@,
        Msg::Details => "विवरण"@,
        Msg::Information => "जानकारी"@,
        Msg::Installation => "इंस्टॉलेशन"@,
        Msg::Version => "संस्करण"@,
        Msg::Type => "प्रकार"@,
        Msg::TypeApp => "एप्लिकेशन"@,
        Msg::Architecture => "आर्किटेक्चर"@,
        Msg::Status => "स्थिति"@,
        Msg::Category => "श्रेणी"@,
        Msg::Description => "विवरण"@,
        Msg::Method => "विधि"@,
        Msg::Origin => "स्रोत"@,
        Msg::Location => "स्थान"@,
        Msg::Size => "आकार"@,
        Msg::Date => "तिथि"@,
        Msg::Package => "पैकेज"@,
        Msg::Uninstall => "अनइंस्टॉल"@,
        Msg::UninstallConfirmTitle => "{name} अनइंस्टॉल करें?"@,
        Msg::UninstallConfirmBody => "{name} अनइंस्टॉल करें?\n\nयह ऐप {method} से इंस्टॉल हुआ था।\n\n{details}"@,
        Msg::Cancel => "रद्द करें"@,
        Msg::Close => "बंद करें"@,
        Msg::Uninstalled => "{name} अनइंस्टॉल हो गया"@,
        Msg::Failure => "विफल: {error}"@,
        Msg::Interrupted => "ऑपरेशन बाधित"@,
        Msg::About => "परिचय"@,
        Msg::AboutDesc => "FindApps जानकारी"@,
        Msg::Identifier => "पहचानकर्ता"@,
        Msg::License => "लाइसेंस"@,
        Msg::Language => "भाषा"@,
        Msg::LanguageDesc => "इंटरफ़ेस भाषा"@,
        Msg::LanguageUpdated => "भाषा अपडेट हो गई"@,
        Msg::Tagline => "यूनिवर्सल Linux ऐप मैनेजर"@,
        Msg::AboutBody => "FindApps आपके सिस्टम पर इंस्टॉल प्रोग्रामों का पता लगाता और व्यवस्थित करता है — \
APT, DNF, Flatpak, Snap, AppImage या मैन्युअल इंस्टॉल से।\n\n\
सरल इंटरफ़ेस से आप खोज, फ़िल्टर, विवरण देख और सुरक्षित रूप से अनइंस्टॉल कर सकते हैं, \
टर्मिनल की आवश्यकता के बिना।\n\n\
इंस्टॉल और अपडेट भविष्य के संस्करणों में आएंगे।"@,
        Msg::AboutFeatures => "बैकएंड · खोज · फ़िल्टर · विवरण · सुरक्षित अनइंस्टॉल"@,
        Msg::StatusInstalled => "इंस्टॉल"@,
        Msg::StatusUpdate => "अपडेट उपलब्ध"@,
        Msg::StatusBroken => "क्षतिग्रस्त"@,
        Msg::StatusUnknown => "अज्ञात"@,
        Msg::BackendAvailable => "{method} उपलब्ध"@,
        Msg::BackendUnavailable => "{method} उपलब्ध नहीं"@,
        Msg::BackendDetectable => "{method} पता लगाने योग्य"@,
    }
}

fn text_hi_of(m: Msg) -> (r: &'static str)
    ensures
        r@ == text_hi(m),
{
    match m {
        Msg::Home => "होम",
        Msg::All => "सभी",
        Msg::AllApps => "सभी ऐप्स",
        Msg::Settings => "सेटिंग्स",
        Msg::System => "सिस्टम",
        Msg::Manual => "मैनुअल",
        Msg::AppsInstalled => "इंस्टॉल किए गए ऐप्स",
        Msg::AppsCount => "{n} ऐप्स",
        Msg::AppsCountParen => "{n} ऐप",
        Msg::SearchingApps => "ऐप्स खोजे जा रहे हैं...",
        Msg::SearchingMethod => "खोज रहे हैं: {method}...",
        Msg::MethodCount => "{method}: {n} ऐप",
        Msg::ScanDoneToast => "स्कैन पूरा: {n} ऐप्स",
        Msg::AppsFound => "{n} ऐप्स मिले",
        Msg::ByMethod => "इंस्टॉल विधि के अनुसार",
        Msg::SpaceUsed => "ऐप्स द्वारा उपयोग स्थान",
        Msg::SearchPlaceholder => "ऐप्स खोजें...",
        Msg::Sort => "क्रमबद्ध करें:",
        Msg::SortName => "नाम",
        Msg::SortSize => "आकार",
        Msg::SortDate => "इंस्टॉल तिथि",
        Msg::SortMethod => "विधि",
        Msg::SortUpdate => "अपडेट उपलब्ध",
        Msg::NoApps => "कोई ऐप नहीं",
        Msg::NoAppsMethod => "कोई {method} ऐप नहीं",
        Msg::NoAppsFilter => "इस इंस्टॉल विधि में कोई ऐप नहीं है।",
        Msg::NoAppsSearch => "वर्तमान खोज के लिए कोई परिणाम नहीं।",
        Msg::Done => "पूर्ण",
        Msg::InProgress => "प्रगति में...",
        Msg::Error => "त्रुटि",
        Msg::Unavailable => "उपलब्ध नहीं",
        Msg::Pending => "प्रतीक्षा",
        Msg::Details => "विवरण",
        Msg::Information => "जानकारी",
        Msg::Installation => "इंस्टॉलेशन",
        Msg::Version => "संस्करण",
        Msg::Type => "प्रकार",
        Msg::TypeApp => "एप्लिकेशन",
        Msg::Architecture => "आर्किटेक्चर",
        Msg::Status => "स्थिति",
        Msg::Category => "श्रेणी",
        Msg::Description => "विवरण",
        Msg::Method => "विधि",
        Msg::Origin => "स्रोत",
        Msg::Location => "स्थान",
        Msg::Size => "आकार",
        Msg::Date => "तिथि",
        Msg::Package => "पैकेज",
        Msg::Uninstall => "अनइंस्टॉल",
        Msg::UninstallConfirmTitle => "{name} अनइंस्टॉल करें?",
        Msg::UninstallConfirmBody => "{name} अनइंस्टॉल करें?\n\nयह ऐप {method} से इंस्टॉल हुआ था।\n\n{details}",
        Msg::Cancel => "रद्द करें",
        Msg::Close => "बंद करें",
        Msg::Uninstalled => "{name} अनइंस्टॉल हो गया",
        Msg::Failure => "विफल: {error}",
        Msg::Interrupted => "ऑपरेशन बाधित",
        Msg::About => "परिचय",
        Msg::AboutDesc => "FindApps जानकारी",
        Msg::Identifier => "पहचानकर्ता",
        Msg::License => "लाइसेंस",
        Msg::Language => "भाषा",
        Msg::LanguageDesc => "इंटरफ़ेस भाषा",
        Msg::LanguageUpdated => "भाषा अपडेट हो गई",
        Msg::Tagline => "यूनिवर्सल Linux ऐप मैनेजर",
        Msg::AboutBody => "FindApps आपके सिस्टम पर इंस्टॉल प्रोग्रामों का पता लगाता और व्यवस्थित करता है — \
APT, DNF, Flatpak, Snap, AppImage या मैन्युअल इंस्टॉल से।\n\n\
सरल इंटरफ़ेस से आप खोज, फ़िल्टर, विवरण देख और सुरक्षित रूप से अनइंस्टॉल कर सकते हैं, \
टर्मिनल की आवश्यकता के बिना।\n\n\
इंस्टॉल और अपडेट भविष्य के संस्करणों में आएंगे।",
        Msg::AboutFeatures => "बैकएंड · खोज · फ़िल्टर · विवरण · सुरक्षित अनइंस्टॉल",
        Msg::StatusInstalled => "इंस्टॉल",
        Msg::StatusUpdate => "अपडेट उपलब्ध",
        Msg::StatusBroken => "क्षतिग्रस्त",
        Msg::StatusUnknown => "अज्ञात",
        Msg::BackendAvailable => "{method} उपलब्ध",
        Msg::BackendUnavailable => "{method} उपलब्ध नहीं",
        Msg::BackendDetectable => "{method} पता लगाने योग्य",
    }
}

/// The Arabic text of each message.
pub open spec fn text_ar(m: Msg) -> Seq<char> {
    match m {
        Msg::Home => "الرئيسية"@,
        Msg::All => "الكل"@,
        Msg::AllApps => "كل التطبيقات"@,
        Msg::Settings => "الإعدادات"@,
        Msg::System => "النظام"@,
        Msg::Manual => "يدوي"@,
        Msg::AppsInstalled => "التطبيقات المثبتة"@,
        Msg::AppsCount => "{n} تطبيقات"@,
        Msg::AppsCountParen => "{n} تطبيق(ات)"@,
        Msg::SearchingApps => "جاري البحث عن التطبيقات..."@,
        Msg::SearchingMethod => "جاري البحث: {method}..."@,
        Msg::MethodCount => "{method}: {n} تطبيق(ات)"@,
        Msg::ScanDoneToast => "اكتمل الفحص: {n} تطبيقات"@,
        Msg::AppsFound => "تم العثور على {n} تطبيقات"@,
        Msg::ByMethod => "حسب طريقة التثبيت"@,
        Msg::SpaceUsed => "المساحة المستخدمة للتطبيقات"@,
        Msg::SearchPlaceholder => "البحث عن تطبيقات..."@,
        Msg::Sort => "ترتيب:"@,
        Msg::SortName => "الاسم"@,
        Msg::SortSize => "الحجم"@,
        Msg::SortDate => "تاريخ التثبيت"@,
        Msg::SortMethod => "الطريقة"@,
        Msg::SortUpdate => "يتوفر تحديث"@,
        Msg::NoApps => "لا توجد تطبيقات"@,
        Msg::NoAppsMethod => "لا توجد تطبيقات {method}"@,
        Msg::NoAppsFilter => "لا توجد تطبيقات لهذه الطريقة."@,
        Msg::NoAppsSearch => "لا نتائج للبحث الحالي."@,
        Msg::Done => "تم"@,
        Msg::InProgress => "قيد التقدم..."@,
        Msg::Error => "خطأ"@,
        Msg::Unavailable => "غير متاح"@,
        Msg::Pending => "في الانتظار"@,
        Msg::Details => "التفاصيل"@,
        Msg::Information => "معلومات"@,
        Msg::Installation => "التثبيت"@,
        Msg::Version => "الإصدار"@,
        Msg::Type => "النوع"@,
        Msg::TypeApp => "تطبيق"@,
        Msg::Architecture => "المعمارية"@,
        Msg::Status => "الحالة"@,
        Msg::Category => "الفئة"@,
        Msg::Description => "الوصف"@,
        Msg::Method => "الطريقة"@,
        Msg::Origin => "المصدر"@,
        Msg::Location => "الموقع"@,
        Msg::Size => "الحجم"@,
        Msg::Date => "التاريخ"@,
        Msg::Package => "الحزمة"@,
        Msg::Uninstall => "إلغاء التثبيت"@,
        Msg::UninstallConfirmTitle => "إلغاء تثبيت {name}؟"@,
        Msg::UninstallConfirmBody => "إلغاء تثبيت {name}؟\n\nتم تثبيت هذا التطبيق عبر {method}.\n\n{details}"@,
        Msg::Cancel => "إلغاء"@,
        Msg::Close => "إغلاق"@,
        Msg::Uninstalled => "تم إلغاء تثبيت {name}"@,
        Msg::Failure => "فشل: {error}"@,
        Msg::Interrupted => "تم إيقاف العملية"@,
        Msg::About => "حول"@,
        Msg::AboutDesc => "معلومات FindApps"@,
        Msg::Identifier => "المعرّف"@,
        Msg::License => "الترخيص"@,
        Msg::Language => "اللغة"@,
        Msg::LanguageDesc => "لغة الواجهة"@,
        Msg::LanguageUpdated => "تم تحديث اللغة"@,
        Msg::Tagline => "مدير تطبيقات لينكس الشامل"@,
        Msg::AboutBody => "يكتشف FindApps وينظّم البرامج المثبتة على نظامك، \
بغض النظر عن طريقة التثبيت — APT أو DNF أو Flatpak أو Snap أو AppImage أو التثبيت اليدوي.\n\n\
بواجهة بسيطة يمكنك البحث والتصفية وعرض التفاصيل وإلغاء التثبيت بأمان دون الطرفية.\n\n\
التثبيت والتحديث مخططان للإصدارات القادمة."@,
        Msg::AboutFeatures => "الخوادم · البحث · التصفية · التفاصيل · إلغاء تثبيت آمن"@,
        Msg::StatusInstalled => "مثبت"@,
        Msg::StatusUpdate => "يتوفر تحديث"@,
        Msg::StatusBroken => "تالف"@,
        Msg::StatusUnknown => "غير معروف"@,
        Msg::BackendAvailable => "{method} متاح"@,
        Msg::BackendUnavailable => "{method} غير متاح"@,
        Msg::BackendDetectable => "{method} قابل للاكتشاف"@,
    }
}

fn text_ar_of(m: Msg) -> (r: &'static str)
    ensures
        r@ == text_ar(m),
{
    match m {
        Msg::Home => "الرئيسية",
        Msg::All => "الكل",
        Msg::AllApps => "كل التطبيقات",
        Msg::Settings => "الإعدادات",
        Msg::System => "النظام",
        Msg::Manual => "يدوي",
        Msg::AppsInstalled => "التطبيقات المثبتة",
        Msg::AppsCount => "{n} تطبيقات",
        Msg::AppsCountParen => "{n} تطبيق(ات)",
        Msg::SearchingApps => "جاري البحث عن التطبيقات...",
        Msg::SearchingMethod => "جاري البحث: {method}...",
        Msg::MethodCount => "{method}: {n} تطبيق(ات)",
        Msg::ScanDoneToast => "اكتمل الفحص: {n} تطبيقات",
        Msg::AppsFound => "تم العثور على {n} تطبيقات",
        Msg::ByMethod => "حسب طريقة التثبيت",
        Msg::SpaceUsed => "المساحة المستخدمة للتطبيقات",
        Msg::SearchPlaceholder => "البحث عن تطبيقات...",
        Msg::Sort => "ترتيب:",
        Msg::SortName => "الاسم",
        Msg::SortSize => "الحجم",
        Msg::SortDate => "تاريخ التثبيت",
        Msg::SortMethod => "الطريقة",
        Msg::SortUpdate => "يتوفر تحديث",
        Msg::NoApps => "لا توجد تطبيقات",
        Msg::NoAppsMethod => "لا توجد تطبيقات {method}",
        Msg::NoAppsFilter => "لا توجد تطبيقات لهذه الطريقة.",
        Msg::NoAppsSearch => "لا نتائج للبحث الحالي.",
        Msg::Done => "تم",
        Msg::InProgress => "قيد التقدم...",
        Msg::Error => "خطأ",
        Msg::Unavailable => "غير متاح",
        Msg::Pending => "في الانتظار",
        Msg::Details => "التفاصيل",
        Msg::Information => "معلومات",
        Msg::Installation => "التثبيت",
        Msg::Version => "الإصدار",
        Msg::Type => "النوع",
        Msg::TypeApp => "تطبيق",
        Msg::Architecture => "المعمارية",
        Msg::Status => "الحالة",
        Msg::Category => "الفئة",
        Msg::Description => "الوصف",
        Msg::Method => "الطريقة",
        Msg::Origin => "المصدر",
        Msg::Location => "الموقع",
        Msg::Size => "الحجم",
        Msg::Date => "التاريخ",
        Msg::Package => "الحزمة",
        Msg::Uninstall => "إلغاء التثبيت",
        Msg::UninstallConfirmTitle => "إلغاء تثبيت {name}؟",
        Msg::UninstallConfirmBody => "إلغاء تثبيت {name}؟\n\nتم تثبيت هذا التطبيق عبر {method}.\n\n{details}",
        Msg::Cancel => "إلغاء",
        Msg::Close => "إغلاق",
        Msg::Uninstalled => "تم إلغاء تثبيت {name}",
        Msg::Failure => "فشل: {error}",
        Msg::Interrupted => "تم إيقاف العملية",
        Msg::About => "حول",
        Msg::AboutDesc => "معلومات FindApps",
        Msg::Identifier => "المعرّف",
        Msg::License => "الترخيص",
        Msg::Language => "اللغة",
        Msg::LanguageDesc => "لغة الواجهة",
        Msg::LanguageUpdated => "تم تحديث اللغة",
        Msg::Tagline => "مدير تطبيقات لينكس الشامل",
        Msg::AboutBody => "يكتشف FindApps وينظّم البرامج المثبتة على نظامك، \
بغض النظر عن طريقة التثبيت — APT أو DNF أو Flatpak أو Snap أو AppImage أو التثبيت اليدوي.\n\n\
بواجهة بسيطة يمكنك البحث والتصفية وعرض التفاصيل وإلغاء التثبيت بأمان دون الطرفية.\n\n\
التثبيت والتحديث مخططان للإصدارات القادمة.",
        Msg::AboutFeatures => "الخوادم · البحث · التصفية · التفاصيل · إلغاء تثبيت آمن",
        Msg::StatusInstalled => "مثبت",
        Msg::StatusUpdate => "يتوفر تحديث",
        Msg::StatusBroken => "تالف",
        Msg::StatusUnknown => "غير معروف",
        Msg::BackendAvailable => "{method} متاح",
        Msg::BackendUnavailable => "{method} غير متاح",
        Msg::BackendDetectable => "{method} قابل للاكتشاف",
    }
}

/// The Portuguese text of each message.
pub open spec fn text_pt(m: Msg) -> Seq<char> {
    match m {
        Msg::Home => "Início"@,
        Msg::All => "Todos"@,
        Msg::AllApps => "Todos os aplicativos"@,
        Msg::Settings => "Configurações"@,
        Msg::System => "Sistema"@,
        Msg::Manual => "Manual"@,
        Msg::AppsInstalled => "Aplicativos instalados"@,
        Msg::AppsCount => "{n} aplicativos"@,
        Msg::AppsCountParen => "{n} aplicativo(s)"@,
        Msg::SearchingApps => "Procurando aplicativos..."@,
        Msg::SearchingMethod => "Procurando: {method}..."@,
        Msg::MethodCount => "{method}: {n} aplicativo(s)"@,
        Msg::ScanDoneToast => "Varredura concluída: {n} apps"@,
        Msg::AppsFound => "{n} aplicativos encontrados"@,
        Msg::ByMethod => "Por método de instalação"@,
        Msg::SpaceUsed => "Espaço utilizado por aplicativos"@,
        Msg::SearchPlaceholder => "Pesquisar aplicativos..."@,
        Msg::Sort => "Ordenar:"@,
        Msg::SortName => "Nome"@,
        Msg::SortSize => "Tamanho"@,
        Msg::SortDate => "Data de instalação"@,
        Msg::SortMethod => "Método"@,
        Msg::SortUpdate => "Atualização disponível"@,
        Msg::NoApps => "Nenhum aplicativo"@,
        Msg::NoAppsMethod => "Nenhum aplicativo {method}"@,
        Msg::NoAppsFilter => "Não há aplicativos neste método de instalação."@,
        Msg::NoAppsSearch => "Nenhum resultado para a pesquisa atual."@,
        Msg::Done => "Concluído"@,
        Msg::InProgress => "Em andamento..."@,
        Msg::Error => "Erro"@,
        Msg::Unavailable => "Não disponível"@,
        Msg::Pending => "Aguardando"@,
        Msg::Details => "Detalhes"@,
        Msg::Information => "Informações"@,
        Msg::Installation => "Instalação"@,
        Msg::Version => "Versão"@,
        Msg::Type => "Tipo"@,
        Msg::TypeApp => "Aplicativo"@,
        Msg::Architecture => "Arquitetura"@,
        Msg::Status => "Status"@,
        Msg::Category => "Categoria"@,
        Msg::Description => "Descrição"@,
        Msg::Method => "Método"@,
        Msg::Origin => "Origem"@,
        Msg::Location => "Local"@,
        Msg::Size => "Tamanho"@,
        Msg::Date => "Data"@,
        Msg::Package => "Pacote"@,
        Msg::Uninstall => "Desinstalar"@,
        Msg::UninstallConfirmTitle => "Desinstalar {name}?"@,
        Msg::UninstallConfirmBody => "Desinstalar {name}?\n\nEste aplicativo foi instalado via {method}.\n\n{details}"@,
        Msg::Cancel => "Cancelar"@,
        Msg::Close => "Fechar"@,
        Msg::Uninstalled => "{name} desinstalado"@,
        Msg::Failure => "Falha: {error}"@,
        Msg::Interrupted => "Operação interrompida"@,
        Msg::About => "Sobre"@,
        Msg::AboutDesc => "Informações do FindApps"@,
        Msg::Identifier => "Identificador"@,
        Msg::License => "Licença"@,
        Msg::Language => "Idioma"@,
        Msg::LanguageDesc => "Idioma da interface"@,
        Msg::LanguageUpdated => "Idioma atualizado"@,
        Msg::Tagline => "Gerenciador universal de aplicativos Linux"@,
        Msg::AboutBody => "O FindApps detecta e organiza programas instalados no seu sistema, \
independentemente do método de instalação — APT, DNF, Flatpak, Snap, AppImage \
ou instalação manual.\n\n\
Com uma interface simples, você pode pesquisar, filtrar, ver detalhes e \
desinstalar aplicativos com segurança, sem precisar usar o terminal.\n\n\
A instalação e as atualizações de pacotes estão previstas para versões futuras."@,
        Msg::AboutFeatures => "Backends · Pesquisa · Filtros · Detalhes · Desinstalação segura"@,
        Msg::StatusInstalled => "Instalado"@,
        Msg::StatusUpdate => "Atualização disponível"@,
        Msg::StatusBroken => "Quebrado"@,
        Msg::StatusUnknown => "Desconhecido"@,
        Msg::BackendAvailable => "{method} disponível"@,
        Msg::BackendUnavailable => "{method} não disponível"@,
        Msg::BackendDetectable => "{method} detectável"@,
    }
}

fn text_pt_of(m: Msg) -> (r: &'static str)
    ensures
        r@ == text_pt(m),
{
    match m {
        Msg::Home => "Início",
        Msg::All => "Todos",
        Msg::AllApps => "Todos os aplicativos",
        Msg::Settings => "Configurações",
        Msg::System => "Sistema",
        Msg::Manual => "Manual",
        Msg::AppsInstalled => "Aplicativos instalados",
        Msg::AppsCount => "{n} aplicativos",
        Msg::AppsCountParen => "{n} aplicativo(s)",
        Msg::SearchingApps => "Procurando aplicativos...",
        Msg::SearchingMethod => "Procurando: {method}...",
        Msg::MethodCount => "{method}: {n} aplicativo(s)",
        Msg::ScanDoneToast => "Varredura concluída: {n} apps",
        Msg::AppsFound => "{n} aplicativos encontrados",
        Msg::ByMethod => "Por método de instalação",
        Msg::SpaceUsed => "Espaço utilizado por aplicativos",
        Msg::SearchPlaceholder => "Pesquisar aplicativos...",
        Msg::Sort => "Ordenar:",
        Msg::SortName => "Nome",
        Msg::SortSize => "Tamanho",
        Msg::SortDate => "Data de instalação",
        Msg::SortMethod => "Método",
        Msg::SortUpdate => "Atualização disponível",
        Msg::NoApps => "Nenhum aplicativo",
        Msg::NoAppsMethod => "Nenhum aplicativo {method}",
        Msg::NoAppsFilter => "Não há aplicativos neste método de instalação.",
        Msg::NoAppsSearch => "Nenhum resultado para a pesquisa atual.",
        Msg::Done => "Concluído",
        Msg::InProgress => "Em andamento...",
        Msg::Error => "Erro",
        Msg::Unavailable => "Não disponível",
        Msg::Pending => "Aguardando",
        Msg::Details => "Detalhes",
        Msg::Information => "Informações",
        Msg::Installation => "Instalação",
        Msg::Version => "Versão",
        Msg::Type => "Tipo",
        Msg::TypeApp => "Aplicativo",
        Msg::Architecture => "Arquitetura",
        Msg::Status => "Status",
        Msg::Category => "Categoria",
        Msg::Description => "Descrição",
        Msg::Method => "Método",
        Msg::Origin => "Origem",
        Msg::Location => "Local",
        Msg::Size => "Tamanho",
        Msg::Date => "Data",
        Msg::Package => "Pacote",
        Msg::Uninstall => "Desinstalar",
        Msg::UninstallConfirmTitle => "Desinstalar {name}?",
        Msg::UninstallConfirmBody => "Desinstalar {name}?\n\nEste aplicativo foi instalado via {method}.\n\n{details}",
        Msg::Cancel => "Cancelar",
        Msg::Close => "Fechar",
        Msg::Uninstalled => "{name} desinstalado",
        Msg::Failure => "Falha: {error}",
        Msg::Interrupted => "Operação interrompida",
        Msg::About => "Sobre",
        Msg::AboutDesc => "Informações do FindApps",
        Msg::Identifier => "Identificador",
        Msg::License => "Licença",
        Msg::Language => "Idioma",
        Msg::LanguageDesc => "Idioma da interface",
        Msg::LanguageUpdated => "Idioma atualizado",
        Msg::Tagline => "Gerenciador universal de aplicativos Linux",
        Msg::AboutBody => "O FindApps detecta e organiza programas instalados no seu sistema, \
independentemente do método de instalação — APT, DNF, Flatpak, Snap, AppImage \
ou instalação manual.\n\n\
Com uma interface simples, você pode pesquisar, filtrar, ver detalhes e \
desinstalar aplicativos com segurança, sem precisar usar o terminal.\n\n\
A instalação e as atualizações de pacotes estão previstas para versões futuras.",
        Msg::AboutFeatures => "Backends · Pesquisa · Filtros · Detalhes · Desinstalação segura",
        Msg::StatusInstalled => "Instalado",
        Msg::StatusUpdate => "Atualização disponível",
        Msg::StatusBroken => "Quebrado",
        Msg::StatusUnknown => "Desconhecido",
        Msg::BackendAvailable => "{method} disponível",
        Msg::BackendUnavailable => "{method} não disponível",
        Msg::BackendDetectable => "{method} detectável",
    }
}

/// The Russian text of each message.
pub open spec fn text_ru(m: Msg) -> Seq<char> {
    match m {
        Msg::Home => "Главная"@,
        Msg::All => "Все"@,
        Msg::AllApps => "Все приложения"@,
        Msg::Settings => "Настройки"@,
        Msg::System => "Система"@,
        Msg::Manual => "Вручную"@,
        Msg::AppsInstalled => "Установленные приложения"@,
        Msg::AppsCount => "{n} приложений"@,
        Msg::AppsCountParen => "{n} прилож."@,
        Msg::SearchingApps => "Поиск приложений..."@,
        Msg::SearchingMethod => "Поиск: {method}..."@,
        Msg::MethodCount => "{method}: {n} прилож."@,
        Msg::ScanDoneToast => "Сканирование завершено: {n} прилож."@,
        Msg::AppsFound => "Найдено приложений: {n}"@,
        Msg::ByMethod => "По способу установки"@,
        Msg::SpaceUsed => "Место, занятое приложениями"@,
        Msg::SearchPlaceholder => "Поиск приложений..."@,
        Msg::Sort => "Сортировка:"@,
        Msg::SortName => "Имя"@,
        Msg::SortSize => "Размер"@,
        Msg::SortDate => "Дата установки"@,
        Msg::SortMethod => "Способ"@,
        Msg::SortUpdate => "Доступно обновление"@,
        Msg::NoApps => "Нет приложений"@,
        Msg::NoAppsMethod => "Нет приложений {method}"@,
        Msg::NoAppsFilter => "Нет приложений с этим способом установки."@,
        Msg::NoAppsSearch => "Нет результатов по текущему поиску."@,
        Msg::Done => "Готово"@,
        Msg::InProgress => "Выполняется..."@,
        Msg::Error => "Ошибка"@,
        Msg::Unavailable => "Недоступно"@,
        Msg::Pending => "Ожидание"@,
        Msg::Details => "Сведения"@,
        Msg::Information => "Информация"@,
        Msg::Installation => "Установка"@,
        Msg::Version => "Версия"@,
        Msg::Type => "Тип"@,
        Msg::TypeApp => "Приложение"@,
        Msg::Architecture => "Архитектура"@,
        Msg::Status => "Статус"@,
        Msg::Category => "Категория"@,
        Msg::Description => "Описание"@,
        Msg::Method => "Способ"@,
        Msg::Origin => "Источник"@,
        Msg::Location => "Расположение"@,
        Msg::Size => "Размер"@,
        Msg::Date => "Дата"@,
        Msg::Package => "Пакет"@,
        Msg::Uninstall => "Удалить"@,
        Msg::UninstallConfirmTitle => "Удалить {name}?"@,
        Msg::UninstallConfirmBody => "Удалить {name}?\n\nЭто приложение установлено через {method}.\n\n{details}"@,
        Msg::Cancel => "Отмена"@,
        Msg::Close => "Закрыть"@,
        Msg::Uninstalled => "{name} удалено"@,
        Msg::Failure => "Ошибка: {error}"@,
        Msg::Interrupted => "Операция прервана"@,
        Msg::About => "О программе"@,
        Msg::AboutDesc => "Сведения о FindApps"@,
        Msg::Identifier => "Идентификатор"@,
        Msg::License => "Лицензия"@,
        Msg::Language => "Язык"@,
        Msg::LanguageDesc => "Язык интерфейса"@,
        Msg::LanguageUpdated => "Язык обновлён"@,
        Msg::Tagline => "Универсальный менеджер приложений Linux"@,
        Msg::AboutBody => "FindApps обнаруживает и упорядочивает программы, установленные в системе, \
независимо от способа — APT, DNF, Flatpak, Snap, AppImage или ручная установка.\n\n\
В простом интерфейсе можно искать, фильтровать, смотреть сведения и \
безопасно удалять приложения без терминала.\n\n\
Установка и обновление пакетов запланированы в будущих версиях."@,
        Msg::AboutFeatures => "Бэкенды · Поиск · Фильтры · Сведения · Безопасное удаление"@,
        Msg::StatusInstalled => "Установлено"@,
        Msg::StatusUpdate => "Доступно обновление"@,
        Msg::StatusBroken => "Повреждено"@,
        Msg::StatusUnknown => "Неизвестно"@,
        Msg::BackendAvailable => "{method} доступен"@,
        Msg::BackendUnavailable => "{method} недоступен"@,
        Msg::BackendDetectable => "{method} обнаруживается"@,
    }
}

fn text_ru_of(m: Msg) -> (r: &'static str)
    ensures
        r@ == text_ru(m),
{
    match m {
        Msg::Home => "Главная",
        Msg::All => "Все",
        Msg::AllApps => "Все приложения",
        Msg::Settings => "Настройки",
        Msg::System => "Система",
        Msg::Manual => "Вручную",
        Msg::AppsInstalled => "Установленные приложения",
        Msg::AppsCount => "{n} приложений",
        Msg::AppsCountParen => "{n} прилож.",
        Msg::SearchingApps => "Поиск приложений...",
        Msg::SearchingMethod => "Поиск: {method}...",
        Msg::MethodCount => "{method}: {n} прилож.",
        Msg::ScanDoneToast => "Сканирование завершено: {n} прилож.",
        Msg::AppsFound => "Найдено приложений: {n}",
        Msg::ByMethod => "По способу установки",
        Msg::SpaceUsed => "Место, занятое приложениями",
        Msg::SearchPlaceholder => "Поиск приложений...",
        Msg::Sort => "Сортировка:",
        Msg::SortName => "Имя",
        Msg::SortSize => "Размер",
        Msg::SortDate => "Дата установки",
        Msg::SortMethod => "Способ",
        Msg::SortUpdate => "Доступно обновление",
        Msg::NoApps => "Нет приложений",
        Msg::NoAppsMethod => "Нет приложений {method}",
        Msg::NoAppsFilter => "Нет приложений с этим способом установки.",
        Msg::NoAppsSearch => "Нет результатов по текущему поиску.",
        Msg::Done => "Готово",
        Msg::InProgress => "Выполняется...",
        Msg::Error => "Ошибка",
        Msg::Unavailable => "Недоступно",
        Msg::Pending => "Ожидание",
        Msg::Details => "Сведения",
        Msg::Information => "Информация",
        Msg::Installation => "Установка",
        Msg::Version => "Версия",
        Msg::Type => "Тип",
        Msg::TypeApp => "Приложение",
        Msg::Architecture => "Архитектура",
        Msg::Status => "Статус",
        Msg::Category => "Категория",
        Msg::Description => "Описание",
        Msg::Method => "Способ",
        Msg::Origin => "Источник",
        Msg::Location => "Расположение",
        Msg::Size => "Размер",
        Msg::Date => "Дата",
        Msg::Package => "Пакет",
        Msg::Uninstall => "Удалить",
        Msg::UninstallConfirmTitle => "Удалить {name}?",
        Msg::UninstallConfirmBody => "Удалить {name}?\n\nЭто приложение установлено через {method}.\n\n{details}",
        Msg::Cancel => "Отмена",
        Msg::Close => "Закрыть",
        Msg::Uninstalled => "{name} удалено",
        Msg::Failure => "Ошибка: {error}",
        Msg::Interrupted => "Операция прервана",
        Msg::About => "О программе",
        Msg::AboutDesc => "Сведения о FindApps",
        Msg::Identifier => "Идентификатор",
        Msg::License => "Лицензия",
        Msg::Language => "Язык",
        Msg::LanguageDesc => "Язык интерфейса",
        Msg::LanguageUpdated => "Язык обновлён",
        Msg::Tagline => "Универсальный менеджер приложений Linux",
        Msg::AboutBody => "FindApps обнаруживает и упорядочивает программы, установленные в системе, \
независимо от способа — APT, DNF, Flatpak, Snap, AppImage или ручная установка.\n\n\
В простом интерфейсе можно искать, фильтровать, смотреть сведения и \
безопасно удалять приложения без терминала.\n\n\
Установка и обновление пакетов запланированы в будущих версиях.",
        Msg::AboutFeatures => "Бэкенды · Поиск · Фильтры · Сведения · Безопасное удаление",
        Msg::StatusInstalled => "Установлено",
        Msg::StatusUpdate => "Доступно обновление",
        Msg::StatusBroken => "Повреждено",
        Msg::StatusUnknown => "Неизвестно",
        Msg::BackendAvailable => "{method} доступен",
        Msg::BackendUnavailable => "{method} недоступен",
        Msg::BackendDetectable => "{method} обнаруживается",
    }
}

/// The text of a message in a language.
pub open spec fn catalog(lang: Language, m: Msg) -> Seq<char> {
    match lang {
        Language::English => text_en(m),
        Language::Chinese => text_zh(m),
        Language::Spanish => text_es(m),
        Language::Hindi => text_hi(m),
        Language::Arabic => text_ar(m),
        Language::Portuguese => text_pt(m),
        Language::Russian => text_ru(m),
    }
}

/// The text of a message in a language.
pub fn text(lang: Language, m: Msg) -> (r: &'static str)
    ensures
        r@ == catalog(lang, m),
{
    match lang {
        Language::English => text_en_of(m),
        Language::Chinese => text_zh_of(m),
        Language::Spanish => text_es_of(m),
        Language::Hindi => text_hi_of(m),
        Language::Arabic => text_ar_of(m),
        Language::Portuguese => text_pt_of(m),
        Language::Russian => text_ru_of(m),
    }
}

} // verus!
