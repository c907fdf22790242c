//! Applications installed by hand: desktop entries that no package manager
//! claims.

use vstd::prelude::*;

use crate::backends::desktop::{
    desktop_exec, desktop_exec_value, desktop_key, desktop_localized, desktop_localized_value,
    desktop_value, extension_of_name, file_name_of, has_desktop_extension, path_file_name,
    path_prefix_of, path_starts_with,
};
use crate::models::{is_new_app, AppInfo, BackendError, BackendResult, InstallMethod};
use crate::system::paths::{join_path, joined};
use crate::text::{
    contains_seq, copy_string, lowercase, opt_view, split_by, starts_with, str_contains, str_eq,
    str_split_char, str_starts_with, to_lowercase, views,
};

verus! {

/// The manual backend, with the desktop ids and executables that the other
/// backends claimed during the same scan.
pub struct ManualBackend {
    claimed_desktop_ids: Vec<String>,
    claimed_exec_hints: Vec<String>,
}

impl ManualBackend {
    pub closed spec fn desktop_claims(&self) -> Seq<Seq<char>> {
        views(self.claimed_desktop_ids@)
    }

    pub closed spec fn exec_claims(&self) -> Seq<Seq<char>> {
        views(self.claimed_exec_hints@)
    }

    /// A backend with no claims.
    pub fn new() -> (r: Self)
        ensures
            r.desktop_claims() == Seq::<Seq<char>>::empty(),
            r.exec_claims() == Seq::<Seq<char>>::empty(),
    {
        let r = ManualBackend { claimed_desktop_ids: Vec::new(), claimed_exec_hints: Vec::new() };
        assert(views(r.claimed_desktop_ids@) =~= Seq::<Seq<char>>::empty());
        assert(views(r.claimed_exec_hints@) =~= Seq::<Seq<char>>::empty());
        r
    }

    /// A backend with the claims of the other backends.
    pub fn with_claims(claimed_desktop_ids: Vec<String>, claimed_exec_hints: Vec<String>) -> (r: Self)
        ensures
            r.desktop_claims() == views(claimed_desktop_ids@),
            r.exec_claims() == views(claimed_exec_hints@),
    {
        ManualBackend { claimed_desktop_ids, claimed_exec_hints }
    }

    /// Replaces the claims.
    pub fn set_claims(&mut self, desktop_ids: Vec<String>, exec_hints: Vec<String>)
        ensures
            final(self).desktop_claims() == views(desktop_ids@),
            final(self).exec_claims() == views(exec_hints@),
    {
        self.claimed_desktop_ids = desktop_ids;
        self.claimed_exec_hints = exec_hints;
    }

    pub fn id(&self) -> (r: InstallMethod)
        ensures
            r == InstallMethod::Manual,
    {
        InstallMethod::Manual
    }

    /// Whether the file at `path` is worth reading: a `.desktop` file whose
    /// name is not claimed and is not a Flatpak or Snap entry.
    pub fn is_candidate(&self, path: &str) -> (r: bool)
        ensures
            r == manual_candidate(path@, self.desktop_claims()),
    {
        if !has_desktop_extension(path) {
            return false;
        }
        proof {
            reveal_strlit("");
        }
        let name = match path_file_name(path) {
            Some(n) => n,
            None => copy_string(""),
        };
        if crate::backends::apt::contains_string(&self.claimed_desktop_ids, name.as_str()) {
            return false;
        }
        !(str_contains(name.as_str(), "flatpak") || str_starts_with(name.as_str(), "snap.")
            || str_contains(name.as_str(), ".flatpak."))
    }

    /// The application of a desktop entry read from `path`, unless it is
    /// hidden, incomplete, or launches something another backend claimed,
    /// an AppImage or a Snap or Flatpak wrapper.
    pub fn app_from_entry(&self, path: &str, content: &str) -> (r: Option<AppInfo>)
        ensures
            manual_entry_kept(content@, self.exec_claims()) ==> (r matches Some(a) && is_manual_app(
                a,
                path@,
                content@,
            )),
            !manual_entry_kept(content@, self.exec_claims()) ==> r is None,
    {
        if !is_user_facing_app(content) {
            return None;
        }
        if let Some(exec) = desktop_exec(content) {
            proof {
                reveal_strlit("");
            }
            let base = match path_file_name(exec.as_str()) {
                Some(b) => b,
                None => copy_string(""),
            };
            if crate::backends::apt::contains_string(&self.claimed_exec_hints, exec.as_str())
                || crate::backends::apt::contains_string(&self.claimed_exec_hints, base.as_str()) {
                return None;
            }
            let lower = to_lowercase(exec.as_str());
            if str_contains(lower.as_str(), ".appimage") {
                return None;
            }
            if str_contains(exec.as_str(), "/snap/") || str_contains(exec.as_str(), "flatpak run") {
                return None;
            }
        }
        parse_desktop_to_app(path, content)
    }
}

/// A `.desktop` file at `path` whose name is not claimed and is not a
/// Flatpak or Snap entry.
pub open spec fn manual_candidate(path: Seq<char>, claims: Seq<Seq<char>>) -> bool {
    let name = match file_name_of(path) {
        Some(n) => n,
        None => ""@,
    };
    &&& (match file_name_of(path) {
        Some(n) => extension_of_name(n) == Some("desktop"@),
        None => false,
    })
    &&& !claims.contains(name)
    &&& !(contains_seq(name, "flatpak"@) || starts_with(name, "snap."@) || contains_seq(
        name,
        ".flatpak."@,
    ))
}

/// An entry shown in menus: not hidden, an application entry, not shown
/// nowhere, with a name and a program.
pub open spec fn user_facing(content: Seq<char>) -> bool {
    &&& !(contains_seq(content, "NoDisplay=true"@) || contains_seq(content, "Hidden=true"@))
    &&& (contains_seq(content, "Type=Application"@) || contains_seq(content, "[Desktop Entry]"@))
    &&& !(contains_seq(content, "OnlyShowIn="@) && contains_seq(content, "OnlyShowIn=;"@))
    &&& desktop_value(content, "Name"@) is Some
    &&& desktop_exec_value(content) is Some
}

/// Whether a desktop entry is a user-facing application.
pub fn is_user_facing_app(content: &str) -> (r: bool)
    ensures
        r == user_facing(content@),
{
    if str_contains(content, "NoDisplay=true") || str_contains(content, "Hidden=true") {
        return false;
    }
    if !str_contains(content, "Type=Application") && !str_contains(content, "[Desktop Entry]") {
        return false;
    }
    if str_contains(content, "OnlyShowIn=") && str_contains(content, "OnlyShowIn=;") {
        return false;
    }
    desktop_key(content, "Name").is_some() && desktop_exec(content).is_some()
}

/// An entry is kept when it is user-facing and its program is neither
/// claimed (by path or file name), an AppImage, nor a Snap or Flatpak
/// wrapper.
pub open spec fn manual_entry_kept(content: Seq<char>, claims: Seq<Seq<char>>) -> bool {
    &&& user_facing(content)
    &&& (desktop_exec_value(content) matches Some(exec) ==> {
        let base = match file_name_of(exec) {
            Some(b) => b,
            None => ""@,
        };
        &&& !claims.contains(exec)
        &&& !claims.contains(base)
        &&& !contains_seq(lowercase(exec), ".appimage"@)
        &&& !(contains_seq(exec, "/snap/"@) || contains_seq(exec, "flatpak run"@))
    })
}

/// First entry of a `Categories=` value that is neither empty nor
/// `Application`.
pub open spec fn app_category(parts: Seq<Seq<char>>) -> Option<Seq<char>>
    decreases parts.len(),
{
    if parts.len() == 0 {
        None
    } else if parts[0].len() > 0 && parts[0] != "Application"@ {
        Some(parts[0])
    } else {
        app_category(parts.drop_first())
    }
}

fn pick_app_category(cats: &str) -> (r: Option<String>)
    ensures
        opt_view(r) == app_category(split_by(cats@, ';')),
{
    let parts = str_split_char(cats, ';');
    let ghost pv = views(parts@);
    let n = parts.len();
    assert(pv.skip(0) =~= pv);
    for i in 0..n
        invariant
            n == parts@.len(),
            pv == views(parts@),
            pv == split_by(cats@, ';'),
            app_category(pv) == app_category(pv.skip(i as int)),
    {
        assert(pv.skip(i as int)[0] == parts@[i as int]@);
        assert(pv.skip(i as int).drop_first() =~= pv.skip(i + 1));
        let p = parts[i].as_str();
        if !p.is_empty() && !str_eq(p, "Application") {
            return Some(parts[i].clone());
        }
    }
    assert(pv.skip(n as int) =~= Seq::<Seq<char>>::empty());
    None
}

/// The record of a desktop entry at `path`: the path is the package id, the
/// localized name the name; localized comment, icon, category, program (as
/// install path), origin `Instalação manual / local`, file name as desktop
/// id, and `X-Developer` (else `StartupWMClass`) as developer.
pub open spec fn is_manual_app(a: AppInfo, path: Seq<char>, content: Seq<char>) -> bool {
    &&& desktop_localized_value(content, "Name"@) matches Some(name)
    &&& is_new_app(
        AppInfo {
            description: None,
            icon_path: None,
            icon_name: None,
            category: None,
            install_path: None,
            origin: None,
            desktop_id: None,
            developer: None,
            ..a
        },
        InstallMethod::Manual,
        path,
        name,
    )
    &&& opt_view(a.description) == desktop_localized_value(content, "Comment"@)
    &&& opt_view(a.icon_path) == (match desktop_value(content, "Icon"@) {
        Some(i) => if starts_with(i, "/"@) {
            Some(i)
        } else {
            None
        },
        None => None,
    })
    &&& opt_view(a.icon_name) == (match desktop_value(content, "Icon"@) {
        Some(i) => if starts_with(i, "/"@) {
            None
        } else {
            Some(i)
        },
        None => None,
    })
    &&& opt_view(a.category) == (match desktop_value(content, "Categories"@) {
        Some(c) => app_category(split_by(c, ';')),
        None => None,
    })
    &&& opt_view(a.install_path) == desktop_exec_value(content)
    &&& opt_view(a.origin) == Some("Instalação manual / local"@)
    &&& opt_view(a.desktop_id) == file_name_of(path)
    &&& opt_view(a.developer) == (if desktop_value(content, "X-Developer"@) is Some {
        desktop_value(content, "X-Developer"@)
    } else {
        desktop_value(content, "StartupWMClass"@)
    })
}

/// The record of the desktop entry at `path`, when it has a name.
pub fn parse_desktop_to_app(path: &str, content: &str) -> (r: Option<AppInfo>)
    ensures
        desktop_localized_value(content@, "Name"@) is Some ==> (r matches Some(a)
            && is_manual_app(a, path@, content@)),
        desktop_localized_value(content@, "Name"@) is None ==> r is None,
{
    let name = match desktop_localized(content, "Name") {
        Some(n) => n,
        None => {
            return None;
        },
    };
    let mut app = AppInfo::new(InstallMethod::Manual, path, name.as_str());
    app.description = desktop_localized(content, "Comment");
    if let Some(icon) = desktop_key(content, "Icon") {
        if str_starts_with(icon.as_str(), "/") {
            app.icon_path = Some(icon);
        } else {
            app.icon_name = Some(icon);
        }
    }
    if let Some(cats) = desktop_key(content, "Categories") {
        app.category = pick_app_category(cats.as_str());
    }
    app.install_path = desktop_exec(content);
    app.origin = Some(copy_string("Instalação manual / local"));
    app.desktop_id = path_file_name(path);
    app.developer = match desktop_key(content, "X-Developer") {
        Some(d) => Some(d),
        None => desktop_key(content, "StartupWMClass"),
    };
    Some(app)
}

/// The directories searched for desktop entries: the user's
/// `.local/share/applications` (when the home directory is known), then
/// `/usr/local/share/applications` and `/usr/share/applications`.
pub open spec fn manual_dirs_in(home: Option<Seq<char>>) -> Seq<Seq<char>> {
    let system = seq!["/usr/local/share/applications"@, "/usr/share/applications"@];
    match home {
        Some(h) => seq![joined(h, ".local/share/applications"@)] + system,
        None => system,
    }
}

/// The directories searched for desktop entries.
pub fn desktop_dirs(home: Option<&str>) -> (r: Vec<String>)
    ensures
        views(r@) == manual_dirs_in(match home {
            Some(h) => Some(h@),
            None => None,
        }),
{
    let mut dirs: Vec<String> = Vec::new();
    if let Some(h) = home {
        dirs.push(join_path(h, ".local/share/applications"));
    }
    dirs.push(copy_string("/usr/local/share/applications"));
    dirs.push(copy_string("/usr/share/applications"));
    let ghost hv = match home {
        Some(h) => Some(h@),
        None => None,
    };
    assert(views(dirs@) =~= manual_dirs_in(hv));
    dirs
}

/// Why the home directory matters for removal.
pub open spec fn no_home_message() -> Seq<char> {
    "Não foi possível determinar o diretório home"@
}

/// Why system-wide manual applications are not removed.
pub open spec fn system_entry_message() -> Seq<char> {
    "Aplicativos manuais do sistema não podem ser removidos automaticamente. Remova os arquivos manualmente."@
}

/// Whether the desktop entry `id` may be removed: only entries under the
/// user's `.local/share/applications` with the `desktop` extension.
pub fn check_removal(id: &str, home: Option<&str>) -> (r: BackendResult<()>)
    ensures
        home is None ==> (r matches Err(BackendError::Other(s)) && s@ == no_home_message()),
        home matches Some(h) ==> (if path_prefix_of(id@, joined(h@, ".local/share/applications"@))
            && (match file_name_of(id@) {
            Some(n) => extension_of_name(n) == Some("desktop"@),
            None => false,
        }) {
            r is Ok
        } else {
            r matches Err(BackendError::PermissionDenied(s)) && s@ == system_entry_message()
        }),
{
    let h = match home {
        Some(h) => h,
        None => {
            return Err(BackendError::Other(copy_string("Não foi possível determinar o diretório home")));
        },
    };
    let local_apps = join_path(h, ".local/share/applications");
    if path_starts_with(id, local_apps.as_str()) && has_desktop_extension(id) {
        return Ok(());
    }
    Err(
        BackendError::PermissionDenied(
            copy_string(
                "Aplicativos manuais do sistema não podem ser removidos automaticamente. Remova os arquivos manualmente.",
            ),
        ),
    )
}

} // verus!
