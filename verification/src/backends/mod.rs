//! Package backends: parsing of what each package manager reports.

pub mod appimage;
pub mod apt;
pub mod desktop;
pub mod dnf;
pub mod flatpak;
pub mod manual;
pub mod mock;
pub mod snap;

use vstd::prelude::*;

use crate::models::{AppInfo, BackendError, BackendResult, UpdateInfo};
use crate::text::{copy_string, lines, opt_view, str_eq, str_lines};

verus! {

/// The first line of a command's output, if it has one.
pub open spec fn first_line_of(output: Seq<char>) -> Option<Seq<char>> {
    if lines(output).len() > 0 {
        Some(lines(output)[0])
    } else {
        None
    }
}

/// The first line of a command's output (the version line of
/// `dpkg --version`, `dnf --version`, ...).
pub fn first_line(output: &str) -> (r: Option<String>)
    ensures
        opt_view(r) == first_line_of(output@),
{
    let ls = str_lines(output);
    if ls.len() > 0 {
        assert(crate::text::views(ls@)[0] == ls@[0]@);
        Some(ls[0].clone())
    } else {
        None
    }
}

/// Position of the first application with the package id (or, when
/// `by_id` holds, with the package id or the internal id), or -1.
pub open spec fn installed_pos(apps: Seq<AppInfo>, key: Seq<char>, by_id: bool) -> int
    decreases apps.len(),
{
    if apps.len() == 0 {
        -1
    } else {
        let p = installed_pos(apps.drop_last(), key, by_id);
        if p >= 0 {
            p
        } else if apps.last().package_id@ == key || (by_id && apps.last().id@ == key) {
            apps.len() - 1
        } else {
            -1
        }
    }
}

proof fn lemma_installed_pos(apps: Seq<AppInfo>, key: Seq<char>, by_id: bool)
    ensures
        -1 <= installed_pos(apps, key, by_id) < apps.len(),
        installed_pos(apps, key, by_id) >= 0 ==> ({
            let a = apps[installed_pos(apps, key, by_id)];
            a.package_id@ == key || (by_id && a.id@ == key)
        }),
    decreases apps.len(),
{
    if apps.len() > 0 {
        lemma_installed_pos(apps.drop_last(), key, by_id);
    }
}

/// Position of the first application with the package id (or also the
/// internal id, when `by_id` holds).
pub fn find_installed(apps: &Vec<AppInfo>, key: &str, by_id: bool) -> (r: Option<usize>)
    ensures
        r matches Some(i) ==> i as int == installed_pos(apps@, key@, by_id),
        r is None ==> installed_pos(apps@, key@, by_id) == -1,
{
    let n = apps.len();
    for i in 0..n
        invariant
            n == apps@.len(),
            installed_pos(apps@.take(i as int), key@, by_id) == -1,
    {
        assert(apps@.take(i + 1).drop_last() =~= apps@.take(i as int));
        if str_eq(apps[i].package_id.as_str(), key) || (by_id && str_eq(apps[i].id.as_str(), key)) {
            proof {
                lemma_installed_pos_prefix(apps@, key@, by_id, i + 1);
            }
            return Some(i);
        }
    }
    assert(apps@.take(n as int) =~= apps@);
    None
}

proof fn lemma_installed_pos_prefix(apps: Seq<AppInfo>, key: Seq<char>, by_id: bool, i: int)
    requires
        0 <= i <= apps.len(),
        installed_pos(apps.take(i), key, by_id) >= 0,
    ensures
        installed_pos(apps, key, by_id) == installed_pos(apps.take(i), key, by_id),
    decreases apps.len() - i,
{
    if i < apps.len() {
        assert(apps.take(i + 1).drop_last() =~= apps.take(i));
        lemma_installed_pos_prefix(apps, key, by_id, i + 1);
    } else {
        assert(apps.take(i) =~= apps);
    }
}

/// The details of one installed application out of a listing: the first
/// with the package id (or the internal id, when `by_id` holds), or
/// `NotFound` with the key.
pub fn pick_installed(apps: Vec<AppInfo>, key: &str, by_id: bool) -> (r: BackendResult<AppInfo>)
    ensures
        installed_pos(apps@, key@, by_id) >= 0 ==> r == Ok::<AppInfo, BackendError>(
            apps@[installed_pos(apps@, key@, by_id)],
        ),
        installed_pos(apps@, key@, by_id) < 0 ==> (r matches Err(BackendError::NotFound(s))
            && s@ == key@),
{
    proof {
        lemma_installed_pos(apps@, key@, by_id);
    }
    match find_installed(&apps, key, by_id) {
        Some(i) => {
            let mut apps = apps;
            Ok(apps.swap_remove(i))
        },
        None => Err(BackendError::NotFound(copy_string(key))),
    }
}

/// Installing is planned for a later version: every backend answers
/// `Unsupported`.
pub fn install_not_supported() -> (r: BackendResult<()>)
    ensures
        r matches Err(BackendError::Unsupported(s)) && s@
            == "Instalação será implementada em versões futuras"@,
{
    Err(BackendError::Unsupported(copy_string("Instalação será implementada em versões futuras")))
}

/// Updating is planned for a later version: every backend answers
/// `Unsupported`.
pub fn update_not_supported() -> (r: BackendResult<()>)
    ensures
        r matches Err(BackendError::Unsupported(s)) && s@
            == "Atualização será implementada em versões futuras"@,
{
    Err(BackendError::Unsupported(copy_string("Atualização será implementada em versões futuras")))
}

/// Update checks are planned for a later version: no update is reported.
pub fn no_updates() -> (r: BackendResult<Vec<UpdateInfo>>)
    ensures
        r matches Ok(v) && v@.len() == 0,
{
    Ok(Vec::new())
}

} // verus!
