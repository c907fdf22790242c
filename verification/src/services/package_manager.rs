//! The decisions of a scan and of a removal that spans several backends:
//! the order of the backends, which methods the sidebar offers, what the
//! other backends claim before the manual scan, and how a system component
//! is removed.

use vstd::prelude::*;

use crate::models::{AppInfo, BackendError, BackendStatus, InstallMethod};
use crate::system::distro::{DistroFamily, DistroInfo};
use crate::system::privilege::{describe_uninstall as describe_method, uninstall_description};
use crate::text::{copy_string, views};

verus! {

/// The backends in scan order: the distribution's own package manager
/// first (DNF on Fedora-like systems, else APT), then the other one,
/// Flatpak, Snap, AppImage and the manual scan.
pub open spec fn backend_order_for(family: DistroFamily) -> Seq<InstallMethod> {
    if family == DistroFamily::Fedora {
        seq![
            InstallMethod::Dnf,
            InstallMethod::Apt,
            InstallMethod::Flatpak,
            InstallMethod::Snap,
            InstallMethod::AppImage,
            InstallMethod::Manual,
        ]
    } else {
        seq![
            InstallMethod::Apt,
            InstallMethod::Dnf,
            InstallMethod::Flatpak,
            InstallMethod::Snap,
            InstallMethod::AppImage,
            InstallMethod::Manual,
        ]
    }
}

/// The backends of a distribution, in scan order.
pub fn backend_order(distro: &DistroInfo) -> (r: Vec<InstallMethod>)
    ensures
        r@ == backend_order_for(distro.family),
{
    let mut v: Vec<InstallMethod> = Vec::new();
    if distro.prefers_dnf() {
        v.push(InstallMethod::Dnf);
        v.push(InstallMethod::Apt);
    } else {
        v.push(InstallMethod::Apt);
        v.push(InstallMethod::Dnf);
    }
    v.push(InstallMethod::Flatpak);
    v.push(InstallMethod::Snap);
    v.push(InstallMethod::AppImage);
    v.push(InstallMethod::Manual);
    assert(v@ =~= backend_order_for(distro.family));
    v
}

/// The methods of the usable backends, in order, without `System`.
pub open spec fn usable_prefix(statuses: Seq<BackendStatus>) -> Seq<InstallMethod>
    decreases statuses.len(),
{
    if statuses.len() == 0 {
        Seq::empty()
    } else {
        let p = usable_prefix(statuses.drop_last());
        let s = statuses.last();
        if s.availability != crate::models::BackendAvailability::Unavailable && s.method
            != InstallMethod::System {
            p.push(s.method)
        } else {
            p
        }
    }
}

proof fn lemma_usable_prefix_no_system(statuses: Seq<BackendStatus>)
    ensures
        !usable_prefix(statuses).contains(InstallMethod::System),
    decreases statuses.len(),
{
    if statuses.len() > 0 {
        lemma_usable_prefix_no_system(statuses.drop_last());
        let p = usable_prefix(statuses.drop_last());
        assert forall|i: int| 0 <= i < usable_prefix(statuses).len() implies usable_prefix(
            statuses,
        )[i] != InstallMethod::System by {
            if i < p.len() {
                assert(usable_prefix(statuses)[i] == p[i]);
            }
        }
    }
}

/// The methods shown in the sidebar: those of the usable backends, in
/// order, then `System`, which is always shown.
pub fn usable_methods(statuses: &Vec<BackendStatus>) -> (r: Vec<InstallMethod>)
    ensures
        r@ == usable_prefix(statuses@).push(InstallMethod::System),
{
    let n = statuses.len();
    let mut methods: Vec<InstallMethod> = Vec::new();
    for i in 0..n
        invariant
            n == statuses@.len(),
            methods@ == usable_prefix(statuses@.take(i as int)),
    {
        assert(statuses@.take(i + 1).drop_last() =~= statuses@.take(i as int));
        let s = &statuses[i];
        let system = match s.method {
            InstallMethod::System => true,
            _ => false,
        };
        if s.is_usable() && !system {
            methods.push(s.method);
        }
    }
    assert(statuses@.take(n as int) =~= statuses@);
    proof {
        lemma_usable_prefix_no_system(statuses@);
    }
    let mut has_system = false;
    let m = methods.len();
    for j in 0..m
        invariant
            m == methods@.len(),
            methods@ == usable_prefix(statuses@),
            !usable_prefix(statuses@).contains(InstallMethod::System),
            !has_system,
            forall|k: int| 0 <= k < j ==> methods@[k] != InstallMethod::System,
    {
        match methods[j] {
            InstallMethod::System => {
                assert(methods@.contains(InstallMethod::System));
                has_system = true;
                break;
            },
            _ => {},
        }
    }
    if !has_system {
        methods.push(InstallMethod::System);
    }
    methods
}

/// What the other backends claim before the manual scan: the desktop ids
/// of their records, and as executables the package ids, install paths and
/// icon names.
pub open spec fn desktop_claims_of(apps: Seq<AppInfo>) -> Seq<Seq<char>>
    decreases apps.len(),
{
    if apps.len() == 0 {
        Seq::empty()
    } else {
        let p = desktop_claims_of(apps.drop_last());
        match apps.last().desktop_id {
            Some(d) => p.push(d@),
            None => p,
        }
    }
}

pub open spec fn exec_claims_of(apps: Seq<AppInfo>) -> Seq<Seq<char>>
    decreases apps.len(),
{
    if apps.len() == 0 {
        Seq::empty()
    } else {
        let a = apps.last();
        let p = exec_claims_of(apps.drop_last()).push(a.package_id@);
        let p = match a.install_path {
            Some(x) => p.push(x@),
            None => p,
        };
        match a.icon_name {
            Some(x) => p.push(x@),
            None => p,
        }
    }
}

/// The claims of the records found by the other backends.
pub fn collect_claims(apps: &Vec<AppInfo>) -> (r: (Vec<String>, Vec<String>))
    ensures
        views(r.0@) == desktop_claims_of(apps@),
        views(r.1@) == exec_claims_of(apps@),
{
    let n = apps.len();
    let mut desktop: Vec<String> = Vec::new();
    let mut exec: Vec<String> = Vec::new();
    for i in 0..n
        invariant
            n == apps@.len(),
            views(desktop@) == desktop_claims_of(apps@.take(i as int)),
            views(exec@) == exec_claims_of(apps@.take(i as int)),
    {
        assert(apps@.take(i + 1).drop_last() =~= apps@.take(i as int));
        let a = &apps[i];
        if let Some(d) = &a.desktop_id {
            let ghost before = views(desktop@);
            desktop.push(d.clone());
            assert(views(desktop@) =~= before.push(d@));
        }
        let ghost e0 = views(exec@);
        exec.push(a.package_id.clone());
        assert(views(exec@) =~= e0.push(a.package_id@));
        if let Some(p) = &a.install_path {
            let ghost e1 = views(exec@);
            exec.push(p.clone());
            assert(views(exec@) =~= e1.push(p@));
        }
        if let Some(ic) = &a.icon_name {
            let ghost e2 = views(exec@);
            exec.push(ic.clone());
            assert(views(exec@) =~= e2.push(ic@));
        }
    }
    assert(apps@.take(n as int) =~= apps@);
    (desktop, exec)
}

/// The backends tried, in order, to remove a system component.
pub open spec fn system_removal_order() -> Seq<InstallMethod> {
    seq![InstallMethod::Apt, InstallMethod::Dnf, InstallMethod::Manual]
}

pub fn system_removal_methods() -> (r: Vec<InstallMethod>)
    ensures
        r@ == system_removal_order(),
{
    let v = vec![InstallMethod::Apt, InstallMethod::Dnf, InstallMethod::Manual];
    assert(v@ =~= system_removal_order());
    v
}

/// Whether a backend is asked to remove a system component: the manual
/// backend always, the others when their tool is available.
pub fn tries_system_removal(method: InstallMethod, available: bool) -> (r: bool)
    ensures
        r == (method == InstallMethod::Manual || available),
{
    match method {
        InstallMethod::Manual => true,
        _ => available,
    }
}

/// Whether the removal of a system component goes on with the next backend
/// after this error: it does when the backend cannot handle the package
/// (`Unsupported`, `Unavailable`, `NotFound`); any other error ends it.
pub fn moves_to_next_backend(e: &BackendError) -> (r: bool)
    ensures
        r == (e is Unsupported || e is Unavailable || e is NotFound),
{
    match e {
        BackendError::Unsupported(_) | BackendError::Unavailable | BackendError::NotFound(_) => true,
        _ => false,
    }
}

/// The error when no backend could remove a system component.
pub fn system_removal_failed() -> (r: BackendError)
    ensures
        r matches BackendError::Unsupported(s) && s@
            == "Não foi possível remover este componente do sistema pelo FindApps"@,
{
    BackendError::Unsupported(
        copy_string("Não foi possível remover este componente do sistema pelo FindApps"),
    )
}

/// The description shown before removing an application.
pub fn describe_uninstall(app: &AppInfo) -> (r: String)
    ensures
        r@ == uninstall_description(app.method, app.package_id@, app.name@),
{
    describe_method(app.method, app.package_id.as_str(), app.name.as_str())
}

/// Adds a method to the sidebar's methods unless it is already there.
pub fn add_method(methods: &mut Vec<InstallMethod>, method: InstallMethod)
    ensures
        old(methods)@.contains(method) ==> final(methods)@ == old(methods)@,
        !old(methods)@.contains(method) ==> final(methods)@ == old(methods)@.push(method),
{
    let n = methods.len();
    for i in 0..n
        invariant
            n == methods@.len(),
            forall|j: int| 0 <= j < i ==> methods@[j] != method,
    {
        if methods[i] == method {
            assert(methods@[i as int] == method);
            return;
        }
    }
    methods.push(method);
}

// ---------------------------------------------------------------------------
// Progress of a scan.
// ---------------------------------------------------------------------------

/// What a scan reports while it runs.
#[derive(Debug, Clone)]
pub enum ScanEvent {
    BackendStarted(InstallMethod),
    BackendFinished {
        method: InstallMethod,
        status: BackendStatus,
        count: usize,
        error: Option<String>,
    },
    AppsFound(Vec<AppInfo>),
    /// The final list, after de-duplication, classification and icons.
    FinalApps(Vec<AppInfo>),
    Completed,
}

fn copy_apps(v: &Vec<AppInfo>) -> (r: Vec<AppInfo>)
    ensures
        r@ == v@,
{
    let n = v.len();
    let mut out: Vec<AppInfo> = Vec::new();
    for i in 0..n
        invariant
            n == v@.len(),
            out@ == v@.take(i as int),
    {
        out.push(v[i].clone());
        assert(out@ =~= v@.take(i + 1));
    }
    assert(v@.take(n as int) =~= v@);
    out
}

/// The events that close one backend's part of a scan, and the
/// applications it contributes. `listing` is `None` when the backend was
/// not usable and so not listed; otherwise it is the listing, or the
/// message of the error that stopped it.
pub fn backend_finished(
    method: InstallMethod,
    status: BackendStatus,
    listing: Option<Result<Vec<AppInfo>, String>>,
) -> (r: (Vec<ScanEvent>, Vec<AppInfo>))
    ensures
        listing is None ==> r.0@ == seq![
            ScanEvent::BackendFinished { method, status, count: 0, error: None },
        ] && r.1@.len() == 0,
        listing matches Some(Ok(v)) ==> r.0@ == seq![
            ScanEvent::AppsFound(v),
            ScanEvent::BackendFinished { method, status, count: v.len(), error: None },
        ] && r.1@ == v@,
        listing matches Some(Err(msg)) ==> r.0@ == seq![
            ScanEvent::BackendFinished { method, status, count: 0, error: Some(msg) },
        ] && r.1@.len() == 0,
{
    let mut events: Vec<ScanEvent> = Vec::new();
    match listing {
        None => {
            events.push(ScanEvent::BackendFinished { method, status, count: 0, error: None });
            (events, Vec::new())
        },
        Some(Ok(apps)) => {
            let count = apps.len();
            let kept = copy_apps(&apps);
            let ghost v = apps;
            events.push(ScanEvent::AppsFound(apps));
            events.push(ScanEvent::BackendFinished { method, status, count, error: None });
            assert(events@ =~= seq![
                ScanEvent::AppsFound(v),
                ScanEvent::BackendFinished { method, status, count: v.len(), error: None },
            ]);
            (events, kept)
        },
        Some(Err(msg)) => {
            events.push(
                ScanEvent::BackendFinished { method, status, count: 0, error: Some(msg) },
            );
            (events, Vec::new())
        },
    }
}

/// How the interface shows one backend's scan.
#[derive(Debug, Clone, Copy, PartialEq, Eq, Hash, Structural)]
pub enum ScanUiStatus {
    Pending,
    Running,
    Done,
    Failed,
    Skipped,
}

/// The mark of a finished backend: failed when it reported an error, done
/// when it was usable, skipped otherwise.
pub fn finished_ui_status(usable: bool, failed: bool) -> (r: ScanUiStatus)
    ensures
        r == (if failed {
            ScanUiStatus::Failed
        } else if usable {
            ScanUiStatus::Done
        } else {
            ScanUiStatus::Skipped
        }),
{
    if failed {
        ScanUiStatus::Failed
    } else if usable {
        ScanUiStatus::Done
    } else {
        ScanUiStatus::Skipped
    }
}

/// Whether some record of `s` has the id.
pub open spec fn holds_id(s: Seq<AppInfo>, id: Seq<char>) -> bool {
    exists|i: int| 0 <= i < s.len() && (#[trigger] s[i]).id@ == id
}

/// The records in order, each id kept at its first record only.
pub open spec fn first_by_id(s: Seq<AppInfo>) -> Seq<AppInfo>
    decreases s.len(),
{
    if s.len() == 0 {
        s
    } else {
        let p = first_by_id(s.drop_last());
        if holds_id(p, s.last().id@) {
            p
        } else {
            p.push(s.last())
        }
    }
}

/// The applications known while a scan runs, after more were found: the
/// known ones then the new ones, each id at its first record only.
pub fn merge_found(cache: &mut Vec<AppInfo>, apps: Vec<AppInfo>)
    ensures
        final(cache)@ == first_by_id(old(cache)@ + apps@),
{
    let mut all: Vec<AppInfo> = Vec::new();
    std::mem::swap(&mut all, cache);
    let mut more = apps;
    all.append(&mut more);
    let ghost s = all@;
    let n = all.len();
    let mut out: Vec<AppInfo> = Vec::new();
    for i in 0..n
        invariant
            n == all@.len(),
            s == all@,
            out@ == first_by_id(s.take(i as int)),
    {
        assert(s.take(i + 1).drop_last() =~= s.take(i as int));
        let a = &all[i];
        let mut seen = false;
        let m = out.len();
        for j in 0..m
            invariant
                m == out@.len(),
                seen == exists|k: int| 0 <= k < j && (#[trigger] out@[k]).id@ == a.id@,
        {
            if crate::text::str_eq(out[j].id.as_str(), a.id.as_str()) {
                seen = true;
            }
        }
        if !seen {
            out.push(a.clone());
        }
    }
    assert(s.take(n as int) =~= s);
    *cache = out;
}

} // verus!
