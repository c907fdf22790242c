//! An in-memory backend for tests: a fixed list of applications that can
//! be listed, looked up and removed.

use std::collections::HashMap;

use vstd::prelude::*;

use crate::backends::{
    install_not_supported, installed_pos, no_updates, pick_installed, update_not_supported,
};
use crate::catalog::Msg;
use crate::i18n::Language;
use crate::models::{
    status_message, AppInfo, BackendAvailability, BackendError, BackendResult, BackendStatus,
    InstallMethod, UpdateInfo,
};
use crate::text::{copy_string, str_eq};

verus! {

/// A backend whose applications live in memory.
pub struct MockBackend {
    method: InstallMethod,
    available: bool,
    apps: Vec<AppInfo>,
    fail_uninstall: bool,
    permission_denied: bool,
}

/// The records that have neither the package id nor the internal id `id`.
pub open spec fn without_key(apps: Seq<AppInfo>, id: Seq<char>) -> Seq<AppInfo>
    decreases apps.len(),
{
    if apps.len() == 0 {
        apps
    } else {
        let rest = without_key(apps.drop_last(), id);
        let a = apps.last();
        if a.package_id@ != id && a.id@ != id {
            rest.push(a)
        } else {
            rest
        }
    }
}

proof fn lemma_without_key_len(apps: Seq<AppInfo>, id: Seq<char>)
    ensures
        without_key(apps, id).len() <= apps.len(),
        without_key(apps, id).len() == apps.len() ==> without_key(apps, id) == apps,
    decreases apps.len(),
{
    if apps.len() > 0 {
        lemma_without_key_len(apps.drop_last(), id);
        if without_key(apps, id).len() == apps.len() {
            assert(without_key(apps.drop_last(), id).len() == apps.len() - 1);
            assert(apps.drop_last().push(apps.last()) =~= apps);
        }
    }
}

impl MockBackend {
    pub closed spec fn method(&self) -> InstallMethod {
        self.method
    }

    pub closed spec fn available(&self) -> bool {
        self.available
    }

    pub closed spec fn apps(&self) -> Seq<AppInfo> {
        self.apps@
    }

    pub closed spec fn denies_permission(&self) -> bool {
        self.permission_denied
    }

    pub closed spec fn fails_uninstall(&self) -> bool {
        self.fail_uninstall
    }

    /// An empty backend for `method`, available or not.
    pub fn new(method: InstallMethod, available: bool) -> (r: Self)
        ensures
            r.method() == method,
            r.available() == available,
            r.apps() == Seq::<AppInfo>::empty(),
            !r.denies_permission(),
            !r.fails_uninstall(),
    {
        MockBackend {
            method,
            available,
            apps: Vec::new(),
            fail_uninstall: false,
            permission_denied: false,
        }
    }

    /// An available backend holding `apps`.
    pub fn with_apps(method: InstallMethod, apps: Vec<AppInfo>) -> (r: Self)
        ensures
            r.method() == method,
            r.available(),
            r.apps() == apps@,
            !r.denies_permission(),
            !r.fails_uninstall(),
    {
        MockBackend { method, available: true, apps, fail_uninstall: false, permission_denied: false }
    }

    /// The same backend, refusing every removal for lack of permission.
    pub fn with_permission_denied(self) -> (r: Self)
        ensures
            r.method() == self.method(),
            r.available() == self.available(),
            r.apps() == self.apps(),
            r.denies_permission(),
            r.fails_uninstall() == self.fails_uninstall(),
    {
        let mut s = self;
        s.permission_denied = true;
        s
    }

    /// Adds an application.
    pub fn add_app(&mut self, app: AppInfo)
        ensures
            final(self).apps() == old(self).apps().push(app),
            final(self).method() == old(self).method(),
            final(self).available() == old(self).available(),
            final(self).denies_permission() == old(self).denies_permission(),
            final(self).fails_uninstall() == old(self).fails_uninstall(),
    {
        self.apps.push(app);
    }

    pub fn id(&self) -> (r: InstallMethod)
        ensures
            r == self.method(),
    {
        self.method
    }

    pub fn is_available(&self) -> (r: bool)
        ensures
            r == self.available(),
    {
        self.available
    }

    /// Available with version `mock`, or unavailable.
    pub fn detect(&self, lang: Language) -> (r: BackendStatus)
        ensures
            r.method == self.method(),
            self.available() ==> r.availability == BackendAvailability::Available
                && crate::text::opt_view(r.version) == Some("mock"@) && r.message@
                == status_message(lang, Msg::BackendAvailable, self.method()),
            !self.available() ==> r.availability == BackendAvailability::Unavailable
                && r.version is None && r.message@ == status_message(
                lang,
                Msg::BackendUnavailable,
                self.method(),
            ),
    {
        if self.available {
            BackendStatus::available(self.method, Some(copy_string("mock")), lang)
        } else {
            BackendStatus::unavailable(self.method, lang)
        }
    }

    /// The applications, or `Unavailable`.
    pub fn list_installed(&self) -> (r: BackendResult<Vec<AppInfo>>)
        ensures
            self.available() ==> (r matches Ok(v) && v@ == self.apps()),
            !self.available() ==> r matches Err(BackendError::Unavailable),
    {
        if !self.available {
            return Err(BackendError::Unavailable);
        }
        let n = self.apps.len();
        let mut out: Vec<AppInfo> = Vec::new();
        for i in 0..n
            invariant
                n == self.apps@.len(),
                out@ == self.apps@.take(i as int),
        {
            out.push(self.apps[i].clone());
            assert(out@ =~= self.apps@.take(i + 1));
        }
        assert(self.apps@.take(n as int) =~= self.apps@);
        Ok(out)
    }

    /// The first application with the package id or internal id, or
    /// `NotFound`.
    pub fn get_details(&self, id: &str) -> (r: BackendResult<AppInfo>)
        ensures
            installed_pos(self.apps(), id@, true) >= 0 ==> r == Ok::<AppInfo, BackendError>(
                self.apps()[installed_pos(self.apps(), id@, true)],
            ),
            installed_pos(self.apps(), id@, true) < 0 ==> (r matches Err(
                BackendError::NotFound(s),
            ) && s@ == id@),
    {
        let n = self.apps.len();
        let mut copy: Vec<AppInfo> = Vec::new();
        for i in 0..n
            invariant
                n == self.apps@.len(),
                copy@ == self.apps@.take(i as int),
        {
            copy.push(self.apps[i].clone());
            assert(copy@ =~= self.apps@.take(i + 1));
        }
        assert(self.apps@.take(n as int) =~= self.apps@);
        pick_installed(copy, id, true)
    }

    /// Installing is not offered yet, as for every backend.
    pub fn install(&self, _id: &str) -> (r: BackendResult<()>)
        ensures
            r matches Err(BackendError::Unsupported(s)) && s@
                == "Instalação será implementada em versões futuras"@,
    {
        install_not_supported()
    }

    /// Updating is not offered yet, as for every backend.
    pub fn update(&self, _id: &str) -> (r: BackendResult<()>)
        ensures
            r matches Err(BackendError::Unsupported(s)) && s@
                == "Atualização será implementada em versões futuras"@,
    {
        update_not_supported()
    }

    /// No update is reported yet, as for every backend.
    pub fn check_updates(&self) -> (r: BackendResult<Vec<UpdateInfo>>)
        ensures
            r matches Ok(v) && v@.len() == 0,
    {
        no_updates()
    }

    /// Removes the applications with the package id or internal id:
    /// refused when permission is denied, failing when the backend fails,
    /// `NotFound` when none has it.
    pub fn uninstall(&mut self, id: &str) -> (r: BackendResult<()>)
        ensures
            final(self).method() == old(self).method(),
            final(self).available() == old(self).available(),
            final(self).denies_permission() == old(self).denies_permission(),
            final(self).fails_uninstall() == old(self).fails_uninstall(),
            old(self).denies_permission() ==> (r matches Err(BackendError::PermissionDenied(s))
                && s@ == "mock"@ && final(self).apps() == old(self).apps()),
            !old(self).denies_permission() && old(self).fails_uninstall() ==> (r matches Err(
                BackendError::CommandFailed(s),
            ) && s@ == "mock fail"@ && final(self).apps() == old(self).apps()),
            !old(self).denies_permission() && !old(self).fails_uninstall() ==> (if without_key(
                old(self).apps(),
                id@,
            ).len() == old(self).apps().len() {
                r matches Err(BackendError::NotFound(s)) && s@ == id@ && final(self).apps()
                    == old(self).apps()
            } else {
                r is Ok && final(self).apps() == without_key(old(self).apps(), id@)
            }),
    {
        if self.permission_denied {
            return Err(BackendError::PermissionDenied(copy_string("mock")));
        }
        if self.fail_uninstall {
            return Err(BackendError::CommandFailed(copy_string("mock fail")));
        }
        let ghost orig = self.apps@;
        let before = self.apps.len();
        let mut kept: Vec<AppInfo> = Vec::new();
        let mut rest: Vec<AppInfo> = Vec::new();
        std::mem::swap(&mut rest, &mut self.apps);
        let mut k: usize = 0;
        assert(orig.take(0) =~= Seq::<AppInfo>::empty());
        while rest.len() > 0
            invariant
                k + rest@.len() == orig.len(),
                before == orig.len(),
                rest@ == orig.skip(k as int),
                kept@ == without_key(orig.take(k as int), id@),
            decreases rest@.len(),
        {
            let a = rest.remove(0);
            assert(a == orig[k as int]);
            assert(orig.skip(k as int).remove(0) =~= orig.skip(k + 1));
            assert(orig.take(k + 1).drop_last() =~= orig.take(k as int));
            if !str_eq(a.package_id.as_str(), id) && !str_eq(a.id.as_str(), id) {
                kept.push(a);
            }
            k = k + 1;
        }
        assert(orig.take(k as int) =~= orig);
        proof {
            lemma_without_key_len(orig, id@);
        }
        let removed = kept.len() != before;
        self.apps = kept;
        if !removed {
            return Err(BackendError::NotFound(copy_string(id)));
        }
        Ok(())
    }
}

/// After a removal by `id`, no application with that package id or
/// internal id is left, and every other application is still there.
pub proof fn lemma_uninstall_removes(apps: Seq<AppInfo>, id: Seq<char>)
    ensures
        forall|k: int|
            #![trigger without_key(apps, id)[k]]
            0 <= k < without_key(apps, id).len() ==> without_key(apps, id)[k].package_id@ != id
                && without_key(apps, id)[k].id@ != id,
        forall|k: int|
            0 <= k < apps.len() && apps[k].package_id@ != id && apps[k].id@ != id
                ==> without_key(apps, id).contains(#[trigger] apps[k]),
    decreases apps.len(),
{
    if apps.len() > 0 {
        let t = apps.drop_last();
        lemma_uninstall_removes(t, id);
        let w = without_key(apps, id);
        let wt = without_key(t, id);
        assert forall|k: int| 0 <= k < w.len() implies #[trigger] w[k].package_id@ != id && w[k].id@ != id by {
            if k < wt.len() {
                assert(w[k] == wt[k]);
            }
        }
        assert forall|k: int| 0 <= k < apps.len() && apps[k].package_id@ != id && apps[k].id@ != id implies w.contains(
            #[trigger] apps[k],
        ) by {
            if k < t.len() {
                assert(apps[k] == t[k]);
                assert(wt.contains(t[k]));
                let j = choose|j: int| 0 <= j < wt.len() && wt[j] == t[k];
                assert(w[j] == wt[j]);
            } else {
                assert(w[w.len() - 1] == apps.last());
            }
        }
    }
}

/// A registry of mock backends by method, empty to begin with.
pub fn mock_registry() -> (r: HashMap<InstallMethod, MockBackend>)
    ensures
        r@ == Map::<InstallMethod, MockBackend>::empty(),
{
    HashMap::new()
}

} // verus!
