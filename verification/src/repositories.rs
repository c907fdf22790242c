//! In-memory repository of the applications found by a scan.

use vstd::prelude::*;

use crate::i18n::Language;
use crate::models::{filter_accepts, query_matches, AppFilter, AppInfo, InstallMethod, SortBy};
use crate::sorting::{is_sorted_by, lemma_sorted_by, sort_apps, sorted_by};
use crate::text::{contains_seq, lowercase, str_eq};

verus! {

/// No two records share an id.
pub open spec fn ids_unique(s: Seq<AppInfo>) -> bool {
    forall|i: int, j: int| 0 <= i < s.len() && 0 <= j < s.len() && i != j ==> s[i].id@ != s[j].id@
}

/// Whether some record has the id.
pub open spec fn has_id(s: Seq<AppInfo>, id: Seq<char>) -> bool {
    exists|k: int| 0 <= k < s.len() && s[k].id@ == id
}

/// `k` is the first position of a record with the id.
pub open spec fn is_first_with_id(s: Seq<AppInfo>, id: Seq<char>, k: int) -> bool {
    &&& 0 <= k < s.len()
    &&& s[k].id@ == id
    &&& forall|j: int| 0 <= j < k ==> s[j].id@ != id
}

/// The position of the first record with the id (meaningful when `has_id`).
pub open spec fn first_with_id(s: Seq<AppInfo>, id: Seq<char>) -> int {
    choose|k: int| is_first_with_id(s, id, k)
}

/// The first record with the id, if any.
pub open spec fn lookup(s: Seq<AppInfo>, id: Seq<char>) -> Option<AppInfo> {
    if has_id(s, id) {
        Some(s[first_with_id(s, id)])
    } else {
        None
    }
}

/// `a` replaces the first record with its id, or is appended.
pub open spec fn upsert(s: Seq<AppInfo>, a: AppInfo) -> Seq<AppInfo> {
    if has_id(s, a.id@) {
        s.update(first_with_id(s, a.id@), a)
    } else {
        s.push(a)
    }
}

/// The records after upserting each new record in order.
pub open spec fn extend_all(s: Seq<AppInfo>, new: Seq<AppInfo>) -> Seq<AppInfo>
    decreases new.len(),
{
    if new.len() == 0 {
        s
    } else {
        upsert(extend_all(s, new.drop_last()), new.last())
    }
}

/// The records whose id differs from `id`, in order.
pub open spec fn without_id(s: Seq<AppInfo>, id: Seq<char>) -> Seq<AppInfo>
    decreases s.len(),
{
    if s.len() == 0 {
        s
    } else {
        let p = without_id(s.drop_last(), id);
        if s.last().id@ == id {
            p
        } else {
            p.push(s.last())
        }
    }
}

pub open spec fn count_method(s: Seq<AppInfo>, m: InstallMethod) -> nat
    decreases s.len(),
{
    if s.len() == 0 {
        0
    } else {
        count_method(s.drop_last(), m) + if s.last().method == m {
            1nat
        } else {
            0nat
        }
    }
}

pub open spec fn size_of_method(a: AppInfo, m: InstallMethod) -> nat {
    if a.method == m {
        match a.size_bytes {
            Some(b) => b as nat,
            None => 0,
        }
    } else {
        0
    }
}

/// Total known size of the records installed by `m`.
pub open spec fn total_size(s: Seq<AppInfo>, m: InstallMethod) -> nat
    decreases s.len(),
{
    if s.len() == 0 {
        0
    } else {
        total_size(s.drop_last(), m) + size_of_method(s.last(), m)
    }
}

/// The records shown by a filter and a search query, in order.
pub open spec fn filtered(
    s: Seq<AppInfo>,
    f: AppFilter,
    query: Seq<char>,
    lang: Language,
) -> Seq<AppInfo>
    decreases s.len(),
{
    if s.len() == 0 {
        s
    } else {
        let p = filtered(s.drop_last(), f, query, lang);
        if filter_accepts(f, s.last().method) && query_matches(s.last(), lang, query) {
            p.push(s.last())
        } else {
            p
        }
    }
}

/// The list shown for a filter, a search query and a sort order.
pub open spec fn query_result(
    s: Seq<AppInfo>,
    f: AppFilter,
    query: Seq<char>,
    by: SortBy,
    lang: Language,
) -> Seq<AppInfo> {
    sorted_by(filtered(s, f, query, lang), by)
}

/// The applications of the last scan, at most one record per id.
pub struct AppRepository {
    apps: Vec<AppInfo>,
}

impl View for AppRepository {
    type V = Seq<AppInfo>;

    closed spec fn view(&self) -> Seq<AppInfo> {
        self.apps@
    }
}

fn position_of(apps: &Vec<AppInfo>, id: &str) -> (r: Option<usize>)
    ensures
        r matches Some(k) ==> is_first_with_id(apps@, id@, k as int),
        r is None ==> !has_id(apps@, id@),
{
    let n = apps.len();
    for i in 0..n
        invariant
            n == apps@.len(),
            forall|j: int| 0 <= j < i ==> apps@[j].id@ != id@,
    {
        if str_eq(apps[i].id.as_str(), id) {
            return Some(i);
        }
    }
    None
}

proof fn lemma_first_with_id(s: Seq<AppInfo>, id: Seq<char>, k: int)
    requires
        is_first_with_id(s, id, k),
    ensures
        has_id(s, id),
        first_with_id(s, id) == k,
{
    let c = first_with_id(s, id);
    assert(is_first_with_id(s, id, c));
    if c < k {
        assert(s[c].id@ == id);
    } else if c > k {
        assert(s[k].id@ == id);
    }
}

proof fn lemma_has_id_first(s: Seq<AppInfo>, id: Seq<char>)
    requires
        has_id(s, id),
    ensures
        is_first_with_id(s, id, first_with_id(s, id)),
    decreases s.len(),
{
    let k = choose|k: int| 0 <= k < s.len() && s[k].id@ == id;
    lemma_first_exists(s, id, k);
}

proof fn lemma_first_exists(s: Seq<AppInfo>, id: Seq<char>, k: int)
    requires
        0 <= k < s.len(),
        s[k].id@ == id,
    ensures
        exists|f: int| is_first_with_id(s, id, f),
    decreases k,
{
    if exists|j: int| 0 <= j < k && s[j].id@ == id {
        let j = choose|j: int| 0 <= j < k && s[j].id@ == id;
        lemma_first_exists(s, id, j);
    } else {
        assert(is_first_with_id(s, id, k));
    }
}

/// Upserting keeps ids unique.
proof fn lemma_upsert_unique(s: Seq<AppInfo>, a: AppInfo)
    requires
        ids_unique(s),
    ensures
        ids_unique(upsert(s, a)),
{
    if has_id(s, a.id@) {
        lemma_has_id_first(s, a.id@);
    }
}

impl AppRepository {
    #[verifier::type_invariant]
    spec fn inv(self) -> bool {
        ids_unique(self.apps@)
    }

    /// An empty repository.
    pub fn new() -> (r: Self)
        ensures
            r@ == Seq::<AppInfo>::empty(),
    {
        AppRepository { apps: Vec::new() }
    }

    /// Removes every record.
    pub fn clear(&mut self)
        ensures
            final(self)@ == Seq::<AppInfo>::empty(),
    {
        self.apps = Vec::new();
    }

    /// Adds the records in order; a record replaces the one with its id.
    pub fn extend(&mut self, new_apps: Vec<AppInfo>)
        ensures
            final(self)@ == extend_all(old(self)@, new_apps@),
            ids_unique(final(self)@),
    {
        proof {
            use_type_invariant(&*self);
        }
        let mut apps: Vec<AppInfo> = Vec::new();
        std::mem::swap(&mut apps, &mut self.apps);
        let ghost start = apps@;
        let ghost orig = new_apps@;
        let mut rest = new_apps;
        let n = rest.len();
        let mut k: usize = 0;
        assert(orig.skip(0) =~= orig);
        assert(orig.take(0) =~= Seq::<AppInfo>::empty());
        while k < n
            invariant
                k <= n == orig.len(),
                rest@ == orig.skip(k as int),
                apps@ == extend_all(start, orig.take(k as int)),
                ids_unique(apps@),
            decreases n - k,
        {
            let app = rest.remove(0);
            assert(app == orig[k as int]);
            assert(orig.skip(k as int).remove(0) =~= orig.skip(k + 1));
            assert(orig.take(k + 1).drop_last() =~= orig.take(k as int));
            proof {
                lemma_upsert_unique(apps@, app);
            }
            match position_of(&apps, app.id.as_str()) {
                Some(i) => {
                    proof {
                        lemma_first_with_id(apps@, app.id@, i as int);
                    }
                    apps.set(i, app);
                },
                None => {
                    apps.push(app);
                },
            }
            k = k + 1;
        }
        assert(orig.take(n as int) =~= orig);
        self.apps = apps;
    }

    /// Removes the record with the id, if any.
    pub fn remove_by_id(&mut self, id: &str)
        ensures
            final(self)@ == without_id(old(self)@, id@),
    {
        proof {
            use_type_invariant(&*self);
        }
        let mut apps: Vec<AppInfo> = Vec::new();
        std::mem::swap(&mut apps, &mut self.apps);
        let ghost orig = apps@;
        remove_apps_with_id(&mut apps, id);
        proof {
            lemma_without_id_unique(orig, id@);
        }
        self.apps = apps;
    }

    /// Copies of every record, in order.
    pub fn all(&self) -> (r: Vec<AppInfo>)
        ensures
            r@ == self@,
    {
        let n = self.apps.len();
        let mut out: Vec<AppInfo> = Vec::new();
        for i in 0..n
            invariant
                n == self.apps@.len(),
                out@ == self.apps@.take(i as int),
        {
            out.push(self.apps[i].clone());
            assert(out@ =~= self.apps@.take(i + 1));
        }
        assert(self.apps@.take(n as int) =~= self.apps@);
        out
    }

    /// A copy of the record with the id.
    pub fn get(&self, id: &str) -> (r: Option<AppInfo>)
        ensures
            r == lookup(self@, id@),
    {
        match position_of(&self.apps, id) {
            Some(i) => {
                proof {
                    lemma_first_with_id(self.apps@, id@, i as int);
                }
                Some(self.apps[i].clone())
            },
            None => None,
        }
    }

    /// Number of records.
    pub fn count(&self) -> (r: usize)
        ensures
            r == self@.len(),
    {
        self.apps.len()
    }

    /// Number of records installed by `method`.
    pub fn count_by_method(&self, method: InstallMethod) -> (r: usize)
        ensures
            r == count_method(self@, method),
    {
        count_apps_by_method(&self.apps, method)
    }

    /// Total known size of the records installed by `method`.
    pub fn size_by_method(&self, method: InstallMethod) -> (r: u64)
        requires
            total_size(self@, method) <= u64::MAX,
        ensures
            r == total_size(self@, method),
    {
        let n = self.apps.len();
        let mut total: u64 = 0;
        for i in 0..n
            invariant
                n == self.apps@.len(),
                total_size(self.apps@, method) <= u64::MAX,
                total == total_size(self.apps@.take(i as int), method),
        {
            assert(self.apps@.take(i + 1).drop_last() =~= self.apps@.take(i as int));
            proof {
                lemma_total_size_prefix(self.apps@, method, i + 1);
            }
            if self.apps[i].method == method {
                match self.apps[i].size_bytes {
                    Some(b) => {
                        total = total + b;
                    },
                    None => {},
                }
            }
        }
        assert(self.apps@.take(n as int) =~= self.apps@);
        total
    }

    /// Total known size of the records installed by `method`, or `None`
    /// when it does not fit in a `u64`.
    pub fn size_by_method_checked(&self, method: InstallMethod) -> (r: Option<u64>)
        ensures
            total_size(self@, method) <= u64::MAX ==> r == Some(total_size(self@, method) as u64),
            total_size(self@, method) > u64::MAX ==> r is None,
    {
        apps_size_by_method(&self.apps, method)
    }

    /// The records shown for a filter and a search query, sorted.
    pub fn query(&self, filter: &AppFilter, search: &str, sort: SortBy, lang: Language) -> (r:
        Vec<AppInfo>)
        ensures
            r@ == query_result(self@, *filter, search@, sort, lang),
    {
        let n = self.apps.len();
        let mut out: Vec<AppInfo> = Vec::new();
        for i in 0..n
            invariant
                n == self.apps@.len(),
                out@ == filtered(self.apps@.take(i as int), *filter, search@, lang),
        {
            assert(self.apps@.take(i + 1).drop_last() =~= self.apps@.take(i as int));
            let a = &self.apps[i];
            if filter.matches_method(a.method) && a.matches_query(search, lang) {
                out.push(a.clone());
            }
        }
        assert(self.apps@.take(n as int) =~= self.apps@);
        sort_apps(out, sort)
    }
}

proof fn lemma_total_size_prefix(s: Seq<AppInfo>, m: InstallMethod, k: int)
    requires
        0 <= k <= s.len(),
    ensures
        total_size(s.take(k), m) <= total_size(s, m),
    decreases s.len() - k,
{
    if k < s.len() {
        assert(s.take(k + 1).drop_last() =~= s.take(k));
        lemma_total_size_prefix(s, m, k + 1);
    } else {
        assert(s.take(k) =~= s);
    }
}

// ---------------------------------------------------------------------------
// The same operations on a plain list of records.
// ---------------------------------------------------------------------------

/// Removes from a list every record with the id.
pub fn remove_apps_with_id(apps: &mut Vec<AppInfo>, id: &str)
    ensures
        final(apps)@ == without_id(old(apps)@, id@),
{
    let mut rest: Vec<AppInfo> = Vec::new();
    std::mem::swap(&mut rest, apps);
    let ghost orig = rest@;
    let n = rest.len();
    let mut kept: Vec<AppInfo> = Vec::new();
    let mut k: usize = 0;
    assert(orig.skip(0) =~= orig);
    while k < n
        invariant
            k <= n == orig.len(),
            rest@ == orig.skip(k as int),
            kept@ == without_id(orig.take(k as int), id@),
        decreases n - k,
    {
        let a = rest.remove(0);
        assert(a == orig[k as int]);
        assert(orig.skip(k as int).remove(0) =~= orig.skip(k + 1));
        assert(orig.take(k + 1).drop_last() =~= orig.take(k as int));
        if !str_eq(a.id.as_str(), id) {
            kept.push(a);
        }
        k = k + 1;
    }
    assert(orig.take(n as int) =~= orig);
    *apps = kept;
}

/// Number of records of a list installed by `method`.
pub fn count_apps_by_method(apps: &Vec<AppInfo>, method: InstallMethod) -> (r: usize)
    ensures
        r == count_method(apps@, method),
{
    let n = apps.len();
    let mut c: usize = 0;
    for i in 0..n
        invariant
            n == apps@.len(),
            c == count_method(apps@.take(i as int), method),
            c <= i,
    {
        assert(apps@.take(i + 1).drop_last() =~= apps@.take(i as int));
        if apps[i].method == method {
            c = c + 1;
        }
    }
    assert(apps@.take(n as int) =~= apps@);
    c
}

/// Total known size of the records of a list installed by `method`, or
/// `None` when it does not fit in a `u64`.
pub fn apps_size_by_method(apps: &Vec<AppInfo>, method: InstallMethod) -> (r: Option<u64>)
    ensures
        total_size(apps@, method) <= u64::MAX ==> r == Some(total_size(apps@, method) as u64),
        total_size(apps@, method) > u64::MAX ==> r is None,
{
    let n = apps.len();
    let mut total: u64 = 0;
    for i in 0..n
        invariant
            n == apps@.len(),
            total == total_size(apps@.take(i as int), method),
    {
        assert(apps@.take(i + 1).drop_last() =~= apps@.take(i as int));
        proof {
            lemma_total_size_prefix(apps@, method, i + 1);
        }
        if apps[i].method == method {
            match apps[i].size_bytes {
                Some(b) => {
                    match total.checked_add(b) {
                        Some(t) => {
                            total = t;
                        },
                        None => {
                            return None;
                        },
                    }
                },
                None => {},
            }
        }
    }
    assert(apps@.take(n as int) =~= apps@);
    Some(total)
}

// ---------------------------------------------------------------------------
// Laws of the repository.
// ---------------------------------------------------------------------------

/// The last record with the id among `new`, if any.
pub open spec fn last_with_id(new: Seq<AppInfo>, id: Seq<char>) -> Option<AppInfo>
    decreases new.len(),
{
    if new.len() == 0 {
        None
    } else if new.last().id@ == id {
        Some(new.last())
    } else {
        last_with_id(new.drop_last(), id)
    }
}

/// With unique ids, the record found for an id is the one at its position.
proof fn lemma_lookup_unique(s: Seq<AppInfo>, id: Seq<char>, k: int)
    requires
        ids_unique(s),
        0 <= k < s.len(),
        s[k].id@ == id,
    ensures
        lookup(s, id) == Some(s[k]),
{
    assert(is_first_with_id(s, id, k));
    lemma_first_with_id(s, id, k);
}

/// Reading an id after one upsert: the upserted record for its own id, the
/// earlier answer for any other id.
proof fn lemma_lookup_upsert(s: Seq<AppInfo>, a: AppInfo, id: Seq<char>)
    requires
        ids_unique(s),
    ensures
        lookup(upsert(s, a), id) == (if a.id@ == id {
            Some(a)
        } else {
            lookup(s, id)
        }),
{
    lemma_upsert_unique(s, a);
    let t = upsert(s, a);
    if has_id(s, a.id@) {
        lemma_has_id_first(s, a.id@);
        let p = first_with_id(s, a.id@);
        if a.id@ == id {
            lemma_lookup_unique(t, id, p);
        } else if has_id(s, id) {
            lemma_has_id_first(s, id);
            let q = first_with_id(s, id);
            assert(q != p);
            lemma_lookup_unique(t, id, q);
        } else {
            assert(!has_id(t, id)) by {
                if has_id(t, id) {
                    let k = choose|k: int| 0 <= k < t.len() && t[k].id@ == id;
                    assert(k != p);
                    assert(s[k].id@ == id);
                }
            }
        }
    } else {
        if a.id@ == id {
            lemma_lookup_unique(t, id, s.len() as int);
        } else if has_id(s, id) {
            lemma_has_id_first(s, id);
            let q = first_with_id(s, id);
            lemma_lookup_unique(t, id, q);
        } else {
            assert(!has_id(t, id)) by {
                if has_id(t, id) {
                    let k = choose|k: int| 0 <= k < t.len() && t[k].id@ == id;
                    assert(k != s.len());
                    assert(s[k].id@ == id);
                }
            }
        }
    }
}

/// Adding records keeps ids unique.
pub proof fn lemma_extend_unique(s: Seq<AppInfo>, new: Seq<AppInfo>)
    requires
        ids_unique(s),
    ensures
        ids_unique(extend_all(s, new)),
    decreases new.len(),
{
    if new.len() > 0 {
        lemma_extend_unique(s, new.drop_last());
        lemma_upsert_unique(extend_all(s, new.drop_last()), new.last());
    }
}

/// What a read gives back after a write: once records are added, the record
/// found for an id is the last added record with that id, or, when none of
/// them has it, the record the repository had before.
pub proof fn lemma_get_after_extend(s: Seq<AppInfo>, new: Seq<AppInfo>, id: Seq<char>)
    requires
        ids_unique(s),
    ensures
        lookup(extend_all(s, new), id) == (match last_with_id(new, id) {
            Some(a) => Some(a),
            None => lookup(s, id),
        }),
    decreases new.len(),
{
    if new.len() > 0 {
        lemma_get_after_extend(s, new.drop_last(), id);
        lemma_extend_unique(s, new.drop_last());
        lemma_lookup_upsert(extend_all(s, new.drop_last()), new.last(), id);
    }
}

/// The records left after a removal are those of the other ids, each
/// still there.
proof fn lemma_without_id_members(s: Seq<AppInfo>, id: Seq<char>)
    ensures
        forall|k: int|
            #![trigger without_id(s, id)[k]]
            0 <= k < without_id(s, id).len() ==> without_id(s, id)[k].id@ != id && s.contains(
                without_id(s, id)[k],
            ),
        forall|k: int| 0 <= k < s.len() && s[k].id@ != id ==> without_id(s, id).contains(#[trigger] s[k]),
    decreases s.len(),
{
    if s.len() > 0 {
        let t = s.drop_last();
        lemma_without_id_members(t, id);
        let w = without_id(s, id);
        let wt = without_id(t, id);
        assert forall|k: int| 0 <= k < w.len() implies #[trigger] w[k].id@ != id && s.contains(w[k]) by {
            if k < wt.len() {
                assert(w[k] == wt[k]);
                assert(t.contains(wt[k]));
                let j = choose|j: int| 0 <= j < t.len() && t[j] == wt[k];
                assert(s[j] == t[j]);
            } else {
                assert(w[k] == s.last());
                assert(s[s.len() - 1] == s.last());
            }
        }
        assert forall|k: int| 0 <= k < s.len() && s[k].id@ != id implies w.contains(#[trigger] s[k]) by {
            if k < t.len() {
                assert(s[k] == t[k]);
                let j = choose|j: int| 0 <= j < wt.len() && wt[j] == t[k];
                assert(w[j] == wt[j]);
            } else {
                assert(w[w.len() - 1] == s.last());
            }
        }
    }
}

/// Removing an id: the id is no longer found, and every other id finds the
/// same record as before.
pub proof fn lemma_get_after_remove(s: Seq<AppInfo>, id: Seq<char>, other: Seq<char>)
    requires
        ids_unique(s),
    ensures
        lookup(without_id(s, id), id) is None,
        other != id ==> lookup(without_id(s, other), id) == lookup(s, id),
{
    lemma_without_id_members(s, id);
    lemma_without_id_members(s, other);
    let w = without_id(s, id);
    assert(!has_id(w, id)) by {
        if has_id(w, id) {
            let k = choose|k: int| 0 <= k < w.len() && w[k].id@ == id;
        }
    }
    if other != id {
        let w2 = without_id(s, other);
        lemma_without_id_unique(s, other);
        if has_id(s, id) {
            lemma_has_id_first(s, id);
            let q = first_with_id(s, id);
            assert(w2.contains(s[q]));
            let k = choose|k: int| 0 <= k < w2.len() && w2[k] == s[q];
            lemma_lookup_unique(w2, id, k);
            lemma_lookup_unique(s, id, q);
        } else {
            assert(!has_id(w2, id)) by {
                if has_id(w2, id) {
                    let k = choose|k: int| 0 <= k < w2.len() && w2[k].id@ == id;
                    assert(s.contains(w2[k]));
                    let j = choose|j: int| 0 <= j < s.len() && s[j] == w2[k];
                }
            }
        }
    }
}

/// Removing keeps ids unique.
proof fn lemma_without_id_unique(s: Seq<AppInfo>, id: Seq<char>)
    requires
        ids_unique(s),
    ensures
        ids_unique(without_id(s, id)),
    decreases s.len(),
{
    if s.len() > 0 {
        let t = s.drop_last();
        assert(ids_unique(t)) by {
            assert forall|i: int, j: int| 0 <= i < t.len() && 0 <= j < t.len() && i != j implies t[i].id@
                != t[j].id@ by {
                assert(t[i] == s[i]);
                assert(t[j] == s[j]);
            }
        }
        lemma_without_id_unique(t, id);
        lemma_without_id_members(t, id);
        let w = without_id(s, id);
        let wt = without_id(t, id);
        if s.last().id@ != id {
            assert forall|i: int, j: int| 0 <= i < w.len() && 0 <= j < w.len() && i != j implies w[i].id@
                != w[j].id@ by {
                if i < wt.len() && j < wt.len() {
                    assert(w[i] == wt[i]);
                    assert(w[j] == wt[j]);
                } else if i < wt.len() {
                    assert(w[j] == s.last());
                    assert(t.contains(wt[i]));
                    let k = choose|k: int| 0 <= k < t.len() && t[k] == wt[i];
                    assert(s[k] == t[k]);
                    assert(s[s.len() - 1] == s.last());
                } else {
                    assert(w[i] == s.last());
                    assert(t.contains(wt[j]));
                    let k = choose|k: int| 0 <= k < t.len() && t[k] == wt[j];
                    assert(s[k] == t[k]);
                    assert(s[s.len() - 1] == s.last());
                }
            }
        }
    }
}

/// The records passing a filter and a search are exactly those of the
/// repository that pass both.
proof fn lemma_filtered_members(s: Seq<AppInfo>, f: AppFilter, q: Seq<char>, lang: Language)
    ensures
        forall|a: AppInfo|
            #![trigger filtered(s, f, q, lang).contains(a)]
            #![trigger s.contains(a)]
            filtered(s, f, q, lang).contains(a) <==> (s.contains(a) && filter_accepts(f, a.method)
                && query_matches(a, lang, q)),
    decreases s.len(),
{
    if s.len() > 0 {
        let t = s.drop_last();
        lemma_filtered_members(t, f, q, lang);
        let fs = filtered(s, f, q, lang);
        let ft = filtered(t, f, q, lang);
        assert forall|a: AppInfo|
            fs.contains(a) <==> (s.contains(a) && filter_accepts(f, a.method) && query_matches(
                a,
                lang,
                q,
            )) by {
            if fs.contains(a) {
                let k = choose|k: int| 0 <= k < fs.len() && fs[k] == a;
                if k < ft.len() {
                    assert(fs[k] == ft[k]);
                    assert(ft.contains(a));
                    assert(t.contains(a));
                    let j = choose|j: int| 0 <= j < t.len() && t[j] == a;
                    assert(s[j] == t[j]);
                } else {
                    assert(s[s.len() - 1] == a);
                }
            }
            if s.contains(a) && filter_accepts(f, a.method) && query_matches(a, lang, q) {
                let j = choose|j: int| 0 <= j < s.len() && s[j] == a;
                if j < t.len() {
                    assert(t[j] == a);
                    assert(t.contains(a));
                    let k = choose|k: int| 0 <= k < ft.len() && ft[k] == a;
                    assert(fs[k] == ft[k]);
                } else {
                    assert(fs[fs.len() - 1] == a);
                }
            }
        }
    }
}

/// What the list shows for a filter, a search and an order: the records of
/// the repository that pass the filter and the search, each as many times
/// as the repository holds it, and no other; in the chosen order.
pub proof fn lemma_query(s: Seq<AppInfo>, f: AppFilter, q: Seq<char>, by: SortBy, lang: Language)
    ensures
        is_sorted_by(query_result(s, f, q, by, lang), by),
        query_result(s, f, q, by, lang).to_multiset() == filtered(s, f, q, lang).to_multiset(),
        forall|a: AppInfo|
            #![trigger query_result(s, f, q, by, lang).contains(a)]
            query_result(s, f, q, by, lang).contains(a) <==> (s.contains(a) && filter_accepts(
                f,
                a.method,
            ) && query_matches(a, lang, q)),
{
    broadcast use vstd::seq_lib::group_to_multiset_ensures;

    lemma_sorted_by(filtered(s, f, q, lang), by);
    lemma_filtered_members(s, f, q, lang);
    let r = query_result(s, f, q, by, lang);
    let fl = filtered(s, f, q, lang);
    assert forall|a: AppInfo| r.contains(a) <==> (s.contains(a) && filter_accepts(f, a.method)
        && query_matches(a, lang, q)) by {
        assert(r.to_multiset().count(a) == fl.to_multiset().count(a));
        assert(fl.contains(a) <==> (s.contains(a) && filter_accepts(f, a.method) && query_matches(
            a,
            lang,
            q,
        )));
    }
}

/// Searching the whole list finds a record by its description: when the
/// lowercased query occurs in the record's lowercased description, the
/// record is in the result of the search with the `All` filter.
pub proof fn lemma_query_finds_description(
    s: Seq<AppInfo>,
    q: Seq<char>,
    by: SortBy,
    lang: Language,
    k: int,
)
    requires
        0 <= k < s.len(),
        s[k].description is Some,
        contains_seq(lowercase(s[k].description.unwrap()@), lowercase(q)),
    ensures
        query_result(s, AppFilter::All, q, by, lang).contains(s[k]),
{
    lemma_query(s, AppFilter::All, q, by, lang);
    crate::models::lemma_query_fields(s[k], lang, q);
    assert(s.contains(s[k]));
}

} // verus!
