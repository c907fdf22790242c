//! Tables of entries keyed by text, kept in insertion order: the keyed maps
//! of the parsers and of the de-duplication.

use vstd::prelude::*;

use crate::models::AppInfo;
use crate::text::str_eq;

verus! {

/// Position of the entry with key `k`, or -1.
pub open spec fn key_pos<V>(es: Seq<(Seq<char>, V)>, k: Seq<char>) -> int
    decreases es.len(),
{
    if es.len() == 0 {
        -1
    } else {
        let p = key_pos(es.drop_last(), k);
        if p >= 0 {
            p
        } else if es.last().0 == k {
            es.len() - 1
        } else {
            -1
        }
    }
}

/// The entry for `k` is set to `v`, in place, or added at the end.
pub open spec fn put<V>(es: Seq<(Seq<char>, V)>, k: Seq<char>, v: V) -> Seq<(Seq<char>, V)> {
    let p = key_pos(es, k);
    if p >= 0 {
        es.update(p, (k, v))
    } else {
        es.push((k, v))
    }
}

pub proof fn lemma_key_pos<V>(es: Seq<(Seq<char>, V)>, k: Seq<char>)
    ensures
        -1 <= key_pos(es, k) < es.len(),
        key_pos(es, k) >= 0 ==> es[key_pos(es, k)].0 == k,
    decreases es.len(),
{
    if es.len() > 0 {
        lemma_key_pos(es.drop_last(), k);
    }
}

pub proof fn lemma_key_pos_prefix<V>(es: Seq<(Seq<char>, V)>, k: Seq<char>, i: int)
    requires
        0 <= i <= es.len(),
        key_pos(es.take(i), k) >= 0,
    ensures
        key_pos(es, k) == key_pos(es.take(i), k),
    decreases es.len() - i,
{
    if i < es.len() {
        assert(es.take(i + 1).drop_last() =~= es.take(i));
        lemma_key_pos_prefix(es, k, i + 1);
    } else {
        assert(es.take(i) =~= es);
    }
}

/// Two tables with the same keys at the same positions find a key at the
/// same position.
pub proof fn lemma_key_pos_same_keys<V, W>(a: Seq<(Seq<char>, V)>, b: Seq<(Seq<char>, W)>, k: Seq<char>)
    requires
        a.len() == b.len(),
        forall|i: int| 0 <= i < a.len() ==> (#[trigger] a[i]).0 == b[i].0,
    ensures
        key_pos(a, k) == key_pos(b, k),
    decreases a.len(),
{
    if a.len() > 0 {
        lemma_key_pos_same_keys(a.drop_last(), b.drop_last(), k);
    }
}

pub open spec fn entries_view(v: Seq<(String, AppInfo)>) -> Seq<(Seq<char>, AppInfo)> {
    v.map_values(|e: (String, AppInfo)| (e.0@, e.1))
}

pub open spec fn pairs_view(v: Seq<(String, String)>) -> Seq<(Seq<char>, Seq<char>)> {
    v.map_values(|e: (String, String)| (e.0@, e.1@))
}

pub fn find_entry(es: &Vec<(String, AppInfo)>, k: &str) -> (r: Option<usize>)
    ensures
        r matches Some(i) ==> i as int == key_pos(entries_view(es@), k@),
        r is None ==> key_pos(entries_view(es@), k@) == -1,
{
    let n = es.len();
    let ghost v = entries_view(es@);
    for i in 0..n
        invariant
            n == es@.len(),
            v == entries_view(es@),
            key_pos(v.take(i as int), k@) == -1,
    {
        assert(v.take(i + 1).drop_last() =~= v.take(i as int));
        if str_eq(es[i].0.as_str(), k) {
            proof {
                lemma_key_pos_prefix(v, k@, i + 1);
            }
            return Some(i);
        }
    }
    assert(v.take(n as int) =~= v);
    None
}

pub fn find_pair(ds: &Vec<(String, String)>, d: &str) -> (r: Option<usize>)
    ensures
        r matches Some(i) ==> i as int == key_pos(pairs_view(ds@), d@),
        r is None ==> key_pos(pairs_view(ds@), d@) == -1,
{
    let n = ds.len();
    let ghost v = pairs_view(ds@);
    for i in 0..n
        invariant
            n == ds@.len(),
            v == pairs_view(ds@),
            key_pos(v.take(i as int), d@) == -1,
    {
        assert(v.take(i + 1).drop_last() =~= v.take(i as int));
        if str_eq(ds[i].0.as_str(), d) {
            proof {
                lemma_key_pos_prefix(v, d@, i + 1);
            }
            return Some(i);
        }
    }
    assert(v.take(n as int) =~= v);
    None
}

pub fn put_entry(es: &mut Vec<(String, AppInfo)>, k: String, a: AppInfo)
    ensures
        entries_view(final(es)@) == put(entries_view(old(es)@), k@, a),
{
    let ghost kv = k@;
    match find_entry(es, k.as_str()) {
        Some(i) => {
            proof {
                lemma_key_pos(entries_view(es@), kv);
            }
            es.set(i, (k, a));
            assert(entries_view(es@) =~= put(entries_view(old(es)@), kv, a));
        },
        None => {
            es.push((k, a));
            assert(entries_view(es@) =~= put(entries_view(old(es)@), kv, a));
        },
    }
}

pub fn put_pair(ds: &mut Vec<(String, String)>, d: String, id: String)
    ensures
        pairs_view(final(ds)@) == put(pairs_view(old(ds)@), d@, id@),
{
    let ghost dv = d@;
    let ghost iv = id@;
    match find_pair(ds, d.as_str()) {
        Some(i) => {
            proof {
                lemma_key_pos(pairs_view(ds@), dv);
            }
            ds.set(i, (d, id));
            assert(pairs_view(ds@) =~= put(pairs_view(old(ds)@), dv, iv));
        },
        None => {
            ds.push((d, id));
            assert(pairs_view(ds@) =~= put(pairs_view(old(ds)@), dv, iv));
        },
    }
}

} // verus!
