//! Vectors of entries keyed by strings, with no key twice, read as maps.
use vstd::prelude::*;

verus! {

/// No two entries of `es` share a key.
pub open spec fn spec_unique_keys<T>(es: Seq<(String, T)>) -> bool {
    forall|i: int, j: int| 0 <= i < j < es.len() ==> (#[trigger] es[i]).0@ != (#[trigger] es[j]).0@
}

/// The map that the keyed entries `es` hold, later entries winning.
pub open spec fn spec_entries_map<T: View>(es: Seq<(String, T)>) -> Map<Seq<char>, T::V>
    decreases es.len(),
{
    if es.len() == 0 {
        Map::empty()
    } else {
        spec_entries_map(es.drop_last()).insert(es.last().0@, es.last().1@)
    }
}

pub proof fn lemma_entries_map_found<T: View>(es: Seq<(String, T)>, i: int)
    requires
        spec_unique_keys(es),
        0 <= i < es.len(),
    ensures
        spec_entries_map(es).contains_key(es[i].0@),
        spec_entries_map(es)[es[i].0@] == es[i].1@,
    decreases es.len(),
{
    if i < es.len() - 1 {
        let d = es.drop_last();
        assert(d[i] == es[i]);
        assert(es[i].0@ != es[es.len() - 1].0@);
        lemma_entries_map_found(d, i);
    }
}

pub proof fn lemma_entries_map_missing<T: View>(es: Seq<(String, T)>, k: Seq<char>)
    requires
        forall|i: int| 0 <= i < es.len() ==> (#[trigger] es[i]).0@ != k,
    ensures
        !spec_entries_map(es).contains_key(k),
    decreases es.len(),
{
    if es.len() > 0 {
        let d = es.drop_last();
        assert forall|i: int| 0 <= i < d.len() implies (#[trigger] d[i]).0@ != k by {
            assert(d[i] == es[i]);
        }
        lemma_entries_map_missing(d, k);
    }
}

pub proof fn lemma_entries_map_dom<T: View>(es: Seq<(String, T)>, k: Seq<char>)
    requires
        spec_entries_map(es).contains_key(k),
    ensures
        exists|i: int| 0 <= i < es.len() && (#[trigger] es[i]).0@ == k,
    decreases es.len(),
{
    if es.len() > 0 {
        let d = es.drop_last();
        if es.last().0@ != k {
            lemma_entries_map_dom(d, k);
            let i = choose|i: int| 0 <= i < d.len() && (#[trigger] d[i]).0@ == k;
            assert(es[i] == d[i]);
        } else {
            assert(es[es.len() - 1].0@ == k);
        }
    }
}

pub proof fn lemma_entries_map_remove<T: View>(es: Seq<(String, T)>, i: int)
    requires
        spec_unique_keys(es),
        0 <= i < es.len(),
    ensures
        spec_unique_keys(es.remove(i)),
        spec_entries_map(es.remove(i)) == spec_entries_map(es).remove(es[i].0@),
    decreases es.len(),
{
    let r = es.remove(i);
    assert forall|a: int, b: int| 0 <= a < b < r.len() implies (#[trigger] r[a]).0@ != (
    #[trigger] r[b]).0@ by {
        let a0 = if a < i { a } else { a + 1 };
        let b0 = if b < i { b } else { b + 1 };
        assert(r[a] == es[a0]);
        assert(r[b] == es[b0]);
    }
    if i == es.len() - 1 {
        assert(r =~= es.drop_last());
        lemma_entries_map_missing(r, es[i].0@);
        assert(spec_entries_map(r) =~= spec_entries_map(es).remove(es[i].0@));
    } else {
        let d = es.drop_last();
        assert(r.drop_last() =~= d.remove(i));
        assert(r.last() == es.last());
        assert forall|a: int, b: int| 0 <= a < b < d.len() implies (#[trigger] d[a]).0@ != (
        #[trigger] d[b]).0@ by {
            assert(d[a] == es[a]);
            assert(d[b] == es[b]);
        }
        assert(d[i] == es[i]);
        lemma_entries_map_remove(d, i);
        assert(es[i].0@ != es.last().0@);
        assert(spec_entries_map(r) =~= spec_entries_map(es).remove(es[i].0@));
    }
}

pub proof fn lemma_entries_map_update<T: View>(es: Seq<(String, T)>, i: int, e: (String, T))
    requires
        spec_unique_keys(es),
        0 <= i < es.len(),
        e.0@ == es[i].0@,
    ensures
        spec_unique_keys(es.update(i, e)),
        spec_entries_map(es.update(i, e)) == spec_entries_map(es).insert(e.0@, e.1@),
    decreases es.len(),
{
    let u = es.update(i, e);
    assert forall|a: int, b: int| 0 <= a < b < u.len() implies (#[trigger] u[a]).0@ != (
    #[trigger] u[b]).0@ by {
        assert(u[a].0@ == es[a].0@);
        assert(u[b].0@ == es[b].0@);
    }
    let d = es.drop_last();
    assert forall|a: int, b: int| 0 <= a < b < d.len() implies (#[trigger] d[a]).0@ != (
    #[trigger] d[b]).0@ by {
        assert(d[a] == es[a]);
        assert(d[b] == es[b]);
    }
    if i == es.len() - 1 {
        assert(u.drop_last() =~= d);
        assert(spec_entries_map(u) =~= spec_entries_map(es).insert(e.0@, e.1@));
    } else {
        assert(u.drop_last() =~= d.update(i, e));
        assert(d[i] == es[i]);
        lemma_entries_map_update(d, i, e);
        assert(es[i].0@ != es.last().0@);
        assert(spec_entries_map(u) =~= spec_entries_map(es).insert(e.0@, e.1@));
    }
}

pub proof fn lemma_keys_of_map<T: View>(es: Seq<(String, T)>, k: Seq<char>)
    requires
        spec_unique_keys(es),
    ensures
        spec_entries_map(es).contains_key(k) <==> exists|i: int|
            0 <= i < es.len() && (#[trigger] es[i]).0@ == k,
{
    if spec_entries_map(es).contains_key(k) {
        lemma_entries_map_dom(es, k);
    }
    if exists|i: int| 0 <= i < es.len() && (#[trigger] es[i]).0@ == k {
        let i = choose|i: int| 0 <= i < es.len() && (#[trigger] es[i]).0@ == k;
        lemma_entries_map_found(es, i);
    }
}

/// The index of the entry with key `k`, if there is one.
pub(crate) fn find_key<T: View>(es: &Vec<(String, T)>, k: &String) -> (r: Option<usize>)
    requires
        spec_unique_keys(es@),
    ensures
        match r {
            Some(i) => i < es@.len() && es@[i as int].0@ == k@ && spec_entries_map(es@).contains_key(k@)
                && spec_entries_map(es@)[k@] == es@[i as int].1@,
            None => !spec_entries_map(es@).contains_key(k@),
        },
{
    let n = es.len();
    let mut i: usize = 0;
    while i < n
        invariant
            n == es@.len(),
            0 <= i <= n,
            spec_unique_keys(es@),
            forall|j: int| 0 <= j < i ==> (#[trigger] es@[j]).0@ != k@,
        decreases n - i,
    {
        if es[i].0 == *k {
            proof {
                lemma_entries_map_found(es@, i as int);
            }
            return Some(i);
        }
        i = i + 1;
    }
    proof {
        lemma_entries_map_missing(es@, k@);
    }
    None
}

} // verus!
