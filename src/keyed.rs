//! Name-keyed entry lists: a `Vec<(String, V)>` whose names are unique,
//! read as a finite map from names to the values' views.
use vstd::prelude::*;

verus! {

/// The map that a list of entries denotes; a later entry with the same name
/// replaces an earlier one.
pub open spec fn map_of<V: View>(s: Seq<(String, V)>) -> Map<Seq<char>, V::V>
    decreases s.len(),
{
    if s.len() == 0 {
        Map::empty()
    } else {
        map_of(s.drop_last()).insert(s.last().0@, s.last().1@)
    }
}

/// No two entries share a name.
pub open spec fn keys_unique<V>(s: Seq<(String, V)>) -> bool {
    forall|i: int, j: int| 0 <= i < j < s.len() ==> #[trigger] s[i].0@ != #[trigger] s[j].0@
}

pub proof fn lemma_map_of_push<V: View>(s: Seq<(String, V)>, e: (String, V))
    ensures
        map_of(s.push(e)) == map_of(s).insert(e.0@, e.1@),
{
    assert(s.push(e).drop_last() =~= s);
}

pub proof fn lemma_map_of_prefix<V: View>(s: Seq<(String, V)>, i: int)
    requires
        0 <= i < s.len(),
    ensures
        map_of(s.subrange(0, i + 1)) == map_of(s.subrange(0, i)).insert(s[i].0@, s[i].1@),
{
    assert(s.subrange(0, i + 1) =~= s.subrange(0, i).push(s[i]));
    lemma_map_of_push(s.subrange(0, i), s[i]);
}

pub proof fn lemma_map_of_contains<V: View>(s: Seq<(String, V)>, k: Seq<char>)
    ensures
        map_of(s).contains_key(k) <==> exists|i: int| 0 <= i < s.len() && #[trigger] s[i].0@ == k,
    decreases s.len(),
{
    if s.len() > 0 {
        let p = s.drop_last();
        lemma_map_of_contains(p, k);
        if map_of(s).contains_key(k) && s.last().0@ != k {
            let i = choose|i: int| 0 <= i < p.len() && #[trigger] p[i].0@ == k;
            assert(s[i].0@ == k);
        }
        if exists|i: int| 0 <= i < s.len() && #[trigger] s[i].0@ == k {
            let i = choose|i: int| 0 <= i < s.len() && #[trigger] s[i].0@ == k;
            if i < s.len() - 1 {
                assert(p[i].0@ == k);
            }
        }
    }
}

pub proof fn lemma_map_of_at<V: View>(s: Seq<(String, V)>, i: int)
    requires
        keys_unique(s),
        0 <= i < s.len(),
    ensures
        map_of(s).contains_key(s[i].0@),
        map_of(s)[s[i].0@] == s[i].1@,
    decreases s.len(),
{
    let p = s.drop_last();
    if i < s.len() - 1 {
        assert(keys_unique(p));
        assert(p[i] == s[i]);
        lemma_map_of_at(p, i);
        assert(s[i].0@ != s[s.len() - 1].0@);
    }
}

/// Appending an entry whose name is new keeps the names unique.
pub proof fn lemma_push_unique<V: View>(s: Seq<(String, V)>, e: (String, V))
    requires
        keys_unique(s),
        !map_of(s).contains_key(e.0@),
    ensures
        keys_unique(s.push(e)),
        map_of(s.push(e)) == map_of(s).insert(e.0@, e.1@),
{
    lemma_map_of_push(s, e);
    lemma_map_of_contains(s, e.0@);
    let t = s.push(e);
    assert forall|i: int, j: int| 0 <= i < j < t.len() implies #[trigger] t[i].0@ != #[trigger] t[j].0@ by {
        if j == s.len() {
            assert(t[i] == s[i]);
        } else {
            assert(t[i] == s[i] && t[j] == s[j]);
        }
    }
}

/// The name at position `i` does not occur in the entries before it.
pub proof fn lemma_prefix_lacks<V: View>(s: Seq<(String, V)>, i: int)
    requires
        keys_unique(s),
        0 <= i < s.len(),
    ensures
        !map_of(s.subrange(0, i)).contains_key(s[i].0@),
{
    lemma_map_of_contains(s.subrange(0, i), s[i].0@);
    if map_of(s.subrange(0, i)).contains_key(s[i].0@) {
        let j = choose|j: int| 0 <= j < i && #[trigger] s.subrange(0, i)[j].0@ == s[i].0@;
        assert(s.subrange(0, i)[j] == s[j]);
    }
}

/// The entries of `s` before position `i` whose names satisfy `keep`, as a
/// map to their values in the whole of `s`.
pub open spec fn kept_prefix<V: View>(s: Seq<(String, V)>, i: int, keep: spec_fn(Seq<char>) -> bool) -> Map<Seq<char>, V::V> {
    Map::new(|k: Seq<char>| map_of(s.subrange(0, i)).contains_key(k) && keep(k), |k: Seq<char>| map_of(s)[k])
}

/// One step of a loop that copies the entries whose names satisfy `keep`.
pub proof fn lemma_keep_step<V: View>(s: Seq<(String, V)>, i: int, r: Seq<(String, V)>, e: (String, V), keep: spec_fn(Seq<char>) -> bool)
    requires
        keys_unique(s),
        0 <= i < s.len(),
        keys_unique(r),
        map_of(r) == kept_prefix(s, i, keep),
        e.0@ == s[i].0@,
        e.1@ == s[i].1@,
    ensures
        keep(e.0@) ==> keys_unique(r.push(e)) && map_of(r.push(e)) == kept_prefix(s, i + 1, keep),
        !keep(e.0@) ==> map_of(r) == kept_prefix(s, i + 1, keep),
{
    lemma_map_of_prefix(s, i);
    lemma_prefix_lacks(s, i);
    lemma_map_of_at(s, i);
    if keep(e.0@) {
        assert(!map_of(r).contains_key(e.0@));
        lemma_push_unique(r, e);
        assert(map_of(r.push(e)) =~= kept_prefix(s, i + 1, keep));
    } else {
        assert(map_of(r) =~= kept_prefix(s, i + 1, keep));
    }
}

pub proof fn lemma_kept_all<V: View>(s: Seq<(String, V)>, keep: spec_fn(Seq<char>) -> bool)
    ensures
        kept_prefix(s, s.len() as int, keep) == Map::new(|k: Seq<char>| map_of(s).contains_key(k) && keep(k), |k: Seq<char>| map_of(s)[k]),
        kept_prefix(s, 0, keep) == Map::<Seq<char>, V::V>::empty(),
{
    assert(s.subrange(0, s.len() as int) =~= s);
    assert(s.subrange(0, 0) =~= Seq::<(String, V)>::empty());
    assert(kept_prefix(s, 0, keep) =~= Map::<Seq<char>, V::V>::empty());
}

/// Replacing the entry at `j` by one of the same name replaces its value.
pub proof fn lemma_map_of_update<V: View>(s: Seq<(String, V)>, j: int, e: (String, V))
    requires
        keys_unique(s),
        0 <= j < s.len(),
        e.0@ == s[j].0@,
    ensures
        keys_unique(s.update(j, e)),
        map_of(s.update(j, e)) == map_of(s).insert(e.0@, e.1@),
    decreases s.len(),
{
    let t = s.update(j, e);
    assert forall|a: int, b: int| 0 <= a < b < t.len() implies #[trigger] t[a].0@ != #[trigger] t[b].0@ by {
        assert(s[a].0@ != s[b].0@);
    }
    let p = s.drop_last();
    if j == s.len() - 1 {
        assert(t.drop_last() =~= p);
        assert(map_of(t) =~= map_of(s).insert(e.0@, e.1@));
    } else {
        assert(t.drop_last() =~= p.update(j, e));
        assert(keys_unique(p));
        lemma_map_of_update(p, j, e);
        assert(s.last().0@ != s[j].0@);
        assert(map_of(t) =~= map_of(s).insert(e.0@, e.1@));
    }
}

/// Where the entry named `name` stands, if there is one.
pub fn position_of<V: View>(s: &Vec<(String, V)>, name: &String) -> (r: Option<usize>)
    ensures
        match r {
            Some(i) => i < s@.len() && s@[i as int].0@ == name@,
            None => !map_of(s@).contains_key(name@),
        },
{
    let mut i: usize = 0;
    while i < s.len()
        invariant
            i <= s@.len(),
            forall|j: int| 0 <= j < i ==> #[trigger] s@[j].0@ != name@,
        decreases s@.len() - i,
    {
        if s[i].0 == *name {
            return Some(i);
        }
        i = i + 1;
    }
    proof {
        lemma_map_of_contains(s@, name@);
    }
    None
}

} // verus!
