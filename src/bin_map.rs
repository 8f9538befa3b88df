//! The bin-map: from an executable's file name to the provider and tool that
//! produced it.
use vstd::prelude::*;
use crate::keyed::{
    keys_unique, kept_prefix, lemma_keep_step, lemma_kept_all, lemma_map_of_at, lemma_map_of_push,
    lemma_map_of_update, lemma_push_unique, map_of, position_of,
};
use crate::manifest::view_names;
use crate::install::InstallServiceError;
use crate::provider::ProviderKind;

verus! {

#[derive(Clone, Debug)]
pub struct BinDependency {
    pub provider_kind: ProviderKind,
    /// The tool that produced the executable.
    pub name: String,
    /// Where the executable lies inside the tool's install directory.
    pub bin_file_name: String,
}

pub struct BinDependencyView {
    pub provider_kind: ProviderKind,
    pub name: Seq<char>,
    pub bin_file_name: Seq<char>,
}

impl View for BinDependency {
    type V = BinDependencyView;

    open spec fn view(&self) -> BinDependencyView {
        BinDependencyView { provider_kind: self.provider_kind, name: self.name@, bin_file_name: self.bin_file_name@ }
    }
}

impl BinDependency {
    pub fn new(provider_kind: ProviderKind, name: String, bin_file_name: String) -> (r: BinDependency)
        ensures
            r.provider_kind == provider_kind,
            r.name == name,
            r.bin_file_name == bin_file_name,
    {
        BinDependency { provider_kind, name, bin_file_name }
    }

    pub fn duplicate(&self) -> (r: BinDependency)
        ensures
            r@ == self@,
    {
        BinDependency { provider_kind: self.provider_kind, name: self.name.clone(), bin_file_name: self.bin_file_name.clone() }
    }
}

pub type BinView = Map<Seq<char>, BinDependencyView>;

/// The file names that two or more entries of `c` share.
pub open spec fn duplicate_names<V>(c: Seq<(String, V)>) -> Set<Seq<char>> {
    Set::new(|k: Seq<char>| exists|a: int, b: int| 0 <= a < b < c.len() && #[trigger] c[a].0@ == k && #[trigger] c[b].0@ == k)
}

pub open spec fn names_unique(v: Seq<String>) -> bool {
    forall|i: int, j: int| 0 <= i < j < v.len() ==> #[trigger] v[i]@ != #[trigger] v[j]@
}

#[derive(Clone, Debug)]
pub struct BinMap {
    bin_dependencies: Vec<(String, BinDependency)>,
}

impl View for BinMap {
    type V = BinView;

    closed spec fn view(&self) -> BinView {
        map_of(self.bin_dependencies@)
    }
}

fn names_contain(v: &Vec<String>, name: &String) -> (r: bool)
    ensures
        r == view_names(v@).contains(name@),
{
    let mut i: usize = 0;
    while i < v.len()
        invariant
            i <= v@.len(),
            forall|j: int| 0 <= j < i ==> #[trigger] v@[j]@ != name@,
        decreases v@.len() - i,
    {
        if v[i] == *name {
            assert(v@[i as int]@ == name@);
            return true;
        }
        i = i + 1;
    }
    false
}

/// The file names that two or more candidates share, each listed once.
pub fn find_duplicates(candidates: &Vec<(String, BinDependency)>) -> (r: Vec<String>)
    ensures
        view_names(r@) == duplicate_names(candidates@),
        names_unique(r@),
{
    let c = candidates;
    let mut dups: Vec<String> = Vec::new();
    let mut i: usize = 0;
    while i < c.len()
        invariant
            i <= c@.len(),
            names_unique(dups@),
            view_names(dups@) == duplicate_names(c@.subrange(0, i as int)),
        decreases c@.len() - i,
    {
        let mut seen = false;
        let mut a: usize = 0;
        while a < i
            invariant
                a <= i < c@.len(),
                seen == exists|x: int| 0 <= x < a && #[trigger] c@[x].0@ == c@[i as int].0@,
            decreases i - a,
        {
            if c[a].0 == c[i].0 {
                assert(c@[a as int].0@ == c@[i as int].0@);
                seen = true;
            }
            a = a + 1;
        }
        let ghost pre = c@.subrange(0, i as int);
        let ghost next = c@.subrange(0, i + 1);
        let ghost ki = c@[i as int].0@;
        let ghost before = dups@;
        assert forall|k: Seq<char>| duplicate_names(next).contains(k) <==> (duplicate_names(pre).contains(k) || (seen && k == ki)) by {
            if duplicate_names(next).contains(k) {
                let (x, y) = choose|x: int, y: int| 0 <= x < y < next.len() && #[trigger] next[x].0@ == k && #[trigger] next[y].0@ == k;
                if y < i {
                    assert(pre[x] == next[x] && pre[y] == next[y]);
                } else {
                    assert(next[x] == c@[x]);
                }
            }
            if duplicate_names(pre).contains(k) {
                let (x, y) = choose|x: int, y: int| 0 <= x < y < pre.len() && #[trigger] pre[x].0@ == k && #[trigger] pre[y].0@ == k;
                assert(pre[x] == next[x] && pre[y] == next[y]);
            }
            if seen && k == ki {
                let x = choose|x: int| 0 <= x < i && #[trigger] c@[x].0@ == ki;
                assert(next[x] == c@[x] && next[i as int] == c@[i as int]);
            }
        }
        if seen && !names_contain(&dups, &c[i].0) {
            dups.push(c[i].0.clone());
            assert forall|k: Seq<char>| view_names(dups@).contains(k) <==> (view_names(before).contains(k) || k == ki) by {
                if view_names(dups@).contains(k) {
                    let j = choose|j: int| 0 <= j < dups@.len() && #[trigger] dups@[j]@ == k;
                    if j < before.len() {
                        assert(before[j] == dups@[j]);
                    }
                }
                if view_names(before).contains(k) {
                    let j = choose|j: int| 0 <= j < before.len() && #[trigger] before[j]@ == k;
                    assert(dups@[j] == before[j]);
                }
                if k == ki {
                    assert(dups@[before.len() as int]@ == k);
                }
            }
            assert(names_unique(dups@)) by {
                assert forall|x: int, y: int| 0 <= x < y < dups@.len() implies #[trigger] dups@[x]@ != #[trigger] dups@[y]@ by {
                    if y == before.len() {
                        assert(dups@[x] == before[x]);
                        assert(view_names(before).contains(before[x]@));
                    } else {
                        assert(dups@[x] == before[x] && dups@[y] == before[y]);
                    }
                }
            }
        }
        i = i + 1;
        assert(view_names(dups@) =~= duplicate_names(c@.subrange(0, i as int)));
    }
    assert(c@.subrange(0, c@.len() as int) =~= c@);
    dups
}

impl BinMap {
    /// No two entries share a file name.
    pub closed spec fn wf(&self) -> bool {
        keys_unique(self.bin_dependencies@)
    }

    pub fn new() -> (r: BinMap)
        ensures
            r.wf(),
            r@ == BinView::empty(),
    {
        BinMap { bin_dependencies: Vec::new() }
    }

    pub fn bin_dependencies(&self) -> (r: &Vec<(String, BinDependency)>)
        ensures
            map_of(r@) == self@,
            keys_unique(r@) == self.wf(),
    {
        &self.bin_dependencies
    }

    pub fn get(&self, file_name: &String) -> (r: Option<&BinDependency>)
        requires
            self.wf(),
        ensures
            match r {
                Some(d) => self@.contains_key(file_name@) && self@[file_name@] == d@,
                None => !self@.contains_key(file_name@),
            },
    {
        match position_of(&self.bin_dependencies, file_name) {
            Some(j) => {
                proof {
                    lemma_map_of_at(self.bin_dependencies@, j as int);
                }
                Some(&self.bin_dependencies[j].1)
            },
            None => None,
        }
    }

    /// Records the executable `file_name`; returns the entry it replaced.
    pub fn insert(&mut self, file_name: String, bin_dependency: BinDependency) -> (r: Option<BinDependency>)
        requires
            old(self).wf(),
        ensures
            final(self).wf(),
            final(self)@ == old(self)@.insert(file_name@, bin_dependency@),
            match r {
                Some(d) => old(self)@.contains_key(file_name@) && old(self)@[file_name@] == d@,
                None => !old(self)@.contains_key(file_name@),
            },
    {
        let e = (file_name, bin_dependency);
        match position_of(&self.bin_dependencies, &e.0) {
            Some(j) => {
                proof {
                    lemma_map_of_at(self.bin_dependencies@, j as int);
                    lemma_map_of_update(self.bin_dependencies@, j as int, e);
                }
                let previous = self.bin_dependencies[j].1.duplicate();
                self.bin_dependencies.set(j, e);
                Some(previous)
            },
            None => {
                proof {
                    lemma_push_unique(self.bin_dependencies@, e);
                }
                self.bin_dependencies.push(e);
                None
            },
        }
    }

    /// Keeps the entries whose file name satisfies `present` (given as a list).
    pub fn retain_present(&self, present: &Vec<String>) -> (r: BinMap)
        requires
            self.wf(),
        ensures
            r.wf(),
            r@ == self@.restrict(view_names(present@)),
    {
        let ghost keep = |k: Seq<char>| view_names(present@).contains(k);
        let s = &self.bin_dependencies;
        let mut out: Vec<(String, BinDependency)> = Vec::new();
        let mut i: usize = 0;
        proof {
            lemma_kept_all(s@, keep);
        }
        while i < s.len()
            invariant
                i <= s@.len(),
                keys_unique(s@),
                keys_unique(out@),
                map_of(out@) == kept_prefix(s@, i as int, keep),
                keep == (|k: Seq<char>| view_names(present@).contains(k)),
            decreases s@.len() - i,
        {
            let e = (s[i].0.clone(), s[i].1.duplicate());
            proof {
                lemma_keep_step(s@, i as int, out@, e, keep);
            }
            if names_contain(present, &s[i].0) {
                out.push(e);
            }
            i = i + 1;
        }
        proof {
            lemma_kept_all(s@, keep);
        }
        let r = BinMap { bin_dependencies: out };
        assert(r@ =~= self@.restrict(view_names(present@)));
        r
    }

    /// Removes the entry of `file_name`; returns it.
    pub fn remove(&mut self, file_name: &String) -> (r: Option<BinDependency>)
        requires
            old(self).wf(),
        ensures
            final(self).wf(),
            final(self)@ == old(self)@.remove(file_name@),
            match r {
                Some(d) => old(self)@.contains_key(file_name@) && old(self)@[file_name@] == d@,
                None => !old(self)@.contains_key(file_name@),
            },
    {
        let previous = match self.get(file_name) {
            Some(d) => Some(d.duplicate()),
            None => None,
        };
        let ghost keep = |k: Seq<char>| k != file_name@;
        let s = &self.bin_dependencies;
        let mut out: Vec<(String, BinDependency)> = Vec::new();
        let mut i: usize = 0;
        proof {
            lemma_kept_all(s@, keep);
        }
        while i < s.len()
            invariant
                i <= s@.len(),
                keys_unique(s@),
                keys_unique(out@),
                map_of(out@) == kept_prefix(s@, i as int, keep),
                keep == (|k: Seq<char>| k != file_name@),
            decreases s@.len() - i,
        {
            let e = (s[i].0.clone(), s[i].1.duplicate());
            proof {
                lemma_keep_step(s@, i as int, out@, e, keep);
            }
            if s[i].0 != *file_name {
                out.push(e);
            }
            i = i + 1;
        }
        proof {
            lemma_kept_all(s@, keep);
        }
        assert(map_of(out@) =~= self@.remove(file_name@));
        self.bin_dependencies = out;
        previous
    }
}

/// Rebuilds the bin-map after the providers ran: entries whose file is no
/// longer in the shared bin directory (`present`) go, then every candidate
/// of the installed tools is added. Fails, listing each shared name once,
/// where two candidates share a file name; the bin-map is then untouched.
pub fn rebuild_bin_map(
    bin_map: &BinMap,
    present: &Vec<String>,
    candidates: &Vec<(String, BinDependency)>,
) -> (r: Result<BinMap, InstallServiceError>)
    requires
        bin_map.wf(),
    ensures
        match r {
            Ok(m) => {
                &&& duplicate_names(candidates@) == Set::<Seq<char>>::empty()
                &&& m.wf()
                &&& m@ == bin_map@.restrict(view_names(present@)).union_prefer_right(map_of(candidates@))
            },
            Err(e) => e matches InstallServiceError::DuplicateBin(d) && {
                &&& d@.len() > 0
                &&& names_unique(d@)
                &&& view_names(d@) == duplicate_names(candidates@)
            },
        },
{
    let dups = find_duplicates(candidates);
    if dups.len() > 0 {
        return Err(InstallServiceError::DuplicateBin(dups));
    }
    assert(view_names(dups@) =~= Set::<Seq<char>>::empty());
    let mut m = bin_map.retain_present(present);
    let ghost base = m@;
    let mut i: usize = 0;
    while i < candidates.len()
        invariant
            i <= candidates@.len(),
            m.wf(),
            m@ == base.union_prefer_right(map_of(candidates@.subrange(0, i as int))),
        decreases candidates@.len() - i,
    {
        let name = candidates[i].0.clone();
        let dep = candidates[i].1.duplicate();
        proof {
            assert(candidates@.subrange(0, i + 1) =~= candidates@.subrange(0, i as int).push(candidates@[i as int]));
            lemma_map_of_push(candidates@.subrange(0, i as int), candidates@[i as int]);
        }
        m.insert(name, dep);
        i = i + 1;
        assert(m@ =~= base.union_prefer_right(map_of(candidates@.subrange(0, i as int))));
    }
    assert(candidates@.subrange(0, candidates@.len() as int) =~= candidates@);
    Ok(m)
}

/// Rebuilding a bin-map whose files are all still present, with no tool
/// installed anew, leaves it as it was.
pub proof fn law_rebuild_keeps_settled_map(m: BinView, present: Set<Seq<char>>)
    requires
        m.dom().subset_of(present),
    ensures
        m.restrict(present).union_prefer_right(map_of(Seq::<(String, BinDependency)>::empty())) == m,
{
    assert(m.restrict(present).union_prefer_right(map_of(Seq::<(String, BinDependency)>::empty())) =~= m);
}

} // verus!
