//! The workspace registry: a stable, randomly chosen id for each project's
//! manifest directory.
use vstd::prelude::*;
use crate::keyed::{keys_unique, lemma_map_of_at, lemma_push_unique, map_of, position_of, kept_prefix, lemma_keep_step, lemma_kept_all};

verus! {

/// A character of nanoid's URL-safe alphabet.
pub open spec fn is_url_safe(c: char) -> bool {
    ('a' <= c && c <= 'z') || ('A' <= c && c <= 'Z') || ('0' <= c && c <= '9') || c == '_' || c == '-'
}

pub open spec fn is_workspace_id(id: Seq<char>) -> bool {
    id.len() == 21 && forall|i: int| 0 <= i < id.len() ==> is_url_safe(#[trigger] id[i])
}

/// Relies on `nanoid::format` with nanoid's default random source and its
/// URL-safe alphabet (`nanoid::alphabet::SAFE`): 21 characters, each drawn
/// from that alphabet. (The random source panics only where the operating
/// system offers no entropy.)
#[verifier::external_body]
fn fresh_workspace_id() -> (r: String)
    ensures
        is_workspace_id(r@),
{
    nanoid::format(nanoid::rngs::default, &nanoid::alphabet::SAFE, 21)
}

/// From a canonical manifest directory to its workspace id.
#[derive(Clone, Debug)]
pub struct WorkspacePathMap {
    workspace_path_map: Vec<(String, String)>,
}

impl View for WorkspacePathMap {
    type V = Map<Seq<char>, Seq<char>>;

    closed spec fn view(&self) -> Map<Seq<char>, Seq<char>> {
        map_of(self.workspace_path_map@)
    }
}

impl WorkspacePathMap {
    pub closed spec fn wf(&self) -> bool {
        keys_unique(self.workspace_path_map@)
    }

    pub fn new() -> (r: WorkspacePathMap)
        ensures
            r.wf(),
            r@ == Map::<Seq<char>, Seq<char>>::empty(),
    {
        WorkspacePathMap { workspace_path_map: Vec::new() }
    }

    /// Reads the persisted pairs; a directory listed twice keeps its last id.
    pub fn from_pairs(pairs: Vec<(String, String)>) -> (r: WorkspacePathMap)
        ensures
            r.wf(),
            r@ == map_of(pairs@),
    {
        let mut r = WorkspacePathMap::new();
        let mut i: usize = 0;
        while i < pairs.len()
            invariant
                i <= pairs@.len(),
                r.wf(),
                r@ == map_of(pairs@.subrange(0, i as int)),
            decreases pairs@.len() - i,
        {
            proof {
                crate::keyed::lemma_map_of_prefix(pairs@, i as int);
            }
            r.set(pairs[i].0.clone(), pairs[i].1.clone());
            i = i + 1;
        }
        assert(pairs@.subrange(0, pairs@.len() as int) =~= pairs@);
        r
    }

    pub fn pairs(&self) -> (r: &Vec<(String, String)>)
        ensures
            map_of(r@) == self@,
            keys_unique(r@) == self.wf(),
    {
        &self.workspace_path_map
    }

    fn set(&mut self, dir: String, id: String)
        requires
            old(self).wf(),
        ensures
            final(self).wf(),
            final(self)@ == old(self)@.insert(dir@, id@),
    {
        let e = (dir, id);
        match position_of(&self.workspace_path_map, &e.0) {
            Some(j) => {
                proof {
                    crate::keyed::lemma_map_of_update(self.workspace_path_map@, j as int, e);
                }
                self.workspace_path_map.set(j, e);
            },
            None => {
                proof {
                    lemma_push_unique(self.workspace_path_map@, e);
                }
                self.workspace_path_map.push(e);
            },
        }
    }

    /// The id of the workspace of `dir`, and whether the map changed: a
    /// directory seen before keeps its id; a new one gets a fresh id.
    pub fn resolve(&mut self, dir: &String) -> (r: (String, bool))
        requires
            old(self).wf(),
        ensures
            final(self).wf(),
            old(self)@.contains_key(dir@) ==> r.0@ == old(self)@[dir@] && !r.1 && final(self)@ == old(self)@,
            !old(self)@.contains_key(dir@) ==> is_workspace_id(r.0@) && r.1 && final(self)@ == old(self)@.insert(
                dir@,
                r.0@,
            ),
    {
        match position_of(&self.workspace_path_map, dir) {
            Some(j) => {
                proof {
                    lemma_map_of_at(self.workspace_path_map@, j as int);
                }
                (self.workspace_path_map[j].1.clone(), false)
            },
            None => {
                let id = fresh_workspace_id();
                self.set(dir.clone(), id.clone());
                (id, true)
            },
        }
    }

    /// Forgets `dir`, so that its next install gets a fresh id.
    pub fn forget(&mut self, dir: &String)
        requires
            old(self).wf(),
        ensures
            final(self).wf(),
            final(self)@ == old(self)@.remove(dir@),
    {
        let ghost keep = |k: Seq<char>| k != dir@;
        let s = &self.workspace_path_map;
        let mut out: Vec<(String, String)> = Vec::new();
        let mut i: usize = 0;
        proof {
            lemma_kept_all(s@, keep);
        }
        while i < s.len()
            invariant
                i <= s@.len(),
                keys_unique(s@),
                keys_unique(out@),
                map_of(out@) == kept_prefix(s@, i as int, keep),
                keep == (|k: Seq<char>| k != dir@),
            decreases s@.len() - i,
        {
            let e = (s[i].0.clone(), s[i].1.clone());
            proof {
                lemma_keep_step(s@, i as int, out@, e, keep);
            }
            if s[i].0 != *dir {
                out.push(e);
            }
            i = i + 1;
        }
        proof {
            lemma_kept_all(s@, keep);
        }
        assert(map_of(out@) =~= self@.remove(dir@));
        self.workspace_path_map = out;
    }
}

} // verus!
