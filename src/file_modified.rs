//! Change detection for tools built from a local source tree: a snapshot of
//! each watched file's size and modification time.
use vstd::prelude::*;
use vstd::string::StrSliceExecFns;
use crate::text::str_eq;
use crate::keyed::{keys_unique, lemma_map_of_at, lemma_map_of_contains, map_of, position_of};
use crate::manifest::{need_install_spec, ToolMap};
use crate::dependency::same_declaration;

verus! {

/// A modification time: seconds and nanoseconds since the Unix epoch.
#[derive(PartialEq, Eq, Structural, Clone, Copy, Debug)]
pub struct FileTime {
    pub secs: u64,
    pub nanos: u32,
}

/// What is recorded of one file.
#[derive(Clone, Copy, Debug)]
pub struct FileModifiedCache {
    pub size: u64,
    /// Absent where the platform gives no modification time.
    pub modified_at: Option<FileTime>,
}

impl View for FileModifiedCache {
    type V = FileModifiedCache;

    open spec fn view(&self) -> FileModifiedCache {
        *self
    }
}

impl FileModifiedCache {
    pub fn same(&self, other: &FileModifiedCache) -> (r: bool)
        ensures
            r == (*self == *other),
    {
        self.size == other.size && match (self.modified_at, other.modified_at) {
            (Some(a), Some(b)) => a == b,
            (None, None) => true,
            _ => false,
        }
    }
}

/// One watched file and what was found of it.
#[derive(Clone, Debug)]
pub struct FileModifiedCacheSet {
    pub path: String,
    pub cache: FileModifiedCache,
}

pub type Snapshot = Map<Seq<char>, FileModifiedCache>;

/// The snapshot of a source tree: from file path to size and time.
#[derive(Clone, Debug)]
pub struct FileModifiedCacheMap {
    files: Vec<(String, FileModifiedCache)>,
}

impl View for FileModifiedCacheMap {
    type V = Snapshot;

    closed spec fn view(&self) -> Snapshot {
        map_of(self.files@)
    }
}

/// The snapshot a list of records makes; a later record of a path wins.
pub open spec fn snapshot_of(sets: Seq<FileModifiedCacheSet>) -> Snapshot
    decreases sets.len(),
{
    if sets.len() == 0 {
        Map::empty()
    } else {
        snapshot_of(sets.drop_last()).insert(sets.last().path@, sets.last().cache)
    }
}

/// A tree changed since its snapshot where no snapshot was kept, or where a
/// file's size or time differs, a recorded file is gone, or a file is new.
pub open spec fn tree_changed(current: Snapshot, recorded: Option<Snapshot>) -> bool {
    match recorded {
        None => true,
        Some(old) => current != old,
    }
}

impl FileModifiedCacheMap {
    pub closed spec fn wf(&self) -> bool {
        keys_unique(self.files@)
    }

    /// The snapshot of the files found; a path listed twice keeps its last record.
    pub fn new(sets: Vec<FileModifiedCacheSet>) -> (r: FileModifiedCacheMap)
        ensures
            r.wf(),
            r@ == snapshot_of(sets@),
    {
        let mut files: Vec<(String, FileModifiedCache)> = Vec::new();
        let mut i: usize = 0;
        while i < sets.len()
            invariant
                i <= sets@.len(),
                keys_unique(files@),
                map_of(files@) == snapshot_of(sets@.subrange(0, i as int)),
            decreases sets@.len() - i,
        {
            let e = (sets[i].path.clone(), sets[i].cache);
            match position_of(&files, &e.0) {
                Some(j) => {
                    proof {
                        crate::keyed::lemma_map_of_update(files@, j as int, e);
                    }
                    files.set(j, e);
                },
                None => {
                    proof {
                        crate::keyed::lemma_push_unique(files@, e);
                    }
                    files.push(e);
                },
            }
            assert(sets@.subrange(0, i + 1).drop_last() =~= sets@.subrange(0, i as int));
            i = i + 1;
        }
        assert(sets@.subrange(0, sets@.len() as int) =~= sets@);
        FileModifiedCacheMap { files }
    }

    pub fn files(&self) -> (r: &Vec<(String, FileModifiedCache)>)
        ensures
            map_of(r@) == self@,
            keys_unique(r@) == self.wf(),
    {
        &self.files
    }

    pub fn get(&self, path: &String) -> (r: Option<FileModifiedCache>)
        requires
            self.wf(),
        ensures
            match r {
                Some(c) => self@.contains_key(path@) && self@[path@] == c,
                None => !self@.contains_key(path@),
            },
    {
        match position_of(&self.files, path) {
            Some(j) => {
                proof {
                    lemma_map_of_at(self.files@, j as int);
                }
                Some(self.files[j].1)
            },
            None => None,
        }
    }

    /// Whether every path of `self` is recorded in `other` with the same size and time.
    fn agrees_into(&self, other: &FileModifiedCacheMap) -> (r: bool)
        requires
            self.wf(),
            other.wf(),
        ensures
            r == forall|k: Seq<char>| #[trigger] self@.contains_key(k) ==> other@.contains_key(k) && other@[k] == self@[k],
    {
        let s = &self.files;
        let mut i: usize = 0;
        while i < s.len()
            invariant
                i <= s@.len(),
                keys_unique(s@),
                map_of(s@) == self@,
                other.wf(),
                forall|j: int| 0 <= j < i ==> other@.contains_key(#[trigger] s@[j].0@) && other@[s@[j].0@] == s@[j].1,
            decreases s@.len() - i,
        {
            proof {
                lemma_map_of_at(s@, i as int);
            }
            match other.get(&s[i].0) {
                Some(c) => {
                    if !c.same(&s[i].1) {
                        return false;
                    }
                },
                None => {
                    return false;
                },
            }
            i = i + 1;
        }
        assert forall|k: Seq<char>| #[trigger] self@.contains_key(k) implies other@.contains_key(k) && other@[k] == self@[k] by {
            lemma_map_of_contains(s@, k);
            let j = choose|j: int| 0 <= j < s@.len() && #[trigger] s@[j].0@ == k;
            lemma_map_of_at(s@, j);
        }
        true
    }
}

/// Whether the source tree changed since `recorded` was taken; a missing
/// snapshot counts as a change.
pub fn has_file_diff(current: &FileModifiedCacheMap, recorded: &Option<FileModifiedCacheMap>) -> (r: bool)
    requires
        current.wf(),
        recorded matches Some(m) ==> m.wf(),
    ensures
        r == tree_changed(current@, match recorded {
            Some(m) => Some(m@),
            None => None,
        }),
{
    match recorded {
        None => true,
        Some(old) => {
            let forward = current.agrees_into(old);
            let backward = old.agrees_into(current);
            if forward && backward {
                assert(current@ =~= old@);
            } else if !forward {
                proof {
                    let k = choose|k: Seq<char>| #[trigger] current@.contains_key(k) && !(old@.contains_key(k) && old@[k] == current@[k]);
                    assert(current@.contains_key(k));
                }
            } else {
                proof {
                    let k = choose|k: Seq<char>| #[trigger] old@.contains_key(k) && !(current@.contains_key(k) && current@[k] == old@[k]);
                    assert(old@.contains_key(k));
                }
            }
            !(forward && backward)
        },
    }
}

pub open spec fn is_watched_name(name: Seq<char>) -> bool {
    (name.len() > 3 && name.subrange(name.len() - 3, name.len() as int) == ".rs"@) || name == "Cargo.toml"@
        || name == "Cargo.lock"@
}

/// A file the change detector watches: Rust sources (extension `rs`) and the
/// package's `Cargo.toml` and `Cargo.lock`.
pub fn is_target_file(file_name: &str) -> (r: bool)
    ensures
        r == is_watched_name(file_name@),
{
    let n = file_name.unicode_len();
    let mut rs = false;
    if n > 3 {
        rs = file_name.get_char(n - 3) == '.' && file_name.get_char(n - 2) == 'r' && file_name.get_char(n - 1) == 's';
        proof {
            reveal_strlit(".rs");
            if rs {
                assert(file_name@.subrange(n - 3, n as int) =~= ".rs"@);
            } else {
                if file_name@.subrange(n - 3, n as int) == ".rs"@ {
                    assert(file_name@.subrange(n - 3, n as int)[0] == file_name@[n - 3]);
                    assert(file_name@.subrange(n - 3, n as int)[1] == file_name@[n - 2]);
                    assert(file_name@.subrange(n - 3, n as int)[2] == file_name@[n - 1]);
                }
            }
        }
    }
    rs || str_eq(file_name, "Cargo.toml") || str_eq(file_name, "Cargo.lock")
}

/// Directory entries the change detector never descends into.
pub fn is_excluded_name(name: &str) -> (r: bool)
    ensures
        r == (name@ == ".git"@ || name@ == "target"@),
{
    str_eq(name, ".git") || str_eq(name, "target")
}

/// A path-backed tool whose declaration is unchanged is installed again
/// exactly when its source tree changed since the snapshot: an identical
/// snapshot keeps it, and a changed size or time, a missing file or a new file
/// brings it back.
pub proof fn law_path_change_detection(
    m: ToolMap,
    c: ToolMap,
    drift: Set<Seq<char>>,
    k: Seq<char>,
    current: Snapshot,
    recorded: Option<Snapshot>,
)
    requires
        m.contains_key(k),
        c.contains_key(k),
        same_declaration(m[k], c[k]),
        m[k].is_path_backed(),
        drift.contains(k) <==> tree_changed(current, recorded),
    ensures
        need_install_spec(m, c, drift).contains_key(k) <==> tree_changed(current, recorded),
        recorded == Some(current) ==> !need_install_spec(m, c, drift).contains_key(k),
        (recorded matches Some(old) && exists|p: Seq<char>| (old.contains_key(p) != current.contains_key(p)) || (
        old.contains_key(p) && old[p] != current[p])) ==> need_install_spec(m, c, drift).contains_key(k),
{
    if let Some(old) = recorded {
        if exists|p: Seq<char>| (old.contains_key(p) != current.contains_key(p)) || (old.contains_key(p) && old[p] != current[p]) {
            let p = choose|p: Seq<char>| (old.contains_key(p) != current.contains_key(p)) || (old.contains_key(p) && old[p] != current[p]);
            assert(old != current);
        }
    }
}

} // verus!
