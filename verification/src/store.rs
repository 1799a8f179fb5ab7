//! What the application keeps between runs: bookmarks, settings and the
//! history of visited directories. Writing them to disk is left to the
//! caller.
use vstd::prelude::*;
use crate::sort::{sort_strings, sorted};
use crate::state::history::DirHistory;
use crate::state::StartupDirectory;
use crate::state::filer::no_dups;
use crate::text::{owned, str_eq, views};

verus! {

/// The bookmarked paths, each once, in the order they were added.
pub struct BookmarkStore {
    pub paths: Vec<String>,
}

impl BookmarkStore {
    pub open spec fn wf(&self) -> bool {
        no_dups(views(self.paths@))
    }

    pub open spec fn path_set(&self) -> Set<Seq<char>> {
        views(self.paths@).to_set()
    }

    pub fn new() -> (r: BookmarkStore)
        ensures
            r.wf(),
            r.paths@.len() == 0,
    {
        BookmarkStore { paths: Vec::new() }
    }

    /// The store holding `paths`, a path given twice kept once.
    pub fn from_paths(paths: Vec<String>) -> (r: BookmarkStore)
        ensures
            r.wf(),
            r.path_set() == views(paths@).to_set(),
    {
        let mut s = BookmarkStore::new();
        let mut i: usize = 0;
        while i < paths.len()
            invariant
                i <= paths@.len(),
                s.wf(),
                s.path_set() == views(paths@.subrange(0, i as int)).to_set(),
            decreases paths@.len() - i,
        {
            s.add(paths[i].as_str());
            proof {
                assert(views(paths@.subrange(0, i + 1)) =~= views(paths@.subrange(0, i as int)).push(paths@[i as int]@));
                views(paths@.subrange(0, i as int)).lemma_push_to_set_commute(paths@[i as int]@);
            }
            i += 1;
        }
        assert(paths@.subrange(0, paths@.len() as int) =~= paths@);
        s
    }

    pub fn has(&self, path: &str) -> (r: bool)
        ensures
            r == self.path_set().contains(path@),
    {
        let mut i: usize = 0;
        while i < self.paths.len()
            invariant
                i <= self.paths@.len(),
                forall|j: int| 0 <= j < i ==> self.paths@[j]@ != path@,
            decreases self.paths@.len() - i,
        {
            if str_eq(self.paths[i].as_str(), path) {
                assert(views(self.paths@)[i as int] == path@);
                return true;
            }
            i += 1;
        }
        assert forall|j: int| 0 <= j < views(self.paths@).len() implies views(self.paths@)[j] != path@ by {
            assert(views(self.paths@)[j] == self.paths@[j]@);
        }
        false
    }

    /// Bookmarks `path` (once).
    pub fn add(&mut self, path: &str)
        requires
            old(self).wf(),
        ensures
            final(self).wf(),
            final(self).path_set() == old(self).path_set().insert(path@),
    {
        if self.has(path) {
            proof {
                assert(self.path_set().insert(path@) =~= self.path_set());
            }
            return;
        }
        let ghost before = views(self.paths@);
        self.paths.push(owned(path));
        proof {
            assert(views(self.paths@) =~= before.push(path@));
            before.lemma_push_to_set_commute(path@);
            assert forall|i: int, j: int| 0 <= i < j < views(self.paths@).len() implies
                #[trigger] views(self.paths@)[i] != #[trigger] views(self.paths@)[j] by {
                if j == before.len() {
                    assert(before.contains(before[i]));
                }
            }
        }
    }

    /// Removes the bookmark of `path`, if any.
    pub fn remove(&mut self, path: &str)
        requires
            old(self).wf(),
        ensures
            final(self).wf(),
            final(self).path_set() == old(self).path_set().remove(path@),
    {
        let ghost before = views(self.paths@);
        let mut k: usize = 0;
        while k < self.paths.len() && !str_eq(self.paths[k].as_str(), path)
            invariant
                k <= self.paths@.len(),
                forall|j: int| 0 <= j < k ==> self.paths@[j]@ != path@,
            decreases self.paths@.len() - k,
        {
            k += 1;
        }
        if k == self.paths.len() {
            proof {
                assert forall|j: int| 0 <= j < before.len() implies before[j] != path@ by {
                    assert(before[j] == self.paths@[j]@);
                }
                assert(self.path_set().remove(path@) =~= self.path_set());
            }
            return;
        }
        self.paths.remove(k);
        proof {
            let after = views(self.paths@);
            assert(after =~= before.remove(k as int));
            assert(before[k as int] == path@);
            assert forall|x: Seq<char>| #[trigger] after.to_set().contains(x) == before.to_set().remove(path@).contains(x) by {
                if after.contains(x) {
                    let j = choose|j: int| 0 <= j < after.len() && after[j] == x;
                    if j < k {
                        assert(before[j] == x);
                    } else {
                        assert(before[j + 1] == x);
                        assert(before[j + 1] != before[k as int]);
                    }
                }
                if before.contains(x) && x != path@ {
                    let j = choose|j: int| 0 <= j < before.len() && before[j] == x;
                    if j < k {
                        assert(after[j] == x);
                    } else {
                        assert(after[j - 1] == x);
                    }
                }
            }
            assert(after.to_set() =~= before.to_set().remove(path@));
            assert forall|i: int, j: int| 0 <= i < j < after.len() implies #[trigger] after[i] != #[trigger] after[j] by {
                let bi = if i < k { i } else { i + 1 };
                let bj = if j < k { j } else { j + 1 };
                assert(before[bi] == after[i] && before[bj] == after[j]);
            }
        }
    }

    /// The bookmarked paths.
    pub fn get_paths(&self) -> (r: Vec<String>)
        ensures
            r@ == self.paths@,
    {
        self.paths.clone()
    }

    /// The paths as they are written to disk: in ascending order.
    pub fn sorted_paths(&self) -> (r: Vec<String>)
        ensures
            sorted(views(r@)),
            views(r@).to_multiset() == views(self.paths@).to_multiset(),
    {
        sort_strings(self.paths.clone())
    }
}

/// The saved settings.
pub struct SettingsStore {
    pub startup_directory: StartupDirectory,
}

impl SettingsStore {
    pub fn new() -> (r: SettingsStore)
        ensures
            r.startup_directory == StartupDirectory::CurrentDirectory,
    {
        SettingsStore { startup_directory: StartupDirectory::CurrentDirectory }
    }

    pub fn startup_directory(&self) -> (r: &StartupDirectory)
        ensures
            *r == self.startup_directory,
    {
        &self.startup_directory
    }

    pub fn set_startup_directory(&mut self, dir: StartupDirectory)
        ensures
            final(self).startup_directory == dir,
    {
        self.startup_directory = dir;
    }
}

/// Everything the application keeps between runs.
pub struct RootStore {
    pub bookmark: BookmarkStore,
    pub settings: SettingsStore,
    pub history: DirHistory,
}

impl RootStore {
    pub open spec fn wf(&self) -> bool {
        self.bookmark.wf() && self.history.wf()
    }

    pub fn new() -> (r: RootStore)
        ensures
            r.wf(),
            r.bookmark.paths@.len() == 0,
            r.history.entries@.len() == 0,
    {
        RootStore { bookmark: BookmarkStore::new(), settings: SettingsStore::new(), history: DirHistory::new() }
    }
}

/// Bookmarking a path and then removing it leaves the bookmarks of every
/// other path as they were.
pub proof fn lemma_add_then_remove(s: Set<Seq<char>>, p: Seq<char>)
    ensures
        s.insert(p).remove(p) == s.remove(p),
        !s.contains(p) ==> s.insert(p).remove(p) == s,
{
    assert(s.insert(p).remove(p) =~= s.remove(p));
    if !s.contains(p) {
        assert(s.remove(p) =~= s);
    }
}

} // verus!
