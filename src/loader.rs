//! Loading a module's dependencies into the process, one library at a time,
//! in the order of its dependency set.
use std::path::PathBuf;
use vstd::prelude::*;

use crate::pipeline::{dependency_order, dependency_rank, lemma_dependencies_first};

verus! {

/// Tracks which libraries of a dependency set have been loaded. The caller
/// loads the library that `next_dependency` names, then reports it with
/// `mark_loaded`; a failed load is fatal and ends the process.
pub struct DependencyLoader {
    deps: Vec<PathBuf>,
    next: usize,
}

impl DependencyLoader {
    pub closed spec fn spec_deps(&self) -> Seq<PathBuf> {
        self.deps@
    }

    /// The libraries loaded so far, in the order they were loaded.
    pub closed spec fn spec_loaded(&self) -> Seq<PathBuf> {
        self.deps@.take(self.next as int)
    }

    pub closed spec fn wf(&self) -> bool {
        self.next <= self.deps@.len()
    }

    /// Starts loading `deps`; nothing is loaded yet.
    pub fn new(deps: Vec<PathBuf>) -> (r: Self)
        ensures
            r.wf(),
            r.spec_deps() == deps@,
            r.spec_loaded() == Seq::<PathBuf>::empty(),
    {
        let r = DependencyLoader { deps, next: 0 };
        assert(r.deps@.take(0) =~= Seq::<PathBuf>::empty());
        r
    }

    /// The library to load next: the first of the set not loaded yet.
    pub fn next_dependency(&self) -> (r: Option<&PathBuf>)
        requires
            self.wf(),
        ensures
            self.spec_loaded().len() < self.spec_deps().len() ==> r == Some(
                &self.spec_deps()[self.spec_loaded().len() as int],
            ),
            self.spec_loaded().len() == self.spec_deps().len() ==> r is None,
    {
        if self.next < self.deps.len() {
            Some(&self.deps[self.next])
        } else {
            None
        }
    }

    /// Records that the library `next_dependency` named has been loaded.
    pub fn mark_loaded(&mut self)
        requires
            old(self).wf(),
            old(self).spec_loaded().len() < old(self).spec_deps().len(),
        ensures
            final(self).wf(),
            final(self).spec_deps() == old(self).spec_deps(),
            final(self).spec_loaded() == old(self).spec_loaded().push(
                old(self).spec_deps()[old(self).spec_loaded().len() as int],
            ),
    {
        let ghost before = self.deps@.take(self.next as int);
        assert(before.len() == self.next);
        let n = self.deps.len();
        assert(self.next < n);
        self.next = self.next + 1;
        assert(self.deps@.take(self.next as int) =~= before.push(self.deps@[self.next - 1]));
    }

    /// Tells whether every library of the set has been loaded.
    pub fn is_done(&self) -> (r: bool)
        requires
            self.wf(),
        ensures
            r == (self.spec_loaded() == self.spec_deps()),
    {
        assert(self.deps@.take(self.deps@.len() as int) =~= self.deps@);
        self.next == self.deps.len()
    }
}

/// The libraries loaded so far are always the start of the dependency set.
pub proof fn lemma_loaded_prefix(l: DependencyLoader)
    requires
        l.wf(),
    ensures
        l.spec_loaded().len() <= l.spec_deps().len(),
        forall|k: int| 0 <= k < l.spec_loaded().len() ==> l.spec_loaded()[k] == l.spec_deps()[k],
{
}

/// A dependency is loaded before the library that uses it: when the crates a
/// unit links were discovered in `used`, and the crate at `i` uses the one
/// at `j` (found after it), then once the loader of the unit's dependency set
/// has loaded the path of `i`, it has already loaded the path of `j`, at an
/// earlier place.
pub proof fn lemma_dependency_loaded_first(l: DependencyLoader, used: Seq<Option<PathBuf>>, i: int, j: int)
    requires
        l.wf(),
        l.spec_deps() == dependency_order(used),
        0 <= i < j < used.len(),
        used[i] is Some,
        used[j] is Some,
    ensures
        dependency_rank(used, i) < l.spec_loaded().len() ==> {
            &&& dependency_rank(used, j) < dependency_rank(used, i)
            &&& l.spec_loaded()[dependency_rank(used, j)] == used[j]->Some_0
            &&& l.spec_loaded()[dependency_rank(used, i)] == used[i]->Some_0
        },
{
    lemma_dependencies_first(used, i, j);
}

} // verus!
