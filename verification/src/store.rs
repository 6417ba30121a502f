//! The result store: the paths discovered so far, in discovery order, and
//! the flag that says that the scan is complete.
//!
//! The store only ever grows at its end, and only until the flag is set.

use crate::texts;
use vstd::prelude::*;

verus! {

/// What a store holds: the discovered paths in discovery order and the
/// completion flag.
pub struct DiscoveryView {
    pub paths: Seq<Seq<char>>,
    pub done: bool,
}

/// One operation on a store.
pub enum StoreOp {
    /// Add a path at the end.
    Append(Seq<char>),
    /// Set the completion flag.
    MarkDone,
    /// Read the paths; changes nothing.
    Snapshot,
}

impl DiscoveryView {
    /// The store before anything was discovered.
    pub open spec fn initial() -> DiscoveryView {
        DiscoveryView { paths: Seq::empty(), done: false }
    }

    /// The store after one operation. Once the flag is set the paths are
    /// frozen: a later append changes nothing.
    pub open spec fn after(self, op: StoreOp) -> DiscoveryView {
        match op {
            StoreOp::Append(path) => if self.done {
                self
            } else {
                DiscoveryView { paths: self.paths.push(path), done: false }
            },
            StoreOp::MarkDone => DiscoveryView { paths: self.paths, done: true },
            StoreOp::Snapshot => self,
        }
    }

    /// The store after a sequence of operations, applied first to last.
    pub open spec fn after_all(self, ops: Seq<StoreOp>) -> DiscoveryView
        decreases ops.len(),
    {
        if ops.len() == 0 {
            self
        } else {
            self.after_all(ops.drop_last()).after(ops.last())
        }
    }
}

/// The discovered paths and the completion flag.
pub struct DiscoveryState {
    paths: Vec<String>,
    done: bool,
}

impl View for DiscoveryState {
    type V = DiscoveryView;

    closed spec fn view(&self) -> DiscoveryView {
        DiscoveryView { paths: texts(self.paths@), done: self.done }
    }
}

impl DiscoveryState {
    /// An empty store whose scan is not complete.
    pub fn new() -> (store: DiscoveryState)
        ensures
            store@ == DiscoveryView::initial(),
    {
        let store = DiscoveryState { paths: Vec::new(), done: false };
        assert(texts(store.paths@) =~= Seq::<Seq<char>>::empty());
        store
    }

    /// Adds `marker` at the end, unless the scan is complete; says whether
    /// it was added.
    pub fn append(&mut self, marker: String) -> (accepted: bool)
        ensures
            accepted == !old(self)@.done,
            final(self)@ == old(self)@.after(StoreOp::Append(marker@)),
    {
        if self.done {
            return false;
        }
        self.paths.push(marker);
        assert(texts(self.paths@) =~= texts(old(self).paths@).push(marker@));
        true
    }

    /// Sets the completion flag. The paths stay as they are.
    pub fn mark_done(&mut self)
        ensures
            final(self)@ == old(self)@.after(StoreOp::MarkDone),
    {
        self.done = true;
    }

    /// Whether the scan is complete.
    pub fn is_done(&self) -> (done: bool)
        ensures
            done == self@.done,
    {
        self.done
    }

    /// The number of paths discovered so far.
    pub fn len(&self) -> (count: usize)
        ensures
            count == self@.paths.len(),
    {
        self.paths.len()
    }

    /// A copy of the paths discovered so far, in discovery order.
    pub fn snapshot(&self) -> (copy: Vec<String>)
        ensures
            texts(copy@) == self@.paths,
    {
        let mut copy: Vec<String> = Vec::new();
        let mut i: usize = 0;
        while i < self.paths.len()
            invariant
                i <= self.paths.len(),
                copy@.len() == i,
                forall|k: int| 0 <= k < i ==> copy@[k]@ == self.paths@[k]@,
            decreases self.paths.len() - i,
        {
            copy.push(self.paths[i].clone());
            i += 1;
        }
        copy
    }

    /// The paths discovered so far, in discovery order, without copying.
    pub fn into_paths(self) -> (paths: Vec<String>)
        ensures
            texts(paths@) == self@.paths,
    {
        self.paths
    }
}

/// Snapshots are prefix-consistent: over any sequence of operations, the
/// paths after the first `earlier` operations are a prefix of the paths
/// after the first `later` ones, so no entry is lost and no index changes
/// its path; and a completion flag that was set stays set, with the paths
/// frozen from then on.
pub proof fn lemma_snapshots_only_grow(
    start: DiscoveryView,
    ops: Seq<StoreOp>,
    earlier: int,
    later: int,
)
    requires
        0 <= earlier <= later <= ops.len(),
    ensures
        start.after_all(ops.take(earlier)).paths.is_prefix_of(
            start.after_all(ops.take(later)).paths,
        ),
        forall|i: int|
            0 <= i < start.after_all(ops.take(earlier)).paths.len() ==> start.after_all(
                ops.take(later),
            ).paths[i] == start.after_all(ops.take(earlier)).paths[i],
        start.after_all(ops.take(earlier)).done ==> start.after_all(ops.take(later))
            == start.after_all(ops.take(earlier)),
    decreases later - earlier,
{
    if earlier < later {
        lemma_snapshots_only_grow(start, ops, earlier, later - 1);
        assert(ops.take(later).drop_last() =~= ops.take(later - 1));
    }
}

} // verus!
