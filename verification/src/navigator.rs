//! The traversal engine: walks a directory tree and reports the directories
//! that hold a repository marker.
//!
//! A marker is a real directory named `.git`. Its parent is reported, and
//! the walker is told not to enter the marker itself. Symbolic links are
//! not followed, and entries that cannot be read are passed by.
//!
//! What the walker reports depends on the disk, so the contracts here speak
//! of the record that the walker keeps: the events that it gave, and after
//! which of them it was told to leave a directory.

use crate::store::{DiscoveryState, StoreOp};
use crate::texts;
use crate::walk::{next_event, open_walker, skip_current_dir, WalkEntry, WalkEvent, Walker};
use vstd::prelude::*;
use vstd::string::StringExecFns;

verus! {

/// The most entries that one traversal visits before it gives up.
pub const STEP_LIMIT: u64 = u64::MAX;

/// Whether a traversal enters symbolic links: it does not.
pub const FOLLOW_LINKS: bool = false;

/// What one step of the traversal produced.
#[derive(Debug, PartialEq, Eq)]
pub enum Progress {
    /// A repository root: the directory that holds a marker.
    Found(String),
    /// An entry that is no marker, or one that could not be read.
    Passed,
    /// The traversal is over.
    Exhausted,
}

/// The name of the directory that marks a repository root.
pub open spec fn marker_name() -> Seq<char> {
    seq!['.', 'g', 'i', 't']
}

/// Whether an entry marks a repository root: a directory, no symbolic link,
/// with the marker's name, inside a directory whose path is known.
pub open spec fn is_marker(entry: WalkEntry) -> bool {
    &&& entry.is_dir
    &&& !entry.is_symlink
    &&& entry.name@ == marker_name()
    &&& entry.parent is Some
}

/// What the traversal makes of one event of the walker.
pub open spec fn outcome(event: WalkEvent) -> Progress {
    match event {
        WalkEvent::End => Progress::Exhausted,
        WalkEvent::Unreadable => Progress::Passed,
        WalkEvent::Entry(entry) => if is_marker(entry) {
            Progress::Found(entry.parent->0)
        } else {
            Progress::Passed
        },
    }
}

/// The repository roots among a sequence of events, in the order of the
/// events.
pub open spec fn markers_of(events: Seq<WalkEvent>) -> Seq<Seq<char>>
    decreases events.len(),
{
    if events.len() == 0 {
        Seq::empty()
    } else {
        match outcome(events.last()) {
            Progress::Found(root) => markers_of(events.drop_last()).push(root@),
            _ => markers_of(events.drop_last()),
        }
    }
}

/// Whether none of the events is the end of the walk.
pub open spec fn no_end_in(events: Seq<WalkEvent>) -> bool {
    forall|i: int| 0 <= i < events.len() ==> !(#[trigger] events[i] is End)
}

/// Whether a run of events was driven to its end: it holds an event, it
/// stops where the walker had nothing left or where `limit` entries were
/// visited, and not before.
pub open spec fn walked_to_end(run: Seq<WalkEvent>, limit: nat) -> bool {
    &&& run.len() > 0
    &&& (run.last() is End || run.len() == limit)
    &&& no_end_in(run.drop_last())
}

proof fn lemma_no_end_grows(run: Seq<WalkEvent>)
    requires
        run.len() > 0,
        no_end_in(run.drop_last()),
        !(run.last() is End),
    ensures
        no_end_in(run),
{
    assert forall|i: int| 0 <= i < run.len() implies !(#[trigger] run[i] is End) by {
        if i < run.len() - 1 {
            assert(run.drop_last()[i] == run[i]);
        }
    }
}

fn is_marker_name(name: &String) -> (same: bool)
    ensures
        same == (name@ == marker_name()),
{
    let marker = String::from_str(".git");
    proof {
        reveal_strlit(".git");
        assert(marker@ =~= marker_name());
    }
    *name == marker
}

/// Decides what an event of the walker means for the traversal.
pub fn classify(event: WalkEvent) -> (progress: Progress)
    ensures
        progress == outcome(event),
{
    match event {
        WalkEvent::End => Progress::Exhausted,
        WalkEvent::Unreadable => Progress::Passed,
        WalkEvent::Entry(entry) => {
            if entry.is_dir && !entry.is_symlink && is_marker_name(&entry.name) {
                match entry.parent {
                    Some(root) => Progress::Found(root),
                    None => Progress::Passed,
                }
            } else {
                Progress::Passed
            }
        },
    }
}

/// A traversal in progress.
pub struct Traversal {
    walker: Walker,
    remaining: u64,
}

impl Traversal {
    /// The path at which the traversal started.
    pub closed spec fn root(&self) -> Seq<char> {
        self.walker.root()
    }

    /// Whether the walker was opened to enter symbolic links.
    pub closed spec fn follows_links(&self) -> bool {
        self.walker.follows_links()
    }

    /// The events that the walker has given so far, oldest first.
    pub closed spec fn events(&self) -> Seq<WalkEvent> {
        self.walker.events()
    }

    /// For each event so far, whether the walker was then told to leave the
    /// directory that it had just reported.
    pub closed spec fn pruned(&self) -> Seq<bool> {
        self.walker.pruned()
    }

    /// How many more entries the traversal will visit at most; 0 once it is
    /// over.
    pub closed spec fn remaining(&self) -> nat {
        self.remaining as nat
    }

    /// The pruning rule: the walker was told to leave a directory after
    /// every event that is a marker, and after no other.
    pub open spec fn prunes_markers(&self) -> bool {
        &&& self.pruned().len() == self.events().len()
        &&& forall|i: int|
            0 <= i < self.events().len() ==> self.pruned()[i] == reports(self.events()[i])
    }

    /// Starts a traversal at `start_path` that enters no symbolic link.
    /// Nothing is read yet. The traversal will give up after `STEP_LIMIT`
    /// entries.
    pub fn open(start_path: &str) -> (traversal: Traversal)
        ensures
            traversal.root() == start_path@,
            !traversal.follows_links(),
            traversal.events() == Seq::<WalkEvent>::empty(),
            traversal.pruned() == Seq::<bool>::empty(),
            traversal.remaining() == STEP_LIMIT,
            traversal.prunes_markers(),
    {
        Traversal { walker: open_walker(start_path, FOLLOW_LINKS), remaining: STEP_LIMIT }
    }

    /// Whether the traversal is over.
    pub fn is_finished(&self) -> (finished: bool)
        ensures
            finished == (self.remaining() == 0),
    {
        self.remaining == 0
    }

    /// Takes one step: asks the walker for its next event and says what it
    /// means. On a marker the walker is told to leave the marker directory
    /// at once. A traversal that is over stays over and asks nothing.
    pub fn advance(&mut self) -> (progress: Progress)
        ensures
            final(self).root() == old(self).root(),
            final(self).follows_links() == old(self).follows_links(),
            old(self).remaining() == 0 ==> {
                &&& progress is Exhausted
                &&& final(self).events() == old(self).events()
                &&& final(self).pruned() == old(self).pruned()
                &&& final(self).remaining() == 0
            },
            old(self).remaining() > 0 ==> {
                &&& final(self).events().len() == old(self).events().len() + 1
                &&& final(self).events().drop_last() == old(self).events()
                &&& progress == outcome(final(self).events().last())
                &&& final(self).pruned() == old(self).pruned().push(progress is Found)
                &&& final(self).remaining() == if progress is Exhausted {
                    0
                } else {
                    old(self).remaining() - 1
                }
            },
            old(self).prunes_markers() ==> final(self).prunes_markers(),
    {
        if self.remaining == 0 {
            return Progress::Exhausted;
        }
        let event = next_event(&mut self.walker);
        let progress = classify(event);
        match &progress {
            Progress::Found(_) => {
                skip_current_dir(&mut self.walker);
                self.remaining = self.remaining - 1;
            },
            Progress::Passed => {
                self.remaining = self.remaining - 1;
            },
            Progress::Exhausted => {
                self.remaining = 0;
            },
        }
        progress
    }

    /// Steps on to the next repository root and returns it, or returns
    /// nothing when the traversal ends first. The marker of the root is the
    /// last event of the run, and no event before it was a marker. Where
    /// nothing is returned, the run went on until the walker had nothing
    /// left or the step limit was reached.
    pub fn next_marker(&mut self) -> (root: Option<String>)
        ensures
            final(self).root() == old(self).root(),
            final(self).follows_links() == old(self).follows_links(),
            old(self).events().is_prefix_of(final(self).events()),
            old(self).prunes_markers() ==> final(self).prunes_markers(),
            old(self).remaining() == 0 ==> root is None && final(self).events() == old(
                self,
            ).events(),
            ({
                let run = final(self).events().skip(old(self).events().len() as int);
                match root {
                    Some(found) => {
                        &&& run.len() > 0
                        &&& outcome(run.last()) == Progress::Found(found)
                        &&& markers_of(run) == seq![found@]
                        &&& final(self).remaining() == old(self).remaining() - run.len()
                    },
                    None => {
                        &&& markers_of(run) == Seq::<Seq<char>>::empty()
                        &&& final(self).remaining() == 0
                        &&& old(self).remaining() > 0 ==> walked_to_end(
                            run,
                            old(self).remaining(),
                        )
                    },
                }
            }),
    {
        let ghost before = self.events();
        loop
            invariant
                self.root() == old(self).root(),
                self.follows_links() == old(self).follows_links(),
                before == old(self).events(),
                before.is_prefix_of(self.events()),
                old(self).prunes_markers() ==> self.prunes_markers(),
                markers_of(self.events().skip(before.len() as int)) == Seq::<Seq<char>>::empty(),
                no_end_in(self.events().skip(before.len() as int)),
                self.events().len() - before.len() + self.remaining() == old(self).remaining(),
            decreases self.remaining(),
        {
            let ghost earlier = self.events();
            let progress = self.advance();
            proof {
                if self.events().len() > earlier.len() {
                    let run = self.events().skip(before.len() as int);
                    assert(run.drop_last() =~= earlier.skip(before.len() as int));
                    if !(progress is Exhausted) {
                        lemma_no_end_grows(run);
                    }
                }
            }
            match progress {
                Progress::Found(found) => {
                    return Some(found);
                },
                Progress::Exhausted => {
                    return None;
                },
                Progress::Passed => {},
            }
        }
    }
}

/// Hands one outcome of the traversal to the store: a repository root is
/// appended, the end of the traversal sets the completion flag, anything
/// else leaves the store as it is.
pub fn record(store: &mut DiscoveryState, progress: Progress)
    ensures
        final(store)@ == match progress {
            Progress::Found(root) => old(store)@.after(StoreOp::Append(root@)),
            Progress::Passed => old(store)@,
            Progress::Exhausted => old(store)@.after(StoreOp::MarkDone),
        },
{
    match progress {
        Progress::Found(root) => {
            store.append(root);
        },
        Progress::Passed => {},
        Progress::Exhausted => {
            store.mark_done();
        },
    }
}

/// Drives the traversal to its end and records every outcome in the store:
/// the run goes on until the walker has nothing left or the step limit is
/// reached, the repository roots among its events are appended in the order
/// of the events, and the completion flag is set at the end. A traversal
/// that was over asks the walker nothing. A store whose flag was set before
/// keeps its paths.
pub fn scan(traversal: &mut Traversal, store: &mut DiscoveryState)
    ensures
        final(traversal).root() == old(traversal).root(),
        final(traversal).follows_links() == old(traversal).follows_links(),
        final(traversal).remaining() == 0,
        old(traversal).events().is_prefix_of(final(traversal).events()),
        old(traversal).prunes_markers() ==> final(traversal).prunes_markers(),
        old(traversal).remaining() == 0 ==> final(traversal).events() == old(traversal).events(),
        old(traversal).remaining() > 0 ==> walked_to_end(
            final(traversal).events().skip(old(traversal).events().len() as int),
            old(traversal).remaining(),
        ),
        final(store)@.done,
        final(store)@.paths == if old(store)@.done {
            old(store)@.paths
        } else {
            old(store)@.paths + markers_of(
                final(traversal).events().skip(old(traversal).events().len() as int),
            )
        },
{
    let ghost before = old(traversal).events();
    let ghost start = old(store)@;
    loop
        invariant_except_break
            store@.done == start.done,
            no_end_in(traversal.events().skip(before.len() as int)),
            traversal.events().len() - before.len() + traversal.remaining() == old(
                traversal,
            ).remaining(),
        invariant
            traversal.root() == old(traversal).root(),
            traversal.follows_links() == old(traversal).follows_links(),
            before == old(traversal).events(),
            before.is_prefix_of(traversal.events()),
            old(traversal).prunes_markers() ==> traversal.prunes_markers(),
            store@.paths == if start.done {
                start.paths
            } else {
                start.paths + markers_of(traversal.events().skip(before.len() as int))
            },
        ensures
            traversal.remaining() == 0,
            store@.done,
            old(traversal).remaining() == 0 ==> traversal.events() == before,
            old(traversal).remaining() > 0 ==> walked_to_end(
                traversal.events().skip(before.len() as int),
                old(traversal).remaining(),
            ),
        decreases traversal.remaining(),
    {
        let ghost earlier = traversal.events();
        let progress = traversal.advance();
        let over = matches!(progress, Progress::Exhausted);
        proof {
            if traversal.events().len() > earlier.len() {
                let run = traversal.events().skip(before.len() as int);
                assert(run.drop_last() =~= earlier.skip(before.len() as int));
                if !(progress is Exhausted) {
                    lemma_no_end_grows(run);
                }
            }
        }
        record(store, progress);
        if over {
            break;
        }
    }
}

/// Walks the tree below `start_path`, entering no symbolic link, until the
/// walker has nothing left, and returns the repository roots in the order
/// in which the walk met their markers. A start path that cannot be read
/// gives no roots.
///
/// The roots are those among the events of one traversal that was opened at
/// `start_path`, kept the pruning rule and was driven to its end. Which
/// events these are depends on the disk.
pub fn find_git_repos(start_path: &str) -> (found: Vec<String>)
    ensures
        exists|traversal: Traversal|
            {
                &&& traversal.root() == start_path@
                &&& !traversal.follows_links()
                &&& traversal.prunes_markers()
                &&& walked_to_end(traversal.events(), STEP_LIMIT as nat)
                &&& texts(found@) == #[trigger] markers_of(traversal.events())
            },
{
    let mut traversal = Traversal::open(start_path);
    let mut store = DiscoveryState::new();
    scan(&mut traversal, &mut store);
    proof {
        assert(traversal.events().skip(0) =~= traversal.events());
    }
    store.into_paths()
}

/// Whether an event makes the traversal report a repository root.
pub open spec fn reports(event: WalkEvent) -> bool {
    outcome(event) is Found
}

/// The path that an event makes the traversal report, where it reports one.
pub open spec fn reported(event: WalkEvent) -> Seq<char>
    recommends
        reports(event),
{
    outcome(event)->Found_0@
}

/// Every marker among the events is reported exactly once, as the path of
/// the directory that holds it and at its place in the order of the events,
/// and nothing else is reported.
pub proof fn lemma_each_marker_is_reported_once(events: Seq<WalkEvent>)
    ensures
        markers_of(events) == events.filter(|event: WalkEvent| reports(event)).map_values(
            |event: WalkEvent| reported(event),
        ),
    decreases events.len(),
{
    reveal_with_fuel(Seq::filter, 1);
    if events.len() > 0 {
        lemma_each_marker_is_reported_once(events.drop_last());
    }
}

/// A symbolic link is never taken for a marker, whatever its name and
/// whatever it points to: the traversal passes it by.
pub proof fn lemma_links_are_passed_by(entry: WalkEntry)
    requires
        entry.is_symlink,
    ensures
        outcome(WalkEvent::Entry(entry)) == Progress::Passed,
{
}

/// What is not a directory is never taken for a marker, and neither is a
/// directory of another name.
pub proof fn lemma_only_marker_directories_report(event: WalkEvent)
    requires
        reports(event),
    ensures
        event is Entry,
        event->Entry_0.is_dir,
        !event->Entry_0.is_symlink,
        event->Entry_0.name@ == marker_name(),
        event->Entry_0.parent == Some(outcome(event)->Found_0),
{
}

} // verus!
