//! The directory walker of the `walkdir` crate, as the traversal sees it.
//!
//! The three functions of this file are believed, not proved. The walker
//! reads the file system, so nothing is promised of what it reports: the
//! traversal is verified for every event that can arrive here. What the
//! functions do promise is a record: a walker remembers, in ghost state, how
//! it was opened, which events it has given, and after which of them it was
//! told to leave a directory. Only these functions write the record, so a
//! caller's contract that speaks of it is held to the calls it makes.

use vstd::prelude::*;

verus! {

/// The iterator of `walkdir` over a directory tree, opaque to the verifier.
#[verifier::external_type_specification]
#[verifier::external_body]
pub struct ExIntoIter(walkdir::IntoIter);

/// An entry as `walkdir` yields it, opaque to the verifier; named here
/// because the iterator's item type holds it.
#[verifier::external_type_specification]
#[verifier::external_body]
pub struct ExDirEntry(walkdir::DirEntry);

/// The error that `walkdir` yields in place of an entry it could not read,
/// opaque to the verifier; named here because the iterator's item type
/// holds it.
#[verifier::external_type_specification]
#[verifier::external_body]
pub struct ExError(walkdir::Error);

/// One entry of the tree, as the walker reported it.
#[derive(Debug, PartialEq, Eq)]
pub struct WalkEntry {
    /// The entry's own name, without the directories that lead to it.
    pub name: String,
    /// The path of the directory that holds the entry, if there is one and
    /// its path is valid Unicode.
    pub parent: Option<String>,
    /// Whether the entry is a directory (a link to one is not).
    pub is_dir: bool,
    /// Whether the entry is a symbolic link.
    pub is_symlink: bool,
}

/// What one request to the walker gave.
#[derive(Debug, PartialEq, Eq)]
pub enum WalkEvent {
    /// The next entry of the tree.
    Entry(WalkEntry),
    /// An entry that could not be read; the walk goes on after it.
    Unreadable,
    /// Nothing is left to visit.
    End,
}

/// A walk in progress.
pub struct Walker {
    inner: walkdir::IntoIter,
    root: Ghost<Seq<char>>,
    follows_links: Ghost<bool>,
    events: Ghost<Seq<WalkEvent>>,
    pruned: Ghost<Seq<bool>>,
}

impl Walker {
    /// The path at which the walk was opened.
    pub closed spec fn root(&self) -> Seq<char> {
        self.root@
    }

    /// Whether the walk was opened to enter symbolic links.
    pub closed spec fn follows_links(&self) -> bool {
        self.follows_links@
    }

    /// The events that the walker has given so far, oldest first.
    pub closed spec fn events(&self) -> Seq<WalkEvent> {
        self.events@
    }

    /// For each event so far, whether the walker was told, before it gave
    /// the next one, to leave the directory that it had entered last.
    pub closed spec fn pruned(&self) -> Seq<bool> {
        self.pruned@
    }
}

/// Opens a walk with `walkdir::WalkDir::new`, `follow_links` and
/// `into_iter`. With these, directories come before their contents, and
/// symbolic links below the start path are entered only where
/// `follow_links` says so. Nothing is read before the first request. The
/// contract claims only the record: the walker was opened at the path and
/// with the setting handed in, and has given no event yet.
#[verifier::external_body]
pub(crate) fn open_walker(start_path: &str, follow_links: bool) -> (walker: Walker)
    ensures
        walker.root() == start_path@,
        walker.follows_links() == follow_links,
        walker.events() == Seq::<WalkEvent>::empty(),
        walker.pruned() == Seq::<bool>::empty(),
{
    Walker {
        inner: walkdir::WalkDir::new(start_path).follow_links(follow_links).into_iter(),
        root: Ghost(start_path@),
        follows_links: Ghost(follow_links),
        events: Ghost(Seq::empty()),
        pruned: Ghost(Seq::empty()),
    }
}

/// Asks the walker for its next item with `walkdir::IntoIter::next` and
/// copies out of the `walkdir::DirEntry` what the traversal reads: the file
/// name, the parent of the path, whether the file type is that of a
/// directory, and whether the path is a symbolic link. A name that is not
/// valid Unicode is copied with replacement characters; a parent that is not
/// is left out, so that no path is ever reported that differs from the one
/// on disk. Nothing is claimed of the event itself: the contract says only
/// that the record grows by it, with no request to leave behind it.
#[verifier::external_body]
pub(crate) fn next_event(walker: &mut Walker) -> (event: WalkEvent)
    ensures
        final(walker).root() == old(walker).root(),
        final(walker).follows_links() == old(walker).follows_links(),
        final(walker).events() == old(walker).events().push(event),
        final(walker).pruned() == old(walker).pruned().push(false),
{
    match walker.inner.next() {
        None => WalkEvent::End,
        Some(Err(_)) => WalkEvent::Unreadable,
        Some(Ok(entry)) => WalkEvent::Entry(WalkEntry {
            name: entry.file_name().to_string_lossy().into_owned(),
            parent: entry.path().parent().and_then(std::path::Path::to_str).map(str::to_owned),
            is_dir: entry.file_type().is_dir(),
            is_symlink: entry.path_is_symlink(),
        }),
    }
}

/// Tells the walker with `walkdir::IntoIter::skip_current_dir` to leave the
/// directory it entered last, so that none of its contents are reported.
/// Nothing is claimed of what the walker gives afterwards: the contract
/// says only that the record marks the request behind the last event.
#[verifier::external_body]
pub(crate) fn skip_current_dir(walker: &mut Walker)
    ensures
        final(walker).root() == old(walker).root(),
        final(walker).follows_links() == old(walker).follows_links(),
        final(walker).events() == old(walker).events(),
        final(walker).pruned() == if old(walker).pruned().len() > 0 {
            old(walker).pruned().drop_last().push(true)
        } else {
            old(walker).pruned()
        },
{
    walker.inner.skip_current_dir()
}

} // verus!
