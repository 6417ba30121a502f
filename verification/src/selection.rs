//! The selection of the interactive list and the entries marked as deleted.
//!
//! Both are indices into the snapshot of the store that the current cycle
//! took. The store only grows at its end, so an index keeps its entry from
//! one cycle to the next; the selection is still brought back into the
//! bounds of each snapshot before a command is applied.

use vstd::prelude::*;

verus! {

/// What a key press asks for.
#[derive(Clone, Copy, Debug, PartialEq, Eq, Structural)]
pub enum Command {
    /// End the interaction.
    Quit,
    /// Remove the selected entry from disk and mark it as deleted.
    Delete,
    /// Move the selection one entry towards the start of the list.
    NavigateUp,
    /// Move the selection one entry towards the end of the list.
    NavigateDown,
    /// Nothing.
    Ignored,
}

/// What the caller has to do after a command was applied.
#[derive(Debug, PartialEq, Eq)]
pub enum Action {
    /// Go on with the next cycle.
    Continue,
    /// Leave the loop.
    Quit,
    /// Remove the directory tree at `path`, the entry at `index`, then
    /// report how that went and go on.
    Remove { index: usize, path: String },
}

/// The selection state as a value: the selected index, if any, the set of
/// indices marked as deleted, and the error of the last removal, if it
/// failed.
pub struct SelectionView {
    pub selected: Option<nat>,
    pub deleted: Set<nat>,
    pub last_delete_error: Option<Seq<char>>,
}

/// The selection brought into the bounds of a list of `len` entries: none
/// for an empty list, the first entry where nothing was selected, the last
/// entry where the index lies beyond it.
pub open spec fn settle(selected: Option<nat>, len: nat) -> Option<nat> {
    if len == 0 {
        None
    } else {
        match selected {
            None => Some(0),
            Some(index) => if index < len {
                Some(index)
            } else {
                Some((len - 1) as nat)
            },
        }
    }
}

impl SelectionView {
    /// Nothing selected, nothing marked, no removal tried.
    pub open spec fn initial() -> SelectionView {
        SelectionView { selected: None, deleted: Set::empty(), last_delete_error: None }
    }

    /// Whether the selection fits a list of `len` entries: an index below
    /// `len`, or none where the list is empty.
    pub open spec fn within(self, len: nat) -> bool {
        match self.selected {
            None => len == 0,
            Some(index) => index < len,
        }
    }

    /// The state with its selection settled for a list of `len` entries.
    pub open spec fn settled(self, len: nat) -> SelectionView {
        SelectionView { selected: settle(self.selected, len), ..self }
    }

    /// The state after `command` was applied against a list of `len`
    /// entries. The selection is settled first. Navigation moves it by one
    /// and stops at either end; a deletion marks the selected index and
    /// leaves the selection where it is.
    pub open spec fn after(self, command: Command, len: nat) -> SelectionView {
        let current = self.settled(len);
        match (command, current.selected) {
            (Command::NavigateDown, Some(index)) => if index + 1 < len {
                SelectionView { selected: Some(index + 1), ..current }
            } else {
                current
            },
            (Command::NavigateUp, Some(index)) => if index > 0 {
                SelectionView { selected: Some((index - 1) as nat), ..current }
            } else {
                current
            },
            (Command::Delete, Some(index)) => SelectionView {
                deleted: current.deleted.insert(index),
                ..current
            },
            _ => current,
        }
    }

    /// The state after a sequence of commands, applied first to last against
    /// a list of `len` entries.
    pub open spec fn after_all(self, commands: Seq<Command>, len: nat) -> SelectionView
        decreases commands.len(),
    {
        if commands.len() == 0 {
            self
        } else {
            self.after_all(commands.drop_last(), len).after(commands.last(), len)
        }
    }

    /// The state after a removal was tried: only the recorded error changes.
    pub open spec fn after_removal(self, failure: Option<Seq<char>>) -> SelectionView {
        SelectionView { last_delete_error: failure, ..self }
    }
}

/// The selected index, the marks and the error of the last removal.
pub struct SelectionState {
    selected: Option<usize>,
    /// One flag for each index up to the last one marked.
    marks: Vec<bool>,
    last_delete_error: Option<String>,
}

impl View for SelectionState {
    type V = SelectionView;

    closed spec fn view(&self) -> SelectionView {
        SelectionView {
            selected: match self.selected {
                Some(index) => Some(index as nat),
                None => None,
            },
            deleted: Set::new(|index: nat| index < self.marks@.len() && self.marks@[index as int]),
            last_delete_error: match self.last_delete_error {
                Some(message) => Some(message@),
                None => None,
            },
        }
    }
}

impl SelectionState {
    /// A state with nothing selected and nothing marked.
    pub fn new() -> (state: SelectionState)
        ensures
            state@ == SelectionView::initial(),
    {
        let state = SelectionState { selected: None, marks: Vec::new(), last_delete_error: None };
        assert(state@.deleted =~= Set::<nat>::empty());
        state
    }

    /// The selected index, if any.
    pub fn selected(&self) -> (index: Option<usize>)
        ensures
            match index {
                Some(i) => self@.selected == Some(i as nat),
                None => self@.selected is None,
            },
    {
        self.selected
    }

    /// Whether the entry at `index` is marked as deleted.
    pub fn is_deleted(&self, index: usize) -> (marked: bool)
        ensures
            marked == self@.deleted.contains(index as nat),
    {
        index < self.marks.len() && self.marks[index]
    }

    /// The error of the last removal, if it failed.
    pub fn last_delete_error(&self) -> (failure: Option<String>)
        ensures
            match failure {
                Some(message) => self@.last_delete_error == Some(message@),
                None => self@.last_delete_error is None,
            },
    {
        match &self.last_delete_error {
            Some(message) => Some(message.clone()),
            None => None,
        }
    }

    /// The selection as it is shown for a list of `len` entries: settled for
    /// that length. The state itself stays as it is.
    pub fn selected_within(&self, len: usize) -> (index: Option<usize>)
        ensures
            match index {
                Some(i) => settle(self@.selected, len as nat) == Some(i as nat),
                None => settle(self@.selected, len as nat) is None,
            },
    {
        if len == 0 {
            None
        } else {
            match self.selected {
                None => Some(0),
                Some(index) => if index < len {
                    Some(index)
                } else {
                    Some(len - 1)
                },
            }
        }
    }

    /// Brings the selection into the bounds of a list of `len` entries.
    pub fn revalidate(&mut self, len: usize)
        ensures
            final(self)@ == old(self)@.settled(len as nat),
    {
        self.selected = self.selected_within(len);
    }

    fn mark(&mut self, index: usize)
        requires
            index < usize::MAX,
        ensures
            final(self)@ == (SelectionView {
                deleted: old(self)@.deleted.insert(index as nat),
                ..old(self)@
            }),
    {
        while self.marks.len() <= index
            invariant
                self.selected == old(self).selected,
                self.last_delete_error == old(self).last_delete_error,
                old(self).marks@.len() <= self.marks@.len(),
                forall|k: int|
                    0 <= k < self.marks@.len() ==> self.marks@[k] == (k < old(self).marks@.len()
                        && old(self).marks@[k]),
            decreases index + 1 - self.marks.len(),
        {
            self.marks.push(false);
        }
        self.marks.set(index, true);
        assert(self@.deleted =~= old(self)@.deleted.insert(index as nat));
    }

    /// Applies `command` against the snapshot of this cycle and says what
    /// the caller has to do. The selection is settled for the snapshot
    /// first. A deletion marks the selected entry whatever becomes of the
    /// removal that it asks for.
    pub fn dispatch(&mut self, command: Command, snapshot: &Vec<String>) -> (action: Action)
        ensures
            final(self)@ == old(self)@.after(command, snapshot@.len()),
            match action {
                Action::Quit => command == Command::Quit,
                Action::Remove { index, path } => {
                    &&& command == Command::Delete
                    &&& index < snapshot@.len()
                    &&& settle(old(self)@.selected, snapshot@.len()) == Some(index as nat)
                    &&& path@ == snapshot@[index as int]@
                },
                Action::Continue => {
                    &&& command != Command::Quit
                    &&& (command == Command::Delete ==> snapshot@.len() == 0)
                },
            },
    {
        let len = snapshot.len();
        self.revalidate(len);
        match command {
            Command::Quit => Action::Quit,
            Command::Ignored => Action::Continue,
            Command::NavigateDown => {
                match self.selected {
                    Some(index) => {
                        if index + 1 < len {
                            self.selected = Some(index + 1);
                        }
                    },
                    None => {},
                }
                Action::Continue
            },
            Command::NavigateUp => {
                match self.selected {
                    Some(index) => {
                        if index > 0 {
                            self.selected = Some(index - 1);
                        }
                    },
                    None => {},
                }
                Action::Continue
            },
            Command::Delete => {
                match self.selected {
                    Some(index) => {
                        self.mark(index);
                        Action::Remove { index, path: snapshot[index].clone() }
                    },
                    None => Action::Continue,
                }
            },
        }
    }

    /// Records how the removal that a deletion asked for went. The marks and
    /// the selection stay as they are.
    pub fn record_removal(&mut self, outcome: Result<(), String>)
        ensures
            final(self)@ == old(self)@.after_removal(
                match outcome {
                    Ok(_) => None,
                    Err(message) => Some(message@),
                },
            ),
    {
        self.last_delete_error = match outcome {
            Ok(_) => None,
            Err(message) => Some(message),
        };
    }
}

/// Navigation stays in bounds and never wraps: whatever the state was, and
/// however many navigation commands came before, the selection after the
/// next one fits the list, lies at most one entry from where it was, and
/// stays put at the end of the list on the way down and at its start on the
/// way up. No mark changes.
pub proof fn lemma_navigation_stays_in_bounds(
    start: SelectionView,
    commands: Seq<Command>,
    len: nat,
    k: int,
)
    requires
        forall|i: int|
            0 <= i < commands.len() ==> commands[i] == Command::NavigateUp || commands[i]
                == Command::NavigateDown,
        0 <= k < commands.len(),
    ensures
        ({
            let before = start.after_all(commands.take(k), len).settled(len);
            let after = start.after_all(commands.take(k + 1), len);
            &&& before.within(len)
            &&& after.within(len)
            &&& after.deleted == before.deleted
            &&& after.last_delete_error == before.last_delete_error
            &&& len > 0 && commands[k] == Command::NavigateDown ==> after.selected == Some(
                if before.selected->0 + 1 < len {
                    before.selected->0 + 1
                } else {
                    before.selected->0
                },
            )
            &&& len > 0 && commands[k] == Command::NavigateUp ==> after.selected == Some(
                if before.selected->0 > 0 {
                    (before.selected->0 - 1) as nat
                } else {
                    0
                },
            )
        }),
{
    assert(commands.take(k + 1).drop_last() =~= commands.take(k));
}

/// A run of navigation commands, however long, ends with the selection in
/// bounds and changes no mark.
pub proof fn lemma_navigation_keeps_marks(start: SelectionView, commands: Seq<Command>, len: nat)
    requires
        forall|i: int|
            0 <= i < commands.len() ==> commands[i] == Command::NavigateUp || commands[i]
                == Command::NavigateDown,
    ensures
        commands.len() > 0 ==> start.after_all(commands, len).within(len),
        start.after_all(commands, len).deleted == start.deleted,
        start.after_all(commands, len).last_delete_error == start.last_delete_error,
    decreases commands.len(),
{
    if commands.len() > 0 {
        lemma_navigation_keeps_marks(start, commands.drop_last(), len);
    }
}

/// Growth of the list leaves the state alone: a selection that fits a list
/// still fits, unchanged, when entries are added at the end, and the marks
/// do not depend on the length of the list at all.
pub proof fn lemma_growth_keeps_selection(state: SelectionView, len: nat, longer: nat)
    requires
        0 < len <= longer,
        state.within(len),
    ensures
        state.settled(longer) == state,
        state.within(longer),
{
}

/// Deleting the same entry twice marks it once: the second deletion leaves
/// the state as the first one made it, and neither the outcome of the first
/// removal nor that of the second changes a mark or the selection.
pub proof fn lemma_delete_marks_once(
    state: SelectionView,
    len: nat,
    first: Option<Seq<char>>,
    second: Option<Seq<char>>,
)
    ensures
        state.after(Command::Delete, len).after(Command::Delete, len) == state.after(
            Command::Delete,
            len,
        ),
        ({
            let once = state.after(Command::Delete, len).after_removal(first);
            let twice = once.after(Command::Delete, len).after_removal(second);
            &&& twice.deleted == once.deleted
            &&& twice.selected == once.selected
            &&& once.deleted == state.after(Command::Delete, len).deleted
            &&& once.selected == state.after(Command::Delete, len).selected
        }),
{
    let once = state.after(Command::Delete, len);
    let recorded = once.after_removal(first);
    assert(recorded.after(Command::Delete, len).deleted =~= recorded.deleted);
}

} // verus!
