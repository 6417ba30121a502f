//! What one cycle puts on the display: the status line, the rows of the
//! list and the selected row.
//!
//! A frame is a description. Drawing it is the caller's business.

use crate::selection::{settle, SelectionState};
use vstd::prelude::*;
use vstd::string::StringExecFns;

verus! {

/// How far the scan has come.
#[derive(Clone, Copy, Debug, PartialEq, Eq, Structural)]
pub enum Status {
    /// The scan is running; `found` roots were discovered so far.
    Scanning { found: usize },
    /// The scan is complete.
    Ready,
}

/// One row of the list.
#[derive(Debug, PartialEq, Eq)]
pub struct Row {
    /// The path of the repository root.
    pub path: String,
    /// Whether the entry is marked as deleted.
    pub deleted: bool,
}

/// One frame: everything that a cycle shows.
#[derive(Debug, PartialEq, Eq)]
pub struct Frame {
    pub status: Status,
    /// The discovered roots in discovery order; marked entries stay in the
    /// list.
    pub rows: Vec<Row>,
    /// The selected row, if the list has any.
    pub selected: Option<usize>,
}

/// The character of a decimal digit.
pub open spec fn digit(d: nat) -> char
    recommends
        d < 10,
{
    if d == 0 {
        '0'
    } else if d == 1 {
        '1'
    } else if d == 2 {
        '2'
    } else if d == 3 {
        '3'
    } else if d == 4 {
        '4'
    } else if d == 5 {
        '5'
    } else if d == 6 {
        '6'
    } else if d == 7 {
        '7'
    } else if d == 8 {
        '8'
    } else {
        '9'
    }
}

/// A number in decimal notation, without leading zeros.
pub open spec fn decimal(n: nat) -> Seq<char>
    decreases n,
{
    if n < 10 {
        seq![digit(n)]
    } else {
        decimal(n / 10).push(digit(n % 10))
    }
}

/// The text of the status line.
pub open spec fn status_text(status: Status) -> Seq<char> {
    match status {
        Status::Scanning { found } => "Scanning, "@ + decimal(found as nat) + " found so far"@,
        Status::Ready => "Ready"@,
    }
}

/// The text of a row: the path, behind a tag where the entry is marked as
/// deleted.
pub open spec fn row_label(path: Seq<char>, deleted: bool) -> Seq<char> {
    if deleted {
        "[deleted] "@ + path
    } else {
        path
    }
}

fn digit_text(d: usize) -> (text: &'static str)
    requires
        d < 10,
    ensures
        text@ == seq![digit(d as nat)],
{
    proof {
        reveal_strlit("0");
        reveal_strlit("1");
        reveal_strlit("2");
        reveal_strlit("3");
        reveal_strlit("4");
        reveal_strlit("5");
        reveal_strlit("6");
        reveal_strlit("7");
        reveal_strlit("8");
        reveal_strlit("9");
    }
    let text = if d == 0 {
        "0"
    } else if d == 1 {
        "1"
    } else if d == 2 {
        "2"
    } else if d == 3 {
        "3"
    } else if d == 4 {
        "4"
    } else if d == 5 {
        "5"
    } else if d == 6 {
        "6"
    } else if d == 7 {
        "7"
    } else if d == 8 {
        "8"
    } else {
        "9"
    };
    text
}

/// Writes a number in decimal notation.
pub fn decimal_text(n: usize) -> (text: String)
    ensures
        text@ == decimal(n as nat),
    decreases n,
{
    if n < 10 {
        String::from_str(digit_text(n))
    } else {
        let mut text = decimal_text(n / 10);
        text.append(digit_text(n % 10));
        text
    }
}

impl Status {
    /// The status of a scan that is complete or not, with `found` roots
    /// discovered.
    pub open spec fn of(done: bool, found: usize) -> Status {
        if done {
            Status::Ready
        } else {
            Status::Scanning { found }
        }
    }

    /// The text of the status line.
    pub fn text(&self) -> (text: String)
        ensures
            text@ == status_text(*self),
    {
        match self {
            Status::Scanning { found } => {
                let mut text = String::from_str("Scanning, ");
                let count = decimal_text(*found);
                text.append(count.as_str());
                text.append(" found so far");
                text
            },
            Status::Ready => String::from_str("Ready"),
        }
    }
}

impl Row {
    /// The text of the row.
    pub fn label(&self) -> (text: String)
        ensures
            text@ == row_label(self.path@, self.deleted),
    {
        if self.deleted {
            let mut text = String::from_str("[deleted] ");
            text.append(self.path.as_str());
            text
        } else {
            self.path.clone()
        }
    }
}

/// Describes the frame of one cycle from the completion flag and the
/// snapshot that the cycle read and from the selection state: one row for
/// each discovered root, in discovery order, tagged where it is marked as
/// deleted, and the selection settled for the length of the snapshot.
pub fn compose(done: bool, snapshot: &Vec<String>, selection: &SelectionState) -> (frame: Frame)
    ensures
        frame.status == Status::of(done, snapshot.len()),
        frame.rows@.len() == snapshot@.len(),
        forall|i: int|
            0 <= i < snapshot@.len() ==> {
                &&& (#[trigger] frame.rows@[i]).path@ == snapshot@[i]@
                &&& frame.rows@[i].deleted == selection@.deleted.contains(i as nat)
            },
        match frame.selected {
            Some(index) => settle(selection@.selected, snapshot@.len()) == Some(index as nat),
            None => settle(selection@.selected, snapshot@.len()) is None,
        },
{
    let mut rows: Vec<Row> = Vec::new();
    let mut i: usize = 0;
    while i < snapshot.len()
        invariant
            i <= snapshot.len(),
            rows@.len() == i,
            forall|k: int|
                0 <= k < i ==> {
                    &&& (#[trigger] rows@[k]).path@ == snapshot@[k]@
                    &&& rows@[k].deleted == selection@.deleted.contains(k as nat)
                },
        decreases snapshot.len() - i,
    {
        rows.push(Row { path: snapshot[i].clone(), deleted: selection.is_deleted(i) });
        i += 1;
    }
    let status = if done {
        Status::Ready
    } else {
        Status::Scanning { found: snapshot.len() }
    };
    Frame { status, rows, selected: selection.selected_within(snapshot.len()) }
}

} // verus!
