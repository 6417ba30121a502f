//! Finds repository roots below a directory and keeps the state of an
//! interactive list in which they are selected and marked as deleted.
//!
//! The traversal engine ([`navigator`]) reports markers one step at a time,
//! the result store ([`store`]) collects them in discovery order, and the
//! interaction state ([`selection`], [`frame`], [`input`]) turns key presses
//! into selection changes, deletion requests and frame descriptions.

use vstd::prelude::*;

pub mod frame;
pub mod input;
pub mod navigator;
pub mod selection;
pub mod store;
pub mod walk;

verus! {

/// The texts of a sequence of strings, in order.
pub open spec fn texts(strings: Seq<String>) -> Seq<Seq<char>> {
    Seq::new(strings.len(), |i: int| strings[i]@)
}

} // verus!
