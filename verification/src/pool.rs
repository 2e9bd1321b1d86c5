//! Handles into the user interface's node pool.

use vstd::prelude::*;

verus! {

/// An index into the node pool of a [`crate::ui::BuildContext`]. A handle is
/// plain data: it stays valid as long as the slot it points at is occupied.
#[derive(Clone, Copy, PartialEq, Eq, Structural, Debug, Hash)]
pub struct Handle(pub usize);

} // verus!
