//! Shared helper types for the persistence layer.

use vstd::prelude::*;

verus! {

/// The intent of a persistence operation. An insert leaves the update
/// timestamp empty; an update stamps it with the current time. The two
/// are told apart by this explicit parameter, never inferred from the
/// record itself.
#[derive(Clone, Copy, Debug, PartialEq, Eq, Structural)]
pub enum SaveType {
    Insert,
    Update,
}

} // verus!
