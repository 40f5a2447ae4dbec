//! What is on screen, and how keys are read.

use crate::kinds::KindId;
use vstd::prelude::*;

verus! {

/// What is on screen: the list of a kind, or one record of it.
#[derive(Debug, Clone, Copy, PartialEq, Eq, Structural)]
pub enum View {
    Collection(KindId),
    Detail(KindId),
}

#[derive(Debug, Clone, Copy, PartialEq, Eq, Structural)]
pub enum InputMode {
    Normal,
    Command,
    Search,
    PendingG,
}

} // verus!
