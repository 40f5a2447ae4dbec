//! Namespaces of the service.

use vstd::prelude::*;

verus! {

/// A namespace. `retention` is how long closed executions are kept:
/// seconds, and nanoseconds within the second.
#[derive(Debug, Clone, PartialEq, Eq)]
pub struct Namespace {
    pub name: String,
    pub state: String,
    pub description: String,
    pub owner_email: String,
    pub retention: Option<(u64, u32)>,
}

pub struct NamespaceView {
    pub name: Seq<char>,
    pub state: Seq<char>,
    pub description: Seq<char>,
    pub owner_email: Seq<char>,
    pub retention: Option<(u64, u32)>,
}

impl View for Namespace {
    type V = NamespaceView;

    open spec fn view(&self) -> NamespaceView {
        NamespaceView {
            name: self.name@,
            state: self.state@,
            description: self.description@,
            owner_email: self.owner_email@,
            retention: self.retention,
        }
    }
}

} // verus!
