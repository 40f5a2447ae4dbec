//! Events of an execution's history.

use vstd::prelude::*;
use crate::domain::time::Timestamp;

verus! {

/// One event of a history. `details` holds the event's attributes as a
/// JSON document.
#[derive(Debug, Clone, PartialEq, Eq)]
pub struct HistoryEvent {
    pub event_id: i64,
    pub event_type: String,
    pub timestamp: Timestamp,
    pub details: String,
}

pub struct HistoryEventView {
    pub event_id: i64,
    pub event_type: Seq<char>,
    pub timestamp: Timestamp,
    pub details: Seq<char>,
}

impl View for HistoryEvent {
    type V = HistoryEventView;

    open spec fn view(&self) -> HistoryEventView {
        HistoryEventView {
            event_id: self.event_id,
            event_type: self.event_type@,
            timestamp: self.timestamp,
            details: self.details@,
        }
    }
}

} // verus!
