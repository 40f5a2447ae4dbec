//! Schedules.

use vstd::prelude::*;
use crate::domain::time::Timestamp;

verus! {

#[derive(Debug, Clone, Copy, PartialEq, Eq, Structural)]
pub enum ScheduleState {
    Active,
    Paused,
}

impl ScheduleState {
    /// The state's name.
    pub open spec fn name(self) -> Seq<char> {
        match self {
            Self::Active => "Active"@,
            Self::Paused => "Paused"@,
        }
    }

    /// The state's name.
    pub fn as_str(&self) -> (s: &'static str)
        ensures
            s@ == self.name(),
    {
        match self {
            Self::Active => "Active",
            Self::Paused => "Paused",
        }
    }
}

#[derive(Debug, Clone, PartialEq, Eq)]
pub struct Schedule {
    pub schedule_id: String,
    pub workflow_type: String,
    pub state: ScheduleState,
    pub spec_description: String,
    pub next_run: Option<Timestamp>,
    pub recent_action_count: u64,
    pub notes: String,
}

pub struct ScheduleView {
    pub schedule_id: Seq<char>,
    pub workflow_type: Seq<char>,
    pub state: ScheduleState,
    pub spec_description: Seq<char>,
    pub next_run: Option<Timestamp>,
    pub recent_action_count: u64,
    pub notes: Seq<char>,
}

impl View for Schedule {
    type V = ScheduleView;

    open spec fn view(&self) -> ScheduleView {
        ScheduleView {
            schedule_id: self.schedule_id@,
            workflow_type: self.workflow_type@,
            state: self.state,
            spec_description: self.spec_description@,
            next_run: self.next_run,
            recent_action_count: self.recent_action_count,
            notes: self.notes@,
        }
    }
}

} // verus!
