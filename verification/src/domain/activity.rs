//! Activities that an execution is waiting for.

use vstd::prelude::*;
use crate::domain::time::Timestamp;
use crate::text::opt_view;

verus! {

#[derive(Debug, Clone, Copy, PartialEq, Eq, Structural)]
pub enum PendingActivityState {
    Scheduled,
    Started,
    CancelRequested,
}

impl PendingActivityState {
    /// The state's name.
    pub open spec fn name(self) -> Seq<char> {
        match self {
            Self::Scheduled => "Scheduled"@,
            Self::Started => "Started"@,
            Self::CancelRequested => "CancelRequested"@,
        }
    }

    /// The state's name.
    pub fn as_str(&self) -> (s: &'static str)
        ensures
            s@ == self.name(),
    {
        match self {
            Self::Scheduled => "Scheduled",
            Self::Started => "Started",
            Self::CancelRequested => "CancelRequested",
        }
    }
}

#[derive(Debug, Clone, PartialEq, Eq)]
pub struct PendingActivity {
    pub activity_id: String,
    pub activity_type: String,
    pub state: PendingActivityState,
    pub attempt: i32,
    pub scheduled_time: Option<Timestamp>,
    pub last_started_time: Option<Timestamp>,
    pub last_heartbeat_time: Option<Timestamp>,
    pub last_failure_message: Option<String>,
}

pub struct PendingActivityView {
    pub activity_id: Seq<char>,
    pub activity_type: Seq<char>,
    pub state: PendingActivityState,
    pub attempt: i32,
    pub scheduled_time: Option<Timestamp>,
    pub last_started_time: Option<Timestamp>,
    pub last_heartbeat_time: Option<Timestamp>,
    pub last_failure_message: Option<Seq<char>>,
}

impl View for PendingActivity {
    type V = PendingActivityView;

    open spec fn view(&self) -> PendingActivityView {
        PendingActivityView {
            activity_id: self.activity_id@,
            activity_type: self.activity_type@,
            state: self.state,
            attempt: self.attempt,
            scheduled_time: self.scheduled_time,
            last_started_time: self.last_started_time,
            last_heartbeat_time: self.last_heartbeat_time,
            last_failure_message: opt_view(self.last_failure_message),
        }
    }
}

} // verus!
