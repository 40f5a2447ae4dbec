//! Executions: their summaries and details.

use vstd::prelude::*;
use crate::domain::activity::{PendingActivity, PendingActivityView};
use crate::domain::time::Timestamp;
use crate::text::{clone_opt, opt_view, views};

verus! {

#[derive(Debug, Clone, Copy, PartialEq, Eq, Structural)]
pub enum WorkflowStatus {
    Running,
    Completed,
    Failed,
    Canceled,
    Terminated,
    TimedOut,
    ContinuedAsNew,
}

impl WorkflowStatus {
    /// The status's name.
    pub open spec fn name(self) -> Seq<char> {
        match self {
            Self::Running => "Running"@,
            Self::Completed => "Completed"@,
            Self::Failed => "Failed"@,
            Self::Canceled => "Canceled"@,
            Self::Terminated => "Terminated"@,
            Self::TimedOut => "TimedOut"@,
            Self::ContinuedAsNew => "ContinuedAsNew"@,
        }
    }

    /// The one-character mark shown beside the status.
    pub open spec fn mark(self) -> Seq<char> {
        match self {
            Self::Running => "●"@,
            Self::Completed => "✓"@,
            Self::Failed => "✗"@,
            Self::Canceled => "⊘"@,
            Self::Terminated => "⊗"@,
            Self::TimedOut => "⏱"@,
            Self::ContinuedAsNew => "↻"@,
        }
    }

    /// The status's name.
    pub fn as_str(&self) -> (s: &'static str)
        ensures
            s@ == self.name(),
    {
        match self {
            Self::Running => "Running",
            Self::Completed => "Completed",
            Self::Failed => "Failed",
            Self::Canceled => "Canceled",
            Self::Terminated => "Terminated",
            Self::TimedOut => "TimedOut",
            Self::ContinuedAsNew => "ContinuedAsNew",
        }
    }

    /// The one-character mark shown beside the status.
    pub fn symbol(&self) -> (s: &'static str)
        ensures
            s@ == self.mark(),
    {
        match self {
            Self::Running => "●",
            Self::Completed => "✓",
            Self::Failed => "✗",
            Self::Canceled => "⊘",
            Self::Terminated => "⊗",
            Self::TimedOut => "⏱",
            Self::ContinuedAsNew => "↻",
        }
    }
}

#[derive(Debug, Clone, PartialEq, Eq)]
pub struct WorkflowSummary {
    pub workflow_id: String,
    pub run_id: String,
    pub workflow_type: String,
    pub status: WorkflowStatus,
    pub start_time: Timestamp,
    pub close_time: Option<Timestamp>,
    pub task_queue: String,
}

/// Why an execution failed.
#[derive(Debug, PartialEq, Eq)]
pub struct FailureInfo {
    pub message: String,
    pub failure_type: String,
    pub stack_trace: Option<String>,
    pub cause: Option<Box<FailureInfo>>,
}

/// An execution in detail. `input` and `output` hold JSON documents;
/// `memo` and `search_attributes` hold named JSON documents.
#[derive(Debug, Clone, PartialEq, Eq)]
pub struct WorkflowDetail {
    pub summary: WorkflowSummary,
    pub input: Option<String>,
    pub output: Option<String>,
    pub failure: Option<FailureInfo>,
    pub history_length: u64,
    pub memo: Vec<(String, String)>,
    pub search_attributes: Vec<(String, String)>,
    pub pending_activities: Vec<PendingActivity>,
}

pub struct WorkflowSummaryView {
    pub workflow_id: Seq<char>,
    pub run_id: Seq<char>,
    pub workflow_type: Seq<char>,
    pub status: WorkflowStatus,
    pub start_time: Timestamp,
    pub close_time: Option<Timestamp>,
    pub task_queue: Seq<char>,
}

pub struct FailureInfoView {
    pub message: Seq<char>,
    pub failure_type: Seq<char>,
    pub stack_trace: Option<Seq<char>>,
    pub cause: Option<Box<FailureInfoView>>,
}

pub struct WorkflowDetailView {
    pub summary: WorkflowSummaryView,
    pub input: Option<Seq<char>>,
    pub output: Option<Seq<char>>,
    pub failure: Option<FailureInfoView>,
    pub history_length: u64,
    pub memo: Seq<(Seq<char>, Seq<char>)>,
    pub search_attributes: Seq<(Seq<char>, Seq<char>)>,
    pub pending_activities: Seq<PendingActivityView>,
}

impl View for WorkflowSummary {
    type V = WorkflowSummaryView;

    open spec fn view(&self) -> WorkflowSummaryView {
        WorkflowSummaryView {
            workflow_id: self.workflow_id@,
            run_id: self.run_id@,
            workflow_type: self.workflow_type@,
            status: self.status,
            start_time: self.start_time,
            close_time: self.close_time,
            task_queue: self.task_queue@,
        }
    }
}

impl View for FailureInfo {
    type V = FailureInfoView;

    open spec fn view(&self) -> FailureInfoView
        decreases self,
    {
        FailureInfoView {
            message: self.message@,
            failure_type: self.failure_type@,
            stack_trace: opt_view(self.stack_trace),
            cause: match self.cause {
                Some(inner) => Some(Box::new((*inner)@)),
                None => None,
            },
        }
    }
}

impl View for WorkflowDetail {
    type V = WorkflowDetailView;

    open spec fn view(&self) -> WorkflowDetailView {
        WorkflowDetailView {
            summary: self.summary@,
            input: opt_view(self.input),
            output: opt_view(self.output),
            failure: opt_view(self.failure),
            history_length: self.history_length,
            memo: views(self.memo@),
            search_attributes: views(self.search_attributes@),
            pending_activities: views(self.pending_activities@),
        }
    }
}

impl Clone for FailureInfo {
    fn clone(&self) -> (r: Self)
        ensures
            r@ == self@,
        decreases self,
    {
        FailureInfo {
            message: self.message.clone(),
            failure_type: self.failure_type.clone(),
            stack_trace: clone_opt(&self.stack_trace),
            cause: match &self.cause {
                Some(inner) => Some(Box::new((**inner).clone())),
                None => None,
            },
        }
    }
}

} // verus!
