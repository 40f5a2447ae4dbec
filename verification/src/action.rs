//! The events that the state machine consumes: input and backend results.

use vstd::prelude::*;
use crate::domain::{
    HistoryEvent, HistoryEventView, Namespace, NamespaceView, Schedule, ScheduleView, TaskQueueInfo,
    TaskQueueInfoView, WorkflowDetail, WorkflowDetailView, WorkflowSummary, WorkflowSummaryView,
};
use crate::kinds::OperationId;
use crate::text::views;

verus! {

/// The top-level views that a tab stands for.
#[derive(Debug, Clone, Copy, PartialEq, Eq, Structural)]
pub enum ViewType {
    Workflows,
    Schedules,
    TaskQueues,
}

impl ViewType {
    /// The tab's title.
    pub open spec fn title(self) -> Seq<char> {
        match self {
            Self::Workflows => "Workflows"@,
            Self::Schedules => "Schedules"@,
            Self::TaskQueues => "Task Queues"@,
        }
    }

    /// The tab's title.
    pub fn label(&self) -> (s: &'static str)
        ensures
            s@ == self.title(),
    {
        match self {
            Self::Workflows => "Workflows",
            Self::Schedules => "Schedules",
            Self::TaskQueues => "Task Queues",
        }
    }
}

#[derive(Debug, Clone, PartialEq, Eq)]
pub enum Action {
    // Navigation
    NavigateUp,
    NavigateDown,
    NavigateTop,
    NavigateBottom,
    PageUp,
    PageDown,
    Select,
    Back,
    // View switching
    SwitchView(ViewType),
    // First key of the two-key chord for "top"
    EnterPendingG,
    // Operations of the current kind
    RunOperation(OperationId),
    /// The operator agrees to what the confirmation overlay asks.
    Confirm,
    // Input line and overlays
    OpenCommandInput,
    OpenSearch,
    CloseOverlay,
    SubmitCommandInput(String),
    UpdateInputBuffer(String),
    SubmitSearch(String),
    ToggleHelp,
    SwitchNamespace(String),
    // Detail views
    NextTab,
    PrevTab,
    OpenScheduleWorkflows,
    OpenWorkflowActivities,
    // Results from the backend
    WorkflowsLoaded(Vec<WorkflowSummary>, Vec<u8>),
    MoreWorkflowsLoaded(Vec<WorkflowSummary>, Vec<u8>),
    WorkflowDetailLoaded(Box<WorkflowDetail>),
    HistoryLoaded(Vec<HistoryEvent>),
    NamespacesLoaded(Vec<Namespace>),
    SchedulesLoaded(Vec<Schedule>),
    ScheduleDetailLoaded(Box<Schedule>),
    WorkflowCountLoaded(u64),
    TaskQueueDetailLoaded(Box<TaskQueueInfo>),
    // Control
    Refresh,
    Quit,
    Tick,
    Error(String),
    ClearError,
    TogglePolling,
}

pub enum ActionView {
    NavigateUp,
    NavigateDown,
    NavigateTop,
    NavigateBottom,
    PageUp,
    PageDown,
    Select,
    Back,
    SwitchView(ViewType),
    EnterPendingG,
    RunOperation(OperationId),
    Confirm,
    OpenCommandInput,
    OpenSearch,
    CloseOverlay,
    SubmitCommandInput(Seq<char>),
    UpdateInputBuffer(Seq<char>),
    SubmitSearch(Seq<char>),
    ToggleHelp,
    SwitchNamespace(Seq<char>),
    NextTab,
    PrevTab,
    OpenScheduleWorkflows,
    OpenWorkflowActivities,
    WorkflowsLoaded(Seq<WorkflowSummaryView>, Seq<u8>),
    MoreWorkflowsLoaded(Seq<WorkflowSummaryView>, Seq<u8>),
    WorkflowDetailLoaded(WorkflowDetailView),
    HistoryLoaded(Seq<HistoryEventView>),
    NamespacesLoaded(Seq<NamespaceView>),
    SchedulesLoaded(Seq<ScheduleView>),
    ScheduleDetailLoaded(ScheduleView),
    WorkflowCountLoaded(u64),
    TaskQueueDetailLoaded(TaskQueueInfoView),
    Refresh,
    Quit,
    Tick,
    Error(Seq<char>),
    ClearError,
    TogglePolling,
}

impl View for Action {
    type V = ActionView;

    open spec fn view(&self) -> ActionView {
        match *self {
            Action::NavigateUp => ActionView::NavigateUp,
            Action::NavigateDown => ActionView::NavigateDown,
            Action::NavigateTop => ActionView::NavigateTop,
            Action::NavigateBottom => ActionView::NavigateBottom,
            Action::PageUp => ActionView::PageUp,
            Action::PageDown => ActionView::PageDown,
            Action::Select => ActionView::Select,
            Action::Back => ActionView::Back,
            Action::SwitchView(v) => ActionView::SwitchView(v),
            Action::EnterPendingG => ActionView::EnterPendingG,
            Action::RunOperation(op) => ActionView::RunOperation(op),
            Action::Confirm => ActionView::Confirm,
            Action::OpenCommandInput => ActionView::OpenCommandInput,
            Action::OpenSearch => ActionView::OpenSearch,
            Action::CloseOverlay => ActionView::CloseOverlay,
            Action::SubmitCommandInput(s) => ActionView::SubmitCommandInput(s@),
            Action::UpdateInputBuffer(s) => ActionView::UpdateInputBuffer(s@),
            Action::SubmitSearch(s) => ActionView::SubmitSearch(s@),
            Action::ToggleHelp => ActionView::ToggleHelp,
            Action::SwitchNamespace(s) => ActionView::SwitchNamespace(s@),
            Action::NextTab => ActionView::NextTab,
            Action::PrevTab => ActionView::PrevTab,
            Action::OpenScheduleWorkflows => ActionView::OpenScheduleWorkflows,
            Action::OpenWorkflowActivities => ActionView::OpenWorkflowActivities,
            Action::WorkflowsLoaded(list, token) => ActionView::WorkflowsLoaded(
                views(list@),
                token@,
            ),
            Action::MoreWorkflowsLoaded(list, token) => ActionView::MoreWorkflowsLoaded(
                views(list@),
                token@,
            ),
            Action::WorkflowDetailLoaded(detail) => ActionView::WorkflowDetailLoaded((*detail)@),
            Action::HistoryLoaded(events) => ActionView::HistoryLoaded(views(events@)),
            Action::NamespacesLoaded(list) => ActionView::NamespacesLoaded(views(list@)),
            Action::SchedulesLoaded(list) => ActionView::SchedulesLoaded(views(list@)),
            Action::ScheduleDetailLoaded(schedule) => ActionView::ScheduleDetailLoaded(
                (*schedule)@,
            ),
            Action::WorkflowCountLoaded(n) => ActionView::WorkflowCountLoaded(n),
            Action::TaskQueueDetailLoaded(info) => ActionView::TaskQueueDetailLoaded((*info)@),
            Action::Refresh => ActionView::Refresh,
            Action::Quit => ActionView::Quit,
            Action::Tick => ActionView::Tick,
            Action::Error(s) => ActionView::Error(s@),
            Action::ClearError => ActionView::ClearError,
            Action::TogglePolling => ActionView::TogglePolling,
        }
    }
}

} // verus!
