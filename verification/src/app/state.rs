//! The state, the effects, and their models.

use vstd::prelude::*;
use crate::action::ViewType;
use crate::app::screen;
use crate::app::screen::InputMode;
use crate::domain::{
    HistoryEvent, HistoryEventView, Namespace, NamespaceView, Schedule, ScheduleView, TaskQueueInfo,
    TaskQueueInfoView, WorkflowDetail, WorkflowDetailView, WorkflowSummary, WorkflowSummaryView,
};
use crate::kinds::{KindId, OperationId};
use crate::text::{opt_view, views};

verus! {

/// What an operation acts on.
#[derive(Debug, Clone, PartialEq, Eq)]
pub enum OperationTarget {
    Workflow { workflow_id: String, run_id: Option<String> },
    Schedule { schedule_id: String },
}

/// An operation that waits for the operator's consent.
#[derive(Debug, Clone, PartialEq, Eq)]
pub struct OperationConfirm {
    pub kind: KindId,
    pub op: OperationId,
    pub target: OperationTarget,
}

#[derive(Debug, Clone, PartialEq, Eq)]
pub enum ConfirmAction {
    Operation(OperationConfirm),
}

/// The modal layer that takes the keys while it is open.
#[derive(Debug, Clone, PartialEq, Eq)]
pub enum Overlay {
    Closed,
    Help,
    NamespaceSelector,
    Confirm(ConfirmAction),
}

/// Where the loading of something stands.
#[derive(Debug, Clone, PartialEq, Eq)]
pub enum LoadState<T> {
    NotLoaded,
    Loading,
    Loaded(T),
    Error(String),
}

#[derive(Debug, Clone, PartialEq, Eq)]
pub enum ConnectionStatus {
    Disconnected,
    Connecting,
    Connected,
    Error(String),
}

/// A request that the state machine hands to its host.
#[derive(Debug, Clone, PartialEq, Eq)]
pub enum Effect {
    LoadWorkflows,
    LoadWorkflowDetail(String, Option<String>),
    LoadHistory(String, Option<String>),
    LoadNamespaces,
    LoadSchedules,
    LoadScheduleDetail(String),
    LoadWorkflowCount,
    CancelWorkflow(String, Option<String>),
    TerminateWorkflow(String, Option<String>),
    PauseSchedule(String, bool),
    TriggerSchedule(String),
    DeleteSchedule(String),
    LoadMoreWorkflows,
    LoadTaskQueueDetail(String),
    SignalWorkflow(String, Option<String>, String, Option<String>),
    Quit,
}

/// The visibility filter of each kind; at most one per kind.
#[derive(Debug, Clone, PartialEq, Eq)]
pub struct SearchQueries {
    pub workflows: Option<String>,
    pub schedules: Option<String>,
}

/// The state of the dashboard. Times are in milliseconds on the host's
/// clock, intervals in seconds.
pub struct App {
    // What is shown
    pub view: screen::View,
    pub input_mode: InputMode,
    pub overlay: Overlay,
    // Connection
    pub namespace: String,
    pub namespaces: Vec<Namespace>,
    pub connection_status: ConnectionStatus,
    // Executions
    pub workflows: LoadState<Vec<WorkflowSummary>>,
    pub workflow_count: Option<u64>,
    pub selected_workflow: Option<WorkflowDetail>,
    pub workflow_history: LoadState<Vec<HistoryEvent>>,
    pub workflow_cursor: Option<usize>,
    pub workflow_detail_tab: usize,
    // Schedules
    pub schedules: LoadState<Vec<Schedule>>,
    pub selected_schedule: Option<Schedule>,
    pub schedule_cursor: Option<usize>,
    // Task queue of the execution in detail
    pub task_queue_detail: LoadState<TaskQueueInfo>,
    // Namespace selector
    pub namespace_cursor: Option<usize>,
    // Detail scroll
    pub detail_scroll: u16,
    // Input
    pub input_buffer: String,
    pub search_queries: SearchQueries,
    // Polling
    pub polling_enabled: bool,
    pub polling_interval: u64,
    pub base_polling_interval: u64,
    pub last_refresh: Option<u64>,
    pub error_count: u32,
    // Pagination
    pub loading_more: bool,
    pub next_page_token: Vec<u8>,
    pub page_size: i32,
    pub page_height: usize,
    // Session
    pub should_quit: bool,
    pub last_error: Option<(String, u64)>,
    pub active_tab: ViewType,
}

pub enum OperationTargetView {
    Workflow { workflow_id: Seq<char>, run_id: Option<Seq<char>> },
    Schedule { schedule_id: Seq<char> },
}

pub struct OperationConfirmView {
    pub kind: KindId,
    pub op: OperationId,
    pub target: OperationTargetView,
}

pub enum ConfirmActionView {
    Operation(OperationConfirmView),
}

pub enum OverlayView {
    Closed,
    Help,
    NamespaceSelector,
    Confirm(ConfirmActionView),
}

pub enum LoadStateView<V> {
    NotLoaded,
    Loading,
    Loaded(V),
    Error(Seq<char>),
}

pub enum ConnectionStatusView {
    Disconnected,
    Connecting,
    Connected,
    Error(Seq<char>),
}

pub enum EffectView {
    LoadWorkflows,
    LoadWorkflowDetail(Seq<char>, Option<Seq<char>>),
    LoadHistory(Seq<char>, Option<Seq<char>>),
    LoadNamespaces,
    LoadSchedules,
    LoadScheduleDetail(Seq<char>),
    LoadWorkflowCount,
    CancelWorkflow(Seq<char>, Option<Seq<char>>),
    TerminateWorkflow(Seq<char>, Option<Seq<char>>),
    PauseSchedule(Seq<char>, bool),
    TriggerSchedule(Seq<char>),
    DeleteSchedule(Seq<char>),
    LoadMoreWorkflows,
    LoadTaskQueueDetail(Seq<char>),
    SignalWorkflow(Seq<char>, Option<Seq<char>>, Seq<char>, Option<Seq<char>>),
    Quit,
}

pub struct SearchQueriesView {
    pub workflows: Option<Seq<char>>,
    pub schedules: Option<Seq<char>>,
}

pub struct AppView {
    pub view: screen::View,
    pub input_mode: InputMode,
    pub overlay: OverlayView,
    pub namespace: Seq<char>,
    pub namespaces: Seq<NamespaceView>,
    pub connection_status: ConnectionStatusView,
    pub workflows: LoadStateView<Seq<WorkflowSummaryView>>,
    pub workflow_count: Option<u64>,
    pub selected_workflow: Option<WorkflowDetailView>,
    pub workflow_history: LoadStateView<Seq<HistoryEventView>>,
    pub workflow_cursor: Option<int>,
    pub workflow_detail_tab: usize,
    pub schedules: LoadStateView<Seq<ScheduleView>>,
    pub selected_schedule: Option<ScheduleView>,
    pub schedule_cursor: Option<int>,
    pub task_queue_detail: LoadStateView<TaskQueueInfoView>,
    pub namespace_cursor: Option<int>,
    pub detail_scroll: u16,
    pub input_buffer: Seq<char>,
    pub search_queries: SearchQueriesView,
    pub polling_enabled: bool,
    pub polling_interval: u64,
    pub base_polling_interval: u64,
    pub last_refresh: Option<u64>,
    pub error_count: u32,
    pub loading_more: bool,
    pub next_page_token: Seq<u8>,
    pub page_size: i32,
    pub page_height: usize,
    pub should_quit: bool,
    pub last_error: Option<(Seq<char>, u64)>,
    pub active_tab: ViewType,
}

impl View for OperationTarget {
    type V = OperationTargetView;

    open spec fn view(&self) -> OperationTargetView {
        match *self {
            OperationTarget::Workflow { workflow_id, run_id } => OperationTargetView::Workflow {
                workflow_id: workflow_id@,
                run_id: opt_view(run_id),
            },
            OperationTarget::Schedule { schedule_id } => OperationTargetView::Schedule {
                schedule_id: schedule_id@,
            },
        }
    }
}

impl View for OperationConfirm {
    type V = OperationConfirmView;

    open spec fn view(&self) -> OperationConfirmView {
        OperationConfirmView { kind: self.kind, op: self.op, target: self.target@ }
    }
}

impl View for ConfirmAction {
    type V = ConfirmActionView;

    open spec fn view(&self) -> ConfirmActionView {
        match *self {
            ConfirmAction::Operation(c) => ConfirmActionView::Operation(c@),
        }
    }
}

impl View for Overlay {
    type V = OverlayView;

    open spec fn view(&self) -> OverlayView {
        match *self {
            Overlay::Closed => OverlayView::Closed,
            Overlay::Help => OverlayView::Help,
            Overlay::NamespaceSelector => OverlayView::NamespaceSelector,
            Overlay::Confirm(c) => OverlayView::Confirm(c@),
        }
    }
}

impl<T: View> View for LoadState<T> {
    type V = LoadStateView<T::V>;

    open spec fn view(&self) -> LoadStateView<T::V> {
        match *self {
            LoadState::NotLoaded => LoadStateView::NotLoaded,
            LoadState::Loading => LoadStateView::Loading,
            LoadState::Loaded(data) => LoadStateView::Loaded(data@),
            LoadState::Error(message) => LoadStateView::Error(message@),
        }
    }
}

/// The model of a cursor: the index of the row it points at.
pub open spec fn index_view(cursor: Option<usize>) -> Option<int> {
    match cursor {
        Some(i) => Some(i as int),
        None => None,
    }
}

/// The model of a list that is being loaded: the models of its items.
pub open spec fn list_view<T: View>(s: LoadState<Vec<T>>) -> LoadStateView<Seq<T::V>> {
    match s {
        LoadState::NotLoaded => LoadStateView::NotLoaded,
        LoadState::Loading => LoadStateView::Loading,
        LoadState::Loaded(data) => LoadStateView::Loaded(views(data@)),
        LoadState::Error(message) => LoadStateView::Error(message@),
    }
}

impl View for ConnectionStatus {
    type V = ConnectionStatusView;

    open spec fn view(&self) -> ConnectionStatusView {
        match *self {
            ConnectionStatus::Disconnected => ConnectionStatusView::Disconnected,
            ConnectionStatus::Connecting => ConnectionStatusView::Connecting,
            ConnectionStatus::Connected => ConnectionStatusView::Connected,
            ConnectionStatus::Error(message) => ConnectionStatusView::Error(message@),
        }
    }
}

impl View for Effect {
    type V = EffectView;

    open spec fn view(&self) -> EffectView {
        match *self {
            Effect::LoadWorkflows => EffectView::LoadWorkflows,
            Effect::LoadWorkflowDetail(id, run) => EffectView::LoadWorkflowDetail(
                id@,
                opt_view(run),
            ),
            Effect::LoadHistory(id, run) => EffectView::LoadHistory(id@, opt_view(run)),
            Effect::LoadNamespaces => EffectView::LoadNamespaces,
            Effect::LoadSchedules => EffectView::LoadSchedules,
            Effect::LoadScheduleDetail(id) => EffectView::LoadScheduleDetail(id@),
            Effect::LoadWorkflowCount => EffectView::LoadWorkflowCount,
            Effect::CancelWorkflow(id, run) => EffectView::CancelWorkflow(id@, opt_view(run)),
            Effect::TerminateWorkflow(id, run) => EffectView::TerminateWorkflow(
                id@,
                opt_view(run),
            ),
            Effect::PauseSchedule(id, pause) => EffectView::PauseSchedule(id@, pause),
            Effect::TriggerSchedule(id) => EffectView::TriggerSchedule(id@),
            Effect::DeleteSchedule(id) => EffectView::DeleteSchedule(id@),
            Effect::LoadMoreWorkflows => EffectView::LoadMoreWorkflows,
            Effect::LoadTaskQueueDetail(queue) => EffectView::LoadTaskQueueDetail(queue@),
            Effect::SignalWorkflow(id, run, name, input) => EffectView::SignalWorkflow(
                id@,
                opt_view(run),
                name@,
                opt_view(input),
            ),
            Effect::Quit => EffectView::Quit,
        }
    }
}

impl View for SearchQueries {
    type V = SearchQueriesView;

    open spec fn view(&self) -> SearchQueriesView {
        SearchQueriesView {
            workflows: opt_view(self.workflows),
            schedules: opt_view(self.schedules),
        }
    }
}

impl View for App {
    type V = AppView;

    open spec fn view(&self) -> AppView {
        AppView {
            view: self.view,
            input_mode: self.input_mode,
            overlay: self.overlay@,
            namespace: self.namespace@,
            namespaces: views(self.namespaces@),
            connection_status: self.connection_status@,
            workflows: list_view(self.workflows),
            workflow_count: self.workflow_count,
            selected_workflow: opt_view(self.selected_workflow),
            workflow_history: list_view(self.workflow_history),
            workflow_cursor: index_view(self.workflow_cursor),
            workflow_detail_tab: self.workflow_detail_tab,
            schedules: list_view(self.schedules),
            selected_schedule: opt_view(self.selected_schedule),
            schedule_cursor: index_view(self.schedule_cursor),
            task_queue_detail: self.task_queue_detail@,
            namespace_cursor: index_view(self.namespace_cursor),
            detail_scroll: self.detail_scroll,
            input_buffer: self.input_buffer@,
            search_queries: self.search_queries@,
            polling_enabled: self.polling_enabled,
            polling_interval: self.polling_interval,
            base_polling_interval: self.base_polling_interval,
            last_refresh: self.last_refresh,
            error_count: self.error_count,
            loading_more: self.loading_more,
            next_page_token: self.next_page_token@,
            page_size: self.page_size,
            page_height: self.page_height,
            should_quit: self.should_quit,
            last_error: match self.last_error {
                Some((message, at)) => Some((message@, at)),
                None => None,
            },
            active_tab: self.active_tab,
        }
    }
}

impl<T> LoadState<T> {
    /// What was loaded, if loading has succeeded.
    pub fn data(&self) -> (r: Option<&T>)
        ensures
            match *self {
                LoadState::Loaded(data) => r == Some(&data),
                _ => r is None,
            },
    {
        match self {
            Self::Loaded(data) => Some(data),
            _ => None,
        }
    }

    /// Whether loading is under way.
    pub fn is_loading(&self) -> (r: bool)
        ensures
            r == (*self is Loading),
    {
        matches!(self, Self::Loading)
    }
}

} // verus!
