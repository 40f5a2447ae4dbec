//! The protocol between the state machine and the worker that talks to the
//! backend: the request that each effect becomes, and the action that each
//! outcome becomes. The worker takes the requests one at a time, in the
//! order in which they were made, and answers each with exactly one action.

use vstd::prelude::*;
use vstd::string::*;
use crate::action::{Action, ActionView};
use crate::app::state::{App, AppView, Effect, EffectView};
use crate::client::traits::{ClientError, ClientErrorView};
use crate::domain::{
    HistoryEvent, HistoryEventView, Namespace, NamespaceView, Schedule, ScheduleView, TaskQueueInfo,
    TaskQueueInfoView, WorkflowDetail, WorkflowDetailView, WorkflowSummary, WorkflowSummaryView,
};

use crate::text::{clone_opt, lemma_views_push, opt_view, views};

verus! {

/// A call that the worker makes for the state machine.
#[derive(Debug, Clone, PartialEq, Eq)]
pub enum CliRequest {
    LoadWorkflows { namespace: String, query: Option<String>, page_size: i32, next_page_token: Vec<u8> },
    LoadMoreWorkflows {
        namespace: String,
        query: Option<String>,
        page_size: i32,
        next_page_token: Vec<u8>,
    },
    LoadWorkflowDetail { namespace: String, workflow_id: String, run_id: Option<String> },
    LoadHistory { namespace: String, workflow_id: String, run_id: Option<String> },
    LoadNamespaces,
    LoadWorkflowCount { namespace: String, query: Option<String> },
    LoadSchedules { namespace: String },
    LoadScheduleDetail { namespace: String, schedule_id: String },
    CancelWorkflow { namespace: String, workflow_id: String, run_id: Option<String> },
    TerminateWorkflow { namespace: String, workflow_id: String, run_id: Option<String> },
    PauseSchedule { namespace: String, schedule_id: String, pause: bool },
    TriggerSchedule { namespace: String, schedule_id: String },
    DeleteSchedule { namespace: String, schedule_id: String },
    DescribeTaskQueue { namespace: String, task_queue: String },
    SignalWorkflow {
        namespace: String,
        workflow_id: String,
        run_id: Option<String>,
        signal_name: String,
        input: Option<String>,
    },
}

/// What the backend gave back for a call that succeeded.
#[derive(Debug, Clone, PartialEq, Eq)]
pub enum Reply {
    Workflows(Vec<WorkflowSummary>, Vec<u8>),
    WorkflowDetail(WorkflowDetail),
    History(Vec<HistoryEvent>),
    Namespaces(Vec<Namespace>),
    WorkflowCount(u64),
    Schedules(Vec<Schedule>),
    ScheduleDetail(Schedule),
    TaskQueue(TaskQueueInfo),
    Done,
}

pub enum CliRequestView {
    LoadWorkflows {
        namespace: Seq<char>,
        query: Option<Seq<char>>,
        page_size: i32,
        next_page_token: Seq<u8>,
    },
    LoadMoreWorkflows {
        namespace: Seq<char>,
        query: Option<Seq<char>>,
        page_size: i32,
        next_page_token: Seq<u8>,
    },
    LoadWorkflowDetail { namespace: Seq<char>, workflow_id: Seq<char>, run_id: Option<Seq<char>> },
    LoadHistory { namespace: Seq<char>, workflow_id: Seq<char>, run_id: Option<Seq<char>> },
    LoadNamespaces,
    LoadWorkflowCount { namespace: Seq<char>, query: Option<Seq<char>> },
    LoadSchedules { namespace: Seq<char> },
    LoadScheduleDetail { namespace: Seq<char>, schedule_id: Seq<char> },
    CancelWorkflow { namespace: Seq<char>, workflow_id: Seq<char>, run_id: Option<Seq<char>> },
    TerminateWorkflow { namespace: Seq<char>, workflow_id: Seq<char>, run_id: Option<Seq<char>> },
    PauseSchedule { namespace: Seq<char>, schedule_id: Seq<char>, pause: bool },
    TriggerSchedule { namespace: Seq<char>, schedule_id: Seq<char> },
    DeleteSchedule { namespace: Seq<char>, schedule_id: Seq<char> },
    DescribeTaskQueue { namespace: Seq<char>, task_queue: Seq<char> },
    SignalWorkflow {
        namespace: Seq<char>,
        workflow_id: Seq<char>,
        run_id: Option<Seq<char>>,
        signal_name: Seq<char>,
        input: Option<Seq<char>>,
    },
}

pub enum ReplyView {
    Workflows(Seq<WorkflowSummaryView>, Seq<u8>),
    WorkflowDetail(WorkflowDetailView),
    History(Seq<HistoryEventView>),
    Namespaces(Seq<NamespaceView>),
    WorkflowCount(u64),
    Schedules(Seq<ScheduleView>),
    ScheduleDetail(ScheduleView),
    TaskQueue(TaskQueueInfoView),
    Done,
}

impl View for CliRequest {
    type V = CliRequestView;

    open spec fn view(&self) -> CliRequestView {
        match *self {
            CliRequest::LoadWorkflows { namespace, query, page_size, next_page_token } => {
                CliRequestView::LoadWorkflows {
                    namespace: namespace@,
                    query: opt_view(query),
                    page_size,
                    next_page_token: next_page_token@,
                }
            },
            CliRequest::LoadMoreWorkflows { namespace, query, page_size, next_page_token } => {
                CliRequestView::LoadMoreWorkflows {
                    namespace: namespace@,
                    query: opt_view(query),
                    page_size,
                    next_page_token: next_page_token@,
                }
            },
            CliRequest::LoadWorkflowDetail { namespace, workflow_id, run_id } => {
                CliRequestView::LoadWorkflowDetail {
                    namespace: namespace@,
                    workflow_id: workflow_id@,
                    run_id: opt_view(run_id),
                }
            },
            CliRequest::LoadHistory { namespace, workflow_id, run_id } => {
                CliRequestView::LoadHistory {
                    namespace: namespace@,
                    workflow_id: workflow_id@,
                    run_id: opt_view(run_id),
                }
            },
            CliRequest::LoadNamespaces => CliRequestView::LoadNamespaces,
            CliRequest::LoadWorkflowCount { namespace, query } => {
                CliRequestView::LoadWorkflowCount { namespace: namespace@, query: opt_view(query) }
            },
            CliRequest::LoadSchedules { namespace } => CliRequestView::LoadSchedules {
                namespace: namespace@,
            },
            CliRequest::LoadScheduleDetail { namespace, schedule_id } => {
                CliRequestView::LoadScheduleDetail {
                    namespace: namespace@,
                    schedule_id: schedule_id@,
                }
            },
            CliRequest::CancelWorkflow { namespace, workflow_id, run_id } => {
                CliRequestView::CancelWorkflow {
                    namespace: namespace@,
                    workflow_id: workflow_id@,
                    run_id: opt_view(run_id),
                }
            },
            CliRequest::TerminateWorkflow { namespace, workflow_id, run_id } => {
                CliRequestView::TerminateWorkflow {
                    namespace: namespace@,
                    workflow_id: workflow_id@,
                    run_id: opt_view(run_id),
                }
            },
            CliRequest::PauseSchedule { namespace, schedule_id, pause } => {
                CliRequestView::PauseSchedule {
                    namespace: namespace@,
                    schedule_id: schedule_id@,
                    pause,
                }
            },
            CliRequest::TriggerSchedule { namespace, schedule_id } => {
                CliRequestView::TriggerSchedule { namespace: namespace@, schedule_id: schedule_id@ }
            },
            CliRequest::DeleteSchedule { namespace, schedule_id } => {
                CliRequestView::DeleteSchedule { namespace: namespace@, schedule_id: schedule_id@ }
            },
            CliRequest::DescribeTaskQueue { namespace, task_queue } => {
                CliRequestView::DescribeTaskQueue { namespace: namespace@, task_queue: task_queue@ }
            },
            CliRequest::SignalWorkflow { namespace, workflow_id, run_id, signal_name, input } => {
                CliRequestView::SignalWorkflow {
                    namespace: namespace@,
                    workflow_id: workflow_id@,
                    run_id: opt_view(run_id),
                    signal_name: signal_name@,
                    input: opt_view(input),
                }
            },
        }
    }
}

impl View for Reply {
    type V = ReplyView;

    open spec fn view(&self) -> ReplyView {
        match *self {
            Reply::Workflows(list, token) => ReplyView::Workflows(views(list@), token@),
            Reply::WorkflowDetail(detail) => ReplyView::WorkflowDetail(detail@),
            Reply::History(events) => ReplyView::History(views(events@)),
            Reply::Namespaces(list) => ReplyView::Namespaces(views(list@)),
            Reply::WorkflowCount(count) => ReplyView::WorkflowCount(count),
            Reply::Schedules(list) => ReplyView::Schedules(views(list@)),
            Reply::ScheduleDetail(schedule) => ReplyView::ScheduleDetail(schedule@),
            Reply::TaskQueue(info) => ReplyView::TaskQueue(info@),
            Reply::Done => ReplyView::Done,
        }
    }
}

/// The request that carries an effect out, in the namespace and with the
/// filter, page size and continuation token of the state; none for the end
/// of the session, which is no call.
pub open spec fn request_of(effect: EffectView, app: AppView) -> Option<CliRequestView> {
    let namespace = app.namespace;
    match effect {
        EffectView::LoadWorkflows => Some(
            CliRequestView::LoadWorkflows {
                namespace,
                query: app.search_queries.workflows,
                page_size: app.page_size,
                next_page_token: Seq::empty(),
            },
        ),
        EffectView::LoadMoreWorkflows => Some(
            CliRequestView::LoadMoreWorkflows {
                namespace,
                query: app.search_queries.workflows,
                page_size: app.page_size,
                next_page_token: app.next_page_token,
            },
        ),
        EffectView::LoadWorkflowDetail(workflow_id, run_id) => Some(
            CliRequestView::LoadWorkflowDetail { namespace, workflow_id, run_id },
        ),
        EffectView::LoadHistory(workflow_id, run_id) => Some(
            CliRequestView::LoadHistory { namespace, workflow_id, run_id },
        ),
        EffectView::LoadNamespaces => Some(CliRequestView::LoadNamespaces),
        EffectView::LoadSchedules => Some(CliRequestView::LoadSchedules { namespace }),
        EffectView::LoadScheduleDetail(schedule_id) => Some(
            CliRequestView::LoadScheduleDetail { namespace, schedule_id },
        ),
        EffectView::LoadWorkflowCount => Some(
            CliRequestView::LoadWorkflowCount { namespace, query: app.search_queries.workflows },
        ),
        EffectView::CancelWorkflow(workflow_id, run_id) => Some(
            CliRequestView::CancelWorkflow { namespace, workflow_id, run_id },
        ),
        EffectView::TerminateWorkflow(workflow_id, run_id) => Some(
            CliRequestView::TerminateWorkflow { namespace, workflow_id, run_id },
        ),
        EffectView::PauseSchedule(schedule_id, pause) => Some(
            CliRequestView::PauseSchedule { namespace, schedule_id, pause },
        ),
        EffectView::TriggerSchedule(schedule_id) => Some(
            CliRequestView::TriggerSchedule { namespace, schedule_id },
        ),
        EffectView::DeleteSchedule(schedule_id) => Some(
            CliRequestView::DeleteSchedule { namespace, schedule_id },
        ),
        EffectView::LoadTaskQueueDetail(task_queue) => Some(
            CliRequestView::DescribeTaskQueue { namespace, task_queue },
        ),
        EffectView::SignalWorkflow(workflow_id, run_id, signal_name, input) => Some(
            CliRequestView::SignalWorkflow { namespace, workflow_id, run_id, signal_name, input },
        ),
        EffectView::Quit => None,
    }
}

/// The requests that carry a run of effects out, in the order of the
/// effects.
pub open spec fn requests_of(effects: Seq<EffectView>, app: AppView) -> Seq<CliRequestView>
    decreases effects.len(),
{
    if effects.len() == 0 {
        Seq::empty()
    } else {
        let before = requests_of(effects.drop_last(), app);
        match request_of(effects.last(), app) {
            Some(request) => before.push(request),
            None => before,
        }
    }
}

/// What is said when a request fails, before the failure itself.
pub open spec fn failure_prefix(request: CliRequestView) -> Seq<char> {
    match request {
        CliRequestView::LoadWorkflows { .. } => "failed to load workflows: "@,
        CliRequestView::LoadMoreWorkflows { .. } => "failed to load workflows: "@,
        CliRequestView::LoadWorkflowDetail { .. } => "failed to load workflow detail: "@,
        CliRequestView::LoadHistory { .. } => "failed to load history: "@,
        CliRequestView::LoadNamespaces => "failed to load namespaces: "@,
        CliRequestView::LoadWorkflowCount { .. } => "failed to count workflows: "@,
        CliRequestView::LoadSchedules { .. } => "failed to load schedules: "@,
        CliRequestView::LoadScheduleDetail { .. } => "failed to load schedule detail: "@,
        CliRequestView::CancelWorkflow { .. } => "failed to cancel workflow: "@,
        CliRequestView::TerminateWorkflow { .. } => "failed to terminate workflow: "@,
        CliRequestView::PauseSchedule { .. } => "failed to update schedule: "@,
        CliRequestView::TriggerSchedule { .. } => "failed to trigger schedule: "@,
        CliRequestView::DeleteSchedule { .. } => "failed to delete schedule: "@,
        CliRequestView::DescribeTaskQueue { .. } => "failed to describe task queue: "@,
        CliRequestView::SignalWorkflow { .. } => "failed to signal workflow: "@,
    }
}

/// The action that reports the failure of a request.
pub open spec fn failure_action(request: CliRequestView, error: ClientErrorView) -> ActionView {
    ActionView::Error(failure_prefix(request) + error.text())
}

/// The action that reports the success of a request: the typed result of a
/// load, or a refresh after a change. None where the reply is not of the
/// kind that the request asks for.
pub open spec fn success_action(request: CliRequestView, reply: ReplyView) -> Option<ActionView> {
    match (request, reply) {
        (CliRequestView::LoadWorkflows { .. }, ReplyView::Workflows(list, token)) => Some(
            ActionView::WorkflowsLoaded(list, token),
        ),
        (CliRequestView::LoadMoreWorkflows { .. }, ReplyView::Workflows(list, token)) => Some(
            ActionView::MoreWorkflowsLoaded(list, token),
        ),
        (CliRequestView::LoadWorkflowDetail { .. }, ReplyView::WorkflowDetail(detail)) => Some(
            ActionView::WorkflowDetailLoaded(detail),
        ),
        (CliRequestView::LoadHistory { .. }, ReplyView::History(events)) => Some(
            ActionView::HistoryLoaded(events),
        ),
        (CliRequestView::LoadNamespaces, ReplyView::Namespaces(list)) => Some(
            ActionView::NamespacesLoaded(list),
        ),
        (CliRequestView::LoadWorkflowCount { .. }, ReplyView::WorkflowCount(count)) => Some(
            ActionView::WorkflowCountLoaded(count),
        ),
        (CliRequestView::LoadSchedules { .. }, ReplyView::Schedules(list)) => Some(
            ActionView::SchedulesLoaded(list),
        ),
        (CliRequestView::LoadScheduleDetail { .. }, ReplyView::ScheduleDetail(schedule)) => Some(
            ActionView::ScheduleDetailLoaded(schedule),
        ),
        (CliRequestView::DescribeTaskQueue { .. }, ReplyView::TaskQueue(info)) => Some(
            ActionView::TaskQueueDetailLoaded(info),
        ),
        (CliRequestView::CancelWorkflow { .. }, ReplyView::Done) => Some(ActionView::Refresh),
        (CliRequestView::TerminateWorkflow { .. }, ReplyView::Done) => Some(ActionView::Refresh),
        (CliRequestView::PauseSchedule { .. }, ReplyView::Done) => Some(ActionView::Refresh),
        (CliRequestView::TriggerSchedule { .. }, ReplyView::Done) => Some(ActionView::Refresh),
        (CliRequestView::DeleteSchedule { .. }, ReplyView::Done) => Some(ActionView::Refresh),
        (CliRequestView::SignalWorkflow { .. }, ReplyView::Done) => Some(ActionView::Refresh),
        _ => None,
    }
}

/// The one action that answers a request: its typed result, a refresh, or
/// an error with a message. A reply of the wrong kind counts as a reply
/// that could not be read.
pub open spec fn outcome_action(
    request: CliRequestView,
    outcome: Result<ReplyView, ClientErrorView>,
) -> ActionView {
    match outcome {
        Ok(reply) => match success_action(request, reply) {
            Some(action) => action,
            None => failure_action(request, ClientErrorView::ParseError("unexpected reply"@)),
        },
        Err(error) => failure_action(request, error),
    }
}

/// The request that carries an effect out.
pub fn request_for(effect: &Effect, app: &App) -> (r: Option<CliRequest>)
    ensures
        opt_view(r) == request_of(effect@, app@),
{
    let namespace = app.namespace.clone();
    match effect {
        Effect::LoadWorkflows => {
            let token: Vec<u8> = Vec::new();
            assert(token@ =~= Seq::<u8>::empty());
            Some(
                CliRequest::LoadWorkflows {
                    namespace,
                    query: clone_opt(&app.search_queries.workflows),
                    page_size: app.page_size,
                    next_page_token: token,
                },
            )
        },
        Effect::LoadMoreWorkflows => Some(
            CliRequest::LoadMoreWorkflows {
                namespace,
                query: clone_opt(&app.search_queries.workflows),
                page_size: app.page_size,
                next_page_token: clone_bytes(&app.next_page_token),
            },
        ),
        Effect::LoadWorkflowDetail(workflow_id, run_id) => Some(
            CliRequest::LoadWorkflowDetail {
                namespace,
                workflow_id: workflow_id.clone(),
                run_id: clone_opt(run_id),
            },
        ),
        Effect::LoadHistory(workflow_id, run_id) => Some(
            CliRequest::LoadHistory {
                namespace,
                workflow_id: workflow_id.clone(),
                run_id: clone_opt(run_id),
            },
        ),
        Effect::LoadNamespaces => Some(CliRequest::LoadNamespaces),
        Effect::LoadSchedules => Some(CliRequest::LoadSchedules { namespace }),
        Effect::LoadScheduleDetail(schedule_id) => Some(
            CliRequest::LoadScheduleDetail { namespace, schedule_id: schedule_id.clone() },
        ),
        Effect::LoadWorkflowCount => Some(
            CliRequest::LoadWorkflowCount {
                namespace,
                query: clone_opt(&app.search_queries.workflows),
            },
        ),
        Effect::CancelWorkflow(workflow_id, run_id) => Some(
            CliRequest::CancelWorkflow {
                namespace,
                workflow_id: workflow_id.clone(),
                run_id: clone_opt(run_id),
            },
        ),
        Effect::TerminateWorkflow(workflow_id, run_id) => Some(
            CliRequest::TerminateWorkflow {
                namespace,
                workflow_id: workflow_id.clone(),
                run_id: clone_opt(run_id),
            },
        ),
        Effect::PauseSchedule(schedule_id, pause) => Some(
            CliRequest::PauseSchedule { namespace, schedule_id: schedule_id.clone(), pause: *pause },
        ),
        Effect::TriggerSchedule(schedule_id) => Some(
            CliRequest::TriggerSchedule { namespace, schedule_id: schedule_id.clone() },
        ),
        Effect::DeleteSchedule(schedule_id) => Some(
            CliRequest::DeleteSchedule { namespace, schedule_id: schedule_id.clone() },
        ),
        Effect::LoadTaskQueueDetail(task_queue) => Some(
            CliRequest::DescribeTaskQueue { namespace, task_queue: task_queue.clone() },
        ),
        Effect::SignalWorkflow(workflow_id, run_id, signal_name, input) => Some(
            CliRequest::SignalWorkflow {
                namespace,
                workflow_id: workflow_id.clone(),
                run_id: clone_opt(run_id),
                signal_name: signal_name.clone(),
                input: clone_opt(input),
            },
        ),
        Effect::Quit => None,
    }
}

fn clone_bytes(bytes: &Vec<u8>) -> (r: Vec<u8>)
    ensures
        r@ == bytes@,
{
    let mut r: Vec<u8> = Vec::new();
    let mut i: usize = 0;
    while i < bytes.len()
        invariant
            i <= bytes.len(),
            r@ == bytes@.take(i as int),
        decreases bytes.len() - i,
    {
        r.push(bytes[i]);
        i += 1;
    }
    assert(bytes@.take(i as int) =~= bytes@);
    r
}

/// The requests that carry a run of effects out, in the order of the
/// effects.
pub fn handle_effects(effects: &Vec<Effect>, app: &App) -> (requests: Vec<CliRequest>)
    ensures
        views(requests@) == requests_of(views(effects@), app@),
{
    let mut requests: Vec<CliRequest> = Vec::new();
    let mut i: usize = 0;
    assert(views(effects@).take(0) =~= Seq::<EffectView>::empty());
    assert(views(requests@) =~= Seq::<CliRequestView>::empty());
    while i < effects.len()
        invariant
            i <= effects.len(),
            views(requests@) == requests_of(views(effects@).take(i as int), app@),
        decreases effects.len() - i,
    {
        let ghost done = views(effects@).take(i + 1);
        assert(done.drop_last() =~= views(effects@).take(i as int));
        assert(done.last() == effects@[i as int]@);
        match request_for(&effects[i], app) {
            Some(request) => {
                proof {
                    lemma_views_push(requests@, request);
                }
                requests.push(request);
            },
            None => {},
        }
        i += 1;
    }
    assert(views(effects@).take(i as int) =~= views(effects@));
    requests
}

fn prefix_of(request: &CliRequest) -> (text: &'static str)
    ensures
        text@ == failure_prefix(request@),
{
    match request {
        CliRequest::LoadWorkflows { .. } => "failed to load workflows: ",
        CliRequest::LoadMoreWorkflows { .. } => "failed to load workflows: ",
        CliRequest::LoadWorkflowDetail { .. } => "failed to load workflow detail: ",
        CliRequest::LoadHistory { .. } => "failed to load history: ",
        CliRequest::LoadNamespaces => "failed to load namespaces: ",
        CliRequest::LoadWorkflowCount { .. } => "failed to count workflows: ",
        CliRequest::LoadSchedules { .. } => "failed to load schedules: ",
        CliRequest::LoadScheduleDetail { .. } => "failed to load schedule detail: ",
        CliRequest::CancelWorkflow { .. } => "failed to cancel workflow: ",
        CliRequest::TerminateWorkflow { .. } => "failed to terminate workflow: ",
        CliRequest::PauseSchedule { .. } => "failed to update schedule: ",
        CliRequest::TriggerSchedule { .. } => "failed to trigger schedule: ",
        CliRequest::DeleteSchedule { .. } => "failed to delete schedule: ",
        CliRequest::DescribeTaskQueue { .. } => "failed to describe task queue: ",
        CliRequest::SignalWorkflow { .. } => "failed to signal workflow: ",
    }
}

/// The action that reports the failure of a request.
pub fn failed(request: &CliRequest, error: &ClientError) -> (action: Action)
    ensures
        action@ == failure_action(request@, error@),
{
    let text = String::from_str(prefix_of(request)).concat(error.message().as_str());
    Action::Error(text)
}

/// The action that reports the success of a request.
pub fn succeeded(request: &CliRequest, reply: Reply) -> (action: Option<Action>)
    ensures
        opt_view(action) == success_action(request@, reply@),
{
    match (request, reply) {
        (CliRequest::LoadWorkflows { .. }, Reply::Workflows(list, token)) => Some(
            Action::WorkflowsLoaded(list, token),
        ),
        (CliRequest::LoadMoreWorkflows { .. }, Reply::Workflows(list, token)) => Some(
            Action::MoreWorkflowsLoaded(list, token),
        ),
        (CliRequest::LoadWorkflowDetail { .. }, Reply::WorkflowDetail(detail)) => Some(
            Action::WorkflowDetailLoaded(Box::new(detail)),
        ),
        (CliRequest::LoadHistory { .. }, Reply::History(events)) => Some(
            Action::HistoryLoaded(events),
        ),
        (CliRequest::LoadNamespaces, Reply::Namespaces(list)) => Some(
            Action::NamespacesLoaded(list),
        ),
        (CliRequest::LoadWorkflowCount { .. }, Reply::WorkflowCount(count)) => Some(
            Action::WorkflowCountLoaded(count),
        ),
        (CliRequest::LoadSchedules { .. }, Reply::Schedules(list)) => Some(
            Action::SchedulesLoaded(list),
        ),
        (CliRequest::LoadScheduleDetail { .. }, Reply::ScheduleDetail(schedule)) => Some(
            Action::ScheduleDetailLoaded(Box::new(schedule)),
        ),
        (CliRequest::DescribeTaskQueue { .. }, Reply::TaskQueue(info)) => Some(
            Action::TaskQueueDetailLoaded(Box::new(info)),
        ),
        (CliRequest::CancelWorkflow { .. }, Reply::Done) => Some(Action::Refresh),
        (CliRequest::TerminateWorkflow { .. }, Reply::Done) => Some(Action::Refresh),
        (CliRequest::PauseSchedule { .. }, Reply::Done) => Some(Action::Refresh),
        (CliRequest::TriggerSchedule { .. }, Reply::Done) => Some(Action::Refresh),
        (CliRequest::DeleteSchedule { .. }, Reply::Done) => Some(Action::Refresh),
        (CliRequest::SignalWorkflow { .. }, Reply::Done) => Some(Action::Refresh),
        _ => None,
    }
}

/// The one action that answers a request, given how the call to the
/// backend ended.
pub fn process(request: &CliRequest, outcome: Result<Reply, ClientError>) -> (action: Action)
    ensures
        action@ == outcome_action(
            request@,
            match outcome {
                Ok(reply) => Ok(reply@),
                Err(error) => Err(error@),
            },
        ),
{
    match outcome {
        Ok(reply) => match succeeded(request, reply) {
            Some(action) => action,
            None => failed(request, &ClientError::ParseError(String::from_str("unexpected reply"))),
        },
        Err(error) => failed(request, &error),
    }
}

} // verus!
