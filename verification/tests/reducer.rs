use t9s::action::{Action, ViewType};
use t9s::app::model::Move;
use t9s::app::reducer::{
    backoff, cursor_clamped, cursor_down, cursor_moved, cursor_paged_down, cursor_paged_up,
    cursor_up, scroll_moved,
};
use t9s::app::{
    App, ConfirmAction, ConnectionStatus, Effect, InputMode, LoadState, OperationConfirm,
    OperationTarget, Overlay, View,
};
use t9s::domain::{
    Namespace, Schedule, ScheduleState, Timestamp, WorkflowDetail, WorkflowStatus, WorkflowSummary,
};
use t9s::kinds::{KindId, OperationId};
use t9s::nav::{format_deep_link, Location, RouteSegment, SchedulesRoute, WorkflowsRoute};

fn workflow(id: &str) -> WorkflowSummary {
    WorkflowSummary {
        workflow_id: id.to_string(),
        run_id: format!("run-{}", id),
        workflow_type: "OrderWorkflow".to_string(),
        status: WorkflowStatus::Running,
        start_time: Timestamp { seconds: 1_700_000_000, nanos: 0 },
        close_time: None,
        task_queue: "orders".to_string(),
    }
}

fn workflows(n: usize) -> Vec<WorkflowSummary> {
    (0..n).map(|i| workflow(&format!("wf-{}", i))).collect()
}

fn detail(id: &str) -> WorkflowDetail {
    WorkflowDetail {
        summary: workflow(id),
        input: None,
        output: None,
        failure: None,
        history_length: 0,
        memo: vec![],
        search_attributes: vec![],
        pending_activities: vec![],
    }
}

fn schedule(id: &str, state: ScheduleState) -> Schedule {
    Schedule {
        schedule_id: id.to_string(),
        workflow_type: "SyncWorkflow".to_string(),
        state,
        spec_description: String::new(),
        next_run: None,
        recent_action_count: 0,
        notes: String::new(),
    }
}

fn namespace(name: &str) -> Namespace {
    Namespace {
        name: name.to_string(),
        state: "Registered".to_string(),
        description: String::new(),
        owner_email: String::new(),
        retention: Some((86_400, 0)),
    }
}

fn loaded_app(n: usize, token: Vec<u8>) -> App {
    let mut app = App::new("default".to_string());
    let effects = app.update(Action::WorkflowsLoaded(workflows(n), token), 0);
    assert!(effects.is_empty());
    app
}

#[test]
fn apply_schedule_workflows_location_sets_query() {
    let mut app = App::new("default".to_string());
    app.selected_schedule = Some(Schedule {
        schedule_id: "nightly".to_string(),
        workflow_type: "SyncWorkflow".to_string(),
        state: ScheduleState::Active,
        spec_description: String::new(),
        next_run: None,
        recent_action_count: 0,
        notes: String::new(),
    });

    let location = Location::new(
        "default".to_string(),
        vec![RouteSegment::Schedules(SchedulesRoute::Workflows {
            schedule_id: "nightly".to_string(),
            query: Some("ExecutionStatus = 'Failed'".to_string()),
        })],
    );

    let effects = app.apply_location(location, 0);

    assert!(matches!(
        app.view,
        View::Collection(KindId::WorkflowExecution)
    ));
    assert!(effects
        .iter()
        .any(|effect| matches!(effect, Effect::LoadWorkflows)));
    assert!(effects
        .iter()
        .any(|effect| matches!(effect, Effect::LoadWorkflowCount)));
    let query = app
        .search_query_for_kind(KindId::WorkflowExecution)
        .expect("query set");
    assert_eq!(
        query,
        "(ScheduledBy = 'nightly') AND (ExecutionStatus = 'Failed')"
    );
}

#[test]
fn new_session_starts_on_the_list_of_executions() {
    let app = App::new("default".to_string());
    assert_eq!(app.view, View::Collection(KindId::WorkflowExecution));
    assert_eq!(app.input_mode, InputMode::Normal);
    assert_eq!(app.overlay, Overlay::Closed);
    assert_eq!(app.namespace, "default");
    assert_eq!(app.connection_status, ConnectionStatus::Connecting);
    assert_eq!(app.workflows, LoadState::NotLoaded);
    assert_eq!(app.workflow_cursor, None);
    assert_eq!(app.polling_interval, 3);
    assert_eq!(app.base_polling_interval, 3);
    assert_eq!(app.error_count, 0);
    assert_eq!(app.page_size, 50);
    assert_eq!(app.page_height, 20);
    assert!(app.polling_enabled);
    assert!(!app.should_quit);
    assert_eq!(app.active_tab, ViewType::Workflows);
}

#[test]
fn look_ahead_scenario_load_more_then_append() {
    let mut app = loaded_app(20, vec![1, 2, 3]);
    app.workflow_cursor = Some(14);
    assert!(!app.loading_more);

    let effects = app.update(Action::NavigateDown, 1);
    assert_eq!(effects, vec![Effect::LoadMoreWorkflows]);
    assert_eq!(app.workflow_cursor, Some(15));
    assert!(app.loading_more);

    let more: Vec<WorkflowSummary> = (20..30).map(|i| workflow(&format!("wf-{}", i))).collect();
    let effects = app.update(Action::MoreWorkflowsLoaded(more, vec![]), 2);
    assert!(effects.is_empty());
    assert!(!app.loading_more);
    assert_eq!(app.next_page_token, Vec::<u8>::new());
    let rows = app.workflows.data().expect("loaded");
    assert_eq!(rows.len(), 30);
    assert_eq!(rows[0].workflow_id, "wf-0");
    assert_eq!(rows[19].workflow_id, "wf-19");
    assert_eq!(rows[20].workflow_id, "wf-20");
    assert_eq!(rows[29].workflow_id, "wf-29");
    assert_eq!(app.workflow_cursor, Some(15));
}

#[test]
fn look_ahead_fires_once_while_a_page_is_on_its_way() {
    let mut app = loaded_app(20, vec![9]);
    app.workflow_cursor = Some(14);
    assert_eq!(app.update(Action::NavigateDown, 1), vec![Effect::LoadMoreWorkflows]);
    assert_eq!(app.update(Action::NavigateDown, 2), vec![]);
    assert_eq!(app.update(Action::PageDown, 3), vec![]);
    assert_eq!(app.update(Action::NavigateBottom, 4), vec![]);
    assert_eq!(app.workflow_cursor, Some(19));
    assert!(app.loading_more);
}

#[test]
fn look_ahead_needs_token_and_nearness() {
    let mut far = loaded_app(20, vec![9]);
    far.workflow_cursor = Some(13);
    assert_eq!(far.update(Action::NavigateDown, 1), vec![]);
    assert_eq!(far.workflow_cursor, Some(14));
    assert!(!far.loading_more);
    assert_eq!(far.update(Action::NavigateDown, 2), vec![Effect::LoadMoreWorkflows]);

    let mut last_page = loaded_app(20, vec![]);
    last_page.workflow_cursor = Some(18);
    assert_eq!(last_page.update(Action::NavigateDown, 1), vec![]);
    assert!(!last_page.loading_more);

    let mut up = loaded_app(20, vec![9]);
    up.workflow_cursor = Some(19);
    assert_eq!(up.update(Action::NavigateUp, 1), vec![]);
    assert!(!up.loading_more);
}

#[test]
fn more_workflows_before_any_list_are_dropped() {
    let mut app = App::new("default".to_string());
    app.loading_more = true;
    let effects = app.update(Action::MoreWorkflowsLoaded(workflows(3), vec![7]), 0);
    assert!(effects.is_empty());
    assert_eq!(app.workflows, LoadState::NotLoaded);
    assert_eq!(app.next_page_token, vec![7]);
    assert!(!app.loading_more);
}

#[test]
fn cursor_moves_with_clamping_and_no_wraparound() {
    let mut app = loaded_app(3, vec![]);
    assert_eq!(app.workflow_cursor, Some(0));
    app.update(Action::NavigateUp, 0);
    assert_eq!(app.workflow_cursor, Some(0));
    app.update(Action::NavigateDown, 0);
    app.update(Action::NavigateDown, 0);
    assert_eq!(app.workflow_cursor, Some(2));
    app.update(Action::NavigateDown, 0);
    assert_eq!(app.workflow_cursor, Some(2));
    app.update(Action::NavigateTop, 0);
    assert_eq!(app.workflow_cursor, Some(0));
    app.update(Action::NavigateBottom, 0);
    assert_eq!(app.workflow_cursor, Some(2));
}

#[test]
fn cursor_from_unset_and_on_empty_list() {
    let mut app = loaded_app(4, vec![]);
    app.workflow_cursor = None;
    app.update(Action::NavigateDown, 0);
    assert_eq!(app.workflow_cursor, Some(0));
    app.workflow_cursor = None;
    app.update(Action::NavigateUp, 0);
    assert_eq!(app.workflow_cursor, Some(3));

    let mut empty = loaded_app(0, vec![]);
    assert_eq!(empty.workflow_cursor, None);
    empty.update(Action::NavigateDown, 0);
    assert_eq!(empty.workflow_cursor, None);
    empty.update(Action::NavigateBottom, 0);
    assert_eq!(empty.workflow_cursor, None);

    let mut fresh = App::new("default".to_string());
    fresh.update(Action::NavigateDown, 0);
    assert_eq!(fresh.workflow_cursor, None);
}

#[test]
fn page_moves_repeat_the_single_step() {
    let mut app = loaded_app(50, vec![]);
    app.update(Action::PageDown, 0);
    assert_eq!(app.workflow_cursor, Some(20));
    app.update(Action::PageDown, 0);
    assert_eq!(app.workflow_cursor, Some(40));
    app.update(Action::PageDown, 0);
    assert_eq!(app.workflow_cursor, Some(49));
    app.update(Action::PageUp, 0);
    assert_eq!(app.workflow_cursor, Some(29));
    app.page_height = 7;
    app.update(Action::PageUp, 0);
    assert_eq!(app.workflow_cursor, Some(22));
    app.workflow_cursor = Some(3);
    app.update(Action::PageUp, 0);
    assert_eq!(app.workflow_cursor, Some(0));
}

#[test]
fn page_of_any_height_ends_at_the_edge() {
    let mut app = loaded_app(50, vec![]);
    app.page_height = usize::MAX;
    app.update(Action::PageDown, 0);
    assert_eq!(app.workflow_cursor, Some(49));
    app.update(Action::PageUp, 0);
    assert_eq!(app.workflow_cursor, Some(0));
    app.page_height = 0;
    app.update(Action::PageDown, 0);
    assert_eq!(app.workflow_cursor, Some(0));
    app.page_height = usize::MAX;
    app.update(Action::Select, 0);
    app.update(Action::PageDown, 0);
    assert_eq!(app.detail_scroll, u16::MAX);
    app.update(Action::PageUp, 0);
    assert_eq!(app.detail_scroll, 0);
}

#[test]
fn reloaded_list_rederives_the_cursor() {
    let mut app = loaded_app(10, vec![]);
    app.workflow_cursor = Some(9);
    app.update(Action::WorkflowsLoaded(workflows(4), vec![]), 10);
    assert_eq!(app.workflow_cursor, Some(3));
    app.update(Action::WorkflowsLoaded(workflows(0), vec![]), 20);
    assert_eq!(app.workflow_cursor, None);
    app.update(Action::WorkflowsLoaded(workflows(2), vec![]), 30);
    assert_eq!(app.workflow_cursor, Some(0));
    assert_eq!(app.last_refresh, Some(30));
    assert_eq!(app.connection_status, ConnectionStatus::Connected);
}

#[test]
fn detail_view_scrolls_with_saturation() {
    let mut app = loaded_app(3, vec![]);
    app.update(Action::Select, 0);
    assert_eq!(app.view, View::Detail(KindId::WorkflowExecution));
    app.update(Action::NavigateUp, 0);
    assert_eq!(app.detail_scroll, 0);
    app.update(Action::NavigateDown, 0);
    app.update(Action::NavigateDown, 0);
    assert_eq!(app.detail_scroll, 2);
    app.update(Action::PageDown, 0);
    assert_eq!(app.detail_scroll, 22);
    app.update(Action::PageUp, 0);
    assert_eq!(app.detail_scroll, 2);
    app.update(Action::PageUp, 0);
    assert_eq!(app.detail_scroll, 0);
    app.update(Action::NavigateBottom, 0);
    assert_eq!(app.detail_scroll, u16::MAX);
    app.update(Action::NavigateDown, 0);
    assert_eq!(app.detail_scroll, u16::MAX);
    app.update(Action::PageDown, 0);
    assert_eq!(app.detail_scroll, u16::MAX);
    app.update(Action::NavigateTop, 0);
    assert_eq!(app.detail_scroll, 0);
    assert_eq!(app.workflow_cursor, Some(0));
}

#[test]
fn select_opens_detail_and_asks_for_it() {
    let mut app = loaded_app(3, vec![]);
    app.workflow_cursor = Some(1);
    app.workflow_detail_tab = 4;
    app.detail_scroll = 9;
    let effects = app.update(Action::Select, 0);
    assert_eq!(
        effects,
        vec![
            Effect::LoadWorkflowDetail("wf-1".to_string(), Some("run-wf-1".to_string())),
            Effect::LoadHistory("wf-1".to_string(), Some("run-wf-1".to_string())),
        ]
    );
    assert_eq!(app.view, View::Detail(KindId::WorkflowExecution));
    assert_eq!(app.workflow_detail_tab, 0);
    assert_eq!(app.detail_scroll, 0);
    assert_eq!(app.workflow_history, LoadState::Loading);
    assert_eq!(app.task_queue_detail, LoadState::NotLoaded);

    assert_eq!(app.update(Action::Select, 0), vec![]);
}

#[test]
fn select_schedule_and_back() {
    let mut app = App::new("default".to_string());
    assert_eq!(
        app.update(Action::SwitchView(ViewType::Schedules), 0),
        vec![Effect::LoadSchedules]
    );
    assert_eq!(app.update(Action::Select, 0), vec![]);
    app.update(
        Action::SchedulesLoaded(vec![
            schedule("a", ScheduleState::Active),
            schedule("b", ScheduleState::Paused),
        ]),
        0,
    );
    assert_eq!(app.schedule_cursor, Some(0));
    app.update(Action::NavigateDown, 0);
    let effects = app.update(Action::Select, 0);
    assert_eq!(effects, vec![Effect::LoadScheduleDetail("b".to_string())]);
    assert_eq!(app.view, View::Detail(KindId::Schedule));
    app.update(
        Action::ScheduleDetailLoaded(Box::new(schedule("b", ScheduleState::Paused))),
        0,
    );
    assert!(app.selected_schedule.is_some());
    assert_eq!(app.update(Action::Back, 0), vec![]);
    assert_eq!(app.view, View::Collection(KindId::Schedule));
    assert_eq!(app.selected_schedule, None);
    assert_eq!(app.update(Action::Back, 0), vec![]);
    assert_eq!(app.view, View::Collection(KindId::Schedule));
}

#[test]
fn switch_view_to_task_queues_only_marks_the_tab() {
    let mut app = App::new("default".to_string());
    assert_eq!(app.update(Action::SwitchView(ViewType::TaskQueues), 0), vec![]);
    assert_eq!(app.active_tab, ViewType::TaskQueues);
    assert_eq!(app.view, View::Collection(KindId::WorkflowExecution));
    assert_eq!(
        app.update(Action::SwitchView(ViewType::Workflows), 0),
        vec![Effect::LoadWorkflows]
    );
}

#[test]
fn backoff_doubles_five_times_and_caps() {
    let mut app = App::new("default".to_string());
    let expected = [6u64, 12, 24, 48, 60, 60, 60];
    for (i, want) in expected.iter().enumerate() {
        let effects = app.update(Action::Error(format!("e{}", i)), 0);
        assert!(effects.is_empty());
        assert_eq!(app.error_count as usize, i + 1);
        assert_eq!(app.polling_interval, *want);
    }
    app.update(Action::WorkflowCountLoaded(12), 0);
    assert_eq!(app.polling_interval, 3);
    assert_eq!(app.error_count, 0);
    assert_eq!(app.workflow_count, Some(12));
}

#[test]
fn backoff_with_other_bases() {
    let mut one = App::new("default".to_string());
    one.base_polling_interval = 1;
    one.polling_interval = 1;
    let expected = [2u64, 4, 8, 16, 32, 32];
    for want in expected.iter() {
        one.update(Action::Error("x".to_string()), 0);
        assert_eq!(one.polling_interval, *want);
    }

    let mut slow = App::new("default".to_string());
    slow.base_polling_interval = 100;
    slow.polling_interval = 100;
    slow.update(Action::Error("x".to_string()), 0);
    assert_eq!(slow.polling_interval, 60);
    slow.update(Action::SchedulesLoaded(vec![]), 0);
    assert_eq!(slow.polling_interval, 100);

    let mut huge = App::new("default".to_string());
    huge.base_polling_interval = u64::MAX;
    huge.polling_interval = u64::MAX;
    huge.update(Action::Error("x".to_string()), 0);
    assert_eq!(huge.polling_interval, 60);

    let mut zero = App::new("default".to_string());
    zero.base_polling_interval = 0;
    zero.polling_interval = 0;
    zero.update(Action::Error("x".to_string()), 0);
    assert_eq!(zero.polling_interval, 0);
}

#[test]
fn every_result_resets_backoff() {
    let results = vec![
        Action::WorkflowsLoaded(vec![], vec![]),
        Action::MoreWorkflowsLoaded(vec![], vec![]),
        Action::WorkflowDetailLoaded(Box::new(detail("a"))),
        Action::HistoryLoaded(vec![]),
        Action::NamespacesLoaded(vec![]),
        Action::SchedulesLoaded(vec![]),
        Action::ScheduleDetailLoaded(Box::new(schedule("s", ScheduleState::Active))),
        Action::WorkflowCountLoaded(1),
    ];
    for result in results {
        let mut app = App::new("default".to_string());
        app.update(Action::Error("a".to_string()), 0);
        app.update(Action::Error("b".to_string()), 0);
        assert_eq!(app.polling_interval, 12);
        app.update(result, 0);
        assert_eq!(app.polling_interval, 3);
        assert_eq!(app.error_count, 0);
    }
}

#[test]
fn error_downgrades_only_a_healthy_connection() {
    let mut app = App::new("default".to_string());
    app.update(Action::Error("first".to_string()), 5);
    assert_eq!(app.connection_status, ConnectionStatus::Connecting);
    assert_eq!(app.last_error, Some(("first".to_string(), 5)));

    app.connection_status = ConnectionStatus::Connected;
    app.update(Action::Error("second".to_string()), 6);
    assert_eq!(app.connection_status, ConnectionStatus::Error("second".to_string()));
    app.update(Action::Error("third".to_string()), 7);
    assert_eq!(app.connection_status, ConnectionStatus::Error("second".to_string()));
    assert_eq!(app.last_error, Some(("third".to_string(), 7)));
}

#[test]
fn toast_expires_after_five_seconds_on_the_next_action() {
    let mut app = App::new("default".to_string());
    app.update(Action::Error("boom".to_string()), 1_000);
    app.update(Action::Tick, 6_000);
    assert_eq!(app.last_error, Some(("boom".to_string(), 1_000)));
    app.update(Action::TogglePolling, 6_001);
    assert_eq!(app.last_error, None);
    assert!(!app.polling_enabled);

    app.update(Action::Error("again".to_string()), 10_000);
    app.update(Action::ClearError, 10_001);
    assert_eq!(app.last_error, None);

    app.update(Action::Error("old".to_string()), 20_000);
    app.update(Action::Error("new".to_string()), 30_000);
    assert_eq!(app.last_error, Some(("new".to_string(), 30_000)));
    app.update(Action::Tick, 100);
    assert_eq!(app.last_error, Some(("new".to_string(), 30_000)));
}

#[test]
fn tick_polls_when_the_interval_has_passed() {
    let mut app = App::new("default".to_string());
    assert_eq!(
        app.update(Action::Tick, 0),
        vec![Effect::LoadWorkflows, Effect::LoadWorkflowCount]
    );
    app.update(Action::WorkflowsLoaded(workflows(1), vec![]), 1_000);
    assert_eq!(app.update(Action::Tick, 3_999), vec![]);
    assert_eq!(
        app.update(Action::Tick, 4_000),
        vec![Effect::LoadWorkflows, Effect::LoadWorkflowCount]
    );
    app.update(Action::TogglePolling, 4_000);
    assert_eq!(app.update(Action::Tick, 400_000), vec![]);
    app.update(Action::TogglePolling, 4_000);
    app.update(Action::Error("x".to_string()), 4_000);
    assert_eq!(app.polling_interval, 6);
    assert_eq!(app.update(Action::Tick, 6_999), vec![]);
    assert_eq!(app.update(Action::Tick, 7_000).len(), 2);
}

#[test]
fn refresh_asks_for_what_is_on_screen() {
    let mut app = loaded_app(2, vec![]);
    assert_eq!(
        app.update(Action::Refresh, 0),
        vec![Effect::LoadWorkflows, Effect::LoadWorkflowCount]
    );
    app.update(Action::Select, 0);
    assert_eq!(app.update(Action::Refresh, 0), vec![]);
    app.update(Action::WorkflowDetailLoaded(Box::new(detail("wf-0"))), 0);
    assert_eq!(
        app.update(Action::Refresh, 0),
        vec![Effect::LoadWorkflowDetail(
            "wf-0".to_string(),
            Some("run-wf-0".to_string())
        )]
    );
    app.update(Action::SwitchView(ViewType::Schedules), 0);
    assert_eq!(app.update(Action::Refresh, 0), vec![Effect::LoadSchedules]);
}

#[test]
fn tabs_wrap_around_in_both_directions() {
    let mut app = loaded_app(1, vec![]);
    app.update(Action::Select, 0);
    app.update(Action::WorkflowDetailLoaded(Box::new(detail("wf-0"))), 0);
    app.detail_scroll = 5;

    assert_eq!(app.update(Action::NextTab, 0), vec![]);
    assert_eq!(app.workflow_detail_tab, 1);
    assert_eq!(app.detail_scroll, 0);
    assert_eq!(
        app.update(Action::NextTab, 0),
        vec![Effect::LoadHistory("wf-0".to_string(), Some("run-wf-0".to_string()))]
    );
    assert_eq!(app.workflow_detail_tab, 2);
    assert_eq!(app.update(Action::NextTab, 0), vec![]);
    assert_eq!(
        app.update(Action::NextTab, 0),
        vec![Effect::LoadTaskQueueDetail("orders".to_string())]
    );
    assert_eq!(app.workflow_detail_tab, 4);
    assert_eq!(app.task_queue_detail, LoadState::Loading);
    assert_eq!(app.update(Action::NextTab, 0), vec![]);
    assert_eq!(app.workflow_detail_tab, 0);

    assert_eq!(
        app.update(Action::PrevTab, 0),
        vec![Effect::LoadTaskQueueDetail("orders".to_string())]
    );
    assert_eq!(app.workflow_detail_tab, 4);
    assert_eq!(app.update(Action::PrevTab, 0), vec![]);
    assert_eq!(app.workflow_detail_tab, 3);
}

#[test]
fn tab_switching_without_tabs_is_a_no_op() {
    let mut app = App::new("default".to_string());
    app.detail_scroll = 4;
    assert_eq!(app.update(Action::NextTab, 0), vec![]);
    assert_eq!(app.workflow_detail_tab, 0);
    assert_eq!(app.detail_scroll, 4);

    app.update(Action::SwitchView(ViewType::Schedules), 0);
    app.update(
        Action::SchedulesLoaded(vec![schedule("a", ScheduleState::Active)]),
        0,
    );
    app.update(Action::Select, 0);
    assert_eq!(app.view, View::Detail(KindId::Schedule));
    app.update(Action::NavigateDown, 0);
    assert_eq!(app.detail_scroll, 1);
    assert_eq!(app.update(Action::NextTab, 0), vec![]);
    assert_eq!(app.update(Action::PrevTab, 0), vec![]);
    assert_eq!(app.workflow_detail_tab, 0);
    assert_eq!(app.detail_scroll, 1);
}

#[test]
fn confirm_required_operation_waits_for_consent() {
    let mut app = loaded_app(2, vec![]);
    app.workflow_cursor = Some(1);
    let effects = app.update(Action::RunOperation(OperationId::CancelWorkflow), 0);
    assert_eq!(effects, vec![]);
    let waiting = OperationConfirm {
        kind: KindId::WorkflowExecution,
        op: OperationId::CancelWorkflow,
        target: OperationTarget::Workflow {
            workflow_id: "wf-1".to_string(),
            run_id: Some("run-wf-1".to_string()),
        },
    };
    assert_eq!(
        app.overlay,
        Overlay::Confirm(ConfirmAction::Operation(waiting))
    );

    let effects = app.update(Action::Confirm, 0);
    assert_eq!(
        effects,
        vec![Effect::CancelWorkflow(
            "wf-1".to_string(),
            Some("run-wf-1".to_string())
        )]
    );
    assert_eq!(app.overlay, Overlay::Closed);
    assert_eq!(app.update(Action::Confirm, 0), vec![]);
}

#[test]
fn cancelled_confirmation_has_no_effect() {
    let mut app = loaded_app(2, vec![]);
    assert_eq!(
        app.update(Action::RunOperation(OperationId::TerminateWorkflow), 0),
        vec![]
    );
    assert!(matches!(app.overlay, Overlay::Confirm(_)));
    assert_eq!(app.update(Action::CloseOverlay, 0), vec![]);
    assert_eq!(app.overlay, Overlay::Closed);
    assert_eq!(app.update(Action::Confirm, 0), vec![]);
}

#[test]
fn operations_of_schedules_trigger_delete_pause() {
    let mut app = App::new("default".to_string());
    app.update(Action::SwitchView(ViewType::Schedules), 0);
    app.update(
        Action::SchedulesLoaded(vec![
            schedule("a", ScheduleState::Active),
            schedule("b", ScheduleState::Paused),
        ]),
        0,
    );
    assert_eq!(
        app.update(Action::RunOperation(OperationId::TriggerSchedule), 0),
        vec![]
    );
    assert_eq!(
        app.update(Action::Confirm, 0),
        vec![Effect::TriggerSchedule("a".to_string())]
    );
    assert_eq!(
        app.update(Action::RunOperation(OperationId::DeleteSchedule), 0),
        vec![]
    );
    assert_eq!(
        app.update(Action::Confirm, 0),
        vec![Effect::DeleteSchedule("a".to_string())]
    );

    // Pausing needs no consent; it acts on the schedule in detail.
    assert_eq!(
        app.update(Action::RunOperation(OperationId::PauseSchedule), 0),
        vec![]
    );
    assert_eq!(app.overlay, Overlay::Closed);
    app.update(Action::Select, 0);
    app.update(
        Action::ScheduleDetailLoaded(Box::new(schedule("a", ScheduleState::Active))),
        0,
    );
    assert_eq!(
        app.update(Action::RunOperation(OperationId::PauseSchedule), 0),
        vec![Effect::PauseSchedule("a".to_string(), true)]
    );
    app.update(
        Action::ScheduleDetailLoaded(Box::new(schedule("a", ScheduleState::Paused))),
        0,
    );
    assert_eq!(
        app.update(Action::RunOperation(OperationId::PauseSchedule), 0),
        vec![Effect::PauseSchedule("a".to_string(), false)]
    );
}

#[test]
fn operation_without_target_or_of_another_kind() {
    let mut app = App::new("default".to_string());
    assert_eq!(
        app.update(Action::RunOperation(OperationId::CancelWorkflow), 42),
        vec![]
    );
    assert_eq!(app.overlay, Overlay::Closed);
    assert_eq!(
        app.last_error,
        Some(("no workflow selected".to_string(), 42))
    );
    app.update(Action::ClearError, 43);
    assert_eq!(
        app.update(Action::RunOperation(OperationId::DeleteSchedule), 44),
        vec![]
    );
    assert_eq!(app.last_error, None);

    app.update(Action::SwitchView(ViewType::Schedules), 45);
    assert_eq!(
        app.update(Action::RunOperation(OperationId::DeleteSchedule), 46),
        vec![]
    );
    assert_eq!(
        app.last_error,
        Some(("no schedule selected".to_string(), 46))
    );
}

#[test]
fn command_line_and_search_modes() {
    let mut app = App::new("default".to_string());
    app.update(Action::OpenCommandInput, 0);
    assert_eq!(app.input_mode, InputMode::Command);
    app.update(Action::UpdateInputBuffer("sch".to_string()), 0);
    assert_eq!(app.input_buffer, "sch");
    let effects = app.update(Action::SubmitCommandInput("  SCH  ".to_string()), 0);
    assert_eq!(effects, vec![Effect::LoadSchedules]);
    assert_eq!(app.input_mode, InputMode::Normal);
    assert_eq!(app.input_buffer, "");
    assert_eq!(app.view, View::Collection(KindId::Schedule));
    assert_eq!(app.active_tab, ViewType::Schedules);

    app.update(Action::OpenSearch, 0);
    assert_eq!(app.input_mode, InputMode::Search);
    assert_eq!(app.input_buffer, "");
    let effects = app.update(Action::SubmitSearch("ScheduleId = 'x'".to_string()), 0);
    assert_eq!(effects, vec![Effect::LoadSchedules]);
    assert_eq!(
        app.search_query_for_kind(KindId::Schedule),
        Some("ScheduleId = 'x'".to_string())
    );
    assert_eq!(app.search_query_for_kind(KindId::WorkflowExecution), None);
    app.update(Action::OpenSearch, 0);
    assert_eq!(app.input_buffer, "ScheduleId = 'x'");
    app.update(Action::CloseOverlay, 0);
    assert_eq!(app.input_mode, InputMode::Normal);
    assert_eq!(app.input_buffer, "");
    app.update(Action::SubmitSearch(String::new()), 0);
    assert_eq!(app.search_query_for_kind(KindId::Schedule), None);

    app.update(Action::SwitchView(ViewType::Workflows), 0);
    assert_eq!(
        app.update(Action::SubmitSearch("WorkflowType = 'A'".to_string()), 0),
        vec![Effect::LoadWorkflows, Effect::LoadWorkflowCount]
    );
}

#[test]
fn commands_quit_help_unknown_and_usage() {
    let mut app = App::new("default".to_string());
    assert_eq!(
        app.update(Action::SubmitCommandInput("help".to_string()), 0),
        vec![]
    );
    assert_eq!(app.overlay, Overlay::Help);
    app.update(Action::ToggleHelp, 0);
    assert_eq!(app.overlay, Overlay::Closed);
    app.update(Action::ToggleHelp, 0);
    assert_eq!(app.overlay, Overlay::Help);
    app.update(Action::CloseOverlay, 0);

    assert_eq!(
        app.update(Action::SubmitCommandInput("Frobnicate now".to_string()), 7),
        vec![]
    );
    assert_eq!(
        app.last_error,
        Some(("unknown command: frobnicate".to_string(), 7))
    );
    app.update(Action::SubmitCommandInput("".to_string()), 8);
    assert_eq!(app.last_error, Some(("unknown command: ".to_string(), 8)));
    app.update(Action::SubmitCommandInput("signal".to_string()), 9);
    assert_eq!(
        app.last_error,
        Some(("usage: :signal <name> [json-input]".to_string(), 9))
    );
    app.update(Action::SubmitCommandInput("open".to_string()), 10);
    assert_eq!(
        app.last_error,
        Some((
            "usage: :open temporal://tui/namespaces/<ns>/...".to_string(),
            10
        ))
    );
    app.update(Action::SubmitCommandInput("sig ping".to_string()), 11);
    assert_eq!(
        app.last_error,
        Some(("no workflow selected".to_string(), 11))
    );

    assert_eq!(
        app.update(Action::SubmitCommandInput("q".to_string()), 12),
        vec![Effect::Quit]
    );
    assert!(app.should_quit);
    let mut other = App::new("default".to_string());
    assert_eq!(other.update(Action::Quit, 0), vec![Effect::Quit]);
    assert!(other.should_quit);
}

#[test]
fn signal_command_splits_name_and_payload() {
    let mut app = loaded_app(2, vec![]);
    app.workflow_cursor = Some(1);
    assert_eq!(
        app.update(
            Action::SubmitCommandInput("signal approve {\"by\": \"me\"} ".to_string()),
            0
        ),
        vec![Effect::SignalWorkflow(
            "wf-1".to_string(),
            Some("run-wf-1".to_string()),
            "approve".to_string(),
            Some("{\"by\": \"me\"}".to_string()),
        )]
    );
    assert_eq!(
        app.update(Action::SubmitCommandInput("SIG  wake".to_string()), 0),
        vec![Effect::SignalWorkflow(
            "wf-1".to_string(),
            Some("run-wf-1".to_string()),
            "wake".to_string(),
            None,
        )]
    );
}

#[test]
fn open_command_applies_or_refuses_a_deep_link() {
    let mut app = loaded_app(2, vec![5]);
    app.update(Action::SubmitSearch("a".to_string()), 0);
    let effects = app.update(
        Action::SubmitCommandInput(
            "open temporal://tui/namespaces/prod/workflows/order-1?run_id=r1&tab=Task-Queue"
                .to_string(),
        ),
        3,
    );
    assert_eq!(
        effects,
        vec![
            Effect::LoadWorkflowDetail("order-1".to_string(), Some("r1".to_string())),
            Effect::LoadHistory("order-1".to_string(), Some("r1".to_string())),
        ]
    );
    assert_eq!(app.namespace, "prod");
    assert_eq!(app.view, View::Detail(KindId::WorkflowExecution));
    assert_eq!(app.workflow_detail_tab, 4);
    assert_eq!(app.workflows, LoadState::NotLoaded);
    assert_eq!(app.workflow_cursor, None);
    assert_eq!(app.next_page_token, Vec::<u8>::new());
    assert_eq!(app.search_query_for_kind(KindId::WorkflowExecution), None);
    assert_eq!(app.workflow_history, LoadState::Loading);

    let effects = app.update(
        Action::SubmitCommandInput("goto temporal://tui/namespaces/prod/nope".to_string()),
        4,
    );
    assert_eq!(effects, vec![]);
    assert_eq!(
        app.last_error,
        Some(("invalid uri: unsupported route".to_string(), 4))
    );
    app.update(Action::SubmitCommandInput("open http://x".to_string()), 5);
    assert_eq!(
        app.last_error,
        Some(("invalid uri: invalid scheme".to_string(), 5))
    );
    app.update(Action::SubmitCommandInput("open temporal://x/y".to_string()), 6);
    assert_eq!(
        app.last_error,
        Some(("invalid uri: invalid authority".to_string(), 6))
    );
    app.update(Action::SubmitCommandInput("open temporal://tui/y".to_string()), 7);
    assert_eq!(
        app.last_error,
        Some(("invalid uri: missing namespace".to_string(), 7))
    );
    app.update(
        Action::SubmitCommandInput("open temporal://tui/namespaces/y".to_string()),
        8,
    );
    assert_eq!(
        app.last_error,
        Some(("invalid uri: invalid path".to_string(), 8))
    );
}

#[test]
fn apply_location_of_each_route() {
    let mut app = loaded_app(3, vec![1]);
    let effects = app.apply_location(
        Location::new(
            "default".to_string(),
            vec![RouteSegment::Workflows(WorkflowsRoute::Activities {
                workflow_id: "w".to_string(),
                activity_id: Some("a".to_string()),
            })],
        ),
        0,
    );
    assert_eq!(
        effects,
        vec![
            Effect::LoadWorkflowDetail("w".to_string(), None),
            Effect::LoadHistory("w".to_string(), None),
        ]
    );
    assert_eq!(app.workflow_detail_tab, 3);
    assert_eq!(app.workflows, LoadState::NotLoaded);
    assert_eq!(app.next_page_token, Vec::<u8>::new());

    let effects = app.apply_location(
        Location::new(
            "default".to_string(),
            vec![RouteSegment::Schedules(SchedulesRoute::Collection {
                query: Some("x".to_string()),
            })],
        ),
        0,
    );
    assert_eq!(effects, vec![Effect::LoadSchedules]);
    assert_eq!(app.view, View::Collection(KindId::Schedule));
    assert_eq!(app.search_query_for_kind(KindId::Schedule), Some("x".to_string()));

    let effects = app.apply_location(
        Location::new(
            "default".to_string(),
            vec![RouteSegment::Schedules(SchedulesRoute::Detail {
                schedule_id: "s".to_string(),
            })],
        ),
        0,
    );
    assert_eq!(effects, vec![Effect::LoadScheduleDetail("s".to_string())]);
    assert_eq!(app.view, View::Detail(KindId::Schedule));

    let effects = app.apply_location(
        Location::new(
            "default".to_string(),
            vec![RouteSegment::Workflows(WorkflowsRoute::Collection { query: None })],
        ),
        0,
    );
    assert_eq!(effects, vec![Effect::LoadWorkflows, Effect::LoadWorkflowCount]);
    assert_eq!(app.active_tab, ViewType::Workflows);

    let effects = app.apply_location(Location::new("other".to_string(), vec![]), 77);
    assert_eq!(effects, vec![]);
    assert_eq!(app.namespace, "other");
    assert_eq!(app.workflows, LoadState::NotLoaded);
    assert_eq!(
        app.last_error,
        Some(("invalid uri: missing route".to_string(), 77))
    );
}

#[test]
fn location_of_each_view() {
    let mut app = loaded_app(2, vec![]);
    app.update(Action::SubmitSearch("A = 'b'".to_string()), 0);
    assert_eq!(
        app.location(),
        Location::new(
            "default".to_string(),
            vec![RouteSegment::Workflows(WorkflowsRoute::Collection {
                query: Some("A = 'b'".to_string()),
            })],
        )
    );
    app.update(Action::Select, 0);
    assert_eq!(
        app.location(),
        Location::new(
            "default".to_string(),
            vec![RouteSegment::Workflows(WorkflowsRoute::Collection {
                query: Some("A = 'b'".to_string()),
            })],
        )
    );
    app.update(Action::WorkflowDetailLoaded(Box::new(detail("wf-0"))), 0);
    assert_eq!(
        app.location(),
        Location::new(
            "default".to_string(),
            vec![RouteSegment::Workflows(WorkflowsRoute::Detail {
                workflow_id: "wf-0".to_string(),
                run_id: Some("run-wf-0".to_string()),
                tab: None,
            })],
        )
    );
    app.update(Action::SwitchView(ViewType::Schedules), 0);
    app.update(
        Action::ScheduleDetailLoaded(Box::new(schedule("s1", ScheduleState::Active))),
        0,
    );
    assert_eq!(
        app.location(),
        Location::new(
            "default".to_string(),
            vec![RouteSegment::Schedules(SchedulesRoute::Collection { query: None })],
        )
    );
    app.view = View::Detail(KindId::Schedule);
    assert_eq!(
        app.location(),
        Location::new(
            "default".to_string(),
            vec![RouteSegment::Schedules(SchedulesRoute::Detail {
                schedule_id: "s1".to_string(),
            })],
        )
    );
}

#[test]
fn namespace_switch_clears_what_belonged_to_the_old_one() {
    let mut app = loaded_app(20, vec![1]);
    app.update(Action::SubmitSearch("x".to_string()), 0);
    app.update(Action::Select, 0);
    app.update(Action::WorkflowDetailLoaded(Box::new(detail("wf-0"))), 0);
    app.loading_more = true;
    app.workflow_detail_tab = 2;
    let effects = app.update(Action::SwitchNamespace("prod".to_string()), 0);
    assert_eq!(effects, vec![Effect::LoadWorkflows, Effect::LoadWorkflowCount]);
    assert_eq!(app.namespace, "prod");
    assert_eq!(app.view, View::Collection(KindId::WorkflowExecution));
    assert_eq!(app.workflows, LoadState::NotLoaded);
    assert_eq!(app.schedules, LoadState::NotLoaded);
    assert_eq!(app.workflow_history, LoadState::NotLoaded);
    assert_eq!(app.workflow_cursor, None);
    assert_eq!(app.selected_workflow, None);
    assert_eq!(app.search_query_for_kind(KindId::WorkflowExecution), None);
    assert_eq!(app.next_page_token, Vec::<u8>::new());
    assert!(!app.loading_more);
    assert_eq!(app.workflow_detail_tab, 0);

    let effects = app.update(Action::SubmitCommandInput("ns  staging ".to_string()), 0);
    assert_eq!(effects, vec![Effect::LoadWorkflows, Effect::LoadWorkflowCount]);
    assert_eq!(app.namespace, "staging");
}

#[test]
fn namespace_selector_lists_moves_and_selects() {
    let mut app = App::new("default".to_string());
    app.update(Action::SwitchView(ViewType::Schedules), 0);
    let effects = app.update(Action::SubmitCommandInput("ns".to_string()), 0);
    assert_eq!(effects, vec![Effect::LoadNamespaces]);
    assert_eq!(app.overlay, Overlay::NamespaceSelector);
    assert_eq!(app.update(Action::Select, 0), vec![]);
    app.update(
        Action::NamespacesLoaded(vec![namespace("default"), namespace("prod"), namespace("qa")]),
        0,
    );
    assert_eq!(app.namespace_cursor, Some(0));
    app.update(Action::NavigateDown, 0);
    assert_eq!(app.namespace_cursor, Some(1));
    assert_eq!(app.schedule_cursor, None);
    app.update(Action::NavigateBottom, 0);
    assert_eq!(app.namespace_cursor, Some(2));
    app.update(Action::NavigateUp, 0);
    let effects = app.update(Action::Select, 0);
    assert_eq!(effects, vec![Effect::LoadSchedules]);
    assert_eq!(app.namespace, "prod");
    assert_eq!(app.overlay, Overlay::Closed);
    assert_eq!(app.view, View::Collection(KindId::Schedule));
}

#[test]
fn chord_for_top_starts_and_ends() {
    let mut app = loaded_app(5, vec![]);
    app.workflow_cursor = Some(3);
    app.update(Action::EnterPendingG, 0);
    assert_eq!(app.input_mode, InputMode::PendingG);
    app.update(Action::NavigateTop, 0);
    assert_eq!(app.input_mode, InputMode::Normal);
    assert_eq!(app.workflow_cursor, Some(0));
    app.update(Action::EnterPendingG, 0);
    app.update(Action::CloseOverlay, 0);
    assert_eq!(app.input_mode, InputMode::Normal);
}

#[test]
fn cross_navigation_from_schedule_and_workflow() {
    let mut app = App::new("default".to_string());
    assert_eq!(app.update(Action::OpenScheduleWorkflows, 0), vec![]);
    assert_eq!(app.update(Action::OpenWorkflowActivities, 0), vec![]);
    app.update(Action::SwitchView(ViewType::Schedules), 0);
    app.update(
        Action::SchedulesLoaded(vec![schedule("night'ly", ScheduleState::Active)]),
        0,
    );
    let effects = app.update(Action::OpenScheduleWorkflows, 0);
    assert_eq!(effects, vec![Effect::LoadWorkflows, Effect::LoadWorkflowCount]);
    assert_eq!(app.view, View::Collection(KindId::WorkflowExecution));
    assert_eq!(
        app.search_query_for_kind(KindId::WorkflowExecution),
        Some("ScheduledBy = 'night\\'ly'".to_string())
    );

    app.update(Action::WorkflowsLoaded(workflows(2), vec![]), 0);
    let effects = app.update(Action::OpenWorkflowActivities, 0);
    assert_eq!(
        effects,
        vec![
            Effect::LoadWorkflowDetail("wf-0".to_string(), None),
            Effect::LoadHistory("wf-0".to_string(), None),
        ]
    );
    assert_eq!(app.view, View::Detail(KindId::WorkflowExecution));
    assert_eq!(app.workflow_detail_tab, 3);
}

#[test]
fn detail_keeps_what_only_the_history_provides() {
    let mut app = loaded_app(1, vec![]);
    app.update(Action::Select, 0);
    let mut first = detail("wf-0");
    first.input = Some("[1]".to_string());
    first.history_length = 12;
    app.update(Action::WorkflowDetailLoaded(Box::new(first)), 0);
    let mut second = detail("wf-0");
    second.output = Some("\"done\"".to_string());
    app.update(Action::WorkflowDetailLoaded(Box::new(second)), 0);
    let shown = app.selected_workflow.clone().expect("detail");
    assert_eq!(shown.input, Some("[1]".to_string()));
    assert_eq!(shown.output, Some("\"done\"".to_string()));
    assert_eq!(shown.history_length, 12);
    let mut third = detail("wf-0");
    third.input = Some("[2]".to_string());
    third.history_length = 3;
    app.update(Action::WorkflowDetailLoaded(Box::new(third)), 0);
    let shown = app.selected_workflow.clone().expect("detail");
    assert_eq!(shown.input, Some("[2]".to_string()));
    assert_eq!(shown.output, Some("\"done\"".to_string()));
    assert_eq!(shown.history_length, 3);
}

#[test]
fn deep_link_of_a_view_leads_back_to_it() {
    let mut app = loaded_app(3, vec![]);
    app.update(Action::SubmitSearch("WorkflowType = 'A'".to_string()), 0);
    let uri = format_deep_link(&app.location());
    assert_eq!(
        uri,
        "temporal://tui/namespaces/default/workflows?q=WorkflowType%20%3D%20%27A%27"
    );
    let mut other = App::new("default".to_string());
    let effects = other.update(Action::SubmitCommandInput(format!("open {}", uri)), 0);
    assert_eq!(effects, vec![Effect::LoadWorkflows, Effect::LoadWorkflowCount]);
    assert_eq!(other.location(), app.location());
    assert_eq!(
        other.search_query_for_kind(KindId::WorkflowExecution),
        Some("WorkflowType = 'A'".to_string())
    );
}

#[test]
fn cursor_functions_on_plain_values() {
    assert_eq!(cursor_up(None, 0), None);
    assert_eq!(cursor_up(None, 4), Some(3));
    assert_eq!(cursor_up(Some(0), 4), Some(0));
    assert_eq!(cursor_up(Some(2), 4), Some(1));
    assert_eq!(cursor_up(Some(9), 4), Some(3));
    assert_eq!(cursor_down(None, 0), None);
    assert_eq!(cursor_down(None, 4), Some(0));
    assert_eq!(cursor_down(Some(2), 4), Some(3));
    assert_eq!(cursor_down(Some(3), 4), Some(3));
    assert_eq!(cursor_down(Some(usize::MAX), 4), Some(3));
    assert_eq!(cursor_clamped(None, 0), None);
    assert_eq!(cursor_clamped(Some(2), 0), None);
    assert_eq!(cursor_clamped(None, 3), Some(0));
    assert_eq!(cursor_clamped(Some(2), 3), Some(2));
    assert_eq!(cursor_clamped(Some(3), 3), Some(2));
    assert_eq!(cursor_moved(Some(1), 10, Move::Top, 3), Some(0));
    assert_eq!(cursor_moved(Some(1), 10, Move::Bottom, 3), Some(9));
    assert_eq!(cursor_moved(Some(1), 10, Move::PageDown, 3), Some(4));
    assert_eq!(cursor_moved(None, 10, Move::PageDown, 3), Some(2));
    assert_eq!(cursor_moved(Some(8), 10, Move::PageDown, 3), Some(9));
    assert_eq!(cursor_moved(Some(4), 10, Move::PageUp, 3), Some(1));
    assert_eq!(cursor_moved(None, 10, Move::PageUp, 3), Some(7));
    assert_eq!(cursor_moved(Some(4), 10, Move::PageUp, 0), Some(4));
    assert_eq!(cursor_moved(Some(4), 10, Move::Up, 9), Some(3));
    assert_eq!(cursor_moved(Some(4), 10, Move::Down, 9), Some(5));
    assert_eq!(cursor_paged_down(Some(5), 0, 2), None);
    assert_eq!(cursor_paged_up(Some(5), 3, usize::MAX), Some(0));
}

#[test]
fn scroll_and_backoff_on_plain_values() {
    assert_eq!(scroll_moved(0, Move::Up, 20), 0);
    assert_eq!(scroll_moved(7, Move::Up, 20), 6);
    assert_eq!(scroll_moved(7, Move::Down, 20), 8);
    assert_eq!(scroll_moved(u16::MAX, Move::Down, 20), u16::MAX);
    assert_eq!(scroll_moved(7, Move::Top, 20), 0);
    assert_eq!(scroll_moved(7, Move::Bottom, 20), u16::MAX);
    assert_eq!(scroll_moved(30, Move::PageUp, 20), 10);
    assert_eq!(scroll_moved(7, Move::PageUp, 20), 0);
    assert_eq!(scroll_moved(7, Move::PageDown, 20), 27);
    assert_eq!(scroll_moved(65_530, Move::PageDown, 20), u16::MAX);
    assert_eq!(scroll_moved(7, Move::PageDown, 70_000), u16::MAX);
    assert_eq!(scroll_moved(65_000, Move::PageUp, 70_000), 0);

    assert_eq!(backoff(3, 0), 3);
    assert_eq!(backoff(3, 1), 6);
    assert_eq!(backoff(3, 4), 48);
    assert_eq!(backoff(3, 5), 60);
    assert_eq!(backoff(1, 5), 32);
    assert_eq!(backoff(1, 6), 32);
    assert_eq!(backoff(1, u32::MAX), 32);
    assert_eq!(backoff(59, 0), 59);
    assert_eq!(backoff(60, 0), 60);
    assert_eq!(backoff(61, 0), 60);
    assert_eq!(backoff(0, 5), 0);
    assert_eq!(backoff(u64::MAX, 5), 60);
}

#[test]
fn deep_link_into_the_same_namespace_clears_what_was_loaded() {
    let mut app = loaded_app(20, vec![7, 7]);
    app.update(Action::SubmitSearch("old".to_string()), 0);
    app.update(Action::SwitchView(ViewType::Schedules), 0);
    app.update(
        Action::SchedulesLoaded(vec![schedule("a", ScheduleState::Active)]),
        0,
    );
    app.update(Action::SubmitSearch("paused".to_string()), 0);
    app.update(Action::Select, 0);
    app.update(
        Action::ScheduleDetailLoaded(Box::new(schedule("a", ScheduleState::Active))),
        0,
    );
    app.selected_workflow = Some(detail("wf-0"));
    app.loading_more = true;
    app.workflow_cursor = Some(12);
    app.workflow_detail_tab = 2;
    app.detail_scroll = 9;

    let effects = app.apply_location(
        Location::new(
            "default".to_string(),
            vec![RouteSegment::Workflows(WorkflowsRoute::Collection {
                query: Some("new".to_string()),
            })],
        ),
        0,
    );
    assert_eq!(effects, vec![Effect::LoadWorkflows, Effect::LoadWorkflowCount]);
    assert_eq!(app.namespace, "default");
    assert_eq!(app.view, View::Collection(KindId::WorkflowExecution));
    assert_eq!(app.workflows, LoadState::NotLoaded);
    assert_eq!(app.schedules, LoadState::NotLoaded);
    assert_eq!(app.workflow_history, LoadState::NotLoaded);
    assert_eq!(app.task_queue_detail, LoadState::NotLoaded);
    assert_eq!(app.workflow_cursor, None);
    assert_eq!(app.schedule_cursor, None);
    assert_eq!(app.selected_workflow, None);
    assert_eq!(app.selected_schedule, None);
    assert_eq!(app.next_page_token, Vec::<u8>::new());
    assert!(!app.loading_more);
    assert_eq!(app.workflow_detail_tab, 0);
    assert_eq!(app.detail_scroll, 0);
    assert_eq!(
        app.search_query_for_kind(KindId::WorkflowExecution),
        Some("new".to_string())
    );
    assert_eq!(app.search_query_for_kind(KindId::Schedule), None);

    let mut other = loaded_app(3, vec![1]);
    let effects = other.update(
        Action::SubmitCommandInput(
            "open temporal://tui/namespaces/default/workflows/w?tab=history".to_string(),
        ),
        0,
    );
    assert_eq!(effects.len(), 2);
    assert_eq!(other.workflows, LoadState::NotLoaded);
    assert_eq!(other.workflow_history, LoadState::Loading);
    assert_eq!(other.workflow_cursor, None);
    assert_eq!(other.next_page_token, Vec::<u8>::new());
    assert_eq!(other.workflow_detail_tab, 2);
}

#[test]
fn error_count_stops_at_its_largest_value() {
    let mut app = App::new("default".to_string());
    app.error_count = u32::MAX - 1;
    app.polling_interval = 60;
    app.update(Action::Error("a".to_string()), 0);
    assert_eq!(app.error_count, u32::MAX);
    assert_eq!(app.polling_interval, 60);
    app.update(Action::Error("b".to_string()), 0);
    assert_eq!(app.error_count, u32::MAX);
    assert_eq!(app.polling_interval, 60);
    assert_eq!(app.last_error, Some(("b".to_string(), 0)));
    app.update(Action::WorkflowCountLoaded(1), 0);
    assert_eq!(app.error_count, 0);
    assert_eq!(app.polling_interval, 3);
}
